//! What the player's controller is for, as laws over its steps: what is asked
//! of the player, and what the web interface gets to hear.

use crate::json::JsonView;
use crate::number::{real_zero, Real};
use crate::playback::{DataView, Format, PropView};
use crate::player::{
    ActiveView, Clock, DisplayOutputMode, DisplayOutputState, EndReason, InView, PlayerActionView,
    PlayerView, Purpose, RetryView,
};
use crate::player_rules::{fresh_url, CmdView, LoadState, StartHint};
use crate::text::has_text;
use vstd::prelude::*;

verus! {

/// The action was added to the outbox.
pub open spec fn adds(before: PlayerView, after: PlayerView, action: PlayerActionView) -> bool {
    exists|i: int|
        before.outbox.len() <= i < after.outbox.len() && #[trigger] after.outbox[i] == action
}

/// A file is loaded, under some number.
pub open spec fn is_load_of(action: PlayerActionView, cmd: CmdView) -> bool {
    action matches PlayerActionView::Command { cmd: c, purpose, .. } && c == cmd && purpose
        == Purpose::Load
}

/// The command, as the web interface or the shell gave it, is under way.
pub open spec fn loads(after: PlayerView, cmd: CmdView, url: Seq<char>, now: u64) -> bool {
    &&& after.state == LoadState::Loading
    &&& !after.playback.file_loaded
    &&& !after.playback.stopping
    &&& after.outbox.len() > 0
    &&& is_load_of(after.outbox.last(), cmd)
    &&& after.active matches Some(a)
    &&& a.cmd == cmd
    &&& a.url == url
    &&& a.queued_at == now
    &&& !a.replied
    &&& !a.started
    &&& after.outbox.last()->Command_request_id == a.request_id
}

/// Everything but the outbox, the properties that wait and the numbering.
proof fn presetting_keeps_the_rest(v: PlayerView, props: Seq<(Seq<char>, PropView)>)
    ensures
        ({
            let p = v.preset(props);
            &&& p == (PlayerView {
                outbox: p.outbox,
                waiting: p.waiting,
                next_id: p.next_id,
                ..v
            })
            &&& p.outbox.len() >= v.outbox.len()
            &&& p.outbox.take(v.outbox.len() as int) == v.outbox
            &&& forall|i: int|
                v.outbox.len() <= i < p.outbox.len() ==> (#[trigger] p.outbox[i]) is SetProperty
        }),
    decreases props.len(),
{
    if props.len() == 0 {
        assert(v.preset(props).outbox.take(v.outbox.len() as int) =~= v.outbox);
    } else {
        presetting_keeps_the_rest(v, props.drop_last());
        let b = v.preset(props.drop_last());
        let p = v.preset(props);
        assert(p.outbox.take(v.outbox.len() as int) =~= b.outbox.take(v.outbox.len() as int));
    }
}

/// What is not of the file is set before a load, with the value that waited;
/// what is of the file waits on.
pub proof fn waiting_settings_are_made(
    v: PlayerView,
    props: Seq<(Seq<char>, PropView)>,
    k: int,
)
    requires
        0 <= k < props.len(),
    ensures
        ({
            let (name, value) = props[k];
            let p = v.preset(props);
            if name == "sid"@ || name == "aid"@ || name == "vid"@ {
                exists|i: int| 0 <= i < p.waiting.len() && #[trigger] p.waiting[i] == (name, value)
            } else {
                exists|i: int|
                    v.outbox.len() <= i < p.outbox.len() && (#[trigger] p.outbox[i] matches PlayerActionView::SetProperty {
                        name: n,
                        value: x,
                        notify,
                        ..
                    } && n == name && x == value && !notify)
            }
        }),
    decreases props.len(),
{
    let (name, value) = props[k];
    let p = v.preset(props);
    let b = v.preset(props.drop_last());
    presetting_keeps_the_rest(v, props);
    presetting_keeps_the_rest(v, props.drop_last());
    if k == props.len() - 1 {
        if name == "sid"@ || name == "aid"@ || name == "vid"@ {
            assert(p.waiting[p.waiting.len() - 1] == (name, value));
        } else {
            assert(p.outbox[p.outbox.len() - 1] is SetProperty);
        }
    } else {
        waiting_settings_are_made(v, props.drop_last(), k);
        if name == "sid"@ || name == "aid"@ || name == "vid"@ {
            let i = choose|i: int|
                0 <= i < b.waiting.len() && #[trigger] b.waiting[i] == (name, value);
            assert(p.waiting[i] == b.waiting[i]);
        } else {
            let i = choose|i: int|
                v.outbox.len() <= i < b.outbox.len() && (#[trigger] b.outbox[i] matches PlayerActionView::SetProperty {
                    name: n,
                    value: x,
                    notify,
                    ..
                } && n == name && x == value && !notify);
            assert(p.outbox[i] == b.outbox[i]);
        }
    }
}

/// A load command is sent as it is; the one before it is given up.
proof fn loading_sends(v: PlayerView, cmd: CmdView, start: Option<Real>, now: u64)
    requires
        cmd.name == "loadfile"@,
        1 <= cmd.args.len() <= 4,
    ensures
        loads(v.loading(cmd, start, now), cmd, cmd.args[0], now),
        v.loading(cmd, start, now).active->0.start == start,
        v.loading(cmd, start, now).current_url == v.current_url,
        v.loading(cmd, start, now).pending == v.pending,
        v.loading(cmd, start, now).retry == v.retry,
        v.loading(cmd, start, now).stop_request == v.stop_request,
        v.loading(cmd, start, now).retries == v.retries,
        v.loading(cmd, start, now).recoveries == v.recoveries,
        v.loading(cmd, start, now).eof_reloads == v.eof_reloads,
        v.loading(cmd, start, now).reload_url == v.reload_url,
        v.loading(cmd, start, now).reload_seek == v.reload_seek,
        v.loading(cmd, start, now).playback.stream_url == v.playback.stream_url,
        v.loading(cmd, start, now).playback.time == v.playback.time,
        v.loading(cmd, start, now).playback.duration == v.playback.duration,
        v.loading(cmd, start, now).outbox.len() > v.outbox.len(),
        v.loading(cmd, start, now).outbox.take(v.outbox.len() as int) == v.outbox,
        v.active matches Some(a) ==> v.loading(cmd, start, now).outbox[v.outbox.len() as int] == (
        PlayerActionView::Abort { request_id: a.request_id }),
        forall|i: int|
            v.outbox.len() <= i < v.loading(cmd, start, now).outbox.len() ==> !(
            (#[trigger] v.loading(cmd, start, now).outbox[i]) is Ended),
{
    presetting_keeps_the_rest(v.aborted(), v.waiting);
    let after = v.loading(cmd, start, now);
    let given_up = v.aborted();
    assert(after.outbox.take(v.outbox.len() as int) =~= v.outbox) by {
        let p = given_up.preset(v.waiting);
        assert forall|i: int| 0 <= i < v.outbox.len() implies after.outbox[i] == v.outbox[i] by {
            assert(p.outbox.take(given_up.outbox.len() as int)[i] == given_up.outbox[i]);
        }
    }
    let p = given_up.preset(v.waiting);
    if v.active is Some {
        assert(p.outbox.take(given_up.outbox.len() as int)[v.outbox.len() as int]
            == given_up.outbox[v.outbox.len() as int]);
    }
    assert forall|i: int| v.outbox.len() <= i < after.outbox.len() implies !(
    (#[trigger] after.outbox[i]) is Ended) by {
        if i < p.outbox.len() {
            if i < given_up.outbox.len() {
                assert(p.outbox.take(given_up.outbox.len() as int)[i] == given_up.outbox[i]);
            } else {
                assert(p.outbox[i] is SetProperty);
            }
        }
    }
}

// ---------------------------------------------------------------------------
// Loading and stopping
// ---------------------------------------------------------------------------

/// A command to load is sent, unless a stop is under way: the file's address is
/// the one that is known from then on, the load before it is given up, and a
/// new address starts all counts and positions anew.
pub proof fn loads_are_sent(v: PlayerView, cmd: CmdView, hint: StartHint, now: u64)
    requires
        v.state != LoadState::Stopping,
        cmd.name == "loadfile"@,
        1 <= cmd.args.len() <= 4,
        cmd.args.len() < 3 || cmd.args.last().len() > 0,
        hint.start is None,
    ensures
        ({
            let after = v.asked(InView::Command { cmd, hint }, now);
            &&& loads(after, cmd, cmd.args[0], now)
            &&& after.active->0.start is None
            &&& after.current_url == cmd.args[0]
            &&& after.playback.stream_url == cmd.args[0]
            &&& v.active matches Some(a) ==> adds(
                v,
                after,
                PlayerActionView::Abort { request_id: a.request_id },
            )
            &&& !has_text(cmd.args[0], "_reload="@) ==> after.retries == 0 && after.recoveries == 0
                && after.eof_reloads == 0 && after.retry is None && after.reload_url is None
                && after.reload_seek is None && after.playback.time == real_zero()
                && after.playback.duration == real_zero()
            &&& has_text(cmd.args[0], "_reload="@) ==> after.retries == v.retries
                && after.recoveries == v.recoveries && after.eof_reloads == v.eof_reloads
                && after.reload_seek == v.reload_seek && after.playback.time == v.playback.time
        }),
{
    if cmd.args.len() >= 3 {
        assert(cmd.args.update(cmd.args.len() - 1, cmd.args.last()) =~= cmd.args);
    }
    let ready = v.captured(cmd.args[0]);
    loading_sends(ready, cmd, None, now);
    let after = v.asked(InView::Command { cmd, hint }, now);
    assert(after == ready.loading(cmd, None, now));
    if v.active is Some {
        assert(after.outbox[v.outbox.len() as int] == (PlayerActionView::Abort {
            request_id: v.active->0.request_id,
        }));
    }
}

/// A load that comes with a place to start keeps it, unless the place is left
/// over from the stream before.
pub proof fn starts_are_kept(v: PlayerView, cmd: CmdView, hint: StartHint, now: u64)
    requires
        v.state != LoadState::Stopping,
        cmd.name == "loadfile"@,
        3 <= cmd.args.len() <= 4,
        cmd.args.last().len() > 0,
        v.playback.stream_url.len() == 0 || v.playback.stream_url == cmd.args[0] || !has_text(
            cmd.args[0],
            ":11470/"@,
        ) || has_text(cmd.args[0], "_reload="@),
    ensures
        loads(v.asked(InView::Command { cmd, hint }, now), cmd, cmd.args[0], now),
        v.asked(InView::Command { cmd, hint }, now).active->0.start == hint.start,
{
    assert(cmd.args.update(cmd.args.len() - 1, cmd.args.last()) =~= cmd.args);
    loading_sends(v.captured(cmd.args[0]), cmd, hint.start, now);
}

/// Other commands reach the player as they are, at once and under a number of
/// their own, and change nothing else.
pub proof fn commands_reach_the_player(v: PlayerView, cmd: CmdView, hint: StartHint, now: u64)
    requires
        cmd.name != "loadfile"@,
        cmd.name != "stop"@ || cmd.args.len() > 0,
    ensures
        ({
            let after = v.asked(InView::Command { cmd, hint }, now);
            &&& after == (PlayerView { outbox: after.outbox, next_id: after.next_id, ..v })
            &&& after.outbox == v.outbox.push(
                PlayerActionView::Command { request_id: v.next_id, cmd, purpose: Purpose::Other },
            )
            &&& v.next_id < u64::MAX ==> after.next_id == v.next_id + 1
        }),
{
}

/// Numbers go up one by one, and begin anew after the last: no two in a row are
/// the same.
pub proof fn numbers_follow(id: u64)
    ensures
        crate::player::following(id) != id,
        id < u64::MAX ==> crate::player::following(id) == id + 1,
        crate::player::following(u64::MAX) == 0,
{
}

/// A stop of what plays is sent and waited for; a load that has not begun is
/// just given up, and where nothing plays there is nothing to stop. What is
/// stopped is loaded no more.
pub proof fn stops_stop(v: PlayerView, hint: StartHint, now: u64)
    ensures
        ({
            let stop = CmdView { name: "stop"@, args: Seq::empty() };
            let after = v.asked(InView::Command { cmd: stop, hint }, now);
            let begun = v.state == LoadState::Loaded || (v.state == LoadState::Loading && (
            v.active is None || v.active->0.started));
            &&& begun ==> {
                &&& after.state == LoadState::Stopping
                &&& after.stop_started == Some(now)
                &&& !after.playback.file_loaded
                &&& after.playback.stopping
                &&& after.outbox.last() matches PlayerActionView::Command {
                    cmd,
                    purpose,
                    request_id,
                }
                &&& cmd == stop
                &&& purpose == Purpose::Stop
                &&& after.stop_request == Some(request_id)
            }
            &&& !begun && v.state != LoadState::Stopping ==> {
                &&& after.state == LoadState::Idle
                &&& after.active is None
                &&& v.state == LoadState::Loading ==> after.stop_started is None
                    && after.stop_request is None && !after.playback.stopping
                    && !after.playback.file_loaded
                &&& forall|i: int|
                    v.outbox.len() <= i < after.outbox.len() ==> !((#[trigger] after.outbox[i]) is Command)
            }
            &&& v.state == LoadState::Stopping ==> after == v
            &&& v.state == LoadState::Loading && v.active is Some ==> after.active is None && adds(
                v,
                after,
                PlayerActionView::Abort { request_id: v.active->0.request_id },
            )
        }),
{
    reveal_strlit("stop");
    reveal_strlit("loadfile");
    assert("stop"@.len() != "loadfile"@.len());
    let stop = CmdView { name: "stop"@, args: Seq::empty() };
    let after = v.asked(InView::Command { cmd: stop, hint }, now);
    if v.state == LoadState::Loading && v.active is Some {
        assert(after.outbox[v.outbox.len() as int] is Abort);
    }
}

/// When the stop is answered, the load that waited for it is sent; without one
/// the player is idle.
pub proof fn answered_stops_go_on(v: PlayerView, id: u64, now: u64)
    requires
        v.state == LoadState::Stopping,
        v.stop_request == Some(id),
        v.pending matches Some(p) ==> p.cmd.name == "loadfile"@ && 1 <= p.cmd.args.len() <= 4,
    ensures
        ({
            let after = v.answered(id, now);
            &&& after.pending is None
            &&& after.stop_request is None
            &&& after.stop_started is None
            &&& !after.playback.stopping
            &&& v.pending matches Some(p) ==> loads(after, p.cmd, p.cmd.args[0], now)
                && after.active->0.start == p.start
            &&& v.pending is None ==> after.state == LoadState::Idle
        }),
{
    released_loads_go_on(PlayerView { stop_request: None, ..v }, now);
}

proof fn released_loads_go_on(v: PlayerView, now: u64)
    requires
        v.pending matches Some(p) ==> p.cmd.name == "loadfile"@ && 1 <= p.cmd.args.len() <= 4,
    ensures
        ({
            let after = v.released(now);
            &&& after.pending is None
            &&& after.stop_request is None
            &&& after.stop_started is None
            &&& !after.playback.stopping
            &&& !after.playback.file_loaded
            &&& after.current_url == v.current_url
            &&& after.retries == v.retries
            &&& after.recoveries == v.recoveries
            &&& after.outbox.len() >= v.outbox.len()
            &&& after.outbox.take(v.outbox.len() as int) == v.outbox
            &&& v.pending matches Some(p) ==> loads(after, p.cmd, p.cmd.args[0], now)
                && after.active->0.start == p.start
            &&& v.pending is None ==> after.state == LoadState::Idle && after.active == v.active
        }),
{
    let flagged = v.flagged(false, false);
    presetting_keeps_the_rest(flagged, v.waiting);
    let idle = PlayerView {
        state: LoadState::Idle,
        stop_started: None,
        stop_request: None,
        ..flagged.preset(v.waiting)
    };
    if v.pending is Some {
        let p = v.pending->0;
        let ready = PlayerView { pending: None, ..idle };
        loading_sends(ready, p.cmd, p.start, now);
        let after = v.released(now);
        assert(after == ready.loading(p.cmd, p.start, now));
        assert(after.outbox.take(v.outbox.len() as int) =~= v.outbox) by {
            assert forall|i: int| 0 <= i < v.outbox.len() implies after.outbox[i]
                == v.outbox[i] by {
                assert(after.outbox.take(ready.outbox.len() as int)[i] == ready.outbox[i]);
                assert(ready.outbox.take(v.outbox.len() as int)[i] == v.outbox[i]);
            }
        }
    }
}

/// A stop is waited for two seconds and no longer: then it is given up, and
/// what waited for it goes on.
pub proof fn stops_are_given_up_in_time(v: PlayerView, since: u64, now: u64)
    requires
        v.state == LoadState::Stopping,
        v.stop_started == Some(since),
        v.pending matches Some(p) ==> p.cmd.name == "loadfile"@ && 1 <= p.cmd.args.len() <= 4,
    ensures
        now < since + 2_000_000_000 ==> v.stop_flushed(now) == v,
        now >= since + 2_000_000_000 ==> {
            let after = v.stop_flushed(now);
            &&& after.state != LoadState::Stopping
            &&& after.stop_request is None
            &&& after.pending is None
            &&& v.pending matches Some(p) ==> loads(after, p.cmd, p.cmd.args[0], now)
            &&& v.stop_request matches Some(id) ==> adds(
                v,
                after,
                PlayerActionView::Abort { request_id: id },
            )
        },
{
    if now >= since + 2_000_000_000 {
        let given_up = match v.stop_request {
            Some(id) => PlayerView { stop_request: None, ..v }.doing(
                PlayerActionView::Abort { request_id: id },
            ),
            None => v,
        };
        released_loads_go_on(given_up, now);
        let after = v.stop_flushed(now);
        if v.stop_request is Some {
            assert(after.outbox.take(given_up.outbox.len() as int)[v.outbox.len() as int]
                == given_up.outbox[v.outbox.len() as int]);
        }
    }
}

/// Only a stop that is under way is given up.
pub proof fn nothing_else_is_given_up(v: PlayerView, now: u64)
    requires
        v.state != LoadState::Stopping || v.stop_started is None,
    ensures
        v.stop_flushed(now) == v,
{
}

/// An answer concerns the command it answers: that of the active load marks it
/// as taken on, that of another changes nothing.
pub proof fn answers_find_their_commands(v: PlayerView, id: u64, now: u64)
    requires
        v.stop_request != Some(id),
    ensures
        ({
            let after = v.answered(id, now);
            &&& v.active is Some && v.active->0.request_id == id ==> after == (PlayerView {
                active: Some(ActiveView { replied: true, ..v.active->0 }),
                ..v
            })
            &&& v.active is None || v.active->0.request_id != id ==> after == v
        }),
{
}

/// A refused load is over; a refused stop is not waited for by its number; what
/// the player takes on changes nothing but whether its filter is in place.
pub proof fn refusals_are_noted(v: PlayerView, id: u64, accepted: bool)
    ensures
        ({
            let load = v.submitted(id, Purpose::Load, accepted);
            let mine = v.active matches Some(a) && a.request_id == id;
            &&& !accepted && mine ==> load == (PlayerView {
                active: None,
                state: LoadState::Idle,
                ..v
            })
            &&& accepted || !mine ==> load == v
        }),
        !accepted && v.stop_request == Some(id) ==> v.submitted(id, Purpose::Stop, accepted) == (
        PlayerView { stop_request: None, ..v }),
        accepted || v.stop_request != Some(id) ==> v.submitted(id, Purpose::Stop, accepted) == v,
        v.submitted(id, Purpose::Other, accepted) == v,
        v.submitted(id, Purpose::AddFilter, true).filter,
        v.submitted(id, Purpose::AddFilter, false).filter == v.filter,
        !v.submitted(id, Purpose::RemoveFilter, true).filter,
        v.submitted(id, Purpose::RemoveFilter, false).filter == v.filter,
{
}

// ---------------------------------------------------------------------------
// The end of a file
// ---------------------------------------------------------------------------

/// The stream ended early enough to be loaded anew: it is the local server's,
/// longer than half a minute, and under way, with more than ten seconds to go.
pub open spec fn ends_early(v: PlayerView, tail: Real) -> bool {
    &&& has_text(v.current_url, "127.0.0.1:11470"@)
    &&& (Real { bits: 0x403e_0000_0000_0000 }).less(v.playback.duration)
    &&& real_zero().less(v.playback.time)
    &&& v.playback.time.less(tail)
}

/// A load from the local server that began and failed, with attempts left.
pub open spec fn may_be_tried_again(v: PlayerView) -> bool {
    &&& v.state == LoadState::Loading
    &&& has_text(v.current_url, ":11470/"@)
    &&& v.active matches Some(a)
    &&& a.started
    &&& v.retries < 60
}

/// The end of a file is reported, once and with its reason, unless the file was
/// stopped, gave way to another, or is loaded anew: so the web interface can go
/// on to what comes next.
pub proof fn ends_are_reported(v: PlayerView, reason: EndReason, tail: Real, clock: Clock)
    requires
        v.pending is None,
    ensures
        ({
            let after = v.file_ended(reason, tail, clock);
            let told = v.outbox.push(PlayerActionView::Ended(reason));
            &&& reason == EndReason::Eof && !(ends_early(v, tail) && v.eof_reloads == 0)
                ==> after.outbox == told
            &&& reason == EndReason::Error && !may_be_tried_again(v) ==> after.outbox == told
            &&& reason == EndReason::Other ==> after.outbox == told
            &&& reason == EndReason::Stop || reason == EndReason::Quit || reason
                == EndReason::Redirect ==> after.outbox == v.outbox
            &&& reason == EndReason::Error && may_be_tried_again(v) ==> after.outbox == v.outbox
        }),
{
}

/// A file that ended is loaded no more, and no stop is waited for.
pub proof fn ended_files_are_gone(v: PlayerView, reason: EndReason, tail: Real, clock: Clock)
    requires
        v.pending is None,
        !(reason == EndReason::Eof && ends_early(v, tail) && v.eof_reloads == 0),
    ensures
        ({
            let after = v.file_ended(reason, tail, clock);
            &&& !after.playback.file_loaded
            &&& !after.playback.stopping
            &&& after.stop_started is None
            &&& after.stop_request is None
            &&& v.active is None ==> after.state == LoadState::Idle
            &&& v.active is Some ==> after.state == LoadState::Loading && after.active == v.active
            &&& after.current_url == v.current_url
        }),
{
}

/// A stream of the local server that ends early is loaded anew, once, and goes
/// on where it was: nothing is reported.
pub proof fn early_ends_are_mended(v: PlayerView, tail: Real, clock: Clock)
    requires
        v.pending is None,
        v.eof_reloads == 0,
        ends_early(v, tail),
    ensures
        ({
            let after = v.file_ended(EndReason::Eof, tail, clock);
            let url = fresh_url(v.current_url, clock.unix_millis);
            &&& loads(
                after,
                CmdView { name: "loadfile"@, args: seq![url, "replace"@] },
                url,
                clock.now,
            )
            &&& after.eof_reloads == 1
            &&& after.current_url == url
            &&& after.reload_url == Some(url)
            &&& after.reload_seek == Some(v.playback.time)
            &&& forall|i: int|
                v.outbox.len() <= i < after.outbox.len() ==> !((#[trigger] after.outbox[i]) is Ended)
        }),
{
    let done = v.file_done();
    let url = fresh_url(v.current_url, clock.unix_millis);
    let ready = PlayerView {
        eof_reloads: 1,
        reload_url: Some(url),
        reload_seek: Some(v.playback.time),
        ..done.at_url(url)
    };
    loading_sends(ready, CmdView { name: "loadfile"@, args: seq![url, "replace"@] }, None, clock.now);
}

/// A file that ends while another waits gives way to it: the other is loaded,
/// and the end is not reported.
pub proof fn what_waits_comes_next(v: PlayerView, reason: EndReason, tail: Real, clock: Clock)
    requires
        v.pending matches Some(p) && p.cmd.name == "loadfile"@ && 1 <= p.cmd.args.len() <= 4,
    ensures
        ({
            let after = v.file_ended(reason, tail, clock);
            let p = v.pending->0;
            &&& loads(after, p.cmd, p.cmd.args[0], clock.now)
            &&& after.active->0.start == p.start
            &&& after.pending is None
            &&& forall|i: int|
                v.outbox.len() <= i < after.outbox.len() ==> !((#[trigger] after.outbox[i]) is Ended)
        }),
{
    let tried = if reason == EndReason::Error {
        v.failed(clock)
    } else {
        v
    };
    let p = v.pending->0;
    let ready = PlayerView { pending: None, ..tried.file_done() };
    loading_sends(ready, p.cmd, p.start, clock.now);
}

/// A local stream that failed to start is tried again: the attempt is noted
/// with its time, the address it is for and a fresh one, and where it is to go
/// on. Another failure schedules nothing.
pub proof fn failed_starts_are_tried_again(v: PlayerView, clock: Clock)
    ensures
        may_be_tried_again(v) ==> {
            let after = v.failed(clock);
            &&& after == (PlayerView { retries: after.retries, retry: after.retry, ..v })
            &&& after.retries == v.retries + 1
            &&& after.retry == Some(
                RetryView {
                    scheduled_at: clock.now,
                    expected_url: v.current_url,
                    retry_url: fresh_url(v.current_url, clock.unix_millis),
                    attempt: after.retries,
                    resume: v.active->0.start,
                },
            )
        },
        !may_be_tried_again(v) ==> v.failed(clock) == v,
{
}

/// An attempt is made five seconds after it was scheduled, where the stream is
/// still the wanted one and nothing is being stopped; before that nothing
/// happens, and in no case is it made twice.
pub proof fn attempts_are_made_in_time(v: PlayerView, r: RetryView, now: u64)
    requires
        v.retry == Some(r),
    ensures
        now < r.scheduled_at + 5_000_000_000 ==> v.retry_flushed(now) == v,
        now >= r.scheduled_at + 5_000_000_000 ==> v.retry_flushed(now).retry is None,
        now >= r.scheduled_at + 5_000_000_000 && v.state != LoadState::Stopping && v.current_url
            == r.expected_url ==> {
            let after = v.retry_flushed(now);
            &&& loads(
                after,
                CmdView { name: "loadfile"@, args: seq![r.retry_url, "replace"@] },
                r.retry_url,
                now,
            )
            &&& after.current_url == r.retry_url
            &&& r.resume is Some ==> after.reload_url == Some(r.retry_url) && after.reload_seek
                == r.resume
        },
        v.state == LoadState::Stopping || v.current_url != r.expected_url ==> v.retry_flushed(
            now,
        ).outbox == v.outbox && v.retry_flushed(now).active == v.active,
{
    let taken = PlayerView { retry: None, ..v };
    let moved = taken.at_url(r.retry_url);
    let ready = if r.resume is Some {
        PlayerView { reload_url: Some(r.retry_url), reload_seek: r.resume, ..moved }
    } else {
        moved
    };
    loading_sends(
        ready,
        CmdView { name: "loadfile"@, args: seq![r.retry_url, "replace"@] },
        None,
        now,
    );
}

/// A load that the player does not answer for eight seconds is sent anew with a
/// fresh address, keeping its options and its start, at most three times; one
/// that began, or whose time has not come, is left alone.
pub proof fn silent_loads_are_sent_anew(v: PlayerView, a: ActiveView, clock: Clock)
    requires
        v.active == Some(a),
        a.cmd.name == "loadfile"@,
        1 <= a.cmd.args.len() <= 4,
    ensures
        a.started ==> v.load_flushed(clock) == v,
        !a.replied && clock.now < a.queued_at + 8_000_000_000 ==> v.load_flushed(clock) == v,
        !a.started && !a.replied && clock.now >= a.queued_at + 8_000_000_000 && v.recoveries >= 3
            ==> v.load_flushed(clock) == v,
        !a.started && !a.replied && clock.now >= a.queued_at + 8_000_000_000 && v.recoveries < 3
            ==> {
            let after = v.load_flushed(clock);
            let url = fresh_url(a.cmd.args[0], clock.unix_millis);
            &&& loads(
                after,
                CmdView { name: "loadfile"@, args: a.cmd.args.update(0, url) },
                url,
                clock.now,
            )
            &&& after.active->0.start == a.start
            &&& after.recoveries == v.recoveries + 1
            &&& after.current_url == url
            &&& adds(v, after, PlayerActionView::Abort { request_id: a.request_id })
        },
{
    let url = fresh_url(a.cmd.args[0], clock.unix_millis);
    let cmd = CmdView { name: "loadfile"@, args: a.cmd.args.update(0, url) };
    if !a.started && !a.replied && clock.now >= a.queued_at + 8_000_000_000 && v.recoveries < 3 {
        let ready = PlayerView {
            recoveries: (v.recoveries + 1) as u32,
            pending: Some(crate::player::PendingView { cmd, start: a.start }),
            ..v.aborted().at_url(url)
        };
        assert(cmd.args[0] == url);
        released_loads_go_on(ready, clock.now);
        let after = v.load_flushed(clock);
        assert(after == ready.released(clock.now));
        assert(after.outbox.take(ready.outbox.len() as int)[v.outbox.len() as int]
            == ready.outbox[v.outbox.len() as int]);
    }
}

/// A load that was answered but does not begin for twenty seconds is given up
/// and the player stopped, unless it comes from the local server.
pub proof fn idle_loads_are_given_up(v: PlayerView, a: ActiveView, clock: Clock)
    requires
        v.active == Some(a),
        a.replied,
        !a.started,
    ensures
        clock.now < a.queued_at + 20_000_000_000 || has_text(a.url, ":11470/"@) ==> v.load_flushed(
            clock,
        ) == v,
        clock.now >= a.queued_at + 20_000_000_000 && !has_text(a.url, ":11470/"@) ==> {
            let after = v.load_flushed(clock);
            &&& after.active is None
            &&& after.state == LoadState::Idle
            &&& after.retry == v.retry
            &&& after.outbox == v.outbox.push(
                PlayerActionView::Abort { request_id: a.request_id },
            ).push(
                PlayerActionView::Command {
                    request_id: v.next_id,
                    cmd: CmdView { name: "stop"@, args: Seq::empty() },
                    purpose: Purpose::Other,
                },
            )
        },
{
}

// ---------------------------------------------------------------------------
// Files that play
// ---------------------------------------------------------------------------

/// A file that begins is loading: nothing of the one before is left of position,
/// length and chapters, and the load that led to it has begun.
pub proof fn files_begin_anew(v: PlayerView)
    ensures
        ({
            let after = v.file_started();
            &&& after.state == LoadState::Loading
            &&& after.playback.time == real_zero()
            &&& after.playback.duration == real_zero()
            &&& after.playback.chapter == -1
            &&& after.playback.chapter_count == 0
            &&& after.playback.chapter_title.len() == 0
            &&& !after.playback.file_loaded
            &&& !after.playback.stopping
            &&& after.outbox == v.outbox
            &&& v.active matches Some(a) ==> after.active == Some(ActiveView { started: true, ..a })
            &&& v.active is None ==> after.active is None
            &&& after.waiting == v.waiting
            &&& after.current_url == v.current_url
            &&& after.playback.paused == v.playback.paused
            &&& after.playback.volume == v.playback.volume
        }),
{
}

/// The action makes a setting and has the web interface hear of it.
pub open spec fn makes(action: PlayerActionView, setting: (Seq<char>, PropView)) -> bool {
    action matches PlayerActionView::SetProperty { name, value, notify, .. } && name == setting.0
        && value == setting.1 && notify
}

proof fn setting_in_order(v: PlayerView, props: Seq<(Seq<char>, PropView)>)
    ensures
        ({
            let s = v.file_set(props);
            &&& s == (PlayerView { outbox: s.outbox, waiting: Seq::empty(), next_id: s.next_id, ..v })
            &&& s.outbox.len() == v.outbox.len() + props.len()
            &&& s.outbox.take(v.outbox.len() as int) == v.outbox
            &&& forall|i: int|
                0 <= i < props.len() ==> makes(s.outbox[v.outbox.len() + i], #[trigger] props[i])
        }),
    decreases props.len(),
{
    if props.len() == 0 {
        assert(v.file_set(props).outbox.take(v.outbox.len() as int) =~= v.outbox);
    } else {
        setting_in_order(v, props.drop_last());
        let b = v.file_set(props.drop_last());
        let s = v.file_set(props);
        assert(s.outbox.take(v.outbox.len() as int) =~= b.outbox.take(v.outbox.len() as int));
        assert forall|i: int| 0 <= i < props.len() implies makes(
            s.outbox[v.outbox.len() + i],
            #[trigger] props[i],
        ) by {
            if i < props.len() - 1 {
                assert(props.drop_last()[i] == props[i]);
                assert(s.outbox[v.outbox.len() + i] == b.outbox[v.outbox.len() + i]);
            }
        }
    }
}

/// A loaded file plays: every setting that waited for it is made and the web
/// interface told, in order; its length, position and the like are asked for;
/// and a reload goes to where the stream was.
pub proof fn loaded_files_get_their_settings(v: PlayerView, k: int)
    ensures
        ({
            let after = v.file_loaded();
            let n = v.outbox.len() as int;
            let w = v.waiting.len() as int;
            &&& after.state == LoadState::Loaded
            &&& after.playback.file_loaded
            &&& !after.playback.stopping
            &&& after.active is None
            &&& after.retry is None
            &&& after.retries == 0
            &&& after.waiting.len() == 0
            &&& after.display is None
            &&& after.display_refresh is None
            &&& v.playback.load_epoch < u64::MAX ==> after.playback.load_epoch
                == v.playback.load_epoch + 1
            &&& 0 <= k < w ==> makes(after.outbox[n + k], v.waiting[k])
            &&& reads(after.outbox[n + w], "duration"@)
            &&& reads(after.outbox[n + w + 1], "time-pos"@)
            &&& reads(after.outbox[n + w + 2], "pause"@)
            &&& reads(after.outbox[n + w + 3], "volume"@)
            &&& reads(after.outbox[n + w + 4], "mute"@)
            &&& reads(after.outbox[n + w + 5], "aid"@)
            &&& reads(after.outbox[n + w + 6], "vid"@)
            &&& reads(after.outbox[n + w + 7], "sid"@)
            &&& after.reload_url is None
            &&& v.reload_url is Some ==> after.reload_seek is None
            &&& v.reload_url == Some(v.current_url) && v.reload_seek is Some ==> after.outbox.len()
                == n + w + 9 && (after.outbox[n + w + 8] matches PlayerActionView::Seek {
                position,
                ..
            } && Some(position) == v.reload_seek)
            &&& v.reload_url != Some(v.current_url) || v.reload_seek is None ==> after.outbox.len()
                == n + w + 8
        }),
{
    let ready = PlayerView {
        state: LoadState::Loaded,
        stop_started: None,
        stop_request: None,
        active: None,
        retry: None,
        retries: 0,
        playback: crate::playback::PlaybackView {
            load_epoch: crate::player::following(v.playback.load_epoch),
            file_loaded: true,
            stopping: false,
            ..v.playback
        },
        ..v
    };
    setting_in_order(ready, v.waiting);
    let s = ready.file_set(v.waiting);
    let after = v.file_loaded();
    let n = v.outbox.len() as int;
    let w = v.waiting.len() as int;
    let asked = s.unseen().snapshot();
    assert(asked.outbox.len() == n + w + 8);
    if 0 <= k < w {
        assert(after.outbox[n + k] == s.outbox[n + k]);
        assert(v.waiting[k] == v.waiting[k]);
    }
}

/// The action asks for the value of a property.
pub open spec fn reads(action: PlayerActionView, name: Seq<char>) -> bool {
    action matches PlayerActionView::Read { name: n, .. } && n == name
}

// ---------------------------------------------------------------------------
// Properties
// ---------------------------------------------------------------------------

/// The value that is asked for is the value that is set, and the web interface
/// hears of it, unless it has to wait: the tracks until the file is loaded.
pub proof fn settings_reach_the_player(
    v: PlayerView,
    name: Seq<char>,
    value: PropView,
    now: u64,
)
    requires
        name != "vo"@,
        name != "hwdec"@,
        name != "sub-ass-override"@,
        v.state != LoadState::Stopping,
    ensures
        ({
            let after = v.asked(InView::SetProp { name, value }, now);
            let track = name == "sid"@ || name == "aid"@ || name == "vid"@;
            &&& !track || v.state == LoadState::Loaded ==> after.waiting == v.waiting
                && after.outbox == v.outbox.push(
                PlayerActionView::SetProperty {
                    request_id: v.next_id,
                    name,
                    value,
                    notify: true,
                    remember: true,
                    refresh: false,
                },
            )
            &&& track && v.state != LoadState::Loaded ==> {
                &&& after.outbox.len() == v.outbox.len() + 1
                &&& after.outbox.last() matches PlayerActionView::Emit { name: n, .. }
                &&& n == name
                &&& exists|i: int|
                    0 <= i < after.waiting.len() && #[trigger] after.waiting[i] == (name, value)
            }
        }),
{
    let after = v.asked(InView::SetProp { name, value }, now);
    if (name == "sid"@ || name == "aid"@ || name == "vid"@) && v.state != LoadState::Loaded {
        settings_wait_with_their_value(v.waiting, name, value);
    }
}

proof fn settings_wait_with_their_value(
    waiting: Seq<(Seq<char>, PropView)>,
    name: Seq<char>,
    value: PropView,
)
    ensures
        exists|i: int|
            0 <= i < crate::player::queued(waiting, name, value).len()
                && #[trigger] crate::player::queued(waiting, name, value)[i] == (name, value),
{
    let after = crate::player::queued(waiting, name, value);
    let place = crate::player::place_of(waiting, name);
    crate::player::place_is_first(waiting, name);
    if place < waiting.len() {
        assert(after[place] == (name, value));
    } else {
        assert(after[waiting.len() as int] == (name, value));
    }
}

/// While a stop is under way, settings that a file starts with wait for it, with
/// their latest value, and others go through.
pub proof fn settings_wait_for_stops(
    v: PlayerView,
    name: Seq<char>,
    value: PropView,
    now: u64,
)
    requires
        v.state == LoadState::Stopping,
        name == "pause"@ || name == "volume"@ || name == "mute"@ || name == "speed"@ || name
            == "sub-scale"@ || name == "sub-pos"@,
    ensures
        ({
            let after = v.asked(InView::SetProp { name, value }, now);
            &&& after.next_id == v.next_id
            &&& after.outbox.len() == v.outbox.len() + 1
            &&& after.outbox.last() is Emit
            &&& exists|i: int|
                0 <= i < after.waiting.len() && #[trigger] after.waiting[i] == (name, value)
        }),
{
    other_names(name);
    settings_wait_with_their_value(v.waiting, name, value);
}

proof fn other_names(name: Seq<char>)
    requires
        name == "pause"@ || name == "volume"@ || name == "mute"@ || name == "speed"@ || name
            == "sub-scale"@ || name == "sub-pos"@,
    ensures
        name != "vo"@,
        name != "hwdec"@,
        name != "sub-ass-override"@,
        name != "sid"@,
        name != "aid"@,
        name != "vid"@,
{
    reveal_strlit("pause");
    reveal_strlit("volume");
    reveal_strlit("mute");
    reveal_strlit("speed");
    reveal_strlit("sub-scale");
    reveal_strlit("sub-pos");
    reveal_strlit("vo");
    reveal_strlit("hwdec");
    reveal_strlit("sub-ass-override");
    reveal_strlit("sid");
    reveal_strlit("aid");
    reveal_strlit("vid");
    assert("pause"@[0] != "hwdec"@[0]);
    assert("speed"@[0] != "hwdec"@[0]);
    assert(4 <= name.len() <= 9);
}

/// Pausing is known at once, whatever becomes of the request.
pub proof fn pausing_is_known_at_once(v: PlayerView, paused: bool, now: u64)
    ensures
        v.asked(
            InView::SetProp { name: "pause"@, value: PropView::Bool(paused) },
            now,
        ).playback.paused == paused,
{
    other_names("pause"@);
}

/// What the player took on is what is known, and the web interface hears of it
/// where it wants to; what the player refused is as if it had not been asked.
pub proof fn answers_are_told(
    v: PlayerView,
    name: Seq<char>,
    paused: bool,
    notify: bool,
    remember: bool,
    refresh: bool,
)
    ensures
        v.set_answered(name, PropView::Bool(paused), notify, remember, refresh, false) == v,
        ({
            let after = v.set_answered(
                name,
                PropView::Bool(paused),
                notify,
                remember,
                refresh,
                true,
            );
            &&& notify ==> after.outbox == v.outbox.push(
                PlayerActionView::Emit { name, data: JsonView::Bool(paused) },
            )
            &&& !notify ==> after.outbox == v.outbox
            &&& remember && (name == "vo"@ || name == "hwdec"@) ==> after.render.contains_key(name)
                && after.render[name] == PropView::Bool(paused)
            &&& !remember || (name != "vo"@ && name != "hwdec"@) ==> after.render == v.render
            &&& refresh ==> after.display is None && after.display_refresh is None
            &&& !refresh ==> after.display == v.display
            &&& name == "pause"@ ==> after.playback.paused == paused
            &&& name != "pause"@ ==> after.playback.paused == v.playback.paused
        }),
{
}

/// A property is put under observation once, however often it is asked for, and
/// one that is known is told at once.
pub proof fn observing_tells_at_once(v: PlayerView, name: Seq<char>, format: Format, now: u64)
    ensures
        ({
            let after = v.asked(InView::ObserveProp { name, format }, now);
            &&& after.observed == v.observed.insert(name)
            &&& !v.observed.contains(name) ==> adds(
                v,
                after,
                PlayerActionView::Observe { name, format },
            )
            &&& v.observed.contains(name) ==> !adds(
                v,
                after,
                PlayerActionView::Observe { name, format },
            )
            &&& name == "pause"@ && !v.playback.cached.contains_key(name) ==> after.outbox.last()
                == (PlayerActionView::Emit { name, data: JsonView::Bool(v.playback.paused) })
            &&& name == "volume"@ && v.playback.cached.contains_key(name) ==> after.outbox.last()
                == (PlayerActionView::Emit { name, data: v.playback.cached[name] })
        }),
{
    let after = v.asked(InView::ObserveProp { name, format }, now);
    if !v.observed.contains(name) {
        assert(after.outbox[v.outbox.len() as int] is Observe);
    } else {
        assert(v.observed.insert(name) =~= v.observed);
    }
    reveal_strlit("pause");
    reveal_strlit("mpv-version");
    reveal_strlit("ffmpeg-version");
    assert("pause"@.len() != "mpv-version"@.len());
    assert("pause"@.len() != "ffmpeg-version"@.len());
}

/// What the player reports of position, length, pause, volume and chapters is
/// what is known from then on; a volume is saved.
pub proof fn reports_are_known(v: PlayerView, r: Real, b: bool, n: i64, s: Seq<char>)
    ensures
        v.changed("time-pos"@, DataView::Double(r)).playback.time == r,
        v.changed("duration"@, DataView::Double(r)).playback.duration == r,
        v.changed("volume"@, DataView::Double(r)).playback.volume == r,
        v.changed("volume"@, DataView::Double(r)).outbox == v.outbox.push(
            PlayerActionView::SaveVolume(r),
        ),
        v.changed("time-pos"@, DataView::Double(r)).outbox == v.outbox,
        v.changed("duration"@, DataView::Double(r)).outbox == v.outbox,
        v.changed("pause"@, DataView::Flag(b)).playback.paused == b,
        v.changed("pause"@, DataView::Flag(b)).outbox == v.outbox,
        v.changed("chapter"@, DataView::Int64(n, r)).playback.chapter == n,
        v.changed("chapters"@, DataView::Int64(n, r)).playback.chapter_count == n,
        v.changed(
            "chapter-metadata/by-key/title"@,
            DataView::Str(s),
        ).playback.chapter_title == s,
        v.changed("time-pos"@, DataView::Double(r)).playback.duration == v.playback.duration,
        v.changed("duration"@, DataView::Double(r)).playback.time == v.playback.time,
        v.changed("chapter"@, DataView::Int64(n, r)).playback.chapter_count
            == v.playback.chapter_count,
{
    crate::playback::names_differ();
}

/// The answer to a question is told to the web interface, but for a length that
/// is not positive and a number that is none.
pub proof fn replies_are_told(v: PlayerView, name: Seq<char>, b: bool, r: Real)
    ensures
        name != "duration"@ ==> v.replied(name, DataView::Flag(b)).outbox == v.outbox.push(
            PlayerActionView::Emit { name, data: JsonView::Bool(b) },
        ),
        !r.finite() ==> v.replied(name, DataView::Double(r)) == v,
        r.at_most(real_zero()) ==> v.replied("duration"@, DataView::Double(r)) == v,
        r.finite() && !r.at_most(real_zero()) ==> {
            &&& v.replied("duration"@, DataView::Double(r)).outbox.len() == v.outbox.len() + 1
            &&& v.replied("duration"@, DataView::Double(r)).outbox.last() matches PlayerActionView::Emit {
                name: n,
                data,
            }
            &&& n == "duration"@
            &&& data.number() == Some(r)
        },
        r.finite() && name != "duration"@ ==> {
            &&& v.replied(name, DataView::Double(r)).outbox.last() matches PlayerActionView::Emit {
                name: n,
                data,
            }
            &&& n == name
            &&& data.number() == Some(r)
        },
{
}

/// Subtitles that would lose their styles keep them, scaled; other values are
/// set as they are.
pub proof fn subtitle_styles_are_kept(v: PlayerView, value: Seq<char>, now: u64)
    requires
        v.state != LoadState::Stopping,
    ensures
        ({
            let after = v.asked(
                InView::SetProp { name: "sub-ass-override"@, value: PropView::Str(value) },
                now,
            );
            &&& after.outbox.last() matches PlayerActionView::SetProperty { name, value: set, .. }
            &&& name == "sub-ass-override"@
            &&& set == if value == "strip"@ {
                PropView::Str("scale"@)
            } else {
                PropView::Str(value)
            }
        }),
{
    reveal_strlit("sub-ass-override");
    reveal_strlit("vo");
    reveal_strlit("hwdec");
    reveal_strlit("sid");
    reveal_strlit("aid");
    reveal_strlit("vid");
    assert("sub-ass-override"@.len() != "vo"@.len());
    assert("sub-ass-override"@.len() != "hwdec"@.len());
    assert("sub-ass-override"@.len() != "sid"@.len());
    assert("sub-ass-override"@.len() != "aid"@.len());
    assert("sub-ass-override"@.len() != "vid"@.len());
}

// ---------------------------------------------------------------------------
// The display
// ---------------------------------------------------------------------------

/// The display is looked at while a file is loaded, every half second.
pub proof fn displays_are_looked_at_in_time(v: PlayerView, now: u64)
    ensures
        v.display_due(now) <==> v.state == LoadState::Loaded && (v.display_refresh is None || now
            >= v.display_refresh->0 + 500_000_000),
{
}

/// The colours follow the display: a standard one gets standard colours, any
/// other is left to the player. The graphics card's filter is added where it is
/// wanted, after an earlier one was removed, and only where it is wanted.
pub proof fn displays_are_followed(v: PlayerView, state: DisplayOutputState)
    requires
        v.display != Some((state, v.gpu)),
    ensures
        ({
            let after = v.displayed(state);
            let n = after.outbox.len() - 4;
            let csp = if state.mode == DisplayOutputMode::Sdr {
                "srgb"@
            } else {
                "auto"@
            };
            &&& after.display == Some((state, v.gpu))
            &&& n >= v.outbox.len()
            &&& after.outbox[n] matches PlayerActionView::SetPlain { name, text, .. }
            &&& name == "d3d11-output-csp"@
            &&& text == csp
            &&& after.outbox[n + 2] matches PlayerActionView::SetPlain { name: trc, text: value, .. }
            &&& trc == "target-trc"@
            &&& value == csp
            &&& n == v.outbox.len() + (if v.filter {
                1int
            } else {
                0
            }) + (if v.gpu {
                1int
            } else {
                0
            })
            &&& v.filter ==> (after.outbox[v.outbox.len() as int] matches PlayerActionView::Command {
                purpose,
                cmd,
                ..
            } && purpose == Purpose::RemoveFilter && cmd.args[0] == "remove"@)
            &&& v.gpu ==> (after.outbox[n - 1] matches PlayerActionView::Command {
                purpose,
                cmd,
                ..
            } && purpose == Purpose::AddFilter && cmd.args[0] == "add"@)
        }),
{
}

} // verus!
