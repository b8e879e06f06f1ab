//! What the rules of the player are for, as laws: what is known of playback,
//! what waits, which keys the player owns and how a load is put in order.

use crate::json::{json_document, JsonView};
use crate::number::{decimal, real_zero, Real};
use crate::playback::{
    data_json, normalized, nothing_played, prop_json, reply_json, video_height, DataView,
    PlaybackView, PropView,
};
use crate::player_rules::{
    any_sequence, fresh_load, fresh_url, gpu_outputs, key_parts, keys_of, local_stream, must_wait,
    next_at, not_starting, reloaded, sanitized, sanitized_start, start_texts, unchanged_render,
    with_both_gpu_outputs, with_keys, without_start, CmdView, InputBinding, LoadState, StartHint,
};
use crate::text::{has_text, trimmed, trimmed_start};
use crate::urls::url_parts;
use vstd::prelude::*;

verus! {

/// The text is a way to say yes.
pub open spec fn affirms(s: Seq<char>) -> bool {
    s == "yes"@ || s == "true"@ || s == "1"@
}

/// The text is a way to say no.
pub open spec fn denies(s: Seq<char>) -> bool {
    s == "no"@ || s == "false"@ || s == "0"@
}

proof fn answers_differ()
    ensures
        "yes"@ != "no"@,
        "yes"@ != "false"@,
        "yes"@ != "0"@,
        "true"@ != "no"@,
        "true"@ != "false"@,
        "true"@ != "0"@,
        "1"@ != "no"@,
        "1"@ != "false"@,
        "1"@ != "0"@,
{
    reveal_strlit("yes");
    reveal_strlit("true");
    reveal_strlit("1");
    reveal_strlit("no");
    reveal_strlit("false");
    reveal_strlit("0");
    assert("yes"@.len() == 3 && "true"@.len() == 4 && "1"@.len() == 1);
    assert("no"@.len() == 2 && "false"@.len() == 5 && "0"@.len() == 1);
    assert("1"@[0] != "0"@[0]);
}

// ---------------------------------------------------------------------------
// Values
// ---------------------------------------------------------------------------

/// A finite number is that number in JSON, and another is nothing.
pub open spec fn stands_for(json: JsonView, r: Real) -> bool {
    &&& r.finite() ==> json.number() == Some(r)
    &&& !r.finite() ==> json == JsonView::Null
}

/// A value that is set reaches the web interface as what it is.
pub proof fn set_values_are_told(b: bool, r: Real, s: Seq<char>)
    ensures
        prop_json(PropView::Bool(b)) == JsonView::Bool(b),
        prop_json(PropView::Str(s)) == JsonView::Text(s),
        stands_for(prop_json(PropView::Num(r)), r),
{
}

/// A value that the player reports reaches the web interface as what it is:
/// flags as flags, numbers as numbers, texts as texts; and the documents about
/// the file and its tracks as documents.
pub proof fn reported_values_are_told(name: Seq<char>, b: bool, n: i64, r: Real, s: Seq<char>)
    ensures
        data_json(name, DataView::Flag(b)) == JsonView::Bool(b),
        data_json(name, DataView::Int64(n, r)).signed() == Some(n),
        data_json(name, DataView::Int64(n, r)).number() == Some(r),
        n >= 0 ==> data_json(name, DataView::Int64(n, r)).unsigned() == Some(n as u64),
        n < 0 ==> data_json(name, DataView::Int64(n, r)).unsigned() is None,
        stands_for(data_json(name, DataView::Double(r)), r),
        name != "metadata"@ && name != "track-list"@ && name != "video-params"@ ==> data_json(
            name,
            DataView::Str(s),
        ) == JsonView::Text(s),
        (name == "metadata"@ || name == "track-list"@ || name == "video-params"@) && json_document(
            s,
        ) is Some ==> Some(data_json(name, DataView::Str(s))) == json_document(s),
        json_document(s) is None ==> data_json(name, DataView::Str(s)) == JsonView::Text(s),
        data_json(name, DataView::OsdStr(s)) == data_json(name, DataView::Str(s)),
{
}

/// What the player answers is told as what it reports is, except for a number
/// that is not finite, of which nothing is told.
pub proof fn answered_values_are_told(name: Seq<char>, data: DataView, r: Real)
    ensures
        !(data is Double) ==> reply_json(name, data) == Some(data_json(name, data)),
        r.finite() ==> reply_json(name, DataView::Double(r)) == Some(
            data_json(name, DataView::Double(r)),
        ),
        !r.finite() ==> reply_json(name, DataView::Double(r)) is None,
{
}

/// Muting is a flag whatever way it is said, and no other value is changed.
pub proof fn muting_is_a_flag(name: Seq<char>, s: Seq<char>, value: JsonView)
    ensures
        affirms(s) ==> normalized("mute"@, JsonView::Text(s)) == JsonView::Bool(true),
        !affirms(s) ==> normalized("mute"@, JsonView::Text(s)) == JsonView::Bool(false),
        name != "mute"@ ==> normalized(name, value) == value,
        !(value is Text) ==> normalized(name, value) == value,
{
}

// ---------------------------------------------------------------------------
// What is known of playback
// ---------------------------------------------------------------------------

/// Before anything plays nothing plays.
pub proof fn nothing_plays_at_first(volume: Real)
    ensures
        ({
            let v = nothing_played(volume);
            &&& v.volume == volume
            &&& v.time == real_zero()
            &&& v.duration == real_zero()
            &&& !v.paused
            &&& !v.file_loaded
            &&& !v.stopping
            &&& v.load_epoch == 0
            &&& v.chapter == -1
            &&& v.chapter_count == 0
            &&& v.chapter_title.len() == 0
            &&& v.stream_url.len() == 0
            &&& v.known("pause"@) == Some(JsonView::Bool(false))
        }),
{
    immediate_names_differ();
}

/// Until the player says otherwise these values hold.
pub proof fn values_hold_until_others_come(v: PlaybackView, s: Seq<char>)
    ensures
        !v.cached.contains_key("pause"@) ==> v.known("pause"@) == Some(JsonView::Bool(v.paused)),
        !v.cached.contains_key("mute"@) ==> v.known("mute"@) == Some(JsonView::Bool(false)),
        !v.cached.contains_key("sid"@) ==> v.known("sid"@) == Some(JsonView::Text("no"@)),
        !v.cached.contains_key("aid"@) ==> v.known("aid"@) == Some(JsonView::Text("no"@)),
        !v.cached.contains_key("vid"@) ==> v.known("vid"@) == Some(JsonView::Text("no"@)),
        !v.cached.contains_key("volume"@) ==> v.known("volume"@) is Some && stands_for(
            v.known("volume"@)->0,
            v.volume,
        ),
        !v.cached.contains_key("speed"@) ==> v.known("speed"@) is Some && stands_for(
            v.known("speed"@)->0,
            Real { bits: 0x3ff0_0000_0000_0000 },
        ),
        !v.cached.contains_key("sub-scale"@) ==> v.known("sub-scale"@) is Some && stands_for(
            v.known("sub-scale"@)->0,
            Real { bits: 0x3ff0_0000_0000_0000 },
        ),
        !v.cached.contains_key("sub-pos"@) ==> v.known("sub-pos"@) is Some && stands_for(
            v.known("sub-pos"@)->0,
            Real { bits: 0x4059_0000_0000_0000 },
        ),
        !v.cached.contains_key("sub-delay"@) ==> v.known("sub-delay"@) is Some && stands_for(
            v.known("sub-delay"@)->0,
            real_zero(),
        ),
        !v.cached.contains_key("mpv-version"@) && v.mpv_version == Some(s) ==> v.known(
            "mpv-version"@,
        ) == Some(JsonView::Text(s)),
        !v.cached.contains_key("mpv-version"@) && v.mpv_version is None ==> v.known(
            "mpv-version"@,
        ) is None,
        !v.cached.contains_key("ffmpeg-version"@) && v.ffmpeg_version == Some(s) ==> v.known(
            "ffmpeg-version"@,
        ) == Some(JsonView::Text(s)),
        !v.cached.contains_key("time-pos"@) ==> v.known("time-pos"@) is None,
{
    immediate_names_differ();
}

proof fn immediate_names_differ()
    ensures
        forall|i: int, j: int|
            0 <= i < 13 && 0 <= j < 13 && i != j ==> #[trigger] immediate_names()[i]
                != #[trigger] immediate_names()[j],
        immediate_names()[0] == "mpv-version"@,
        immediate_names()[1] == "ffmpeg-version"@,
        immediate_names()[2] == "pause"@,
        immediate_names()[3] == "volume"@,
        immediate_names()[4] == "mute"@,
        immediate_names()[5] == "sid"@,
        immediate_names()[6] == "aid"@,
        immediate_names()[7] == "vid"@,
        immediate_names()[8] == "sub-scale"@,
        immediate_names()[9] == "sub-pos"@,
        immediate_names()[10] == "sub-delay"@,
        immediate_names()[11] == "speed"@,
        immediate_names()[12] == "time-pos"@,
{
    reveal_strlit("mpv-version");
    reveal_strlit("ffmpeg-version");
    reveal_strlit("pause");
    reveal_strlit("volume");
    reveal_strlit("mute");
    reveal_strlit("sid");
    reveal_strlit("aid");
    reveal_strlit("vid");
    reveal_strlit("sub-scale");
    reveal_strlit("sub-pos");
    reveal_strlit("sub-delay");
    reveal_strlit("speed");
    reveal_strlit("time-pos");
    let names = immediate_names();
    assert(names[0].len() == 11);
    assert(names[1].len() == 14);
    assert(names[2].len() == 5);
    assert(names[3].len() == 6);
    assert(names[4].len() == 4);
    assert(names[5].len() == 3);
    assert(names[6].len() == 3);
    assert(names[7].len() == 3);
    assert(names[8].len() == 9);
    assert(names[9].len() == 7);
    assert(names[10].len() == 9);
    assert(names[11].len() == 5);
    assert(names[12].len() == 8);
    // Names of equal length differ in a character.
    assert(names[2][0] == 'p' && names[11][0] == 's');
    assert(names[5][0] == 's' && names[6][0] == 'a' && names[7][0] == 'v');
    assert(names[8][4] == 's' && names[10][4] == 'd');
    assert forall|i: int, j: int|
        0 <= i < 13 && 0 <= j < 13 && i != j implies #[trigger] names[i]
        != #[trigger] names[j] by {
        assert(names[i].len() != names[j].len() || names[i][0] != names[j][0] || names[i][4]
            != names[j][4]);
    }
}

/// The properties whose values are known at once, and one whose is not.
pub open spec fn immediate_names() -> Seq<Seq<char>> {
    seq![
        "mpv-version"@,
        "ffmpeg-version"@,
        "pause"@,
        "volume"@,
        "mute"@,
        "sid"@,
        "aid"@,
        "vid"@,
        "sub-scale"@,
        "sub-pos"@,
        "sub-delay"@,
        "speed"@,
        "time-pos"@,
    ]
}

/// Noting a value changes what is known of that property and of no other, and
/// the position, the length, the chapters and the file stay.
pub proof fn noting_is_local(
    v: PlaybackView,
    name: Seq<char>,
    other: Seq<char>,
    value: JsonView,
    s: Seq<char>,
    r: Real,
)
    ensures
        ({
            let after = v.caching(name, value);
            &&& other != name ==> (after.cached.contains_key(other) <==> v.cached.contains_key(
                other,
            ))
            &&& other != name && v.cached.contains_key(other) ==> after.cached[other]
                == v.cached[other]
            &&& after.time == v.time
            &&& after.duration == v.duration
            &&& after.paused == v.paused
            &&& after.file_loaded == v.file_loaded
            &&& after.load_epoch == v.load_epoch
            &&& after.stopping == v.stopping
            &&& after.chapter == v.chapter
            &&& after.chapter_count == v.chapter_count
            &&& after.chapter_title == v.chapter_title
            &&& after.stream_url == v.stream_url
            &&& name != "volume"@ ==> after.volume == v.volume
        }),
        v.caching("mpv-version"@, JsonView::Text(s)).mpv_version == Some(s),
        v.caching("mpv-version"@, JsonView::Text(s)).ffmpeg_version == v.ffmpeg_version,
        v.caching("ffmpeg-version"@, JsonView::Text(s)).ffmpeg_version == Some(s),
        v.caching("ffmpeg-version"@, JsonView::Text(s)).mpv_version == v.mpv_version,
        value.number() == Some(r) ==> v.caching("volume"@, value).volume == r,
        value.number() is None ==> v.caching("volume"@, value).volume == v.volume,
        v.caching("video-params"@, value).cached.contains_key("video-params"@),
{
    immediate_names_differ();
    let names = immediate_names();
    assert(names[0] != names[1]);
    assert(names[0] != names[4]);
    assert(names[1] != names[4]);
    assert(names[3] != names[4]);
}

/// Pausing counts as soon as it is set, in whatever way it is said, and where it
/// is not clear nothing changes.
pub proof fn pausing_counts_at_once(v: PlaybackView, b: bool, r: Real, s: Seq<char>)
    ensures
        ({
            let after = v.after_set("pause"@, PropView::Bool(b));
            &&& after.paused == b
            &&& after.known("pause"@) == Some(JsonView::Bool(b))
        }),
        affirms(s) ==> v.after_set("pause"@, PropView::Str(s)).paused && v.after_set(
            "pause"@,
            PropView::Str(s),
        ).known("pause"@) == Some(JsonView::Bool(true)),
        denies(s) ==> !v.after_set("pause"@, PropView::Str(s)).paused && v.after_set(
            "pause"@,
            PropView::Str(s),
        ).known("pause"@) == Some(JsonView::Bool(false)),
        !affirms(s) && !denies(s) ==> v.after_set("pause"@, PropView::Str(s)) == v,
        v.after_set("pause"@, PropView::Num(r)).paused == !r.equals(real_zero()),
{
    answers_differ();
    immediate_names_differ();
    let names = immediate_names();
    assert(names[2] != names[4]);
}

/// Nothing but pausing is noted before the player reports it.
pub proof fn nothing_else_counts_at_once(v: PlaybackView, name: Seq<char>, value: PropView)
    requires
        name != "pause"@,
    ensures
        v.after_set(name, value) == v,
{
}

/// The height of the video is the one in its parameters, also where these come
/// as the text of a document.
pub proof fn heights_are_read(v: PlaybackView, params: JsonView, h: JsonView, s: Seq<char>)
    requires
        v.cached.contains_key("video-params"@),
    ensures
        v.cached["video-params"@] == params && !(params is Text) && params.field("h"@) == Some(h)
            ==> video_height(v) == h.number(),
        v.cached["video-params"@] == JsonView::Text(s) && json_document(s) == Some(params)
            && params.field("h"@) == Some(h) ==> video_height(v) == h.number(),
        v.cached["video-params"@] == JsonView::Text(s) && json_document(s) is None
            ==> video_height(v) is None,
{
}

// ---------------------------------------------------------------------------
// What waits
// ---------------------------------------------------------------------------

/// The tracks wait for the file. Everything else that is set at a start waits
/// for a stop, and what is not set at a start waits for nothing.
pub proof fn tracks_wait_for_the_file(state: LoadState, name: Seq<char>)
    ensures
        name == "sid"@ || name == "aid"@ || name == "vid"@ ==> must_wait(state, name) == (state
            != LoadState::Loaded),
        name == "pause"@ || name == "volume"@ || name == "mute"@ || name == "speed"@ || name
            == "vo"@ || name == "hwdec"@ || name == "osc"@ || name == "sub-scale"@ || name
            == "sub-pos"@ || name == "sub-color"@ || name == "sub-back-color"@ || name
            == "sub-border-color"@ || name == "sub-outline-color"@ || name == "sub-ass-override"@
            || name == "input-default-bindings"@ || name == "input-vo-keyboard"@ ==> must_wait(
            state,
            name,
        ) == (state == LoadState::Stopping),
        name == "sub-delay"@ ==> !must_wait(state, name),
        !must_wait(LoadState::Loaded, name),
{
    reveal_strlit("sid");
    reveal_strlit("aid");
    reveal_strlit("vid");
    reveal_strlit("pause");
    reveal_strlit("volume");
    reveal_strlit("mute");
    reveal_strlit("speed");
    reveal_strlit("vo");
    reveal_strlit("hwdec");
    reveal_strlit("osc");
    reveal_strlit("sub-scale");
    reveal_strlit("sub-pos");
    reveal_strlit("sub-color");
    reveal_strlit("sub-back-color");
    reveal_strlit("sub-border-color");
    reveal_strlit("sub-outline-color");
    reveal_strlit("sub-ass-override");
    reveal_strlit("input-default-bindings");
    reveal_strlit("input-vo-keyboard");
    reveal_strlit("sub-delay");
    assert("sid"@.len() == 3);
    assert("aid"@.len() == 3);
    assert("vid"@.len() == 3);
    assert("pause"@.len() == 5);
    assert("volume"@.len() == 6);
    assert("mute"@.len() == 4);
    assert("speed"@.len() == 5);
    assert("vo"@.len() == 2);
    assert("hwdec"@.len() == 5);
    assert("osc"@.len() == 3);
    assert("sub-scale"@.len() == 9);
    assert("sub-pos"@.len() == 7);
    assert("sub-color"@.len() == 9);
    assert("sub-back-color"@.len() == 14);
    assert("sub-border-color"@.len() == 16);
    assert("sub-outline-color"@.len() == 17);
    assert("sub-ass-override"@.len() == 16);
    assert("input-default-bindings"@.len() == 22);
    assert("input-vo-keyboard"@.len() == 17);
    assert("sub-delay"@.len() == 9);
    assert("osc"@[0] == 'o' && "sid"@[0] == 's' && "aid"@[0] == 'a' && "vid"@[0] == 'v');
    assert("sub-delay"@[4] == 'd' && "sub-scale"@[4] == 's' && "sub-color"@[4] == 'c');
}

/// How the picture is made is set anew only where it changes; another property
/// is always set.
pub proof fn unchanged_outputs_are_left_alone(
    properties: Map<Seq<char>, PropView>,
    name: Seq<char>,
    s: Seq<char>,
    t: Seq<char>,
)
    ensures
        name == "vo"@ || name == "hwdec"@ ==> unchanged_render(
            properties.insert(name, PropView::Str(s)),
            name,
            PropView::Str(t),
        ) == (s == t),
        !properties.contains_key(name) ==> !unchanged_render(properties, name, PropView::Str(t)),
        name != "vo"@ && name != "hwdec"@ ==> !unchanged_render(
            properties,
            name,
            PropView::Str(t),
        ),
{
}

/// The streaming server of this machine is known by its port.
pub proof fn local_streams_are_known(start: Seq<char>, end: Seq<char>)
    ensures
        local_stream(start + ":11470/"@ + end),
{
    let url = start + ":11470/"@ + end;
    assert(url.subrange(start.len() as int, (start.len() + ":11470/"@.len()) as int) =~= ":11470/"@);
    assert(crate::text::occurs_at(url, ":11470/"@, start.len() as int));
}

// ---------------------------------------------------------------------------
// Outputs
// ---------------------------------------------------------------------------

/// Of the outputs that are named none is lost, and they keep their order; the
/// one on the GPU has the other to fall back to.
pub proof fn outputs_have_a_fallback(outputs: Seq<Seq<char>>, vo: Seq<char>)
    ensures
        ({
            let all = with_both_gpu_outputs(outputs);
            &&& outputs.len() <= all.len()
            &&& all.take(outputs.len() as int) == outputs
            &&& outputs.contains("gpu"@) || outputs.contains("gpu-next"@) || outputs.len() == 0
                ==> all.contains("gpu"@) && all.contains("gpu-next"@)
            &&& !outputs.contains("gpu"@) && !outputs.contains("gpu-next"@) && outputs.len() > 0
                ==> all == outputs
            &&& outputs.contains("gpu"@) && outputs.contains("gpu-next"@) ==> all == outputs
            &&& outputs.len() == 0 ==> all[0] == "gpu-next"@
        }),
        gpu_outputs(vo).len() > 0 && gpu_outputs(vo).last() == ',',
{
    let all = with_both_gpu_outputs(outputs);
    assert(all.take(outputs.len() as int) =~= outputs);
    if outputs.len() == 0 {
        assert(all[0] == "gpu-next"@ && all[1] == "gpu"@);
    } else if outputs.contains("gpu-next"@) {
        let i = choose|i: int| 0 <= i < outputs.len() && outputs[i] == "gpu-next"@;
        assert(all[i] == "gpu-next"@);
        if !outputs.contains("gpu"@) {
            assert(all[all.len() - 1] == "gpu"@);
        }
    } else if outputs.contains("gpu"@) {
        let i = choose|i: int| 0 <= i < outputs.len() && outputs[i] == "gpu"@;
        assert(all[i] == "gpu"@);
        assert(all[all.len() - 1] == "gpu-next"@);
    }
    reveal_strlit(",");
}

// ---------------------------------------------------------------------------
// Keys
// ---------------------------------------------------------------------------

/// The player owns the keys of a binding that the user made and did not switch
/// off, and no key of another binding.
pub proof fn active_bindings_own_their_keys(binding: InputBinding)
    ensures
        binding.is_weak ==> binding.keys().len() == 0,
        binding.priority < 0 ==> binding.keys().len() == 0,
        binding.key is None ==> binding.keys().len() == 0,
        !binding.is_weak && binding.priority >= 0 && binding.key is Some ==> binding.keys().len()
            > 0,
{
    if binding.key is Some {
        reveal_with_fuel(key_parts, 2);
    }
}

/// A key without a dash is a key of its own; one that is a dash too.
pub proof fn single_keys_are_kept(key: Seq<char>)
    requires
        forall|i: int| 0 <= i < key.len() - 1 ==> #[trigger] key[i] != '-',
    ensures
        key_parts(key, 0) == seq![key],
{
    no_dash_before_the_end(key, 0);
    assert(key.skip(0) =~= key);
}

proof fn no_dash_before_the_end(key: Seq<char>, from: int)
    requires
        0 <= from,
        forall|i: int| 0 <= i < key.len() - 1 ==> #[trigger] key[i] != '-',
    ensures
        next_at(key, '-', from) + 1 >= key.len(),
        next_at(key, '-', from) >= from,
    decreases key.len() - from,
{
    if from < key.len() && key[from] != '-' {
        no_dash_before_the_end(key, from + 1);
    }
}

/// A dash between two keys parts them.
pub proof fn sequences_are_parted(first: Seq<char>, rest: Seq<char>)
    requires
        forall|i: int| 0 <= i < first.len() ==> #[trigger] first[i] != '-',
        rest.len() > 0,
        rest[0] != '-',
    ensures
        key_parts(first + seq!['-'] + rest, 0).len() >= 2,
        key_parts(first + seq!['-'] + rest, 0)[0] == first,
{
    let key = first + seq!['-'] + rest;
    dash_comes_next(key, first.len() as int, 0);
    assert(key[(first.len() + 1) as int] == rest[0]);
    assert(key.subrange(0, first.len() as int) =~= first);
    reveal_with_fuel(key_parts, 2);
}

proof fn dash_comes_next(s: Seq<char>, at: int, from: int)
    requires
        0 <= from <= at < s.len(),
        s[at] == '-',
        forall|j: int| from <= j < at ==> #[trigger] s[j] != '-',
    ensures
        next_at(s, '-', from) == at,
    decreases at - from,
{
    if from < at {
        dash_comes_next(s, at, from + 1);
    }
}

/// Of two dashes in a row the first is a key, or the end of one.
pub proof fn dashes_can_be_keys(first: Seq<char>, rest: Seq<char>)
    requires
        forall|i: int| 0 <= i < first.len() ==> #[trigger] first[i] != '-',
    ensures
        key_parts(first + seq!['-', '-'] + rest, 0).len() >= 2,
        key_parts(first + seq!['-', '-'] + rest, 0)[0] == first.push('-'),
{
    let key = first + seq!['-', '-'] + rest;
    dash_comes_next(key, first.len() as int, 0);
    assert(key[(first.len() + 1) as int] == '-');
    assert(key.subrange(0, (first.len() + 1) as int) =~= first.push('-'));
    reveal_with_fuel(key_parts, 2);
}

/// No key is listed twice.
pub proof fn keys_are_listed_once(bindings: Seq<InputBinding>)
    ensures
        keys_of(bindings).no_duplicates(),
    decreases bindings.len(),
{
    if bindings.len() > 0 {
        keys_are_listed_once(bindings.drop_last());
        added_keys_are_listed_once(keys_of(bindings.drop_last()), bindings.last().keys());
    }
}

proof fn added_keys_are_listed_once(known: Seq<Seq<char>>, keys: Seq<Seq<char>>)
    requires
        known.no_duplicates(),
    ensures
        with_keys(known, keys).no_duplicates(),
    decreases keys.len(),
{
    if keys.len() > 0 {
        added_keys_are_listed_once(known, keys.drop_last());
    }
}

/// Sequences are known of where an active binding has two keys.
pub proof fn sequences_are_known_of(bindings: Seq<InputBinding>, k: int)
    requires
        0 <= k < bindings.len(),
        bindings[k].keys().len() >= 2,
    ensures
        any_sequence(bindings),
{
}

// ---------------------------------------------------------------------------
// Loads
// ---------------------------------------------------------------------------

/// A fresh address carries exactly one mark, with the time, at the end of its
/// query; every other pair of the query stays, and no pair is made up.
pub proof fn other_pairs_are_kept(
    query: Seq<(Seq<char>, Seq<char>)>,
    timestamp: u128,
    pair: (Seq<char>, Seq<char>),
)
    ensures
        reloaded(query, timestamp).len() >= 1,
        reloaded(query, timestamp).last() == ("_reload"@, decimal(timestamp as nat)),
        pair.0 != "_reload"@ ==> (query.contains(pair) <==> reloaded(query, timestamp).contains(
            pair,
        )),
        pair.0 == "_reload"@ && reloaded(query, timestamp).contains(pair) ==> pair.1 == decimal(
            timestamp as nat,
        ),
        (forall|i: int| 0 <= i < query.len() ==> (#[trigger] query[i]).0 != "_reload"@)
            ==> reloaded(query, timestamp) == query.push(("_reload"@, decimal(timestamp as nat))),
{
    kept_pairs(query, pair);
    let kept = crate::player_rules::without_reload(query);
    let all = reloaded(query, timestamp);
    assert(all.drop_last() =~= kept);
    if kept.contains(pair) {
        let i = choose|i: int| 0 <= i < kept.len() && kept[i] == pair;
        assert(all[i] == pair);
    }
    if all.contains(pair) {
        let i = choose|i: int| 0 <= i < all.len() && all[i] == pair;
        if i < kept.len() {
            assert(kept[i] == pair);
        }
    }
}

proof fn kept_pairs(query: Seq<(Seq<char>, Seq<char>)>, pair: (Seq<char>, Seq<char>))
    ensures
        crate::player_rules::without_reload(query).contains(pair) <==> query.contains(pair)
            && pair.0 != "_reload"@,
        (forall|i: int| 0 <= i < query.len() ==> (#[trigger] query[i]).0 != "_reload"@)
            ==> crate::player_rules::without_reload(query) == query,
    decreases query.len(),
{
    let kept = crate::player_rules::without_reload(query);
    if query.len() > 0 {
        let before = query.drop_last();
        kept_pairs(before, pair);
        let kept_before = crate::player_rules::without_reload(before);
        if query.contains(pair) && pair.0 != "_reload"@ {
            let i = choose|i: int| 0 <= i < query.len() && query[i] == pair;
            if i < before.len() {
                assert(before[i] == pair);
                let j = choose|j: int| 0 <= j < kept_before.len() && kept_before[j] == pair;
                assert(kept[j] == pair);
            } else {
                assert(kept[kept.len() - 1] == pair);
            }
        }
        if kept.contains(pair) {
            let i = choose|i: int| 0 <= i < kept.len() && kept[i] == pair;
            if i < kept_before.len() {
                assert(kept_before[i] == pair);
                let j = choose|j: int| 0 <= j < before.len() && before[j] == pair;
                assert(query[j] == pair);
            } else {
                assert(query[query.len() - 1] == pair);
            }
        }
        if forall|i: int| 0 <= i < query.len() ==> (#[trigger] query[i]).0 != "_reload"@ {
            assert forall|i: int| 0 <= i < before.len() implies (#[trigger] before[i]).0
                != "_reload"@ by {
                assert(before[i] == query[i]);
            }
            assert(query[query.len() - 1] == query.last());
            assert(kept =~= query);
        }
    }
}

/// A text that is no address is marked too, with the right separator.
pub proof fn other_texts_are_marked(url: Seq<char>, timestamp: u128)
    requires
        url_parts(url) is None,
    ensures
        has_text(url, "?"@) ==> fresh_url(url, timestamp) == url + "&_reload="@ + decimal(
            timestamp as nat,
        ),
        !has_text(url, "?"@) ==> fresh_url(url, timestamp) == url + "?_reload="@ + decimal(
            timestamp as nat,
        ),
{
    reveal_strlit("&");
    reveal_strlit("?");
    reveal_strlit("_reload=");
    reveal_strlit("&_reload=");
    reveal_strlit("?_reload=");
    assert("&"@ + "_reload="@ =~= "&_reload="@);
    assert("?"@ + "_reload="@ =~= "?_reload="@);
    assert(url + "&"@ + "_reload="@ =~= url + "&_reload="@);
    assert(url + "?"@ + "_reload="@ =~= url + "?_reload="@);
}

/// A load command with a fresh address is the same command with the same flags
/// and options; another command is left alone.
pub proof fn fresh_loads_load_the_same(cmd: CmdView, timestamp: u128, i: int)
    ensures
        fresh_load(cmd, timestamp).name == cmd.name,
        fresh_load(cmd, timestamp).args.len() == cmd.args.len(),
        1 <= i < cmd.args.len() ==> fresh_load(cmd, timestamp).args[i] == cmd.args[i],
        cmd.name == "loadfile"@ && 1 <= cmd.args.len() <= 4 ==> fresh_load(cmd, timestamp).args[0]
            == fresh_url(cmd.args[0], timestamp),
        cmd.name != "loadfile"@ ==> fresh_load(cmd, timestamp) == cmd,
{
}

/// The start is left over from the stream before: it is given, another stream
/// was played past its first half minute, the new one is a local one that is not
/// a reload, and it would start within two seconds of the same place.
pub open spec fn left_over(
    url: Seq<char>,
    hint: StartHint,
    previous_url: Seq<char>,
    previous_time: Real,
) -> bool {
    hint.start is Some && previous_url.len() > 0 && previous_url != url && !has_text(
        url,
        "_reload="@,
    ) && has_text(url, ":11470/"@) && (Real { bits: 0x403e_0000_0000_0000 }).less(previous_time)
        && hint.distance.at_most(Real { bits: 0x4000_0000_0000_0000 })
}

/// A load starts where it says, unless that is left over from the stream
/// before: then it starts at the beginning. Nothing else of it changes.
pub proof fn starts_are_kept_unless_left_over(
    cmd: CmdView,
    hint: StartHint,
    previous_url: Seq<char>,
    previous_time: Real,
    i: int,
)
    requires
        cmd.name == "loadfile"@,
        3 <= cmd.args.len() <= 4,
        cmd.args.last().len() > 0,
    ensures
        ({
            let after = sanitized(cmd, hint, previous_url, previous_time);
            let start = sanitized_start(cmd, hint, previous_url, previous_time);
            let stale = left_over(cmd.args[0], hint, previous_url, previous_time);
            &&& after.name == cmd.name
            &&& !stale ==> after == cmd && start == hint.start
            &&& stale ==> start is None
            &&& 0 <= i < 2 ==> after.args[i] == cmd.args[i]
            &&& stale && without_start(cmd.args.last()).len() > 0 ==> after.args.len()
                == cmd.args.len() && after.args.last() == without_start(cmd.args.last())
            &&& stale && without_start(cmd.args.last()).len() == 0 ==> after.args.len() == 2
        }),
{
    let after = sanitized(cmd, hint, previous_url, previous_time);
    if !left_over(cmd.args[0], hint, previous_url, previous_time) {
        assert(after.args =~= cmd.args);
    }
}

/// A load without options says nothing of a start, and no other command does.
pub proof fn plain_loads_are_left_alone(
    cmd: CmdView,
    hint: StartHint,
    previous_url: Seq<char>,
    previous_time: Real,
)
    requires
        cmd.name != "loadfile"@ || cmd.args.len() < 3,
    ensures
        sanitized(cmd, hint, previous_url, previous_time) == cmd,
        sanitized_start(cmd, hint, previous_url, previous_time) is None,
{
}

/// The option says where to start.
pub open spec fn is_start(option: Seq<char>) -> bool {
    let rest = trimmed_start(option);
    rest.len() >= 6 && rest.take(6) == "start="@
}

/// What does not say where to start is kept, and nothing that does.
pub proof fn other_options_are_kept(options: Seq<Seq<char>>, option: Seq<char>)
    ensures
        not_starting(options).contains(option) <==> options.contains(option) && !is_start(option),
        (forall|i: int| 0 <= i < options.len() ==> !is_start(#[trigger] options[i]))
            ==> not_starting(options) == options,
    decreases options.len(),
{
    let kept = not_starting(options);
    if options.len() > 0 {
        let before = options.drop_last();
        other_options_are_kept(before, option);
        starts_are_told(options.last());
        let kept_before = not_starting(before);
        if options.contains(option) && !is_start(option) {
            let i = choose|i: int| 0 <= i < options.len() && options[i] == option;
            if i < before.len() {
                assert(before[i] == option);
                let j = choose|j: int| 0 <= j < kept_before.len() && kept_before[j] == option;
                assert(kept[j] == option);
            } else {
                assert(kept[kept.len() - 1] == option);
            }
        }
        if kept.contains(option) {
            let i = choose|i: int| 0 <= i < kept.len() && kept[i] == option;
            if i < kept_before.len() {
                assert(kept_before[i] == option);
                let j = choose|j: int| 0 <= j < before.len() && before[j] == option;
                assert(options[j] == option);
            } else {
                assert(options[options.len() - 1] == option);
            }
        }
        if forall|i: int| 0 <= i < options.len() ==> !is_start(#[trigger] options[i]) {
            assert forall|i: int| 0 <= i < before.len() implies !is_start(
                #[trigger] before[i],
            ) by {
                assert(before[i] == options[i]);
            }
            assert(options[options.len() - 1] == options.last());
            assert(kept =~= options);
        }
    }
}

proof fn starts_are_told(option: Seq<char>)
    ensures
        is_start(option) == crate::player_rules::sets_start(option),
{
    reveal_strlit("start=");
    let rest = trimmed_start(option);
    if rest.len() >= 6 {
        assert(rest.subrange(0, 6) =~= rest.take(6));
    }
}

/// Where a load is to start is what follows the sign of the option that says so.
pub proof fn starts_are_read(before: Seq<Seq<char>>, value: Seq<char>)
    requires
        trimmed("start="@ + value) == "start="@ + value,
        value.len() > 0,
        value[0] != '+',
    ensures
        start_texts(before.push("start="@ + value)) == start_texts(before).push(value),
{
    let option = "start="@ + value;
    reveal_strlit("start=");
    reveal_strlit("+");
    assert(before.push(option).drop_last() =~= before);
    assert(option.subrange(0, 6) =~= "start="@);
    assert(option.skip(6) =~= value);
    assert("+"@[0] == '+' && "+"@.len() == 1);
    assert(value.subrange(0, 1)[0] == value[0]);
    assert("start="@.len() == 6);
    assert(crate::text::has_prefix(option, "start="@));
    assert(!crate::text::has_prefix(value, "+"@));
}

} // verus!
