//! What automatic skipping is for, as laws: when something is skipped, where
//! playback goes on, and which segments are known.

use crate::encoding::{lowercase, url_decoded};
use crate::intro_skip::{
    action_for, asks_second, by_start, enabled_only, filling, first_match, introdb_part,
    introdb_url_of, key_to_send, kitsu_film, lookup_of, media_under, merged,
    sorting_orders_segments, theintrodb_part, theintrodb_url_of, title_matches, usable_range,
    usable_ranges, with_videos, ChapterAction, FetchError, Fetched, IntroApi, IntroDbSegment,
    IntroSkipConfig, KitsuVideo, LookupView, SegmentKind, SkipAction, SkipDecision, SkipMoment,
    SkipSegment, SkipView, StepView, TimeRange,
};
use crate::lobby::LobbyRole;
use crate::media_id::{
    is_imdb_id, last_part, number_in, video_id_in, video_id_of, MediaView, VideoIdView,
};
use crate::number::{decimal, decimal_denotes, real_zero, Real};
use crate::text::{has_text, occurs_at, split_on, texts, trimmed};
use vstd::prelude::*;

verus! {

/// The kind is one that the user wants skipped.
pub open spec fn wanted(config: &IntroSkipConfig, kind: SegmentKind) -> bool {
    (kind == SegmentKind::Intro ==> config.skip_intro) && (kind == SegmentKind::Recap
        ==> config.skip_recap) && (kind == SegmentKind::Outro ==> config.skip_outro)
}

/// The time lies in the segment, or will within a second.
pub open spec fn inside(m: SkipMoment, seg: SkipSegment) -> bool {
    &&& seg.segment.start.sec.at_most(m.soon)
    &&& seg.segment.end is Some ==> m.time.less(seg.segment.end->0.sec)
    &&& seg.segment.end is None ==> m.time.less(Real { bits: 0x7ff0_0000_0000_0000 })
}

/// A segment of the same kind and times was skipped before.
pub open spec fn done_before(v: SkipView, seg: SkipSegment) -> bool {
    exists|i: int|
        0 <= i < v.skipped.len() && ({
            let key = #[trigger] v.skipped[i];
            &&& key.kind == seg.kind
            &&& key.start_ms == seg.segment.start.ms
            &&& seg.segment.end matches Some(end) ==> key.end_ms == end.ms
            &&& seg.segment.end is None ==> key.end_ms == -1
        })
}

/// Credits of api.theintrodb.org in the first half of the file are none.
pub open spec fn credible(m: SkipMoment, seg: SkipSegment) -> bool {
    seg.kind == SegmentKind::Outro && seg.api == IntroApi::TheIntroDb ==> m.duration.finite()
        && !m.duration.at_most(real_zero()) && m.half.at_most(seg.segment.start.sec)
}

/// Everything speaks for skipping the segment at the moment.
pub open spec fn ripe(v: SkipView, config: &IntroSkipConfig, m: SkipMoment, seg: SkipSegment) -> bool {
    &&& inside(m, seg)
    &&& wanted(config, seg.kind)
    &&& !done_before(v, seg)
    &&& credible(m, seg)
}

proof fn ripe_is_due(v: SkipView, config: &IntroSkipConfig, m: SkipMoment, seg: SkipSegment)
    ensures
        v.segment_due(config, m, seg) == ripe(v, config, m, seg),
{
    let key = seg.key_of();
    if v.skipped.contains(key) {
        let i = choose|i: int| 0 <= i < v.skipped.len() && v.skipped[i] == key;
        assert(v.skipped[i] == key);
    }
    if done_before(v, seg) {
        let i = choose|i: int|
            0 <= i < v.skipped.len() && ({
                let key = #[trigger] v.skipped[i];
                &&& key.kind == seg.kind
                &&& key.start_ms == seg.segment.start.ms
                &&& seg.segment.end matches Some(end) ==> key.end_ms == end.ms
                &&& seg.segment.end is None ==> key.end_ms == -1
            });
        assert(v.skipped[i] == key);
    }
}

proof fn first_is_ripe(
    v: SkipView,
    config: &IntroSkipConfig,
    m: SkipMoment,
    segments: Seq<SkipSegment>,
)
    ensures
        v.first_due(config, m, segments) matches Some(seg) ==> exists|i: int|
            0 <= i < segments.len() && #[trigger] segments[i] == seg && ripe(v, config, m, seg) && (
            forall|j: int| 0 <= j < i ==> !ripe(v, config, m, #[trigger] segments[j])),
        v.first_due(config, m, segments) is None ==> forall|j: int|
            0 <= j < segments.len() ==> !ripe(v, config, m, #[trigger] segments[j]),
    decreases segments.len(),
{
    if segments.len() > 0 {
        let before = segments.drop_last();
        first_is_ripe(v, config, m, before);
        ripe_is_due(v, config, m, segments.last());
        match v.first_due(config, m, before) {
            Some(seg) => {
                let i = choose|i: int|
                    0 <= i < before.len() && #[trigger] before[i] == seg && ripe(v, config, m, seg)
                        && (forall|j: int|
                        0 <= j < i ==> !ripe(v, config, m, #[trigger] before[j]));
                assert(segments[i] == seg);
                assert forall|j: int| 0 <= j < i implies !ripe(
                    v,
                    config,
                    m,
                    #[trigger] segments[j],
                ) by {
                    assert(before[j] == segments[j]);
                }
            },
            None => {
                assert forall|j: int| 0 <= j < before.len() implies !ripe(
                    v,
                    config,
                    m,
                    #[trigger] segments[j],
                ) by {
                    assert(before[j] == segments[j]);
                }
                if v.segment_due(config, m, segments.last()) {
                    assert(segments[segments.len() - 1] == segments.last());
                }
            },
        }
    }
}

// ---------------------------------------------------------------------------
// When something is skipped
// ---------------------------------------------------------------------------

/// A segment is skipped only inside it: whatever is decided about a segment,
/// playback runs, the segment is one of those of the file, starts within a
/// second at the latest and is not over, is of a kind that is wanted, and was
/// not skipped before.
pub proof fn segments_are_skipped_inside_them(
    v: SkipView,
    config: &IntroSkipConfig,
    m: SkipMoment,
)
    ensures
        ({
            let about = match v.decision(config, m) {
                SkipDecision::Skip(seg, _) => Some(seg),
                SkipDecision::Past(seg) => Some(seg),
                SkipDecision::Nothing => None,
            };
            about matches Some(seg) ==> {
                &&& !m.paused
                &&& m.file_loaded
                &&& v.segments is Some
                &&& v.segments->0.contains(seg)
                &&& seg.segment.start.sec.at_most(m.soon)
                &&& seg.segment.end matches Some(end) ==> m.time.less(end.sec)
                &&& wanted(config, seg.kind)
                &&& !done_before(v, seg)
                &&& credible(m, seg)
            }
        }),
{
    if v.segments is Some {
        first_is_ripe(v, config, m, v.segments->0);
    }
}

/// The first segment that is ripe is the one that is skipped, and if none is,
/// nothing is: a jump goes to the segment's end, and an outro without an end
/// leads to the next file.
pub proof fn ripe_segments_are_skipped(
    v: SkipView,
    config: &IntroSkipConfig,
    m: SkipMoment,
    segments: Seq<SkipSegment>,
    k: int,
)
    requires
        v.segments == Some(segments),
        !m.paused,
        m.file_loaded,
        0 <= k < segments.len(),
        ripe(v, config, m, segments[k]),
        forall|j: int| 0 <= j < k ==> !ripe(v, config, m, #[trigger] segments[j]),
    ensures
        ({
            let seg = segments[k];
            let decision = v.decision(config, m);
            &&& seg.segment.end is None && seg.kind == SegmentKind::Outro ==> decision
                == SkipDecision::Skip(seg, SkipAction::NextTrack)
            &&& seg.kind != SegmentKind::Outro && (seg.segment.end matches Some(end)
                && end.sec.finite() && real_zero().at_most(end.sec) && end.sec.at_most(m.duration)
                && !end.sec.at_most(m.just_after)) ==> decision == SkipDecision::Skip(
                seg,
                SkipAction::Seek(seg.segment.end->0.sec),
            )
            &&& seg.kind != SegmentKind::Outro && (seg.segment.end matches Some(end)
                && end.sec.finite() && real_zero().at_most(end.sec) && end.sec.at_most(m.duration)
                && end.sec.at_most(m.just_after)) ==> decision == SkipDecision::Past(seg)
        }),
{
    first_is_ripe(v, config, m, segments);
    let found = v.first_due(config, m, segments);
    assert(found is Some);
    let i = choose|i: int|
        0 <= i < segments.len() && #[trigger] segments[i] == found->0 && ripe(
            v,
            config,
            m,
            found->0,
        ) && (forall|j: int| 0 <= j < i ==> !ripe(v, config, m, #[trigger] segments[j]));
    assert(i == k) by {
        if i < k {
            assert(!ripe(v, config, m, segments[i]));
        }
        if k < i {
            assert(!ripe(v, config, m, segments[k]));
        }
    }
}

/// Nothing is skipped while playback pauses, before the file is loaded, before
/// its segments are known, and where none of them is ripe.
pub proof fn nothing_else_is_skipped(v: SkipView, config: &IntroSkipConfig, m: SkipMoment)
    requires
        m.paused || !m.file_loaded || v.segments is None || forall|j: int|
            0 <= j < v.segments->0.len() ==> !ripe(v, config, m, #[trigger] v.segments->0[j]),
    ensures
        v.decision(config, m) == SkipDecision::Nothing,
{
    if v.segments is Some {
        first_is_ripe(v, config, m, v.segments->0);
    }
}

/// Where a segment leads: to its end, where that is a time in the file; an outro
/// that lasts to the end, or to its last half second, to the next file; and
/// nowhere where the end makes no sense.
pub proof fn segments_lead_to_their_ends(
    kind: SegmentKind,
    end: Real,
    duration: Real,
    tail: Real,
)
    ensures
        action_for(kind, None, duration, tail) == (if kind == SegmentKind::Outro {
            Some(SkipAction::NextTrack)
        } else {
            None::<SkipAction>
        }),
        end.finite() && real_zero().at_most(end) && end.at_most(duration) && kind
            != SegmentKind::Outro ==> action_for(kind, Some(end), duration, tail) == Some(
            SkipAction::Seek(end),
        ),
        end.finite() && real_zero().at_most(end) && end.at_most(duration) && kind
            == SegmentKind::Outro && !tail.at_most(end) ==> action_for(
            kind,
            Some(end),
            duration,
            tail,
        ) == Some(SkipAction::Seek(end)),
        end.finite() && real_zero().at_most(end) && duration.finite() && (Real {
            bits: 0x3fe0_0000_0000_0000,
        }).less(duration) && (duration.less(end) || tail.at_most(end)) && kind
            == SegmentKind::Outro ==> action_for(kind, Some(end), duration, tail) == Some(
            SkipAction::NextTrack,
        ),
        end.finite() && real_zero().at_most(end) && !(duration.finite() && (Real {
            bits: 0x3fe0_0000_0000_0000,
        }).less(duration)) ==> action_for(kind, Some(end), duration, tail) == Some(
            SkipAction::Seek(end),
        ),
        duration.finite() && (Real { bits: 0x3fe0_0000_0000_0000 }).less(duration)
            && duration.less(end) && kind != SegmentKind::Outro ==> action_for(
            kind,
            Some(end),
            duration,
            tail,
        ) is None,
        !end.finite() || end.less(real_zero()) ==> action_for(kind, Some(end), duration, tail) is None,
{
}

/// A guest leaves skipping to its host, and nobody skips where it is switched
/// off: nothing happens then. Anyone else looks for the segments of what plays,
/// or looks at them.
pub proof fn guests_skip_nothing(
    v: SkipView,
    enabled: bool,
    role: LobbyRole,
    url: Seq<char>,
    now: u64,
)
    ensures
        !enabled || role == LobbyRole::Guest ==> v.stepped(enabled, role, url, now) == (
            v,
            StepView::Rest,
        ),
        enabled && role != LobbyRole::Guest && video_id_in(url) is None ==> v.stepped(
            enabled,
            role,
            url,
            now,
        ).1 == StepView::Rest,
        enabled && role != LobbyRole::Guest && video_id_in(url) is Some && video_id_in(url)
            != v.video_id ==> v.stepped(enabled, role, url, now).1 == StepView::Resolve(
            video_id_in(url)->0,
        ),
        enabled && role != LobbyRole::Guest && video_id_in(url) is Some && video_id_in(url)
            == v.video_id && v.media is Some && v.segments is Some ==> v.stepped(
            enabled,
            role,
            url,
            now,
        ) == (v, StepView::Look),
{
}

/// Segments that are not known are asked for, but not before the time to wait
/// since the last attempt is over; meanwhile what is known is looked at.
pub proof fn attempts_are_spaced(v: SkipView, id: Seq<char>, now: u64, since: u64, wait: u64)
    requires
        v.video_id == Some(id),
        v.media is None || v.segments is None,
    ensures
        v.pause is None ==> v.next_step(now) == StepView::Resolve(id),
        v.pause == Some((since, wait)) && now < since + wait ==> v.next_step(now)
            == StepView::Look,
        v.pause == Some((since, wait)) && now >= since + wait ==> v.next_step(now)
            == StepView::Resolve(id),
{
}

/// Another title starts with nothing known and nothing skipped.
pub proof fn titles_start_anew(v: SkipView, url: Seq<char>)
    requires
        video_id_in(url) != v.video_id,
    ensures
        v.seeing(url).media is None,
        v.seeing(url).segments is None,
        v.seeing(url).skipped.len() == 0,
        v.seeing(url).last_chapter is None,
        v.seeing(url).pause is None,
        v.seeing(url).video_id == video_id_in(url),
{
}

// ---------------------------------------------------------------------------
// Chapters
// ---------------------------------------------------------------------------

/// A chapter is skipped only by its title and only once: playback runs, there
/// are segments, the chapter was not the last one skipped, and its title
/// matches a word for a kind that is wanted. Only an outro at the very end leads
/// to the next file.
pub proof fn chapters_are_skipped_by_title(
    v: SkipView,
    config: &IntroSkipConfig,
    m: SkipMoment,
)
    ensures
        v.chapter_step(config, m) is Some ==> {
            let title = lowercase(trimmed(m.chapter_title@));
            &&& !m.paused
            &&& m.file_loaded
            &&& m.chapter >= 0
            &&& v.segments is Some && v.segments->0.len() > 0
            &&& v.last_chapter != Some(m.chapter)
            &&& {
                ||| config.skip_intro && matches_any(title, texts(config.chapter_intro_words@))
                ||| config.skip_recap && matches_any(title, texts(config.chapter_recap_words@))
                ||| config.skip_outro && matches_any(title, texts(config.chapter_outro_words@))
            }
        },
        v.chapter_step(config, m) == Some(ChapterAction::NextTrack) ==> config.skip_outro
            && m.chapter + 1 == m.chapter_count && matches_any(
            lowercase(trimmed(m.chapter_title@)),
            texts(config.chapter_outro_words@),
        ),
{
    let title = lowercase(trimmed(m.chapter_title@));
    matches_are_found(title, texts(config.chapter_intro_words@));
    matches_are_found(title, texts(config.chapter_recap_words@));
    matches_are_found(title, texts(config.chapter_outro_words@));
}

/// A chapter whose title matches is skipped: an intro or a recap to the next
/// chapter, an outro to the next file where it is the last chapter.
pub proof fn matching_chapters_are_skipped(
    v: SkipView,
    config: &IntroSkipConfig,
    m: SkipMoment,
)
    requires
        !m.paused,
        m.file_loaded,
        m.chapter >= 0,
        v.segments is Some && v.segments->0.len() > 0,
        v.last_chapter != Some(m.chapter),
        trimmed(m.chapter_title@).len() > 0,
    ensures
        ({
            let title = lowercase(trimmed(m.chapter_title@));
            let intro = config.skip_intro && matches_any(
                title,
                texts(config.chapter_intro_words@),
            );
            let recap = config.skip_recap && matches_any(
                title,
                texts(config.chapter_recap_words@),
            );
            let outro = config.skip_outro && matches_any(
                title,
                texts(config.chapter_outro_words@),
            );
            &&& intro || recap ==> v.chapter_step(config, m) == Some(ChapterAction::NextChapter)
            &&& !intro && !recap && outro && m.chapter + 1 == m.chapter_count ==> v.chapter_step(
                config,
                m,
            ) == Some(ChapterAction::NextTrack)
            &&& !intro && !recap && outro && m.chapter + 1 != m.chapter_count ==> v.chapter_step(
                config,
                m,
            ) == Some(ChapterAction::NextChapter)
            &&& !intro && !recap && !outro ==> v.chapter_step(config, m) is None
        }),
{
    let title = lowercase(trimmed(m.chapter_title@));
    matches_are_found(title, texts(config.chapter_intro_words@));
    matches_are_found(title, texts(config.chapter_recap_words@));
    matches_are_found(title, texts(config.chapter_outro_words@));
}

/// The title matches one of the words.
pub open spec fn matches_any(title: Seq<char>, words: Seq<Seq<char>>) -> bool {
    exists|i: int| 0 <= i < words.len() && title_matches(title, #[trigger] words[i])
}

/// The first word that matches is found, and one is found where one matches.
pub proof fn matches_are_found(title: Seq<char>, words: Seq<Seq<char>>)
    ensures
        first_match(title, words) is Some <==> matches_any(title, words),
        first_match(title, words) matches Some(word) ==> title_matches(title, word) && exists|i: int|
            0 <= i < words.len() && #[trigger] words[i] == word && forall|j: int|
                0 <= j < i ==> !title_matches(title, #[trigger] words[j]),
    decreases words.len(),
{
    if words.len() > 0 {
        let before = words.drop_last();
        matches_are_found(title, before);
        match first_match(title, before) {
            Some(word) => {
                let i = choose|i: int|
                    0 <= i < before.len() && #[trigger] before[i] == word && forall|j: int|
                        0 <= j < i ==> !title_matches(title, #[trigger] before[j]);
                assert(words[i] == word);
                assert forall|j: int| 0 <= j < i implies !title_matches(
                    title,
                    #[trigger] words[j],
                ) by {
                    assert(before[j] == words[j]);
                }
            },
            None => {
                assert forall|j: int| 0 <= j < before.len() implies !title_matches(
                    title,
                    #[trigger] words[j],
                ) by {
                    assert(before[j] == words[j]);
                }
                assert(words[words.len() - 1] == words.last());
            },
        }
    }
}

/// A long word matches wherever it stands; a short one of letters and digits
/// only where no letter or digit is next to it; and a blank one never does.
pub proof fn words_match_where_they_stand(title: Seq<char>, word: Seq<char>)
    ensures
        title_matches(title, Seq::empty()) == false,
        word.len() > 3 ==> title_matches(title, word) == exists|at: int|
            0 <= at <= title.len() - word.len() && #[trigger] title.subrange(
                at,
                at + word.len(),
            ) == word,
        title_matches(title, word) ==> has_text(title, word),
        0 < word.len() <= 3 && (forall|i: int|
            0 <= i < word.len() ==> ('0' <= #[trigger] word[i] <= '9') || ('a' <= word[i] <= 'z') || (
            'A' <= word[i] <= 'Z')) && title_matches(title, word) ==> exists|at: int|
            0 <= at <= title.len() - word.len() && #[trigger] title.subrange(
                at,
                at + word.len(),
            ) == word && (at > 0 ==> !letter_or_digit(title[at - 1])) && (at + word.len()
                < title.len() ==> !letter_or_digit(title[at + word.len()])),
{
    if word.len() > 3 && title_matches(title, word) {
        let at = choose|at: int| occurs_at(title, word, at);
        assert(title.subrange(at, at + word.len()) == word);
    }
    if word.len() > 3 && (exists|at: int|
        0 <= at <= title.len() - word.len() && #[trigger] title.subrange(at, at + word.len())
            == word) {
        let at = choose|at: int|
            0 <= at <= title.len() - word.len() && #[trigger] title.subrange(at, at + word.len())
                == word;
        assert(occurs_at(title, word, at));
    }
    if 0 < word.len() <= 3 && crate::intro_skip::is_short_word(word) && title_matches(title, word) {
        let at = choose|at: int| crate::intro_skip::stands_alone(title, word, at);
        assert(title.subrange(at, at + word.len()) == word);
        assert(occurs_at(title, word, at));
    }
}

/// An ASCII letter or a digit.
pub open spec fn letter_or_digit(c: char) -> bool {
    '0' <= c <= '9' || 'a' <= c <= 'z' || 'A' <= c <= 'Z'
}

// ---------------------------------------------------------------------------
// Which segments there are
// ---------------------------------------------------------------------------

/// A segment counts where its times make sense: it starts at a time, or at the
/// beginning where none is given, and ends later; only an outro need not end.
pub proof fn segments_make_sense(seg: IntroDbSegment, kind: SegmentKind, want: bool)
    ensures
        ({
            let part = introdb_part(want, kind, Some(seg));
            let start = if seg.start is Some {
                seg.start->0.sec
            } else {
                real_zero()
            };
            let sound = start.finite() && (seg.end is None ==> kind == SegmentKind::Outro) && (
            seg.end is Some ==> seg.end->0.sec.finite() && start.less(seg.end->0.sec));
            &&& want && sound ==> part.len() == 1 && part[0].kind == kind && part[0].api
                == IntroApi::IntroDbApp && part[0].segment.end == seg.end
                && part[0].segment.start.sec == start && (seg.start is Some
                ==> part[0].segment.start == seg.start->0)
            &&& !want || !sound ==> part.len() == 0
        }),
        introdb_part(want, kind, None).len() == 0,
{
}

/// A range counts where it ends after it starts; only credits need not end.
pub proof fn ranges_make_sense(range: TimeRange, kind: SegmentKind)
    ensures
        usable_range(range, kind) matches Some(s) ==> {
            &&& s.kind == kind
            &&& s.api == IntroApi::TheIntroDb
            &&& s.segment.start.sec.finite()
            &&& range.start matches Some(start) ==> s.segment.start == start.mark
            &&& range.start is None ==> s.segment.start.sec == real_zero()
            &&& range.end matches Some(end) ==> s.segment.end == Some(end.mark) && s.segment.start.sec.less(
                end.mark.sec,
            )
            &&& range.end is None ==> s.segment.end is None && kind == SegmentKind::Outro
        },
        (range.start is Some && range.start->0.mark.sec.finite() && range.end is Some
            && range.end->0.mark.sec.finite() && range.start->0.mark.sec.less(
            range.end->0.mark.sec,
        ) && range.start->0.ms < range.end->0.ms) ==> usable_range(range, kind) is Some,
        (range.end is None && kind == SegmentKind::Outro && (range.start is Some
            ==> range.start->0.mark.sec.finite())) ==> usable_range(range, kind) is Some,
{
}

/// Every range that makes sense is taken over, and nothing else.
pub proof fn all_ranges_are_read(ranges: Seq<TimeRange>, kind: SegmentKind, k: int)
    requires
        0 <= k < ranges.len(),
    ensures
        usable_range(ranges[k], kind) matches Some(s) ==> usable_ranges(ranges, kind).contains(s),
        usable_ranges(ranges, kind).len() <= ranges.len(),
    decreases ranges.len(),
{
    let before = usable_ranges(ranges.drop_last(), kind);
    let after = usable_ranges(ranges, kind);
    if ranges.len() > 1 {
        all_ranges_are_read(ranges.drop_last(), kind, if k < ranges.len() - 1 { k } else { 0 });
    }
    if usable_range(ranges[k], kind) is Some {
        let s = usable_range(ranges[k], kind)->0;
        if k == ranges.len() - 1 {
            assert(after[after.len() - 1] == s);
        } else {
            let i = choose|i: int| 0 <= i < before.len() && before[i] == s;
            assert(after[i] == s);
        }
    }
}

proof fn enabled_ones_stay(config: &IntroSkipConfig, segments: Seq<SkipSegment>, seg: SkipSegment)
    ensures
        enabled_only(config, segments).contains(seg) <==> segments.contains(seg) && wanted(
            config,
            seg.kind,
        ),
        enabled_only(config, segments).len() <= segments.len(),
    decreases segments.len(),
{
    if segments.len() > 0 {
        enabled_ones_stay(config, segments.drop_last(), seg);
        pushed_contains(segments.drop_last(), segments.last(), seg);
        assert(segments.drop_last().push(segments.last()) =~= segments);
        pushed_contains(enabled_only(config, segments.drop_last()), segments.last(), seg);
    }
}

proof fn pushed_contains(s: Seq<SkipSegment>, x: SkipSegment, y: SkipSegment)
    ensures
        s.push(x).contains(y) <==> s.contains(y) || x == y,
{
    if s.contains(y) {
        let i = choose|i: int| 0 <= i < s.len() && s[i] == y;
        assert(s.push(x)[i] == y);
    }
    assert(s.push(x)[s.len() as int] == x);
    if s.push(x).contains(y) && x != y {
        let i = choose|i: int| 0 <= i < s.push(x).len() && s.push(x)[i] == y;
        assert(s[i] == y);
    }
}

/// The kind is among the segments.
pub open spec fn of_kind(segments: Seq<SkipSegment>, kind: SegmentKind) -> bool {
    exists|i: int| 0 <= i < segments.len() && (#[trigger] segments[i]).kind == kind
}

proof fn gaps_are_filled(
    config: &IntroSkipConfig,
    episode: bool,
    first: Seq<SkipSegment>,
    second: Seq<SkipSegment>,
    seg: SkipSegment,
)
    ensures
        filling(config, episode, first, second).contains(seg) <==> second.contains(seg) && (
        !episode || (wanted(config, seg.kind) && !of_kind(first, seg.kind))),
    decreases second.len(),
{
    if second.len() > 0 {
        gaps_are_filled(config, episode, first, second.drop_last(), seg);
        pushed_contains(second.drop_last(), second.last(), seg);
        assert(second.drop_last().push(second.last()) =~= second);
        pushed_contains(
            filling(config, episode, first, second.drop_last()),
            second.last(),
            seg,
        );
    }
}

/// Both databases together: every wanted segment of the first is there, and of
/// the second every wanted one that fills a gap, which for a film is every one;
/// nothing else is. They are in the order of their starts.
pub proof fn databases_complement_each_other(
    config: &IntroSkipConfig,
    episode: bool,
    first: Fetched,
    second: Fetched,
    seg: SkipSegment,
)
    requires
        forall|i: int|
            0 <= i < first.given().len() ==> !(#[trigger] first.given()[i]).segment.start.sec.is_nan_spec(),
        forall|i: int|
            0 <= i < second.given().len() ==> !(#[trigger] second.given()[i]).segment.start.sec.is_nan_spec(),
    ensures
        ({
            let one = first.given();
            let two = second.given();
            let belongs = wanted(config, seg.kind) && (one.contains(seg) || (two.contains(seg) && (
            !episode || !of_kind(one, seg.kind))));
            &&& merged(config, episode, first, second) matches Ok(Some(all)) ==> (all.contains(seg)
                <==> belongs) && crate::intro_skip::is_by_start(all)
            &&& belongs && (one.len() > 0 || !(second is Failed)) ==> (merged(
                config,
                episode,
                first,
                second,
            ) matches Ok(Some(all)) && all.contains(seg))
        }),
{
    let one = first.given();
    let two = second.given();
    let more = filling(config, episode, one, two);
    let all = one + more;
    let kept = enabled_only(config, all);
    gaps_are_filled(config, episode, one, two, seg);
    enabled_ones_stay(config, all, seg);
    assert(all.contains(seg) <==> one.contains(seg) || more.contains(seg)) by {
        if one.contains(seg) {
            let i = choose|i: int| 0 <= i < one.len() && one[i] == seg;
            assert(all[i] == seg);
        }
        if more.contains(seg) {
            let i = choose|i: int| 0 <= i < more.len() && more[i] == seg;
            assert(all[one.len() + i] == seg);
        }
        if all.contains(seg) {
            let i = choose|i: int| 0 <= i < all.len() && all[i] == seg;
            if i < one.len() {
                assert(one[i] == seg);
            } else {
                assert(more[i - one.len()] == seg);
            }
        }
    }
    assert forall|i: int| 0 <= i < kept.len() implies !(
    #[trigger] kept[i]).segment.start.sec.is_nan_spec() by {
        let s = kept[i];
        enabled_ones_stay(config, all, s);
        gaps_are_filled(config, episode, one, two, s);
        assert(kept.contains(s));
        let k = choose|k: int| 0 <= k < all.len() && all[k] == s;
        if k < one.len() {
            assert(one[k] == s);
        } else {
            assert(more[k - one.len()] == s);
            assert(two.contains(s));
            let n = choose|n: int| 0 <= n < two.len() && two[n] == s;
            assert(two[n] == s);
        }
    }
    sorting_orders_segments(kept);
    kept.to_multiset_ensures();
    by_start(kept).to_multiset_ensures();
    assert(kept.contains(seg) <==> kept.to_multiset().count(seg) > 0);
    assert(by_start(kept).contains(seg) <==> by_start(kept).to_multiset().count(seg) > 0);
}

/// A failure counts only where nothing was found in spite of it.
pub proof fn failures_count_last(
    config: &IntroSkipConfig,
    episode: bool,
    first: Fetched,
    second: Fetched,
)
    ensures
        merged(config, episode, first, second) == Err::<Option<Seq<SkipSegment>>, FetchError>(
            FetchError::TheIntroDb,
        ) <==> second is Failed && first.given().len() == 0,
        merged(config, episode, first, second) == Err::<Option<Seq<SkipSegment>>, FetchError>(
            FetchError::IntroDb,
        ) ==> first is Failed,
        !(first is Failed) && !(second is Failed) ==> merged(config, episode, first, second) is Ok,
{
}

/// The second database is asked for every film, and for an episode where a kind
/// that is wanted is still missing.
pub proof fn second_database_fills_gaps(
    config: &IntroSkipConfig,
    first: Seq<SkipSegment>,
    kind: SegmentKind,
)
    ensures
        asks_second(config, false, first),
        wanted(config, kind) && !of_kind(first, kind) ==> asks_second(config, true, first),
        of_kind(first, SegmentKind::Intro) && of_kind(first, SegmentKind::Recap) && of_kind(
            first,
            SegmentKind::Outro,
        ) ==> !asks_second(config, true, first),
        !config.skip_intro && !config.skip_recap && !config.skip_outro ==> !asks_second(
            config,
            true,
            first,
        ),
{
}

/// The databases are asked for the title that plays: by its id, and an episode
/// by its season and number too. introdb.app knows episodes only.
pub proof fn databases_are_asked_for_the_title(id: Seq<char>, season: u32, episode: u32)
    ensures
        ({
            let one = MediaView { imdb_id: id, season: Some(season), episode: Some(episode) };
            let film = MediaView { imdb_id: id, season: None, episode: None };
            let place = id + "&season="@ + decimal(season as nat) + "&episode="@ + decimal(
                episode as nat,
            );
            &&& introdb_url_of(one) == Some("https://api.introdb.app/segments?imdb_id="@ + place)
            &&& introdb_url_of(film) is None
            &&& theintrodb_url_of(one) == "https://api.theintrodb.org/v2/media?imdb_id="@ + place
            &&& theintrodb_url_of(film) == "https://api.theintrodb.org/v2/media?imdb_id="@ + id
        }),
{
    let one = MediaView { imdb_id: id, season: Some(season), episode: Some(episode) };
    let place = id + "&season="@ + decimal(season as nat) + "&episode="@ + decimal(episode as nat);
    assert(introdb_url_of(one)->0 =~= "https://api.introdb.app/segments?imdb_id="@ + place);
    assert(theintrodb_url_of(one) =~= "https://api.theintrodb.org/v2/media?imdb_id="@ + place);
}

/// A key is sent as it is, without white space around it; a blank one is not.
pub proof fn keys_are_sent(key: Option<Seq<char>>)
    ensures
        key is None ==> key_to_send(key) is None,
        key matches Some(k) ==> (key_to_send(key) is None <==> trimmed(k).len() == 0),
        key matches Some(k) ==> (trimmed(k).len() > 0 ==> key_to_send(key) == Some(trimmed(k))),
{
}

// ---------------------------------------------------------------------------
// What plays
// ---------------------------------------------------------------------------

/// The id of an episode is its series' id, its season and its number, between
/// colons; that of a film is its id alone.
pub proof fn ids_say_what_plays(id: Seq<char>, season: u32, episode: u32)
    requires
        !id.contains(':'),
        id != "kitsu"@,
    ensures
        video_id_of(seq![id, decimal(season as nat), decimal(episode as nat)]) == Some(
            VideoIdView::ImdbEpisode { imdb_id: id, season, episode },
        ),
        is_imdb_id(id) ==> video_id_of(seq![id]) == Some(VideoIdView::ImdbMovie { imdb_id: id }),
        !is_imdb_id(id) ==> video_id_of(seq![id]) is None,
        video_id_of(seq!["kitsu"@, id]) == Some(VideoIdView::KitsuMovie { kitsu_id: id }),
        video_id_of(seq!["kitsu"@, id, decimal(episode as nat)]) == Some(
            VideoIdView::KitsuEpisode { kitsu_series_id: id, kitsu_episode: episode },
        ),
{
    decimal_denotes(season as nat);
    decimal_denotes(episode as nat);
}

/// An episode that is known by its id needs no catalogue; one of Kitsu's is
/// looked up there unless it was before.
pub proof fn known_titles_need_no_catalogue(
    video_id: Seq<char>,
    known: Map<Seq<char>, Option<MediaView>>,
    id: Seq<char>,
    season: u32,
    episode: u32,
)
    ensures
        video_id_of(split_on(video_id, ':')) == Some(
            VideoIdView::ImdbEpisode { imdb_id: id, season, episode },
        ) && is_imdb_id(id) && season > 0 && episode > 0 ==> lookup_of(video_id, known)
            == LookupView::Known(
            Some(MediaView { imdb_id: id, season: Some(season), episode: Some(episode) }),
        ),
        video_id_of(split_on(video_id, ':')) == Some(VideoIdView::ImdbMovie { imdb_id: id })
            ==> lookup_of(video_id, known) == LookupView::Known(
            Some(MediaView { imdb_id: id, season: None, episode: None }),
        ),
        video_id_of(split_on(video_id, ':')) == Some(
            VideoIdView::KitsuEpisode { kitsu_series_id: id, kitsu_episode: episode },
        ) ==> {
            let full = "kitsu:"@ + id + ":"@ + decimal(episode as nat);
            &&& known.contains_key(full) ==> lookup_of(video_id, known) == LookupView::Known(
                known[full],
            )
            &&& !known.contains_key(full) ==> (lookup_of(video_id, known) matches LookupView::KitsuSeries {
                video_id: asked,
                url,
            } && asked == full && url == "https://anime-kitsu.strem.fun/meta/series/kitsu:"@ + id
                + ".json"@)
        },
        video_id_of(split_on(video_id, ':')) == Some(VideoIdView::KitsuMovie { kitsu_id: id }) ==> {
            let full = "kitsu:"@ + id;
            &&& known.contains_key(full) ==> lookup_of(video_id, known) == LookupView::Known(
                known[full],
            )
            &&& !known.contains_key(full) ==> (lookup_of(video_id, known) matches LookupView::KitsuMovie {
                video_id: asked,
                url,
            } && asked == full && url == "https://anime-kitsu.strem.fun/meta/movie/kitsu:"@ + id
                + ".json"@)
        },
{
}

/// Of a kind that is not wanted nothing is taken; of one that is wanted every
/// range that makes sense, as a segment of that kind.
pub proof fn wanted_kinds_are_taken(
    kind: SegmentKind,
    ranges: Seq<TimeRange>,
    k: int,
    seg: SkipSegment,
)
    requires
        0 <= k < ranges.len(),
        usable_range(ranges[k], kind) == Some(seg),
    ensures
        theintrodb_part(false, kind, ranges).len() == 0,
        theintrodb_part(true, kind, ranges).contains(seg),
        theintrodb_part(true, kind, ranges).len() <= ranges.len(),
{
    all_ranges_are_read(ranges, kind, k);
    let kept = usable_ranges(ranges, kind);
    kept_ranges_start(ranges, kind);
    sorting_orders_segments(kept);
    let sorted = by_start(kept);
    kept.to_multiset_ensures();
    sorted.to_multiset_ensures();
    assert(kept.to_multiset().count(seg) > 0);
    assert(sorted.to_multiset().count(seg) > 0);
    assert(sorted.len() == kept.len());
}

proof fn kept_ranges_start(ranges: Seq<TimeRange>, kind: SegmentKind)
    ensures
        forall|i: int|
            0 <= i < usable_ranges(ranges, kind).len() ==> !(#[trigger] usable_ranges(
                ranges,
                kind,
            )[i]).segment.start.sec.is_nan_spec(),
    decreases ranges.len(),
{
    if ranges.len() > 0 {
        let before = usable_ranges(ranges.drop_last(), kind);
        let kept = usable_ranges(ranges, kind);
        kept_ranges_start(ranges.drop_last(), kind);
        assert forall|i: int| 0 <= i < kept.len() implies !(
        #[trigger] kept[i]).segment.start.sec.is_nan_spec() by {
            if i < before.len() {
                assert(kept[i] == before[i]);
            }
        }
    }
}

/// An id with more parts or fewer than a film's or an episode's stands for
/// nothing, and so does one whose season or episode is no number.
pub proof fn odd_ids_say_nothing(parts: Seq<Seq<char>>)
    requires
        parts.len() >= 1,
    ensures
        parts[0] != "kitsu"@ && parts.len() != 1 && parts.len() != 3 ==> video_id_of(parts) is None,
        parts[0] == "kitsu"@ && parts.len() != 2 && parts.len() != 3 ==> video_id_of(parts) is None,
        parts.len() == 3 && number_in(parts[2]) is None ==> video_id_of(parts) is None,
        parts.len() == 3 && parts[0] != "kitsu"@ && number_in(parts[1]) is None ==> video_id_of(
            parts,
        ) is None,
{
}

/// A film of the other catalogue is the one whose IMDb id it gives; without a
/// valid one it is not known.
pub proof fn films_are_known_by_their_id(id: Seq<char>)
    ensures
        is_imdb_id(id) ==> kitsu_film(Some(id)) == Some(
            MediaView { imdb_id: id, season: None, episode: None },
        ),
        !is_imdb_id(id) ==> kitsu_film(Some(id)) is None,
        kitsu_film(None) is None,
{
}

/// What the catalogue says of an episode is what is known of it afterwards; an
/// episode without an own id belongs to the series.
pub proof fn catalogue_answers_are_known(
    known: Map<Seq<char>, Option<MediaView>>,
    series: Option<Seq<char>>,
    videos: Seq<KitsuVideo>,
    k: int,
    season: u32,
    episode: u32,
    id: Seq<char>,
)
    requires
        0 <= k < videos.len(),
        forall|j: int| k < j < videos.len() ==> (#[trigger] videos[j]).id@ != videos[k].id@,
        videos[k].imdb_season == Some(season),
        videos[k].imdb_episode == Some(episode),
        season > 0,
        episode > 0,
        videos[k].imdb_id is Some ==> videos[k].imdb_id->0@ == id,
        videos[k].imdb_id is None ==> series == Some(id),
        is_imdb_id(id),
    ensures
        media_under(with_videos(known, series, videos), videos[k].id@) == Some(
            MediaView { imdb_id: id, season: Some(season), episode: Some(episode) },
        ),
    decreases videos.len(),
{
    if k < videos.len() - 1 {
        let before = videos.drop_last();
        assert forall|j: int| k < j < before.len() implies (#[trigger] before[j]).id@
            != before[k].id@ by {
            assert(before[j] == videos[j]);
        }
        catalogue_answers_are_known(known, series, before, k, season, episode, id);
        assert(videos[videos.len() - 1].id@ != videos[k].id@);
    }
}

/// A page that shows no player plays nothing, and the id of what plays is the
/// decoded last part of the player's address.
pub proof fn players_name_what_plays(url: Seq<char>)
    ensures
        !has_text(url, "/player/"@) ==> video_id_in(url) is None,
        has_text(url, "/player/"@) && url_decoded(last_part(url)) is Some && url_decoded(
            last_part(url),
        )->0.len() > 0 ==> video_id_in(url) == url_decoded(last_part(url)),
        video_id_in(url) matches Some(id) ==> id.len() > 0,
{
}

} // verus!
