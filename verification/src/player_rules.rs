//! The rules by which the player is driven: which properties wait, how a load
//! command is put in order, how a stream's address is made fresh, which keys
//! the player owns.

use crate::number::{decimal, format_u128, Real, THIRTY_BITS, TWO_BITS};
use crate::playback::{same_value, PropVal, PropView};
use crate::text::{
    chars_of, contains, has_prefix, has_text, join, joined, joined_from_front, joined_then_split,
    pieces_hold_no_separator,
    same_text, split, split_on, starts_with, strip_prefix, strip_prefixes, text_of, texts, trim,
    trim_start, trimmed, trimmed_start, without_prefix, without_prefixes,
};
use crate::urls::{
    of_a_file, pair_texts, parse_url, reads_back, replace_query, url_parts, url_with_query,
};
use vstd::hash_map::StringHashMap;
use vstd::prelude::*;

verus! {

/// How far a file is loaded.
#[derive(Debug, Clone, Copy, PartialEq, Eq, Structural)]
pub enum LoadState {
    Idle,
    Loading,
    Loaded,
    Stopping,
}

// ---------------------------------------------------------------------------
// Which properties wait
// ---------------------------------------------------------------------------

/// The property belongs to the file that plays.
pub open spec fn file_scoped(name: Seq<char>) -> bool {
    name == "sid"@ || name == "aid"@ || name == "vid"@
}

/// The property describes how the picture is made, whatever file plays.
pub open spec fn render_property(name: Seq<char>) -> bool {
    name == "vo"@ || name == "hwdec"@
}

/// The property is set while playback starts.
pub open spec fn startup_property(name: Seq<char>) -> bool {
    ||| name == "sub-scale"@
    ||| name == "sub-pos"@
    ||| name == "sub-color"@
    ||| name == "sub-back-color"@
    ||| name == "sub-border-color"@
    ||| name == "sub-outline-color"@
    ||| name == "sub-ass-override"@
    ||| name == "hwdec"@
    ||| name == "vo"@
    ||| name == "osc"@
    ||| name == "input-default-bindings"@
    ||| name == "input-vo-keyboard"@
    ||| name == "sid"@
    ||| name == "aid"@
    ||| name == "vid"@
    ||| name == "pause"@
    ||| name == "volume"@
    ||| name == "mute"@
    ||| name == "speed"@
}

pub fn is_startup_property(name: &str) -> (yes: bool)
    ensures
        yes == startup_property(name@),
{
    same_text(name, "sub-scale") || same_text(name, "sub-pos") || same_text(name, "sub-color")
        || same_text(name, "sub-back-color") || same_text(name, "sub-border-color") || same_text(
        name,
        "sub-outline-color",
    ) || same_text(name, "sub-ass-override") || same_text(name, "hwdec") || same_text(name, "vo")
        || same_text(name, "osc") || same_text(name, "input-default-bindings") || same_text(
        name,
        "input-vo-keyboard",
    ) || same_text(name, "sid") || same_text(name, "aid") || same_text(name, "vid") || same_text(
        name,
        "pause",
    ) || same_text(name, "volume") || same_text(name, "mute") || same_text(name, "speed")
}

pub fn is_file_scoped_property(name: &str) -> (yes: bool)
    ensures
        yes == file_scoped(name@),
{
    same_text(name, "sid") || same_text(name, "aid") || same_text(name, "vid")
}

pub fn is_persistent_render_property(name: &str) -> (yes: bool)
    ensures
        yes == render_property(name@),
{
    same_text(name, "vo") || same_text(name, "hwdec")
}

/// The values in a map.
pub open spec fn prop_views(map: Map<Seq<char>, PropVal>) -> Map<Seq<char>, PropView> {
    map.map_values(|v: PropVal| v@)
}

/// A render property that already has the value.
pub open spec fn unchanged_render(
    properties: Map<Seq<char>, PropView>,
    name: Seq<char>,
    value: PropView,
) -> bool {
    render_property(name) && properties.contains_key(name) && same_value(properties[name], value)
}

pub fn is_unchanged_persistent_render_property(
    properties: &StringHashMap<PropVal>,
    name: &str,
    value: &PropVal,
) -> (unchanged: bool)
    ensures
        unchanged == unchanged_render(prop_views(properties@), name@, value@),
{
    if !is_persistent_render_property(name) {
        return false;
    }
    match properties.get(name) {
        Some(known) => known.same(value),
        None => false,
    }
}

/// A property that must wait: one of the file until the file is loaded, and
/// any that is set at the start while a stop is under way.
pub open spec fn must_wait(state: LoadState, name: Seq<char>) -> bool {
    if file_scoped(name) {
        state != LoadState::Loaded
    } else {
        state == LoadState::Stopping && startup_property(name)
    }
}

pub fn should_defer_property(state: LoadState, name: &str) -> (wait: bool)
    ensures
        wait == must_wait(state, name@),
{
    if is_file_scoped_property(name) {
        return state != LoadState::Loaded;
    }
    state == LoadState::Stopping && is_startup_property(name)
}

/// A local stream that started to load and failed before it was loaded is
/// tried again. The load is given by whether it started and whether it was
/// loaded.
pub fn should_retry_startup_failure_event(
    state: LoadState,
    is_local_stream: bool,
    active_load_state: Option<(bool, bool)>,
) -> (retry: bool)
    ensures
        retry == (state == LoadState::Loading && is_local_stream && active_load_state == Some(
            (true, false),
        )),
{
    match active_load_state {
        Some((started, loaded)) => state == LoadState::Loading && is_local_stream && started
            && !loaded,
        None => false,
    }
}

/// The stream comes from the local streaming server.
pub open spec fn local_stream(url: Seq<char>) -> bool {
    has_text(url, ":11470/"@)
}

pub fn is_local_stream_url(url: &str) -> (local: bool)
    ensures
        local == local_stream(url@),
{
    contains(url, ":11470/")
}

// ---------------------------------------------------------------------------
// Video outputs
// ---------------------------------------------------------------------------

/// The pieces that are not empty.
pub open spec fn filled(pieces: Seq<Seq<char>>) -> Seq<Seq<char>>
    decreases pieces.len(),
{
    if pieces.len() == 0 {
        Seq::empty()
    } else if pieces.last().len() > 0 {
        filled(pieces.drop_last()).push(pieces.last())
    } else {
        filled(pieces.drop_last())
    }
}

/// Outputs with both of the GPU outputs, where none is named or one of them.
pub open spec fn with_both_gpu_outputs(outputs: Seq<Seq<char>>) -> Seq<Seq<char>> {
    let next = outputs.contains("gpu-next"@);
    let plain = outputs.contains("gpu"@);
    if outputs.len() == 0 {
        seq!["gpu-next"@, "gpu"@]
    } else if next && !plain {
        outputs.push("gpu"@)
    } else if plain && !next {
        outputs.push("gpu-next"@)
    } else {
        outputs
    }
}

/// The list of video outputs with a fallback between the GPU outputs, and then
/// whatever the player chooses.
pub open spec fn gpu_outputs(vo: Seq<char>) -> Seq<char> {
    joined(with_both_gpu_outputs(filled(split_on(vo, ','))), ","@) + ","@
}

pub fn with_gpu_next_fallback(vo: &str) -> (outputs: String)
    ensures
        outputs@ == gpu_outputs(vo@),
{
    let pieces = split(vo, ',');
    let mut outputs: Vec<String> = Vec::new();
    let mut has_next = false;
    let mut has_plain = false;
    assert(filled(texts(pieces@).take(0)) =~= texts(outputs@));
    for i in 0..pieces.len()
        invariant
            texts(outputs@) == filled(texts(pieces@).take(i as int)),
            has_next == texts(outputs@).contains("gpu-next"@),
            has_plain == texts(outputs@).contains("gpu"@),
    {
        let ghost seen = texts(pieces@).take(i + 1);
        let ghost before = texts(outputs@);
        assert(seen.drop_last() =~= texts(pieces@).take(i as int));
        let piece = &pieces[i];
        if !piece.as_str().is_empty() {
            let is_next = same_text(piece.as_str(), "gpu-next");
            let is_plain = same_text(piece.as_str(), "gpu");
            has_next = has_next || is_next;
            has_plain = has_plain || is_plain;
            outputs.push(piece.clone());
            proof {
                assert(texts(outputs@) =~= before.push(piece@));
                contains_pushed(before, piece@, "gpu-next"@);
                contains_pushed(before, piece@, "gpu"@);
            }
        }
    }
    assert(texts(pieces@).take(pieces@.len() as int) =~= texts(pieces@));
    let ghost given = texts(outputs@);
    if outputs.len() == 0 {
        outputs.push("gpu-next".to_string());
        outputs.push("gpu".to_string());
        assert(texts(outputs@) =~= seq!["gpu-next"@, "gpu"@]);
    } else if has_next && !has_plain {
        outputs.push("gpu".to_string());
        assert(texts(outputs@) =~= given.push("gpu"@));
    } else if has_plain && !has_next {
        outputs.push("gpu-next".to_string());
        assert(texts(outputs@) =~= given.push("gpu-next"@));
    }
    let mut list = join(&outputs, ",");
    list.append(",");
    list
}

proof fn contains_pushed(s: Seq<Seq<char>>, x: Seq<char>, y: Seq<char>)
    ensures
        s.push(x).contains(y) == (s.contains(y) || x == y),
{
    let t = s.push(x);
    if s.contains(y) {
        let i = s.index_of(y);
        assert(t[i] == y);
    }
    if x == y {
        assert(t[s.len() as int] == y);
    }
    if t.contains(y) {
        let i = t.index_of(y);
        assert(t[i] == y);
        if i < s.len() {
            assert(s[i] == y);
        }
    }
}

// ---------------------------------------------------------------------------
// Key bindings
// ---------------------------------------------------------------------------

/// A binding of the player's that is to reach it: one that the user made and
/// that is not switched off.
pub fn is_active_user_binding(is_weak: bool, priority: i64) -> (active: bool)
    ensures
        active == (!is_weak && priority >= 0),
{
    !is_weak && priority >= 0
}

/// The first place at or after `from` where the character stands.
pub open spec fn next_at(s: Seq<char>, c: char, from: int) -> int
    decreases s.len() - from,
{
    if from >= s.len() || s[from] == c {
        from
    } else {
        next_at(s, c, from + 1)
    }
}

/// The keys of a binding's sequence from a place on. A dash ends a key, unless
/// nothing follows it; of two dashes in a row the second does.
pub open spec fn key_parts(key: Seq<char>, start: int) -> Seq<Seq<char>>
    decreases key.len() - start,
{
    let dash = next_at(key, '-', start);
    if start < 0 || dash < start || dash + 1 >= key.len() {
        seq![key.skip(start)]
    } else {
        let end = if key[dash + 1] == '-' {
            dash + 1
        } else {
            dash
        };
        seq![key.subrange(start, end)] + key_parts(key, end + 1)
    }
}

proof fn next_at_is(s: Seq<char>, c: char, from: int, at: int)
    requires
        0 <= from <= at <= s.len(),
        forall|j: int| from <= j < at ==> s[j] != c,
        at < s.len() ==> s[at] == c,
    ensures
        next_at(s, c, from) == at,
    decreases at - from,
{
    if from < at {
        assert(s[from] != c);
        next_at_is(s, c, from + 1, at);
    }
}

/// The keys of a binding's sequence.
pub fn binding_sequence_parts(key: &str) -> (parts: Vec<String>)
    ensures
        texts(parts@) == key_parts(key@, 0),
        parts.len() >= 1,
{
    let chars = chars_of(key);
    let mut parts: Vec<String> = Vec::new();
    let mut start: usize = 0;
    let mut at: usize = 0;
    assert(texts(parts@) + key_parts(key@, 0) =~= key_parts(key@, 0));
    while at < chars.len()
        invariant
            chars@ == key@,
            start <= at <= chars.len(),
            forall|j: int| start <= j < at ==> key@[j] != '-',
            texts(parts@) + key_parts(key@, start as int) == key_parts(key@, 0),
        ensures
            at == chars.len() || (at + 1 == chars.len() && key@[at as int] == '-'),
        decreases chars.len() - at,
    {
        if chars[at] == '-' {
            proof {
                next_at_is(key@, '-', start as int, at as int);
            }
            if at == chars.len() - 1 {
                break ;
            }
            let end: usize = if chars[at + 1] == '-' {
                at + 1
            } else {
                at
            };
            let part = text_of(&chars, start, end);
            let ghost before = texts(parts@);
            let ghost p = part@;
            parts.push(part);
            proof {
                assert(texts(parts@) =~= before.push(p));
                assert(key_parts(key@, start as int) == seq![p] + key_parts(key@, end + 1));
                assert(before.push(p) + key_parts(key@, end + 1) =~= before + (seq![p] + key_parts(
                    key@,
                    end + 1,
                )));
            }
            start = end + 1;
            at = start;
        } else {
            at = at + 1;
        }
    }
    proof {
        next_at_is(key@, '-', start as int, at as int);
        assert(key_parts(key@, start as int) == seq![key@.skip(start as int)]);
        assert(key@.skip(start as int) =~= key@.subrange(start as int, key@.len() as int));
    }
    let ghost before = texts(parts@);
    let part = text_of(&chars, start, chars.len());
    let ghost p = part@;
    parts.push(part);
    assert(texts(parts@) =~= before + seq![p]);
    parts
}

/// A key binding as the player lists it.
#[derive(Debug)]
pub struct InputBinding {
    pub key: Option<String>,
    pub is_weak: bool,
    pub priority: i64,
}

impl InputBinding {
    /// The keys that the binding keeps for the player.
    pub open spec fn keys(self) -> Seq<Seq<char>> {
        if !self.is_weak && self.priority >= 0 && self.key is Some {
            key_parts(self.key->0@, 0)
        } else {
            Seq::empty()
        }
    }
}

/// A list with the keys of another that it does not hold yet.
pub open spec fn with_keys(known: Seq<Seq<char>>, keys: Seq<Seq<char>>) -> Seq<Seq<char>>
    decreases keys.len(),
{
    if keys.len() == 0 {
        known
    } else {
        let before = with_keys(known, keys.drop_last());
        if before.contains(keys.last()) {
            before
        } else {
            before.push(keys.last())
        }
    }
}

/// The keys that the bindings keep for the player, each once.
pub open spec fn keys_of(bindings: Seq<InputBinding>) -> Seq<Seq<char>>
    decreases bindings.len(),
{
    if bindings.len() == 0 {
        Seq::empty()
    } else {
        with_keys(keys_of(bindings.drop_last()), bindings.last().keys())
    }
}

/// Some binding is a sequence of keys.
pub open spec fn any_sequence(bindings: Seq<InputBinding>) -> bool {
    exists|i: int| 0 <= i < bindings.len() && (#[trigger] bindings[i]).keys().len() > 1
}

/// The keys that the player owns.
#[derive(Debug)]
pub struct BoundKeys {
    pub keys: Vec<String>,
    /// Whether one of the bindings is a sequence of keys.
    pub has_sequences: bool,
}

fn has_key(keys: &Vec<String>, key: &str) -> (found: bool)
    ensures
        found == texts(keys@).contains(key@),
{
    for i in 0..keys.len()
        invariant
            forall|j: int| 0 <= j < i ==> (#[trigger] keys@[j])@ != key@,
    {
        if same_text(keys[i].as_str(), key) {
            assert(texts(keys@)[i as int] == key@);
            return true;
        }
    }
    false
}

fn add_keys(keys: &mut Vec<String>, parts: &Vec<String>)
    ensures
        texts(final(keys)@) == with_keys(texts(old(keys)@), texts(parts@)),
{
    assert(texts(parts@).take(0) =~= Seq::<Seq<char>>::empty());
    for i in 0..parts.len()
        invariant
            texts(keys@) == with_keys(texts(old(keys)@), texts(parts@).take(i as int)),
    {
        let ghost seen = texts(parts@).take(i + 1);
        let ghost before = texts(keys@);
        assert(seen.drop_last() =~= texts(parts@).take(i as int));
        assert(seen.last() == parts@[i as int]@);
        if !has_key(keys, parts[i].as_str()) {
            keys.push(parts[i].clone());
            assert(texts(keys@) =~= before.push(parts@[i as int]@));
        }
    }
    assert(texts(parts@).take(parts@.len() as int) =~= texts(parts@));
}

/// The keys that the player's bindings keep from the web interface.
pub fn bound_keys(bindings: &Vec<InputBinding>) -> (bound: BoundKeys)
    ensures
        texts(bound.keys@) == keys_of(bindings@),
        bound.has_sequences == any_sequence(bindings@),
{
    let mut keys: Vec<String> = Vec::new();
    let mut has_sequences = false;
    assert(texts(keys@) =~= keys_of(bindings@.take(0)));
    for i in 0..bindings.len()
        invariant
            texts(keys@) == keys_of(bindings@.take(i as int)),
            has_sequences == exists|j: int|
                0 <= j < i && (#[trigger] bindings@[j]).keys().len() > 1,
    {
        let binding = &bindings[i];
        let ghost seen = bindings@.take(i + 1);
        assert(seen.drop_last() =~= bindings@.take(i as int));
        let mut parts: Vec<String> = Vec::new();
        if is_active_user_binding(binding.is_weak, binding.priority) {
            match &binding.key {
                Some(key) => {
                    parts = binding_sequence_parts(key.as_str());
                },
                None => {},
            }
        }
        assert(texts(parts@) =~= binding.keys());
        assert(parts@.len() == texts(parts@).len());
        has_sequences = has_sequences || parts.len() > 1;
        add_keys(&mut keys, &parts);
    }
    assert(bindings@.take(bindings@.len() as int) =~= bindings@);
    BoundKeys { keys, has_sequences }
}

/// Takes in the player's bindings, as far as they could be read, and says
/// whether the keys were set. Without them the keys stay as they were.
pub fn query_and_set_bound_keys(
    bindings: Option<&Vec<InputBinding>>,
    bound: &mut BoundKeys,
) -> (set: bool)
    ensures
        set == (bindings is Some),
        match bindings {
            Some(b) => texts(final(bound).keys@) == keys_of(b@) && final(bound).has_sequences
                == any_sequence(b@),
            None => *final(bound) == *old(bound),
        },
{
    match bindings {
        Some(b) => {
            *bound = bound_keys(b);
            true
        },
        None => false,
    }
}

// ---------------------------------------------------------------------------
// Fresh addresses
// ---------------------------------------------------------------------------

/// The pairs of a query that are not the mark of a reload.
pub open spec fn without_reload(query: Seq<(Seq<char>, Seq<char>)>) -> Seq<(Seq<char>, Seq<char>)>
    decreases query.len(),
{
    if query.len() == 0 {
        Seq::empty()
    } else if query.last().0 == "_reload"@ {
        without_reload(query.drop_last())
    } else {
        without_reload(query.drop_last()).push(query.last())
    }
}

/// A query with one mark of a reload, at its end.
pub open spec fn reloaded(query: Seq<(Seq<char>, Seq<char>)>, timestamp: u128) -> Seq<
    (Seq<char>, Seq<char>),
> {
    without_reload(query).push(("_reload"@, decimal(timestamp as nat)))
}

/// The address of a stream with a mark that no cache has seen.
pub open spec fn fresh_url(url: Seq<char>, timestamp: u128) -> Seq<char> {
    match url_parts(url) {
        Some(parts) => url_with_query(url, reloaded(parts.query, timestamp)),
        None => unparsed_fresh_url(url, timestamp),
    }
}

/// The same for a text that is no URL.
pub open spec fn unparsed_fresh_url(url: Seq<char>, timestamp: u128) -> Seq<char> {
    url + (if has_text(url, "?"@) {
        "&"@
    } else {
        "?"@
    }) + "_reload="@ + decimal(timestamp as nat)
}

/// A query with one mark of a reload, at its end.
pub fn reload_pairs(query: &Vec<(String, String)>, timestamp: u128) -> (pairs: Vec<
    (String, String),
>)
    ensures
        pair_texts(pairs@) == reloaded(pair_texts(query@), timestamp),
{
    let mut pairs: Vec<(String, String)> = Vec::new();
    assert(pair_texts(pairs@) =~= without_reload(pair_texts(query@).take(0)));
    for i in 0..query.len()
        invariant
            pair_texts(pairs@) == without_reload(pair_texts(query@).take(i as int)),
    {
        let ghost seen = pair_texts(query@).take(i + 1);
        let ghost before = pair_texts(pairs@);
        assert(seen.drop_last() =~= pair_texts(query@).take(i as int));
        let pair = &query[i];
        if !same_text(pair.0.as_str(), "_reload") {
            pairs.push((pair.0.clone(), pair.1.clone()));
            assert(pair_texts(pairs@) =~= before.push((pair.0@, pair.1@)));
        }
    }
    assert(pair_texts(query@).take(query@.len() as int) =~= pair_texts(query@));
    let ghost before = pair_texts(pairs@);
    pairs.push(("_reload".to_string(), format_u128(timestamp)));
    assert(pair_texts(pairs@) =~= before.push(("_reload"@, decimal(timestamp as nat))));
    pairs
}

/// The fresh address is a URL whose query is the old one with one mark at its
/// end, and making it fresh again replaces the mark.
pub open spec fn replaces_its_mark(url: Seq<char>, fresh: Seq<char>, timestamp: u128) -> bool {
    &&& url_parts(fresh) is Some
    &&& url_parts(fresh)->0.query == reloaded(url_parts(url)->0.query, timestamp)
    &&& forall|later: u128| #[trigger] fresh_url(fresh, later) == fresh_url(url, later)
}

/// The address of a stream with a mark that no cache has seen. The mark
/// replaces an earlier one wherever the address reads back, as every address
/// does that is not of a file.
pub fn cache_busted_url_at(url: &str, timestamp: u128) -> (fresh: String)
    ensures
        fresh@ == fresh_url(url@, timestamp),
        url_parts(url@) is Some && reads_back(url_parts(url@)->0) ==> replaces_its_mark(
            url@,
            fresh@,
            timestamp,
        ),
        url_parts(url@) is Some && !of_a_file(url_parts(url@)->0) ==> replaces_its_mark(
            url@,
            fresh@,
            timestamp,
        ),
{
    match parse_url(url) {
        Some(parts) => {
            let pairs = reload_pairs(&parts.query, timestamp);
            match replace_query(url, &pairs) {
                Some(fresh) => {
                    proof {
                        let query = url_parts(url@)->0.query;
                        if reads_back(url_parts(url@)->0) {
                            assert forall|later: u128| #[trigger]
                                fresh_url(fresh@, later) == fresh_url(url@, later) by {
                                reloading_again_replaces_the_mark(query, timestamp, later);
                                assert(url_with_query(fresh@, reloaded(query, later))
                                    == url_with_query(url@, reloaded(query, later)));
                            }
                        }
                    }
                    return fresh;
                },
                None => {},
            }
        },
        None => {},
    }
    let mut fresh = url.to_string();
    if contains(url, "?") {
        fresh.append("&");
    } else {
        fresh.append("?");
    }
    fresh.append("_reload=");
    fresh.append(format_u128(timestamp).as_str());
    fresh
}

// ---------------------------------------------------------------------------
// Commands
// ---------------------------------------------------------------------------

/// A command for the player: its name and its arguments.
#[derive(Debug)]
pub struct CmdVal {
    pub name: String,
    pub args: Vec<String>,
}

#[verifier::ext_equal]
pub struct CmdView {
    pub name: Seq<char>,
    pub args: Seq<Seq<char>>,
}

impl View for CmdVal {
    type V = CmdView;

    open spec fn view(&self) -> CmdView {
        CmdView { name: self.name@, args: texts(self.args@) }
    }
}

/// Copies a list of texts.
pub fn copy_texts(list: &Vec<String>) -> (copy: Vec<String>)
    ensures
        texts(copy@) == texts(list@),
{
    let mut copy: Vec<String> = Vec::new();
    for i in 0..list.len()
        invariant
            copy.len() == i,
            forall|j: int| 0 <= j < i ==> (#[trigger] copy@[j])@ == list@[j]@,
    {
        copy.push(list[i].clone());
    }
    assert(texts(copy@) =~= texts(list@));
    copy
}

impl Clone for CmdVal {
    fn clone(&self) -> (copy: CmdVal)
        ensures
            copy@ == self@,
    {
        CmdVal { name: self.name.clone(), args: copy_texts(&self.args) }
    }
}

impl CmdView {
    /// The command stops playback.
    pub open spec fn is_stop(self) -> bool {
        self.name == "stop"@ && self.args.len() == 0
    }

    /// The command loads a file.
    pub open spec fn is_load(self) -> bool {
        self.name == "loadfile"@ && 1 <= self.args.len() <= 4
    }

    /// The options of a load command that has some.
    pub open spec fn options(self) -> Option<Seq<char>> {
        if self.is_load() && self.args.len() >= 3 {
            Some(self.args.last())
        } else {
            None
        }
    }
}

/// The command that loads a stream in place of the one that plays.
pub open spec fn replacing(url: Seq<char>) -> CmdView {
    CmdView { name: "loadfile"@, args: seq![url, "replace"@] }
}

pub fn replace_command(url: &str) -> (cmd: CmdVal)
    ensures
        cmd@ == replacing(url@),
{
    let mut args: Vec<String> = Vec::new();
    args.push(url.to_string());
    args.push("replace".to_string());
    assert(texts(args@) =~= seq![url@, "replace"@]);
    CmdVal { name: "loadfile".to_string(), args }
}

pub fn is_stop_command(cmd: &CmdVal) -> (yes: bool)
    ensures
        yes == cmd@.is_stop(),
{
    same_text(cmd.name.as_str(), "stop") && cmd.args.len() == 0
}

pub fn is_loadfile_command(cmd: &CmdVal) -> (yes: bool)
    ensures
        yes == cmd@.is_load(),
{
    same_text(cmd.name.as_str(), "loadfile") && cmd.args.len() >= 1 && cmd.args.len() <= 4
}

/// The address that a load command loads.
pub fn loadfile_url(cmd: &CmdVal) -> (url: Option<String>)
    ensures
        match url {
            Some(u) => cmd@.is_load() && u@ == cmd@.args[0],
            None => !cmd@.is_load(),
        },
{
    if is_loadfile_command(cmd) {
        Some(cmd.args[0].clone())
    } else {
        None
    }
}

/// A load command with a fresh address.
pub open spec fn fresh_load(cmd: CmdView, timestamp: u128) -> CmdView {
    if cmd.is_load() {
        CmdView { args: cmd.args.update(0, fresh_url(cmd.args[0], timestamp)), ..cmd }
    } else {
        cmd
    }
}

pub fn cache_busted_loadfile_cmd(cmd: CmdVal, timestamp: u128) -> (fresh: CmdVal)
    ensures
        fresh@ == fresh_load(cmd@, timestamp),
{
    if !is_loadfile_command(&cmd) {
        return cmd;
    }
    let ghost before = cmd@;
    let mut cmd = cmd;
    let url = cache_busted_url_at(cmd.args[0].as_str(), timestamp);
    let ghost u = url@;
    cmd.args.set(0, url);
    assert(texts(cmd.args@) =~= before.args.update(0, u));
    cmd
}

/// The option says where to start.
pub open spec fn sets_start(option: Seq<char>) -> bool {
    has_prefix(trimmed_start(option), "start="@)
}

/// The options that do not say where to start.
pub open spec fn not_starting(options: Seq<Seq<char>>) -> Seq<Seq<char>>
    decreases options.len(),
{
    if options.len() == 0 {
        Seq::empty()
    } else if sets_start(options.last()) {
        not_starting(options.drop_last())
    } else {
        not_starting(options.drop_last()).push(options.last())
    }
}

/// A list of options without those that say where to start.
pub open spec fn without_start(options: Seq<char>) -> Seq<char> {
    joined(not_starting(split_on(options, ',')), ","@)
}

pub fn drop_start_options(options: &str) -> (rest: String)
    ensures
        rest@ == without_start(options@),
{
    let pieces = split(options, ',');
    let mut kept: Vec<String> = Vec::new();
    assert(texts(kept@) =~= not_starting(texts(pieces@).take(0)));
    for i in 0..pieces.len()
        invariant
            texts(kept@) == not_starting(texts(pieces@).take(i as int)),
    {
        let ghost seen = texts(pieces@).take(i + 1);
        let ghost before = texts(kept@);
        assert(seen.drop_last() =~= texts(pieces@).take(i as int));
        if !starts_with(trim_start(pieces[i].as_str()).as_str(), "start=") {
            kept.push(pieces[i].clone());
            assert(texts(kept@) =~= before.push(pieces@[i as int]@));
        }
    }
    assert(texts(pieces@).take(pieces@.len() as int) =~= texts(pieces@));
    join(&kept, ",")
}

/// The text after `start=` of each option that has one, without signs: the
/// first of them that is a number is where to start.
pub open spec fn start_texts(options: Seq<Seq<char>>) -> Seq<Seq<char>>
    decreases options.len(),
{
    if options.len() == 0 {
        Seq::empty()
    } else {
        let before = start_texts(options.drop_last());
        match without_prefix(trimmed(options.last()), "start="@) {
            Some(value) => before.push(without_prefixes(value, "+"@)),
            None => before,
        }
    }
}

/// What a load command says of where to start.
pub fn start_candidates(cmd: &CmdVal) -> (candidates: Vec<String>)
    ensures
        texts(candidates@) == match cmd@.options() {
            Some(options) => start_texts(split_on(options, ',')),
            None => Seq::<Seq<char>>::empty(),
        },
{
    let mut candidates: Vec<String> = Vec::new();
    if !is_loadfile_command(cmd) || cmd.args.len() < 3 {
        assert(texts(candidates@) =~= Seq::<Seq<char>>::empty());
        return candidates;
    }
    let pieces = split(cmd.args[cmd.args.len() - 1].as_str(), ',');
    assert(texts(candidates@) =~= start_texts(texts(pieces@).take(0)));
    for i in 0..pieces.len()
        invariant
            texts(candidates@) == start_texts(texts(pieces@).take(i as int)),
    {
        let ghost seen = texts(pieces@).take(i + 1);
        let ghost before = texts(candidates@);
        assert(seen.drop_last() =~= texts(pieces@).take(i as int));
        match strip_prefix(trim(pieces[i].as_str()).as_str(), "start=") {
            Some(value) => {
                let number = strip_prefixes(value.as_str(), "+");
                let ghost n = number@;
                candidates.push(number);
                assert(texts(candidates@) =~= before.push(n));
            },
            None => {},
        }
    }
    assert(texts(pieces@).take(pieces@.len() as int) =~= texts(pieces@));
    candidates
}

/// Where a load command says to start, and how far that is from the position
/// of what plays.
#[derive(Debug, Clone, Copy)]
pub struct StartHint {
    pub start: Option<Real>,
    pub distance: Real,
}

/// The start of a load command is left over from what plays: the stream is a
/// new local one, and it would start within two seconds of a position past the
/// first half minute.
pub open spec fn is_stale_start(
    url: Seq<char>,
    hint: StartHint,
    previous_url: Seq<char>,
    previous_time: Real,
) -> bool {
    &&& hint.start is Some
    &&& previous_url.len() > 0
    &&& previous_url != url
    &&& !has_text(url, "_reload="@)
    &&& local_stream(url)
    &&& (Real { bits: THIRTY_BITS }).less(previous_time)
    &&& hint.distance.at_most(Real { bits: TWO_BITS })
}

/// A load command without a start that is left over. Where no options remain,
/// only the address and the flags do.
pub open spec fn sanitized(
    cmd: CmdView,
    hint: StartHint,
    previous_url: Seq<char>,
    previous_time: Real,
) -> CmdView {
    match cmd.options() {
        Some(options) => {
            let kept = if is_stale_start(cmd.args[0], hint, previous_url, previous_time) {
                without_start(options)
            } else {
                options
            };
            if kept.len() == 0 {
                CmdView { args: cmd.args.take(2), ..cmd }
            } else {
                CmdView { args: cmd.args.update(cmd.args.len() - 1, kept), ..cmd }
            }
        },
        None => cmd,
    }
}

/// Where a load command says to start once it is in order.
pub open spec fn sanitized_start(
    cmd: CmdView,
    hint: StartHint,
    previous_url: Seq<char>,
    previous_time: Real,
) -> Option<Real> {
    if cmd.options() is Some && !is_stale_start(cmd.args[0], hint, previous_url, previous_time) {
        hint.start
    } else {
        None
    }
}

/// Puts a load command in order.
pub fn sanitize_loadfile_start(
    cmd: CmdVal,
    hint: StartHint,
    previous_url: &str,
    previous_time: Real,
) -> (clean: (CmdVal, Option<Real>))
    ensures
        clean.0@ == sanitized(cmd@, hint, previous_url@, previous_time),
        clean.1 == sanitized_start(cmd@, hint, previous_url@, previous_time),
{
    if !is_loadfile_command(&cmd) || cmd.args.len() < 3 {
        return (cmd, None);
    }
    let ghost before = cmd@;
    let mut cmd = cmd;
    let last = cmd.args.len() - 1;
    let url = cmd.args[0].as_str();
    let stale = hint.start.is_some() && !previous_url.is_empty() && !same_text(previous_url, url)
        && !contains(url, "_reload=") && is_local_stream_url(url) && Real::from_bits(
        THIRTY_BITS,
    ).lt(&previous_time) && hint.distance.le(&Real::from_bits(TWO_BITS));
    let kept = if stale {
        drop_start_options(cmd.args[last].as_str())
    } else {
        cmd.args[last].clone()
    };
    let start = if stale {
        None
    } else {
        hint.start
    };
    if kept.as_str().is_empty() {
        cmd.args.truncate(2);
        assert(texts(cmd.args@) =~= before.args.take(2));
    } else {
        let ghost k = kept@;
        cmd.args.set(last, kept);
        assert(texts(cmd.args@) =~= before.args.update(last as int, k));
    }
    (cmd, start)
}

// ---------------------------------------------------------------------------
// Laws
// ---------------------------------------------------------------------------

/// A key belongs to the player exactly if one of the active bindings of the
/// user names it.
pub proof fn bound_keys_are_those_of_the_bindings(bindings: Seq<InputBinding>, key: Seq<char>)
    ensures
        keys_of(bindings).contains(key) <==> exists|i: int|
            0 <= i < bindings.len() && (#[trigger] bindings[i]).keys().contains(key),
    decreases bindings.len(),
{
    if bindings.len() > 0 {
        let before = bindings.drop_last();
        bound_keys_are_those_of_the_bindings(before, key);
        adding_keys_adds_them(keys_of(before), bindings.last().keys(), key);
        if keys_of(before).contains(key) {
            let i = choose|i: int|
                0 <= i < before.len() && (#[trigger] before[i]).keys().contains(key);
            assert(bindings[i].keys().contains(key));
        } else if bindings.last().keys().contains(key) {
            assert(bindings[bindings.len() - 1].keys().contains(key));
        } else {
            assert forall|i: int| 0 <= i < bindings.len() implies !(
            #[trigger] bindings[i]).keys().contains(key) by {
                if i < before.len() {
                    assert(before[i].keys() == bindings[i].keys());
                }
            }
        }
    }
}

proof fn adding_keys_adds_them(old_keys: Seq<Seq<char>>, keys: Seq<Seq<char>>, key: Seq<char>)
    ensures
        with_keys(old_keys, keys).contains(key) <==> old_keys.contains(key) || keys.contains(key),
    decreases keys.len(),
{
    if keys.len() > 0 {
        let before = with_keys(old_keys, keys.drop_last());
        adding_keys_adds_them(old_keys, keys.drop_last(), key);
        contains_pushed(before, keys.last(), key);
        contains_pushed(keys.drop_last(), keys.last(), key);
        assert(keys.drop_last().push(keys.last()) =~= keys);
    }
}

/// Render properties and playback controls can be set before a file is loaded;
/// only while a stop is under way do they wait.
pub proof fn global_properties_wait_for_stops_only(state: LoadState, name: Seq<char>)
    requires
        startup_property(name),
        !file_scoped(name),
    ensures
        must_wait(state, name) <==> state == LoadState::Stopping,
{
}

/// Joining the keys of a binding's sequence with dashes gives the binding.
pub proof fn binding_is_its_keys(key: Seq<char>, start: int)
    requires
        0 <= start <= key.len(),
    ensures
        key_parts(key, start).len() >= 1,
        joined(key_parts(key, start), seq!['-']) == key.skip(start),
    decreases key.len() - start,
{
    next_at_bounds(key, '-', start);
    let dash = next_at(key, '-', start);
    let parts = key_parts(key, start);
    if dash + 1 >= key.len() {
        assert(parts == seq![key.skip(start)]);
    } else {
        let end = if key[dash + 1] == '-' {
            dash + 1
        } else {
            dash
        };
        binding_is_its_keys(key, end + 1);
        let rest = key_parts(key, end + 1);
        joined_from_front(key.subrange(start, end), rest, seq!['-']);
        assert(key[end] == '-');
        assert(key.skip(start) =~= key.subrange(start, end) + seq!['-'] + key.skip(end + 1));
    }
}

proof fn next_at_bounds(s: Seq<char>, c: char, from: int)
    requires
        0 <= from <= s.len(),
    ensures
        from <= next_at(s, c, from) <= s.len(),
        next_at(s, c, from) < s.len() ==> s[next_at(s, c, from)] == c,
    decreases s.len() - from,
{
    if from < s.len() && s[from] != c {
        next_at_bounds(s, c, from + 1);
    }
}

/// A fresh address carries one mark, however often it was made fresh: the
/// query is the same as if it had been made fresh once.
pub proof fn reloading_again_replaces_the_mark(
    query: Seq<(Seq<char>, Seq<char>)>,
    first: u128,
    second: u128,
)
    ensures
        reloaded(reloaded(query, first), second) == reloaded(query, second),
{
    kept_pairs_stay(query);
    let kept = without_reload(query);
    let marked = kept.push(("_reload"@, decimal(first as nat)));
    assert(marked.drop_last() =~= kept);
}

proof fn kept_pairs_stay(query: Seq<(Seq<char>, Seq<char>)>)
    ensures
        without_reload(without_reload(query)) == without_reload(query),
    decreases query.len(),
{
    if query.len() > 0 {
        kept_pairs_stay(query.drop_last());
        if query.last().0 != "_reload"@ {
            let before = without_reload(query.drop_last());
            assert(before.push(query.last()).drop_last() =~= before);
        }
    }
}

/// The list of video outputs ends with a comma, which leaves the last choice
/// to the player, and names both GPU outputs or neither.
pub proof fn both_gpu_outputs_or_neither(outputs: Seq<Seq<char>>)
    ensures
        with_both_gpu_outputs(outputs).len() > 0,
        with_both_gpu_outputs(outputs).contains("gpu-next"@) == with_both_gpu_outputs(
            outputs,
        ).contains("gpu"@),
        with_both_gpu_outputs(with_both_gpu_outputs(outputs)) == with_both_gpu_outputs(outputs),
{
    let both = with_both_gpu_outputs(outputs);
    if outputs.len() == 0 {
        assert(both[0] == "gpu-next"@);
        assert(both[1] == "gpu"@);
    } else {
        contains_pushed(outputs, "gpu"@, "gpu-next"@);
        contains_pushed(outputs, "gpu"@, "gpu"@);
        contains_pushed(outputs, "gpu-next"@, "gpu-next"@);
        contains_pushed(outputs, "gpu-next"@, "gpu"@);
    }
}

proof fn filled_pieces(pieces: Seq<Seq<char>>, c: char)
    requires
        forall|i: int| 0 <= i < pieces.len() ==> !(#[trigger] pieces[i]).contains(c),
    ensures
        forall|i: int|
            0 <= i < filled(pieces).len() ==> !(#[trigger] filled(pieces)[i]).contains(c) && filled(
                pieces,
            )[i].len() > 0,
    decreases pieces.len(),
{
    if pieces.len() > 0 {
        let rest = pieces.drop_last();
        assert forall|i: int| 0 <= i < rest.len() implies !(#[trigger] rest[i]).contains(c) by {
            assert(rest[i] == pieces[i]);
        }
        filled_pieces(rest, c);
        assert(!pieces[pieces.len() - 1].contains(c));
        let kept = filled(pieces);
        assert forall|i: int| 0 <= i < kept.len() implies !(#[trigger] kept[i]).contains(c)
            && kept[i].len() > 0 by {
            if i < filled(rest).len() {
                assert(kept[i] == filled(rest)[i]);
            }
        }
    }
}

proof fn filled_already(pieces: Seq<Seq<char>>)
    requires
        forall|i: int| 0 <= i < pieces.len() ==> (#[trigger] pieces[i]).len() > 0,
    ensures
        filled(pieces) == pieces,
    decreases pieces.len(),
{
    if pieces.len() > 0 {
        let rest = pieces.drop_last();
        assert forall|i: int| 0 <= i < rest.len() implies (#[trigger] rest[i]).len() > 0 by {
            assert(rest[i] == pieces[i]);
        }
        filled_already(rest);
        assert(pieces[pieces.len() - 1].len() > 0);
        assert(rest.push(pieces.last()) =~= pieces);
    }
}

/// A list of video outputs with its fallback stays as it is when the fallback
/// is added again.
pub proof fn gpu_fallback_is_added_once(vo: Seq<char>)
    ensures
        gpu_outputs(gpu_outputs(vo)) == gpu_outputs(vo),
{
    reveal_strlit("gpu-next");
    reveal_strlit("gpu");
    reveal_strlit(",");
    pieces_hold_no_separator(vo, ',');
    filled_pieces(split_on(vo, ','), ',');
    let given = filled(split_on(vo, ','));
    let both = with_both_gpu_outputs(given);
    both_gpu_outputs_or_neither(given);
    assert(","@ =~= seq![',']);
    assert forall|i: int| 0 <= i < both.len() implies !(#[trigger] both[i]).contains(',')
        && both[i].len() > 0 by {
        if i < given.len() {
            assert(both[i] == given[i]);
        } else {
            assert(both[i] == "gpu-next"@ || both[i] == "gpu"@);
        }
    }
    joined_then_split(both, ',');
    let list = joined(both, ","@);
    assert((list + ","@).drop_last() =~= list);
    assert((list + ","@).last() == ',');
    let again = split_on(list + ","@, ',');
    assert(again == both.push(Seq::empty()));
    assert(again.drop_last() =~= both);
    filled_already(both);
    assert(filled(again) == both);
}

} // verus!
