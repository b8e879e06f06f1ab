//! The web interface's window: the keys that the player owns, the links that
//! leave it, and the messages for it.

use crate::encoding::{url_decode, url_decoded, url_encode, url_encoded};
use crate::json::{json_string, quote_json};
use crate::playback::text_in;
use crate::player_rules::BoundKeys;
use crate::text::{
    chars_of, contains, ends_with, has_suffix, has_text, join, joined, same_text, strip_prefix, texts,
    without_prefix,
};
use crate::urls::{parse_url, url_parts, UrlPartsView};
use vstd::prelude::*;

verus! {

pub const WEBVIEW_EXEC_SCRIPT_PREFIX: &'static str = "__stremio_shell_exec_script__:";

/// The script that hands keys to the player, up to the list of its keys.
pub const KEYDOWN_SCRIPT_HEAD: &'static str = r##";(function(){
    if (window.self !== window.top) return;
    window.__stremioShellMpvBoundKeys = new Set("##;

/// The script between the list and the flag.
pub const KEYDOWN_SCRIPT_MIDDLE: &'static str = r##");
    window.__stremioShellMpvHasSequences = "##;

/// The script after the flag.
pub const KEYDOWN_SCRIPT_TAIL: &'static str = r##";
    if (window.__stremioShellMpvKeysInstalled) return;
    window.__stremioShellMpvKeysInstalled = true;

    var KEY_MAP = {
        ' ':         'SPACE',
        'Enter':     'ENTER',
        'Tab':       'TAB',
        'Escape':    'ESC',
        'Backspace': 'BS',
        'Delete':    'DEL',
        'Insert':    'INS',
        'Home':      'HOME',
        'End':       'END',
        'PageUp':    'PGUP',
        'PageDown':  'PGDWN',
        'ArrowLeft': 'LEFT',
        'ArrowRight':'RIGHT',
        'ArrowUp':   'UP',
        'ArrowDown': 'DOWN',
        '#':         'SHARP'
    };

    var NUMPAD_MAP = {
        'Numpad0': 'KP0', 'Numpad1': 'KP1', 'Numpad2': 'KP2',
        'Numpad3': 'KP3', 'Numpad4': 'KP4', 'Numpad5': 'KP5',
        'Numpad6': 'KP6', 'Numpad7': 'KP7', 'Numpad8': 'KP8',
        'Numpad9': 'KP9', 'NumpadDecimal': 'KP_DEC',
        'NumpadEnter': 'KP_ENTER', 'NumpadAdd': 'KP_ADD',
        'NumpadSubtract': 'KP_SUBTRACT', 'NumpadMultiply': 'KP_MULTIPLY',
        'NumpadDivide': 'KP_DIVIDE'
    };

    function isPlayerRoute() {
        return (location.hash || '').indexOf('/player') !== -1;
    }

    function isTextInput(el) {
        if (!el) return false;
        var tag = el.tagName;
        if (tag === 'TEXTAREA') return true;
        if (tag === 'INPUT') {
            var t = (el.type || '').toLowerCase();
            return ['text','password','number','search','email','url','tel'].indexOf(t) !== -1;
        }
        return el.isContentEditable === true;
    }

    function eventToMpvKey(e) {
        var base = null;
        var isTextKey = false;

        if (e.location === 3 && NUMPAD_MAP[e.code]) {
            base = NUMPAD_MAP[e.code];
        } else {
            var characters = Array.from(e.key || '');
            isTextKey = characters.length === 1;
            if (isTextKey) {
                base = KEY_MAP[e.key] || e.key;
            } else if (KEY_MAP[e.key]) {
                base = KEY_MAP[e.key];
            } else if (/^F([1-9]|1[0-9]|2[0-4])$/.test(e.key)) {
                base = e.key;
            }
        }

        if (!base) return null;

        var altGraph = false;
        try { altGraph = e.getModifierState('AltGraph'); } catch (_) {}

        var result = '';
        // mpv removes Shift from produced text keys (A, @, Unicode characters), but retains it
        // for symbolic keys such as Shift+LEFT.
        if (!isTextKey && e.shiftKey) result += 'Shift+';
        if (e.ctrlKey && !altGraph) result += 'Ctrl+';
        if (e.altKey && !altGraph) result += 'Alt+';
        if (e.metaKey) result += 'Meta+';
        return result + base;
    }

    document.addEventListener('keydown', function(e) {
        if (!isPlayerRoute()) return;
        if (isTextInput(e.target)) return;

        var mpvKey = eventToMpvKey(e);
        if (!mpvKey) return;

        var boundKeys = window.__stremioShellMpvBoundKeys || new Set();
        var isBound = boundKeys.has(mpvKey);
        if (!isBound && !window.__stremioShellMpvHasSequences) return;

        try {
            window.chrome.webview.postMessage(JSON.stringify({
                id: 1,
                args: ['mpv-command', ['keypress', mpvKey]]
            }));
        } catch(_) {}

        if (isBound) {
            e.preventDefault();
            e.stopPropagation();
        }
    }, true);
})();"##;


// ---------------------------------------------------------------------------
// The order of texts
// ---------------------------------------------------------------------------

/// The first text comes before the second, by their characters.
pub open spec fn comes_before(a: Seq<char>, b: Seq<char>) -> bool
    decreases a.len(),
{
    if b.len() == 0 {
        false
    } else if a.len() == 0 {
        true
    } else if a[0] != b[0] {
        (a[0] as int) < (b[0] as int)
    } else {
        comes_before(a.drop_first(), b.drop_first())
    }
}

fn is_before(a: &str, b: &str) -> (before: bool)
    ensures
        before == comes_before(a@, b@),
{
    let x = chars_of(a);
    let y = chars_of(b);
    let mut i: usize = 0;
    assert(a@.skip(0) =~= a@);
    assert(b@.skip(0) =~= b@);
    while i < x.len() && i < y.len()
        invariant
            x@ == a@,
            y@ == b@,
            i <= x.len(),
            i <= y.len(),
            comes_before(a@, b@) == comes_before(a@.skip(i as int), b@.skip(i as int)),
        decreases x.len() - i,
    {
        let p: char = x[i];
        let q: char = y[i];
        if p != q {
            return p < q;
        }
        assert(a@.skip(i as int).drop_first() =~= a@.skip(i + 1));
        assert(b@.skip(i as int).drop_first() =~= b@.skip(i + 1));
        i = i + 1;
    }
    i < y.len()
}

/// How many of the first texts do not come after the given one.
pub open spec fn not_after(list: Seq<Seq<char>>, one: Seq<char>) -> int
    decreases list.len(),
{
    if list.len() == 0 || !comes_before(one, list.last()) {
        list.len() as int
    } else {
        not_after(list.drop_last(), one)
    }
}

/// The texts in order.
pub open spec fn in_order(list: Seq<Seq<char>>) -> Seq<Seq<char>>
    decreases list.len(),
{
    if list.len() == 0 {
        Seq::empty()
    } else {
        let before = in_order(list.drop_last());
        before.insert(not_after(before, list.last()), list.last())
    }
}

fn insert_text(list: &mut Vec<String>, one: String)
    ensures
        texts(final(list)@) == texts(old(list)@).insert(
            not_after(texts(old(list)@), one@),
            one@,
        ),
{
    let ghost all = texts(list@);
    let ghost o = one@;
    let mut i: usize = list.len();
    assert(all.take(all.len() as int) =~= all);
    while i > 0 && is_before(one.as_str(), list[i - 1].as_str())
        invariant
            texts(list@) == all,
            i <= list@.len(),
            o == one@,
            not_after(all.take(i as int), o) == not_after(all, o),
        ensures
            i == 0 || !comes_before(o, all[i - 1]),
        decreases i,
    {
        assert(all[i - 1] == list@[i - 1]@);
        assert(all.take(i as int).drop_last() =~= all.take(i - 1));
        i = i - 1;
    }
    list.insert(i, one);
    assert(texts(list@) =~= all.insert(i as int, o));
}

fn sort_texts(list: &Vec<String>) -> (sorted: Vec<String>)
    ensures
        texts(sorted@) == in_order(texts(list@)),
{
    let mut sorted: Vec<String> = Vec::new();
    let ghost all = texts(list@);
    assert(texts(sorted@) =~= in_order(all.take(0)));
    for i in 0..list.len()
        invariant
            all == texts(list@),
            texts(sorted@) == in_order(all.take(i as int)),
    {
        assert(all.take(i + 1).drop_last() =~= all.take(i as int));
        assert(all.take(i + 1).last() == list@[i as int]@);
        insert_text(&mut sorted, list[i].clone());
    }
    assert(all.take(all.len() as int) =~= all);
    sorted
}

// ---------------------------------------------------------------------------
// Keys
// ---------------------------------------------------------------------------

/// The JSON notation of each text.
pub open spec fn quoted(list: Seq<Seq<char>>) -> Seq<Seq<char>> {
    list.map_values(|s: Seq<char>| json_string(s))
}

/// The JSON notation of a list of texts.
pub open spec fn json_list(list: Seq<Seq<char>>) -> Seq<char> {
    "["@ + joined(quoted(list), ","@) + "]"@
}

fn json_list_of(list: &Vec<String>) -> (json: String)
    ensures
        json@ == json_list(texts(list@)),
{
    let mut pieces: Vec<String> = Vec::new();
    for i in 0..list.len()
        invariant
            pieces.len() == i,
            forall|j: int| 0 <= j < i ==> (#[trigger] pieces@[j])@ == json_string(list@[j]@),
    {
        pieces.push(quote_json(list[i].as_str()));
    }
    assert(texts(pieces@) =~= quoted(texts(list@)));
    let mut json = "[".to_string();
    json.append(join(&pieces, ",").as_str());
    json.append("]");
    json
}

/// The script that hands keys to the player: with the player's keys, in order,
/// and whether some of its bindings are sequences.
pub fn build_mpv_keydown_script(bound: &BoundKeys) -> (script: String)
    ensures
        script@ == KEYDOWN_SCRIPT_HEAD@ + json_list(in_order(texts(bound.keys@)))
            + KEYDOWN_SCRIPT_MIDDLE@ + (if bound.has_sequences {
            "true"@
        } else {
            "false"@
        }) + KEYDOWN_SCRIPT_TAIL@,
{
    let sorted = sort_texts(&bound.keys);
    let mut script = KEYDOWN_SCRIPT_HEAD.to_string();
    script.append(json_list_of(&sorted).as_str());
    script.append(KEYDOWN_SCRIPT_MIDDLE);
    if bound.has_sequences {
        script.append("true");
    } else {
        script.append("false");
    }
    script.append(KEYDOWN_SCRIPT_TAIL);
    script
}

/// The player owns the key.
pub fn is_key_bound(bound: &BoundKeys, key: &str) -> (yes: bool)
    ensures
        yes == texts(bound.keys@).contains(key@),
{
    for i in 0..bound.keys.len()
        invariant
            forall|j: int| 0 <= j < i ==> (#[trigger] bound.keys@[j])@ != key@,
    {
        if same_text(bound.keys[i].as_str(), key) {
            assert(texts(bound.keys@)[i as int] == key@);
            return true;
        }
    }
    false
}

/// The number of the key F7.
pub const KEY_F7: u32 = 0x76;

/// The number of the key F.
pub const KEY_F: u32 = 0x46;

/// The number of the key G.
pub const KEY_G: u32 = 0x47;

/// The keys that are held down beside another.
#[derive(Debug, Clone, Copy, PartialEq, Eq, Structural)]
pub struct Modifiers {
    pub shift: bool,
    pub ctrl: bool,
    pub alt: bool,
    pub meta: bool,
}

/// The player's name for a key that the browser keeps for itself. For a letter,
/// Shift shows in the letter; for F7 it is named.
pub open spec fn reserved_key(virtual_key: u32, held: Modifiers) -> Option<Seq<char>> {
    let base = if virtual_key == KEY_F7 {
        Some("F7"@)
    } else if virtual_key == KEY_F {
        Some(
            if held.shift {
                "F"@
            } else {
                "f"@
            },
        )
    } else if virtual_key == KEY_G {
        Some(
            if held.shift {
                "G"@
            } else {
                "g"@
            },
        )
    } else {
        None
    };
    let none = Seq::<char>::empty();
    match base {
        Some(b) => Some(
            (if virtual_key == KEY_F7 && held.shift {
                "Shift+"@
            } else {
                none
            }) + (if held.ctrl {
                "Ctrl+"@
            } else {
                none
            }) + (if held.alt {
                "Alt+"@
            } else {
                none
            }) + (if held.meta {
                "Meta+"@
            } else {
                none
            }) + b,
        ),
        None => None,
    }
}

pub fn browser_reserved_mpv_key_with_modifiers(
    virtual_key: u32,
    shift: bool,
    ctrl: bool,
    alt: bool,
    meta: bool,
) -> (key: Option<String>)
    ensures
        text_in(key) == reserved_key(virtual_key, Modifiers { shift, ctrl, alt, meta }),
{
    let held = Modifiers { shift, ctrl, alt, meta };
    let symbolic = virtual_key == KEY_F7;
    let base = if symbolic {
        "F7"
    } else if virtual_key == KEY_F {
        if held.shift {
            "F"
        } else {
            "f"
        }
    } else if virtual_key == KEY_G {
        if held.shift {
            "G"
        } else {
            "g"
        }
    } else {
        return None;
    };
    let mut key = String::new();
    if symbolic && held.shift {
        key.append("Shift+");
    }
    if held.ctrl {
        key.append("Ctrl+");
    }
    if held.alt {
        key.append("Alt+");
    }
    if held.meta {
        key.append("Meta+");
    }
    key.append(base);
    assert(text_in(Some(key))->0 =~= reserved_key(virtual_key, held)->0);
    Some(key)
}

/// What is done with a key of the browser's.
#[derive(Debug)]
pub enum AcceleratorStep {
    /// The page gets the key.
    PassOn,
    /// Nobody gets the key.
    Swallow,
    /// The player gets the key, and nobody else.
    Player(String),
}

#[verifier::ext_equal]
pub enum AcceleratorView {
    PassOn,
    Swallow,
    Player(Seq<char>),
}

impl View for AcceleratorStep {
    type V = AcceleratorView;

    open spec fn view(&self) -> AcceleratorView {
        match *self {
            AcceleratorStep::PassOn => AcceleratorView::PassOn,
            AcceleratorStep::Swallow => AcceleratorView::Swallow,
            AcceleratorStep::Player(key) => AcceleratorView::Player(key@),
        }
    }
}

/// The browser keeps the key for itself.
pub open spec fn is_reserved(virtual_key: u32, ctrl: bool) -> bool {
    virtual_key == KEY_F7 || (ctrl && (virtual_key == KEY_F || virtual_key == KEY_G))
}

/// What is done with a key of the browser's: those that it would keep for
/// itself are taken from it, and go to the player where the player owns them
/// and its page is shown.
pub open spec fn accelerator_step(
    virtual_key: u32,
    held: Modifiers,
    key_down: bool,
    url: Seq<char>,
    keys: Seq<Seq<char>>,
) -> AcceleratorView {
    if !is_reserved(virtual_key, held.ctrl) {
        AcceleratorView::PassOn
    } else if key_down && has_text(url, "/player/"@) && keys.contains(
        reserved_key(virtual_key, held)->0,
    ) {
        AcceleratorView::Player(reserved_key(virtual_key, held)->0)
    } else {
        AcceleratorView::Swallow
    }
}

pub fn accelerator_pressed(
    virtual_key: u32,
    held: Modifiers,
    key_down: bool,
    url: &str,
    bound: &BoundKeys,
) -> (step: AcceleratorStep)
    ensures
        step@ == accelerator_step(virtual_key, held, key_down, url@, texts(bound.keys@)),
{
    let reserved = virtual_key == KEY_F7 || (held.ctrl && (virtual_key == KEY_F || virtual_key
        == KEY_G));
    if !reserved {
        return AcceleratorStep::PassOn;
    }
    if key_down && contains(url, "/player/") {
        match browser_reserved_mpv_key_with_modifiers(
            virtual_key,
            held.shift,
            held.ctrl,
            held.alt,
            held.meta,
        ) {
            Some(key) => {
                if is_key_bound(bound, key.as_str()) {
                    return AcceleratorStep::Player(key);
                }
            },
            None => {},
        }
    }
    AcceleratorStep::Swallow
}

/// The message that hands a key to the player.
pub fn mpv_keypress_message(key: &str) -> (message: String)
    ensures
        message@ == "[\"mpv-command\",[\"keypress\","@ + json_string(key@) + "]]"@,
{
    let mut message = "[\"mpv-command\",[\"keypress\",".to_string();
    message.append(quote_json(key).as_str());
    message.append("]]");
    message
}

/// The number of a command in the message of a media key.
pub open spec fn command_number(l: u64) -> u64 {
    ((l / 65536) % 4096) as u64
}

/// The command for the player that a media key's message stands for.
pub open spec fn key_message(l: u64) -> Option<Seq<char>> {
    if command_number(l) == 14 || command_number(l) == 46 || command_number(l) == 47 {
        Some("[\"mpv-command\", [\"cycle\", \"pause\"]]"@)
    } else if command_number(l) == 11 {
        Some("[\"mpv-command\", [\"seek\", \"10\", \"relative\"]]"@)
    } else if command_number(l) == 12 {
        Some("[\"mpv-command\", [\"seek\", \"-10\", \"relative\"]]"@)
    } else {
        None
    }
}

/// The command for the player that a media key's message stands for.
pub fn app_command(l: u64) -> (command: Option<String>)
    ensures
        text_in(command) == if command_number(l) == 14 || command_number(l) == 46
            || command_number(l) == 47 {
            Some("[\"mpv-command\", [\"cycle\", \"pause\"]]"@)
        } else if command_number(l) == 11 {
            Some("[\"mpv-command\", [\"seek\", \"10\", \"relative\"]]"@)
        } else if command_number(l) == 12 {
            Some("[\"mpv-command\", [\"seek\", \"-10\", \"relative\"]]"@)
        } else {
            None
        },
        text_in(command) == key_message(l),
{
    let number = (l / 65536) % 4096;
    if number == 14 || number == 46 || number == 47 {
        Some("[\"mpv-command\", [\"cycle\", \"pause\"]]".to_string())
    } else if number == 11 {
        Some("[\"mpv-command\", [\"seek\", \"10\", \"relative\"]]".to_string())
    } else if number == 12 {
        Some("[\"mpv-command\", [\"seek\", \"-10\", \"relative\"]]".to_string())
    } else {
        None
    }
}

// ---------------------------------------------------------------------------
// Links
// ---------------------------------------------------------------------------

/// The host is one that is trusted, or below one.
pub open spec fn trusted_host(host: Seq<char>, trusted: Seq<Seq<char>>) -> bool {
    exists|i: int| 0 <= i < trusted.len() && has_suffix(host, #[trigger] trusted[i])
}

/// Where a link that leaves the web interface leads: to itself where its host
/// is trusted, and else to a page that warns of it.
pub open spec fn outside_link(
    parts: UrlPartsView,
    trusted: Seq<Seq<char>>,
    warning_url: Seq<char>,
) -> Seq<char> {
    if parts.host is Some && trusted_host(parts.host->0, trusted) {
        parts.text
    } else {
        warning_url + url_encoded(parts.text)
    }
}

fn is_trusted_host(host: &str, trusted: &Vec<String>) -> (yes: bool)
    ensures
        yes == trusted_host(host@, texts(trusted@)),
{
    for i in 0..trusted.len()
        invariant
            forall|j: int| 0 <= j < i ==> !has_suffix(host@, (#[trigger] trusted@[j])@),
    {
        if ends_with(host, trusted[i].as_str()) {
            assert(has_suffix(host@, texts(trusted@)[i as int]));
            return true;
        }
    }
    assert forall|j: int| 0 <= j < texts(trusted@).len() implies !has_suffix(
        host@,
        #[trigger] texts(trusted@)[j],
    ) by {
        assert(texts(trusted@)[j] == trusted@[j]@);
    }
    false
}

/// Where a link with the given parts leads.
pub fn link_for(text: &str, host: &Option<String>, trusted: &Vec<String>, warning_url: &str) -> (link: String)
    ensures
        link@ == if text_in(*host) is Some && trusted_host(
            text_in(*host)->0,
            texts(trusted@),
        ) {
            text@
        } else {
            warning_url@ + url_encoded(text@)
        },
{
    let known = match host {
        Some(h) => is_trusted_host(h.as_str(), trusted),
        None => false,
    };
    if known {
        text.to_string()
    } else {
        let mut link = warning_url.to_string();
        link.append(url_encode(text).as_str());
        link
    }
}

/// Where a link that leaves the web interface leads, where it is a URL.
pub fn new_window_link(uri: &str, trusted: &Vec<String>, warning_url: &str) -> (link: Option<String>)
    ensures
        text_in(link) == match url_parts(uri@) {
            Some(parts) => Some(outside_link(parts, texts(trusted@), warning_url@)),
            None => None,
        },
{
    match parse_url(uri) {
        Some(parts) => Some(link_for(parts.text.as_str(), &parts.host, trusted, warning_url)),
        None => None,
    }
}

/// The file that was dropped on the page, as the address of a new window names
/// it.
pub fn dropped_file(uri: &str) -> (file: Option<String>)
    ensures
        text_in(file) == url_decoded(uri@),
{
    url_decode(uri)
}

// ---------------------------------------------------------------------------
// Messages
// ---------------------------------------------------------------------------

/// A message for the web interface.
#[derive(Debug)]
pub enum WebMessage {
    /// A script to run.
    Script(String),
    /// A message to hand on.
    Post(String),
}

/// What a queued message is.
pub fn sort_message(message: String) -> (sorted: WebMessage)
    ensures
        match sorted {
            WebMessage::Script(script) => without_prefix(message@, WEBVIEW_EXEC_SCRIPT_PREFIX@)
                == Some(script@),
            WebMessage::Post(m) => m@ == message@ && without_prefix(
                message@,
                WEBVIEW_EXEC_SCRIPT_PREFIX@,
            ) is None,
        },
{
    match strip_prefix(message.as_str(), WEBVIEW_EXEC_SCRIPT_PREFIX) {
        Some(script) => WebMessage::Script(script),
        None => WebMessage::Post(message),
    }
}

/// The message that has a script run.
pub fn script_message(script: &str) -> (message: String)
    ensures
        message@ == WEBVIEW_EXEC_SCRIPT_PREFIX@ + script@,
        without_prefix(message@, WEBVIEW_EXEC_SCRIPT_PREFIX@) == Some(script@),
{
    let mut message = WEBVIEW_EXEC_SCRIPT_PREFIX.to_string();
    message.append(script);
    proof {
        let n = WEBVIEW_EXEC_SCRIPT_PREFIX@.len() as int;
        assert(message@.subrange(0, n) =~= WEBVIEW_EXEC_SCRIPT_PREFIX@);
        assert(message@.skip(n) =~= script@);
    }
    message
}

// ---------------------------------------------------------------------------
// Laws
// ---------------------------------------------------------------------------

/// Putting texts in order neither adds nor loses one.
pub proof fn ordering_keeps_texts(list: Seq<Seq<char>>)
    ensures
        in_order(list).to_multiset() == list.to_multiset(),
        in_order(list).len() == list.len(),
    decreases list.len(),
{
    if list.len() == 0 {
        assert(in_order(list) =~= list);
    } else {
        let rest = list.drop_last();
        let one = list.last();
        ordering_keeps_texts(rest);
        let before = in_order(rest);
        not_after_bounds(before, one);
        let at = not_after(before, one);
        let after = before.insert(at, one);
        broadcast use vstd::seq_lib::group_to_multiset_ensures;

        assert(list =~= rest.push(one));
        assert(after =~= before.take(at) + seq![one] + before.skip(at));
        assert(before =~= before.take(at) + before.skip(at));
        vstd::seq_lib::lemma_multiset_commutative(before.take(at), before.skip(at));
        vstd::seq_lib::lemma_multiset_commutative(before.take(at) + seq![one], before.skip(at));
        assert(before.take(at) + seq![one] =~= before.take(at).push(one));
        assert(after.to_multiset() =~= before.to_multiset().insert(one));
    }
}

proof fn not_after_bounds(list: Seq<Seq<char>>, one: Seq<char>)
    ensures
        0 <= not_after(list, one) <= list.len(),
    decreases list.len(),
{
    if list.len() > 0 && comes_before(one, list.last()) {
        not_after_bounds(list.drop_last(), one);
    }
}

/// The web interface never opens a page of a host that is not trusted: such a
/// link leads to the page that warns of it.
pub proof fn strange_links_are_warned_of(
    parts: UrlPartsView,
    trusted: Seq<Seq<char>>,
    warning_url: Seq<char>,
)
    requires
        parts.host matches Some(host) ==> !trusted_host(host, trusted),
    ensures
        outside_link(parts, trusted, warning_url) == warning_url + url_encoded(parts.text),
{
}

/// The browser's own shortcuts never reach it, and only keys that the player
/// owns reach the player.
pub proof fn shortcuts_stay_with_the_player(
    virtual_key: u32,
    held: Modifiers,
    key_down: bool,
    url: Seq<char>,
    keys: Seq<Seq<char>>,
)
    ensures
        is_reserved(virtual_key, held.ctrl) ==> accelerator_step(
            virtual_key,
            held,
            key_down,
            url,
            keys,
        ) != AcceleratorView::PassOn,
        accelerator_step(virtual_key, held, key_down, url, keys) matches AcceleratorView::Player(
            key,
        ) ==> keys.contains(key) && reserved_key(virtual_key, held) == Some(key),
{
}

proof fn order_of_equals(a: Seq<char>, b: Seq<char>)
    requires
        !comes_before(a, b),
        !comes_before(b, a),
    ensures
        a == b,
    decreases a.len(),
{
    if a.len() == 0 || b.len() == 0 {
        assert(a =~= b);
    } else if a[0] == b[0] {
        order_of_equals(a.drop_first(), b.drop_first());
        assert(a =~= seq![a[0]] + a.drop_first());
        assert(b =~= seq![b[0]] + b.drop_first());
    } else {
        assert(a[0] as int != b[0] as int);
    }
}

/// The order of texts is a total one: of two different texts exactly one comes
/// first, and what comes before a text comes before what follows it.
pub proof fn texts_are_ordered(a: Seq<char>, b: Seq<char>, c: Seq<char>)
    ensures
        !(comes_before(a, b) && comes_before(b, a)),
        a != b ==> comes_before(a, b) || comes_before(b, a),
        comes_before(a, b) && comes_before(b, c) ==> comes_before(a, c),
    decreases a.len(),
{
    if a.len() > 0 && b.len() > 0 {
        if c.len() > 0 {
            texts_are_ordered(a.drop_first(), b.drop_first(), c.drop_first());
        } else {
            texts_are_ordered(a.drop_first(), b.drop_first(), c);
        }
    }
    if !comes_before(a, b) && !comes_before(b, a) {
        order_of_equals(a, b);
    }
}

proof fn inserting_keeps_order(list: Seq<Seq<char>>, one: Seq<char>)
    requires
        forall|i: int, j: int|
            0 <= i < j < list.len() ==> !comes_before(#[trigger] list[j], #[trigger] list[i]),
    ensures
        0 <= not_after(list, one) <= list.len(),
        forall|i: int|
            0 <= i < not_after(list, one) ==> !comes_before(one, #[trigger] list[i]),
        forall|i: int|
            not_after(list, one) <= i < list.len() ==> !comes_before(#[trigger] list[i], one),
    decreases list.len(),
{
    if list.len() > 0 {
        let rest = list.drop_last();
        if comes_before(one, list.last()) {
            assert forall|i: int, j: int| 0 <= i < j < rest.len() implies !comes_before(
                #[trigger] rest[j],
                #[trigger] rest[i],
            ) by {
                assert(rest[j] == list[j] && rest[i] == list[i]);
            }
            inserting_keeps_order(rest, one);
            let n = not_after(list, one);
            assert forall|i: int| 0 <= i < n implies !comes_before(one, #[trigger] list[i]) by {
                assert(list[i] == rest[i]);
            }
            assert forall|i: int| n <= i < list.len() implies !comes_before(
                #[trigger] list[i],
                one,
            ) by {
                if i < rest.len() {
                    assert(list[i] == rest[i]);
                } else {
                    texts_are_ordered(one, list[i], one);
                }
            }
        } else {
            assert forall|i: int| 0 <= i < list.len() implies !comes_before(
                one,
                #[trigger] list[i],
            ) by {
                if comes_before(one, list[i]) && i < list.len() - 1 {
                    let last = list.last();
                    assert(!comes_before(list[list.len() - 1], list[i]));
                    texts_are_ordered(one, list[i], last);
                    texts_are_ordered(list[i], last, one);
                }
            }
        }
    }
}

/// The texts are in order once they were put in order.
pub proof fn ordering_orders_texts(list: Seq<Seq<char>>)
    ensures
        forall|i: int, j: int|
            0 <= i < j < in_order(list).len() ==> !comes_before(
                #[trigger] in_order(list)[j],
                #[trigger] in_order(list)[i],
            ),
    decreases list.len(),
{
    if list.len() > 0 {
        let before = in_order(list.drop_last());
        let one = list.last();
        ordering_orders_texts(list.drop_last());
        inserting_keeps_order(before, one);
        let at = not_after(before, one);
        let after = before.insert(at, one);
        assert forall|i: int, j: int| 0 <= i < j < after.len() implies !comes_before(
            #[trigger] after[j],
            #[trigger] after[i],
        ) by {
            let x = if i < at {
                i
            } else {
                i - 1
            };
            let y = if j < at {
                j
            } else {
                j - 1
            };
            assert(i != at ==> after[i] == before[x]);
            assert(j != at ==> after[j] == before[y]);
        }
    }
}

} // verus!
