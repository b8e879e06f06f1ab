//! What the operations on texts and numbers are for, as laws.

use crate::encoding::{percent_decoded, percent_encoded};
use crate::json::{hex_digit, json_escape, json_escapes, json_string, JsonView};
use crate::media_id::{is_imdb_id, media_text, MediaView};
use crate::number::{
    decimal, decimal_denotes, integer_of, natural_of, natural_up_to, real_zero, signed_decimal,
    Real,
};
use crate::server::{last_lines, lines_of};
use crate::text::{
    after_first, ascii_lowered, first_at, has_prefix, has_text, is_space, occurs_at, split_on,
    trimmed, trimmed_end, trimmed_start, up_to, without_prefix, without_prefixes, without_trailing,
};
use vstd::prelude::*;

verus! {

/// Every character is white space.
pub open spec fn blank(s: Seq<char>) -> bool {
    forall|i: int| 0 <= i < s.len() ==> is_space(#[trigger] s[i])
}

// ---------------------------------------------------------------------------
// White space
// ---------------------------------------------------------------------------

/// Blanks, line ends and tabs are white space; letters, digits and the signs of
/// ASCII are not.
pub proof fn white_space_is_known(c: char)
    ensures
        is_space(' '),
        is_space('\n'),
        is_space('\r'),
        is_space('\t'),
        is_space('\u{a0}'),
        '!' <= c <= '~' ==> !is_space(c),
{
}

proof fn start_falls_off(s: Seq<char>)
    ensures
        ({
            let t = trimmed_start(s);
            let n = s.len() - t.len();
            &&& t.len() <= s.len()
            &&& t == s.skip(n)
            &&& blank(s.take(n))
            &&& t.len() > 0 ==> !is_space(t[0])
        }),
    decreases s.len(),
{
    if s.len() > 0 && is_space(s[0]) {
        let rest = s.drop_first();
        start_falls_off(rest);
        let t = trimmed_start(s);
        let n = s.len() - t.len();
        assert(t =~= s.skip(n));
        assert forall|i: int| 0 <= i < n implies is_space(#[trigger] s.take(n)[i]) by {
            if i > 0 {
                assert(rest.take(n - 1)[i - 1] == s[i]);
            }
        }
    } else {
        assert(s.skip(0) =~= s);
    }
}

proof fn end_falls_off(s: Seq<char>)
    ensures
        ({
            let t = trimmed_end(s);
            &&& t.len() <= s.len()
            &&& t == s.take(t.len() as int)
            &&& blank(s.skip(t.len() as int))
            &&& t.len() > 0 ==> !is_space(t.last())
        }),
    decreases s.len(),
{
    if s.len() > 0 && is_space(s.last()) {
        let rest = s.drop_last();
        end_falls_off(rest);
        let t = trimmed_end(s);
        let n = t.len() as int;
        assert(t =~= s.take(n));
        assert forall|i: int| 0 <= i < s.len() - n implies is_space(#[trigger] s.skip(n)[i]) by {
            if i < s.len() - n - 1 {
                assert(rest.skip(n)[i] == s[n + i]);
            }
        }
    } else {
        assert(s.take(s.len() as int) =~= s);
    }
}

/// Trimming takes white space from both ends and nothing else: what is left
/// begins and ends with a character, and what is gone is blank.
pub proof fn trimming_takes_white_space(s: Seq<char>)
    ensures
        ({
            let t = trimmed(s);
            let start = trimmed_start(s);
            let n = s.len() - start.len();
            &&& n >= 0
            &&& t.len() <= start.len()
            &&& t == s.subrange(n as int, n + t.len())
            &&& blank(s.take(n as int))
            &&& blank(s.skip(n + t.len()))
            &&& t.len() > 0 ==> !is_space(t[0]) && !is_space(t.last())
        }),
        blank(s) ==> trimmed(s).len() == 0,
        s.len() > 0 && !is_space(s[0]) && !is_space(s.last()) ==> trimmed(s) == s,
{
    start_falls_off(s);
    let start = trimmed_start(s);
    end_falls_off(start);
    let t = trimmed(s);
    let n = s.len() - start.len();
    assert(t =~= s.subrange(n as int, n + t.len()));
    assert(start.skip(t.len() as int) =~= s.skip(n + t.len()));
    if t.len() > 0 {
        assert(t[0] == start[0]);
        assert(t[0] == s[n]);
    }
}

// ---------------------------------------------------------------------------
// Parts
// ---------------------------------------------------------------------------

proof fn first_is_found(s: Seq<char>, pattern: Seq<char>, i: int) -> (first: int)
    requires
        occurs_at(s, pattern, i),
    ensures
        first_at(s, pattern, first),
    decreases i,
{
    if exists|j: int| 0 <= j < i && occurs_at(s, pattern, j) {
        let j = choose|j: int| 0 <= j < i && occurs_at(s, pattern, j);
        first_is_found(s, pattern, j)
    } else {
        i
    }
}

/// A text that holds a separator is what stands before the first one, the
/// separator, and what follows; one that holds none is left whole.
pub proof fn separators_part_texts(s: Seq<char>, pattern: Seq<char>)
    ensures
        has_text(s, pattern) ==> after_first(s, pattern) is Some && s == up_to(s, pattern) + pattern
            + after_first(s, pattern)->0,
        has_text(s, pattern) ==> forall|j: int|
            0 <= j < up_to(s, pattern).len() ==> !occurs_at(s, pattern, j),
        !has_text(s, pattern) ==> up_to(s, pattern) == s && after_first(s, pattern) is None,
{
    if has_text(s, pattern) {
        let found = choose|i: int| occurs_at(s, pattern, i);
        let first = first_is_found(s, pattern, found);
        let i = choose|i: int| first_at(s, pattern, i);
        assert(first_at(s, pattern, i));
        assert(s =~= s.take(i) + pattern + s.skip(i + pattern.len())) by {
            assert(s.subrange(i, i + pattern.len()) == pattern);
            assert forall|k: int| 0 <= k < s.len() implies s[k] == (s.take(i) + pattern + s.skip(
                i + pattern.len(),
            ))[k] by {
                if i <= k < i + pattern.len() {
                    assert(s.subrange(i, i + pattern.len())[k - i] == s[k]);
                }
            }
        }
    }
}

/// A text that begins with a pattern is that pattern and the rest.
pub proof fn prefixes_come_off(pattern: Seq<char>, rest: Seq<char>, s: Seq<char>)
    ensures
        without_prefix(pattern + rest, pattern) == Some(rest),
        without_prefix(s, pattern) matches Some(r) ==> s == pattern + r,
        without_prefix(s, pattern) is None ==> !(pattern.len() <= s.len() && s.take(
            pattern.len() as int,
        ) == pattern),
{
    assert((pattern + rest).subrange(0, pattern.len() as int) =~= pattern);
    assert((pattern + rest).skip(pattern.len() as int) =~= rest);
    if pattern.len() <= s.len() {
        assert(s.subrange(0, pattern.len() as int) =~= s.take(pattern.len() as int));
        if without_prefix(s, pattern) is Some {
            assert(s =~= s.take(pattern.len() as int) + s.skip(pattern.len() as int));
        }
    }
}

/// Repeated prefixes come off to the last, and nothing else does.
pub proof fn repeated_prefixes_come_off(s: Seq<char>, pattern: Seq<char>)
    requires
        pattern.len() > 0,
    ensures
        !has_prefix(without_prefixes(s, pattern), pattern),
        without_prefixes(pattern + s, pattern) == without_prefixes(s, pattern),
        !has_prefix(s, pattern) ==> without_prefixes(s, pattern) == s,
    decreases s.len(),
{
    assert((pattern + s).subrange(0, pattern.len() as int) =~= pattern);
    assert((pattern + s).skip(pattern.len() as int) =~= s);
    if has_prefix(s, pattern) {
        repeated_prefixes_come_off(s.skip(pattern.len() as int), pattern);
    }
}

/// A character at the end comes off as often as it stands there, and nothing
/// else does.
pub proof fn trailing_characters_come_off(s: Seq<char>, c: char)
    ensures
        ({
            let t = without_trailing(s, c);
            &&& t.len() <= s.len()
            &&& t == s.take(t.len() as int)
            &&& t.len() > 0 ==> t.last() != c
            &&& forall|i: int| t.len() <= i < s.len() ==> #[trigger] s[i] == c
        }),
    decreases s.len(),
{
    if s.len() > 0 && s.last() == c {
        let rest = s.drop_last();
        trailing_characters_come_off(rest, c);
        let t = without_trailing(s, c);
        assert(t =~= s.take(t.len() as int));
        assert forall|i: int| t.len() <= i < s.len() implies #[trigger] s[i] == c by {
            if i < rest.len() {
                assert(rest[i] == s[i]);
            }
        }
    } else {
        assert(s.take(s.len() as int) =~= s);
    }
}

/// In lower case a text keeps its length, its ASCII capitals become small, and
/// every other character stays.
pub proof fn capitals_become_small(s: Seq<char>, i: int)
    requires
        0 <= i < s.len(),
    ensures
        ascii_lowered(s).len() == s.len(),
        'A' <= s[i] <= 'Z' ==> ascii_lowered(s)[i] as int == s[i] as int + 32,
        !('A' <= s[i] <= 'Z') ==> ascii_lowered(s)[i] == s[i],
{
}

// ---------------------------------------------------------------------------
// Numbers
// ---------------------------------------------------------------------------

/// What is written of a number reads as that number.
pub proof fn numbers_read_back(n: int, m: nat, limit: nat)
    ensures
        integer_of(signed_decimal(n)) == Some(n),
        natural_of(decimal(m)) == Some(m),
        m <= limit ==> natural_up_to(decimal(m), limit) == Some(m),
        m > limit ==> natural_up_to(decimal(m), limit) is None,
        natural_of(seq!['+'] + decimal(m)) == Some(m),
{
    decimal_denotes(m);
    assert((seq!['+'] + decimal(m)).skip(1) =~= decimal(m));
    first_digit(m);
    if n < 0 {
        decimal_denotes((-n) as nat);
        first_digit((-n) as nat);
        assert((seq!['-'] + decimal((-n) as nat)).skip(1) =~= decimal((-n) as nat));
    } else {
        decimal_denotes(n as nat);
        first_digit(n as nat);
    }
}

proof fn first_digit(n: nat)
    ensures
        decimal(n).len() > 0,
        '0' <= decimal(n)[0] <= '9',
    decreases n,
{
    if n >= 10 {
        first_digit(n / 10);
        assert(decimal(n)[0] == decimal(n / 10)[0]);
    }
}

/// A text with anything but digits and one sign in front is no number.
pub proof fn other_texts_are_no_numbers(s: Seq<char>, i: int)
    requires
        1 <= i < s.len(),
        !('0' <= s[i] <= '9'),
    ensures
        natural_of(s) is None,
        integer_of(s) is None,
{
    if s[0] == '+' || s[0] == '-' {
        assert(s.skip(1)[i - 1] == s[i]);
        if crate::number::all_digits(s.skip(1)) {
            assert(crate::text::is_digit(s.skip(1)[i - 1]));
        }
    }
    if crate::number::all_digits(s) {
        assert(crate::text::is_digit(s[i]));
    }
}

/// Numbers are in one order: of two that are numbers one is smaller or both are
/// equal, and what is no number is in no order.
pub proof fn numbers_are_in_order(a: Real, b: Real, c: Real)
    ensures
        a.finite() && b.finite() ==> a.less(b) || b.less(a) || a.equals(b),
        a.less(b) ==> !b.less(a) && !a.equals(b) && a.at_most(b),
        a.at_most(b) <==> a.less(b) || a.equals(b),
        a.less(b) && b.less(c) ==> a.less(c),
        a.equals(b) ==> b.equals(a),
        real_zero().less(Real { bits: 0x3ff0_0000_0000_0000 }),
        (Real { bits: 0xbff0_0000_0000_0000 }).less(real_zero()),
        (Real { bits: 0x3ff0_0000_0000_0000 }).less(Real { bits: 0x4000_0000_0000_0000 }),
        (Real { bits: 0xc000_0000_0000_0000 }).less(Real { bits: 0xbff0_0000_0000_0000 }),
        real_zero().equals(Real { bits: 0x8000_0000_0000_0000 }),
        !(Real { bits: 0x7ff8_0000_0000_0000 }).equals(Real { bits: 0x7ff8_0000_0000_0000 }),
        !(Real { bits: 0x7ff0_0000_0000_0000 }).finite(),
        real_zero().finite(),
{
}

/// Of two positive numbers the one with the larger pattern is the larger, of
/// two negative ones the smaller.
pub proof fn patterns_follow_the_order(a: Real, b: Real)
    requires
        a.finite(),
        b.finite(),
    ensures
        a.bits < 0x8000_0000_0000_0000 && b.bits < 0x8000_0000_0000_0000 ==> (a.less(b) <==> a.bits
            < b.bits),
        a.bits >= 0x8000_0000_0000_0000 && b.bits >= 0x8000_0000_0000_0000 ==> (a.less(b)
            <==> a.bits > b.bits),
        a.bits > 0x8000_0000_0000_0000 && b.bits < 0x8000_0000_0000_0000 ==> a.less(b),
{
}

// ---------------------------------------------------------------------------
// Notations
// ---------------------------------------------------------------------------

/// A field of an object is the value that its first entry of that name has.
pub proof fn fields_are_found(entries: Seq<(Seq<char>, JsonView)>, k: int)
    requires
        0 <= k < entries.len(),
        forall|j: int| 0 <= j < k ==> (#[trigger] entries[j]).0 != entries[k].0,
    ensures
        JsonView::Object(entries).field(entries[k].0) == Some(entries[k].1),
    decreases entries.len(),
{
    if k > 0 {
        let rest = entries.drop_first();
        assert(rest[k - 1] == entries[k]);
        assert(entries[0].0 != entries[k].0);
        assert forall|j: int| 0 <= j < k - 1 implies (#[trigger] rest[j]).0 != rest[k - 1].0 by {
            assert(rest[j] == entries[j + 1]);
        }
        fields_are_found(rest, k - 1);
    }
}

/// A field that no entry has the name of is not there.
pub proof fn other_fields_are_not_there(entries: Seq<(Seq<char>, JsonView)>, key: Seq<char>)
    requires
        forall|j: int| 0 <= j < entries.len() ==> (#[trigger] entries[j]).0 != key,
    ensures
        JsonView::Object(entries).field(key) is None,
        JsonView::Object(entries).text_field(key) is None,
    decreases entries.len(),
{
    if entries.len() > 0 {
        let rest = entries.drop_first();
        assert(entries[0].0 != key);
        assert forall|j: int| 0 <= j < rest.len() implies (#[trigger] rest[j]).0 != key by {
            assert(rest[j] == entries[j + 1]);
        }
        other_fields_are_not_there(rest, key);
    }
}

/// The character needs no escape in JSON.
pub open spec fn is_plain(c: char) -> bool {
    c as int >= 32 && c != '"' && c != '\\'
}

/// A text of plain characters stands in JSON as it is, in quotes; quotes and
/// backslashes get a backslash in front; and no character below a blank is left.
pub proof fn texts_stand_in_quotes(s: Seq<char>, c: char, i: int)
    ensures
        (forall|j: int| 0 <= j < s.len() ==> is_plain(#[trigger] s[j])) ==> json_string(s) == seq![
            '"',
        ] + s + seq!['"'],
        c == '"' || c == '\\' ==> json_escapes(s.push(c)) == json_escapes(s) + seq!['\\', c],
        json_escapes(s.push('\n')) == json_escapes(s) + seq!['\\', 'n'],
        json_escapes(s.push('\t')) == json_escapes(s) + seq!['\\', 't'],
        json_escapes(s.push('\r')) == json_escapes(s) + seq!['\\', 'r'],
        0 <= i < json_escapes(s).len() ==> json_escapes(s)[i] as int >= 32,
    decreases s.len(),
{
    assert(s.push(c).drop_last() =~= s);
    assert(s.push('\n').drop_last() =~= s);
    assert(s.push('\t').drop_last() =~= s);
    assert(s.push('\r').drop_last() =~= s);
    if s.len() > 0 {
        let before = s.drop_last();
        texts_stand_in_quotes(before, c, i);
        let start = json_escapes(before).len();
        if start <= i < json_escapes(s).len() {
            escapes_are_visible(s.last(), i - start);
        }
        if forall|j: int| 0 <= j < s.len() ==> is_plain(#[trigger] s[j]) {
            assert forall|j: int| 0 <= j < before.len() implies is_plain(#[trigger] before[j]) by {
                assert(before[j] == s[j]);
            }
            assert(is_plain(s[s.len() - 1]));
            let quoted = json_string(before);
            assert(quoted.subrange(1, quoted.len() - 1) =~= json_escapes(before));
            assert((seq!['"'] + before + seq!['"']).subrange(1, (before.len() + 1) as int) =~= before);
            assert(json_escapes(s) =~= s);
        }
    }
}

proof fn escapes_are_visible(c: char, k: int)
    requires
        0 <= k < json_escape(c).len(),
    ensures
        json_escape(c)[k] as int >= 32,
{
    let code = c as int;
    if code < 32 {
        assert(0 <= code / 16 < 2 && 0 <= code % 16 < 16);
        assert(hex_digit(code / 16) as int >= 32);
        assert(hex_digit(code % 16) as int >= 32);
    }
}

/// The byte is a letter, a digit or one of `-._~`.
pub open spec fn may_stand(b: u8) -> bool {
    let c = b as int;
    ||| '0' as int <= c <= '9' as int
    ||| 'A' as int <= c <= 'Z' as int
    ||| 'a' as int <= c <= 'z' as int
    ||| c == '-' as int || c == '.' as int || c == '_' as int || c == '~' as int
}

/// In an address letters, digits and `-._~` stand as they are; every other byte
/// stands as a percent sign and its two digits.
pub proof fn bytes_are_escaped(bytes: Seq<u8>, b: u8)
    ensures
        may_stand(b) ==> percent_encoded(bytes.push(b)) == percent_encoded(bytes).push(b as char),
        !may_stand(b) ==> percent_encoded(bytes.push(b)).len() == percent_encoded(bytes).len() + 3
            && percent_encoded(bytes.push(b))[percent_encoded(bytes).len() as int] == '%',
        percent_encoded(bytes.push(0x20)) == percent_encoded(bytes) + "%20"@,
        percent_encoded(bytes.push(0x2F)) == percent_encoded(bytes) + "%2F"@,
        percent_encoded(bytes.push(0x3A)) == percent_encoded(bytes) + "%3A"@,
        percent_encoded(Seq::empty()) == Seq::<char>::empty(),
{
    assert(bytes.push(b).drop_last() =~= bytes);
    assert(bytes.push(0x20).drop_last() =~= bytes);
    assert(bytes.push(0x2F).drop_last() =~= bytes);
    assert(bytes.push(0x3A).drop_last() =~= bytes);
    reveal_strlit("%20");
    reveal_strlit("%2F");
    reveal_strlit("%3A");
    assert("%20"@ =~= seq!['%', '2', '0']);
    assert("%2F"@ =~= seq!['%', '2', 'F']);
    assert("%3A"@ =~= seq!['%', '3', 'A']);
}

/// A percent sign and two digits stand for one byte; what begins with no such
/// escape begins with a byte that stands for itself.
pub proof fn escapes_are_read(rest: Seq<u8>, b: u8)
    ensures
        b != 0x25 ==> percent_decoded(seq![b] + rest) == seq![b] + percent_decoded(rest),
        percent_decoded(seq![0x25u8, 0x32u8, 0x30u8] + rest) == seq![0x20u8] + percent_decoded(
            rest,
        ),
        percent_decoded(seq![0x25u8, 0x33u8, 0x41u8] + rest) == seq![0x3Au8] + percent_decoded(
            rest,
        ),
        percent_decoded(seq![0x25u8, 0x33u8, 0x61u8] + rest) == seq![0x3Au8] + percent_decoded(
            rest,
        ),
        percent_decoded(Seq::empty()) == Seq::<u8>::empty(),
{
    assert((seq![b] + rest).skip(1) =~= rest);
    assert((seq![0x25u8, 0x32u8, 0x30u8] + rest).skip(3) =~= rest);
    assert((seq![0x25u8, 0x33u8, 0x41u8] + rest).skip(3) =~= rest);
    assert((seq![0x25u8, 0x33u8, 0x61u8] + rest).skip(3) =~= rest);
}

/// An IMDb id is `tt` and digits, at least one; nothing else is.
pub proof fn imdb_ids_are_known(digits: Seq<char>, i: int)
    requires
        forall|j: int| 0 <= j < digits.len() ==> !is_space(#[trigger] digits[j]),
    ensures
        digits.len() > 0 && (forall|j: int| 0 <= j < digits.len() ==> '0' <= #[trigger] digits[j]
            <= '9') ==> is_imdb_id("tt"@ + digits),
        digits.len() == 0 ==> !is_imdb_id("tt"@ + digits),
        0 <= i < digits.len() && !('0' <= digits[i] <= '9') ==> !is_imdb_id("tt"@ + digits),
        digits.len() > 0 && digits[0] != 't' ==> !is_imdb_id(digits),
{
    reveal_strlit("tt");
    assert("tt"@.len() == 2 && "tt"@[0] == 't' && "tt"@[1] == 't');
    let id = "tt"@ + digits;
    white_space_is_known('t');
    trimming_takes_white_space(id);
    assert(!is_space(id[0]));
    assert(!is_space(id.last())) by {
        if digits.len() > 0 {
            assert(id.last() == digits[digits.len() - 1]);
        } else {
            assert(id.last() == 't');
        }
    }
    assert(trimmed(id) == id);
    assert(id.subrange(0, 2) =~= "tt"@);
    if digits.len() > 0 && (forall|j: int| 0 <= j < digits.len() ==> '0' <= #[trigger] digits[j]
        <= '9') {
        assert forall|j: int| 2 <= j < id.len() implies crate::text::is_digit(#[trigger] id[j]) by {
            assert(id[j] == digits[j - 2]);
        }
    }
    if 0 <= i < digits.len() {
        assert(id[i + 2] == digits[i]);
    }
    if digits.len() > 0 {
        trimming_takes_white_space(digits);
        assert(!is_space(digits[0]));
        assert(!is_space(digits[digits.len() - 1]));
        assert(trimmed(digits) == digits);
        if digits.len() >= 2 {
            assert(digits.subrange(0, 2)[0] == digits[0]);
        }
    }
}

/// A film is named by its id, an episode by that of its series, its season and
/// its number.
pub proof fn media_are_named(m: MediaView)
    ensures
        m.season is Some && m.episode is Some ==> media_text(m) == m.imdb_id + " S"@ + decimal(
            m.season->0 as nat,
        ) + "E"@ + decimal(m.episode->0 as nat),
        m.season is None || m.episode is None ==> media_text(m) == m.imdb_id,
{
}

// ---------------------------------------------------------------------------
// Lines
// ---------------------------------------------------------------------------

/// A line that ends is a line of its own, and what follows its end the next.
pub proof fn lines_end(text: Seq<char>, line: Seq<char>)
    requires
        forall|i: int| 0 <= i < line.len() ==> #[trigger] line[i] != '\n',
    ensures
        line.len() > 0 ==> lines_of(line) == seq![line],
        line.len() > 0 && line.last() != '\r' ==> lines_of(line.push('\n')) == seq![line],
        lines_of(Seq::empty()) == Seq::<Seq<char>>::empty(),
{
    one_piece(line);
    assert(split_on(line, '\n') =~= seq![line]);
    assert(seq![line].drop_last() =~= Seq::<Seq<char>>::empty());
    assert(line.push('\n').drop_last() =~= line);
    let ended = split_on(line.push('\n'), '\n');
    assert(ended =~= seq![line, Seq::<char>::empty()]);
    assert(ended.drop_last() =~= seq![line]);
    assert(lines_of(line).len() <= 1);
    if line.len() > 0 {
        assert(lines_of(line) =~= seq![line]);
        if line.last() != '\r' {
            assert(lines_of(line.push('\n')) =~= seq![line]);
        }
    }
    let nothing = split_on(Seq::<char>::empty(), '\n');
    assert(nothing =~= seq![Seq::<char>::empty()]);
    assert(lines_of(Seq::empty()) =~= Seq::<Seq<char>>::empty());
}

proof fn one_piece(line: Seq<char>)
    requires
        forall|i: int| 0 <= i < line.len() ==> #[trigger] line[i] != '\n',
    ensures
        split_on(line, '\n') == seq![line],
    decreases line.len(),
{
    if line.len() > 0 {
        let before = line.drop_last();
        assert forall|i: int| 0 <= i < before.len() implies #[trigger] before[i] != '\n' by {
            assert(before[i] == line[i]);
        }
        one_piece(before);
        assert(line[line.len() - 1] != '\n');
        assert(before.push(line.last()) =~= line);
        assert(split_on(line, '\n') =~= seq![line]);
    }
}

/// Of the lines the last are kept, in their order: so many as may be.
pub proof fn last_lines_are_kept(lines: Seq<Seq<char>>, limit: nat, k: int)
    ensures
        ({
            let kept = last_lines(lines, limit);
            &&& lines.len() <= limit ==> kept == lines
            &&& lines.len() > limit ==> kept.len() == limit
            &&& 0 <= k < kept.len() ==> kept[k] == lines[lines.len() - kept.len() + k]
        }),
{
}

} // verus!
