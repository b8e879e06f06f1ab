//! Text as sequences of characters: what the usual string operations mean,
//! and executable versions that are proved to do exactly that.

use vstd::prelude::*;

verus! {

/// Specifies [`String::push`]: the character is appended at the end.
pub assume_specification[ String::push ](s: &mut String, c: char)
    ensures
        final(s)@ == old(s)@.push(c),
;

/// Specifies `==` on `str`: two texts are equal when they hold the same
/// characters in the same order.
pub assume_specification[ <str as PartialEq>::eq ](a: &str, b: &str) -> (same: bool)
    ensures
        same == (a@ == b@),
;

// ---------------------------------------------------------------------------
// Meanings
// ---------------------------------------------------------------------------

/// The texts that a list of strings holds.
pub open spec fn texts(strings: Seq<String>) -> Seq<Seq<char>> {
    strings.map_values(|s: String| s@)
}

/// `pattern` stands in `s` at position `i`.
pub open spec fn occurs_at(s: Seq<char>, pattern: Seq<char>, i: int) -> bool {
    0 <= i && i + pattern.len() <= s.len() && s.subrange(i, i + pattern.len()) == pattern
}

/// `s` begins with `pattern`.
pub open spec fn has_prefix(s: Seq<char>, pattern: Seq<char>) -> bool {
    occurs_at(s, pattern, 0)
}

/// `s` ends with `pattern`.
pub open spec fn has_suffix(s: Seq<char>, pattern: Seq<char>) -> bool {
    occurs_at(s, pattern, s.len() - pattern.len())
}

/// `pattern` stands somewhere in `s`.
pub open spec fn has_text(s: Seq<char>, pattern: Seq<char>) -> bool {
    exists|i: int| occurs_at(s, pattern, i)
}

/// `i` is the position of the first occurrence of `pattern` in `s`.
pub open spec fn first_at(s: Seq<char>, pattern: Seq<char>, i: int) -> bool {
    occurs_at(s, pattern, i) && forall|j: int| 0 <= j < i ==> !occurs_at(s, pattern, j)
}

/// What stands before the first occurrence of `pattern` in `s`, or `s` where
/// there is none.
pub open spec fn up_to(s: Seq<char>, pattern: Seq<char>) -> Seq<char> {
    if has_text(s, pattern) {
        s.take(choose|i: int| first_at(s, pattern, i))
    } else {
        s
    }
}

/// What follows the first occurrence of `pattern` in `s`, where there is one.
pub open spec fn after_first(s: Seq<char>, pattern: Seq<char>) -> Option<Seq<char>> {
    if has_text(s, pattern) {
        let i = choose|i: int| first_at(s, pattern, i);
        Some(s.skip(i + pattern.len()))
    } else {
        None
    }
}

/// `s` without one leading `pattern`, where it begins with it.
pub open spec fn without_prefix(s: Seq<char>, pattern: Seq<char>) -> Option<Seq<char>> {
    if has_prefix(s, pattern) {
        Some(s.skip(pattern.len() as int))
    } else {
        None
    }
}

/// `s` without its leading repetitions of `pattern`.
pub open spec fn without_prefixes(s: Seq<char>, pattern: Seq<char>) -> Seq<char>
    decreases s.len(),
{
    if pattern.len() > 0 && has_prefix(s, pattern) {
        without_prefixes(s.skip(pattern.len() as int), pattern)
    } else {
        s
    }
}

/// `s` without its trailing repetitions of `c`.
pub open spec fn without_trailing(s: Seq<char>, c: char) -> Seq<char>
    decreases s.len(),
{
    if s.len() > 0 && s.last() == c {
        without_trailing(s.drop_last(), c)
    } else {
        s
    }
}

/// The pieces of `s` between its separators: one piece more than there are
/// separators, so that the text without any is a single piece.
pub open spec fn split_on(s: Seq<char>, separator: char) -> Seq<Seq<char>>
    decreases s.len(),
{
    if s.len() == 0 {
        seq![s]
    } else {
        let before = split_on(s.drop_last(), separator);
        if s.last() == separator {
            before.push(Seq::empty())
        } else {
            before.drop_last().push(before.last().push(s.last()))
        }
    }
}

/// The pieces one after the other, with a separator between neighbours.
pub open spec fn joined(pieces: Seq<Seq<char>>, separator: Seq<char>) -> Seq<char>
    decreases pieces.len(),
{
    if pieces.len() == 0 {
        Seq::empty()
    } else if pieces.len() == 1 {
        pieces[0]
    } else {
        joined(pieces.drop_last(), separator) + separator + pieces.last()
    }
}

/// The characters with the Unicode property `White_Space`.
pub open spec fn is_space(c: char) -> bool {
    let u = c as u32;
    ||| 0x09 <= u <= 0x0D
    ||| u == 0x20
    ||| u == 0x85
    ||| u == 0xA0
    ||| u == 0x1680
    ||| 0x2000 <= u <= 0x200A
    ||| u == 0x2028
    ||| u == 0x2029
    ||| u == 0x202F
    ||| u == 0x205F
    ||| u == 0x3000
}

/// `s` without its leading white space.
pub open spec fn trimmed_start(s: Seq<char>) -> Seq<char>
    decreases s.len(),
{
    if s.len() > 0 && is_space(s[0]) {
        trimmed_start(s.drop_first())
    } else {
        s
    }
}

/// `s` without its trailing white space.
pub open spec fn trimmed_end(s: Seq<char>) -> Seq<char>
    decreases s.len(),
{
    if s.len() > 0 && is_space(s.last()) {
        trimmed_end(s.drop_last())
    } else {
        s
    }
}

/// `s` without white space at either end.
pub open spec fn trimmed(s: Seq<char>) -> Seq<char> {
    trimmed_end(trimmed_start(s))
}

pub open spec fn is_digit(c: char) -> bool {
    '0' <= c <= '9'
}

pub open spec fn is_ascii_alphanumeric(c: char) -> bool {
    '0' <= c <= '9' || 'a' <= c <= 'z' || 'A' <= c <= 'Z'
}

/// The ASCII letters in lower case, every other character as it is.
pub open spec fn ascii_lower(c: char) -> char {
    if 'A' <= c <= 'Z' {
        (c as u32 + 32) as char
    } else {
        c
    }
}

pub open spec fn ascii_lowered(s: Seq<char>) -> Seq<char> {
    s.map_values(|c: char| ascii_lower(c))
}

// ---------------------------------------------------------------------------
// Executable versions
// ---------------------------------------------------------------------------

/// Whether two texts are the same.
pub fn same_text(a: &str, b: &str) -> (same: bool)
    ensures
        same == (a@ == b@),
{
    *a == *b
}

/// The characters of a text.
pub fn chars_of(s: &str) -> (chars: Vec<char>)
    ensures
        chars@ == s@,
{
    let mut chars: Vec<char> = Vec::new();
    for c in it: s.chars()
        invariant
            it.seq() == s@,
            chars@ == s@.take(it.index() as int),
    {
        chars.push(c);
    }
    chars
}

/// The text that the characters in a range spell.
pub fn text_of(chars: &Vec<char>, from: usize, to: usize) -> (s: String)
    requires
        from <= to <= chars.len(),
    ensures
        s@ == chars@.subrange(from as int, to as int),
{
    let mut s = String::new();
    let mut i: usize = from;
    while i < to
        invariant
            from <= i <= to <= chars.len(),
            s@ == chars@.subrange(from as int, i as int),
        decreases to - i,
    {
        s.push(chars[i]);
        i = i + 1;
        assert(chars@.subrange(from as int, i as int) =~= chars@.subrange(
            from as int,
            i - 1,
        ).push(chars[i - 1]));
    }
    s
}

/// Whether `pattern` stands in `chars` at position `i`.
pub fn chars_occur_at(chars: &Vec<char>, pattern: &Vec<char>, i: usize) -> (found: bool)
    ensures
        found == occurs_at(chars@, pattern@, i as int),
{
    if pattern.len() > chars.len() || i > chars.len() - pattern.len() {
        return false;
    }
    let mut k: usize = 0;
    while k < pattern.len()
        invariant
            k <= pattern.len(),
            i + pattern.len() <= chars.len(),
            forall|j: int| 0 <= j < k ==> chars@[i + j] == #[trigger] pattern@[j],
        decreases pattern.len() - k,
    {
        if chars[i + k] != pattern[k] {
            assert(chars@.subrange(i as int, i + pattern.len())[k as int] != pattern@[k as int]);
            return false;
        }
        k = k + 1;
    }
    assert(chars@.subrange(i as int, i + pattern.len()) =~= pattern@);
    true
}

/// The position of the first occurrence of `pattern`, where there is one.
pub fn find_chars(chars: &Vec<char>, pattern: &Vec<char>) -> (found: Option<usize>)
    ensures
        match found {
            Some(i) => first_at(chars@, pattern@, i as int),
            None => !has_text(chars@, pattern@),
        },
{
    let mut i: usize = 0;
    while i < chars.len()
        invariant
            i <= chars.len(),
            forall|j: int| 0 <= j < i ==> !occurs_at(chars@, pattern@, j),
        decreases chars.len() - i,
    {
        if chars_occur_at(chars, pattern, i) {
            return Some(i);
        }
        i = i + 1;
    }
    if chars_occur_at(chars, pattern, i) {
        return Some(i);
    }
    None
}

/// `str::starts_with` for a text.
pub fn starts_with(s: &str, pattern: &str) -> (yes: bool)
    ensures
        yes == has_prefix(s@, pattern@),
{
    chars_occur_at(&chars_of(s), &chars_of(pattern), 0)
}

/// `str::ends_with` for a text.
pub fn ends_with(s: &str, pattern: &str) -> (yes: bool)
    ensures
        yes == has_suffix(s@, pattern@),
{
    let chars = chars_of(s);
    let wanted = chars_of(pattern);
    if wanted.len() > chars.len() {
        return false;
    }
    chars_occur_at(&chars, &wanted, chars.len() - wanted.len())
}

/// `str::contains` for a text.
pub fn contains(s: &str, pattern: &str) -> (yes: bool)
    ensures
        yes == has_text(s@, pattern@),
{
    let found = find_chars(&chars_of(s), &chars_of(pattern));
    found.is_some()
}

/// What stands before the first occurrence of `pattern`, or the whole text.
pub fn text_up_to(s: &str, pattern: &str) -> (start: String)
    ensures
        start@ == up_to(s@, pattern@),
{
    let chars = chars_of(s);
    let wanted = chars_of(pattern);
    match find_chars(&chars, &wanted) {
        Some(i) => {
            proof {
                let k = choose|k: int| first_at(s@, pattern@, k);
                assert(first_at(s@, pattern@, k));
                assert(k == i) by {
                    if k < i {
                        assert(!occurs_at(s@, pattern@, k));
                    }
                    if i < k {
                        assert(!occurs_at(s@, pattern@, i as int));
                    }
                }
                assert(s@.take(i as int) =~= s@.subrange(0, i as int));
            }
            assert(occurs_at(chars@, wanted@, i as int));
            text_of(&chars, 0, i)
        },
        None => s.to_string(),
    }
}

/// What follows the first occurrence of `pattern`, as the second half of
/// `str::split_once`.
pub fn text_after(s: &str, pattern: &str) -> (rest: Option<String>)
    ensures
        match rest {
            Some(r) => after_first(s@, pattern@) == Some(r@),
            None => after_first(s@, pattern@) is None,
        },
{
    let chars = chars_of(s);
    let wanted = chars_of(pattern);
    match find_chars(&chars, &wanted) {
        Some(i) => {
            proof {
                let k = choose|k: int| first_at(s@, pattern@, k);
                assert(first_at(s@, pattern@, k));
                assert(k == i) by {
                    if k < i {
                        assert(!occurs_at(s@, pattern@, k));
                    }
                    if i < k {
                        assert(!occurs_at(s@, pattern@, i as int));
                    }
                }
                assert(s@.skip(i + pattern@.len()) =~= s@.subrange(
                    i + pattern@.len(),
                    s@.len() as int,
                ));
            }
            let end = chars.len();
            assert(occurs_at(chars@, wanted@, i as int));
            Some(text_of(&chars, i + wanted.len(), end))
        },
        None => None,
    }
}

/// `str::strip_prefix` for a text.
pub fn strip_prefix(s: &str, pattern: &str) -> (rest: Option<String>)
    ensures
        match rest {
            Some(r) => without_prefix(s@, pattern@) == Some(r@),
            None => without_prefix(s@, pattern@) is None,
        },
{
    let chars = chars_of(s);
    let wanted = chars_of(pattern);
    if chars_occur_at(&chars, &wanted, 0) {
        assert(s@.skip(pattern@.len() as int) =~= s@.subrange(
            pattern@.len() as int,
            s@.len() as int,
        ));
        Some(text_of(&chars, wanted.len(), chars.len()))
    } else {
        None
    }
}

/// `str::trim_start_matches` for a text.
pub fn strip_prefixes(s: &str, pattern: &str) -> (rest: String)
    ensures
        rest@ == without_prefixes(s@, pattern@),
{
    let chars = chars_of(s);
    let wanted = chars_of(pattern);
    let mut from: usize = 0;
    assert(s@.skip(0) =~= s@);
    while wanted.len() > 0 && chars_occur_at(&chars, &wanted, from)
        invariant
            from <= chars.len(),
            chars@ == s@,
            wanted@ == pattern@,
            without_prefixes(s@, pattern@) == without_prefixes(s@.skip(from as int), pattern@),
        decreases chars.len() - from,
    {
        proof {
            let rest = s@.skip(from as int);
            assert(rest.subrange(0, pattern@.len() as int) =~= s@.subrange(
                from as int,
                from + pattern@.len(),
            ));
            assert(rest.skip(pattern@.len() as int) =~= s@.skip(from + pattern@.len()));
        }
        from = from + wanted.len();
    }
    proof {
        let rest = s@.skip(from as int);
        if pattern@.len() > 0 && has_prefix(rest, pattern@) {
            assert(rest.subrange(0, pattern@.len() as int) =~= s@.subrange(
                from as int,
                from + pattern@.len(),
            ));
        }
        assert(rest =~= s@.subrange(from as int, s@.len() as int));
    }
    text_of(&chars, from, chars.len())
}

/// `str::trim_end_matches` for a character.
pub fn strip_trailing(s: &str, c: char) -> (rest: String)
    ensures
        rest@ == without_trailing(s@, c),
{
    let chars = chars_of(s);
    let mut to: usize = chars.len();
    assert(s@.take(to as int) =~= s@);
    while to > 0 && chars[to - 1] == c
        invariant
            to <= chars.len(),
            chars@ == s@,
            without_trailing(s@, c) == without_trailing(s@.take(to as int), c),
        decreases to,
    {
        assert(s@.take(to as int).drop_last() =~= s@.take(to - 1));
        to = to - 1;
    }
    assert(s@.take(to as int) =~= s@.subrange(0, to as int));
    text_of(&chars, 0, to)
}

/// `str::split` for a character.
pub fn split(s: &str, separator: char) -> (pieces: Vec<String>)
    ensures
        texts(pieces@) == split_on(s@, separator),
        pieces.len() >= 1,
{
    let mut pieces: Vec<String> = Vec::new();
    let mut current = String::new();
    assert(s@.take(0) =~= Seq::<char>::empty());
    assert(texts(pieces@).push(current@) =~= split_on(s@.take(0), separator));
    for c in it: s.chars()
        invariant
            it.seq() == s@,
            texts(pieces@).push(current@) == split_on(s@.take(it.index() as int), separator),
    {
        let ghost before = s@.take(it.index() as int);
        let ghost seen = s@.take(it.index() + 1);
        assert(seen.drop_last() =~= before);
        assert(seen.last() == c);
        if c == separator {
            let ghost old_texts = texts(pieces@);
            let ghost old_current = current@;
            pieces.push(current);
            current = String::new();
            assert(texts(pieces@) =~= old_texts.push(old_current));
        } else {
            let ghost old_current = current@;
            current.push(c);
            assert(split_on(before, separator).drop_last() =~= texts(pieces@));
        }
        assert(texts(pieces@).push(current@) =~= split_on(seen, separator));
    }
    assert(s@.take(s@.len() as int) =~= s@);
    let ghost all_but_last = texts(pieces@);
    let ghost tail = current@;
    pieces.push(current);
    assert(texts(pieces@) =~= all_but_last.push(tail));
    pieces
}

/// `[String]::join` for a text.
pub fn join(pieces: &Vec<String>, separator: &str) -> (s: String)
    ensures
        s@ == joined(texts(pieces@), separator@),
{
    let mut s = String::new();
    let mut i: usize = 0;
    assert(texts(pieces@).take(0) =~= Seq::empty());
    while i < pieces.len()
        invariant
            i <= pieces.len(),
            s@ == joined(texts(pieces@).take(i as int), separator@),
        decreases pieces.len() - i,
    {
        let ghost before = texts(pieces@).take(i as int);
        let ghost after = texts(pieces@).take(i + 1);
        assert(after.drop_last() =~= before);
        assert(after.last() == pieces@[i as int]@);
        if i > 0 {
            s.append(separator);
        }
        s.append(pieces[i].as_str());
        assert(s@ =~= joined(after, separator@));
        i = i + 1;
    }
    assert(texts(pieces@).take(pieces@.len() as int) =~= texts(pieces@));
    s
}

/// `char::is_whitespace`.
pub fn is_space_char(c: char) -> (yes: bool)
    ensures
        yes == is_space(c),
{
    let u = c as u32;
    (0x09 <= u && u <= 0x0D) || u == 0x20 || u == 0x85 || u == 0xA0 || u == 0x1680 || (0x2000 <= u
        && u <= 0x200A) || u == 0x2028 || u == 0x2029 || u == 0x202F || u == 0x205F || u == 0x3000
}

/// `str::trim_start`.
pub fn trim_start(s: &str) -> (rest: String)
    ensures
        rest@ == trimmed_start(s@),
{
    let chars = chars_of(s);
    let mut from: usize = 0;
    assert(s@.skip(0) =~= s@);
    while from < chars.len() && is_space_char(chars[from])
        invariant
            from <= chars.len(),
            chars@ == s@,
            trimmed_start(s@) == trimmed_start(s@.skip(from as int)),
        decreases chars.len() - from,
    {
        assert(s@.skip(from as int).drop_first() =~= s@.skip(from + 1));
        from = from + 1;
    }
    assert(s@.skip(from as int) =~= s@.subrange(from as int, s@.len() as int));
    text_of(&chars, from, chars.len())
}

/// `str::trim_end`.
pub fn trim_end(s: &str) -> (rest: String)
    ensures
        rest@ == trimmed_end(s@),
{
    let chars = chars_of(s);
    let mut to: usize = chars.len();
    assert(s@.take(to as int) =~= s@);
    while to > 0 && is_space_char(chars[to - 1])
        invariant
            to <= chars.len(),
            chars@ == s@,
            trimmed_end(s@) == trimmed_end(s@.take(to as int)),
        decreases to,
    {
        assert(s@.take(to as int).drop_last() =~= s@.take(to - 1));
        to = to - 1;
    }
    assert(s@.take(to as int) =~= s@.subrange(0, to as int));
    text_of(&chars, 0, to)
}

/// `str::trim`.
pub fn trim(s: &str) -> (rest: String)
    ensures
        rest@ == trimmed(s@),
{
    trim_end(trim_start(s).as_str())
}

/// `str::to_ascii_lowercase`.
pub fn to_ascii_lower(s: &str) -> (lower: String)
    ensures
        lower@ == ascii_lowered(s@),
{
    let mut lower = String::new();
    for c in it: s.chars()
        invariant
            it.seq() == s@,
            lower@ =~= ascii_lowered(s@.take(it.index() as int)),
    {
        let ghost seen = s@.take(it.index() + 1);
        assert(seen =~= s@.take(it.index() as int).push(c));
        let next = if 'A' <= c && c <= 'Z' {
            ((c as u8) + 32) as char
        } else {
            c
        };
        lower.push(next);
    }
    assert(s@.take(s@.len() as int) =~= s@);
    lower
}

// ---------------------------------------------------------------------------
// Laws
// ---------------------------------------------------------------------------

/// Splitting a text gives at least one piece, and none of them holds the
/// separator.
pub proof fn pieces_hold_no_separator(s: Seq<char>, c: char)
    ensures
        split_on(s, c).len() >= 1,
        forall|i: int| 0 <= i < split_on(s, c).len() ==> !(#[trigger] split_on(s, c)[i]).contains(c),
    decreases s.len(),
{
    if s.len() > 0 {
        pieces_hold_no_separator(s.drop_last(), c);
        let before = split_on(s.drop_last(), c);
        let after = split_on(s, c);
        assert forall|i: int| 0 <= i < after.len() implies !(#[trigger] after[i]).contains(c) by {
            if s.last() != c && i == after.len() - 1 {
                let piece = after[i];
                assert(piece == before.last().push(s.last()));
                if piece.contains(c) {
                    let k = piece.index_of(c);
                    assert(piece[k] == c);
                    assert(before.last()[k] == c);
                    assert(before[before.len() - 1].contains(c));
                }
            } else if i < before.len() {
                assert(after[i] == before[i]);
            }
        }
    }
}

/// Joining the pieces of a text with their separator gives the text back.
pub proof fn split_then_joined(s: Seq<char>, c: char)
    ensures
        split_on(s, c).len() >= 1,
        joined(split_on(s, c), seq![c]) == s,
    decreases s.len(),
{
    if s.len() > 0 {
        split_then_joined(s.drop_last(), c);
        let before = split_on(s.drop_last(), c);
        let after = split_on(s, c);
        if s.last() == c {
            assert(after.drop_last() =~= before);
            assert(joined(after, seq![c]) =~= s);
        } else {
            assert(after.drop_last() =~= before.drop_last());
            assert(s =~= s.drop_last().push(s.last()));
            assert(joined(after, seq![c]) =~= joined(before, seq![c]).push(s.last()));
        }
    }
}

/// A text without the separator only makes the last piece longer.
proof fn appended_to_last_piece(s: Seq<char>, p: Seq<char>, c: char)
    requires
        !p.contains(c),
    ensures
        split_on(s, c).len() >= 1,
        split_on(s + p, c) == split_on(s, c).drop_last().push(split_on(s, c).last() + p),
    decreases p.len(),
{
    pieces_hold_no_separator(s, c);
    if p.len() == 0 {
        assert(s + p =~= s);
        assert(split_on(s, c).last() + p =~= split_on(s, c).last());
        assert(split_on(s, c) =~= split_on(s, c).drop_last().push(split_on(s, c).last()));
    } else {
        let q = p.drop_last();
        assert forall|i: int| 0 <= i < q.len() implies q[i] != c by {
            assert(p[i] == q[i]);
        }
        assert(p[p.len() - 1] != c);
        appended_to_last_piece(s, q, c);
        assert((s + p).drop_last() =~= s + q);
        assert((s + p).last() == p.last());
        let shorter = split_on(s + q, c);
        assert(shorter.drop_last() =~= split_on(s, c).drop_last());
        assert(shorter.last().push(p.last()) =~= split_on(s, c).last() + p);
    }
}

/// Splitting joined pieces gives the pieces back, where none of them holds the
/// separator.
pub proof fn joined_then_split(pieces: Seq<Seq<char>>, c: char)
    requires
        pieces.len() >= 1,
        forall|i: int| 0 <= i < pieces.len() ==> !(#[trigger] pieces[i]).contains(c),
    ensures
        split_on(joined(pieces, seq![c]), c) == pieces,
    decreases pieces.len(),
{
    if pieces.len() == 1 {
        let empty = Seq::<char>::empty();
        appended_to_last_piece(empty, pieces[0], c);
        assert(empty + pieces[0] =~= pieces[0]);
        assert(split_on(empty, c) == seq![empty]);
        assert(split_on(pieces[0], c) =~= pieces);
    } else {
        let rest = pieces.drop_last();
        assert forall|i: int| 0 <= i < rest.len() implies !(#[trigger] rest[i]).contains(c) by {
            assert(rest[i] == pieces[i]);
        }
        joined_then_split(rest, c);
        let j = joined(rest, seq![c]);
        let jc = j.push(c);
        assert(jc.drop_last() =~= j);
        assert(split_on(jc, c) == rest.push(Seq::empty()));
        appended_to_last_piece(jc, pieces.last(), c);
        assert(joined(pieces, seq![c]) =~= jc + pieces.last());
        assert(rest.push(Seq::<char>::empty()).drop_last() =~= rest);
        assert(Seq::<char>::empty() + pieces.last() =~= pieces.last());
        assert(rest.push(pieces.last()) =~= pieces);
    }
}

/// Joining can begin at the front: the first piece, a separator, and the rest
/// joined.
pub proof fn joined_from_front(first: Seq<char>, rest: Seq<Seq<char>>, separator: Seq<char>)
    requires
        rest.len() >= 1,
    ensures
        joined(seq![first] + rest, separator) == first + separator + joined(rest, separator),
    decreases rest.len(),
{
    let all = seq![first] + rest;
    assert(all.drop_last() =~= seq![first] + rest.drop_last());
    assert(all.last() == rest.last());
    if rest.len() == 1 {
        assert(all.drop_last() =~= seq![first]);
        assert(joined(seq![first], separator) == first);
        assert(joined(all, separator) =~= first + separator + rest[0]);
    } else {
        joined_from_front(first, rest.drop_last(), separator);
        assert(joined(all, separator) =~= first + separator + joined(rest, separator));
    }
}

} // verus!
