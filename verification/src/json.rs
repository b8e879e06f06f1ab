//! JSON documents as plain values.

use crate::number::Real;
use crate::text::same_text;
use vstd::prelude::*;

verus! {

/// A JSON number: as an unsigned and as a signed integer where it was written
/// as one that fits, and as a floating-point number in any case.
#[derive(Clone, Copy, Debug, PartialEq)]
pub struct JsonNumber {
    pub unsigned: Option<u64>,
    pub signed: Option<i64>,
    pub real: Option<Real>,
}

/// A JSON document.
#[derive(Debug, PartialEq)]
pub enum Json {
    Null,
    Bool(bool),
    Number(JsonNumber),
    Text(String),
    Array(Vec<Json>),
    Object(Vec<(String, Json)>),
}

/// What a JSON document says.
#[verifier::ext_equal]
pub enum JsonView {
    Null,
    Bool(bool),
    Number(JsonNumber),
    Text(Seq<char>),
    Array(Seq<JsonView>),
    Object(Seq<(Seq<char>, JsonView)>),
}

impl View for Json {
    type V = JsonView;

    open spec fn view(&self) -> JsonView {
        self.contents()
    }
}

impl Json {
    /// What the document says.
    pub open spec fn contents(self) -> JsonView
        decreases self,
    {
        match self {
            Json::Null => JsonView::Null,
            Json::Bool(b) => JsonView::Bool(b),
            Json::Number(n) => JsonView::Number(n),
            Json::Text(s) => JsonView::Text(s@),
            Json::Array(items) => JsonView::Array(
                Seq::new(
                    items@.len(),
                    |i: int|
                        if 0 <= i < items@.len() {
                            items@[i].contents()
                        } else {
                            JsonView::Null
                        },
                ),
            ),
            Json::Object(entries) => JsonView::Object(
                Seq::new(
                    entries@.len(),
                    |i: int|
                        if 0 <= i < entries@.len() {
                            (entries@[i].0@, entries@[i].1.contents())
                        } else {
                            (Seq::empty(), JsonView::Null)
                        },
                ),
            ),
        }
    }

    /// Another document that says the same.
    pub fn duplicate(&self) -> (copy: Json)
        ensures
            copy@ == self@,
        decreases self,
    {
        match self {
            Json::Null => Json::Null,
            Json::Bool(b) => Json::Bool(*b),
            Json::Number(n) => Json::Number(*n),
            Json::Text(s) => Json::Text(s.clone()),
            Json::Array(items) => {
                let mut out: Vec<Json> = Vec::new();
                let mut i: usize = 0;
                while i < items.len()
                    invariant
                        i <= items.len(),
                        out.len() == i,
                        *self == Json::Array(*items),
                        forall|k: int|
                            0 <= k < i ==> (#[trigger] out@[k]).contents() == items@[k].contents(),
                    decreases items.len() - i,
                {
                    proof {
                        assert(decreases_to!(self => self->Array_0));
                        assert(decreases_to!(items => items@));
                        assert(decreases_to!(items@ => items@[i as int]));
                    }
                    let item = items[i].duplicate();
                    out.push(item);
                    i = i + 1;
                }
                let copy = Json::Array(out);
                assert(copy.contents()->Array_0 =~= self.contents()->Array_0);
                copy
            },
            Json::Object(entries) => {
                let mut out: Vec<(String, Json)> = Vec::new();
                let mut i: usize = 0;
                while i < entries.len()
                    invariant
                        i <= entries.len(),
                        out.len() == i,
                        *self == Json::Object(*entries),
                        forall|k: int|
                            0 <= k < i ==> (#[trigger] out@[k]).0@ == entries@[k].0@
                                && out@[k].1.contents() == entries@[k].1.contents(),
                    decreases entries.len() - i,
                {
                    proof {
                        assert(decreases_to!(self => self->Object_0));
                        assert(decreases_to!(entries => entries@));
                        assert(decreases_to!(entries@ => entries@[i as int]));
                        assert(decreases_to!(entries@[i as int] => entries@[i as int].1));
                    }
                    let item = entries[i].1.duplicate();
                    out.push((entries[i].0.clone(), item));
                    i = i + 1;
                }
                let copy = Json::Object(out);
                assert(copy.contents()->Object_0 =~= self.contents()->Object_0);
                copy
            },
        }
    }

    /// The value of a field, where the document is an object that has it.
    pub fn get(&self, key: &str) -> (value: Option<&Json>)
        ensures
            match value {
                Some(v) => self@.field(key@) == Some(v@),
                None => self@.field(key@) is None,
            },
    {
        match self {
            Json::Object(entries) => {
                let ghost said = self.contents()->Object_0;
                let mut i: usize = 0;
                assert(said.skip(0) =~= said);
                while i < entries.len()
                    invariant
                        i <= entries.len(),
                        said == self.contents()->Object_0,
                        *self == Json::Object(*entries),
                        said.len() == entries.len(),
                        forall|k: int|
                            0 <= k < said.len() ==> #[trigger] said[k] == (
                                entries@[k].0@,
                                entries@[k].1.contents(),
                            ),
                        entry_value(said, key@) == entry_value(said.skip(i as int), key@),
                    decreases entries.len() - i,
                {
                    assert(said.skip(i as int)[0] == said[i as int]);
                    assert(said.skip(i as int).drop_first() =~= said.skip(i + 1));
                    if same_text(entries[i].0.as_str(), key) {
                        return Some(&entries[i].1);
                    }
                    i = i + 1;
                }
                None
            },
            _ => None,
        }
    }

    /// The text, where the document is one.
    pub fn as_text(&self) -> (text: Option<&String>)
        ensures
            match text {
                Some(t) => self@.text() == Some(t@),
                None => self@.text() is None,
            },
    {
        match self {
            Json::Text(s) => Some(s),
            _ => None,
        }
    }

    /// The text in a field of an object.
    pub fn text_at(&self, key: &str) -> (text: Option<String>)
        ensures
            match text {
                Some(t) => self@.text_field(key@) == Some(t@),
                None => self@.text_field(key@) is None,
            },
    {
        match self.get(key) {
            Some(value) => match value.as_text() {
                Some(t) => Some(t.clone()),
                None => None,
            },
            None => None,
        }
    }

    /// The truth value, where the document is one.
    pub fn as_bool(&self) -> (flag: Option<bool>)
        ensures
            flag == self@.flag(),
    {
        match self {
            Json::Bool(b) => Some(*b),
            _ => None,
        }
    }

    /// The unsigned integer, where the document is one.
    pub fn as_u64(&self) -> (number: Option<u64>)
        ensures
            number == self@.unsigned(),
    {
        match self {
            Json::Number(n) => n.unsigned,
            _ => None,
        }
    }

    /// The signed integer, where the document is one.
    pub fn as_i64(&self) -> (number: Option<i64>)
        ensures
            number == self@.signed(),
    {
        match self {
            Json::Number(n) => n.signed,
            _ => None,
        }
    }

    /// The number, where the document is one.
    pub fn as_real(&self) -> (number: Option<Real>)
        ensures
            number == self@.number(),
    {
        match self {
            Json::Number(n) => n.real,
            _ => None,
        }
    }

    pub fn is_object(&self) -> (yes: bool)
        ensures
            yes == self@ is Object,
    {
        match self {
            Json::Object(_) => true,
            _ => false,
        }
    }

    /// The items, where the document is an array.
    pub fn as_array(&self) -> (items: Option<&Vec<Json>>)
        ensures
            match items {
                Some(v) => self@ matches JsonView::Array(said) && said.len() == v@.len() && forall|
                    i: int,
                |
                    0 <= i < said.len() ==> #[trigger] said[i] == v@[i]@,
                None => !(self@ is Array),
            },
    {
        match self {
            Json::Array(items) => Some(items),
            _ => None,
        }
    }
}

/// The value of the first entry with the given key.
pub open spec fn entry_value(entries: Seq<(Seq<char>, JsonView)>, key: Seq<char>) -> Option<
    JsonView,
>
    decreases entries.len(),
{
    if entries.len() == 0 {
        None
    } else if entries[0].0 == key {
        Some(entries[0].1)
    } else {
        entry_value(entries.drop_first(), key)
    }
}

impl JsonView {
    /// The value of a field of an object.
    pub open spec fn field(self, key: Seq<char>) -> Option<JsonView> {
        match self {
            JsonView::Object(entries) => entry_value(entries, key),
            _ => None,
        }
    }

    pub open spec fn text(self) -> Option<Seq<char>> {
        match self {
            JsonView::Text(s) => Some(s),
            _ => None,
        }
    }

    pub open spec fn flag(self) -> Option<bool> {
        match self {
            JsonView::Bool(b) => Some(b),
            _ => None,
        }
    }

    pub open spec fn unsigned(self) -> Option<u64> {
        match self {
            JsonView::Number(n) => n.unsigned,
            _ => None,
        }
    }

    pub open spec fn signed(self) -> Option<i64> {
        match self {
            JsonView::Number(n) => n.signed,
            _ => None,
        }
    }

    pub open spec fn number(self) -> Option<Real> {
        match self {
            JsonView::Number(n) => n.real,
            _ => None,
        }
    }

    /// The text in a field of an object.
    pub open spec fn text_field(self, key: Seq<char>) -> Option<Seq<char>> {
        match self.field(key) {
            Some(value) => value.text(),
            None => None,
        }
    }
}

/// A floating-point number as a JSON value: null where it is not finite.
pub open spec fn json_of_real(r: Real) -> JsonView {
    if r.finite() {
        JsonView::Number(JsonNumber { unsigned: None, signed: None, real: Some(r) })
    } else {
        JsonView::Null
    }
}

/// A floating-point number as a JSON value: null where it is not finite.
pub fn real_to_json(r: Real) -> (json: Json)
    ensures
        json@ == json_of_real(r),
{
    if r.is_finite() {
        Json::Number(JsonNumber { unsigned: None, signed: None, real: Some(r) })
    } else {
        Json::Null
    }
}

// ---------------------------------------------------------------------------
// Reading and writing
// ---------------------------------------------------------------------------

#[verifier::external_type_specification]
#[verifier::external_body]
pub struct ExJsonValue(serde_json::Value);

/// What a parsed document holds.
pub uninterp spec fn json_contents(value: serde_json::Value) -> JsonView;

/// The document that a text denotes, where it is JSON.
pub uninterp spec fn json_document(text: Seq<char>) -> Option<JsonView>;

/// The lower-case hexadecimal digit of a number below sixteen.
pub open spec fn hex_digit(n: int) -> char {
    (if n < 10 {
        '0' as int + n
    } else {
        'a' as int + n - 10
    }) as char
}

/// A character in a JSON text: quotes, backslashes and control characters are
/// escaped.
pub open spec fn json_escape(c: char) -> Seq<char> {
    let code = c as int;
    if c == '"' || c == '\\' {
        seq!['\\', c]
    } else if code == 8 {
        seq!['\\', 'b']
    } else if code == 9 {
        seq!['\\', 't']
    } else if code == 10 {
        seq!['\\', 'n']
    } else if code == 12 {
        seq!['\\', 'f']
    } else if code == 13 {
        seq!['\\', 'r']
    } else if code < 32 {
        seq!['\\', 'u', '0', '0', hex_digit(code / 16), hex_digit(code % 16)]
    } else {
        seq![c]
    }
}

/// The characters of a JSON text, one after another.
pub open spec fn json_escapes(text: Seq<char>) -> Seq<char>
    decreases text.len(),
{
    if text.len() == 0 {
        Seq::empty()
    } else {
        json_escapes(text.drop_last()) + json_escape(text.last())
    }
}

/// The JSON notation of a text: in quotes, with escapes.
pub open spec fn json_string(text: Seq<char>) -> Seq<char> {
    seq!['"'] + json_escapes(text) + seq!['"']
}

/// Calls `serde_json::from_str`. Which texts it accepts, and the document that
/// such a text denotes, depend on the text alone and are named
/// `json_document`.
#[verifier::external_body]
fn read_value(text: &str) -> (value: Option<serde_json::Value>)
    ensures
        match value {
            Some(v) => json_document(text@) == Some(json_contents(v)),
            None => json_document(text@) is None,
        },
{
    serde_json::from_str(text).ok()
}

/// Takes a `serde_json::Value` apart, variant by variant: the result says what
/// the value holds, its object entries in the order in which it hands them
/// out.
#[verifier::external_body]
fn unpack_value(value: serde_json::Value) -> (json: Json)
    ensures
        json@ == json_contents(value),
{
    match value {
        serde_json::Value::Null => Json::Null,
        serde_json::Value::Bool(b) => Json::Bool(b),
        serde_json::Value::Number(n) => Json::Number(JsonNumber {
            unsigned: n.as_u64(),
            signed: n.as_i64(),
            real: n.as_f64().map(|r| Real { bits: r.to_bits() }),
        }),
        serde_json::Value::String(s) => Json::Text(s),
        serde_json::Value::Array(a) => Json::Array(a.into_iter().map(unpack_value).collect()),
        serde_json::Value::Object(o) => {
            Json::Object(o.into_iter().map(|e| (e.0, unpack_value(e.1))).collect())
        },
    }
}

/// Calls `serde_json::to_string` on a text. Writing a text to memory does not
/// fail. The result is the text in quotes, with its quotes, backslashes and
/// control characters escaped.
#[verifier::external_body]
fn write_string(text: &str) -> (json: Option<String>)
    ensures
        json is Some,
        json->0@ == json_string(text@),
{
    serde_json::to_string(text).ok()
}

/// The document that a text denotes, where it is JSON.
pub fn parse_json(text: &str) -> (json: Option<Json>)
    ensures
        match json {
            Some(j) => json_document(text@) == Some(j@),
            None => json_document(text@) is None,
        },
{
    match read_value(text) {
        Some(value) => Some(unpack_value(value)),
        None => None,
    }
}

/// The JSON notation of a text.
pub fn quote_json(text: &str) -> (json: String)
    ensures
        json@ == json_string(text@),
{
    match write_string(text) {
        Some(json) => json,
        None => String::new(),
    }
}

} // verus!
