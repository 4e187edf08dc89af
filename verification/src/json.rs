//! A small JSON document model and its compact text rendering.

use crate::text::{decimal, hex_digit_char, push_decimal};
use vstd::prelude::*;

verus! {

/// A JSON document, as the notification payloads use it. Object members keep
/// the order in which they were given.
#[derive(Debug)]
pub enum Json {
    /// `true` or `false`.
    Bool(bool),
    /// A number without sign or fraction.
    Number(u32),
    /// A string.
    Text(String),
    /// An array of documents.
    Array(Vec<Json>),
    /// An object: its members, each a name and a document.
    Object(Vec<(String, Json)>),
}

/// The mathematical value of a [`Json`] document.
pub enum JsonValue {
    /// `true` or `false`.
    Bool(bool),
    /// A natural number.
    Number(nat),
    /// The characters of a string.
    Text(Seq<char>),
    /// The values of an array, in order.
    Array(Seq<JsonValue>),
    /// The members of an object, in order: each a name and a value.
    Object(Seq<(Seq<char>, JsonValue)>),
}

/// The value of a document: each string by its text, each vector by the
/// values of its items in order.
pub open spec fn value_of(doc: Json) -> JsonValue
    decreases doc,
{
    match doc {
        Json::Bool(b) => JsonValue::Bool(b),
        Json::Number(n) => JsonValue::Number(n as nat),
        Json::Text(text) => JsonValue::Text(text@),
        Json::Array(items) => JsonValue::Array(
            Seq::new(
                items@.len(),
                |i: int|
                    if 0 <= i < items@.len() {
                        value_of(items@[i])
                    } else {
                        JsonValue::Bool(false)
                    },
            ),
        ),
        Json::Object(members) => JsonValue::Object(
            Seq::new(
                members@.len(),
                |i: int|
                    if 0 <= i < members@.len() {
                        (members@[i].0@, value_of(members@[i].1))
                    } else {
                        (Seq::empty(), JsonValue::Bool(false))
                    },
            ),
        ),
    }
}

/// The values of a sequence of documents, in order.
pub open spec fn item_values(items: Seq<Json>) -> Seq<JsonValue> {
    Seq::new(items.len(), |i: int| value_of(items[i]))
}

/// The names and values of a sequence of object members, in order.
pub open spec fn member_values(members: Seq<(String, Json)>) -> Seq<(Seq<char>, JsonValue)> {
    Seq::new(members.len(), |i: int| (members[i].0@, value_of(members[i].1)))
}

impl View for Json {
    type V = JsonValue;

    open spec fn view(&self) -> JsonValue {
        value_of(*self)
    }
}

/// How one character stands inside a JSON string literal. The quotation
/// mark and the reverse solidus follow a reverse solidus; backspace, form
/// feed, line feed, carriage return and tab are a reverse solidus and `b`,
/// `f`, `n`, `r` or `t`; any other character below U+0020 is a reverse
/// solidus, `u00` and its two lowercase hexadecimal digits; every other
/// character stands for itself.
pub open spec fn escaped_char(c: char) -> Seq<char> {
    if c == '"' {
        seq!['\\', '"']
    } else if c == '\\' {
        seq!['\\', '\\']
    } else if c == '\u{8}' {
        seq!['\\', 'b']
    } else if c == '\u{c}' {
        seq!['\\', 'f']
    } else if c == '\n' {
        seq!['\\', 'n']
    } else if c == '\r' {
        seq!['\\', 'r']
    } else if c == '\t' {
        seq!['\\', 't']
    } else if ' ' > c {
        seq![
            '\\',
            'u',
            '0',
            '0',
            hex_digit_char((c as u32 / 16) as nat),
            hex_digit_char((c as u32 % 16) as nat),
        ]
    } else {
        seq![c]
    }
}

/// The characters of `text`, each as it stands inside a JSON string literal.
pub open spec fn escaped(text: Seq<char>) -> Seq<char>
    decreases text.len(),
{
    if text.len() == 0 {
        Seq::empty()
    } else {
        escaped(text.drop_last()) + escaped_char(text.last())
    }
}

/// The JSON string literal for `text`: its escaped characters between two
/// quotation marks.
pub open spec fn json_string_literal(text: Seq<char>) -> Seq<char> {
    seq!['"'] + escaped(text) + seq!['"']
}

/// The compact JSON text of a value: no whitespace, object members in their
/// given order.
pub open spec fn rendered(value: JsonValue) -> Seq<char>
    decreases value, 0nat,
{
    match value {
        JsonValue::Bool(b) => if b {
            "true"@
        } else {
            "false"@
        },
        JsonValue::Number(n) => decimal(n),
        JsonValue::Text(text) => json_string_literal(text),
        JsonValue::Array(items) => "["@ + rendered_items(items, items.len()) + "]"@,
        JsonValue::Object(members) => "{"@ + rendered_members(members, members.len()) + "}"@,
    }
}

/// The first `count` of `items`, rendered and separated by commas.
pub open spec fn rendered_items(items: Seq<JsonValue>, count: nat) -> Seq<char>
    decreases items, count,
{
    if count == 0 || count > items.len() {
        Seq::empty()
    } else if count == 1 {
        rendered(items[0])
    } else {
        rendered_items(items, (count - 1) as nat) + ","@ + rendered(items[count - 1])
    }
}

/// The first `count` of `members`, each rendered as its quoted name, a colon
/// and its value, and separated by commas.
pub open spec fn rendered_members(members: Seq<(Seq<char>, JsonValue)>, count: nat) -> Seq<char>
    decreases members, count,
{
    if count == 0 || count > members.len() {
        Seq::empty()
    } else if count == 1 {
        json_string_literal(members[0].0) + ":"@ + rendered(members[0].1)
    } else {
        rendered_members(members, (count - 1) as nat) + ","@ + json_string_literal(
            members[count - 1].0,
        ) + ":"@ + rendered(members[count - 1].1)
    }
}

/// Why a document could not be rendered.
#[derive(Debug, Clone, Copy, PartialEq, Eq)]
pub enum JsonError {
    /// The serialiser reported an error for a string.
    Serialization,
}

/// Declares `serde_json::Error`, the error of the serialiser, so that it can
/// pass through verified code. Nothing is claimed of its values.
#[verifier::external_type_specification]
#[verifier::external_body]
pub struct ExSerializationError(serde_json::Error);

/// Calls `serde_json::to_string` on a string. Trusted: it succeeds, and the
/// text returned is `json_string_literal` of the string. For a string the
/// serialiser writes a quotation mark, the escaped characters and a
/// quotation mark into a byte vector, and no step of that can fail.
#[verifier::external_body]
fn quote(text: &str) -> (quoted: Result<String, serde_json::Error>)
    ensures
        quoted is Ok,
        quoted matches Ok(literal) ==> literal@ == json_string_literal(text@),
{
    serde_json::to_string(text)
}

/// Appends to `out` what the serialiser returned for one string, or reports
/// its error and leaves `out` as it was.
pub fn push_quoted(out: &mut String, quoted: Result<String, serde_json::Error>) -> (done: Result<
    (),
    JsonError,
>)
    ensures
        match quoted {
            Ok(literal) => done is Ok && final(out)@ == old(out)@ + literal@,
            Err(_) => done == Err::<(), _>(JsonError::Serialization) && final(out)@ == old(out)@,
        },
{
    match quoted {
        Ok(literal) => {
            out.append(literal.as_str());
            Ok(())
        },
        Err(_) => Err(JsonError::Serialization),
    }
}

impl Json {
    /// A text value that holds a copy of `text`.
    pub fn text(text: &str) -> (doc: Json)
        ensures
            doc@ == JsonValue::Text(text@),
    {
        Json::Text(String::from_str(text))
    }

    /// An array of the given items.
    pub fn array(items: Vec<Json>) -> (doc: Json)
        ensures
            doc@ == JsonValue::Array(item_values(items@)),
    {
        let doc = Json::Array(items);
        assert(doc@->Array_0 =~= item_values(items@));
        doc
    }

    /// An object of the given members, in their order.
    pub fn object(members: Vec<(String, Json)>) -> (doc: Json)
        ensures
            doc@ == JsonValue::Object(member_values(members@)),
    {
        let doc = Json::Object(members);
        assert(doc@->Object_0 =~= member_values(members@));
        doc
    }

    /// An object member: a name and its value.
    pub fn member(name: &str, value: Json) -> (member: (String, Json))
        ensures
            member.0@ == name@,
            member.1 == value,
    {
        (String::from_str(name), value)
    }

    /// Appends the compact JSON text of the document to `out`.
    pub fn write(&self, out: &mut String) -> (done: Result<(), JsonError>)
        ensures
            done is Ok,
            final(out)@ == old(out)@ + rendered(self@),
        decreases self,
    {
        let ghost before = out@;
        match self {
            Json::Bool(b) => {
                if *b {
                    out.append("true");
                } else {
                    out.append("false");
                }
                Ok(())
            },
            Json::Number(n) => {
                push_decimal(out, *n);
                Ok(())
            },
            Json::Text(text) => push_quoted(out, quote(text.as_str())),
            Json::Array(items) => {
                let ghost values = self@->Array_0;
                out.append("[");
                let mut i: usize = 0;
                while i < items.len()
                    invariant
                        i <= items@.len(),
                        self == Json::Array(*items),
                        values == self@->Array_0,
                        values.len() == items@.len(),
                        out@ == before + "["@ + rendered_items(values, i as nat),
                    decreases items@.len() - i,
                {
                    if i > 0 {
                        out.append(",");
                    }
                    assert(values[i as int] == items@[i as int]@);
                    match items[i].write(out) {
                        Err(error) => {
                            return Err(error);
                        },
                        Ok(()) => {},
                    }
                    i += 1;
                    assert(out@ =~= before + "["@ + rendered_items(values, i as nat));
                }
                out.append("]");
                assert(out@ =~= before + rendered(self@));
                Ok(())
            },
            Json::Object(members) => {
                let ghost values = self@->Object_0;
                out.append("{");
                let mut i: usize = 0;
                while i < members.len()
                    invariant
                        i <= members@.len(),
                        self == Json::Object(*members),
                        values == self@->Object_0,
                        values.len() == members@.len(),
                        out@ == before + "{"@ + rendered_members(values, i as nat),
                    decreases members@.len() - i,
                {
                    if i > 0 {
                        out.append(",");
                    }
                    assert(values[i as int] == (members@[i as int].0@, members@[i as int].1@));
                    match push_quoted(out, quote(members[i].0.as_str())) {
                        Err(error) => {
                            return Err(error);
                        },
                        Ok(()) => {},
                    }
                    out.append(":");
                    match members[i].1.write(out) {
                        Err(error) => {
                            return Err(error);
                        },
                        Ok(()) => {},
                    }
                    i += 1;
                    assert(out@ =~= before + "{"@ + rendered_members(values, i as nat));
                }
                out.append("}");
                assert(out@ =~= before + rendered(self@));
                Ok(())
            },
        }
    }

    /// The compact JSON text of the document.
    pub fn render(&self) -> (text: Result<String, JsonError>)
        ensures
            text is Ok,
            text matches Ok(t) ==> t@ == rendered(self@),
    {
        let mut out = String::new();
        match self.write(&mut out) {
            Err(error) => Err(error),
            Ok(()) => {
                assert(out@ =~= rendered(self@));
                Ok(out)
            },
        }
    }
}

} // verus!
