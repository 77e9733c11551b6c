//! JSON as the relay carries it: documents that arrive are parsed and read
//! through `serde_json`, payloads that leave are flat objects rendered by it.

use vstd::prelude::*;

verus! {

/// A parsed JSON document. The library carries it and reads it through
/// [`text_member`]; it never looks inside.
#[verifier::external_type_specification]
#[verifier::external_body]
pub struct ExJsonValue(serde_json::Value);

/// The document that `serde_json::from_str` reads from `text`, if `text` is
/// well-formed JSON.
pub uninterp spec fn json_document(text: Seq<char>) -> Option<serde_json::Value>;

/// The members of a JSON object whose value is a string, by key. Empty for a
/// document that is no object.
pub uninterp spec fn json_text_members(document: serde_json::Value) -> Map<Seq<char>, Seq<char>>;

/// `Value::clone` hands back a document equal to the one it was given.
pub assume_specification[ <serde_json::Value as Clone>::clone ](document: &serde_json::Value) -> (copy: serde_json::Value)
    ensures
        copy == *document,
;

/// Parses `text` with `serde_json::from_str`. The parser rejects malformed
/// text and nesting deeper than its limit by an error, which becomes `None`.
#[verifier::external_body]
pub(crate) fn parse_json(text: &str) -> (parsed: Option<serde_json::Value>)
    ensures
        parsed == json_document(text@),
{
    serde_json::from_str::<serde_json::Value>(text).ok()
}

/// Looks `key` up in `document` with `serde_json`'s index operator and reads
/// the result with `Value::as_str`: the string under `key` where `document`
/// is an object that has one, else `None`.
#[verifier::external_body]
pub(crate) fn text_member(document: &serde_json::Value, key: &str) -> (found: Option<String>)
    ensures
        found is Some <==> json_text_members(*document).contains_key(key@),
        found is Some ==> found->0@ == json_text_members(*document)[key@],
{
    document[key].as_str().map(|s| s.to_string())
}

/// A value that a payload holds under a key.
#[derive(Debug, Clone)]
pub enum JsonScalar {
    Null,
    Bool(bool),
    Number(u64),
    Text(String),
}

/// A [`JsonScalar`] with its text as a sequence of characters.
pub enum ScalarView {
    Null,
    Bool(bool),
    Number(u64),
    Text(Seq<char>),
}

impl View for JsonScalar {
    type V = ScalarView;

    open spec fn view(&self) -> ScalarView {
        match self {
            JsonScalar::Null => ScalarView::Null,
            JsonScalar::Bool(b) => ScalarView::Bool(*b),
            JsonScalar::Number(n) => ScalarView::Number(*n),
            JsonScalar::Text(t) => ScalarView::Text(t@),
        }
    }
}

/// One member of a payload: a key and the value under it.
#[derive(Debug, Clone)]
pub struct JsonMember {
    pub key: String,
    pub value: JsonScalar,
}

impl View for JsonMember {
    type V = (Seq<char>, ScalarView);

    open spec fn view(&self) -> (Seq<char>, ScalarView) {
        (self.key@, self.value@)
    }
}

/// The members of a payload, each by its view, in their order.
pub open spec fn member_views(members: Seq<JsonMember>) -> Seq<(Seq<char>, ScalarView)> {
    members.map_values(|member: JsonMember| member@)
}

/// The JSON text that `serde_json` writes for the object with the given
/// members.
pub uninterp spec fn json_object_text(members: Seq<(Seq<char>, ScalarView)>) -> Seq<char>;

/// Renders an object with the given members as JSON text. The members go
/// into a `serde_json::Map` one by one, a later one replacing an earlier one
/// of the same key, and `serde_json::to_string` writes the map.
#[verifier::external_body]
pub(crate) fn render_object(members: &Vec<JsonMember>) -> (text: String)
    ensures
        text@ == json_object_text(member_views(members@)),
{
    let mut map = serde_json::Map::new();
    for member in members.iter() {
        let value = match &member.value {
            JsonScalar::Null => serde_json::Value::Null,
            JsonScalar::Bool(b) => serde_json::Value::Bool(*b),
            JsonScalar::Number(n) => serde_json::Value::from(*n),
            JsonScalar::Text(t) => serde_json::Value::String(t.clone()),
        };
        map.insert(member.key.clone(), value);
    }
    serde_json::to_string(&serde_json::Value::Object(map)).unwrap_or_default()
}

/// The hexadecimal digit for a value below 16, in lower case.
pub open spec fn hex_digit(value: nat) -> char {
    if value < 10 {
        (('0' as u8) + value) as char
    } else {
        (('a' as u8) + (value - 10)) as char
    }
}

/// The last `count` hexadecimal digits of `value`, the most significant
/// first.
pub open spec fn hex_digits(value: nat, count: nat) -> Seq<char>
    decreases count,
{
    if count == 0 {
        Seq::empty()
    } else {
        hex_digits(value / 16, (count - 1) as nat).push(hex_digit(value % 16))
    }
}

/// The text of the identifier that the number `id` spells: its 32
/// hexadecimal digits in lower case, in groups of 8, 4, 4, 4 and 12 with
/// hyphens between.
pub open spec fn uuid_text(id: u128) -> Seq<char> {
    hex_digits(id as nat / 0x1_0000_0000_0000_0000_0000_0000, 8) + seq!['-'] + hex_digits(
        id as nat / 0x1_0000_0000_0000_0000_0000,
        4,
    ) + seq!['-'] + hex_digits(id as nat / 0x1_0000_0000_0000_0000, 4) + seq!['-'] + hex_digits(
        id as nat / 0x1_0000_0000_0000,
        4,
    ) + seq!['-'] + hex_digits(id as nat, 12)
}

/// Writes an identifier as `uuid::Uuid` shows it, which is in the hyphenated
/// form in lower case.
#[verifier::external_body]
pub(crate) fn show_uuid(id: u128) -> (text: String)
    ensures
        text@ == uuid_text(id),
{
    uuid::Uuid::from_u128(id).to_string()
}

} // verus!
