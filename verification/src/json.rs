//! JSON documents: a tree that the message builders fill, its rendering as
//! text, and the lookup of a string inside a received document.

use vstd::prelude::*;
use vstd::string::*;

verus! {

/// A JSON document as the message builders see it.
#[derive(Debug)]
pub enum Json {
    Null,
    Bool(bool),
    Number(u64),
    Text(String),
    List(Vec<Json>),
    Object(Vec<(String, Json)>),
}

/// The mathematical value of a [`Json`] tree.
pub enum JsonValue {
    Null,
    Bool(bool),
    Number(nat),
    Text(Seq<char>),
    List(Seq<JsonValue>),
    Object(Seq<(Seq<char>, JsonValue)>),
}

impl Json {
    /// The value that this tree stands for.
    pub open spec fn value(self) -> JsonValue
        decreases self,
    {
        match self {
            Json::Null => JsonValue::Null,
            Json::Bool(b) => JsonValue::Bool(b),
            Json::Number(n) => JsonValue::Number(n as nat),
            Json::Text(s) => JsonValue::Text(s@),
            Json::List(items) => JsonValue::List(
                Seq::new(
                    items@.len(),
                    |i: int|
                        if 0 <= i < items@.len() {
                            items@[i].value()
                        } else {
                            JsonValue::Null
                        },
                ),
            ),
            Json::Object(fields) => JsonValue::Object(
                Seq::new(
                    fields@.len(),
                    |i: int|
                        if 0 <= i < fields@.len() {
                            (fields@[i].0@, fields@[i].1.value())
                        } else {
                            (Seq::empty(), JsonValue::Null)
                        },
                ),
            ),
        }
    }
}

/// The values of a run of documents.
pub open spec fn items_value(items: Seq<Json>) -> Seq<JsonValue> {
    Seq::new(items.len(), |i: int| items[i].value())
}

/// The values of a run of named documents.
pub open spec fn fields_value(fields: Seq<(String, Json)>) -> Seq<(Seq<char>, JsonValue)> {
    Seq::new(fields.len(), |i: int| (fields[i].0@, fields[i].1.value()))
}

impl Json {
    /// A string.
    pub fn text(content: &str) -> (document: Json)
        ensures
            document.value() == JsonValue::Text(content@),
    {
        Json::Text(String::from_str(content))
    }

    /// An array of the given items, in their order.
    pub fn list(items: Vec<Json>) -> (document: Json)
        ensures
            document.value() == JsonValue::List(items_value(items@)),
    {
        let document = Json::List(items);
        proof {
            assert(document.value()->List_0 =~= items_value(items@));
        }
        document
    }

    /// An object of the given fields, in their order.
    pub fn object(fields: Vec<(String, Json)>) -> (document: Json)
        ensures
            document.value() == JsonValue::Object(fields_value(fields@)),
    {
        let document = Json::Object(fields);
        proof {
            assert(document.value()->Object_0 =~= fields_value(fields@));
        }
        document
    }
}

/// Adds an item at the end of a list under construction.
pub fn add_item(items: &mut Vec<Json>, item: Json)
    ensures
        items_value(final(items)@) == items_value(old(items)@).push(item.value()),
{
    items.push(item);
    proof {
        assert(items_value(items@) =~= items_value(old(items)@).push(item.value()));
    }
}

/// Adds a field at the end of an object under construction.
pub fn add_field(fields: &mut Vec<(String, Json)>, name: &str, content: Json)
    ensures
        fields_value(final(fields)@) == fields_value(old(fields)@).push((name@, content.value())),
{
    fields.push((String::from_str(name), content));
    proof {
        assert(fields_value(fields@) =~= fields_value(old(fields)@).push((name@, content.value())));
    }
}

/// The text that `serde_json` writes for a document: its compact form.
pub uninterp spec fn json_text(document: JsonValue) -> Seq<char>;

/// The string that `serde_json` finds in a text at a JSON pointer: `None`
/// where the text is no JSON, the pointer leads nowhere, or what stands there
/// is no string.
pub uninterp spec fn json_string_at(text: Seq<char>, pointer: Seq<char>) -> Option<Seq<char>>;

/// `serde_json::Value`, carried through as it is.
#[verifier::external_type_specification]
#[verifier::external_body]
pub struct ExValue(serde_json::Value);

/// Builds the `serde_json::Value` with the same shape as `document`, variant
/// for variant. Nothing is claimed of the outcome here; [`render`] names the
/// text that is written from it.
#[verifier::external_body]
fn to_value(document: &Json) -> serde_json::Value {
    match document {
        Json::Null => serde_json::Value::Null,
        Json::Bool(b) => serde_json::Value::Bool(*b),
        Json::Number(n) => serde_json::Value::from(*n),
        Json::Text(s) => serde_json::Value::from(s.as_str()),
        Json::List(items) => items.iter().map(to_value).collect(),
        Json::Object(fields) => fields.iter().map(|f| (f.0.clone(), to_value(&f.1))).collect(),
    }
}

/// Calls `serde_json::Value::to_string` on the value built from `document`.
/// The contract gives the text a name: it depends on the document alone.
#[verifier::external_body]
pub(crate) fn render(document: &Json) -> (text: String)
    ensures
        text@ == json_text(document.value()),
{
    to_value(document).to_string()
}

/// Calls `serde_json::from_str` on `text` and `serde_json::Value::pointer`
/// on what was parsed, and hands back the string found there, if any. The
/// contract gives that outcome a name: it depends on the two arguments alone.
#[verifier::external_body]
pub(crate) fn string_at(text: &str, pointer: &str) -> (found: Option<String>)
    ensures
        found is Some == json_string_at(text@, pointer@) is Some,
        found is Some ==> found->0@ == json_string_at(text@, pointer@)->0,
{
    let parsed: Option<serde_json::Value> = serde_json::from_str(text).ok();
    parsed.as_ref().and_then(|v| v.pointer(pointer)).and_then(|v| v.as_str()).map(String::from)
}

} // verus!
