//! JSON texts whose members are looked at or put together one by one.
use crate::text::same_text;
use serde_json::{from_str, Map as JsonMap, Value};
use std::collections::BTreeMap;
use vstd::prelude::*;

verus! {

/// A member of a JSON object: its name, and the JSON text of its value unless that is null.
pub struct JsonField {
    pub name: String,
    pub value: Option<String>,
}

/// The mathematical content of a [`JsonField`].
pub struct JsonFieldView {
    pub name: Seq<char>,
    pub value: Option<Seq<char>>,
}

impl DeepView for JsonField {
    type V = JsonFieldView;

    open spec fn deep_view(&self) -> JsonFieldView {
        JsonFieldView { name: self.name@, value: self.value.deep_view() }
    }
}

/// A text, a number or null.
pub enum JsonScalar {
    Text(String),
    Number(u64),
    Null,
}

/// The mathematical content of a [`JsonScalar`].
pub enum JsonScalarView {
    Text(Seq<char>),
    Number(u64),
    Null,
}

impl View for JsonScalar {
    type V = JsonScalarView;

    open spec fn view(&self) -> JsonScalarView {
        match self {
            JsonScalar::Text(text) => JsonScalarView::Text(text@),
            JsonScalar::Number(number) => JsonScalarView::Number(*number),
            JsonScalar::Null => JsonScalarView::Null,
        }
    }
}

/// A member of a JSON object whose value is a text, a number or null.
pub struct JsonMember {
    pub name: String,
    pub value: JsonScalar,
}

/// The mathematical content of a [`JsonMember`].
pub struct JsonMemberView {
    pub name: Seq<char>,
    pub value: JsonScalarView,
}

impl DeepView for JsonMember {
    type V = JsonMemberView;

    open spec fn deep_view(&self) -> JsonMemberView {
        JsonMemberView { name: self.name@, value: self.value@ }
    }
}

/// The members that `serde_json::from_str` reads out of the text of an object, sorted by their
/// names, or the text of its error.
pub uninterp spec fn json_fields(text: Seq<char>) -> Result<Seq<JsonFieldView>, Seq<char>>;

/// The text that `serde_json::from_str` reads out of the JSON text of a string, or the text of its
/// error.
pub uninterp spec fn json_string(text: Seq<char>) -> Result<Seq<char>, Seq<char>>;

/// Whether `serde_json::from_str` accepts a text as a `serde_json::Value`.
pub uninterp spec fn is_json(text: Seq<char>) -> bool;

/// The text that `serde_json::Value` displays for an object whose members are all texts.
pub uninterp spec fn texts_json(members: Seq<(Seq<char>, Seq<char>)>) -> Seq<char>;

/// The text that `serde_json::Value` displays for an object of two members: one is a text, the
/// other has the given JSON text.
pub uninterp spec fn labelled_json(
    label: Seq<char>,
    text: Seq<char>,
    name: Seq<char>,
    value: Seq<char>,
) -> Seq<char>;

/// The text that `serde_json::Value` displays for the object in a text once `serde_json::Map::remove`
/// has taken the member of the given name out of it, or `None` where `serde_json::from_str` finds no
/// object.
pub uninterp spec fn without_member(text: Seq<char>, name: Seq<char>) -> Option<Seq<char>>;

/// The text that `serde_json::Value` displays for an object whose one member is a list of objects.
pub uninterp spec fn records_json(name: Seq<char>, records: Seq<Seq<JsonMemberView>>) -> Seq<char>;

/// Whether the members are those that a text is read as.
pub open spec fn fields_read_as(text: Seq<char>, fields: Seq<JsonFieldView>) -> bool {
    json_fields(text) matches Ok(read) && read == fields
}

/// Whether a JSON text is read as the given text.
pub open spec fn string_read_as(text: Seq<char>, said: Seq<char>) -> bool {
    json_string(text) matches Ok(read) && read == said
}

/// Calls `serde_json::from_str` for a map from names to optional `serde_json::Value`s, and displays
/// the values. Claimed: the members, and the text of the error where it refuses, depend on the
/// text alone.
#[verifier::external_body]
fn parse_fields(text: &str) -> (r: Result<Vec<JsonField>, String>)
    ensures
        match r {
            Ok(fields) => fields_read_as(text@, fields.deep_view()),
            Err(error) => json_fields(text@) matches Err(said) && said == error@,
        },
{
    let fields: BTreeMap<String, Option<Value>> = from_str(text).map_err(|e| e.to_string())?;
    let show = |value: Option<Value>| value.map(|v| v.to_string());
    Ok(fields.into_iter().map(|(name, value)| JsonField { name, value: show(value) }).collect())
}

/// Calls `serde_json::from_str` for a `String`. Claimed: the result, and the text of the error
/// where it refuses, depend on the text alone.
#[verifier::external_body]
fn parse_string(text: &str) -> (r: Result<String, String>)
    ensures
        match r {
            Ok(said) => string_read_as(text@, said@),
            Err(error) => json_string(text@) matches Err(said) && said == error@,
        },
{
    from_str(text).map_err(|e| e.to_string())
}

/// Displays a `serde_json::Value` object whose members are all texts. Claimed: the text depends on
/// the members alone, and `serde_json::from_str` accepts it.
#[verifier::external_body]
fn display_texts(members: &Vec<(String, String)>) -> (r: String)
    ensures
        r@ == texts_json(members.deep_view()),
        is_json(r@),
{
    let list = members.iter().map(|(name, text)| (name.clone(), Value::String(text.clone())));
    Value::Object(list.collect::<JsonMap<String, Value>>()).to_string()
}

/// Calls `serde_json::from_str` for the value of one member, and displays a `serde_json::Value`
/// object of a text and that member. Claimed: there is a result where the value is accepted, and it
/// depends on the arguments alone.
#[verifier::external_body]
fn display_labelled(label: &str, text: &str, name: &str, value: &str) -> (r: Option<String>)
    ensures
        r is Some == is_json(value@),
        r matches Some(shown) ==> shown@ == labelled_json(label@, text@, name@, value@),
{
    let value: Value = from_str(value).ok()?;
    let text = Value::String(text.to_owned());
    let members = [(label.to_owned(), text), (name.to_owned(), value)];
    Some(Value::Object(members.into_iter().collect::<JsonMap<String, Value>>()).to_string())
}

/// Calls `serde_json::from_str` for a `serde_json::Map`, takes a member out with its `remove` and
/// displays the object. Claimed: the result depends on the arguments alone, and there is one for
/// every text whose members can be read.
#[verifier::external_body]
fn remove_member(text: &str, name: &str) -> (r: Option<String>)
    ensures
        r.deep_view() == without_member(text@, name@),
        json_fields(text@) is Ok ==> r is Some,
{
    let mut object: JsonMap<String, Value> = from_str(text).ok()?;
    object.remove(name);
    Some(Value::Object(object).to_string())
}

/// Displays a `serde_json::Value` object whose one member is a list of objects of texts, numbers and
/// nulls. Claimed: the text depends on the arguments alone, and `serde_json::from_str` accepts it.
#[verifier::external_body]
fn display_records(name: &str, records: &Vec<Vec<JsonMember>>) -> (r: String)
    ensures
        r@ == records_json(name@, records.deep_view()),
        is_json(r@),
{
    let show = |member: &JsonMember| (member.name.clone(), match &member.value {
        JsonScalar::Text(text) => Value::String(text.clone()),
        JsonScalar::Number(number) => Value::from(*number),
        JsonScalar::Null => Value::Null,
    });
    let list = records.iter().map(|record| Value::Object(record.iter().map(show).collect()));
    let member = (name.to_owned(), Value::Array(list.collect()));
    Value::Object([member].into_iter().collect()).to_string()
}

/// Reads the members of a JSON object, or says in words why it cannot.
pub fn read_fields(text: &str) -> (r: Result<Vec<JsonField>, String>)
    ensures
        match r {
            Ok(fields) => fields_read_as(text@, fields.deep_view()),
            Err(error) => json_fields(text@) matches Err(said) && said == error@,
        },
{
    parse_fields(text)
}

/// Reads the text out of a JSON string, or says in words why it cannot.
pub fn read_string(text: &str) -> (r: Result<String, String>)
    ensures
        match r {
            Ok(said) => string_read_as(text@, said@),
            Err(error) => json_string(text@) matches Err(said) && said == error@,
        },
{
    parse_string(text)
}

/// Takes the member of the given name out of a JSON object. There is none where the text is not one.
pub fn drop_member(text: &str, name: &str) -> (r: Option<String>)
    ensures
        r.deep_view() == without_member(text@, name@),
        json_fields(text@) is Ok ==> r is Some,
{
    remove_member(text, name)
}

/// Writes a JSON object whose one member is a list of objects.
pub fn write_records(name: &str, records: &Vec<Vec<JsonMember>>) -> (r: String)
    ensures
        r@ == records_json(name@, records.deep_view()),
        is_json(r@),
{
    display_records(name, records)
}

/// Writes a JSON object whose members are all texts.
pub fn write_texts(members: &Vec<(String, String)>) -> (r: String)
    ensures
        r@ == texts_json(members.deep_view()),
        is_json(r@),
{
    display_texts(members)
}

/// Writes a JSON object of a text and of a member whose JSON text is given. There is none where
/// that text is not JSON.
pub fn write_labelled(label: &str, text: &str, name: &str, value: &str) -> (r: Option<String>)
    ensures
        r is Some == is_json(value@),
        r matches Some(shown) ==> shown@ == labelled_json(label@, text@, name@, value@),
{
    display_labelled(label, text, name, value)
}

/// The value of the first member of the given name: `None` where there is none, `Some(None)` where
/// it is null.
pub open spec fn field_value(fields: Seq<JsonFieldView>, name: Seq<char>) -> Option<
    Option<Seq<char>>,
>
    decreases fields.len(),
{
    if fields.len() == 0 {
        None
    } else if fields[0].name == name {
        Some(fields[0].value)
    } else {
        field_value(fields.drop_first(), name)
    }
}

/// Finds the first member of the given name.
pub fn find_field<'a>(fields: &'a Vec<JsonField>, name: &str) -> (r: Option<&'a JsonField>)
    ensures
        match r {
            Some(field) => field_value(fields.deep_view(), name@) == Some(field.value.deep_view()),
            None => field_value(fields.deep_view(), name@) is None,
        },
{
    let ghost all = fields.deep_view();
    assert(all.skip(0) =~= all);
    for i in 0..fields.len()
        invariant
            all == fields.deep_view(),
            field_value(all, name@) == field_value(all.skip(i as int), name@),
    {
        assert(all.skip(i as int)[0] == fields@[i as int].deep_view());
        assert(all.skip(i as int).drop_first() =~= all.skip(i + 1));
        if same_text(fields[i].name.as_str(), name) {
            return Some(&fields[i]);
        }
    }
    None
}

} // verus!
