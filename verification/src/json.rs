//! JSON as the library sees it.
//!
//! Reading goes through `serde_json`: a reply body is parsed into a
//! `serde_json::Value`, and the library looks into that value with the
//! accessors below.  Each accessor is a thin trusted wrapper around one
//! function of `serde_json`, and its contract says what that function
//! returns in terms of [`json_model`], what a value holds.  On top of them
//! stand the verified readers of fields that the rest of the library uses.
//!
//! Writing a request body is the library's own work, except for the quoting
//! of a string.

use vstd::prelude::*;
use crate::text::opt_view;

verus! {

/// `serde_json::Value`, a JSON value.  It is carried around as it is; what
/// it holds is [`json_model`].
#[verifier::external_type_specification]
#[verifier::external_body]
pub struct ExJsonValue(serde_json::Value);

/// `serde_json::Error`, why a text is no JSON document.  It is carried around
/// as it is; what it has to say is [`json_error_text`].
#[verifier::external_type_specification]
#[verifier::external_body]
pub struct ExJsonError(serde_json::Error);

/// What a `serde_json::Value` holds, one level deep: what is inside an array
/// or an object is again a `serde_json::Value`.
pub ghost enum JsonModel {
    /// The value `null`.
    Null,
    /// A truth value.
    Bool(bool),
    /// A number.  `unsigned` is the number itself where it is an integer from
    /// 0 to `u64::MAX`, and nothing where it is negative or has a fraction.
    Number { unsigned: Option<u64> },
    /// A string.
    Text(Seq<char>),
    /// An array, with its elements in their order.
    Array(Seq<serde_json::Value>),
    /// An object, with the member under each of its keys.
    Object(Map<Seq<char>, serde_json::Value>),
}

/// What a `serde_json::Value` holds.
pub uninterp spec fn json_model(value: serde_json::Value) -> JsonModel;

/// What `serde_json::from_str` makes of a text.
pub uninterp spec fn json_document(text: Seq<char>) -> Result<serde_json::Value, serde_json::Error>;

/// The message that a `serde_json::Error` displays.
pub uninterp spec fn json_error_text(error: serde_json::Error) -> Seq<char>;

/// The JSON string literal that `serde_json` writes for a text.
pub uninterp spec fn json_quoted(text: Seq<char>) -> Seq<char>;

/// The member of an object under a key; nothing where the value is no
/// object or has no such key.
pub open spec fn json_member(value: serde_json::Value, key: Seq<char>) -> Option<
    serde_json::Value,
> {
    match json_model(value) {
        JsonModel::Object(members) => if members.contains_key(key) {
            Some(members[key])
        } else {
            None
        },
        _ => None,
    }
}

/// The text of a string; nothing where the value is no string.
pub open spec fn json_text(value: serde_json::Value) -> Option<Seq<char>> {
    match json_model(value) {
        JsonModel::Text(t) => Some(t),
        _ => None,
    }
}

/// The number, where the value is an integer from 0 to `u64::MAX`.
pub open spec fn json_unsigned(value: serde_json::Value) -> Option<u64> {
    match json_model(value) {
        JsonModel::Number { unsigned } => unsigned,
        _ => None,
    }
}

/// The truth value; nothing where the value is none.
pub open spec fn json_flag(value: serde_json::Value) -> Option<bool> {
    match json_model(value) {
        JsonModel::Bool(b) => Some(b),
        _ => None,
    }
}

/// The elements of an array; nothing where the value is no array.
pub open spec fn json_items(value: serde_json::Value) -> Option<Seq<serde_json::Value>> {
    match json_model(value) {
        JsonModel::Array(elements) => Some(elements),
        _ => None,
    }
}

/// Whether the value is `null`.
pub open spec fn json_null(value: serde_json::Value) -> bool {
    json_model(value) is Null
}

/// Whether the value is an object.
pub open spec fn json_is_object(value: serde_json::Value) -> bool {
    json_model(value) is Object
}

/// Parses a text as one JSON document.
///
/// Trusted: the result is what `serde_json::from_str::<Value>` returns for
/// the text, which depends on the text alone.
#[verifier::external_body]
pub(crate) fn parse(text: &str) -> (r: Result<serde_json::Value, serde_json::Error>)
    ensures
        r == json_document(text@),
{
    serde_json::from_str::<serde_json::Value>(text)
}

/// The message of a parse error.
///
/// Trusted: the result is the text that the `Display` of
/// `serde_json::Error` writes, which depends on the error alone.
#[verifier::external_body]
pub(crate) fn error_text(error: &serde_json::Error) -> (r: String)
    ensures
        r@ == json_error_text(*error),
{
    error.to_string()
}

/// Looks a key up in a JSON object.
///
/// Trusted: `serde_json::Value::get` with a string key returns the member
/// stored under the key where the value is an object that has the key, and
/// nothing otherwise.
#[verifier::external_body]
pub(crate) fn member<'a>(value: &'a serde_json::Value, key: &str) -> (r: Option<
    &'a serde_json::Value,
>)
    ensures
        match r {
            Some(found) => json_model(*value) matches JsonModel::Object(members)
                && members.contains_key(key@) && members[key@] == *found,
            None => !(json_model(*value) matches JsonModel::Object(members)
                && members.contains_key(key@)),
        },
{
    value.get(key)
}

/// Reads a JSON string.
///
/// Trusted: `serde_json::Value::as_str` returns the string where the value
/// is one, and nothing otherwise.
#[verifier::external_body]
pub(crate) fn text<'a>(value: &'a serde_json::Value) -> (r: Option<&'a str>)
    ensures
        match r {
            Some(t) => json_model(*value) == JsonModel::Text(t@),
            None => !(json_model(*value) is Text),
        },
{
    value.as_str()
}

/// Reads a JSON number as an unsigned integer.
///
/// Trusted: `serde_json::Value::as_u64` returns the number where the value
/// is an integer from 0 to `u64::MAX`, and nothing otherwise.
#[verifier::external_body]
pub(crate) fn unsigned(value: &serde_json::Value) -> (r: Option<u64>)
    ensures
        r == match json_model(*value) {
            JsonModel::Number { unsigned } => unsigned,
            _ => None,
        },
{
    value.as_u64()
}

/// Reads a JSON truth value.
///
/// Trusted: `serde_json::Value::as_bool` returns the truth value where the
/// value is one, and nothing otherwise.
#[verifier::external_body]
pub(crate) fn flag(value: &serde_json::Value) -> (r: Option<bool>)
    ensures
        r == match json_model(*value) {
            JsonModel::Bool(b) => Some(b),
            _ => None,
        },
{
    value.as_bool()
}

/// Reads a JSON array.
///
/// Trusted: `serde_json::Value::as_array` returns the elements in their
/// order where the value is an array, and nothing otherwise.
#[verifier::external_body]
pub(crate) fn items<'a>(value: &'a serde_json::Value) -> (r: Option<&'a Vec<serde_json::Value>>)
    ensures
        match r {
            Some(elements) => json_model(*value) == JsonModel::Array(elements@),
            None => !(json_model(*value) is Array),
        },
{
    value.as_array()
}

/// Whether a value is the JSON `null`.
///
/// Trusted: `serde_json::Value::is_null` holds of `null` and of nothing else.
#[verifier::external_body]
pub(crate) fn is_null(value: &serde_json::Value) -> (r: bool)
    ensures
        r == (json_model(*value) is Null),
{
    value.is_null()
}

/// Whether a value is a JSON object.
///
/// Trusted: `serde_json::Value::is_object` holds of objects and of nothing
/// else.
#[verifier::external_body]
pub(crate) fn is_object(value: &serde_json::Value) -> (r: bool)
    ensures
        r == (json_model(*value) is Object),
{
    value.is_object()
}

/// Writes a text as a JSON string literal, quotes and escapes included.
///
/// Trusted: the result is what the `Display` of `serde_json::Value` writes
/// for `Value::String` of the text, which depends on the text alone.
#[verifier::external_body]
pub(crate) fn quote(text: &str) -> (r: String)
    ensures
        r@ == json_quoted(text@),
{
    serde_json::Value::String(text.to_owned()).to_string()
}

/// The member under `key` that holds something: neither missing nor `null`.
pub open spec fn json_present(value: serde_json::Value, key: Seq<char>) -> Option<
    serde_json::Value,
> {
    match json_member(value, key) {
        Some(found) => if json_null(found) {
            None
        } else {
            Some(found)
        },
        None => None,
    }
}

/// What an object holds under a key, seen as a text field.
pub ghost enum FieldView {
    /// The key is missing, or holds `null`.
    Absent,
    /// The key holds this string.
    Text(Seq<char>),
    /// The key holds something that is no string.
    Mismatch,
}

/// What `value` holds under `key`, seen as a text field.
pub open spec fn json_field(value: serde_json::Value, key: Seq<char>) -> FieldView {
    match json_present(value, key) {
        None => FieldView::Absent,
        Some(found) => match json_text(found) {
            Some(s) => FieldView::Text(s),
            None => FieldView::Mismatch,
        },
    }
}

/// Whether `key` can be read as an optional text: it is absent or a string.
pub open spec fn optional_ok(value: serde_json::Value, key: Seq<char>) -> bool {
    !(json_field(value, key) is Mismatch)
}

/// The optional text under `key`.
pub open spec fn optional_of(value: serde_json::Value, key: Seq<char>) -> Option<Seq<char>> {
    match json_field(value, key) {
        FieldView::Text(s) => Some(s),
        _ => None,
    }
}

/// Whether `key` can be read as a required text: it is a string.
pub open spec fn required_ok(value: serde_json::Value, key: Seq<char>) -> bool {
    json_field(value, key) is Text
}

/// The required text under `key`.
pub open spec fn required_of(value: serde_json::Value, key: Seq<char>) -> Seq<char> {
    json_field(value, key)->Text_0
}

/// What an object holds under a key, seen as a text field.
#[derive(Debug, Clone)]
pub enum Field {
    /// The key is missing, or holds `null`.
    Absent,
    /// The key holds this string.
    Text(String),
    /// The key holds something that is no string.
    Mismatch,
}

impl View for Field {
    type V = FieldView;

    open spec fn view(&self) -> FieldView {
        match self {
            Field::Absent => FieldView::Absent,
            Field::Text(s) => FieldView::Text(s@),
            Field::Mismatch => FieldView::Mismatch,
        }
    }
}

/// The member under `key` that holds something: neither missing nor `null`.
pub fn present<'a>(value: &'a serde_json::Value, key: &str) -> (r: Option<&'a serde_json::Value>)
    ensures
        match r {
            Some(found) => json_present(*value, key@) == Some(*found),
            None => json_present(*value, key@) is None,
        },
{
    match member(value, key) {
        Some(found) => if is_null(found) {
            None
        } else {
            Some(found)
        },
        None => None,
    }
}

/// Reads what `value` holds under `key` as a text field.
pub fn field(value: &serde_json::Value, key: &str) -> (r: Field)
    ensures
        r@ == json_field(*value, key@),
{
    match present(value, key) {
        None => Field::Absent,
        Some(found) => match text(found) {
            Some(s) => Field::Text(s.to_owned()),
            None => Field::Mismatch,
        },
    }
}

/// Reads an optional text: `Ok` with the text or with nothing where the key
/// is absent, `Err` where the key holds something that is no string.
pub fn optional_text(value: &serde_json::Value, key: &str) -> (r: Result<Option<String>, ()>)
    ensures
        r is Ok <==> optional_ok(*value, key@),
        r matches Ok(t) ==> opt_view(t) == optional_of(*value, key@),
{
    match field(value, key) {
        Field::Absent => Ok(None),
        Field::Text(s) => Ok(Some(s)),
        Field::Mismatch => Err(()),
    }
}

/// Reads a required text: the text where the key holds a string, nothing
/// otherwise.
pub fn required_text(value: &serde_json::Value, key: &str) -> (r: Option<String>)
    ensures
        r is Some <==> required_ok(*value, key@),
        r matches Some(t) ==> t@ == required_of(*value, key@),
{
    match field(value, key) {
        Field::Text(s) => Some(s),
        _ => None,
    }
}

/// One member of a JSON object to be written: its name and its text, or no
/// text for `null`.
pub type Member = (String, Option<String>);

/// The view of one member.
pub open spec fn member_view(member: Member) -> (Seq<char>, Option<Seq<char>>) {
    (member.0@, opt_view(member.1))
}

/// The views of the members.
pub open spec fn members_view(members: Seq<Member>) -> Seq<(Seq<char>, Option<Seq<char>>)> {
    members.map_values(|m: Member| member_view(m))
}

/// How one member is written: the quoted name, a colon, and the quoted text
/// or `null`.
pub open spec fn member_text(member: (Seq<char>, Option<Seq<char>>)) -> Seq<char> {
    json_quoted(member.0) + ":"@ + match member.1 {
        Some(s) => json_quoted(s),
        None => "null"@,
    }
}

/// How members are written: one after the other, with a comma between two.
pub open spec fn members_text(members: Seq<(Seq<char>, Option<Seq<char>>)>) -> Seq<char>
    decreases members.len(),
{
    if members.len() == 0 {
        Seq::empty()
    } else if members.len() == 1 {
        member_text(members[0])
    } else {
        members_text(members.drop_last()) + ","@ + member_text(members.last())
    }
}

/// How an object is written: its members between braces, in their order,
/// without white space.
pub open spec fn object_text(members: Seq<(Seq<char>, Option<Seq<char>>)>) -> Seq<char> {
    "{"@ + members_text(members) + "}"@
}

/// A member that holds a text.
pub fn text_member(name: &str, value: &str) -> (r: Member)
    ensures
        member_view(r) == (name@, Some(value@)),
{
    (name.to_owned(), Some(value.to_owned()))
}

/// A member that holds a text, or `null` where there is none.
pub fn optional_member(name: &str, value: &Option<String>) -> (r: Member)
    ensures
        member_view(r) == (name@, opt_view(*value)),
{
    match value {
        Some(s) => (name.to_owned(), Some(s.clone())),
        None => (name.to_owned(), None),
    }
}

/// Writes a JSON object with the given members.
pub fn write_object(members: &Vec<Member>) -> (r: String)
    ensures
        r@ == object_text(members_view(members@)),
{
    let ghost all = members_view(members@);
    let mut out = String::from_str("{");
    let mut i: usize = 0;
    while i < members.len()
        invariant
            i <= members@.len(),
            all == members_view(members@),
            out@ == "{"@ + members_text(all.subrange(0, i as int)),
        decreases members@.len() - i,
    {
        let ghost before = out@;
        if i > 0 {
            out.append(",");
        }
        let name = quote(members[i].0.as_str());
        out.append(name.as_str());
        out.append(":");
        match &members[i].1 {
            Some(s) => {
                let value = quote(s.as_str());
                out.append(value.as_str());
            },
            None => {
                out.append("null");
            },
        }
        proof {
            let upto = all.subrange(0, i as int + 1);
            assert(upto.drop_last() =~= all.subrange(0, i as int));
            assert(upto.last() == member_view(members@[i as int]));
            if i == 0 {
                assert(all.subrange(0, 0).len() == 0);
                assert(members_text(all.subrange(0, 0)) =~= Seq::<char>::empty());
                assert(upto[0] == upto.last());
                assert(out@ =~= "{"@ + members_text(upto));
            } else {
                assert(out@ =~= "{"@ + members_text(upto));
            }
        }
        i += 1;
    }
    assert(all.subrange(0, members@.len() as int) =~= all);
    out.append("}");
    out
}

} // verus!
