//! JSON documents as the library reads them.
//!
//! Parsing is left to `serde_json`; what comes back is copied into a tree of
//! the library's own, which the request rules are stated over.

use crate::helpers::same_text;
use vstd::prelude::*;

verus! {

/// What a JSON value holds, as far as the request rules look into it.
#[derive(Debug)]
pub enum JsonData {
    Null,
    Bool(bool),
    /// A number, as its JSON numeral.
    Number(String),
    Text(String),
    /// An array; its elements are only kept in the value's text.
    Array,
    Object(Vec<JsonMember>),
}

/// A JSON value together with its compact JSON text.
#[derive(Debug)]
pub struct JsonValue {
    pub text: String,
    pub data: JsonData,
}

/// One member of a JSON object.
#[derive(Debug)]
pub struct JsonMember {
    pub key: String,
    pub value: JsonValue,
}

/// A `JsonData` as mathematical values.
pub enum JsonDataView {
    Null,
    Bool(bool),
    Number(Seq<char>),
    Text(Seq<char>),
    Array,
    Object(Seq<JsonMemberView>),
}

/// A `JsonValue` as mathematical values.
pub struct JsonValueView {
    pub text: Seq<char>,
    pub data: JsonDataView,
}

/// A `JsonMember` as mathematical values.
pub struct JsonMemberView {
    pub key: Seq<char>,
    pub value: JsonValueView,
}

/// The value `value` as mathematical values, through all its members.
pub open spec fn value_view(value: JsonValue) -> JsonValueView
    decreases value,
{
    JsonValueView {
        text: value.text@,
        data: match value.data {
            JsonData::Null => JsonDataView::Null,
            JsonData::Bool(b) => JsonDataView::Bool(b),
            JsonData::Number(numeral) => JsonDataView::Number(numeral@),
            JsonData::Text(text) => JsonDataView::Text(text@),
            JsonData::Array => JsonDataView::Array,
            JsonData::Object(members) => JsonDataView::Object(
                Seq::new(
                    members@.len(),
                    |i: int|
                        if 0 <= i < members@.len() {
                            JsonMemberView {
                                key: members@[i].key@,
                                value: value_view(members@[i].value),
                            }
                        } else {
                            arbitrary()
                        },
                ),
            ),
        },
    }
}

impl View for JsonValue {
    type V = JsonValueView;

    open spec fn view(&self) -> JsonValueView {
        value_view(*self)
    }
}

impl View for JsonMember {
    type V = JsonMemberView;

    open spec fn view(&self) -> JsonMemberView {
        JsonMemberView { key: self.key@, value: self.value@ }
    }
}

/// The members `members` as mathematical values.
pub open spec fn members_view(members: Seq<JsonMember>) -> Seq<JsonMemberView> {
    Seq::new(members.len(), |i: int| members[i]@)
}

/// A document, where there is one, as mathematical values.
pub open spec fn document_view(document: Option<JsonValue>) -> Option<JsonValueView> {
    match document {
        Some(value) => Some(value@),
        None => None,
    }
}

/// The view of an object holds the views of its members, in their order.
pub proof fn lemma_object_view(value: JsonValue)
    ensures
        value.data matches JsonData::Object(members) ==> value@.data == JsonDataView::Object(
            members_view(members@),
        ),
{
    if let JsonData::Object(members) = value.data {
        assert(value@.data->Object_0 =~= members_view(members@));
    }
}

/// `serde_json::Value`, a parsed JSON document. It is only carried from the
/// parser to the copy below.
#[verifier::external_type_specification]
#[verifier::external_body]
pub struct ExSerdeValue(serde_json::Value);

/// The document that `serde_json::from_str` reads from a text, copied into
/// the library's tree; nothing where it reports an error.
pub uninterp spec fn json_document(text: Seq<char>) -> Option<JsonValueView>;

/// Copies a `serde_json::Value` into the library's tree, variant by variant:
/// the text is what `Value::to_string` gives, a number is kept as what
/// `Number::to_string` gives, and the members of an object come in the order
/// in which `Map::iter` yields them.
#[verifier::external_body]
fn json_from_serde(value: &serde_json::Value) -> (copy: JsonValue) {
    let data = match value {
        serde_json::Value::Null => JsonData::Null,
        serde_json::Value::Bool(b) => JsonData::Bool(*b),
        serde_json::Value::Number(n) => JsonData::Number(n.to_string()),
        serde_json::Value::String(s) => JsonData::Text(s.clone()),
        serde_json::Value::Array(_) => JsonData::Array,
        serde_json::Value::Object(members) => JsonData::Object(
            members.iter().map(|(k, v)| JsonMember { key: k.clone(), value: json_from_serde(v) }).collect(),
        ),
    };
    JsonValue { text: value.to_string(), data }
}

/// `serde_json::from_str` at type `Value`: the result is a function of the
/// text alone, which is all that is claimed of it.
#[verifier::external_body]
pub(crate) fn json_parse(text: &str) -> (document: Option<JsonValue>)
    ensures
        document_view(document) == json_document(text@),
{
    match serde_json::from_str::<serde_json::Value>(text) {
        Ok(value) => Some(json_from_serde(&value)),
        Err(_) => None,
    }
}

/// The members of an object; none for any other value.
pub open spec fn members_of(value: JsonValueView) -> Seq<JsonMemberView> {
    match value.data {
        JsonDataView::Object(members) => members,
        _ => Seq::empty(),
    }
}

/// The value of the first of `members` that is named `key`.
pub open spec fn find_member(members: Seq<JsonMemberView>, key: Seq<char>) -> Option<JsonValueView>
    decreases members.len(),
{
    if members.len() == 0 {
        None
    } else if members[0].key == key {
        Some(members[0].value)
    } else {
        find_member(members.subrange(1, members.len() as int), key)
    }
}

/// The value of the first member of an object that is named `key`; nothing
/// where `value` is no object or has no such member.
pub open spec fn member_named(value: JsonValueView, key: Seq<char>) -> Option<JsonValueView> {
    find_member(members_of(value), key)
}

impl JsonValue {
    /// Looks up the member named `key` in an object.
    pub fn member<'a>(&'a self, key: &str) -> (found: Option<&'a JsonValue>)
        ensures
            found is Some <==> member_named(self@, key@) is Some,
            found matches Some(value) ==> Some(value@) == member_named(self@, key@),
    {
        proof {
            lemma_object_view(*self);
        }
        match &self.data {
            JsonData::Object(members) => {
                let ghost all = members_view(members@);
                let mut i: usize = 0;
                assert(all.subrange(0, all.len() as int) =~= all);
                while i < members.len()
                    invariant
                        i <= members.len(),
                        all == members_view(members@),
                        members_of(self@) == all,
                        find_member(all, key@) == find_member(
                            all.subrange(i as int, all.len() as int),
                            key@,
                        ),
                    decreases members.len() - i,
                {
                    let ghost rest = all.subrange(i as int, all.len() as int);
                    assert(rest[0] == members@[i as int]@);
                    assert(rest.subrange(1, rest.len() as int) =~= all.subrange(
                        i + 1,
                        all.len() as int,
                    ));
                    if same_text(members[i].key.as_str(), key) {
                        return Some(&members[i].value);
                    }
                    i += 1;
                }
                None
            },
            _ => None,
        }
    }
}

} // verus!
