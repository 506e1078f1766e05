//! Reading a JSON object with `serde_json`.
//!
//! The parser is not verified. What it returns is handed on as plain values, one
//! `JsonMember` for each member of the object, and the verified code takes it from there.

use crate::text::option_view;
use vstd::prelude::*;

verus! {

/// One member of a JSON object, as far as the engine looks at it.
#[derive(Clone, Debug, PartialEq, Eq)]
pub struct JsonMember {
    /// The member's name.
    pub key: String,
    /// The member's value, where that is a JSON string.
    pub string: Option<String>,
    /// Whether the member's value is `null`.
    pub is_null: bool,
    /// The member's value, written out as compact JSON.
    pub json: String,
}

/// The mathematical content of a `JsonMember`.
pub struct JsonMemberView {
    pub key: Seq<char>,
    pub string: Option<Seq<char>>,
    pub is_null: bool,
    pub json: Seq<char>,
}

impl View for JsonMember {
    type V = JsonMemberView;

    open spec fn view(&self) -> JsonMemberView {
        JsonMemberView {
            key: self.key@,
            string: option_view(self.string),
            is_null: self.is_null,
            json: self.json@,
        }
    }
}

/// The mathematical content of a list of members.
pub open spec fn members_view(members: Seq<JsonMember>) -> Seq<JsonMemberView> {
    members.map_values(|m: JsonMember| m@)
}

/// The error type of `serde_json`. Nothing is read from it.
#[verifier::external_type_specification]
#[verifier::external_body]
pub struct ExJsonError(serde_json::Error);

/// What `serde_json` reads `text` as: the members of the one JSON object that `text`
/// holds, in the order in which `serde_json::Map` hands them out; or `None` where
/// `serde_json` does not accept `text` as one JSON object.
pub uninterp spec fn json_object_members(text: Seq<char>) -> Option<Seq<JsonMemberView>>;

/// Parses `text` with `serde_json::from_str` into a `serde_json::Map` and describes
/// each entry: its key, `Value::as_str`, `Value::is_null`, and the compact text that
/// `Value`'s `Display` writes.
///
/// Not verified. The contract claims only that the outcome is a function of `text`:
/// it is what `json_object_members` stands for.
#[verifier::external_body]
pub(crate) fn parse_json_object(text: &str) -> (parsed: Result<Vec<JsonMember>, serde_json::Error>)
    ensures
        match parsed {
            Ok(members) => json_object_members(text@) == Some(members_view(members@)),
            Err(_) => json_object_members(text@) is None,
        },
{
    let object: serde_json::Map<String, serde_json::Value> = serde_json::from_str(text)?;
    let mut members = Vec::new();
    for (key, value) in object {
        let string = value.as_str().map(String::from);
        members.push(JsonMember { key, string, is_null: value.is_null(), json: value.to_string() });
    }
    Ok(members)
}

} // verus!
