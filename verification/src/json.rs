//! The JSON text of a record: an object of text fields, pretty-printed by
//! serde_json.

use vstd::prelude::*;
use crate::error::RecordError;

verus! {

/// One member of a JSON object: its name and the text it holds.
#[derive(Clone, Debug, PartialEq, Eq)]
pub struct Field {
    pub name: String,
    pub text: String,
}

impl View for Field {
    type V = (Seq<char>, Seq<char>);

    open spec fn view(&self) -> (Seq<char>, Seq<char>) {
        (self.name@, self.text@)
    }
}

/// The names and texts of `fields`, in their order.
pub open spec fn members_of(fields: Seq<Field>) -> Seq<(Seq<char>, Seq<char>)> {
    fields.map_values(|field: Field| field@)
}

/// Whether no two members share a name.
pub open spec fn distinct_names(members: Seq<(Seq<char>, Seq<char>)>) -> bool {
    forall|i: int, j: int|
        0 <= i < j < members.len() ==> (#[trigger] members[i]).0 != (#[trigger] members[j]).0
}

/// The pretty-printed JSON object whose members are `members`, in that
/// order, each a string: what serde_json writes for it, or `None` where
/// serde_json refuses to write it.
pub uninterp spec fn pretty_json(members: Seq<(Seq<char>, Seq<char>)>) -> Option<Seq<char>>;

/// serde_json's error, carried from the call to `rendered`.
#[verifier::external_type_specification]
#[verifier::external_body]
pub struct ExJsonError(serde_json::Error);

/// Calls `serde_json::to_string_pretty` on a `serde_json::Map` that holds
/// each field as a JSON string under its name, in the order of `fields`;
/// the names differ, so the map has one member for each field. Whether the
/// call succeeds, and with which text, depends on the names and texts
/// alone; that it succeeds is not claimed.
#[verifier::external_body]
fn to_string_pretty(fields: &Vec<Field>) -> (outcome: Result<String, serde_json::Error>)
    requires
        distinct_names(members_of(fields@)),
    ensures
        match outcome {
            Ok(text) => pretty_json(members_of(fields@)) == Some(text@),
            Err(_) => pretty_json(members_of(fields@)) is None,
        },
{
    let object: serde_json::Map<String, serde_json::Value> = fields
        .iter()
        .map(|field| (field.name.clone(), serde_json::Value::String(field.text.clone())))
        .collect();
    serde_json::to_string_pretty(&object)
}

/// What the outcome of serializing means to the caller: the text, or
/// `RecordError::Serialization` whatever serde_json objected to.
pub fn rendered(outcome: Result<String, serde_json::Error>) -> (result: Result<
    String,
    RecordError,
>)
    ensures
        match outcome {
            Ok(text) => result == Ok::<String, RecordError>(text),
            Err(_) => result == Err::<String, RecordError>(RecordError::Serialization),
        },
{
    match outcome {
        Ok(text) => Ok(text),
        Err(_) => Err(RecordError::Serialization),
    }
}

/// The pretty-printed JSON object of `fields`, no two of which share a
/// name.
pub(crate) fn to_json(fields: &Vec<Field>) -> (result: Result<String, RecordError>)
    requires
        distinct_names(members_of(fields@)),
    ensures
        match pretty_json(members_of(fields@)) {
            Some(json) => result matches Ok(text) && text@ == json,
            None => result == Err::<String, RecordError>(RecordError::Serialization),
        },
{
    rendered(to_string_pretty(fields))
}

} // verus!
