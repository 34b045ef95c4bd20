//! What the three kinds of record share: a JSON object, a file name, and the
//! two operations on them.

use vstd::prelude::*;
use crate::error::RecordError;
use crate::json::{distinct_names, members_of, pretty_json, to_json, Field};
use crate::naming::file_name_of;
use crate::storage::NewFile;

verus! {

/// A kind of record: what its JSON object holds and what its file is called.
pub trait Record {
    /// The members of the record's JSON object, in the order of its schema.
    spec fn members(&self) -> Seq<(Seq<char>, Seq<char>)>;

    /// The texts that name the record's file, in their order.
    spec fn name_parts(&self) -> Seq<Seq<char>>;

    /// The extension that tells the kind.
    spec fn extension(&self) -> Seq<char>;

    /// The record as fields, no two under one name.
    fn fields(&self) -> (fields: Vec<Field>)
        ensures
            members_of(fields@) == self.members(),
            distinct_names(self.members()),
    ;

    /// The name of the record's file.
    fn file_name(&self) -> (name: String)
        ensures
            name@ == file_name_of(self.name_parts(), self.extension()),
    ;
}

/// The text of the file that holds `json`: the JSON and a line break.
pub open spec fn file_contents(json: Option<Seq<char>>) -> Option<Seq<char>> {
    match json {
        Some(text) => Some(text.push('\n')),
        None => None,
    }
}

/// The record as pretty-printed JSON, for printing.
pub fn render<R: Record>(record: &R) -> (result: Result<String, RecordError>)
    ensures
        match pretty_json(record.members()) {
            Some(json) => result matches Ok(text) && text@ == json,
            None => result == Err::<String, RecordError>(RecordError::Serialization),
        },
{
    let fields = record.fields();
    to_json(&fields)
}

/// The file that stores the record. It is to be created exclusively: where
/// a file of its name exists, the record is not stored.
pub fn persist<R: Record>(record: &R) -> (result: Result<NewFile, RecordError>)
    ensures
        match file_contents(pretty_json(record.members())) {
            Some(contents) => {
                &&& result matches Ok(file)
                &&& file.name@ == file_name_of(record.name_parts(), record.extension())
                &&& file.contents@ == contents
            },
            None => result == Err::<NewFile, RecordError>(RecordError::Serialization),
        },
{
    match render(record) {
        Ok(json) => Ok(NewFile::holding(record.file_name(), json)),
        Err(error) => Err(error),
    }
}

} // verus!
