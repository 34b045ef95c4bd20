//! Why storing or printing a record failed.

use vstd::prelude::*;

verus! {

/// The hard failures. Each ends the call it arises in; nothing is retried.
#[derive(Clone, Copy, Debug, PartialEq, Eq, Structural)]
pub enum RecordError {
    /// The record could not be turned into JSON.
    Serialization,
    /// A file of the record's name exists already; it is left as it is.
    FileExists,
    /// The file could not be created for another reason.
    FileSystem,
}

impl RecordError {
    /// A line for the user.
    pub fn message(&self) -> (line: String)
        ensures
            line@ == match *self {
                RecordError::Serialization => "the record could not be written as JSON"@,
                RecordError::FileExists => "a file of this name exists already"@,
                RecordError::FileSystem => "the file could not be created"@,
            },
    {
        match self {
            RecordError::Serialization => "the record could not be written as JSON".to_owned(),
            RecordError::FileExists => "a file of this name exists already".to_owned(),
            RecordError::FileSystem => "the file could not be created".to_owned(),
        }
    }
}

} // verus!
