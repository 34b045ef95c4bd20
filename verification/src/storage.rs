//! Storing a record: the file to create, and what each answer of the file
//! system means for the call.
//!
//! The library touches no file. It says which file is to be created, and is
//! told how creating it and writing it went.

use vstd::prelude::*;
use crate::error::RecordError;

verus! {

/// A file to be created, never one to be replaced.
#[derive(Clone, Debug, PartialEq, Eq)]
pub struct NewFile {
    pub name: String,
    pub contents: String,
}

/// How creating a file exclusively went.
#[derive(Clone, Copy, Debug, PartialEq, Eq, Structural)]
pub enum Opened {
    /// The file is new and open for writing.
    Created,
    /// A file of that name was there already.
    AlreadyExists,
    /// The file system refused: no permission, a name it does not take.
    Refused,
}

/// How writing the contents into the created file went.
#[derive(Clone, Copy, Debug, PartialEq, Eq, Structural)]
pub enum Written {
    Complete,
    Failed,
}

/// How a call that created its file ended.
#[derive(Clone, Copy, Debug, PartialEq, Eq, Structural)]
pub enum Stored {
    /// The file holds the record.
    Whole,
    /// The file was created but the write failed: the caller is warned and
    /// the call still counts as a success.
    WriteWarning,
}

/// What creating the file means for the call: only a created file lets it
/// go on.
pub open spec fn open_verdict(opened: Opened) -> Result<(), RecordError> {
    match opened {
        Opened::Created => Ok(()),
        Opened::AlreadyExists => Err(RecordError::FileExists),
        Opened::Refused => Err(RecordError::FileSystem),
    }
}

/// What writing means for the call: a failure is a warning, no error.
pub open spec fn write_verdict(written: Written) -> Stored {
    match written {
        Written::Complete => Stored::Whole,
        Written::Failed => Stored::WriteWarning,
    }
}

impl NewFile {
    /// The file `name` that holds `json` and a line break after it.
    pub fn holding(name: String, json: String) -> (file: NewFile)
        ensures
            file.name@ == name@,
            file.contents@ == json@.push('\n'),
    {
        proof {
            reveal_strlit("\n");
            assert(json@ + "\n"@ == json@.push('\n'));
        }
        NewFile { name, contents: json.concat("\n") }
    }
}

/// Decides after the attempt to create the file: `Ok` where the contents
/// are to be written next, the error where the call ends here.
pub fn after_open(opened: Opened) -> (verdict: Result<(), RecordError>)
    ensures
        verdict == open_verdict(opened),
{
    match opened {
        Opened::Created => Ok(()),
        Opened::AlreadyExists => Err(RecordError::FileExists),
        Opened::Refused => Err(RecordError::FileSystem),
    }
}

/// Decides after the write: the call has succeeded either way.
pub fn after_write(written: Written) -> (stored: Stored)
    ensures
        stored == write_verdict(written),
{
    match written {
        Written::Complete => Stored::Whole,
        Written::Failed => Stored::WriteWarning,
    }
}

/// A directory as storing sees it: the contents of each file, by name. It
/// stands for a file system that creates exclusively and takes every name.
pub struct Directory {
    pub files: Map<Seq<char>, Seq<char>>,
}

impl Directory {
    /// How creating `name` exclusively goes here.
    pub open spec fn create_new(self, name: Seq<char>) -> Opened {
        if self.files.contains_key(name) {
            Opened::AlreadyExists
        } else {
            Opened::Created
        }
    }

    /// The directory after a call to store the record of `json` under
    /// `name`, and how the call ended. A record without JSON fails before
    /// any file is touched. `written` says how the write went, and `left`
    /// what a failed write left in the file.
    pub open spec fn persisted(
        self,
        name: Seq<char>,
        json: Option<Seq<char>>,
        written: Written,
        left: Seq<char>,
    ) -> (Directory, Result<Stored, RecordError>) {
        match json {
            None => (self, Err(RecordError::Serialization)),
            Some(text) => match open_verdict(self.create_new(name)) {
                Err(error) => (self, Err(error)),
                Ok(_) => {
                    let kept = if written == Written::Complete {
                        text.push('\n')
                    } else {
                        left
                    };
                    (
                        Directory { files: self.files.insert(name, kept) },
                        Ok(write_verdict(written)),
                    )
                },
            },
        }
    }
}

/// Two calls for records of one file name. The first succeeds where its
/// record has JSON and the name is free. After that the second fails and
/// changes nothing: with `FileExists`, unless its record has no JSON. A file
/// that was written whole still holds what the first call gave it.
pub proof fn lemma_second_persist_is_rejected(
    directory: Directory,
    name: Seq<char>,
    first: Option<Seq<char>>,
    written: Written,
    left: Seq<char>,
    second: Option<Seq<char>>,
    written_again: Written,
    left_again: Seq<char>,
)
    ensures
        ({
            let (filled, first_result) = directory.persisted(name, first, written, left);
            let (after, second_result) = filled.persisted(name, second, written_again, left_again);
            &&& first_result is Ok <==> first is Some && !directory.files.contains_key(name)
            &&& first_result is Ok ==> {
                &&& after == filled
                &&& second_result is Err
                &&& second is Some ==> second_result == Err::<Stored, RecordError>(
                    RecordError::FileExists,
                )
                &&& written == Written::Complete ==> after.files[name] == first->0.push('\n')
            }
        }),
{
}

} // verus!
