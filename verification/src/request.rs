//! The request: art that a customer asked for, with no price yet.

use vstd::prelude::*;
use crate::error::RecordError;
use crate::json::{distinct_names, members_of, pretty_json, Field};
use crate::naming::{
    file_name, file_name_of, joined, lowercase_of, lowered, separator, texts, AMR_EXT,
};
use crate::record::{file_contents, persist, render, Record};
use crate::storage::{lemma_second_persist_is_rejected, Directory, NewFile, Stored, Written};
use crate::timestamp::{Moment, Timestamp};

verus! {

/// Art that a customer asked for.
#[derive(Clone, Debug, PartialEq, Eq)]
pub struct Request {
    pub id: String,
    /// When the record was made, in local time.
    pub date: Timestamp,
    pub customer: String,
    pub contact: String,
    pub art: String,
    pub description: String,
}

/// What a `Request` stands for.
pub struct RequestView {
    pub id: Seq<char>,
    pub date: Moment,
    pub customer: Seq<char>,
    pub contact: Seq<char>,
    pub art: Seq<char>,
    pub description: Seq<char>,
}

impl RequestView {
    /// The six members of the JSON object.
    pub open spec fn members(self) -> Seq<(Seq<char>, Seq<char>)> {
        seq![
            ("id"@, self.id),
            ("date"@, self.date.text()),
            ("customer"@, self.customer),
            ("contact"@, self.contact),
            ("art"@, self.art),
            ("description"@, self.description),
        ]
    }

    /// The file name: art and customer in lowercase.
    pub open spec fn file_name(self) -> Seq<char> {
        lowercase_of(self.art) + separator() + lowercase_of(self.customer) + seq!['.'] + AMR_EXT@
    }

    /// The JSON text, where serde_json gives one.
    pub open spec fn json(self) -> Option<Seq<char>> {
        pretty_json(self.members())
    }

    /// The text of the file: the JSON and a line break.
    pub open spec fn contents(self) -> Option<Seq<char>> {
        file_contents(self.json())
    }
}

impl View for Request {
    type V = RequestView;

    open spec fn view(&self) -> RequestView {
        RequestView {
            id: self.id@,
            date: self.date@,
            customer: self.customer@,
            contact: self.contact@,
            art: self.art@,
            description: self.description@,
        }
    }
}

/// The general file name of art and customer is the one written out.
pub proof fn lemma_request_file_name(request: RequestView)
    ensures
        file_name_of(seq![request.art, request.customer], AMR_EXT@) == request.file_name(),
{
    let lower = lowered(seq![request.art, request.customer]);
    reveal_with_fuel(joined, 3);
    assert(lower.drop_last() =~= seq![lowercase_of(request.art)]);
    assert(lower.last() == lowercase_of(request.customer));
}

/// No two members of a request's JSON object share a name.
pub proof fn lemma_request_names_differ(request: RequestView)
    ensures
        distinct_names(request.members()),
{
    reveal_strlit("id");
    reveal_strlit("date");
    reveal_strlit("customer");
    reveal_strlit("contact");
    reveal_strlit("art");
    reveal_strlit("description");
    let members = request.members();
    assert forall|i: int, j: int| 0 <= i < j < members.len() implies
        (#[trigger] members[i]).0 != (#[trigger] members[j]).0 by {
        if members[i].0 == members[j].0 {
            assert(members[i].0.len() == members[j].0.len());
            assert(members[i].0[0] == members[j].0[0]);
        }
    }
}

/// The members of the JSON object tell every field: two requests with the
/// same members have the same texts, and dates that are written alike.
pub proof fn lemma_request_members_tell_fields(first: RequestView, second: RequestView)
    requires
        first.members() == second.members(),
    ensures
        first.id == second.id,
        first.date.text() == second.date.text(),
        first.customer == second.customer,
        first.contact == second.contact,
        first.art == second.art,
        first.description == second.description,
{
    assert(first.members()[0] == second.members()[0]);
    assert(first.members()[1] == second.members()[1]);
    assert(first.members()[2] == second.members()[2]);
    assert(first.members()[3] == second.members()[3]);
    assert(first.members()[4] == second.members()[4]);
    assert(first.members()[5] == second.members()[5]);
}

/// Two requests whose art and customer agree up to case go to one file,
/// whatever else differs between them: once the first is stored, the call
/// for the second fails and leaves the directory as it was. It fails with
/// `FileExists`, unless the second has no JSON.
pub proof fn lemma_request_collision(
    directory: Directory,
    first: RequestView,
    second: RequestView,
    written: Written,
    left: Seq<char>,
    written_again: Written,
    left_again: Seq<char>,
)
    requires
        lowercase_of(first.art) == lowercase_of(second.art),
        lowercase_of(first.customer) == lowercase_of(second.customer),
    ensures
        first.file_name() == second.file_name(),
        ({
            let (filled, first_result) = directory.persisted(
                first.file_name(),
                first.json(),
                written,
                left,
            );
            let (after, second_result) = filled.persisted(
                second.file_name(),
                second.json(),
                written_again,
                left_again,
            );
            first_result is Ok ==> {
                &&& after == filled
                &&& second_result is Err
                &&& second.json() is Some ==> second_result == Err::<Stored, RecordError>(
                    RecordError::FileExists,
                )
            }
        }),
{
    lemma_second_persist_is_rejected(
        directory,
        first.file_name(),
        first.json(),
        written,
        left,
        second.json(),
        written_again,
        left_again,
    );
}

impl Record for Request {
    open spec fn members(&self) -> Seq<(Seq<char>, Seq<char>)> {
        self@.members()
    }

    open spec fn name_parts(&self) -> Seq<Seq<char>> {
        seq![self.art@, self.customer@]
    }

    open spec fn extension(&self) -> Seq<char> {
        AMR_EXT@
    }

    fn fields(&self) -> (fields: Vec<Field>) {
        let mut fields: Vec<Field> = Vec::new();
        fields.push(Field { name: "id".to_owned(), text: self.id.clone() });
        fields.push(Field { name: "date".to_owned(), text: self.date.to_rfc3339() });
        fields.push(Field { name: "customer".to_owned(), text: self.customer.clone() });
        fields.push(Field { name: "contact".to_owned(), text: self.contact.clone() });
        fields.push(Field { name: "art".to_owned(), text: self.art.clone() });
        fields.push(Field { name: "description".to_owned(), text: self.description.clone() });
        proof {
            assert(members_of(fields@) =~= self@.members());
            lemma_request_names_differ(self@);
        }
        fields
    }

    fn file_name(&self) -> (name: String) {
        let mut parts: Vec<&str> = Vec::new();
        parts.push(self.art.as_str());
        parts.push(self.customer.as_str());
        assert(texts(parts@) =~= self.name_parts());
        file_name(&parts, AMR_EXT)
    }
}

impl Request {
    /// The file that stores the request, named after art and customer. It
    /// is to be created exclusively.
    pub fn write_req(req: Request) -> (result: Result<NewFile, RecordError>)
        ensures
            match req@.contents() {
                Some(contents) => {
                    &&& result matches Ok(file)
                    &&& file.name@ == req@.file_name()
                    &&& file.contents@ == contents
                },
                None => result == Err::<NewFile, RecordError>(RecordError::Serialization),
            },
    {
        proof {
            lemma_request_file_name(req@);
        }
        persist(&req)
    }

    /// The request as JSON, to be printed with a line break after it.
    pub fn print_req(req: Request) -> (result: Result<String, RecordError>)
        ensures
            match req@.json() {
                Some(json) => result matches Ok(text) && text@ == json,
                None => result == Err::<String, RecordError>(RecordError::Serialization),
            },
    {
        render(&req)
    }
}

} // verus!
