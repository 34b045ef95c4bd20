//! The commission: art that a customer ordered at a price.

use vstd::prelude::*;
use crate::error::RecordError;
use crate::json::{distinct_names, members_of, pretty_json, Field};
use crate::naming::{
    file_name, file_name_of, joined, lowercase_of, lowered, separator, texts, AMC_EXT,
};
use crate::record::{file_contents, persist, render, Record};
use crate::storage::{lemma_second_persist_is_rejected, Directory, NewFile, Stored, Written};
use crate::timestamp::{Moment, Timestamp};

verus! {

/// Art that a customer commissioned.
#[derive(Clone, Debug, PartialEq, Eq)]
pub struct Commission {
    pub id: String,
    /// When the record was made, in local time.
    pub date: Timestamp,
    pub art: String,
    pub customer: String,
    pub contact: String,
    /// The price as it was given, with its currency sign or without.
    pub price: String,
    /// How the customer pays.
    pub payment: String,
    pub description: String,
}

/// What a `Commission` stands for.
pub struct CommissionView {
    pub id: Seq<char>,
    pub date: Moment,
    pub art: Seq<char>,
    pub customer: Seq<char>,
    pub contact: Seq<char>,
    pub price: Seq<char>,
    pub payment: Seq<char>,
    pub description: Seq<char>,
}

impl CommissionView {
    /// The eight members of the JSON object.
    pub open spec fn members(self) -> Seq<(Seq<char>, Seq<char>)> {
        seq![
            ("id"@, self.id),
            ("date"@, self.date.text()),
            ("art"@, self.art),
            ("customer"@, self.customer),
            ("contact"@, self.contact),
            ("price"@, self.price),
            ("payment"@, self.payment),
            ("description"@, self.description),
        ]
    }

    /// The file name: art and customer in lowercase.
    pub open spec fn file_name(self) -> Seq<char> {
        lowercase_of(self.art) + separator() + lowercase_of(self.customer) + seq!['.'] + AMC_EXT@
    }

    /// The JSON text, where serde_json gives one.
    pub open spec fn json(self) -> Option<Seq<char>> {
        pretty_json(self.members())
    }

    /// The text of the file: the JSON and a line break.
    pub open spec fn contents(self) -> Option<Seq<char>> {
        file_contents(self.json())
    }
}

impl View for Commission {
    type V = CommissionView;

    open spec fn view(&self) -> CommissionView {
        CommissionView {
            id: self.id@,
            date: self.date@,
            art: self.art@,
            customer: self.customer@,
            contact: self.contact@,
            price: self.price@,
            payment: self.payment@,
            description: self.description@,
        }
    }
}

/// The general file name of art and customer is the one written out.
pub proof fn lemma_commission_file_name(commission: CommissionView)
    ensures
        file_name_of(seq![commission.art, commission.customer], AMC_EXT@)
            == commission.file_name(),
{
    let lower = lowered(seq![commission.art, commission.customer]);
    reveal_with_fuel(joined, 3);
    assert(lower.drop_last() =~= seq![lowercase_of(commission.art)]);
    assert(lower.last() == lowercase_of(commission.customer));
}

/// No two members of a commission's JSON object share a name.
pub proof fn lemma_commission_names_differ(commission: CommissionView)
    ensures
        distinct_names(commission.members()),
{
    reveal_strlit("id");
    reveal_strlit("date");
    reveal_strlit("art");
    reveal_strlit("customer");
    reveal_strlit("contact");
    reveal_strlit("price");
    reveal_strlit("payment");
    reveal_strlit("description");
    let members = commission.members();
    assert forall|i: int, j: int| 0 <= i < j < members.len() implies
        (#[trigger] members[i]).0 != (#[trigger] members[j]).0 by {
        if members[i].0 == members[j].0 {
            assert(members[i].0.len() == members[j].0.len());
            assert(members[i].0[0] == members[j].0[0]);
        }
    }
}

/// The members of the JSON object tell every field: two commissions with
/// the same members have the same texts, and dates that are written alike.
pub proof fn lemma_commission_members_tell_fields(first: CommissionView, second: CommissionView)
    requires
        first.members() == second.members(),
    ensures
        first.id == second.id,
        first.date.text() == second.date.text(),
        first.art == second.art,
        first.customer == second.customer,
        first.contact == second.contact,
        first.price == second.price,
        first.payment == second.payment,
        first.description == second.description,
{
    assert(first.members()[0] == second.members()[0]);
    assert(first.members()[1] == second.members()[1]);
    assert(first.members()[2] == second.members()[2]);
    assert(first.members()[3] == second.members()[3]);
    assert(first.members()[4] == second.members()[4]);
    assert(first.members()[5] == second.members()[5]);
    assert(first.members()[6] == second.members()[6]);
    assert(first.members()[7] == second.members()[7]);
}

/// Two commissions whose art and customer agree up to case go to one file,
/// whatever else differs between them: once the first is stored, the call
/// for the second fails and leaves the directory as it was. It fails with
/// `FileExists`, unless the second has no JSON.
pub proof fn lemma_commission_collision(
    directory: Directory,
    first: CommissionView,
    second: CommissionView,
    written: Written,
    left: Seq<char>,
    written_again: Written,
    left_again: Seq<char>,
)
    requires
        lowercase_of(first.art) == lowercase_of(second.art),
        lowercase_of(first.customer) == lowercase_of(second.customer),
    ensures
        first.file_name() == second.file_name(),
        ({
            let (filled, first_result) = directory.persisted(
                first.file_name(),
                first.json(),
                written,
                left,
            );
            let (after, second_result) = filled.persisted(
                second.file_name(),
                second.json(),
                written_again,
                left_again,
            );
            first_result is Ok ==> {
                &&& after == filled
                &&& second_result is Err
                &&& second.json() is Some ==> second_result == Err::<Stored, RecordError>(
                    RecordError::FileExists,
                )
            }
        }),
{
    lemma_second_persist_is_rejected(
        directory,
        first.file_name(),
        first.json(),
        written,
        left,
        second.json(),
        written_again,
        left_again,
    );
}

impl Record for Commission {
    open spec fn members(&self) -> Seq<(Seq<char>, Seq<char>)> {
        self@.members()
    }

    open spec fn name_parts(&self) -> Seq<Seq<char>> {
        seq![self.art@, self.customer@]
    }

    open spec fn extension(&self) -> Seq<char> {
        AMC_EXT@
    }

    fn fields(&self) -> (fields: Vec<Field>) {
        let mut fields: Vec<Field> = Vec::new();
        fields.push(Field { name: "id".to_owned(), text: self.id.clone() });
        fields.push(Field { name: "date".to_owned(), text: self.date.to_rfc3339() });
        fields.push(Field { name: "art".to_owned(), text: self.art.clone() });
        fields.push(Field { name: "customer".to_owned(), text: self.customer.clone() });
        fields.push(Field { name: "contact".to_owned(), text: self.contact.clone() });
        fields.push(Field { name: "price".to_owned(), text: self.price.clone() });
        fields.push(Field { name: "payment".to_owned(), text: self.payment.clone() });
        fields.push(Field { name: "description".to_owned(), text: self.description.clone() });
        proof {
            assert(members_of(fields@) =~= self@.members());
            lemma_commission_names_differ(self@);
        }
        fields
    }

    fn file_name(&self) -> (name: String) {
        let mut parts: Vec<&str> = Vec::new();
        parts.push(self.art.as_str());
        parts.push(self.customer.as_str());
        assert(texts(parts@) =~= self.name_parts());
        file_name(&parts, AMC_EXT)
    }
}

impl Commission {
    /// The file that stores the commission, named after art and customer.
    /// It is to be created exclusively.
    pub fn write_comm(comm: Commission) -> (result: Result<NewFile, RecordError>)
        ensures
            match comm@.contents() {
                Some(contents) => {
                    &&& result matches Ok(file)
                    &&& file.name@ == comm@.file_name()
                    &&& file.contents@ == contents
                },
                None => result == Err::<NewFile, RecordError>(RecordError::Serialization),
            },
    {
        proof {
            lemma_commission_file_name(comm@);
        }
        persist(&comm)
    }

    /// The commission as JSON, to be printed with a line break after it.
    pub fn print_comm(comm: Commission) -> (result: Result<String, RecordError>)
        ensures
            match comm@.json() {
                Some(json) => result matches Ok(text) && text@ == json,
                None => result == Err::<String, RecordError>(RecordError::Serialization),
            },
    {
        render(&comm)
    }
}

} // verus!
