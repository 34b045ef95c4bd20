//! The auction slot: a place in a "your character here" batch that a
//! customer won.

use vstd::prelude::*;
use crate::error::RecordError;
use crate::json::{distinct_names, members_of, pretty_json, Field};
use crate::naming::{
    file_name, file_name_of, joined, lowercase_of, lowered, separator, texts, AMY_EXT,
};
use crate::record::{file_contents, persist, render, Record};
use crate::storage::{lemma_second_persist_is_rejected, Directory, NewFile, Stored, Written};
use crate::timestamp::{Moment, Timestamp};

verus! {

/// An auction slot that a customer won.
#[derive(Clone, Debug, PartialEq, Eq)]
pub struct YCH {
    pub id: String,
    /// When the record was made, in local time.
    pub date: Timestamp,
    pub customer: String,
    pub reference: String,
    /// The batch that was auctioned.
    pub art: String,
    /// The slot that the customer won.
    pub slot: String,
    pub contact: String,
    /// The price as it was given, with its currency sign or without.
    pub price: String,
    /// How the customer pays.
    pub payment: String,
}

/// What a `YCH` stands for.
pub struct YchView {
    pub id: Seq<char>,
    pub date: Moment,
    pub customer: Seq<char>,
    pub reference: Seq<char>,
    pub art: Seq<char>,
    pub slot: Seq<char>,
    pub contact: Seq<char>,
    pub price: Seq<char>,
    pub payment: Seq<char>,
}

impl YchView {
    /// The nine members of the JSON object.
    pub open spec fn members(self) -> Seq<(Seq<char>, Seq<char>)> {
        seq![
            ("id"@, self.id),
            ("date"@, self.date.text()),
            ("customer"@, self.customer),
            ("reference"@, self.reference),
            ("art"@, self.art),
            ("slot"@, self.slot),
            ("contact"@, self.contact),
            ("price"@, self.price),
            ("payment"@, self.payment),
        ]
    }

    /// The file name: art, slot and customer in lowercase.
    pub open spec fn file_name(self) -> Seq<char> {
        lowercase_of(self.art) + separator() + lowercase_of(self.slot) + separator()
            + lowercase_of(self.customer) + seq!['.'] + AMY_EXT@
    }

    /// The JSON text, where serde_json gives one.
    pub open spec fn json(self) -> Option<Seq<char>> {
        pretty_json(self.members())
    }

    /// The text of the file: the JSON and a line break.
    pub open spec fn contents(self) -> Option<Seq<char>> {
        file_contents(self.json())
    }
}

impl View for YCH {
    type V = YchView;

    open spec fn view(&self) -> YchView {
        YchView {
            id: self.id@,
            date: self.date@,
            customer: self.customer@,
            reference: self.reference@,
            art: self.art@,
            slot: self.slot@,
            contact: self.contact@,
            price: self.price@,
            payment: self.payment@,
        }
    }
}

/// The general file name of art, slot and customer is the one written out.
pub proof fn lemma_ych_file_name(ych: YchView)
    ensures
        file_name_of(seq![ych.art, ych.slot, ych.customer], AMY_EXT@) == ych.file_name(),
{
    let lower = lowered(seq![ych.art, ych.slot, ych.customer]);
    reveal_with_fuel(joined, 4);
    assert(lower.drop_last().drop_last() =~= seq![lowercase_of(ych.art)]);
    assert(lower.drop_last().last() == lowercase_of(ych.slot));
    assert(lower.last() == lowercase_of(ych.customer));
}

/// No two members of a slot's JSON object share a name.
pub proof fn lemma_ych_names_differ(ych: YchView)
    ensures
        distinct_names(ych.members()),
{
    reveal_strlit("id");
    reveal_strlit("date");
    reveal_strlit("customer");
    reveal_strlit("reference");
    reveal_strlit("art");
    reveal_strlit("slot");
    reveal_strlit("contact");
    reveal_strlit("price");
    reveal_strlit("payment");
    let members = ych.members();
    assert forall|i: int, j: int| 0 <= i < j < members.len() implies
        (#[trigger] members[i]).0 != (#[trigger] members[j]).0 by {
        if members[i].0 == members[j].0 {
            assert(members[i].0.len() == members[j].0.len());
            assert(members[i].0[0] == members[j].0[0]);
        }
    }
}

/// The members of the JSON object tell every field: two slots with the same
/// members have the same texts, and dates that are written alike.
pub proof fn lemma_ych_members_tell_fields(first: YchView, second: YchView)
    requires
        first.members() == second.members(),
    ensures
        first.id == second.id,
        first.date.text() == second.date.text(),
        first.customer == second.customer,
        first.reference == second.reference,
        first.art == second.art,
        first.slot == second.slot,
        first.contact == second.contact,
        first.price == second.price,
        first.payment == second.payment,
{
    assert(first.members()[0] == second.members()[0]);
    assert(first.members()[1] == second.members()[1]);
    assert(first.members()[2] == second.members()[2]);
    assert(first.members()[3] == second.members()[3]);
    assert(first.members()[4] == second.members()[4]);
    assert(first.members()[5] == second.members()[5]);
    assert(first.members()[6] == second.members()[6]);
    assert(first.members()[7] == second.members()[7]);
    assert(first.members()[8] == second.members()[8]);
}

/// Two slots whose art, slot and customer agree up to case go to one file,
/// whatever else differs between them: once the first is stored, the call
/// for the second fails and leaves the directory as it was. It fails with
/// `FileExists`, unless the second has no JSON.
pub proof fn lemma_ych_collision(
    directory: Directory,
    first: YchView,
    second: YchView,
    written: Written,
    left: Seq<char>,
    written_again: Written,
    left_again: Seq<char>,
)
    requires
        lowercase_of(first.art) == lowercase_of(second.art),
        lowercase_of(first.slot) == lowercase_of(second.slot),
        lowercase_of(first.customer) == lowercase_of(second.customer),
    ensures
        first.file_name() == second.file_name(),
        ({
            let (filled, first_result) = directory.persisted(
                first.file_name(),
                first.json(),
                written,
                left,
            );
            let (after, second_result) = filled.persisted(
                second.file_name(),
                second.json(),
                written_again,
                left_again,
            );
            first_result is Ok ==> {
                &&& after == filled
                &&& second_result is Err
                &&& second.json() is Some ==> second_result == Err::<Stored, RecordError>(
                    RecordError::FileExists,
                )
            }
        }),
{
    lemma_second_persist_is_rejected(
        directory,
        first.file_name(),
        first.json(),
        written,
        left,
        second.json(),
        written_again,
        left_again,
    );
}

impl Record for YCH {
    open spec fn members(&self) -> Seq<(Seq<char>, Seq<char>)> {
        self@.members()
    }

    open spec fn name_parts(&self) -> Seq<Seq<char>> {
        seq![self.art@, self.slot@, self.customer@]
    }

    open spec fn extension(&self) -> Seq<char> {
        AMY_EXT@
    }

    fn fields(&self) -> (fields: Vec<Field>) {
        let mut fields: Vec<Field> = Vec::new();
        fields.push(Field { name: "id".to_owned(), text: self.id.clone() });
        fields.push(Field { name: "date".to_owned(), text: self.date.to_rfc3339() });
        fields.push(Field { name: "customer".to_owned(), text: self.customer.clone() });
        fields.push(Field { name: "reference".to_owned(), text: self.reference.clone() });
        fields.push(Field { name: "art".to_owned(), text: self.art.clone() });
        fields.push(Field { name: "slot".to_owned(), text: self.slot.clone() });
        fields.push(Field { name: "contact".to_owned(), text: self.contact.clone() });
        fields.push(Field { name: "price".to_owned(), text: self.price.clone() });
        fields.push(Field { name: "payment".to_owned(), text: self.payment.clone() });
        proof {
            assert(members_of(fields@) =~= self@.members());
            lemma_ych_names_differ(self@);
        }
        fields
    }

    fn file_name(&self) -> (name: String) {
        let mut parts: Vec<&str> = Vec::new();
        parts.push(self.art.as_str());
        parts.push(self.slot.as_str());
        parts.push(self.customer.as_str());
        assert(texts(parts@) =~= self.name_parts());
        file_name(&parts, AMY_EXT)
    }
}

impl YCH {
    /// The file that stores the slot, named after art, slot and customer.
    /// It is to be created exclusively.
    pub fn write_ych(ych: YCH) -> (result: Result<NewFile, RecordError>)
        ensures
            match ych@.contents() {
                Some(contents) => {
                    &&& result matches Ok(file)
                    &&& file.name@ == ych@.file_name()
                    &&& file.contents@ == contents
                },
                None => result == Err::<NewFile, RecordError>(RecordError::Serialization),
            },
    {
        proof {
            lemma_ych_file_name(ych@);
        }
        persist(&ych)
    }

    /// The slot as JSON, to be printed with a line break after it.
    pub fn print_ych(ych: YCH) -> (result: Result<String, RecordError>)
        ensures
            match ych@.json() {
                Some(json) => result matches Ok(text) && text@ == json,
                None => result == Err::<String, RecordError>(RecordError::Serialization),
            },
    {
        render(&ych)
    }
}

} // verus!
