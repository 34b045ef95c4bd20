//! File names: the lower-cased parts of a record, joined, with the
//! extension of its kind.

use vstd::prelude::*;

verus! {

/// The extension of an auction slot's file.
pub const AMY_EXT: &'static str = "amy";

/// The extension of a commission's file.
pub const AMC_EXT: &'static str = "amc";

/// The extension of a request's file.
pub const AMR_EXT: &'static str = "amr";

/// The lowercase of a text, as `str::to_lowercase` gives it.
pub uninterp spec fn lowercase_of(text: Seq<char>) -> Seq<char>;

/// Calls `str::to_lowercase`, which follows Unicode's lowercase mapping and
/// no locale, so the result depends on the text alone.
#[verifier::external_body]
fn lowercase(text: &str) -> (lower: String)
    ensures
        lower@ == lowercase_of(text@),
{
    text.to_lowercase()
}

/// What stands between two parts of a name: a hyphen between two spaces.
pub open spec fn separator() -> Seq<char> {
    seq![' ', '-', ' ']
}

/// The parts with a separator between each two.
pub open spec fn joined(parts: Seq<Seq<char>>) -> Seq<char>
    decreases parts.len(),
{
    if parts.len() == 0 {
        Seq::empty()
    } else if parts.len() == 1 {
        parts[0]
    } else {
        joined(parts.drop_last()) + separator() + parts.last()
    }
}

/// Each part in lowercase.
pub open spec fn lowered(parts: Seq<Seq<char>>) -> Seq<Seq<char>> {
    parts.map_values(|part: Seq<char>| lowercase_of(part))
}

/// The file name made of `parts` and `extension`: the parts in lowercase,
/// joined, then a dot and the extension as it is.
pub open spec fn file_name_of(parts: Seq<Seq<char>>, extension: Seq<char>) -> Seq<char> {
    joined(lowered(parts)) + seq!['.'] + extension
}

/// Parts that agree in lowercase give one file name, however each was
/// cased.
pub proof fn lemma_file_name_ignores_case(
    first: Seq<Seq<char>>,
    second: Seq<Seq<char>>,
    extension: Seq<char>,
)
    requires
        first.len() == second.len(),
        forall|i: int|
            0 <= i < first.len() ==> lowercase_of(#[trigger] first[i]) == lowercase_of(second[i]),
    ensures
        file_name_of(first, extension) == file_name_of(second, extension),
{
    assert(lowered(first) =~= lowered(second));
}

/// Files of different kinds never share a name, whatever their parts: the
/// three extensions end in different letters.
pub proof fn lemma_kinds_never_share_a_name(
    slot: Seq<Seq<char>>,
    commission: Seq<Seq<char>>,
    request: Seq<Seq<char>>,
)
    ensures
        file_name_of(slot, AMY_EXT@) != file_name_of(commission, AMC_EXT@),
        file_name_of(slot, AMY_EXT@) != file_name_of(request, AMR_EXT@),
        file_name_of(commission, AMC_EXT@) != file_name_of(request, AMR_EXT@),
{
    reveal_strlit("amy");
    reveal_strlit("amc");
    reveal_strlit("amr");
    assert(file_name_of(slot, AMY_EXT@).last() == 'y');
    assert(file_name_of(commission, AMC_EXT@).last() == 'c');
    assert(file_name_of(request, AMR_EXT@).last() == 'r');
}

/// The texts that `parts` hold.
pub open spec fn texts(parts: Seq<&str>) -> Seq<Seq<char>> {
    parts.map_values(|part: &str| part@)
}

/// The file name made of `parts` and `extension`.
pub fn file_name(parts: &Vec<&str>, extension: &str) -> (name: String)
    ensures
        name@ == file_name_of(texts(parts@), extension@),
{
    let ghost all = lowered(texts(parts@));
    let mut name = String::new();
    let mut done: usize = 0;
    while done < parts.len()
        invariant
            done <= parts.len(),
            all == lowered(texts(parts@)),
            name@ == joined(all.take(done as int)),
        decreases parts.len() - done,
    {
        let lower = lowercase(parts[done]);
        proof {
            let before = all.take(done as int);
            let after = all.take(done + 1);
            assert(after.drop_last() == before);
            assert(after.last() == lower@);
            reveal_strlit(" - ");
            assert(" - "@ == separator());
        }
        if done > 0 {
            name.append(" - ");
        }
        name.append(lower.as_str());
        done += 1;
    }
    proof {
        assert(all.take(done as int) == all);
        reveal_strlit(".");
        assert("."@ == seq!['.']);
    }
    name.append(".");
    name.append(extension);
    name
}

} // verus!
