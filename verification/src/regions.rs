//! The regions to work on, out of what the directory of regions describes.

use vstd::prelude::*;

verus! {

/// The names that are there among `described`, in their order.
pub open spec fn names_present(described: Seq<Option<Seq<char>>>) -> Seq<Seq<char>>
    decreases described.len(),
{
    if described.len() == 0 {
        Seq::empty()
    } else {
        let before = names_present(described.drop_last());
        match described.last() {
            Some(name) => before.push(name),
            None => before,
        }
    }
}

/// The names of what a directory's answer describes, where the answer may
/// come without a list.
pub open spec fn names_listed(answer: Option<Seq<Option<Seq<char>>>>) -> Seq<Seq<char>> {
    match answer {
        Some(described) => names_present(described),
        None => Seq::empty(),
    }
}

/// Returns the names of the regions in a directory's answer. The answer may
/// come without a list, and a region in the list without a name: such a region
/// is passed over. The order of the list is kept.
pub fn region_names(answer: &Option<Vec<Option<String>>>) -> (names: Vec<String>)
    ensures
        names.deep_view() == names_listed(answer.deep_view()),
{
    let mut names: Vec<String> = Vec::new();
    let described = match answer {
        Some(described) => described,
        None => {
            assert(names.deep_view() =~= Seq::empty());
            return names;
        },
    };
    let mut i: usize = 0;
    assert(described.deep_view().take(0) =~= Seq::empty());
    assert(names.deep_view() =~= Seq::empty());
    while i < described.len()
        invariant
            i <= described.len(),
            names.deep_view() == names_present(described.deep_view().take(i as int)),
        decreases described.len() - i,
    {
        let ghost before = names.deep_view();
        assert(described.deep_view().take(i + 1).drop_last() =~= described.deep_view().take(
            i as int,
        ));
        assert(described.deep_view().take(i + 1).last() == described[i as int].deep_view());
        match &described[i] {
            Some(name) => {
                names.push(name.clone());
                assert(names.deep_view() =~= before.push(name@));
            },
            None => {},
        }
        i += 1;
    }
    assert(described.deep_view().take(described.len() as int) =~= described.deep_view());
    names
}

/// Every name that comes out was in the answer, and none is made up.
pub proof fn lemma_names_come_from_answer(described: Seq<Option<Seq<char>>>, k: int)
    requires
        0 <= k < names_present(described).len(),
    ensures
        described.contains(Some(names_present(described)[k])),
    decreases described.len(),
{
    let before = names_present(described.drop_last());
    if k < before.len() {
        lemma_names_come_from_answer(described.drop_last(), k);
        let i = choose|i: int|
            0 <= i < described.drop_last().len() && described.drop_last()[i] == Some(before[k]);
        assert(described[i] == Some(before[k]));
    } else {
        assert(described[described.len() - 1] == Some(names_present(described)[k]));
    }
}

/// Where every region has its name, the names are the list itself.
pub proof fn lemma_all_named(names: Seq<Seq<char>>)
    ensures
        names_present(names.map_values(|name: Seq<char>| Some(name))) == names,
    decreases names.len(),
{
    let described = names.map_values(|name: Seq<char>| Some(name));
    if names.len() > 0 {
        lemma_all_named(names.drop_last());
        assert(described.drop_last() =~= names.drop_last().map_values(
            |name: Seq<char>| Some(name),
        ));
        assert(names_present(described) =~= names);
    } else {
        assert(names_present(described) =~= names);
    }
}

} // verus!
