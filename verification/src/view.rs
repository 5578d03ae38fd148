//! What the pets tab shows: the names of all records, and the record that
//! is highlighted.

use crate::pet::Pet;
use crate::selection::Selection;
use vstd::prelude::*;

verus! {

/// The names of the records, in the order of the list.
pub fn pet_names(records: &Vec<Pet>) -> (names: Vec<String>)
    ensures
        names@.len() == records@.len(),
        forall|i: int| 0 <= i < records@.len() ==> #[trigger] names@[i] == records@[i].name,
{
    let mut names: Vec<String> = Vec::new();
    let mut at: usize = 0;
    while at < records.len()
        invariant
            at <= records@.len(),
            names@.len() == at,
            forall|i: int| 0 <= i < at ==> #[trigger] names@[i] == records@[i].name,
        decreases records@.len() - at,
    {
        names.push(records[at].name.clone());
        at = at + 1;
    }
    names
}

/// The highlighted record, whose details are shown beside the list: the
/// one that the selection points at, and none where it points at nothing or
/// past the end of the list.
pub fn selected_pet(records: &Vec<Pet>, pet_list_state: Selection) -> (selected: Option<&Pet>)
    ensures
        selected == match pet_list_state {
            Selection::At(at) if at < records@.len() => Some(&records@[at as int]),
            _ => None::<&Pet>,
        },
        pet_list_state.valid_for(records.len()) && records@.len() > 0
            ==> selected is Some,
{
    match pet_list_state {
        Selection::At(at) => if at < records.len() {
            Some(&records[at])
        } else {
            None
        },
        Selection::Empty => None,
    }
}

} // verus!
