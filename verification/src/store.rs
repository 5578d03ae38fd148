//! The list of records as it is held in memory between reading the store
//! file and writing it back.

use crate::clock::utc_now;
use crate::error::Error;
use crate::pet::{is_generated, Pet, AGE_LIMIT, AGE_MIN, CATEGORY_COUNT, ID_LIMIT};
use crate::random::{gen_range, random_name};
use crate::selection::Selection;
use vstd::prelude::*;

verus! {

/// A freshly generated record: a random id, name, category and age, and
/// the current time as its creation time. Its id may repeat one that is
/// already in use.
pub fn random_pet() -> (pet: Pet)
    ensures
        is_generated(pet@),
{
    let mut rng = rand::thread_rng();
    let category_draw = gen_range(&mut rng, 0, CATEGORY_COUNT);
    let id = gen_range(&mut rng, 0, ID_LIMIT);
    let name = random_name(&mut rng);
    let age = gen_range(&mut rng, AGE_MIN, AGE_LIMIT);
    let created_at = utc_now();
    Pet::from_draws(id, name, category_draw, age, created_at)
}

/// Appends one freshly generated record. The records that were there stay
/// as they were, in their order.
pub fn add_random_pet_to_db(records: &mut Vec<Pet>)
    ensures
        final(records)@.len() == old(records)@.len() + 1,
        final(records)@.drop_last() == old(records)@,
        is_generated(final(records)@.last()@),
{
    let pet = random_pet();
    records.push(pet);
}

/// Takes the record at `index` out of the list and hands it back. The
/// other records keep their order. Where the list has no record at `index`
/// it is left alone and the answer is an `IndexError`.
pub fn remove_at(records: &mut Vec<Pet>, index: usize) -> (removed: Result<Pet, Error>)
    ensures
        removed is Ok <==> index < old(records)@.len(),
        match removed {
            Ok(pet) => {
                &&& pet == old(records)@[index as int]
                &&& final(records)@ == old(records)@.remove(index as int)
                &&& final(records)@.len() == old(records)@.len() - 1
            },
            Err(error) => {
                &&& final(records)@ == old(records)@
                &&& error == (Error::IndexError { index, len: old(records).len() })
            },
        },
{
    let len: usize = records.len();
    if index < len {
        Ok(records.remove(index))
    } else {
        Err(Error::IndexError { index, len })
    }
}

/// Removes the highlighted record and moves the highlight to the record
/// before it, to the first record where the first was removed, and to
/// nothing where the list is now empty. With nothing highlighted, nothing
/// is removed. A highlight that points past the end of the list is an
/// `IndexError`, and both list and highlight are left alone.
pub fn remove_pet_at_index(records: &mut Vec<Pet>, pet_list_state: &mut Selection) -> (done: Result<
    (),
    Error,
>)
    ensures
        match *old(pet_list_state) {
            Selection::Empty => {
                &&& done is Ok
                &&& final(records)@ == old(records)@
                &&& *final(pet_list_state) == *old(pet_list_state)
            },
            Selection::At(selected) => if selected < old(records)@.len() {
                &&& done is Ok
                &&& final(records)@ == old(records)@.remove(selected as int)
                &&& *final(pet_list_state) == old(pet_list_state).spec_after_remove(
                    final(records).len(),
                )
                &&& final(pet_list_state).valid_for(final(records).len())
            } else {
                &&& done matches Err(Error::IndexError { index, len })
                &&& index == selected
                &&& len == old(records)@.len()
                &&& final(records)@ == old(records)@
                &&& *final(pet_list_state) == *old(pet_list_state)
            },
        },
{
    match *pet_list_state {
        Selection::Empty => Ok(()),
        Selection::At(selected) => {
            match remove_at(records, selected) {
                Ok(_) => {
                    *pet_list_state = pet_list_state.after_remove(records.len());
                    Ok(())
                },
                Err(error) => Err(error),
            }
        },
    }
}

} // verus!
