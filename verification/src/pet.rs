//! The records of the list.

use vstd::prelude::*;

verus! {

/// A point in time: whole seconds since 1970-01-01 00:00:00 UTC, and the
/// nanoseconds into that second.
#[derive(Clone, Copy, Debug, PartialEq, Eq, Structural)]
pub struct Timestamp {
    pub secs: i64,
    pub nanos: u32,
}

/// One record of the list.
#[derive(Clone, Debug, PartialEq, Eq)]
pub struct Pet {
    pub id: usize,
    pub name: String,
    pub category: String,
    pub age: usize,
    pub created_at: Timestamp,
}

/// What a record says, apart from how its strings are stored.
pub ghost struct PetView {
    pub id: nat,
    pub name: Seq<char>,
    pub category: Seq<char>,
    pub age: nat,
    pub created_at: Timestamp,
}

impl View for Pet {
    type V = PetView;

    open spec fn view(&self) -> PetView {
        PetView {
            id: self.id as nat,
            name: self.name@,
            category: self.category@,
            age: self.age as nat,
            created_at: self.created_at,
        }
    }
}

/// Ids of generated records lie below this bound.
pub const ID_LIMIT: usize = 9_999_999;

/// Names of generated records have this many characters.
pub const NAME_LEN: usize = 10;

/// Generated records fall into one of this many categories.
pub const CATEGORY_COUNT: usize = 2;

/// The youngest age of a generated record.
pub const AGE_MIN: usize = 1;

/// Ages of generated records lie below this bound.
pub const AGE_LIMIT: usize = 15;

/// The ASCII letters and digits.
pub open spec fn is_alphanumeric(c: char) -> bool {
    ||| 'a' <= c <= 'z'
    ||| 'A' <= c <= 'Z'
    ||| '0' <= c <= '9'
}

/// The category tag that a draw stands for: the first is `cats`, every
/// other is `dogs`.
pub open spec fn spec_category_tag(draw: usize) -> Seq<char> {
    if draw == 0 {
        "cats"@
    } else {
        "dogs"@
    }
}

/// The category tag that a draw stands for.
pub fn category_tag(draw: usize) -> (tag: &'static str)
    ensures
        tag@ == spec_category_tag(draw),
{
    if draw == 0 {
        "cats"
    } else {
        "dogs"
    }
}

/// What every generated record looks like: an id below `ID_LIMIT`, a name
/// of `NAME_LEN` letters and digits, one of the category tags, an age from
/// `AGE_MIN` up to but not including `AGE_LIMIT`, and a creation time that
/// is not before 1970 and has less than a second of nanoseconds.
pub open spec fn is_generated(pet: PetView) -> bool {
    &&& pet.id < ID_LIMIT
    &&& pet.name.len() == NAME_LEN
    &&& forall|i: int| 0 <= i < pet.name.len() ==> is_alphanumeric(#[trigger] pet.name[i])
    &&& (pet.category == "cats"@ || pet.category == "dogs"@)
    &&& AGE_MIN <= pet.age < AGE_LIMIT
    &&& pet.created_at.secs >= 0
    &&& pet.created_at.nanos < 1_000_000_000
}

impl Pet {
    /// The record made of five draws: the category is the tag that
    /// `category_draw` stands for, everything else is taken as it is.
    pub fn from_draws(
        id: usize,
        name: String,
        category_draw: usize,
        age: usize,
        created_at: Timestamp,
    ) -> (pet: Pet)
        ensures
            pet@ == (PetView {
                id: id as nat,
                name: name@,
                category: spec_category_tag(category_draw),
                age: age as nat,
                created_at,
            }),
    {
        Pet { id, name, category: category_tag(category_draw).to_owned(), age, created_at }
    }
}

} // verus!
