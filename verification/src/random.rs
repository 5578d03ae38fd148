//! Random draws, made by the `rand` crate, and the names built from them.

use crate::pet::{is_alphanumeric, NAME_LEN};
use rand::rngs::ThreadRng;
use vstd::prelude::*;

verus! {

/// `rand::rngs::ThreadRng`, the handle to the thread's random number
/// generator. Nothing is known of its state.
#[verifier::external_type_specification]
#[verifier::external_body]
pub struct ExThreadRng(ThreadRng);

/// `rand::thread_rng` hands out the generator of the current thread, which
/// the system seeds on first use; it panics where the system has no seed to
/// give. Nothing is claimed of the generator.
pub assume_specification[ rand::thread_rng ]() -> (rng: ThreadRng);

/// `String::push` appends one character to the end of the string.
pub assume_specification[ String::push ](s: &mut String, ch: char)
    ensures
        final(s)@ == old(s)@.push(ch),
;

/// `rand::Rng::gen_range` on `usize`: a value from `low` up to but not
/// including `high`. It panics unless `low < high`, so that is required.
#[verifier::external_body]
pub(crate) fn gen_range(rng: &mut ThreadRng, low: usize, high: usize) -> (drawn: usize)
    requires
        low < high,
    ensures
        low <= drawn < high,
{
    rand::Rng::gen_range(rng, low, high)
}

/// `rand::Rng::sample` with the distribution `Alphanumeric`: one of the
/// ASCII letters and digits.
#[verifier::external_body]
pub(crate) fn sample_alphanumeric(rng: &mut ThreadRng) -> (c: char)
    ensures
        is_alphanumeric(c),
{
    rand::Rng::sample(rng, rand::distributions::Alphanumeric)
}

/// A name of `NAME_LEN` random letters and digits.
pub(crate) fn random_name(rng: &mut ThreadRng) -> (name: String)
    ensures
        name@.len() == NAME_LEN,
        forall|i: int| 0 <= i < name@.len() ==> is_alphanumeric(#[trigger] name@[i]),
{
    let mut name = String::new();
    let mut drawn: usize = 0;
    while drawn < NAME_LEN
        invariant
            drawn <= NAME_LEN,
            name@.len() == drawn,
            forall|i: int| 0 <= i < name@.len() ==> is_alphanumeric(#[trigger] name@[i]),
        decreases NAME_LEN - drawn,
    {
        let c = sample_alphanumeric(rng);
        name.push(c);
        drawn = drawn + 1;
    }
    name
}

} // verus!
