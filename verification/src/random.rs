//! Random texts.
use bip39::rand::{distributions::Alphanumeric, thread_rng, Rng};
use vstd::prelude::*;

verus! {

/// An ASCII letter or digit.
pub open spec fn alphanumeric(c: char) -> bool {
    ||| '0' <= c <= '9'
    ||| 'A' <= c <= 'Z'
    ||| 'a' <= c <= 'z'
}

/// Samples `rand`'s `Alphanumeric` distribution with the thread's generator. The text is random;
/// claimed is that it has as many characters as were asked for, each an ASCII letter or digit.
#[verifier::external_body]
fn sample_text(size: usize) -> (r: String)
    ensures
        r@.len() == size,
        forall|i: int| 0 <= i < r@.len() ==> alphanumeric(#[trigger] r@[i]),
{
    thread_rng().sample_iter(&Alphanumeric).take(size).map(char::from).collect()
}

/// A random text of the given number of ASCII letters and digits.
pub fn generate_random_string(size: usize) -> (r: String)
    ensures
        r@.len() == size,
        forall|i: int| 0 <= i < r@.len() ==> alphanumeric(#[trigger] r@[i]),
{
    sample_text(size)
}

} // verus!
