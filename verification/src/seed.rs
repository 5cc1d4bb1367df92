//! Fresh seeds for the identities that the pipelines register.

use vstd::prelude::*;
use rand::distr::{Alphanumeric, SampleString};

verus! {

/// The number of characters in a seed.
pub const SEED_LENGTH: usize = 32;

/// Whether `c` is an ASCII letter or digit.
pub open spec fn spec_is_alphanumeric(c: char) -> bool {
    ||| '0' <= c <= '9'
    ||| 'a' <= c <= 'z'
    ||| 'A' <= c <= 'Z'
}

/// Whether `text` has the form of a seed: `SEED_LENGTH` ASCII letters and digits.
pub open spec fn spec_is_seed(text: Seq<char>) -> bool {
    &&& text.len() == SEED_LENGTH
    &&& forall|i: int| 0 <= i < text.len() ==> spec_is_alphanumeric(#[trigger] text[i])
}

/// Draws `length` characters with `rand::distr::Alphanumeric::sample_string`
/// from the generator that `rand::rng` returns. The crate documents the
/// distribution as one over the ASCII letters and digits; the contract claims
/// the length and that alphabet, and nothing of which characters are drawn.
#[verifier::external_body]
fn sample_alphanumeric(length: usize) -> (sample: String)
    ensures
        sample@.len() == length,
        forall|i: int| 0 <= i < sample@.len() ==> spec_is_alphanumeric(#[trigger] sample@[i]),
{
    Alphanumeric.sample_string(&mut rand::rng(), length)
}

/// Whether `c` is an ASCII letter or digit.
pub fn is_alphanumeric(c: char) -> (b: bool)
    ensures
        b == spec_is_alphanumeric(c),
{
    ('0' <= c && c <= '9') || ('a' <= c && c <= 'z') || ('A' <= c && c <= 'Z')
}

/// Whether `text` has the form of a seed: `SEED_LENGTH` ASCII letters and digits.
pub fn is_seed(text: &str) -> (b: bool)
    ensures
        b == spec_is_seed(text@),
{
    let length = text.unicode_len();
    if length != SEED_LENGTH {
        return false;
    }
    let mut i: usize = 0;
    while i < length
        invariant
            0 <= i <= length,
            length == text@.len(),
            forall|j: int| 0 <= j < i ==> spec_is_alphanumeric(#[trigger] text@[j]),
        decreases length - i,
    {
        if !is_alphanumeric(text.get_char(i)) {
            return false;
        }
        i = i + 1;
    }
    true
}

/// A fresh random seed for a new identity. Whatever is drawn, it has the form
/// of a seed.
pub fn generate_seed() -> (seed: String)
    ensures
        spec_is_seed(seed@),
{
    sample_alphanumeric(SEED_LENGTH)
}

} // verus!
