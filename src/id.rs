//! Generating candidate paste identifiers.
use vstd::prelude::*;

use crate::storage::is_id_char;

verus! {

/// A source of candidate identifiers; `attempts` counts the candidates
/// already found taken. Candidates are made of ASCII letters and digits.
pub trait IdGen {
    fn next_id(&self, attempts: u32) -> (r: String)
        ensures
            forall|i: int| 0 <= i < r@.len() ==> #[trigger] is_id_char(r@[i]),
    ;
}

/// Relies on rand's `Alphanumeric::sample_string`: `len` characters drawn
/// from the thread-local generator, each an ASCII letter or digit.
#[verifier::external_body]
fn random_alphanumeric(len: usize) -> (r: String)
    ensures
        r@.len() == len,
        forall|i: int| 0 <= i < len ==> #[trigger] is_id_char(r@[i]),
{
    rand::distributions::DistString::sample_string(
        &rand::distributions::Alphanumeric,
        &mut rand::thread_rng(),
        len,
    )
}

/// Random alphanumeric identifiers whose length starts at a minimum and
/// grows by one with each attempt.
pub struct RandomIdGen {
    min_len: u8,
}

impl RandomIdGen {
    pub closed spec fn min_len(&self) -> nat {
        self.min_len as nat
    }

    pub fn new(min_len: u8) -> (r: RandomIdGen)
        ensures
            r.min_len() == min_len,
    {
        RandomIdGen { min_len }
    }

    /// A random candidate of length `min_len + attempts` (saturating at the
    /// largest `usize`).
    pub fn candidate(&self, attempts: u32) -> (r: String)
        ensures
            self.min_len() + attempts <= usize::MAX ==> r@.len() == self.min_len() + attempts,
            forall|i: int| 0 <= i < r@.len() ==> #[trigger] is_id_char(r@[i]),
    {
        let len: usize = (self.min_len as usize).saturating_add(attempts as usize);
        random_alphanumeric(len)
    }
}

impl IdGen for RandomIdGen {
    fn next_id(&self, attempts: u32) -> String {
        self.candidate(attempts)
    }
}

} // verus!
