use vstd::prelude::*;
use rand::Rng;

verus! {

/// Declares rand's `ThreadRng` so that the signatures of the random
/// constructors can carry it; values of it are opaque to verification.
#[verifier::external_type_specification]
#[verifier::external_body]
pub struct ExThreadRng(rand::rngs::ThreadRng);

/// Relies on rand's `Rng::gen::<usize>`: draws one machine word from the
/// thread-local generator. Nothing is promised of the value drawn;
/// callers reduce it modulo an alternative count and must be correct for
/// every outcome.
#[verifier::external_body]
pub(crate) fn random_usize(rng: &mut rand::rngs::ThreadRng) -> usize {
    rng.gen::<usize>()
}

} // verus!
