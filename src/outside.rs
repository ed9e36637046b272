//! Declarations of what this library takes from outside crates.
use vstd::prelude::*;

verus! {

/// `uuid::Uuid` is carried through the library as an opaque identifier.
#[verifier::external_type_specification]
#[verifier::external_body]
pub struct ExUuid(uuid::Uuid);

/// Relies on `uuid::Uuid::new_v4`: a fresh random identifier, about which
/// nothing else is promised.
pub assume_specification[ uuid::Uuid::new_v4 ]() -> uuid::Uuid;

/// Relies on rand's `Rng::gen_range` on the thread-local generator: a value
/// drawn uniformly from `[0, n)`. It panics on an empty range, which
/// `requires` leaves out.
#[verifier::external_body]
pub(crate) fn draw_below(n: u32) -> (r: u32)
    requires
        n > 0,
    ensures
        r < n,
{
    rand::Rng::gen_range(&mut rand::thread_rng(), 0..n)
}

} // verus!
