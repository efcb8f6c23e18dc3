//! What the library takes on trust: the random source, which is the
//! thread-local generator of the `rand` crate, and one method of `String`.
//!
//! Nothing in this file is proved. Each item states what the rest of the
//! library relies on, and no more.

use rand::Rng;
use vstd::prelude::*;

verus! {

/// `rand::rngs::ThreadRng`, a handle to the generator that `rand` keeps for
/// the current thread. Its state is hidden: a handle is only obtained and
/// handed on.
#[verifier::external_type_specification]
#[verifier::external_body]
pub struct ExThreadRng(rand::rngs::ThreadRng);

/// `rand::thread_rng` returns a handle to the current thread's generator.
/// Nothing is claimed of the handle. The call fails only if the operating
/// system cannot seed the generator.
pub assume_specification[ rand::thread_rng ]() -> (generator: rand::rngs::ThreadRng)
;

/// `Rng::gen_range` on the half-open range `low..high`, which must not be
/// empty: the value drawn lies in the range. Which value it is depends on
/// the generator's state, so two calls may differ.
#[verifier::external_body]
pub(crate) fn random_in_range(
    generator: &mut rand::rngs::ThreadRng,
    low: usize,
    high: usize,
) -> (drawn: usize)
    requires
        low < high,
    ensures
        low <= drawn < high,
{
    generator.gen_range(low..high)
}

/// `String::push` appends one symbol at the end of the string.
pub assume_specification[ String::push ](text: &mut String, symbol: char)
    ensures
        final(text)@ == old(text)@.push(symbol),
;

} // verus!
