//! What a command is handed besides the store: the source of randomness.

use rand::rngs::StdRng;
use vstd::prelude::*;

verus! {

/// `rand::rngs::StdRng`, carried through without a look inside.
#[verifier::external_type_specification]
#[verifier::external_body]
pub struct ExStdRng(StdRng);

/// `rand::Rng::gen_range` on the half-open range from zero to `bound`.
///
/// The range must not be empty, or the call panics. Which index comes
/// back depends on the generator's state; it lies in the range.
#[verifier::external_body]
fn gen_below(rng: &mut StdRng, bound: usize) -> (index: usize)
    requires
        bound > 0,
    ensures
        index < bound,
{
    rand::Rng::gen_range(rng, 0..bound)
}

/// The channel in which the raffle announces its winners.
#[derive(Clone, Copy, Debug, PartialEq, Eq, Structural)]
pub struct ChannelId(pub u64);

/// The user as which the raffle writes to the chat.
#[derive(Clone, Copy, Debug, PartialEq, Eq, Structural)]
pub struct UserId(pub u64);

/// The source of the indices by which winners are chosen.
pub struct Rng {
    rng: StdRng,
}

impl Rng {
    /// A source that draws from `rng`.
    pub fn new(rng: StdRng) -> (source: Rng)
        ensures
            source.generator() == rng,
    {
        Rng { rng }
    }

    /// A random index below `max`.
    pub fn rand(&mut self, max: usize) -> (index: usize)
        requires
            max > 0,
        ensures
            index < max,
    {
        gen_below(&mut self.rng, max)
    }

    /// The generator that the source draws from, in the state that it
    /// is in.
    pub closed spec fn generator(&self) -> StdRng {
        self.rng
    }
}

} // verus!
