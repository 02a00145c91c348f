//! The one source of random choices of a simulation.
//!
//! Every choice is drawn from a generator that starts from a seed. What it draws is
//! determined by the seed and by the ranges that were asked for before, so that a run can
//! be repeated from its seed.

use rand::{Rng, SeedableRng};
use vstd::prelude::*;

verus! {

#[verifier::external_type_specification]
#[verifier::external_body]
pub struct ExStdRng(rand::rngs::StdRng);

/// What a generator has been through: the seed that it started from and the ranges
/// `low..high` that it has drawn from since, oldest first.
#[verifier::ext_equal]
pub struct RngHistory {
    pub seed: u64,
    pub drawn: Seq<(u64, u64)>,
}

/// The value that `rand::Rng::gen_range` draws from `low..high`, on a `StdRng` that was
/// seeded with `seed` by `seed_from_u64` and has since drawn from the ranges `drawn`.
pub uninterp spec fn nth_draw(seed: u64, drawn: Seq<(u64, u64)>, low: u64, high: u64) -> u64;

impl RngHistory {
    /// The next value, if it is asked for from `low..high`.
    pub open spec fn draw(self, low: u64, high: u64) -> u64 {
        nth_draw(self.seed, self.drawn, low, high)
    }

    /// The history once a value has been drawn from `low..high`.
    pub open spec fn after(self, low: u64, high: u64) -> RngHistory {
        RngHistory { seed: self.seed, drawn: self.drawn.push((low, high)) }
    }
}

/// The generator that the whole simulation draws from.
pub struct GlobalRng {
    rng: rand::rngs::StdRng,
    history: Ghost<RngHistory>,
}

impl View for GlobalRng {
    type V = RngHistory;

    closed spec fn view(&self) -> RngHistory {
        self.history@
    }
}

impl GlobalRng {
    /// A generator that starts from `seed`.
    pub fn new_with_seed(seed: u64) -> (r: GlobalRng)
        ensures
            r@ == (RngHistory { seed, drawn: Seq::empty() }),
    {
        Self::seeded(seed)
    }

    /// Trusted: `rand::SeedableRng::seed_from_u64` on `StdRng`. It returns a generator that
    /// has drawn nothing yet.
    #[verifier::external_body]
    fn seeded(seed: u64) -> (r: GlobalRng)
        ensures
            r@ == (RngHistory { seed, drawn: Seq::empty() }),
    {
        GlobalRng {
            rng: rand::rngs::StdRng::seed_from_u64(seed),
            history: Ghost(RngHistory { seed, drawn: Seq::empty() }),
        }
    }

    /// Draws a value from `low..high`.
    ///
    /// Trusted: `rand::Rng::gen_range` on `StdRng`. It panics on an empty range. On any other
    /// it returns a value in the range, which is a function of the seed, of the ranges drawn
    /// from before and of this range, and the generator moves on.
    #[verifier::external_body]
    pub(crate) fn gen_range(&mut self, low: u64, high: u64) -> (r: u64)
        requires
            low < high,
        ensures
            low <= r < high,
            r == nth_draw(old(self)@.seed, old(self)@.drawn, low, high),
            final(self)@ == old(self)@.after(low, high),
    {
        self.history = Ghost(self.history@.after(low, high));
        self.rng.gen_range(low..high)
    }
}

} // verus!
