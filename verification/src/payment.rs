use vstd::prelude::*;

use vstd::arithmetic::power2::{
    lemma2_to64, lemma_pow2_strictly_increases, lemma_pow2_unfold, pow2,
};

use crate::score::{FuValue, HanValue, HonbaCounter};

verus! {

/// Number of points players pay to the winner.
pub(crate) type Points = u64;

const DEALER_RON_MULTIPLIER: u64 = 6;

const DEALER_TSUMO_MULTIPLIER: u64 = 2;

const NON_DEALER_RON_MULTIPLIER: u64 = 4;

const NON_DEALER_TSUMO_TO_NON_DEALER_MULTIPLIER: u64 = 1;

const NON_DEALER_TSUMO_TO_DEALER_MULTIPLIER: u64 = 2;

/// Fu rounded up to a multiple of ten, except the 25 fu of seven pairs.
pub open spec fn spec_round_fu(fu: nat) -> nat {
    if fu == 25 {
        fu
    } else {
        ((fu + 9) / 10 * 10) as nat
    }
}

/// The base points without limits: fu times two to the power of han plus two.
pub open spec fn spec_base_points(han: nat, fu: nat) -> nat {
    spec_round_fu(fu) * pow2(han + 2)
}

/// A payment rounded up to a multiple of a hundred.
pub open spec fn round_up_hundred(n: nat) -> nat {
    ((n + 99) / 100 * 100) as nat
}

/// What the player that dealt in pays a dealer.
pub open spec fn spec_dealer_ron(base: nat, honba: nat) -> nat {
    round_up_hundred(base * 6 + 300 * honba)
}

/// What each player pays a dealer that wins by self-draw.
pub open spec fn spec_dealer_tsumo(base: nat, honba: nat) -> nat {
    round_up_hundred(base * 2 + 100 * honba)
}

/// What the player that dealt in pays a non-dealer.
pub open spec fn spec_non_dealer_ron(base: nat, honba: nat) -> nat {
    round_up_hundred(base * 4 + 300 * honba)
}

/// What the dealer pays a non-dealer that wins by self-draw.
pub open spec fn spec_non_dealer_tsumo_to_dealer(base: nat, honba: nat) -> nat {
    round_up_hundred(base * 2 + 100 * honba)
}

/// What each other non-dealer pays a non-dealer that wins by self-draw.
pub open spec fn spec_non_dealer_tsumo_to_non_dealer(base: nat, honba: nat) -> nat {
    round_up_hundred(base + 100 * honba)
}

/// The largest of the payments fits a `u64` before it is rounded.
pub open spec fn payments_fit(base: nat, honba: nat) -> bool {
    base * 6 + 300 * honba + 99 <= u64::MAX
}

/// The breakdown of what players pay for a hand of given base points.
#[derive(Debug)]
pub struct Payment {
    /// Base score for the hand.
    base_points: Points,
    /// The number of points each honba (repeat counter) is worth.
    tsumibou: Points,
}

impl View for Payment {
    type V = nat;

    /// A payment is its base points.
    closed spec fn view(&self) -> nat {
        self.base_points as nat
    }
}

impl Payment {
    #[verifier::type_invariant]
    spec fn inv(self) -> bool {
        self.tsumibou == 300
    }

    /// Create a new [`Payment`].
    pub fn new(base_points: Points) -> (r: Self)
        ensures
            r@ == base_points,
    {
        Self { base_points, tsumibou: 300 }
    }

    /// Calculate the base points with the given han and fu, with no limit (aotenjou).
    pub fn from_han_and_fu(han: HanValue, fu: FuValue) -> (r: Self)
        requires
            han + 2 <= 63,
            fu != 25 ==> fu + 9 <= u64::MAX,
            spec_base_points(han as nat, fu as nat) <= u64::MAX,
        ensures
            r@ == spec_base_points(han as nat, fu as nat),
    {
        let fu = if fu == 25 {
            fu
        } else {
            (fu + 9) / 10 * 10
        };
        let e: u32 = han + 2;
        let mut p: u64 = 1;
        let mut i: u32 = 0;
        proof {
            lemma2_to64();
        }
        while i < e
            invariant
                e <= 63,
                i <= e,
                p == pow2(i as nat),
                pow2(64) == 0x10000000000000000,
            decreases e - i,
        {
            proof {
                lemma_pow2_unfold((i + 1) as nat);
                lemma_pow2_strictly_increases((i + 1) as nat, 64);
            }
            p = p * 2;
            i = i + 1;
        }
        Self::new(fu * p)
    }

    /// Get the base points.
    pub fn base_points(&self) -> (r: Points)
        ensures
            r == self@,
    {
        self.base_points
    }

    /// Whether every payment for this hand with `honba` repeat counters fits a `u64`
    /// before it is rounded.
    pub fn payments_computable(&self, honba: HonbaCounter) -> (r: bool)
        ensures
            r == payments_fit(self@, honba as nat),
    {
        let max: u64 = 0xffff_ffff_ffff_ffff;
        if self.base_points > (max - 99) / 6 {
            return false;
        }
        let rest = max - 99 - self.base_points * 6;
        honba <= rest / 300
    }

    /// Round the payment amount up to the next hundred.
    fn round_payment(&self, unrounded_payment: Points) -> (r: Points)
        requires
            unrounded_payment + 99 <= u64::MAX,
        ensures
            r == round_up_hundred(unrounded_payment as nat),
    {
        (unrounded_payment + 99) / 100 * 100
    }

    /// Get the amount of points the player that dealt in has to pay to a dealer.
    pub fn dealer_ron(&self, honba: HonbaCounter) -> (r: Points)
        requires
            payments_fit(self@, honba as nat),
        ensures
            r == spec_dealer_ron(self@, honba as nat),
    {
        proof {
            use_type_invariant(self);
        }
        self.round_payment((self.base_points * DEALER_RON_MULTIPLIER) + (self.tsumibou * honba))
    }

    /// Get the amount of points each player pays when the dealer wins by self-draw.
    pub fn dealer_tsumo(&self, honba: HonbaCounter) -> (r: Points)
        requires
            self@ * 2 + 100 * honba + 99 <= u64::MAX,
        ensures
            r == spec_dealer_tsumo(self@, honba as nat),
    {
        proof {
            use_type_invariant(self);
            assert(self.tsumibou / 3 == 100);
            assert((self.tsumibou / 3) * honba == 100 * honba);
        }
        self.round_payment(
            (self.base_points * DEALER_TSUMO_MULTIPLIER) + ((self.tsumibou / 3) * honba),
        )
    }

    /// Get the amount the player that dealt in pays to a non-dealer.
    pub fn non_dealer_ron(&self, honba: HonbaCounter) -> (r: Points)
        requires
            self@ * 4 + 300 * honba + 99 <= u64::MAX,
        ensures
            r == spec_non_dealer_ron(self@, honba as nat),
    {
        proof {
            use_type_invariant(self);
        }
        self.round_payment((self.base_points * NON_DEALER_RON_MULTIPLIER) + (self.tsumibou * honba))
    }

    /// Get the amount the dealer pays when a non-dealer wins by self-draw.
    pub fn non_dealer_tsumo_to_dealer(&self, honba: HonbaCounter) -> (r: Points)
        requires
            self@ * 2 + 100 * honba + 99 <= u64::MAX,
        ensures
            r == spec_non_dealer_tsumo_to_dealer(self@, honba as nat),
    {
        proof {
            use_type_invariant(self);
            assert(self.tsumibou / 3 == 100);
            assert((self.tsumibou / 3) * honba == 100 * honba);
        }
        self.round_payment(
            (self.base_points * NON_DEALER_TSUMO_TO_DEALER_MULTIPLIER) + ((self.tsumibou / 3)
                * honba),
        )
    }

    /// Get the amount each other non-dealer pays when a non-dealer wins by self-draw.
    pub fn non_dealer_tsumo_to_non_dealer(&self, honba: HonbaCounter) -> (r: Points)
        requires
            self@ + 100 * honba + 99 <= u64::MAX,
        ensures
            r == spec_non_dealer_tsumo_to_non_dealer(self@, honba as nat),
    {
        proof {
            use_type_invariant(self);
            assert(self.tsumibou / 3 == 100);
            assert((self.tsumibou / 3) * honba == 100 * honba);
        }
        self.round_payment(
            (self.base_points * NON_DEALER_TSUMO_TO_NON_DEALER_MULTIPLIER) + ((self.tsumibou / 3)
                * honba),
        )
    }
}

} // verus!
