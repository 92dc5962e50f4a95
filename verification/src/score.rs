use vstd::prelude::*;

use crate::fu::Fu;
use crate::payment::Payment;
use crate::yaku::Yaku;

verus! {

/// Han value.
pub type HanValue = u32;

/// Fu (minipoints) value.
pub type FuValue = u64;

/// Number of honba (repeat counts).
pub type HonbaCounter = u64;

/// Detailed breakdown of the winning hand's score.
#[derive(Debug)]
pub struct Score {
    /// Breakdown of payment amounts.
    payment: Payment,
    /// List of yaku that were awarded.
    yaku: Vec<Yaku>,
    /// List of fu that were awarded.
    fu: Vec<Fu>,
    /// Total score of the yaku that were awarded including dora.
    han: HanValue,
    /// Total score of the fu that were awarded.
    fu_score: FuValue,
    /// Number of repeat counters.
    honba: HonbaCounter,
    /// Is the hand open when it scored?
    is_open: bool,
    /// Total number of han from dora.
    dora_count: u32,
}

/// The mathematical content of a [`Score`]; the payment is its base points.
pub struct ScoreView {
    pub payment: nat,
    pub yaku: Seq<Yaku>,
    pub fu: Seq<Fu>,
    pub han: nat,
    pub fu_score: nat,
    pub honba: nat,
    pub is_open: bool,
    pub dora_count: nat,
}

impl View for Score {
    type V = ScoreView;

    closed spec fn view(&self) -> ScoreView {
        ScoreView {
            payment: self.payment@,
            yaku: self.yaku@,
            fu: self.fu@,
            han: self.han as nat,
            fu_score: self.fu_score as nat,
            honba: self.honba as nat,
            is_open: self.is_open,
            dora_count: self.dora_count as nat,
        }
    }
}

impl Score {
    /// Create a new [`Score`].
    pub fn new(
        payment: Payment,
        yaku: Vec<Yaku>,
        fu: Vec<Fu>,
        han: HanValue,
        fu_score: FuValue,
        honba: HonbaCounter,
        is_open: bool,
        dora_count: u32,
    ) -> (r: Self)
        ensures
            r@ == (ScoreView {
                payment: payment@,
                yaku: yaku@,
                fu: fu@,
                han: han as nat,
                fu_score: fu_score as nat,
                honba: honba as nat,
                is_open,
                dora_count: dora_count as nat,
            }),
    {
        Self { payment, yaku, fu, han, fu_score, honba, is_open, dora_count }
    }

    /// Get the payment breakdown.
    pub fn payment(&self) -> (r: &Payment)
        ensures
            r@ == self@.payment,
    {
        &self.payment
    }

    /// Get the list of yaku that were awarded.
    pub fn yaku(&self) -> (r: &[Yaku])
        ensures
            r@ == self@.yaku,
    {
        self.yaku.as_slice()
    }

    /// Get the list of fu that were awarded.
    pub fn fu(&self) -> (r: &[Fu])
        ensures
            r@ == self@.fu,
    {
        self.fu.as_slice()
    }

    /// Get the total han value of the hand.
    pub fn han(&self) -> (r: HanValue)
        ensures
            r == self@.han,
    {
        self.han
    }

    /// Get the total fu (minipoints) value of the hand.
    pub fn fu_score(&self) -> (r: FuValue)
        ensures
            r == self@.fu_score,
    {
        self.fu_score
    }

    /// Get the number of repeat counters.
    pub fn honba(&self) -> (r: HonbaCounter)
        ensures
            r == self@.honba,
    {
        self.honba
    }

    /// Get whether the hand was opened.
    pub fn is_open(&self) -> (r: bool)
        ensures
            r == self@.is_open,
    {
        self.is_open
    }

    /// Get the total number of han from dora.
    pub fn dora_count(&self) -> (r: u32)
        ensures
            r == self@.dora_count,
    {
        self.dora_count
    }
}

} // verus!
