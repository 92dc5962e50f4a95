use vstd::prelude::*;

use crate::score::FuValue;

verus! {

/// The sources of minipoints.
#[derive(Debug, Clone, Copy, PartialEq, Eq, Structural)]
pub enum Fu {
    BasePoints,
    BasePointsChitoi,
    ClosedRon,
    Tsumo,
    NonSimpleClosedTriplet,
    SimpleClosedTriplet,
    NonSimpleOpenTriplet,
    SimpleOpenTriplet,
    NonSimpleClosedKan,
    SimpleClosedKan,
    NonSimpleOpenKan,
    SimpleOpenKan,
    Toitsu,
    SingleWait,
}

/// The minipoints of each source.
pub open spec fn spec_fu_value(f: Fu) -> nat {
    match f {
        Fu::BasePoints => 20,
        Fu::BasePointsChitoi => 25,
        Fu::ClosedRon => 10,
        Fu::Tsumo => 2,
        Fu::NonSimpleClosedTriplet => 8,
        Fu::SimpleClosedTriplet => 4,
        Fu::NonSimpleOpenTriplet => 4,
        Fu::SimpleOpenTriplet => 2,
        Fu::NonSimpleClosedKan => 32,
        Fu::SimpleClosedKan => 16,
        Fu::NonSimpleOpenKan => 16,
        Fu::SimpleOpenKan => 8,
        Fu::Toitsu => 2,
        Fu::SingleWait => 2,
    }
}

/// The sum of the minipoints of a list of sources.
pub open spec fn sum_fu(fu: Seq<Fu>) -> nat
    decreases fu.len(),
{
    if fu.len() == 0 {
        0
    } else {
        sum_fu(fu.drop_last()) + spec_fu_value(fu.last())
    }
}

/// `n` rounded up to a multiple of ten.
pub open spec fn round_up_ten(n: nat) -> nat {
    ((n + 9) / 10 * 10) as nat
}

/// The label that is printed for each source.
pub open spec fn spec_fu_label(f: Fu) -> Seq<char> {
    match f {
        Fu::BasePoints => "BasePoints: 20"@,
        Fu::BasePointsChitoi => "BasePoints: 25"@,
        Fu::ClosedRon => "ClosedRon: 10"@,
        Fu::Tsumo => "Tsumo: 2"@,
        Fu::NonSimpleClosedTriplet => "NonSimpleClosedTriplet: 8"@,
        Fu::SimpleClosedTriplet => "ClosedTriplet: 4"@,
        Fu::NonSimpleOpenTriplet => "NonSimpleOpenTriplet: 4"@,
        Fu::SimpleOpenTriplet => "OpenTriplet: 2"@,
        Fu::NonSimpleClosedKan => "NonSimpleClosedKan: 32"@,
        Fu::SimpleClosedKan => "ClosedKan: 16"@,
        Fu::NonSimpleOpenKan => "NonSimpleOpenKan: 16"@,
        Fu::SimpleOpenKan => "OpenKan: 8"@,
        Fu::Toitsu => "Toitsu: 2"@,
        Fu::SingleWait => "SingleWait: 2"@,
    }
}

impl Fu {
    /// Get the minipoint value.
    pub fn value(&self) -> (r: FuValue)
        ensures
            r == spec_fu_value(*self),
    {
        match self {
            Self::BasePoints => 20,
            Self::BasePointsChitoi => 25,
            Self::ClosedRon => 10,
            Self::Tsumo => 2,
            Self::NonSimpleClosedTriplet => 8,
            Self::SimpleClosedTriplet => 4,
            Self::NonSimpleOpenTriplet => 4,
            Self::SimpleOpenTriplet => 2,
            Self::NonSimpleClosedKan => 32,
            Self::SimpleClosedKan => 16,
            Self::NonSimpleOpenKan => 16,
            Self::SimpleOpenKan => 8,
            Self::Toitsu => 2,
            Self::SingleWait => 2,
        }
    }

    /// The printed label of the source and its minipoints.
    pub fn to_string(&self) -> (s: String)
        ensures
            s@ == spec_fu_label(*self),
    {
        let lit = match self {
            Self::BasePoints => "BasePoints: 20",
            Self::BasePointsChitoi => "BasePoints: 25",
            Self::ClosedRon => "ClosedRon: 10",
            Self::Tsumo => "Tsumo: 2",
            Self::NonSimpleClosedTriplet => "NonSimpleClosedTriplet: 8",
            Self::SimpleClosedTriplet => "ClosedTriplet: 4",
            Self::NonSimpleOpenTriplet => "NonSimpleOpenTriplet: 4",
            Self::SimpleOpenTriplet => "OpenTriplet: 2",
            Self::NonSimpleClosedKan => "NonSimpleClosedKan: 32",
            Self::SimpleClosedKan => "ClosedKan: 16",
            Self::NonSimpleOpenKan => "NonSimpleOpenKan: 16",
            Self::SimpleOpenKan => "OpenKan: 8",
            Self::Toitsu => "Toitsu: 2",
            Self::SingleWait => "SingleWait: 2",
        };
        String::from_str(lit)
    }
}

/// Sum up all of the fu, rounding up to the nearest 10.
pub fn calculate_total_fu_value(fu: &[Fu]) -> (r: FuValue)
    requires
        sum_fu(fu@) + 9 <= u64::MAX,
    ensures
        r == round_up_ten(sum_fu(fu@)),
{
    let mut total: u64 = 0;
    let mut i: usize = 0;
    while i < fu.len()
        invariant
            i <= fu.len(),
            total == sum_fu(fu@.take(i as int)),
            sum_fu(fu@) + 9 <= u64::MAX,
        decreases fu.len() - i,
    {
        proof {
            assert(fu@.take(i + 1).drop_last() =~= fu@.take(i as int));
            lemma_sum_fu_prefix(fu@, i + 1);
        }
        total = total + fu[i].value();
        i += 1;
    }
    proof {
        assert(fu@.take(fu.len() as int) =~= fu@);
    }
    (total + 9) / 10 * 10
}

/// No source is worth more than 32 minipoints.
pub proof fn lemma_sum_fu_bound(fu: Seq<Fu>)
    ensures
        sum_fu(fu) <= 32 * fu.len(),
    decreases fu.len(),
{
    if fu.len() > 0 {
        lemma_sum_fu_bound(fu.drop_last());
    }
}

/// The sum over a prefix is at most the sum over the whole list.
pub proof fn lemma_sum_fu_prefix(fu: Seq<Fu>, i: int)
    requires
        0 <= i <= fu.len(),
    ensures
        sum_fu(fu.take(i)) <= sum_fu(fu),
    decreases fu.len() - i,
{
    if i < fu.len() {
        lemma_sum_fu_prefix(fu, i + 1);
        assert(fu.take(i + 1).drop_last() =~= fu.take(i));
    } else {
        assert(fu.take(i) =~= fu);
    }
}

} // verus!
