use vstd::prelude::*;

use crate::chars::{decimal, spec_parse_u8};
use crate::fu::Fu;
use crate::suit::Suit;
use crate::hand::error::HandErr;
use crate::tile_group::{
    next_tile_defined, spec_next_tile, spec_tile_count, spec_try_from, GroupType, TileGroup, TileView,
};

verus! {

/// The views of a sequence of groups.
pub open spec fn views(v: Seq<TileGroup>) -> Seq<TileView> {
    v.map_values(|g: TileGroup| g@)
}

/// The groups of one shape, in hand order.
pub open spec fn filter_type(gs: Seq<TileView>, t: GroupType) -> Seq<TileView>
    decreases gs.len(),
{
    if gs.len() == 0 {
        Seq::empty()
    } else {
        let r = filter_type(gs.drop_last(), t);
        if gs.last().group_type == t {
            r.push(gs.last())
        } else {
            r
        }
    }
}

/// The number of groups of one shape.
pub open spec fn count_type(gs: Seq<TileView>, t: GroupType) -> nat {
    filter_type(gs, t).len()
}

/// The triplets followed by the kans.
pub open spec fn melds(gs: Seq<TileView>) -> Seq<TileView> {
    filter_type(gs, GroupType::Triplet) + filter_type(gs, GroupType::Kan)
}

/// The number of tiles in all groups.
pub open spec fn total_tiles(gs: Seq<TileView>) -> nat
    decreases gs.len(),
{
    if gs.len() == 0 {
        0
    } else {
        total_tiles(gs.drop_last()) + spec_tile_count(gs.last().group_type)
    }
}

/// Whether some group was called from another player.
pub open spec fn any_open(gs: Seq<TileView>) -> bool {
    exists|i: int| 0 <= i < gs.len() && #[trigger] gs[i].isopen
}

/// The shapes of a complete hand: four melds and a pair, seven pairs, or twelve single
/// tiles and a pair.
pub open spec fn shape_ok(gs: Seq<TileView>) -> bool {
    let full = count_type(gs, GroupType::Triplet) + count_type(gs, GroupType::Sequence)
        + count_type(gs, GroupType::Kan);
    let pairs = count_type(gs, GroupType::Pair);
    (full == 4 && pairs == 1) || pairs == 7 || (count_type(gs, GroupType::Single) == 12 && pairs
        == 1)
}

/// The number that a group's value reads as.
pub open spec fn num(t: TileView) -> int {
    spec_parse_u8(t.value).unwrap() as int
}

/// Whether the winning tile can complete the last group of a fourteen-tile hand: a
/// sequence of its suit that holds its number, or a triplet, pair or single tile of its
/// value (the single tile is the winning tile of thirteen orphans).
pub open spec fn win_fits_last(last: TileView, win: TileView) -> bool {
    if last.group_type == GroupType::Sequence {
        win.suit == last.suit && (num(win) == num(last) || num(win) == num(last) + 1 || num(win)
            == num(last) + 2)
    } else if last.group_type == GroupType::Triplet || last.group_type == GroupType::Pair
        || last.group_type == GroupType::Single {
        last.value == win.value && last.suit == win.suit
    } else {
        false
    }
}

/// How a hand made of these groups and winning tile is judged.
pub open spec fn spec_hand_check(gs: Seq<TileView>, win: TileView) -> Result<(), HandErr> {
    if !shape_ok(gs) {
        Err(HandErr::InvalidShape)
    } else if total_tiles(gs) == 14 && !win_fits_last(gs.last(), win) {
        Err(HandErr::InvalidShape)
    } else {
        Ok(())
    }
}

/// The values compared when a sequence is the last group of a fourteen-tile hand must be
/// numbers, and the numbers after the sequence's first must stay within a `u8`.
pub open spec fn seq_wait_computable(last: TileView, win: TileView) -> bool {
    spec_parse_u8(win.value) is Some && spec_parse_u8(last.value) is Some && (num(win) == num(
        last,
    ) || (num(last) + 1 <= 255 && (num(win) == num(last) + 1 || num(last) + 2 <= 255)))
}

/// The inputs on which a hand can be judged: its tile count fits a `u8`, and a sequence
/// completed by the winning tile has readable values.
pub open spec fn hand_check_defined(gs: Seq<TileView>, win: TileView) -> bool {
    shape_ok(gs) ==> {
        &&& total_tiles(gs) <= 255
        &&& (total_tiles(gs) == 14 && gs.last().group_type == GroupType::Sequence && win.suit
            == gs.last().suit) ==> seq_wait_computable(gs.last(), win)
    }
}

/// Reads every notation string, stopping at the first that does not name a group.
pub open spec fn parse_all(tiles: Seq<Seq<char>>) -> Result<Seq<TileView>, HandErr>
    decreases tiles.len(),
{
    if tiles.len() == 0 {
        Ok(Seq::empty())
    } else {
        match parse_all(tiles.drop_last()) {
            Err(e) => Err(e),
            Ok(vs) => match spec_try_from(tiles.last()) {
                Err(e) => Err(e),
                Ok(v) => Ok(vs.push(v)),
            },
        }
    }
}

/// The mathematical content of a hand.
pub struct HandView {
    pub groups: Seq<TileView>,
    pub win: TileView,
    pub seat: TileView,
    pub prev: TileView,
    pub isopen: bool,
}

impl HandView {
    /// What every hand satisfies: a complete shape, a tile count within a `u8`, the open
    /// flag of its groups, and a winning tile that completes the last group.
    pub open spec fn wf(self) -> bool {
        &&& shape_ok(self.groups)
        &&& total_tiles(self.groups) <= 255
        &&& self.isopen == any_open(self.groups)
        &&& total_tiles(self.groups) == 14 ==> win_fits_last(self.groups.last(), self.win)
    }

    pub open spec fn last(self) -> TileView {
        self.groups.last()
    }

    pub open spec fn sequences(self) -> Seq<TileView> {
        filter_type(self.groups, GroupType::Sequence)
    }

    pub open spec fn triplets(self) -> Seq<TileView> {
        filter_type(self.groups, GroupType::Triplet)
    }

    pub open spec fn kans(self) -> Seq<TileView> {
        filter_type(self.groups, GroupType::Kan)
    }

    pub open spec fn pairs(self) -> Seq<TileView> {
        filter_type(self.groups, GroupType::Pair)
    }

    pub open spec fn singles(self) -> Seq<TileView> {
        filter_type(self.groups, GroupType::Single)
    }

    /// The sources of minipoints of the hand, in the order they are counted.
    pub open spec fn fu(self, tsumo: bool) -> Seq<Fu> {
        let base = seq![Fu::BasePoints];
        let t = if tsumo {
            seq![Fu::Tsumo]
        } else {
            Seq::empty()
        };
        let c = if !self.isopen {
            seq![Fu::ClosedRon]
        } else {
            Seq::empty()
        };
        base + t + c + triplets_fu(self.triplets(), self.last(), tsumo) + kans_fu(self.kans())
            + pairs_fu(self.pairs(), self.seat, self.prev) + wait_fu(self.last(), self.win)
    }

    /// The dora tiles in the hand for one dora tile: each tile of a matching triplet, kan or
    /// pair, and one for each sequence that holds it.
    pub open spec fn dora_for(self, d: TileView) -> nat {
        3 * count_matching(self.triplets(), d) + 4 * count_matching(self.kans(), d) + 2
            * count_matching(self.pairs(), d) + count_seq_hits(self.sequences(), d)
    }

    /// The dora tiles in the hand for a list of dora indicators.
    pub open spec fn indicated_dora(self, inds: Seq<TileView>) -> nat
        decreases inds.len(),
    {
        if inds.len() == 0 {
            0
        } else {
            self.indicated_dora(inds.drop_last()) + self.dora_for(
                spec_next_tile(inds.last()).unwrap(),
            )
        }
    }

    /// The dora count: the red fives, and the dora of the indicators when there are any.
    pub open spec fn dora_count(self, inds: Option<Seq<TileView>>) -> nat {
        count_aka(self.groups) + match inds {
            None => 0,
            Some(is) => self.indicated_dora(is),
        }
    }

    /// Every indicator has a next tile, every sequence can be compared with it, and the
    /// count fits a `u32`.
    pub open spec fn dora_defined(self, inds: Option<Seq<TileView>>) -> bool {
        match inds {
            None => true,
            Some(is) => {
                &&& forall|i: int|
                    0 <= i < is.len() ==> next_tile_defined(#[trigger] is[i]) && spec_next_tile(
                        is[i],
                    ) is Ok
                &&& forall|i: int, j: int|
                    0 <= i < is.len() && 0 <= j < self.sequences().len() ==> seq_dora_defined(
                        #[trigger] self.sequences()[j],
                        spec_next_tile(#[trigger] is[i]).unwrap(),
                    )
                &&& self.dora_count(inds) <= u32::MAX
            },
        }
    }

    /// The values that the minipoint count reads as numbers: those of a last sequence and
    /// of the winning tile, with room to add one to the sequence's.
    pub open spec fn fu_defined(self) -> bool {
        self.last().group_type == GroupType::Sequence ==> {
            &&& spec_parse_u8(self.last().value) is Some
            &&& num(self.last()) < 255
            &&& spec_parse_u8(self.win.value) is Some
        }
    }
}

/// A group of terminals or honors, or a sequence holding a terminal.
pub open spec fn terminal_or_honor(g: TileView) -> bool {
    g.is_honor() || g.isterminal
}

/// The minipoints of one triplet. The triplet equal to the last group was completed by the
/// winning tile: it counts as closed on a tsumo and as open on a ron.
pub open spec fn triplet_fu(g: TileView, last: TileView, tsumo: bool) -> Seq<Fu> {
    if g == last {
        if tsumo {
            seq![if terminal_or_honor(g) { Fu::NonSimpleClosedTriplet } else { Fu::SimpleClosedTriplet }]
        } else {
            seq![if terminal_or_honor(g) { Fu::NonSimpleOpenTriplet } else { Fu::SimpleOpenTriplet }]
        }
    } else {
        let a = if !terminal_or_honor(g) && g.isopen {
            seq![Fu::SimpleOpenTriplet]
        } else {
            Seq::empty()
        };
        let b = if !g.isopen {
            seq![if terminal_or_honor(g) { Fu::NonSimpleClosedTriplet } else { Fu::SimpleClosedTriplet }]
        } else if terminal_or_honor(g) {
            seq![Fu::NonSimpleOpenTriplet]
        } else {
            Seq::empty()
        };
        a + b
    }
}

/// The minipoints of the triplets, in order.
pub open spec fn triplets_fu(ts: Seq<TileView>, last: TileView, tsumo: bool) -> Seq<Fu>
    decreases ts.len(),
{
    if ts.len() == 0 {
        Seq::empty()
    } else {
        triplets_fu(ts.drop_last(), last, tsumo) + triplet_fu(ts.last(), last, tsumo)
    }
}

/// The minipoints of one kan.
pub open spec fn kan_fu(g: TileView) -> Fu {
    if terminal_or_honor(g) {
        if !g.isopen {
            Fu::NonSimpleClosedKan
        } else {
            Fu::NonSimpleOpenKan
        }
    } else if !g.isopen {
        Fu::SimpleClosedKan
    } else {
        Fu::SimpleOpenKan
    }
}

/// The minipoints of the kans, in order.
pub open spec fn kans_fu(ks: Seq<TileView>) -> Seq<Fu>
    decreases ks.len(),
{
    if ks.len() == 0 {
        Seq::empty()
    } else {
        kans_fu(ks.drop_last()).push(kan_fu(ks.last()))
    }
}

/// Whether a pair is of a value honor: the prevalent wind, the seat wind or a dragon.
pub open spec fn value_pair(g: TileView, seat: TileView, prev: TileView) -> bool {
    g.value == prev.value || g.value == seat.value || g.suit == Suit::Dragon
}

/// The minipoints of the pairs, in order.
pub open spec fn pairs_fu(ps: Seq<TileView>, seat: TileView, prev: TileView) -> Seq<Fu>
    decreases ps.len(),
{
    if ps.len() == 0 {
        Seq::empty()
    } else if value_pair(ps.last(), seat, prev) {
        pairs_fu(ps.drop_last(), seat, prev).push(Fu::Toitsu)
    } else {
        pairs_fu(ps.drop_last(), seat, prev)
    }
}

/// The minipoints of the wait: a pair wait; a sequence completed in the middle; a
/// terminal sequence completed by a simple tile (an edge wait).
pub open spec fn wait_fu(last: TileView, win: TileView) -> Seq<Fu> {
    if last.group_type == GroupType::Pair {
        seq![Fu::SingleWait]
    } else if last.group_type == GroupType::Sequence {
        let a = if num(win) == num(last) + 1 {
            seq![Fu::SingleWait]
        } else {
            Seq::empty()
        };
        let b = if !win.isterminal && last.isterminal {
            seq![Fu::SingleWait]
        } else {
            Seq::empty()
        };
        a + b
    } else {
        Seq::empty()
    }
}

/// The views of an optional list of groups.
pub open spec fn opt_views(v: Option<Vec<TileGroup>>) -> Option<Seq<TileView>> {
    match v {
        Some(v) => Some(views(v@)),
        None => None,
    }
}

/// Whether a group is made of the dora tile.
pub open spec fn matching(g: TileView, d: TileView) -> bool {
    g.value == d.value && g.suit == d.suit
}

/// The number of groups made of the dora tile.
pub open spec fn count_matching(gs: Seq<TileView>, d: TileView) -> nat
    decreases gs.len(),
{
    if gs.len() == 0 {
        0
    } else {
        count_matching(gs.drop_last(), d) + if matching(gs.last(), d) {
            1nat
        } else {
            0nat
        }
    }
}

/// Whether a sequence holds the dora tile: as its first, second or third tile.
pub open spec fn seq_hits(s: TileView, d: TileView) -> bool {
    (s.value == d.value || decimal((num(s) + 1) as nat) == d.value || decimal((num(s) + 2) as nat)
        == d.value) && s.suit == d.suit
}

/// The number of sequences that hold the dora tile.
pub open spec fn count_seq_hits(ss: Seq<TileView>, d: TileView) -> nat
    decreases ss.len(),
{
    if ss.len() == 0 {
        0
    } else {
        count_seq_hits(ss.drop_last(), d) + if seq_hits(ss.last(), d) {
            1nat
        } else {
            0nat
        }
    }
}

/// A sequence whose value differs from the dora's must read as a number, with room to
/// add one, and two when the next value differs too.
pub open spec fn seq_dora_defined(s: TileView, d: TileView) -> bool {
    s.value == d.value || (spec_parse_u8(s.value) is Some && num(s) < 255 && (decimal(
        (num(s) + 1) as nat,
    ) == d.value || num(s) < 254))
}

/// The number of groups holding a red five.
pub open spec fn count_aka(gs: Seq<TileView>) -> nat
    decreases gs.len(),
{
    if gs.len() == 0 {
        0
    } else {
        count_aka(gs.drop_last()) + if gs.last().isaka {
            1nat
        } else {
            0nat
        }
    }
}

/// Each triplet gives at most two sources of minipoints.
pub proof fn lemma_triplets_fu_len(ts: Seq<TileView>, last: TileView, tsumo: bool)
    ensures
        triplets_fu(ts, last, tsumo).len() <= 2 * ts.len(),
    decreases ts.len(),
{
    if ts.len() > 0 {
        lemma_triplets_fu_len(ts.drop_last(), last, tsumo);
    }
}

/// Each kan gives one source of minipoints.
pub proof fn lemma_kans_fu_len(ks: Seq<TileView>)
    ensures
        kans_fu(ks).len() == ks.len(),
    decreases ks.len(),
{
    if ks.len() > 0 {
        lemma_kans_fu_len(ks.drop_last());
    }
}

/// Each pair gives at most one source of minipoints.
pub proof fn lemma_pairs_fu_len(ps: Seq<TileView>, seat: TileView, prev: TileView)
    ensures
        pairs_fu(ps, seat, prev).len() <= ps.len(),
    decreases ps.len(),
{
    if ps.len() > 0 {
        lemma_pairs_fu_len(ps.drop_last(), seat, prev);
    }
}

/// A hand has at most a thousand and twenty-five sources of minipoints.
pub proof fn lemma_fu_len(h: HandView, tsumo: bool)
    requires
        h.wf(),
    ensures
        h.fu(tsumo).len() <= 1025,
{
    lemma_triplets_fu_len(h.triplets(), h.last(), tsumo);
    lemma_kans_fu_len(h.kans());
    lemma_pairs_fu_len(h.pairs(), h.seat, h.prev);
    lemma_filter_type_len(h.groups, GroupType::Triplet);
    lemma_filter_type_len(h.groups, GroupType::Kan);
    lemma_filter_type_len(h.groups, GroupType::Pair);
    lemma_groups_le_tiles(h.groups);
}

/// Facts about the shape filter.
pub proof fn lemma_filter_type_len(gs: Seq<TileView>, t: GroupType)
    ensures
        filter_type(gs, t).len() <= gs.len(),
        forall|i: int|
            0 <= i < filter_type(gs, t).len() ==> #[trigger] filter_type(gs, t)[i].group_type
                == t,
    decreases gs.len(),
{
    if gs.len() > 0 {
        lemma_filter_type_len(gs.drop_last(), t);
    }
}

/// A hand's groups are no more than its tiles.
pub proof fn lemma_groups_le_tiles(gs: Seq<TileView>)
    ensures
        gs.len() <= total_tiles(gs),
    decreases gs.len(),
{
    if gs.len() > 0 {
        lemma_groups_le_tiles(gs.drop_last());
    }
}

/// A complete shape has a pair.
pub proof fn lemma_shape_has_pair(gs: Seq<TileView>)
    requires
        shape_ok(gs),
    ensures
        count_type(gs, GroupType::Pair) >= 1,
        gs.len() >= 1,
{
    lemma_filter_type_len(gs, GroupType::Pair);
}

} // verus!
