pub mod error;
mod checks;
pub mod guards;
pub mod model;
pub mod yaku_model;

use vstd::prelude::*;

use crate::fu::Fu;
use crate::hand::error::HandErr;
use crate::hand::model::{
    any_open, count_type, filter_type, hand_check_defined, kans_fu, lemma_shape_has_pair,
    pairs_fu, parse_all, shape_ok, spec_hand_check, total_tiles, triplet_fu, triplets_fu, views,
    num, wait_fu, HandView, opt_views, count_aka, count_matching, count_seq_hits, seq_dora_defined,
    lemma_groups_le_tiles, lemma_filter_type_len,
};
use crate::chars::{decimal_string, spec_parse_u8};
use crate::tile_group::next_tile_defined;
use crate::suit::Suit;
use crate::tile_group::{spec_try_from, view_result, GroupType, TileGroup, TileView};

verus! {

/// A complete hand: its groups in the order written (the group completed by the winning
/// tile last), the winning tile, and the seat and prevalent winds.
#[derive(Debug)]
pub struct Hand {
    groups: Vec<TileGroup>,
    win_tile: TileGroup,
    seat_tile: TileGroup,
    /// Prevalent or round wind.
    prev_tile: TileGroup,
    isopen: bool,
}

impl View for Hand {
    type V = HandView;

    closed spec fn view(&self) -> HandView {
        HandView {
            groups: views(self.groups@),
            win: self.win_tile@,
            seat: self.seat_tile@,
            prev: self.prev_tile@,
            isopen: self.isopen,
        }
    }
}

/// A hand built from notation strings, seen through its view.
pub open spec fn hand_result(r: Result<Hand, HandErr>) -> Result<HandView, HandErr> {
    match r {
        Ok(h) => Ok(h@),
        Err(e) => Err(e),
    }
}

/// How a hand is built from notation strings: each group string in order, then the winning
/// tile, the seat wind and the prevalent wind are read, and the first that does not name a
/// group is the error; then the hand is judged.
pub open spec fn spec_from_strings(
    tiles: Seq<Seq<char>>,
    win: Seq<char>,
    prev: Seq<char>,
    seat: Seq<char>,
) -> Result<HandView, HandErr> {
    match parse_all(tiles) {
        Err(e) => Err(e),
        Ok(vs) => match spec_try_from(win) {
            Err(e) => Err(e),
            Ok(w) => match spec_try_from(seat) {
                Err(e) => Err(e),
                Ok(s) => match spec_try_from(prev) {
                    Err(e) => Err(e),
                    Ok(p) => match spec_hand_check(vs, w) {
                        Err(e) => Err(e),
                        Ok(_) => Ok(HandView { groups: vs, win: w, seat: s, prev: p, isopen: any_open(vs) }),
                    },
                },
            },
        },
    }
}

/// The notation strings on which a hand can be judged once they are read.
pub open spec fn from_strings_defined(
    tiles: Seq<Seq<char>>,
    win: Seq<char>,
    prev: Seq<char>,
    seat: Seq<char>,
) -> bool {
    (parse_all(tiles) is Ok && spec_try_from(win) is Ok && spec_try_from(seat) is Ok
        && spec_try_from(prev) is Ok) ==> hand_check_defined(
        parse_all(tiles).unwrap(),
        spec_try_from(win).unwrap(),
    )
}

/// The views of a list of strings.
pub open spec fn string_views(v: Seq<String>) -> Seq<Seq<char>> {
    v.map_values(|s: String| s@)
}

proof fn lemma_total_prefix(gs: Seq<TileView>, i: int)
    requires
        0 <= i <= gs.len(),
    ensures
        total_tiles(gs.take(i)) <= total_tiles(gs),
    decreases gs.len() - i,
{
    if i < gs.len() {
        lemma_total_prefix(gs, i + 1);
        assert(gs.take(i + 1).drop_last() =~= gs.take(i));
    } else {
        assert(gs.take(i) =~= gs);
    }
}

impl Hand {
    #[verifier::type_invariant]
    spec fn inv(self) -> bool {
        self@.wf()
    }

    /// Judge a hand: its groups must form a complete shape and, in a fourteen-tile hand,
    /// the winning tile must complete the last group.
    pub fn new(
        groups: Vec<TileGroup>,
        win_tile: TileGroup,
        seat_tile: TileGroup,
        prev_tile: TileGroup,
    ) -> (r: Result<Self, HandErr>)
        requires
            hand_check_defined(views(groups@), win_tile@),
        ensures
            match r {
                Ok(h) => spec_hand_check(views(groups@), win_tile@) == Ok::<(), HandErr>(())
                    && h@ == (HandView {
                    groups: views(groups@),
                    win: win_tile@,
                    seat: seat_tile@,
                    prev: prev_tile@,
                    isopen: any_open(views(groups@)),
                }) && h@.wf(),
                Err(e) => spec_hand_check(views(groups@), win_tile@) == Err::<(), HandErr>(e),
            },
    {
        let ghost gs = views(groups@);
        let mut full_shape_count: usize = 0;
        let mut pair_count: usize = 0;
        let mut no_shape_count: usize = 0;
        let mut isopen = false;
        let mut i: usize = 0;
        while i < groups.len()
            invariant
                gs == views(groups@),
                i <= groups.len(),
                full_shape_count == count_type(gs.take(i as int), GroupType::Triplet) + count_type(
                    gs.take(i as int),
                    GroupType::Sequence,
                ) + count_type(gs.take(i as int), GroupType::Kan),
                pair_count == count_type(gs.take(i as int), GroupType::Pair),
                no_shape_count == count_type(gs.take(i as int), GroupType::Single),
                full_shape_count + pair_count + no_shape_count == i,
                isopen == any_open(gs.take(i as int)),
            decreases groups.len() - i,
        {
            proof {
                assert(gs.take(i + 1).drop_last() =~= gs.take(i as int));
                assert(gs.take(i + 1).last() == gs[i as int]);
            }
            match groups[i].group_type {
                GroupType::Triplet | GroupType::Sequence | GroupType::Kan => full_shape_count += 1,
                GroupType::Pair => pair_count += 1,
                GroupType::Single => no_shape_count += 1,
            }
            if groups[i].isopen {
                isopen = true;
                assert(gs.take(i + 1)[i as int].isopen);
            }
            proof {
                if any_open(gs.take(i + 1)) && !groups[i as int].isopen {
                    let j = choose|j: int| 0 <= j < i + 1 && #[trigger] gs.take(i + 1)[j].isopen;
                    assert(gs.take(i as int)[j].isopen);
                }
            }
            i += 1;
        }
        proof {
            assert(gs.take(groups.len() as int) =~= gs);
        }
        if !(full_shape_count == 4 && pair_count == 1) && pair_count != 7 && !(no_shape_count == 12
            && pair_count == 1) {
            return Err(HandErr::InvalidShape);
        }
        let mut tilecount: u8 = 0;
        let mut k: usize = 0;
        while k < groups.len()
            invariant
                gs == views(groups@),
                shape_ok(gs),
                hand_check_defined(gs, win_tile@),
                k <= groups.len(),
                tilecount == total_tiles(gs.take(k as int)),
            decreases groups.len() - k,
        {
            proof {
                assert(gs.take(k + 1).drop_last() =~= gs.take(k as int));
                lemma_total_prefix(gs, k + 1);
            }
            tilecount = tilecount + groups[k].group_type.tile_count();
            k += 1;
        }
        proof {
            assert(gs.take(groups.len() as int) =~= gs);
            lemma_shape_has_pair(gs);
        }
        if tilecount == 14 {
            let last_group = &groups[groups.len() - 1];
            match last_group.group_type {
                GroupType::Sequence => {
                    if win_tile.suit != last_group.suit {
                        return Err(HandErr::InvalidShape);
                    }
                    let win_int = match win_tile.parse_u8() {
                        Ok(n) => n,
                        Err(_) => {
                            assert(false);
                            0
                        },
                    };
                    let last_int = match last_group.parse_u8() {
                        Ok(n) => n,
                        Err(_) => {
                            assert(false);
                            0
                        },
                    };
                    if win_int != last_int && win_int != last_int + 1 && win_int != last_int + 2 {
                        return Err(HandErr::InvalidShape);
                    }
                },
                GroupType::Triplet | GroupType::Pair | GroupType::Single => {
                    if last_group.value != win_tile.value || last_group.suit != win_tile.suit {
                        return Err(HandErr::InvalidShape);
                    }
                },
                GroupType::Kan => return Err(HandErr::InvalidShape),
            }
        }
        Ok(Hand { groups, win_tile, seat_tile, prev_tile, isopen })
    }

    /// Build a hand from notation strings: the groups, the winning tile, the prevalent wind
    /// and the seat wind.
    pub fn new_from_strings(tiles: Vec<String>, win: String, prev: String, seat: String) -> (r:
        Result<Self, HandErr>)
        requires
            from_strings_defined(string_views(tiles@), win@, prev@, seat@),
        ensures
            hand_result(r) == spec_from_strings(string_views(tiles@), win@, prev@, seat@),
            r matches Ok(h) ==> h@.wf(),
    {
        let ghost ts = string_views(tiles@);
        let mut tile_groups: Vec<TileGroup> = Vec::new();
        let mut i: usize = 0;
        proof {
            assert(ts.take(0) =~= Seq::<Seq<char>>::empty());
            assert(views(tile_groups@) =~= Seq::<TileView>::empty());
        }
        while i < tiles.len()
            invariant
                ts == string_views(tiles@),
                i <= tiles.len(),
                parse_all(ts.take(i as int)) == Ok::<Seq<TileView>, HandErr>(views(tile_groups@)),
            decreases tiles.len() - i,
        {
            proof {
                assert(ts.take(i + 1).drop_last() =~= ts.take(i as int));
                assert(ts.take(i + 1).last() == tiles@[i as int]@);
            }
            let ghost old_groups = tile_groups@;
            let tile = TileGroup::try_from(tiles[i].clone());
            match tile {
                Ok(t) => {
                    tile_groups.push(t);
                    proof {
                        assert(views(tile_groups@) =~= views(old_groups).push(t@));
                    }
                },
                Err(e) => {
                    proof {
                        lemma_parse_all_err(ts, i as int + 1);
                    }
                    return Err(e);
                },
            }
            i += 1;
        }
        proof {
            assert(ts.take(tiles.len() as int) =~= ts);
        }
        let win_tile: TileGroup = match TileGroup::try_from(win) {
            Ok(t) => t,
            Err(e) => return Err(e),
        };
        let seat_tile: TileGroup = match TileGroup::try_from(seat) {
            Ok(t) => t,
            Err(e) => return Err(e),
        };
        let prev_tile: TileGroup = match TileGroup::try_from(prev) {
            Ok(t) => t,
            Err(e) => return Err(e),
        };
        let hand = Hand::new(tile_groups, win_tile, seat_tile, prev_tile);
        hand
    }

    /// Calculate the fu types in the hand.
    pub fn calculate_fu(&self, tsumo: bool) -> (r: Vec<Fu>)
        requires
            self@.fu_defined(),
        ensures
            r@ == self@.fu(tsumo),
    {
        proof {
            use_type_invariant(self);
            lemma_shape_has_pair(self@.groups);
        }
        let mut fu_types: Vec<Fu> = Vec::new();
        fu_types.push(Fu::BasePoints);
        if tsumo {
            fu_types.push(Fu::Tsumo);
        }
        if !self.is_open() {
            fu_types.push(Fu::ClosedRon);
        }
        let ghost start = fu_types@;
        let last = &self.groups[self.groups.len() - 1];
        let trips = self.triplets();
        push_triplets_fu(&mut fu_types, &trips, last, tsumo);
        let kans = self.kans();
        push_kans_fu(&mut fu_types, &kans);
        let pairs = self.pairs();
        push_pairs_fu(&mut fu_types, &pairs, &self.seat_tile, &self.prev_tile);
        push_wait_fu(&mut fu_types, last, &self.win_tile);
        proof {
            assert(fu_types@ =~= start + triplets_fu(self@.triplets(), self@.last(), tsumo)
                + kans_fu(self@.kans()) + pairs_fu(self@.pairs(), self@.seat, self@.prev)
                + wait_fu(self@.last(), self@.win));
        }
        fu_types
    }

    /// Get the dora count in the hand from the red fives and the dora indicator tiles.
    pub fn get_dora_count(&self, dora_indicator_tiles: Option<Vec<TileGroup>>) -> (r: u32)
        requires
            self@.dora_defined(opt_views(dora_indicator_tiles)),
        ensures
            r == self@.dora_count(opt_views(dora_indicator_tiles)),
    {
        proof {
            use_type_invariant(self);
            lemma_groups_le_tiles(self@.groups);
        }
        let ghost gs = self@.groups;
        let mut count: u32 = 0;
        let mut i: usize = 0;
        while i < self.groups.len()
            invariant
                gs == self@.groups,
                gs == views(self.groups@),
                self.groups.len() <= 255,
                i <= self.groups.len(),
                count == count_aka(gs.take(i as int)),
                count <= i,
            decreases self.groups.len() - i,
        {
            proof {
                assert(gs.take(i + 1).drop_last() =~= gs.take(i as int));
            }
            if self.groups[i].isaka {
                count += 1;
            }
            i += 1;
        }
        proof {
            assert(gs.take(self.groups.len() as int) =~= gs);
        }
        let tiles = match dora_indicator_tiles {
            None => return count,
            Some(tiles) => tiles,
        };
        let ghost inds = views(tiles@);
        let mut j: usize = 0;
        while j < tiles.len()
            invariant
                inds == views(tiles@),
                self@.dora_defined(Some(inds)),
                j <= tiles.len(),
                count == count_aka(self@.groups) + self@.indicated_dora(inds.take(j as int)),
            decreases tiles.len() - j,
        {
            proof {
                assert(inds.take(j + 1).drop_last() =~= inds.take(j as int));
                self.lemma_indicated_prefix(inds, j + 1);
                assert(next_tile_defined(inds[j as int]));
            }
            let dora_tile = match tiles[j].next_tile() {
                Ok(d) => d,
                Err(_) => {
                    assert(false);
                    return 0;
                },
            };
            let c = self.dora_for_tile(&dora_tile);
            count = count + c;
            j += 1;
        }
        proof {
            assert(inds.take(tiles.len() as int) =~= inds);
        }
        count
    }

    proof fn lemma_indicated_prefix(&self, inds: Seq<TileView>, k: int)
        requires
            0 <= k <= inds.len(),
        ensures
            self@.indicated_dora(inds.take(k)) <= self@.indicated_dora(inds),
        decreases inds.len() - k,
    {
        if k < inds.len() {
            self.lemma_indicated_prefix(inds, k + 1);
            assert(inds.take(k + 1).drop_last() =~= inds.take(k));
        } else {
            assert(inds.take(k) =~= inds);
        }
    }

    /// The dora in the hand for one dora tile.
    fn dora_for_tile(&self, d: &TileGroup) -> (r: u32)
        requires
            forall|j: int|
                0 <= j < self@.sequences().len() ==> seq_dora_defined(
                    #[trigger] self@.sequences()[j],
                    d@,
                ),
        ensures
            r == self@.dora_for(d@),
    {
        proof {
            use_type_invariant(self);
            lemma_groups_le_tiles(self@.groups);
            lemma_filter_type_len(self@.groups, GroupType::Triplet);
            lemma_filter_type_len(self@.groups, GroupType::Kan);
            lemma_filter_type_len(self@.groups, GroupType::Pair);
            lemma_filter_type_len(self@.groups, GroupType::Sequence);
        }
        let t = count_matching_groups(&self.triplets(), d);
        let k = count_matching_groups(&self.kans(), d);
        let p = count_matching_groups(&self.pairs(), d);
        let s = count_sequence_hits(&self.sequences(), d);
        3 * t + 4 * k + 2 * p + s
    }

    /// The groups of one shape, in hand order.
    fn groups_of(&self, t: GroupType) -> (r: Vec<TileGroup>)
        ensures
            views(r@) == filter_type(self@.groups, t),
    {
        let ghost gs = self@.groups;
        let mut r: Vec<TileGroup> = Vec::new();
        let mut i: usize = 0;
        while i < self.groups.len()
            invariant
                gs == self@.groups,
                gs == views(self.groups@),
                i <= self.groups.len(),
                views(r@) == filter_type(gs.take(i as int), t),
            decreases self.groups.len() - i,
        {
            proof {
                assert(gs.take(i + 1).drop_last() =~= gs.take(i as int));
                assert(gs.take(i + 1).last() == self.groups@[i as int]@);
            }
            if self.groups[i].group_type == t {
                let g = self.groups[i].clone();
                r.push(g);
                proof {
                    assert(views(r@) =~= views(r@.drop_last()).push(g@));
                }
            }
            i += 1;
        }
        proof {
            assert(gs.take(self.groups.len() as int) =~= gs);
        }
        r
    }

    /// Get the sequence groups in the hand.
    pub fn sequences(&self) -> (r: Vec<TileGroup>)
        ensures
            views(r@) == self@.sequences(),
    {
        self.groups_of(GroupType::Sequence)
    }

    /// Get the triplet groups in the hand.
    pub fn triplets(&self) -> (r: Vec<TileGroup>)
        ensures
            views(r@) == self@.triplets(),
    {
        self.groups_of(GroupType::Triplet)
    }

    /// Get the kan groups in the hand.
    pub fn kans(&self) -> (r: Vec<TileGroup>)
        ensures
            views(r@) == self@.kans(),
    {
        self.groups_of(GroupType::Kan)
    }

    /// Get the pair groups in the hand.
    pub fn pairs(&self) -> (r: Vec<TileGroup>)
        ensures
            views(r@) == self@.pairs(),
    {
        self.groups_of(GroupType::Pair)
    }

    /// Get the groups with no shape in the hand; kokushi musou is made of them.
    pub fn singles(&self) -> (r: Vec<TileGroup>)
        ensures
            views(r@) == self@.singles(),
    {
        self.groups_of(GroupType::Single)
    }

    /// Get the winning tile that completes the hand.
    pub fn win_tile(&self) -> (r: TileGroup)
        ensures
            r@ == self@.win,
    {
        self.win_tile.clone()
    }

    /// Get the seat wind.
    pub fn seat_tile(&self) -> (r: TileGroup)
        ensures
            r@ == self@.seat,
    {
        self.seat_tile.clone()
    }

    /// Get the prevalent wind.
    pub fn prev_tile(&self) -> (r: TileGroup)
        ensures
            r@ == self@.prev,
    {
        self.prev_tile.clone()
    }

    /// Every hand is well formed.
    pub(crate) fn lemma_wf(&self)
        ensures
            self@.wf(),
    {
        proof {
            use_type_invariant(self);
        }
    }

    /// Get the state of whether or not the hand has been opened.
    pub fn is_open(&self) -> (r: bool)
        ensures
            r == self@.isopen,
            r == any_open(self@.groups),
    {
        proof {
            use_type_invariant(self);
        }
        self.isopen
    }
}

fn push_triplet_fu(fu: &mut Vec<Fu>, g: &TileGroup, last: &TileGroup, tsumo: bool)
    ensures
        final(fu)@ == old(fu)@ + triplet_fu(g@, last@, tsumo),
{
    let ghost before = fu@;
    let toh = g.is_honor() || g.isterminal;
    if g.same_group(last) {
        if tsumo {
            if toh {
                fu.push(Fu::NonSimpleClosedTriplet);
            } else {
                fu.push(Fu::SimpleClosedTriplet);
            }
        } else if toh {
            fu.push(Fu::NonSimpleOpenTriplet);
        } else {
            fu.push(Fu::SimpleOpenTriplet);
        }
    } else {
        if !toh && g.isopen {
            fu.push(Fu::SimpleOpenTriplet);
        }
        if !g.isopen {
            if toh {
                fu.push(Fu::NonSimpleClosedTriplet);
            } else {
                fu.push(Fu::SimpleClosedTriplet);
            }
        } else if toh {
            fu.push(Fu::NonSimpleOpenTriplet);
        }
    }
    assert(fu@ =~= before + triplet_fu(g@, last@, tsumo));
}

fn push_triplets_fu(fu: &mut Vec<Fu>, trips: &Vec<TileGroup>, last: &TileGroup, tsumo: bool)
    ensures
        final(fu)@ == old(fu)@ + triplets_fu(views(trips@), last@, tsumo),
{
    let ghost start = fu@;
    let mut i: usize = 0;
    while i < trips.len()
        invariant
            i <= trips.len(),
            fu@ == start + triplets_fu(views(trips@).take(i as int), last@, tsumo),
        decreases trips.len() - i,
    {
        proof {
            assert(views(trips@).take(i + 1).drop_last() =~= views(trips@).take(i as int));
        }
        push_triplet_fu(fu, &trips[i], last, tsumo);
        proof {
            assert(start + triplets_fu(views(trips@).take(i + 1), last@, tsumo) =~= start
                + triplets_fu(views(trips@).take(i as int), last@, tsumo) + triplet_fu(
                trips@[i as int]@,
                last@,
                tsumo,
            ));
        }
        i += 1;
    }
    proof {
        assert(views(trips@).take(trips.len() as int) =~= views(trips@));
    }
}

fn push_kans_fu(fu: &mut Vec<Fu>, kans: &Vec<TileGroup>)
    ensures
        final(fu)@ == old(fu)@ + kans_fu(views(kans@)),
{
    let ghost start = fu@;
    let mut k: usize = 0;
    while k < kans.len()
        invariant
            k <= kans.len(),
            fu@ == start + kans_fu(views(kans@).take(k as int)),
        decreases kans.len() - k,
    {
        proof {
            assert(views(kans@).take(k + 1).drop_last() =~= views(kans@).take(k as int));
        }
        let kan = &kans[k];
        let toh = kan.is_honor() || kan.isterminal;
        let f = if toh {
            if !kan.isopen {
                Fu::NonSimpleClosedKan
            } else {
                Fu::NonSimpleOpenKan
            }
        } else if !kan.isopen {
            Fu::SimpleClosedKan
        } else {
            Fu::SimpleOpenKan
        };
        fu.push(f);
        proof {
            assert(fu@ =~= start + kans_fu(views(kans@).take(k + 1)));
        }
        k += 1;
    }
    proof {
        assert(views(kans@).take(kans.len() as int) =~= views(kans@));
    }
}

fn push_pairs_fu(fu: &mut Vec<Fu>, pairs: &Vec<TileGroup>, seat: &TileGroup, prev: &TileGroup)
    ensures
        final(fu)@ == old(fu)@ + pairs_fu(views(pairs@), seat@, prev@),
{
    let ghost start = fu@;
    let mut p: usize = 0;
    while p < pairs.len()
        invariant
            p <= pairs.len(),
            fu@ == start + pairs_fu(views(pairs@).take(p as int), seat@, prev@),
        decreases pairs.len() - p,
    {
        proof {
            assert(views(pairs@).take(p + 1).drop_last() =~= views(pairs@).take(p as int));
        }
        let pair = &pairs[p];
        if pair.value == prev.value || pair.value == seat.value || pair.suit == Suit::Dragon {
            fu.push(Fu::Toitsu);
            proof {
                assert(fu@ =~= start + pairs_fu(views(pairs@).take(p + 1), seat@, prev@));
            }
        }
        p += 1;
    }
    proof {
        assert(views(pairs@).take(pairs.len() as int) =~= views(pairs@));
    }
}

fn push_wait_fu(fu: &mut Vec<Fu>, last: &TileGroup, win: &TileGroup)
    requires
        last@.group_type == GroupType::Sequence ==> {
            &&& spec_parse_u8(last@.value) is Some
            &&& num(last@) < 255
            &&& spec_parse_u8(win@.value) is Some
        },
    ensures
        final(fu)@ == old(fu)@ + wait_fu(last@, win@),
{
    let ghost before = fu@;
    match last.group_type {
        GroupType::Pair => fu.push(Fu::SingleWait),
        GroupType::Sequence => {
            let last_int = match last.parse_u8() {
                Ok(n) => n,
                Err(_) => {
                    assert(false);
                    0
                },
            };
            let win_int = match win.parse_u8() {
                Ok(n) => n,
                Err(_) => {
                    assert(false);
                    0
                },
            };
            let mid_tile = last_int + 1;
            if win_int == mid_tile {
                fu.push(Fu::SingleWait);
            }
            if !win.isterminal && last.isterminal {
                fu.push(Fu::SingleWait);
            }
        },
        _ => {},
    }
    assert(fu@ =~= before + wait_fu(last@, win@));
}

fn count_matching_groups(gs: &Vec<TileGroup>, d: &TileGroup) -> (r: u32)
    requires
        gs.len() <= 255,
    ensures
        r == count_matching(views(gs@), d@),
        r <= gs.len(),
{
    let mut c: u32 = 0;
    let mut i: usize = 0;
    while i < gs.len()
        invariant
            gs.len() <= 255,
            i <= gs.len(),
            c == count_matching(views(gs@).take(i as int), d@),
            c <= i,
        decreases gs.len() - i,
    {
        proof {
            assert(views(gs@).take(i + 1).drop_last() =~= views(gs@).take(i as int));
        }
        if gs[i].value == d.value && gs[i].suit == d.suit {
            c += 1;
        }
        i += 1;
    }
    proof {
        assert(views(gs@).take(gs.len() as int) =~= views(gs@));
    }
    c
}

fn count_sequence_hits(ss: &Vec<TileGroup>, d: &TileGroup) -> (r: u32)
    requires
        ss.len() <= 255,
        forall|j: int| 0 <= j < ss.len() ==> seq_dora_defined(#[trigger] views(ss@)[j], d@),
    ensures
        r == count_seq_hits(views(ss@), d@),
        r <= ss.len(),
{
    let mut c: u32 = 0;
    let mut i: usize = 0;
    while i < ss.len()
        invariant
            ss.len() <= 255,
            forall|j: int| 0 <= j < ss.len() ==> seq_dora_defined(#[trigger] views(ss@)[j], d@),
            i <= ss.len(),
            c == count_seq_hits(views(ss@).take(i as int), d@),
            c <= i,
        decreases ss.len() - i,
    {
        proof {
            assert(views(ss@).take(i + 1).drop_last() =~= views(ss@).take(i as int));
            assert(seq_dora_defined(views(ss@)[i as int], d@));
        }
        let sequence = &ss[i];
        let hit_value = if sequence.value == d.value {
            true
        } else {
            let n = match sequence.parse_u8() {
                Ok(n) => n,
                Err(_) => {
                    assert(false);
                    0
                },
            };
            if decimal_string((n + 1) as u64) == d.value {
                true
            } else {
                decimal_string((n + 2) as u64) == d.value
            }
        };
        if hit_value && sequence.suit == d.suit {
            c += 1;
        }
        i += 1;
    }
    proof {
        assert(views(ss@).take(ss.len() as int) =~= views(ss@));
    }
    c
}

proof fn lemma_parse_all_err(ts: Seq<Seq<char>>, i: int)
    requires
        0 < i <= ts.len(),
        parse_all(ts.take(i)) is Err,
    ensures
        parse_all(ts) == parse_all(ts.take(i)),
    decreases ts.len() - i,
{
    if i < ts.len() {
        assert(ts.take(i + 1).drop_last() =~= ts.take(i));
        lemma_parse_all_err(ts, i + 1);
    } else {
        assert(ts.take(i) =~= ts);
    }
}

} // verus!
