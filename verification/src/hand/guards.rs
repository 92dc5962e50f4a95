use vstd::prelude::*;

use crate::calc::yaku_defined;
use crate::chars::decimal_string;
use crate::hand::model::{
    count_type, filter_type, hand_check_defined, lemma_filter_type_len, lemma_shape_has_pair,
    num, opt_views, parse_all, seq_dora_defined, seq_wait_computable, shape_ok, total_tiles,
    views,
};
use crate::hand::{from_strings_defined, lemma_parse_all_err, lemma_total_prefix, string_views, Hand};
use crate::suit::Suit;
use crate::tile_group::{next_tile_defined, GroupType, TileGroup, TileView};

verus! {

/// The number of groups of one shape.
fn count_groups(groups: &Vec<TileGroup>, t: GroupType) -> (r: usize)
    ensures
        r == count_type(views(groups@), t),
{
    let ghost gs = views(groups@);
    let mut c: usize = 0;
    let mut i: usize = 0;
    while i < groups.len()
        invariant
            gs == views(groups@),
            i <= groups.len(),
            c == count_type(gs.take(i as int), t),
        decreases groups.len() - i,
    {
        proof {
            assert(gs.take(i + 1).drop_last() =~= gs.take(i as int));
            assert(gs.take(i + 1).last() == groups@[i as int]@);
            lemma_filter_type_len(gs.take(i as int), t);
        }
        if groups[i].group_type == t {
            c += 1;
        }
        i += 1;
    }
    proof {
        assert(gs.take(groups.len() as int) =~= gs);
    }
    c
}

/// Whether the last sequence and the winning tile of a fourteen-tile hand can be compared
/// as numbers.
fn seq_wait_check(last: &TileGroup, win: &TileGroup) -> (r: bool)
    ensures
        r == seq_wait_computable(last@, win@),
{
    let w = match win.parse_u8() {
        Ok(n) => n,
        Err(_) => return false,
    };
    let l = match last.parse_u8() {
        Ok(n) => n,
        Err(_) => return false,
    };
    w == l || (l < 255 && (w == l + 1 || l < 254))
}

/// Whether a hand of these groups and winning tile can be judged: its tile count fits a
/// `u8`, and a sequence completed by the winning tile has readable values.
pub fn hand_check_computable(groups: &Vec<TileGroup>, win: &TileGroup) -> (r: bool)
    ensures
        r == hand_check_defined(views(groups@), win@),
{
    let ghost gs = views(groups@);
    let full = count_groups(groups, GroupType::Triplet) as u128 + count_groups(
        groups,
        GroupType::Sequence,
    ) as u128 + count_groups(groups, GroupType::Kan) as u128;
    let pairs = count_groups(groups, GroupType::Pair);
    let singles = count_groups(groups, GroupType::Single);
    if !((full == 4 && pairs == 1) || pairs == 7 || (singles == 12 && pairs == 1)) {
        assert(!shape_ok(gs));
        return true;
    }
    assert(shape_ok(gs));
    let mut total: u64 = 0;
    let mut k: usize = 0;
    while k < groups.len()
        invariant
            gs == views(groups@),
            k <= groups.len(),
            total == total_tiles(gs.take(k as int)),
            total <= 255,
            shape_ok(gs),
        decreases groups.len() - k,
    {
        proof {
            assert(gs.take(k + 1).drop_last() =~= gs.take(k as int));
            assert(gs.take(k + 1).last() == groups@[k as int]@);
        }
        total = total + groups[k].group_type.tile_count() as u64;
        if total > 255 {
            proof {
                lemma_total_prefix(gs, k + 1);
            }
            return false;
        }
        k += 1;
    }
    proof {
        assert(gs.take(groups.len() as int) =~= gs);
        lemma_shape_has_pair(gs);
    }
    let last = &groups[groups.len() - 1];
    if total == 14 && last.group_type == GroupType::Sequence && win.suit == last.suit {
        seq_wait_check(last, win)
    } else {
        true
    }
}

/// Whether a hand can be built from these notation strings without a failure: where every
/// string names a group, the hand they make can be judged.
pub fn from_strings_computable(tiles: &Vec<String>, win: &String, prev: &String, seat: &String) -> (r:
    bool)
    ensures
        r == from_strings_defined(string_views(tiles@), win@, prev@, seat@),
{
    let ghost ts = string_views(tiles@);
    let mut groups: Vec<TileGroup> = Vec::new();
    let mut i: usize = 0;
    proof {
        assert(ts.take(0) =~= Seq::<Seq<char>>::empty());
        assert(views(groups@) =~= Seq::<TileView>::empty());
    }
    while i < tiles.len()
        invariant
            ts == string_views(tiles@),
            i <= tiles.len(),
            parse_all(ts.take(i as int)) == Ok::<Seq<TileView>, crate::hand::error::HandErr>(
                views(groups@),
            ),
        decreases tiles.len() - i,
    {
        proof {
            assert(ts.take(i + 1).drop_last() =~= ts.take(i as int));
            assert(ts.take(i + 1).last() == tiles@[i as int]@);
        }
        let ghost before = groups@;
        match TileGroup::try_from(tiles[i].clone()) {
            Ok(t) => {
                groups.push(t);
                proof {
                    assert(views(groups@) =~= views(before).push(t@));
                }
            },
            Err(_) => {
                proof {
                    lemma_parse_all_err(ts, i as int + 1);
                }
                return true;
            },
        }
        i += 1;
    }
    proof {
        assert(ts.take(tiles.len() as int) =~= ts);
    }
    let w = match TileGroup::try_from(win.clone()) {
        Ok(t) => t,
        Err(_) => return true,
    };
    if TileGroup::try_from(seat.clone()).is_err() || TileGroup::try_from(prev.clone()).is_err() {
        return true;
    }
    hand_check_computable(&groups, &w)
}

/// Whether a sequence can be compared with a dora tile.
fn seq_dora_check(s: &TileGroup, d: &TileGroup) -> (r: bool)
    ensures
        r == seq_dora_defined(s@, d@),
{
    if s.value == d.value {
        return true;
    }
    let n = match s.parse_u8() {
        Ok(n) => n,
        Err(_) => return false,
    };
    if n >= 255 {
        return false;
    }
    if decimal_string((n + 1) as u64) == d.value {
        return true;
    }
    n < 254
}

/// Whether a dora indicator has a next tile that can be computed.
fn next_tile_check(t: &TileGroup) -> (r: bool)
    ensures
        r == next_tile_defined(t@),
{
    match t.suit {
        Suit::Wind | Suit::Dragon => true,
        _ => match t.parse_u8() {
            Ok(n) => n < 255,
            Err(_) => false,
        },
    }
}

impl Hand {
    /// Whether the minipoints can be counted: a last sequence and the winning tile have
    /// values that read as numbers, with room to add one to the sequence's.
    pub fn fu_computable(&self) -> (r: bool)
        ensures
            r == self@.fu_defined(),
    {
        proof {
            use_type_invariant(self);
            lemma_shape_has_pair(self@.groups);
        }
        let last = &self.groups[self.groups.len() - 1];
        if last.group_type != GroupType::Sequence {
            return true;
        }
        match last.parse_u8() {
            Ok(n) => {
                if n >= 255 {
                    return false;
                }
            },
            Err(_) => return false,
        }
        self.win_tile.parse_u8().is_ok()
    }

    /// Whether every yaku check can run on the hand.
    pub fn yaku_computable(&self) -> (r: bool)
        ensures
            r == yaku_defined(self@),
    {
        proof {
            use_type_invariant(self);
        }
        !(self.groups.len() != 13 && !self.isopen && !self.fu_computable())
    }

    /// The dora count, where it can be computed: every indicator has a next tile, each
    /// sequence can be compared with it, and the count fits a `u32`; `None` otherwise.
    pub fn checked_dora_count(&self, dora_indicator_tiles: &Option<Vec<TileGroup>>) -> (r: Option<
        u32,
    >)
        ensures
            r is Some <==> self@.dora_defined(opt_views(*dora_indicator_tiles)),
            r matches Some(c) ==> c == self@.dora_count(opt_views(*dora_indicator_tiles)),
    {
        let aka = self.get_dora_count(None);
        let tiles = match dora_indicator_tiles {
            None => return Some(aka),
            Some(t) => t,
        };
        let ghost inds = views(tiles@);
        let seqs = self.sequences();
        proof {
            use_type_invariant(self);
            crate::hand::model::lemma_groups_le_tiles(self@.groups);
            lemma_filter_type_len(self@.groups, GroupType::Sequence);
        }
        let mut total: u64 = aka as u64;
        let mut j: usize = 0;
        assert(opt_views(*dora_indicator_tiles) == Some(inds));
        while j < tiles.len()
            invariant
                inds == views(tiles@),
                opt_views(*dora_indicator_tiles) == Some(inds),
                views(seqs@) == self@.sequences(),
                j <= tiles.len(),
                forall|i: int|
                    0 <= i < j ==> next_tile_defined(#[trigger] inds[i]) && crate::tile_group::spec_next_tile(
                        inds[i],
                    ) is Ok,
                forall|i: int, k: int|
                    0 <= i < j && 0 <= k < self@.sequences().len() ==> seq_dora_defined(
                        #[trigger] self@.sequences()[k],
                        crate::tile_group::spec_next_tile(#[trigger] inds[i]).unwrap(),
                    ),
                total == crate::hand::model::count_aka(self@.groups) + self@.indicated_dora(
                    inds.take(j as int),
                ),
                total <= u32::MAX,
            decreases tiles.len() - j,
        {
            proof {
                assert(inds.take(j + 1).drop_last() =~= inds.take(j as int));
                assert(inds[j as int] == tiles@[j as int]@);
            }
            if !next_tile_check(&tiles[j]) {
                assert(!next_tile_defined(inds[j as int]));
                return None;
            }
            let d = match tiles[j].next_tile() {
                Ok(d) => d,
                Err(_) => return None,
            };
            let mut k: usize = 0;
            while k < seqs.len()
                invariant
                    views(seqs@) == self@.sequences(),
                    k <= seqs.len(),
                    j < tiles.len(),
                    inds == views(tiles@),
                    opt_views(*dora_indicator_tiles) == Some(inds),
                    crate::tile_group::spec_next_tile(inds[j as int]) is Ok,
                    d@ == crate::tile_group::spec_next_tile(inds[j as int]).unwrap(),
                    forall|m: int|
                        0 <= m < k ==> seq_dora_defined(#[trigger] self@.sequences()[m], d@),
                decreases seqs.len() - k,
            {
                assert(views(seqs@)[k as int] == seqs@[k as int]@);
                if !seq_dora_check(&seqs[k], &d) {
                    assert(!seq_dora_defined(
                        self@.sequences()[k as int],
                        crate::tile_group::spec_next_tile(inds[j as int]).unwrap(),
                    ));
                    return None;
                }
                k += 1;
            }
            let c = self.dora_for_tile(&d);
            total = total + c as u64;
            proof {
                assert(inds.take(j + 1).last() == inds[j as int]);
                assert(self@.indicated_dora(inds.take(j + 1)) == self@.indicated_dora(
                    inds.take(j as int),
                ) + self@.dora_for(crate::tile_group::spec_next_tile(inds[j as int]).unwrap()));
            }
            if total > 0xffff_ffff {
                proof {
                    self.lemma_indicated_prefix(inds, j + 1);
                }
                return None;
            }
            j += 1;
        }
        proof {
            assert(inds.take(tiles.len() as int) =~= inds);
        }
        Some(total as u32)
    }
}

} // verus!
