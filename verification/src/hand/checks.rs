use vstd::prelude::*;

use crate::hand::model::{
    total_tiles, count_type, filter_type, lemma_filter_type_len, lemma_groups_le_tiles, lemma_shape_has_pair,
    views, HandView,
};
use crate::chars::{is_char, single_char, spec_parse_u8};
use crate::fu::Fu;
use crate::hand::model::num;
use crate::hand::yaku_model::{
    count_key_value, count_value, distinct_keys, green_value, has_key, has_seq_at, is_least, key,
    lemma_lex_irrefl, lemma_lex_total, lemma_lex_trans, lex_lt, orphan, values_of, count_closed, count_eq, count_suit, has_duplicate, count_number, group_count, chuuren_base, is_numbered, number_in_range, has_value, is_pure_terminal, is_simple,
    sum_yakuhai, terminals_and_honors, yakuhai_points,
};
use crate::hand::Hand;
use crate::suit::Suit;
use crate::tile_group::{GroupType, TileGroup, TileView};

verus! {

impl Hand {
    /// Check if the hand only contains simple tiles -- no terminal or honor tiles.
    pub fn is_tanyao(&self) -> (r: bool)
        ensures
            r == self@.tanyao(),
    {
        if self.groups.len() == 13 {
            return false;
        }
        let mut i: usize = 0;
        while i < self.groups.len()
            invariant
                i <= self.groups.len(),
                self@.groups == views(self.groups@),
                forall|j: int| 0 <= j < i ==> is_simple(#[trigger] self@.groups[j]),
            decreases self.groups.len() - i,
        {
            if self.groups[i].isterminal || self.groups[i].is_honor() {
                assert(!is_simple(self@.groups[i as int]));
                return false;
            }
            i += 1;
        }
        true
    }

    /// Check if the hand contains two unique identical sequences.
    pub fn is_ryanpeikou(&self) -> (r: bool)
        ensures
            r == self@.ryanpeikou(),
    {
        let seqs = self.sequences();
        if seqs.len() != 4 || self.is_open() {
            return false;
        }
        let mut i: usize = 0;
        while i < 4
            invariant
                seqs.len() == 4,
                views(seqs@) == self@.sequences(),
                i <= 4,
                forall|j: int| 0 <= j < i ==> #[trigger] count_eq(views(seqs@), views(seqs@)[j]) % 2 == 0,
            decreases 4 - i,
        {
            let c = count_eq_exec(&seqs, &seqs[i]);
            if c % 2 != 0 {
                assert(count_eq(views(seqs@), views(seqs@)[i as int]) % 2 != 0);
                return false;
            }
            i += 1;
        }
        true
    }

    /// Check if the hand contains two identical sequences.
    pub fn is_iipeikou(&self) -> (r: bool)
        ensures
            r == self@.iipeikou(),
    {
        let seqs = self.sequences();
        let ghost v = views(seqs@);
        let mut dup = false;
        let mut i: usize = 0;
        while i < seqs.len() && !dup
            invariant
                v == views(seqs@),
                v == self@.sequences(),
                i <= seqs.len(),
                dup ==> has_duplicate(v),
                !dup ==> forall|a: int, b: int| #![trigger v[a], v[b]] 0 <= a < i && a < b < v.len() ==> v[a] != v[b],
            decreases seqs.len() - i,
        {
            let mut j: usize = i + 1;
            while j < seqs.len() && !dup
                invariant
                    v == views(seqs@),
                    i < seqs.len(),
                    i + 1 <= j <= seqs.len(),
                    dup ==> has_duplicate(v),
                    !dup ==> forall|a: int, b: int| #![trigger v[a], v[b]] 0 <= a < i && a < b < v.len() ==> v[a] != v[b],
                    !dup ==> forall|b: int| #![trigger v[b]] i < b < j ==> v[i as int] != v[b],
                decreases seqs.len() - j,
            {
                if seqs[i].same_group(&seqs[j]) {
                    assert(v[i as int] == v[j as int]);
                    dup = true;
                }
                j += 1;
            }
            i += 1;
        }
        assert(dup == has_duplicate(v));
        dup && !self.is_open() && !self.is_ryanpeikou()
    }

    /// Count the han from value honors: the prevalent wind, the seat wind and the dragons.
    pub fn is_yakuhai(&self) -> (r: u16)
        ensures
            r == self@.yakuhai(),
    {
        proof {
            use_type_invariant(self);
            lemma_groups_le_tiles(self@.groups);
            lemma_filter_type_len(self@.groups, GroupType::Triplet);
            lemma_filter_type_len(self@.groups, GroupType::Kan);
        }
        let t = sum_yakuhai_exec(&self.triplets(), &self.seat_tile, &self.prev_tile);
        let k = sum_yakuhai_exec(&self.kans(), &self.seat_tile, &self.prev_tile);
        t + k
    }

    /// Check if the hand contains all triplets and kans.
    pub fn is_toitoi(&self) -> (r: bool)
        ensures
            r == self@.toitoi(),
    {
        proof {
            lemma_filter_type_len(self@.groups, GroupType::Triplet);
        }
        let t = self.triplets().len();
        let k = self.kans().len();
        t <= 4 && k == 4 - t
    }

    /// Check if the hand contains three concealed triplets (including kans); a triplet
    /// completed by a ron is not concealed.
    pub fn is_sanankou(&self, tsumo: bool) -> (r: bool)
        ensures
            r == self@.sanankou(tsumo),
    {
        proof {
            use_type_invariant(self);
            lemma_shape_has_pair(self@.groups);
        }
        if self.groups.len() == 13 {
            return false;
        }
        let t = count_closed_exec(&self.triplets());
        let k = count_closed_exec(&self.kans());
        let last = &self.groups[self.groups.len() - 1];
        if !tsumo && last.group_type == GroupType::Triplet {
            t <= 4 && k == 4 - t
        } else {
            t <= 3 && k == 3 - t
        }
    }

    /// Check if the hand has three quads.
    pub fn is_sankantsu(&self) -> (r: bool)
        ensures
            r == self@.sankantsu(),
    {
        self.kans().len() == 3
    }

    /// Check if the hand consists of 7 unique pairs.
    pub fn is_chiitoitsu(&self) -> (r: bool)
        ensures
            r == self@.chiitoitsu(),
    {
        let pairs = self.pairs();
        let ghost ps = self@.pairs();
        if pairs.len() != 7 {
            return false;
        }
        let mut i: usize = 0;
        while i < pairs.len()
            invariant
                ps == views(pairs@),
                ps == self@.pairs(),
                i <= pairs.len(),
                forall|a: int, b: int|
                    0 <= a < b < ps.len() && a < i ==> key(#[trigger] ps[a]) != key(#[trigger] ps[b]),
            decreases pairs.len() - i,
        {
            let mut j: usize = i + 1;
            while j < pairs.len()
                invariant
                    ps == views(pairs@),
                    ps == self@.pairs(),
                    i < pairs.len(),
                    i + 1 <= j <= pairs.len(),
                    forall|a: int, b: int|
                        0 <= a < b < ps.len() && a < i ==> key(#[trigger] ps[a]) != key(
                            #[trigger] ps[b],
                        ),
                    forall|b: int| i < b < j ==> key(ps[i as int]) != key(#[trigger] ps[b]),
                decreases pairs.len() - j,
            {
                assert(ps[i as int] == pairs@[i as int]@ && ps[j as int] == pairs@[j as int]@);
                if pairs[i].value == pairs[j].value && pairs[i].suit == pairs[j].suit {
                    assert(key(ps[i as int]) == key(ps[j as int]));
                    return false;
                }
                j += 1;
            }
            i += 1;
        }
        true
    }

    /// Check if the closed hand has won with a self-draw.
    pub fn is_menzentsumo(&self, tsumo: bool) -> (r: bool)
        ensures
            r == self@.menzentsumo(tsumo),
    {
        !self.isopen && tsumo
    }

    /// Check if the hand has four quads.
    pub fn is_suukantsu(&self) -> (r: bool)
        ensures
            r == self@.suukantsu(),
    {
        self.kans().len() == 4
    }

    /// Check if the player is the dealer (east) and won in the uninterrupted first turn.
    pub fn is_tenhou(&self, tenhou: bool) -> (r: bool)
        ensures
            r == self@.tenhou(tenhou),
    {
        tenhou && crate::chars::is_char(self.seat_tile.value.as_str(), 'E')
    }

    /// Check if the player is not the dealer and won in the uninterrupted first turn.
    pub fn is_chiihou(&self, tenhou: bool) -> (r: bool)
        ensures
            r == self@.chiihou(tenhou),
    {
        tenhou && !crate::chars::is_char(self.seat_tile.value.as_str(), 'E')
    }

    /// Check if the hand only consists of honor tiles.
    pub fn is_tsuuiisou(&self) -> (r: bool)
        ensures
            r == self@.tsuuiisou(),
    {
        if self.groups.len() == 13 {
            return false;
        }
        let mut i: usize = 0;
        while i < self.groups.len()
            invariant
                i <= self.groups.len(),
                self@.groups == views(self.groups@),
                forall|j: int| 0 <= j < i ==> #[trigger] self@.groups[j].is_honor(),
            decreases self.groups.len() - i,
        {
            if !self.groups[i].is_honor() {
                assert(!self@.groups[i as int].is_honor());
                return false;
            }
            i += 1;
        }
        true
    }

    /// Check if the hand only consists of honor tiles as seven pairs.
    pub fn is_daichiishin(&self) -> (r: bool)
        ensures
            r == self@.daichiishin(),
    {
        self.is_tsuuiisou() && self.pairs().len() == 7
    }

    /// Check if the hand only contains tiles of a single suit.
    pub fn is_chinitsu(&self) -> (r: bool)
        ensures
            r == self@.chinitsu(),
    {
        proof {
            use_type_invariant(self);
            lemma_shape_has_pair(self@.groups);
        }
        if self.groups.len() == 13 {
            return false;
        }
        let first = self.groups[0].suit;
        let mut i: usize = 0;
        while i < self.groups.len()
            invariant
                i <= self.groups.len(),
                self.groups.len() >= 1,
                first == self@.groups[0].suit,
                self@.groups == views(self.groups@),
                forall|j: int| 0 <= j < i ==> #[trigger] self@.groups[j].suit == first,
            decreases self.groups.len() - i,
        {
            if self.groups[i].suit != first {
                assert(self@.groups[i as int].suit != self@.groups[0].suit);
                return false;
            }
            i += 1;
        }
        true
    }

    /// Check if every group holds a terminal and none an honor, with some sequence.
    pub fn is_junchantaiyao(&self) -> (r: bool)
        ensures
            r == self@.junchantaiyao(),
    {
        if self.groups.len() == 13 {
            return false;
        }
        let mut i: usize = 0;
        while i < self.groups.len()
            invariant
                i <= self.groups.len(),
                self@.groups == views(self.groups@),
                forall|j: int| 0 <= j < i ==> is_pure_terminal(#[trigger] self@.groups[j]),
            decreases self.groups.len() - i,
        {
            assert(self@.groups[i as int] == self.groups@[i as int]@);
            if self.groups[i].is_honor() || !self.groups[i].isterminal {
                assert(!is_pure_terminal(self@.groups[i as int]));
                return false;
            }
            i += 1;
        }
        self.sequences().len() > 0
    }

    /// Check if the hand only contains terminal and honor tiles.
    pub fn is_honroutou(&self) -> (r: bool)
        ensures
            r == self@.honroutou(),
    {
        if self.groups.len() == 13 {
            return false;
        }
        if self.sequences().len() > 0 {
            return false;
        }
        all_terminal_or_honor(&self.groups)
    }

    /// Check if the hand only contains groups with terminal or honor tiles, with a sequence.
    pub fn is_chantaiyao(&self) -> (r: bool)
        ensures
            r == self@.chantaiyao(),
    {
        if self.groups.len() == 13 {
            return false;
        }
        if self.sequences().len() == 0 {
            return false;
        }
        all_terminal_or_honor(&self.groups)
    }

    /// Check if the hand has two dragon triplets or quads and a pair of dragon tiles.
    pub fn is_shousangen(&self) -> (r: bool)
        ensures
            r == self@.shousangen(),
    {
        proof {
            use_type_invariant(self);
            lemma_shape_has_pair(self@.groups);
        }
        let t = count_suit_exec(&self.triplets(), Suit::Dragon);
        let k = count_suit_exec(&self.kans(), Suit::Dragon);
        let pairs = self.pairs();
        assert(views(pairs@)[0].suit == pairs@[0].suit);
        t <= 2 && k == 2 - t && pairs[0].suit == Suit::Dragon
    }

    /// Check if the hand has four wind triplets (or quads).
    pub fn is_daisuushii(&self) -> (r: bool)
        ensures
            r == self@.daisuushii(),
    {
        let t = count_suit_exec(&self.triplets(), Suit::Wind);
        let k = count_suit_exec(&self.kans(), Suit::Wind);
        t <= 4 && k == 4 - t
    }

    /// Check if the hand has three wind triplets (or quads) and a wind pair.
    pub fn is_shousuushii(&self) -> (r: bool)
        ensures
            r == self@.shousuushii(),
    {
        let t = count_suit_exec(&self.triplets(), Suit::Wind);
        let k = count_suit_exec(&self.kans(), Suit::Wind);
        if !(t <= 3 && k == 3 - t) {
            return false;
        }
        let pairs = self.pairs();
        let mut i: usize = 0;
        while i < pairs.len()
            invariant
                views(pairs@) == self@.pairs(),
                count_suit(self@.triplets(), Suit::Wind) + count_suit(self@.kans(), Suit::Wind)
                    == 3,
                i <= pairs.len(),
                forall|j: int| 0 <= j < i ==> #[trigger] self@.pairs()[j].suit != Suit::Wind,
            decreases pairs.len() - i,
        {
            assert(views(pairs@)[i as int] == pairs@[i as int]@);
            if pairs[i].suit == Suit::Wind {
                assert(self@.pairs()[i as int].suit == Suit::Wind);
                return true;
            }
            i += 1;
        }
        false
    }

    /// Check if the hand contains three dragon triplets (or quads).
    pub fn is_daisangen(&self) -> (r: bool)
        ensures
            r == self@.daisangen(),
    {
        let mut melds = self.triplets();
        let mut kans = self.kans();
        let ghost t = views(melds@);
        let ghost k = views(kans@);
        melds.append(&mut kans);
        proof {
            assert(views(melds@) =~= t + k);
        }
        has_value_exec(&melds, 'r') && has_value_exec(&melds, 'g') && has_value_exec(&melds, 'w')
    }

    /// Check if the hand contains four concealed triplets; on a ron the last completed
    /// shape cannot be a triplet.
    pub fn is_suuankou(&self, tsumo: bool) -> (r: bool)
        ensures
            r == self@.suuankou(tsumo),
    {
        proof {
            use_type_invariant(self);
            lemma_shape_has_pair(self@.groups);
        }
        if self.groups.len() == 13 {
            return false;
        }
        let t = self.triplets().len();
        let k = self.kans().len();
        if t > 4 || k != 4 - t || self.isopen {
            return false;
        }
        if !tsumo && self.groups[self.groups.len() - 1].group_type == GroupType::Triplet {
            return false;
        }
        true
    }

    /// Check if the hand contains four concealed triplets, with the pair completed last.
    pub fn is_suuankoutankiwait(&self) -> (r: bool)
        ensures
            r == self@.suuankoutankiwait(),
    {
        proof {
            use_type_invariant(self);
            lemma_shape_has_pair(self@.groups);
        }
        if self.groups.len() == 13 {
            return false;
        }
        let t = self.triplets().len();
        let k = self.kans().len();
        if t > 4 || k != 4 - t || self.isopen {
            return false;
        }
        self.groups[self.groups.len() - 1].group_type == GroupType::Pair
    }

    /// Check if the hand only contains tiles of one numbered suit and honor tiles, with both
    /// present (a half flush).
    pub fn is_honitsu(&self) -> (r: bool)
        ensures
            r == self@.honitsu(),
    {
        let ghost gs = self@.groups;
        if self.groups.len() == 13 {
            return false;
        }
        let mut has_honor = false;
        let mut has_normal = false;
        let mut suit = Suit::Manzu;
        let ghost mut last_normal: int = 0;
        let mut i: usize = 0;
        while i < self.groups.len()
            invariant
                gs == self@.groups,
                gs == views(self.groups@),
                i <= self.groups.len(),
                has_honor == exists|j: int| 0 <= j < i && #[trigger] gs[j].is_honor(),
                has_normal == exists|j: int| 0 <= j < i && !#[trigger] gs[j].is_honor(),
                has_normal ==> 0 <= last_normal < i && !gs[last_normal].is_honor() && gs[last_normal].suit == suit,
            decreases self.groups.len() - i,
        {
            if self.groups[i].is_honor() {
                has_honor = true;
                assert(gs[i as int].is_honor());
            } else {
                has_normal = true;
                suit = self.groups[i].suit;
                proof {
                    last_normal = i as int;
                }
                assert(!gs[i as int].is_honor());
            }
            i += 1;
        }
        if !has_normal || !has_honor {
            return false;
        }
        let mut k: usize = 0;
        while k < self.groups.len()
            invariant
                gs == self@.groups,
                gs == views(self.groups@),
                k <= self.groups.len(),
                0 <= last_normal < gs.len() && !gs[last_normal].is_honor() && gs[last_normal].suit == suit,
                forall|j: int| 0 <= j < k && !gs[j].is_honor() ==> #[trigger] gs[j].suit == suit,
            decreases self.groups.len() - k,
        {
            if self.groups[k].suit != suit && !self.groups[k].is_honor() {
                assert(gs[k as int].suit != gs[last_normal].suit);
                return false;
            }
            k += 1;
        }
        true
    }

    /// Check if the hand has 123, 456 and 789 in one numbered suit.
    pub fn is_ittsuu(&self) -> (r: bool)
        ensures
            r == self@.ittsuu(),
    {
        let seqs = self.sequences();
        let p = has_seq_at_exec(&seqs, Suit::Pinzu, '1') && has_seq_at_exec(&seqs, Suit::Pinzu, '4')
            && has_seq_at_exec(&seqs, Suit::Pinzu, '7');
        let m = has_seq_at_exec(&seqs, Suit::Manzu, '1') && has_seq_at_exec(&seqs, Suit::Manzu, '4')
            && has_seq_at_exec(&seqs, Suit::Manzu, '7');
        let s = has_seq_at_exec(&seqs, Suit::Souzu, '1') && has_seq_at_exec(&seqs, Suit::Souzu, '4')
            && has_seq_at_exec(&seqs, Suit::Souzu, '7');
        p || m || s
    }

    /// Check if the closed hand's ron minipoints are only the base points and the closed ron.
    pub fn is_pinfu(&self) -> (r: bool)
        requires
            self@.groups.len() != 13 && !self@.isopen ==> self@.fu_defined(),
        ensures
            r == self@.pinfu(),
    {
        if self.groups.len() == 13 {
            return false;
        }
        if self.is_open() {
            return false;
        }
        let fu = self.calculate_fu(false);
        let mut i: usize = 0;
        while i < fu.len()
            invariant
                fu@ == self@.fu(false),
                i <= fu.len(),
                forall|j: int|
                    0 <= j < i ==> (#[trigger] fu@[j] == Fu::BasePoints || fu@[j] == Fu::ClosedRon),
            decreases fu.len() - i,
        {
            if !(fu[i] == Fu::BasePoints || fu[i] == Fu::ClosedRon) {
                return false;
            }
            i += 1;
        }
        true
    }

    /// Check if the hand contains the same sequence in the three numbered suits.
    pub fn is_sanshokudoujun(&self) -> (r: bool)
        ensures
            r == self@.sanshokudoujun(),
    {
        let seqs = self.sequences();
        let ghost v = views(seqs@);
        if seqs.len() < 3 {
            return false;
        }
        let mut firsts: Vec<usize> = Vec::new();
        let mut i: usize = 0;
        while i < seqs.len()
            invariant
                v == views(seqs@),
                i <= seqs.len(),
                forall|a: int| 0 <= a < firsts.len() ==> #[trigger] firsts@[a] < i,
                firsts@.map_values(|k: usize| key(v[k as int])) == distinct_keys(v.take(i as int)),
            decreases seqs.len() - i,
        {
            let ghost d = distinct_keys(v.take(i as int));
            proof {
                assert(v.take(i + 1).drop_last() =~= v.take(i as int));
                assert(v.take(i + 1).last() == v[i as int]);
            }
            let mut found = false;
            let mut k: usize = 0;
            while k < firsts.len() && !found
                invariant
                    v == views(seqs@),
                    i < seqs.len(),
                    k <= firsts.len(),
                    forall|a: int| 0 <= a < firsts.len() ==> #[trigger] firsts@[a] < i,
                    d == firsts@.map_values(|k: usize| key(v[k as int])),
                    found == d.take(k as int).contains(key(v[i as int])),
                decreases firsts.len() - k,
            {
                let f = firsts[k];
                proof {
                    assert(d.take(k + 1) =~= d.take(k as int).push(d[k as int]));
                }
                if seqs[f].value == seqs[i].value && seqs[f].suit == seqs[i].suit {
                    found = true;
                    assert(d.take(k + 1)[k as int] == key(v[i as int]));
                }
                k += 1;
            }
            proof {
                if !found {
                    assert(d.take(firsts.len() as int) =~= d);
                }
            }
            if !found {
                let ghost old_firsts = firsts@;
                firsts.push(i);
                proof {
                    assert(firsts@.map_values(|k: usize| key(v[k as int])) =~= old_firsts.map_values(
                        |k: usize| key(v[k as int]),
                    ).push(key(v[i as int])));
                }
            }
            i += 1;
        }
        let ghost d = distinct_keys(v);
        proof {
            assert(v.take(seqs.len() as int) =~= v);
            assert(d == firsts@.map_values(|k: usize| key(v[k as int])));
        }
        if firsts.len() == 3 {
            let a = &seqs[firsts[0]].value;
            let b = &seqs[firsts[1]].value;
            let c = &seqs[firsts[2]].value;
            return *a == *b && *b == *c;
        }
        if firsts.len() == 4 {
            let mut x: usize = 0;
            while x < 4
                invariant
                    v == views(seqs@),
                    v == self@.sequences(),
                    v.len() >= 3,
                    d == distinct_keys(v),
                    firsts.len() == 4,
                    forall|a: int| 0 <= a < firsts.len() ==> #[trigger] firsts@[a] < seqs.len(),
                    d == firsts@.map_values(|k: usize| key(v[k as int])),
                    x <= 4,
                    forall|y: int| 0 <= y < x ==> #[trigger] count_key_value(d, d[y].0) < 3,
                decreases 4 - x,
            {
                let mut c: usize = 0;
                let mut z: usize = 0;
                while z < 4
                    invariant
                        v == views(seqs@),
                        firsts.len() == 4,
                        forall|a: int| 0 <= a < firsts.len() ==> #[trigger] firsts@[a] < seqs.len(),
                        d == firsts@.map_values(|k: usize| key(v[k as int])),
                        x < 4,
                        z <= 4,
                        c == count_key_value(d.take(z as int), d[x as int].0),
                        c <= z,
                    decreases 4 - z,
                {
                    proof {
                        assert(d.take(z + 1).drop_last() =~= d.take(z as int));
                    }
                    if seqs[firsts[z]].value == seqs[firsts[x]].value {
                        c += 1;
                    }
                    z += 1;
                }
                proof {
                    assert(d.take(4) =~= d);
                }
                if c >= 3 {
                    assert(count_key_value(d, d[x as int].0) >= 3);
                    return true;
                }
                x += 1;
            }
            return false;
        }
        false
    }

    /// Check if the hand contains three triplets (or quads) of the same value.
    pub fn is_sanshokudoukou(&self) -> (r: bool)
        ensures
            r == self@.sanshokudoukou(),
    {
        let mut melds = self.triplets();
        let mut kans = self.kans();
        let ghost t = views(melds@);
        let ghost k = views(kans@);
        melds.append(&mut kans);
        let ghost l = values_of(views(melds@));
        proof {
            assert(views(melds@) =~= t + k);
            assert(l =~= self@.meld_values());
        }
        let n = melds.len();
        if n < 3 {
            return false;
        }
        let mut m: usize = 0;
        let mut i: usize = 1;
        proof {
            lemma_lex_irrefl(l[0]);
        }
        while i < n
            invariant
                n == melds.len(),
                l == values_of(views(melds@)),
                1 <= i <= n,
                m < i,
                forall|j: int| 0 <= j < i ==> !lex_lt(#[trigger] l[j], l[m as int]),
            decreases n - i,
        {
            if str_lt(melds[i].value.as_str(), melds[m].value.as_str()) {
                proof {
                    assert forall|j: int| 0 <= j < i + 1 implies !lex_lt(#[trigger] l[j], l[i as int]) by {
                        if j == i {
                            lemma_lex_irrefl(l[j]);
                        } else if lex_lt(l[j], l[i as int]) {
                            lemma_lex_trans(l[j], l[i as int], l[m as int]);
                        }
                    }
                }
                m = i;
            } else {
                proof {
                    lemma_lex_irrefl(l[m as int]);
                }
            }
            i += 1;
        }
        assert(is_least(l, m as int));
        let cm = count_value_exec(&melds, &melds[m].value);
        if cm >= 3 {
            assert(count_value(l, l[m as int]) >= 3);
            return true;
        }
        proof {
            assert forall|a: int| is_least(l, a) implies #[trigger] count_value(l, l[a]) < 3 by {
                if l[a] != l[m as int] {
                    lemma_lex_total(l[a], l[m as int]);
                }
            }
        }
        if n == 4 {
            let mut x: usize = 0;
            while x < 4
                invariant
                    n == melds.len(),
                    n == 4,
                    l == values_of(views(melds@)),
                    l == self@.meld_values(),
                    x <= 4,
                    forall|y: int| 0 <= y < x ==> #[trigger] count_value(l, l[y]) < 3,
                decreases 4 - x,
            {
                let c = count_value_exec(&melds, &melds[x].value);
                if c >= 3 {
                    assert(count_value(l, l[x as int]) >= 3);
                    return true;
                }
                x += 1;
            }
        }
        false
    }

    /// Check if the hand only contains the 2-3-4-6-8 sou (bamboo) tiles and the green dragon.
    pub fn is_ryuuiisou(&self) -> (r: bool)
        ensures
            r == self@.ryuuiisou(),
    {
        if self.groups.len() == 13 {
            return false;
        }
        let mut melds = self.triplets();
        let mut kans = self.kans();
        let ghost t = views(melds@);
        let ghost k = views(kans@);
        melds.append(&mut kans);
        proof {
            assert(views(melds@) =~= self@.melds());
        }
        if !all_green_values(&melds) {
            return false;
        }
        if !all_green_values(&self.pairs()) {
            return false;
        }
        let seqs = self.sequences();
        let mut i: usize = 0;
        while i < seqs.len()
            invariant
                views(seqs@) == self@.sequences(),
                i <= seqs.len(),
                forall|j: int| 0 <= j < i ==> #[trigger] views(seqs@)[j].value == seq!['2'],
            decreases seqs.len() - i,
        {
            if !is_char(seqs[i].value.as_str(), '2') {
                assert(views(seqs@)[i as int].value != seq!['2']);
                return false;
            }
            i += 1;
        }
        let mut g: usize = 0;
        while g < self.groups.len()
            invariant
                self@.groups == views(self.groups@),
                g <= self.groups.len(),
                forall|j: int|
                    0 <= j < g ==> #[trigger] self@.groups[j].suit == Suit::Souzu
                        || self@.groups[j].suit == Suit::Dragon,
            decreases self.groups.len() - g,
        {
            if self.groups[g].suit != Suit::Souzu && self.groups[g].suit != Suit::Dragon {
                assert(!(self@.groups[g as int].suit == Suit::Souzu || self@.groups[g as int].suit
                    == Suit::Dragon));
                return false;
            }
            g += 1;
        }
        true
    }

    /// The number of tiles of each number (at indices 1 to 9 of a list of ten) and the
    /// tile count of the hand, when its groups are all of one numbered suit with values in
    /// range; `None` otherwise.
    fn number_counts(&self) -> (r: Option<(Vec<u64>, u64)>)
        ensures
            r is Some <==> self@.one_numbered_suit(),
            r matches Some((c, t)) ==> {
                &&& c@.len() == 10
                &&& t == total_tiles(self@.groups)
                &&& forall|k: int| 1 <= k <= 9 ==> #[trigger] c@[k] == count_number(self@.groups, k)
            },
    {
        proof {
            use_type_invariant(self);
            lemma_groups_le_tiles(self@.groups);
        }
        let ghost gs = self@.groups;
        if self.groups.len() == 0 {
            return None;
        }
        let suit = self.groups[0].suit;
        if !(suit == Suit::Manzu || suit == Suit::Pinzu || suit == Suit::Souzu) {
            return None;
        }
        let mut counts: Vec<u64> = vec![0, 0, 0, 0, 0, 0, 0, 0, 0, 0];
        let mut total: u64 = 0;
        let mut i: usize = 0;
        while i < self.groups.len()
            invariant
                gs == self@.groups,
                gs == views(self.groups@),
                self.groups.len() <= 255,
                i <= self.groups.len(),
                gs.len() > 0,
                suit == gs[0].suit,
                is_numbered(suit),
                counts@.len() == 10,
                forall|k: int| 0 <= k < 10 ==> #[trigger] counts@[k] == count_number(gs.take(i as int), k),
                forall|k: int| 0 <= k < 10 ==> #[trigger] counts@[k] <= 4 * i,
                total == total_tiles(gs.take(i as int)),
                total <= 4 * i,
                forall|j: int| 0 <= j < i ==> #[trigger] gs[j].suit == suit && number_in_range(gs[j]),
            decreases self.groups.len() - i,
        {
            proof {
                assert(gs.take(i + 1).drop_last() =~= gs.take(i as int));
                assert(gs.take(i + 1).last() == gs[i as int]);
            }
            let g = &self.groups[i];
            assert(gs[i as int] == g@);
            if g.suit != suit {
                assert(!(gs[i as int].suit == gs[0].suit));
                return None;
            }
            let n = match g.parse_u8() {
                Ok(n) => n,
                Err(_) => {
                    assert(!number_in_range(gs[i as int]));
                    return None;
                },
            };
            let tc = g.group_type.tile_count();
            let ghost before = counts@;
            if g.group_type == GroupType::Sequence {
                if n < 1 || n > 7 {
                    assert(!number_in_range(gs[i as int]));
                    return None;
                }
                let idx = n as usize;
                counts[idx] = counts[idx] + 1;
                counts[idx + 1] = counts[idx + 1] + 1;
                counts[idx + 2] = counts[idx + 2] + 1;
            } else {
                if n < 1 || n > 9 {
                    assert(!number_in_range(gs[i as int]));
                    return None;
                }
                let idx = n as usize;
                counts[idx] = counts[idx] + tc as u64;
            }
            proof {
                assert forall|k: int| 0 <= k < 10 implies #[trigger] counts@[k] == before[k]
                    + group_count(gs[i as int], k) by {}
            }
            total = total + tc as u64;
            i += 1;
        }
        proof {
            assert(gs.take(self.groups.len() as int) =~= gs);
        }
        Some((counts, total))
    }

    /// Check if the hand consists of 1112345678999 in the same suit, plus one additional
    /// tile of that suit, however the tiles are grouped.
    pub fn is_chuurenpoutou(&self) -> (r: bool)
        ensures
            r == self@.chuurenpoutou(),
    {
        let (c, total) = match self.number_counts() {
            Some(x) => x,
            None => return false,
        };
        if total != 14 {
            return false;
        }
        let mut k: usize = 1;
        while k <= 9
            invariant
                1 <= k <= 10,
                c@.len() == 10,
                forall|j: int| 1 <= j <= 9 ==> #[trigger] c@[j] == count_number(self@.groups, j),
                forall|j: int| 1 <= j < k ==> #[trigger] count_number(self@.groups, j) >= chuuren_base(j),
            decreases 10 - k,
        {
            let base: u64 = if k == 1 || k == 9 {
                3
            } else {
                1
            };
            if c[k] < base {
                assert(count_number(self@.groups, k as int) < chuuren_base(k as int));
                return false;
            }
            k += 1;
        }
        true
    }

    /// Check if the hand is chuuren poutou won on a nine-sided wait: the winning tile is the
    /// additional tile.
    pub fn is_chuurenpoutou9sided(&self) -> (r: bool)
        ensures
            r == self@.chuurenpoutou9sided(),
    {
        if !self.is_chuurenpoutou() {
            return false;
        }
        if self.win_tile.suit != self.groups[0].suit {
            return false;
        }
        let w = match self.win_tile.parse_u8() {
            Ok(n) => n,
            Err(_) => return false,
        };
        let (c, _) = match self.number_counts() {
            Some(x) => x,
            None => return false,
        };
        if w < 1 || w > 9 {
            proof {
                assert forall|i: int| 0 <= i < self@.groups.len() implies number_in_range(
                    #[trigger] self@.groups[i],
                ) by {
                    assert(self@.groups[i].suit == self@.groups[0].suit);
                }
                lemma_count_outside(self@.groups, w as int);
            }
            return false;
        }
        let base: u64 = if w == 1 || w == 9 {
            3
        } else {
            1
        };
        c[w as usize] == base + 1
    }

    /// Check if the hand has one of each terminal and honor tile and one more of them.
    pub fn is_kokushi(&self) -> (r: bool)
        ensures
            r == self@.kokushi(),
    {
        if self.singles().len() != 12 || self.pairs().len() != 1 {
            return false;
        }
        if self.groups.len() != 13 {
            return false;
        }
        let ghost gs = self@.groups;
        let mut k: usize = 0;
        while k < 13
            invariant
                gs == self@.groups,
                gs == views(self.groups@),
                k <= 13,
                forall|a: int| 0 <= a < k ==> #[trigger] has_key(gs, orphan(a)),
            decreases 13 - k,
        {
            let (c, s) = orphan_exec(k);
            let mut found = false;
            let mut i: usize = 0;
            while i < self.groups.len() && !found
                invariant
                    gs == views(self.groups@),
                    (seq![c], s) == orphan(k as int),
                    i <= self.groups.len(),
                    found ==> exists|x: int| 0 <= x < gs.len() && #[trigger] key(gs[x]) == orphan(k as int),
                    !found ==> forall|x: int| 0 <= x < i ==> #[trigger] key(gs[x]) != orphan(k as int),
                decreases self.groups.len() - i,
            {
                if is_char(self.groups[i].value.as_str(), c) && self.groups[i].suit == s {
                    found = true;
                    assert(key(gs[i as int]) == orphan(k as int));
                }
                i += 1;
            }
            if !found {
                assert(!has_key(gs, orphan(k as int)));
                return false;
            }
            assert(has_key(gs, orphan(k as int)));
            k += 1;
        }
        true
    }

    /// Check if the hand is kokushi musou completed on the pair (a thirteen-sided wait).
    pub fn is_kokushi13sided(&self) -> (r: bool)
        ensures
            r == self@.kokushi13sided(),
    {
        proof {
            use_type_invariant(self);
            lemma_shape_has_pair(self@.groups);
        }
        self.is_kokushi() && self.groups[self.groups.len() - 1].group_type == GroupType::Pair
    }

    /// Check if the hand only contains terminal tiles in four triplets or kans.
    pub fn is_chinroutou(&self) -> (r: bool)
        ensures
            r == self@.chinroutou(),
    {
        if self.groups.len() == 13 {
            return false;
        }
        let t = self.triplets().len();
        let k = self.kans().len();
        if t > 4 || k != 4 - t {
            return false;
        }
        let mut i: usize = 0;
        while i < self.groups.len()
            invariant
                i <= self.groups.len(),
                self@.groups == views(self.groups@),
                forall|j: int| 0 <= j < i ==> #[trigger] self@.groups[j].isterminal,
            decreases self.groups.len() - i,
        {
            if !self.groups[i].isterminal {
                assert(!self@.groups[i as int].isterminal);
                return false;
            }
            i += 1;
        }
        true
    }
}

fn count_closed_exec(gs: &Vec<TileGroup>) -> (r: usize)
    ensures
        r == count_closed(views(gs@)),
        r <= gs.len(),
{
    let mut c: usize = 0;
    let mut i: usize = 0;
    while i < gs.len()
        invariant
            i <= gs.len(),
            c == count_closed(views(gs@).take(i as int)),
            c <= i,
        decreases gs.len() - i,
    {
        proof {
            assert(views(gs@).take(i + 1).drop_last() =~= views(gs@).take(i as int));
        }
        if !gs[i].isopen {
            c += 1;
        }
        i += 1;
    }
    proof {
        assert(views(gs@).take(gs.len() as int) =~= views(gs@));
    }
    c
}

fn count_suit_exec(gs: &Vec<TileGroup>, s: Suit) -> (r: usize)
    ensures
        r == count_suit(views(gs@), s),
        r <= gs.len(),
{
    let mut c: usize = 0;
    let mut i: usize = 0;
    while i < gs.len()
        invariant
            i <= gs.len(),
            c == count_suit(views(gs@).take(i as int), s),
            c <= i,
        decreases gs.len() - i,
    {
        proof {
            assert(views(gs@).take(i + 1).drop_last() =~= views(gs@).take(i as int));
        }
        if gs[i].suit == s {
            c += 1;
        }
        i += 1;
    }
    proof {
        assert(views(gs@).take(gs.len() as int) =~= views(gs@));
    }
    c
}

fn count_eq_exec(gs: &Vec<TileGroup>, x: &TileGroup) -> (r: usize)
    ensures
        r == count_eq(views(gs@), x@),
        r <= gs.len(),
{
    let mut c: usize = 0;
    let mut i: usize = 0;
    while i < gs.len()
        invariant
            i <= gs.len(),
            c == count_eq(views(gs@).take(i as int), x@),
            c <= i,
        decreases gs.len() - i,
    {
        proof {
            assert(views(gs@).take(i + 1).drop_last() =~= views(gs@).take(i as int));
        }
        if gs[i].same_group(x) {
            c += 1;
        }
        i += 1;
    }
    proof {
        assert(views(gs@).take(gs.len() as int) =~= views(gs@));
    }
    c
}

fn sum_yakuhai_exec(gs: &Vec<TileGroup>, seat: &TileGroup, prev: &TileGroup) -> (r: u16)
    requires
        gs.len() <= 255,
    ensures
        r == sum_yakuhai(views(gs@), seat@, prev@),
        r <= 3 * gs.len(),
{
    let mut c: u16 = 0;
    let mut i: usize = 0;
    while i < gs.len()
        invariant
            gs.len() <= 255,
            i <= gs.len(),
            c == sum_yakuhai(views(gs@).take(i as int), seat@, prev@),
            c <= 3 * i,
        decreases gs.len() - i,
    {
        proof {
            assert(views(gs@).take(i + 1).drop_last() =~= views(gs@).take(i as int));
        }
        let g = &gs[i];
        if g.value == prev.value {
            c += 1;
        }
        if g.value == seat.value {
            c += 1;
        }
        if g.suit == Suit::Dragon {
            c += 1;
        }
        i += 1;
    }
    proof {
        assert(views(gs@).take(gs.len() as int) =~= views(gs@));
    }
    c
}

fn has_seq_at_exec(ss: &Vec<TileGroup>, s: Suit, c: char) -> (r: bool)
    ensures
        r == has_seq_at(views(ss@), s, c),
{
    let mut i: usize = 0;
    while i < ss.len()
        invariant
            i <= ss.len(),
            forall|j: int|
                0 <= j < i ==> !(#[trigger] views(ss@)[j].suit == s && views(ss@)[j].value == seq![c]),
        decreases ss.len() - i,
    {
        if ss[i].suit == s && is_char(ss[i].value.as_str(), c) {
            assert(views(ss@)[i as int].suit == s && views(ss@)[i as int].value == seq![c]);
            return true;
        }
        i += 1;
    }
    false
}

fn green_value_exec(v: &str) -> (r: bool)
    ensures
        r == green_value(v@),
{
    match single_char(v) {
        Some(c) => c == '2' || c == '3' || c == '4' || c == '6' || c == '8' || c == 'g',
        None => false,
    }
}

fn all_green_values(gs: &Vec<TileGroup>) -> (r: bool)
    ensures
        r == forall|i: int| 0 <= i < gs.len() ==> green_value(#[trigger] views(gs@)[i].value),
{
    let mut i: usize = 0;
    while i < gs.len()
        invariant
            i <= gs.len(),
            forall|j: int| 0 <= j < i ==> green_value(#[trigger] views(gs@)[j].value),
        decreases gs.len() - i,
    {
        if !green_value_exec(gs[i].value.as_str()) {
            assert(!green_value(views(gs@)[i as int].value));
            return false;
        }
        i += 1;
    }
    true
}

/// Whether string `a` comes before string `b`.
fn str_lt(a: &str, b: &str) -> (r: bool)
    ensures
        r == lex_lt(a@, b@),
{
    let la = a.unicode_len();
    let lb = b.unicode_len();
    let mut i: usize = 0;
    proof {
        assert(a@.skip(0) =~= a@);
        assert(b@.skip(0) =~= b@);
    }
    while i < la && i < lb
        invariant
            la == a@.len(),
            lb == b@.len(),
            i <= la,
            i <= lb,
            lex_lt(a@, b@) == lex_lt(a@.skip(i as int), b@.skip(i as int)),
        decreases la - i,
    {
        let ca = a.get_char(i);
        let cb = b.get_char(i);
        if (ca as u32) < (cb as u32) {
            return true;
        }
        if (ca as u32) > (cb as u32) {
            return false;
        }
        proof {
            assert(a@.skip(i as int).drop_first() =~= a@.skip(i + 1));
            assert(b@.skip(i as int).drop_first() =~= b@.skip(i + 1));
        }
        i += 1;
    }
    i == la && i < lb
}

fn orphan_exec(k: usize) -> (r: (char, Suit))
    requires
        k < 13,
    ensures
        (seq![r.0], r.1) == orphan(k as int),
{
    if k == 0 {
        ('1', Suit::Manzu)
    } else if k == 1 {
        ('9', Suit::Manzu)
    } else if k == 2 {
        ('1', Suit::Pinzu)
    } else if k == 3 {
        ('9', Suit::Pinzu)
    } else if k == 4 {
        ('1', Suit::Souzu)
    } else if k == 5 {
        ('9', Suit::Souzu)
    } else if k == 6 {
        ('E', Suit::Wind)
    } else if k == 7 {
        ('S', Suit::Wind)
    } else if k == 8 {
        ('W', Suit::Wind)
    } else if k == 9 {
        ('N', Suit::Wind)
    } else if k == 10 {
        ('r', Suit::Dragon)
    } else if k == 11 {
        ('g', Suit::Dragon)
    } else {
        ('w', Suit::Dragon)
    }
}

fn count_value_exec(gs: &Vec<TileGroup>, v: &String) -> (r: usize)
    ensures
        r == count_value(values_of(views(gs@)), v@),
        r <= gs.len(),
{
    let ghost l = values_of(views(gs@));
    let mut c: usize = 0;
    let mut i: usize = 0;
    while i < gs.len()
        invariant
            l == values_of(views(gs@)),
            i <= gs.len(),
            c == count_value(l.take(i as int), v@),
            c <= i,
        decreases gs.len() - i,
    {
        proof {
            assert(l.take(i + 1).drop_last() =~= l.take(i as int));
        }
        if gs[i].value == *v {
            c += 1;
        }
        i += 1;
    }
    proof {
        assert(l.take(gs.len() as int) =~= l);
    }
    c
}

fn has_value_exec(gs: &Vec<TileGroup>, c: char) -> (r: bool)
    ensures
        r == has_value(views(gs@), c),
{
    let mut i: usize = 0;
    while i < gs.len()
        invariant
            i <= gs.len(),
            forall|j: int| 0 <= j < i ==> #[trigger] views(gs@)[j].value != seq![c],
        decreases gs.len() - i,
    {
        if crate::chars::is_char(gs[i].value.as_str(), c) {
            assert(views(gs@)[i as int].value == seq![c]);
            return true;
        }
        i += 1;
    }
    false
}

fn all_terminal_or_honor(gs: &Vec<TileGroup>) -> (r: bool)
    ensures
        r == terminals_and_honors(views(gs@)),
{
    let ghost v = views(gs@);
    let mut has_terminal = false;
    let mut has_honor = false;
    let mut i: usize = 0;
    while i < gs.len()
        invariant
            v == views(gs@),
            i <= gs.len(),
            forall|j: int| 0 <= j < i ==> #[trigger] v[j].isterminal || v[j].is_honor(),
            has_terminal == exists|j: int| 0 <= j < i && #[trigger] v[j].isterminal,
            has_honor == exists|j: int| 0 <= j < i && !#[trigger] v[j].isterminal && v[j].is_honor(),
        decreases gs.len() - i,
    {
        if gs[i].isterminal {
            has_terminal = true;
            assert(v[i as int].isterminal);
        } else if gs[i].is_honor() {
            has_honor = true;
            assert(!v[i as int].isterminal && v[i as int].is_honor());
        } else {
            assert(!(v[i as int].isterminal || v[i as int].is_honor()));
            return false;
        }
        i += 1;
    }
    has_terminal && has_honor
}

/// With every group's number in range, no tile has a number outside 1 to 9.
proof fn lemma_count_outside(gs: Seq<TileView>, k: int)
    requires
        forall|i: int| 0 <= i < gs.len() ==> number_in_range(#[trigger] gs[i]),
        k < 1 || k > 9,
    ensures
        count_number(gs, k) == 0,
    decreases gs.len(),
{
    if gs.len() > 0 {
        assert(number_in_range(gs[gs.len() - 1]));
        lemma_count_outside(gs.drop_last(), k);
    }
}

} // verus!
