use vstd::prelude::*;

use crate::chars::{spec_parse_u8, spec_single_char};
use crate::fu::Fu;
use crate::hand::model::{count_type, filter_type, num, total_tiles, HandView};
use crate::suit::Suit;
use crate::tile_group::{spec_tile_count, GroupType, TileView};

verus! {

/// A group with no terminal and no honor tile.
pub open spec fn is_simple(g: TileView) -> bool {
    !g.isterminal && !g.is_honor()
}

/// A group holding a terminal and no honor.
pub open spec fn is_pure_terminal(g: TileView) -> bool {
    !g.is_honor() && g.isterminal
}

/// How many entries of `s` equal `x`.
pub open spec fn count_eq(s: Seq<TileView>, x: TileView) -> nat
    decreases s.len(),
{
    if s.len() == 0 {
        0
    } else {
        count_eq(s.drop_last(), x) + if s.last() == x {
            1nat
        } else {
            0nat
        }
    }
}

/// Whether two entries of `s` are equal.
pub open spec fn has_duplicate(s: Seq<TileView>) -> bool {
    exists|i: int, j: int| #![trigger s[i], s[j]] 0 <= i < j < s.len() && s[i] == s[j]
}

/// The han from value honors that one meld gives: one each for the prevalent wind, the
/// seat wind and a dragon.
pub open spec fn yakuhai_points(g: TileView, seat: TileView, prev: TileView) -> nat {
    (if g.value == prev.value {
        1nat
    } else {
        0nat
    }) + (if g.value == seat.value {
        1nat
    } else {
        0nat
    }) + (if g.suit == Suit::Dragon {
        1nat
    } else {
        0nat
    })
}

/// The value-honor han of a list of melds.
pub open spec fn sum_yakuhai(gs: Seq<TileView>, seat: TileView, prev: TileView) -> nat
    decreases gs.len(),
{
    if gs.len() == 0 {
        0
    } else {
        sum_yakuhai(gs.drop_last(), seat, prev) + yakuhai_points(gs.last(), seat, prev)
    }
}

/// The number of closed groups in a list.
pub open spec fn count_closed(gs: Seq<TileView>) -> nat
    decreases gs.len(),
{
    if gs.len() == 0 {
        0
    } else {
        count_closed(gs.drop_last()) + if !gs.last().isopen {
            1nat
        } else {
            0nat
        }
    }
}

/// The number of groups of a suit in a list.
pub open spec fn count_suit(gs: Seq<TileView>, s: Suit) -> nat
    decreases gs.len(),
{
    if gs.len() == 0 {
        0
    } else {
        count_suit(gs.drop_last(), s) + if gs.last().suit == s {
            1nat
        } else {
            0nat
        }
    }
}

/// The value and suit of a group.
pub open spec fn key(g: TileView) -> (Seq<char>, Suit) {
    (g.value, g.suit)
}

/// The distinct keys of a list of groups, in order of first appearance.
pub open spec fn distinct_keys(gs: Seq<TileView>) -> Seq<(Seq<char>, Suit)>
    decreases gs.len(),
{
    if gs.len() == 0 {
        Seq::empty()
    } else {
        let r = distinct_keys(gs.drop_last());
        if r.contains(key(gs.last())) {
            r
        } else {
            r.push(key(gs.last()))
        }
    }
}

/// How many keys have the value `v`.
pub open spec fn count_key_value(d: Seq<(Seq<char>, Suit)>, v: Seq<char>) -> nat
    decreases d.len(),
{
    if d.len() == 0 {
        0
    } else {
        count_key_value(d.drop_last(), v) + if d.last().0 == v {
            1nat
        } else {
            0nat
        }
    }
}

/// A group of terminals and honors only, with at least one terminal group and one honor
/// group that is not a terminal.
pub open spec fn terminals_and_honors(gs: Seq<TileView>) -> bool {
    &&& forall|i: int| 0 <= i < gs.len() ==> #[trigger] gs[i].isterminal || gs[i].is_honor()
    &&& exists|i: int| 0 <= i < gs.len() && #[trigger] gs[i].isterminal
    &&& exists|i: int| 0 <= i < gs.len() && !#[trigger] gs[i].isterminal && gs[i].is_honor()
}

/// Whether a sequence of the suit starts at `c`.
pub open spec fn has_seq_at(ss: Seq<TileView>, s: Suit, c: char) -> bool {
    exists|i: int| 0 <= i < ss.len() && #[trigger] ss[i].suit == s && ss[i].value == seq![c]
}

/// Lexicographic order of character strings; it is the order of their UTF-8 bytes.
pub open spec fn lex_lt(a: Seq<char>, b: Seq<char>) -> bool
    decreases a.len(),
{
    if a.len() == 0 {
        b.len() > 0
    } else if b.len() == 0 {
        false
    } else if (a[0] as int) < (b[0] as int) {
        true
    } else if (a[0] as int) > (b[0] as int) {
        false
    } else {
        lex_lt(a.drop_first(), b.drop_first())
    }
}

/// The order of strings is transitive.
pub proof fn lemma_lex_trans(a: Seq<char>, b: Seq<char>, c: Seq<char>)
    requires
        lex_lt(a, b),
        lex_lt(b, c),
    ensures
        lex_lt(a, c),
    decreases a.len(),
{
    if a.len() > 0 && b.len() > 0 && c.len() > 0 && a[0] == b[0] && b[0] == c[0] {
        lemma_lex_trans(a.drop_first(), b.drop_first(), c.drop_first());
    }
}

/// Two different strings are ordered one way or the other.
pub proof fn lemma_lex_total(a: Seq<char>, b: Seq<char>)
    requires
        a != b,
    ensures
        lex_lt(a, b) || lex_lt(b, a),
    decreases a.len(),
{
    if a.len() == 0 && b.len() == 0 {
        assert(a =~= b);
    }
    if a.len() > 0 && b.len() > 0 && a[0] == b[0] {
        if a.drop_first() == b.drop_first() {
            assert(a =~= seq![a[0]] + a.drop_first());
            assert(b =~= seq![b[0]] + b.drop_first());
        }
        lemma_lex_total(a.drop_first(), b.drop_first());
    }
}

/// No string is before itself.
pub proof fn lemma_lex_irrefl(a: Seq<char>)
    ensures
        !lex_lt(a, a),
    decreases a.len(),
{
    if a.len() > 0 {
        lemma_lex_irrefl(a.drop_first());
    }
}

/// The values of a list of groups.
pub open spec fn values_of(gs: Seq<TileView>) -> Seq<Seq<char>> {
    gs.map_values(|g: TileView| g.value)
}

/// How many entries of `l` equal `v`.
pub open spec fn count_value(l: Seq<Seq<char>>, v: Seq<char>) -> nat
    decreases l.len(),
{
    if l.len() == 0 {
        0
    } else {
        count_value(l.drop_last(), v) + if l.last() == v {
            1nat
        } else {
            0nat
        }
    }
}

/// Whether entry `i` is a least entry of `l`.
pub open spec fn is_least(l: Seq<Seq<char>>, i: int) -> bool {
    0 <= i < l.len() && forall|j: int| 0 <= j < l.len() ==> !lex_lt(#[trigger] l[j], l[i])
}

/// Whether a meld has the value `c`.
pub open spec fn has_value(gs: Seq<TileView>, c: char) -> bool {
    exists|i: int| 0 <= i < gs.len() && #[trigger] gs[i].value == seq![c]
}

/// The values of the all-green hand: 2 3 4 6 8 of bamboo and the green dragon.
pub open spec fn green_value(v: Seq<char>) -> bool {
    match spec_single_char(v) {
        Some(c) => c == '2' || c == '3' || c == '4' || c == '6' || c == '8' || c == 'g',
        None => false,
    }
}

/// Whether some group has the value and suit `k`.
pub open spec fn has_key(gs: Seq<TileView>, k: (Seq<char>, Suit)) -> bool {
    exists|i: int| 0 <= i < gs.len() && #[trigger] key(gs[i]) == k
}

/// The thirteen terminal and honor tiles of kokushi musou.
pub open spec fn orphan(k: int) -> (Seq<char>, Suit) {
    if k == 0 {
        (seq!['1'], Suit::Manzu)
    } else if k == 1 {
        (seq!['9'], Suit::Manzu)
    } else if k == 2 {
        (seq!['1'], Suit::Pinzu)
    } else if k == 3 {
        (seq!['9'], Suit::Pinzu)
    } else if k == 4 {
        (seq!['1'], Suit::Souzu)
    } else if k == 5 {
        (seq!['9'], Suit::Souzu)
    } else if k == 6 {
        (seq!['E'], Suit::Wind)
    } else if k == 7 {
        (seq!['S'], Suit::Wind)
    } else if k == 8 {
        (seq!['W'], Suit::Wind)
    } else if k == 9 {
        (seq!['N'], Suit::Wind)
    } else if k == 10 {
        (seq!['r'], Suit::Dragon)
    } else if k == 11 {
        (seq!['g'], Suit::Dragon)
    } else {
        (seq!['w'], Suit::Dragon)
    }
}

impl HandView {
    /// Only simple tiles.
    pub open spec fn tanyao(self) -> bool {
        self.groups.len() != 13 && forall|i: int|
            0 <= i < self.groups.len() ==> is_simple(#[trigger] self.groups[i])
    }

    /// Four closed sequences that form two identical pairs.
    pub open spec fn ryanpeikou(self) -> bool {
        let s = self.sequences();
        s.len() == 4 && !self.isopen && forall|i: int|
            0 <= i < 4 ==> #[trigger] count_eq(s, s[i]) % 2 == 0
    }

    /// Two identical sequences in a closed hand that is not ryanpeikou.
    pub open spec fn iipeikou(self) -> bool {
        has_duplicate(self.sequences()) && !self.isopen && !self.ryanpeikou()
    }

    /// The han of the value honor triplets and kans.
    pub open spec fn yakuhai(self) -> nat {
        sum_yakuhai(self.triplets(), self.seat, self.prev) + sum_yakuhai(
            self.kans(),
            self.seat,
            self.prev,
        )
    }

    /// All triplets and kans.
    pub open spec fn toitoi(self) -> bool {
        count_type(self.groups, GroupType::Triplet) + count_type(self.groups, GroupType::Kan) == 4
    }

    /// Three closed triplets or kans; a triplet completed last by a ron is not closed.
    pub open spec fn sanankou(self, tsumo: bool) -> bool {
        self.groups.len() != 13 && count_closed(self.triplets()) + count_closed(self.kans()) - (
        if !tsumo && self.last().group_type == GroupType::Triplet {
            1int
        } else {
            0int
        }) == 3
    }

    /// The same sequence in the three numbered suits. Among the distinct value-suit
    /// combinations of the sequences there are either exactly three, all of one value, or
    /// exactly four, three of one value.
    pub open spec fn sanshokudoujun(self) -> bool {
        let d = distinct_keys(self.sequences());
        self.sequences().len() >= 3 && ((d.len() == 3 && d[0].0 == d[1].0 && d[1].0 == d[2].0)
            || (d.len() == 4 && exists|i: int|
            0 <= i < 4 && #[trigger] count_key_value(d, d[i].0) >= 3))
    }

    /// One numbered suit and honors, with both present.
    pub open spec fn honitsu(self) -> bool {
        let gs = self.groups;
        &&& gs.len() != 13
        &&& exists|i: int| 0 <= i < gs.len() && #[trigger] gs[i].is_honor()
        &&& exists|i: int| 0 <= i < gs.len() && !#[trigger] gs[i].is_honor()
        &&& forall|i: int, j: int|
            #![trigger gs[i], gs[j]]
            0 <= i < gs.len() && 0 <= j < gs.len() && !gs[i].is_honor() && !gs[j].is_honor()
                ==> gs[i].suit == gs[j].suit
    }

    /// Two dragon triplets or kans, and the first pair of dragons.
    pub open spec fn shousangen(self) -> bool {
        count_suit(self.triplets(), Suit::Dragon) + count_suit(self.kans(), Suit::Dragon) == 2
            && self.pairs()[0].suit == Suit::Dragon
    }

    /// Every group holds a terminal and none an honor, with a sequence among them.
    pub open spec fn junchantaiyao(self) -> bool {
        &&& self.groups.len() != 13
        &&& forall|i: int| 0 <= i < self.groups.len() ==> is_pure_terminal(#[trigger] self.groups[i])
        &&& self.sequences().len() > 0
    }

    /// Only terminals and honors, with no sequence.
    pub open spec fn honroutou(self) -> bool {
        self.groups.len() != 13 && self.sequences().len() == 0 && terminals_and_honors(
            self.groups,
        )
    }

    /// Three kans.
    pub open spec fn sankantsu(self) -> bool {
        count_type(self.groups, GroupType::Kan) == 3
    }

    /// 123, 456 and 789 in one numbered suit.
    pub open spec fn ittsuu(self) -> bool {
        exists|s: Suit|
            (s == Suit::Pinzu || s == Suit::Manzu || s == Suit::Souzu) && #[trigger] has_seq_at(
                self.sequences(),
                s,
                '1',
            ) && has_seq_at(self.sequences(), s, '4') && has_seq_at(self.sequences(), s, '7')
    }

    /// Terminal or honor groups with at least one sequence.
    pub open spec fn chantaiyao(self) -> bool {
        self.groups.len() != 13 && self.sequences().len() > 0 && terminals_and_honors(
            self.groups,
        )
    }

    /// Seven unique pairs: no two of them have the same value and suit.
    pub open spec fn chiitoitsu(self) -> bool {
        &&& count_type(self.groups, GroupType::Pair) == 7
        &&& forall|i: int, j: int|
            0 <= i < j < self.pairs().len() ==> key(#[trigger] self.pairs()[i]) != key(
                #[trigger] self.pairs()[j],
            )
    }

    /// A closed hand won by self-draw.
    pub open spec fn menzentsumo(self, tsumo: bool) -> bool {
        !self.isopen && tsumo
    }

    /// A closed hand whose ron minipoints are only the base points and the closed ron.
    pub open spec fn pinfu(self) -> bool {
        self.groups.len() != 13 && !self.isopen && forall|i: int|
            0 <= i < self.fu(false).len() ==> (#[trigger] self.fu(false)[i] == Fu::BasePoints
                || self.fu(false)[i] == Fu::ClosedRon)
    }

    /// The values of the triplets followed by those of the kans.
    pub open spec fn meld_values(self) -> Seq<Seq<char>> {
        values_of(self.triplets()) + values_of(self.kans())
    }

    /// Three triplets or kans of one value: with three or four of them, a value that
    /// occurs three times; with more, the least value occurs three times.
    pub open spec fn sanshokudoukou(self) -> bool {
        let l = self.meld_values();
        l.len() >= 3 && ((exists|i: int| is_least(l, i) && #[trigger] count_value(l, l[i]) >= 3)
            || (l.len() == 4 && exists|i: int|
            0 <= i < 4 && #[trigger] count_value(l, l[i]) >= 3))
    }

    /// Tiles of one suit only.
    pub open spec fn chinitsu(self) -> bool {
        self.groups.len() != 13 && forall|i: int|
            0 <= i < self.groups.len() ==> #[trigger] self.groups[i].suit == self.groups[0].suit
    }

    /// The triplets and kans.
    pub open spec fn melds(self) -> Seq<TileView> {
        self.triplets() + self.kans()
    }

    /// Triplets or kans of the three dragons.
    pub open spec fn daisangen(self) -> bool {
        has_value(self.melds(), 'r') && has_value(self.melds(), 'g') && has_value(
            self.melds(),
            'w',
        )
    }

    /// Four closed triplets or kans; on a ron the last group must not be a triplet.
    pub open spec fn suuankou(self, tsumo: bool) -> bool {
        &&& self.groups.len() != 13
        &&& self.melds().len() == 4
        &&& !self.isopen
        &&& !(!tsumo && self.last().group_type == GroupType::Triplet)
    }

    /// Four closed triplets or kans completed on the pair.
    pub open spec fn suuankoutankiwait(self) -> bool {
        &&& self.groups.len() != 13
        &&& self.melds().len() == 4
        &&& !self.isopen
        &&& self.last().group_type == GroupType::Pair
    }

    /// Four triplets or kans and only terminals.
    pub open spec fn chinroutou(self) -> bool {
        &&& self.groups.len() != 13
        &&& self.melds().len() == 4
        &&& forall|i: int| 0 <= i < self.groups.len() ==> #[trigger] self.groups[i].isterminal
    }

    /// Only the green tiles.
    pub open spec fn ryuuiisou(self) -> bool {
        &&& self.groups.len() != 13
        &&& forall|i: int|
            0 <= i < self.melds().len() ==> green_value(#[trigger] self.melds()[i].value)
        &&& forall|i: int|
            0 <= i < self.pairs().len() ==> green_value(#[trigger] self.pairs()[i].value)
        &&& forall|i: int|
            0 <= i < self.sequences().len() ==> #[trigger] self.sequences()[i].value == seq!['2']
        &&& forall|i: int|
            0 <= i < self.groups.len() ==> #[trigger] self.groups[i].suit == Suit::Souzu
                || self.groups[i].suit == Suit::Dragon
    }

    /// Every group is of the first group's numbered suit, with a value that reads as a
    /// number: from 1 to 7 for a sequence, from 1 to 9 for the other shapes.
    pub open spec fn one_numbered_suit(self) -> bool {
        &&& self.groups.len() > 0
        &&& is_numbered(self.groups[0].suit)
        &&& forall|i: int|
            0 <= i < self.groups.len() ==> #[trigger] self.groups[i].suit == self.groups[0].suit
                && number_in_range(self.groups[i])
    }

    /// 1112345678999 of one suit plus one more tile of that suit, however the tiles are
    /// grouped: fourteen tiles of one numbered suit, with at least three 1s, three 9s and
    /// one of each number between.
    pub open spec fn chuurenpoutou(self) -> bool {
        &&& self.one_numbered_suit()
        &&& total_tiles(self.groups) == 14
        &&& forall|k: int| 1 <= k <= 9 ==> #[trigger] count_number(self.groups, k) >= chuuren_base(k)
    }

    /// Chuuren poutou won on a nine-sided wait: the thirteen tiles held before the winning
    /// tile were exactly 1112345678999, so the winning tile is the one more tile.
    pub open spec fn chuurenpoutou9sided(self) -> bool {
        &&& self.chuurenpoutou()
        &&& self.win.suit == self.groups[0].suit
        &&& spec_parse_u8(self.win.value) is Some
        &&& count_number(self.groups, num(self.win)) == chuuren_base(num(self.win)) + 1
    }

    /// Only honors.
    pub open spec fn tsuuiisou(self) -> bool {
        self.groups.len() != 13 && forall|i: int|
            0 <= i < self.groups.len() ==> #[trigger] self.groups[i].is_honor()
    }

    /// Seven pairs of honors.
    pub open spec fn daichiishin(self) -> bool {
        self.tsuuiisou() && count_type(self.groups, GroupType::Pair) == 7
    }

    /// Four kans.
    pub open spec fn suukantsu(self) -> bool {
        count_type(self.groups, GroupType::Kan) == 4
    }

    /// Three wind triplets or kans and a wind pair.
    pub open spec fn shousuushii(self) -> bool {
        &&& count_suit(self.triplets(), Suit::Wind) + count_suit(self.kans(), Suit::Wind) == 3
        &&& exists|i: int| 0 <= i < self.pairs().len() && #[trigger] self.pairs()[i].suit == Suit::Wind
    }

    /// Four wind triplets or kans.
    pub open spec fn daisuushii(self) -> bool {
        count_suit(self.triplets(), Suit::Wind) + count_suit(self.kans(), Suit::Wind) == 4
    }

    /// One of each terminal and honor, one of them doubled as the pair.
    pub open spec fn kokushi(self) -> bool {
        &&& count_type(self.groups, GroupType::Single) == 12
        &&& count_type(self.groups, GroupType::Pair) == 1
        &&& self.groups.len() == 13
        &&& forall|k: int| 0 <= k < 13 ==> #[trigger] has_key(self.groups, orphan(k))
    }

    /// Kokushi musou completed on the pair: the thirteen-sided wait.
    pub open spec fn kokushi13sided(self) -> bool {
        self.kokushi() && self.last().group_type == GroupType::Pair
    }

    /// A first-turn win as the dealer (the east seat).
    pub open spec fn tenhou(self, tenhou: bool) -> bool {
        tenhou && self.seat.value == seq!['E']
    }

    /// A first-turn win in another seat.
    pub open spec fn chiihou(self, tenhou: bool) -> bool {
        tenhou && self.seat.value != seq!['E']
    }
}

/// Whether a suit has numbered tiles.
pub open spec fn is_numbered(s: Suit) -> bool {
    s == Suit::Manzu || s == Suit::Pinzu || s == Suit::Souzu
}

/// A group whose value reads as a number, from 1 to 7 for a sequence and from 1 to 9
/// otherwise.
pub open spec fn number_in_range(g: TileView) -> bool {
    &&& spec_parse_u8(g.value) is Some
    &&& 1 <= num(g)
    &&& if g.group_type == GroupType::Sequence {
        num(g) <= 7
    } else {
        num(g) <= 9
    }
}

/// The number of tiles numbered `k` in one group.
pub open spec fn group_count(g: TileView, k: int) -> nat {
    let n = num(g);
    match g.group_type {
        GroupType::Sequence => if n <= k <= n + 2 {
            1
        } else {
            0
        },
        _ => if n == k {
            spec_tile_count(g.group_type)
        } else {
            0
        },
    }
}

/// The number of tiles numbered `k` in a list of groups.
pub open spec fn count_number(gs: Seq<TileView>, k: int) -> nat
    decreases gs.len(),
{
    if gs.len() == 0 {
        0
    } else {
        count_number(gs.drop_last(), k) + group_count(gs.last(), k)
    }
}

/// How many tiles of each number 1112345678999 holds.
pub open spec fn chuuren_base(k: int) -> nat {
    if k == 1 || k == 9 {
        3
    } else {
        1
    }
}

} // verus!
