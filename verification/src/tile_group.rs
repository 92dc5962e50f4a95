use vstd::prelude::*;

use crate::chars::{
    char_string, contains_char, decimal, decimal_string, lemma_parse_single, spec_parse_u8,
    single_char,
};
use crate::hand::error::HandErr;
use crate::suit::{spec_suit_from_string, Suit};

verus! {

/// The standard library's `std::num::ParseIntError`, which [`TileGroup::parse_u8`] hands
/// back unchanged; nothing is assumed of it.
#[verifier::external_type_specification]
#[verifier::external_body]
pub struct ExParseIntError(std::num::ParseIntError);

/// The shape of a group of tiles.
#[derive(Debug, Clone, Copy, PartialEq, Eq, PartialOrd, Ord, Structural)]
pub enum GroupType {
    Sequence,
    Triplet,
    Kan,
    Pair,
    Single,
}

/// A group of tiles of one suit, as written in the tile notation (`234po`, `EEEw`, `0m`).
#[derive(Debug, PartialEq, Eq, PartialOrd, Ord)]
pub struct TileGroup {
    /// The value of the group's first tile (`1`-`9`, `E` `S` `W` `N`, `r` `g` `w`).
    pub value: String,
    pub suit: Suit,
    pub isopen: bool,
    pub group_type: GroupType,
    /// A sequence that holds a terminal, or a group of terminals.
    pub isterminal: bool,
    /// Whether the group holds a red five.
    pub isaka: bool,
}

/// The mathematical content of a [`TileGroup`].
pub struct TileView {
    pub value: Seq<char>,
    pub suit: Suit,
    pub isopen: bool,
    pub group_type: GroupType,
    pub isterminal: bool,
    pub isaka: bool,
}

impl View for TileGroup {
    type V = TileView;

    open spec fn view(&self) -> TileView {
        TileView {
            value: self.value@,
            suit: self.suit,
            isopen: self.isopen,
            group_type: self.group_type,
            isterminal: self.isterminal,
            isaka: self.isaka,
        }
    }
}

impl Clone for TileGroup {
    fn clone(&self) -> (r: Self)
        ensures
            r == *self,
    {
        TileGroup {
            value: self.value.clone(),
            suit: self.suit,
            isopen: self.isopen,
            group_type: self.group_type,
            isterminal: self.isterminal,
            isaka: self.isaka,
        }
    }
}

impl TileView {
    pub open spec fn is_honor(self) -> bool {
        self.suit == Suit::Wind || self.suit == Suit::Dragon
    }
}

/// A parse result seen through the view of the group.
pub open spec fn view_result(r: Result<TileGroup, HandErr>) -> Result<TileView, HandErr> {
    match r {
        Ok(t) => Ok(t@),
        Err(e) => Err(e),
    }
}

/// The characters that may stand for a tile in a group.
pub open spec fn is_tile_char(c: char) -> bool {
    ('1' <= c && c <= '9') || c == 'E' || c == 'S' || c == 'W' || c == 'N' || c == 'r' || c == 'g'
        || c == 'w'
}

/// A red five is written `0` and counts as a `5`.
pub open spec fn zero_as_five(c: char) -> char {
    if c == '0' {
        '5'
    } else {
        c
    }
}

/// The number of tile characters in a group's notation: all but the suit letter and the
/// open marker.
pub open spec fn shape_len(s: Seq<char>) -> int {
    if s.contains('o') {
        s.len() - 2
    } else {
        s.len() - 1
    }
}

/// Whether the first `count` characters of `s` all stand for tiles.
pub open spec fn tile_chars_upto(s: Seq<char>, count: int) -> bool {
    forall|i: int| 0 <= i < count ==> is_tile_char(zero_as_five(#[trigger] s[i]))
}

/// Whether `a b c` are three consecutive numbers starting at most at 7.
pub open spec fn is_run(a: char, b: char, c: char) -> bool {
    '1' <= a && a <= '7' && b as int == a as int + 1 && c as int == a as int + 2
}

/// The group shape of an ASCII notation string.
pub open spec fn spec_group_type_ascii(s: Seq<char>) -> Result<GroupType, HandErr> {
    let count = shape_len(s);
    if !tile_chars_upto(s, count) {
        Err(HandErr::InvalidGroup)
    } else if count == 2 {
        Ok(GroupType::Pair)
    } else if count == 3 {
        let a = zero_as_five(s[0]);
        let b = zero_as_five(s[1]);
        let c = zero_as_five(s[2]);
        if a == b && b == c {
            Ok(GroupType::Triplet)
        } else if is_run(a, b, c) {
            Ok(GroupType::Sequence)
        } else {
            Err(HandErr::InvalidGroup)
        }
    } else if count == 4 {
        Ok(GroupType::Kan)
    } else if count == 1 {
        Ok(GroupType::Single)
    } else {
        Err(HandErr::InvalidGroup)
    }
}

/// The group shape of a notation string; a string outside ASCII never names a group.
pub open spec fn spec_group_type_from_string(s: Seq<char>) -> Result<GroupType, HandErr> {
    if vstd::utf8::is_ascii_chars(s) {
        spec_group_type_ascii(s)
    } else {
        Err(HandErr::InvalidGroup)
    }
}

/// The honor that a value of the `z` notation stands for.
pub open spec fn honor_value(c: char) -> char {
    if c == '1' {
        'E'
    } else if c == '2' {
        'S'
    } else if c == '3' {
        'W'
    } else if c == '4' {
        'N'
    } else if c == '5' {
        'w'
    } else if c == '6' {
        'g'
    } else if c == '7' {
        'r'
    } else {
        c
    }
}

/// A sequence is terminal when it starts at 1 or 7; another group when it is made of
/// 1s or 9s of a numbered suit.
pub open spec fn terminal_flag(gt: GroupType, v: char, suit: Suit) -> bool {
    if gt == GroupType::Sequence {
        v == '1' || v == '7'
    } else {
        (v == '1' || v == '9') && suit != Suit::Wind && suit != Suit::Dragon
    }
}

/// How a notation string is read as a group. The empty string, a lone `o` and an open
/// group whose suit letter cannot be found have no suit.
pub open spec fn spec_try_from(s: Seq<char>) -> Result<TileView, HandErr> {
    if s.len() == 0 {
        Err(HandErr::InvalidSuit)
    } else {
        let isopen = s.last() == 'o';
        let v0 = zero_as_five(s[0]);
        if !vstd::utf8::is_ascii_chars(s) {
            if isopen {
                Err(HandErr::InvalidSuit)
            } else {
                match spec_suit_from_string(seq![s.last()], seq![v0]) {
                    Err(e) => Err(e),
                    Ok(_) => Err(HandErr::InvalidGroup),
                }
            }
        } else if isopen && s.len() == 1 {
            Err(HandErr::InvalidSuit)
        } else {
            let suitchar = if isopen {
                s[s.len() - 2]
            } else {
                s.last()
            };
            match spec_suit_from_string(seq![suitchar], seq![v0]) {
                Err(e) => Err(e),
                Ok(suit) => {
                    let v = if suitchar == 'z' {
                        honor_value(v0)
                    } else {
                        v0
                    };
                    match spec_group_type_ascii(s) {
                        Err(e) => Err(e),
                        Ok(gt) => Ok(
                            TileView {
                                value: seq![v],
                                suit,
                                isopen,
                                group_type: gt,
                                isterminal: terminal_flag(gt, v, suit),
                                isaka: s.contains('0'),
                            },
                        ),
                    }
                },
            }
        }
    }
}

/// The value of the tile that follows a group's value: numbers wrap from 9 to 1, winds go
/// E S W N, dragons go w g r.
pub open spec fn spec_next_value(t: TileView) -> Option<Seq<char>> {
    if t.suit == Suit::Wind {
        if t.value == seq!['E'] {
            Some(seq!['S'])
        } else if t.value == seq!['S'] {
            Some(seq!['W'])
        } else if t.value == seq!['W'] {
            Some(seq!['N'])
        } else if t.value == seq!['N'] {
            Some(seq!['E'])
        } else {
            None
        }
    } else if t.suit == Suit::Dragon {
        if t.value == seq!['w'] {
            Some(seq!['g'])
        } else if t.value == seq!['g'] {
            Some(seq!['r'])
        } else if t.value == seq!['r'] {
            Some(seq!['w'])
        } else {
            None
        }
    } else {
        let n = spec_parse_u8(t.value).unwrap() as nat + 1;
        if n == 10 {
            Some(seq!['1'])
        } else {
            Some(decimal(n))
        }
    }
}

/// The closed, plain group of the next tile.
pub open spec fn spec_next_tile(t: TileView) -> Result<TileView, HandErr> {
    match spec_next_value(t) {
        Some(v) => Ok(
            TileView {
                value: v,
                suit: t.suit,
                isopen: false,
                group_type: t.group_type,
                isterminal: false,
                isaka: false,
            },
        ),
        None => Err(HandErr::InvalidGroup),
    }
}

/// A group of a numbered suit must have a value that reads as a number below 255 for its
/// next tile to exist.
pub open spec fn next_tile_defined(t: TileView) -> bool {
    t.suit == Suit::Wind || t.suit == Suit::Dragon || (spec_parse_u8(t.value) is Some
        && spec_parse_u8(t.value).unwrap() < 255)
}

/// The number of tiles in a group of each shape.
pub open spec fn spec_tile_count(gt: GroupType) -> nat {
    match gt {
        GroupType::Pair => 2,
        GroupType::Triplet => 3,
        GroupType::Sequence => 3,
        GroupType::Kan => 4,
        GroupType::Single => 1,
    }
}

fn is_tile_char_exec(c: char) -> (r: bool)
    ensures
        r == is_tile_char(c),
{
    ('1' <= c && c <= '9') || c == 'E' || c == 'S' || c == 'W' || c == 'N' || c == 'r' || c == 'g'
        || c == 'w'
}

fn zero_as_five_exec(c: char) -> (r: char)
    ensures
        r == zero_as_five(c),
{
    if c == '0' {
        '5'
    } else {
        c
    }
}

fn honor_value_exec(c: char) -> (r: char)
    ensures
        r == honor_value(c),
{
    match c {
        '1' => 'E',
        '2' => 'S',
        '3' => 'W',
        '4' => 'N',
        '5' => 'w',
        '6' => 'g',
        '7' => 'r',
        _ => c,
    }
}

/// The group shape of a notation string.
fn group_type_of(s: &str) -> (r: Result<GroupType, HandErr>)
    requires
        s@.len() >= 1,
        s@.contains('o') ==> s@.len() >= 2,
    ensures
        r == spec_group_type_from_string(s@),
{
    if !s.is_ascii() {
        return Err(HandErr::InvalidGroup);
    }
    let n = s.unicode_len();
    let has_o = contains_char(s, 'o');
    let count = if has_o {
        n - 2
    } else {
        n - 1
    };
    let mut i: usize = 0;
    while i < count
        invariant
            n == s@.len(),
            count == shape_len(s@),
            count <= n,
            i <= count,
            tile_chars_upto(s@, i as int),
        decreases count - i,
    {
        if !is_tile_char_exec(zero_as_five_exec(s.get_char(i))) {
            assert(!tile_chars_upto(s@, count as int));
            return Err(HandErr::InvalidGroup);
        }
        i = i + 1;
    }
    if count == 2 {
        Ok(GroupType::Pair)
    } else if count == 3 {
        let a = zero_as_five_exec(s.get_char(0));
        let b = zero_as_five_exec(s.get_char(1));
        let c = zero_as_five_exec(s.get_char(2));
        if a == b && b == c {
            Ok(GroupType::Triplet)
        } else if '1' <= a && a <= '7' && (b as u32) == (a as u32) + 1 && (c as u32) == (a as u32)
            + 2 {
            Ok(GroupType::Sequence)
        } else {
            Err(HandErr::InvalidGroup)
        }
    } else if count == 4 {
        Ok(GroupType::Kan)
    } else if count == 1 {
        Ok(GroupType::Single)
    } else {
        Err(HandErr::InvalidGroup)
    }
}

impl GroupType {
    /// Parse the group type from the string.
    pub fn group_type_from_string(group: String) -> (r: Result<Self, HandErr>)
        requires
            group@.len() >= 1,
            group@.contains('o') ==> group@.len() >= 2,
        ensures
            r == spec_group_type_from_string(group@),
    {
        group_type_of(group.as_str())
    }

    /// The number of tiles in a group of this shape.
    pub fn tile_count(&self) -> (r: u8)
        ensures
            r == spec_tile_count(*self),
    {
        match self {
            Self::Pair => 2,
            Self::Triplet => 3,
            Self::Sequence => 3,
            Self::Kan => 4,
            Self::Single => 1,
        }
    }
}

impl TryFrom<String> for TileGroup {
    type Error = HandErr;

    fn try_from(group: String) -> (r: Result<Self, Self::Error>)
        ensures
            view_result(r) == spec_try_from(group@),
    {
        let s = group.as_str();
        let n = s.unicode_len();
        if n == 0 {
            return Err(HandErr::InvalidSuit);
        }
        let last = s.get_char(n - 1);
        let isopen = last == 'o';
        let v0 = zero_as_five_exec(s.get_char(0));
        if !s.is_ascii() {
            if isopen {
                return Err(HandErr::InvalidSuit);
            }
            return match Suit::suit_from_char(last, v0) {
                Err(e) => Err(e),
                Ok(_) => Err(HandErr::InvalidGroup),
            };
        }
        if isopen && n == 1 {
            return Err(HandErr::InvalidSuit);
        }
        let suitchar = if isopen {
            s.get_char(n - 2)
        } else {
            last
        };
        let suit = match Suit::suit_from_char(suitchar, v0) {
            Err(e) => return Err(e),
            Ok(suit) => suit,
        };
        let v = if suitchar == 'z' {
            honor_value_exec(v0)
        } else {
            v0
        };
        let group_type = match group_type_of(s) {
            Err(e) => return Err(e),
            Ok(gt) => gt,
        };
        assert(shape_len(s@) >= 1);
        assert(is_tile_char(zero_as_five(s@[0])));
        let isterminal = if group_type == GroupType::Sequence {
            v == '1' || v == '7'
        } else {
            (v == '1' || v == '9') && suit != Suit::Wind && suit != Suit::Dragon
        };
        let isaka = contains_char(s, '0');
        let value = char_string(v);
        TileGroup::new(value, suit, isopen, group_type, isterminal, isaka)
    }
}

impl vstd::std_specs::convert::TryFromSpecImpl<String> for TileGroup {
    /// The reading is stated on the views of the groups (see `try_from`), not as an
    /// equality of groups.
    open spec fn obeys_try_from_spec() -> bool {
        false
    }

    open spec fn try_from_spec(v: String) -> Result<Self, HandErr> {
        choose|r: Result<TileGroup, HandErr>| view_result(r) == spec_try_from(v@)
    }
}

impl TileGroup {
    fn new(
        value: String,
        suit: Suit,
        isopen: bool,
        group_type: GroupType,
        isterminal: bool,
        isaka: bool,
    ) -> (r: Result<Self, HandErr>)
        ensures
            r matches Ok(t) && t.value == value && t.suit == suit && t.isopen == isopen
                && t.group_type == group_type && t.isterminal == isterminal && t.isaka == isaka,
    {
        let tile = Self { value, suit, isopen, group_type, isterminal, isaka };
        Ok(tile)
    }

    /// Whether two groups are the same in every field.
    pub fn same_group(&self, other: &TileGroup) -> (r: bool)
        ensures
            r == (self@ == other@),
    {
        self.value == other.value && self.suit == other.suit && self.isopen == other.isopen
            && self.group_type == other.group_type && self.isterminal == other.isterminal
            && self.isaka == other.isaka
    }

    /// Check if the group is an honor.
    pub fn is_honor(&self) -> (r: bool)
        ensures
            r == self@.is_honor(),
    {
        matches!(self.suit, Suit::Wind | Suit::Dragon)
    }

    /// Parse the group value into an integer, with the standard library's
    /// `str::parse::<u8>`. Its contract is that parser's documented grammar: the result is
    /// `Ok` exactly when the value is an optional `+` followed by one or more decimal
    /// digits whose number is at most 255, and then holds that number. Which kind of
    /// `ParseIntError` comes back otherwise is left unsaid.
    #[verifier::external_body]
    pub fn parse_u8(&self) -> (r: Result<u8, std::num::ParseIntError>)
        ensures
            r is Ok <==> spec_parse_u8(self.value@) is Some,
            r matches Ok(n) ==> spec_parse_u8(self.value@) == Some(n),
    {
        self.value.parse()
    }

    /// Get the next tile; the dora is the tile after the dora indicator.
    pub fn next_tile(&self) -> (r: Result<Self, HandErr>)
        requires
            next_tile_defined(self@),
        ensures
            view_result(r) == spec_next_tile(self@),
    {
        let value: String = match self.suit {
            Suit::Souzu | Suit::Manzu | Suit::Pinzu => {
                let n = match self.parse_u8() {
                    Ok(n) => n,
                    Err(_) => {
                        assert(false);
                        0
                    },
                };
                let m = n + 1;
                if m == 10 {
                    char_string('1')
                } else {
                    decimal_string(m as u64)
                }
            },
            Suit::Wind => match single_char(self.value.as_str()) {
                Some('E') => char_string('S'),
                Some('S') => char_string('W'),
                Some('W') => char_string('N'),
                Some('N') => char_string('E'),
                _ => {
                    proof { Self::lemma_single_or_not(self.value@); }
                    return Err(HandErr::InvalidGroup);
                },
            },
            Suit::Dragon => match single_char(self.value.as_str()) {
                Some('w') => char_string('g'),
                Some('g') => char_string('r'),
                Some('r') => char_string('w'),
                _ => {
                    proof { Self::lemma_single_or_not(self.value@); }
                    return Err(HandErr::InvalidGroup);
                },
            },
        };
        proof { Self::lemma_single_or_not(self.value@); }
        Self::new(value, self.suit, false, self.group_type, false, false)
    }

    proof fn lemma_single_or_not(s: Seq<char>)
        ensures
            s.len() == 1 ==> s == seq![s[0]],
    {
        if s.len() == 1 {
            assert(s =~= seq![s[0]]);
        }
    }
}

} // verus!
