use vstd::prelude::*;

use crate::chars::{single_char, spec_single_char};
use crate::hand::error::HandErr;

verus! {

/// The five suits: three numbered suits and the two honor suits.
#[derive(Debug, Clone, Copy, PartialEq, Eq, PartialOrd, Ord, Hash, Structural)]
pub enum Suit {
    Manzu,
    Pinzu,
    Souzu,
    Wind,
    Dragon,
}

/// The suit that a suit letter names. The letter `z` is the numbered honor notation:
/// `1`-`4` are the winds and `5`-`7` the dragons; any other value is an invalid group.
pub open spec fn spec_suit_from_string(suit: Seq<char>, value: Seq<char>) -> Result<Suit, HandErr> {
    match spec_single_char(suit) {
        Some('s') => Ok(Suit::Souzu),
        Some('p') => Ok(Suit::Pinzu),
        Some('m') => Ok(Suit::Manzu),
        Some('w') => Ok(Suit::Wind),
        Some('d') => Ok(Suit::Dragon),
        Some('z') => match spec_single_char(value) {
            Some('1') | Some('2') | Some('3') | Some('4') => Ok(Suit::Wind),
            Some('5') | Some('6') | Some('7') => Ok(Suit::Dragon),
            _ => Err(HandErr::InvalidGroup),
        },
        _ => Err(HandErr::InvalidSuit),
    }
}

impl Suit {
    /// Parse the suit from its letter; `value` is the tile value, which decides the
    /// suit of the `z` notation.
    pub fn suit_from_string(suit: &str, value: &str) -> (r: Result<Self, HandErr>)
        ensures
            r == spec_suit_from_string(suit@, value@),
    {
        match single_char(suit) {
            Some('s') => Ok(Self::Souzu),
            Some('p') => Ok(Self::Pinzu),
            Some('m') => Ok(Self::Manzu),
            Some('w') => Ok(Self::Wind),
            Some('d') => Ok(Self::Dragon),
            Some('z') => {
                match single_char(value) {
                    Some('1') | Some('2') | Some('3') | Some('4') => Ok(Self::Wind),
                    Some('5') | Some('6') | Some('7') => Ok(Self::Dragon),
                    _ => Err(HandErr::InvalidGroup),
                }
            },
            _ => Err(HandErr::InvalidSuit),
        }
    }

    /// The suit named by the suit character `suit` of a tile whose value character is `value`.
    pub fn suit_from_char(suit: char, value: char) -> (r: Result<Self, HandErr>)
        ensures
            r == spec_suit_from_string(seq![suit], seq![value]),
    {
        match suit {
            's' => Ok(Self::Souzu),
            'p' => Ok(Self::Pinzu),
            'm' => Ok(Self::Manzu),
            'w' => Ok(Self::Wind),
            'd' => Ok(Self::Dragon),
            'z' => match value {
                '1' | '2' | '3' | '4' => Ok(Self::Wind),
                '5' | '6' | '7' => Ok(Self::Dragon),
                _ => Err(HandErr::InvalidGroup),
            },
            _ => Err(HandErr::InvalidSuit),
        }
    }

    /// Whether the suit is one of the honor suits.
    pub fn is_honor_suit(&self) -> (r: bool)
        ensures
            r == (*self == Suit::Wind || *self == Suit::Dragon),
    {
        matches!(self, Suit::Wind | Suit::Dragon)
    }
}

} // verus!
