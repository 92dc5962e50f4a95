use vstd::prelude::*;

verus! {

/// Every way in which a hand, its context or a calculator request can be rejected.
#[derive(Debug, Clone, Copy, PartialEq, Eq, Structural)]
pub enum HandErr {
    InvalidGroup,
    InvalidSuit,
    InvalidShape,
    NoYaku,
    NoHandTiles,
    NoWinTile,
    DuplicateRiichi,
    IppatsuWithoutRiichi,
    DoubleRiichiHaiteiIppatsu,
    DoubleRiichiHaiteiChankan,
    ChankanTsumo,
    RinshanKanWithoutKan,
    RinshanWithoutTsumo,
    RinshanIppatsu,
    NoHan,
    NoFu,
}

/// The message printed for each error.
pub open spec fn spec_err_message(e: HandErr) -> Seq<char> {
    match e {
        HandErr::InvalidGroup => "Invalid Group found"@,
        HandErr::InvalidSuit => "Invalid Suit found"@,
        HandErr::InvalidShape => "Invalid Hand Shape found"@,
        HandErr::NoYaku => "No Yaku"@,
        HandErr::NoHandTiles => "No Hand Tiles given"@,
        HandErr::NoWinTile => "No Win Tile given"@,
        HandErr::DuplicateRiichi => "Cant Riichi and Double Riichi Simultaneously"@,
        HandErr::IppatsuWithoutRiichi => "Cant Ippatsu without Riichi"@,
        HandErr::DoubleRiichiHaiteiIppatsu => "Cant Double Riichi, Ippatsu and Haitei"@,
        HandErr::DoubleRiichiHaiteiChankan => "Cant Double Riichi, Ippatsu and Haitei"@,
        HandErr::ChankanTsumo => "Cant Tsumo and Chankan"@,
        HandErr::RinshanKanWithoutKan => "Cant Rinshan without Kan"@,
        HandErr::RinshanWithoutTsumo => "Cant Rinshan without Tsumo"@,
        HandErr::RinshanIppatsu => "Cant Rinshan and Ippatsu"@,
        HandErr::NoHan => "No Han provided!"@,
        HandErr::NoFu => "No Fu provided!"@,
    }
}

impl HandErr {
    /// The message printed for the error.
    pub fn to_string(&self) -> (s: String)
        ensures
            s@ == spec_err_message(*self),
    {
        let lit = match self {
            Self::InvalidGroup => "Invalid Group found",
            Self::InvalidSuit => "Invalid Suit found",
            Self::InvalidShape => "Invalid Hand Shape found",
            Self::NoYaku => "No Yaku",
            Self::NoHandTiles => "No Hand Tiles given",
            Self::NoWinTile => "No Win Tile given",
            Self::DuplicateRiichi => "Cant Riichi and Double Riichi Simultaneously",
            Self::IppatsuWithoutRiichi => "Cant Ippatsu without Riichi",
            Self::DoubleRiichiHaiteiIppatsu => "Cant Double Riichi, Ippatsu and Haitei",
            Self::DoubleRiichiHaiteiChankan => "Cant Double Riichi, Ippatsu and Haitei",
            Self::ChankanTsumo => "Cant Tsumo and Chankan",
            Self::RinshanKanWithoutKan => "Cant Rinshan without Kan",
            Self::RinshanWithoutTsumo => "Cant Rinshan without Tsumo",
            Self::RinshanIppatsu => "Cant Rinshan and Ippatsu",
            Self::NoHan => "No Han provided!",
            Self::NoFu => "No Fu provided!",
        };
        String::from_str(lit)
    }
}

} // verus!
