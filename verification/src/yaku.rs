use vstd::prelude::*;

use crate::score::HanValue;

verus! {

/// The scoring patterns of a winning hand.
#[derive(Debug, Clone, Copy, PartialEq, Eq, Structural)]
pub enum Yaku {
    // One han yaku
    Tanyao,
    Iipeikou,
    Yakuhai,
    MenzenTsumo,
    Pinfu,
    Riichi,
    Ippatsu,
    Haitei,
    RinshanKaihou,
    Chankan,

    // Two han yaku
    DoubleRiichi,
    Toitoi,
    Ittsuu,
    SanshokuDoujun,
    Chantaiyao,
    Sanankou,
    SanshokuDoukou,
    Sankantsu,
    Honroutou,
    Shousangen,
    Chiitoitsu,

    // Three han yaku
    Honitsu,
    JunchanTaiyao,
    Ryanpeikou,

    // Six han yaku
    Chinitsu,

    // Yakuman
    KazoeYakuman,
    KokushiMusou,
    KokushiMusou13SidedWait,
    Suuankou,
    SuuankouTankiWait,
    Daisangen,
    Shousuushii,
    Daisuushii,
    Tsuuiisou,
    Daichiishin,
    Chinroutou,
    Ryuuiisou,
    ChuurenPoutou,
    ChuurenPoutou9SidedWait,
    Suukantsu,
    Tenhou,
    Chiihou,
}

/// The han of each yaku, which for some depends on whether the hand is open; a yakuman
/// counts as one.
pub open spec fn spec_han(y: Yaku, is_open: bool) -> nat {
    match y {
        Yaku::Tanyao => 1,
        Yaku::Iipeikou => 1,
        Yaku::Yakuhai => 1,
        Yaku::MenzenTsumo => 1,
        Yaku::Pinfu => 1,
        Yaku::Riichi => 1,
        Yaku::Ippatsu => 1,
        Yaku::Haitei => 1,
        Yaku::RinshanKaihou => 1,
        Yaku::Chankan => 1,
        Yaku::DoubleRiichi => 2,
        Yaku::Toitoi => 2,
        Yaku::Ittsuu => if is_open { 1 } else { 2 },
        Yaku::SanshokuDoujun => if is_open { 1 } else { 2 },
        Yaku::Chantaiyao => 2,
        Yaku::Sanankou => 2,
        Yaku::SanshokuDoukou => 2,
        Yaku::Sankantsu => 2,
        Yaku::Honroutou => 2,
        Yaku::Shousangen => 2,
        Yaku::Chiitoitsu => 2,
        Yaku::Honitsu => if is_open { 2 } else { 3 },
        Yaku::JunchanTaiyao => if is_open { 2 } else { 3 },
        Yaku::Ryanpeikou => 3,
        Yaku::Chinitsu => if is_open { 5 } else { 6 },
        Yaku::KazoeYakuman => 1,
        Yaku::KokushiMusou => 1,
        Yaku::KokushiMusou13SidedWait => 1,
        Yaku::Suuankou => 1,
        Yaku::SuuankouTankiWait => 1,
        Yaku::Daisangen => 1,
        Yaku::Shousuushii => 1,
        Yaku::Daisuushii => 1,
        Yaku::Tsuuiisou => 1,
        Yaku::Daichiishin => 1,
        Yaku::Chinroutou => 1,
        Yaku::Ryuuiisou => 1,
        Yaku::ChuurenPoutou => 1,
        Yaku::ChuurenPoutou9SidedWait => 1,
        Yaku::Suukantsu => 1,
        Yaku::Tenhou => 1,
        Yaku::Chiihou => 1,
    }
}

/// The yakuman.
pub open spec fn spec_is_yakuman(y: Yaku) -> bool {
    match y {
        Yaku::Tanyao => false,
        Yaku::Iipeikou => false,
        Yaku::Yakuhai => false,
        Yaku::MenzenTsumo => false,
        Yaku::Pinfu => false,
        Yaku::Riichi => false,
        Yaku::Ippatsu => false,
        Yaku::Haitei => false,
        Yaku::RinshanKaihou => false,
        Yaku::Chankan => false,
        Yaku::DoubleRiichi => false,
        Yaku::Toitoi => false,
        Yaku::Ittsuu => false,
        Yaku::SanshokuDoujun => false,
        Yaku::Chantaiyao => false,
        Yaku::Sanankou => false,
        Yaku::SanshokuDoukou => false,
        Yaku::Sankantsu => false,
        Yaku::Honroutou => false,
        Yaku::Shousangen => false,
        Yaku::Chiitoitsu => false,
        Yaku::Honitsu => false,
        Yaku::JunchanTaiyao => false,
        Yaku::Ryanpeikou => false,
        Yaku::Chinitsu => false,
        Yaku::KazoeYakuman => true,
        Yaku::KokushiMusou => true,
        Yaku::KokushiMusou13SidedWait => true,
        Yaku::Suuankou => true,
        Yaku::SuuankouTankiWait => true,
        Yaku::Daisangen => true,
        Yaku::Shousuushii => true,
        Yaku::Daisuushii => true,
        Yaku::Tsuuiisou => true,
        Yaku::Daichiishin => true,
        Yaku::Chinroutou => true,
        Yaku::Ryuuiisou => true,
        Yaku::ChuurenPoutou => true,
        Yaku::ChuurenPoutou9SidedWait => true,
        Yaku::Suukantsu => true,
        Yaku::Tenhou => true,
        Yaku::Chiihou => true,
    }
}

/// The printed name of each yaku with its han.
pub open spec fn spec_yaku_label(y: Yaku, is_open: bool) -> Seq<char> {
    match y {
        Yaku::Tanyao => "Tanyao: 1"@,
        Yaku::Iipeikou => "Iipeikou: 1"@,
        Yaku::Yakuhai => "Yakuhai: 1"@,
        Yaku::MenzenTsumo => "MenzenTsumo: 1"@,
        Yaku::Pinfu => "Pinfu: 1"@,
        Yaku::Riichi => "Riichi: 1"@,
        Yaku::Ippatsu => "Ippatsu: 1"@,
        Yaku::Haitei => "Haitei: 1"@,
        Yaku::RinshanKaihou => "RinshanKaihou: 1"@,
        Yaku::Chankan => "Chankan: 1"@,
        Yaku::DoubleRiichi => "DoubleRiichi: 2"@,
        Yaku::Toitoi => "Toitoi: 2"@,
        Yaku::Ittsuu => if is_open { "Ittsuu: 1"@ } else { "Ittsuu: 2"@ },
        Yaku::SanshokuDoujun => if is_open { "Sanshoku Doujun: 1"@ } else { "Sanshoku Doujun: 2"@ },
        Yaku::Chantaiyao => if is_open { "Chantaiyao: 1"@ } else { "Chantaiyao: 2"@ },
        Yaku::Sanankou => "Sanankou: 2"@,
        Yaku::SanshokuDoukou => "SanshokuDoukou: 2"@,
        Yaku::Sankantsu => "Sankantsu: 2"@,
        Yaku::Honroutou => "Honroutou: 2"@,
        Yaku::Shousangen => "Shousangen: 2"@,
        Yaku::Chiitoitsu => "Chiitoitsu: 2"@,
        Yaku::Honitsu => if is_open { "Honitsu: 2"@ } else { "Honitsu: 3"@ },
        Yaku::JunchanTaiyao => if is_open { "JunchanTaiyao: 2"@ } else { "JunchanTaiyao: 3"@ },
        Yaku::Ryanpeikou => "Ryanpeikou: 3"@,
        Yaku::Chinitsu => if is_open { "Chinitsu: 5"@ } else { "Chinitsu: 6"@ },
        Yaku::KazoeYakuman => "Kazoe Yakuman "@,
        Yaku::KokushiMusou => "KokushiMusou Yakuman"@,
        Yaku::KokushiMusou13SidedWait => "KokushiMusou Yakuman 13 sided wait"@,
        Yaku::Suuankou => "Suuankou Yakuman"@,
        Yaku::SuuankouTankiWait => "Suuankou Yakuman Tanki Wait "@,
        Yaku::Daisangen => "Daisangen Yakuman"@,
        Yaku::Shousuushii => "Shousuushii Yakuman"@,
        Yaku::Daisuushii => "Daisuushii Yakuman"@,
        Yaku::Tsuuiisou => "Tsuuiisou Yakuman"@,
        Yaku::Daichiishin => "Daichiishin Yakuman"@,
        Yaku::Chinroutou => "Chinroutou Yakuman"@,
        Yaku::Ryuuiisou => "Ryuuiisou Yakuman"@,
        Yaku::ChuurenPoutou => "ChuurenPoutou Yakuman"@,
        Yaku::ChuurenPoutou9SidedWait => "ChuurenPoutou Yakuman 9 sided wait "@,
        Yaku::Suukantsu => "Suukantsu Yakuman"@,
        Yaku::Tenhou => "Tenhou Yakuman"@,
        Yaku::Chiihou => "Chiihou Yakuman"@,
    }
}

impl Yaku {
    /// Convert the value to a `String`.
    pub fn to_string(&self, is_open: bool) -> (s: String)
        ensures
            s@ == spec_yaku_label(*self, is_open),
    {
        let lit = match self {
            Self::Tanyao => "Tanyao: 1",
            Self::Iipeikou => "Iipeikou: 1",
            Self::Yakuhai => "Yakuhai: 1",
            Self::MenzenTsumo => "MenzenTsumo: 1",
            Self::Pinfu => "Pinfu: 1",
            Self::Riichi => "Riichi: 1",
            Self::Ippatsu => "Ippatsu: 1",
            Self::Haitei => "Haitei: 1",
            Self::RinshanKaihou => "RinshanKaihou: 1",
            Self::Chankan => "Chankan: 1",
            Self::DoubleRiichi => "DoubleRiichi: 2",
            Self::Toitoi => "Toitoi: 2",
            Self::Ittsuu => if is_open { "Ittsuu: 1" } else { "Ittsuu: 2" },
            Self::SanshokuDoujun => if is_open { "Sanshoku Doujun: 1" } else { "Sanshoku Doujun: 2" },
            Self::Chantaiyao => if is_open { "Chantaiyao: 1" } else { "Chantaiyao: 2" },
            Self::Sanankou => "Sanankou: 2",
            Self::SanshokuDoukou => "SanshokuDoukou: 2",
            Self::Sankantsu => "Sankantsu: 2",
            Self::Honroutou => "Honroutou: 2",
            Self::Shousangen => "Shousangen: 2",
            Self::Chiitoitsu => "Chiitoitsu: 2",
            Self::Honitsu => if is_open { "Honitsu: 2" } else { "Honitsu: 3" },
            Self::JunchanTaiyao => if is_open { "JunchanTaiyao: 2" } else { "JunchanTaiyao: 3" },
            Self::Ryanpeikou => "Ryanpeikou: 3",
            Self::Chinitsu => if is_open { "Chinitsu: 5" } else { "Chinitsu: 6" },
            Self::KazoeYakuman => "Kazoe Yakuman ",
            Self::KokushiMusou => "KokushiMusou Yakuman",
            Self::KokushiMusou13SidedWait => "KokushiMusou Yakuman 13 sided wait",
            Self::Suuankou => "Suuankou Yakuman",
            Self::SuuankouTankiWait => "Suuankou Yakuman Tanki Wait ",
            Self::Daisangen => "Daisangen Yakuman",
            Self::Shousuushii => "Shousuushii Yakuman",
            Self::Daisuushii => "Daisuushii Yakuman",
            Self::Tsuuiisou => "Tsuuiisou Yakuman",
            Self::Daichiishin => "Daichiishin Yakuman",
            Self::Chinroutou => "Chinroutou Yakuman",
            Self::Ryuuiisou => "Ryuuiisou Yakuman",
            Self::ChuurenPoutou => "ChuurenPoutou Yakuman",
            Self::ChuurenPoutou9SidedWait => "ChuurenPoutou Yakuman 9 sided wait ",
            Self::Suukantsu => "Suukantsu Yakuman",
            Self::Tenhou => "Tenhou Yakuman",
            Self::Chiihou => "Chiihou Yakuman",
        };
        String::from_str(lit)
    }

    /// Get the han value of the yaku.
    pub fn get_han(&self, is_open: bool) -> (r: HanValue)
        ensures
            r == spec_han(*self, is_open),
    {
        match self {
            Self::Tanyao => 1,
            Self::Iipeikou => 1,
            Self::Yakuhai => 1,
            Self::MenzenTsumo => 1,
            Self::Pinfu => 1,
            Self::Riichi => 1,
            Self::Ippatsu => 1,
            Self::Haitei => 1,
            Self::RinshanKaihou => 1,
            Self::Chankan => 1,
            Self::DoubleRiichi => 2,
            Self::Toitoi => 2,
            Self::Ittsuu => if is_open { 1 } else { 2 },
            Self::SanshokuDoujun => if is_open { 1 } else { 2 },
            Self::Chantaiyao => 2,
            Self::Sanankou => 2,
            Self::SanshokuDoukou => 2,
            Self::Sankantsu => 2,
            Self::Honroutou => 2,
            Self::Shousangen => 2,
            Self::Chiitoitsu => 2,
            Self::Honitsu => if is_open { 2 } else { 3 },
            Self::JunchanTaiyao => if is_open { 2 } else { 3 },
            Self::Ryanpeikou => 3,
            Self::Chinitsu => if is_open { 5 } else { 6 },
            Self::KazoeYakuman => 1,
            Self::KokushiMusou => 1,
            Self::KokushiMusou13SidedWait => 1,
            Self::Suuankou => 1,
            Self::SuuankouTankiWait => 1,
            Self::Daisangen => 1,
            Self::Shousuushii => 1,
            Self::Daisuushii => 1,
            Self::Tsuuiisou => 1,
            Self::Daichiishin => 1,
            Self::Chinroutou => 1,
            Self::Ryuuiisou => 1,
            Self::ChuurenPoutou => 1,
            Self::ChuurenPoutou9SidedWait => 1,
            Self::Suukantsu => 1,
            Self::Tenhou => 1,
            Self::Chiihou => 1,
        }
    }

    /// Check if the yaku is considered a yakuman.
    pub fn is_yakuman(&self) -> (r: bool)
        ensures
            r == spec_is_yakuman(*self),
    {
        matches!(
            self,
            Self::KazoeYakuman
                | Self::KokushiMusou
                | Self::KokushiMusou13SidedWait
                | Self::Suuankou
                | Self::Daisangen
                | Self::Shousuushii
                | Self::Daisuushii
                | Self::Tsuuiisou
                | Self::Chinroutou
                | Self::Ryuuiisou
                | Self::ChuurenPoutou
                | Self::ChuurenPoutou9SidedWait
                | Self::Suukantsu
                | Self::Tenhou
                | Self::Chiihou
                | Self::SuuankouTankiWait
                | Self::Daichiishin
        )
    }
}

} // verus!
