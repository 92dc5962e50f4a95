use vstd::prelude::*;

use vstd::arithmetic::power2::{lemma2_to64, lemma_pow2_strictly_increases, pow2};

use crate::fu::{calculate_total_fu_value, round_up_ten, sum_fu, Fu};
use crate::hand::error::HandErr;
use crate::hand::model::{opt_views, HandView};
use crate::hand::Hand;
use crate::payment::{spec_base_points, spec_round_fu, Payment};
use crate::score::{FuValue, HanValue, HonbaCounter, Score, ScoreView};
use crate::tile_group::{TileGroup, TileView};
use crate::yaku::{spec_han, spec_is_yakuman, Yaku};

verus! {

/// The ways a calculator request can be rejected.
#[derive(Debug, Clone, Copy, PartialEq, Eq, Structural)]
pub enum CalculatorErrors {
    NoHan,
    NoFu,
    NoYaku,
}

/// The message printed for each calculator error.
pub open spec fn spec_calculator_message(e: CalculatorErrors) -> Seq<char> {
    match e {
        CalculatorErrors::NoHan => "No han provided!"@,
        CalculatorErrors::NoFu => "No fu provided!"@,
        CalculatorErrors::NoYaku => "No Yaku!"@,
    }
}

impl CalculatorErrors {
    /// The message printed for the error.
    pub fn to_string(&self) -> (s: String)
        ensures
            s@ == spec_calculator_message(*self),
    {
        let lit = match self {
            Self::NoHan => "No han provided!",
            Self::NoFu => "No fu provided!",
            Self::NoYaku => "No Yaku!",
        };
        String::from_str(lit)
    }
}

/// The base points of a hand with limits: a hand below five han is capped at a mangan's
/// 2,000, five han is a mangan, 6-7 a haneman (3,000), 8-10 a baiman (4,000), 11-12 a
/// sanbaiman (6,000) and 13 or more a counted yakuman (8,000).
pub open spec fn spec_limit_base(han: nat, fu: nat) -> nat {
    if han >= 13 {
        8000
    } else if han >= 11 {
        6000
    } else if han >= 8 {
        4000
    } else if han >= 6 {
        3000
    } else if han == 5 {
        2000
    } else if spec_base_points(han, fu) > 2000 {
        2000
    } else {
        spec_base_points(han, fu)
    }
}

/// The calculator: no han and no fu are errors, in that order.
pub open spec fn spec_calculate(han: nat, fu: nat) -> Result<nat, HandErr> {
    if han == 0 {
        Err(HandErr::NoHan)
    } else if fu == 0 {
        Err(HandErr::NoFu)
    } else {
        Ok(spec_limit_base(han, fu))
    }
}

/// A payment result seen through the base points.
pub open spec fn payment_result(r: Result<Payment, HandErr>) -> Result<nat, HandErr> {
    match r {
        Ok(p) => Ok(p@),
        Err(e) => Err(e),
    }
}

/// The number of yakuman in a list of yaku.
pub open spec fn count_yakuman(ys: Seq<Yaku>) -> nat
    decreases ys.len(),
{
    if ys.len() == 0 {
        0
    } else {
        count_yakuman(ys.drop_last()) + if spec_is_yakuman(ys.last()) {
            spec_han(ys.last(), false)
        } else {
            0
        }
    }
}

/// Each yakuman is worth 8,000 base points; a list without one has no yaku.
pub open spec fn spec_calculate_yakuman(ys: Seq<Yaku>) -> Result<nat, HandErr> {
    if count_yakuman(ys) == 0 {
        Err(HandErr::NoYaku)
    } else {
        Ok(8000 * count_yakuman(ys))
    }
}

/// Calculate the payment from the han and fu, applying the limits.
pub fn calculate(han: HanValue, fu: FuValue) -> (r: Result<Payment, HandErr>)
    ensures
        payment_result(r) == spec_calculate(han as nat, fu as nat),
{
    if han == 0 {
        return Err(HandErr::NoHan);
    }
    if fu == 0 {
        return Err(HandErr::NoFu);
    }
    let base: u64 = if han >= 13 {
        8000
    } else if han >= 11 {
        6000
    } else if han >= 8 {
        4000
    } else if han >= 6 {
        3000
    } else if han == 5 {
        2000
    } else if fu >= 250 {
        proof {
            lemma2_to64();
            if han + 2 > 3 {
                lemma_pow2_strictly_increases(3, (han + 2) as nat);
            }
            let p = pow2((han + 2) as nat);
            let rf = spec_round_fu(fu as nat);
            assert(rf >= 250);
            assert(p >= 8);
            assert(rf * p >= 2000) by (nonlinear_arith)
                requires
                    rf >= 250,
                    p >= 8,
            ;
        }
        2000
    } else {
        proof {
            lemma2_to64();
            if han + 2 < 6 {
                lemma_pow2_strictly_increases((han + 2) as nat, 6);
            }
            let p = pow2((han + 2) as nat);
            let rf = spec_round_fu(fu as nat);
            assert(rf <= 250);
            assert(p <= 64);
            assert(rf * p <= 16000) by (nonlinear_arith)
                requires
                    rf <= 250,
                    p <= 64,
            ;
        }
        let b = Payment::from_han_and_fu(han, fu).base_points();
        if b > 2000 {
            2000
        } else {
            b
        }
    };
    Ok(Payment::new(base))
}

/// Calculate the payment from the list of yaku, counting its yakuman.
pub fn calculate_yakuman(yaku: &Vec<Yaku>) -> (r: Result<Payment, HandErr>)
    requires
        8000 * count_yakuman(yaku@) <= u32::MAX,
    ensures
        payment_result(r) == spec_calculate_yakuman(yaku@),
{
    let mut total: HanValue = 0;
    let mut i: usize = 0;
    while i < yaku.len()
        invariant
            i <= yaku.len(),
            total == count_yakuman(yaku@.take(i as int)),
            8000 * count_yakuman(yaku@) <= u32::MAX,
        decreases yaku.len() - i,
    {
        proof {
            assert(yaku@.take(i + 1).drop_last() =~= yaku@.take(i as int));
            lemma_count_yakuman_prefix(yaku@, i + 1);
        }
        if yaku[i].is_yakuman() {
            total += yaku[i].get_han(false);
        }
        i += 1;
    }
    proof {
        assert(yaku@.take(yaku.len() as int) =~= yaku@);
    }
    if total == 0 {
        return Err(HandErr::NoYaku);
    }
    let basepoints: u32 = 8000 * total;
    Ok(Payment::new(basepoints as u64))
}

proof fn lemma_count_yakuman_prefix(ys: Seq<Yaku>, i: int)
    requires
        0 <= i <= ys.len(),
    ensures
        count_yakuman(ys.take(i)) <= count_yakuman(ys),
    decreases ys.len() - i,
{
    if i < ys.len() {
        lemma_count_yakuman_prefix(ys, i + 1);
        assert(ys.take(i + 1).drop_last() =~= ys.take(i));
    } else {
        assert(ys.take(i) =~= ys);
    }
}

/// A one-yaku list when the condition holds.
pub open spec fn opt_yaku(b: bool, y: Yaku) -> Seq<Yaku> {
    if b {
        seq![y]
    } else {
        Seq::empty()
    }
}

/// The yakuman of a hand, in the order they are checked.
#[verifier::opaque]
pub open spec fn spec_yakuman_list(h: HandView, tenhou: bool, tsumo: bool) -> Seq<Yaku> {
    opt_yaku(h.daisangen(), Yaku::Daisangen)
        + opt_yaku(h.suuankou(tsumo), Yaku::Suuankou)
        + opt_yaku(h.suuankoutankiwait(), Yaku::SuuankouTankiWait)
        + opt_yaku(h.chinroutou(), Yaku::Chinroutou)
        + opt_yaku(h.ryuuiisou(), Yaku::Ryuuiisou)
        + opt_yaku(h.chuurenpoutou(), Yaku::ChuurenPoutou)
        + opt_yaku(h.chuurenpoutou9sided(), Yaku::ChuurenPoutou9SidedWait)
        + opt_yaku(h.tsuuiisou(), Yaku::Tsuuiisou)
        + opt_yaku(h.daichiishin(), Yaku::Daichiishin)
        + opt_yaku(h.suukantsu(), Yaku::Suukantsu)
        + opt_yaku(h.shousuushii(), Yaku::Shousuushii)
        + opt_yaku(h.daisuushii(), Yaku::Daisuushii)
        + opt_yaku(h.kokushi(), Yaku::KokushiMusou)
        + opt_yaku(h.kokushi13sided(), Yaku::KokushiMusou13SidedWait)
        + opt_yaku(h.tenhou(tenhou), Yaku::Tenhou)
        + opt_yaku(h.chiihou(tenhou), Yaku::Chiihou)
}

/// The first twelve yaku checks of a hand that is not a yakuman.
#[verifier::opaque]
pub open spec fn spec_yaku_first(
    h: HandView,
    riichi: bool,
    doubleriichi: bool,
    ippatsu: bool,
    haitei: bool,
    rinshan: bool,
    chankan: bool,
    tsumo: bool,
) -> Seq<Yaku> {
    opt_yaku(riichi, Yaku::Riichi)
        + opt_yaku(doubleriichi, Yaku::DoubleRiichi)
        + opt_yaku(ippatsu, Yaku::Ippatsu)
        + opt_yaku(haitei, Yaku::Haitei)
        + opt_yaku(rinshan, Yaku::RinshanKaihou)
        + opt_yaku(chankan, Yaku::Chankan)
        + opt_yaku(h.tanyao(), Yaku::Tanyao)
        + opt_yaku(h.iipeikou(), Yaku::Iipeikou)
        + opt_yaku(h.ryanpeikou(), Yaku::Ryanpeikou)
        + opt_yaku(h.toitoi(), Yaku::Toitoi)
        + opt_yaku(h.sanshokudoujun(), Yaku::SanshokuDoujun)
        + opt_yaku(h.sanankou(tsumo), Yaku::Sanankou)
}

/// The other twelve yaku checks of a hand that is not a yakuman.
#[verifier::opaque]
pub open spec fn spec_yaku_second(h: HandView, tsumo: bool) -> Seq<Yaku> {
    opt_yaku(h.honitsu(), Yaku::Honitsu)
        + opt_yaku(h.shousangen(), Yaku::Shousangen)
        + opt_yaku(h.junchantaiyao(), Yaku::JunchanTaiyao)
        + opt_yaku(h.honroutou(), Yaku::Honroutou)
        + opt_yaku(h.sankantsu(), Yaku::Sankantsu)
        + opt_yaku(h.ittsuu(), Yaku::Ittsuu)
        + opt_yaku(h.chantaiyao(), Yaku::Chantaiyao)
        + opt_yaku(h.chiitoitsu(), Yaku::Chiitoitsu)
        + opt_yaku(h.menzentsumo(tsumo), Yaku::MenzenTsumo)
        + opt_yaku(h.pinfu(), Yaku::Pinfu)
        + opt_yaku(h.sanshokudoukou(), Yaku::SanshokuDoukou)
        + opt_yaku(h.chinitsu(), Yaku::Chinitsu)
}

/// The yaku of a hand that is not a yakuman, in the order they are checked, with one
/// yakuhai for each han of value honors.
pub open spec fn spec_yaku_list(
    h: HandView,
    riichi: bool,
    doubleriichi: bool,
    ippatsu: bool,
    haitei: bool,
    rinshan: bool,
    chankan: bool,
    tsumo: bool,
) -> Seq<Yaku> {
    spec_yaku_first(h, riichi, doubleriichi, ippatsu, haitei, rinshan, chankan, tsumo)
        + spec_yaku_second(h, tsumo) + Seq::new(h.yakuhai(), |i: int| Yaku::Yakuhai)
}

/// The han of a list of yaku.
pub open spec fn sum_han(ys: Seq<Yaku>, is_open: bool) -> nat
    decreases ys.len(),
{
    if ys.len() == 0 {
        0
    } else {
        sum_han(ys.drop_last(), is_open) + spec_han(ys.last(), is_open)
    }
}

/// The yaku of a hand and their han: when there are yakuman, only the yakuman, each worth
/// one; otherwise the other yaku and the sum of their han.
#[verifier::opaque]
pub open spec fn spec_get_yaku_han(
    h: HandView,
    riichi: bool,
    doubleriichi: bool,
    ippatsu: bool,
    haitei: bool,
    rinshan: bool,
    chankan: bool,
    tenhou: bool,
    tsumo: bool,
) -> (nat, Seq<Yaku>) {
    let ym = spec_yakuman_list(h, tenhou, tsumo);
    if ym.len() > 0 {
        (ym.len(), ym)
    } else {
        let ys = spec_yaku_list(h, riichi, doubleriichi, ippatsu, haitei, rinshan, chankan, tsumo);
        (sum_han(ys, h.isopen), ys)
    }
}

/// Every yaku check can run: pinfu counts the minipoints of a closed hand.
pub open spec fn yaku_defined(h: HandView) -> bool {
    h.groups.len() != 13 && !h.isopen ==> h.fu_defined()
}

fn push_if(v: &mut Vec<Yaku>, b: bool, y: Yaku)
    ensures
        final(v)@ == old(v)@ + opt_yaku(b, y),
        final(v)@.len() <= old(v)@.len() + 1,
{
    if b {
        v.push(y);
    }
    assert(v@ =~= old(v)@ + opt_yaku(b, y));
}

fn yakuman_list(hand: &Hand, tenhou: bool, tsumo: bool) -> (r: Vec<Yaku>)
    requires
        yaku_defined(hand@),
    ensures
        r@ == spec_yakuman_list(hand@, tenhou, tsumo),
        r@.len() <= 16,
{
    proof {
        reveal(spec_yakuman_list);
        reveal(spec_yaku_first);
        reveal(spec_yaku_second);
    }
    let mut v: Vec<Yaku> = Vec::new();
    if hand.is_daisangen() {
        v.push(Yaku::Daisangen);
    }
    assert(v@ =~= opt_yaku(hand@.daisangen(), Yaku::Daisangen));
    push_if(&mut v, hand.is_suuankou(tsumo), Yaku::Suuankou);
    push_if(&mut v, hand.is_suuankoutankiwait(), Yaku::SuuankouTankiWait);
    push_if(&mut v, hand.is_chinroutou(), Yaku::Chinroutou);
    push_if(&mut v, hand.is_ryuuiisou(), Yaku::Ryuuiisou);
    push_if(&mut v, hand.is_chuurenpoutou(), Yaku::ChuurenPoutou);
    push_if(&mut v, hand.is_chuurenpoutou9sided(), Yaku::ChuurenPoutou9SidedWait);
    push_if(&mut v, hand.is_tsuuiisou(), Yaku::Tsuuiisou);
    push_if(&mut v, hand.is_daichiishin(), Yaku::Daichiishin);
    push_if(&mut v, hand.is_suukantsu(), Yaku::Suukantsu);
    push_if(&mut v, hand.is_shousuushii(), Yaku::Shousuushii);
    push_if(&mut v, hand.is_daisuushii(), Yaku::Daisuushii);
    push_if(&mut v, hand.is_kokushi(), Yaku::KokushiMusou);
    push_if(&mut v, hand.is_kokushi13sided(), Yaku::KokushiMusou13SidedWait);
    push_if(&mut v, hand.is_tenhou(tenhou), Yaku::Tenhou);
    push_if(&mut v, hand.is_chiihou(tenhou), Yaku::Chiihou);
    v
}

fn yaku_first(
    hand: &Hand,
    riichi: bool,
    doubleriichi: bool,
    ippatsu: bool,
    haitei: bool,
    rinshan: bool,
    chankan: bool,
    tsumo: bool,
) -> (r: Vec<Yaku>)
    requires
        yaku_defined(hand@),
    ensures
        r@ == spec_yaku_first(hand@, riichi, doubleriichi, ippatsu, haitei, rinshan, chankan, tsumo),
        r@.len() <= 12,
{
    proof {
        reveal(spec_yakuman_list);
        reveal(spec_yaku_first);
        reveal(spec_yaku_second);
    }
    let mut v: Vec<Yaku> = Vec::new();
    if riichi {
        v.push(Yaku::Riichi);
    }
    assert(v@ =~= opt_yaku(riichi, Yaku::Riichi));
    push_if(&mut v, doubleriichi, Yaku::DoubleRiichi);
    push_if(&mut v, ippatsu, Yaku::Ippatsu);
    push_if(&mut v, haitei, Yaku::Haitei);
    push_if(&mut v, rinshan, Yaku::RinshanKaihou);
    push_if(&mut v, chankan, Yaku::Chankan);
    push_if(&mut v, hand.is_tanyao(), Yaku::Tanyao);
    push_if(&mut v, hand.is_iipeikou(), Yaku::Iipeikou);
    push_if(&mut v, hand.is_ryanpeikou(), Yaku::Ryanpeikou);
    push_if(&mut v, hand.is_toitoi(), Yaku::Toitoi);
    push_if(&mut v, hand.is_sanshokudoujun(), Yaku::SanshokuDoujun);
    push_if(&mut v, hand.is_sanankou(tsumo), Yaku::Sanankou);
    v
}

fn yaku_second(hand: &Hand, tsumo: bool) -> (r: Vec<Yaku>)
    requires
        yaku_defined(hand@),
    ensures
        r@ == spec_yaku_second(hand@, tsumo),
        r@.len() <= 12,
{
    proof {
        reveal(spec_yakuman_list);
        reveal(spec_yaku_first);
        reveal(spec_yaku_second);
    }
    let mut v: Vec<Yaku> = Vec::new();
    if hand.is_honitsu() {
        v.push(Yaku::Honitsu);
    }
    assert(v@ =~= opt_yaku(hand@.honitsu(), Yaku::Honitsu));
    push_if(&mut v, hand.is_shousangen(), Yaku::Shousangen);
    push_if(&mut v, hand.is_junchantaiyao(), Yaku::JunchanTaiyao);
    push_if(&mut v, hand.is_honroutou(), Yaku::Honroutou);
    push_if(&mut v, hand.is_sankantsu(), Yaku::Sankantsu);
    push_if(&mut v, hand.is_ittsuu(), Yaku::Ittsuu);
    push_if(&mut v, hand.is_chantaiyao(), Yaku::Chantaiyao);
    push_if(&mut v, hand.is_chiitoitsu(), Yaku::Chiitoitsu);
    push_if(&mut v, hand.is_menzentsumo(tsumo), Yaku::MenzenTsumo);
    push_if(&mut v, hand.is_pinfu(), Yaku::Pinfu);
    push_if(&mut v, hand.is_sanshokudoukou(), Yaku::SanshokuDoukou);
    push_if(&mut v, hand.is_chinitsu(), Yaku::Chinitsu);
    v
}

fn regular_list(
    hand: &Hand,
    riichi: bool,
    doubleriichi: bool,
    ippatsu: bool,
    haitei: bool,
    rinshan: bool,
    chankan: bool,
    tsumo: bool,
) -> (r: Vec<Yaku>)
    requires
        yaku_defined(hand@),
    ensures
        r@ == spec_yaku_list(hand@, riichi, doubleriichi, ippatsu, haitei, rinshan, chankan, tsumo),
        r@.len() <= 24 + 0xffff,
{
    let mut v = yaku_first(hand, riichi, doubleriichi, ippatsu, haitei, rinshan, chankan, tsumo);
    let mut second = yaku_second(hand, tsumo);
    let ghost first_part = v@;
    let ghost second_part = second@;
    v.append(&mut second);
    let ghost before = v@;
    assert(before == first_part + second_part);
    let n = hand.is_yakuhai();
    let mut i: u16 = 0;
    while i < n
        invariant
            i <= n,
            v@ == before + Seq::new(i as nat, |j: int| Yaku::Yakuhai),
            before.len() <= 24,
        decreases n - i,
    {
        v.push(Yaku::Yakuhai);
        proof {
            assert(v@ =~= before + Seq::new((i + 1) as nat, |j: int| Yaku::Yakuhai));
        }
        i += 1;
    }
    v
}

fn sum_han_exec(yaku: &Vec<Yaku>, is_open: bool) -> (r: HanValue)
    requires
        yaku@.len() <= 24 + 0xffff,
    ensures
        r == sum_han(yaku@, is_open),
{
    let mut yaku_han: HanValue = 0;
    let mut i: usize = 0;
    while i < yaku.len()
        invariant
            i <= yaku.len(),
            yaku_han == sum_han(yaku@.take(i as int), is_open),
            yaku_han <= 6 * i,
            yaku.len() <= 24 + 0xffff,
        decreases yaku.len() - i,
    {
        proof {
            assert(yaku@.take(i + 1).drop_last() =~= yaku@.take(i as int));
        }
        yaku_han += yaku[i].get_han(is_open);
        i += 1;
    }
    proof {
        assert(yaku@.take(yaku.len() as int) =~= yaku@);
    }
    yaku_han
}

proof fn lemma_count_yakuman_le_len(ys: Seq<Yaku>)
    ensures
        count_yakuman(ys) <= ys.len(),
    decreases ys.len(),
{
    if ys.len() > 0 {
        lemma_count_yakuman_le_len(ys.drop_last());
    }
}

/// Get the han and the list of yaku of a hand in its round context.
pub fn get_yaku_han(
    hand: &Hand,
    riichi: bool,
    doubleriichi: bool,
    ippatsu: bool,
    haitei: bool,
    rinshan: bool,
    chankan: bool,
    tenhou: bool,
    tsumo: bool,
) -> (r: (HanValue, Vec<Yaku>))
    requires
        yaku_defined(hand@),
    ensures
        (r.0 as nat, r.1@) == spec_get_yaku_han(
            hand@,
            riichi,
            doubleriichi,
            ippatsu,
            haitei,
            rinshan,
            chankan,
            tenhou,
            tsumo,
        ),
        r.1@.len() <= 24 + 0xffff,
        r.0 > 0 ==> r.1@.len() > 0,
{
    proof {
        reveal(spec_get_yaku_han);
    }
    let yakuman = yakuman_list(hand, tenhou, tsumo);
    if yakuman.len() > 0 {
        return (yakuman.len() as HanValue, yakuman);
    }
    let yaku = regular_list(hand, riichi, doubleriichi, ippatsu, haitei, rinshan, chankan, tsumo);
    let yaku_han = sum_han_exec(&yaku, hand.is_open());
    (yaku_han, yaku)
}

/// Whether a list of yaku holds a yakuman.
pub open spec fn any_yakuman(ys: Seq<Yaku>) -> bool {
    exists|i: int| 0 <= i < ys.len() && spec_is_yakuman(#[trigger] ys[i])
}

/// The minipoints of a scored hand: 25 for seven pairs, 20 (and 10 on a ron) for pinfu,
/// otherwise those counted from the hand.
pub open spec fn spec_score_fu(h: HandView, ys: Seq<Yaku>, tsumo: bool) -> Seq<Fu> {
    if ys.contains(Yaku::Chiitoitsu) {
        seq![Fu::BasePointsChitoi]
    } else if ys.contains(Yaku::Pinfu) {
        if tsumo {
            seq![Fu::BasePoints]
        } else {
            seq![Fu::BasePoints, Fu::ClosedRon]
        }
    } else {
        h.fu(tsumo)
    }
}

/// How a hand is scored: a rinshan win needs a kan; a hand needs a yaku; the han are those
/// of the yaku and the dora; a yakuman hand pays by its yakuman, another by its han and fu.
pub open spec fn spec_hand_score(
    h: HandView,
    inds: Option<Seq<TileView>>,
    tsumo: bool,
    riichi: bool,
    doubleriichi: bool,
    ippatsu: bool,
    haitei: bool,
    rinshan: bool,
    chankan: bool,
    tenhou: bool,
    honba: nat,
) -> Result<ScoreView, HandErr> {
    if h.kans().len() == 0 && rinshan {
        Err(HandErr::RinshanKanWithoutKan)
    } else {
        let (han, ys) = spec_get_yaku_han(
            h,
            riichi,
            doubleriichi,
            ippatsu,
            haitei,
            rinshan,
            chankan,
            tenhou,
            tsumo,
        );
        if han == 0 {
            Err(HandErr::NoYaku)
        } else {
            let fu = spec_score_fu(h, ys, tsumo);
            let dora = h.dora_count(inds);
            let fu_score = round_up_ten(sum_fu(fu));
            let pay = if any_yakuman(ys) {
                spec_calculate_yakuman(ys)
            } else {
                spec_calculate(han + dora, fu_score)
            };
            match pay {
                Err(e) => Err(e),
                Ok(b) => Ok(
                    ScoreView {
                        payment: b,
                        yaku: ys,
                        fu,
                        han: han + dora,
                        fu_score,
                        honba,
                        is_open: h.isopen,
                        dora_count: dora,
                    },
                ),
            }
        }
    }
}

/// The hands that can be scored: every check the scoring makes can run, and the han with
/// the dora fit a `u32`.
pub open spec fn score_defined(
    h: HandView,
    inds: Option<Seq<TileView>>,
    tsumo: bool,
    riichi: bool,
    doubleriichi: bool,
    ippatsu: bool,
    haitei: bool,
    rinshan: bool,
    chankan: bool,
    tenhou: bool,
) -> bool {
    !(h.kans().len() == 0 && rinshan) ==> {
        &&& yaku_defined(h)
        &&& {
            let (han, ys) = spec_get_yaku_han(
                h,
                riichi,
                doubleriichi,
                ippatsu,
                haitei,
                rinshan,
                chankan,
                tenhou,
                tsumo,
            );
            han > 0 ==> {
                &&& (!ys.contains(Yaku::Chiitoitsu) && !ys.contains(Yaku::Pinfu)) ==> h.fu_defined()
                &&& h.dora_defined(inds)
                &&& han + h.dora_count(inds) <= u32::MAX
            }
        }
    }
}

/// Whether a hand can be scored in this context without a failure: the checks that
/// [`get_hand_score`] makes can all run, and its han with the dora fit a `u32`.
pub fn score_computable(
    hand: &Hand,
    dora: &Option<Vec<TileGroup>>,
    tsumo: bool,
    riichi: bool,
    doubleriichi: bool,
    ippatsu: bool,
    haitei: bool,
    rinshan: bool,
    chankan: bool,
    tenhou: bool,
) -> (r: bool)
    ensures
        r == score_defined(
            hand@,
            opt_views(*dora),
            tsumo,
            riichi,
            doubleriichi,
            ippatsu,
            haitei,
            rinshan,
            chankan,
            tenhou,
        ),
{
    if hand.kans().len() == 0 && rinshan {
        return true;
    }
    if !hand.yaku_computable() {
        return false;
    }
    let (han, yaku) = get_yaku_han(
        hand,
        riichi,
        doubleriichi,
        ippatsu,
        haitei,
        rinshan,
        chankan,
        tenhou,
        tsumo,
    );
    if han == 0 {
        return true;
    }
    if !contains_yaku(&yaku, Yaku::Chiitoitsu) && !contains_yaku(&yaku, Yaku::Pinfu)
        && !hand.fu_computable() {
        return false;
    }
    match hand.checked_dora_count(dora) {
        None => false,
        Some(d) => (han as u64) + (d as u64) <= 0xffff_ffff,
    }
}

/// A scoring result seen through the view of the score.
pub open spec fn score_result(r: Result<Score, HandErr>) -> Result<ScoreView, HandErr> {
    match r {
        Ok(s) => Ok(s@),
        Err(e) => Err(e),
    }
}

fn contains_yaku(ys: &Vec<Yaku>, y: Yaku) -> (r: bool)
    ensures
        r == ys@.contains(y),
{
    let mut i: usize = 0;
    while i < ys.len()
        invariant
            i <= ys.len(),
            forall|j: int| 0 <= j < i ==> ys@[j] != y,
        decreases ys.len() - i,
    {
        if ys[i] == y {
            return true;
        }
        i += 1;
    }
    false
}

fn has_yakuman(ys: &Vec<Yaku>) -> (r: bool)
    ensures
        r == any_yakuman(ys@),
{
    let mut i: usize = 0;
    while i < ys.len()
        invariant
            i <= ys.len(),
            forall|j: int| 0 <= j < i ==> !spec_is_yakuman(#[trigger] ys@[j]),
        decreases ys.len() - i,
    {
        if ys[i].is_yakuman() {
            return true;
        }
        i += 1;
    }
    false
}

fn score_fu(hand: &Hand, yaku: &Vec<Yaku>, tsumo: bool) -> (r: Vec<Fu>)
    requires
        (!yaku@.contains(Yaku::Chiitoitsu) && !yaku@.contains(Yaku::Pinfu)) ==> hand@.fu_defined(),
    ensures
        r@ == spec_score_fu(hand@, yaku@, tsumo),
        sum_fu(r@) + 9 <= u64::MAX,
{
    let fu: Vec<Fu> = if contains_yaku(yaku, Yaku::Chiitoitsu) {
        let v = vec![Fu::BasePointsChitoi];
        assert(v@ =~= seq![Fu::BasePointsChitoi]);
        v
    } else if contains_yaku(yaku, Yaku::Pinfu) {
        if tsumo {
            let v = vec![Fu::BasePoints];
            assert(v@ =~= seq![Fu::BasePoints]);
            v
        } else {
            let v = vec![Fu::BasePoints, Fu::ClosedRon];
            assert(v@ =~= seq![Fu::BasePoints, Fu::ClosedRon]);
            v
        }
    } else {
        hand.lemma_wf();
        proof {
            crate::hand::model::lemma_fu_len(hand@, tsumo);
        }
        hand.calculate_fu(tsumo)
    };
    proof {
        crate::fu::lemma_sum_fu_bound(fu@);
    }
    fu
}

fn score_payment(yaku: &Vec<Yaku>, han: HanValue, fu_score: FuValue) -> (r: Result<Payment, HandErr>)
    requires
        yaku@.len() <= 24 + 0xffff,
    ensures
        payment_result(r) == if any_yakuman(yaku@) {
            spec_calculate_yakuman(yaku@)
        } else {
            spec_calculate(han as nat, fu_score as nat)
        },
{
    if has_yakuman(yaku) {
        proof {
            lemma_count_yakuman_le_len(yaku@);
        }
        calculate_yakuman(yaku)
    } else {
        calculate(han, fu_score)
    }
}

/// Score a hand in its round context: the yaku, the fu, the dora and the payment.
#[verifier::rlimit(60)]
pub fn get_hand_score(
    hand: Hand,
    dora: Option<Vec<TileGroup>>,
    tsumo: bool,
    riichi: bool,
    doubleriichi: bool,
    ippatsu: bool,
    haitei: bool,
    rinshan: bool,
    chankan: bool,
    tenhou: bool,
    honba: HonbaCounter,
) -> (r: Result<Score, HandErr>)
    requires
        score_defined(
            hand@,
            opt_views(dora),
            tsumo,
            riichi,
            doubleriichi,
            ippatsu,
            haitei,
            rinshan,
            chankan,
            tenhou,
        ),
    ensures
        score_result(r) == spec_hand_score(
            hand@,
            opt_views(dora),
            tsumo,
            riichi,
            doubleriichi,
            ippatsu,
            haitei,
            rinshan,
            chankan,
            tenhou,
            honba as nat,
        ),
        r matches Ok(s) ==> s@.yaku.len() > 0,
{
    let ghost h = hand@;
    if hand.kans().len() == 0 && rinshan {
        return Err(HandErr::RinshanKanWithoutKan);
    }
    let (han, yaku) = get_yaku_han(
        &hand,
        riichi,
        doubleriichi,
        ippatsu,
        haitei,
        rinshan,
        chankan,
        tenhou,
        tsumo,
    );
    if han == 0 {
        return Err(HandErr::NoYaku);
    }
    let fu = score_fu(&hand, &yaku, tsumo);
    let dora_count = hand.get_dora_count(dora);
    let total = han + dora_count;
    let fu_score = calculate_total_fu_value(fu.as_slice());
    let payment = match score_payment(&yaku, total, fu_score) {
        Ok(p) => p,
        Err(e) => return Err(e),
    };
    Ok(Score::new(payment, yaku, fu, total, fu_score, honba, hand.is_open(), dora_count))
}

} // verus!
