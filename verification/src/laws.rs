use vstd::prelude::*;

use vstd::arithmetic::power2::{lemma_pow2_strictly_increases, pow2};

use crate::calc::{
    spec_calculate_yakuman, spec_score_fu,
    any_yakuman, count_yakuman, spec_calculate, spec_get_yaku_han, spec_hand_score,
    spec_limit_base, spec_yaku_first, spec_yaku_list, spec_yaku_second, spec_yakuman_list,
    sum_han, opt_yaku,
};
use crate::hand::model::HandView;
use crate::hand::yaku_model::{count_suit, count_value, sum_yakuhai, values_of};
use crate::score::ScoreView;
use crate::cli::{dora_line, fu_lines, hand_text, payment_lines, score_line, yaku_lines};
use crate::fu::{spec_fu_label, spec_fu_value, Fu};
use crate::suit::Suit;
use crate::hand::model::{kan_fu, kans_fu, num, pairs_fu, seq_hits, triplet_fu, triplets_fu, wait_fu};
use crate::tile_group::GroupType;
use crate::tile_group::{
    shape_len, spec_next_tile, spec_tile_count, spec_try_from, TileView,
};
use crate::chars::{decimal, digit_char, lemma_parse_single};
use crate::yaku::{spec_han, spec_is_yakuman, spec_yaku_label, Yaku};
use crate::fu::{round_up_ten, sum_fu};
use crate::hand::error::HandErr;
use crate::payment::{
    round_up_hundred, spec_base_points, spec_dealer_ron, spec_dealer_tsumo,
    spec_non_dealer_ron, spec_non_dealer_tsumo_to_dealer, spec_non_dealer_tsumo_to_non_dealer,
    spec_round_fu,
};

verus! {

proof fn lemma_round_up_hundred(n: nat)
    ensures
        round_up_hundred(n) % 100 == 0,
        n <= round_up_hundred(n) < n + 100,
{
}

/// Every payment is rounded up to a multiple of a hundred: it is never below the
/// unrounded amount (the base points times the payer's multiplier plus the honba) and
/// never a full hundred above it.
pub proof fn law_payments_round_up(base: nat, honba: nat)
    ensures
        spec_dealer_ron(base, honba) % 100 == 0,
        base * 6 + 300 * honba <= spec_dealer_ron(base, honba) < base * 6 + 300 * honba + 100,
        spec_dealer_tsumo(base, honba) % 100 == 0,
        base * 2 + 100 * honba <= spec_dealer_tsumo(base, honba) < base * 2 + 100 * honba + 100,
        spec_non_dealer_ron(base, honba) % 100 == 0,
        base * 4 + 300 * honba <= spec_non_dealer_ron(base, honba) < base * 4 + 300 * honba + 100,
        spec_non_dealer_tsumo_to_dealer(base, honba) % 100 == 0,
        base * 2 + 100 * honba <= spec_non_dealer_tsumo_to_dealer(base, honba) < base * 2 + 100
            * honba + 100,
        spec_non_dealer_tsumo_to_non_dealer(base, honba) % 100 == 0,
        base + 100 * honba <= spec_non_dealer_tsumo_to_non_dealer(base, honba) < base + 100
            * honba + 100,
{
    lemma_round_up_hundred(base * 6 + 300 * honba);
    lemma_round_up_hundred(base * 2 + 100 * honba);
    lemma_round_up_hundred(base * 4 + 300 * honba);
    lemma_round_up_hundred(base + 100 * honba);
}

/// Each honba adds exactly 300 points to what the player that dealt in pays, and 100 to
/// what each player pays on a self-draw.
pub proof fn law_honba_adds(base: nat, honba: nat)
    ensures
        spec_dealer_ron(base, honba + 1) == spec_dealer_ron(base, honba) + 300,
        spec_non_dealer_ron(base, honba + 1) == spec_non_dealer_ron(base, honba) + 300,
        spec_dealer_tsumo(base, honba + 1) == spec_dealer_tsumo(base, honba) + 100,
        spec_non_dealer_tsumo_to_dealer(base, honba + 1) == spec_non_dealer_tsumo_to_dealer(
            base,
            honba,
        ) + 100,
        spec_non_dealer_tsumo_to_non_dealer(base, honba + 1)
            == spec_non_dealer_tsumo_to_non_dealer(base, honba) + 100,
{
    lemma_round_shift(base * 6 + 300 * honba, 3);
    lemma_round_shift(base * 4 + 300 * honba, 3);
    lemma_round_shift(base * 2 + 100 * honba, 1);
    lemma_round_shift(base + 100 * honba, 1);
}

proof fn lemma_round_shift(n: nat, k: nat)
    ensures
        round_up_hundred(n + 100 * k) == round_up_hundred(n) + 100 * k,
{
    assert((n + 100 * k + 99) / 100 == (n + 99) / 100 + k);
}

/// A hand worth more base points never pays less, whoever pays.
pub proof fn law_payments_grow_with_base(base1: nat, base2: nat, honba: nat)
    requires
        base1 <= base2,
    ensures
        spec_dealer_ron(base1, honba) <= spec_dealer_ron(base2, honba),
        spec_dealer_tsumo(base1, honba) <= spec_dealer_tsumo(base2, honba),
        spec_non_dealer_ron(base1, honba) <= spec_non_dealer_ron(base2, honba),
        spec_non_dealer_tsumo_to_dealer(base1, honba) <= spec_non_dealer_tsumo_to_dealer(
            base2,
            honba,
        ),
        spec_non_dealer_tsumo_to_non_dealer(base1, honba) <= spec_non_dealer_tsumo_to_non_dealer(
            base2,
            honba,
        ),
{
    lemma_round_monotone(base1 * 6 + 300 * honba, base2 * 6 + 300 * honba);
    lemma_round_monotone(base1 * 4 + 300 * honba, base2 * 4 + 300 * honba);
    lemma_round_monotone(base1 * 2 + 100 * honba, base2 * 2 + 100 * honba);
    lemma_round_monotone(base1 + 100 * honba, base2 + 100 * honba);
}

proof fn lemma_round_monotone(a: nat, b: nat)
    requires
        a <= b,
    ensures
        round_up_hundred(a) <= round_up_hundred(b),
{
    vstd::arithmetic::div_mod::lemma_div_is_ordered((a + 99) as int, (b + 99) as int, 100);
}

/// When a non-dealer wins by self-draw, the dealer pays what each player pays a dealer
/// that wins by self-draw with the same hand, and twice what each other non-dealer pays,
/// up to the rounding.
pub proof fn law_dealer_share_of_tsumo(base: nat, honba: nat)
    ensures
        spec_non_dealer_tsumo_to_dealer(base, honba) == spec_dealer_tsumo(base, honba),
        spec_non_dealer_tsumo_to_dealer(base, honba) <= 2 * spec_non_dealer_tsumo_to_non_dealer(
            base,
            honba,
        ),
{
    let x = base + 100 * honba;
    let q = (x + 99) / 100;
    lemma_round_up_hundred(x);
    assert(x <= 100 * q);
    assert(base * 2 + 100 * honba <= 2 * x);
    vstd::arithmetic::div_mod::lemma_div_is_ordered(
        (base * 2 + 100 * honba + 99) as int,
        (200 * q + 99) as int,
        100,
    );
    assert((200 * q + 99) / 100 == 2 * q);
}

/// The calculator refuses a hand without han, then one without fu, and otherwise gives
/// base points between 1 and a yakuman's 8,000, at least a mangan's 2,000 from five han on.
pub proof fn law_calculate_outcome(han: nat, fu: nat)
    ensures
        (spec_calculate(han, fu) == Err::<nat, HandErr>(HandErr::NoHan)) <==> han == 0,
        (spec_calculate(han, fu) == Err::<nat, HandErr>(HandErr::NoFu)) <==> (han > 0 && fu
            == 0),
        spec_calculate(han, fu) is Ok <==> (han > 0 && fu > 0),
        spec_calculate(han, fu) matches Ok(b) ==> 0 < b <= 8000 && (han >= 5 ==> b >= 2000),
{
    if han > 0 && fu > 0 && han < 5 {
        lemma_base_points_positive(han, fu);
    }
}

proof fn lemma_base_points_positive(han: nat, fu: nat)
    requires
        fu > 0,
    ensures
        spec_base_points(han, fu) > 0,
{
    vstd::arithmetic::power2::lemma_pow2_pos(han + 2);
    let rf = spec_round_fu(fu);
    let p = pow2(han + 2);
    assert(rf > 0);
    assert(rf * p > 0) by (nonlinear_arith)
        requires
            rf > 0,
            p > 0,
    ;
}

/// More han never lower the base points: with the fu fixed, the limited base points grow
/// with the han.
pub proof fn law_limit_grows_with_han(han1: nat, han2: nat, fu: nat)
    requires
        han1 <= han2,
    ensures
        spec_limit_base(han1, fu) <= spec_limit_base(han2, fu),
{
    if han1 < han2 && han2 < 5 {
        lemma_pow2_strictly_increases(han1 + 2, han2 + 2);
        let rf = spec_round_fu(fu);
        let p1 = pow2(han1 + 2);
        let p2 = pow2(han2 + 2);
        assert(rf * p1 <= rf * p2) by (nonlinear_arith)
            requires
                p1 < p2,
        ;
    }
}

/// The total fu is the sum of the fu rounded up to a multiple of ten.
pub proof fn law_total_fu_rounds_up(sum: nat)
    ensures
        round_up_ten(sum) % 10 == 0,
        sum <= round_up_ten(sum) < sum + 10,
{
}

/// Whether every yaku of a list is a yakuman.
pub open spec fn all_yakuman(ys: Seq<Yaku>) -> bool {
    forall|i: int| 0 <= i < ys.len() ==> spec_is_yakuman(#[trigger] ys[i])
}

proof fn lemma_opt_yaku(b: bool, y: Yaku)
    ensures
        spec_is_yakuman(y) ==> all_yakuman(opt_yaku(b, y)),
        !spec_is_yakuman(y) ==> !any_yakuman(opt_yaku(b, y)),
{
}

proof fn lemma_all_concat(a: Seq<Yaku>, b: Seq<Yaku>)
    requires
        all_yakuman(a),
        all_yakuman(b),
    ensures
        all_yakuman(a + b),
{
    assert forall|i: int| 0 <= i < (a + b).len() implies spec_is_yakuman(#[trigger] (a + b)[i]) by {
        if i >= a.len() {
            assert((a + b)[i] == b[i - a.len()]);
        }
    }
}

proof fn lemma_none_concat(a: Seq<Yaku>, b: Seq<Yaku>)
    requires
        !any_yakuman(a),
        !any_yakuman(b),
    ensures
        !any_yakuman(a + b),
{
    assert forall|i: int| 0 <= i < (a + b).len() implies !spec_is_yakuman(#[trigger] (a + b)[i]) by {
        if i < a.len() {
            assert((a + b)[i] == a[i]);
        } else {
            assert((a + b)[i] == b[i - a.len()]);
        }
    }
}

proof fn lemma_yakuman_terms(
    b0: bool,
    b1: bool,
    b2: bool,
    b3: bool,
    b4: bool,
    b5: bool,
    b6: bool,
    b7: bool,
    b8: bool,
    b9: bool,
    b10: bool,
    b11: bool,
    b12: bool,
    b13: bool,
    b14: bool,
    b15: bool,
)
    ensures
        all_yakuman(opt_yaku(b0, Yaku::Daisangen) + opt_yaku(b1, Yaku::Suuankou) + opt_yaku(b2, Yaku::SuuankouTankiWait) + opt_yaku(b3, Yaku::Chinroutou) + opt_yaku(b4, Yaku::Ryuuiisou) + opt_yaku(b5, Yaku::ChuurenPoutou) + opt_yaku(b6, Yaku::ChuurenPoutou9SidedWait) + opt_yaku(b7, Yaku::Tsuuiisou) + opt_yaku(b8, Yaku::Daichiishin) + opt_yaku(b9, Yaku::Suukantsu) + opt_yaku(b10, Yaku::Shousuushii) + opt_yaku(b11, Yaku::Daisuushii) + opt_yaku(b12, Yaku::KokushiMusou) + opt_yaku(b13, Yaku::KokushiMusou13SidedWait) + opt_yaku(b14, Yaku::Tenhou) + opt_yaku(b15, Yaku::Chiihou)),
{
    lemma_opt_yaku(b0, Yaku::Daisangen);
    lemma_opt_yaku(b1, Yaku::Suuankou);
    lemma_opt_yaku(b2, Yaku::SuuankouTankiWait);
    lemma_opt_yaku(b3, Yaku::Chinroutou);
    lemma_opt_yaku(b4, Yaku::Ryuuiisou);
    lemma_opt_yaku(b5, Yaku::ChuurenPoutou);
    lemma_opt_yaku(b6, Yaku::ChuurenPoutou9SidedWait);
    lemma_opt_yaku(b7, Yaku::Tsuuiisou);
    lemma_opt_yaku(b8, Yaku::Daichiishin);
    lemma_opt_yaku(b9, Yaku::Suukantsu);
    lemma_opt_yaku(b10, Yaku::Shousuushii);
    lemma_opt_yaku(b11, Yaku::Daisuushii);
    lemma_opt_yaku(b12, Yaku::KokushiMusou);
    lemma_opt_yaku(b13, Yaku::KokushiMusou13SidedWait);
    lemma_opt_yaku(b14, Yaku::Tenhou);
    lemma_opt_yaku(b15, Yaku::Chiihou);
    lemma_all_concat(opt_yaku(b0, Yaku::Daisangen), opt_yaku(b1, Yaku::Suuankou));
    lemma_all_concat(opt_yaku(b0, Yaku::Daisangen) + opt_yaku(b1, Yaku::Suuankou), opt_yaku(b2, Yaku::SuuankouTankiWait));
    lemma_all_concat(opt_yaku(b0, Yaku::Daisangen) + opt_yaku(b1, Yaku::Suuankou) + opt_yaku(b2, Yaku::SuuankouTankiWait), opt_yaku(b3, Yaku::Chinroutou));
    lemma_all_concat(opt_yaku(b0, Yaku::Daisangen) + opt_yaku(b1, Yaku::Suuankou) + opt_yaku(b2, Yaku::SuuankouTankiWait) + opt_yaku(b3, Yaku::Chinroutou), opt_yaku(b4, Yaku::Ryuuiisou));
    lemma_all_concat(opt_yaku(b0, Yaku::Daisangen) + opt_yaku(b1, Yaku::Suuankou) + opt_yaku(b2, Yaku::SuuankouTankiWait) + opt_yaku(b3, Yaku::Chinroutou) + opt_yaku(b4, Yaku::Ryuuiisou), opt_yaku(b5, Yaku::ChuurenPoutou));
    lemma_all_concat(opt_yaku(b0, Yaku::Daisangen) + opt_yaku(b1, Yaku::Suuankou) + opt_yaku(b2, Yaku::SuuankouTankiWait) + opt_yaku(b3, Yaku::Chinroutou) + opt_yaku(b4, Yaku::Ryuuiisou) + opt_yaku(b5, Yaku::ChuurenPoutou), opt_yaku(b6, Yaku::ChuurenPoutou9SidedWait));
    lemma_all_concat(opt_yaku(b0, Yaku::Daisangen) + opt_yaku(b1, Yaku::Suuankou) + opt_yaku(b2, Yaku::SuuankouTankiWait) + opt_yaku(b3, Yaku::Chinroutou) + opt_yaku(b4, Yaku::Ryuuiisou) + opt_yaku(b5, Yaku::ChuurenPoutou) + opt_yaku(b6, Yaku::ChuurenPoutou9SidedWait), opt_yaku(b7, Yaku::Tsuuiisou));
    lemma_all_concat(opt_yaku(b0, Yaku::Daisangen) + opt_yaku(b1, Yaku::Suuankou) + opt_yaku(b2, Yaku::SuuankouTankiWait) + opt_yaku(b3, Yaku::Chinroutou) + opt_yaku(b4, Yaku::Ryuuiisou) + opt_yaku(b5, Yaku::ChuurenPoutou) + opt_yaku(b6, Yaku::ChuurenPoutou9SidedWait) + opt_yaku(b7, Yaku::Tsuuiisou), opt_yaku(b8, Yaku::Daichiishin));
    lemma_all_concat(opt_yaku(b0, Yaku::Daisangen) + opt_yaku(b1, Yaku::Suuankou) + opt_yaku(b2, Yaku::SuuankouTankiWait) + opt_yaku(b3, Yaku::Chinroutou) + opt_yaku(b4, Yaku::Ryuuiisou) + opt_yaku(b5, Yaku::ChuurenPoutou) + opt_yaku(b6, Yaku::ChuurenPoutou9SidedWait) + opt_yaku(b7, Yaku::Tsuuiisou) + opt_yaku(b8, Yaku::Daichiishin), opt_yaku(b9, Yaku::Suukantsu));
    lemma_all_concat(opt_yaku(b0, Yaku::Daisangen) + opt_yaku(b1, Yaku::Suuankou) + opt_yaku(b2, Yaku::SuuankouTankiWait) + opt_yaku(b3, Yaku::Chinroutou) + opt_yaku(b4, Yaku::Ryuuiisou) + opt_yaku(b5, Yaku::ChuurenPoutou) + opt_yaku(b6, Yaku::ChuurenPoutou9SidedWait) + opt_yaku(b7, Yaku::Tsuuiisou) + opt_yaku(b8, Yaku::Daichiishin) + opt_yaku(b9, Yaku::Suukantsu), opt_yaku(b10, Yaku::Shousuushii));
    lemma_all_concat(opt_yaku(b0, Yaku::Daisangen) + opt_yaku(b1, Yaku::Suuankou) + opt_yaku(b2, Yaku::SuuankouTankiWait) + opt_yaku(b3, Yaku::Chinroutou) + opt_yaku(b4, Yaku::Ryuuiisou) + opt_yaku(b5, Yaku::ChuurenPoutou) + opt_yaku(b6, Yaku::ChuurenPoutou9SidedWait) + opt_yaku(b7, Yaku::Tsuuiisou) + opt_yaku(b8, Yaku::Daichiishin) + opt_yaku(b9, Yaku::Suukantsu) + opt_yaku(b10, Yaku::Shousuushii), opt_yaku(b11, Yaku::Daisuushii));
    lemma_all_concat(opt_yaku(b0, Yaku::Daisangen) + opt_yaku(b1, Yaku::Suuankou) + opt_yaku(b2, Yaku::SuuankouTankiWait) + opt_yaku(b3, Yaku::Chinroutou) + opt_yaku(b4, Yaku::Ryuuiisou) + opt_yaku(b5, Yaku::ChuurenPoutou) + opt_yaku(b6, Yaku::ChuurenPoutou9SidedWait) + opt_yaku(b7, Yaku::Tsuuiisou) + opt_yaku(b8, Yaku::Daichiishin) + opt_yaku(b9, Yaku::Suukantsu) + opt_yaku(b10, Yaku::Shousuushii) + opt_yaku(b11, Yaku::Daisuushii), opt_yaku(b12, Yaku::KokushiMusou));
    lemma_all_concat(opt_yaku(b0, Yaku::Daisangen) + opt_yaku(b1, Yaku::Suuankou) + opt_yaku(b2, Yaku::SuuankouTankiWait) + opt_yaku(b3, Yaku::Chinroutou) + opt_yaku(b4, Yaku::Ryuuiisou) + opt_yaku(b5, Yaku::ChuurenPoutou) + opt_yaku(b6, Yaku::ChuurenPoutou9SidedWait) + opt_yaku(b7, Yaku::Tsuuiisou) + opt_yaku(b8, Yaku::Daichiishin) + opt_yaku(b9, Yaku::Suukantsu) + opt_yaku(b10, Yaku::Shousuushii) + opt_yaku(b11, Yaku::Daisuushii) + opt_yaku(b12, Yaku::KokushiMusou), opt_yaku(b13, Yaku::KokushiMusou13SidedWait));
    lemma_all_concat(opt_yaku(b0, Yaku::Daisangen) + opt_yaku(b1, Yaku::Suuankou) + opt_yaku(b2, Yaku::SuuankouTankiWait) + opt_yaku(b3, Yaku::Chinroutou) + opt_yaku(b4, Yaku::Ryuuiisou) + opt_yaku(b5, Yaku::ChuurenPoutou) + opt_yaku(b6, Yaku::ChuurenPoutou9SidedWait) + opt_yaku(b7, Yaku::Tsuuiisou) + opt_yaku(b8, Yaku::Daichiishin) + opt_yaku(b9, Yaku::Suukantsu) + opt_yaku(b10, Yaku::Shousuushii) + opt_yaku(b11, Yaku::Daisuushii) + opt_yaku(b12, Yaku::KokushiMusou) + opt_yaku(b13, Yaku::KokushiMusou13SidedWait), opt_yaku(b14, Yaku::Tenhou));
    lemma_all_concat(opt_yaku(b0, Yaku::Daisangen) + opt_yaku(b1, Yaku::Suuankou) + opt_yaku(b2, Yaku::SuuankouTankiWait) + opt_yaku(b3, Yaku::Chinroutou) + opt_yaku(b4, Yaku::Ryuuiisou) + opt_yaku(b5, Yaku::ChuurenPoutou) + opt_yaku(b6, Yaku::ChuurenPoutou9SidedWait) + opt_yaku(b7, Yaku::Tsuuiisou) + opt_yaku(b8, Yaku::Daichiishin) + opt_yaku(b9, Yaku::Suukantsu) + opt_yaku(b10, Yaku::Shousuushii) + opt_yaku(b11, Yaku::Daisuushii) + opt_yaku(b12, Yaku::KokushiMusou) + opt_yaku(b13, Yaku::KokushiMusou13SidedWait) + opt_yaku(b14, Yaku::Tenhou), opt_yaku(b15, Yaku::Chiihou));
}

proof fn lemma_first_terms(
    b0: bool,
    b1: bool,
    b2: bool,
    b3: bool,
    b4: bool,
    b5: bool,
    b6: bool,
    b7: bool,
    b8: bool,
    b9: bool,
    b10: bool,
    b11: bool,
)
    ensures
        !any_yakuman(opt_yaku(b0, Yaku::Riichi) + opt_yaku(b1, Yaku::DoubleRiichi) + opt_yaku(b2, Yaku::Ippatsu) + opt_yaku(b3, Yaku::Haitei) + opt_yaku(b4, Yaku::RinshanKaihou) + opt_yaku(b5, Yaku::Chankan) + opt_yaku(b6, Yaku::Tanyao) + opt_yaku(b7, Yaku::Iipeikou) + opt_yaku(b8, Yaku::Ryanpeikou) + opt_yaku(b9, Yaku::Toitoi) + opt_yaku(b10, Yaku::SanshokuDoujun) + opt_yaku(b11, Yaku::Sanankou)),
{
    lemma_opt_yaku(b0, Yaku::Riichi);
    lemma_opt_yaku(b1, Yaku::DoubleRiichi);
    lemma_opt_yaku(b2, Yaku::Ippatsu);
    lemma_opt_yaku(b3, Yaku::Haitei);
    lemma_opt_yaku(b4, Yaku::RinshanKaihou);
    lemma_opt_yaku(b5, Yaku::Chankan);
    lemma_opt_yaku(b6, Yaku::Tanyao);
    lemma_opt_yaku(b7, Yaku::Iipeikou);
    lemma_opt_yaku(b8, Yaku::Ryanpeikou);
    lemma_opt_yaku(b9, Yaku::Toitoi);
    lemma_opt_yaku(b10, Yaku::SanshokuDoujun);
    lemma_opt_yaku(b11, Yaku::Sanankou);
    lemma_none_concat(opt_yaku(b0, Yaku::Riichi), opt_yaku(b1, Yaku::DoubleRiichi));
    lemma_none_concat(opt_yaku(b0, Yaku::Riichi) + opt_yaku(b1, Yaku::DoubleRiichi), opt_yaku(b2, Yaku::Ippatsu));
    lemma_none_concat(opt_yaku(b0, Yaku::Riichi) + opt_yaku(b1, Yaku::DoubleRiichi) + opt_yaku(b2, Yaku::Ippatsu), opt_yaku(b3, Yaku::Haitei));
    lemma_none_concat(opt_yaku(b0, Yaku::Riichi) + opt_yaku(b1, Yaku::DoubleRiichi) + opt_yaku(b2, Yaku::Ippatsu) + opt_yaku(b3, Yaku::Haitei), opt_yaku(b4, Yaku::RinshanKaihou));
    lemma_none_concat(opt_yaku(b0, Yaku::Riichi) + opt_yaku(b1, Yaku::DoubleRiichi) + opt_yaku(b2, Yaku::Ippatsu) + opt_yaku(b3, Yaku::Haitei) + opt_yaku(b4, Yaku::RinshanKaihou), opt_yaku(b5, Yaku::Chankan));
    lemma_none_concat(opt_yaku(b0, Yaku::Riichi) + opt_yaku(b1, Yaku::DoubleRiichi) + opt_yaku(b2, Yaku::Ippatsu) + opt_yaku(b3, Yaku::Haitei) + opt_yaku(b4, Yaku::RinshanKaihou) + opt_yaku(b5, Yaku::Chankan), opt_yaku(b6, Yaku::Tanyao));
    lemma_none_concat(opt_yaku(b0, Yaku::Riichi) + opt_yaku(b1, Yaku::DoubleRiichi) + opt_yaku(b2, Yaku::Ippatsu) + opt_yaku(b3, Yaku::Haitei) + opt_yaku(b4, Yaku::RinshanKaihou) + opt_yaku(b5, Yaku::Chankan) + opt_yaku(b6, Yaku::Tanyao), opt_yaku(b7, Yaku::Iipeikou));
    lemma_none_concat(opt_yaku(b0, Yaku::Riichi) + opt_yaku(b1, Yaku::DoubleRiichi) + opt_yaku(b2, Yaku::Ippatsu) + opt_yaku(b3, Yaku::Haitei) + opt_yaku(b4, Yaku::RinshanKaihou) + opt_yaku(b5, Yaku::Chankan) + opt_yaku(b6, Yaku::Tanyao) + opt_yaku(b7, Yaku::Iipeikou), opt_yaku(b8, Yaku::Ryanpeikou));
    lemma_none_concat(opt_yaku(b0, Yaku::Riichi) + opt_yaku(b1, Yaku::DoubleRiichi) + opt_yaku(b2, Yaku::Ippatsu) + opt_yaku(b3, Yaku::Haitei) + opt_yaku(b4, Yaku::RinshanKaihou) + opt_yaku(b5, Yaku::Chankan) + opt_yaku(b6, Yaku::Tanyao) + opt_yaku(b7, Yaku::Iipeikou) + opt_yaku(b8, Yaku::Ryanpeikou), opt_yaku(b9, Yaku::Toitoi));
    lemma_none_concat(opt_yaku(b0, Yaku::Riichi) + opt_yaku(b1, Yaku::DoubleRiichi) + opt_yaku(b2, Yaku::Ippatsu) + opt_yaku(b3, Yaku::Haitei) + opt_yaku(b4, Yaku::RinshanKaihou) + opt_yaku(b5, Yaku::Chankan) + opt_yaku(b6, Yaku::Tanyao) + opt_yaku(b7, Yaku::Iipeikou) + opt_yaku(b8, Yaku::Ryanpeikou) + opt_yaku(b9, Yaku::Toitoi), opt_yaku(b10, Yaku::SanshokuDoujun));
    lemma_none_concat(opt_yaku(b0, Yaku::Riichi) + opt_yaku(b1, Yaku::DoubleRiichi) + opt_yaku(b2, Yaku::Ippatsu) + opt_yaku(b3, Yaku::Haitei) + opt_yaku(b4, Yaku::RinshanKaihou) + opt_yaku(b5, Yaku::Chankan) + opt_yaku(b6, Yaku::Tanyao) + opt_yaku(b7, Yaku::Iipeikou) + opt_yaku(b8, Yaku::Ryanpeikou) + opt_yaku(b9, Yaku::Toitoi) + opt_yaku(b10, Yaku::SanshokuDoujun), opt_yaku(b11, Yaku::Sanankou));
}

proof fn lemma_second_terms(
    b0: bool,
    b1: bool,
    b2: bool,
    b3: bool,
    b4: bool,
    b5: bool,
    b6: bool,
    b7: bool,
    b8: bool,
    b9: bool,
    b10: bool,
    b11: bool,
)
    ensures
        !any_yakuman(opt_yaku(b0, Yaku::Honitsu) + opt_yaku(b1, Yaku::Shousangen) + opt_yaku(b2, Yaku::JunchanTaiyao) + opt_yaku(b3, Yaku::Honroutou) + opt_yaku(b4, Yaku::Sankantsu) + opt_yaku(b5, Yaku::Ittsuu) + opt_yaku(b6, Yaku::Chantaiyao) + opt_yaku(b7, Yaku::Chiitoitsu) + opt_yaku(b8, Yaku::MenzenTsumo) + opt_yaku(b9, Yaku::Pinfu) + opt_yaku(b10, Yaku::SanshokuDoukou) + opt_yaku(b11, Yaku::Chinitsu)),
{
    lemma_opt_yaku(b0, Yaku::Honitsu);
    lemma_opt_yaku(b1, Yaku::Shousangen);
    lemma_opt_yaku(b2, Yaku::JunchanTaiyao);
    lemma_opt_yaku(b3, Yaku::Honroutou);
    lemma_opt_yaku(b4, Yaku::Sankantsu);
    lemma_opt_yaku(b5, Yaku::Ittsuu);
    lemma_opt_yaku(b6, Yaku::Chantaiyao);
    lemma_opt_yaku(b7, Yaku::Chiitoitsu);
    lemma_opt_yaku(b8, Yaku::MenzenTsumo);
    lemma_opt_yaku(b9, Yaku::Pinfu);
    lemma_opt_yaku(b10, Yaku::SanshokuDoukou);
    lemma_opt_yaku(b11, Yaku::Chinitsu);
    lemma_none_concat(opt_yaku(b0, Yaku::Honitsu), opt_yaku(b1, Yaku::Shousangen));
    lemma_none_concat(opt_yaku(b0, Yaku::Honitsu) + opt_yaku(b1, Yaku::Shousangen), opt_yaku(b2, Yaku::JunchanTaiyao));
    lemma_none_concat(opt_yaku(b0, Yaku::Honitsu) + opt_yaku(b1, Yaku::Shousangen) + opt_yaku(b2, Yaku::JunchanTaiyao), opt_yaku(b3, Yaku::Honroutou));
    lemma_none_concat(opt_yaku(b0, Yaku::Honitsu) + opt_yaku(b1, Yaku::Shousangen) + opt_yaku(b2, Yaku::JunchanTaiyao) + opt_yaku(b3, Yaku::Honroutou), opt_yaku(b4, Yaku::Sankantsu));
    lemma_none_concat(opt_yaku(b0, Yaku::Honitsu) + opt_yaku(b1, Yaku::Shousangen) + opt_yaku(b2, Yaku::JunchanTaiyao) + opt_yaku(b3, Yaku::Honroutou) + opt_yaku(b4, Yaku::Sankantsu), opt_yaku(b5, Yaku::Ittsuu));
    lemma_none_concat(opt_yaku(b0, Yaku::Honitsu) + opt_yaku(b1, Yaku::Shousangen) + opt_yaku(b2, Yaku::JunchanTaiyao) + opt_yaku(b3, Yaku::Honroutou) + opt_yaku(b4, Yaku::Sankantsu) + opt_yaku(b5, Yaku::Ittsuu), opt_yaku(b6, Yaku::Chantaiyao));
    lemma_none_concat(opt_yaku(b0, Yaku::Honitsu) + opt_yaku(b1, Yaku::Shousangen) + opt_yaku(b2, Yaku::JunchanTaiyao) + opt_yaku(b3, Yaku::Honroutou) + opt_yaku(b4, Yaku::Sankantsu) + opt_yaku(b5, Yaku::Ittsuu) + opt_yaku(b6, Yaku::Chantaiyao), opt_yaku(b7, Yaku::Chiitoitsu));
    lemma_none_concat(opt_yaku(b0, Yaku::Honitsu) + opt_yaku(b1, Yaku::Shousangen) + opt_yaku(b2, Yaku::JunchanTaiyao) + opt_yaku(b3, Yaku::Honroutou) + opt_yaku(b4, Yaku::Sankantsu) + opt_yaku(b5, Yaku::Ittsuu) + opt_yaku(b6, Yaku::Chantaiyao) + opt_yaku(b7, Yaku::Chiitoitsu), opt_yaku(b8, Yaku::MenzenTsumo));
    lemma_none_concat(opt_yaku(b0, Yaku::Honitsu) + opt_yaku(b1, Yaku::Shousangen) + opt_yaku(b2, Yaku::JunchanTaiyao) + opt_yaku(b3, Yaku::Honroutou) + opt_yaku(b4, Yaku::Sankantsu) + opt_yaku(b5, Yaku::Ittsuu) + opt_yaku(b6, Yaku::Chantaiyao) + opt_yaku(b7, Yaku::Chiitoitsu) + opt_yaku(b8, Yaku::MenzenTsumo), opt_yaku(b9, Yaku::Pinfu));
    lemma_none_concat(opt_yaku(b0, Yaku::Honitsu) + opt_yaku(b1, Yaku::Shousangen) + opt_yaku(b2, Yaku::JunchanTaiyao) + opt_yaku(b3, Yaku::Honroutou) + opt_yaku(b4, Yaku::Sankantsu) + opt_yaku(b5, Yaku::Ittsuu) + opt_yaku(b6, Yaku::Chantaiyao) + opt_yaku(b7, Yaku::Chiitoitsu) + opt_yaku(b8, Yaku::MenzenTsumo) + opt_yaku(b9, Yaku::Pinfu), opt_yaku(b10, Yaku::SanshokuDoukou));
    lemma_none_concat(opt_yaku(b0, Yaku::Honitsu) + opt_yaku(b1, Yaku::Shousangen) + opt_yaku(b2, Yaku::JunchanTaiyao) + opt_yaku(b3, Yaku::Honroutou) + opt_yaku(b4, Yaku::Sankantsu) + opt_yaku(b5, Yaku::Ittsuu) + opt_yaku(b6, Yaku::Chantaiyao) + opt_yaku(b7, Yaku::Chiitoitsu) + opt_yaku(b8, Yaku::MenzenTsumo) + opt_yaku(b9, Yaku::Pinfu) + opt_yaku(b10, Yaku::SanshokuDoukou), opt_yaku(b11, Yaku::Chinitsu));
}

proof fn lemma_yakuman_list_all(h: HandView, tenhou: bool, tsumo: bool)
    ensures
        all_yakuman(spec_yakuman_list(h, tenhou, tsumo)),
{
    reveal(spec_yakuman_list);
    lemma_yakuman_terms(
        h.daisangen(),
        h.suuankou(tsumo),
        h.suuankoutankiwait(),
        h.chinroutou(),
        h.ryuuiisou(),
        h.chuurenpoutou(),
        h.chuurenpoutou9sided(),
        h.tsuuiisou(),
        h.daichiishin(),
        h.suukantsu(),
        h.shousuushii(),
        h.daisuushii(),
        h.kokushi(),
        h.kokushi13sided(),
        h.tenhou(tenhou),
        h.chiihou(tenhou),
    );
}

proof fn lemma_yaku_list_none(
    h: HandView,
    riichi: bool,
    doubleriichi: bool,
    ippatsu: bool,
    haitei: bool,
    rinshan: bool,
    chankan: bool,
    tsumo: bool,
)
    ensures
        !any_yakuman(spec_yaku_list(h, riichi, doubleriichi, ippatsu, haitei, rinshan, chankan, tsumo)),
{
    reveal(spec_yaku_first);
    reveal(spec_yaku_second);
    lemma_first_terms(
        riichi,
        doubleriichi,
        ippatsu,
        haitei,
        rinshan,
        chankan,
        h.tanyao(),
        h.iipeikou(),
        h.ryanpeikou(),
        h.toitoi(),
        h.sanshokudoujun(),
        h.sanankou(tsumo),
    );
    lemma_second_terms(
        h.honitsu(),
        h.shousangen(),
        h.junchantaiyao(),
        h.honroutou(),
        h.sankantsu(),
        h.ittsuu(),
        h.chantaiyao(),
        h.chiitoitsu(),
        h.menzentsumo(tsumo),
        h.pinfu(),
        h.sanshokudoukou(),
        h.chinitsu(),
    );
    let first = spec_yaku_first(h, riichi, doubleriichi, ippatsu, haitei, rinshan, chankan, tsumo);
    let second = spec_yaku_second(h, tsumo);
    let extra = Seq::new(h.yakuhai(), |i: int| Yaku::Yakuhai);
    lemma_none_concat(first, second);
    lemma_none_concat(first + second, extra);
}

proof fn lemma_count_all_yakuman(ys: Seq<Yaku>)
    requires
        all_yakuman(ys),
    ensures
        count_yakuman(ys) == ys.len(),
    decreases ys.len(),
{
    if ys.len() > 0 {
        assert(spec_is_yakuman(ys[ys.len() - 1]));
        lemma_count_all_yakuman(ys.drop_last());
    }
}

/// A hand's yaku are either all yakuman, each worth one han, or none is a yakuman and the
/// han are the sum of the han of the yaku, which depends on whether the hand is open.
pub proof fn law_yakuman_or_regular(
    h: HandView,
    riichi: bool,
    doubleriichi: bool,
    ippatsu: bool,
    haitei: bool,
    rinshan: bool,
    chankan: bool,
    tenhou: bool,
    tsumo: bool,
)
    ensures
        ({
            let (han, ys) = spec_get_yaku_han(
                h,
                riichi,
                doubleriichi,
                ippatsu,
                haitei,
                rinshan,
                chankan,
                tenhou,
                tsumo,
            );
            if any_yakuman(ys) {
                all_yakuman(ys) && han == ys.len() && han == count_yakuman(ys)
            } else {
                han == sum_han(ys, h.isopen)
            }
        }),
{
    reveal(spec_get_yaku_han);
    lemma_yakuman_list_all(h, tenhou, tsumo);
    lemma_yaku_list_none(h, riichi, doubleriichi, ippatsu, haitei, rinshan, chankan, tsumo);
    let ym = spec_yakuman_list(h, tenhou, tsumo);
    if ym.len() > 0 {
        lemma_count_all_yakuman(ym);
    }
}

/// A scored hand has at least one yaku; its han are those of its yaku plus its dora. A
/// yakuman hand is worth 8,000 base points for each of its yakuman; any other hand is
/// worth the limited base points of its han and total fu, never more than 8,000, which is
/// what the calculator gives for that han and fu. Seven
/// pairs count 25 fu before the rounding, and the total fu is a multiple of ten.
pub proof fn law_scored_hand(
    h: HandView,
    inds: Option<Seq<TileView>>,
    tsumo: bool,
    riichi: bool,
    doubleriichi: bool,
    ippatsu: bool,
    haitei: bool,
    rinshan: bool,
    chankan: bool,
    tenhou: bool,
    honba: nat,
)
    ensures
        spec_hand_score(
            h,
            inds,
            tsumo,
            riichi,
            doubleriichi,
            ippatsu,
            haitei,
            rinshan,
            chankan,
            tenhou,
            honba,
        ) matches Ok(sv) ==> {
            &&& sv.yaku.len() > 0
            &&& sv.han == spec_get_yaku_han(
                h,
                riichi,
                doubleriichi,
                ippatsu,
                haitei,
                rinshan,
                chankan,
                tenhou,
                tsumo,
            ).0 + sv.dora_count
            &&& sv.yaku == spec_get_yaku_han(
                h,
                riichi,
                doubleriichi,
                ippatsu,
                haitei,
                rinshan,
                chankan,
                tenhou,
                tsumo,
            ).1
            &&& sv.fu == spec_score_fu(h, sv.yaku, tsumo)
            &&& sv.fu_score == round_up_ten(sum_fu(sv.fu))
            &&& sv.dora_count == h.dora_count(inds)
            &&& sv.fu_score % 10 == 0
            &&& sv.honba == honba
            &&& sv.is_open == h.isopen
            &&& any_yakuman(sv.yaku) ==> sv.payment == 8000 * sv.yaku.len()
                && spec_calculate_yakuman(sv.yaku) == Ok::<nat, HandErr>(sv.payment)
            &&& !any_yakuman(sv.yaku) ==> sv.payment == spec_limit_base(sv.han, sv.fu_score)
                && sv.payment <= 8000 && spec_calculate(sv.han, sv.fu_score) == Ok::<
                nat,
                HandErr,
            >(sv.payment)
            &&& (!any_yakuman(sv.yaku) && sv.yaku.contains(Yaku::Chiitoitsu)) ==> sv.fu == seq![
                Fu::BasePointsChitoi,
            ]
        },
{
    let (han, ys) = spec_get_yaku_han(
        h,
        riichi,
        doubleriichi,
        ippatsu,
        haitei,
        rinshan,
        chankan,
        tenhou,
        tsumo,
    );
    law_yakuman_or_regular(h, riichi, doubleriichi, ippatsu, haitei, rinshan, chankan, tenhou, tsumo);
    if han > 0 && ys.len() == 0 {
        reveal(spec_get_yaku_han);
        assert(spec_yakuman_list(h, tenhou, tsumo).len() == 0);
        assert(sum_han(ys, h.isopen) == 0);
    }
    let fu = crate::calc::spec_score_fu(h, ys, tsumo);
    law_total_fu_rounds_up(crate::fu::sum_fu(fu));
    law_calculate_outcome(han + h.dora_count(inds), round_up_ten(crate::fu::sum_fu(fu)));
}

/// Some yaku are stronger forms of others: seven honor pairs imply all honors, the
/// nine-sided wait implies nine gates, the thirteen-sided wait implies thirteen
/// orphans, the single-wait four concealed triplets imply four concealed triplets. Two
/// identical sequences never count beside two sets of them, nor little four winds beside
/// big four winds; a first-turn win is heavenly
/// for the dealer and earthly for the others; a concealed self-draw needs a closed hand.
pub proof fn law_yaku_implications(h: HandView, tsumo: bool, tenhou: bool)
    ensures
        h.daichiishin() ==> h.tsuuiisou(),
        h.chuurenpoutou9sided() ==> h.chuurenpoutou(),
        h.kokushi13sided() ==> h.kokushi(),
        h.suuankoutankiwait() ==> h.suuankou(tsumo),
        !(h.iipeikou() && h.ryanpeikou()),
        !(h.shousuushii() && h.daisuushii()),
        tenhou ==> (h.tenhou(tenhou) != h.chiihou(tenhou)),
        !tenhou ==> (!h.tenhou(tenhou) && !h.chiihou(tenhou)),
        h.menzentsumo(tsumo) ==> !h.isopen && tsumo,
{
}

/// The number of tiles of a group read from its notation is the number of tile
/// characters written: all but the suit letter and the open marker.
pub proof fn law_group_tile_count(s: Seq<char>)
    ensures
        spec_try_from(s) matches Ok(t) ==> spec_tile_count(t.group_type) == shape_len(s),
{
}

/// The tile after a numbered tile is the next number, and after a 9 comes a 1.
pub proof fn law_next_number(t: TileView, c: char)
    requires
        t.suit == Suit::Manzu || t.suit == Suit::Pinzu || t.suit == Suit::Souzu,
        t.value == seq![c],
        '1' <= c <= '9',
    ensures
        spec_next_tile(t) matches Ok(n) && n.suit == t.suit && n.value == if c == '9' {
            seq!['1']
        } else {
            seq![((c as u32) + 1) as char]
        },
{
    lemma_parse_single(c);
    let n: nat = (c as int - '0' as int + 1) as nat;
    if c != '9' {
        assert(n < 10);
        assert(crate::chars::decimal(n) == seq![crate::chars::digit_char(n as int)]);
        assert(crate::chars::digit_char(n as int) == ((c as u32) + 1) as char);
    }
}

/// The winds follow one another east, south, west, north and back to east; the dragons
/// white, green, red and back to white.
pub proof fn law_honor_cycles(t: TileView)
    requires
        t.suit == Suit::Wind || t.suit == Suit::Dragon,
        spec_next_tile(t) is Ok,
    ensures
        t.suit == Suit::Wind ==> (spec_next_tile(
            spec_next_tile(spec_next_tile(spec_next_tile(t).unwrap()).unwrap()).unwrap(),
        ) matches Ok(n) && n.value == t.value),
        t.suit == Suit::Dragon ==> (spec_next_tile(
            spec_next_tile(spec_next_tile(t).unwrap()).unwrap(),
        ) matches Ok(n) && n.value == t.value),
{
}

proof fn lemma_sum_fu_ge(fs: Seq<Fu>, i: int)
    requires
        0 <= i < fs.len(),
    ensures
        sum_fu(fs) >= crate::fu::spec_fu_value(fs[i]),
    decreases fs.len(),
{
    if i < fs.len() - 1 {
        lemma_sum_fu_ge(fs.drop_last(), i);
    }
}

proof fn lemma_first_of_concat(a: Seq<Fu>, b: Seq<Fu>)
    requires
        a.len() > 0,
    ensures
        (a + b).len() > 0,
        (a + b)[0] == a[0],
{
}

/// The minipoints of a hand start with the base points.
proof fn lemma_fu_first(h: HandView, tsumo: bool)
    ensures
        h.fu(tsumo).len() > 0,
        h.fu(tsumo)[0] == Fu::BasePoints,
{
    let base = seq![Fu::BasePoints];
    let t = if tsumo {
        seq![Fu::Tsumo]
    } else {
        Seq::empty()
    };
    let c = if !h.isopen {
        seq![Fu::ClosedRon]
    } else {
        Seq::empty()
    };
    let x1 = base + t;
    lemma_first_of_concat(base, t);
    let x2 = x1 + c;
    lemma_first_of_concat(x1, c);
    let x3 = x2 + crate::hand::model::triplets_fu(h.triplets(), h.last(), tsumo);
    lemma_first_of_concat(x2, crate::hand::model::triplets_fu(h.triplets(), h.last(), tsumo));
    let x4 = x3 + crate::hand::model::kans_fu(h.kans());
    lemma_first_of_concat(x3, crate::hand::model::kans_fu(h.kans()));
    let x5 = x4 + crate::hand::model::pairs_fu(h.pairs(), h.seat, h.prev);
    lemma_first_of_concat(x4, crate::hand::model::pairs_fu(h.pairs(), h.seat, h.prev));
    lemma_first_of_concat(x5, crate::hand::model::wait_fu(h.last(), h.win));
    assert(h.fu(tsumo) == x5 + crate::hand::model::wait_fu(h.last(), h.win));
}

proof fn lemma_score_fu_positive(h: HandView, ys: Seq<Yaku>, tsumo: bool)
    ensures
        sum_fu(spec_score_fu(h, ys, tsumo)) >= 20,
{
    let fu = spec_score_fu(h, ys, tsumo);
    if !ys.contains(Yaku::Chiitoitsu) && !ys.contains(Yaku::Pinfu) {
        lemma_fu_first(h, tsumo);
    }
    assert(fu.len() > 0 && crate::fu::spec_fu_value(fu[0]) >= 20);
    lemma_sum_fu_ge(fu, 0);
}

/// The number of times a yaku occurs in a list.
pub open spec fn occurrences(ys: Seq<Yaku>, y: Yaku) -> nat
    decreases ys.len(),
{
    if ys.len() == 0 {
        0
    } else {
        occurrences(ys.drop_last(), y) + if ys.last() == y {
            1nat
        } else {
            0nat
        }
    }
}

proof fn lemma_occ_concat(a: Seq<Yaku>, b: Seq<Yaku>, y: Yaku)
    ensures
        occurrences(a + b, y) == occurrences(a, y) + occurrences(b, y),
    decreases b.len(),
{
    if b.len() == 0 {
        assert(a + b =~= a);
    } else {
        assert((a + b).drop_last() =~= a + b.drop_last());
        assert((a + b).last() == b.last());
        lemma_occ_concat(a, b.drop_last(), y);
    }
}

proof fn lemma_occ_opt(b: bool, z: Yaku, y: Yaku)
    ensures
        occurrences(opt_yaku(b, z), y) == if b && z == y {
            1nat
        } else {
            0nat
        },
{
    assert(occurrences(Seq::<Yaku>::empty(), y) == 0);
    if b {
        assert(opt_yaku(b, z).drop_last() =~= Seq::<Yaku>::empty());
        assert(opt_yaku(b, z).last() == z);
    }
}

proof fn lemma_occ_repeat(n: nat, y: Yaku)
    ensures
        occurrences(Seq::new(n, |i: int| Yaku::Yakuhai), y) == if y == Yaku::Yakuhai {
            n
        } else {
            0
        },
    decreases n,
{
    if n > 0 {
        assert(Seq::new(n, |i: int| Yaku::Yakuhai).drop_last() =~= Seq::new(
            (n - 1) as nat,
            |i: int| Yaku::Yakuhai,
        ));
        lemma_occ_repeat((n - 1) as nat, y);
    }
}

proof fn lemma_occ_contains(ys: Seq<Yaku>, y: Yaku)
    ensures
        ys.contains(y) <==> occurrences(ys, y) > 0,
    decreases ys.len(),
{
    if ys.len() > 0 {
        lemma_occ_contains(ys.drop_last(), y);
        if ys.drop_last().contains(y) {
            let i = choose|i: int| 0 <= i < ys.drop_last().len() && ys.drop_last()[i] == y;
            assert(ys[i] == y);
        }
        if ys.contains(y) && ys.last() != y {
            let i = choose|i: int| 0 <= i < ys.len() && ys[i] == y;
            assert(ys.drop_last()[i] == y);
        }
    }
}

proof fn lemma_first_occ(
    b0: bool,
    b1: bool,
    b2: bool,
    b3: bool,
    b4: bool,
    b5: bool,
    b6: bool,
    b7: bool,
    b8: bool,
    b9: bool,
    b10: bool,
    b11: bool,
)
    ensures
        occurrences(opt_yaku(b0, Yaku::Riichi) + opt_yaku(b1, Yaku::DoubleRiichi) + opt_yaku(b2, Yaku::Ippatsu) + opt_yaku(b3, Yaku::Haitei) + opt_yaku(b4, Yaku::RinshanKaihou) + opt_yaku(b5, Yaku::Chankan) + opt_yaku(b6, Yaku::Tanyao) + opt_yaku(b7, Yaku::Iipeikou) + opt_yaku(b8, Yaku::Ryanpeikou) + opt_yaku(b9, Yaku::Toitoi) + opt_yaku(b10, Yaku::SanshokuDoujun) + opt_yaku(b11, Yaku::Sanankou), Yaku::Yakuhai) == 0,
        occurrences(opt_yaku(b0, Yaku::Riichi) + opt_yaku(b1, Yaku::DoubleRiichi) + opt_yaku(b2, Yaku::Ippatsu) + opt_yaku(b3, Yaku::Haitei) + opt_yaku(b4, Yaku::RinshanKaihou) + opt_yaku(b5, Yaku::Chankan) + opt_yaku(b6, Yaku::Tanyao) + opt_yaku(b7, Yaku::Iipeikou) + opt_yaku(b8, Yaku::Ryanpeikou) + opt_yaku(b9, Yaku::Toitoi) + opt_yaku(b10, Yaku::SanshokuDoujun) + opt_yaku(b11, Yaku::Sanankou), Yaku::Riichi) == if b0 && Yaku::Riichi == Yaku::Riichi { 1nat } else { 0nat },
{
    lemma_occ_opt(b0, Yaku::Riichi, Yaku::Yakuhai);
    lemma_occ_opt(b0, Yaku::Riichi, Yaku::Riichi);
    lemma_occ_opt(b1, Yaku::DoubleRiichi, Yaku::Yakuhai);
    lemma_occ_opt(b1, Yaku::DoubleRiichi, Yaku::Riichi);
    lemma_occ_opt(b2, Yaku::Ippatsu, Yaku::Yakuhai);
    lemma_occ_opt(b2, Yaku::Ippatsu, Yaku::Riichi);
    lemma_occ_opt(b3, Yaku::Haitei, Yaku::Yakuhai);
    lemma_occ_opt(b3, Yaku::Haitei, Yaku::Riichi);
    lemma_occ_opt(b4, Yaku::RinshanKaihou, Yaku::Yakuhai);
    lemma_occ_opt(b4, Yaku::RinshanKaihou, Yaku::Riichi);
    lemma_occ_opt(b5, Yaku::Chankan, Yaku::Yakuhai);
    lemma_occ_opt(b5, Yaku::Chankan, Yaku::Riichi);
    lemma_occ_opt(b6, Yaku::Tanyao, Yaku::Yakuhai);
    lemma_occ_opt(b6, Yaku::Tanyao, Yaku::Riichi);
    lemma_occ_opt(b7, Yaku::Iipeikou, Yaku::Yakuhai);
    lemma_occ_opt(b7, Yaku::Iipeikou, Yaku::Riichi);
    lemma_occ_opt(b8, Yaku::Ryanpeikou, Yaku::Yakuhai);
    lemma_occ_opt(b8, Yaku::Ryanpeikou, Yaku::Riichi);
    lemma_occ_opt(b9, Yaku::Toitoi, Yaku::Yakuhai);
    lemma_occ_opt(b9, Yaku::Toitoi, Yaku::Riichi);
    lemma_occ_opt(b10, Yaku::SanshokuDoujun, Yaku::Yakuhai);
    lemma_occ_opt(b10, Yaku::SanshokuDoujun, Yaku::Riichi);
    lemma_occ_opt(b11, Yaku::Sanankou, Yaku::Yakuhai);
    lemma_occ_opt(b11, Yaku::Sanankou, Yaku::Riichi);
    lemma_occ_concat(opt_yaku(b0, Yaku::Riichi), opt_yaku(b1, Yaku::DoubleRiichi), Yaku::Yakuhai);
    lemma_occ_concat(opt_yaku(b0, Yaku::Riichi), opt_yaku(b1, Yaku::DoubleRiichi), Yaku::Riichi);
    lemma_occ_concat(opt_yaku(b0, Yaku::Riichi) + opt_yaku(b1, Yaku::DoubleRiichi), opt_yaku(b2, Yaku::Ippatsu), Yaku::Yakuhai);
    lemma_occ_concat(opt_yaku(b0, Yaku::Riichi) + opt_yaku(b1, Yaku::DoubleRiichi), opt_yaku(b2, Yaku::Ippatsu), Yaku::Riichi);
    lemma_occ_concat(opt_yaku(b0, Yaku::Riichi) + opt_yaku(b1, Yaku::DoubleRiichi) + opt_yaku(b2, Yaku::Ippatsu), opt_yaku(b3, Yaku::Haitei), Yaku::Yakuhai);
    lemma_occ_concat(opt_yaku(b0, Yaku::Riichi) + opt_yaku(b1, Yaku::DoubleRiichi) + opt_yaku(b2, Yaku::Ippatsu), opt_yaku(b3, Yaku::Haitei), Yaku::Riichi);
    lemma_occ_concat(opt_yaku(b0, Yaku::Riichi) + opt_yaku(b1, Yaku::DoubleRiichi) + opt_yaku(b2, Yaku::Ippatsu) + opt_yaku(b3, Yaku::Haitei), opt_yaku(b4, Yaku::RinshanKaihou), Yaku::Yakuhai);
    lemma_occ_concat(opt_yaku(b0, Yaku::Riichi) + opt_yaku(b1, Yaku::DoubleRiichi) + opt_yaku(b2, Yaku::Ippatsu) + opt_yaku(b3, Yaku::Haitei), opt_yaku(b4, Yaku::RinshanKaihou), Yaku::Riichi);
    lemma_occ_concat(opt_yaku(b0, Yaku::Riichi) + opt_yaku(b1, Yaku::DoubleRiichi) + opt_yaku(b2, Yaku::Ippatsu) + opt_yaku(b3, Yaku::Haitei) + opt_yaku(b4, Yaku::RinshanKaihou), opt_yaku(b5, Yaku::Chankan), Yaku::Yakuhai);
    lemma_occ_concat(opt_yaku(b0, Yaku::Riichi) + opt_yaku(b1, Yaku::DoubleRiichi) + opt_yaku(b2, Yaku::Ippatsu) + opt_yaku(b3, Yaku::Haitei) + opt_yaku(b4, Yaku::RinshanKaihou), opt_yaku(b5, Yaku::Chankan), Yaku::Riichi);
    lemma_occ_concat(opt_yaku(b0, Yaku::Riichi) + opt_yaku(b1, Yaku::DoubleRiichi) + opt_yaku(b2, Yaku::Ippatsu) + opt_yaku(b3, Yaku::Haitei) + opt_yaku(b4, Yaku::RinshanKaihou) + opt_yaku(b5, Yaku::Chankan), opt_yaku(b6, Yaku::Tanyao), Yaku::Yakuhai);
    lemma_occ_concat(opt_yaku(b0, Yaku::Riichi) + opt_yaku(b1, Yaku::DoubleRiichi) + opt_yaku(b2, Yaku::Ippatsu) + opt_yaku(b3, Yaku::Haitei) + opt_yaku(b4, Yaku::RinshanKaihou) + opt_yaku(b5, Yaku::Chankan), opt_yaku(b6, Yaku::Tanyao), Yaku::Riichi);
    lemma_occ_concat(opt_yaku(b0, Yaku::Riichi) + opt_yaku(b1, Yaku::DoubleRiichi) + opt_yaku(b2, Yaku::Ippatsu) + opt_yaku(b3, Yaku::Haitei) + opt_yaku(b4, Yaku::RinshanKaihou) + opt_yaku(b5, Yaku::Chankan) + opt_yaku(b6, Yaku::Tanyao), opt_yaku(b7, Yaku::Iipeikou), Yaku::Yakuhai);
    lemma_occ_concat(opt_yaku(b0, Yaku::Riichi) + opt_yaku(b1, Yaku::DoubleRiichi) + opt_yaku(b2, Yaku::Ippatsu) + opt_yaku(b3, Yaku::Haitei) + opt_yaku(b4, Yaku::RinshanKaihou) + opt_yaku(b5, Yaku::Chankan) + opt_yaku(b6, Yaku::Tanyao), opt_yaku(b7, Yaku::Iipeikou), Yaku::Riichi);
    lemma_occ_concat(opt_yaku(b0, Yaku::Riichi) + opt_yaku(b1, Yaku::DoubleRiichi) + opt_yaku(b2, Yaku::Ippatsu) + opt_yaku(b3, Yaku::Haitei) + opt_yaku(b4, Yaku::RinshanKaihou) + opt_yaku(b5, Yaku::Chankan) + opt_yaku(b6, Yaku::Tanyao) + opt_yaku(b7, Yaku::Iipeikou), opt_yaku(b8, Yaku::Ryanpeikou), Yaku::Yakuhai);
    lemma_occ_concat(opt_yaku(b0, Yaku::Riichi) + opt_yaku(b1, Yaku::DoubleRiichi) + opt_yaku(b2, Yaku::Ippatsu) + opt_yaku(b3, Yaku::Haitei) + opt_yaku(b4, Yaku::RinshanKaihou) + opt_yaku(b5, Yaku::Chankan) + opt_yaku(b6, Yaku::Tanyao) + opt_yaku(b7, Yaku::Iipeikou), opt_yaku(b8, Yaku::Ryanpeikou), Yaku::Riichi);
    lemma_occ_concat(opt_yaku(b0, Yaku::Riichi) + opt_yaku(b1, Yaku::DoubleRiichi) + opt_yaku(b2, Yaku::Ippatsu) + opt_yaku(b3, Yaku::Haitei) + opt_yaku(b4, Yaku::RinshanKaihou) + opt_yaku(b5, Yaku::Chankan) + opt_yaku(b6, Yaku::Tanyao) + opt_yaku(b7, Yaku::Iipeikou) + opt_yaku(b8, Yaku::Ryanpeikou), opt_yaku(b9, Yaku::Toitoi), Yaku::Yakuhai);
    lemma_occ_concat(opt_yaku(b0, Yaku::Riichi) + opt_yaku(b1, Yaku::DoubleRiichi) + opt_yaku(b2, Yaku::Ippatsu) + opt_yaku(b3, Yaku::Haitei) + opt_yaku(b4, Yaku::RinshanKaihou) + opt_yaku(b5, Yaku::Chankan) + opt_yaku(b6, Yaku::Tanyao) + opt_yaku(b7, Yaku::Iipeikou) + opt_yaku(b8, Yaku::Ryanpeikou), opt_yaku(b9, Yaku::Toitoi), Yaku::Riichi);
    lemma_occ_concat(opt_yaku(b0, Yaku::Riichi) + opt_yaku(b1, Yaku::DoubleRiichi) + opt_yaku(b2, Yaku::Ippatsu) + opt_yaku(b3, Yaku::Haitei) + opt_yaku(b4, Yaku::RinshanKaihou) + opt_yaku(b5, Yaku::Chankan) + opt_yaku(b6, Yaku::Tanyao) + opt_yaku(b7, Yaku::Iipeikou) + opt_yaku(b8, Yaku::Ryanpeikou) + opt_yaku(b9, Yaku::Toitoi), opt_yaku(b10, Yaku::SanshokuDoujun), Yaku::Yakuhai);
    lemma_occ_concat(opt_yaku(b0, Yaku::Riichi) + opt_yaku(b1, Yaku::DoubleRiichi) + opt_yaku(b2, Yaku::Ippatsu) + opt_yaku(b3, Yaku::Haitei) + opt_yaku(b4, Yaku::RinshanKaihou) + opt_yaku(b5, Yaku::Chankan) + opt_yaku(b6, Yaku::Tanyao) + opt_yaku(b7, Yaku::Iipeikou) + opt_yaku(b8, Yaku::Ryanpeikou) + opt_yaku(b9, Yaku::Toitoi), opt_yaku(b10, Yaku::SanshokuDoujun), Yaku::Riichi);
    lemma_occ_concat(opt_yaku(b0, Yaku::Riichi) + opt_yaku(b1, Yaku::DoubleRiichi) + opt_yaku(b2, Yaku::Ippatsu) + opt_yaku(b3, Yaku::Haitei) + opt_yaku(b4, Yaku::RinshanKaihou) + opt_yaku(b5, Yaku::Chankan) + opt_yaku(b6, Yaku::Tanyao) + opt_yaku(b7, Yaku::Iipeikou) + opt_yaku(b8, Yaku::Ryanpeikou) + opt_yaku(b9, Yaku::Toitoi) + opt_yaku(b10, Yaku::SanshokuDoujun), opt_yaku(b11, Yaku::Sanankou), Yaku::Yakuhai);
    lemma_occ_concat(opt_yaku(b0, Yaku::Riichi) + opt_yaku(b1, Yaku::DoubleRiichi) + opt_yaku(b2, Yaku::Ippatsu) + opt_yaku(b3, Yaku::Haitei) + opt_yaku(b4, Yaku::RinshanKaihou) + opt_yaku(b5, Yaku::Chankan) + opt_yaku(b6, Yaku::Tanyao) + opt_yaku(b7, Yaku::Iipeikou) + opt_yaku(b8, Yaku::Ryanpeikou) + opt_yaku(b9, Yaku::Toitoi) + opt_yaku(b10, Yaku::SanshokuDoujun), opt_yaku(b11, Yaku::Sanankou), Yaku::Riichi);
}

proof fn lemma_second_occ(
    b0: bool,
    b1: bool,
    b2: bool,
    b3: bool,
    b4: bool,
    b5: bool,
    b6: bool,
    b7: bool,
    b8: bool,
    b9: bool,
    b10: bool,
    b11: bool,
)
    ensures
        occurrences(opt_yaku(b0, Yaku::Honitsu) + opt_yaku(b1, Yaku::Shousangen) + opt_yaku(b2, Yaku::JunchanTaiyao) + opt_yaku(b3, Yaku::Honroutou) + opt_yaku(b4, Yaku::Sankantsu) + opt_yaku(b5, Yaku::Ittsuu) + opt_yaku(b6, Yaku::Chantaiyao) + opt_yaku(b7, Yaku::Chiitoitsu) + opt_yaku(b8, Yaku::MenzenTsumo) + opt_yaku(b9, Yaku::Pinfu) + opt_yaku(b10, Yaku::SanshokuDoukou) + opt_yaku(b11, Yaku::Chinitsu), Yaku::Yakuhai) == 0,
        occurrences(opt_yaku(b0, Yaku::Honitsu) + opt_yaku(b1, Yaku::Shousangen) + opt_yaku(b2, Yaku::JunchanTaiyao) + opt_yaku(b3, Yaku::Honroutou) + opt_yaku(b4, Yaku::Sankantsu) + opt_yaku(b5, Yaku::Ittsuu) + opt_yaku(b6, Yaku::Chantaiyao) + opt_yaku(b7, Yaku::Chiitoitsu) + opt_yaku(b8, Yaku::MenzenTsumo) + opt_yaku(b9, Yaku::Pinfu) + opt_yaku(b10, Yaku::SanshokuDoukou) + opt_yaku(b11, Yaku::Chinitsu), Yaku::Riichi) == if b0 && Yaku::Honitsu == Yaku::Riichi { 1nat } else { 0nat },
{
    lemma_occ_opt(b0, Yaku::Honitsu, Yaku::Yakuhai);
    lemma_occ_opt(b0, Yaku::Honitsu, Yaku::Riichi);
    lemma_occ_opt(b1, Yaku::Shousangen, Yaku::Yakuhai);
    lemma_occ_opt(b1, Yaku::Shousangen, Yaku::Riichi);
    lemma_occ_opt(b2, Yaku::JunchanTaiyao, Yaku::Yakuhai);
    lemma_occ_opt(b2, Yaku::JunchanTaiyao, Yaku::Riichi);
    lemma_occ_opt(b3, Yaku::Honroutou, Yaku::Yakuhai);
    lemma_occ_opt(b3, Yaku::Honroutou, Yaku::Riichi);
    lemma_occ_opt(b4, Yaku::Sankantsu, Yaku::Yakuhai);
    lemma_occ_opt(b4, Yaku::Sankantsu, Yaku::Riichi);
    lemma_occ_opt(b5, Yaku::Ittsuu, Yaku::Yakuhai);
    lemma_occ_opt(b5, Yaku::Ittsuu, Yaku::Riichi);
    lemma_occ_opt(b6, Yaku::Chantaiyao, Yaku::Yakuhai);
    lemma_occ_opt(b6, Yaku::Chantaiyao, Yaku::Riichi);
    lemma_occ_opt(b7, Yaku::Chiitoitsu, Yaku::Yakuhai);
    lemma_occ_opt(b7, Yaku::Chiitoitsu, Yaku::Riichi);
    lemma_occ_opt(b8, Yaku::MenzenTsumo, Yaku::Yakuhai);
    lemma_occ_opt(b8, Yaku::MenzenTsumo, Yaku::Riichi);
    lemma_occ_opt(b9, Yaku::Pinfu, Yaku::Yakuhai);
    lemma_occ_opt(b9, Yaku::Pinfu, Yaku::Riichi);
    lemma_occ_opt(b10, Yaku::SanshokuDoukou, Yaku::Yakuhai);
    lemma_occ_opt(b10, Yaku::SanshokuDoukou, Yaku::Riichi);
    lemma_occ_opt(b11, Yaku::Chinitsu, Yaku::Yakuhai);
    lemma_occ_opt(b11, Yaku::Chinitsu, Yaku::Riichi);
    lemma_occ_concat(opt_yaku(b0, Yaku::Honitsu), opt_yaku(b1, Yaku::Shousangen), Yaku::Yakuhai);
    lemma_occ_concat(opt_yaku(b0, Yaku::Honitsu), opt_yaku(b1, Yaku::Shousangen), Yaku::Riichi);
    lemma_occ_concat(opt_yaku(b0, Yaku::Honitsu) + opt_yaku(b1, Yaku::Shousangen), opt_yaku(b2, Yaku::JunchanTaiyao), Yaku::Yakuhai);
    lemma_occ_concat(opt_yaku(b0, Yaku::Honitsu) + opt_yaku(b1, Yaku::Shousangen), opt_yaku(b2, Yaku::JunchanTaiyao), Yaku::Riichi);
    lemma_occ_concat(opt_yaku(b0, Yaku::Honitsu) + opt_yaku(b1, Yaku::Shousangen) + opt_yaku(b2, Yaku::JunchanTaiyao), opt_yaku(b3, Yaku::Honroutou), Yaku::Yakuhai);
    lemma_occ_concat(opt_yaku(b0, Yaku::Honitsu) + opt_yaku(b1, Yaku::Shousangen) + opt_yaku(b2, Yaku::JunchanTaiyao), opt_yaku(b3, Yaku::Honroutou), Yaku::Riichi);
    lemma_occ_concat(opt_yaku(b0, Yaku::Honitsu) + opt_yaku(b1, Yaku::Shousangen) + opt_yaku(b2, Yaku::JunchanTaiyao) + opt_yaku(b3, Yaku::Honroutou), opt_yaku(b4, Yaku::Sankantsu), Yaku::Yakuhai);
    lemma_occ_concat(opt_yaku(b0, Yaku::Honitsu) + opt_yaku(b1, Yaku::Shousangen) + opt_yaku(b2, Yaku::JunchanTaiyao) + opt_yaku(b3, Yaku::Honroutou), opt_yaku(b4, Yaku::Sankantsu), Yaku::Riichi);
    lemma_occ_concat(opt_yaku(b0, Yaku::Honitsu) + opt_yaku(b1, Yaku::Shousangen) + opt_yaku(b2, Yaku::JunchanTaiyao) + opt_yaku(b3, Yaku::Honroutou) + opt_yaku(b4, Yaku::Sankantsu), opt_yaku(b5, Yaku::Ittsuu), Yaku::Yakuhai);
    lemma_occ_concat(opt_yaku(b0, Yaku::Honitsu) + opt_yaku(b1, Yaku::Shousangen) + opt_yaku(b2, Yaku::JunchanTaiyao) + opt_yaku(b3, Yaku::Honroutou) + opt_yaku(b4, Yaku::Sankantsu), opt_yaku(b5, Yaku::Ittsuu), Yaku::Riichi);
    lemma_occ_concat(opt_yaku(b0, Yaku::Honitsu) + opt_yaku(b1, Yaku::Shousangen) + opt_yaku(b2, Yaku::JunchanTaiyao) + opt_yaku(b3, Yaku::Honroutou) + opt_yaku(b4, Yaku::Sankantsu) + opt_yaku(b5, Yaku::Ittsuu), opt_yaku(b6, Yaku::Chantaiyao), Yaku::Yakuhai);
    lemma_occ_concat(opt_yaku(b0, Yaku::Honitsu) + opt_yaku(b1, Yaku::Shousangen) + opt_yaku(b2, Yaku::JunchanTaiyao) + opt_yaku(b3, Yaku::Honroutou) + opt_yaku(b4, Yaku::Sankantsu) + opt_yaku(b5, Yaku::Ittsuu), opt_yaku(b6, Yaku::Chantaiyao), Yaku::Riichi);
    lemma_occ_concat(opt_yaku(b0, Yaku::Honitsu) + opt_yaku(b1, Yaku::Shousangen) + opt_yaku(b2, Yaku::JunchanTaiyao) + opt_yaku(b3, Yaku::Honroutou) + opt_yaku(b4, Yaku::Sankantsu) + opt_yaku(b5, Yaku::Ittsuu) + opt_yaku(b6, Yaku::Chantaiyao), opt_yaku(b7, Yaku::Chiitoitsu), Yaku::Yakuhai);
    lemma_occ_concat(opt_yaku(b0, Yaku::Honitsu) + opt_yaku(b1, Yaku::Shousangen) + opt_yaku(b2, Yaku::JunchanTaiyao) + opt_yaku(b3, Yaku::Honroutou) + opt_yaku(b4, Yaku::Sankantsu) + opt_yaku(b5, Yaku::Ittsuu) + opt_yaku(b6, Yaku::Chantaiyao), opt_yaku(b7, Yaku::Chiitoitsu), Yaku::Riichi);
    lemma_occ_concat(opt_yaku(b0, Yaku::Honitsu) + opt_yaku(b1, Yaku::Shousangen) + opt_yaku(b2, Yaku::JunchanTaiyao) + opt_yaku(b3, Yaku::Honroutou) + opt_yaku(b4, Yaku::Sankantsu) + opt_yaku(b5, Yaku::Ittsuu) + opt_yaku(b6, Yaku::Chantaiyao) + opt_yaku(b7, Yaku::Chiitoitsu), opt_yaku(b8, Yaku::MenzenTsumo), Yaku::Yakuhai);
    lemma_occ_concat(opt_yaku(b0, Yaku::Honitsu) + opt_yaku(b1, Yaku::Shousangen) + opt_yaku(b2, Yaku::JunchanTaiyao) + opt_yaku(b3, Yaku::Honroutou) + opt_yaku(b4, Yaku::Sankantsu) + opt_yaku(b5, Yaku::Ittsuu) + opt_yaku(b6, Yaku::Chantaiyao) + opt_yaku(b7, Yaku::Chiitoitsu), opt_yaku(b8, Yaku::MenzenTsumo), Yaku::Riichi);
    lemma_occ_concat(opt_yaku(b0, Yaku::Honitsu) + opt_yaku(b1, Yaku::Shousangen) + opt_yaku(b2, Yaku::JunchanTaiyao) + opt_yaku(b3, Yaku::Honroutou) + opt_yaku(b4, Yaku::Sankantsu) + opt_yaku(b5, Yaku::Ittsuu) + opt_yaku(b6, Yaku::Chantaiyao) + opt_yaku(b7, Yaku::Chiitoitsu) + opt_yaku(b8, Yaku::MenzenTsumo), opt_yaku(b9, Yaku::Pinfu), Yaku::Yakuhai);
    lemma_occ_concat(opt_yaku(b0, Yaku::Honitsu) + opt_yaku(b1, Yaku::Shousangen) + opt_yaku(b2, Yaku::JunchanTaiyao) + opt_yaku(b3, Yaku::Honroutou) + opt_yaku(b4, Yaku::Sankantsu) + opt_yaku(b5, Yaku::Ittsuu) + opt_yaku(b6, Yaku::Chantaiyao) + opt_yaku(b7, Yaku::Chiitoitsu) + opt_yaku(b8, Yaku::MenzenTsumo), opt_yaku(b9, Yaku::Pinfu), Yaku::Riichi);
    lemma_occ_concat(opt_yaku(b0, Yaku::Honitsu) + opt_yaku(b1, Yaku::Shousangen) + opt_yaku(b2, Yaku::JunchanTaiyao) + opt_yaku(b3, Yaku::Honroutou) + opt_yaku(b4, Yaku::Sankantsu) + opt_yaku(b5, Yaku::Ittsuu) + opt_yaku(b6, Yaku::Chantaiyao) + opt_yaku(b7, Yaku::Chiitoitsu) + opt_yaku(b8, Yaku::MenzenTsumo) + opt_yaku(b9, Yaku::Pinfu), opt_yaku(b10, Yaku::SanshokuDoukou), Yaku::Yakuhai);
    lemma_occ_concat(opt_yaku(b0, Yaku::Honitsu) + opt_yaku(b1, Yaku::Shousangen) + opt_yaku(b2, Yaku::JunchanTaiyao) + opt_yaku(b3, Yaku::Honroutou) + opt_yaku(b4, Yaku::Sankantsu) + opt_yaku(b5, Yaku::Ittsuu) + opt_yaku(b6, Yaku::Chantaiyao) + opt_yaku(b7, Yaku::Chiitoitsu) + opt_yaku(b8, Yaku::MenzenTsumo) + opt_yaku(b9, Yaku::Pinfu), opt_yaku(b10, Yaku::SanshokuDoukou), Yaku::Riichi);
    lemma_occ_concat(opt_yaku(b0, Yaku::Honitsu) + opt_yaku(b1, Yaku::Shousangen) + opt_yaku(b2, Yaku::JunchanTaiyao) + opt_yaku(b3, Yaku::Honroutou) + opt_yaku(b4, Yaku::Sankantsu) + opt_yaku(b5, Yaku::Ittsuu) + opt_yaku(b6, Yaku::Chantaiyao) + opt_yaku(b7, Yaku::Chiitoitsu) + opt_yaku(b8, Yaku::MenzenTsumo) + opt_yaku(b9, Yaku::Pinfu) + opt_yaku(b10, Yaku::SanshokuDoukou), opt_yaku(b11, Yaku::Chinitsu), Yaku::Yakuhai);
    lemma_occ_concat(opt_yaku(b0, Yaku::Honitsu) + opt_yaku(b1, Yaku::Shousangen) + opt_yaku(b2, Yaku::JunchanTaiyao) + opt_yaku(b3, Yaku::Honroutou) + opt_yaku(b4, Yaku::Sankantsu) + opt_yaku(b5, Yaku::Ittsuu) + opt_yaku(b6, Yaku::Chantaiyao) + opt_yaku(b7, Yaku::Chiitoitsu) + opt_yaku(b8, Yaku::MenzenTsumo) + opt_yaku(b9, Yaku::Pinfu) + opt_yaku(b10, Yaku::SanshokuDoukou), opt_yaku(b11, Yaku::Chinitsu), Yaku::Riichi);
}

proof fn lemma_first_list_occ(
    h: HandView,
    riichi: bool,
    doubleriichi: bool,
    ippatsu: bool,
    haitei: bool,
    rinshan: bool,
    chankan: bool,
    tsumo: bool,
)
    ensures
        occurrences(
            spec_yaku_first(h, riichi, doubleriichi, ippatsu, haitei, rinshan, chankan, tsumo),
            Yaku::Riichi,
        ) == if riichi {
            1nat
        } else {
            0nat
        },
        occurrences(
            spec_yaku_first(h, riichi, doubleriichi, ippatsu, haitei, rinshan, chankan, tsumo),
            Yaku::Yakuhai,
        ) == 0,
{
    reveal(spec_yaku_first);
    lemma_first_occ(
        riichi,
        doubleriichi,
        ippatsu,
        haitei,
        rinshan,
        chankan,
        h.tanyao(),
        h.iipeikou(),
        h.ryanpeikou(),
        h.toitoi(),
        h.sanshokudoujun(),
        h.sanankou(tsumo),
    );
}

proof fn lemma_second_list_occ(h: HandView, tsumo: bool)
    ensures
        occurrences(spec_yaku_second(h, tsumo), Yaku::Riichi) == 0,
        occurrences(spec_yaku_second(h, tsumo), Yaku::Yakuhai) == 0,
{
    reveal(spec_yaku_second);
    lemma_second_occ(
        h.honitsu(),
        h.shousangen(),
        h.junchantaiyao(),
        h.honroutou(),
        h.sankantsu(),
        h.ittsuu(),
        h.chantaiyao(),
        h.chiitoitsu(),
        h.menzentsumo(tsumo),
        h.pinfu(),
        h.sanshokudoukou(),
        h.chinitsu(),
    );
}

proof fn lemma_parts_occ(first: Seq<Yaku>, second: Seq<Yaku>, n: nat, r: nat)
    requires
        occurrences(first, Yaku::Riichi) == r,
        occurrences(first, Yaku::Yakuhai) == 0,
        occurrences(second, Yaku::Riichi) == 0,
        occurrences(second, Yaku::Yakuhai) == 0,
    ensures
        occurrences(first + second + Seq::new(n, |i: int| Yaku::Yakuhai), Yaku::Riichi) == r,
        (first + second + Seq::new(n, |i: int| Yaku::Yakuhai)).contains(Yaku::Riichi) <==> r > 0,
        occurrences(first + second + Seq::new(n, |i: int| Yaku::Yakuhai), Yaku::Yakuhai) == n,
{
    let extra = Seq::new(n, |i: int| Yaku::Yakuhai);
    lemma_occ_repeat(n, Yaku::Yakuhai);
    lemma_occ_repeat(n, Yaku::Riichi);
    lemma_occ_concat(first, second, Yaku::Yakuhai);
    lemma_occ_concat(first + second, extra, Yaku::Yakuhai);
    lemma_occ_concat(first, second, Yaku::Riichi);
    lemma_occ_concat(first + second, extra, Yaku::Riichi);
    lemma_occ_contains(first + second + extra, Yaku::Riichi);
}

proof fn lemma_regular_occ(
    h: HandView,
    riichi: bool,
    doubleriichi: bool,
    ippatsu: bool,
    haitei: bool,
    rinshan: bool,
    chankan: bool,
    tsumo: bool,
)
    ensures
        ({
            let ys = spec_yaku_list(h, riichi, doubleriichi, ippatsu, haitei, rinshan, chankan, tsumo);
            &&& occurrences(ys, Yaku::Riichi) == if riichi {
                1nat
            } else {
                0nat
            }
            &&& (ys.contains(Yaku::Riichi) <==> riichi)
            &&& occurrences(ys, Yaku::Yakuhai) == h.yakuhai()
        }),
{
    lemma_first_list_occ(h, riichi, doubleriichi, ippatsu, haitei, rinshan, chankan, tsumo);
    lemma_second_list_occ(h, tsumo);
    lemma_parts_occ(
        spec_yaku_first(h, riichi, doubleriichi, ippatsu, haitei, rinshan, chankan, tsumo),
        spec_yaku_second(h, tsumo),
        h.yakuhai(),
        if riichi {
            1nat
        } else {
            0nat
        },
    );
}

/// A list of yaku without a yakuman names riichi exactly once when riichi was declared
/// and not at all otherwise, names yakuhai once per han of value honors, and its han are the sum of the han of its yaku. A list
/// with a yakuman holds only the yakuman, in the order they are checked.
pub proof fn law_yaku_list(
    h: HandView,
    riichi: bool,
    doubleriichi: bool,
    ippatsu: bool,
    haitei: bool,
    rinshan: bool,
    chankan: bool,
    tenhou: bool,
    tsumo: bool,
)
    ensures
        ({
            let (han, ys) = spec_get_yaku_han(
                h,
                riichi,
                doubleriichi,
                ippatsu,
                haitei,
                rinshan,
                chankan,
                tenhou,
                tsumo,
            );
            if any_yakuman(ys) {
                ys == spec_yakuman_list(h, tenhou, tsumo) && han == ys.len()
            } else {
                &&& occurrences(ys, Yaku::Riichi) == if riichi {
                    1nat
                } else {
                    0nat
                }
                &&& (ys.contains(Yaku::Riichi) <==> riichi)
                &&& occurrences(ys, Yaku::Yakuhai) == h.yakuhai()
                &&& han == sum_han(ys, h.isopen)
            }
        }),
{
    reveal(spec_get_yaku_han);
    law_yakuman_or_regular(h, riichi, doubleriichi, ippatsu, haitei, rinshan, chankan, tenhou, tsumo);
    lemma_yakuman_list_all(h, tenhou, tsumo);
    let ym = spec_yakuman_list(h, tenhou, tsumo);
    let (han, ys) = spec_get_yaku_han(
        h,
        riichi,
        doubleriichi,
        ippatsu,
        haitei,
        rinshan,
        chankan,
        tenhou,
        tsumo,
    );
    if ym.len() > 0 {
        assert(spec_is_yakuman(ym[0]));
        assert(ys == ym);
        assert(any_yakuman(ys));
    } else {
        assert(ys == spec_yaku_list(h, riichi, doubleriichi, ippatsu, haitei, rinshan, chankan, tsumo));
        lemma_regular_occ(h, riichi, doubleriichi, ippatsu, haitei, rinshan, chankan, tsumo);
        lemma_yaku_list_none(h, riichi, doubleriichi, ippatsu, haitei, rinshan, chankan, tsumo);
        assert(han == sum_han(ys, h.isopen));
    }
}

/// A rinshan win without a kan is refused first, then a hand without yaku.
pub proof fn law_scoring_errors(
    h: HandView,
    inds: Option<Seq<TileView>>,
    tsumo: bool,
    riichi: bool,
    doubleriichi: bool,
    ippatsu: bool,
    haitei: bool,
    rinshan: bool,
    chankan: bool,
    tenhou: bool,
    honba: nat,
)
    ensures
        (h.kans().len() == 0 && rinshan) ==> spec_hand_score(
            h,
            inds,
            tsumo,
            riichi,
            doubleriichi,
            ippatsu,
            haitei,
            rinshan,
            chankan,
            tenhou,
            honba,
        ) == Err::<ScoreView, HandErr>(HandErr::RinshanKanWithoutKan),
        (!(h.kans().len() == 0 && rinshan) && spec_get_yaku_han(
            h,
            riichi,
            doubleriichi,
            ippatsu,
            haitei,
            rinshan,
            chankan,
            tenhou,
            tsumo,
        ).0 == 0) ==> spec_hand_score(
            h,
            inds,
            tsumo,
            riichi,
            doubleriichi,
            ippatsu,
            haitei,
            rinshan,
            chankan,
            tenhou,
            honba,
        ) == Err::<ScoreView, HandErr>(HandErr::NoYaku),
{
}

proof fn lemma_pay_ok(han: nat, dora: nat, ys: Seq<Yaku>, fs: nat)
    requires
        han > 0,
        fs > 0,
        any_yakuman(ys) ==> count_yakuman(ys) == ys.len(),
    ensures
        (if any_yakuman(ys) {
            spec_calculate_yakuman(ys)
        } else {
            spec_calculate(han + dora, fs)
        }) is Ok,
{
    if any_yakuman(ys) {
        assert(ys.len() > 0);
    }
}

/// Scoring a hand that passes those two checks succeeds: it fails only for a rinshan win
/// without a kan and for a hand without yaku.
#[verifier::rlimit(60)]
pub proof fn law_scoring_outcome(
    h: HandView,
    inds: Option<Seq<TileView>>,
    tsumo: bool,
    riichi: bool,
    doubleriichi: bool,
    ippatsu: bool,
    haitei: bool,
    rinshan: bool,
    chankan: bool,
    tenhou: bool,
    honba: nat,
)
    ensures
        ({
            let r = spec_hand_score(
                h,
                inds,
                tsumo,
                riichi,
                doubleriichi,
                ippatsu,
                haitei,
                rinshan,
                chankan,
                tenhou,
                honba,
            );
            let han = spec_get_yaku_han(
                h,
                riichi,
                doubleriichi,
                ippatsu,
                haitei,
                rinshan,
                chankan,
                tenhou,
                tsumo,
            ).0;
            (!(h.kans().len() == 0 && rinshan) && han > 0) ==> r is Ok
        }),
{
    let (han, ys) = spec_get_yaku_han(
        h,
        riichi,
        doubleriichi,
        ippatsu,
        haitei,
        rinshan,
        chankan,
        tenhou,
        tsumo,
    );
    law_yakuman_or_regular(h, riichi, doubleriichi, ippatsu, haitei, rinshan, chankan, tenhou, tsumo);
    let fu = spec_score_fu(h, ys, tsumo);
    lemma_score_fu_positive(h, ys, tsumo);
    let fs = round_up_ten(sum_fu(fu));
    law_total_fu_rounds_up(sum_fu(fu));
    if han > 0 {
        lemma_pay_ok(han, h.dora_count(inds), ys, fs);
    }
}

/// A yakuman report shows only the payments and the yaku, with no han, fu or dora lines;
/// any other report starts with the han and fu line and ends with the fu lines.
pub proof fn law_report_shape(sv: ScoreView)
    requires
        sv.yaku.len() > 0,
    ensures
        spec_is_yakuman(sv.yaku[0]) ==> hand_text(sv) == payment_lines(sv.payment, sv.honba)
            + "\nYaku: "@ + yaku_lines(sv.yaku, sv.is_open),
        !spec_is_yakuman(sv.yaku[0]) ==> hand_text(sv) == score_line(sv) + payment_lines(
            sv.payment,
            sv.honba,
        ) + dora_line(sv) + "\nYaku: "@ + yaku_lines(sv.yaku, sv.is_open) + "\nFu: "@ + fu_lines(
            sv.fu,
        ),
{
    assert(spec_is_yakuman(sv.yaku[0]) ==> hand_text(sv) =~= payment_lines(sv.payment, sv.honba)
        + ("\nYaku: "@ + yaku_lines(sv.yaku, sv.is_open)));
    assert(!spec_is_yakuman(sv.yaku[0]) ==> hand_text(sv) =~= score_line(sv) + payment_lines(
        sv.payment,
        sv.honba,
    ) + dora_line(sv) + ("\nYaku: "@ + yaku_lines(sv.yaku, sv.is_open)) + "\nFu: "@ + fu_lines(
        sv.fu,
    ));
}

/// The kind of a source of minipoints: every triplet source shares one kind, every kan
/// source another, and each other source has a kind of its own.
pub open spec fn kind_of(f: Fu) -> nat {
    match f {
        Fu::BasePoints => 0,
        Fu::BasePointsChitoi => 1,
        Fu::ClosedRon => 2,
        Fu::Tsumo => 3,
        Fu::NonSimpleClosedTriplet => 4,
        Fu::SimpleClosedTriplet => 4,
        Fu::NonSimpleOpenTriplet => 4,
        Fu::SimpleOpenTriplet => 4,
        Fu::NonSimpleClosedKan => 5,
        Fu::SimpleClosedKan => 5,
        Fu::NonSimpleOpenKan => 5,
        Fu::SimpleOpenKan => 5,
        Fu::Toitsu => 6,
        Fu::SingleWait => 7,
    }
}

/// The number of sources of one kind in a list.
pub open spec fn count_kind(fs: Seq<Fu>, k: nat) -> nat
    decreases fs.len(),
{
    if fs.len() == 0 {
        0
    } else {
        count_kind(fs.drop_last(), k) + if kind_of(fs.last()) == k {
            1nat
        } else {
            0nat
        }
    }
}

/// Whether every source of a list is of one kind.
pub open spec fn all_kind(fs: Seq<Fu>, k: nat) -> bool {
    forall|i: int| 0 <= i < fs.len() ==> kind_of(#[trigger] fs[i]) == k
}

proof fn lemma_count_kind_concat(a: Seq<Fu>, b: Seq<Fu>, k: nat)
    ensures
        count_kind(a + b, k) == count_kind(a, k) + count_kind(b, k),
    decreases b.len(),
{
    if b.len() == 0 {
        assert(a + b =~= a);
    } else {
        assert((a + b).drop_last() =~= a + b.drop_last());
        assert((a + b).last() == b.last());
        lemma_count_kind_concat(a, b.drop_last(), k);
    }
}

proof fn lemma_count_uniform(fs: Seq<Fu>, k0: nat, k: nat)
    requires
        all_kind(fs, k0),
    ensures
        count_kind(fs, k) == if k == k0 {
            fs.len()
        } else {
            0
        },
    decreases fs.len(),
{
    if fs.len() > 0 {
        assert(kind_of(fs[fs.len() - 1]) == k0);
        lemma_count_uniform(fs.drop_last(), k0, k);
    }
}

proof fn lemma_count_le_len(fs: Seq<Fu>, k: nat)
    ensures
        count_kind(fs, k) <= fs.len(),
    decreases fs.len(),
{
    if fs.len() > 0 {
        lemma_count_le_len(fs.drop_last(), k);
    }
}

proof fn lemma_all_kind_concat(a: Seq<Fu>, b: Seq<Fu>, k: nat)
    requires
        all_kind(a, k),
        all_kind(b, k),
    ensures
        all_kind(a + b, k),
{
    assert forall|i: int| 0 <= i < (a + b).len() implies kind_of(#[trigger] (a + b)[i]) == k by {
        if i < a.len() {
            assert((a + b)[i] == a[i]);
        } else {
            assert((a + b)[i] == b[i - a.len()]);
        }
    }
}

proof fn lemma_triplets_fu_kind(ts: Seq<TileView>, last: TileView, tsumo: bool)
    ensures
        all_kind(triplets_fu(ts, last, tsumo), 4),
        triplets_fu(ts, last, tsumo).len() == ts.len(),
    decreases ts.len(),
{
    if ts.len() > 0 {
        lemma_triplets_fu_kind(ts.drop_last(), last, tsumo);
        let one = triplet_fu(ts.last(), last, tsumo);
        assert(one.len() == 1 && kind_of(one[0]) == 4);
        lemma_all_kind_concat(triplets_fu(ts.drop_last(), last, tsumo), one, 4);
    }
}

proof fn lemma_kans_fu_kind(ks: Seq<TileView>)
    ensures
        all_kind(kans_fu(ks), 5),
        kans_fu(ks).len() == ks.len(),
    decreases ks.len(),
{
    if ks.len() > 0 {
        lemma_kans_fu_kind(ks.drop_last());
        let prev = kans_fu(ks.drop_last());
        assert(forall|i: int| 0 <= i < prev.len() ==> prev.push(kan_fu(ks.last()))[i] == prev[i]);
    }
}

proof fn lemma_pairs_fu_kind(ps: Seq<TileView>, seat: TileView, prev: TileView)
    ensures
        all_kind(pairs_fu(ps, seat, prev), 6),
        pairs_fu(ps, seat, prev).len() <= ps.len(),
    decreases ps.len(),
{
    if ps.len() > 0 {
        lemma_pairs_fu_kind(ps.drop_last(), seat, prev);
        let before = pairs_fu(ps.drop_last(), seat, prev);
        assert(forall|i: int| 0 <= i < before.len() ==> before.push(Fu::Toitsu)[i] == before[i]);
    }
}

proof fn lemma_wait_fu_kind(last: TileView, win: TileView)
    ensures
        all_kind(wait_fu(last, win), 7),
{
    let w = wait_fu(last, win);
    assert forall|i: int| 0 <= i < w.len() implies kind_of(#[trigger] w[i]) == 7 by {
        if last.group_type == GroupType::Sequence {
            let a = if num(win) == num(last) + 1 {
                seq![Fu::SingleWait]
            } else {
                Seq::empty()
            };
            let b = if !win.isterminal && last.isterminal {
                seq![Fu::SingleWait]
            } else {
                Seq::empty()
            };
            if i < a.len() {
                assert((a + b)[i] == a[i]);
            } else {
                assert((a + b)[i] == b[i - a.len()]);
            }
        }
    }
}

/// The minipoints of a hand start with the base points; a self-draw adds one tsumo source,
/// and a closed hand one closed-ron source; the seven-pairs base never appears; there is
/// exactly one source for each triplet and one for each kan, and at most one value-pair
/// source for each pair.
pub proof fn law_fu_sources(h: HandView, tsumo: bool)
    ensures
        h.fu(tsumo)[0] == Fu::BasePoints,
        count_kind(h.fu(tsumo), kind_of(Fu::BasePoints)) == 1,
        count_kind(h.fu(tsumo), kind_of(Fu::Tsumo)) == if tsumo {
            1nat
        } else {
            0nat
        },
        count_kind(h.fu(tsumo), kind_of(Fu::ClosedRon)) == if h.isopen {
            0nat
        } else {
            1nat
        },
        count_kind(h.fu(tsumo), kind_of(Fu::BasePointsChitoi)) == 0,
        count_kind(h.fu(tsumo), kind_of(Fu::SimpleOpenTriplet)) == h.triplets().len(),
        count_kind(h.fu(tsumo), kind_of(Fu::SimpleOpenKan)) == h.kans().len(),
        count_kind(h.fu(tsumo), kind_of(Fu::Toitsu)) <= h.pairs().len(),
        count_kind(h.fu(tsumo), kind_of(Fu::Toitsu)) == pairs_fu(h.pairs(), h.seat, h.prev).len(),
        count_kind(h.fu(tsumo), kind_of(Fu::SingleWait)) == wait_fu(h.last(), h.win).len(),
{
    lemma_fu_first(h, tsumo);
    let base = seq![Fu::BasePoints];
    let t = if tsumo {
        seq![Fu::Tsumo]
    } else {
        Seq::empty()
    };
    let c = if !h.isopen {
        seq![Fu::ClosedRon]
    } else {
        Seq::empty()
    };
    let tf = triplets_fu(h.triplets(), h.last(), tsumo);
    let kf = kans_fu(h.kans());
    let pf = pairs_fu(h.pairs(), h.seat, h.prev);
    let wf = wait_fu(h.last(), h.win);
    assert(all_kind(base, 0));
    assert(all_kind(t, 3));
    assert(all_kind(c, 2));
    lemma_triplets_fu_kind(h.triplets(), h.last(), tsumo);
    lemma_kans_fu_kind(h.kans());
    lemma_pairs_fu_kind(h.pairs(), h.seat, h.prev);
    lemma_wait_fu_kind(h.last(), h.win);
    assert(h.fu(tsumo) == base + t + c + tf + kf + pf + wf);
    assert forall|k: nat| k <= 7 implies #[trigger] count_kind(h.fu(tsumo), k) == count_kind(base, k)
        + count_kind(t, k) + count_kind(c, k) + count_kind(tf, k) + count_kind(kf, k) + count_kind(
        pf,
        k,
    ) + count_kind(wf, k) by {
        lemma_count_kind_concat(base, t, k);
        lemma_count_kind_concat(base + t, c, k);
        lemma_count_kind_concat(base + t + c, tf, k);
        lemma_count_kind_concat(base + t + c + tf, kf, k);
        lemma_count_kind_concat(base + t + c + tf + kf, pf, k);
        lemma_count_kind_concat(base + t + c + tf + kf + pf, wf, k);
    }
    assert forall|k: nat| k <= 7 implies {
        &&& #[trigger] count_kind(base, k) == if k == 0 { 1nat } else { 0nat }
        &&& count_kind(t, k) == if k == 3 { t.len() } else { 0 }
        &&& count_kind(c, k) == if k == 2 { c.len() } else { 0 }
        &&& count_kind(tf, k) == if k == 4 { tf.len() } else { 0 }
        &&& count_kind(kf, k) == if k == 5 { kf.len() } else { 0 }
        &&& count_kind(pf, k) == if k == 6 { pf.len() } else { 0 }
        &&& count_kind(wf, k) == if k == 7 { wf.len() } else { 0 }
    } by {
        lemma_count_uniform(base, 0, k);
        lemma_count_uniform(t, 3, k);
        lemma_count_uniform(c, 2, k);
        lemma_count_uniform(tf, 4, k);
        lemma_count_uniform(kf, 5, k);
        lemma_count_uniform(pf, 6, k);
        lemma_count_uniform(wf, 7, k);
    }
    assert(count_kind(h.fu(tsumo), 0) == 1);
    assert(count_kind(h.fu(tsumo), 1) == 0);
    assert(count_kind(h.fu(tsumo), 2) == c.len());
    assert(count_kind(h.fu(tsumo), 3) == t.len());
    assert(count_kind(h.fu(tsumo), 4) == tf.len());
    assert(count_kind(h.fu(tsumo), 5) == kf.len());
    assert(count_kind(h.fu(tsumo), 6) == pf.len());
    assert(count_kind(h.fu(tsumo), 7) == wf.len());
}

/// Whether `w` occurs in `s` as a run of consecutive characters.
pub open spec fn has_word(s: Seq<char>, w: Seq<char>) -> bool {
    exists|i: int| 0 <= i && i + w.len() <= s.len() && #[trigger] s.subrange(i, i + w.len()) == w
}

proof fn lemma_word_at(s: Seq<char>, i: int)
    requires
        0 <= i && i + 7 <= s.len(),
        s.subrange(i, i + 7) =~= "Yakuman"@,
    ensures
        has_word(s, "Yakuman"@),
{
    reveal_strlit("Yakuman");
    assert(s.subrange(i, i + "Yakuman"@.len()) == "Yakuman"@);
}

proof fn lemma_no_word(s: Seq<char>)
    requires
        forall|i: int| 0 <= i && i + 4 < s.len() ==> !(#[trigger] s[i] == 'Y' && s[i + 4] == 'm'),
    ensures
        !has_word(s, "Yakuman"@),
{
    reveal_strlit("Yakuman");
    if has_word(s, "Yakuman"@) {
        let i = choose|i: int| 0 <= i && i + 7 <= s.len() && #[trigger] s.subrange(i, i + 7) == "Yakuman"@;
        assert(s.subrange(i, i + 7)[0] == s[i]);
        assert(s.subrange(i, i + 7)[4] == s[i + 4]);
    }
}

/// A yaku is a yakuman exactly when its printed name holds the word "Yakuman", whether the
/// hand is open or not.
pub proof fn law_yakuman_labels(y: Yaku, is_open: bool)
    ensures
        spec_is_yakuman(y) <==> has_word(spec_yaku_label(y, is_open), "Yakuman"@),
{
    reveal_strlit("Yakuman");
    match y {
        Yaku::Tanyao => {
            reveal_strlit("Tanyao: 1");
            lemma_no_word("Tanyao: 1"@);
        },
        Yaku::Iipeikou => {
            reveal_strlit("Iipeikou: 1");
            lemma_no_word("Iipeikou: 1"@);
        },
        Yaku::Yakuhai => {
            reveal_strlit("Yakuhai: 1");
            lemma_no_word("Yakuhai: 1"@);
        },
        Yaku::MenzenTsumo => {
            reveal_strlit("MenzenTsumo: 1");
            lemma_no_word("MenzenTsumo: 1"@);
        },
        Yaku::Pinfu => {
            reveal_strlit("Pinfu: 1");
            lemma_no_word("Pinfu: 1"@);
        },
        Yaku::Riichi => {
            reveal_strlit("Riichi: 1");
            lemma_no_word("Riichi: 1"@);
        },
        Yaku::Ippatsu => {
            reveal_strlit("Ippatsu: 1");
            lemma_no_word("Ippatsu: 1"@);
        },
        Yaku::Haitei => {
            reveal_strlit("Haitei: 1");
            lemma_no_word("Haitei: 1"@);
        },
        Yaku::RinshanKaihou => {
            reveal_strlit("RinshanKaihou: 1");
            lemma_no_word("RinshanKaihou: 1"@);
        },
        Yaku::Chankan => {
            reveal_strlit("Chankan: 1");
            lemma_no_word("Chankan: 1"@);
        },
        Yaku::DoubleRiichi => {
            reveal_strlit("DoubleRiichi: 2");
            lemma_no_word("DoubleRiichi: 2"@);
        },
        Yaku::Toitoi => {
            reveal_strlit("Toitoi: 2");
            lemma_no_word("Toitoi: 2"@);
        },
        Yaku::Ittsuu => {
            reveal_strlit("Ittsuu: 1");
            reveal_strlit("Ittsuu: 2");
            if is_open {
                lemma_no_word("Ittsuu: 1"@);
            } else {
                lemma_no_word("Ittsuu: 2"@);
            }
        },
        Yaku::SanshokuDoujun => {
            reveal_strlit("Sanshoku Doujun: 1");
            reveal_strlit("Sanshoku Doujun: 2");
            if is_open {
                lemma_no_word("Sanshoku Doujun: 1"@);
            } else {
                lemma_no_word("Sanshoku Doujun: 2"@);
            }
        },
        Yaku::Chantaiyao => {
            reveal_strlit("Chantaiyao: 1");
            reveal_strlit("Chantaiyao: 2");
            if is_open {
                lemma_no_word("Chantaiyao: 1"@);
            } else {
                lemma_no_word("Chantaiyao: 2"@);
            }
        },
        Yaku::Sanankou => {
            reveal_strlit("Sanankou: 2");
            lemma_no_word("Sanankou: 2"@);
        },
        Yaku::SanshokuDoukou => {
            reveal_strlit("SanshokuDoukou: 2");
            lemma_no_word("SanshokuDoukou: 2"@);
        },
        Yaku::Sankantsu => {
            reveal_strlit("Sankantsu: 2");
            lemma_no_word("Sankantsu: 2"@);
        },
        Yaku::Honroutou => {
            reveal_strlit("Honroutou: 2");
            lemma_no_word("Honroutou: 2"@);
        },
        Yaku::Shousangen => {
            reveal_strlit("Shousangen: 2");
            lemma_no_word("Shousangen: 2"@);
        },
        Yaku::Chiitoitsu => {
            reveal_strlit("Chiitoitsu: 2");
            lemma_no_word("Chiitoitsu: 2"@);
        },
        Yaku::Honitsu => {
            reveal_strlit("Honitsu: 2");
            reveal_strlit("Honitsu: 3");
            if is_open {
                lemma_no_word("Honitsu: 2"@);
            } else {
                lemma_no_word("Honitsu: 3"@);
            }
        },
        Yaku::JunchanTaiyao => {
            reveal_strlit("JunchanTaiyao: 2");
            reveal_strlit("JunchanTaiyao: 3");
            if is_open {
                lemma_no_word("JunchanTaiyao: 2"@);
            } else {
                lemma_no_word("JunchanTaiyao: 3"@);
            }
        },
        Yaku::Ryanpeikou => {
            reveal_strlit("Ryanpeikou: 3");
            lemma_no_word("Ryanpeikou: 3"@);
        },
        Yaku::Chinitsu => {
            reveal_strlit("Chinitsu: 5");
            reveal_strlit("Chinitsu: 6");
            if is_open {
                lemma_no_word("Chinitsu: 5"@);
            } else {
                lemma_no_word("Chinitsu: 6"@);
            }
        },
        Yaku::KazoeYakuman => {
            reveal_strlit("Kazoe Yakuman ");
            lemma_word_at("Kazoe Yakuman "@, 6);
        },
        Yaku::KokushiMusou => {
            reveal_strlit("KokushiMusou Yakuman");
            lemma_word_at("KokushiMusou Yakuman"@, 13);
        },
        Yaku::KokushiMusou13SidedWait => {
            reveal_strlit("KokushiMusou Yakuman 13 sided wait");
            lemma_word_at("KokushiMusou Yakuman 13 sided wait"@, 13);
        },
        Yaku::Suuankou => {
            reveal_strlit("Suuankou Yakuman");
            lemma_word_at("Suuankou Yakuman"@, 9);
        },
        Yaku::SuuankouTankiWait => {
            reveal_strlit("Suuankou Yakuman Tanki Wait ");
            lemma_word_at("Suuankou Yakuman Tanki Wait "@, 9);
        },
        Yaku::Daisangen => {
            reveal_strlit("Daisangen Yakuman");
            lemma_word_at("Daisangen Yakuman"@, 10);
        },
        Yaku::Shousuushii => {
            reveal_strlit("Shousuushii Yakuman");
            lemma_word_at("Shousuushii Yakuman"@, 12);
        },
        Yaku::Daisuushii => {
            reveal_strlit("Daisuushii Yakuman");
            lemma_word_at("Daisuushii Yakuman"@, 11);
        },
        Yaku::Tsuuiisou => {
            reveal_strlit("Tsuuiisou Yakuman");
            lemma_word_at("Tsuuiisou Yakuman"@, 10);
        },
        Yaku::Daichiishin => {
            reveal_strlit("Daichiishin Yakuman");
            lemma_word_at("Daichiishin Yakuman"@, 12);
        },
        Yaku::Chinroutou => {
            reveal_strlit("Chinroutou Yakuman");
            lemma_word_at("Chinroutou Yakuman"@, 11);
        },
        Yaku::Ryuuiisou => {
            reveal_strlit("Ryuuiisou Yakuman");
            lemma_word_at("Ryuuiisou Yakuman"@, 10);
        },
        Yaku::ChuurenPoutou => {
            reveal_strlit("ChuurenPoutou Yakuman");
            lemma_word_at("ChuurenPoutou Yakuman"@, 14);
        },
        Yaku::ChuurenPoutou9SidedWait => {
            reveal_strlit("ChuurenPoutou Yakuman 9 sided wait ");
            lemma_word_at("ChuurenPoutou Yakuman 9 sided wait "@, 14);
        },
        Yaku::Suukantsu => {
            reveal_strlit("Suukantsu Yakuman");
            lemma_word_at("Suukantsu Yakuman"@, 10);
        },
        Yaku::Tenhou => {
            reveal_strlit("Tenhou Yakuman");
            lemma_word_at("Tenhou Yakuman"@, 7);
        },
        Yaku::Chiihou => {
            reveal_strlit("Chiihou Yakuman");
            lemma_word_at("Chiihou Yakuman"@, 8);
        },
    }
}

/// All simples holds exactly when no group of the hand, the last one (completed by the
/// winning tile) included, holds a terminal or an honor, in a hand that is not thirteen
/// orphans.
pub proof fn law_tanyao_all_simples(h: HandView)
    ensures
        h.tanyao() <==> (h.groups.len() != 13 && forall|i: int|
            #![trigger h.groups[i]]
            0 <= i < h.groups.len() ==> !h.groups[i].isterminal && h.groups[i].suit != Suit::Wind
                && h.groups[i].suit != Suit::Dragon),
{
}

/// The number of pairs worth fu: a dragon pair, or a pair of the seat or the prevalent
/// wind's value.
pub open spec fn count_fu_pairs(ps: Seq<TileView>, seat: TileView, prev: TileView) -> nat
    decreases ps.len(),
{
    if ps.len() == 0 {
        0
    } else {
        count_fu_pairs(ps.drop_last(), seat, prev) + if ps.last().suit == Suit::Dragon
            || ps.last().value == seat.value || ps.last().value == prev.value {
            1nat
        } else {
            0nat
        }
    }
}

proof fn lemma_pairs_fu_count(ps: Seq<TileView>, seat: TileView, prev: TileView)
    ensures
        pairs_fu(ps, seat, prev).len() == count_fu_pairs(ps, seat, prev),
    decreases ps.len(),
{
    if ps.len() > 0 {
        lemma_pairs_fu_count(ps.drop_last(), seat, prev);
    }
}

proof fn lemma_dragon_pair_counts(ps: Seq<TileView>, seat: TileView, prev: TileView, i: int)
    requires
        0 <= i < ps.len(),
        ps[i].suit == Suit::Dragon,
    ensures
        count_fu_pairs(ps, seat, prev) >= 1,
    decreases ps.len(),
{
    if i < ps.len() - 1 {
        lemma_dragon_pair_counts(ps.drop_last(), seat, prev, i);
    }
}

proof fn lemma_kind_present(fs: Seq<Fu>, k: nat)
    requires
        count_kind(fs, k) > 0,
    ensures
        exists|i: int| 0 <= i < fs.len() && kind_of(#[trigger] fs[i]) == k,
    decreases fs.len(),
{
    if kind_of(fs.last()) != k {
        lemma_kind_present(fs.drop_last(), k);
        let i = choose|i: int| 0 <= i < fs.drop_last().len() && kind_of(#[trigger] fs.drop_last()[i]) == k;
        assert(fs[i] == fs.drop_last()[i]);
    } else {
        assert(kind_of(fs[fs.len() - 1]) == k);
    }
}

/// Each pair of a dragon, of the seat wind or of the prevalent wind adds one value-pair
/// source (2 fu), whatever the winds are, and no other pair does; so a hand with a dragon
/// pair always counts a value-pair source.
pub proof fn law_value_pair_fu(h: HandView, tsumo: bool)
    ensures
        count_kind(h.fu(tsumo), kind_of(Fu::Toitsu)) == count_fu_pairs(h.pairs(), h.seat, h.prev),
        (exists|i: int| 0 <= i < h.pairs().len() && #[trigger] h.pairs()[i].suit == Suit::Dragon)
            ==> h.fu(tsumo).contains(Fu::Toitsu),
{
    law_fu_sources(h, tsumo);
    lemma_pairs_fu_count(h.pairs(), h.seat, h.prev);
    if exists|i: int| 0 <= i < h.pairs().len() && #[trigger] h.pairs()[i].suit == Suit::Dragon {
        let i = choose|i: int| 0 <= i < h.pairs().len() && #[trigger] h.pairs()[i].suit == Suit::Dragon;
        lemma_dragon_pair_counts(h.pairs(), h.seat, h.prev, i);
        lemma_kind_present(h.fu(tsumo), 6);
        let j = choose|j: int| 0 <= j < h.fu(tsumo).len() && kind_of(#[trigger] h.fu(tsumo)[j]) == 6;
        assert(h.fu(tsumo)[j] == Fu::Toitsu);
    }
}

/// A sequence starting at the number `c` holds the dora tile exactly when the dora is of its
/// suit and is its first, second or third tile: `c`, `c + 1` or `c + 2`.
pub proof fn law_sequence_holds_dora(s: TileView, d: TileView, c: char)
    requires
        s.value == seq![c],
        '1' <= c <= '7',
    ensures
        seq_hits(s, d) <==> (d.suit == s.suit && (d.value == seq![c] || d.value == seq![
            ((c as u32) + 1) as char,
        ] || d.value == seq![((c as u32) + 2) as char])),
{
    lemma_parse_single(c);
    let n: nat = (c as int - '0' as int) as nat;
    assert(num(s) == n);
    assert(decimal((n + 1) as nat) == seq![digit_char(n + 1 as int)]);
    assert(decimal((n + 2) as nat) == seq![digit_char(n + 2 as int)]);
    assert(digit_char(n + 1 as int) == ((c as u32) + 1) as char);
    assert(digit_char(n + 2 as int) == ((c as u32) + 2) as char);
}

/// Whether a notation string names its suit with the letter `z` (the numbered honors).
pub open spec fn z_notation(s: Seq<char>) -> bool {
    s.len() >= 1 && (s.last() == 'z' || (s.len() >= 2 && s.last() == 'o' && s[s.len() - 2]
        == 'z'))
}

/// In the `z` notation the digits 1 to 4 are the winds east, south, west and north, and 5
/// to 7 the dragons white, green and red.
pub proof fn law_z_notation(s: Seq<char>)
    requires
        z_notation(s),
    ensures
        spec_try_from(s) matches Ok(t) ==> {
            &&& s[0] == '1' ==> t.value == seq!['E'] && t.suit == Suit::Wind
            &&& s[0] == '2' ==> t.value == seq!['S'] && t.suit == Suit::Wind
            &&& s[0] == '3' ==> t.value == seq!['W'] && t.suit == Suit::Wind
            &&& s[0] == '4' ==> t.value == seq!['N'] && t.suit == Suit::Wind
            &&& s[0] == '5' ==> t.value == seq!['w'] && t.suit == Suit::Dragon
            &&& s[0] == '6' ==> t.value == seq!['g'] && t.suit == Suit::Dragon
            &&& s[0] == '7' ==> t.value == seq!['r'] && t.suit == Suit::Dragon
        },
{
}

/// The name of a yaku that is not a yakuman ends with a colon, a space and its han. The
/// one exception is an open chantaiyao, which is printed as one han and counts two.
pub open spec fn label_shows_han(y: Yaku, is_open: bool) -> bool {
    let l = spec_yaku_label(y, is_open);
    (!spec_is_yakuman(y) && !(y == Yaku::Chantaiyao && is_open)) ==> {
        &&& 1 <= spec_han(y, is_open) <= 6
        &&& l.len() >= 3
        &&& l[l.len() - 1] == digit_char(spec_han(y, is_open) as int)
        &&& l[l.len() - 2] == ' '
        &&& l[l.len() - 3] == ':'
    }
}

/// The han of every yaku that is not a yakuman is the number printed at the end of its
/// name, after a colon and a space, open or closed (but for an open chantaiyao, printed as
/// one han and counted as two); a yakuman counts as one.
pub proof fn law_han_matches_label(y: Yaku, is_open: bool)
    ensures
        label_shows_han(y, is_open),
        spec_is_yakuman(y) ==> spec_han(y, is_open) == 1,
{
    match y {
        Yaku::Tanyao => {
            reveal_strlit("Tanyao: 1");
            assert(label_shows_han(y, is_open));
        },
        Yaku::Iipeikou => {
            reveal_strlit("Iipeikou: 1");
            assert(label_shows_han(y, is_open));
        },
        Yaku::Yakuhai => {
            reveal_strlit("Yakuhai: 1");
            assert(label_shows_han(y, is_open));
        },
        Yaku::MenzenTsumo => {
            reveal_strlit("MenzenTsumo: 1");
            assert(label_shows_han(y, is_open));
        },
        Yaku::Pinfu => {
            reveal_strlit("Pinfu: 1");
            assert(label_shows_han(y, is_open));
        },
        Yaku::Riichi => {
            reveal_strlit("Riichi: 1");
            assert(label_shows_han(y, is_open));
        },
        Yaku::Ippatsu => {
            reveal_strlit("Ippatsu: 1");
            assert(label_shows_han(y, is_open));
        },
        Yaku::Haitei => {
            reveal_strlit("Haitei: 1");
            assert(label_shows_han(y, is_open));
        },
        Yaku::RinshanKaihou => {
            reveal_strlit("RinshanKaihou: 1");
            assert(label_shows_han(y, is_open));
        },
        Yaku::Chankan => {
            reveal_strlit("Chankan: 1");
            assert(label_shows_han(y, is_open));
        },
        Yaku::DoubleRiichi => {
            reveal_strlit("DoubleRiichi: 2");
            assert(label_shows_han(y, is_open));
        },
        Yaku::Toitoi => {
            reveal_strlit("Toitoi: 2");
            assert(label_shows_han(y, is_open));
        },
        Yaku::Ittsuu => {
            reveal_strlit("Ittsuu: 1");
            reveal_strlit("Ittsuu: 2");
            assert(label_shows_han(y, is_open));
        },
        Yaku::SanshokuDoujun => {
            reveal_strlit("Sanshoku Doujun: 1");
            reveal_strlit("Sanshoku Doujun: 2");
            assert(label_shows_han(y, is_open));
        },
        Yaku::Chantaiyao => {
            reveal_strlit("Chantaiyao: 1");
            reveal_strlit("Chantaiyao: 2");
            assert(label_shows_han(y, is_open));
        },
        Yaku::Sanankou => {
            reveal_strlit("Sanankou: 2");
            assert(label_shows_han(y, is_open));
        },
        Yaku::SanshokuDoukou => {
            reveal_strlit("SanshokuDoukou: 2");
            assert(label_shows_han(y, is_open));
        },
        Yaku::Sankantsu => {
            reveal_strlit("Sankantsu: 2");
            assert(label_shows_han(y, is_open));
        },
        Yaku::Honroutou => {
            reveal_strlit("Honroutou: 2");
            assert(label_shows_han(y, is_open));
        },
        Yaku::Shousangen => {
            reveal_strlit("Shousangen: 2");
            assert(label_shows_han(y, is_open));
        },
        Yaku::Chiitoitsu => {
            reveal_strlit("Chiitoitsu: 2");
            assert(label_shows_han(y, is_open));
        },
        Yaku::Honitsu => {
            reveal_strlit("Honitsu: 2");
            reveal_strlit("Honitsu: 3");
            assert(label_shows_han(y, is_open));
        },
        Yaku::JunchanTaiyao => {
            reveal_strlit("JunchanTaiyao: 2");
            reveal_strlit("JunchanTaiyao: 3");
            assert(label_shows_han(y, is_open));
        },
        Yaku::Ryanpeikou => {
            reveal_strlit("Ryanpeikou: 3");
            assert(label_shows_han(y, is_open));
        },
        Yaku::Chinitsu => {
            reveal_strlit("Chinitsu: 5");
            reveal_strlit("Chinitsu: 6");
            assert(label_shows_han(y, is_open));
        },
        Yaku::KazoeYakuman => {
            reveal_strlit("Kazoe Yakuman ");
            assert(label_shows_han(y, is_open));
        },
        Yaku::KokushiMusou => {
            reveal_strlit("KokushiMusou Yakuman");
            assert(label_shows_han(y, is_open));
        },
        Yaku::KokushiMusou13SidedWait => {
            reveal_strlit("KokushiMusou Yakuman 13 sided wait");
            assert(label_shows_han(y, is_open));
        },
        Yaku::Suuankou => {
            reveal_strlit("Suuankou Yakuman");
            assert(label_shows_han(y, is_open));
        },
        Yaku::SuuankouTankiWait => {
            reveal_strlit("Suuankou Yakuman Tanki Wait ");
            assert(label_shows_han(y, is_open));
        },
        Yaku::Daisangen => {
            reveal_strlit("Daisangen Yakuman");
            assert(label_shows_han(y, is_open));
        },
        Yaku::Shousuushii => {
            reveal_strlit("Shousuushii Yakuman");
            assert(label_shows_han(y, is_open));
        },
        Yaku::Daisuushii => {
            reveal_strlit("Daisuushii Yakuman");
            assert(label_shows_han(y, is_open));
        },
        Yaku::Tsuuiisou => {
            reveal_strlit("Tsuuiisou Yakuman");
            assert(label_shows_han(y, is_open));
        },
        Yaku::Daichiishin => {
            reveal_strlit("Daichiishin Yakuman");
            assert(label_shows_han(y, is_open));
        },
        Yaku::Chinroutou => {
            reveal_strlit("Chinroutou Yakuman");
            assert(label_shows_han(y, is_open));
        },
        Yaku::Ryuuiisou => {
            reveal_strlit("Ryuuiisou Yakuman");
            assert(label_shows_han(y, is_open));
        },
        Yaku::ChuurenPoutou => {
            reveal_strlit("ChuurenPoutou Yakuman");
            assert(label_shows_han(y, is_open));
        },
        Yaku::ChuurenPoutou9SidedWait => {
            reveal_strlit("ChuurenPoutou Yakuman 9 sided wait ");
            assert(label_shows_han(y, is_open));
        },
        Yaku::Suukantsu => {
            reveal_strlit("Suukantsu Yakuman");
            assert(label_shows_han(y, is_open));
        },
        Yaku::Tenhou => {
            reveal_strlit("Tenhou Yakuman");
            assert(label_shows_han(y, is_open));
        },
        Yaku::Chiihou => {
            reveal_strlit("Chiihou Yakuman");
            assert(label_shows_han(y, is_open));
        },
    }
}

/// The name of every source of minipoints ends with a colon, a space and its value.
pub proof fn law_fu_value_matches_label(f: Fu)
    ensures
        ({
            let l = spec_fu_label(f);
            let w = ": "@ + decimal(spec_fu_value(f));
            l.len() >= w.len() && l.subrange(l.len() - w.len(), l.len() as int) == w
        }),
{
    reveal_strlit(": ");
    match f {
        Fu::BasePoints => {
            reveal_strlit("BasePoints: 20");
            assert(decimal(20) =~= "20"@) by {
                reveal_strlit("20");
                reveal_with_fuel(decimal, 3);
            }
            assert(spec_fu_label(f).subrange(10, 14) =~= ": "@ + "20"@) by {
                reveal_strlit("20");
            }
        },
        Fu::BasePointsChitoi => {
            reveal_strlit("BasePoints: 25");
            assert(decimal(25) =~= "25"@) by {
                reveal_strlit("25");
                reveal_with_fuel(decimal, 3);
            }
            assert(spec_fu_label(f).subrange(10, 14) =~= ": "@ + "25"@) by {
                reveal_strlit("25");
            }
        },
        Fu::ClosedRon => {
            reveal_strlit("ClosedRon: 10");
            assert(decimal(10) =~= "10"@) by {
                reveal_strlit("10");
                reveal_with_fuel(decimal, 3);
            }
            assert(spec_fu_label(f).subrange(9, 13) =~= ": "@ + "10"@) by {
                reveal_strlit("10");
            }
        },
        Fu::Tsumo => {
            reveal_strlit("Tsumo: 2");
            assert(decimal(2) =~= "2"@) by {
                reveal_strlit("2");
                reveal_with_fuel(decimal, 3);
            }
            assert(spec_fu_label(f).subrange(5, 8) =~= ": "@ + "2"@) by {
                reveal_strlit("2");
            }
        },
        Fu::NonSimpleClosedTriplet => {
            reveal_strlit("NonSimpleClosedTriplet: 8");
            assert(decimal(8) =~= "8"@) by {
                reveal_strlit("8");
                reveal_with_fuel(decimal, 3);
            }
            assert(spec_fu_label(f).subrange(22, 25) =~= ": "@ + "8"@) by {
                reveal_strlit("8");
            }
        },
        Fu::SimpleClosedTriplet => {
            reveal_strlit("ClosedTriplet: 4");
            assert(decimal(4) =~= "4"@) by {
                reveal_strlit("4");
                reveal_with_fuel(decimal, 3);
            }
            assert(spec_fu_label(f).subrange(13, 16) =~= ": "@ + "4"@) by {
                reveal_strlit("4");
            }
        },
        Fu::NonSimpleOpenTriplet => {
            reveal_strlit("NonSimpleOpenTriplet: 4");
            assert(decimal(4) =~= "4"@) by {
                reveal_strlit("4");
                reveal_with_fuel(decimal, 3);
            }
            assert(spec_fu_label(f).subrange(20, 23) =~= ": "@ + "4"@) by {
                reveal_strlit("4");
            }
        },
        Fu::SimpleOpenTriplet => {
            reveal_strlit("OpenTriplet: 2");
            assert(decimal(2) =~= "2"@) by {
                reveal_strlit("2");
                reveal_with_fuel(decimal, 3);
            }
            assert(spec_fu_label(f).subrange(11, 14) =~= ": "@ + "2"@) by {
                reveal_strlit("2");
            }
        },
        Fu::NonSimpleClosedKan => {
            reveal_strlit("NonSimpleClosedKan: 32");
            assert(decimal(32) =~= "32"@) by {
                reveal_strlit("32");
                reveal_with_fuel(decimal, 3);
            }
            assert(spec_fu_label(f).subrange(18, 22) =~= ": "@ + "32"@) by {
                reveal_strlit("32");
            }
        },
        Fu::SimpleClosedKan => {
            reveal_strlit("ClosedKan: 16");
            assert(decimal(16) =~= "16"@) by {
                reveal_strlit("16");
                reveal_with_fuel(decimal, 3);
            }
            assert(spec_fu_label(f).subrange(9, 13) =~= ": "@ + "16"@) by {
                reveal_strlit("16");
            }
        },
        Fu::NonSimpleOpenKan => {
            reveal_strlit("NonSimpleOpenKan: 16");
            assert(decimal(16) =~= "16"@) by {
                reveal_strlit("16");
                reveal_with_fuel(decimal, 3);
            }
            assert(spec_fu_label(f).subrange(16, 20) =~= ": "@ + "16"@) by {
                reveal_strlit("16");
            }
        },
        Fu::SimpleOpenKan => {
            reveal_strlit("OpenKan: 8");
            assert(decimal(8) =~= "8"@) by {
                reveal_strlit("8");
                reveal_with_fuel(decimal, 3);
            }
            assert(spec_fu_label(f).subrange(7, 10) =~= ": "@ + "8"@) by {
                reveal_strlit("8");
            }
        },
        Fu::Toitsu => {
            reveal_strlit("Toitsu: 2");
            assert(decimal(2) =~= "2"@) by {
                reveal_strlit("2");
                reveal_with_fuel(decimal, 3);
            }
            assert(spec_fu_label(f).subrange(6, 9) =~= ": "@ + "2"@) by {
                reveal_strlit("2");
            }
        },
        Fu::SingleWait => {
            reveal_strlit("SingleWait: 2");
            assert(decimal(2) =~= "2"@) by {
                reveal_strlit("2");
                reveal_with_fuel(decimal, 3);
            }
            assert(spec_fu_label(f).subrange(10, 13) =~= ": "@ + "2"@) by {
                reveal_strlit("2");
            }
        },
    }
}

/// Whether a triplet or kan source is for a closed group.
pub open spec fn closed_source(f: Fu) -> bool {
    f == Fu::NonSimpleClosedTriplet || f == Fu::SimpleClosedTriplet || f == Fu::NonSimpleClosedKan
        || f == Fu::SimpleClosedKan
}

/// Whether a triplet or kan source is for a group of terminals or honors.
pub open spec fn non_simple_source(f: Fu) -> bool {
    f == Fu::NonSimpleClosedTriplet || f == Fu::NonSimpleOpenTriplet || f == Fu::NonSimpleClosedKan
        || f == Fu::NonSimpleOpenKan
}

/// A simple open triplet is worth 2 fu; closing it doubles its value, so does being made
/// of terminals or honors, and a kan is worth four times the triplet of the same kind.
pub proof fn law_meld_fu_values(f: Fu)
    ensures
        kind_of(f) == 4 ==> spec_fu_value(f) == 2 * (if closed_source(f) {
            2nat
        } else {
            1nat
        }) * (if non_simple_source(f) {
            2nat
        } else {
            1nat
        }),
        kind_of(f) == 5 ==> spec_fu_value(f) == 8 * (if closed_source(f) {
            2nat
        } else {
            1nat
        }) * (if non_simple_source(f) {
            2nat
        } else {
            1nat
        }),
{
}

/// Each triplet gives one source: closed when the triplet is closed, except that the
/// triplet completed by the winning tile counts as closed on a self-draw and open on a ron;
/// and of terminals or honors when its tiles are. Each kan gives one source, closed when the
/// kan is, and of terminals or honors when its tiles are.
pub proof fn law_meld_sources(g: TileView, last: TileView, tsumo: bool)
    ensures
        triplet_fu(g, last, tsumo).len() == 1,
        kind_of(triplet_fu(g, last, tsumo)[0]) == 4,
        closed_source(triplet_fu(g, last, tsumo)[0]) == if g == last {
            tsumo
        } else {
            !g.isopen
        },
        non_simple_source(triplet_fu(g, last, tsumo)[0]) == (g.isterminal || g.suit == Suit::Wind
            || g.suit == Suit::Dragon),
        kind_of(kan_fu(g)) == 5,
        closed_source(kan_fu(g)) == !g.isopen,
        non_simple_source(kan_fu(g)) == (g.isterminal || g.suit == Suit::Wind || g.suit
            == Suit::Dragon),
{
}

/// A red five is written `0`.
pub open spec fn as_five(c: char) -> char {
    if c == '0' {
        '5'
    } else {
        c
    }
}

/// How a group is read from its notation: the last letter before an optional open marker
/// `o` names the suit (`m`, `p`, `s` the numbered suits, `w` the winds, `d` the dragons);
/// outside the `z` notation the value is the first tile, a red five `0` read as `5`; a
/// sequence is three consecutive numbers and a triplet three equal tiles; the group holds a
/// red five exactly when a `0` is written; a sequence is terminal when it starts at 1 or 7,
/// another group when it is of 1s or 9s of a numbered suit.
pub proof fn law_notation_reading(s: Seq<char>)
    ensures
        spec_try_from(s) matches Ok(t) ==> {
            let open = s.last() == 'o';
            let letter = if open {
                s[s.len() - 2]
            } else {
                s.last()
            };
            let v = t.value;
            &&& t.isopen == open
            &&& t.isaka == s.contains('0')
            &&& letter == 'm' ==> t.suit == Suit::Manzu
            &&& letter == 'p' ==> t.suit == Suit::Pinzu
            &&& letter == 's' ==> t.suit == Suit::Souzu
            &&& letter == 'w' ==> t.suit == Suit::Wind
            &&& letter == 'd' ==> t.suit == Suit::Dragon
            &&& letter != 'z' ==> v == seq![as_five(s[0])]
            &&& t.group_type == GroupType::Sequence ==> s.len() >= 4 && as_five(s[1]) as int
                == as_five(s[0]) as int + 1 && as_five(s[2]) as int == as_five(s[0]) as int + 2
            &&& t.group_type == GroupType::Triplet ==> s.len() >= 4 && as_five(s[1]) == as_five(
                s[0],
            ) && as_five(s[2]) == as_five(s[0])
            &&& t.isterminal == if t.group_type == GroupType::Sequence {
                v == seq!['1'] || v == seq!['7']
            } else {
                (v == seq!['1'] || v == seq!['9']) && t.suit != Suit::Wind && t.suit
                    != Suit::Dragon
            }
        },
{
    if spec_try_from(s) is Ok {
        let t = spec_try_from(s).unwrap();
        let open = s.last() == 'o';
        let letter = if open {
            s[s.len() - 2]
        } else {
            s.last()
        };
        let v0 = crate::tile_group::zero_as_five(s[0]);
        let vc = if letter == 'z' {
            crate::tile_group::honor_value(v0)
        } else {
            v0
        };
        assert(seq![letter].len() == 1 && seq![letter][0] == letter);
        assert(t.value == seq![vc]);
        assert(seq![vc] == seq!['1'] <==> vc == '1') by {
            if vc != '1' {
                assert(seq![vc][0] != seq!['1'][0]);
            }
        }
        assert(seq![vc] == seq!['7'] <==> vc == '7') by {
            if vc != '7' {
                assert(seq![vc][0] != seq!['7'][0]);
            }
        }
        assert(seq![vc] == seq!['9'] <==> vc == '9') by {
            if vc != '9' {
                assert(seq![vc][0] != seq!['9'][0]);
            }
        }
    }
}

/// Whether a group is of a wind or a dragon.
pub open spec fn honor_group(g: TileView) -> bool {
    g.suit == Suit::Wind || g.suit == Suit::Dragon
}

/// Several yaku read off the groups of the hand (thirteen orphans excluded where noted):
/// a full flush has every group of one suit; all honors every group of winds or dragons;
/// the pure outside hand a terminal and no honor in every group, with a sequence; the
/// half outside hand and all terminals and honors a terminal or honor in every group, both
/// kinds present, with a sequence for the first and none for the second; all triplets four
/// triplets or kans; three and four kans that many kans; the half flush honors and one
/// numbered suit, both present.
pub proof fn law_yaku_by_groups(h: HandView)
    ensures
        h.chinitsu() <==> (h.groups.len() != 13 && forall|i: int, j: int|
            #![trigger h.groups[i], h.groups[j]]
            0 <= i < h.groups.len() && 0 <= j < h.groups.len() ==> h.groups[i].suit
                == h.groups[j].suit),
        h.tsuuiisou() <==> (h.groups.len() != 13 && forall|i: int|
            #![trigger h.groups[i]]
            0 <= i < h.groups.len() ==> honor_group(h.groups[i])),
        h.junchantaiyao() <==> (h.groups.len() != 13 && h.sequences().len() > 0 && forall|i: int|
            #![trigger h.groups[i]]
            0 <= i < h.groups.len() ==> h.groups[i].isterminal && !honor_group(h.groups[i])),
        h.chantaiyao() <==> (h.groups.len() != 13 && h.sequences().len() > 0 && (forall|i: int|
            #![trigger h.groups[i]]
            0 <= i < h.groups.len() ==> h.groups[i].isterminal || honor_group(h.groups[i]))
            && (exists|i: int| #![trigger h.groups[i]] 0 <= i < h.groups.len() && h.groups[i].isterminal)
            && (exists|i: int|
            #![trigger h.groups[i]]
            0 <= i < h.groups.len() && !h.groups[i].isterminal && honor_group(h.groups[i]))),
        h.honroutou() <==> (h.groups.len() != 13 && h.sequences().len() == 0 && (forall|i: int|
            #![trigger h.groups[i]]
            0 <= i < h.groups.len() ==> h.groups[i].isterminal || honor_group(h.groups[i]))
            && (exists|i: int| #![trigger h.groups[i]] 0 <= i < h.groups.len() && h.groups[i].isterminal)
            && (exists|i: int|
            #![trigger h.groups[i]]
            0 <= i < h.groups.len() && !h.groups[i].isterminal && honor_group(h.groups[i]))),
        h.toitoi() <==> h.triplets().len() + h.kans().len() == 4,
        h.sankantsu() <==> h.kans().len() == 3,
        h.suukantsu() <==> h.kans().len() == 4,
        h.honitsu() <==> (h.groups.len() != 13 && (exists|i: int|
            #![trigger h.groups[i]]
            0 <= i < h.groups.len() && honor_group(h.groups[i])) && (exists|i: int|
            #![trigger h.groups[i]]
            0 <= i < h.groups.len() && !honor_group(h.groups[i])) && forall|i: int, j: int|
            #![trigger h.groups[i], h.groups[j]]
            0 <= i < h.groups.len() && 0 <= j < h.groups.len() && !honor_group(h.groups[i])
                && !honor_group(h.groups[j]) ==> h.groups[i].suit == h.groups[j].suit),
{
    assert forall|i: int| 0 <= i < h.groups.len() implies honor_group(#[trigger] h.groups[i])
        == h.groups[i].is_honor() by {}
    if h.tsuuiisou() {
        assert forall|i: int| 0 <= i < h.groups.len() implies honor_group(#[trigger] h.groups[i]) by {
            assert(h.groups[i].is_honor());
        }
    }
    if h.honitsu() {
        let a = choose|i: int| 0 <= i < h.groups.len() && #[trigger] h.groups[i].is_honor();
        assert(honor_group(h.groups[a]));
        let b = choose|i: int| 0 <= i < h.groups.len() && !#[trigger] h.groups[i].is_honor();
        assert(!honor_group(h.groups[b]));
    }
    if (exists|i: int| #![trigger h.groups[i]] 0 <= i < h.groups.len() && honor_group(h.groups[i])) {
        let a = choose|i: int| #![trigger h.groups[i]] 0 <= i < h.groups.len() && honor_group(h.groups[i]);
        assert(h.groups[a].is_honor());
    }
    if (exists|i: int| #![trigger h.groups[i]] 0 <= i < h.groups.len() && !honor_group(h.groups[i])) {
        let b = choose|i: int| #![trigger h.groups[i]] 0 <= i < h.groups.len() && !honor_group(h.groups[i]);
        assert(!h.groups[b].is_honor());
    }
    if h.chinitsu() {
        assert forall|i: int, j: int|
            0 <= i < h.groups.len() && 0 <= j < h.groups.len() implies #[trigger] h.groups[i].suit
            == #[trigger] h.groups[j].suit by {
            assert(h.groups[i].suit == h.groups[0].suit);
            assert(h.groups[j].suit == h.groups[0].suit);
        }
    }
    if (h.groups.len() != 13 && forall|i: int, j: int|
        #![trigger h.groups[i], h.groups[j]]
        0 <= i < h.groups.len() && 0 <= j < h.groups.len() ==> h.groups[i].suit
            == h.groups[j].suit) {
        assert forall|i: int| 0 <= i < h.groups.len() implies #[trigger] h.groups[i].suit
            == h.groups[0].suit by {
            assert(h.groups[i].suit == h.groups[0].suit);
        }
    }
}

proof fn lemma_count_absent(fs: Seq<Fu>, k: nat)
    requires
        forall|i: int| 0 <= i < fs.len() ==> kind_of(#[trigger] fs[i]) != k,
    ensures
        count_kind(fs, k) == 0,
    decreases fs.len(),
{
    if fs.len() > 0 {
        assert(kind_of(fs[fs.len() - 1]) != k);
        lemma_count_absent(fs.drop_last(), k);
    }
}

/// A pinfu hand is closed, has no triplet, no kan and no pair worth fu, and is not won on a
/// single wait.
pub proof fn law_pinfu_shape(h: HandView)
    ensures
        h.pinfu() ==> {
            &&& !h.isopen
            &&& h.triplets().len() == 0
            &&& h.kans().len() == 0
            &&& count_fu_pairs(h.pairs(), h.seat, h.prev) == 0
            &&& !h.fu(false).contains(Fu::SingleWait)
        },
{
    if h.pinfu() {
        let fs = h.fu(false);
        assert forall|i: int| 0 <= i < fs.len() implies kind_of(#[trigger] fs[i]) == 0 || kind_of(
            fs[i],
        ) == 2 by {
            assert(fs[i] == Fu::BasePoints || fs[i] == Fu::ClosedRon);
        }
        lemma_count_absent(fs, 4);
        lemma_count_absent(fs, 5);
        lemma_count_absent(fs, 6);
        law_fu_sources(h, false);
        law_value_pair_fu(h, false);
        if fs.contains(Fu::SingleWait) {
            let i = choose|i: int| 0 <= i < fs.len() && fs[i] == Fu::SingleWait;
            assert(kind_of(fs[i]) == 7);
        }
    }
}

proof fn lemma_matching_witness(gs: Seq<TileView>, d: TileView, i: int)
    requires
        0 <= i < gs.len(),
        gs[i].value == d.value && gs[i].suit == d.suit,
    ensures
        crate::hand::model::count_matching(gs, d) >= 1,
    decreases gs.len(),
{
    if i < gs.len() - 1 {
        lemma_matching_witness(gs.drop_last(), d, i);
    }
}

/// The dora tile counts once for every tile of it in the hand's melds and pair: a triplet
/// of it adds at least three, a kan four and a pair two.
pub proof fn law_dora_per_tile(h: HandView, d: TileView)
    ensures
        (exists|i: int|
            0 <= i < h.triplets().len() && #[trigger] h.triplets()[i].value == d.value
                && h.triplets()[i].suit == d.suit) ==> h.dora_for(d) >= 3,
        (exists|i: int|
            0 <= i < h.kans().len() && #[trigger] h.kans()[i].value == d.value && h.kans()[i].suit
                == d.suit) ==> h.dora_for(d) >= 4,
        (exists|i: int|
            0 <= i < h.pairs().len() && #[trigger] h.pairs()[i].value == d.value
                && h.pairs()[i].suit == d.suit) ==> h.dora_for(d) >= 2,
{
    if exists|i: int|
        0 <= i < h.triplets().len() && #[trigger] h.triplets()[i].value == d.value
            && h.triplets()[i].suit == d.suit {
        let i = choose|i: int|
            0 <= i < h.triplets().len() && #[trigger] h.triplets()[i].value == d.value
                && h.triplets()[i].suit == d.suit;
        lemma_matching_witness(h.triplets(), d, i);
    }
    if exists|i: int|
        0 <= i < h.kans().len() && #[trigger] h.kans()[i].value == d.value && h.kans()[i].suit
            == d.suit {
        let i = choose|i: int|
            0 <= i < h.kans().len() && #[trigger] h.kans()[i].value == d.value && h.kans()[i].suit
                == d.suit;
        lemma_matching_witness(h.kans(), d, i);
    }
    if exists|i: int|
        0 <= i < h.pairs().len() && #[trigger] h.pairs()[i].value == d.value && h.pairs()[i].suit
            == d.suit {
        let i = choose|i: int|
            0 <= i < h.pairs().len() && #[trigger] h.pairs()[i].value == d.value
                && h.pairs()[i].suit == d.suit;
        lemma_matching_witness(h.pairs(), d, i);
    }
}

proof fn lemma_count_value_concat(a: Seq<Seq<char>>, b: Seq<Seq<char>>, v: Seq<char>)
    ensures
        count_value(a + b, v) == count_value(a, v) + count_value(b, v),
    decreases b.len(),
{
    if b.len() == 0 {
        assert(a + b =~= a);
    } else {
        assert((a + b).drop_last() =~= a + b.drop_last());
        assert((a + b).last() == b.last());
        lemma_count_value_concat(a, b.drop_last(), v);
    }
}

proof fn lemma_sum_yakuhai_split(gs: Seq<TileView>, seat: TileView, prev: TileView)
    ensures
        sum_yakuhai(gs, seat, prev) == count_suit(gs, Suit::Dragon) + count_value(
            values_of(gs),
            seat.value,
        ) + count_value(values_of(gs), prev.value),
    decreases gs.len(),
{
    if gs.len() > 0 {
        lemma_sum_yakuhai_split(gs.drop_last(), seat, prev);
        assert(values_of(gs).drop_last() =~= values_of(gs.drop_last()));
        assert(values_of(gs).last() == gs.last().value);
    }
}

/// The value-honor han of a hand: one for each dragon triplet or kan, one for each triplet
/// or kan of the seat wind's value and one for each of the prevalent wind's value (so a
/// double wind counts twice).
pub proof fn law_yakuhai_han(h: HandView)
    ensures
        h.yakuhai() == count_suit(h.triplets(), Suit::Dragon) + count_suit(h.kans(), Suit::Dragon)
            + count_value(h.meld_values(), h.seat.value) + count_value(
            h.meld_values(),
            h.prev.value,
        ),
{
    lemma_sum_yakuhai_split(h.triplets(), h.seat, h.prev);
    lemma_sum_yakuhai_split(h.kans(), h.seat, h.prev);
    lemma_count_value_concat(values_of(h.triplets()), values_of(h.kans()), h.seat.value);
    lemma_count_value_concat(values_of(h.triplets()), values_of(h.kans()), h.prev.value);
}

proof fn lemma_kind_absent(fs: Seq<Fu>, k: nat, f: Fu)
    requires
        count_kind(fs, k) == 0,
        kind_of(f) == k,
    ensures
        !fs.contains(f),
    decreases fs.len(),
{
    if fs.len() > 0 {
        lemma_kind_absent(fs.drop_last(), k, f);
        if fs.contains(f) {
            let i = choose|i: int| 0 <= i < fs.len() && fs[i] == f;
            if i < fs.len() - 1 {
                assert(fs.drop_last()[i] == f);
            }
        }
    }
}

/// A hand completed on its pair is won on a single wait, and so is one completed in the
/// middle of its last sequence; a hand completed on a triplet or kan is not.
pub proof fn law_wait_fu(h: HandView, tsumo: bool)
    ensures
        h.last().group_type == GroupType::Pair ==> h.fu(tsumo).contains(Fu::SingleWait),
        (h.last().group_type == GroupType::Sequence && num(h.win) == num(h.last()) + 1)
            ==> h.fu(tsumo).contains(Fu::SingleWait),
        (h.last().group_type == GroupType::Triplet || h.last().group_type == GroupType::Kan)
            ==> !h.fu(tsumo).contains(Fu::SingleWait),
{
    law_fu_sources(h, tsumo);
    let fs = h.fu(tsumo);
    let w = wait_fu(h.last(), h.win);
    if w.len() > 0 {
        lemma_kind_present(fs, 7);
        let j = choose|j: int| 0 <= j < fs.len() && kind_of(#[trigger] fs[j]) == 7;
        assert(fs[j] == Fu::SingleWait);
    } else {
        lemma_kind_absent(fs, 7, Fu::SingleWait);
    }
    if h.last().group_type == GroupType::Sequence && num(h.win) == num(h.last()) + 1 {
        let a = seq![Fu::SingleWait];
        let b = if !h.win.isterminal && h.last().isterminal {
            seq![Fu::SingleWait]
        } else {
            Seq::<Fu>::empty()
        };
        assert(w == a + b);
    }
}

} // verus!
