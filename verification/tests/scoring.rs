use mahc::calc::{calculate, calculate_yakuman, get_hand_score, get_yaku_han};
use mahc::calc::{score_computable, CalculatorErrors};
use mahc::cli::{args_computable, flags_check, hand_score, parse_hand, Args};
use mahc::hand::guards::{from_strings_computable, hand_check_computable};
use mahc::fu::{calculate_total_fu_value, Fu};
use mahc::hand::error::HandErr;
use mahc::hand::Hand;
use mahc::payment::Payment;
use mahc::suit::Suit;
use mahc::tile_group::{GroupType, TileGroup};
use mahc::yaku::Yaku;

fn strings(v: &[&str]) -> Vec<String> {
    v.iter().map(|s| s.to_string()).collect()
}

/// A hand request with no round flags set.
fn hand_args(tiles: &[&str], win: &str) -> Args {
    Args {
        tiles: Some(strings(tiles)),
        win: Some(win.to_string()),
        dora: None,
        seat: "Ew".to_string(),
        prev: "Ew".to_string(),
        tsumo: false,
        riichi: false,
        doubleriichi: false,
        ippatsu: false,
        haitei: false,
        rinshan: false,
        chankan: false,
        tenhou: false,
        ba: 0,
        manual: None,
    }
}

fn hand(tiles: &[&str], win: &str, prev: &str, seat: &str) -> Hand {
    Hand::new_from_strings(strings(tiles), win.to_string(), prev.to_string(), seat.to_string())
        .unwrap()
}

#[test]
fn readme_hand_report() {
    let args = hand_args(&["rrrd", "EEEw", "234p", "234p", "11p"], "1p");
    let out = parse_hand(&args).unwrap();
    assert_eq!(
        out,
        "\n7 Han/ 50 Fu\nDealer: 18000 (6000)\nNon-dealer: 12000 (3000/6000)\nYaku: \n  Iipeikou: 1\n  Honitsu: 3\n  Yakuhai: 1\n  Yakuhai: 1\n  Yakuhai: 1\nFu: \n  BasePoints: 20\n  ClosedRon: 10\n  NonSimpleClosedTriplet: 8\n  NonSimpleClosedTriplet: 8\n  SingleWait: 2"
    );
}

#[test]
fn readme_yakuman_report() {
    let mut args = hand_args(&["EEw", "NNw", "SSw", "WWw", "rrd", "wwd", "ggd"], "gd");
    args.dora = Some(strings(&["2"]));
    let score = hand_score(&args).unwrap();
    assert_eq!(score.yaku(), &[Yaku::Tsuuiisou, Yaku::Daichiishin]);
    assert_eq!(score.payment().base_points(), 16000);
    assert_eq!(score.dora_count(), 0);
    let out = parse_hand(&args).unwrap();
    assert_eq!(
        out,
        "\nDealer: 96000 (32000)\nNon-dealer: 64000 (16000/32000)\nYaku: \n  Tsuuiisou Yakuman\n  Daichiishin Yakuman"
    );
}

#[test]
fn open_hand_with_dora_and_honba() {
    let mut args = hand_args(&["123p", "456p", "789p", "rrrdo", "99p"], "9p");
    args.dora = Some(strings(&["3p", "x"]));
    args.ba = 2;
    let score = hand_score(&args).unwrap();
    assert_eq!(score.yaku(), &[Yaku::Honitsu, Yaku::Ittsuu, Yaku::Yakuhai]);
    assert_eq!(score.dora_count(), 1);
    assert_eq!(score.han(), 5);
    assert_eq!(score.fu(), &[Fu::BasePoints, Fu::NonSimpleOpenTriplet, Fu::SingleWait]);
    assert_eq!(score.fu_score(), 30);
    assert_eq!(score.honba(), 2);
    assert!(score.is_open());
    assert_eq!(score.payment().base_points(), 2000);
    assert_eq!(score.payment().dealer_ron(2), 12600);
}

#[test]
fn round_flag_errors() {
    let base = hand_args(&["123p", "456p", "789p", "rrrdo", "99p"], "9p");
    let mut a = hand_args(&[], "9p");
    a.tiles = None;
    assert_eq!(hand_score(&a).unwrap_err(), HandErr::NoHandTiles);
    let mut a = hand_args(&["123p"], "9p");
    a.win = None;
    assert_eq!(hand_score(&a).unwrap_err(), HandErr::NoWinTile);
    let mut a = hand_args(&["123p", "456p", "789p", "rrrdo", "99p"], "9p");
    a.tsumo = true;
    a.chankan = true;
    assert_eq!(hand_score(&a).unwrap_err(), HandErr::ChankanTsumo);
    let mut a = hand_args(&["123p", "456p", "789p", "rrrdo", "99p"], "9p");
    a.rinshan = true;
    assert_eq!(hand_score(&a).unwrap_err(), HandErr::RinshanWithoutTsumo);
    let mut a = hand_args(&["123p", "456p", "789p", "rrrdo", "99p"], "9p");
    a.rinshan = true;
    a.tsumo = true;
    a.ippatsu = true;
    assert_eq!(hand_score(&a).unwrap_err(), HandErr::RinshanIppatsu);
    let mut a = hand_args(&["123p", "456p", "789p", "rrrdo", "99p"], "9p");
    a.riichi = true;
    a.doubleriichi = true;
    assert_eq!(hand_score(&a).unwrap_err(), HandErr::DuplicateRiichi);
    let mut a = hand_args(&["123p", "456p", "789p", "rrrdo", "99p"], "9p");
    a.ippatsu = true;
    assert_eq!(hand_score(&a).unwrap_err(), HandErr::IppatsuWithoutRiichi);
    let mut a = hand_args(&["123p", "456p", "789p", "rrrdo", "99p"], "9p");
    a.doubleriichi = true;
    a.ippatsu = true;
    a.haitei = true;
    assert_eq!(hand_score(&a).unwrap_err(), HandErr::DoubleRiichiHaiteiIppatsu);
    let mut a = hand_args(&["123p", "456p", "789p", "rrrdo", "99p"], "9p");
    a.doubleriichi = true;
    a.haitei = true;
    a.chankan = true;
    assert_eq!(hand_score(&a).unwrap_err(), HandErr::DoubleRiichiHaiteiChankan);
    let mut a = base;
    a.rinshan = true;
    a.tsumo = true;
    assert_eq!(hand_score(&a).unwrap_err(), HandErr::RinshanKanWithoutKan);
}

#[test]
fn hand_errors() {
    let a = hand_args(&["123po", "567m", "22s", "345m", "678s"], "8s");
    assert_eq!(hand_score(&a).unwrap_err(), HandErr::NoYaku);
    let a = hand_args(&["234po", "567m", "22s", "345m", "678s"], "5s");
    assert_eq!(hand_score(&a).unwrap_err(), HandErr::InvalidShape);
    let a = hand_args(&["234po", "567q", "22s", "345m", "678s"], "8s");
    assert_eq!(hand_score(&a).unwrap_err(), HandErr::InvalidSuit);
    let a = hand_args(&["234po", "568m", "22s", "345m", "678s"], "8s");
    assert_eq!(hand_score(&a).unwrap_err(), HandErr::InvalidGroup);
    assert_eq!(parse_hand(&a).unwrap_err(), HandErr::InvalidGroup);
}

#[test]
fn kan_allows_rinshan() {
    let mut a = hand_args(&["2222po", "567m", "22s", "345m", "678s"], "8s");
    a.rinshan = true;
    a.tsumo = true;
    let score = hand_score(&a).unwrap();
    assert_eq!(score.yaku(), &[Yaku::RinshanKaihou, Yaku::Tanyao]);
    assert_eq!(score.han(), 2);
}

#[test]
fn limits_of_the_calculator() {
    assert_eq!(calculate(0, 30).unwrap_err(), HandErr::NoHan);
    assert_eq!(calculate(3, 0).unwrap_err(), HandErr::NoFu);
    assert_eq!(calculate(0, 0).unwrap_err(), HandErr::NoHan);
    assert_eq!(calculate(1, 30).unwrap().base_points(), 240);
    assert_eq!(calculate(2, 25).unwrap().base_points(), 400);
    assert_eq!(calculate(3, 22).unwrap().base_points(), 960);
    assert_eq!(calculate(4, 40).unwrap().base_points(), 2000);
    assert_eq!(calculate(4, 250).unwrap().base_points(), 2000);
    assert_eq!(calculate(5, 20).unwrap().base_points(), 2000);
    assert_eq!(calculate(7, 20).unwrap().base_points(), 3000);
    assert_eq!(calculate(10, 20).unwrap().base_points(), 4000);
    assert_eq!(calculate(12, 20).unwrap().base_points(), 6000);
    assert_eq!(calculate(13, 20).unwrap().base_points(), 8000);
    assert_eq!(calculate(40, 20).unwrap().base_points(), 8000);
    let mut last = 0;
    for han in 1..20 {
        let b = calculate(han, 30).unwrap().base_points();
        assert!(b >= last);
        assert!(b <= 8000);
        last = b;
    }
}

#[test]
fn yakuman_payment() {
    assert_eq!(calculate_yakuman(&vec![Yaku::Riichi, Yaku::Tanyao]).unwrap_err(), HandErr::NoYaku);
    assert_eq!(calculate_yakuman(&vec![]).unwrap_err(), HandErr::NoYaku);
    let p = calculate_yakuman(&vec![Yaku::Daisangen, Yaku::Tsuuiisou]).unwrap();
    assert_eq!(p.base_points(), 16000);
}

#[test]
fn payments_round_up_to_hundreds() {
    let p = Payment::from_han_and_fu(1, 30);
    assert_eq!(p.base_points(), 240);
    assert_eq!(p.dealer_ron(0), 1500);
    assert_eq!(p.dealer_tsumo(0), 500);
    assert_eq!(p.non_dealer_ron(0), 1000);
    assert_eq!(p.non_dealer_tsumo_to_dealer(0), 500);
    assert_eq!(p.non_dealer_tsumo_to_non_dealer(0), 300);
    assert_eq!(p.dealer_ron(1), 1800);
    assert_eq!(p.non_dealer_tsumo_to_non_dealer(1), 400);
    for base in [1u64, 99, 240, 320, 960, 1920, 2000, 8000] {
        let p = Payment::new(base);
        for honba in 0..5u64 {
            for (paid, unrounded) in [
                (p.dealer_ron(honba), base * 6 + 300 * honba),
                (p.dealer_tsumo(honba), base * 2 + 100 * honba),
                (p.non_dealer_ron(honba), base * 4 + 300 * honba),
                (p.non_dealer_tsumo_to_dealer(honba), base * 2 + 100 * honba),
                (p.non_dealer_tsumo_to_non_dealer(honba), base + 100 * honba),
            ] {
                assert_eq!(paid % 100, 0);
                assert!(paid >= unrounded && paid < unrounded + 100);
            }
            assert_eq!(p.dealer_tsumo(honba), p.non_dealer_tsumo_to_dealer(honba));
            assert_eq!(p.dealer_ron(honba + 1), p.dealer_ron(honba) + 300);
            assert_eq!(p.non_dealer_ron(honba + 1), p.non_dealer_ron(honba) + 300);
            assert_eq!(p.dealer_tsumo(honba + 1), p.dealer_tsumo(honba) + 100);
            assert_eq!(
                p.non_dealer_tsumo_to_non_dealer(honba + 1),
                p.non_dealer_tsumo_to_non_dealer(honba) + 100
            );
        }
    }
    assert_eq!(Payment::from_han_and_fu(2, 25).base_points(), 400);
    assert_eq!(Payment::from_han_and_fu(20, 30).base_points(), 30 * (1 << 22));
}

#[test]
fn total_fu_rounds_up() {
    assert_eq!(calculate_total_fu_value(&[]), 0);
    assert_eq!(calculate_total_fu_value(&[Fu::BasePointsChitoi]), 30);
    assert_eq!(calculate_total_fu_value(&[Fu::BasePoints]), 20);
    assert_eq!(calculate_total_fu_value(&[Fu::BasePoints, Fu::Tsumo]), 30);
    assert_eq!(Fu::NonSimpleClosedKan.value(), 32);
    assert_eq!(Fu::SimpleClosedTriplet.to_string(), "ClosedTriplet: 4");
}

#[test]
fn yakuman_hands_list_only_yakuman() {
    let h = hand(&["EEw", "NNw", "SSw", "WWw", "rrd", "wwd", "ggd"], "gd", "Ew", "Ew");
    let (han, yaku) = get_yaku_han(&h, true, false, false, false, false, false, false, false);
    assert_eq!(han, 2);
    assert!(yaku.iter().all(|y| y.is_yakuman()));
    assert!(h.is_daichiishin() && h.is_tsuuiisou() && h.is_chiitoitsu());
    let h = hand(&["123p", "456p", "789p", "rrrdo", "99p"], "9p", "Ew", "Ew");
    let (han, yaku) = get_yaku_han(&h, false, false, false, false, false, false, false, false);
    assert_eq!(han, 4);
    assert!(yaku.iter().all(|y| !y.is_yakuman()));
}

#[test]
fn first_turn_wins() {
    let h = hand(&["123p", "456p", "789p", "rrrd", "99p"], "9p", "Ew", "Ew");
    assert!(h.is_tenhou(true) && !h.is_chiihou(true));
    assert!(!h.is_tenhou(false) && !h.is_chiihou(false));
    let h = hand(&["123p", "456p", "789p", "rrrd", "99p"], "9p", "Ew", "Sw");
    assert!(!h.is_tenhou(true) && h.is_chiihou(true));
    let score = get_hand_score(h, None, true, false, false, false, false, false, false, true, 0)
        .unwrap();
    assert_eq!(score.yaku(), &[Yaku::Chiihou]);
    assert_eq!(score.payment().base_points(), 8000);
}

#[test]
fn seven_pairs_score_twenty_five_fu() {
    let a = hand_args(&["11s", "22p", "33p", "44p", "55p", "66p", "77p"], "7p");
    let score = hand_score(&a).unwrap();
    assert_eq!(score.fu(), &[Fu::BasePointsChitoi]);
    assert_eq!(score.fu_score(), 30);
    assert!(score.yaku().contains(&Yaku::Chiitoitsu));
}

#[test]
fn pinfu_fu() {
    let mut a = hand_args(&["123p", "678p", "345s", "11s", "456m"], "4m");
    let score = hand_score(&a).unwrap();
    assert!(score.yaku().contains(&Yaku::Pinfu));
    assert_eq!(score.fu(), &[Fu::BasePoints, Fu::ClosedRon]);
    a.tsumo = true;
    let score = hand_score(&a).unwrap();
    assert_eq!(score.fu(), &[Fu::BasePoints]);
}

#[test]
fn tile_notation() {
    let t = TileGroup::try_from("rrrrdo".to_string()).unwrap();
    assert_eq!(t.group_type, GroupType::Kan);
    assert_eq!(t.suit, Suit::Dragon);
    assert!(t.isopen);
    assert_eq!(t.group_type.tile_count(), 4);
    assert_eq!(TileGroup::try_from("".to_string()), Err(HandErr::InvalidSuit));
    assert_eq!(TileGroup::try_from("o".to_string()), Err(HandErr::InvalidSuit));
    assert_eq!(TileGroup::try_from("8z".to_string()), Err(HandErr::InvalidGroup));
    assert_eq!(TileGroup::try_from("11x".to_string()), Err(HandErr::InvalidSuit));
    assert_eq!(GroupType::group_type_from_string("123m".to_string()), Ok(GroupType::Sequence));
    assert_eq!(GroupType::group_type_from_string("55o".to_string()), Ok(GroupType::Single));
    assert_eq!(GroupType::group_type_from_string("135m".to_string()), Err(HandErr::InvalidGroup));
    assert_eq!(Suit::suit_from_string("z", "5"), Ok(Suit::Dragon));
    assert_eq!(Suit::suit_from_string("z", "4"), Ok(Suit::Wind));
    assert_eq!(Suit::suit_from_string("z", "8"), Err(HandErr::InvalidGroup));
    assert_eq!(Suit::suit_from_string("x", "1"), Err(HandErr::InvalidSuit));
    assert!(Suit::Wind.is_honor_suit() && !Suit::Pinzu.is_honor_suit());
}

#[test]
fn group_values_read_as_numbers() {
    let t = TileGroup::try_from("789s".to_string()).unwrap();
    assert_eq!(t.parse_u8().unwrap(), 7);
    let t = TileGroup::try_from("Ew".to_string()).unwrap();
    assert!(t.parse_u8().is_err());
}

#[test]
fn next_tiles_cycle() {
    let mut t = TileGroup::try_from("Ew".to_string()).unwrap();
    for _ in 0..4 {
        t = t.next_tile().unwrap();
    }
    assert_eq!(t.value, "E");
    let mut t = TileGroup::try_from("gd".to_string()).unwrap();
    for _ in 0..3 {
        t = t.next_tile().unwrap();
    }
    assert_eq!(t.value, "g");
    let mut t = TileGroup::try_from("3s".to_string()).unwrap();
    for _ in 0..9 {
        t = t.next_tile().unwrap();
    }
    assert_eq!(t.value, "3");
    assert_eq!(t.suit, Suit::Souzu);
}

#[test]
fn error_messages() {
    assert_eq!(HandErr::NoYaku.to_string(), "No Yaku");
    assert_eq!(HandErr::NoHan.to_string(), "No Han provided!");
    assert_eq!(Yaku::Chinitsu.to_string(true), "Chinitsu: 5");
    assert_eq!(Yaku::Chinitsu.to_string(false), "Chinitsu: 6");
}

#[test]
fn scoring_guards() {
    let a = hand_args(&["rrrd", "EEEw", "234p", "234p", "11p"], "1p");
    assert!(args_computable(&a));
    assert_eq!(flags_check(&a), Ok(()));
    let mut b = hand_args(&["rrrd", "EEEw", "234p", "234p", "11p"], "1p");
    b.dora = Some(strings(&["Em"]));
    assert!(!args_computable(&b));
    b.riichi = true;
    b.doubleriichi = true;
    assert_eq!(flags_check(&b), Err(HandErr::DuplicateRiichi));
    assert!(args_computable(&b));
    let c = hand_args(&["rrrd", "EEEw", "234p", "EEEm", "11p"], "1p");
    assert!(args_computable(&c));
    let mut d = hand_args(&["rrrd", "EEEw", "234p", "EEEm", "11p"], "1p");
    d.dora = Some(strings(&["Dm"]));
    assert!(args_computable(&d));
    d.dora = Some(strings(&["Wm"]));
    assert!(!args_computable(&d));

    let h = hand(&["rrrd", "EEEw", "234p", "234p", "11p"], "1p", "Ew", "Ew");
    assert!(h.fu_computable());
    assert!(h.yaku_computable());
    assert_eq!(h.checked_dora_count(&None), Some(0));
    let inds = Some(vec![TileGroup::try_from("1p".to_string()).unwrap()]);
    assert_eq!(h.checked_dora_count(&inds), Some(2));
    let bad = Some(vec![TileGroup::try_from("Sm".to_string()).unwrap()]);
    assert_eq!(h.checked_dora_count(&bad), None);
    assert!(score_computable(&h, &inds, false, false, false, false, false, false, false, false));
    assert!(!score_computable(&h, &bad, false, false, false, false, false, false, false, false));

    let groups: Vec<TileGroup> = ["123p", "456p", "789p", "rrrd", "99p"]
        .iter()
        .map(|s| TileGroup::try_from(s.to_string()).unwrap())
        .collect();
    let win = TileGroup::try_from("9p".to_string()).unwrap();
    assert!(hand_check_computable(&groups, &win));
    let groups: Vec<TileGroup> = ["rrrd", "EEEw", "99p", "234p", "EEEm"]
        .iter()
        .map(|s| TileGroup::try_from(s.to_string()).unwrap())
        .collect();
    assert!(hand_check_computable(&groups, &TileGroup::try_from("Em".to_string()).unwrap()));
    let groups: Vec<TileGroup> = ["rrrd", "EEEw", "99p", "EEEm", "EFGm"]
        .iter()
        .map(|s| TileGroup::try_from(s.to_string()).unwrap_or_else(|_| {
            TileGroup::try_from("234m".to_string()).unwrap()
        }))
        .collect();
    assert!(!hand_check_computable(&groups, &TileGroup::try_from("Nm".to_string()).unwrap()));
    assert!(from_strings_computable(
        &strings(&["123p", "456p", "789p", "rrrd", "99p"]),
        &"9p".to_string(),
        &"Ew".to_string(),
        &"Ew".to_string(),
    ));
    assert!(!from_strings_computable(
        &strings(&["123p", "456p", "rrrd", "99p", "234p"]),
        &"Ep".to_string(),
        &"Ew".to_string(),
        &"Ew".to_string(),
    ));
    assert!(Payment::new(8000).payments_computable(1000));
    assert!(!Payment::new(8000).payments_computable(u64::MAX / 100));
    assert!(!Payment::new(u64::MAX / 2).payments_computable(0));
}

#[test]
fn calculator_error_messages() {
    assert_eq!(CalculatorErrors::NoHan.to_string(), "No han provided!");
    assert_eq!(CalculatorErrors::NoFu.to_string(), "No fu provided!");
    assert_eq!(CalculatorErrors::NoYaku.to_string(), "No Yaku!");
}

#[test]
fn next_tile_of_seven_sou() {
    let tile: TileGroup = "7s".to_string().try_into().unwrap();
    let input = tile.next_tile().unwrap();
    assert_eq!(input.value, "8");
    assert_eq!(input.suit, Suit::Souzu);
}

#[test]
fn payments_grow_with_base() {
    let bases = [0u64, 1, 99, 100, 240, 1920, 2000, 3000, 8000];
    for w in bases.windows(2) {
        let (a, b) = (Payment::new(w[0]), Payment::new(w[1]));
        for honba in 0..3u64 {
            assert!(a.dealer_ron(honba) <= b.dealer_ron(honba));
            assert!(a.dealer_tsumo(honba) <= b.dealer_tsumo(honba));
            assert!(a.non_dealer_ron(honba) <= b.non_dealer_ron(honba));
            assert!(a.non_dealer_tsumo_to_dealer(honba) <= b.non_dealer_tsumo_to_dealer(honba));
            assert!(
                a.non_dealer_tsumo_to_non_dealer(honba) <= b.non_dealer_tsumo_to_non_dealer(honba)
            );
        }
    }
}

#[test]
fn seven_pairs_must_differ() {
    let h = hand(&["SSw", "rrd", "ggd", "wwd", "NNw", "SSw", "EEw"], "Ew", "Ew", "Ww");
    assert!(!h.is_chiitoitsu());
    assert!(h.is_daichiishin());
    let h = hand(&["SSw", "rrd", "ggd", "wwd", "NNw", "SSp", "EEw"], "Ew", "Ew", "Ww");
    assert!(h.is_chiitoitsu());
}

#[test]
fn little_four_winds_needs_a_wind_pair() {
    let a = hand(&["EEEEw", "SSw", "WWWw", "NNNw", "999s"], "9s", "Ew", "Ww");
    let b = hand(&["EEEEw", "SSSw", "WWWw", "NNNw", "99s"], "9s", "Ew", "Ww");
    assert!(a.is_shousuushii());
    assert!(!b.is_shousuushii());
    assert!(b.is_daisuushii());
    let c = hand(&["EEw", "NNw", "SSw", "WWw", "rrd", "wwd", "ggd"], "gd", "Ew", "Ew");
    assert!(!c.is_shousuushii());
}

#[test]
fn nine_gates_however_grouped() {
    let h = hand(&["11s", "123s", "456s", "789s", "999s"], "9s", "Ew", "Ww");
    assert!(h.is_chuurenpoutou());
    assert!(h.is_chuurenpoutou9sided());
    let h = hand(&["111m", "234m", "567m", "999m", "88m"], "8m", "Ew", "Ww");
    assert!(h.is_chuurenpoutou());
    assert!(h.is_chuurenpoutou9sided());
    let h = hand(&["111m", "234m", "567m", "88p", "999m"], "9m", "Ew", "Ww");
    assert!(!h.is_chuurenpoutou());
    let h = hand(&["111mo", "234m", "567m", "88m", "999m"], "9m", "Ew", "Ww");
    assert!(h.is_chuurenpoutou());
    let h = hand(&["111m", "234m", "567m", "99m", "999m"], "9m", "Ew", "Ww");
    assert!(!h.is_chuurenpoutou());
}

#[test]
fn yaku_list_counts() {
    let h = hand(&["rrrd", "EEEw", "234p", "234p", "11p"], "1p", "Ew", "Ew");
    let (han, yaku) = get_yaku_han(&h, true, false, false, false, false, false, false, false);
    assert_eq!(yaku.iter().filter(|y| **y == Yaku::Riichi).count(), 1);
    assert_eq!(yaku.iter().filter(|y| **y == Yaku::Yakuhai).count(), h.is_yakuhai() as usize);
    assert_eq!(han, yaku.iter().map(|y| y.get_han(h.is_open())).sum::<u32>());
    let (_, yaku) = get_yaku_han(&h, false, false, false, false, false, false, false, false);
    assert!(!yaku.contains(&Yaku::Riichi));
}

#[test]
fn fu_sources_per_group() {
    let h = hand(&["rrrdo", "5555mo", "11s", "8888s", "789m"], "7m", "Ew", "Ww");
    let fu = h.calculate_fu(true);
    assert_eq!(fu[0], Fu::BasePoints);
    assert_eq!(fu.iter().filter(|f| **f == Fu::Tsumo).count(), 1);
    assert!(!fu.contains(&Fu::ClosedRon));
    let kans = fu
        .iter()
        .filter(|f| {
            matches!(
                f,
                Fu::SimpleOpenKan | Fu::NonSimpleOpenKan | Fu::SimpleClosedKan | Fu::NonSimpleClosedKan
            )
        })
        .count();
    assert_eq!(kans, h.kans().len());
    let fu = h.calculate_fu(false);
    assert!(!fu.contains(&Fu::Tsumo));
}

#[test]
fn yakuman_names_say_yakuman() {
    let all = [
        Yaku::Tanyao, Yaku::Iipeikou, Yaku::Yakuhai, Yaku::MenzenTsumo, Yaku::Pinfu,
        Yaku::Riichi, Yaku::Ippatsu, Yaku::Haitei, Yaku::RinshanKaihou, Yaku::Chankan,
        Yaku::DoubleRiichi, Yaku::Toitoi, Yaku::Ittsuu, Yaku::SanshokuDoujun, Yaku::Chantaiyao,
        Yaku::Sanankou, Yaku::SanshokuDoukou, Yaku::Sankantsu, Yaku::Honroutou,
        Yaku::Shousangen, Yaku::Chiitoitsu, Yaku::Honitsu, Yaku::JunchanTaiyao,
        Yaku::Ryanpeikou, Yaku::Chinitsu, Yaku::KazoeYakuman, Yaku::KokushiMusou,
        Yaku::KokushiMusou13SidedWait, Yaku::Suuankou, Yaku::SuuankouTankiWait,
        Yaku::Daisangen, Yaku::Shousuushii, Yaku::Daisuushii, Yaku::Tsuuiisou,
        Yaku::Daichiishin, Yaku::Chinroutou, Yaku::Ryuuiisou, Yaku::ChuurenPoutou,
        Yaku::ChuurenPoutou9SidedWait, Yaku::Suukantsu, Yaku::Tenhou, Yaku::Chiihou,
    ];
    for y in all {
        for open in [false, true] {
            assert_eq!(y.is_yakuman(), y.to_string(open).contains("Yakuman"));
        }
    }
}
