use mahc::cli::{parse_calculator, Args};
use mahc::hand::error::HandErr;

/// A calculator request for the given han, fu and honba, with the defaults of the
/// command line for everything else.
fn calc_args(han: u32, fu: u32, ba: u64) -> Args {
    Args {
        tiles: None,
        win: None,
        dora: None,
        seat: "Ew".to_string(),
        prev: "Ew".to_string(),
        tsumo: false,
        riichi: false,
        doubleriichi: false,
        ippatsu: false,
        haitei: false,
        rinshan: false,
        chankan: false,
        tenhou: false,
        ba,
        manual: Some(vec![han, fu]),
    }
}

#[test]
fn no_han_for_calc() {
    let args = calc_args(0, 30, 3);
    let out = parse_calculator(&args);
    assert_eq!(out.unwrap_err(), HandErr::NoHan);
}

#[test]
fn no_fu_for_calc() {
    let args = calc_args(4, 0, 3);
    let out = parse_calculator(&args);
    assert_eq!(out.unwrap_err(), HandErr::NoFu);
}

#[test]
fn valid_calc_input() {
    let args = calc_args(4, 30, 3);
    let out = parse_calculator(&args);
    assert_eq!(
        out.unwrap(),
        ("\n4 Han/ 30 Fu/ 3 Honba\nDealer: 12500 (4200)\nnon-dealer: 8600 (2300/4200)"
            .to_string())
    );
}
#[test]
fn han_1_fu_30_calc() {
    let args = calc_args(1, 30, 0);
    let out = parse_calculator(&args);
    assert_eq!(
        out.unwrap(),
        ("\n1 Han/ 30 Fu\nDealer: 1500 (500)\nnon-dealer: 1000 (300/500)".to_string())
    );
}
#[test]
fn han_2_fu_80_calc() {
    let args = calc_args(2, 80, 0);
    let out = parse_calculator(&args);
    assert_eq!(
        out.unwrap(),
        ("\n2 Han/ 80 Fu\nDealer: 7700 (2600)\nnon-dealer: 5200 (1300/2600)".to_string())
    );
}
#[test]
fn han_3_mangan_calc() {
    let args = calc_args(3, 70, 3);
    let out = parse_calculator(&args);
    assert_eq!(
        out.unwrap(),
        ("\n3 Han/ 70 Fu/ 3 Honba\nDealer: 12900 (4300)\nnon-dealer: 8900 (2300/4300)"
            .to_string())
    );
}
#[test]
fn han_4_mangan_calc() {
    let args = calc_args(4, 60, 3);
    let out = parse_calculator(&args);
    assert_eq!(
        out.unwrap(),
        ("\n4 Han/ 60 Fu/ 3 Honba\nDealer: 12900 (4300)\nnon-dealer: 8900 (2300/4300)"
            .to_string())
    );
}
#[test]
fn han_5_mangan_calc() {
    let args = calc_args(5, 70, 3);
    let out = parse_calculator(&args);
    assert_eq!(
        out.unwrap(),
        ("\n5 Han/ 70 Fu/ 3 Honba\nDealer: 12900 (4300)\nnon-dealer: 8900 (2300/4300)"
            .to_string())
    );
}
#[test]
fn haneman_calc() {
    let args = calc_args(6, 70, 3);
    let out = parse_calculator(&args);
    assert_eq!(
        out.unwrap(),
        ("\n6 Han/ 70 Fu/ 3 Honba\nDealer: 18900 (6300)\nnon-dealer: 12900 (3300/6300)"
            .to_string())
    );
    let args = calc_args(7, 70, 3);
    let out = parse_calculator(&args);
    assert_eq!(
        out.unwrap(),
        ("\n7 Han/ 70 Fu/ 3 Honba\nDealer: 18900 (6300)\nnon-dealer: 12900 (3300/6300)"
            .to_string())
    );
}
#[test]
fn baiman_calc() {
    let args = calc_args(8, 70, 3);
    let out = parse_calculator(&args);
    assert_eq!(
        out.unwrap(),
        ("\n8 Han/ 70 Fu/ 3 Honba\nDealer: 24900 (8300)\nnon-dealer: 16900 (4300/8300)"
            .to_string())
    );
    let args = calc_args(9, 70, 3);
    let out = parse_calculator(&args);
    assert_eq!(
        out.unwrap(),
        ("\n9 Han/ 70 Fu/ 3 Honba\nDealer: 24900 (8300)\nnon-dealer: 16900 (4300/8300)"
            .to_string())
    );
    let args = calc_args(10, 70, 3);
    let out = parse_calculator(&args);
    assert_eq!(
        out.unwrap(),
        ("\n10 Han/ 70 Fu/ 3 Honba\nDealer: 24900 (8300)\nnon-dealer: 16900 (4300/8300)"
            .to_string())
    );
}
#[test]
fn sanbaiman_calc() {
    let args = calc_args(11, 70, 3);
    let out = parse_calculator(&args);
    assert_eq!(
        out.unwrap(),
        ("\n11 Han/ 70 Fu/ 3 Honba\nDealer: 36900 (12300)\nnon-dealer: 24900 (6300/12300)"
            .to_string())
    );
    let args = calc_args(12, 70, 3);
    let out = parse_calculator(&args);
    assert_eq!(
        out.unwrap(),
        ("\n12 Han/ 70 Fu/ 3 Honba\nDealer: 36900 (12300)\nnon-dealer: 24900 (6300/12300)"
            .to_string())
    );
}
#[test]
fn kazoeyakuman_calc() {
    let args = calc_args(13, 70, 3);
    let out = parse_calculator(&args);
    assert_eq!(
        out.unwrap(),
        ("\n13 Han/ 70 Fu/ 3 Honba\nDealer: 48900 (16300)\nnon-dealer: 32900 (8300/16300)"
            .to_string())
    );
}
