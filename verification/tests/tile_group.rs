use mahc::hand::error::HandErr;
use mahc::suit::Suit;
use mahc::tile_group::{GroupType, TileGroup};

#[test]
fn non_honor_tilegroup_from_string() {
    let tile = TileGroup::try_from("1m".to_string()).unwrap();
    assert_eq!(tile.suit, Suit::Manzu);
    assert_eq!(tile.value, "1");
    assert!(!tile.isopen);
    assert_eq!(tile.group_type, GroupType::Single);
    assert!(tile.isterminal);

    let tile = TileGroup::try_from("111mo".to_string()).unwrap();
    assert!(tile.isopen);
    assert_eq!(tile.group_type, GroupType::Triplet);
    assert_eq!(tile.suit, Suit::Manzu);

    let tile = TileGroup::try_from("123m".to_string()).unwrap();
    assert_eq!(tile.group_type, GroupType::Sequence);
    assert_eq!(tile.suit, Suit::Manzu);

    let tile = TileGroup::try_from("234m".to_string()).unwrap();
    assert_eq!(tile.group_type, GroupType::Sequence);
    assert_eq!(tile.suit, Suit::Manzu);
    assert!(!tile.isterminal);
}

#[test]
fn wind_tilegroup_from_string() {
    let tile = TileGroup::try_from("1z".to_string()).unwrap();
    assert_eq!(tile.suit, Suit::Wind);
    assert_eq!(tile.value, "E");
    assert!(!tile.isopen);
    assert_eq!(tile.group_type, GroupType::Single);
    assert_eq!(tile.isterminal, false);

    let tile = TileGroup::try_from("222zo".to_string()).unwrap();
    assert!(tile.isopen);
    assert_eq!(tile.group_type, GroupType::Triplet);
    assert_eq!(tile.suit, Suit::Wind);
    assert_eq!(tile.value, "S");

    let tile = TileGroup::try_from("EEEEw".to_string()).unwrap();
    assert!(!tile.isopen);
    assert_eq!(tile.group_type, GroupType::Kan);
    assert_eq!(tile.suit, Suit::Wind);
    assert_eq!(tile.value, "E");
}

#[test]
fn dragon_tilegroup_from_string() {
    let tile = TileGroup::try_from("5z".to_string()).unwrap();
    assert_eq!(tile.suit, Suit::Dragon);
    assert_eq!(tile.value, "w");
    assert!(!tile.isopen);
    assert_eq!(tile.group_type, GroupType::Single);

    let tile = TileGroup::try_from("666zo".to_string()).unwrap();
    assert_eq!(tile.suit, Suit::Dragon);
    assert_eq!(tile.value, "g");
    assert!(tile.isopen);
    assert_eq!(tile.group_type, GroupType::Triplet);

    let tile = TileGroup::try_from("7777z".to_string()).unwrap();
    assert!(!tile.isopen);
    assert_eq!(tile.group_type, GroupType::Kan);
    assert_eq!(tile.suit, Suit::Dragon);
    assert_eq!(tile.value, "r");
}

#[test]
fn no_suit_error_from_string() {
    let tile = TileGroup::try_from("1".to_string());
    assert_eq!(tile, Err(HandErr::InvalidSuit));
}

#[test]
fn no_value_error_from_string() {
    let tile = TileGroup::try_from("m".to_string());
    assert_eq!(tile, Err(HandErr::InvalidGroup));
}

#[test]
fn too_large_error_from_string() {
    let tile = TileGroup::try_from("11111s".to_string());
    assert_eq!(tile, Err(HandErr::InvalidGroup));
}

#[test]
fn invalid_suit_error_from_string() {
    let tile = TileGroup::try_from("999z".to_string());
    assert_eq!(tile, Err(HandErr::InvalidGroup));
}

#[test]
fn is_akadora_from_string() {
    let tile = TileGroup::try_from("0m".to_string()).unwrap();
    assert_eq!(tile.value, "5");
    assert_eq!(tile.isaka, true);
    assert_eq!(tile.group_type, GroupType::Single);

    let tile = TileGroup::try_from("055m".to_string()).unwrap();
    assert_eq!(tile.value, "5");
    assert_eq!(tile.isaka, true);
    assert_eq!(tile.group_type, GroupType::Triplet);

    let tile = TileGroup::try_from("406m".to_string()).unwrap();
    assert_eq!(tile.value, "4");
    assert_eq!(tile.isaka, true);
    assert_eq!(tile.group_type, GroupType::Sequence);
}

#[test]
fn is_not_akadora_from_string() {
    let tile = TileGroup::try_from("1m".to_string()).unwrap();
    assert_eq!(tile.value, "1");
    assert_eq!(tile.isaka, false);
    assert_eq!(tile.group_type, GroupType::Single);
}

#[test]
fn next_dragon() {
    let tile = TileGroup::try_from("wd".to_string()).unwrap();
    let next_tile = tile.next_tile().unwrap();
    assert_eq!(next_tile.value, "g");
    assert_eq!(next_tile.suit, Suit::Dragon);

    let tile = TileGroup::try_from("gd".to_string()).unwrap();
    let next_tile = tile.next_tile().unwrap();
    assert_eq!(next_tile.value, "r");

    let tile = TileGroup::try_from("rd".to_string()).unwrap();
    let next_tile = tile.next_tile().unwrap();
    assert_eq!(next_tile.value, "w");
}
#[test]
fn next_wind() {
    let tile = TileGroup::try_from("Ew".to_string()).unwrap();
    let next_tile = tile.next_tile().unwrap();
    assert_eq!(next_tile.value, "S");
    assert_eq!(next_tile.suit, Suit::Wind);

    let tile = TileGroup::try_from("Sw".to_string()).unwrap();
    let next_tile = tile.next_tile().unwrap();
    assert_eq!(next_tile.value, "W");

    let tile = TileGroup::try_from("Nw".to_string()).unwrap();
    let next_tile = tile.next_tile().unwrap();
    assert_eq!(next_tile.value, "E");
}

#[test]
fn next_manpinsou() {
    let tile = TileGroup::try_from("1m".to_string()).unwrap();
    let next_tile = tile.next_tile().unwrap();
    assert_eq!(next_tile.value, "2");
    assert_eq!(next_tile.suit, Suit::Manzu);

    let tile = TileGroup::try_from("9m".to_string()).unwrap();
    let next_tile = tile.next_tile().unwrap();
    assert_eq!(next_tile.value, "1");

    let tile = TileGroup::try_from("0m".to_string()).unwrap();
    let next_tile = tile.next_tile().unwrap();
    assert_eq!(next_tile.value, "6");
}
