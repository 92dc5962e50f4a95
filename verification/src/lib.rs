//! Scoring of riichi mahjong hands: tile notation parsing, hand shape
//! validation, yaku detection, fu counting and payment calculation.

pub mod calc;
pub mod chars;
pub mod cli;
pub mod fu;
pub mod hand;
pub mod laws;
pub mod payment;
pub mod score;
pub mod suit;
pub mod tile_group;
pub mod yaku;
