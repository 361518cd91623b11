//! Simulation of opening randomized items: each item gets a rarity tier, a
//! wear category and a bonus flag; the draws are tallied per rarity and wear
//! and rendered as a sorted, thousands-grouped summary.
//!
//! Floating-point draws are handed to this library as IEEE-754 bit patterns
//! (`f64::to_bits`), which order like the numbers they encode for every
//! non-negative value, so every threshold test here is exact.

mod tier;
mod sample;
mod tally;
mod report;
mod count;

pub use tier::{Item, Rarity, Wear};
pub use sample::{
    accepts_wear_sample, get_stattrak, stattrak_from_roll, FACTORY_NEW_MAX_BITS,
    MINIMAL_WEAR_MAX_BITS, FIELD_TESTED_MAX_BITS, WELL_WORN_MAX_BITS, ONE_BITS,
    SPECIAL_ITEM_MAX_BITS, COVERT_MAX_BITS, CLASSIFIED_MAX_BITS, RESTRICTED_MAX_BITS,
    HUNDRED_BITS,
};
pub use tally::Aggregate;
pub use report::format_wear_line;
pub use count::parse_count;
