use rand::rngs::ThreadRng;
use rand::Rng;
use vstd::prelude::*;
use crate::tier::{Item, Rarity, Wear};

verus! {

/// Bit pattern of the largest "Factory New" wear value, `0.07`.
pub const FACTORY_NEW_MAX_BITS: u64 = 0x3FB1_EB85_1EB8_51EC;
/// Bit pattern of the largest "Minimal Wear" wear value, `0.15`.
pub const MINIMAL_WEAR_MAX_BITS: u64 = 0x3FC3_3333_3333_3333;
/// Bit pattern of the largest "Field-Tested" wear value, `0.38`.
pub const FIELD_TESTED_MAX_BITS: u64 = 0x3FD8_51EB_851E_B852;
/// Bit pattern of the largest "Well-Worn" wear value, `0.45`.
pub const WELL_WORN_MAX_BITS: u64 = 0x3FDC_CCCC_CCCC_CCCD;
/// Bit pattern of `1.0`, the largest accepted wear value.
pub const ONE_BITS: u64 = 0x3FF0_0000_0000_0000;
/// Bit pattern of the largest percentage drawn as a special item, `0.26`.
pub const SPECIAL_ITEM_MAX_BITS: u64 = 0x3FD0_A3D7_0A3D_70A4;
/// Bit pattern of the largest percentage drawn as covert, `0.90`.
pub const COVERT_MAX_BITS: u64 = 0x3FEC_CCCC_CCCC_CCCD;
/// Bit pattern of the largest percentage drawn as classified, `4.10`.
pub const CLASSIFIED_MAX_BITS: u64 = 0x4010_6666_6666_6666;
/// Bit pattern of the largest percentage drawn as restricted, `20.08`.
pub const RESTRICTED_MAX_BITS: u64 = 0x4034_147A_E147_AE14;
/// Bit pattern of `100.0`, the exclusive upper end of a percentage draw.
pub const HUNDRED_BITS: u64 = 0x4059_0000_0000_0000;

/// The sign bit alone: the pattern of `-0.0`.
pub const SIGN_BIT: u64 = 0x8000_0000_0000_0000;
/// Bit pattern of negative infinity; patterns above it are negative NaNs.
pub const NEG_INFINITY_BITS: u64 = 0xFFF0_0000_0000_0000;

/// Whether the double with pattern `bits` is `<=` the positive finite double
/// with pattern `bound`. With the sign clear, doubles (and NaNs above
/// infinity) order as their patterns do; with it set, every value but a NaN is
/// below any positive bound.
pub open spec fn double_at_most(bits: u64, bound: u64) -> bool {
    if bits < SIGN_BIT {
        bits <= bound
    } else {
        bits <= NEG_INFINITY_BITS
    }
}

fn at_most(bits: u64, bound: u64) -> (r: bool)
    ensures
        r == double_at_most(bits, bound),
{
    if bits < SIGN_BIT {
        bits <= bound
    } else {
        bits <= NEG_INFINITY_BITS
    }
}

/// Whether the double with pattern `bits` lies in the closed interval
/// `[0.0, 1.0]` (either zero counts).
pub open spec fn spec_accepts_wear_sample(bits: u64) -> bool {
    bits <= ONE_BITS || bits == SIGN_BIT
}

/// Whether the double with pattern `bits` lies in `[0.0, 100.0)`.
pub open spec fn is_percentage(bits: u64) -> bool {
    bits < HUNDRED_BITS || bits == SIGN_BIT
}

/// Where a non-negative double sits in the order of doubles: its pattern,
/// with `-0.0` taken as `0.0`.
pub open spec fn order_key(bits: u64) -> u64 {
    if bits == SIGN_BIT {
        0
    } else {
        bits
    }
}

/// The wear table: inclusive upper bounds, tested in order, first match wins.
pub open spec fn wear_of_sample(bits: u64) -> Wear {
    if double_at_most(bits, FACTORY_NEW_MAX_BITS) {
        Wear::FactoryNew
    } else if double_at_most(bits, MINIMAL_WEAR_MAX_BITS) {
        Wear::MinimalWear
    } else if double_at_most(bits, FIELD_TESTED_MAX_BITS) {
        Wear::FieldTested
    } else if double_at_most(bits, WELL_WORN_MAX_BITS) {
        Wear::WellWorn
    } else {
        Wear::BattleScarred
    }
}

/// The rarity table: cumulative inclusive upper bounds on the percentage,
/// tested in ascending order, first match wins.
pub open spec fn rarity_of_percent(bits: u64) -> Rarity {
    if double_at_most(bits, SPECIAL_ITEM_MAX_BITS) {
        Rarity::SpecialItem
    } else if double_at_most(bits, COVERT_MAX_BITS) {
        Rarity::Covert
    } else if double_at_most(bits, CLASSIFIED_MAX_BITS) {
        Rarity::Classified
    } else if double_at_most(bits, RESTRICTED_MAX_BITS) {
        Rarity::Restricted
    } else {
        Rarity::MilSpec
    }
}

/// The interval of accepted wear values that belongs to `w`, over order keys.
pub open spec fn in_wear_band(w: Wear, key: u64) -> bool {
    match w {
        Wear::FactoryNew => key <= FACTORY_NEW_MAX_BITS,
        Wear::MinimalWear => FACTORY_NEW_MAX_BITS < key <= MINIMAL_WEAR_MAX_BITS,
        Wear::FieldTested => MINIMAL_WEAR_MAX_BITS < key <= FIELD_TESTED_MAX_BITS,
        Wear::WellWorn => FIELD_TESTED_MAX_BITS < key <= WELL_WORN_MAX_BITS,
        Wear::BattleScarred => WELL_WORN_MAX_BITS < key <= ONE_BITS,
    }
}

/// The interval of percentages that belongs to `r`, over order keys.
pub open spec fn in_rarity_band(r: Rarity, key: u64) -> bool {
    match r {
        Rarity::SpecialItem => key <= SPECIAL_ITEM_MAX_BITS,
        Rarity::Covert => SPECIAL_ITEM_MAX_BITS < key <= COVERT_MAX_BITS,
        Rarity::Classified => COVERT_MAX_BITS < key <= CLASSIFIED_MAX_BITS,
        Rarity::Restricted => CLASSIFIED_MAX_BITS < key <= RESTRICTED_MAX_BITS,
        Rarity::MilSpec => RESTRICTED_MAX_BITS < key < HUNDRED_BITS,
    }
}

/// Every accepted wear value falls in exactly one of the five wear intervals,
/// and the wear table gives the category of that interval: the intervals
/// cover `[0.0, 1.0]` without gaps or overlaps.
pub proof fn lemma_wear_bands_partition(bits: u64)
    requires
        spec_accepts_wear_sample(bits),
    ensures
        in_wear_band(wear_of_sample(bits), order_key(bits)),
        forall|w: Wear| #[trigger] in_wear_band(w, order_key(bits)) ==> w == wear_of_sample(bits),
{
}

/// Every percentage in `[0.0, 100.0)` falls in exactly one of the five rarity
/// bands, and the rarity table gives the tier of that band: the bands cover
/// the range without gaps or overlaps.
pub proof fn lemma_rarity_bands_partition(bits: u64)
    requires
        is_percentage(bits),
    ensures
        in_rarity_band(rarity_of_percent(bits), order_key(bits)),
        forall|r: Rarity| #[trigger] in_rarity_band(r, order_key(bits)) ==> r == rarity_of_percent(bits),
{
}

/// Whether a normal draw with pattern `bits` is kept by the rejection step:
/// it must lie in `[0.0, 1.0]`.
pub fn accepts_wear_sample(bits: u64) -> (r: bool)
    ensures
        r == spec_accepts_wear_sample(bits),
{
    bits <= ONE_BITS || bits == SIGN_BIT
}

impl Wear {
    /// Wear category of an accepted wear value given by its bit pattern.
    pub fn from_sample_bits(bits: u64) -> (r: Wear)
        ensures
            r == wear_of_sample(bits),
    {
        if at_most(bits, FACTORY_NEW_MAX_BITS) {
            Wear::FactoryNew
        } else if at_most(bits, MINIMAL_WEAR_MAX_BITS) {
            Wear::MinimalWear
        } else if at_most(bits, FIELD_TESTED_MAX_BITS) {
            Wear::FieldTested
        } else if at_most(bits, WELL_WORN_MAX_BITS) {
            Wear::WellWorn
        } else {
            Wear::BattleScarred
        }
    }
}

impl Rarity {
    /// Rarity tier of a percentage draw given by its bit pattern.
    pub fn from_percent_bits(bits: u64) -> (r: Rarity)
        ensures
            r == rarity_of_percent(bits),
    {
        if at_most(bits, SPECIAL_ITEM_MAX_BITS) {
            Rarity::SpecialItem
        } else if at_most(bits, COVERT_MAX_BITS) {
            Rarity::Covert
        } else if at_most(bits, CLASSIFIED_MAX_BITS) {
            Rarity::Classified
        } else if at_most(bits, RESTRICTED_MAX_BITS) {
            Rarity::Restricted
        } else {
            Rarity::MilSpec
        }
    }
}

#[verifier::external_type_specification]
#[verifier::external_body]
pub struct ExThreadRng(ThreadRng);

/// Relies on rand's `Rng::random_range` on the inclusive range `1..=10`: the
/// draw lies in that range. The range is not empty, so the call does not panic.
#[verifier::external_body]
fn roll_one_to_ten(rng: &mut ThreadRng) -> (r: u32)
    ensures
        1 <= r <= 10,
{
    rng.random_range(1..=10u32)
}

/// The bonus flag for a roll of a ten-sided die: set exactly on a one.
pub fn stattrak_from_roll(roll: u32) -> (r: bool)
    ensures
        r == (roll == 1),
{
    roll == 1
}

/// Draws the bonus flag: a uniform roll in `1..=10`, set exactly on a one.
/// Either value can come back, so nothing is promised of it here; what it is
/// for each roll is the contract of `stattrak_from_roll`.
pub fn get_stattrak(rng: &mut ThreadRng) -> (r: bool) {
    let roll = roll_one_to_ten(rng);
    stattrak_from_roll(roll)
}

impl Item {
    /// One item from a percentage draw and an accepted wear value (both as bit
    /// patterns), with its bonus flag drawn independently from `rng`.
    pub fn from_draws(percent_bits: u64, wear_bits: u64, rng: &mut ThreadRng) -> (r: Item)
        ensures
            r.rarity == rarity_of_percent(percent_bits),
            r.wear == wear_of_sample(wear_bits),
    {
        let rarity = Rarity::from_percent_bits(percent_bits);
        let wear = Wear::from_sample_bits(wear_bits);
        let stattrak = get_stattrak(rng);
        Item { rarity, wear, stattrak }
    }
}

} // verus!
