use case_opener::{
    accepts_wear_sample, format_wear_line, get_stattrak, parse_count, stattrak_from_roll,
    Aggregate, Item, Rarity, Wear, CLASSIFIED_MAX_BITS, COVERT_MAX_BITS, FACTORY_NEW_MAX_BITS,
    FIELD_TESTED_MAX_BITS, HUNDRED_BITS, MINIMAL_WEAR_MAX_BITS, ONE_BITS, RESTRICTED_MAX_BITS,
    SPECIAL_ITEM_MAX_BITS, WELL_WORN_MAX_BITS,
};

fn wear(v: f64) -> Wear {
    Wear::from_sample_bits(v.to_bits())
}

fn rarity(p: f64) -> Rarity {
    Rarity::from_percent_bits(p.to_bits())
}

fn next_up(v: f64) -> f64 {
    f64::from_bits(v.to_bits() + 1)
}

fn item(rarity: Rarity, wear: Wear, stattrak: bool) -> Item {
    Item { rarity, wear, stattrak }
}

#[test]
fn threshold_patterns_match_their_doubles() {
    assert_eq!(FACTORY_NEW_MAX_BITS, 0.07f64.to_bits());
    assert_eq!(MINIMAL_WEAR_MAX_BITS, 0.15f64.to_bits());
    assert_eq!(FIELD_TESTED_MAX_BITS, 0.38f64.to_bits());
    assert_eq!(WELL_WORN_MAX_BITS, 0.45f64.to_bits());
    assert_eq!(ONE_BITS, 1.0f64.to_bits());
    assert_eq!(SPECIAL_ITEM_MAX_BITS, 0.26f64.to_bits());
    assert_eq!(COVERT_MAX_BITS, 0.90f64.to_bits());
    assert_eq!(CLASSIFIED_MAX_BITS, 4.10f64.to_bits());
    assert_eq!(RESTRICTED_MAX_BITS, 20.08f64.to_bits());
    assert_eq!(HUNDRED_BITS, 100.0f64.to_bits());
}

#[test]
fn wear_bounds_are_inclusive() {
    assert_eq!(wear(0.0), Wear::FactoryNew);
    assert_eq!(wear(-0.0), Wear::FactoryNew);
    assert_eq!(wear(0.07), Wear::FactoryNew);
    assert_eq!(wear(next_up(0.07)), Wear::MinimalWear);
    assert_eq!(wear(0.15), Wear::MinimalWear);
    assert_eq!(wear(next_up(0.15)), Wear::FieldTested);
    assert_eq!(wear(0.26), Wear::FieldTested);
    assert_eq!(wear(0.38), Wear::FieldTested);
    assert_eq!(wear(next_up(0.38)), Wear::WellWorn);
    assert_eq!(wear(0.45), Wear::WellWorn);
    assert_eq!(wear(next_up(0.45)), Wear::BattleScarred);
    assert_eq!(wear(1.0), Wear::BattleScarred);
}

#[test]
fn wear_mapping_matches_float_comparisons_on_a_grid() {
    for i in 0..=10_000u32 {
        let v = i as f64 / 10_000.0;
        let expected = if v <= 0.07 {
            Wear::FactoryNew
        } else if v <= 0.15 {
            Wear::MinimalWear
        } else if v <= 0.38 {
            Wear::FieldTested
        } else if v <= 0.45 {
            Wear::WellWorn
        } else {
            Wear::BattleScarred
        };
        assert_eq!(wear(v), expected, "{v}");
    }
}

#[test]
fn rejection_keeps_exactly_the_unit_interval() {
    assert!(accepts_wear_sample(0.0f64.to_bits()));
    assert!(accepts_wear_sample((-0.0f64).to_bits()));
    assert!(accepts_wear_sample(0.5f64.to_bits()));
    assert!(accepts_wear_sample(1.0f64.to_bits()));
    assert!(!accepts_wear_sample(next_up(1.0).to_bits()));
    assert!(!accepts_wear_sample((-0.01f64).to_bits()));
    assert!(!accepts_wear_sample(f64::NAN.to_bits()));
    assert!(!accepts_wear_sample(f64::INFINITY.to_bits()));
    assert!(!accepts_wear_sample(f64::NEG_INFINITY.to_bits()));
}

#[test]
fn rarity_bands_are_cumulative_and_inclusive() {
    assert_eq!(rarity(0.0), Rarity::SpecialItem);
    assert_eq!(rarity(0.26), Rarity::SpecialItem);
    assert_eq!(rarity(next_up(0.26)), Rarity::Covert);
    assert_eq!(rarity(0.90), Rarity::Covert);
    assert_eq!(rarity(next_up(0.90)), Rarity::Classified);
    assert_eq!(rarity(4.10), Rarity::Classified);
    assert_eq!(rarity(next_up(4.10)), Rarity::Restricted);
    assert_eq!(rarity(20.08), Rarity::Restricted);
    assert_eq!(rarity(next_up(20.08)), Rarity::MilSpec);
    assert_eq!(rarity(99.99), Rarity::MilSpec);
}

#[test]
fn rarity_mapping_matches_float_comparisons_on_a_grid() {
    for i in 0..100_000u32 {
        let p = i as f64 / 1_000.0;
        let expected = if p <= 0.26 {
            Rarity::SpecialItem
        } else if p <= 0.90 {
            Rarity::Covert
        } else if p <= 4.10 {
            Rarity::Classified
        } else if p <= 20.08 {
            Rarity::Restricted
        } else {
            Rarity::MilSpec
        };
        assert_eq!(rarity(p), expected, "{p}");
    }
}

#[test]
fn bonus_flag_is_set_on_a_one_only() {
    assert!(stattrak_from_roll(1));
    for roll in 2..=10u32 {
        assert!(!stattrak_from_roll(roll));
    }
}

#[test]
fn bonus_flag_frequency_is_near_ten_percent() {
    let mut rng = rand::rng();
    let draws = 200_000u32;
    let mut set = 0u32;
    for _ in 0..draws {
        if get_stattrak(&mut rng) {
            set += 1;
        }
    }
    let freq = set as f64 / draws as f64;
    assert!((0.09..=0.11).contains(&freq), "{freq}");
}

#[test]
fn item_from_draws_maps_both_values() {
    let mut rng = rand::rng();
    let it = Item::from_draws(50.0f64.to_bits(), 0.10f64.to_bits(), &mut rng);
    assert_eq!(it.rarity, Rarity::MilSpec);
    assert_eq!(it.wear, Wear::MinimalWear);
    let it = Item::from_draws(0.5f64.to_bits(), 0.9f64.to_bits(), &mut rng);
    assert_eq!(it.rarity, Rarity::Covert);
    assert_eq!(it.wear, Wear::BattleScarred);
}

#[test]
fn labels() {
    assert_eq!(Rarity::MilSpec.label(), "Mil-Spec (Blue)");
    assert_eq!(Rarity::Restricted.label(), "Restricted (Purple)");
    assert_eq!(Rarity::Classified.label(), "Classified (Pink)");
    assert_eq!(Rarity::Covert.label(), "Covert (Red)");
    assert_eq!(Rarity::SpecialItem.label(), "Rare Special Item (Gold)");
    assert_eq!(Wear::FactoryNew.label(), "Factory New");
    assert_eq!(Wear::MinimalWear.label(), "Minimal Wear");
    assert_eq!(Wear::FieldTested.label(), "Field-Tested");
    assert_eq!(Wear::WellWorn.label(), "Well-Worn");
    assert_eq!(Wear::BattleScarred.label(), "Battle-Scarred");
}

#[test]
fn record_creates_and_grows_buckets() {
    let mut agg = Aggregate::new();
    assert_eq!(agg.get(Rarity::Covert, Wear::WellWorn), None);
    agg.record(&item(Rarity::Covert, Wear::WellWorn, false));
    assert_eq!(agg.get(Rarity::Covert, Wear::WellWorn), Some((1, 0)));
    agg.record(&item(Rarity::Covert, Wear::WellWorn, true));
    assert_eq!(agg.get(Rarity::Covert, Wear::WellWorn), Some((2, 1)));
    assert_eq!(agg.get(Rarity::Covert, Wear::FactoryNew), None);
    assert_eq!(agg.get(Rarity::MilSpec, Wear::WellWorn), None);
    assert_eq!(agg.recorded(), 2);
}

#[test]
fn totals_sum_to_records_and_bonus_never_exceeds_total() {
    let mut rng = rand::rng();
    let mut agg = Aggregate::new();
    let n = 5_000u64;
    for i in 0..n {
        let p = ((i * 37) % 10_000) as f64 / 100.0;
        let v = ((i * 53) % 1_001) as f64 / 1_000.0;
        agg.record(&Item::from_draws(p.to_bits(), v.to_bits(), &mut rng));
    }
    let rarities = [Rarity::MilSpec, Rarity::Restricted, Rarity::Classified, Rarity::Covert, Rarity::SpecialItem];
    let wears = [Wear::FactoryNew, Wear::MinimalWear, Wear::FieldTested, Wear::WellWorn, Wear::BattleScarred];
    let mut sum = 0u64;
    for r in rarities {
        for w in wears {
            if let Some((total, bonus)) = agg.get(r, w) {
                assert!(total >= 1);
                assert!(bonus <= total);
                sum += total;
            }
        }
    }
    assert_eq!(sum, n);
    assert_eq!(agg.recorded(), n);
}

#[test]
fn render_twice_gives_the_same_text() {
    let mut agg = Aggregate::new();
    agg.record(&item(Rarity::Restricted, Wear::FieldTested, true));
    agg.record(&item(Rarity::MilSpec, Wear::MinimalWear, false));
    let first = agg.render();
    let second = agg.render();
    assert_eq!(first, second);
}

#[test]
fn render_orders_rarities_then_wears() {
    let items = [
        item(Rarity::SpecialItem, Wear::BattleScarred, false),
        item(Rarity::MilSpec, Wear::WellWorn, true),
        item(Rarity::Covert, Wear::FactoryNew, false),
        item(Rarity::MilSpec, Wear::FactoryNew, false),
        item(Rarity::MilSpec, Wear::WellWorn, false),
    ];
    let mut forward = Aggregate::new();
    for it in items.iter() {
        forward.record(it);
    }
    let mut backward = Aggregate::new();
    for it in items.iter().rev() {
        backward.record(it);
    }
    let expected = "Mil-Spec (Blue)\n\
        Factory New: 1 (of which StatTrak: 0)\n\
        Well-Worn: 2 (of which StatTrak: 1)\n\
        \n\
        Covert (Red)\n\
        Factory New: 1 (of which StatTrak: 0)\n\
        \n\
        Rare Special Item (Gold)\n\
        Battle-Scarred: 1 (of which StatTrak: 0)\n\
        \n";
    assert_eq!(forward.render(), expected);
    assert_eq!(backward.render(), expected);
}

#[test]
fn zero_items_render_nothing() {
    let agg = Aggregate::new();
    assert_eq!(agg.render(), "");
    assert_eq!(parse_count("0"), Some(0));
}

#[test]
fn one_item_renders_one_block_with_one_line() {
    let mut rng = rand::rng();
    let mut agg = Aggregate::new();
    agg.record(&Item::from_draws(10.0f64.to_bits(), 0.2f64.to_bits(), &mut rng));
    let text = agg.render();
    let lines: Vec<&str> = text.lines().collect();
    assert_eq!(lines.len(), 3);
    assert_eq!(lines[0], "Restricted (Purple)");
    assert!(
        lines[1] == "Field-Tested: 1 (of which StatTrak: 0)"
            || lines[1] == "Field-Tested: 1 (of which StatTrak: 1)"
    );
    assert_eq!(lines[2], "");
}

#[test]
fn count_argument_parsing() {
    assert_eq!(parse_count("abc"), None);
    assert_eq!(parse_count(""), None);
    assert_eq!(parse_count("-"), None);
    assert_eq!(parse_count("+"), None);
    assert_eq!(parse_count(" 5"), None);
    assert_eq!(parse_count("1.5"), None);
    assert_eq!(parse_count("12"), Some(12));
    assert_eq!(parse_count("+7"), Some(7));
    assert_eq!(parse_count("007"), Some(7));
    assert_eq!(parse_count("-3"), Some(0));
    assert_eq!(parse_count("2147483647"), Some(2147483647));
    assert_eq!(parse_count("2147483648"), None);
    assert_eq!(parse_count("-2147483648"), Some(0));
    assert_eq!(parse_count("-2147483649"), None);
}

#[test]
fn counts_are_grouped_by_thousands() {
    assert_eq!(
        format_wear_line(Wear::FieldTested, 1_234_567, 89),
        "Field-Tested: 1,234,567 (of which StatTrak: 89)\n"
    );
    assert_eq!(
        format_wear_line(Wear::FactoryNew, 1_000, 999),
        "Factory New: 1,000 (of which StatTrak: 999)\n"
    );
    assert_eq!(
        format_wear_line(Wear::WellWorn, u64::MAX, 0),
        "Well-Worn: 18,446,744,073,709,551,615 (of which StatTrak: 0)\n"
    );
}

#[test]
fn large_bucket_renders_grouped_counts() {
    let mut agg = Aggregate::new();
    for i in 0..1_234_567u32 {
        agg.record(&item(Rarity::Classified, Wear::BattleScarred, i < 89));
    }
    assert_eq!(
        agg.render(),
        "Classified (Pink)\nBattle-Scarred: 1,234,567 (of which StatTrak: 89)\n\n"
    );
}
