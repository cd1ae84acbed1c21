use price_process::PriceGenerator;
use price_process::model::FLOOR_PRICE;
use price_process::model::MAX_PRICE;
use price_process::model::MIN_BASE_VOLUME;

// Prices are micro-units (1_000_000 per currency unit), volatilities and
// draws are parts per million.  100.0 is 100_000_000 micro-units, 0.01 is
// 10_000 ppm, and the 0.01 floor is 10_000 micro-units.

#[test]
fn test_price_generation() {
    let mut generator = PriceGenerator::new(100_000_000, 10_000);

    for _ in 0..100 {
        let (price, volume) = generator.next_price();
        assert!(price > 0);
        assert!(volume > 0);
    }
}

#[test]
fn test_price_stays_positive() {
    let mut generator = PriceGenerator::new(100_000, 500_000);

    for _ in 0..1000 {
        let (price, _) = generator.next_price();
        assert!(price >= 10_000);
    }
}

#[test]
fn random_step_outputs_stay_in_bounds() {
    let mut generator = PriceGenerator::new(250_000_000, 300_000);

    for _ in 0..1000 {
        let (price, volume) = generator.next_price();
        assert!(price >= FLOOR_PRICE);
        assert!(price <= MAX_PRICE);
        assert!(volume >= MIN_BASE_VOLUME);
        assert_eq!(price, generator.current_price());
    }
}

#[test]
fn exact_step_from_fixed_draws() {
    // From 100.0 with volatility 0.01, a full-strength upward draw moves the
    // price by exactly 1% and scales the volume by 1.05.
    let mut generator = PriceGenerator::new(100_000_000, 10_000);
    let (price, volume) = generator.step_with_draws(1_000_000 - 1, 0, 200_000);
    // walk term: (999_999 * 10_000) / 1_000_000 = 9_999 ppm
    assert_eq!(price, 100_999_900);
    // multiplier: 1_000_000 + 10 * 9_999 = 1_099_990 ppm
    assert_eq!(volume, 219_998);
    assert_eq!(generator.current_price(), 100_999_900);
}

#[test]
fn initial_price_reported_before_any_step() {
    let generator = PriceGenerator::new(123_456, 10_000);
    assert_eq!(generator.current_price(), 123_456);
}

#[test]
fn floor_triggers_on_collapse() {
    // Volatility 1.0 and the most negative draw wipe the whole price out;
    // the floor catches it at exactly 0.01.
    let mut generator = PriceGenerator::new(100_000_000, 1_000_000);
    let (price, _) = generator.step_with_draws(-1_000_000, 0, 100_000);
    assert_eq!(price, FLOOR_PRICE);
    // The next step proceeds from the floor with the same dynamics.
    let (price, _) = generator.step_with_draws(-1_000_000, 0, 100_000);
    assert_eq!(price, FLOOR_PRICE);
}

#[test]
fn zero_initial_price_floors_on_first_step() {
    let mut generator = PriceGenerator::new(0, 10_000);
    let (price, _) = generator.step_with_draws(0, 0, 100_000);
    assert_eq!(price, FLOOR_PRICE);
}

#[test]
fn ceiling_saturates_a_runaway_step() {
    let mut generator = PriceGenerator::new(MAX_PRICE, 1_000_000_000_000);
    let (price, _) = generator.step_with_draws(999_999, 0, 100_000);
    assert_eq!(price, MAX_PRICE);
}

#[test]
fn mean_reversion_pulls_back_toward_base() {
    // Knock the price down to half the anchor, then step with silent draws:
    // only the mean-reversion term acts, and it pulls the price upward.
    let mut generator = PriceGenerator::new(100_000_000, 500_000);
    let (price, _) = generator.step_with_draws(-1_000_000, 0, 100_000);
    assert_eq!(price, 50_000_000);
    // gap of 50.0 units: reversion term is 500_000 ppm, a 50% move up
    let (price, _) = generator.step_with_draws(0, 0, 100_000);
    assert_eq!(price, 75_000_000);
    // Above the anchor the pull points down.
    let mut high = PriceGenerator::new(100_000_000, 500_000);
    let (price, _) = high.step_with_draws(999_999, 0, 100_000);
    assert_eq!(price, 149_999_900);
    // A 50-unit gap reads as a 0.5 pull, so the step overshoots the anchor —
    // the pull's direction is downward all the same.
    let (down_price, _) = high.step_with_draws(0, 0, 100_000);
    assert_eq!(down_price, 75_000_099);
}

#[test]
fn new_volatility_governs_the_very_next_step() {
    // The same draw moves the price by 0.5% under the stored volatility and
    // by 25% right after the volatility is raised.
    let mut unchanged = PriceGenerator::new(100_000_000, 10_000);
    let (price, _) = unchanged.step_with_draws(500_000, 0, 200_000);
    assert_eq!(price, 100_500_000);

    let mut raised = PriceGenerator::new(100_000_000, 10_000);
    raised.set_volatility(500_000);
    let (price, _) = raised.step_with_draws(500_000, 0, 200_000);
    assert_eq!(price, 125_000_000);
}

#[test]
fn negative_volatility_mirrors_the_draw() {
    let mut generator = PriceGenerator::new(100_000_000, -10_000);
    let (price, _) = generator.step_with_draws(500_000, 0, 100_000);
    assert_eq!(price, 99_500_000);
}

#[test]
fn volume_grows_with_shock_magnitude() {
    // Same state and base-volume draw; the step with the larger absolute
    // total change reports strictly more volume.
    let mut small = PriceGenerator::new(100_000_000, 10_000);
    let (_, small_volume) = small.step_with_draws(100_000, 0, 500_000);
    // total change 1_000 ppm: multiplier 1_010_000
    assert_eq!(small_volume, 505_000);

    let mut large = PriceGenerator::new(100_000_000, 10_000);
    let (_, large_volume) = large.step_with_draws(900_000, 0, 500_000);
    // total change 9_000 ppm: multiplier 1_090_000
    assert_eq!(large_volume, 545_000);

    assert!(large_volume > small_volume);

    // A news shock alone does the same.
    let mut news = PriceGenerator::new(100_000_000, 10_000);
    let (_, news_volume) = news.step_with_draws(100_000, 40_000, 500_000);
    // total change 41_000 ppm: multiplier 1_410_000
    assert_eq!(news_volume, 705_000);
    assert!(news_volume > small_volume);
}

#[test]
fn volume_scales_from_the_base_draw() {
    // A silent step at the anchor leaves the price alone and reports the
    // base-volume draw unchanged (multiplier exactly 1).
    let mut generator = PriceGenerator::new(100_000_000, 10_000);
    let (price, volume) = generator.step_with_draws(0, 0, 123_456);
    assert_eq!(price, 100_000_000);
    assert_eq!(volume, 123_456);
}
