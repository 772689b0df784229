use tauri_plugin_tts::rate::{
    interpolate, normalize, RateBounds, FASTEST_MAPPED_RATE, SLOWEST_MAPPED_RATE,
};

const HALF_CENTRED: RateBounds = RateBounds { min: 0, normal: 500, max: 1000 };
const AROUND_ZERO: RateBounds = RateBounds { min: -100_000, normal: 0, max: 100_000 };
const LOW_NORMAL: RateBounds = RateBounds { min: 100, normal: 500, max: 2000 };
const WORDS_PER_MINUTE: RateBounds = RateBounds { min: 10_000, normal: 175_000, max: 500_000 };

#[test]
fn normal_rate_maps_to_the_engines_normal_rate() {
    for bounds in [
        HALF_CENTRED,
        AROUND_ZERO,
        LOW_NORMAL,
        WORDS_PER_MINUTE,
        RateBounds { min: 7, normal: 7, max: 7 },
        RateBounds { min: 0, normal: 1, max: 2 },
        RateBounds { min: 900, normal: -3, max: 12 },
        RateBounds { min: i64::MIN, normal: 0, max: i64::MAX },
        RateBounds { min: i64::MAX, normal: i64::MIN, max: i64::MAX },
        RateBounds { min: i64::MIN, normal: i64::MAX, max: i64::MIN },
    ] {
        assert_eq!(normalize(bounds, 1000), bounds.normal, "{bounds:?}");
    }
}

#[test]
fn slower_than_normal_is_spread_between_slowest_and_normal() {
    // 800 lies 550 of 750 steps above the slowest mapped rate:
    // 0 + 550 * (500 - 0) / 750 = 366.67, rounded down.
    assert_eq!(normalize(HALF_CENTRED, 800), 366);
    assert_eq!(normalize(HALF_CENTRED, 625), 250);
    assert_eq!(normalize(HALF_CENTRED, 500), 166);
    assert_eq!(normalize(AROUND_ZERO, 625), -50_000);
    assert_eq!(normalize(LOW_NORMAL, 625), 300);
    assert_eq!(normalize(WORDS_PER_MINUTE, 700), 109_000);
}

#[test]
fn faster_than_normal_is_spread_between_normal_and_fastest() {
    assert_eq!(normalize(HALF_CENTRED, 2500), 750);
    assert_eq!(normalize(HALF_CENTRED, 2000), 666);
    assert_eq!(normalize(HALF_CENTRED, 1003), 500);
    assert_eq!(normalize(HALF_CENTRED, 1006), 501);
    assert_eq!(normalize(AROUND_ZERO, 2500), 50_000);
    assert_eq!(normalize(LOW_NORMAL, 3000), 1500);
    assert_eq!(normalize(WORDS_PER_MINUTE, 1300), 207_500);
}

#[test]
fn the_ends_of_the_scale_map_to_the_ends_of_the_engines_scale() {
    assert_eq!(SLOWEST_MAPPED_RATE, 250);
    assert_eq!(FASTEST_MAPPED_RATE, 4000);
    for bounds in [HALF_CENTRED, AROUND_ZERO, LOW_NORMAL, WORDS_PER_MINUTE] {
        assert_eq!(normalize(bounds, 250), bounds.min);
        assert_eq!(normalize(bounds, 100), bounds.min);
        assert_eq!(normalize(bounds, 0), bounds.min);
        assert_eq!(normalize(bounds, -40), bounds.min);
        assert_eq!(normalize(bounds, i64::MIN), bounds.min);
        assert_eq!(normalize(bounds, 4000), bounds.max);
        assert_eq!(normalize(bounds, 4001), bounds.max);
        assert_eq!(normalize(bounds, i64::MAX), bounds.max);
    }
}

#[test]
fn normalized_rate_never_leaves_the_engines_range_and_never_falls_as_the_rate_rises() {
    for bounds in [HALF_CENTRED, AROUND_ZERO, LOW_NORMAL, WORDS_PER_MINUTE] {
        let mut last = bounds.min;
        for rate in 0..=4100 {
            let native = normalize(bounds, rate);
            assert!(bounds.min <= native && native <= bounds.max);
            assert!(last <= native);
            if rate <= 1000 {
                assert!(native <= bounds.normal);
            } else {
                assert!(native >= bounds.normal);
            }
            last = native;
        }
    }
}

#[test]
fn results_between_two_thousandths_are_rounded_down() {
    // 1/3 of the way from 0 to 1 is 0.33: down to 0.
    assert_eq!(normalize(RateBounds { min: 0, normal: 1, max: 2 }, 500), 0);
    // 1/3 of the way from 0 to -1 is -0.33: down to -1.
    assert_eq!(normalize(RateBounds { min: 0, normal: -1, max: 2 }, 500), -1);
    assert_eq!(normalize(RateBounds { min: 0, normal: -1, max: 2 }, 999), -1);
    assert_eq!(normalize(RateBounds { min: 0, normal: -1, max: 2 }, 250), 0);
    // 1/3000 of the way from 10 down to 0 is 9.997: down to 9.
    assert_eq!(normalize(RateBounds { min: 20, normal: 10, max: 0 }, 1001), 9);
    assert_eq!(interpolate(0, -7, 1, 2), -4);
    assert_eq!(interpolate(0, 7, 1, 2), 3);
}

#[test]
fn interpolate_walks_from_one_end_to_the_other() {
    assert_eq!(interpolate(10, 20, 0, 5), 10);
    assert_eq!(interpolate(10, 20, 5, 5), 20);
    assert_eq!(interpolate(10, 20, 2, 5), 14);
    assert_eq!(interpolate(20, 10, 2, 5), 16);
    assert_eq!(interpolate(-5, -5, 3, 5), -5);
    assert_eq!(interpolate(3, 9, 1, 1), 9);
}

#[test]
fn the_widest_engine_ranges_do_not_overflow() {
    let widest = RateBounds { min: i64::MIN, normal: 0, max: i64::MAX };
    assert_eq!(normalize(widest, 250), i64::MIN);
    assert_eq!(normalize(widest, 625), i64::MIN / 2);
    assert_eq!(normalize(widest, 4000), i64::MAX);
    assert_eq!(normalize(widest, 2500), i64::MAX / 2);
    assert_eq!(interpolate(i64::MIN, i64::MAX, i64::MAX, i64::MAX), i64::MAX);
    assert_eq!(interpolate(i64::MAX, i64::MIN, i64::MAX, i64::MAX), i64::MIN);
    assert_eq!(interpolate(i64::MAX, i64::MIN, 0, i64::MAX), i64::MAX);
    assert_eq!(interpolate(i64::MIN, i64::MAX, 1, 2), -1);
}
