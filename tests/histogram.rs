use phosphor::exposure::scene_ev100;
use phosphor::histogram::{
    percentile_position, BinPosition, ANALYSIS_PIXELS, HIGH_PERCENT, HISTOGRAM_BINS, LOW_PERCENT,
};

fn value(p: &BinPosition) -> f64 {
    p.bin as f64 + p.overshoot as f64 / p.span as f64
}

#[test]
fn two_filled_bins_put_low_threshold_inside_second() {
    let mut bins = vec![0u32; HISTOGRAM_BINS];
    bins[2] = 50;
    bins[3] = 50;
    let low = percentile_position(&bins, 100, LOW_PERCENT).unwrap();
    assert_eq!(low.bin, 3);
    assert_eq!(low.overshoot, 1000);
    assert_eq!(low.span, 5000);
    assert!((value(&low) - 3.2).abs() < 1e-9);
    let high = percentile_position(&bins, 100, HIGH_PERCENT).unwrap();
    assert_eq!(high, BinPosition { bin: 3, overshoot: 4000, span: 5000 });
    assert!((value(&high) - 3.8).abs() < 1e-9);
}

#[test]
fn first_filled_bin_reaching_threshold_exactly() {
    let mut bins = vec![0u32; HISTOGRAM_BINS];
    bins[10] = 60;
    bins[20] = 40;
    let low = percentile_position(&bins, 100, LOW_PERCENT).unwrap();
    assert_eq!(low, BinPosition { bin: 10, overshoot: 6000, span: 6000 });
    assert!((value(&low) - 11.0).abs() < 1e-9);
    let high = percentile_position(&bins, 100, HIGH_PERCENT).unwrap();
    assert_eq!(high, BinPosition { bin: 20, overshoot: 3000, span: 4000 });
}

#[test]
fn uniform_histogram_percentiles_are_proportional() {
    let per_bin = ANALYSIS_PIXELS / HISTOGRAM_BINS as u32;
    let bins = vec![per_bin; HISTOGRAM_BINS];
    let low = percentile_position(&bins, ANALYSIS_PIXELS, LOW_PERCENT).unwrap();
    let high = percentile_position(&bins, ANALYSIS_PIXELS, HIGH_PERCENT).unwrap();
    assert_eq!(low, BinPosition { bin: 76, overshoot: 163840, span: 204800 });
    assert_eq!(high, BinPosition { bin: 115, overshoot: 40960, span: 204800 });
    assert!((value(&low) - 76.8).abs() < 1e-9);
    assert!((value(&high) - 115.2).abs() < 1e-9);
    assert!((value(&low) - 0.6 * 127.0).abs() <= 1.0);
    assert!((value(&high) - 0.9 * 127.0).abs() <= 1.0);
}

#[test]
fn uniform_single_pixel_bins() {
    let bins = vec![1u32; HISTOGRAM_BINS];
    let low = percentile_position(&bins, 128, LOW_PERCENT).unwrap();
    assert!((value(&low) - 76.8).abs() < 1e-9);
    assert!((value(&low) - 0.6 * 127.0).abs() <= 1.0);
    let high = percentile_position(&bins, 128, HIGH_PERCENT).unwrap();
    assert!((value(&high) - 115.2).abs() < 1e-9);
}

#[test]
fn low_never_above_high() {
    let cases: Vec<Vec<u32>> = vec![
        (0..128).map(|i| i as u32).collect(),
        (0..128).map(|i| 128 - i as u32).collect(),
        (0..128).map(|i| if i % 7 == 0 { 900 } else { 3 }).collect(),
        {
            let mut b = vec![0u32; 128];
            b[64] = 1000;
            b
        },
    ];
    for bins in cases {
        let total: u32 = bins.iter().sum();
        let low = percentile_position(&bins, total, LOW_PERCENT).unwrap();
        let high = percentile_position(&bins, total, HIGH_PERCENT).unwrap();
        assert!(value(&low) <= value(&high));
        assert!(low.span > 0 && low.overshoot <= low.span);
        assert!(high.span > 0 && high.overshoot <= high.span);
    }
}

#[test]
fn percentile_moves_up_with_percent() {
    let bins: Vec<u32> = (0..128).map(|i| (i * 13 % 17) as u32).collect();
    let total: u32 = bins.iter().sum();
    let mut last = -1.0f64;
    for percent in 1..=100u64 {
        let p = percentile_position(&bins, total, percent).unwrap();
        assert!(value(&p) >= last);
        last = value(&p);
    }
}

#[test]
fn empty_population_has_no_percentile() {
    let bins = vec![0u32; HISTOGRAM_BINS];
    assert_eq!(percentile_position(&bins, 0, LOW_PERCENT), None);
    assert_eq!(percentile_position(&[], 100, LOW_PERCENT), None);
}

#[test]
fn unreached_threshold_has_no_percentile() {
    let mut bins = vec![0u32; HISTOGRAM_BINS];
    bins[5] = 59;
    assert_eq!(percentile_position(&bins, 100, LOW_PERCENT), None);
    bins[6] = 1;
    assert_eq!(percentile_position(&bins, 100, LOW_PERCENT).unwrap().bin, 6);
}

#[test]
fn empty_bins_never_divide() {
    let mut bins = vec![0u32; HISTOGRAM_BINS];
    bins[127] = 7;
    let p = percentile_position(&bins, 7, LOW_PERCENT).unwrap();
    assert_eq!(p.bin, 127);
    assert_eq!(p.span, 700);
    assert_eq!(p.overshoot, 420);
}

#[test]
fn largest_counts_do_not_overflow() {
    let bins = vec![u32::MAX; HISTOGRAM_BINS];
    let p = percentile_position(&bins, u32::MAX, HIGH_PERCENT).unwrap();
    assert_eq!(p.bin, 0);
    assert_eq!(p.overshoot, 90 * u32::MAX as u64);
    assert_eq!(p.span, 100 * u32::MAX as u64);
}

#[test]
fn at_bin_is_start_of_bin() {
    assert_eq!(BinPosition::at_bin(127), BinPosition { bin: 127, overshoot: 0, span: 1 });
}

#[test]
fn ev100_of_default_positions() {
    let low = BinPosition::at_bin(0);
    let high = BinPosition::at_bin(127);
    let ev = scene_ev100(&low, &high);
    assert_eq!(ev.numer, 313);
    assert_eq!(ev.denom, 46);
    let reference = ((0.0f64 + 127.0) / 2.0 / 4.6 - 10.0 + 3.0) * 46.0;
    assert!((reference - 313.0).abs() < 1e-9);
}

#[test]
fn ev100_of_measured_positions() {
    let low = BinPosition { bin: 3, overshoot: 1000, span: 5000 };
    let high = BinPosition { bin: 3, overshoot: 4000, span: 5000 };
    let ev = scene_ev100(&low, &high);
    let value = ev.numer as f64 / ev.denom as f64;
    let expected = 3.5 / 4.6 - 7.0;
    assert!((value - expected).abs() < 1e-12);
    assert_eq!(ev.denom, 46 * 5000 * 5000);
}

#[test]
fn exposure_positive_and_finite_over_histogram_range() {
    for lb in [0usize, 1, 60, 127] {
        for hb in [0usize, 64, 127] {
            let low = BinPosition { bin: lb, overshoot: 1, span: 2 };
            let high = BinPosition { bin: hb, overshoot: 2, span: 2 };
            let ev = scene_ev100(&low, &high);
            let ev = ev.numer as f64 / ev.denom as f64;
            assert!(ev >= -7.0 && ev <= 479.0 / 23.0);
            let exposure = 1.0 / (1.2 * 2f32.powf(ev as f32));
            assert!(exposure > 0.0 && exposure.is_finite());
        }
    }
}

