use file_compressor::progress::ProgressState;
use file_compressor::stats::{compression_ratio, CompressionStats};

fn float_ratio_text(source: u64, target: u64) -> String {
    let ratio = 1.0 - (target as f64 / source as f64);
    format!("{:.1}%", ratio * 100.0)
}

#[test]
fn ratio_is_the_exact_fraction() {
    let ratio = compression_ratio(1_000, 250);
    assert_eq!(ratio.numerator(), 750);
    assert_eq!(ratio.denominator(), 1_000);
    assert!(!ratio.is_negative());
    let grown = compression_ratio(1_000, 1_500);
    assert_eq!(grown.numerator(), -500);
    assert_eq!(grown.denominator(), 1_000);
    assert!(grown.is_negative());
    let same = compression_ratio(1_000, 1_000);
    assert_eq!(same.numerator(), 0);
    assert!(!same.is_negative());
    let all = compression_ratio(1_000, 0);
    assert_eq!(all.numerator(), all.denominator() as i128);
}

#[test]
fn ratio_in_thousandths_exact_values() {
    assert_eq!(compression_ratio(1_000, 250).per_mille(), 750);
    assert_eq!(compression_ratio(1_000, 1_000).per_mille(), 0);
    assert_eq!(compression_ratio(1_000, 0).per_mille(), 1_000);
    assert_eq!(compression_ratio(1_000, 1_500).per_mille(), -500);
    assert_eq!(compression_ratio(3, 1).per_mille(), 667);
    assert_eq!(compression_ratio(3, 2).per_mille(), 333);
    assert_eq!(compression_ratio(1, 21).per_mille(), -20_000);
    assert_eq!(compression_ratio(10_485_760, 30_574).per_mille(), 997);
}

#[test]
fn ratio_ties_go_to_even() {
    assert_eq!(compression_ratio(2_000, 1_999).per_mille(), 0);
    assert_eq!(compression_ratio(2_000, 1_997).per_mille(), 2);
    assert_eq!(compression_ratio(2_000, 1_995).per_mille(), 2);
    assert_eq!(compression_ratio(2_000, 2_001).per_mille(), 0);
    assert_eq!(compression_ratio(2_000, 2_003).per_mille(), -2);
    assert_eq!(compression_ratio(2_000, 2_005).per_mille(), -2);
}

#[test]
fn a_slightly_larger_output_has_a_negative_ratio() {
    for (source, target) in [
        (1_000_000u64, 1_000_100u64),
        (2_000, 2_001),
        (40_000, 40_018),
        (u64::MAX - 1, u64::MAX),
        (1, 2),
    ] {
        let ratio = compression_ratio(source, target);
        assert!(ratio.is_negative(), "{} -> {}", source, target);
        assert!(ratio.numerator() < 0);
        assert_eq!(ratio.numerator(), source as i128 - target as i128);
        assert_eq!(ratio.denominator(), source);
        let stats = CompressionStats::new(source, target, 1);
        assert!(stats.compression_ratio().is_negative());
    }
    let small = compression_ratio(1_000_000, 1_000_100);
    assert_eq!(small.per_mille(), 0);
    assert_eq!(file_compressor::report::format_ratio(small), "-0.0%");
    assert_eq!(float_ratio_text(1_000_000, 1_000_100), "-0.0%");
}

#[test]
fn ratio_is_never_more_than_one() {
    let sizes: [u64; 8] = [0, 1, 2, 7, 1_000, 1_048_576, u64::MAX - 1, u64::MAX];
    for source in sizes {
        for target in sizes {
            let ratio = compression_ratio(source, target);
            assert!(ratio.denominator() > 0);
            assert!(ratio.numerator() <= ratio.denominator() as i128, "{} -> {}", source, target);
            assert!(ratio.per_mille() <= 1_000, "{} -> {}", source, target);
            if source > 0 {
                assert_eq!(ratio.is_negative(), target > source, "{} -> {}", source, target);
                assert_eq!(ratio.numerator() == 0, target == source);
            } else {
                assert_eq!(ratio.numerator(), 0);
            }
        }
    }
}

#[test]
fn ratio_of_extreme_sizes() {
    assert_eq!(compression_ratio(u64::MAX, 0).per_mille(), 1_000);
    assert_eq!(compression_ratio(u64::MAX, u64::MAX).per_mille(), 0);
    assert_eq!(
        compression_ratio(1, u64::MAX).per_mille(),
        1_000 - 1_000 * (u64::MAX as i128)
    );
    assert_eq!(compression_ratio(1, u64::MAX).numerator(), 1 - (u64::MAX as i128));
    assert_eq!(compression_ratio(u64::MAX, 1).per_mille(), 1_000);
    assert!(!compression_ratio(u64::MAX, 1).is_negative());
}

#[test]
fn ratio_of_an_empty_source_is_zero() {
    for target in [0u64, 20, u64::MAX] {
        let ratio = compression_ratio(0, target);
        assert_eq!(ratio.numerator(), 0);
        assert_eq!(ratio.denominator(), 1);
        assert_eq!(ratio.per_mille(), 0);
        assert!(!ratio.is_negative());
    }
    let stats = CompressionStats::new(0, 20, 1_000);
    assert_eq!(stats.compression_ratio().per_mille(), 0);
    assert_eq!(file_compressor::report::format_ratio(stats.compression_ratio()), "0.0%");
}

#[test]
fn ratio_agrees_with_the_float_formula() {
    let pairs: [(u64, u64); 16] = [
        (1_000, 250),
        (1_000, 1_500),
        (3, 1),
        (7, 5),
        (10_485_760, 30_574),
        (123_456, 7_890),
        (999, 1),
        (1_048_576, 1_048_000),
        (45, 65),
        (1, 21),
        (1_000_000, 1_000_100),
        (1_000_000, 1_000_001),
        (40_000, 40_018),
        (50_000, 50_023),
        (2_000, 2_001),
        (100_000, 100_060),
    ];
    for (source, target) in pairs {
        let text = file_compressor::report::format_ratio(compression_ratio(source, target));
        assert_eq!(text, float_ratio_text(source, target), "{} -> {}", source, target);
    }
}

#[test]
fn stats_keep_what_they_were_given() {
    let stats = CompressionStats::new(4_096, 1_024, 2_500_000_000);
    assert_eq!(stats.source_size(), 4_096);
    assert_eq!(stats.target_size(), 1_024);
    assert_eq!(stats.elapsed_nanos(), 2_500_000_000);
    assert_eq!(stats.compression_ratio().numerator(), 3_072);
    assert_eq!(stats.compression_ratio().denominator(), 4_096);
    assert_eq!(stats.compression_ratio().per_mille(), 750);
    let copy = stats;
    assert_eq!(copy.compression_ratio().numerator(), stats.compression_ratio().numerator());
}

#[test]
fn progress_only_grows_and_stops_at_the_total() {
    let start = ProgressState::new(10);
    assert_eq!(start.consumed(), 0);
    assert_eq!(start.total(), 10);
    let a = start.advance(4);
    assert_eq!(a.consumed(), 4);
    let b = a.advance(0);
    assert_eq!(b.consumed(), 4);
    let c = b.advance(6);
    assert_eq!(c.consumed(), 10);
    let d = c.advance(1);
    assert_eq!(d.consumed(), 10);
    assert_eq!(d.total(), 10);
    let e = a.advance(usize::MAX);
    assert_eq!(e.consumed(), 10);
}

#[test]
fn progress_of_an_empty_source() {
    let start = ProgressState::new(0);
    assert_eq!(start.advance(5).consumed(), 0);
    let full = ProgressState::new(u64::MAX).advance(usize::MAX).advance(usize::MAX);
    assert!(full.consumed() <= u64::MAX);
    assert!(full.consumed() >= usize::MAX as u64);
}
