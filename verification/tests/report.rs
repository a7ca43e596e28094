use file_compressor::report::{
    format_elapsed, format_megabytes, format_ratio, format_stats, report_lines,
};
use file_compressor::stats::{compression_ratio, CompressionStats};
use std::time::Duration;

fn std_megabytes(bytes: u64) -> String {
    format!("{:.2} MB", bytes as f64 / 1_048_576.0)
}

fn std_elapsed(nanos: u128) -> String {
    let secs = (nanos / 1_000_000_000) as u64;
    let sub = (nanos % 1_000_000_000) as u32;
    format!("{:.2?}", Duration::new(secs, sub))
}

#[test]
fn megabytes_exact_values() {
    assert_eq!(format_megabytes(0), "0.00 MB");
    assert_eq!(format_megabytes(1_048_576), "1.00 MB");
    assert_eq!(format_megabytes(1_572_864), "1.50 MB");
    assert_eq!(format_megabytes(10 * 1_048_576), "10.00 MB");
    assert_eq!(format_megabytes(5_242), "0.00 MB");
    assert_eq!(format_megabytes(5_243), "0.01 MB");
    assert_eq!(format_megabytes(123_456_789), "117.74 MB");
}

#[test]
fn megabytes_ties_go_to_even() {
    // 65536 bytes are exactly 0.0625 MB, 196608 bytes exactly 0.1875 MB.
    assert_eq!(format_megabytes(65_536), "0.06 MB");
    assert_eq!(format_megabytes(196_608), "0.19 MB");
    assert_eq!(format_megabytes(327_680), "0.31 MB");
    assert_eq!(format_megabytes(458_752), "0.44 MB");
}

#[test]
fn megabytes_agree_with_float_formatting() {
    let samples: [u64; 16] = [
        0,
        1,
        5_242,
        5_243,
        65_536,
        196_608,
        327_680,
        1_048_575,
        1_048_576,
        1_053_818,
        1_053_819,
        10_485_760,
        123_456_789,
        4_294_967_295,
        4_294_967_296,
        9_007_199_254_740_991,
    ];
    for bytes in samples {
        assert_eq!(format_megabytes(bytes), std_megabytes(bytes), "for {} bytes", bytes);
    }
    let mut bytes: u64 = 7;
    for _ in 0..2000 {
        assert_eq!(format_megabytes(bytes), std_megabytes(bytes), "for {} bytes", bytes);
        bytes = (bytes.wrapping_mul(6_364_136_223_846_793_005).wrapping_add(1_442_695_040_888_963_407))
            % 9_007_199_254_740_992;
    }
}

#[test]
fn megabytes_of_the_largest_size() {
    assert_eq!(format_megabytes(u64::MAX), "17592186044416.00 MB");
}

#[test]
fn ratio_text_exact_values() {
    assert_eq!(format_ratio(compression_ratio(1_000, 1_000)), "0.0%");
    assert_eq!(format_ratio(compression_ratio(1_000, 995)), "0.5%");
    assert_eq!(format_ratio(compression_ratio(1_000, 625)), "37.5%");
    assert_eq!(format_ratio(compression_ratio(1_000, 0)), "100.0%");
    assert_eq!(format_ratio(compression_ratio(1_000, 1_120)), "-12.0%");
    assert_eq!(format_ratio(compression_ratio(1_000, 1_001)), "-0.1%");
    assert_eq!(format_ratio(compression_ratio(1, 20)), "-1900.0%");
    assert_eq!(format_ratio(compression_ratio(0, 20)), "0.0%");
}

#[test]
fn ratio_text_keeps_the_sign_of_a_small_growth() {
    assert_eq!(format_ratio(compression_ratio(1_000_000, 1_000_100)), "-0.0%");
    assert_eq!(format_ratio(compression_ratio(2_000, 2_001)), "-0.0%");
    assert_eq!(format_ratio(compression_ratio(u64::MAX - 1, u64::MAX)), "-0.0%");
    assert_eq!(format_ratio(compression_ratio(1_000_000, 999_900)), "0.0%");
    assert_eq!(format_ratio(compression_ratio(1_000_000, 1_000_500)), "-0.0%");
    assert_eq!(format_ratio(compression_ratio(1_000_000, 1_000_501)), "-0.1%");
}

#[test]
fn ratio_text_at_the_limits_of_the_sizes() {
    assert_eq!(
        format_ratio(compression_ratio(1, u64::MAX)),
        "-1844674407370955161400.0%"
    );
    assert_eq!(format_ratio(compression_ratio(u64::MAX, 0)), "100.0%");
}

#[test]
fn elapsed_exact_values() {
    assert_eq!(format_elapsed(0), "0.00ns");
    assert_eq!(format_elapsed(999), "999.00ns");
    assert_eq!(format_elapsed(1_000), "1.00µs");
    assert_eq!(format_elapsed(12_500), "12.50µs");
    assert_eq!(format_elapsed(340_000_000), "340.00ms");
    assert_eq!(format_elapsed(1_250_000_000), "1.25s");
    assert_eq!(format_elapsed(61_000_000_000), "61.00s");
}

#[test]
fn elapsed_rounds_to_nearest_and_ties_to_even() {
    assert_eq!(format_elapsed(1_234_000_000), "1.23s");
    assert_eq!(format_elapsed(1_236_000_000), "1.24s");
    assert_eq!(format_elapsed(1_235_000_000), "1.24s");
    assert_eq!(format_elapsed(1_245_000_000), "1.24s");
    assert_eq!(format_elapsed(1_245_000_001), "1.25s");
    assert_eq!(format_elapsed(1_995_000_000), "2.00s");
    assert_eq!(format_elapsed(999_995_000), "1000.00ms");
    assert_eq!(format_elapsed(999_994_999), "999.99ms");
    assert_eq!(format_elapsed(1_005), "1.00µs");
    assert_eq!(format_elapsed(1_015), "1.02µs");
}

#[test]
fn elapsed_agrees_with_duration_formatting() {
    let samples: [u128; 24] = [
        0,
        1,
        999,
        1_000,
        1_005,
        1_015,
        1_025,
        12_345,
        999_994,
        999_995,
        999_996,
        1_000_000,
        1_005_000,
        1_015_000,
        123_456_789,
        999_994_999,
        999_995_000,
        999_999_999,
        1_000_000_000,
        1_005_000_000,
        1_015_000_000,
        1_995_000_000,
        59_999_999_999,
        3_600_000_000_000,
    ];
    for nanos in samples {
        assert_eq!(format_elapsed(nanos), std_elapsed(nanos), "for {} ns", nanos);
    }
    let mut nanos: u64 = 3;
    for _ in 0..2000 {
        let n = (nanos % 100_000_000_000) as u128;
        assert_eq!(format_elapsed(n), std_elapsed(n), "for {} ns", n);
        nanos = nanos.wrapping_mul(6_364_136_223_846_793_005).wrapping_add(1_442_695_040_888_963_407);
    }
}

#[test]
fn report_has_four_lines_in_order() {
    let stats = CompressionStats::new(10 * 1_048_576, 1_048_576, 1_500_000_000);
    let lines = report_lines(&stats);
    assert_eq!(lines.len(), 4);
    assert_eq!(lines[0].label, "Source file size");
    assert_eq!(lines[0].value, "10.00 MB");
    assert_eq!(lines[1].label, "Compressed size");
    assert_eq!(lines[1].value, "1.00 MB");
    assert_eq!(lines[2].label, "Compression ratio");
    assert_eq!(lines[2].value, "90.0%");
    assert_eq!(lines[3].label, "Time elapsed");
    assert_eq!(lines[3].value, "1.50s");
}

#[test]
fn summary_text_is_the_lines_joined() {
    let stats = CompressionStats::new(2_097_152, 3_145_728, 42_000);
    assert_eq!(
        format_stats(&stats),
        "Source file size: 2.00 MB\nCompressed size: 3.00 MB\nCompression ratio: -50.0%\nTime elapsed: 42.00µs\n"
    );
}
