//! The statistics reporter: renders the statistics of a job as text.
//!
//! Sizes are given in megabytes with two decimal places, the ratio as a
//! percentage with one, the elapsed time in the largest unit that leaves an
//! integer part, with two. Every number is rounded to the nearest value that
//! its places can show, and to the even one of two equally near. A ratio
//! below zero keeps its sign even where its digits round to zero.

use crate::rounding::{round_half_even, rounded_div};
use crate::stats::{per_mille_of, CompressionRatio, CompressionStats};
use vstd::prelude::*;
use vstd::string::StringExecFns;

verus! {

/// The number of bytes in a megabyte.
pub const BYTES_PER_MEGABYTE: u64 = 1_048_576;

/// The digit `d`, from 0 to 9, as text.
pub open spec fn digit_text(d: int) -> Seq<char> {
    if d == 0 {
        "0"@
    } else if d == 1 {
        "1"@
    } else if d == 2 {
        "2"@
    } else if d == 3 {
        "3"@
    } else if d == 4 {
        "4"@
    } else if d == 5 {
        "5"@
    } else if d == 6 {
        "6"@
    } else if d == 7 {
        "7"@
    } else if d == 8 {
        "8"@
    } else {
        "9"@
    }
}

/// A number in decimal notation, without leading zeros.
pub open spec fn decimal_text(n: nat) -> Seq<char>
    decreases n,
{
    if n < 10 {
        digit_text(n as int)
    } else {
        decimal_text(n / 10) + digit_text((n % 10) as int)
    }
}

/// A number of tenths, in decimal notation with one place behind the point.
pub open spec fn one_place_text(tenths: nat) -> Seq<char> {
    decimal_text(tenths / 10) + "."@ + digit_text((tenths % 10) as int)
}

/// A number of hundredths, in decimal notation with two places behind the
/// point.
pub open spec fn two_places_text(hundredths: nat) -> Seq<char> {
    decimal_text(hundredths / 100) + "."@ + digit_text((hundredths / 10 % 10) as int) + digit_text(
        (hundredths % 10) as int,
    )
}

/// A size in bytes, shown in megabytes.
pub open spec fn megabytes_text(bytes: nat) -> Seq<char> {
    two_places_text(round_half_even((bytes * 100) as int, BYTES_PER_MEGABYTE as int) as nat) + " MB"@
}

/// A ratio, given as a fraction, shown as a percentage: a minus sign if the
/// ratio is below zero, then its size in thousandths, rounded, with the
/// point before the last digit.
pub open spec fn ratio_text(numerator: int, denominator: int) -> Seq<char> {
    let thousandths = per_mille_of(numerator, denominator);
    let size = if thousandths < 0 {
        -thousandths
    } else {
        thousandths
    };
    if numerator < 0 {
        "-"@ + one_place_text(size as nat) + "%"@
    } else {
        one_place_text(size as nat) + "%"@
    }
}

/// A time in nanoseconds, shown in seconds if it is a second or more, else
/// in milliseconds if it is a millisecond or more, else in microseconds if it
/// is a microsecond or more, else in nanoseconds.
pub open spec fn elapsed_text(nanos: nat) -> Seq<char> {
    if nanos >= 1_000_000_000 {
        two_places_text(round_half_even(nanos as int, 10_000_000) as nat) + "s"@
    } else if nanos >= 1_000_000 {
        two_places_text(round_half_even(nanos as int, 10_000) as nat) + "ms"@
    } else if nanos >= 1_000 {
        two_places_text(round_half_even(nanos as int, 10) as nat) + "µs"@
    } else {
        two_places_text(nanos * 100) + "ns"@
    }
}

/// The label of each line of the summary.
pub open spec fn label_text(line: int) -> Seq<char> {
    if line == 0 {
        "Source file size"@
    } else if line == 1 {
        "Compressed size"@
    } else if line == 2 {
        "Compression ratio"@
    } else {
        "Time elapsed"@
    }
}

/// The value of each line of the summary.
pub open spec fn value_text(stats: CompressionStats, line: int) -> Seq<char> {
    if line == 0 {
        megabytes_text(stats.spec_source_size() as nat)
    } else if line == 1 {
        megabytes_text(stats.spec_target_size() as nat)
    } else if line == 2 {
        ratio_text(
            stats.spec_compression_ratio().spec_numerator() as int,
            stats.spec_compression_ratio().spec_denominator() as int,
        )
    } else {
        elapsed_text(stats.spec_elapsed_nanos() as nat)
    }
}

/// One line of the summary: its label, a colon and a space, its value, and a
/// line feed.
pub open spec fn line_text(stats: CompressionStats, line: int) -> Seq<char> {
    label_text(line) + ": "@ + value_text(stats, line) + "\n"@
}

/// The summary of a job: its four lines.
pub open spec fn summary_text(stats: CompressionStats) -> Seq<char> {
    line_text(stats, 0) + line_text(stats, 1) + line_text(stats, 2) + line_text(stats, 3)
}

fn digit_str(d: u128) -> (text: &'static str)
    requires
        d < 10,
    ensures
        text@ == digit_text(d as int),
{
    if d == 0 {
        "0"
    } else if d == 1 {
        "1"
    } else if d == 2 {
        "2"
    } else if d == 3 {
        "3"
    } else if d == 4 {
        "4"
    } else if d == 5 {
        "5"
    } else if d == 6 {
        "6"
    } else if d == 7 {
        "7"
    } else if d == 8 {
        "8"
    } else {
        "9"
    }
}

fn push_decimal(text: &mut String, n: u128)
    ensures
        final(text)@ == old(text)@ + decimal_text(n as nat),
    decreases n,
{
    if n >= 10 {
        push_decimal(text, n / 10);
    }
    text.append(digit_str(n % 10));
}

fn push_one_place(text: &mut String, tenths: u128)
    ensures
        final(text)@ == old(text)@ + one_place_text(tenths as nat),
{
    push_decimal(text, tenths / 10);
    text.append(".");
    text.append(digit_str(tenths % 10));
}

fn push_two_places(text: &mut String, hundredths: u128)
    ensures
        final(text)@ == old(text)@ + two_places_text(hundredths as nat),
{
    push_decimal(text, hundredths / 100);
    text.append(".");
    text.append(digit_str(hundredths / 10 % 10));
    text.append(digit_str(hundredths % 10));
}

/// Renders a size in bytes as megabytes, such as `1.50 MB`.
pub fn format_megabytes(bytes: u64) -> (text: String)
    ensures
        text@ == megabytes_text(bytes as nat),
{
    let hundredths = rounded_div(bytes as u128 * 100, BYTES_PER_MEGABYTE as u128);
    let mut text = String::new();
    push_two_places(&mut text, hundredths);
    text.append(" MB");
    text
}

/// Renders a ratio as a percentage, such as `37.5%` or, for an output
/// larger than its source, `-12.0%`; for one that is larger by very little,
/// `-0.0%`.
pub fn format_ratio(ratio: CompressionRatio) -> (text: String)
    ensures
        text@ == ratio_text(ratio.spec_numerator() as int, ratio.spec_denominator() as int),
{
    let thousandths = ratio.per_mille();
    let size: u128 = if thousandths < 0 {
        (-(thousandths + 1)) as u128 + 1
    } else {
        thousandths as u128
    };
    let mut text = String::new();
    if ratio.is_negative() {
        text.append("-");
    }
    push_one_place(&mut text, size);
    text.append("%");
    text
}

/// Renders a time in nanoseconds, such as `1.25s`, `340.00ms`, `12.50µs` or
/// `999.00ns`.
pub fn format_elapsed(nanos: u128) -> (text: String)
    ensures
        text@ == elapsed_text(nanos as nat),
{
    let mut text = String::new();
    if nanos >= 1_000_000_000 {
        push_two_places(&mut text, rounded_div(nanos, 10_000_000));
        text.append("s");
    } else if nanos >= 1_000_000 {
        push_two_places(&mut text, rounded_div(nanos, 10_000));
        text.append("ms");
    } else if nanos >= 1_000 {
        push_two_places(&mut text, rounded_div(nanos, 10));
        text.append("µs");
    } else {
        push_two_places(&mut text, nanos * 100);
        text.append("ns");
    }
    text
}

/// One line of the summary, label and value apart, for a caller that sets
/// them in different colours.
#[derive(Clone, Debug)]
pub struct ReportLine {
    pub label: String,
    pub value: String,
}

/// The four lines of the summary of a job, in order: the size of the source,
/// the size of the output, the ratio, the elapsed time.
pub fn report_lines(stats: &CompressionStats) -> (lines: Vec<ReportLine>)
    ensures
        lines@.len() == 4,
        forall|line: int|
            0 <= line < 4 ==> {
                &&& (#[trigger] lines@[line]).label@ == label_text(line)
                &&& lines@[line].value@ == value_text(*stats, line)
            },
{
    let mut lines: Vec<ReportLine> = Vec::new();
    lines.push(
        ReportLine {
            label: String::from_str("Source file size"),
            value: format_megabytes(stats.source_size()),
        },
    );
    lines.push(
        ReportLine {
            label: String::from_str("Compressed size"),
            value: format_megabytes(stats.target_size()),
        },
    );
    lines.push(
        ReportLine {
            label: String::from_str("Compression ratio"),
            value: format_ratio(stats.compression_ratio()),
        },
    );
    lines.push(
        ReportLine {
            label: String::from_str("Time elapsed"),
            value: format_elapsed(stats.elapsed_nanos()),
        },
    );
    lines
}

fn push_line(text: &mut String, line: &ReportLine)
    ensures
        final(text)@ == old(text)@ + (line.label@ + ": "@ + line.value@ + "\n"@),
{
    text.append(line.label.as_str());
    text.append(": ");
    text.append(line.value.as_str());
    text.append("\n");
}

/// Renders the statistics of a job as text, one line for each figure.
pub fn format_stats(stats: &CompressionStats) -> (text: String)
    ensures
        text@ == summary_text(*stats),
{
    let lines = report_lines(stats);
    let mut text = String::new();
    push_line(&mut text, &lines[0]);
    push_line(&mut text, &lines[1]);
    push_line(&mut text, &lines[2]);
    push_line(&mut text, &lines[3]);
    text
}

} // verus!
