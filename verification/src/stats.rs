//! The statistics of a finished job.

use crate::compress::{compressed_stream, is_compressed, Compressed};
use crate::rounding::{
    lemma_round_exact, lemma_round_monotonic, lemma_round_negated, round_half_even, rounded_div,
};
use crate::strength::Strength;
use vstd::prelude::*;

verus! {

/// The compression ratio, `1 - target_size / source_size`, as the fraction
/// that it is: a numerator and a denominator above zero. It is
/// `(source_size - target_size) / source_size`; for an empty source, where
/// that quotient does not exist, it is `0 / 1`.
pub open spec fn ratio_of(source_size: int, target_size: int) -> (int, int) {
    if source_size == 0 {
        (0, 1)
    } else {
        (source_size - target_size, source_size)
    }
}

/// A fraction in thousandths, rounded to the nearest of them.
pub open spec fn per_mille_of(numerator: int, denominator: int) -> int {
    round_half_even(1000 * numerator, denominator)
}

/// The ratio never exceeds one, whatever the sizes. For a source that is not
/// empty its sign is that of `source_size - target_size`: it is below zero
/// exactly where the output is larger than the source, zero exactly where
/// the two are equal, and one exactly where the output is empty. For an
/// empty source it is zero.
pub proof fn lemma_ratio_bounds(source_size: int, target_size: int)
    requires
        source_size >= 0,
        target_size >= 0,
    ensures
        ratio_of(source_size, target_size).1 > 0,
        ratio_of(source_size, target_size).0 <= ratio_of(source_size, target_size).1,
        source_size == 0 ==> ratio_of(source_size, target_size).0 == 0,
        source_size > 0 ==> (ratio_of(source_size, target_size).0 < 0 <==> target_size
            > source_size),
        source_size > 0 ==> (ratio_of(source_size, target_size).0 == 0 <==> target_size
            == source_size),
        source_size > 0 ==> (ratio_of(source_size, target_size).0 == ratio_of(
            source_size,
            target_size,
        ).1 <==> target_size == 0),
{
}

/// Rounding to thousandths keeps a ratio within its bounds, though it may
/// take a ratio close to zero to zero: the thousandths of a fraction that is
/// at most one are at most 1000, those of one that is not below zero are not
/// below zero, and those of one that is not above zero are not above zero.
pub proof fn lemma_per_mille_bounds(numerator: int, denominator: int)
    requires
        denominator > 0,
        numerator <= denominator,
    ensures
        per_mille_of(numerator, denominator) <= 1000,
        numerator >= 0 ==> per_mille_of(numerator, denominator) >= 0,
        numerator <= 0 ==> per_mille_of(numerator, denominator) <= 0,
        numerator == 0 ==> per_mille_of(numerator, denominator) == 0,
        numerator == denominator ==> per_mille_of(numerator, denominator) == 1000,
{
    lemma_round_exact(1000, denominator);
    lemma_round_exact(0, denominator);
    lemma_round_monotonic(1000 * numerator, 1000 * denominator, denominator);
    if numerator >= 0 {
        lemma_round_monotonic(0, 1000 * numerator, denominator);
    }
    if numerator <= 0 {
        lemma_round_monotonic(1000 * numerator, 0, denominator);
    }
}

/// A compression ratio, held exactly: a fraction that is at most one, with
/// a denominator above zero. Nothing is rounded until it is shown.
#[derive(Clone, Copy, Debug)]
pub struct CompressionRatio {
    numerator: i128,
    denominator: u64,
}

impl CompressionRatio {
    #[verifier::type_invariant]
    spec fn is_fraction(self) -> bool {
        &&& self.denominator > 0
        &&& -(u64::MAX as int) <= self.numerator <= self.denominator
    }

    /// The numerator of the ratio.
    pub closed spec fn spec_numerator(&self) -> i128 {
        self.numerator
    }

    /// The denominator of the ratio.
    pub closed spec fn spec_denominator(&self) -> u64 {
        self.denominator
    }

    /// The numerator of the ratio. It is never more than the denominator.
    #[verifier::when_used_as_spec(spec_numerator)]
    pub fn numerator(&self) -> (numerator: i128)
        ensures
            numerator == self.spec_numerator(),
            numerator <= self.spec_denominator(),
    {
        proof {
            use_type_invariant(self);
        }
        self.numerator
    }

    /// The denominator of the ratio. It is above zero.
    #[verifier::when_used_as_spec(spec_denominator)]
    pub fn denominator(&self) -> (denominator: u64)
        ensures
            denominator == self.spec_denominator(),
            denominator > 0,
    {
        proof {
            use_type_invariant(self);
        }
        self.denominator
    }

    /// Whether the ratio is below zero: whether the output is larger than
    /// the source.
    pub fn is_negative(&self) -> (negative: bool)
        ensures
            negative == (self.spec_numerator() < 0),
    {
        self.numerator < 0
    }

    /// The ratio in thousandths, rounded to the nearest of them. A ratio
    /// nearer to zero than half a thousandth gives zero, whatever its sign;
    /// the sign is told by `is_negative`.
    pub fn per_mille(&self) -> (thousandths: i128)
        ensures
            thousandths == per_mille_of(
                self.spec_numerator() as int,
                self.spec_denominator() as int,
            ),
            thousandths <= 1000,
    {
        proof {
            use_type_invariant(self);
            lemma_per_mille_bounds(self.numerator as int, self.denominator as int);
        }
        if self.numerator >= 0 {
            rounded_div(self.numerator as u128 * 1000, self.denominator as u128) as i128
        } else {
            let magnitude: u128 = (-self.numerator) as u128;
            proof {
                lemma_round_negated(1000 * magnitude as int, self.denominator as int);
            }
            -(rounded_div(magnitude * 1000, self.denominator as u128) as i128)
        }
    }
}

/// Computes the compression ratio of a job from the sizes of its source and
/// of its output. No pair of sizes makes it fail; nothing is divided.
pub fn compression_ratio(source_size: u64, target_size: u64) -> (ratio: CompressionRatio)
    ensures
        (ratio.spec_numerator() as int, ratio.spec_denominator() as int) == ratio_of(
            source_size as int,
            target_size as int,
        ),
        ratio.spec_numerator() <= ratio.spec_denominator(),
        source_size == 0 ==> ratio.spec_numerator() == 0,
        source_size > 0 ==> (ratio.spec_numerator() < 0 <==> target_size > source_size),
{
    if source_size == 0 {
        CompressionRatio { numerator: 0, denominator: 1 }
    } else {
        CompressionRatio {
            numerator: source_size as i128 - target_size as i128,
            denominator: source_size,
        }
    }
}

/// What a finished job reports: the sizes before and after, the time it
/// took, and the ratio that follows from the sizes.
#[derive(Clone, Copy, Debug)]
pub struct CompressionStats {
    source_size: u64,
    target_size: u64,
    elapsed_nanos: u128,
    compression_ratio: CompressionRatio,
}

impl CompressionStats {
    #[verifier::type_invariant]
    spec fn ratio_follows(self) -> bool {
        (
            self.compression_ratio.spec_numerator() as int,
            self.compression_ratio.spec_denominator() as int,
        ) == ratio_of(self.source_size as int, self.target_size as int)
    }

    /// The size of the source, in bytes.
    pub closed spec fn spec_source_size(&self) -> u64 {
        self.source_size
    }

    /// The size of the output, in bytes.
    pub closed spec fn spec_target_size(&self) -> u64 {
        self.target_size
    }

    /// The time the job took, in nanoseconds.
    pub closed spec fn spec_elapsed_nanos(&self) -> u128 {
        self.elapsed_nanos
    }

    /// The compression ratio.
    pub closed spec fn spec_compression_ratio(&self) -> CompressionRatio {
        self.compression_ratio
    }

    /// Whether these are the statistics of a job that turned `source_size`
    /// bytes into `target_size` bytes in `elapsed_nanos` nanoseconds.
    pub open spec fn describes(&self, source_size: u64, target_size: u64, elapsed_nanos: u128)
        -> bool {
        &&& self.spec_source_size() == source_size
        &&& self.spec_target_size() == target_size
        &&& self.spec_elapsed_nanos() == elapsed_nanos
        &&& (
            self.spec_compression_ratio().spec_numerator() as int,
            self.spec_compression_ratio().spec_denominator() as int,
        ) == ratio_of(source_size as int, target_size as int)
    }

    /// The statistics of a job that turned `source_size` bytes into
    /// `target_size` bytes in `elapsed_nanos` nanoseconds.
    pub fn new(source_size: u64, target_size: u64, elapsed_nanos: u128) -> (stats:
        CompressionStats)
        ensures
            stats.describes(source_size, target_size, elapsed_nanos),
    {
        let compression_ratio = compression_ratio(source_size, target_size);
        CompressionStats { source_size, target_size, elapsed_nanos, compression_ratio }
    }

    /// The statistics of a source compressed in memory, which took
    /// `elapsed_nanos` nanoseconds.
    pub fn of_compressed(result: &Compressed, elapsed_nanos: u128) -> (stats: CompressionStats)
        ensures
            stats.describes(result.source_size, result.bytes@.len() as u64, elapsed_nanos),
            result.bytes@.len() <= u64::MAX,
    {
        CompressionStats::new(result.source_size, result.bytes.len() as u64, elapsed_nanos)
    }

    /// The size of the source, in bytes.
    #[verifier::when_used_as_spec(spec_source_size)]
    pub fn source_size(&self) -> (size: u64)
        ensures
            size == self.spec_source_size(),
    {
        self.source_size
    }

    /// The size of the output, in bytes.
    #[verifier::when_used_as_spec(spec_target_size)]
    pub fn target_size(&self) -> (size: u64)
        ensures
            size == self.spec_target_size(),
    {
        self.target_size
    }

    /// The time the job took, in nanoseconds.
    #[verifier::when_used_as_spec(spec_elapsed_nanos)]
    pub fn elapsed_nanos(&self) -> (nanos: u128)
        ensures
            nanos == self.spec_elapsed_nanos(),
    {
        self.elapsed_nanos
    }

    /// The compression ratio: what the sizes give. It is never more than
    /// one, and for a source that is not empty it is below zero exactly
    /// where the output is larger than the source.
    #[verifier::when_used_as_spec(spec_compression_ratio)]
    pub fn compression_ratio(&self) -> (ratio: CompressionRatio)
        ensures
            ratio == self.spec_compression_ratio(),
            (ratio.spec_numerator() as int, ratio.spec_denominator() as int) == ratio_of(
                self.spec_source_size() as int,
                self.spec_target_size() as int,
            ),
            ratio.spec_numerator() <= ratio.spec_denominator(),
            self.spec_source_size() > 0 ==> (ratio.spec_numerator() < 0
                <==> self.spec_target_size() > self.spec_source_size()),
    {
        proof {
            use_type_invariant(self);
        }
        self.compression_ratio
    }
}

/// The statistics of a source compressed in memory report the sizes as they
/// are: the length of the source, the length of its gzip stream, and the
/// ratio of the two, which is zero for an empty source and otherwise below
/// zero exactly where the stream is longer than the source.
pub proof fn lemma_stats_report_true_sizes(
    data: Seq<u8>,
    strength: Strength,
    show_progress: bool,
    result: Compressed,
    stats: CompressionStats,
    elapsed_nanos: u128,
)
    requires
        is_compressed(result, data, strength, show_progress),
        result.bytes@.len() <= u64::MAX,
        stats.describes(result.source_size, result.bytes@.len() as u64, elapsed_nanos),
    ensures
        compressed_stream(data, strength) is Some,
        stats.spec_source_size() == data.len(),
        stats.spec_target_size() == compressed_stream(data, strength)->0.len(),
        (
            stats.spec_compression_ratio().spec_numerator() as int,
            stats.spec_compression_ratio().spec_denominator() as int,
        ) == ratio_of(data.len() as int, compressed_stream(data, strength)->0.len() as int),
        data.len() == 0 ==> stats.spec_compression_ratio().spec_numerator() == 0,
        data.len() > 0 ==> (stats.spec_compression_ratio().spec_numerator() < 0
            <==> compressed_stream(data, strength)->0.len() > data.len()),
{
}

/// Tracking progress does not alter the statistics: for one source at one
/// strength, compressed once with progress and once without, the sizes and
/// the ratio reported are the same. Only the elapsed times may differ.
pub proof fn lemma_progress_does_not_alter_stats(
    data: Seq<u8>,
    strength: Strength,
    with_progress: Compressed,
    without_progress: Compressed,
    stats_with: CompressionStats,
    stats_without: CompressionStats,
    elapsed_with: u128,
    elapsed_without: u128,
)
    requires
        is_compressed(with_progress, data, strength, true),
        is_compressed(without_progress, data, strength, false),
        stats_with.describes(
            with_progress.source_size,
            with_progress.bytes@.len() as u64,
            elapsed_with,
        ),
        stats_without.describes(
            without_progress.source_size,
            without_progress.bytes@.len() as u64,
            elapsed_without,
        ),
    ensures
        stats_with.spec_source_size() == stats_without.spec_source_size(),
        stats_with.spec_target_size() == stats_without.spec_target_size(),
        stats_with.spec_compression_ratio().spec_numerator()
            == stats_without.spec_compression_ratio().spec_numerator(),
        stats_with.spec_compression_ratio().spec_denominator()
            == stats_without.spec_compression_ratio().spec_denominator(),
{
}

} // verus!
