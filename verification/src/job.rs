//! A compression job as the caller describes it.

use crate::error::{missing_source_message, CompressionError};
use crate::strength::{get_compression_level, strength_named, Strength};
use crate::stream::{CompressorState, StreamCompressor};
use vstd::prelude::*;
use vstd::string::StringExecFns;

verus! {

/// What to compress, where to, how hard, and whether to show progress. A job
/// does not change once it is made.
#[derive(Clone, Debug)]
pub struct CompressionJob {
    source: String,
    target: String,
    strength: Strength,
    show_progress: bool,
}

impl CompressionJob {
    /// The path of the source.
    pub closed spec fn spec_source(&self) -> Seq<char> {
        self.source@
    }

    /// The path of the destination.
    pub closed spec fn spec_target(&self) -> Seq<char> {
        self.target@
    }

    /// The compression strength.
    pub closed spec fn spec_strength(&self) -> Strength {
        self.strength
    }

    /// Whether progress is tracked.
    pub closed spec fn spec_show_progress(&self) -> bool {
        self.show_progress
    }

    /// A job from its four parts.
    pub fn new(source: &str, target: &str, strength: Strength, show_progress: bool) -> (job:
        CompressionJob)
        ensures
            job.spec_source() == source@,
            job.spec_target() == target@,
            job.spec_strength() == strength,
            job.spec_show_progress() == show_progress,
    {
        CompressionJob {
            source: String::from_str(source),
            target: String::from_str(target),
            strength,
            show_progress,
        }
    }

    /// A job from what the command line gave: the two paths, the name of the
    /// strength, and whether quiet was asked for. A name that is no strength
    /// selects the default; quiet switches progress off.
    pub fn from_args(source: &str, target: &str, compression: &str, quiet: bool) -> (job:
        CompressionJob)
        ensures
            job.spec_source() == source@,
            job.spec_target() == target@,
            job.spec_strength() == strength_named(compression@),
            job.spec_show_progress() == !quiet,
    {
        CompressionJob::new(source, target, get_compression_level(compression), !quiet)
    }

    /// Accepts the job if its source exists, and rejects it as invalid input
    /// if not, with a message that names the path.
    pub fn validate(&self, source_exists: bool) -> (outcome: Result<(), CompressionError>)
        ensures
            source_exists ==> outcome is Ok,
            !source_exists ==> (outcome matches Err(CompressionError::InvalidInput(message))
                && message@ == missing_source_message(self.spec_source())),
    {
        if source_exists {
            Ok(())
        } else {
            Err(CompressionError::missing_source(self.source.as_str()))
        }
    }

    /// Starts the job on a source of `source_size` bytes.
    pub fn start(&self, source_size: u64) -> (compressor: StreamCompressor)
        ensures
            compressor@ == CompressorState::start(
                source_size,
                self.spec_strength(),
                self.spec_show_progress(),
            ),
    {
        StreamCompressor::new(source_size, self.strength, self.show_progress)
    }

    /// The path of the source.
    pub fn source(&self) -> (path: &str)
        ensures
            path@ == self.spec_source(),
    {
        self.source.as_str()
    }

    /// The path of the destination.
    pub fn target(&self) -> (path: &str)
        ensures
            path@ == self.spec_target(),
    {
        self.target.as_str()
    }

    /// The compression strength.
    #[verifier::when_used_as_spec(spec_strength)]
    pub fn strength(&self) -> (strength: Strength)
        ensures
            strength == self.spec_strength(),
    {
        self.strength
    }

    /// Whether progress is tracked.
    #[verifier::when_used_as_spec(spec_show_progress)]
    pub fn show_progress(&self) -> (show_progress: bool)
        ensures
            show_progress == self.spec_show_progress(),
    {
        self.show_progress
    }
}

} // verus!
