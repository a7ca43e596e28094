//! The streaming compressor: chunks of the source go in, pieces of the gzip
//! stream come out, and progress is counted on the way.

use crate::encoder::{
    encoder_finish, encoder_input, encoder_level, encoder_new, encoder_output, encoder_pending,
    encoder_take, encoder_write, gzip_accepts, gzip_stream, GzipEncoder,
};
use crate::error::CompressionError;
use crate::progress::{advanced, ProgressState};
use crate::strength::Strength;
use vstd::prelude::*;

verus! {

/// What a compressor is, as far as its results depend on it.
#[verifier::ext_equal]
pub struct CompressorState {
    /// The strength the job was started with.
    pub strength: Strength,
    /// The size of the source, as the job was told at its start.
    pub source_size: u64,
    /// Whether progress is tracked.
    pub show_progress: bool,
    /// The chunks fed so far, in order.
    pub fed: Seq<Seq<u8>>,
    /// The bytes of the gzip stream handed out so far.
    pub emitted: Seq<u8>,
}

impl CompressorState {
    /// A job at its start: nothing fed, nothing handed out.
    pub open spec fn start(source_size: u64, strength: Strength, show_progress: bool) -> Self {
        CompressorState {
            strength,
            source_size,
            show_progress,
            fed: Seq::empty(),
            emitted: Seq::empty(),
        }
    }

    /// The number of bytes fed so far.
    pub open spec fn consumed(self) -> nat {
        self.fed.flatten().len()
    }

    /// The progress position: the bytes fed so far, held back at the size of
    /// the source.
    pub open spec fn position(self) -> nat {
        advanced(0, self.consumed(), self.source_size as nat)
    }

    /// The position to report after a step: none unless progress is tracked.
    pub open spec fn reported(self) -> Option<u64> {
        if self.show_progress {
            Some(self.position() as u64)
        } else {
            None
        }
    }

    /// The job after `chunk` was fed and `bytes` were handed out for it.
    pub open spec fn after(self, chunk: Seq<u8>, bytes: Seq<u8>) -> Self {
        CompressorState { fed: self.fed.push(chunk), emitted: self.emitted + bytes, ..self }
    }

    /// Whether the encoder takes `chunk` next: whether feeding it succeeds.
    pub open spec fn accepts(self, chunk: Seq<u8>) -> bool {
        gzip_accepts(self.fed.push(chunk), self.strength.spec_level())
    }

    /// The complete gzip stream of the job, were it finished now; nothing
    /// where finishing fails.
    pub open spec fn stream(self) -> Option<Seq<u8>> {
        gzip_stream(self.fed, self.strength.spec_level())
    }
}

/// The progress position only grows, and never passes the size of the
/// source: feeding a chunk moves it on by the chunk's length, or to the size
/// of the source if that comes first.
pub proof fn lemma_position_advances(state: CompressorState, chunk: Seq<u8>, bytes: Seq<u8>)
    ensures
        state.after(chunk, bytes).position() == advanced(
            state.position(),
            chunk.len(),
            state.source_size as nat,
        ),
        state.position() <= state.after(chunk, bytes).position() <= state.source_size,
{
    state.fed.lemma_flatten_push(chunk);
}

/// Tracking progress does not alter the job: of two jobs of one strength
/// that were fed the same chunks, one with progress and one without, each
/// takes a chunk exactly when the other does, each can be finished exactly
/// when the other can, and once each has handed out its rest, both have
/// handed out the same bytes.
pub proof fn lemma_progress_does_not_alter_stream(
    with_progress: CompressorState,
    without_progress: CompressorState,
    chunk: Seq<u8>,
    rest_with: Seq<u8>,
    rest_without: Seq<u8>,
)
    requires
        with_progress.show_progress,
        !without_progress.show_progress,
        with_progress.strength == without_progress.strength,
        with_progress.fed == without_progress.fed,
    ensures
        with_progress.accepts(chunk) <==> without_progress.accepts(chunk),
        with_progress.stream() is Some <==> without_progress.stream() is Some,
        with_progress.stream() == Some(with_progress.emitted + rest_with)
            && without_progress.stream() == Some(without_progress.emitted + rest_without)
            ==> with_progress.emitted + rest_with == without_progress.emitted + rest_without,
{
}

/// What to do after a read from the source was handed to the compressor.
#[derive(Debug)]
pub enum Step {
    /// The read gave data. `bytes` is the next piece of the gzip stream and
    /// goes to the destination; `position` is the new progress position, if
    /// progress is tracked.
    Forward { bytes: Vec<u8>, position: Option<u64> },
    /// The read gave nothing: the source is at its end, and the job is to be
    /// finished.
    EndOfSource,
}

/// A compression job under way.
pub struct StreamCompressor {
    encoder: GzipEncoder,
    strength: Strength,
    source_size: u64,
    progress: Option<ProgressState>,
}

impl View for StreamCompressor {
    type V = CompressorState;

    closed spec fn view(&self) -> CompressorState {
        CompressorState {
            strength: self.strength,
            source_size: self.source_size,
            show_progress: self.progress is Some,
            fed: encoder_input(self.encoder),
            emitted: encoder_output(self.encoder),
        }
    }
}

impl StreamCompressor {
    #[verifier::type_invariant]
    spec fn inv(self) -> bool {
        &&& encoder_level(self.encoder) == self.strength.spec_level()
        &&& encoder_pending(self.encoder) == Seq::<u8>::empty()
        &&& self.progress matches Some(state) ==> {
            &&& state.spec_total() == self.source_size
            &&& state.spec_consumed() == self@.position()
        }
    }

    /// Starts a job on a source of `source_size` bytes.
    pub fn new(source_size: u64, strength: Strength, show_progress: bool) -> (job: StreamCompressor)
        ensures
            job@ == CompressorState::start(source_size, strength, show_progress),
    {
        let encoder = encoder_new(strength.level());
        let progress = if show_progress {
            Some(ProgressState::new(source_size))
        } else {
            None
        };
        StreamCompressor { encoder, strength, source_size, progress }
    }

    /// Takes what a read from the source gave. An empty chunk is the end of
    /// the source and changes nothing. Any other chunk is written to the
    /// encoder in one piece; what the encoder has produced by then is handed
    /// out, and the progress position moves on by the chunk's length. It
    /// fails exactly where the encoder does not take the chunk.
    pub fn feed(self, chunk: &[u8]) -> (outcome: Result<(StreamCompressor, Step), CompressionError>)
        ensures
            chunk@.len() == 0 ==> outcome is Ok,
            chunk@.len() > 0 ==> (outcome is Ok <==> self@.accepts(chunk@)),
            match outcome {
                Ok((next, Step::EndOfSource)) => chunk@.len() == 0 && next@ == self@,
                Ok((next, Step::Forward { bytes, position })) => {
                    &&& chunk@.len() > 0
                    &&& next@ == self@.after(chunk@, bytes@)
                    &&& position == next@.reported()
                },
                Err(error) => error is IoError,
            },
    {
        if chunk.len() == 0 {
            return Ok((self, Step::EndOfSource));
        }
        proof {
            use_type_invariant(&self);
        }
        let ghost before = self@;
        let StreamCompressor { encoder, strength, source_size, progress } = self;
        let mut encoder = encoder;
        match encoder_write(&mut encoder, chunk) {
            Err(cause) => Err(CompressionError::from(cause)),
            Ok(()) => {
                let bytes = encoder_take(&mut encoder);
                proof {
                    lemma_position_advances(before, chunk@, bytes@);
                }
                let (progress, position) = match progress {
                    Some(state) => {
                        let moved = state.advance(chunk.len());
                        (Some(moved), Some(moved.consumed()))
                    },
                    None => (None, None),
                };
                let next = StreamCompressor { encoder, strength, source_size, progress };
                assert(next@.emitted == before.emitted + bytes@);
                Ok((next, Step::Forward { bytes, position }))
            },
        }
    }

    /// Finishes the job and hands out the rest of the gzip stream. With it,
    /// what was handed out is the complete stream of what was fed. It fails
    /// exactly where the encoder cannot finish that stream.
    pub fn finish(self) -> (outcome: Result<Vec<u8>, CompressionError>)
        ensures
            outcome is Ok <==> self@.stream() is Some,
            match outcome {
                Ok(rest) => self@.stream() == Some(self@.emitted + rest@),
                Err(error) => error is IoError,
            },
    {
        proof {
            use_type_invariant(&self);
        }
        match encoder_finish(self.encoder) {
            Ok(rest) => {
                assert(rest@.skip(0) == rest@);
                Ok(rest)
            },
            Err(cause) => Err(CompressionError::from(cause)),
        }
    }

    /// The progress of the job, if progress is tracked.
    pub fn progress(&self) -> (progress: Option<ProgressState>)
        ensures
            progress is Some <==> self@.show_progress,
            progress matches Some(state) ==> {
                &&& state.spec_consumed() == self@.position()
                &&& state.spec_total() == self@.source_size
            },
    {
        proof {
            use_type_invariant(self);
        }
        self.progress
    }
}

} // verus!
