//! Compression of a source held in memory, by the same steps that a job on a
//! file takes.

use crate::chunks::{chunks_of, lemma_chunks_join, lemma_chunks_unfold, next_chunk, CHUNK_SIZE};
use crate::encoder::{gzip_accepts, gzip_stream};
use crate::error::CompressionError;
use crate::progress::ProgressState;
use crate::strength::Strength;
use crate::stream::{Step, StreamCompressor};
use vstd::prelude::*;

verus! {

/// The result of compressing a source held in memory.
#[derive(Debug)]
pub struct Compressed {
    /// The complete gzip stream.
    pub bytes: Vec<u8>,
    /// The size of the source.
    pub source_size: u64,
    /// Where progress stood at the end, if it was tracked.
    pub progress: Option<ProgressState>,
}

/// The gzip stream of a source at a strength: that of its chunks, written in
/// order; nothing where the encoder cannot finish it.
pub open spec fn compressed_stream(data: Seq<u8>, strength: Strength) -> Option<Seq<u8>> {
    gzip_stream(chunks_of(data), strength.spec_level())
}

/// Whether a source can be compressed at a strength: whether the encoder
/// takes each of its chunks in turn and then finishes the stream.
pub open spec fn compresses(data: Seq<u8>, strength: Strength) -> bool {
    &&& forall|count: int|
        0 < count <= chunks_of(data).len() ==> gzip_accepts(
            #[trigger] chunks_of(data).take(count),
            strength.spec_level(),
        )
    &&& compressed_stream(data, strength) is Some
}

/// What `compress` returns on success, for a source, a strength and a choice
/// to track progress.
pub open spec fn is_compressed(
    result: Compressed,
    data: Seq<u8>,
    strength: Strength,
    show_progress: bool,
) -> bool {
    &&& compressed_stream(data, strength) == Some(result.bytes@)
    &&& result.source_size == data.len()
    &&& result.progress is Some <==> show_progress
    &&& result.progress matches Some(state) ==> {
        &&& state.spec_consumed() == data.len()
        &&& state.spec_total() == data.len()
    }
}

/// What `compress` returns, for a source, a strength and a choice to track
/// progress: success exactly where the source can be compressed, and then
/// its stream; an I/O error elsewhere.
pub open spec fn is_outcome(
    outcome: Result<Compressed, CompressionError>,
    data: Seq<u8>,
    strength: Strength,
    show_progress: bool,
) -> bool {
    &&& outcome is Ok <==> compresses(data, strength)
    &&& match outcome {
        Ok(result) => is_compressed(result, data, strength, show_progress),
        Err(error) => error is IoError,
    }
}

/// Compresses a source held in memory: reads it chunk by chunk, feeds each
/// chunk to a job, gathers what the job hands out, and finishes the job at
/// the end of the source. It succeeds exactly where the encoder takes every
/// chunk and finishes the stream.
pub fn compress(source: &[u8], strength: Strength, show_progress: bool) -> (outcome: Result<
    Compressed,
    CompressionError,
>)
    ensures
        is_outcome(outcome, source@, strength, show_progress),
{
    let length = source.len();
    let source_size = length as u64;
    let mut job = StreamCompressor::new(source_size, strength, show_progress);
    let mut bytes: Vec<u8> = Vec::new();
    let mut offset: usize = 0;
    let ghost chunks = chunks_of(source@);
    assert(source@.skip(0) == source@);
    assert(job@.fed + chunks == chunks);
    loop
        invariant_except_break
            offset <= source@.len(),
            job@.fed + chunks_of(source@.skip(offset as int)) == chunks,
        invariant
            chunks == chunks_of(source@),
            length == source@.len(),
            source_size == length,
            job@.strength == strength,
            job@.source_size == source_size,
            job@.show_progress == show_progress,
            job@.emitted == bytes@,
            job@.fed.len() <= chunks.len(),
            forall|count: int|
                0 < count <= job@.fed.len() ==> gzip_accepts(
                    #[trigger] chunks.take(count),
                    strength.spec_level(),
                ),
        ensures
            job@.fed == chunks,
        decreases source@.len() - offset,
    {
        let chunk = next_chunk(source, offset);
        let ghost fed = job@.fed;
        proof {
            if chunk@.len() > 0 {
                lemma_chunks_unfold(source@, offset as int);
                assert(chunks.take(fed.len() as int + 1) == fed.push(chunk@));
            }
        }
        match job.feed(chunk) {
            Err(error) => {
                assert(!compresses(source@, strength));
                return Err(error);
            },
            Ok((next, Step::EndOfSource)) => {
                job = next;
                assert(chunks_of(source@.skip(offset as int)) == Seq::<Seq<u8>>::empty());
                break ;
            },
            Ok((next, Step::Forward { bytes: piece, position: _ })) => {
                job = next;
                let mut piece = piece;
                bytes.append(&mut piece);
                offset = offset + chunk.len();
            },
        }
    }
    proof {
        lemma_chunks_join(source@);
        assert(chunks.take(chunks.len() as int) == chunks);
    }
    let progress = job.progress();
    match job.finish() {
        Err(error) => Err(error),
        Ok(rest) => {
            let mut rest = rest;
            bytes.append(&mut rest);
            Ok(Compressed { bytes, source_size, progress })
        },
    }
}

/// Tracking progress does not alter the outcome: whatever `compress`
/// returns for a source at a strength with progress tracked, and whatever it
/// returns without, either both are failures or both are successes with the
/// same bytes and the same source size.
pub proof fn lemma_progress_does_not_alter_output(
    data: Seq<u8>,
    strength: Strength,
    with_progress: Result<Compressed, CompressionError>,
    without_progress: Result<Compressed, CompressionError>,
)
    requires
        is_outcome(with_progress, data, strength, true),
        is_outcome(without_progress, data, strength, false),
    ensures
        with_progress is Ok <==> without_progress is Ok,
        with_progress is Ok ==> {
            &&& with_progress->Ok_0.bytes@ == without_progress->Ok_0.bytes@
            &&& with_progress->Ok_0.source_size == without_progress->Ok_0.source_size
            &&& with_progress->Ok_0.source_size == data.len()
        },
{
}

/// A source of no more than `CHUNK_SIZE` bytes is compressed as the one
/// chunk that it is, and an empty source as no chunk at all: the stream
/// holds the bytes of the source and nothing that was not read.
pub proof fn lemma_small_source_is_one_chunk(data: Seq<u8>, strength: Strength)
    requires
        data.len() <= CHUNK_SIZE,
    ensures
        data.len() == 0 ==> compressed_stream(data, strength) == gzip_stream(
            Seq::empty(),
            strength.spec_level(),
        ),
        data.len() > 0 ==> compressed_stream(data, strength) == gzip_stream(
            seq![data],
            strength.spec_level(),
        ),
        data.len() > 0 ==> (compresses(data, strength) <==> gzip_accepts(
            seq![data],
            strength.spec_level(),
        ) && gzip_stream(seq![data], strength.spec_level()) is Some),
        data.len() == 0 ==> (compresses(data, strength) <==> gzip_stream(
            Seq::empty(),
            strength.spec_level(),
        ) is Some),
{
    if data.len() > 0 {
        let chunks = chunks_of(data);
        assert(chunks == seq![data]);
        assert(chunks.take(1) == chunks);
    }
}

} // verus!
