//! How a source is cut into chunks for the encoder.

use vstd::prelude::*;
use vstd::slice::slice_subrange;

verus! {

/// The number of bytes read from the source at a time: 1 MiB.
pub const CHUNK_SIZE: usize = 1_048_576;

/// The chunks that a source is read in: each holds `CHUNK_SIZE` bytes but the
/// last, which holds what is left. An empty source has no chunk, and no
/// chunk is empty.
pub open spec fn chunks_of(data: Seq<u8>) -> Seq<Seq<u8>>
    decreases data.len(),
{
    if data.len() == 0 {
        Seq::empty()
    } else if data.len() <= CHUNK_SIZE {
        seq![data]
    } else {
        seq![data.take(CHUNK_SIZE as int)] + chunks_of(data.skip(CHUNK_SIZE as int))
    }
}

/// The chunk that a read at `offset` yields: the next `CHUNK_SIZE` bytes, or
/// all that is left if that is less. At the end of the source, and behind it,
/// it is empty.
pub open spec fn chunk_at(data: Seq<u8>, offset: int) -> Seq<u8> {
    if offset >= data.len() {
        Seq::empty()
    } else if offset + CHUNK_SIZE <= data.len() {
        data.subrange(offset, offset + CHUNK_SIZE)
    } else {
        data.skip(offset)
    }
}

/// Reads the chunk at `offset` out of a source held in memory.
pub fn next_chunk(source: &[u8], offset: usize) -> (chunk: &[u8])
    ensures
        chunk@ == chunk_at(source@, offset as int),
        chunk@.len() <= CHUNK_SIZE,
        offset < source@.len() ==> offset + chunk@.len() <= source@.len(),
        chunk@.len() == 0 <==> offset >= source@.len(),
{
    let length = source.len();
    if offset >= length {
        slice_subrange(source, length, length)
    } else if length - offset < CHUNK_SIZE {
        slice_subrange(source, offset, length)
    } else {
        slice_subrange(source, offset, offset + CHUNK_SIZE)
    }
}

/// What a read that reported `len` bytes left in its buffer: the first `len`
/// bytes of the buffer, and no more than the buffer holds.
pub open spec fn read_part(buffer: Seq<u8>, len: int) -> Seq<u8> {
    if len < buffer.len() {
        buffer.take(len)
    } else {
        buffer
    }
}

/// Cuts a read buffer down to the bytes that the read reported, so that
/// only what was read goes on to the encoder.
pub fn filled(buffer: &[u8], len: usize) -> (chunk: &[u8])
    ensures
        chunk@ == read_part(buffer@, len as int),
        chunk@.len() == 0 <==> (len == 0 || buffer@.len() == 0),
{
    let length = buffer.len();
    if len < length {
        slice_subrange(buffer, 0, len)
    } else {
        assert(buffer@.subrange(0, length as int) == buffer@);
        slice_subrange(buffer, 0, length)
    }
}

/// Reading chunk after chunk from `offset` on yields the chunks that the rest
/// of the source is cut into: the chunk at `offset` comes first, then those
/// of what lies behind it.
pub proof fn lemma_chunks_unfold(data: Seq<u8>, offset: int)
    requires
        0 <= offset < data.len(),
    ensures
        chunks_of(data.skip(offset)) == seq![chunk_at(data, offset)] + chunks_of(
            data.skip(offset + chunk_at(data, offset).len()),
        ),
{
    let rest = data.skip(offset);
    let chunk = chunk_at(data, offset);
    if rest.len() <= CHUNK_SIZE {
        assert(chunk == rest);
        assert(data.skip(offset + chunk.len()).len() == 0);
        assert(chunks_of(data.skip(offset + chunk.len())) == Seq::<Seq<u8>>::empty());
        assert(seq![chunk] + Seq::<Seq<u8>>::empty() == seq![chunk]);
    } else {
        assert(chunk == rest.take(CHUNK_SIZE as int));
        assert(rest.skip(CHUNK_SIZE as int) == data.skip(offset + chunk.len()));
    }
}

/// No chunk is empty, and none holds more than `CHUNK_SIZE` bytes.
pub proof fn lemma_chunks_bounded(data: Seq<u8>)
    ensures
        forall|i: int|
            0 <= i < chunks_of(data).len() ==> 0 < (#[trigger] chunks_of(data)[i]).len()
                <= CHUNK_SIZE,
    decreases data.len(),
{
    if data.len() > CHUNK_SIZE {
        let tail = data.skip(CHUNK_SIZE as int);
        lemma_chunks_bounded(tail);
        assert forall|i: int| 0 <= i < chunks_of(data).len() implies {
            let chunk = #[trigger] chunks_of(data)[i];
            0 < chunk.len() <= CHUNK_SIZE
        } by {
            if i > 0 {
                assert(chunks_of(data)[i] == chunks_of(tail)[i - 1]);
            }
        }
    }
}

/// Cutting a source into chunks loses nothing: joined in order, the chunks
/// are the source again.
pub proof fn lemma_chunks_join(data: Seq<u8>)
    ensures
        chunks_of(data).flatten() == data,
    decreases data.len(),
{
    if data.len() == 0 {
        assert(chunks_of(data).flatten() == data);
    } else if data.len() <= CHUNK_SIZE {
        seq![data].lemma_flatten_one_element();
    } else {
        let head = data.take(CHUNK_SIZE as int);
        let tail = data.skip(CHUNK_SIZE as int);
        lemma_chunks_join(tail);
        let all = seq![head] + chunks_of(tail);
        assert(all.first() == head);
        assert(all.drop_first() == chunks_of(tail));
        assert(all.flatten() == head + tail);
        assert(head + tail == data);
    }
}

} // verus!
