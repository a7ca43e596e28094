//! The boundary to `flate2`: the gzip encoder, what is assumed of it, and
//! nothing else. Everything here is believed, not proved.

use flate2::write::GzEncoder;
use flate2::Compression;
use std::io::Write;
use vstd::prelude::*;

verus! {

/// `std::io::Error`, carried through as an opaque value.
#[verifier::external_type_specification]
#[verifier::external_body]
pub struct ExIoError(std::io::Error);

/// A `flate2::write::GzEncoder` that writes into a `Vec<u8>`. The encoder's
/// type bounds its writer by `std::io::Write`, which keeps it from being
/// declared to Verus as it stands; so it is held here, in a struct that Verus
/// does not look into. What it holds is spoken of through the names below.
#[verifier::external_body]
pub struct GzipEncoder {
    inner: GzEncoder<Vec<u8>>,
}

/// The deflate level that the encoder was made with.
pub uninterp spec fn encoder_level(encoder: GzipEncoder) -> u32;

/// The chunks that have been written to the encoder so far, in order.
pub uninterp spec fn encoder_input(encoder: GzipEncoder) -> Seq<Seq<u8>>;

/// Every byte that the encoder has handed to its writer so far: the part of
/// its output stream that already exists.
pub uninterp spec fn encoder_output(encoder: GzipEncoder) -> Seq<u8>;

/// The bytes that the encoder's writer, a `Vec<u8>`, holds now.
pub uninterp spec fn encoder_pending(encoder: GzipEncoder) -> Seq<u8>;

/// Whether `flate2` takes the last of the given chunks: whether, on an
/// encoder of the given level to which the chunks before it were written in
/// order, the write of the last one succeeds. The encoder writes into
/// memory, so nothing but the chunks and the level decides this.
pub uninterp spec fn gzip_accepts(chunks: Seq<Seq<u8>>, level: u32) -> bool;

/// What finishing gives when the given chunks were written, in order, to an
/// encoder of the given level: the complete gzip stream that `flate2`
/// produces for them, or nothing where finishing fails.
pub uninterp spec fn gzip_stream(chunks: Seq<Seq<u8>>, level: u32) -> Option<Seq<u8>>;

/// `GzEncoder::new` on an empty `Vec<u8>`, with `Compression::new(level)`.
/// The new encoder has been given nothing and has produced nothing.
#[verifier::external_body]
pub(crate) fn encoder_new(level: u32) -> (encoder: GzipEncoder)
    requires
        level <= 9,
    ensures
        encoder_level(encoder) == level,
        encoder_input(encoder) == Seq::<Seq<u8>>::empty(),
        encoder_output(encoder) == Seq::<u8>::empty(),
        encoder_pending(encoder) == Seq::<u8>::empty(),
{
    GzipEncoder { inner: GzEncoder::new(Vec::new(), Compression::new(level)) }
}

/// `Write::write_all` on the encoder. Whether it succeeds is decided by what
/// was written before, the chunk and the level. On success the chunk has
/// been taken in whole, and whatever the encoder produced meanwhile was
/// appended to its writer. Nothing is claimed of the encoder after a failure.
#[verifier::external_body]
pub(crate) fn encoder_write(encoder: &mut GzipEncoder, chunk: &[u8]) -> (result: Result<
    (),
    std::io::Error,
>)
    ensures
        result is Ok <==> gzip_accepts(
            encoder_input(*old(encoder)).push(chunk@),
            encoder_level(*old(encoder)),
        ),
        result is Ok ==> {
            &&& encoder_level(*final(encoder)) == encoder_level(*old(encoder))
            &&& encoder_input(*final(encoder)) == encoder_input(*old(encoder)).push(chunk@)
            &&& encoder_output(*old(encoder)).is_prefix_of(encoder_output(*final(encoder)))
            &&& encoder_pending(*final(encoder)) == encoder_pending(*old(encoder))
                + encoder_output(*final(encoder)).skip(encoder_output(*old(encoder)).len() as int)
        },
{
    encoder.inner.write_all(chunk)
}

/// `GzEncoder::get_mut`, with the writer's contents moved out. The encoder's
/// writer is left empty; its output stream is not touched by this.
#[verifier::external_body]
pub(crate) fn encoder_take(encoder: &mut GzipEncoder) -> (bytes: Vec<u8>)
    ensures
        bytes@ == encoder_pending(*old(encoder)),
        encoder_pending(*final(encoder)) == Seq::<u8>::empty(),
        encoder_level(*final(encoder)) == encoder_level(*old(encoder)),
        encoder_input(*final(encoder)) == encoder_input(*old(encoder)),
        encoder_output(*final(encoder)) == encoder_output(*old(encoder)),
{
    std::mem::take(encoder.inner.get_mut())
}

/// `GzEncoder::finish`. Whether it succeeds is decided by what was written
/// and the level. On success the writer comes back holding what it held
/// before and the rest of the stream after it; with the rest, the encoder's
/// output is the whole gzip stream of its input.
#[verifier::external_body]
pub(crate) fn encoder_finish(encoder: GzipEncoder) -> (result: Result<
    Vec<u8>,
    std::io::Error,
>)
    ensures
        match result {
            Ok(bytes) => {
                &&& encoder_pending(encoder).is_prefix_of(bytes@)
                &&& gzip_stream(encoder_input(encoder), encoder_level(encoder)) == Some(
                    encoder_output(encoder) + bytes@.skip(encoder_pending(encoder).len() as int),
                )
            },
            Err(_) => gzip_stream(encoder_input(encoder), encoder_level(encoder)) is None,
        },
{
    encoder.inner.finish()
}

} // verus!
