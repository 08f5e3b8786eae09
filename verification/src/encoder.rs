//! The streaming DEFLATE encoder of the `zopfli` crate, as this library
//! uses it: made once, given the input piece by piece, and finished.
//!
//! What the encoder emits is not stated here. Its cost model takes
//! logarithms in floating point, whose last digit the platform decides, so
//! the stream is not one function of the input on every machine. The
//! contracts below say which bytes the encoder has been given, and nothing
//! about the bytes it returns.

use std::io::Write;
use std::num::NonZeroU64;
use vstd::prelude::*;
use zopfli::BlockType;
use zopfli::DeflateEncoder;
use zopfli::Options;

verus! {

/// `std::io::Error`: the failure that a sink or an encoder reports.
#[verifier::external_type_specification]
#[verifier::external_body]
pub struct ExIoError(std::io::Error);

/// A `zopfli::DeflateEncoder` that writes into a byte vector of its own.
#[verifier::external_body]
pub struct ChunkEncoder {
    inner: DeflateEncoder<Vec<u8>>,
}

/// The bytes that an encoder has been given since it was made, in order.
pub uninterp spec fn fed(encoder: ChunkEncoder) -> Seq<u8>;

/// `DeflateEncoder::new`, for dynamic blocks, with the given number of
/// iterations and bound on block splits, on top of the empty `sink`. The new
/// encoder has been given nothing.
#[verifier::external_body]
pub(crate) fn encoder_new(iterations: u8, max_block_splits: u16, sink: Vec<u8>) -> (encoder:
    ChunkEncoder)
    requires
        iterations >= 1,
        sink@.len() == 0,
    ensures
        fed(encoder) == Seq::<u8>::empty(),
{
    let options = Options {
        iteration_count: NonZeroU64::new(u64::from(iterations)).unwrap(),
        maximum_block_splits: max_block_splits,
        ..Options::default()
    };
    ChunkEncoder { inner: DeflateEncoder::new(options, BlockType::Dynamic, sink) }
}

/// `write_all` on the encoder: it compresses the chunk it held and takes
/// `chunk` as the next one. When it reports success it has taken the whole
/// of `chunk`.
#[verifier::external_body]
pub(crate) fn encoder_write(encoder: &mut ChunkEncoder, chunk: &[u8]) -> (outcome: Result<
    (),
    std::io::Error,
>)
    ensures
        outcome is Ok ==> fed(*final(encoder)) == fed(*old(encoder)) + chunk@,
{
    encoder.inner.write_all(chunk)
}

/// `DeflateEncoder::finish`: it compresses the last chunk, pads the last
/// byte and hands back the sink, which then holds a complete DEFLATE stream
/// for what the encoder was given.
#[verifier::external_body]
pub(crate) fn encoder_finish(encoder: ChunkEncoder) -> (outcome: Result<Vec<u8>, std::io::Error>) {
    encoder.inner.finish()
}

} // verus!
