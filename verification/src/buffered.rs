//! The exhaustive backend behind a hand-built zlib envelope.
//!
//! The input is read in pieces through a reader that adds each piece to
//! the running checksum, and the pieces reach the encoder through a buffer
//! of fixed capacity. The encoder works on one buffer-load at a time.

use crate::adler::adler32;
use crate::adler::adler32_fits;
use crate::adler::HashingRead;
use crate::atomicmin::AtomicMin;
use crate::deflaters::Deflater;
use crate::encoder::encoder_finish;
use crate::encoder::encoder_new;
use crate::encoder::encoder_write;
use crate::encoder::fed;
use crate::encoder::ChunkEncoder;
use crate::error::PngError;
use crate::error::PngResult;
use crate::zlib::enveloped_header_is_multiple_of_31;
use crate::zlib::enveloped_trailer_is_checksum;
use crate::zlib::is_enveloped;
use crate::zlib::seal;
use crate::zlib::zlib_stream_is_enveloped;
use crate::zlib::ENVELOPE_OVERHEAD;
use vstd::prelude::*;

verus! {

/// The number of iterations of the default configuration.
pub const DEFAULT_ITERATIONS: u8 = 15;

/// The largest piece read from the input at once by default: 1 MiB.
pub const DEFAULT_INPUT_BUFFER_SIZE: usize = 1024 * 1024;

/// The capacity of the buffer before the encoder, and of the output at its
/// start, by default: 64 KiB.
pub const DEFAULT_OUTPUT_BUFFER_SIZE: usize = 64 * 1024;

/// The bound on block splits of the default configuration.
pub const DEFAULT_MAX_BLOCK_SPLITS: u16 = 15;

/// The largest capacity that a byte vector can be asked for.
pub const MAX_BUFFER_SIZE: usize = isize::MAX as usize;

/// The exhaustive encoder with its stream settings.
#[derive(Copy, Clone, Debug)]
pub struct BufferedZopfliDeflater {
    iterations: u8,
    input_buffer_size: usize,
    output_buffer_size: usize,
    max_block_splits: u16,
}

impl BufferedZopfliDeflater {
    /// What every configuration holds: at least one iteration, buffers of at
    /// least one byte that a byte vector can have, and at least one block
    /// split.
    #[verifier::type_invariant]
    pub closed spec fn well_formed(&self) -> bool {
        configurable(
            self.iterations,
            self.input_buffer_size,
            self.output_buffer_size,
            self.max_block_splits,
        )
    }

    /// The number of times the encoder reruns its passes over a block.
    pub closed spec fn iterations(&self) -> u8 {
        self.iterations
    }

    /// The largest piece that is read from the input at once, in bytes.
    pub closed spec fn input_buffer_size(&self) -> usize {
        self.input_buffer_size
    }

    /// The capacity of the buffer before the encoder, and of the output at
    /// its start, in bytes.
    pub closed spec fn output_buffer_size(&self) -> usize {
        self.output_buffer_size
    }

    /// The largest number of blocks that the encoder may split its input
    /// into.
    pub closed spec fn max_block_splits(&self) -> u16 {
        self.max_block_splits
    }

    /// A configuration with the given settings.
    pub fn new(
        iterations: u8,
        input_buffer_size: usize,
        output_buffer_size: usize,
        max_block_splits: u16,
    ) -> (made: Self)
        requires
            configurable(iterations, input_buffer_size, output_buffer_size, max_block_splits),
        ensures
            made.iterations() == iterations,
            made.input_buffer_size() == input_buffer_size,
            made.output_buffer_size() == output_buffer_size,
            made.max_block_splits() == max_block_splits,
    {
        BufferedZopfliDeflater {
            iterations,
            input_buffer_size,
            output_buffer_size,
            max_block_splits,
        }
    }

    /// The default configuration: 15 iterations, pieces of 1 MiB, a buffer
    /// of 64 KiB and 15 block splits.
    pub fn const_default() -> (made: Self)
        ensures
            made.iterations() == DEFAULT_ITERATIONS,
            made.input_buffer_size() == DEFAULT_INPUT_BUFFER_SIZE,
            made.output_buffer_size() == DEFAULT_OUTPUT_BUFFER_SIZE,
            made.max_block_splits() == DEFAULT_MAX_BLOCK_SPLITS,
    {
        BufferedZopfliDeflater {
            iterations: DEFAULT_ITERATIONS,
            input_buffer_size: DEFAULT_INPUT_BUFFER_SIZE,
            output_buffer_size: DEFAULT_OUTPUT_BUFFER_SIZE,
            max_block_splits: DEFAULT_MAX_BLOCK_SPLITS,
        }
    }

    /// Runs the encoder over `data` and returns the raw DEFLATE payload with
    /// the Adler-32 checksum of `data`, which is taken while the data
    /// streams past. A failure of the encoder or its sink ends the attempt;
    /// no part of the payload is returned then.
    fn encode(&self, data: &[u8]) -> (outcome: PngResult<(Vec<u8>, u32)>)
        ensures
            match outcome {
                Ok(produced) => produced.1 == adler32(data@),
                Err(error) => error matches PngError::Other(detail) && describes_failure(detail),
            },
    {
        proof {
            use_type_invariant(self);
        }
        let mut reader = HashingRead::new(data);
        let sink: Vec<u8> = Vec::with_capacity(self.output_buffer_size);
        let mut encoder = encoder_new(self.iterations, self.max_block_splits, sink);
        match feed(&mut encoder, &mut reader, self.input_buffer_size, self.output_buffer_size) {
            Ok(()) => {},
            Err(error) => {
                return Err(encoder_failure(&error));
            },
        }
        assert(fed(encoder) =~= data@);
        assert(data@.take(data@.len() as int) =~= data@);
        match encoder_finish(encoder) {
            Ok(payload) => Ok((payload, reader.checksum())),
            Err(error) => Err(encoder_failure(&error)),
        }
    }
}

impl Default for BufferedZopfliDeflater {
    fn default() -> (made: Self)
        ensures
            made.iterations() == DEFAULT_ITERATIONS,
            made.input_buffer_size() == DEFAULT_INPUT_BUFFER_SIZE,
            made.output_buffer_size() == DEFAULT_OUTPUT_BUFFER_SIZE,
            made.max_block_splits() == DEFAULT_MAX_BLOCK_SPLITS,
    {
        Self::const_default()
    }
}

impl Deflater for BufferedZopfliDeflater {
    /// The backend yields zlib streams: the header, a DEFLATE payload, and
    /// the Adler-32 checksum of the data.
    open spec fn yields(&self, data: Seq<u8>, stream: Seq<u8>) -> bool {
        is_enveloped(stream, adler32(data))
    }

    /// Compresses `data` and seals the payload into a zlib stream. The
    /// ceiling is read once, when the stream is complete; a longer stream is
    /// dropped with the length that it reached.
    fn deflate(&self, data: &[u8], max_size: &AtomicMin) -> (result: PngResult<Vec<u8>>)
        ensures
            result matches Err(PngError::DeflatedDataTooLong(reached)) ==> reached >= ENVELOPE_OVERHEAD,
            result matches Err(PngError::Other(detail)) ==> describes_failure(detail),
    {
        match self.encode(data) {
            Ok(produced) => {
                proof {
                    zlib_stream_is_enveloped(produced.0@, produced.1);
                }
                seal(produced.0, produced.1, max_size.get())
            },
            Err(error) => Err(error),
        }
    }
}

/// Whatever the exhaustive backend yields for `data` is framed as a zlib
/// stream: its first two bytes, read as one number, are a multiple of 31,
/// and its last four bytes, read as one number, are the Adler-32 checksum of
/// `data`, which fits them.
pub proof fn exhaustive_stream_is_framed(
    deflater: BufferedZopfliDeflater,
    data: Seq<u8>,
    stream: Seq<u8>,
)
    requires
        deflater.yields(data, stream),
    ensures
        stream.len() >= ENVELOPE_OVERHEAD,
        (stream[0] * 256 + stream[1]) % 31 == 0,
        stream[stream.len() - 4] * 0x100_0000 + stream[stream.len() - 3] * 0x1_0000 + stream[stream.len()
            - 2] * 0x100 + stream[stream.len() - 1] == adler32(data),
        adler32(data) <= u32::MAX,
{
    enveloped_header_is_multiple_of_31(stream, adler32(data));
    enveloped_trailer_is_checksum(stream, adler32(data));
    adler32_fits(data);
}

/// Compresses `data` with the exhaustive backend at the given number of
/// iterations and with the default stream settings. No iterations at all is
/// turned down before anything is compressed.
pub fn zopfli_deflate(data: &[u8], iterations: u8, max_size: &AtomicMin) -> (result: PngResult<
    Vec<u8>,
>)
    ensures
        match result {
            Ok(stream) => iterations >= 1 && is_enveloped(stream@, adler32(data@)),
            Err(PngError::DeflatedDataTooLong(reached)) => iterations >= 1 && reached
                >= ENVELOPE_OVERHEAD,
            Err(PngError::Other(_)) => true,
        },
        iterations == 0 ==> result matches Err(PngError::Other(_)),
{
    if iterations == 0 {
        return Err(PngError::new("the number of iterations must not be zero"));
    }
    let deflater = BufferedZopfliDeflater::new(
        iterations,
        DEFAULT_INPUT_BUFFER_SIZE,
        DEFAULT_OUTPUT_BUFFER_SIZE,
        DEFAULT_MAX_BLOCK_SPLITS,
    );
    deflater.deflate(data, max_size)
}

/// Whether the settings make a configuration: at least one iteration,
/// buffers of at least one byte and no more than a byte vector can have, and
/// at least one block split.
pub open spec fn configurable(
    iterations: u8,
    input_buffer_size: usize,
    output_buffer_size: usize,
    max_block_splits: u16,
) -> bool {
    &&& iterations >= 1
    &&& 1 <= input_buffer_size
    &&& 1 <= output_buffer_size <= MAX_BUFFER_SIZE
    &&& max_block_splits >= 1
}

/// The error for a failure that the encoder or its sink reported, with the
/// failure's own description.
fn encoder_failure(error: &std::io::Error) -> (failure: PngError)
    ensures
        failure matches PngError::Other(detail) && vstd::string::to_string_from_display_ensures::<std::io::Error>(error, detail),
{
    PngError::Other(error.to_string())
}

/// Drains the reader into the encoder through a buffer of `buffer_size`
/// bytes. A piece read has at most `read_size` bytes. The encoder gets full
/// buffers, and at the end what is left.
fn feed(
    encoder: &mut ChunkEncoder,
    reader: &mut HashingRead,
    read_size: usize,
    buffer_size: usize,
) -> (outcome: Result<(), std::io::Error>)
    requires
        old(reader).well_formed(),
        old(reader).consumed() == 0,
        read_size >= 1,
        buffer_size >= 1,
    ensures
        final(reader).well_formed(),
        final(reader).source() == old(reader).source(),
        outcome is Ok ==> final(reader).consumed() == old(reader).source().len(),
        outcome is Ok ==> fed(*final(encoder)) == fed(*old(encoder)) + old(reader).source(),
        old(reader).source().len() == 0 ==> outcome is Ok,
{
    let ghost data = reader.source();
    let mut buffer: Vec<u8> = Vec::new();
    while reader.remaining() > 0
        invariant
            read_size >= 1,
            buffer_size >= 1,
            reader.well_formed(),
            reader.source() == data,
            data == old(reader).source(),
            data.len() == 0 ==> buffer@.len() == 0,
            buffer@.len() < buffer_size,
            fed(*encoder) + buffer@ == fed(*old(encoder)) + data.take(reader.consumed() as int),
        decreases data.len() - reader.consumed(),
    {
        let room: usize = buffer_size - buffer.len();
        let limit: usize = if room < read_size {
            room
        } else {
            read_size
        };
        let ghost held = buffer@;
        let ghost given = fed(*encoder);
        let ghost read = data.take(reader.consumed() as int);
        let piece = reader.read(limit);
        buffer.extend_from_slice(piece);
        assert(buffer@ =~= held + piece@);
        assert(read + piece@ =~= data.take(reader.consumed() as int));
        assert(given + buffer@ =~= (given + held) + piece@);
        assert(fed(*old(encoder)) + (read + piece@) =~= (fed(*old(encoder)) + read) + piece@);
        if buffer.len() == buffer_size {
            match encoder_write(encoder, buffer.as_slice()) {
                Ok(()) => {},
                Err(error) => {
                    return Err(error);
                },
            }
            buffer.clear();
            assert(fed(*encoder) + buffer@ =~= fed(*encoder));
        }
    }
    assert(fed(*encoder) + buffer@ =~= fed(*encoder) || buffer@.len() > 0);
    if buffer.len() > 0 {
        match encoder_write(encoder, buffer.as_slice()) {
            Ok(()) => {},
            Err(error) => {
                return Err(error);
            },
        }
    }
    assert(data.take(data.len() as int) =~= data);
    Ok(())
}

/// Whether `detail` is the description that some failure of the encoder or
/// its sink gives of itself.
pub open spec fn describes_failure(detail: String) -> bool {
    exists|failure: std::io::Error|
        vstd::string::to_string_from_display_ensures::<std::io::Error>(&failure, detail)
}

} // verus!
