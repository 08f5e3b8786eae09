//! The fast backend: one call of `libdeflater`'s zlib encoder at a fixed
//! level, into a buffer that is large enough for any outcome.

use crate::atomicmin::AtomicMin;
use crate::error::PngError;
use crate::error::PngResult;
use crate::zlib::check_size;
use libdeflater::CompressionError;
use libdeflater::CompressionLvl;
use libdeflater::Compressor;
use vstd::prelude::*;

verus! {

/// The lowest level of the fast backend.
pub const MIN_LEVEL: u8 = 1;

/// The highest level of the fast backend.
pub const MAX_LEVEL: u8 = 12;

/// Whether `level` is one that the fast backend offers.
pub open spec fn valid_level(level: u8) -> bool {
    MIN_LEVEL <= level <= MAX_LEVEL
}

/// A compressor of the `libdeflater` crate. Nothing inside it is visible
/// here; `compressor_level` names the level that it was made with.
#[verifier::external_type_specification]
#[verifier::external_body]
pub struct ExCompressor(Compressor);

/// The one way in which a compressor of `libdeflater` fails: the output
/// buffer was too small.
#[verifier::external_type_specification]
pub struct ExCompressionError(CompressionError);

/// The level that a compressor was made with.
pub uninterp spec fn compressor_level(compressor: Compressor) -> u8;

/// The size that `Compressor::zlib_compress_bound` gives for an input of
/// `n_bytes` bytes at `level`: no zlib stream that the compressor makes of
/// such an input is longer.
pub uninterp spec fn libdeflate_zlib_bound(level: u8, n_bytes: usize) -> usize;

/// The zlib stream that `Compressor::zlib_compress` writes for `data` at
/// `level`, into a buffer of `libdeflate_zlib_bound` bytes.
pub uninterp spec fn libdeflate_zlib(data: Seq<u8>, level: u8) -> Seq<u8>;

/// `Compressor::new` on `CompressionLvl::new(level)`, which accepts the
/// levels up to 12: a compressor for that level.
#[verifier::external_body]
pub(crate) fn compressor_at(level: u8) -> (compressor: Compressor)
    requires
        level <= MAX_LEVEL,
    ensures
        compressor_level(compressor) == level,
{
    Compressor::new(CompressionLvl::new(i32::from(level)).unwrap())
}

/// `Compressor::zlib_compress_bound` depends on the compressor's level and
/// on the input's length alone, and leaves the compressor as it was.
pub assume_specification[ Compressor::zlib_compress_bound ](
    compressor: &mut Compressor,
    n_bytes: usize,
) -> (bound: usize)
    ensures
        bound == libdeflate_zlib_bound(compressor_level(*old(compressor)), n_bytes),
        compressor_level(*final(compressor)) == compressor_level(*old(compressor)),
;

/// `Compressor::zlib_compress`, into a buffer of the size that
/// `zlib_compress_bound` gave for this input: it succeeds, since the buffer
/// is large enough for any outcome, writes the zlib stream of the data at
/// the compressor's level to the front of the buffer, and returns the
/// stream's length. The buffer keeps its length, the compressor its level.
pub assume_specification[ Compressor::zlib_compress ](
    compressor: &mut Compressor,
    in_raw_data: &[u8],
    out_zlib_data: &mut [u8],
) -> (written: Result<usize, CompressionError>)
    requires
        old(out_zlib_data)@.len() == libdeflate_zlib_bound(
            compressor_level(*old(compressor)),
            in_raw_data.len(),
        ),
    ensures
        compressor_level(*final(compressor)) == compressor_level(*old(compressor)),
        final(out_zlib_data)@.len() == old(out_zlib_data)@.len(),
        written matches Ok(len) && len <= old(out_zlib_data)@.len() && final(out_zlib_data)@.take(
            len as int,
        ) == libdeflate_zlib(in_raw_data@, compressor_level(*old(compressor))),
;

/// The zlib stream of `data` at `level`, from one call of the compressor.
/// A level outside 1 to 12 is turned down before anything is compressed.
pub fn zlib_encode(data: &[u8], level: u8) -> (result: PngResult<Vec<u8>>)
    ensures
        match result {
            Ok(stream) => valid_level(level) && stream@ == libdeflate_zlib(data@, level),
            Err(error) => !valid_level(level) && error is Other,
        },
{
    if level < MIN_LEVEL || level > MAX_LEVEL {
        return Err(PngError::new("unsupported compression level"));
    }
    let mut compressor = compressor_at(level);
    let capacity: usize = compressor.zlib_compress_bound(data.len());
    let mut dest: Vec<u8> = vec![0u8; capacity];
    match compressor.zlib_compress(data, dest.as_mut_slice()) {
        Ok(len) => {
            dest.truncate(len);
            Ok(dest)
        },
        Err(CompressionError::InsufficientSpace) => Err(
            PngError::new("the compressor ran out of space"),
        ),
    }
}

/// Compresses `data` at `level` with the fast backend. The same data and
/// level always give the same stream. A stream that is longer than the
/// ceiling is dropped, and the error carries the ceiling.
pub fn deflate(data: &[u8], level: u8, max_size: &AtomicMin) -> (result: PngResult<Vec<u8>>)
    ensures
        match result {
            Ok(stream) => valid_level(level) && stream@ == libdeflate_zlib(data@, level),
            Err(PngError::DeflatedDataTooLong(max)) => valid_level(level) && libdeflate_zlib(
                data@,
                level,
            ).len() > max,
            Err(PngError::Other(_)) => !valid_level(level),
        },
{
    match zlib_encode(data, level) {
        Ok(stream) => check_size(stream, max_size.get()),
        Err(error) => Err(error),
    }
}

} // verus!
