//! The zlib envelope: two header bytes, the DEFLATE payload, and the
//! Adler-32 checksum of the uncompressed data as four trailing bytes.

use crate::error::PngError;
use crate::error::PngResult;
use vstd::prelude::*;

verus! {

/// The compression method and window byte: method 8 (DEFLATE) with window
/// exponent 7 (32 KiB).
pub const CMF: u16 = 120;

/// The compression level hint of the header: 3, the slowest and best.
pub const FLEVEL: u16 = 3;

/// The preset dictionary flag of the header: 0, there is none.
pub const FDICT: u16 = 0;

/// The number of bytes that the envelope adds to the payload.
pub const ENVELOPE_OVERHEAD: usize = 6;

/// The header before its check bits are filled in.
pub open spec fn header_base() -> int {
    256 * CMF + FDICT * 32 + FLEVEL * 64
}

/// The header as a 16-bit number: the base plus the check bits that make it
/// a multiple of 31.
pub open spec fn header_word() -> int {
    header_base() + (31 - header_base() % 31)
}

/// The number that `bytes` spell, most significant byte first.
pub open spec fn be_value(bytes: Seq<u8>) -> nat
    decreases bytes.len(),
{
    if bytes.len() == 0 {
        0
    } else {
        be_value(bytes.drop_last()) * 256 + bytes.last() as nat
    }
}

/// The two bytes of a 16-bit number, most significant first.
pub open spec fn be16(word: u16) -> Seq<u8> {
    seq![(word / 256) as u8, (word % 256) as u8]
}

/// The four bytes of a 32-bit number, most significant first.
pub open spec fn be32(word: u32) -> Seq<u8> {
    seq![
        (word / 0x100_0000) as u8,
        (word / 0x1_0000 % 256) as u8,
        (word / 0x100 % 256) as u8,
        (word % 256) as u8,
    ]
}

/// The zlib stream around `payload` for data whose checksum is `checksum`.
pub open spec fn zlib_stream(payload: Seq<u8>, checksum: u32) -> Seq<u8> {
    be16(header_word() as u16) + payload + be32(checksum)
}

/// Whether `stream` has the envelope of a zlib stream for data whose
/// checksum is `checksum`: it starts with the header, ends with the checksum
/// and has room for both.
pub open spec fn is_enveloped(stream: Seq<u8>, checksum: nat) -> bool {
    &&& stream.len() >= ENVELOPE_OVERHEAD
    &&& be_value(stream.take(2)) == header_word()
    &&& be_value(stream.skip(stream.len() - 4)) == checksum
}

/// An outcome with the stream's bytes in place of the vector that holds
/// them.
pub open spec fn outcome_of(result: PngResult<Vec<u8>>) -> Result<Seq<u8>, PngError> {
    match result {
        Ok(stream) => Ok(stream@),
        Err(error) => Err(error),
    }
}

/// What the final gate makes of a candidate: the candidate itself, unless a
/// ceiling is set and the candidate is longer; then an error that carries
/// the ceiling.
pub open spec fn gated(candidate: Seq<u8>, limit: Option<usize>) -> Result<Seq<u8>, PngError> {
    match limit {
        Some(max) if candidate.len() > max => Err(PngError::DeflatedDataTooLong(max)),
        _ => Ok(candidate),
    }
}

/// What sealing makes of a payload: the zlib stream around it, unless a
/// ceiling is set and the stream is longer; then an error that carries the
/// stream's length.
pub open spec fn sealed(payload: Seq<u8>, checksum: u32, limit: Option<usize>) -> Result<
    Seq<u8>,
    PngError,
> {
    let stream = zlib_stream(payload, checksum);
    match limit {
        Some(max) if stream.len() > max => Err(
            PngError::DeflatedDataTooLong(stream.len() as usize),
        ),
        _ => Ok(stream),
    }
}

/// Two bytes spell the number they were cut from.
pub proof fn be16_spells(word: u16)
    ensures
        be16(word).len() == 2,
        be_value(be16(word)) == word,
{
    reveal_with_fuel(be_value, 3);
    let bytes = be16(word);
    assert(bytes.drop_last() =~= seq![bytes[0]]);
    assert(bytes.drop_last().drop_last() =~= Seq::<u8>::empty());
}

/// Four bytes spell the number they were cut from.
pub proof fn be32_spells(word: u32)
    ensures
        be32(word).len() == 4,
        be_value(be32(word)) == word,
{
    reveal_with_fuel(be_value, 5);
    let bytes = be32(word);
    assert(bytes.drop_last() =~= seq![bytes[0], bytes[1], bytes[2]]);
    assert(bytes.drop_last().drop_last() =~= seq![bytes[0], bytes[1]]);
    assert(bytes.drop_last().drop_last().drop_last() =~= seq![bytes[0]]);
    assert(bytes.drop_last().drop_last().drop_last().drop_last() =~= Seq::<u8>::empty());
}

/// The header is the 16-bit number 0x78DA, a multiple of 31, as the zlib
/// format asks of the first two bytes of every stream.
pub proof fn header_is_multiple_of_31()
    ensures
        header_word() == 0x78DA,
        header_word() % 31 == 0,
{
}

/// A sealed stream has the envelope: its first two bytes spell a multiple of
/// 31, its last four spell the checksum, and the payload lies between.
pub proof fn zlib_stream_is_enveloped(payload: Seq<u8>, checksum: u32)
    ensures
        zlib_stream(payload, checksum).len() == payload.len() + ENVELOPE_OVERHEAD,
        is_enveloped(zlib_stream(payload, checksum), checksum as nat),
        be_value(zlib_stream(payload, checksum).take(2)) % 31 == 0,
        zlib_stream(payload, checksum).subrange(2, 2 + payload.len() as int) == payload,
{
    let stream = zlib_stream(payload, checksum);
    let header = header_word() as u16;
    be16_spells(header);
    be32_spells(checksum);
    assert(stream.take(2) =~= be16(header));
    assert(stream.skip(stream.len() - 4) =~= be32(checksum));
    assert(stream.subrange(2, 2 + payload.len() as int) =~= payload);
}

/// The first two bytes of an enveloped stream, read as one number with the
/// first byte as the upper half, are a multiple of 31.
pub proof fn enveloped_header_is_multiple_of_31(stream: Seq<u8>, checksum: nat)
    requires
        is_enveloped(stream, checksum),
    ensures
        (stream[0] * 256 + stream[1]) % 31 == 0,
        stream[0] == 0x78,
        stream[1] == 0xDA,
{
    reveal_with_fuel(be_value, 3);
    let head = stream.take(2);
    assert(head.drop_last() =~= seq![stream[0]]);
    assert(head.drop_last().drop_last() =~= Seq::<u8>::empty());
    assert(head.last() == stream[1]);
}

/// The last four bytes of an enveloped stream, read as one number with the
/// first of them as the most significant, are the checksum.
pub proof fn enveloped_trailer_is_checksum(stream: Seq<u8>, checksum: nat)
    requires
        is_enveloped(stream, checksum),
    ensures
        stream[stream.len() - 4] * 0x100_0000 + stream[stream.len() - 3] * 0x1_0000 + stream[stream.len()
            - 2] * 0x100 + stream[stream.len() - 1] == checksum,
{
    reveal_with_fuel(be_value, 5);
    let at = stream.len() - 4;
    let tail = stream.skip(at);
    assert(tail.drop_last() =~= seq![stream[at], stream[at + 1], stream[at + 2]]);
    assert(tail.drop_last().drop_last() =~= seq![stream[at], stream[at + 1]]);
    assert(tail.drop_last().drop_last().drop_last() =~= seq![stream[at]]);
    assert(tail.drop_last().drop_last().drop_last().drop_last() =~= Seq::<u8>::empty());
    assert(tail.last() == stream[at + 3]);
}

/// A ceiling does nothing to an attempt but drop it: a candidate that is
/// longer than the ceiling is turned into an error, and any other candidate
/// comes back as it would without a ceiling, byte for byte.
pub proof fn ceiling_only_drops(candidate: Seq<u8>, payload: Seq<u8>, checksum: u32, max: usize)
    ensures
        gated(candidate, None) == Ok::<Seq<u8>, PngError>(candidate),
        candidate.len() <= max ==> gated(candidate, Some(max)) == gated(candidate, None),
        candidate.len() > max ==> gated(candidate, Some(max)) == Err::<Seq<u8>, PngError>(
            PngError::DeflatedDataTooLong(max),
        ),
        sealed(payload, checksum, None) == Ok::<Seq<u8>, PngError>(zlib_stream(payload, checksum)),
        payload.len() + ENVELOPE_OVERHEAD <= max ==> sealed(payload, checksum, Some(max)) == sealed(
            payload,
            checksum,
            None,
        ),
        payload.len() + ENVELOPE_OVERHEAD > max ==> sealed(payload, checksum, Some(max)) == Err::<
            Seq<u8>,
            PngError,
        >(PngError::DeflatedDataTooLong((payload.len() + ENVELOPE_OVERHEAD) as usize)),
{
    zlib_stream_is_enveloped(payload, checksum);
}

/// The header of every stream, computed from the method, the dictionary flag
/// and the level hint.
pub fn zlib_header() -> (header: u16)
    ensures
        header == header_word(),
        header % 31 == 0,
{
    let mut cmfflg: u16 = 256 * CMF + FDICT * 32 + FLEVEL * 64;
    let fcheck: u16 = 31 - cmfflg % 31;
    cmfflg += fcheck;
    cmfflg
}

/// The final gate on a candidate: it passes unchanged unless a ceiling is
/// set and the candidate is longer, in which case the candidate is dropped
/// and the error carries the ceiling.
pub fn check_size(compressed: Vec<u8>, limit: Option<usize>) -> (result: PngResult<Vec<u8>>)
    ensures
        outcome_of(result) == gated(compressed@, limit),
{
    match limit {
        Some(max) => {
            if compressed.len() > max {
                return Err(PngError::DeflatedDataTooLong(max));
            }
        },
        None => {},
    }
    Ok(compressed)
}

/// Seals `payload` into a zlib stream and holds it against the ceiling. The
/// whole stream is assembled first; where it is longer than the ceiling, it
/// is dropped and the error carries the length that was reached.
pub fn seal(payload: Vec<u8>, checksum: u32, limit: Option<usize>) -> (result: PngResult<Vec<u8>>)
    ensures
        outcome_of(result) == sealed(payload@, checksum, limit),
        zlib_stream(payload@, checksum).len() <= usize::MAX,
{
    let header: u16 = zlib_header();
    let mut out: Vec<u8> = Vec::with_capacity(ENVELOPE_OVERHEAD);
    out.push((header / 256) as u8);
    out.push((header % 256) as u8);
    out.extend_from_slice(payload.as_slice());
    out.push((checksum / 0x100_0000) as u8);
    out.push((checksum / 0x1_0000 % 256) as u8);
    out.push((checksum / 0x100 % 256) as u8);
    out.push((checksum % 256) as u8);
    assert(out@ =~= zlib_stream(payload@, checksum));
    let reached: usize = out.len();
    match limit {
        Some(max) => {
            if max < reached {
                return Err(PngError::DeflatedDataTooLong(reached));
            }
        },
        None => {},
    }
    Ok(out)
}

} // verus!
