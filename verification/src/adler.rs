//! The Adler-32 checksum of a zlib trailer, the running hasher that computes
//! it piece by piece, and a reader that hashes what it hands out.

use simd_adler32::Adler32;
use vstd::prelude::*;
use vstd::slice::slice_subrange;

verus! {

/// The modulus of both halves of the checksum: the largest prime below 65536.
pub const ADLER_MODULUS: u32 = 65521;

/// The low half of the checksum: one plus the sum of the bytes.
pub open spec fn adler_low(data: Seq<u8>) -> nat
    decreases data.len(),
{
    if data.len() == 0 {
        1
    } else {
        (adler_low(data.drop_last()) + data.last() as nat) % (ADLER_MODULUS as nat)
    }
}

/// The high half of the checksum: the sum of the low halves of all prefixes.
pub open spec fn adler_high(data: Seq<u8>) -> nat
    decreases data.len(),
{
    if data.len() == 0 {
        0
    } else {
        (adler_high(data.drop_last()) + adler_low(data)) % (ADLER_MODULUS as nat)
    }
}

/// The Adler-32 checksum of `data`.
pub open spec fn adler32(data: Seq<u8>) -> nat {
    adler_high(data) * 65536 + adler_low(data)
}

/// The running hasher of the `simd_adler32` crate. Nothing inside it is
/// visible here; `hashed` names what it has been given.
#[verifier::external_type_specification]
#[verifier::external_body]
pub struct ExAdler32(Adler32);

/// The bytes that a hasher has been given since it was made, in order.
pub uninterp spec fn hashed(hasher: Adler32) -> Seq<u8>;

/// `Adler32::new` makes a hasher that has been given nothing.
pub assume_specification[ Adler32::new ]() -> (hasher: Adler32)
    ensures
        hashed(hasher) == Seq::<u8>::empty(),
;

/// `Adler32::write` gives the hasher `data`, after what it already has.
pub assume_specification[ Adler32::write ](hasher: &mut Adler32, data: &[u8])
    ensures
        hashed(*final(hasher)) == hashed(*old(hasher)) + data@,
;

/// `Adler32::finish` returns the Adler-32 checksum of all that the hasher
/// has been given.
pub assume_specification[ Adler32::finish ](hasher: &Adler32) -> (sum: u32)
    ensures
        sum == adler32(hashed(*hasher)),
;

/// Both halves of a checksum are below the modulus, so it fits 32 bits.
pub proof fn adler32_fits(data: Seq<u8>)
    ensures
        adler_low(data) < ADLER_MODULUS,
        adler_high(data) < ADLER_MODULUS,
        adler32(data) <= u32::MAX,
    decreases data.len(),
{
    if data.len() > 0 {
        adler32_fits(data.drop_last());
    }
}

/// A reader over a byte slice that adds every piece it hands out to a
/// running checksum, so that the data is walked once.
pub struct HashingRead<'a> {
    data: &'a [u8],
    consumed: usize,
    hasher: Adler32,
}

impl<'a> HashingRead<'a> {
    /// The bytes that the reader was opened over.
    pub closed spec fn source(&self) -> Seq<u8> {
        self.data@
    }

    /// The number of bytes that the reader has handed out.
    pub closed spec fn consumed(&self) -> nat {
        self.consumed as nat
    }

    /// What holds of every reader: it has handed out no more than there is,
    /// and its hasher has been given exactly what it has handed out.
    pub closed spec fn well_formed(&self) -> bool {
        &&& self.consumed <= self.data@.len()
        &&& hashed(self.hasher) == self.data@.take(self.consumed as int)
    }

    /// A reader at the start of `data`.
    pub fn new(data: &'a [u8]) -> (reader: Self)
        ensures
            reader.well_formed(),
            reader.source() == data@,
            reader.consumed() == 0,
    {
        let reader = HashingRead { data, consumed: 0, hasher: Adler32::new() };
        assert(data@.take(0) =~= Seq::<u8>::empty());
        reader
    }

    /// The number of bytes that are still to be handed out.
    pub fn remaining(&self) -> (left: usize)
        requires
            self.well_formed(),
        ensures
            left == self.source().len() - self.consumed(),
    {
        self.data.len() - self.consumed
    }

    /// Hands out the next piece, of at most `limit` bytes, and adds it to
    /// the checksum. The piece is shorter than `limit` only at the end of
    /// the data.
    pub fn read(&mut self, limit: usize) -> (piece: &'a [u8])
        requires
            old(self).well_formed(),
        ensures
            final(self).well_formed(),
            final(self).source() == old(self).source(),
            final(self).consumed() == old(self).consumed() + piece@.len(),
            final(self).consumed() <= old(self).source().len(),
            piece@.len() == limit || final(self).consumed() == old(self).source().len(),
            piece@.len() <= limit,
            piece@ == old(self).source().subrange(
                old(self).consumed() as int,
                final(self).consumed() as int,
            ),
    {
        let left: usize = self.data.len() - self.consumed;
        let take: usize = if limit < left {
            limit
        } else {
            left
        };
        let piece = slice_subrange(self.data, self.consumed, self.consumed + take);
        assert(self.data@.take(self.consumed as int) + piece@ =~= self.data@.take(
            self.consumed + take,
        ));
        self.hasher.write(piece);
        self.consumed = self.consumed + take;
        piece
    }

    /// The Adler-32 checksum of what has been handed out.
    pub fn checksum(&self) -> (sum: u32)
        requires
            self.well_formed(),
        ensures
            sum == adler32(self.source().take(self.consumed() as int)),
    {
        self.hasher.finish()
    }
}

} // verus!
