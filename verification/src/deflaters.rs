//! The closed set of compression backends, and what they have in common.

use crate::adler::adler32;
use crate::atomicmin::AtomicMin;
use crate::buffered::zopfli_deflate;
use crate::deflater::deflate;
use crate::deflater::libdeflate_zlib;
use crate::deflater::valid_level;
use crate::deflater::MAX_LEVEL;
use crate::deflater::MIN_LEVEL;
use crate::error::PngError;
use crate::error::PngResult;
use crate::zlib::check_size;
use crate::zlib::is_enveloped;
use vstd::prelude::*;
use vstd::string::to_string_from_display_ensures;

verus! {

/// A compression backend: it turns data into a zlib stream that respects
/// the shared ceiling, or reports why there is none.
pub trait Deflater: Sync + Send {
    /// Whether `stream` is a compressed form of `data` that this backend
    /// may return.
    spec fn yields(&self, data: Seq<u8>, stream: Seq<u8>) -> bool;

    /// Compresses `data`. A stream that is longer than the ceiling at the
    /// moment of the check is dropped. The ceiling itself is left as it is.
    fn deflate(&self, data: &[u8], max_size: &AtomicMin) -> (result: PngResult<Vec<u8>>)
        ensures
            result matches Ok(stream) ==> self.yields(data@, stream@),
    ;
}

/// The backends to choose from, each with its one setting.
#[derive(Clone, Copy, Debug, PartialEq, Eq, Structural)]
pub enum Deflaters {
    /// The fast backend.
    Libdeflater {
        /// The compression level, from 1 to 12.
        compression: u8,
    },
    /// The exhaustive backend: better, and much slower.
    Zopfli {
        /// The number of iterations, at least 1. 15 are fine for small
        /// inputs; large inputs need fewer, or they take too long.
        iterations: u8,
    },
}

impl Deflaters {
    /// Whether the setting is in range: a level from 1 to 12, or at least
    /// one iteration.
    pub open spec fn valid(&self) -> bool {
        match self {
            Deflaters::Libdeflater { compression } => valid_level(*compression),
            Deflaters::Zopfli { iterations } => *iterations >= 1,
        }
    }

    /// Whether the setting is in range. A configuration is checked with this
    /// when it is made, before anything is compressed.
    pub fn is_valid(&self) -> (valid: bool)
        ensures
            valid == self.valid(),
    {
        match self {
            Deflaters::Libdeflater { compression } => MIN_LEVEL <= *compression && *compression
                <= MAX_LEVEL,
            Deflaters::Zopfli { iterations } => *iterations >= 1,
        }
    }

    /// A short name for the configuration, for logs and command lines: the
    /// level in decimal for the fast backend, `zopfli` for the exhaustive
    /// one.
    pub fn label(&self) -> (label: String)
        ensures
            match self {
                Deflaters::Libdeflater { compression } => to_string_from_display_ensures::<u8>(
                    compression,
                    label,
                ),
                Deflaters::Zopfli { .. } => label@ == "zopfli"@,
            },
    {
        match self {
            Deflaters::Libdeflater { compression } => compression.to_string(),
            Deflaters::Zopfli { .. } => "zopfli".to_owned(),
        }
    }
}

/// The fast backend is a function of the data and the level: whatever it
/// yields for the same data at the same level is the same stream, byte for
/// byte.
pub proof fn fast_streams_agree(config: Deflaters, data: Seq<u8>, first: Seq<u8>, second: Seq<u8>)
    requires
        config is Libdeflater,
        config.yields(data, first),
        config.yields(data, second),
    ensures
        first == second,
{
}

impl Deflater for Deflaters {
    /// The fast backend yields the one stream that its encoder makes of the
    /// data at the level; the exhaustive backend yields zlib streams with
    /// the Adler-32 checksum of the data.
    open spec fn yields(&self, data: Seq<u8>, stream: Seq<u8>) -> bool {
        match self {
            Deflaters::Libdeflater { compression } => stream == libdeflate_zlib(data, *compression),
            Deflaters::Zopfli { .. } => is_enveloped(stream, adler32(data)),
        }
    }

    /// Compresses `data` with the configured backend, under the same
    /// ceiling, and holds what comes back against the ceiling once more: a
    /// longer stream is dropped, and the error carries the ceiling. A
    /// configuration that is out of range is turned down before anything is
    /// compressed.
    fn deflate(&self, data: &[u8], max_size: &AtomicMin) -> (result: PngResult<Vec<u8>>)
        ensures
            result is Ok ==> self.valid(),
            !self.valid() ==> result matches Err(PngError::Other(_)),
            self matches Deflaters::Libdeflater { compression } ==> match result {
                Ok(_) => true,
                Err(PngError::DeflatedDataTooLong(max)) => libdeflate_zlib(data@, *compression).len()
                    > max,
                Err(PngError::Other(_)) => !self.valid(),
            },
    {
        let compressed = match self {
            Deflaters::Libdeflater { compression } => deflate(data, *compression, max_size),
            Deflaters::Zopfli { iterations } => zopfli_deflate(data, *iterations, max_size),
        };
        match compressed {
            Ok(stream) => check_size(stream, max_size.get()),
            Err(error) => Err(error),
        }
    }
}

} // verus!
