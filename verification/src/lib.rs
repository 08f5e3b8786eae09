//! Compression backends for re-encoding image data: a fast single-pass zlib
//! encoder and an exhaustive, iterative one, behind one interface, together
//! with the shared size ceiling that lets an attempt be dropped as soon as it
//! is known to be no better than the best one found so far.

pub mod adler;
pub mod atomicmin;
pub mod buffered;
pub mod deflater;
pub mod deflaters;
pub mod encoder;
pub mod error;
pub mod zlib;

pub use atomicmin::AtomicMin;
pub use buffered::zopfli_deflate;
pub use buffered::BufferedZopfliDeflater;
pub use deflater::deflate;
pub use deflaters::Deflater;
pub use deflaters::Deflaters;
pub use error::PngError;
pub use error::PngResult;
