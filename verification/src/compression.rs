//! How a request body is compressed.
use vstd::prelude::*;

verus! {

/// The ways to compress a request body.
#[derive(Debug, Clone, Copy, PartialEq, Eq, Structural)]
pub enum Compression {
    Uncompressed,
    Zstd,
}

impl Default for Compression {
    /// A request body is not compressed unless asked for.
    fn default() -> (compression: Self)
        ensures
            compression == Compression::Uncompressed,
    {
        Compression::Uncompressed
    }
}

} // verus!
