//! The error type shared by the archival engine and the codec.

use vstd::prelude::*;

verus! {

/// `std::io::Error` is the error type of the compression routines the codec
/// calls into; it is declared here so that it can travel through the library's
/// own error type. Nothing is assumed about its contents.
#[verifier::external_type_specification]
#[verifier::external_body]
pub struct ExIoError(std::io::Error);

/// Everything that can go wrong inside the archival engine.
///
/// `InvalidConfig` is returned at construction time only, before any message
/// has been accepted. `CodecFailure` carries the underlying error of a failed
/// compression or decompression; it is fatal to the engine instance that
/// raised it.
#[derive(Debug)]
pub enum ArchiveError {
    InvalidConfig,
    CodecFailure(std::io::Error),
}

impl ArchiveError {
    /// True exactly on the construction-time configuration error.
    pub fn is_invalid_config(&self) -> (r: bool)
        ensures
            r == (self is InvalidConfig),
    {
        matches!(self, ArchiveError::InvalidConfig)
    }

    /// True exactly on a failure of the underlying codec.
    pub fn is_codec_failure(&self) -> (r: bool)
        ensures
            r == (self is CodecFailure),
    {
        matches!(self, ArchiveError::CodecFailure(_))
    }
}

} // verus!
