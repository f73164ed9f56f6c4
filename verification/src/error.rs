//! The failure taxonomy of an install run.

use vstd::prelude::*;

verus! {

/// Everything that can end a run short of success.
///
/// Each stage reports exactly one of these; the orchestrator forwards it
/// unchanged, except that an observed cancellation always takes precedence
/// over a concurrently reported failure.
#[derive(Clone, Copy, Debug, PartialEq, Eq, Structural)]
pub enum Error {
    /// A local read or write failed.
    IoError,
    /// A remote fetch failed; downloads are not retried automatically.
    NetworkError,
    /// The accumulated hash of the downloaded artifact did not match the
    /// hash the catalog declared.
    ChecksumMismatch,
    /// The catalog declared a compression scheme this build cannot handle.
    UnsupportedCompression,
    /// A requested partition size fell outside the freshly queried bounds;
    /// the resize primitive was never invoked.
    ResizeOutOfRange,
    /// The resize primitive was invoked and reported failure.
    ResizeFailed,
    /// Writing the image onto the target device failed.
    FlashFailed,
    /// The cancellation token was observed set during an in-flight stage.
    Cancelled,
}

impl Error {
    /// A short, stable label for display by the embedding program.
    pub fn describe(&self) -> (r: &'static str)
        ensures
            r@.len() > 0,
    {
        proof {
            reveal_strlit("failed to read or write a local file");
            reveal_strlit("failed to download the image");
            reveal_strlit("downloaded image did not match its declared hash");
            reveal_strlit("the declared compression scheme is not supported");
            reveal_strlit("new volume size outside of acceptable range");
            reveal_strlit("failed to shrink the host partition");
            reveal_strlit("failed to flash the image to the target disk");
            reveal_strlit("the installation was cancelled");
        }
        match self {
            Error::IoError => "failed to read or write a local file",
            Error::NetworkError => "failed to download the image",
            Error::ChecksumMismatch => "downloaded image did not match its declared hash",
            Error::UnsupportedCompression => "the declared compression scheme is not supported",
            Error::ResizeOutOfRange => "new volume size outside of acceptable range",
            Error::ResizeFailed => "failed to shrink the host partition",
            Error::FlashFailed => "failed to flash the image to the target disk",
            Error::Cancelled => "the installation was cancelled",
        }
    }
}

} // verus!
