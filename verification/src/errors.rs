//! The failure kinds that artifact acquisition can surface.

use vstd::prelude::*;

verus! {

/// Every fatal failure of the acquisition logic.  Malformed pull-status
/// chunks are deliberately not an error: they are skipped (see the pull
/// module).
#[derive(Clone, Copy, Debug, PartialEq, Eq, Structural)]
pub enum DownloaderError {
    /// The OS-provided local-data root could not be determined.
    DirectoryResolution,
    /// The OS or CPU architecture has no download URL.
    PlatformUnsupported,
    /// The binary download got a non-success HTTP status or its transport failed.
    DownloadFailed,
    /// The transport of the model pull stream failed.
    PullStream,
}

impl DownloaderError {
    /// A human-readable description of the failure.
    pub fn describe(&self) -> (r: &'static str)
        ensures
            *self == DownloaderError::DirectoryResolution ==> r@ == "Failed to get data directory"@,
            *self == DownloaderError::PlatformUnsupported ==> r@ == "Unsupported platform or architecture"@,
            *self == DownloaderError::DownloadFailed ==> r@ == "Ollama runtime download failed"@,
            *self == DownloaderError::PullStream ==> r@ == "Model download interrupted"@,
    {
        match self {
            DownloaderError::DirectoryResolution => "Failed to get data directory",
            DownloaderError::PlatformUnsupported => "Unsupported platform or architecture",
            DownloaderError::DownloadFailed => "Ollama runtime download failed",
            DownloaderError::PullStream => "Model download interrupted",
        }
    }
}

} // verus!
