//! The static download URL for the runtime executable, keyed by OS and CPU
//! architecture.

use vstd::prelude::*;
use crate::errors::DownloaderError;
use crate::strutil::str_eq;

verus! {

/// The architectures a download URL exists for.
pub open spec fn arch_supported(arch: Seq<char>) -> bool {
    ||| arch == "x86_64"@
    ||| arch == "aarch64"@
    ||| arch == "arm64"@
}

/// Whether the architecture normalizes to `amd64` (else, when supported, it
/// normalizes to `arm64`).
pub open spec fn arch_is_amd64(arch: Seq<char>) -> bool {
    arch == "x86_64"@
}

/// The download URL for a supported OS and architecture, `None` where either
/// is unsupported.
pub open spec fn download_url_view(os: Seq<char>, arch: Seq<char>) -> Option<Seq<char>> {
    if !arch_supported(arch) {
        None
    } else if os == "macos"@ {
        Some("https://github.com/ollama/ollama/releases/latest/download/ollama-darwin"@)
    } else if os == "linux"@ {
        if arch_is_amd64(arch) {
            Some("https://github.com/ollama/ollama/releases/latest/download/ollama-linux-amd64"@)
        } else {
            Some("https://github.com/ollama/ollama/releases/latest/download/ollama-linux-arm64"@)
        }
    } else if os == "windows"@ {
        if arch_is_amd64(arch) {
            Some("https://github.com/ollama/ollama/releases/latest/download/ollama-windows-amd64.exe"@)
        } else {
            Some("https://github.com/ollama/ollama/releases/latest/download/ollama-windows-arm64.exe"@)
        }
    } else {
        None
    }
}

/// Folds the CPU architecture names the toolchain reports into the two the
/// release URLs use.
pub fn normalize_arch(arch: &str) -> (r: Option<&'static str>)
    ensures
        r is Some <==> arch_supported(arch@),
        arch_is_amd64(arch@) ==> (r matches Some(a) && a@ == "amd64"@),
        arch_supported(arch@) && !arch_is_amd64(arch@) ==> (r matches Some(a) && a@ == "arm64"@),
{
    if str_eq(arch, "x86_64") {
        Some("amd64")
    } else if str_eq(arch, "aarch64") || str_eq(arch, "arm64") {
        Some("arm64")
    } else {
        None
    }
}

/// The static URL the runtime executable is fetched from, or
/// `PlatformUnsupported` when the OS or the architecture has none.  No
/// network is touched here: an unsupported platform fails before any
/// request can be made.
pub fn ollama_download_url(os: &str, arch: &str) -> (r: Result<String, DownloaderError>)
    ensures
        download_url_view(os@, arch@) matches Some(u) ==> (r matches Ok(s) && s@ == u),
        download_url_view(os@, arch@) is None ==> r == Err::<String, DownloaderError>(DownloaderError::PlatformUnsupported),
{
    let amd64 = str_eq(arch, "x86_64");
    if !amd64 && !(str_eq(arch, "aarch64") || str_eq(arch, "arm64")) {
        return Err(DownloaderError::PlatformUnsupported);
    }
    if str_eq(os, "macos") {
        Ok("https://github.com/ollama/ollama/releases/latest/download/ollama-darwin".to_owned())
    } else if str_eq(os, "linux") {
        if amd64 {
            Ok("https://github.com/ollama/ollama/releases/latest/download/ollama-linux-amd64".to_owned())
        } else {
            Ok("https://github.com/ollama/ollama/releases/latest/download/ollama-linux-arm64".to_owned())
        }
    } else if str_eq(os, "windows") {
        if amd64 {
            Ok("https://github.com/ollama/ollama/releases/latest/download/ollama-windows-amd64.exe".to_owned())
        } else {
            Ok("https://github.com/ollama/ollama/releases/latest/download/ollama-windows-arm64.exe".to_owned())
        }
    } else {
        Err(DownloaderError::PlatformUnsupported)
    }
}

} // verus!
