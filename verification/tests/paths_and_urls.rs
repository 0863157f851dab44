use model_downloader::errors::DownloaderError;
use model_downloader::paths::{
    is_ollama_binary_installed, models_marker_path, ollama_app_dir, ollama_app_path,
    ollama_binary_name, ollama_resource_path, resolve_resource_base, FsPath,
};
use model_downloader::strutil::{str_contains, str_eq};
use model_downloader::urls::{normalize_arch, ollama_download_url};

fn path(segments: &[&str]) -> FsPath {
    FsPath::from_segments(segments.iter().map(|s| s.to_string()).collect())
}

fn segments(p: &FsPath) -> Vec<String> {
    p.segments.clone()
}

#[test]
fn binary_name_per_platform() {
    assert_eq!(ollama_binary_name(true), "ollama.exe");
    assert_eq!(ollama_binary_name(false), "ollama");
}

#[test]
fn resource_base_rebases_under_resources() {
    let dir = path(&["opt", "app"]);
    let base = resolve_resource_base(&dir, true);
    assert_eq!(segments(&base), vec!["opt", "app", "resources"]);
    let flat = resolve_resource_base(&dir, false);
    assert_eq!(segments(&flat), vec!["opt", "app"]);
}

#[test]
fn resource_path_layout() {
    let dir = path(&["opt", "app"]);
    let with = ollama_resource_path(&dir, true, false);
    assert_eq!(segments(&with), vec!["opt", "app", "resources", "ollama", "ollama"]);
    let without = ollama_resource_path(&dir, false, true);
    assert_eq!(segments(&without), vec!["opt", "app", "ollama", "ollama.exe"]);
}

#[test]
fn app_dir_and_path_under_data_root() {
    let root = Some(path(&["home", "user", ".local", "share"]));
    let dir = ollama_app_dir(&root).unwrap();
    assert_eq!(
        segments(&dir),
        vec!["home", "user", ".local", "share", "com.bageltech.cogniscribe", "ollama"]
    );
    let full = ollama_app_path(&root, false).unwrap();
    assert_eq!(
        segments(&full),
        vec!["home", "user", ".local", "share", "com.bageltech.cogniscribe", "ollama", "ollama"]
    );
}

#[test]
fn missing_data_root_is_directory_resolution_error() {
    assert_eq!(ollama_app_dir(&None), Err(DownloaderError::DirectoryResolution));
    assert_eq!(ollama_app_path(&None, false), Err(DownloaderError::DirectoryResolution));
    assert_eq!(
        is_ollama_binary_installed(false, None),
        Err(DownloaderError::DirectoryResolution)
    );
}

#[test]
fn marker_path_layout() {
    let root = path(&["data"]);
    let marker = models_marker_path(&root);
    assert_eq!(segments(&marker), vec!["data", "com.bageltech.cogniscribe", ".models-installed"]);
}

#[test]
fn installed_check_is_disjunction_of_probes() {
    assert_eq!(is_ollama_binary_installed(true, None), Ok(true));
    assert_eq!(is_ollama_binary_installed(true, Some(false)), Ok(true));
    assert_eq!(is_ollama_binary_installed(false, Some(true)), Ok(true));
    assert_eq!(is_ollama_binary_installed(false, Some(false)), Ok(false));
}

#[test]
fn arch_normalization() {
    assert_eq!(normalize_arch("x86_64"), Some("amd64"));
    assert_eq!(normalize_arch("aarch64"), Some("arm64"));
    assert_eq!(normalize_arch("arm64"), Some("arm64"));
    assert_eq!(normalize_arch("mips"), None);
    assert_eq!(normalize_arch(""), None);
}

#[test]
fn download_urls_exact() {
    assert_eq!(
        ollama_download_url("macos", "aarch64").unwrap(),
        "https://github.com/ollama/ollama/releases/latest/download/ollama-darwin"
    );
    assert_eq!(
        ollama_download_url("macos", "x86_64").unwrap(),
        "https://github.com/ollama/ollama/releases/latest/download/ollama-darwin"
    );
    assert_eq!(
        ollama_download_url("linux", "x86_64").unwrap(),
        "https://github.com/ollama/ollama/releases/latest/download/ollama-linux-amd64"
    );
    assert_eq!(
        ollama_download_url("linux", "arm64").unwrap(),
        "https://github.com/ollama/ollama/releases/latest/download/ollama-linux-arm64"
    );
    assert_eq!(
        ollama_download_url("windows", "x86_64").unwrap(),
        "https://github.com/ollama/ollama/releases/latest/download/ollama-windows-amd64.exe"
    );
    assert_eq!(
        ollama_download_url("windows", "aarch64").unwrap(),
        "https://github.com/ollama/ollama/releases/latest/download/ollama-windows-arm64.exe"
    );
}

#[test]
fn unsupported_platforms_rejected() {
    assert_eq!(
        ollama_download_url("linux", "mips"),
        Err(DownloaderError::PlatformUnsupported)
    );
    assert_eq!(
        ollama_download_url("freebsd", "x86_64"),
        Err(DownloaderError::PlatformUnsupported)
    );
}

#[test]
fn error_descriptions() {
    assert_eq!(
        DownloaderError::DirectoryResolution.describe(),
        "Failed to get data directory"
    );
    assert_eq!(
        DownloaderError::PlatformUnsupported.describe(),
        "Unsupported platform or architecture"
    );
    assert_eq!(DownloaderError::DownloadFailed.describe(), "Ollama runtime download failed");
    assert_eq!(DownloaderError::PullStream.describe(), "Model download interrupted");
}

#[test]
fn string_equality_and_search() {
    assert!(str_eq("success", "success"));
    assert!(!str_eq("success", "succes"));
    assert!(!str_eq("", "a"));
    assert!(str_eq("", ""));
    assert!(str_contains("llama3.1:8b-instruct", "llama3.1:8b"));
    assert!(str_contains("abc", ""));
    assert!(!str_contains("ab", "abc"));
    assert!(!str_contains("llama2:7b", "llama3.1:8b"));
}
