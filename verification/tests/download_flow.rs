use model_downloader::download::{
    apply_chunks, classify_http_status, download_begin, download_chunk, download_finish,
    percent_of, plan_runtime_download, try_skip_download, DownloadState,
};
use model_downloader::errors::DownloaderError;
use model_downloader::progress::{DownloadStatus, VecSink};
use model_downloader::whisper::{download_whisper_model, WHISPER_MODEL_BYTES};

#[test]
fn already_bundled_emits_single_complete_event() {
    let mut sink = VecSink::new();
    let plan = plan_runtime_download(true, false, "linux", "x86_64", &mut sink);
    assert_eq!(plan, Ok(None));
    assert_eq!(sink.events.len(), 1);
    let ev = &sink.events[0];
    assert_eq!(ev.status, DownloadStatus::Complete);
    assert_eq!(ev.percent, 100);
    assert_eq!(ev.downloaded_bytes, 0);
    assert_eq!(ev.total_bytes, 0);
    assert_eq!(ev.model_name, "Ollama Runtime");
    assert_eq!(ev.message, "Ollama runtime already bundled");
}

#[test]
fn already_installed_emits_single_complete_event() {
    let mut sink = VecSink::new();
    let plan = plan_runtime_download(false, true, "linux", "mips", &mut sink);
    assert_eq!(plan, Ok(None));
    assert_eq!(sink.events.len(), 1);
    assert_eq!(sink.events[0].status, DownloadStatus::Complete);
    assert_eq!(sink.events[0].message, "Ollama runtime already installed");
}

#[test]
fn absent_artifact_yields_url_and_no_events() {
    let mut sink = VecSink::new();
    let plan = plan_runtime_download(false, false, "macos", "arm64", &mut sink);
    assert_eq!(
        plan,
        Ok(Some(
            "https://github.com/ollama/ollama/releases/latest/download/ollama-darwin".to_string()
        ))
    );
    assert!(sink.events.is_empty());
}

#[test]
fn unsupported_arch_fails_before_any_network_step() {
    let mut sink = VecSink::new();
    let plan = plan_runtime_download(false, false, "linux", "mips", &mut sink);
    assert_eq!(plan, Err(DownloaderError::PlatformUnsupported));
    assert!(sink.events.is_empty());
}

#[test]
fn skip_check_emits_nothing_when_absent() {
    let mut sink = VecSink::new();
    assert!(!try_skip_download(false, false, &mut sink));
    assert!(sink.events.is_empty());
}

#[test]
fn http_status_classification() {
    assert_eq!(classify_http_status(200), Ok(()));
    assert_eq!(classify_http_status(204), Ok(()));
    assert_eq!(classify_http_status(299), Ok(()));
    assert_eq!(classify_http_status(301), Err(DownloaderError::DownloadFailed));
    assert_eq!(classify_http_status(404), Err(DownloaderError::DownloadFailed));
    assert_eq!(classify_http_status(500), Err(DownloaderError::DownloadFailed));
}

#[test]
fn failed_download_leaves_nothing_reported_installed() {
    // An HTTP 404 answer fails the download before any chunk event, and the
    // presence probes for a location that never got its file keep answering
    // false.
    let mut sink = VecSink::new();
    download_begin(&mut sink);
    let status = classify_http_status(404);
    assert_eq!(status, Err(DownloaderError::DownloadFailed));
    assert!(sink.events.iter().all(|e| e.status != DownloadStatus::Complete));
    assert_eq!(
        model_downloader::paths::is_ollama_binary_installed(false, Some(false)),
        Ok(false)
    );
}

#[test]
fn percent_computation() {
    assert_eq!(percent_of(500, 1000), 50);
    assert_eq!(percent_of(1, 3), 33);
    assert_eq!(percent_of(0, 10), 0);
    assert_eq!(percent_of(10, 10), 100);
    assert_eq!(percent_of(7, 0), 0);
    assert_eq!(percent_of(200, 100), 100);
}

#[test]
fn known_total_chunk_sequence_counts_every_byte() {
    let mut sink = VecSink::new();
    download_begin(&mut sink);
    let mut state = DownloadState::new(Some(100));
    apply_chunks(&mut state, &vec![30, 30, 40], &mut sink);
    download_finish(&state, &mut sink);

    assert_eq!(sink.events.len(), 5);
    assert_eq!(sink.events[0].downloaded_bytes, 0);
    assert_eq!(sink.events[0].percent, 0);
    let bytes: Vec<u64> = sink.events[1..4].iter().map(|e| e.downloaded_bytes).collect();
    assert_eq!(bytes, vec![30, 60, 100]);
    let percents: Vec<u64> = sink.events[1..4].iter().map(|e| e.percent).collect();
    assert_eq!(percents, vec![30, 60, 100]);
    for w in sink.events.windows(2) {
        assert!(w[0].downloaded_bytes <= w[1].downloaded_bytes);
    }
    for e in &sink.events[1..4] {
        assert_eq!(e.status, DownloadStatus::Downloading);
        assert_eq!(e.total_bytes, 100);
    }
    let last = sink.events.last().unwrap();
    assert_eq!(last.status, DownloadStatus::Complete);
    assert_eq!(last.percent, 100);
    assert_eq!(last.downloaded_bytes, 100);
    assert_eq!(last.total_bytes, 100);
}

#[test]
fn unknown_total_reports_zero_percent_until_finish() {
    let mut sink = VecSink::new();
    let mut state = DownloadState::new(None);
    download_chunk(&mut state, 7, &mut sink);
    download_chunk(&mut state, 5, &mut sink);
    for e in &sink.events {
        assert_eq!(e.percent, 0);
        assert_eq!(e.status, DownloadStatus::Downloading);
        // While the total is unknown, the bytes so far stand in for it.
        assert_eq!(e.total_bytes, e.downloaded_bytes);
    }
    download_finish(&state, &mut sink);
    let last = sink.events.last().unwrap();
    assert_eq!(last.status, DownloadStatus::Complete);
    assert_eq!(last.percent, 100);
    assert_eq!(last.downloaded_bytes, 12);
    assert_eq!(last.total_bytes, 12);
}

#[test]
fn whisper_placeholder_flow() {
    let mut sink = VecSink::new();
    download_whisper_model(&mut sink);
    assert_eq!(sink.events.len(), 2);
    assert_eq!(sink.events[0].model_name, "whisper-base");
    assert_eq!(sink.events[0].status, DownloadStatus::Downloading);
    assert_eq!(sink.events[0].percent, 0);
    assert_eq!(sink.events[0].total_bytes, WHISPER_MODEL_BYTES);
    assert_eq!(sink.events[1].status, DownloadStatus::Complete);
    assert_eq!(sink.events[1].percent, 100);
    assert_eq!(sink.events[1].downloaded_bytes, WHISPER_MODEL_BYTES);
    assert_eq!(sink.events[1].message, "Whisper model ready");
}

#[test]
fn sink_keeps_arrival_order() {
    let mut sink = VecSink::new();
    download_begin(&mut sink);
    let mut state = DownloadState::new(Some(4));
    download_chunk(&mut state, 4, &mut sink);
    download_finish(&state, &mut sink);
    let statuses: Vec<DownloadStatus> = sink.events.iter().map(|e| e.status).collect();
    assert_eq!(
        statuses,
        vec![DownloadStatus::Downloading, DownloadStatus::Downloading, DownloadStatus::Complete]
    );
}
