//! The whisper model's placeholder flow.
//!
//! The speech model is fetched by the transcription backend itself on first
//! use; this operation only reports that fact to the UI, as one
//! `Downloading` event with the model's approximate size and one immediate
//! `Complete` event.

use vstd::prelude::*;
use crate::progress::{DownloadProgress, DownloadStatus, ProgressSink, ProgressView};

verus! {

/// The approximate size of the base whisper model, a UI placeholder only.
pub const WHISPER_MODEL_BYTES: u64 = 150_000_000;

/// The event announcing that the model will be fetched on first use.
pub open spec fn whisper_start_event() -> ProgressView {
    ProgressView {
        model_name: "whisper-base"@,
        status: DownloadStatus::Downloading,
        percent: 0,
        downloaded_bytes: 0,
        total_bytes: WHISPER_MODEL_BYTES as int,
        message: "Whisper model will auto-download on first use"@,
    }
}

/// The immediate terminal event of the placeholder flow.
pub open spec fn whisper_complete_event() -> ProgressView {
    ProgressView {
        model_name: "whisper-base"@,
        status: DownloadStatus::Complete,
        percent: 100,
        downloaded_bytes: WHISPER_MODEL_BYTES as int,
        total_bytes: WHISPER_MODEL_BYTES as int,
        message: "Whisper model ready"@,
    }
}

/// Reports the whisper model as pending and then ready: exactly the two
/// placeholder events, in that order.
pub fn download_whisper_model<S: ProgressSink>(sink: &mut S)
    ensures
        final(sink).history() == old(sink).history().push(whisper_start_event()).push(
            whisper_complete_event(),
        ),
{
    let start = DownloadProgress {
        model_name: "whisper-base".to_owned(),
        status: DownloadStatus::Downloading,
        percent: 0,
        downloaded_bytes: 0,
        total_bytes: WHISPER_MODEL_BYTES,
        message: "Whisper model will auto-download on first use".to_owned(),
    };
    sink.report(start);
    let complete = DownloadProgress {
        model_name: "whisper-base".to_owned(),
        status: DownloadStatus::Complete,
        percent: 100,
        downloaded_bytes: WHISPER_MODEL_BYTES,
        total_bytes: WHISPER_MODEL_BYTES,
        message: "Whisper model ready".to_owned(),
    };
    sink.report(complete);
}

} // verus!
