//! The pull-progress relay for the model fetch.
//!
//! The remote service answers a streaming pull request with
//! newline-delimited JSON records carrying optional `completed` and `total`
//! byte counts and an optional `status`.  The surrounding application reads
//! the raw chunks; each one is parsed here, tolerantly — a chunk that is not
//! UTF-8 or not a JSON object is skipped, by design, because the service is
//! known to interleave partial lines — and every successfully read record
//! advances a verified state machine that decides which progress events to
//! emit and when the pull is finished.
//!
//! Note one open edge: when the stream closes without a record ever
//! announcing success, the state is simply left not-done, with no terminal
//! event; whether that counts as success is the caller's call, not decided
//! here.

use vstd::prelude::*;
use crate::download::percent_of;
use crate::download::percent_view;
use crate::progress::{DownloadProgress, DownloadStatus, ProgressSink, ProgressView};

verus! {

/// What one chunk of the pull stream yields once parsed: the optional fields
/// of the service's status record.
#[derive(Clone, Debug)]
pub struct PullRecord {
    pub completed: Option<u64>,
    pub total: Option<u64>,
    pub status: Option<String>,
}

/// The record that reading one chunk as a JSON object yields, `None` when
/// the chunk is not valid UTF-8 or not valid JSON.  A chunk's bytes alone
/// determine it.
pub uninterp spec fn pull_record_of(chunk: Seq<u8>) -> Option<PullRecord>;

/// Relies on `serde_json::from_str::<Value>` and `Value::{get, as_u64,
/// as_str}`: one attempted JSON read of the chunk, then the three fields
/// moved out.  `std::str::from_utf8` screens the encoding first, as the
/// stream may carry partial lines.
#[verifier::external_body]
fn parse_pull_chunk(chunk: &Vec<u8>) -> (r: Option<PullRecord>)
    ensures
        r == pull_record_of(chunk@),
{
    let text = match std::str::from_utf8(chunk) {
        Ok(t) => t,
        Err(_) => return None,
    };
    let json: serde_json::Value = match serde_json::from_str(text) {
        Ok(v) => v,
        Err(_) => return None,
    };
    Some(PullRecord {
        completed: json.get("completed").and_then(|v| v.as_u64()),
        total: json.get("total").and_then(|v| v.as_u64()),
        status: json.get("status").and_then(|v| v.as_str()).map(|s| s.to_string()),
    })
}

/// The running state of one pull: the byte counter the service's `completed`
/// fields drive, the configured size estimate used as a placeholder total,
/// and whether the terminal record has been seen.  Once `done`, no further
/// chunk may be processed.
pub struct PullState {
    pub model_name: String,
    pub total_estimate: u64,
    pub downloaded: u64,
    pub done: bool,
}

/// The record announces success, ending the pull.
pub open spec fn is_success_record(rec: PullRecord) -> bool {
    match rec.status {
        Some(s) => s@ == "success"@,
        None => false,
    }
}

/// The byte counter after a record: its `completed` count when given, the
/// old counter otherwise.
pub open spec fn downloaded_after(downloaded: u64, rec: PullRecord) -> u64 {
    match rec.completed {
        Some(c) => c,
        None => downloaded,
    }
}

/// The state after one parsed chunk: an unreadable chunk changes nothing; a
/// record updates the counter and, on success, marks the pull done.
pub open spec fn pull_state_after(st: PullState, rec: Option<PullRecord>) -> PullState {
    match rec {
        None => st,
        Some(r) => PullState {
            downloaded: downloaded_after(st.downloaded, r),
            done: st.done || is_success_record(r),
            ..st
        },
    }
}

/// The event opening a pull: nothing transferred yet, the size estimate as a
/// placeholder total.
pub open spec fn pull_start_event(model: Seq<char>, estimate: int) -> ProgressView {
    ProgressView {
        model_name: model,
        status: DownloadStatus::Downloading,
        percent: 0,
        downloaded_bytes: 0,
        total_bytes: estimate,
        message: "Starting download..."@,
    }
}

/// The event a record with a `total` field produces: the current counter
/// over that record's own total.
pub open spec fn pull_progress_event(model: Seq<char>, downloaded: int, total: int) -> ProgressView {
    ProgressView {
        model_name: model,
        status: DownloadStatus::Downloading,
        percent: percent_view(downloaded, total),
        downloaded_bytes: downloaded,
        total_bytes: total,
        message: "Downloading model..."@,
    }
}

/// The terminal event of a successful pull.  The service's stream does not
/// restate a byte count here, so the configured estimate stands in.
pub open spec fn pull_complete_event(model: Seq<char>, estimate: int) -> ProgressView {
    ProgressView {
        model_name: model,
        status: DownloadStatus::Complete,
        percent: 100,
        downloaded_bytes: estimate,
        total_bytes: estimate,
        message: "Download complete!"@,
    }
}

/// The events one parsed chunk emits, in order: a `Downloading` event when
/// the record carries a total, then the one `Complete` event when it
/// announces success; nothing for an unreadable chunk.
pub open spec fn pull_events(
    model: Seq<char>,
    estimate: int,
    downloaded_new: u64,
    rec: Option<PullRecord>,
) -> Seq<ProgressView> {
    match rec {
        None => Seq::empty(),
        Some(r) => (match r.total {
            Some(t) => seq![pull_progress_event(model, downloaded_new as int, t as int)],
            None => Seq::empty(),
        }) + (if is_success_record(r) {
            seq![pull_complete_event(model, estimate as int)]
        } else {
            Seq::empty()
        }),
    }
}

/// Opens a pull of the named model and emits the initial event.  The
/// estimate is configuration, a UI placeholder only — it is never treated
/// as an authoritative byte count.
pub fn pull_begin<S: ProgressSink>(model_name: &str, total_estimate: u64, sink: &mut S) -> (r: PullState)
    ensures
        r.model_name@ == model_name@,
        r.total_estimate == total_estimate,
        r.downloaded == 0,
        !r.done,
        final(sink).history() == old(sink).history().push(pull_start_event(model_name@, total_estimate as int)),
{
    let event = DownloadProgress {
        model_name: model_name.to_owned(),
        status: DownloadStatus::Downloading,
        percent: 0,
        downloaded_bytes: 0,
        total_bytes: total_estimate,
        message: "Starting download...".to_owned(),
    };
    sink.report(event);
    PullState { model_name: model_name.to_owned(), total_estimate, downloaded: 0, done: false }
}

/// Advances the pull by one parsed record and emits exactly the record's
/// events.
pub fn pull_apply_record<S: ProgressSink>(state: &mut PullState, rec: Option<PullRecord>, sink: &mut S)
    requires
        !old(state).done,
    ensures
        *final(state) == pull_state_after(*old(state), rec),
        final(sink).history() == old(sink).history() + pull_events(
            old(state).model_name@,
            old(state).total_estimate as int,
            pull_state_after(*old(state), rec).downloaded,
            rec,
        ),
{
    match rec {
        None => {
            proof {
                assert(final(sink).history() =~= old(sink).history() + Seq::<ProgressView>::empty());
            }
        },
        Some(r) => {
            if let Some(c) = r.completed {
                state.downloaded = c;
            }
            if let Some(t) = r.total {
                let percent = percent_of(state.downloaded, t);
                let event = DownloadProgress {
                    model_name: state.model_name.clone(),
                    status: DownloadStatus::Downloading,
                    percent,
                    downloaded_bytes: state.downloaded,
                    total_bytes: t,
                    message: "Downloading model...".to_owned(),
                };
                sink.report(event);
            }
            let is_success = match &r.status {
                Some(s) => {
                    let success_word: String = "success".to_owned();
                    *s == success_word
                },
                None => false,
            };
            if is_success {
                let event = DownloadProgress {
                    model_name: state.model_name.clone(),
                    status: DownloadStatus::Complete,
                    percent: 100,
                    downloaded_bytes: state.total_estimate,
                    total_bytes: state.total_estimate,
                    message: "Download complete!".to_owned(),
                };
                sink.report(event);
                state.done = true;
            }
            proof {
                assert(final(sink).history() =~= old(sink).history() + pull_events(
                    old(state).model_name@,
                    old(state).total_estimate as int,
                    pull_state_after(*old(state), rec).downloaded,
                    rec,
                ));
            }
        },
    }
}

/// Parses one raw chunk of the pull stream and advances the pull by it: the
/// tolerant step the relay performs for every chunk until a record announces
/// success.
pub fn pull_process_chunk<S: ProgressSink>(state: &mut PullState, chunk: &Vec<u8>, sink: &mut S)
    requires
        !old(state).done,
    ensures
        *final(state) == pull_state_after(*old(state), pull_record_of(chunk@)),
        final(sink).history() == old(sink).history() + pull_events(
            old(state).model_name@,
            old(state).total_estimate as int,
            pull_state_after(*old(state), pull_record_of(chunk@)).downloaded,
            pull_record_of(chunk@),
        ),
{
    let rec = parse_pull_chunk(chunk);
    pull_apply_record(state, rec, sink);
}

/// A chunk that yields no record — invalid UTF-8, or not a JSON object —
/// neither changes the pull state nor emits any event: the pull is not
/// aborted and no spurious progress is reported.
pub proof fn lemma_unreadable_chunk_ignored(st: PullState, model: Seq<char>, estimate: int, downloaded: u64)
    ensures
        pull_state_after(st, None::<PullRecord>) == st,
        pull_events(model, estimate, downloaded, None::<PullRecord>) == Seq::<ProgressView>::empty(),
{
}

/// A record whose status is `success` terminates the pull: the state is
/// marked done, and the chunk's events close with exactly one `Complete`
/// event, any event before it still `Downloading`.
pub proof fn lemma_success_terminates(st: PullState, rec: PullRecord, downloaded: u64)
    requires
        is_success_record(rec),
    ensures
        pull_state_after(st, Some(rec)).done,
        pull_events(st.model_name@, st.total_estimate as int, downloaded, Some(rec)).len() >= 1,
        pull_events(st.model_name@, st.total_estimate as int, downloaded, Some(rec)).last()
            == pull_complete_event(st.model_name@, st.total_estimate as int),
        forall|i: int| 0 <= i < pull_events(st.model_name@, st.total_estimate as int, downloaded, Some(rec)).len() - 1
            ==> #[trigger] pull_events(st.model_name@, st.total_estimate as int, downloaded, Some(rec))[i].status
                == DownloadStatus::Downloading,
{
}

} // verus!
