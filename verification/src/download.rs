//! The streaming downloader for the runtime executable.
//!
//! The surrounding application performs the HTTP transfer and the file
//! writes; this module makes every decision: whether a download is needed at
//! all, which URL to fetch, how a response status is classified, and which
//! progress event each received chunk produces.  A download run is the event
//! sequence `chunk_events_from` describes, closed by `finish_event`; the laws
//! at the end of the module pin down its byte counts and percentages.

use vstd::prelude::*;
use vstd::arithmetic::div_mod::lemma_div_is_ordered;
use crate::errors::DownloaderError;
use crate::progress::{DownloadProgress, DownloadStatus, ProgressSink, ProgressView};
use crate::urls::download_url_view;
use crate::urls::ollama_download_url;

verus! {

/// The whole-number percentage reported for `downloaded` bytes of `total`:
/// `0` while the total is unknown (reported as `0`), else the quotient
/// scaled to `100` and capped there.
pub open spec fn percent_view(downloaded: int, total: int) -> int {
    if total > 0 {
        if downloaded * 100 / total > 100 {
            100int
        } else {
            downloaded * 100 / total
        }
    } else {
        0int
    }
}

/// An event of the runtime download, which always concerns the artifact
/// named `Ollama Runtime`.
pub open spec fn runtime_event(
    status: DownloadStatus,
    percent: int,
    downloaded: int,
    total: int,
    message: Seq<char>,
) -> ProgressView {
    ProgressView {
        model_name: "Ollama Runtime"@,
        status,
        percent,
        downloaded_bytes: downloaded,
        total_bytes: total,
        message,
    }
}

/// The single event of a short-circuited download: the artifact was already
/// on disk, so the operation completes at once with no bytes moved.
pub open spec fn already_present_event(message: Seq<char>) -> ProgressView {
    runtime_event(DownloadStatus::Complete, 100, 0, 0, message)
}

/// The event opening a real download, before any byte has arrived.
pub open spec fn start_event() -> ProgressView {
    runtime_event(DownloadStatus::Downloading, 0, 0, 0, "Downloading Ollama runtime..."@)
}

/// The event after a chunk: `downloaded` bytes so far of `total` (`total`
/// `0` meaning unknown, in which case the bytes so far stand in for it).
pub open spec fn chunk_event(downloaded: int, total: int) -> ProgressView {
    runtime_event(
        DownloadStatus::Downloading,
        percent_view(downloaded, total),
        downloaded,
        if total > 0 { total } else { downloaded },
        "Downloading Ollama runtime..."@,
    )
}

/// The terminal event of a completed download.
pub open spec fn finish_event(downloaded: int, total: int) -> ProgressView {
    runtime_event(
        DownloadStatus::Complete,
        100,
        downloaded,
        if total > 0 { total } else { downloaded },
        "Ollama runtime ready"@,
    )
}

/// The running state of one download: bytes received so far, and the content
/// length the server revealed (`0` while unknown).
pub struct DownloadState {
    pub downloaded: u64,
    pub total: u64,
}

impl DownloadState {
    /// A fresh download, before any chunk, with the content length the
    /// response advertised, if any.
    pub fn new(content_length: Option<u64>) -> (r: DownloadState)
        ensures
            r.downloaded == 0,
            content_length matches Some(t) ==> r.total == t,
            content_length is None ==> r.total == 0,
    {
        DownloadState {
            downloaded: 0,
            total: match content_length {
                Some(t) => t,
                None => 0,
            },
        }
    }
}

/// The executable percentage computation, exact to `percent_view`.
pub fn percent_of(downloaded: u64, total: u64) -> (r: u64)
    ensures
        r == percent_view(downloaded as int, total as int),
        r <= 100,
{
    if total == 0 {
        0
    } else {
        let scaled: u128 = (downloaded as u128) * 100;
        let q: u128 = scaled / (total as u128);
        if q > 100 {
            100
        } else {
            q as u64
        }
    }
}

fn runtime_progress(status: DownloadStatus, percent: u64, downloaded: u64, total: u64, message: &str) -> (r: DownloadProgress)
    ensures
        r@ == runtime_event(status, percent as int, downloaded as int, total as int, message@),
{
    DownloadProgress {
        model_name: "Ollama Runtime".to_owned(),
        status,
        percent,
        downloaded_bytes: downloaded,
        total_bytes: total,
        message: message.to_owned(),
    }
}

/// The idempotent short-circuit: when the runtime is already present at the
/// bundled or the installed location, one `Complete` event is emitted with
/// `percent` `100` and no bytes, and the caller is told to stop — no network
/// request is owed.  When it is absent nothing is emitted.
pub fn try_skip_download<S: ProgressSink>(bundled_present: bool, installed_present: bool, sink: &mut S) -> (r: bool)
    ensures
        r == (bundled_present || installed_present),
        bundled_present ==> final(sink).history() == old(sink).history().push(
            already_present_event("Ollama runtime already bundled"@),
        ),
        !bundled_present && installed_present ==> final(sink).history() == old(sink).history().push(
            already_present_event("Ollama runtime already installed"@),
        ),
        !bundled_present && !installed_present ==> final(sink).history() == old(sink).history(),
{
    if bundled_present {
        let event = runtime_progress(DownloadStatus::Complete, 100, 0, 0, "Ollama runtime already bundled");
        sink.report(event);
        true
    } else if installed_present {
        let event = runtime_progress(DownloadStatus::Complete, 100, 0, 0, "Ollama runtime already installed");
        sink.report(event);
        true
    } else {
        false
    }
}

/// Everything that must be decided before the network is touched: the
/// presence short-circuit, then the URL for the platform.  `Ok(None)` means
/// nothing is to be fetched (one `Complete` event has been emitted);
/// `Ok(Some(url))` is the fetch to perform (nothing emitted yet); an
/// unsupported platform fails here, before any request, with nothing
/// emitted.
pub fn plan_runtime_download<S: ProgressSink>(
    bundled_present: bool,
    installed_present: bool,
    os: &str,
    arch: &str,
    sink: &mut S,
) -> (r: Result<Option<String>, DownloaderError>)
    ensures
        bundled_present ==> (r matches Ok(u) && u is None) && final(sink).history()
            == old(sink).history().push(already_present_event("Ollama runtime already bundled"@)),
        !bundled_present && installed_present ==> (r matches Ok(u) && u is None) && final(sink).history()
            == old(sink).history().push(already_present_event("Ollama runtime already installed"@)),
        !bundled_present && !installed_present ==> final(sink).history() == old(sink).history()
            && (download_url_view(os@, arch@) matches Some(u) ==> (r matches Ok(s) && s matches Some(found) && found@ == u))
            && (download_url_view(os@, arch@) is None ==> r == Err::<Option<String>, DownloaderError>(DownloaderError::PlatformUnsupported)),
{
    if try_skip_download(bundled_present, installed_present, sink) {
        return Ok(None);
    }
    match ollama_download_url(os, arch) {
        Ok(url) => Ok(Some(url)),
        Err(e) => Err(e),
    }
}

/// Emits the opening `Downloading` event of a real download.
pub fn download_begin<S: ProgressSink>(sink: &mut S)
    ensures
        final(sink).history() == old(sink).history().push(start_event()),
{
    let event = runtime_progress(DownloadStatus::Downloading, 0, 0, 0, "Downloading Ollama runtime...");
    sink.report(event);
}

/// How `error_for_status` reads an HTTP response: any status outside the
/// success range fails the download hard — the partial file is never
/// reported complete.
pub fn classify_http_status(status: u16) -> (r: Result<(), DownloaderError>)
    ensures
        200 <= status < 300 ==> r == Ok::<(), DownloaderError>(()),
        !(200 <= status < 300) ==> r == Err::<(), DownloaderError>(DownloaderError::DownloadFailed),
{
    if 200 <= status && status < 300 {
        Ok(())
    } else {
        Err(DownloaderError::DownloadFailed)
    }
}

/// Accounts one received chunk and emits its `Downloading` event.
pub fn download_chunk<S: ProgressSink>(state: &mut DownloadState, chunk_len: u64, sink: &mut S)
    requires
        old(state).downloaded + chunk_len <= u64::MAX,
    ensures
        final(state).total == old(state).total,
        final(state).downloaded == old(state).downloaded + chunk_len,
        final(sink).history() == old(sink).history().push(
            chunk_event(old(state).downloaded + chunk_len, old(state).total as int),
        ),
{
    state.downloaded = state.downloaded + chunk_len;
    let percent = percent_of(state.downloaded, state.total);
    let total_field = if state.total > 0 {
        state.total
    } else {
        state.downloaded
    };
    let event = runtime_progress(DownloadStatus::Downloading, percent, state.downloaded, total_field, "Downloading Ollama runtime...");
    sink.report(event);
}

/// Emits the terminal `Complete` event: `percent` forced to `100`, and the
/// transferred bytes standing in for the total when the server never
/// revealed one.
pub fn download_finish<S: ProgressSink>(state: &DownloadState, sink: &mut S)
    ensures
        final(sink).history() == old(sink).history().push(
            finish_event(state.downloaded as int, state.total as int),
        ),
{
    let total_field = if state.total > 0 {
        state.total
    } else {
        state.downloaded
    };
    let event = runtime_progress(DownloadStatus::Complete, 100, state.downloaded, total_field, "Ollama runtime ready");
    sink.report(event);
}

/// The byte count of a chunk sequence.
pub open spec fn sum_of(chunks: Seq<u64>) -> int
    decreases chunks.len(),
{
    if chunks.len() == 0 {
        0
    } else {
        chunks[0] + sum_of(chunks.drop_first())
    }
}

/// The events of a download run that, starting from `downloaded0` received
/// bytes, gets the chunks of `chunks` in order.
pub open spec fn chunk_events_from(downloaded0: int, total: int, chunks: Seq<u64>) -> Seq<ProgressView>
    decreases chunks.len(),
{
    if chunks.len() == 0 {
        Seq::empty()
    } else {
        seq![chunk_event(downloaded0 + chunks[0], total)] + chunk_events_from(
            downloaded0 + chunks[0],
            total,
            chunks.drop_first(),
        )
    }
}

pub proof fn lemma_sum_nonneg(chunks: Seq<u64>)
    ensures
        sum_of(chunks) >= 0,
    decreases chunks.len(),
{
    if chunks.len() > 0 {
        lemma_sum_nonneg(chunks.drop_first());
    }
}

/// Appending a chunk adds its length to the sum.
pub proof fn lemma_sum_push(chunks: Seq<u64>, x: u64)
    ensures
        sum_of(chunks.push(x)) == sum_of(chunks) + x,
    decreases chunks.len(),
{
    assert(sum_of(Seq::<u64>::empty()) == 0);
    if chunks.len() == 0 {
        assert(chunks.push(x).drop_first() =~= Seq::<u64>::empty());
        assert(chunks.push(x)[0] == x);
        assert(sum_of(chunks.push(x)) == x + sum_of(Seq::<u64>::empty()));
    } else {
        assert(chunks.push(x).drop_first() =~= chunks.drop_first().push(x));
        assert(chunks.push(x)[0] == chunks[0]);
        lemma_sum_push(chunks.drop_first(), x);
        assert(sum_of(chunks.push(x)) == chunks[0] + sum_of(chunks.drop_first().push(x)));
    }
}

/// The sum of a prefix, one element longer.
pub proof fn lemma_sum_take_succ(chunks: Seq<u64>, i: int)
    requires
        0 <= i < chunks.len(),
    ensures
        sum_of(chunks.take(i + 1)) == sum_of(chunks.take(i)) + chunks[i],
{
    assert(chunks.take(i + 1) =~= chunks.take(i).push(chunks[i]));
    lemma_sum_push(chunks.take(i), chunks[i]);
}

pub proof fn lemma_chunk_events_len(downloaded0: int, total: int, chunks: Seq<u64>)
    ensures
        chunk_events_from(downloaded0, total, chunks).len() == chunks.len(),
    decreases chunks.len(),
{
    if chunks.len() > 0 {
        lemma_chunk_events_len(downloaded0 + chunks[0], total, chunks.drop_first());
    }
}

/// Getting one more chunk appends exactly its event.
pub proof fn lemma_chunk_events_push(downloaded0: int, total: int, chunks: Seq<u64>, x: u64)
    ensures
        chunk_events_from(downloaded0, total, chunks.push(x)) == chunk_events_from(
            downloaded0,
            total,
            chunks,
        ).push(chunk_event(downloaded0 + sum_of(chunks) + x, total)),
    decreases chunks.len(),
{
    assert(sum_of(Seq::<u64>::empty()) == 0);
    assert(chunk_events_from(downloaded0 + x, total, Seq::<u64>::empty()) =~= Seq::<ProgressView>::empty());
    if chunks.len() == 0 {
        assert(chunks.push(x).drop_first() =~= Seq::<u64>::empty());
        assert(chunks.push(x)[0] == x);
        assert(chunk_events_from(downloaded0, total, chunks.push(x)) =~= seq![
            chunk_event(downloaded0 + x, total),
        ] + chunk_events_from(downloaded0 + x, total, Seq::<u64>::empty()));
        assert(chunk_events_from(downloaded0, total, chunks.push(x)) =~= chunk_events_from(
            downloaded0,
            total,
            chunks,
        ).push(chunk_event(downloaded0 + sum_of(chunks) + x, total)));
    } else {
        assert(chunks.push(x).drop_first() =~= chunks.drop_first().push(x));
        assert(chunks.push(x)[0] == chunks[0]);
        lemma_chunk_events_push(downloaded0 + chunks[0], total, chunks.drop_first(), x);
        assert(sum_of(chunks) == chunks[0] + sum_of(chunks.drop_first()));
        assert(chunk_events_from(downloaded0, total, chunks.push(x)) =~= chunk_events_from(
            downloaded0,
            total,
            chunks,
        ).push(chunk_event(downloaded0 + sum_of(chunks) + x, total)));
    }
}

/// The event of the `i`-th chunk reports exactly the bytes of the first
/// `i + 1` chunks.
pub proof fn lemma_chunk_events_bytes(downloaded0: int, total: int, chunks: Seq<u64>, i: int)
    requires
        0 <= i < chunks.len(),
    ensures
        chunk_events_from(downloaded0, total, chunks)[i] == chunk_event(
            downloaded0 + sum_of(chunks.take(i + 1)),
            total,
        ),
    decreases i,
{
    lemma_chunk_events_len(downloaded0 + chunks[0], total, chunks.drop_first());
    if i == 0 {
        assert(sum_of(Seq::<u64>::empty()) == 0);
        assert(chunks.take(1).drop_first() =~= Seq::<u64>::empty());
        assert(chunks.take(1)[0] == chunks[0]);
        assert(sum_of(chunks.take(1)) == chunks.take(1)[0] + sum_of(chunks.take(1).drop_first()));
        assert(sum_of(chunks.take(1)) == chunks[0]);
    } else {
        lemma_chunk_events_bytes(downloaded0 + chunks[0], total, chunks.drop_first(), i - 1);
        assert(chunks.take(i + 1).drop_first() =~= chunks.drop_first().take(i));
        assert(chunks.take(i + 1)[0] == chunks[0]);
        assert(sum_of(chunks.take(i + 1)) == chunks.take(i + 1)[0] + sum_of(
            chunks.take(i + 1).drop_first(),
        ));
        assert(sum_of(chunks.take(i + 1)) == chunks[0] + sum_of(chunks.drop_first().take(i)));
    }
}

/// Runs a whole sequence of chunks through `download_chunk`: the sink
/// receives exactly the run's events, in order.
pub fn apply_chunks<S: ProgressSink>(state: &mut DownloadState, chunk_lens: &Vec<u64>, sink: &mut S)
    requires
        old(state).downloaded + sum_of(chunk_lens@) <= u64::MAX,
    ensures
        final(state).total == old(state).total,
        final(state).downloaded == old(state).downloaded + sum_of(chunk_lens@),
        final(sink).history() == old(sink).history() + chunk_events_from(
            old(state).downloaded as int,
            old(state).total as int,
            chunk_lens@,
        ),
{
    let mut i: usize = 0;
    proof {
        assert(chunk_lens@.take(0) =~= Seq::<u64>::empty());
        assert(old(sink).history() + chunk_events_from(
            old(state).downloaded as int,
            old(state).total as int,
            chunk_lens@.take(0),
        ) =~= old(sink).history());
    }
    while i < chunk_lens.len()
        invariant
            i <= chunk_lens@.len(),
            state.total == old(state).total,
            state.downloaded == old(state).downloaded + sum_of(chunk_lens@.take(i as int)),
            old(state).downloaded + sum_of(chunk_lens@) <= u64::MAX,
            sink.history() == old(sink).history() + chunk_events_from(
                old(state).downloaded as int,
                old(state).total as int,
                chunk_lens@.take(i as int),
            ),
        decreases chunk_lens@.len() - i,
    {
        proof {
            lemma_sum_take_succ(chunk_lens@, i as int);
            lemma_sum_prefix_rest(chunk_lens@, i as int + 1);
            lemma_sum_nonneg(chunk_lens@.skip(i as int + 1));
            assert(chunk_lens@.take(i as int + 1) =~= chunk_lens@.take(i as int).push(chunk_lens@[i as int]));
            lemma_chunk_events_push(
                old(state).downloaded as int,
                old(state).total as int,
                chunk_lens@.take(i as int),
                chunk_lens@[i as int],
            );
        }
        download_chunk(state, chunk_lens[i], sink);
        i += 1;
    }
    proof {
        assert(chunk_lens@.take(chunk_lens@.len() as int) =~= chunk_lens@);
    }
}

/// A sequence's sum splits at any point into the prefix's and the rest's.
pub proof fn lemma_sum_prefix_rest(chunks: Seq<u64>, i: int)
    requires
        0 <= i <= chunks.len(),
    ensures
        sum_of(chunks) == sum_of(chunks.take(i)) + sum_of(chunks.skip(i)),
    decreases i,
{
    if i == 0 {
        assert(chunks.take(0) =~= Seq::<u64>::empty());
        assert(chunks.skip(0) =~= chunks);
    } else {
        lemma_sum_prefix_rest(chunks, i - 1);
        lemma_sum_take_succ(chunks, i - 1);
        assert(chunks.skip(i - 1).drop_first() =~= chunks.skip(i));
        assert(chunks.skip(i - 1).len() > 0 && chunks.skip(i - 1)[0] == chunks[i - 1]);
        assert(sum_of(chunks.skip(i - 1)) == chunks[i - 1] + sum_of(chunks.skip(i)));
    }
}

/// For a run of `chunks` with a known, truthful total, the reported byte
/// counts grow by exactly each chunk's size, never decrease, and the closing
/// event reports `bytes_transferred == bytes_total ==` the byte count of the
/// whole stream.  Percentages never decrease either.
pub proof fn lemma_download_progress_bytes(total: u64, chunks: Seq<u64>)
    requires
        total > 0,
        sum_of(chunks) == total as int,
    ensures
        chunk_events_from(0, total as int, chunks).len() == chunks.len(),
        forall|i: int| 0 <= i < chunks.len() ==> #[trigger] chunk_events_from(0, total as int, chunks)[i].downloaded_bytes
            == sum_of(chunks.take(i + 1)),
        forall|i: int| 0 <= i < chunks.len() - 1 ==> #[trigger] chunk_events_from(0, total as int, chunks)[i + 1].downloaded_bytes
            == chunk_events_from(0, total as int, chunks)[i].downloaded_bytes + chunks[i + 1],
        forall|i: int, j: int| 0 <= i <= j < chunks.len() ==> #[trigger] chunk_events_from(0, total as int, chunks)[i].downloaded_bytes
            <= #[trigger] chunk_events_from(0, total as int, chunks)[j].downloaded_bytes,
        forall|i: int, j: int| 0 <= i <= j < chunks.len() ==> #[trigger] chunk_events_from(0, total as int, chunks)[i].percent
            <= #[trigger] chunk_events_from(0, total as int, chunks)[j].percent,
        chunks.len() > 0 ==> chunk_events_from(0, total as int, chunks).last().downloaded_bytes == total as int,
        finish_event(total as int, total as int).downloaded_bytes == total as int,
        finish_event(total as int, total as int).total_bytes == total as int,
{
    let evs = chunk_events_from(0, total as int, chunks);
    lemma_chunk_events_len(0, total as int, chunks);
    assert forall|i: int| 0 <= i < chunks.len() implies #[trigger] evs[i].downloaded_bytes == sum_of(
        chunks.take(i + 1),
    ) && evs[i].percent == percent_view(sum_of(chunks.take(i + 1)), total as int) by {
        lemma_chunk_events_bytes(0, total as int, chunks, i);
    }
    assert forall|i: int| 0 <= i < chunks.len() - 1 implies #[trigger] evs[i + 1].downloaded_bytes
        == evs[i].downloaded_bytes + chunks[i + 1] by {
        lemma_sum_take_succ(chunks, i + 1);
    }
    assert forall|i: int, j: int| 0 <= i <= j < chunks.len() implies #[trigger] evs[i].downloaded_bytes
        <= #[trigger] evs[j].downloaded_bytes by {
        lemma_chunk_events_bytes(0, total as int, chunks, i);
        lemma_chunk_events_bytes(0, total as int, chunks, j);
        lemma_sum_take_ordered(chunks, i + 1, j + 1);
    }
    assert forall|i: int, j: int| 0 <= i <= j < chunks.len() implies #[trigger] evs[i].percent
        <= #[trigger] evs[j].percent by {
        lemma_chunk_events_bytes(0, total as int, chunks, i);
        lemma_chunk_events_bytes(0, total as int, chunks, j);
        lemma_sum_nonneg(chunks.take(i + 1));
        lemma_sum_take_ordered(chunks, i + 1, j + 1);
        lemma_percent_view_ordered(sum_of(chunks.take(i + 1)), sum_of(chunks.take(j + 1)), total as int);
    }
    if chunks.len() > 0 {
        assert(chunks.take(chunks.len() as int) =~= chunks);
    }
}

/// A longer prefix has at least the bytes of a shorter one.
pub proof fn lemma_sum_take_ordered(chunks: Seq<u64>, i: int, j: int)
    requires
        0 <= i <= j <= chunks.len(),
    ensures
        sum_of(chunks.take(i)) <= sum_of(chunks.take(j)),
    decreases j - i,
{
    if i < j {
        lemma_sum_take_succ(chunks, j - 1);
        lemma_sum_take_ordered(chunks, i, j - 1);
    }
}

/// More bytes of the same total never report a smaller percentage.
pub proof fn lemma_percent_view_ordered(d1: int, d2: int, total: int)
    requires
        0 <= d1 <= d2,
    ensures
        percent_view(d1, total) <= percent_view(d2, total),
{
    if total > 0 {
        lemma_div_is_ordered(d1 * 100, d2 * 100, total);
    }
}

/// A download run ends in exactly one terminal event: every chunk event is
/// still `Downloading`, and only the closing event is `Complete`.
pub proof fn lemma_download_single_terminal(downloaded0: int, total: int, chunks: Seq<u64>, downloaded_end: int)
    ensures
        forall|i: int| 0 <= i < chunk_events_from(downloaded0, total, chunks).len()
            ==> #[trigger] chunk_events_from(downloaded0, total, chunks)[i].status
                == DownloadStatus::Downloading,
        finish_event(downloaded_end, total).status == DownloadStatus::Complete,
    decreases chunks.len(),
{
    if chunks.len() > 0 {
        lemma_download_single_terminal(downloaded0 + chunks[0], total, chunks.drop_first(), downloaded_end);
        lemma_chunk_events_len(downloaded0 + chunks[0], total, chunks.drop_first());
    }
}

/// With the total unknown, every chunk event reports `percent` `0` while
/// still `Downloading`, and the closing event substitutes the transferred
/// bytes for the unknown total.
pub proof fn lemma_download_unknown_total(downloaded0: int, chunks: Seq<u64>, downloaded_end: u64)
    ensures
        forall|i: int| 0 <= i < chunk_events_from(downloaded0, 0, chunks).len() ==> {
            &&& #[trigger] chunk_events_from(downloaded0, 0, chunks)[i].percent == 0
            &&& chunk_events_from(downloaded0, 0, chunks)[i].status == DownloadStatus::Downloading
        },
        finish_event(downloaded_end as int, 0).total_bytes == downloaded_end as int,
        finish_event(downloaded_end as int, 0).percent == 100,
        finish_event(downloaded_end as int, 0).status == DownloadStatus::Complete,
    decreases chunks.len(),
{
    if chunks.len() > 0 {
        lemma_download_unknown_total(downloaded0 + chunks[0], chunks.drop_first(), downloaded_end);
        lemma_chunk_events_len(downloaded0 + chunks[0], 0, chunks.drop_first());
    }
}

} // verus!
