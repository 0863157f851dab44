//! Progress events and the sink that receives them.
//!
//! Every acquisition operation reports its progress as a sequence of
//! [`DownloadProgress`] events handed, in order, to a [`ProgressSink`].  A
//! sink's mathematical history is the sequence of event views it has been
//! given; the contracts of the downloader and the pull relay pin down exactly
//! which views are appended.

use vstd::prelude::*;

verus! {

/// The phase an operation is in when an event is emitted.  `Error` is held
/// in reserve for sinks and callers: the flows here surface failures as a
/// returned error, never as an emitted `Downloading` → `Error` transition.
#[derive(Clone, Copy, Debug, PartialEq, Eq, Structural)]
pub enum DownloadStatus {
    Downloading,
    Complete,
    Error,
}

/// The mathematical content of one progress event.
pub struct ProgressView {
    pub model_name: Seq<char>,
    pub status: DownloadStatus,
    pub percent: int,
    pub downloaded_bytes: int,
    pub total_bytes: int,
    pub message: Seq<char>,
}

/// One immutable progress record: which artifact, which phase, how many bytes
/// of how many, and a human-readable message.  `percent` is a whole number in
/// `[0, 100]`; `total_bytes` may be 0 while the server has not revealed a
/// content length.
#[derive(Clone, Debug)]
pub struct DownloadProgress {
    pub model_name: String,
    pub status: DownloadStatus,
    pub percent: u64,
    pub downloaded_bytes: u64,
    pub total_bytes: u64,
    pub message: String,
}

impl View for DownloadProgress {
    type V = ProgressView;

    open spec fn view(&self) -> ProgressView {
        ProgressView {
            model_name: self.model_name@,
            status: self.status,
            percent: self.percent as int,
            downloaded_bytes: self.downloaded_bytes as int,
            total_bytes: self.total_bytes as int,
            message: self.message@,
        }
    }
}

/// An ordered, fire-and-forget receiver of progress events.  Callers provide
/// the implementation (a channel, a callback adapter, a buffer); `report` must
/// append exactly the delivered event to the history, so no event is dropped,
/// buffered away or reordered.
pub trait ProgressSink {
    /// The views of every event received so far, oldest first.
    spec fn history(&self) -> Seq<ProgressView>;

    fn report(&mut self, event: DownloadProgress)
        ensures
            final(self).history() == old(self).history().push(event@),
    ;
}

/// A sink that simply remembers every event, in arrival order.
pub struct VecSink {
    pub events: Vec<DownloadProgress>,
}

impl VecSink {
    pub fn new() -> (r: VecSink)
        ensures
            r.history() == Seq::<ProgressView>::empty(),
            r.events@.len() == 0,
    {
        VecSink { events: Vec::new() }
    }
}

impl ProgressSink for VecSink {
    open spec fn history(&self) -> Seq<ProgressView> {
        self.events@.map_values(|e: DownloadProgress| e@)
    }

    fn report(&mut self, event: DownloadProgress) {
        self.events.push(event);
        proof {
            assert(self.history() =~= old(self).history().push(event@));
        }
    }
}

} // verus!
