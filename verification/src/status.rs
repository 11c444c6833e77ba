//! The state of a download job.

use vstd::prelude::*;

verus! {

/// Where a download job stands.
///
/// A job starts `Queued`, is `Searching` and then `InProgress`, and ends in
/// one of the terminal states `Completed`, `Failed` or `Canceled`.
#[derive(Debug, PartialEq, Eq)]
pub enum DownloadStatus {
    Queued,
    Searching,
    InProgress,
    Completed,
    Failed(String),
    Canceled,
}

/// The mathematical value of a [`DownloadStatus`].
pub enum StatusView {
    Queued,
    Searching,
    InProgress,
    Completed,
    Failed(Seq<char>),
    Canceled,
}

impl StatusView {
    /// Completed, failed or canceled: no further progress is expected.
    pub open spec fn is_terminal(self) -> bool {
        self is Completed || self is Failed || self is Canceled
    }
}

impl View for DownloadStatus {
    type V = StatusView;

    open spec fn view(&self) -> StatusView {
        match self {
            DownloadStatus::Queued => StatusView::Queued,
            DownloadStatus::Searching => StatusView::Searching,
            DownloadStatus::InProgress => StatusView::InProgress,
            DownloadStatus::Completed => StatusView::Completed,
            DownloadStatus::Failed(reason) => StatusView::Failed(reason@),
            DownloadStatus::Canceled => StatusView::Canceled,
        }
    }
}

impl DeepView for DownloadStatus {
    type V = StatusView;

    open spec fn deep_view(&self) -> StatusView {
        self@
    }
}

impl Clone for DownloadStatus {
    fn clone(&self) -> (r: Self)
        ensures
            r@ == self@,
    {
        match self {
            DownloadStatus::Queued => DownloadStatus::Queued,
            DownloadStatus::Searching => DownloadStatus::Searching,
            DownloadStatus::InProgress => DownloadStatus::InProgress,
            DownloadStatus::Completed => DownloadStatus::Completed,
            DownloadStatus::Failed(reason) => DownloadStatus::Failed(reason.clone()),
            DownloadStatus::Canceled => DownloadStatus::Canceled,
        }
    }
}

impl DownloadStatus {
    /// Whether the job has ended, in whichever way.
    pub fn is_terminal(&self) -> (r: bool)
        ensures
            r == self@.is_terminal(),
    {
        match self {
            DownloadStatus::Completed => true,
            DownloadStatus::Failed(_) => true,
            DownloadStatus::Canceled => true,
            _ => false,
        }
    }

    /// Whether the job has ended with its files in place.
    pub fn is_completed(&self) -> (r: bool)
        ensures
            r == (self@ is Completed),
    {
        match self {
            DownloadStatus::Completed => true,
            _ => false,
        }
    }
}

} // verus!
