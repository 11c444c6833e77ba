//! What can happen to a download job, and what observers are told of it.

use vstd::prelude::*;

verus! {

/// One transfer as the external process reports it: the file and the figures
/// in the bracket that follows it, as they were written.
#[derive(Debug, PartialEq, Eq)]
pub struct Transfer {
    pub file: String,
    pub elapsed_secs: String,
    pub bitrate_kbps: String,
    pub size_mb: String,
}

/// The mathematical value of a [`Transfer`].
pub struct TransferView {
    pub file: Seq<char>,
    pub elapsed_secs: Seq<char>,
    pub bitrate_kbps: Seq<char>,
    pub size_mb: Seq<char>,
}

impl View for Transfer {
    type V = TransferView;

    open spec fn view(&self) -> TransferView {
        TransferView {
            file: self.file@,
            elapsed_secs: self.elapsed_secs@,
            bitrate_kbps: self.bitrate_kbps@,
            size_mb: self.size_mb@,
        }
    }
}

impl Clone for Transfer {
    fn clone(&self) -> (r: Self)
        ensures
            r@ == self@,
    {
        Transfer {
            file: self.file.clone(),
            elapsed_secs: self.elapsed_secs.clone(),
            bitrate_kbps: self.bitrate_kbps.clone(),
            size_mb: self.size_mb.clone(),
        }
    }
}

impl Transfer {
    /// A transfer report of the given parts.
    pub fn new(file: String, elapsed_secs: String, bitrate_kbps: String, size_mb: String) -> (r:
        Transfer)
        ensures
            r@ == (TransferView {
                file: file@,
                elapsed_secs: elapsed_secs@,
                bitrate_kbps: bitrate_kbps@,
                size_mb: size_mb@,
            }),
    {
        Transfer { file, elapsed_secs, bitrate_kbps, size_mb }
    }
}

/// An event in the life of a download job.
///
/// All but the last two are read off the lines that the external process
/// writes. `ProcessExited` comes when that process ends, with its exit code if
/// it has one; `CancelRequested` comes from the user.
#[derive(Debug, PartialEq, Eq)]
pub enum JobEvent {
    /// The job turned out to be a playlist of so many tracks.
    PlaylistDiscovered(usize),
    /// The playlist is being fetched.
    LoadingPlaylist,
    /// The playlist's name and its creator.
    PlaylistNamed(String, String),
    /// A track is being looked for.
    Searching(String),
    /// A transfer is being set up.
    Initialize(Transfer),
    /// A transfer is under way.
    Progress(Transfer),
    /// A track could not be found.
    TrackNotFound(String),
    /// A transfer has come in.
    TrackSucceeded(Transfer),
    /// The playlist is done: tracks that came in, tracks that did not.
    PlaylistCompleted(usize, usize),
    /// The external process has ended.
    ProcessExited(Option<i32>),
    /// The user asked for the job to be canceled.
    CancelRequested,
}

/// The mathematical value of a [`JobEvent`].
pub enum EventView {
    PlaylistDiscovered(nat),
    LoadingPlaylist,
    PlaylistNamed(Seq<char>, Seq<char>),
    Searching(Seq<char>),
    Initialize(TransferView),
    Progress(TransferView),
    TrackNotFound(Seq<char>),
    TrackSucceeded(TransferView),
    PlaylistCompleted(nat, nat),
    ProcessExited(Option<i32>),
    CancelRequested,
}

impl EventView {
    /// The event is one that the line classifier produces.
    pub open spec fn from_line(self) -> bool {
        !(self is ProcessExited) && !(self is CancelRequested)
    }
}

impl View for JobEvent {
    type V = EventView;

    open spec fn view(&self) -> EventView {
        match self {
            JobEvent::PlaylistDiscovered(total) => EventView::PlaylistDiscovered(*total as nat),
            JobEvent::LoadingPlaylist => EventView::LoadingPlaylist,
            JobEvent::PlaylistNamed(name, creator) => EventView::PlaylistNamed(name@, creator@),
            JobEvent::Searching(name) => EventView::Searching(name@),
            JobEvent::Initialize(transfer) => EventView::Initialize(transfer@),
            JobEvent::Progress(transfer) => EventView::Progress(transfer@),
            JobEvent::TrackNotFound(name) => EventView::TrackNotFound(name@),
            JobEvent::TrackSucceeded(transfer) => EventView::TrackSucceeded(transfer@),
            JobEvent::PlaylistCompleted(succeeded, failed) => EventView::PlaylistCompleted(
                *succeeded as nat,
                *failed as nat,
            ),
            JobEvent::ProcessExited(code) => EventView::ProcessExited(*code),
            JobEvent::CancelRequested => EventView::CancelRequested,
        }
    }
}

impl Clone for JobEvent {
    fn clone(&self) -> (r: Self)
        ensures
            r@ == self@,
    {
        match self {
            JobEvent::PlaylistDiscovered(total) => JobEvent::PlaylistDiscovered(*total),
            JobEvent::LoadingPlaylist => JobEvent::LoadingPlaylist,
            JobEvent::PlaylistNamed(name, creator) => JobEvent::PlaylistNamed(
                name.clone(),
                creator.clone(),
            ),
            JobEvent::Searching(name) => JobEvent::Searching(name.clone()),
            JobEvent::Initialize(transfer) => JobEvent::Initialize(transfer.clone()),
            JobEvent::Progress(transfer) => JobEvent::Progress(transfer.clone()),
            JobEvent::TrackNotFound(name) => JobEvent::TrackNotFound(name.clone()),
            JobEvent::TrackSucceeded(transfer) => JobEvent::TrackSucceeded(transfer.clone()),
            JobEvent::PlaylistCompleted(succeeded, failed) => JobEvent::PlaylistCompleted(
                *succeeded,
                *failed,
            ),
            JobEvent::ProcessExited(code) => JobEvent::ProcessExited(*code),
            JobEvent::CancelRequested => JobEvent::CancelRequested,
        }
    }
}

/// What observers are told when a job changes.
#[derive(Debug, Clone, Copy, PartialEq, Eq, Structural)]
pub enum Notification {
    Started,
    Progress,
    Completed,
    Failed,
    Canceled,
}

impl Notification {
    /// The name of the channel on which the notification is published.
    pub open spec fn channel_name(self) -> Seq<char> {
        match self {
            Notification::Started => "download:started"@,
            Notification::Progress => "download:progress"@,
            Notification::Completed => "download:completed"@,
            Notification::Failed => "download:failed"@,
            Notification::Canceled => "download:canceled"@,
        }
    }

    /// The name of the channel on which the notification is published.
    pub fn channel(&self) -> (r: &'static str)
        ensures
            r@ == self.channel_name(),
    {
        match self {
            Notification::Started => "download:started",
            Notification::Progress => "download:progress",
            Notification::Completed => "download:completed",
            Notification::Failed => "download:failed",
            Notification::Canceled => "download:canceled",
        }
    }
}

} // verus!
