//! How an event changes the record of a job.
//!
//! An event takes effect only on a record that it is meant for: some events
//! are for playlists, and those that move a job forward are for jobs that
//! have not ended. On any other record the event changes nothing and nobody
//! is notified.
//!
//! Cancelling is soft: it marks the record and does not stop the external
//! process. A success that the process reports later is still recorded, so
//! a canceled job can end up completed. No reported line leads from a
//! terminal state back to one that is not.

use vstd::prelude::*;
use vstd::string::StringExecFns;
use crate::download::{Download, DownloadView};
use crate::event::{EventView, JobEvent, Notification};
use crate::progress::{Fraction, Progress};
use crate::status::{DownloadStatus, StatusView};

verus! {

/// The title of a playlist, made of its name and its creator.
pub open spec fn playlist_title(name: Seq<char>, creator: Seq<char>) -> Seq<char> {
    name + " by "@ + creator
}

/// The reason recorded when the external process ends in failure.
pub open spec fn exit_failure_reason() -> Seq<char> {
    "Command failed"@
}

/// Whether an exit code means success: the process gave a code, and it is 0.
pub open spec fn exit_succeeded(code: Option<i32>) -> bool {
    code == Some(0i32)
}

impl DownloadView {
    /// The record has ended and is marked complete.
    pub open spec fn completed(self) -> DownloadView {
        DownloadView { status: StatusView::Completed, progress: Some(Fraction::one()), ..self }
    }

    /// The playlist has one track only, and that track is settled.
    pub open spec fn single_track_settled(self) -> bool {
        &&& self.total_tracks == Some(1nat)
        &&& self.completed_tracks is Some
        &&& self.failed_tracks is Some
        &&& self.completed_tracks->0 + self.failed_tracks->0 >= 1
    }

    /// Whether the event takes effect on this record.
    pub open spec fn takes(self, event: EventView) -> bool {
        match event {
            EventView::PlaylistDiscovered(_) => self.is_playlist,
            EventView::LoadingPlaylist => !self.status.is_terminal(),
            EventView::PlaylistNamed(_, _) => self.is_playlist,
            EventView::Searching(_) => !self.status.is_terminal(),
            EventView::Initialize(_) => !self.status.is_terminal(),
            EventView::Progress(_) => !self.status.is_terminal(),
            EventView::TrackNotFound(_) => self.is_playlist,
            EventView::TrackSucceeded(_) => true,
            EventView::PlaylistCompleted(_, _) => self.is_playlist,
            EventView::ProcessExited(_) => !self.status.is_terminal(),
            EventView::CancelRequested => true,
        }
    }

    /// The record after the event.
    pub open spec fn step(self, event: EventView) -> DownloadView {
        if !self.takes(event) {
            self
        } else {
            match event {
                EventView::PlaylistDiscovered(total) => self.with_playlist_info(total),
                EventView::LoadingPlaylist => DownloadView {
                    status: StatusView::Searching,
                    ..self
                },
                EventView::PlaylistNamed(name, creator) => DownloadView {
                    title: playlist_title(name, creator),
                    ..self
                },
                EventView::Searching(name) => DownloadView {
                    status: StatusView::Searching,
                    title: if self.is_playlist {
                        self.title
                    } else {
                        name
                    },
                    ..self
                },
                EventView::Initialize(_) => DownloadView {
                    status: StatusView::InProgress,
                    progress: if self.is_playlist {
                        self.progress
                    } else {
                        Some(Fraction::zero())
                    },
                    ..self
                },
                EventView::Progress(transfer) => DownloadView {
                    progress: if self.is_playlist {
                        self.progress
                    } else {
                        Some(Fraction::half())
                    },
                    file_path: Some(transfer.file),
                    ..self
                },
                EventView::TrackNotFound(_) => self.with_failed_track(),
                EventView::TrackSucceeded(transfer) => if self.is_playlist {
                    let counted = self.with_completed_track();
                    if counted.single_track_settled() {
                        counted.completed()
                    } else {
                        counted
                    }
                } else {
                    DownloadView { file_path: Some(transfer.file), ..self.completed() }
                },
                EventView::PlaylistCompleted(succeeded, failed) => DownloadView {
                    completed_tracks: Some(succeeded),
                    failed_tracks: Some(failed),
                    ..self.completed()
                },
                EventView::ProcessExited(code) => if exit_succeeded(code) {
                    self.completed()
                } else {
                    DownloadView { status: StatusView::Failed(exit_failure_reason()), ..self }
                },
                EventView::CancelRequested => DownloadView {
                    status: StatusView::Canceled,
                    ..self
                },
            }
        }
    }

    /// What observers are told after the event: nothing where the event did
    /// not take effect.
    pub open spec fn notice(self, event: EventView) -> Option<Notification> {
        if !self.takes(event) {
            None
        } else {
            match event {
                EventView::TrackSucceeded(_) => if self.is_playlist
                    && !self.with_completed_track().single_track_settled() {
                    Some(Notification::Progress)
                } else {
                    Some(Notification::Completed)
                },
                EventView::PlaylistCompleted(_, _) => Some(Notification::Completed),
                EventView::ProcessExited(code) => if exit_succeeded(code) {
                    Some(Notification::Completed)
                } else {
                    Some(Notification::Failed)
                },
                EventView::CancelRequested => Some(Notification::Canceled),
                _ => Some(Notification::Progress),
            }
        }
    }

    /// Each counter that an event could raise is below the largest number
    /// that the machine holds.
    pub open spec fn has_room(self) -> bool {
        &&& (self.is_playlist && self.completed_tracks is Some) ==> self.completed_tracks->0
            < usize::MAX
        &&& (self.is_playlist && self.failed_tracks is Some) ==> self.failed_tracks->0
            < usize::MAX
    }

    /// The counter that the event would raise is below the largest number
    /// that the machine holds.
    pub open spec fn has_room_for(self, event: EventView) -> bool {
        &&& (event is TrackSucceeded && self.is_playlist && self.completed_tracks is Some)
            ==> self.completed_tracks->0 < usize::MAX
        &&& (event is TrackNotFound && self.is_playlist && self.failed_tracks is Some)
            ==> self.failed_tracks->0 < usize::MAX
    }
}

impl Download {
    /// Whether the counters can still be raised: each known counter of a
    /// playlist is below the largest number that the machine holds.
    pub fn has_room(&self) -> (r: bool)
        ensures
            r == self@.has_room(),
            r ==> forall|event: EventView| self@.has_room_for(event),
    {
        let completed_fits = match self.completed_tracks {
            Some(completed) => completed < usize::MAX,
            None => true,
        };
        let failed_fits = match self.failed_tracks {
            Some(failed) => failed < usize::MAX,
            None => true,
        };
        !self.is_playlist || (completed_fits && failed_fits)
    }

    /// Marks the record complete.
    fn complete(&mut self)
        ensures
            final(self)@ == old(self)@.completed(),
    {
        self.update_status(DownloadStatus::Completed);
        self.update_progress(Progress::complete());
    }

    /// Applies an event to the record and says what observers are to be
    /// told.
    pub fn apply(&mut self, event: &JobEvent) -> (r: Option<Notification>)
        requires
            old(self)@.has_room_for(event@),
        ensures
            final(self)@ == old(self)@.step(event@),
            r == old(self)@.notice(event@),
    {
        match event {
            JobEvent::PlaylistDiscovered(total) => {
                if self.is_playlist {
                    self.set_playlist_info(*total);
                    Some(Notification::Progress)
                } else {
                    None
                }
            },
            JobEvent::LoadingPlaylist => {
                if !self.status.is_terminal() {
                    self.update_status(DownloadStatus::Searching);
                    Some(Notification::Progress)
                } else {
                    None
                }
            },
            JobEvent::PlaylistNamed(name, creator) => {
                if self.is_playlist {
                    let mut title = name.clone();
                    title.append(" by ");
                    title.append(creator.as_str());
                    self.title = title;
                    Some(Notification::Progress)
                } else {
                    None
                }
            },
            JobEvent::Searching(name) => {
                if !self.status.is_terminal() {
                    self.update_status(DownloadStatus::Searching);
                    if !self.is_playlist {
                        self.title = name.clone();
                    }
                    Some(Notification::Progress)
                } else {
                    None
                }
            },
            JobEvent::Initialize(_) => {
                if !self.status.is_terminal() {
                    self.update_status(DownloadStatus::InProgress);
                    if !self.is_playlist {
                        self.update_progress(Progress::zero());
                    }
                    Some(Notification::Progress)
                } else {
                    None
                }
            },
            JobEvent::Progress(transfer) => {
                if !self.status.is_terminal() {
                    if !self.is_playlist {
                        self.update_progress(Progress::half());
                    }
                    self.set_file_path(transfer.file.clone());
                    Some(Notification::Progress)
                } else {
                    None
                }
            },
            JobEvent::TrackNotFound(_) => {
                if self.is_playlist {
                    self.increment_failed_tracks();
                    Some(Notification::Progress)
                } else {
                    None
                }
            },
            JobEvent::TrackSucceeded(transfer) => {
                if self.is_playlist {
                    self.increment_completed_tracks();
                    if self.is_single_track_settled() {
                        self.complete();
                        Some(Notification::Completed)
                    } else {
                        Some(Notification::Progress)
                    }
                } else {
                    self.complete();
                    self.set_file_path(transfer.file.clone());
                    Some(Notification::Completed)
                }
            },
            JobEvent::PlaylistCompleted(succeeded, failed) => {
                if self.is_playlist {
                    self.completed_tracks = Some(*succeeded);
                    self.failed_tracks = Some(*failed);
                    self.complete();
                    Some(Notification::Completed)
                } else {
                    None
                }
            },
            JobEvent::ProcessExited(code) => {
                if !self.status.is_terminal() {
                    if exit_code_is_success(*code) {
                        self.complete();
                        Some(Notification::Completed)
                    } else {
                        self.update_status(DownloadStatus::Failed("Command failed".to_owned()));
                        Some(Notification::Failed)
                    }
                } else {
                    None
                }
            },
            JobEvent::CancelRequested => {
                self.update_status(DownloadStatus::Canceled);
                Some(Notification::Canceled)
            },
        }
    }

    /// Whether the playlist has one track only, and that track is settled.
    pub fn is_single_track_settled(&self) -> (r: bool)
        ensures
            r == self@.single_track_settled(),
    {
        match (self.total_tracks, self.completed_tracks, self.failed_tracks) {
            (Some(total), Some(completed), Some(failed)) => total == 1 && (completed > 0 || failed
                > 0),
            _ => false,
        }
    }
}

/// Whether an exit code means success: the process gave a code, and it is 0.
pub fn exit_code_is_success(code: Option<i32>) -> (r: bool)
    ensures
        r == exit_succeeded(code),
{
    match code {
        Some(value) => value == 0,
        None => false,
    }
}

} // verus!
