//! The record of one download job.

use vstd::prelude::*;
use crate::progress::{Fraction, Progress};
use crate::status::{DownloadStatus, StatusView};
use crate::text::{clone_lines, clone_text};

verus! {

/// How many console lines a record keeps: the oldest make room for the newest.
pub const LOG_CAPACITY: usize = 100;

/// One download job: a single track or a playlist.
#[derive(Debug)]
pub struct Download {
    pub id: String,
    pub title: String,
    pub artist: Option<String>,
    pub album: Option<String>,
    pub query: String,
    pub started_at: i64,
    pub status: DownloadStatus,
    pub progress: Option<Progress>,
    pub file_path: Option<String>,
    pub is_playlist: bool,
    pub total_tracks: Option<usize>,
    pub completed_tracks: Option<usize>,
    pub failed_tracks: Option<usize>,
    pub console_logs: Vec<String>,
}

/// The mathematical value of a [`Download`].
pub struct DownloadView {
    pub id: Seq<char>,
    pub title: Seq<char>,
    pub artist: Option<Seq<char>>,
    pub album: Option<Seq<char>>,
    pub query: Seq<char>,
    pub started_at: i64,
    pub status: StatusView,
    pub progress: Option<Fraction>,
    pub file_path: Option<Seq<char>>,
    pub is_playlist: bool,
    pub total_tracks: Option<nat>,
    pub completed_tracks: Option<nat>,
    pub failed_tracks: Option<nat>,
    pub console_logs: Seq<Seq<char>>,
}

/// A counter that may still be unknown, as a natural number.
pub open spec fn count_view(count: Option<usize>) -> Option<nat> {
    match count {
        Some(n) => Some(n as nat),
        None => None,
    }
}

/// Whether a character fits a place of a hyphenated identifier: a hyphen
/// after the 8th, 12th, 16th and 20th digit, a lower-case hexadecimal digit
/// elsewhere.
pub open spec fn fits_identifier(place: int, c: char) -> bool {
    if place == 8 || place == 13 || place == 18 || place == 23 {
        c == '-'
    } else {
        ('0' <= c <= '9') || ('a' <= c <= 'f')
    }
}

/// Whether the text has the shape of a hyphenated identifier: 36 characters,
/// each fitting its place.
pub open spec fn is_identifier(text: Seq<char>) -> bool {
    &&& text.len() == 36
    &&& forall|place: int| 0 <= place < 36 ==> fits_identifier(place, #[trigger] text[place])
}

impl DownloadView {
    /// The record of a job that has just been queued.
    pub open spec fn queued(
        id: Seq<char>,
        started_at: i64,
        title: Seq<char>,
        artist: Option<Seq<char>>,
        album: Option<Seq<char>>,
        query: Seq<char>,
        is_playlist: bool,
    ) -> DownloadView {
        DownloadView {
            id,
            title,
            artist,
            album,
            query,
            started_at,
            status: StatusView::Queued,
            progress: None,
            file_path: None,
            is_playlist,
            total_tracks: None,
            completed_tracks: None,
            failed_tracks: None,
            console_logs: Seq::empty(),
        }
    }

    /// The record with one more console line. Past the capacity the oldest
    /// line leaves.
    pub open spec fn with_log(self, line: Seq<char>) -> DownloadView {
        let pushed = self.console_logs.push(line);
        DownloadView {
            console_logs: if pushed.len() > LOG_CAPACITY {
                pushed.remove(0)
            } else {
                pushed
            },
            ..self
        }
    }

    /// The record of a playlist whose size has just been learned.
    pub open spec fn with_playlist_info(self, total: nat) -> DownloadView {
        DownloadView {
            total_tracks: Some(total),
            completed_tracks: Some(0),
            failed_tracks: Some(0),
            ..self
        }
    }

    /// The record with its progress brought up to its counters: the settled
    /// tracks out of all tracks. Nothing changes while a counter is unknown
    /// or the playlist has no tracks.
    pub open spec fn with_playlist_progress(self) -> DownloadView {
        if self.completed_tracks is Some && self.failed_tracks is Some && self.total_tracks is Some
            && self.total_tracks->0 > 0 {
            DownloadView {
                progress: Some(
                    Fraction {
                        numerator: self.completed_tracks->0 + self.failed_tracks->0,
                        denominator: self.total_tracks->0,
                    },
                ),
                ..self
            }
        } else {
            self
        }
    }

    /// The record with one more track that came in.
    pub open spec fn with_completed_track(self) -> DownloadView {
        match self.completed_tracks {
            Some(completed) => DownloadView {
                completed_tracks: Some(completed + 1),
                ..self
            }.with_playlist_progress(),
            None => self,
        }
    }

    /// The record with one more track that was given up.
    pub open spec fn with_failed_track(self) -> DownloadView {
        match self.failed_tracks {
            Some(failed) => DownloadView {
                failed_tracks: Some(failed + 1),
                ..self
            }.with_playlist_progress(),
            None => self,
        }
    }

    /// What holds of every record that this library has made and changed:
    /// the console lines are within their capacity, and a progress that is
    /// present is a number.
    pub open spec fn wf(self) -> bool {
        &&& self.console_logs.len() <= LOG_CAPACITY
        &&& self.progress matches Some(p) ==> p.defined()
    }

    /// The three playlist counters are all unknown or all known.
    pub open spec fn counters_together(self) -> bool {
        &&& self.total_tracks is Some <==> self.completed_tracks is Some
        &&& self.total_tracks is Some <==> self.failed_tracks is Some
    }

    /// The counters, where known, account for no more tracks than the
    /// playlist has.
    pub open spec fn tally_within_total(self) -> bool {
        self.total_tracks is Some ==> {
            &&& self.completed_tracks is Some
            &&& self.failed_tracks is Some
            &&& self.completed_tracks->0 + self.failed_tracks->0 <= self.total_tracks->0
        }
    }

    /// A progress that is present lies between zero and one.
    pub open spec fn progress_within_unit(self) -> bool {
        self.progress matches Some(p) ==> p.within_unit()
    }
}

impl View for Download {
    type V = DownloadView;

    open spec fn view(&self) -> DownloadView {
        DownloadView {
            id: self.id@,
            title: self.title@,
            artist: self.artist.deep_view(),
            album: self.album.deep_view(),
            query: self.query@,
            started_at: self.started_at,
            status: self.status@,
            progress: self.progress.deep_view(),
            file_path: self.file_path.deep_view(),
            is_playlist: self.is_playlist,
            total_tracks: count_view(self.total_tracks),
            completed_tracks: count_view(self.completed_tracks),
            failed_tracks: count_view(self.failed_tracks),
            console_logs: self.console_logs.deep_view(),
        }
    }
}

impl DeepView for Download {
    type V = DownloadView;

    open spec fn deep_view(&self) -> DownloadView {
        self@
    }
}

/// A new identifier for a record.
///
/// Calls `uuid::Uuid::new_v4` and writes the result with its `Display`, which
/// is the hyphenated lower-case form. Which identifier comes is left open;
/// only its shape is claimed. The call panics where the operating system
/// gives no random bytes.
#[verifier::external_body]
fn fresh_identifier() -> (id: String)
    ensures
        is_identifier(id@),
{
    uuid::Uuid::new_v4().to_string()
}

/// The current time in seconds since the Unix epoch.
///
/// Calls `chrono::Utc::now` and takes its `timestamp`. Nothing is claimed of
/// the value. The call panics where the system clock stands before the
/// epoch.
#[verifier::external_body]
fn current_timestamp() -> i64 {
    chrono::Utc::now().timestamp()
}

impl Clone for Download {
    fn clone(&self) -> (r: Self)
        ensures
            r@ == self@,
    {
        Download {
            id: self.id.clone(),
            title: self.title.clone(),
            artist: clone_text(&self.artist),
            album: clone_text(&self.album),
            query: self.query.clone(),
            started_at: self.started_at,
            status: self.status.clone(),
            progress: self.progress,
            file_path: clone_text(&self.file_path),
            is_playlist: self.is_playlist,
            total_tracks: self.total_tracks,
            completed_tracks: self.completed_tracks,
            failed_tracks: self.failed_tracks,
            console_logs: clone_lines(&self.console_logs),
        }
    }
}

impl Download {
    /// The record of a job that is queued under the given identifier, at the
    /// given time.
    pub fn with_identity(
        id: String,
        started_at: i64,
        title: String,
        artist: Option<String>,
        album: Option<String>,
        query: String,
        is_playlist: bool,
    ) -> (r: Download)
        ensures
            r@ == DownloadView::queued(
                id@,
                started_at,
                title@,
                artist.deep_view(),
                album.deep_view(),
                query@,
                is_playlist,
            ),
            r@.wf(),
    {
        let record = Download {
            id,
            title,
            artist,
            album,
            query,
            started_at,
            status: DownloadStatus::Queued,
            progress: None,
            file_path: None,
            is_playlist,
            total_tracks: None,
            completed_tracks: None,
            failed_tracks: None,
            console_logs: Vec::new(),
        };
        assert(record.console_logs.deep_view() =~= Seq::<Seq<char>>::empty());
        record
    }

    /// The record of a job that is queued now, under a new identifier.
    pub fn new(
        title: String,
        artist: Option<String>,
        album: Option<String>,
        query: String,
        is_playlist: bool,
    ) -> (r: Download)
        ensures
            r@ == DownloadView::queued(
                r@.id,
                r@.started_at,
                title@,
                artist.deep_view(),
                album.deep_view(),
                query@,
                is_playlist,
            ),
            is_identifier(r@.id),
            r@.wf(),
    {
        let id = fresh_identifier();
        let started_at = current_timestamp();
        Download::with_identity(id, started_at, title, artist, album, query, is_playlist)
    }

    /// Sets the status.
    pub fn update_status(&mut self, status: DownloadStatus)
        ensures
            final(self)@ == (DownloadView { status: status@, ..old(self)@ }),
    {
        self.status = status;
    }

    /// Sets the progress.
    pub fn update_progress(&mut self, progress: Progress)
        ensures
            final(self)@ == (DownloadView { progress: Some(progress@), ..old(self)@ }),
    {
        self.progress = Some(progress);
    }

    /// Sets the file that the job has written.
    pub fn set_file_path(&mut self, path: String)
        ensures
            final(self)@ == (DownloadView { file_path: Some(path@), ..old(self)@ }),
    {
        self.file_path = Some(path);
    }

    /// Appends a console line. Past the capacity the oldest line leaves.
    pub fn add_console_log(&mut self, log: String)
        ensures
            final(self)@ == old(self)@.with_log(log@),
            old(self)@.console_logs.len() <= LOG_CAPACITY ==> final(self)@.console_logs.len()
                <= LOG_CAPACITY,
    {
        let ghost before = self.console_logs.deep_view();
        self.console_logs.push(log);
        assert(self.console_logs.deep_view() =~= before.push(log@));
        if self.console_logs.len() > LOG_CAPACITY {
            let ghost pushed = self.console_logs.deep_view();
            self.console_logs.remove(0);
            assert(self.console_logs.deep_view() =~= pushed.remove(0));
        }
    }

    /// Records the size of the playlist and starts its counters at zero.
    pub fn set_playlist_info(&mut self, total: usize)
        ensures
            final(self)@ == old(self)@.with_playlist_info(total as nat),
    {
        self.total_tracks = Some(total);
        self.completed_tracks = Some(0);
        self.failed_tracks = Some(0);
    }

    /// Counts one more track that came in, and brings the progress up to the
    /// counters. Nothing changes while the counter is unknown.
    pub fn increment_completed_tracks(&mut self)
        requires
            old(self).completed_tracks matches Some(completed) ==> completed < usize::MAX,
        ensures
            final(self)@ == old(self)@.with_completed_track(),
    {
        if let Some(completed) = self.completed_tracks {
            self.completed_tracks = Some(completed + 1);
            self.update_playlist_progress();
        }
    }

    /// Counts one more track that was given up, and brings the progress up to
    /// the counters. Nothing changes while the counter is unknown.
    pub fn increment_failed_tracks(&mut self)
        requires
            old(self).failed_tracks matches Some(failed) ==> failed < usize::MAX,
        ensures
            final(self)@ == old(self)@.with_failed_track(),
    {
        if let Some(failed) = self.failed_tracks {
            self.failed_tracks = Some(failed + 1);
            self.update_playlist_progress();
        }
    }

    /// Brings the progress up to the counters: the settled tracks out of all
    /// tracks. Nothing changes while a counter is unknown or the playlist has
    /// no tracks.
    pub fn update_playlist_progress(&mut self)
        ensures
            final(self)@ == old(self)@.with_playlist_progress(),
    {
        if let (Some(completed), Some(failed), Some(total)) = (
            self.completed_tracks,
            self.failed_tracks,
            self.total_tracks,
        ) {
            if total > 0 {
                self.update_progress(Progress::of_tally(completed, failed, total));
            }
        }
    }
}

} // verus!
