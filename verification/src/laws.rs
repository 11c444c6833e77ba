//! What holds of records, of the registry and of the classifier whatever
//! happens to them.

use vstd::prelude::*;
use crate::classifier::{classification, first_event, LineKind, LINE_KINDS};
use crate::download::{DownloadView, LOG_CAPACITY};
use crate::event::EventView;
use crate::manager::{terminal_ids, with_canceled, without_terminal};
use crate::pattern::captures_of;
use crate::pump::{after_output, error_line, Output};
use crate::status::StatusView;

verus! {

/// A line that none of the patterns matches stands for no event.
pub proof fn lemma_unmatched_line_is_no_event(line: Seq<char>)
    requires
        forall|place: int|
            0 <= place < LINE_KINDS ==> captures_of(
                #[trigger] LineKind::at(place).pattern_text(),
                line,
            ) is None,
    ensures
        classification(line) is None,
{
    lemma_unmatched_from(line, 0);
}

proof fn lemma_unmatched_from(line: Seq<char>, from: int)
    requires
        0 <= from <= LINE_KINDS,
        forall|place: int|
            0 <= place < LINE_KINDS ==> captures_of(
                #[trigger] LineKind::at(place).pattern_text(),
                line,
            ) is None,
    ensures
        first_event(line, from) is None,
    decreases LINE_KINDS - from,
{
    if from < LINE_KINDS {
        assert(captures_of(LineKind::at(from).pattern_text(), line) is None);
        lemma_unmatched_from(line, from + 1);
    }
}

/// A line stands for the event of the first pattern that matches it: where
/// the patterns before a place match nowhere and the pattern at the place
/// does, the groups of that match decide.
pub proof fn lemma_first_match_decides(line: Seq<char>, place: int)
    requires
        0 <= place < LINE_KINDS,
        forall|earlier: int|
            0 <= earlier < place ==> captures_of(
                #[trigger] LineKind::at(earlier).pattern_text(),
                line,
            ) is None,
        captures_of(LineKind::at(place).pattern_text(), line) is Some,
    ensures
        classification(line) == LineKind::at(place).event_of(
            captures_of(LineKind::at(place).pattern_text(), line)->0,
        ),
{
    lemma_skips_unmatched(line, 0, place);
}

proof fn lemma_skips_unmatched(line: Seq<char>, from: int, place: int)
    requires
        0 <= from <= place < LINE_KINDS,
        forall|earlier: int|
            0 <= earlier < place ==> captures_of(
                #[trigger] LineKind::at(earlier).pattern_text(),
                line,
            ) is None,
    ensures
        first_event(line, from) == first_event(line, place),
    decreases place - from,
{
    if from < place {
        assert(captures_of(LineKind::at(from).pattern_text(), line) is None);
        lemma_skips_unmatched(line, from + 1, place);
    }
}

/// Cancelling a job twice is the same as cancelling it once: the job is
/// still there, so the second request succeeds, and nothing changes.
pub proof fn lemma_cancel_is_idempotent(jobs: Map<Seq<char>, DownloadView>, id: Seq<char>)
    requires
        jobs.contains_key(id),
    ensures
        with_canceled(jobs, id).contains_key(id),
        with_canceled(jobs, id)[id].status == StatusView::Canceled,
        with_canceled(with_canceled(jobs, id), id) == with_canceled(jobs, id),
{
    assert(with_canceled(with_canceled(jobs, id), id) =~= with_canceled(jobs, id));
}

/// A cancel request marks any record as canceled, and a second request
/// changes nothing.
pub proof fn lemma_cancel_request_is_idempotent(record: DownloadView)
    ensures
        record.step(EventView::CancelRequested).status == StatusView::Canceled,
        record.step(EventView::CancelRequested).step(EventView::CancelRequested) == record.step(
            EventView::CancelRequested,
        ),
{
}

impl DownloadView {
    /// The event would count a track beyond the size of the playlist: one
    /// more track when all are settled, or a summary of more tracks than the
    /// playlist has.
    pub open spec fn overshoots(self, event: EventView) -> bool {
        &&& self.is_playlist
        &&& self.total_tracks is Some
        &&& match event {
            EventView::TrackSucceeded(_) => self.completed_tracks->0 + self.failed_tracks->0
                >= self.total_tracks->0,
            EventView::TrackNotFound(_) => self.completed_tracks->0 + self.failed_tracks->0
                >= self.total_tracks->0,
            EventView::PlaylistCompleted(succeeded, failed) => succeeded + failed
                > self.total_tracks->0,
            _ => false,
        }
    }
}

/// Learning the size of a playlist sets its counters to zero, so that they
/// account for no more tracks than it has.
pub proof fn lemma_discovery_establishes_the_tally(record: DownloadView, total: nat)
    requires
        record.is_playlist,
    ensures
        record.step(EventView::PlaylistDiscovered(total)).total_tracks == Some(total),
        record.step(EventView::PlaylistDiscovered(total)).counters_together(),
        record.step(EventView::PlaylistDiscovered(total)).tally_within_total(),
{
}

/// The counters of a playlist account for no more tracks than it has, once
/// its size is known, as long as no event counts beyond that size.
pub proof fn lemma_tally_stays_within_total(record: DownloadView, event: EventView)
    requires
        record.tally_within_total(),
        !record.overshoots(event),
    ensures
        record.step(event).tally_within_total(),
{
}

/// An event that counts beyond the size of the playlist leaves the counters
/// above it: nothing in a record holds them back.
pub proof fn lemma_overshooting_breaks_the_tally(record: DownloadView, event: EventView)
    requires
        record.tally_within_total(),
        record.overshoots(event),
    ensures
        !record.step(event).tally_within_total(),
{
}

/// A progress between zero and one stays so, as long as the counters stay
/// within the size of the playlist.
pub proof fn lemma_progress_stays_within_unit(record: DownloadView, event: EventView)
    requires
        record.progress_within_unit(),
        record.tally_within_total(),
        !record.overshoots(event),
    ensures
        record.step(event).progress_within_unit(),
{
}

/// A record keeps its shape under every event: the console lines stay
/// within their capacity, and a progress that is present is a number.
pub proof fn lemma_step_keeps_wf(record: DownloadView, event: EventView)
    requires
        record.wf(),
    ensures
        record.step(event).wf(),
        record.step(event).console_logs == record.console_logs,
{
}

/// A record keeps its shape when a console line is added.
pub proof fn lemma_log_keeps_wf(record: DownloadView, line: Seq<char>)
    requires
        record.wf(),
    ensures
        record.with_log(line).wf(),
        record.with_log(line).console_logs.last() == line,
{
}

/// The record after a run of output, taken in piece by piece.
pub open spec fn after_all_output(record: DownloadView, pieces: Seq<Output>) -> DownloadView
    decreases pieces.len(),
{
    if pieces.len() == 0 {
        record
    } else {
        after_output(after_all_output(record, pieces.drop_last()), pieces.last())
    }
}

/// However much output is taken in, a record never keeps more console lines
/// than its capacity.
pub proof fn lemma_console_lines_stay_bounded(record: DownloadView, pieces: Seq<Output>)
    requires
        record.wf(),
    ensures
        after_all_output(record, pieces).wf(),
        after_all_output(record, pieces).console_logs.len() <= LOG_CAPACITY,
    decreases pieces.len(),
{
    if pieces.len() > 0 {
        let before = after_all_output(record, pieces.drop_last());
        lemma_console_lines_stay_bounded(record, pieces.drop_last());
        match pieces.last() {
            Output::Stdout(line) => {
                lemma_log_keeps_wf(before, line);
                match classification(line) {
                    Some(event) => {
                        lemma_step_keeps_wf(before.with_log(line), event);
                    },
                    None => {},
                }
            },
            Output::Stderr(line) => {
                lemma_log_keeps_wf(before, error_line(line));
            },
            Output::Exited(code) => {
                lemma_step_keeps_wf(before, EventView::ProcessExited(code));
            },
        }
    }
}

/// The three counters of a playlist are all unknown or all known, before and
/// after every event but one: a summary that comes before the size of the
/// playlist is known sets two of them.
pub proof fn lemma_counters_stay_together(record: DownloadView, event: EventView)
    requires
        record.counters_together(),
    ensures
        record.step(event).counters_together() <==> !(event is PlaylistCompleted
            && record.is_playlist && record.total_tracks is None),
{
}

/// No line that the external process writes leads a job out of its terminal
/// states: a job that has ended stays ended, and its status changes only
/// where a success is reported, to completed.
pub proof fn lemma_terminal_stays_terminal(record: DownloadView, event: EventView)
    requires
        record.status.is_terminal(),
        event.from_line(),
    ensures
        record.step(event).status.is_terminal(),
        record.step(event).status == record.status || record.step(event).status
            == StatusView::Completed,
        record.status == StatusView::Completed ==> record.step(event).status
            == StatusView::Completed,
{
}

/// The end of the external process changes nothing of a job that has ended.
pub proof fn lemma_exit_spares_terminal(record: DownloadView, code: Option<i32>)
    requires
        record.status.is_terminal(),
    ensures
        record.step(EventView::ProcessExited(code)) == record,
        record.notice(EventView::ProcessExited(code)) is None,
{
}

/// The end of the external process ends every job that has not ended:
/// completed where the exit code is 0, failed otherwise.
pub proof fn lemma_exit_ends_the_job(record: DownloadView, code: Option<i32>)
    requires
        !record.status.is_terminal(),
    ensures
        record.step(EventView::ProcessExited(code)).status.is_terminal(),
        code == Some(0i32) ==> record.step(EventView::ProcessExited(code)).status
            == StatusView::Completed,
        code != Some(0i32) ==> record.step(EventView::ProcessExited(code)).status
            == StatusView::Failed("Command failed"@),
{
}

/// No event changes what a record was made with: its identifier, its query,
/// its time of creation, and whether it is a playlist.
pub proof fn lemma_identity_is_kept(record: DownloadView, event: EventView)
    ensures
        record.step(event).id == record.id,
        record.step(event).query == record.query,
        record.step(event).started_at == record.started_at,
        record.step(event).is_playlist == record.is_playlist,
        record.step(event).artist == record.artist,
        record.step(event).album == record.album,
{
}

/// Clearing removes exactly the jobs that have ended: a job is left if and
/// only if it was there and has not ended, and it is left as it was.
pub proof fn lemma_clear_removes_the_terminal(jobs: Map<Seq<char>, DownloadView>, id: Seq<char>)
    ensures
        without_terminal(jobs).contains_key(id) <==> jobs.contains_key(id)
            && !jobs[id].status.is_terminal(),
        without_terminal(jobs).contains_key(id) ==> without_terminal(jobs)[id] == jobs[id],
        jobs.contains_key(id) && !without_terminal(jobs).contains_key(id) <==> terminal_ids(
            jobs,
        ).contains(id),
{
}

/// Clearing twice is the same as clearing once: the second time nothing is
/// left to remove.
pub proof fn lemma_clear_is_idempotent(jobs: Map<Seq<char>, DownloadView>)
    ensures
        terminal_ids(without_terminal(jobs)) == Set::<Seq<char>>::empty(),
        terminal_ids(without_terminal(jobs)).len() == 0,
        without_terminal(without_terminal(jobs)) == without_terminal(jobs),
{
    assert(terminal_ids(without_terminal(jobs)) =~= Set::<Seq<char>>::empty());
    assert(without_terminal(without_terminal(jobs)) =~= without_terminal(jobs));
}

} // verus!
