//! What the registry does with the output of one external process.
//!
//! The caller reads the process's output and hands it over piece by piece:
//! a line of standard output, a line of standard error, the end of the
//! process. Each piece changes the record of the job and yields what
//! observers are to be told. Publishing is the caller's part.

use vstd::prelude::*;
use vstd::string::StringExecFns;
use crate::classifier::{classification, Classifier};
use crate::download::{Download, DownloadView};
use crate::event::{EventView, JobEvent, Notification};
use crate::manager::DownloadManager;
use crate::reducer::{exit_code_is_success, exit_succeeded};

verus! {

/// A change of a job that observers are told of: the kind of change and the
/// record after it.
#[derive(Debug)]
pub struct JobUpdate {
    pub notification: Notification,
    pub download: Download,
}

/// What the end of the external process amounts to: whether it ended in
/// success, and the change of the job, if there is one.
#[derive(Debug)]
pub struct ExitReport {
    pub success: bool,
    pub update: Option<JobUpdate>,
}

/// The console line that a line of standard error is kept as.
pub open spec fn error_line(line: Seq<char>) -> Seq<char> {
    "ERROR: "@ + line
}

/// The record after a line of standard output: the line is kept, and the
/// event that it stands for, if any, is applied.
pub open spec fn after_stdout(record: DownloadView, line: Seq<char>) -> DownloadView {
    match classification(line) {
        Some(event) => record.with_log(line).step(event),
        None => record.with_log(line),
    }
}

/// The record after a line of standard error: the line is kept, marked as
/// an error.
pub open spec fn after_stderr(record: DownloadView, line: Seq<char>) -> DownloadView {
    record.with_log(error_line(line))
}

/// The record after the end of the process.
pub open spec fn after_exit(record: DownloadView, code: Option<i32>) -> DownloadView {
    record.step(EventView::ProcessExited(code))
}

/// A piece of what the external process gives out.
pub enum Output {
    /// A line of standard output.
    Stdout(Seq<char>),
    /// A line of standard error.
    Stderr(Seq<char>),
    /// The end of the process, with its exit code if it has one.
    Exited(Option<i32>),
}

/// The record after a piece of output.
pub open spec fn after_output(record: DownloadView, piece: Output) -> DownloadView {
    match piece {
        Output::Stdout(line) => after_stdout(record, line),
        Output::Stderr(line) => after_stderr(record, line),
        Output::Exited(code) => after_exit(record, code),
    }
}

/// What observers are told after a line of standard output.
pub open spec fn notice_after_stdout(record: DownloadView, line: Seq<char>) -> Option<
    Notification,
> {
    match classification(line) {
        Some(event) => record.with_log(line).notice(event),
        None => None,
    }
}

/// Whether an update tells of the given change and carries the given record.
pub open spec fn update_is(
    update: Option<JobUpdate>,
    notification: Option<Notification>,
    record: DownloadView,
) -> bool {
    match update {
        Some(u) => notification == Some(u.notification) && u.download@ == record,
        None => notification is None,
    }
}

/// The channel on which lines of standard output are passed on.
pub fn stdout_channel() -> (r: &'static str)
    ensures
        r@ == "sldl:stdout"@,
{
    "sldl:stdout"
}

/// The channel on which lines of standard error are passed on.
pub fn stderr_channel() -> (r: &'static str)
    ensures
        r@ == "sldl:stderr"@,
{
    "sldl:stderr"
}

/// The channel on which the end of the process is announced.
pub fn terminated_channel() -> (r: &'static str)
    ensures
        r@ == "sldl:terminated"@,
{
    "sldl:terminated"
}

impl DownloadManager {
    /// Takes in a line of standard output for the job under an identifier.
    ///
    /// The line is appended to the job's console lines. If it stands for an
    /// event, the event is applied, and the change is returned where
    /// observers are to be told of it. Nothing happens where no job has the
    /// identifier.
    pub fn ingest_stdout(&mut self, classifier: &Classifier, id: &str, line: &str) -> (r: Option<
        JobUpdate,
    >)
        requires
            old(self).wf(),
            old(self)@.contains_key(id@) ==> old(self)@[id@].has_room(),
        ensures
            final(self).wf(),
            final(self).keys() == old(self).keys(),
            if old(self)@.contains_key(id@) {
                &&& final(self)@ == old(self)@.insert(id@, after_stdout(old(self)@[id@], line@))
                &&& update_is(r, notice_after_stdout(old(self)@[id@], line@), final(self)@[id@])
            } else {
                final(self)@ == old(self)@ && r is None
            },
    {
        match self.get_download_mut(id) {
            Some(download) => {
                download.add_console_log(line.to_owned());
                match classifier.classify(line) {
                    Some(event) => match download.apply(&event) {
                        Some(notification) => Some(
                            JobUpdate { notification, download: download.clone() },
                        ),
                        None => None,
                    },
                    None => None,
                }
            },
            None => None,
        }
    }

    /// Takes in a line of standard error for the job under an identifier.
    ///
    /// The line is appended to the job's console lines, marked as an error.
    /// It is never held against the patterns. Nothing happens where no job
    /// has the identifier.
    pub fn ingest_stderr(&mut self, id: &str, line: &str)
        requires
            old(self).wf(),
        ensures
            final(self).wf(),
            final(self).keys() == old(self).keys(),
            final(self)@ == if old(self)@.contains_key(id@) {
                old(self)@.insert(id@, after_stderr(old(self)@[id@], line@))
            } else {
                old(self)@
            },
    {
        match self.get_download_mut(id) {
            Some(download) => {
                let mut marked = "ERROR: ".to_owned();
                marked.append(line);
                download.add_console_log(marked);
            },
            None => {},
        }
    }

    /// Takes in the end of the external process for the job under an
    /// identifier.
    ///
    /// A job that has not ended by then is completed if the process ended
    /// with code 0, and failed otherwise. A job that has ended stays as it
    /// is. Nothing changes where no job has the identifier.
    pub fn process_exited(&mut self, id: &str, code: Option<i32>) -> (r: ExitReport)
        requires
            old(self).wf(),
        ensures
            final(self).wf(),
            final(self).keys() == old(self).keys(),
            r.success == exit_succeeded(code),
            if old(self)@.contains_key(id@) {
                &&& final(self)@ == old(self)@.insert(id@, after_exit(old(self)@[id@], code))
                &&& update_is(
                    r.update,
                    old(self)@[id@].notice(EventView::ProcessExited(code)),
                    final(self)@[id@],
                )
            } else {
                final(self)@ == old(self)@ && r.update is None
            },
    {
        let success = exit_code_is_success(code);
        let update = match self.get_download_mut(id) {
            Some(download) => match download.apply(&JobEvent::ProcessExited(code)) {
                Some(notification) => Some(JobUpdate { notification, download: download.clone() }),
                None => None,
            },
            None => None,
        };
        ExitReport { success, update }
    }
}

} // verus!
