use download_jobs::classifier::Classifier;
use download_jobs::download::Download;
use download_jobs::event::Notification;
use download_jobs::manager::DownloadManager;
use download_jobs::progress::Progress;
use download_jobs::pump::{stderr_channel, stdout_channel, terminated_channel};
use download_jobs::status::DownloadStatus;

fn setup(is_playlist: bool) -> (DownloadManager, Classifier) {
    let mut m = DownloadManager::new();
    m.add_download(Download::with_identity(
        "job".to_string(),
        1,
        "query".to_string(),
        None,
        None,
        "query".to_string(),
        is_playlist,
    ));
    (m, Classifier::new().expect("the line patterns compile"))
}

#[test]
fn a_plain_line_is_only_logged() {
    let (mut m, c) = setup(false);
    assert!(m.ingest_stdout(&c, "job", "nothing to see").is_none());
    let d = m.get_download("job").unwrap();
    assert_eq!(d.console_logs, vec!["nothing to see".to_string()]);
    assert_eq!(d.status, DownloadStatus::Queued);
}

#[test]
fn a_classified_line_is_logged_and_applied() {
    let (mut m, c) = setup(false);
    let update = m.ingest_stdout(&c, "job", "Searching: Song X").expect("observers are told");
    assert_eq!(update.notification, Notification::Progress);
    assert_eq!(update.download.status, DownloadStatus::Searching);
    assert_eq!(update.download.title, "Song X");
    assert_eq!(update.download.console_logs, vec!["Searching: Song X".to_string()]);
    let d = m.get_download("job").unwrap();
    assert_eq!(d.title, "Song X");
    assert_eq!(d.status, DownloadStatus::Searching);
}

#[test]
fn a_single_track_runs_to_completion() {
    let (mut m, c) = setup(false);
    m.ingest_stdout(&c, "job", "Searching: Song X");
    m.ingest_stdout(&c, "job", "Initialize: Song X.mp3 [0s/320kbps/8.1MB]");
    let under_way =
        m.ingest_stdout(&c, "job", "InProgress: Song X.mp3 [3s/320kbps/8.1MB]").unwrap();
    assert_eq!(under_way.download.progress, Some(Progress::half()));
    assert_eq!(under_way.download.status, DownloadStatus::InProgress);
    let done = m.ingest_stdout(&c, "job", "Succeeded: Song X.mp3 [9s/320kbps/8.1MB]").unwrap();
    assert_eq!(done.notification, Notification::Completed);
    assert_eq!(done.download.status, DownloadStatus::Completed);
    assert_eq!(done.download.progress, Some(Progress::complete()));
    assert_eq!(done.download.file_path, Some("Song X.mp3".to_string()));
    assert_eq!(done.download.console_logs.len(), 4);
    let exit = m.process_exited("job", Some(0));
    assert!(exit.success);
    assert!(exit.update.is_none());
}

#[test]
fn a_playlist_runs_to_its_summary() {
    let (mut m, c) = setup(true);
    m.ingest_stdout(&c, "job", "Loading Spotify playlist");
    m.ingest_stdout(&c, "job", "Playlist: Mix by Me");
    m.ingest_stdout(&c, "job", "Downloading 2 tracks:");
    m.ingest_stdout(&c, "job", "Succeeded: a.mp3 [9s/320kbps/8.1MB]");
    let missing = m.ingest_stdout(&c, "job", "Not found: b").unwrap();
    assert_eq!(missing.notification, Notification::Progress);
    assert_eq!(missing.download.progress, Some(Progress { numerator: 2, denominator: 2 }));
    assert_eq!(missing.download.status, DownloadStatus::Searching);
    let done = m.ingest_stdout(&c, "job", "Completed: 1 succeeded, 1 failed").unwrap();
    assert_eq!(done.notification, Notification::Completed);
    assert_eq!(done.download.title, "Mix by Me");
    assert_eq!(done.download.completed_tracks, Some(1));
    assert_eq!(done.download.failed_tracks, Some(1));
    assert_eq!(done.download.status, DownloadStatus::Completed);
}

#[test]
fn a_line_without_effect_tells_nobody() {
    let (mut m, c) = setup(false);
    assert!(m.ingest_stdout(&c, "job", "Not found: Song Y").is_none());
    assert_eq!(m.get_download("job").unwrap().console_logs.len(), 1);
}

#[test]
fn lines_for_an_unknown_job_change_nothing() {
    let (mut m, c) = setup(false);
    assert!(m.ingest_stdout(&c, "other", "Searching: Song X").is_none());
    m.ingest_stderr("other", "oops");
    let exit = m.process_exited("other", Some(1));
    assert!(!exit.success);
    assert!(exit.update.is_none());
    let d = m.get_download("job").unwrap();
    assert!(d.console_logs.is_empty());
    assert_eq!(d.status, DownloadStatus::Queued);
}

#[test]
fn error_lines_are_marked_and_never_classified() {
    let (mut m, c) = setup(false);
    m.ingest_stderr("job", "Succeeded: Song X.mp3 [9s/320kbps/8.1MB]");
    let d = m.get_download("job").unwrap();
    assert_eq!(
        d.console_logs,
        vec!["ERROR: Succeeded: Song X.mp3 [9s/320kbps/8.1MB]".to_string()]
    );
    assert_eq!(d.status, DownloadStatus::Queued);
    assert!(m.ingest_stdout(&c, "job", "ERROR: plain").is_none());
}

#[test]
fn many_lines_leave_the_last_hundred() {
    let (mut m, c) = setup(false);
    for i in 0..321 {
        m.ingest_stdout(&c, "job", &format!("line {}", i));
        m.ingest_stderr("job", "e");
        assert!(m.get_download("job").unwrap().console_logs.len() <= 100);
    }
    let d = m.get_download("job").unwrap();
    assert_eq!(d.console_logs.len(), 100);
    assert_eq!(d.console_logs[99], "ERROR: e");
    assert_eq!(d.console_logs[98], "line 320");
}

#[test]
fn an_abnormal_exit_fails_the_job() {
    let (mut m, c) = setup(false);
    m.ingest_stdout(&c, "job", "Searching: Song X");
    let exit = m.process_exited("job", Some(1));
    assert!(!exit.success);
    let update = exit.update.expect("observers are told");
    assert_eq!(update.notification, Notification::Failed);
    assert_eq!(update.download.status, DownloadStatus::Failed("Command failed".to_string()));
    assert_eq!(
        m.get_download("job").unwrap().status,
        DownloadStatus::Failed("Command failed".to_string())
    );
}

#[test]
fn an_exit_without_a_code_fails_the_job() {
    let (mut m, _) = setup(true);
    let exit = m.process_exited("job", None);
    assert!(!exit.success);
    assert_eq!(exit.update.map(|u| u.notification), Some(Notification::Failed));
}

#[test]
fn a_silent_success_completes_the_job() {
    let (mut m, c) = setup(false);
    m.ingest_stdout(&c, "job", "Initialize: Song X.mp3 [0s/320kbps/8.1MB]");
    let exit = m.process_exited("job", Some(0));
    assert!(exit.success);
    let update = exit.update.expect("observers are told");
    assert_eq!(update.notification, Notification::Completed);
    assert_eq!(update.download.status, DownloadStatus::Completed);
    assert_eq!(update.download.progress, Some(Progress::complete()));
}

#[test]
fn raw_output_has_its_channels() {
    assert_eq!(stdout_channel(), "sldl:stdout");
    assert_eq!(stderr_channel(), "sldl:stderr");
    assert_eq!(terminated_channel(), "sldl:terminated");
}
