use download_jobs::download::{Download, LOG_CAPACITY};
use download_jobs::event::{JobEvent, Notification, Transfer};
use download_jobs::progress::Progress;
use download_jobs::status::DownloadStatus;

fn single(title: &str) -> Download {
    Download::with_identity(
        "job-1".to_string(),
        1_700_000_000,
        title.to_string(),
        Some("Artist".to_string()),
        None,
        "Artist - Song X".to_string(),
        false,
    )
}

fn playlist() -> Download {
    Download::with_identity(
        "job-2".to_string(),
        1_700_000_000,
        "Spotify Playlist (Loading...)".to_string(),
        None,
        None,
        "https://open.spotify.com/playlist/abc".to_string(),
        true,
    )
}

fn transfer_of(file: &str) -> Transfer {
    Transfer::new(file.to_string(), "1".to_string(), "320".to_string(), "8.1".to_string())
}

fn share(progress: Option<Progress>) -> f64 {
    let p = progress.expect("progress is known");
    p.numerator as f64 / p.denominator as f64
}

#[test]
fn a_new_record_is_queued_and_empty() {
    let d = single("Song X");
    assert_eq!(d.id, "job-1");
    assert_eq!(d.title, "Song X");
    assert_eq!(d.artist, Some("Artist".to_string()));
    assert_eq!(d.album, None);
    assert_eq!(d.query, "Artist - Song X");
    assert_eq!(d.started_at, 1_700_000_000);
    assert_eq!(d.status, DownloadStatus::Queued);
    assert_eq!(d.progress, None);
    assert_eq!(d.file_path, None);
    assert!(!d.is_playlist);
    assert_eq!(d.total_tracks, None);
    assert_eq!(d.completed_tracks, None);
    assert_eq!(d.failed_tracks, None);
    assert!(d.console_logs.is_empty());
}

#[test]
fn a_new_record_gets_a_hyphenated_identifier() {
    let d = Download::new("t".to_string(), None, None, "q".to_string(), false);
    assert_eq!(d.id.len(), 36);
    for (i, c) in d.id.chars().enumerate() {
        if i == 8 || i == 13 || i == 18 || i == 23 {
            assert_eq!(c, '-');
        } else {
            assert!(c.is_ascii_digit() || ('a'..='f').contains(&c));
        }
    }
    let other = Download::new("t".to_string(), None, None, "q".to_string(), false);
    assert_ne!(d.id, other.id);
    assert!(d.started_at > 1_600_000_000);
    assert_eq!(d.status, DownloadStatus::Queued);
    assert_eq!(d.title, "t");
    assert_eq!(d.query, "q");
}

#[test]
fn setters_set_their_field() {
    let mut d = single("Song X");
    d.update_status(DownloadStatus::Failed("why".to_string()));
    assert_eq!(d.status, DownloadStatus::Failed("why".to_string()));
    d.update_progress(Progress::half());
    assert_eq!(d.progress, Some(Progress { numerator: 1, denominator: 2 }));
    d.set_file_path("a/b.mp3".to_string());
    assert_eq!(d.file_path, Some("a/b.mp3".to_string()));
    assert_eq!(d.title, "Song X");
}

#[test]
fn console_lines_are_kept_in_order() {
    let mut d = single("Song X");
    d.add_console_log("one".to_string());
    d.add_console_log("two".to_string());
    assert_eq!(d.console_logs, vec!["one".to_string(), "two".to_string()]);
}

#[test]
fn console_lines_never_exceed_the_capacity() {
    let mut d = single("Song X");
    for i in 0..250 {
        d.add_console_log(format!("line {}", i));
        assert!(d.console_logs.len() <= LOG_CAPACITY);
    }
    assert_eq!(LOG_CAPACITY, 100);
    assert_eq!(d.console_logs.len(), 100);
    assert_eq!(d.console_logs[0], "line 150");
    assert_eq!(d.console_logs[99], "line 249");
}

#[test]
fn the_hundredth_line_fits_and_the_next_evicts_the_oldest() {
    let mut d = single("Song X");
    for i in 0..100 {
        d.add_console_log(format!("line {}", i));
    }
    assert_eq!(d.console_logs.len(), 100);
    assert_eq!(d.console_logs[0], "line 0");
    d.add_console_log("line 100".to_string());
    assert_eq!(d.console_logs.len(), 100);
    assert_eq!(d.console_logs[0], "line 1");
    assert_eq!(d.console_logs[99], "line 100");
}

#[test]
fn playlist_info_starts_the_counters() {
    let mut d = playlist();
    d.set_playlist_info(7);
    assert_eq!(d.total_tracks, Some(7));
    assert_eq!(d.completed_tracks, Some(0));
    assert_eq!(d.failed_tracks, Some(0));
    assert_eq!(d.progress, None);
}

#[test]
fn counters_do_nothing_while_unknown() {
    let mut d = playlist();
    d.increment_completed_tracks();
    d.increment_failed_tracks();
    assert_eq!(d.completed_tracks, None);
    assert_eq!(d.failed_tracks, None);
    assert_eq!(d.progress, None);
}

#[test]
fn playlist_progress_is_settled_over_total() {
    let mut d = playlist();
    d.set_playlist_info(4);
    d.increment_completed_tracks();
    assert_eq!(d.progress, Some(Progress { numerator: 1, denominator: 4 }));
    d.increment_failed_tracks();
    assert_eq!(d.progress, Some(Progress { numerator: 2, denominator: 4 }));
    assert_eq!(share(d.progress), 0.5);
    d.increment_completed_tracks();
    assert_eq!(d.completed_tracks, Some(2));
    assert_eq!(d.failed_tracks, Some(1));
    assert_eq!(share(d.progress), 0.75);
}

#[test]
fn an_empty_playlist_has_no_progress() {
    let mut d = playlist();
    d.set_playlist_info(0);
    d.increment_completed_tracks();
    assert_eq!(d.completed_tracks, Some(1));
    assert_eq!(d.progress, None);
    d.update_playlist_progress();
    assert_eq!(d.progress, None);
}

#[test]
fn progress_values() {
    assert_eq!(Progress::zero(), Progress { numerator: 0, denominator: 1 });
    assert_eq!(Progress::half(), Progress { numerator: 1, denominator: 2 });
    assert_eq!(Progress::complete(), Progress { numerator: 1, denominator: 1 });
    assert_eq!(Progress::of_tally(2, 1, 3), Progress { numerator: 3, denominator: 3 });
    assert_eq!(
        Progress::of_tally(usize::MAX, usize::MAX, 5),
        Progress { numerator: 2 * (usize::MAX as u128), denominator: 5 }
    );
    assert!(Progress::of_tally(2, 1, 3).is_complete());
    assert!(Progress::of_tally(2, 1, 3).is_within_unit());
    assert!(!Progress::of_tally(2, 2, 3).is_within_unit());
    assert!(!Progress::half().is_complete());
    assert!(!Progress { numerator: 0, denominator: 0 }.is_within_unit());
    assert!(!Progress { numerator: 0, denominator: 0 }.is_complete());
}

#[test]
fn status_knows_its_terminal_states() {
    assert!(!DownloadStatus::Queued.is_terminal());
    assert!(!DownloadStatus::Searching.is_terminal());
    assert!(!DownloadStatus::InProgress.is_terminal());
    assert!(DownloadStatus::Completed.is_terminal());
    assert!(DownloadStatus::Failed("x".to_string()).is_terminal());
    assert!(DownloadStatus::Canceled.is_terminal());
    assert!(DownloadStatus::Completed.is_completed());
    assert!(!DownloadStatus::Canceled.is_completed());
    assert_eq!(
        DownloadStatus::Failed("x".to_string()).clone(),
        DownloadStatus::Failed("x".to_string())
    );
}

#[test]
fn a_clone_is_equal_in_every_field() {
    let mut d = playlist();
    d.set_playlist_info(3);
    d.increment_completed_tracks();
    d.add_console_log("a".to_string());
    d.set_file_path("f".to_string());
    let c = d.clone();
    assert_eq!(c.id, d.id);
    assert_eq!(c.title, d.title);
    assert_eq!(c.artist, d.artist);
    assert_eq!(c.album, d.album);
    assert_eq!(c.query, d.query);
    assert_eq!(c.started_at, d.started_at);
    assert_eq!(c.status, d.status);
    assert_eq!(c.progress, d.progress);
    assert_eq!(c.file_path, d.file_path);
    assert_eq!(c.is_playlist, d.is_playlist);
    assert_eq!(c.total_tracks, d.total_tracks);
    assert_eq!(c.completed_tracks, d.completed_tracks);
    assert_eq!(c.failed_tracks, d.failed_tracks);
    assert_eq!(c.console_logs, d.console_logs);
}

#[test]
fn single_track_runs_from_search_to_completion() {
    let mut d = single("Artist - Song X");
    assert_eq!(
        d.apply(&JobEvent::Searching("Song X".to_string())),
        Some(Notification::Progress)
    );
    assert_eq!(d.status, DownloadStatus::Searching);
    assert_eq!(d.title, "Song X");
    assert_eq!(d.apply(&JobEvent::Initialize(transfer_of("Song X"))), Some(Notification::Progress));
    assert_eq!(d.status, DownloadStatus::InProgress);
    assert_eq!(share(d.progress), 0.0);
    assert_eq!(
        d.apply(&JobEvent::TrackSucceeded(transfer_of("Song X"))),
        Some(Notification::Completed)
    );
    assert_eq!(d.status, DownloadStatus::Completed);
    assert_eq!(share(d.progress), 1.0);
    assert_eq!(d.file_path, Some("Song X".to_string()));
}

#[test]
fn playlist_of_three_completes_with_its_summary() {
    let mut d = playlist();
    assert_eq!(d.apply(&JobEvent::PlaylistDiscovered(3)), Some(Notification::Progress));
    assert_eq!(d.apply(&JobEvent::Initialize(transfer_of("a"))), Some(Notification::Progress));
    assert_eq!(d.status, DownloadStatus::InProgress);
    assert_eq!(d.progress, None);
    assert_eq!(d.apply(&JobEvent::TrackSucceeded(transfer_of("a"))), Some(Notification::Progress));
    assert_eq!(d.apply(&JobEvent::TrackSucceeded(transfer_of("b"))), Some(Notification::Progress));
    assert_eq!(
        d.apply(&JobEvent::TrackNotFound("c".to_string())),
        Some(Notification::Progress)
    );
    assert_eq!(d.completed_tracks, Some(2));
    assert_eq!(d.failed_tracks, Some(1));
    assert_eq!(d.total_tracks, Some(3));
    assert_eq!(share(d.progress), 1.0);
    assert_eq!(d.status, DownloadStatus::InProgress);
    assert_eq!(d.apply(&JobEvent::PlaylistCompleted(2, 1)), Some(Notification::Completed));
    assert_eq!(d.status, DownloadStatus::Completed);
    assert_eq!(d.completed_tracks, Some(2));
    assert_eq!(d.failed_tracks, Some(1));
    assert_eq!(share(d.progress), 1.0);
}

#[test]
fn playlist_of_one_completes_without_a_summary() {
    let mut d = playlist();
    d.apply(&JobEvent::PlaylistDiscovered(1));
    assert_eq!(
        d.apply(&JobEvent::TrackSucceeded(transfer_of("a"))),
        Some(Notification::Completed)
    );
    assert_eq!(d.status, DownloadStatus::Completed);
    assert_eq!(d.progress, Some(Progress::complete()));
    assert_eq!(d.completed_tracks, Some(1));
    assert_eq!(d.file_path, None);
}

#[test]
fn exit_with_a_failure_code_fails_the_job() {
    for status in [DownloadStatus::Queued, DownloadStatus::Searching, DownloadStatus::InProgress] {
        let mut d = single("Song X");
        d.update_status(status);
        assert_eq!(d.apply(&JobEvent::ProcessExited(Some(1))), Some(Notification::Failed));
        assert_eq!(d.status, DownloadStatus::Failed("Command failed".to_string()));
    }
    let mut d = playlist();
    assert_eq!(d.apply(&JobEvent::ProcessExited(None)), Some(Notification::Failed));
    assert_eq!(d.status, DownloadStatus::Failed("Command failed".to_string()));
    assert_eq!(d.progress, None);
}

#[test]
fn exit_with_code_zero_completes_a_job_under_way() {
    let mut d = single("Song X");
    d.apply(&JobEvent::Initialize(transfer_of("Song X")));
    assert_eq!(d.status, DownloadStatus::InProgress);
    assert_eq!(d.apply(&JobEvent::ProcessExited(Some(0))), Some(Notification::Completed));
    assert_eq!(d.status, DownloadStatus::Completed);
    assert_eq!(share(d.progress), 1.0);
}

#[test]
fn exit_spares_a_job_that_has_ended() {
    let mut d = single("Song X");
    d.apply(&JobEvent::TrackSucceeded(transfer_of("f")));
    assert_eq!(d.apply(&JobEvent::ProcessExited(Some(1))), None);
    assert_eq!(d.status, DownloadStatus::Completed);
    let mut c = single("Song X");
    c.apply(&JobEvent::CancelRequested);
    assert_eq!(c.apply(&JobEvent::ProcessExited(Some(0))), None);
    assert_eq!(c.status, DownloadStatus::Canceled);
    assert_eq!(c.progress, None);
}

#[test]
fn cancel_is_idempotent_on_a_record() {
    let mut d = single("Song X");
    assert_eq!(d.apply(&JobEvent::CancelRequested), Some(Notification::Canceled));
    assert_eq!(d.status, DownloadStatus::Canceled);
    assert_eq!(d.apply(&JobEvent::CancelRequested), Some(Notification::Canceled));
    assert_eq!(d.status, DownloadStatus::Canceled);
}

#[test]
fn lines_that_move_a_job_forward_spare_one_that_has_ended() {
    let mut d = single("Song X");
    d.apply(&JobEvent::CancelRequested);
    assert_eq!(d.apply(&JobEvent::Searching("Other".to_string())), None);
    assert_eq!(d.apply(&JobEvent::LoadingPlaylist), None);
    assert_eq!(d.apply(&JobEvent::Initialize(transfer_of("f"))), None);
    assert_eq!(d.apply(&JobEvent::Progress(transfer_of("f"))), None);
    assert_eq!(d.status, DownloadStatus::Canceled);
    assert_eq!(d.title, "Song X");
    assert_eq!(d.progress, None);
    assert_eq!(d.file_path, None);
}

#[test]
fn a_reported_success_completes_a_canceled_job() {
    let mut d = single("Song X");
    d.apply(&JobEvent::CancelRequested);
    assert_eq!(d.apply(&JobEvent::TrackSucceeded(transfer_of("f"))), Some(Notification::Completed));
    assert_eq!(d.status, DownloadStatus::Completed);
    let mut p = playlist();
    p.apply(&JobEvent::PlaylistDiscovered(2));
    p.apply(&JobEvent::CancelRequested);
    assert_eq!(p.apply(&JobEvent::TrackSucceeded(transfer_of("f"))), Some(Notification::Progress));
    assert_eq!(p.status, DownloadStatus::Canceled);
    assert_eq!(p.apply(&JobEvent::PlaylistCompleted(1, 1)), Some(Notification::Completed));
    assert_eq!(p.status, DownloadStatus::Completed);
}

#[test]
fn playlist_events_spare_single_tracks() {
    let mut d = single("Song X");
    assert_eq!(d.apply(&JobEvent::PlaylistDiscovered(3)), None);
    assert_eq!(d.total_tracks, None);
    assert_eq!(d.apply(&JobEvent::PlaylistNamed("n".to_string(), "c".to_string())), None);
    assert_eq!(d.title, "Song X");
    assert_eq!(d.apply(&JobEvent::TrackNotFound("x".to_string())), None);
    assert_eq!(d.apply(&JobEvent::PlaylistCompleted(1, 0)), None);
    assert_eq!(d.status, DownloadStatus::Queued);
    assert_eq!(d.completed_tracks, None);
}

#[test]
fn playlist_keeps_its_title_and_progress_on_track_lines() {
    let mut d = playlist();
    d.apply(&JobEvent::PlaylistDiscovered(2));
    assert_eq!(
        d.apply(&JobEvent::PlaylistNamed("Road Trip".to_string(), "Alex".to_string())),
        Some(Notification::Progress)
    );
    assert_eq!(d.title, "Road Trip by Alex");
    assert_eq!(d.apply(&JobEvent::LoadingPlaylist), Some(Notification::Progress));
    assert_eq!(d.status, DownloadStatus::Searching);
    d.apply(&JobEvent::Searching("Song".to_string()));
    assert_eq!(d.title, "Road Trip by Alex");
    d.apply(&JobEvent::TrackSucceeded(transfer_of("a")));
    d.apply(&JobEvent::Initialize(transfer_of("b")));
    assert_eq!(d.progress, Some(Progress { numerator: 1, denominator: 2 }));
    d.apply(&JobEvent::Progress(transfer_of("b.mp3")));
    assert_eq!(d.progress, Some(Progress { numerator: 1, denominator: 2 }));
    assert_eq!(d.file_path, Some("b.mp3".to_string()));
}

#[test]
fn a_single_track_under_way_is_half_done() {
    let mut d = single("Song X");
    assert_eq!(d.apply(&JobEvent::Progress(transfer_of("x.mp3"))), Some(Notification::Progress));
    assert_eq!(d.progress, Some(Progress::half()));
    assert_eq!(share(d.progress), 0.5);
    assert_eq!(d.file_path, Some("x.mp3".to_string()));
    assert_eq!(d.status, DownloadStatus::Queued);
}

#[test]
fn a_summary_sets_the_counters_without_a_total() {
    let mut d = playlist();
    assert_eq!(d.apply(&JobEvent::PlaylistCompleted(5, 2)), Some(Notification::Completed));
    assert_eq!(d.total_tracks, None);
    assert_eq!(d.completed_tracks, Some(5));
    assert_eq!(d.failed_tracks, Some(2));
    assert_eq!(d.progress, Some(Progress::complete()));
}

#[test]
fn counting_past_the_total_follows_the_formula() {
    let mut d = playlist();
    d.apply(&JobEvent::PlaylistDiscovered(2));
    d.apply(&JobEvent::TrackSucceeded(transfer_of("a")));
    d.apply(&JobEvent::TrackSucceeded(transfer_of("b")));
    d.apply(&JobEvent::TrackSucceeded(transfer_of("c")));
    assert_eq!(d.completed_tracks, Some(3));
    assert_eq!(d.progress, Some(Progress { numerator: 3, denominator: 2 }));
}

#[test]
fn room_for_counting() {
    let mut d = playlist();
    assert!(d.has_room());
    d.apply(&JobEvent::PlaylistCompleted(usize::MAX, 0));
    assert!(!d.has_room());
    let mut s = single("Song X");
    s.completed_tracks = Some(usize::MAX);
    assert!(s.has_room());
    assert!(!d.is_single_track_settled());
}

#[test]
fn notifications_have_their_channels() {
    assert_eq!(Notification::Started.channel(), "download:started");
    assert_eq!(Notification::Progress.channel(), "download:progress");
    assert_eq!(Notification::Completed.channel(), "download:completed");
    assert_eq!(Notification::Failed.channel(), "download:failed");
    assert_eq!(Notification::Canceled.channel(), "download:canceled");
}
