use download_jobs::cleanup::{is_metadata_file, wants_cleanup};
use download_jobs::event::Notification;
use download_jobs::launch::{build_arguments, is_playlist_query, job_title};
use download_jobs::text::same_text;
use download_jobs::manager::DownloadManager;
use download_jobs::settings::{
    AppSettings, Credentials, OutputSettings, SoulseekSettings, SpotifySettings,
};
use download_jobs::status::DownloadStatus;

fn strings(items: &[&str]) -> Vec<String> {
    items.iter().map(|s| s.to_string()).collect()
}

#[test]
fn default_settings() {
    let s = AppSettings::default();
    assert_eq!(s.soulseek.username, "");
    assert_eq!(s.soulseek.downloads_path, "");
    assert!(s.soulseek.remove_special_chars);
    assert_eq!(s.soulseek.preferred_format, "flac");
    assert_eq!(s.spotify.client_id, "");
    assert_eq!(s.spotify.redirect_uri, "http://localhost:9871/callback");
    assert_eq!(s.output.m3u_path, "playlists/");
    assert_eq!(s.output.name_format, "{albumartist|artist}/{album} ({year})/{track}. {title}");
    assert_eq!(s.soulseek, SoulseekSettings::default());
    assert_eq!(s.spotify, SpotifySettings::default());
    assert_eq!(s.output, OutputSettings::default());
}

#[test]
fn empty_credentials_hold_nothing() {
    let c = Credentials::empty();
    assert_eq!(c.soulseek_password, None);
    assert_eq!(c.spotify_client_secret, None);
    assert_eq!(c.spotify_access_token, None);
    assert_eq!(c.spotify_refresh_token, None);
    assert_eq!(c.spotify_token_expires_at, None);
}

#[test]
fn playlist_queries() {
    assert!(is_playlist_query("spotify:playlist:abc"));
    assert!(is_playlist_query("https://open.spotify.com/playlist/abc"));
    assert!(is_playlist_query("spotify-likes"));
    assert!(!is_playlist_query("spotify-likes "));
    assert!(!is_playlist_query("Artist - Song"));
    assert!(!is_playlist_query("https://open.spotify.com/track/abc"));
    assert!(!is_playlist_query(""));
}

#[test]
fn texts_compare_by_their_characters() {
    assert!(same_text("abc", "abc"));
    assert!(!same_text("abc", "abd"));
    assert!(!same_text("abc", "ab"));
    assert!(same_text("", ""));
}

#[test]
fn titles() {
    assert_eq!(job_title(&Some("Given".to_string()), "spotify-likes"), "Given");
    assert_eq!(job_title(&None, "spotify-likes"), "Spotify Liked Songs");
    assert_eq!(job_title(&None, "spotify:playlist:abc"), "Spotify Playlist (Loading...)");
    assert_eq!(job_title(&None, "Artist - Song"), "Artist - Song");
}

#[test]
fn arguments_of_a_plain_query_with_default_settings() {
    let args =
        build_arguments("Artist - Song", &AppSettings::default(), &Credentials::empty(), &vec![]);
    assert_eq!(
        args,
        strings(&[
            "Artist - Song",
            "--pref-format",
            "flac",
            "--name-format",
            "{albumartist|artist}/{album} ({year})/{track}. {title}",
        ])
    );
}

#[test]
fn arguments_with_everything_set() {
    let mut settings = AppSettings::default();
    settings.soulseek.username = "me".to_string();
    settings.soulseek.downloads_path = "/music".to_string();
    settings.soulseek.preferred_format = "mp3".to_string();
    settings.spotify.client_id = "cid".to_string();
    settings.output.name_format = "{title}".to_string();
    let credentials = Credentials {
        soulseek_password: Some("pw".to_string()),
        spotify_client_secret: Some("sec".to_string()),
        spotify_access_token: Some("tok".to_string()),
        spotify_refresh_token: Some("ref".to_string()),
        spotify_token_expires_at: Some(5),
    };
    let options = vec![
        ("number".to_string(), "3".to_string()),
        ("fast-search".to_string(), "".to_string()),
    ];
    let args = build_arguments("spotify-likes", &settings, &credentials, &options);
    assert_eq!(
        args,
        strings(&[
            "spotify-likes",
            "--user",
            "me",
            "--pass",
            "pw",
            "--spotify-id",
            "cid",
            "--spotify-secret",
            "sec",
            "--spotify-token",
            "tok",
            "--spotify-refresh",
            "ref",
            "--path",
            "/music",
            "--pref-format",
            "mp3",
            "--name-format",
            "{title}",
            "--number",
            "3",
            "--fast-search",
            "",
        ])
    );
}

#[test]
fn streaming_credentials_are_left_out_of_other_queries() {
    let mut settings = AppSettings::default();
    settings.spotify.client_id = "cid".to_string();
    settings.soulseek.preferred_format = String::new();
    settings.output.name_format = String::new();
    let credentials = Credentials {
        soulseek_password: Some(String::new()),
        spotify_client_secret: Some("sec".to_string()),
        spotify_access_token: None,
        spotify_refresh_token: None,
        spotify_token_expires_at: None,
    };
    assert_eq!(
        build_arguments("Artist - Song", &settings, &credentials, &vec![]),
        strings(&["Artist - Song"])
    );
    assert_eq!(
        build_arguments("a spotify thing", &settings, &credentials, &vec![]),
        strings(&["a spotify thing", "--spotify-id", "cid", "--spotify-secret", "sec"])
    );
}

#[test]
fn starting_a_job_queues_its_record() {
    let mut m = DownloadManager::new();
    let started = m.start_download(
        "spotify-likes",
        &None,
        &Some("Artist".to_string()),
        &Some("Album".to_string()),
    );
    assert_eq!(started.notification, Notification::Started);
    assert_eq!(started.download.title, "Spotify Liked Songs");
    assert_eq!(started.download.query, "spotify-likes");
    assert_eq!(started.download.artist, Some("Artist".to_string()));
    assert_eq!(started.download.album, Some("Album".to_string()));
    assert!(started.download.is_playlist);
    assert_eq!(started.download.status, DownloadStatus::Queued);
    assert_eq!(started.download.id.len(), 36);
    let kept = m.get_download(&started.download.id).expect("the job is in the registry");
    assert_eq!(kept.title, "Spotify Liked Songs");
    assert_eq!(kept.started_at, started.download.started_at);
    let other = m.start_download("Artist - Song", &Some("T".to_string()), &None, &None);
    assert_eq!(other.download.title, "T");
    assert!(!other.download.is_playlist);
    assert_ne!(other.download.id, started.download.id);
    assert_eq!(m.get_all_downloads().len(), 2);
}

#[test]
fn the_cleanup_removes_index_files_only() {
    assert!(is_metadata_file("_index.sldl"));
    assert!(!is_metadata_file("index.sldl"));
    assert!(!is_metadata_file("_index.sldl.bak"));
    assert!(!is_metadata_file("song.mp3"));
    assert!(wants_cleanup("/music"));
    assert!(!wants_cleanup(""));
}
