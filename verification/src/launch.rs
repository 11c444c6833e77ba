//! What is decided before the external process is started: whether the
//! query names a playlist, what the job is called, and which arguments the
//! process is given.

use vstd::prelude::*;
use vstd::string::StringExecFns;
use crate::download::{is_identifier, Download, DownloadView};
use crate::event::Notification;
use crate::manager::DownloadManager;
use crate::pump::JobUpdate;
use crate::settings::{AppSettings, Credentials};
use crate::text::{clone_text, contains_text, occurs_in, same_text};

verus! {

/// Whether a query names a playlist of the streaming service.
pub open spec fn names_playlist(query: Seq<char>) -> bool {
    occurs_in("spotify:"@, query) || occurs_in("spotify.com/playlist"@, query) || query
        == "spotify-likes"@
}

/// Whether a query names a playlist of the streaming service.
pub fn is_playlist_query(query: &str) -> (r: bool)
    ensures
        r == names_playlist(query@),
{
    contains_text(query, "spotify:") || contains_text(query, "spotify.com/playlist") || same_text(
        query,
        "spotify-likes",
    )
}

/// The title of a job: the one that was given, else one made from the
/// query.
pub open spec fn title_for(title: Option<Seq<char>>, query: Seq<char>) -> Seq<char> {
    match title {
        Some(given) => given,
        None => if !names_playlist(query) {
            query
        } else if query == "spotify-likes"@ {
            "Spotify Liked Songs"@
        } else {
            "Spotify Playlist (Loading...)"@
        },
    }
}

/// The title of a job: the one that was given, else one made from the
/// query.
pub fn job_title(title: &Option<String>, query: &str) -> (r: String)
    ensures
        r@ == title_for(title.deep_view(), query@),
{
    match title {
        Some(given) => given.clone(),
        None => {
            if !is_playlist_query(query) {
                query.to_owned()
            } else if same_text(query, "spotify-likes") {
                "Spotify Liked Songs".to_owned()
            } else {
                "Spotify Playlist (Loading...)".to_owned()
            }
        },
    }
}

impl DownloadManager {
    /// Queues a job for a query: makes its record, under a new identifier,
    /// adds it to the registry, and returns it for observers to be told
    /// that the job has started.
    pub fn start_download(
        &mut self,
        query: &str,
        title: &Option<String>,
        artist: &Option<String>,
        album: &Option<String>,
    ) -> (r: JobUpdate)
        requires
            old(self).wf(),
        ensures
            final(self).wf(),
            r.notification == Notification::Started,
            is_identifier(r.download@.id),
            r.download@ == DownloadView::queued(
                r.download@.id,
                r.download@.started_at,
                title_for(title.deep_view(), query@),
                artist.deep_view(),
                album.deep_view(),
                query@,
                names_playlist(query@),
            ),
            final(self)@ == old(self)@.insert(r.download@.id, r.download@),
    {
        let download = Download::new(
            job_title(title, query),
            clone_text(artist),
            clone_text(album),
            query.to_owned(),
            is_playlist_query(query),
        );
        let copy = download.clone();
        self.add_download(download);
        JobUpdate { notification: Notification::Started, download: copy }
    }
}

/// A flag and its value, left out where the value is empty.
pub open spec fn flag(name: Seq<char>, value: Seq<char>) -> Seq<Seq<char>> {
    if value.len() > 0 {
        seq![name, value]
    } else {
        Seq::empty()
    }
}

/// A flag and its value, left out where there is no value or it is empty.
pub open spec fn secret_flag(name: Seq<char>, value: Option<Seq<char>>) -> Seq<Seq<char>> {
    match value {
        Some(v) => flag(name, v),
        None => Seq::empty(),
    }
}

/// The flags of the options that the caller adds, each under its own name.
pub open spec fn option_flags(options: Seq<(Seq<char>, Seq<char>)>) -> Seq<Seq<char>>
    decreases options.len(),
{
    if options.len() == 0 {
        Seq::empty()
    } else {
        option_flags(options.drop_last()) + seq!["--"@ + options.last().0, options.last().1]
    }
}

/// The flags that identify the user to the streaming service. They are
/// given only where the query has to do with that service.
pub open spec fn streaming_flags(
    query: Seq<char>,
    settings: AppSettings,
    credentials: Credentials,
) -> Seq<Seq<char>> {
    if occurs_in("spotify"@, query) {
        flag("--spotify-id"@, settings.spotify.client_id@) + secret_flag(
            "--spotify-secret"@,
            credentials.spotify_client_secret.deep_view(),
        ) + secret_flag("--spotify-token"@, credentials.spotify_access_token.deep_view())
            + secret_flag("--spotify-refresh"@, credentials.spotify_refresh_token.deep_view())
    } else {
        Seq::empty()
    }
}

/// The arguments of the external process: the query, then the flags of the
/// settings and credentials that are set, then the caller's options.
pub open spec fn arguments(
    query: Seq<char>,
    settings: AppSettings,
    credentials: Credentials,
    options: Seq<(Seq<char>, Seq<char>)>,
) -> Seq<Seq<char>> {
    seq![query] + flag("--user"@, settings.soulseek.username@) + secret_flag(
        "--pass"@,
        credentials.soulseek_password.deep_view(),
    ) + streaming_flags(query, settings, credentials) + flag(
        "--path"@,
        settings.soulseek.downloads_path@,
    ) + flag("--pref-format"@, settings.soulseek.preferred_format@) + flag(
        "--name-format"@,
        settings.output.name_format@,
    ) + option_flags(options)
}

/// The caller's options as pairs of texts.
pub open spec fn options_view(options: Seq<(String, String)>) -> Seq<(Seq<char>, Seq<char>)> {
    Seq::new(options.len(), |i: int| (options[i].0@, options[i].1@))
}

/// Appends a flag and its value, unless the value is empty.
fn push_flag(args: &mut Vec<String>, name: &str, value: &str)
    ensures
        final(args).deep_view() == old(args).deep_view() + flag(name@, value@),
{
    let ghost before = args.deep_view();
    if !value.is_empty() {
        args.push(name.to_owned());
        args.push(value.to_owned());
        assert(args.deep_view() =~= before + seq![name@, value@]);
    } else {
        assert(args.deep_view() =~= before + Seq::<Seq<char>>::empty());
    }
}

/// Appends a flag and its value, unless there is no value or it is empty.
fn push_secret_flag(args: &mut Vec<String>, name: &str, value: &Option<String>)
    ensures
        final(args).deep_view() == old(args).deep_view() + secret_flag(name@, value.deep_view()),
{
    match value {
        Some(v) => push_flag(args, name, v.as_str()),
        None => {
            assert(args.deep_view() =~= args.deep_view() + Seq::<Seq<char>>::empty());
        },
    }
}

/// Builds the arguments of the external process.
pub fn build_arguments(
    query: &str,
    settings: &AppSettings,
    credentials: &Credentials,
    options: &Vec<(String, String)>,
) -> (r: Vec<String>)
    ensures
        r.deep_view() == arguments(query@, *settings, *credentials, options_view(options@)),
{
    let mut args: Vec<String> = Vec::new();
    args.push(query.to_owned());
    assert(args.deep_view() =~= seq![query@]);
    push_flag(&mut args, "--user", settings.soulseek.username.as_str());
    push_secret_flag(&mut args, "--pass", &credentials.soulseek_password);
    if contains_text(query, "spotify") {
        push_flag(&mut args, "--spotify-id", settings.spotify.client_id.as_str());
        push_secret_flag(&mut args, "--spotify-secret", &credentials.spotify_client_secret);
        push_secret_flag(&mut args, "--spotify-token", &credentials.spotify_access_token);
        push_secret_flag(&mut args, "--spotify-refresh", &credentials.spotify_refresh_token);
    } else {
        assert(args.deep_view() =~= args.deep_view() + Seq::<Seq<char>>::empty());
    }
    push_flag(&mut args, "--path", settings.soulseek.downloads_path.as_str());
    push_flag(&mut args, "--pref-format", settings.soulseek.preferred_format.as_str());
    push_flag(&mut args, "--name-format", settings.output.name_format.as_str());
    let ghost fixed = args.deep_view();
    let mut i: usize = 0;
    while i < options.len()
        invariant
            i <= options.len(),
            args.deep_view() == fixed + option_flags(options_view(options@).take(i as int)),
        decreases options.len() - i,
    {
        let ghost before = args.deep_view();
        let mut name = "--".to_owned();
        name.append(options[i].0.as_str());
        args.push(name);
        args.push(options[i].1.clone());
        proof {
            let all = options_view(options@);
            let taken = all.take(i + 1);
            assert(taken.drop_last() =~= all.take(i as int));
            assert(taken.last() == all[i as int]);
            assert(args.deep_view() =~= before + seq!["--"@ + all[i as int].0, all[i as int].1]);
        }
        i = i + 1;
    }
    proof {
        assert(options_view(options@).take(options.len() as int) =~= options_view(options@));
    }
    args
}

} // verus!
