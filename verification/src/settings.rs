//! User configuration and stored credentials.

use vstd::prelude::*;
use crate::text::clone_text;

verus! {

/// How the file-sharing network is reached and where downloads go.
#[derive(Debug, PartialEq, Eq)]
pub struct SoulseekSettings {
    pub username: String,
    pub downloads_path: String,
    pub remove_special_chars: bool,
    pub preferred_format: String,
}

/// The application's registration with the streaming service.
#[derive(Debug, PartialEq, Eq)]
pub struct SpotifySettings {
    pub client_id: String,
    pub redirect_uri: String,
}

/// Where playlists are written and how downloaded files are named.
#[derive(Debug, PartialEq, Eq)]
pub struct OutputSettings {
    pub m3u_path: String,
    pub name_format: String,
}

/// All settings of the application.
#[derive(Debug, PartialEq, Eq)]
pub struct AppSettings {
    pub soulseek: SoulseekSettings,
    pub spotify: SpotifySettings,
    pub output: OutputSettings,
}

/// Secrets that are stored encrypted.
#[derive(Debug, PartialEq, Eq)]
pub struct Credentials {
    pub soulseek_password: Option<String>,
    pub spotify_client_secret: Option<String>,
    pub spotify_access_token: Option<String>,
    pub spotify_refresh_token: Option<String>,
    pub spotify_token_expires_at: Option<u64>,
}

impl Clone for SoulseekSettings {
    fn clone(&self) -> (r: Self)
        ensures
            r.username@ == self.username@,
            r.downloads_path@ == self.downloads_path@,
            r.remove_special_chars == self.remove_special_chars,
            r.preferred_format@ == self.preferred_format@,
    {
        SoulseekSettings {
            username: self.username.clone(),
            downloads_path: self.downloads_path.clone(),
            remove_special_chars: self.remove_special_chars,
            preferred_format: self.preferred_format.clone(),
        }
    }
}

impl Clone for SpotifySettings {
    fn clone(&self) -> (r: Self)
        ensures
            r.client_id@ == self.client_id@,
            r.redirect_uri@ == self.redirect_uri@,
    {
        SpotifySettings {
            client_id: self.client_id.clone(),
            redirect_uri: self.redirect_uri.clone(),
        }
    }
}

impl Clone for OutputSettings {
    fn clone(&self) -> (r: Self)
        ensures
            r.m3u_path@ == self.m3u_path@,
            r.name_format@ == self.name_format@,
    {
        OutputSettings { m3u_path: self.m3u_path.clone(), name_format: self.name_format.clone() }
    }
}

impl Clone for AppSettings {
    fn clone(&self) -> (r: Self)
        ensures
            r.soulseek.username@ == self.soulseek.username@,
            r.soulseek.downloads_path@ == self.soulseek.downloads_path@,
            r.soulseek.remove_special_chars == self.soulseek.remove_special_chars,
            r.soulseek.preferred_format@ == self.soulseek.preferred_format@,
            r.spotify.client_id@ == self.spotify.client_id@,
            r.spotify.redirect_uri@ == self.spotify.redirect_uri@,
            r.output.m3u_path@ == self.output.m3u_path@,
            r.output.name_format@ == self.output.name_format@,
    {
        AppSettings {
            soulseek: self.soulseek.clone(),
            spotify: self.spotify.clone(),
            output: self.output.clone(),
        }
    }
}

impl Clone for Credentials {
    fn clone(&self) -> (r: Self)
        ensures
            r.soulseek_password.deep_view() == self.soulseek_password.deep_view(),
            r.spotify_client_secret.deep_view() == self.spotify_client_secret.deep_view(),
            r.spotify_access_token.deep_view() == self.spotify_access_token.deep_view(),
            r.spotify_refresh_token.deep_view() == self.spotify_refresh_token.deep_view(),
            r.spotify_token_expires_at == self.spotify_token_expires_at,
    {
        Credentials {
            soulseek_password: clone_text(&self.soulseek_password),
            spotify_client_secret: clone_text(&self.spotify_client_secret),
            spotify_access_token: clone_text(&self.spotify_access_token),
            spotify_refresh_token: clone_text(&self.spotify_refresh_token),
            spotify_token_expires_at: self.spotify_token_expires_at,
        }
    }
}

impl Default for SoulseekSettings {
    fn default() -> (r: Self)
        ensures
            r.username@ == Seq::<char>::empty(),
            r.downloads_path@ == Seq::<char>::empty(),
            r.remove_special_chars,
            r.preferred_format@ == "flac"@,
    {
        SoulseekSettings {
            username: String::new(),
            downloads_path: String::new(),
            remove_special_chars: true,
            preferred_format: "flac".to_owned(),
        }
    }
}

impl Default for SpotifySettings {
    fn default() -> (r: Self)
        ensures
            r.client_id@ == Seq::<char>::empty(),
            r.redirect_uri@ == "http://localhost:9871/callback"@,
    {
        SpotifySettings {
            client_id: String::new(),
            redirect_uri: "http://localhost:9871/callback".to_owned(),
        }
    }
}

impl Default for OutputSettings {
    fn default() -> (r: Self)
        ensures
            r.m3u_path@ == "playlists/"@,
            r.name_format@ == "{albumartist|artist}/{album} ({year})/{track}. {title}"@,
    {
        OutputSettings {
            m3u_path: "playlists/".to_owned(),
            name_format: "{albumartist|artist}/{album} ({year})/{track}. {title}".to_owned(),
        }
    }
}

impl Default for AppSettings {
    fn default() -> (r: Self)
        ensures
            r.soulseek.username@ == Seq::<char>::empty(),
            r.soulseek.downloads_path@ == Seq::<char>::empty(),
            r.soulseek.remove_special_chars,
            r.soulseek.preferred_format@ == "flac"@,
            r.spotify.client_id@ == Seq::<char>::empty(),
            r.spotify.redirect_uri@ == "http://localhost:9871/callback"@,
            r.output.m3u_path@ == "playlists/"@,
            r.output.name_format@ == "{albumartist|artist}/{album} ({year})/{track}. {title}"@,
    {
        AppSettings {
            soulseek: SoulseekSettings::default(),
            spotify: SpotifySettings::default(),
            output: OutputSettings::default(),
        }
    }
}

impl Credentials {
    /// Credentials with nothing stored.
    pub fn empty() -> (r: Self)
        ensures
            r.soulseek_password is None,
            r.spotify_client_secret is None,
            r.spotify_access_token is None,
            r.spotify_refresh_token is None,
            r.spotify_token_expires_at is None,
    {
        Credentials {
            soulseek_password: None,
            spotify_client_secret: None,
            spotify_access_token: None,
            spotify_refresh_token: None,
            spotify_token_expires_at: None,
        }
    }
}

} // verus!
