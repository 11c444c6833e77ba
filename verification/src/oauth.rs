//! The decisions of the sign-in with the streaming service.
//!
//! The service sends the user's browser back to a local address with an
//! authorization code. The code is exchanged for tokens, and the tokens are
//! renewed when they run out. Listening, sending and storing are the
//! caller's part; what is answered, asked and kept is decided here.

use vstd::prelude::*;
use vstd::string::{StrSliceExecFns, StringExecFns};
use crate::text::{clone_text, same_text};
use crate::settings::{AppSettings, Credentials};

verus! {

/// The error with which the `url` crate refuses an address. Nothing of its
/// inside is known here.
#[verifier::external_type_specification]
#[verifier::external_body]
pub struct ExUrlParseError(url::ParseError);

/// The pairs of the query string of an address, as `url::Url::parse` and
/// `Url::query_pairs` read them, where the address is an absolute URL.
pub uninterp spec fn query_pairs_of(address: Seq<char>) -> Option<Seq<(Seq<char>, Seq<char>)>>;

/// Pairs of texts, as their mathematical value.
pub open spec fn pairs_view(pairs: Seq<(String, String)>) -> Seq<(Seq<char>, Seq<char>)> {
    Seq::new(pairs.len(), |i: int| (pairs[i].0@, pairs[i].1@))
}

/// The pairs of the query string of an address.
///
/// Calls `url::Url::parse` and copies what `Url::query_pairs` yields, in its
/// order. The result depends on the address alone and is named by
/// [`query_pairs_of`].
#[verifier::external_body]
fn parse_query(address: &str) -> (r: Result<Vec<(String, String)>, url::ParseError>)
    ensures
        match r {
            Ok(pairs) => query_pairs_of(address@) == Some(pairs_view(pairs@)),
            Err(_) => query_pairs_of(address@) is None,
        },
{
    url::Url::parse(address).map(|parsed| parsed.query_pairs().into_owned().collect())
}

/// What is wrong with an address, in words.
///
/// Writes a `url::ParseError` with its `Display`. Nothing is claimed of the
/// text.
#[verifier::external_body]
fn describe_parse_error(error: &url::ParseError) -> String {
    error.to_string()
}

/// What the browser is shown.
#[derive(Debug, PartialEq, Eq)]
pub enum Page {
    /// The address is not the one that the service sends the user back to.
    NotFound,
    /// The sign-in has succeeded.
    Success,
    /// The sign-in has failed, with the reason.
    Failure(String),
}

/// The answer to a request of the browser: a status and a page.
#[derive(Debug, PartialEq, Eq)]
pub struct CallbackReply {
    pub status: u16,
    pub page: Page,
}

/// What is to be done with a request of the browser: answer it, or exchange
/// the authorization code that it brought.
#[derive(Debug, PartialEq, Eq)]
pub enum CallbackStep {
    Reply(CallbackReply),
    Exchange(String),
}

/// The code verifier as it was found in the store.
#[derive(Debug, PartialEq, Eq)]
pub enum StoredVerifier {
    /// Nothing is stored.
    Missing,
    /// Something is stored that is not a text.
    NotText,
    /// The stored verifier.
    Text(String),
}

/// Why a request for tokens cannot be made.
#[derive(Debug, Clone, Copy, PartialEq, Eq, Structural)]
pub enum OAuthError {
    /// There is no refresh token to renew the tokens with.
    NoRefreshToken,
    /// The client secret is not set.
    SecretNotSet,
}

/// The mathematical value of a [`Page`].
pub enum PageView {
    NotFound,
    Success,
    Failure(Seq<char>),
}

/// The mathematical value of a [`CallbackStep`].
pub enum StepView {
    Reply(u16, PageView),
    Exchange(Seq<char>),
}

impl View for Page {
    type V = PageView;

    open spec fn view(&self) -> PageView {
        match self {
            Page::NotFound => PageView::NotFound,
            Page::Success => PageView::Success,
            Page::Failure(reason) => PageView::Failure(reason@),
        }
    }
}

impl View for CallbackStep {
    type V = StepView;

    open spec fn view(&self) -> StepView {
        match self {
            CallbackStep::Reply(reply) => StepView::Reply(reply.status, reply.page@),
            CallbackStep::Exchange(code) => StepView::Exchange(code@),
        }
    }
}

/// The value of the last pair with the given name, if there is one.
pub open spec fn parameter(pairs: Seq<(Seq<char>, Seq<char>)>, name: Seq<char>) -> Option<
    Seq<char>,
>
    decreases pairs.len(),
{
    if pairs.len() == 0 {
        None
    } else if pairs.last().0 == name {
        Some(pairs.last().1)
    } else {
        parameter(pairs.drop_last(), name)
    }
}

/// The value of the last pair with the given name, if there is one.
pub fn find_parameter<'a>(pairs: &'a Vec<(String, String)>, name: &str) -> (r: Option<&'a String>)
    ensures
        r.deep_view() == parameter(pairs_view(pairs@), name@),
{
    let mut i: usize = pairs.len();
    assert(pairs_view(pairs@).take(i as int) =~= pairs_view(pairs@));
    while i > 0
        invariant
            i <= pairs.len(),
            parameter(pairs_view(pairs@), name@) == parameter(
                pairs_view(pairs@).take(i as int),
                name@,
            ),
        decreases i,
    {
        proof {
            let taken = pairs_view(pairs@).take(i as int);
            assert(taken.drop_last() =~= pairs_view(pairs@).take(i - 1));
            assert(taken.last() == pairs_view(pairs@)[i - 1]);
        }
        if same_text(pairs[i - 1].0.as_str(), name) {
            return Some(&pairs[i - 1].1);
        }
        i = i - 1;
    }
    proof {
        assert(pairs_view(pairs@).take(0) =~= Seq::<(Seq<char>, Seq<char>)>::empty());
    }
    None
}

/// Whether a request is one that the service sends the user back with: a
/// `GET` of a path that begins with `/callback`.
pub open spec fn is_callback(method: Seq<char>, path: Seq<char>) -> bool {
    method == "GET"@ && path.len() >= 9 && path.subrange(0, 9) == "/callback"@
}

/// Whether a request is one that the service sends the user back with.
pub fn is_callback_request(method: &str, path: &str) -> (r: bool)
    ensures
        r == is_callback(method@, path@),
{
    if !same_text(method, "GET") {
        return false;
    }
    if path.unicode_len() < 9 {
        return false;
    }
    same_text(path.substring_char(0, 9), "/callback")
}

/// The address that a request was made to, in full.
pub open spec fn callback_address(path: Seq<char>) -> Seq<char> {
    "http://localhost:5174"@ + path
}

/// The step that the parameters of a callback call for: a failure that the
/// service reports is passed on, a code is exchanged, and a callback with
/// neither is refused.
pub open spec fn step_for(pairs: Seq<(Seq<char>, Seq<char>)>) -> StepView {
    match parameter(pairs, "error"@) {
        Some(error) => StepView::Reply(400, PageView::Failure("Spotify error: "@ + error)),
        None => match parameter(pairs, "code"@) {
            Some(code) => StepView::Exchange(code),
            None => StepView::Reply(
                400,
                PageView::Failure("No authorization code found in the callback URL"@),
            ),
        },
    }
}

/// The step that the parameters of a callback call for.
pub fn callback_step(pairs: &Vec<(String, String)>) -> (r: CallbackStep)
    ensures
        r@ == step_for(pairs_view(pairs@)),
{
    match find_parameter(pairs, "error") {
        Some(error) => {
            let mut reason = "Spotify error: ".to_owned();
            reason.append(error.as_str());
            CallbackStep::Reply(CallbackReply { status: 400, page: Page::Failure(reason) })
        },
        None => match find_parameter(pairs, "code") {
            Some(code) => CallbackStep::Exchange(code.clone()),
            None => CallbackStep::Reply(
                CallbackReply {
                    status: 400,
                    page: Page::Failure(
                        "No authorization code found in the callback URL".to_owned(),
                    ),
                },
            ),
        },
    }
}

/// Whether a step is the refusal of an address that cannot be read: status
/// 400 and a reason that begins with `Invalid URL: `.
pub open spec fn refuses_address(step: StepView) -> bool {
    step matches StepView::Reply(status, PageView::Failure(reason)) && status == 400 && exists|
        detail: Seq<char>,
    |
        reason == "Invalid URL: "@ + detail
}

/// Decides what is to be done with a request of the browser.
///
/// A request that is no callback is not found. A callback whose address
/// cannot be read is refused. Otherwise the parameters decide.
pub fn route_callback(method: &str, path: &str) -> (r: CallbackStep)
    ensures
        !is_callback(method@, path@) ==> r@ == StepView::Reply(404, PageView::NotFound),
        is_callback(method@, path@) ==> match query_pairs_of(callback_address(path@)) {
            Some(pairs) => r@ == step_for(pairs),
            None => refuses_address(r@),
        },
{
    if !is_callback_request(method, path) {
        return CallbackStep::Reply(CallbackReply { status: 404, page: Page::NotFound });
    }
    let mut address = "http://localhost:5174".to_owned();
    address.append(path);
    match parse_query(address.as_str()) {
        Ok(pairs) => callback_step(&pairs),
        Err(error) => {
            let detail = describe_parse_error(&error);
            let mut reason = "Invalid URL: ".to_owned();
            reason.append(detail.as_str());
            assert(reason@ == "Invalid URL: "@ + detail@);
            CallbackStep::Reply(CallbackReply { status: 400, page: Page::Failure(reason) })
        },
    }
}

/// What the stored verifier allows: the verifier itself, or the page that
/// says why the exchange cannot go on.
pub open spec fn verifier_for(stored: StoredVerifier) -> Result<Seq<char>, (u16, Seq<char>)> {
    match stored {
        StoredVerifier::Text(verifier) => Ok(verifier@),
        StoredVerifier::NotText => Err((500u16, "Invalid code verifier format"@)),
        StoredVerifier::Missing => Err(
            (400u16, "No code verifier found. Please try authenticating again."@),
        ),
    }
}

/// What the stored verifier allows: the verifier itself, or the answer that
/// says why the exchange cannot go on.
pub fn verifier_or_reply(stored: &StoredVerifier) -> (r: Result<String, CallbackReply>)
    ensures
        match r {
            Ok(verifier) => verifier_for(*stored) == Ok::<Seq<char>, (u16, Seq<char>)>(verifier@),
            Err(reply) => reply.page matches Page::Failure(reason) && verifier_for(*stored)
                == Err::<Seq<char>, (u16, Seq<char>)>((reply.status, reason@)),
        },
{
    match stored {
        StoredVerifier::Text(verifier) => Ok(verifier.clone()),
        StoredVerifier::NotText => Err(
            CallbackReply {
                status: 500,
                page: Page::Failure("Invalid code verifier format".to_owned()),
            },
        ),
        StoredVerifier::Missing => Err(
            CallbackReply {
                status: 400,
                page: Page::Failure(
                    "No code verifier found. Please try authenticating again.".to_owned(),
                ),
            },
        ),
    }
}

/// The answer after a failure of the store.
pub fn store_failure_reply(detail: &str) -> (r: CallbackReply)
    ensures
        r.status == 500,
        r.page@ == PageView::Failure("Failed to load store: "@ + detail@),
{
    let mut reason = "Failed to load store: ".to_owned();
    reason.append(detail);
    CallbackReply { status: 500, page: Page::Failure(reason) }
}

/// The answer after the exchange of the code: the success page, or the
/// failure with its reason.
pub fn exchange_reply(outcome: &Result<(), String>) -> (r: CallbackReply)
    ensures
        match outcome {
            Ok(_) => r.status == 200 && r.page@ == PageView::Success,
            Err(detail) => r.status == 500 && r.page@ == PageView::Failure(
                "Failed to exchange code: "@ + detail@,
            ),
        },
{
    match outcome {
        Ok(_) => CallbackReply { status: 200, page: Page::Success },
        Err(detail) => {
            let mut reason = "Failed to exchange code: ".to_owned();
            reason.append(detail.as_str());
            CallbackReply { status: 500, page: Page::Failure(reason) }
        },
    }
}

impl CallbackReply {
    /// Whether the answer is a page of HTML. The page that is not found is
    /// plain text.
    pub fn is_html(&self) -> (r: bool)
        ensures
            r == !(self.page is NotFound),
    {
        match self.page {
            Page::NotFound => false,
            _ => true,
        }
    }
}

/// The client secret, where one is set: it is stored and not empty.
pub open spec fn secret_of(credentials: Credentials) -> Option<Seq<char>> {
    match credentials.spotify_client_secret {
        Some(secret) => if secret@.len() > 0 {
            Some(secret@)
        } else {
            None
        },
        None => None,
    }
}

/// The client secret, where one is set.
pub fn client_secret(credentials: &Credentials) -> (r: Option<&String>)
    ensures
        r.deep_view() == secret_of(*credentials),
{
    match &credentials.spotify_client_secret {
        Some(secret) => if !secret.as_str().is_empty() {
            Some(secret)
        } else {
            None
        },
        None => None,
    }
}

/// A pair of texts.
pub open spec fn field(name: Seq<char>, value: Seq<char>) -> (Seq<char>, Seq<char>) {
    (name, value)
}

/// The form that asks for tokens in exchange for an authorization code.
pub open spec fn exchange_form_of(
    settings: AppSettings,
    credentials: Credentials,
    code: Seq<char>,
    code_verifier: Seq<char>,
) -> Result<Seq<(Seq<char>, Seq<char>)>, OAuthError> {
    match secret_of(credentials) {
        Some(secret) => Ok(
            seq![
                field("client_id"@, settings.spotify.client_id@),
                field("client_secret"@, secret),
                field("grant_type"@, "authorization_code"@),
                field("code"@, code),
                field("redirect_uri"@, "http://localhost:5174/callback"@),
                field("code_verifier"@, code_verifier),
            ],
        ),
        None => Err(OAuthError::SecretNotSet),
    }
}

/// The form that asks for new tokens with the refresh token.
pub open spec fn refresh_form_of(settings: AppSettings, credentials: Credentials) -> Result<
    Seq<(Seq<char>, Seq<char>)>,
    OAuthError,
> {
    match credentials.spotify_refresh_token {
        None => Err(OAuthError::NoRefreshToken),
        Some(refresh_token) => match secret_of(credentials) {
            Some(secret) => Ok(
                seq![
                    field("client_id"@, settings.spotify.client_id@),
                    field("client_secret"@, secret),
                    field("grant_type"@, "refresh_token"@),
                    field("refresh_token"@, refresh_token@),
                ],
            ),
            None => Err(OAuthError::SecretNotSet),
        },
    }
}

/// A form or the reason why there is none, as its mathematical value.
pub open spec fn form_view(form: Result<Vec<(String, String)>, OAuthError>) -> Result<
    Seq<(Seq<char>, Seq<char>)>,
    OAuthError,
> {
    match form {
        Ok(fields) => Ok(pairs_view(fields@)),
        Err(e) => Err(e),
    }
}

/// Appends a field to a form.
fn push_field(form: &mut Vec<(String, String)>, name: &str, value: &str)
    ensures
        pairs_view(final(form)@) == pairs_view(old(form)@).push(field(name@, value@)),
{
    let ghost before = pairs_view(form@);
    form.push((name.to_owned(), value.to_owned()));
    assert(pairs_view(form@) =~= before.push(field(name@, value@)));
}

/// The address that tokens are asked from.
pub fn token_endpoint() -> (r: &'static str)
    ensures
        r@ == "https://accounts.spotify.com/api/token"@,
{
    "https://accounts.spotify.com/api/token"
}

/// Builds the form that asks for tokens in exchange for an authorization
/// code. There is none where the client secret is not set.
pub fn exchange_form(
    settings: &AppSettings,
    credentials: &Credentials,
    code: &str,
    code_verifier: &str,
) -> (r: Result<Vec<(String, String)>, OAuthError>)
    ensures
        form_view(r) == exchange_form_of(*settings, *credentials, code@, code_verifier@),
{
    match client_secret(credentials) {
        Some(secret) => {
            let mut form: Vec<(String, String)> = Vec::new();
            assert(pairs_view(form@) =~= Seq::<(Seq<char>, Seq<char>)>::empty());
            push_field(&mut form, "client_id", settings.spotify.client_id.as_str());
            push_field(&mut form, "client_secret", secret.as_str());
            push_field(&mut form, "grant_type", "authorization_code");
            push_field(&mut form, "code", code);
            push_field(&mut form, "redirect_uri", "http://localhost:5174/callback");
            push_field(&mut form, "code_verifier", code_verifier);
            assert(pairs_view(form@) =~= exchange_form_of(
                *settings,
                *credentials,
                code@,
                code_verifier@,
            )->Ok_0);
            Ok(form)
        },
        None => Err(OAuthError::SecretNotSet),
    }
}

/// Builds the form that asks for new tokens with the refresh token. There
/// is none where no refresh token is stored or the client secret is not
/// set.
pub fn refresh_form(settings: &AppSettings, credentials: &Credentials) -> (r: Result<
    Vec<(String, String)>,
    OAuthError,
>)
    ensures
        form_view(r) == refresh_form_of(*settings, *credentials),
{
    match &credentials.spotify_refresh_token {
        None => Err(OAuthError::NoRefreshToken),
        Some(refresh_token) => match client_secret(credentials) {
            Some(secret) => {
                let mut form: Vec<(String, String)> = Vec::new();
                assert(pairs_view(form@) =~= Seq::<(Seq<char>, Seq<char>)>::empty());
                push_field(&mut form, "client_id", settings.spotify.client_id.as_str());
                push_field(&mut form, "client_secret", secret.as_str());
                push_field(&mut form, "grant_type", "refresh_token");
                push_field(&mut form, "refresh_token", refresh_token.as_str());
                assert(pairs_view(form@) =~= refresh_form_of(*settings, *credentials)->Ok_0);
                Ok(form)
            },
            None => Err(OAuthError::SecretNotSet),
        },
    }
}

/// The credentials with new tokens: the secrets stay, the tokens are
/// replaced, and the tokens run out so many seconds from now.
pub fn credentials_with_tokens(
    credentials: &Credentials,
    access_token: String,
    refresh_token: String,
    now: u64,
    expires_in: u64,
) -> (r: Credentials)
    requires
        now + expires_in <= u64::MAX,
    ensures
        r.soulseek_password.deep_view() == credentials.soulseek_password.deep_view(),
        r.spotify_client_secret.deep_view() == credentials.spotify_client_secret.deep_view(),
        r.spotify_access_token.deep_view() == Some(access_token@),
        r.spotify_refresh_token.deep_view() == Some(refresh_token@),
        r.spotify_token_expires_at == Some((now + expires_in) as u64),
{
    Credentials {
        soulseek_password: clone_text(&credentials.soulseek_password),
        spotify_client_secret: clone_text(&credentials.spotify_client_secret),
        spotify_access_token: Some(access_token),
        spotify_refresh_token: Some(refresh_token),
        spotify_token_expires_at: Some(now + expires_in),
    }
}

/// Whether a sign-in that was begun has since been completed: a verifier is
/// stored and not empty, and both tokens are there.
pub fn pending_auth_completed(stored: &StoredVerifier, credentials: &Credentials) -> (r: bool)
    ensures
        r == (stored matches StoredVerifier::Text(verifier) && verifier@.len() > 0
            && credentials.spotify_access_token is Some && credentials.spotify_refresh_token
            is Some),
{
    match stored {
        StoredVerifier::Text(verifier) => !verifier.as_str().is_empty()
            && credentials.spotify_access_token.is_some()
            && credentials.spotify_refresh_token.is_some(),
        _ => false,
    }
}

} // verus!
