//! The requests of the Google sign-in: the consent-screen redirect, the
//! code-for-token exchange and the user-info lookup.
use oauth2::basic::BasicClient;
use oauth2::{AuthUrl, ClientId, ClientSecret, CsrfToken, RedirectUrl, Scope, TokenUrl};
use vstd::prelude::*;
use vstd::string::*;

use crate::config::Config;

verus! {

/// Google's token endpoint, where an authorization code is exchanged.
pub const GOOGLE_TOKEN_URL: &'static str = "https://oauth2.googleapis.com/token";
/// Google's user-info endpoint.
pub const GOOGLE_USERINFO_URL: &'static str = "https://www.googleapis.com/oauth2/v3/userinfo";
/// Google's authorization (consent screen) endpoint.
pub const GOOGLE_AUTH_URL: &'static str = "https://accounts.google.com/o/oauth2/v2/auth";
/// The token endpoint that the OAuth client is configured with.
pub const GOOGLE_OAUTH_TOKEN_URL: &'static str = "https://www.googleapis.com/oauth2/v3/token";
/// The redirect URL that the OAuth client is configured with.
pub const OAUTH_REDIRECT_URL: &'static str = "http://localhost:8081/auth/google/callback";

/// Represents the token response from Google's token endpoint.
#[derive(Debug)]
pub struct TokenResponse {
    pub access_token: String,
}

/// Represents the user information returned from Google's userinfo endpoint.
#[derive(Debug)]
pub struct GoogleUser {
    /// Google's unique id for the user.
    pub sub: String,
    pub name: String,
    pub email: String,
    /// URL of the user's profile picture.
    pub picture: String,
}

/// The query of the OAuth callback (`?code=...`).
#[derive(Debug)]
pub struct AuthRequest {
    pub code: String,
}

/// The query of Google's callback after the user granted permission.
pub struct AuthCallback {
    pub code: String,
}

/// The form fields posted to the token endpoint to exchange `code` for an
/// access token, in the order they are sent.
pub open spec fn token_request_form(code: Seq<char>, config: Config) -> Seq<(Seq<char>, Seq<char>)> {
    seq![
        ("code"@, code),
        ("client_id"@, config.google_client_id@),
        ("client_secret"@, config.google_client_secret@),
        ("redirect_uri"@, config.google_redirect_uri@),
        ("grant_type"@, "authorization_code"@),
    ]
}

/// The form fields posted to the token endpoint to exchange `code` for an
/// access token, in the order they are sent.
pub fn token_request_params(code: &str, config: &Config) -> (r: Vec<(String, String)>)
    ensures
        r@.len() == token_request_form(code@, *config).len(),
        forall|i: int|
            0 <= i < r@.len() ==> (#[trigger] r@[i]).0@ == token_request_form(code@, *config)[i].0
                && r@[i].1@ == token_request_form(code@, *config)[i].1,
{
    let mut r: Vec<(String, String)> = Vec::new();
    r.push((String::from_str("code"), String::from_str(code)));
    r.push((String::from_str("client_id"), config.google_client_id.clone()));
    r.push((String::from_str("client_secret"), config.google_client_secret.clone()));
    r.push((String::from_str("redirect_uri"), config.google_redirect_uri.clone()));
    r.push((String::from_str("grant_type"), String::from_str("authorization_code")));
    r
}

/// The start of the consent-screen URL, up to the client id.
pub const AUTH_LOCATION_PREFIX: &'static str =
    "https://accounts.google.com/o/oauth2/v2/auth?response_type=code&client_id=";
/// The part of the consent-screen URL between client id and redirect URI.
pub const AUTH_LOCATION_REDIRECT: &'static str = "&redirect_uri=";
/// The end of the consent-screen URL, after the redirect URI.
pub const AUTH_LOCATION_SCOPE: &'static str = "&scope=openid%20email%20profile";

/// The consent-screen URL for the configuration: the configured client id
/// and redirect URI put into the URL as they are.
pub open spec fn auth_location(config: Config) -> Seq<char> {
    AUTH_LOCATION_PREFIX@ + config.google_client_id@ + AUTH_LOCATION_REDIRECT@
        + config.google_redirect_uri@ + AUTH_LOCATION_SCOPE@
}

/// Where the user is redirected to reach Google's consent screen.
pub fn google_auth_location(config: &Config) -> (r: String)
    ensures
        r@ == auth_location(*config),
{
    let mut r = String::from_str(AUTH_LOCATION_PREFIX);
    r.append(config.google_client_id.as_str());
    r.append(AUTH_LOCATION_REDIRECT);
    r.append(config.google_redirect_uri.as_str());
    r.append(AUTH_LOCATION_SCOPE);
    r
}

/// The code exchange names the same client and the same redirect URI as the
/// consent-screen URL that led to the code, as the OAuth protocol demands.
pub proof fn lemma_exchange_matches_consent(code: Seq<char>, config: Config)
    ensures
        auth_location(config) == AUTH_LOCATION_PREFIX@ + token_request_form(code, config)[1].1
            + AUTH_LOCATION_REDIRECT@ + token_request_form(code, config)[3].1
            + AUTH_LOCATION_SCOPE@,
        token_request_form(code, config)[1].0 == "client_id"@,
        token_request_form(code, config)[3].0 == "redirect_uri"@,
{
}

/// The consent-screen URL and the code-exchange form carry the configured
/// client id and redirect URI: in the URL, the client id stands between
/// `client_id=` and `&redirect_uri=`, and the redirect URI between
/// `&redirect_uri=` and `&scope=`; the form's `client_id` and
/// `redirect_uri` fields hold them too.
pub proof fn lemma_configured_redirect_uri(code: Seq<char>, config: Config)
    ensures
        ({
            let u = auth_location(config);
            let start = "https://accounts.google.com/o/oauth2/v2/auth?response_type=code&client_id="@;
            let mid = "&redirect_uri="@;
            let end = "&scope=openid%20email%20profile"@;
            let id = config.google_client_id@;
            let redirect = config.google_redirect_uri@;
            let a = start.len() as int;
            let b = a + id.len();
            let c = b + mid.len();
            let d = c + redirect.len();
            &&& u.len() == d + end.len()
            &&& u.subrange(0, a) == start
            &&& u.subrange(a, b) == id
            &&& u.subrange(b, c) == mid
            &&& u.subrange(c, d) == redirect
            &&& u.subrange(d, u.len() as int) == end
        }),
        token_request_form(code, config).len() == 5,
        token_request_form(code, config)[0] == ("code"@, code),
        token_request_form(code, config)[1] == ("client_id"@, config.google_client_id@),
        token_request_form(code, config)[3] == ("redirect_uri"@, config.google_redirect_uri@),
{
    let u = auth_location(config);
    let start = "https://accounts.google.com/o/oauth2/v2/auth?response_type=code&client_id="@;
    let mid = "&redirect_uri="@;
    let end = "&scope=openid%20email%20profile"@;
    let id = config.google_client_id@;
    let redirect = config.google_redirect_uri@;
    let a = start.len() as int;
    let b = a + id.len();
    let c = b + mid.len();
    let d = c + redirect.len();
    assert(u == start + id + mid + redirect + end);
    assert(u.subrange(0, a) =~= start);
    assert(u.subrange(a, b) =~= id);
    assert(u.subrange(b, c) =~= mid);
    assert(u.subrange(c, d) =~= redirect);
    assert(u.subrange(d, u.len() as int) =~= end);
}

/// The settings of the OAuth client that signs users in with Google.
pub struct OAuthSettings {
    pub client_id: String,
    pub client_secret: String,
    pub auth_url: String,
    pub token_url: String,
    pub redirect_url: String,
}

/// The OAuth client for Google with the given credentials.
pub fn build_oauth_client(client_id: String, client_secret: String) -> (r: OAuthSettings)
    ensures
        r.client_id == client_id,
        r.client_secret == client_secret,
        r.auth_url@ == GOOGLE_AUTH_URL@,
        r.token_url@ == GOOGLE_OAUTH_TOKEN_URL@,
        r.redirect_url@ == OAUTH_REDIRECT_URL@,
{
    OAuthSettings {
        client_id,
        client_secret,
        auth_url: String::from_str(GOOGLE_AUTH_URL),
        token_url: String::from_str(GOOGLE_OAUTH_TOKEN_URL),
        redirect_url: String::from_str(OAUTH_REDIRECT_URL),
    }
}

/// Names the authorization URL that oauth2's `AuthorizationRequest::url`
/// builds for the authorization endpoint, client id, redirect URL, scopes
/// and CSRF state: the endpoint with the query pairs `response_type=code`,
/// `client_id`, `state`, `redirect_uri` and the space-joined `scope`
/// appended in form encoding.
pub uninterp spec fn oauth2_authorization_url(
    auth_url: Seq<char>,
    client_id: Seq<char>,
    redirect_url: Seq<char>,
    scopes: Seq<Seq<char>>,
    state: Seq<char>,
) -> Seq<char>;

/// The characters of URL-safe base64: letters, digits, `-` and `_`.
pub open spec fn is_base64url_char(c: char) -> bool {
    ||| ('0' as u32) <= (c as u32) <= ('9' as u32)
    ||| ('a' as u32) <= (c as u32) <= ('z' as u32)
    ||| ('A' as u32) <= (c as u32) <= ('Z' as u32)
    ||| c == '-'
    ||| c == '_'
}

/// `oauth2::CsrfToken::new_random`, the token's secret. The contract claims
/// what the source shows of every outcome: 16 random bytes in unpadded
/// URL-safe base64, so 22 characters of that alphabet; which ones is left
/// to chance.
#[verifier::external_body]
fn random_csrf_state() -> (s: String)
    ensures
        s@.len() == 22,
        forall|i: int| 0 <= i < s@.len() ==> is_base64url_char(#[trigger] s@[i]),
{
    CsrfToken::new_random().secret().clone()
}

/// Names whether `url::Url::parse` accepts the string, which is what
/// oauth2's `AuthUrl::new`, `TokenUrl::new` and `RedirectUrl::new` test
/// (each is `Ok` exactly when `Url::parse` of its argument is).
pub uninterp spec fn url_parses(s: Seq<char>) -> bool;

/// Whether the three URLs of the settings parse.
pub open spec fn settings_urls_parse(settings: OAuthSettings) -> bool {
    &&& url_parses(settings.auth_url@)
    &&& url_parses(settings.token_url@)
    &&& url_parses(settings.redirect_url@)
}

/// `oauth2::AuthorizationRequest::url` for a `BasicClient` made from the
/// settings, with the given scopes and CSRF state. The contract claims that
/// a URL comes back exactly when the three URLs of the settings parse
/// (the only steps that can fail are `AuthUrl::new`, `TokenUrl::new` and
/// `RedirectUrl::new`), and that it is the named oauth2 authorization URL,
/// which does not depend on the client secret or the token URL. It also
/// claims that Google's authorization URL, the token URL and the local
/// redirect URL that `build_oauth_client` sets all parse, so that settings
/// with those three URLs always give a URL.
#[verifier::external_body]
fn oauth2_authorize_url(settings: &OAuthSettings, scopes: &Vec<String>, state: &str) -> (r: Option<String>)
    ensures
        r is Some <==> (url_parses(settings.auth_url@) && url_parses(settings.token_url@)
            && url_parses(settings.redirect_url@)),
        settings.auth_url@ == GOOGLE_AUTH_URL@ && settings.token_url@ == GOOGLE_OAUTH_TOKEN_URL@
            && settings.redirect_url@ == OAUTH_REDIRECT_URL@ ==> r is Some,
        r matches Some(u) ==> u@ == oauth2_authorization_url(
            settings.auth_url@,
            settings.client_id@,
            settings.redirect_url@,
            scopes@.map_values(|s: String| s@),
            state@,
        ),
{
    let client = BasicClient::new(
        ClientId::new(settings.client_id.clone()),
        Some(ClientSecret::new(settings.client_secret.clone())),
        AuthUrl::new(settings.auth_url.clone()).ok()?,
        Some(TokenUrl::new(settings.token_url.clone()).ok()?),
    ).set_redirect_uri(RedirectUrl::new(settings.redirect_url.clone()).ok()?);
    let request = client.authorize_url(|| CsrfToken::new(state.to_string()));
    Some(request.add_scopes(scopes.iter().map(|s| Scope::new(s.clone()))).url().0.to_string())
}

/// The scopes asked for at sign-in, in order.
pub open spec fn login_scopes() -> Seq<Seq<char>> {
    seq!["profile"@, "email"@]
}

/// The consent-screen URL of a sign-in through the OAuth client: scopes
/// `profile` and `email`, with a fresh random CSRF state of 22 URL-safe
/// base64 characters. A URL comes back exactly when the three URLs of the
/// settings parse, and always for the settings of `build_oauth_client`.
pub fn google_login(settings: &OAuthSettings) -> (r: Option<String>)
    ensures
        r is Some <==> settings_urls_parse(*settings),
        settings.auth_url@ == GOOGLE_AUTH_URL@ && settings.token_url@ == GOOGLE_OAUTH_TOKEN_URL@
            && settings.redirect_url@ == OAUTH_REDIRECT_URL@ ==> r is Some,
        r matches Some(u) ==> exists|state: Seq<char>|
            {
                &&& state.len() == 22
                &&& forall|i: int| 0 <= i < state.len() ==> is_base64url_char(#[trigger] state[i])
                &&& u@ == oauth2_authorization_url(
                    settings.auth_url@,
                    settings.client_id@,
                    settings.redirect_url@,
                    login_scopes(),
                    state,
                )
            },
{
    let state = random_csrf_state();
    let mut scopes: Vec<String> = Vec::new();
    scopes.push(String::from_str("profile"));
    scopes.push(String::from_str("email"));
    assert(scopes@.map_values(|s: String| s@) =~= login_scopes());
    oauth2_authorize_url(settings, &scopes, state.as_str())
}

} // verus!
