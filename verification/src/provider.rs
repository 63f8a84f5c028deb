//! The identity provider's client configuration and authorization address.

use vstd::prelude::*;
use vstd::string::*;
use oauth2::basic::BasicClient;
use oauth2::AuthUrl;
use oauth2::ClientId;
use oauth2::CsrfToken;
use oauth2::RedirectUrl;
use oauth2::Scope;
use crate::text::opt_text;
use crate::text::list_text;

verus! {

/// The OAuth2 client settings of one deployment.
#[derive(Debug)]
pub struct OAuthClientConfig {
    pub client_id: String,
    pub client_secret: String,
    pub auth_url: String,
    pub token_url: String,
    pub redirect_url: String,
}

/// What an [`OAuthClientConfig`] holds.
pub struct ConfigView {
    pub client_id: Seq<char>,
    pub client_secret: Seq<char>,
    pub auth_url: Seq<char>,
    pub token_url: Seq<char>,
    pub redirect_url: Seq<char>,
}

impl View for OAuthClientConfig {
    type V = ConfigView;

    open spec fn view(&self) -> ConfigView {
        ConfigView {
            client_id: self.client_id@,
            client_secret: self.client_secret@,
            auth_url: self.auth_url@,
            token_url: self.token_url@,
            redirect_url: self.redirect_url@,
        }
    }
}

/// The scopes requested from the provider, in order.
pub open spec fn requested_scopes() -> Seq<Seq<char>> {
    seq!["identify"@, "email"@, "guilds"@]
}

/// The authorization address that the `oauth2` crate builds for a code grant
/// from the authorization endpoint, the client identifier, the redirect
/// address, the scopes in order and the anti-forgery state; `None` where the
/// endpoint or the redirect address is no valid URL.
pub uninterp spec fn authorize_url_of(
    auth_url: Seq<char>,
    client_id: Seq<char>,
    redirect_url: Seq<char>,
    scopes: Seq<Seq<char>>,
    state: Seq<char>,
) -> Option<Seq<char>>;

/// The authorization address for the requested scopes.
pub open spec fn authorization_url_of(config: ConfigView, state: Seq<char>) -> Option<Seq<char>> {
    authorize_url_of(config.auth_url, config.client_id, config.redirect_url, requested_scopes(), state)
}

/// Calls `oauth2::Client::authorize_url`, `add_scope` for each scope and
/// `AuthorizationRequest::url` on a client made from the endpoint, the client
/// identifier and the redirect address. The address is a function of these
/// values, the scopes and the state alone.
#[verifier::external_body]
fn provider_authorize_url(config: &OAuthClientConfig, scopes: &Vec<String>, state: &str) -> (r: Option<String>)
    ensures
        opt_text(r) == authorize_url_of(
            config.auth_url@,
            config.client_id@,
            config.redirect_url@,
            list_text(scopes@),
            state@,
        ),
{
    let auth = AuthUrl::new(config.auth_url.clone()).ok()?;
    let redirect = RedirectUrl::new(config.redirect_url.clone()).ok()?;
    let client = BasicClient::new(ClientId::new(config.client_id.clone()), None, auth, None)
        .set_redirect_uri(redirect);
    let token = CsrfToken::new(state.to_string());
    let mut request = client.authorize_url(move || token);
    for scope in scopes.iter() {
        request = request.add_scope(Scope::new(scope.clone()));
    }
    Some(request.url().0.to_string())
}

/// Calls `oauth2::CsrfToken::new_random`. The value is drawn at random, so
/// nothing is stated of it.
#[verifier::external_body]
pub(crate) fn random_state() -> (r: String) {
    CsrfToken::new_random().secret().clone()
}

/// Builds the address to which the user is sent to authorize the scopes
/// `identify`, `email` and `guilds`, carrying `state` as anti-forgery value.
/// `None` where the configured endpoint or redirect address is malformed.
pub fn authorization_url(config: &OAuthClientConfig, state: &str) -> (r: Option<String>)
    ensures
        opt_text(r) == authorization_url_of(config@, state@),
{
    let mut scopes: Vec<String> = Vec::new();
    scopes.push("identify".to_owned());
    scopes.push("email".to_owned());
    scopes.push("guilds".to_owned());
    assert(list_text(scopes@) =~= requested_scopes());
    provider_authorize_url(config, &scopes, state)
}

} // verus!
