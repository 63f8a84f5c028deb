//! The authorization flow as a state machine: each step takes the state and
//! the result of the outside work last asked for, and gives the next state
//! together with the next thing to do.

use vstd::prelude::*;
use vstd::string::*;
use crate::decimal::decimal_u64;
use crate::decimal::parse_decimal;
use crate::policy::is_member;
use crate::provider::authorization_url;
use crate::provider::authorization_url_of;
use crate::provider::authorize_url_of;
use crate::provider::random_state;
use crate::provider::ConfigView;
use crate::provider::OAuthClientConfig;
use crate::request::last_value;
use crate::request::last_value_none;
use crate::request::RequestUrl;
use crate::request::RequestUrlView;
use crate::response::envelope_of;
use crate::response::Response;
use crate::response::ResponseView;
use crate::response::StatusCode;
use crate::signer::base64_decode;
use crate::signer::base64_decoded;
use crate::signer::sign;
use crate::signer::signed;
use crate::signer::SigningError;
use crate::signer::MIN_KEY_LEN;
use crate::templates::form_for;
use crate::templates::no_email;
use crate::templates::FormTemplate;
use crate::templates::FormView;
use crate::templates::ProfileView;
use crate::templates::UserProfile;
use crate::text::opt_text;

verus! {

/// The three kinds of request path.
#[derive(Clone, Copy, Debug, PartialEq, Eq, Structural)]
pub enum Route {
    /// `/`: send the user to the provider.
    Entry,
    /// `/oauth/authorize`: the provider sends the user back with a code.
    Callback,
    /// Anything else.
    Unknown,
}

/// The route of a path.
pub open spec fn route_of(path: Seq<char>) -> Route {
    if path == "/"@ {
        Route::Entry
    } else if path == "/oauth/authorize"@ {
        Route::Callback
    } else {
        Route::Unknown
    }
}

/// Classifies a request path.
pub fn route(path: &str) -> (r: Route)
    ensures
        r == route_of(path@),
{
    let owned: String = path.to_owned();
    if owned == "/".to_owned() {
        Route::Entry
    } else if owned == "/oauth/authorize".to_owned() {
        Route::Callback
    } else {
        Route::Unknown
    }
}

/// Why a request ends without a response.
#[derive(Clone, Copy, Debug, PartialEq, Eq, Structural)]
pub enum FlowError {
    /// A configured address, guild identifier or signing secret is malformed.
    Configuration,
    /// The callback carries no `code` parameter.
    MissingParameter,
    /// The guild list or the profile could not be fetched.
    UpstreamFetchFailed,
    /// No token could be issued for the profile.
    Signing,
    /// The result handed in is not the one that the state waits for.
    UnexpectedEvent,
}

/// The per-deployment settings of the flow.
#[derive(Debug)]
pub struct Settings {
    pub oauth: OAuthClientConfig,
    /// The target guild's identifier, in decimal.
    pub guild_id: String,
    /// The signing secret, base64-encoded.
    pub secret_key: String,
    pub form_embed_url: String,
}

/// What [`Settings`] hold.
pub struct SettingsView {
    pub oauth: ConfigView,
    pub guild_id: Seq<char>,
    pub secret_key: Seq<char>,
    pub form_embed_url: Seq<char>,
}

impl View for Settings {
    type V = SettingsView;

    open spec fn view(&self) -> SettingsView {
        SettingsView {
            oauth: self.oauth@,
            guild_id: self.guild_id@,
            secret_key: self.secret_key@,
            form_embed_url: self.form_embed_url@,
        }
    }
}

/// What the flow waits for.
#[derive(Debug)]
pub enum FlowState {
    /// The code is being exchanged for an access token.
    AwaitingToken,
    /// The guild list is being fetched with the given access token.
    AwaitingGuilds(String),
    /// The profile is being fetched.
    AwaitingProfile,
    /// The request has reached its outcome.
    Finished,
}

/// What a [`FlowState`] holds.
pub enum FlowStateView {
    AwaitingToken,
    AwaitingGuilds(Seq<char>),
    AwaitingProfile,
    Finished,
}

impl View for FlowState {
    type V = FlowStateView;

    open spec fn view(&self) -> FlowStateView {
        match *self {
            FlowState::AwaitingToken => FlowStateView::AwaitingToken,
            FlowState::AwaitingGuilds(token) => FlowStateView::AwaitingGuilds(token@),
            FlowState::AwaitingProfile => FlowStateView::AwaitingProfile,
            FlowState::Finished => FlowStateView::Finished,
        }
    }
}

/// The result of the outside work that an [`Action`] asked for; `None` where
/// that work failed.
#[derive(Debug)]
pub enum Event {
    /// The access token from the token endpoint.
    TokenExchanged(Option<String>),
    /// The identifiers of the user's guilds.
    GuildsFetched(Option<Vec<u64>>),
    /// The user's profile.
    ProfileFetched(Option<UserProfile>),
}

/// What an [`Event`] holds.
pub enum EventView {
    TokenExchanged(Option<Seq<char>>),
    GuildsFetched(Option<Seq<u64>>),
    ProfileFetched(Option<ProfileView>),
}

impl View for Event {
    type V = EventView;

    open spec fn view(&self) -> EventView {
        match *self {
            Event::TokenExchanged(token) => EventView::TokenExchanged(opt_text(token)),
            Event::GuildsFetched(guilds) => EventView::GuildsFetched(
                match guilds {
                    Some(g) => Some(g@),
                    None => None,
                },
            ),
            Event::ProfileFetched(profile) => EventView::ProfileFetched(
                match profile {
                    Some(p) => Some(p@),
                    None => None,
                },
            ),
        }
    }
}

/// What the caller is to do next.
#[derive(Debug)]
pub enum Action {
    /// Exchange this authorization code for an access token.
    ExchangeCode(String),
    /// Fetch the user's guild list with this access token.
    FetchGuilds(String),
    /// Fetch the user's profile with this access token.
    FetchProfile(String),
    /// Answer with this outcome.
    Respond(Response),
    /// Render the form page from these fields and answer with it as content.
    RenderForm(FormTemplate),
    /// Give the request up.
    Abort(FlowError),
}

/// What an [`Action`] holds.
pub enum ActionView {
    ExchangeCode(Seq<char>),
    FetchGuilds(Seq<char>),
    FetchProfile(Seq<char>),
    Respond(ResponseView),
    RenderForm(FormView),
    Abort(FlowError),
}

impl View for Action {
    type V = ActionView;

    open spec fn view(&self) -> ActionView {
        match *self {
            Action::ExchangeCode(code) => ActionView::ExchangeCode(code@),
            Action::FetchGuilds(token) => ActionView::FetchGuilds(token@),
            Action::FetchProfile(token) => ActionView::FetchProfile(token@),
            Action::Respond(response) => ActionView::Respond(response@),
            Action::RenderForm(form) => ActionView::RenderForm(form@),
            Action::Abort(error) => ActionView::Abort(error),
        }
    }
}

/// A state together with what is to be done in it.
#[derive(Debug)]
pub struct Step {
    pub state: FlowState,
    pub action: Action,
}

/// What a [`Step`] holds.
pub struct StepView {
    pub state: FlowStateView,
    pub action: ActionView,
}

impl View for Step {
    type V = StepView;

    open spec fn view(&self) -> StepView {
        StepView { state: self.state@, action: self.action@ }
    }
}

/// The last step of a request, with its terminal action.
pub open spec fn finished(action: ActionView) -> StepView {
    StepView { state: FlowStateView::Finished, action }
}

/// The body served to a user who is not in the target guild.
pub open spec fn denial() -> Seq<char> {
    "not authorized for this context"@
}

/// The first step of a request, given the anti-forgery value to send along.
pub open spec fn opening(url: RequestUrlView, config: ConfigView, csrf: Seq<char>) -> StepView {
    match route_of(url.path) {
        Route::Entry => match authorization_url_of(config, csrf) {
            Some(target) => finished(ActionView::Respond(ResponseView::Redirect(target))),
            None => finished(ActionView::Abort(FlowError::Configuration)),
        },
        Route::Callback => match last_value(url.query, "code"@) {
            Some(code) => StepView {
                state: FlowStateView::AwaitingToken,
                action: ActionView::ExchangeCode(code),
            },
            None => finished(ActionView::Abort(FlowError::MissingParameter)),
        },
        Route::Unknown => finished(ActionView::Respond(ResponseView::StatusCode(501))),
    }
}

/// The step after the token exchange.
pub open spec fn exchanged(token: Option<Seq<char>>) -> StepView {
    match token {
        Some(t) => StepView { state: FlowStateView::AwaitingGuilds(t), action: ActionView::FetchGuilds(t) },
        None => finished(ActionView::Respond(ResponseView::Redirect("/"@))),
    }
}

/// The step after the guild list was fetched with `token`.
pub open spec fn admitted(token: Seq<char>, guilds: Option<Seq<u64>>, guild_id: Seq<char>) -> StepView {
    match guilds {
        None => finished(ActionView::Abort(FlowError::UpstreamFetchFailed)),
        Some(list) => match decimal_u64(guild_id) {
            None => finished(ActionView::Abort(FlowError::Configuration)),
            Some(target) => if list.contains(target) {
                StepView { state: FlowStateView::AwaitingProfile, action: ActionView::FetchProfile(token) }
            } else {
                finished(ActionView::Respond(ResponseView::Content(denial())))
            },
        },
    }
}

/// The step after the profile was fetched.
pub open spec fn issued(profile: Option<ProfileView>, secret_key: Seq<char>, form_embed_url: Seq<char>) -> StepView {
    match profile {
        None => finished(ActionView::Abort(FlowError::UpstreamFetchFailed)),
        Some(p) => match base64_decoded(secret_key) {
            None => finished(ActionView::Abort(FlowError::Configuration)),
            Some(key) => match signed(p, key) {
                Err(_) => finished(ActionView::Abort(FlowError::Signing)),
                Ok(token) => finished(ActionView::RenderForm(form_for(p, token, form_embed_url))),
            },
        },
    }
}

/// The step that follows `state` on `event`.
pub open spec fn advance(state: FlowStateView, event: EventView, settings: SettingsView) -> StepView {
    match state {
        FlowStateView::AwaitingToken => match event {
            EventView::TokenExchanged(token) => exchanged(token),
            _ => finished(ActionView::Abort(FlowError::UnexpectedEvent)),
        },
        FlowStateView::AwaitingGuilds(token) => match event {
            EventView::GuildsFetched(guilds) => admitted(token, guilds, settings.guild_id),
            _ => finished(ActionView::Abort(FlowError::UnexpectedEvent)),
        },
        FlowStateView::AwaitingProfile => match event {
            EventView::ProfileFetched(profile) => issued(profile, settings.secret_key, settings.form_embed_url),
            _ => finished(ActionView::Abort(FlowError::UnexpectedEvent)),
        },
        FlowStateView::Finished => finished(ActionView::Abort(FlowError::UnexpectedEvent)),
    }
}

fn finish(action: Action) -> (r: Step)
    ensures
        r@ == finished(action@),
{
    Step { state: FlowState::Finished, action }
}

/// Takes the first step of a request with a given anti-forgery value: the
/// entry path is redirected to the provider, the callback path asks for the
/// exchange of its `code`, and every other path is answered with status 501.
pub fn begin(url: &RequestUrl, config: &OAuthClientConfig, csrf: &str) -> (r: Step)
    ensures
        r@ == opening(url@, config@, csrf@),
{
    match route(url.path.as_str()) {
        Route::Entry => match authorization_url(config, csrf) {
            Some(target) => finish(Action::Respond(Response::Redirect(target))),
            None => finish(Action::Abort(FlowError::Configuration)),
        },
        Route::Callback => match url.param("code") {
            Some(code) => Step { state: FlowState::AwaitingToken, action: Action::ExchangeCode(code) },
            None => finish(Action::Abort(FlowError::MissingParameter)),
        },
        Route::Unknown => finish(Action::Respond(Response::StatusCode(StatusCode::not_implemented()))),
    }
}

/// Takes the first step of a request, drawing a fresh random anti-forgery
/// value where the entry path needs one.
pub fn start(url: &RequestUrl, config: &OAuthClientConfig) -> (r: Step)
    ensures
        exists|csrf: Seq<char>| r@ == #[trigger] opening(url@, config@, csrf),
        route_of(url@.path) != Route::Entry ==> r@ == opening(url@, config@, Seq::empty()),
{
    match route(url.path.as_str()) {
        Route::Entry => {
            let csrf: String = random_state();
            begin(url, config, csrf.as_str())
        },
        _ => {
            let r = begin(url, config, "");
            assert(r@ == opening(url@, config@, Seq::empty()));
            r
        },
    }
}

/// Continues after the token exchange: with a token the guild list is asked
/// for; a failed exchange sends the user back to the entry path.
pub fn after_exchange(token: Option<String>) -> (r: Step)
    ensures
        r@ == exchanged(opt_text(token)),
{
    match token {
        Some(t) => {
            let again: String = t.clone();
            Step { state: FlowState::AwaitingGuilds(t), action: Action::FetchGuilds(again) }
        },
        None => finish(Action::Respond(Response::Redirect("/".to_owned()))),
    }
}

/// Continues after the guild list: a member's profile is asked for, anyone
/// else is served the denial.
pub fn after_guilds(token: String, guilds: Option<Vec<u64>>, guild_id: &str) -> (r: Step)
    ensures
        r@ == admitted(
            token@,
            match guilds {
                Some(g) => Some(g@),
                None => None,
            },
            guild_id@,
        ),
{
    match guilds {
        None => finish(Action::Abort(FlowError::UpstreamFetchFailed)),
        Some(list) => match parse_decimal(guild_id) {
            None => finish(Action::Abort(FlowError::Configuration)),
            Some(target) => if is_member(&list, target) {
                Step { state: FlowState::AwaitingProfile, action: Action::FetchProfile(token) }
            } else {
                finish(Action::Respond(Response::Content("not authorized for this context".to_owned())))
            },
        },
    }
}

/// Continues after the profile: decodes the signing secret, signs the profile
/// and hands out the fields of the form page.
pub fn after_profile(profile: Option<UserProfile>, secret_key: &str, form_embed_url: &str) -> (r: Step)
    ensures
        r@ == issued(
            match profile {
                Some(p) => Some(p@),
                None => None,
            },
            secret_key@,
            form_embed_url@,
        ),
{
    match profile {
        None => finish(Action::Abort(FlowError::UpstreamFetchFailed)),
        Some(p) => match base64_decode(secret_key) {
            None => finish(Action::Abort(FlowError::Configuration)),
            Some(key) => match sign(&p, &key) {
                Err(_) => finish(Action::Abort(FlowError::Signing)),
                Ok(token) => finish(
                    Action::RenderForm(FormTemplate::for_profile(p, token, form_embed_url.to_owned())),
                ),
            },
        },
    }
}

/// Takes the step that follows `state` on `event`. An event that the state
/// does not wait for ends the request.
pub fn step(state: FlowState, event: Event, settings: &Settings) -> (r: Step)
    ensures
        r@ == advance(state@, event@, settings@),
{
    match state {
        FlowState::AwaitingToken => match event {
            Event::TokenExchanged(token) => after_exchange(token),
            _ => finish(Action::Abort(FlowError::UnexpectedEvent)),
        },
        FlowState::AwaitingGuilds(token) => match event {
            Event::GuildsFetched(guilds) => after_guilds(token, guilds, settings.guild_id.as_str()),
            _ => finish(Action::Abort(FlowError::UnexpectedEvent)),
        },
        FlowState::AwaitingProfile => match event {
            Event::ProfileFetched(profile) => after_profile(
                profile,
                settings.secret_key.as_str(),
                settings.form_embed_url.as_str(),
            ),
            _ => finish(Action::Abort(FlowError::UnexpectedEvent)),
        },
        FlowState::Finished => finish(Action::Abort(FlowError::UnexpectedEvent)),
    }
}

/// A path that is neither the entry nor the callback path ends the request at
/// once with status 501: nothing is asked of the provider, whatever the query,
/// the configuration and the anti-forgery value.
pub proof fn unknown_path_not_implemented(url: RequestUrlView, config: ConfigView, csrf: Seq<char>)
    requires
        url.path != "/"@,
        url.path != "/oauth/authorize"@,
    ensures
        opening(url, config, csrf) == finished(ActionView::Respond(ResponseView::StatusCode(501))),
        envelope_of(ResponseView::StatusCode(501)).status == 501,
        envelope_of(ResponseView::StatusCode(501)).headers.len() == 0,
{
}

/// The entry path is answered with a 307 redirect whose `Location` is the
/// provider's authorization address for the configured client and redirect
/// address and exactly the scopes `identify`, `email` and `guilds`.
pub proof fn entry_redirects_to_provider(url: RequestUrlView, config: ConfigView, csrf: Seq<char>, target: Seq<char>)
    requires
        url.path == "/"@,
        authorize_url_of(
            config.auth_url,
            config.client_id,
            config.redirect_url,
            seq!["identify"@, "email"@, "guilds"@],
            csrf,
        ) == Some(target),
    ensures
        opening(url, config, csrf) == finished(ActionView::Respond(ResponseView::Redirect(target))),
        envelope_of(ResponseView::Redirect(target)).status == 307,
        envelope_of(ResponseView::Redirect(target)).headers == seq![("Location"@, target)],
        envelope_of(ResponseView::Redirect(target)).body is None,
{
}

/// A callback without a `code` parameter ends the request at once with
/// [`FlowError::MissingParameter`]: no exchange and no fetch is asked for.
pub proof fn missing_code_is_fatal(url: RequestUrlView, config: ConfigView, csrf: Seq<char>)
    requires
        url.path == "/oauth/authorize"@,
        forall|i: int| 0 <= i < url.query.len() ==> url.query[i].0 != "code"@,
    ensures
        opening(url, config, csrf) == finished(ActionView::Abort(FlowError::MissingParameter)),
{
    reveal_strlit("/");
    reveal_strlit("/oauth/authorize");
    assert("/"@.len() != "/oauth/authorize"@.len());
    last_value_none(url.query, "code"@);
}

/// A callback with a `code` parameter asks for the exchange of the value of
/// its last occurrence, and of nothing else.
pub proof fn callback_exchanges_last_code(url: RequestUrlView, config: ConfigView, csrf: Seq<char>)
    requires
        url.path == "/oauth/authorize"@,
        last_value(url.query, "code"@) is Some,
    ensures
        opening(url, config, csrf) == (StepView {
            state: FlowStateView::AwaitingToken,
            action: ActionView::ExchangeCode(last_value(url.query, "code"@)->0),
        }),
{
    reveal_strlit("/");
    reveal_strlit("/oauth/authorize");
    assert("/"@.len() != "/oauth/authorize"@.len());
}

/// A failed token exchange is answered with a 307 redirect to the entry path,
/// never with an error status.
pub proof fn failed_exchange_redirects_home(settings: SettingsView)
    ensures
        advance(FlowStateView::AwaitingToken, EventView::TokenExchanged(None), settings) == finished(
            ActionView::Respond(ResponseView::Redirect("/"@)),
        ),
        envelope_of(ResponseView::Redirect("/"@)).status == 307,
        envelope_of(ResponseView::Redirect("/"@)).headers == seq![("Location"@, "/"@)],
{
}

/// A user whose guild list lacks the target guild is served the denial with
/// status 200, and the request ends there: no profile is fetched and no token
/// is signed.
pub proof fn non_member_is_denied(token: Seq<char>, guilds: Seq<u64>, target: u64, settings: SettingsView)
    requires
        decimal_u64(settings.guild_id) == Some(target),
        !guilds.contains(target),
    ensures
        advance(FlowStateView::AwaitingGuilds(token), EventView::GuildsFetched(Some(guilds)), settings)
            == finished(ActionView::Respond(ResponseView::Content(denial()))),
        envelope_of(ResponseView::Content(denial())).status == 200,
        envelope_of(ResponseView::Content(denial())).body == Some(denial()),
{
}

/// A member of the target guild has the profile fetched with the very token
/// that fetched the guild list.
pub proof fn member_proceeds(token: Seq<char>, guilds: Seq<u64>, target: u64, settings: SettingsView)
    requires
        decimal_u64(settings.guild_id) == Some(target),
        guilds.contains(target),
    ensures
        advance(FlowStateView::AwaitingGuilds(token), EventView::GuildsFetched(Some(guilds)), settings) == (StepView {
            state: FlowStateView::AwaitingProfile,
            action: ActionView::FetchProfile(token),
        }),
{
}

/// A failed fetch of the guild list or of the profile is fatal: it is never
/// turned into a response.
pub proof fn failed_fetch_is_fatal(token: Seq<char>, settings: SettingsView)
    ensures
        advance(FlowStateView::AwaitingGuilds(token), EventView::GuildsFetched(None), settings) == finished(
            ActionView::Abort(FlowError::UpstreamFetchFailed),
        ),
        advance(FlowStateView::AwaitingProfile, EventView::ProfileFetched(None), settings) == finished(
            ActionView::Abort(FlowError::UpstreamFetchFailed),
        ),
{
}

/// A signing secret that decodes to fewer than [`MIN_KEY_LEN`] bytes always
/// ends the request with [`FlowError::Signing`], an outcome that carries no
/// text at all: neither a token nor any part of the key reaches a response.
pub proof fn short_key_aborts(profile: ProfileView, key: Seq<u8>, settings: SettingsView)
    requires
        base64_decoded(settings.secret_key) == Some(key),
        key.len() < MIN_KEY_LEN,
    ensures
        advance(FlowStateView::AwaitingProfile, EventView::ProfileFetched(Some(profile)), settings) == finished(
            ActionView::Abort(FlowError::Signing),
        ),
{
}

/// The form page carries the token signed for exactly the fetched profile,
/// and the placeholder text where that profile has no email address.
pub proof fn issued_form_binds_profile(profile: ProfileView, key: Seq<u8>, token: Seq<char>, settings: SettingsView)
    requires
        base64_decoded(settings.secret_key) == Some(key),
        signed(profile, key) == Ok::<Seq<char>, SigningError>(token),
    ensures
        advance(FlowStateView::AwaitingProfile, EventView::ProfileFetched(Some(profile)), settings) == finished(
            ActionView::RenderForm(form_for(profile, token, settings.form_embed_url)),
        ),
        form_for(profile, token, settings.form_embed_url).token == token,
        form_for(profile, token, settings.form_embed_url).username == profile.name,
        profile.email is None ==> form_for(profile, token, settings.form_embed_url).email == no_email(),
{
}

/// The first step does not depend on the client secret nor on the token
/// endpoint: neither can reach the redirect sent to the user.
pub proof fn opening_ignores_secret(url: RequestUrlView, a: ConfigView, b: ConfigView, csrf: Seq<char>)
    requires
        a.client_id == b.client_id,
        a.auth_url == b.auth_url,
        a.redirect_url == b.redirect_url,
    ensures
        opening(url, a, csrf) == opening(url, b, csrf),
{
}

/// After the first step the only responses are the redirect to the entry
/// path and the denial: two fixed texts, so that no access token, signing
/// secret or signed token ever stands in a response made here. A signed
/// token leaves only inside the fields of the form page.
pub proof fn responses_carry_no_secret(state: FlowStateView, event: EventView, settings: SettingsView)
    ensures
        advance(state, event, settings).action matches ActionView::Respond(r) ==> r == ResponseView::Redirect("/"@)
            || r == ResponseView::Content(denial()),
{
}

/// Every step either ends the request or asks for exactly one piece of
/// outside work, and a finished request takes no further work.
pub proof fn steps_end_or_ask(state: FlowStateView, event: EventView, settings: SettingsView)
    ensures
        ({
            let next = advance(state, event, settings);
            match next.action {
                ActionView::ExchangeCode(_) => false,
                ActionView::FetchGuilds(t) => next.state == FlowStateView::AwaitingGuilds(t),
                ActionView::FetchProfile(_) => next.state == FlowStateView::AwaitingProfile,
                _ => next.state == FlowStateView::Finished,
            }
        }),
        state == FlowStateView::Finished ==> advance(state, event, settings) == finished(
            ActionView::Abort(FlowError::UnexpectedEvent),
        ),
{
}

} // verus!
