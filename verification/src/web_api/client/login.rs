//! The login protocol as a state machine. A step takes the state and what the
//! transport brought back, and gives the next state and what to do next; the
//! caller does the sending.
//!
//! A login begins with [`Client::login`] and moves by [`LoginFlow::step`] only,
//! so that it is in a state of the protocol at all times: no credentials are
//! submitted before the root page has given a CSRF token.

use vstd::prelude::*;
use crate::web_api::client::authenticated::{AuthenticatedClient, AuthenticatedClientView};
use crate::web_api::client::{
    lemma_acquired_clean, lemma_login_request_carries_token, Client, ClientView,
};
use crate::web_api::credentials::Credentials;
use crate::web_api::decode::Decode;
use crate::web_api::error::ClientError;
use crate::web_api::http::{
    HttpBodyView, HttpOutcome, HttpOutcomeView, HttpRequest, HttpRequestView,
};
use crate::web_api::response::{
    LoginResponse, LoginResponseView, TwoFactorRequiredResponse, TwoFactorRequiredResponseView,
};
use crate::web_api::scrape::{
    csrf_marker, field_at, is_token, is_token_char, lemma_scraped_iff_field, lemma_scraped_token,
};

verus! {

/// Where a login stands.
#[derive(Debug, PartialEq)]
pub enum LoginState {
    /// Nothing has been sent.
    Unauthenticated(Client),
    /// The root page has been asked for.
    CsrfPending(Client),
    /// The root page has given a CSRF token.
    CsrfAcquired(Client),
    /// The credentials have been submitted.
    LoginSubmitted(Client),
    /// The session is open.
    Authenticated(AuthenticatedClient),
    /// The account asks for a second factor. The login ends here.
    TwoFactorRequired(TwoFactorRequiredResponse),
    /// The login has failed.
    Failed(ClientError),
}

/// The mathematical value of a [`LoginState`], and of a [`LoginFlow`] in that state.
pub enum LoginStateView {
    Unauthenticated(ClientView),
    CsrfPending(ClientView),
    CsrfAcquired(ClientView),
    LoginSubmitted(ClientView),
    Authenticated(AuthenticatedClientView),
    TwoFactorRequired(TwoFactorRequiredResponseView),
    Failed(ClientError),
}

impl View for LoginState {
    type V = LoginStateView;

    open spec fn view(&self) -> LoginStateView {
        match self {
            LoginState::Unauthenticated(client) => LoginStateView::Unauthenticated(client@),
            LoginState::CsrfPending(client) => LoginStateView::CsrfPending(client@),
            LoginState::CsrfAcquired(client) => LoginStateView::CsrfAcquired(client@),
            LoginState::LoginSubmitted(client) => LoginStateView::LoginSubmitted(client@),
            LoginState::Authenticated(client) => LoginStateView::Authenticated(client@),
            LoginState::TwoFactorRequired(challenge) => LoginStateView::TwoFactorRequired(
                challenge@,
            ),
            LoginState::Failed(e) => LoginStateView::Failed(*e),
        }
    }
}

/// A login under way. It is in a state of the protocol at all times: it
/// begins with a client that has sent nothing, and moves by steps only.
#[derive(Debug, PartialEq)]
pub struct LoginFlow {
    state: LoginState,
}

impl View for LoginFlow {
    type V = LoginStateView;

    closed spec fn view(&self) -> LoginStateView {
        self.state@
    }
}

/// What the caller is to do after a step.
#[derive(Debug, PartialEq)]
pub enum LoginAction {
    /// Send this request, and step again with what came of it.
    Send(HttpRequest),
    /// Step again, with nothing.
    Proceed,
    /// Stop: the login has ended.
    Finish,
}

/// The mathematical value of a [`LoginAction`].
pub enum LoginActionView {
    Send(HttpRequestView),
    Proceed,
    Finish,
}

impl View for LoginAction {
    type V = LoginActionView;

    open spec fn view(&self) -> LoginActionView {
        match self {
            LoginAction::Send(request) => LoginActionView::Send(request@),
            LoginAction::Proceed => LoginActionView::Proceed,
            LoginAction::Finish => LoginActionView::Finish,
        }
    }
}

/// The text of the reply that `event` brought, if it brought one with text.
pub open spec fn text_of(event: Option<HttpOutcomeView>) -> Option<Seq<char>> {
    match event {
        Some(outcome) => outcome.text(),
        None => None,
    }
}

impl LoginStateView {
    /// Whether the login has ended.
    pub open spec fn ended(self) -> bool {
        self is Authenticated || self is TwoFactorRequired || self is Failed
    }

    /// Whether the state is one that the protocol can be in: what the client
    /// holds of a session are tokens, and a client that is about to submit, or
    /// has submitted, holds a CSRF token.
    pub open spec fn valid(self) -> bool {
        match self {
            LoginStateView::Unauthenticated(client) => client.clean(),
            LoginStateView::CsrfPending(client) => client.clean(),
            LoginStateView::CsrfAcquired(client) => client.clean() && client.csrf_token is Some,
            LoginStateView::LoginSubmitted(client) => client.clean() && client.csrf_token is Some,
            LoginStateView::Authenticated(client) => client.base_client.clean()
                && client.base_client.csrf_token is Some,
            LoginStateView::TwoFactorRequired(_) => true,
            LoginStateView::Failed(_) => true,
        }
    }

    /// How the login ended, once it has.
    pub open spec fn result(self) -> Option<Result<AuthenticatedClientView, ClientError>> {
        match self {
            LoginStateView::Authenticated(client) => Some(Ok(client)),
            LoginStateView::TwoFactorRequired(_) => Some(Err(ClientError::UnableToPerform2FA)),
            LoginStateView::Failed(e) => Some(Err(e)),
            _ => None,
        }
    }

    /// The state after the root page was asked for and `event` came back. A
    /// page with a CSRF token leads on; a page without one fails the login for
    /// want of the token; anything but a page fails it as a failed request.
    pub open spec fn after_root_page(client: ClientView, event: Option<HttpOutcomeView>) -> (
        LoginStateView,
        LoginActionView,
    ) {
        match text_of(event) {
            Some(body) => if client.acquired(body).csrf_token is Some {
                (LoginStateView::CsrfAcquired(client.acquired(body)), LoginActionView::Proceed)
            } else {
                (LoginStateView::Failed(ClientError::UnableToGetCsrfToken), LoginActionView::Finish)
            },
            None => (LoginStateView::Failed(ClientError::HttpRequest), LoginActionView::Finish),
        }
    }

    /// The state after the credentials were submitted and `event` came back.
    /// A body of the shape of a success opens the session, whatever its status;
    /// one of the shape of a challenge ends the login there; anything else fails
    /// it as a failed request.
    pub open spec fn after_submission(client: ClientView, event: Option<HttpOutcomeView>) -> (
        LoginStateView,
        LoginActionView,
    ) {
        let state = match event {
            Some(HttpOutcomeView::Reply { status, body: HttpBodyView::Json(j) }) => {
                match LoginResponse::parse(j) {
                    Ok(LoginResponseView::Success(_)) => LoginStateView::Authenticated(
                        AuthenticatedClientView::over(client),
                    ),
                    Ok(LoginResponseView::TwoFactorNeeded(challenge)) => {
                        LoginStateView::TwoFactorRequired(challenge)
                    },
                    Err(_) => LoginStateView::Failed(ClientError::HttpRequest),
                }
            },
            _ => LoginStateView::Failed(ClientError::HttpRequest),
        };
        (state, LoginActionView::Finish)
    }

    /// One step of the protocol: the next state, and what the caller is to do.
    /// `event` is what came of the request that the step before asked for, and
    /// nothing where it asked for none.
    pub open spec fn step(
        self,
        username: Seq<char>,
        password: Seq<char>,
        event: Option<HttpOutcomeView>,
    ) -> (LoginStateView, LoginActionView) {
        match self {
            LoginStateView::Unauthenticated(client) => (
                LoginStateView::CsrfPending(client),
                LoginActionView::Send(client.root_page_request()),
            ),
            LoginStateView::CsrfPending(client) => Self::after_root_page(client, event),
            LoginStateView::CsrfAcquired(client) => (
                LoginStateView::LoginSubmitted(client),
                LoginActionView::Send(client.login_request(username, password)),
            ),
            LoginStateView::LoginSubmitted(client) => Self::after_submission(client, event),
            _ => (self, LoginActionView::Finish),
        }
    }
}

/// A step leads from a state of the protocol to a state of the protocol.
pub proof fn lemma_step_keeps_valid(
    flow: LoginStateView,
    username: Seq<char>,
    password: Seq<char>,
    event: Option<HttpOutcomeView>,
)
    requires
        flow.valid(),
    ensures
        flow.step(username, password, event).0.valid(),
{
    if let LoginStateView::CsrfPending(client) = flow {
        if let Some(body) = text_of(event) {
            lemma_acquired_clean(client, body);
        }
    }
}

/// Credentials are only ever submitted by a client that holds a CSRF token: a
/// step sends a request in two states only, the first for the root page, and
/// the second, the submission, from a state in which the token is held.
pub proof fn lemma_submission_needs_token(
    flow: LoginStateView,
    username: Seq<char>,
    password: Seq<char>,
    event: Option<HttpOutcomeView>,
)
    requires
        flow.valid(),
    ensures
        match flow.step(username, password, event).1 {
            LoginActionView::Send(request) => {
                ||| flow matches LoginStateView::Unauthenticated(client) && request
                    == client.root_page_request()
                ||| flow matches LoginStateView::CsrfAcquired(client) && request
                    == client.login_request(username, password) && client.csrf_token is Some
            },
            _ => true,
        },
{
}

/// The submission carries the CSRF token that the root page gave: whenever a
/// step from a state of the protocol sends a request that is not the one for
/// the root page, the request has the token of the client in `x-csrftoken`.
pub proof fn lemma_submission_carries_token(
    flow: LoginStateView,
    username: Seq<char>,
    password: Seq<char>,
    event: Option<HttpOutcomeView>,
)
    requires
        flow.valid(),
    ensures
        flow.step(username, password, event).1 matches LoginActionView::Send(request) ==> {
            ||| flow is Unauthenticated
            ||| flow matches LoginStateView::CsrfAcquired(client) && client.csrf_token matches Some(
                token,
            ) && request.headers.contains_pair("x-csrftoken"@, token)
        },
{
    if let LoginStateView::CsrfAcquired(client) = flow {
        lemma_login_request_carries_token(client, username, password);
    }
}

/// A root page without a CSRF field fails the login: the error names the
/// missing token, and no request is asked for, then or after.
pub proof fn lemma_no_token_no_submission(
    client: ClientView,
    username: Seq<char>,
    password: Seq<char>,
    status: u16,
    body: Seq<char>,
    later: Option<HttpOutcomeView>,
)
    requires
        forall|at: int| !field_at(body, csrf_marker(), at),
    ensures
        ({
            let page = Some(HttpOutcomeView::Reply { status, body: HttpBodyView::Text(body) });
            let pending = LoginStateView::CsrfPending(client);
            let (failed, action) = pending.step(username, password, page);
            &&& failed == LoginStateView::Failed(ClientError::UnableToGetCsrfToken)
            &&& action == LoginActionView::Finish
            &&& failed.result() == Some(
                Err::<AuthenticatedClientView, ClientError>(ClientError::UnableToGetCsrfToken),
            )
            &&& failed.step(username, password, later) == (failed, LoginActionView::Finish)
        }),
{
    lemma_scraped_iff_field(body, csrf_marker());
}

/// A root page that holds the CSRF marker and then a token of letters and
/// digits that ends there gives that token to the client, whatever stands
/// before and after, as long as no field begins before that marker. The login
/// goes on with it.
pub proof fn lemma_root_page_gives_token(
    client: ClientView,
    username: Seq<char>,
    password: Seq<char>,
    status: u16,
    before: Seq<char>,
    token: Seq<char>,
    after: Seq<char>,
)
    requires
        is_token(token),
        after.len() > 0 ==> !is_token_char(after[0]),
        forall|at: int|
            0 <= at < before.len() ==> !field_at(
                before + csrf_marker() + token + after,
                csrf_marker(),
                at,
            ),
    ensures
        ({
            let body = before + csrf_marker() + token + after;
            let page = Some(HttpOutcomeView::Reply { status, body: HttpBodyView::Text(body) });
            let (next, action) = LoginStateView::CsrfPending(client).step(username, password, page);
            &&& client.acquired(body).csrf_token == Some(token)
            &&& next == LoginStateView::CsrfAcquired(client.acquired(body))
            &&& action == LoginActionView::Proceed
        }),
{
    lemma_scraped_token(before, csrf_marker(), token, after);
}

/// A login ends within four steps, whatever comes back, and nothing is sent
/// twice: the first step asks for the root page, the second asks for nothing,
/// the third, if the login has not failed, submits the credentials with the
/// token that the page gave, and the fourth ends the login.
pub proof fn lemma_login_ends_without_retry(
    client: ClientView,
    username: Seq<char>,
    password: Seq<char>,
    first: Option<HttpOutcomeView>,
    second: Option<HttpOutcomeView>,
    third: Option<HttpOutcomeView>,
    fourth: Option<HttpOutcomeView>,
)
    ensures
        ({
            let begun = LoginStateView::Unauthenticated(client);
            let (asked, ask) = begun.step(username, password, first);
            let (read, wait) = asked.step(username, password, second);
            let (submitted, submit) = read.step(username, password, third);
            let (ended, stop) = submitted.step(username, password, fourth);
            &&& ask == LoginActionView::Send(client.root_page_request())
            &&& wait is Proceed || (wait is Finish && read.ended())
            &&& match submit {
                LoginActionView::Send(request) => read matches LoginStateView::CsrfAcquired(holder)
                    && holder.csrf_token is Some && request == holder.login_request(
                    username,
                    password,
                ),
                LoginActionView::Proceed => false,
                LoginActionView::Finish => submitted == read && read.ended(),
            }
            &&& ended.ended()
            &&& stop is Finish
            &&& ended.result() is Some
        }),
{
}

/// A login that has ended stays as it is, and asks for nothing more.
pub proof fn lemma_ended_stays(
    flow: LoginStateView,
    username: Seq<char>,
    password: Seq<char>,
    event: Option<HttpOutcomeView>,
)
    requires
        flow.ended(),
    ensures
        flow.step(username, password, event) == (flow, LoginActionView::Finish),
        flow.result() is Some,
{
}

impl LoginFlow {
    /// The state is one that the protocol can be in: a client that is about to
    /// submit its credentials, or has done so, holds a CSRF token.
    #[verifier::type_invariant]
    spec fn in_protocol(self) -> bool {
        self@.valid()
    }

    /// The login of `client`, before anything is sent.
    pub(crate) fn begin(client: Client) -> (flow: LoginFlow)
        ensures
            flow@ == LoginStateView::Unauthenticated(client@),
            flow@.valid(),
    {
        proof {
            use_type_invariant(&client);
        }
        LoginFlow { state: LoginState::Unauthenticated(client) }
    }

    /// The state that the login is in.
    pub fn state(&self) -> (state: &LoginState)
        ensures
            state@ == self@,
            self@.valid(),
    {
        proof {
            use_type_invariant(self);
        }
        &self.state
    }

    /// One step of the protocol: the next state, and what the caller is to do.
    /// `event` is what came of the request that the step before asked for, and
    /// nothing where it asked for none.
    pub fn step(self, credentials: &Credentials<'_>, event: Option<HttpOutcome>) -> (next: (
        LoginFlow,
        LoginAction,
    ))
        ensures
            (next.0@, next.1@) == self@.step(
                credentials.username@,
                credentials.password@,
                event.deep_view(),
            ),
            self@.valid(),
            next.0@.valid(),
            next.1@ matches LoginActionView::Send(request) ==> self@ is Unauthenticated
                || request.headers.contains_key("x-csrftoken"@),
    {
        proof {
            use_type_invariant(&self);
            lemma_step_keeps_valid(
                self@,
                credentials.username@,
                credentials.password@,
                event.deep_view(),
            );
            lemma_submission_carries_token(
                self@,
                credentials.username@,
                credentials.password@,
                event.deep_view(),
            );
        }
        match self.state {
            LoginState::Unauthenticated(client) => {
                let request = client.root_page_request();
                (LoginFlow { state: LoginState::CsrfPending(client) }, LoginAction::Send(request))
            },
            LoginState::CsrfPending(client) => {
                let body = match &event {
                    Some(outcome) => outcome.text(),
                    None => None,
                };
                match body {
                    Some(body) => {
                        let client = client.acquire(body);
                        if client.csrf_token().is_some() {
                            (
                                LoginFlow { state: LoginState::CsrfAcquired(client) },
                                LoginAction::Proceed,
                            )
                        } else {
                            (
                                LoginFlow {
                                    state: LoginState::Failed(ClientError::UnableToGetCsrfToken),
                                },
                                LoginAction::Finish,
                            )
                        }
                    },
                    None => (
                        LoginFlow { state: LoginState::Failed(ClientError::HttpRequest) },
                        LoginAction::Finish,
                    ),
                }
            },
            LoginState::CsrfAcquired(client) => {
                let request = client.login_request(credentials);
                (
                    LoginFlow { state: LoginState::LoginSubmitted(client) },
                    LoginAction::Send(request),
                )
            },
            LoginState::LoginSubmitted(client) => {
                let reply = match &event {
                    Some(outcome) => outcome.json(),
                    None => None,
                };
                let state = match reply {
                    Some(j) => match LoginResponse::decode(j) {
                        Ok(LoginResponse::Success(infos)) => {
                            match AuthenticatedClient::from_login_infos(client, &infos) {
                                Ok(authenticated) => LoginState::Authenticated(authenticated),
                                Err(e) => LoginState::Failed(e),
                            }
                        },
                        Ok(LoginResponse::TwoFactorNeeded(challenge)) => {
                            LoginState::TwoFactorRequired(challenge)
                        },
                        Err(_) => LoginState::Failed(ClientError::HttpRequest),
                    },
                    None => LoginState::Failed(ClientError::HttpRequest),
                };
                (LoginFlow { state }, LoginAction::Finish)
            },
            ended => (LoginFlow { state: ended }, LoginAction::Finish),
        }
    }

    /// How the login ended, once it has: the authenticated client, or why there
    /// is none. A challenge for a second factor is an error of its own.
    pub fn result(self) -> (r: Option<Result<AuthenticatedClient, ClientError>>)
        ensures
            match r {
                Some(Ok(client)) => self@.result() == Some(
                    Ok::<AuthenticatedClientView, ClientError>(client@),
                ),
                Some(Err(e)) => self@.result() == Some(
                    Err::<AuthenticatedClientView, ClientError>(e),
                ),
                None => self@.result() is None,
            },
    {
        match self.state {
            LoginState::Authenticated(client) => Some(Ok(client)),
            LoginState::TwoFactorRequired(_) => Some(Err(ClientError::UnableToPerform2FA)),
            LoginState::Failed(e) => Some(Err(e)),
            _ => None,
        }
    }
}

} // verus!
