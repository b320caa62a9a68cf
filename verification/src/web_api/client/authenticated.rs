use vstd::prelude::*;
use crate::web_api::behaviour::{FetchUserFeed, FetchUserInfos};
use crate::web_api::client::{Client, ClientView};
use crate::web_api::domain::infos::{LoginInfos, UserInfos};
use crate::web_api::domain::UserFeed;
use crate::web_api::error::ClientError;
use crate::web_api::http::{HttpOutcome, HttpRequest};
use crate::web_api::options::FetchUserFeedOptions;
use crate::web_api::response::UserInfosError;

verus! {

/// A client that has logged in. It owns the client that it was made from, and
/// with it what that client learnt of the session.
#[derive(PartialEq, Debug)]
pub struct AuthenticatedClient {
    base_client: Client,
    csrf_token: Option<String>,
    init_csrf_token: Option<String>,
    rollout_hash: Option<String>,
}

/// The mathematical value of an [`AuthenticatedClient`].
pub struct AuthenticatedClientView {
    /// The client that logged in, as the login left it.
    pub base_client: ClientView,
    /// The CSRF token of the authenticated session, once a call has renewed it.
    pub csrf_token: Option<Seq<char>>,
    pub init_csrf_token: Option<Seq<char>>,
    pub rollout_hash: Option<Seq<char>>,
}

impl View for AuthenticatedClient {
    type V = AuthenticatedClientView;

    closed spec fn view(&self) -> AuthenticatedClientView {
        AuthenticatedClientView {
            base_client: self.base_client@,
            csrf_token: self.csrf_token.deep_view(),
            init_csrf_token: self.init_csrf_token.deep_view(),
            rollout_hash: self.rollout_hash.deep_view(),
        }
    }
}

impl DeepView for AuthenticatedClient {
    type V = AuthenticatedClientView;

    open spec fn deep_view(&self) -> AuthenticatedClientView {
        self@
    }
}

impl AuthenticatedClientView {
    /// The authenticated client that `client` becomes: it keeps `client` whole,
    /// and has renewed nothing yet.
    pub open spec fn over(client: ClientView) -> AuthenticatedClientView {
        AuthenticatedClientView {
            base_client: client,
            csrf_token: None,
            init_csrf_token: None,
            rollout_hash: None,
        }
    }
}

impl AuthenticatedClient {
    /// The authenticated client that `client` becomes once the login endpoint
    /// has answered with `_login_info`. Whatever the answer holds, this succeeds.
    pub fn from_login_infos(client: Client, _login_info: &LoginInfos) -> (r: Result<
        Self,
        ClientError,
    >)
        ensures
            r matches Ok(authenticated) && authenticated@ == AuthenticatedClientView::over(client@),
    {
        Ok(
            Self {
                base_client: client,
                csrf_token: None,
                init_csrf_token: None,
                rollout_hash: None,
            },
        )
    }

    /// The client that logged in, as the login left it.
    pub fn base_client(&self) -> (client: &Client)
        ensures
            client@ == self@.base_client,
    {
        &self.base_client
    }
}

impl FetchUserInfos for AuthenticatedClient {
    open spec fn api_url(&self) -> Seq<char> {
        self@.base_client.api_url
    }

    fn user_infos_request(&self, username: &str) -> (request: HttpRequest) {
        self.base_client.user_infos_request(username)
    }

    fn read_user_infos(&self, outcome: &HttpOutcome) -> (r: Result<UserInfos, UserInfosError>) {
        self.base_client.read_user_infos(outcome)
    }
}

impl FetchUserFeed for AuthenticatedClient {
    open spec fn graphql_api_url(&self) -> Seq<char> {
        self@.base_client.graphql_api_url
    }

    fn user_feed_request<'a>(
        &self,
        user_id: &'a str,
        options: Option<FetchUserFeedOptions<'a, '_>>,
    ) -> (request: HttpRequest) {
        self.base_client.user_feed_request(user_id, options)
    }

    fn read_user_feed(&self, outcome: &HttpOutcome) -> (r: Result<UserFeed, ClientError>) {
        self.base_client.read_user_feed(outcome)
    }
}

} // verus!
