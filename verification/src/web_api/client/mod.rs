//! The client before a login: where it sends its requests, and what it has
//! learnt of the session so far.

use reqwest::header::HeaderMap;
use vstd::prelude::*;
use crate::web_api::behaviour::{
    build_feed_request, build_profile_request, read_feed, read_profile, FetchUserFeed,
    FetchUserInfos,
};
use crate::web_api::credentials::Credentials;
use crate::web_api::domain::infos::UserInfos;
use crate::web_api::domain::UserFeed;
use crate::web_api::error::ClientError;
use crate::web_api::http::{
    cookie_line, cookie_text, header_count, header_entries, header_if_valid, insert_header,
    insert_header_if_valid, is_header_name, is_header_text, no_header_entries, no_headers,
    push_pair, BodyKind, HttpOutcome, HttpRequest, HttpRequestView, Method, Operation, Transport,
};
use crate::web_api::options::FetchUserFeedOptions;
use crate::web_api::response::UserInfosError;
use crate::web_api::scrape::{
    csrf_marker, is_token, lemma_scraped_is_token, rollout_marker, scrape_csrf_token,
    scrape_rollout_hash, scraped,
};
use crate::web_api::text::joined;

pub mod authenticated;
pub mod builder;
pub mod login;

pub use authenticated::AuthenticatedClient;
pub use builder::ClientBuilder;
pub use login::LoginFlow;

verus! {

/// A client that has not logged in.
#[derive(PartialEq, Debug)]
pub struct Client {
    api_url: String,
    graphql_api_url: String,
    csrf_token: Option<String>,
    init_csrf_token: Option<String>,
    rollout_hash: Option<String>,
}

/// The mathematical value of a [`Client`].
pub struct ClientView {
    /// The base URL of the site.
    pub api_url: Seq<char>,
    /// The URL of the query endpoint.
    pub graphql_api_url: Seq<char>,
    /// The CSRF token in use, once the root page has given one.
    pub csrf_token: Option<Seq<char>>,
    /// The CSRF token that the root page gave first.
    pub init_csrf_token: Option<Seq<char>>,
    /// The rollout hash of the site, where the root page gave one.
    pub rollout_hash: Option<Seq<char>>,
}

impl View for Client {
    type V = ClientView;

    closed spec fn view(&self) -> ClientView {
        ClientView {
            api_url: self.api_url@,
            graphql_api_url: self.graphql_api_url@,
            csrf_token: self.csrf_token.deep_view(),
            init_csrf_token: self.init_csrf_token.deep_view(),
            rollout_hash: self.rollout_hash.deep_view(),
        }
    }
}

impl DeepView for Client {
    type V = ClientView;

    open spec fn deep_view(&self) -> ClientView {
        self@
    }
}

/// The base URL of the platform.
pub open spec fn default_api_url() -> Seq<char> {
    "https://www.instagram.com"@
}

/// The URL of the query endpoint of the platform.
pub open spec fn default_graphql_api_url() -> Seq<char> {
    "https://www.instagram.com/graphql/query"@
}

/// The headers that every request of a session carries.
pub open spec fn session_headers() -> Map<Seq<char>, Seq<char>> {
    no_header_entries().insert("accept"@, "*/*"@).insert(
        "accept-language"@,
        "en-US"@,
    ).insert("connection"@, "close"@).insert(
        "content-type"@,
        "application/x-www-form-urlencoded"@,
    )
}

/// The cookie that says that the cookie banner was answered.
pub open spec fn consent_cookie() -> Seq<char> {
    cookie_text("ig_cb"@, "1"@, "www.instagram.com"@, "/"@, false)
}

impl ClientView {
    /// A client for these URLs that knows nothing of a session yet.
    pub open spec fn fresh(api_url: Seq<char>, graphql_api_url: Seq<char>) -> ClientView {
        ClientView {
            api_url,
            graphql_api_url,
            csrf_token: None,
            init_csrf_token: None,
            rollout_hash: None,
        }
    }

    /// Whether what the client holds of a session are tokens: letters and digits.
    pub open spec fn clean(self) -> bool {
        &&& self.csrf_token matches Some(token) ==> is_token(token)
        &&& self.init_csrf_token matches Some(token) ==> is_token(token)
        &&& self.rollout_hash matches Some(hash) ==> is_token(hash)
    }

    /// The client after it has read the root page `body`: it holds the CSRF
    /// token of the page, as its current and as its first one, and the rollout
    /// hash of the page, each where the page has one.
    pub open spec fn acquired(self, body: Seq<char>) -> ClientView {
        ClientView {
            api_url: self.api_url,
            graphql_api_url: self.graphql_api_url,
            csrf_token: scraped(body, csrf_marker()),
            init_csrf_token: scraped(body, csrf_marker()),
            rollout_hash: scraped(body, rollout_marker()),
        }
    }

    /// The request for the root page.
    pub open spec fn root_page_request(self) -> HttpRequestView {
        HttpRequestView {
            operation: Operation::Login,
            method: Method::Get,
            url: self.api_url + "/"@,
            query: Seq::empty(),
            headers: session_headers(),
            form: Seq::empty(),
            transport: Transport::Session,
            expects: BodyKind::Text,
        }
    }

    /// The headers of the login submission: those of the session, the consent
    /// cookie, the CSRF token, the request marker, the rollout hash, and where
    /// the request comes from. A token or a hash that cannot be the value of a
    /// header is left out.
    pub open spec fn login_headers(self) -> Map<Seq<char>, Seq<char>> {
        let with_token = header_if_valid(
            session_headers().insert("cookie"@, consent_cookie()),
            "x-csrftoken"@,
            self.csrf_token,
        );
        let with_hash = header_if_valid(
            with_token.insert("x-request-with"@, "XMLHttpRequest"@),
            "x-instagram-ajax"@,
            self.rollout_hash,
        );
        with_hash.insert("referer"@, "https://www.instagram.com"@).insert(
            "authority"@,
            "www.instagram.com"@,
        ).insert("origin"@, "https://www.instagram.com"@)
    }

    /// The login submission: a POST of the name and the password as form fields.
    pub open spec fn login_request(
        self,
        username: Seq<char>,
        password: Seq<char>,
    ) -> HttpRequestView {
        HttpRequestView {
            operation: Operation::Login,
            method: Method::Post,
            url: self.api_url + "/accounts/login/ajax/"@,
            query: Seq::empty(),
            headers: self.login_headers(),
            form: seq![("username"@, username), ("password"@, password)],
            transport: Transport::Session,
            expects: BodyKind::Json,
        }
    }
}

/// A token can be the value of a header.
pub proof fn lemma_token_is_header_text(token: Seq<char>)
    requires
        is_token(token),
    ensures
        is_header_text(token),
{
}

/// What a client holds after it has read a root page are tokens.
pub proof fn lemma_acquired_clean(client: ClientView, body: Seq<char>)
    ensures
        client.acquired(body).clean(),
{
    lemma_scraped_is_token(body, csrf_marker());
    lemma_scraped_is_token(body, rollout_marker());
}

/// The consent cookie is `ig_cb=1; Path=/; Domain=www.instagram.com`, which can
/// be the value of a header.
pub proof fn lemma_consent_cookie()
    ensures
        consent_cookie() == "ig_cb=1; Path=/; Domain=www.instagram.com"@,
        is_header_text(consent_cookie()),
{
    reveal_strlit("ig_cb");
    reveal_strlit("1");
    reveal_strlit("www.instagram.com");
    reveal_strlit("/");
    reveal_strlit("=");
    reveal_strlit("; Path=");
    reveal_strlit("; Domain=");
    reveal_strlit("ig_cb=1; Path=/; Domain=www.instagram.com");
    assert(consent_cookie() =~= "ig_cb=1; Path=/; Domain=www.instagram.com"@);
}

/// The names and values of the headers that are fixed can stand in a map of
/// headers, and no two of the names are the same.
pub proof fn lemma_fixed_headers()
    ensures
        is_header_name("accept"@) && is_header_text("*/*"@),
        is_header_name("accept-language"@) && is_header_text("en-US"@),
        is_header_name("connection"@) && is_header_text("close"@),
        is_header_name("content-type"@) && is_header_text("application/x-www-form-urlencoded"@),
        is_header_name("cookie"@),
        is_header_name("x-csrftoken"@),
        is_header_name("x-request-with"@) && is_header_text("XMLHttpRequest"@),
        is_header_name("x-instagram-ajax"@),
        is_header_name("referer"@) && is_header_text("https://www.instagram.com"@),
        is_header_name("authority"@) && is_header_text("www.instagram.com"@),
        is_header_name("origin"@),
        "x-csrftoken"@ != "x-request-with"@,
        "x-csrftoken"@ != "x-instagram-ajax"@,
        "x-csrftoken"@ != "referer"@,
        "x-csrftoken"@ != "authority"@,
        "x-csrftoken"@ != "origin"@,
{
    reveal_strlit("accept");
    reveal_strlit("*/*");
    reveal_strlit("accept-language");
    reveal_strlit("en-US");
    reveal_strlit("connection");
    reveal_strlit("close");
    reveal_strlit("content-type");
    reveal_strlit("application/x-www-form-urlencoded");
    reveal_strlit("cookie");
    reveal_strlit("x-csrftoken");
    reveal_strlit("x-request-with");
    reveal_strlit("XMLHttpRequest");
    reveal_strlit("x-instagram-ajax");
    reveal_strlit("referer");
    reveal_strlit("https://www.instagram.com");
    reveal_strlit("authority");
    reveal_strlit("www.instagram.com");
    reveal_strlit("origin");
    assert("x-csrftoken"@[2] != "x-request-with"@[2]);
    assert("x-csrftoken"@[2] != "x-instagram-ajax"@[2]);
    assert("x-csrftoken"@[0] != "referer"@[0]);
    assert("x-csrftoken"@[0] != "authority"@[0]);
    assert("x-csrftoken"@[0] != "origin"@[0]);
}

/// The login submission of a client that holds a CSRF token carries that token
/// in the header `x-csrftoken`.
pub proof fn lemma_login_request_carries_token(
    client: ClientView,
    username: Seq<char>,
    password: Seq<char>,
)
    requires
        client.clean(),
        client.csrf_token is Some,
    ensures
        client.login_request(username, password).headers.contains_pair(
            "x-csrftoken"@,
            client.csrf_token->Some_0,
        ),
{
    lemma_token_is_header_text(client.csrf_token->Some_0);
    lemma_token_is_header_text_or_absent(client.rollout_hash);
    lemma_fixed_headers();
}

/// A hash that a client holds can be the value of a header.
proof fn lemma_token_is_header_text_or_absent(hash: Option<Seq<char>>)
    requires
        hash matches Some(hash) ==> is_token(hash),
    ensures
        hash matches Some(hash) ==> is_header_text(hash),
{
    if hash is Some {
        lemma_token_is_header_text(hash->Some_0);
    }
}

impl Default for Client {
    /// A client for the platform itself.
    fn default() -> (client: Self)
        ensures
            client@ == ClientView::fresh(default_api_url(), default_graphql_api_url()),
    {
        ClientBuilder::new().build()
    }
}

impl Client {
    /// What a client holds of a session are tokens, at all times.
    #[verifier::type_invariant]
    spec fn tokens_only(self) -> bool {
        self@.clean()
    }

    /// A client for the platform itself.
    #[must_use]
    pub fn new() -> (client: Self)
        ensures
            client@ == ClientView::fresh(default_api_url(), default_graphql_api_url()),
    {
        ClientBuilder::new().build()
    }

    /// A client for a site at `url`, with its query endpoint at `graphql_api_url`.
    #[must_use]
    pub fn new_with_url(url: &str, graphql_api_url: &str) -> (client: Self)
        ensures
            client@ == ClientView::fresh(url@, graphql_api_url@),
    {
        ClientBuilder::new().set_api_url(url).set_graphql_api_url(graphql_api_url).build()
    }

    /// A client for these URLs that knows nothing of a session yet.
    pub(crate) fn fresh(api_url: String, graphql_api_url: String) -> (client: Self)
        ensures
            client@ == ClientView::fresh(api_url@, graphql_api_url@),
    {
        Client {
            api_url,
            graphql_api_url,
            csrf_token: None,
            init_csrf_token: None,
            rollout_hash: None,
        }
    }

    /// The base URL of the site.
    #[must_use]
    pub fn get_api_url(&self) -> (url: &str)
        ensures
            url@ == self@.api_url,
    {
        self.api_url.as_str()
    }

    /// The CSRF token in use, once the root page has given one.
    pub fn csrf_token(&self) -> (token: Option<&str>)
        ensures
            token.deep_view() == self@.csrf_token,
            token matches Some(token) ==> is_token(token@),
    {
        proof {
            use_type_invariant(self);
        }
        match &self.csrf_token {
            Some(token) => Some(token.as_str()),
            None => None,
        }
    }

    /// The rollout hash of the site, where the root page gave one.
    pub fn rollout_hash(&self) -> (hash: Option<&str>)
        ensures
            hash.deep_view() == self@.rollout_hash,
            hash matches Some(hash) ==> is_token(hash@),
    {
        proof {
            use_type_invariant(self);
        }
        match &self.rollout_hash {
            Some(hash) => Some(hash.as_str()),
            None => None,
        }
    }

    /// Enters the login protocol. The client is given up to it: it comes back
    /// inside the authenticated client, or not at all.
    pub fn login(self) -> (flow: LoginFlow)
        ensures
            flow@ == login::LoginStateView::Unauthenticated(self@),
            flow@.valid(),
    {
        LoginFlow::begin(self)
    }

    /// The request for the root page, which holds the tokens of a session.
    pub fn root_page_request(&self) -> (request: HttpRequest)
        ensures
            request@ == self@.root_page_request(),
    {
        let request = HttpRequest {
            operation: Operation::Login,
            method: Method::Get,
            url: joined(self.api_url.as_str(), "/"),
            query: Vec::new(),
            headers: session_header_map(),
            form: Vec::new(),
            transport: Transport::Session,
            expects: BodyKind::Text,
        };
        proof {
            let wanted = self@.root_page_request();
            assert(request@.query =~= wanted.query);
            assert(request@.form =~= wanted.form);
        }
        request
    }

    /// The client after it has read the root page `body`.
    pub fn acquire(self, body: &str) -> (client: Client)
        ensures
            client@ == self@.acquired(body@),
            client@.clean(),
    {
        proof {
            lemma_acquired_clean(self@, body@);
        }
        let (csrf_token, init_csrf_token) = match scrape_csrf_token(body) {
            Some(token) => (Some(token.clone()), Some(token)),
            None => (None, None),
        };
        Client {
            api_url: self.api_url,
            graphql_api_url: self.graphql_api_url,
            csrf_token,
            init_csrf_token,
            rollout_hash: scrape_rollout_hash(body),
        }
    }

    /// The login submission for `credentials`.
    pub fn login_request(&self, credentials: &Credentials<'_>) -> (request: HttpRequest)
        ensures
            request@ == self@.login_request(credentials.username@, credentials.password@),
            self@.csrf_token matches Some(token) ==> request@.headers.contains_pair(
                "x-csrftoken"@,
                token,
            ),
    {
        proof {
            use_type_invariant(self);
            if self@.csrf_token is Some {
                lemma_login_request_carries_token(
                    self@,
                    credentials.username@,
                    credentials.password@,
                );
            }
        }
        let mut headers = session_header_map();
        let cookie = cookie_line("ig_cb", "1", "www.instagram.com", "/", false);
        proof {
            lemma_consent_cookie();
            lemma_fixed_headers();
        }
        insert_header(&mut headers, "cookie", cookie.as_str());
        insert_header_if_valid(&mut headers, "x-csrftoken", self.csrf_token());
        insert_header(&mut headers, "x-request-with", "XMLHttpRequest");
        insert_header_if_valid(&mut headers, "x-instagram-ajax", self.rollout_hash());
        insert_header(&mut headers, "referer", "https://www.instagram.com");
        insert_header(&mut headers, "authority", "www.instagram.com");
        insert_header(&mut headers, "origin", "https://www.instagram.com");
        let mut form: Vec<(String, String)> = Vec::new();
        push_pair(&mut form, "username", credentials.username);
        push_pair(&mut form, "password", credentials.password);
        let request = HttpRequest {
            operation: Operation::Login,
            method: Method::Post,
            url: joined(self.api_url.as_str(), "/accounts/login/ajax/"),
            query: Vec::new(),
            headers,
            form,
            transport: Transport::Session,
            expects: BodyKind::Json,
        };
        proof {
            let wanted = self@.login_request(credentials.username@, credentials.password@);
            assert(request@.query =~= wanted.query);
            assert(request@.form =~= wanted.form);
        }
        request
    }
}

/// The headers that every request of a session carries.
fn session_header_map() -> (headers: HeaderMap)
    ensures
        header_entries(headers) == session_headers(),
        header_count(headers) <= 4,
{
    proof {
        lemma_fixed_headers();
    }
    let mut headers = no_headers();
    insert_header(&mut headers, "accept", "*/*");
    insert_header(&mut headers, "accept-language", "en-US");
    insert_header(&mut headers, "connection", "close");
    insert_header(&mut headers, "content-type", "application/x-www-form-urlencoded");
    headers
}

impl FetchUserInfos for Client {
    open spec fn api_url(&self) -> Seq<char> {
        self@.api_url
    }

    fn user_infos_request(&self, username: &str) -> (request: HttpRequest) {
        build_profile_request(self.api_url.as_str(), username)
    }

    fn read_user_infos(&self, outcome: &HttpOutcome) -> (r: Result<UserInfos, UserInfosError>) {
        read_profile(outcome)
    }
}

impl FetchUserFeed for Client {
    open spec fn graphql_api_url(&self) -> Seq<char> {
        self@.graphql_api_url
    }

    fn user_feed_request<'a>(
        &self,
        user_id: &'a str,
        options: Option<FetchUserFeedOptions<'a, '_>>,
    ) -> (request: HttpRequest) {
        build_feed_request(self.graphql_api_url.as_str(), user_id, options)
    }

    fn read_user_feed(&self, outcome: &HttpOutcome) -> (r: Result<UserFeed, ClientError>) {
        read_feed(outcome)
    }
}

} // verus!
