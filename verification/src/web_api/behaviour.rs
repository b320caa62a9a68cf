//! What a client can do. Each capability that is implemented says which request
//! asks for the data and what the reply to it means; the transport between the
//! two is the caller's.
//!
//! Three operations are supported: the fetch of a profile, the fetch of a feed,
//! and the login, which the client itself holds. Every other capability is a
//! name without methods, kept for the day it is implemented.

use vstd::prelude::*;
use crate::web_api::decode::Decode;
use crate::web_api::domain::infos::{UserInfos, UserInfosView};
use crate::web_api::domain::{UserFeed, UserFeedView};
use crate::web_api::error::ClientError;
use crate::web_api::http::{
    no_header_entries, no_headers, pair, BodyKind, HttpBody, HttpBodyView, HttpOutcome,
    HttpOutcomeView, HttpRequest, HttpRequestView, Method, Operation, Transport,
};
use crate::web_api::json::{Json, JsonView};
use crate::web_api::options::{FetchUserFeedOptions, FetchUserFeedOptionsView};
use crate::web_api::response::{
    ApiResponse, GraphQLResponse, UserFeedResponse, UserInfosError, UserInfosResponse,
};
use crate::web_api::text::joined;

verus! {

/// What a call returned, the record taken by its value.
pub open spec fn result_view<T: DeepView, E>(r: Result<T, E>) -> Result<T::V, E> {
    match r {
        Ok(value) => Ok(value.deep_view()),
        Err(e) => Err(e),
    }
}

/// The identifier of the query that answers with the feed of a user.
pub open spec fn feed_query_hash() -> Seq<char> {
    "9dcf6e1a98bc7f6e92953d5a61027b98"@
}

/// The request for the profile of `username`: a GET of the user's page under
/// `api_url`, marked with `__a=1`.
pub open spec fn profile_request(api_url: Seq<char>, username: Seq<char>) -> HttpRequestView {
    HttpRequestView {
        operation: Operation::ProfileFetch,
        method: Method::Get,
        url: api_url + "/"@ + username,
        query: seq![("__a"@, "1"@)],
        headers: no_header_entries(),
        form: Seq::empty(),
        transport: Transport::Plain,
        expects: BodyKind::Json,
    }
}

/// The options that a feed request for `user_id` is sent with: those given, or
/// the defaults where none are, for that user.
pub open spec fn feed_options(
    user_id: Seq<char>,
    options: Option<FetchUserFeedOptionsView>,
) -> FetchUserFeedOptionsView {
    let chosen = match options {
        Some(options) => options,
        None => FetchUserFeedOptionsView::initial(),
    };
    FetchUserFeedOptionsView { user_id: Some(user_id), pagination: chosen.pagination }
}

/// The request for the feed of `user_id`: a GET of the query endpoint, with the
/// identifier of the feed query and the options as its variables.
pub open spec fn feed_request(
    graphql_api_url: Seq<char>,
    user_id: Seq<char>,
    options: Option<FetchUserFeedOptionsView>,
) -> HttpRequestView {
    HttpRequestView {
        operation: Operation::FeedFetch,
        method: Method::Get,
        url: graphql_api_url,
        query: seq![
            ("query_hash"@, feed_query_hash()),
            ("variables"@, feed_options(user_id, options).json_text()),
        ],
        headers: no_header_entries(),
        form: Seq::empty(),
        transport: Transport::Plain,
        expects: BodyKind::Json,
    }
}

/// Whether `status` says that the request was served: a status from 200 to 299.
pub open spec fn is_served(status: u16) -> bool {
    200 <= status <= 299
}

/// The JSON value of a reply that says that the request was served.
pub open spec fn served_json(outcome: HttpOutcomeView) -> Option<JsonView> {
    match outcome {
        HttpOutcomeView::Reply { status, body: HttpBodyView::Json(j) } if is_served(status) => {
            Some(j)
        },
        _ => None,
    }
}

/// What the reply to a profile request means: the profile that the envelope
/// `{graphql: {user: ..}}` holds. A failed exchange, a status that is no
/// success, such as 404, and a body of another shape are all the same failure.
pub open spec fn profile_result(outcome: HttpOutcomeView) -> Result<UserInfosView, UserInfosError> {
    match served_json(outcome) {
        Some(j) => match ApiResponse::<UserInfosResponse>::parse(j) {
            Ok(user) => Ok(user),
            Err(_) => Err(UserInfosError::Other),
        },
        None => Err(UserInfosError::Other),
    }
}

/// What the reply to a feed request means: the feed that the envelope
/// `{data: {feed: ..}}` holds. A failed exchange, a status that is no success
/// and a body of another shape are all the same failure.
pub open spec fn feed_result(outcome: HttpOutcomeView) -> Result<UserFeedView, ClientError> {
    match served_json(outcome) {
        Some(j) => match GraphQLResponse::<UserFeedResponse>::parse(j) {
            Ok(feed) => Ok(feed),
            Err(_) => Err(ClientError::HttpRequest),
        },
        None => Err(ClientError::HttpRequest),
    }
}

/// The JSON value of a reply that says that the request was served.
pub fn served(outcome: &HttpOutcome) -> (value: Option<&Json>)
    ensures
        value.deep_view() == served_json(outcome@),
{
    match outcome {
        HttpOutcome::Reply { status, body: HttpBody::Json(j) } => {
            if 200 <= *status && *status <= 299 {
                Some(j)
            } else {
                None
            }
        },
        _ => None,
    }
}

/// The request for the profile of `username` under `api_url`.
pub fn build_profile_request(api_url: &str, username: &str) -> (request: HttpRequest)
    ensures
        request@ == profile_request(api_url@, username@),
{
    let base = joined(api_url, "/");
    let url = joined(base.as_str(), username);
    let mut query: Vec<(String, String)> = Vec::new();
    query.push(pair("__a", "1"));
    let request = HttpRequest {
        operation: Operation::ProfileFetch,
        method: Method::Get,
        url,
        query,
        headers: no_headers(),
        form: Vec::new(),
        transport: Transport::Plain,
        expects: BodyKind::Json,
    };
    proof {
        let wanted = profile_request(api_url@, username@);
        assert(request@.query =~= wanted.query);
        assert(request@.form =~= wanted.form);
    }
    request
}

/// The request for the feed of `user_id` at `graphql_api_url`.
pub fn build_feed_request<'a>(
    graphql_api_url: &str,
    user_id: &'a str,
    options: Option<FetchUserFeedOptions<'a, '_>>,
) -> (request: HttpRequest)
    ensures
        request@ == feed_request(graphql_api_url@, user_id@, options.deep_view()),
{
    let chosen = match options {
        Some(options) => options,
        None => FetchUserFeedOptions::default(),
    };
    let variables = chosen.set_user_id(user_id).to_json();
    let mut query: Vec<(String, String)> = Vec::new();
    query.push(pair("query_hash", "9dcf6e1a98bc7f6e92953d5a61027b98"));
    query.push(pair("variables", variables.as_str()));
    let request = HttpRequest {
        operation: Operation::FeedFetch,
        method: Method::Get,
        url: graphql_api_url.to_owned(),
        query,
        headers: no_headers(),
        form: Vec::new(),
        transport: Transport::Plain,
        expects: BodyKind::Json,
    };
    proof {
        let wanted = feed_request(graphql_api_url@, user_id@, options.deep_view());
        assert(request@.query =~= wanted.query);
        assert(request@.form =~= wanted.form);
    }
    request
}

/// What the reply to a profile request means.
pub fn read_profile(outcome: &HttpOutcome) -> (r: Result<UserInfos, UserInfosError>)
    ensures
        result_view(r) == profile_result(outcome@),
{
    match served(outcome) {
        Some(j) => match ApiResponse::<UserInfosResponse>::decode(j) {
            Ok(envelope) => Ok(envelope.graphql.user),
            Err(_) => Err(UserInfosError::Other),
        },
        None => Err(UserInfosError::Other),
    }
}

/// What the reply to a feed request means.
pub fn read_feed(outcome: &HttpOutcome) -> (r: Result<UserFeed, ClientError>)
    ensures
        result_view(r) == feed_result(outcome@),
{
    match served(outcome) {
        Some(j) => match GraphQLResponse::<UserFeedResponse>::decode(j) {
            Ok(envelope) => Ok(envelope.data.feed),
            Err(_) => Err(ClientError::HttpRequest),
        },
        None => Err(ClientError::HttpRequest),
    }
}

/// The profile of a user can be had.
pub trait FetchUserInfos {
    /// The base URL under which the profiles stand.
    spec fn api_url(&self) -> Seq<char>;

    /// The request that asks for the profile of `username`.
    fn user_infos_request(&self, username: &str) -> (request: HttpRequest)
        ensures
            request@ == profile_request(self.api_url(), username@),
    ;

    /// The profile that the reply to that request carries.
    fn read_user_infos(&self, outcome: &HttpOutcome) -> (r: Result<UserInfos, UserInfosError>)
        ensures
            result_view(r) == profile_result(outcome@),
    ;
}

/// The feed of a user can be had, page by page.
pub trait FetchUserFeed {
    /// The URL of the query endpoint.
    spec fn graphql_api_url(&self) -> Seq<char>;

    /// The request that asks for a page of the feed of `user_id`: the page that
    /// `options` names, or the first page of twelve posts.
    fn user_feed_request<'a>(
        &self,
        user_id: &'a str,
        options: Option<FetchUserFeedOptions<'a, '_>>,
    ) -> (request: HttpRequest)
        ensures
            request@ == feed_request(self.graphql_api_url(), user_id@, options.deep_view()),
    ;

    /// The feed that the reply to that request carries.
    fn read_user_feed(&self, outcome: &HttpOutcome) -> (r: Result<UserFeed, ClientError>)
        ensures
            result_view(r) == feed_result(outcome@),
    ;
}

/// The details of one media can be had. No client does this yet.
pub trait FetchMediaInfos {
    fn fetch_media_infos(&self, media_id: &str) -> Result<(), ClientError>;
}

// The capabilities below are names only: no client has one of them yet.
pub trait FetchMediaComments {}

pub trait Search {}

pub trait FetchTagFeed {}

pub trait FetchLocationFeed {}

pub trait FetchStoryFeed {}

pub trait FetchHighlightReelMedia {}

pub trait FetchTaggedUserFeed {}

pub trait FetchTagStoryFeed {}

pub trait FetchLocationStoryFeed {}

// These need an authenticated session.
pub trait FetchMediaLikers {}

pub trait FetchUserFollowing {}

pub trait FetchUserFollowers {}

pub trait LikePost {}

pub trait CancelPostLike {}

pub trait DeleteMedia {}

pub trait Follow {}

pub trait UnFollow {}

pub trait CommentPost {}

pub trait DeleteComment {}

pub trait PostPhoto {}

pub trait FetchTimelineFeed {}

pub trait FetchReelsTray {}

pub trait FetchReelsFeed {}

pub trait FetchHighlightReels {}

} // verus!
