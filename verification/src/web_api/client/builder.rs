use vstd::prelude::*;
use crate::web_api::client::{default_api_url, default_graphql_api_url, Client, ClientView};

verus! {

/// Where a client is to send its requests, before the client is made.
pub struct ClientBuilder<'a, 'b> {
    url: &'a str,
    graphql_api_url: &'b str,
}

impl<'a, 'b> ClientBuilder<'a, 'b> {
    /// The base URL that the client will be built with.
    pub closed spec fn url(&self) -> Seq<char> {
        self.url@
    }

    /// The URL of the query endpoint that the client will be built with.
    pub closed spec fn graphql_api_url(&self) -> Seq<char> {
        self.graphql_api_url@
    }

    /// A builder for a client of the platform itself.
    pub fn new() -> (builder: Self)
        ensures
            builder.url() == default_api_url(),
            builder.graphql_api_url() == default_graphql_api_url(),
    {
        Self {
            url: "https://www.instagram.com",
            graphql_api_url: "https://www.instagram.com/graphql/query",
        }
    }

    /// This builder, with `url` as the base URL.
    pub fn set_api_url(self, url: &'a str) -> (builder: Self)
        ensures
            builder.url() == url@,
            builder.graphql_api_url() == self.graphql_api_url(),
    {
        Self { url, graphql_api_url: self.graphql_api_url }
    }

    /// This builder, with `url` as the URL of the query endpoint.
    pub fn set_graphql_api_url(self, url: &'b str) -> (builder: Self)
        ensures
            builder.url() == self.url(),
            builder.graphql_api_url() == url@,
    {
        Self { url: self.url, graphql_api_url: url }
    }

    /// The client for the URLs of this builder. It knows nothing of a session yet.
    pub fn build(self) -> (client: Client)
        ensures
            client@ == ClientView::fresh(self.url(), self.graphql_api_url()),
    {
        Client::fresh(self.url.to_owned(), self.graphql_api_url.to_owned())
    }
}

} // verus!
