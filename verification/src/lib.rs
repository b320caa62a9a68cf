//! A client for Instagram's web endpoints: the login protocol, the requests it
//! sends and the decoding of the replies into flat records.

pub mod web_api;
