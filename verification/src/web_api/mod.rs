mod credentials;
pub use credentials::Credentials;

pub mod behaviour;

pub mod client;
pub use client::AuthenticatedClient;
pub use client::Client;

pub mod decode;

pub mod domain;

pub mod error;
pub use error::ClientError;

pub mod http;

pub mod json;

pub mod options;

pub mod response;

pub mod scrape;

pub mod text;
