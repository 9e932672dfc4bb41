//! A client library for a document-management cloud API: OAuth2 tokens, response
//! classification, multipart uploads, downloads with length checks, and the JSON
//! bodies of searches and deletions.
pub mod client;
pub mod encoding;
pub mod errors;
pub mod http;

use vstd::prelude::*;

pub use crate::client::auth::Token;
pub use crate::client::{AuthorizedClient, UnauthorizedClient};

verus! {

/// A document identifier: an opaque string, carried and never interpreted.
pub type ID = String;

/// The client's identity towards the authorization server, as text.
pub ghost struct CredentialsView {
    pub client_id: Seq<char>,
    pub client_secret: Seq<char>,
}

/// The OAuth2 client id and secret. Immutable once made.
#[derive(Clone, Debug)]
pub struct ClientCredentials {
    client_id: String,
    client_secret: String,
}

impl View for ClientCredentials {
    type V = CredentialsView;

    closed spec fn view(&self) -> CredentialsView {
        CredentialsView { client_id: self.client_id@, client_secret: self.client_secret@ }
    }
}

impl ClientCredentials {
    /// Credentials of the given client id and secret.
    pub fn new(client_id: &str, client_secret: &str) -> (r: ClientCredentials)
        ensures
            r@ == (CredentialsView { client_id: client_id@, client_secret: client_secret@ }),
    {
        ClientCredentials { client_id: client_id.to_owned(), client_secret: client_secret.to_owned() }
    }

    /// The client id.
    pub fn client_id(&self) -> (r: &str)
        ensures
            r@ == self@.client_id,
    {
        self.client_id.as_str()
    }

    /// The client secret.
    pub fn client_secret(&self) -> (r: &str)
        ensures
            r@ == self@.client_secret,
    {
        self.client_secret.as_str()
    }
}

/// The entry point: a session for a base domain, with or without a token.
pub struct Client {}

impl Client {
    /// A session that has no token yet.
    pub fn new(base_url: &str, client_credentials: ClientCredentials) -> (r: UnauthorizedClient)
        ensures
            r.base_url() == base_url@,
            r.credentials() == client_credentials@,
    {
        UnauthorizedClient::new(base_url, client_credentials)
    }

    /// A session that already holds `token`.
    pub fn with_token(base_url: &str, client_credentials: ClientCredentials, token: Token) -> (r: AuthorizedClient)
        ensures
            r.base_url() == base_url@,
            r.credentials() == client_credentials@,
            r.token_view() == token@,
    {
        AuthorizedClient::new(base_url, client_credentials, token)
    }
}

/// Receives the progress of a transfer: its size first, then each amount moved.
pub trait WithProgress {
    /// The transfer will move `size` bytes.
    fn setup(&mut self, size: usize);

    /// `amount` more bytes were moved.
    fn progress(&mut self, amount: usize);

    /// The transfer is over.
    fn finish(&self);
}

} // verus!
