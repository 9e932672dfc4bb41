//! The two states of a session, and the requests that each state can make.
pub mod auth;
pub mod delete;
pub mod download;
pub mod multipart;
pub mod search;
pub mod upload;
pub mod users;

use vstd::prelude::*;

use crate::client::auth::{is_token_outcome, token_from_response, Code, Token, TokenView};
use crate::errors::Error;
use crate::http::{concat3, is_form, pair, Authorization, HttpRequest, Method, RequestBody, Response};
use crate::{ClientCredentials, CredentialsView};

verus! {

/// The URL of `path` on the authorization server of `base`.
pub open spec fn auth_url(base: Seq<char>, path: Seq<char>) -> Seq<char> {
    "https://auth."@ + base + path
}

/// The URL of `path` on the API server of `base`.
pub open spec fn api_url(base: Seq<char>, path: Seq<char>) -> Seq<char> {
    "https://api."@ + base + path
}

/// `r` is a request to the token endpoint of `base`, authenticated with the client's
/// credentials, whose form holds `form`.
pub open spec fn is_token_request(r: HttpRequest, base: Seq<char>, credentials: CredentialsView, form: Seq<(Seq<char>, Seq<char>)>) -> bool {
    &&& r.method == Method::Post
    &&& r.url@ == auth_url(base, "/token"@)
    &&& r.authorization matches Authorization::Basic { user, password }
    &&& user@ == credentials.client_id
    &&& password@ == credentials.client_secret
    &&& r.headers@.len() == 0
    &&& is_form(r.body, form)
}

/// A session that holds credentials but no token yet. It becomes an
/// [`AuthorizedClient`] once, by the authorization-code flow, and is consumed then.
pub struct UnauthorizedClient {
    base_url: String,
    client_credentials: ClientCredentials,
}

impl UnauthorizedClient {
    /// The base domain.
    pub closed spec fn base_url(&self) -> Seq<char> {
        self.base_url@
    }

    /// The client's credentials.
    pub closed spec fn credentials(&self) -> CredentialsView {
        self.client_credentials@
    }

    /// A session for `base_url` with these credentials.
    pub fn new(base_url: &str, client_credentials: ClientCredentials) -> (r: UnauthorizedClient)
        ensures
            r.base_url() == base_url@,
            r.credentials() == client_credentials@,
    {
        UnauthorizedClient { base_url: base_url.to_owned(), client_credentials }
    }

    /// Where to send the user for consent: the authorization endpoint with the client
    /// id, the redirect URI and `response_type=code` as its query.
    pub fn authorization_request(&self, redirect_uri: &str) -> (r: HttpRequest)
        ensures
            r.method == Method::Get,
            r.url@ == auth_url(self.base_url(), "/authorize"@),
            r.authorization is Anonymous,
            r.headers@.len() == 0,
            is_form(r.body, seq![
                ("client_id"@, self.credentials().client_id),
                ("redirect_uri"@, redirect_uri@),
                ("response_type"@, "code"@),
            ]),
    {
        let mut form: Vec<(String, String)> = Vec::new();
        form.push(pair("client_id", self.client_credentials.client_id()));
        form.push(pair("redirect_uri", redirect_uri));
        form.push(pair("response_type", "code"));
        assert(crate::http::pairs_view(form@) =~= seq![
                ("client_id"@, self.credentials().client_id),
                ("redirect_uri"@, redirect_uri@),
                ("response_type"@, "code"@),
            ]);
        HttpRequest {
            method: Method::Get,
            url: concat3("https://auth.", self.base_url.as_str(), "/authorize"),
            authorization: Authorization::Anonymous,
            headers: Vec::new(),
            body: RequestBody::Form(form),
        }
    }

    /// The exchange of `code` for a token: a POST to the token endpoint with HTTP
    /// Basic authentication and the form `grant_type=authorization_code`,
    /// `redirect_uri`, `code`.
    pub fn token_request(&self, code: &Code, redirect_uri: &str) -> (r: HttpRequest)
        ensures
            is_token_request(r, self.base_url(), self.credentials(), seq![
                ("grant_type"@, "authorization_code"@),
                ("redirect_uri"@, redirect_uri@),
                ("code"@, code@),
            ]),
    {
        let mut form: Vec<(String, String)> = Vec::new();
        form.push(pair("grant_type", "authorization_code"));
        form.push(pair("redirect_uri", redirect_uri));
        form.push(pair("code", code.code()));
        assert(crate::http::pairs_view(form@) =~= seq![
                ("grant_type"@, "authorization_code"@),
                ("redirect_uri"@, redirect_uri@),
                ("code"@, code@),
            ]);
        HttpRequest {
            method: Method::Post,
            url: concat3("https://auth.", self.base_url.as_str(), "/token"),
            authorization: Authorization::Basic {
                user: self.client_credentials.client_id().to_owned(),
                password: self.client_credentials.client_secret().to_owned(),
            },
            headers: Vec::new(),
            body: RequestBody::Form(form),
        }
    }

    /// Completes the flow with the token endpoint's `response` and the token decoded
    /// from its body. On success the session becomes authorized, keeping its base
    /// domain and credentials; on failure nothing is kept, and no token is stored.
    pub fn authorize(self, response: Response, decoded: Option<Token>) -> (r: Result<AuthorizedClient, Error>)
        ensures
            match r {
                Ok(c) => {
                    &&& c.base_url() == self.base_url()
                    &&& c.credentials() == self.credentials()
                    &&& is_token_outcome(Ok(c.token_view()), response, decoded)
                },
                Err(e) => is_token_outcome(Err(e), response, decoded),
            },
    {
        match token_from_response(response, decoded) {
            Ok(token) => Ok(AuthorizedClient {
                base_url: self.base_url,
                client_credentials: self.client_credentials,
                token,
            }),
            Err(e) => Err(e),
        }
    }
}

/// A session that holds a token: the only state from which the API can be called.
pub struct AuthorizedClient {
    base_url: String,
    client_credentials: ClientCredentials,
    token: Token,
}

impl AuthorizedClient {
    /// The base domain.
    pub closed spec fn base_url(&self) -> Seq<char> {
        self.base_url@
    }

    /// The client's credentials.
    pub closed spec fn credentials(&self) -> CredentialsView {
        self.client_credentials@
    }

    /// The current token.
    pub closed spec fn token_view(&self) -> TokenView {
        self.token@
    }

    /// A session for `base_url` that holds `token`.
    pub fn new(base_url: &str, client_credentials: ClientCredentials, token: Token) -> (r: AuthorizedClient)
        ensures
            r.base_url() == base_url@,
            r.credentials() == client_credentials@,
            r.token_view() == token@,
    {
        AuthorizedClient { base_url: base_url.to_owned(), client_credentials, token }
    }

    /// The current token.
    pub fn token(&self) -> (r: &Token)
        ensures
            r@ == self.token_view(),
    {
        &self.token
    }

    /// The renewal of the token: a POST to the token endpoint with HTTP Basic
    /// authentication and the form `grant_type=refresh_token`, `refresh_token`.
    pub fn refresh_request(&self) -> (r: HttpRequest)
        ensures
            is_token_request(r, self.base_url(), self.credentials(), seq![
                ("grant_type"@, "refresh_token"@),
                ("refresh_token"@, self.token_view().refresh_token),
            ]),
    {
        let mut form: Vec<(String, String)> = Vec::new();
        form.push(pair("grant_type", "refresh_token"));
        form.push(pair("refresh_token", self.token.refresh_token()));
        assert(crate::http::pairs_view(form@) =~= seq![
                ("grant_type"@, "refresh_token"@),
                ("refresh_token"@, self.token_view().refresh_token),
            ]);
        HttpRequest {
            method: Method::Post,
            url: concat3("https://auth.", self.base_url.as_str(), "/token"),
            authorization: Authorization::Basic {
                user: self.client_credentials.client_id().to_owned(),
                password: self.client_credentials.client_secret().to_owned(),
            },
            headers: Vec::new(),
            body: RequestBody::Form(form),
        }
    }

    /// Takes in the answer to a refresh request. On success the whole token is
    /// replaced by the new one, at once; on failure the session is left exactly as
    /// it was. Base domain and credentials never change.
    pub fn apply_refresh(&mut self, response: Response, decoded: Option<Token>) -> (r: Result<(), Error>)
        ensures
            final(self).base_url() == old(self).base_url(),
            final(self).credentials() == old(self).credentials(),
            match r {
                Ok(_) => is_token_outcome(Ok(final(self).token_view()), response, decoded),
                Err(e) => {
                    &&& is_token_outcome(Err(e), response, decoded)
                    &&& final(self).token_view() == old(self).token_view()
                },
            },
    {
        match token_from_response(response, decoded) {
            Ok(token) => {
                self.token = token;
                Ok(())
            },
            Err(e) => Err(e),
        }
    }

    /// Bearer authentication with the current access token.
    pub fn bearer(&self) -> (r: Authorization)
        ensures
            r matches Authorization::Bearer(t) && t@ == self.token_view().access_token,
    {
        Authorization::Bearer(self.token.access_token().to_owned())
    }

    /// The URL of `path` on the API server.
    pub fn api_url(&self, path: &str) -> (r: String)
        ensures
            r@ == api_url(self.base_url(), path@),
    {
        concat3("https://api.", self.base_url.as_str(), path)
    }
}

} // verus!
