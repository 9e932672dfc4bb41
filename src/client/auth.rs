//! Access tokens and authorization codes, and turning a token endpoint's answer
//! into a token.
use vstd::prelude::*;

use crate::errors::{Error, ErrorKind};
use crate::http::{general_err_handler, is_classified, is_read_failure, Response, STATUS_OK};

verus! {

/// The content of a token, as plain values.
pub ghost struct TokenView {
    pub token_type: Option<Seq<char>>,
    pub access_token: Seq<char>,
    pub expires_in: Option<u32>,
    pub refresh_token: Seq<char>,
}

/// An access token with the refresh token that renews it. `expires_in` is kept as
/// the server sent it and never checked against a clock.
#[derive(Debug)]
pub struct Token {
    token_type: Option<String>,
    access_token: String,
    expires_in: Option<u32>,
    refresh_token: String,
}

/// The text of an optional string.
pub open spec fn opt_text(o: Option<String>) -> Option<Seq<char>> {
    match o {
        Some(s) => Some(s@),
        None => None,
    }
}

/// The text of an optional string slice.
pub open spec fn opt_str(o: Option<&str>) -> Option<Seq<char>> {
    match o {
        Some(s) => Some(s@),
        None => None,
    }
}

impl View for Token {
    type V = TokenView;

    closed spec fn view(&self) -> TokenView {
        TokenView {
            token_type: opt_text(self.token_type),
            access_token: self.access_token@,
            expires_in: self.expires_in,
            refresh_token: self.refresh_token@,
        }
    }
}

impl Token {
    /// A token with only its access and refresh parts.
    pub fn new(access_token: String, refresh_token: String) -> (r: Token)
        ensures
            r@ == (TokenView {
                token_type: None,
                access_token: access_token@,
                expires_in: None,
                refresh_token: refresh_token@,
            }),
    {
        Token { token_type: None, access_token, expires_in: None, refresh_token }
    }

    /// A token with all four parts, as a token endpoint returns them.
    pub fn from_parts(
        token_type: Option<String>,
        access_token: String,
        expires_in: Option<u32>,
        refresh_token: String,
    ) -> (r: Token)
        ensures
            r@ == (TokenView {
                token_type: opt_text(token_type),
                access_token: access_token@,
                expires_in,
                refresh_token: refresh_token@,
            }),
    {
        Token { token_type, access_token, expires_in, refresh_token }
    }

    /// The kind of token, where the server named one.
    pub fn token_type(&self) -> (r: Option<&str>)
        ensures
            opt_str(r) == self@.token_type,
    {
        match &self.token_type {
            Some(t) => Some(t.as_str()),
            None => None,
        }
    }

    /// The access token, sent as the bearer credential.
    pub fn access_token(&self) -> (r: &str)
        ensures
            r@ == self@.access_token,
    {
        self.access_token.as_str()
    }

    /// The lifetime in seconds that the server announced, if any.
    pub fn expires_in(&self) -> (r: Option<u32>)
        ensures
            r == self@.expires_in,
    {
        self.expires_in
    }

    /// The refresh token.
    pub fn refresh_token(&self) -> (r: &str)
        ensures
            r@ == self@.refresh_token,
    {
        self.refresh_token.as_str()
    }
}

/// A single-use authorization code, obtained by the user's consent.
#[derive(Debug)]
pub struct Code {
    code: String,
}

impl View for Code {
    type V = Seq<char>;

    closed spec fn view(&self) -> Seq<char> {
        self.code@
    }
}

impl Code {
    /// Wraps an authorization code.
    pub fn new(code: String) -> (r: Code)
        ensures
            r@ == code@,
    {
        Code { code }
    }

    /// The code's text.
    pub fn code(&self) -> (r: &str)
        ensures
            r@ == self@,
    {
        self.code.as_str()
    }
}

/// Something that obtains an authorization code for an authorization URL, for
/// example by sending a user to a browser.
pub trait CodeProvider {
    /// The code that the user's consent at `auth_url` produced.
    fn get_code(&self, auth_url: &str) -> Result<Code, Error>;
}

/// `r` is the outcome of a token endpoint's `response`, of which `decoded` is the
/// token that its body holds (`None` where the body holds none): the classifier's
/// failure, or the decoded token exactly, or a decoding failure.
pub open spec fn is_token_outcome(r: Result<TokenView, Error>, response: Response, decoded: Option<Token>) -> bool {
    if response.status != STATUS_OK {
        r matches Err(e) && is_classified(Err(e), response, STATUS_OK)
    } else {
        match decoded {
            Some(t) => r == Ok::<TokenView, Error>(t@),
            None => r matches Err(e) && is_read_failure(e, response.status, "decoding token"@),
        }
    }
}

/// A token endpoint that answers HTTP 200 with a well-formed token body yields a
/// token whose every field is the one the body holds, whatever the credentials,
/// redirect URI and code that were sent.
pub proof fn exchange_yields_token_as_sent(r: Result<TokenView, Error>, response: Response, t: Token)
    requires
        response.status == STATUS_OK,
        is_token_outcome(r, response, Some(t)),
    ensures
        r matches Ok(v) && v.token_type == t@.token_type && v.access_token == t@.access_token
            && v.expires_in == t@.expires_in && v.refresh_token == t@.refresh_token,
{
}

/// The content of a token result.
pub open spec fn token_result(r: Result<Token, Error>) -> Result<TokenView, Error> {
    match r {
        Ok(t) => Ok(t@),
        Err(e) => Err(e),
    }
}

/// The token that a token endpoint returned: `response` is checked first (HTTP 200
/// expected), then the token decoded from its body is taken as it is.
pub fn token_from_response(response: Response, decoded: Option<Token>) -> (r: Result<Token, Error>)
    ensures
        is_token_outcome(token_result(r), response, decoded),
{
    let status = response.status;
    match general_err_handler(response, STATUS_OK) {
        Err(e) => Err(e),
        Ok(_) => match decoded {
            Some(t) => Ok(t),
            None => Err(Error::from(
                ErrorKind::FailedToProcessHttpResponse(status, String::from_str("decoding token")),
            )),
        },
    }
}

} // verus!
