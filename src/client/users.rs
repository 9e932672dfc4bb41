//! Users of the account: the query, the records, and the request that lists them.
use vstd::prelude::*;

use crate::client::{api_url, AuthorizedClient};
use crate::http::{is_form, pair, Authorization, HttpRequest, Method, RequestBody};

verus! {

/// Which users to list: all of them, or only the active ones.
#[derive(Clone, Copy, Debug, PartialEq, Eq, Structural)]
pub struct UsersQuery {
    pub all: bool,
}

/// The users that a query found.
#[derive(Clone, Debug)]
pub struct UsersResult {
    pub users: Vec<User>,
}

/// A user of the account.
#[derive(Clone, Debug)]
pub struct User {
    pub id: String,
    pub first_name: String,
    pub last_name: String,
    pub email: String,
    pub status: UserStatus,
    pub role: UserRole,
    pub technical_user: Option<bool>,
}

/// Where a user stands in the sign-up process.
#[derive(Clone, Copy, Debug, PartialEq, Eq, Structural)]
pub enum UserStatus {
    Invited,
    Pending,
    Active,
    Blocked,
}

/// What a user may do.
#[derive(Clone, Copy, Debug, PartialEq, Eq, Structural)]
pub enum UserRole {
    Admin,
    Internal,
    External,
    Guest,
}

/// The text of a flag, as a query string writes it.
pub open spec fn flag_text(b: bool) -> Seq<char> {
    if b {
        "true"@
    } else {
        "false"@
    }
}

/// The request that lists users: a GET of `/v2/users` with the bearer token and
/// the query's `all` flag as a parameter.
pub fn users_request(client: &AuthorizedClient, query: &UsersQuery) -> (r: HttpRequest)
    ensures
        r.method == Method::Get,
        r.url@ == api_url(client.base_url(), "/v2/users"@),
        r.authorization matches Authorization::Bearer(t) && t@ == client.token_view().access_token,
        r.headers@.len() == 0,
        is_form(r.body, seq![("all"@, flag_text(query.all))]),
{
    let mut form: Vec<(String, String)> = Vec::new();
    form.push(pair("all", if query.all { "true" } else { "false" }));
    assert(crate::http::pairs_view(form@) =~= seq![("all"@, flag_text(query.all))]);
    HttpRequest {
        method: Method::Get,
        url: client.api_url("/v2/users"),
        authorization: client.bearer(),
        headers: Vec::new(),
        body: RequestBody::Form(form),
    }
}

/// The request that lists collections: a GET of `/v2/collections` with the bearer
/// token.
pub fn collections_request(client: &AuthorizedClient) -> (r: HttpRequest)
    ensures
        r.method == Method::Get,
        r.url@ == api_url(client.base_url(), "/v2/collections"@),
        r.authorization matches Authorization::Bearer(t) && t@ == client.token_view().access_token,
        r.headers@.len() == 0,
        r.body is Empty,
{
    HttpRequest {
        method: Method::Get,
        url: client.api_url("/v2/collections"),
        authorization: client.bearer(),
        headers: Vec::new(),
        body: RequestBody::Empty,
    }
}

} // verus!
