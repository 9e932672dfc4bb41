//! Deleting documents: the JSON action, and the reading of a partial failure.
use vstd::prelude::*;
use vstd::utf8::encode_utf8;

use crate::client::{api_url, AuthorizedClient};
use crate::encoding::{json_array, push_json_array, texts};
use crate::errors::{Error, ErrorKind};
use crate::http::{
    general_err_handler, is_classified, is_plain, pair, pairs_view, Authorization, HttpRequest, Method, RequestBody,
    Response, STATUS_NO_CONTENT,
};

verus! {

/// The JSON text of the deletion of `ids`.
pub open spec fn delete_json(ids: Seq<Seq<char>>) -> Seq<char> {
    "{\"action\":\"delete\",\"params\":{\"documents\":"@ + json_array(ids) + "}}"@
}

/// The deletion of a list of documents.
pub struct DeleteAction {
    documents: Vec<String>,
}

impl View for DeleteAction {
    type V = Seq<Seq<char>>;

    closed spec fn view(&self) -> Seq<Seq<char>> {
        texts(self.documents@)
    }
}

impl DeleteAction {
    /// The deletion of the documents with these identifiers.
    pub fn new(documents: Vec<String>) -> (r: DeleteAction)
        ensures
            r@ == texts(documents@),
    {
        DeleteAction { documents }
    }

    /// The action as JSON text.
    pub fn to_json(&self) -> (r: String)
        ensures
            r@ == delete_json(self@),
    {
        let mut out = "{\"action\":\"delete\",\"params\":{\"documents\":".to_owned();
        push_json_array(&mut out, &self.documents);
        out.append("}}");
        assert(out@ =~= delete_json(self@));
        out
    }
}

/// The request that deletes the documents `ids`: a POST of the JSON action to the
/// documents endpoint with the bearer token.
pub fn delete_request(client: &AuthorizedClient, ids: Vec<String>) -> (r: HttpRequest)
    ensures
        r.method == Method::Post,
        r.url@ == api_url(client.base_url(), "/v2/documents"@),
        r.authorization matches Authorization::Bearer(t) && t@ == client.token_view().access_token,
        pairs_view(r.headers@) == seq![("Content-Type"@, "application/json"@)],
        r.body matches RequestBody::Bytes(b) && b@ == encode_utf8(delete_json(texts(ids@))),
{
    let action = DeleteAction::new(ids);
    let json = action.to_json();
    let mut headers: Vec<(String, String)> = Vec::new();
    headers.push(pair("Content-Type", "application/json"));
    assert(pairs_view(headers@) =~= seq![("Content-Type"@, "application/json"@)]);
    HttpRequest {
        method: Method::Post,
        url: client.api_url("/v2/documents"),
        authorization: client.bearer(),
        headers,
        body: RequestBody::Bytes(json.as_str().as_bytes_vec()),
    }
}

/// The outcome of a deletion. Success is HTTP 204; any other status is classified.
/// A 204 whose body lists failed documents (`failed`, as decoded from the body's
/// `failed-documents`) is still a failure, `FailedDocuments` with that list.
pub fn delete_result(response: Response, failed: Option<Vec<String>>) -> (r: Result<(), Error>)
    ensures
        response.status != STATUS_NO_CONTENT ==> (r matches Err(e) && is_classified(Err(e), response, STATUS_NO_CONTENT)),
        response.status == STATUS_NO_CONTENT ==> match failed {
            Some(ids) => r matches Err(e) && is_plain(e, ErrorKind::FailedDocuments(ids)),
            None => r is Ok,
        },
{
    match general_err_handler(response, STATUS_NO_CONTENT) {
        Err(e) => Err(e),
        Ok(_) => match failed {
            Some(ids) => Err(Error::from(ErrorKind::FailedDocuments(ids))),
            None => Ok(()),
        },
    }
}

} // verus!
