//! Searching documents: the query a caller builds, its JSON action, and the
//! representations a found document offers.
use vstd::prelude::*;
use vstd::utf8::encode_utf8;

use crate::client::auth::opt_text;
use crate::client::upload::opt_member;
use crate::client::{api_url, AuthorizedClient};
use crate::encoding::{list_object, opt_texts, push_json_str, push_list_object, texts};
use crate::http::{pair, pairs_view, Authorization, HttpRequest, Method, RequestBody};

verus! {

/// A predefined search that the server can add to the results.
#[derive(Clone, Copy, Debug, PartialEq, Eq, Structural)]
pub enum NamedSearch {
    Unset,
    PublicCollections,
}

/// A search, as plain values.
pub ghost struct SearchView {
    pub filenames: Option<Seq<Seq<char>>>,
    pub tags: Option<Seq<Seq<char>>>,
    pub fulltext: Option<Seq<char>>,
    pub named_search: NamedSearch,
}

/// A document search: by file names, by tags, by full text, and with a named search.
/// Each criterion is left out until it is set.
#[derive(Debug)]
pub struct Search {
    filenames: Option<Vec<String>>,
    tags: Option<Vec<String>>,
    fulltext: Option<String>,
    named_search: NamedSearch,
}

impl View for Search {
    type V = SearchView;

    closed spec fn view(&self) -> SearchView {
        SearchView {
            filenames: opt_texts(self.filenames),
            tags: opt_texts(self.tags),
            fulltext: opt_text(self.fulltext),
            named_search: self.named_search,
        }
    }
}

impl Search {
    /// A search with no criterion.
    pub fn new() -> (r: Search)
        ensures
            r@ == (SearchView { filenames: None, tags: None, fulltext: None, named_search: NamedSearch::Unset }),
    {
        Search { filenames: None, tags: None, fulltext: None, named_search: NamedSearch::Unset }
    }

    /// The same search, restricted to these file names.
    pub fn filenames(self, filenames: Vec<String>) -> (r: Search)
        ensures
            r@ == (SearchView { filenames: Some(texts(filenames@)), ..self@ }),
    {
        Search { filenames: Some(filenames), ..self }
    }

    /// The same search, restricted to these tags.
    pub fn tags(self, tags: Vec<String>) -> (r: Search)
        ensures
            r@ == (SearchView { tags: Some(texts(tags@)), ..self@ }),
    {
        Search { tags: Some(tags), ..self }
    }

    /// The same search, for this text.
    pub fn fulltext(self, fulltext: &str) -> (r: Search)
        ensures
            r@ == (SearchView { fulltext: Some(fulltext@), ..self@ }),
    {
        Search { fulltext: Some(fulltext.to_owned()), ..self }
    }

    /// The same search, with this named search.
    pub fn named_searches(self, named_search: NamedSearch) -> (r: Search)
        ensures
            r@ == (SearchView { named_search, ..self@ }),
    {
        Search { named_search, ..self }
    }

    /// The search as a JSON action.
    pub fn to_json(&self) -> (r: String)
        ensures
            r@ == search_json(self@),
    {
        let mut out = "{\"action\":\"search\",\"params\":{\"query\":{".to_owned();
        let ghost start = out@;
        match &self.fulltext {
            Some(t) => {
                out.append("\"text\":");
                push_json_str(&mut out, t.as_str());
            },
            None => {},
        }
        assert(out@ =~= start + opt_member("\"text\":"@, self@.fulltext));
        out.append("},\"filter\":");
        push_list_object(&mut out, "\"filenames\":", &self.filenames, "\"tags\":", &self.tags);
        match self.named_search {
            NamedSearch::Unset => {},
            NamedSearch::PublicCollections => {
                out.append(",\"named\":[{\"name\":\"public-collections\",\"params\":{\"include\":true}}]");
            },
        }
        out.append("}}");
        assert(out@ =~= search_json(self@));
        out
    }
}

impl Default for Search {
    fn default() -> (r: Search)
        ensures
            r@ == (SearchView { filenames: None, tags: None, fulltext: None, named_search: NamedSearch::Unset }),
    {
        Search::new()
    }
}

/// The `named` member for a named search; nothing where there is none.
pub open spec fn named_json(n: NamedSearch) -> Seq<char> {
    match n {
        NamedSearch::Unset => Seq::empty(),
        NamedSearch::PublicCollections =>
            ",\"named\":[{\"name\":\"public-collections\",\"params\":{\"include\":true}}]"@,
    }
}

/// The JSON action of a search: the query text, the filter of file names and tags,
/// and the named search, each where given.
pub open spec fn search_json(s: SearchView) -> Seq<char> {
    "{\"action\":\"search\",\"params\":{\"query\":{"@ + opt_member("\"text\":"@, s.fulltext) + "},\"filter\":"@
        + list_object("\"filenames\":"@, s.filenames, "\"tags\":"@, s.tags) + named_json(s.named_search) + "}}"@
}

/// The request that runs `search`: a POST of its JSON action to the documents
/// endpoint with the bearer token.
pub fn search_request(client: &AuthorizedClient, search: &Search) -> (r: HttpRequest)
    ensures
        r.method == Method::Post,
        r.url@ == api_url(client.base_url(), "/v2/documents"@),
        r.authorization matches Authorization::Bearer(t) && t@ == client.token_view().access_token,
        pairs_view(r.headers@) == seq![("Content-Type"@, "application/json"@)],
        r.body matches RequestBody::Bytes(b) && b@ == encode_utf8(search_json(search@)),
{
    let json = search.to_json();
    let mut headers: Vec<(String, String)> = Vec::new();
    headers.push(pair("Content-Type", "application/json"));
    assert(pairs_view(headers@) =~= seq![("Content-Type"@, "application/json"@)]);
    HttpRequest {
        method: Method::Post,
        url: client.api_url("/v2/documents"),
        authorization: client.bearer(),
        headers,
        body: RequestBody::Bytes(json.as_str().as_bytes_vec()),
    }
}

/// Which representations a document offers, each `"yes"` or not.
#[derive(Clone, Debug)]
pub struct Representations {
    pub pdf: String,
    pub fulltext: String,
    pub jpg: String,
    pub png: String,
    pub mp4: String,
}

/// `name` where `flag` says `"yes"`, nothing otherwise.
pub open spec fn offered(flag: Seq<char>, name: Seq<char>) -> Seq<Seq<char>> {
    if flag == "yes"@ {
        seq![name]
    } else {
        Seq::empty()
    }
}

/// `flag` says `"yes"`.
fn is_yes(flag: &String) -> (r: bool)
    ensures
        r == (flag@ == "yes"@),
{
    let yes = "yes".to_owned();
    *flag == yes
}

/// Appends `name` to `names` where `flag` says `"yes"`.
fn push_offered(names: &mut Vec<String>, flag: &String, name: &str)
    ensures
        texts(final(names)@) == texts(old(names)@) + offered(flag@, name@),
{
    if is_yes(flag) {
        names.push(name.to_owned());
    }
    assert(texts(final(names)@) =~= texts(old(names)@) + offered(flag@, name@));
}

impl Representations {
    /// The names of the offered representations, in the order pdf, fulltext, jpg,
    /// png, mp4.
    pub fn available(&self) -> (r: Vec<String>)
        ensures
            texts(r@) == offered(self.pdf@, "pdf"@) + offered(self.fulltext@, "fulltext"@)
                + offered(self.jpg@, "jpg"@) + offered(self.png@, "png"@) + offered(self.mp4@, "mp4"@),
    {
        let mut names: Vec<String> = Vec::new();
        assert(texts(names@) =~= Seq::<Seq<char>>::empty());
        push_offered(&mut names, &self.pdf, "pdf");
        push_offered(&mut names, &self.fulltext, "fulltext");
        push_offered(&mut names, &self.jpg, "jpg");
        push_offered(&mut names, &self.png, "png");
        push_offered(&mut names, &self.mp4, "mp4");
        assert(texts(names@) =~= offered(self.pdf@, "pdf"@) + offered(self.fulltext@, "fulltext"@)
            + offered(self.jpg@, "jpg"@) + offered(self.png@, "png"@) + offered(self.mp4@, "mp4"@));
        names
    }
}

} // verus!
