//! Uploads: the description of a file to send, its JSON metadata, and the
//! multipart request that carries both.
use vstd::prelude::*;
use vstd::utf8::encode_utf8;

use crate::client::auth::opt_text;
use crate::client::multipart::{
    boundary_of, distinct_header_names, generate_boundary, parts_view, write_parts,
    FormPart, FormPartView, multipart_bytes,
};
use crate::client::{api_url, AuthorizedClient};
use crate::encoding::{hex_digit, json_quoted, list_object, opt_texts, push_json_str, push_list_object, texts};
use crate::errors::{Error, ErrorKind};
use crate::http::{
    concat3, decoded_from_response, is_decoded_outcome, pair, pairs_view, Authorization, HttpRequest, Method, RequestBody,
    Response, STATUS_CREATED,
};

verus! {

/// The MIME type that the `mime` crate parses `s` into, as text; `None` where `s`
/// is not a MIME type.
pub uninterp spec fn parsed_mime(s: Seq<char>) -> Option<Seq<char>>;

/// Relies on `FromStr for mime::Mime` and its `Display`: `s` parsed as a MIME type,
/// written back as text.
#[verifier::external_body]
fn parse_mime(s: &str) -> (r: Option<String>)
    ensures
        opt_text(r) == parsed_mime(s@),
{
    match s.parse::<mime::Mime>() {
        Ok(m) => Some(m.to_string()),
        Err(_) => None,
    }
}

/// How the `actions` block of the metadata treats empty lists.
#[derive(Clone, Copy, Debug, PartialEq, Eq, Structural)]
pub enum EmptyActions {
    /// The block is always sent, with an explicit array for each list, empty or not.
    ExplicitArrays,
    /// An empty list is left out, and the block with it when both lists are empty.
    Omit,
}

/// A file to upload, with its metadata.
pub ghost struct UploadView {
    pub filename: Seq<char>,
    pub mime_type: Seq<char>,
    pub size: u64,
    pub title: Option<Seq<char>>,
    pub author: Option<Seq<char>>,
    pub tags: Seq<Seq<char>>,
    pub collections: Seq<Seq<char>>,
    pub empty_actions: EmptyActions,
}

/// A file to upload: its name, MIME type and size, which are fixed when it is
/// made, and the title, author, tags and collections that go with it.
pub struct Upload {
    filename: String,
    mime_type: String,
    size: u64,
    title: Option<String>,
    author: Option<String>,
    tags: Vec<String>,
    collections: Vec<String>,
    empty_actions: EmptyActions,
}

impl View for Upload {
    type V = UploadView;

    closed spec fn view(&self) -> UploadView {
        UploadView {
            filename: self.filename@,
            mime_type: self.mime_type@,
            size: self.size,
            title: opt_text(self.title),
            author: opt_text(self.author),
            tags: texts(self.tags@),
            collections: texts(self.collections@),
            empty_actions: self.empty_actions,
        }
    }
}

/// A fresh upload of `filename` (`size` bytes, of type `mime`), with no title, author,
/// tags or collections, whose empty lists are sent as explicit arrays.
pub open spec fn fresh_upload(filename: Seq<char>, mime: Seq<char>, size: u64) -> UploadView {
    UploadView {
        filename,
        mime_type: mime,
        size,
        title: None,
        author: None,
        tags: Seq::empty(),
        collections: Seq::empty(),
        empty_actions: EmptyActions::ExplicitArrays,
    }
}

impl Upload {
    /// An upload of a file named `filename` holding `size` bytes, of the MIME type
    /// `mime_type`. Fails with `FailedToPrepareHttpRequest` when `mime_type` is not a
    /// MIME type; the type is kept as the parser writes it.
    pub fn new(filename: &str, size: u64, mime_type: &str) -> (r: Result<Upload, Error>)
        ensures
            parsed_mime(mime_type@) is None <==> r is Err,
            r matches Ok(u) ==> u@ == fresh_upload(filename@, parsed_mime(mime_type@).unwrap(), size),
            r matches Err(e) ==> e.kind matches ErrorKind::FailedToPrepareHttpRequest(m) && m@ == mime_type@,
    {
        match parse_mime(mime_type) {
            Some(m) => {
                let u = Upload {
                    filename: filename.to_owned(),
                    mime_type: m,
                    size,
                    title: None,
                    author: None,
                    tags: Vec::new(),
                    collections: Vec::new(),
                    empty_actions: EmptyActions::ExplicitArrays,
                };
                assert(texts(u.tags@) =~= Seq::<Seq<char>>::empty());
                assert(texts(u.collections@) =~= Seq::<Seq<char>>::empty());
                Ok(u)
            },
            None => Err(Error::from(ErrorKind::FailedToPrepareHttpRequest(mime_type.to_owned()))),
        }
    }

    /// As [`Upload::new`], with a title.
    pub fn with_title(filename: &str, size: u64, mime_type: &str, title: &str) -> (r: Result<Upload, Error>)
        ensures
            parsed_mime(mime_type@) is None <==> r is Err,
            r matches Ok(u) ==> u@ == (UploadView {
                title: Some(title@),
                ..fresh_upload(filename@, parsed_mime(mime_type@).unwrap(), size)
            }),
            r matches Err(e) ==> e.kind matches ErrorKind::FailedToPrepareHttpRequest(m) && m@ == mime_type@,
    {
        match Upload::new(filename, size, mime_type) {
            Ok(u) => Ok(u.title(title)),
            Err(e) => Err(e),
        }
    }

    /// The same upload with the given title.
    pub fn title(self, title: &str) -> (r: Upload)
        ensures
            r@ == (UploadView { title: Some(title@), ..self@ }),
    {
        Upload { title: Some(title.to_owned()), ..self }
    }

    /// The same upload with the given author.
    pub fn author(self, author: &str) -> (r: Upload)
        ensures
            r@ == (UploadView { author: Some(author@), ..self@ }),
    {
        Upload { author: Some(author.to_owned()), ..self }
    }

    /// The same upload with the given tags.
    pub fn tags(self, tags: Vec<String>) -> (r: Upload)
        ensures
            r@ == (UploadView { tags: texts(tags@), ..self@ }),
    {
        Upload { tags, ..self }
    }

    /// The same upload, added to the given collections.
    pub fn collections(self, collections: Vec<String>) -> (r: Upload)
        ensures
            r@ == (UploadView { collections: texts(collections@), ..self@ }),
    {
        Upload { collections, ..self }
    }

    /// The same upload, with empty lists treated as `empty_actions` says.
    pub fn empty_actions(self, empty_actions: EmptyActions) -> (r: Upload)
        ensures
            r@ == (UploadView { empty_actions, ..self@ }),
    {
        Upload { empty_actions, ..self }
    }

    /// The file's name.
    pub fn filename(&self) -> (r: &str)
        ensures
            r@ == self@.filename,
    {
        self.filename.as_str()
    }

    /// The MIME type, as the parser wrote it.
    pub fn mime_type(&self) -> (r: &str)
        ensures
            r@ == self@.mime_type,
    {
        self.mime_type.as_str()
    }

    /// The file's size in bytes, as given when the upload was made.
    pub fn size(&self) -> (r: u64)
        ensures
            r == self@.size,
    {
        self.size
    }
}

/// The decimal digits of `n`, without leading zeros.
pub open spec fn decimal(n: nat) -> Seq<char>
    decreases n,
{
    if n < 10 {
        seq![hex_digit(n as int)]
    } else {
        decimal(n / 10) + seq![hex_digit((n % 10) as int)]
    }
}

/// The decimal digit `d` as text.
fn digit_str(d: u64) -> (r: &'static str)
    requires
        d < 10,
    ensures
        r@ == seq![hex_digit(d as int)],
{
    proof {
        reveal_strlit("0");
        reveal_strlit("1");
        reveal_strlit("2");
        reveal_strlit("3");
        reveal_strlit("4");
        reveal_strlit("5");
        reveal_strlit("6");
        reveal_strlit("7");
        reveal_strlit("8");
        reveal_strlit("9");
    }
    if d == 0 {
        "0"
    } else if d == 1 {
        "1"
    } else if d == 2 {
        "2"
    } else if d == 3 {
        "3"
    } else if d == 4 {
        "4"
    } else if d == 5 {
        "5"
    } else if d == 6 {
        "6"
    } else if d == 7 {
        "7"
    } else if d == 8 {
        "8"
    } else {
        "9"
    }
}

/// Appends the decimal digits of `n` to `out`.
fn push_decimal(out: &mut String, n: u64)
    ensures
        final(out)@ == old(out)@ + decimal(n as nat),
    decreases n,
{
    if n < 10 {
        out.append(digit_str(n));
    } else {
        push_decimal(out, n / 10);
        out.append(digit_str(n % 10));
        assert(final(out)@ =~= old(out)@ + decimal(n as nat));
    }
}

/// The metadata sent with a file, as plain values. A list that is `None` is left
/// out of the JSON.
pub ghost struct MetadataView {
    pub filename: Seq<char>,
    pub size: u64,
    pub title: Option<Seq<char>>,
    pub author: Option<Seq<char>>,
    pub tags: Option<Seq<Seq<char>>>,
    pub collections: Option<Seq<Seq<char>>>,
}

/// A list as it goes into the actions block: kept where empty lists are sent
/// explicitly or where it is not empty.
pub open spec fn action_list(l: Seq<Seq<char>>, e: EmptyActions) -> Option<Seq<Seq<char>>> {
    if e == EmptyActions::ExplicitArrays || l.len() > 0 {
        Some(l)
    } else {
        None
    }
}

/// The metadata of an upload.
pub open spec fn metadata_of(u: UploadView) -> MetadataView {
    MetadataView {
        filename: u.filename,
        size: u.size,
        title: u.title,
        author: u.author,
        tags: action_list(u.tags, u.empty_actions),
        collections: action_list(u.collections, u.empty_actions),
    }
}

/// `key` and the JSON string of `v`, or nothing where there is no `v`.
pub open spec fn opt_member(key: Seq<char>, v: Option<Seq<char>>) -> Seq<char> {
    match v {
        Some(t) => key + json_quoted(t),
        None => Seq::empty(),
    }
}

/// The `document` object: file name and size, then title and author where given.
pub open spec fn document_json(m: MetadataView) -> Seq<char> {
    "{\"filename\":"@ + json_quoted(m.filename) + ",\"size\":"@ + decimal(m.size as nat)
        + opt_member(",\"title\":"@, m.title) + opt_member(",\"author\":"@, m.author) + "}"@
}

/// The `actions` object: the tags to add and the collections to add to, each where given.
pub open spec fn actions_json(tags: Option<Seq<Seq<char>>>, collections: Option<Seq<Seq<char>>>) -> Seq<char> {
    list_object("\"add-tag\":"@, tags, "\"add-to-collection\":"@, collections)
}

/// The JSON text of the metadata: the `document` object, then the `actions` object
/// unless both of its lists are left out.
pub open spec fn metadata_json(m: MetadataView) -> Seq<char> {
    let actions = if m.tags is Some || m.collections is Some {
        ",\"actions\":"@ + actions_json(m.tags, m.collections)
    } else {
        Seq::empty()
    };
    "{\"document\":"@ + document_json(m) + actions + "}"@
}

/// The metadata that goes with an uploaded file, ready to be written as JSON.
pub struct DocumentMetadata {
    filename: String,
    size: u64,
    title: Option<String>,
    author: Option<String>,
    tags: Option<Vec<String>>,
    collections: Option<Vec<String>>,
}

impl View for DocumentMetadata {
    type V = MetadataView;

    closed spec fn view(&self) -> MetadataView {
        MetadataView {
            filename: self.filename@,
            size: self.size,
            title: opt_text(self.title),
            author: opt_text(self.author),
            tags: opt_texts(self.tags),
            collections: opt_texts(self.collections),
        }
    }
}

/// A copy of an optional string.
fn copy_opt(o: &Option<String>) -> (r: Option<String>)
    ensures
        opt_text(r) == opt_text(*o),
{
    match o {
        Some(s) => Some(s.clone()),
        None => None,
    }
}

/// A copy of a list of strings.
fn copy_list(l: &Vec<String>) -> (r: Vec<String>)
    ensures
        texts(r@) == texts(l@),
{
    let mut r: Vec<String> = Vec::new();
    let mut i: usize = 0;
    while i < l.len()
        invariant
            i <= l.len(),
            r@.len() == i,
            forall|j: int| 0 <= j < i ==> (#[trigger] r@[j])@ == l@[j]@,
        decreases l.len() - i,
    {
        let c = l[i].clone();
        r.push(c);
        i = i + 1;
    }
    assert(texts(r@) =~= texts(l@));
    r
}

/// The list as it goes into the actions block.
fn action_list_of(l: &Vec<String>, e: EmptyActions) -> (r: Option<Vec<String>>)
    ensures
        opt_texts(r) == action_list(texts(l@), e),
{
    if e == EmptyActions::ExplicitArrays || l.len() > 0 {
        Some(copy_list(l))
    } else {
        None
    }
}

/// Appends `key` and the JSON string of `v` to `out`, where there is a `v`.
fn push_opt_member(out: &mut String, key: &str, v: &Option<String>)
    ensures
        final(out)@ == old(out)@ + opt_member(key@, opt_text(*v)),
{
    match v {
        Some(t) => {
            out.append(key);
            push_json_str(out, t.as_str());
            assert(final(out)@ =~= old(out)@ + opt_member(key@, opt_text(*v)));
        },
        None => {
            assert(final(out)@ =~= old(out)@ + opt_member(key@, opt_text(*v)));
        },
    }
}

impl DocumentMetadata {
    /// The metadata of `u`: its name, size, title and author, and its lists as
    /// its treatment of empty lists says.
    pub fn from_upload(u: &Upload) -> (r: DocumentMetadata)
        ensures
            r@ == metadata_of(u@),
    {
        DocumentMetadata {
            filename: u.filename.clone(),
            size: u.size,
            title: copy_opt(&u.title),
            author: copy_opt(&u.author),
            tags: action_list_of(&u.tags, u.empty_actions),
            collections: action_list_of(&u.collections, u.empty_actions),
        }
    }

    /// Appends the `document` object to `out`.
    fn push_document(&self, out: &mut String)
        ensures
            final(out)@ == old(out)@ + document_json(self@),
    {
        let ghost start = out@;
        out.append("{\"filename\":");
        push_json_str(out, self.filename.as_str());
        out.append(",\"size\":");
        push_decimal(out, self.size);
        push_opt_member(out, ",\"title\":", &self.title);
        push_opt_member(out, ",\"author\":", &self.author);
        out.append("}");
        assert(out@ =~= start + document_json(self@));
    }

    /// Appends the `actions` object to `out`.
    fn push_actions(&self, out: &mut String)
        ensures
            final(out)@ == old(out)@ + actions_json(self@.tags, self@.collections),
    {
        push_list_object(out, "\"add-tag\":", &self.tags, "\"add-to-collection\":", &self.collections);
    }

    /// The metadata as JSON text.
    pub fn to_json(&self) -> (r: String)
        ensures
            r@ == metadata_json(self@),
    {
        let mut out = "{\"document\":".to_owned();
        self.push_document(&mut out);
        if self.tags.is_some() || self.collections.is_some() {
            out.append(",\"actions\":");
            self.push_actions(&mut out);
        }
        out.append("}");
        assert(out@ =~= metadata_json(self@));
        out
    }
}

/// The header naming a part of a form.
pub open spec fn form_data(name: Seq<char>) -> Seq<char> {
    "form-data; name=\""@ + name + "\""@
}

/// The two parts of an upload: the metadata as JSON, then the file's content under
/// its name and MIME type.
pub open spec fn upload_parts(u: UploadView, contents: Seq<u8>) -> Seq<FormPartView> {
    seq![
        FormPartView {
            headers: seq![("Content-Type"@, "application/json"@), ("Content-Disposition"@, form_data("metadata"@))],
            body: encode_utf8(metadata_json(metadata_of(u))),
        },
        FormPartView {
            headers: seq![
                ("Content-Type"@, u.mime_type),
                ("Content-Disposition"@, form_data("document"@) + "; filename=\""@ + u.filename + "\""@),
            ],
            body: contents,
        },
    ]
}

/// The boundary of an upload: derived from the bytes of the file's name.
pub open spec fn upload_boundary(u: UploadView) -> Seq<char> {
    boundary_of(encode_utf8(u.filename))
}

/// The body of an upload whose file holds `contents`.
pub open spec fn upload_body(u: UploadView, contents: Seq<u8>) -> Seq<u8> {
    multipart_bytes(encode_utf8(upload_boundary(u)), upload_parts(u, contents))
}

/// A part with a `Content-Type` and a `Content-Disposition` header.
fn form_part(content_type: &str, disposition: String, body: Vec<u8>) -> (r: FormPart)
    ensures
        r@ == (FormPartView {
            headers: seq![("Content-Type"@, content_type@), ("Content-Disposition"@, disposition@)],
            body: body@,
        }),
        distinct_header_names(r@),
{
    let mut headers: Vec<(String, String)> = Vec::new();
    headers.push(pair("Content-Type", content_type));
    headers.push(pair("Content-Disposition", disposition.as_str()));
    proof {
        reveal_strlit("Content-Type");
        reveal_strlit("Content-Disposition");
        assert(pairs_view(headers@) =~= seq![("Content-Type"@, content_type@), ("Content-Disposition"@, disposition@)]);
    }
    FormPart { headers, body }
}

/// The request that uploads `upload`, whose file holds `contents`: a POST of the
/// multipart body to the documents endpoint with the bearer token, declaring the
/// boundary in its `Content-Type` and asking for JSON back.
pub fn upload_request(client: &AuthorizedClient, upload: &Upload, contents: Vec<u8>) -> (r: HttpRequest)
    ensures
        r.method == Method::Post,
        r.url@ == api_url(client.base_url(), "/v2/documents"@),
        r.authorization matches Authorization::Bearer(t) && t@ == client.token_view().access_token,
        pairs_view(r.headers@) == seq![
            ("Content-Type"@, "multipart/form-data; boundary="@ + upload_boundary(upload@)),
            ("Accept"@, "application/json; charset=utf-8"@),
        ],
        r.body matches RequestBody::Bytes(b) && b@ == upload_body(upload@, contents@),
{
    let metadata = DocumentMetadata::from_upload(upload);
    let json = metadata.to_json();
    let boundary = generate_boundary(upload.filename.as_str().as_bytes());

    let mut parts: Vec<FormPart> = Vec::new();
    let json_bytes = json.as_str().as_bytes_vec();
    assert(json_bytes@ == encode_utf8(metadata_json(metadata_of(upload@))));
    let metadata_disposition = concat3("form-data; name=\"", "metadata", "\"");
    assert(metadata_disposition@ =~= form_data("metadata"@));
    parts.push(form_part("application/json", metadata_disposition, json_bytes));
    let mut disposition = concat3("form-data; name=\"", "document", "\"");
    disposition.append("; filename=\"");
    disposition.append(upload.filename.as_str());
    disposition.append("\"");
    assert(disposition@ =~= form_data("document"@) + "; filename=\""@ + upload@.filename + "\""@);
    parts.push(form_part(upload.mime_type.as_str(), disposition, contents));
    let ghost expected = upload_parts(upload@, contents@);
    assert(parts_view(parts@)[0] == expected[0]);
    assert(parts_view(parts@)[1] == expected[1]);
    assert(parts_view(parts@) =~= expected);

    let body = match write_parts(boundary.as_str(), parts) {
        Some(b) => b,
        None => Vec::new(),
    };

    let mut content_type = "multipart/form-data; boundary=".to_owned();
    content_type.append(boundary.as_str());
    let mut headers: Vec<(String, String)> = Vec::new();
    headers.push(pair("Content-Type", content_type.as_str()));
    headers.push(pair("Accept", "application/json; charset=utf-8"));
    assert(pairs_view(headers@) =~= seq![
        ("Content-Type"@, "multipart/form-data; boundary="@ + upload_boundary(upload@)),
        ("Accept"@, "application/json; charset=utf-8"@),
    ]);

    HttpRequest {
        method: Method::Post,
        url: client.api_url("/v2/documents"),
        authorization: client.bearer(),
        headers,
        body: RequestBody::Bytes(body),
    }
}

/// The identifier of the uploaded document: the response must be HTTP 201, and
/// `decoded_id` is the `id` that its JSON body holds.
pub fn upload_result(response: Response, decoded_id: Option<String>) -> (r: Result<String, Error>)
    ensures
        is_decoded_outcome(r, response, STATUS_CREATED, decoded_id, "decoding id"@),
{
    decoded_from_response(response, STATUS_CREATED, decoded_id, "decoding id")
}

} // verus!
