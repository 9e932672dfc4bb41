//! Downloads: the request, the expected length and file name read from the
//! response headers, and the check of the bytes received.
use vstd::prelude::*;
use vstd::utf8::{decode_utf8, valid_utf8};

use hyper::header::{ContentDisposition, DispositionParam, Header};

use crate::client::auth::opt_text;
use crate::client::{api_url, AuthorizedClient};
use crate::errors::{Error, ErrorKind};
use crate::http::{concat3, is_plain, Authorization, HttpRequest, Method, RequestBody};

verus! {

/// What to download and where to: a document, a directory, and optionally a file
/// name that replaces the one the server suggests.
pub ghost struct DownloadView {
    pub document_id: Seq<char>,
    pub dir: Seq<char>,
    pub filename: Option<Seq<char>>,
}

/// A document to download into a directory.
pub struct Download {
    document_id: String,
    dir: String,
    filename: Option<String>,
}

impl View for Download {
    type V = DownloadView;

    closed spec fn view(&self) -> DownloadView {
        DownloadView { document_id: self.document_id@, dir: self.dir@, filename: opt_text(self.filename) }
    }
}

impl Download {
    /// A download of `document_id` into the directory `dir`, under the name the
    /// server suggests.
    pub fn new(document_id: String, dir: &str) -> (r: Download)
        ensures
            r@ == (DownloadView { document_id: document_id@, dir: dir@, filename: None }),
    {
        Download { document_id, dir: dir.to_owned(), filename: None }
    }

    /// The same download, saved under `filename` instead.
    pub fn filename(self, filename: &str) -> (r: Download)
        ensures
            r@ == (DownloadView { filename: Some(filename@), ..self@ }),
    {
        Download { filename: Some(filename.to_owned()), ..self }
    }

    /// The directory to save into.
    pub fn dir(&self) -> (r: &str)
        ensures
            r@ == self@.dir,
    {
        self.dir.as_str()
    }
}

/// The request that fetches the document: a GET of `/v2/document/<id>` with the
/// bearer token.
pub fn download_request(client: &AuthorizedClient, download: &Download) -> (r: HttpRequest)
    ensures
        r.method == Method::Get,
        r.url@ == api_url(client.base_url(), "/v2/document/"@ + download@.document_id),
        r.authorization matches Authorization::Bearer(t) && t@ == client.token_view().access_token,
        r.headers@.len() == 0,
        r.body is Empty,
{
    let path = concat3("/v2/document/", download.document_id.as_str(), "");
    proof {
        reveal_strlit("");
    }
    assert(path@ =~= "/v2/document/"@ + download@.document_id);
    HttpRequest {
        method: Method::Get,
        url: client.api_url(path.as_str()),
        authorization: client.bearer(),
        headers: Vec::new(),
        body: RequestBody::Empty,
    }
}

/// The byte `b` is an ASCII decimal digit.
pub open spec fn is_digit(b: u8) -> bool {
    48 <= b <= 57
}

/// The number that a sequence of decimal digits writes.
pub open spec fn digits_value(d: Seq<u8>) -> nat
    decreases d.len(),
{
    if d.len() == 0 {
        0
    } else {
        digits_value(d.drop_last()) * 10 + (d.last() - 48) as nat
    }
}

/// The digits of an unsigned number in text: all of it, or what follows one
/// leading `+`.
pub open spec fn unsigned_digits(text: Seq<u8>) -> Seq<u8> {
    if text.len() > 0 && text[0] == 43u8 {
        text.subrange(1, text.len() as int)
    } else {
        text
    }
}

/// The `u64` that `text` writes in decimal (with an optional leading `+`), or
/// `None` where it is empty, holds anything but digits, or is too large.
pub open spec fn u64_of_text(text: Seq<u8>) -> Option<u64> {
    let d = unsigned_digits(text);
    if d.len() > 0 && (forall|i: int| 0 <= i < d.len() ==> is_digit(#[trigger] d[i])) && digits_value(d) <= u64::MAX {
        Some(digits_value(d) as u64)
    } else {
        None
    }
}

/// More digits never make a smaller number.
proof fn lemma_digits_value_grows(d: Seq<u8>, n: int)
    requires
        0 <= n <= d.len(),
        forall|i: int| 0 <= i < d.len() ==> is_digit(#[trigger] d[i]),
    ensures
        digits_value(d.subrange(0, n)) <= digits_value(d),
    decreases d.len() - n,
{
    if n < d.len() {
        let p = d.subrange(0, n);
        let q = d.subrange(0, n + 1);
        assert(q.drop_last() =~= p);
        assert(digits_value(q) == digits_value(p) * 10 + (q.last() - 48) as nat);
        lemma_digits_value_grows(d, n + 1);
    } else {
        assert(d.subrange(0, n) =~= d);
    }
}

/// The declared length of the body, from the raw `Content-Length` header; a
/// missing header or one that is not a decimal `u64` is `FailedToGetContentLength`.
pub fn get_content_length(header: Option<&[u8]>) -> (r: Result<u64, Error>)
    ensures
        match header {
            Some(h) => match u64_of_text(h@) {
                Some(n) => r == Ok::<u64, Error>(n),
                None => r matches Err(e) && is_plain(e, ErrorKind::FailedToGetContentLength),
            },
            None => r matches Err(e) && is_plain(e, ErrorKind::FailedToGetContentLength),
        },
{
    let h = match header {
        Some(h) => h,
        None => return Err(Error::from(ErrorKind::FailedToGetContentLength)),
    };
    let start: usize = if h.len() > 0 && h[0] == 43u8 { 1 } else { 0 };
    let ghost d = unsigned_digits(h@);
    assert(d =~= h@.subrange(start as int, h@.len() as int));
    if start >= h.len() {
        assert(d.len() == 0);
        assert(u64_of_text(h@) is None);
        return Err(Error::from(ErrorKind::FailedToGetContentLength));
    }
    let mut value: u64 = 0;
    let mut i: usize = start;
    while i < h.len()
        invariant
            start <= i <= h.len(),
            header == Some(h),
            d == unsigned_digits(h@),
            d =~= h@.subrange(start as int, h@.len() as int),
            forall|k: int| 0 <= k < i - start ==> is_digit(#[trigger] d[k]),
            value as nat == digits_value(d.subrange(0, i - start)),
        decreases h.len() - i,
    {
        let b = h[i];
        if b < 48u8 || b > 57u8 {
            assert(!is_digit(d[i - start]));
            assert(u64_of_text(h@) is None);
            return Err(Error::from(ErrorKind::FailedToGetContentLength));
        }
        let digit = (b - 48u8) as u64;
        let ghost p = d.subrange(0, i - start);
        let ghost q = d.subrange(0, i - start + 1);
        assert(q.drop_last() =~= p);
        if value > (u64::MAX - digit) / 10 {
            proof {
                assert(digits_value(q) == digits_value(p) * 10 + digit as nat);
                assert(digits_value(q) > u64::MAX) by (nonlinear_arith)
                    requires
                        value > (u64::MAX - digit) / 10,
                        digits_value(q) == value * 10 + digit,
                        digit < 10,
                {}
                if forall|k: int| 0 <= k < d.len() ==> is_digit(#[trigger] d[k]) {
                    lemma_digits_value_grows(d, i - start + 1);
                }
                assert(u64_of_text(h@) is None);
            }
            return Err(Error::from(ErrorKind::FailedToGetContentLength));
        }
        proof {
            assert(value * 10 + digit <= u64::MAX) by (nonlinear_arith)
                requires
                    value <= (u64::MAX - digit) / 10,
                    digit < 10,
            {}
        }
        value = value * 10 + digit;
        i = i + 1;
    }
    assert(d.subrange(0, d.len() as int) =~= d);
    Ok(value)
}

/// The parameters of a `Content-Disposition` header as hyper parses them: for each,
/// the raw file name where it is a file name parameter, `None` for any other;
/// `None` where the header does not parse.
pub uninterp spec fn parsed_disposition(header: Seq<u8>) -> Option<Seq<Option<Seq<u8>>>>;

/// The view of parsed disposition parameters.
pub open spec fn params_view(ps: Seq<Option<Vec<u8>>>) -> Seq<Option<Seq<u8>>> {
    ps.map_values(|p: Option<Vec<u8>>| match p {
        Some(b) => Some(b@),
        None => None,
    })
}

/// Relies on `ContentDisposition::parse_header` of hyper: the header's parameters,
/// each one a file name (its raw bytes) or another parameter.
#[verifier::external_body]
fn parse_disposition(header: &[u8]) -> (r: Option<Vec<Option<Vec<u8>>>>)
    ensures
        match r {
            Some(ps) => parsed_disposition(header@) == Some(params_view(ps@)),
            None => parsed_disposition(header@) is None,
        },
{
    match ContentDisposition::parse_header(&[header.to_vec()]) {
        Ok(cd) => Some(cd.parameters.into_iter().map(|p| match p {
            DispositionParam::Filename(_, _, bytes) => Some(bytes),
            DispositionParam::Ext(_, _) => None,
        }).collect()),
        Err(_) => None,
    }
}

/// Relies on `String::from_utf8`: the text of `bytes` where they are valid UTF-8.
#[verifier::external_body]
fn utf8_text(bytes: Vec<u8>) -> (r: Option<String>)
    ensures
        r is Some <==> valid_utf8(bytes@),
        r matches Some(s) ==> s@ == decode_utf8(bytes@),
{
    String::from_utf8(bytes).ok()
}

/// The first file name among the parameters.
pub open spec fn first_filename(ps: Seq<Option<Seq<u8>>>) -> Option<Seq<u8>>
    decreases ps.len(),
{
    if ps.len() == 0 {
        None
    } else if ps[0] is Some {
        ps[0]
    } else {
        first_filename(ps.subrange(1, ps.len() as int))
    }
}

/// The file name that a `Content-Disposition` header gives: the first file name
/// parameter, which must be valid UTF-8.
pub open spec fn disposition_filename(header: Seq<u8>) -> Option<Seq<char>> {
    match parsed_disposition(header) {
        Some(ps) => match first_filename(ps) {
            Some(b) => if valid_utf8(b) { Some(decode_utf8(b)) } else { None },
            None => None,
        },
        None => None,
    }
}

/// The file name that the raw `Content-Disposition` header suggests; a missing
/// header, one that does not parse, one without a file name, or a name that is not
/// UTF-8 is `FailedToGetFilename`.
pub fn get_filename(header: Option<&[u8]>) -> (r: Result<String, Error>)
    ensures
        match header {
            Some(h) => match disposition_filename(h@) {
                Some(n) => r matches Ok(s) && s@ == n,
                None => r matches Err(e) && is_plain(e, ErrorKind::FailedToGetFilename),
            },
            None => r matches Err(e) && is_plain(e, ErrorKind::FailedToGetFilename),
        },
{
    let h = match header {
        Some(h) => h,
        None => return Err(Error::from(ErrorKind::FailedToGetFilename)),
    };
    let params = match parse_disposition(h) {
        Some(ps) => ps,
        None => return Err(Error::from(ErrorKind::FailedToGetFilename)),
    };
    let ghost pv = params_view(params@);
    assert(pv.subrange(0, pv.len() as int) =~= pv);
    let mut i: usize = 0;
    while i < params.len()
        invariant
            i <= params.len(),
            pv == params_view(params@),
            header == Some(h),
            parsed_disposition(h@) == Some(pv),
            first_filename(pv) == first_filename(pv.subrange(i as int, pv.len() as int)),
        decreases params.len() - i,
    {
        let ghost rest = pv.subrange(i as int, pv.len() as int);
        assert(rest.subrange(1, rest.len() as int) =~= pv.subrange(i + 1, pv.len() as int));
        match &params[i] {
            Some(bytes) => {
                assert(pv[i as int] == Some(bytes@));
                assert(first_filename(rest) == Some(bytes@));
                return match utf8_text(vstd::slice::slice_to_vec(bytes.as_slice())) {
                    Some(s) => Ok(s),
                    None => Err(Error::from(ErrorKind::FailedToGetFilename)),
                };
            },
            None => {},
        }
        i = i + 1;
    }
    assert(pv.subrange(i as int, pv.len() as int).len() == 0);
    Err(Error::from(ErrorKind::FailedToGetFilename))
}

/// Where and how much to save: the declared length and the file name.
pub struct DownloadTarget {
    pub length: u64,
    pub filename: String,
}

/// The target of a download that the server answered with HTTP 200: the length from
/// `Content-Length`, and the file name given to the download or else the one that
/// `Content-Disposition` suggests. The length is read first, so its error wins.
pub fn download_target(download: &Download, content_length: Option<&[u8]>, content_disposition: Option<&[u8]>) -> (r: Result<DownloadTarget, Error>)
    ensures
        match content_length {
            None => r matches Err(e) && is_plain(e, ErrorKind::FailedToGetContentLength),
            Some(h) => match u64_of_text(h@) {
                None => r matches Err(e) && is_plain(e, ErrorKind::FailedToGetContentLength),
                Some(n) => match download@.filename {
                    Some(f) => r matches Ok(t) && t.length == n && t.filename@ == f,
                    None => match content_disposition {
                        Some(d) => match disposition_filename(d@) {
                            Some(f) => r matches Ok(t) && t.length == n && t.filename@ == f,
                            None => r matches Err(e) && is_plain(e, ErrorKind::FailedToGetFilename),
                        },
                        None => r matches Err(e) && is_plain(e, ErrorKind::FailedToGetFilename),
                    },
                },
            },
        },
{
    let length = match get_content_length(content_length) {
        Ok(n) => n,
        Err(e) => return Err(e),
    };
    let filename = match &download.filename {
        Some(f) => f.clone(),
        None => match get_filename(content_disposition) {
            Ok(f) => f,
            Err(e) => return Err(e),
        },
    };
    Ok(DownloadTarget { length, filename })
}

/// The outcome of a finished transfer: the number of bytes written where it equals
/// the declared length, `ContentLengthMismatch` otherwise.
pub fn check_length(expected: u64, written: u64) -> (r: Result<u64, Error>)
    ensures
        expected == written ==> r == Ok::<u64, Error>(written),
        expected != written ==> (r matches Err(e) && is_plain(e, ErrorKind::ContentLengthMismatch(expected, written))),
{
    if expected == written {
        Ok(written)
    } else {
        Err(Error::from(ErrorKind::ContentLengthMismatch(expected, written)))
    }
}

} // verus!
