//! The `multipart/form-data` body of an upload, and the boundary that frames it.
use vstd::prelude::*;
use vstd::utf8::encode_utf8;

use hyper::header::Headers;
use mime_multipart::{write_multipart, Node, Part};

use crate::encoding::{hex_digit, hex_lower, sha256, sha256_of, to_hex};

verus! {

/// The boundary for a body whose file part is named by `seed`: `Boundary_` and the
/// lowercase hex of the SHA-256 digest of `seed`. Only ASCII letters, digits and
/// `_` occur in it.
pub open spec fn boundary_of(seed: Seq<u8>) -> Seq<char> {
    "Boundary_"@ + hex_lower(sha256_of(seed))
}

/// The boundary derived from `seed`, the bytes of the uploaded file's name. It is
/// derived from content rather than drawn at random, so that it is the same on
/// every run and holds no character that a server could reject.
pub fn generate_boundary(seed: &[u8]) -> (r: String)
    ensures
        r@ == boundary_of(seed@),
{
    let digest = sha256(seed);
    let hex = to_hex(digest.as_slice());
    let mut s = "Boundary_".to_owned();
    s.append(hex.as_str());
    s
}

/// Equal seeds give equal boundaries: the boundary depends on the file name's bytes
/// alone, on every run.
pub proof fn boundary_is_deterministic(a: Seq<u8>, b: Seq<u8>)
    requires
        a == b,
    ensures
        boundary_of(a) == boundary_of(b),
{
}

/// Seeds whose SHA-256 digests differ get different boundaries. How likely two
/// different file names are to share a digest is a property of SHA-256 that is not
/// proved here.
pub proof fn boundary_separates_digests(a: Seq<u8>, b: Seq<u8>)
    requires
        sha256_of(a) != sha256_of(b),
    ensures
        boundary_of(a) != boundary_of(b),
{
    if boundary_of(a) == boundary_of(b) {
        let p = "Boundary_"@;
        assert(boundary_of(a).subrange(p.len() as int, boundary_of(a).len() as int) =~= hex_lower(sha256_of(a)));
        assert(boundary_of(b).subrange(p.len() as int, boundary_of(b).len() as int) =~= hex_lower(sha256_of(b)));
        lemma_hex_lower_injective(sha256_of(a), sha256_of(b));
    }
}

/// Two hex digits below 16 are the same character only for the same value.
proof fn lemma_hex_digit_injective(x: int, y: int)
    requires
        0 <= x < 16,
        0 <= y < 16,
        hex_digit(x) == hex_digit(y),
    ensures
        x == y,
{
    let digits = seq!['0', '1', '2', '3', '4', '5', '6', '7', '8', '9', 'a', 'b', 'c', 'd', 'e', 'f'];
    assert(hex_digit(x) == digits[x]);
    assert(hex_digit(y) == digits[y]);
}

/// The hex text of `b` has two characters for each byte.
proof fn lemma_hex_lower_len(b: Seq<u8>)
    ensures
        hex_lower(b).len() == 2 * b.len(),
    decreases b.len(),
{
    if b.len() > 0 {
        lemma_hex_lower_len(b.drop_last());
    }
}

/// Different byte sequences have different hex texts.
proof fn lemma_hex_lower_injective(a: Seq<u8>, b: Seq<u8>)
    requires
        hex_lower(a) == hex_lower(b),
    ensures
        a == b,
    decreases a.len(),
{
    lemma_hex_lower_len(a);
    lemma_hex_lower_len(b);
    if a.len() > 0 {
        let h = hex_lower(a);
        let n = h.len() as int;
        let (x, y) = (a.last() as int, b.last() as int);
        assert(h[n - 2] == hex_digit(x / 16));
        assert(h[n - 2] == hex_digit(y / 16));
        assert(h[n - 1] == hex_digit(x % 16));
        assert(h[n - 1] == hex_digit(y % 16));
        lemma_hex_digit_injective(x / 16, y / 16);
        lemma_hex_digit_injective(x % 16, y % 16);
        assert(x == y);
        assert(hex_lower(a.drop_last()) =~= h.subrange(0, n - 2));
        assert(hex_lower(b.drop_last()) =~= h.subrange(0, n - 2));
        lemma_hex_lower_injective(a.drop_last(), b.drop_last());
        assert(a =~= a.drop_last().push(a.last()));
        assert(b =~= b.drop_last().push(b.last()));
    } else {
        assert(a =~= b);
    }
}

/// One part of a multipart body: its headers by name and value, and its content.
pub struct FormPart {
    pub headers: Vec<(String, String)>,
    pub body: Vec<u8>,
}

/// The content of a part: headers as text, body as bytes.
pub ghost struct FormPartView {
    pub headers: Seq<(Seq<char>, Seq<char>)>,
    pub body: Seq<u8>,
}

impl View for FormPart {
    type V = FormPartView;

    open spec fn view(&self) -> FormPartView {
        FormPartView { headers: crate::http::pairs_view(self.headers@), body: self.body@ }
    }
}

/// The parts as plain values.
pub open spec fn parts_view(parts: Seq<FormPart>) -> Seq<FormPartView> {
    parts.map_values(|p: FormPart| p@)
}

/// `a` and `b` are the same ASCII letter but for case.
pub open spec fn same_letter_ignoring_case(a: char, b: char) -> bool {
    ||| a == b
    ||| ('A' <= a && a <= 'Z' && b as u32 == a as u32 + 32)
    ||| ('A' <= b && b <= 'Z' && a as u32 == b as u32 + 32)
}

/// `a` and `b` are equal when ASCII letters are compared without case.
pub open spec fn eq_ignoring_ascii_case(a: Seq<char>, b: Seq<char>) -> bool {
    a.len() == b.len() && forall|i: int| 0 <= i < a.len() ==> same_letter_ignoring_case(#[trigger] a[i], b[i])
}

/// No two headers of the part have the same name, compared without ASCII case.
pub open spec fn distinct_header_names(p: FormPartView) -> bool {
    forall|i: int, j: int|
        0 <= i < j < p.headers.len() ==> !eq_ignoring_ascii_case(#[trigger] p.headers[i].0, #[trigger] p.headers[j].0)
}

/// A header value with each carriage return and line feed turned into a space.
pub open spec fn one_line(value: Seq<char>) -> Seq<char> {
    value.map_values(|c: char| if c == '\r' || c == '\n' { ' ' } else { c })
}

/// `--`.
pub open spec fn dashes() -> Seq<u8> {
    seq![45u8, 45u8]
}

/// A line end.
pub open spec fn crlf() -> Seq<u8> {
    seq![13u8, 10u8]
}

/// The header lines `name: value`, each ended by a line end.
pub open spec fn header_lines(hs: Seq<(Seq<char>, Seq<char>)>) -> Seq<u8>
    decreases hs.len(),
{
    if hs.len() == 0 {
        Seq::empty()
    } else {
        header_lines(hs.drop_last()) + encode_utf8(hs.last().0) + seq![58u8, 32u8]
            + encode_utf8(one_line(hs.last().1)) + crlf()
    }
}

/// One part with its opening delimiter: `--boundary`, the header lines, an empty
/// line, the content, and a line end.
pub open spec fn part_bytes(boundary: Seq<u8>, p: FormPartView) -> Seq<u8> {
    dashes() + boundary + crlf() + header_lines(p.headers) + crlf() + p.body + crlf()
}

/// The parts one after the other.
pub open spec fn parts_bytes(boundary: Seq<u8>, ps: Seq<FormPartView>) -> Seq<u8>
    decreases ps.len(),
{
    if ps.len() == 0 {
        Seq::empty()
    } else {
        parts_bytes(boundary, ps.drop_last()) + part_bytes(boundary, ps.last())
    }
}

/// A whole multipart body: the parts, then the closing delimiter `--boundary--`.
pub open spec fn multipart_bytes(boundary: Seq<u8>, ps: Seq<FormPartView>) -> Seq<u8> {
    parts_bytes(boundary, ps) + dashes() + boundary + dashes()
}

/// Relies on `mime_multipart::write_multipart`, with each part held in memory as a
/// `Part` whose headers are set raw in the given order: it writes each part as
/// `--boundary`, the header lines, an empty line and the content, each part ended
/// by a line end, and closes with `--boundary--`. Writing into memory does not
/// fail, so there is always a result.
#[verifier::external_body]
pub(crate) fn write_parts(boundary: &str, parts: Vec<FormPart>) -> (r: Option<Vec<u8>>)
    requires
        forall|i: int| 0 <= i < parts@.len() ==> distinct_header_names(#[trigger] parts@[i]@),
    ensures
        r.is_some(),
        r.unwrap()@ == multipart_bytes(encode_utf8(boundary@), parts_view(parts@)),
{
    let nodes: Vec<Node> = parts.into_iter().map(|p| {
        let mut headers = Headers::new();
        for (name, value) in p.headers {
            headers.set_raw(name, vec![value.into_bytes()]);
        }
        Node::Part(Part { headers, body: p.body })
    }).collect();
    let mut out: Vec<u8> = Vec::new();
    write_multipart(&mut out, &boundary.as_bytes().to_vec(), &nodes).ok().map(|_| out)
}

} // verus!
