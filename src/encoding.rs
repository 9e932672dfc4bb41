//! Text encodings used on the wire: lowercase hex, JSON string literals and JSON
//! arrays of strings, and the SHA-256 digest.
use vstd::prelude::*;

verus! {

/// The lowercase hex digit of a value below 16.
pub open spec fn hex_digit(n: int) -> char {
    seq!['0', '1', '2', '3', '4', '5', '6', '7', '8', '9', 'a', 'b', 'c', 'd', 'e', 'f'][n]
}

/// Each byte as two lowercase hex digits, high nibble first.
pub open spec fn hex_lower(b: Seq<u8>) -> Seq<char>
    decreases b.len(),
{
    if b.len() == 0 {
        Seq::empty()
    } else {
        hex_lower(b.drop_last()) + seq![hex_digit(b.last() as int / 16), hex_digit(b.last() as int % 16)]
    }
}

/// The JSON escape of one character: quote, backslash and control characters are
/// escaped, every other character stands for itself.
pub open spec fn json_escape_char(c: char) -> Seq<char> {
    if c == '"' {
        seq!['\\', '"']
    } else if c == '\\' {
        seq!['\\', '\\']
    } else if c == '\x08' {
        seq!['\\', 'b']
    } else if c == '\t' {
        seq!['\\', 't']
    } else if c == '\n' {
        seq!['\\', 'n']
    } else if c == '\x0c' {
        seq!['\\', 'f']
    } else if c == '\r' {
        seq!['\\', 'r']
    } else if (c as u32) < 0x20 {
        seq!['\\', 'u', '0', '0', hex_digit((c as u32) as int / 16), hex_digit((c as u32) as int % 16)]
    } else {
        seq![c]
    }
}

/// The characters of `s`, each escaped for a JSON string literal.
pub open spec fn json_escaped(s: Seq<char>) -> Seq<char>
    decreases s.len(),
{
    if s.len() == 0 {
        Seq::empty()
    } else {
        json_escaped(s.drop_last()) + json_escape_char(s.last())
    }
}

/// `s` as a JSON string literal.
pub open spec fn json_quoted(s: Seq<char>) -> Seq<char> {
    seq!['"'] + json_escaped(s) + seq!['"']
}

/// The JSON string literals of `items`, separated by commas.
pub open spec fn json_items(items: Seq<Seq<char>>) -> Seq<char>
    decreases items.len(),
{
    if items.len() == 0 {
        Seq::empty()
    } else if items.len() == 1 {
        json_quoted(items[0])
    } else {
        json_items(items.drop_last()) + seq![','] + json_quoted(items.last())
    }
}

/// `items` as a JSON array of strings.
pub open spec fn json_array(items: Seq<Seq<char>>) -> Seq<char> {
    seq!['['] + json_items(items) + seq![']']
}

/// The character sequences that a list of strings holds.
pub open spec fn texts(items: Seq<String>) -> Seq<Seq<char>> {
    items.map_values(|s: String| s@)
}

/// The texts of an optional list.
pub open spec fn opt_texts(l: Option<Vec<String>>) -> Option<Seq<Seq<char>>> {
    match l {
        Some(v) => Some(texts(v@)),
        None => None,
    }
}

/// `key` and the JSON array of `l`, or nothing where there is no `l`.
pub open spec fn list_member(key: Seq<char>, l: Option<Seq<Seq<char>>>) -> Seq<char> {
    match l {
        Some(items) => key + json_array(items),
        None => Seq::empty(),
    }
}

/// A JSON object of at most two lists of strings, each member left out where its
/// list is `None`. The keys come with their quotes and colon.
pub open spec fn list_object(k1: Seq<char>, l1: Option<Seq<Seq<char>>>, k2: Seq<char>, l2: Option<Seq<Seq<char>>>) -> Seq<char> {
    let sep = if l1 is Some && l2 is Some { ","@ } else { Seq::empty() };
    "{"@ + list_member(k1, l1) + sep + list_member(k2, l2) + "}"@
}

/// The SHA-256 digest of a byte sequence.
pub uninterp spec fn sha256_of(data: Seq<u8>) -> Seq<u8>;

/// Relies on `ring::digest::digest` with `SHA256`: the digest of `data`, 32 bytes long.
#[verifier::external_body]
pub(crate) fn sha256(data: &[u8]) -> (r: Vec<u8>)
    ensures
        r@ == sha256_of(data@),
        r@.len() == 32,
{
    ring::digest::digest(&ring::digest::SHA256, data).as_ref().to_vec()
}

/// Relies on `hex::encode`: two lowercase hex digits for each byte.
#[verifier::external_body]
pub(crate) fn to_hex(data: &[u8]) -> (r: String)
    ensures
        r@ == hex_lower(data@),
{
    hex::encode(data)
}

/// Relies on `serde_json::to_string` on a string slice: the JSON string literal of
/// `s`. Writing into memory cannot fail, so there is always a result.
#[verifier::external_body]
fn serialize_str(s: &str) -> (r: Option<String>)
    ensures
        r.is_some(),
        r.unwrap()@ == json_quoted(s@),
{
    serde_json::to_string(s).ok()
}

/// Appends `s` to `out` as a JSON string literal.
pub fn push_json_str(out: &mut String, s: &str)
    ensures
        final(out)@ == old(out)@ + json_quoted(s@),
{
    match serialize_str(s) {
        Some(q) => out.append(q.as_str()),
        None => {},
    }
}

/// Appends `items` to `out` as a JSON array of strings.
pub fn push_json_array(out: &mut String, items: &Vec<String>)
    ensures
        final(out)@ == old(out)@ + json_array(texts(items@)),
{
    let ghost start = out@;
    proof {
        reveal_strlit("[");
        reveal_strlit(",");
        reveal_strlit("]");
    }
    out.append("[");
    assert(texts(items@.subrange(0, 0)) =~= Seq::<Seq<char>>::empty());
    assert(out@ =~= start + seq!['['] + json_items(texts(items@.subrange(0, 0))));
    let mut i: usize = 0;
    while i < items.len()
        invariant
            i <= items.len(),
            out@ == start + seq!['['] + json_items(texts(items@.subrange(0, i as int))),
        decreases items.len() - i,
    {
        let ghost before = items@.subrange(0, i as int);
        let ghost mid = out@;
        proof {
            reveal_strlit(",");
        }
        if i > 0 {
            out.append(",");
        }
        push_json_str(out, items[i].as_str());
        proof {
            let now = items@.subrange(0, i + 1);
            assert(now.drop_last() =~= before);
            assert(texts(now).drop_last() =~= texts(before));
            assert(texts(now).last() == items@[i as int]@);
            if i == 0 {
                assert(texts(now).len() == 1);
                assert(json_items(texts(now)) == json_quoted(texts(now)[0]));
                assert(out@ =~= start + seq!['['] + json_items(texts(now)));
            } else {
                assert(texts(now).len() > 1);
                assert(json_items(texts(now)) == json_items(texts(now).drop_last()) + seq![',']
                    + json_quoted(texts(now).last()));
                assert(out@ =~= start + seq!['['] + json_items(texts(now)));
            }
        }
        i = i + 1;
    }
    assert(items@.subrange(0, items.len() as int) =~= items@);
    out.append("]");
    assert(out@ =~= start + json_array(texts(items@)));
}

/// Appends `key` and the JSON array of `l` to `out`, where there is an `l`.
fn push_list_member(out: &mut String, key: &str, l: &Option<Vec<String>>)
    ensures
        final(out)@ == old(out)@ + list_member(key@, opt_texts(*l)),
{
    match l {
        Some(items) => {
            out.append(key);
            push_json_array(out, items);
            assert(final(out)@ =~= old(out)@ + list_member(key@, opt_texts(*l)));
        },
        None => {
            assert(final(out)@ =~= old(out)@ + list_member(key@, opt_texts(*l)));
        },
    }
}

/// Appends the JSON object of the lists `l1` under `k1` and `l2` under `k2` to `out`.
pub fn push_list_object(out: &mut String, k1: &str, l1: &Option<Vec<String>>, k2: &str, l2: &Option<Vec<String>>)
    ensures
        final(out)@ == old(out)@ + list_object(k1@, opt_texts(*l1), k2@, opt_texts(*l2)),
{
    let ghost start = out@;
    out.append("{");
    push_list_member(out, k1, l1);
    let ghost b = out@;
    if l1.is_some() && l2.is_some() {
        out.append(",");
    }
    let ghost c = out@;
    push_list_member(out, k2, l2);
    out.append("}");
    assert(out@ =~= start + list_object(k1@, opt_texts(*l1), k2@, opt_texts(*l2)));
}

} // verus!
