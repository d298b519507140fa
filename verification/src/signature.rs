//! MD5-based request and webhook signatures, and the header lookup that
//! finds a webhook's signature.
use vstd::prelude::*;
use crate::text::{eq_ignore_ascii_case, hex_lower, lemma_hex_lower_chars, lemma_hex_lower_len, str_eq_ignore_ascii_case};

verus! {

/// The MD5 digest of a byte string, as the `md5` crate computes it.
pub uninterp spec fn md5_digest(data: Seq<u8>) -> Seq<u8>;

/// `md5::compute`: the 16-byte MD5 digest of `data`. Its value is taken to be
/// `md5_digest` of the input; the algorithm itself is not restated here.
#[verifier::external_body]
pub(crate) fn md5_compute(data: &[u8]) -> (digest: Vec<u8>)
    ensures
        digest@ == md5_digest(data@),
        digest@.len() == 16,
{
    md5::compute(data).0.to_vec()
}

/// `hex::encode`: each byte becomes two lower-case hexadecimal characters,
/// high nibble first.
#[verifier::external_body]
pub(crate) fn hex_encode(data: &[u8]) -> (s: String)
    ensures
        s@ == hex_lower(data@),
{
    hex::encode(data)
}

/// The signature of a payload under a secret: the lower-case hex MD5 digest
/// of the payload bytes followed by the UTF-8 bytes of the secret.
pub open spec fn spec_signature(payload: Seq<u8>, secret: Seq<char>) -> Seq<char> {
    hex_lower(md5_digest(payload + vstd::utf8::encode_utf8(secret)))
}

/// Computes `spec_signature` of a payload and a secret.
pub fn sign_payload(payload: &[u8], secret: &str) -> (s: String)
    ensures
        s@ == spec_signature(payload@, secret@),
        s@.len() == 32,
{
    let mut bytes: Vec<u8> = vstd::slice::slice_to_vec(payload);
    let secret_bytes = secret.as_bytes();
    bytes.extend_from_slice(secret_bytes);
    proof {
        assert(bytes@ =~= payload@ + secret_bytes@);
    }
    let digest = md5_compute(bytes.as_slice());
    let s = hex_encode(digest.as_slice());
    proof {
        lemma_hex_lower_len(digest@);
    }
    s
}

/// A character HTTP allows in a header value that converts to text: visible
/// ASCII or a horizontal tab.
pub open spec fn is_visible_ascii(c: char) -> bool {
    (' ' <= c && c <= '~') || c == '\t'
}

/// The value of the first header whose name matches `name` without regard to
/// ASCII case.
pub open spec fn header_value(headers: Seq<(Seq<char>, Seq<char>)>, name: Seq<char>) -> Option<Seq<char>>
    decreases headers.len(),
{
    if headers.len() == 0 {
        None
    } else if eq_ignore_ascii_case(headers[0].0, name) {
        Some(headers[0].1)
    } else {
        header_value(headers.drop_first(), name)
    }
}

/// The view of a header list as pairs of character sequences.
pub open spec fn headers_view(headers: Seq<(String, String)>) -> Seq<(Seq<char>, Seq<char>)> {
    headers.map_values(|h: (String, String)| (h.0@, h.1@))
}

/// The value of a header as text: present, and made of visible ASCII only.
pub open spec fn header_text(headers: Seq<(Seq<char>, Seq<char>)>, name: Seq<char>) -> Option<Seq<char>> {
    match header_value(headers, name) {
        Some(v) => if forall|i: int| 0 <= i < v.len() ==> is_visible_ascii(#[trigger] v[i]) {
            Some(v)
        } else {
            None
        },
        None => None,
    }
}

fn all_visible_ascii(s: &str) -> (r: bool)
    ensures
        r == (forall|i: int| 0 <= i < s@.len() ==> is_visible_ascii(#[trigger] s@[i])),
{
    let n = s.unicode_len();
    let mut i: usize = 0;
    while i < n
        invariant
            n == s@.len(),
            i <= n,
            forall|j: int| 0 <= j < i ==> is_visible_ascii(#[trigger] s@[j]),
        decreases n - i,
    {
        let c = s.get_char(i);
        if !((' ' <= c && c <= '~') || c == '\t') {
            return false;
        }
        i = i + 1;
    }
    true
}

/// Looks up a header by name, ignoring ASCII case, and returns its value when
/// it is text; `None` when it is absent or not visible ASCII.
pub fn get_header_key_value(key: &str, headers: &Vec<(String, String)>) -> (r: Option<String>)
    ensures
        match r {
            Some(v) => header_text(headers_view(headers@), key@) == Some(v@),
            None => header_text(headers_view(headers@), key@) is None,
        },
{
    let ghost hv = headers_view(headers@);
    let n = headers.len();
    let mut i: usize = 0;
    assert(hv.skip(0) =~= hv);
    while i < n
        invariant
            n == headers@.len(),
            hv == headers_view(headers@),
            i <= n,
            header_value(hv, key@) == header_value(hv.skip(i as int), key@),
        decreases n - i,
    {
        assert(hv.skip(i as int).drop_first() =~= hv.skip(i + 1));
        if str_eq_ignore_ascii_case(headers[i].0.as_str(), key) {
            let v = headers[i].1.clone();
            if all_visible_ascii(v.as_str()) {
                return Some(v);
            } else {
                return None;
            }
        }
        i = i + 1;
    }
    assert(hv.skip(n as int) =~= Seq::<(Seq<char>, Seq<char>)>::empty());
    None
}

/// A webhook whose first signature header carries the genuine signature of
/// its body under the merchant's secret passes the header check, and the
/// comparison accepts it.
pub proof fn law_genuine_signature_accepted(
    headers: Seq<(Seq<char>, Seq<char>)>,
    name: Seq<char>,
    body: Seq<u8>,
    secret: Seq<char>,
)
    requires
        header_value(headers, name) == Some(spec_signature(body, secret)),
    ensures
        header_text(headers, name) == Some(spec_signature(body, secret)),
        eq_ignore_ascii_case(spec_signature(body, secret), spec_signature(body, secret)),
{
    let sig = spec_signature(body, secret);
    lemma_hex_lower_chars(md5_digest(body + vstd::utf8::encode_utf8(secret)));
    assert forall|i: int| 0 <= i < sig.len() implies is_visible_ascii(#[trigger] sig[i]) by {}
}

} // verus!
