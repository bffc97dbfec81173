//! Response transcoding: transport header values come back as raw bytes
//! and are converted to text, and the drained body bytes are encoded in
//! a text-safe transport form.

use vstd::prelude::*;
use vstd::string::StringExecFns;

use crate::error::Error;
use crate::error::ErrorKind;
use crate::headers::pairs_view;
use crate::headers::push_char;

verus! {

/// A byte a response header value may hold while still being
/// representable as text: visible ASCII or horizontal tab.
pub open spec fn is_text_byte(b: u8) -> bool {
    (32 <= b && b < 127) || b == 9
}

/// Every byte of the sequence is representable as text.
pub open spec fn text_bytes(bs: Seq<u8>) -> bool {
    forall|i: int| 0 <= i < bs.len() ==> is_text_byte(#[trigger] bs[i])
}

/// The text a sequence of ASCII bytes spells.
pub open spec fn ascii_str_of(bs: Seq<u8>) -> Seq<char> {
    bs.map_values(|b: u8| b as char)
}

/// A vector of (name, value-bytes) pairs, seen as sequences.
pub open spec fn byte_pairs_view(v: Seq<(String, Vec<u8>)>) -> Seq<(Seq<char>, Seq<u8>)> {
    Seq::new(v.len(), |i: int| (v[i].0@, v[i].1@))
}

/// The model of a fully transcoded header collection: every value read
/// as the text its bytes spell, names kept as they are.
pub open spec fn stringfy_model(rv: Seq<(Seq<char>, Seq<u8>)>) -> Seq<(Seq<char>, Seq<char>)> {
    rv.map_values(|p: (Seq<char>, Seq<u8>)| (p.0, ascii_str_of(p.1)))
}

/// What the text-safe body encoding returns for a given byte sequence:
/// the base64 form of the bytes. The result depends on the bytes alone.
pub uninterp spec fn base64_of(bs: Seq<u8>) -> Seq<char>;

/// Relies on `base64::encode`: the standard alphabet with padding, so
/// the output holds four characters for every three input bytes, the
/// last group padded; the result depends on the input bytes alone.
#[verifier::external_body]
fn base64_encode(bytes: &Vec<u8>) -> (r: String)
    requires
        bytes@.len() <= usize::MAX as nat / 2,
    ensures
        r@ == base64_of(bytes@),
        r@.len() == 4 * ((bytes@.len() + 2) / 3),
{
    base64::encode(bytes.as_slice())
}

/// Decides whether a value's bytes are all representable as text.
pub fn check_text_bytes(bs: &Vec<u8>) -> (r: bool)
    ensures
        r == text_bytes(bs@),
{
    let n = bs.len();
    let mut i: usize = 0;
    while i < n
        invariant
            n == bs@.len(),
            i <= n,
            forall|j: int| 0 <= j < i ==> is_text_byte(#[trigger] bs@[j]),
        decreases n - i,
    {
        let b = bs[i];
        if !((32 <= b && b < 127) || b == 9) {
            assert(!text_bytes(bs@));
            return false;
        }
        i += 1;
    }
    true
}

/// Reads a text-representable byte sequence as a string.
fn bytes_to_text(bs: &Vec<u8>) -> (r: String)
    requires
        text_bytes(bs@),
    ensures
        r@ == ascii_str_of(bs@),
{
    let n = bs.len();
    let mut out = String::new();
    let mut i: usize = 0;
    while i < n
        invariant
            n == bs@.len(),
            i <= n,
            text_bytes(bs@),
            out@ =~= ascii_str_of(bs@).subrange(0, i as int),
        decreases n - i,
    {
        let b = bs[i];
        push_char(&mut out, b as char);
        assert(out@ =~= ascii_str_of(bs@).subrange(0, i + 1));
        i += 1;
    }
    assert(out@ =~= ascii_str_of(bs@));
    out
}

/// Converts response headers, handed over as (name, value-bytes) pairs,
/// to a collection of plain string pairs.
///
/// Pairs are processed in input order; the first value that is not
/// representable as text aborts the conversion. On success every pair is
/// retained, in order, with its value read as text.
pub fn stringfy_headers(raw: &Vec<(String, Vec<u8>)>) -> (r: Result<Vec<(String, String)>, Error>)
    ensures
        r is Ok <==> (forall|i: int|
            0 <= i < raw@.len() ==> text_bytes(#[trigger] byte_pairs_view(raw@)[i].1)),
        r matches Ok(v) ==> pairs_view(v@) == stringfy_model(byte_pairs_view(raw@)),
        r matches Err(e) ==> e.kind == ErrorKind::HeaderEncodingError && exists|i: int|
            {
                &&& 0 <= i < raw@.len()
                &&& !text_bytes(#[trigger] byte_pairs_view(raw@)[i].1)
                &&& (forall|j: int|
                    0 <= j < i ==> text_bytes(#[trigger] byte_pairs_view(raw@)[j].1))
            },
{
    let ghost rv = byte_pairs_view(raw@);
    let mut out: Vec<(String, String)> = Vec::new();
    let mut idx: usize = 0;
    while idx < raw.len()
        invariant
            rv == byte_pairs_view(raw@),
            idx <= raw@.len(),
            forall|j: int| 0 <= j < idx ==> text_bytes(#[trigger] rv[j].1),
            out@.len() == idx,
            forall|j: int|
                0 <= j < idx ==> pairs_view(out@)[j] == (#[trigger] rv[j].0, ascii_str_of(
                    rv[j].1,
                )),
        decreases raw@.len() - idx,
    {
        if !check_text_bytes(&raw[idx].1) {
            assert(!text_bytes(rv[idx as int].1));
            return Err(
                Error::new(
                    ErrorKind::HeaderEncodingError,
                    String::from_str("non-text response header value"),
                ),
            );
        }
        let name = raw[idx].0.clone();
        let value = bytes_to_text(&raw[idx].1);
        out.push((name, value));
        assert forall|j: int| 0 <= j < idx + 1 implies pairs_view(out@)[j] == (
        #[trigger] rv[j].0,
        ascii_str_of(rv[j].1),
        ) by {}
        idx += 1;
    }
    proof {
        assert(pairs_view(out@) =~= stringfy_model(rv));
    }
    Ok(out)
}

/// The normalized response envelope: status code, headers as plain
/// string pairs, and the body bytes in their text-safe encoded form.
#[derive(Debug)]
pub struct HTTPResponse {
    pub status: u16,
    pub headers: Vec<(String, String)>,
    pub body: String,
}

impl HTTPResponse {
    /// The status code is an HTTP status code.
    pub open spec fn wf(&self) -> bool {
        100 <= self.status <= 599
    }
}

/// Assembles the response envelope from the split transport response:
/// the status code, the response headers as (name, value-bytes) pairs,
/// and the drained body bytes.
///
/// Either every header value converts to text and the whole envelope is
/// returned — status passed through, body encoded — or the conversion
/// failure is propagated and no partial envelope is surfaced.
pub fn transcode_response(
    status: u16,
    raw_headers: &Vec<(String, Vec<u8>)>,
    body: &Vec<u8>,
) -> (r: Result<HTTPResponse, Error>)
    requires
        100 <= status <= 599,
        body@.len() <= usize::MAX as nat / 2,
    ensures
        r is Ok <==> (forall|i: int|
            0 <= i < raw_headers@.len() ==> text_bytes(
                #[trigger] byte_pairs_view(raw_headers@)[i].1,
            )),
        r matches Ok(resp) ==> {
            &&& resp.status == status
            &&& resp.headers@.len() == raw_headers@.len()
            &&& pairs_view(resp.headers@) == stringfy_model(byte_pairs_view(raw_headers@))
            &&& resp.body@ == base64_of(body@)
            &&& resp.body@.len() == 4 * ((body@.len() + 2) / 3)
            &&& resp.wf()
        },
        r matches Err(e) ==> e.kind == ErrorKind::HeaderEncodingError,
{
    let headers = match stringfy_headers(raw_headers) {
        Ok(h) => h,
        Err(e) => {
            return Err(e);
        },
    };
    let body_text = base64_encode(body);
    proof {
        assert(pairs_view(headers@).len() == headers@.len());
        assert(stringfy_model(byte_pairs_view(raw_headers@)).len() == raw_headers@.len());
    }
    Ok(HTTPResponse { status, headers, body: body_text })
}

} // verus!
