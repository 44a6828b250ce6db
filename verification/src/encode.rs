//! Encoding file contents for inline display: a data URI carrying the
//! path's MIME type and the padded base64 text of the bytes.

use vstd::prelude::*;
use vstd::string::StringExecFns;
use crate::classify::{mime_of, mime_for_path};

verus! {

/// The base64 text (standard alphabet, with padding) of a byte sequence.
pub uninterp spec fn base64_of(bytes: Seq<u8>) -> Seq<char>;

/// Length of the padded base64 text of `n` bytes: four characters for
/// every started three-byte group.
pub open spec fn base64_len(n: nat) -> nat {
    if n % 3 == 0 {
        4 * (n / 3)
    } else {
        4 * (n / 3) + 4
    }
}

/// Relies on base64::encode: the standard-alphabet, padded base64 text of
/// the bytes, a function of the bytes alone, four characters per started
/// three-byte group. The encoder panics when that size overflows usize,
/// so such inputs are excluded here.
#[verifier::external_body]
fn b64_encode(bytes: &[u8]) -> (r: String)
    requires
        base64_len(bytes@.len()) <= usize::MAX,
    ensures
        r@ == base64_of(bytes@),
        r@.len() == base64_len(bytes@.len()),
{
    base64::encode(bytes)
}

/// The data URI reported for a path whose contents have the given base64
/// text: `data:<mime>;base64,<payload>`.
pub open spec fn data_uri_of(path: Seq<char>, payload: Seq<char>) -> Seq<char> {
    "data:"@ + mime_of(path) + ";base64,"@ + payload
}

/// Encode file bytes for inline display as the data URI tagging the
/// path's MIME type over the padded base64 text of the bytes.
pub fn encode_bytes(path: &str, bytes: &[u8]) -> (r: String)
    requires
        base64_len(bytes@.len()) <= usize::MAX,
    ensures
        r@ == data_uri_of(path@, base64_of(bytes@)),
{
    let payload = b64_encode(bytes);
    let mime = mime_for_path(path);
    let mut s = String::from_str("data:");
    s.append(mime);
    s.append(";base64,");
    s.append(payload.as_str());
    proof {
        assert(s@ =~= data_uri_of(path@, base64_of(bytes@)));
    }
    s
}

/// Outcome of one encode request, given what the file read returned: a
/// successful read yields the data URI of the bytes; a failed read has
/// its message passed through unchanged (so a non-empty message stays
/// non-empty), and no panic either way.
pub fn encode_read_result(path: &str, read: Result<Vec<u8>, String>) -> (r: Result<
    String,
    String,
>)
    requires
        read is Ok ==> base64_len(read->Ok_0@.len()) <= usize::MAX,
    ensures
        read is Ok ==> r is Ok && r->Ok_0@ == data_uri_of(path@, base64_of(read->Ok_0@)),
        read is Err ==> r is Err && r->Err_0 == read->Err_0,
{
    match read {
        Ok(bytes) => Ok(encode_bytes(path, bytes.as_slice())),
        Err(m) => Err(m),
    }
}

} // verus!
