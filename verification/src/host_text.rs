//! The textual form of a host key.

use vstd::prelude::*;
use vstd::utf8::{decode_utf8, valid_utf8};

verus! {

/// The host name that a host key spells: its UTF-8 decoding, or the empty
/// text when the bytes are not valid UTF-8.
pub open spec fn host_text(host: Seq<u8>) -> Seq<char> {
    if valid_utf8(host) {
        decode_utf8(host)
    } else {
        Seq::empty()
    }
}

/// Calls `std::str::from_utf8`. Trusted: the call succeeds exactly on valid
/// UTF-8, and the string slice it returns then spells the decoded bytes.
#[verifier::external_body]
fn utf8_str(bytes: &[u8]) -> (r: Option<&str>)
    ensures
        r is Some <==> valid_utf8(bytes@),
        r matches Some(s) ==> s@ == decode_utf8(bytes@),
{
    match std::str::from_utf8(bytes) {
        Ok(s) => Some(s),
        Err(_) => None,
    }
}

/// Decodes a host key into the name to present upstream. Bytes that are not
/// valid UTF-8 give the empty string rather than an error.
pub fn host_name(host: &[u8]) -> (name: String)
    ensures
        name@ == host_text(host@),
{
    match utf8_str(host) {
        Some(s) => s.to_owned(),
        None => String::new(),
    }
}

} // verus!
