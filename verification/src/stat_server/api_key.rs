//! The operator API key.

use crate::stat_server::server::StatServer;
use vstd::prelude::*;
use vstd::utf8::*;

verus! {

/// `openssl::memcmp::eq` on two byte strings of one length: whether they hold the
/// same bytes. It panics where the lengths differ. That the time it takes does
/// not depend on the bytes is left unsaid.
#[verifier::external_body]
fn memcmp_eq(a: &[u8], b: &[u8]) -> (equal: bool)
    requires
        a@.len() == b@.len(),
    ensures
        equal == (a@ == b@),
{
    openssl::memcmp::eq(a, b)
}

/// Whether a request that presents `value` as its key is let in by `expected`.
pub open spec fn key_accepted(value: Option<&str>, expected: Seq<char>) -> bool {
    value matches Some(v) && v@ == expected
}

impl StatServer {
    /// Whether the key of a request is the expected one. `value` is the request's
    /// `X-API-Key` header, where it has one that is text.
    pub fn is_authorized(value: Option<&str>, expected: &str) -> (authorized: bool)
        ensures
            authorized == key_accepted(value, expected@),
    {
        let value: &str = match value {
            Some(value) => value,
            None => return false,
        };
        proof {
            encode_utf8_decode_utf8(value@);
            encode_utf8_decode_utf8(expected@);
        }
        let presented: &[u8] = value.as_bytes();
        let wanted: &[u8] = expected.as_bytes();
        presented.len() == wanted.len() && memcmp_eq(presented, wanted)
    }

    /// Whether a request carries the operator API key.
    ///
    /// Compared the same way as on the endpoints that require it. Used to decide
    /// how much of a response to fill in, not to allow or refuse a request.
    pub fn is_operator(value: Option<&str>, external_user_api_key: &Option<String>) -> (operator:
        bool)
        ensures
            operator == (external_user_api_key matches Some(expected) && key_accepted(
                value,
                expected@,
            )),
    {
        match external_user_api_key {
            Some(expected) => StatServer::is_authorized(value, expected.as_str()),
            None => false,
        }
    }
}

} // verus!
