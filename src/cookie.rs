use vstd::prelude::*;

use async_session::base64::DecodeError;
use async_session::Session;

use crate::error::StoreError;

verus! {

#[verifier::external_type_specification]
#[verifier::external_body]
pub struct ExDecodeError(DecodeError);

/// The identifier that a cookie value stands for, or `None` where the cookie
/// value does not decode.
pub uninterp spec fn id_from_cookie(cookie: Seq<char>) -> Option<Seq<char>>;

/// Relies on `async_session::Session::id_from_cookie_value`: a pure function
/// of the cookie text that fails exactly where its base64 decoding fails.
#[verifier::external_body]
fn id_from_cookie_value(cookie: &str) -> (r: Result<String, DecodeError>)
    ensures
        r is Ok <==> id_from_cookie(cookie@) is Some,
        r matches Ok(id) ==> id_from_cookie(cookie@) == Some(id@),
{
    Session::id_from_cookie_value(cookie)
}

/// Derives the stored session identifier from a cookie value; a cookie value
/// that does not decode is a `MalformedCookie` error, never an empty result.
pub fn session_id_from_cookie(cookie: &str) -> (r: Result<String, StoreError>)
    ensures
        match id_from_cookie(cookie@) {
            Some(id) => r matches Ok(s) && s@ == id,
            None => r == Err::<String, StoreError>(StoreError::MalformedCookie),
        },
{
    match id_from_cookie_value(cookie) {
        Ok(id) => Ok(id),
        Err(_) => Err(StoreError::MalformedCookie),
    }
}

} // verus!
