//! What the one-shot listener on the redirect address answers with.

use crate::text::{decimal, push_decimal};
use vstd::prelude::*;
use vstd::string::StringExecFns;

verus! {

/// The address that the listener binds: the host and port of the
/// registered redirect URI.
pub const LISTEN_ADDRESS: &'static str = "127.0.0.1:6767";

/// The number of bytes of the redirect request that the listener reads.
pub const REQUEST_LIMIT: usize = 1024;

/// The page that tells the user that the window can be closed.
pub const CONFIRMATION_PAGE: &'static str =
    "<html><head><title>dashboard</title></head><body><h1>You may now close this window</h1></body></html>";

/// The status line and the header of a response whose body follows.
pub const RESPONSE_HEAD: &'static str = "HTTP/1.1 200 OK\r\nContent-Length: ";

/// What stands between the header and the body.
pub const RESPONSE_BREAK: &'static str = "\r\n\r\n";

/// The page of the confirmation response.
pub fn get_html_response() -> (page: String)
    ensures
        page@ == CONFIRMATION_PAGE@,
{
    String::from_str(CONFIRMATION_PAGE)
}

/// A `200 OK` response with the body `body`, whose `Content-Length` is
/// `length` written in decimal.
pub open spec fn ok_response(body: Seq<char>, length: nat) -> Seq<char> {
    RESPONSE_HEAD@ + decimal(length) + RESPONSE_BREAK@ + body
}

/// The `200 OK` response with the body `body`. Its `Content-Length` is the
/// number of bytes of `body`, which is what `len` gives for a string.
pub fn response_with(body: &str) -> (response: String)
    ensures
        response@ == ok_response(body@, body.len() as nat),
{
    let mut response = String::from_str(RESPONSE_HEAD);
    let length: usize = body.len();
    push_decimal(&mut response, length as u64);
    response.append(RESPONSE_BREAK);
    response.append(body);
    response
}

/// The response that the listener writes to the one connection it accepts:
/// the confirmation page with its length.
pub fn confirmation_response() -> (response: String)
    ensures
        response@ == ok_response(CONFIRMATION_PAGE@, CONFIRMATION_PAGE.len() as nat),
{
    response_with(CONFIRMATION_PAGE)
}

} // verus!
