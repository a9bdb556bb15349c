//! Plain HTTP response values handed back to the web layer.

use vstd::prelude::*;

verus! {

/// A response as the flow decides it: a status code and a text body.
/// The web layer turns this into its own response type.
#[derive(Debug)]
pub struct HttpResponse {
    pub status: u16,
    pub body: String,
}

/// An upstream or infrastructure failure, reported without detail.
pub fn internal_server_error(message: String) -> (r: HttpResponse)
    ensures
        r.status == 500,
        r.body@ == message@,
{
    HttpResponse { status: 500, body: message }
}

/// A client-caused failure.
pub fn bad_request(message: String) -> (r: HttpResponse)
    ensures
        r.status == 400,
        r.body@ == message@,
{
    HttpResponse { status: 400, body: message }
}

} // verus!
