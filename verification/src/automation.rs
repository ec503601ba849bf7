//! Decisions of the loopback automation API: who is authorised, and where
//! the API listens.

use vstd::prelude::*;
use crate::models::{AutomationStatus, GenerationJob};
use crate::text::{append, decimal, owned, push_decimal, str_equal};

verus! {

/// The `Authorization` header value that the API accepts.
pub open spec fn expected_authorization(token: Seq<char>) -> Seq<char> {
    "Bearer "@ + token
}

/// Whether a request may use the API: its `Authorization` header, when
/// present and readable as text, must be exactly `Bearer ` followed by the
/// configured token.
pub fn authorized(token: &str, header: Option<&str>) -> (ok: bool)
    ensures
        ok <==> (header is Some && header->0@ == expected_authorization(token@)),
{
    match header {
        None => false,
        Some(value) => {
            let mut expected = owned("Bearer ");
            append(&mut expected, token);
            str_equal(value, expected.as_str())
        },
    }
}

/// The socket address the API binds: the loopback interface only.
pub open spec fn bind_address_spec(port: u16) -> Seq<char> {
    "127.0.0.1:"@ + decimal(port as nat)
}

/// The socket address the API binds on `port`.
pub fn bind_address(port: u16) -> (address: String)
    ensures
        address@ == bind_address_spec(port),
{
    let mut a = owned("127.0.0.1:");
    push_decimal(&mut a, port as u64);
    a
}

/// The status reported once the API runs on `port` with `token`.
pub fn running_status(port: u16, token: String) -> (status: AutomationStatus)
    ensures
        status.running,
        status.address@ == "http://"@ + bind_address_spec(port),
        status.token@ == token@,
{
    let mut address = owned("http://");
    let bind = bind_address(port);
    append(&mut address, bind.as_str());
    AutomationStatus { running: true, address, token }
}

/// An error reply of the API: its HTTP status code and the text of its
/// `error` field.
#[derive(Debug)]
pub struct ApiError {
    pub status: u16,
    pub message: String,
}

/// The reply to a request without a valid bearer token.
pub fn unauthorized() -> (e: ApiError)
    ensures
        e.status == 401,
        e.message@ == "Missing or invalid bearer token"@,
{
    ApiError { status: 401, message: owned("Missing or invalid bearer token") }
}

/// The reply to a request that the library refused with `error`.
pub fn bad_request(error: String) -> (e: ApiError)
    ensures
        e.status == 400,
        e.message@ == error@,
{
    ApiError { status: 400, message: error }
}

/// Admits a request whose `Authorization` header carries the configured
/// token, and refuses any other with [`unauthorized`].
pub fn check_access(token: &str, header: Option<&str>) -> (r: Result<(), ApiError>)
    ensures
        r is Ok <==> (header is Some && header->0@ == expected_authorization(token@)),
        r is Err ==> r->Err_0.status == 401 && r->Err_0.message@ == "Missing or invalid bearer token"@,
{
    if authorized(token, header) {
        Ok(())
    } else {
        Err(unauthorized())
    }
}

/// The reply to a request for one job: the job, or 404 when there is none.
pub fn job_reply(job: Option<GenerationJob>) -> (r: Result<GenerationJob, ApiError>)
    ensures
        job is Some ==> r is Ok && r->Ok_0 == job->0,
        job is None ==> r is Err && r->Err_0.status == 404 && r->Err_0.message@ == "Job not found"@,
{
    match job {
        Some(j) => Ok(j),
        None => Err(ApiError { status: 404, message: owned("Job not found") }),
    }
}

} // verus!
