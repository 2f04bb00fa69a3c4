//! The trusted boundary: declarations of the outside types the client holds,
//! and the wrappers through which every outside call goes. Everything else
//! in this crate is verified against the contracts stated here.

use vstd::prelude::*;

use crate::errors::SendFailure;

verus! {

#[verifier::external_type_specification]
#[verifier::external_body]
pub struct ExClient(reqwest::Client);

#[verifier::external_type_specification]
#[verifier::external_body]
pub struct ExRuntime(tokio::runtime::Runtime);

#[verifier::external_type_specification]
#[verifier::external_body]
#[verifier::reject_recursive_types(T)]
pub struct ExMutex<T: ?Sized>(std::sync::Mutex<T>);

/// Relies on `String: FromIterator<char>`: collecting characters yields the
/// string with exactly those characters, in order.
#[verifier::external_body]
pub(crate) fn chars_to_string(v: Vec<char>) -> (r: String)
    ensures
        r@ == v@,
{
    v.into_iter().collect()
}

/// Relies on `reqwest::Client::new`: a fresh handle to a shared connection
/// pool with default configuration; it panics only if the backend cannot be
/// initialized at all.
#[verifier::external_body]
pub(crate) fn new_http_client() -> reqwest::Client {
    reqwest::Client::new()
}

/// Relies on `tokio::runtime::Runtime::new`: a fresh multi-thread execution
/// context. Creation fails only when the OS refuses the needed resources;
/// as construction reports no error to its caller, that failure is a panic
/// here, never a wrong value.
#[verifier::external_body]
pub(crate) fn new_runtime() -> tokio::runtime::Runtime {
    tokio::runtime::Runtime::new().expect("no execution context could be created")
}

/// Relies on `std::sync::Mutex::new`: a fresh unlocked lock holding `rt`.
#[verifier::external_body]
pub(crate) fn new_lock(rt: tokio::runtime::Runtime) -> std::sync::Mutex<tokio::runtime::Runtime> {
    std::sync::Mutex::new(rt)
}

/// Relies on `std::sync::Mutex::lock` to serialize use of the execution
/// context (a poisoned lock is reported as such, never retried), on
/// `tokio::runtime::Runtime::block_on` to drive the send to completion on
/// the calling thread, and on `reqwest::Client::post`,
/// `RequestBuilder::header`, `RequestBuilder::body`, `RequestBuilder::send`
/// and `Response::text`: `body` is posted to `url` as `application/json`,
/// and the response body comes back as text whatever the HTTP status; any
/// transport or body-read failure yields reqwest's diagnostic text, which is
/// never empty — every arm of reqwest's error display writes a fixed
/// description first.
#[verifier::external_body]
pub(crate) fn send_post_json(
    http: &reqwest::Client,
    runtime: &std::sync::Mutex<tokio::runtime::Runtime>,
    url: &str,
    body: &str,
) -> (r: Result<String, SendFailure>)
    ensures
        r matches Err(SendFailure::Transport(m)) ==> m@.len() > 0,
{
    let guard = match runtime.lock() {
        Ok(g) => g,
        Err(_) => return Err(SendFailure::Poisoned),
    };
    let request = http.post(url).header("content-type", "application/json").body(body.to_owned());
    let outcome = match guard.block_on(request.send()) {
        Ok(response) => guard.block_on(response.text()),
        Err(e) => Err(e),
    };
    match outcome {
        Ok(text) => Ok(text),
        Err(e) => Err(SendFailure::Transport(e.to_string())),
    }
}

/// Relies on `std::sync::Mutex::lock`, `tokio::runtime::Runtime::block_on`,
/// `reqwest::Client::get`, `RequestBuilder::send` and `Response::text` as
/// `send_post_json` does: a body-less GET of `url`, whose response body
/// comes back as text whatever the HTTP status; any transport or body-read
/// failure yields reqwest's diagnostic text, which is never empty — every
/// arm of reqwest's error display writes a fixed description first.
#[verifier::external_body]
pub(crate) fn send_get(
    http: &reqwest::Client,
    runtime: &std::sync::Mutex<tokio::runtime::Runtime>,
    url: &str,
) -> (r: Result<String, SendFailure>)
    ensures
        r matches Err(SendFailure::Transport(m)) ==> m@.len() > 0,
{
    let guard = match runtime.lock() {
        Ok(g) => g,
        Err(_) => return Err(SendFailure::Poisoned),
    };
    let outcome = match guard.block_on(http.get(url).send()) {
        Ok(response) => guard.block_on(response.text()),
        Err(e) => Err(e),
    };
    match outcome {
        Ok(text) => Ok(text),
        Err(e) => Err(SendFailure::Transport(e.to_string())),
    }
}

} // verus!
