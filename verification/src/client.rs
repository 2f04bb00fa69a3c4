//! The client facade: one base URL, one shared connection pool handle, one
//! exclusively held execution context behind a lock. Each operation builds
//! its request, hands it to the trusted transport, and maps the outcome into
//! the caller's result.

use vstd::prelude::*;

use crate::entry::EmbeddingEntry;
use crate::errors::ClientError;
use crate::errors::SendFailure;
use crate::ext::new_http_client;
use crate::ext::new_lock;
use crate::ext::new_runtime;
use crate::ext::send_get;
use crate::ext::send_post_json;
use crate::request::base_url;
use crate::request::base_url_model;
use crate::request::heartbeat_request;
use crate::request::retrieve_request;
use crate::request::search_request;
use crate::request::store_request;
use crate::request::Method;
use crate::request::Request;

verus! {

/// A handle to the remote service: the base URL derived once at
/// construction, a reusable connection pool handle, and an exclusively
/// owned execution context serialized by a lock.
pub struct PorridgeClient {
    base: String,
    http: reqwest::Client,
    runtime: std::sync::Mutex<tokio::runtime::Runtime>,
}

impl PorridgeClient {
    /// The base URL this client targets.
    pub closed spec fn base_model(&self) -> Seq<char> {
        self.base@
    }

    /// Builds a client for `http://<host>:<port>`: the base URL is derived
    /// once and never mutated, and the execution context is created eagerly
    /// and shared by every later call.
    pub fn new(host: String, port: String) -> (r: PorridgeClient)
        ensures
            r.base_model() == base_url_model(host@, port@),
    {
        let base = base_url(host.as_str(), port.as_str());
        let http = new_http_client();
        let runtime = new_lock(new_runtime());
        PorridgeClient { base, http, runtime }
    }

    /// Hands one built request to the transport: the second, impure step of
    /// every operation. What comes back depends on the network; all that
    /// holds of every outcome is the failure kinds, and that a transport
    /// failure carries a non-empty diagnostic.
    fn dispatch(&self, req: &Request) -> (r: Result<String, SendFailure>)
        requires
            req.method is Post ==> req.body is Some,
        ensures
            r matches Err(SendFailure::Transport(m)) ==> m@.len() > 0,
    {
        match req.method {
            Method::Post => {
                let body: &String = match &req.body {
                    Some(b) => b,
                    None => vstd::pervasive::unreached(),
                };
                send_post_json(&self.http, &self.runtime, req.url.as_str(), body.as_str())
            },
            Method::Get => send_get(&self.http, &self.runtime, req.url.as_str()),
        }
    }

    /// Maps a transport outcome into the caller's result: a received body is
    /// returned unchanged, byte for byte; a transport failure keeps its
    /// diagnostic text; a poisoned lock surfaces as its own unrecoverable
    /// kind, never as a transport failure.
    pub fn handle_response(&self, response: Result<String, SendFailure>) -> (r: Result<
        String,
        ClientError,
    >)
        ensures
            response matches Ok(b) ==> r matches Ok(rb) && rb == b,
            response matches Err(SendFailure::Transport(m)) ==> r matches Err(
                ClientError::Transport(rm),
            ) && rm == m,
            response matches Err(SendFailure::Poisoned) ==> r matches Err(e) && e
                is LockPoisoned,
    {
        match response {
            Ok(body) => Ok(body),
            Err(SendFailure::Transport(m)) => Err(ClientError::Transport(m)),
            Err(SendFailure::Poisoned) => Err(ClientError::LockPoisoned),
        }
    }

    /// Stores `entries`: one POST to `<base>/store` whose body is the JSON
    /// array of the entries in input order, as `store_request` states. The
    /// response body is returned unchanged; a failure is a transport or
    /// lock error with a non-empty diagnostic, never a conversion error.
    pub fn store(&self, entries: Vec<EmbeddingEntry>) -> (r: Result<String, ClientError>)
        ensures
            r matches Err(e) ==> (e is Transport || e is LockPoisoned),
            r matches Err(ClientError::Transport(m)) ==> m@.len() > 0,
    {
        let req = store_request(self.base.as_str(), &entries);
        let sent = self.dispatch(&req);
        self.handle_response(sent)
    }

    /// Searches with `query`: one POST to `<base>/search` whose body is the
    /// JSON object of exactly the query's fields, as `search_request`
    /// states. The response body is returned unchanged; a failure is a
    /// transport or lock error with a non-empty diagnostic, never a
    /// conversion error.
    pub fn search(&self, query: EmbeddingEntry) -> (r: Result<String, ClientError>)
        ensures
            r matches Err(e) ==> (e is Transport || e is LockPoisoned),
            r matches Err(ClientError::Transport(m)) ==> m@.len() > 0,
    {
        let req = search_request(self.base.as_str(), &query);
        let sent = self.dispatch(&req);
        self.handle_response(sent)
    }

    /// Retrieves by identifier: one body-less GET of
    /// `<base>/retrieve/<uuid>`, the identifier appended verbatim, as
    /// `retrieve_request` states. The response body is returned unchanged;
    /// a failure is a transport or lock error with a non-empty diagnostic,
    /// never a conversion error.
    pub fn retrieve(&self, uuid: String) -> (r: Result<String, ClientError>)
        ensures
            r matches Err(e) ==> (e is Transport || e is LockPoisoned),
            r matches Err(ClientError::Transport(m)) ==> m@.len() > 0,
    {
        let req = retrieve_request(self.base.as_str(), uuid.as_str());
        let sent = self.dispatch(&req);
        self.handle_response(sent)
    }

    /// Probes liveness: one body-less GET of `<base>/heartbeat`, as
    /// `heartbeat_request` states. The response body is returned unchanged,
    /// byte for byte, empty bodies included; a failure is a transport or
    /// lock error with a non-empty diagnostic, never a conversion error.
    pub fn heartbeat(&self) -> (r: Result<String, ClientError>)
        ensures
            r matches Err(e) ==> (e is Transport || e is LockPoisoned),
            r matches Err(ClientError::Transport(m)) ==> m@.len() > 0,
    {
        let req = heartbeat_request(self.base.as_str());
        let sent = self.dispatch(&req);
        self.handle_response(sent)
    }
}

} // verus!
