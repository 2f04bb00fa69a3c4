//! Request construction: the pure first step of every operation. Each
//! builder pins down the method, the full URL and the body of the one
//! request its operation issues.

use vstd::prelude::*;

use crate::body::encode_entries;
use crate::body::encode_entry;
use crate::body::json_entry;
use crate::body::json_entry_array;
use crate::entry::EmbeddingEntry;
use crate::ext::chars_to_string;
use crate::json::push_str_chars;

verus! {

/// The HTTP method of a request; the service needs no others.
pub enum Method {
    Get,
    Post,
}

/// One HTTP request, fully determined before anything touches the network.
pub struct Request {
    pub method: Method,
    pub url: String,
    pub body: Option<String>,
}

/// The scheme prefix of every base URL: `http://`.
pub open spec fn scheme_prefix() -> Seq<char> {
    seq!['h', 't', 't', 'p', ':', '/', '/']
}

/// The base URL derived from a host and a port: `http://<host>:<port>`.
pub open spec fn base_url_model(host: Seq<char>, port: Seq<char>) -> Seq<char> {
    scheme_prefix() + host + seq![':'] + port
}

/// The store operation's path.
pub open spec fn store_path() -> Seq<char> {
    seq!['/', 's', 't', 'o', 'r', 'e']
}

/// The search operation's path.
pub open spec fn search_path() -> Seq<char> {
    seq!['/', 's', 'e', 'a', 'r', 'c', 'h']
}

/// The retrieve operation's path up to the identifier.
pub open spec fn retrieve_prefix() -> Seq<char> {
    seq!['/', 'r', 'e', 't', 'r', 'i', 'e', 'v', 'e', '/']
}

/// The heartbeat operation's path.
pub open spec fn heartbeat_path() -> Seq<char> {
    seq!['/', 'h', 'e', 'a', 'r', 't', 'b', 'e', 'a', 't']
}

/// Builds `http://<host>:<port>`.
pub fn base_url(host: &str, port: &str) -> (r: String)
    ensures
        r@ == base_url_model(host@, port@),
{
    let mut out: Vec<char> = Vec::new();
    push_str_chars(&mut out, "http://");
    proof {
        reveal_strlit("http://");
        assert("http://"@ =~= scheme_prefix());
    }
    push_str_chars(&mut out, host);
    out.push(':');
    push_str_chars(&mut out, port);
    proof {
        assert(out@ =~= base_url_model(host@, port@));
    }
    chars_to_string(out)
}

/// The one request a store of `entries` issues: a POST to `<base>/store`
/// whose body is the JSON array of the entries, one object per entry, in
/// input order.
pub fn store_request(base: &str, entries: &Vec<EmbeddingEntry>) -> (r: Request)
    ensures
        r.method is Post,
        r.url@ == base@ + store_path(),
        r.body matches Some(b) && b@ == json_entry_array(entries.deep_view()),
{
    let mut url: Vec<char> = Vec::new();
    push_str_chars(&mut url, base);
    push_str_chars(&mut url, "/store");
    proof {
        reveal_strlit("/store");
        assert("/store"@ =~= store_path());
    }
    let body = encode_entries(entries);
    Request { method: Method::Post, url: chars_to_string(url), body: Some(chars_to_string(body)) }
}

/// The one request a search for `query` issues: a POST to `<base>/search`
/// whose body is the JSON object with exactly the query's `embeddings` and
/// `text` fields.
pub fn search_request(base: &str, query: &EmbeddingEntry) -> (r: Request)
    ensures
        r.method is Post,
        r.url@ == base@ + search_path(),
        r.body matches Some(b) && b@ == json_entry(query@),
{
    let mut url: Vec<char> = Vec::new();
    push_str_chars(&mut url, base);
    push_str_chars(&mut url, "/search");
    proof {
        reveal_strlit("/search");
        assert("/search"@ =~= search_path());
    }
    let body = encode_entry(query);
    Request { method: Method::Post, url: chars_to_string(url), body: Some(chars_to_string(body)) }
}

/// The one request a retrieve of `id` issues: a GET of
/// `<base>/retrieve/<id>` with no body. The identifier is appended verbatim:
/// supplying a URL-safe identifier is the caller's documented obligation,
/// not something this binding validates.
pub fn retrieve_request(base: &str, id: &str) -> (r: Request)
    ensures
        r.method is Get,
        r.url@ == base@ + retrieve_prefix() + id@,
        r.body is None,
{
    let mut url: Vec<char> = Vec::new();
    push_str_chars(&mut url, base);
    push_str_chars(&mut url, "/retrieve/");
    proof {
        reveal_strlit("/retrieve/");
        assert("/retrieve/"@ =~= retrieve_prefix());
    }
    push_str_chars(&mut url, id);
    Request { method: Method::Get, url: chars_to_string(url), body: None }
}

/// The one request a heartbeat issues: a GET of `<base>/heartbeat` with no
/// body.
pub fn heartbeat_request(base: &str) -> (r: Request)
    ensures
        r.method is Get,
        r.url@ == base@ + heartbeat_path(),
        r.body is None,
{
    let mut url: Vec<char> = Vec::new();
    push_str_chars(&mut url, base);
    push_str_chars(&mut url, "/heartbeat");
    proof {
        reveal_strlit("/heartbeat");
        assert("/heartbeat"@ =~= heartbeat_path());
    }
    Request { method: Method::Get, url: chars_to_string(url), body: None }
}

} // verus!
