use porridge_client::entry::EmbeddingEntry;
use porridge_client::request::base_url;
use porridge_client::request::heartbeat_request;
use porridge_client::request::retrieve_request;
use porridge_client::request::search_request;
use porridge_client::request::store_request;
use porridge_client::request::Method;

fn entry(values: &[f32], text: &str) -> EmbeddingEntry {
    let mut rendered: Vec<String> = Vec::new();
    for v in values {
        if v.is_finite() {
            rendered.push(ryu::Buffer::new().format_finite(*v).to_string());
        } else {
            rendered.push("null".to_string());
        }
    }
    EmbeddingEntry::new(rendered, text.to_string()).expect("rendered values are number tokens")
}

#[test]
fn base_url_joins_host_and_port() {
    assert_eq!(base_url("localhost", "4000"), "http://localhost:4000");
    assert_eq!(base_url("", ""), "http://:");
}

#[test]
fn search_body_round_trip() {
    let req = search_request("http://h:1", &entry(&[1.0, 2.0], "hi"));
    assert!(matches!(req.method, Method::Post));
    assert_eq!(req.url, "http://h:1/search");
    assert_eq!(req.body.as_deref(), Some("{\"embeddings\":[1.0,2.0],\"text\":\"hi\"}"));
}

#[test]
fn store_body_preserves_length_and_order() {
    let entries = vec![entry(&[1.0], "a"), entry(&[2.0, 3.5], "b"), entry(&[], "c")];
    let req = store_request("http://h:1", &entries);
    assert!(matches!(req.method, Method::Post));
    assert_eq!(req.url, "http://h:1/store");
    assert_eq!(
        req.body.as_deref(),
        Some(
            "[{\"embeddings\":[1.0],\"text\":\"a\"},\
             {\"embeddings\":[2.0,3.5],\"text\":\"b\"},\
             {\"embeddings\":[],\"text\":\"c\"}]"
        )
    );
}

#[test]
fn store_of_no_entries_sends_empty_array() {
    let req = store_request("http://h:1", &Vec::new());
    assert_eq!(req.body.as_deref(), Some("[]"));
}

#[test]
fn storing_one_entry_wraps_the_search_body_in_brackets() {
    let base = "http://h:1";
    let stored = store_request(base, &vec![entry(&[4.25], "one")]).body.unwrap();
    let searched = search_request(base, &entry(&[4.25], "one")).body.unwrap();
    assert_eq!(stored, format!("[{searched}]"));
}

#[test]
fn retrieve_appends_identifier_verbatim() {
    let req = retrieve_request("http://localhost:4000", "abc-123");
    assert!(matches!(req.method, Method::Get));
    assert_eq!(req.url, "http://localhost:4000/retrieve/abc-123");
    assert!(req.body.is_none());
}

#[test]
fn heartbeat_is_a_bodyless_get() {
    let req = heartbeat_request("http://localhost:4000");
    assert!(matches!(req.method, Method::Get));
    assert_eq!(req.url, "http://localhost:4000/heartbeat");
    assert!(req.body.is_none());
}

#[test]
fn text_is_escaped_like_a_json_string() {
    let req = search_request("http://h:1", &entry(&[], "a\"b\\c\nd\te\u{1}"));
    assert_eq!(
        req.body.as_deref(),
        Some("{\"embeddings\":[],\"text\":\"a\\\"b\\\\c\\nd\\te\\u0001\"}")
    );
}

#[test]
fn non_finite_values_encode_as_null() {
    let req = search_request("http://h:1", &entry(&[f32::NAN, f32::INFINITY, 0.5], "x"));
    assert_eq!(req.body.as_deref(), Some("{\"embeddings\":[null,null,0.5],\"text\":\"x\"}"));
}
