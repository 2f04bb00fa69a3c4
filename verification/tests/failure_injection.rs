use porridge_client::entry::EmbeddingEntry;
use porridge_client::errors::ClientError;
use porridge_client::PorridgeClient;

fn entry() -> EmbeddingEntry {
    EmbeddingEntry::new(vec!["1.0".to_string()], "hi".to_string()).unwrap()
}

fn assert_transport(r: Result<String, ClientError>) {
    match r {
        Err(ClientError::Transport(m)) => assert!(!m.is_empty()),
        other => panic!("expected a transport error, got {:?}", other.map_err(|e| e.message())),
    }
}

#[test]
fn unreachable_service_reports_transport_errors_and_client_stays_usable() {
    // Port 9 is the discard service, essentially never bound: every
    // connection attempt is refused before any HTTP exchange begins.
    let client = PorridgeClient::new("127.0.0.1".to_string(), "9".to_string());
    assert_transport(client.heartbeat());
    assert_transport(client.store(vec![entry()]));
    assert_transport(client.search(entry()));
    assert_transport(client.retrieve("abc-123".to_string()));
    // The lock was released after every failure: the same instance still
    // accepts calls.
    assert_transport(client.heartbeat());
}
