use porridge_client::entry::EmbeddingEntry;
use porridge_client::errors::ClientError;
use porridge_client::json::check_json_number;
use porridge_client::json::check_number_or_null;

#[test]
fn accepts_number_tokens() {
    for s in ["0", "-0", "7", "10", "1.0", "-0.5", "10.25", "1e10", "2.5E-3", "3.4028235e38",
        "0.0", "-1e+9"] {
        assert!(check_json_number(s), "rejected {s}");
    }
}

#[test]
fn rejects_non_number_tokens() {
    for s in ["", "-", "01", "1.", ".5", "1e", "1e+", "+1", "1.e3", "--1", "1..2", "NaN", "inf",
        "null", "1 ", " 1", "0x10"] {
        assert!(!check_json_number(s), "accepted {s}");
    }
}

#[test]
fn every_rendered_finite_value_is_a_number_token() {
    let samples: &[f32] = &[0.0, -0.0, 1.0, -1.0, 0.5, -0.5, 1.5, 100.0, 0.1, 1e-6, 1e20,
        f32::MAX, f32::MIN, f32::MIN_POSITIVE, 1e-45, 3.14159, -2.71828];
    for v in samples {
        let rendered = ryu::Buffer::new().format_finite(*v).to_string();
        assert!(check_json_number(&rendered), "{v} rendered to {rendered}");
    }
}

#[test]
fn null_is_a_wire_value_but_not_a_number() {
    assert!(check_number_or_null("null"));
    assert!(!check_number_or_null("nul"));
    assert!(!check_number_or_null("nulll"));
    assert!(!check_number_or_null("NULL"));
}

#[test]
fn construction_checks_every_embedding_value() {
    let ok = EmbeddingEntry::new(vec!["1.0".to_string(), "null".to_string()], "t".to_string());
    assert!(ok.is_ok());
    let e = ok.unwrap();
    assert!(e.is_wf());
    assert_eq!(e.embeddings, vec!["1.0".to_string(), "null".to_string()]);
    assert_eq!(e.text, "t");

    let bad = EmbeddingEntry::new(vec!["1.0".to_string(), "abc".to_string()], "t".to_string());
    assert!(matches!(bad, Err(ClientError::Conversion)));
}

#[test]
fn wellformedness_check_sees_raw_fields() {
    let raw = EmbeddingEntry { embeddings: vec!["abc".to_string()], text: String::new() };
    assert!(!raw.is_wf());
}

#[test]
fn error_messages_are_nonempty() {
    assert!(!ClientError::Conversion.message().is_empty());
    assert!(!ClientError::LockPoisoned.message().is_empty());
    assert_eq!(ClientError::Transport("boom".to_string()).message(), "boom");
}
