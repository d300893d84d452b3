use lugma_rs_helpers::Envelope;

fn json(text: &str) -> serde_json::Value {
    serde_json::from_str(text).unwrap()
}

#[test]
fn decode_reads_kind_and_payload() {
    let envelope = Envelope::decode("{\"type\":\"A\",\"content\":{\"x\":1}}").unwrap();
    assert_eq!(envelope.kind, "A");
    assert_eq!(envelope.payload, "{\"x\":1}");
}

#[test]
fn decode_prints_the_payload_in_compact_form() {
    let envelope =
        Envelope::decode(" { \"content\" : [ 1 , 2 ] , \"type\" : \"numbers\" } ").unwrap();
    assert_eq!(envelope.kind, "numbers");
    assert_eq!(envelope.payload, "[1,2]");
}

#[test]
fn decode_rejects_text_that_is_no_json() {
    assert_eq!(Envelope::decode("not json"), None);
    assert_eq!(Envelope::decode(""), None);
    assert_eq!(Envelope::decode("{\"type\":\"A\""), None);
}

#[test]
fn decode_rejects_an_object_without_type() {
    assert_eq!(Envelope::decode("{\"content\":1}"), None);
    assert_eq!(Envelope::decode("{}"), None);
}

#[test]
fn decode_rejects_a_type_that_is_no_string() {
    assert_eq!(Envelope::decode("{\"type\":7,\"content\":1}"), None);
    assert_eq!(Envelope::decode("{\"type\":null,\"content\":1}"), None);
    assert_eq!(Envelope::decode("{\"type\":[\"A\"],\"content\":1}"), None);
}

#[test]
fn decode_rejects_json_that_is_no_object() {
    assert_eq!(Envelope::decode("[\"type\"]"), None);
    assert_eq!(Envelope::decode("\"type\""), None);
    assert_eq!(Envelope::decode("12"), None);
}

#[test]
fn decode_without_content_holds_null() {
    let envelope = Envelope::decode("{\"type\":\"A\"}").unwrap();
    assert_eq!(envelope.kind, "A");
    assert_eq!(envelope.payload, "null");
}

#[test]
fn decode_accepts_an_empty_kind() {
    let envelope = Envelope::decode("{\"type\":\"\",\"content\":true}").unwrap();
    assert_eq!(envelope.kind, "");
    assert_eq!(envelope.payload, "true");
}

#[test]
fn encode_writes_type_and_content() {
    let text = Envelope::encode("A".to_string(), json("{\"x\":1}"));
    assert_eq!(text, "{\"content\":{\"x\":1},\"type\":\"A\"}");
}

#[test]
fn encode_escapes_the_kind() {
    let text = Envelope::encode("a\"b".to_string(), serde_json::Value::Null);
    assert_eq!(text, "{\"content\":null,\"type\":\"a\\\"b\"}");
}

#[test]
fn envelope_round_trip() {
    let payloads = [
        "null",
        "true",
        "17",
        "-3",
        "1.5",
        "\"text with \\\"quotes\\\" and \\n\"",
        "[1,[2,3],{\"k\":\"v\"}]",
        "{\"a\":{\"b\":[]},\"c\":\"d\"}",
    ];
    for kind in ["A", "chat.message", "", "type", "with space"] {
        for payload in payloads {
            let text = Envelope::encode(kind.to_string(), json(payload));
            let back = Envelope::decode(&text).unwrap();
            assert_eq!(back, Envelope::new(kind.to_string(), payload.to_string()));
            assert_eq!(json(&back.payload), json(payload));
        }
    }
}

#[test]
fn from_fields_needs_a_kind() {
    assert_eq!(
        Envelope::from_fields(Some("A"), "1".to_string()),
        Some(Envelope { kind: "A".to_string(), payload: "1".to_string() })
    );
    assert_eq!(Envelope::from_fields(None, "1".to_string()), None);
}

#[test]
fn new_keeps_both_fields() {
    let envelope = Envelope::new("A".to_string(), "[]".to_string());
    assert_eq!(envelope.kind, "A");
    assert_eq!(envelope.payload, "[]");
}

#[test]
fn an_envelope_is_well_formed_with_a_kind() {
    assert!(Envelope::new("A".to_string(), "1".to_string()).is_well_formed());
    assert!(Envelope::new("\u{e9}".to_string(), String::new()).is_well_formed());
    assert!(!Envelope::new(String::new(), "1".to_string()).is_well_formed());
}

#[test]
fn an_encoded_frame_reads_back() {
    let text = Envelope::encode("A".to_string(), json("{\"x\":[1,\"two\",null]}"));
    assert!(Envelope::reads_back(&text));
    assert!(Envelope::reads_back("{\"content\":1,\"type\":\"A\"}"));
}

#[test]
fn reads_back_needs_the_printed_form() {
    assert!(!Envelope::reads_back("not json"));
    assert!(!Envelope::reads_back(""));
    assert!(!Envelope::reads_back("{\"type\":\"A\",\"content\":1}"));
    assert!(!Envelope::reads_back("{ \"content\": 1 }"));
}

#[test]
fn a_float_that_is_read_approximately_does_not_read_back() {
    let value = serde_json::Value::from(f64::from_bits(0x305f050c368dcc74));
    let text = Envelope::encode("A".to_string(), value);
    assert_eq!(text, "{\"content\":1.0715660391465826e-75,\"type\":\"A\"}");
    assert!(!Envelope::reads_back(&text));
    let back = Envelope::decode(&text).unwrap();
    assert_eq!(back.kind, "A");
    assert_eq!(back.payload, "1.0715660391465825e-75");
}
