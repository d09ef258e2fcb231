use chronos::headers::{
    get_message_key, get_payload_utf8, headers_check, into_headers, required_headers, HeaderMap,
    KafkaMessage, MessageHeader, CHRONOS_ID, DEADLINE,
};
use rdkafka::message::Headers;

fn header(key: &str, value: Option<&[u8]>) -> MessageHeader {
    MessageHeader { key: key.to_string(), value: value.map(|v| v.to_vec()) }
}

fn message(headers: Option<Vec<MessageHeader>>) -> KafkaMessage {
    KafkaMessage {
        key: Some(b"k1".to_vec()),
        payload: Some(b"{\"a\":1}".to_vec()),
        headers,
        offset: 7,
        partition: 0,
        timestamp_millis: None,
    }
}

#[test]
fn check_needs_exactly_two_required_headers_with_values() {
    assert!(headers_check(&vec![header(CHRONOS_ID, Some(b"1")), header(DEADLINE, Some(b"d"))]));
    assert!(!headers_check(&vec![header(CHRONOS_ID, Some(b"1"))]));
    assert!(!headers_check(&vec![header(CHRONOS_ID, Some(b"1")), header(DEADLINE, None)]));
    assert!(!headers_check(&vec![
        header(CHRONOS_ID, Some(b"1")),
        header(DEADLINE, Some(b"d")),
        header(DEADLINE, Some(b"e")),
    ]));
    assert!(headers_check(&vec![header(CHRONOS_ID, Some(b"1")), header(CHRONOS_ID, Some(b"2"))]));
    assert!(headers_check(&vec![
        header("other", Some(b"x")),
        header(CHRONOS_ID, Some(b"1")),
        header(DEADLINE, Some(b"d")),
    ]));
}

#[test]
fn required_headers_collects_all_headers_with_values() {
    let m = message(Some(vec![
        header("other", Some(b"x")),
        header("empty", None),
        header(CHRONOS_ID, Some(b"id-1")),
        header(DEADLINE, Some(b"2024-01-01T00:00:00Z")),
        header("other", Some(b"y")),
    ]));
    let h = required_headers(&m).unwrap();
    assert_eq!(h.get(CHRONOS_ID), Some("id-1".to_string()));
    assert_eq!(h.get(DEADLINE), Some("2024-01-01T00:00:00Z".to_string()));
    assert_eq!(h.get("other"), Some("y".to_string()));
    assert_eq!(h.get("empty"), None);
    assert_eq!(h.entries().len(), 3);
    assert!(required_headers(&message(None)).is_none());
    assert!(required_headers(&message(Some(vec![header(CHRONOS_ID, Some(b"1"))]))).is_none());
}

#[test]
fn invalid_utf8_becomes_replacement_characters() {
    let mut m = message(Some(vec![
        header(CHRONOS_ID, Some(&[0x66, 0xff, 0x6f])),
        header(DEADLINE, Some("é".as_bytes())),
    ]));
    let h = required_headers(&m).unwrap();
    assert_eq!(h.get(CHRONOS_ID), Some("f\u{FFFD}o".to_string()));
    assert_eq!(h.get(DEADLINE), Some("é".to_string()));
    m.key = Some(vec![0xc3]);
    assert_eq!(get_message_key(&m), Some("\u{FFFD}".to_string()));
    m.key = None;
    assert_eq!(get_message_key(&m), None);
    assert_eq!(get_payload_utf8(&m), Some(&b"{\"a\":1}".to_vec()));
}

#[test]
fn header_map_insert_replaces_values() {
    let mut h = HeaderMap::new();
    h.insert("a".to_string(), "1".to_string());
    h.insert("b".to_string(), "2".to_string());
    h.insert("a".to_string(), "3".to_string());
    assert_eq!(h.entries().len(), 2);
    assert_eq!(h.get("a"), Some("3".to_string()));
    assert!(h.contains_key("b"));
    assert!(!h.contains_key("c"));
    let from = HeaderMap::from_pairs(vec![
        ("x".to_string(), "1".to_string()),
        ("x".to_string(), "2".to_string()),
    ]);
    assert_eq!(from.get("x"), Some("2".to_string()));
    assert_eq!(from.entries().len(), 1);
}

#[test]
fn into_headers_holds_each_header_once() {
    let mut h = HeaderMap::new();
    h.insert(CHRONOS_ID.to_string(), "id-9".to_string());
    h.insert("readied_by".to_string(), "node".to_string());
    h.insert(CHRONOS_ID.to_string(), "id-10".to_string());
    let owned = into_headers(&h);
    assert_eq!(owned.count(), 2);
    let mut found = Vec::new();
    for i in 0..owned.count() {
        let hd = owned.get(i);
        found.push((hd.key.to_string(), hd.value.map(|v| v.to_vec())));
    }
    found.sort();
    assert_eq!(
        found,
        vec![
            (CHRONOS_ID.to_string(), Some(b"id-10".to_vec())),
            ("readied_by".to_string(), Some(b"node".to_vec())),
        ]
    );
}
