use chronos::headers::{KafkaMessage, MessageHeader, CHRONOS_ID, DEADLINE};
use chronos::metrics::{ConsumedMessageDestinations, Status};
use chronos::processor::{prepare_to_publish, published_id, ReadyRow};
use chronos::receiver::{
    consume_status, handle_message, insert_into_db, insert_plan_with, is_receivable, parse_deadline,
    prepare_and_publish, route_with_deadline, DropReason, InsertPlan, MessageRoute, PublishPlan, Timestamp,
};
use chronos::headers::HeaderMap;

fn header(key: &str, value: &str) -> MessageHeader {
    MessageHeader { key: key.to_string(), value: Some(value.as_bytes().to_vec()) }
}

fn message(deadline: &str) -> KafkaMessage {
    KafkaMessage {
        key: Some(b"key-1".to_vec()),
        payload: Some(b"{\"amount\": 5}".to_vec()),
        headers: Some(vec![header(CHRONOS_ID, "id-1"), header(DEADLINE, deadline), header("trace", "t")]),
        offset: 1,
        partition: 2,
        timestamp_millis: Some(1),
    }
}

const NOW: Timestamp = Timestamp { secs: 1_704_067_200, nanos: 500 };

#[test]
fn deadlines_are_read_as_instants() {
    assert_eq!(parse_deadline("2024-01-01T00:00:00Z"), Some(Timestamp { secs: 1_704_067_200, nanos: 0 }));
    assert_eq!(parse_deadline("2024-01-01T01:00:00.25+01:00"), Some(Timestamp { secs: 1_704_067_200, nanos: 250_000_000 }));
    assert_eq!(parse_deadline("tomorrow"), None);
    assert_eq!(parse_deadline(""), None);
}

#[test]
fn due_message_is_published() {
    let m = message("2024-01-01T00:00:00Z");
    assert!(is_receivable(&m));
    let route = handle_message(&m, NOW);
    assert_eq!(route.destination(), ConsumedMessageDestinations::KAFKA);
    match route {
        MessageRoute::Publish(PublishPlan::Publish(req)) => {
            assert_eq!(req.payload, "{\"amount\": 5}");
            assert_eq!(req.key, "key-1");
            assert_eq!(req.headers.get("trace"), Some("t".to_string()));
            assert_eq!(req.headers.entries().len(), 3);
        }
        _ => panic!("expected a publish"),
    }
}

#[test]
fn message_due_at_the_same_instant_is_published() {
    let m = message("2024-01-01T00:00:00.0000005Z");
    assert!(matches!(handle_message(&m, NOW), MessageRoute::Publish(_)));
    let m = message("2024-01-01T00:00:00.000000501Z");
    assert!(matches!(handle_message(&m, NOW), MessageRoute::Store(_)));
}

#[test]
fn future_message_is_stored() {
    let m = message("2030-05-01T12:00:00Z");
    let route = handle_message(&m, NOW);
    assert_eq!(route.destination(), ConsumedMessageDestinations::DATABASE);
    match route {
        MessageRoute::Store(InsertPlan::Insert(r)) => {
            assert_eq!(r.id, "id-1");
            assert_eq!(r.key, "key-1");
            assert_eq!(r.value, b"{\"amount\": 5}".to_vec());
            assert_eq!(r.deadline, parse_deadline("2030-05-01T12:00:00Z").unwrap());
            assert_eq!(
                r.headers_json,
                "{\"chronosDeadline\":\"2030-05-01T12:00:00Z\",\"chronosMessageId\":\"id-1\",\"trace\":\"t\"}"
            );
        }
        _ => panic!("expected a store"),
    }
}

#[test]
fn unreadable_messages_are_dropped() {
    let mut m = message("soon");
    assert!(matches!(handle_message(&m, NOW), MessageRoute::Dropped(DropReason::InvalidDeadline)));
    m.headers = None;
    let route = handle_message(&m, NOW);
    assert_eq!(route.destination(), ConsumedMessageDestinations::DROPPED);
    assert!(matches!(route, MessageRoute::Dropped(DropReason::MissingHeaders)));
    m.headers = Some(vec![header(CHRONOS_ID, "id-1")]);
    assert!(matches!(handle_message(&m, NOW), MessageRoute::Dropped(DropReason::MissingHeaders)));
}

#[test]
fn two_id_headers_are_not_receivable() {
    let mut m = message("2024-01-01T00:00:00Z");
    m.headers = Some(vec![header(CHRONOS_ID, "a"), header(CHRONOS_ID, "b")]);
    assert!(!is_receivable(&m));
}

#[test]
fn publish_plan_errors() {
    let mut m = message("2024-01-01T00:00:00Z");
    let h = HeaderMap::new();
    m.key = None;
    match prepare_and_publish(&m, h) {
        PublishPlan::Fail(e) => assert_eq!(e, "message key not found"),
        _ => panic!("expected a failure"),
    }
    m.payload = None;
    assert!(matches!(prepare_and_publish(&m, HeaderMap::new()), PublishPlan::Skip));
}

#[test]
fn insert_plan_errors() {
    let mut h = HeaderMap::new();
    h.insert(CHRONOS_ID.to_string(), "x".to_string());
    let d = Timestamp { secs: 10, nanos: 0 };
    let mut m = message("2030-01-01T00:00:00Z");
    m.payload = Some(b"not json".to_vec());
    match insert_into_db(&m, &h, d) {
        InsertPlan::Fail(e) => assert_eq!(e, "json conversion of payload failed"),
        _ => panic!("expected a failure"),
    }
    m.payload = None;
    match insert_into_db(&m, &h, d) {
        InsertPlan::Fail(e) => assert_eq!(e, "message payload is not utf8 encoded"),
        _ => panic!("expected a failure"),
    }
    m.payload = Some(b"[1,2]".to_vec());
    m.key = None;
    assert!(matches!(insert_into_db(&m, &h, d), InsertPlan::Skip));
    m.key = Some(b"k".to_vec());
    m.payload = Some(b" {\"a\": [true, null]} ".to_vec());
    assert!(matches!(insert_into_db(&m, &h, d), InsertPlan::Insert(_)));
    m.payload = Some(b"{".to_vec());
    assert!(matches!(insert_into_db(&m, &h, d), InsertPlan::Fail(_)));
}

#[test]
fn headers_json_is_an_object_of_strings() {
    let mut h = HeaderMap::new();
    h.insert(CHRONOS_ID.to_string(), "2".to_string());
    h.insert("a".to_string(), "q\"uote".to_string());
    let m = message("2030-01-01T00:00:00Z");
    let r = match insert_into_db(&m, &h, Timestamp { secs: 1, nanos: 0 }) {
        InsertPlan::Insert(r) => r,
        _ => panic!("expected a row"),
    };
    assert_eq!(r.headers_json, "{\"a\":\"q\\\"uote\",\"chronosMessageId\":\"2\"}");
}

#[test]
fn parked_message_comes_back_with_its_headers() {
    let m = message("2030-05-01T12:00:00Z");
    let record = match handle_message(&m, NOW) {
        MessageRoute::Store(InsertPlan::Insert(r)) => r,
        _ => panic!("expected a store"),
    };
    let row = ReadyRow {
        id: record.id.clone(),
        headers_json: record.headers_json.clone(),
        readied_by: "node-7".to_string(),
        key: record.key.clone(),
        value: "{\"amount\":5}".to_string(),
    };
    let req = match prepare_to_publish(&row) {
        Ok(req) => req,
        Err(e) => panic!("{}", e),
    };
    assert_eq!(req.headers.get("readied_by"), Some("node-7".to_string()));
    assert_eq!(req.headers.get("trace"), Some("t".to_string()));
    assert_eq!(req.headers.entries().len(), 4);
    assert_eq!(req.key, "key-1");
    assert_eq!(req.payload, "{\"amount\":5}");
    assert_eq!(published_id(&req.headers), Some("id-1".to_string()));
}

#[test]
fn checked_routing_refuses_duplicate_ids() {
    let mut m = message("2024-01-01T00:00:00Z");
    assert!(matches!(
        chronos::receiver::handle_message_checked(&m, NOW),
        Some(MessageRoute::Publish(PublishPlan::Publish(_)))
    ));
    m.headers = Some(vec![header(DEADLINE, "2024-01-01T00:00:00Z"), header(DEADLINE, "x")]);
    assert!(chronos::receiver::handle_message_checked(&m, NOW).is_none());
}

fn id_headers() -> HeaderMap {
    let mut h = HeaderMap::new();
    h.insert(CHRONOS_ID.to_string(), "id-1".to_string());
    h
}

#[test]
fn statuses_of_handled_messages() {
    let dropped = MessageRoute::Dropped(DropReason::MissingHeaders);
    assert_eq!(consume_status(&dropped, None), Status::SUCCESS);
    assert_eq!(consume_status(&MessageRoute::Dropped(DropReason::InvalidDeadline), None), Status::SUCCESS);
    assert_eq!(consume_status(&MessageRoute::Publish(PublishPlan::Skip), None), Status::SUCCESS);
    assert_eq!(consume_status(&MessageRoute::Publish(PublishPlan::Fail("no key".to_string())), None), Status::ERROR);
    assert_eq!(consume_status(&MessageRoute::Store(InsertPlan::Skip), None), Status::SUCCESS);
    assert_eq!(consume_status(&MessageRoute::Store(InsertPlan::Fail("not json".to_string())), None), Status::ERROR);
    let m = message("2024-01-01T00:00:00Z");
    let published = handle_message(&m, NOW);
    assert_eq!(consume_status(&published, Some(true)), Status::SUCCESS);
    assert_eq!(consume_status(&published, Some(false)), Status::ERROR);
    let m = message("2030-01-01T00:00:00Z");
    let stored = handle_message(&m, NOW);
    assert!(matches!(stored, MessageRoute::Store(InsertPlan::Insert(_))));
    assert_eq!(consume_status(&stored, Some(true)), Status::SUCCESS);
    assert_eq!(consume_status(&stored, Some(false)), Status::ERROR);
}

#[test]
fn routes_by_the_parsed_deadline() {
    let m = message("unused");
    assert!(matches!(
        route_with_deadline(&m, id_headers(), None, NOW),
        MessageRoute::Dropped(DropReason::InvalidDeadline)
    ));
    assert!(matches!(route_with_deadline(&m, id_headers(), Some(NOW), NOW), MessageRoute::Publish(PublishPlan::Publish(_))));
    let later = Timestamp { secs: NOW.secs, nanos: NOW.nanos + 1 };
    match route_with_deadline(&m, id_headers(), Some(later), NOW) {
        MessageRoute::Store(InsertPlan::Insert(r)) => {
            assert_eq!(r.id, "id-1");
            assert_eq!(r.deadline, later);
        }
        _ => panic!("expected a store"),
    }
}

#[test]
fn store_plan_follows_the_json_verdict() {
    let m = message("unused");
    match insert_plan_with(&m, &id_headers(), NOW, false) {
        InsertPlan::Fail(e) => assert_eq!(e, "json conversion of payload failed"),
        _ => panic!("expected a failure"),
    }
    match insert_plan_with(&m, &id_headers(), NOW, true) {
        InsertPlan::Insert(r) => {
            assert_eq!(r.key, "key-1");
            assert_eq!(r.value, b"{\"amount\": 5}".to_vec());
        }
        _ => panic!("expected a row"),
    }
    let mut no_payload = message("unused");
    no_payload.payload = None;
    match insert_plan_with(&no_payload, &id_headers(), NOW, true) {
        InsertPlan::Fail(e) => assert_eq!(e, "message payload is not utf8 encoded"),
        _ => panic!("expected a failure"),
    }
}
