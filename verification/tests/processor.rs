use chronos::env::EnvVars;
use chronos::processor::{
    assign_node_id, prepare_to_publish, publish_request_from, published_id, ready_query, ready_step, round_outcome,
    ReadyOutcome, ReadyQuery, ReadyRow, ReadyStep,
};
use chronos::receiver::Timestamp;

fn row(headers_json: &str) -> ReadyRow {
    ReadyRow {
        id: "id-3".to_string(),
        headers_json: headers_json.to_string(),
        readied_by: "5b0c1c5e-1111-4222-8333-444455556666".to_string(),
        key: "k".to_string(),
        value: "42".to_string(),
    }
}

#[test]
fn rows_with_unreadable_headers_are_not_published() {
    match prepare_to_publish(&row("not json")) {
        Err(e) => assert_eq!(e, "error occurred while parsing headers field"),
        Ok(_) => panic!("expected an error"),
    }
    assert!(prepare_to_publish(&row("{\"a\": 1}")).is_err());
}

#[test]
fn readied_by_replaces_a_stored_value() {
    let req = prepare_to_publish(&row("{\"readied_by\":\"old\",\"chronosMessageId\":\"id-3\"}")).unwrap();
    assert_eq!(req.headers.get("readied_by"), Some("5b0c1c5e-1111-4222-8333-444455556666".to_string()));
    assert_eq!(req.headers.entries().len(), 2);
    assert_eq!(req.payload, "42");
    assert_eq!(published_id(&req.headers), Some("id-3".to_string()));
    let without_id = prepare_to_publish(&row("{}")).unwrap();
    assert_eq!(published_id(&without_id.headers), None);
}

#[test]
fn ready_rounds() {
    assert_eq!(ready_step(&ReadyOutcome::NoRows, 0), (ReadyStep::Finished, 0));
    assert_eq!(ready_step(&ReadyOutcome::Published(2), 0), (ReadyStep::Finished, 0));
    assert_eq!(ready_step(&ReadyOutcome::Published(0), 1), (ReadyStep::Repeat, 1));
    let busy = ReadyOutcome::Failed("ERROR: could not serialize access due to concurrent update".to_string());
    assert_eq!(ready_step(&busy, 0), (ReadyStep::Repeat, 1));
    assert_eq!(ready_step(&busy, 2), (ReadyStep::Finished, 3));
    assert_eq!(ready_step(&busy, 3), (ReadyStep::Repeat, 3));
    let other = ReadyOutcome::Failed("connection reset".to_string());
    assert_eq!(ready_step(&other, 0), (ReadyStep::Repeat, 0));
}

fn is_v4(u: u128) -> bool {
    (u >> 76) & 0xf == 4 && (u >> 62) & 0x3 == 2
}

#[test]
fn node_id_comes_from_node_id_when_it_is_a_uuid() {
    let mut env = EnvVars::new();
    env.push("NODE_ID", "67e55044-10b1-426f-9247-bb680e5fe0c8");
    assert_eq!(assign_node_id(&env), 0x67e5504410b1426f9247bb680e5fe0c8);
    let mut env = EnvVars::new();
    env.push("NODE_ID", "not-a-uuid");
    assert!(is_v4(assign_node_id(&env)));
    assert!(is_v4(assign_node_id(&EnvVars::new())));
}

#[test]
fn ready_query_looks_back_by_the_timing_advance() {
    let now = Timestamp { secs: 1_704_067_200, nanos: 7 };
    let at = Timestamp { secs: 1_704_067_170, nanos: 7 };
    assert_eq!(ready_query(now, 30, 99), ReadyQuery { readied_at: at, readied_by: 99, deadline: at });
    assert_eq!(ready_query(now, 0, 1).deadline, now);
}

#[test]
fn only_published_rows_are_deleted() {
    let results: Vec<Result<String, String>> = vec![
        Ok("a".to_string()),
        Err("error occurred while publishing".to_string()),
        Ok("c".to_string()),
    ];
    let (ids, outcome) = round_outcome(&results);
    assert_eq!(ids, vec!["a".to_string(), "c".to_string()]);
    assert!(matches!(outcome, ReadyOutcome::Published(2)));
    let (ids, outcome) = round_outcome(&vec![Err("x".to_string())]);
    assert!(ids.is_empty());
    assert!(matches!(outcome, ReadyOutcome::Published(0)));
    let (ids, outcome) = round_outcome(&Vec::new());
    assert!(ids.is_empty());
    assert!(matches!(outcome, ReadyOutcome::NoRows));
}

#[test]
fn publish_request_from_parsed_headers() {
    let r = row("ignored");
    match publish_request_from(None, &r) {
        Err(e) => assert_eq!(e, "error occurred while parsing headers field"),
        Ok(_) => panic!("expected an error"),
    }
    let pairs = vec![("chronosMessageId".to_string(), "id-3".to_string()), ("readied_by".to_string(), "old".to_string())];
    let req = publish_request_from(Some(pairs), &r).unwrap();
    assert_eq!(req.headers.get("readied_by"), Some(r.readied_by.clone()));
    assert_eq!(req.headers.get("chronosMessageId"), Some("id-3".to_string()));
    assert_eq!(req.headers.entries().len(), 2);
    assert_eq!((req.payload.as_str(), req.key.as_str()), ("42", "k"));
}
