use chronos::env::EnvVars;
use chronos::kafka_config::KafkaConfig;
use chronos::kafka_deploy::{existing_topic, new_topic_request, KafkaDeployStatus};

fn build_test_kafka_config() -> KafkaConfig {
    KafkaConfig {
        host: vec!["broker1".to_string()],
        in_topic: "in_topic".to_owned(),
        out_topic: "out_topic".to_owned(),
        client_id: "client-id-1".to_string(),
        group_id: "group-id-1".to_string(),
        username: "user_name".to_owned(),
        password: "password".to_owned(),
        producer_config_overrides: Default::default(),
        consumer_config_overrides: Default::default(),
        port: "3000".to_string(),
    }
}

fn kafka_env() -> EnvVars {
    let mut env = EnvVars::new();
    for (k, v) in [
        ("KAFKA_HOST", "broker1, broker2 "),
        ("KAFKA_PORT", "port"),
        ("KAFKA_IN_TOPIC", "some-topic"),
        ("KAFKA_OUT_TOPIC", "some-topic"),
        ("KAFKA_CLIENT_ID", "some-client-id"),
        ("KAFKA_GROUP_ID", "some-group-id"),
        ("KAFKA_USERNAME", ""),
        ("KAFKA_PASSWORD", ""),
    ] {
        env.push(k, v);
    }
    env
}

#[test]
fn test_from_env_gets_values_successully() {
    let config = KafkaConfig::from_env(&kafka_env());
    assert_eq!(config.client_id, "some-client-id");
    assert_eq!(config.host.len(), 2);
}

#[test]
fn from_env_trims_hosts_and_keeps_values() {
    let config = KafkaConfig::from_env(&kafka_env());
    assert_eq!(config.host, vec!["broker1".to_string(), "broker2".to_string()]);
    assert_eq!(config.port, "port");
    assert_eq!(config.in_topic, "some-topic");
    assert_eq!(config.group_id, "some-group-id");
    assert_eq!(config.username, "");
    assert!(config.producer_config_overrides.is_empty());
}

#[test]
fn test_build_consumer_config_obj() {
    let config = build_test_kafka_config().build_consumer_config();
    assert_eq!(config.get("group.id").unwrap(), "group-id-1");
    assert_eq!(config.get("socket.keepalive.enable").unwrap(), "true");
    assert_eq!(config.get("sasl.username").unwrap(), "user_name");
}

#[test]
fn test_passing_credentials_to_build_consumer_config() {
    let config = KafkaConfig {
        host: vec!["broker1".to_string()],
        in_topic: "consumer-topic-1".to_owned(),
        out_topic: "consumer-topic-2".to_owned(),
        client_id: "client-id-1".to_string(),
        group_id: "groud-id-1".to_string(),
        username: "user".to_string(),
        password: "password".to_string(),
        producer_config_overrides: Default::default(),
        consumer_config_overrides: Default::default(),
        port: "3000".to_string(),
    };
    let client_config = config.build_consumer_config();
    assert_eq!(client_config.get("auto.offset.reset").unwrap(), "earliest");
    assert_eq!(client_config.get("socket.keepalive.enable").unwrap(), "true");
    assert_eq!(client_config.get("enable.auto.commit").unwrap(), "true");
    assert_eq!(client_config.get("sasl.username").unwrap(), "user");
    assert_eq!(client_config.get("sasl.password").unwrap(), "password");
    assert_eq!(client_config.get("security.protocol").unwrap(), "SASL_PLAINTEXT");
}

#[test]
fn test_build_producer_config_obj() {
    let config = build_test_kafka_config().build_producer_config();
    assert!(config.get("group.id").is_none());
    assert_eq!(config.get("sasl.username").unwrap(), "user_name");
    assert_eq!(config.get("sasl.password").unwrap(), "password");
    assert_eq!(config.get("message.timeout.ms").unwrap(), "30000");
    assert_eq!(config.get("message.send.max.retries").unwrap(), "100000");
}

#[test]
fn test_passing_overrides() {
    let mut kafka_config = KafkaConfig {
        host: vec!["broker1".to_string()],
        in_topic: "in_topic".to_owned(),
        out_topic: "out_topic".to_owned(),
        client_id: "client-id-1".to_string(),
        group_id: "groud-id-1".to_string(),
        username: "user".to_string(),
        password: "password".to_string(),
        producer_config_overrides: Default::default(),
        consumer_config_overrides: Default::default(),
        port: "3000".to_string(),
    };
    let producer_override = vec![("message.timeout.ms".to_string(), "10".to_string())];
    let consumer_override = vec![("auto.offset.reset".to_string(), "latest".to_string())];
    kafka_config.set_overrides(producer_override, consumer_override);
    let producer_config = kafka_config.build_producer_config();
    assert_eq!(producer_config.get("sasl.username").unwrap(), "user");
    assert_eq!(producer_config.get("message.timeout.ms").unwrap(), "10");
    let consumer_config = kafka_config.build_consumer_config();
    assert_eq!(consumer_config.get("sasl.username").unwrap(), "user");
    assert_eq!(consumer_config.get("auto.offset.reset").unwrap(), "latest");
}

#[test]
fn bootstrap_servers_lists_every_host_with_the_port() {
    let mut config = build_test_kafka_config();
    config.host = vec!["a".to_string(), "b".to_string(), "c".to_string()];
    assert_eq!(config.bootstrap_servers(), "a:3000,b:3000,c:3000");
    let consumer = config.build_consumer_config();
    assert_eq!(consumer.get("bootstrap.servers").unwrap(), "a:3000,b:3000,c:3000");
    assert_eq!(consumer.get("auto.commit.interval.ms").unwrap(), "10");
    assert_eq!(consumer.config_map().len(), 10);
}

#[test]
fn no_sasl_settings_without_a_password() {
    let mut config = build_test_kafka_config();
    config.password = String::new();
    let consumer = config.build_consumer_config();
    assert!(consumer.get("sasl.username").is_none());
    assert!(consumer.get("security.protocol").is_none());
    assert_eq!(consumer.config_map().len(), 6);
    let producer = config.build_producer_config();
    assert_eq!(producer.config_map().len(), 3);
}

#[test]
fn credentials_win_over_overrides_and_later_overrides_win() {
    let mut config = build_test_kafka_config();
    config.set_overrides(
        vec![
            ("sasl.username".to_string(), "other".to_string()),
            ("linger.ms".to_string(), "1".to_string()),
            ("linger.ms".to_string(), "5".to_string()),
        ],
        vec![],
    );
    let producer = config.build_producer_config();
    assert_eq!(producer.get("sasl.username").unwrap(), "user_name");
    assert_eq!(producer.get("linger.ms").unwrap(), "5");
    assert_eq!(producer.get("sasl.mechanisms").unwrap(), "SCRAM-SHA-512");
}

#[test]
fn topic_exists_only_with_partitions() {
    assert_eq!(existing_topic(&vec![3]), Some(KafkaDeployStatus::TopicExists));
    assert_eq!(existing_topic(&vec![0, 2]), None);
    assert_eq!(existing_topic(&vec![]), None);
}

#[test]
fn missing_topic_is_requested_with_log_append_time() {
    let t = new_topic_request("chronos.in", 3, 12);
    assert_eq!(t.name, "chronos.in");
    assert_eq!(t.num_partitions, 12);
    assert_eq!(t.replication_factor, 3);
    assert_eq!(t.config, vec![("message.timestamp.type".to_string(), "LogAppendTime".to_string())]);
}
