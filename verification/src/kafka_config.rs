//! Kafka client settings: read from the environment, then turned into the
//! librdkafka configuration of the consumer and of the producer.
use vstd::prelude::*;
use vstd::string::*;

use rdkafka::ClientConfig;

use crate::env::EnvVars;
use crate::pairs::pairs_map;
use crate::text::{join, lemma_join_contains, push_char, seq_contains, split_on, split_trimmed, trim};

verus! {

/// librdkafka's `ClientConfig`, opaque here; its settings are named by
/// `client_config_entries`.
#[verifier::external_type_specification]
#[verifier::external_body]
pub struct ExClientConfig(rdkafka::ClientConfig);

/// Setting names to values.
pub type ConfigEntries = crate::pairs::StringMap;

/// The settings that a `ClientConfig` holds (its `config_map`).
pub uninterp spec fn client_config_entries(config: ClientConfig) -> ConfigEntries;

/// `ClientConfig::new`: a configuration with no setting.
#[verifier::external_body]
fn new_client_config() -> (config: ClientConfig)
    ensures
        client_config_entries(config) == ConfigEntries::empty(),
{
    ClientConfig::new()
}

/// `ClientConfig::set`: installs `value` under `key`, replacing any earlier
/// value of that key.
#[verifier::external_body]
fn client_config_set(config: &mut ClientConfig, key: &str, value: &str)
    ensures
        client_config_entries(*final(config)) == client_config_entries(*old(config)).insert(
            key@,
            value@,
        ),
{
    config.set(key, value);
}

/// Kafka connection settings.
#[derive(Debug)]
pub struct KafkaConfig {
    pub host: Vec<String>,
    pub port: String,
    pub in_topic: String,
    pub out_topic: String,
    pub client_id: String,
    pub group_id: String,
    pub username: String,
    pub password: String,
    /// Producer settings that replace the defaults, applied in order.
    pub producer_config_overrides: Vec<(String, String)>,
    /// Consumer settings that replace the defaults, applied in order.
    pub consumer_config_overrides: Vec<(String, String)>,
}

/// The names of the variables that `KafkaConfig::from_env` reads.
pub open spec fn kafka_env_names() -> Seq<Seq<char>> {
    seq![
        "KAFKA_HOST"@,
        "KAFKA_PORT"@,
        "KAFKA_IN_TOPIC"@,
        "KAFKA_OUT_TOPIC"@,
        "KAFKA_CLIENT_ID"@,
        "KAFKA_GROUP_ID"@,
        "KAFKA_USERNAME"@,
        "KAFKA_PASSWORD"@,
    ]
}

/// `host:port` for each broker host.
pub open spec fn broker_addresses(hosts: Seq<String>, port: Seq<char>) -> Seq<Seq<char>> {
    Seq::new(hosts.len(), |i: int| hosts[i]@.push(':') + port)
}

/// The value of `bootstrap.servers`: the broker addresses, comma separated.
pub open spec fn bootstrap_servers(cfg: KafkaConfig) -> Seq<char> {
    join(broker_addresses(cfg.host@, cfg.port@), seq![','])
}

/// The consumer defaults.
pub open spec fn consumer_defaults(cfg: KafkaConfig) -> ConfigEntries {
    ConfigEntries::empty().insert("group.id"@, cfg.group_id@).insert(
        "bootstrap.servers"@,
        bootstrap_servers(cfg),
    ).insert("auto.offset.reset"@, "earliest"@).insert("socket.keepalive.enable"@, "true"@).insert(
        "enable.auto.commit"@,
        "true"@,
    ).insert("auto.commit.interval.ms"@, "10"@)
}

/// The producer defaults.
pub open spec fn producer_defaults(cfg: KafkaConfig) -> ConfigEntries {
    ConfigEntries::empty().insert("message.timeout.ms"@, "30000"@).insert(
        "bootstrap.servers"@,
        bootstrap_servers(cfg),
    ).insert("message.send.max.retries"@, "100000"@)
}

/// Whether both a user name and a password are configured.
pub open spec fn has_credentials(cfg: KafkaConfig) -> bool {
    cfg.username@.len() > 0 && cfg.password@.len() > 0
}

/// The SASL settings, added on top of `m` when there are credentials.
pub open spec fn with_credentials(m: ConfigEntries, cfg: KafkaConfig) -> ConfigEntries {
    if has_credentials(cfg) {
        m.insert("security.protocol"@, "SASL_PLAINTEXT"@).insert(
            "sasl.mechanisms"@,
            "SCRAM-SHA-512"@,
        ).insert("sasl.username"@, cfg.username@).insert("sasl.password"@, cfg.password@)
    } else {
        m
    }
}

/// The settings of the consumer: defaults, then the overrides, then the
/// credentials.
pub open spec fn consumer_entries(cfg: KafkaConfig) -> ConfigEntries {
    with_credentials(
        consumer_defaults(cfg).union_prefer_right(pairs_map(cfg.consumer_config_overrides@)),
        cfg,
    )
}

/// The settings of the producer: defaults, then the overrides, then the
/// credentials.
pub open spec fn producer_entries(cfg: KafkaConfig) -> ConfigEntries {
    with_credentials(
        producer_defaults(cfg).union_prefer_right(pairs_map(cfg.producer_config_overrides@)),
        cfg,
    )
}

fn read_var(env: &EnvVars, name: &str) -> (res: String)
    requires
        env.has(name@),
    ensures
        env.var(name@) == Some(res@),
{
    match env.get(name) {
        Some(v) => v,
        None => String::new(),
    }
}

/// Applies each pair to `config` in order.
fn set_all(config: &mut ClientConfig, pairs: &Vec<(String, String)>)
    ensures
        client_config_entries(*final(config)) == client_config_entries(
            *old(config),
        ).union_prefer_right(pairs_map(pairs@)),
{
    let n = pairs.len();
    let mut i: usize = 0;
    assert(pairs_map(pairs@.take(0)) =~= ConfigEntries::empty());
    assert(client_config_entries(*config).union_prefer_right(ConfigEntries::empty())
        =~= client_config_entries(*config));
    while i < n
        invariant
            n == pairs@.len(),
            i <= n,
            client_config_entries(*config) == client_config_entries(
                *old(config),
            ).union_prefer_right(pairs_map(pairs@.take(i as int))),
        decreases n - i,
    {
        let ghost before = client_config_entries(*config);
        client_config_set(config, pairs[i].0.as_str(), pairs[i].1.as_str());
        assert(pairs@.take(i + 1).drop_last() =~= pairs@.take(i as int));
        assert(client_config_entries(*config) =~= client_config_entries(
            *old(config),
        ).union_prefer_right(pairs_map(pairs@.take(i + 1))));
        i = i + 1;
    }
    assert(pairs@.take(n as int) =~= pairs@);
}

impl KafkaConfig {
    /// Reads the Kafka settings. `KAFKA_HOST` is a comma separated list of
    /// hosts, each trimmed of white space; the other fields are the values
    /// of their variables as they stand. No override is set.
    pub fn from_env(env: &EnvVars) -> (cfg: KafkaConfig)
        requires
            forall|i: int| 0 <= i < kafka_env_names().len() ==> env.has(#[trigger] kafka_env_names()[i]),
        ensures
            cfg.host@.len() == split_on(env.var("KAFKA_HOST"@)->0, ',').len(),
            forall|i: int|
                0 <= i < cfg.host@.len() ==> #[trigger] cfg.host@[i]@ == trim(
                    split_on(env.var("KAFKA_HOST"@)->0, ',')[i],
                ),
            env.var("KAFKA_PORT"@) == Some(cfg.port@),
            env.var("KAFKA_IN_TOPIC"@) == Some(cfg.in_topic@),
            env.var("KAFKA_OUT_TOPIC"@) == Some(cfg.out_topic@),
            env.var("KAFKA_CLIENT_ID"@) == Some(cfg.client_id@),
            env.var("KAFKA_GROUP_ID"@) == Some(cfg.group_id@),
            env.var("KAFKA_USERNAME"@) == Some(cfg.username@),
            env.var("KAFKA_PASSWORD"@) == Some(cfg.password@),
            cfg.producer_config_overrides@.len() == 0,
            cfg.consumer_config_overrides@.len() == 0,
    {
        assert(env.has(kafka_env_names()[0]));
        assert(env.has(kafka_env_names()[1]));
        assert(env.has(kafka_env_names()[2]));
        assert(env.has(kafka_env_names()[3]));
        assert(env.has(kafka_env_names()[4]));
        assert(env.has(kafka_env_names()[5]));
        assert(env.has(kafka_env_names()[6]));
        assert(env.has(kafka_env_names()[7]));
        let hosts = read_var(env, "KAFKA_HOST");
        KafkaConfig {
            host: split_trimmed(hosts.as_str(), ','),
            port: read_var(env, "KAFKA_PORT"),
            in_topic: read_var(env, "KAFKA_IN_TOPIC"),
            out_topic: read_var(env, "KAFKA_OUT_TOPIC"),
            client_id: read_var(env, "KAFKA_CLIENT_ID"),
            group_id: read_var(env, "KAFKA_GROUP_ID"),
            username: read_var(env, "KAFKA_USERNAME"),
            password: read_var(env, "KAFKA_PASSWORD"),
            producer_config_overrides: Vec::new(),
            consumer_config_overrides: Vec::new(),
        }
    }

    /// Replaces both override lists.
    pub fn set_overrides(
        &mut self,
        producer_config_overrides: Vec<(String, String)>,
        consumer_config_overrides: Vec<(String, String)>,
    )
        ensures
            final(self).producer_config_overrides == producer_config_overrides,
            final(self).consumer_config_overrides == consumer_config_overrides,
            final(self).host == old(self).host,
            final(self).port == old(self).port,
            final(self).in_topic == old(self).in_topic,
            final(self).out_topic == old(self).out_topic,
            final(self).client_id == old(self).client_id,
            final(self).group_id == old(self).group_id,
            final(self).username == old(self).username,
            final(self).password == old(self).password,
    {
        self.producer_config_overrides = producer_config_overrides;
        self.consumer_config_overrides = consumer_config_overrides;
    }

    /// The broker list: `host:port` for each host, joined by commas.
    pub fn bootstrap_servers(&self) -> (res: String)
        ensures
            res@ == bootstrap_servers(*self),
    {
        let ghost addrs = broker_addresses(self.host@, self.port@);
        let mut res = String::new();
        let n = self.host.len();
        let mut i: usize = 0;
        while i < n
            invariant
                n == self.host@.len(),
                addrs == broker_addresses(self.host@, self.port@),
                i <= n,
                res@ == join(addrs.take(i as int), seq![',']),
            decreases n - i,
        {
            let mut addr = self.host[i].clone();
            push_char(&mut addr, ':');
            addr.append(self.port.as_str());
            assert(addr@ == addrs[i as int]);
            if i > 0 {
                push_char(&mut res, ',');
            }
            res.append(addr.as_str());
            assert(addrs.take(i + 1).drop_last() =~= addrs.take(i as int));
            assert(i == 0 ==> res@ =~= join(addrs.take(i + 1), seq![',']));
            i = i + 1;
        }
        assert(addrs.take(n as int) =~= addrs);
        res
    }

    fn set_credentials(&self, config: &mut ClientConfig)
        ensures
            client_config_entries(*final(config)) == with_credentials(
                client_config_entries(*old(config)),
                *self,
            ),
    {
        if !self.username.as_str().is_empty() && !self.password.as_str().is_empty() {
            client_config_set(config, "security.protocol", "SASL_PLAINTEXT");
            client_config_set(config, "sasl.mechanisms", "SCRAM-SHA-512");
            client_config_set(config, "sasl.username", self.username.as_str());
            client_config_set(config, "sasl.password", self.password.as_str());
        }
    }

    /// The librdkafka configuration of the consumer.
    pub fn build_consumer_config(&self) -> (config: ClientConfig)
        ensures
            client_config_entries(config) == consumer_entries(*self),
    {
        let mut config = new_client_config();
        let brokers = self.bootstrap_servers();
        client_config_set(&mut config, "group.id", self.group_id.as_str());
        client_config_set(&mut config, "bootstrap.servers", brokers.as_str());
        client_config_set(&mut config, "auto.offset.reset", "earliest");
        client_config_set(&mut config, "socket.keepalive.enable", "true");
        client_config_set(&mut config, "enable.auto.commit", "true");
        client_config_set(&mut config, "auto.commit.interval.ms", "10");
        assert(client_config_entries(config) == consumer_defaults(*self));
        set_all(&mut config, &self.consumer_config_overrides);
        self.set_credentials(&mut config);
        config
    }

    /// The librdkafka configuration of the producer.
    pub fn build_producer_config(&self) -> (config: ClientConfig)
        ensures
            client_config_entries(config) == producer_entries(*self),
    {
        let mut config = new_client_config();
        let brokers = self.bootstrap_servers();
        client_config_set(&mut config, "message.timeout.ms", "30000");
        client_config_set(&mut config, "bootstrap.servers", brokers.as_str());
        client_config_set(&mut config, "message.send.max.retries", "100000");
        assert(client_config_entries(config) == producer_defaults(*self));
        set_all(&mut config, &self.producer_config_overrides);
        self.set_credentials(&mut config);
        config
    }
}

/// The setting names that the laws compare are different texts.
proof fn lemma_setting_names_distinct()
    ensures
        "sasl.password"@ != "sasl.username"@,
        "sasl.password"@ != "sasl.mechanisms"@,
        "sasl.password"@ != "security.protocol"@,
        "sasl.username"@ != "sasl.mechanisms"@,
        "sasl.username"@ != "security.protocol"@,
        "sasl.mechanisms"@ != "security.protocol"@,
        "group.id"@ != "message.timeout.ms"@,
        "group.id"@ != "bootstrap.servers"@,
        "group.id"@ != "message.send.max.retries"@,
        "group.id"@ != "security.protocol"@,
        "group.id"@ != "sasl.mechanisms"@,
        "group.id"@ != "sasl.username"@,
        "group.id"@ != "sasl.password"@,
        "sasl.username"@ != "message.timeout.ms"@,
        "sasl.username"@ != "bootstrap.servers"@,
        "sasl.username"@ != "message.send.max.retries"@,
        "sasl.username"@ != "auto.offset.reset"@,
        "sasl.username"@ != "socket.keepalive.enable"@,
        "sasl.username"@ != "enable.auto.commit"@,
        "sasl.username"@ != "auto.commit.interval.ms"@,
{
    reveal_strlit("group.id");
    reveal_strlit("message.timeout.ms");
    reveal_strlit("bootstrap.servers");
    reveal_strlit("message.send.max.retries");
    reveal_strlit("security.protocol");
    reveal_strlit("sasl.mechanisms");
    reveal_strlit("sasl.username");
    reveal_strlit("sasl.password");
    reveal_strlit("auto.offset.reset");
    reveal_strlit("socket.keepalive.enable");
    reveal_strlit("enable.auto.commit");
    reveal_strlit("auto.commit.interval.ms");
    assert("group.id"@.len() == 8);
    assert("message.timeout.ms"@.len() == 18);
    assert("bootstrap.servers"@.len() == 17);
    assert("message.send.max.retries"@.len() == 24);
    assert("security.protocol"@.len() == 17);
    assert("sasl.mechanisms"@.len() == 15);
    assert("sasl.username"@.len() == 13);
    assert("sasl.password"@.len() == 13);
    assert("auto.offset.reset"@.len() == 17);
    assert("socket.keepalive.enable"@.len() == 23);
    assert("enable.auto.commit"@.len() == 18);
    assert("auto.commit.interval.ms"@.len() == 23);
    assert("sasl.password"@[5] == 'p' && "sasl.username"@[5] == 'u');
}

/// The names of the SASL settings.
pub open spec fn is_credential_setting(name: Seq<char>) -> bool {
    name == "security.protocol"@ || name == "sasl.mechanisms"@ || name == "sasl.username"@
        || name == "sasl.password"@
}

/// An override replaces the default of its setting, in the consumer and in
/// the producer configuration alike; only the SASL settings that
/// credentials bring are not overridden.
pub proof fn law_override_replaces_default(cfg: KafkaConfig, name: Seq<char>)
    requires
        !(has_credentials(cfg) && is_credential_setting(name)),
    ensures
        pairs_map(cfg.consumer_config_overrides@).contains_key(name) ==> consumer_entries(cfg).contains_key(name)
            && consumer_entries(cfg)[name] == pairs_map(cfg.consumer_config_overrides@)[name],
        pairs_map(cfg.producer_config_overrides@).contains_key(name) ==> producer_entries(cfg).contains_key(name)
            && producer_entries(cfg)[name] == pairs_map(cfg.producer_config_overrides@)[name],
{
}

/// A default that no override names stays as it is, the SASL settings of
/// credentials apart.
pub proof fn law_default_kept(cfg: KafkaConfig, name: Seq<char>)
    requires
        !(has_credentials(cfg) && is_credential_setting(name)),
    ensures
        consumer_defaults(cfg).contains_key(name) && !pairs_map(
            cfg.consumer_config_overrides@,
        ).contains_key(name) ==> consumer_entries(cfg)[name] == consumer_defaults(cfg)[name],
        producer_defaults(cfg).contains_key(name) && !pairs_map(
            cfg.producer_config_overrides@,
        ).contains_key(name) ==> producer_entries(cfg)[name] == producer_defaults(cfg)[name],
{
}

/// With a user name and a password, both configurations authenticate with
/// SASL/SCRAM-SHA-512 over plain text, with those credentials, whatever the
/// overrides say.
pub proof fn law_credentials_win(cfg: KafkaConfig)
    requires
        has_credentials(cfg),
    ensures
        consumer_entries(cfg)["security.protocol"@] == "SASL_PLAINTEXT"@,
        consumer_entries(cfg)["sasl.mechanisms"@] == "SCRAM-SHA-512"@,
        consumer_entries(cfg)["sasl.username"@] == cfg.username@,
        consumer_entries(cfg)["sasl.password"@] == cfg.password@,
        producer_entries(cfg)["security.protocol"@] == "SASL_PLAINTEXT"@,
        producer_entries(cfg)["sasl.mechanisms"@] == "SCRAM-SHA-512"@,
        producer_entries(cfg)["sasl.username"@] == cfg.username@,
        producer_entries(cfg)["sasl.password"@] == cfg.password@,
{
    lemma_setting_names_distinct();
}

/// The producer is in no consumer group: unless an override names it, its
/// configuration has no `group.id`. Without credentials, the SASL settings
/// are likewise absent unless an override sets them.
pub proof fn law_producer_has_no_group(cfg: KafkaConfig)
    ensures
        !pairs_map(cfg.producer_config_overrides@).contains_key("group.id"@) ==> !producer_entries(
            cfg,
        ).contains_key("group.id"@),
        !has_credentials(cfg) && !pairs_map(cfg.producer_config_overrides@).contains_key(
            "sasl.username"@,
        ) ==> !producer_entries(cfg).contains_key("sasl.username"@),
        !has_credentials(cfg) && !pairs_map(cfg.consumer_config_overrides@).contains_key(
            "sasl.username"@,
        ) ==> !consumer_entries(cfg).contains_key("sasl.username"@),
{
    lemma_setting_names_distinct();
}

/// `bootstrap.servers` differs from every other setting name that a
/// configuration is built with.
proof fn lemma_broker_setting_distinct()
    ensures
        "bootstrap.servers"@ != "message.timeout.ms"@,
        "bootstrap.servers"@ != "message.send.max.retries"@,
        "bootstrap.servers"@ != "group.id"@,
        "bootstrap.servers"@ != "auto.offset.reset"@,
        "bootstrap.servers"@ != "socket.keepalive.enable"@,
        "bootstrap.servers"@ != "enable.auto.commit"@,
        "bootstrap.servers"@ != "auto.commit.interval.ms"@,
        "bootstrap.servers"@ != "security.protocol"@,
        "bootstrap.servers"@ != "sasl.mechanisms"@,
        "bootstrap.servers"@ != "sasl.username"@,
        "bootstrap.servers"@ != "sasl.password"@,
{
    reveal_strlit("bootstrap.servers");
    reveal_strlit("message.timeout.ms");
    reveal_strlit("message.send.max.retries");
    reveal_strlit("group.id");
    reveal_strlit("auto.offset.reset");
    reveal_strlit("socket.keepalive.enable");
    reveal_strlit("enable.auto.commit");
    reveal_strlit("auto.commit.interval.ms");
    reveal_strlit("security.protocol");
    reveal_strlit("sasl.mechanisms");
    reveal_strlit("sasl.username");
    reveal_strlit("sasl.password");
    assert("bootstrap.servers"@[0] == 'b');
    assert("message.timeout.ms"@[0] == 'm');
    assert("message.send.max.retries"@[0] == 'm');
    assert("group.id"@[0] == 'g');
    assert("auto.offset.reset"@[0] == 'a');
    assert("socket.keepalive.enable"@[0] == 's');
    assert("enable.auto.commit"@[0] == 'e');
    assert("auto.commit.interval.ms"@[0] == 'a');
    assert("security.protocol"@[0] == 's');
    assert("sasl.mechanisms"@[0] == 's');
    assert("sasl.username"@[0] == 's');
    assert("sasl.password"@[0] == 's');
}

/// Producer and consumer reach the same brokers on the configured port:
/// unless an override names `bootstrap.servers`, each configuration sets
/// it, its value holds `host:port` for every configured host, and the
/// producer's value is the consumer's.
pub proof fn law_brokers_carry_the_port(cfg: KafkaConfig)
    ensures
        !pairs_map(cfg.producer_config_overrides@).contains_key("bootstrap.servers"@) ==> {
            &&& producer_entries(cfg).contains_key("bootstrap.servers"@)
            &&& forall|i: int|
                0 <= i < cfg.host@.len() ==> seq_contains(
                    producer_entries(cfg)["bootstrap.servers"@],
                    #[trigger] cfg.host@[i]@.push(':') + cfg.port@,
                )
        },
        !pairs_map(cfg.consumer_config_overrides@).contains_key("bootstrap.servers"@) ==> {
            &&& consumer_entries(cfg).contains_key("bootstrap.servers"@)
            &&& forall|i: int|
                0 <= i < cfg.host@.len() ==> seq_contains(
                    consumer_entries(cfg)["bootstrap.servers"@],
                    #[trigger] cfg.host@[i]@.push(':') + cfg.port@,
                )
        },
        !pairs_map(cfg.producer_config_overrides@).contains_key("bootstrap.servers"@)
            && !pairs_map(cfg.consumer_config_overrides@).contains_key("bootstrap.servers"@)
            ==> producer_entries(cfg)["bootstrap.servers"@]
            == consumer_entries(cfg)["bootstrap.servers"@],
{
    lemma_broker_setting_distinct();
    let key = "bootstrap.servers"@;
    let addrs = broker_addresses(cfg.host@, cfg.port@);
    assert forall|i: int| 0 <= i < cfg.host@.len() implies seq_contains(
        bootstrap_servers(cfg),
        #[trigger] cfg.host@[i]@.push(':') + cfg.port@,
    ) by {
        lemma_join_contains(addrs, seq![','], i);
    }
    if !pairs_map(cfg.producer_config_overrides@).contains_key(key) {
        assert(producer_entries(cfg).contains_key(key));
        assert(producer_entries(cfg)[key] == bootstrap_servers(cfg));
    }
    if !pairs_map(cfg.consumer_config_overrides@).contains_key(key) {
        assert(consumer_entries(cfg).contains_key(key));
        assert(consumer_entries(cfg)[key] == bootstrap_servers(cfg));
    }
}

} // verus!
