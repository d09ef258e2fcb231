//! Topic set-up: whether a topic already exists, judged from the broker's
//! metadata for it, and the topic to create when it does not.
use vstd::prelude::*;

use crate::text::copy_str;

verus! {

/// The outcome of setting up a topic.
#[derive(Debug, Clone, Copy, PartialEq, Eq, Structural)]
pub enum KafkaDeployStatus {
    TopicExists,
    TopicCreated,
}

/// The status before any creation, given the partition counts of the topics
/// that the metadata lists for the topic's name: it exists when the first of
/// them has a partition; otherwise it still has to be created (`None`).
pub fn existing_topic(partition_counts: &Vec<usize>) -> (res: Option<KafkaDeployStatus>)
    ensures
        res == (if partition_counts@.len() > 0 && partition_counts@[0] > 0 {
            Some(KafkaDeployStatus::TopicExists)
        } else {
            None
        }),
{
    if partition_counts.len() > 0 && partition_counts[0] > 0 {
        Some(KafkaDeployStatus::TopicExists)
    } else {
        None
    }
}

/// A topic to create.
pub struct TopicRequest {
    pub name: String,
    pub num_partitions: i32,
    /// Every partition has this many replicas.
    pub replication_factor: i32,
    /// Topic-level settings, as name and value.
    pub config: Vec<(String, String)>,
}

/// The topic setting that decides which time a message is stamped with.
pub open spec fn timestamp_type_setting() -> Seq<char> {
    "message.timestamp.type"@
}

/// Messages are stamped with the time the broker appended them.
pub open spec fn log_append_time() -> Seq<char> {
    "LogAppendTime"@
}

/// The topic requested when `topic_name` does not exist: that name, the
/// given number of partitions, a fixed replication factor, and messages
/// stamped with their log-append time.
pub fn new_topic_request(topic_name: &str, replication_factor: i32, num_partitions: i32) -> (res:
    TopicRequest)
    ensures
        res.name@ == topic_name@,
        res.num_partitions == num_partitions,
        res.replication_factor == replication_factor,
        res.config@.len() == 1,
        res.config@[0].0@ == timestamp_type_setting(),
        res.config@[0].1@ == log_append_time(),
{
    let mut config: Vec<(String, String)> = Vec::new();
    config.push((copy_str("message.timestamp.type"), copy_str("LogAppendTime")));
    TopicRequest { name: copy_str(topic_name), num_partitions, replication_factor, config }
}

} // verus!
