//! What the processor does with the rows whose deadline has come: it turns
//! each into a message to publish, marked with the node that readied it, and
//! decides after each round of the ready query whether to query again.
use vstd::prelude::*;

use crate::env::EnvVars;
use crate::headers::{lossy_utf8, HeaderMap, KafkaMessage, CHRONOS_ID};
use crate::json::{headers_from_json, json_to_header_pairs};
use crate::pairs::{pairs_map, StringMap};
use crate::receiver::{insert_plan_for, DelayedRecord, InsertPlan, PublishRequest, Timestamp};
use crate::text::{contains_str, copy_str, seq_contains};

verus! {

/// A row of the delay table that the ready query returned, as text.
pub struct ReadyRow {
    pub id: String,
    /// The stored headers, a JSON object of strings.
    pub headers_json: String,
    /// The node that readied the row.
    pub readied_by: String,
    pub key: String,
    /// The stored payload, as JSON text.
    pub value: String,
}

/// The header that names the node which readied a message.
pub open spec fn readied_by_header() -> Seq<char> {
    "readied_by"@
}

pub open spec fn headers_parse_error_message() -> Seq<char> {
    "error occurred while parsing headers field"@
}

/// The message to publish for a ready row: the stored headers with
/// `readied_by` added, the stored payload and key; an error when the stored
/// headers are not a JSON object of strings.
pub open spec fn prepared_from(row: ReadyRow, res: Result<PublishRequest, String>) -> bool {
    match headers_from_json(row.headers_json@) {
        None => res matches Err(e) && e@ == headers_parse_error_message(),
        Some(stored) => res matches Ok(req) && req.headers.wf() && req.headers@ == stored.insert(
            readied_by_header(),
            row.readied_by@,
        ) && req.payload@ == row.value@ && req.key@ == row.key@,
    }
}

/// The message to publish for a ready row, given its stored headers as
/// read from JSON (`None` when they are not a JSON object of strings): the
/// stored headers with `readied_by` added, the stored payload and key; an
/// error when the headers could not be read.
pub fn publish_request_from(stored: Option<Vec<(String, String)>>, row: &ReadyRow) -> (res: Result<
    PublishRequest,
    String,
>)
    ensures
        match stored {
            None => res matches Err(e) && e@ == headers_parse_error_message(),
            Some(pairs) => res matches Ok(req) && req.headers.wf() && req.headers@ == pairs_map(
                pairs@,
            ).insert(readied_by_header(), row.readied_by@) && req.payload@ == row.value@
                && req.key@ == row.key@,
        },
{
    match stored {
        None => Err(copy_str("error occurred while parsing headers field")),
        Some(pairs) => {
            let mut headers = HeaderMap::from_pairs(pairs);
            headers.insert(copy_str("readied_by"), row.readied_by.clone());
            Ok(PublishRequest { payload: row.value.clone(), key: row.key.clone(), headers })
        },
    }
}

/// Turns a ready row into the message to publish: the stored headers with
/// `readied_by` added, the stored payload and key. Fails when the stored
/// headers are not a JSON object of strings.
pub fn prepare_to_publish(row: &ReadyRow) -> (res: Result<PublishRequest, String>)
    ensures
        prepared_from(*row, res),
{
    publish_request_from(json_to_header_pairs(row.headers_json.as_str()), row)
}

/// The id under which a published message is reported: its id header.
pub fn published_id(headers: &HeaderMap) -> (res: Option<String>)
    requires
        headers.wf(),
    ensures
        match res {
            Some(id) => headers@.contains_key(CHRONOS_ID@) && headers@[CHRONOS_ID@] == id@,
            None => !headers@.contains_key(CHRONOS_ID@),
        },
{
    headers.get(CHRONOS_ID)
}

/// How a round of the ready query went.
pub enum ReadyOutcome {
    /// No row was ready.
    NoRows,
    /// Rows were ready; this many of them were published.
    Published(usize),
    /// The query failed with this error text.
    Failed(String),
}

/// The parameters of the ready query: rows are readied by `readied_by` at
/// `readied_at`, when their deadline is before `deadline`.
#[derive(Clone, Copy, Debug, PartialEq, Eq, Structural)]
pub struct ReadyQuery {
    pub readied_at: Timestamp,
    pub readied_by: u128,
    pub deadline: Timestamp,
}

/// The ready query of node `node_id` at `now`: both the time it readies
/// rows at and the deadline before which they are due are `now` less
/// `time_advance` seconds.
pub fn ready_query(now: Timestamp, time_advance: u64, node_id: u128) -> (res: ReadyQuery)
    requires
        now.secs - time_advance >= i64::MIN,
    ensures
        res.deadline == (Timestamp { secs: (now.secs - time_advance) as i64, nanos: now.nanos }),
        res.readied_at == res.deadline,
        res.readied_by == node_id,
{
    let secs: i64 = (now.secs as i128 - time_advance as i128) as i64;
    let at = Timestamp { secs, nanos: now.nanos };
    ReadyQuery { readied_at: at, readied_by: node_id, deadline: at }
}

/// The ids of the rows that were published, in row order.
pub open spec fn published_ids(results: Seq<Result<String, String>>) -> Seq<Seq<char>>
    decreases results.len(),
{
    if results.len() == 0 {
        Seq::empty()
    } else {
        let rest = published_ids(results.drop_last());
        match results.last() {
            Ok(id) => rest.push(id@),
            Err(_) => rest,
        }
    }
}

/// The texts of some strings.
pub open spec fn texts(ids: Seq<String>) -> Seq<Seq<char>> {
    ids.map_values(|s: String| s@)
}

/// The end of a round of the ready query that returned rows, given what
/// became of each row (its id when it was published, else an error): the
/// ids to delete from the table, exactly those of the published rows in
/// row order, and the round's outcome: no rows, or how many were
/// published.
pub fn round_outcome(results: &Vec<Result<String, String>>) -> (res: (Vec<String>, ReadyOutcome))
    ensures
        texts(res.0@) == published_ids(results@),
        results@.len() == 0 ==> res.1 is NoRows,
        results@.len() > 0 ==> (res.1 matches ReadyOutcome::Published(n) && n == res.0@.len()),
{
    let mut ids: Vec<String> = Vec::new();
    let mut i: usize = 0;
    while i < results.len()
        invariant
            i <= results@.len(),
            texts(ids@) == published_ids(results@.take(i as int)),
        decreases results@.len() - i,
    {
        assert(results@.take(i + 1).drop_last() =~= results@.take(i as int));
        match &results[i] {
            Ok(id) => {
                let copy = copy_str(id.as_str());
                ids.push(copy);
                assert(texts(ids@) =~= texts(ids@.drop_last()).push(copy@));
            },
            Err(_) => {},
        }
        i = i + 1;
    }
    assert(results@.take(results@.len() as int) =~= results@);
    if results.len() == 0 {
        (ids, ReadyOutcome::NoRows)
    } else {
        let n = ids.len();
        (ids, ReadyOutcome::Published(n))
    }
}

/// What the processor does after a round.
#[derive(Clone, Copy, Debug, PartialEq, Eq, Structural)]
pub enum ReadyStep {
    /// The round is over: nothing was ready, or what was published has been
    /// deleted from the table.
    Finished,
    /// Query again.
    Repeat,
}

/// The error text of a transaction that lost a concurrent update.
pub open spec fn serialization_failure_text() -> Seq<char> {
    "could not serialize access due to concurrent update"@
}

/// The number of query failures after which a round is given up.
pub const MAX_QUERY_RETRIES: u32 = 3;

/// The next step after a round and the new count of failed queries: a round
/// with no row finishes; one that published something finishes (after the
/// published rows are deleted); one that published nothing repeats. A
/// failed query repeats, except that a failure to serialize concurrent
/// updates is counted and the round finishes when the count reaches
/// `MAX_QUERY_RETRIES`.
pub fn ready_step(outcome: &ReadyOutcome, retry_count: u32) -> (res: (ReadyStep, u32))
    requires
        retry_count <= MAX_QUERY_RETRIES,
    ensures
        res.1 <= MAX_QUERY_RETRIES,
        match outcome {
            ReadyOutcome::NoRows => res == (ReadyStep::Finished, retry_count),
            ReadyOutcome::Published(n) => res == (
                if *n > 0 {
                    ReadyStep::Finished
                } else {
                    ReadyStep::Repeat
                },
                retry_count,
            ),
            ReadyOutcome::Failed(e) => if seq_contains(e@, serialization_failure_text())
                && retry_count < MAX_QUERY_RETRIES {
                res.1 == retry_count + 1 && res.0 == (if retry_count + 1 == MAX_QUERY_RETRIES {
                    ReadyStep::Finished
                } else {
                    ReadyStep::Repeat
                })
            } else {
                res == (ReadyStep::Repeat, retry_count)
            },
        },
{
    match outcome {
        ReadyOutcome::NoRows => (ReadyStep::Finished, retry_count),
        ReadyOutcome::Published(n) => {
            if *n > 0 {
                (ReadyStep::Finished, retry_count)
            } else {
                (ReadyStep::Repeat, retry_count)
            }
        },
        ReadyOutcome::Failed(e) => {
            if contains_str(e.as_str(), "could not serialize access due to concurrent update")
                && retry_count < MAX_QUERY_RETRIES {
                let count = retry_count + 1;
                if count == MAX_QUERY_RETRIES {
                    (ReadyStep::Finished, count)
                } else {
                    (ReadyStep::Repeat, count)
                }
            } else {
                (ReadyStep::Repeat, retry_count)
            }
        },
    }
}

/// The 128-bit value of the UUID that uuid reads from a text, if it reads
/// one.
pub uninterp spec fn uuid_from_text(text: Seq<char>) -> Option<u128>;

/// `Uuid::parse_str`, as the UUID's 128-bit value. Which texts are accepted
/// is left to the name `uuid_from_text`.
#[verifier::external_body]
fn parse_uuid(text: &str) -> (res: Option<u128>)
    ensures
        res == uuid_from_text(text@),
{
    match uuid::Uuid::parse_str(text) {
        Ok(u) => Some(u.as_u128()),
        Err(_) => None,
    }
}

/// A version 4 UUID: the version field is 4 and the variant is RFC 4122.
pub open spec fn is_random_uuid(u: u128) -> bool {
    (u >> 76u128) & 0xfu128 == 4 && (u >> 62u128) & 0x3u128 == 2
}

/// `Uuid::new_v4`, as its 128-bit value. Its random bits are unstated;
/// only its version and variant are.
#[verifier::external_body]
fn random_uuid() -> (res: u128)
    ensures
        is_random_uuid(res),
{
    uuid::Uuid::new_v4().as_u128()
}

/// The id of this node: `NODE_ID` when it holds a UUID, else a fresh random
/// one.
pub fn assign_node_id(env: &EnvVars) -> (res: u128)
    ensures
        match env.var("NODE_ID"@) {
            Some(text) => match uuid_from_text(text) {
                Some(u) => res == u,
                None => is_random_uuid(res),
            },
            None => is_random_uuid(res),
        },
{
    match env.get("NODE_ID") {
        Some(text) => match parse_uuid(text.as_str()) {
            Some(u) => u,
            None => random_uuid(),
        },
        None => random_uuid(),
    }
}

/// A parked message comes back as it arrived: when the receiver stores a
/// message (`record`), the row read back with the stored headers and key is
/// published with the message's headers plus `readied_by`, under the
/// message's key, and it is reported under the stored id.
pub proof fn law_parked_message_returns(
    message: KafkaMessage,
    headers: StringMap,
    deadline: Timestamp,
    record: DelayedRecord,
    row: ReadyRow,
    res: Result<PublishRequest, String>,
)
    requires
        insert_plan_for(message, headers, deadline, InsertPlan::Insert(record)),
        row.headers_json@ == record.headers_json@,
        row.key@ == record.key@,
        prepared_from(row, res),
    ensures
        res matches Ok(req) && req.headers@ == headers.insert(readied_by_header(), row.readied_by@)
            && req.key@ == lossy_utf8(message.key->0@) && req.headers@.contains_key(CHRONOS_ID@)
            && req.headers@[CHRONOS_ID@] == record.id@,
{
    reveal_strlit("readied_by");
    reveal_strlit("chronosMessageId");
    assert(CHRONOS_ID@ == "chronosMessageId"@);
    assert(readied_by_header().len() != CHRONOS_ID@.len());
}

} // verus!
