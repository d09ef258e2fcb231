//! What the receiver does with a consumed message: forward it at once when
//! its deadline has passed, park it in the delay table when it has not, and
//! drop it when its headers or its deadline cannot be read.
use vstd::prelude::*;

use crate::headers::{
    get_message_key, get_payload_utf8, header_values, lossy_utf8, required_count,
    required_headers, utf8_lossy, HeaderMap, KafkaMessage, CHRONOS_ID, DEADLINE,
};
use crate::json::{headers_from_json, headers_json_text, headers_to_json, is_json, json_accepts};
use crate::metrics::{ConsumedMessageDestinations, Status};
use crate::pairs::StringMap;
use crate::text::copy_str;

verus! {

/// An instant: whole seconds since the Unix epoch and the nanoseconds past
/// them (1_000_000_000 or more only within a leap second).
#[derive(Clone, Copy, Debug, PartialEq, Eq, Structural)]
pub struct Timestamp {
    pub secs: i64,
    pub nanos: u32,
}

/// `a` is not later than `b`.
pub open spec fn not_later(a: Timestamp, b: Timestamp) -> bool {
    a.secs < b.secs || (a.secs == b.secs && a.nanos <= b.nanos)
}

impl Timestamp {
    /// Whether this instant is not later than `other`.
    pub fn not_later_than(&self, other: &Timestamp) -> (res: bool)
        ensures
            res == not_later(*self, *other),
    {
        self.secs < other.secs || (self.secs == other.secs && self.nanos <= other.nanos)
    }
}

/// The instant (seconds and nanoseconds) that chrono reads from a deadline
/// text, if it reads one.
pub uninterp spec fn deadline_instant(text: Seq<char>) -> Option<(i64, u32)>;

/// `DateTime::<Local>::from_str`: a date and time with an offset, in
/// chrono's relaxed RFC 3339 form.
/// The instant does not depend on the local time zone, which only changes
/// how the instant is displayed. Which texts are accepted is left to the
/// name `deadline_instant`.
#[verifier::external_body]
fn parse_instant(text: &str) -> (res: Option<(i64, u32)>)
    ensures
        res == deadline_instant(text@),
{
    match <chrono::DateTime<chrono::Local> as std::str::FromStr>::from_str(text) {
        Ok(dt) => Some((dt.timestamp(), dt.timestamp_subsec_nanos())),
        Err(_) => None,
    }
}

/// The deadline of a header value, as an instant.
pub open spec fn parsed_deadline(text: Seq<char>) -> Option<Timestamp> {
    match deadline_instant(text) {
        Some(p) => Some(Timestamp { secs: p.0, nanos: p.1 }),
        None => None,
    }
}

/// Reads a deadline header value.
pub fn parse_deadline(text: &str) -> (res: Option<Timestamp>)
    ensures
        res == parsed_deadline(text@),
{
    match parse_instant(text) {
        Some(p) => Some(Timestamp { secs: p.0, nanos: p.1 }),
        None => None,
    }
}

/// A message to publish on the output topic.
pub struct PublishRequest {
    pub payload: String,
    pub key: String,
    pub headers: HeaderMap,
}

/// A row for the delay table.
pub struct DelayedRecord {
    pub id: String,
    pub deadline: Timestamp,
    /// The headers as a JSON object of strings.
    pub headers_json: String,
    pub key: String,
    /// The payload bytes; they are JSON.
    pub value: Vec<u8>,
}

/// What to do with a message whose deadline has passed.
pub enum PublishPlan {
    /// The message has no payload: nothing is published.
    Skip,
    /// Nothing can be published; the reason.
    Fail(String),
    Publish(PublishRequest),
}

/// What to do with a message whose deadline lies ahead.
pub enum InsertPlan {
    /// Nothing can be stored; the reason.
    Fail(String),
    /// The message has no key: nothing is stored.
    Skip,
    Insert(DelayedRecord),
}

/// Why a message was dropped.
#[derive(Clone, Copy, Debug, PartialEq, Eq, Structural)]
pub enum DropReason {
    /// The message lacks its id or deadline header.
    MissingHeaders,
    /// The deadline header is not a date and time.
    InvalidDeadline,
}

/// Where a consumed message goes.
pub enum MessageRoute {
    Dropped(DropReason),
    Publish(PublishPlan),
    Store(InsertPlan),
}

impl MessageRoute {
    /// The destination under which the message is counted.
    pub fn destination(&self) -> (res: ConsumedMessageDestinations)
        ensures
            res == match self {
                MessageRoute::Dropped(_) => ConsumedMessageDestinations::DROPPED,
                MessageRoute::Publish(_) => ConsumedMessageDestinations::KAFKA,
                MessageRoute::Store(_) => ConsumedMessageDestinations::DATABASE,
            },
    {
        match self {
            MessageRoute::Dropped(_) => ConsumedMessageDestinations::DROPPED,
            MessageRoute::Publish(_) => ConsumedMessageDestinations::KAFKA,
            MessageRoute::Store(_) => ConsumedMessageDestinations::DATABASE,
        }
    }
}

pub open spec fn key_not_found_message() -> Seq<char> {
    "message key not found"@
}

pub open spec fn payload_missing_message() -> Seq<char> {
    "message payload is not utf8 encoded"@
}

pub open spec fn payload_not_json_message() -> Seq<char> {
    "json conversion of payload failed"@
}

/// The plan for a message whose deadline has passed: nothing without a
/// payload; an error without a key; else the payload and key as text, with
/// `headers`.
pub open spec fn publish_plan_for(message: KafkaMessage, headers: StringMap, plan: PublishPlan) -> bool {
    if message.payload is None {
        plan is Skip
    } else if message.key is None {
        plan matches PublishPlan::Fail(e) && e@ == key_not_found_message()
    } else {
        plan matches PublishPlan::Publish(req) && req.payload@ == lossy_utf8(message.payload->0@)
            && req.key@ == lossy_utf8(message.key->0@) && req.headers@ == headers
    }
}

/// The plan for a message whose deadline lies ahead, `payload_is_json`
/// saying whether its payload reads as JSON: an error without a payload or
/// when the payload is not JSON; nothing without a key; else the row keyed
/// by the id header, holding the deadline, the headers as JSON, the key as
/// text and the payload.
pub open spec fn insert_plan_given(
    message: KafkaMessage,
    headers: StringMap,
    deadline: Timestamp,
    payload_is_json: bool,
    plan: InsertPlan,
) -> bool {
    if message.payload is None {
        plan matches InsertPlan::Fail(e) && e@ == payload_missing_message()
    } else if !payload_is_json {
        plan matches InsertPlan::Fail(e) && e@ == payload_not_json_message()
    } else if message.key is None {
        plan is Skip
    } else {
        plan matches InsertPlan::Insert(r) && headers.contains_key(CHRONOS_ID@) && r.id@
            == headers[CHRONOS_ID@] && r.deadline
            == deadline && r.headers_json@ == headers_json_text(headers) && headers_from_json(
            r.headers_json@,
        ) == Some(headers) && r.key@ == lossy_utf8(message.key->0@) && r.value@
            == message.payload->0@
    }
}

/// The plan for a message whose deadline lies ahead (see
/// `insert_plan_given`), whether its payload is JSON being serde_json's
/// verdict.
pub open spec fn insert_plan_for(
    message: KafkaMessage,
    headers: StringMap,
    deadline: Timestamp,
    plan: InsertPlan,
) -> bool {
    insert_plan_given(message, headers, deadline, json_accepts(message.payload->0@), plan)
}

/// What a message whose deadline has passed turns into: nothing without a
/// payload; an error without a key; else the payload and key as text and
/// the headers, to publish.
pub fn prepare_and_publish(message: &KafkaMessage, headers: HeaderMap) -> (res: PublishPlan)
    requires
        headers.wf(),
    ensures
        publish_plan_for(*message, headers@, res),
        res matches PublishPlan::Publish(req) ==> req.headers == headers,
{
    match get_payload_utf8(message) {
        Some(payload) => {
            match get_message_key(message) {
                Some(key) => {
                    let payload_text = utf8_lossy(payload.as_slice());
                    PublishPlan::Publish(
                        PublishRequest { payload: payload_text, key, headers },
                    )
                },
                None => PublishPlan::Fail(copy_str("message key not found")),
            }
        },
        None => PublishPlan::Skip,
    }
}

/// What a message whose deadline lies ahead turns into, given whether its
/// payload reads as JSON (see `insert_plan_given`).
pub fn insert_plan_with(
    message: &KafkaMessage,
    headers: &HeaderMap,
    deadline: Timestamp,
    payload_is_json: bool,
) -> (res: InsertPlan)
    requires
        headers.wf(),
        headers@.contains_key(CHRONOS_ID@),
    ensures
        insert_plan_given(*message, headers@, deadline, payload_is_json, res),
{
    match get_payload_utf8(message) {
        None => InsertPlan::Fail(copy_str("message payload is not utf8 encoded")),
        Some(payload) => {
            if !payload_is_json {
                return InsertPlan::Fail(copy_str("json conversion of payload failed"));
            }
            match get_message_key(message) {
                None => InsertPlan::Skip,
                Some(key) => {
                    let id = match headers.get(CHRONOS_ID) {
                        Some(v) => v,
                        None => String::new(),
                    };
                    InsertPlan::Insert(
                        DelayedRecord {
                            id,
                            deadline,
                            headers_json: headers_to_json(headers),
                            key,
                            value: payload.clone(),
                        },
                    )
                },
            }
        },
    }
}

/// What a message whose deadline lies ahead turns into: an error without a
/// payload or when the payload is not JSON; nothing without a key; else the
/// row to store, keyed by the id header.
pub fn insert_into_db(message: &KafkaMessage, headers: &HeaderMap, deadline: Timestamp) -> (res:
    InsertPlan)
    requires
        headers.wf(),
        headers@.contains_key(CHRONOS_ID@),
    ensures
        insert_plan_for(*message, headers@, deadline, res),
{
    match get_payload_utf8(message) {
        None => insert_plan_with(message, headers, deadline, false),
        Some(payload) => insert_plan_with(message, headers, deadline, is_json(payload.as_slice())),
    }
}

/// Whether the receiver can handle `message` without failing: when the two
/// required headers were found, both the id and the deadline header are
/// among them (two copies of one of them pass the count but leave the
/// other out).
pub open spec fn receivable(message: KafkaMessage) -> bool {
    (message.headers is Some && required_count(message.headers->0@) == 2) ==> {
        let h = header_values(message.headers->0@);
        h.contains_key(CHRONOS_ID@) && h.contains_key(DEADLINE@)
    }
}

/// Whether a message can be handled (see `receivable`).
pub fn is_receivable(message: &KafkaMessage) -> (res: bool)
    ensures
        res == receivable(*message),
{
    match required_headers(message) {
        None => true,
        Some(h) => h.contains_key(CHRONOS_ID) && h.contains_key(DEADLINE),
    }
}

/// The route of a consumed message, `now` being the time it is handled:
/// without the two required headers, or with a deadline that cannot be
/// read, it is dropped; with a deadline not later than `now` it is
/// published; with a later deadline it is stored.
pub open spec fn route_for(message: KafkaMessage, now: Timestamp, res: MessageRoute) -> bool {
    if !(message.headers is Some && required_count(message.headers->0@) == 2) {
        res == MessageRoute::Dropped(DropReason::MissingHeaders)
    } else {
        let h = header_values(message.headers->0@);
        match parsed_deadline(h[DEADLINE@]) {
            None => res == MessageRoute::Dropped(DropReason::InvalidDeadline),
            Some(d) => if not_later(d, now) {
                res matches MessageRoute::Publish(plan) && publish_plan_for(message, h, plan)
            } else {
                res matches MessageRoute::Store(plan) && insert_plan_for(message, h, d, plan)
            },
        }
    }
}

/// The route of a message with its two required headers, given its
/// deadline as read from the deadline header (`None` when it cannot be
/// read), `now` being the time it is handled: dropped without a deadline,
/// published when the deadline is not later than `now`, stored otherwise.
pub fn route_with_deadline(
    message: &KafkaMessage,
    headers: HeaderMap,
    deadline: Option<Timestamp>,
    now: Timestamp,
) -> (res: MessageRoute)
    requires
        headers.wf(),
        headers@.contains_key(CHRONOS_ID@),
    ensures
        match deadline {
            None => res == MessageRoute::Dropped(DropReason::InvalidDeadline),
            Some(d) => if not_later(d, now) {
                res matches MessageRoute::Publish(plan) && publish_plan_for(*message, headers@, plan)
            } else {
                res matches MessageRoute::Store(plan) && insert_plan_for(*message, headers@, d, plan)
            },
        },
{
    match deadline {
        None => MessageRoute::Dropped(DropReason::InvalidDeadline),
        Some(deadline) => {
            if deadline.not_later_than(&now) {
                MessageRoute::Publish(prepare_and_publish(message, headers))
            } else {
                MessageRoute::Store(insert_into_db(message, &headers, deadline))
            }
        },
    }
}

/// Routes a consumed message (see `route_for`).
pub fn handle_message(message: &KafkaMessage, now: Timestamp) -> (res: MessageRoute)
    requires
        receivable(*message),
    ensures
        route_for(*message, now, res),
{
    match required_headers(message) {
        None => MessageRoute::Dropped(DropReason::MissingHeaders),
        Some(headers) => {
            let deadline_text = match headers.get(DEADLINE) {
                Some(v) => v,
                None => String::new(),
            };
            let deadline = parse_deadline(deadline_text.as_str());
            route_with_deadline(message, headers, deadline, now)
        },
    }
}

/// Routes a consumed message when it can be handled (see `receivable`):
/// `None` when its two required headers are two copies of one of them.
pub fn handle_message_checked(message: &KafkaMessage, now: Timestamp) -> (res: Option<MessageRoute>)
    ensures
        res is None <==> !receivable(*message),
        res matches Some(r) ==> route_for(*message, now, r),
{
    if is_receivable(message) {
        Some(handle_message(message, now))
    } else {
        None
    }
}

/// The status under which a handled message is counted, `sent` being the
/// outcome of the send or the store where the route makes one: a dropped
/// message counts as a success (the producer erred, not the service); so
/// does one without a payload to publish, or without a key to store. A
/// message that could not be prepared (no key to publish, no payload or a
/// payload that is not JSON to store) counts as an error. A send or a store
/// counts as a success when it succeeded (`Some(true)`), else as an error.
pub fn consume_status(route: &MessageRoute, sent: Option<bool>) -> (s: Status)
    ensures
        s == match route {
            MessageRoute::Dropped(_) => Status::SUCCESS,
            MessageRoute::Publish(PublishPlan::Skip) => Status::SUCCESS,
            MessageRoute::Publish(PublishPlan::Fail(_)) => Status::ERROR,
            MessageRoute::Publish(PublishPlan::Publish(_)) => if sent == Some(true) {
                Status::SUCCESS
            } else {
                Status::ERROR
            },
            MessageRoute::Store(InsertPlan::Skip) => Status::SUCCESS,
            MessageRoute::Store(InsertPlan::Fail(_)) => Status::ERROR,
            MessageRoute::Store(InsertPlan::Insert(_)) => if sent == Some(true) {
                Status::SUCCESS
            } else {
                Status::ERROR
            },
        },
{
    let done = match sent {
        Some(ok) => ok,
        None => false,
    };
    match route {
        MessageRoute::Dropped(_) => Status::SUCCESS,
        MessageRoute::Publish(PublishPlan::Skip) => Status::SUCCESS,
        MessageRoute::Publish(PublishPlan::Fail(_)) => Status::ERROR,
        MessageRoute::Publish(PublishPlan::Publish(_)) => if done {
            Status::SUCCESS
        } else {
            Status::ERROR
        },
        MessageRoute::Store(InsertPlan::Skip) => Status::SUCCESS,
        MessageRoute::Store(InsertPlan::Fail(_)) => Status::ERROR,
        MessageRoute::Store(InsertPlan::Insert(_)) => if done {
            Status::SUCCESS
        } else {
            Status::ERROR
        },
    }
}

/// Instants are ordered as time runs: by their seconds first, and by their
/// nanoseconds only within one second. The order is total and transitive.
pub proof fn law_instant_order(a: Timestamp, b: Timestamp, c: Timestamp)
    ensures
        a.secs < b.secs ==> not_later(a, b) && !not_later(b, a),
        a.secs == b.secs ==> (not_later(a, b) <==> a.nanos <= b.nanos),
        not_later(a, a),
        not_later(a, b) || not_later(b, a),
        not_later(a, b) && not_later(b, a) ==> a == b,
        not_later(a, b) && not_later(b, c) ==> not_later(a, c),
{
}

/// A message whose readable deadline falls in an earlier second than the
/// time it is handled is published at once, whatever the nanoseconds; one
/// whose deadline falls in a later second is stored.
pub proof fn law_overdue_message_published(message: KafkaMessage, now: Timestamp, res: MessageRoute)
    requires
        message.headers is Some,
        required_count(message.headers->0@) == 2,
        route_for(message, now, res),
    ensures
        ({
            let h = header_values(message.headers->0@);
            match parsed_deadline(h[DEADLINE@]) {
                Some(d) => (d.secs < now.secs ==> res is Publish) && (now.secs < d.secs
                    ==> res is Store),
                None => res is Dropped,
            }
        }),
{
}

} // verus!
