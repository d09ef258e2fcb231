//! Messages as the receiver sees them, and their headers: the check for the
//! two headers that every delayed message must carry, their extraction into
//! a map, and the conversion of a map back into Kafka headers.
use vstd::prelude::*;
use vstd::utf8::*;

use rdkafka::message::OwnedHeaders;

use crate::pairs::{
    distinct_names, lemma_distinct_push, lemma_pairs_map_domain, lemma_pairs_map_entry,
    lemma_pairs_map_update, pairs_map, StringMap,
};
use crate::text::copy_str;

verus! {

/// The header that carries a message's id.
pub const CHRONOS_ID: &'static str = "chronosMessageId";

/// The header that carries a message's deadline.
pub const DEADLINE: &'static str = "chronosDeadline";

/// One header of a received message.
pub struct MessageHeader {
    pub key: String,
    pub value: Option<Vec<u8>>,
}

/// A message taken from the input topic.
pub struct KafkaMessage {
    pub key: Option<Vec<u8>>,
    pub payload: Option<Vec<u8>>,
    pub headers: Option<Vec<MessageHeader>>,
    pub offset: i64,
    pub partition: i32,
    /// The broker's timestamp in milliseconds, when it has one.
    pub timestamp_millis: Option<i64>,
}

/// The text that `String::from_utf8_lossy` makes of some bytes.
pub uninterp spec fn lossy_utf8(bytes: Seq<u8>) -> Seq<char>;

/// `String::from_utf8_lossy`: invalid sequences become U+FFFD; valid
/// UTF-8 is decoded as it stands. How invalid bytes are replaced is left to
/// the name `lossy_utf8`.
#[verifier::external_body]
pub(crate) fn utf8_lossy(bytes: &[u8]) -> (res: String)
    ensures
        res@ == lossy_utf8(bytes@),
        valid_utf8(bytes@) ==> res@ == decode_utf8(bytes@),
{
    String::from_utf8_lossy(bytes).into_owned()
}

/// Headers as a map from name to text, each name once.
pub struct HeaderMap {
    pub(crate) entries: Vec<(String, String)>,
}

impl View for HeaderMap {
    type V = StringMap;

    closed spec fn view(&self) -> StringMap {
        pairs_map(self.entries@)
    }
}

impl HeaderMap {
    /// The pairs, in insertion order.
    pub closed spec fn pairs(&self) -> Seq<(String, String)> {
        self.entries@
    }

    /// Each name is held once.
    pub closed spec fn wf(&self) -> bool {
        distinct_names(self.entries@)
    }

    /// The map's pairs hold its names once each, with their values.
    pub proof fn lemma_pairs(&self)
        requires
            self.wf(),
        ensures
            distinct_names(self.pairs()),
            pairs_map(self.pairs()) == self@,
            forall|i: int|
                0 <= i < self.pairs().len() ==> self@.contains_key(#[trigger] self.pairs()[i].0@)
                    && self@[self.pairs()[i].0@] == self.pairs()[i].1@,
            forall|k: Seq<char>|
                self@.contains_key(k) ==> exists|i: int|
                    0 <= i < self.pairs().len() && #[trigger] self.pairs()[i].0@ == k,
    {
        assert forall|i: int|
            0 <= i < self.pairs().len() implies self@.contains_key(#[trigger] self.pairs()[i].0@)
            && self@[self.pairs()[i].0@] == self.pairs()[i].1@ by {
            lemma_pairs_map_entry(self.entries@, i);
        }
        assert forall|k: Seq<char>| self@.contains_key(k) implies exists|i: int|
            0 <= i < self.pairs().len() && #[trigger] self.pairs()[i].0@ == k by {
            lemma_pairs_map_domain(self.entries@, k);
            let i = choose|i: int| 0 <= i < self.entries@.len() && #[trigger] self.entries@[i].0@ == k;
            assert(self.pairs()[i].0@ == k);
        }
    }

    /// An empty map.
    pub fn new() -> (res: HeaderMap)
        ensures
            res.wf(),
            res@ == StringMap::empty(),
            res.pairs().len() == 0,
    {
        HeaderMap { entries: Vec::new() }
    }

    fn find(&self, key: &String) -> (res: Option<usize>)
        ensures
            match res {
                Some(i) => i < self.entries@.len() && self.entries@[i as int].0@ == key@,
                None => forall|i: int|
                    0 <= i < self.entries@.len() ==> #[trigger] self.entries@[i].0@ != key@,
            },
    {
        let n = self.entries.len();
        let mut i: usize = 0;
        while i < n
            invariant
                n == self.entries@.len(),
                i <= n,
                forall|j: int| 0 <= j < i ==> #[trigger] self.entries@[j].0@ != key@,
            decreases n - i,
        {
            if self.entries[i].0 == *key {
                return Some(i);
            }
            i = i + 1;
        }
        None
    }

    /// Sets `key` to `value`, replacing an earlier value of `key`.
    pub fn insert(&mut self, key: String, value: String)
        requires
            old(self).wf(),
        ensures
            final(self).wf(),
            final(self)@ == old(self)@.insert(key@, value@),
    {
        match self.find(&key) {
            Some(i) => {
                proof {
                    lemma_pairs_map_update(self.entries@, i as int, (key, value));
                }
                self.entries.set(i, (key, value));
            },
            None => {
                proof {
                    lemma_distinct_push(self.entries@, (key, value));
                    assert(self.entries@.push((key, value)).drop_last() =~= self.entries@);
                }
                self.entries.push((key, value));
            },
        }
    }

    /// The value of `key`.
    pub fn get(&self, key: &str) -> (res: Option<String>)
        requires
            self.wf(),
        ensures
            match res {
                Some(v) => self@.contains_key(key@) && self@[key@] == v@,
                None => !self@.contains_key(key@),
            },
    {
        let k = copy_str(key);
        match self.find(&k) {
            Some(i) => {
                proof {
                    lemma_pairs_map_entry(self.entries@, i as int);
                }
                Some(self.entries[i].1.clone())
            },
            None => {
                proof {
                    lemma_pairs_map_domain(self.entries@, key@);
                }
                None
            },
        }
    }

    /// Whether `key` has a value.
    pub fn contains_key(&self, key: &str) -> (res: bool)
        requires
            self.wf(),
        ensures
            res == self@.contains_key(key@),
    {
        self.get(key).is_some()
    }

    /// The map of a list of pairs, a later pair replacing an earlier one of
    /// the same name.
    pub fn from_pairs(pairs: Vec<(String, String)>) -> (res: HeaderMap)
        ensures
            res.wf(),
            res@ == pairs_map(pairs@),
    {
        let mut map = HeaderMap::new();
        let n = pairs.len();
        let mut i: usize = 0;
        while i < n
            invariant
                n == pairs@.len(),
                i <= n,
                map.wf(),
                map@ == pairs_map(pairs@.take(i as int)),
            decreases n - i,
        {
            assert(pairs@.take(i + 1).drop_last() =~= pairs@.take(i as int));
            map.insert(pairs[i].0.clone(), pairs[i].1.clone());
            i = i + 1;
        }
        assert(pairs@.take(n as int) =~= pairs@);
        map
    }

    /// The pairs, each name once.
    pub fn entries(&self) -> (res: &Vec<(String, String)>)
        ensures
            res@ == self.pairs(),
    {
        &self.entries
    }
}

/// Whether a header is one of the two that a delayed message needs, with a
/// value.
pub open spec fn is_required_header(h: MessageHeader) -> bool {
    (h.key@ == CHRONOS_ID@ || h.key@ == DEADLINE@) && h.value is Some
}

/// How many headers are required ones with a value (repeats counted).
pub open spec fn required_count(headers: Seq<MessageHeader>) -> nat
    decreases headers.len(),
{
    if headers.len() == 0 {
        0
    } else {
        required_count(headers.drop_last()) + if is_required_header(headers.last()) {
            1nat
        } else {
            0nat
        }
    }
}

/// The headers that have a value, as text, a later header replacing an
/// earlier one of the same name.
pub open spec fn header_values(headers: Seq<MessageHeader>) -> StringMap
    decreases headers.len(),
{
    if headers.len() == 0 {
        StringMap::empty()
    } else {
        match headers.last().value {
            Some(v) => header_values(headers.drop_last()).insert(
                headers.last().key@,
                lossy_utf8(v@),
            ),
            None => header_values(headers.drop_last()),
        }
    }
}

proof fn lemma_required_count_bound(headers: Seq<MessageHeader>)
    ensures
        required_count(headers) <= headers.len(),
    decreases headers.len(),
{
    if headers.len() > 0 {
        lemma_required_count_bound(headers.drop_last());
    }
}

/// Whether exactly two headers are required ones with a value.
pub fn headers_check(headers: &Vec<MessageHeader>) -> (res: bool)
    ensures
        res == (required_count(headers@) == 2),
{
    let id = copy_str(CHRONOS_ID);
    let deadline = copy_str(DEADLINE);
    let n = headers.len();
    let mut count: usize = 0;
    let mut i: usize = 0;
    while i < n
        invariant
            n == headers@.len(),
            i <= n,
            id@ == CHRONOS_ID@,
            deadline@ == DEADLINE@,
            count == required_count(headers@.take(i as int)),
        decreases n - i,
    {
        proof {
            lemma_required_count_bound(headers@.take(i as int));
        }
        assert(headers@.take(i + 1).drop_last() =~= headers@.take(i as int));
        let h = &headers[i];
        if (h.key == id || h.key == deadline) && h.value.is_some() {
            count = count + 1;
        }
        i = i + 1;
    }
    assert(headers@.take(n as int) =~= headers@);
    count == 2
}

/// The message's headers as a map, when it has exactly two required
/// headers with values; `None` otherwise.
pub fn required_headers(message: &KafkaMessage) -> (res: Option<HeaderMap>)
    ensures
        res is Some <==> (message.headers is Some && required_count(message.headers->0@) == 2),
        res matches Some(h) ==> h.wf() && h@ == header_values(message.headers->0@),
{
    match &message.headers {
        None => None,
        Some(headers) => {
            if !headers_check(headers) {
                return None;
            }
            let mut map = HeaderMap::new();
            let n = headers.len();
            let mut i: usize = 0;
            while i < n
                invariant
                    n == headers@.len(),
                    i <= n,
                    map.wf(),
                    map@ == header_values(headers@.take(i as int)),
                decreases n - i,
            {
                assert(headers@.take(i + 1).drop_last() =~= headers@.take(i as int));
                let h = &headers[i];
                match &h.value {
                    Some(v) => {
                        let text = utf8_lossy(v.as_slice());
                        map.insert(h.key.clone(), text);
                    },
                    None => {},
                }
                i = i + 1;
            }
            assert(headers@.take(n as int) =~= headers@);
            Some(map)
        },
    }
}

/// The payload bytes, if the message has a payload.
pub fn get_payload_utf8(message: &KafkaMessage) -> (res: Option<&Vec<u8>>)
    ensures
        match message.payload {
            Some(p) => res == Some(&p),
            None => res is None,
        },
{
    match &message.payload {
        Some(p) => Some(p),
        None => None,
    }
}

/// The message key as text, if the message has a key.
pub fn get_message_key(message: &KafkaMessage) -> (res: Option<String>)
    ensures
        match message.key {
            Some(k) => res matches Some(s) && s@ == lossy_utf8(k@),
            None => res is None,
        },
{
    match &message.key {
        Some(k) => Some(utf8_lossy(k.as_slice())),
        None => None,
    }
}

/// rdkafka's `OwnedHeaders`, opaque here; its headers are named by
/// `owned_headers_entries`.
#[verifier::external_type_specification]
#[verifier::external_body]
pub struct ExOwnedHeaders(rdkafka::message::OwnedHeaders);

/// The headers that an `OwnedHeaders` holds, in order: names and value
/// bytes.
pub uninterp spec fn owned_headers_entries(headers: OwnedHeaders) -> Seq<(Seq<char>, Option<Seq<u8>>)>;

/// `OwnedHeaders::new`: no header.
#[verifier::external_body]
fn new_owned_headers() -> (res: OwnedHeaders)
    ensures
        owned_headers_entries(res).len() == 0,
{
    OwnedHeaders::new()
}

/// `OwnedHeaders::insert` with a text value: appends the header, its value
/// as UTF-8 bytes. The name goes through a C string, so it may not hold NUL.
#[verifier::external_body]
fn owned_headers_insert(headers: OwnedHeaders, key: &str, value: &str) -> (res: OwnedHeaders)
    requires
        !key@.contains('\0'),
    ensures
        owned_headers_entries(res) == owned_headers_entries(headers).push(
            (key@, Some(encode_utf8(value@))),
        ),
{
    headers.insert(rdkafka::message::Header { key, value: Some(value) })
}

/// No name holds a NUL character.
pub open spec fn names_without_nul(headers: StringMap) -> bool {
    forall|k: Seq<char>| headers.contains_key(k) ==> !k.contains('\0')
}

/// The Kafka headers of a map: each name once, with its value as UTF-8.
pub fn into_headers(headers: &HeaderMap) -> (res: OwnedHeaders)
    requires
        headers.wf(),
        names_without_nul(headers@),
    ensures
        owned_headers_entries(res).len() == headers.pairs().len(),
        forall|i: int|
            0 <= i < headers.pairs().len() ==> #[trigger] owned_headers_entries(res)[i] == (
                headers.pairs()[i].0@,
                Some(encode_utf8(headers.pairs()[i].1@)),
            ),
        forall|i: int|
            0 <= i < owned_headers_entries(res).len() ==> {
                let (k, v) = #[trigger] owned_headers_entries(res)[i];
                &&& headers@.contains_key(k)
                &&& v == Some(encode_utf8(headers@[k]))
            },
        forall|k: Seq<char>|
            headers@.contains_key(k) ==> exists|i: int|
                0 <= i < owned_headers_entries(res).len() && #[trigger] owned_headers_entries(
                    res,
                )[i].0 == k,
        forall|i: int, j: int|
            0 <= i < owned_headers_entries(res).len() && 0 <= j < owned_headers_entries(res).len()
                && i != j ==> #[trigger] owned_headers_entries(res)[i].0
                != #[trigger] owned_headers_entries(res)[j].0,
{
    proof {
        headers.lemma_pairs();
    }
    let pairs = headers.entries();
    let mut out = new_owned_headers();
    let n = pairs.len();
    let mut i: usize = 0;
    while i < n
        invariant
            n == pairs@.len(),
            pairs@ == headers.pairs(),
            headers.wf(),
            distinct_names(pairs@),
            names_without_nul(headers@),
            forall|j: int|
                0 <= j < pairs@.len() ==> headers@.contains_key(#[trigger] pairs@[j].0@)
                    && headers@[pairs@[j].0@] == pairs@[j].1@,
            i <= n,
            owned_headers_entries(out).len() == i,
            forall|j: int|
                0 <= j < i ==> #[trigger] owned_headers_entries(out)[j] == (
                    pairs@[j].0@,
                    Some(encode_utf8(pairs@[j].1@)),
                ),
        decreases n - i,
    {
        assert(headers@.contains_key(pairs@[i as int].0@));
        out = owned_headers_insert(out, pairs[i].0.as_str(), pairs[i].1.as_str());
        i = i + 1;
    }
    proof {
        headers.lemma_pairs();
        let e = owned_headers_entries(out);
        assert forall|i: int, j: int|
            0 <= i < e.len() && 0 <= j < e.len() && i != j implies #[trigger] e[i].0
            != #[trigger] e[j].0 by {
            assert(e[i] == (pairs@[i].0@, Some(encode_utf8(pairs@[i].1@))));
            assert(e[j] == (pairs@[j].0@, Some(encode_utf8(pairs@[j].1@))));
        }
        assert forall|k: Seq<char>| headers@.contains_key(k) implies exists|i: int|
            0 <= i < e.len() && #[trigger] e[i].0 == k by {
            let i = choose|i: int| 0 <= i < headers.pairs().len() && #[trigger] headers.pairs()[i].0@ == k;
            assert(pairs@[i].0@ == k);
            assert(0 <= i < e.len());
            assert(e[i] == (pairs@[i].0@, Some(encode_utf8(pairs@[i].1@))));
            assert(e[i].0 == k);
        }
        assert forall|i: int| 0 <= i < e.len() implies {
            let (k, v) = #[trigger] e[i];
            &&& headers@.contains_key(k)
            &&& v == Some(encode_utf8(headers@[k]))
        } by {
            assert(e[i] == (pairs@[i].0@, Some(encode_utf8(pairs@[i].1@))));
        }
    }
    out
}

} // verus!
