//! WebSocket messages, their validation and a bounded priority queue of them.

use vstd::prelude::*;
use vstd::string::*;
use vstd::utf8::{decode_utf8, encode_utf8, valid_utf8};
use crate::runtime::{is_uuid_v4_text, new_uuid_v4_string, system_now_millis, utf8_text};
use crate::strmap::StrMap;

verus! {

/// The kind of a WebSocket frame.
#[derive(Debug, Clone, Copy, PartialEq, Eq, Hash, Structural)]
pub enum MessageType {
    Text,
    Binary,
    Ping,
    Pong,
    Close,
    Control,
}

/// How urgently a message is delivered.
#[derive(Debug, Clone, Copy, PartialEq, Eq, Structural)]
pub enum MessagePriority {
    Low,
    Normal,
    High,
    Critical,
}

/// Redelivery settings; the delay is in milliseconds.
#[derive(Debug, Clone, Copy, PartialEq, Eq, Structural)]
pub struct RetryConfig {
    pub max_retries: u32,
    pub retry_delay: u64,
    pub current_attempt: u32,
}

/// Payload compression.
#[derive(Debug, Clone, Copy, PartialEq, Eq, Structural)]
pub enum CompressionType {
    /// No compression.
    NoCompression,
    Gzip,
    Deflate,
    Brotli,
}

/// Payload encryption.
#[derive(Debug, Clone, Copy, PartialEq, Eq, Structural)]
pub enum EncryptionType {
    /// No encryption.
    NoEncryption,
    AES256,
    ChaCha20,
}

/// Delivery settings and free-form tags of a message.
pub struct MessageMetadata {
    pub priority: MessagePriority,
    pub retry_config: Option<RetryConfig>,
    pub compression: Option<CompressionType>,
    pub encryption: Option<EncryptionType>,
    pub custom: StrMap<String>,
}

impl Default for MessageMetadata {
    fn default() -> (m: Self)
        ensures
            m.priority == MessagePriority::Normal,
            m.retry_config is None,
            m.compression is None,
            m.encryption is None,
            m.custom.wf(),
            m.custom@ == Map::<Seq<char>, String>::empty(),
    {
        MessageMetadata {
            priority: MessagePriority::Normal,
            retry_config: None,
            compression: None,
            encryption: None,
            custom: StrMap::new(),
        }
    }
}

/// Why a message is refused.
#[derive(Debug, Clone, Copy, PartialEq, Eq, Structural)]
pub enum MessageValidationError {
    TooLarge,
    InvalidId,
    InvalidTimestamp,
    InvalidPayload,
}

/// Why a message cannot be queued.
#[derive(Debug, Clone, Copy, PartialEq, Eq, Structural)]
pub enum MessageQueueError {
    QueueFull,
    ValidationError(MessageValidationError),
}

/// The largest payload a message may carry: 10 MiB.
pub open spec fn max_payload() -> int {
    10485760int
}

/// A message between a client and a service. The timestamp is in milliseconds
/// since the Unix epoch.
pub struct WebSocketMessage {
    pub id: String,
    pub message_type: MessageType,
    pub payload: Vec<u8>,
    pub timestamp: u64,
    pub source: String,
    pub target: String,
    pub metadata: MessageMetadata,
}

/// Why a message is refused at time `now`, if it is: its size first, then its id,
/// then a timestamp more than a minute ahead of `now`.
pub open spec fn validation_at(m: WebSocketMessage, now: u64) -> Result<(), MessageValidationError> {
    if m.payload@.len() > max_payload() {
        Err(MessageValidationError::TooLarge)
    } else if m.id@.len() == 0 {
        Err(MessageValidationError::InvalidId)
    } else if m.timestamp > now + 60000 {
        Err(MessageValidationError::InvalidTimestamp)
    } else {
        Ok(())
    }
}

/// A message stamped `ts` is expired at `now` after `ttl` milliseconds; a stamp after
/// `now` is not expired.
pub open spec fn expired_at(ts: u64, now: u64, ttl: u64) -> bool {
    now >= ts && now - ts > ttl
}

fn copy_bytes(v: &Vec<u8>) -> (r: Vec<u8>)
    ensures
        r@ == v@,
{
    let mut r: Vec<u8> = Vec::new();
    let mut i: usize = 0;
    while i < v.len()
        invariant
            i <= v@.len(),
            r@ == v@.subrange(0, i as int),
        decreases v@.len() - i,
    {
        r.push(v[i]);
        assert(v@.subrange(0, i + 1) =~= v@.subrange(0, i as int).push(v@[i as int]));
        i = i + 1;
    }
    assert(v@.subrange(0, v@.len() as int) =~= v@);
    r
}

impl WebSocketMessage {
    fn build(message_type: MessageType, payload: Vec<u8>, source: String, target: String) -> (m: Self)
        ensures
            is_uuid_v4_text(m.id@),
            m.message_type == message_type,
            m.payload@ == payload@,
            m.source == source,
            m.target == target,
            m.metadata.priority == MessagePriority::Normal,
            m.metadata.retry_config is None,
            m.metadata.custom.wf(),
            m.metadata.custom@ == Map::<Seq<char>, String>::empty(),
    {
        WebSocketMessage {
            id: new_uuid_v4_string(),
            message_type,
            payload,
            timestamp: system_now_millis(),
            source,
            target,
            metadata: MessageMetadata::default(),
        }
    }

    /// A text message with a fresh id, stamped now.
    pub fn text(content: String, source: String, target: String) -> (m: Self)
        ensures
            is_uuid_v4_text(m.id@),
            m.message_type == MessageType::Text,
            m.payload@ == encode_utf8(content@),
            m.source == source,
            m.target == target,
            m.metadata.priority == MessagePriority::Normal,
            m.metadata.custom.wf(),
    {
        let bytes = content.as_str().as_bytes_vec();
        Self::build(MessageType::Text, bytes, source, target)
    }

    /// A binary message with a fresh id, stamped now.
    pub fn binary(data: Vec<u8>, source: String, target: String) -> (m: Self)
        ensures
            is_uuid_v4_text(m.id@),
            m.message_type == MessageType::Binary,
            m.payload@ == data@,
            m.source == source,
            m.target == target,
            m.metadata.priority == MessagePriority::Normal,
            m.metadata.custom.wf(),
    {
        Self::build(MessageType::Binary, data, source, target)
    }

    /// A ping with a fresh id, stamped now.
    pub fn ping(data: Vec<u8>, source: String, target: String) -> (m: Self)
        ensures
            is_uuid_v4_text(m.id@),
            m.message_type == MessageType::Ping,
            m.payload@ == data@,
            m.source == source,
            m.target == target,
            m.metadata.custom.wf(),
    {
        Self::build(MessageType::Ping, data, source, target)
    }

    /// A pong with a fresh id, stamped now.
    pub fn pong(data: Vec<u8>, source: String, target: String) -> (m: Self)
        ensures
            is_uuid_v4_text(m.id@),
            m.message_type == MessageType::Pong,
            m.payload@ == data@,
            m.source == source,
            m.target == target,
            m.metadata.custom.wf(),
    {
        Self::build(MessageType::Pong, data, source, target)
    }

    /// A close message carrying the reason (empty when there is none).
    pub fn close(reason: Option<String>, source: String, target: String) -> (m: Self)
        ensures
            is_uuid_v4_text(m.id@),
            m.message_type == MessageType::Close,
            m.payload@ == match reason {
                Some(r) => encode_utf8(r@),
                None => Seq::<u8>::empty(),
            },
            m.source == source,
            m.target == target,
            m.metadata.custom.wf(),
    {
        let bytes = match &reason {
            Some(r) => r.as_str().as_bytes_vec(),
            None => Vec::new(),
        };
        Self::build(MessageType::Close, bytes, source, target)
    }

    /// The payload as text, when it is valid UTF-8.
    pub fn as_text(&self) -> (r: Option<String>)
        ensures
            r is Some <==> valid_utf8(self.payload@),
            r matches Some(s) ==> s@ == decode_utf8(self.payload@),
    {
        utf8_text(copy_bytes(&self.payload))
    }

    /// The payload size in bytes.
    pub fn size(&self) -> (n: usize)
        ensures
            n == self.payload@.len(),
    {
        self.payload.len()
    }

    /// Whether more than `ttl` milliseconds separate the message's stamp from `now`.
    pub fn is_expired_at(&self, now: u64, ttl: u64) -> (b: bool)
        requires
            now >= self.timestamp,
        ensures
            b == (now - self.timestamp > ttl),
    {
        now - self.timestamp > ttl
    }

    /// Whether the message is older than `ttl` milliseconds, by the system clock; a
    /// message stamped after the clock's reading is not expired.
    pub fn is_expired(&self, ttl: u64) -> (b: bool)
        ensures
            exists|now: u64| b == #[trigger] expired_at(self.timestamp, now, ttl),
    {
        let now = system_now_millis();
        let b = now >= self.timestamp && self.is_expired_at(now, ttl);
        assert(b == expired_at(self.timestamp, now, ttl));
        b
    }

    /// Tags the message.
    pub fn with_metadata(self, key: String, value: String) -> (m: Self)
        requires
            self.metadata.custom.wf(),
        ensures
            m.metadata.custom.wf(),
            m.metadata.custom@ == self.metadata.custom@.insert(key@, value),
            m.metadata.priority == self.metadata.priority,
            m.metadata.retry_config == self.metadata.retry_config,
            m.id == self.id,
            m.message_type == self.message_type,
            m.payload == self.payload,
            m.timestamp == self.timestamp,
    {
        let mut m = self;
        m.metadata.custom.insert(key, value);
        m
    }

    /// Sets the priority.
    pub fn with_priority(self, priority: MessagePriority) -> (m: Self)
        ensures
            m.metadata.priority == priority,
            m.metadata.retry_config == self.metadata.retry_config,
            m.metadata.custom == self.metadata.custom,
            m.id == self.id,
            m.message_type == self.message_type,
            m.payload == self.payload,
            m.timestamp == self.timestamp,
    {
        let mut m = self;
        m.metadata.priority = priority;
        m
    }

    /// Sets redelivery: up to `max_retries` retries `retry_delay` milliseconds apart,
    /// starting from attempt 0.
    pub fn with_retry(self, max_retries: u32, retry_delay: u64) -> (m: Self)
        ensures
            m.metadata.retry_config == Some(RetryConfig { max_retries, retry_delay, current_attempt: 0 }),
            m.metadata.priority == self.metadata.priority,
            m.metadata.custom == self.metadata.custom,
            m.id == self.id,
            m.message_type == self.message_type,
            m.payload == self.payload,
            m.timestamp == self.timestamp,
    {
        let mut m = self;
        m.metadata.retry_config = Some(RetryConfig { max_retries, retry_delay, current_attempt: 0 });
        m
    }

    /// Checks the message at time `now` (milliseconds): size, id, then a stamp no more
    /// than a minute ahead.
    pub fn validate_at(&self, now: u64) -> (r: Result<(), MessageValidationError>)
        ensures
            r == validation_at(*self, now),
    {
        if self.payload.len() > 10 * 1024 * 1024 {
            return Err(MessageValidationError::TooLarge);
        }
        if self.id.as_str().unicode_len() == 0 {
            return Err(MessageValidationError::InvalidId);
        }
        if self.timestamp > now && self.timestamp - now > 60000 {
            return Err(MessageValidationError::InvalidTimestamp);
        }
        Ok(())
    }

    /// Checks the message against the system clock.
    pub fn validate(&self) -> (r: Result<(), MessageValidationError>)
        ensures
            exists|now: u64| r == validation_at(*self, now),
    {
        self.validate_at(system_now_millis())
    }
}

/// Counts of queued messages. Averages, being fractional, are left to the caller:
/// `total_bytes / total_messages`.
pub struct MessageStats {
    pub total_messages: u64,
    pub messages_by_type: Vec<(MessageType, u64)>,
    pub total_bytes: u64,
    pub error_count: u64,
    pub retry_count: u64,
}

/// The count recorded for a message type in a per-type list.
pub open spec fn type_count(v: Seq<(MessageType, u64)>, t: MessageType) -> int
    decreases v.len(),
{
    if v.len() == 0 {
        0
    } else if v.last().0 == t {
        v.last().1 as int
    } else {
        type_count(v.drop_last(), t)
    }
}

/// Each type appears at most once in a per-type list.
pub open spec fn types_unique(v: Seq<(MessageType, u64)>) -> bool {
    forall|i: int, j: int| 0 <= i < j < v.len() ==> v[i].0 != v[j].0
}

/// `a + 1`, wrapping at the top of `u64`.
pub open spec fn inc(a: u64) -> u64 {
    if a == u64::MAX {
        0
    } else {
        (a + 1) as u64
    }
}

/// `a + b`, wrapping at the top of `u64`.
pub open spec fn add_wrapping(a: u64, b: u64) -> u64 {
    if a + b > u64::MAX {
        (a + b - u64::MAX - 1) as u64
    } else {
        (a + b) as u64
    }
}

proof fn lemma_type_count_other(v: Seq<(MessageType, u64)>, i: int, c: u64, t: MessageType)
    requires
        0 <= i < v.len(),
        v[i].0 != t,
    ensures
        type_count(v.update(i, (v[i].0, c)), t) == type_count(v, t),
    decreases v.len(),
{
    if v.len() > 0 && i < v.len() - 1 {
        assert(v.update(i, (v[i].0, c)).drop_last() =~= v.drop_last().update(i, (v[i].0, c)));
        lemma_type_count_other(v.drop_last(), i, c, t);
    } else {
        assert(v.update(i, (v[i].0, c)).drop_last() =~= v.drop_last());
    }
}

proof fn lemma_type_count_at(v: Seq<(MessageType, u64)>, i: int, c: u64)
    requires
        types_unique(v),
        0 <= i < v.len(),
    ensures
        type_count(v, v[i].0) == v[i].1,
        type_count(v.update(i, (v[i].0, c)), v[i].0) == c,
    decreases v.len(),
{
    if i < v.len() - 1 {
        assert(v.update(i, (v[i].0, c)).drop_last() =~= v.drop_last().update(i, (v[i].0, c)));
        lemma_type_count_at(v.drop_last(), i, c);
    }
}

proof fn lemma_type_count_absent(v: Seq<(MessageType, u64)>, t: MessageType)
    requires
        forall|i: int| 0 <= i < v.len() ==> v[i].0 != t,
    ensures
        type_count(v, t) == 0,
    decreases v.len(),
{
    if v.len() > 0 {
        lemma_type_count_absent(v.drop_last(), t);
    }
}

impl MessageStats {
    /// All counts zero.
    pub fn new() -> (s: Self)
        ensures
            s.total_messages == 0,
            s.total_bytes == 0,
            s.error_count == 0,
            s.retry_count == 0,
            s.messages_by_type@ == Seq::<(MessageType, u64)>::empty(),
    {
        MessageStats {
            total_messages: 0,
            messages_by_type: Vec::new(),
            total_bytes: 0,
            error_count: 0,
            retry_count: 0,
        }
    }

    /// Counts one message: its bytes, its type.
    pub fn record_message(&mut self, message: &WebSocketMessage)
        requires
            types_unique(old(self).messages_by_type@),
        ensures
            types_unique(final(self).messages_by_type@),
            final(self).total_messages == inc(old(self).total_messages),
            final(self).total_bytes == add_wrapping(
                old(self).total_bytes,
                message.payload@.len() as u64,
            ),
            type_count(final(self).messages_by_type@, message.message_type) == inc(
                type_count(old(self).messages_by_type@, message.message_type) as u64,
            ),
            forall|t: MessageType|
                t != message.message_type ==> type_count(final(self).messages_by_type@, t)
                    == type_count(old(self).messages_by_type@, t),
            final(self).error_count == old(self).error_count,
            final(self).retry_count == old(self).retry_count,
    {
        self.total_messages = self.total_messages.wrapping_add(1);
        let n = message.payload.len() as u64;
        self.total_bytes = self.total_bytes.wrapping_add(n);
        let t = message.message_type;
        let ghost before = self.messages_by_type@;
        let ghost tm = self.total_messages;
        let ghost tb = self.total_bytes;
        let mut i: usize = 0;
        while i < self.messages_by_type.len()
            invariant
                self.messages_by_type@ == before,
                types_unique(before),
                self.total_messages == tm,
                self.total_bytes == tb,
                tm == inc(old(self).total_messages),
                tb == add_wrapping(old(self).total_bytes, message.payload@.len() as u64),
                t == message.message_type,
                before == old(self).messages_by_type@,
                self.error_count == old(self).error_count,
                self.retry_count == old(self).retry_count,
                i <= before.len(),
                forall|j: int| 0 <= j < i ==> before[j].0 != t,
            decreases before.len() - i,
        {
            if self.messages_by_type[i].0 == t {
                let c = self.messages_by_type[i].1.wrapping_add(1);
                self.messages_by_type.set(i, (t, c));
                proof {
                    lemma_type_count_at(before, i as int, c);
                    assert forall|u: MessageType| u != t implies type_count(
                        self.messages_by_type@,
                        u,
                    ) == type_count(before, u) by {
                        lemma_type_count_other(before, i as int, c, u);
                    }
                    assert(types_unique(self.messages_by_type@));
                }
                return;
            }
            i = i + 1;
        }
        self.messages_by_type.push((t, 1));
        proof {
            lemma_type_count_absent(before, t);
            assert(self.messages_by_type@.drop_last() =~= before);
        }
    }

    /// Counts a failed delivery.
    pub fn record_error(&mut self)
        ensures
            final(self).error_count == inc(old(self).error_count),
            final(self).total_messages == old(self).total_messages,
            final(self).retry_count == old(self).retry_count,
            final(self).messages_by_type == old(self).messages_by_type,
    {
        self.error_count = self.error_count.wrapping_add(1);
    }

    /// Counts a redelivery.
    pub fn record_retry(&mut self)
        ensures
            final(self).retry_count == inc(old(self).retry_count),
            final(self).total_messages == old(self).total_messages,
            final(self).error_count == old(self).error_count,
            final(self).messages_by_type == old(self).messages_by_type,
    {
        self.retry_count = self.retry_count.wrapping_add(1);
    }
}

impl Default for MessageStats {
    fn default() -> (s: Self)
        ensures
            s.total_messages == 0,
            s.messages_by_type@ == Seq::<(MessageType, u64)>::empty(),
    {
        Self::new()
    }
}

/// Whether a priority is below high: low or normal.
pub open spec fn below_high(p: MessagePriority) -> bool {
    p == MessagePriority::Low || p == MessagePriority::Normal
}

/// Where a high-priority message goes: after the queued critical and high-priority
/// messages, before the first one below high, or last when there is none.
pub open spec fn high_insert_position(q: Seq<WebSocketMessage>) -> int {
    if exists|i: int| 0 <= i < q.len() && below_high(q[i].metadata.priority) {
        choose|i: int|
            0 <= i < q.len() && below_high(q[i].metadata.priority) && forall|j: int|
                0 <= j < i ==> !below_high(q[j].metadata.priority)
    } else {
        q.len() as int
    }
}

/// Where a message of a given priority goes in the queue.
pub open spec fn insert_position(q: Seq<WebSocketMessage>, p: MessagePriority) -> int {
    match p {
        MessagePriority::Critical => 0,
        MessagePriority::High => high_insert_position(q),
        _ => q.len() as int,
    }
}

/// What pushing `message` at time `now` does to a queue: a full queue refuses it; an
/// invalid message is refused with its validation error; either way nothing changes.
/// Otherwise it is counted and placed by priority.
pub open spec fn push_outcome(
    before: MessageQueue,
    after: MessageQueue,
    message: WebSocketMessage,
    now: u64,
    r: Result<(), MessageQueueError>,
) -> bool {
    if before.queued().len() >= before.capacity() {
        &&& r == Err::<(), MessageQueueError>(MessageQueueError::QueueFull)
        &&& after.queued() == before.queued()
        &&& after.statistics() == before.statistics()
    } else {
        match validation_at(message, now) {
            Err(e) => {
                &&& r == Err::<(), MessageQueueError>(MessageQueueError::ValidationError(e))
                &&& after.queued() == before.queued()
                &&& after.statistics() == before.statistics()
            },
            Ok(()) => {
                &&& r is Ok
                &&& after.queued() == before.queued().insert(
                    insert_position(before.queued(), message.metadata.priority),
                    message,
                )
                &&& after.statistics().total_messages == inc(before.statistics().total_messages)
            },
        }
    }
}

/// A bounded queue of messages ordered by priority.
pub struct MessageQueue {
    messages: Vec<WebSocketMessage>,
    max_size: usize,
    stats: MessageStats,
}

impl MessageQueue {
    /// The queued messages, front first.
    pub closed spec fn queued(&self) -> Seq<WebSocketMessage> {
        self.messages@
    }

    /// The capacity.
    pub closed spec fn capacity(&self) -> usize {
        self.max_size
    }

    /// The statistics kept.
    pub closed spec fn statistics(&self) -> MessageStats {
        self.stats
    }

    /// The queue holds no more than its capacity and its statistics are consistent.
    pub closed spec fn wf(&self) -> bool {
        &&& self.messages@.len() <= self.max_size
        &&& types_unique(self.stats.messages_by_type@)
    }

    /// An empty queue holding up to `max_size` messages.
    pub fn new(max_size: usize) -> (q: Self)
        ensures
            q.wf(),
            q.queued() == Seq::<WebSocketMessage>::empty(),
            q.capacity() == max_size,
            q.statistics().total_messages == 0,
    {
        MessageQueue { messages: Vec::new(), max_size, stats: MessageStats::new() }
    }

    fn high_position(&self) -> (i: usize)
        ensures
            i == high_insert_position(self.messages@),
            i <= self.messages@.len(),
    {
        let mut i: usize = 0;
        while i < self.messages.len()
            invariant
                i <= self.messages@.len(),
                forall|j: int| 0 <= j < i ==> !below_high(self.messages@[j].metadata.priority),
            decreases self.messages@.len() - i,
        {
            let p = self.messages[i].metadata.priority;
            if p == MessagePriority::Low || p == MessagePriority::Normal {
                proof {
                    let q = self.messages@;
                    let w = choose|k: int|
                        0 <= k < q.len() && below_high(q[k].metadata.priority) && forall|j: int|
                            0 <= j < k ==> !below_high(q[j].metadata.priority);
                    assert(0 <= i < q.len() && below_high(q[i as int].metadata.priority) && forall|j: int|
                        0 <= j < i ==> !below_high(q[j].metadata.priority));
                    if w < i {
                        assert(!below_high(q[w].metadata.priority));
                    }
                    if w > i {
                        assert(!below_high(q[i as int].metadata.priority));
                    }
                }
                return i;
            }
            i = i + 1;
        }
        i
    }

    /// Queues a message checked at time `now` (milliseconds): refused when the queue is
    /// full or the message invalid; otherwise counted and placed by priority (critical
    /// first, high after the queued critical and high ones and before the rest, others
    /// last).
    pub fn push_at(&mut self, message: WebSocketMessage, now: u64) -> (r: Result<(), MessageQueueError>)
        requires
            old(self).wf(),
        ensures
            final(self).wf(),
            final(self).capacity() == old(self).capacity(),
            push_outcome(*old(self), *final(self), message, now, r),
    {
        if self.messages.len() >= self.max_size {
            return Err(MessageQueueError::QueueFull);
        }
        match message.validate_at(now) {
            Err(e) => {
                return Err(MessageQueueError::ValidationError(e));
            },
            Ok(()) => {},
        }
        self.stats.record_message(&message);
        let pos = match message.metadata.priority {
            MessagePriority::Critical => 0,
            MessagePriority::High => self.high_position(),
            _ => self.messages.len(),
        };
        self.messages.insert(pos, message);
        Ok(())
    }

    /// Queues a message checked against the system clock.
    pub fn push(&mut self, message: WebSocketMessage) -> (r: Result<(), MessageQueueError>)
        requires
            old(self).wf(),
        ensures
            final(self).wf(),
            final(self).capacity() == old(self).capacity(),
            exists|now: u64| push_outcome(*old(self), *final(self), message, now, r),
            old(self).queued().len() >= old(self).capacity() <==> r == Err::<(), MessageQueueError>(
                MessageQueueError::QueueFull,
            ),
            old(self).queued().len() < old(self).capacity() && message.payload@.len() > max_payload()
                <==> r == Err::<(), MessageQueueError>(
                MessageQueueError::ValidationError(MessageValidationError::TooLarge),
            ),
            old(self).queued().len() < old(self).capacity() && message.payload@.len() <= max_payload()
                && message.id@.len() == 0 <==> r == Err::<(), MessageQueueError>(
                MessageQueueError::ValidationError(MessageValidationError::InvalidId),
            ),
            r == Err::<(), MessageQueueError>(
                MessageQueueError::ValidationError(MessageValidationError::InvalidTimestamp),
            ) ==> message.timestamp > 60000,
            old(self).queued().len() < old(self).capacity() && message.payload@.len() <= max_payload()
                && message.id@.len() > 0 && message.timestamp <= 60000 ==> r is Ok,
            r is Ok ==> final(self).queued() == old(self).queued().insert(
                insert_position(old(self).queued(), message.metadata.priority),
                message,
            ) && final(self).statistics().total_messages == inc(old(self).statistics().total_messages),
            r is Err ==> final(self).queued() == old(self).queued() && final(self).statistics() == old(
                self,
            ).statistics(),
    {
        let now = system_now_millis();
        self.push_at(message, now)
    }

    /// Takes the front message.
    pub fn pop(&mut self) -> (r: Option<WebSocketMessage>)
        requires
            old(self).wf(),
        ensures
            final(self).wf(),
            final(self).capacity() == old(self).capacity(),
            old(self).queued().len() == 0 ==> r is None && final(self).queued() == old(self).queued(),
            old(self).queued().len() > 0 ==> r == Some(old(self).queued()[0]) && final(self).queued()
                == old(self).queued().drop_first(),
    {
        if self.messages.len() == 0 {
            None
        } else {
            let m = self.messages.remove(0);
            assert(self.messages@ =~= old(self).messages@.drop_first());
            Some(m)
        }
    }

    /// The number of queued messages.
    pub fn len(&self) -> (n: usize)
        ensures
            n == self.queued().len(),
    {
        self.messages.len()
    }

    /// Whether nothing is queued.
    pub fn is_empty(&self) -> (b: bool)
        ensures
            b == (self.queued().len() == 0),
    {
        self.messages.len() == 0
    }

    /// Drops every queued message; the statistics stay.
    pub fn clear(&mut self)
        requires
            old(self).wf(),
        ensures
            final(self).wf(),
            final(self).queued() == Seq::<WebSocketMessage>::empty(),
            final(self).capacity() == old(self).capacity(),
            final(self).statistics() == old(self).statistics(),
    {
        self.messages.clear();
    }

    /// The statistics.
    pub fn stats(&self) -> (s: &MessageStats)
        ensures
            *s == self.statistics(),
    {
        &self.stats
    }
}

proof fn lemma_first_below_high(q: Seq<WebSocketMessage>, k: int) -> (w: int)
    requires
        0 <= k < q.len(),
        below_high(q[k].metadata.priority),
    ensures
        0 <= w <= k,
        below_high(q[w].metadata.priority),
        forall|j: int| 0 <= j < w ==> !below_high(q[j].metadata.priority),
    decreases k,
{
    if exists|j: int| 0 <= j < k && below_high(q[j].metadata.priority) {
        let j = choose|j: int| 0 <= j < k && below_high(q[j].metadata.priority);
        lemma_first_below_high(q, j)
    } else {
        k
    }
}

/// The urgency of a priority: critical above high above the rest.
pub open spec fn rank(p: MessagePriority) -> int {
    match p {
        MessagePriority::Critical => 2,
        MessagePriority::High => 1,
        _ => 0,
    }
}

/// A queue ordered by urgency: no message stands before a more urgent one.
pub open spec fn ranked(q: Seq<WebSocketMessage>) -> bool {
    forall|i: int, j: int|
        #![trigger q[i], q[j]]
        0 <= i < j < q.len() ==> rank(q[i].metadata.priority) >= rank(q[j].metadata.priority)
}

/// Where a high-priority message goes: every message before it is critical or high,
/// and the one at its place, if any, is below high.
pub proof fn lemma_high_position(q: Seq<WebSocketMessage>)
    ensures
        0 <= high_insert_position(q) <= q.len(),
        forall|j: int| 0 <= j < high_insert_position(q) ==> !below_high(#[trigger] q[j].metadata.priority),
        high_insert_position(q) < q.len() ==> below_high(q[high_insert_position(q)].metadata.priority),
{
    if exists|i: int| 0 <= i < q.len() && below_high(q[i].metadata.priority) {
        let k = choose|i: int| 0 <= i < q.len() && below_high(q[i].metadata.priority);
        let f = lemma_first_below_high(q, k);
        assert(0 <= f < q.len() && below_high(q[f].metadata.priority) && forall|j: int|
            0 <= j < f ==> !below_high(q[j].metadata.priority));
    }
}

proof fn lemma_insert_ranked(q: Seq<WebSocketMessage>, m: WebSocketMessage, pos: int)
    requires
        ranked(q),
        0 <= pos <= q.len(),
        forall|j: int| 0 <= j < pos ==> rank(#[trigger] q[j].metadata.priority) >= rank(m.metadata.priority),
        forall|j: int| pos <= j < q.len() ==> rank(#[trigger] q[j].metadata.priority) <= rank(m.metadata.priority),
    ensures
        ranked(q.insert(pos, m)),
{
    let r = q.insert(pos, m);
    assert forall|i: int, j: int| 0 <= i < j < r.len() implies rank(r[i].metadata.priority) >= rank(
        r[j].metadata.priority,
    ) by {
        if j < pos {
            assert(r[i] == q[i] && r[j] == q[j]);
        } else if j == pos {
            assert(r[i] == q[i]);
        } else if i < pos {
            assert(r[i] == q[i] && r[j] == q[j - 1]);
        } else if i == pos {
            assert(r[j] == q[j - 1]);
        } else {
            assert(r[i] == q[i - 1] && r[j] == q[j - 1]);
        }
    }
}

/// Placing a message by its priority keeps a queue ordered by urgency: critical
/// messages first, then high ones in the order they came, then the rest.
pub proof fn law_priority_placement_keeps_order(q: Seq<WebSocketMessage>, m: WebSocketMessage)
    requires
        ranked(q),
    ensures
        ranked(q.insert(insert_position(q, m.metadata.priority), m)),
{
    match m.metadata.priority {
        MessagePriority::Critical => lemma_insert_ranked(q, m, 0),
        MessagePriority::High => {
            let pos = high_insert_position(q);
            lemma_high_position(q);
            assert forall|j: int| pos <= j < q.len() implies rank(#[trigger] q[j].metadata.priority)
                <= rank(m.metadata.priority) by {
                if j > pos {
                    assert(rank(q[pos].metadata.priority) >= rank(q[j].metadata.priority));
                }
            }
            lemma_insert_ranked(q, m, pos);
        },
        _ => lemma_insert_ranked(q, m, q.len() as int),
    }
}

/// A high-priority message is placed after every queued critical or high-priority
/// message and before every other one, so high-priority messages leave in the order
/// they came.
pub proof fn law_high_after_queued_high(q: Seq<WebSocketMessage>, m: WebSocketMessage)
    requires
        ranked(q),
        m.metadata.priority == MessagePriority::High,
    ensures
        ({
            let pos = insert_position(q, m.metadata.priority);
            let r = q.insert(pos, m);
            &&& r[pos] == m
            &&& forall|j: int| 0 <= j < pos ==> rank(#[trigger] r[j].metadata.priority) >= 1
            &&& forall|j: int| pos < j < r.len() ==> rank(#[trigger] r[j].metadata.priority) == 0
        }),
{
    let pos = insert_position(q, m.metadata.priority);
    let r = q.insert(pos, m);
    lemma_high_position(q);
    assert forall|j: int| 0 <= j < pos implies rank(#[trigger] r[j].metadata.priority) >= 1 by {
        assert(r[j] == q[j]);
        assert(!below_high(q[j].metadata.priority));
    }
    assert forall|j: int| pos < j < r.len() implies rank(#[trigger] r[j].metadata.priority) == 0 by {
        assert(r[j] == q[j - 1]);
        assert(below_high(q[pos].metadata.priority));
        if j - 1 > pos {
            assert(rank(q[pos].metadata.priority) >= rank(q[j - 1].metadata.priority));
        }
    }
}

/// A critical message pushed onto a queue comes out first.
pub proof fn law_critical_pops_first(q: Seq<WebSocketMessage>, m: WebSocketMessage)
    requires
        m.metadata.priority == MessagePriority::Critical,
    ensures
        q.insert(insert_position(q, m.metadata.priority), m)[0] == m,
{
}

/// A message of any priority pushed onto an empty queue is the whole queue, so the
/// next pop gives it back.
pub proof fn law_push_onto_empty_pops_back(m: WebSocketMessage)
    ensures
        Seq::<WebSocketMessage>::empty().insert(
            insert_position(Seq::<WebSocketMessage>::empty(), m.metadata.priority),
            m,
        ) == seq![m],
{
    let e = Seq::<WebSocketMessage>::empty();
    assert(insert_position(e, m.metadata.priority) == 0);
    assert(e.insert(0, m) =~= seq![m]);
}

} // verus!
