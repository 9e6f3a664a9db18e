//! The WebSocket client of an exchange stream, as the decisions it makes: whether
//! it may connect, what each received frame, send outcome and heartbeat tick
//! leads to, and the requests it sends. The sockets and tasks live in the
//! application, which feeds the outcomes back here.

use vstd::prelude::*;
use vstd::utf8::{decode_utf8, valid_utf8};
use crate::market::connectors::{ConnectionStats, ConnectorError};
use crate::runtime::{CLOCK_LIMIT_MS, check_url, json_quote, json_string_literal, url_parse_error, utc_now_millis, utf8_text};
use crate::text::{concat2, decimal_seq, int_decimal_seq, i64_to_decimal, owned, u64_to_decimal};

verus! {

/// Timing of a client connection, all in seconds.
#[derive(Debug, Clone, Copy, PartialEq, Eq, Structural)]
pub struct WebSocketConfig {
    pub connect_timeout: u64,
    pub read_timeout: u64,
    pub write_timeout: u64,
    pub ping_interval: u64,
    pub pong_timeout: u64,
    pub reconnect_interval: u64,
    pub max_reconnect_attempts: u32,
    pub message_buffer_size: usize,
}

impl Default for WebSocketConfig {
    fn default() -> (r: Self)
        ensures
            r == (WebSocketConfig {
                connect_timeout: 10,
                read_timeout: 30,
                write_timeout: 10,
                ping_interval: 30,
                pong_timeout: 10,
                reconnect_interval: 5,
                max_reconnect_attempts: 10,
                message_buffer_size: 10000,
            }),
    {
        WebSocketConfig {
            connect_timeout: 10,
            read_timeout: 30,
            write_timeout: 10,
            ping_interval: 30,
            pong_timeout: 10,
            reconnect_interval: 5,
            max_reconnect_attempts: 10,
            message_buffer_size: 10000,
        }
    }
}

/// What the client reports to its owner.
#[derive(Debug)]
pub enum WebSocketEvent {
    Connected,
    Disconnected,
    Message(String),
    Error(String),
    Pong(Vec<u8>),
}

/// What a read from the socket produced.
#[derive(Debug)]
pub enum ReceivedItem {
    Text(String),
    Binary(Vec<u8>),
    Ping(Vec<u8>),
    Pong(Vec<u8>),
    Close,
    RawFrame,
    /// The read failed, with the error's text.
    Failed(String),
    /// The stream has no more items.
    Ended,
    /// Nothing arrived within the read timeout.
    TimedOut,
}

/// What the receive loop does after one read: the event to report, if any, and
/// whether to read again.
pub struct ReceiveStep {
    pub event: Option<WebSocketEvent>,
    pub keep_reading: bool,
}

/// How a queued outgoing message fared.
#[derive(Debug, Clone, PartialEq, Eq)]
pub enum SendOutcome {
    Sent,
    Failed(String),
    TimedOut,
}

/// What the send loop does after one send: the event to report, if any, and whether
/// to send again.
pub struct SendStep {
    pub event: Option<WebSocketEvent>,
    pub keep_sending: bool,
}

/// The client of one exchange stream.
pub struct WebSocketClient {
    url: String,
    stats: ConnectionStats,
    sender_open: bool,
    config: WebSocketConfig,
}

/// The client's counters are bounded so that one more step cannot overflow them.
pub open spec fn counters_have_room(s: ConnectionStats) -> bool {
    s.messages_received < u64::MAX && s.messages_sent < u64::MAX && s.errors_count < u64::MAX
}

/// Whether the heartbeat has gone without a pong for too long.
pub open spec fn pong_timed_out(elapsed_secs: u64, c: WebSocketConfig) -> bool {
    elapsed_secs > c.pong_timeout + c.ping_interval
}

/// The text of a subscription request: a JSON object with the request id, the
/// method and the parameters, keys in sorted order.
pub open spec fn request_text(method: Seq<char>, params_json: Seq<char>, id: int) -> Seq<char> {
    "{\"id\":"@ + int_decimal_seq(id) + ",\"method\":"@ + json_string_literal(method)
        + ",\"params\":"@ + params_json + "}"@
}

/// What one read of the receive loop does, whatever the clock says: the step taken
/// and the client's counters after it.
pub open spec fn receive_effect(
    before: WebSocketClient,
    after: WebSocketClient,
    item: ReceivedItem,
    step: ReceiveStep,
) -> bool {
    &&& after.url_spec() == before.url_spec()
    &&& after.config_spec() == before.config_spec()
    &&& after.sender_open_spec() == before.sender_open_spec()
    &&& after.stats_spec().connected == before.stats_spec().connected
    &&& after.stats_spec().messages_sent == before.stats_spec().messages_sent
    &&& after.stats_spec().subscriptions == before.stats_spec().subscriptions
    &&& match item {
        ReceivedItem::Text(t) => step.event matches Some(WebSocketEvent::Message(m)) && m@
            == t@ && step.keep_reading,
        ReceivedItem::Binary(b) => step.keep_reading && (if valid_utf8(b@) {
            step.event matches Some(WebSocketEvent::Message(m)) && m@ == decode_utf8(b@)
        } else {
            step.event is None
        }),
        ReceivedItem::Pong(d) => step.event matches Some(WebSocketEvent::Pong(p)) && p@ == d@
            && step.keep_reading,
        ReceivedItem::Ping(_) => step.keep_reading && step.event is None,
        ReceivedItem::RawFrame => step.keep_reading && step.event is None,
        ReceivedItem::Close => !step.keep_reading && step.event is None,
        ReceivedItem::Failed(e) => step.event matches Some(WebSocketEvent::Error(m)) && m@
            == "Receive error: "@ + e@ && !step.keep_reading,
        ReceivedItem::Ended => !step.keep_reading && step.event is None,
        ReceivedItem::TimedOut => step.keep_reading && step.event is None,
    }
    &&& ({
        let frame = match item {
            ReceivedItem::Failed(_) | ReceivedItem::Ended | ReceivedItem::TimedOut => false,
            _ => true,
        };
        &&& after.stats_spec().messages_received == before.stats_spec().messages_received
            + (if frame {
            1int
        } else {
            0int
        })
        &&& after.stats_spec().errors_count == before.stats_spec().errors_count + (
        if item is Failed {
            1int
        } else {
            0int
        })
    })
}

/// What taking `item` at time `now_ms` does: the effect above, and a frame stamps
/// `last_message_time` with `now_ms` while anything else leaves it as it was.
pub open spec fn receive_outcome(
    before: WebSocketClient,
    after: WebSocketClient,
    item: ReceivedItem,
    now_ms: i64,
    step: ReceiveStep,
) -> bool {
    &&& receive_effect(before, after, item, step)
    &&& after.stats_spec().last_message_time == (match item {
        ReceivedItem::Failed(_) | ReceivedItem::Ended | ReceivedItem::TimedOut => before.stats_spec().last_message_time,
        _ => Some(now_ms),
    })
}

impl WebSocketClient {
    /// A client of `url` that has not connected.
    pub fn new(url: String, config: WebSocketConfig) -> (c: Self)
        ensures
            c.url_spec() == url@,
            c.config_spec() == config,
            !c.stats_spec().connected,
            c.stats_spec().messages_received == 0,
            c.stats_spec().messages_sent == 0,
            c.stats_spec().errors_count == 0,
            !c.sender_open_spec(),
            c.stats_spec().subscriptions.wf(),
    {
        WebSocketClient { url, stats: ConnectionStats::default(), sender_open: false, config }
    }

    /// The URL the client connects to.
    pub closed spec fn url_spec(&self) -> Seq<char> {
        self.url@
    }

    /// The URL the client connects to.
    pub fn url(&self) -> (u: &String)
        ensures
            u@ == self.url_spec(),
    {
        &self.url
    }

    /// The timing of the client.
    pub fn config(&self) -> (c: WebSocketConfig)
        ensures
            c == self.config_spec(),
    {
        self.config
    }

    /// The timing of the client.
    pub closed spec fn config_spec(&self) -> WebSocketConfig {
        self.config
    }

    /// The counters of the connection.
    pub closed spec fn stats_spec(&self) -> &ConnectionStats {
        &self.stats
    }

    /// The counters of the connection.
    pub fn stats(&self) -> (s: &ConnectionStats)
        ensures
            s == self.stats_spec(),
    {
        &self.stats
    }

    /// Whether outgoing messages have a channel to go to.
    pub closed spec fn sender_open_spec(&self) -> bool {
        self.sender_open
    }

    /// Whether outgoing messages have a channel to go to.
    pub fn can_send(&self) -> (b: bool)
        ensures
            b == self.sender_open_spec(),
    {
        self.sender_open
    }

    /// Whether the connection is up.
    pub fn is_connected(&self) -> (b: bool)
        ensures
            b == self.stats_spec().connected,
    {
        self.stats.connected
    }

    /// Checks the URL before connecting: a text that does not parse as a URL is a
    /// configuration error that carries the parser's message.
    pub fn prepare_connect(&self) -> (r: Result<(), ConnectorError>)
        ensures
            match url_parse_error(self.url_spec()) {
                None => r is Ok,
                Some(e) => r matches Err(ConnectorError::ConfigurationError(m)) && m@
                    == "Invalid URL: "@ + e,
            },
    {
        match check_url(self.url.as_str()) {
            None => Ok(()),
            Some(e) => Err(ConnectorError::ConfigurationError(concat2("Invalid URL: ", e.as_str()))),
        }
    }

    /// Takes note of an established connection at the given time: outgoing messages
    /// may now be sent, the connection counts as up, and `Connected` is reported.
    pub fn connection_established_at(&mut self, now_ms: i64) -> (e: WebSocketEvent)
        ensures
            e is Connected,
            final(self).sender_open_spec(),
            final(self).stats_spec().connected,
            final(self).stats_spec().connection_time == Some(now_ms),
            final(self).url_spec() == old(self).url_spec(),
            final(self).config_spec() == old(self).config_spec(),
            final(self).stats_spec().messages_received == old(self).stats_spec().messages_received,
            final(self).stats_spec().messages_sent == old(self).stats_spec().messages_sent,
            final(self).stats_spec().errors_count == old(self).stats_spec().errors_count,
    {
        self.sender_open = true;
        self.stats.set_connected_at(true, now_ms);
        WebSocketEvent::Connected
    }

    /// Decides on one read of the receive loop at the given time. Every frame is
    /// counted as a received message; text is reported, binary data is reported
    /// when it is UTF-8 text, a pong's data is reported, pings and raw frames are
    /// passed over; a close or the end of the stream stops reading; a failed read
    /// counts an error, is reported and stops reading; a timeout reads again.
    pub fn on_receive_at(&mut self, item: ReceivedItem, now_ms: i64) -> (step: ReceiveStep)
        requires
            counters_have_room(*old(self).stats_spec()),
        ensures
            receive_outcome(*old(self), *final(self), item, now_ms, step),
    {
        match item {
            ReceivedItem::Failed(e) => {
                self.stats.record_error();
                ReceiveStep {
                    event: Some(WebSocketEvent::Error(concat2("Receive error: ", e.as_str()))),
                    keep_reading: false,
                }
            },
            ReceivedItem::Ended => ReceiveStep { event: None, keep_reading: false },
            ReceivedItem::TimedOut => ReceiveStep { event: None, keep_reading: true },
            ReceivedItem::Text(t) => {
                self.stats.record_message_received_at(now_ms);
                ReceiveStep { event: Some(WebSocketEvent::Message(t)), keep_reading: true }
            },
            ReceivedItem::Binary(b) => {
                self.stats.record_message_received_at(now_ms);
                match utf8_text(b) {
                    Some(text) => ReceiveStep {
                        event: Some(WebSocketEvent::Message(text)),
                        keep_reading: true,
                    },
                    None => ReceiveStep { event: None, keep_reading: true },
                }
            },
            ReceivedItem::Ping(_) => {
                self.stats.record_message_received_at(now_ms);
                ReceiveStep { event: None, keep_reading: true }
            },
            ReceivedItem::Pong(d) => {
                self.stats.record_message_received_at(now_ms);
                ReceiveStep { event: Some(WebSocketEvent::Pong(d)), keep_reading: true }
            },
            ReceivedItem::Close => {
                self.stats.record_message_received_at(now_ms);
                ReceiveStep { event: None, keep_reading: false }
            },
            ReceivedItem::RawFrame => {
                self.stats.record_message_received_at(now_ms);
                ReceiveStep { event: None, keep_reading: true }
            },
        }
    }

    /// Decides on one read of the receive loop, noting the current time.
    pub fn on_receive(&mut self, item: ReceivedItem) -> (step: ReceiveStep)
        requires
            counters_have_room(*old(self).stats_spec()),
        ensures
            final(self).url_spec() == old(self).url_spec(),
            final(self).config_spec() == old(self).config_spec(),
            final(self).sender_open_spec() == old(self).sender_open_spec(),
            final(self).stats_spec().connected == old(self).stats_spec().connected,
            (item is Close || item is Ended || item is Failed) <==> !step.keep_reading,
            receive_effect(*old(self), *final(self), item, step),
            exists|now: i64|
                0 <= now <= CLOCK_LIMIT_MS && receive_outcome(*old(self), *final(self), item, now, step),
    {
        let now = utc_now_millis();
        let ghost it = item;
        let step = self.on_receive_at(item, now);
        assert(0 <= now <= CLOCK_LIMIT_MS && receive_outcome(*old(self), *self, it, now, step));
        step
    }

    /// Takes note of the end of the receive loop: the connection is down and
    /// `Disconnected` is reported.
    pub fn receive_loop_ended(&mut self) -> (e: WebSocketEvent)
        ensures
            e is Disconnected,
            !final(self).stats_spec().connected,
            final(self).sender_open_spec() == old(self).sender_open_spec(),
            final(self).url_spec() == old(self).url_spec(),
            final(self).config_spec() == old(self).config_spec(),
            final(self).stats_spec().messages_received == old(self).stats_spec().messages_received,
            final(self).stats_spec().errors_count == old(self).stats_spec().errors_count,
    {
        self.stats.set_connected(false);
        WebSocketEvent::Disconnected
    }

    /// Decides on one send of the send loop: a sent message is counted; a failed or
    /// timed-out send counts an error, is reported and stops the loop.
    pub fn on_send(&mut self, outcome: SendOutcome) -> (step: SendStep)
        requires
            counters_have_room(*old(self).stats_spec()),
        ensures
            final(self).url_spec() == old(self).url_spec(),
            final(self).config_spec() == old(self).config_spec(),
            final(self).sender_open_spec() == old(self).sender_open_spec(),
            final(self).stats_spec().connected == old(self).stats_spec().connected,
            final(self).stats_spec().messages_received == old(self).stats_spec().messages_received,
            match outcome {
                SendOutcome::Sent => step.keep_sending && step.event is None
                    && final(self).stats_spec().messages_sent == old(self).stats_spec().messages_sent
                    + 1 && final(self).stats_spec().errors_count == old(self).stats_spec().errors_count,
                SendOutcome::Failed(e) => step.event matches Some(WebSocketEvent::Error(m)) && m@
                    == "Send error: "@ + e@ && !step.keep_sending && final(self).stats_spec().errors_count == old(
                    self,
                ).stats_spec().errors_count + 1 && final(self).stats_spec().messages_sent == old(
                    self,
                ).stats_spec().messages_sent,
                SendOutcome::TimedOut => step.event matches Some(WebSocketEvent::Error(m)) && m@
                    == "Send timeout"@ && !step.keep_sending && final(self).stats_spec().errors_count == old(
                    self,
                ).stats_spec().errors_count + 1 && final(self).stats_spec().messages_sent == old(
                    self,
                ).stats_spec().messages_sent,
            },
    {
        match outcome {
            SendOutcome::Sent => {
                self.stats.record_message_sent();
                SendStep { event: None, keep_sending: true }
            },
            SendOutcome::Failed(e) => {
                self.stats.record_error();
                SendStep {
                    event: Some(WebSocketEvent::Error(concat2("Send error: ", e.as_str()))),
                    keep_sending: false,
                }
            },
            SendOutcome::TimedOut => {
                self.stats.record_error();
                SendStep { event: Some(WebSocketEvent::Error(owned("Send timeout"))), keep_sending: false }
            },
        }
    }

    /// Decides on one heartbeat tick, given the seconds since the heartbeat began:
    /// a dropped connection ends the heartbeat quietly; one silent for longer than
    /// the pong timeout plus the ping interval reports `Pong timeout` and ends it;
    /// otherwise the heartbeat goes on (`None` and `true`).
    pub fn heartbeat_tick(&self, elapsed_secs: u64) -> (r: (Option<WebSocketEvent>, bool))
        ensures
            !self.stats_spec().connected ==> r.0 is None && !r.1,
            self.stats_spec().connected && pong_timed_out(elapsed_secs, self.config_spec()) ==> (
            r.0 matches Some(WebSocketEvent::Error(m)) && m@ == "Pong timeout"@) && !r.1,
            self.stats_spec().connected && !pong_timed_out(elapsed_secs, self.config_spec()) ==> r.0 is None
                && r.1,
    {
        if !self.stats.connected {
            return (None, false);
        }
        let limit: u128 = self.config.pong_timeout as u128 + self.config.ping_interval as u128;
        if elapsed_secs as u128 > limit {
            return (Some(WebSocketEvent::Error(owned("Pong timeout"))), false);
        }
        (None, true)
    }

    /// Whether a message may be handed to the outgoing channel; `accepted` says
    /// whether the channel took it. Without a channel the client is not connected;
    /// a channel that refuses is closed.
    pub fn send_message_result(&self, accepted: bool) -> (r: Result<(), ConnectorError>)
        ensures
            !self.sender_open_spec() ==> (r matches Err(ConnectorError::ConnectionFailed(m)) && m@
                == "Not connected"@),
            self.sender_open_spec() && accepted ==> r is Ok,
            self.sender_open_spec() && !accepted ==> (r matches Err(
                ConnectorError::NetworkError(m),
            ) && m@ == "Message channel closed"@),
    {
        if !self.sender_open {
            Err(ConnectorError::ConnectionFailed(owned("Not connected")))
        } else if accepted {
            Ok(())
        } else {
            Err(ConnectorError::NetworkError(owned("Message channel closed")))
        }
    }

    /// Closes the outgoing channel and marks the connection down.
    pub fn disconnect(&mut self)
        ensures
            !final(self).sender_open_spec(),
            !final(self).stats_spec().connected,
            final(self).url_spec() == old(self).url_spec(),
            final(self).config_spec() == old(self).config_spec(),
    {
        self.sender_open = false;
        self.stats.set_connected(false);
    }

    /// Forgets every counter and subscription.
    pub fn reset_stats(&mut self)
        ensures
            !final(self).stats_spec().connected,
            final(self).stats_spec().messages_received == 0,
            final(self).stats_spec().messages_sent == 0,
            final(self).stats_spec().errors_count == 0,
            final(self).stats_spec().reconnect_count == 0,
            final(self).stats_spec().subscriptions.wf(),
            final(self).sender_open_spec() == old(self).sender_open_spec(),
            final(self).url_spec() == old(self).url_spec(),
            final(self).config_spec() == old(self).config_spec(),
    {
        self.stats = ConnectionStats::default();
    }
}

/// The text of a request with an explicit id.
pub fn request_message(method: &str, params_json: &str, id: u64) -> (r: String)
    ensures
        r@ == request_text(method@, params_json@, id as int),
{
    let id_text = u64_to_decimal(id);
    let quoted = json_quote(method);
    let mut r = concat2("{\"id\":", id_text.as_str());
    r.append(",\"method\":");
    r.append(quoted.as_str());
    r.append(",\"params\":");
    r.append(params_json);
    r.append("}");
    proof {
        assert(int_decimal_seq(id as int) == decimal_seq(id as nat));
        assert(r@ =~= request_text(method@, params_json@, id as int));
    }
    r
}

/// The text of a subscription request; without an id, the current time in
/// milliseconds serves as one.
pub fn subscription_message(method: &str, params_json: &str, id: Option<u64>) -> (r: String)
    ensures
        id matches Some(i) ==> r@ == request_text(method@, params_json@, i as int),
        id is None ==> exists|t: u64| r@ == request_text(method@, params_json@, t as int),
{
    match id {
        Some(i) => request_message(method, params_json, i),
        None => {
            let now = utc_now_millis();
            let t: u64 = now as u64;
            request_message(method, params_json, t)
        },
    }
}

/// The text of a ping request, its id the current time in milliseconds.
pub fn ping_message() -> (r: String)
    ensures
        exists|t: i64| r@ == request_text("ping"@, "[]"@, t as int),
{
    let now = utc_now_millis();
    let id_text = i64_to_decimal(now);
    let quoted = json_quote("ping");
    let mut r = concat2("{\"id\":", id_text.as_str());
    r.append(",\"method\":");
    r.append(quoted.as_str());
    r.append(",\"params\":");
    r.append("[]");
    r.append("}");
    proof {
        assert(r@ =~= request_text("ping"@, "[]"@, now as int));
    }
    r
}

/// Builds a client from a URL and timing settings.
pub struct WebSocketClientBuilder {
    url: Option<String>,
    config: WebSocketConfig,
}

impl WebSocketClientBuilder {
    /// A builder without a URL and with the default timing.
    pub fn new() -> (b: Self)
        ensures
            b.url_spec() is None,
            b.config_spec() == (WebSocketConfig {
                connect_timeout: 10,
                read_timeout: 30,
                write_timeout: 10,
                ping_interval: 30,
                pong_timeout: 10,
                reconnect_interval: 5,
                max_reconnect_attempts: 10,
                message_buffer_size: 10000,
            }),
    {
        WebSocketClientBuilder { url: None, config: WebSocketConfig::default() }
    }

    /// The URL set so far.
    pub closed spec fn url_spec(&self) -> Option<Seq<char>> {
        match self.url {
            Some(u) => Some(u@),
            None => None,
        }
    }

    /// The timing set so far.
    pub closed spec fn config_spec(&self) -> WebSocketConfig {
        self.config
    }

    /// Sets the URL.
    pub fn url(self, url: &str) -> (b: Self)
        ensures
            b.url_spec() == Some(url@),
            b.config_spec() == self.config_spec(),
    {
        WebSocketClientBuilder { url: Some(owned(url)), config: self.config }
    }

    /// Sets the connection timeout, in seconds.
    pub fn connect_timeout(self, secs: u64) -> (b: Self)
        ensures
            b.url_spec() == self.url_spec(),
            b.config_spec() == (WebSocketConfig { connect_timeout: secs, ..self.config_spec() }),
    {
        let mut b = self;
        b.config.connect_timeout = secs;
        b
    }

    /// Sets the read timeout, in seconds.
    pub fn read_timeout(self, secs: u64) -> (b: Self)
        ensures
            b.url_spec() == self.url_spec(),
            b.config_spec() == (WebSocketConfig { read_timeout: secs, ..self.config_spec() }),
    {
        let mut b = self;
        b.config.read_timeout = secs;
        b
    }

    /// Sets the write timeout, in seconds.
    pub fn write_timeout(self, secs: u64) -> (b: Self)
        ensures
            b.url_spec() == self.url_spec(),
            b.config_spec() == (WebSocketConfig { write_timeout: secs, ..self.config_spec() }),
    {
        let mut b = self;
        b.config.write_timeout = secs;
        b
    }

    /// Sets the heartbeat interval, in seconds.
    pub fn ping_interval(self, secs: u64) -> (b: Self)
        ensures
            b.url_spec() == self.url_spec(),
            b.config_spec() == (WebSocketConfig { ping_interval: secs, ..self.config_spec() }),
    {
        let mut b = self;
        b.config.ping_interval = secs;
        b
    }

    /// Sets the pause before reconnecting, in seconds.
    pub fn reconnect_interval(self, secs: u64) -> (b: Self)
        ensures
            b.url_spec() == self.url_spec(),
            b.config_spec() == (WebSocketConfig { reconnect_interval: secs, ..self.config_spec() }),
    {
        let mut b = self;
        b.config.reconnect_interval = secs;
        b
    }

    /// Sets how many reconnections may be tried.
    pub fn max_reconnect_attempts(self, attempts: u32) -> (b: Self)
        ensures
            b.url_spec() == self.url_spec(),
            b.config_spec() == (WebSocketConfig {
                max_reconnect_attempts: attempts,
                ..self.config_spec()
            }),
    {
        let mut b = self;
        b.config.max_reconnect_attempts = attempts;
        b
    }

    /// The client, or a configuration error when no URL was set.
    pub fn build(self) -> (r: Result<WebSocketClient, ConnectorError>)
        ensures
            match self.url_spec() {
                Some(u) => r matches Ok(c) && c.url_spec() == u && c.config_spec()
                    == self.config_spec() && !c.stats_spec().connected && !c.sender_open_spec(),
                None => r matches Err(ConnectorError::ConfigurationError(m)) && m@
                    == "URL is required"@,
            },
    {
        match self.url {
            Some(u) => Ok(WebSocketClient::new(u, self.config)),
            None => Err(ConnectorError::ConfigurationError(owned("URL is required"))),
        }
    }
}

impl Default for WebSocketClientBuilder {
    fn default() -> (b: Self)
        ensures
            b.url_spec() is None,
            b.config_spec().connect_timeout == 10,
    {
        WebSocketClientBuilder::new()
    }
}

/// The error of a connection attempt that failed: `Connection timeout` when it did
/// not finish within the connect timeout, otherwise `WebSocket connection failed: `
/// and the text of the attempt's error.
pub fn connect_failure(timed_out: bool, detail: &str) -> (e: ConnectorError)
    ensures
        timed_out ==> (e matches ConnectorError::ConnectionFailed(d) && d@ == "Connection timeout"@),
        !timed_out ==> (e matches ConnectorError::ConnectionFailed(d) && d@ == "WebSocket connection failed: "@
            + detail@),
{
    if timed_out {
        ConnectorError::ConnectionFailed(owned("Connection timeout"))
    } else {
        ConnectorError::ConnectionFailed(concat2("WebSocket connection failed: ", detail))
    }
}

} // verus!
