//! Live kline streaming: connection configuration and state, the handling
//! of stream events, and the decisions of the reconnecting stream loop. The
//! network work itself (connecting, reading frames, sleeping) is done by the
//! caller, which feeds back what it observed.

use std::time::Instant;
use vstd::prelude::*;

use crate::clock::{as_nanos, elapsed, now};

verus! {

/// Nanoseconds in a second.
pub const NANOS_PER_SEC: u128 = 1_000_000_000;

/// Seconds without a message after which a live stream counts as stale.
pub const STALE_TIMEOUT_SECS: u64 = 30;

/// Seconds to wait before reconnecting, by default.
pub const DEFAULT_RECONNECT_DELAY_SECS: u64 = 5;

/// Event delivered to the application; `K` is the candle type.
#[derive(Debug, Clone, PartialEq)]
pub enum WebSocketEvent<K> {
    /// The stream connected.
    Connected,
    /// A kline update.
    Kline(K),
    /// The stream disconnected.
    Disconnected,
    /// An error occurred.
    Error(String),
}

/// One kline event of the exchange stream, as decoded from JSON.
#[derive(Debug, Clone)]
pub struct BinanceKlineEvent {
    /// Event type ("kline" for kline updates).
    pub event_type: String,
    /// Event time.
    pub event_time: u64,
    /// Symbol.
    pub symbol: String,
    /// Kline data.
    pub kline: BinanceKlineData,
}

/// Kline fields of a stream event; prices and volumes are decimal strings.
#[derive(Debug, Clone)]
pub struct BinanceKlineData {
    /// Start time in milliseconds.
    pub time: u64,
    /// Close time in milliseconds.
    pub close_time: u64,
    /// Symbol.
    pub symbol: String,
    /// Interval, such as "1m".
    pub interval: String,
    /// First trade identifier.
    pub first_trade_id: i64,
    /// Last trade identifier.
    pub last_trade_id: i64,
    /// Open price.
    pub open: String,
    /// High price.
    pub high: String,
    /// Low price.
    pub low: String,
    /// Close price.
    pub close: String,
    /// Volume.
    pub volume: String,
    /// Number of trades.
    pub num_trades: u64,
    /// Whether the kline is closed.
    pub is_closed: bool,
    /// Quote asset volume.
    pub quote_volume: String,
    /// Taker buy base volume.
    pub taker_buy_base_volume: String,
    /// Taker buy quote volume.
    pub taker_buy_quote_volume: String,
}

impl BinanceKlineEvent {
    /// Whether this is a kline update (event type "kline").
    pub fn is_kline(&self) -> (kline: bool)
        ensures
            kline == (self.event_type@ == "kline"@),
    {
        let expected = String::from_str("kline");
        self.event_type == expected
    }
}

// ==================== Configuration ====================

/// Lowercase form of `s` per `str::to_lowercase` (Unicode lowercase mapping).
pub uninterp spec fn unicode_lowercase(s: Seq<char>) -> Seq<char>;

/// ASCII lowercase of one character.
pub open spec fn ascii_lower(c: char) -> char {
    if 'A' <= c <= 'Z' {
        ((c as u32) + 32) as char
    } else {
        c
    }
}

/// `str::to_lowercase`. The result is named by [`unicode_lowercase`]; on
/// ASCII text it is the ASCII lowercase (Unicode maps A-Z to a-z and leaves
/// other ASCII characters unchanged).
#[verifier::external_body]
fn to_lowercase(s: &str) -> (lower: String)
    ensures
        lower@ == unicode_lowercase(s@),
        (forall|i: int| 0 <= i < s@.len() ==> (s@[i] as u32) < 128) ==> lower@ == s@.map_values(
            |c: char| ascii_lower(c),
        ),
{
    s.to_lowercase()
}

/// Connection settings.
#[derive(Debug)]
pub struct WebSocketConfig {
    /// Trading pair, such as "btcusdt".
    pub ticker: String,
    /// Kline interval, such as "1m".
    pub interval: String,
    /// Pause before reconnecting, in seconds.
    pub reconnect_delay_secs: u64,
    /// Whether streaming is on.
    pub enabled: bool,
}

/// The stream URL for a ticker (already lowercased) and interval.
pub open spec fn stream_url(ticker_lower: Seq<char>, interval: Seq<char>) -> Seq<char> {
    "wss://stream.binance.com:9443/ws/"@ + ticker_lower + "@kline_"@ + interval
}

impl Clone for WebSocketConfig {
    fn clone(&self) -> (copy: Self)
        ensures
            copy.ticker@ == self.ticker@,
            copy.interval@ == self.interval@,
            copy.reconnect_delay_secs == self.reconnect_delay_secs,
            copy.enabled == self.enabled,
    {
        WebSocketConfig {
            ticker: self.ticker.clone(),
            interval: self.interval.clone(),
            reconnect_delay_secs: self.reconnect_delay_secs,
            enabled: self.enabled,
        }
    }
}

impl Default for WebSocketConfig {
    fn default() -> (config: Self)
        ensures
            config.ticker@ == "btcusdt"@,
            config.interval@ == "1m"@,
            config.reconnect_delay_secs == DEFAULT_RECONNECT_DELAY_SECS,
            config.enabled,
    {
        WebSocketConfig {
            ticker: String::from_str("btcusdt"),
            interval: String::from_str("1m"),
            reconnect_delay_secs: DEFAULT_RECONNECT_DELAY_SECS,
            enabled: true,
        }
    }
}

impl WebSocketConfig {
    /// Settings for `ticker` and `interval`; the rest as by default.
    pub fn new(ticker: &str, interval: &str) -> (config: Self)
        ensures
            config.ticker@ == ticker@,
            config.interval@ == interval@,
            config.reconnect_delay_secs == DEFAULT_RECONNECT_DELAY_SECS,
            config.enabled,
    {
        let base = WebSocketConfig::default();
        WebSocketConfig {
            ticker: String::from_str(ticker),
            interval: String::from_str(interval),
            ..base
        }
    }

    /// "wss://stream.binance.com:9443/ws/{ticker in lowercase}@kline_{interval}".
    pub fn build_url(&self) -> (url: String)
        ensures
            url@ == stream_url(unicode_lowercase(self.ticker@), self.interval@),
    {
        let lower = to_lowercase(self.ticker.as_str());
        let mut url = String::from_str("wss://stream.binance.com:9443/ws/");
        url.append(lower.as_str());
        url.append("@kline_");
        url.append(self.interval.as_str());
        url
    }
}

// ==================== Connection state ====================

/// Status of the connection as the application sees it.
#[derive(Debug, Clone, Copy)]
pub struct WebSocketState {
    /// Whether connected.
    pub connected: bool,
    /// When the last message arrived.
    pub last_message_time: Option<Instant>,
    /// Consecutive errors.
    pub error_count: u32,
    /// Whether a stream task is running.
    pub task_running: bool,
}

impl Default for WebSocketState {
    fn default() -> (state: Self)
        ensures
            !state.connected,
            state.last_message_time is None,
            state.error_count == 0,
            !state.task_running,
    {
        WebSocketState { connected: false, last_message_time: None, error_count: 0, task_running: false }
    }
}

/// The state after `event` (see [`WebSocketState::handle_event`]), up to the
/// message instant, which is some new reading of the clock.
pub open spec fn state_after_event<K>(before: WebSocketState, after: WebSocketState, event: WebSocketEvent<K>) -> bool {
    match event {
        WebSocketEvent::Connected => after.connected && after.last_message_time is Some
            && after.error_count == 0 && after.task_running == before.task_running,
        WebSocketEvent::Kline(_) => after.last_message_time is Some && after.connected
            == before.connected && after.error_count == before.error_count && after.task_running
            == before.task_running,
        WebSocketEvent::Disconnected => after == (WebSocketState {
            connected: false,
            task_running: false,
            ..before
        }),
        WebSocketEvent::Error(_) => after == (WebSocketState {
            error_count: (before.error_count + 1) as u32,
            ..before
        }),
    }
}

impl WebSocketState {
    /// Connected: the message clock restarts and the error count clears.
    pub fn on_connected(&mut self)
        ensures
            final(self).connected,
            final(self).last_message_time is Some,
            final(self).error_count == 0,
            final(self).task_running == old(self).task_running,
    {
        self.connected = true;
        self.last_message_time = Some(now());
        self.error_count = 0;
    }

    /// Disconnected: not connected, no task running.
    pub fn on_disconnected(&mut self)
        ensures
            *final(self) == (WebSocketState { connected: false, task_running: false, ..*old(self) }),
    {
        self.connected = false;
        self.task_running = false;
    }

    /// A message arrived now.
    pub fn on_message(&mut self)
        ensures
            final(self).last_message_time is Some,
            final(self).connected == old(self).connected,
            final(self).error_count == old(self).error_count,
            final(self).task_running == old(self).task_running,
    {
        self.last_message_time = Some(now());
    }

    /// One more error.
    pub fn on_error(&mut self)
        requires
            old(self).error_count < u32::MAX,
        ensures
            *final(self) == (WebSocketState { error_count: (old(self).error_count + 1) as u32, ..*old(self) }),
    {
        self.error_count = self.error_count + 1;
    }

    /// Whether more than `timeout_secs` seconds have passed since the last
    /// message; never stale before a first message. The clock is read here;
    /// the decision is [`WebSocketState::stale_given`] on the time waited
    /// and `timeout_secs` in nanoseconds.
    pub fn is_stale(&self, timeout_secs: u64) -> (stale: bool)
        ensures
            self.last_message_time is None ==> !stale,
    {
        let timeout_nanos = timeout_secs as u128 * NANOS_PER_SEC;
        let waited = self.waited_nanos();
        self.stale_given(waited, timeout_nanos)
    }

    /// Nanoseconds since the last message, read from the clock; zero before
    /// a first message. Nothing is known of a reading.
    fn waited_nanos(&self) -> (waited: u128)
        ensures
            self.last_message_time is None ==> waited == 0,
    {
        match &self.last_message_time {
            Some(t) => as_nanos(&elapsed(t)),
            None => 0,
        }
    }

    /// The staleness decision once the time since the last message is read:
    /// stale exactly when a message was received and more than
    /// `timeout_nanos` nanoseconds have passed since (`waited_nanos`).
    pub fn stale_given(&self, waited_nanos: u128, timeout_nanos: u128) -> (stale: bool)
        ensures
            stale == (self.last_message_time is Some && waited_nanos > timeout_nanos),
    {
        self.last_message_time.is_some() && waited_nanos > timeout_nanos
    }

    /// Updates the state for an event taken from the stream.
    pub fn handle_event<K>(&mut self, event: &WebSocketEvent<K>)
        requires
            event is Error ==> old(self).error_count < u32::MAX,
        ensures
            state_after_event(*old(self), *final(self), *event),
    {
        match event {
            WebSocketEvent::Connected => self.on_connected(),
            WebSocketEvent::Kline(_) => self.on_message(),
            WebSocketEvent::Disconnected => self.on_disconnected(),
            WebSocketEvent::Error(_) => self.on_error(),
        }
    }
}

/// Text of the error reported when the connection goes stale.
pub open spec fn stale_message() -> Seq<char> {
    "Connection stale, no messages received"@
}

/// Whether a health check reports the stream after `waited_nanos`
/// nanoseconds without a message: enabled, connected, a message received
/// and more than [`STALE_TIMEOUT_SECS`] seconds waited.
pub open spec fn health_reports(config: WebSocketConfig, state: WebSocketState, waited_nanos: u128) -> bool {
    &&& config.enabled
    &&& state.connected
    &&& state.last_message_time is Some
    &&& waited_nanos > STALE_TIMEOUT_SECS * NANOS_PER_SEC
}

/// Health check of an enabled, connected stream: when no message came for
/// [`STALE_TIMEOUT_SECS`] seconds, reports an error and marks the
/// connection down. The clock is read only for an enabled, connected
/// stream; the decision is [`health_given`] on the time waited.
pub fn check_connection_health<K>(config: &WebSocketConfig, state: &mut WebSocketState) -> (report:
    Option<WebSocketEvent<K>>)
    ensures
        (!config.enabled || !old(state).connected || old(state).last_message_time is None)
            ==> report is None,
        report is None ==> *final(state) == *old(state),
        report matches Some(e) ==> (e matches WebSocketEvent::Error(text) && text@ == stale_message())
            && *final(state) == (WebSocketState {
            connected: false,
            task_running: false,
            ..*old(state)
        }),
{
    if !config.enabled || !state.connected {
        return None;
    }
    let waited = state.waited_nanos();
    health_given(config, state, waited)
}

/// The decision of a health check once the time since the last message is
/// read (`waited_nanos`): a stream for which [`health_reports`] holds is
/// reported with an error and marked down; otherwise nothing happens.
pub fn health_given<K>(config: &WebSocketConfig, state: &mut WebSocketState, waited_nanos: u128) -> (report:
    Option<WebSocketEvent<K>>)
    ensures
        report is Some <==> health_reports(*config, *old(state), waited_nanos),
        report is None ==> *final(state) == *old(state),
        report matches Some(e) ==> (e matches WebSocketEvent::Error(text) && text@ == stale_message())
            && *final(state) == (WebSocketState {
            connected: false,
            task_running: false,
            ..*old(state)
        }),
{
    let stale = state.stale_given(waited_nanos, STALE_TIMEOUT_SECS as u128 * NANOS_PER_SEC);
    if config.enabled && state.connected && stale {
        let text = String::from_str("Connection stale, no messages received");
        state.on_disconnected();
        Some(WebSocketEvent::Error(text))
    } else {
        None
    }
}

/// What a new stream task is started with.
#[derive(Debug)]
pub struct StreamParams {
    /// Trading pair.
    pub ticker: String,
    /// Kline interval.
    pub interval: String,
    /// Pause before reconnecting, in seconds.
    pub reconnect_delay_secs: u64,
}

/// Decides whether to start a stream task: only when enabled and none is
/// running; then marks a task as running and returns its parameters.
pub fn spawn_websocket_task(config: &WebSocketConfig, state: &mut WebSocketState) -> (params: Option<StreamParams>)
    ensures
        (!config.enabled || old(state).task_running) <==> params is None,
        params is None ==> *final(state) == *old(state),
        params matches Some(p) ==> p.ticker@ == config.ticker@ && p.interval@ == config.interval@
            && p.reconnect_delay_secs == config.reconnect_delay_secs && *final(state) == (WebSocketState {
            task_running: true,
            ..*old(state)
        }),
{
    if !config.enabled || state.task_running {
        return None;
    }
    state.task_running = true;
    Some(StreamParams {
        ticker: config.ticker.clone(),
        interval: config.interval.clone(),
        reconnect_delay_secs: config.reconnect_delay_secs,
    })
}

// ==================== Stream loop decisions ====================

/// State of the stream loop.
#[derive(Debug, Clone, Copy, PartialEq, Eq, Structural)]
pub enum ConnectionState {
    /// Not connected: the next work is to connect.
    Disconnected,
    /// Connected: the next work is to read a frame.
    Connected,
}

/// A decoded text frame: its event type and the candle built from it, or
/// why it could not be decoded.
#[derive(Debug)]
pub enum TextFrame<K> {
    /// Decoded JSON event.
    Decoded {
        /// Event type field.
        event_type: String,
        /// Candle built from the kline fields, or the error text.
        candle: Result<K, String>,
    },
    /// The JSON could not be decoded; the error text.
    Undecodable(String),
}

/// What the stream loop observed after its last piece of work.
#[derive(Debug)]
pub enum StreamObservation<K> {
    /// The connection was established.
    ConnectSucceeded,
    /// Connecting failed; the error text.
    ConnectFailed(String),
    /// A text frame arrived.
    Text(TextFrame<K>),
    /// A ping arrived.
    Ping,
    /// A pong arrived.
    Pong,
    /// A close frame arrived.
    Close,
    /// A binary or raw frame arrived.
    OtherFrame,
    /// Reading failed; the error text.
    ReadFailed(String),
    /// The stream ended.
    Ended,
    /// Answering a ping failed; the error text.
    PongFailed(String),
}

/// Work the stream loop must do next, in order.
#[derive(Debug)]
pub enum StreamAction<K> {
    /// Send the event; stop the loop if nobody receives events any more.
    Deliver(WebSocketEvent<K>),
    /// Send the event; a missing receiver is ignored.
    Report(WebSocketEvent<K>),
    /// Answer the last ping with a pong carrying its payload.
    SendPong,
    /// Sleep for the reconnect delay.
    Wait,
}

/// An error event with text `prefix + detail`.
pub open spec fn error_with<K>(a: StreamAction<K>, prefix: Seq<char>, detail: Seq<char>) -> bool {
    a matches StreamAction::Report(WebSocketEvent::Error(text)) && text@ == prefix + detail
}

/// Whether `a` reports a disconnection.
pub open spec fn reports_disconnect<K>(a: StreamAction<K>) -> bool {
    a matches StreamAction::Report(WebSocketEvent::Disconnected)
}

/// Whether `a` is the reconnect pause.
pub open spec fn is_wait<K>(a: StreamAction<K>) -> bool {
    a matches StreamAction::Wait
}

/// The decision table of the stream loop for one observation.
pub open spec fn stream_transition<K>(
    state: ConnectionState,
    obs: StreamObservation<K>,
    next: ConnectionState,
    actions: Seq<StreamAction<K>>,
) -> bool {
    match (state, obs) {
        (ConnectionState::Disconnected, StreamObservation::ConnectSucceeded) => next
            == ConnectionState::Connected && actions.len() == 1 && actions[0] matches StreamAction::Deliver(
            WebSocketEvent::Connected,
        ),
        (ConnectionState::Disconnected, StreamObservation::ConnectFailed(e)) => next
            == ConnectionState::Disconnected && actions.len() == 2 && error_with(
            actions[0],
            "Connection failed: "@,
            e@,
        ) && is_wait(actions[1]),
        (ConnectionState::Connected, StreamObservation::Text(TextFrame::Decoded { event_type, candle })) => {
            &&& next == ConnectionState::Connected
            &&& if event_type@ != "kline"@ {
                actions.len() == 0
            } else {
                match candle {
                    Ok(c) => actions.len() == 1 && actions[0] == StreamAction::Deliver(WebSocketEvent::Kline(c)),
                    Err(e) => actions.len() == 1 && error_with(actions[0], Seq::empty(), e@),
                }
            }
        },
        (ConnectionState::Connected, StreamObservation::Text(TextFrame::Undecodable(e))) => next
            == ConnectionState::Connected && actions.len() == 1 && error_with(
            actions[0],
            "Parse error: "@,
            e@,
        ),
        (ConnectionState::Connected, StreamObservation::Ping) => next == ConnectionState::Connected
            && actions.len() == 1 && actions[0] matches StreamAction::SendPong,
        (ConnectionState::Connected, StreamObservation::PongFailed(e)) => next
            == ConnectionState::Disconnected && actions.len() == 3 && error_with(
            actions[0],
            "Failed to send pong: "@,
            e@,
        ) && reports_disconnect(actions[1]) && is_wait(actions[2]),
        (ConnectionState::Connected, StreamObservation::Close) => next
            == ConnectionState::Disconnected && actions.len() == 2 && reports_disconnect(actions[0])
            && is_wait(actions[1]),
        (ConnectionState::Connected, StreamObservation::ReadFailed(e)) => next
            == ConnectionState::Disconnected && actions.len() == 3 && error_with(
            actions[0],
            "WebSocket error: "@,
            e@,
        ) && reports_disconnect(actions[1]) && is_wait(actions[2]),
        (ConnectionState::Connected, StreamObservation::Ended) => next
            == ConnectionState::Disconnected && actions.len() == 2 && reports_disconnect(actions[0])
            && is_wait(actions[1]),
        _ => next == state && actions.len() == 0,
    }
}

/// An error report with text `prefix + detail`.
fn error_report<K>(prefix: &str, detail: &String) -> (a: StreamAction<K>)
    ensures
        error_with(a, prefix@, detail@),
{
    let mut text = String::from_str(prefix);
    text.append(detail.as_str());
    StreamAction::Report(WebSocketEvent::Error(text))
}

/// One decision of the stream loop: from the current state and what was
/// observed, the next state and the work to do (see [`stream_transition`]).
/// Pongs, binary frames and frames that are not klines change nothing;
/// any read error, close or end of stream reports a disconnection and
/// waits before reconnecting.
pub fn stream_step<K>(state: ConnectionState, obs: StreamObservation<K>) -> (result: (
    ConnectionState,
    Vec<StreamAction<K>>,
))
    ensures
        stream_transition(state, obs, result.0, result.1@),
{
    let mut actions: Vec<StreamAction<K>> = Vec::new();
    match (state, obs) {
        (ConnectionState::Disconnected, StreamObservation::ConnectSucceeded) => {
            actions.push(StreamAction::Deliver(WebSocketEvent::Connected));
            (ConnectionState::Connected, actions)
        },
        (ConnectionState::Disconnected, StreamObservation::ConnectFailed(e)) => {
            actions.push(error_report("Connection failed: ", &e));
            actions.push(StreamAction::Wait);
            (ConnectionState::Disconnected, actions)
        },
        (ConnectionState::Connected, StreamObservation::Text(TextFrame::Decoded { event_type, candle })) => {
            let kline = String::from_str("kline");
            if event_type == kline {
                match candle {
                    Ok(c) => actions.push(StreamAction::Deliver(WebSocketEvent::Kline(c))),
                    Err(e) => {
                        proof {
                            reveal_strlit("");
                        }
                        actions.push(error_report("", &e));
                    },
                }
            }
            (ConnectionState::Connected, actions)
        },
        (ConnectionState::Connected, StreamObservation::Text(TextFrame::Undecodable(e))) => {
            actions.push(error_report("Parse error: ", &e));
            (ConnectionState::Connected, actions)
        },
        (ConnectionState::Connected, StreamObservation::Ping) => {
            actions.push(StreamAction::SendPong);
            (ConnectionState::Connected, actions)
        },
        (ConnectionState::Connected, StreamObservation::PongFailed(e)) => {
            actions.push(error_report("Failed to send pong: ", &e));
            actions.push(StreamAction::Report(WebSocketEvent::Disconnected));
            actions.push(StreamAction::Wait);
            (ConnectionState::Disconnected, actions)
        },
        (ConnectionState::Connected, StreamObservation::Close) => {
            actions.push(StreamAction::Report(WebSocketEvent::Disconnected));
            actions.push(StreamAction::Wait);
            (ConnectionState::Disconnected, actions)
        },
        (ConnectionState::Connected, StreamObservation::ReadFailed(e)) => {
            actions.push(error_report("WebSocket error: ", &e));
            actions.push(StreamAction::Report(WebSocketEvent::Disconnected));
            actions.push(StreamAction::Wait);
            (ConnectionState::Disconnected, actions)
        },
        (ConnectionState::Connected, StreamObservation::Ended) => {
            actions.push(StreamAction::Report(WebSocketEvent::Disconnected));
            actions.push(StreamAction::Wait);
            (ConnectionState::Disconnected, actions)
        },
        (s, _) => (s, actions),
    }
}

} // verus!
