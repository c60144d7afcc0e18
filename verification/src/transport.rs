//! The connection to the collector: its states, the decisions taken on each
//! event, the retry delays and the queue of outbound messages.

use crate::capture::{ExceptionCapture, ExceptionCaptureView};
use crate::config::{Config, ConfigView};
use crate::inbound::{inbound_of, is_fatal, read_inbound, rejects_credentials};
use crate::machine::unix_millis;
use vstd::arithmetic::power2::{lemma2_to64, pow2};
use vstd::prelude::*;
use vstd::string::*;

verus! {

/// Version that the agent announces when it registers.
pub const AGENT_VERSION: &'static str = "1.0.1";

/// Number of consecutive failures after which the transport stops retrying.
pub const MAX_RECONNECT_ATTEMPTS: u32 = 10;

/// Longest retry delay, in seconds.
pub const MAX_BACKOFF_SECONDS: u64 = 64;

/// Seconds between two heartbeats.
pub const HEARTBEAT_INTERVAL_SECONDS: u64 = 30;

/// Message type of a registration.
pub const REGISTER_TYPE: &'static str = "register";

/// Message type of a heartbeat.
pub const HEARTBEAT_TYPE: &'static str = "heartbeat";

/// Message type of a diagnostic record.
pub const EXCEPTION_TYPE: &'static str = "exception";

/// Payload of a registration.
#[derive(Clone, Debug)]
pub struct Registration {
    pub api_key: String,
    pub agent_id: String,
    pub hostname: String,
    pub environment: String,
    pub agent_version: String,
    pub runtime: String,
    pub runtime_version: String,
    pub platform: String,
    pub arch: String,
}

/// What a registration says, as plain text.
pub struct RegistrationView {
    pub api_key: Seq<char>,
    pub agent_id: Seq<char>,
    pub hostname: Seq<char>,
    pub environment: Seq<char>,
    pub agent_version: Seq<char>,
    pub runtime: Seq<char>,
    pub runtime_version: Seq<char>,
    pub platform: Seq<char>,
    pub arch: Seq<char>,
}

impl View for Registration {
    type V = RegistrationView;

    open spec fn view(&self) -> RegistrationView {
        RegistrationView {
            api_key: self.api_key@,
            agent_id: self.agent_id@,
            hostname: self.hostname@,
            environment: self.environment@,
            agent_version: self.agent_version@,
            runtime: self.runtime@,
            runtime_version: self.runtime_version@,
            platform: self.platform@,
            arch: self.arch@,
        }
    }
}

/// What an outbound message carries.
#[derive(Debug)]
pub enum Payload {
    Register(Registration),
    Heartbeat { timestamp: i64 },
    Exception(ExceptionCapture),
}

/// What a payload says, as plain values.
pub enum PayloadView {
    Register(RegistrationView),
    Heartbeat { timestamp: i64 },
    Exception(ExceptionCaptureView),
}

impl View for Payload {
    type V = PayloadView;

    open spec fn view(&self) -> PayloadView {
        match self {
            Payload::Register(registration) => PayloadView::Register(registration@),
            Payload::Heartbeat { timestamp } => PayloadView::Heartbeat { timestamp: *timestamp },
            Payload::Exception(record) => PayloadView::Exception(record@),
        }
    }
}

/// An outbound message: its type tag, its payload and the time, in
/// milliseconds, at which it was made.
#[derive(Debug)]
pub struct OutgoingMessage {
    pub msg_type: String,
    pub payload: Payload,
    pub timestamp: i64,
}

/// What an outbound message says, as plain values.
pub struct OutgoingMessageView {
    pub msg_type: Seq<char>,
    pub payload: PayloadView,
    pub timestamp: i64,
}

impl View for OutgoingMessage {
    type V = OutgoingMessageView;

    open spec fn view(&self) -> OutgoingMessageView {
        OutgoingMessageView {
            msg_type: self.msg_type@,
            payload: self.payload@,
            timestamp: self.timestamp,
        }
    }
}

/// What each message of a queue says, oldest first.
pub open spec fn message_views(messages: Seq<OutgoingMessage>) -> Seq<OutgoingMessageView> {
    messages.map_values(|m: OutgoingMessage| m@)
}

/// The registration of an agent with the given configuration.
pub open spec fn registration_of(config: ConfigView) -> RegistrationView {
    RegistrationView {
        api_key: config.api_key,
        agent_id: config.agent_id,
        hostname: config.hostname,
        environment: config.environment,
        agent_version: AGENT_VERSION@,
        runtime: config.runtime.runtime,
        runtime_version: config.runtime.runtime_version,
        platform: config.runtime.platform,
        arch: config.runtime.arch,
    }
}

/// The message that registers an agent.
pub open spec fn register_message(config: ConfigView, now_ms: i64) -> OutgoingMessageView {
    OutgoingMessageView {
        msg_type: REGISTER_TYPE@,
        payload: PayloadView::Register(registration_of(config)),
        timestamp: now_ms,
    }
}

/// The message that reports liveness.
pub open spec fn heartbeat_message(now_ms: i64) -> OutgoingMessageView {
    OutgoingMessageView {
        msg_type: HEARTBEAT_TYPE@,
        payload: PayloadView::Heartbeat { timestamp: now_ms },
        timestamp: now_ms,
    }
}

/// The message that delivers a diagnostic record.
pub open spec fn exception_message(
    record: ExceptionCaptureView,
    now_ms: i64,
) -> OutgoingMessageView {
    OutgoingMessageView {
        msg_type: EXCEPTION_TYPE@,
        payload: PayloadView::Exception(record),
        timestamp: now_ms,
    }
}

impl OutgoingMessage {
    /// Makes the message that registers an agent.
    pub fn register(config: &Config, now_ms: i64) -> (message: OutgoingMessage)
        ensures
            message@ == register_message(config@, now_ms),
    {
        OutgoingMessage {
            msg_type: String::from_str(REGISTER_TYPE),
            payload: Payload::Register(
                Registration {
                    api_key: config.api_key.clone(),
                    agent_id: config.agent_id.clone(),
                    hostname: config.hostname.clone(),
                    environment: config.environment.clone(),
                    agent_version: String::from_str(AGENT_VERSION),
                    runtime: config.runtime.runtime.clone(),
                    runtime_version: config.runtime.runtime_version.clone(),
                    platform: config.runtime.platform.clone(),
                    arch: config.runtime.arch.clone(),
                },
            ),
            timestamp: now_ms,
        }
    }

    /// Makes the message that reports liveness.
    pub fn heartbeat(now_ms: i64) -> (message: OutgoingMessage)
        ensures
            message@ == heartbeat_message(now_ms),
    {
        OutgoingMessage {
            msg_type: String::from_str(HEARTBEAT_TYPE),
            payload: Payload::Heartbeat { timestamp: now_ms },
            timestamp: now_ms,
        }
    }

    /// Makes the message that delivers a diagnostic record.
    pub fn exception(record: ExceptionCapture, now_ms: i64) -> (message: OutgoingMessage)
        ensures
            message@ == exception_message(record@, now_ms),
    {
        OutgoingMessage {
            msg_type: String::from_str(EXCEPTION_TYPE),
            payload: Payload::Exception(record),
            timestamp: now_ms,
        }
    }
}

/// State of the connection to the collector.
#[derive(Clone, Copy, Debug, PartialEq, Eq, Structural)]
pub enum ConnectionState {
    /// No connection, and none being opened.
    Disconnected,
    /// A connection is being opened.
    Connecting,
    /// The connection is open and the agent has announced itself.
    Registered,
    /// A stop was requested; nothing follows.
    Closing,
}

/// What the connection's surroundings report to it.
#[derive(Clone, Copy, Debug, PartialEq, Eq, Structural)]
pub enum TransportEvent {
    /// It is time to try to connect: at start, or after a retry delay.
    ConnectDue,
    /// The streaming connection is open; `now_ms` is the current time.
    Opened { now_ms: i64 },
    /// The streaming connection could not be opened.
    OpenFailed,
    /// A read or a write failed, or the peer closed the connection.
    Lost,
    /// The collector rejected the agent's credentials.
    Rejected,
    /// The agent is being stopped.
    Stop,
}

/// What the connection asks of its surroundings.
#[derive(Clone, Copy, Debug, PartialEq, Eq, Structural)]
pub enum TransportAction {
    /// Nothing to do.
    Idle,
    /// Open the streaming connection to the endpoint.
    Open,
    /// Start the sending, heartbeat and receiving duties.
    StartDuties,
    /// Wait, then report that a connection attempt is due.
    Wait { seconds: u64 },
    /// Stop all duties and close the streaming connection.
    Close,
    /// Stop all duties and report that the transport has given up.
    GiveUp,
}

/// Retry delay in seconds after the given number of consecutive failures:
/// two to that power, and never more than sixty-four.
pub open spec fn backoff_delay(failures: nat) -> nat {
    if failures >= 6 {
        MAX_BACKOFF_SECONDS as nat
    } else {
        pow2(failures)
    }
}

/// Count of consecutive failures after one more. At the limit the count no
/// longer grows.
pub open spec fn after_failure(failures: u32) -> u32 {
    if failures >= MAX_RECONNECT_ATTEMPTS {
        MAX_RECONNECT_ATTEMPTS
    } else {
        (failures + 1) as u32
    }
}

/// The connection as the decisions see it.
pub struct ConnectionView {
    pub state: ConnectionState,
    pub failures: u32,
    pub exhausted: bool,
    pub outbound: Seq<OutgoingMessageView>,
}

/// Whether an event reports that the connection, or the attempt to open it,
/// has failed.
pub open spec fn is_failure(event: TransportEvent) -> bool {
    event is OpenFailed || event is Lost || event is Rejected
}

/// The connection after a failure, and what to do next: wait and retry, or
/// give up once the failures in a row reach the limit. Queued messages are
/// lost.
pub open spec fn fail(c: ConnectionView) -> (ConnectionView, TransportAction) {
    let failures = after_failure(c.failures);
    if failures >= MAX_RECONNECT_ATTEMPTS {
        (
            ConnectionView {
                state: ConnectionState::Disconnected,
                failures,
                exhausted: true,
                outbound: Seq::empty(),
            },
            TransportAction::GiveUp,
        )
    } else {
        (
            ConnectionView {
                state: ConnectionState::Disconnected,
                failures,
                exhausted: c.exhausted,
                outbound: Seq::empty(),
            },
            TransportAction::Wait { seconds: backoff_delay(failures as nat) as u64 },
        )
    }
}

/// The connection after an event, and what its surroundings are to do.
pub open spec fn step(c: ConnectionView, event: TransportEvent, config: ConfigView) -> (
    ConnectionView,
    TransportAction,
) {
    if c.state == ConnectionState::Closing {
        (c, TransportAction::Idle)
    } else {
        match event {
            TransportEvent::Stop => (
                ConnectionView { state: ConnectionState::Closing, outbound: Seq::empty(), ..c },
                TransportAction::Close,
            ),
            TransportEvent::ConnectDue => {
                if c.state == ConnectionState::Disconnected && !c.exhausted {
                    (
                        ConnectionView { state: ConnectionState::Connecting, ..c },
                        TransportAction::Open,
                    )
                } else {
                    (c, TransportAction::Idle)
                }
            },
            TransportEvent::Opened { now_ms } => {
                if c.state == ConnectionState::Connecting {
                    (
                        ConnectionView {
                            state: ConnectionState::Registered,
                            failures: 0,
                            outbound: seq![register_message(config, now_ms)],
                            ..c
                        },
                        TransportAction::StartDuties,
                    )
                } else {
                    (c, TransportAction::Idle)
                }
            },
            _ => {
                if c.state == ConnectionState::Connecting || c.state
                    == ConnectionState::Registered {
                    fail(c)
                } else {
                    (c, TransportAction::Idle)
                }
            },
        }
    }
}

/// A parsed URL.
#[verifier::external_type_specification]
#[verifier::external_body]
pub struct ExUrl(url::Url);

/// Why a text is not a URL.
#[verifier::external_type_specification]
#[verifier::external_body]
pub struct ExUrlParseError(url::ParseError);

/// The URL that a text denotes, if it denotes an absolute URL.
pub uninterp spec fn parsed_url(text: Seq<char>) -> Option<url::Url>;

/// The normalised text of a URL.
pub uninterp spec fn url_text(url: url::Url) -> Seq<char>;

/// Calls `url::Url::parse`.
/// Trusted: the result depends on the text alone.
#[verifier::external_body]
fn parse_url(text: &str) -> (parsed: Result<url::Url, url::ParseError>)
    ensures
        parsed.ok() == parsed_url(text@),
{
    url::Url::parse(text)
}

/// Calls `url::Url::as_str`.
/// Trusted: the result depends on the URL alone.
#[verifier::external_body]
fn serialize_url(url: &url::Url) -> (text: String)
    ensures
        text@ == url_text(*url),
{
    url.as_str().to_string()
}

/// The endpoint that a backend address leads to: its normalised text, if
/// the address is a URL.
pub open spec fn endpoint_of(address: Seq<char>) -> Option<Seq<char>> {
    match parsed_url(address) {
        Some(url) => Some(url_text(url)),
        None => None,
    }
}

/// The endpoint that a backend address leads to.
pub fn endpoint(address: &str) -> (normalised: Option<String>)
    ensures
        crate::capture::text_view(normalised) == endpoint_of(address@),
{
    match parse_url(address) {
        Ok(url) => Some(serialize_url(&url)),
        Err(_) => None,
    }
}

/// Connection to the collector.
#[derive(Debug)]
pub struct Connection {
    state: ConnectionState,
    failures: u32,
    exhausted: bool,
    outbound: Vec<OutgoingMessage>,
}

impl View for Connection {
    type V = ConnectionView;

    closed spec fn view(&self) -> ConnectionView {
        ConnectionView {
            state: self.state,
            failures: self.failures,
            exhausted: self.exhausted,
            outbound: message_views(self.outbound@),
        }
    }
}

/// A connection that has never been opened.
pub open spec fn fresh_connection() -> ConnectionView {
    ConnectionView {
        state: ConnectionState::Disconnected,
        failures: 0,
        exhausted: false,
        outbound: Seq::empty(),
    }
}

/// The connection after a message was offered to it: queued last while the
/// connection is registered, dropped otherwise.
pub open spec fn offer(c: ConnectionView, message: OutgoingMessageView) -> ConnectionView {
    if c.state == ConnectionState::Registered {
        ConnectionView { outbound: c.outbound.push(message), ..c }
    } else {
        c
    }
}

/// The connection after an inbound wire text, and what to do next: a
/// message that rejects the agent's credentials ends the connection as a
/// failure does, any other message changes nothing.
pub open spec fn received(c: ConnectionView, text: Seq<char>, config: ConfigView) -> (
    ConnectionView,
    TransportAction,
) {
    if is_fatal(inbound_of(text)) {
        step(c, TransportEvent::Rejected, config)
    } else {
        (c, TransportAction::Idle)
    }
}

impl Connection {
    /// Messages wait only while the connection is registered.
    #[verifier::type_invariant]
    spec fn queue_only_when_registered(&self) -> bool {
        self.state != ConnectionState::Registered ==> self.outbound@.len() == 0
    }

    /// Creates a new connection.
    pub fn new() -> (connection: Connection)
        ensures
            connection@ == fresh_connection(),
    {
        let connection = Connection {
            state: ConnectionState::Disconnected,
            failures: 0,
            exhausted: false,
            outbound: Vec::new(),
        };
        assert(message_views(connection.outbound@) =~= Seq::empty());
        connection
    }

    /// Current state.
    pub fn state(&self) -> (state: ConnectionState)
        ensures
            state == self@.state,
    {
        self.state
    }

    /// Number of consecutive failures since the last registration.
    pub fn failures(&self) -> (failures: u32)
        ensures
            failures == self@.failures,
    {
        self.failures
    }

    /// Whether the transport has given up for good.
    pub fn has_given_up(&self) -> (exhausted: bool)
        ensures
            exhausted == self@.exhausted,
    {
        self.exhausted
    }

    /// Number of messages that wait to be sent.
    pub fn pending(&self) -> (count: usize)
        ensures
            count == self@.outbound.len(),
            self@.state != ConnectionState::Registered ==> count == 0,
    {
        proof {
            use_type_invariant(self);
        }
        self.outbound.len()
    }

    /// Returns true if connected.
    pub fn is_connected(&self) -> (connected: bool)
        ensures
            connected == (self@.state == ConnectionState::Registered),
    {
        self.state == ConnectionState::Registered
    }

    /// Takes an event and decides what follows.
    pub fn handle(&mut self, event: TransportEvent, config: &Config) -> (action: TransportAction)
        ensures
            (final(self)@, action) == step(old(self)@, event, config@),
    {
        proof {
            use_type_invariant(&*self);
        }
        if self.state == ConnectionState::Closing {
            return TransportAction::Idle;
        }
        match event {
            TransportEvent::Stop => {
                self.outbound = Vec::new();
                self.state = ConnectionState::Closing;
                assert(message_views(self.outbound@) =~= Seq::empty());
                TransportAction::Close
            },
            TransportEvent::ConnectDue => {
                if self.state == ConnectionState::Disconnected && !self.exhausted {
                    self.state = ConnectionState::Connecting;
                    TransportAction::Open
                } else {
                    TransportAction::Idle
                }
            },
            TransportEvent::Opened { now_ms } => {
                if self.state == ConnectionState::Connecting {
                    let message = OutgoingMessage::register(config, now_ms);
                    let mut outbound: Vec<OutgoingMessage> = Vec::new();
                    outbound.push(message);
                    assert(message_views(outbound@) =~= seq![register_message(config@, now_ms)]);
                    self.state = ConnectionState::Registered;
                    self.failures = 0;
                    self.outbound = outbound;
                    TransportAction::StartDuties
                } else {
                    TransportAction::Idle
                }
            },
            _ => {
                if self.state == ConnectionState::Connecting || self.state
                    == ConnectionState::Registered {
                    let failures: u32 = if self.failures >= MAX_RECONNECT_ATTEMPTS {
                        MAX_RECONNECT_ATTEMPTS
                    } else {
                        self.failures + 1
                    };
                    self.outbound = Vec::new();
                    self.state = ConnectionState::Disconnected;
                    self.failures = failures;
                    assert(message_views(self.outbound@) =~= Seq::empty());
                    if failures >= MAX_RECONNECT_ATTEMPTS {
                        self.exhausted = true;
                        TransportAction::GiveUp
                    } else {
                        TransportAction::Wait { seconds: reconnect_delay(failures) }
                    }
                } else {
                    TransportAction::Idle
                }
            },
        }
    }

    /// Connects to the backend: where the configured address is a URL, a
    /// connection attempt is due, and the endpoint to open is returned if
    /// the connection is free to open one. No state changes otherwise.
    pub fn connect(&mut self, config: &Config) -> (target: Option<String>)
        ensures
            match endpoint_of(config@.backend_url) {
                Some(address) => {
                    &&& final(self)@ == step(old(self)@, TransportEvent::ConnectDue, config@).0
                    &&& crate::capture::text_view(target) == if step(
                        old(self)@,
                        TransportEvent::ConnectDue,
                        config@,
                    ).1 == TransportAction::Open {
                        Some(address)
                    } else {
                        None
                    }
                },
                None => target is None && final(self)@ == old(self)@,
            },
    {
        match endpoint(config.backend_url.as_str()) {
            Some(address) => {
                match self.handle(TransportEvent::ConnectDue, config) {
                    TransportAction::Open => Some(address),
                    _ => None,
                }
            },
            None => None,
        }
    }

    /// Takes one inbound wire text. A message that rejects the agent's
    /// credentials ends the connection as a failure does; any other message
    /// changes nothing.
    pub fn receive(&mut self, text: &str, config: &Config) -> (action: TransportAction)
        ensures
            (final(self)@, action) == received(old(self)@, text@, config@),
    {
        let message = read_inbound(text);
        if rejects_credentials(&message) {
            self.handle(TransportEvent::Rejected, config)
        } else {
            TransportAction::Idle
        }
    }

    /// Disconnects from the backend: the connection is closing from now on
    /// and queued messages are dropped.
    pub fn disconnect(&mut self, config: &Config) -> (action: TransportAction)
        ensures
            (final(self)@, action) == step(old(self)@, TransportEvent::Stop, config@),
            final(self)@.state == ConnectionState::Closing,
            final(self)@.outbound.len() == 0,
    {
        proof {
            use_type_invariant(&*self);
        }
        self.handle(TransportEvent::Stop, config)
    }

    /// Offers a message for delivery. It is queued behind the messages
    /// already waiting if the connection is registered and dropped
    /// otherwise.
    pub fn enqueue(&mut self, message: OutgoingMessage) -> (accepted: bool)
        ensures
            final(self)@ == offer(old(self)@, message@),
            accepted == (old(self)@.state == ConnectionState::Registered),
    {
        if self.state == ConnectionState::Registered {
            let ghost before = message_views(self.outbound@);
            let mut taken = Connection::new();
            std::mem::swap(self, &mut taken);
            let Connection { state, failures, exhausted, mut outbound } = taken;
            outbound.push(message);
            assert(message_views(outbound@) =~= before.push(message@));
            *self = Connection { state, failures, exhausted, outbound };
            true
        } else {
            false
        }
    }

    /// Sends an exception capture, stamped with the current time: queued if
    /// the connection is registered, dropped otherwise.
    pub fn send_exception(&mut self, capture: ExceptionCapture) -> (accepted: bool)
        ensures
            accepted == (old(self)@.state == ConnectionState::Registered),
            exists|now_ms: i64|
                #![trigger exception_message(capture@, now_ms)]
                final(self)@ == offer(old(self)@, exception_message(capture@, now_ms)),
            !accepted ==> final(self)@ == old(self)@,
    {
        let now_ms = unix_millis();
        self.enqueue(OutgoingMessage::exception(capture, now_ms))
    }

    /// Queues a heartbeat stamped with the current time, if the connection
    /// is registered.
    pub fn send_heartbeat(&mut self) -> (accepted: bool)
        ensures
            accepted == (old(self)@.state == ConnectionState::Registered),
            exists|now_ms: i64|
                #![trigger heartbeat_message(now_ms)]
                final(self)@ == offer(old(self)@, heartbeat_message(now_ms)),
            !accepted ==> final(self)@ == old(self)@,
    {
        let now_ms = unix_millis();
        self.enqueue(OutgoingMessage::heartbeat(now_ms))
    }

    /// Hands out the oldest waiting message for sending. Nothing is handed
    /// out unless the connection is registered.
    pub fn next_outbound(&mut self) -> (message: Option<OutgoingMessage>)
        ensures
            match message {
                Some(m) => {
                    &&& old(self)@.state == ConnectionState::Registered
                    &&& old(self)@.outbound.len() > 0
                    &&& m@ == old(self)@.outbound[0]
                    &&& final(self)@ == (ConnectionView {
                        outbound: old(self)@.outbound.skip(1),
                        ..old(self)@
                    })
                },
                None => {
                    &&& old(self)@.state != ConnectionState::Registered || old(self)@.outbound.len()
                        == 0
                    &&& final(self)@ == old(self)@
                },
            },
    {
        if self.state == ConnectionState::Registered && self.outbound.len() > 0 {
            let ghost before = message_views(self.outbound@);
            let mut taken = Connection::new();
            std::mem::swap(self, &mut taken);
            let Connection { state, failures, exhausted, mut outbound } = taken;
            let message = outbound.remove(0);
            assert(message_views(outbound@) =~= before.skip(1));
            *self = Connection { state, failures, exhausted, outbound };
            Some(message)
        } else {
            None
        }
    }
}

impl Default for Connection {
    fn default() -> (connection: Connection)
        ensures
            connection@ == fresh_connection(),
    {
        Connection::new()
    }
}

/// The retry delay for a number of consecutive failures.
pub fn reconnect_delay(failures: u32) -> (seconds: u64)
    ensures
        seconds == backoff_delay(failures as nat),
        1 <= seconds <= MAX_BACKOFF_SECONDS,
{
    proof {
        lemma2_to64();
    }
    if failures >= 6 {
        MAX_BACKOFF_SECONDS
    } else if failures == 0 {
        1
    } else if failures == 1 {
        2
    } else if failures == 2 {
        4
    } else if failures == 3 {
        8
    } else if failures == 4 {
        16
    } else {
        32
    }
}

/// Retry delays never shrink as failures accumulate, never exceed sixty-four
/// seconds, and are two to the power of the failure count below that cap.
pub proof fn backoff_is_monotonic(fewer: nat, more: nat)
    requires
        fewer <= more,
    ensures
        backoff_delay(fewer) <= backoff_delay(more),
        backoff_delay(more) <= MAX_BACKOFF_SECONDS,
        backoff_delay(more) == if pow2(more) <= 64 {
            pow2(more)
        } else {
            64
        },
{
    lemma2_to64();
    if more >= 6 {
        vstd::arithmetic::power2::lemma_pow2_strictly_increases(6, (more + 1) as nat);
        if more > 6 {
            vstd::arithmetic::power2::lemma_pow2_strictly_increases(6, more);
        }
    }
}

/// Consecutive failures while connecting wait two seconds to the power of
/// their count, capped at sixty-four, so that no wait is shorter than the
/// one before it.
pub proof fn consecutive_failures_back_off(
    c: ConnectionView,
    first: TransportEvent,
    second: TransportEvent,
    config: ConfigView,
)
    requires
        c.state == ConnectionState::Connecting || c.state == ConnectionState::Registered,
        !c.exhausted,
        is_failure(first),
        is_failure(second),
        c.failures + 2 < MAX_RECONNECT_ATTEMPTS,
    ensures
        ({
            let (failed, wait) = step(c, first, config);
            let (retrying, open) = step(failed, TransportEvent::ConnectDue, config);
            let (failed_again, wait_again) = step(retrying, second, config);
            &&& failed.state == ConnectionState::Disconnected
            &&& failed.failures == c.failures + 1
            &&& wait == TransportAction::Wait {
                seconds: backoff_delay((c.failures + 1) as nat) as u64,
            }
            &&& open == TransportAction::Open
            &&& failed_again.failures == c.failures + 2
            &&& wait_again == TransportAction::Wait {
                seconds: backoff_delay((c.failures + 2) as nat) as u64,
            }
            &&& backoff_delay((c.failures + 1) as nat) <= backoff_delay((c.failures + 2) as nat)
                <= MAX_BACKOFF_SECONDS
        }),
{
    backoff_is_monotonic((c.failures + 1) as nat, (c.failures + 2) as nat);
}

/// A successful registration resets the failure count to zero at once, so
/// that the next failure waits the shortest delay again.
pub proof fn registration_resets_failures(
    c: ConnectionView,
    now_ms: i64,
    failure: TransportEvent,
    config: ConfigView,
)
    requires
        c.state == ConnectionState::Connecting,
        is_failure(failure),
    ensures
        ({
            let (registered, start) = step(c, TransportEvent::Opened { now_ms }, config);
            &&& registered.state == ConnectionState::Registered
            &&& registered.failures == 0
            &&& registered.outbound == seq![register_message(config, now_ms)]
            &&& start == TransportAction::StartDuties
            &&& step(registered, failure, config).1 == TransportAction::Wait { seconds: 2 }
        }),
{
    lemma2_to64();
}

/// The tenth failure in a row ends the retrying for good: the transport
/// gives up, and no later event makes it open a connection.
pub proof fn gives_up_after_limit(
    c: ConnectionView,
    failure: TransportEvent,
    later: TransportEvent,
    config: ConfigView,
)
    requires
        c.state == ConnectionState::Connecting || c.state == ConnectionState::Registered,
        is_failure(failure),
        c.failures + 1 >= MAX_RECONNECT_ATTEMPTS,
    ensures
        ({
            let (stopped, action) = step(c, failure, config);
            let (after, next) = step(stopped, later, config);
            &&& action == TransportAction::GiveUp
            &&& stopped.exhausted
            &&& stopped.state == ConnectionState::Disconnected
            &&& next == TransportAction::Idle || next == TransportAction::Close
            &&& after.exhausted
            &&& after.state == ConnectionState::Disconnected || after.state
                == ConnectionState::Closing
        }),
{
}

/// The connection after a run of connection attempts each of which ended in
/// the failure listed for it.
pub open spec fn after_failed_attempts(
    c: ConnectionView,
    failures: Seq<TransportEvent>,
    config: ConfigView,
) -> ConnectionView
    decreases failures.len(),
{
    if failures.len() == 0 {
        c
    } else {
        let before = after_failed_attempts(c, failures.drop_last(), config);
        let attempting = step(before, TransportEvent::ConnectDue, config).0;
        step(attempting, failures.last(), config).0
    }
}

/// From a new connection, each of the first nine failed attempts in a row
/// is followed by another attempt; the tenth is the last. After it the
/// transport has given up, stays disconnected, and answers a due attempt by
/// doing nothing.
pub proof fn ten_failed_attempts_end_retrying(failures: Seq<TransportEvent>, config: ConfigView)
    requires
        failures.len() <= MAX_RECONNECT_ATTEMPTS,
        forall|i: int| 0 <= i < failures.len() ==> is_failure(#[trigger] failures[i]),
    ensures
        ({
            let c = after_failed_attempts(fresh_connection(), failures, config);
            &&& c.state == ConnectionState::Disconnected
            &&& c.failures == failures.len()
            &&& c.exhausted == (failures.len() == MAX_RECONNECT_ATTEMPTS)
            &&& c.outbound.len() == 0
            &&& step(c, TransportEvent::ConnectDue, config).1 == if failures.len()
                < MAX_RECONNECT_ATTEMPTS {
                TransportAction::Open
            } else {
                TransportAction::Idle
            }
            &&& failures.len() == MAX_RECONNECT_ATTEMPTS ==> step(
                c,
                TransportEvent::ConnectDue,
                config,
            ).0 == c
        }),
    decreases failures.len(),
{
    if failures.len() > 0 {
        ten_failed_attempts_end_retrying(failures.drop_last(), config);
        assert(is_failure(failures.last()));
    }
}

/// Once closing, the connection stays as it is whatever is reported to it.
pub proof fn closing_is_terminal(c: ConnectionView, event: TransportEvent, config: ConfigView)
    requires
        c.state == ConnectionState::Closing,
    ensures
        step(c, event, config) == (c, TransportAction::Idle),
{
}

/// Messages wait only on a registered connection.
pub open spec fn queue_rule(c: ConnectionView) -> bool {
    c.state != ConnectionState::Registered ==> c.outbound.len() == 0
}

/// A new connection has nothing queued, and neither an event nor an offered
/// message leaves a message waiting on a connection that is not registered.
pub proof fn queue_rule_is_kept(
    c: ConnectionView,
    event: TransportEvent,
    message: OutgoingMessageView,
    config: ConfigView,
)
    requires
        queue_rule(c),
    ensures
        queue_rule(fresh_connection()),
        queue_rule(step(c, event, config).0),
        queue_rule(offer(c, message)),
{
}

/// The connection starts closing on a stop request and on nothing else.
pub proof fn closing_only_on_stop(c: ConnectionView, event: TransportEvent, config: ConfigView)
    requires
        c.state != ConnectionState::Closing,
    ensures
        (step(c, event, config).0.state == ConnectionState::Closing) == (event
            == TransportEvent::Stop),
{
}

/// Offering a message never moves the connection to another state, nor
/// touches its failure count: only events do.
pub proof fn offering_keeps_state(c: ConnectionView, message: OutgoingMessageView)
    ensures
        offer(c, message).state == c.state,
        offer(c, message).failures == c.failures,
        offer(c, message).exhausted == c.exhausted,
{
}

/// A message offered while the connection is not registered leaves no
/// trace: the queue, from which alone messages reach the wire, is as it was.
pub proof fn unregistered_connection_drops(c: ConnectionView, message: OutgoingMessageView)
    requires
        c.state != ConnectionState::Registered,
    ensures
        offer(c, message) == c,
{
}

/// Messages offered to a registered connection wait in the order in which
/// they were offered.
pub proof fn registered_connection_keeps_order(
    c: ConnectionView,
    first: OutgoingMessageView,
    second: OutgoingMessageView,
)
    requires
        c.state == ConnectionState::Registered,
    ensures
        offer(offer(c, first), second).outbound == c.outbound + seq![first, second],
{
}

} // verus!
