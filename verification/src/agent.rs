//! The agent: configuration, stored context and user, the sampling state
//! and the connection, and what a capture does with them.

use crate::capture::{
    capture_error, capture_panic, freshly_captured, panic_context, record_of, text_view,
    ExceptionCapture, ExceptionCaptureView, PANIC_KIND,
};
use crate::config::{sampled, seed_after, xorshift, Config, ConfigView, SAMPLING_RATE_ALL};
use crate::context::{
    context_view, field_views, str_view, Context, ContextValue, ContextValueView, Field,
};
use crate::machine::unix_millis;
use crate::text::{last_segment, push_decimal, decimal};
use crate::transport::{
    endpoint_of, exception_message, fresh_connection, heartbeat_message, offer, received, step,
    Connection, ConnectionState, ConnectionView, OutgoingMessage, TransportAction,
    TransportEvent,
};
use vstd::prelude::*;
use vstd::string::*;

verus! {

/// Context key under which the current user is recorded.
pub const USER_KEY: &'static str = "user";

/// Name of the user's identifier among the user fields.
pub const USER_ID: &'static str = "id";

/// Name of the user's e-mail address among the user fields.
pub const USER_EMAIL: &'static str = "email";

/// Name of the user's login name among the user fields.
pub const USER_NAME: &'static str = "username";

/// Message of an abort whose payload is not a text.
pub const DEFAULT_PANIC_MESSAGE: &'static str = "panic occurred";

/// One user field, if its text is given.
pub open spec fn user_field(name: Seq<char>, text: Option<Seq<char>>) -> Seq<
    (Seq<char>, Seq<char>),
> {
    match text {
        Some(t) => seq![(name, t)],
        None => Seq::empty(),
    }
}

/// The user fields that a call of `set_user` leaves: those that were given,
/// and no others.
pub open spec fn user_fields(
    id: Option<Seq<char>>,
    email: Option<Seq<char>>,
    username: Option<Seq<char>>,
) -> Seq<(Seq<char>, Seq<char>)> {
    user_field(USER_ID@, id) + user_field(USER_EMAIL@, email) + user_field(USER_NAME@, username)
}

/// The context of a record that is about to be sent. Later sources
/// overwrite earlier ones key by key: first what the record came with, then
/// the stored custom context, then the user fields under the key `user`
/// (left out when there are none), then the context given with the capture.
pub open spec fn merged_context(
    base: Map<Seq<char>, ContextValueView>,
    custom: Map<Seq<char>, ContextValueView>,
    user: Seq<(Seq<char>, Seq<char>)>,
    explicit: Option<Map<Seq<char>, ContextValueView>>,
) -> Map<Seq<char>, ContextValueView> {
    let with_custom = base.union_prefer_right(custom);
    let with_user = if user.len() > 0 {
        with_custom.insert(USER_KEY@, ContextValueView::Record(user))
    } else {
        with_custom
    };
    match explicit {
        Some(given) => with_user.union_prefer_right(given),
        None => with_user,
    }
}

/// In a merged context, a key of the explicit context holds the explicit
/// value; the key `user` otherwise holds the user fields if there are any;
/// any other key holds the custom value if the custom context has it, and
/// else what the record came with.
pub proof fn context_precedence(
    base: Map<Seq<char>, ContextValueView>,
    custom: Map<Seq<char>, ContextValueView>,
    user: Seq<(Seq<char>, Seq<char>)>,
    explicit: Option<Map<Seq<char>, ContextValueView>>,
    key: Seq<char>,
)
    ensures
        ({
            let merged = merged_context(base, custom, user, explicit);
            let given = match explicit {
                Some(given) => given,
                None => Map::empty(),
            };
            &&& merged.contains_key(key) == (given.contains_key(key) || (key == USER_KEY@
                && user.len() > 0) || custom.contains_key(key) || base.contains_key(key))
            &&& given.contains_key(key) ==> merged[key] == given[key]
            &&& !given.contains_key(key) && key == USER_KEY@ && user.len() > 0 ==> merged[key]
                == ContextValueView::Record(user)
            &&& !given.contains_key(key) && !(key == USER_KEY@ && user.len() > 0)
                && custom.contains_key(key) ==> merged[key] == custom[key]
            &&& !given.contains_key(key) && !(key == USER_KEY@ && user.len() > 0)
                && !custom.contains_key(key) && base.contains_key(key) ==> merged[key]
                == base[key]
        }),
{
}

/// Whatever user was stored before, after `set_user` only the fields that
/// were given are left: a call that gives the e-mail address alone leaves
/// that one field.
pub proof fn user_is_replaced(email: Seq<char>)
    ensures
        user_fields(None, Some(email), None) == seq![(USER_EMAIL@, email)],
        user_fields(None, None, None).len() == 0,
{
}

/// The text that names the origin of an abort: file, line and column,
/// separated by colons.
pub open spec fn location_text(file: Seq<char>, line: u32, column: u32) -> Seq<char> {
    file + seq![':'] + decimal(line as nat) + seq![':'] + decimal(column as nat)
}

/// Names the origin of an abort.
pub fn panic_location(file: &str, line: u32, column: u32) -> (place: String)
    ensures
        place@ == location_text(file@, line, column),
{
    let mut place = String::from_str(file);
    place.append(":");
    push_decimal(&mut place, line);
    place.append(":");
    push_decimal(&mut place, column);
    proof {
        reveal_strlit(":");
    }
    place
}

/// The message of an abort: the text of its payload, or a fixed message
/// when the payload is not a text.
pub fn panic_message(payload: Option<&str>) -> (message: String)
    ensures
        message@ == match payload {
            Some(text) => text@,
            None => DEFAULT_PANIC_MESSAGE@,
        },
{
    match payload {
        Some(text) => String::from_str(text),
        None => String::from_str(DEFAULT_PANIC_MESSAGE),
    }
}

/// Appends a user field if its text is given.
fn push_user_field(fields: &mut Vec<Field>, name: &str, text: Option<&str>)
    ensures
        field_views(final(fields)@) == field_views(old(fields)@) + user_field(
            name@,
            str_view(text),
        ),
{
    match text {
        Some(t) => {
            let field = Field { name: String::from_str(name), text: String::from_str(t) };
            fields.push(field);
        },
        None => {
        },
    }
}

/// Writes the stored custom context, the user fields and the explicit
/// context into the context of a record, in this order.
pub fn merge_context(
    context: &mut Context,
    custom: &Context,
    user: &Vec<Field>,
    explicit: Option<Context>,
)
    ensures
        final(context)@ == merged_context(
            old(context)@,
            custom@,
            field_views(user@),
            context_view(explicit),
        ),
{
    context.extend(custom);
    if user.len() > 0 {
        let mut copy: Vec<Field> = Vec::new();
        let mut i: usize = 0;
        while i < user.len()
            invariant
                i <= user.len(),
                field_views(copy@) == field_views(user@).take(i as int),
            decreases user.len() - i,
        {
            let ghost before = field_views(copy@);
            let field = Field { name: user[i].name.clone(), text: user[i].text.clone() };
            copy.push(field);
            assert(field_views(copy@) =~= before.push((field.name@, field.text@)));
            i += 1;
        }
        assert(field_views(user@).take(i as int) =~= field_views(user@));
        context.insert(String::from_str(USER_KEY), ContextValue::Record(copy));
    }
    match explicit {
        Some(given) => {
            context.extend(&given);
        },
        None => {},
    }
}

/// How an agent started.
#[derive(Clone, Debug)]
pub enum StartOutcome {
    /// The configuration holds no API key: nothing was started.
    MissingApiKey,
    /// The backend address is not a URL, or the connection was not free to
    /// open: nothing was started.
    NotConnecting,
    /// A connection to this endpoint is to be opened.
    Connecting { endpoint: String },
}

/// What a start outcome says, as plain text.
pub enum StartOutcomeView {
    MissingApiKey,
    NotConnecting,
    Connecting { endpoint: Seq<char> },
}

impl View for StartOutcome {
    type V = StartOutcomeView;

    open spec fn view(&self) -> StartOutcomeView {
        match self {
            StartOutcome::MissingApiKey => StartOutcomeView::MissingApiKey,
            StartOutcome::NotConnecting => StartOutcomeView::NotConnecting,
            StartOutcome::Connecting { endpoint } => StartOutcomeView::Connecting {
                endpoint: endpoint@,
            },
        }
    }
}

/// The main monitoring agent.
#[derive(Debug)]
pub struct Agent {
    config: Config,
    connection: Connection,
    custom_context: Context,
    user: Vec<Field>,
    seed: u64,
}

/// The agent as its operations see it.
pub struct AgentView {
    pub config: ConfigView,
    pub connection: ConnectionView,
    pub custom_context: Map<Seq<char>, ContextValueView>,
    pub user: Seq<(Seq<char>, Seq<char>)>,
    pub seed: u64,
}

impl View for Agent {
    type V = AgentView;

    closed spec fn view(&self) -> AgentView {
        AgentView {
            config: self.config@,
            connection: self.connection@,
            custom_context: self.custom_context@,
            user: field_views(self.user@),
            seed: self.seed,
        }
    }
}

/// The agent after a start, and what the start came to.
pub open spec fn started(agent: AgentView) -> (AgentView, StartOutcomeView) {
    if agent.config.api_key.len() == 0 {
        (agent, StartOutcomeView::MissingApiKey)
    } else {
        match endpoint_of(agent.config.backend_url) {
            Some(endpoint) => {
                let (connection, action) = step(
                    agent.connection,
                    TransportEvent::ConnectDue,
                    agent.config,
                );
                (
                    AgentView { connection, ..agent },
                    if action == TransportAction::Open {
                        StartOutcomeView::Connecting { endpoint }
                    } else {
                        StartOutcomeView::NotConnecting
                    },
                )
            },
            None => (agent, StartOutcomeView::NotConnecting),
        }
    }
}

/// The record that a capture of an error hands to the transport.
pub open spec fn is_error_record(
    record: ExceptionCaptureView,
    agent: AgentView,
    qualified_type: Seq<char>,
    message: Seq<char>,
    explicit: Option<Map<Seq<char>, ContextValueView>>,
) -> bool {
    &&& record == record_of(
        record.id,
        last_segment(qualified_type, "::"@),
        message,
        record.stack_trace,
        merged_context(Map::empty(), agent.custom_context, agent.user, explicit),
        record.captured_at,
        agent.config.agent_id,
        agent.config.environment,
        agent.config.runtime,
    )
    &&& freshly_captured(record)
}

impl Agent {
    /// Creates a new agent with the given configuration. Its sampling state
    /// starts from the clock.
    pub fn new(config: Config) -> (agent: Agent)
        ensures
            agent@.config == config@,
            agent@.connection == fresh_connection(),
            agent@.custom_context == Map::<Seq<char>, ContextValueView>::empty(),
            agent@.user == Seq::<(Seq<char>, Seq<char>)>::empty(),
    {
        let seed = unix_millis() as u64;
        Agent::with_seed(config, seed)
    }

    /// Creates a new agent whose sampling state starts from `seed`.
    pub fn with_seed(config: Config, seed: u64) -> (agent: Agent)
        ensures
            agent@ == (AgentView {
                config: config@,
                connection: fresh_connection(),
                custom_context: Map::empty(),
                user: Seq::empty(),
                seed,
            }),
    {
        let agent = Agent {
            config,
            connection: Connection::new(),
            custom_context: Context::new(),
            user: Vec::new(),
            seed,
        };
        assert(field_views(agent.user@) =~= Seq::empty());
        agent
    }

    /// The agent's configuration.
    pub fn config(&self) -> (config: &Config)
        ensures
            config@ == self@.config,
    {
        &self.config
    }

    /// The agent's connection.
    pub fn connection(&self) -> (connection: &Connection)
        ensures
            connection@ == self@.connection,
    {
        &self.connection
    }

    /// Takes a transport event for the agent's connection.
    pub fn handle(&mut self, event: TransportEvent) -> (action: TransportAction)
        ensures
            final(self)@ == (AgentView {
                connection: step(old(self)@.connection, event, old(self)@.config).0,
                ..old(self)@
            }),
            action == step(old(self)@.connection, event, old(self)@.config).1,
    {
        self.connection.handle(event, &self.config)
    }

    /// Takes one inbound wire text for the agent's connection.
    pub fn receive(&mut self, text: &str) -> (action: TransportAction)
        ensures
            final(self)@ == (AgentView {
                connection: received(old(self)@.connection, text@, old(self)@.config).0,
                ..old(self)@
            }),
            action == received(old(self)@.connection, text@, old(self)@.config).1,
    {
        self.connection.receive(text, &self.config)
    }

    /// Queues a heartbeat stamped with the current time, if the agent's
    /// connection is registered.
    pub fn send_heartbeat(&mut self) -> (accepted: bool)
        ensures
            accepted == (old(self)@.connection.state == ConnectionState::Registered),
            exists|now_ms: i64|
                #![trigger heartbeat_message(now_ms)]
                final(self)@ == (AgentView {
                    connection: offer(old(self)@.connection, heartbeat_message(now_ms)),
                    ..old(self)@
                }),
            !accepted ==> final(self)@ == old(self)@,
    {
        let accepted = self.connection.send_heartbeat();
        proof {
            let now_ms = choose|now_ms: i64|
                #![trigger heartbeat_message(now_ms)]
                self.connection@ == offer(old(self)@.connection, heartbeat_message(now_ms));
        }
        accepted
    }

    /// Hands out the oldest message that waits on the agent's connection.
    pub fn next_outbound(&mut self) -> (message: Option<OutgoingMessage>)
        ensures
            match message {
                Some(m) => {
                    &&& old(self)@.connection.state == ConnectionState::Registered
                    &&& old(self)@.connection.outbound.len() > 0
                    &&& m@ == old(self)@.connection.outbound[0]
                    &&& final(self)@ == (AgentView {
                        connection: ConnectionView {
                            outbound: old(self)@.connection.outbound.skip(1),
                            ..old(self)@.connection
                        },
                        ..old(self)@
                    })
                },
                None => {
                    &&& old(self)@.connection.state != ConnectionState::Registered || old(
                        self,
                    )@.connection.outbound.len() == 0
                    &&& final(self)@ == old(self)@
                },
            },
    {
        self.connection.next_outbound()
    }

    /// Starts the agent: without an API key nothing happens; otherwise a
    /// connection attempt to the configured backend is due.
    pub fn start(&mut self) -> (outcome: StartOutcome)
        ensures
            (final(self)@, outcome@) == started(old(self)@),
    {
        if self.config.api_key.as_str().is_empty() {
            return StartOutcome::MissingApiKey;
        }
        match self.connection.connect(&self.config) {
            Some(endpoint) => StartOutcome::Connecting { endpoint },
            None => StartOutcome::NotConnecting,
        }
    }

    /// Stops the agent: its connection is closing from now on.
    pub fn stop(&mut self) -> (action: TransportAction)
        ensures
            final(self)@ == (AgentView {
                connection: step(
                    old(self)@.connection,
                    TransportEvent::Stop,
                    old(self)@.config,
                ).0,
                ..old(self)@
            }),
            action == step(old(self)@.connection, TransportEvent::Stop, old(self)@.config).1,
            final(self)@.connection.state == ConnectionState::Closing,
    {
        self.connection.disconnect(&self.config)
    }

    /// Sets custom context: the stored mapping is replaced as a whole.
    pub fn set_context(&mut self, context: Context)
        ensures
            final(self)@ == (AgentView { custom_context: context@, ..old(self)@ }),
    {
        self.custom_context = context;
    }

    /// Sets user information: the stored user is cleared, and only the
    /// fields that are given are kept.
    pub fn set_user(&mut self, id: Option<&str>, email: Option<&str>, username: Option<&str>)
        ensures
            final(self)@ == (AgentView {
                user: user_fields(
                    str_view(id),
                    str_view(email),
                    str_view(username),
                ),
                ..old(self)@
            }),
    {
        let mut user: Vec<Field> = Vec::new();
        push_user_field(&mut user, USER_ID, id);
        push_user_field(&mut user, USER_EMAIL, email);
        push_user_field(&mut user, USER_NAME, username);
        self.user = user;
    }

    /// Completes a record with the stored context, the user and the
    /// explicit context, and offers it to the connection with the given
    /// time stamp.
    pub fn deliver(
        &mut self,
        record: ExceptionCapture,
        context: Option<Context>,
        now_ms: i64,
    ) -> (accepted: bool)
        ensures
            accepted == (old(self)@.connection.state == ConnectionState::Registered),
            final(self)@ == (AgentView {
                connection: offer(
                    old(self)@.connection,
                    exception_message(
                        ExceptionCaptureView {
                            context: merged_context(
                                record@.context,
                                old(self)@.custom_context,
                                old(self)@.user,
                                context_view(context),
                            ),
                            ..record@
                        },
                        now_ms,
                    ),
                ),
                ..old(self)@
            }),
    {
        let mut record = record;
        merge_context(&mut record.context, &self.custom_context, &self.user, context);
        self.connection.enqueue(OutgoingMessage::exception(record, now_ms))
    }

    /// Captures an error. The sampling decision comes first: an event that
    /// is not sampled leaves the connection untouched. A sampled event
    /// becomes a record of the calling thread's stack, completed with the
    /// stored context, the user and the explicit context, and is offered to
    /// the connection, which queues it only while registered.
    pub fn capture_error(
        &mut self,
        qualified_type: &str,
        message: &str,
        context: Option<Context>,
    ) -> (accepted: bool)
        ensures
            final(self)@.config == old(self)@.config,
            final(self)@.custom_context == old(self)@.custom_context,
            final(self)@.user == old(self)@.user,
            final(self)@.seed == seed_after(old(self)@.config.sampling_rate, old(self)@.seed),
            accepted == (sampled(old(self)@.config.sampling_rate, xorshift(old(self)@.seed))
                && old(self)@.connection.state == ConnectionState::Registered),
            old(self)@.config.sampling_rate >= SAMPLING_RATE_ALL ==> accepted == (old(
                self,
            )@.connection.state == ConnectionState::Registered),
            old(self)@.config.sampling_rate == 0 ==> !accepted,
            !accepted ==> final(self)@.connection == old(self)@.connection,
            accepted ==> exists|record: ExceptionCaptureView, now_ms: i64|
                #![trigger exception_message(record, now_ms)]
                {
                    &&& is_error_record(
                        record,
                        old(self)@,
                        qualified_type@,
                        message@,
                        context_view(context),
                    )
                    &&& final(self)@.connection == offer(
                        old(self)@.connection,
                        exception_message(record, now_ms),
                    )
                },
    {
        if !self.config.should_sample(&mut self.seed) {
            return false;
        }
        let record = capture_error(qualified_type, message, &self.config);
        let now_ms = unix_millis();
        self.deliver(record, context, now_ms)
    }

    /// Captures an abort: a record of kind `panic` with the abort marker
    /// and, where given, its origin is offered to the connection. Aborts are
    /// not sampled and take no stored context.
    pub fn capture_panic(&mut self, message: &str, location: Option<String>) -> (accepted: bool)
        ensures
            accepted == (old(self)@.connection.state == ConnectionState::Registered),
            !accepted ==> final(self)@ == old(self)@,
            exists|record: ExceptionCaptureView, now_ms: i64|
                #![trigger exception_message(record, now_ms)]
                {
                    &&& record == record_of(
                        record.id,
                        PANIC_KIND@,
                        message@,
                        record.stack_trace,
                        panic_context(text_view(location)),
                        record.captured_at,
                        old(self)@.config.agent_id,
                        old(self)@.config.environment,
                        old(self)@.config.runtime,
                    )
                    &&& freshly_captured(record)
                    &&& final(self)@ == (AgentView {
                        connection: offer(
                            old(self)@.connection,
                            exception_message(record, now_ms),
                        ),
                        ..old(self)@
                    })
                },
    {
        let record = capture_panic(message, location, &self.config);
        let now_ms = unix_millis();
        self.connection.enqueue(OutgoingMessage::exception(record, now_ms))
    }
}

} // verus!
