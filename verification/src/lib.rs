//! In-process telemetry agent: turns runtime failures into fingerprinted
//! diagnostic records and decides how they travel to a remote collector.
//!
//! The agent of a process lives in a [`Registry`]; the functions of this
//! module work on the agent that the registry holds, and do nothing while it
//! holds none.

pub mod agent;
pub mod capture;
pub mod config;
pub mod context;
pub mod digest;
pub mod fingerprint;
pub mod inbound;
pub mod machine;
pub mod sequences;
pub mod text;
pub mod transport;

pub use agent::Agent;
pub use capture::ExceptionCapture;
pub use config::Config;

use agent::{is_error_record, started, user_fields, AgentView, StartOutcome, StartOutcomeView};
use capture::{
    freshly_captured, panic_context, record_of, text_view, ExceptionCaptureView, PANIC_KIND,
};
use config::{sampled, seed_after, xorshift};
use context::{str_view, Context, ContextValueView};
use transport::{
    exception_message, fresh_connection, heartbeat_message, offer, received, step,
    ConnectionState, ConnectionView, OutgoingMessage, TransportAction, TransportEvent,
};
use vstd::prelude::*;

verus! {

/// The place where a process keeps its one agent.
#[derive(Debug)]
pub struct Registry {
    agent: Option<Agent>,
}

impl View for Registry {
    type V = Option<AgentView>;

    closed spec fn view(&self) -> Option<AgentView> {
        match self.agent {
            Some(agent) => Some(agent@),
            None => None,
        }
    }
}

/// How an initialization ended.
#[derive(Clone, Debug)]
pub enum InitOutcome {
    /// The registry already held an agent; it was left as it was.
    AlreadyInitialized,
    /// The registry holds a new agent, which started in this way.
    Initialized(StartOutcome),
}

/// What an initialization outcome says, as plain values.
pub enum InitOutcomeView {
    AlreadyInitialized,
    Initialized(StartOutcomeView),
}

impl View for InitOutcome {
    type V = InitOutcomeView;

    open spec fn view(&self) -> InitOutcomeView {
        match self {
            InitOutcome::AlreadyInitialized => InitOutcomeView::AlreadyInitialized,
            InitOutcome::Initialized(outcome) => InitOutcomeView::Initialized(outcome@),
        }
    }
}

impl Registry {
    /// A registry that holds no agent.
    pub fn new() -> (registry: Registry)
        ensures
            registry@ is None,
    {
        Registry { agent: None }
    }

    /// Whether the registry holds an agent.
    pub fn is_initialized(&self) -> (initialized: bool)
        ensures
            initialized == (self@ is Some),
    {
        self.agent.is_some()
    }

    /// The agent that the registry holds.
    pub fn agent(&self) -> (agent: Option<&Agent>)
        ensures
            match agent {
                Some(held) => self@ == Some(held@),
                None => self@ is None,
            },
    {
        match &self.agent {
            Some(held) => Some(held),
            None => None,
        }
    }

    /// Hands out the oldest message that waits on the connection of the
    /// agent, if there is an agent and a message.
    pub fn next_outbound(&mut self) -> (message: Option<OutgoingMessage>)
        ensures
            match message {
                Some(m) => {
                    &&& old(self)@ is Some
                    &&& old(self)@->0.connection.state == ConnectionState::Registered
                    &&& old(self)@->0.connection.outbound.len() > 0
                    &&& m@ == old(self)@->0.connection.outbound[0]
                    &&& final(self)@ == Some(
                        AgentView {
                            connection: ConnectionView {
                                outbound: old(self)@->0.connection.outbound.skip(1),
                                ..old(self)@->0.connection
                            },
                            ..old(self)@->0
                        },
                    )
                },
                None => {
                    &&& final(self)@ == old(self)@
                    &&& old(self)@ matches Some(agent) ==> agent.connection.state
                        != ConnectionState::Registered || agent.connection.outbound.len() == 0
                },
            },
    {
        match self.agent.take() {
            Some(mut held) => {
                let message = held.next_outbound();
                self.agent = Some(held);
                message
            },
            None => None,
        }
    }

    /// Queues a heartbeat on the connection of the agent, if there is an
    /// agent and its connection is registered.
    pub fn send_heartbeat(&mut self) -> (accepted: bool)
        ensures
            accepted == (old(self)@ matches Some(agent) && agent.connection.state
                == ConnectionState::Registered),
            !accepted ==> final(self)@ == old(self)@,
            accepted ==> exists|now_ms: i64|
                #![trigger heartbeat_message(now_ms)]
                final(self)@ == Some(
                    AgentView {
                        connection: offer(old(self)@->0.connection, heartbeat_message(now_ms)),
                        ..old(self)@->0
                    },
                ),
    {
        match self.agent.take() {
            Some(mut held) => {
                let accepted = held.send_heartbeat();
                self.agent = Some(held);
                accepted
            },
            None => false,
        }
    }

    /// Takes one inbound wire text for the connection of the agent, if any.
    pub fn receive(&mut self, text: &str) -> (action: TransportAction)
        ensures
            match old(self)@ {
                Some(before) => {
                    &&& final(self)@ == Some(
                        AgentView {
                            connection: received(before.connection, text@, before.config).0,
                            ..before
                        },
                    )
                    &&& action == received(before.connection, text@, before.config).1
                },
                None => final(self)@ is None && action == TransportAction::Idle,
            },
    {
        match self.agent.take() {
            Some(mut held) => {
                let action = held.receive(text);
                self.agent = Some(held);
                action
            },
            None => TransportAction::Idle,
        }
    }

    /// Takes a transport event for the connection of the agent, if any.
    pub fn handle(&mut self, event: TransportEvent) -> (action: TransportAction)
        ensures
            match old(self)@ {
                Some(before) => {
                    &&& final(self)@ == Some(
                        AgentView {
                            connection: step(before.connection, event, before.config).0,
                            ..before
                        },
                    )
                    &&& action == step(before.connection, event, before.config).1
                },
                None => final(self)@ is None && action == TransportAction::Idle,
            },
    {
        match self.agent.take() {
            Some(mut held) => {
                let action = held.handle(event);
                self.agent = Some(held);
                action
            },
            None => TransportAction::Idle,
        }
    }
}

/// Initializes the agent of a registry. The first call puts a new agent
/// with the given configuration into the registry and starts it; a later
/// call changes nothing and reports that the registry was initialized
/// already.
pub fn init(registry: &mut Registry, config: Config) -> (outcome: InitOutcome)
    ensures
        old(registry)@ is Some ==> final(registry)@ == old(registry)@ && outcome@
            == InitOutcomeView::AlreadyInitialized,
        old(registry)@ is None ==> exists|created: AgentView|
            {
                &&& created.config == config@
                &&& created.connection == fresh_connection()
                &&& created.custom_context == Map::<Seq<char>, ContextValueView>::empty()
                &&& created.user == Seq::<(Seq<char>, Seq<char>)>::empty()
                &&& final(registry)@ == Some(started(created).0)
                &&& outcome@ == InitOutcomeView::Initialized(started(created).1)
            },
{
    if registry.agent.is_some() {
        return InitOutcome::AlreadyInitialized;
    }
    let mut created = Agent::new(config);
    let outcome = created.start();
    registry.agent = Some(created);
    InitOutcome::Initialized(outcome)
}

/// Captures an error with context using the agent of a registry. Nothing
/// happens while the registry holds no agent.
pub fn capture_error_with_context(
    registry: &mut Registry,
    qualified_type: &str,
    message: &str,
    context: Context,
) -> (accepted: bool)
    ensures
        captured(
            old(registry)@,
            final(registry)@,
            qualified_type@,
            message@,
            Some(context@),
            accepted,
        ),
{
    match registry.agent.take() {
        Some(mut held) => {
            let accepted = held.capture_error(qualified_type, message, Some(context));
            registry.agent = Some(held);
            accepted
        },
        None => false,
    }
}

/// Captures an error using the agent of a registry. Nothing happens while
/// the registry holds no agent.
pub fn capture_error(registry: &mut Registry, qualified_type: &str, message: &str) -> (accepted:
    bool)
    ensures
        captured(old(registry)@, final(registry)@, qualified_type@, message@, None, accepted),
{
    match registry.agent.take() {
        Some(mut held) => {
            let accepted = held.capture_error(qualified_type, message, None);
            registry.agent = Some(held);
            accepted
        },
        None => false,
    }
}

/// What a capture through a registry does. Without an agent nothing
/// changes. With one, the event is accepted exactly when it is sampled and
/// the connection is registered; then a record of the error, completed with
/// the stored context, the user and the explicit context, is queued last.
/// In every other case the connection is as it was.
pub open spec fn captured(
    before: Option<AgentView>,
    after: Option<AgentView>,
    qualified_type: Seq<char>,
    message: Seq<char>,
    explicit: Option<Map<Seq<char>, ContextValueView>>,
    accepted: bool,
) -> bool {
    match before {
        None => after is None && !accepted,
        Some(agent) => {
            &&& after is Some
            &&& after->0.config == agent.config
            &&& after->0.custom_context == agent.custom_context
            &&& after->0.user == agent.user
            &&& after->0.seed == seed_after(agent.config.sampling_rate, agent.seed)
            &&& accepted == (sampled(agent.config.sampling_rate, xorshift(agent.seed))
                && agent.connection.state == ConnectionState::Registered)
            &&& !accepted ==> after->0.connection == agent.connection
            &&& accepted ==> exists|record: ExceptionCaptureView, now_ms: i64|
                #![trigger exception_message(record, now_ms)]
                {
                    &&& is_error_record(record, agent, qualified_type, message, explicit)
                    &&& after->0.connection == offer(
                        agent.connection,
                        exception_message(record, now_ms),
                    )
                }
        },
    }
}

/// Captures an abort using the agent of a registry: a record of kind
/// `panic` is offered to the agent's connection. Nothing happens while the
/// registry holds no agent.
pub fn capture_panic(registry: &mut Registry, message: &str, location: Option<String>) -> (accepted:
    bool)
    ensures
        accepted == (old(registry)@ matches Some(agent) && agent.connection.state
            == ConnectionState::Registered),
        !accepted ==> final(registry)@ == old(registry)@,
        accepted ==> exists|record: ExceptionCaptureView, now_ms: i64|
            #![trigger exception_message(record, now_ms)]
            {
                &&& record == record_of(
                    record.id,
                    PANIC_KIND@,
                    message@,
                    record.stack_trace,
                    panic_context(text_view(location)),
                    record.captured_at,
                    old(registry)@->0.config.agent_id,
                    old(registry)@->0.config.environment,
                    old(registry)@->0.config.runtime,
                )
                &&& freshly_captured(record)
                &&& final(registry)@ == Some(
                    AgentView {
                        connection: offer(
                            old(registry)@->0.connection,
                            exception_message(record, now_ms),
                        ),
                        ..old(registry)@->0
                    },
                )
            },
{
    match registry.agent.take() {
        Some(mut held) => {
            let accepted = held.capture_panic(message, location);
            registry.agent = Some(held);
            accepted
        },
        None => false,
    }
}

/// Sets custom context using the agent of a registry.
pub fn set_context(registry: &mut Registry, context: Context)
    ensures
        final(registry)@ == match old(registry)@ {
            Some(agent) => Some(AgentView { custom_context: context@, ..agent }),
            None => None,
        },
{
    match registry.agent.take() {
        Some(mut held) => {
            held.set_context(context);
            registry.agent = Some(held);
        },
        None => {},
    }
}

/// Sets user information using the agent of a registry.
pub fn set_user(
    registry: &mut Registry,
    id: Option<&str>,
    email: Option<&str>,
    username: Option<&str>,
)
    ensures
        final(registry)@ == match old(registry)@ {
            Some(agent) => Some(
                AgentView {
                    user: user_fields(str_view(id), str_view(email), str_view(username)),
                    ..agent
                },
            ),
            None => None,
        },
{
    match registry.agent.take() {
        Some(mut held) => {
            held.set_user(id, email, username);
            registry.agent = Some(held);
        },
        None => {},
    }
}

/// Shuts down the agent of a registry: its connection is closing from now
/// on. The agent stays in the registry.
pub fn shutdown(registry: &mut Registry) -> (action: TransportAction)
    ensures
        match old(registry)@ {
            Some(agent) => {
                &&& final(registry)@ == Some(
                    AgentView {
                        connection: step(agent.connection, TransportEvent::Stop, agent.config).0,
                        ..agent
                    },
                )
                &&& action == step(agent.connection, TransportEvent::Stop, agent.config).1
                &&& final(registry)@->0.connection.state == ConnectionState::Closing
            },
            None => final(registry)@ is None && action == TransportAction::Idle,
        },
{
    match registry.agent.take() {
        Some(mut held) => {
            let action = held.stop();
            registry.agent = Some(held);
            action
        },
        None => TransportAction::Idle,
    }
}

} // verus!
