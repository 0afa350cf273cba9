//! Bringing a channel up: the order in which the broker is asked for an
//! environment, the stream, a producer and a consumer, and what each answer
//! means for the connection.
//!
//! The machine here decides; its driver performs each [`SetupAction`] against
//! the broker and reports the answer as a [`SetupEvent`]. A connection is
//! never retried: once setup has failed, a new one has to be started.
use vstd::prelude::*;
use crate::channel::ChannelConfiguration;
use crate::error::AnyError;

verus! {

/// The retention that a stream is created with: one gibibyte.
pub const STREAM_MAX_LENGTH_BYTES: u64 = 1_073_741_824;

/// What the broker answered to the request to create the stream.
#[derive(Debug, PartialEq, Eq)]
pub enum StreamCreation {
    /// The stream did not exist and has been created.
    Created,
    /// The stream was there already.
    AlreadyExists,
    /// The broker refused with another response code, rendered here.
    Refused(String),
    /// The request itself failed, as rendered here.
    Failed(String),
}

/// An answer of the broker to the action that setup asked for last.
#[derive(Debug, PartialEq, Eq)]
pub enum SetupEvent {
    EnvironmentOpened,
    EnvironmentFailed(String),
    StreamAnswered(StreamCreation),
    ProducerOpened,
    ProducerFailed(AnyError),
    ConsumerOpened,
    ConsumerFailed(AnyError),
}

/// What the driver has to ask of the broker next.
#[derive(Debug, PartialEq, Eq)]
pub enum SetupAction {
    OpenEnvironment { host: String, port: u16 },
    CreateStream { stream_name: String, max_length_bytes: u64 },
    OpenProducer { stream_name: String },
    OpenConsumer { stream_name: String },
}

/// A [`SetupAction`] as mathematical values.
pub enum SetupActionView {
    OpenEnvironment { host: Seq<char>, port: u16 },
    CreateStream { stream_name: Seq<char>, max_length_bytes: u64 },
    OpenProducer { stream_name: Seq<char> },
    OpenConsumer { stream_name: Seq<char> },
}

impl View for SetupAction {
    type V = SetupActionView;

    open spec fn view(&self) -> SetupActionView {
        match *self {
            SetupAction::OpenEnvironment { host, port } => SetupActionView::OpenEnvironment {
                host: host@,
                port,
            },
            SetupAction::CreateStream {
                stream_name,
                max_length_bytes,
            } => SetupActionView::CreateStream { stream_name: stream_name@, max_length_bytes },
            SetupAction::OpenProducer { stream_name } => SetupActionView::OpenProducer {
                stream_name: stream_name@,
            },
            SetupAction::OpenConsumer { stream_name } => SetupActionView::OpenConsumer {
                stream_name: stream_name@,
            },
        }
    }
}

/// Why a connection could not be set up.
#[derive(Debug, PartialEq, Eq)]
pub enum SetupFailure {
    /// No environment, or no stream to work on.
    Environment(String),
    Producer(AnyError),
    Consumer(AnyError),
}

/// How far an unfinished setup has come: the answer it is waiting for.
#[derive(Debug, Clone, Copy, PartialEq, Eq, Structural)]
pub enum SetupPhase {
    /// Nothing is open yet; the environment has been asked for.
    Uninitialized,
    /// The environment is open; the stream is being ensured.
    Provisioning,
    /// The stream exists; the producer is being opened.
    OpeningProducer,
    /// The producer is open; the consumer is being opened.
    OpeningConsumer,
}

/// Where an event takes a setup that is in a given phase.
pub enum Transition {
    /// The event answers no question that was asked: nothing changes.
    Stay,
    Go(SetupPhase),
    Connect,
    Fail(SetupFailure),
}

/// The transition relation of connection setup.
pub open spec fn transition(phase: SetupPhase, event: SetupEvent) -> Transition {
    match (phase, event) {
        (SetupPhase::Uninitialized, SetupEvent::EnvironmentOpened) => Transition::Go(
            SetupPhase::Provisioning,
        ),
        (SetupPhase::Uninitialized, SetupEvent::EnvironmentFailed(reason)) => Transition::Fail(
            SetupFailure::Environment(reason),
        ),
        (SetupPhase::Provisioning, SetupEvent::StreamAnswered(answer)) => match answer {
            StreamCreation::Created => Transition::Go(SetupPhase::OpeningProducer),
            StreamCreation::AlreadyExists => Transition::Go(SetupPhase::OpeningProducer),
            StreamCreation::Refused(status) => Transition::Fail(SetupFailure::Environment(status)),
            StreamCreation::Failed(reason) => Transition::Fail(SetupFailure::Environment(reason)),
        },
        (SetupPhase::OpeningProducer, SetupEvent::ProducerOpened) => Transition::Go(
            SetupPhase::OpeningConsumer,
        ),
        (SetupPhase::OpeningProducer, SetupEvent::ProducerFailed(error)) => Transition::Fail(
            SetupFailure::Producer(error),
        ),
        (SetupPhase::OpeningConsumer, SetupEvent::ConsumerOpened) => Transition::Connect,
        (SetupPhase::OpeningConsumer, SetupEvent::ConsumerFailed(error)) => Transition::Fail(
            SetupFailure::Consumer(error),
        ),
        _ => Transition::Stay,
    }
}

/// The action that a phase waits on, for a channel at the given place.
pub open spec fn action_of(
    phase: SetupPhase,
    host: Seq<char>,
    port: u16,
    stream_name: Seq<char>,
) -> SetupActionView {
    match phase {
        SetupPhase::Uninitialized => SetupActionView::OpenEnvironment { host, port },
        SetupPhase::Provisioning => SetupActionView::CreateStream {
            stream_name,
            max_length_bytes: STREAM_MAX_LENGTH_BYTES,
        },
        SetupPhase::OpeningProducer => SetupActionView::OpenProducer { stream_name },
        SetupPhase::OpeningConsumer => SetupActionView::OpenConsumer { stream_name },
    }
}

/// A connection that was set up in full: environment, stream, producer and
/// consumer. Only a setup that succeeded hands one out.
#[derive(Debug, PartialEq, Eq)]
pub struct Connection {
    stream_name: String,
}

impl Connection {
    /// The stream that the producer and the consumer are bound to.
    pub closed spec fn stream_name(&self) -> Seq<char> {
        self.stream_name@
    }

    /// Gives up the connection for the name of its stream.
    pub fn into_stream_name(self) -> (stream_name: String)
        ensures
            stream_name@ == self.stream_name(),
    {
        self.stream_name
    }
}

/// A connection setup that is under way.
#[derive(Debug, PartialEq, Eq)]
pub struct ConnectionSetup {
    config: ChannelConfiguration,
    phase: SetupPhase,
}

/// Where a setup stands after an event.
#[derive(Debug, PartialEq, Eq)]
pub enum SetupStep {
    /// More is to be done: perform the setup's pending action.
    Pending(ConnectionSetup),
    Connected(Connection),
    Failed(SetupFailure),
}

impl ConnectionSetup {
    /// The phase that the setup is in.
    pub closed spec fn phase(&self) -> SetupPhase {
        self.phase
    }

    /// The channel that is being set up.
    pub closed spec fn config(&self) -> ChannelConfiguration {
        self.config
    }

    /// Starts the setup of a channel; nothing is open yet.
    pub fn new(config: ChannelConfiguration) -> (setup: ConnectionSetup)
        ensures
            setup.phase() == SetupPhase::Uninitialized,
            setup.config() == config,
    {
        ConnectionSetup { config, phase: SetupPhase::Uninitialized }
    }

    /// The request that the broker has to answer before setup can go on.
    pub fn pending_action(&self) -> (action: SetupAction)
        ensures
            action@ == action_of(
                self.phase(),
                self.config().host@,
                self.config().port,
                self.config().stream_name@,
            ),
    {
        match self.phase {
            SetupPhase::Uninitialized => SetupAction::OpenEnvironment {
                host: self.config.host.clone(),
                port: self.config.port,
            },
            SetupPhase::Provisioning => SetupAction::CreateStream {
                stream_name: self.config.stream_name.clone(),
                max_length_bytes: STREAM_MAX_LENGTH_BYTES,
            },
            SetupPhase::OpeningProducer => SetupAction::OpenProducer {
                stream_name: self.config.stream_name.clone(),
            },
            SetupPhase::OpeningConsumer => SetupAction::OpenConsumer {
                stream_name: self.config.stream_name.clone(),
            },
        }
    }

    /// Takes in the broker's answer. An answer to a question that was not the
    /// pending one changes nothing.
    pub fn advance(self, event: SetupEvent) -> (step: SetupStep)
        ensures
            match transition(self.phase(), event) {
                Transition::Stay => step == SetupStep::Pending(self),
                Transition::Go(phase) => step matches SetupStep::Pending(next) && next.phase()
                    == phase && next.config() == self.config(),
                Transition::Connect => step matches SetupStep::Connected(connection)
                    && connection.stream_name() == self.config().stream_name@,
                Transition::Fail(failure) => step == SetupStep::Failed(failure),
            },
    {
        match (self.phase, event) {
            (SetupPhase::Uninitialized, SetupEvent::EnvironmentOpened) => SetupStep::Pending(
                ConnectionSetup { config: self.config, phase: SetupPhase::Provisioning },
            ),
            (SetupPhase::Uninitialized, SetupEvent::EnvironmentFailed(reason)) => SetupStep::Failed(
                SetupFailure::Environment(reason),
            ),
            (SetupPhase::Provisioning, SetupEvent::StreamAnswered(answer)) => match answer {
                StreamCreation::Created | StreamCreation::AlreadyExists => SetupStep::Pending(
                    ConnectionSetup { config: self.config, phase: SetupPhase::OpeningProducer },
                ),
                StreamCreation::Refused(status) => SetupStep::Failed(
                    SetupFailure::Environment(status),
                ),
                StreamCreation::Failed(reason) => SetupStep::Failed(
                    SetupFailure::Environment(reason),
                ),
            },
            (SetupPhase::OpeningProducer, SetupEvent::ProducerOpened) => SetupStep::Pending(
                ConnectionSetup { config: self.config, phase: SetupPhase::OpeningConsumer },
            ),
            (SetupPhase::OpeningProducer, SetupEvent::ProducerFailed(error)) => SetupStep::Failed(
                SetupFailure::Producer(error),
            ),
            (SetupPhase::OpeningConsumer, SetupEvent::ConsumerOpened) => SetupStep::Connected(
                Connection { stream_name: self.config.stream_name },
            ),
            (SetupPhase::OpeningConsumer, SetupEvent::ConsumerFailed(error)) => SetupStep::Failed(
                SetupFailure::Consumer(error),
            ),
            _ => SetupStep::Pending(self),
        }
    }
}

/// How a setup ends.
pub enum SetupEnd {
    /// The events ran out before the setup was through.
    Unfinished(SetupPhase),
    Connected,
    Failed(SetupFailure),
}

/// Where a setup in `phase` stands after `events`, taken in order. The
/// first event that ends the setup decides: there is no way back from a
/// connection or a failure.
pub open spec fn setup_run(phase: SetupPhase, events: Seq<SetupEvent>) -> SetupEnd
    decreases events.len(),
{
    if events.len() == 0 {
        SetupEnd::Unfinished(phase)
    } else {
        match transition(phase, events[0]) {
            Transition::Stay => setup_run(phase, events.skip(1)),
            Transition::Go(next) => setup_run(next, events.skip(1)),
            Transition::Connect => SetupEnd::Connected,
            Transition::Fail(failure) => SetupEnd::Failed(failure),
        }
    }
}

/// Provisioning is idempotent: in every phase, the answer that the stream
/// is there already leads where the answer that it was created leads.
pub proof fn existing_stream_is_provisioned(phase: SetupPhase)
    ensures
        transition(phase, SetupEvent::StreamAnswered(StreamCreation::AlreadyExists)) == transition(
            phase,
            SetupEvent::StreamAnswered(StreamCreation::Created),
        ),
{
}

/// A setup connects once the environment, the stream, the producer and the
/// consumer have succeeded in this order, whether the stream was created
/// or was there already; nothing that follows changes that.
pub proof fn setup_connects(stream: StreamCreation, later: Seq<SetupEvent>)
    requires
        stream is Created || stream is AlreadyExists,
    ensures
        setup_run(
            SetupPhase::Uninitialized,
            seq![
                SetupEvent::EnvironmentOpened,
                SetupEvent::StreamAnswered(stream),
                SetupEvent::ProducerOpened,
                SetupEvent::ConsumerOpened,
            ] + later,
        ) == SetupEnd::Connected,
{
    let events = seq![
        SetupEvent::EnvironmentOpened,
        SetupEvent::StreamAnswered(stream),
        SetupEvent::ProducerOpened,
        SetupEvent::ConsumerOpened,
    ] + later;
    let after_environment = events.skip(1);
    let after_stream = after_environment.skip(1);
    let after_producer = after_stream.skip(1);
    assert(events[0] == SetupEvent::EnvironmentOpened);
    assert(after_environment[0] == SetupEvent::StreamAnswered(stream));
    assert(after_stream[0] == SetupEvent::ProducerOpened);
    assert(after_producer[0] == SetupEvent::ConsumerOpened);
    assert(setup_run(SetupPhase::OpeningConsumer, after_producer) == SetupEnd::Connected);
    assert(setup_run(SetupPhase::OpeningProducer, after_stream) == SetupEnd::Connected);
    assert(setup_run(SetupPhase::Provisioning, after_environment) == SetupEnd::Connected);
}

/// The first failure ends a setup for good: whatever the broker answers
/// afterwards, the setup has failed with that failure.
pub proof fn setup_failure_is_final(phase: SetupPhase, event: SetupEvent, later: Seq<SetupEvent>)
    requires
        transition(phase, event) is Fail,
    ensures
        setup_run(phase, seq![event] + later) == SetupEnd::Failed(
            transition(phase, event)->Fail_0,
        ),
{
    assert((seq![event] + later)[0] == event);
}

} // verus!
