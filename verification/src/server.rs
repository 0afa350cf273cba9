//! The server role: receives calls, sends responses.
use std::marker::PhantomData;
use vstd::prelude::*;
use vstd::std_specs::convert::FromSpecImpl;
use vstd::string::*;
use crate::drain::{
    all_envelopes, arrived, receive, calls_of, Arrival, Drained, DrainedView, Polled,
};
use crate::error::AnyError;
use crate::message::{ManagerMessage, ManagerMessagePayload};
use crate::meta::{is_random_id, ManagerMeta};
use crate::pack::{packer_error_text, wrapped, Packer, PackerError};
use crate::payload::MessageQueuePayload;
use crate::setup::{Connection, SetupFailure};
use crate::transport::Outbound;

verus! {

/// Why an operation of a server failed.
#[derive(Debug, Clone, PartialEq, Eq)]
pub enum MessageQueueServerError {
    CreateEnvironment(String),
    CreateProducer(AnyError),
    CreateConsumer(AnyError),
    Send(AnyError),
    Receive(AnyError),
    Packer(PackerError),
}

pub type MessageQueueServerResult<T> = Result<T, MessageQueueServerError>;

impl From<PackerError> for MessageQueueServerError {
    fn from(error: PackerError) -> (lifted: MessageQueueServerError) {
        MessageQueueServerError::Packer(error)
    }
}

impl FromSpecImpl<PackerError> for MessageQueueServerError {
    open spec fn obeys_from_spec() -> bool {
        true
    }

    open spec fn from_spec(error: PackerError) -> MessageQueueServerError {
        MessageQueueServerError::Packer(error)
    }
}

/// The text shown for a server error.
pub open spec fn server_error_text(error: MessageQueueServerError) -> Seq<char> {
    match error {
        MessageQueueServerError::CreateEnvironment(reason) =>
            "Failed to create RabbitMQ environment: "@ + reason@,
        MessageQueueServerError::CreateProducer(cause) =>
            "Failed to create RabbitMQ stream producer: "@ + cause.context.message@,
        MessageQueueServerError::CreateConsumer(cause) =>
            "Failed to create RabbitMQ stream consumer: "@ + cause.context.message@,
        MessageQueueServerError::Send(cause) => "Failed to send message: "@
            + cause.context.message@,
        MessageQueueServerError::Receive(cause) => "Failed to receive message: "@
            + cause.context.message@,
        MessageQueueServerError::Packer(cause) => "Failed to process message: "@
            + packer_error_text(cause@),
    }
}

/// The server error that a failed setup comes to.
pub open spec fn server_setup_error(failure: SetupFailure) -> MessageQueueServerError {
    match failure {
        SetupFailure::Environment(reason) => MessageQueueServerError::CreateEnvironment(reason),
        SetupFailure::Producer(cause) => MessageQueueServerError::CreateProducer(cause),
        SetupFailure::Consumer(cause) => MessageQueueServerError::CreateConsumer(cause),
    }
}

impl From<SetupFailure> for MessageQueueServerError {
    fn from(failure: SetupFailure) -> (lifted: MessageQueueServerError) {
        match failure {
            SetupFailure::Environment(reason) => MessageQueueServerError::CreateEnvironment(reason),
            SetupFailure::Producer(cause) => MessageQueueServerError::CreateProducer(cause),
            SetupFailure::Consumer(cause) => MessageQueueServerError::CreateConsumer(cause),
        }
    }
}

impl FromSpecImpl<SetupFailure> for MessageQueueServerError {
    open spec fn obeys_from_spec() -> bool {
        true
    }

    open spec fn from_spec(failure: SetupFailure) -> MessageQueueServerError {
        server_setup_error(failure)
    }
}

impl MessageQueueServerError {
    /// The text shown for this error.
    pub fn to_string(&self) -> (text: String)
        ensures
            text@ == server_error_text(*self),
    {
        match self {
            MessageQueueServerError::CreateEnvironment(reason) => String::from_str(
                "Failed to create RabbitMQ environment: ",
            ).concat(reason.as_str()),
            MessageQueueServerError::CreateProducer(cause) => String::from_str(
                "Failed to create RabbitMQ stream producer: ",
            ).concat(cause.to_string().as_str()),
            MessageQueueServerError::CreateConsumer(cause) => String::from_str(
                "Failed to create RabbitMQ stream consumer: ",
            ).concat(cause.to_string().as_str()),
            MessageQueueServerError::Send(cause) => String::from_str(
                "Failed to send message: ",
            ).concat(cause.to_string().as_str()),
            MessageQueueServerError::Receive(cause) => String::from_str(
                "Failed to receive message: ",
            ).concat(cause.to_string().as_str()),
            MessageQueueServerError::Packer(cause) => String::from_str(
                "Failed to process message: ",
            ).concat(cause.to_string().as_str()),
        }
    }
}

/// Whether `envelope` wraps `response` as a fresh response from `origin`.
pub open spec fn response_envelope<TCall, TResponse>(
    envelope: ManagerMessage<TCall, TResponse>,
    origin: Seq<char>,
    response: TResponse,
) -> bool {
    &&& envelope.payload == ManagerMessagePayload::<TCall, TResponse>::Response(response)
    &&& envelope.meta.origin@ == origin
    &&& envelope.meta.parent_id is None
    &&& is_random_id(envelope.meta.request_id)
}

/// Whether `result` is what sending comes to when the encoder ended in
/// `raw`: the bytes framed under `content_type`, or the packer's error.
pub open spec fn response_dispatched(
    content_type: Seq<char>,
    raw: Result<Vec<u8>, AnyError>,
    confirm: bool,
    result: MessageQueueServerResult<Outbound>,
) -> bool {
    match raw {
        Ok(bytes) => result matches Ok(outbound) && outbound.message@ == wrapped(
            content_type,
            bytes@,
        ) && outbound.confirm == confirm,
        Err(cause) => result == Err::<Outbound, MessageQueueServerError>(
            MessageQueueServerError::Packer(PackerError::Serialize(cause)),
        ),
    }
}

/// What one read attempt does to a server's drain: calls are kept, responses
/// are passed over, a pause ends the drain with what was kept and a failure
/// ends it with nothing but the failure.
pub open spec fn server_turn<TCall, TResponse>(
    kept: Seq<TCall>,
    arrival: Arrival<TCall, TResponse>,
) -> DrainedView<TCall, MessageQueueServerError> {
    match arrival {
        Arrival::Envelope(envelope) => match envelope.payload {
            ManagerMessagePayload::Call(call) => DrainedView::More(kept.push(call)),
            ManagerMessagePayload::Response(_) => DrainedView::More(kept),
        },
        Arrival::Undecodable(error) => DrainedView::Done(
            Err(MessageQueueServerError::Packer(error)),
        ),
        Arrival::Failed(error) => DrainedView::Done(Err(MessageQueueServerError::Receive(error))),
        Arrival::Idle => DrainedView::Done(Ok(kept)),
        Arrival::Closed => DrainedView::Done(Ok(kept)),
    }
}

/// A whole drain of a server: the read attempts in order, up to the first
/// that ends it.
pub open spec fn server_drain<TCall, TResponse>(
    kept: Seq<TCall>,
    arrivals: Seq<Arrival<TCall, TResponse>>,
) -> DrainedView<TCall, MessageQueueServerError>
    decreases arrivals.len(),
{
    if arrivals.len() == 0 {
        DrainedView::More(kept)
    } else {
        match server_turn(kept, arrivals[0]) {
            DrainedView::More(more) => server_drain(more, arrivals.skip(1)),
            DrainedView::Done(end) => DrainedView::Done(end),
        }
    }
}

/// The server end of a channel, bound to one call type, one response type
/// and one packing strategy.
pub struct MessageQueueServer<TCall, TResponse, TPacker> {
    service_name: String,
    stream_name: String,
    _phantom_call: PhantomData<TCall>,
    _phantom_response: PhantomData<TResponse>,
    _phantom_packer: PhantomData<TPacker>,
}

impl<
    TCall: MessageQueuePayload,
    TResponse: MessageQueuePayload,
    TPacker: Packer,
> MessageQueueServer<TCall, TResponse, TPacker> {
    /// The name that this server's envelopes carry as their origin.
    pub closed spec fn service_name(&self) -> Seq<char> {
        self.service_name@
    }

    /// The stream that this server is bound to.
    pub closed spec fn stream_name(&self) -> Seq<char> {
        self.stream_name@
    }

    /// Makes the server of a connection that was set up, or says why there
    /// is none.
    pub fn new(service_name: String, connection: Result<Connection, SetupFailure>) -> (result:
        MessageQueueServerResult<Self>)
        ensures
            match connection {
                Ok(connection) => result matches Ok(server) && server.service_name() == service_name@
                    && server.stream_name() == connection.stream_name(),
                Err(failure) => result == Err::<Self, MessageQueueServerError>(
                    server_setup_error(failure),
                ),
            },
    {
        match connection {
            Ok(connection) => Ok(
                MessageQueueServer {
                    service_name,
                    stream_name: connection.into_stream_name(),
                    _phantom_call: PhantomData,
                    _phantom_response: PhantomData,
                    _phantom_packer: PhantomData,
                },
            ),
            Err(failure) => Err(MessageQueueServerError::from(failure)),
        }
    }

    /// Wraps a response in an envelope with a fresh identity from this
    /// server.
    pub fn pack_response(&self, response: TResponse) -> (envelope: ManagerMessage<TCall, TResponse>)
        ensures
            response_envelope(envelope, self.service_name(), response),
    {
        ManagerMessage::new_response(ManagerMeta::new(self.service_name.as_str()), response)
    }

    fn dispatch<S: FnOnce(&ManagerMessage<TCall, TResponse>) -> Result<Vec<u8>, AnyError>>(
        &self,
        response: TResponse,
        encode: S,
        confirm: bool,
    ) -> (result: MessageQueueServerResult<Outbound>)
        requires
            forall|envelope: &ManagerMessage<TCall, TResponse>| call_requires(encode, (envelope,)),
        ensures
            exists|envelope: ManagerMessage<TCall, TResponse>, raw: Result<Vec<u8>, AnyError>|
                response_envelope(envelope, self.service_name(), response) && #[trigger] call_ensures(
                    encode,
                    (&envelope,),
                    raw,
                ) && response_dispatched(TPacker::content_type_spec(), raw, confirm, result),
    {
        let envelope = self.pack_response(response);
        match TPacker::pack(envelope, encode) {
            Ok(message) => Ok(Outbound { message, confirm }),
            Err(error) => Err(MessageQueueServerError::Packer(error)),
        }
    }

    /// Prepares a response for the stream: wraps it in a fresh envelope and
    /// packs it. The message is to be published without waiting for the
    /// broker's acknowledgment.
    pub fn send<S: FnOnce(&ManagerMessage<TCall, TResponse>) -> Result<Vec<u8>, AnyError>>(
        &self,
        response: TResponse,
        encode: S,
    ) -> (result: MessageQueueServerResult<Outbound>)
        requires
            forall|envelope: &ManagerMessage<TCall, TResponse>| call_requires(encode, (envelope,)),
        ensures
            exists|envelope: ManagerMessage<TCall, TResponse>, raw: Result<Vec<u8>, AnyError>|
                response_envelope(envelope, self.service_name(), response) && #[trigger] call_ensures(
                    encode,
                    (&envelope,),
                    raw,
                ) && response_dispatched(TPacker::content_type_spec(), raw, false, result),
    {
        self.dispatch(response, encode, false)
    }

    /// As [`Self::send`], but the message is to be published with the sender
    /// waiting until the broker has durably acknowledged the append.
    pub fn send_with_confirm<
        S: FnOnce(&ManagerMessage<TCall, TResponse>) -> Result<Vec<u8>, AnyError>,
    >(&self, response: TResponse, encode: S) -> (result: MessageQueueServerResult<Outbound>)
        requires
            forall|envelope: &ManagerMessage<TCall, TResponse>| call_requires(encode, (envelope,)),
        ensures
            exists|envelope: ManagerMessage<TCall, TResponse>, raw: Result<Vec<u8>, AnyError>|
                response_envelope(envelope, self.service_name(), response) && #[trigger] call_ensures(
                    encode,
                    (&envelope,),
                    raw,
                ) && response_dispatched(TPacker::content_type_spec(), raw, true, result),
    {
        self.dispatch(response, encode, true)
    }

    /// What a send comes to once the transport has answered: a failure of
    /// the transport is a `Send` error.
    pub fn published(outcome: Result<(), AnyError>) -> (result: MessageQueueServerResult<()>)
        ensures
            result == match outcome {
                Ok(_) => Ok::<(), MessageQueueServerError>(()),
                Err(cause) => Err(MessageQueueServerError::Send(cause)),
            },
    {
        match outcome {
            Ok(_) => Ok(()),
            Err(cause) => Err(MessageQueueServerError::Send(cause)),
        }
    }

    /// Takes one arrival into a drain that has kept `kept` so far.
    pub fn collect(kept: Vec<TCall>, arrival: Arrival<TCall, TResponse>) -> (drained: Drained<
        TCall,
        MessageQueueServerError,
    >)
        ensures
            drained@ == server_turn(kept@, arrival),
    {
        let mut kept = kept;
        match arrival {
            Arrival::Envelope(envelope) => {
                match envelope.payload {
                    ManagerMessagePayload::Call(call) => {
                        kept.push(call);
                    },
                    ManagerMessagePayload::Response(_) => {},
                }
                Drained::More(kept)
            },
            Arrival::Undecodable(error) => Drained::Done(
                Err(MessageQueueServerError::Packer(error)),
            ),
            Arrival::Failed(error) => Drained::Done(Err(MessageQueueServerError::Receive(error))),
            Arrival::Idle => Drained::Done(Ok(kept)),
            Arrival::Closed => Drained::Done(Ok(kept)),
        }
    }

    /// One turn of a drain: takes in what a read attempt came to. A
    /// delivered message is unpacked with `decode`; a call is kept and a
    /// response is passed over. The drain ends when the attempt brought
    /// nothing, and fails as a whole, with nothing kept, on the first
    /// message that cannot be received or unpacked.
    pub fn recv<D: FnOnce(&[u8]) -> Result<ManagerMessage<TCall, TResponse>, AnyError>>(
        &self,
        kept: Vec<TCall>,
        polled: Polled,
        decode: D,
    ) -> (drained: Drained<TCall, MessageQueueServerError>)
        requires
            forall|bytes: &[u8]| call_requires(decode, (bytes,)),
        ensures
            exists|arrival: Arrival<TCall, TResponse>| #[trigger]
                arrived(TPacker::content_type_spec(), polled, decode, arrival) && drained@
                    == server_turn(kept@, arrival),
    {
        let arrival = receive::<TPacker, TCall, TResponse, D>(polled, decode);
        Self::collect(kept, arrival)
    }
}

/// A drain hands out exactly the calls that arrived before the first
/// read attempt that brought no envelope, in their order, and what that
/// attempt makes of them: a pause returns them, a failure discards them.
/// Responses that arrived in between leave no trace.
pub proof fn server_drain_keeps_calls<TCall, TResponse>(
    kept: Seq<TCall>,
    envelopes: Seq<Arrival<TCall, TResponse>>,
    last: Arrival<TCall, TResponse>,
    rest: Seq<Arrival<TCall, TResponse>>,
)
    requires
        all_envelopes(envelopes),
        !(last is Envelope),
    ensures
        server_drain(kept, envelopes) == DrainedView::<
            TCall,
            MessageQueueServerError,
        >::More(kept + calls_of(envelopes)),
        server_drain(kept, envelopes + seq![last] + rest) == server_turn(
            kept + calls_of(envelopes),
            last,
        ),
    decreases envelopes.len(),
{
    let arrivals = envelopes + seq![last] + rest;
    if envelopes.len() == 0 {
        assert(kept + calls_of(envelopes) =~= kept);
        assert(arrivals[0] == last);
    } else {
        let head = envelopes[0];
        assert(head is Envelope);
        assert(arrivals[0] == head);
        let more = match server_turn(kept, head) {
            DrainedView::More(more) => more,
            DrainedView::Done(_) => kept,
        };
        assert(arrivals.skip(1) =~= envelopes.skip(1) + seq![last] + rest);
        assert(all_envelopes(envelopes.skip(1))) by {
            assert forall|i: int| 0 <= i < envelopes.skip(1).len() implies #[trigger] envelopes.skip(
                1,
            )[i] is Envelope by {
                assert(envelopes[i + 1] is Envelope);
            }
        }
        server_drain_keeps_calls(more, envelopes.skip(1), last, rest);
        assert(more + calls_of(envelopes.skip(1)) =~= kept + calls_of(envelopes));
    }
}

/// A drain of a stream with nothing new is over after one read attempt and
/// hands out nothing.
pub proof fn server_drain_of_nothing<TCall, TResponse>(rest: Seq<Arrival<TCall, TResponse>>)
    ensures
        server_drain(Seq::<TCall>::empty(), seq![Arrival::<TCall, TResponse>::Idle] + rest)
            == DrainedView::<TCall, MessageQueueServerError>::Done(Ok(Seq::empty())),
{
    let arrivals = seq![Arrival::<TCall, TResponse>::Idle] + rest;
    assert(arrivals[0] == Arrival::<TCall, TResponse>::Idle);
}

} // verus!
