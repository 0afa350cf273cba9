//! The client role: sends calls, receives responses.
use std::marker::PhantomData;
use vstd::prelude::*;
use vstd::std_specs::convert::FromSpecImpl;
use vstd::string::*;
use crate::drain::{
    all_envelopes, arrived, receive, responses_of, Arrival, Drained, DrainedView, Polled,
};
use crate::error::AnyError;
use crate::message::{ManagerMessage, ManagerMessagePayload};
use crate::meta::{is_random_id, ManagerMeta};
use crate::pack::{packer_error_text, wrapped, Packer, PackerError};
use crate::payload::MessageQueuePayload;
use crate::setup::{Connection, SetupFailure};
use crate::transport::Outbound;

verus! {

/// Why an operation of a client failed.
#[derive(Debug, Clone, PartialEq, Eq)]
pub enum MessageQueueClientError {
    CreateEnvironment(String),
    CreateProducer(AnyError),
    CreateConsumer(AnyError),
    Send(AnyError),
    Receive(AnyError),
    Packer(PackerError),
}

pub type MessageQueueClientResult<T> = Result<T, MessageQueueClientError>;

impl From<PackerError> for MessageQueueClientError {
    fn from(error: PackerError) -> (lifted: MessageQueueClientError) {
        MessageQueueClientError::Packer(error)
    }
}

impl FromSpecImpl<PackerError> for MessageQueueClientError {
    open spec fn obeys_from_spec() -> bool {
        true
    }

    open spec fn from_spec(error: PackerError) -> MessageQueueClientError {
        MessageQueueClientError::Packer(error)
    }
}

/// The text shown for a client error.
pub open spec fn client_error_text(error: MessageQueueClientError) -> Seq<char> {
    match error {
        MessageQueueClientError::CreateEnvironment(reason) =>
            "Failed to create RabbitMQ environment: "@ + reason@,
        MessageQueueClientError::CreateProducer(cause) =>
            "Failed to create RabbitMQ stream producer: "@ + cause.context.message@,
        MessageQueueClientError::CreateConsumer(cause) =>
            "Failed to create RabbitMQ stream consumer: "@ + cause.context.message@,
        MessageQueueClientError::Send(cause) => "Failed to send message: "@
            + cause.context.message@,
        MessageQueueClientError::Receive(cause) => "Failed to receive message: "@
            + cause.context.message@,
        MessageQueueClientError::Packer(cause) => "Failed to process message: "@
            + packer_error_text(cause@),
    }
}

/// The client error that a failed setup comes to.
pub open spec fn client_setup_error(failure: SetupFailure) -> MessageQueueClientError {
    match failure {
        SetupFailure::Environment(reason) => MessageQueueClientError::CreateEnvironment(reason),
        SetupFailure::Producer(cause) => MessageQueueClientError::CreateProducer(cause),
        SetupFailure::Consumer(cause) => MessageQueueClientError::CreateConsumer(cause),
    }
}

impl From<SetupFailure> for MessageQueueClientError {
    fn from(failure: SetupFailure) -> (lifted: MessageQueueClientError) {
        match failure {
            SetupFailure::Environment(reason) => MessageQueueClientError::CreateEnvironment(reason),
            SetupFailure::Producer(cause) => MessageQueueClientError::CreateProducer(cause),
            SetupFailure::Consumer(cause) => MessageQueueClientError::CreateConsumer(cause),
        }
    }
}

impl FromSpecImpl<SetupFailure> for MessageQueueClientError {
    open spec fn obeys_from_spec() -> bool {
        true
    }

    open spec fn from_spec(failure: SetupFailure) -> MessageQueueClientError {
        client_setup_error(failure)
    }
}

impl MessageQueueClientError {
    /// The text shown for this error.
    pub fn to_string(&self) -> (text: String)
        ensures
            text@ == client_error_text(*self),
    {
        match self {
            MessageQueueClientError::CreateEnvironment(reason) => String::from_str(
                "Failed to create RabbitMQ environment: ",
            ).concat(reason.as_str()),
            MessageQueueClientError::CreateProducer(cause) => String::from_str(
                "Failed to create RabbitMQ stream producer: ",
            ).concat(cause.to_string().as_str()),
            MessageQueueClientError::CreateConsumer(cause) => String::from_str(
                "Failed to create RabbitMQ stream consumer: ",
            ).concat(cause.to_string().as_str()),
            MessageQueueClientError::Send(cause) => String::from_str(
                "Failed to send message: ",
            ).concat(cause.to_string().as_str()),
            MessageQueueClientError::Receive(cause) => String::from_str(
                "Failed to receive message: ",
            ).concat(cause.to_string().as_str()),
            MessageQueueClientError::Packer(cause) => String::from_str(
                "Failed to process message: ",
            ).concat(cause.to_string().as_str()),
        }
    }
}

/// Whether `envelope` wraps `call` as a fresh call from `origin`.
pub open spec fn call_envelope<TCall, TResponse>(
    envelope: ManagerMessage<TCall, TResponse>,
    origin: Seq<char>,
    call: TCall,
) -> bool {
    &&& envelope.payload == ManagerMessagePayload::<TCall, TResponse>::Call(call)
    &&& envelope.meta.origin@ == origin
    &&& envelope.meta.parent_id is None
    &&& is_random_id(envelope.meta.request_id)
}

/// Whether `result` is what sending comes to when the encoder ended in
/// `raw`: the bytes framed under `content_type`, or the packer's error.
pub open spec fn call_dispatched(
    content_type: Seq<char>,
    raw: Result<Vec<u8>, AnyError>,
    confirm: bool,
    result: MessageQueueClientResult<Outbound>,
) -> bool {
    match raw {
        Ok(bytes) => result matches Ok(outbound) && outbound.message@ == wrapped(
            content_type,
            bytes@,
        ) && outbound.confirm == confirm,
        Err(cause) => result == Err::<Outbound, MessageQueueClientError>(
            MessageQueueClientError::Packer(PackerError::Serialize(cause)),
        ),
    }
}

/// What one read attempt does to a client's drain: responses are kept, calls
/// are passed over, a pause ends the drain with what was kept and a failure
/// ends it with nothing but the failure.
pub open spec fn client_turn<TCall, TResponse>(
    kept: Seq<TResponse>,
    arrival: Arrival<TCall, TResponse>,
) -> DrainedView<TResponse, MessageQueueClientError> {
    match arrival {
        Arrival::Envelope(envelope) => match envelope.payload {
            ManagerMessagePayload::Response(response) => DrainedView::More(kept.push(response)),
            ManagerMessagePayload::Call(_) => DrainedView::More(kept),
        },
        Arrival::Undecodable(error) => DrainedView::Done(
            Err(MessageQueueClientError::Packer(error)),
        ),
        Arrival::Failed(error) => DrainedView::Done(Err(MessageQueueClientError::Receive(error))),
        Arrival::Idle => DrainedView::Done(Ok(kept)),
        Arrival::Closed => DrainedView::Done(Ok(kept)),
    }
}

/// A whole drain of a client: the read attempts in order, up to the first
/// that ends it.
pub open spec fn client_drain<TCall, TResponse>(
    kept: Seq<TResponse>,
    arrivals: Seq<Arrival<TCall, TResponse>>,
) -> DrainedView<TResponse, MessageQueueClientError>
    decreases arrivals.len(),
{
    if arrivals.len() == 0 {
        DrainedView::More(kept)
    } else {
        match client_turn(kept, arrivals[0]) {
            DrainedView::More(more) => client_drain(more, arrivals.skip(1)),
            DrainedView::Done(end) => DrainedView::Done(end),
        }
    }
}

/// The client end of a channel, bound to one call type, one response type
/// and one packing strategy.
pub struct MessageQueueClient<TCall, TResponse, TPacker> {
    id: String,
    stream_name: String,
    _phantom_call: PhantomData<TCall>,
    _phantom_response: PhantomData<TResponse>,
    _phantom_packer: PhantomData<TPacker>,
}

impl<
    TCall: MessageQueuePayload,
    TResponse: MessageQueuePayload,
    TPacker: Packer,
> MessageQueueClient<TCall, TResponse, TPacker> {
    /// The name that this client's envelopes carry as their origin.
    pub closed spec fn id(&self) -> Seq<char> {
        self.id@
    }

    /// The stream that this client is bound to.
    pub closed spec fn stream_name(&self) -> Seq<char> {
        self.stream_name@
    }

    /// Makes the client of a connection that was set up, or says why there
    /// is none.
    pub fn new(client_name: String, connection: Result<Connection, SetupFailure>) -> (result:
        MessageQueueClientResult<Self>)
        ensures
            match connection {
                Ok(connection) => result matches Ok(client) && client.id() == client_name@
                    && client.stream_name() == connection.stream_name(),
                Err(failure) => result == Err::<Self, MessageQueueClientError>(
                    client_setup_error(failure),
                ),
            },
    {
        match connection {
            Ok(connection) => Ok(
                MessageQueueClient {
                    id: client_name,
                    stream_name: connection.into_stream_name(),
                    _phantom_call: PhantomData,
                    _phantom_response: PhantomData,
                    _phantom_packer: PhantomData,
                },
            ),
            Err(failure) => Err(MessageQueueClientError::from(failure)),
        }
    }

    /// Wraps a call in an envelope with a fresh identity from this client.
    pub fn pack_call(&self, call: TCall) -> (envelope: ManagerMessage<TCall, TResponse>)
        ensures
            call_envelope(envelope, self.id(), call),
    {
        ManagerMessage::new_call(ManagerMeta::new(self.id.as_str()), call)
    }

    fn dispatch<S: FnOnce(&ManagerMessage<TCall, TResponse>) -> Result<Vec<u8>, AnyError>>(
        &self,
        call: TCall,
        encode: S,
        confirm: bool,
    ) -> (result: MessageQueueClientResult<Outbound>)
        requires
            forall|envelope: &ManagerMessage<TCall, TResponse>| call_requires(encode, (envelope,)),
        ensures
            exists|envelope: ManagerMessage<TCall, TResponse>, raw: Result<Vec<u8>, AnyError>|
                call_envelope(envelope, self.id(), call) && #[trigger] call_ensures(
                    encode,
                    (&envelope,),
                    raw,
                ) && call_dispatched(TPacker::content_type_spec(), raw, confirm, result),
    {
        let envelope = self.pack_call(call);
        match TPacker::pack(envelope, encode) {
            Ok(message) => Ok(Outbound { message, confirm }),
            Err(error) => Err(MessageQueueClientError::Packer(error)),
        }
    }

    /// Prepares a call for the stream: wraps it in a fresh envelope and
    /// packs it. The message is to be published without waiting for the
    /// broker's acknowledgment.
    pub fn send<S: FnOnce(&ManagerMessage<TCall, TResponse>) -> Result<Vec<u8>, AnyError>>(
        &self,
        call: TCall,
        encode: S,
    ) -> (result: MessageQueueClientResult<Outbound>)
        requires
            forall|envelope: &ManagerMessage<TCall, TResponse>| call_requires(encode, (envelope,)),
        ensures
            exists|envelope: ManagerMessage<TCall, TResponse>, raw: Result<Vec<u8>, AnyError>|
                call_envelope(envelope, self.id(), call) && #[trigger] call_ensures(
                    encode,
                    (&envelope,),
                    raw,
                ) && call_dispatched(TPacker::content_type_spec(), raw, false, result),
    {
        self.dispatch(call, encode, false)
    }

    /// As [`Self::send`], but the message is to be published with the sender
    /// waiting until the broker has durably acknowledged the append.
    pub fn send_with_confirm<
        S: FnOnce(&ManagerMessage<TCall, TResponse>) -> Result<Vec<u8>, AnyError>,
    >(&self, call: TCall, encode: S) -> (result: MessageQueueClientResult<Outbound>)
        requires
            forall|envelope: &ManagerMessage<TCall, TResponse>| call_requires(encode, (envelope,)),
        ensures
            exists|envelope: ManagerMessage<TCall, TResponse>, raw: Result<Vec<u8>, AnyError>|
                call_envelope(envelope, self.id(), call) && #[trigger] call_ensures(
                    encode,
                    (&envelope,),
                    raw,
                ) && call_dispatched(TPacker::content_type_spec(), raw, true, result),
    {
        self.dispatch(call, encode, true)
    }

    /// What a send comes to once the transport has answered: a failure of
    /// the transport is a `Send` error.
    pub fn published(outcome: Result<(), AnyError>) -> (result: MessageQueueClientResult<()>)
        ensures
            result == match outcome {
                Ok(_) => Ok::<(), MessageQueueClientError>(()),
                Err(cause) => Err(MessageQueueClientError::Send(cause)),
            },
    {
        match outcome {
            Ok(_) => Ok(()),
            Err(cause) => Err(MessageQueueClientError::Send(cause)),
        }
    }

    /// Takes one arrival into a drain that has kept `kept` so far.
    pub fn collect(kept: Vec<TResponse>, arrival: Arrival<TCall, TResponse>) -> (drained: Drained<
        TResponse,
        MessageQueueClientError,
    >)
        ensures
            drained@ == client_turn(kept@, arrival),
    {
        let mut kept = kept;
        match arrival {
            Arrival::Envelope(envelope) => {
                match envelope.payload {
                    ManagerMessagePayload::Response(response) => {
                        kept.push(response);
                    },
                    ManagerMessagePayload::Call(_) => {},
                }
                Drained::More(kept)
            },
            Arrival::Undecodable(error) => Drained::Done(
                Err(MessageQueueClientError::Packer(error)),
            ),
            Arrival::Failed(error) => Drained::Done(Err(MessageQueueClientError::Receive(error))),
            Arrival::Idle => Drained::Done(Ok(kept)),
            Arrival::Closed => Drained::Done(Ok(kept)),
        }
    }

    /// One turn of a drain: takes in what a read attempt came to. A
    /// delivered message is unpacked with `decode`; a response is kept and
    /// a call is passed over. The drain ends when the attempt brought
    /// nothing, and fails as a whole, with nothing kept, on the first
    /// message that cannot be received or unpacked.
    pub fn recv<D: FnOnce(&[u8]) -> Result<ManagerMessage<TCall, TResponse>, AnyError>>(
        &self,
        kept: Vec<TResponse>,
        polled: Polled,
        decode: D,
    ) -> (drained: Drained<TResponse, MessageQueueClientError>)
        requires
            forall|bytes: &[u8]| call_requires(decode, (bytes,)),
        ensures
            exists|arrival: Arrival<TCall, TResponse>| #[trigger]
                arrived(TPacker::content_type_spec(), polled, decode, arrival) && drained@
                    == client_turn(kept@, arrival),
    {
        let arrival = receive::<TPacker, TCall, TResponse, D>(polled, decode);
        Self::collect(kept, arrival)
    }
}

/// A drain hands out exactly the responses that arrived before the first
/// read attempt that brought no envelope, in their order, and what that
/// attempt makes of them: a pause returns them, a failure discards them.
/// Calls that arrived in between leave no trace.
pub proof fn client_drain_keeps_responses<TCall, TResponse>(
    kept: Seq<TResponse>,
    envelopes: Seq<Arrival<TCall, TResponse>>,
    last: Arrival<TCall, TResponse>,
    rest: Seq<Arrival<TCall, TResponse>>,
)
    requires
        all_envelopes(envelopes),
        !(last is Envelope),
    ensures
        client_drain(kept, envelopes) == DrainedView::<
            TResponse,
            MessageQueueClientError,
        >::More(kept + responses_of(envelopes)),
        client_drain(kept, envelopes + seq![last] + rest) == client_turn(
            kept + responses_of(envelopes),
            last,
        ),
    decreases envelopes.len(),
{
    let arrivals = envelopes + seq![last] + rest;
    if envelopes.len() == 0 {
        assert(kept + responses_of(envelopes) =~= kept);
        assert(arrivals[0] == last);
    } else {
        let head = envelopes[0];
        assert(head is Envelope);
        assert(arrivals[0] == head);
        let more = match client_turn(kept, head) {
            DrainedView::More(more) => more,
            DrainedView::Done(_) => kept,
        };
        assert(arrivals.skip(1) =~= envelopes.skip(1) + seq![last] + rest);
        assert(all_envelopes(envelopes.skip(1))) by {
            assert forall|i: int| 0 <= i < envelopes.skip(1).len() implies #[trigger] envelopes.skip(
                1,
            )[i] is Envelope by {
                assert(envelopes[i + 1] is Envelope);
            }
        }
        client_drain_keeps_responses(more, envelopes.skip(1), last, rest);
        assert(more + responses_of(envelopes.skip(1)) =~= kept + responses_of(envelopes));
    }
}

/// A drain of a stream with nothing new is over after one read attempt and
/// hands out nothing.
pub proof fn client_drain_of_nothing<TCall, TResponse>(rest: Seq<Arrival<TCall, TResponse>>)
    ensures
        client_drain(Seq::<TResponse>::empty(), seq![Arrival::<TCall, TResponse>::Idle] + rest)
            == DrainedView::<TResponse, MessageQueueClientError>::Done(Ok(Seq::empty())),
{
    let arrivals = seq![Arrival::<TCall, TResponse>::Idle] + rest;
    assert(arrivals[0] == Arrival::<TCall, TResponse>::Idle);
}

} // verus!
