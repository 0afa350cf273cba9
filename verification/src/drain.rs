//! Draining a stream: reading what is buffered right now, one attempt at a
//! time, until an attempt brings nothing.
//!
//! Each attempt waits for [`crate::DRAIN_TIMEOUT_MICROS`] at most. The driver
//! makes the attempt and reports it as a [`Polled`]; the roles decide what
//! to keep and when to stop.
use vstd::prelude::*;
use crate::error::AnyError;
use crate::message::{ManagerMessage, ManagerMessagePayload};
use crate::pack::{unpacked, Packer, PackerError, PackerResult};
use crate::transport::Message;

verus! {

/// What one read attempt on the consumer came to.
#[derive(Debug, PartialEq, Eq)]
pub enum Polled {
    /// A message was delivered.
    Delivery(Message),
    /// The transport failed.
    Failed(AnyError),
    /// The wait ran out with nothing delivered.
    Idle,
    /// The stream has ended.
    Closed,
}

/// What one read attempt brought, once a delivered message is unpacked.
#[derive(Debug, PartialEq, Eq)]
pub enum Arrival<TCall, TResponse> {
    Envelope(ManagerMessage<TCall, TResponse>),
    /// A message was delivered and could not be unpacked.
    Undecodable(PackerError),
    Failed(AnyError),
    Idle,
    Closed,
}

/// Where a drain stands after a read attempt.
#[derive(Debug, PartialEq, Eq)]
pub enum Drained<T, E> {
    /// The attempt brought a message: here is what has been kept so far;
    /// read on.
    More(Vec<T>),
    /// The drain is over, with all that was kept or with the failure that
    /// ended it.
    Done(Result<Vec<T>, E>),
}

/// A [`Drained`] as mathematical values.
pub enum DrainedView<T, E> {
    More(Seq<T>),
    Done(Result<Seq<T>, E>),
}

impl<T, E> View for Drained<T, E> {
    type V = DrainedView<T, E>;

    open spec fn view(&self) -> DrainedView<T, E> {
        match *self {
            Drained::More(kept) => DrainedView::More(kept@),
            Drained::Done(Ok(kept)) => DrainedView::Done(Ok(kept@)),
            Drained::Done(Err(error)) => DrainedView::Done(Err(error)),
        }
    }
}

/// Whether every one of `arrivals` is an envelope.
pub open spec fn all_envelopes<TCall, TResponse>(arrivals: Seq<Arrival<TCall, TResponse>>) -> bool {
    forall|i: int| 0 <= i < arrivals.len() ==> #[trigger] arrivals[i] is Envelope
}

/// The responses among `arrivals`, in the order in which they came.
pub open spec fn responses_of<TCall, TResponse>(arrivals: Seq<Arrival<TCall, TResponse>>) -> Seq<
    TResponse,
>
    decreases arrivals.len(),
{
    if arrivals.len() == 0 {
        Seq::empty()
    } else {
        let later = responses_of(arrivals.skip(1));
        match arrivals[0] {
            Arrival::Envelope(envelope) => match envelope.payload {
                ManagerMessagePayload::Response(response) => seq![response] + later,
                ManagerMessagePayload::Call(_) => later,
            },
            _ => later,
        }
    }
}

/// The calls among `arrivals`, in the order in which they came.
pub open spec fn calls_of<TCall, TResponse>(arrivals: Seq<Arrival<TCall, TResponse>>) -> Seq<TCall>
    decreases arrivals.len(),
{
    if arrivals.len() == 0 {
        Seq::empty()
    } else {
        let later = calls_of(arrivals.skip(1));
        match arrivals[0] {
            Arrival::Envelope(envelope) => match envelope.payload {
                ManagerMessagePayload::Call(call) => seq![call] + later,
                ManagerMessagePayload::Response(_) => later,
            },
            _ => later,
        }
    }
}

/// What unpacking came to, as an arrival.
pub open spec fn arrival_of<TCall, TResponse>(
    envelope: PackerResult<ManagerMessage<TCall, TResponse>>,
) -> Arrival<TCall, TResponse> {
    match envelope {
        Ok(envelope) => Arrival::Envelope(envelope),
        Err(error) => Arrival::Undecodable(error),
    }
}

/// Whether `arrival` is what the read attempt `polled` brings under the
/// content type `content_type` and the decoder `decode`.
pub open spec fn arrived<
    TCall,
    TResponse,
    D: FnOnce(&[u8]) -> Result<ManagerMessage<TCall, TResponse>, AnyError>,
>(content_type: Seq<char>, polled: Polled, decode: D, arrival: Arrival<TCall, TResponse>) -> bool {
    match polled {
        Polled::Delivery(message) => exists|envelope: PackerResult<ManagerMessage<TCall, TResponse>>|
            #[trigger] unpacked(content_type, message, decode, envelope) && arrival == arrival_of(
                envelope,
            ),
        Polled::Failed(error) => arrival == Arrival::<TCall, TResponse>::Failed(error),
        Polled::Idle => arrival == Arrival::<TCall, TResponse>::Idle,
        Polled::Closed => arrival == Arrival::<TCall, TResponse>::Closed,
    }
}

/// Unpacks what a read attempt delivered, with the strategy `TPacker`.
pub fn receive<
    TPacker: Packer,
    TCall,
    TResponse,
    D: FnOnce(&[u8]) -> Result<ManagerMessage<TCall, TResponse>, AnyError>,
>(polled: Polled, decode: D) -> (arrival: Arrival<TCall, TResponse>)
    requires
        forall|bytes: &[u8]| call_requires(decode, (bytes,)),
    ensures
        arrived(TPacker::content_type_spec(), polled, decode, arrival),
{
    match polled {
        Polled::Delivery(message) => {
            let envelope = TPacker::unpack(&message, decode);
            match envelope {
                Ok(envelope) => Arrival::Envelope(envelope),
                Err(error) => Arrival::Undecodable(error),
            }
        },
        Polled::Failed(error) => Arrival::Failed(error),
        Polled::Idle => Arrival::Idle,
        Polled::Closed => Arrival::Closed,
    }
}

} // verus!
