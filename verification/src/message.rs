//! The envelope: correlation metadata around a payload that is either a call
//! or a response.
use vstd::prelude::*;
use crate::meta::ManagerMeta;

verus! {

/// The payload of an envelope, tagged with the role that it is meant for.
#[derive(Debug, Clone, PartialEq, Eq)]
pub enum ManagerMessagePayload<TCall, TResponse> {
    Call(TCall),
    Response(TResponse),
}

/// The unit of transport.
#[derive(Debug, Clone, PartialEq, Eq)]
pub struct ManagerMessage<TCall, TResponse> {
    pub meta: ManagerMeta,
    pub payload: ManagerMessagePayload<TCall, TResponse>,
}

impl<TCall, TResponse> ManagerMessage<TCall, TResponse> {
    /// The envelope of `payload` under `meta`.
    pub fn new(meta: ManagerMeta, payload: ManagerMessagePayload<TCall, TResponse>) -> (message:
        Self)
        ensures
            message.meta == meta,
            message.payload == payload,
    {
        ManagerMessage { meta, payload }
    }

    /// The envelope that carries `call` to a server.
    pub fn new_call(meta: ManagerMeta, call: TCall) -> (message: Self)
        ensures
            message.meta == meta,
            message.payload == ManagerMessagePayload::<TCall, TResponse>::Call(call),
    {
        ManagerMessage::new(meta, ManagerMessagePayload::Call(call))
    }

    /// The envelope that carries `response` to a client.
    pub fn new_response(meta: ManagerMeta, response: TResponse) -> (message: Self)
        ensures
            message.meta == meta,
            message.payload == ManagerMessagePayload::<TCall, TResponse>::Response(response),
    {
        ManagerMessage::new(meta, ManagerMessagePayload::Response(response))
    }
}

} // verus!
