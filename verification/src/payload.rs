//! What a payload type has to offer to travel over a channel.
use vstd::prelude::*;

verus! {

/// A payload that can name the variant it holds. The tag serves logs and
/// metrics; nothing in this crate routes by it.
pub trait MessageQueuePayload {
    type Discriminant;

    fn discriminant(&self) -> Self::Discriminant;
}

} // verus!
