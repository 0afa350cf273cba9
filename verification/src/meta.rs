//! Correlation metadata: who sent an envelope, when, under which identity,
//! and in reply to which earlier envelope.
use vstd::prelude::*;
use vstd::string::*;

verus! {

/// A moment in UTC: whole seconds since the Unix epoch and the nanoseconds
/// into that second.
#[derive(Clone, Copy, PartialEq, Eq, Structural, Debug)]
pub struct Timestamp {
    pub secs: i64,
    pub nanos: u32,
}

/// The identity and origin of one envelope. A request id is a UUID, held as
/// its 128 bits with the first byte of the UUID in the highest place.
#[derive(Debug, Clone, PartialEq, Eq)]
pub struct ManagerMeta {
    pub request_id: u128,
    pub parent_id: Option<u128>,
    pub origin: String,
    pub created_at: Timestamp,
}

/// Whether `id` has the shape of a random UUID: version 4, variant 1.
pub open spec fn is_random_id(id: u128) -> bool {
    id & 0x0000_0000_0000_f000_c000_0000_0000_0000u128
        == 0x0000_0000_0000_4000_8000_0000_0000_0000u128
}

/// The metadata of an envelope that `origin` sends under the identity
/// `request_id` at `created_at`, in reply to `parent_id`.
pub open spec fn stamped_meta(
    meta: ManagerMeta,
    origin: Seq<char>,
    request_id: u128,
    parent_id: Option<u128>,
    created_at: Timestamp,
) -> bool {
    &&& meta.request_id == request_id
    &&& meta.parent_id == parent_id
    &&& meta.origin@ == origin
    &&& meta.created_at == created_at
}

/// Draws a random request id with `uuid::Uuid::new_v4` and hands out its
/// 128 bits (`Uuid::as_u128`). The contract claims what `new_v4` sets
/// whatever the random bits are: the version nibble is 4 and the variant
/// bits are `10`. `new_v4` panics if the system's random source fails.
#[verifier::external_body]
fn random_request_id() -> (id: u128)
    ensures
        is_random_id(id),
{
    uuid::Uuid::new_v4().as_u128()
}

/// Reads the clock with `chrono::Utc::now` and hands out `timestamp()` and
/// `timestamp_subsec_nanos()` of the result. `Utc::now` builds its result
/// from the time elapsed since the Unix epoch, so the seconds are not
/// negative and the nanoseconds stay below one second. It panics if the
/// system clock stands before the epoch.
#[verifier::external_body]
fn utc_now() -> (now: Timestamp)
    ensures
        now.secs >= 0,
        now.nanos < 1_000_000_000,
{
    let now = chrono::Utc::now();
    Timestamp { secs: now.timestamp(), nanos: now.timestamp_subsec_nanos() }
}

impl Default for ManagerMeta {
    /// The nil identity from nowhere, at the epoch.
    fn default() -> (meta: ManagerMeta)
        ensures
            stamped_meta(meta, Seq::<char>::empty(), 0, None, Timestamp { secs: 0, nanos: 0 }),
    {
        ManagerMeta {
            request_id: 0,
            parent_id: None,
            origin: String::new(),
            created_at: Timestamp { secs: 0, nanos: 0 },
        }
    }
}

impl ManagerMeta {
    /// The metadata of an envelope from `origin` with the given identity and
    /// time, and no parent.
    pub fn stamped(origin: &str, request_id: u128, created_at: Timestamp) -> (meta: ManagerMeta)
        ensures
            stamped_meta(meta, origin@, request_id, None, created_at),
    {
        ManagerMeta { request_id, parent_id: None, origin: String::from_str(origin), created_at }
    }

    /// The metadata of a reply from `origin` with the given identity and
    /// time: its parent is the identity replied to.
    pub fn reply_stamped(self, origin: &str, request_id: u128, created_at: Timestamp) -> (meta:
        ManagerMeta)
        ensures
            stamped_meta(meta, origin@, request_id, Some(self.request_id), created_at),
    {
        ManagerMeta {
            request_id,
            parent_id: Some(self.request_id),
            origin: String::from_str(origin),
            created_at,
        }
    }

    /// Stamps a fresh identity for `origin`: a random request id, no parent,
    /// created now.
    pub fn new(origin: &str) -> (meta: ManagerMeta)
        ensures
            meta.origin@ == origin@,
            meta.parent_id is None,
            is_random_id(meta.request_id),
            meta.request_id != 0,
            meta.created_at.secs >= 0,
            meta.created_at.nanos < 1_000_000_000,
    {
        let request_id = random_request_id();
        proof {
            random_id_is_not_nil(request_id);
        }
        ManagerMeta::stamped(origin, request_id, utc_now())
    }

    /// Stamps a fresh identity for `origin` in reply to this one: a random
    /// request id, this identity as the parent, created now.
    pub fn reply(self, origin: &str) -> (meta: ManagerMeta)
        ensures
            meta.origin@ == origin@,
            meta.parent_id == Some(self.request_id),
            is_random_id(meta.request_id),
            !is_random_id(self.request_id) ==> meta.request_id != self.request_id,
            meta.created_at.secs >= 0,
            meta.created_at.nanos < 1_000_000_000,
    {
        let request_id = random_request_id();
        self.reply_stamped(origin, request_id, utc_now())
    }
}

/// A random request id is never the nil id.
pub proof fn random_id_is_not_nil(id: u128)
    requires
        is_random_id(id),
    ensures
        id != 0,
{
    assert(0u128 & 0x0000_0000_0000_f000_c000_0000_0000_0000u128 == 0u128) by (bit_vector);
}

/// A reply points back at the identity it answers, comes from the origin
/// that sends it, and has an identity of its own whenever the id drawn for
/// it differs from the one answered.
pub proof fn reply_links_to_parent(
    parent: ManagerMeta,
    reply: ManagerMeta,
    origin: Seq<char>,
    request_id: u128,
    created_at: Timestamp,
)
    requires
        stamped_meta(reply, origin, request_id, Some(parent.request_id), created_at),
        request_id != parent.request_id,
    ensures
        reply.parent_id == Some(parent.request_id),
        reply.request_id != parent.request_id,
        reply.origin@ == origin,
        reply.parent_id != Some(reply.request_id),
{
}

} // verus!
