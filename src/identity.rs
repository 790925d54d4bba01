use vstd::prelude::*;
use crate::error::ServiceError;

verus! {

/// A record identifier: the 128 bits of a UUID, most significant first.
#[derive(Clone, Copy, Debug, PartialEq, Eq, Hash, Structural)]
pub struct RecordId(pub u128);

/// A point in time: whole seconds since the Unix epoch and the nanoseconds
/// past that second.
#[derive(Clone, Copy, Debug, PartialEq, Eq, Hash, Structural)]
pub struct Timestamp {
    pub secs: i64,
    pub nanos: u32,
}

pub const NANOS_PER_SEC: u32 = 1_000_000_000;

impl Timestamp {
    pub open spec fn wf(self) -> bool {
        self.nanos < NANOS_PER_SEC
    }

    /// Nanoseconds since the epoch.
    pub open spec fn total_nanos(self) -> int {
        self.secs * NANOS_PER_SEC + self.nanos
    }

    pub open spec fn is_later_than(self, other: Timestamp) -> bool {
        self.total_nanos() > other.total_nanos()
    }
}

impl Timestamp {
    /// The current time, read from the system clock.
    pub fn now() -> (r: Timestamp)
        ensures
            r.wf(),
            r.secs >= 0,
    {
        read_clock()
    }
}

/// The version nibble is 4 and the variant bits are `10`: a random UUID.
pub open spec fn is_random_uuid(bits: u128) -> bool {
    &&& (bits >> 76u128) & 0xfu128 == 4u128
    &&& (bits >> 62u128) & 0x3u128 == 2u128
}

/// What `uuid::Uuid::parse_str` reads from a text, if it accepts it.
pub uninterp spec fn uuid_from_text(text: Seq<char>) -> Option<u128>;

#[verifier::external_type_specification]
#[verifier::external_body]
pub struct ExUuidError(uuid::Error);

/// Relies on `uuid::Uuid::new_v4`: 122 random bits, with the version set to
/// 4 and the variant to RFC 4122.
#[verifier::external_body]
fn random_uuid() -> (r: u128)
    ensures
        is_random_uuid(r),
{
    uuid::Uuid::new_v4().as_u128()
}

/// Relies on `uuid::Uuid::parse_str` (and `as_u128`): accepts the simple,
/// hyphenated, braced and URN forms, and fails with `uuid::Error` on
/// anything else.
#[verifier::external_body]
fn parse_uuid(text: &str) -> (r: Result<u128, uuid::Error>)
    ensures
        r is Ok <==> uuid_from_text(text@) is Some,
        r is Ok ==> r->Ok_0 == uuid_from_text(text@)->Some_0,
{
    match uuid::Uuid::parse_str(text) {
        Ok(u) => Ok(u.as_u128()),
        Err(e) => Err(e),
    }
}

/// Relies on `chrono::Utc::now`: the system clock read as whole seconds
/// since the epoch (never negative: `now` panics on a clock set before it)
/// and a sub-second part below one second.
#[verifier::external_body]
fn read_clock() -> (r: Timestamp)
    ensures
        r.wf(),
        r.secs >= 0,
{
    let now = chrono::Utc::now();
    Timestamp { secs: now.timestamp(), nanos: now.timestamp_subsec_nanos() }
}

impl RecordId {
    /// A freshly generated random identifier.
    pub fn generate() -> (r: RecordId)
        ensures
            is_random_uuid(r.0),
    {
        RecordId(random_uuid())
    }

    /// Reads an identifier from its text form; a text that is not a UUID
    /// is a malformed identifier.
    pub fn parse(text: &str) -> (r: Result<RecordId, ServiceError>)
        ensures
            r is Ok <==> uuid_from_text(text@) is Some,
            r is Ok ==> r->Ok_0.0 == uuid_from_text(text@)->Some_0,
            r is Err ==> r->Err_0 == ServiceError::MalformedId,
    {
        match parse_uuid(text) {
            Ok(bits) => Ok(RecordId(bits)),
            Err(_) => Err(ServiceError::MalformedId),
        }
    }
}

} // verus!
