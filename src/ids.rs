//! Identifiers and timestamps, held as plain integers.
use vstd::prelude::*;

verus! {

/// A 128-bit identifier, laid out as a UUID (big-endian, as
/// `uuid::Uuid::as_u128` gives it).
#[derive(Clone, Copy, Debug, PartialEq, Eq, Hash, Structural)]
pub struct Uuid {
    pub value: u128,
}

/// The version field of a UUID (the high nibble of its seventh byte).
pub open spec fn version_of(value: u128) -> u128 {
    (value >> 76u128) & 0xfu128
}

/// The two variant bits of a UUID (the top bits of its ninth byte).
pub open spec fn variant_of(value: u128) -> u128 {
    (value >> 62u128) & 0x3u128
}

impl Uuid {
    /// The all-zero identifier.
    pub fn nil() -> (r: Uuid)
        ensures
            r.value == 0,
    {
        Uuid { value: 0 }
    }

    pub fn from_u128(value: u128) -> (r: Uuid)
        ensures
            r.value == value,
    {
        Uuid { value }
    }

    pub fn as_u128(&self) -> (r: u128)
        ensures
            r == self.value,
    {
        self.value
    }

    /// Whether this is a random (version 4, RFC 4122 variant) identifier.
    pub open spec fn is_random(&self) -> bool {
        version_of(self.value) == 4 && variant_of(self.value) == 2
    }
}

/// Relies on uuid::Uuid::new_v4: a random identifier whose version field is
/// 4 and whose variant bits are those of RFC 4122 (`0b10`).
#[verifier::external_body]
pub(crate) fn random_uuid() -> (r: Uuid)
    ensures
        r.is_random(),
{
    Uuid { value: uuid::Uuid::new_v4().as_u128() }
}

/// A point in time, in microseconds since the Unix epoch (UTC).
#[derive(Clone, Copy, Debug, PartialEq, Eq, Hash, Structural)]
pub struct Timestamp {
    pub micros: i64,
}

/// Relies on chrono::Utc::now and DateTime::timestamp_micros: the current
/// time in microseconds since the Unix epoch. Nothing is known of its value.
#[verifier::external_body]
pub(crate) fn now() -> (r: Timestamp)
{
    Timestamp { micros: chrono::Utc::now().timestamp_micros() }
}

} // verus!
