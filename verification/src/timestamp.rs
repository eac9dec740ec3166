//! Points in time as the host reports them.

use vstd::prelude::*;
use crate::decimal::{decimal, fixed_decimal};

verus! {

/// A point in time, in nanoseconds since the Unix epoch.
#[derive(Clone, Copy, Debug, PartialEq, Eq, Structural)]
pub struct Timestamp {
    pub nanos: u64,
}

/// The number of nanoseconds in one second.
pub open spec fn nanos_per_second() -> int {
    1_000_000_000
}

/// The text in which the time `nanos` nanoseconds after the epoch is shown:
/// the whole seconds in decimal, a point, and the nanoseconds of the last
/// second in nine digits.
pub open spec fn timestamp_text(nanos: u64) -> Seq<char> {
    decimal((nanos / 1_000_000_000) as nat) + seq!['.'] + fixed_decimal(
        (nanos % 1_000_000_000) as nat,
        9,
    )
}

/// Calls `cosmwasm_std::Timestamp::plus_seconds` on the timestamp of `nanos`
/// nanoseconds. That function adds `addition` seconds and panics when the sum
/// leaves the range of a timestamp, which `requires` rules out.
#[verifier::external_body]
fn host_plus_seconds(nanos: u64, addition: u64) -> (sum: u64)
    requires
        nanos + addition * nanos_per_second() <= u64::MAX,
    ensures
        sum == nanos + addition * nanos_per_second(),
{
    cosmwasm_std::Timestamp::from_nanos(nanos).plus_seconds(addition).nanos()
}

/// Calls `to_string` on the `cosmwasm_std::Timestamp` of `nanos` nanoseconds,
/// which goes through that type's `Display` impl. That impl writes
/// `seconds()`, a point, and `subsec_nanos()` padded with zeros to nine
/// digits.
#[verifier::external_body]
fn host_timestamp_text(nanos: u64) -> (text: String)
    ensures
        text@ == timestamp_text(nanos),
{
    cosmwasm_std::Timestamp::from_nanos(nanos).to_string()
}

impl Timestamp {
    /// The timestamp `nanos` nanoseconds after the epoch.
    pub fn from_nanos(nanos: u64) -> (t: Timestamp)
        ensures
            t.nanos == nanos,
    {
        Timestamp { nanos }
    }

    /// This timestamp moved `addition` seconds into the future.
    pub fn plus_seconds(&self, addition: u64) -> (t: Timestamp)
        requires
            self.nanos + addition * nanos_per_second() <= u64::MAX,
        ensures
            t.nanos == self.nanos + addition * nanos_per_second(),
    {
        Timestamp { nanos: host_plus_seconds(self.nanos, addition) }
    }

    /// The text in which this timestamp is shown to people.
    pub fn text(&self) -> (text: String)
        ensures
            text@ == timestamp_text(self.nanos),
    {
        host_timestamp_text(self.nanos)
    }
}

} // verus!
