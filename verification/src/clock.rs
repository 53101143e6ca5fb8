//! Issue times and identifiers of envelopes, through `chrono` and `uuid`.

use chrono::{DateTime, Utc};
use uuid::Uuid;
use vstd::prelude::*;

use crate::crypto::hex_lower;

verus! {

/// Whether `chrono` represents `secs` seconds and `nanos` nanoseconds after the
/// Unix epoch as a UTC date-time: the day is one its calendar holds, days
/// -96465292 through 95026236 from the epoch (years -262143 to 262142), and the
/// nanoseconds are under a second, or under two seconds in the last second
/// of a minute (a leap second).
pub open spec fn utc_timestamp_valid(secs: i64, nanos: u32) -> bool {
    let day = secs as int / 86400;
    let second = secs as int % 86400;
    &&& -96465292 <= day <= 95026236
    &&& (nanos < 1_000_000_000 || (nanos < 2_000_000_000 && second % 60 == 59))
}

/// The RFC 3339 text (`YYYY-MM-DDTHH:MM:SS[.fraction]+00:00`) that `chrono`
/// writes for that UTC date-time.
pub uninterp spec fn utc_rfc3339(secs: i64, nanos: u32) -> Seq<char>;

/// `DateTime::<Utc>::from_timestamp(secs, nanos)` is `Some`.
#[verifier::external_body]
fn timestamp_is_valid(secs: i64, nanos: u32) -> (valid: bool)
    ensures
        valid == utc_timestamp_valid(secs, nanos),
{
    match DateTime::<Utc>::from_timestamp(secs, nanos) {
        Some(_) => true,
        None => false,
    }
}

/// `DateTime::<Utc>::to_rfc3339` of the date-time at `secs`, `nanos`.
#[verifier::external_body]
fn rfc3339_of(secs: i64, nanos: u32) -> (text: String)
    requires
        utc_timestamp_valid(secs, nanos),
    ensures
        text@ == utc_rfc3339(secs, nanos),
{
    match DateTime::<Utc>::from_timestamp(secs, nanos) {
        Some(date_time) => date_time.to_rfc3339(),
        None => String::new(),
    }
}

/// `Utc::now()`, as its Unix seconds and sub-second nanoseconds. `chrono`
/// documents that these round-trip through `from_timestamp`, so they are valid.
#[verifier::external_body]
fn utc_now() -> (now: (i64, u32))
    ensures
        utc_timestamp_valid(now.0, now.1),
{
    let now = Utc::now();
    (now.timestamp(), now.timestamp_subsec_nanos())
}

/// A UTC instant: seconds and nanoseconds after the Unix epoch that `chrono`
/// accepts as a date-time.
#[derive(Clone, Copy, Debug, PartialEq, Eq)]
pub struct Timestamp {
    secs: i64,
    nanos: u32,
}

impl View for Timestamp {
    type V = (i64, u32);

    closed spec fn view(&self) -> (i64, u32) {
        (self.secs, self.nanos)
    }
}

impl Timestamp {
    #[verifier::type_invariant]
    closed spec fn valid(self) -> bool {
        utc_timestamp_valid(self.secs, self.nanos)
    }

    /// The instant `secs` seconds and `nanos` nanoseconds after the epoch, when
    /// it is a representable date-time.
    pub fn from_unix(secs: i64, nanos: u32) -> (t: Option<Timestamp>)
        ensures
            t is Some <==> utc_timestamp_valid(secs, nanos),
            t matches Some(t) ==> t@ == (secs, nanos),
    {
        if timestamp_is_valid(secs, nanos) {
            Some(Timestamp { secs, nanos })
        } else {
            None
        }
    }

    /// The current time.
    pub fn now() -> (t: Timestamp) {
        let (secs, nanos) = utc_now();
        Timestamp { secs, nanos }
    }

    /// Seconds after the Unix epoch.
    pub fn unix_secs(&self) -> (secs: i64)
        ensures
            secs == self@.0,
    {
        self.secs
    }

    /// Nanoseconds after the whole second.
    pub fn subsec_nanos(&self) -> (nanos: u32)
        ensures
            nanos == self@.1,
    {
        self.nanos
    }

    /// The RFC 3339 text of this instant.
    pub fn to_rfc3339(&self) -> (text: String)
        ensures
            text@ == utc_rfc3339(self@.0, self@.1),
    {
        proof {
            use_type_invariant(self);
        }
        rfc3339_of(self.secs, self.nanos)
    }
}

/// The 16 big-endian bytes of a 128-bit value.
pub open spec fn u128_be_bytes(v: u128) -> Seq<u8> {
    Seq::new(
        16,
        |i: int|
            ((v as int / vstd::arithmetic::power2::pow2((8 * (15 - i)) as nat) as int)
                % 256) as u8,
    )
}

/// The hyphenated lower-case text of a UUID: `8-4-4-4-12` hex digits.
pub open spec fn uuid_text(v: u128) -> Seq<char> {
    let h = hex_lower(u128_be_bytes(v));
    h.subrange(0, 8) + seq!['-'] + h.subrange(8, 12) + seq!['-'] + h.subrange(12, 16) + seq![
        '-',
    ] + h.subrange(16, 20) + seq!['-'] + h.subrange(20, 32)
}

/// `Uuid::from_u128(id).to_string()`: the hyphenated lower-case UUID text.
#[verifier::external_body]
pub(crate) fn uuid_to_text(id: u128) -> (text: String)
    ensures
        text@ == uuid_text(id),
{
    Uuid::from_u128(id).to_string()
}

/// `Uuid::new_v4().as_u128()`: a fresh random version-4 UUID.
#[verifier::external_body]
pub(crate) fn fresh_uuid() -> (id: u128) {
    Uuid::new_v4().as_u128()
}

/// What `Uuid::parse_str` reads from a text, as a 128-bit value; `None` where
/// the text is no UUID in any of the forms that crate accepts.
pub uninterp spec fn uuid_parsed(text: Seq<char>) -> Option<u128>;

/// `Uuid::parse_str(text)`, as a 128-bit value. The contract names the result
/// and says no more: the accepted forms are that crate's own.
#[verifier::external_body]
pub(crate) fn parse_uuid(text: &str) -> (id: Option<u128>)
    ensures
        id == uuid_parsed(text@),
{
    match Uuid::parse_str(text) {
        Ok(u) => Some(u.as_u128()),
        Err(_) => None,
    }
}

} // verus!
