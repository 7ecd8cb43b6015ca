//! Points in time, as milliseconds since the epoch.
use vstd::prelude::*;

verus! {

/// The first millisecond that a date can be made of.
pub const FIRST_MILLIS: i64 = -8334601228800000;

/// The last millisecond that a date can be made of.
pub const LAST_MILLIS: i64 = 8210266876799999;

/// A point in time that a date can be made of.
pub open spec fn is_date(millis: i64) -> bool {
    FIRST_MILLIS <= millis <= LAST_MILLIS
}

/// Makes a date with `chrono::DateTime::from_timestamp_millis`, and gives its milliseconds
/// back. There is a date for every millisecond from the start of the year -262143 to the
/// end of the year 262142, and none outside.
#[verifier::external_body]
fn date_millis(millis: i64) -> (r: Option<i64>)
    ensures
        r == (if is_date(millis) {
            Some(millis)
        } else {
            None
        }),
{
    chrono::DateTime::from_timestamp_millis(millis).map(|date| date.timestamp_millis())
}

/// The date that a wire timestamp stands for: the epoch where it is out of range.
pub open spec fn date_of(timestamp: u64) -> i64 {
    if is_date(timestamp as i64) {
        timestamp as i64
    } else {
        0
    }
}

/// The date that a wire timestamp stands for: the epoch where it is out of range.
pub fn date_or_epoch(timestamp: u64) -> (millis: i64)
    ensures
        millis == date_of(timestamp),
{
    match date_millis(timestamp as i64) {
        Some(millis) => millis,
        None => 0,
    }
}

/// A wire timestamp is the date it says, up to the last one there is; beyond that it is the epoch.
pub proof fn law_a_timestamp_is_the_date_it_says(timestamp: u64, millis: i64)
    requires
        call_ensures(date_or_epoch, (timestamp,), millis),
    ensures
        timestamp <= 8210266876799999 ==> millis == timestamp,
        8210266876799999 < timestamp <= i64::MAX ==> millis == 0,
{
}

} // verus!
