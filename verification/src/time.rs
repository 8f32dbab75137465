//! The engine's view of the clock: the current UTC time as Unix seconds,
//! and the renderings of timestamps that generated content embeds.

use chrono::Datelike;
use vstd::prelude::*;

verus! {

/// How far from the epoch a chrono timestamp can lie, in seconds: chrono
/// documents its `DateTime` range as roughly years -262144 to +262142.
pub open spec fn chrono_ts_bound() -> int {
    8_400_000_000_000
}

/// The RFC 3339 rendering of a UTC timestamp.
pub uninterp spec fn spec_rfc3339(t: int) -> Seq<char>;

/// The calendar year a UTC timestamp falls in.
pub uninterp spec fn spec_utc_year(t: int) -> int;

/// Relies on chrono::Utc::now: the current time as seconds since the Unix
/// epoch, within chrono's documented `DateTime` range.
#[verifier::external_body]
pub fn utc_now_unix() -> (r: i64)
    ensures
        -chrono_ts_bound() <= r <= chrono_ts_bound(),
{
    chrono::Utc::now().timestamp()
}

/// Relies on chrono's RFC 3339 formatting: the rendering depends on the
/// timestamp alone. Out-of-range timestamps render as the empty string.
#[verifier::external_body]
pub fn format_rfc3339(t: i64) -> (r: String)
    ensures
        r@ == spec_rfc3339(t as int),
{
    match chrono::DateTime::<chrono::Utc>::from_timestamp(t, 0) {
        Some(d) => d.to_rfc3339(),
        None => String::new(),
    }
}

/// Relies on chrono::Datelike::year: the year depends on the timestamp
/// alone. Out-of-range timestamps report year zero.
#[verifier::external_body]
pub fn utc_year_of(t: i64) -> (r: i64)
    ensures
        r == spec_utc_year(t as int),
        -400_000 <= r <= 400_000,
{
    match chrono::DateTime::<chrono::Utc>::from_timestamp(t, 0) {
        Some(d) => i64::from(d.year()),
        None => 0,
    }
}

} // verus!
