//! The day bucket of the present moment, from the system's clock and time
//! zone.

use vstd::prelude::*;

verus! {

/// `chrono::Local::now`, `NaiveDateTime::and_local_timezone` and
/// `DateTime::timestamp`: the Unix time of the midnight that began today in
/// the local time zone, or `None` where the zone has no such single moment
/// (the clocks were set across midnight). The result depends on the clock
/// and on the zone of the machine, so nothing is claimed of it.
#[verifier::external_body]
pub(crate) fn local_midnight() -> (day: Option<i64>) {
    let midnight = chrono::Local::now().date_naive().and_hms_opt(0, 0, 0)?;
    let local = midnight.and_local_timezone(chrono::Local).single()?;
    Some(local.timestamp())
}

} // verus!
