//! Requests for the history of an interval.
use vstd::prelude::*;
use vstd::string::StringExecFns;
use crate::hwaddr::{HwAddr, hw_addr_text, mac_display};
use crate::query::history_query;

verus! {

/// Longest interval, in days, that one request may ask for.
pub const MAX_QUERY_DAYS: i64 = 20;

/// Nanoseconds in a day.
pub const NANOS_PER_DAY: i128 = 86_400_000_000_000;

/// A point in time: seconds since the Unix epoch, and nanoseconds past that second.
#[derive(Debug, Clone, Copy, PartialEq, Eq)]
pub struct Timestamp {
    pub secs: i64,
    pub nanos: u32,
}

impl Timestamp {
    pub open spec fn total_nanos(self) -> int {
        self.secs as int * 1_000_000_000 + self.nanos as int
    }
}

/// What `chrono` writes for a timestamp in RFC 3339 form.
pub uninterp spec fn rfc3339_of(secs: i64, nanos: u32) -> Seq<char>;

/// Relies on `chrono::DateTime::<Utc>::from_timestamp`, which gives no value
/// outside the range of dates it represents, and on `DateTime::to_rfc3339`.
#[verifier::external_body]
fn rfc3339_text(t: &Timestamp) -> (r: Option<String>)
    ensures
        forall|s: String| r == Some(s) ==> s@ == rfc3339_of(t.secs, t.nanos),
{
    match chrono::DateTime::<chrono::Utc>::from_timestamp(t.secs, t.nanos) {
        Some(d) => Some(d.to_rfc3339()),
        None => None,
    }
}

/// A request for the sensor history between two times, and for the reports of
/// one device within it.
#[derive(Debug, Clone, Copy, PartialEq, Eq)]
pub struct IntervalReq {
    pub mac: Option<HwAddr>,
    pub start: Timestamp,
    pub stop: Timestamp,
}

/// Why an interval request is refused.
#[derive(Debug, Clone, Copy, PartialEq, Eq, Structural)]
pub enum IntervalError {
    /// The interval is longer than the longest one allowed.
    TooLong,
}

/// The condition on time of an interval, with both ends as RFC 3339 text.
pub open spec fn condition_text(start: Timestamp, stop: Timestamp) -> Seq<char> {
    "time > '"@ + rfc3339_of(start.secs, start.nanos) + "' AND time < '"@ + rfc3339_of(
        stop.secs,
        stop.nanos,
    ) + "'"@
}

impl IntervalReq {
    pub fn new(mac: Option<HwAddr>, start: Timestamp, stop: Timestamp) -> (r: IntervalReq)
        ensures
            r == (IntervalReq { mac, start, stop }),
    {
        IntervalReq { mac, start, stop }
    }

    pub fn mac(&self) -> (r: Option<HwAddr>)
        ensures
            r == self.mac,
    {
        self.mac
    }

    /// The condition on time that selects the interval; absent where an end
    /// lies outside the dates that can be written.
    pub fn query_condition(&self) -> (r: Option<String>)
        ensures
            forall|s: String| r == Some(s) ==> s@ == condition_text(self.start, self.stop),
    {
        let start = rfc3339_text(&self.start);
        let stop = rfc3339_text(&self.stop);
        match (start, stop) {
            (Some(a), Some(b)) => {
                let mut r = String::from_str("time > '");
                r.append(a.as_str());
                r.append("' AND time < '");
                r.append(b.as_str());
                r.append("'");
                Some(r)
            },
            _ => None,
        }
    }
}

/// The store query for the request: the sensor history of the interval,
/// and the device's reports within it where a device is named.
pub fn query_history_interval(req: &IntervalReq, pv_measurement: &str, worker_measurement: &str) -> (r: Option<String>)
    ensures
        forall|s: String|
            r == Some(s) ==> s@ == "SELECT time, battery_voltage, pv_voltage, pv_current, temperature FROM "@
                + pv_measurement@ + " WHERE "@ + condition_text(req.start, req.stop)
                + match req.mac {
                None => Seq::<char>::empty(),
                Some(m) => ";SELECT time, status, wake FROM "@ + worker_measurement@
                    + " WHERE "@ + condition_text(req.start, req.stop) + " AND mac = '"@
                    + mac_display(m.octets@) + "'"@,
            },
{
    match req.query_condition() {
        None => None,
        Some(cond) => match req.mac {
            None => Some(history_query(pv_measurement, worker_measurement, cond.as_str(), None)),
            Some(m) => {
                let text = hw_addr_text(&m);
                Some(
                    history_query(
                        pv_measurement,
                        worker_measurement,
                        cond.as_str(),
                        Some(text.as_str()),
                    ),
                )
            },
        },
    }
}

/// Accepts an interval of at most the longest length allowed.
pub fn validate_request(req: &IntervalReq) -> (r: Result<(), IntervalError>)
    ensures
        r.is_ok() <==> req.stop.total_nanos() - req.start.total_nanos() <= MAX_QUERY_DAYS
            * NANOS_PER_DAY,
        r.is_err() ==> r == Err::<(), IntervalError>(IntervalError::TooLong),
{
    let stop = req.stop.secs as i128 * 1_000_000_000 + req.stop.nanos as i128;
    let start = req.start.secs as i128 * 1_000_000_000 + req.start.nanos as i128;
    if stop - start > MAX_QUERY_DAYS as i128 * NANOS_PER_DAY {
        Err(IntervalError::TooLong)
    } else {
        Ok(())
    }
}

} // verus!
