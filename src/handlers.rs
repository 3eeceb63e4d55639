//! What each request handler decides, given what the boundary looked up.
use vstd::prelude::*;
use crate::excess::{ExcessStatus, ExcessStep, excess_after_generation, excess_from_storage, storage_verdict, tier_of};
use crate::heartbeat::StatusUpdate;
use crate::hwaddr::{HwAddr, mac_display};
use crate::interval::{IntervalReq, query_history_interval, MAX_QUERY_DAYS, NANOS_PER_DAY, condition_text, validate_request};
use crate::just_woke::JustWoke;
use crate::status::WorkerStatus;

verus! {

pub const STATUS_BAD_REQUEST: u16 = 400;
pub const STATUS_FORBIDDEN: u16 = 403;
pub const STATUS_INTERNAL_SERVER_ERROR: u16 = 500;

/// A device's report: its level and whether it asks to be woken.
#[derive(Debug, Clone, Copy, PartialEq, Eq)]
pub struct ReportReq {
    pub status: WorkerStatus,
    pub wake: bool,
}

/// The answer to a report: whether the device was woken in the last cycle.
#[derive(Debug, Clone, Copy, PartialEq, Eq)]
pub struct ReportRes {
    pub woken: bool,
}

/// Why a request is refused.
#[derive(Debug, Clone, Copy, PartialEq, Eq, Structural)]
pub enum HandlerError {
    /// The requester's hardware address is unknown.
    UnknownRequester,
    /// The interval is longer than allowed.
    IntervalTooLong,
    /// An end of the interval cannot be written as a date.
    UnwritableTime,
}

impl HandlerError {
    pub open spec fn status_spec(self) -> u16 {
        match self {
            HandlerError::UnknownRequester => STATUS_FORBIDDEN,
            HandlerError::IntervalTooLong => STATUS_BAD_REQUEST,
            HandlerError::UnwritableTime => STATUS_INTERNAL_SERVER_ERROR,
        }
    }

    /// The HTTP status of the refusal.
    pub fn status(&self) -> (r: u16)
        ensures
            r == self.status_spec(),
    {
        match self {
            HandlerError::UnknownRequester => STATUS_FORBIDDEN,
            HandlerError::IntervalTooLong => STATUS_BAD_REQUEST,
            HandlerError::UnwritableTime => STATUS_INTERNAL_SERVER_ERROR,
        }
    }
}

/// Handles a device's report.
pub struct ReportRequestHandler {}

impl ReportRequestHandler {
    /// For a requester with a known hardware address: the status to write
    /// and the answer; refused where the address is unknown.
    pub fn handle(&self, req: &ReportReq, requester: Option<HwAddr>, state: &JustWoke) -> (r: Result<
        (StatusUpdate, ReportRes),
        HandlerError,
    >)
        ensures
            match requester {
                None => r == Err::<(StatusUpdate, ReportRes), HandlerError>(
                    HandlerError::UnknownRequester,
                ),
                Some(m) => r == Ok::<(StatusUpdate, ReportRes), HandlerError>(
                    (
                        StatusUpdate { mac: m, status: req.status, wake: req.wake },
                        ReportRes { woken: state@.contains(m) },
                    ),
                ),
            },
    {
        match requester {
            None => Err(HandlerError::UnknownRequester),
            Some(m) => {
                let woken = state.woken_in_previous_heartbeat(&m);
                Ok((StatusUpdate { mac: m, status: req.status, wake: req.wake }, ReportRes { woken }))
            },
        }
    }
}

/// Handles an on-demand power check.
pub struct ExcessRequestHandler {}

impl ExcessRequestHandler {
    /// The verdict as far as the generation mean settles it; otherwise the
    /// tier for which the storage mean is to be read.
    pub fn handle(&self, generation: Option<i64>) -> (r: ExcessStep)
        ensures
            r == (match generation {
                None => ExcessStep::Decided(ExcessStatus::No),
                Some(g) => if tier_of(g as int) == 0 {
                    ExcessStep::Decided(ExcessStatus::No)
                } else {
                    ExcessStep::NeedStorage(tier_of(g as int) as u8)
                },
            }),
    {
        excess_after_generation(generation)
    }

    /// The verdict once the storage mean of the tier is read.
    pub fn with_storage(&self, tier: u8, storage: Option<i64>) -> (r: ExcessStatus)
        requires
            1 <= tier <= 3,
        ensures
            r == (match storage {
                None => ExcessStatus::No,
                Some(s) => storage_verdict(tier as nat, s as int),
            }),
    {
        excess_from_storage(tier, storage)
    }
}

/// Handles a history request.
pub struct IntervalRequestHandler {}

impl IntervalRequestHandler {
    /// The store query for a request; a request without a device is taken to
    /// be about the requester where its address is known.
    pub fn handle(&self, req: &IntervalReq, requester: Option<HwAddr>, pv_measurement: &str, worker_measurement: &str) -> (r: Result<String, HandlerError>)
        ensures
            req.stop.total_nanos() - req.start.total_nanos() > MAX_QUERY_DAYS * NANOS_PER_DAY
                ==> r == Err::<String, HandlerError>(HandlerError::IntervalTooLong),
            req.stop.total_nanos() - req.start.total_nanos() <= MAX_QUERY_DAYS * NANOS_PER_DAY
                ==> match r {
                Ok(s) => s@ == "SELECT time, battery_voltage, pv_voltage, pv_current, temperature FROM "@
                    + pv_measurement@ + " WHERE "@ + condition_text(req.start, req.stop) + match (
                    if req.mac.is_some() {
                        req.mac
                    } else {
                        requester
                    }) {
                    None => Seq::<char>::empty(),
                    Some(m) => ";SELECT time, status, wake FROM "@ + worker_measurement@
                        + " WHERE "@ + condition_text(req.start, req.stop) + " AND mac = '"@
                        + mac_display(m.octets@) + "'"@,
                },
                Err(e) => e == HandlerError::UnwritableTime,
            },
    {
        let mac = if req.mac.is_some() {
            req.mac
        } else {
            requester
        };
        let full = IntervalReq::new(mac, req.start, req.stop);
        match validate_request(&full) {
            Err(_) => Err(HandlerError::IntervalTooLong),
            Ok(()) => match query_history_interval(&full, pv_measurement, worker_measurement) {
                Some(q) => Ok(q),
                None => Err(HandlerError::UnwritableTime),
            },
        }
    }
}

} // verus!
