//! Reported device states and the selection of devices due for a check.
use vstd::prelude::*;
use crate::hwaddr::HwAddr;

verus! {

/// How actively a device is running, in increasing order.
#[derive(Debug, Clone, Copy, PartialEq, Eq, Structural)]
pub enum WorkerStatus {
    Sleep,
    Awake,
    Inquisitive,
    Working,
}

impl WorkerStatus {
    /// Ordinal of the level: `Sleep` 0, `Awake` 1, `Inquisitive` 2, `Working` 3.
    pub open spec fn level(self) -> nat {
        match self {
            WorkerStatus::Sleep => 0,
            WorkerStatus::Awake => 1,
            WorkerStatus::Inquisitive => 2,
            WorkerStatus::Working => 3,
        }
    }

    /// The ordinal, as stored with each report.
    pub fn code(&self) -> (r: u8)
        ensures
            r as nat == self.level(),
    {
        match self {
            WorkerStatus::Sleep => 0,
            WorkerStatus::Awake => 1,
            WorkerStatus::Inquisitive => 2,
            WorkerStatus::Working => 3,
        }
    }

    /// The level with a stored ordinal, if there is one.
    pub fn from_code(code: u8) -> (r: Option<WorkerStatus>)
        ensures
            code <= 3 <==> r.is_some(),
            forall|s: WorkerStatus| r == Some(s) ==> s.level() == code as nat,
    {
        match code {
            0 => Some(WorkerStatus::Sleep),
            1 => Some(WorkerStatus::Awake),
            2 => Some(WorkerStatus::Inquisitive),
            3 => Some(WorkerStatus::Working),
            _ => None,
        }
    }

    /// Whether the device counts as running: `Inquisitive` or `Working`.
    pub open spec fn is_active(self) -> bool {
        self.level() >= 2
    }

    pub fn active(&self) -> (r: bool)
        ensures
            r == self.is_active(),
    {
        match self {
            WorkerStatus::Inquisitive | WorkerStatus::Working => true,
            _ => false,
        }
    }
}

/// One report of a device: its level, whether it asks to be woken, and when it
/// was observed (seconds since the Unix epoch).
#[derive(Debug, Clone, Copy, PartialEq, Eq)]
pub struct ReportedState {
    pub mac: HwAddr,
    pub status: WorkerStatus,
    pub wake: bool,
    pub observed_at: i64,
}

} // verus!
