//! The set of devices woken during the most recent heartbeat cycle.
use vstd::prelude::*;
use crate::hwaddr::HwAddr;

verus! {

/// Devices that the latest cycle sent a wake to; replaced whole by each cycle.
#[derive(Debug)]
pub struct JustWoke {
    macs: Vec<HwAddr>,
}

impl View for JustWoke {
    type V = Seq<HwAddr>;

    closed spec fn view(&self) -> Seq<HwAddr> {
        self.macs@
    }
}

impl JustWoke {
    /// The state at process start: no device.
    pub fn new() -> (r: JustWoke)
        ensures
            r@ == Seq::<HwAddr>::empty(),
    {
        JustWoke { macs: Vec::new() }
    }

    /// Replaces the set with the devices woken in the cycle that just ended.
    pub fn just_woke(&mut self, macs: Vec<HwAddr>)
        ensures
            final(self)@ == macs@,
    {
        self.macs = macs;
    }

    /// Whether `mac` was woken in the most recent cycle.
    pub fn woken_in_previous_heartbeat(&self, mac: &HwAddr) -> (r: bool)
        ensures
            r == self@.contains(*mac),
    {
        let mut i: usize = 0;
        while i < self.macs.len()
            invariant
                i <= self.macs.len(),
                forall|k: int| 0 <= k < i ==> self.macs@[k] != *mac,
            decreases self.macs.len() - i,
        {
            if self.macs[i].same(mac) {
                return true;
            }
            i = i + 1;
        }
        false
    }
}

} // verus!
