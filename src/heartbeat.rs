//! One heartbeat cycle as a sequence of stages. The caller performs each
//! stage's outside work (store queries and writes, the neighbor table, probes,
//! sends) and hands the outcome back; the cycle decides what happens next.
use vstd::prelude::*;
use crate::excess::ExcessStatus;
use crate::hwaddr::HwAddr;
use crate::just_woke::JustWoke;
use crate::liveness::{ProbeOutcome, asleep_of, lemma_liveness_policy, sleeping_macs};
use crate::neighbor::{NeighborEntry, NetAddr, has_malformed, last_addr_for, macs_to_addrs};
use crate::status::WorkerStatus;
use crate::wake::{WAKE_PORT, WakeDatagram, broadcast_of, magic_payload, mapped_addr, wake_macs};

verus! {

/// Stages of a cycle, in order.
#[derive(Debug, Clone, Copy, PartialEq, Eq, Structural)]
pub enum Phase {
    Selecting,
    Resolving,
    Probing,
    Deciding,
    Waking,
    Publishing,
}

/// A status to write for a device at the end of the probing stage.
#[derive(Debug, Clone, Copy, PartialEq, Eq)]
pub struct StatusUpdate {
    pub mac: HwAddr,
    pub status: WorkerStatus,
    pub wake: bool,
}

/// The devices of a selection whose wake flag is `w`, in order.
pub open spec fn macs_with_wake(s: Seq<(HwAddr, bool)>, w: bool) -> Seq<HwAddr>
    decreases s.len(),
{
    if s.len() == 0 {
        Seq::empty()
    } else {
        let rest = macs_with_wake(s.drop_last(), w);
        if s.last().1 == w {
            rest.push(s.last().0)
        } else {
            rest
        }
    }
}

/// The resolution of `requested` against the entries.
pub open spec fn resolution(requested: Seq<HwAddr>, e: Seq<NeighborEntry>) -> Seq<(HwAddr, Option<NetAddr>)> {
    Seq::new(requested.len(), |i: int| (requested[i], last_addr_for(e, requested[i])))
}

/// The state of a cycle between stages.
pub struct HeartbeatCycle {
    pub phase: Phase,
    /// Selected devices that do not ask to be woken: logged asleep.
    pub immediate_sleep: Vec<HwAddr>,
    /// Selected devices that ask to be woken: resolved and probed.
    pub candidates: Vec<HwAddr>,
    /// The candidates' addresses; absent where resolution failed.
    pub resolved: Option<Vec<(HwAddr, Option<NetAddr>)>>,
    /// Candidates presumed asleep after probing.
    pub asleep: Vec<HwAddr>,
    pub verdict: ExcessStatus,
    /// Devices that a wake was sent to.
    pub woken: Vec<HwAddr>,
}

/// The addresses to probe: the resolution, or nothing where it failed.
pub open spec fn probe_list_of(resolved: Option<Vec<(HwAddr, Option<NetAddr>)>>) -> Seq<(HwAddr, Option<NetAddr>)> {
    match resolved {
        Some(v) => v@,
        None => Seq::empty(),
    }
}

/// Whether a wake is to be sent: a `Yes` verdict and a resolution that succeeded.
pub open spec fn wake_due(verdict: ExcessStatus, resolved: Option<Vec<(HwAddr, Option<NetAddr>)>>) -> bool {
    verdict == ExcessStatus::Yes && resolved.is_some()
}

/// The devices that the waking stage sends to.
pub open spec fn wake_targets(c: HeartbeatCycle) -> Seq<HwAddr> {
    if wake_due(c.verdict, c.resolved) {
        c.asleep@
    } else {
        Seq::empty()
    }
}

/// The devices counted as woken once the plan was sent, or failed to be.
pub open spec fn woken_after(c: HeartbeatCycle, sent: bool) -> Seq<HwAddr> {
    if sent {
        wake_targets(c)
    } else {
        Seq::empty()
    }
}

fn split_selection(selected: &Vec<(HwAddr, bool)>) -> (r: (Vec<HwAddr>, Vec<HwAddr>))
    ensures
        r.0@ == macs_with_wake(selected@, false),
        r.1@ == macs_with_wake(selected@, true),
{
    let mut sleep: Vec<HwAddr> = Vec::new();
    let mut wake: Vec<HwAddr> = Vec::new();
    let mut i: usize = 0;
    while i < selected.len()
        invariant
            i <= selected.len(),
            sleep@ == macs_with_wake(selected@.subrange(0, i as int), false),
            wake@ == macs_with_wake(selected@.subrange(0, i as int), true),
        decreases selected.len() - i,
    {
        proof {
            assert(selected@.subrange(0, i + 1).drop_last() =~= selected@.subrange(0, i as int));
        }
        let (m, w) = selected[i];
        if w {
            wake.push(m);
        } else {
            sleep.push(m);
        }
        i = i + 1;
    }
    assert(selected@.subrange(0, selected.len() as int) =~= selected@);
    (sleep, wake)
}

fn copy_mapping(v: &Vec<(HwAddr, Option<NetAddr>)>) -> (r: Vec<(HwAddr, Option<NetAddr>)>)
    ensures
        r@ == v@,
{
    let mut out: Vec<(HwAddr, Option<NetAddr>)> = Vec::new();
    let mut i: usize = 0;
    while i < v.len()
        invariant
            i <= v.len(),
            out@ == v@.subrange(0, i as int),
        decreases v.len() - i,
    {
        out.push(v[i]);
        assert(out@ =~= v@.subrange(0, i + 1));
        i = i + 1;
    }
    assert(out@ =~= v@);
    out
}

fn contains_mac(v: &Vec<HwAddr>, m: &HwAddr) -> (r: bool)
    ensures
        r == v@.contains(*m),
{
    let mut i: usize = 0;
    while i < v.len()
        invariant
            i <= v.len(),
            forall|k: int| 0 <= k < i ==> v@[k] != *m,
        decreases v.len() - i,
    {
        if v[i].same(m) {
            return true;
        }
        i = i + 1;
    }
    false
}

impl HeartbeatCycle {
    /// A cycle about to select devices.
    pub fn new() -> (r: HeartbeatCycle)
        ensures
            r.phase == Phase::Selecting,
            r.immediate_sleep@.len() == 0,
            r.candidates@.len() == 0,
            r.resolved.is_none(),
            r.asleep@.len() == 0,
            r.verdict == ExcessStatus::No,
            r.woken@.len() == 0,
    {
        HeartbeatCycle {
            phase: Phase::Selecting,
            immediate_sleep: Vec::new(),
            candidates: Vec::new(),
            resolved: None,
            asleep: Vec::new(),
            verdict: ExcessStatus::No,
            woken: Vec::new(),
        }
    }

    /// Takes the selection of stale devices (absent where the store query
    /// failed, which selects nothing) and splits it by wake flag.
    pub fn selected(&mut self, selection: Option<Vec<(HwAddr, bool)>>)
        requires
            old(self).phase == Phase::Selecting,
        ensures
            final(self).phase == Phase::Resolving,
            match selection {
                Some(s) => final(self).immediate_sleep@ == macs_with_wake(s@, false)
                    && final(self).candidates@ == macs_with_wake(s@, true),
                None => final(self).immediate_sleep@.len() == 0 && final(self).candidates@.len() == 0,
            },
            final(self).resolved == old(self).resolved,
            final(self).asleep == old(self).asleep,
            final(self).verdict == old(self).verdict,
            final(self).woken == old(self).woken,
    {
        match selection {
            Some(s) => {
                let (sleep, wake) = split_selection(&s);
                self.immediate_sleep = sleep;
                self.candidates = wake;
            },
            None => {
                self.immediate_sleep = Vec::new();
                self.candidates = Vec::new();
            },
        }
        self.phase = Phase::Resolving;
    }

    /// Takes the neighbor table (absent where it could not be fetched in
    /// time) and resolves the candidates; a malformed table fails resolution.
    pub fn neighbors(&mut self, entries: Option<Vec<NeighborEntry>>)
        requires
            old(self).phase == Phase::Resolving,
        ensures
            final(self).phase == Phase::Probing,
            final(self).resolved.is_some() <==> (entries.is_some() && !has_malformed(
                entries.unwrap()@,
            )),
            forall|v: Vec<(HwAddr, Option<NetAddr>)>|
                final(self).resolved == Some(v) ==> v@ == resolution(
                    old(self).candidates@,
                    entries.unwrap()@,
                ),
            final(self).immediate_sleep == old(self).immediate_sleep,
            final(self).candidates == old(self).candidates,
            final(self).asleep == old(self).asleep,
            final(self).verdict == old(self).verdict,
            final(self).woken == old(self).woken,
    {
        self.resolved = match entries {
            Some(e) => match macs_to_addrs(&self.candidates, &e) {
                Ok(v) => {
                    assert(v@ =~= resolution(self.candidates@, e@));
                    Some(v)
                },
                Err(_) => None,
            },
            None => None,
        };
        self.phase = Phase::Probing;
    }

    /// The devices and addresses to probe, in order.
    pub fn probe_list(&self) -> (r: Vec<(HwAddr, Option<NetAddr>)>)
        ensures
            r@ == probe_list_of(self.resolved),
    {
        match &self.resolved {
            Some(v) => copy_mapping(v),
            None => Vec::new(),
        }
    }

    /// Takes the probe outcomes, one per entry of the probe list, and keeps
    /// the devices presumed asleep.
    pub fn probed(&mut self, probes: Vec<ProbeOutcome>)
        requires
            old(self).phase == Phase::Probing,
            probes.len() == probe_list_of(old(self).resolved).len(),
        ensures
            final(self).phase == Phase::Deciding,
            final(self).asleep@ == asleep_of(probe_list_of(old(self).resolved), probes@),
            final(self).immediate_sleep == old(self).immediate_sleep,
            final(self).candidates == old(self).candidates,
            final(self).resolved == old(self).resolved,
            final(self).verdict == old(self).verdict,
            final(self).woken == old(self).woken,
    {
        let list = self.probe_list();
        self.asleep = sleeping_macs(&list, &probes);
        self.phase = Phase::Deciding;
    }

    /// The statuses to write: `Sleep` without wake for devices that do not ask
    /// to be woken; for candidates `Sleep` if presumed asleep, else `Awake`,
    /// with wake.
    pub fn status_updates(&self) -> (r: Vec<StatusUpdate>)
        ensures
            r.len() == self.immediate_sleep.len() + self.candidates.len(),
            forall|i: int|
                0 <= i < self.immediate_sleep.len() ==> #[trigger] r@[i] == (StatusUpdate {
                    mac: self.immediate_sleep@[i],
                    status: WorkerStatus::Sleep,
                    wake: false,
                }),
            forall|j: int|
                0 <= j < self.candidates.len() ==> #[trigger] r@[self.immediate_sleep.len() + j]
                    == (StatusUpdate {
                    mac: self.candidates@[j],
                    status: if self.asleep@.contains(self.candidates@[j]) {
                        WorkerStatus::Sleep
                    } else {
                        WorkerStatus::Awake
                    },
                    wake: true,
                }),
    {
        let mut out: Vec<StatusUpdate> = Vec::new();
        let mut i: usize = 0;
        while i < self.immediate_sleep.len()
            invariant
                i <= self.immediate_sleep.len(),
                out.len() == i,
                forall|k: int|
                    0 <= k < i ==> #[trigger] out@[k] == (StatusUpdate {
                        mac: self.immediate_sleep@[k],
                        status: WorkerStatus::Sleep,
                        wake: false,
                    }),
            decreases self.immediate_sleep.len() - i,
        {
            out.push(StatusUpdate { mac: self.immediate_sleep[i], status: WorkerStatus::Sleep, wake: false });
            i = i + 1;
        }
        let n = self.immediate_sleep.len();
        let mut j: usize = 0;
        while j < self.candidates.len()
            invariant
                n == self.immediate_sleep.len(),
                j <= self.candidates.len(),
                out.len() == n + j,
                forall|k: int|
                    0 <= k < n ==> #[trigger] out@[k] == (StatusUpdate {
                        mac: self.immediate_sleep@[k],
                        status: WorkerStatus::Sleep,
                        wake: false,
                    }),
                forall|k: int|
                    0 <= k < j ==> #[trigger] out@[n + k] == (StatusUpdate {
                        mac: self.candidates@[k],
                        status: if self.asleep@.contains(self.candidates@[k]) {
                            WorkerStatus::Sleep
                        } else {
                            WorkerStatus::Awake
                        },
                        wake: true,
                    }),
            decreases self.candidates.len() - j,
        {
            let m = self.candidates[j];
            let status = if contains_mac(&self.asleep, &m) {
                WorkerStatus::Sleep
            } else {
                WorkerStatus::Awake
            };
            out.push(StatusUpdate { mac: m, status, wake: true });
            assert(out@[n + j] == out@[out.len() - 1]);
            j = j + 1;
        }
        out
    }

    /// Takes the power verdict (absent where its query failed, which counts
    /// as `No`).
    pub fn decided(&mut self, verdict: Option<ExcessStatus>)
        requires
            old(self).phase == Phase::Deciding,
        ensures
            final(self).phase == Phase::Waking,
            final(self).verdict == match verdict {
                Some(v) => v,
                None => ExcessStatus::No,
            },
            final(self).immediate_sleep == old(self).immediate_sleep,
            final(self).candidates == old(self).candidates,
            final(self).resolved == old(self).resolved,
            final(self).asleep == old(self).asleep,
            final(self).woken == old(self).woken,
    {
        self.verdict = match verdict {
            Some(v) => v,
            None => ExcessStatus::No,
        };
        self.phase = Phase::Waking;
    }

    /// The datagrams to send: to every device presumed asleep when the verdict
    /// is `Yes` and resolution succeeded, else none.
    pub fn wake_plan(&self) -> (r: Vec<WakeDatagram>)
        ensures
            r.len() == wake_targets(*self).len(),
            forall|i: int|
                0 <= i < r.len() ==> {
                    &&& (#[trigger] r@[i]).target == wake_targets(*self)[i]
                    &&& r@[i].payload@ == magic_payload(wake_targets(*self)[i].octets@)
                    &&& r@[i].dest@ == broadcast_of(
                        mapped_addr(probe_list_of(self.resolved), wake_targets(*self)[i]),
                    )
                    &&& r@[i].port == WAKE_PORT
                },
    {
        if self.verdict == ExcessStatus::Yes {
            match &self.resolved {
                Some(v) => wake_macs(&self.asleep, v),
                None => Vec::new(),
            }
        } else {
            Vec::new()
        }
    }

    /// Takes whether every datagram of the plan was sent; a failed send
    /// leaves no device counted as woken.
    pub fn dispatched(&mut self, sent: bool)
        requires
            old(self).phase == Phase::Waking,
        ensures
            final(self).phase == Phase::Publishing,
            final(self).woken@ == woken_after(*old(self), sent),
            final(self).immediate_sleep == old(self).immediate_sleep,
            final(self).candidates == old(self).candidates,
            final(self).resolved == old(self).resolved,
            final(self).asleep == old(self).asleep,
            final(self).verdict == old(self).verdict,
    {
        let due = self.verdict == ExcessStatus::Yes && self.resolved.is_some();
        if sent && due {
            self.woken = self.asleep.clone();
            assert(self.woken@ =~= self.asleep@);
        } else {
            self.woken = Vec::new();
        }
        self.phase = Phase::Publishing;
    }

    /// Ends the cycle by replacing the just-woke set with the devices woken.
    pub fn publish(self, state: &mut JustWoke)
        requires
            self.phase == Phase::Publishing,
        ensures
            final(state)@ == self.woken@,
    {
        state.just_woke(self.woken);
    }
}

/// A device whose address is known and whose probe was answered is never
/// among the wake targets of the cycle.
pub proof fn lemma_no_wake_for_answered(c: HeartbeatCycle, probes: Seq<ProbeOutcome>, i: int)
    requires
        c.asleep@ == asleep_of(probe_list_of(c.resolved), probes),
        0 <= i < probe_list_of(c.resolved).len(),
        forall|j: int|
            0 <= j < probe_list_of(c.resolved).len() && #[trigger] probe_list_of(c.resolved)[j].0
                == probe_list_of(c.resolved)[i].0 ==> j == i,
        probe_list_of(c.resolved)[i].1.is_some(),
        probes[i] == ProbeOutcome::Replied,
    ensures
        !wake_targets(c).contains(probe_list_of(c.resolved)[i].0),
{
    lemma_liveness_policy(probe_list_of(c.resolved), probes, i);
}

/// What a cycle publishes: nothing after a verdict other than `Yes`; after a
/// `Yes`, exactly the devices the datagrams went to, or nothing if sending
/// failed.
pub proof fn lemma_published_set(c: HeartbeatCycle, sent: bool)
    ensures
        c.verdict != ExcessStatus::Yes ==> woken_after(c, sent).len() == 0,
        c.verdict == ExcessStatus::Yes && sent ==> woken_after(c, sent) == wake_targets(c),
        !sent ==> woken_after(c, sent).len() == 0,
        wake_targets(c).len() > 0 ==> c.verdict == ExcessStatus::Yes,
{
}

} // verus!
