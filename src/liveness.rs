//! Which resolved devices are presumed asleep after a liveness probe.
use vstd::prelude::*;
use crate::hwaddr::HwAddr;
use crate::neighbor::NetAddr;

verus! {

/// What a single best-effort liveness check of an address gave.
#[derive(Debug, Clone, Copy, PartialEq, Eq, Structural)]
pub enum ProbeOutcome {
    /// The host answered.
    Replied,
    /// No answer within the timeout.
    NoReply,
    /// The check itself failed.
    Failed,
    /// No check was made (the device has no address).
    NotProbed,
}

/// Whether a device with this address and probe outcome counts as awake: only
/// when it has an address and answered.
pub open spec fn is_awake(addr: Option<NetAddr>, probe: ProbeOutcome) -> bool {
    addr.is_some() && probe == ProbeOutcome::Replied
}

/// The mapping with the address kept for each device that answered and
/// cleared for each device presumed asleep.
pub fn awake_macs(mapping: &Vec<(HwAddr, Option<NetAddr>)>, probes: &Vec<ProbeOutcome>) -> (r: Vec<
    (HwAddr, Option<NetAddr>),
>)
    requires
        probes.len() == mapping.len(),
    ensures
        r.len() == mapping.len(),
        forall|i: int|
            0 <= i < r.len() ==> #[trigger] r@[i] == (mapping@[i].0, if is_awake(
                mapping@[i].1,
                probes@[i],
            ) {
                mapping@[i].1
            } else {
                None
            }),
{
    let mut out: Vec<(HwAddr, Option<NetAddr>)> = Vec::new();
    let mut i: usize = 0;
    while i < mapping.len()
        invariant
            probes.len() == mapping.len(),
            i <= mapping.len(),
            out.len() == i,
            forall|k: int|
                0 <= k < i ==> #[trigger] out@[k] == (mapping@[k].0, if is_awake(
                    mapping@[k].1,
                    probes@[k],
                ) {
                    mapping@[k].1
                } else {
                    None
                }),
        decreases mapping.len() - i,
    {
        let (m, a) = mapping[i];
        let awake = a.is_some() && probes[i] == ProbeOutcome::Replied;
        out.push((m, if awake { a } else { None }));
        i = i + 1;
    }
    out
}

/// The devices of the mapping, in order, that are presumed asleep.
pub open spec fn asleep_of(mapping: Seq<(HwAddr, Option<NetAddr>)>, probes: Seq<ProbeOutcome>) -> Seq<HwAddr>
    decreases mapping.len(),
{
    if mapping.len() == 0 {
        Seq::empty()
    } else {
        let rest = asleep_of(mapping.drop_last(), probes);
        let k = mapping.len() - 1;
        if is_awake(mapping[k].1, probes[k]) {
            rest
        } else {
            rest.push(mapping[k].0)
        }
    }
}

/// The devices presumed asleep: those without an address, and those whose
/// probe brought no reply or failed.
pub fn sleeping_macs(mapping: &Vec<(HwAddr, Option<NetAddr>)>, probes: &Vec<ProbeOutcome>) -> (r: Vec<HwAddr>)
    requires
        probes.len() == mapping.len(),
    ensures
        r@ == asleep_of(mapping@, probes@),
{
    let mut out: Vec<HwAddr> = Vec::new();
    let mut i: usize = 0;
    while i < mapping.len()
        invariant
            probes.len() == mapping.len(),
            i <= mapping.len(),
            out@ == asleep_of(mapping@.subrange(0, i as int), probes@),
        decreases mapping.len() - i,
    {
        proof {
            assert(mapping@.subrange(0, i + 1).drop_last() =~= mapping@.subrange(0, i as int));
        }
        let (m, a) = mapping[i];
        if !(a.is_some() && probes[i] == ProbeOutcome::Replied) {
            out.push(m);
        }
        i = i + 1;
    }
    assert(mapping@.subrange(0, mapping.len() as int) =~= mapping@);
    out
}

/// Membership in `asleep_of`: a device of the mapping is there exactly when
/// one of its positions is not awake.
pub proof fn lemma_asleep_members(mapping: Seq<(HwAddr, Option<NetAddr>)>, probes: Seq<ProbeOutcome>, m: HwAddr)
    ensures
        asleep_of(mapping, probes).contains(m) <==> exists|i: int|
            0 <= i < mapping.len() && (#[trigger] mapping[i]).0 == m && !is_awake(
                mapping[i].1,
                probes[i],
            ),
    decreases mapping.len(),
{
    if mapping.len() > 0 {
        let k = mapping.len() - 1;
        let init = mapping.drop_last();
        lemma_asleep_members(init, probes, m);
        if asleep_of(mapping, probes).contains(m) {
            if asleep_of(init, probes).contains(m) {
                let i = choose|i: int|
                    0 <= i < init.len() && (#[trigger] init[i]).0 == m && !is_awake(
                        init[i].1,
                        probes[i],
                    );
                assert(mapping[i] == init[i]);
            } else {
                let s = asleep_of(mapping, probes);
                let j = choose|j: int| 0 <= j < s.len() && s[j] == m;
                assert(j == s.len() - 1);
                assert(mapping[k].0 == m);
            }
        }
        if exists|i: int|
            0 <= i < mapping.len() && (#[trigger] mapping[i]).0 == m && !is_awake(
                mapping[i].1,
                probes[i],
            ) {
            let i = choose|i: int|
                0 <= i < mapping.len() && (#[trigger] mapping[i]).0 == m && !is_awake(
                    mapping[i].1,
                    probes[i],
                );
            if i == k {
                assert(asleep_of(mapping, probes).last() == m);
            } else {
                assert(init[i] == mapping[i]);
                let s0 = asleep_of(init, probes);
                let j = choose|j: int| 0 <= j < s0.len() && s0[j] == m;
                assert(asleep_of(mapping, probes)[j] == m);
            }
        }
    }
}

/// A device without an address is presumed asleep; a device whose probe was
/// answered is not, unless it also stands elsewhere in the mapping unanswered.
pub proof fn lemma_liveness_policy(mapping: Seq<(HwAddr, Option<NetAddr>)>, probes: Seq<ProbeOutcome>, i: int)
    requires
        0 <= i < mapping.len(),
    ensures
        mapping[i].1.is_none() ==> asleep_of(mapping, probes).contains(mapping[i].0),
        (forall|j: int| 0 <= j < mapping.len() && #[trigger] mapping[j].0 == mapping[i].0 ==> j == i)
            && mapping[i].1.is_some() && probes[i] == ProbeOutcome::Replied
            ==> !asleep_of(mapping, probes).contains(mapping[i].0),
{
    lemma_asleep_members(mapping, probes, mapping[i].0);
}

} // verus!
