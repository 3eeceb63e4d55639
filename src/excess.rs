//! Power-availability verdict from two time-windowed sensor means.
//!
//! Means are fixed-point values in thousandths of their unit (milliampere for
//! the generation current, millivolt for the storage voltage).
use vstd::prelude::*;

verus! {

/// Lowest generation mean (mA) of the first tier.
pub const GENERATION_TIER_1: i64 = 7000;
/// Lowest generation mean (mA) of the second tier.
pub const GENERATION_TIER_2: i64 = 25000;
/// Lowest generation mean (mA) of the third tier.
pub const GENERATION_TIER_3: i64 = 40000;

/// Storage voltages (mV) above which the verdict is at least `Maybe`, per tier.
pub const MAYBE_VOLTAGE_TIER_1: i64 = 12700;
pub const MAYBE_VOLTAGE_TIER_2: i64 = 12500;
pub const MAYBE_VOLTAGE_TIER_3: i64 = 12200;

/// Storage voltages (mV) above which the verdict is `Yes`, per tier.
pub const YES_VOLTAGE_TIER_1: i64 = 13200;
pub const YES_VOLTAGE_TIER_2: i64 = 13000;
pub const YES_VOLTAGE_TIER_3: i64 = 12700;

/// Three-valued verdict on surplus power.
#[derive(Debug, Clone, Copy, PartialEq, Eq, Structural)]
pub enum ExcessStatus {
    No,
    Maybe,
    Yes,
}

impl ExcessStatus {
    /// Position in the order `No < Maybe < Yes`.
    pub open spec fn rank(self) -> nat {
        match self {
            ExcessStatus::No => 0,
            ExcessStatus::Maybe => 1,
            ExcessStatus::Yes => 2,
        }
    }

    /// Numeric code of the verdict (0, 1 or 2).
    pub fn code(&self) -> (r: u8)
        ensures
            r as nat == self.rank(),
    {
        match self {
            ExcessStatus::No => 0,
            ExcessStatus::Maybe => 1,
            ExcessStatus::Yes => 2,
        }
    }
}

/// Number of generation thresholds that `mean` meets or exceeds.
pub open spec fn tier_of(mean: int) -> nat {
    if mean >= GENERATION_TIER_3 {
        3
    } else if mean >= GENERATION_TIER_2 {
        2
    } else if mean >= GENERATION_TIER_1 {
        1
    } else {
        0
    }
}

pub open spec fn maybe_threshold(tier: nat) -> int {
    if tier <= 1 {
        MAYBE_VOLTAGE_TIER_1 as int
    } else if tier == 2 {
        MAYBE_VOLTAGE_TIER_2 as int
    } else {
        MAYBE_VOLTAGE_TIER_3 as int
    }
}

pub open spec fn yes_threshold(tier: nat) -> int {
    if tier <= 1 {
        YES_VOLTAGE_TIER_1 as int
    } else if tier == 2 {
        YES_VOLTAGE_TIER_2 as int
    } else {
        YES_VOLTAGE_TIER_3 as int
    }
}

/// Verdict for a storage mean within a generation tier of at least one.
pub open spec fn storage_verdict(tier: nat, storage: int) -> ExcessStatus {
    if storage > yes_threshold(tier) {
        ExcessStatus::Yes
    } else if storage > maybe_threshold(tier) {
        ExcessStatus::Maybe
    } else {
        ExcessStatus::No
    }
}

/// The verdict for the two means, each absent when its window held no data.
pub open spec fn excess_verdict(generation: Option<i64>, storage: Option<i64>) -> ExcessStatus {
    match generation {
        None => ExcessStatus::No,
        Some(g) => if tier_of(g as int) == 0 {
            ExcessStatus::No
        } else {
            match storage {
                None => ExcessStatus::No,
                Some(s) => storage_verdict(tier_of(g as int), s as int),
            }
        },
    }
}

/// What is known after the generation mean has been read.
#[derive(Debug, Clone, Copy, PartialEq, Eq, Structural)]
pub enum ExcessStep {
    /// The verdict is settled; the storage mean is not needed.
    Decided(ExcessStatus),
    /// The storage mean must be read; the generation tier (1 to 3) is carried.
    NeedStorage(u8),
}

/// Generation tier of a mean: how many tier thresholds it meets or exceeds.
pub fn generation_tier(mean: i64) -> (r: u8)
    ensures
        r as nat == tier_of(mean as int),
        r <= 3,
{
    if mean >= GENERATION_TIER_3 {
        3
    } else if mean >= GENERATION_TIER_2 {
        2
    } else if mean >= GENERATION_TIER_1 {
        1
    } else {
        0
    }
}

/// The verdict as far as the generation mean settles it: decided from the generation mean alone when it
/// is absent or below every tier, and otherwise asks for the storage mean.
pub fn excess_after_generation(generation: Option<i64>) -> (r: ExcessStep)
    ensures
        generation.is_none() ==> r == ExcessStep::Decided(ExcessStatus::No),
        forall|g: i64|
            generation == Some(g) && tier_of(g as int) == 0 ==> r == ExcessStep::Decided(
                ExcessStatus::No,
            ),
        forall|g: i64|
            generation == Some(g) && tier_of(g as int) > 0 ==> r == ExcessStep::NeedStorage(
                tier_of(g as int) as u8,
            ),
{
    match generation {
        None => ExcessStep::Decided(ExcessStatus::No),
        Some(g) => {
            let tier = generation_tier(g);
            if tier == 0 {
                ExcessStep::Decided(ExcessStatus::No)
            } else {
                ExcessStep::NeedStorage(tier)
            }
        },
    }
}

/// The verdict once the storage mean is read: that mean compared with the thresholds
/// of the tier; an absent mean gives `No`.
pub fn excess_from_storage(tier: u8, storage: Option<i64>) -> (r: ExcessStatus)
    requires
        1 <= tier <= 3,
    ensures
        storage.is_none() ==> r == ExcessStatus::No,
        forall|s: i64| storage == Some(s) ==> r == storage_verdict(tier as nat, s as int),
{
    match storage {
        None => ExcessStatus::No,
        Some(s) => {
            let (maybe, yes) = if tier == 1 {
                (MAYBE_VOLTAGE_TIER_1, YES_VOLTAGE_TIER_1)
            } else if tier == 2 {
                (MAYBE_VOLTAGE_TIER_2, YES_VOLTAGE_TIER_2)
            } else {
                (MAYBE_VOLTAGE_TIER_3, YES_VOLTAGE_TIER_3)
            };
            if s > yes {
                ExcessStatus::Yes
            } else if s > maybe {
                ExcessStatus::Maybe
            } else {
                ExcessStatus::No
            }
        },
    }
}

/// The verdict for both means at once.
pub fn evaluate_excess(generation: Option<i64>, storage: Option<i64>) -> (r: ExcessStatus)
    ensures
        r == excess_verdict(generation, storage),
{
    match excess_after_generation(generation) {
        ExcessStep::Decided(v) => v,
        ExcessStep::NeedStorage(tier) => excess_from_storage(tier, storage),
    }
}

/// Below the lowest generation threshold the verdict is `No` whatever the
/// storage mean, and the storage mean is never asked for.
pub proof fn lemma_no_generation_no_excess(g: i64, storage: Option<i64>)
    requires
        g < GENERATION_TIER_1,
    ensures
        excess_verdict(Some(g), storage) == ExcessStatus::No,
        tier_of(g as int) == 0,
{
}

/// Within every tier: above the yes threshold gives `Yes`, above the maybe
/// threshold up to the yes threshold gives `Maybe`, and at or below the maybe
/// threshold gives `No`.
pub proof fn lemma_tier_thresholds(g: i64, s: i64)
    requires
        tier_of(g as int) >= 1,
    ensures
        s > yes_threshold(tier_of(g as int)) ==> excess_verdict(Some(g), Some(s))
            == ExcessStatus::Yes,
        maybe_threshold(tier_of(g as int)) < s <= yes_threshold(tier_of(g as int))
            ==> excess_verdict(Some(g), Some(s)) == ExcessStatus::Maybe,
        s <= maybe_threshold(tier_of(g as int)) ==> excess_verdict(Some(g), Some(s))
            == ExcessStatus::No,
        maybe_threshold(tier_of(g as int)) < yes_threshold(tier_of(g as int)),
{
}

/// Raising either mean never lowers the verdict.
pub proof fn lemma_excess_monotone(g1: i64, g2: i64, s1: i64, s2: i64)
    requires
        g1 <= g2,
        s1 <= s2,
    ensures
        excess_verdict(Some(g1), Some(s1)).rank() <= excess_verdict(Some(g2), Some(s2)).rank(),
{
}

} // verus!
