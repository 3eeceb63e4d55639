use informant::excess::{
    evaluate_excess, excess_after_generation, excess_from_storage, generation_tier, ExcessStatus,
    ExcessStep,
};
use informant::handlers::ExcessRequestHandler;

// Means are in thousandths: 7.01 A is 7010, 12.51 V is 12510.

#[test]
fn test_query_excess_pv() {
    // generation 4.21: below every tier, the storage mean is not asked for
    assert_eq!(excess_after_generation(Some(4210)), ExcessStep::Decided(ExcessStatus::No));
    // generation 7.01: first tier, the storage mean is needed
    assert_eq!(excess_after_generation(Some(7010)), ExcessStep::NeedStorage(1));
    // too low voltage for Maybe in the first tier
    assert_eq!(excess_from_storage(1, Some(12510)), ExcessStatus::No);
    assert_eq!(evaluate_excess(Some(7010), Some(12510)), ExcessStatus::No);
    // enough voltage for Maybe in the second tier
    assert_eq!(evaluate_excess(Some(25010), Some(12510)), ExcessStatus::Maybe);
    // enough voltage for Yes in the second tier
    assert_eq!(evaluate_excess(Some(25010), Some(13010)), ExcessStatus::Yes);
}

#[test]
fn no_generation_data_gives_no() {
    assert_eq!(excess_after_generation(None), ExcessStep::Decided(ExcessStatus::No));
    assert_eq!(evaluate_excess(None, Some(20000)), ExcessStatus::No);
}

#[test]
fn below_lowest_tier_is_no_whatever_the_storage() {
    for g in [i64::MIN, -5, 0, 5000, 6999] {
        assert_eq!(excess_after_generation(Some(g)), ExcessStep::Decided(ExcessStatus::No));
        for s in [None, Some(0), Some(12800), Some(13300), Some(i64::MAX)] {
            assert_eq!(evaluate_excess(Some(g), s), ExcessStatus::No);
        }
    }
}

#[test]
fn missing_storage_data_gives_no() {
    assert_eq!(excess_from_storage(3, None), ExcessStatus::No);
    assert_eq!(evaluate_excess(Some(50000), None), ExcessStatus::No);
}

#[test]
fn tiers_count_thresholds_met() {
    assert_eq!(generation_tier(6999), 0);
    assert_eq!(generation_tier(7000), 1);
    assert_eq!(generation_tier(24999), 1);
    assert_eq!(generation_tier(25000), 2);
    assert_eq!(generation_tier(39999), 2);
    assert_eq!(generation_tier(40000), 3);
    assert_eq!(generation_tier(i64::MAX), 3);
}

#[test]
fn thresholds_per_tier() {
    // (generation, maybe threshold, yes threshold)
    for (g, maybe, yes) in [(7000, 12700, 13200), (30000, 12500, 13000), (45000, 12200, 12700)] {
        assert_eq!(evaluate_excess(Some(g), Some(yes + 1)), ExcessStatus::Yes);
        assert_eq!(evaluate_excess(Some(g), Some(yes)), ExcessStatus::Maybe);
        assert_eq!(evaluate_excess(Some(g), Some(maybe + 1)), ExcessStatus::Maybe);
        assert_eq!(evaluate_excess(Some(g), Some(maybe)), ExcessStatus::No);
        assert_eq!(evaluate_excess(Some(g), Some(maybe - 1)), ExcessStatus::No);
    }
}

#[test]
fn scenario_generation_tier_two_and_storage_gives_yes() {
    assert_eq!(generation_tier(30000), 2);
    assert_eq!(evaluate_excess(Some(30000), Some(13100)), ExcessStatus::Yes);
}

#[test]
fn scenario_low_generation_skips_storage() {
    assert_eq!(excess_after_generation(Some(5000)), ExcessStep::Decided(ExcessStatus::No));
}

#[test]
fn raising_a_mean_never_lowers_the_verdict() {
    let gens = [0, 7000, 25000, 40000, 60000];
    let stores = [12000, 12300, 12600, 12800, 13100, 13300];
    for (i, g1) in gens.iter().enumerate() {
        for g2 in &gens[i..] {
            for (j, s1) in stores.iter().enumerate() {
                for s2 in &stores[j..] {
                    let a = evaluate_excess(Some(*g1), Some(*s1)).code();
                    let b = evaluate_excess(Some(*g2), Some(*s2)).code();
                    assert!(a <= b);
                }
            }
        }
    }
}

#[test]
fn verdict_codes() {
    assert_eq!(ExcessStatus::No.code(), 0);
    assert_eq!(ExcessStatus::Maybe.code(), 1);
    assert_eq!(ExcessStatus::Yes.code(), 2);
}

#[test]
fn excess_handler_gives_the_verdict() {
    let h = ExcessRequestHandler {};
    assert_eq!(h.handle(Some(45000)), ExcessStep::NeedStorage(3));
    assert_eq!(h.handle(Some(100)), ExcessStep::Decided(ExcessStatus::No));
    assert_eq!(h.with_storage(3, Some(12800)), ExcessStatus::Yes);
    assert_eq!(h.with_storage(3, Some(12300)), ExcessStatus::Maybe);
    assert_eq!(h.with_storage(3, None), ExcessStatus::No);
}
