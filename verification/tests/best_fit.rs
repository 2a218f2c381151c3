use ferros::arch;
use ferros::granule::determine_best_granule_fit;
use ferros::granule::GranuleInfo;

fn total_bytes(infos: &[GranuleInfo]) -> u64 {
    infos.iter().map(|i| i.count * (1u64 << i.size_bits)).sum()
}

fn total_count(infos: &[GranuleInfo]) -> u64 {
    infos.iter().map(|i| i.count).sum()
}

#[test]
fn best_fit_is_deterministic() {
    let tiers = arch::arm::granule_tiers();
    let first = determine_best_granule_fit(123 << 12, &tiers);
    let second = determine_best_granule_fit(123 << 12, &tiers);
    assert_eq!(first, second);
}

#[test]
fn exact_boundary_prefers_the_larger_granule() {
    let tiers = arch::arm::granule_tiers();
    // 1 MiB exactly: one section, not sixteen large pages.
    let infos = determine_best_granule_fit(1 << 20, &tiers);
    assert_eq!(infos, vec![GranuleInfo { size_bits: 20, count: 1 }]);
    // 16 MiB exactly: one supersection.
    let infos = determine_best_granule_fit(1 << 24, &tiers);
    assert_eq!(infos, vec![GranuleInfo { size_bits: 24, count: 1 }]);
}

#[test]
fn mixed_cover_uses_each_tier_in_order() {
    let tiers = arch::arm::granule_tiers();
    let requested = (3u64 << 24) + (2 << 20) + (1 << 16) + (5 << 12);
    let infos = determine_best_granule_fit(requested, &tiers);
    assert_eq!(
        infos,
        vec![
            GranuleInfo { size_bits: 24, count: 3 },
            GranuleInfo { size_bits: 20, count: 2 },
            GranuleInfo { size_bits: 16, count: 1 },
            GranuleInfo { size_bits: 12, count: 5 },
        ]
    );
    assert_eq!(total_bytes(&infos), requested);
    assert_eq!(total_count(&infos), 11);
}

#[test]
fn unaligned_remainder_rounds_up_one_smallest_granule() {
    let tiers = arch::arm::granule_tiers();
    let requested = (1u64 << 12) + 1;
    let infos = determine_best_granule_fit(requested, &tiers);
    assert_eq!(infos, vec![GranuleInfo { size_bits: 12, count: 2 }]);
    let covered = total_bytes(&infos);
    assert!(covered >= requested);
    // The waste stays below one smallest granule.
    assert!(covered < requested + (1 << 12));
}

#[test]
fn aarch64_tiers_cover_with_three_sizes() {
    let tiers = arch::aarch64::granule_tiers();
    let requested = (1u64 << 30) + (3 << 21) + (1 << 12);
    let infos = determine_best_granule_fit(requested, &tiers);
    assert_eq!(
        infos,
        vec![
            GranuleInfo { size_bits: 30, count: 1 },
            GranuleInfo { size_bits: 21, count: 3 },
            GranuleInfo { size_bits: 12, count: 1 },
        ]
    );
    assert_eq!(total_bytes(&infos), requested);
}

#[test]
fn smallest_possible_request_takes_one_smallest_granule() {
    let tiers = arch::aarch64::granule_tiers();
    let infos = determine_best_granule_fit(1 << 12, &tiers);
    assert_eq!(infos, vec![GranuleInfo { size_bits: 12, count: 1 }]);
}
