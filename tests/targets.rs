use cargo_ipa::context::{Architecture, Platform};
use cargo_ipa::targets::gen_targets_list;

#[test]
fn all_targets_by_default_in_nesting_order() {
    let t = gen_targets_list(None, None);
    assert_eq!(
        t,
        vec![
            (Platform::iOS, Architecture::x86_64),
            (Platform::macOS, Architecture::x86_64),
            (Platform::iOS, Architecture::aarch64),
            (Platform::macOS, Architecture::aarch64),
        ]
    );
}

#[test]
fn one_platform_both_architectures() {
    let t = gen_targets_list(Some(Platform::iOS), None);
    assert_eq!(t, vec![(Platform::iOS, Architecture::x86_64), (Platform::iOS, Architecture::aarch64)]);
}

#[test]
fn one_architecture_both_platforms() {
    let t = gen_targets_list(None, Some(Architecture::aarch64));
    assert_eq!(t, vec![(Platform::iOS, Architecture::aarch64), (Platform::macOS, Architecture::aarch64)]);
}

#[test]
fn single_target() {
    let t = gen_targets_list(Some(Platform::macOS), Some(Architecture::x86_64));
    assert_eq!(t, vec![(Platform::macOS, Architecture::x86_64)]);
}

#[test]
fn target_count_is_product_without_repeats() {
    let platforms = [None, Some(Platform::iOS), Some(Platform::macOS)];
    let architectures = [None, Some(Architecture::x86_64), Some(Architecture::aarch64)];
    for p in platforms {
        for a in architectures {
            let t = gen_targets_list(p, a);
            let np = if p.is_some() { 1 } else { 2 };
            let na = if a.is_some() { 1 } else { 2 };
            assert_eq!(t.len(), np * na);
            for i in 0..t.len() {
                for j in 0..t.len() {
                    if i != j {
                        assert_ne!(t[i], t[j]);
                    }
                }
            }
            assert_eq!(t, gen_targets_list(p, a));
        }
    }
}

#[test]
fn platform_and_architecture_names() {
    assert_eq!(Platform::iOS.to_string(), "ios");
    assert_eq!(Platform::macOS.to_string(), "darwin");
    assert_eq!(Architecture::x86_64.to_string(), "x86_64");
    assert_eq!(Architecture::aarch64.to_string(), "aarch64");
}
