use better_std::betteroption::BOption;
use better_std::betterresult::BResult;
use std::mem::size_of;
use std::num::NonZeroU32;

#[test]
fn niche_payload_is_reported_optimized() {
    assert_eq!(size_of::<BOption<bool>>(), size_of::<bool>());
    assert!(BOption::<bool>::niche_optimized());
    assert_eq!(size_of::<BOption<&u8>>(), size_of::<&u8>());
    assert!(BOption::<&u8>::niche_optimized());
    assert!(BOption::<NonZeroU32>::niche_optimized());
    assert!(BOption::Present(true).is_niche_optimized());
}

#[test]
fn payload_without_spare_pattern_is_not_optimized() {
    assert!(!BOption::<u8>::niche_optimized());
    assert!(!BOption::<u32>::niche_optimized());
    assert!(!BOption::<u64>::niche_optimized());
    assert!(!BOption::Present(1u16).is_niche_optimized());
}

#[test]
fn outcome_probe() {
    assert!(BResult::<bool, ()>::niche_optimized());
    assert!(BResult::<&u8, ()>::niche_optimized());
    assert!(!BResult::<u32, u32>::niche_optimized());
    assert!(!BResult::<u8, u8>::niche_optimized());
    assert!(!BResult::<u64, u8>::Failure(1).is_niche_optimized());
}
