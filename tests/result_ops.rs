use better_std::betteroption::BOption;
use better_std::betterresult::{BResult, FfiResult};
use better_std::prelude::IntoBResult;
use std::convert::Infallible;

#[test]
fn result_predicates() {
    let s: BResult<u8, u8> = BResult::Success(1);
    let f: BResult<u8, u8> = BResult::Failure(1);
    assert!(s.is_ok() && s.is_not_err() && !s.is_err() && !s.is_not_ok());
    assert!(f.is_err() && f.is_not_ok() && !f.is_ok() && !f.is_not_err());
}

#[test]
fn result_round_trip_success() {
    let back = BResult::<u32, String>::Success(7).into_ffi_result().into_bresult();
    assert!(matches!(back, BResult::Success(7)));
}

#[test]
fn result_round_trip_failure() {
    let back = BResult::<u32, String>::Failure(String::from("bad")).into_ffi_result().into_bresult();
    assert!(matches!(back, BResult::Failure(s) if s == "bad"));
}

#[test]
fn stable_result_constructors() {
    assert!(matches!(FfiResult::<u8, char>::new_ok(3).into_bresult(), BResult::Success(3)));
    assert!(matches!(FfiResult::<u8, char>::new_err('x').into_bresult(), BResult::Failure('x')));
}

#[test]
fn map_ok_leaves_failure_untouched() {
    let r: BResult<u8, &str> = BResult::Failure("boom");
    assert!(matches!(r.into_map_ok(|x| x as u64 * 2), BResult::Failure("boom")));
    let s: BResult<u8, &str> = BResult::Success(4);
    assert!(matches!(s.into_map_ok(|x| x as u64 * 2), BResult::Success(8)));
}

#[test]
fn map_err_leaves_success_untouched() {
    let s: BResult<u8, &str> = BResult::Success(4);
    assert!(matches!(s.into_map_err(|e| e.len()), BResult::Success(4)));
    let f: BResult<u8, &str> = BResult::Failure("boom");
    assert!(matches!(f.into_map_err(|e| e.len()), BResult::Failure(4)));
}

#[test]
fn failure_payload_handed_back_intact() {
    let f: BResult<u8, String> = BResult::Failure(String::from("boom"));
    assert_eq!(f.unwrap_err(), "boom");
    let g: BResult<u8, String> = BResult::Failure(String::from("boom"));
    assert_eq!(g.expect_err("wanted a failure"), "boom");
    let h: BResult<u8, String> = BResult::Failure(String::from("boom"));
    assert_eq!(h.unwrap_or_else(|e| e.len() as u8), 4);
}

#[test]
fn result_unwrap_family() {
    assert_eq!(BResult::<u8, u8>::Success(1).unwrap(), 1);
    assert_eq!(BResult::<u8, u8>::Success(1).expect("ok"), 1);
    assert_eq!(BResult::<u8, u8>::Success(1).unwrap_unchecked(), 1);
    assert_eq!(BResult::<u8, u8>::Failure(2).unwrap_err_unchecked(), 2);
    assert_eq!(BResult::<u8, u8>::Failure(2).unwrap_or(9), 9);
    assert_eq!(BResult::<u8, u8>::Success(1).unwrap_or(9), 1);
    assert_eq!(BResult::<u8, u8>::Failure(2).unwrap_or_default(), 0);
    assert_eq!(BResult::<u8, u8>::Success(1).unwrap_err_or(9), 9);
    assert_eq!(BResult::<u8, u8>::Failure(2).unwrap_err_or(9), 2);
    assert_eq!(BResult::<u8, u8>::Success(1).unwrap_err_or_else(|t| t + 10), 11);
    assert_eq!(BResult::<u8, u8>::Success(1).unwrap_err_or_default(), 0);
}

#[test]
fn result_condition_tests() {
    assert!(BResult::<u8, u8>::Success(3).into_is_ok_and(|t| t == 3));
    assert!(!BResult::<u8, u8>::Failure(3).into_is_ok_and(|t| t == 3));
    assert!(BResult::<u8, u8>::Success(3).into_is_ok_or(|_| false));
    assert!(BResult::<u8, u8>::Failure(3).into_is_ok_or(|e| e == 3));
    assert!(BResult::<u8, u8>::Failure(3).into_is_err_and(|e| e == 3));
    assert!(!BResult::<u8, u8>::Success(3).into_is_err_and(|e| e == 3));
    assert!(BResult::<u8, u8>::Failure(3).into_is_err_or(|_| false));
    assert!(!BResult::<u8, u8>::Success(3).into_is_err_or(|t| t == 4));
}

#[test]
fn result_to_presence_and_host() {
    assert!(matches!(BResult::<u8, char>::Success(1).into_boption(), BOption::Present(1)));
    assert!(matches!(BResult::<u8, char>::Failure('e').into_boption(), BOption::Absent));
    assert!(matches!(BResult::<u8, char>::Failure('e').into_boption_err(), BOption::Present('e')));
    assert!(matches!(BResult::<u8, char>::Success(1).into_boption_err(), BOption::Absent));
    assert!(matches!(BResult::<u8, char>::Success(1).into_boption_unchecked(), BOption::Present(1)));
    assert!(matches!(
        BResult::<u8, char>::Failure('e').into_boption_err_unchecked(),
        BOption::Present('e')
    ));
    assert_eq!(BResult::<u8, char>::Success(1).into_option(), Some(1));
    assert_eq!(BResult::<u8, char>::Failure('e').into_option(), None);
    assert_eq!(BResult::<u8, char>::Failure('e').into_option_err(), Some('e'));
    assert_eq!(BResult::<u8, char>::Success(1).into_option_unchecked(), Some(1));
    assert_eq!(BResult::<u8, char>::Failure('e').into_option_err_unchecked(), Some('e'));
    assert_eq!(BResult::<u8, char>::Failure('e').into_result(), Err('e'));
    assert_eq!(BResult::<u8, char>::Success(1).into_result(), Ok(1));
    assert!(matches!(Ok::<u8, char>(5).into_bresult(), BResult::Success(5)));
    assert!(matches!(Err::<u8, char>('z').into_bresult(), BResult::Failure('z')));
}

#[test]
fn result_references() {
    let mut r: BResult<String, u8> = BResult::Success(String::from("a"));
    if let BResult::Success(s) = r.as_mut() {
        s.push('b');
    }
    assert!(matches!(r.as_ref(), BResult::Success(s) if s == "ab"));
    assert!(matches!(r.as_ref().into_cloned(), BResult::Success(s) if s == "ab"));
    assert!(matches!(r.as_mut().into_cloned(), BResult::Success(s) if s == "ab"));
    let mut n: BResult<u8, u16> = BResult::Failure(9);
    assert!(matches!(n.as_ref().into_copied(), BResult::Failure(9)));
    assert!(matches!(n.as_mut().into_copied(), BResult::Failure(9)));
    assert!(matches!(n.as_ref().into_err_copied(), BResult::Failure(9)));
    assert!(matches!(n.as_mut().into_err_copied(), BResult::Failure(9)));
    let mut e: BResult<u8, String> = BResult::Failure(String::from("x"));
    assert!(matches!(e.as_ref().into_err_cloned(), BResult::Failure(s) if s == "x"));
    assert!(matches!(e.as_mut().into_err_cloned(), BResult::Failure(s) if s == "x"));
}

#[test]
fn result_mapping_variants() {
    let s = || BResult::<u8, u8>::Success(2);
    let f = || BResult::<u8, u8>::Failure(5);
    assert_eq!(s().into_map_ok_or(|t| t + 1, 0), 3);
    assert_eq!(f().into_map_ok_or(|t| t + 1, 0), 0);
    assert_eq!(f().into_map_ok_or_else(|t| t + 1, |e| e * 2), 10);
    assert_eq!(f().into_map_ok_or_default(|t| t + 1), 0);
    assert_eq!(s().into_map_err_or(7, |e| e * 2), 7);
    assert_eq!(f().into_map_err_or(7, |e| e * 2), 10);
    assert_eq!(s().into_map_err_or_else(|t| t + 1, |e| e * 2), 3);
    assert_eq!(s().into_map_err_or_default(|e| e * 2), 0);
    assert!(matches!(s().into_map_ok_flatten(BResult::<char, u8>::Success('c')), BResult::Success('c')));
    assert!(matches!(f().into_map_ok_flatten(BResult::<char, u8>::Success('c')), BResult::Failure(5)));
    assert!(matches!(
        s().into_map_ok_flatten_lazy(|t| BResult::<u16, u8>::Failure(t)),
        BResult::Failure(2)
    ));
    assert!(matches!(f().into_map_err_flatten(BResult::<u8, char>::Failure('d')), BResult::Failure('d')));
    assert!(matches!(s().into_map_err_flatten(BResult::<u8, char>::Failure('d')), BResult::Success(2)));
    assert!(matches!(
        f().into_map_err_flatten_lazy(|e| BResult::<u8, char>::Success(e + 1)),
        BResult::Success(6)
    ));
}

#[test]
fn result_inspection() {
    let mut seen = 0u8;
    let r = BResult::<u8, u8>::Success(4).into_self_inspect_ok(|t| seen = *t);
    assert_eq!(seen, 4);
    let r = r.into_self_inspect_err(|_| seen = 0);
    assert_eq!(seen, 4);
    r.as_inspect_ok(|t| seen = *t + 1);
    assert_eq!(seen, 5);
    r.as_inspect_err(|_| seen = 0);
    assert_eq!(seen, 5);
    assert!(matches!(r, BResult::Success(4)));
}

#[test]
fn flatten_and_infallible() {
    let nested: BResult<BResult<u8, char>, char> = BResult::Success(BResult::Failure('i'));
    assert!(matches!(nested.into_flattened(), BResult::Failure('i')));
    let outer: BResult<BResult<u8, char>, char> = BResult::Failure('o');
    assert!(matches!(outer.into_flattened(), BResult::Failure('o')));
    assert_eq!(BResult::<u8, Infallible>::Success(3).into_ok_infallible(), 3);
    assert_eq!(BResult::<Infallible, u8>::Failure(4).into_err_infallible(), 4);
}
