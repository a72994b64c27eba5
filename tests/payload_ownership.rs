use better_std::betteroption::{BOption, FfiOption};
use better_std::betterresult::{BResult, FfiResult};
use std::cell::Cell;
use std::rc::Rc;

struct Counted {
    drops: Rc<Cell<usize>>,
}

impl Drop for Counted {
    fn drop(&mut self) {
        self.drops.set(self.drops.get() + 1);
    }
}

fn counted() -> (Counted, Rc<Cell<usize>>) {
    let drops = Rc::new(Cell::new(0));
    (Counted { drops: drops.clone() }, drops)
}

#[test]
fn present_payload_dropped_once_across_round_trip() {
    let (c, drops) = counted();
    let back = BOption::Present(c).into_ffi_option().into_boption();
    assert_eq!(drops.get(), 0);
    drop(back);
    assert_eq!(drops.get(), 1);
}

#[test]
fn stable_option_drops_live_payload_once() {
    let (c, drops) = counted();
    let stable = FfiOption::new_ok(c);
    drop(stable);
    assert_eq!(drops.get(), 1);
    let empty = FfiOption::<Counted>::new_none();
    drop(empty);
    assert_eq!(drops.get(), 1);
}

#[test]
fn absent_container_drops_nothing() {
    let (c, drops) = counted();
    let back = BOption::<Counted>::Absent.into_ffi_option().into_boption();
    drop(back);
    assert_eq!(drops.get(), 0);
    drop(c);
    assert_eq!(drops.get(), 1);
}

#[test]
fn outcome_round_trip_drops_once() {
    let (c, drops) = counted();
    let back = BResult::<u8, Counted>::Failure(c).into_ffi_result().into_bresult();
    assert_eq!(drops.get(), 0);
    drop(back);
    assert_eq!(drops.get(), 1);
    let (s, sdrops) = counted();
    drop(FfiResult::<Counted, u8>::new_ok(s));
    assert_eq!(sdrops.get(), 1);
}

#[test]
fn insert_drops_replaced_payload_once() {
    let (first, drops) = counted();
    let (second, second_drops) = counted();
    let mut o = BOption::Present(first);
    o.as_insert_or(second);
    assert_eq!(drops.get(), 1);
    assert_eq!(second_drops.get(), 0);
    drop(o);
    assert_eq!(second_drops.get(), 1);
}

#[test]
fn mapping_other_side_keeps_payload() {
    let (c, drops) = counted();
    let r: BResult<u8, Counted> = BResult::Failure(c);
    let mapped = r.into_map_ok(|x| x as u64);
    assert_eq!(drops.get(), 0);
    assert!(mapped.is_err());
    drop(mapped);
    assert_eq!(drops.get(), 1);
}
