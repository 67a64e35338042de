use sync_no_std::poison::{Flag, PoisonError, TryLockError, map_result};

#[test]
fn fresh_flag_is_healthy() {
    let f = Flag::new();
    assert!(!f.get());
    assert!(f.borrow().is_ok());
}

#[test]
fn abnormal_exit_of_healthy_section_poisons() {
    let mut f = Flag::new();
    let g = f.guard(false).unwrap();
    f.done(&g, true);
    assert!(f.get());
    assert!(f.borrow().is_err());
}

#[test]
fn normal_exit_leaves_flag_healthy() {
    let mut f = Flag::new();
    let g = f.guard(false).unwrap();
    f.done(&g, false);
    assert!(!f.get());
}

#[test]
fn unwind_in_flight_at_acquisition_does_not_poison() {
    let mut f = Flag::new();
    let g = f.guard(true).unwrap();
    f.done(&g, true);
    assert!(!f.get());
}

#[test]
fn poisoned_flag_still_hands_out_a_snapshot() {
    let mut f = Flag::new();
    let g = f.guard(false).unwrap();
    f.done(&g, true);
    let err = f.guard(false).unwrap_err();
    let snapshot = err.into_inner();
    f.done(&snapshot, false);
    assert!(f.get());
}

#[test]
fn clear_resets_a_poisoned_flag() {
    let mut f = Flag::new();
    let g = f.guard(false).unwrap();
    f.done(&g, true);
    assert!(f.get());
    f.clear();
    assert!(!f.get());
    assert!(f.guard(false).is_ok());
}

#[test]
fn done_now_outside_a_panic_changes_nothing() {
    let mut f = Flag::new();
    let g = f.guard(false).unwrap();
    f.done_now(&g);
    assert!(!f.get());
}

#[test]
fn poison_error_carries_its_guard() {
    let mut e = PoisonError::new(41);
    assert_eq!(*e.get_ref(), 41);
    *e.get_mut() += 1;
    assert_eq!(e.into_inner(), 42);
}

#[test]
fn map_result_maps_the_ok_payload() {
    let r: Result<u32, PoisonError<u32>> = Ok(2);
    let mapped = map_result(r, |x| x + 1);
    assert_eq!(mapped.unwrap(), 3);
}

#[test]
fn map_result_keeps_the_poisoned_side() {
    let r: Result<u32, PoisonError<u32>> = Err(PoisonError::new(2));
    let mapped = map_result(r, |x| x + 1);
    assert_eq!(mapped.unwrap_err().into_inner(), 3);
}

#[test]
fn try_lock_error_distinguishes_its_variants() {
    let poisoned: TryLockError<u8> = TryLockError::Poisoned(PoisonError::new(7));
    let busy: TryLockError<u8> = TryLockError::WouldBlock;
    assert!(matches!(poisoned, TryLockError::Poisoned(_)));
    assert!(matches!(busy, TryLockError::WouldBlock));
}

#[test]
fn poison_error_converts_to_the_poisoned_variant() {
    let e: TryLockError<u8> = TryLockError::from(PoisonError::new(7));
    match e {
        TryLockError::Poisoned(inner) => assert_eq!(inner.into_inner(), 7),
        TryLockError::WouldBlock => panic!("conversion lost the poison"),
    }
}

#[test]
fn error_messages_match_their_variant() {
    let poison: PoisonError<u8> = PoisonError::new(7);
    assert_eq!(poison.message(), "poisoned lock: another task failed inside");
    let poisoned: TryLockError<u8> = TryLockError::Poisoned(PoisonError::new(7));
    let busy: TryLockError<u8> = TryLockError::WouldBlock;
    assert_eq!(poisoned.message(), "poisoned lock: another task failed inside");
    assert_eq!(busy.message(), "try_lock failed because the operation would block");
}

#[test]
fn guard_now_outside_a_panic_snapshots_healthy() {
    let mut f = Flag::new();
    let g = f.guard_now().unwrap();
    // The snapshot was taken outside any unwind, so an abnormal release
    // still counts as originating inside the section.
    f.done(&g, true);
    assert!(f.get());
}
