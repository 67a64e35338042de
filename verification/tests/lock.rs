use sync_no_std::TryLockError;
use sync_no_std::mutex::{DefaultAllocator, InlineMutex, Mutex, SysMutex, locked_increment, run_interleaving};

#[test]
fn lock_write_unlock_lock_read() {
    let mut m = Mutex::new(0_i32);
    let g = m.lock(false).unwrap();
    *m.data_mut() = 1;
    m.unlock(g, false);
    let g = m.lock(false).unwrap();
    assert_eq!(*m.data(), 1);
    m.unlock(g, false);
}

#[test]
fn mutual_exclusion_counter_totals_threads_times_rounds() {
    // Two threads, three cycles each, in an arbitrary interleaving order.
    let mut m = Mutex::new(0_u64);
    let schedule = vec![0_u64, 1, 1, 0, 0, 1];
    run_interleaving(&mut m, &schedule);
    assert_eq!(m.into_inner().unwrap(), 2 * 3);
}

#[test]
fn each_cycle_adds_exactly_one() {
    let mut m = Mutex::new_in(10_u64, 5_u8);
    locked_increment(&mut m);
    locked_increment(&mut m);
    assert_eq!(m.into_inner().unwrap(), 12);
}

#[test]
fn poison_propagates_and_still_grants_access() {
    let mut m = Mutex::new(0_u32);
    let g = m.lock(false).unwrap();
    *m.data_mut() = 42;
    // The holder exits abnormally while holding the lock.
    m.unlock(g, true);
    assert!(m.is_poisoned());

    // The next acquisition reports poison but still dereferences to the
    // last value written before the abnormal exit.
    let err = m.lock(false).unwrap_err();
    assert_eq!(*m.data(), 42);
    let g = err.into_inner();
    m.unlock(g, false);
    assert!(m.is_poisoned());

    // The non-blocking path reports the same poisoned variant.
    match m.try_lock(false) {
        Err(TryLockError::Poisoned(err)) => {
            assert_eq!(*m.data(), 42);
            m.unlock(err.into_inner(), false);
        },
        _ => panic!("expected the poisoned variant"),
    }
}

#[test]
fn clear_poison_restores_the_healthy_variant() {
    let mut m = Mutex::new(7_u32);
    let g = m.lock(false).unwrap();
    *m.data_mut() = 8;
    m.unlock(g, true);
    assert!(m.is_poisoned());
    m.clear_poison();
    assert!(!m.is_poisoned());
    let g = m.lock(false).unwrap();
    // The protected value still reflects the pre-poison state.
    assert_eq!(*m.data(), 8);
    m.unlock(g, false);
}

#[test]
fn try_lock_reports_contention_until_the_guard_returns() {
    let mut m = Mutex::new(1_u8);
    let g = m.lock(false).unwrap();
    assert!(matches!(m.try_lock(false), Err(TryLockError::WouldBlock)));
    m.unlock(g, false);
    let g = m.try_lock(false).unwrap();
    m.unlock(g, false);
}

#[test]
fn leaked_guard_does_not_break_teardown() {
    let mut m = Mutex::new(3_u64);
    let guard = m.lock(false).unwrap();
    // The guard is leaked: never handed back. Tearing the lock down must
    // still succeed; the raw lock is accepted to leak.
    std::mem::forget(guard);
    assert_eq!(m.into_inner().unwrap(), 3);
}

#[test]
fn backend_teardown_leaks_exactly_when_held() {
    let mut held: SysMutex<u8> = SysMutex::new_in(0);
    held.lock();
    assert!(held.destroy());

    let mut free: SysMutex<u8> = SysMutex::new_in(0);
    free.lock();
    free.unlock();
    assert!(!free.destroy());

    let unplaced: SysMutex<u8> = SysMutex::new_in(0);
    assert!(!unplaced.destroy());
}

#[test]
fn fallback_try_lock_never_silently_succeeds_reentrantly() {
    // The no-OS fallback cannot block: a second acquisition from the same
    // logical thread is refused (at run time it raises a fatal assertion;
    // the non-asserting probe reports failure instead of succeeding).
    let mut s: InlineMutex<u8> = InlineMutex::new_in(0);
    s.lock();
    assert!(!s.try_lock());
    s.unlock();
    assert!(s.try_lock());
    s.unlock();
    assert_eq!(*s.allocator(), 0);
}

#[test]
fn one_thread_one_round_is_the_smallest_interleaving() {
    let mut m = Mutex::new(0_u64);
    let schedule = vec![0_u64];
    run_interleaving(&mut m, &schedule);
    assert_eq!(m.into_inner().unwrap(), 1);
}

#[test]
fn get_mut_bypasses_the_backend_and_reports_poison() {
    let mut m = Mutex::new(5_u32);
    let (poisoned, value) = m.get_mut();
    assert!(!poisoned);
    *value = 6;
    let g = m.lock(false).unwrap();
    assert_eq!(*m.data(), 6);
    m.unlock(g, true);
    let (poisoned, _) = m.get_mut();
    assert!(poisoned);
}

#[test]
fn into_inner_reports_poison_but_yields_the_value() {
    let mut m = Mutex::new(9_u32);
    let g = m.lock(false).unwrap();
    m.unlock(g, true);
    let err = m.into_inner().unwrap_err();
    assert_eq!(err.into_inner(), 9);
}

#[test]
fn converted_value_is_wrapped_unlocked_and_healthy() {
    let mut m: Mutex<u32, DefaultAllocator> = Mutex::from(17);
    assert!(!m.is_poisoned());
    let g = m.try_lock(false).unwrap();
    assert_eq!(*m.data(), 17);
    m.unlock(g, false);
}

#[test]
fn default_lock_wraps_the_default_value() {
    let m: Mutex<u32, DefaultAllocator> = Default::default();
    assert_eq!(m.into_inner().unwrap(), 0);
}

#[test]
fn backend_allocator_handle_is_kept() {
    let s: SysMutex<u16> = SysMutex::new_in(300);
    assert_eq!(*s.allocator(), 300);
    assert!(!s.destroy());
}
