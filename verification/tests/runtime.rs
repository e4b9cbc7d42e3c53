use std::sync::Arc;

use async_lock::raw::{RawGuard, RawGuardArc, RawMutex};

#[test]
fn raw_fast_path_and_release() {
    let m = RawMutex::new();
    let g = m.try_lock().expect("a fresh lock is free");
    assert!(m.try_lock().is_none());
    g.unlock();
    let g2 = m.try_lock().expect("a released lock is free");
    g2.unlock();
}

#[test]
fn raw_blocking_uncontended() {
    let m = RawMutex::new();
    let g = m.lock_blocking().expect("an uncontended blocking acquisition succeeds");
    assert!(m.try_lock().is_none());
    g.unlock();
    let g2 = m.lock_blocking().expect("a released lock is granted again");
    g2.unlock();
}

#[test]
fn raw_guard_source() {
    let m = RawMutex::new();
    let g = m.try_lock().expect("a fresh lock is free");
    let back = RawGuard::source(&g);
    assert!(back.try_lock().is_none());
    g.unlock();
}

#[test]
fn raw_arc_variants() {
    let m = Arc::new(RawMutex::new());
    let g = RawMutex::try_lock_arc(&m).expect("a fresh lock is free");
    assert!(RawMutex::try_lock_arc(&m).is_none());
    assert!(Arc::ptr_eq(RawGuardArc::source(&g), &m));
    g.unlock();
    let g2 = RawMutex::lock_arc_blocking(&m).expect("an uncontended blocking acquisition succeeds");
    assert!(m.try_lock().is_none());
    g2.unlock();
    let g3 = m.try_lock().expect("a released lock is free");
    g3.unlock();
}
