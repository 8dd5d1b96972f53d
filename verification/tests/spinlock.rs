use kspin::spinlock::{Guard, IrqState, LockClassKey, SpinLock};

fn registered(payload: u64, class: u64) -> SpinLock<u64> {
    let mut l = SpinLock::new(payload);
    let key = LockClassKey::new(class);
    l.init("test_lock", &key);
    l
}

#[test]
fn two_phase_construction_is_observable() {
    let mut l = SpinLock::new(1u64);
    assert!(!l.is_initialized());
    assert!(!l.is_locked());
    let key = LockClassKey::new(42);
    l.init("observed", &key);
    assert!(l.is_initialized());
    assert!(!l.is_locked());
}

#[test]
fn stress_counter_has_no_lost_updates() {
    // Two contexts, interleaved, each incrementing the shared counter 10,000
    // times through its own acquisitions: no update is lost.
    let mut l = registered(0, 1);
    for _round in 0..10_000 {
        for _ctx in 0..2 {
            let mut g = l.lock();
            let c = g.borrow_mut();
            *c += 1;
            l = g.unlock();
        }
    }
    let g = l.lock();
    assert_eq!(*g.borrow(), 20_000);
}

#[test]
fn acquisition_consumes_the_lock() {
    // While a guard is live the lock value is inside it: the holder alone can
    // reach the payload, and the lock shows held until the guard releases.
    let l = registered(7, 2);
    let g = l.lock();
    assert_eq!(*g.borrow(), 7);
    let l = g.unlock();
    assert!(!l.is_locked());
}

#[test]
fn release_makes_writes_visible_to_next_acquirer() {
    let l = registered(0, 3);
    let mut g = l.lock();
    *g.borrow_mut() = 99;
    let l = g.unlock();
    let g = l.lock();
    assert_eq!(*g.borrow(), 99);
}

#[test]
fn round_trip_keeps_mutated_payload() {
    let l = registered(10, 4);
    let mut g = l.lock();
    *g.borrow_mut() += 5;
    let l = g.unlock();
    let g = l.lock();
    assert_eq!(*g.borrow(), 15);
    let l = g.unlock();
    assert!(!l.is_locked());
}

fn critical_section_with_early_exit(l: SpinLock<u64>, bail_out: bool) -> SpinLock<u64> {
    let mut g: Guard<u64> = l.lock();
    if bail_out {
        // Early exit path: the one release still happens, by consuming the
        // guard, and the payload is left untouched.
        return g.unlock();
    }
    *g.borrow_mut() = 1;
    g.unlock()
}

#[test]
fn guard_releases_exactly_once_on_early_exit() {
    let l = registered(0, 5);
    let l = critical_section_with_early_exit(l, true);
    assert!(!l.is_locked());
    let g = l.lock();
    assert_eq!(*g.borrow(), 0);
    let l = g.unlock();
    let l = critical_section_with_early_exit(l, false);
    assert!(!l.is_locked());
    let g = l.lock();
    assert_eq!(*g.borrow(), 1);
}

#[test]
fn irq_noguard_pair_restores_enabled_state() {
    // Simulated interrupt-state register read before and after the pair.
    let mut cpu = IrqState::new(true);
    let mut l = registered(0, 6);
    assert!(cpu.is_enabled());
    let flags = l.irq_lock_noguard(&mut cpu);
    assert!(!cpu.is_enabled());
    assert!(l.is_locked());
    l.irq_unlock_noguard(&mut cpu, flags);
    assert!(cpu.is_enabled());
    assert!(!l.is_locked());
}

#[test]
fn irq_noguard_pair_restores_disabled_state() {
    let mut cpu = IrqState::new(false);
    let mut l = registered(0, 7);
    let flags = l.irq_lock_noguard(&mut cpu);
    assert!(!cpu.is_enabled());
    l.irq_unlock_noguard(&mut cpu, flags);
    assert!(!cpu.is_enabled());
}

#[test]
fn irq_guard_disables_and_restores_interrupts() {
    let mut cpu = IrqState::new(true);
    let l = registered(3, 8);
    let mut g = l.irq_lock(&mut cpu);
    assert!(!cpu.is_enabled());
    *g.borrow_mut() = 4;
    let l = g.unlock(&mut cpu);
    assert!(cpu.is_enabled());
    assert!(!l.is_locked());
    let g = l.lock();
    assert_eq!(*g.borrow(), 4);
}

#[test]
fn noguard_protocol_reaches_payload_while_held() {
    let mut l = registered(5, 9);
    l.lock_noguard();
    assert!(l.is_locked());
    assert_eq!(*l.locked_data(), 5);
    *l.locked_data_mut() = 6;
    l.unlock();
    assert!(!l.is_locked());
    let g = l.lock();
    assert_eq!(*g.borrow(), 6);
}

#[test]
fn payload_type_is_generic() {
    let mut l = SpinLock::new(vec![1u8, 2, 3]);
    let key = LockClassKey::new(10);
    l.init("vec_lock", &key);
    let mut g = l.lock();
    g.borrow_mut().push(4);
    let l = g.unlock();
    let g = l.lock();
    assert_eq!(g.borrow().as_slice(), &[1, 2, 3, 4]);
}
