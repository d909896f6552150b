use syncx::locks::{wait_policy, Lock, RLock, RWLock, WaitPolicy};
use syncx::timeout::{Seconds, WaitSpan};

fn seconds(value: f64) -> Option<Seconds> {
    Some(Seconds::from_bits(value.to_bits()))
}

#[test]
fn lock_acquire_and_release() {
    let lock = Lock::new();
    assert!(!lock.locked());
    assert!(lock.acquire(true, None));
    assert!(lock.locked());
    assert!(!lock.try_acquire());
    assert!(!lock.acquire(false, None));
    lock.release();
    assert!(!lock.locked());
    assert!(lock.try_acquire());
    lock.release();
}

#[test]
fn lock_timeout_zero_returns_false_when_locked() {
    let lock = Lock::new();
    assert!(lock.acquire(true, None));
    assert!(!lock.acquire(true, seconds(0.0)));
    assert!(!lock.acquire(true, seconds(-1.0)));
    assert!(!lock.acquire(true, seconds(0.01)));
    lock.release();
    // A bound below zero gives the same answer whatever the state of the
    // lock, and leaves a free lock free.
    assert!(!lock.acquire(true, seconds(-1.0)));
    assert!(!lock.locked());
    assert!(lock.guard(true, seconds(-1.0)).is_none());
    assert!(!lock.locked());
    // Without blocking the bound is not looked at.
    assert!(lock.acquire(false, seconds(-1.0)));
    lock.release();
}

#[test]
fn guard_released_twice_unlocks_once() {
    let lock = Lock::new();
    let mut guard = lock.guard(true, None).unwrap();
    assert!(guard.held());
    assert!(lock.locked());
    guard.release();
    assert!(!guard.held());
    assert!(!lock.locked());
    let second = lock.guard(false, None).unwrap();
    guard.release();
    assert!(lock.locked());
    drop(guard);
    assert!(lock.locked());
    drop(second);
    assert!(!lock.locked());
}

#[test]
fn lock_aliases_do_what_their_names_say() {
    let lock = Lock::new();
    assert!(lock.lock_alias(true, None));
    assert!(lock.is_locked());
    assert!(!lock.try_lock_alias());
    lock.release();
    assert!(lock.try_lock_alias());
    let mut guard = lock.guard(false, None);
    assert!(guard.is_none());
    lock.release();
    guard = lock.guard(true, seconds(0.5));
    let mut guard = guard.unwrap();
    guard.unlock_alias();
    assert!(!lock.is_locked());
}

#[test]
fn lock_release_without_a_hold_does_nothing() {
    let lock = Lock::new();
    lock.release();
    assert!(!lock.locked());
    let guard = lock.guard(true, None).unwrap();
    lock.release();
    assert!(lock.locked());
    assert!(guard.held());
}

#[test]
fn lock_waits_for_the_bound_and_no_longer() {
    let lock = Lock::new();
    assert!(lock.acquire(true, None));
    let start = std::time::Instant::now();
    assert!(!lock.acquire(true, seconds(0.05)));
    let waited = start.elapsed().as_millis();
    assert!(waited >= 40 && waited < 5000);
    let start = std::time::Instant::now();
    assert!(!lock.acquire(true, seconds(0.0)));
    assert!(!lock.acquire(true, seconds(-1.0)));
    assert!(!lock.acquire(true, seconds(-0.0)));
    assert!(!lock.acquire(true, seconds(f64::NEG_INFINITY)));
    assert!(!lock.acquire(false, seconds(f64::INFINITY)));
    assert!(start.elapsed().as_millis() < 1000);
}

#[test]
fn wait_policy_of_given_bounds() {
    assert_eq!(wait_policy(false, None), WaitPolicy::Never);
    assert_eq!(wait_policy(false, seconds(3.0)), WaitPolicy::Never);
    assert_eq!(wait_policy(true, None), WaitPolicy::Forever);
    assert_eq!(wait_policy(true, seconds(-1.0)), WaitPolicy::Refuse);
    assert_eq!(wait_policy(true, seconds(-0.0)), WaitPolicy::Refuse);
    assert_eq!(wait_policy(false, seconds(-1.0)), WaitPolicy::Never);
    assert_eq!(wait_policy(true, seconds(f64::INFINITY)), WaitPolicy::Forever);
    assert_eq!(wait_policy(true, seconds(f64::NAN.copysign(1.0))), WaitPolicy::Forever);
    assert_eq!(wait_policy(true, seconds(f64::NAN.copysign(-1.0))), WaitPolicy::Refuse);
    assert_eq!(wait_policy(true, seconds(18446744073709551616.0)), WaitPolicy::Forever);
    assert_eq!(wait_policy(true, seconds(0.0)), WaitPolicy::Within(WaitSpan { secs: 0, nanos: 0 }));
    assert_eq!(
        wait_policy(true, seconds(2.25)),
        WaitPolicy::Within(WaitSpan { secs: 2, nanos: 250_000_000 })
    );
    assert_eq!(
        wait_policy(true, seconds(0.9999999996)),
        WaitPolicy::Within(WaitSpan { secs: 1, nanos: 0 })
    );
}

#[test]
fn rlock_is_taken_again_by_its_owner() {
    let lock = RLock::new();
    let mut first = lock.acquire();
    let mut second = lock.try_acquire().unwrap();
    let mut third = lock.lock_alias();
    let shared = lock.clone();
    let mut fourth = shared.try_lock_alias().unwrap();
    assert!(first.held() && second.held() && third.held() && fourth.held());
    // The guards are released in an order of their own.
    second.release();
    first.release();
    first.release();
    assert!(!first.held());
    fourth.unlock_alias();
    third.release();
    assert!(!third.held());
    assert!(lock.try_acquire().is_some());
}

#[test]
fn rwlock_readers_share_and_a_writer_excludes() {
    let lock = RWLock::new();
    assert!(!lock.is_locked());
    assert!(lock.acquire_read(true, None));
    assert!(lock.try_acquire_read());
    assert!(lock.read_lock_alias(false, None));
    assert!(lock.is_locked());
    assert!(!lock.is_write_locked());
    assert!(!lock.try_acquire_write());
    assert!(!lock.acquire_write(true, seconds(0.01)));
    assert!(!lock.acquire_write(true, seconds(-1.0)));
    lock.read_release();
    lock.read_release();
    assert!(!lock.try_write_lock_alias());
    lock.read_release();
    assert!(!lock.is_locked());
    lock.read_release();
    assert!(lock.acquire_write(true, None));
    assert!(lock.is_write_locked());
    assert!(!lock.try_acquire_read());
    assert!(!lock.try_read_lock_alias());
    assert!(!lock.acquire_read(true, seconds(0.01)));
    assert!(!lock.write_lock_alias(false, None));
    lock.bump_exclusive();
    assert!(lock.is_write_locked());
    lock.write_release();
    assert!(!lock.is_locked());
    assert!(lock.try_acquire_write());
    lock.write_release_fair();
    assert!(!lock.is_locked());
    assert!(lock.try_acquire_read());
    lock.bump_shared();
    assert!(lock.is_locked());
    lock.read_release();
    assert!(!lock.is_locked());
    lock.bump_shared();
    lock.bump_exclusive();
    lock.write_release_fair();
    assert!(!lock.is_locked());
}

#[test]
fn rwlock_guards_release_once() {
    let lock = RWLock::new();
    let mut a = lock.read_guard(true, None).unwrap();
    let mut b = lock.read_guard(false, None).unwrap();
    assert!(lock.write_guard(false, None).is_none());
    a.release();
    a.release();
    assert!(lock.is_locked());
    b.unlock_alias();
    assert!(!lock.is_locked());
    let mut w = lock.write_guard(true, seconds(1.0)).unwrap();
    assert!(w.held());
    assert!(lock.read_guard(false, None).is_none());
    w.release_fair();
    w.release_fair();
    w.release();
    assert!(!w.held());
    assert!(!lock.is_locked());
    let mut w = lock.write_guard(true, None).unwrap();
    w.unlock_fair_alias();
    assert!(!lock.is_locked());
    let mut w = lock.write_guard(true, None).unwrap();
    w.unlock_alias();
    assert!(!lock.is_locked());
    let w = lock.write_guard(true, None).unwrap();
    drop(w);
    assert!(!lock.is_locked());
}

#[test]
fn downgrade_lets_readers_in_and_keeps_writers_out() {
    let lock = RWLock::new();
    let mut writer = lock.write_guard(true, None).unwrap();
    let mut reader = writer.downgrade().unwrap();
    assert!(!writer.held());
    assert!(reader.held());
    assert!(lock.is_locked());
    assert!(!lock.is_write_locked());
    let first = lock.read_guard(false, None);
    let second = lock.read_guard(false, None);
    assert!(first.is_some() && second.is_some());
    drop(first);
    drop(second);
    assert!(lock.write_guard(false, None).is_none());
    assert!(lock.write_guard(true, seconds(0.02)).is_none());
    // The guard that was downgraded has nothing left to give.
    assert!(writer.downgrade().is_none());
    writer.release();
    assert!(lock.is_locked());
    reader.release();
    assert!(!lock.is_locked());
    assert!(lock.write_guard(false, None).is_some());
}

#[test]
fn policies_that_wait() {
    assert!(!WaitPolicy::Refuse.waits());
    assert!(!WaitPolicy::Never.waits());
    assert!(WaitPolicy::Forever.waits());
    assert!(WaitPolicy::Within(WaitSpan { secs: 0, nanos: 0 }).waits());
}

#[test]
fn lock_attempt_and_wait_are_the_two_parts_of_acquire() {
    let lock = Lock::new();
    // A refused bound makes no attempt and no wait.
    assert!(!lock.acquire_now(true, seconds(-1.0)));
    assert!(!lock.acquire_wait(true, seconds(-1.0)));
    assert!(lock.guard_now(true, seconds(-1.0)).is_none());
    assert!(lock.guard_wait(true, seconds(-1.0)).is_none());
    assert!(!lock.locked());
    // The attempt takes a free lock, and the wait is not needed.
    assert!(lock.acquire_now(true, seconds(1.0)));
    assert!(lock.locked());
    // On a held lock the attempt fails, and the wait is as long as the bound.
    assert!(!lock.acquire_now(true, None));
    assert!(!lock.acquire_wait(false, None));
    let start = std::time::Instant::now();
    assert!(!lock.acquire_wait(true, seconds(0.05)));
    assert!(start.elapsed().as_millis() >= 40);
    assert!(lock.guard_now(false, None).is_none());
    assert!(lock.guard_wait(true, seconds(0.0)).is_none());
    lock.release();
    // The wait on a free lock takes it.
    assert!(lock.acquire_wait(true, None));
    lock.release();
    let mut guard = lock.guard_wait(true, seconds(1.0)).unwrap();
    assert!(guard.held());
    guard.release();
    let guard = lock.guard_now(false, None).unwrap();
    assert!(guard.held());
}

#[test]
fn rwlock_attempt_and_wait_are_the_two_parts_of_acquire() {
    let lock = RWLock::new();
    assert!(!lock.acquire_read_now(true, seconds(-1.0)));
    assert!(!lock.acquire_read_wait(true, seconds(-1.0)));
    assert!(!lock.acquire_write_now(true, seconds(-1.0)));
    assert!(!lock.acquire_write_wait(true, seconds(-1.0)));
    assert!(lock.read_guard(true, seconds(-1.0)).is_none());
    assert!(lock.write_guard(true, seconds(-1.0)).is_none());
    assert!(lock.read_guard_now(true, seconds(-1.0)).is_none());
    assert!(lock.write_guard_wait(true, seconds(-1.0)).is_none());
    assert!(!lock.acquire_read(true, seconds(-1.0)));
    assert!(!lock.acquire_write(true, seconds(-1.0)));
    assert!(!lock.is_locked());
    assert!(lock.acquire_read_now(true, None));
    assert!(lock.acquire_read_wait(true, None));
    assert!(!lock.acquire_write_now(true, None));
    assert!(!lock.acquire_write_wait(false, None));
    assert!(!lock.acquire_write_wait(true, seconds(0.02)));
    assert!(lock.write_guard_now(true, None).is_none());
    assert!(lock.write_guard_wait(true, seconds(0.0)).is_none());
    let reader = lock.read_guard_now(false, None).unwrap();
    assert!(reader.held());
    drop(reader);
    lock.read_release();
    lock.read_release();
    assert!(!lock.is_locked());
    let writer = lock.write_guard_wait(true, None).unwrap();
    assert!(writer.held());
    assert!(lock.read_guard_now(true, None).is_none());
    assert!(lock.read_guard_wait(true, seconds(0.02)).is_none());
    drop(writer);
    assert!(lock.acquire_write_wait(true, seconds(1.0)));
    lock.write_release();
    assert!(lock.read_guard_wait(true, None).is_some());
    assert!(!lock.is_locked());
}
