//! Locks and their guards.
//!
//! A latch is a lock of `parking_lot` behind an `Arc`. Whoever has locked it
//! owns a hold: a value that cannot be copied and that unlocks the latch when
//! it is given up. A guard keeps its hold until it is released, so a latch is
//! never unlocked twice for one acquisition. The lock types also offer
//! `acquire` and `release` without a guard; the hold then waits inside the
//! lock between the two calls.

use crate::timeout::{duration_of, Seconds, WaitSpan};
use parking_lot::lock_api::{Mutex, ReentrantMutex, RwLock};
use parking_lot::{RawMutex, RawRwLock, RawThreadId};
use std::sync::Arc;
use std::time::Duration;
use vstd::prelude::*;

verus! {

#[verifier::external_type_specification]
#[verifier::external_body]
pub struct ExRawMutex(RawMutex);

#[verifier::external_type_specification]
#[verifier::external_body]
pub struct ExRawRwLock(RawRwLock);

#[verifier::external_type_specification]
#[verifier::external_body]
pub struct ExRawThreadId(RawThreadId);

#[verifier::external_type_specification]
#[verifier::external_body]
#[verifier::reject_recursive_types(R)]
#[verifier::reject_recursive_types(T)]
pub struct ExMutex<R, T: ?Sized>(Mutex<R, T>);

#[verifier::external_type_specification]
#[verifier::external_body]
#[verifier::reject_recursive_types(R)]
#[verifier::reject_recursive_types(T)]
pub struct ExRwLock<R, T: ?Sized>(RwLock<R, T>);

#[verifier::external_type_specification]
#[verifier::external_body]
#[verifier::reject_recursive_types(R)]
#[verifier::reject_recursive_types(G)]
#[verifier::reject_recursive_types(T)]
pub struct ExReentrantMutex<R, G, T: ?Sized>(ReentrantMutex<R, G, T>);

/// The right to unlock a mutex once: `parking_lot`'s `ArcMutexGuard`, which
/// unlocks its mutex when it is dropped.
#[verifier::external_body]
struct MutexHold {
    guard: parking_lot::lock_api::ArcMutexGuard<RawMutex, ()>,
}

/// The right to give up one level of a reentrant mutex:
/// `parking_lot`'s `ArcReentrantMutexGuard`.
#[verifier::external_body]
struct ReentrantHold {
    guard: parking_lot::lock_api::ArcReentrantMutexGuard<RawMutex, RawThreadId, ()>,
}

/// The right to give up one shared lock: `parking_lot`'s
/// `ArcRwLockReadGuard`.
#[verifier::external_body]
struct SharedHold {
    guard: parking_lot::lock_api::ArcRwLockReadGuard<RawRwLock, ()>,
}

/// The right to give up an exclusive lock: `parking_lot`'s
/// `ArcRwLockWriteGuard`.
#[verifier::external_body]
struct ExclusiveHold {
    guard: parking_lot::lock_api::ArcRwLockWriteGuard<RawRwLock, ()>,
}

/// How a call goes about taking a lock.
#[derive(Clone, Copy, Debug, PartialEq, Eq, Structural)]
pub enum WaitPolicy {
    /// Make no attempt, and give nothing.
    Refuse,
    /// Make one attempt, and give up at once where it fails.
    Never,
    /// Make one attempt, and where it fails wait until the lock is free.
    Forever,
    /// Make one attempt, and where it fails wait for the span at most. A
    /// span so long that the clock cannot count to its end is waited for
    /// without end.
    Within(WaitSpan),
}

impl WaitPolicy {
    /// The policy has a wait follow a failed attempt.
    pub open spec fn may_wait(self) -> bool {
        self is Forever || self is Within
    }

    /// Whether a wait follows a failed attempt.
    pub fn waits(&self) -> (r: bool)
        ensures
            r == self.may_wait(),
    {
        match self {
            WaitPolicy::Refuse => false,
            WaitPolicy::Never => false,
            WaitPolicy::Forever => true,
            WaitPolicy::Within(_) => true,
        }
    }
}

/// The policy that `blocking` and `timeout` ask for. Without `blocking`
/// there is one attempt and no wait, whatever the bound. With `blocking`, a
/// bound with the sign bit set is refused: the call gives nothing, whether
/// the lock is free or not. No bound, a bound that is not finite and one of
/// two to the power 64 seconds or more wait without end. Any other bound
/// waits for the nearest span of whole nanoseconds.
pub open spec fn wait_policy_of(blocking: bool, timeout: Option<Seconds>) -> WaitPolicy {
    if !blocking {
        WaitPolicy::Never
    } else {
        match timeout {
            None => WaitPolicy::Forever,
            Some(t) => if t.sign_negative() {
                WaitPolicy::Refuse
            } else if !t.fits() {
                WaitPolicy::Forever
            } else {
                WaitPolicy::Within(t.nearest_span())
            },
        }
    }
}

/// The policy that `blocking` and `timeout` ask for.
pub fn wait_policy(blocking: bool, timeout: Option<Seconds>) -> (r: WaitPolicy)
    ensures
        r == wait_policy_of(blocking, timeout),
        r matches WaitPolicy::Within(span) ==> span.well_formed(),
{
    if !blocking {
        return WaitPolicy::Never;
    }
    match timeout {
        None => WaitPolicy::Forever,
        Some(t) => {
            if t.is_sign_negative() {
                WaitPolicy::Refuse
            } else {
                match t.to_nearest_span() {
                    None => WaitPolicy::Forever,
                    Some(span) => WaitPolicy::Within(span),
                }
            }
        },
    }
}

/// `Mutex::new` of `parking_lot`: a fresh unlocked mutex around the value.
#[verifier::external_body]
fn mutex_new<T>(value: T) -> Mutex<RawMutex, T> {
    Mutex::new(value)
}

/// `Mutex::try_lock_arc`: locks if the mutex is free, and never waits.
#[verifier::external_body]
fn mutex_try_lock(latch: &Arc<Mutex<RawMutex, ()>>) -> Option<MutexHold> {
    latch.try_lock_arc().map(|guard| MutexHold { guard })
}

/// `Mutex::lock_arc`: waits until the mutex is locked for the caller.
#[verifier::external_body]
fn mutex_lock(latch: &Arc<Mutex<RawMutex, ()>>) -> MutexHold {
    MutexHold { guard: latch.lock_arc() }
}

/// `Mutex::try_lock_arc_for`: waits for the mutex for the duration at most,
/// and without end where the clock cannot count so far.
#[verifier::external_body]
fn mutex_try_lock_for(latch: &Arc<Mutex<RawMutex, ()>>, span: Duration) -> Option<MutexHold> {
    latch.try_lock_arc_for(span).map(|guard| MutexHold { guard })
}

/// `Mutex::is_locked`: whether some hold on the mutex exists just now.
#[verifier::external_body]
fn mutex_is_locked(latch: &Arc<Mutex<RawMutex, ()>>) -> bool {
    latch.is_locked()
}

/// `Mutex::lock` of `parking_lot` on a slot, the place where holds wait
/// between `acquire` and `release`, with a push of the item while the slot
/// is locked.
#[verifier::external_body]
fn slot_push<T>(slot: &Mutex<RawMutex, Vec<T>>, item: T) {
    slot.lock().push(item)
}

/// `Mutex::lock` of `parking_lot` on a slot, with a pop of an item, if there
/// is one, while the slot is locked.
#[verifier::external_body]
fn slot_pop<T>(slot: &Mutex<RawMutex, Vec<T>>) -> Option<T> {
    slot.lock().pop()
}

/// Leaves in the slot the hold that an attempt to lock gave, and says
/// whether it gave one.
fn park<T>(slot: &Mutex<RawMutex, Vec<T>>, hold: Option<T>) -> (taken: bool)
    ensures
        taken == (hold is Some),
{
    match hold {
        Some(hold) => {
            slot_push(slot, hold);
            true
        },
        None => false,
    }
}

/// The one attempt to lock the mutex, which never waits. A policy that
/// refuses makes none.
fn lock_now(latch: &Arc<Mutex<RawMutex, ()>>, blocking: bool, timeout: Option<Seconds>) -> (r:
    Option<MutexHold>)
    ensures
        wait_policy_of(blocking, timeout) == WaitPolicy::Refuse ==> r is None,
{
    match wait_policy(blocking, timeout) {
        WaitPolicy::Refuse => None,
        _ => mutex_try_lock(latch),
    }
}

/// The wait for the mutex that follows a failed attempt, as the policy says.
fn lock_wait(latch: &Arc<Mutex<RawMutex, ()>>, blocking: bool, timeout: Option<Seconds>) -> (r:
    Option<MutexHold>)
    ensures
        wait_policy_of(blocking, timeout) == WaitPolicy::Forever ==> r is Some,
        wait_policy_of(blocking, timeout) == WaitPolicy::Refuse ==> r is None,
        wait_policy_of(blocking, timeout) == WaitPolicy::Never ==> r is None,
{
    match wait_policy(blocking, timeout) {
        WaitPolicy::Refuse => None,
        WaitPolicy::Never => None,
        WaitPolicy::Forever => Some(mutex_lock(latch)),
        WaitPolicy::Within(span) => mutex_try_lock_for(latch, duration_of(span)),
    }
}

/// Locks the mutex as the policy of `blocking` and `timeout` says: not at
/// all where the bound is refused, else with one attempt, and with a wait
/// where that fails.
fn lock_with_options(latch: &Arc<Mutex<RawMutex, ()>>, blocking: bool, timeout: Option<Seconds>) -> (r:
    Option<MutexHold>)
    ensures
        wait_policy_of(blocking, timeout) == WaitPolicy::Forever ==> r is Some,
        wait_policy_of(blocking, timeout) == WaitPolicy::Refuse ==> r is None,
{
    let first = lock_now(latch, blocking, timeout);
    if first.is_some() {
        return first;
    }
    lock_wait(latch, blocking, timeout)
}

/// A mutual exclusion lock.
pub struct Lock {
    latch: Arc<Mutex<RawMutex, ()>>,
    parked: Mutex<RawMutex, Vec<MutexHold>>,
}

/// A hold on a `Lock` that is given up once: by `release`, or when the guard
/// is dropped.
pub struct LockGuard {
    hold: Option<MutexHold>,
}

impl LockGuard {
    /// The guard still has its hold on the lock.
    pub closed spec fn is_held(&self) -> bool {
        self.hold is Some
    }

    /// A guard with the hold that an attempt to lock gave, where it gave
    /// one.
    fn around(hold: Option<MutexHold>) -> (r: Option<LockGuard>)
        ensures
            r is Some <==> hold is Some,
            r matches Some(guard) ==> guard.is_held(),
    {
        match hold {
            Some(hold) => Some(LockGuard { hold: Some(hold) }),
            None => None,
        }
    }

    pub fn held(&self) -> (r: bool)
        ensures
            r == self.is_held(),
    {
        self.hold.is_some()
    }

    /// Gives the hold up. A guard that has none stays as it is.
    pub fn release(&mut self)
        ensures
            !final(self).is_held(),
            !old(self).is_held() ==> *final(self) == *old(self),
    {
        self.hold = None;
    }

    pub fn unlock_alias(&mut self)
        ensures
            !final(self).is_held(),
            !old(self).is_held() ==> *final(self) == *old(self),
    {
        self.release();
    }
}

impl Lock {
    pub fn new() -> Lock {
        Lock { latch: Arc::new(mutex_new(())), parked: mutex_new(Vec::new()) }
    }

    /// Locks, and keeps the hold inside the lock until `release`. Returns
    /// whether the lock was taken.
    pub fn acquire(&self, blocking: bool, timeout: Option<Seconds>) -> (acquired: bool)
        ensures
            wait_policy_of(blocking, timeout) == WaitPolicy::Forever ==> acquired,
            wait_policy_of(blocking, timeout) == WaitPolicy::Refuse ==> !acquired,
    {
        park(&self.parked, lock_with_options(&self.latch, blocking, timeout))
    }

    pub fn lock_alias(&self, blocking: bool, timeout: Option<Seconds>) -> (acquired: bool)
        ensures
            wait_policy_of(blocking, timeout) == WaitPolicy::Forever ==> acquired,
            wait_policy_of(blocking, timeout) == WaitPolicy::Refuse ==> !acquired,
    {
        self.acquire(blocking, timeout)
    }

    /// The part of `acquire` that never waits: the one attempt, or none
    /// where the bound is refused. A host that gives up its execution lock
    /// while a call waits calls this part first and keeps its lock for it.
    pub fn acquire_now(&self, blocking: bool, timeout: Option<Seconds>) -> (acquired: bool)
        ensures
            wait_policy_of(blocking, timeout) == WaitPolicy::Refuse ==> !acquired,
    {
        park(&self.parked, lock_now(&self.latch, blocking, timeout))
    }

    /// The part of `acquire` that may wait: what follows a failed attempt.
    /// A policy that does not wait gives `false` at once.
    pub fn acquire_wait(&self, blocking: bool, timeout: Option<Seconds>) -> (acquired: bool)
        ensures
            wait_policy_of(blocking, timeout) == WaitPolicy::Forever ==> acquired,
            wait_policy_of(blocking, timeout) == WaitPolicy::Refuse ==> !acquired,
            wait_policy_of(blocking, timeout) == WaitPolicy::Never ==> !acquired,
    {
        park(&self.parked, lock_wait(&self.latch, blocking, timeout))
    }

    /// Locks if the lock is free, without waiting.
    pub fn try_acquire(&self) -> bool {
        park(&self.parked, mutex_try_lock(&self.latch))
    }

    pub fn try_lock_alias(&self) -> bool {
        self.try_acquire()
    }

    /// Gives up the hold that `acquire` left inside the lock. Without such a
    /// hold nothing happens.
    pub fn release(&self) {
        let _ = slot_pop(&self.parked);
    }

    pub fn locked(&self) -> bool {
        mutex_is_locked(&self.latch)
    }

    pub fn is_locked(&self) -> bool {
        self.locked()
    }

    /// Locks and returns a guard with the hold, or nothing where the lock
    /// was not taken.
    pub fn guard(&self, blocking: bool, timeout: Option<Seconds>) -> (r: Option<LockGuard>)
        ensures
            wait_policy_of(blocking, timeout) == WaitPolicy::Forever ==> r is Some,
            wait_policy_of(blocking, timeout) == WaitPolicy::Refuse ==> r is None,
            r matches Some(guard) ==> guard.is_held(),
    {
        LockGuard::around(lock_with_options(&self.latch, blocking, timeout))
    }

    /// The part of `guard` that never waits: the one attempt, or none where
    /// the bound is refused.
    pub fn guard_now(&self, blocking: bool, timeout: Option<Seconds>) -> (r: Option<LockGuard>)
        ensures
            wait_policy_of(blocking, timeout) == WaitPolicy::Refuse ==> r is None,
            r matches Some(guard) ==> guard.is_held(),
    {
        LockGuard::around(lock_now(&self.latch, blocking, timeout))
    }

    /// The part of `guard` that may wait: what follows a failed attempt. A
    /// policy that does not wait gives nothing at once.
    pub fn guard_wait(&self, blocking: bool, timeout: Option<Seconds>) -> (r: Option<LockGuard>)
        ensures
            wait_policy_of(blocking, timeout) == WaitPolicy::Forever ==> r is Some,
            wait_policy_of(blocking, timeout) == WaitPolicy::Refuse ==> r is None,
            wait_policy_of(blocking, timeout) == WaitPolicy::Never ==> r is None,
            r matches Some(guard) ==> guard.is_held(),
    {
        LockGuard::around(lock_wait(&self.latch, blocking, timeout))
    }
}


/// `ReentrantMutex::new` of `parking_lot`: a fresh unlocked reentrant mutex.
#[verifier::external_body]
fn reentrant_new() -> ReentrantMutex<RawMutex, RawThreadId, ()> {
    ReentrantMutex::new(())
}

/// `ReentrantMutex::lock_arc`: waits until the calling thread owns the mutex,
/// which it does at once where it owns it already.
#[verifier::external_body]
fn reentrant_lock(latch: &Arc<ReentrantMutex<RawMutex, RawThreadId, ()>>) -> ReentrantHold {
    ReentrantHold { guard: latch.lock_arc() }
}

/// `ReentrantMutex::try_lock_arc`: as `lock_arc`, but gives up at once where
/// another thread owns the mutex.
#[verifier::external_body]
fn reentrant_try_lock(latch: &Arc<ReentrantMutex<RawMutex, RawThreadId, ()>>) -> Option<
    ReentrantHold,
> {
    latch.try_lock_arc().map(|guard| ReentrantHold { guard })
}

/// A lock that the thread which owns it may lock again.
#[derive(Clone)]
pub struct RLock {
    latch: Arc<ReentrantMutex<RawMutex, RawThreadId, ()>>,
}

/// One level of a thread's ownership of an `RLock`, given up once: by
/// `release`, or when the guard is dropped. The guards of one thread may be
/// released in any order.
pub struct RLockGuard {
    hold: Option<ReentrantHold>,
}

impl RLockGuard {
    /// The guard still has its hold on the lock.
    pub closed spec fn is_held(&self) -> bool {
        self.hold is Some
    }

    /// A guard with the hold that an attempt to lock gave, where it gave
    /// one.
    fn around(hold: Option<ReentrantHold>) -> (r: Option<RLockGuard>)
        ensures
            r is Some <==> hold is Some,
            r matches Some(guard) ==> guard.is_held(),
    {
        match hold {
            Some(hold) => Some(RLockGuard { hold: Some(hold) }),
            None => None,
        }
    }

    pub fn held(&self) -> (r: bool)
        ensures
            r == self.is_held(),
    {
        self.hold.is_some()
    }

    /// Gives the hold up. A guard that has none stays as it is.
    pub fn release(&mut self)
        ensures
            !final(self).is_held(),
            !old(self).is_held() ==> *final(self) == *old(self),
    {
        self.hold = None;
    }

    pub fn unlock_alias(&mut self)
        ensures
            !final(self).is_held(),
            !old(self).is_held() ==> *final(self) == *old(self),
    {
        self.release();
    }
}

impl RLock {
    pub fn new() -> RLock {
        RLock { latch: Arc::new(reentrant_new()) }
    }

    /// Waits until the calling thread owns the lock, one level deeper than
    /// before.
    pub fn acquire(&self) -> (guard: RLockGuard)
        ensures
            guard.is_held(),
    {
        RLockGuard { hold: Some(reentrant_lock(&self.latch)) }
    }

    pub fn lock_alias(&self) -> (guard: RLockGuard)
        ensures
            guard.is_held(),
    {
        self.acquire()
    }

    /// As `acquire`, but returns nothing where another thread owns the lock.
    pub fn try_acquire(&self) -> (r: Option<RLockGuard>)
        ensures
            r matches Some(guard) ==> guard.is_held(),
    {
        RLockGuard::around(reentrant_try_lock(&self.latch))
    }

    pub fn try_lock_alias(&self) -> (r: Option<RLockGuard>)
        ensures
            r matches Some(guard) ==> guard.is_held(),
    {
        self.try_acquire()
    }
}

/// `RwLock::new` of `parking_lot`: a fresh unlocked read-write lock.
#[verifier::external_body]
fn rwlock_new() -> RwLock<RawRwLock, ()> {
    RwLock::new(())
}

/// `RwLock::try_read_arc`: takes a shared lock if that is possible at once.
#[verifier::external_body]
fn rwlock_try_read(latch: &Arc<RwLock<RawRwLock, ()>>) -> Option<SharedHold> {
    latch.try_read_arc().map(|guard| SharedHold { guard })
}

/// `RwLock::read_arc`: waits until the caller has a shared lock.
#[verifier::external_body]
fn rwlock_read(latch: &Arc<RwLock<RawRwLock, ()>>) -> SharedHold {
    SharedHold { guard: latch.read_arc() }
}

/// `RwLock::try_read_arc_for`: waits for a shared lock for the duration at
/// most, and without end where the clock cannot count so far.
#[verifier::external_body]
fn rwlock_try_read_for(latch: &Arc<RwLock<RawRwLock, ()>>, span: Duration) -> Option<SharedHold> {
    latch.try_read_arc_for(span).map(|guard| SharedHold { guard })
}

/// `RwLock::try_write_arc`: takes the exclusive lock if that is possible at
/// once.
#[verifier::external_body]
fn rwlock_try_write(latch: &Arc<RwLock<RawRwLock, ()>>) -> Option<ExclusiveHold> {
    latch.try_write_arc().map(|guard| ExclusiveHold { guard })
}

/// `RwLock::write_arc`: waits until the caller has the exclusive lock.
#[verifier::external_body]
fn rwlock_write(latch: &Arc<RwLock<RawRwLock, ()>>) -> ExclusiveHold {
    ExclusiveHold { guard: latch.write_arc() }
}

/// `RwLock::try_write_arc_for`: waits for the exclusive lock for the
/// duration at most, and without end where the clock cannot count so far.
#[verifier::external_body]
fn rwlock_try_write_for(latch: &Arc<RwLock<RawRwLock, ()>>, span: Duration) -> Option<
    ExclusiveHold,
> {
    latch.try_write_arc_for(span).map(|guard| ExclusiveHold { guard })
}

/// `RwLock::is_locked`: whether some hold on the lock exists just now.
#[verifier::external_body]
fn rwlock_is_locked(latch: &Arc<RwLock<RawRwLock, ()>>) -> bool {
    latch.is_locked()
}

/// `RwLock::is_locked_exclusive`: whether an exclusive hold exists just now.
#[verifier::external_body]
fn rwlock_is_locked_exclusive(latch: &Arc<RwLock<RawRwLock, ()>>) -> bool {
    latch.is_locked_exclusive()
}

/// `ArcRwLockWriteGuard::downgrade`: turns the exclusive lock into a shared
/// one, with no moment in between at which the lock is free.
#[verifier::external_body]
fn exclusive_downgrade(hold: ExclusiveHold) -> SharedHold {
    SharedHold { guard: parking_lot::lock_api::ArcRwLockWriteGuard::downgrade(hold.guard) }
}

/// `ArcRwLockWriteGuard::unlock_fair`: gives the exclusive lock up and hands
/// it to whoever has waited longest.
#[verifier::external_body]
fn exclusive_unlock_fair(hold: ExclusiveHold) {
    parking_lot::lock_api::ArcRwLockWriteGuard::unlock_fair(hold.guard)
}

/// `ArcRwLockWriteGuard::bump`: lets a waiting thread have the lock for a
/// while, and comes back with the exclusive lock.
#[verifier::external_body]
fn exclusive_bump(hold: &mut ExclusiveHold) {
    parking_lot::lock_api::ArcRwLockWriteGuard::bump(&mut hold.guard)
}

/// `ArcRwLockReadGuard::bump`: lets a waiting thread have the lock for a
/// while, and comes back with a shared lock.
#[verifier::external_body]
fn shared_bump(hold: &mut SharedHold) {
    parking_lot::lock_api::ArcRwLockReadGuard::bump(&mut hold.guard)
}

/// The one attempt to take a shared lock, which never waits. A policy that
/// refuses makes none.
fn lock_shared_now(
    latch: &Arc<RwLock<RawRwLock, ()>>,
    blocking: bool,
    timeout: Option<Seconds>,
) -> (r: Option<SharedHold>)
    ensures
        wait_policy_of(blocking, timeout) == WaitPolicy::Refuse ==> r is None,
{
    match wait_policy(blocking, timeout) {
        WaitPolicy::Refuse => None,
        _ => rwlock_try_read(latch),
    }
}

/// The wait for a shared lock that follows a failed attempt, as the policy
/// says.
fn lock_shared_wait(
    latch: &Arc<RwLock<RawRwLock, ()>>,
    blocking: bool,
    timeout: Option<Seconds>,
) -> (r: Option<SharedHold>)
    ensures
        wait_policy_of(blocking, timeout) == WaitPolicy::Forever ==> r is Some,
        wait_policy_of(blocking, timeout) == WaitPolicy::Refuse ==> r is None,
        wait_policy_of(blocking, timeout) == WaitPolicy::Never ==> r is None,
{
    match wait_policy(blocking, timeout) {
        WaitPolicy::Refuse => None,
        WaitPolicy::Never => None,
        WaitPolicy::Forever => Some(rwlock_read(latch)),
        WaitPolicy::Within(span) => rwlock_try_read_for(latch, duration_of(span)),
    }
}

/// Takes a shared lock as the policy of `blocking` and `timeout` says: not
/// at all where the bound is refused, else with one attempt, and with a wait
/// where that fails.
fn lock_shared_with_options(
    latch: &Arc<RwLock<RawRwLock, ()>>,
    blocking: bool,
    timeout: Option<Seconds>,
) -> (r: Option<SharedHold>)
    ensures
        wait_policy_of(blocking, timeout) == WaitPolicy::Forever ==> r is Some,
        wait_policy_of(blocking, timeout) == WaitPolicy::Refuse ==> r is None,
{
    let first = lock_shared_now(latch, blocking, timeout);
    if first.is_some() {
        return first;
    }
    lock_shared_wait(latch, blocking, timeout)
}

/// The one attempt to take the exclusive lock, which never waits. A policy
/// that refuses makes none.
fn lock_exclusive_now(
    latch: &Arc<RwLock<RawRwLock, ()>>,
    blocking: bool,
    timeout: Option<Seconds>,
) -> (r: Option<ExclusiveHold>)
    ensures
        wait_policy_of(blocking, timeout) == WaitPolicy::Refuse ==> r is None,
{
    match wait_policy(blocking, timeout) {
        WaitPolicy::Refuse => None,
        _ => rwlock_try_write(latch),
    }
}

/// The wait for the exclusive lock that follows a failed attempt, as the
/// policy says.
fn lock_exclusive_wait(
    latch: &Arc<RwLock<RawRwLock, ()>>,
    blocking: bool,
    timeout: Option<Seconds>,
) -> (r: Option<ExclusiveHold>)
    ensures
        wait_policy_of(blocking, timeout) == WaitPolicy::Forever ==> r is Some,
        wait_policy_of(blocking, timeout) == WaitPolicy::Refuse ==> r is None,
        wait_policy_of(blocking, timeout) == WaitPolicy::Never ==> r is None,
{
    match wait_policy(blocking, timeout) {
        WaitPolicy::Refuse => None,
        WaitPolicy::Never => None,
        WaitPolicy::Forever => Some(rwlock_write(latch)),
        WaitPolicy::Within(span) => rwlock_try_write_for(latch, duration_of(span)),
    }
}

/// Takes the exclusive lock as the policy of `blocking` and `timeout` says:
/// not at all where the bound is refused, else with one attempt, and with a
/// wait where that fails.
fn lock_exclusive_with_options(
    latch: &Arc<RwLock<RawRwLock, ()>>,
    blocking: bool,
    timeout: Option<Seconds>,
) -> (r: Option<ExclusiveHold>)
    ensures
        wait_policy_of(blocking, timeout) == WaitPolicy::Forever ==> r is Some,
        wait_policy_of(blocking, timeout) == WaitPolicy::Refuse ==> r is None,
{
    let first = lock_exclusive_now(latch, blocking, timeout);
    if first.is_some() {
        return first;
    }
    lock_exclusive_wait(latch, blocking, timeout)
}

/// A lock that many readers or one writer hold at a time.
pub struct RWLock {
    latch: Arc<RwLock<RawRwLock, ()>>,
    parked_shared: Mutex<RawMutex, Vec<SharedHold>>,
    parked_exclusive: Mutex<RawMutex, Vec<ExclusiveHold>>,
}

/// A shared hold on an `RWLock` that is given up once: by `release`, or when
/// the guard is dropped.
pub struct ReadGuard {
    hold: Option<SharedHold>,
}

/// The exclusive hold on an `RWLock`. It ends once: by `release`, by
/// `release_fair`, by `downgrade`, or when the guard is dropped.
pub struct WriteGuard {
    hold: Option<ExclusiveHold>,
}

impl ReadGuard {
    /// The guard still has its hold on the lock.
    pub closed spec fn is_held(&self) -> bool {
        self.hold is Some
    }

    /// A guard with the hold that an attempt to lock gave, where it gave
    /// one.
    fn around(hold: Option<SharedHold>) -> (r: Option<ReadGuard>)
        ensures
            r is Some <==> hold is Some,
            r matches Some(guard) ==> guard.is_held(),
    {
        match hold {
            Some(hold) => Some(ReadGuard { hold: Some(hold) }),
            None => None,
        }
    }

    pub fn held(&self) -> (r: bool)
        ensures
            r == self.is_held(),
    {
        self.hold.is_some()
    }

    /// Gives the hold up. A guard that has none stays as it is.
    pub fn release(&mut self)
        ensures
            !final(self).is_held(),
            !old(self).is_held() ==> *final(self) == *old(self),
    {
        self.hold = None;
    }

    pub fn unlock_alias(&mut self)
        ensures
            !final(self).is_held(),
            !old(self).is_held() ==> *final(self) == *old(self),
    {
        self.release();
    }
}

impl WriteGuard {
    /// The guard still has the exclusive hold on the lock.
    pub closed spec fn is_held(&self) -> bool {
        self.hold is Some
    }

    /// A guard with the hold that an attempt to lock gave, where it gave
    /// one.
    fn around(hold: Option<ExclusiveHold>) -> (r: Option<WriteGuard>)
        ensures
            r is Some <==> hold is Some,
            r matches Some(guard) ==> guard.is_held(),
    {
        match hold {
            Some(hold) => Some(WriteGuard { hold: Some(hold) }),
            None => None,
        }
    }

    pub fn held(&self) -> (r: bool)
        ensures
            r == self.is_held(),
    {
        self.hold.is_some()
    }

    /// Gives the hold up. A guard that has none stays as it is.
    pub fn release(&mut self)
        ensures
            !final(self).is_held(),
            !old(self).is_held() ==> *final(self) == *old(self),
    {
        self.hold = None;
    }

    pub fn unlock_alias(&mut self)
        ensures
            !final(self).is_held(),
            !old(self).is_held() ==> *final(self) == *old(self),
    {
        self.release();
    }

    /// Gives the hold up and hands the lock to whoever has waited longest. A
    /// guard that has no hold stays as it is.
    pub fn release_fair(&mut self)
        ensures
            !final(self).is_held(),
            !old(self).is_held() ==> *final(self) == *old(self),
    {
        match self.hold.take() {
            Some(hold) => exclusive_unlock_fair(hold),
            None => {},
        }
    }

    pub fn unlock_fair_alias(&mut self)
        ensures
            !final(self).is_held(),
            !old(self).is_held() ==> *final(self) == *old(self),
    {
        self.release_fair();
    }

    /// Turns the exclusive hold into a shared one, which the new guard has.
    /// A guard that has no hold gives nothing and stays as it is.
    pub fn downgrade(&mut self) -> (r: Option<ReadGuard>)
        ensures
            !final(self).is_held(),
            old(self).is_held() ==> r is Some,
            !old(self).is_held() ==> r is None && *final(self) == *old(self),
            r matches Some(guard) ==> guard.is_held(),
    {
        match self.hold.take() {
            Some(hold) => Some(ReadGuard { hold: Some(exclusive_downgrade(hold)) }),
            None => None,
        }
    }
}

impl RWLock {
    pub fn new() -> RWLock {
        RWLock {
            latch: Arc::new(rwlock_new()),
            parked_shared: mutex_new(Vec::new()),
            parked_exclusive: mutex_new(Vec::new()),
        }
    }

    /// Takes a shared lock, and keeps the hold inside the lock until
    /// `read_release`. Returns whether the lock was taken.
    pub fn acquire_read(&self, blocking: bool, timeout: Option<Seconds>) -> (acquired: bool)
        ensures
            wait_policy_of(blocking, timeout) == WaitPolicy::Forever ==> acquired,
            wait_policy_of(blocking, timeout) == WaitPolicy::Refuse ==> !acquired,
    {
        park(&self.parked_shared, lock_shared_with_options(&self.latch, blocking, timeout))
    }

    pub fn read_lock_alias(&self, blocking: bool, timeout: Option<Seconds>) -> (acquired: bool)
        ensures
            wait_policy_of(blocking, timeout) == WaitPolicy::Forever ==> acquired,
            wait_policy_of(blocking, timeout) == WaitPolicy::Refuse ==> !acquired,
    {
        self.acquire_read(blocking, timeout)
    }

    /// The part of `acquire_read` that never waits: the one attempt, or
    /// none where the bound is refused.
    pub fn acquire_read_now(&self, blocking: bool, timeout: Option<Seconds>) -> (acquired: bool)
        ensures
            wait_policy_of(blocking, timeout) == WaitPolicy::Refuse ==> !acquired,
    {
        park(&self.parked_shared, lock_shared_now(&self.latch, blocking, timeout))
    }

    /// The part of `acquire_read` that may wait: what follows a failed
    /// attempt. A policy that does not wait gives `false` at once.
    pub fn acquire_read_wait(&self, blocking: bool, timeout: Option<Seconds>) -> (acquired: bool)
        ensures
            wait_policy_of(blocking, timeout) == WaitPolicy::Forever ==> acquired,
            wait_policy_of(blocking, timeout) == WaitPolicy::Refuse ==> !acquired,
            wait_policy_of(blocking, timeout) == WaitPolicy::Never ==> !acquired,
    {
        park(&self.parked_shared, lock_shared_wait(&self.latch, blocking, timeout))
    }

    /// Gives up one shared hold that `acquire_read` left inside the lock.
    /// Without such a hold nothing happens.
    pub fn read_release(&self) {
        let _ = slot_pop(&self.parked_shared);
    }

    /// Takes a shared lock if that is possible at once.
    pub fn try_acquire_read(&self) -> bool {
        park(&self.parked_shared, rwlock_try_read(&self.latch))
    }

    pub fn try_read_lock_alias(&self) -> bool {
        self.try_acquire_read()
    }

    /// Takes a shared lock and returns a guard with the hold, or nothing
    /// where the lock was not taken.
    pub fn read_guard(&self, blocking: bool, timeout: Option<Seconds>) -> (r: Option<ReadGuard>)
        ensures
            wait_policy_of(blocking, timeout) == WaitPolicy::Forever ==> r is Some,
            wait_policy_of(blocking, timeout) == WaitPolicy::Refuse ==> r is None,
            r matches Some(guard) ==> guard.is_held(),
    {
        ReadGuard::around(lock_shared_with_options(&self.latch, blocking, timeout))
    }

    /// The part of `read_guard` that never waits: the one attempt, or none
    /// where the bound is refused.
    pub fn read_guard_now(&self, blocking: bool, timeout: Option<Seconds>) -> (r: Option<
        ReadGuard,
    >)
        ensures
            wait_policy_of(blocking, timeout) == WaitPolicy::Refuse ==> r is None,
            r matches Some(guard) ==> guard.is_held(),
    {
        ReadGuard::around(lock_shared_now(&self.latch, blocking, timeout))
    }

    /// The part of `read_guard` that may wait: what follows a failed
    /// attempt. A policy that does not wait gives nothing at once.
    pub fn read_guard_wait(&self, blocking: bool, timeout: Option<Seconds>) -> (r: Option<
        ReadGuard,
    >)
        ensures
            wait_policy_of(blocking, timeout) == WaitPolicy::Forever ==> r is Some,
            wait_policy_of(blocking, timeout) == WaitPolicy::Refuse ==> r is None,
            wait_policy_of(blocking, timeout) == WaitPolicy::Never ==> r is None,
            r matches Some(guard) ==> guard.is_held(),
    {
        ReadGuard::around(lock_shared_wait(&self.latch, blocking, timeout))
    }

    /// Takes the exclusive lock, and keeps the hold inside the lock until
    /// `write_release`. Returns whether the lock was taken.
    pub fn acquire_write(&self, blocking: bool, timeout: Option<Seconds>) -> (acquired: bool)
        ensures
            wait_policy_of(blocking, timeout) == WaitPolicy::Forever ==> acquired,
            wait_policy_of(blocking, timeout) == WaitPolicy::Refuse ==> !acquired,
    {
        park(&self.parked_exclusive, lock_exclusive_with_options(&self.latch, blocking, timeout))
    }

    pub fn write_lock_alias(&self, blocking: bool, timeout: Option<Seconds>) -> (acquired: bool)
        ensures
            wait_policy_of(blocking, timeout) == WaitPolicy::Forever ==> acquired,
            wait_policy_of(blocking, timeout) == WaitPolicy::Refuse ==> !acquired,
    {
        self.acquire_write(blocking, timeout)
    }

    /// The part of `acquire_write` that never waits: the one attempt, or
    /// none where the bound is refused.
    pub fn acquire_write_now(&self, blocking: bool, timeout: Option<Seconds>) -> (acquired: bool)
        ensures
            wait_policy_of(blocking, timeout) == WaitPolicy::Refuse ==> !acquired,
    {
        park(&self.parked_exclusive, lock_exclusive_now(&self.latch, blocking, timeout))
    }

    /// The part of `acquire_write` that may wait: what follows a failed
    /// attempt. A policy that does not wait gives `false` at once.
    pub fn acquire_write_wait(&self, blocking: bool, timeout: Option<Seconds>) -> (acquired: bool)
        ensures
            wait_policy_of(blocking, timeout) == WaitPolicy::Forever ==> acquired,
            wait_policy_of(blocking, timeout) == WaitPolicy::Refuse ==> !acquired,
            wait_policy_of(blocking, timeout) == WaitPolicy::Never ==> !acquired,
    {
        park(&self.parked_exclusive, lock_exclusive_wait(&self.latch, blocking, timeout))
    }

    /// Gives up the exclusive hold that `acquire_write` left inside the
    /// lock. Without such a hold nothing happens.
    pub fn write_release(&self) {
        let _ = slot_pop(&self.parked_exclusive);
    }

    /// Takes the exclusive lock and returns a guard with the hold, or
    /// nothing where the lock was not taken.
    pub fn write_guard(&self, blocking: bool, timeout: Option<Seconds>) -> (r: Option<WriteGuard>)
        ensures
            wait_policy_of(blocking, timeout) == WaitPolicy::Forever ==> r is Some,
            wait_policy_of(blocking, timeout) == WaitPolicy::Refuse ==> r is None,
            r matches Some(guard) ==> guard.is_held(),
    {
        WriteGuard::around(lock_exclusive_with_options(&self.latch, blocking, timeout))
    }

    /// The part of `write_guard` that never waits: the one attempt, or none
    /// where the bound is refused.
    pub fn write_guard_now(&self, blocking: bool, timeout: Option<Seconds>) -> (r: Option<
        WriteGuard,
    >)
        ensures
            wait_policy_of(blocking, timeout) == WaitPolicy::Refuse ==> r is None,
            r matches Some(guard) ==> guard.is_held(),
    {
        WriteGuard::around(lock_exclusive_now(&self.latch, blocking, timeout))
    }

    /// The part of `write_guard` that may wait: what follows a failed
    /// attempt. A policy that does not wait gives nothing at once.
    pub fn write_guard_wait(&self, blocking: bool, timeout: Option<Seconds>) -> (r: Option<
        WriteGuard,
    >)
        ensures
            wait_policy_of(blocking, timeout) == WaitPolicy::Forever ==> r is Some,
            wait_policy_of(blocking, timeout) == WaitPolicy::Refuse ==> r is None,
            wait_policy_of(blocking, timeout) == WaitPolicy::Never ==> r is None,
            r matches Some(guard) ==> guard.is_held(),
    {
        WriteGuard::around(lock_exclusive_wait(&self.latch, blocking, timeout))
    }

    /// Takes the exclusive lock if that is possible at once.
    pub fn try_acquire_write(&self) -> bool {
        park(&self.parked_exclusive, rwlock_try_write(&self.latch))
    }

    pub fn try_write_lock_alias(&self) -> bool {
        self.try_acquire_write()
    }

    pub fn is_locked(&self) -> bool {
        rwlock_is_locked(&self.latch)
    }

    pub fn is_write_locked(&self) -> bool {
        rwlock_is_locked_exclusive(&self.latch)
    }

    /// As `write_release`, but hands the lock to whoever has waited longest.
    pub fn write_release_fair(&self) {
        match slot_pop(&self.parked_exclusive) {
            Some(hold) => exclusive_unlock_fair(hold),
            None => {},
        }
    }

    /// Lets a waiting thread have the lock for a while, on behalf of a
    /// shared hold that `acquire_read` left inside the lock. Without such a
    /// hold nothing happens. The hold is out of the lock for the length of
    /// the call: a `read_release` that another thread makes meanwhile gives
    /// up another hold, or none where this was the only one. To release the
    /// very hold that is lent to this call, wait for the call to return.
    pub fn bump_shared(&self) {
        match slot_pop(&self.parked_shared) {
            Some(hold) => {
                let mut hold = hold;
                shared_bump(&mut hold);
                slot_push(&self.parked_shared, hold);
            },
            None => {},
        }
    }

    /// Lets a waiting thread have the lock for a while, on behalf of the
    /// exclusive hold that `acquire_write` left inside the lock. Without
    /// such a hold nothing happens. The hold is out of the lock for the
    /// length of the call: a `write_release` that another thread makes
    /// meanwhile finds none. To release the hold that is lent to this call,
    /// wait for the call to return.
    pub fn bump_exclusive(&self) {
        match slot_pop(&self.parked_exclusive) {
            Some(hold) => {
                let mut hold = hold;
                exclusive_bump(&mut hold);
                slot_push(&self.parked_exclusive, hold);
            },
            None => {},
        }
    }
}

} // verus!
