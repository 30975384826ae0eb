use std::sync::{Condvar, Mutex, MutexGuard};
use vstd::prelude::*;

use crate::permits::{acquired, must_wait, next, released, Step};

verus! {

#[verifier::external_type_specification]
#[verifier::external_body]
#[verifier::reject_recursive_types(T)]
pub struct ExMutex<T: ?Sized>(Mutex<T>);

#[verifier::external_type_specification]
#[verifier::external_body]
#[verifier::reject_recursive_types(T)]
pub struct ExMutexGuard<'a, T: ?Sized + 'a>(MutexGuard<'a, T>);

#[verifier::external_type_specification]
#[verifier::external_body]
pub struct ExCondvar(Condvar);

/// The count that a guard of the semaphore's mutex gives access to.
pub uninterp spec fn guarded(g: MutexGuard<usize>) -> usize;

/// Relies on `Mutex::new`: a mutex that holds `v`.
#[verifier::external_body]
fn new_mutex(v: usize) -> (r: Mutex<usize>) {
    Mutex::new(v)
}

/// Relies on `Condvar::new`: a condition variable with no waiter.
#[verifier::external_body]
fn new_condvar() -> (r: Condvar) {
    Condvar::new()
}

/// Relies on `Mutex::lock`: blocks until the calling thread holds the lock.
/// The count is only ever changed by code of this module that cannot panic
/// while holding the lock, so the mutex is never poisoned.
#[verifier::external_body]
fn lock(m: &Mutex<usize>) -> (r: MutexGuard<'_, usize>) {
    m.lock().unwrap()
}

/// Relies on `Condvar::wait_while`: releases the lock and sleeps while the
/// condition holds, and returns holding the lock once it is false. The
/// condition is `must_wait`, so the count under the returned guard is below
/// `capacity`.
#[verifier::external_body]
fn wait_while_full<'a>(c: &Condvar, g: MutexGuard<'a, usize>, capacity: usize) -> (r:
    MutexGuard<'a, usize>)
    ensures
        guarded(r) < capacity,
{
    c.wait_while(g, |n| must_wait(*n, capacity)).unwrap()
}

/// Relies on `Deref` of `MutexGuard`: reads the guarded count.
#[verifier::external_body]
fn read(g: &MutexGuard<usize>) -> (r: usize)
    ensures
        r == guarded(*g),
{
    **g
}

/// Relies on `DerefMut` of `MutexGuard`: overwrites the guarded count.
#[verifier::external_body]
fn write(g: &mut MutexGuard<usize>, v: usize)
    ensures
        guarded(*final(g)) == v,
{
    **g = v;
}

/// Relies on `Condvar::notify_one`: wakes one waiting thread, if any.
#[verifier::external_body]
fn notify_one(c: &Condvar) {
    c.notify_one()
}

/// Takes a permit under the lock: the count steps by an acquire and stays
/// within `capacity`.
pub fn take_permit(g: &mut MutexGuard<usize>, capacity: usize)
    requires
        guarded(*old(g)) < capacity,
    ensures
        guarded(*final(g)) == next(guarded(*old(g)) as nat, Step::Acquire),
        guarded(*final(g)) <= capacity,
{
    let n = read(g);
    write(g, acquired(n, capacity));
}

/// Returns a permit under the lock: the count steps by a release.
pub fn return_permit(g: &mut MutexGuard<usize>)
    ensures
        guarded(*final(g)) == next(guarded(*old(g)) as nat, Step::Release),
{
    let n = read(g);
    write(g, released(n));
}

/// A counting semaphore: at most `capacity` permits are held at once.
pub struct Semaphore {
    count: Mutex<usize>,
    cond: Condvar,
    capacity: usize,
}

impl Semaphore {
    /// The number of permits, fixed at construction.
    pub closed spec fn capacity(&self) -> nat {
        self.capacity as nat
    }

    /// A semaphore with `max` permits, none of them held. With `max == 0`
    /// every `wait` blocks for ever.
    pub fn new(max: isize) -> (s: Self)
        requires
            max >= 0,
        ensures
            s.capacity() == max,
    {
        Semaphore { count: new_mutex(0), cond: new_condvar(), capacity: max as usize }
    }

    /// Blocks until a permit is free, then takes it. It returns only after
    /// taking a permit, so on a semaphore with no permits it never returns.
    pub fn wait(&self)
        ensures
            self.capacity() > 0,
    {
        let g = lock(&self.count);
        let mut g = wait_while_full(&self.cond, g, self.capacity);
        take_permit(&mut g, self.capacity);
    }

    /// Returns a permit and wakes one waiter, if any. Only a thread that holds
    /// a permit may call it; a release while no permit is held leaves the
    /// count at zero.
    pub fn post(&self) {
        let mut g = lock(&self.count);
        return_permit(&mut g);
        notify_one(&self.cond);
    }
}

} // verus!
