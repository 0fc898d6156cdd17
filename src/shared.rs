use vstd::prelude::*;

use crate::delay_heap::DelayHeap;

verus! {

#[verifier::external_type_specification]
#[verifier::external_body]
pub struct ExCondvar(std::sync::Condvar);

#[verifier::external_type_specification]
#[verifier::external_body]
#[verifier::reject_recursive_types(T)]
pub struct ExMutex<T: ?Sized>(std::sync::Mutex<T>);

#[verifier::external_type_specification]
#[verifier::external_body]
#[verifier::reject_recursive_types(T)]
pub struct ExMutexGuard<'a, T: ?Sized + 'a>(std::sync::MutexGuard<'a, T>);

/// A `DelayHeap` behind a lock, the bound it was made with, and the two
/// condition variables bound to that lock: consumers wait on `not_empty`,
/// producers on `not_full`.
///
/// The fields stay private to this module. A store enters the lock only in
/// `new` and in the functions below that swap one in (`lock`, `unlock` and the
/// waits), and each of them requires that store to have the bound `capacity`.
/// So the lock only ever holds stores with that bound, which is what `lock`
/// and the waits state of the store they hand out.
///
/// A poisoned lock is a fatal error: `lock` and the waits panic on it. No code
/// of this crate panics while it holds the lock, and no payload code runs
/// there (removed elements are dropped after the lock is released), so
/// poisoning does not arise from this crate.
#[verifier::reject_recursive_types(T)]
pub struct SharedStore<T> {
    mutex: std::sync::Mutex<DelayHeap<T>>,
    capacity: usize,
    not_empty: std::sync::Condvar,
    not_full: std::sync::Condvar,
}

/// The lock of a `SharedStore`, held; only `lock` makes one, and it records
/// the store it belongs to.
#[verifier::reject_recursive_types(T)]
pub struct Locked<'a, T> {
    shared: &'a SharedStore<T>,
    guard: std::sync::MutexGuard<'a, DelayHeap<T>>,
}

/// Relies on Mutex::new: a lock that holds `store`.
#[verifier::external_body]
fn new_mutex<T>(store: DelayHeap<T>) -> std::sync::Mutex<DelayHeap<T>> {
    std::sync::Mutex::new(store)
}

/// Relies on Condvar::new.
#[verifier::external_body]
fn new_condvar() -> std::sync::Condvar {
    std::sync::Condvar::new()
}

/// Relies on Condvar::notify_one: wakes one thread waiting on `cv`, if any.
#[verifier::external_body]
fn notify_one(cv: &std::sync::Condvar) {
    cv.notify_one()
}

/// Relies on Condvar::notify_all: wakes every thread waiting on `cv`.
#[verifier::external_body]
fn notify_all(cv: &std::sync::Condvar) {
    cv.notify_all()
}

impl<T> SharedStore<T> {
    /// The bound of every store that the lock holds.
    pub closed spec fn bound(self) -> nat {
        self.capacity as nat
    }

    pub fn new(store: DelayHeap<T>) -> (r: Self)
        ensures
            r.bound() == store.bound(),
    {
        let capacity = store.capacity();
        SharedStore {
            mutex: new_mutex(store),
            capacity,
            not_empty: new_condvar(),
            not_full: new_condvar(),
        }
    }

    pub fn capacity(&self) -> (r: usize)
        ensures
            r == self.bound(),
    {
        self.capacity
    }

    /// Wakes one consumer: an element was inserted.
    pub fn inserted(&self) {
        notify_one(&self.not_empty)
    }

    /// Wakes one producer: an element was removed.
    pub fn removed(&self) {
        notify_one(&self.not_full)
    }

    /// Wakes every producer: the store was emptied.
    pub fn emptied(&self) {
        notify_all(&self.not_full)
    }
}

impl<'a, T> Locked<'a, T> {
    /// The bound of the `SharedStore` whose lock this is.
    pub closed spec fn bound(self) -> nat {
        self.shared.bound()
    }
}

/// Relies on Mutex::lock: blocks until this thread holds the lock, then swaps
/// the store in the lock with `store`, so that the caller works on it while it
/// holds the lock.
#[verifier::external_body]
pub(crate) fn lock<'a, T>(shared: &'a SharedStore<T>, store: &mut DelayHeap<T>) -> (r: Locked<'a, T>)
    requires
        old(store).bound() == shared.bound(),
    ensures
        r.bound() == shared.bound(),
        final(store).bound() == shared.bound(),
{
    let mut guard = shared.mutex.lock().expect("queue lock poisoned");
    std::mem::swap(&mut *guard, store);
    Locked { shared, guard }
}

/// Relies on MutexGuard's DerefMut and Drop: puts `store` back in the lock and
/// releases it.
#[verifier::external_body]
pub(crate) fn unlock<T>(l: Locked<'_, T>, store: DelayHeap<T>)
    requires
        store.bound() == l.bound(),
{
    let mut guard = l.guard;
    *guard = store;
}

/// Relies on Condvar::wait_while: puts `store` back in the lock, waits on
/// `not_full` until `is_full` is false of the store in the lock, and swaps it
/// out again; it returns only then, still holding the lock.
#[verifier::external_body]
pub(crate) fn wait_for_room<'a, T>(l: Locked<'a, T>, store: &mut DelayHeap<T>) -> (r: Locked<'a, T>)
    requires
        old(store).bound() == l.bound(),
    ensures
        r.bound() == l.bound(),
        final(store).bound() == l.bound(),
        final(store).accepts(),
{
    let Locked { shared, mut guard } = l;
    std::mem::swap(&mut *guard, store);
    let mut guard = shared.not_full.wait_while(guard, |s| s.is_full()).expect("queue lock poisoned");
    std::mem::swap(&mut *guard, store);
    Locked { shared, guard }
}

/// Relies on Condvar::wait_timeout_while: as `wait_for_room`, but gives up
/// once `timeout` has elapsed, so the store may still be full.
#[verifier::external_body]
pub(crate) fn wait_for_room_until<'a, T>(
    l: Locked<'a, T>,
    timeout: std::time::Duration,
    store: &mut DelayHeap<T>,
) -> (r: Locked<'a, T>)
    requires
        old(store).bound() == l.bound(),
    ensures
        r.bound() == l.bound(),
        final(store).bound() == l.bound(),
{
    let Locked { shared, mut guard } = l;
    std::mem::swap(&mut *guard, store);
    let (mut guard, _) = shared.not_full.wait_timeout_while(guard, timeout, |s| s.is_full()).expect(
        "queue lock poisoned",
    );
    std::mem::swap(&mut *guard, store);
    Locked { shared, guard }
}

/// Relies on Condvar::wait_while: puts `store` back in the lock, waits on
/// `not_empty` until the store in the lock is not empty, and swaps it out
/// again.
#[verifier::external_body]
pub(crate) fn wait_for_insert<'a, T>(l: Locked<'a, T>, store: &mut DelayHeap<T>) -> (r: Locked<'a, T>)
    requires
        old(store).bound() == l.bound(),
    ensures
        r.bound() == l.bound(),
        final(store).bound() == l.bound(),
        final(store)@.len() > 0,
{
    let Locked { shared, mut guard } = l;
    std::mem::swap(&mut *guard, store);
    let mut guard = shared.not_empty.wait_while(guard, |s| s.is_empty()).expect(
        "queue lock poisoned",
    );
    std::mem::swap(&mut *guard, store);
    Locked { shared, guard }
}

/// Relies on Condvar::wait_while: puts `store` back in the lock, waits on
/// `not_empty` until `head_blocked` is false of the store in the lock (so it
/// is not empty), and swaps it out again. Nothing wakes it when time alone
/// makes the head ready: it returns at a notification after that.
#[verifier::external_body]
pub(crate) fn wait_until_ready<'a, T>(
    l: Locked<'a, T>,
    origin: &std::time::Instant,
    store: &mut DelayHeap<T>,
) -> (r: Locked<'a, T>)
    requires
        old(store).bound() == l.bound(),
    ensures
        r.bound() == l.bound(),
        final(store).bound() == l.bound(),
        final(store)@.len() > 0,
{
    let Locked { shared, mut guard } = l;
    std::mem::swap(&mut *guard, store);
    let mut guard = shared.not_empty.wait_while(guard, |s| crate::clock::head_blocked(s, origin)).expect(
        "queue lock poisoned",
    );
    std::mem::swap(&mut *guard, store);
    Locked { shared, guard }
}

/// Relies on Condvar::wait_timeout: puts `store` back in the lock, waits on
/// `not_empty` once for at most `nanos` nanoseconds (a notification or a
/// spurious wake-up may end it early), and swaps the store out again.
#[verifier::external_body]
pub(crate) fn wait_at_most<'a, T>(l: Locked<'a, T>, nanos: u64, store: &mut DelayHeap<T>) -> (r: Locked<
    'a,
    T,
>)
    requires
        old(store).bound() == l.bound(),
    ensures
        r.bound() == l.bound(),
        final(store).bound() == l.bound(),
{
    let Locked { shared, mut guard } = l;
    std::mem::swap(&mut *guard, store);
    let (mut guard, _) = shared.not_empty.wait_timeout(guard, std::time::Duration::from_nanos(nanos)).expect(
        "queue lock poisoned",
    );
    std::mem::swap(&mut *guard, store);
    Locked { shared, guard }
}

} // verus!
