use vstd::prelude::*;

use crate::clock::{clock_reading, instant_now, nanos_of};
use crate::delay_heap::{DelayHeap, Step};
use crate::shared::{
    lock, unlock, wait_at_most, wait_for_insert, wait_for_room, wait_for_room_until,
    wait_until_ready, SharedStore,
};

verus! {

/// An element that may not leave the queue before a given instant.
pub trait Delayed {
    /// The instant from which the element may be removed.
    fn delay(&self) -> std::time::Instant;
}

/// A payload together with the instant from which it is ready.
#[derive(Debug, PartialEq)]
pub struct DelayItem<T> {
    pub data: T,
    pub delay: std::time::Instant,
}

impl<T> DelayItem<T> {
    pub fn new(data: T, delay: std::time::Instant) -> (r: Self)
        ensures
            r.data == data,
            r.delay == delay,
    {
        DelayItem { data, delay }
    }
}

impl<T> Delayed for DelayItem<T> {
    fn delay(&self) -> std::time::Instant {
        self.delay
    }
}

/// A thread-safe queue whose elements leave in order of their ready instants,
/// each no earlier than that instant; elements with equal ready instants leave
/// in the order in which they came. A queue made with a capacity never holds
/// more elements than that.
///
/// All state sits in one `DelayHeap` behind one lock, with one condition
/// variable for consumers and one for producers; each waiter checks its own
/// condition again whenever it wakes. Ready instants are kept as readings of a
/// clock whose origin is `origin`, the instant at which the queue was made;
/// instants before it read lower, so they keep their order.
#[verifier::reject_recursive_types(T)]
pub struct BlockingDelayQueue<T> {
    shared: SharedStore<T>,
    origin: std::time::Instant,
}

impl<T: Delayed> BlockingDelayQueue<T> {
    /// The bound given at construction; 0 means unbounded.
    pub closed spec fn capacity(self) -> nat {
        self.shared.bound()
    }

    /// An empty queue without a bound.
    pub fn new_unbounded() -> (r: Self)
        ensures
            r.capacity() == 0,
    {
        Self::new_with_capacity(0)
    }

    /// An empty queue that holds at most `capacity` elements; a capacity of 0
    /// means no bound.
    pub fn new_with_capacity(capacity: usize) -> (r: Self)
        ensures
            r.capacity() == capacity,
    {
        BlockingDelayQueue {
            shared: SharedStore::new(DelayHeap::new(capacity)),
            origin: instant_now(),
        }
    }

    /// The current time on the queue's clock.
    fn now(&self) -> u64 {
        clock_reading(&self.origin, &instant_now())
    }

    /// Inserts `e`, waiting as long as the queue is full.
    pub fn add(&self, e: T) {
        let ready = clock_reading(&self.origin, &e.delay());
        let mut store = DelayHeap::new(self.shared.capacity());
        let guard = lock(&self.shared, &mut store);
        let guard = wait_for_room(guard, &mut store);
        store.push(ready, e);
        unlock(guard, store);
        self.shared.inserted();
    }

    /// Inserts `e` if the queue has room for it within `timeout`, and returns
    /// whether it did; a zero timeout checks once. An element that is not
    /// inserted is dropped after the lock is released.
    pub fn offer(&self, e: T, timeout: std::time::Duration) -> (r: bool)
        ensures
            self.capacity() == 0 ==> r,
    {
        let ready = clock_reading(&self.origin, &e.delay());
        let mut store = DelayHeap::new(self.shared.capacity());
        let guard = lock(&self.shared, &mut store);
        let guard = wait_for_room_until(guard, timeout, &mut store);
        match store.try_push(ready, e) {
            Ok(_) => {
                unlock(guard, store);
                self.shared.inserted();
                true
            },
            Err(_rejected) => {
                unlock(guard, store);
                false
            },
        }
    }

    /// Removes and returns the element that is ready first, waiting until
    /// there is one and it is ready.
    pub fn take(&self) -> T {
        let mut store = DelayHeap::new(self.shared.capacity());
        let mut guard = lock(&self.shared, &mut store);
        // Every pass waits once. The count gives Verus a termination measure;
        // no thread lives through 2^64 wake-ups, and should one do so it falls
        // back to waiting until the head is ready.
        let mut rounds: u64 = u64::MAX;
        while rounds > 0
            invariant
                store.bound() == self.shared.bound(),
                guard.bound() == self.shared.bound(),
            decreases rounds,
        {
            match store.next_step(self.now(), None) {
                Step::Ready => {
                    let item = store.pop_first();
                    unlock(guard, store);
                    self.shared.removed();
                    return item;
                },
                Step::WaitFor(n) => {
                    guard = wait_at_most(guard, n, &mut store);
                },
                _ => {
                    guard = wait_for_insert(guard, &mut store);
                },
            }
            rounds = rounds - 1;
        }
        let guard = wait_until_ready(guard, &self.origin, &mut store);
        let item = store.pop_first();
        unlock(guard, store);
        self.shared.removed();
        item
    }

    /// As `take`, but gives up and returns `None` once `timeout` has elapsed
    /// with no element ready; a zero timeout checks once. A `Duration` cannot
    /// be negative, and one beyond the clock's range waits without end.
    pub fn poll(&self, timeout: std::time::Duration) -> Option<T> {
        let deadline = self.now().saturating_add(nanos_of(&timeout));
        let mut store = DelayHeap::new(self.shared.capacity());
        let mut guard = lock(&self.shared, &mut store);
        let mut rounds: u64 = u64::MAX;
        while rounds > 0
            invariant
                store.bound() == self.shared.bound(),
                guard.bound() == self.shared.bound(),
            decreases rounds,
        {
            match store.next_step(self.now(), Some(deadline)) {
                Step::Ready => {
                    let item = store.pop_first();
                    unlock(guard, store);
                    self.shared.removed();
                    return Some(item);
                },
                Step::WaitFor(n) => {
                    guard = wait_at_most(guard, n, &mut store);
                },
                _ => {
                    unlock(guard, store);
                    return None;
                },
            }
            rounds = rounds - 1;
        }
        unlock(guard, store);
        None
    }

    /// The number of elements in the queue at the moment of the call, taken
    /// under the lock; a bounded queue never holds more than its capacity.
    pub fn size(&self) -> (r: usize)
        ensures
            self.capacity() == 0 || r <= self.capacity(),
    {
        let mut store = DelayHeap::new(self.shared.capacity());
        let guard = lock(&self.shared, &mut store);
        let n = store.len();
        unlock(guard, store);
        n
    }

    /// Removes every element; the capacity stays. The removed elements are
    /// dropped after the lock is released, and every waiting producer is woken.
    pub fn clear(&self) {
        let mut store = DelayHeap::new(self.shared.capacity());
        let guard = lock(&self.shared, &mut store);
        let mut emptied = DelayHeap::new(self.shared.capacity());
        std::mem::swap(&mut emptied, &mut store);
        unlock(guard, store);
        self.shared.emptied();
    }
}

} // verus!
