use vstd::prelude::*;

verus! {

/// One stored element: the time at which it becomes ready (nanoseconds on the
/// owning queue's clock) and the payload.
pub struct Entry<T> {
    pub ready: u64,
    pub item: T,
}

/// `a` may leave the queue before `b`: it is ready no later.
pub open spec fn precedes<T>(a: Entry<T>, b: Entry<T>) -> bool {
    a.ready <= b.ready
}

/// Entries listed in the order in which they leave the queue: ready times
/// never decrease.
pub open spec fn in_removal_order<T>(s: Seq<Entry<T>>) -> bool {
    forall|i: int, j: int| 0 <= i < j < s.len() ==> #[trigger] precedes(s[i], s[j])
}

/// What the next removal attempt does at time `now`, with an optional deadline.
pub enum Step {
    /// The head is ready: remove it.
    Ready,
    /// Nothing is ready yet: wait at most this many nanoseconds, then look again.
    WaitFor(u64),
    /// The queue is empty and there is no deadline: wait for an insertion.
    WaitForInsert,
    /// The deadline has passed and nothing is ready.
    TimedOut,
}

/// Where an entry that is ready at `ready` goes among `s`: behind every entry
/// that is ready no later, so that equal ready times leave first-in-first-out.
pub open spec fn insert_position<T>(s: Seq<Entry<T>>, ready: u64) -> int
    decreases s.len(),
{
    if s.len() == 0 {
        0
    } else if s.last().ready <= ready {
        s.len() as int
    } else {
        insert_position(s.drop_last(), ready)
    }
}

/// In a sequence in removal order, `insert_position` splits the entries that
/// are ready no later than `ready` from those that are ready later.
pub proof fn lemma_insert_position<T>(s: Seq<Entry<T>>, ready: u64)
    requires
        in_removal_order(s),
    ensures
        0 <= insert_position(s, ready) <= s.len(),
        forall|i: int| 0 <= i < insert_position(s, ready) ==> #[trigger] s[i].ready <= ready,
        forall|i: int| insert_position(s, ready) <= i < s.len() ==> #[trigger] s[i].ready > ready,
    decreases s.len(),
{
    if s.len() > 0 {
        let n = s.len() - 1;
        if s.last().ready <= ready {
            assert forall|i: int| 0 <= i < s.len() implies #[trigger] s[i].ready <= ready by {
                if i < n {
                    assert(precedes(s[i], s[n]));
                }
            }
        } else {
            let t = s.drop_last();
            assert(in_removal_order(t)) by {
                assert forall|i: int, j: int| 0 <= i < j < t.len() implies #[trigger] precedes(
                    t[i],
                    t[j],
                ) by {
                    assert(precedes(s[i], s[j]));
                }
            }
            lemma_insert_position(t, ready);
            assert forall|i: int| insert_position(s, ready) <= i < s.len() implies #[trigger] s[i].ready
                > ready by {
                if i < n {
                    assert(t[i] == s[i]);
                }
            }
            assert forall|i: int| 0 <= i < insert_position(s, ready) implies #[trigger] s[i].ready
                <= ready by {
                assert(t[i] == s[i]);
            }
        }
    }
}

/// Inserting an entry at its `insert_position` keeps removal order.
pub proof fn lemma_insert_keeps_order<T>(s: Seq<Entry<T>>, e: Entry<T>)
    requires
        in_removal_order(s),
    ensures
        in_removal_order(s.insert(insert_position(s, e.ready), e)),
{
    let p = insert_position(s, e.ready);
    lemma_insert_position(s, e.ready);
    let t = s.insert(p, e);
    assert forall|i: int, j: int| 0 <= i < j < t.len() implies #[trigger] precedes(t[i], t[j]) by {
        if j < p {
            assert(precedes(s[i], s[j]));
        } else if i > p {
            assert(precedes(s[i - 1], s[j - 1]));
        } else if i < p && j > p {
            assert(s[i].ready <= e.ready);
            assert(s[j - 1].ready > e.ready);
        } else if i == p {
            assert(s[j - 1].ready > e.ready);
        } else {
            assert(s[i].ready <= e.ready);
        }
    }
}

/// The head of `s` is ready at time `now`.
pub open spec fn head_ready<T>(s: Seq<Entry<T>>, now: u64) -> bool {
    s.len() > 0 && s[0].ready <= now
}

/// The deadline has passed at time `now`.
pub open spec fn past_deadline(deadline: Option<u64>, now: u64) -> bool {
    match deadline {
        Some(d) => d <= now,
        None => false,
    }
}

/// When a waiting removal looks again: the earlier of the head's ready time
/// and the deadline, of those that exist.
pub open spec fn wake_time<T>(s: Seq<Entry<T>>, deadline: Option<u64>) -> int {
    match deadline {
        Some(d) => if s.len() > 0 {
            vstd::math::min(s[0].ready as int, d as int)
        } else {
            d as int
        },
        None => s[0].ready as int,
    }
}

/// What a removal attempt on `s` does at time `now`: take the head if it is
/// ready; else give up if the deadline has passed; else wait for an insertion
/// if there is neither an entry nor a deadline; else wait until the wake time.
pub open spec fn step_spec<T>(s: Seq<Entry<T>>, now: u64, deadline: Option<u64>) -> Step {
    if head_ready(s, now) {
        Step::Ready
    } else if past_deadline(deadline, now) {
        Step::TimedOut
    } else if s.len() == 0 && deadline is None {
        Step::WaitForInsert
    } else {
        Step::WaitFor((wake_time(s, deadline) - now) as u64)
    }
}

/// A deadline-ordered store of entries: the entry that is ready first is
/// always at the front, entries with equal ready times keep the order in
/// which they came, and a bounded store never holds more entries than its
/// capacity (a capacity of 0 means unbounded).
pub struct DelayHeap<T> {
    entries: Vec<Entry<T>>,
    capacity: usize,
}

impl<T> View for DelayHeap<T> {
    type V = Seq<Entry<T>>;

    closed spec fn view(&self) -> Seq<Entry<T>> {
        self.entries@
    }
}

impl<T> DelayHeap<T> {
    #[verifier::type_invariant]
    spec fn well_formed(self) -> bool {
        &&& in_removal_order(self.entries@)
        &&& (self.capacity == 0 || self.entries@.len() <= self.capacity)
    }

    /// The bound given at construction; 0 means unbounded.
    pub closed spec fn bound(self) -> nat {
        self.capacity as nat
    }

    /// An insertion is possible now: the store is unbounded or below its bound.
    pub open spec fn accepts(self) -> bool {
        self.bound() == 0 || self@.len() < self.bound()
    }

    /// Every store is in removal order and respects its bound.
    pub open spec fn valid(self) -> bool {
        &&& in_removal_order(self@)
        &&& (self.bound() == 0 || self@.len() <= self.bound())
    }

    /// An empty store with the given bound (0 for unbounded).
    pub fn new(capacity: usize) -> (r: Self)
        ensures
            r@ == Seq::<Entry<T>>::empty(),
            r.bound() == capacity,
    {
        DelayHeap { entries: Vec::new(), capacity }
    }

    pub fn len(&self) -> (r: usize)
        ensures
            r == self@.len(),
            self.valid(),
    {
        proof {
            use_type_invariant(self);
        }
        self.entries.len()
    }

    pub fn capacity(&self) -> (r: usize)
        ensures
            r == self.bound(),
    {
        self.capacity
    }

    pub fn is_empty(&self) -> (r: bool)
        ensures
            r == (self@.len() == 0),
    {
        self.entries.len() == 0
    }

    /// Whether `push` may be called now.
    pub fn has_room(&self) -> (r: bool)
        ensures
            r == self.accepts(),
    {
        self.capacity == 0 || self.entries.len() < self.capacity
    }

    /// Whether `push` has to wait.
    pub fn is_full(&self) -> (r: bool)
        ensures
            r == !self.accepts(),
    {
        !self.has_room()
    }

    /// Whether a removal at time `now` has to wait: the store is empty or its
    /// head is not ready yet.
    pub fn must_wait(&self, now: u64) -> (r: bool)
        ensures
            r == !head_ready(self@, now),
    {
        self.entries.len() == 0 || self.entries[0].ready > now
    }

    /// Inserts `item` with ready time `ready` behind every entry that is
    /// ready no later, and returns the position it took.
    pub fn push(&mut self, ready: u64, item: T) -> (p: usize)
        requires
            old(self).accepts(),
        ensures
            p == insert_position(old(self)@, ready),
            final(self)@ == old(self)@.insert(p as int, Entry { ready, item }),
            final(self).bound() == old(self).bound(),
            final(self).valid(),
    {
        proof {
            use_type_invariant(&*self);
            lemma_insert_position(self.entries@, ready);
        }
        let n = self.entries.len();
        let mut p: usize = 0;
        while p < n && self.entries[p].ready <= ready
            invariant
                n == self.entries@.len(),
                p <= n,
                forall|i: int| 0 <= i < p ==> #[trigger] self.entries@[i].ready <= ready,
            decreases n - p,
        {
            p = p + 1;
        }
        proof {
            let q = insert_position(self.entries@, ready);
            if q < p {
                assert(self.entries@[q].ready <= ready);
            } else if p < q {
                assert(self.entries@[p as int].ready <= ready);
            }
            lemma_insert_keeps_order(self.entries@, Entry { ready, item });
        }
        let mut entries = Vec::new();
        std::mem::swap(&mut entries, &mut self.entries);
        entries.insert(p, Entry { ready, item });
        self.entries = entries;
        p
    }

    /// Inserts `item` as `push` does when the store accepts it, and hands it
    /// back otherwise, leaving the store unchanged.
    pub fn try_push(&mut self, ready: u64, item: T) -> (r: Result<usize, T>)
        ensures
            r is Ok <==> old(self).accepts(),
            r matches Ok(p) ==> {
                &&& p == insert_position(old(self)@, ready)
                &&& final(self)@ == old(self)@.insert(p as int, Entry { ready, item })
            },
            r matches Err(x) ==> x == item && final(self)@ == old(self)@,
            final(self).bound() == old(self).bound(),
            final(self).valid(),
    {
        if self.has_room() {
            Ok(self.push(ready, item))
        } else {
            proof {
                use_type_invariant(&*self);
            }
            Err(item)
        }
    }

    /// Removes and returns the head, which every other entry follows.
    pub fn pop_first(&mut self) -> (r: T)
        requires
            old(self)@.len() > 0,
        ensures
            r == old(self)@[0].item,
            final(self)@ == old(self)@.drop_first(),
            final(self).bound() == old(self).bound(),
            final(self).valid(),
    {
        proof {
            use_type_invariant(&*self);
        }
        let mut entries = Vec::new();
        std::mem::swap(&mut entries, &mut self.entries);
        let ghost before = entries@;
        let head = entries.remove(0);
        proof {
            let after = entries@;
            assert forall|i: int, j: int| 0 <= i < j < after.len() implies #[trigger] precedes(
                after[i],
                after[j],
            ) by {
                assert(precedes(before[i + 1], before[j + 1]));
            }
        }
        self.entries = entries;
        head.item
    }

    /// Removes the head if it is ready at time `now`.
    pub fn pop_ready(&mut self, now: u64) -> (r: Option<T>)
        ensures
            head_ready(old(self)@, now) ==> {
                &&& r == Some(old(self)@[0].item)
                &&& final(self)@ == old(self)@.drop_first()
            },
            !head_ready(old(self)@, now) ==> {
                &&& r.is_none()
                &&& final(self)@ == old(self)@
            },
            final(self).bound() == old(self).bound(),
            final(self).valid(),
    {
        if self.must_wait(now) {
            proof {
                use_type_invariant(&*self);
            }
            None
        } else {
            Some(self.pop_first())
        }
    }

    /// Decides what a removal attempt does at time `now`, given an optional
    /// deadline on the same clock.
    pub fn next_step(&self, now: u64, deadline: Option<u64>) -> (r: Step)
        ensures
            r == step_spec(self@, now, deadline),
    {
        let n = self.entries.len();
        if n > 0 && self.entries[0].ready <= now {
            Step::Ready
        } else {
            match deadline {
                Some(d) => if d <= now {
                    Step::TimedOut
                } else if n > 0 && self.entries[0].ready < d {
                    Step::WaitFor(self.entries[0].ready - now)
                } else {
                    Step::WaitFor(d - now)
                },
                None => if n > 0 {
                    Step::WaitFor(self.entries[0].ready - now)
                } else {
                    Step::WaitForInsert
                },
            }
        }
    }
}

} // verus!
