use std::ops::Sub;
use std::time::{Duration, Instant};

use blocking_delay_queue::queue::{BlockingDelayQueue, DelayItem};

type MeasuredResult<T> = (T, Duration);

fn measure_time_millis<T>(f: impl Fn() -> T) -> MeasuredResult<T> {
    let now = Instant::now();
    let t = f();
    (t, now.elapsed())
}

#[test]
fn should_put_and_take_ordered() {
    let queue = BlockingDelayQueue::new_unbounded();
    queue.add(DelayItem::new(1, Instant::now()));
    queue.add(DelayItem::new(2, Instant::now()));

    assert_eq!(1, queue.take().data);
    assert_eq!(2, queue.take().data);
    assert_eq!(0, queue.size());
}

#[test]
fn should_put_and_take_delayed_items() {
    let queue = BlockingDelayQueue::new_unbounded();
    queue.add(DelayItem::new(1, Instant::now() + Duration::from_millis(10)));
    queue.add(DelayItem::new(2, Instant::now()));

    assert_eq!(2, queue.take().data);
    assert_eq!(1, queue.take().data);
    assert_eq!(0, queue.size());
}

#[test]
fn should_timeout_if_element_cant_be_added() {
    let queue = BlockingDelayQueue::new_with_capacity(1);
    let accepted = queue.offer(DelayItem::new(1, Instant::now()), Duration::from_millis(5));
    assert!(accepted);

    let timeout = Duration::from_millis(50);
    let res = measure_time_millis(|| queue.offer(DelayItem::new(2, Instant::now()), timeout));
    assert!(!res.0);
    assert!(res.1 >= timeout && res.1.sub(timeout) <= Duration::from_millis(10));

    assert_eq!(1, queue.take().data);
    assert_eq!(0, queue.size());
}

#[test]
fn should_timeout_if_element_cant_be_polled() {
    let queue: BlockingDelayQueue<DelayItem<u8>> = BlockingDelayQueue::new_unbounded();
    let e = queue.poll(Duration::from_millis(5));
    assert_eq!(None, e);
}

#[test]
fn take_waits_until_the_head_is_ready() {
    let queue = BlockingDelayQueue::new_unbounded();
    let delay = Duration::from_millis(30);
    queue.add(DelayItem::new(7, Instant::now() + delay));
    let res = measure_time_millis(|| queue.take().data);
    assert_eq!(7, res.0);
    assert!(res.1 >= Duration::from_millis(25));
    assert!(res.1 <= Duration::from_millis(200));
}

#[test]
fn poll_does_not_return_an_element_before_it_is_ready() {
    let queue = BlockingDelayQueue::new_unbounded();
    queue.add(DelayItem::new(3, Instant::now() + Duration::from_millis(200)));
    let res = measure_time_millis(|| queue.poll(Duration::from_millis(20)));
    assert_eq!(None, res.0);
    assert!(res.1 >= Duration::from_millis(20));
    assert_eq!(1, queue.size());
}

#[test]
fn poll_returns_an_element_that_becomes_ready_within_the_timeout() {
    let queue = BlockingDelayQueue::new_unbounded();
    queue.add(DelayItem::new(4, Instant::now() + Duration::from_millis(10)));
    let res = queue.poll(Duration::from_millis(500));
    assert_eq!(Some(4), res.map(|e| e.data));
    assert_eq!(0, queue.size());
}

#[test]
fn poll_with_zero_timeout_checks_once() {
    let queue = BlockingDelayQueue::new_unbounded();
    assert_eq!(None, queue.poll(Duration::ZERO));
    queue.add(DelayItem::new(5, Instant::now()));
    assert_eq!(Some(5), queue.poll(Duration::ZERO).map(|e| e.data));
}

#[test]
fn zero_capacity_means_unbounded() {
    let queue = BlockingDelayQueue::new_with_capacity(0);
    for i in 0..100u32 {
        assert!(queue.offer(DelayItem::new(i, Instant::now()), Duration::ZERO));
    }
    assert_eq!(100, queue.size());
}

#[test]
fn bounded_queue_never_exceeds_its_capacity() {
    let queue = BlockingDelayQueue::new_with_capacity(3);
    let mut accepted = 0;
    for i in 0..5u32 {
        if queue.offer(DelayItem::new(i, Instant::now()), Duration::ZERO) {
            accepted += 1;
        }
        assert!(queue.size() <= 3);
    }
    assert_eq!(3, accepted);
    assert_eq!(0, queue.take().data);
    assert!(queue.offer(DelayItem::new(9, Instant::now()), Duration::ZERO));
    assert_eq!(3, queue.size());
}

#[test]
fn equal_ready_times_leave_first_in_first_out() {
    let queue = BlockingDelayQueue::new_unbounded();
    let at = Instant::now();
    for i in 0..10u32 {
        queue.add(DelayItem::new(i, at));
    }
    for i in 0..10u32 {
        assert_eq!(i, queue.take().data);
    }
}

#[test]
fn removals_come_in_ascending_ready_order() {
    let queue = BlockingDelayQueue::new_unbounded();
    let base = Instant::now();
    let offsets = [5u64, 1, 4, 2, 3];
    for (i, o) in offsets.iter().enumerate() {
        queue.add(DelayItem::new(i, base + Duration::from_millis(*o)));
    }
    let order: Vec<usize> = (0..5).map(|_| queue.take().data).collect();
    assert_eq!(vec![1, 3, 4, 2, 0], order);
}

#[test]
fn drain_to_empty_and_clear() {
    let queue = BlockingDelayQueue::new_unbounded();
    for i in 0..6u32 {
        queue.add(DelayItem::new(i, Instant::now()));
    }
    let mut removed: Vec<u32> = (0..6).map(|_| queue.take().data).collect();
    assert_eq!(0, queue.size());
    removed.sort();
    assert_eq!(vec![0, 1, 2, 3, 4, 5], removed);
    for i in 0..4u32 {
        queue.add(DelayItem::new(i, Instant::now()));
    }
    queue.clear();
    assert_eq!(0, queue.size());
    assert_eq!(None, queue.poll(Duration::ZERO));
}

#[test]
fn ready_instants_before_the_queue_keep_their_order() {
    let earlier = Instant::now();
    let a = earlier.checked_sub(Duration::from_millis(10)).unwrap();
    let b = earlier.checked_sub(Duration::from_millis(20)).unwrap();
    let queue = BlockingDelayQueue::new_unbounded();
    queue.add(DelayItem::new('a', a));
    queue.add(DelayItem::new('b', b));
    assert_eq!('b', queue.take().data);
    assert_eq!('a', queue.take().data);
}

#[test]
fn unbounded_offer_always_succeeds() {
    let queue = BlockingDelayQueue::new_unbounded();
    for i in 0..1000u32 {
        assert!(queue.offer(DelayItem::new(i, Instant::now()), Duration::ZERO));
    }
    assert_eq!(1000, queue.size());
}
