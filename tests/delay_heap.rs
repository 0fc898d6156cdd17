use blocking_delay_queue::delay_heap::{DelayHeap, Step};

fn step_name(s: Step) -> String {
    match s {
        Step::Ready => "ready".to_string(),
        Step::WaitFor(n) => format!("wait {}", n),
        Step::WaitForInsert => "insert".to_string(),
        Step::TimedOut => "timeout".to_string(),
    }
}

#[test]
fn push_places_entries_by_ready_time_then_arrival() {
    let mut h = DelayHeap::new(0);
    assert_eq!(0, h.push(50, 'a'));
    assert_eq!(0, h.push(10, 'b'));
    assert_eq!(2, h.push(50, 'c'));
    assert_eq!(1, h.push(30, 'd'));
    assert_eq!(4, h.len());
    assert_eq!(Some('b'), h.pop_ready(100));
    assert_eq!('d', h.pop_first());
    assert_eq!('a', h.pop_first());
    assert_eq!('c', h.pop_first());
    assert!(h.is_empty());
}

#[test]
fn pop_ready_waits_for_the_head() {
    let mut h = DelayHeap::new(0);
    h.push(40, 1u8);
    assert_eq!(None, h.pop_ready(39));
    assert_eq!(1, h.len());
    assert_eq!(Some(1), h.pop_ready(40));
    assert_eq!(None, h.pop_ready(1000));
}

#[test]
fn bound_decides_room() {
    let mut h = DelayHeap::new(2);
    assert!(h.has_room());
    h.push(1, ());
    h.push(2, ());
    assert!(!h.has_room());
    assert!(h.is_full());
    assert_eq!(2, h.capacity());
    h.pop_first();
    assert!(h.has_room());
}

#[test]
fn must_wait_on_empty_or_future_head() {
    let mut h = DelayHeap::new(0);
    assert!(h.must_wait(0));
    h.push(10, 0u8);
    assert!(h.must_wait(9));
    assert!(!h.must_wait(10));
}

#[test]
fn next_step_values() {
    let mut h = DelayHeap::new(0);
    assert_eq!("insert", step_name(h.next_step(5, None)));
    assert_eq!("wait 15", step_name(h.next_step(5, Some(20))));
    assert_eq!("timeout", step_name(h.next_step(20, Some(20))));
    h.push(12, 0u8);
    assert_eq!("wait 7", step_name(h.next_step(5, None)));
    assert_eq!("wait 7", step_name(h.next_step(5, Some(20))));
    assert_eq!("wait 3", step_name(h.next_step(5, Some(8))));
    assert_eq!("timeout", step_name(h.next_step(9, Some(8))));
    assert_eq!("ready", step_name(h.next_step(12, Some(8))));
}

#[test]
fn try_push_hands_back_what_does_not_fit() {
    let mut h = DelayHeap::new(1);
    assert_eq!(Ok(0), h.try_push(9, 'x'));
    assert_eq!(Err('y'), h.try_push(1, 'y'));
    assert_eq!(1, h.len());
    assert_eq!('x', h.pop_first());
    assert_eq!(Ok(0), h.try_push(1, 'y'));
}
