use mirror_manager::backend::manager::queue::JobQueue;
use mirror_manager::timestamp::Timestamp;

fn at(secs: i64) -> Timestamp {
    Timestamp { secs, nanos: 0 }
}

#[test]
fn empty_queue_has_nothing() {
    let mut q = JobQueue::new();
    assert!(q.is_empty());
    assert_eq!(q.len(), 0);
    assert_eq!(q.peek_time(), None);
    assert_eq!(q.dequeue(), None);
    let d = JobQueue::default();
    assert!(d.is_empty());
}

#[test]
fn dequeues_in_time_order() {
    let mut q = JobQueue::new();
    q.schedule("c".to_string(), at(30));
    q.schedule("a".to_string(), at(10));
    q.schedule("b".to_string(), at(20));
    assert_eq!(q.len(), 3);
    assert_eq!(q.peek_time(), Some(at(10)));
    assert_eq!(q.dequeue(), Some(("a".to_string(), at(10))));
    assert_eq!(q.dequeue(), Some(("b".to_string(), at(20))));
    assert_eq!(q.dequeue(), Some(("c".to_string(), at(30))));
    assert_eq!(q.dequeue(), None);
}

#[test]
fn same_time_is_ordered_by_mirror() {
    let mut q = JobQueue::new();
    q.schedule("zeta".to_string(), at(5));
    q.schedule("alpha".to_string(), at(5));
    q.schedule("alp".to_string(), at(5));
    assert_eq!(q.dequeue(), Some(("alp".to_string(), at(5))));
    assert_eq!(q.dequeue(), Some(("alpha".to_string(), at(5))));
    assert_eq!(q.dequeue(), Some(("zeta".to_string(), at(5))));
}

#[test]
fn nanoseconds_order_within_a_second() {
    let mut q = JobQueue::new();
    q.schedule("late".to_string(), Timestamp { secs: 7, nanos: 500 });
    q.schedule("early".to_string(), Timestamp { secs: 7, nanos: 100 });
    assert_eq!(q.peek_time(), Some(Timestamp { secs: 7, nanos: 100 }));
    assert_eq!(q.dequeue().unwrap().0, "early");
}

#[test]
fn rescheduling_replaces_the_old_time() {
    let mut q = JobQueue::new();
    q.schedule("a".to_string(), at(10));
    q.schedule("b".to_string(), at(20));
    q.schedule("a".to_string(), at(30));
    assert_eq!(q.len(), 2);
    assert_eq!(q.peek_time(), Some(at(20)));
    assert_eq!(q.dequeue(), Some(("b".to_string(), at(20))));
    assert_eq!(q.dequeue(), Some(("a".to_string(), at(30))));
    assert!(q.is_empty());
}

#[test]
fn remove_takes_out_one_mirror_and_ignores_unknown() {
    let mut q = JobQueue::new();
    q.schedule("a".to_string(), at(1));
    q.schedule("b".to_string(), at(2));
    q.remove("missing");
    assert_eq!(q.len(), 2);
    q.remove("a");
    assert!(!q.contains("a"));
    assert!(q.contains("b"));
    assert_eq!(q.len(), 1);
    assert_eq!(q.peek_time(), Some(at(2)));
}

#[test]
fn peek_agrees_with_dequeue() {
    let mut q = JobQueue::new();
    for (i, id) in ["m1", "m2", "m3", "m4"].iter().enumerate() {
        q.schedule(id.to_string(), at(100 - i as i64));
    }
    while let Some(t) = q.peek_time() {
        let (_, dt) = q.dequeue().unwrap();
        assert_eq!(t, dt);
    }
    assert!(q.is_empty());
}

#[test]
fn negative_times_come_first() {
    let mut q = JobQueue::new();
    q.schedule("now".to_string(), at(0));
    q.schedule("past".to_string(), at(-5));
    assert_eq!(q.dequeue().unwrap().0, "past");
}

#[test]
fn unicode_mirror_ids_order_by_code_point() {
    let mut q = JobQueue::new();
    q.schedule("é".to_string(), at(1));
    q.schedule("z".to_string(), at(1));
    assert_eq!(q.dequeue().unwrap().0, "z");
}
