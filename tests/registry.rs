use jsonrpc_rs::callback::{CallbackPool, Completion};

#[test]
fn join_hands_out_increasing_ids() {
    let mut pool: CallbackPool<u32> = CallbackPool::new();
    assert_eq!(pool.next_id(), 1);
    let a = pool.join();
    let b = pool.join();
    assert_eq!((a.id, b.id), (1, 2));
    assert_eq!(pool.next_id(), 3);
}

#[test]
fn complete_delivers_at_most_once() {
    let mut pool: CallbackPool<u32> = CallbackPool::new();
    let a = pool.join();
    assert!(matches!(pool.poll(a.id), Completion::Pending));
    assert!(pool.complete(a.id, 10));
    assert!(!pool.complete(a.id, 20));
    assert!(matches!(pool.poll(a.id), Completion::Ready(10)));
    assert!(!pool.complete(a.id, 30));
    assert!(matches!(pool.poll(a.id), Completion::Unknown));
    assert!(!pool.complete(99, 1));
}

#[test]
fn cancel_all_is_idempotent() {
    let mut pool: CallbackPool<u32> = CallbackPool::new();
    let a = pool.join();
    let b = pool.join();
    let c = pool.join();
    assert!(pool.complete(b.id, 5));
    pool.cancel_all();
    pool.cancel_all();
    assert!(!pool.complete(a.id, 1));
    assert!(matches!(pool.poll(a.id), Completion::Cancelled));
    assert!(matches!(pool.poll(b.id), Completion::Ready(5)));
    assert!(matches!(pool.poll(c.id), Completion::Cancelled));
    assert!(matches!(pool.poll(c.id), Completion::Unknown));
}

#[test]
fn timers_route_to_their_call() {
    let mut pool: CallbackPool<u32> = CallbackPool::new();
    let a = pool.join_with_timer(40);
    let b = pool.join();
    assert!(pool.fire_timer(40));
    assert!(!pool.fire_timer(40));
    assert!(!pool.complete(a.id, 1));
    assert!(matches!(pool.poll(a.id), Completion::TimedOut));
    assert!(matches!(pool.poll(b.id), Completion::Pending));
    assert!(pool.time_out(b.id));
    assert!(matches!(pool.poll(b.id), Completion::TimedOut));
}

#[test]
fn abandoned_call_drops_later_completion() {
    let mut pool: CallbackPool<u32> = CallbackPool::new();
    let a = pool.join();
    pool.abandon(a.id);
    assert!(!pool.complete(a.id, 1));
    assert!(matches!(pool.poll(a.id), Completion::Unknown));
}
