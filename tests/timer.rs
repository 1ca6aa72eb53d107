use jsonrpc_rs::timer::TimerExecutor;
use jsonrpc_rs::timerwheel::TimeWheel;

#[test]
fn test_timeout() {
    let mut executor = TimerExecutor::new();
    let timeout = executor.timeout(5);
    assert!(!executor.poll(timeout.id()));
    let mut ticks = 0;
    loop {
        let woken = executor.tick();
        if woken.contains(&timeout.id()) {
            break;
        }
        ticks += 1;
        assert!(ticks < 10);
    }
    assert_eq!(ticks, 5);
    assert!(executor.poll(timeout.id()));
    assert!(!executor.poll(timeout.id()));
}

#[test]
fn zero_timeout_fires_on_next_tick() {
    let mut wheel: TimeWheel<u32> = TimeWheel::new(4);
    wheel.add(0, 7);
    assert_eq!(wheel.tick(), Some(vec![7]));
    assert_eq!(wheel.tick(), None);
}

#[test]
fn wheel_rounds_wrap() {
    let mut wheel: TimeWheel<u32> = TimeWheel::new(2);
    wheel.add(3, 1);
    wheel.add(1, 2);
    assert_eq!(wheel.tick(), None);
    assert_eq!(wheel.tick(), Some(vec![2]));
    assert_eq!(wheel.tick(), None);
    assert_eq!(wheel.tick(), Some(vec![1]));
}

#[test]
fn timer_ids_increase() {
    let mut executor = TimerExecutor::new();
    assert_eq!(executor.create_timer(1), 1);
    assert_eq!(executor.create_timer(1), 2);
    assert!(executor.tick().is_empty());
    assert!(!executor.poll(1));
    assert_eq!(executor.tick(), vec![1]);
    assert!(executor.poll(2));
}
