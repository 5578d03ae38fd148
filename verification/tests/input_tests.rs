use mau_cli::input::{key_event, Event, TickClock, Wake, DEFAULT_TICK_RATE};

#[test]
fn default_tick_rate_is_fifty_milliseconds() {
    assert_eq!(DEFAULT_TICK_RATE, 50 * 1_000_000);
}

#[test]
fn new_clock_counts_from_now() {
    let clock = TickClock::new(50, 1_000);
    assert_eq!(clock, TickClock { tick_rate: 50, last_tick: 1_000 });
}

#[test]
fn timeout_is_rest_of_the_interval() {
    let clock = TickClock::new(50, 1_000);
    assert_eq!(clock.timeout(1_000), 50);
    assert_eq!(clock.timeout(1_020), 30);
    assert_eq!(clock.timeout(1_049), 1);
}

#[test]
fn timeout_is_zero_once_the_tick_is_due() {
    let clock = TickClock::new(50, 1_000);
    assert_eq!(clock.timeout(1_050), 0);
    assert_eq!(clock.timeout(9_999), 0);
    assert_eq!(clock.timeout(u64::MAX), 0);
}

#[test]
fn timeout_before_last_tick_is_full_interval() {
    let clock = TickClock::new(50, 1_000);
    assert_eq!(clock.timeout(900), 50);
    assert!(!clock.tick_due(900));
}

#[test]
fn tick_is_due_after_a_full_interval() {
    let clock = TickClock::new(50, 1_000);
    assert!(!clock.tick_due(1_000));
    assert!(!clock.tick_due(1_049));
    assert!(clock.tick_due(1_050));
    assert!(clock.tick_due(1_051));
}

#[test]
fn zero_rate_is_always_due() {
    let clock = TickClock::new(0, 10);
    assert!(clock.tick_due(10));
    assert!(clock.tick_due(5));
    assert_eq!(clock.timeout(10), 0);
}

#[test]
fn tick_sent_restarts_the_interval_at_now() {
    let mut clock = TickClock::new(50, 1_000);
    clock.tick_sent(1_130);
    assert_eq!(clock, TickClock { tick_rate: 50, last_tick: 1_130 });
    assert!(!clock.tick_due(1_179));
    assert!(clock.tick_due(1_180));
    assert_eq!(clock.timeout(1_140), 40);
}

#[test]
fn missed_intervals_give_one_tick() {
    let mut clock = TickClock::new(50, 0);
    assert!(clock.tick_due(1_000));
    clock.tick_sent(1_000);
    assert!(!clock.tick_due(1_000));
    assert!(!clock.tick_due(1_049));
}

#[test]
fn key_press_is_passed_on() {
    assert_eq!(key_event(Wake::Key('x')), Some(Event::Input('x')));
    assert_eq!(key_event(Wake::Key(42u8)), Some(Event::Input(42u8)));
}

#[test]
fn other_wakes_send_nothing() {
    assert_eq!(key_event(Wake::<char>::Other), None);
    assert_eq!(key_event(Wake::<char>::TimedOut), None);
}

#[test]
fn key_press_does_not_move_the_deadline() {
    let clock = TickClock::new(50, 1_000);
    let before = clock.timeout(1_010);
    let sent = key_event(Wake::Key('a'));
    assert_eq!(sent, Some(Event::Input('a')));
    assert_eq!(clock.timeout(1_010), before);
    assert_eq!(clock.timeout(1_030), 20);
}
