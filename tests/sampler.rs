use transmutation::sampler::Sampler;

#[test]
fn timeout_is_time_left_until_tick() {
    let s = Sampler::new(250, 1000);
    assert_eq!(s.tick_interval_ms(), 250);
    assert_eq!(s.poll_timeout(1000), 250);
    assert_eq!(s.poll_timeout(1100), 150);
    assert_eq!(s.poll_timeout(1250), 0);
    assert_eq!(s.poll_timeout(2000), 0);
}

#[test]
fn clock_reading_earlier_counts_as_no_time() {
    let s = Sampler::new(250, 1000);
    assert_eq!(s.poll_timeout(900), 250);
}

#[test]
fn tick_sent_when_due_and_clock_restarts() {
    let mut s = Sampler::new(250, 0);
    assert!(!s.after_wait(100));
    assert!(!s.after_wait(249));
    assert!(s.after_wait(250));
    assert_eq!(s.poll_timeout(250), 250);
    assert!(!s.after_wait(400));
    assert!(s.after_wait(520));
    assert_eq!(s.poll_timeout(600), 170);
}

#[test]
fn wait_without_key_ends_with_a_tick() {
    let mut s = Sampler::new(250, 0);
    let now = 40;
    let timeout = s.poll_timeout(now);
    assert_eq!(now + timeout, 250);
    assert!(s.after_wait(now + timeout));
}
