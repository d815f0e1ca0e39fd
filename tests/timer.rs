use rustracer::timer::Timer;

#[test]
fn count_at_measures_from_the_start() {
    let timer = Timer::new();
    let now = 1u64 << 62;
    let elapsed = timer.count_at(now);
    assert!(elapsed <= now);
    assert_eq!(timer.count_at(0), 0);
}

#[test]
fn count_grows_with_time() {
    let mut timer = Timer::new();
    let first = timer.count();
    let second = timer.count();
    assert!(second >= first);
    timer.start();
    assert!(timer.count() < 60_000_000_000);
}
