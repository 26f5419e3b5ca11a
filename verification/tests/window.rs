use apm_counter::WindowCounter;

#[test]
fn a_new_window_is_empty() {
    let w = WindowCounter::new();
    assert_eq!((w.count(), w.elapsed(), w.rate()), (0, 0, 0));
}

#[test]
fn record_counts_one_action() {
    let mut w = WindowCounter::new();
    w.record();
    w.record();
    w.record();
    assert_eq!((w.count(), w.elapsed(), w.rate()), (3, 0, 0));
}

#[test]
fn advance_projects_inside_the_window() {
    let mut w = WindowCounter::new();
    w.record();
    w.advance(600, 100);
    assert_eq!((w.count(), w.elapsed(), w.rate()), (1, 1, 600));
    w.record();
    w.record();
    w.advance(600, 100);
    assert_eq!((w.count(), w.elapsed(), w.rate()), (3, 2, 900));
}

#[test]
fn advance_closes_the_window_at_its_bound() {
    let mut w = WindowCounter::new();
    for _ in 0..3 {
        w.advance(3, 100);
    }
    w.record();
    w.record();
    assert_eq!((w.count(), w.elapsed()), (2, 3));
    w.advance(3, 100);
    assert_eq!((w.count(), w.elapsed(), w.rate()), (0, 0, 2));
    w.advance(3, 100);
    assert_eq!((w.count(), w.elapsed(), w.rate()), (0, 1, 0));
}

#[test]
fn a_window_of_no_ticks_closes_at_every_tick() {
    let mut w = WindowCounter::new();
    w.record();
    w.advance(0, 100);
    assert_eq!((w.count(), w.elapsed(), w.rate()), (0, 0, 1));
    w.advance(0, 100);
    assert_eq!((w.count(), w.elapsed(), w.rate()), (0, 0, 0));
}

#[test]
fn advance_with_a_period_of_zero_projects_zero() {
    let mut w = WindowCounter::new();
    w.record();
    w.advance(10, 0);
    assert_eq!((w.count(), w.elapsed(), w.rate()), (1, 1, 0));
}
