use heartbeat::history::{HistoryWindow, HISTORY_CAPACITY};

fn window_of(samples: &[u64]) -> HistoryWindow {
    let mut window = HistoryWindow::new();
    for sample in samples {
        window.push(*sample);
    }
    window
}

#[test]
fn new_window_is_empty() {
    let window = HistoryWindow::new();
    assert_eq!(window.length(), 0);
    assert_eq!(window.samples(), Vec::<u64>::new());
    assert_eq!(window.sum(), 0);
    assert_eq!(window.mean(), None);
}

#[test]
fn push_appends_in_order() {
    let window = window_of(&[3, 1, 2]);
    assert_eq!(window.length(), 3);
    assert_eq!(window.samples(), vec![3, 1, 2]);
}

#[test]
fn push_keeps_a_full_window_at_capacity() {
    let samples: Vec<u64> = (1..=30).collect();
    let mut window = window_of(&samples);
    assert_eq!(window.length(), 30);
    assert_eq!(window.samples(), samples);
    window.push(31);
    assert_eq!(window.length(), 30);
    let expected: Vec<u64> = (2..=31).collect();
    assert_eq!(window.samples(), expected);
}

#[test]
fn length_never_exceeds_capacity() {
    let mut window = HistoryWindow::new();
    for sample in 0..200u64 {
        window.push(sample * 7);
        assert!(window.length() <= HISTORY_CAPACITY);
        assert!(window.length() <= 30);
    }
    assert_eq!(window.length(), 30);
    let expected: Vec<u64> = (170..200u64).map(|sample| sample * 7).collect();
    assert_eq!(window.samples(), expected);
}

#[test]
fn mean_is_the_sum_over_the_length_rounded_down() {
    assert_eq!(window_of(&[10]).mean(), Some(10));
    assert_eq!(window_of(&[1, 2]).mean(), Some(1));
    assert_eq!(window_of(&[1, 2, 3, 4]).mean(), Some(2));
    assert_eq!(window_of(&[7, 8, 9]).mean(), Some(8));
    assert_eq!(window_of(&[0, 0, 0]).mean(), Some(0));
}

#[test]
fn sum_adds_every_sample() {
    assert_eq!(window_of(&[1, 2, 3, 4]).sum(), 10);
    assert_eq!(window_of(&[1000; 10]).sum(), 10_000);
}

#[test]
fn sum_and_mean_of_the_largest_samples_do_not_overflow() {
    let window = window_of(&[u64::MAX; 30]);
    assert_eq!(window.sum(), 30 * (u64::MAX as u128));
    assert_eq!(window.mean(), Some(u64::MAX));
}

#[test]
fn mean_follows_the_window_after_eviction() {
    let mut window = window_of(&[100; 30]);
    assert_eq!(window.mean(), Some(100));
    window.push(400);
    // 29 samples of 100 and one of 400.
    assert_eq!(window.sum(), 3300);
    assert_eq!(window.mean(), Some(110));
}
