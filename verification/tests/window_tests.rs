use ericspeed::speedtest::window::SampleWindow;

#[test]
fn new_window_is_empty() {
    let w = SampleWindow::new(3);
    assert_eq!(w.len(), 0);
    assert!(w.is_empty());
    assert_eq!(w.capacity(), 3);
    assert_eq!(w.snapshot(), Vec::<u64>::new());
    assert_eq!(w.last(), None);
}

#[test]
fn window_below_capacity_keeps_everything_in_order() {
    let mut w = SampleWindow::new(5);
    w.push(7);
    w.push(3);
    w.push(9);
    assert_eq!(w.snapshot(), vec![7, 3, 9]);
    assert_eq!(w.len(), 3);
    assert_eq!(w.last(), Some(9));
}

#[test]
fn window_at_capacity_evicts_oldest_first() {
    let mut w = SampleWindow::new(3);
    for v in 1..=3u64 {
        w.push(v);
    }
    assert_eq!(w.snapshot(), vec![1, 2, 3]);
    w.push(4);
    assert_eq!(w.snapshot(), vec![2, 3, 4]);
    w.push(5);
    assert_eq!(w.snapshot(), vec![3, 4, 5]);
    assert_eq!(w.len(), 3);
}

#[test]
fn window_length_is_min_of_pushes_and_capacity() {
    for capacity in 0..6usize {
        let mut w = SampleWindow::new(capacity);
        let mut all: Vec<u64> = Vec::new();
        for n in 0..12usize {
            assert_eq!(w.len(), n.min(capacity));
            let start = all.len() - n.min(capacity);
            assert_eq!(w.snapshot(), all[start..].to_vec());
            let v = (n as u64) * 11 + 1;
            w.push(v);
            all.push(v);
        }
    }
}

#[test]
fn window_of_capacity_zero_stays_empty() {
    let mut w = SampleWindow::new(0);
    w.push(1);
    w.push(2);
    assert!(w.is_empty());
    assert_eq!(w.snapshot(), Vec::<u64>::new());
}

#[test]
fn snapshot_does_not_change_the_window() {
    let mut w = SampleWindow::new(2);
    w.push(1);
    w.push(2);
    let first = w.snapshot();
    let second = w.snapshot();
    assert_eq!(first, second);
    assert_eq!(w.len(), 2);
}

#[test]
fn clear_empties_and_keeps_capacity() {
    let mut w = SampleWindow::new(2);
    w.push(1);
    w.push(2);
    w.clear();
    assert!(w.is_empty());
    assert_eq!(w.capacity(), 2);
    w.push(5);
    w.push(6);
    w.push(7);
    assert_eq!(w.snapshot(), vec![6, 7]);
}

#[test]
fn throughput_window_holds_two_hundred() {
    let mut w = SampleWindow::new(ericspeed::speedtest::THROUGHPUT_WINDOW);
    for v in 0..250u64 {
        w.push(v);
    }
    assert_eq!(w.len(), 200);
    assert_eq!(w.snapshot()[0], 50);
    assert_eq!(w.last(), Some(249));
}
