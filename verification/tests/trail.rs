use std::collections::VecDeque;
use void_sim::trail::{push_trail, TRAIL_MAX};

#[test]
fn trail_grows_until_full() {
    let mut t: VecDeque<(i32, i32)> = VecDeque::new();
    for k in 0..5 {
        push_trail(&mut t, (k, -k));
    }
    assert_eq!(t.iter().copied().collect::<Vec<_>>(), vec![(0, 0), (1, -1), (2, -2), (3, -3), (4, -4)]);
}

#[test]
fn trail_keeps_latest_positions() {
    let mut t: VecDeque<usize> = VecDeque::new();
    for k in 0..250 {
        push_trail(&mut t, k);
        assert!(t.len() <= TRAIL_MAX);
        assert_eq!(*t.back().unwrap(), k);
    }
    assert_eq!(TRAIL_MAX, 200);
    assert_eq!(t.len(), 200);
    assert_eq!(t.iter().copied().collect::<Vec<_>>(), (50..250).collect::<Vec<_>>());
}

#[test]
fn trail_at_exact_limit_drops_one() {
    let mut t: VecDeque<usize> = (0..TRAIL_MAX).collect();
    push_trail(&mut t, 999);
    assert_eq!(t.len(), TRAIL_MAX);
    assert_eq!(t[0], 1);
    assert_eq!(t[TRAIL_MAX - 1], 999);
}

#[test]
fn overlong_trail_sheds_one_per_push() {
    let mut t: VecDeque<usize> = (0..TRAIL_MAX + 5).collect();
    push_trail(&mut t, 7);
    assert_eq!(t.len(), TRAIL_MAX + 5);
    assert_eq!(t[0], 1);
}
