use void_sim::merging::MergePass;

#[test]
fn empty_pass_names_nothing() {
    let mut pass = MergePass::new(vec![]);
    assert_eq!(pass.next_pair(), None);
    assert_eq!(pass.resolve(true, true), None);
    assert!(pass.into_alive().is_empty());
}

#[test]
fn pairs_in_order_without_contacts() {
    let mut pass = MergePass::new(vec![true, true, true]);
    let mut seen = vec![];
    while let Some(p) = pass.next_pair() {
        seen.push(p);
        assert_eq!(pass.resolve(false, true), None);
    }
    assert_eq!(seen, vec![(0, 1), (0, 2), (1, 2)]);
    assert_eq!(pass.into_alive(), vec![true, true, true]);
}

#[test]
fn heavier_first_body_absorbs() {
    let mut pass = MergePass::new(vec![true, true, true]);
    assert_eq!(pass.next_pair(), Some((0, 1)));
    assert_eq!(pass.resolve(true, true), Some((0, 1)));
    assert_eq!(pass.next_pair(), Some((0, 2)));
    assert_eq!(pass.resolve(false, true), None);
    // body 1 is dead when its row comes, so the pass ends
    assert_eq!(pass.next_pair(), None);
    assert_eq!(pass.into_alive(), vec![true, false, true]);
}

#[test]
fn absorbed_row_body_keeps_meeting_later_bodies() {
    let mut pass = MergePass::new(vec![true, true, true]);
    assert_eq!(pass.next_pair(), Some((0, 1)));
    assert_eq!(pass.resolve(true, false), Some((1, 0)));
    // body 0 is dead but its row goes on
    assert_eq!(pass.next_pair(), Some((0, 2)));
    assert_eq!(pass.resolve(false, false), None);
    assert_eq!(pass.next_pair(), Some((1, 2)));
    assert_eq!(pass.resolve(true, true), Some((1, 2)));
    assert_eq!(pass.next_pair(), None);
    assert_eq!(pass.into_alive(), vec![false, true, false]);
}

#[test]
fn dead_bodies_are_skipped() {
    let mut pass = MergePass::new(vec![false, true, false, true]);
    assert_eq!(pass.next_pair(), Some((1, 3)));
    // naming again before resolving names the same pair
    assert_eq!(pass.next_pair(), Some((1, 3)));
    assert_eq!(pass.resolve(false, true), None);
    assert_eq!(pass.next_pair(), None);
}

#[test]
fn resolve_without_a_named_pair_does_nothing() {
    let mut pass = MergePass::new(vec![true, true]);
    assert_eq!(pass.resolve(true, true), None);
    assert_eq!(pass.next_pair(), Some((0, 1)));
    assert_eq!(pass.resolve(true, false), Some((1, 0)));
    assert_eq!(pass.resolve(true, true), None);
    assert_eq!(pass.into_alive(), vec![false, true]);
}
