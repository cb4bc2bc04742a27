use void_sim::collisions::{collision_regime, plan_collisions, Regime, MAX_BODIES};

fn matrix(n: usize, edges: &[(usize, usize)]) -> Vec<Vec<bool>> {
    let mut t = vec![vec![false; n]; n];
    for &(i, j) in edges {
        t[i][j] = true;
        t[j][i] = true;
    }
    t
}

#[test]
fn lone_bodies_do_not_collide() {
    let mut alive = vec![true, true, true];
    let pairs = plan_collisions(&mut alive, &matrix(3, &[]));
    assert!(pairs.is_empty());
    assert_eq!(alive, vec![true, true, true]);
}

#[test]
fn touching_pair_collides() {
    let mut alive = vec![true, true, true];
    let pairs = plan_collisions(&mut alive, &matrix(3, &[(0, 2)]));
    assert_eq!(pairs, vec![(0, 2)]);
    assert_eq!(alive, vec![false, true, false]);
}

#[test]
fn first_body_meets_every_later_touching_body() {
    let mut alive = vec![true, true, true];
    let pairs = plan_collisions(&mut alive, &matrix(3, &[(0, 1), (0, 2), (1, 2)]));
    assert_eq!(pairs, vec![(0, 1), (0, 2)]);
    assert_eq!(alive, vec![false, false, false]);
}

#[test]
fn chain_leaves_the_far_end() {
    let mut alive = vec![true, true, true];
    let pairs = plan_collisions(&mut alive, &matrix(3, &[(0, 1), (1, 2)]));
    assert_eq!(pairs, vec![(0, 1)]);
    assert_eq!(alive, vec![false, false, true]);
}

#[test]
fn dead_bodies_take_no_part() {
    let mut alive = vec![false, true, true, true];
    let pairs = plan_collisions(&mut alive, &matrix(4, &[(0, 1), (0, 3), (2, 3)]));
    assert_eq!(pairs, vec![(2, 3)]);
    assert_eq!(alive, vec![false, true, false, false]);
}

#[test]
fn missing_matrix_entries_do_not_touch() {
    let mut alive = vec![true, true, true];
    let t = vec![vec![false, true], vec![false]];
    let pairs = plan_collisions(&mut alive, &t);
    assert_eq!(pairs, vec![(0, 1)]);
    assert_eq!(alive, vec![false, false, true]);
}

#[test]
fn survivors_never_touch_and_a_second_pass_finds_nothing() {
    let t = matrix(6, &[(0, 3), (1, 2), (2, 4), (3, 5), (4, 5)]);
    let mut alive = vec![true; 6];
    let pairs = plan_collisions(&mut alive, &t);
    assert_eq!(pairs, vec![(0, 3), (1, 2), (4, 5)]);
    for k in 0..6 {
        for l in (k + 1)..6 {
            assert!(!(alive[k] && alive[l] && t[k][l]));
        }
    }
    let after = alive.clone();
    let again = plan_collisions(&mut alive, &t);
    assert!(again.is_empty());
    assert_eq!(alive, after);
}

#[test]
fn empty_world_has_no_collisions() {
    let mut alive: Vec<bool> = vec![];
    assert!(plan_collisions(&mut alive, &vec![]).is_empty());
}

#[test]
fn crowded_or_soft_collisions_merge() {
    assert_eq!(collision_regime(MAX_BODIES + 1, false, false, true, true), Regime::Merge);
    assert_eq!(collision_regime(10, true, false, false, false), Regime::Merge);
    assert_eq!(collision_regime(10, false, true, false, false), Regime::Merge);
}

#[test]
fn stars_absorb_or_bodies_fragment() {
    assert_eq!(collision_regime(MAX_BODIES, false, false, true, true), Regime::StarAbsorb);
    assert_eq!(collision_regime(10, false, false, true, false), Regime::Fragment);
    assert_eq!(collision_regime(10, false, false, false, true), Regime::Fragment);
}
