use vstd::prelude::*;

verus! {


/// Above this many bodies every collision is a plain merge.
pub const MAX_BODIES: usize = 500;

/// How a collision of two bodies resolves.
#[derive(Clone, Copy, Debug, PartialEq, Eq, Structural)]
pub enum Regime {
    /// The two bodies become one.
    Merge,
    /// A star keeps most of the mass and sprays a little debris.
    StarAbsorb,
    /// The bodies break up into a largest fragment, chunks and debris.
    Fragment,
}

/// How a collision resolves.
pub open spec fn spec_regime(
    body_count: usize,
    light: bool,
    gentle: bool,
    star_involved: bool,
    star_holds: bool,
) -> Regime {
    if body_count > MAX_BODIES || light || gentle {
        Regime::Merge
    } else if star_involved && star_holds {
        Regime::StarAbsorb
    } else {
        Regime::Fragment
    }
}

/// Chooses how a collision resolves. `body_count` is how many bodies the
/// simulation holds with the fragments made so far in this step; `light`
/// says the two masses together are small, `gentle` that the impact
/// energy is small against the binding energy, `star_involved` that one of
/// the two is a star, and `star_holds` that the impact is soft enough or
/// one body small enough for a star to swallow it.
pub fn collision_regime(
    body_count: usize,
    light: bool,
    gentle: bool,
    star_involved: bool,
    star_holds: bool,
) -> (r: Regime)
    ensures
        r == (if body_count > MAX_BODIES || light || gentle {
            Regime::Merge
        } else if star_involved && star_holds {
            Regime::StarAbsorb
        } else {
            Regime::Fragment
        }),
        r == spec_regime(body_count, light, gentle, star_involved, star_holds),
{
    if body_count > MAX_BODIES || light || gentle {
        Regime::Merge
    } else if star_involved && star_holds {
        Regime::StarAbsorb
    } else {
        Regime::Fragment
    }
}

/// The touch matrix as mathematical rows.
pub open spec fn matrix_view(touching: &Vec<Vec<bool>>) -> Seq<Seq<bool>> {
    touching@.map_values(|row: Vec<bool>| row@)
}

/// Whether bodies `i` and `j` touch: an entry missing from the matrix
/// counts as not touching.
pub open spec fn touches(t: Seq<Seq<bool>>, i: int, j: int) -> bool {
    0 <= i < t.len() && 0 <= j < t[i].len() && t[i][j]
}

/// Pairs of indices as mathematical integers.
pub open spec fn pair_view(pairs: Seq<(usize, usize)>) -> Seq<(int, int)> {
    pairs.map_values(|p: (usize, usize)| (p.0 as int, p.1 as int))
}

/// Body `i` meets the bodies after it, from `j` to `n`: each one still
/// alive that touches `i` collides with it, and both are marked dead.
/// Body `i` keeps meeting later bodies after its first collision.
pub open spec fn row_scan(a: Seq<bool>, t: Seq<Seq<bool>>, n: int, i: int, j: int) -> (Seq<
    bool,
>, Seq<(int, int)>)
    decreases n - j,
{
    if j >= n {
        (a, Seq::empty())
    } else if a[j] && touches(t, i, j) {
        let rest = row_scan(a.update(i, false).update(j, false), t, n, i, j + 1);
        (rest.0, seq![(i, j)] + rest.1)
    } else {
        row_scan(a, t, n, i, j + 1)
    }
}

/// The bodies from `i` to `n` that are alive when their turn comes meet
/// the bodies after them, in order of index.
pub open spec fn scan_from(a: Seq<bool>, t: Seq<Seq<bool>>, n: int, i: int) -> (Seq<bool>, Seq<
    (int, int),
>)
    decreases n - i,
{
    if i >= n {
        (a, Seq::empty())
    } else if a[i] {
        let row = row_scan(a, t, n, i, i + 1);
        let rest = scan_from(row.0, t, n, i + 1);
        (rest.0, row.1 + rest.1)
    } else {
        scan_from(a, t, n, i + 1)
    }
}

/// The collision pass over all bodies: the alive flags after it, and the
/// colliding pairs in the order in which they collide.
pub open spec fn planned(alive: Seq<bool>, t: Seq<Seq<bool>>) -> (Seq<bool>, Seq<(int, int)>) {
    scan_from(alive, t, alive.len() as int, 0)
}

/// Whether body `k` takes part in one of the pairs.
pub open spec fn mentions(pairs: Seq<(int, int)>, k: int) -> bool {
    exists|m: int| 0 <= m < pairs.len() && (#[trigger] pairs[m].0 == k || pairs[m].1 == k)
}

/// Whether some body from `j` to `n`, alive in `a`, touches body `i`.
pub open spec fn meets_some(a: Seq<bool>, t: Seq<Seq<bool>>, n: int, i: int, j: int) -> bool {
    exists|k: int| j <= k < n && a[k] && #[trigger] touches(t, i, k)
}

/// Finds the collisions of one physics step. `alive[k]` says whether body
/// `k` is still in the simulation, `touching[i][j]` whether bodies `i` and
/// `j` overlap. Bodies are taken in order of index; a body alive at its
/// turn collides with every later body that is still alive and touches
/// it, and each collision marks both bodies dead. Returns the colliding
/// pairs `(i, j)`, `i < j`, in the order in which they collide.
pub fn plan_collisions(alive: &mut Vec<bool>, touching: &Vec<Vec<bool>>) -> (pairs: Vec<
    (usize, usize),
>)
    ensures
        final(alive)@ == planned(old(alive)@, matrix_view(touching)).0,
        pair_view(pairs@) == planned(old(alive)@, matrix_view(touching)).1,
        forall|m: int|
            0 <= m < pairs@.len() ==> {
                let p = #[trigger] pairs@[m];
                &&& p.0 < p.1 < old(alive)@.len()
                &&& old(alive)@[p.0 as int]
                &&& old(alive)@[p.1 as int]
                &&& touches(matrix_view(touching), p.0 as int, p.1 as int)
            },
        forall|k: int|
            0 <= k < old(alive)@.len() ==> #[trigger] final(alive)@[k] == (old(alive)@[k]
                && !mentions(pair_view(pairs@), k)),
        forall|k: int, l: int|
            0 <= k < l < old(alive)@.len() && #[trigger] final(alive)@[k]
                && #[trigger] final(alive)@[l] ==> !touches(matrix_view(touching), k, l),
{
    let ghost a0 = alive@;
    let n = alive.len();
    let ghost t = matrix_view(touching);
    let ghost goal = planned(alive@, t);
    let mut pairs: Vec<(usize, usize)> = Vec::new();
    let mut i: usize = 0;
    while i < n
        invariant
            alive@.len() == n,
            t == matrix_view(touching),
            0 <= i <= n,
            scan_from(alive@, t, n as int, i as int).0 == goal.0,
            pair_view(pairs@) + scan_from(alive@, t, n as int, i as int).1 == goal.1,
        decreases n - i,
    {
        if alive[i] {
            let ghost a_i = alive@;
            let ghost pairs_i = pair_view(pairs@);
            let ghost row = row_scan(a_i, t, n as int, i as int, i + 1);
            let mut j: usize = i + 1;
            while j < n
                invariant
                    alive@.len() == n,
                    t == matrix_view(touching),
                    i < n,
                    i + 1 <= j <= n,
                    row_scan(alive@, t, n as int, i as int, j as int).0 == row.0,
                    pair_view(pairs@) + row_scan(alive@, t, n as int, i as int, j as int).1
                        == pairs_i + row.1,
                decreases n - j,
            {
                let hit = i < touching.len() && j < touching[i].len() && touching[i][j];
                assert(hit == touches(t, i as int, j as int));
                if alive[j] && hit {
                    let ghost before = alive@;
                    let ghost pv = pair_view(pairs@);
                    let ghost rest = row_scan(
                        before.update(i as int, false).update(j as int, false),
                        t,
                        n as int,
                        i as int,
                        j + 1,
                    );
                    alive.set(i, false);
                    alive.set(j, false);
                    pairs.push((i, j));
                    assert(alive@ == before.update(i as int, false).update(j as int, false));
                    assert(pair_view(pairs@) == pv.push((i as int, j as int)));
                    assert(pv + (seq![(i as int, j as int)] + rest.1) =~= pv.push(
                        (i as int, j as int),
                    ) + rest.1);
                }
                j += 1;
            }
            proof {
                let s = scan_from(row.0, t, n as int, i + 1);
                assert(pairs_i + (row.1 + s.1) =~= (pairs_i + row.1) + s.1);
            }
        }
        i += 1;
    }
    proof {
        law_collisions_join_touching_bodies(a0, t);
        law_survivors(a0, t);
        law_survivors_do_not_touch(a0, t);
        assert forall|m: int| 0 <= m < pairs@.len() implies {
            let p = #[trigger] pairs@[m];
            &&& p.0 < p.1 < a0.len()
            &&& a0[p.0 as int]
            &&& a0[p.1 as int]
            &&& touches(t, p.0 as int, p.1 as int)
        } by {
            assert(pair_view(pairs@)[m] == goal.1[m]);
        }
    }
    pairs
}


/// What one body's meeting with the bodies after it does.
proof fn lemma_row_scan(a: Seq<bool>, t: Seq<Seq<bool>>, n: int, i: int, j: int)
    requires
        a.len() == n,
        0 <= i < j <= n,
    ensures
        ({
            let r = row_scan(a, t, n, i, j);
            &&& r.0.len() == n
            &&& forall|k: int| 0 <= k < j && k != i ==> #[trigger] r.0[k] == a[k]
            &&& forall|k: int| j <= k < n ==> #[trigger] r.0[k] == (a[k] && !touches(t, i, k))
            &&& r.0[i] == (a[i] && !meets_some(a, t, n, i, j))
            &&& forall|m: int|
                0 <= m < r.1.len() ==> {
                    let p = #[trigger] r.1[m];
                    &&& p.0 == i
                    &&& j <= p.1 < n
                    &&& a[p.1]
                    &&& touches(t, i, p.1)
                }
            &&& forall|k: int|
                j <= k < n && a[k] && #[trigger] touches(t, i, k) ==> exists|m: int|
                    0 <= m < r.1.len() && (#[trigger] r.1[m]).1 == k
            &&& forall|m1: int, m2: int|
                0 <= m1 < m2 < r.1.len() ==> (#[trigger] r.1[m1]).1 < (#[trigger] r.1[m2]).1
        }),
    decreases n - j,
{
    if j >= n {
    } else if a[j] && touches(t, i, j) {
        let a2 = a.update(i, false).update(j, false);
        lemma_row_scan(a2, t, n, i, j + 1);
        let rest = row_scan(a2, t, n, i, j + 1);
        let r = row_scan(a, t, n, i, j);
        assert(r.1 == seq![(i, j)] + rest.1);
        assert(meets_some(a, t, n, i, j)) by {
            assert(touches(t, i, j));
        }
        assert forall|m: int| 0 <= m < r.1.len() implies {
            let p = #[trigger] r.1[m];
            &&& p.0 == i
            &&& j <= p.1 < n
            &&& a[p.1]
            &&& touches(t, i, p.1)
        } by {
            if m > 0 {
                assert(r.1[m] == rest.1[m - 1]);
            }
        }
        assert forall|k: int| j <= k < n && a[k] && #[trigger] touches(t, i, k) implies exists|
            m: int,
        | 0 <= m < r.1.len() && (#[trigger] r.1[m]).1 == k by {
            if k == j {
                assert(r.1[0].1 == k);
            } else {
                assert(a2[k]);
                let m2 = choose|m2: int| 0 <= m2 < rest.1.len() && (#[trigger] rest.1[m2]).1 == k;
                assert(r.1[m2 + 1] == rest.1[m2]);
            }
        }
        assert forall|m1: int, m2: int| 0 <= m1 < m2 < r.1.len() implies (#[trigger] r.1[m1]).1 < (
        #[trigger] r.1[m2]).1 by {
            assert(r.1[m2] == rest.1[m2 - 1]);
            if m1 > 0 {
                assert(r.1[m1] == rest.1[m1 - 1]);
            }
        }
    } else {
        lemma_row_scan(a, t, n, i, j + 1);
        let r = row_scan(a, t, n, i, j);
        assert(meets_some(a, t, n, i, j) == meets_some(a, t, n, i, j + 1)) by {
            if meets_some(a, t, n, i, j) {
                let k = choose|k: int| j <= k < n && a[k] && #[trigger] touches(t, i, k);
                assert(k != j);
                assert(j + 1 <= k < n && a[k] && touches(t, i, k));
            }
            if meets_some(a, t, n, i, j + 1) {
                let k = choose|k: int| j + 1 <= k < n && a[k] && #[trigger] touches(t, i, k);
                assert(j <= k < n && a[k] && touches(t, i, k));
            }
        }
    }
}


/// What the collision pass from body `i` on does, relative to the alive
/// flags `a` at its start.
proof fn lemma_scan_from(a: Seq<bool>, t: Seq<Seq<bool>>, n: int, i: int)
    requires
        a.len() == n,
        0 <= i <= n,
    ensures
        ({
            let s = scan_from(a, t, n, i);
            &&& s.0.len() == n
            &&& forall|k: int| 0 <= k < i ==> #[trigger] s.0[k] == a[k]
            &&& forall|m: int|
                0 <= m < s.1.len() ==> {
                    let p = #[trigger] s.1[m];
                    &&& i <= p.0 < p.1 < n
                    &&& a[p.0]
                    &&& a[p.1]
                    &&& touches(t, p.0, p.1)
                }
            &&& forall|k: int| i <= k < n ==> #[trigger] s.0[k] == (a[k] && !mentions(s.1, k))
            &&& forall|k: int, l: int|
                i <= k < l < n && #[trigger] s.0[k] && #[trigger] s.0[l] ==> !touches(t, k, l)
            &&& forall|m1: int, m2: int|
                0 <= m1 < s.1.len() && 0 <= m2 < s.1.len() && m1 != m2 ==> (#[trigger] s.1[m1]).1
                    != (#[trigger] s.1[m2]).1
            &&& forall|m1: int, m2: int|
                0 <= m1 < s.1.len() && 0 <= m2 < s.1.len() ==> (#[trigger] s.1[m1]).0
                    != (#[trigger] s.1[m2]).1
        }),
    decreases n - i,
{
    if i >= n {
    } else if a[i] {
        lemma_row_scan(a, t, n, i, i + 1);
        let row = row_scan(a, t, n, i, i + 1);
        let b = row.0;
        let ps = row.1;
        lemma_scan_from(b, t, n, i + 1);
        let rest = scan_from(b, t, n, i + 1);
        let q = rest.1;
        let s = scan_from(a, t, n, i);
        assert(s.0 == rest.0);
        assert(s.1 == ps + q);
        let pl = ps.len() as int;
        // every pair, from either part
        assert forall|m: int| 0 <= m < s.1.len() implies {
            let p = #[trigger] s.1[m];
            &&& i <= p.0 < p.1 < n
            &&& a[p.0]
            &&& a[p.1]
            &&& touches(t, p.0, p.1)
        } by {
            if m < pl {
                assert(s.1[m] == ps[m]);
            } else {
                assert(s.1[m] == q[m - pl]);
                let p = q[m - pl];
                assert(b[p.0] && b[p.1]);
            }
        }
        // survivors
        assert forall|k: int| i <= k < n implies #[trigger] s.0[k] == (a[k] && !mentions(
            s.1,
            k,
        )) by {
            if k == i {
                assert(s.0[k] == b[k]);
                if mentions(s.1, k) {
                    let m = choose|m: int|
                        0 <= m < s.1.len() && (#[trigger] s.1[m].0 == k || s.1[m].1 == k);
                    if m < pl {
                        assert(s.1[m] == ps[m]);
                        assert(touches(t, i, ps[m].1));
                        assert(meets_some(a, t, n, i, i + 1));
                    } else {
                        assert(s.1[m] == q[m - pl]);
                        assert(false);
                    }
                }
                if meets_some(a, t, n, i, i + 1) {
                    let k2 = choose|k2: int| i + 1 <= k2 < n && a[k2] && #[trigger] touches(t, i, k2);
                    let m = choose|m: int| 0 <= m < ps.len() && (#[trigger] ps[m]).1 == k2;
                    assert(s.1[m] == ps[m]);
                    assert(mentions(s.1, k));
                }
            } else {
                assert(rest.0[k] == (b[k] && !mentions(q, k)));
                assert(b[k] == (a[k] && !touches(t, i, k)));
                if mentions(s.1, k) {
                    let m = choose|m: int|
                        0 <= m < s.1.len() && (#[trigger] s.1[m].0 == k || s.1[m].1 == k);
                    if m < pl {
                        assert(s.1[m] == ps[m]);
                    } else {
                        assert(s.1[m] == q[m - pl]);
                        assert(mentions(q, k));
                    }
                }
                if a[k] && touches(t, i, k) {
                    let m = choose|m: int| 0 <= m < ps.len() && (#[trigger] ps[m]).1 == k;
                    assert(s.1[m] == ps[m]);
                    assert(mentions(s.1, k));
                }
                if mentions(q, k) {
                    let m = choose|m: int| 0 <= m < q.len() && (#[trigger] q[m].0 == k || q[m].1 == k);
                    assert(s.1[m + pl] == q[m]);
                    assert(mentions(s.1, k));
                }
            }
        }
        // no two survivors touch
        assert forall|k: int, l: int|
            i <= k < l < n && #[trigger] s.0[k] && #[trigger] s.0[l] implies !touches(t, k, l) by {
            if k == i {
                assert(s.0[k] == b[k]);
                assert(b[l] == (a[l] && !touches(t, i, l)));
                assert(!meets_some(a, t, n, i, i + 1));
                if touches(t, k, l) {
                    assert(a[l]);
                    assert(meets_some(a, t, n, i, i + 1));
                }
            }
        }
        // each body absorbed at most once, and never after absorbing others
        assert forall|m1: int, m2: int|
            0 <= m1 < s.1.len() && 0 <= m2 < s.1.len() && m1 != m2 implies (
        #[trigger] s.1[m1]).1 != (#[trigger] s.1[m2]).1 by {
            if m1 < pl && m2 < pl {
                assert(s.1[m1] == ps[m1] && s.1[m2] == ps[m2]);
                if m1 < m2 {
                    assert(ps[m1].1 < ps[m2].1);
                } else {
                    assert(ps[m2].1 < ps[m1].1);
                }
            } else if m1 >= pl && m2 >= pl {
                assert(s.1[m1] == q[m1 - pl] && s.1[m2] == q[m2 - pl]);
            } else if m1 < pl {
                assert(s.1[m1] == ps[m1] && s.1[m2] == q[m2 - pl]);
                assert(!b[ps[m1].1]);
                assert(b[q[m2 - pl].1]);
            } else {
                assert(s.1[m2] == ps[m2] && s.1[m1] == q[m1 - pl]);
                assert(!b[ps[m2].1]);
                assert(b[q[m1 - pl].1]);
            }
        }
        assert forall|m1: int, m2: int| 0 <= m1 < s.1.len() && 0 <= m2 < s.1.len() implies (
        #[trigger] s.1[m1]).0 != (#[trigger] s.1[m2]).1 by {
            if m1 < pl {
                assert(s.1[m1] == ps[m1]);
                if m2 < pl {
                    assert(s.1[m2] == ps[m2]);
                } else {
                    assert(s.1[m2] == q[m2 - pl]);
                }
            } else {
                assert(s.1[m1] == q[m1 - pl]);
                if m2 < pl {
                    assert(s.1[m2] == ps[m2]);
                    assert(!b[ps[m2].1]);
                    assert(b[q[m1 - pl].0]);
                } else {
                    assert(s.1[m2] == q[m2 - pl]);
                }
            }
        }
    } else {
        lemma_scan_from(a, t, n, i + 1);
        let s = scan_from(a, t, n, i);
        assert(s == scan_from(a, t, n, i + 1));
    }
}


/// Every collision joins two bodies that were alive before the pass and
/// touch each other, the lower index first.
pub proof fn law_collisions_join_touching_bodies(alive: Seq<bool>, t: Seq<Seq<bool>>)
    ensures
        forall|m: int|
            0 <= m < planned(alive, t).1.len() ==> {
                let p = #[trigger] planned(alive, t).1[m];
                &&& 0 <= p.0 < p.1 < alive.len()
                &&& alive[p.0]
                &&& alive[p.1]
                &&& touches(t, p.0, p.1)
            },
{
    lemma_scan_from(alive, t, alive.len() as int, 0);
}

/// A body is alive after the pass exactly when it was alive before and
/// took part in no collision.
pub proof fn law_survivors(alive: Seq<bool>, t: Seq<Seq<bool>>)
    ensures
        planned(alive, t).0.len() == alive.len(),
        forall|k: int|
            0 <= k < alive.len() ==> #[trigger] planned(alive, t).0[k] == (alive[k] && !mentions(
                planned(alive, t).1,
                k,
            )),
{
    lemma_scan_from(alive, t, alive.len() as int, 0);
}

/// No two bodies alive after the pass touch each other.
pub proof fn law_survivors_do_not_touch(alive: Seq<bool>, t: Seq<Seq<bool>>)
    ensures
        forall|k: int, l: int|
            0 <= k < l < alive.len() && #[trigger] planned(alive, t).0[k] && #[trigger] planned(
                alive,
                t,
            ).0[l] ==> !touches(t, k, l),
{
    lemma_scan_from(alive, t, alive.len() as int, 0);
}

/// A body is the later partner of at most one collision, and a body that
/// is some collision's later partner is no collision's earlier partner.
/// (An earlier partner may collide with several later bodies.)
pub proof fn law_later_partner_once(alive: Seq<bool>, t: Seq<Seq<bool>>)
    ensures
        forall|m1: int, m2: int|
            0 <= m1 < planned(alive, t).1.len() && 0 <= m2 < planned(alive, t).1.len() && m1
                != m2 ==> (#[trigger] planned(alive, t).1[m1]).1 != (#[trigger] planned(
                alive,
                t,
            ).1[m2]).1,
        forall|m1: int, m2: int|
            0 <= m1 < planned(alive, t).1.len() && 0 <= m2 < planned(alive, t).1.len() ==> (
            #[trigger] planned(alive, t).1[m1]).0 != (#[trigger] planned(alive, t).1[m2]).1,
{
    lemma_scan_from(alive, t, alive.len() as int, 0);
}

/// When no two alive bodies touch, the pass finds no collision and leaves
/// every body as it was; in particular a second pass over the survivors of
/// a pass, with the same contacts, finds nothing.
pub proof fn law_pass_settles(alive: Seq<bool>, t: Seq<Seq<bool>>)
    ensures
        (forall|k: int, l: int|
            0 <= k < l < alive.len() && #[trigger] alive[k] && #[trigger] alive[l] ==> !touches(
                t,
                k,
                l,
            )) ==> planned(alive, t).1.len() == 0 && planned(alive, t).0 == alive,
        planned(planned(alive, t).0, t).1.len() == 0,
        planned(planned(alive, t).0, t).0 == planned(alive, t).0,
{
    let n = alive.len() as int;
    lemma_scan_from(alive, t, n, 0);
    let first = planned(alive, t);
    lemma_scan_from(first.0, t, n, 0);
    assert(first.0.len() == n);
    let second = planned(first.0, t);
    if second.1.len() > 0 {
        let p = second.1[0];
        assert(first.0[p.0] && first.0[p.1] && touches(t, p.0, p.1));
        assert(false);
    }
    assert forall|k: int| 0 <= k < n implies #[trigger] second.0[k] == first.0[k] by {
        assert(!mentions(second.1, k));
    }
    assert(second.0 =~= first.0);
    if forall|k: int, l: int|
        0 <= k < l < alive.len() && #[trigger] alive[k] && #[trigger] alive[l] ==> !touches(t, k, l) {
        if first.1.len() > 0 {
            let p = first.1[0];
            assert(alive[p.0] && alive[p.1] && touches(t, p.0, p.1));
            assert(false);
        }
        assert forall|k: int| 0 <= k < n implies #[trigger] first.0[k] == alive[k] by {
            assert(!mentions(first.1, k));
        }
        assert(first.0 =~= alive);
    }
}


/// More than five hundred bodies force a merge whatever the impact; so do
/// light or gentle impacts. Otherwise a star that holds absorbs, and any
/// other impact fragments.
pub proof fn law_regime_rule(
    body_count: usize,
    light: bool,
    gentle: bool,
    star_involved: bool,
    star_holds: bool,
)
    ensures
        MAX_BODIES == 500,
        body_count > 500 ==> spec_regime(body_count, light, gentle, star_involved, star_holds)
            == Regime::Merge,
        light || gentle ==> spec_regime(body_count, light, gentle, star_involved, star_holds)
            == Regime::Merge,
        body_count <= 500 && !light && !gentle ==> (spec_regime(
            body_count,
            light,
            gentle,
            star_involved,
            star_holds,
        ) == Regime::StarAbsorb) == (star_involved && star_holds),
        body_count <= 500 && !light && !gentle ==> spec_regime(
            body_count,
            light,
            gentle,
            star_involved,
            star_holds,
        ) != Regime::Merge,
{
}


/// Whether body `l` is the later partner of some collision whose earlier
/// partner comes before body `k`.
pub open spec fn absorbed_before(pairs: Seq<(int, int)>, l: int, k: int) -> bool {
    exists|m: int| 0 <= m < pairs.len() && #[trigger] pairs[m].1 == l && pairs[m].0 < k
}

/// Whether `(k, l)` is one of the pairs.
pub open spec fn has_pair(pairs: Seq<(int, int)>, k: int, l: int) -> bool {
    exists|m: int| 0 <= m < pairs.len() && #[trigger] pairs[m] == (k, l)
}

/// Bodies `k < l` that were alive before the pass and touch collide,
/// unless an earlier body absorbed `k`, or absorbed `l` before `k`'s turn.
proof fn lemma_scan_complete(a: Seq<bool>, t: Seq<Seq<bool>>, n: int, i: int)
    requires
        a.len() == n,
        0 <= i <= n,
    ensures
        forall|k: int, l: int|
            i <= k < l < n && a[k] && a[l] && #[trigger] touches(t, k, l) && !absorbed_before(
                scan_from(a, t, n, i).1,
                k,
                k,
            ) && !absorbed_before(scan_from(a, t, n, i).1, l, k) ==> has_pair(
                scan_from(a, t, n, i).1,
                k,
                l,
            ),
    decreases n - i,
{
    if i >= n {
    } else if a[i] {
        lemma_row_scan(a, t, n, i, i + 1);
        let row = row_scan(a, t, n, i, i + 1);
        let b = row.0;
        let ps = row.1;
        lemma_scan_from(b, t, n, i + 1);
        lemma_scan_complete(b, t, n, i + 1);
        let q = scan_from(b, t, n, i + 1).1;
        let s = scan_from(a, t, n, i);
        assert(s.1 == ps + q);
        let pl = ps.len() as int;
        assert forall|k: int, l: int|
            i <= k < l < n && a[k] && a[l] && #[trigger] touches(t, k, l) && !absorbed_before(
                s.1,
                k,
                k,
            ) && !absorbed_before(s.1, l, k) implies has_pair(s.1, k, l) by {
            if k == i {
                let m = choose|m: int| 0 <= m < ps.len() && (#[trigger] ps[m]).1 == l;
                assert(s.1[m] == ps[m]);
                assert(s.1[m] == (k, l));
            } else {
                if touches(t, i, k) {
                    let m = choose|m: int| 0 <= m < ps.len() && (#[trigger] ps[m]).1 == k;
                    assert(s.1[m] == ps[m]);
                    assert(absorbed_before(s.1, k, k));
                }
                if touches(t, i, l) {
                    let m = choose|m: int| 0 <= m < ps.len() && (#[trigger] ps[m]).1 == l;
                    assert(s.1[m] == ps[m]);
                    assert(absorbed_before(s.1, l, k));
                }
                assert(b[k] && b[l]);
                if absorbed_before(q, k, k) {
                    let m = choose|m: int| 0 <= m < q.len() && #[trigger] q[m].1 == k && q[m].0 < k;
                    assert(s.1[m + pl] == q[m]);
                }
                if absorbed_before(q, l, k) {
                    let m = choose|m: int| 0 <= m < q.len() && #[trigger] q[m].1 == l && q[m].0 < k;
                    assert(s.1[m + pl] == q[m]);
                }
                let m = choose|m: int| 0 <= m < q.len() && #[trigger] q[m] == (k, l);
                assert(s.1[m + pl] == q[m]);
            }
        }
    } else {
        lemma_scan_complete(a, t, n, i + 1);
        assert(scan_from(a, t, n, i) == scan_from(a, t, n, i + 1));
    }
}

/// Every two bodies that were alive before the pass and touch collide,
/// unless an earlier body absorbed the first of them, or absorbed the
/// second before the first one's turn: in particular a body that has
/// collided goes on colliding with the later bodies it touches.
pub proof fn law_touching_bodies_collide(alive: Seq<bool>, t: Seq<Seq<bool>>, k: int, l: int)
    requires
        0 <= k < l < alive.len(),
        alive[k],
        alive[l],
        touches(t, k, l),
        !absorbed_before(planned(alive, t).1, k, k),
        !absorbed_before(planned(alive, t).1, l, k),
    ensures
        has_pair(planned(alive, t).1, k, l),
{
    lemma_scan_complete(alive, t, alive.len() as int, 0);
}

} // verus!
