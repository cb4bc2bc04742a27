use vstd::prelude::*;

verus! {

/// The pair that the merge-only collision pass tests next, from row `i`,
/// column `j` on: body `i` meets the later bodies `j`, `j + 1`, ... that are
/// still alive, whether or not `i` itself is; when a row is done, the next
/// row is entered only if its body is alive then.
pub open spec fn seek(a: Seq<bool>, n: int, i: int, j: int) -> Option<(int, int)>
    decreases n - i, n - j,
{
    if i >= n || i < 0 {
        None
    } else if j < n {
        if j >= 0 && a[j] {
            Some((i, j))
        } else {
            seek(a, n, i, j + 1)
        }
    } else if i + 1 < n && a[i + 1] {
        seek(a, n, i + 1, i + 2)
    } else {
        seek(a, n, i + 1, n)
    }
}

/// The merge-only collision pass, walked one contact test at a time: the
/// pass names a pair, the caller tests it for contact and compares the
/// masses, and the pass says which body absorbs which. Bodies are taken in
/// order of index; a body alive when its turn comes meets every later body
/// still alive, and goes on meeting them even after it has been absorbed.
pub struct MergePass {
    alive: Vec<bool>,
    row: usize,
    col: usize,
    pending: bool,
}

impl MergePass {
    /// The alive flags.
    pub closed spec fn alive_view(&self) -> Seq<bool> {
        self.alive@
    }

    /// The pass's position: the row body and the next column to look at.
    pub closed spec fn cursor(&self) -> (int, int) {
        (self.row as int, self.col as int)
    }

    /// Whether the pair at the cursor has been named and not yet resolved.
    pub closed spec fn is_pending(&self) -> bool {
        self.pending
    }

    /// The pass's shape: the cursor inside the bodies, a named pair a live
    /// later body.
    pub closed spec fn wf(&self) -> bool {
        let n = self.alive@.len();
        &&& self.row <= n
        &&& (self.row < n ==> self.row < self.col <= n)
        &&& (self.pending ==> self.row < self.col < n && self.alive@[self.col as int])
    }

    /// The pair to test next.
    pub open spec fn upcoming(&self) -> Option<(int, int)> {
        seek(self.alive_view(), self.alive_view().len() as int, self.cursor().0, self.cursor().1)
    }

    /// Starts a pass over bodies with the given alive flags.
    pub fn new(alive: Vec<bool>) -> (p: MergePass)
        ensures
            p.wf(),
            p.alive_view() == alive@,
            !p.is_pending(),
            p.cursor() == (if alive@.len() > 0 && alive@[0] {
                (0int, 1int)
            } else {
                (0int, alive@.len() as int)
            }),
    {
        let n = alive.len();
        let col = if n > 0 && alive[0] {
            1
        } else {
            n
        };
        MergePass { alive, row: 0, col, pending: false }
    }

    /// The pair to test next, or `None` when the pass is over. Naming a
    /// pair moves the pass onto it; naming again before resolving names the
    /// same pair.
    pub fn next_pair(&mut self) -> (r: Option<(usize, usize)>)
        requires
            old(self).wf(),
        ensures
            final(self).wf(),
            final(self).alive_view() == old(self).alive_view(),
            final(self).upcoming() == old(self).upcoming(),
            r is Some <==> old(self).upcoming() is Some,
            r matches Some(p) ==> old(self).upcoming() == Some((p.0 as int, p.1 as int))
                && final(self).cursor() == (p.0 as int, p.1 as int) && final(self).is_pending(),
            r is None ==> !final(self).is_pending(),
    {
        let n = self.alive.len();
        let ghost a = self.alive@;
        let ghost target = self.upcoming();
        let mut i = self.row;
        let mut j = self.col;
        while i < n
            invariant
                n == a.len(),
                a == self.alive@,
                a == old(self).alive@,
                target == old(self).upcoming(),
                self.wf(),
                i <= n,
                i < n ==> i < j <= n,
                seek(a, n as int, i as int, j as int) == target,
            decreases n - i,
        {
            while j < n && !self.alive[j]
                invariant
                    n == a.len(),
                    a == self.alive@,
                    a == old(self).alive@,
                    target == old(self).upcoming(),
                    self.wf(),
                    i < n,
                    i < j <= n,
                    seek(a, n as int, i as int, j as int) == target,
                decreases n - j,
            {
                j += 1;
            }
            if j < n {
                self.row = i;
                self.col = j;
                self.pending = true;
                return Some((i, j));
            }
            if i + 1 < n && self.alive[i + 1] {
                i = i + 1;
                j = i + 1;
            } else {
                i = i + 1;
                j = n;
            }
        }
        self.row = n;
        self.col = n;
        self.pending = false;
        None
    }

    /// Settles the named pair `(i, j)`. When the two touch, the lighter one
    /// (`j` when `first_heavier`, which says that body `i` weighs at least
    /// as much as body `j`) is absorbed and marked dead, and the pass
    /// returns `(absorber, absorbed)`. Either way the pass moves on to the
    /// next column. Without a named pair nothing happens.
    pub fn resolve(&mut self, touching: bool, first_heavier: bool) -> (m: Option<(usize, usize)>)
        requires
            old(self).wf(),
        ensures
            final(self).wf(),
            !final(self).is_pending(),
            !old(self).is_pending() ==> m is None && *final(self) == *old(self),
            old(self).is_pending() ==> final(self).cursor() == (old(self).cursor().0, old(
                self,
            ).cursor().1 + 1),
            old(self).is_pending() && !touching ==> m is None && final(self).alive_view() == old(
                self,
            ).alive_view(),
            old(self).is_pending() && touching ==> {
                let (i, j) = old(self).cursor();
                let (big, small) = if first_heavier {
                    (i, j)
                } else {
                    (j, i)
                };
                &&& m == Some((big as usize, small as usize))
                &&& final(self).alive_view() == old(self).alive_view().update(small, false)
            },
    {
        if !self.pending {
            return None;
        }
        let i = self.row;
        let j = self.col;
        assert(i < j < self.alive@.len());
        let merged = if touching {
            let (big, small) = if first_heavier {
                (i, j)
            } else {
                (j, i)
            };
            self.alive.set(small, false);
            Some((big, small))
        } else {
            None
        };
        self.col = j + 1;
        self.pending = false;
        merged
    }

    /// The alive flags after the pass.
    pub fn into_alive(self) -> (alive: Vec<bool>)
        ensures
            alive@ == self.alive_view(),
    {
        self.alive
    }
}

/// The pair the pass names next lies at or after the cursor, joins a body
/// with a later body that is alive, and no live later body is passed over
/// in the cursor's row on the way to it.
pub proof fn law_next_pair_skips_only_dead(a: Seq<bool>, n: int, i: int, j: int)
    requires
        a.len() == n,
        0 <= i < j <= n,
    ensures
        seek(a, n, i, j) matches Some((p, q)) ==> {
            &&& i <= p < q < n
            &&& a[q]
            &&& p == i ==> j <= q && forall|k: int| j <= k < q ==> !#[trigger] a[k]
            &&& p > i ==> forall|k: int| j <= k < n ==> !#[trigger] a[k]
        },
        seek(a, n, i, j) is None ==> forall|k: int| j <= k < n ==> !#[trigger] a[k],
    decreases n - i, n - j,
{
    if j < n {
        if !a[j] {
            law_next_pair_skips_only_dead(a, n, i, j + 1);
            assert(seek(a, n, i, j) == seek(a, n, i, j + 1));
            if let Some((p, q)) = seek(a, n, i, j) {
                if p == i {
                    assert forall|k: int| j <= k < q implies !#[trigger] a[k] by {
                        if k > j {
                            assert(j + 1 <= k < q);
                        }
                    }
                } else {
                    assert forall|k: int| j <= k < n implies !#[trigger] a[k] by {
                        if k > j {
                            assert(j + 1 <= k < n);
                        }
                    }
                }
            } else {
                assert forall|k: int| j <= k < n implies !#[trigger] a[k] by {
                    if k > j {
                        assert(j + 1 <= k < n);
                    }
                }
            }
        }
    } else if i + 1 < n && a[i + 1] {
        law_next_pair_skips_only_dead(a, n, i + 1, i + 2);
        assert(seek(a, n, i, j) == seek(a, n, i + 1, i + 2));
    } else if i + 1 < n {
        law_next_pair_skips_only_dead(a, n, i + 1, n);
        assert(seek(a, n, i, j) == seek(a, n, i + 1, n));
    } else {
        assert(seek(a, n, i, j) == seek(a, n, i + 1, n));
        assert(seek(a, n, i, j) is None);
    }
}


/// The pass misses no live pair in the rows after the cursor's: when it
/// names a pair in a later row `p`, body `p` is alive, every row body in
/// between that was alive had no live later body, and the live bodies of
/// row `p` before the named one are none; when it names nothing, no later
/// row body that is alive has a live later partner.
pub proof fn law_next_pair_misses_no_row(a: Seq<bool>, n: int, i: int, j: int)
    requires
        a.len() == n,
        0 <= i < j <= n,
    ensures
        seek(a, n, i, j) matches Some((p, q)) ==> (p > i ==> {
            &&& a[p]
            &&& forall|r: int, s: int|
                i < r < p && r < s < n && #[trigger] a[r] ==> !#[trigger] a[s]
            &&& forall|k: int| p < k < q ==> !#[trigger] a[k]
        }),
        seek(a, n, i, j) is None ==> forall|r: int, s: int|
            i < r < s < n && #[trigger] a[r] ==> !#[trigger] a[s],
    decreases n - i, n - j,
{
    if j < n {
        if !a[j] {
            law_next_pair_misses_no_row(a, n, i, j + 1);
            assert(seek(a, n, i, j) == seek(a, n, i, j + 1));
        } else {
            assert(seek(a, n, i, j) == Some((i, j)));
        }
    } else if i + 1 < n && a[i + 1] {
        law_next_pair_misses_no_row(a, n, i + 1, i + 2);
        law_next_pair_skips_only_dead(a, n, i + 1, i + 2);
        assert(seek(a, n, i, j) == seek(a, n, i + 1, i + 2));
        if let Some((p, q)) = seek(a, n, i, j) {
            if p > i + 1 {
                assert forall|r: int, s: int|
                    i < r < p && r < s < n && #[trigger] a[r] implies !#[trigger] a[s] by {
                    if r == i + 1 {
                        assert(i + 2 <= s < n);
                    }
                }
            }
        } else {
            assert forall|r: int, s: int| i < r < s < n && #[trigger] a[r] implies !#[trigger] a[s] by {
                if r == i + 1 {
                    assert(i + 2 <= s < n);
                }
            }
        }
    } else if i + 1 < n {
        law_next_pair_misses_no_row(a, n, i + 1, n);
        assert(seek(a, n, i, j) == seek(a, n, i + 1, n));
        assert(seek(a, n, i + 1, n) == seek(a, n, i + 1, n + 0));
        if let Some((p, q)) = seek(a, n, i, j) {
            law_next_pair_skips_only_dead(a, n, i + 1, n);
            if p == i + 1 {
                assert(n <= q);
                assert(false);
            }
        }
    } else {
        assert(seek(a, n, i, j) == seek(a, n, i + 1, n));
        assert(seek(a, n, i, j) is None);
    }
}

} // verus!
