use std::collections::VecDeque;
use vstd::prelude::*;

verus! {

/// How many past positions a body's trail keeps.
pub const TRAIL_MAX: usize = 200;

/// A trail after one more position is appended: the oldest position goes
/// when the trail would grow past `TRAIL_MAX`.
pub open spec fn spec_push_trail<T>(trail: Seq<T>, point: T) -> Seq<T> {
    if trail.len() + 1 > TRAIL_MAX {
        trail.push(point).drop_first()
    } else {
        trail.push(point)
    }
}

/// The trail that a run of positions leaves, appended one by one to `start`.
pub open spec fn trail_after<T>(start: Seq<T>, points: Seq<T>) -> Seq<T>
    decreases points.len(),
{
    if points.len() == 0 {
        start
    } else {
        spec_push_trail(trail_after(start, points.drop_last()), points.last())
    }
}

/// Appends a body's newest position to its trail, dropping the oldest one
/// when the trail would grow past `TRAIL_MAX`.
pub fn push_trail<T>(trail: &mut VecDeque<T>, point: T)
    ensures
        final(trail)@ == spec_push_trail(old(trail)@, point),
{
    trail.push_back(point);
    if trail.len() > TRAIL_MAX {
        let _ = trail.pop_front();
    }
}

/// A trail of at most `TRAIL_MAX` positions stays so after a push, ends
/// with the position pushed, and keeps the latest of its older positions
/// in their order.
pub proof fn law_trail_bounded<T>(trail: Seq<T>, point: T)
    requires
        trail.len() <= TRAIL_MAX,
    ensures
        spec_push_trail(trail, point).len() <= TRAIL_MAX,
        spec_push_trail(trail, point).len() >= 1,
        spec_push_trail(trail, point).last() == point,
        spec_push_trail(trail, point) == trail.push(point).subrange(
            trail.len() + 1 - spec_push_trail(trail, point).len(),
            trail.len() + 1 as int,
        ),
{
    let r = spec_push_trail(trail, point);
    let s = trail.push(point);
    assert(r =~= s.subrange(trail.len() + 1 - r.len(), trail.len() + 1 as int));
}

/// A trail started empty holds exactly the last `TRAIL_MAX` positions
/// pushed onto it (all of them while fewer were pushed), oldest first.
pub proof fn law_trail_keeps_latest<T>(points: Seq<T>)
    ensures
        TRAIL_MAX == 200,
        trail_after(Seq::empty(), points) == points.subrange(
            if points.len() > TRAIL_MAX {
                points.len() - TRAIL_MAX
            } else {
                0
            },
            points.len() as int,
        ),
    decreases points.len(),
{
    if points.len() > 0 {
        let before = points.drop_last();
        law_trail_keeps_latest(before);
        let l = points.len() as int;
        let prev = trail_after(Seq::<T>::empty(), before);
        let start_prev = if l - 1 > TRAIL_MAX {
            l - 1 - TRAIL_MAX
        } else {
            0
        };
        assert(prev == points.subrange(start_prev, l - 1));
        assert(prev.push(points.last()) =~= points.subrange(start_prev, l));
        let start = if l > TRAIL_MAX {
            l - TRAIL_MAX
        } else {
            0
        };
        assert(trail_after(Seq::<T>::empty(), points) =~= points.subrange(start, l));
    } else {
        assert(points.subrange(0, 0) =~= Seq::<T>::empty());
    }
}

} // verus!
