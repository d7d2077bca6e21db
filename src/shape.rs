use vstd::prelude::*;

verus! {

/// Points in a canonical shape.
pub const SHAPE_POINTS: usize = 64;

/// Pads a resampled path up to `n` points by repeating its final point;
/// a path that already has `n` or more points is left as it is.
pub fn pad_to_length<T: Copy>(points: &mut Vec<T>, n: usize)
    requires
        old(points)@.len() > 0,
    ensures
        old(points)@.len() >= n ==> final(points)@ == old(points)@,
        old(points)@.len() < n ==> final(points)@.len() == n,
        forall|i: int| 0 <= i < old(points)@.len() ==> #[trigger] final(points)@[i] == old(points)@[i],
        forall|i: int|
            old(points)@.len() <= i < final(points)@.len() ==> #[trigger] final(points)@[i]
                == old(points)@.last(),
{
    let last = points[points.len() - 1];
    let ghost start = points@;
    while points.len() < n
        invariant
            start.len() > 0,
            last == start.last(),
            points@.len() >= start.len(),
            start.len() >= n ==> points@ == start,
            start.len() < n ==> points@.len() <= n,
            forall|i: int| 0 <= i < start.len() ==> #[trigger] points@[i] == start[i],
            forall|i: int| start.len() <= i < points@.len() ==> #[trigger] points@[i] == last,
        decreases n - points@.len(),
    {
        points.push(last);
    }
}

} // verus!
