use vstd::prelude::*;

verus! {

/// A raw trackpad coordinate pair.
pub type Point = (u16, u16);

/// A completed stroke: the ordered points between pen-down and pen-up.
pub type Spell = Vec<Point>;

/// `(0, 0)` is reserved: it means that nothing touches the pad.
pub open spec fn is_sentinel(p: Point) -> bool {
    p.0 == 0 && p.1 == 0
}

/// The buffer after one sample: a point is kept unless it is the sentinel or
/// repeats the sample seen just before it.
pub open spec fn stored_after(stored: Seq<Point>, last: Point, p: Point) -> Seq<Point> {
    if !is_sentinel(p) && p != last {
        stored.push(p)
    } else {
        stored
    }
}

/// Buffer and last-seen sample after feeding `feed`, one sample at a time.
pub open spec fn fed(stored: Seq<Point>, last: Point, feed: Seq<Point>) -> (Seq<Point>, Point)
    decreases feed.len(),
{
    if feed.len() == 0 {
        (stored, last)
    } else {
        let prev = fed(stored, last, feed.drop_last());
        (stored_after(prev.0, prev.1, feed.last()), feed.last())
    }
}

/// A stroke is ready once the pen lifted (sentinel seen last) over a non-empty buffer.
pub open spec fn cast_ready(stored: Seq<Point>, last: Point) -> bool {
    is_sentinel(last) && stored.len() > 0
}

pub open spec fn no_sentinel(s: Seq<Point>) -> bool {
    forall|i: int| 0 <= i < s.len() ==> !is_sentinel(#[trigger] s[i])
}

pub open spec fn no_repeats(s: Seq<Point>) -> bool {
    forall|i: int| 0 < i < s.len() ==> #[trigger] s[i] != s[i - 1]
}

/// Turns a raw coordinate stream into completed strokes.
pub struct SpellBuilder {
    points: Vec<Point>,
    last_point: Point,
}

impl SpellBuilder {
    pub closed spec fn stored(&self) -> Seq<Point> {
        self.points@
    }

    pub closed spec fn last_seen(&self) -> Point {
        self.last_point
    }

    /// The buffer never holds the sentinel, and while the pen is down the
    /// last-seen sample is the last stored point.
    pub open spec fn wf(&self) -> bool {
        &&& no_sentinel(self.stored())
        &&& !is_sentinel(self.last_seen()) ==> self.stored().len() > 0
            && self.stored().last() == self.last_seen()
    }

    /// Between strokes, as the sampling loop keeps it: a lifted pen means an
    /// empty buffer, and the buffer has no two equal neighbours.
    pub open spec fn idle_or_drawing(&self) -> bool {
        &&& self.wf()
        &&& no_repeats(self.stored())
        &&& is_sentinel(self.last_seen()) ==> self.stored().len() == 0
    }

    pub fn new() -> (r: Self)
        ensures
            r.stored() == Seq::<Point>::empty(),
            is_sentinel(r.last_seen()),
            r.idle_or_drawing(),
    {
        SpellBuilder { points: Vec::with_capacity(1000), last_point: (0, 0) }
    }

    /// Feeds one raw sample.
    pub fn step(&mut self, point: Point)
        requires
            old(self).wf(),
        ensures
            final(self).wf(),
            final(self).stored() == stored_after(old(self).stored(), old(self).last_seen(), point),
            final(self).last_seen() == point,
    {
        let fresh = !(point.0 == 0 && point.1 == 0);
        let repeated = point.0 == self.last_point.0 && point.1 == self.last_point.1;
        if fresh && !repeated {
            self.points.push(point);
        }
        self.last_point = point;
    }

    pub fn should_cast(&self) -> (r: bool)
        ensures
            r == cast_ready(self.stored(), self.last_seen()),
    {
        self.last_point.0 == 0 && self.last_point.1 == 0 && self.points.len() > 0
    }

    /// A copy of the buffered stroke; the buffer is left as it is.
    pub fn build(&self) -> (r: Spell)
        ensures
            r@ == self.stored(),
    {
        let mut out: Vec<Point> = Vec::with_capacity(self.points.len());
        let mut i: usize = 0;
        while i < self.points.len()
            invariant
                i <= self.points@.len(),
                out@ == self.points@.subrange(0, i as int),
            decreases self.points@.len() - i,
        {
            out.push(self.points[i]);
            i = i + 1;
            assert(out@ =~= self.points@.subrange(0, i as int));
        }
        assert(out@ =~= self.points@);
        out
    }

    pub fn reset(&mut self)
        ensures
            final(self).stored() == Seq::<Point>::empty(),
            is_sentinel(final(self).last_seen()),
            final(self).idle_or_drawing(),
    {
        self.points.clear();
        self.last_point = (0, 0);
    }
}

impl Default for SpellBuilder {
    fn default() -> (r: Self)
        ensures
            r.stored() == Seq::<Point>::empty(),
            is_sentinel(r.last_seen()),
            r.idle_or_drawing(),
    {
        SpellBuilder::new()
    }
}

/// Feeding nothing but the sentinel to a builder with an empty buffer never
/// makes a stroke ready: the buffer stays empty.
pub proof fn lemma_sentinels_never_cast(last: Point, feed: Seq<Point>)
    requires
        forall|i: int| 0 <= i < feed.len() ==> is_sentinel(#[trigger] feed[i]),
    ensures
        fed(Seq::empty(), last, feed).0.len() == 0,
        !cast_ready(fed(Seq::empty(), last, feed).0, fed(Seq::empty(), last, feed).1),
    decreases feed.len(),
{
    if feed.len() > 0 {
        let rest = feed.drop_last();
        assert forall|i: int| 0 <= i < rest.len() implies is_sentinel(#[trigger] rest[i]) by {
            assert(rest[i] == feed[i]);
        }
        lemma_sentinels_never_cast(last, rest);
        assert(is_sentinel(feed[feed.len() - 1]));
    }
}

/// Whatever the sample stream, a builder started empty never stores the
/// sentinel; and within one contact (a stream without the sentinel) it never
/// stores two equal points in a row.
pub proof fn lemma_stroke_is_clean(feed: Seq<Point>)
    ensures
        no_sentinel(fed(Seq::empty(), (0, 0), feed).0),
        (forall|i: int| 0 <= i < feed.len() ==> !is_sentinel(#[trigger] feed[i])) ==> {
            &&& no_repeats(fed(Seq::empty(), (0, 0), feed).0)
            &&& feed.len() > 0 ==> fed(Seq::empty(), (0, 0), feed).0.last() == feed.last()
        },
    decreases feed.len(),
{
    if feed.len() > 0 {
        let rest = feed.drop_last();
        lemma_stroke_is_clean(rest);
        let prev = fed(Seq::empty(), (0, 0), rest);
        let p = feed.last();
        let cur = fed(Seq::empty(), (0, 0), feed);
        assert(cur.0 == stored_after(prev.0, prev.1, p));
        if !is_sentinel(p) && p != prev.1 {
            assert forall|i: int| 0 <= i < cur.0.len() implies !is_sentinel(#[trigger] cur.0[i]) by {
                if i < prev.0.len() {
                    assert(cur.0[i] == prev.0[i]);
                }
            }
        }
        if forall|i: int| 0 <= i < feed.len() ==> !is_sentinel(#[trigger] feed[i]) {
            assert forall|i: int| 0 <= i < rest.len() implies !is_sentinel(#[trigger] rest[i]) by {
                assert(rest[i] == feed[i]);
            }
            assert(!is_sentinel(feed[feed.len() - 1]));
            if rest.len() > 0 {
                assert(prev.1 == rest.last());
                assert(prev.0.last() == rest.last());
            } else {
                assert(prev.1 == (0u16, 0u16));
            }
            if p != prev.1 {
                assert forall|i: int| 0 < i < cur.0.len() implies #[trigger] cur.0[i] != cur.0[i - 1] by {
                    if i < prev.0.len() {
                        assert(cur.0[i] == prev.0[i]);
                        assert(cur.0[i - 1] == prev.0[i - 1]);
                    } else {
                        assert(cur.0[i - 1] == prev.0.last());
                    }
                }
            }
        }
    }
}

} // verus!
