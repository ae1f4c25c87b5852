use vstd::prelude::*;
use crate::integer::Integer;
use crate::one::One;
use crate::vec2::Vec2;

verus! {

/// Number of positions in the half-open box from `start` to `end`.
pub open spec fn box2_len(start: Vec2<int>, end: Vec2<int>) -> int {
    let w = end.x - start.x;
    let h = end.y - start.y;
    if w > 0 && h > 0 { w * h } else { 0 }
}

/// The position at index `k` of the half-open box from `start` to `end` in
/// row-major order (x varies fastest).
pub open spec fn box2_item(start: Vec2<int>, end: Vec2<int>, k: int) -> Vec2<int> {
    let w = end.x - start.x;
    Vec2 { x: start.x + k % w, y: start.y + k / w }
}

/// The values of the components.
pub open spec fn values2<T: Integer>(v: Vec2<T>) -> Vec2<int> {
    Vec2 { x: v.x.value(), y: v.y.value() }
}

/// Iterates over all positions of a half-open 2D box, x varying fastest.
pub struct Vec2RangeIter<T> {
    start: Vec2<T>,
    end: Vec2<T>,
    x: T,
    y: T,
}

impl<T: Integer> Vec2RangeIter<T> {
    /// The inclusive corner of the box.
    pub closed spec fn start(&self) -> Vec2<T> {
        self.start
    }

    /// The exclusive corner of the box.
    pub closed spec fn end(&self) -> Vec2<T> {
        self.end
    }

    /// How many positions the iterator has produced.
    pub closed spec fn index(&self) -> int {
        let w = self.end.x.value() - self.start.x.value();
        (self.y.value() - self.start.y.value()) * w + (self.x.value() - self.start.x.value())
    }

    /// The cursor lies in the box, or just after its last position.
    pub closed spec fn wf(&self) -> bool {
        let sx = self.start.x.value();
        let sy = self.start.y.value();
        let ex = self.end.x.value();
        let ey = self.end.y.value();
        let x = self.x.value();
        let y = self.y.value();
        if ex <= sx {
            x == sx && y == sy
        } else if ey <= sy {
            x == sx && y == sy
        } else {
            sx <= x <= ex && sy <= y <= ey && (y == ey ==> x == sx)
        }
    }

    /// Creates iterator over the box from `start` (inclusive) to `end` (exclusive).
    pub fn new(start: Vec2<T>, end: Vec2<T>) -> (r: Self)
        ensures
            r.wf(),
            r.start() == start,
            r.end() == end,
            r.index() == 0,
    {
        Self { start, end, x: start.x, y: start.y }
    }

    /// Checks if the box contains the position `p`.
    pub fn contains(&self, p: Vec2<T>) -> (r: bool)
        ensures
            r == (self.start().x.value() <= p.x.value() < self.end().x.value()
                && self.start().y.value() <= p.y.value() < self.end().y.value()),
    {
        proof {
            T::lemma_cmp(p.x, self.start.x);
            T::lemma_cmp(p.x, self.end.x);
            T::lemma_cmp(p.y, self.start.y);
            T::lemma_cmp(p.y, self.end.y);
        }
        p.x >= self.start.x && p.x < self.end.x && p.y >= self.start.y && p.y < self.end.y
    }

    /// Gets the next position of the box, or `None` once all were produced.
    pub fn next(&mut self) -> (r: Option<Vec2<T>>)
        requires
            old(self).wf(),
        ensures
            final(self).wf(),
            final(self).start() == old(self).start(),
            final(self).end() == old(self).end(),
            old(self).index() < box2_len(values2(old(self).start()), values2(old(self).end())) ==> {
                &&& r is Some
                &&& values2(r->0) == box2_item(
                    values2(old(self).start()),
                    values2(old(self).end()),
                    old(self).index(),
                )
                &&& final(self).index() == old(self).index() + 1
            },
            old(self).index() >= box2_len(values2(old(self).start()), values2(old(self).end()))
                ==> r is None && final(self).index() == old(self).index(),
    {
        let ghost k = self.index();
        let ghost sx = self.start.x.value();
        let ghost sy = self.start.y.value();
        let ghost ex = self.end.x.value();
        let ghost ey = self.end.y.value();
        let ghost w = ex - sx;
        let ghost h = ey - sy;
        let ghost len = box2_len(values2(self.start), values2(self.end));
        proof {
            T::lemma_cmp(self.x, self.end.x);
            T::lemma_cmp(self.x, self.start.x);
            self.end.x.lemma_domain();
            self.end.y.lemma_domain();
            self.x.lemma_domain();
            self.y.lemma_domain();
            self.start.x.lemma_domain();
            self.start.y.lemma_domain();
            assert(k == (self.y.value() - sy) * w + (self.x.value() - sx));
            if ex <= sx || ey <= sy {
                assert(self.x.value() == sx && self.y.value() == sy);
                assert(k == 0) by (nonlinear_arith)
                    requires
                        k == (self.y.value() - sy) * w + (self.x.value() - sx),
                        self.x.value() == sx,
                        self.y.value() == sy,
                ;
                assert(len == 0);
            }
        }
        if self.x >= self.end.x {
            if self.x == self.start.x {
                return None;
            }
            let one = T::one();
            proof {
                T::lemma_ops(self.y, one);
                assert(w > 0 && h > 0);
                assert(self.y.value() < ey);
                assert(k == (self.y.value() - sy) * w + w);
                assert(k == (self.y.value() + 1 - sy) * w) by (nonlinear_arith)
                    requires
                        k == (self.y.value() - sy) * w + w,
                ;
            }
            self.x = self.start.x;
            self.y = self.y + one;
        }
        proof {
            T::lemma_cmp(self.y, self.end.y);
            assert(self.index() == k);
        }
        if self.y >= self.end.y {
            proof {
                if w > 0 && h > 0 {
                    assert(self.y.value() == ey && self.x.value() == sx);
                    assert(k == h * w);
                    assert(k >= len) by (nonlinear_arith)
                        requires
                            k == h * w,
                            len == w * h,
                    ;
                }
            }
            return None;
        }
        let one = T::one();
        proof {
            T::lemma_ops(self.x, one);
            assert(w > 0 && h > 0);
            assert(self.x.value() < ex);
        }
        let res = Vec2 { x: self.x, y: self.y };
        self.x = self.x + one;
        proof {
            let i = res.y.value() - sy;
            let j = res.x.value() - sx;
            assert(0 <= j < w);
            assert(0 <= i < h);
            assert(k == i * w + j);
            assert(k % w == j && k / w == i) by (nonlinear_arith)
                requires
                    k == i * w + j,
                    0 <= j < w,
                    i >= 0,
            ;
            assert(k < w * h) by (nonlinear_arith)
                requires
                    k == i * w + j,
                    0 <= j < w,
                    0 <= i < h,
            ;
            assert(self.index() == k + 1);
        }
        Some(res)
    }
}

/// An iterator over a box that is empty along one axis produces nothing: the box
/// has no position and the iterator has already produced all of them, so `next`
/// returns `None`.
pub proof fn lemma_empty_box2<T: Integer>(it: Vec2RangeIter<T>)
    requires
        it.wf(),
        it.start().x.value() >= it.end().x.value() || it.start().y.value() >= it.end().y.value(),
    ensures
        box2_len(values2(it.start()), values2(it.end())) == 0,
        it.index() >= box2_len(values2(it.start()), values2(it.end())),
{
    let w = it.end.x.value() - it.start.x.value();
    assert(it.index() == 0) by (nonlinear_arith)
        requires
            it.index() == (it.y.value() - it.start.y.value()) * w + (it.x.value()
                - it.start.x.value()),
            it.x.value() == it.start.x.value(),
            it.y.value() == it.start.y.value(),
    ;
}

} // verus!
