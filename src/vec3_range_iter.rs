use vstd::prelude::*;
use crate::integer::Integer;
use crate::one::One;
use crate::vec3::Vec3;

verus! {

/// Number of positions in the half-open box from `start` to `end`.
pub open spec fn box3_len(start: Vec3<int>, end: Vec3<int>) -> int {
    let w = end.x - start.x;
    let h = end.y - start.y;
    let d = end.z - start.z;
    if w > 0 && h > 0 && d > 0 { w * h * d } else { 0 }
}

/// The position at index `k` of the half-open box from `start` to `end`, x varying
/// fastest, then y, then z.
pub open spec fn box3_item(start: Vec3<int>, end: Vec3<int>, k: int) -> Vec3<int> {
    let w = end.x - start.x;
    let h = end.y - start.y;
    Vec3 { x: start.x + k % w, y: start.y + (k / w) % h, z: start.z + k / (w * h) }
}

/// The values of the components.
pub open spec fn values3<T: Integer>(v: Vec3<T>) -> Vec3<int> {
    Vec3 { x: v.x.value(), y: v.y.value(), z: v.z.value() }
}

/// Iterates over all positions of a half-open 3D box, x varying fastest, then y,
/// then z.
pub struct Vec3RangeIter<T> {
    start: Vec3<T>,
    end: Vec3<T>,
    x: T,
    y: T,
    z: T,
}

impl<T: Integer> Vec3RangeIter<T> {
    /// The inclusive corner of the box.
    pub closed spec fn start(&self) -> Vec3<T> {
        self.start
    }

    /// The exclusive corner of the box.
    pub closed spec fn end(&self) -> Vec3<T> {
        self.end
    }

    /// How many positions the iterator has produced.
    pub closed spec fn index(&self) -> int {
        let w = self.end.x.value() - self.start.x.value();
        let h = self.end.y.value() - self.start.y.value();
        ((self.z.value() - self.start.z.value()) * h + (self.y.value() - self.start.y.value())) * w
            + (self.x.value() - self.start.x.value())
    }

    /// The cursor lies in the box, or just after its last position.
    pub closed spec fn wf(&self) -> bool {
        let (sx, sy, sz) = (self.start.x.value(), self.start.y.value(), self.start.z.value());
        let (ex, ey, ez) = (self.end.x.value(), self.end.y.value(), self.end.z.value());
        let (x, y, z) = (self.x.value(), self.y.value(), self.z.value());
        if ex <= sx || ey <= sy || ez <= sz {
            x == sx && y == sy && z == sz
        } else {
            &&& sx <= x <= ex
            &&& sy <= y <= ey
            &&& sz <= z <= ez
            &&& y == ey ==> x == sx
            &&& z == ez ==> x == sx && y == sy
            &&& y < ey || z < ez
        }
    }

    /// Creates iterator over the box from `start` (inclusive) to `end` (exclusive).
    pub fn new(start: Vec3<T>, end: Vec3<T>) -> (r: Self)
        ensures
            r.wf(),
            r.start() == start,
            r.end() == end,
            r.index() == 0,
    {
        let r = Self { start, end, x: start.x, y: start.y, z: start.z };
        proof {
            let w = end.x.value() - start.x.value();
            let h = end.y.value() - start.y.value();
            assert(r.index() == (0 * h + 0) * w + 0);
            assert((0 * h + 0) * w + 0 == 0) by (nonlinear_arith);
        }
        r
    }

    /// Checks if the box contains the position `p`.
    pub fn contains(&self, p: Vec3<T>) -> (r: bool)
        ensures
            r == (self.start().x.value() <= p.x.value() < self.end().x.value()
                && self.start().y.value() <= p.y.value() < self.end().y.value()
                && self.start().z.value() <= p.z.value() < self.end().z.value()),
    {
        proof {
            T::lemma_cmp(p.x, self.start.x);
            T::lemma_cmp(p.x, self.end.x);
            T::lemma_cmp(p.y, self.start.y);
            T::lemma_cmp(p.y, self.end.y);
            T::lemma_cmp(p.z, self.start.z);
            T::lemma_cmp(p.z, self.end.z);
        }
        p.x >= self.start.x && p.x < self.end.x && p.y >= self.start.y && p.y < self.end.y
            && p.z >= self.start.z && p.z < self.end.z
    }

    /// Gets the next position of the box, or `None` once all were produced.
    pub fn next(&mut self) -> (r: Option<Vec3<T>>)
        requires
            old(self).wf(),
        ensures
            final(self).wf(),
            final(self).start() == old(self).start(),
            final(self).end() == old(self).end(),
            old(self).index() < box3_len(values3(old(self).start()), values3(old(self).end())) ==> {
                &&& r is Some
                &&& values3(r->0) == box3_item(
                    values3(old(self).start()),
                    values3(old(self).end()),
                    old(self).index(),
                )
                &&& final(self).index() == old(self).index() + 1
            },
            old(self).index() >= box3_len(values3(old(self).start()), values3(old(self).end()))
                ==> r is None && final(self).index() == old(self).index(),
    {
        let ghost k = self.index();
        let ghost (sx, sy, sz) = (self.start.x.value(), self.start.y.value(), self.start.z.value());
        let ghost (ex, ey, ez) = (self.end.x.value(), self.end.y.value(), self.end.z.value());
        let ghost w = ex - sx;
        let ghost h = ey - sy;
        let ghost d = ez - sz;
        let ghost len = box3_len(values3(self.start), values3(self.end));
        proof {
            T::lemma_cmp(self.x, self.end.x);
            T::lemma_cmp(self.x, self.start.x);
            T::lemma_cmp(self.y, self.end.y);
            T::lemma_cmp(self.y, self.start.y);
            self.end.x.lemma_domain();
            self.end.y.lemma_domain();
            self.end.z.lemma_domain();
            self.x.lemma_domain();
            self.y.lemma_domain();
            self.z.lemma_domain();
            self.start.x.lemma_domain();
            self.start.y.lemma_domain();
            self.start.z.lemma_domain();
            let (x, y, z) = (self.x.value(), self.y.value(), self.z.value());
            assert(k == ((z - sz) * h + (y - sy)) * w + (x - sx));
            if w <= 0 || h <= 0 || d <= 0 {
                assert(k == 0) by (nonlinear_arith)
                    requires
                        k == ((z - sz) * h + (y - sy)) * w + (x - sx),
                        x == sx,
                        y == sy,
                        z == sz,
                ;
                assert(len == 0);
            }
        }
        if self.x >= self.end.x {
            if self.x == self.start.x {
                return None;
            }
            let one = T::one();
            proof {
                T::lemma_ops(self.y, one);
                assert(w > 0 && h > 0 && d > 0);
                assert(self.y.value() < ey);
                let (y, z) = (self.y.value(), self.z.value());
                assert(k == ((z - sz) * h + (y + 1 - sy)) * w) by (nonlinear_arith)
                    requires
                        k == ((z - sz) * h + (y - sy)) * w + w,
                ;
            }
            self.x = self.start.x;
            self.y = self.y + one;
        }
        proof {
            T::lemma_cmp(self.y, self.end.y);
            T::lemma_cmp(self.y, self.start.y);
            assert(self.index() == k);
        }
        if self.y >= self.end.y {
            if self.y == self.start.y {
                proof {
                    assert(w <= 0 || h <= 0 || d <= 0);
                }
                return None;
            }
            let one = T::one();
            proof {
                T::lemma_ops(self.z, one);
                assert(w > 0 && h > 0 && d > 0);
                assert(self.z.value() < ez);
                let z = self.z.value();
                assert(k == ((z + 1 - sz) * h + 0) * w) by (nonlinear_arith)
                    requires
                        k == ((z - sz) * h + h) * w + 0,
                ;
            }
            self.y = self.start.y;
            self.z = self.z + one;
        }
        proof {
            T::lemma_cmp(self.z, self.end.z);
            assert(self.index() == k);
        }
        if self.z >= self.end.z {
            proof {
                if w > 0 && h > 0 && d > 0 {
                    assert(self.x.value() == sx && self.y.value() == sy);
                    assert(k == (d * h) * w);
                    assert(k >= len) by (nonlinear_arith)
                        requires
                            k == (d * h) * w,
                            len == w * h * d,
                    ;
                }
            }
            return None;
        }
        let one = T::one();
        proof {
            T::lemma_ops(self.x, one);
            assert(w > 0 && h > 0 && d > 0);
            assert(self.x.value() < ex);
        }
        let res = Vec3 { x: self.x, y: self.y, z: self.z };
        self.x = self.x + one;
        proof {
            let i = res.z.value() - sz;
            let j = res.y.value() - sy;
            let l = res.x.value() - sx;
            assert(0 <= l < w && 0 <= j < h && 0 <= i < d);
            assert(k == (i * h + j) * w + l);
            lemma_box3_index(k, i, j, l, w, h, d);
            assert(self.index() == k + 1);
        }
        Some(res)
    }
}

/// Decomposition of an index of the box into its coordinates.
proof fn lemma_box3_index(k: int, i: int, j: int, l: int, w: int, h: int, d: int)
    requires
        k == (i * h + j) * w + l,
        0 <= l < w,
        0 <= j < h,
        0 <= i < d,
    ensures
        k % w == l,
        (k / w) % h == j,
        k / (w * h) == i,
        k < w * h * d,
{
    assert(k % w == l && k / w == i * h + j) by (nonlinear_arith)
        requires
            k == (i * h + j) * w + l,
            0 <= l < w,
            0 <= i * h + j,
    ;
    assert((i * h + j) % h == j && (i * h + j) / h == i) by (nonlinear_arith)
        requires
            0 <= j < h,
            i >= 0,
    ;
    assert(k == i * (w * h) + (j * w + l)) by (nonlinear_arith)
        requires
            k == (i * h + j) * w + l,
    ;
    assert(0 <= j * w + l < w * h) by (nonlinear_arith)
        requires
            0 <= l < w,
            0 <= j < h,
    ;
    assert(k / (w * h) == i) by (nonlinear_arith)
        requires
            k == i * (w * h) + (j * w + l),
            0 <= j * w + l < w * h,
            i >= 0,
    ;
    assert(k < w * h * d) by (nonlinear_arith)
        requires
            k == i * (w * h) + (j * w + l),
            0 <= j * w + l < w * h,
            0 <= i < d,
    ;
}

/// An iterator over a box that is empty along one axis produces nothing: the box
/// has no position and the iterator has already produced all of them, so `next`
/// returns `None`.
pub proof fn lemma_empty_box3<T: Integer>(it: Vec3RangeIter<T>)
    requires
        it.wf(),
        it.start().x.value() >= it.end().x.value() || it.start().y.value() >= it.end().y.value()
            || it.start().z.value() >= it.end().z.value(),
    ensures
        box3_len(values3(it.start()), values3(it.end())) == 0,
        it.index() >= box3_len(values3(it.start()), values3(it.end())),
{
    let w = it.end.x.value() - it.start.x.value();
    let h = it.end.y.value() - it.start.y.value();
    assert(it.index() == 0) by (nonlinear_arith)
        requires
            it.index() == ((it.z.value() - it.start.z.value()) * h + (it.y.value()
                - it.start.y.value())) * w + (it.x.value() - it.start.x.value()),
            it.x.value() == it.start.x.value(),
            it.y.value() == it.start.y.value(),
            it.z.value() == it.start.z.value(),
    ;
}

} // verus!
