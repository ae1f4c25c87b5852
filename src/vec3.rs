use vstd::prelude::*;
use vstd::std_specs::cmp::PartialEqSpec;
use vstd::std_specs::convert::IntoSpec;
use vstd::std_specs::ops::{AddSpec, DivSpec, MulSpec, RemSpec, SubSpec};
use std::ops::{Add, Div, Mul, Rem, Sub};
use crate::cast::Cast;
use crate::integer::{domain_max, domain_min, in_range, wrap, Integer};
use crate::isqrt::{is_isqrt, Isqrt};
use crate::large_type::{change_range, remap_fits, remapped, LargeType};
use crate::normal_limits::NormalLimits;
use crate::scale::{lemma_scale_round_trip, offset_of, scaled_offset, Scale};
use crate::vec2::{abs, abs_of, Vec2};
use crate::vec3_range_iter::Vec3RangeIter;

verus! {

/// Three dimensional vector. Can be also used as color or any triple on which
/// vector math is of use.
#[derive(Debug, Copy, Clone, Default, PartialEq, Eq)]
pub struct Vec3<T> {
    /// The first coordinate of the vector (x, r, [0]).
    pub x: T,
    /// The second coordinate of the vector (y, g, [1]).
    pub y: T,
    /// The third coordinate of the vector (z, b, [2]).
    pub z: T,
}

/// The integer length squared of the vector.
pub open spec fn sq_len3<T: Integer>(v: Vec3<T>) -> int {
    v.x.value() * v.x.value() + v.y.value() * v.y.value() + v.z.value() * v.z.value()
}

/// The value of the component at index `i`.
pub open spec fn comp<T: Integer>(v: Vec3<T>, i: int) -> int {
    if i == 0 {
        v.x.value()
    } else if i == 1 {
        v.y.value()
    } else {
        v.z.value()
    }
}

/// The component at index `i`.
pub open spec fn at<T>(v: Vec3<T>, i: int) -> T {
    if i == 0 {
        v.x
    } else if i == 1 {
        v.y
    } else {
        v.z
    }
}

/// `v` with the component at index `i` replaced by `c`.
pub open spec fn with<T>(v: Vec3<T>, i: int, c: T) -> Vec3<T> {
    if i == 0 {
        Vec3 { x: c, ..v }
    } else if i == 1 {
        Vec3 { y: c, ..v }
    } else {
        Vec3 { z: c, ..v }
    }
}

/// Whether `a` holds the components of `b` in some order.
pub open spec fn is_perm3<T>(a: Vec3<T>, b: Vec3<T>) -> bool {
    ||| a == b
    ||| a == Vec3 { x: b.x, y: b.z, z: b.y }
    ||| a == Vec3 { x: b.y, y: b.x, z: b.z }
    ||| a == Vec3 { x: b.y, y: b.z, z: b.x }
    ||| a == Vec3 { x: b.z, y: b.x, z: b.y }
    ||| a == Vec3 { x: b.z, y: b.y, z: b.x }
}

/// The lowest index of a component whose value is the largest.
pub open spec fn max_index<T: Integer>(v: Vec3<T>) -> int {
    let (x, y, z) = (v.x.value(), v.y.value(), v.z.value());
    if x >= y && x >= z {
        0
    } else if y >= z {
        1
    } else {
        2
    }
}

/// The lowest index of a component whose value is the smallest.
pub open spec fn min_index<T: Integer>(v: Vec3<T>) -> int {
    let (x, y, z) = (v.x.value(), v.y.value(), v.z.value());
    if x <= y && x <= z {
        0
    } else if y <= z {
        1
    } else {
        2
    }
}

/// Number of distinct values among the components.
pub open spec fn distinct_count<T: Integer>(v: Vec3<T>) -> int {
    let (x, y, z) = (v.x.value(), v.y.value(), v.z.value());
    if x == y && y == z {
        1
    } else if x == y || y == z || x == z {
        2
    } else {
        3
    }
}

/// The three-bit channel `v` widened to eight bits by repeating its pattern.
pub open spec fn expand3(v: int) -> int {
    v * 36 + v / 2
}

/// The two-bit channel `v` widened to eight bits by repeating its pattern.
pub open spec fn expand2(v: int) -> int {
    v * 85
}

/// The 3-3-2 packing of three eight-bit channels: the top three bits of red and
/// green and the top two bits of blue.
pub open spec fn pack332(r: int, g: int, b: int) -> int {
    (r / 32) * 32 + (g / 32) * 4 + b / 64
}

impl<T> Vec3<T> {
    /// Creates new three dimensional vector from its components.
    pub fn new(x: T, y: T, z: T) -> (r: Self)
        ensures
            r.x == x,
            r.y == y,
            r.z == z,
    {
        Self { x, y, z }
    }

    /// Converts a reference to a vector into a vector of references.
    pub fn as_ref(&self) -> (r: Vec3<&T>)
        ensures
            *r.x == self.x,
            *r.y == self.y,
            *r.z == self.z,
    {
        Vec3 { x: &self.x, y: &self.y, z: &self.z }
    }

    /// Converts a mutable reference to a vector into a vector of mutable references.
    pub fn as_mut(&mut self) -> (r: Vec3<&mut T>)
        ensures
            *r.x == old(self).x,
            *r.y == old(self).y,
            *r.z == old(self).z,
            final(self).x == *final(r.x),
            final(self).y == *final(r.y),
            final(self).z == *final(r.z),
    {
        Vec3 { x: &mut self.x, y: &mut self.y, z: &mut self.z }
    }

    /// Maps the individual components.
    pub fn map<R>(self, f: impl Fn(T) -> R) -> (r: Vec3<R>)
        requires
            f.requires((self.x,)),
            f.requires((self.y,)),
            f.requires((self.z,)),
        ensures
            f.ensures((self.x,), r.x),
            f.ensures((self.y,), r.y),
            f.ensures((self.z,), r.z),
    {
        Vec3 { x: f(self.x), y: f(self.y), z: f(self.z) }
    }

    /// Gets the red value. Alias to the coordinate x ([0]).
    pub fn r(&self) -> (r: &T)
        ensures
            *r == self.x,
    {
        &self.x
    }

    /// Gets the green value. Alias to the coordinate y ([1]).
    pub fn g(&self) -> (r: &T)
        ensures
            *r == self.y,
    {
        &self.y
    }

    /// Gets the blue value. Alias to the coordinate z ([2]).
    pub fn b(&self) -> (r: &T)
        ensures
            *r == self.z,
    {
        &self.z
    }

    /// Gets the red value for change. Alias to the coordinate x ([0]).
    pub fn r_mut(&mut self) -> (r: &mut T)
        ensures
            *r == old(self).x,
            final(self).x == *final(r),
            final(self).y == old(self).y,
            final(self).z == old(self).z,
    {
        &mut self.x
    }

    /// Gets the green value for change. Alias to the coordinate y ([1]).
    pub fn g_mut(&mut self) -> (r: &mut T)
        ensures
            *r == old(self).y,
            final(self).y == *final(r),
            final(self).x == old(self).x,
            final(self).z == old(self).z,
    {
        &mut self.y
    }

    /// Gets the blue value for change. Alias to the coordinate z ([2]).
    pub fn b_mut(&mut self) -> (r: &mut T)
        ensures
            *r == old(self).z,
            final(self).z == *final(r),
            final(self).x == old(self).x,
            final(self).y == old(self).y,
    {
        &mut self.z
    }

    /// Sets the red value. Alias to the coordinate x ([0]).
    pub fn set_r(&mut self, r: T)
        ensures
            final(self).x == r,
            final(self).y == old(self).y,
            final(self).z == old(self).z,
    {
        self.x = r;
    }

    /// Sets the green value. Alias to the coordinate y ([1]).
    pub fn set_g(&mut self, g: T)
        ensures
            final(self).y == g,
            final(self).x == old(self).x,
            final(self).z == old(self).z,
    {
        self.y = g;
    }

    /// Sets the blue value. Alias to the coordinate z ([2]).
    pub fn set_b(&mut self, b: T)
        ensures
            final(self).z == b,
            final(self).x == old(self).x,
            final(self).y == old(self).y,
    {
        self.z = b;
    }

    /// Calculates the dot product of two vectors.
    pub fn dot<R>(self, o: Vec3<R>) -> (r: <<T::Output as Add>::Output as Add<T::Output>>::Output)
        where
            T: Mul<R>,
            T::Output: Add,
            <T::Output as Add>::Output: Add<T::Output>,
        requires
            T::obeys_mul_spec(),
            <T::Output as AddSpec>::obeys_add_spec(),
            <<T::Output as Add>::Output as AddSpec<T::Output>>::obeys_add_spec(),
            self.x.mul_req(o.x),
            self.y.mul_req(o.y),
            self.z.mul_req(o.z),
            self.x.mul_spec(o.x).add_req(self.y.mul_spec(o.y)),
            self.x.mul_spec(o.x).add_spec(self.y.mul_spec(o.y)).add_req(self.z.mul_spec(o.z)),
        ensures
            r == self.x.mul_spec(o.x).add_spec(self.y.mul_spec(o.y)).add_spec(self.z.mul_spec(o.z)),
    {
        self.x * o.x + self.y * o.y + self.z * o.z
    }

    /// Calculates the length of the vector squared.
    pub fn sq_len(&self) -> (r: <<T::Output as Add>::Output as Add<T::Output>>::Output)
        where
            T: Copy + Mul,
            T::Output: Add,
            <T::Output as Add>::Output: Add<T::Output>,
        requires
            T::obeys_mul_spec(),
            <T::Output as AddSpec>::obeys_add_spec(),
            <<T::Output as Add>::Output as AddSpec<T::Output>>::obeys_add_spec(),
            self.x.mul_req(self.x),
            self.y.mul_req(self.y),
            self.z.mul_req(self.z),
            self.x.mul_spec(self.x).add_req(self.y.mul_spec(self.y)),
            self.x.mul_spec(self.x).add_spec(self.y.mul_spec(self.y)).add_req(self.z.mul_spec(self.z)),
        ensures
            r == self.x.mul_spec(self.x).add_spec(self.y.mul_spec(self.y)).add_spec(
                self.z.mul_spec(self.z),
            ),
    {
        self.dot(*self)
    }

    /// Calculates the integer length of the vector: the floor of its length.
    pub fn ilen(&self) -> (r: T)
        where
            T: Integer,
        requires
            in_range(sq_len3(*self), T::bits(), T::signed()),
        ensures
            is_isqrt(r.value(), sq_len3(*self)),
    {
        proof {
            T::lemma_ops(self.x, self.x);
            T::lemma_ops(self.y, self.y);
            T::lemma_ops(self.z, self.z);
            assert(self.x.value() * self.x.value() >= 0) by (nonlinear_arith);
            assert(self.y.value() * self.y.value() >= 0) by (nonlinear_arith);
            assert(self.z.value() * self.z.value() >= 0) by (nonlinear_arith);
            T::lemma_ops(self.x.mul_spec(self.x), self.y.mul_spec(self.y));
            T::lemma_ops(
                self.x.mul_spec(self.x).add_spec(self.y.mul_spec(self.y)),
                self.z.mul_spec(self.z),
            );
        }
        self.sq_len().isqrt()
    }

    /// Joins the components of the two vectors with the given function.
    pub fn cjoin<R, O>(self, o: Vec3<R>, f: impl Fn(T, R) -> O) -> (r: Vec3<O>)
        requires
            f.requires((self.x, o.x)),
            f.requires((self.y, o.y)),
            f.requires((self.z, o.z)),
        ensures
            f.ensures((self.x, o.x), r.x),
            f.ensures((self.y, o.y), r.y),
            f.ensures((self.z, o.z), r.z),
    {
        Vec3 { x: f(self.x, o.x), y: f(self.y, o.y), z: f(self.z, o.z) }
    }

    /// Componentwise multiplication.
    pub fn cmul<R>(self, o: Vec3<R>) -> (r: Vec3<T::Output>)
        where
            T: Mul<R>,
        requires
            T::obeys_mul_spec(),
            self.x.mul_req(o.x),
            self.y.mul_req(o.y),
            self.z.mul_req(o.z),
        ensures
            r.x == self.x.mul_spec(o.x),
            r.y == self.y.mul_spec(o.y),
            r.z == self.z.mul_spec(o.z),
    {
        Vec3 { x: self.x * o.x, y: self.y * o.y, z: self.z * o.z }
    }

    /// Componentwise multiplication in place.
    pub fn cmul_assign<R>(&mut self, o: Vec3<R>)
        where
            T: Copy + Mul<R, Output = T>,
        requires
            T::obeys_mul_spec(),
            old(self).x.mul_req(o.x),
            old(self).y.mul_req(o.y),
            old(self).z.mul_req(o.z),
        ensures
            final(self).x == old(self).x.mul_spec(o.x),
            final(self).y == old(self).y.mul_spec(o.y),
            final(self).z == old(self).z.mul_spec(o.z),
    {
        self.x = self.x * o.x;
        self.y = self.y * o.y;
        self.z = self.z * o.z;
    }

    /// Componentwise division.
    pub fn cdiv<R>(self, o: Vec3<R>) -> (r: Vec3<T::Output>)
        where
            T: Div<R>,
        requires
            T::obeys_div_spec(),
            self.x.div_req(o.x),
            self.y.div_req(o.y),
            self.z.div_req(o.z),
        ensures
            r.x == self.x.div_spec(o.x),
            r.y == self.y.div_spec(o.y),
            r.z == self.z.div_spec(o.z),
    {
        Vec3 { x: self.x / o.x, y: self.y / o.y, z: self.z / o.z }
    }

    /// Componentwise division in place.
    pub fn cdiv_assign<R>(&mut self, o: Vec3<R>)
        where
            T: Copy + Div<R, Output = T>,
        requires
            T::obeys_div_spec(),
            old(self).x.div_req(o.x),
            old(self).y.div_req(o.y),
            old(self).z.div_req(o.z),
        ensures
            final(self).x == old(self).x.div_spec(o.x),
            final(self).y == old(self).y.div_spec(o.y),
            final(self).z == old(self).z.div_spec(o.z),
    {
        self.x = self.x / o.x;
        self.y = self.y / o.y;
        self.z = self.z / o.z;
    }

    /// Componentwise remainder.
    pub fn crem<R>(self, o: Vec3<R>) -> (r: Vec3<T::Output>)
        where
            T: Rem<R>,
        requires
            T::obeys_rem_spec(),
            self.x.rem_req(o.x),
            self.y.rem_req(o.y),
            self.z.rem_req(o.z),
        ensures
            r.x == self.x.rem_spec(o.x),
            r.y == self.y.rem_spec(o.y),
            r.z == self.z.rem_spec(o.z),
    {
        Vec3 { x: self.x % o.x, y: self.y % o.y, z: self.z % o.z }
    }

    /// Componentwise remainder in place.
    pub fn crem_assign<R>(&mut self, o: Vec3<R>)
        where
            T: Copy + Rem<R, Output = T>,
        requires
            T::obeys_rem_spec(),
            old(self).x.rem_req(o.x),
            old(self).y.rem_req(o.y),
            old(self).z.rem_req(o.z),
        ensures
            final(self).x == old(self).x.rem_spec(o.x),
            final(self).y == old(self).y.rem_spec(o.y),
            final(self).z == old(self).z.rem_spec(o.z),
    {
        self.x = self.x % o.x;
        self.y = self.y % o.y;
        self.z = self.z % o.z;
    }

    /// Sums all the components.
    pub fn sum(self) -> (r: <T::Output as Add<T>>::Output)
        where
            T: Add,
            T::Output: Add<T>,
        requires
            T::obeys_add_spec(),
            <T::Output as AddSpec<T>>::obeys_add_spec(),
            self.x.add_req(self.y),
            self.x.add_spec(self.y).add_req(self.z),
        ensures
            r == self.x.add_spec(self.y).add_spec(self.z),
    {
        self.x + self.y + self.z
    }

    /// Multiplies all the components.
    pub fn prod(self) -> (r: <T::Output as Mul<T>>::Output)
        where
            T: Mul,
            T::Output: Mul<T>,
        requires
            T::obeys_mul_spec(),
            <T::Output as MulSpec<T>>::obeys_mul_spec(),
            self.x.mul_req(self.y),
            self.x.mul_spec(self.y).mul_req(self.z),
        ensures
            r == self.x.mul_spec(self.y).mul_spec(self.z),
    {
        self.x * self.y * self.z
    }

    /// Checks if all the components are the same.
    pub fn same(&self) -> (r: bool)
        where
            T: PartialEq,
        requires
            T::obeys_eq_spec(),
        ensures
            r == (self.x.eq_spec(&self.y) && self.x.eq_spec(&self.z)),
    {
        self.x == self.y && self.x == self.z
    }

    /// Counts how many different values are in the components: 1, 2 or 3.
    pub fn group_cnt(&self) -> (r: usize)
        where
            T: Integer,
        ensures
            r == distinct_count(*self),
    {
        proof {
            T::lemma_cmp(self.x, self.y);
            T::lemma_cmp(self.x, self.z);
            T::lemma_cmp(self.y, self.z);
        }
        if self.x == self.y {
            if self.x == self.z {
                1
            } else {
                2
            }
        } else if self.x == self.z || self.y == self.z {
            2
        } else {
            3
        }
    }

    /// The component at index `i`.
    fn get(&self, i: usize) -> (r: &T)
        requires
            i < 3,
        ensures
            *r == at(*self, i as int),
    {
        if i == 0 {
            &self.x
        } else if i == 1 {
            &self.y
        } else {
            &self.z
        }
    }

    /// The component at index `i`, for change.
    fn get_mut(&mut self, i: usize) -> (r: &mut T)
        requires
            i < 3,
        ensures
            *r == at(*old(self), i as int),
            *final(self) == with(*old(self), i as int, *final(r)),
    {
        if i == 0 {
            &mut self.x
        } else if i == 1 {
            &mut self.y
        } else {
            &mut self.z
        }
    }

    /// Gets the index of the largest component; of the first one where several are
    /// largest.
    pub fn max_idx(&self) -> (r: usize)
        where
            T: Integer,
        ensures
            r == max_index(*self),
    {
        proof {
            T::lemma_cmp(self.x, self.y);
            T::lemma_cmp(self.z, self.x);
            T::lemma_cmp(self.z, self.y);
            T::lemma_cmp(self.y, self.x);
        }
        if self.z > self.y {
            if self.z > self.x {
                2
            } else {
                0
            }
        } else if self.y > self.x {
            1
        } else {
            0
        }
    }

    /// Gets the largest component; the first one where several are largest.
    pub fn max(&self) -> (r: &T)
        where
            T: Integer,
        ensures
            *r == at(*self, max_index(*self)),
    {
        self.get(self.max_idx())
    }

    /// Gets the largest component for change; the first one where several are
    /// largest.
    pub fn max_mut(&mut self) -> (r: &mut T)
        where
            T: Integer,
        ensures
            *r == at(*old(self), max_index(*old(self))),
            *final(self) == with(*old(self), max_index(*old(self)), *final(r)),
    {
        let i = self.max_idx();
        self.get_mut(i)
    }

    /// Gets the index of the smallest component; of the first one where several are
    /// smallest.
    pub fn min_idx(&self) -> (r: usize)
        where
            T: Integer,
        ensures
            r == min_index(*self),
    {
        proof {
            T::lemma_cmp(self.x, self.y);
            T::lemma_cmp(self.z, self.x);
            T::lemma_cmp(self.z, self.y);
            T::lemma_cmp(self.y, self.x);
        }
        if self.z < self.y {
            if self.z < self.x {
                2
            } else {
                0
            }
        } else if self.y < self.x {
            1
        } else {
            0
        }
    }

    /// Gets the smallest component; the first one where several are smallest.
    pub fn min(&self) -> (r: &T)
        where
            T: Integer,
        ensures
            *r == at(*self, min_index(*self)),
    {
        self.get(self.min_idx())
    }

    /// Gets the smallest component for change; the first one where several are
    /// smallest.
    pub fn min_mut(&mut self) -> (r: &mut T)
        where
            T: Integer,
        ensures
            *r == at(*old(self), min_index(*old(self))),
            *final(self) == with(*old(self), min_index(*old(self)), *final(r)),
    {
        let i = self.min_idx();
        self.get_mut(i)
    }

    /// Gets the index of a component whose value is the median of the three.
    pub fn mid_idx(&self) -> (r: usize)
        where
            T: Integer,
        ensures
            r < 3,
            comp(*self, r as int) == median(*self),
    {
        proof {
            T::lemma_cmp(self.x, self.y);
            T::lemma_cmp(self.z, self.x);
            T::lemma_cmp(self.z, self.y);
            T::lemma_cmp(self.y, self.x);
        }
        if self.z < self.y {
            if self.z < self.x {
                if self.y < self.x {
                    1
                } else {
                    0
                }
            } else {
                2
            }
        } else if self.y < self.x {
            if self.z < self.x {
                2
            } else {
                0
            }
        } else {
            1
        }
    }

    /// Gets a component whose value is the median of the three.
    pub fn mid(&self) -> (r: &T)
        where
            T: Integer,
        ensures
            r.value() == median(*self),
    {
        self.get(self.mid_idx())
    }

    /// Gets a component whose value is the median of the three, for change.
    pub fn mid_mut(&mut self) -> (r: &mut T)
        where
            T: Integer,
        ensures
            r.value() == median(*old(self)),
            exists|i: int|
                0 <= i < 3 && *r == at(*old(self), i) && *final(self) == with(
                    *old(self),
                    i,
                    *final(r),
                ),
    {
        let i = self.mid_idx();
        self.get_mut(i)
    }

    /// Checks if all the components match the predicate.
    pub fn are_all(&self, f: impl Fn(&T) -> bool) -> (r: bool)
        requires
            forall|a: &T| f.requires((a,)),
        ensures
            r ==> f.ensures((&self.x,), true) && f.ensures((&self.y,), true) && f.ensures(
                (&self.z,),
                true,
            ),
            !r ==> f.ensures((&self.x,), false) || f.ensures((&self.y,), false) || f.ensures(
                (&self.z,),
                false,
            ),
    {
        f(&self.x) && f(&self.y) && f(&self.z)
    }

    /// Checks if any of the components match the predicate.
    pub fn is_any(&self, f: impl Fn(&T) -> bool) -> (r: bool)
        requires
            forall|a: &T| f.requires((a,)),
        ensures
            r ==> f.ensures((&self.x,), true) || f.ensures((&self.y,), true) || f.ensures(
                (&self.z,),
                true,
            ),
            !r ==> f.ensures((&self.x,), false) && f.ensures((&self.y,), false) && f.ensures(
                (&self.z,),
                false,
            ),
    {
        f(&self.x) || f(&self.y) || f(&self.z)
    }

    /// Checks if none of the components match the predicate.
    pub fn is_none(&self, f: impl Fn(&T) -> bool) -> (r: bool)
        requires
            forall|a: &T| f.requires((a,)),
        ensures
            r ==> f.ensures((&self.x,), false) && f.ensures((&self.y,), false) && f.ensures(
                (&self.z,),
                false,
            ),
            !r ==> f.ensures((&self.x,), true) || f.ensures((&self.y,), true) || f.ensures(
                (&self.z,),
                true,
            ),
    {
        !f(&self.x) && !f(&self.y) && !f(&self.z)
    }

    /// Checks if at least one component does not match the predicate.
    pub fn is_any_not(&self, f: impl Fn(&T) -> bool) -> (r: bool)
        requires
            forall|a: &T| f.requires((a,)),
        ensures
            r ==> f.ensures((&self.x,), false) || f.ensures((&self.y,), false) || f.ensures(
                (&self.z,),
                false,
            ),
            !r ==> f.ensures((&self.x,), true) && f.ensures((&self.y,), true) && f.ensures(
                (&self.z,),
                true,
            ),
    {
        !f(&self.x) || !f(&self.y) || !f(&self.z)
    }

    /// Counts how many components match the predicate.
    pub fn get_count(&self, f: impl Fn(&T) -> bool) -> (r: usize)
        requires
            forall|a: &T| f.requires((a,)),
        ensures
            exists|a: bool, b: bool, c: bool|
                f.ensures((&self.x,), a) && f.ensures((&self.y,), b) && f.ensures((&self.z,), c)
                    && r == (if a { 1int } else { 0 }) + (if b { 1int } else { 0 }) + (if c {
                    1int
                } else {
                    0
                }),
    {
        let a = f(&self.x);
        let b = f(&self.y);
        let c = f(&self.z);
        let mut n: usize = 0;
        if a {
            n = n + 1;
        }
        if b {
            n = n + 1;
        }
        if c {
            n = n + 1;
        }
        n
    }

    /// Converts the components to the given type.
    pub fn convert<T2>(self) -> (r: Vec3<T2>)
        where
            T: Into<T2>,
        requires
            T::obeys_into_spec(),
        ensures
            r.x == self.x.into_spec(),
            r.y == self.y.into_spec(),
            r.z == self.z.into_spec(),
    {
        Vec3 { x: self.x.into(), y: self.y.into(), z: self.z.into() }
    }

    /// Identity.
    pub fn xyz(self) -> (r: Self)
        ensures
            r == self,
    {
        self
    }

    /// Reorders the components to x, z, y.
    pub fn xzy(self) -> (r: Self)
        ensures
            r.x == self.x,
            r.y == self.z,
            r.z == self.y,
    {
        Vec3 { x: self.x, y: self.z, z: self.y }
    }

    /// Reorders the components to y, x, z.
    pub fn yxz(self) -> (r: Self)
        ensures
            r.x == self.y,
            r.y == self.x,
            r.z == self.z,
    {
        Vec3 { x: self.y, y: self.x, z: self.z }
    }

    /// Reorders the components to y, z, x.
    pub fn yzx(self) -> (r: Self)
        ensures
            r.x == self.y,
            r.y == self.z,
            r.z == self.x,
    {
        Vec3 { x: self.y, y: self.z, z: self.x }
    }

    /// Reorders the components to z, x, y.
    pub fn zxy(self) -> (r: Self)
        ensures
            r.x == self.z,
            r.y == self.x,
            r.z == self.y,
    {
        Vec3 { x: self.z, y: self.x, z: self.y }
    }

    /// Reorders the components to z, y, x.
    pub fn zyx(self) -> (r: Self)
        ensures
            r.x == self.z,
            r.y == self.y,
            r.z == self.x,
    {
        Vec3 { x: self.z, y: self.y, z: self.x }
    }

    /// Splits the vector into x and the pair y, z.
    pub fn x_yz(self) -> (r: (T, Vec2<T>))
        ensures
            r.0 == self.x,
            r.1.x == self.y,
            r.1.y == self.z,
    {
        (self.x, Vec2 { x: self.y, y: self.z })
    }

    /// Splits the vector into x and the pair z, y.
    pub fn x_zy(self) -> (r: (T, Vec2<T>))
        ensures
            r.0 == self.x,
            r.1.x == self.z,
            r.1.y == self.y,
    {
        (self.x, Vec2 { x: self.z, y: self.y })
    }

    /// Splits the vector into y and the pair x, z.
    pub fn y_xz(self) -> (r: (T, Vec2<T>))
        ensures
            r.0 == self.y,
            r.1.x == self.x,
            r.1.y == self.z,
    {
        (self.y, Vec2 { x: self.x, y: self.z })
    }

    /// Splits the vector into y and the pair z, x.
    pub fn y_zx(self) -> (r: (T, Vec2<T>))
        ensures
            r.0 == self.y,
            r.1.x == self.z,
            r.1.y == self.x,
    {
        (self.y, Vec2 { x: self.z, y: self.x })
    }

    /// Splits the vector into z and the pair x, y.
    pub fn z_xy(self) -> (r: (T, Vec2<T>))
        ensures
            r.0 == self.z,
            r.1.x == self.x,
            r.1.y == self.y,
    {
        (self.z, Vec2 { x: self.x, y: self.y })
    }

    /// Splits the vector into z and the pair y, x.
    pub fn z_yx(self) -> (r: (T, Vec2<T>))
        ensures
            r.0 == self.z,
            r.1.x == self.y,
            r.1.y == self.x,
    {
        (self.z, Vec2 { x: self.y, y: self.x })
    }

    /// Gets the components y and z.
    pub fn yz(self) -> (r: Vec2<T>)
        ensures
            r.x == self.y,
            r.y == self.z,
    {
        Vec2 { x: self.y, y: self.z }
    }

    /// Gets the components z and y.
    pub fn zy(self) -> (r: Vec2<T>)
        ensures
            r.x == self.z,
            r.y == self.y,
    {
        Vec2 { x: self.z, y: self.y }
    }

    /// Splits the vector into y and the pair x, z.
    pub fn xz(self) -> (r: (T, Vec2<T>))
        ensures
            r.0 == self.y,
            r.1.x == self.x,
            r.1.y == self.z,
    {
        (self.y, Vec2 { x: self.x, y: self.z })
    }

    /// Gets the components z and x.
    pub fn zx(self) -> (r: Vec2<T>)
        ensures
            r.x == self.z,
            r.y == self.x,
    {
        Vec2 { x: self.z, y: self.x }
    }

    /// Gets the components x and y.
    pub fn xy(self) -> (r: Vec2<T>)
        ensures
            r.x == self.x,
            r.y == self.y,
    {
        Vec2 { x: self.x, y: self.y }
    }

    /// Gets the components y and x.
    pub fn yx(self) -> (r: Vec2<T>)
        ensures
            r.x == self.y,
            r.y == self.x,
    {
        Vec2 { x: self.y, y: self.x }
    }

    /// Creates a sorted copy of the vector.
    pub fn sorted(self) -> (r: Self)
        where
            T: Integer,
        ensures
            is_perm3(r, self),
            r.x.value() <= r.y.value() <= r.z.value(),
    {
        proof {
            T::lemma_cmp(self.x, self.y);
            T::lemma_cmp(self.z, self.x);
            T::lemma_cmp(self.z, self.y);
            T::lemma_cmp(self.y, self.x);
        }
        if self.z < self.y {
            if self.z < self.x {
                if self.y < self.x {
                    self.zyx()
                } else {
                    self.zxy()
                }
            } else {
                self.xzy()
            }
        } else if self.y < self.x {
            if self.z < self.x {
                self.yzx()
            } else {
                self.yxz()
            }
        } else {
            self.xyz()
        }
    }

    /// Sorts the components.
    pub fn sort(&mut self)
        where
            T: Integer,
        ensures
            is_perm3(*final(self), *old(self)),
            final(self).x.value() <= final(self).y.value() <= final(self).z.value(),
    {
        proof {
            T::lemma_cmp(self.x, self.y);
            T::lemma_cmp(self.z, self.x);
            T::lemma_cmp(self.z, self.y);
            T::lemma_cmp(self.y, self.x);
        }
        let ghost o = *self;
        if self.z < self.y {
            if self.z < self.x {
                std::mem::swap(&mut self.z, &mut self.x);
                proof {
                    T::lemma_cmp(self.y, self.z);
                }
                if self.y > self.z {
                    std::mem::swap(&mut self.z, &mut self.y);
                }
            } else {
                std::mem::swap(&mut self.z, &mut self.y);
            }
        } else if self.y < self.x {
            std::mem::swap(&mut self.y, &mut self.x);
            proof {
                T::lemma_cmp(self.z, self.y);
            }
            if self.z < self.y {
                std::mem::swap(&mut self.z, &mut self.y);
            }
        }
        proof {
            assert(is_perm3(*self, o));
        }
    }

    /// Casts the components to another domain, wrapping around on overflow.
    pub fn cast<O: Integer>(self) -> (r: Vec3<O>)
        where
            T: Cast<O>,
        ensures
            r.x.value() == wrap(self.x.value(), O::bits(), O::signed()),
            r.y.value() == wrap(self.y.value(), O::bits(), O::signed()),
            r.z.value() == wrap(self.z.value(), O::bits(), O::signed()),
    {
        Vec3 { x: self.x.cast(), y: self.y.cast(), z: self.z.cast() }
    }

    /// Gets the position of the element at index `i` of a container that holds a
    /// 3D space of the size of this vector, x varying fastest, then y, then z.
    /// Inverse to [`Self::idx_of_pos`].
    pub fn pos_of_idx(self, i: T) -> (r: Vec3<T>)
        where
            T: Integer,
        requires
            self.x.value() > 0,
            self.y.value() > 0,
            in_range(self.x.value() * self.y.value(), T::bits(), T::signed()),
            i.value() >= 0,
        ensures
            r.x.value() == (i.value() % (self.x.value() * self.y.value())) % self.x.value(),
            r.y.value() == (i.value() % (self.x.value() * self.y.value())) / self.x.value(),
            r.z.value() == i.value() / (self.x.value() * self.y.value()),
    {
        proof {
            T::lemma_ops(self.x, self.y);
        }
        let xy = self.x * self.y;
        proof {
            assert(self.x.value() * self.y.value() > 0) by (nonlinear_arith)
                requires
                    self.x.value() > 0,
                    self.y.value() > 0,
            ;
            T::lemma_ops(i, xy);
            i.lemma_domain();
            let a = xy.value();
            let b = i.value();
            assert(0 <= b % a < a && 0 <= b / a <= b) by (nonlinear_arith)
                requires
                    a > 0,
                    b >= 0,
            ;
            let i2 = b % a;
            assert(0 <= i2 / self.x.value() <= i2) by (nonlinear_arith)
                requires
                    self.x.value() > 0,
                    i2 >= 0,
            ;
        }
        let i2 = i % xy;
        proof {
            T::lemma_ops(i2, self.x);
            i2.lemma_domain();
        }
        Vec3 { x: i2 % self.x, y: i2 / self.x, z: i / xy }
    }

    /// Gets the index in a container that holds a 3D space of the size of this
    /// vector, x varying fastest, then y, then z, of the element at position `pos`.
    /// Inverse to [`Self::pos_of_idx`].
    pub fn idx_of_pos(self, pos: Vec3<T>) -> (r: T)
        where
            T: Integer,
        requires
            in_range(self.x.value() * self.y.value(), T::bits(), T::signed()),
            in_range(self.x.value() * self.y.value() * pos.z.value(), T::bits(), T::signed()),
            in_range(self.x.value() * pos.y.value(), T::bits(), T::signed()),
            in_range(self.x.value() * self.y.value() * pos.z.value() + self.x.value() * pos.y.value(),
                T::bits(), T::signed()),
            in_range(self.x.value() * self.y.value() * pos.z.value() + self.x.value() * pos.y.value()
                + pos.x.value(), T::bits(), T::signed()),
        ensures
            r.value() == self.x.value() * self.y.value() * pos.z.value() + self.x.value()
                * pos.y.value() + pos.x.value(),
    {
        proof {
            T::lemma_ops(self.x, self.y);
            T::lemma_ops(self.x.mul_spec(self.y), pos.z);
            T::lemma_ops(self.x, pos.y);
            T::lemma_ops(self.x.mul_spec(self.y).mul_spec(pos.z), self.x.mul_spec(pos.y));
            T::lemma_ops(
                self.x.mul_spec(self.y).mul_spec(pos.z).add_spec(self.x.mul_spec(pos.y)),
                pos.x,
            );
        }
        self.x * self.y * pos.z + self.x * pos.y + pos.x
    }

    /// Scales the vector to another domain: the full range of the one maps onto
    /// the full range of the other.
    pub fn scale<S: Integer>(self) -> (r: Vec3<S>)
        where
            T: Scale<S>,
        ensures
            offset_of(r.x) == scaled_offset(offset_of(self.x), T::bits(), S::bits()),
            offset_of(r.y) == scaled_offset(offset_of(self.y), T::bits(), S::bits()),
            offset_of(r.z) == scaled_offset(offset_of(self.z), T::bits(), S::bits()),
    {
        Vec3 { x: self.x.scale(), y: self.y.scale(), z: self.z.scale() }
    }

    /// Calculates the right-handed cross product of two vectors.
    pub fn cross<R: Copy>(self, o: Vec3<R>) -> (r: Vec3<<T::Output as Sub>::Output>)
        where
            T: Copy + Mul<R>,
            T::Output: Sub,
        requires
            T::obeys_mul_spec(),
            <T::Output as SubSpec>::obeys_sub_spec(),
            self.y.mul_req(o.z),
            self.z.mul_req(o.y),
            self.z.mul_req(o.x),
            self.x.mul_req(o.z),
            self.x.mul_req(o.y),
            self.y.mul_req(o.x),
            self.y.mul_spec(o.z).sub_req(self.z.mul_spec(o.y)),
            self.z.mul_spec(o.x).sub_req(self.x.mul_spec(o.z)),
            self.x.mul_spec(o.y).sub_req(self.y.mul_spec(o.x)),
        ensures
            r.x == self.y.mul_spec(o.z).sub_spec(self.z.mul_spec(o.y)),
            r.y == self.z.mul_spec(o.x).sub_spec(self.x.mul_spec(o.z)),
            r.z == self.x.mul_spec(o.y).sub_spec(self.y.mul_spec(o.x)),
    {
        Vec3 {
            x: self.y * o.z - self.z * o.y,
            y: self.z * o.x - self.x * o.z,
            z: self.x * o.y - self.y * o.x,
        }
    }

    /// Changes the range of the components from `ss..=se` to `ds..=de`.
    pub fn change_range(self, ss: T, se: T, ds: T, de: T) -> (r: Vec3<T>)
        where
            T: LargeType,
        requires
            se.value() != ss.value(),
            remap_fits(self.x.value(), ss.value(), se.value(), ds.value(), de.value(),
                <T::Large as Integer>::bits(), <T::Large as Integer>::signed()),
            remap_fits(self.y.value(), ss.value(), se.value(), ds.value(), de.value(),
                <T::Large as Integer>::bits(), <T::Large as Integer>::signed()),
            remap_fits(self.z.value(), ss.value(), se.value(), ds.value(), de.value(),
                <T::Large as Integer>::bits(), <T::Large as Integer>::signed()),
        ensures
            r.x.value() == wrap(remapped(self.x.value(), ss.value(), se.value(), ds.value(),
                de.value()), T::bits(), T::signed()),
            r.y.value() == wrap(remapped(self.y.value(), ss.value(), se.value(), ds.value(),
                de.value()), T::bits(), T::signed()),
            r.z.value() == wrap(remapped(self.z.value(), ss.value(), se.value(), ds.value(),
                de.value()), T::bits(), T::signed()),
    {
        Vec3 {
            x: change_range(self.x, ss, se, ds, de),
            y: change_range(self.y, ss, se, ds, de),
            z: change_range(self.z, ss, se, ds, de),
        }
    }

    /// Transforms the components from the normal range to the range `s..=e`.
    pub fn norm_to_range(self, s: T, e: T) -> (r: Vec3<T>)
        where
            T: LargeType,
        requires
            remap_fits(self.x.value(), domain_min(T::bits(), T::signed()), domain_max(T::bits(), T::signed()), s.value(), e.value(),
                <T::Large as Integer>::bits(), <T::Large as Integer>::signed()),
            remap_fits(self.y.value(), domain_min(T::bits(), T::signed()), domain_max(T::bits(), T::signed()), s.value(), e.value(),
                <T::Large as Integer>::bits(), <T::Large as Integer>::signed()),
            remap_fits(self.z.value(), domain_min(T::bits(), T::signed()), domain_max(T::bits(), T::signed()), s.value(), e.value(),
                <T::Large as Integer>::bits(), <T::Large as Integer>::signed()),
        ensures
            r.x.value() == wrap(remapped(self.x.value(), domain_min(T::bits(), T::signed()), domain_max(T::bits(), T::signed()), s.value(), e.value()),
                T::bits(), T::signed()),
            r.y.value() == wrap(remapped(self.y.value(), domain_min(T::bits(), T::signed()), domain_max(T::bits(), T::signed()), s.value(), e.value()),
                T::bits(), T::signed()),
            r.z.value() == wrap(remapped(self.z.value(), domain_min(T::bits(), T::signed()), domain_max(T::bits(), T::signed()), s.value(), e.value()),
                T::bits(), T::signed()),
    {
        proof {
            T::lemma_bits();
            crate::integer::lemma_widths();
        }
        self.change_range(T::norm_min(), T::norm_max(), s, e)
    }

    /// Transforms the components from the range `s..=e` to the normal range.
    pub fn to_norm_range(self, s: T, e: T) -> (r: Vec3<T>)
        where
            T: LargeType,
        requires
            s.value() != e.value(),
            remap_fits(self.x.value(), s.value(), e.value(), domain_min(T::bits(), T::signed()), domain_max(T::bits(), T::signed()),
                <T::Large as Integer>::bits(), <T::Large as Integer>::signed()),
            remap_fits(self.y.value(), s.value(), e.value(), domain_min(T::bits(), T::signed()), domain_max(T::bits(), T::signed()),
                <T::Large as Integer>::bits(), <T::Large as Integer>::signed()),
            remap_fits(self.z.value(), s.value(), e.value(), domain_min(T::bits(), T::signed()), domain_max(T::bits(), T::signed()),
                <T::Large as Integer>::bits(), <T::Large as Integer>::signed()),
        ensures
            r.x.value() == wrap(remapped(self.x.value(), s.value(), e.value(), domain_min(T::bits(), T::signed()), domain_max(T::bits(), T::signed())),
                T::bits(), T::signed()),
            r.y.value() == wrap(remapped(self.y.value(), s.value(), e.value(), domain_min(T::bits(), T::signed()), domain_max(T::bits(), T::signed())),
                T::bits(), T::signed()),
            r.z.value() == wrap(remapped(self.z.value(), s.value(), e.value(), domain_min(T::bits(), T::signed()), domain_max(T::bits(), T::signed())),
                T::bits(), T::signed()),
    {
        self.change_range(s, e, T::norm_min(), T::norm_max())
    }

    /// Calculates the absolute value of each component.
    pub fn cabs(self) -> (r: Vec3<T>)
        where
            T: Integer,
        requires
            self.x.value() != domain_min(T::bits(), T::signed()) || !T::signed(),
            self.y.value() != domain_min(T::bits(), T::signed()) || !T::signed(),
            self.z.value() != domain_min(T::bits(), T::signed()) || !T::signed(),
        ensures
            r.x.value() == abs(self.x.value()),
            r.y.value() == abs(self.y.value()),
            r.z.value() == abs(self.z.value()),
    {
        Vec3 { x: abs_of(self.x), y: abs_of(self.y), z: abs_of(self.z) }
    }

    /// Creates the range of positions from this vector (inclusive) to the other
    /// (exclusive).
    pub fn to(self, other: Vec3<T>) -> (r: Vec3RangeIter<T>)
        where
            T: Integer,
        ensures
            r.wf(),
            r.start() == self,
            r.end() == other,
            r.index() == 0,
    {
        Vec3RangeIter::new(self, other)
    }
}

impl<T: Integer> Vec3<T> {
    /// Creates a color from its 3-3-2 packing: three bits of red, three of green
    /// and two of blue, each widened by repeating its pattern.
    pub fn from_332(c: u8) -> (r: Self)
        where
            u8: Scale<T>,
        ensures
            offset_of(r.x) == scaled_offset(expand3(c as int / 32), 8, T::bits()),
            offset_of(r.y) == scaled_offset(expand3((c as int / 4) % 8), 8, T::bits()),
            offset_of(r.z) == scaled_offset(expand2(c as int % 4), 8, T::bits()),
    {
        let r3 = c >> 5;
        let g3 = (c >> 2) & 7;
        let b2 = c & 3;
        proof {
            assert(r3 == c / 32) by (bit_vector)
                requires
                    r3 == c >> 5,
            ;
            assert(g3 == (c / 4) % 8) by (bit_vector)
                requires
                    g3 == (c >> 2) & 7,
            ;
            assert(b2 == c % 4) by (bit_vector)
                requires
                    b2 == c & 3,
            ;
            assert(((r3 << 5) | (r3 << 2) | (r3 >> 1)) == r3 * 36 + r3 / 2) by (bit_vector)
                requires
                    r3 < 8,
            ;
            assert(((g3 << 5) | (g3 << 2) | (g3 >> 1)) == g3 * 36 + g3 / 2) by (bit_vector)
                requires
                    g3 < 8,
            ;
            assert(((b2 | (b2 << 2)) | ((b2 | (b2 << 2)) << 4)) == b2 * 85) by (bit_vector)
                requires
                    b2 < 4,
            ;
        }
        let r = (r3 << 5) | (r3 << 2) | (r3 >> 1);
        let g = (g3 << 5) | (g3 << 2) | (g3 >> 1);
        let mut b = b2 | (b2 << 2);
        b = b | (b << 4);
        Vec3 { x: r, y: g, z: b }.scale()
    }

    /// Converts this color to its 3-3-2 packing: the top three bits of red and
    /// green and the top two bits of blue, once scaled to eight bits.
    pub fn to_332(self) -> (r: u8)
        where
            T: Scale<u8>,
        ensures
            r == pack332(
                scaled_offset(offset_of(self.x), T::bits(), 8),
                scaled_offset(offset_of(self.y), T::bits(), 8),
                scaled_offset(offset_of(self.z), T::bits(), 8),
            ),
    {
        let v: Vec3<u8> = self.scale();
        let (r, g, b) = (v.x, v.y, v.z);
        proof {
            assert(((r & 0b1110_0000) | ((g >> 3) & 0b1_1100) | (b >> 6)) == (r / 32) * 32 + (g
                / 32) * 4 + b / 64) by (bit_vector);
        }
        (r & 0b1110_0000) | ((g >> 3) & 0b1_1100) | (b >> 6)
    }
}

/// Index and position are inverse: for every index `i` of a space of extent `e`,
/// the position that `pos_of_idx` gives maps back to `i` through `idx_of_pos`, and
/// that call's intermediate values fit the domain.
pub proof fn lemma_idx_of_pos_of_idx<T: Integer>(e: Vec3<T>, i: T)
    requires
        e.x.value() > 0,
        e.y.value() > 0,
        in_range(e.x.value() * e.y.value(), T::bits(), T::signed()),
        0 <= i.value() < e.x.value() * e.y.value() * e.z.value(),
    ensures
        ({
            let (x, y, v) = (e.x.value(), e.y.value(), i.value());
            let px = (v % (x * y)) % x;
            let py = (v % (x * y)) / x;
            let pz = v / (x * y);
            &&& in_range(x * y * pz, T::bits(), T::signed())
            &&& in_range(x * py, T::bits(), T::signed())
            &&& in_range(x * y * pz + x * py, T::bits(), T::signed())
            &&& in_range(x * y * pz + x * py + px, T::bits(), T::signed())
            &&& x * y * pz + x * py + px == v
        }),
{
    let (x, y, v) = (e.x.value(), e.y.value(), i.value());
    i.lemma_domain();
    let a = x * y;
    assert(a > 0) by (nonlinear_arith)
        requires
            x > 0,
            y > 0,
            a == x * y,
    ;
    let r = v % a;
    let pz = v / a;
    assert(a * pz + r == v && 0 <= r < a && 0 <= a * pz <= v) by (nonlinear_arith)
        requires
            a > 0,
            v >= 0,
            r == v % a,
            pz == v / a,
    ;
    let px = r % x;
    let py = r / x;
    assert(x * py + px == r && 0 <= x * py <= r && 0 <= px) by (nonlinear_arith)
        requires
            x > 0,
            r >= 0,
            px == r % x,
            py == r / x,
    ;
    assert(x * y * pz == a * pz);
}

/// A 3-3-2 color expanded into any domain and packed again gives back the same
/// byte.
pub proof fn lemma_332_round_trip<T: Integer>(c: u8)
    ensures
        pack332(
            scaled_offset(scaled_offset(expand3(c as int / 32), 8, T::bits()), T::bits(), 8),
            scaled_offset(scaled_offset(expand3((c as int / 4) % 8), 8, T::bits()), T::bits(), 8),
            scaled_offset(scaled_offset(expand2(c as int % 4), 8, T::bits()), T::bits(), 8),
        ) == c,
{
    T::lemma_bits();
    crate::integer::lemma_widths();
    let r3 = c / 32;
    let g3 = (c / 4) % 8;
    let b2 = c % 4;
    assert(r3 < 8 && g3 < 8 && b2 < 4);
    lemma_scale_round_trip(expand3(r3 as int), 8, T::bits());
    lemma_scale_round_trip(expand3(g3 as int), 8, T::bits());
    lemma_scale_round_trip(expand2(b2 as int), 8, T::bits());
    let r8 = (r3 * 36 + r3 / 2) as u8;
    let g8 = (g3 * 36 + g3 / 2) as u8;
    let b8 = (b2 * 85) as u8;
    assert((r8 / 32) * 32 + (g8 / 32) * 4 + b8 / 64 == c) by (bit_vector)
        requires
            r3 == c / 32,
            g3 == (c / 4) % 8,
            b2 == c % 4,
            r8 == r3 * 36 + r3 / 2,
            g8 == g3 * 36 + g3 / 2,
            b8 == b2 * 85,
    ;
}

/// The median of the three component values.
pub open spec fn median<T: Integer>(v: Vec3<T>) -> int {
    let (x, y, z) = (v.x.value(), v.y.value(), v.z.value());
    if (y <= x && x <= z) || (z <= x && x <= y) {
        x
    } else if (x <= y && y <= z) || (z <= y && y <= x) {
        y
    } else {
        z
    }
}

impl<'a, T> Vec3<&'a T> {
    /// Clones the values that the components refer to.
    pub fn cloned(self) -> (r: Vec3<T>)
        where
            T: Clone,
        ensures
            call_ensures(T::clone, (self.x,), r.x),
            call_ensures(T::clone, (self.y,), r.y),
            call_ensures(T::clone, (self.z,), r.z),
    {
        Vec3 { x: self.x.clone(), y: self.y.clone(), z: self.z.clone() }
    }

    /// Copies the values that the components refer to.
    pub fn copied(self) -> (r: Vec3<T>)
        where
            T: Copy,
        ensures
            r.x == *self.x,
            r.y == *self.y,
            r.z == *self.z,
    {
        Vec3 { x: *self.x, y: *self.y, z: *self.z }
    }
}

impl Vec3<bool> {
    /// Checks if all values are true.
    pub fn all(self) -> (r: bool)
        ensures
            r == (self.x && self.y && self.z),
    {
        self.x && self.y && self.z
    }

    /// Checks if any value is true.
    pub fn any(self) -> (r: bool)
        ensures
            r == (self.x || self.y || self.z),
    {
        self.x || self.y || self.z
    }

    /// Checks if no value is true.
    pub fn none(self) -> (r: bool)
        ensures
            r == !(self.x || self.y || self.z),
    {
        !self.any()
    }

    /// Checks if at least one value is not true.
    pub fn not_all(self) -> (r: bool)
        ensures
            r == !(self.x && self.y && self.z),
    {
        !self.all()
    }

    /// Counts the true values.
    pub fn count(self) -> (r: usize)
        ensures
            r == (if self.x { 1int } else { 0 }) + (if self.y { 1int } else { 0 }) + (if self.z {
                1int
            } else {
                0
            }),
    {
        let mut n: usize = 0;
        if self.x {
            n = n + 1;
        }
        if self.y {
            n = n + 1;
        }
        if self.z {
            n = n + 1;
        }
        n
    }
}

impl<L: Add<R>, R> Add<Vec3<R>> for Vec3<L> {
    type Output = Vec3<L::Output>;

    fn add(self, rhs: Vec3<R>) -> (r: Vec3<L::Output>) {
        Vec3 { x: self.x + rhs.x, y: self.y + rhs.y, z: self.z + rhs.z }
    }
}

impl<L: Add<R>, R> vstd::std_specs::ops::AddSpecImpl<Vec3<R>> for Vec3<L> {
    open spec fn obeys_add_spec() -> bool {
        L::obeys_add_spec()
    }

    open spec fn add_req(self, rhs: Vec3<R>) -> bool {
        self.x.add_req(rhs.x) && self.y.add_req(rhs.y) && self.z.add_req(rhs.z)
    }

    open spec fn add_spec(self, rhs: Vec3<R>) -> Vec3<L::Output> {
        Vec3 { x: self.x.add_spec(rhs.x), y: self.y.add_spec(rhs.y), z: self.z.add_spec(rhs.z) }
    }
}

impl<L: Sub<R>, R> Sub<Vec3<R>> for Vec3<L> {
    type Output = Vec3<L::Output>;

    fn sub(self, rhs: Vec3<R>) -> (r: Vec3<L::Output>) {
        Vec3 { x: self.x - rhs.x, y: self.y - rhs.y, z: self.z - rhs.z }
    }
}

impl<L: Sub<R>, R> vstd::std_specs::ops::SubSpecImpl<Vec3<R>> for Vec3<L> {
    open spec fn obeys_sub_spec() -> bool {
        L::obeys_sub_spec()
    }

    open spec fn sub_req(self, rhs: Vec3<R>) -> bool {
        self.x.sub_req(rhs.x) && self.y.sub_req(rhs.y) && self.z.sub_req(rhs.z)
    }

    open spec fn sub_spec(self, rhs: Vec3<R>) -> Vec3<L::Output> {
        Vec3 { x: self.x.sub_spec(rhs.x), y: self.y.sub_spec(rhs.y), z: self.z.sub_spec(rhs.z) }
    }
}

impl<L: Mul<R>, R: Copy> Mul<R> for Vec3<L> {
    type Output = Vec3<L::Output>;

    fn mul(self, rhs: R) -> (r: Vec3<L::Output>) {
        Vec3 { x: self.x * rhs, y: self.y * rhs, z: self.z * rhs }
    }
}

impl<L: Mul<R>, R: Copy> vstd::std_specs::ops::MulSpecImpl<R> for Vec3<L> {
    open spec fn obeys_mul_spec() -> bool {
        L::obeys_mul_spec()
    }

    open spec fn mul_req(self, rhs: R) -> bool {
        self.x.mul_req(rhs) && self.y.mul_req(rhs) && self.z.mul_req(rhs)
    }

    open spec fn mul_spec(self, rhs: R) -> Vec3<L::Output> {
        Vec3 { x: self.x.mul_spec(rhs), y: self.y.mul_spec(rhs), z: self.z.mul_spec(rhs) }
    }
}

impl<L: Div<R>, R: Copy> Div<R> for Vec3<L> {
    type Output = Vec3<L::Output>;

    fn div(self, rhs: R) -> (r: Vec3<L::Output>) {
        Vec3 { x: self.x / rhs, y: self.y / rhs, z: self.z / rhs }
    }
}

impl<L: Div<R>, R: Copy> vstd::std_specs::ops::DivSpecImpl<R> for Vec3<L> {
    open spec fn obeys_div_spec() -> bool {
        L::obeys_div_spec()
    }

    open spec fn div_req(self, rhs: R) -> bool {
        self.x.div_req(rhs) && self.y.div_req(rhs) && self.z.div_req(rhs)
    }

    open spec fn div_spec(self, rhs: R) -> Vec3<L::Output> {
        Vec3 { x: self.x.div_spec(rhs), y: self.y.div_spec(rhs), z: self.z.div_spec(rhs) }
    }
}

impl<L: Rem<R>, R: Copy> Rem<R> for Vec3<L> {
    type Output = Vec3<L::Output>;

    fn rem(self, rhs: R) -> (r: Vec3<L::Output>) {
        Vec3 { x: self.x % rhs, y: self.y % rhs, z: self.z % rhs }
    }
}

impl<L: Rem<R>, R: Copy> vstd::std_specs::ops::RemSpecImpl<R> for Vec3<L> {
    open spec fn obeys_rem_spec() -> bool {
        L::obeys_rem_spec()
    }

    open spec fn rem_req(self, rhs: R) -> bool {
        self.x.rem_req(rhs) && self.y.rem_req(rhs) && self.z.rem_req(rhs)
    }

    open spec fn rem_spec(self, rhs: R) -> Vec3<L::Output> {
        Vec3 { x: self.x.rem_spec(rhs), y: self.y.rem_spec(rhs), z: self.z.rem_spec(rhs) }
    }
}

impl<T> From<(T, T, T)> for Vec3<T> {
    fn from(t: (T, T, T)) -> (r: Self) {
        Vec3 { x: t.0, y: t.1, z: t.2 }
    }
}

impl<T> vstd::std_specs::convert::FromSpecImpl<(T, T, T)> for Vec3<T> {
    open spec fn obeys_from_spec() -> bool {
        true
    }

    open spec fn from_spec(t: (T, T, T)) -> Self {
        Vec3 { x: t.0, y: t.1, z: t.2 }
    }
}

} // verus!
