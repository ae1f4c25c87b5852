use vstd::prelude::*;
use vstd::std_specs::cmp::PartialEqSpec;
use vstd::std_specs::convert::IntoSpec;
use vstd::std_specs::ops::{AddSpec, DivSpec, MulSpec, RemSpec, SubSpec};
use std::ops::{Add, Div, Mul, Rem, Sub};
use crate::cast::Cast;
use crate::integer::{domain_max, domain_min, in_range, wrap, Integer};
use crate::isqrt::{is_isqrt, Isqrt};
use crate::large_type::{change_range, remap_fits, remapped, LargeType};
use crate::normal_limits::NormalLimits;
use crate::scale::{offset_of, scaled_offset, Scale};
use crate::vec2_range_iter::Vec2RangeIter;
use crate::zero::Zero;

verus! {

/// Two dimensional vector. Can be used as vector, point, size or any pair on
/// which vector math is of use.
#[derive(Debug, Copy, Clone, Default, PartialEq, Eq)]
pub struct Vec2<T> {
    /// The first coordinate of the vector (x, w, [0]).
    pub x: T,
    /// The second coordinate of the vector (y, h, [1]).
    pub y: T,
}

/// The integer length squared of the vector.
pub open spec fn sq_len_of<T: Integer>(v: Vec2<T>) -> int {
    v.x.value() * v.x.value() + v.y.value() * v.y.value()
}

impl<T> Vec2<T> {
    /// Creates new two dimensional vector from its components.
    pub fn new(x: T, y: T) -> (r: Self)
        ensures
            r.x == x,
            r.y == y,
    {
        Self { x, y }
    }

    /// Gets the width. Alias to the first coordinate (x, [0]).
    pub fn w(&self) -> (r: &T)
        ensures
            *r == self.x,
    {
        &self.x
    }

    /// Gets the height. Alias to the second coordinate (y, [1]).
    pub fn h(&self) -> (r: &T)
        ensures
            *r == self.y,
    {
        &self.y
    }

    /// Gets the width for change. Alias to the first coordinate (x, [0]).
    pub fn w_mut(&mut self) -> (r: &mut T)
        ensures
            *r == old(self).x,
            final(self).x == *final(r),
            final(self).y == old(self).y,
    {
        &mut self.x
    }

    /// Gets the height for change. Alias to the second coordinate (y, [1]).
    pub fn h_mut(&mut self) -> (r: &mut T)
        ensures
            *r == old(self).y,
            final(self).x == old(self).x,
            final(self).y == *final(r),
    {
        &mut self.y
    }

    /// Sets the width. Alias to the first coordinate (x, [0]).
    pub fn set_w(&mut self, w: T)
        ensures
            final(self).x == w,
            final(self).y == old(self).y,
    {
        self.x = w;
    }

    /// Sets the height. Alias to the second coordinate (y, [1]).
    pub fn set_h(&mut self, h: T)
        ensures
            final(self).x == old(self).x,
            final(self).y == h,
    {
        self.y = h;
    }

    /// Gets the length of the vector squared.
    pub fn sq_len(&self) -> (r: <T::Output as Add>::Output)
        where
            T: Copy + Mul,
            T::Output: Add,
        requires
            T::obeys_mul_spec(),
            <T::Output as AddSpec>::obeys_add_spec(),
            self.x.mul_req(self.x),
            self.y.mul_req(self.y),
            self.x.mul_spec(self.x).add_req(self.y.mul_spec(self.y)),
        ensures
            r == self.x.mul_spec(self.x).add_spec(self.y.mul_spec(self.y)),
    {
        self.dot(*self)
    }

    /// Gets the integer length of the vector: the floor of its length.
    pub fn ilen(&self) -> (r: T)
        where
            T: Integer,
        requires
            in_range(sq_len_of(*self), T::bits(), T::signed()),
        ensures
            is_isqrt(r.value(), sq_len_of(*self)),
    {
        proof {
            T::lemma_ops(self.x, self.x);
            T::lemma_ops(self.y, self.y);
            assert(self.x.value() * self.x.value() >= 0) by (nonlinear_arith);
            assert(self.y.value() * self.y.value() >= 0) by (nonlinear_arith);
            T::lemma_ops(self.x.mul_spec(self.x), self.y.mul_spec(self.y));
        }
        self.sq_len().isqrt()
    }

    /// Calculates the dot product of the two vectors.
    pub fn dot<R>(self, o: Vec2<R>) -> (r: <T::Output as Add>::Output)
        where
            T: Mul<R>,
            T::Output: Add,
        requires
            T::obeys_mul_spec(),
            <T::Output as AddSpec>::obeys_add_spec(),
            self.x.mul_req(o.x),
            self.y.mul_req(o.y),
            self.x.mul_spec(o.x).add_req(self.y.mul_spec(o.y)),
        ensures
            r == self.x.mul_spec(o.x).add_spec(self.y.mul_spec(o.y)),
    {
        self.x * o.x + self.y * o.y
    }

    /// Joins the components of the two vectors with the given function.
    pub fn cjoin<R, O>(self, o: Vec2<R>, f: impl Fn(T, R) -> O) -> (r: Vec2<O>)
        requires
            f.requires((self.x, o.x)),
            f.requires((self.y, o.y)),
        ensures
            f.ensures((self.x, o.x), r.x),
            f.ensures((self.y, o.y), r.y),
    {
        Vec2 { x: f(self.x, o.x), y: f(self.y, o.y) }
    }

    /// Componentwise multiplication.
    pub fn cmul<R>(self, o: Vec2<R>) -> (r: Vec2<T::Output>)
        where
            T: Mul<R>,
        requires
            T::obeys_mul_spec(),
            self.x.mul_req(o.x),
            self.y.mul_req(o.y),
        ensures
            r.x == self.x.mul_spec(o.x),
            r.y == self.y.mul_spec(o.y),
    {
        Vec2 { x: self.x * o.x, y: self.y * o.y }
    }

    /// Componentwise multiplication in place.
    pub fn cmul_assign<R>(&mut self, o: Vec2<R>)
        where
            T: Copy + Mul<R, Output = T>,
        requires
            T::obeys_mul_spec(),
            old(self).x.mul_req(o.x),
            old(self).y.mul_req(o.y),
        ensures
            final(self).x == old(self).x.mul_spec(o.x),
            final(self).y == old(self).y.mul_spec(o.y),
    {
        self.x = self.x * o.x;
        self.y = self.y * o.y;
    }

    /// Componentwise division.
    pub fn cdiv<R>(self, o: Vec2<R>) -> (r: Vec2<T::Output>)
        where
            T: Div<R>,
        requires
            T::obeys_div_spec(),
            self.x.div_req(o.x),
            self.y.div_req(o.y),
        ensures
            r.x == self.x.div_spec(o.x),
            r.y == self.y.div_spec(o.y),
    {
        Vec2 { x: self.x / o.x, y: self.y / o.y }
    }

    /// Componentwise division in place.
    pub fn cdiv_assign<R>(&mut self, o: Vec2<R>)
        where
            T: Copy + Div<R, Output = T>,
        requires
            T::obeys_div_spec(),
            old(self).x.div_req(o.x),
            old(self).y.div_req(o.y),
        ensures
            final(self).x == old(self).x.div_spec(o.x),
            final(self).y == old(self).y.div_spec(o.y),
    {
        self.x = self.x / o.x;
        self.y = self.y / o.y;
    }

    /// Componentwise remainder.
    pub fn crem<R>(self, o: Vec2<R>) -> (r: Vec2<T::Output>)
        where
            T: Rem<R>,
        requires
            T::obeys_rem_spec(),
            self.x.rem_req(o.x),
            self.y.rem_req(o.y),
        ensures
            r.x == self.x.rem_spec(o.x),
            r.y == self.y.rem_spec(o.y),
    {
        Vec2 { x: self.x % o.x, y: self.y % o.y }
    }

    /// Componentwise remainder in place.
    pub fn crem_assign<R>(&mut self, o: Vec2<R>)
        where
            T: Copy + Rem<R, Output = T>,
        requires
            T::obeys_rem_spec(),
            old(self).x.rem_req(o.x),
            old(self).y.rem_req(o.y),
        ensures
            final(self).x == old(self).x.rem_spec(o.x),
            final(self).y == old(self).y.rem_spec(o.y),
    {
        self.x = self.x % o.x;
        self.y = self.y % o.y;
    }

    /// Sums the components.
    pub fn sum(self) -> (r: T::Output)
        where
            T: Add,
        requires
            T::obeys_add_spec(),
            self.x.add_req(self.y),
        ensures
            r == self.x.add_spec(self.y),
    {
        self.x + self.y
    }

    /// Subtracts the components.
    pub fn diff(self) -> (r: T::Output)
        where
            T: Sub,
        requires
            T::obeys_sub_spec(),
            self.x.sub_req(self.y),
        ensures
            r == self.x.sub_spec(self.y),
    {
        self.x - self.y
    }

    /// Calculates the absolute difference of the components.
    pub fn abs_diff(self) -> (r: T)
        where
            T: Integer,
        requires
            in_range(abs(self.x.value() - self.y.value()), T::bits(), T::signed()),
        ensures
            r.value() == if self.x.value() < self.y.value() {
                self.y.value() - self.x.value()
            } else {
                self.x.value() - self.y.value()
            },
    {
        proof {
            T::lemma_cmp(self.x, self.y);
            T::lemma_ops(self.x, self.y);
            T::lemma_ops(self.y, self.x);
            self.x.lemma_domain();
            self.y.lemma_domain();
        }
        if self.x < self.y {
            self.y - self.x
        } else {
            self.x - self.y
        }
    }

    /// Multiplies the components.
    pub fn prod(self) -> (r: T::Output)
        where
            T: Mul,
        requires
            T::obeys_mul_spec(),
            self.x.mul_req(self.y),
        ensures
            r == self.x.mul_spec(self.y),
    {
        self.x * self.y
    }

    /// Divides the components.
    pub fn quot(self) -> (r: T::Output)
        where
            T: Div,
        requires
            T::obeys_div_spec(),
            self.x.div_req(self.y),
        ensures
            r == self.x.div_spec(self.y),
    {
        self.x / self.y
    }

    /// Gets the remainder of division of the components.
    pub fn quot_rem(self) -> (r: T::Output)
        where
            T: Rem,
        requires
            T::obeys_rem_spec(),
            self.x.rem_req(self.y),
        ensures
            r == self.x.rem_spec(self.y),
    {
        self.x % self.y
    }

    /// Checks if the components are the same.
    pub fn same(&self) -> (r: bool)
        where
            T: PartialEq,
        requires
            T::obeys_eq_spec(),
        ensures
            r == self.x.eq_spec(&self.y),
    {
        self.x == self.y
    }

    /// Checks if the components are different.
    pub fn different(&self) -> (r: bool)
        where
            T: PartialEq,
        requires
            T::obeys_eq_spec(),
        ensures
            r == !self.x.eq_spec(&self.y),
    {
        self.x != self.y
    }

    /// Gets index of the larger component. If both are the same, it is 0.
    pub fn max_idx(&self) -> (r: usize)
        where
            T: Integer,
        ensures
            r == if self.y.value() > self.x.value() { 1usize } else { 0usize },
    {
        proof {
            T::lemma_cmp(self.y, self.x);
        }
        if self.y > self.x {
            1
        } else {
            0
        }
    }

    /// Gets the larger of the two components. If both are the same, x is returned.
    pub fn max(&self) -> (r: &T)
        where
            T: Integer,
        ensures
            *r == if self.y.value() > self.x.value() { self.y } else { self.x },
    {
        proof {
            T::lemma_cmp(self.y, self.x);
        }
        if self.y > self.x {
            &self.y
        } else {
            &self.x
        }
    }

    /// Gets the larger of the two components for change. If both are the same, x
    /// is returned.
    pub fn max_mut(&mut self) -> (r: &mut T)
        where
            T: Integer,
        ensures
            old(self).y.value() > old(self).x.value() ==> *r == old(self).y && final(self).x
                == old(self).x && final(self).y == *final(r),
            old(self).y.value() <= old(self).x.value() ==> *r == old(self).x && final(self).x
                == *final(r) && final(self).y == old(self).y,
    {
        proof {
            T::lemma_cmp(self.y, self.x);
        }
        if self.y > self.x {
            &mut self.y
        } else {
            &mut self.x
        }
    }

    /// Gets index of the smaller component. If both are the same, it is 0.
    pub fn min_idx(&self) -> (r: usize)
        where
            T: Integer,
        ensures
            r == if self.y.value() < self.x.value() { 1usize } else { 0usize },
    {
        proof {
            T::lemma_cmp(self.y, self.x);
        }
        if self.y < self.x {
            1
        } else {
            0
        }
    }

    /// Gets the smaller of the two components. If both are the same, x is returned.
    pub fn min(&self) -> (r: &T)
        where
            T: Integer,
        ensures
            *r == if self.y.value() < self.x.value() { self.y } else { self.x },
    {
        proof {
            T::lemma_cmp(self.y, self.x);
        }
        if self.y < self.x {
            &self.y
        } else {
            &self.x
        }
    }

    /// Gets the smaller of the two components for change. If both are the same, x
    /// is returned.
    pub fn min_mut(&mut self) -> (r: &mut T)
        where
            T: Integer,
        ensures
            old(self).y.value() < old(self).x.value() ==> *r == old(self).y && final(self).x
                == old(self).x && final(self).y == *final(r),
            old(self).y.value() >= old(self).x.value() ==> *r == old(self).x && final(self).x
                == *final(r) && final(self).y == old(self).y,
    {
        proof {
            T::lemma_cmp(self.y, self.x);
        }
        if self.y < self.x {
            &mut self.y
        } else {
            &mut self.x
        }
    }

    /// Checks if value `v` is in the half-open range `self.x..self.y`.
    pub fn in_range(&self, v: &T) -> (r: bool)
        where
            T: Integer,
        ensures
            r == (self.x.value() <= v.value() && v.value() < self.y.value()),
    {
        proof {
            T::lemma_cmp(*v, self.x);
            T::lemma_cmp(*v, self.y);
        }
        *v >= self.x && *v < self.y
    }

    /// Maps the individual components.
    pub fn map<R>(self, f: impl Fn(T) -> R) -> (r: Vec2<R>)
        requires
            f.requires((self.x,)),
            f.requires((self.y,)),
        ensures
            f.ensures((self.x,), r.x),
            f.ensures((self.y,), r.y),
    {
        Vec2 { x: f(self.x), y: f(self.y) }
    }

    /// Converts a reference to a vector into a vector of references.
    pub fn as_ref(&self) -> (r: Vec2<&T>)
        ensures
            *r.x == self.x,
            *r.y == self.y,
    {
        Vec2 { x: &self.x, y: &self.y }
    }

    /// Converts a mutable reference to a vector into a vector of mutable references.
    pub fn as_mut(&mut self) -> (r: Vec2<&mut T>)
        ensures
            *r.x == old(self).x,
            *r.y == old(self).y,
            final(self).x == *final(r.x),
            final(self).y == *final(r.y),
    {
        Vec2 { x: &mut self.x, y: &mut self.y }
    }

    /// Checks if both of the components satisfy the condition.
    pub fn are_both(&self, f: impl Fn(&T) -> bool) -> (r: bool)
        requires
            forall|a: &T| f.requires((a,)),
        ensures
            r ==> f.ensures((&self.x,), true) && f.ensures((&self.y,), true),
            !r ==> f.ensures((&self.x,), false) || f.ensures((&self.y,), false),
    {
        f(&self.x) && f(&self.y)
    }

    /// Checks if any of the components satisfies the condition.
    pub fn is_any(&self, f: impl Fn(&T) -> bool) -> (r: bool)
        requires
            forall|a: &T| f.requires((a,)),
        ensures
            r ==> f.ensures((&self.x,), true) || f.ensures((&self.y,), true),
            !r ==> f.ensures((&self.x,), false) && f.ensures((&self.y,), false),
    {
        f(&self.x) || f(&self.y)
    }

    /// Checks if exactly one of the components satisfies the condition.
    pub fn is_one(&self, f: impl Fn(&T) -> bool) -> (r: bool)
        requires
            forall|a: &T| f.requires((a,)),
        ensures
            exists|a: bool, b: bool|
                f.ensures((&self.x,), a) && f.ensures((&self.y,), b) && r == (a != b),
    {
        let a = f(&self.x);
        let b = f(&self.y);
        a != b
    }

    /// Checks if no component satisfies the condition.
    pub fn is_none(&self, f: impl Fn(&T) -> bool) -> (r: bool)
        requires
            forall|a: &T| f.requires((a,)),
        ensures
            r ==> f.ensures((&self.x,), false) && f.ensures((&self.y,), false),
            !r ==> f.ensures((&self.x,), true) || f.ensures((&self.y,), true),
    {
        !self.is_any(f)
    }

    /// Converts the components to the given type.
    pub fn convert<T2>(self) -> (r: Vec2<T2>)
        where
            T: Into<T2>,
        requires
            T::obeys_into_spec(),
        ensures
            r.x == self.x.into_spec(),
            r.y == self.y.into_spec(),
    {
        Vec2 { x: self.x.into(), y: self.y.into() }
    }

    /// Swaps the two components.
    pub fn swap(&mut self)
        ensures
            final(self).x == old(self).y,
            final(self).y == old(self).x,
    {
        std::mem::swap(&mut self.x, &mut self.y);
    }

    /// Swaps the two components.
    pub fn swapped(self) -> (r: Self)
        ensures
            r.x == self.y,
            r.y == self.x,
    {
        Vec2 { x: self.y, y: self.x }
    }

    /// Swaps the two components.
    pub fn yx(self) -> (r: Self)
        ensures
            r.x == self.y,
            r.y == self.x,
    {
        self.swapped()
    }

    /// Identity.
    pub fn xy(self) -> (r: Self)
        ensures
            r == self,
    {
        self
    }

    /// Sorts the components.
    pub fn sort(&mut self)
        where
            T: Integer,
        ensures
            final(self).x.value() <= final(self).y.value(),
            (final(self).x == old(self).x && final(self).y == old(self).y) || (final(self).x
                == old(self).y && final(self).y == old(self).x),
    {
        proof {
            T::lemma_cmp(self.x, self.y);
        }
        if self.x > self.y {
            self.swap();
        }
    }

    /// Sorts the components.
    pub fn sorted(self) -> (r: Self)
        where
            T: Integer,
        ensures
            r.x.value() <= r.y.value(),
            (r.x == self.x && r.y == self.y) || (r.x == self.y && r.y == self.x),
    {
        let mut s = self;
        s.sort();
        s
    }

    /// Clamps the value to the range given by the components of this vector, in
    /// either order.
    pub fn clamp<'a>(&'a self, v: &'a T) -> (r: &'a T)
        where
            T: Integer,
        ensures
            *r == clamped_to(self.x, self.y, *v),
    {
        let s = self.as_ref().sorted_refs();
        proof {
            T::lemma_cmp(*v, *s.x);
            T::lemma_cmp(*v, *s.y);
        }
        if *v < *s.x {
            s.x
        } else if *v > *s.y {
            s.y
        } else {
            v
        }
    }

    /// Clamps the value to the range given by the components of this vector, in
    /// either order.
    pub fn clamped(self, v: T) -> (r: T)
        where
            T: Integer,
        ensures
            r == clamped_to(self.x, self.y, v),
    {
        let mut s = self;
        s.sort();
        proof {
            T::lemma_cmp(v, s.x);
            T::lemma_cmp(v, s.y);
            T::lemma_cmp(self.x, self.y);
            if s.x == self.y && s.y == self.x && self.x.value() == self.y.value() {
                self.x.lemma_value_injective(self.y);
            }
        }
        if v < s.x {
            s.x
        } else if v > s.y {
            s.y
        } else {
            v
        }
    }

    /// Casts the components to another domain, wrapping around on overflow.
    pub fn cast<O: Integer>(self) -> (r: Vec2<O>)
        where
            T: Cast<O>,
        ensures
            r.x.value() == wrap(self.x.value(), O::bits(), O::signed()),
            r.y.value() == wrap(self.y.value(), O::bits(), O::signed()),
    {
        Vec2 { x: self.x.cast(), y: self.y.cast() }
    }

    /// Gets the position of the element at index `i` of a row-major container that
    /// holds a 2D space of the size of this vector. Inverse to [`Self::idx_of_pos`].
    pub fn pos_of_idx(self, i: T) -> (r: Vec2<T>)
        where
            T: Integer,
        requires
            self.x.value() > 0,
            i.value() >= 0,
        ensures
            r.x.value() == i.value() % self.x.value(),
            r.y.value() == i.value() / self.x.value(),
    {
        proof {
            T::lemma_ops(i, self.x);
            i.lemma_domain();
            assert(i.value() / self.x.value() <= i.value()) by (nonlinear_arith)
                requires
                    self.x.value() > 0,
                    i.value() >= 0,
            ;
            T::lemma_bits();
        }
        Vec2 { x: i % self.x, y: i / self.x }
    }

    /// Gets the index in a row-major container that holds a 2D space of the size of
    /// this vector of the element at position `pos`. Inverse to [`Self::pos_of_idx`].
    pub fn idx_of_pos(self, pos: Vec2<T>) -> (r: T)
        where
            T: Integer,
        requires
            in_range(self.x.value() * pos.y.value(), T::bits(), T::signed()),
            in_range(self.x.value() * pos.y.value() + pos.x.value(), T::bits(), T::signed()),
        ensures
            r.value() == self.x.value() * pos.y.value() + pos.x.value(),
    {
        proof {
            T::lemma_ops(self.x, pos.y);
            T::lemma_ops(self.x.mul_spec(pos.y), pos.x);
        }
        self.x * pos.y + pos.x
    }

    /// Creates the range of positions from this vector (inclusive) to the other
    /// (exclusive).
    pub fn to(self, other: Vec2<T>) -> (r: Vec2RangeIter<T>)
        where
            T: Integer,
        ensures
            r.wf(),
            r.start() == self,
            r.end() == other,
            r.index() == 0,
    {
        Vec2RangeIter::new(self, other)
    }

    /// Checks if a 2D space of this size contains the position `pos`.
    pub fn contains(&self, pos: Vec2<T>) -> (r: bool)
        where
            T: Integer,
        ensures
            r == (0 <= pos.x.value() < self.x.value() && 0 <= pos.y.value() < self.y.value()),
    {
        let z = T::zero();
        proof {
            T::lemma_cmp(pos.x, z);
            T::lemma_cmp(pos.y, z);
            T::lemma_cmp(pos.x, self.x);
            T::lemma_cmp(pos.y, self.y);
        }
        pos.x >= z && pos.y >= z && pos.x < self.x && pos.y < self.y
    }

    /// Scales the vector to another domain: the full range of the one maps onto
    /// the full range of the other.
    pub fn scale<S: Integer>(self) -> (r: Vec2<S>)
        where
            T: Scale<S>,
        ensures
            offset_of(r.x) == scaled_offset(offset_of(self.x), T::bits(), S::bits()),
            offset_of(r.y) == scaled_offset(offset_of(self.y), T::bits(), S::bits()),
    {
        Vec2 { x: self.x.scale(), y: self.y.scale() }
    }

    /// Changes the range of the components from `ss..=se` to `ds..=de`.
    pub fn change_range(self, ss: T, se: T, ds: T, de: T) -> (r: Vec2<T>)
        where
            T: LargeType,
        requires
            se.value() != ss.value(),
            remap_fits(self.x.value(), ss.value(), se.value(), ds.value(), de.value(),
                <T::Large as Integer>::bits(), <T::Large as Integer>::signed()),
            remap_fits(self.y.value(), ss.value(), se.value(), ds.value(), de.value(),
                <T::Large as Integer>::bits(), <T::Large as Integer>::signed()),
        ensures
            r.x.value() == wrap(remapped(self.x.value(), ss.value(), se.value(), ds.value(),
                de.value()), T::bits(), T::signed()),
            r.y.value() == wrap(remapped(self.y.value(), ss.value(), se.value(), ds.value(),
                de.value()), T::bits(), T::signed()),
    {
        Vec2 { x: change_range(self.x, ss, se, ds, de), y: change_range(self.y, ss, se, ds, de) }
    }

    /// Transforms the components from the normal range to the range `s..=e`.
    pub fn norm_to_range(self, s: T, e: T) -> (r: Vec2<T>)
        where
            T: LargeType,
        requires
            remap_fits(self.x.value(), domain_min(T::bits(), T::signed()), domain_max(T::bits(),
                T::signed()), s.value(), e.value(), <T::Large as Integer>::bits(),
                <T::Large as Integer>::signed()),
            remap_fits(self.y.value(), domain_min(T::bits(), T::signed()), domain_max(T::bits(),
                T::signed()), s.value(), e.value(), <T::Large as Integer>::bits(),
                <T::Large as Integer>::signed()),
        ensures
            r.x.value() == wrap(remapped(self.x.value(), domain_min(T::bits(), T::signed()),
                domain_max(T::bits(), T::signed()), s.value(), e.value()), T::bits(), T::signed()),
            r.y.value() == wrap(remapped(self.y.value(), domain_min(T::bits(), T::signed()),
                domain_max(T::bits(), T::signed()), s.value(), e.value()), T::bits(), T::signed()),
    {
        proof {
            T::lemma_bits();
            crate::integer::lemma_widths();
        }
        self.change_range(T::norm_min(), T::norm_max(), s, e)
    }

    /// Transforms the components from the range `s..=e` to the normal range.
    pub fn to_norm_range(self, s: T, e: T) -> (r: Vec2<T>)
        where
            T: LargeType,
        requires
            s.value() != e.value(),
            remap_fits(self.x.value(), s.value(), e.value(), domain_min(T::bits(), T::signed()),
                domain_max(T::bits(), T::signed()), <T::Large as Integer>::bits(),
                <T::Large as Integer>::signed()),
            remap_fits(self.y.value(), s.value(), e.value(), domain_min(T::bits(), T::signed()),
                domain_max(T::bits(), T::signed()), <T::Large as Integer>::bits(),
                <T::Large as Integer>::signed()),
        ensures
            r.x.value() == wrap(remapped(self.x.value(), s.value(), e.value(), domain_min(T::bits(),
                T::signed()), domain_max(T::bits(), T::signed())), T::bits(), T::signed()),
            r.y.value() == wrap(remapped(self.y.value(), s.value(), e.value(), domain_min(T::bits(),
                T::signed()), domain_max(T::bits(), T::signed())), T::bits(), T::signed()),
    {
        self.change_range(s, e, T::norm_min(), T::norm_max())
    }

    /// Calculates the absolute value of each component.
    pub fn cabs(self) -> (r: Vec2<T>)
        where
            T: Integer,
        requires
            self.x.value() != domain_min(T::bits(), T::signed()) || !T::signed(),
            self.y.value() != domain_min(T::bits(), T::signed()) || !T::signed(),
        ensures
            r.x.value() == abs(self.x.value()),
            r.y.value() == abs(self.y.value()),
    {
        Vec2 { x: abs_of(self.x), y: abs_of(self.y) }
    }
}

/// Index and position are inverse: for every index `i` of a space of extent `e`,
/// the position that `pos_of_idx` gives maps back to `i` through `idx_of_pos`, and
/// that call's intermediate values fit the domain.
pub proof fn lemma_idx_of_pos_of_idx<T: Integer>(e: Vec2<T>, i: T)
    requires
        e.x.value() >= 0,
        e.y.value() >= 0,
        0 <= i.value() < e.x.value() * e.y.value(),
    ensures
        in_range(e.x.value() * (i.value() / e.x.value()), T::bits(), T::signed()),
        in_range(e.x.value() * (i.value() / e.x.value()) + i.value() % e.x.value(), T::bits(),
            T::signed()),
        e.x.value() * (i.value() / e.x.value()) + i.value() % e.x.value() == i.value(),
{
    let x = e.x.value();
    let v = i.value();
    assert(x > 0) by (nonlinear_arith)
        requires
            0 <= v < x * e.y.value(),
            e.y.value() >= 0,
            x >= 0,
    ;
    i.lemma_domain();
    assert(x * (v / x) + v % x == v && 0 <= x * (v / x) <= v) by (nonlinear_arith)
        requires
            x > 0,
            v >= 0,
    ;
}

/// Absolute value of an integer.
pub open spec fn abs(v: int) -> int {
    if v < 0 { -v } else { v }
}

/// `v` clamped to the range between `a` and `b`, taken in either order.
pub open spec fn clamped_to<T: Integer>(a: T, b: T, v: T) -> T {
    let (lo, hi) = if a.value() > b.value() { (b, a) } else { (a, b) };
    if v.value() < lo.value() { lo } else if v.value() > hi.value() { hi } else { v }
}

/// Absolute value of `v`.
pub(crate) fn abs_of<T: Integer>(v: T) -> (r: T)
    requires
        v.value() != domain_min(T::bits(), T::signed()) || !T::signed(),
    ensures
        r.value() == abs(v.value()),
{
    let z = T::zero();
    proof {
        T::lemma_cmp(v, z);
        T::lemma_ops(z, v);
        v.lemma_domain();
        T::lemma_bits();
        vstd::arithmetic::power2::lemma_pow2_adds((T::bits() - 1) as nat, 1);
        vstd::arithmetic::power2::lemma2_to64();
    }
    if v < z {
        z - v
    } else {
        v
    }
}

impl<'a, T> Vec2<&'a T> {
    /// Sorts a vector of references by the values they refer to.
    fn sorted_refs(self) -> (r: Vec2<&'a T>)
        where
            T: Integer,
        ensures
            if self.x.value() > self.y.value() {
                r.x == self.y && r.y == self.x
            } else {
                r == self
            },
    {
        proof {
            T::lemma_cmp(*self.x, *self.y);
        }
        if *self.x > *self.y {
            Vec2 { x: self.y, y: self.x }
        } else {
            self
        }
    }

    /// Clones the values that the components refer to.
    pub fn cloned(self) -> (r: Vec2<T>)
        where
            T: Clone,
        ensures
            call_ensures(T::clone, (self.x,), r.x),
            call_ensures(T::clone, (self.y,), r.y),
    {
        Vec2 { x: self.x.clone(), y: self.y.clone() }
    }

    /// Copies the values that the components refer to.
    pub fn copied(self) -> (r: Vec2<T>)
        where
            T: Copy,
        ensures
            r.x == *self.x,
            r.y == *self.y,
    {
        Vec2 { x: *self.x, y: *self.y }
    }
}

impl Vec2<bool> {
    /// Checks if both components are true.
    pub fn both(self) -> (r: bool)
        ensures
            r == (self.x && self.y),
    {
        self.x && self.y
    }

    /// Checks if any of the components is true.
    pub fn any(self) -> (r: bool)
        ensures
            r == (self.x || self.y),
    {
        self.x || self.y
    }

    /// Checks if exactly one of the components is true.
    pub fn one(self) -> (r: bool)
        ensures
            r == (self.x != self.y),
    {
        self.x != self.y
    }

    /// Checks if both of the components are false.
    pub fn none(self) -> (r: bool)
        ensures
            r == (!self.x && !self.y),
    {
        !self.any()
    }
}

impl<L: Add<R>, R> Add<Vec2<R>> for Vec2<L> {
    type Output = Vec2<L::Output>;

    fn add(self, rhs: Vec2<R>) -> (r: Vec2<L::Output>) {
        Vec2 { x: self.x + rhs.x, y: self.y + rhs.y }
    }
}

impl<L: Add<R>, R> vstd::std_specs::ops::AddSpecImpl<Vec2<R>> for Vec2<L> {
    open spec fn obeys_add_spec() -> bool {
        L::obeys_add_spec()
    }

    open spec fn add_req(self, rhs: Vec2<R>) -> bool {
        self.x.add_req(rhs.x) && self.y.add_req(rhs.y)
    }

    open spec fn add_spec(self, rhs: Vec2<R>) -> Vec2<L::Output> {
        Vec2 { x: self.x.add_spec(rhs.x), y: self.y.add_spec(rhs.y) }
    }
}

impl<L: Sub<R>, R> Sub<Vec2<R>> for Vec2<L> {
    type Output = Vec2<L::Output>;

    fn sub(self, rhs: Vec2<R>) -> (r: Vec2<L::Output>) {
        Vec2 { x: self.x - rhs.x, y: self.y - rhs.y }
    }
}

impl<L: Sub<R>, R> vstd::std_specs::ops::SubSpecImpl<Vec2<R>> for Vec2<L> {
    open spec fn obeys_sub_spec() -> bool {
        L::obeys_sub_spec()
    }

    open spec fn sub_req(self, rhs: Vec2<R>) -> bool {
        self.x.sub_req(rhs.x) && self.y.sub_req(rhs.y)
    }

    open spec fn sub_spec(self, rhs: Vec2<R>) -> Vec2<L::Output> {
        Vec2 { x: self.x.sub_spec(rhs.x), y: self.y.sub_spec(rhs.y) }
    }
}

impl<L: Mul<R>, R: Copy> Mul<R> for Vec2<L> {
    type Output = Vec2<L::Output>;

    fn mul(self, rhs: R) -> (r: Vec2<L::Output>) {
        Vec2 { x: self.x * rhs, y: self.y * rhs }
    }
}

impl<L: Mul<R>, R: Copy> vstd::std_specs::ops::MulSpecImpl<R> for Vec2<L> {
    open spec fn obeys_mul_spec() -> bool {
        L::obeys_mul_spec()
    }

    open spec fn mul_req(self, rhs: R) -> bool {
        self.x.mul_req(rhs) && self.y.mul_req(rhs)
    }

    open spec fn mul_spec(self, rhs: R) -> Vec2<L::Output> {
        Vec2 { x: self.x.mul_spec(rhs), y: self.y.mul_spec(rhs) }
    }
}

impl<L: Div<R>, R: Copy> Div<R> for Vec2<L> {
    type Output = Vec2<L::Output>;

    fn div(self, rhs: R) -> (r: Vec2<L::Output>) {
        Vec2 { x: self.x / rhs, y: self.y / rhs }
    }
}

impl<L: Div<R>, R: Copy> vstd::std_specs::ops::DivSpecImpl<R> for Vec2<L> {
    open spec fn obeys_div_spec() -> bool {
        L::obeys_div_spec()
    }

    open spec fn div_req(self, rhs: R) -> bool {
        self.x.div_req(rhs) && self.y.div_req(rhs)
    }

    open spec fn div_spec(self, rhs: R) -> Vec2<L::Output> {
        Vec2 { x: self.x.div_spec(rhs), y: self.y.div_spec(rhs) }
    }
}

impl<L: Rem<R>, R: Copy> Rem<R> for Vec2<L> {
    type Output = Vec2<L::Output>;

    fn rem(self, rhs: R) -> (r: Vec2<L::Output>) {
        Vec2 { x: self.x % rhs, y: self.y % rhs }
    }
}

impl<L: Rem<R>, R: Copy> vstd::std_specs::ops::RemSpecImpl<R> for Vec2<L> {
    open spec fn obeys_rem_spec() -> bool {
        L::obeys_rem_spec()
    }

    open spec fn rem_req(self, rhs: R) -> bool {
        self.x.rem_req(rhs) && self.y.rem_req(rhs)
    }

    open spec fn rem_spec(self, rhs: R) -> Vec2<L::Output> {
        Vec2 { x: self.x.rem_spec(rhs), y: self.y.rem_spec(rhs) }
    }
}

impl<T> From<(T, T)> for Vec2<T> {
    fn from(t: (T, T)) -> (r: Self) {
        Vec2 { x: t.0, y: t.1 }
    }
}

impl<T> vstd::std_specs::convert::FromSpecImpl<(T, T)> for Vec2<T> {
    open spec fn obeys_from_spec() -> bool {
        true
    }

    open spec fn from_spec(t: (T, T)) -> Self {
        Vec2 { x: t.0, y: t.1 }
    }
}

} // verus!
