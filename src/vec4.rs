use vstd::prelude::*;
use vstd::std_specs::ops::DivSpec;
use crate::integer::{in_range, Integer};
use crate::large_type::trunc_div;
use crate::two::Two;
use crate::vec2::Vec2;

verus! {

/// Four dimensional vector. Mostly used as a rectangle: position (x, y) and size
/// (z, w).
#[derive(Debug, Copy, Clone, Default, PartialEq, Eq)]
pub struct Vec4<T> {
    /// The first coordinate, the left edge of a rectangle.
    pub x: T,
    /// The second coordinate, the top edge of a rectangle.
    pub y: T,
    /// The third coordinate, the width of a rectangle.
    pub z: T,
    /// The fourth coordinate, the height of a rectangle.
    pub w: T,
}

impl<T> Vec4<T> {
    /// Creates new four dimensional vector from its components.
    pub fn new(x: T, y: T, z: T, w: T) -> (r: Self)
        ensures
            r.x == x,
            r.y == y,
            r.z == z,
            r.w == w,
    {
        Self { x, y, z, w }
    }

    /// Width of the rectangle represented by this vector.
    pub fn width(&self) -> (r: &T)
        ensures
            *r == self.z,
    {
        &self.z
    }

    /// Height of the rectangle represented by this vector.
    pub fn height(&self) -> (r: &T)
        ensures
            *r == self.w,
    {
        &self.w
    }

    /// Width of the rectangle represented by this vector, for change.
    pub fn width_mut(&mut self) -> (r: &mut T)
        ensures
            *r == old(self).z,
            *final(self) == (Vec4 { z: *final(r), ..*old(self) }),
    {
        &mut self.z
    }

    /// Height of the rectangle represented by this vector, for change.
    pub fn height_mut(&mut self) -> (r: &mut T)
        ensures
            *r == old(self).w,
            *final(self) == (Vec4 { w: *final(r), ..*old(self) }),
    {
        &mut self.w
    }

    /// Sets the width of the rectangle represented by this vector.
    pub fn set_width(&mut self, width: T)
        ensures
            *final(self) == (Vec4 { z: width, ..*old(self) }),
    {
        self.z = width;
    }

    /// Sets the height of the rectangle represented by this vector.
    pub fn set_height(&mut self, height: T)
        ensures
            *final(self) == (Vec4 { w: height, ..*old(self) }),
    {
        self.w = height;
    }

    /// Gets the first two components.
    pub fn xy(self) -> (r: Vec2<T>)
        ensures
            r.x == self.x,
            r.y == self.y,
    {
        Vec2 { x: self.x, y: self.y }
    }

    /// Gets the last two components.
    pub fn zw(self) -> (r: Vec2<T>)
        ensures
            r.x == self.z,
            r.y == self.w,
    {
        Vec2 { x: self.z, y: self.w }
    }

    /// Gets the position of the rectangle represented by this vector.
    pub fn position(self) -> (r: Vec2<T>)
        ensures
            r.x == self.x,
            r.y == self.y,
    {
        self.xy()
    }

    /// Gets the size of the rectangle represented by this vector.
    pub fn size(self) -> (r: Vec2<T>)
        ensures
            r.x == self.z,
            r.y == self.w,
    {
        self.zw()
    }

    /// Splits the vector into position and size.
    pub fn xy_zw(self) -> (r: (Vec2<T>, Vec2<T>))
        ensures
            r.0.x == self.x,
            r.0.y == self.y,
            r.1.x == self.z,
            r.1.y == self.w,
    {
        (Vec2 { x: self.x, y: self.y }, Vec2 { x: self.z, y: self.w })
    }

    /// Gets the center of the rectangle represented by this vector: its position
    /// plus half its size, the half rounded towards zero.
    pub fn rect_center(self) -> (r: Vec2<T>)
        where
            T: Integer,
        requires
            in_range(self.x.value() + trunc_div(self.z.value(), 2), T::bits(), T::signed()),
            in_range(self.y.value() + trunc_div(self.w.value(), 2), T::bits(), T::signed()),
        ensures
            r.x.value() == self.x.value() + trunc_div(self.z.value(), 2),
            r.y.value() == self.y.value() + trunc_div(self.w.value(), 2),
    {
        let (p, s) = self.xy_zw();
        let two = T::two();
        proof {
            T::lemma_bits();
            crate::integer::lemma_widths();
            s.x.lemma_domain();
            s.y.lemma_domain();
            assert(in_range(trunc_div(s.x.value(), 2), T::bits(), T::signed()));
            assert(in_range(trunc_div(s.y.value(), 2), T::bits(), T::signed()));
            T::lemma_ops(s.x, two);
            T::lemma_ops(s.y, two);
            T::lemma_ops(p.x, s.x.div_spec(two));
            T::lemma_ops(p.y, s.y.div_spec(two));
        }
        Vec2 { x: p.x + s.x / two, y: p.y + s.y / two }
    }
}

impl<T> From<(T, T, T, T)> for Vec4<T> {
    fn from(t: (T, T, T, T)) -> (r: Self) {
        Vec4 { x: t.0, y: t.1, z: t.2, w: t.3 }
    }
}

impl<T> vstd::std_specs::convert::FromSpecImpl<(T, T, T, T)> for Vec4<T> {
    open spec fn obeys_from_spec() -> bool {
        true
    }

    open spec fn from_spec(t: (T, T, T, T)) -> Self {
        Vec4 { x: t.0, y: t.1, z: t.2, w: t.3 }
    }
}

} // verus!
