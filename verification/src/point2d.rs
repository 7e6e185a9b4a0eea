//! A two-dimensional point with binary64 components, held as encodings.

use vstd::prelude::*;

use crate::fbits::add_encoded;
use crate::fbits::add_rel;
use crate::fbits::mul_encoded;
use crate::fbits::mul_rel;
use crate::fbits::sub_encoded;
use crate::fbits::sub_rel;

verus! {

/// A point in the plane. Each field is the 64-bit encoding of a binary64
/// value; any encoding, including those of NaNs and infinities, is
/// accepted, and equality is equality of encodings.
#[derive(Clone, Copy, Debug, PartialEq, Eq, Structural)]
pub struct Point2D {
    pub x: u64,
    pub y: u64,
}

impl Point2D {
    /// Constructs the point with the given component encodings.
    pub fn new(x: u64, y: u64) -> (r: Self)
        ensures
            r.x == x,
            r.y == y,
    {
        Point2D { x, y }
    }

    /// Component-wise sum of two points.
    pub fn add(self, rhs: Point2D) -> (r: Point2D)
        ensures
            add_rel(self.x, rhs.x, r.x),
            add_rel(self.y, rhs.y, r.y),
    {
        Point2D { x: add_encoded(self.x, rhs.x), y: add_encoded(self.y, rhs.y) }
    }

    /// Sum of a point and a scalar: the scalar is added to every
    /// component.
    pub fn add_scalar(self, rhs: u64) -> (r: Point2D)
        ensures
            add_rel(self.x, rhs, r.x),
            add_rel(self.y, rhs, r.y),
    {
        Point2D { x: add_encoded(self.x, rhs), y: add_encoded(self.y, rhs) }
    }

    /// In-place component-wise sum.
    pub fn add_assign(&mut self, rhs: Point2D)
        ensures
            add_rel(old(self).x, rhs.x, final(self).x),
            add_rel(old(self).y, rhs.y, final(self).y),
    {
        self.x = add_encoded(self.x, rhs.x);
        self.y = add_encoded(self.y, rhs.y);
    }

    /// In-place sum with a scalar.
    pub fn add_assign_scalar(&mut self, rhs: u64)
        ensures
            add_rel(old(self).x, rhs, final(self).x),
            add_rel(old(self).y, rhs, final(self).y),
    {
        self.x = add_encoded(self.x, rhs);
        self.y = add_encoded(self.y, rhs);
    }

    /// Component-wise difference of two points.
    pub fn sub(self, rhs: Point2D) -> (r: Point2D)
        ensures
            sub_rel(self.x, rhs.x, r.x),
            sub_rel(self.y, rhs.y, r.y),
    {
        Point2D { x: sub_encoded(self.x, rhs.x), y: sub_encoded(self.y, rhs.y) }
    }

    /// Difference of a point and a scalar: the scalar is subtracted from
    /// every component.
    pub fn sub_scalar(self, rhs: u64) -> (r: Point2D)
        ensures
            sub_rel(self.x, rhs, r.x),
            sub_rel(self.y, rhs, r.y),
    {
        Point2D { x: sub_encoded(self.x, rhs), y: sub_encoded(self.y, rhs) }
    }

    /// In-place component-wise difference.
    pub fn sub_assign(&mut self, rhs: Point2D)
        ensures
            sub_rel(old(self).x, rhs.x, final(self).x),
            sub_rel(old(self).y, rhs.y, final(self).y),
    {
        self.x = sub_encoded(self.x, rhs.x);
        self.y = sub_encoded(self.y, rhs.y);
    }

    /// In-place difference with a scalar.
    pub fn sub_assign_scalar(&mut self, rhs: u64)
        ensures
            sub_rel(old(self).x, rhs, final(self).x),
            sub_rel(old(self).y, rhs, final(self).y),
    {
        self.x = sub_encoded(self.x, rhs);
        self.y = sub_encoded(self.y, rhs);
    }

    /// Component-wise product of two points (not a dot product).
    pub fn mul(self, rhs: Point2D) -> (r: Point2D)
        ensures
            mul_rel(self.x, rhs.x, r.x),
            mul_rel(self.y, rhs.y, r.y),
    {
        Point2D { x: mul_encoded(self.x, rhs.x), y: mul_encoded(self.y, rhs.y) }
    }

    /// Product of a point and a scalar: every component is multiplied by
    /// the scalar.
    pub fn mul_scalar(self, rhs: u64) -> (r: Point2D)
        ensures
            mul_rel(self.x, rhs, r.x),
            mul_rel(self.y, rhs, r.y),
    {
        Point2D { x: mul_encoded(self.x, rhs), y: mul_encoded(self.y, rhs) }
    }

    /// In-place component-wise product.
    pub fn mul_assign(&mut self, rhs: Point2D)
        ensures
            mul_rel(old(self).x, rhs.x, final(self).x),
            mul_rel(old(self).y, rhs.y, final(self).y),
    {
        self.x = mul_encoded(self.x, rhs.x);
        self.y = mul_encoded(self.y, rhs.y);
    }

    /// In-place product with a scalar.
    pub fn mul_assign_scalar(&mut self, rhs: u64)
        ensures
            mul_rel(old(self).x, rhs, final(self).x),
            mul_rel(old(self).y, rhs, final(self).y),
    {
        self.x = mul_encoded(self.x, rhs);
        self.y = mul_encoded(self.y, rhs);
    }
}

impl Default for Point2D {
    /// The origin: both components are the encoding of positive zero.
    fn default() -> (r: Self)
        ensures
            r.x == 0,
            r.y == 0,
    {
        Point2D { x: 0, y: 0 }
    }
}

impl From<(u64, u64)> for Point2D {
    /// A pair of component encodings converts to the point with exactly
    /// those components.
    fn from(p: (u64, u64)) -> (r: Self) {
        Point2D { x: p.0, y: p.1 }
    }
}

impl vstd::std_specs::convert::FromSpecImpl<(u64, u64)> for Point2D {
    open spec fn obeys_from_spec() -> bool {
        true
    }

    open spec fn from_spec(p: (u64, u64)) -> Self {
        Point2D { x: p.0, y: p.1 }
    }
}

/// Conversion from a pair yields the point whose components are exactly
/// the pair's entries.
pub proof fn lemma_from_pair_matches_components(t: (u64, u64))
    ensures
        (<Point2D as vstd::std_specs::convert::FromSpec<(u64, u64)>>::from_spec(t) == (Point2D {
            x: t.0,
            y: t.1,
        })),
{
}

/// Adding the scalar `s` to `p` and adding to `p` the point `q` both of
/// whose components are `s` come to the same thing: a result `r1` that
/// the contract of `add_scalar` allows equals a result `r2` that the
/// contract of `add` allows.
pub proof fn lemma_add_scalar_matches_point(
    p: Point2D,
    s: u64,
    q: Point2D,
    r1: Point2D,
    r2: Point2D,
)
    requires
        q.x == s,
        q.y == s,
        add_rel(p.x, s, r1.x),
        add_rel(p.y, s, r1.y),
        add_rel(p.x, q.x, r2.x),
        add_rel(p.y, q.y, r2.y),
    ensures
        r1 == r2,
{
}

/// As `lemma_add_scalar_matches_point`, for subtraction.
pub proof fn lemma_sub_scalar_matches_point(
    p: Point2D,
    s: u64,
    q: Point2D,
    r1: Point2D,
    r2: Point2D,
)
    requires
        q.x == s,
        q.y == s,
        sub_rel(p.x, s, r1.x),
        sub_rel(p.y, s, r1.y),
        sub_rel(p.x, q.x, r2.x),
        sub_rel(p.y, q.y, r2.y),
    ensures
        r1 == r2,
{
}

/// As `lemma_add_scalar_matches_point`, for multiplication.
pub proof fn lemma_mul_scalar_matches_point(
    p: Point2D,
    s: u64,
    q: Point2D,
    r1: Point2D,
    r2: Point2D,
)
    requires
        q.x == s,
        q.y == s,
        mul_rel(p.x, s, r1.x),
        mul_rel(p.y, s, r1.y),
        mul_rel(p.x, q.x, r2.x),
        mul_rel(p.y, q.y, r2.y),
    ensures
        r1 == r2,
{
}

/// An in-place addition agrees with its pure counterpart: if `m` is what
/// the contract of `add_assign` (or `add_assign_scalar`, with `rhs` the
/// splat of the scalar) allows `p` to become, and `r` is a result the
/// contract of `add` allows, then `m == r`.
pub proof fn lemma_add_assign_matches_add(p: Point2D, rhs: Point2D, m: Point2D, r: Point2D)
    requires
        add_rel(p.x, rhs.x, m.x),
        add_rel(p.y, rhs.y, m.y),
        add_rel(p.x, rhs.x, r.x),
        add_rel(p.y, rhs.y, r.y),
    ensures
        m == r,
{
}

/// As `lemma_add_assign_matches_add`, for subtraction.
pub proof fn lemma_sub_assign_matches_sub(p: Point2D, rhs: Point2D, m: Point2D, r: Point2D)
    requires
        sub_rel(p.x, rhs.x, m.x),
        sub_rel(p.y, rhs.y, m.y),
        sub_rel(p.x, rhs.x, r.x),
        sub_rel(p.y, rhs.y, r.y),
    ensures
        m == r,
{
}

/// As `lemma_add_assign_matches_add`, for multiplication.
pub proof fn lemma_mul_assign_matches_mul(p: Point2D, rhs: Point2D, m: Point2D, r: Point2D)
    requires
        mul_rel(p.x, rhs.x, m.x),
        mul_rel(p.y, rhs.y, m.y),
        mul_rel(p.x, rhs.x, r.x),
        mul_rel(p.y, rhs.y, r.y),
    ensures
        m == r,
{
}

} // verus!
