//! A three-dimensional point with binary64 components, held as encodings.

use vstd::prelude::*;

use crate::fbits::add_encoded;
use crate::fbits::add_rel;
use crate::fbits::div_encoded;
use crate::fbits::div_rel;
use crate::fbits::mul_encoded;
use crate::fbits::mul_rel;
use crate::fbits::sub_encoded;
use crate::fbits::sub_rel;

verus! {

/// A point in space. Each field is the 64-bit encoding of a binary64
/// value; any encoding, including those of NaNs and infinities, is
/// accepted, and equality is equality of encodings.
#[derive(Clone, Copy, Debug, PartialEq, Eq, Structural)]
pub struct Point3D {
    pub x: u64,
    pub y: u64,
    pub z: u64,
}

impl Point3D {
    /// Constructs the point with the given component encodings.
    pub fn new(x: u64, y: u64, z: u64) -> (r: Self)
        ensures
            r.x == x,
            r.y == y,
            r.z == z,
    {
        Point3D { x, y, z }
    }

    /// Component-wise sum of two points.
    pub fn add(self, rhs: Point3D) -> (r: Point3D)
        ensures
            add_rel(self.x, rhs.x, r.x),
            add_rel(self.y, rhs.y, r.y),
            add_rel(self.z, rhs.z, r.z),
    {
        Point3D {
            x: add_encoded(self.x, rhs.x),
            y: add_encoded(self.y, rhs.y),
            z: add_encoded(self.z, rhs.z),
        }
    }

    /// Sum of a point and a scalar: the scalar is added to every
    /// component.
    pub fn add_scalar(self, rhs: u64) -> (r: Point3D)
        ensures
            add_rel(self.x, rhs, r.x),
            add_rel(self.y, rhs, r.y),
            add_rel(self.z, rhs, r.z),
    {
        Point3D {
            x: add_encoded(self.x, rhs),
            y: add_encoded(self.y, rhs),
            z: add_encoded(self.z, rhs),
        }
    }

    /// In-place component-wise sum.
    pub fn add_assign(&mut self, rhs: Point3D)
        ensures
            add_rel(old(self).x, rhs.x, final(self).x),
            add_rel(old(self).y, rhs.y, final(self).y),
            add_rel(old(self).z, rhs.z, final(self).z),
    {
        self.x = add_encoded(self.x, rhs.x);
        self.y = add_encoded(self.y, rhs.y);
        self.z = add_encoded(self.z, rhs.z);
    }

    /// In-place sum with a scalar.
    pub fn add_assign_scalar(&mut self, rhs: u64)
        ensures
            add_rel(old(self).x, rhs, final(self).x),
            add_rel(old(self).y, rhs, final(self).y),
            add_rel(old(self).z, rhs, final(self).z),
    {
        self.x = add_encoded(self.x, rhs);
        self.y = add_encoded(self.y, rhs);
        self.z = add_encoded(self.z, rhs);
    }

    /// Component-wise difference of two points.
    pub fn sub(self, rhs: Point3D) -> (r: Point3D)
        ensures
            sub_rel(self.x, rhs.x, r.x),
            sub_rel(self.y, rhs.y, r.y),
            sub_rel(self.z, rhs.z, r.z),
    {
        Point3D {
            x: sub_encoded(self.x, rhs.x),
            y: sub_encoded(self.y, rhs.y),
            z: sub_encoded(self.z, rhs.z),
        }
    }

    /// Difference of a point and a scalar: the scalar is subtracted from
    /// every component.
    pub fn sub_scalar(self, rhs: u64) -> (r: Point3D)
        ensures
            sub_rel(self.x, rhs, r.x),
            sub_rel(self.y, rhs, r.y),
            sub_rel(self.z, rhs, r.z),
    {
        Point3D {
            x: sub_encoded(self.x, rhs),
            y: sub_encoded(self.y, rhs),
            z: sub_encoded(self.z, rhs),
        }
    }

    /// In-place component-wise difference.
    pub fn sub_assign(&mut self, rhs: Point3D)
        ensures
            sub_rel(old(self).x, rhs.x, final(self).x),
            sub_rel(old(self).y, rhs.y, final(self).y),
            sub_rel(old(self).z, rhs.z, final(self).z),
    {
        self.x = sub_encoded(self.x, rhs.x);
        self.y = sub_encoded(self.y, rhs.y);
        self.z = sub_encoded(self.z, rhs.z);
    }

    /// In-place difference with a scalar.
    pub fn sub_assign_scalar(&mut self, rhs: u64)
        ensures
            sub_rel(old(self).x, rhs, final(self).x),
            sub_rel(old(self).y, rhs, final(self).y),
            sub_rel(old(self).z, rhs, final(self).z),
    {
        self.x = sub_encoded(self.x, rhs);
        self.y = sub_encoded(self.y, rhs);
        self.z = sub_encoded(self.z, rhs);
    }

    /// Component-wise product of two points (not a dot product).
    pub fn mul(self, rhs: Point3D) -> (r: Point3D)
        ensures
            mul_rel(self.x, rhs.x, r.x),
            mul_rel(self.y, rhs.y, r.y),
            mul_rel(self.z, rhs.z, r.z),
    {
        Point3D {
            x: mul_encoded(self.x, rhs.x),
            y: mul_encoded(self.y, rhs.y),
            z: mul_encoded(self.z, rhs.z),
        }
    }

    /// Product of a point and a scalar: every component is multiplied by
    /// the scalar.
    pub fn mul_scalar(self, rhs: u64) -> (r: Point3D)
        ensures
            mul_rel(self.x, rhs, r.x),
            mul_rel(self.y, rhs, r.y),
            mul_rel(self.z, rhs, r.z),
    {
        Point3D {
            x: mul_encoded(self.x, rhs),
            y: mul_encoded(self.y, rhs),
            z: mul_encoded(self.z, rhs),
        }
    }

    /// In-place component-wise product.
    pub fn mul_assign(&mut self, rhs: Point3D)
        ensures
            mul_rel(old(self).x, rhs.x, final(self).x),
            mul_rel(old(self).y, rhs.y, final(self).y),
            mul_rel(old(self).z, rhs.z, final(self).z),
    {
        self.x = mul_encoded(self.x, rhs.x);
        self.y = mul_encoded(self.y, rhs.y);
        self.z = mul_encoded(self.z, rhs.z);
    }

    /// In-place product with a scalar.
    pub fn mul_assign_scalar(&mut self, rhs: u64)
        ensures
            mul_rel(old(self).x, rhs, final(self).x),
            mul_rel(old(self).y, rhs, final(self).y),
            mul_rel(old(self).z, rhs, final(self).z),
    {
        self.x = mul_encoded(self.x, rhs);
        self.y = mul_encoded(self.y, rhs);
        self.z = mul_encoded(self.z, rhs);
    }

    /// Component-wise quotient of two points. A zero divisor component
    /// yields an infinity or a NaN in that component, never a failure.
    pub fn div(self, rhs: Point3D) -> (r: Point3D)
        ensures
            div_rel(self.x, rhs.x, r.x),
            div_rel(self.y, rhs.y, r.y),
            div_rel(self.z, rhs.z, r.z),
    {
        Point3D {
            x: div_encoded(self.x, rhs.x),
            y: div_encoded(self.y, rhs.y),
            z: div_encoded(self.z, rhs.z),
        }
    }

    /// Quotient of a point and a scalar: every component is divided by
    /// the scalar.
    pub fn div_scalar(self, rhs: u64) -> (r: Point3D)
        ensures
            div_rel(self.x, rhs, r.x),
            div_rel(self.y, rhs, r.y),
            div_rel(self.z, rhs, r.z),
    {
        Point3D {
            x: div_encoded(self.x, rhs),
            y: div_encoded(self.y, rhs),
            z: div_encoded(self.z, rhs),
        }
    }

    /// In-place component-wise quotient.
    pub fn div_assign(&mut self, rhs: Point3D)
        ensures
            div_rel(old(self).x, rhs.x, final(self).x),
            div_rel(old(self).y, rhs.y, final(self).y),
            div_rel(old(self).z, rhs.z, final(self).z),
    {
        self.x = div_encoded(self.x, rhs.x);
        self.y = div_encoded(self.y, rhs.y);
        self.z = div_encoded(self.z, rhs.z);
    }

    /// In-place quotient with a scalar.
    pub fn div_assign_scalar(&mut self, rhs: u64)
        ensures
            div_rel(old(self).x, rhs, final(self).x),
            div_rel(old(self).y, rhs, final(self).y),
            div_rel(old(self).z, rhs, final(self).z),
    {
        self.x = div_encoded(self.x, rhs);
        self.y = div_encoded(self.y, rhs);
        self.z = div_encoded(self.z, rhs);
    }
}

impl Default for Point3D {
    /// The origin: every component is the encoding of positive zero.
    fn default() -> (r: Self)
        ensures
            r.x == 0,
            r.y == 0,
            r.z == 0,
    {
        Point3D { x: 0, y: 0, z: 0 }
    }
}

impl From<(u64, u64, u64)> for Point3D {
    /// A triple of component encodings converts to the point with exactly
    /// those components.
    fn from(p: (u64, u64, u64)) -> (r: Self) {
        Point3D { x: p.0, y: p.1, z: p.2 }
    }
}

impl vstd::std_specs::convert::FromSpecImpl<(u64, u64, u64)> for Point3D {
    open spec fn obeys_from_spec() -> bool {
        true
    }

    open spec fn from_spec(p: (u64, u64, u64)) -> Self {
        Point3D { x: p.0, y: p.1, z: p.2 }
    }
}

/// Conversion from a triple yields the point whose components are
/// exactly the triple's entries.
pub proof fn lemma_from_triple_matches_components(t: (u64, u64, u64))
    ensures
        (<Point3D as vstd::std_specs::convert::FromSpec<(u64, u64, u64)>>::from_spec(t)
            == (Point3D { x: t.0, y: t.1, z: t.2 })),
{
}

/// Adding the scalar `s` to `p` and adding to `p` the point `q` all of
/// whose components are `s` come to the same thing: a result `r1` that
/// the contract of `add_scalar` allows equals a result `r2` that the
/// contract of `add` allows.
pub proof fn lemma_add_scalar_matches_point(
    p: Point3D,
    s: u64,
    q: Point3D,
    r1: Point3D,
    r2: Point3D,
)
    requires
        q.x == s,
        q.y == s,
        q.z == s,
        add_rel(p.x, s, r1.x),
        add_rel(p.y, s, r1.y),
        add_rel(p.z, s, r1.z),
        add_rel(p.x, q.x, r2.x),
        add_rel(p.y, q.y, r2.y),
        add_rel(p.z, q.z, r2.z),
    ensures
        r1 == r2,
{
}

/// As `lemma_add_scalar_matches_point`, for subtraction.
pub proof fn lemma_sub_scalar_matches_point(
    p: Point3D,
    s: u64,
    q: Point3D,
    r1: Point3D,
    r2: Point3D,
)
    requires
        q.x == s,
        q.y == s,
        q.z == s,
        sub_rel(p.x, s, r1.x),
        sub_rel(p.y, s, r1.y),
        sub_rel(p.z, s, r1.z),
        sub_rel(p.x, q.x, r2.x),
        sub_rel(p.y, q.y, r2.y),
        sub_rel(p.z, q.z, r2.z),
    ensures
        r1 == r2,
{
}

/// As `lemma_add_scalar_matches_point`, for multiplication.
pub proof fn lemma_mul_scalar_matches_point(
    p: Point3D,
    s: u64,
    q: Point3D,
    r1: Point3D,
    r2: Point3D,
)
    requires
        q.x == s,
        q.y == s,
        q.z == s,
        mul_rel(p.x, s, r1.x),
        mul_rel(p.y, s, r1.y),
        mul_rel(p.z, s, r1.z),
        mul_rel(p.x, q.x, r2.x),
        mul_rel(p.y, q.y, r2.y),
        mul_rel(p.z, q.z, r2.z),
    ensures
        r1 == r2,
{
}

/// As `lemma_add_scalar_matches_point`, for division.
pub proof fn lemma_div_scalar_matches_point(
    p: Point3D,
    s: u64,
    q: Point3D,
    r1: Point3D,
    r2: Point3D,
)
    requires
        q.x == s,
        q.y == s,
        q.z == s,
        div_rel(p.x, s, r1.x),
        div_rel(p.y, s, r1.y),
        div_rel(p.z, s, r1.z),
        div_rel(p.x, q.x, r2.x),
        div_rel(p.y, q.y, r2.y),
        div_rel(p.z, q.z, r2.z),
    ensures
        r1 == r2,
{
}

/// An in-place addition agrees with its pure counterpart: if `m` is what
/// the contract of `add_assign` (or `add_assign_scalar`, with `rhs` the
/// splat of the scalar) allows `p` to become, and `r` is a result the
/// contract of `add` allows, then `m == r`.
pub proof fn lemma_add_assign_matches_add(p: Point3D, rhs: Point3D, m: Point3D, r: Point3D)
    requires
        add_rel(p.x, rhs.x, m.x),
        add_rel(p.y, rhs.y, m.y),
        add_rel(p.z, rhs.z, m.z),
        add_rel(p.x, rhs.x, r.x),
        add_rel(p.y, rhs.y, r.y),
        add_rel(p.z, rhs.z, r.z),
    ensures
        m == r,
{
}

/// As `lemma_add_assign_matches_add`, for subtraction.
pub proof fn lemma_sub_assign_matches_sub(p: Point3D, rhs: Point3D, m: Point3D, r: Point3D)
    requires
        sub_rel(p.x, rhs.x, m.x),
        sub_rel(p.y, rhs.y, m.y),
        sub_rel(p.z, rhs.z, m.z),
        sub_rel(p.x, rhs.x, r.x),
        sub_rel(p.y, rhs.y, r.y),
        sub_rel(p.z, rhs.z, r.z),
    ensures
        m == r,
{
}

/// As `lemma_add_assign_matches_add`, for multiplication.
pub proof fn lemma_mul_assign_matches_mul(p: Point3D, rhs: Point3D, m: Point3D, r: Point3D)
    requires
        mul_rel(p.x, rhs.x, m.x),
        mul_rel(p.y, rhs.y, m.y),
        mul_rel(p.z, rhs.z, m.z),
        mul_rel(p.x, rhs.x, r.x),
        mul_rel(p.y, rhs.y, r.y),
        mul_rel(p.z, rhs.z, r.z),
    ensures
        m == r,
{
}

/// As `lemma_add_assign_matches_add`, for division.
pub proof fn lemma_div_assign_matches_div(p: Point3D, rhs: Point3D, m: Point3D, r: Point3D)
    requires
        div_rel(p.x, rhs.x, m.x),
        div_rel(p.y, rhs.y, m.y),
        div_rel(p.z, rhs.z, m.z),
        div_rel(p.x, rhs.x, r.x),
        div_rel(p.y, rhs.y, r.y),
        div_rel(p.z, rhs.z, r.z),
    ensures
        m == r,
{
}

} // verus!
