//! Plain geometry shared by fences, windows and layouts.

use vstd::prelude::*;

verus! {

/// A scalar that can be read as an `i32` coordinate or length.
pub trait Scalar {
    /// The coordinate this scalar currently stands for.
    spec fn value(&self) -> i32;

    /// Reads the coordinate.
    fn load(&self) -> (r: i32)
        ensures
            r == self.value(),
    ;
}

impl Scalar for i32 {
    open spec fn value(&self) -> i32 {
        *self
    }

    fn load(&self) -> (r: i32) {
        *self
    }
}

/// A rectangle given by its edges, as Win32 `RECT` holds it.
#[derive(Clone, Copy, Debug, PartialEq, Eq, Structural, Default)]
pub struct Rect {
    pub left: i32,
    pub top: i32,
    pub right: i32,
    pub bottom: i32,
}

impl Rect {
    /// The point lies inside: left and top edges included, right and bottom excluded.
    pub open spec fn spec_contains(self, x: int, y: int) -> bool {
        self.left <= x < self.right && self.top <= y < self.bottom
    }

    /// Whether the point lies inside: left and top edges included, right and
    /// bottom edges excluded.
    pub fn contains(&self, x: i32, y: i32) -> (r: bool)
        ensures
            r == self.spec_contains(x as int, y as int),
    {
        x >= self.left && x < self.right && y >= self.top && y < self.bottom
    }
}

/// The absolute value of `a`.
pub open spec fn abs(a: int) -> int {
    if a >= 0 {
        a
    } else {
        -a
    }
}

/// `a / b` rounded toward zero, as Rust's integer division does.
pub open spec fn div_trunc(a: int, b: int) -> int {
    if (a >= 0) == (b > 0) {
        abs(a) / abs(b)
    } else {
        -(abs(a) / abs(b))
    }
}

/// The remainder of `a / b` rounded toward zero, as Rust's `%` gives it: it has
/// the sign of `a`.
pub open spec fn rem_trunc(a: int, b: int) -> int {
    if a >= 0 {
        abs(a) % abs(b)
    } else {
        -(abs(a) % abs(b))
    }
}

/// Division rounded toward zero and its remainder make up the dividend.
pub proof fn lemma_div_rem_trunc(a: int, b: int)
    requires
        b != 0,
    ensures
        a == b * div_trunc(a, b) + rem_trunc(a, b),
        abs(rem_trunc(a, b)) < abs(b),
{
    vstd::arithmetic::div_mod::lemma_fundamental_div_mod(abs(a), abs(b));
    vstd::arithmetic::div_mod::lemma_mod_bound(abs(a), abs(b));
    let q = abs(a) / abs(b);
    let r = abs(a) % abs(b);
    assert(abs(a) == abs(b) * q + r);
    if a >= 0 && b > 0 {
    } else if a >= 0 && b < 0 {
        assert(b * (-q) == abs(b) * q) by (nonlinear_arith)
            requires
                abs(b) == -b,
        ;
    } else if a < 0 && b > 0 {
        assert(b * (-q) == -(abs(b) * q)) by (nonlinear_arith)
            requires
                abs(b) == b,
        ;
    } else {
        assert(b * q == -(abs(b) * q)) by (nonlinear_arith)
            requires
                abs(b) == -b,
        ;
    }
}

/// `a / b` for `i32` values, rounded toward zero.
pub fn div_i32(a: i32, b: i32) -> (r: i32)
    requires
        b != 0,
        !(a == i32::MIN && b == -1),
    ensures
        r == div_trunc(a as int, b as int),
{
    if b > 0 {
        let q = a / b;
        proof {
            if a < 0 {
                assert(q == -((-(a as int)) / (b as int)));
            }
        }
        q
    } else if b == i32::MIN {
        proof {
            if a == i32::MIN {
                vstd::arithmetic::div_mod::lemma_div_by_self(abs(a as int));
            } else {
                vstd::arithmetic::div_mod::lemma_basic_div(abs(a as int), abs(b as int));
            }
        }
        if a == i32::MIN {
            1
        } else {
            0
        }
    } else {
        let nb = -b;
        let q = a / nb;
        proof {
            if a < 0 {
                assert(q == -((-(a as int)) / (nb as int)));
                if nb == 1 {
                    assert(a != i32::MIN);
                }
            } else {
                assert(q == (a as int) / (nb as int));
            }
            if nb > 1 && a != 0 {
                vstd::arithmetic::div_mod::lemma_div_decreases(abs(a as int), nb as int);
            }
        }
        -q
    }
}

/// The offset that centres an extent `size` in an extent `screen`:
/// `(screen - size) / 2`, rounded toward zero.
pub fn center_offset(screen: i32, size: i32) -> (r: i32)
    requires
        fits_i32(screen - size),
    ensures
        r == div_trunc(screen - size, 2),
{
    (screen - size) / 2
}

/// A rectangle given by its origin and size.
#[derive(Clone, Debug, Default)]
pub struct Area<S: Scalar> {
    pub x: S,
    pub y: S,
    pub width: S,
    pub height: S,
}

/// Whether `a + b` fits in an `i32`.
pub open spec fn fits_i32(v: int) -> bool {
    i32::MIN <= v <= i32::MAX
}

impl<S: Scalar> Area<S> {
    /// Builds an area from four values convertible into the scalar type.
    pub fn new<T: Into<S>>(x: T, y: T, width: T, height: T) -> (r: Self)
        ensures
            call_ensures(T::into, (x,), r.x),
            call_ensures(T::into, (y,), r.y),
            call_ensures(T::into, (width,), r.width),
            call_ensures(T::into, (height,), r.height),
    {
        Area { x: x.into(), y: y.into(), width: width.into(), height: height.into() }
    }

    /// The edges of this area: right is `x + width`, bottom is `y + height`.
    pub fn to_rect(&self) -> (r: Rect)
        requires
            fits_i32(self.x.value() + self.width.value()),
            fits_i32(self.y.value() + self.height.value()),
        ensures
            r.left == self.x.value(),
            r.top == self.y.value(),
            r.right == self.x.value() + self.width.value(),
            r.bottom == self.y.value() + self.height.value(),
    {
        let x = self.x.load();
        let y = self.y.load();
        let w = self.width.load();
        let h = self.height.load();
        Rect { left: x, top: y, right: x + w, bottom: y + h }
    }
}

/// A width and a height.
#[derive(Clone, Debug, Default)]
pub struct Bounds<S: Scalar> {
    pub width: S,
    pub height: S,
}

/// `<Q as From<Q>>::from` (std's reflexive `impl<T> From<T> for T`): converting a
/// value into its own type. Claimed: it returns its argument unchanged, as std
/// documents.
pub assume_specification<Q>[ <Q as core::convert::From<Q>>::from ](q: Q) -> (r: Q)
    ensures
        r == q,
;

} // verus!
