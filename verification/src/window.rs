//! The position and size a window keeps for itself, and how moves and resizes
//! change them.

use vstd::prelude::*;
use vstd::wrapping::i32_specs::wrapping_add;

use crate::geo::{fits_i32, Rect};

verus! {

/// A window's origin and size, as the window last placed itself.
#[derive(Clone, Copy, Debug, PartialEq, Eq, Structural, Default)]
pub struct WindowArea {
    pub x: i32,
    pub y: i32,
    pub width: i32,
    pub height: i32,
}

/// `a` with `(dl, dt)` added to its origin and `(dw, dh)` to its size, each
/// wrapping around the `i32` range.
pub open spec fn spec_add_area(a: WindowArea, dl: i32, dt: i32, dw: i32, dh: i32) -> WindowArea {
    WindowArea {
        x: wrapping_add(a.x, dl),
        y: wrapping_add(a.y, dt),
        width: wrapping_add(a.width, dw),
        height: wrapping_add(a.height, dh),
    }
}

/// `a` with `(dl, dt)` added to its origin, wrapping around the `i32` range.
pub open spec fn spec_move_by(a: WindowArea, dl: i32, dt: i32) -> WindowArea {
    WindowArea { x: wrapping_add(a.x, dl), y: wrapping_add(a.y, dt), ..a }
}

impl WindowArea {
    /// The edges of the area: right is `x + width`, bottom is `y + height`.
    pub fn to_rect(&self) -> (r: Rect)
        requires
            fits_i32(self.x + self.width),
            fits_i32(self.y + self.height),
        ensures
            r == (Rect {
                left: self.x,
                top: self.y,
                right: (self.x + self.width) as i32,
                bottom: (self.y + self.height) as i32,
            }),
    {
        Rect { left: self.x, top: self.y, right: self.x + self.width, bottom: self.y + self.height }
    }

    /// Moves the origin to `(x, y)`; the size stays.
    pub fn move_to(&mut self, x: i32, y: i32)
        ensures
            *final(self) == (WindowArea { x, y, ..*old(self) }),
    {
        self.x = x;
        self.y = y;
    }

    /// Moves the origin by `(dl, dt)`, wrapping around the `i32` range; the size stays.
    pub fn move_by(&mut self, dl: i32, dt: i32)
        ensures
            *final(self) == spec_move_by(*old(self), dl, dt),
    {
        self.x = self.x.wrapping_add(dl);
        self.y = self.y.wrapping_add(dt);
    }

    /// Replaces origin and size.
    pub fn resize_to(&mut self, left: i32, top: i32, width: i32, height: i32)
        ensures
            *final(self) == (WindowArea { x: left, y: top, width, height }),
    {
        self.x = left;
        self.y = top;
        self.width = width;
        self.height = height;
    }

    /// Adds to origin and size, each wrapping around the `i32` range.
    pub fn add_area(&mut self, dl: i32, dt: i32, dw: i32, dh: i32)
        ensures
            *final(self) == spec_add_area(*old(self), dl, dt, dw, dh),
    {
        self.x = self.x.wrapping_add(dl);
        self.y = self.y.wrapping_add(dt);
        self.width = self.width.wrapping_add(dw);
        self.height = self.height.wrapping_add(dh);
    }
}

/// The window class names registered so far, each once, in the order they were
/// registered.
pub struct ClassRegistry {
    names: Vec<String>,
}

impl ClassRegistry {
    /// The names registered so far.
    pub closed spec fn names(&self) -> Seq<Seq<char>> {
        self.names@.map_values(|n: String| n@)
    }

    /// No name is registered twice.
    pub closed spec fn well_formed(&self) -> bool {
        forall|i: int, j: int|
            0 <= i < j < self.names@.len() ==> #[trigger] self.names@[i]@ != #[trigger] self.names@[j]@
    }

    /// A registry with no names.
    pub fn new() -> (r: Self)
        ensures
            r.well_formed(),
            r.names() == Seq::<Seq<char>>::empty(),
    {
        let r = ClassRegistry { names: Vec::new() };
        assert(r.names() =~= Seq::<Seq<char>>::empty());
        r
    }

    /// Whether `name` is registered.
    pub fn contains(&self, name: &String) -> (r: bool)
        ensures
            r == self.names().contains(name@),
    {
        let mut i: usize = 0;
        while i < self.names.len()
            invariant
                i <= self.names@.len(),
                forall|k: int| 0 <= k < i ==> self.names@[k]@ != name@,
            decreases self.names@.len() - i,
        {
            if self.names[i] == *name {
                proof {
                    assert(self.names()[i as int] == name@);
                }
                return true;
            }
            i = i + 1;
        }
        proof {
            if self.names().contains(name@) {
                let k = choose|k: int| 0 <= k < self.names().len() && self.names()[k] == name@;
                assert(self.names@[k]@ == name@);
            }
        }
        false
    }

    /// Records `name` as registered. Returns `true` when it was not yet, so that
    /// the class is to be registered with the system now, and `false` when it
    /// already was.
    pub fn register(&mut self, name: String) -> (newly: bool)
        requires
            old(self).well_formed(),
        ensures
            final(self).well_formed(),
            newly == !old(self).names().contains(name@),
            final(self).names() == (if newly {
                old(self).names().push(name@)
            } else {
                old(self).names()
            }),
    {
        if self.contains(&name) {
            return false;
        }
        let ghost n = name@;
        self.names.push(name);
        proof {
            assert(self.names() =~= old(self).names().push(n));
            assert forall|i: int, j: int|
                0 <= i < j < self.names@.len() implies #[trigger] self.names@[i]@ != #[trigger] self.names@[j]@ by {
                if j == self.names@.len() - 1 {
                    assert(old(self).names()[i] == self.names@[i]@);
                }
            }
        }
        true
    }
}

/// A class is registered with the system once: whatever the names were, after
/// `register(name)` they hold `name`, so registering it again returns `false`.
pub proof fn lemma_register_once(before: Seq<Seq<char>>, name: Seq<char>)
    ensures
        ({
            let after = if !before.contains(name) {
                before.push(name)
            } else {
                before
            };
            after.contains(name)
        }),
{
    if !before.contains(name) {
        assert(before.push(name)[before.len() as int] == name);
    }
}

/// Moving a window by `(dl, dt)` and then by `(-dl, -dt)` puts it back where it
/// was, also where a coordinate wrapped around.
pub proof fn lemma_move_back(a: WindowArea, dl: i32, dt: i32)
    requires
        dl != i32::MIN,
        dt != i32::MIN,
    ensures
        spec_move_by(spec_move_by(a, dl, dt), (-dl) as i32, (-dt) as i32) == a,
{
}

/// The picture of a layered fence before its parts draw on it: `width` x
/// `height` pixels, each the background colour `argb`.
pub fn layered_pixels(width: i32, height: i32, argb: u32) -> (r: Vec<u32>)
    requires
        width >= 0,
        height >= 0,
        width * height <= usize::MAX,
    ensures
        r@.len() == width * height,
        forall|i: int| 0 <= i < r@.len() ==> #[trigger] r@[i] == argb,
{
    let n: usize = (width as usize) * (height as usize);
    let mut out: Vec<u32> = Vec::new();
    let mut i: usize = 0;
    while i < n
        invariant
            i <= n,
            out@.len() == i,
            forall|k: int| 0 <= k < i ==> #[trigger] out@[k] == argb,
        decreases n - i,
    {
        out.push(argb);
        i = i + 1;
    }
    out
}

} // verus!

