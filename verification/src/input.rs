//! Reading the mouse position and command codes packed into window-message
//! parameters.

use vstd::prelude::*;

verus! {

/// The low 16 bits of `lparam`, read as a signed number, and the next 16 bits,
/// read the same way: the client coordinates of a mouse message.
pub open spec fn spec_point(lparam: isize) -> (i32, i32) {
    (((lparam as u16) as i16) as i32, (((lparam >> 16u32) as u16) as i16) as i32)
}

/// The mouse position `(x, y)` packed in a mouse message's `lparam`.
pub fn point_from_lparam(lparam: isize) -> (r: (i32, i32))
    ensures
        r == spec_point(lparam),
{
    let x = ((lparam & 0xFFFF) as i16) as i32;
    let y = (((lparam >> 16u32) & 0xFFFF) as i16) as i32;
    assert(((lparam & 0xFFFF) as i16) == ((lparam as u16) as i16)) by (bit_vector);
    assert((((lparam >> 16u32) & 0xFFFF) as i16) == (((lparam >> 16u32) as u16) as i16)) by (bit_vector);
    (x, y)
}

/// The low 16 bits of `wparam`: a command or scroll code.
pub fn loword(wparam: usize) -> (r: u16)
    ensures
        r == wparam as u16,
{
    let r = (wparam & 0xFFFF) as u16;
    assert(((wparam & 0xFFFF) as u16) == (wparam as u16)) by (bit_vector);
    r
}

/// The next 16 bits of `wparam`, read as a signed number: a wheel delta or thumb
/// position.
pub fn hiword_signed(wparam: usize) -> (r: i32)
    ensures
        r == (((wparam >> 16u32) as u16) as i16) as i32,
{
    let r = ((wparam >> 16u32) as i16) as i32;
    assert(((wparam >> 16u32) as i16) == (((wparam >> 16u32) as u16) as i16)) by (bit_vector);
    r
}

/// The `lparam` a mouse message carries for the point `(x, y)`: `x` in the low
/// 16 bits, `y` in the next 16.
pub open spec fn spec_make_lparam(x: i16, y: i16) -> isize {
    ((y as u16) as u32 * 65536 + (x as u16) as u32) as isize
}

/// Reading back the point packed into an `lparam` gives the point.
pub proof fn lemma_point_roundtrip(x: i16, y: i16)
    ensures
        spec_point(spec_make_lparam(x, y)) == (x as i32, y as i32),
{
    let lo = (x as u16) as u32;
    let hi = (y as u16) as u32;
    let v = (hi * 65536 + lo) as u32;
    assert(hi * 65536 + lo < 0x1_0000_0000) by (nonlinear_arith)
        requires
            hi < 65536,
            lo < 65536,
    ;
    assert((v as u16) == (x as u16) && ((v >> 16u32) as u16) == (y as u16)) by (bit_vector)
        requires
            v == (((y as u16) as u32) * 65536 + ((x as u16) as u32)) as u32,
    ;
    let l = v as isize;
    assert((l as u16) == (v as u16) && ((l >> 16u32) as u16) == ((v >> 16u32) as u16)) by (bit_vector)
        requires
            l == v as isize,
    ;
    assert(((x as u16) as i16) == x && ((y as u16) as i16) == y) by (bit_vector);
}

} // verus!
