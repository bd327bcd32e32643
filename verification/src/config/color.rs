//! A colour stored as `AARRGGBB`, read from and written to `#RRGGBB` /
//! `#AARRGGBB` strings.

use vstd::prelude::*;
use vstd::string::StringSliceAdditionalSpecFns;

use crate::text::{hex_digit, hex_value, parse_radix16, pow16, radix16};
use crate::geo::{fits_i32, Rect};

verus! {

/// A colour value stored as **AARRGGBB** (alpha, red, green, blue).
///
/// A six-digit string `#RRGGBB` reads as fully opaque (alpha `0xFF`); an
/// eight-digit string `#AARRGGBB` keeps the alpha it gives.
#[derive(Clone, Copy, Debug, PartialEq, Eq, Structural, PartialOrd, Ord, Hash)]
pub struct Color(pub u32);

/// Why a string is not a colour.
#[derive(Clone, Copy, Debug, PartialEq, Eq, Structural)]
pub enum ColorError {
    /// The string does not start with `#`.
    MissingHash,
    /// After `#` come 6 or 8 bytes that are not a hexadecimal number.
    InvalidHexDigits,
    /// After `#` comes a number of bytes that the colour's text form does not
    /// take: neither 6 nor 8, or 8 for a colour that carries no alpha.
    InvalidLength,
}

impl ColorError {
    /// The message that the configuration reader reports for this error.
    pub fn message(&self) -> (r: &'static str)
        ensures
            r@ == (match self {
                ColorError::MissingHash => "missing leading #"@,
                ColorError::InvalidHexDigits => "invalid hex digits"@,
                ColorError::InvalidLength => "hex color must be 6 or 8 characters"@,
            }),
    {
        match self {
            ColorError::MissingHash => "missing leading #",
            ColorError::InvalidHexDigits => "invalid hex digits",
            ColorError::InvalidLength => "hex color must be 6 or 8 characters",
        }
    }
}

/// Byte `k` (0 = least significant) of a 32-bit value.
pub open spec fn byte_of(v: u32, k: nat) -> u8 {
    ((v as nat / pow16(2 * k)) % 256) as u8
}

/// The colour that the UTF-8 bytes `s` of a configuration string stand for.
pub open spec fn spec_parse(s: Seq<u8>) -> Result<Color, ColorError> {
    if s.len() == 0 || s[0] != 35u8 {
        Err(ColorError::MissingHash)
    } else {
        let hex = s.drop_first();
        if hex.len() == 6 {
            match radix16(hex) {
                Some(rgb) => Ok(Color((0xFF00_0000 + rgb) as u32)),
                None => Err(ColorError::InvalidHexDigits),
            }
        } else if hex.len() == 8 {
            match radix16(hex) {
                Some(argb) => Ok(Color(argb)),
                None => Err(ColorError::InvalidHexDigits),
            }
        } else {
            Err(ColorError::InvalidLength)
        }
    }
}

/// The upper-case hexadecimal digit for `n < 16`.
pub open spec fn hex_char(n: u32) -> char {
    if n < 10 {
        ((n + 48) as u8) as char
    } else {
        ((n + 55) as u8) as char
    }
}

/// Digit `k` (0 = most significant) of the eight hexadecimal digits of `v`.
pub open spec fn nibble(v: u32, k: int) -> u32 {
    ((v as nat / pow16((7 - k) as nat)) % 16) as u32
}

/// `v` as exactly eight upper-case hexadecimal digits.
pub open spec fn hex8(v: u32) -> Seq<char> {
    Seq::new(8, |k: int| hex_char(nibble(v, k)))
}

/// The string a colour is saved as: `#` and its eight digits `AARRGGBB`.
pub open spec fn spec_format(c: Color) -> Seq<char> {
    seq!['#'] + hex8(c.0)
}

proof fn lemma_pow16_values()
    ensures
        pow16(0) == 1,
        pow16(1) == 16,
        pow16(2) == 256,
        pow16(3) == 4096,
        pow16(4) == 65536,
        pow16(5) == 1048576,
        pow16(6) == 16777216,
        pow16(7) == 268435456,
        pow16(8) == 4294967296,
{
    reveal_with_fuel(pow16, 9);
}

/// How to paint a rectangle with a colour.
#[derive(Clone, Copy, Debug, PartialEq, Eq, Structural)]
pub enum Fill {
    /// Fill the rectangle with the `COLORREF` `colorref`.
    Solid { colorref: u32 },
    /// Fill a `width` by `height` bitmap with `colorref` and blend it over the
    /// rectangle with constant alpha `alpha`.
    Blend { colorref: u32, alpha: u8, width: i32, height: i32 },
    /// Paint nothing.
    Skip,
}

/// The Win32 `COLORREF` (`0x00BBGGRR`) of the ARGB value `v`.
pub open spec fn spec_bgr(v: u32) -> u32 {
    (byte_of(v, 0) * 65536 + byte_of(v, 1) * 256 + byte_of(v, 2)) as u32
}

impl Color {
    /// A colour from its `AARRGGBB` value.
    pub fn from_argb(n: u32) -> (r: Self)
        ensures
            r.0 == n,
    {
        Color(n)
    }

    /// The `AARRGGBB` value.
    pub fn argb(&self) -> (r: u32)
        ensures
            r == self.0,
    {
        self.0
    }

    /// Red: the second most significant byte.
    pub fn r(&self) -> (r: u8)
        ensures
            r == byte_of(self.0, 2),
    {
        let v = self.0;
        proof {
            lemma_pow16_values();
            assert(((v >> 16u32) & 0xFFu32) == (v / 65536) % 256) by (bit_vector);
        }
        ((v >> 16u32) & 0xFF) as u8
    }

    /// Green: the third most significant byte.
    pub fn g(&self) -> (r: u8)
        ensures
            r == byte_of(self.0, 1),
    {
        let v = self.0;
        proof {
            lemma_pow16_values();
            assert(((v >> 8u32) & 0xFFu32) == (v / 256) % 256) by (bit_vector);
        }
        ((v >> 8u32) & 0xFF) as u8
    }

    /// Blue: the least significant byte.
    pub fn b(&self) -> (r: u8)
        ensures
            r == byte_of(self.0, 0),
    {
        let v = self.0;
        proof {
            lemma_pow16_values();
            assert((v & 0xFFu32) == v % 256) by (bit_vector);
            assert(v as nat / pow16(0) == v);
        }
        (v & 0xFF) as u8
    }

    /// Alpha: the most significant byte.
    pub fn a(&self) -> (r: u8)
        ensures
            r == byte_of(self.0, 3),
    {
        let v = self.0;
        proof {
            lemma_pow16_values();
            assert(((v >> 24u32) & 0xFFu32) == (v / 16777216) % 256) by (bit_vector);
        }
        ((v >> 24u32) & 0xFF) as u8
    }

    /// The Win32 `COLORREF` of this colour: `0x00BBGGRR`.
    pub fn bgr(&self) -> (r: u32)
        ensures
            r == byte_of(self.0, 0) * 65536 + byte_of(self.0, 1) * 256 + byte_of(self.0, 2),
            r == spec_bgr(self.0),
    {
        let b = self.b() as u32;
        let g = self.g() as u32;
        let r = self.r() as u32;
        assert((b << 16u32) | (g << 8u32) | r == b * 65536 + g * 256 + r) by (bit_vector)
            requires
                b < 256,
                g < 256,
                r < 256,
        ;
        (b << 16) | (g << 8) | r
    }

    /// `0xAABBGGRR`: the `COLORREF` with the alpha byte on top.
    pub fn abgr(&self) -> (r: u32)
        ensures
            r == byte_of(self.0, 3) * 16777216 + byte_of(self.0, 0) * 65536 + byte_of(self.0, 1)
                * 256 + byte_of(self.0, 2),
    {
        let a = self.a() as u32;
        let rest = self.bgr();
        assert((a << 24u32) | rest == a * 16777216 + rest) by (bit_vector)
            requires
                a < 256,
                rest < 16777216,
        ;
        (a << 24) | rest
    }

    /// How the colour paints `rect`: opaque colours fill it, others are blended
    /// over it with their alpha.
    pub fn fill(&self, rect: &Rect) -> (r: Fill)
        requires
            byte_of(self.0, 3) != 255 ==> fits_i32(rect.right - rect.left) && fits_i32(rect.bottom
                - rect.top),
        ensures
            r == (if byte_of(self.0, 3) == 255 {
                Fill::Solid { colorref: spec_bgr(self.0) }
            } else {
                Fill::Blend {
                    colorref: spec_bgr(self.0),
                    alpha: byte_of(self.0, 3),
                    width: (rect.right - rect.left) as i32,
                    height: (rect.bottom - rect.top) as i32,
                }
            }),
    {
        let alpha = self.a();
        let colorref = self.bgr();
        if alpha == 255 {
            Fill::Solid { colorref }
        } else {
            Fill::Blend {
                colorref,
                alpha,
                width: rect.right - rect.left,
                height: rect.bottom - rect.top,
            }
        }
    }

    /// Reads a colour from `#RRGGBB` (opaque) or `#AARRGGBB`.
    pub fn parse(v: &str) -> (r: Result<Color, ColorError>)
        ensures
            r == spec_parse(v.spec_bytes()),
    {
        let s = v.as_bytes();
        if s.len() == 0 || s[0] != 35u8 {
            return Err(ColorError::MissingHash);
        }
        let hex = slice_from_one(s);
        assert(hex@ =~= s@.drop_first());
        if hex.len() == 6 {
            match parse_radix16(hex) {
                Some(rgb) => {
                    proof {
                        assert(rgb < 0x100_0000) by {
                            let d = if hex@[0] == 43u8 { hex@.drop_first() } else { hex@ };
                            crate::text::lemma_hex_value_bound(d);
                            lemma_pow16_values();
                            assert(pow16(d.len()) <= pow16(6)) by {
                                reveal_with_fuel(pow16, 7);
                            }
                        }
                    }
                    Ok(Color(0xFF00_0000 + rgb))
                },
                None => Err(ColorError::InvalidHexDigits),
            }
        } else if hex.len() == 8 {
            match parse_radix16(hex) {
                Some(argb) => Ok(Color(argb)),
                None => Err(ColorError::InvalidHexDigits),
            }
        } else {
            Err(ColorError::InvalidLength)
        }
    }

    /// Writes the colour as `#AARRGGBB` with upper-case digits.
    pub fn to_hex_string(&self) -> (r: String)
        ensures
            r@ == spec_format(*self),
    {
        let v = self.0;
        let mut out = String::new();
        out.push('#');
        let mut k: u32 = 0;
        while k < 8
            invariant
                k <= 8,
                out@ == seq!['#'] + hex8(v).take(k as int),
            decreases 8 - k,
        {
            let shift: u32 = (7 - k) * 4;
            let n = (v >> shift) & 0xF;
            proof {
                lemma_nibble_shift(v, k);
            }
            let c = if n < 10 {
                ((n + 48) as u8) as char
            } else {
                ((n + 55) as u8) as char
            };
            out.push(c);
            proof {
                assert(hex8(v).take(k + 1) =~= hex8(v).take(k as int).push(c));
            }
            k = k + 1;
        }
        assert(hex8(v).take(8) =~= hex8(v));
        out
    }
}

proof fn lemma_nibble_facts(v: u32)
    by (bit_vector)
    ensures
        (v >> 28u32) & 0xFu32 == (v / 268435456) % 16,
        (v >> 24u32) & 0xFu32 == (v / 16777216) % 16,
        (v >> 20u32) & 0xFu32 == (v / 1048576) % 16,
        (v >> 16u32) & 0xFu32 == (v / 65536) % 16,
        (v >> 12u32) & 0xFu32 == (v / 4096) % 16,
        (v >> 8u32) & 0xFu32 == (v / 256) % 16,
        (v >> 4u32) & 0xFu32 == (v / 16) % 16,
        v >> 0u32 == v,
        v & 0xFu32 == v % 16,
{
}

pub proof fn lemma_nibble_shift(v: u32, k: u32)
    requires
        k < 8,
    ensures
        (v >> ((7 - k) * 4) as u32) & 0xF == nibble(v, k as int),
{
    lemma_pow16_values();
    lemma_nibble_facts(v);
    let e = (7 - k) as nat;
    let sh = ((7 - k) * 4) as u32;
    if k == 0 {
        assert(e == 7 && sh == 28);
    } else if k == 1 {
        assert(e == 6 && sh == 24);
    } else if k == 2 {
        assert(e == 5 && sh == 20);
    } else if k == 3 {
        assert(e == 4 && sh == 16);
    } else if k == 4 {
        assert(e == 3 && sh == 12);
    } else if k == 5 {
        assert(e == 2 && sh == 8);
    } else if k == 6 {
        assert(e == 1 && sh == 4);
    } else {
        assert(e == 0 && sh == 0);
        assert(v as nat / 1 == v);
    }
}

/// The bytes after the first one.
fn slice_from_one(s: &[u8]) -> (r: &[u8])
    requires
        s@.len() >= 1,
    ensures
        r@ == s@.subrange(1, s@.len() as int),
{
    let (_, rest) = s.split_at(1);
    rest
}

} // verus!

verus! {

proof fn lemma_hex_char_digit(n: u32)
    requires
        n < 16,
    ensures
        (hex_char(n) as u32) < 128,
        hex_digit(hex_char(n) as u8) == Some(n),
        hex_char(n) as u8 != 43u8,
{
}

proof fn lemma_horner4(x: u32)
    requires
        x < 65536,
    ensures
        ({
            let a1 = ((x >> 12u32) & 15u32) * 16 + ((x >> 8u32) & 15u32);
            let a2 = a1 * 16 + ((x >> 4u32) & 15u32);
            a2 * 16 + (x & 15u32) == x
        }),
{
    let n0 = (x >> 12u32) & 15u32;
    let n1 = (x >> 8u32) & 15u32;
    let n2 = (x >> 4u32) & 15u32;
    let n3 = x & 15u32;
    assert(n0 * 4096u32 + n1 * 256u32 + n2 * 16u32 + n3 == x) by (bit_vector)
        requires
            x < 65536,
            n0 == (x >> 12u32) & 15u32,
            n1 == (x >> 8u32) & 15u32,
            n2 == (x >> 4u32) & 15u32,
            n3 == x & 15u32,
    ;
}

proof fn lemma_horner8(v: u32)
    ensures
        ({
            let a1 = nibble(v, 0) as nat * 16 + nibble(v, 1);
            let a2 = a1 * 16 + nibble(v, 2);
            let a3 = a2 * 16 + nibble(v, 3);
            let a4 = a3 * 16 + nibble(v, 4);
            let a5 = a4 * 16 + nibble(v, 5);
            let a6 = a5 * 16 + nibble(v, 6);
            a6 * 16 + nibble(v, 7) == v as nat
        }),
{
    lemma_nibble_shift(v, 0);
    lemma_nibble_shift(v, 1);
    lemma_nibble_shift(v, 2);
    lemma_nibble_shift(v, 3);
    lemma_nibble_shift(v, 4);
    lemma_nibble_shift(v, 5);
    lemma_nibble_shift(v, 6);
    lemma_nibble_shift(v, 7);
    let x = v >> 16u32;
    let y = v & 0xFFFFu32;
    assert(x < 65536 && y < 65536 && v == x * 65536 + y && (v >> 28u32) & 15u32 == (x >> 12u32) & 15u32
        && (v >> 24u32) & 15u32 == (x >> 8u32) & 15u32 && (v >> 20u32) & 15u32 == (x >> 4u32) & 15u32
        && (v >> 16u32) & 15u32 == x & 15u32 && (v >> 12u32) & 15u32 == (y >> 12u32) & 15u32 && (v >> 8u32)
        & 15u32 == (y >> 8u32) & 15u32 && (v >> 4u32) & 15u32 == (y >> 4u32) & 15u32 && v & 15u32 == y
        & 15u32 && v >> 0u32 == v) by (bit_vector)
        requires
            x == v >> 16u32,
            y == v & 0xFFFFu32,
    ;
    lemma_horner4(x);
    lemma_horner4(y);
    let a3 = nibble(v, 0) as nat * 4096 + nibble(v, 1) * 256 + nibble(v, 2) * 16 + nibble(v, 3);
    assert(a3 == x);
    assert(a3 * 65536 + nibble(v, 4) * 4096 + nibble(v, 5) * 256 + nibble(v, 6) * 16 + nibble(v, 7)
        == v);
}

/// The bytes of the eight digits of `v`.
pub open spec fn hex8_bytes(v: u32) -> Seq<u8> {
    Seq::new(8, |k: int| hex8(v)[k] as u8)
}

/// Each digit byte of `hex8(v)` reads back as the matching nibble, and the eight
/// of them spell `v`.
pub proof fn lemma_hex8_digits(v: u32)
    ensures
        forall|k: int| 0 <= k < 8 ==> #[trigger] hex_digit(hex8_bytes(v)[k]) == Some(nibble(v, k)),
        forall|k: int| 0 <= k < 8 ==> (#[trigger] hex8(v)[k] as u32) < 128,
        crate::text::all_hex(hex8_bytes(v)),
        hex8_bytes(v)[0] != 43u8,
        hex8_bytes(v)[2] != 43u8,
        hex_value(hex8_bytes(v)) == v,
        hex_value(hex8_bytes(v).subrange(2, 8)) == v as nat % 16777216,
{
    let hex = hex8_bytes(v);
    assert forall|k: int| 0 <= k < 8 implies nibble(v, k) < 16 by {}
    assert forall|k: int| 0 <= k < 8 implies (#[trigger] hex8(v)[k] as u32) < 128 by {
        lemma_hex_char_digit(nibble(v, k));
    }
    assert forall|k: int| 0 <= k < 8 implies #[trigger] hex_digit(hex[k]) == Some(nibble(v, k)) by {
        lemma_hex_char_digit(nibble(v, k));
    }
    lemma_hex_char_digit(nibble(v, 0));
    lemma_hex_char_digit(nibble(v, 2));
    assert(crate::text::all_hex(hex)) by {
        assert forall|k: int| 0 <= k < hex.len() implies (#[trigger] hex_digit(hex[k])) is Some by {
            assert(hex_digit(hex[k]) == Some(nibble(v, k)));
        }
    }
    let h7 = hex.take(7);
    let h6 = hex.take(6);
    let h5 = hex.take(5);
    let h4 = hex.take(4);
    let h3 = hex.take(3);
    let h2 = hex.take(2);
    let h1 = hex.take(1);
    let h0 = hex.take(0);
    assert(hex.drop_last() =~= h7);
    assert(h7.drop_last() =~= h6);
    assert(h6.drop_last() =~= h5);
    assert(h5.drop_last() =~= h4);
    assert(h4.drop_last() =~= h3);
    assert(h3.drop_last() =~= h2);
    assert(h2.drop_last() =~= h1);
    assert(h1.drop_last() =~= h0);
    assert(hex_value(h0) == 0);
    assert(hex_value(h1) == nibble(v, 0)) by {
        assert(h1.last() == hex[0]);
    }
    assert(hex_value(h2) == hex_value(h1) * 16 + nibble(v, 1)) by {
        assert(h2.last() == hex[1]);
    }
    assert(hex_value(h3) == hex_value(h2) * 16 + nibble(v, 2)) by {
        assert(h3.last() == hex[2]);
    }
    assert(hex_value(h4) == hex_value(h3) * 16 + nibble(v, 3)) by {
        assert(h4.last() == hex[3]);
    }
    assert(hex_value(h5) == hex_value(h4) * 16 + nibble(v, 4)) by {
        assert(h5.last() == hex[4]);
    }
    assert(hex_value(h6) == hex_value(h5) * 16 + nibble(v, 5)) by {
        assert(h6.last() == hex[5]);
    }
    assert(hex_value(h7) == hex_value(h6) * 16 + nibble(v, 6)) by {
        assert(h7.last() == hex[6]);
    }
    assert(hex_value(hex) == hex_value(h7) * 16 + nibble(v, 7)) by {
        assert(hex.last() == hex[7]);
    }
    lemma_horner8(v);
    let t = hex.subrange(2, 8);
    let t5 = t.take(5);
    let t4 = t.take(4);
    let t3 = t.take(3);
    let t2 = t.take(2);
    let t1 = t.take(1);
    let t0 = t.take(0);
    assert(t.drop_last() =~= t5);
    assert(t5.drop_last() =~= t4);
    assert(t4.drop_last() =~= t3);
    assert(t3.drop_last() =~= t2);
    assert(t2.drop_last() =~= t1);
    assert(t1.drop_last() =~= t0);
    assert(hex_value(t0) == 0);
    assert(hex_value(t1) == nibble(v, 2)) by {
        assert(t1.last() == hex[2]);
    }
    assert(hex_value(t2) == hex_value(t1) * 16 + nibble(v, 3)) by {
        assert(t2.last() == hex[3]);
    }
    assert(hex_value(t3) == hex_value(t2) * 16 + nibble(v, 4)) by {
        assert(t3.last() == hex[4]);
    }
    assert(hex_value(t4) == hex_value(t3) * 16 + nibble(v, 5)) by {
        assert(t4.last() == hex[5]);
    }
    assert(hex_value(t5) == hex_value(t4) * 16 + nibble(v, 6)) by {
        assert(t5.last() == hex[6]);
    }
    assert(hex_value(t) == hex_value(t5) * 16 + nibble(v, 7)) by {
        assert(t.last() == hex[7]);
    }
    lemma_low_six_nibbles(v);
}

proof fn lemma_low_six_nibbles(v: u32)
    ensures
        ({
            let a1 = nibble(v, 2) as nat * 16 + nibble(v, 3);
            let a2 = a1 * 16 + nibble(v, 4);
            let a3 = a2 * 16 + nibble(v, 5);
            let a4 = a3 * 16 + nibble(v, 6);
            a4 * 16 + nibble(v, 7) == v as nat % 16777216
        }),
{
    lemma_nibble_shift(v, 2);
    lemma_nibble_shift(v, 3);
    lemma_nibble_shift(v, 4);
    lemma_nibble_shift(v, 5);
    lemma_nibble_shift(v, 6);
    lemma_nibble_shift(v, 7);
    let y = v & 0xFFFFu32;
    let z = (v >> 16u32) & 0xFFu32;
    assert(y < 65536 && v % 16777216 == z * 65536 + y && (v >> 20u32) & 15u32 == (z >> 4u32) & 15u32
        && (v >> 16u32) & 15u32 == z & 15u32 && z == ((z >> 4u32) & 15u32) * 16 + (z & 15u32) && (v
        >> 12u32) & 15u32 == (y >> 12u32) & 15u32 && (v >> 8u32) & 15u32 == (y >> 8u32) & 15u32 && (v
        >> 4u32) & 15u32 == (y >> 4u32) & 15u32 && v & 15u32 == y & 15u32 && v >> 0u32 == v) by (bit_vector)
        requires
            y == v & 0xFFFFu32,
            z == (v >> 16u32) & 0xFFu32,
    ;
    lemma_horner4(y);
}

/// The UTF-8 bytes of `#` followed by the digits `hex8(v)[from..8]`.
pub proof fn lemma_format_bytes(v: u32, from: int)
    requires
        0 <= from <= 8,
    ensures
        vstd::utf8::encode_utf8(seq!['#'] + hex8(v).subrange(from, 8)) =~= seq![35u8]
            + hex8_bytes(v).subrange(from, 8),
{
    lemma_hex8_digits(v);
    let chars = seq!['#'] + hex8(v).subrange(from, 8);
    assert(vstd::utf8::is_ascii_chars(chars)) by {
        assert forall|i: int| 0 <= i < chars.len() implies (#[trigger] chars[i] as u32) < 128 by {
            if i > 0 {
                assert(chars[i] == hex8(v)[from + i - 1]);
            }
        }
    }
    vstd::utf8::is_ascii_chars_encode_utf8(chars);
    let bytes = vstd::utf8::encode_utf8(chars);
    assert forall|i: int| 0 <= i < bytes.len() implies bytes[i] == (seq![35u8] + hex8_bytes(
        v,
    ).subrange(from, 8))[i] by {
        if i > 0 {
            assert(chars[i] == hex8(v)[from + i - 1]);
        }
    }
}

/// Writing a colour and reading the text back gives the same colour.
pub proof fn lemma_format_parse_roundtrip(c: Color)
    ensures
        spec_parse(vstd::utf8::encode_utf8(spec_format(c))) == Ok::<Color, ColorError>(c),
{
    let v = c.0;
    lemma_format_bytes(v, 0);
    assert(hex8(v).subrange(0, 8) =~= hex8(v));
    assert(hex8_bytes(v).subrange(0, 8) =~= hex8_bytes(v));
    lemma_hex8_digits(v);
    let bytes = vstd::utf8::encode_utf8(spec_format(c));
    assert(bytes.drop_first() =~= hex8_bytes(v));
}

} // verus!
