//! A colour stored in Win32 `COLORREF` order (`AABBGGRR`), whose text form may or
//! may not carry an alpha component.

use vstd::prelude::*;
use vstd::string::StringSliceAdditionalSpecFns;

use crate::config::color::{byte_of, hex8, ColorError, Fill};
use crate::geo::{fits_i32, Rect};
use crate::text::{parse_radix16, radix16};

verus! {

/// A colour value stored as **AABBGGRR** (alpha, blue, green, red), the Win32
/// `COLORREF` layout with an alpha byte on top.
///
/// `ACCEPTS_ALPHA` says whether the text form carries alpha: when it does, colours
/// read from `#RRGGBB` are opaque, `#AARRGGBB` keeps its alpha, and colours are
/// written as `#AARRGGBB`; when it does not, only `#RRGGBB` is read, with alpha 0,
/// and colours are written as `#RRGGBB`.
#[derive(Clone, Copy, Debug, PartialEq, Eq, PartialOrd, Ord, Hash)]
pub struct Color<const ACCEPTS_ALPHA: bool>(pub u32);

/// `AABBGGRR` from the four channels.
pub open spec fn compose(a: u8, b: u8, g: u8, r: u8) -> u32 {
    (a as nat * 16777216 + b as nat * 65536 + g as nat * 256 + r as nat) as u32
}

/// The colour that the UTF-8 bytes `s` stand for, given whether alpha is read:
/// `#RRGGBB` always, `#AARRGGBB` only where alpha is carried.
pub open spec fn spec_parse_colorref(s: Seq<u8>, accepts_alpha: bool) -> Result<u32, ColorError> {
    if s.len() == 0 || s[0] != 35u8 {
        Err(ColorError::MissingHash)
    } else {
        let hex = s.drop_first();
        if hex.len() == 6 {
            match radix16(hex) {
                Some(rgb) => Ok(
                    compose(
                        if accepts_alpha { 0xFFu8 } else { 0u8 },
                        byte_of(rgb, 0),
                        byte_of(rgb, 1),
                        byte_of(rgb, 2),
                    ),
                ),
                None => Err(ColorError::InvalidHexDigits),
            }
        } else if hex.len() == 8 && accepts_alpha {
            match radix16(hex) {
                Some(argb) => Ok(
                    compose(byte_of(argb, 3), byte_of(argb, 0), byte_of(argb, 1), byte_of(argb, 2)),
                ),
                None => Err(ColorError::InvalidHexDigits),
            }
        } else {
            Err(ColorError::InvalidLength)
        }
    }
}

/// The value in the order its text form spells it: `AARRGGBB`.
pub open spec fn text_order(v: u32) -> u32 {
    compose(byte_of(v, 3), byte_of(v, 0), byte_of(v, 1), byte_of(v, 2))
}

/// The text a colour is written as: `#AARRGGBB` when alpha is carried, else
/// `#RRGGBB`.
pub open spec fn spec_format_colorref(v: u32, accepts_alpha: bool) -> Seq<char> {
    if accepts_alpha {
        seq!['#'] + hex8(text_order(v))
    } else {
        seq!['#'] + hex8(text_order(v)).subrange(2, 8)
    }
}

impl<const ACCEPTS_ALPHA: bool> Color<ACCEPTS_ALPHA> {
    /// Red: the least significant byte.
    pub fn r(&self) -> (r: u8)
        ensures
            r == byte_of(self.0, 0),
    {
        let v = self.0;
        proof {
            assert((v & 0xFFu32) == v % 256) by (bit_vector);
            reveal_with_fuel(crate::text::pow16, 1);
            assert(v as nat / 1 == v);
        }
        (v & 0xFF) as u8
    }

    /// Green: the second least significant byte.
    pub fn g(&self) -> (r: u8)
        ensures
            r == byte_of(self.0, 1),
    {
        let v = self.0;
        proof {
            reveal_with_fuel(crate::text::pow16, 3);
            assert(((v >> 8u32) & 0xFFu32) == (v / 256) % 256) by (bit_vector);
        }
        ((v >> 8u32) & 0xFF) as u8
    }

    /// Blue: the third least significant byte.
    pub fn b(&self) -> (r: u8)
        ensures
            r == byte_of(self.0, 2),
    {
        let v = self.0;
        proof {
            reveal_with_fuel(crate::text::pow16, 5);
            assert(((v >> 16u32) & 0xFFu32) == (v / 65536) % 256) by (bit_vector);
        }
        ((v >> 16u32) & 0xFF) as u8
    }

    /// Alpha: the most significant byte.
    pub fn a(&self) -> (r: u8)
        ensures
            r == byte_of(self.0, 3),
    {
        let v = self.0;
        proof {
            reveal_with_fuel(crate::text::pow16, 7);
            assert(((v >> 24u32) & 0xFFu32) == (v / 16777216) % 256) by (bit_vector);
        }
        ((v >> 24u32) & 0xFF) as u8
    }

    /// How the colour paints `rect`. Without alpha it fills the rectangle with
    /// its low three bytes. With alpha, an opaque colour fills it, a fully
    /// transparent one paints nothing, and any other is blended over it.
    pub fn fill(&self, rect: &Rect) -> (r: Fill)
        requires
            ACCEPTS_ALPHA && 0 < byte_of(self.0, 3) < 255 ==> fits_i32(rect.right - rect.left)
                && fits_i32(rect.bottom - rect.top),
        ensures
            r == (if !ACCEPTS_ALPHA || byte_of(self.0, 3) == 255 {
                Fill::Solid { colorref: (self.0 % 16777216) as u32 }
            } else if byte_of(self.0, 3) > 0 {
                Fill::Blend {
                    colorref: (self.0 % 16777216) as u32,
                    alpha: byte_of(self.0, 3),
                    width: (rect.right - rect.left) as i32,
                    height: (rect.bottom - rect.top) as i32,
                }
            } else {
                Fill::Skip
            }),
    {
        let v = self.0;
        let colorref = v & 0xFFFFFF;
        assert(v & 0xFFFFFFu32 == v % 16777216) by (bit_vector);
        if !ACCEPTS_ALPHA {
            return Fill::Solid { colorref };
        }
        let alpha = self.a();
        if alpha == 255 {
            Fill::Solid { colorref }
        } else if alpha > 0 {
            Fill::Blend {
                colorref,
                alpha,
                width: rect.right - rect.left,
                height: rect.bottom - rect.top,
            }
        } else {
            Fill::Skip
        }
    }

    /// Reads a colour into `COLORREF` order: from `#RRGGBB`, or from `#AARRGGBB`
    /// where alpha is carried.
    pub fn parse(v: &str) -> (r: Result<Self, ColorError>)
        ensures
            r matches Ok(c) ==> spec_parse_colorref(v.spec_bytes(), ACCEPTS_ALPHA) == Ok::<
                u32,
                ColorError,
            >(c.0),
            r matches Err(e) ==> spec_parse_colorref(v.spec_bytes(), ACCEPTS_ALPHA) == Err::<
                u32,
                ColorError,
            >(e),
    {
        let s = v.as_bytes();
        if s.len() == 0 || s[0] != 35u8 {
            return Err(ColorError::MissingHash);
        }
        let (_, hex) = s.split_at(1);
        assert(hex@ =~= s@.drop_first());
        if hex.len() == 6 || (hex.len() == 8 && ACCEPTS_ALPHA) {
            match parse_radix16(hex) {
                Some(n) => {
                    let r = (n >> 16u32) & 0xFF;
                    let g = (n >> 8u32) & 0xFF;
                    let b = n & 0xFF;
                    let a = if hex.len() == 6 {
                        if ACCEPTS_ALPHA { 0xFFu32 } else { 0u32 }
                    } else {
                        (n >> 24u32) & 0xFF
                    };
                    proof {
                        reveal_with_fuel(crate::text::pow16, 7);
                        assert(r == (n / 65536) % 256) by (bit_vector)
                            requires r == (n >> 16u32) & 0xFFu32;
                        assert(g == (n / 256) % 256) by (bit_vector)
                            requires g == (n >> 8u32) & 0xFFu32;
                        assert(b == n % 256) by (bit_vector)
                            requires b == n & 0xFFu32;
                        assert(((n >> 24u32) & 0xFFu32) == (n / 16777216) % 256) by (bit_vector);
                        assert(n as nat / 1 == n);
                        assert((a << 24u32) | (b << 16u32) | (g << 8u32) | r == a * 16777216 + b
                            * 65536 + g * 256 + r) by (bit_vector)
                            requires
                                a < 256,
                                b < 256,
                                g < 256,
                                r < 256,
                        ;
                    }
                    Ok(Color((a << 24u32) | (b << 16u32) | (g << 8u32) | r))
                },
                None => Err(ColorError::InvalidHexDigits),
            }
        } else {
            Err(ColorError::InvalidLength)
        }
    }

    /// Writes the colour as `#AARRGGBB` when alpha is carried, else as `#RRGGBB`,
    /// with upper-case digits.
    pub fn to_hex_string(&self) -> (r: String)
        ensures
            r@ == spec_format_colorref(self.0, ACCEPTS_ALPHA),
    {
        let (r8, g8, b8, a8) = (self.r(), self.g(), self.b(), self.a());
        let (r, g, b, a) = (r8 as u32, g8 as u32, b8 as u32, a8 as u32);
        assert((a << 24u32) | (r << 16u32) | (g << 8u32) | b == a * 16777216 + r * 65536 + g * 256
            + b) by (bit_vector)
            requires
                a < 256,
                r < 256,
                g < 256,
                b < 256,
        ;
        let v = (a << 24u32) | (r << 16u32) | (g << 8u32) | b;
        assert(v == text_order(self.0));
        let mut out = String::new();
        out.push('#');
        let mut k: u32 = if ACCEPTS_ALPHA { 0 } else { 2 };
        let ghost start = k;
        while k < 8
            invariant
                start <= k <= 8,
                start == (if ACCEPTS_ALPHA { 0u32 } else { 2u32 }),
                out@ == seq!['#'] + hex8(v).subrange(start as int, k as int),
            decreases 8 - k,
        {
            let shift: u32 = (7 - k) * 4;
            let n = (v >> shift) & 0xF;
            proof {
                crate::config::color::lemma_nibble_shift(v, k);
            }
            let c = if n < 10 {
                ((n + 48) as u8) as char
            } else {
                ((n + 55) as u8) as char
            };
            out.push(c);
            proof {
                assert(hex8(v).subrange(start as int, k + 1) =~= hex8(v).subrange(
                    start as int,
                    k as int,
                ).push(c));
            }
            k = k + 1;
        }
        assert(hex8(v).subrange(0, 8) =~= hex8(v));
        out
    }
}

} // verus!

verus! {

proof fn lemma_bytes_of(v: u32)
    ensures
        byte_of(v, 0) == v % 256,
        byte_of(v, 1) == (v / 256) % 256,
        byte_of(v, 2) == (v / 65536) % 256,
        byte_of(v, 3) == (v / 16777216) % 256,
        byte_of((v as nat % 16777216) as u32, 0) == byte_of(v, 0),
        byte_of((v as nat % 16777216) as u32, 1) == byte_of(v, 1),
        byte_of((v as nat % 16777216) as u32, 2) == byte_of(v, 2),
        v as nat == byte_of(v, 3) as nat * 16777216 + byte_of(v, 2) as nat * 65536 + byte_of(v, 1)
            as nat * 256 + byte_of(v, 0) as nat,
{
    reveal_with_fuel(crate::text::pow16, 7);
    assert(v as nat / 1 == v);
    let w = v % 16777216;
    assert(w as nat / 1 == w);
    assert(w % 256 == v % 256) by (bit_vector)
        requires
            w == v % 16777216,
    ;
    assert((w / 256) % 256 == (v / 256) % 256) by (bit_vector)
        requires
            w == v % 16777216,
    ;
    assert((w / 65536) % 256 == (v / 65536) % 256) by (bit_vector)
        requires
            w == v % 16777216,
    ;
    assert(v == ((v / 16777216) % 256) * 16777216 + ((v / 65536) % 256) * 65536 + ((v / 256) % 256)
        * 256 + v % 256) by (bit_vector);
}

proof fn lemma_compose_bytes(a: u8, b: u8, g: u8, r: u8)
    ensures
        byte_of(compose(a, b, g, r), 0) == r,
        byte_of(compose(a, b, g, r), 1) == g,
        byte_of(compose(a, b, g, r), 2) == b,
        byte_of(compose(a, b, g, r), 3) == a,
{
    reveal_with_fuel(crate::text::pow16, 7);
    let c = compose(a, b, g, r);
    assert(c as nat / 1 == c);
    assert(c == a * 16777216 + b * 65536 + g * 256 + r);
    assert(c % 256 == r && (c / 256) % 256 == g && (c / 65536) % 256 == b && (c / 16777216) % 256
        == a) by (bit_vector)
        requires
            c == a * 16777216 + b * 65536 + g * 256 + r,
    ;
}

/// The text that a colour is written as reads back as that colour: unchanged where
/// alpha is carried, and with alpha 0 where it is not.
pub proof fn lemma_colorref_format_parse(v: u32, accepts_alpha: bool)
    ensures
        spec_parse_colorref(
            vstd::utf8::encode_utf8(spec_format_colorref(v, accepts_alpha)),
            accepts_alpha,
        ) == Ok::<u32, ColorError>(
            if accepts_alpha {
                v
            } else {
                (v as nat % 16777216) as u32
            },
        ),
{
    let w = text_order(v);
    lemma_bytes_of(v);
    lemma_compose_bytes(byte_of(v, 3), byte_of(v, 0), byte_of(v, 1), byte_of(v, 2));
    crate::config::color::lemma_hex8_digits(w);
    lemma_bytes_of(w);
    let h = crate::config::color::hex8_bytes(w);
    let bytes = vstd::utf8::encode_utf8(spec_format_colorref(v, accepts_alpha));
    if accepts_alpha {
        crate::config::color::lemma_format_bytes(w, 0);
        assert(hex8(w).subrange(0, 8) =~= hex8(w));
        assert(bytes.drop_first() =~= h);
    } else {
        crate::config::color::lemma_format_bytes(w, 2);
        assert(bytes.drop_first() =~= h.subrange(2, 8));
        let t = h.subrange(2, 8);
        assert(t[0] == h[2]);
        assert(crate::text::all_hex(t)) by {
            assert forall|k: int| 0 <= k < t.len() implies (#[trigger] crate::text::hex_digit(
                t[k],
            )) is Some by {
                assert(t[k] == h[k + 2]);
            }
        }
        let low = (v as nat % 16777216) as u32;
        lemma_bytes_of(low);
        assert(low < 16777216);
        assert(byte_of(low, 3) == 0);
    }
}

/// The Win32 `COLORREF` of red `r`, green `g` and blue `b`: `0x00BBGGRR`.
pub fn rgb(r: u8, g: u8, b: u8) -> (c: u32)
    ensures
        c == compose(0, b, g, r),
{
    let (r32, g32, b32) = (r as u32, g as u32, b as u32);
    assert(r32 | (g32 << 8u32) | (b32 << 16u32) == b32 * 65536 + g32 * 256 + r32) by (bit_vector)
        requires
            r32 < 256,
            g32 < 256,
            b32 < 256,
    ;
    r32 | (g32 << 8) | (b32 << 16)
}

} // verus!

