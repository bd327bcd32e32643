//! Digit-level text helpers shared by the parsers and formatters.

use vstd::prelude::*;

verus! {

/// `String::push` (std): appends the character `ch` to the string. Claimed: the
/// string's characters afterwards are the ones before, followed by `ch`.
pub assume_specification[ std::string::String::push ](s: &mut std::string::String, ch: char)
    ensures
        final(s)@ == old(s)@.push(ch),
;

/// The value of one hexadecimal digit byte (`0-9`, `a-f`, `A-F`).
pub open spec fn hex_digit(b: u8) -> Option<u32> {
    if 48 <= b <= 57 {
        Some((b - 48) as u32)
    } else if 65 <= b <= 70 {
        Some((b - 55) as u32)
    } else if 97 <= b <= 102 {
        Some((b - 87) as u32)
    } else {
        None
    }
}

/// Every byte of `d` is a hexadecimal digit.
pub open spec fn all_hex(d: Seq<u8>) -> bool {
    forall|i: int| 0 <= i < d.len() ==> (#[trigger] hex_digit(d[i])) is Some
}

/// The number that the hexadecimal digits `d` spell, most significant first.
pub open spec fn hex_value(d: Seq<u8>) -> nat
    decreases d.len(),
{
    if d.len() == 0 {
        0
    } else {
        hex_value(d.drop_last()) * 16 + (match hex_digit(d.last()) {
            Some(v) => v as nat,
            None => 0,
        })
    }
}

/// `16` to the power `n`.
pub open spec fn pow16(n: nat) -> nat
    decreases n,
{
    if n == 0 {
        1
    } else {
        16 * pow16((n - 1) as nat)
    }
}

/// What `u32::from_str_radix(s, 16)` gives for at most eight digits: an optional
/// leading `+`, then one or more hexadecimal digits.
pub open spec fn radix16(s: Seq<u8>) -> Option<u32> {
    let d = if s.len() > 0 && s[0] == 43u8 {
        s.drop_first()
    } else {
        s
    };
    if d.len() == 0 || !all_hex(d) {
        None
    } else {
        Some(hex_value(d) as u32)
    }
}

/// Digits spell a number below `16` to the power of their count.
pub proof fn lemma_hex_value_bound(d: Seq<u8>)
    ensures
        hex_value(d) < pow16(d.len()),
    decreases d.len(),
{
    if d.len() > 0 {
        lemma_hex_value_bound(d.drop_last());
        let last = match hex_digit(d.last()) {
            Some(v) => v as nat,
            None => 0,
        };
        assert(last < 16);
        assert(hex_value(d) == hex_value(d.drop_last()) * 16 + last);
        assert(hex_value(d.drop_last()) * 16 + last < pow16((d.len() - 1) as nat) * 16)
            by (nonlinear_arith)
            requires
                hex_value(d.drop_last()) < pow16((d.len() - 1) as nat),
                last < 16,
        ;
    }
}

proof fn lemma_pow16_small(n: nat)
    requires
        n <= 8,
    ensures
        pow16(n) <= 0x1_0000_0000,
        n <= 7 ==> pow16(n) <= 0x1000_0000,
{
    reveal_with_fuel(pow16, 9);
}

fn hex_digit_exec(b: u8) -> (r: Option<u32>)
    ensures
        r == hex_digit(b),
{
    if 48 <= b && b <= 57 {
        Some((b - 48) as u32)
    } else if 65 <= b && b <= 70 {
        Some((b - 55) as u32)
    } else if 97 <= b && b <= 102 {
        Some((b - 87) as u32)
    } else {
        None
    }
}

/// Parses at most eight hexadecimal digits, optionally after a `+`, as
/// `u32::from_str_radix(_, 16)` does.
pub fn parse_radix16(s: &[u8]) -> (r: Option<u32>)
    requires
        s@.len() <= 9,
        s@.len() == 9 ==> s@[0] == 43u8,
    ensures
        r == radix16(s@),
{
    let start: usize = if s.len() > 0 && s[0] == 43u8 { 1 } else { 0 };
    let ghost d = if s@.len() > 0 && s@[0] == 43u8 { s@.drop_first() } else { s@ };
    assert(d =~= s@.subrange(start as int, s@.len() as int));
    if start >= s.len() {
        assert(d.len() == 0);
        return None;
    }
    let mut acc: u32 = 0;
    let mut i: usize = start;
    while i < s.len()
        invariant
            start <= i <= s@.len(),
            start < s@.len(),
            s@.len() - start <= 8,
            d =~= s@.subrange(start as int, s@.len() as int),
            d == (if s@.len() > 0 && s@[0] == 43u8 { s@.drop_first() } else { s@ }),
            all_hex(d.take(i - start)),
            acc as nat == hex_value(d.take(i - start)),
        decreases s@.len() - i,
    {
        match hex_digit_exec(s[i]) {
            None => {
                assert(d[i - start] == s@[i as int]);
                assert(hex_digit(d[i - start]) is None);
                assert(!all_hex(d));
                assert(radix16(s@) is None);
                return None;
            },
            Some(v) => {
                let ghost k = (i - start) as int;
                proof {
                    lemma_hex_value_bound(d.take(k));
                    lemma_pow16_small(k as nat);
                    assert(d.take(k + 1).drop_last() =~= d.take(k));
                    assert(d.take(k + 1).last() == s@[i as int]);
                }
                acc = acc * 16 + v;
                i = i + 1;
                proof {
                    assert forall|j: int| 0 <= j < d.take(k + 1).len() implies (#[trigger] hex_digit(
                        d.take(k + 1)[j],
                    )) is Some by {
                        if j < k {
                            assert(d.take(k + 1)[j] == d.take(k)[j]);
                        }
                    }
                }
            },
        }
    }
    assert(d.take(i - start) =~= d);
    Some(acc)
}

} // verus!

verus! {

/// The characters of a string, in order.
pub fn chars_of(s: &str) -> (r: Vec<char>)
    ensures
        r@ == s@,
{
    let mut out: Vec<char> = Vec::new();
    for c in it: s.chars()
        invariant
            out@ == it.seq().take(it.index() as int),
            it.seq() == s@,
    {
        proof {
            assert(it.seq().take(it.index() + 1) =~= it.seq().take(it.index() as int).push(c));
        }
        out.push(c);
    }
    assert(s@.take(s@.len() as int) =~= s@);
    out
}

/// `c` is an ASCII decimal digit.
pub open spec fn is_digit(c: char) -> bool {
    '0' <= c <= '9'
}

/// The number the decimal digits `d` spell, most significant first.
pub open spec fn decimal_value(d: Seq<char>) -> nat
    decreases d.len(),
{
    if d.len() == 0 {
        0
    } else {
        decimal_value(d.drop_last()) * 10 + ((d.last() as u32) - 48) as nat
    }
}

/// The decimal digits of `n`, without leading zeros ("0" for zero).
pub open spec fn decimal_chars(n: nat) -> Seq<char>
    decreases n,
{
    if n < 10 {
        seq![((n + 48) as u8) as char]
    } else {
        decimal_chars(n / 10).push((((n % 10) + 48) as u8) as char)
    }
}

pub proof fn lemma_decimal_chars(n: nat)
    ensures
        decimal_chars(n).len() >= 1,
        forall|i: int| 0 <= i < decimal_chars(n).len() ==> is_digit(#[trigger] decimal_chars(n)[i]),
        decimal_value(decimal_chars(n)) == n,
    decreases n,
{
    if n < 10 {
        let c = ((n + 48) as u8) as char;
        assert(c as u32 == n + 48);
        assert(decimal_chars(n).drop_last() =~= Seq::<char>::empty());
        assert(decimal_value(Seq::<char>::empty()) == 0);
        assert(decimal_chars(n).last() == c);
    } else {
        lemma_decimal_chars(n / 10);
        let p = decimal_chars(n / 10);
        let c = (((n % 10) + 48) as u8) as char;
        assert(c as u32 == n % 10 + 48);
        assert(decimal_chars(n).drop_last() =~= p);
        assert(decimal_chars(n).last() == c);
        assert(n == (n / 10) * 10 + n % 10);
        assert(decimal_value(decimal_chars(n)) == decimal_value(p) * 10 + ((c as u32) - 48) as nat);
        assert forall|i: int| 0 <= i < decimal_chars(n).len() implies is_digit(#[trigger] decimal_chars(n)[i]) by {
            if i < p.len() {
                assert(decimal_chars(n)[i] == p[i]);
            }
        }
    }
}

/// Appends the decimal digits of `pid` to `out`.
pub fn push_decimal(out: &mut String, pid: u32)
    ensures
        final(out)@ == old(out)@ + decimal_chars(pid as nat),
{
    let mut digits: Vec<char> = Vec::new();
    let mut n = pid;
    let ghost mut m: nat = pid as nat;
    while n >= 10
        invariant
            n as nat == m,
            decimal_chars(pid as nat) == decimal_chars(m) + digits@.reverse(),
        decreases n,
    {
        let c = ((n % 10 + 48) as u8) as char;
        digits.push(c);
        proof {
            assert(decimal_chars(m) == decimal_chars(m / 10).push(c));
            assert(digits@.reverse() =~= seq![c] + digits@.drop_last().reverse());
            assert(decimal_chars(m / 10) + digits@.reverse() =~= decimal_chars(m / 10).push(c)
                + digits@.drop_last().reverse());
            m = m / 10;
        }
        n = n / 10;
    }
    let c = ((n + 48) as u8) as char;
    digits.push(c);
    proof {
        assert(decimal_chars(m) == seq![c]);
        assert(digits@.reverse() =~= seq![c] + digits@.drop_last().reverse());
    }
    assert(decimal_chars(pid as nat) == digits@.reverse());
    let ghost start = out@;
    let mut k: usize = digits.len();
    while k > 0
        invariant
            k <= digits@.len(),
            out@ == start + digits@.reverse().take((digits@.len() - k) as int),
        decreases k,
    {
        k = k - 1;
        out.push(digits[k]);
        proof {
            assert(digits@.reverse().take((digits@.len() - k) as int) =~= digits@.reverse().take(
                (digits@.len() - k - 1) as int,
            ).push(digits@[k as int]));
            assert(start + digits@.reverse().take((digits@.len() - k) as int) =~= (start
                + digits@.reverse().take((digits@.len() - k - 1) as int)).push(digits@[k as int]));
        }
    }
    assert(digits@.reverse().take(digits@.len() as int) =~= digits@.reverse());
}

/// The position of the first NUL in a UTF-16 buffer a Win32 call filled, if
/// there is one: the text ends there.
pub fn until_nul(buf: &[u16]) -> (r: Option<usize>)
    ensures
        match r {
            Some(i) => i < buf@.len() && buf@[i as int] == 0 && forall|k: int| 0 <= k < i ==> buf@[k] != 0,
            None => forall|k: int| 0 <= k < buf@.len() ==> buf@[k] != 0,
        },
{
    let mut i: usize = 0;
    while i < buf.len()
        invariant
            i <= buf@.len(),
            forall|k: int| 0 <= k < i ==> buf@[k] != 0,
        decreases buf@.len() - i,
    {
        if buf[i] == 0 {
            return Some(i);
        }
        i = i + 1;
    }
    None
}

} // verus!

