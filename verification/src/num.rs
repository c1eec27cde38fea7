//! Integer parsing (`str::parse`, `from_str_radix`) and integer formatting
//! (`{}`, `{:X}`, `{:0N X}`) over character sequences.
use vstd::prelude::*;

verus! {

/// Value of `c` as a digit in `radix` (`char::to_digit`), or `None`.
pub open spec fn digit_value(c: char, radix: nat) -> Option<nat> {
    let u = c as u32;
    let d: int = if 0x30 <= u <= 0x39 {
        u - 0x30
    } else if 0x61 <= u <= 0x7A {
        u - 0x61 + 10
    } else if 0x41 <= u <= 0x5A {
        u - 0x41 + 10
    } else {
        99
    };
    if d < radix {
        Some(d as nat)
    } else {
        None
    }
}

pub open spec fn all_digits(s: Seq<char>, radix: nat) -> bool {
    forall|i: int| 0 <= i < s.len() ==> (#[trigger] digit_value(s[i], radix)) is Some
}

/// Value of a digit string (most significant first).
pub open spec fn digits_value(s: Seq<char>, radix: nat) -> nat
    decreases s.len(),
{
    if s.len() == 0 {
        0
    } else {
        let d = match digit_value(s.last(), radix) {
            Some(d) => d,
            None => 0,
        };
        digits_value(s.drop_last(), radix) * radix + d
    }
}

/// The digits after an optional leading `+`.
pub open spec fn unsigned_body(s: Seq<char>) -> Seq<char> {
    if s.len() > 0 && s[0] == '+' {
        s.skip(1)
    } else {
        s
    }
}

/// `uN::from_str_radix(s, radix)` for an unsigned type whose maximum is `max`.
pub open spec fn parse_unsigned(s: Seq<char>, radix: nat, max: nat) -> Option<nat> {
    let b = unsigned_body(s);
    if b.len() > 0 && all_digits(b, radix) && digits_value(b, radix) <= max {
        Some(digits_value(b, radix))
    } else {
        None
    }
}

/// `s.parse::<i64>()`.
pub open spec fn parse_i64(s: Seq<char>) -> Option<int> {
    if s.len() > 0 && s[0] == '-' {
        let b = s.skip(1);
        if b.len() > 0 && all_digits(b, 10) && digits_value(b, 10) <= 0x8000_0000_0000_0000 {
            Some(-digits_value(b, 10))
        } else {
            None
        }
    } else {
        match parse_unsigned(s, 10, 0x7FFF_FFFF_FFFF_FFFF) {
            Some(v) => Some(v as int),
            None => None,
        }
    }
}

pub proof fn lemma_digits_value_prefix(s: Seq<char>, radix: nat, k: int)
    requires
        0 <= k <= s.len(),
        radix >= 1,
        all_digits(s, radix),
    ensures
        digits_value(s.take(k), radix) <= digits_value(s, radix),
    decreases s.len() - k,
{
    if k < s.len() {
        lemma_digits_value_prefix(s, radix, k + 1);
        let t = s.take(k + 1);
        assert(t.drop_last() =~= s.take(k));
        assert(digits_value(t, radix) >= digits_value(s.take(k), radix) * radix) by (nonlinear_arith)
            requires
                digits_value(t, radix) == digits_value(t.drop_last(), radix) * radix + match digit_value(t.last(), radix) { Some(d) => d, None => 0nat },
                t.drop_last() == s.take(k),
        ;
        assert(digits_value(s.take(k), radix) * radix >= digits_value(s.take(k), radix)) by (nonlinear_arith)
            requires
                radix >= 1,
        ;
    } else {
        assert(s.take(k) =~= s);
    }
}

fn digit_of(c: char, radix: u32) -> (r: Option<u32>)
    requires
        2 <= radix <= 36,
    ensures
        r matches Some(d) ==> digit_value(c, radix as nat) == Some(d as nat),
        r is None ==> digit_value(c, radix as nat) is None,
{
    let u: u32 = c as u32;
    let d: u32 = if 0x30 <= u && u <= 0x39 {
        u - 0x30
    } else if 0x61 <= u && u <= 0x7A {
        u - 0x61 + 10
    } else if 0x41 <= u && u <= 0x5A {
        u - 0x41 + 10
    } else {
        99
    };
    if d < radix {
        Some(d)
    } else {
        None
    }
}

/// Digit string `v[lo..hi]` (no sign) in `radix`, if all digits and value `<= max`.
fn digits_in(v: &Vec<char>, lo: usize, hi: usize, radix: u32, max: u64) -> (r: Option<u64>)
    requires
        lo <= hi <= v.len(),
        2 <= radix <= 36,
    ensures
        ({
            let b = v@.subrange(lo as int, hi as int);
            &&& r matches Some(x) ==> all_digits(b, radix as nat) && digits_value(b, radix as nat)
                == x && x <= max
            &&& r is None ==> !(all_digits(b, radix as nat) && digits_value(b, radix as nat)
                <= max)
        }),
{
    let ghost b = v@.subrange(lo as int, hi as int);
    let mut acc: u64 = 0;
    let mut i: usize = lo;
    while i < hi
        invariant
            b == v@.subrange(lo as int, hi as int),
            lo <= i <= hi <= v.len(),
            2 <= radix <= 36,
            all_digits(b.take(i - lo), radix as nat),
            digits_value(b.take(i - lo), radix as nat) == acc,
            acc <= max,
        decreases hi - i,
    {
        let ghost pre = b.take(i - lo);
        let ghost cur = b.take(i - lo + 1);
        assert(cur.drop_last() =~= pre);
        assert(cur.last() == v@[i as int]);
        match digit_of(v[i], radix) {
            None => {
                assert(digit_value(b[i - lo], radix as nat) is None);
                return None;
            },
            Some(d) => {
                assert(all_digits(cur, radix as nat)) by {
                    assert forall|j: int| 0 <= j < cur.len() implies (#[trigger] digit_value(
                        cur[j],
                        radix as nat,
                    )) is Some by {
                        if j < cur.len() - 1 {
                            assert(cur[j] == pre[j]);
                        }
                    }
                }
                let ghost val: int = acc * radix + d;
                assert(digits_value(cur, radix as nat) == val);
                if d as u64 > max {
                    proof {
                        if all_digits(b, radix as nat) {
                            lemma_digits_value_prefix(b, radix as nat, i - lo + 1);
                            assert(digits_value(cur, radix as nat) >= d);
                        }
                    }
                    return None;
                }
                if acc > (max - d as u64) / (radix as u64) {
                    proof {
                        assert(val > max) by (nonlinear_arith)
                            requires
                                acc > (max - d) / (radix as int),
                                radix >= 2,
                                val == acc * radix + d,
                                d <= max,
                        ;
                        if all_digits(b, radix as nat) {
                            lemma_digits_value_prefix(b, radix as nat, i - lo + 1);
                        }
                    }
                    return None;
                }
                proof {
                    assert(acc * radix + d <= max) by (nonlinear_arith)
                        requires
                            acc <= (max - d) / (radix as int),
                            radix >= 2,
                            d <= max,
                    ;
                }
                acc = acc * (radix as u64) + d as u64;
            },
        }
        i = i + 1;
    }
    assert(b.take(hi - lo) =~= b);
    Some(acc)
}

/// `uN::from_str_radix(v[lo..hi], radix)` with maximum `max`.
pub fn parse_unsigned_in(v: &Vec<char>, lo: usize, hi: usize, radix: u32, max: u64) -> (r: Option<
    u64,
>)
    requires
        lo <= hi <= v.len(),
        2 <= radix <= 36,
    ensures
        r matches Some(x) ==> parse_unsigned(v@.subrange(lo as int, hi as int), radix as nat, max as nat)
            == Some(x as nat),
        r is None ==> parse_unsigned(v@.subrange(lo as int, hi as int), radix as nat, max as nat) is None,
{
    let ghost s = v@.subrange(lo as int, hi as int);
    let start: usize = if lo < hi && v[lo] == '+' {
        lo + 1
    } else {
        lo
    };
    assert(unsigned_body(s) =~= v@.subrange(start as int, hi as int));
    if start == hi {
        return None;
    }
    digits_in(v, start, hi, radix, max)
}

/// `v[lo..hi].parse::<i64>()`.
pub fn parse_i64_in(v: &Vec<char>, lo: usize, hi: usize) -> (r: Option<i64>)
    requires
        lo <= hi <= v.len(),
    ensures
        r matches Some(x) ==> parse_i64(v@.subrange(lo as int, hi as int)) == Some(x as int),
        r is None ==> parse_i64(v@.subrange(lo as int, hi as int)) is None,
{
    let ghost s = v@.subrange(lo as int, hi as int);
    if lo < hi && v[lo] == '-' {
        assert(s.skip(1) =~= v@.subrange(lo + 1, hi as int));
        if lo + 1 == hi {
            return None;
        }
        match digits_in(v, lo + 1, hi, 10, 0x8000_0000_0000_0000) {
            None => None,
            Some(m) => {
                if m == 0x8000_0000_0000_0000 {
                    Some(i64::MIN)
                } else {
                    Some(-(m as i64))
                }
            },
        }
    } else {
        match parse_unsigned_in(v, lo, hi, 10, 0x7FFF_FFFF_FFFF_FFFF) {
            None => None,
            Some(x) => Some(x as i64),
        }
    }
}

// ---------------------------------------------------------------------------
// Formatting
// ---------------------------------------------------------------------------
/// The character for digit `d` (`0-9`, then upper-case `A-Z`).
pub open spec fn digit_char(d: nat) -> char {
    if d < 10 {
        ((0x30 + d) as u32) as char
    } else {
        ((0x41 + d - 10) as u32) as char
    }
}

/// Digits of `n` in `radix`, no leading zeros (`"0"` for zero).
pub open spec fn radix_str(n: nat, radix: nat) -> Seq<char>
    decreases n,
{
    if radix < 2 || n < radix {
        seq![digit_char(n)]
    } else {
        proof {
            assert(n / radix < n) by (nonlinear_arith)
                requires
                    radix >= 2,
                    n >= radix,
            ;
        }
        radix_str(n / radix, radix).push(digit_char(n % radix))
    }
}

/// `format!("{n}")` for an integer.
pub open spec fn int_str(n: int) -> Seq<char> {
    if n < 0 {
        seq!['-'] + radix_str((-n) as nat, 10)
    } else {
        radix_str(n as nat, 10)
    }
}

/// `s` left-padded with `'0'` to at least `width` characters.
pub open spec fn zero_pad(s: Seq<char>, width: nat) -> Seq<char> {
    if s.len() >= width {
        s
    } else {
        Seq::new((width - s.len()) as nat, |i: int| '0') + s
    }
}

/// `format!("{:0W$X}", n)`: upper-case hexadecimal, zero-padded to `width`.
pub open spec fn hex_str(n: nat, width: nat) -> Seq<char> {
    zero_pad(radix_str(n, 16), width)
}

fn digit_char_exec(d: u64) -> (c: char)
    requires
        d < 36,
    ensures
        c == digit_char(d as nat),
{
    if d < 10 {
        let b: u8 = (0x30 + d) as u8;
        b as char
    } else {
        let b: u8 = (0x41 + d - 10) as u8;
        b as char
    }
}

/// The digits of `n` in `radix` (`2..=16`), as characters.
pub fn radix_chars(n: u64, radix: u64) -> (r: Vec<char>)
    requires
        2 <= radix <= 16,
    ensures
        r@ == radix_str(n as nat, radix as nat),
    decreases n,
{
    if n < radix {
        let mut r: Vec<char> = Vec::new();
        r.push(digit_char_exec(n));
        assert(r@ =~= seq![digit_char(n as nat)]);
        r
    } else {
        assert(n / radix < n) by (nonlinear_arith)
            requires
                radix >= 2,
                n >= radix,
        ;
        let mut r = radix_chars(n / radix, radix);
        r.push(digit_char_exec(n % radix));
        r
    }
}

/// Appends `format!("{n}")` to `out`.
pub fn push_int(out: &mut String, n: i64)
    ensures
        final(out)@ == old(out)@ + int_str(n as int),
{
    if n < 0 {
        let m: u64 = if n == i64::MIN {
            0x8000_0000_0000_0000
        } else {
            (-n) as u64
        };
        let mut s = crate::text::owned("-");
        proof {
            reveal_strlit("-");
        }
        let d = radix_chars(m, 10);
        crate::text::push_range(&mut s, &d, 0, d.len());
        assert(d@.subrange(0, d.len() as int) =~= d@);
        assert(s@ =~= seq!['-'] + radix_str((-n) as nat, 10));
        let e = crate::text::chars_of(s.as_str());
        crate::text::push_range(out, &e, 0, e.len());
        assert(e@.subrange(0, e.len() as int) =~= e@);
    } else {
        let d = radix_chars(n as u64, 10);
        crate::text::push_range(out, &d, 0, d.len());
        assert(d@.subrange(0, d.len() as int) =~= d@);
    }
}

/// Appends `format!("{:0width$X}", n)` to `out`.
pub fn push_hex(out: &mut String, n: u64, width: usize)
    ensures
        final(out)@ == old(out)@ + hex_str(n as nat, width as nat),
{
    let d = radix_chars(n, 16);
    let ghost before = out@;
    if d.len() < width {
        let mut k: usize = 0;
        let pad = width - d.len();
        let mut z: Vec<char> = Vec::new();
        while k < pad
            invariant
                k <= pad,
                z@ == Seq::new(k as nat, |i: int| '0'),
            decreases pad - k,
        {
            z.push('0');
            assert(z@ =~= Seq::new((k + 1) as nat, |i: int| '0'));
            k = k + 1;
        }
        crate::text::push_range(out, &z, 0, z.len());
        assert(z@.subrange(0, z.len() as int) =~= z@);
    }
    crate::text::push_range(out, &d, 0, d.len());
    assert(d@.subrange(0, d.len() as int) =~= d@);
    assert(out@ =~= before + hex_str(n as nat, width as nat));
}

/// Appends `format!("{n}")` for an unsigned `n` to `out`.
pub fn push_u64(out: &mut String, n: u64)
    ensures
        final(out)@ == old(out)@ + int_str(n as int),
{
    let d = radix_chars(n, 10);
    crate::text::push_range(out, &d, 0, d.len());
    assert(d@.subrange(0, d.len() as int) =~= d@);
}

} // verus!
