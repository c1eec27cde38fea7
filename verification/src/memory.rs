//! Memory requests: read-count validation, hex payload parsing, address
//! parsing, the base64 payload of a `writeMemory` request and the hex dump
//! shown for a `readMemory` response.
use vstd::prelude::*;
use crate::num::{
    all_digits, digit_char, digit_value, digits_value, hex_str, int_str, parse_unsigned,
    parse_unsigned_in, push_hex, push_int, push_u64, radix_str, unsigned_body, zero_pad,
};
use crate::text::{
    append, chars_of, is_ws, lead_ws, owned, push_range, trail_ws, trim, trim_chars, trim_end,
    trim_start,
};
use base64::Engine;

verus! {

/// Largest byte count accepted for one `readMemory` request.
pub const MAX_READ_BYTES: i64 = 1048576;

/// Largest payload accepted for one `writeMemory` request.
pub const MAX_WRITE_BYTES: usize = 1048576;

/// Byte count used when the user gives none.
pub const DEFAULT_READ_COUNT: i64 = 256;

/// The answer of `validate_read_count`.
pub open spec fn validate_read_count_spec(count: int) -> Result<int, Seq<char>> {
    if count <= 0 {
        Err("count must be > 0, got "@ + int_str(count))
    } else if count > MAX_READ_BYTES {
        Err("count "@ + int_str(count) + " exceeds maximum of 1048576 bytes"@)
    } else {
        Ok(count)
    }
}

/// Validates a `readMemory` byte count: it must lie in `1..=MAX_READ_BYTES`.
pub fn validate_read_count(count: i64) -> (r: Result<i64, String>)
    ensures
        match r {
            Ok(n) => validate_read_count_spec(count as int) == Ok::<int, Seq<char>>(n as int),
            Err(e) => validate_read_count_spec(count as int) == Err::<int, Seq<char>>(e@),
        },
{
    if count <= 0 {
        let mut e = owned("count must be > 0, got ");
        push_int(&mut e, count);
        return Err(e);
    }
    if count > MAX_READ_BYTES {
        let mut e = owned("count ");
        push_int(&mut e, count);
        append(&mut e, " exceeds maximum of 1048576 bytes");
        return Err(e);
    }
    Ok(count)
}

// ---------------------------------------------------------------------------
// Hex payloads
// ---------------------------------------------------------------------------
/// Number of bytes in the UTF-8 encoding of `c`.
pub open spec fn utf8_len(c: char) -> nat {
    let u = c as u32;
    if u < 0x80 {
        1
    } else if u < 0x800 {
        2
    } else if u < 0x10000 {
        3
    } else {
        4
    }
}

/// Number of bytes in the UTF-8 encoding of `s` (`str::len`).
pub open spec fn byte_len(s: Seq<char>) -> nat
    decreases s.len(),
{
    if s.len() == 0 {
        0
    } else {
        byte_len(s.drop_last()) + utf8_len(s.last())
    }
}

/// Outcome of cutting a string into two-byte slices and parsing each one.
pub enum HexScan {
    /// Every slice parsed; the bytes in order.
    Bytes(Seq<u8>),
    /// The first slice that is not a hexadecimal byte.
    BadPair(Seq<char>),
    /// A two-byte cut falls inside a multi-byte character.
    Split,
}

/// `b` followed by the bytes of `rest`, or the failure of `rest`.
pub open spec fn scan_prepend(b: Seq<u8>, rest: HexScan) -> HexScan {
    match rest {
        HexScan::Bytes(x) => HexScan::Bytes(b + x),
        other => other,
    }
}

/// The byte that the two characters `p` stand for, read as
/// `u8::from_str_radix(p, 16)` reads them (an optional leading `+`, then
/// hexadecimal digits).
pub open spec fn hex_pair_value(p: Seq<char>) -> Option<nat> {
    parse_unsigned(p, 16, 255)
}

/// Cuts `s` into slices of two bytes from the front and reads each as a
/// byte (`hex_pair_value`).
pub open spec fn hex_scan(s: Seq<char>) -> HexScan
    decreases s.len(),
{
    if s.len() == 0 {
        HexScan::Bytes(Seq::empty())
    } else if utf8_len(s[0]) == 1 {
        if s.len() >= 2 && utf8_len(s[1]) == 1 {
            match hex_pair_value(s.take(2)) {
                Some(b) => scan_prepend(seq![b as u8], hex_scan(s.skip(2))),
                None => HexScan::BadPair(s.take(2)),
            }
        } else {
            HexScan::Split
        }
    } else if utf8_len(s[0]) == 2 {
        HexScan::BadPair(s.take(1))
    } else {
        HexScan::Split
    }
}

/// Whether `hex_string_to_bytes(data)` returns rather than panics: the
/// original slices the trimmed text at even byte offsets.
pub open spec fn hex_input_ok(data: Seq<char>) -> bool {
    let t = trim(data);
    t.len() == 0 || byte_len(t) % 2 == 1 || !(hex_scan(t) is Split)
}

/// The answer of `hex_string_to_bytes`.
pub open spec fn hex_string_to_bytes_spec(data: Seq<char>) -> Result<Seq<u8>, Seq<char>> {
    let t = trim(data);
    if t.len() == 0 {
        Err("data must not be empty"@)
    } else if byte_len(t) % 2 == 1 {
        Err("hex data must have an even number of characters"@)
    } else {
        match hex_scan(t) {
            HexScan::Bytes(b) => if b.len() > MAX_WRITE_BYTES {
                Err(
                    "write payload "@ + int_str(b.len() as int) + " bytes exceeds maximum of 1048576 bytes"@,
                )
            } else {
                Ok(b)
            },
            HexScan::BadPair(p) => Err("invalid hex byte '"@ + p + "'"@),
            HexScan::Split => Err(Seq::empty()),
        }
    }
}

fn utf8_len_exec(c: char) -> (n: usize)
    ensures
        n == utf8_len(c),
{
    let u: u32 = c as u32;
    if u < 0x80 {
        1
    } else if u < 0x800 {
        2
    } else if u < 0x10000 {
        3
    } else {
        4
    }
}

/// Whether the UTF-8 length of `v` is odd.
fn odd_byte_len(v: &Vec<char>) -> (odd: bool)
    ensures
        odd == (byte_len(v@) % 2 == 1),
{
    let mut odd = false;
    let mut i: usize = 0;
    while i < v.len()
        invariant
            i <= v.len(),
            odd == (byte_len(v@.take(i as int)) % 2 == 1),
        decreases v.len() - i,
    {
        let n = utf8_len_exec(v[i]);
        assert(v@.take((i + 1) as int).drop_last() =~= v@.take(i as int));
        if n % 2 == 1 {
            odd = !odd;
        }
        i = i + 1;
    }
    assert(v@.take(v.len() as int) =~= v@);
    odd
}

proof fn lemma_scan_step(t: Seq<char>, i: int)
    requires
        0 <= i < t.len(),
    ensures
        t.skip(i).len() > 0,
        t.skip(i)[0] == t[i],
        i + 1 < t.len() ==> t.skip(i)[1] == t[i + 1],
        i + 2 <= t.len() ==> t.skip(i).take(2) =~= t.subrange(i, i + 2),
        i + 2 <= t.len() ==> t.skip(i).skip(2) =~= t.skip(i + 2),
        t.skip(i).take(1) =~= t.subrange(i, i + 1),
{
}

/// Parses a hex string such as `"48656C6C6F"` into bytes for `writeMemory`.
/// Surrounding white space is ignored; the text must be non-empty, have an
/// even byte length, and encode at most `MAX_WRITE_BYTES` bytes. Each
/// two-byte slice is read with `u8::from_str_radix(_, 16)`, so a slice such
/// as `+F` (a sign and one digit) is accepted as well as a hexadecimal pair.
#[verifier::spinoff_prover]
pub fn hex_string_to_bytes(data: &str) -> (r: Result<Vec<u8>, String>)
    requires
        hex_input_ok(data@),
    ensures
        match r {
            Ok(b) => hex_string_to_bytes_spec(data@) == Ok::<Seq<u8>, Seq<char>>(b@),
            Err(e) => hex_string_to_bytes_spec(data@) == Err::<Seq<u8>, Seq<char>>(e@),
        },
{
    let raw = chars_of(data);
    let t = trim_chars(&raw);
    if t.len() == 0 {
        return Err(owned("data must not be empty"));
    }
    if odd_byte_len(&t) {
        return Err(owned("hex data must have an even number of characters"));
    }
    let ghost tv = t@;
    let mut out: Vec<u8> = Vec::new();
    let mut i: usize = 0;
    proof {
        assert(tv.skip(0) =~= tv);
        match hex_scan(tv) {
            HexScan::Bytes(x) => {
                assert(out@ + x =~= x);
            },
            _ => {},
        }
    }
    while i < t.len()
        invariant
            i <= t.len(),
            tv == t@,
            tv == trim(data@),
            tv.len() > 0,
            byte_len(tv) % 2 != 1,
            !(hex_scan(tv) is Split),
            hex_scan(tv) == scan_prepend(out@, hex_scan(tv.skip(i as int))),
        decreases t.len() - i,
    {
        proof {
            lemma_scan_step(tv, i as int);
        }
        let n0 = utf8_len_exec(t[i]);
        if n0 == 1 {
            if i + 1 < t.len() && utf8_len_exec(t[i + 1]) == 1 {
                match parse_unsigned_in(&t, i, i + 2, 16, 255) {
                    Some(b) => {
                        let byte: u8 = b as u8;
                        assert(scan_prepend(out@, scan_prepend(seq![byte], hex_scan(tv.skip(i + 2))))
                            == scan_prepend(out@.push(byte), hex_scan(tv.skip(i + 2)))) by {
                            assert(out@ + seq![byte] =~= out@.push(byte));
                            match hex_scan(tv.skip(i + 2)) {
                                HexScan::Bytes(x) => {
                                    assert(out@ + (seq![byte] + x) =~= out@.push(byte) + x);
                                },
                                _ => {},
                            }
                        }
                        out.push(byte);
                        i = i + 2;
                    },
                    None => {
                        assert(hex_scan(tv.skip(i as int)) == HexScan::BadPair(
                            tv.subrange(i as int, i + 2),
                        ));
                        let mut e = owned("invalid hex byte '");
                        push_range(&mut e, &t, i, i + 2);
                        append(&mut e, "'");
                        assert(hex_scan(tv) == HexScan::BadPair(tv.subrange(i as int, i + 2)));
                        assert(e@ == "invalid hex byte '"@ + tv.subrange(i as int, i + 2) + "'"@);
                        return Err(e);
                    },
                }
            } else {
                assert(false);
                return Err(String::new());
            }
        } else if n0 == 2 {
            assert(hex_scan(tv.skip(i as int)) == HexScan::BadPair(tv.subrange(i as int, i + 1)));
            let mut e = owned("invalid hex byte '");
            push_range(&mut e, &t, i, i + 1);
            append(&mut e, "'");
            assert(hex_scan(tv) == HexScan::BadPair(tv.subrange(i as int, i + 1)));
            assert(e@ == "invalid hex byte '"@ + tv.subrange(i as int, i + 1) + "'"@);
            return Err(e);
        } else {
            assert(false);
            return Err(String::new());
        }
    }
    assert(tv.skip(t.len() as int) =~= Seq::<char>::empty());
    assert(out@ + Seq::<u8>::empty() =~= out@);
    if out.len() > MAX_WRITE_BYTES {
        let mut e = owned("write payload ");
        push_u64(&mut e, out.len() as u64);
        append(&mut e, " bytes exceeds maximum of 1048576 bytes");
        return Err(e);
    }
    Ok(out)
}

/// Bytes written as two upper-case hexadecimal digits each, the way the
/// memory dump shows them (without the separating spaces).
pub open spec fn hex_encoding(b: Seq<u8>) -> Seq<char>
    decreases b.len(),
{
    if b.len() == 0 {
        Seq::empty()
    } else {
        hex_str(b[0] as nat, 2) + hex_encoding(b.skip(1))
    }
}

proof fn lemma_digit_char(d: nat)
    requires
        d < 16,
    ensures
        digit_value(digit_char(d), 16) == Some(d),
        (digit_char(d) as u32) < 0x80,
        !is_ws(digit_char(d)),
        digit_char(d) != '+',
{
}

proof fn lemma_hex2(x: u8)
    ensures
        hex_str(x as nat, 2) == seq![digit_char((x / 16) as nat), digit_char((x % 16) as nat)],
        parse_unsigned(hex_str(x as nat, 2), 16, 255) == Some(x as nat),
{
    let hi = (x / 16) as nat;
    let lo = (x % 16) as nat;
    lemma_digit_char(hi);
    lemma_digit_char(lo);
    let s = seq![digit_char(hi), digit_char(lo)];
    if x < 16 {
        assert(radix_str(x as nat, 16) == seq![digit_char(x as nat)]);
        assert(digit_char(0) == '0');
        assert(zero_pad(radix_str(x as nat, 16), 2) =~= s);
    } else {
        assert(radix_str(hi, 16) == seq![digit_char(hi)]);
        assert(radix_str(x as nat, 16) =~= s);
    }
    assert(unsigned_body(s) == s);
    assert(all_digits(s, 16));
    assert(s.drop_last() =~= seq![digit_char(hi)]);
    assert(seq![digit_char(hi)].drop_last() =~= Seq::<char>::empty());
    assert(seq![digit_char(hi)].last() == digit_char(hi));
    assert(digits_value(Seq::<char>::empty(), 16) == 0);
    assert(digits_value(seq![digit_char(hi)], 16) == hi);
    assert(digits_value(s, 16) == hi * 16 + lo);
}

proof fn lemma_ascii_byte_len(s: Seq<char>)
    requires
        forall|i: int| 0 <= i < s.len() ==> (#[trigger] s[i] as u32) < 0x80,
    ensures
        byte_len(s) == s.len(),
    decreases s.len(),
{
    if s.len() > 0 {
        let t = s.drop_last();
        assert forall|i: int| 0 <= i < t.len() implies (#[trigger] t[i] as u32) < 0x80 by {
            assert(t[i] == s[i]);
        }
        lemma_ascii_byte_len(t);
        assert((s[s.len() - 1] as u32) < 0x80);
    }
}

proof fn lemma_hex_encoding(b: Seq<u8>)
    ensures
        hex_encoding(b).len() == 2 * b.len(),
        forall|i: int|
            0 <= i < hex_encoding(b).len() ==> (#[trigger] hex_encoding(b)[i] as u32) < 0x80
                && !is_ws(hex_encoding(b)[i]),
        hex_scan(hex_encoding(b)) == HexScan::Bytes(b),
    decreases b.len(),
{
    if b.len() > 0 {
        let rest = b.skip(1);
        lemma_hex_encoding(rest);
        lemma_hex2(b[0]);
        lemma_digit_char((b[0] / 16) as nat);
        lemma_digit_char((b[0] % 16) as nat);
        let h = hex_str(b[0] as nat, 2);
        let e = hex_encoding(b);
        let r = hex_encoding(rest);
        assert(e == h + r);
        assert forall|i: int| 0 <= i < e.len() implies (#[trigger] e[i] as u32) < 0x80 && !is_ws(
            e[i],
        ) by {
            if i >= 2 {
                assert(e[i] == r[i - 2]);
            }
        }
        assert(e.take(2) =~= h);
        assert(e.skip(2) =~= r);
        assert(e[0] == h[0] && e[1] == h[1]);
        assert(utf8_len(e[0]) == 1 && utf8_len(e[1]) == 1);
        assert(hex_pair_value(e.take(2)) == Some(b[0] as nat));
        assert(hex_scan(e) == scan_prepend(seq![(b[0] as nat) as u8], hex_scan(e.skip(2))));
        assert(seq![(b[0] as nat) as u8] + rest =~= b);
    } else {
        assert(b =~= Seq::<u8>::empty());
    }
}

/// Bytes written as hexadecimal pairs parse back to the same bytes, for
/// any non-empty payload within the write limit.
pub proof fn lemma_hex_round_trip(b: Seq<u8>)
    requires
        0 < b.len() <= MAX_WRITE_BYTES,
    ensures
        hex_input_ok(hex_encoding(b)),
        hex_string_to_bytes_spec(hex_encoding(b)) == Ok::<Seq<u8>, Seq<char>>(b),
{
    let e = hex_encoding(b);
    lemma_hex_encoding(b);
    lemma_ascii_byte_len(e);
    assert(!is_ws(e[0]));
    assert(lead_ws(e) == 0);
    assert(trim_start(e) =~= e);
    assert(!is_ws(e.last()));
    assert(trail_ws(e) == 0);
    assert(trim_end(e) =~= e);
    assert(trim(e) == e);
}

// ---------------------------------------------------------------------------
// Addresses
// ---------------------------------------------------------------------------
/// The answer of `parse_address`: `0x`/`0X` followed by hexadecimal digits,
/// or a decimal number, either fitting in `u64`.
pub open spec fn parse_address_spec(s: Seq<char>) -> Option<nat> {
    if s.len() >= 2 && s[0] == '0' && (s[1] == 'x' || s[1] == 'X') {
        parse_unsigned(s.skip(2), 16, 0xFFFF_FFFF_FFFF_FFFF)
    } else {
        parse_unsigned(s, 10, 0xFFFF_FFFF_FFFF_FFFF)
    }
}

/// Parses a memory address written in hexadecimal (`0x…`) or decimal.
pub fn parse_address(s: &str) -> (r: Option<u64>)
    ensures
        r matches Some(a) ==> parse_address_spec(s@) == Some(a as nat),
        r is None ==> parse_address_spec(s@) is None,
{
    let v = chars_of(s);
    if v.len() >= 2 && v[0] == '0' && (v[1] == 'x' || v[1] == 'X') {
        assert(v@.skip(2) =~= v@.subrange(2, v.len() as int));
        parse_unsigned_in(&v, 2, v.len(), 16, 0xFFFF_FFFF_FFFF_FFFF)
    } else {
        assert(v@ =~= v@.subrange(0, v.len() as int));
        parse_unsigned_in(&v, 0, v.len(), 10, 0xFFFF_FFFF_FFFF_FFFF)
    }
}

// ---------------------------------------------------------------------------
// Hex dump of a readMemory response
// ---------------------------------------------------------------------------
/// What the standard base64 engine makes of `s`: the bytes it decodes to,
/// or the text of the error it rejects `s` with.
pub uninterp spec fn base64_standard_decode(s: Seq<char>) -> Result<Seq<u8>, Seq<char>>;

/// `base64::engine::general_purpose::STANDARD.decode(s)`, with a rejection
/// given as the text of its `DecodeError`; the result is named
/// `base64_standard_decode`, nothing more is stated about it.
#[verifier::external_body]
fn decode_base64(s: &str) -> (r: Result<Vec<u8>, String>)
    ensures
        match r {
            Ok(b) => base64_standard_decode(s@) matches Ok(d) && d == b@,
            Err(e) => base64_standard_decode(s@) matches Err(m) && m == e@,
        },
{
    base64::engine::general_purpose::STANDARD.decode(s).map_err(|e| e.to_string())
}

/// The standard base64 engine decodes `text` to `bytes`.
pub open spec fn decodes_to(text: Seq<char>, bytes: Seq<u8>) -> bool {
    base64_standard_decode(text) == Ok::<Seq<u8>, Seq<char>>(bytes)
}

/// The text that the standard base64 engine encodes `bytes` to.
pub uninterp spec fn base64_standard_encoded(bytes: Seq<u8>) -> Seq<char>;

/// Length of the padded base64 text of `n` bytes: four characters for each
/// started group of three bytes.
pub open spec fn padded_base64_len(n: nat) -> nat {
    if n % 3 == 0 {
        (n / 3) * 4
    } else {
        (n / 3) * 4 + 4
    }
}

/// Base64 text of a `writeMemory` payload:
/// `base64::engine::general_purpose::STANDARD.encode(bytes)`. Its result is
/// named `base64_standard_encoded`; stated of it are its padded length and
/// that the same engine decodes it back to `bytes`. The engine panics when
/// that length does not fit in `usize`, which `requires` rules out.
#[verifier::external_body]
pub fn encode_write_payload(bytes: &[u8]) -> (r: String)
    requires
        padded_base64_len(bytes@.len()) <= usize::MAX,
    ensures
        r@ == base64_standard_encoded(bytes@),
        r@.len() == padded_base64_len(bytes@.len()),
        decodes_to(r@, bytes@),
{
    base64::engine::general_purpose::STANDARD.encode(bytes)
}

/// The fields of a `readMemory` response body that the dump reads.
#[derive(Debug, Clone, PartialEq, Eq)]
pub struct MemoryReadBody {
    pub address: Option<String>,
    /// Base64-encoded bytes.
    pub data: Option<String>,
    pub unreadable_bytes: Option<i64>,
}

/// Address of line `i` of a dump starting at `base`, wrapping at 2^64.
pub open spec fn dump_addr(base: u64, i: nat) -> nat {
    ((base as nat) + 16 * i) % 0x1_0000_0000_0000_0000
}

/// The address column of line `i`: absolute when the start address is
/// known, an offset otherwise.
pub open spec fn line_prefix(base: Option<u64>, i: nat) -> Seq<char> {
    match base {
        Some(b) => "0x"@ + hex_str(dump_addr(b, i), 16) + ": "@,
        None => "+0x"@ + hex_str(16 * i, 8) + ":        "@,
    }
}

/// Column `j` of the hex part of a line: the byte in two hex digits, or
/// blanks past the end of the chunk; an extra space before column 8.
pub open spec fn hex_cell(chunk: Seq<u8>, j: int) -> Seq<char> {
    let gap: Seq<char> = if j == 8 {
        " "@
    } else {
        Seq::empty()
    };
    if j < chunk.len() {
        gap + hex_str(chunk[j] as nat, 2) + " "@
    } else {
        gap + "   "@
    }
}

/// The first `j` hex columns of a line.
pub open spec fn hex_cells(chunk: Seq<u8>, j: nat) -> Seq<char>
    decreases j,
{
    if j == 0 {
        Seq::empty()
    } else {
        hex_cells(chunk, (j - 1) as nat) + hex_cell(chunk, j - 1)
    }
}

/// A byte in the ASCII column: printable ASCII and space as themselves,
/// anything else as `.`.
pub open spec fn shown(b: u8) -> char {
    if 0x20 <= b <= 0x7E {
        b as char
    } else {
        '.'
    }
}

/// The ASCII column of a dump line closes the line: one character per
/// byte, each printable ASCII (`0x20..=0x7E`), the byte itself when it is
/// printable and `.` otherwise, then the line break.
pub proof fn lemma_dump_line_ascii_column(base: Option<u64>, i: nat, chunk: Seq<u8>)
    ensures
        ({
            let d = dump_line(base, i, chunk);
            let start = d.len() - 1 - chunk.len();
            &&& start >= 0
            &&& d[d.len() - 1] == '\n'
            &&& forall|j: int|
                0 <= j < chunk.len() ==> {
                    let c = #[trigger] d[start + j];
                    &&& 0x20 <= (c as u32) <= 0x7E
                    &&& (0x20 <= chunk[j] <= 0x7E ==> (c as u32) == chunk[j] as u32)
                    &&& (!(0x20 <= chunk[j] <= 0x7E) ==> c == '.')
                }
        }),
{
    reveal_strlit("\n");
    let head = line_prefix(base, i) + hex_cells(chunk, 16) + " "@;
    let col = chunk.map_values(|b: u8| shown(b));
    let d = dump_line(base, i, chunk);
    assert(d == head + col + "\n"@);
    assert forall|j: int| 0 <= j < chunk.len() implies #[trigger] d[d.len() - 1 - chunk.len() + j]
        == shown(chunk[j]) by {
        assert(d[head.len() + j] == col[j]);
    }
    assert forall|j: int| 0 <= j < chunk.len() implies {
        let c = #[trigger] d[d.len() - 1 - chunk.len() + j];
        &&& 0x20 <= (c as u32) <= 0x7E
        &&& (0x20 <= chunk[j] <= 0x7E ==> (c as u32) == chunk[j] as u32)
        &&& (!(0x20 <= chunk[j] <= 0x7E) ==> c == '.')
    } by {
        let b = chunk[j];
        if 0x20 <= b <= 0x7E {
            assert(((b as char) as u32) == b as u32);
        }
    }
}

/// Line `i` of a dump, for the bytes `chunk`.
pub open spec fn dump_line(base: Option<u64>, i: nat, chunk: Seq<u8>) -> Seq<char> {
    line_prefix(base, i) + hex_cells(chunk, 16) + " "@ + chunk.map_values(|b: u8| shown(b)) + "\n"@
}

/// The `i`-th chunk of 16 bytes (the last may be shorter).
pub open spec fn chunk_of(data: Seq<u8>, i: nat) -> Seq<u8> {
    let lo: int = (16 * i) as int;
    let hi: int = if lo + 16 <= data.len() {
        lo + 16
    } else {
        data.len() as int
    };
    data.subrange(lo, hi)
}

/// The first `i` lines of the dump of `data`.
pub open spec fn dump_lines(base: Option<u64>, data: Seq<u8>, i: nat) -> Seq<char>
    decreases i,
{
    if i == 0 {
        Seq::empty()
    } else {
        dump_lines(base, data, (i - 1) as nat) + dump_line(
            base,
            (i - 1) as nat,
            chunk_of(data, (i - 1) as nat),
        )
    }
}

/// The dump of `data` read at `address`.
pub open spec fn memory_dump(address: Seq<char>, data: Seq<u8>, unreadable: Option<i64>) -> Seq<char> {
    let head = "Memory at "@ + address + " ("@ + int_str(data.len() as int) + " bytes):\n"@;
    let note = match unreadable {
        Some(n) => "("@ + int_str(n as int) + " byte(s) unreadable)\n"@,
        None => Seq::empty(),
    };
    let base = match parse_address_spec(address) {
        Some(a) => Some(a as u64),
        None => None,
    };
    head + note + dump_lines(base, data, ((data.len() + 15) / 16) as nat)
}

#[verifier::spinoff_prover]
fn push_line(out: &mut String, base: Option<u64>, i: usize, data: &Vec<u8>, lo: usize, hi: usize)
    requires
        lo == 16 * i,
        lo < hi <= data.len(),
        hi == if lo + 16 <= data.len() {
            lo + 16
        } else {
            data.len() as int
        },
    ensures
        final(out)@ == old(out)@ + dump_line(base, i as nat, chunk_of(data@, i as nat)),
{
    let ghost chunk = chunk_of(data@, i as nat);
    let ghost start = out@;
    match base {
        Some(b) => {
            let off: u64 = lo as u64;
            let addr: u64 = if b <= u64::MAX - off {
                b + off
            } else {
                off - (u64::MAX - b) - 1
            };
            assert(addr == dump_addr(b, i as nat));
            append(out, "0x");
            push_hex(out, addr, 16);
            append(out, ": ");
        },
        None => {
            append(out, "+0x");
            push_hex(out, lo as u64, 8);
            append(out, ":        ");
        },
    }
    assert(out@ == start + line_prefix(base, i as nat));
    let n: usize = hi - lo;
    let mut j: usize = 0;
    while j < 16
        invariant
            j <= 16,
            n == hi - lo,
            lo < hi <= data.len(),
            chunk == data@.subrange(lo as int, hi as int),
            out@ == start + line_prefix(base, i as nat) + hex_cells(chunk, j as nat),
        decreases 16 - j,
    {
        if j == 8 {
            append(out, " ");
        }
        if j < n {
            push_hex(out, data[lo + j] as u64, 2);
            append(out, " ");
        } else {
            append(out, "   ");
        }
        proof {
            reveal_strlit(" ");
        }
        assert(out@ =~= start + line_prefix(base, i as nat) + hex_cells(chunk, (j + 1) as nat));
        j = j + 1;
    }
    append(out, " ");
    let ghost mid = out@;
    let mut k: usize = lo;
    while k < hi
        invariant
            lo <= k <= hi <= data.len(),
            chunk == data@.subrange(lo as int, hi as int),
            out@ == mid + chunk.take(k - lo).map_values(|b: u8| shown(b)),
        decreases hi - k,
    {
        let byte = data[k];
        let c: char = if 0x20 <= byte && byte <= 0x7E {
            byte as char
        } else {
            '.'
        };
        crate::text::push_char(out, c);
        assert(chunk.take(k + 1 - lo) =~= chunk.take(k - lo).push(byte));
        assert(out@ =~= mid + chunk.take(k + 1 - lo).map_values(|b: u8| shown(b)));
        k = k + 1;
    }
    assert(chunk.take(hi - lo) =~= chunk);
    append(out, "\n");
}

/// The hex dump of `data` read at `address`: a header with the address and
/// byte count, a note on unreadable bytes when there are any, then one line
/// per 16 bytes with the address (or offset, when `address` is not a
/// number), the bytes in hex, and the bytes as ASCII.
#[verifier::spinoff_prover]
pub fn render_memory_dump(address: &str, data: &Vec<u8>, unreadable_bytes: Option<i64>) -> (r: String)
    ensures
        r@ == memory_dump(address@, data@, unreadable_bytes),
{
    let mut out = owned("Memory at ");
    append(&mut out, address);
    append(&mut out, " (");
    push_u64(&mut out, data.len() as u64);
    append(&mut out, " bytes):\n");
    match unreadable_bytes {
        Some(n) => {
            append(&mut out, "(");
            push_int(&mut out, n);
            append(&mut out, " byte(s) unreadable)\n");
        },
        None => {},
    }
    let base = parse_address(address);
    let ghost gbase = match parse_address_spec(address@) {
        Some(a) => Some(a as u64),
        None => None,
    };
    assert(base == gbase);
    let ghost head = out@;
    let count: usize = data.len() / 16 + if data.len() % 16 == 0 {
        0
    } else {
        1
    };
    assert(count == (data.len() + 15) / 16);
    let mut i: usize = 0;
    while i < count
        invariant
            i <= count,
            count == (data.len() + 15) / 16,
            out@ == head + dump_lines(gbase, data@, i as nat),
            base == gbase,
        decreases count - i,
    {
        let lo: usize = 16 * i;
        let hi: usize = if data.len() - lo >= 16 {
            lo + 16
        } else {
            data.len()
        };
        push_line(&mut out, base, i, data, lo, hi);
        assert(out@ =~= head + dump_lines(gbase, data@, (i + 1) as nat));
        i = i + 1;
    }
    out
}

/// Renders a `readMemory` response body as a hex dump. Without data the
/// answer says how many bytes were unreadable, or that nothing came back;
/// data that is not valid base64 is an error naming the address and what
/// the decoder found wrong.
pub fn format_memory_read(body: &MemoryReadBody) -> (r: Result<String, String>)
    ensures
        ({
            let address = match body.address {
                Some(a) => a@,
                None => "?"@,
            };
            match body.data {
                None => r matches Ok(s) && s@ == "Address: "@ + address + match body.unreadable_bytes {
                    Some(n) => "\n"@ + int_str(n as int) + " byte(s) unreadable."@,
                    None => "\nNo data returned."@,
                },
                Some(b64) => match base64_standard_decode(b64@) {
                    Ok(bytes) => r matches Ok(s) && s@ == memory_dump(
                        address,
                        bytes,
                        body.unreadable_bytes,
                    ),
                    Err(cause) => r matches Err(e) && e@ == "decode memory data at "@ + address
                        + ": "@ + cause,
                },
            }
        }),
{
    let address: &str = match &body.address {
        Some(a) => a.as_str(),
        None => "?",
    };
    match &body.data {
        None => {
            let mut s = owned("Address: ");
            append(&mut s, address);
            match body.unreadable_bytes {
                Some(n) => {
                    append(&mut s, "\n");
                    push_int(&mut s, n);
                    append(&mut s, " byte(s) unreadable.");
                },
                None => {
                    append(&mut s, "\nNo data returned.");
                },
            }
            Ok(s)
        },
        Some(b64) => match decode_base64(b64.as_str()) {
            Ok(bytes) => Ok(render_memory_dump(address, &bytes, body.unreadable_bytes)),
            Err(cause) => {
                let mut e = owned("decode memory data at ");
                append(&mut e, address);
                append(&mut e, ": ");
                append(&mut e, cause.as_str());
                Err(e)
            },
        },
    }
}

} // verus!
