//! Reading and writing unsigned integers in base 10 and base 16.

use vstd::prelude::*;

verus! {

/// The value of `c` as a digit in base `radix` (10 or 16), if it is one.
pub open spec fn digit_value(c: char, radix: int) -> Option<int> {
    let u = c as u32;
    if 0x30 <= u && u <= 0x39 {
        Some(u - 0x30)
    } else if radix == 16 && 0x61 <= u && u <= 0x66 {
        Some(u - 0x61 + 10)
    } else if radix == 16 && 0x41 <= u && u <= 0x46 {
        Some(u - 0x41 + 10)
    } else {
        None
    }
}

/// The number that the digits `s` write in base `radix`, most significant
/// digit first; `None` if one of them is no digit. The empty text writes 0.
pub open spec fn digits_value(s: Seq<char>, radix: int) -> Option<nat>
    decreases s.len(),
{
    if s.len() == 0 {
        Some(0)
    } else {
        match (digits_value(s.drop_last(), radix), digit_value(s.last(), radix)) {
            (Some(high), Some(d)) => Some((high * radix + d) as nat),
            _ => None,
        }
    }
}

/// The number that `s` writes: an optional `+`, then at least one digit.
pub open spec fn unsigned_value(s: Seq<char>, radix: int) -> Option<nat> {
    let body = if s.len() > 0 && s[0] == '+' {
        s.drop_first()
    } else {
        s
    };
    if body.len() == 0 {
        None
    } else {
        digits_value(body, radix)
    }
}

/// `unsigned_value`, where it does not exceed `max`.
pub open spec fn bounded_value(s: Seq<char>, radix: int, max: nat) -> Option<nat> {
    match unsigned_value(s, radix) {
        Some(v) => if v <= max {
            Some(v)
        } else {
            None
        },
        None => None,
    }
}

/// The number that `s` writes in base 10 with an optional sign, where it
/// lies in `min ..= max`.
pub open spec fn signed_value(s: Seq<char>, min: int, max: int) -> Option<int> {
    if s.len() > 0 && s[0] == '-' {
        let body = s.drop_first();
        if body.len() == 0 {
            None
        } else {
            match digits_value(body, 10) {
                Some(v) => if -(v as int) >= min {
                    Some(-(v as int))
                } else {
                    None
                },
                None => None,
            }
        }
    } else {
        match unsigned_value(s, 10) {
            Some(v) => if v <= max {
                Some(v as int)
            } else {
                None
            },
            None => None,
        }
    }
}

/// The character that writes the digit `d` (below 16), in lower case.
pub open spec fn digit_char(d: int) -> char {
    if d == 0 {
        '0'
    } else if d == 1 {
        '1'
    } else if d == 2 {
        '2'
    } else if d == 3 {
        '3'
    } else if d == 4 {
        '4'
    } else if d == 5 {
        '5'
    } else if d == 6 {
        '6'
    } else if d == 7 {
        '7'
    } else if d == 8 {
        '8'
    } else if d == 9 {
        '9'
    } else if d == 10 {
        'a'
    } else if d == 11 {
        'b'
    } else if d == 12 {
        'c'
    } else if d == 13 {
        'd'
    } else if d == 14 {
        'e'
    } else {
        'f'
    }
}

/// `n` written in base `radix` (10 or 16) without leading zeros.
pub open spec fn numeral(n: nat, radix: int) -> Seq<char>
    decreases n,
    via numeral_decreases
{
    if radix < 2 || n < radix {
        seq![digit_char(n as int)]
    } else {
        numeral((n / (radix as nat)) as nat, radix).push(digit_char((n % (radix as nat)) as int))
    }
}

#[via_fn]
proof fn numeral_decreases(n: nat, radix: int) {
    if radix >= 2 && n >= radix {
        assert(n / (radix as nat) < n) by (nonlinear_arith)
            requires
                radix >= 2,
                n >= radix,
        ;
    }
}

/// `n` in decimal notation.
pub open spec fn decimal(n: nat) -> Seq<char> {
    numeral(n, 10)
}

/// `n` in lower-case hexadecimal notation.
pub open spec fn lower_hex(n: nat) -> Seq<char> {
    numeral(n, 16)
}

/// `i` in decimal notation, with a leading `-` where it is negative.
pub open spec fn signed_decimal(i: int) -> Seq<char> {
    if i < 0 {
        seq!['-'] + decimal((-i) as nat)
    } else {
        decimal(i as nat)
    }
}

/// A longer run of digits never writes a smaller number than its prefix.
pub proof fn lemma_digits_prefix(s: Seq<char>, radix: int, k: int)
    requires
        0 <= k <= s.len(),
        radix == 10 || radix == 16,
    ensures
        digits_value(s, radix) is Some ==> digits_value(s.take(k), radix) is Some
            && digits_value(s.take(k), radix)->0 <= digits_value(s, radix)->0,
    decreases s.len() - k,
{
    if k == s.len() {
        assert(s.take(k) =~= s);
    } else {
        lemma_digits_prefix(s.drop_last(), radix, k);
        assert(s.drop_last().take(k) =~= s.take(k));
        if digits_value(s, radix) is Some {
            let high = digits_value(s.drop_last(), radix)->0;
            let d = digit_value(s.last(), radix)->0;
            assert(high * radix + d >= high) by (nonlinear_arith)
                requires
                    high >= 0,
                    d >= 0,
                    radix >= 1,
            ;
        }
    }
}

/// What a numeral writes is read back as the same number.
pub proof fn lemma_numeral_round_trip(n: nat, radix: int)
    requires
        radix == 10 || radix == 16,
    ensures
        numeral(n, radix).len() > 0,
        digits_value(numeral(n, radix), radix) == Some(n),
        numeral(n, radix)[0] != '+',
        unsigned_value(numeral(n, radix), radix) == Some(n),
    decreases n,
{
    if n < radix {
        let s = numeral(n, radix);
        assert(digits_value(s.drop_last(), radix) == Some(0nat));
    } else {
        let q = (n / (radix as nat)) as nat;
        let r = (n % (radix as nat)) as int;
        lemma_numeral_round_trip(q, radix);
        let s = numeral(n, radix);
        assert(s.drop_last() =~= numeral(q, radix));
        assert(q * radix + r == n) by (nonlinear_arith)
            requires
                radix > 0,
                q == n / (radix as nat),
                r == n % (radix as nat),
        ;
    }
}

/// The value of `c` as a digit in base 10 or 16.
pub fn digit_of(c: char, hex: bool) -> (r: Option<u8>)
    ensures
        r is Some == digit_value(c, if hex { 16 } else { 10 }) is Some,
        r matches Some(d) ==> digit_value(c, if hex { 16 } else { 10 }) == Some(d as int),
{
    let u: u32 = c as u32;
    if 0x30 <= u && u <= 0x39 {
        Some((u - 0x30) as u8)
    } else if hex && 0x61 <= u && u <= 0x66 {
        Some((u - 0x61 + 10) as u8)
    } else if hex && 0x41 <= u && u <= 0x46 {
        Some((u - 0x41 + 10) as u8)
    } else {
        None
    }
}

/// Reads an unsigned number no greater than `max`: an optional `+`, then one
/// or more digits of base 10, or of base 16 where `hex` is set.
pub fn parse_unsigned(s: &Vec<char>, hex: bool, max: u64) -> (r: Option<u64>)
    ensures
        r is Some == bounded_value(s@, if hex { 16 } else { 10 }, max as nat) is Some,
        r matches Some(v) ==> bounded_value(s@, if hex { 16 } else { 10 }, max as nat) == Some(
            v as nat,
        ),
{
    let ghost radix: int = if hex { 16 } else { 10 };
    let start: usize = if s.len() > 0 && s[0] == '+' {
        1
    } else {
        0
    };
    if start >= s.len() {
        return None;
    }
    let ghost body = s@.subrange(start as int, s@.len() as int);
    assert(body =~= if start == 1 {
        s@.drop_first()
    } else {
        s@
    });
    let base: u64 = if hex {
        16
    } else {
        10
    };
    let mut acc: u64 = 0;
    let mut i: usize = start;
    while i < s.len()
        invariant
            start <= i <= s@.len(),
            unsigned_value(s@, radix) == digits_value(body, radix),
            s@.len() == s.len(),
            body == s@.subrange(start as int, s@.len() as int),
            radix == (if hex { 16int } else { 10int }),
            base == radix,
            digits_value(body.take(i - start), radix) == Some(acc as nat),
            acc <= max,
        decreases s@.len() - i,
    {
        let ghost next = body.take(i - start + 1);
        assert(next.drop_last() =~= body.take(i - start));
        proof {
            lemma_digits_prefix(body, radix, i - start + 1);
        }
        match digit_of(s[i], hex) {
            None => {
                return None;
            },
            Some(d) => {
                if d as u64 > max || acc > (max - d as u64) / base {
                    assert(acc * base + d > max) by (nonlinear_arith)
                        requires
                            d > max || acc > (max - d) / (base as int),
                            base > 0,
                            acc >= 0,
                            d >= 0,
                    ;
                    return None;
                }
                assert(acc * base + d <= max) by (nonlinear_arith)
                    requires
                        acc <= (max - d) / (base as int),
                        base > 0,
                        max >= d,
                ;
                acc = acc * base + d as u64;
            },
        }
        i = i + 1;
    }
    assert(body.take(s@.len() - start) =~= body);
    Some(acc)
}

/// Reads a hexadecimal `u64`, as `u64::from_str_radix(_, 16)` accepts it.
pub fn parse_hex_u64(s: &Vec<char>) -> (r: Option<u64>)
    ensures
        r is Some == bounded_value(s@, 16, u64::MAX as nat) is Some,
        r matches Some(v) ==> bounded_value(s@, 16, u64::MAX as nat) == Some(v as nat),
{
    parse_unsigned(s, true, u64::MAX)
}

/// Reads a decimal `u64`.
pub fn parse_u64(s: &Vec<char>) -> (r: Option<u64>)
    ensures
        r is Some == bounded_value(s@, 10, u64::MAX as nat) is Some,
        r matches Some(v) ==> bounded_value(s@, 10, u64::MAX as nat) == Some(v as nat),
{
    parse_unsigned(s, false, u64::MAX)
}

/// Reads a decimal `u32`.
pub fn parse_u32(s: &Vec<char>) -> (r: Option<u32>)
    ensures
        r is Some == bounded_value(s@, 10, u32::MAX as nat) is Some,
        r matches Some(v) ==> bounded_value(s@, 10, u32::MAX as nat) == Some(v as nat),
{
    match parse_unsigned(s, false, 0xffff_ffff) {
        Some(v) => Some(v as u32),
        None => None,
    }
}

/// Reads a decimal `u16`.
pub fn parse_u16(s: &Vec<char>) -> (r: Option<u16>)
    ensures
        r is Some == bounded_value(s@, 10, u16::MAX as nat) is Some,
        r matches Some(v) ==> bounded_value(s@, 10, u16::MAX as nat) == Some(v as nat),
{
    match parse_unsigned(s, false, 0xffff) {
        Some(v) => Some(v as u16),
        None => None,
    }
}

/// Reads a decimal `i32` with an optional sign.
pub fn parse_i32(s: &Vec<char>) -> (r: Option<i32>)
    ensures
        r is Some == signed_value(s@, i32::MIN as int, i32::MAX as int) is Some,
        r matches Some(v) ==> signed_value(s@, i32::MIN as int, i32::MAX as int) == Some(v as int),
{
    if s.len() > 0 && s[0] == '-' {
        let mut body: Vec<char> = Vec::new();
        let mut i: usize = 1;
        while i < s.len()
            invariant
                1 <= i <= s@.len(),
                body@ == s@.subrange(1, i as int),
            decreases s@.len() - i,
        {
            body.push(s[i]);
            i = i + 1;
        }
        if body.len() == 0 || body[0] == '+' {
            assert(body@.len() > 0 ==> digits_value(body@, 10) is None) by {
                if body@.len() > 0 {
                    lemma_digits_prefix(body@, 10, 1);
                }
            }
            return None;
        }
        match parse_unsigned(&body, false, 2147483648) {
            Some(v) => {
                let negative: i64 = -(v as i64);
                Some(negative as i32)
            },
            None => None,
        }
    } else {
        match parse_unsigned(s, false, 2147483647) {
            Some(v) => Some(v as i32),
            None => None,
        }
    }
}

/// The character that writes the digit `d`.
pub fn char_of_digit(d: u8) -> (c: char)
    requires
        d < 16,
    ensures
        c == digit_char(d as int),
{
    if d == 0 {
        '0'
    } else if d == 1 {
        '1'
    } else if d == 2 {
        '2'
    } else if d == 3 {
        '3'
    } else if d == 4 {
        '4'
    } else if d == 5 {
        '5'
    } else if d == 6 {
        '6'
    } else if d == 7 {
        '7'
    } else if d == 8 {
        '8'
    } else if d == 9 {
        '9'
    } else if d == 10 {
        'a'
    } else if d == 11 {
        'b'
    } else if d == 12 {
        'c'
    } else if d == 13 {
        'd'
    } else if d == 14 {
        'e'
    } else {
        'f'
    }
}

/// Writes `n` in base 10, or in base 16 where `hex` is set.
pub fn write_numeral(n: u64, hex: bool) -> (out: Vec<char>)
    ensures
        out@ == numeral(n as nat, if hex { 16 } else { 10 }),
    decreases n,
{
    let base: u64 = if hex {
        16
    } else {
        10
    };
    if n < base {
        let mut out: Vec<char> = Vec::new();
        out.push(char_of_digit(n as u8));
        out
    } else {
        let mut out = write_numeral(n / base, hex);
        out.push(char_of_digit((n % base) as u8));
        out
    }
}

/// Writes `n` in decimal notation.
pub fn write_decimal(n: u64) -> (out: Vec<char>)
    ensures
        out@ == decimal(n as nat),
{
    write_numeral(n, false)
}

/// Writes `i` in decimal notation, with a leading `-` where it is negative.
pub fn write_signed_decimal(i: i64) -> (out: Vec<char>)
    ensures
        out@ == signed_decimal(i as int),
{
    if i < 0 {
        let magnitude: u64 = if i == i64::MIN {
            9223372036854775808
        } else {
            (-i) as u64
        };
        let mut out: Vec<char> = Vec::new();
        out.push('-');
        let digits = write_decimal(magnitude);
        crate::text::append_chars(&mut out, &digits);
        out
    } else {
        write_decimal(i as u64)
    }
}

/// Writes `n` in lower-case hexadecimal notation.
pub fn write_lower_hex(n: u64) -> (out: Vec<char>)
    ensures
        out@ == lower_hex(n as nat),
{
    write_numeral(n, true)
}

} // verus!
