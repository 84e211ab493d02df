//! Decimal integers: reading them from text and writing them out.

use vstd::prelude::*;

verus! {

/// Why a string is not a decimal integer of the requested width; the
/// same four outcomes that the standard library's integer parser reports.
#[derive(Clone, Copy, Debug, PartialEq, Eq, Structural)]
pub enum IntErrorKind {
    /// The string is empty.
    Empty,
    /// A character that is not a decimal digit (or a lone sign).
    InvalidDigit,
    /// The value is above the largest value of the type.
    PosOverflow,
    /// The value is below the smallest value of the type.
    NegOverflow,
}

/// `c` is one of the ASCII digits `0` to `9`.
pub open spec fn is_digit(c: char) -> bool {
    '0' <= c && c <= '9'
}

/// The value of the ASCII digit `c`.
pub open spec fn digit_value(c: char) -> int {
    (c as int) - ('0' as int)
}

/// The ASCII digit whose value is `d` (for `0 <= d < 10`).
pub open spec fn digit_char(d: int) -> char {
    (d + ('0' as int)) as char
}

/// Reads `digits` from the left onto the running value `acc`, stopping at the
/// first character that is not a digit or at the first step whose value leaves
/// `[min, max]`. Negative numbers subtract each digit.
pub open spec fn scan_digits(
    digits: Seq<char>,
    acc: int,
    negative: bool,
    min: int,
    max: int,
) -> Result<int, IntErrorKind>
    decreases digits.len(),
{
    if digits.len() == 0 {
        Ok(acc)
    } else if !is_digit(digits[0]) {
        Err(IntErrorKind::InvalidDigit)
    } else {
        let next = if negative {
            acc * 10 - digit_value(digits[0])
        } else {
            acc * 10 + digit_value(digits[0])
        };
        if next > max {
            Err(IntErrorKind::PosOverflow)
        } else if next < min {
            Err(IntErrorKind::NegOverflow)
        } else {
            scan_digits(digits.drop_first(), next, negative, min, max)
        }
    }
}

/// The outcome of reading `s` as a decimal integer in `[min, max]`: an optional
/// `+` (or, when `signed`, `-`) followed by digits, nothing else.
pub open spec fn spec_parse_int(s: Seq<char>, signed: bool, min: int, max: int) -> Result<
    int,
    IntErrorKind,
> {
    if s.len() == 0 {
        Err(IntErrorKind::Empty)
    } else if (s[0] == '+' || s[0] == '-') && s.len() == 1 {
        Err(IntErrorKind::InvalidDigit)
    } else if s[0] == '+' {
        scan_digits(s.drop_first(), 0, false, min, max)
    } else if s[0] == '-' && signed {
        scan_digits(s.drop_first(), 0, true, min, max)
    } else {
        scan_digits(s, 0, false, min, max)
    }
}

/// `s` read as a `u16`.
pub open spec fn spec_parse_u16(s: Seq<char>) -> Result<int, IntErrorKind> {
    spec_parse_int(s, false, 0, 65535)
}

/// `s` read as an `i16`.
pub open spec fn spec_parse_i16(s: Seq<char>) -> Result<int, IntErrorKind> {
    spec_parse_int(s, true, -32768, 32767)
}

/// The decimal digits of `n`, most significant first, without leading zeros.
pub open spec fn decimal(n: nat) -> Seq<char>
    decreases n,
{
    if n < 10 {
        seq![digit_char(n as int)]
    } else {
        decimal(n / 10).push(digit_char((n % 10) as int))
    }
}

/// Whether `r` and the integer outcome `s` agree.
pub open spec fn agrees(r: Result<i32, IntErrorKind>, s: Result<int, IntErrorKind>) -> bool {
    match r {
        Ok(v) => s == Ok::<int, IntErrorKind>(v as int),
        Err(e) => s == Err::<int, IntErrorKind>(e),
    }
}

/// Reads the characters `digits[from..]` onto `acc` as `scan_digits` does.
fn scan_digits_exec(digits: &Vec<char>, from: usize, negative: bool, min: i32, max: i32) -> (r:
    Result<i32, IntErrorKind>)
    requires
        from <= digits@.len(),
        -100000 <= min <= 0 <= max <= 100000,
    ensures
        agrees(r, scan_digits(digits@.subrange(from as int, digits@.len() as int), 0, negative, min as int, max as int)),
        r matches Ok(v) ==> min <= v <= max,
{
    let n = digits.len();
    let mut acc: i32 = 0;
    let mut i: usize = from;
    while i < n
        invariant
            n == digits@.len(),
            from <= i <= n,
            -100000 <= min <= 0 <= max <= 100000,
            min <= acc <= max,
            scan_digits(digits@.subrange(from as int, n as int), 0, negative, min as int, max as int)
                == scan_digits(digits@.subrange(i as int, n as int), acc as int, negative, min as int, max as int),
        decreases n - i,
    {
        let ghost rest = digits@.subrange(i as int, n as int);
        assert(rest.drop_first() =~= digits@.subrange(i + 1, n as int));
        let c = digits[i];
        if !('0' <= c && c <= '9') {
            return Err(IntErrorKind::InvalidDigit);
        }
        let d: i32 = (c as u32 - '0' as u32) as i32;
        let next: i32 = if negative { acc * 10 - d } else { acc * 10 + d };
        if next > max {
            return Err(IntErrorKind::PosOverflow);
        }
        if next < min {
            return Err(IntErrorKind::NegOverflow);
        }
        acc = next;
        i = i + 1;
    }
    assert(digits@.subrange(n as int, n as int) =~= Seq::<char>::empty());
    Ok(acc)
}

/// Reads `s` as `spec_parse_int` says.
fn parse_int(s: &str, signed: bool, min: i32, max: i32) -> (r: Result<i32, IntErrorKind>)
    requires
        -100000 <= min <= 0 <= max <= 100000,
    ensures
        agrees(r, spec_parse_int(s@, signed, min as int, max as int)),
        r matches Ok(v) ==> min <= v <= max,
{
    let chars = crate::text::chars_of(s);
    let n = chars.len();
    if n == 0 {
        return Err(IntErrorKind::Empty);
    }
    let first = chars[0];
    if (first == '+' || first == '-') && n == 1 {
        return Err(IntErrorKind::InvalidDigit);
    }
    assert(chars@.subrange(1, n as int) =~= s@.drop_first());
    assert(chars@.subrange(0, n as int) =~= s@);
    if first == '+' {
        scan_digits_exec(&chars, 1, false, min, max)
    } else if first == '-' && signed {
        scan_digits_exec(&chars, 1, true, min, max)
    } else {
        scan_digits_exec(&chars, 0, false, min, max)
    }
}

/// Reads `s` as a `u16` the way the standard library does: an optional `+`
/// followed by decimal digits.
pub fn parse_u16_value(s: &str) -> (r: Result<u16, IntErrorKind>)
    ensures
        match r {
            Ok(v) => spec_parse_u16(s@) == Ok::<int, IntErrorKind>(v as int),
            Err(e) => spec_parse_u16(s@) == Err::<int, IntErrorKind>(e),
        },
{
    match parse_int(s, false, 0, 65535) {
        Ok(v) => Ok(v as u16),
        Err(e) => Err(e),
    }
}

/// Reads `s` as an `i16` the way the standard library does: an optional `+`
/// or `-` followed by decimal digits.
pub fn parse_i16_value(s: &str) -> (r: Result<i16, IntErrorKind>)
    ensures
        match r {
            Ok(v) => spec_parse_i16(s@) == Ok::<int, IntErrorKind>(v as int),
            Err(e) => spec_parse_i16(s@) == Err::<int, IntErrorKind>(e),
        },
{
    match parse_int(s, true, -32768, 32767) {
        Ok(v) => Ok(v as i16),
        Err(e) => Err(e),
    }
}

/// The ASCII digit of `d`.
fn digit_of(d: u16) -> (c: char)
    requires
        d < 10,
    ensures
        c == digit_char(d as int),
{
    let b: u8 = d as u8;
    (b + 48) as char
}

/// `n` written in decimal, as `n.to_string()` writes it.
pub fn decimal_string(n: u16) -> (r: String)
    ensures
        r@ == decimal(n as nat),
    decreases n,
{
    if n < 10 {
        let mut s = String::new();
        crate::text::push_char(&mut s, digit_of(n));
        assert(s@ =~= decimal(n as nat));
        s
    } else {
        let mut s = decimal_string(n / 10);
        crate::text::push_char(&mut s, digit_of(n % 10));
        s
    }
}

/// One step of reading: `v` moved by the digit `c`.
pub open spec fn step_value(v: int, c: char, negative: bool) -> int {
    if negative {
        v * 10 - digit_value(c)
    } else {
        v * 10 + digit_value(c)
    }
}

/// Appending one more digit to digits that read as `v` reads as `v` moved by
/// that digit, unless it leaves the range.
proof fn lemma_scan_push(
    s: Seq<char>,
    c: char,
    acc: int,
    v: int,
    negative: bool,
    min: int,
    max: int,
)
    requires
        scan_digits(s, acc, negative, min, max) == Ok::<int, IntErrorKind>(v),
        is_digit(c),
    ensures
        scan_digits(s.push(c), acc, negative, min, max) == (if step_value(v, c, negative) > max {
            Err::<int, IntErrorKind>(IntErrorKind::PosOverflow)
        } else if step_value(v, c, negative) < min {
            Err::<int, IntErrorKind>(IntErrorKind::NegOverflow)
        } else {
            Ok::<int, IntErrorKind>(step_value(v, c, negative))
        }),
    decreases s.len(),
{
    if s.len() == 0 {
        let next = step_value(acc, c, negative);
        assert(s.push(c).drop_first() =~= Seq::<char>::empty());
        assert(s.push(c)[0] == c);
        assert(scan_digits(Seq::<char>::empty(), next, negative, min, max) == Ok::<int, IntErrorKind>(
            next,
        ));
    } else {
        let next = step_value(acc, s[0], negative);
        assert(s.push(c)[0] == s[0]);
        assert(s.push(c).drop_first() =~= s.drop_first().push(c));
        lemma_scan_push(s.drop_first(), c, next, v, negative, min, max);
    }
}

/// The digits of `n` read back as `n` (as `-n` when `negative`) whenever that
/// value lies in `[min, max]`.
proof fn lemma_scan_decimal(n: nat, negative: bool, min: int, max: int)
    requires
        min <= 0 <= max,
        negative ==> min <= -n,
        !negative ==> n <= max,
    ensures
        scan_digits(decimal(n), 0, negative, min, max) == Ok::<int, IntErrorKind>(
            if negative {
                -n
            } else {
                n as int
            },
        ),
        decimal(n).len() >= 1,
        is_digit(decimal(n)[0]),
    decreases n,
{
    let value: int = if negative {
        -n
    } else {
        n as int
    };
    if n < 10 {
        let s = decimal(n);
        assert(s.drop_first() =~= Seq::<char>::empty());
        assert(digit_value(digit_char(n as int)) == n);
        assert(scan_digits(Seq::<char>::empty(), value, negative, min, max) == Ok::<int, IntErrorKind>(
            value,
        ));
    } else {
        lemma_scan_decimal(n / 10, negative, min, max);
        let c = digit_char((n % 10) as int);
        assert(digit_value(c) == n % 10);
        let prefix: int = if negative {
            -(n / 10)
        } else {
            (n / 10) as int
        };
        lemma_scan_push(decimal(n / 10), c, 0, prefix, negative, min, max);
        assert(step_value(prefix, c, negative) == value);
        assert(decimal(n)[0] == decimal(n / 10)[0]);
    }
}

/// Reading back what `decimal_string` writes gives the number written.
pub proof fn lemma_parse_u16_reads_decimal(n: u16)
    ensures
        spec_parse_u16(decimal(n as nat)) == Ok::<int, IntErrorKind>(n as int),
{
    lemma_scan_decimal(n as nat, false, 0, 65535);
}

/// `v` written in decimal, with a leading `-` when negative, as the standard
/// library writes signed integers.
pub open spec fn signed_decimal(v: int) -> Seq<char> {
    if v < 0 {
        seq!['-'] + decimal((-v) as nat)
    } else {
        decimal(v as nat)
    }
}

/// Reading an `i16` back from its decimal text gives the number written.
pub proof fn lemma_parse_i16_reads_signed_decimal(n: i16)
    ensures
        spec_parse_i16(signed_decimal(n as int)) == Ok::<int, IntErrorKind>(n as int),
{
    if n < 0 {
        let m: nat = (-(n as int)) as nat;
        lemma_scan_decimal(m, true, -32768, 32767);
        let s = signed_decimal(n as int);
        assert(s.drop_first() =~= decimal(m));
        assert(s[0] == '-');
        assert(s.len() >= 2);
    } else {
        lemma_scan_decimal(n as nat, false, -32768, 32767);
    }
}

} // verus!
