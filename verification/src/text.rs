//! Small verified text utilities shared by both pipelines: decimal
//! parsing and rendering of 8-bit levels, whitespace trimming, prefix
//! tests, and UTF-8 decoding of raw response bytes.

use vstd::prelude::*;

use crate::error::BatteryError;

verus! {

pub open spec fn spec_is_digit(c: char) -> bool {
    48 <= c as int && c as int <= 57
}

pub open spec fn spec_digit_val(c: char) -> int {
    c as int - 48
}

/// The number denoted by a sequence of decimal digits (most
/// significant first); meaningful only when every element is a digit.
pub open spec fn spec_digits_value(s: Seq<char>) -> int
    decreases s.len(),
{
    if s.len() == 0 {
        0
    } else {
        spec_digits_value(s.drop_last()) * 10 + spec_digit_val(s.last())
    }
}

pub open spec fn spec_all_digits(s: Seq<char>) -> bool {
    forall|i: int| 0 <= i < s.len() ==> spec_is_digit(#[trigger] s[i])
}

/// What parsing a decimal 8-bit integer accepts: an optional leading
/// `+`, then one or more digits, denoting a value of at most 255.
pub open spec fn spec_parse_u8(s: Seq<char>) -> Option<u8> {
    let digits = if s.len() > 0 && s[0] == '+' {
        s.subrange(1, s.len() as int)
    } else {
        s
    };
    if digits.len() == 0 {
        None
    } else if !spec_all_digits(digits) {
        None
    } else if spec_digits_value(digits) > 255 {
        None
    } else {
        Some(spec_digits_value(digits) as u8)
    }
}

proof fn lemma_digits_value_nonneg(s: Seq<char>)
    requires
        spec_all_digits(s),
    ensures
        spec_digits_value(s) >= 0,
    decreases s.len(),
{
    if s.len() > 0 {
        assert(spec_all_digits(s.drop_last()));
        lemma_digits_value_nonneg(s.drop_last());
    }
}

proof fn lemma_digits_value_prefix(s: Seq<char>, k: int)
    requires
        spec_all_digits(s),
        0 <= k <= s.len(),
    ensures
        spec_digits_value(s) >= spec_digits_value(s.subrange(0, k)),
    decreases s.len() - k,
{
    if k == s.len() {
        assert(s.subrange(0, k) =~= s);
    } else {
        let t = s.drop_last();
        assert(spec_all_digits(t));
        lemma_digits_value_nonneg(t);
        lemma_digits_value_prefix(t, k);
        assert(t.subrange(0, k) =~= s.subrange(0, k));
    }
}

/// Parses a decimal battery level, as the serial protocol sends it.
/// Anything that does not denote an integer in `0..=255` is rejected,
/// naming the offending string.
pub fn parse_u8(s: &str) -> (r: Result<u8, BatteryError>)
    ensures
        spec_parse_u8(s@) matches Some(v) ==> (r matches Ok(got) && got == v),
        spec_parse_u8(s@) is None ==> (r matches Err(e) && e matches BatteryError::BadLevel(orig)
            && orig@ == s@),
{
    let n = s.unicode_len();
    let start: usize = if n > 0 && s.get_char(0) == '+' {
        1
    } else {
        0
    };
    let ghost digits = if s@.len() > 0 && s@[0] == '+' {
        s@.subrange(1, s@.len() as int)
    } else {
        s@
    };
    assert(digits =~= s@.subrange(start as int, n as int));
    if n == start {
        return Err(BatteryError::BadLevel(s.to_owned()));
    }
    let mut i: usize = start;
    let mut acc: u16 = 0;
    while i < n
        invariant
            start <= i <= n,
            start <= 1,
            n == s@.len(),
            start == 1 ==> s@.len() > 0 && s@[0] == '+',
            start == 0 ==> !(s@.len() > 0 && s@[0] == '+'),
            digits == s@.subrange(start as int, n as int),
            spec_all_digits(s@.subrange(start as int, i as int)),
            acc <= 255,
            acc == spec_digits_value(s@.subrange(start as int, i as int)),
        decreases n - i,
    {
        let c = s.get_char(i);
        let u = c as u32;
        if !(48 <= u && u <= 57) {
            proof {
                assert(0 <= i - start < digits.len());
                assert(digits[i as int - start as int] == s@[i as int]);
                assert(!spec_is_digit(digits[i as int - start as int]));
                assert(!spec_all_digits(digits));
                if start == 0 {
                    assert(digits =~= s@);
                }
                assert(spec_parse_u8(s@) is None);
            }
            return Err(BatteryError::BadLevel(s.to_owned()));
        }
        let d = (u - 48) as u16;
        let next = acc * 10 + d;
        let ghost pre = s@.subrange(start as int, i as int);
        let ghost cur = s@.subrange(start as int, i as int + 1);
        assert(cur.drop_last() =~= pre);
        assert(cur.last() == s@[i as int]);
        if next > 255 {
            proof {
                assert(spec_all_digits(cur));
                if spec_all_digits(digits) {
                    lemma_digits_value_prefix(digits, i + 1 - start);
                    assert(digits.subrange(0, i + 1 - start) =~= cur);
                    assert(spec_digits_value(digits) > 255);
                }
                if start == 0 {
                    assert(digits =~= s@);
                }
                assert(spec_parse_u8(s@) is None);
            }
            return Err(BatteryError::BadLevel(s.to_owned()));
        }
        acc = next;
        i += 1;
    }
    proof {
        assert(s@.subrange(start as int, n as int) =~= digits);
        if start == 0 {
            assert(digits =~= s@);
        }
        assert(spec_parse_u8(s@) == Some(acc as u8));
    }
    Ok(acc as u8)
}

pub open spec fn spec_digit_char(d: int) -> char {
    if d == 0 {
        '0'
    } else if d == 1 {
        '1'
    } else if d == 2 {
        '2'
    } else if d == 3 {
        '3'
    } else if d == 4 {
        '4'
    } else if d == 5 {
        '5'
    } else if d == 6 {
        '6'
    } else if d == 7 {
        '7'
    } else if d == 8 {
        '8'
    } else {
        '9'
    }
}

/// The decimal rendering of a non-negative number, most significant
/// digit first, with no leading zeros (`0` renders as `"0"`).
pub open spec fn spec_decimal(n: int) -> Seq<char>
    decreases n,
{
    if n < 10 {
        seq![spec_digit_char(n)]
    } else {
        spec_decimal(n / 10) + seq![spec_digit_char(n % 10)]
    }
}

fn digit_str(d: u8) -> (r: &'static str)
    requires
        d < 10,
    ensures
        r@ =~= seq![spec_digit_char(d as int)],
{
    proof {
        reveal_strlit("0");
        reveal_strlit("1");
        reveal_strlit("2");
        reveal_strlit("3");
        reveal_strlit("4");
        reveal_strlit("5");
        reveal_strlit("6");
        reveal_strlit("7");
        reveal_strlit("8");
        reveal_strlit("9");
    }
    match d {
        0 => "0",
        1 => "1",
        2 => "2",
        3 => "3",
        4 => "4",
        5 => "5",
        6 => "6",
        7 => "7",
        8 => "8",
        _ => "9",
    }
}

/// Renders a battery level as its decimal string.
pub fn u8_to_string(v: u8) -> (r: String)
    ensures
        r@ == spec_decimal(v as int),
{
    let ones = v % 10;
    let tens = (v / 10) % 10;
    let hundreds = v / 100;
    proof {
        reveal_with_fuel(spec_decimal, 4);
        assert((v as int / 10) / 10 == v as int / 100) by (nonlinear_arith);
        assert(((v as int) >= 100) ==> ((v as int) / 10 >= 10)) by (nonlinear_arith);
        assert(((v as int) < 100) ==> ((v as int) / 10 < 10)) by (nonlinear_arith);
    }
    if v >= 100 {
        let mut out = digit_str(hundreds).to_owned();
        out.append(digit_str(tens));
        out.append(digit_str(ones));
        assert(out@ =~= spec_decimal(v as int));
        out
    } else if v >= 10 {
        let mut out = digit_str(tens).to_owned();
        out.append(digit_str(ones));
        assert(out@ =~= spec_decimal(v as int));
        out
    } else {
        let out = digit_str(ones).to_owned();
        assert(out@ =~= spec_decimal(v as int));
        out
    }
}

/// The characters `str::trim` removes: those with the Unicode
/// `White_Space` property.
pub open spec fn spec_is_space(c: char) -> bool {
    ||| c as int == 0x20
    ||| (0x9 <= c as int && c as int <= 0xD)
    ||| c as int == 0x85
    ||| c as int == 0xA0
    ||| c as int == 0x1680
    ||| (0x2000 <= c as int && c as int <= 0x200A)
    ||| c as int == 0x2028
    ||| c as int == 0x2029
    ||| c as int == 0x202F
    ||| c as int == 0x205F
    ||| c as int == 0x3000
}

pub open spec fn spec_trim_start(s: Seq<char>) -> Seq<char>
    decreases s.len(),
{
    if s.len() > 0 && spec_is_space(s[0]) {
        spec_trim_start(s.drop_first())
    } else {
        s
    }
}

pub open spec fn spec_trim_end(s: Seq<char>) -> Seq<char>
    decreases s.len(),
{
    if s.len() > 0 && spec_is_space(s.last()) {
        spec_trim_end(s.drop_last())
    } else {
        s
    }
}

/// What `str::trim` leaves: the input without leading and trailing
/// whitespace.
pub open spec fn spec_trim(s: Seq<char>) -> Seq<char> {
    spec_trim_end(spec_trim_start(s))
}

fn is_space(c: char) -> (r: bool)
    ensures
        r == spec_is_space(c),
{
    let u = c as u32;
    u == 0x20 || (0x9 <= u && u <= 0xD) || u == 0x85 || u == 0xA0 || u == 0x1680 || (0x2000 <= u
        && u <= 0x200A) || u == 0x2028 || u == 0x2029 || u == 0x202F || u == 0x205F || u == 0x3000
}

fn trim_start_str(s: &str) -> (r: String)
    ensures
        r@ == spec_trim_start(s@),
    decreases s@.len(),
{
    let n = s.unicode_len();
    if n > 0 && is_space(s.get_char(0)) {
        let rest = s.substring_char(1, n);
        assert(rest@ =~= s@.drop_first());
        trim_start_str(rest)
    } else {
        s.to_owned()
    }
}

fn trim_end_str(s: &str) -> (r: String)
    ensures
        r@ == spec_trim_end(s@),
    decreases s@.len(),
{
    let n = s.unicode_len();
    if n > 0 && is_space(s.get_char(n - 1)) {
        let rest = s.substring_char(0, n - 1);
        assert(rest@ =~= s@.drop_last());
        trim_end_str(rest)
    } else {
        s.to_owned()
    }
}

/// Removes leading and trailing whitespace, as `str::trim` does.
pub fn trim_str(s: &str) -> (r: String)
    ensures
        r@ == spec_trim(s@),
{
    let started = trim_start_str(s);
    trim_end_str(started.as_str())
}

pub open spec fn spec_starts_with(s: Seq<char>, prefix: Seq<char>) -> bool {
    prefix.len() <= s.len() && s.subrange(0, prefix.len() as int) == prefix
}

/// Whether `s` begins with `prefix`, character for character.
pub fn starts_with(s: &str, prefix: &str) -> (r: bool)
    ensures
        r == spec_starts_with(s@, prefix@),
{
    let n = s.unicode_len();
    let m = prefix.unicode_len();
    if m > n {
        return false;
    }
    let mut i: usize = 0;
    while i < m
        invariant
            0 <= i <= m,
            m <= n,
            n == s@.len(),
            m == prefix@.len(),
            forall|j: int| 0 <= j < i ==> s@[j] == prefix@[j],
        decreases m - i,
    {
        if s.get_char(i) != prefix.get_char(i) {
            assert(s@.subrange(0, m as int)[i as int] != prefix@[i as int]);
            return false;
        }
        i += 1;
    }
    assert(s@.subrange(0, m as int) =~= prefix@);
    true
}

/// Relies on `String::from_utf8`: succeeds exactly on valid UTF-8 and
/// then returns the string those bytes encode.
#[verifier::external_body]
pub fn decode_text(bytes: Vec<u8>) -> (r: Option<String>)
    ensures
        r is Some <==> vstd::utf8::valid_utf8(bytes@),
        r matches Some(s) ==> s@ == vstd::utf8::decode_utf8(bytes@),
{
    String::from_utf8(bytes).ok()
}

} // verus!
