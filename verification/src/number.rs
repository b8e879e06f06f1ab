//! Numbers: decimal notation of integers, and the comparisons of binary
//! floating-point numbers by their bit patterns.

use crate::text::{chars_of, is_digit};
use vstd::prelude::*;

verus! {

// ---------------------------------------------------------------------------
// Decimal notation
// ---------------------------------------------------------------------------

/// The character of a decimal digit.
pub open spec fn digit_char(d: nat) -> char
    recommends
        d < 10,
{
    (48 + d) as char
}

/// The decimal notation of a natural number, without leading zeros.
pub open spec fn decimal(n: nat) -> Seq<char>
    decreases n,
{
    if n < 10 {
        seq![digit_char(n)]
    } else {
        decimal(n / 10).push(digit_char(n % 10))
    }
}

/// The decimal notation of an integer, with a minus sign before a negative
/// one.
pub open spec fn signed_decimal(n: int) -> Seq<char> {
    if n < 0 {
        seq!['-'] + decimal((-n) as nat)
    } else {
        decimal(n as nat)
    }
}

/// Every character is a decimal digit.
pub open spec fn all_digits(s: Seq<char>) -> bool {
    forall|i: int| 0 <= i < s.len() ==> is_digit(#[trigger] s[i])
}

/// The number that a sequence of decimal digits denotes.
pub open spec fn digits_value(s: Seq<char>) -> nat
    decreases s.len(),
{
    if s.len() == 0 {
        0
    } else {
        (digits_value(s.drop_last()) * 10 + (s.last() as u32 - 48)) as nat
    }
}

/// The natural number that a text denotes: at least one decimal digit and
/// nothing else, but for a plus sign that may stand in front.
pub open spec fn natural_of(s: Seq<char>) -> Option<nat> {
    let digits = if s.len() > 0 && s[0] == '+' {
        s.skip(1)
    } else {
        s
    };
    if digits.len() > 0 && all_digits(digits) {
        Some(digits_value(digits))
    } else {
        None
    }
}

/// The integer that a text denotes: as for natural numbers, or a minus sign
/// and at least one decimal digit.
pub open spec fn integer_of(s: Seq<char>) -> Option<int> {
    if s.len() > 0 && s[0] == '-' {
        let digits = s.skip(1);
        if digits.len() > 0 && all_digits(digits) {
            Some(-(digits_value(digits) as int))
        } else {
            None
        }
    } else {
        match natural_of(s) {
            Some(n) => Some(n as int),
            None => None,
        }
    }
}

/// A single digit denotes its value.
pub proof fn single_digit(c: char)
    requires
        is_digit(c),
    ensures
        natural_of(seq![c]) == Some((c as u32 - 48) as nat),
        integer_of(seq![c]) == Some(c as u32 - 48),
{
    let s = seq![c];
    assert(s.drop_last() =~= Seq::empty());
    assert(digits_value(s) == (digits_value(s.drop_last()) * 10 + (c as u32 - 48)) as nat);
}

/// What `natural_of` finds, where it is at most `limit`.
pub open spec fn natural_up_to(s: Seq<char>, limit: nat) -> Option<nat> {
    match natural_of(s) {
        Some(n) if n <= limit => Some(n),
        _ => None,
    }
}

proof fn lemma_digits_value_grows(s: Seq<char>, k: int)
    requires
        0 <= k <= s.len(),
        all_digits(s),
    ensures
        digits_value(s.take(k)) <= digits_value(s),
    decreases s.len() - k,
{
    if k < s.len() {
        lemma_digits_value_grows(s, k + 1);
        assert(s.take(k + 1).drop_last() =~= s.take(k));
        assert(is_digit(s[k]));
    } else {
        assert(s.take(k) =~= s);
    }
}

/// A decimal notation consists of digits and denotes the number it was made
/// from.
pub proof fn decimal_denotes(n: nat)
    ensures
        decimal(n).len() > 0,
        all_digits(decimal(n)),
        digits_value(decimal(n)) == n,
        natural_of(decimal(n)) == Some(n),
    decreases n,
{
    if n < 10 {
        assert(decimal(n).drop_last() =~= Seq::empty());
        assert(digits_value(decimal(n).drop_last()) == 0);
    } else {
        decimal_denotes(n / 10);
        assert(decimal(n).drop_last() =~= decimal(n / 10));
    }
    assert(is_digit(decimal(n)[0]));
}

/// The decimal notation of an unsigned number.
pub fn format_u128(n: u128) -> (s: String)
    ensures
        s@ == decimal(n as nat),
    decreases n,
{
    let d = (n % 10) as u8;
    let c = (48u8 + d) as char;
    if n < 10 {
        let mut s = String::new();
        s.push(c);
        assert(s@ =~= decimal(n as nat));
        s
    } else {
        let mut s = format_u128(n / 10);
        s.push(c);
        s
    }
}

/// The decimal notation of an unsigned number.
pub fn format_u64(n: u64) -> (s: String)
    ensures
        s@ == decimal(n as nat),
{
    format_u128(n as u128)
}

/// The decimal notation of a signed number.
pub fn format_i64(n: i64) -> (s: String)
    ensures
        s@ == signed_decimal(n as int),
{
    if n < 0 {
        let mut s = String::new();
        s.push('-');
        let magnitude = (-(n as i128)) as u128;
        s.append(format_u128(magnitude).as_str());
        assert(s@ =~= signed_decimal(n as int));
        s
    } else {
        format_u128(n as u128)
    }
}

/// The value of the digits from `from` on, where there is at least one, all
/// are digits and the value is at most `limit`.
fn parse_digits(chars: &Vec<char>, from: usize, limit: u64) -> (value: Option<u64>)
    requires
        from <= chars.len(),
    ensures
        ({
            let digits = chars@.skip(from as int);
            match value {
                Some(v) => digits.len() > 0 && all_digits(digits) && digits_value(digits) == v && v
                    <= limit,
                None => !(digits.len() > 0 && all_digits(digits) && digits_value(digits) <= limit),
            }
        }),
{
    let ghost digits = chars@.skip(from as int);
    if from == chars.len() {
        return None;
    }
    let mut value: u64 = 0;
    let mut i: usize = from;
    assert(digits.take(0) =~= Seq::empty());
    while i < chars.len()
        invariant
            from <= i <= chars.len(),
            digits == chars@.skip(from as int),
            all_digits(digits.take(i - from)),
            value == digits_value(digits.take(i - from)),
            value <= limit,
        decreases chars.len() - i,
    {
        let c = chars[i];
        let ghost seen = digits.take(i - from);
        let ghost next = digits.take(i - from + 1);
        assert(next.drop_last() =~= seen);
        assert(next.last() == c);
        if !('0' <= c && c <= '9') {
            assert(digits[i - from] == c);
            assert(!is_digit(digits[i - from]));
            return None;
        }
        let d = (c as u32 - 48) as u64;
        let grown = (value as u128) * 10 + (d as u128);
        assert(grown == digits_value(next));
        if grown > limit as u128 {
            proof {
                if all_digits(digits) {
                    lemma_digits_value_grows(digits, i - from + 1);
                }
            }
            return None;
        }
        value = grown as u64;
        i = i + 1;
        assert(forall|j: int| 0 <= j < next.len() - 1 ==> next[j] == seen[j]);
    }
    assert(digits.take(digits.len() as int) =~= digits);
    Some(value)
}

/// The unsigned number up to `limit` that a text denotes, as
/// `str::parse` reads it.
fn parse_natural(s: &str, limit: u64) -> (value: Option<u64>)
    ensures
        match value {
            Some(v) => natural_up_to(s@, limit as nat) == Some(v as nat),
            None => natural_up_to(s@, limit as nat) is None,
        },
{
    let chars = chars_of(s);
    assert(s@.skip(0) =~= s@);
    if chars.len() > 0 && chars[0] == '+' {
        parse_digits(&chars, 1, limit)
    } else {
        parse_digits(&chars, 0, limit)
    }
}

/// `str::parse::<u64>`.
pub fn parse_u64(s: &str) -> (value: Option<u64>)
    ensures
        match value {
            Some(v) => natural_up_to(s@, u64::MAX as nat) == Some(v as nat),
            None => natural_up_to(s@, u64::MAX as nat) is None,
        },
{
    parse_natural(s, u64::MAX)
}

/// `str::parse::<u32>`.
pub fn parse_u32(s: &str) -> (value: Option<u32>)
    ensures
        match value {
            Some(v) => natural_up_to(s@, u32::MAX as nat) == Some(v as nat),
            None => natural_up_to(s@, u32::MAX as nat) is None,
        },
{
    match parse_natural(s, u32::MAX as u64) {
        Some(v) => Some(v as u32),
        None => None,
    }
}

/// What `integer_of` finds, where an `i32` holds it.
pub open spec fn i32_of(s: Seq<char>) -> Option<int> {
    match integer_of(s) {
        Some(n) if i32::MIN <= n <= i32::MAX => Some(n),
        _ => None,
    }
}

/// `str::parse::<i32>`.
pub fn parse_i32(s: &str) -> (value: Option<i32>)
    ensures
        match value {
            Some(v) => i32_of(s@) == Some(v as int),
            None => i32_of(s@) is None,
        },
{
    let chars = chars_of(s);
    assert(s@.skip(0) =~= s@);
    if chars.len() > 0 && chars[0] == '-' {
        match parse_digits(&chars, 1, 0x8000_0000) {
            Some(v) => Some((-(v as i64)) as i32),
            None => None,
        }
    } else {
        match parse_natural(s, 0x7FFF_FFFF) {
            Some(v) => Some(v as i32),
            None => None,
        }
    }
}

// ---------------------------------------------------------------------------
// Floating-point numbers by bit pattern
// ---------------------------------------------------------------------------

/// A binary64 floating-point number, held as its IEEE 754 bit pattern.
#[derive(Clone, Copy, Debug, PartialEq)]
pub struct Real {
    pub bits: u64,
}

pub const SIGN_BIT: u64 = 0x8000_0000_0000_0000;

pub const INFINITY_BITS: u64 = 0x7FF0_0000_0000_0000;

impl Real {
    /// The bit pattern without the sign: it grows with the magnitude.
    pub open spec fn magnitude(self) -> int {
        if self.bits >= SIGN_BIT {
            self.bits - SIGN_BIT
        } else {
            self.bits as int
        }
    }

    /// An integer that orders numbers as their values do; both zeros have 0.
    pub open spec fn rank(self) -> int {
        if self.bits >= SIGN_BIT {
            -self.magnitude()
        } else {
            self.magnitude()
        }
    }

    /// The pattern stands for no number.
    pub open spec fn is_nan_spec(self) -> bool {
        self.magnitude() > INFINITY_BITS
    }

    /// The pattern stands for a number that is not infinite.
    pub open spec fn finite(self) -> bool {
        self.magnitude() < INFINITY_BITS
    }

    /// `self < other`: false where either is no number.
    pub open spec fn less(self, other: Real) -> bool {
        !self.is_nan_spec() && !other.is_nan_spec() && self.rank() < other.rank()
    }

    /// `self <= other`: false where either is no number.
    pub open spec fn at_most(self, other: Real) -> bool {
        !self.is_nan_spec() && !other.is_nan_spec() && self.rank() <= other.rank()
    }

    /// `self == other`: false where either is no number.
    pub open spec fn equals(self, other: Real) -> bool {
        !self.is_nan_spec() && !other.is_nan_spec() && self.rank() == other.rank()
    }

    /// The number with the given bit pattern.
    pub fn from_bits(bits: u64) -> (r: Real)
        ensures
            r.bits == bits,
    {
        Real { bits }
    }

    /// The integer that orders this number.
    pub fn ordering_key(&self) -> (key: i64)
        ensures
            key == self.rank(),
    {
        if self.bits >= SIGN_BIT {
            -((self.bits - SIGN_BIT) as i64)
        } else {
            self.bits as i64
        }
    }

    pub fn is_nan(&self) -> (yes: bool)
        ensures
            yes == self.is_nan_spec(),
    {
        if self.bits >= SIGN_BIT {
            self.bits - SIGN_BIT > INFINITY_BITS
        } else {
            self.bits > INFINITY_BITS
        }
    }

    /// `f64::is_finite`.
    pub fn is_finite(&self) -> (yes: bool)
        ensures
            yes == self.finite(),
    {
        if self.bits >= SIGN_BIT {
            self.bits - SIGN_BIT < INFINITY_BITS
        } else {
            self.bits < INFINITY_BITS
        }
    }

    /// `<` on floating-point numbers.
    pub fn lt(&self, other: &Real) -> (yes: bool)
        ensures
            yes == self.less(*other),
    {
        !self.is_nan() && !other.is_nan() && self.ordering_key() < other.ordering_key()
    }

    /// `<=` on floating-point numbers.
    pub fn le(&self, other: &Real) -> (yes: bool)
        ensures
            yes == self.at_most(*other),
    {
        !self.is_nan() && !other.is_nan() && self.ordering_key() <= other.ordering_key()
    }

    /// `==` on floating-point numbers.
    pub fn same(&self, other: &Real) -> (yes: bool)
        ensures
            yes == self.equals(*other),
    {
        !self.is_nan() && !other.is_nan() && self.ordering_key() == other.ordering_key()
    }
}

/// The number 0.
pub open spec fn real_zero() -> Real {
    Real { bits: 0 }
}

/// The bit pattern of 0.5.
pub const HALF_BITS: u64 = 0x3FE0_0000_0000_0000;

/// The bit pattern of 1.
pub const ONE_BITS: u64 = 0x3FF0_0000_0000_0000;

/// The bit pattern of 2.
pub const TWO_BITS: u64 = 0x4000_0000_0000_0000;

/// The bit pattern of 3.
pub const THREE_BITS: u64 = 0x4008_0000_0000_0000;

/// The bit pattern of 30.
pub const THIRTY_BITS: u64 = 0x403E_0000_0000_0000;

/// The bit pattern of 100.
pub const HUNDRED_BITS: u64 = 0x4059_0000_0000_0000;

/// The bit pattern of 130.
pub const HUNDRED_THIRTY_BITS: u64 = 0x4060_4000_0000_0000;

/// The order of floating-point numbers is total on the numbers, and one that
/// is less than another is not equal to it or greater.
pub proof fn real_order_is_total(a: Real, b: Real)
    requires
        !a.is_nan_spec(),
        !b.is_nan_spec(),
    ensures
        a.less(b) || a.equals(b) || b.less(a),
        !(a.less(b) && b.at_most(a)),
        a.at_most(b) <==> a.less(b) || a.equals(b),
{
}

} // verus!
