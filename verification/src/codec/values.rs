//! Comparable scalar values used in segment statistics, and their order.
use vstd::prelude::*;
use vstd::utf8::encode_utf8;

use crate::text::{bytes_greater, bytes_greater_exec};

verus! {

/// Comparable scalar values used in segment statistics.
///
/// A 64-bit float is held as its IEEE 754 binary64 bit pattern (what
/// `f64::to_bits` gives), so that the rules can order it exactly. Equality
/// of two such values is the float's: see `value_eq`.
#[derive(Debug, Clone)]
pub enum FieldValue {
    Keyword { value: String },
    Boolean { value: bool },
    Int64 { value: i64 },
    UInt64 { value: u64 },
    Float64 { value_bits: u64 },
    TimestampMicros { value: i64 },
}

/// The sign bit of a binary64 bit pattern.
pub open spec fn float_sign_bit() -> u64 {
    0x8000_0000_0000_0000
}

/// The bit pattern without its sign bit.
pub open spec fn float_magnitude(bits: u64) -> u64 {
    if bits >= float_sign_bit() {
        (bits - float_sign_bit()) as u64
    } else {
        bits
    }
}

/// The bit pattern encodes a NaN: all exponent bits set and a non-zero
/// fraction.
pub open spec fn float_is_nan(bits: u64) -> bool {
    float_magnitude(bits) > 0x7FF0_0000_0000_0000
}

/// For a bit pattern that is not a NaN, an integer that orders as the value
/// it encodes does: positive values by magnitude, negative ones reversed,
/// and both zeros at 0.
pub open spec fn float_rank(bits: u64) -> int {
    if bits >= float_sign_bit() {
        -(float_magnitude(bits) as int)
    } else {
        float_magnitude(bits) as int
    }
}

/// `a > b` for the binary64 values with these bit patterns: false whenever
/// either is a NaN, as IEEE 754 comparison is.
pub open spec fn float_greater(a: u64, b: u64) -> bool {
    !float_is_nan(a) && !float_is_nan(b) && float_rank(a) > float_rank(b)
}

/// `a == b` for the binary64 values with these bit patterns: false whenever
/// either is a NaN, and the two zeros equal, as IEEE 754 comparison is.
pub open spec fn float_eq(a: u64, b: u64) -> bool {
    !float_is_nan(a) && !float_is_nan(b) && float_rank(a) == float_rank(b)
}

/// Equality of two values: the same variant holding equal contents, floats
/// compared as floats.
pub open spec fn value_eq(a: FieldValue, b: FieldValue) -> bool {
    match (a, b) {
        (FieldValue::Keyword { value: l }, FieldValue::Keyword { value: r }) => l@ == r@,
        (FieldValue::Boolean { value: l }, FieldValue::Boolean { value: r }) => l == r,
        (FieldValue::Int64 { value: l }, FieldValue::Int64 { value: r }) => l == r,
        (FieldValue::UInt64 { value: l }, FieldValue::UInt64 { value: r }) => l == r,
        (FieldValue::Float64 { value_bits: l }, FieldValue::Float64 { value_bits: r }) => float_eq(
            l,
            r,
        ),
        (FieldValue::TimestampMicros { value: l }, FieldValue::TimestampMicros { value: r }) => l
            == r,
        _ => false,
    }
}

/// `a == b` for the binary64 values with these bit patterns.
pub fn float_eq_exec(a: u64, b: u64) -> (r: bool)
    ensures
        r == float_eq(a, b),
{
    let sign: u64 = 0x8000_0000_0000_0000;
    let a_mag = if a >= sign {
        a - sign
    } else {
        a
    };
    let b_mag = if b >= sign {
        b - sign
    } else {
        b
    };
    if a_mag > 0x7FF0_0000_0000_0000 || b_mag > 0x7FF0_0000_0000_0000 {
        return false;
    }
    if a_mag == 0 && b_mag == 0 {
        return true;
    }
    a == b
}

impl PartialEq for FieldValue {
    fn eq(&self, other: &Self) -> (r: bool) {
        match (self, other) {
            (FieldValue::Keyword { value: l }, FieldValue::Keyword { value: r }) => *l == *r,
            (FieldValue::Boolean { value: l }, FieldValue::Boolean { value: r }) => *l == *r,
            (FieldValue::Int64 { value: l }, FieldValue::Int64 { value: r }) => *l == *r,
            (FieldValue::UInt64 { value: l }, FieldValue::UInt64 { value: r }) => *l == *r,
            (FieldValue::Float64 { value_bits: l }, FieldValue::Float64 { value_bits: r }) =>
                float_eq_exec(*l, *r),
            (FieldValue::TimestampMicros { value: l }, FieldValue::TimestampMicros { value: r }) =>
                *l == *r,
            _ => false,
        }
    }
}

impl vstd::std_specs::cmp::PartialEqSpecImpl for FieldValue {
    open spec fn obeys_eq_spec() -> bool {
        true
    }

    open spec fn eq_spec(&self, other: &FieldValue) -> bool {
        value_eq(*self, *other)
    }
}

/// The two values are of the same variant.
pub open spec fn same_variant_spec(a: FieldValue, b: FieldValue) -> bool {
    match (a, b) {
        (FieldValue::Keyword { .. }, FieldValue::Keyword { .. }) => true,
        (FieldValue::Boolean { .. }, FieldValue::Boolean { .. }) => true,
        (FieldValue::Int64 { .. }, FieldValue::Int64 { .. }) => true,
        (FieldValue::UInt64 { .. }, FieldValue::UInt64 { .. }) => true,
        (FieldValue::Float64 { .. }, FieldValue::Float64 { .. }) => true,
        (FieldValue::TimestampMicros { .. }, FieldValue::TimestampMicros { .. }) => true,
        _ => false,
    }
}

/// `a` sorts after `b`. Keywords go by the bytes of their UTF-8 text,
/// booleans put `true` after `false`, and the two kinds of signed integer
/// (plain and timestamp) compare with each other by value. Values of other
/// kinds, or a NaN, are not ordered.
pub open spec fn value_greater(a: FieldValue, b: FieldValue) -> bool {
    match (a, b) {
        (FieldValue::Keyword { value: l }, FieldValue::Keyword { value: r }) => bytes_greater(
            encode_utf8(l@),
            encode_utf8(r@),
        ),
        (FieldValue::Boolean { value: l }, FieldValue::Boolean { value: r }) => l && !r,
        (FieldValue::Int64 { value: l }, FieldValue::Int64 { value: r }) => l > r,
        (FieldValue::Int64 { value: l }, FieldValue::TimestampMicros { value: r }) => l > r,
        (FieldValue::TimestampMicros { value: l }, FieldValue::Int64 { value: r }) => l > r,
        (FieldValue::TimestampMicros { value: l }, FieldValue::TimestampMicros { value: r }) => l
            > r,
        (FieldValue::UInt64 { value: l }, FieldValue::UInt64 { value: r }) => l > r,
        (FieldValue::Float64 { value_bits: l }, FieldValue::Float64 { value_bits: r }) =>
            float_greater(l, r),
        _ => false,
    }
}

/// The key by which a value is ordered.
enum SortKey<'a> {
    String(&'a str),
    Bool(bool),
    Signed(i64),
    Unsigned(u64),
    Float(u64),
}

spec fn key_of<'a>(v: &'a FieldValue, k: SortKey<'a>) -> bool {
    match (*v, k) {
        (FieldValue::Keyword { value }, SortKey::String(s)) => s@ == value@,
        (FieldValue::Boolean { value }, SortKey::Bool(b)) => b == value,
        (FieldValue::Int64 { value }, SortKey::Signed(x)) => x == value,
        (FieldValue::UInt64 { value }, SortKey::Unsigned(x)) => x == value,
        (FieldValue::Float64 { value_bits }, SortKey::Float(x)) => x == value_bits,
        (FieldValue::TimestampMicros { value }, SortKey::Signed(x)) => x == value,
        _ => false,
    }
}

spec fn key_greater<'a>(a: SortKey<'a>, b: SortKey<'a>) -> bool {
    match (a, b) {
        (SortKey::String(l), SortKey::String(r)) => bytes_greater(
            encode_utf8(l@),
            encode_utf8(r@),
        ),
        (SortKey::Bool(l), SortKey::Bool(r)) => l && !r,
        (SortKey::Signed(l), SortKey::Signed(r)) => l > r,
        (SortKey::Unsigned(l), SortKey::Unsigned(r)) => l > r,
        (SortKey::Float(l), SortKey::Float(r)) => float_greater(l, r),
        _ => false,
    }
}

impl<'a> SortKey<'a> {
    /// `self > other`: keys of different kinds are not ordered.
    fn gt(&self, other: &SortKey<'a>) -> (r: bool)
        ensures
            r == key_greater(*self, *other),
    {
        match (self, other) {
            (SortKey::String(l), SortKey::String(r)) => bytes_greater_exec(
                l.as_bytes(),
                r.as_bytes(),
            ),
            (SortKey::Bool(l), SortKey::Bool(r)) => *l && !*r,
            (SortKey::Signed(l), SortKey::Signed(r)) => *l > *r,
            (SortKey::Unsigned(l), SortKey::Unsigned(r)) => *l > *r,
            (SortKey::Float(l), SortKey::Float(r)) => float_greater_exec(*l, *r),
            _ => false,
        }
    }
}

/// `a > b` for the binary64 values with these bit patterns.
pub fn float_greater_exec(a: u64, b: u64) -> (r: bool)
    ensures
        r == float_greater(a, b),
{
    let sign: u64 = 0x8000_0000_0000_0000;
    let a_mag = if a >= sign {
        a - sign
    } else {
        a
    };
    let b_mag = if b >= sign {
        b - sign
    } else {
        b
    };
    if a_mag > 0x7FF0_0000_0000_0000 || b_mag > 0x7FF0_0000_0000_0000 {
        return false;
    }
    let a_neg = a >= sign;
    let b_neg = b >= sign;
    if a_neg && b_neg {
        a_mag < b_mag
    } else if a_neg {
        false
    } else if b_neg {
        a_mag > 0 || b_mag > 0
    } else {
        a_mag > b_mag
    }
}

impl FieldValue {
    /// Whether both values are of the same variant.
    pub fn same_variant(&self, other: &Self) -> (r: bool)
        ensures
            r == same_variant_spec(*self, *other),
    {
        match (self, other) {
            (FieldValue::Keyword { .. }, FieldValue::Keyword { .. }) => true,
            (FieldValue::Boolean { .. }, FieldValue::Boolean { .. }) => true,
            (FieldValue::Int64 { .. }, FieldValue::Int64 { .. }) => true,
            (FieldValue::UInt64 { .. }, FieldValue::UInt64 { .. }) => true,
            (FieldValue::Float64 { .. }, FieldValue::Float64 { .. }) => true,
            (FieldValue::TimestampMicros { .. }, FieldValue::TimestampMicros { .. }) => true,
            _ => false,
        }
    }

    fn sort_key(&self) -> (k: SortKey<'_>)
        ensures
            key_of(self, k),
    {
        match self {
            FieldValue::Keyword { value } => SortKey::String(value.as_str()),
            FieldValue::Boolean { value } => SortKey::Bool(*value),
            FieldValue::Int64 { value } => SortKey::Signed(*value),
            FieldValue::UInt64 { value } => SortKey::Unsigned(*value),
            FieldValue::Float64 { value_bits } => SortKey::Float(*value_bits),
            FieldValue::TimestampMicros { value } => SortKey::Signed(*value),
        }
    }

    /// Whether `self` sorts after `other` (see `value_greater`).
    pub fn greater_than(&self, other: &Self) -> (r: bool)
        ensures
            r == value_greater(*self, *other),
    {
        let a = self.sort_key();
        let b = other.sort_key();
        a.gt(&b)
    }
}

} // verus!
