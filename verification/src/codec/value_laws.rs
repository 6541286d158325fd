//! What the order of statistics values amounts to: keywords in plain
//! lexicographic byte order, signed integers and timestamps in integer
//! order, and bounds of different kinds never of one variant.
use vstd::prelude::*;
use vstd::utf8::encode_utf8;

use crate::codec::metadata::bounds_fault;
use crate::codec::values::{same_variant_spec, value_greater, FieldValue};
use crate::text::{bytes_greater, decimal};

verus! {

proof fn lemma_bytes_greater_lexicographic(a: Seq<u8>, b: Seq<u8>)
    ensures
        bytes_greater(a, b) <==> (exists|k: int|
            0 <= k < a.len() && k < b.len() && a[k] > b[k] && forall|j: int|
                0 <= j < k ==> a[j] == b[j]) || (b.len() < a.len() && forall|j: int|
            0 <= j < b.len() ==> a[j] == b[j]),
    decreases a.len(),
{
    if a.len() == 0 {
    } else if b.len() == 0 {
    } else if a[0] != b[0] {
        if a[0] > b[0] {
            assert(forall|j: int| 0 <= j < 0 ==> a[j] == b[j]);
        } else {
            assert forall|k: int|
                0 <= k < a.len() && k < b.len() && a[k] > b[k] implies !(forall|j: int|
                0 <= j < k ==> a[j] == b[j]) by {
                if k > 0 {
                    assert(!(a[0] == b[0]));
                } else {
                    assert(!(a[k] > b[k]));
                }
            }
        }
    } else {
        let a1 = a.drop_first();
        let b1 = b.drop_first();
        lemma_bytes_greater_lexicographic(a1, b1);
        let lhs_a = exists|k: int|
            0 <= k < a.len() && k < b.len() && a[k] > b[k] && forall|j: int|
                0 <= j < k ==> a[j] == b[j];
        let lhs_a1 = exists|k: int|
            0 <= k < a1.len() && k < b1.len() && a1[k] > b1[k] && forall|j: int|
                0 <= j < k ==> a1[j] == b1[j];
        if lhs_a1 {
            let k = choose|k: int|
                0 <= k < a1.len() && k < b1.len() && a1[k] > b1[k] && forall|j: int|
                    0 <= j < k ==> a1[j] == b1[j];
            assert(a[k + 1] > b[k + 1]);
            assert forall|j: int| 0 <= j < k + 1 implies a[j] == b[j] by {
                if j > 0 {
                    assert(a1[j - 1] == b1[j - 1]);
                }
            }
        }
        if lhs_a {
            let k = choose|k: int|
                0 <= k < a.len() && k < b.len() && a[k] > b[k] && forall|j: int|
                    0 <= j < k ==> a[j] == b[j];
            assert(k != 0);
            assert(a1[k - 1] > b1[k - 1]);
            assert forall|j: int| 0 <= j < k - 1 implies a1[j] == b1[j] by {
                assert(a[j + 1] == b[j + 1]);
            }
        }
        if b1.len() < a1.len() && forall|j: int| 0 <= j < b1.len() ==> a1[j] == b1[j] {
            assert forall|j: int| 0 <= j < b.len() implies a[j] == b[j] by {
                if j > 0 {
                    assert(a1[j - 1] == b1[j - 1]);
                }
            }
        }
        if b.len() < a.len() && forall|j: int| 0 <= j < b.len() ==> a[j] == b[j] {
            assert forall|j: int| 0 <= j < b1.len() implies a1[j] == b1[j] by {
                assert(a[j + 1] == b[j + 1]);
            }
        }
    }
}

/// Keywords are ordered as plain lexicographic byte strings of their UTF-8
/// text: one sorts after the other exactly when, at the first byte where
/// they differ, its byte is the greater, or when the other is a proper
/// prefix of it. Length decides nothing else.
pub proof fn law_keyword_order_is_lexicographic(l: String, r: String)
    ensures
        ({
            let a = encode_utf8(l@);
            let b = encode_utf8(r@);
            value_greater(FieldValue::Keyword { value: l }, FieldValue::Keyword { value: r }) <==> (
            exists|k: int|
                0 <= k < a.len() && k < b.len() && a[k] > b[k] && forall|j: int|
                    0 <= j < k ==> a[j] == b[j]) || (b.len() < a.len() && forall|j: int|
                0 <= j < b.len() ==> a[j] == b[j])
        }),
{
    lemma_bytes_greater_lexicographic(encode_utf8(l@), encode_utf8(r@));
}

/// Signed integers and timestamps are ordered by their whole `i64` value,
/// whichever of the two kinds each bound is.
pub proof fn law_signed_order_is_integer_order(x: i64, y: i64)
    ensures
        value_greater(FieldValue::Int64 { value: x }, FieldValue::Int64 { value: y }) <==> x > y,
        value_greater(
            FieldValue::TimestampMicros { value: x },
            FieldValue::TimestampMicros { value: y },
        ) <==> x > y,
        value_greater(FieldValue::Int64 { value: x }, FieldValue::TimestampMicros { value: y })
            <==> x > y,
        value_greater(FieldValue::TimestampMicros { value: x }, FieldValue::Int64 { value: y })
            <==> x > y,
{
}

/// Unsigned integers are ordered by their whole `u64` value.
pub proof fn law_unsigned_order_is_integer_order(x: u64, y: u64)
    ensures
        value_greater(FieldValue::UInt64 { value: x }, FieldValue::UInt64 { value: y }) <==> x > y,
{
}

/// Booleans are ordered with `true` after `false`.
pub proof fn law_boolean_order(x: bool, y: bool)
    ensures
        value_greater(FieldValue::Boolean { value: x }, FieldValue::Boolean { value: y }) <==> (x
            && !y),
{
}

/// Floats, by their IEEE 754 bit patterns, order as the numbers they encode.
/// A NaN (all exponent bits set, fraction non-zero) is ordered with nothing.
/// Two non-negative values order as their bit patterns do, two
/// non-positive ones in reverse; a non-negative value is after a
/// non-positive one unless both are zeros; a non-positive one is never after
/// a non-negative one.
pub proof fn law_float_order(a: u64, b: u64)
    ensures
        ({
            let fa = FieldValue::Float64 { value_bits: a };
            let fb = FieldValue::Float64 { value_bits: b };
            let sign: u64 = 0x8000_0000_0000_0000;
            let inf: u64 = 0x7FF0_0000_0000_0000;
            let neg_inf: u64 = 0xFFF0_0000_0000_0000;
            let a_nan = (inf < a && a < sign) || neg_inf < a;
            let a_pos = a <= inf;
            let a_neg = sign <= a && a <= neg_inf;
            let b_pos = b <= inf;
            let b_neg = sign <= b && b <= neg_inf;
            &&& a_nan ==> !value_greater(fa, fb) && !value_greater(fb, fa)
            &&& a_pos && b_pos ==> (value_greater(fa, fb) <==> a > b)
            &&& a_neg && b_neg ==> (value_greater(fa, fb) <==> a < b)
            &&& a_pos && b_neg ==> (value_greater(fa, fb) <==> !(a == 0 && b == sign))
            &&& a_neg && b_pos ==> !value_greater(fa, fb)
        }),
{
}

/// Two values are of one variant exactly when both are keywords, both
/// booleans, both signed integers, both unsigned integers, both floats or
/// both timestamps.
pub proof fn law_same_variant_is_same_kind(a: FieldValue, b: FieldValue)
    ensures
        same_variant_spec(a, b) <==> {
            ||| a is Keyword && b is Keyword
            ||| a is Boolean && b is Boolean
            ||| a is Int64 && b is Int64
            ||| a is UInt64 && b is UInt64
            ||| a is Float64 && b is Float64
            ||| a is TimestampMicros && b is TimestampMicros
        },
{
}

/// Bounds of two different kinds are always rejected, with the message that
/// says so, whatever their values: a signed and an unsigned integer, or a
/// signed integer and a timestamp, are never bounds of one field.
pub proof fn law_mixed_kind_bounds_rejected(id: u32, lo: FieldValue, hi: FieldValue)
    requires
        !(lo is Keyword && hi is Keyword),
        !(lo is Boolean && hi is Boolean),
        !(lo is Int64 && hi is Int64),
        !(lo is UInt64 && hi is UInt64),
        !(lo is Float64 && hi is Float64),
        !(lo is TimestampMicros && hi is TimestampMicros),
    ensures
        bounds_fault(id, Some(lo), Some(hi)) == Some(
            "field "@ + decimal(id as nat) + " min and max value types do not match"@,
        ),
{
}

} // verus!
