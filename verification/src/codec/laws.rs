//! What the metadata rules amount to: for each descriptor, the plain
//! conditions under which it is accepted, and the consequences that the
//! storage and query layers rely on.
use vstd::prelude::*;

use crate::codec::metadata::{
    bounds_fault, field_fault, namespace_fault, NamespaceMetadata, field_type_fault, fingerprint_fault, identifier_fault,
    index_kind_rule, schema_entry_rule, schema_fault, segment_entry_rule, segment_field_fault,
    segment_fault, statistics_fault, supports_index_spec, FieldStatistics, FieldMetadata, SchemaMetadata,
    SegmentFieldMetadata, SegmentMetadata,
};
use crate::codec::rules::{first_fault, lemma_first_fault_none};
use crate::codec::values::{same_variant_spec, value_greater, FieldValue};
use crate::codec::metadata::{FieldIndexKind, FieldType, VectorDistanceMetric};
use crate::text::{bytes_greater, has_whitespace, is_unicode_whitespace, trim_end, trim_start, trimmed};

verus! {

proof fn lemma_trim_start_len(s: Seq<char>)
    ensures
        trim_start(s).len() <= s.len(),
        s.len() > 0 && is_unicode_whitespace(s[0]) ==> trim_start(s).len() < s.len(),
        s.len() > 0 && !is_unicode_whitespace(s[0]) ==> trim_start(s) == s,
        trim_start(s).len() > 0 ==> trim_start(s).last() == s.last(),
    decreases s.len(),
{
    if s.len() > 0 && is_unicode_whitespace(s[0]) {
        lemma_trim_start_len(s.drop_first());
    }
}

proof fn lemma_trim_end_len(s: Seq<char>)
    ensures
        trim_end(s).len() <= s.len(),
        s.len() > 0 && is_unicode_whitespace(s.last()) ==> trim_end(s).len() < s.len(),
        s.len() > 0 && !is_unicode_whitespace(s.last()) ==> trim_end(s) == s,
    decreases s.len(),
{
    if s.len() > 0 && is_unicode_whitespace(s.last()) {
        lemma_trim_end_len(s.drop_last());
    }
}

proof fn lemma_trim_start_whitespace_prefix(p: Seq<char>, t: Seq<char>)
    requires
        forall|i: int| 0 <= i < p.len() ==> is_unicode_whitespace(#[trigger] p[i]),
    ensures
        trim_start(p + t) == trim_start(t),
    decreases p.len(),
{
    if p.len() > 0 {
        assert((p + t)[0] == p[0]);
        assert((p + t).drop_first() =~= p.drop_first() + t);
        let p1 = p.drop_first();
        assert forall|i: int| 0 <= i < p1.len() implies is_unicode_whitespace(#[trigger] p1[i]) by {
            assert(p1[i] == p[i + 1]);
        }
        lemma_trim_start_whitespace_prefix(p1, t);
    } else {
        assert(p + t =~= t);
    }
}

proof fn lemma_trim_end_whitespace_suffix(t: Seq<char>, q: Seq<char>)
    requires
        forall|i: int| 0 <= i < q.len() ==> is_unicode_whitespace(#[trigger] q[i]),
    ensures
        trim_end(t + q) == trim_end(t),
    decreases q.len(),
{
    if q.len() > 0 {
        assert((t + q).last() == q.last());
        assert((t + q).drop_last() =~= t + q.drop_last());
        let q1 = q.drop_last();
        assert forall|i: int| 0 <= i < q1.len() implies is_unicode_whitespace(#[trigger] q1[i]) by {
            assert(q1[i] == q[i]);
        }
        lemma_trim_end_whitespace_suffix(t, q1);
    } else {
        assert(t + q =~= t);
    }
}

proof fn lemma_trim_start_keeps_tail(s: Seq<char>, q: Seq<char>, k: int)
    requires
        0 <= k < s.len(),
        !is_unicode_whitespace(s[k]),
    ensures
        trim_start(s + q) == trim_start(s) + q,
    decreases s.len(),
{
    if is_unicode_whitespace(s[0]) {
        assert((s + q)[0] == s[0]);
        assert((s + q).drop_first() =~= s.drop_first() + q);
        assert(k != 0);
        assert(s.drop_first()[k - 1] == s[k]);
        lemma_trim_start_keeps_tail(s.drop_first(), q, k - 1);
    } else {
        assert((s + q)[0] == s[0]);
    }
}

proof fn lemma_trim_start_all_whitespace(s: Seq<char>)
    requires
        forall|i: int| 0 <= i < s.len() ==> is_unicode_whitespace(#[trigger] s[i]),
    ensures
        trim_start(s).len() == 0,
    decreases s.len(),
{
    if s.len() > 0 {
        let s1 = s.drop_first();
        assert(is_unicode_whitespace(s[0]));
        assert forall|i: int| 0 <= i < s1.len() implies is_unicode_whitespace(#[trigger] s1[i]) by {
            assert(s1[i] == s[i + 1]);
        }
        lemma_trim_start_all_whitespace(s1);
    }
}

/// Whitespace around a text does not change what it trims to.
pub proof fn law_trim_ignores_padding(p: Seq<char>, s: Seq<char>, q: Seq<char>)
    requires
        forall|i: int| 0 <= i < p.len() ==> is_unicode_whitespace(#[trigger] p[i]),
        forall|i: int| 0 <= i < q.len() ==> is_unicode_whitespace(#[trigger] q[i]),
    ensures
        trimmed(p + s + q) == trimmed(s),
{
    assert(p + s + q =~= p + (s + q));
    lemma_trim_start_whitespace_prefix(p, s + q);
    if exists|k: int| 0 <= k < s.len() && !is_unicode_whitespace(s[k]) {
        let k = choose|k: int| 0 <= k < s.len() && !is_unicode_whitespace(s[k]);
        lemma_trim_start_keeps_tail(s, q, k);
        lemma_trim_end_whitespace_suffix(trim_start(s), q);
    } else {
        let sq = s + q;
        assert forall|i: int| 0 <= i < sq.len() implies is_unicode_whitespace(#[trigger] sq[i]) by {
            if i < s.len() {
                assert(sq[i] == s[i]);
            } else {
                assert(sq[i] == q[i - s.len()]);
            }
        }
        lemma_trim_start_all_whitespace(sq);
        lemma_trim_start_all_whitespace(s);
        assert(trim_start(sq) =~= Seq::<char>::empty());
        assert(trim_start(s) =~= Seq::<char>::empty());
    }
}

/// A fingerprint is judged by its trimmed text: whitespace around it never
/// changes whether it is accepted or which fault it has, and a single token
/// of non-whitespace characters, padded or not, is accepted.
pub proof fn law_fingerprint_ignores_padding(p: Seq<char>, s: Seq<char>, q: Seq<char>)
    requires
        forall|i: int| 0 <= i < p.len() ==> is_unicode_whitespace(#[trigger] p[i]),
        forall|i: int| 0 <= i < q.len() ==> is_unicode_whitespace(#[trigger] q[i]),
    ensures
        fingerprint_fault(p + s + q) == fingerprint_fault(s),
        s.len() > 0 && !has_whitespace(s) ==> fingerprint_fault(p + s + q) is None,
{
    law_trim_ignores_padding(p, s, q);
    if s.len() > 0 && !has_whitespace(s) {
        lemma_trim_start_len(s);
        lemma_trim_end_len(s);
        assert(!is_unicode_whitespace(s[0]));
        assert(!is_unicode_whitespace(s[s.len() - 1]));
        assert(trim_start(s) == s);
        assert(trimmed(s) == s);
    }
}

/// Which index fits which type: full text only over text; numeric only over
/// signed, unsigned and float numbers and timestamps; bitmaps only over
/// keywords and booleans; vector indexes only over vectors. Bytes and JSON
/// take no index.
pub proof fn law_index_support(t: FieldType)
    ensures
        supports_index_spec(t, FieldIndexKind::FullText) <==> t == FieldType::Text,
        supports_index_spec(t, FieldIndexKind::Numeric) <==> (t == FieldType::Int64 || t
            == FieldType::UInt64 || t == FieldType::Float64 || t == FieldType::TimestampMicros),
        supports_index_spec(t, FieldIndexKind::Bitmap) <==> (t == FieldType::Keyword || t
            == FieldType::Boolean),
        supports_index_spec(t, FieldIndexKind::Vector) <==> exists|d: u32, m: VectorDistanceMetric|
            t == (FieldType::Vector { dimension: d, distance_metric: m }),
        t == FieldType::Bytes || t == FieldType::Json ==> forall|k: FieldIndexKind|
            !supports_index_spec(t, k),
{
    if let FieldType::Vector { dimension, distance_metric } = t {
        assert(t == (FieldType::Vector { dimension: dimension, distance_metric: distance_metric }));
    }
}

/// A field type is accepted exactly when it is not a vector of dimension
/// zero: every other type, and a vector of any positive dimension, passes.
pub proof fn law_field_type_accepted(t: FieldType)
    ensures
        match t {
            FieldType::Vector { dimension, .. } => (field_type_fault(t) is None <==> dimension > 0),
            _ => field_type_fault(t) is None,
        },
{
}

/// An identifier is accepted exactly when it is not empty and neither its
/// first nor its last character is whitespace.
pub proof fn law_identifier_accepted(kind: Seq<char>, value: Seq<char>)
    ensures
        identifier_fault(kind, value) is None <==> value.len() > 0 && !is_unicode_whitespace(
            value[0],
        ) && !is_unicode_whitespace(value.last()),
{
    lemma_trim_start_len(value);
    lemma_trim_end_len(trim_start(value));
    if value.len() > 0 && !is_unicode_whitespace(value[0]) && !is_unicode_whitespace(
        value.last(),
    ) {
        assert(trim_start(value) == value);
        assert(trimmed(value) == value);
    } else if value.len() > 0 {
        assert(trimmed(value).len() < value.len());
    }
}

/// A field descriptor is accepted exactly when its name is accepted, its
/// type is valid, it is stored or indexed, and its index kinds are distinct
/// and each supported by its type.
pub proof fn law_field_accepted(f: FieldMetadata)
    ensures
        field_fault(f) is None <==> {
            &&& identifier_fault("field"@, f.name@) is None
            &&& field_type_fault(f.field_type) is None
            &&& f.stored || f.index_kinds@.len() > 0
            &&& forall|i: int|
                0 <= i < f.index_kinds@.len() ==> supports_index_spec(
                    f.field_type,
                    #[trigger] f.index_kinds@[i],
                )
            &&& forall|i: int, j: int|
                0 <= i < j < f.index_kinds@.len() ==> f.index_kinds@[i] != f.index_kinds@[j]
        },
{
    let kinds = f.index_kinds@;
    let rule = index_kind_rule(f);
    lemma_first_fault_none(kinds, rule);
    if first_fault(kinds, rule) is None {
        assert forall|i: int| 0 <= i < kinds.len() implies supports_index_spec(
            f.field_type,
            #[trigger] kinds[i],
        ) by {
            assert(rule(kinds.take(i), kinds[i]) is None);
        }
        assert forall|i: int, j: int| 0 <= i < j < kinds.len() implies kinds[i] != kinds[j] by {
            assert(rule(kinds.take(j), kinds[j]) is None);
            assert(kinds.take(j)[i] == kinds[i]);
            if kinds[i] == kinds[j] {
                assert(kinds.take(j).contains(kinds[j]));
            }
        }
    }
    if (forall|i: int| 0 <= i < kinds.len() ==> supports_index_spec(f.field_type, #[trigger] kinds[i]))
        && (forall|i: int, j: int| 0 <= i < j < kinds.len() ==> kinds[i] != kinds[j]) {
        assert forall|j: int| 0 <= j < kinds.len() implies (#[trigger] rule(kinds.take(j), kinds[j])) is None by {
            assert(supports_index_spec(f.field_type, kinds[j]));
            if kinds.take(j).contains(kinds[j]) {
                let i = choose|i: int| 0 <= i < kinds.take(j).len() && kinds.take(j)[i] == kinds[j];
                assert(kinds[i] == kinds[j]);
            }
        }
    }
}

/// A schema is accepted exactly when its version is positive, it has fields,
/// its fingerprint is valid, each field is accepted, and no two fields share
/// an ID or a name.
pub proof fn law_schema_accepted(s: SchemaMetadata)
    ensures
        schema_fault(s) is None <==> {
            &&& s.version > 0
            &&& s.fields@.len() > 0
            &&& fingerprint_fault(s.fingerprint.0@) is None
            &&& forall|i: int| 0 <= i < s.fields@.len() ==> field_fault(#[trigger] s.fields@[i]) is None
            &&& forall|i: int, j: int|
                0 <= i < j < s.fields@.len() ==> s.fields@[i].field_id != s.fields@[j].field_id
            &&& forall|i: int, j: int|
                0 <= i < j < s.fields@.len() ==> s.fields@[i].name@ != s.fields@[j].name@
        },
{
    let fields = s.fields@;
    let rule = schema_entry_rule();
    lemma_first_fault_none(fields, rule);
    if first_fault(fields, rule) is None {
        assert forall|i: int| 0 <= i < fields.len() implies field_fault(#[trigger] fields[i]) is None by {
            assert(rule(fields.take(i), fields[i]) is None);
        }
        assert forall|i: int, j: int| 0 <= i < j < fields.len() implies fields[i].field_id
            != fields[j].field_id && fields[i].name@ != fields[j].name@ by {
            assert(rule(fields.take(j), fields[j]) is None);
            assert(fields.take(j)[i] == fields[i]);
        }
    }
    if (forall|i: int| 0 <= i < fields.len() ==> field_fault(#[trigger] fields[i]) is None)
        && (forall|i: int, j: int| 0 <= i < j < fields.len() ==> fields[i].field_id != fields[j].field_id)
        && (forall|i: int, j: int| 0 <= i < j < fields.len() ==> fields[i].name@ != fields[j].name@) {
        assert forall|j: int| 0 <= j < fields.len() implies (#[trigger] rule(fields.take(j), fields[j])) is None by {
            assert(field_fault(fields[j]) is None);
            let e = fields.take(j);
            assert forall|i: int| 0 <= i < e.len() implies (#[trigger] e[i]).field_id != fields[j].field_id
                && e[i].name@ != fields[j].name@ by {
                assert(e[i] == fields[i]);
            }
        }
    }
}

/// A namespace is accepted exactly when its name is accepted and its schema
/// is accepted.
pub proof fn law_namespace_accepted(n: NamespaceMetadata)
    ensures
        namespace_fault(n) is None <==> identifier_fault("namespace"@, n.name@) is None
            && schema_fault(n.schema) is None,
{
}

/// The statistics of a field are accepted exactly when the null and
/// non-null counts together fit in the segment, the distinct count is at
/// most the non-null count, and the bounds are either both absent or of the
/// same kind with the minimum not above the maximum.
pub proof fn law_statistics_accepted(f: SegmentFieldMetadata, rows: u64)
    ensures
        segment_field_fault(f, rows) is None <==> {
            &&& f.bytes_on_disk > 0
            &&& f.non_null_value_count <= rows
            &&& f.statistics matches Some(st) ==> {
                &&& st.null_count + f.non_null_value_count <= rows
                &&& st.distinct_count matches Some(d) ==> d <= f.non_null_value_count
                &&& st.min_value is Some <==> st.max_value is Some
                &&& st.min_value matches Some(lo) ==> st.max_value matches Some(hi)
                    && same_variant_spec(lo, hi) && !value_greater(lo, hi)
            }
        },
{
}

/// Statistics accepted for a field in a segment of `rows` rows are accepted
/// for any field ID in any segment with at least as many rows: the rule
/// looks at the counts and bounds only, and more rows never break it.
pub proof fn law_statistics_monotone_in_rows(
    st: FieldStatistics,
    id: u32,
    other_id: u32,
    non_null: u64,
    rows: u64,
    more_rows: u64,
)
    requires
        statistics_fault(st, id, non_null, rows) is None,
        rows <= more_rows,
    ensures
        statistics_fault(st, other_id, non_null, more_rows) is None,
{
}

/// A segment descriptor is accepted exactly when its namespace and
/// fingerprint are accepted, its object key is not blank, it has rows and
/// bytes, each field's metadata is accepted for its row count, and no two
/// fields share an ID or a column ordinal.
pub proof fn law_segment_accepted(s: SegmentMetadata)
    ensures
        segment_fault(s) is None <==> {
            &&& identifier_fault("namespace"@, s.namespace@) is None
            &&& fingerprint_fault(s.schema_fingerprint.0@) is None
            &&& trimmed(s.object_store_key@).len() > 0
            &&& s.row_count > 0
            &&& s.size_bytes > 0
            &&& forall|i: int|
                0 <= i < s.fields@.len() ==> segment_field_fault(#[trigger] s.fields@[i], s.row_count)
                    is None
            &&& forall|i: int, j: int|
                0 <= i < j < s.fields@.len() ==> s.fields@[i].field_id != s.fields@[j].field_id
            &&& forall|i: int, j: int|
                0 <= i < j < s.fields@.len() ==> s.fields@[i].column_ordinal
                    != s.fields@[j].column_ordinal
        },
{
    let fields = s.fields@;
    let rule = segment_entry_rule(s.row_count);
    lemma_first_fault_none(fields, rule);
    if first_fault(fields, rule) is None {
        assert forall|i: int| 0 <= i < fields.len() implies segment_field_fault(
            #[trigger] fields[i],
            s.row_count,
        ) is None by {
            assert(rule(fields.take(i), fields[i]) is None);
        }
        assert forall|i: int, j: int| 0 <= i < j < fields.len() implies fields[i].field_id
            != fields[j].field_id && fields[i].column_ordinal != fields[j].column_ordinal by {
            assert(rule(fields.take(j), fields[j]) is None);
            assert(fields.take(j)[i] == fields[i]);
        }
    }
    if (forall|i: int| 0 <= i < fields.len() ==> segment_field_fault(#[trigger] fields[i], s.row_count) is None)
        && (forall|i: int, j: int| 0 <= i < j < fields.len() ==> fields[i].field_id != fields[j].field_id)
        && (forall|i: int, j: int| 0 <= i < j < fields.len() ==> fields[i].column_ordinal != fields[j].column_ordinal) {
        assert forall|j: int| 0 <= j < fields.len() implies (#[trigger] rule(fields.take(j), fields[j])) is None by {
            assert(segment_field_fault(fields[j], s.row_count) is None);
            let e = fields.take(j);
            assert forall|i: int| 0 <= i < e.len() implies (#[trigger] e[i]).field_id != fields[j].field_id
                && e[i].column_ordinal != fields[j].column_ordinal by {
                assert(e[i] == fields[i]);
            }
        }
    }
}

/// A segment in which some field reports more nulls than the segment has
/// rows is rejected, whatever else it holds.
pub proof fn law_null_count_above_rows_rejected(s: SegmentMetadata, k: int)
    requires
        0 <= k < s.fields@.len(),
        s.fields@[k].statistics is Some,
        s.fields@[k].statistics->0.null_count > s.row_count,
    ensures
        segment_fault(s) is Some,
{
    law_segment_accepted(s);
    law_statistics_accepted(s.fields@[k], s.row_count);
}

proof fn lemma_bytes_greater_irreflexive(a: Seq<u8>)
    ensures
        !bytes_greater(a, a),
    decreases a.len(),
{
    if a.len() > 0 {
        lemma_bytes_greater_irreflexive(a.drop_first());
    }
}

/// No value sorts after itself, so statistics whose minimum and maximum are
/// the same value pass the bounds rule.
pub proof fn law_equal_bounds_accepted(id: u32, v: FieldValue)
    ensures
        !value_greater(v, v),
        bounds_fault(id, Some(v), Some(v)) is None,
{
    match v {
        FieldValue::Keyword { value } => {
            lemma_bytes_greater_irreflexive(vstd::utf8::encode_utf8(value@));
        },
        _ => {},
    }
}

} // verus!
