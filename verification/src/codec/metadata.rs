//! The segment object model: namespace, schema, field and segment
//! descriptors, and the rules that a descriptor must meet before it is
//! persisted or trusted.
use vstd::prelude::*;

use crate::base::error::AetherError;
use crate::codec::rules::{
    first_fault, first_of, lemma_first_fault_all, lemma_first_fault_extends,
    lemma_first_fault_step, reports,
};
use crate::codec::values::{same_variant_spec, value_greater, FieldValue};
use crate::text::{
    chars_of, decimal, decimal_string, has_whitespace, is_unicode_whitespace, is_whitespace_char,
    trim_bounds, trimmed,
};

verus! {

/// `uuid::Uuid`, carried through the descriptors as an opaque identifier.
#[verifier::external_type_specification]
#[verifier::external_body]
pub struct ExUuid(uuid::Uuid);

/// `uuid::Uuid` derives `Clone` and `Copy`: its `clone` gives back the same
/// 16 bytes.
pub assume_specification[ <uuid::Uuid as Clone>::clone ](u: &uuid::Uuid) -> (r: uuid::Uuid)
    ensures
        r == *u,
;

/// A point in time, UTC: whole seconds since the Unix epoch and the
/// nanoseconds within that second (below 2 000 000 000, the upper half
/// standing for a leap second).
#[derive(Debug, Clone, Copy, PartialEq, Eq)]
pub struct Timestamp {
    pub unix_seconds: i64,
    pub subsec_nanos: u32,
}

/// Canonical namespace definition used by the catalog and segment codec.
#[derive(Debug, Clone, PartialEq, Eq)]
pub struct NamespaceMetadata {
    /// Logical namespace name exposed to clients.
    pub name: String,
    /// Active schema for the namespace.
    pub schema: SchemaMetadata,
    /// Time at which the namespace metadata was created.
    pub created_at: Timestamp,
}

/// Stable schema descriptor shared by catalog metadata and segment headers.
#[derive(Debug, Clone, PartialEq, Eq)]
pub struct SchemaMetadata {
    /// Stable schema identifier independent from the current fingerprint.
    pub schema_id: uuid::Uuid,
    /// Monotonic schema version within the namespace.
    pub version: u32,
    /// Fingerprint of the encoded schema payload.
    pub fingerprint: SchemaFingerprint,
    /// Ordered field descriptors. Field IDs are stable across segment writes.
    pub fields: Vec<FieldMetadata>,
    /// Time at which this schema version was created.
    pub created_at: Timestamp,
}

/// Opaque schema fingerprint string.
#[derive(Debug, Clone, PartialEq, Eq)]
pub struct SchemaFingerprint(pub String);

/// Logical field descriptor stored as part of schema metadata.
#[derive(Debug, Clone, PartialEq, Eq)]
pub struct FieldMetadata {
    /// Stable field ID used by segment-level metadata.
    pub field_id: u32,
    /// User-facing field name.
    pub name: String,
    /// Logical data type.
    pub field_type: FieldType,
    /// Whether the field may be omitted or null in logical rows.
    pub nullable: bool,
    /// Whether raw values are materialized in columnar storage.
    pub stored: bool,
    /// Index structures requested for the field.
    pub index_kinds: Vec<FieldIndexKind>,
}

/// Supported logical field types in the initial segment object model.
#[derive(Debug, Clone, PartialEq, Eq)]
pub enum FieldType {
    Text,
    Keyword,
    Boolean,
    Int64,
    UInt64,
    Float64,
    TimestampMicros,
    Bytes,
    Json,
    Vector { dimension: u32, distance_metric: VectorDistanceMetric },
}

/// Field-level index declarations supported by the first schema model.
#[derive(Debug, Clone, Copy, PartialEq, Eq, PartialOrd, Ord, Structural)]
pub enum FieldIndexKind {
    FullText,
    Numeric,
    Bitmap,
    Vector,
}

/// Distance metrics for vector fields.
#[derive(Debug, Clone, Copy, PartialEq, Eq)]
pub enum VectorDistanceMetric {
    Cosine,
    DotProduct,
    Euclidean,
}

/// Immutable segment descriptor persisted in the catalog and segment footer.
#[derive(Debug, Clone, PartialEq)]
pub struct SegmentMetadata {
    /// Unique segment identifier.
    pub segment_id: uuid::Uuid,
    /// Namespace to which the segment belongs.
    pub namespace: String,
    /// Schema identifier referenced by this segment.
    pub schema_id: uuid::Uuid,
    /// Fingerprint of the exact schema encoding used for the segment.
    pub schema_fingerprint: SchemaFingerprint,
    /// Object storage key holding the authoritative segment bytes.
    pub object_store_key: String,
    /// Segment creation time.
    pub created_at: Timestamp,
    /// Number of logical rows in the segment.
    pub row_count: u64,
    /// Total segment size in bytes.
    pub size_bytes: u64,
    /// Per-field storage and statistics metadata.
    pub fields: Vec<SegmentFieldMetadata>,
}

/// Field-level segment statistics stored alongside immutable segment metadata.
#[derive(Debug, Clone, PartialEq)]
pub struct SegmentFieldMetadata {
    /// Stable field ID from the schema.
    pub field_id: u32,
    /// Column position inside the segment.
    pub column_ordinal: u32,
    /// Encoded byte size of the field's column and index metadata.
    pub bytes_on_disk: u64,
    /// Count of non-null logical values in the segment.
    pub non_null_value_count: u64,
    /// Optional field statistics used for pruning and validation.
    pub statistics: Option<FieldStatistics>,
}

/// Generic field statistics carried in segment metadata.
#[derive(Debug, Clone, PartialEq)]
pub struct FieldStatistics {
    /// Number of null logical values in the segment.
    pub null_count: u64,
    /// Optional distinct value count if materialized during segment build.
    pub distinct_count: Option<u64>,
    /// Minimum value for pruning-compatible field types.
    pub min_value: Option<FieldValue>,
    /// Maximum value for pruning-compatible field types.
    pub max_value: Option<FieldValue>,
}

// ---------------------------------------------------------------------------
// Identifiers and fingerprints
// ---------------------------------------------------------------------------

/// The fault of an identifier of the given kind: all whitespace (or empty),
/// or whitespace at either end.
pub open spec fn identifier_fault(kind: Seq<char>, value: Seq<char>) -> Option<Seq<char>> {
    if trimmed(value).len() == 0 {
        Some(kind + " identifier must not be empty"@)
    } else if trimmed(value) != value {
        Some(kind + " identifier must not have leading or trailing whitespace"@)
    } else {
        None
    }
}

/// The fault of a schema fingerprint: nothing but whitespace, or whitespace
/// inside its trimmed text.
pub open spec fn fingerprint_fault(value: Seq<char>) -> Option<Seq<char>> {
    if trimmed(value).len() == 0 {
        Some("schema fingerprint must not be empty"@)
    } else if has_whitespace(trimmed(value)) {
        Some("schema fingerprint must not contain whitespace"@)
    } else {
        None
    }
}

/// Checks that an identifier of the given kind is neither blank nor padded
/// with whitespace.
pub fn validate_identifier(kind: &str, value: &str) -> (r: Result<(), AetherError>)
    ensures
        reports(r, identifier_fault(kind@, value@)),
{
    let chars = chars_of(value);
    let (start, end) = trim_bounds(&chars);
    if start == end {
        let mut message = String::from_str(kind);
        message.append(" identifier must not be empty");
        return Err(codec_error(message));
    }
    if start != 0 || end != chars.len() {
        proof {
            assert(trimmed(value@).len() < value@.len());
        }
        let mut message = String::from_str(kind);
        message.append(" identifier must not have leading or trailing whitespace");
        return Err(codec_error(message));
    }
    proof {
        assert(chars@.subrange(0, chars@.len() as int) =~= chars@);
    }
    Ok(())
}

impl SchemaFingerprint {
    /// Checks that the fingerprint is a single non-blank token.
    pub fn validate(&self) -> (r: Result<(), AetherError>)
        ensures
            reports(r, fingerprint_fault(self.0@)),
    {
        let chars = chars_of(self.0.as_str());
        let (start, end) = trim_bounds(&chars);
        if start == end {
            return Err(codec_error(String::from_str("schema fingerprint must not be empty")));
        }
        let ghost t = chars@.subrange(start as int, end as int);
        let mut i = start;
        while i < end
            invariant
                start <= i <= end <= chars.len(),
                t == chars@.subrange(start as int, end as int),
                t == trimmed(self.0@),
                forall|j: int| 0 <= j < i - start ==> !is_unicode_whitespace(#[trigger] t[j]),
            decreases end - i,
        {
            if is_whitespace_char(chars[i]) {
                proof {
                    assert(t[i - start] == chars@[i as int]);
                    assert(is_unicode_whitespace(t[i - start]));
                    assert(has_whitespace(t));
                }
                return Err(
                    codec_error(String::from_str("schema fingerprint must not contain whitespace")),
                );
            }
            proof {
                assert(t[i - start] == chars@[i as int]);
            }
            i = i + 1;
        }
        Ok(())
    }
}


// ---------------------------------------------------------------------------
// Field types and index kinds
// ---------------------------------------------------------------------------

/// The fault of a field type: a vector of no dimension.
pub open spec fn field_type_fault(t: FieldType) -> Option<Seq<char>> {
    match t {
        FieldType::Vector { dimension, .. } => if dimension == 0 {
            Some("vector field dimension must be greater than zero"@)
        } else {
            None
        },
        _ => None,
    }
}

/// Whether an index of kind `k` can be built over a field of type `t`:
/// full text over text, numeric over numbers and timestamps, bitmaps over
/// keywords and booleans, vector indexes over vectors.
pub open spec fn supports_index_spec(t: FieldType, k: FieldIndexKind) -> bool {
    match k {
        FieldIndexKind::FullText => t is Text,
        FieldIndexKind::Numeric => t is Int64 || t is UInt64 || t is Float64 || t is TimestampMicros,
        FieldIndexKind::Bitmap => t is Keyword || t is Boolean,
        FieldIndexKind::Vector => t is Vector,
    }
}

/// The name of an index kind, as `{:?}` prints it.
pub open spec fn index_kind_text(k: FieldIndexKind) -> Seq<char> {
    match k {
        FieldIndexKind::FullText => "FullText"@,
        FieldIndexKind::Numeric => "Numeric"@,
        FieldIndexKind::Bitmap => "Bitmap"@,
        FieldIndexKind::Vector => "Vector"@,
    }
}

/// The name of a distance metric, as `{:?}` prints it.
pub open spec fn metric_text(m: VectorDistanceMetric) -> Seq<char> {
    match m {
        VectorDistanceMetric::Cosine => "Cosine"@,
        VectorDistanceMetric::DotProduct => "DotProduct"@,
        VectorDistanceMetric::Euclidean => "Euclidean"@,
    }
}

/// A field type, as `{:?}` prints it.
pub open spec fn field_type_text(t: FieldType) -> Seq<char> {
    match t {
        FieldType::Text => "Text"@,
        FieldType::Keyword => "Keyword"@,
        FieldType::Boolean => "Boolean"@,
        FieldType::Int64 => "Int64"@,
        FieldType::UInt64 => "UInt64"@,
        FieldType::Float64 => "Float64"@,
        FieldType::TimestampMicros => "TimestampMicros"@,
        FieldType::Bytes => "Bytes"@,
        FieldType::Json => "Json"@,
        FieldType::Vector { dimension, distance_metric } => "Vector { dimension: "@ + decimal(
            dimension as nat,
        ) + ", distance_metric: "@ + metric_text(distance_metric) + " }"@,
    }
}

impl FieldIndexKind {
    /// The name of the index kind.
    pub fn text(&self) -> (s: &'static str)
        ensures
            s@ == index_kind_text(*self),
    {
        match self {
            FieldIndexKind::FullText => "FullText",
            FieldIndexKind::Numeric => "Numeric",
            FieldIndexKind::Bitmap => "Bitmap",
            FieldIndexKind::Vector => "Vector",
        }
    }
}

impl VectorDistanceMetric {
    /// The name of the metric.
    pub fn text(&self) -> (s: &'static str)
        ensures
            s@ == metric_text(*self),
    {
        match self {
            VectorDistanceMetric::Cosine => "Cosine",
            VectorDistanceMetric::DotProduct => "DotProduct",
            VectorDistanceMetric::Euclidean => "Euclidean",
        }
    }
}

impl FieldType {
    /// The field type as `{:?}` prints it.
    pub fn text(&self) -> (s: String)
        ensures
            s@ == field_type_text(*self),
    {
        match self {
            FieldType::Text => String::from_str("Text"),
            FieldType::Keyword => String::from_str("Keyword"),
            FieldType::Boolean => String::from_str("Boolean"),
            FieldType::Int64 => String::from_str("Int64"),
            FieldType::UInt64 => String::from_str("UInt64"),
            FieldType::Float64 => String::from_str("Float64"),
            FieldType::TimestampMicros => String::from_str("TimestampMicros"),
            FieldType::Bytes => String::from_str("Bytes"),
            FieldType::Json => String::from_str("Json"),
            FieldType::Vector { dimension, distance_metric } => {
                let mut s = String::from_str("Vector { dimension: ");
                s.append(decimal_string(*dimension as u64).as_str());
                s.append(", distance_metric: ");
                s.append(distance_metric.text());
                s.append(" }");
                s
            },
        }
    }

    /// Checks that a vector type has a positive dimension.
    pub fn validate(&self) -> (r: Result<(), AetherError>)
        ensures
            reports(r, field_type_fault(*self)),
    {
        if let FieldType::Vector { dimension, .. } = self {
            if *dimension == 0 {
                return Err(
                    codec_error(String::from_str("vector field dimension must be greater than zero")),
                );
            }
        }
        Ok(())
    }

    /// Whether an index of the given kind can be built over this type.
    pub fn supports_index(&self, index_kind: &FieldIndexKind) -> (r: bool)
        ensures
            r == supports_index_spec(*self, *index_kind),
    {
        match index_kind {
            FieldIndexKind::FullText => matches!(self, FieldType::Text),
            FieldIndexKind::Numeric => matches!(self, FieldType::Int64 | FieldType::UInt64 | FieldType::Float64 | FieldType::TimestampMicros),
            FieldIndexKind::Bitmap => matches!(self, FieldType::Keyword | FieldType::Boolean),
            FieldIndexKind::Vector => matches!(self, FieldType::Vector { .. }),
        }
    }
}

// ---------------------------------------------------------------------------
// Fields
// ---------------------------------------------------------------------------

/// The fault of the index kind `k` of field `f`, given the kinds declared
/// before it: declared twice, or not supported by the field's type.
pub open spec fn index_kind_fault(f: FieldMetadata, earlier: Seq<FieldIndexKind>, k: FieldIndexKind) -> Option<Seq<char>> {
    if earlier.contains(k) {
        Some("field '"@ + f.name@ + "' declares duplicate index kind "@ + index_kind_text(k))
    } else if !supports_index_spec(f.field_type, k) {
        Some("field '"@ + f.name@ + "' with type "@ + field_type_text(f.field_type)
            + " does not support index kind "@ + index_kind_text(k))
    } else {
        None
    }
}

/// The rule for the index kinds of field `f`.
pub open spec fn index_kind_rule(f: FieldMetadata) -> spec_fn(Seq<FieldIndexKind>, FieldIndexKind) -> Option<Seq<char>> {
    |earlier: Seq<FieldIndexKind>, k: FieldIndexKind| index_kind_fault(f, earlier, k)
}

/// The fault of a field descriptor: its name, its type, neither stored nor
/// indexed, then its index kinds in order.
pub open spec fn field_fault(f: FieldMetadata) -> Option<Seq<char>> {
    first_of(
        identifier_fault("field"@, f.name@),
        first_of(
            field_type_fault(f.field_type),
            if !f.stored && f.index_kinds@.len() == 0 {
                Some("field '"@ + f.name@ + "' must be stored or indexed"@)
            } else {
                first_fault(f.index_kinds@, index_kind_rule(f))
            },
        ),
    )
}

impl FieldMetadata {
    /// Checks the field descriptor: a clean name, a valid type, stored or
    /// indexed, and index kinds that are distinct and supported by the type.
    pub fn validate(&self) -> (r: Result<(), AetherError>)
        ensures
            reports(r, field_fault(*self)),
    {
        validate_identifier("field", self.name.as_str())?;
        self.field_type.validate()?;

        if !self.stored && self.index_kinds.len() == 0 {
            let mut message = String::from_str("field '");
            message.append(self.name.as_str());
            message.append("' must be stored or indexed");
            return Err(codec_error(message));
        }

        let ghost rule = index_kind_rule(*self);
        let n = self.index_kinds.len();
        let mut i: usize = 0;
        while i < n
            invariant
                n == self.index_kinds.len(),
                i <= n,
                rule == index_kind_rule(*self),
                first_fault(self.index_kinds@.take(i as int), rule) is None,
                identifier_fault("field"@, self.name@) is None,
                field_type_fault(self.field_type) is None,
                self.stored || self.index_kinds@.len() > 0,
            decreases n - i,
        {
            let index_kind = self.index_kinds[i];
            proof {
                lemma_first_fault_step(self.index_kinds@, rule, i as int);
                assert(self.index_kinds@.take(i as int).len() == i);
            }
            let mut j: usize = 0;
            let mut seen = false;
            while j < i
                invariant
                    i < n == self.index_kinds.len(),
                    j <= i,
                    index_kind == self.index_kinds@[i as int],
                    seen <==> exists|m: int| 0 <= m < j && self.index_kinds@[m] == index_kind,
                decreases i - j,
            {
                if self.index_kinds[j] == index_kind {
                    seen = true;
                }
                j = j + 1;
            }
            proof {
                let e = self.index_kinds@.take(i as int);
                if seen {
                    let m = choose|m: int| 0 <= m < i && self.index_kinds@[m] == index_kind;
                    assert(e[m] == index_kind);
                    assert(e.contains(index_kind));
                } else {
                    assert forall|m: int| 0 <= m < e.len() implies e[m] != index_kind by {
                        assert(e[m] == self.index_kinds@[m]);
                    }
                    assert(!e.contains(index_kind));
                }
            }
            if seen {
                let mut message = String::from_str("field '");
                message.append(self.name.as_str());
                message.append("' declares duplicate index kind ");
                message.append(index_kind.text());
                proof {
                    lemma_first_fault_extends(self.index_kinds@, rule, i + 1);
                }
                return Err(codec_error(message));
            }
            if !self.field_type.supports_index(&index_kind) {
                let mut message = String::from_str("field '");
                message.append(self.name.as_str());
                message.append("' with type ");
                message.append(self.field_type.text().as_str());
                message.append(" does not support index kind ");
                message.append(index_kind.text());
                proof {
                    lemma_first_fault_extends(self.index_kinds@, rule, i + 1);
                }
                return Err(codec_error(message));
            }
            i = i + 1;
        }
        proof {
            lemma_first_fault_all(self.index_kinds@, rule);
        }
        Ok(())
    }
}


// ---------------------------------------------------------------------------
// Schemas and namespaces
// ---------------------------------------------------------------------------

/// The fault of field `f` of a schema, given the fields before it: the
/// field's own fault, then an ID or a name that an earlier field has.
pub open spec fn schema_entry_fault(earlier: Seq<FieldMetadata>, f: FieldMetadata) -> Option<Seq<char>> {
    first_of(
        field_fault(f),
        if exists|j: int| 0 <= j < earlier.len() && (#[trigger] earlier[j]).field_id == f.field_id {
            Some("schema contains duplicate field id "@ + decimal(f.field_id as nat))
        } else if exists|j: int| 0 <= j < earlier.len() && (#[trigger] earlier[j]).name@ == f.name@ {
            Some("schema contains duplicate field name '"@ + f.name@ + "'"@)
        } else {
            None
        },
    )
}

/// The rule for the fields of a schema.
pub open spec fn schema_entry_rule() -> spec_fn(Seq<FieldMetadata>, FieldMetadata) -> Option<Seq<char>> {
    |earlier: Seq<FieldMetadata>, f: FieldMetadata| schema_entry_fault(earlier, f)
}

/// The fault of a schema: version zero, no fields, its fingerprint, then its
/// fields in order.
pub open spec fn schema_fault(s: SchemaMetadata) -> Option<Seq<char>> {
    if s.version == 0 {
        Some("schema version must be greater than zero"@)
    } else if s.fields@.len() == 0 {
        Some("schema must define at least one field"@)
    } else {
        first_of(fingerprint_fault(s.fingerprint.0@), first_fault(s.fields@, schema_entry_rule()))
    }
}

/// The fault of a namespace: its name, then its schema.
pub open spec fn namespace_fault(n: NamespaceMetadata) -> Option<Seq<char>> {
    first_of(identifier_fault("namespace"@, n.name@), schema_fault(n.schema))
}

/// Whether one of the first `upto` fields has the ID `id`.
fn has_field_id_before(fields: &Vec<FieldMetadata>, upto: usize, id: u32) -> (r: bool)
    requires
        upto <= fields.len(),
    ensures
        r == exists|j: int| 0 <= j < upto && (#[trigger] fields@[j]).field_id == id,
{
    let mut j: usize = 0;
    while j < upto
        invariant
            upto <= fields.len(),
            j <= upto,
            forall|m: int| 0 <= m < j ==> (#[trigger] fields@[m]).field_id != id,
        decreases upto - j,
    {
        if fields[j].field_id == id {
            return true;
        }
        j = j + 1;
    }
    false
}

/// Whether one of the first `upto` fields has the name `name`.
fn has_field_name_before(fields: &Vec<FieldMetadata>, upto: usize, name: &String) -> (r: bool)
    requires
        upto <= fields.len(),
    ensures
        r == exists|j: int| 0 <= j < upto && (#[trigger] fields@[j]).name@ == name@,
{
    let mut j: usize = 0;
    while j < upto
        invariant
            upto <= fields.len(),
            j <= upto,
            forall|m: int| 0 <= m < j ==> (#[trigger] fields@[m]).name@ != name@,
        decreases upto - j,
    {
        if fields[j].name == *name {
            return true;
        }
        j = j + 1;
    }
    false
}

impl SchemaMetadata {
    /// Checks the schema: a positive version, at least one field, a valid
    /// fingerprint, and fields that are each valid, with IDs and names that
    /// no two fields share.
    pub fn validate(&self) -> (r: Result<(), AetherError>)
        ensures
            reports(r, schema_fault(*self)),
    {
        if self.version == 0 {
            return Err(codec_error(String::from_str("schema version must be greater than zero")));
        }
        if self.fields.len() == 0 {
            return Err(codec_error(String::from_str("schema must define at least one field")));
        }
        self.fingerprint.validate()?;

        let ghost rule = schema_entry_rule();
        let n = self.fields.len();
        let mut i: usize = 0;
        while i < n
            invariant
                n == self.fields.len(),
                i <= n,
                rule == schema_entry_rule(),
                first_fault(self.fields@.take(i as int), rule) is None,
                self.version != 0,
                self.fields@.len() != 0,
                fingerprint_fault(self.fingerprint.0@) is None,
            decreases n - i,
        {
            let field = &self.fields[i];
            let ghost earlier = self.fields@.take(i as int);
            proof {
                lemma_first_fault_step(self.fields@, rule, i as int);
                assert forall|j: int| 0 <= j < i implies #[trigger] earlier[j] == self.fields@[j] by {}
            }
            match field.validate() {
                Ok(()) => {},
                Err(e) => {
                    proof {
                        lemma_first_fault_extends(self.fields@, rule, i + 1);
                    }
                    return Err(e);
                },
            }
            if has_field_id_before(&self.fields, i, field.field_id) {
                let mut message = String::from_str("schema contains duplicate field id ");
                message.append(decimal_string(field.field_id as u64).as_str());
                proof {
                    let j = choose|j: int| 0 <= j < i && (#[trigger] self.fields@[j]).field_id == field.field_id;
                    assert(earlier[j].field_id == field.field_id);
                    lemma_first_fault_extends(self.fields@, rule, i + 1);
                }
                return Err(codec_error(message));
            }
            proof {
                assert forall|j: int| 0 <= j < earlier.len() implies (#[trigger] earlier[j]).field_id != field.field_id by {
                    assert(self.fields@[j].field_id != field.field_id);
                }
            }
            if has_field_name_before(&self.fields, i, &field.name) {
                let mut message = String::from_str("schema contains duplicate field name '");
                message.append(field.name.as_str());
                message.append("'");
                proof {
                    let j = choose|j: int| 0 <= j < i && (#[trigger] self.fields@[j]).name@ == field.name@;
                    assert(earlier[j].name@ == field.name@);
                    lemma_first_fault_extends(self.fields@, rule, i + 1);
                }
                return Err(codec_error(message));
            }
            proof {
                assert forall|j: int| 0 <= j < earlier.len() implies (#[trigger] earlier[j]).name@ != field.name@ by {
                    assert(self.fields@[j].name@ != field.name@);
                }
            }
            i = i + 1;
        }
        proof {
            lemma_first_fault_all(self.fields@, rule);
        }
        Ok(())
    }
}

impl NamespaceMetadata {
    /// Checks the namespace name, then the schema.
    pub fn validate(&self) -> (r: Result<(), AetherError>)
        ensures
            reports(r, namespace_fault(*self)),
    {
        validate_identifier("namespace", self.name.as_str())?;
        self.schema.validate()
    }
}


// ---------------------------------------------------------------------------
// Segments
// ---------------------------------------------------------------------------

/// The fault of the min/max pair of the statistics of field `id`: one bound
/// without the other, bounds of different kinds, or a minimum above the
/// maximum.
pub open spec fn bounds_fault(id: u32, min_value: Option<FieldValue>, max_value: Option<FieldValue>) -> Option<Seq<char>> {
    match (min_value, max_value) {
        (Some(lo), Some(hi)) => if !same_variant_spec(lo, hi) {
            Some("field "@ + decimal(id as nat) + " min and max value types do not match"@)
        } else if value_greater(lo, hi) {
            Some("field "@ + decimal(id as nat) + " min value exceeds max value"@)
        } else {
            None
        },
        (None, None) => None,
        _ => Some("field "@ + decimal(id as nat) + " must define both min and max values together"@),
    }
}

/// The fault of the statistics of field `id`, which has `non_null` non-null
/// values in a segment of `rows` rows.
pub open spec fn statistics_fault(st: FieldStatistics, id: u32, non_null: u64, rows: u64) -> Option<Seq<char>> {
    if st.null_count > rows {
        Some("field "@ + decimal(id as nat) + " null count "@ + decimal(st.null_count as nat)
            + " exceeds segment row count "@ + decimal(rows as nat))
    } else if st.null_count + non_null > rows {
        Some("field "@ + decimal(id as nat) + " null count "@ + decimal(st.null_count as nat)
            + " plus non-null count "@ + decimal(non_null as nat) + " exceeds segment row count "@
            + decimal(rows as nat))
    } else if st.distinct_count is Some && st.distinct_count->0 > non_null {
        Some("field "@ + decimal(id as nat) + " distinct count "@ + decimal(st.distinct_count->0 as nat)
            + " exceeds non-null count "@ + decimal(non_null as nat))
    } else {
        bounds_fault(id, st.min_value, st.max_value)
    }
}

/// The fault of the metadata of one field of a segment of `rows` rows.
pub open spec fn segment_field_fault(f: SegmentFieldMetadata, rows: u64) -> Option<Seq<char>> {
    if f.bytes_on_disk == 0 {
        Some("segment field "@ + decimal(f.field_id as nat) + " must occupy at least one byte on disk"@)
    } else if f.non_null_value_count > rows {
        Some("segment field "@ + decimal(f.field_id as nat) + " has non-null count "@
            + decimal(f.non_null_value_count as nat) + " above row count "@ + decimal(rows as nat))
    } else {
        match f.statistics {
            Some(st) => statistics_fault(st, f.field_id, f.non_null_value_count, rows),
            None => None,
        }
    }
}

/// The fault of field `f` of a segment of `rows` rows, given the fields
/// before it: the field's own fault, then an ID or a column ordinal that an
/// earlier field has.
pub open spec fn segment_entry_fault(rows: u64, earlier: Seq<SegmentFieldMetadata>, f: SegmentFieldMetadata) -> Option<Seq<char>> {
    first_of(
        segment_field_fault(f, rows),
        if exists|j: int| 0 <= j < earlier.len() && (#[trigger] earlier[j]).field_id == f.field_id {
            Some("segment contains duplicate field id "@ + decimal(f.field_id as nat))
        } else if exists|j: int| 0 <= j < earlier.len() && (#[trigger] earlier[j]).column_ordinal == f.column_ordinal {
            Some("segment contains duplicate column ordinal "@ + decimal(f.column_ordinal as nat))
        } else {
            None
        },
    )
}

/// The rule for the fields of a segment of `rows` rows.
pub open spec fn segment_entry_rule(rows: u64) -> spec_fn(Seq<SegmentFieldMetadata>, SegmentFieldMetadata) -> Option<Seq<char>> {
    |earlier: Seq<SegmentFieldMetadata>, f: SegmentFieldMetadata| segment_entry_fault(rows, earlier, f)
}

/// The fault of a segment descriptor: its namespace, its fingerprint, a
/// blank object key, no rows, no bytes, then its fields in order.
pub open spec fn segment_fault(s: SegmentMetadata) -> Option<Seq<char>> {
    first_of(
        identifier_fault("namespace"@, s.namespace@),
        first_of(
            fingerprint_fault(s.schema_fingerprint.0@),
            if trimmed(s.object_store_key@).len() == 0 {
                Some("segment object storage key must not be empty"@)
            } else if s.row_count == 0 {
                Some("segment row count must be greater than zero"@)
            } else if s.size_bytes == 0 {
                Some("segment size must be greater than zero"@)
            } else {
                first_fault(s.fields@, segment_entry_rule(s.row_count))
            },
        ),
    )
}

impl FieldStatistics {
    /// Checks the statistics of field `field_id`, which has
    /// `non_null_value_count` non-null values in a segment of `row_count`
    /// rows.
    fn validate(&self, field_id: u32, non_null_value_count: u64, row_count: u64) -> (r: Result<(), AetherError>)
        ensures
            reports(r, statistics_fault(*self, field_id, non_null_value_count, row_count)),
    {
        if self.null_count > row_count {
            let mut message = String::from_str("field ");
            message.append(decimal_string(field_id as u64).as_str());
            message.append(" null count ");
            message.append(decimal_string(self.null_count).as_str());
            message.append(" exceeds segment row count ");
            message.append(decimal_string(row_count).as_str());
            return Err(codec_error(message));
        }
        if self.null_count as u128 + non_null_value_count as u128 > row_count as u128 {
            let mut message = String::from_str("field ");
            message.append(decimal_string(field_id as u64).as_str());
            message.append(" null count ");
            message.append(decimal_string(self.null_count).as_str());
            message.append(" plus non-null count ");
            message.append(decimal_string(non_null_value_count).as_str());
            message.append(" exceeds segment row count ");
            message.append(decimal_string(row_count).as_str());
            return Err(codec_error(message));
        }
        if let Some(distinct_count) = self.distinct_count {
            if distinct_count > non_null_value_count {
                let mut message = String::from_str("field ");
                message.append(decimal_string(field_id as u64).as_str());
                message.append(" distinct count ");
                message.append(decimal_string(distinct_count).as_str());
                message.append(" exceeds non-null count ");
                message.append(decimal_string(non_null_value_count).as_str());
                return Err(codec_error(message));
            }
        }
        match (&self.min_value, &self.max_value) {
            (Some(min_value), Some(max_value)) => {
                if !min_value.same_variant(max_value) {
                    let mut message = String::from_str("field ");
                    message.append(decimal_string(field_id as u64).as_str());
                    message.append(" min and max value types do not match");
                    return Err(codec_error(message));
                }
                if min_value.greater_than(max_value) {
                    let mut message = String::from_str("field ");
                    message.append(decimal_string(field_id as u64).as_str());
                    message.append(" min value exceeds max value");
                    return Err(codec_error(message));
                }
            },
            (None, None) => {},
            _ => {
                let mut message = String::from_str("field ");
                message.append(decimal_string(field_id as u64).as_str());
                message.append(" must define both min and max values together");
                return Err(codec_error(message));
            },
        }
        Ok(())
    }
}

impl SegmentFieldMetadata {
    /// Checks the metadata of one field of a segment of `row_count` rows.
    fn validate(&self, row_count: u64) -> (r: Result<(), AetherError>)
        ensures
            reports(r, segment_field_fault(*self, row_count)),
    {
        if self.bytes_on_disk == 0 {
            let mut message = String::from_str("segment field ");
            message.append(decimal_string(self.field_id as u64).as_str());
            message.append(" must occupy at least one byte on disk");
            return Err(codec_error(message));
        }
        if self.non_null_value_count > row_count {
            let mut message = String::from_str("segment field ");
            message.append(decimal_string(self.field_id as u64).as_str());
            message.append(" has non-null count ");
            message.append(decimal_string(self.non_null_value_count).as_str());
            message.append(" above row count ");
            message.append(decimal_string(row_count).as_str());
            return Err(codec_error(message));
        }
        if let Some(statistics) = &self.statistics {
            statistics.validate(self.field_id, self.non_null_value_count, row_count)?;
        }
        Ok(())
    }
}

/// Whether one of the first `upto` segment fields has the ID `id`.
fn has_segment_field_id_before(fields: &Vec<SegmentFieldMetadata>, upto: usize, id: u32) -> (r: bool)
    requires
        upto <= fields.len(),
    ensures
        r == exists|j: int| 0 <= j < upto && (#[trigger] fields@[j]).field_id == id,
{
    let mut j: usize = 0;
    while j < upto
        invariant
            upto <= fields.len(),
            j <= upto,
            forall|m: int| 0 <= m < j ==> (#[trigger] fields@[m]).field_id != id,
        decreases upto - j,
    {
        if fields[j].field_id == id {
            return true;
        }
        j = j + 1;
    }
    false
}

/// Whether one of the first `upto` segment fields has the column ordinal
/// `ordinal`.
fn has_column_ordinal_before(fields: &Vec<SegmentFieldMetadata>, upto: usize, ordinal: u32) -> (r: bool)
    requires
        upto <= fields.len(),
    ensures
        r == exists|j: int| 0 <= j < upto && (#[trigger] fields@[j]).column_ordinal == ordinal,
{
    let mut j: usize = 0;
    while j < upto
        invariant
            upto <= fields.len(),
            j <= upto,
            forall|m: int| 0 <= m < j ==> (#[trigger] fields@[m]).column_ordinal != ordinal,
        decreases upto - j,
    {
        if fields[j].column_ordinal == ordinal {
            return true;
        }
        j = j + 1;
    }
    false
}

impl SegmentMetadata {
    /// Checks the segment descriptor: a clean namespace, a valid fingerprint,
    /// a non-blank object key, rows and bytes, and per-field metadata that is
    /// consistent with the row count, with IDs and column ordinals that no two
    /// fields share.
    pub fn validate(&self) -> (r: Result<(), AetherError>)
        ensures
            reports(r, segment_fault(*self)),
    {
        validate_identifier("namespace", self.namespace.as_str())?;
        self.schema_fingerprint.validate()?;

        let key = chars_of(self.object_store_key.as_str());
        let (start, end) = trim_bounds(&key);
        if start == end {
            return Err(codec_error(String::from_str("segment object storage key must not be empty")));
        }
        if self.row_count == 0 {
            return Err(codec_error(String::from_str("segment row count must be greater than zero")));
        }
        if self.size_bytes == 0 {
            return Err(codec_error(String::from_str("segment size must be greater than zero")));
        }

        let ghost rule = segment_entry_rule(self.row_count);
        let n = self.fields.len();
        let mut i: usize = 0;
        while i < n
            invariant
                n == self.fields.len(),
                i <= n,
                rule == segment_entry_rule(self.row_count),
                first_fault(self.fields@.take(i as int), rule) is None,
                identifier_fault("namespace"@, self.namespace@) is None,
                fingerprint_fault(self.schema_fingerprint.0@) is None,
                trimmed(self.object_store_key@).len() != 0,
                self.row_count != 0,
                self.size_bytes != 0,
            decreases n - i,
        {
            let field = &self.fields[i];
            let ghost earlier = self.fields@.take(i as int);
            proof {
                lemma_first_fault_step(self.fields@, rule, i as int);
                assert forall|j: int| 0 <= j < i implies #[trigger] earlier[j] == self.fields@[j] by {}
            }
            match field.validate(self.row_count) {
                Ok(()) => {},
                Err(e) => {
                    proof {
                        lemma_first_fault_extends(self.fields@, rule, i + 1);
                    }
                    return Err(e);
                },
            }
            if has_segment_field_id_before(&self.fields, i, field.field_id) {
                let mut message = String::from_str("segment contains duplicate field id ");
                message.append(decimal_string(field.field_id as u64).as_str());
                proof {
                    let j = choose|j: int| 0 <= j < i && (#[trigger] self.fields@[j]).field_id == field.field_id;
                    assert(earlier[j].field_id == field.field_id);
                    lemma_first_fault_extends(self.fields@, rule, i + 1);
                }
                return Err(codec_error(message));
            }
            proof {
                assert forall|j: int| 0 <= j < earlier.len() implies (#[trigger] earlier[j]).field_id != field.field_id by {
                    assert(self.fields@[j].field_id != field.field_id);
                }
            }
            if has_column_ordinal_before(&self.fields, i, field.column_ordinal) {
                let mut message = String::from_str("segment contains duplicate column ordinal ");
                message.append(decimal_string(field.column_ordinal as u64).as_str());
                proof {
                    let j = choose|j: int| 0 <= j < i && (#[trigger] self.fields@[j]).column_ordinal == field.column_ordinal;
                    assert(earlier[j].column_ordinal == field.column_ordinal);
                    lemma_first_fault_extends(self.fields@, rule, i + 1);
                }
                return Err(codec_error(message));
            }
            proof {
                assert forall|j: int| 0 <= j < earlier.len() implies (#[trigger] earlier[j]).column_ordinal != field.column_ordinal by {
                    assert(self.fields@[j].column_ordinal != field.column_ordinal);
                }
            }
            i = i + 1;
        }
        proof {
            lemma_first_fault_all(self.fields@, rule);
        }
        Ok(())
    }
}

/// Wraps a message as a codec error.
fn codec_error(message: String) -> (e: AetherError)
    ensures
        e == AetherError::Codec(message),
{
    AetherError::Codec(message)
}

} // verus!
