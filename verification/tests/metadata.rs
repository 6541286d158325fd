use aetherdb::codec::{
    FieldIndexKind, FieldMetadata, FieldStatistics, FieldType, FieldValue, NamespaceMetadata,
    SchemaFingerprint, SchemaMetadata, SegmentFieldMetadata, SegmentMetadata, Timestamp,
    VectorDistanceMetric,
};
use aetherdb::base::AetherError;
use chrono::TimeZone;
use uuid::Uuid;

fn timestamp(y: i32, mo: u32, d: u32, h: u32, mi: u32, s: u32) -> Timestamp {
    let t = chrono::Utc
        .with_ymd_and_hms(y, mo, d, h, mi, s)
        .single()
        .expect("timestamp should be valid");
    Timestamp { unix_seconds: t.timestamp(), subsec_nanos: t.timestamp_subsec_nanos() }
}

fn sample_namespace() -> NamespaceMetadata {
    NamespaceMetadata {
        name: String::from("articles"),
        schema: SchemaMetadata {
            schema_id: Uuid::parse_str("aaaaaaaa-aaaa-aaaa-aaaa-aaaaaaaaaaaa")
                .expect("static schema UUID should parse"),
            version: 1,
            fingerprint: SchemaFingerprint(String::from("schema:6e1f2c84d18d")),
            fields: vec![
                FieldMetadata {
                    field_id: 1,
                    name: String::from("title"),
                    field_type: FieldType::Text,
                    nullable: false,
                    stored: true,
                    index_kinds: vec![FieldIndexKind::FullText],
                },
                FieldMetadata {
                    field_id: 2,
                    name: String::from("published_at"),
                    field_type: FieldType::TimestampMicros,
                    nullable: false,
                    stored: true,
                    index_kinds: vec![FieldIndexKind::Numeric],
                },
                FieldMetadata {
                    field_id: 3,
                    name: String::from("embedding"),
                    field_type: FieldType::Vector {
                        dimension: 768,
                        distance_metric: VectorDistanceMetric::Cosine,
                    },
                    nullable: false,
                    stored: false,
                    index_kinds: vec![FieldIndexKind::Vector],
                },
            ],
            created_at: timestamp(2026, 3, 14, 12, 0, 0),
        },
        created_at: timestamp(2026, 3, 14, 12, 0, 0),
    }
}

fn sample_segment(schema: &SchemaMetadata) -> SegmentMetadata {
    SegmentMetadata {
        segment_id: Uuid::parse_str("bbbbbbbb-bbbb-bbbb-bbbb-bbbbbbbbbbbb")
            .expect("static segment UUID should parse"),
        namespace: String::from("articles"),
        schema_id: schema.schema_id,
        schema_fingerprint: schema.fingerprint.clone(),
        object_store_key: String::from("namespaces/articles/segments/segment-000001.aeseg"),
        created_at: timestamp(2026, 3, 14, 12, 5, 0),
        row_count: 3,
        size_bytes: 4096,
        fields: vec![
            SegmentFieldMetadata {
                field_id: 1,
                column_ordinal: 0,
                bytes_on_disk: 256,
                non_null_value_count: 3,
                statistics: None,
            },
            SegmentFieldMetadata {
                field_id: 2,
                column_ordinal: 1,
                bytes_on_disk: 128,
                non_null_value_count: 3,
                statistics: Some(FieldStatistics {
                    null_count: 0,
                    distinct_count: Some(3),
                    min_value: Some(FieldValue::TimestampMicros { value: 10 }),
                    max_value: Some(FieldValue::TimestampMicros { value: 50 }),
                }),
            },
            SegmentFieldMetadata {
                field_id: 3,
                column_ordinal: 2,
                bytes_on_disk: 2048,
                non_null_value_count: 3,
                statistics: None,
            },
        ],
    }
}

fn codec_message(result: Result<(), AetherError>) -> String {
    match result {
        Err(AetherError::Codec(message)) => message,
        Err(other) => panic!("expected a codec error, got {:?}", other),
        Ok(()) => panic!("expected a codec error, got Ok"),
    }
}

#[test]
fn namespace_and_segment_metadata_validate_and_round_trip() {
    let namespace = sample_namespace();
    namespace.validate().expect("namespace metadata should validate");

    // The JSON encoding belongs to the serde copies of these types in the
    // binary; here the descriptors are copied and compared instead.
    let copied = namespace.clone();
    assert_eq!(copied, namespace);

    let segment = sample_segment(&namespace.schema);
    segment.validate().expect("segment metadata should validate");

    let copied = segment.clone();
    assert_eq!(copied, segment);
}

#[test]
fn schema_rejects_duplicate_field_ids() {
    let mut schema = sample_namespace().schema;
    schema.fields[1].field_id = schema.fields[0].field_id;

    let error = schema.validate().expect_err("schema should reject duplicate field ids");
    assert!(error.to_string().contains("duplicate field id"));
}

#[test]
fn field_rejects_incompatible_index_kind() {
    let field = FieldMetadata {
        field_id: 7,
        name: String::from("category"),
        field_type: FieldType::Keyword,
        nullable: false,
        stored: true,
        index_kinds: vec![FieldIndexKind::FullText],
    };

    let error = field.validate().expect_err("field should reject incompatible index kind");
    assert!(error.to_string().contains("does not support index kind"));
}

#[test]
fn segment_rejects_invalid_statistics_bounds() {
    let namespace = sample_namespace();
    let mut segment = sample_segment(&namespace.schema);
    segment.fields[0].statistics = Some(FieldStatistics {
        null_count: 0,
        distinct_count: Some(3),
        min_value: Some(FieldValue::TimestampMicros { value: 50 }),
        max_value: Some(FieldValue::TimestampMicros { value: 10 }),
    });

    let error = segment
        .validate()
        .expect_err("segment should reject inverted min/max statistics");
    assert!(error.to_string().contains("min value exceeds max value"));
}

#[test]
fn error_messages_name_the_first_broken_rule() {
    let mut schema = sample_namespace().schema;
    schema.fields[1].field_id = schema.fields[0].field_id;
    assert_eq!(codec_message(schema.validate()), "schema contains duplicate field id 1");

    let mut schema = sample_namespace().schema;
    schema.fields[2].name = String::from("title");
    assert_eq!(codec_message(schema.validate()), "schema contains duplicate field name 'title'");

    let mut schema = sample_namespace().schema;
    schema.version = 0;
    assert_eq!(codec_message(schema.validate()), "schema version must be greater than zero");

    let mut schema = sample_namespace().schema;
    schema.fields.clear();
    assert_eq!(codec_message(schema.validate()), "schema must define at least one field");

    let mut schema = sample_namespace().schema;
    schema.fingerprint = SchemaFingerprint(String::from("  \t "));
    assert_eq!(codec_message(schema.validate()), "schema fingerprint must not be empty");

    let mut schema = sample_namespace().schema;
    schema.fingerprint = SchemaFingerprint(String::from(" schema v1 "));
    assert_eq!(codec_message(schema.validate()), "schema fingerprint must not contain whitespace");

    let mut namespace = sample_namespace();
    namespace.name = String::from(" articles");
    assert_eq!(
        codec_message(namespace.validate()),
        "namespace identifier must not have leading or trailing whitespace"
    );
    namespace.name = String::new();
    assert_eq!(codec_message(namespace.validate()), "namespace identifier must not be empty");
    namespace.name = String::from("\u{3000}\u{2028}");
    assert_eq!(codec_message(namespace.validate()), "namespace identifier must not be empty");
}

#[test]
fn field_rules_report_each_fault() {
    let base = FieldMetadata {
        field_id: 9,
        name: String::from("body"),
        field_type: FieldType::Text,
        nullable: true,
        stored: true,
        index_kinds: vec![FieldIndexKind::FullText],
    };
    assert!(base.validate().is_ok());

    let mut field = base.clone();
    field.stored = false;
    field.index_kinds.clear();
    assert_eq!(codec_message(field.validate()), "field 'body' must be stored or indexed");

    let mut field = base.clone();
    field.index_kinds = vec![FieldIndexKind::FullText, FieldIndexKind::FullText];
    assert_eq!(codec_message(field.validate()), "field 'body' declares duplicate index kind FullText");

    let mut field = base.clone();
    field.field_type = FieldType::Vector { dimension: 0, distance_metric: VectorDistanceMetric::DotProduct };
    assert_eq!(codec_message(field.validate()), "vector field dimension must be greater than zero");

    let mut field = base.clone();
    field.field_type = FieldType::Vector { dimension: 768, distance_metric: VectorDistanceMetric::Euclidean };
    assert_eq!(
        codec_message(field.validate()),
        "field 'body' with type Vector { dimension: 768, distance_metric: Euclidean } does not support index kind FullText"
    );

    let mut field = base.clone();
    field.name = String::from("body\u{a0}");
    assert_eq!(
        codec_message(field.validate()),
        "field identifier must not have leading or trailing whitespace"
    );

    let mut field = base.clone();
    field.field_type = FieldType::Keyword;
    field.index_kinds = vec![FieldIndexKind::Bitmap];
    assert!(field.validate().is_ok());
    field.field_type = FieldType::Float64;
    field.index_kinds = vec![FieldIndexKind::Numeric];
    assert!(field.validate().is_ok());
    field.stored = false;
    assert!(field.validate().is_ok());
}

#[test]
fn field_type_supports_only_matching_indexes() {
    let kinds = [
        FieldIndexKind::FullText,
        FieldIndexKind::Numeric,
        FieldIndexKind::Bitmap,
        FieldIndexKind::Vector,
    ];
    let cases: Vec<(FieldType, [bool; 4])> = vec![
        (FieldType::Text, [true, false, false, false]),
        (FieldType::Keyword, [false, false, true, false]),
        (FieldType::Boolean, [false, false, true, false]),
        (FieldType::Int64, [false, true, false, false]),
        (FieldType::UInt64, [false, true, false, false]),
        (FieldType::Float64, [false, true, false, false]),
        (FieldType::TimestampMicros, [false, true, false, false]),
        (FieldType::Bytes, [false, false, false, false]),
        (FieldType::Json, [false, false, false, false]),
        (
            FieldType::Vector { dimension: 3, distance_metric: VectorDistanceMetric::Cosine },
            [false, false, false, true],
        ),
    ];
    for (field_type, expected) in cases {
        for (kind, want) in kinds.iter().zip(expected.iter()) {
            assert_eq!(field_type.supports_index(kind), *want, "{:?} / {:?}", field_type, kind);
        }
    }
}

#[test]
fn segment_rules_report_each_fault() {
    let namespace = sample_namespace();
    let base = sample_segment(&namespace.schema);

    let mut segment = base.clone();
    segment.object_store_key = String::from(" \n ");
    assert_eq!(codec_message(segment.validate()), "segment object storage key must not be empty");

    let mut segment = base.clone();
    segment.row_count = 0;
    assert_eq!(codec_message(segment.validate()), "segment row count must be greater than zero");

    let mut segment = base.clone();
    segment.size_bytes = 0;
    assert_eq!(codec_message(segment.validate()), "segment size must be greater than zero");

    let mut segment = base.clone();
    segment.fields[2].field_id = 2;
    assert_eq!(codec_message(segment.validate()), "segment contains duplicate field id 2");

    let mut segment = base.clone();
    segment.fields[2].column_ordinal = 0;
    assert_eq!(codec_message(segment.validate()), "segment contains duplicate column ordinal 0");

    let mut segment = base.clone();
    segment.fields[1].bytes_on_disk = 0;
    assert_eq!(
        codec_message(segment.validate()),
        "segment field 2 must occupy at least one byte on disk"
    );

    let mut segment = base.clone();
    segment.fields[0].non_null_value_count = 4;
    assert_eq!(
        codec_message(segment.validate()),
        "segment field 1 has non-null count 4 above row count 3"
    );

    let mut segment = base.clone();
    segment.fields[1].statistics.as_mut().unwrap().null_count = 4;
    assert_eq!(
        codec_message(segment.validate()),
        "field 2 null count 4 exceeds segment row count 3"
    );

    let mut segment = base.clone();
    segment.fields[1].statistics.as_mut().unwrap().null_count = 1;
    assert_eq!(
        codec_message(segment.validate()),
        "field 2 null count 1 plus non-null count 3 exceeds segment row count 3"
    );

    let mut segment = base.clone();
    segment.fields[1].statistics.as_mut().unwrap().distinct_count = Some(4);
    assert_eq!(
        codec_message(segment.validate()),
        "field 2 distinct count 4 exceeds non-null count 3"
    );

    let mut segment = base.clone();
    segment.fields[1].statistics.as_mut().unwrap().max_value = Some(FieldValue::Int64 { value: 50 });
    assert_eq!(
        codec_message(segment.validate()),
        "field 2 min and max value types do not match"
    );

    let mut segment = base.clone();
    segment.fields[1].statistics.as_mut().unwrap().max_value = None;
    assert_eq!(
        codec_message(segment.validate()),
        "field 2 must define both min and max values together"
    );

    let mut segment = base.clone();
    segment.namespace = String::from("articles ");
    assert_eq!(
        codec_message(segment.validate()),
        "namespace identifier must not have leading or trailing whitespace"
    );
}

#[test]
fn null_counts_near_the_integer_limit_are_compared_exactly() {
    let namespace = sample_namespace();
    let mut segment = sample_segment(&namespace.schema);
    segment.row_count = u64::MAX;
    segment.fields[1].non_null_value_count = u64::MAX;
    segment.fields[1].statistics.as_mut().unwrap().null_count = u64::MAX;
    segment.fields[1].statistics.as_mut().unwrap().distinct_count = None;
    let message = codec_message(segment.validate());
    assert!(message.contains("plus non-null count"), "{}", message);
}

fn with_bounds(min_value: FieldValue, max_value: FieldValue) -> SegmentMetadata {
    let namespace = sample_namespace();
    let mut segment = sample_segment(&namespace.schema);
    let statistics = segment.fields[1].statistics.as_mut().unwrap();
    statistics.min_value = Some(min_value);
    statistics.max_value = Some(max_value);
    segment
}

#[test]
fn statistics_bounds_follow_each_value_order() {
    let keyword = |s: &str| FieldValue::Keyword { value: String::from(s) };
    assert!(with_bounds(keyword("guide"), keyword("reference")).validate().is_ok());
    assert!(with_bounds(keyword("reference"), keyword("guide")).validate().is_err());
    assert!(with_bounds(keyword("ab"), keyword("abc")).validate().is_ok());
    assert!(with_bounds(keyword("abc"), keyword("ab")).validate().is_err());
    assert!(with_bounds(keyword("Z"), keyword("a")).validate().is_ok());
    assert!(with_bounds(keyword("\u{e9}"), keyword("z")).validate().is_err());
    assert!(with_bounds(keyword("same"), keyword("same")).validate().is_ok());

    let boolean = |b: bool| FieldValue::Boolean { value: b };
    assert!(with_bounds(boolean(false), boolean(true)).validate().is_ok());
    assert!(with_bounds(boolean(true), boolean(false)).validate().is_err());

    let int = |v: i64| FieldValue::Int64 { value: v };
    assert!(with_bounds(int(-5), int(5)).validate().is_ok());
    assert!(with_bounds(int(5), int(-5)).validate().is_err());

    let uint = |v: u64| FieldValue::UInt64 { value: v };
    assert!(with_bounds(uint(1), uint(u64::MAX)).validate().is_ok());
    assert!(with_bounds(uint(u64::MAX), uint(1)).validate().is_err());
}

#[test]
fn float_bounds_follow_ieee_comparison() {
    let float = |v: f64| FieldValue::Float64 { value_bits: v.to_bits() };
    let cases = [
        (1.0, 2.0),
        (2.0, 1.0),
        (-1.0, 1.0),
        (1.0, -1.0),
        (-2.0, -1.0),
        (-1.0, -2.0),
        (0.0, -0.0),
        (-0.0, 0.0),
        (f64::NEG_INFINITY, f64::INFINITY),
        (f64::INFINITY, f64::MAX),
        (f64::NAN, 1.0),
        (1.0, f64::NAN),
        (-f64::NAN, -1.0),
        (f64::MIN_POSITIVE, 0.0),
        (5e-324, -5e-324),
    ];
    for (lo, hi) in cases {
        let rejected = with_bounds(float(lo), float(hi)).validate().is_err();
        assert_eq!(rejected, lo > hi, "min {} max {}", lo, hi);
        assert_eq!(float(lo).greater_than(&float(hi)), lo > hi);
    }
}

#[test]
fn timestamps_and_integers_share_one_order() {
    let a = FieldValue::Int64 { value: 7 };
    let b = FieldValue::TimestampMicros { value: 3 };
    assert!(a.greater_than(&b));
    assert!(!b.greater_than(&a));
    assert!(!a.same_variant(&b));
    assert!(!FieldValue::UInt64 { value: 9 }.greater_than(&FieldValue::Int64 { value: 1 }));
}

#[test]
fn field_type_and_index_kind_texts_match_debug_output() {
    let types = vec![
        FieldType::Text,
        FieldType::Keyword,
        FieldType::Boolean,
        FieldType::Int64,
        FieldType::UInt64,
        FieldType::Float64,
        FieldType::TimestampMicros,
        FieldType::Bytes,
        FieldType::Json,
        FieldType::Vector { dimension: 1536, distance_metric: VectorDistanceMetric::DotProduct },
    ];
    for t in types {
        assert_eq!(t.text(), format!("{:?}", t));
    }
    for k in [FieldIndexKind::FullText, FieldIndexKind::Numeric, FieldIndexKind::Bitmap, FieldIndexKind::Vector] {
        assert_eq!(k.text(), format!("{:?}", k));
    }
}

#[test]
fn uuid_and_timestamps_are_carried_through_clones() {
    let namespace = sample_namespace();
    let copy = namespace.schema.clone();
    assert_eq!(copy.schema_id, namespace.schema.schema_id);
    assert_eq!(copy.created_at, timestamp(2026, 3, 14, 12, 0, 0));
    assert_eq!(copy.created_at.unix_seconds, 1_773_489_600);
}

#[test]
fn field_values_compare_floats_as_floats() {
    let float = |v: f64| FieldValue::Float64 { value_bits: v.to_bits() };
    assert_ne!(float(f64::NAN), float(f64::NAN));
    assert_eq!(float(0.0), float(-0.0));
    assert_eq!(float(1.5), float(1.5));
    assert_ne!(float(1.5), float(-1.5));
    assert_ne!(float(f64::INFINITY), float(f64::NEG_INFINITY));
    assert_ne!(FieldValue::Int64 { value: 1 }, FieldValue::TimestampMicros { value: 1 });
    assert_eq!(
        FieldValue::Keyword { value: String::from("a") },
        FieldValue::Keyword { value: String::from("a") }
    );
    assert_ne!(FieldValue::Boolean { value: true }, FieldValue::Boolean { value: false });

    let statistics = |v: f64| FieldStatistics {
        null_count: 0,
        distinct_count: None,
        min_value: Some(float(v)),
        max_value: Some(float(v)),
    };
    assert_eq!(statistics(0.0), statistics(-0.0));
    assert_ne!(statistics(f64::NAN), statistics(f64::NAN));
}
