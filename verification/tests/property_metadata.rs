use aetherdb::codec::{
    FieldStatistics, FieldValue, SchemaFingerprint, SegmentFieldMetadata, SegmentMetadata, Timestamp,
};
use uuid::Uuid;

fn sample_segment() -> SegmentMetadata {
    SegmentMetadata {
        segment_id: Uuid::from_u128(0x22222222222222222222222222222222),
        namespace: String::from("docs"),
        schema_id: Uuid::from_u128(0x11111111111111111111111111111111),
        schema_fingerprint: SchemaFingerprint(String::from("schema_docs_v1")),
        object_store_key: String::from("segments/docs/2026/03/14/segment-000001.seg"),
        created_at: Timestamp { unix_seconds: 1_773_489_900, subsec_nanos: 0 },
        row_count: 3,
        size_bytes: 4_096,
        fields: vec![
            SegmentFieldMetadata {
                field_id: 1,
                column_ordinal: 0,
                bytes_on_disk: 1_024,
                non_null_value_count: 3,
                statistics: None,
            },
            SegmentFieldMetadata {
                field_id: 2,
                column_ordinal: 1,
                bytes_on_disk: 512,
                non_null_value_count: 3,
                statistics: Some(FieldStatistics {
                    null_count: 0,
                    distinct_count: Some(3),
                    min_value: Some(FieldValue::TimestampMicros { value: 10 }),
                    max_value: Some(FieldValue::TimestampMicros { value: 30 }),
                }),
            },
            SegmentFieldMetadata {
                field_id: 3,
                column_ordinal: 2,
                bytes_on_disk: 256,
                non_null_value_count: 2,
                statistics: Some(FieldStatistics {
                    null_count: 1,
                    distinct_count: Some(2),
                    min_value: Some(FieldValue::Keyword { value: String::from("guide") }),
                    max_value: Some(FieldValue::Keyword { value: String::from("reference") }),
                }),
            },
        ],
    }
}

#[test]
fn field_statistics_reject_null_counts_above_row_count() {
    for row_count in [1_u64, 2, 3, 17, 9_999] {
        for overflow in [1_u64, 2, 999] {
            for non_null_value_count in [0_u64, 1, 5_000, 9_999] {
                let statistics = FieldStatistics {
                    null_count: row_count.saturating_add(overflow),
                    distinct_count: None,
                    min_value: Some(FieldValue::Int64 { value: 1 }),
                    max_value: Some(FieldValue::Int64 { value: 5 }),
                };

                let mut segment = sample_segment();
                segment.row_count = row_count;
                segment.fields[1].non_null_value_count = non_null_value_count.min(row_count);
                segment.fields[1].statistics = Some(statistics);

                assert!(segment.validate().is_err());
            }
        }
    }
}

#[test]
fn valid_sample_segment_validates_for_any_key_suffix() {
    for suffix in ["a", "z9", "segment_000001", "abcdefghijkl", "0", "__"] {
        let mut segment = sample_segment();
        segment.object_store_key = format!("segments/docs/{suffix}.seg");
        assert!(segment.validate().is_ok());
        assert_eq!(segment.clone(), segment);
    }
}
