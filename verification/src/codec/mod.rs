//! Segment metadata: the object model and the rules it must meet.
pub mod laws;
pub mod metadata;
pub mod rules;
pub mod value_laws;
pub mod values;

pub use metadata::{
    FieldIndexKind, FieldMetadata, FieldStatistics, FieldType, NamespaceMetadata,
    SchemaFingerprint, SchemaMetadata, SegmentFieldMetadata, SegmentMetadata, Timestamp,
    VectorDistanceMetric,
};
pub use values::FieldValue;
