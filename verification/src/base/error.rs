//! The unified error type of AetherDB.
use vstd::prelude::*;
use vstd::string::to_string_from_display_ensures;

verus! {

/// `std::io::Error`, carried by `AetherError::Io`.
#[verifier::external_type_specification]
#[verifier::external_body]
pub struct ExIoError(std::io::Error);

/// `serde_json::Error`, carried by `AetherError::Serde`.
#[verifier::external_type_specification]
#[verifier::external_body]
pub struct ExJsonError(serde_json::Error);

/// `object_store::Error`, carried by `AetherError::ObjectStore`.
#[verifier::external_type_specification]
#[verifier::external_body]
pub struct ExObjectStoreError(object_store::Error);

/// The single error type used throughout AetherDB. Each variant maps to a
/// subsystem failure.
#[derive(Debug)]
pub enum AetherError {
    Codec(String),
    Storage(String),
    Catalog(String),
    Index(String),
    Query(String),
    Engine(String),
    Io(std::io::Error),
    Serde(serde_json::Error),
    ObjectStore(object_store::Error),
    InvalidArgument(String),
    NotFound(String),
}

/// Convenience alias: all fallible functions of the library return this.
pub type Result<T> = core::result::Result<T, AetherError>;

/// The label that the message of each variant that carries its own text
/// starts with.
pub open spec fn message_label(e: &AetherError) -> Seq<char> {
    match e {
        AetherError::Codec(_) => "codec error: "@,
        AetherError::Storage(_) => "storage error: "@,
        AetherError::Catalog(_) => "catalog error: "@,
        AetherError::Index(_) => "index error: "@,
        AetherError::Query(_) => "query error: "@,
        AetherError::Engine(_) => "engine error: "@,
        AetherError::Io(_) => "io error: "@,
        AetherError::Serde(_) => "serialization error: "@,
        AetherError::ObjectStore(_) => "object store error: "@,
        AetherError::InvalidArgument(_) => "invalid argument: "@,
        AetherError::NotFound(_) => "not found: "@,
    }
}

impl AetherError {
    /// The human-readable message of the error: its label, then the text it
    /// carries (for the variants that wrap an outside error, that error's
    /// own `Display` text).
    pub fn to_string(&self) -> (s: String)
        ensures
            s@.len() >= message_label(self).len(),
            s@.subrange(0, message_label(self).len() as int) == message_label(self),
            match self {
                AetherError::Codec(m) => s@ == message_label(self) + m@,
                AetherError::Storage(m) => s@ == message_label(self) + m@,
                AetherError::Catalog(m) => s@ == message_label(self) + m@,
                AetherError::Index(m) => s@ == message_label(self) + m@,
                AetherError::Query(m) => s@ == message_label(self) + m@,
                AetherError::Engine(m) => s@ == message_label(self) + m@,
                AetherError::InvalidArgument(m) => s@ == message_label(self) + m@,
                AetherError::NotFound(m) => s@ == message_label(self) + m@,
                AetherError::Io(e) => exists|t: String|
                    to_string_from_display_ensures::<std::io::Error>(e, t) && s@ == message_label(
                        self,
                    ) + t@,
                AetherError::Serde(e) => exists|t: String|
                    to_string_from_display_ensures::<serde_json::Error>(e, t) && s@
                        == message_label(self) + t@,
                AetherError::ObjectStore(e) => exists|t: String|
                    to_string_from_display_ensures::<object_store::Error>(e, t) && s@
                        == message_label(self) + t@,
            },
    {
        let (label, text) = match self {
            AetherError::Codec(m) => ("codec error: ", m.clone()),
            AetherError::Storage(m) => ("storage error: ", m.clone()),
            AetherError::Catalog(m) => ("catalog error: ", m.clone()),
            AetherError::Index(m) => ("index error: ", m.clone()),
            AetherError::Query(m) => ("query error: ", m.clone()),
            AetherError::Engine(m) => ("engine error: ", m.clone()),
            AetherError::Io(e) => ("io error: ", e.to_string()),
            AetherError::Serde(e) => ("serialization error: ", e.to_string()),
            AetherError::ObjectStore(e) => ("object store error: ", e.to_string()),
            AetherError::InvalidArgument(m) => ("invalid argument: ", m.clone()),
            AetherError::NotFound(m) => ("not found: ", m.clone()),
        };
        let mut s = String::from_str(label);
        s.append(text.as_str());
        s
    }
}

} // verus!
