mod outside;
pub mod body;
pub mod errors;
pub mod response;
pub mod version;

pub use body::{ReadBodyTransform, SerializeBodyTransform};
pub use errors::{
    check_prepared, classify_transport_error, ClientError, IsachError, MeilisearchCommunicationError,
    MeilisearchError, TransportErrorKind,
};
pub use response::{decode_meilisearch_error, meilisearch_error_from_members, parse_response};
pub use version::{qualified_version, qualified_version_of, PACKAGE_VERSION};
