//! Schema, asset and document logic of the slowhand content server.

pub mod text;
pub mod schema;
pub mod kdl_doc;
pub mod schema_kdl;
pub mod store;
pub mod assets;
pub mod config;
pub mod schema_gql;
