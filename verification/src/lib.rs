//! Schemas, value conversion and code generation for the AWS Cloud Control
//! provider, with the mock provider and the wire protocol beside it.

pub mod codegen;
pub mod factory;
pub mod json;
pub mod json_laws;
pub mod enum_laws;
pub mod enums;
pub mod keyed;
pub mod mock;
pub mod protocol;
pub mod provider;
pub mod resource;
pub mod schema;
pub mod schema_laws;
pub mod schemas;
pub mod text;
pub mod text_laws;
pub mod value;
pub mod value_laws;
