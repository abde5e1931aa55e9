//! Generation of schema code and reference pages from CloudFormation
//! resource schemas.

pub mod casing;
pub mod described_laws;
pub mod enums;
pub mod model;
pub mod module;
pub mod module_laws;
pub mod name_laws;
pub mod names;
pub mod page;
pub mod page_laws;
pub mod table_laws;
pub mod tables;
pub mod type_laws;
pub mod types;
