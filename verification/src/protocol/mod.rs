//! What a host and a provider say to each other.
use vstd::prelude::*;

pub mod exchange;
pub mod fields;
pub mod jsonrpc;
pub mod member_laws;
pub mod methods;
pub mod reading_laws;
pub mod records;
pub mod resource_schema;
pub mod schema;
pub mod schema_member_laws;
pub mod transform;
pub mod types;
pub mod value;
pub mod wire;

verus! {

/// The version of the protocol. It grows with every change that a host or a
/// provider of an earlier version would not understand.
pub const PROTOCOL_VERSION: u32 = 1;

} // verus!
