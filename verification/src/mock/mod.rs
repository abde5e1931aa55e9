//! Providers that keep resources in a file or in memory and call no cloud.

pub mod http;
pub mod http_laws;
pub mod process;
pub mod process_laws;
pub mod store;
pub mod store_laws;
