//! The schemas of the resource types of the provider.

pub mod agreement;
pub mod bucket;
pub mod check_laws;
pub mod egress_only_internet_gateway;
pub mod eip;
pub mod flow_log;
pub mod forms;
pub mod iam_role;
pub mod ipam;
pub mod log_group;
pub mod naming;
pub mod nat_gateway;
pub mod registry;
pub mod registry_laws;
pub mod security_group;
pub mod security_group_egress;
pub mod sts_caller_identity;
pub mod subnet;
pub mod transit_gateway;
pub mod types;
pub mod values;
pub mod vpc;
pub mod vpc_endpoint;
pub mod vpc_peering_connection;
pub mod vpn_gateway;
