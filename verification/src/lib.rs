//! Verified core of the scalar consensus bridge and its local test cluster.
pub mod builder;
pub mod channel;
pub mod cluster;
pub mod cluster_config;
pub mod consensus_client;
pub mod consensus_output;
pub mod consensus_service;
pub mod node;
pub mod text;
pub mod validator;
