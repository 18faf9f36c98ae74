//! Connection lifecycle for pooling connections to a clustered key-value
//! store: how a pooled connection's manager is configured, and how the reply
//! to a liveness probe decides whether a returned connection is reused or
//! discarded.

pub mod config;
pub mod error;
pub mod manager;
pub mod node;
pub mod recycle;
pub mod reply;

pub use config::{build_outcome, Config, PoolPlan};
pub use error::{refusal_message, ConfigError, CreatePoolError, RecycleError, RecycleErrorView};
pub use manager::Manager;
pub use node::{Endpoint, EndpointView, NodeAddress, NodeAddressView};
pub use recycle::{check_probe_reply, fault_message, find_fault, Fault};
pub use reply::{Reply, ReplyView};
