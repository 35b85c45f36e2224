//! Deployment planning for an ephemeral squaring-service test network.
//!
//! The library holds the decisions of the deployment: the ordered plan of
//! contract creations, proxy bindings, upgrades and initializer calls, the
//! quorum parameters handed to the registry coordinator, the table of
//! resolved addresses, and the schedule of the background task generator.
//! A driver performs each action against a chain node and reports back what
//! the node answered.

pub mod address;
pub mod abi;
pub mod pipeline;
pub mod plan;
pub mod proxy;
pub mod quorum;
pub mod record;
pub mod reference;
pub mod task_generator;
pub mod topology;
