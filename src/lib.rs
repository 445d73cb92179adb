//! Lifecycle control of deployments: pausing, resuming, unassigning and
//! reassigning them, and restarting them as tracked background executions.

pub mod node;
pub mod store;
pub mod mutation;
pub mod laws;
