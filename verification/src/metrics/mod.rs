//! Metrics of the client: where they are kept, and how they are reported.

pub mod batch;
pub mod heartbeat;
pub mod laws;
pub mod name;
pub mod pushgateway;
pub mod registry;
pub mod reporter;
pub mod task;

pub use heartbeat::{resolve_app_id, HeartbeatTask};
pub use registry::{counter, gauge, Counter, Gauge};
pub use reporter::ClientMetricsReporter;
