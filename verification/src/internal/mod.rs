pub mod error;
pub mod exporter;
pub mod metrics;
pub mod normalize;
pub mod specs;
pub mod telemetry;
