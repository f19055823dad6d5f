pub mod capture;
pub mod console;
pub mod har;
pub mod metrics;
pub mod network;
pub mod telemetry;
pub mod timing;
