pub mod logs;
pub mod metrics;
pub mod traces;
