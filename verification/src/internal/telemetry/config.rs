use vstd::prelude::*;

verus! {

/// The version reported with each instrumentation scope.
pub const SCOPE_VERSION: &'static str = "0.1.0";

/// The `service.name` of every exported resource.
pub const SERVICE_NAME: &'static str = "hosho-browser";

/// The `service.namespace` of every exported resource.
pub const SERVICE_NAMESPACE: &'static str = "hosho";

/// The three OTLP signals that the collector receives on separate paths.
#[derive(Clone, Copy, Debug, PartialEq, Eq, Structural)]
pub enum OtlpSignal {
    Traces,
    Logs,
    Metrics,
}

/// The collector path of a signal, as a sequence of characters.
pub open spec fn signal_path(signal: OtlpSignal) -> Seq<char> {
    match signal {
        OtlpSignal::Traces => "/v1/traces"@,
        OtlpSignal::Logs => "/v1/logs"@,
        OtlpSignal::Metrics => "/v1/metrics"@,
    }
}

impl OtlpSignal {
    /// The HTTP path under which the collector accepts this signal.
    pub fn path(self) -> (path: &'static str)
        ensures
            path@ == signal_path(self),
    {
        match self {
            OtlpSignal::Traces => "/v1/traces",
            OtlpSignal::Logs => "/v1/logs",
            OtlpSignal::Metrics => "/v1/metrics",
        }
    }
}

} // verus!
