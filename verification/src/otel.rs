//! The process-wide trace-context propagator: installed at most once, when
//! telemetry is first enabled, and read by every later trace-context
//! extraction. Both operations go through the `opentelemetry` crate.

use vstd::prelude::*;

verus! {

#[verifier::external_type_specification]
#[verifier::external_body]
pub struct ExContext(opentelemetry::Context);

/// Relies on opentelemetry::global::set_text_map_propagator: installs the
/// W3C trace-context propagator as the process-wide propagator.
#[verifier::external_body]
pub(crate) fn install_trace_propagator() {
    opentelemetry::global::set_text_map_propagator(
        opentelemetry::sdk::propagation::TraceContextPropagator::new(),
    );
}

/// Relies on opentelemetry::global::get_text_map_propagator and
/// TextMapPropagator::extract: reads a remote trace context out of the
/// carrier pairs with the process-wide propagator. The result depends on
/// which propagator is installed, so nothing is promised of it.
#[verifier::external_body]
pub(crate) fn extract_remote_context(trace: &Vec<(String, String)>) -> (r: opentelemetry::Context) {
    let carrier: std::collections::HashMap<String, String> = trace.iter().cloned().collect();
    opentelemetry::global::get_text_map_propagator(|p| p.extract(&carrier))
}

} // verus!
