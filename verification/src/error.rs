//! The error-normalization layer: the closed set of failure categories the
//! host can observe, and the exhaustive mapping from internal failure kinds
//! to host-visible error types.
//!
//! The schema compiler's diagnostics, the execution service's errors and the
//! connector's errors are collaborator data: the engine carries what it
//! reads of them — their messages and, for a connector failure, the optional
//! structured user-facing payload.

use vstd::prelude::*;

use crate::text::{join_lines, spec_decimal, spec_joined_lines, usize_to_string};

verus! {

/// The diagnostics a failed schema compilation reports: one message per
/// error, in the order the compiler produced them.
#[derive(Debug)]
pub struct Diagnostics {
    pub errors: Vec<String>,
}

/// A failure surfaced by the external query-execution service. The engine
/// reads one thing of it: whether it is a configuration-level problem, whose
/// message is then reported under the configuration category.
#[derive(Debug)]
pub enum CoreError {
    ConfigurationError(String),
    Other(String),
}

/// A failure surfaced by the underlying data-source connector, optionally
/// carrying a structured user-facing error payload, already serialized.
#[derive(Debug)]
pub struct ConnectorError {
    pub user_facing_error: Option<String>,
    pub message: String,
}

/// A rendezvous failure of the blocking bridge.
#[derive(Debug, PartialEq, Eq, Structural, Clone, Copy)]
pub enum ChannelError {
    /// The one-shot channel yielded nothing within the allowed time.
    Timeout,
    /// The task terminated without sending.
    Disconnected,
}

/// The closed taxonomy of failures the engine reports.
#[derive(Debug)]
pub enum ApiError {
    /// Invalid schema text or unresolved datasource URL: the compiler's
    /// diagnostics together with the original schema text.
    Conversion(Diagnostics, String),
    /// A configuration-level problem, such as zero or several datasources.
    Configuration(String),
    /// A failure surfaced by the external query-execution service.
    Core(CoreError),
    /// A failure surfaced by the data-source connector.
    Connector(ConnectorError),
    /// An attempt to connect an engine that is already connected.
    AlreadyConnected,
    /// An attempt to use an engine that is not connected.
    NotConnected,
    /// A blocking-bridge rendezvous failure.
    CrossbeamError(ChannelError),
    /// Malformed request text.
    JsonDecode(String),
}

/// A failure of either external collaborator during `connect` or `query`.
#[derive(Debug)]
pub enum ServiceFailure {
    Core(CoreError),
    Connector(ConnectorError),
}

impl ApiError {
    /// Wraps compiler diagnostics together with the original schema text.
    pub fn conversion(diagnostics: Diagnostics, dml: &str) -> (r: Self)
        ensures
            r matches ApiError::Conversion(d, raw) && d == diagnostics && raw@ == dml@,
    {
        ApiError::Conversion(diagnostics, dml.to_owned())
    }

    /// Wraps a configuration-level message.
    pub fn configuration(msg: &str) -> (r: Self)
        ensures
            r matches ApiError::Configuration(m) && m@ == msg@,
    {
        ApiError::Configuration(msg.to_owned())
    }
}

/// How a service failure is classified: a configuration-level core error is
/// reported under the configuration category, any other core error under the
/// execution-service category, and a connector error under its own.
pub open spec fn spec_api_from_core(e: CoreError) -> ApiError {
    match e {
        CoreError::ConfigurationError(message) => ApiError::Configuration(message),
        CoreError::Other(m) => ApiError::Core(CoreError::Other(m)),
    }
}

impl From<CoreError> for ApiError {
    fn from(e: CoreError) -> (r: Self) {
        match e {
            CoreError::ConfigurationError(message) => ApiError::Configuration(message),
            core_error => ApiError::Core(core_error),
        }
    }
}

impl vstd::std_specs::convert::FromSpecImpl<CoreError> for ApiError {
    open spec fn obeys_from_spec() -> bool {
        true
    }

    open spec fn from_spec(e: CoreError) -> Self {
        spec_api_from_core(e)
    }
}

impl From<ConnectorError> for ApiError {
    fn from(e: ConnectorError) -> (r: Self) {
        ApiError::Connector(e)
    }
}

impl vstd::std_specs::convert::FromSpecImpl<ConnectorError> for ApiError {
    open spec fn obeys_from_spec() -> bool {
        true
    }

    open spec fn from_spec(e: ConnectorError) -> Self {
        ApiError::Connector(e)
    }
}

/// The category of an external-service failure.
pub open spec fn spec_api_from_service(f: ServiceFailure) -> ApiError {
    match f {
        ServiceFailure::Core(e) => spec_api_from_core(e),
        ServiceFailure::Connector(e) => ApiError::Connector(e),
    }
}

/// Classifies an external-service failure into the reported taxonomy.
pub fn api_from_service(f: ServiceFailure) -> (r: ApiError)
    ensures
        r == spec_api_from_service(f),
{
    match f {
        ServiceFailure::Core(e) => ApiError::from(e),
        ServiceFailure::Connector(e) => ApiError::from(e),
    }
}

/// The one-line description of each failure category.
pub open spec fn spec_message(e: ApiError) -> Seq<char> {
    match e {
        ApiError::Conversion(d, _) => spec_joined_lines(d.errors.deep_view()),
        ApiError::Configuration(m) => m@,
        ApiError::Core(CoreError::ConfigurationError(m)) => m@,
        ApiError::Core(CoreError::Other(m)) => m@,
        ApiError::Connector(c) => c.message@,
        ApiError::AlreadyConnected => "Can't modify an already connected engine."@,
        ApiError::NotConnected => "Engine is not yet connected."@,
        ApiError::CrossbeamError(ChannelError::Timeout) => "Channel timed out"@,
        ApiError::CrossbeamError(ChannelError::Disconnected) => "Channel disconnected"@,
        ApiError::JsonDecode(m) => m@,
    }
}

impl ApiError {
    /// The one-line description of this failure.
    pub fn message(&self) -> (r: String)
        ensures
            r@ == spec_message(*self),
    {
        match self {
            ApiError::Conversion(d, _) => join_lines(&d.errors),
            ApiError::Configuration(m) => m.clone(),
            ApiError::Core(CoreError::ConfigurationError(m)) => m.clone(),
            ApiError::Core(CoreError::Other(m)) => m.clone(),
            ApiError::Connector(c) => c.message.clone(),
            ApiError::AlreadyConnected => String::from_str("Can't modify an already connected engine."),
            ApiError::NotConnected => String::from_str("Engine is not yet connected."),
            ApiError::CrossbeamError(ChannelError::Timeout) => String::from_str("Channel timed out"),
            ApiError::CrossbeamError(ChannelError::Disconnected) => String::from_str(
                "Channel disconnected",
            ),
            ApiError::JsonDecode(m) => m.clone(),
        }
    }
}

/// The host-visible error types, one per reported category, so that a host
/// can discriminate a bad schema from a configuration problem, a failure of
/// the execution service from one of the connector, and a state error from
/// a rendezvous or decoding failure.
#[derive(Debug, PartialEq, Eq, Structural, Clone, Copy)]
pub enum HostErrorKind {
    SchemaCompilationError,
    ConfigurationError,
    ExecutionServiceError,
    ConnectorError,
    AlreadyConnectedError,
    NotConnectedError,
    CrossbeamError,
    JsonError,
}

/// The full text reported for failed schema compilation: the diagnostics'
/// messages followed by the count of validation errors. The schema text
/// itself stays attached to the error value; rendering the messages with
/// source context is the compiler's own pretty-printer, which is not part
/// of this library.
pub open spec fn spec_full_conversion_error(d: Diagnostics) -> Seq<char> {
    spec_joined_lines(d.errors.deep_view()) + "\nValidation Error Count: "@ + spec_decimal(
        d.errors.len() as int,
    )
}

/// Renders the full compilation-failure report.
pub fn full_conversion_error(d: &Diagnostics) -> (r: String)
    ensures
        r@ =~= spec_full_conversion_error(*d),
{
    let mut r = join_lines(&d.errors);
    r.append("\nValidation Error Count: ");
    let count = usize_to_string(d.errors.len());
    r.append(count.as_str());
    r
}

/// The host-visible error type of each failure category: distinct kinds
/// for distinct categories, with nothing collapsed.
pub open spec fn spec_host_error_kind(e: ApiError) -> HostErrorKind {
    match e {
        ApiError::Conversion(_, _) => HostErrorKind::SchemaCompilationError,
        ApiError::Configuration(_) => HostErrorKind::ConfigurationError,
        ApiError::Core(_) => HostErrorKind::ExecutionServiceError,
        ApiError::Connector(_) => HostErrorKind::ConnectorError,
        ApiError::AlreadyConnected => HostErrorKind::AlreadyConnectedError,
        ApiError::NotConnected => HostErrorKind::NotConnectedError,
        ApiError::CrossbeamError(_) => HostErrorKind::CrossbeamError,
        ApiError::JsonDecode(_) => HostErrorKind::JsonError,
    }
}

/// The message handed to the host beside the error type: the full report for
/// a compilation failure, the connector's user-facing payload when it has
/// one, and the category's description otherwise.
pub open spec fn spec_host_error_message(e: ApiError) -> Seq<char> {
    match e {
        ApiError::Conversion(d, _) => spec_full_conversion_error(d),
        ApiError::Connector(c) => match c.user_facing_error {
            Some(payload) => payload@,
            None => "Unkown connector error"@,
        },
        _ => spec_message(e),
    }
}

/// The exhaustive mapping from the internal failure taxonomy to the
/// host-visible error type and its message. Kept exhaustive so that a new
/// internal category cannot silently fall through to a generic one.
pub fn host_error(e: &ApiError) -> (r: (HostErrorKind, String))
    ensures
        r.0 == spec_host_error_kind(*e),
        r.1@ =~= spec_host_error_message(*e),
{
    match e {
        ApiError::Conversion(d, _) => (
            HostErrorKind::SchemaCompilationError,
            full_conversion_error(d),
        ),
        ApiError::Configuration(_) => (HostErrorKind::ConfigurationError, e.message()),
        ApiError::Core(_) => (HostErrorKind::ExecutionServiceError, e.message()),
        ApiError::Connector(c) => match &c.user_facing_error {
            Some(payload) => (HostErrorKind::ConnectorError, payload.clone()),
            None => (HostErrorKind::ConnectorError, String::from_str("Unkown connector error")),
        },
        ApiError::AlreadyConnected => (HostErrorKind::AlreadyConnectedError, e.message()),
        ApiError::NotConnected => (HostErrorKind::NotConnectedError, e.message()),
        ApiError::CrossbeamError(_) => (HostErrorKind::CrossbeamError, e.message()),
        ApiError::JsonDecode(_) => (HostErrorKind::JsonError, e.message()),
    }
}

} // verus!
