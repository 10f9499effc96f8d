//! The engine lifecycle state machine: a builder state holding everything
//! needed to connect, a connected state owning the query-service handle, and
//! the validated transitions between them.
//!
//! Connecting and disconnecting each split in two: a first half that checks
//! the state and resolves what the external collaborator needs, and a second
//! half that commits the collaborator's outcome. The caller performs the
//! outside work between the halves, under the engine's exclusive lock, so a
//! partial failure never leaves the state ambiguous.

use vstd::prelude::*;

use crate::config::{
    spec_load_url, spec_resolve_datasources, load_url, resolve_configuration, DatasourceV,
    EngineDatamodel, ValidatedConfiguration,
};
use crate::error::{api_from_service, spec_api_from_service, ApiError, Diagnostics, ServiceFailure};
use crate::json::{decode_json_document, json_decodes};
use crate::logger::{spec_parse_level, CaptureScope, ChannelLogger, EventChannel};

verus! {

/// Telemetry configuration of a new engine. Telemetry is not exposed to the
/// construction caller in the current design: a new engine always gets the
/// plain structured sink.
pub struct TelemetryOptions {
    pub enabled: bool,
    pub endpoint: Option<String>,
}

/// The handle the external query-execution service returns when it has
/// initialized and its connectivity check has passed: the resolved database
/// name. The executor itself stays with the service.
pub struct QueryService {
    pub db_name: String,
}

/// Everything needed to connect to the database and have the core running.
pub struct EngineBuilder {
    pub datamodel: EngineDatamodel,
    pub config: ValidatedConfiguration,
    pub logger: ChannelLogger,
    pub config_dir: String,
    pub env: Vec<(String, String)>,
}

/// A connected engine: holds everything needed to disconnect and to form a
/// new connection later. Querying is allowed only in this state.
pub struct ConnectedEngine {
    pub datamodel: EngineDatamodel,
    pub query_service: QueryService,
    pub logger: ChannelLogger,
    pub config_dir: String,
    pub env: Vec<(String, String)>,
}

/// The state of the engine: exactly one of the two.
pub enum Inner {
    /// Not connected, holding all data needed to form a connection.
    Builder(EngineBuilder),
    /// Connected, owning the query-service handle.
    Connected(ConnectedEngine),
}

/// The main engine: the lifecycle state machine. The caller guards it with
/// an exclusive write lock around transitions and a shared read lock around
/// queries.
pub struct QueryEngine {
    pub inner: Inner,
}

/// What the external query-execution service needs to initialize and run
/// its connectivity check: the chosen datasource's name, its connection URL
/// resolved against the environment, and the configuration directory.
/// Rebasing a file-path URL against that directory is the connector's work
/// inside the service, so the directory is handed along unread.
pub struct ConnectParams {
    pub name: String,
    pub url: String,
    pub config_dir: String,
}

/// A query the engine has accepted for dispatch: the request body passed
/// through unmodified, the optional transaction identifier, the carrier the
/// remote trace context was extracted from, that context, and the capture
/// scope the dispatch runs under.
pub struct QueryDispatch {
    pub body: String,
    pub tx_id: Option<String>,
    pub trace: Vec<(String, String)>,
    pub context: opentelemetry::Context,
    pub scope: CaptureScope,
}

/// The message reporting a missing environment variable during URL
/// resolution.
pub open spec fn spec_missing_env_message(key: Seq<char>) -> Seq<char> {
    "Environment variable not found: "@ + key
}

fn missing_env_message(key: &str) -> (r: String)
    ensures
        r@ == spec_missing_env_message(key@),
{
    let mut r = String::from_str("Environment variable not found: ");
    r.append(key);
    r
}

/// Diagnostics with a missing-environment-variable message as their one
/// error.
fn missing_env_diagnostics(key: &str) -> (r: Diagnostics)
    ensures
        r.errors.deep_view() =~= seq![spec_missing_env_message(key@)],
{
    let mut errors: Vec<String> = Vec::new();
    errors.push(missing_env_message(key));
    Diagnostics { errors }
}

impl QueryEngine {
    /// Builds a new engine in the builder state from the schema text, the
    /// environment, and the schema compiler's outcome for that text.
    ///
    /// Compilation diagnostics are reported with the original text attached;
    /// unless environment errors are ignored, every datasource URL is
    /// resolved against the overrides and the environment, and a missing
    /// variable is reported the same way; a configuration with anything but
    /// exactly one datasource is rejected.
    pub fn new(
        env: Vec<(String, String)>,
        datamodel: String,
        log_level: String,
        log_queries: bool,
        datasource_overrides: Vec<(String, String)>,
        ignore_env_var_errors: bool,
        compiled: Result<ValidatedConfiguration, Diagnostics>,
    ) -> (r: Result<QueryEngine, ApiError>)
        ensures
            (compiled matches Err(d) ==> r == Err::<QueryEngine, ApiError>(
                ApiError::Conversion(d, datamodel),
            )),
            (compiled matches Ok(config) ==> {
                let resolved = spec_resolve_datasources(
                    config@,
                    datasource_overrides.deep_view(),
                    env.deep_view(),
                );
                &&& (!ignore_env_var_errors ==> (resolved matches Err(k) ==> (r matches Err(e)
                    && e matches ApiError::Conversion(d, raw)
                    && d.errors.deep_view() =~= seq![spec_missing_env_message(k)]
                    && raw == datamodel)))
                &&& ((ignore_env_var_errors || resolved is Ok) && config@.len() != 1 ==> (
                r matches Err(e) && e matches ApiError::Configuration(m)
                    && m@ == "Exactly one datasource must be provided"@))
                &&& ((ignore_env_var_errors || resolved is Ok) && config@.len() == 1 ==> (
                r matches Ok(engine) && engine.inner matches Inner::Builder(b)
                    && b.datamodel.raw == datamodel
                    && b.datamodel.datasource_overrides == datasource_overrides
                    && (ignore_env_var_errors ==> b.config == config)
                    && (!ignore_env_var_errors ==> resolved == Ok::<Seq<DatasourceV>, Seq<char>>(
                    b.config@,
                ))
                    && b.logger.channel == (EventChannel {
                    telemetry: false,
                    floor: spec_parse_level(log_level@),
                    log_queries,
                })
                    && b.config_dir@ == "."@
                    && b.env == env))
            }),
    {
        let config_dir = String::from_str(".");

        let telemetry = TelemetryOptions { enabled: false, endpoint: None };

        let config = match compiled {
            Ok(config) => config,
            Err(d) => {
                return Err(ApiError::Conversion(d, datamodel));
            },
        };
        let ghost original_datasources = config@;

        let config = if ignore_env_var_errors {
            config
        } else {
            match resolve_configuration(&config, &datasource_overrides, &env) {
                Ok(resolved) => resolved,
                Err(key) => {
                    return Err(ApiError::Conversion(missing_env_diagnostics(key.as_str()), datamodel));
                },
            }
        };

        proof {
            lemma_resolution_preserves_count(
                original_datasources,
                datasource_overrides.deep_view(),
                env.deep_view(),
            );
        }
        if config.datasources.len() != 1 {
            return Err(ApiError::configuration("Exactly one datasource must be provided"));
        }

        let logger = if telemetry.enabled {
            ChannelLogger::new_with_telemetry(telemetry.endpoint)
        } else {
            ChannelLogger::new(log_level.as_str(), log_queries)
        };

        let builder = EngineBuilder {
            datamodel: EngineDatamodel { raw: datamodel, datasource_overrides },
            config,
            logger,
            config_dir,
            env,
        };

        Ok(QueryEngine { inner: Inner::Builder(builder) })
    }

    /// Whether the engine is connected.
    pub fn connected(&self) -> (r: bool)
        ensures
            r == (self.inner is Connected),
    {
        match &self.inner {
            Inner::Connected(_) => true,
            Inner::Builder(_) => false,
        }
    }

    /// The stored schema text: what a disconnection recompiles and a later
    /// reconnection reuses.
    pub fn schema_raw(&self) -> (r: &String)
        ensures
            (self.inner matches Inner::Builder(b) ==> *r == b.datamodel.raw),
            (self.inner matches Inner::Connected(c) ==> *r == c.datamodel.raw),
    {
        match &self.inner {
            Inner::Builder(b) => &b.datamodel.raw,
            Inner::Connected(c) => &c.datamodel.raw,
        }
    }

    /// First half of `connect`: checks that the engine is in the builder
    /// state, picks the single datasource, resolves its connection URL
    /// against the environment, and hands the configuration directory along
    /// for the service's connector, which performs any file-path rebasing.
    /// The state is untouched; on success the caller gives the parameters
    /// to the query-execution service and commits the outcome with
    /// `connect`.
    pub fn begin_connect(&self) -> (r: Result<ConnectParams, ApiError>)
        ensures
            (self.inner is Connected ==> r == Err::<ConnectParams, ApiError>(
                ApiError::AlreadyConnected,
            )),
            (self.inner matches Inner::Builder(b) ==> {
                &&& (b.config@.len() == 0 ==> (r matches Err(e) && e matches
                    ApiError::Configuration(m) && m@ == "No valid data source found"@))
                &&& (b.config@.len() > 0 ==> match spec_load_url(
                    b.config@[0].url,
                    b.env.deep_view(),
                ) {
                    Ok(u) => r matches Ok(p) && p.name@ == b.config@[0].name && p.url@ == u
                        && p.config_dir@ == b.config_dir@,
                    Err(k) => r matches Err(e) && e matches ApiError::Conversion(d, raw)
                        && d.errors.deep_view() =~= seq![spec_missing_env_message(k)]
                        && raw@ == b.datamodel.raw@,
                })
            }),
    {
        match &self.inner {
            Inner::Connected(_) => Err(ApiError::AlreadyConnected),
            Inner::Builder(b) => {
                if b.config.datasources.len() == 0 {
                    return Err(ApiError::configuration("No valid data source found"));
                }
                let ds = &b.config.datasources[0];
                match load_url(ds, &b.env) {
                    Ok(url) => Ok(ConnectParams {
                        name: ds.name.clone(),
                        url,
                        config_dir: b.config_dir.clone(),
                    }),
                    Err(key) => Err(ApiError::Conversion(
                        missing_env_diagnostics(key.as_str()),
                        b.datamodel.raw.clone(),
                    )),
                }
            },
        }
    }

    /// Second half of `connect`: commits the query-execution service's
    /// outcome. A failure leaves the builder state exactly as it was; on
    /// success the engine becomes connected, carrying its schema document,
    /// logger, configuration directory and environment over unchanged.
    pub fn connect(self, outcome: Result<QueryService, ServiceFailure>) -> (r: (
        QueryEngine,
        Result<(), ApiError>,
    ))
        ensures
            r == spec_connect(self, outcome),
    {
        match self.inner {
            Inner::Connected(c) => (
                QueryEngine { inner: Inner::Connected(c) },
                Err(ApiError::AlreadyConnected),
            ),
            Inner::Builder(b) => match outcome {
                Err(f) => (QueryEngine { inner: Inner::Builder(b) }, Err(api_from_service(f))),
                Ok(service) => (
                    QueryEngine {
                        inner: Inner::Connected(
                            ConnectedEngine {
                                datamodel: b.datamodel,
                                query_service: service,
                                logger: b.logger,
                                config_dir: b.config_dir,
                                env: b.env,
                            },
                        ),
                    },
                    Ok(()),
                ),
            },
        }
    }

    /// Discards the query-service handle and returns to the builder state,
    /// with the configuration recompiled from the stored schema text so
    /// that a later reconnection re-validates it. A compilation failure, or
    /// an engine that is not connected, leaves the state exactly as it was.
    pub fn disconnect(self, recompiled: Result<ValidatedConfiguration, Diagnostics>) -> (r: (
        QueryEngine,
        Result<(), ApiError>,
    ))
        ensures
            r == spec_disconnect(self, recompiled),
    {
        match self.inner {
            Inner::Builder(b) => (QueryEngine { inner: Inner::Builder(b) }, Err(ApiError::NotConnected)),
            Inner::Connected(c) => match recompiled {
                Err(d) => {
                    let raw = c.datamodel.raw.clone();
                    (
                        QueryEngine { inner: Inner::Connected(c) },
                        Err(ApiError::Conversion(d, raw)),
                    )
                },
                Ok(config) => (
                    QueryEngine {
                        inner: Inner::Builder(
                            EngineBuilder {
                                datamodel: c.datamodel,
                                config,
                                logger: c.logger,
                                config_dir: c.config_dir,
                                env: c.env,
                            },
                        ),
                    },
                    Ok(()),
                ),
            },
        }
    }

    /// Accepts a query for dispatch, valid only while connected: checks the
    /// request text is well-formed JSON, extracts the remote trace context
    /// with the process-wide propagator, and opens the capture scope the
    /// dispatch runs under. The request body passes through unmodified, and
    /// the engine state is never altered.
    pub fn query(&self, query: String, trace: Vec<(String, String)>, tx_id: Option<String>) -> (r:
        Result<QueryDispatch, ApiError>)
        ensures
            (self.inner is Builder ==> (r matches Err(e) && e is NotConnected)),
            (self.inner matches Inner::Connected(c) ==> {
                &&& (json_decodes(query@) ==> (r matches Ok(d) && d.body == query && d.tx_id
                    == tx_id && d.trace == trace && d.scope.channel == c.logger.channel
                    && d.scope.registry.events@ =~= Seq::<String>::empty()))
                &&& (!json_decodes(query@) ==> (r matches Err(e) && e matches ApiError::JsonDecode(
                    _,
                )))
            }),
    {
        match &self.inner {
            Inner::Builder(_) => Err(ApiError::NotConnected),
            Inner::Connected(c) => match decode_json_document(query.as_str()) {
                Err(message) => Err(ApiError::JsonDecode(message)),
                Ok(_) => {
                    let context = crate::otel::extract_remote_context(&trace);
                    let scope = c.logger.with_logging();
                    Ok(QueryDispatch { body: query, tx_id, trace, context, scope })
                },
            },
        }
    }
}

/// How a query's service outcome settles: the response value passes through
/// unmodified; a failure is classified into the reported taxonomy.
pub open spec fn spec_settle_query(outcome: Result<String, ServiceFailure>) -> Result<
    String,
    ApiError,
> {
    match outcome {
        Ok(response) => Ok(response),
        Err(f) => Err(spec_api_from_service(f)),
    }
}

/// Settles the query-execution service's outcome for a dispatched query.
pub fn settle_query(outcome: Result<String, ServiceFailure>) -> (r: Result<String, ApiError>)
    ensures
        r == spec_settle_query(outcome),
{
    match outcome {
        Ok(response) => Ok(response),
        Err(f) => Err(api_from_service(f)),
    }
}

/// The `connect` transition: what committing a service outcome does to the
/// state, and what it returns.
pub open spec fn spec_connect(e: QueryEngine, outcome: Result<QueryService, ServiceFailure>) -> (
    QueryEngine,
    Result<(), ApiError>,
) {
    match e.inner {
        Inner::Connected(_) => (e, Err(ApiError::AlreadyConnected)),
        Inner::Builder(b) => match outcome {
            Err(f) => (e, Err(spec_api_from_service(f))),
            Ok(service) => (
                QueryEngine {
                    inner: Inner::Connected(
                        ConnectedEngine {
                            datamodel: b.datamodel,
                            query_service: service,
                            logger: b.logger,
                            config_dir: b.config_dir,
                            env: b.env,
                        },
                    ),
                },
                Ok(()),
            ),
        },
    }
}

/// The `disconnect` transition: what committing a recompilation outcome
/// does to the state, and what it returns.
pub open spec fn spec_disconnect(
    e: QueryEngine,
    recompiled: Result<ValidatedConfiguration, Diagnostics>,
) -> (QueryEngine, Result<(), ApiError>) {
    match e.inner {
        Inner::Builder(_) => (e, Err(ApiError::NotConnected)),
        Inner::Connected(c) => match recompiled {
            Err(d) => (e, Err(ApiError::Conversion(d, c.datamodel.raw))),
            Ok(config) => (
                QueryEngine {
                    inner: Inner::Builder(
                        EngineBuilder {
                            datamodel: c.datamodel,
                            config,
                            logger: c.logger,
                            config_dir: c.config_dir,
                            env: c.env,
                        },
                    ),
                },
                Ok(()),
            ),
        },
    }
}

/// URL resolution keeps the datasource count: validating that exactly one
/// datasource is present may look at either side of the resolution.
pub proof fn lemma_resolution_preserves_count(
    ds: Seq<DatasourceV>,
    overrides: Seq<(Seq<char>, Seq<char>)>,
    env: Seq<(Seq<char>, Seq<char>)>,
)
    ensures
        spec_resolve_datasources(ds, overrides, env) matches Ok(rs) ==> rs.len() == ds.len(),
    decreases ds.len(),
{
    if ds.len() > 0 {
        lemma_resolution_preserves_count(ds.skip(1), overrides, env);
    }
}

/// The engine is always in exactly one of the two states; a transition that
/// fails reports why and leaves the state untouched; a connect succeeds
/// only from the builder state and leaves the engine connected; a
/// disconnect succeeds only from the connected state and leaves the engine
/// a builder again.
pub proof fn lemma_lifecycle(
    e: QueryEngine,
    outcome: Result<QueryService, ServiceFailure>,
    recompiled: Result<ValidatedConfiguration, Diagnostics>,
)
    ensures
        (e.inner is Builder) <==> !(e.inner is Connected),
        e.inner is Connected ==> spec_connect(e, outcome) == (
            e,
            Err::<(), ApiError>(ApiError::AlreadyConnected),
        ),
        e.inner is Builder ==> spec_disconnect(e, recompiled) == (
            e,
            Err::<(), ApiError>(ApiError::NotConnected),
        ),
        spec_connect(e, outcome).1 is Ok ==> e.inner is Builder && spec_connect(
            e,
            outcome,
        ).0.inner is Connected,
        spec_disconnect(e, recompiled).1 is Ok ==> e.inner is Connected && spec_disconnect(
            e,
            recompiled,
        ).0.inner is Builder,
        spec_connect(e, outcome).1 is Err ==> spec_connect(e, outcome).0 == e,
        spec_disconnect(e, recompiled).1 is Err ==> spec_disconnect(e, recompiled).0 == e,
{
}

/// A failed connect leaves the builder state intact, with its schema and
/// configuration as they were, and a later connect with a successful
/// service outcome connects the same engine.
pub proof fn lemma_failed_connect_preserves_state(
    e: QueryEngine,
    f: ServiceFailure,
    service: QueryService,
)
    requires
        e.inner is Builder,
    ensures
        ({
            let (e1, r1) = spec_connect(e, Err(f));
            &&& e1 == e
            &&& r1 == Err::<(), ApiError>(spec_api_from_service(f))
            &&& spec_connect(e1, Ok(service)).1 == Ok::<(), ApiError>(())
            &&& spec_connect(e1, Ok(service)).0.inner is Connected
        }),
{
}

/// The reconnection round trip: from a builder state, connect, disconnect
/// recompiling the unchanged schema, and connect again all succeed, and the
/// reconnected state is functionally equivalent to the first connected
/// state — same schema document, logger, configuration directory and
/// environment; its service handle is the one the second connect received.
pub proof fn lemma_reconnect_round_trip(
    e0: QueryEngine,
    s1: QueryService,
    s2: QueryService,
    recompiled: Result<ValidatedConfiguration, Diagnostics>,
)
    requires
        e0.inner is Builder,
        recompiled is Ok,
    ensures
        ({
            let (e1, r1) = spec_connect(e0, Ok(s1));
            let (e2, r2) = spec_disconnect(e1, recompiled);
            let (e3, r3) = spec_connect(e2, Ok(s2));
            &&& r1 == Ok::<(), ApiError>(())
            &&& r2 == Ok::<(), ApiError>(())
            &&& r3 == Ok::<(), ApiError>(())
            &&& e1.inner is Connected
            &&& e3.inner is Connected
            &&& e3.inner->Connected_0.datamodel == e1.inner->Connected_0.datamodel
            &&& e3.inner->Connected_0.logger == e1.inner->Connected_0.logger
            &&& e3.inner->Connected_0.config_dir == e1.inner->Connected_0.config_dir
            &&& e3.inner->Connected_0.env == e1.inner->Connected_0.env
            &&& e3.inner->Connected_0.query_service == s2
            &&& e2.inner->Builder_0.config == recompiled->Ok_0
        }),
{
}

} // verus!
