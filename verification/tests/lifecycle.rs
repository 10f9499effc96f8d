use query_engine::{
    ApiError, ConnectorError, CoreError, Datasource, Diagnostics, Inner, LogLevel, QueryEngine,
    QueryService, ServiceFailure, UrlValue, ValidatedConfiguration,
};

fn schema_text() -> String {
    "datasource db { provider = \"sqlite\" url = \"file:dev.db\" }".to_string()
}

fn one_datasource() -> ValidatedConfiguration {
    ValidatedConfiguration {
        datasources: vec![Datasource {
            name: "db".to_string(),
            url: UrlValue::Literal("file:dev.db".to_string()),
        }],
    }
}

fn construct(
    config: ValidatedConfiguration,
    env: Vec<(String, String)>,
    overrides: Vec<(String, String)>,
) -> QueryEngine {
    QueryEngine::new(
        env,
        schema_text(),
        "info".to_string(),
        false,
        overrides,
        false,
        Ok(config),
    )
    .unwrap()
}

#[test]
fn construct_starts_in_builder_state() {
    let engine = construct(one_datasource(), vec![], vec![]);
    assert!(!engine.connected());
    assert_eq!(engine.schema_raw(), &schema_text());
}

#[test]
fn construct_reports_compilation_diagnostics_with_text() {
    let diagnostics = Diagnostics { errors: vec!["unexpected token".to_string()] };
    let r = QueryEngine::new(
        vec![],
        schema_text(),
        "info".to_string(),
        false,
        vec![],
        false,
        Err(diagnostics),
    );
    match r {
        Err(ApiError::Conversion(d, raw)) => {
            assert_eq!(d.errors, vec!["unexpected token".to_string()]);
            assert_eq!(raw, schema_text());
        }
        _ => panic!("expected a conversion error"),
    }
}

#[test]
fn construct_rejects_zero_datasources() {
    let config = ValidatedConfiguration { datasources: vec![] };
    let r = QueryEngine::new(
        vec![],
        schema_text(),
        "info".to_string(),
        false,
        vec![],
        false,
        Ok(config),
    );
    match r {
        Err(ApiError::Configuration(m)) => {
            assert_eq!(m, "Exactly one datasource must be provided");
        }
        _ => panic!("expected a configuration error"),
    }
}

#[test]
fn construct_rejects_two_datasources() {
    let config = ValidatedConfiguration {
        datasources: vec![
            Datasource {
                name: "db".to_string(),
                url: UrlValue::Literal("file:a.db".to_string()),
            },
            Datasource {
                name: "other".to_string(),
                url: UrlValue::Literal("file:b.db".to_string()),
            },
        ],
    };
    let r = QueryEngine::new(
        vec![],
        schema_text(),
        "info".to_string(),
        false,
        vec![],
        false,
        Ok(config),
    );
    assert!(matches!(r, Err(ApiError::Configuration(_))));
}

#[test]
fn construct_reports_missing_environment_variable() {
    let config = ValidatedConfiguration {
        datasources: vec![Datasource {
            name: "db".to_string(),
            url: UrlValue::FromEnv("DATABASE_URL".to_string()),
        }],
    };
    let r = QueryEngine::new(
        vec![],
        schema_text(),
        "info".to_string(),
        false,
        vec![],
        false,
        Ok(config),
    );
    match r {
        Err(ApiError::Conversion(d, _)) => {
            assert_eq!(
                d.errors,
                vec!["Environment variable not found: DATABASE_URL".to_string()]
            );
        }
        _ => panic!("expected a conversion error"),
    }
}

#[test]
fn construct_can_ignore_environment_errors() {
    let config = ValidatedConfiguration {
        datasources: vec![Datasource {
            name: "db".to_string(),
            url: UrlValue::FromEnv("DATABASE_URL".to_string()),
        }],
    };
    let r = QueryEngine::new(
        vec![],
        schema_text(),
        "info".to_string(),
        false,
        vec![],
        true,
        Ok(config),
    );
    assert!(r.is_ok());
}

#[test]
fn begin_connect_resolves_url_from_environment() {
    let config = ValidatedConfiguration {
        datasources: vec![Datasource {
            name: "db".to_string(),
            url: UrlValue::FromEnv("DB_URL".to_string()),
        }],
    };
    let env = vec![("DB_URL".to_string(), "postgres://example".to_string())];
    let engine = construct(config, env, vec![]);
    let params = engine.begin_connect().unwrap();
    assert_eq!(params.name, "db");
    assert_eq!(params.url, "postgres://example");
}

#[test]
fn datasource_override_wins_over_declared_url() {
    let overrides = vec![("db".to_string(), "mysql://override".to_string())];
    let engine = construct(one_datasource(), vec![], overrides);
    let params = engine.begin_connect().unwrap();
    assert_eq!(params.url, "mysql://override");
}

#[test]
fn connect_transitions_to_connected() {
    let engine = construct(one_datasource(), vec![], vec![]);
    let params = engine.begin_connect().unwrap();
    assert_eq!(params.url, "file:dev.db");
    let (engine, r) = engine.connect(Ok(QueryService { db_name: "main".to_string() }));
    assert!(r.is_ok());
    assert!(engine.connected());
    match &engine.inner {
        Inner::Connected(c) => assert_eq!(c.query_service.db_name, "main"),
        Inner::Builder(_) => panic!("expected the connected state"),
    }
}

#[test]
fn connect_fails_when_already_connected() {
    let engine = construct(one_datasource(), vec![], vec![]);
    let (engine, r) = engine.connect(Ok(QueryService { db_name: "main".to_string() }));
    assert!(r.is_ok());
    assert!(matches!(
        engine.begin_connect(),
        Err(ApiError::AlreadyConnected)
    ));
    let (engine, r) = engine.connect(Ok(QueryService { db_name: "main".to_string() }));
    assert!(matches!(r, Err(ApiError::AlreadyConnected)));
    assert!(engine.connected());
}

#[test]
fn disconnect_fails_when_not_connected() {
    let engine = construct(one_datasource(), vec![], vec![]);
    let (engine, r) = engine.disconnect(Ok(one_datasource()));
    assert!(matches!(r, Err(ApiError::NotConnected)));
    assert!(!engine.connected());
}

#[test]
fn failed_connect_leaves_builder_intact() {
    let engine = construct(one_datasource(), vec![], vec![]);
    let failure = ServiceFailure::Connector(ConnectorError {
        user_facing_error: None,
        message: "connection refused".to_string(),
    });
    let (engine, r) = engine.connect(Err(failure));
    assert!(matches!(r, Err(ApiError::Connector(_))));
    assert!(!engine.connected());
    assert_eq!(engine.schema_raw(), &schema_text());
    let (engine, r) = engine.connect(Ok(QueryService { db_name: "main".to_string() }));
    assert!(r.is_ok());
    assert!(engine.connected());
}

#[test]
fn connect_failure_from_core_configuration_is_classified() {
    let engine = construct(one_datasource(), vec![], vec![]);
    let failure = ServiceFailure::Core(CoreError::ConfigurationError("bad pool size".to_string()));
    let (_, r) = engine.connect(Err(failure));
    match r {
        Err(ApiError::Configuration(m)) => assert_eq!(m, "bad pool size"),
        _ => panic!("expected a configuration error"),
    }
}

#[test]
fn reconnect_round_trip_restores_an_equivalent_engine() {
    let engine = construct(one_datasource(), vec![], vec![]);
    let (engine, r) = engine.connect(Ok(QueryService { db_name: "main".to_string() }));
    assert!(r.is_ok());
    let (engine, r) = engine.disconnect(Ok(one_datasource()));
    assert!(r.is_ok());
    assert!(!engine.connected());
    assert_eq!(engine.schema_raw(), &schema_text());
    let params = engine.begin_connect().unwrap();
    assert_eq!(params.url, "file:dev.db");
    let (engine, r) = engine.connect(Ok(QueryService { db_name: "main".to_string() }));
    assert!(r.is_ok());
    assert!(engine.connected());
    match &engine.inner {
        Inner::Connected(c) => {
            assert_eq!(c.datamodel.raw, schema_text());
            assert_eq!(c.query_service.db_name, "main");
            assert_eq!(c.config_dir, ".");
            assert!(!c.logger.channel.telemetry);
            assert_eq!(c.logger.channel.floor, Some(LogLevel::Info));
            assert!(!c.logger.channel.log_queries);
        }
        Inner::Builder(_) => panic!("expected the connected state"),
    }
}

#[test]
fn disconnect_recompilation_failure_stays_connected() {
    let engine = construct(one_datasource(), vec![], vec![]);
    let (engine, r) = engine.connect(Ok(QueryService { db_name: "main".to_string() }));
    assert!(r.is_ok());
    let diagnostics = Diagnostics { errors: vec!["schema changed underneath".to_string()] };
    let (engine, r) = engine.disconnect(Err(diagnostics));
    match r {
        Err(ApiError::Conversion(d, raw)) => {
            assert_eq!(d.errors.len(), 1);
            assert_eq!(raw, schema_text());
        }
        _ => panic!("expected a conversion error"),
    }
    assert!(engine.connected());
}

#[test]
fn begin_connect_without_datasource_is_a_configuration_error() {
    // An engine built in a state with no datasource cannot arise through
    // `new`, which validates the count; the check still holds on its own.
    let engine = construct(one_datasource(), vec![], vec![]);
    let (engine, r) = engine.disconnect(Ok(ValidatedConfiguration { datasources: vec![] }));
    assert!(matches!(r, Err(ApiError::NotConnected)));
    let (engine, _) = engine.connect(Ok(QueryService { db_name: "main".to_string() }));
    let (engine, r) = engine.disconnect(Ok(ValidatedConfiguration { datasources: vec![] }));
    assert!(r.is_ok());
    match engine.begin_connect() {
        Err(ApiError::Configuration(m)) => assert_eq!(m, "No valid data source found"),
        _ => panic!("expected a configuration error"),
    }
}
