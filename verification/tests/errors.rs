use query_engine::{
    ApiError, ChannelError, ConnectorError, CoreError, Diagnostics, HostErrorKind,
};

#[test]
fn state_errors_have_their_fixed_messages() {
    assert_eq!(
        ApiError::AlreadyConnected.message(),
        "Can't modify an already connected engine."
    );
    assert_eq!(ApiError::NotConnected.message(), "Engine is not yet connected.");
}

#[test]
fn channel_errors_have_their_fixed_messages() {
    assert_eq!(
        ApiError::CrossbeamError(ChannelError::Timeout).message(),
        "Channel timed out"
    );
    assert_eq!(
        ApiError::CrossbeamError(ChannelError::Disconnected).message(),
        "Channel disconnected"
    );
}

#[test]
fn conversion_message_joins_the_diagnostics() {
    let e = ApiError::Conversion(
        Diagnostics {
            errors: vec!["bad type".to_string(), "missing field".to_string()],
        },
        "schema".to_string(),
    );
    assert_eq!(e.message(), "bad type\nmissing field");
}

#[test]
fn host_error_renders_the_full_conversion_report() {
    let e = ApiError::Conversion(
        Diagnostics {
            errors: vec!["bad type".to_string(), "missing field".to_string()],
        },
        "schema".to_string(),
    );
    let (kind, message) = query_engine::host_error(&e);
    assert_eq!(kind, HostErrorKind::SchemaCompilationError);
    assert_eq!(message, "bad type\nmissing field\nValidation Error Count: 2");
}

#[test]
fn host_error_counts_many_diagnostics_in_decimal() {
    let errors: Vec<String> = (0..12).map(|_| "e".to_string()).collect();
    let e = ApiError::Conversion(Diagnostics { errors }, "schema".to_string());
    let (_, message) = query_engine::host_error(&e);
    assert!(message.ends_with("\nValidation Error Count: 12"));
}

#[test]
fn host_error_maps_each_category_to_its_own_type() {
    let (kind, m) = query_engine::host_error(&ApiError::Configuration("two sources".to_string()));
    assert_eq!(kind, HostErrorKind::ConfigurationError);
    assert_eq!(m, "two sources");

    let (kind, m) =
        query_engine::host_error(&ApiError::Core(CoreError::Other("panic".to_string())));
    assert_eq!(kind, HostErrorKind::ExecutionServiceError);
    assert_eq!(m, "panic");

    let (kind, m) = query_engine::host_error(&ApiError::NotConnected);
    assert_eq!(kind, HostErrorKind::NotConnectedError);
    assert_eq!(m, "Engine is not yet connected.");

    let (kind, m) = query_engine::host_error(&ApiError::AlreadyConnected);
    assert_eq!(kind, HostErrorKind::AlreadyConnectedError);
    assert_eq!(m, "Can't modify an already connected engine.");

    let (kind, m) = query_engine::host_error(&ApiError::JsonDecode("bad token".to_string()));
    assert_eq!(kind, HostErrorKind::JsonError);
    assert_eq!(m, "bad token");

    let (kind, m) =
        query_engine::host_error(&ApiError::CrossbeamError(ChannelError::Timeout));
    assert_eq!(kind, HostErrorKind::CrossbeamError);
    assert_eq!(m, "Channel timed out");
}

#[test]
fn connector_payload_is_reported_when_present() {
    let with_payload = ApiError::Connector(ConnectorError {
        user_facing_error: Some("{\"error_code\":\"P1001\"}".to_string()),
        message: "unreachable".to_string(),
    });
    let (kind, m) = query_engine::host_error(&with_payload);
    assert_eq!(kind, HostErrorKind::ConnectorError);
    assert_eq!(m, "{\"error_code\":\"P1001\"}");

    let without_payload = ApiError::Connector(ConnectorError {
        user_facing_error: None,
        message: "unreachable".to_string(),
    });
    let (kind, m) = query_engine::host_error(&without_payload);
    assert_eq!(kind, HostErrorKind::ConnectorError);
    assert_eq!(m, "Unkown connector error");
    assert_eq!(without_payload.message(), "unreachable");
}

#[test]
fn core_configuration_errors_reclassify_on_conversion() {
    let e = ApiError::from(CoreError::ConfigurationError("bad pool".to_string()));
    match e {
        ApiError::Configuration(m) => assert_eq!(m, "bad pool"),
        _ => panic!("expected a configuration error"),
    }
    let e = ApiError::from(CoreError::Other("engine gone".to_string()));
    assert!(matches!(e, ApiError::Core(CoreError::Other(_))));
}

#[test]
fn connector_errors_keep_their_category_on_conversion() {
    let e = ApiError::from(ConnectorError {
        user_facing_error: None,
        message: "tls handshake".to_string(),
    });
    assert!(matches!(e, ApiError::Connector(_)));
}
