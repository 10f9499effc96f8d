//! An embeddable query-execution facade: the lifecycle state machine of a
//! database query engine (Builder -> Connected -> Builder), the decision
//! logic of a sync/async bridge for blocking callers, and a structured
//! event-capture subsystem with level filtering.
//!
//! The schema compiler and the query-execution service are external
//! collaborators: the engine receives their outcomes as plain values and is
//! verified for every outcome they can produce.

mod bridge;
mod config;
mod engine;
mod error;
mod json;
mod logger;
mod otel;
mod text;

pub use bridge::RecvOutcome;
pub use bridge::Reply;
pub use bridge::settle_reply;
pub use bridge::spec_settle_reply;
pub use bridge::wait_for_reply;
pub use bridge::wait_for_reply_indefinitely;
pub use config::Datasource;
pub use config::DatasourceV;
pub use config::EngineDatamodel;
pub use config::UrlValue;
pub use config::UrlValueV;
pub use config::ValidatedConfiguration;
pub use config::env_lookup;
pub use config::load_url;
pub use config::resolve_configuration;
pub use config::spec_env_lookup;
pub use config::spec_load_url;
pub use config::spec_resolve_datasource;
pub use config::spec_resolve_datasources;
pub use engine::ConnectParams;
pub use engine::ConnectedEngine;
pub use engine::EngineBuilder;
pub use engine::Inner;
pub use engine::QueryDispatch;
pub use engine::QueryEngine;
pub use engine::QueryService;
pub use engine::TelemetryOptions;
pub use engine::lemma_failed_connect_preserves_state;
pub use engine::lemma_lifecycle;
pub use engine::lemma_reconnect_round_trip;
pub use engine::lemma_resolution_preserves_count;
pub use engine::settle_query;
pub use engine::spec_connect;
pub use engine::spec_disconnect;
pub use engine::spec_missing_env_message;
pub use engine::spec_settle_query;
pub use error::ApiError;
pub use error::ChannelError;
pub use error::ConnectorError;
pub use error::CoreError;
pub use error::Diagnostics;
pub use error::HostErrorKind;
pub use error::ServiceFailure;
pub use error::api_from_service;
pub use error::full_conversion_error;
pub use error::host_error;
pub use error::spec_api_from_core;
pub use error::spec_api_from_service;
pub use error::spec_full_conversion_error;
pub use error::spec_host_error_kind;
pub use error::spec_host_error_message;
pub use error::spec_message;
pub use json::EventObject;
pub use json::json_decodes;
pub use json::json_object_text;
pub use json::map_entries;
pub use json::no_entries;
pub use logger::CaptureScope;
pub use logger::ChannelLogger;
pub use logger::EventChannel;
pub use logger::EventRegistry;
pub use logger::JsonVisitor;
pub use logger::LogEvent;
pub use logger::LogLevel;
pub use logger::lemma_event_attributes;
pub use logger::lemma_sink_filtering;
pub use logger::parse_level;
pub use logger::render_event;
pub use logger::spec_base_entries;
pub use logger::spec_event_entries;
pub use logger::spec_insert_fields;
pub use logger::spec_parse_level;
pub use text::bool_to_string;
pub use text::i64_to_string;
pub use text::join_lines;
pub use text::spec_bool_text;
pub use text::spec_signed_decimal;
pub use text::u64_to_string;
pub use text::spec_decimal;
pub use text::spec_joined_lines;
pub use text::usize_to_string;
