//! The structured-event sink model: severity levels, the level-filtered
//! sink, the telemetry-enabled sink, and the per-scope event registry.
//!
//! A sink is either plain (events below a configured severity floor are
//! dropped, except for an optional query-log override category) or
//! telemetry-enabled (captures everything, spans included).

use vstd::prelude::*;

use crate::text::str_eq;

verus! {

/// Severity of a structured event, from most to least verbose.
#[derive(Clone, Copy, Debug, PartialEq, Eq, Structural)]
pub enum LogLevel {
    Trace,
    Debug,
    Info,
    Warn,
    Error,
}

impl LogLevel {
    /// Numeric severity: higher is more severe.
    pub open spec fn spec_severity(self) -> u8 {
        match self {
            LogLevel::Trace => 0,
            LogLevel::Debug => 1,
            LogLevel::Info => 2,
            LogLevel::Warn => 3,
            LogLevel::Error => 4,
        }
    }

    /// Numeric severity: higher is more severe.
    #[verifier::when_used_as_spec(spec_severity)]
    pub fn severity(self) -> (s: u8)
        ensures
            s == self.spec_severity(),
    {
        match self {
            LogLevel::Trace => 0,
            LogLevel::Debug => 1,
            LogLevel::Info => 2,
            LogLevel::Warn => 3,
            LogLevel::Error => 4,
        }
    }

    /// The level name as it appears in a rendered event.
    pub open spec fn spec_name(self) -> Seq<char> {
        match self {
            LogLevel::Trace => "TRACE"@,
            LogLevel::Debug => "DEBUG"@,
            LogLevel::Info => "INFO"@,
            LogLevel::Warn => "WARN"@,
            LogLevel::Error => "ERROR"@,
        }
    }

    /// The level name as it appears in a rendered event.
    pub fn name(self) -> (r: &'static str)
        ensures
            r@ == self.spec_name(),
    {
        match self {
            LogLevel::Trace => "TRACE",
            LogLevel::Debug => "DEBUG",
            LogLevel::Info => "INFO",
            LogLevel::Warn => "WARN",
            LogLevel::Error => "ERROR",
        }
    }
}

/// The level name accepted by the logger configuration, lower case.
pub open spec fn spec_parse_level(s: Seq<char>) -> Option<LogLevel> {
    if s == "trace"@ {
        Some(LogLevel::Trace)
    } else if s == "debug"@ {
        Some(LogLevel::Debug)
    } else if s == "info"@ {
        Some(LogLevel::Info)
    } else if s == "warn"@ {
        Some(LogLevel::Warn)
    } else if s == "error"@ {
        Some(LogLevel::Error)
    } else {
        None
    }
}

/// Parses a severity floor from its lower-case name. Any other text yields
/// `None`: a sink configured with an unrecognized level has no floor and
/// drops every plain event (the query-log override still applies).
pub fn parse_level(s: &str) -> (r: Option<LogLevel>)
    ensures
        r == spec_parse_level(s@),
{
    if str_eq(s, "trace") {
        Some(LogLevel::Trace)
    } else if str_eq(s, "debug") {
        Some(LogLevel::Debug)
    } else if str_eq(s, "info") {
        Some(LogLevel::Info)
    } else if str_eq(s, "warn") {
        Some(LogLevel::Warn)
    } else if str_eq(s, "error") {
        Some(LogLevel::Error)
    } else {
        None
    }
}

/// One structured event as the sink sees it: its severity, whether it is a
/// span rather than a point event, whether it belongs to the query-log
/// category, the module that emitted it, and its recorded fields, each
/// already rendered to text.
pub struct LogEvent {
    pub level: LogLevel,
    pub is_span: bool,
    pub is_query: bool,
    pub module: Option<String>,
    pub fields: Vec<(String, String)>,
}

/// The event sink configuration: either plain and level-filtered, or
/// telemetry-enabled, in which case everything is captured.
#[derive(Clone, Copy)]
pub struct EventChannel {
    /// Telemetry-enabled sinks capture at the most verbose level, spans
    /// included, and forward to the tracing exporter.
    pub telemetry: bool,
    /// Minimum severity a plain event must reach; `None` drops all plain
    /// events.
    pub floor: Option<LogLevel>,
    /// The query-log override: when set, query-category events pass the
    /// filter whatever their severity.
    pub log_queries: bool,
}

impl EventChannel {
    /// Whether an event passes this sink's filter.
    pub open spec fn spec_accepts(self, ev: LogEvent) -> bool {
        self.telemetry || (!ev.is_span && (
            (match self.floor {
                Some(floor) => ev.level.spec_severity() >= floor.spec_severity(),
                None => false,
            }) || (self.log_queries && ev.is_query)
        ))
    }

    /// A new sink with the given filter — severity floor and query-log
    /// override — and the telemetry flag.
    pub fn new(floor: Option<LogLevel>, log_queries: bool, telemetry: bool) -> (r: EventChannel)
        ensures
            r == (EventChannel { telemetry, floor, log_queries }),
    {
        EventChannel { telemetry, floor, log_queries }
    }

    /// Whether an event passes this sink's filter.
    pub fn accepts(&self, ev: &LogEvent) -> (r: bool)
        ensures
            r == self.spec_accepts(*ev),
    {
        if self.telemetry {
            true
        } else if ev.is_span {
            false
        } else {
            let floor_ok = match self.floor {
                Some(floor) => ev.level.severity() >= floor.severity(),
                None => false,
            };
            floor_ok || (self.log_queries && ev.is_query)
        }
    }
}

/// A logger scope: the sink wiring that a unit of work is run under.
/// Cloneable cheaply; carried unchanged across engine state transitions.
#[derive(Clone, Copy)]
pub struct ChannelLogger {
    pub channel: EventChannel,
}

impl ChannelLogger {
    /// A plain logger with the given minimum level name and the query-log
    /// override flag.
    pub fn new(level: &str, log_queries: bool) -> (r: ChannelLogger)
        ensures
            r.channel == (EventChannel {
                telemetry: false,
                floor: spec_parse_level(level@),
                log_queries,
            }),
    {
        ChannelLogger { channel: EventChannel::new(parse_level(level), log_queries, false) }
    }

    /// A telemetry-enabled logger: it captures at the most verbose level,
    /// spans included, and installs the process-wide trace-context
    /// propagator. The export endpoint is a concern of the exporter
    /// pipeline, which is not part of this library.
    #[allow(unused_variables)]
    pub fn new_with_telemetry(endpoint: Option<String>) -> (r: ChannelLogger)
        ensures
            r.channel == (EventChannel {
                telemetry: true,
                floor: Some(LogLevel::Trace),
                log_queries: true,
            }),
    {
        crate::otel::install_trace_propagator();
        ChannelLogger {
            channel: EventChannel { telemetry: true, floor: Some(LogLevel::Trace), log_queries: true },
        }
    }

    /// Opens the capture scope a unit of work runs under: while the unit
    /// executes, every event it or its nested tasks emit is offered to this
    /// scope, and the accepted ones are retrievable from its registry.
    pub fn with_logging(&self) -> (s: CaptureScope)
        ensures
            s.channel == self.channel,
            s.registry.events@ =~= Seq::<String>::empty(),
    {
        CaptureScope { channel: self.channel, registry: EventRegistry::new() }
    }
}

/// Per-scope registry of captured events: every event accepted by the sink
/// during one unit of work, in emission order, each rendered to text.
pub struct EventRegistry {
    pub events: Vec<String>,
}

impl EventRegistry {
    /// An empty registry.
    pub fn new() -> (r: EventRegistry)
        ensures
            r.events@ =~= Seq::<String>::empty(),
    {
        EventRegistry { events: Vec::new() }
    }
}

/// The entries of a rendered event before its recorded fields: the level
/// name under the level key, and the emitting module's path, when it is
/// known, under the module-path key.
pub open spec fn spec_base_entries(ev: LogEvent) -> Map<Seq<char>, Seq<char>> {
    let m = Map::<Seq<char>, Seq<char>>::empty().insert("level"@, ev.level.spec_name());
    match ev.module {
        Some(p) => m.insert("module_path"@, p@),
        None => m,
    }
}

/// A mapping after recording fields into it, in order; a later field wins
/// over an earlier entry with the same key.
pub open spec fn spec_insert_fields(
    m: Map<Seq<char>, Seq<char>>,
    fields: Seq<(Seq<char>, Seq<char>)>,
) -> Map<Seq<char>, Seq<char>>
    decreases fields.len(),
{
    if fields.len() == 0 {
        m
    } else {
        spec_insert_fields(m, fields.drop_last()).insert(fields.last().0, fields.last().1)
    }
}

/// The key/value mapping a captured event becomes: at least the level and,
/// when known, the emitting module, then every recorded field.
pub open spec fn spec_event_entries(ev: LogEvent) -> Map<Seq<char>, Seq<char>> {
    spec_insert_fields(spec_base_entries(ev), ev.fields.deep_view())
}

/// Renders one event to its compact textual form: a JSON object holding the
/// level, the emitting module when known, and every recorded field.
pub fn render_event(ev: &LogEvent) -> (r: String)
    ensures
        r@ == crate::json::json_object_text(spec_event_entries(*ev)),
{
    let mut m = crate::json::new_event_object();
    crate::json::insert_text(&mut m, String::from_str("level"), String::from_str(ev.level.name()));
    match &ev.module {
        Some(p) => crate::json::insert_text(&mut m, String::from_str("module_path"), p.clone()),
        None => (),
    }
    let ghost base = spec_base_entries(*ev);
    let ghost fields = ev.fields.deep_view();
    let mut i: usize = 0;
    while i < ev.fields.len()
        invariant
            i <= ev.fields.len(),
            fields == ev.fields.deep_view(),
            fields.len() == ev.fields.len(),
            forall|j: int|
                0 <= j < ev.fields.len() ==> fields[j] == (ev.fields[j].0@, ev.fields[j].1@),
            crate::json::map_entries(m) == spec_insert_fields(base, fields.take(i as int)),
        decreases ev.fields.len() - i,
    {
        crate::json::insert_text(&mut m, ev.fields[i].0.clone(), ev.fields[i].1.clone());
        proof {
            assert(fields.take(i + 1).drop_last() =~= fields.take(i as int));
            assert(fields.take(i + 1).last() == fields[i as int]);
        }
        i = i + 1;
    }
    proof {
        assert(fields.take(ev.fields.len() as int) =~= fields);
    }
    crate::json::render_object(m)
}

/// Relies on std's Debug formatting to render a recorded value of any
/// other type to text; nothing is promised of the text itself.
#[verifier::external_body]
fn debug_text<T: core::fmt::Debug>(value: &T) -> String {
    format!("{:?}", value)
}

/// Collects one event's recorded fields as text, in recording order: a
/// string value verbatim, a number or a boolean by its rendering, and any
/// other value by its debug text.
pub struct JsonVisitor {
    pub fields: Vec<(String, String)>,
}

impl JsonVisitor {
    /// A visitor with nothing recorded yet.
    pub fn new() -> (r: JsonVisitor)
        ensures
            r.fields.deep_view() =~= Seq::<(Seq<char>, Seq<char>)>::empty(),
    {
        let fields: Vec<(String, String)> = Vec::new();
        proof {
            assert(fields.deep_view() =~= Seq::<(Seq<char>, Seq<char>)>::empty());
        }
        JsonVisitor { fields }
    }

    /// Records a string value verbatim.
    pub fn record_str(&mut self, name: &str, value: &str)
        ensures
            final(self).fields.deep_view() =~= old(self).fields.deep_view().push((name@, value@)),
    {
        let ghost before = self.fields.deep_view();
        self.fields.push((name.to_owned(), value.to_owned()));
        proof {
            assert(self.fields.deep_view() =~= before.push((name@, value@)));
        }
    }

    /// Records an unsigned value by its decimal rendering.
    pub fn record_u64(&mut self, name: &str, value: u64)
        ensures
            final(self).fields.deep_view() =~= old(self).fields.deep_view().push(
                (name@, crate::text::spec_decimal(value as int)),
            ),
    {
        let ghost before = self.fields.deep_view();
        self.fields.push((name.to_owned(), crate::text::u64_to_string(value)));
        proof {
            assert(self.fields.deep_view() =~= before.push(
                (name@, crate::text::spec_decimal(value as int)),
            ));
        }
    }

    /// Records a signed value by its decimal rendering.
    pub fn record_i64(&mut self, name: &str, value: i64)
        ensures
            final(self).fields.deep_view() =~= old(self).fields.deep_view().push(
                (name@, crate::text::spec_signed_decimal(value as int)),
            ),
    {
        let ghost before = self.fields.deep_view();
        self.fields.push((name.to_owned(), crate::text::i64_to_string(value)));
        proof {
            assert(self.fields.deep_view() =~= before.push(
                (name@, crate::text::spec_signed_decimal(value as int)),
            ));
        }
    }

    /// Records a boolean by its textual form.
    pub fn record_bool(&mut self, name: &str, value: bool)
        ensures
            final(self).fields.deep_view() =~= old(self).fields.deep_view().push(
                (name@, crate::text::spec_bool_text(value)),
            ),
    {
        let ghost before = self.fields.deep_view();
        self.fields.push((name.to_owned(), crate::text::bool_to_string(value)));
        proof {
            assert(self.fields.deep_view() =~= before.push(
                (name@, crate::text::spec_bool_text(value)),
            ));
        }
    }

    /// Records a value of any other type by its debug text. The text comes
    /// from std's formatting machinery, so only the field's name and its
    /// place in the recording order are specified.
    pub fn record_debug<T: core::fmt::Debug>(&mut self, name: &str, value: &T)
        ensures
            final(self).fields.deep_view().len() == old(self).fields.deep_view().len() + 1,
            final(self).fields.deep_view().drop_last() =~= old(self).fields.deep_view(),
            final(self).fields.deep_view().last().0 == name@,
    {
        let ghost before = self.fields.deep_view();
        let text = debug_text(value);
        self.fields.push((name.to_owned(), text));
        proof {
            assert(self.fields.deep_view().drop_last() =~= before);
        }
    }
}

/// A per-call capture scope: the sink configuration a unit of work runs
/// under, together with the registry of the events captured so far.
pub struct CaptureScope {
    pub channel: EventChannel,
    pub registry: EventRegistry,
}

impl CaptureScope {
    /// Offers one event to the scope: exactly when the sink accepts it, its
    /// rendering is appended to the registry; otherwise nothing changes.
    pub fn record(&mut self, ev: &LogEvent)
        ensures
            final(self).channel == old(self).channel,
            old(self).channel.spec_accepts(*ev) ==> final(self).registry.events.deep_view()
                =~= old(self).registry.events.deep_view().push(
                crate::json::json_object_text(spec_event_entries(*ev)),
            ),
            !old(self).channel.spec_accepts(*ev) ==> final(self).registry.events.deep_view()
                =~= old(self).registry.events.deep_view(),
    {
        if self.channel.accepts(ev) {
            let line = render_event(ev);
            self.registry.events.push(line);
        }
    }

    /// The events captured so far, in emission order.
    pub fn events(&self) -> (r: &Vec<String>)
        ensures
            r == self.registry.events,
    {
        &self.registry.events
    }
}

proof fn lemma_fields_preserve_key(
    m: Map<Seq<char>, Seq<char>>,
    fields: Seq<(Seq<char>, Seq<char>)>,
    key: Seq<char>,
)
    requires
        forall|j: int| 0 <= j < fields.len() ==> fields[j].0 != key,
    ensures
        spec_insert_fields(m, fields).dom().contains(key) == m.dom().contains(key),
        m.dom().contains(key) ==> spec_insert_fields(m, fields)[key] == m[key],
    decreases fields.len(),
{
    if fields.len() > 0 {
        lemma_fields_preserve_key(m, fields.drop_last(), key);
    }
}

/// Every rendered event carries its own attributes: its severity under the
/// level key and, when known, its emitting module under the module-path
/// key — whatever fields were recorded, as long as none of them reuses
/// those two keys.
pub proof fn lemma_event_attributes(ev: LogEvent)
    requires
        forall|j: int|
            0 <= j < ev.fields.deep_view().len() ==> ev.fields.deep_view()[j].0 != "level"@,
        forall|j: int|
            0 <= j < ev.fields.deep_view().len() ==> ev.fields.deep_view()[j].0 != "module_path"@,
    ensures
        spec_event_entries(ev).dom().contains("level"@),
        spec_event_entries(ev)["level"@] == ev.level.spec_name(),
        ev.module matches Some(p) ==> spec_event_entries(ev).dom().contains("module_path"@)
            && spec_event_entries(ev)["module_path"@] == p@,
{
    reveal_strlit("level");
    reveal_strlit("module_path");
    assert("level"@.len() == 5);
    assert("module_path"@.len() == 11);
    assert("level"@ != "module_path"@);
    lemma_fields_preserve_key(spec_base_entries(ev), ev.fields.deep_view(), "level"@);
    lemma_fields_preserve_key(spec_base_entries(ev), ev.fields.deep_view(), "module_path"@);
}

/// The severity floor drops exactly the plain events below it: a plain
/// sink accepts a non-span event if and only if the event reaches the floor
/// or is query-category under the query-log override, while a
/// telemetry-enabled sink accepts every event whatever its severity.
pub proof fn lemma_sink_filtering(c: EventChannel, ev: LogEvent)
    ensures
        c.telemetry ==> c.spec_accepts(ev),
        !c.telemetry && ev.is_span ==> !c.spec_accepts(ev),
        !c.telemetry && !ev.is_span ==> (c.spec_accepts(ev) <==> (
            (c.floor matches Some(floor) && ev.level.spec_severity() >= floor.spec_severity())
            || (c.log_queries && ev.is_query)
        )),
{
}

} // verus!
