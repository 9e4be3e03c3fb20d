//! What the exec server reports about itself: a span to run in, and its metrics.
//!
//! The counts of what is active are kept here. What is to be reported is handed to the host, which
//! owns the metrics client.
use std::time::Duration;
use vstd::prelude::*;

verus! {

pub const CONNECTIONS_ACTIVE_METRIC: &'static str = "exec_server_connections_active";

pub const CONNECTIONS_ACTIVE_DESCRIPTION: &'static str =
    "Number of active exec-server connections.";

pub const CONNECTIONS_TOTAL_METRIC: &'static str = "exec_server_connections_total";

pub const CONNECTIONS_TOTAL_DESCRIPTION: &'static str =
    "Total number of accepted exec-server connections.";

pub const REMOTE_REGISTRATION_TOTAL_METRIC: &'static str = "exec_server_remote_registration_total";

pub const REMOTE_REGISTRATION_TOTAL_DESCRIPTION: &'static str =
    "Total number of remote exec-server registration attempts.";

pub const REMOTE_REGISTRATION_DURATION_METRIC: &'static str =
    "exec_server_remote_registration_duration_seconds";

pub const REMOTE_REGISTRATION_DURATION_DESCRIPTION: &'static str =
    "Duration of remote exec-server registration attempts in seconds.";

pub const REMOTE_WEBSOCKET_ACTIVE_METRIC: &'static str = "exec_server_remote_websocket_active";

pub const REMOTE_WEBSOCKET_ACTIVE_DESCRIPTION: &'static str =
    "Number of active remote exec-server WebSocket connections.";

pub const REMOTE_WEBSOCKET_CONNECT_TOTAL_METRIC: &'static str =
    "exec_server_remote_websocket_connect_total";

pub const REMOTE_WEBSOCKET_CONNECT_TOTAL_DESCRIPTION: &'static str =
    "Total number of remote exec-server WebSocket connection attempts.";

pub const REMOTE_WEBSOCKET_CONNECT_DURATION_METRIC: &'static str =
    "exec_server_remote_websocket_connect_duration_seconds";

pub const REMOTE_WEBSOCKET_CONNECT_DURATION_DESCRIPTION: &'static str =
    "Duration of remote exec-server WebSocket connection attempts in seconds.";

pub const REMOTE_WEBSOCKET_RECONNECTS_METRIC: &'static str =
    "exec_server_remote_websocket_reconnects_total";

pub const REMOTE_WEBSOCKET_RECONNECTS_DESCRIPTION: &'static str =
    "Total number of remote exec-server WebSocket reconnects.";

pub const REQUESTS_TOTAL_METRIC: &'static str = "exec_server_requests_total";

pub const REQUESTS_TOTAL_DESCRIPTION: &'static str = "Total number of exec-server requests.";

pub const REQUEST_DURATION_METRIC: &'static str = "exec_server_request_duration_seconds";

pub const REQUEST_DURATION_DESCRIPTION: &'static str =
    "Duration of exec-server requests in seconds.";

pub const PROCESSES_ACTIVE_METRIC: &'static str = "exec_server_processes_active";

pub const PROCESSES_ACTIVE_DESCRIPTION: &'static str = "Number of active exec-server processes.";

pub const PROCESSES_FINISHED_TOTAL_METRIC: &'static str = "exec_server_processes_finished_total";

pub const PROCESSES_FINISHED_TOTAL_DESCRIPTION: &'static str =
    "Total number of finished exec-server processes.";

pub const PROCESS_DURATION_METRIC: &'static str = "exec_server_process_duration_seconds";

pub const PROCESS_DURATION_DESCRIPTION: &'static str =
    "Duration of exec-server processes in seconds.";

/// The levels of a span.
#[derive(Clone, Copy, Debug, PartialEq, Eq, Structural)]
pub enum SpanLevel {
    Error,
    Warn,
    Info,
    Debug,
    Trace,
}

/// A span to be opened.
#[derive(Clone, Copy, Debug, PartialEq, Eq)]
pub struct SpanDescription {
    pub level: SpanLevel,
    pub name: &'static str,
    /// The `otel.kind` field.
    pub otel_kind: &'static str,
}

/// The span that the exec server runs in.
pub fn runtime_span() -> (span: SpanDescription)
    ensures
        span.level == SpanLevel::Info,
        span.name@ == "codex.exec_server"@,
        span.otel_kind@ == "internal"@,
{
    SpanDescription { level: SpanLevel::Info, name: "codex.exec_server", otel_kind: "internal" }
}

/// How a client is connected.
#[derive(Clone, Copy, Debug, PartialEq, Eq, Structural)]
pub enum ConnectionTransport {
    Relay,
    Stdio,
    WebSocket,
}

impl ConnectionTransport {
    /// The value of the `transport` tag.
    pub open spec fn tag(self) -> Seq<char> {
        match self {
            ConnectionTransport::Relay => "relay"@,
            ConnectionTransport::Stdio => "stdio"@,
            ConnectionTransport::WebSocket => "websocket"@,
        }
    }

    /// The value of the `transport` tag.
    pub fn metric_tag(self) -> (tag: &'static str)
        ensures
            tag@ == self.tag(),
    {
        match self {
            ConnectionTransport::Relay => "relay",
            ConnectionTransport::Stdio => "stdio",
            ConnectionTransport::WebSocket => "websocket",
        }
    }
}

/// What is reported under a metric.
#[derive(Clone, Copy, Debug, PartialEq, Eq)]
pub enum MetricValue {
    /// A count goes up by this much.
    Counter(i64),
    /// A number stands at this.
    Gauge(i64),
    /// Something took this long, to be recorded in seconds.
    Duration(Duration),
}

/// One report of a metric.
#[derive(Debug, PartialEq, Eq)]
pub struct MetricReport {
    pub name: &'static str,
    pub description: &'static str,
    pub value: MetricValue,
    pub tags: Vec<(&'static str, &'static str)>,
}

/// What a [`MetricReport`] holds.
#[verifier::ext_equal]
pub struct ReportView {
    pub name: Seq<char>,
    pub description: Seq<char>,
    pub value: MetricValue,
    pub tags: Seq<(Seq<char>, Seq<char>)>,
}

impl View for MetricReport {
    type V = ReportView;

    open spec fn view(&self) -> ReportView {
        ReportView {
            name: self.name@,
            description: self.description@,
            value: self.value,
            tags: self.tags.deep_view(),
        }
    }
}

impl DeepView for MetricReport {
    type V = ReportView;

    open spec fn deep_view(&self) -> ReportView {
        self@
    }
}

impl MetricReport {
    /// What is logged, with the metric's name, when the report could not be made.
    pub fn failure_message(&self) -> (message: &'static str)
        ensures
            message@ == match self.value {
                MetricValue::Counter(_) => "failed to emit exec-server counter"@,
                MetricValue::Gauge(_) => "failed to emit exec-server gauge"@,
                MetricValue::Duration(_) => "failed to emit exec-server duration"@,
            },
    {
        match self.value {
            MetricValue::Counter(_) => "failed to emit exec-server counter",
            MetricValue::Gauge(_) => "failed to emit exec-server gauge",
            MetricValue::Duration(_) => "failed to emit exec-server duration",
        }
    }
}

/// How much of each thing is active.
#[verifier::ext_equal]
pub struct ActiveCounts {
    pub relay_connections: int,
    pub stdio_connections: int,
    pub websocket_connections: int,
    pub remote_websockets: int,
    pub processes: int,
}

/// What can happen to the exec server.
pub enum TelemetryEvent {
    ConnectionStarted { transport: ConnectionTransport },
    ConnectionFinished { transport: ConnectionTransport },
    RemoteRegistrationCompleted { result: Seq<char>, duration: Duration },
    RemoteWebSocketConnected,
    RemoteWebSocketDisconnected,
    RemoteWebSocketConnectCompleted { result: Seq<char>, duration: Duration },
    RemoteWebSocketReconnect { reason: Seq<char> },
    RequestCompleted { method: Seq<char>, result: Seq<char>, duration: Duration },
    ProcessStarted,
    ProcessFinished { result: Seq<char>, duration: Duration },
}

impl ActiveCounts {
    /// Nothing is active.
    pub open spec fn zero() -> ActiveCounts {
        ActiveCounts {
            relay_connections: 0,
            stdio_connections: 0,
            websocket_connections: 0,
            remote_websockets: 0,
            processes: 0,
        }
    }

    /// The active connections of one transport.
    pub open spec fn connections(self, transport: ConnectionTransport) -> int {
        match transport {
            ConnectionTransport::Relay => self.relay_connections,
            ConnectionTransport::Stdio => self.stdio_connections,
            ConnectionTransport::WebSocket => self.websocket_connections,
        }
    }

    /// The counts with `by` more connections of one transport.
    pub open spec fn with_connections(self, transport: ConnectionTransport, by: int) -> ActiveCounts {
        match transport {
            ConnectionTransport::Relay => ActiveCounts {
                relay_connections: self.relay_connections + by,
                ..self
            },
            ConnectionTransport::Stdio => ActiveCounts {
                stdio_connections: self.stdio_connections + by,
                ..self
            },
            ConnectionTransport::WebSocket => ActiveCounts {
                websocket_connections: self.websocket_connections + by,
                ..self
            },
        }
    }

    /// The counts once `event` has happened.
    pub open spec fn after(self, event: TelemetryEvent) -> ActiveCounts {
        match event {
            TelemetryEvent::ConnectionStarted { transport } => self.with_connections(transport, 1),
            TelemetryEvent::ConnectionFinished { transport } => self.with_connections(
                transport,
                -1,
            ),
            TelemetryEvent::RemoteWebSocketConnected => ActiveCounts {
                remote_websockets: self.remote_websockets + 1,
                ..self
            },
            TelemetryEvent::RemoteWebSocketDisconnected => ActiveCounts {
                remote_websockets: self.remote_websockets - 1,
                ..self
            },
            TelemetryEvent::ProcessStarted => ActiveCounts {
                processes: self.processes + 1,
                ..self
            },
            TelemetryEvent::ProcessFinished { .. } => ActiveCounts {
                processes: self.processes - 1,
                ..self
            },
            _ => self,
        }
    }

    /// The counts once all of `events` have happened, in their order.
    pub open spec fn after_all(self, events: Seq<TelemetryEvent>) -> ActiveCounts
        decreases events.len(),
    {
        if events.len() == 0 {
            self
        } else {
            self.after_all(events.drop_last()).after(events.last())
        }
    }
}

/// One more of what a metric counts.
pub open spec fn counter(
    name: &str,
    description: &str,
    tags: Seq<(Seq<char>, Seq<char>)>,
) -> ReportView {
    ReportView { name: name@, description: description@, value: MetricValue::Counter(1), tags }
}

/// A metric stands at `value`.
pub open spec fn gauge(
    name: &str,
    description: &str,
    value: int,
    tags: Seq<(Seq<char>, Seq<char>)>,
) -> ReportView {
    ReportView {
        name: name@,
        description: description@,
        value: MetricValue::Gauge(value as i64),
        tags,
    }
}

/// What a metric times took this long.
pub open spec fn timing(
    name: &str,
    description: &str,
    duration: Duration,
    tags: Seq<(Seq<char>, Seq<char>)>,
) -> ReportView {
    ReportView {
        name: name@,
        description: description@,
        value: MetricValue::Duration(duration),
        tags,
    }
}

impl TelemetryEvent {
    /// What is reported of the event, in this order; `counts` are the counts after it.
    pub open spec fn reports(self, counts: ActiveCounts) -> Seq<ReportView> {
        match self {
            TelemetryEvent::ConnectionStarted { transport } => seq![
                gauge(
                    CONNECTIONS_ACTIVE_METRIC,
                    CONNECTIONS_ACTIVE_DESCRIPTION,
                    counts.connections(transport),
                    seq![("transport"@, transport.tag())],
                ),
                counter(
                    CONNECTIONS_TOTAL_METRIC,
                    CONNECTIONS_TOTAL_DESCRIPTION,
                    seq![("transport"@, transport.tag()), ("result"@, "accepted"@)],
                ),
            ],
            TelemetryEvent::ConnectionFinished { transport } => seq![
                gauge(
                    CONNECTIONS_ACTIVE_METRIC,
                    CONNECTIONS_ACTIVE_DESCRIPTION,
                    counts.connections(transport),
                    seq![("transport"@, transport.tag())],
                ),
            ],
            TelemetryEvent::RemoteRegistrationCompleted { result, duration } => seq![
                counter(
                    REMOTE_REGISTRATION_TOTAL_METRIC,
                    REMOTE_REGISTRATION_TOTAL_DESCRIPTION,
                    seq![("result"@, result)],
                ),
                timing(
                    REMOTE_REGISTRATION_DURATION_METRIC,
                    REMOTE_REGISTRATION_DURATION_DESCRIPTION,
                    duration,
                    seq![("result"@, result)],
                ),
            ],
            TelemetryEvent::RemoteWebSocketConnected => seq![
                gauge(
                    REMOTE_WEBSOCKET_ACTIVE_METRIC,
                    REMOTE_WEBSOCKET_ACTIVE_DESCRIPTION,
                    counts.remote_websockets,
                    seq![],
                ),
            ],
            TelemetryEvent::RemoteWebSocketDisconnected => seq![
                gauge(
                    REMOTE_WEBSOCKET_ACTIVE_METRIC,
                    REMOTE_WEBSOCKET_ACTIVE_DESCRIPTION,
                    counts.remote_websockets,
                    seq![],
                ),
            ],
            TelemetryEvent::RemoteWebSocketConnectCompleted { result, duration } => seq![
                counter(
                    REMOTE_WEBSOCKET_CONNECT_TOTAL_METRIC,
                    REMOTE_WEBSOCKET_CONNECT_TOTAL_DESCRIPTION,
                    seq![("result"@, result)],
                ),
                timing(
                    REMOTE_WEBSOCKET_CONNECT_DURATION_METRIC,
                    REMOTE_WEBSOCKET_CONNECT_DURATION_DESCRIPTION,
                    duration,
                    seq![("result"@, result)],
                ),
            ],
            TelemetryEvent::RemoteWebSocketReconnect { reason } => seq![
                counter(
                    REMOTE_WEBSOCKET_RECONNECTS_METRIC,
                    REMOTE_WEBSOCKET_RECONNECTS_DESCRIPTION,
                    seq![("reason"@, reason)],
                ),
            ],
            TelemetryEvent::RequestCompleted { method, result, duration } => seq![
                counter(
                    REQUESTS_TOTAL_METRIC,
                    REQUESTS_TOTAL_DESCRIPTION,
                    seq![("method"@, method), ("result"@, result)],
                ),
                timing(
                    REQUEST_DURATION_METRIC,
                    REQUEST_DURATION_DESCRIPTION,
                    duration,
                    seq![("method"@, method), ("result"@, result)],
                ),
            ],
            TelemetryEvent::ProcessStarted => seq![
                gauge(
                    PROCESSES_ACTIVE_METRIC,
                    PROCESSES_ACTIVE_DESCRIPTION,
                    counts.processes,
                    seq![],
                ),
            ],
            TelemetryEvent::ProcessFinished { result, duration } => seq![
                gauge(
                    PROCESSES_ACTIVE_METRIC,
                    PROCESSES_ACTIVE_DESCRIPTION,
                    counts.processes,
                    seq![],
                ),
                counter(
                    PROCESSES_FINISHED_TOTAL_METRIC,
                    PROCESSES_FINISHED_TOTAL_DESCRIPTION,
                    seq![("result"@, result)],
                ),
                timing(
                    PROCESS_DURATION_METRIC,
                    PROCESS_DURATION_DESCRIPTION,
                    duration,
                    seq![("result"@, result)],
                ),
            ],
        }
    }
}

struct ExecServerTelemetryInner {
    relay_connections: i64,
    stdio_connections: i64,
    websocket_connections: i64,
    remote_websockets: i64,
    active_processes: i64,
}

impl View for ExecServerTelemetryInner {
    type V = ActiveCounts;

    closed spec fn view(&self) -> ActiveCounts {
        ActiveCounts {
            relay_connections: self.relay_connections as int,
            stdio_connections: self.stdio_connections as int,
            websocket_connections: self.websocket_connections as int,
            remote_websockets: self.remote_websockets as int,
            processes: self.active_processes as int,
        }
    }
}

/// The exec server's telemetry: switched off, or the counts of what is active.
pub struct ExecServerTelemetry {
    inner: Option<ExecServerTelemetryInner>,
}

impl View for ExecServerTelemetry {
    type V = Option<ActiveCounts>;

    closed spec fn view(&self) -> Option<ActiveCounts> {
        match self.inner {
            Some(inner) => Some(inner@),
            None => None,
        }
    }
}

impl Default for ExecServerTelemetry {
    /// Telemetry is switched off unless asked for.
    fn default() -> (telemetry: Self)
        ensures
            telemetry@ is None,
    {
        ExecServerTelemetry { inner: None }
    }
}

/// The counts after `event`; telemetry that is switched off stays so.
pub open spec fn telemetry_after(
    telemetry: Option<ActiveCounts>,
    event: TelemetryEvent,
) -> Option<ActiveCounts> {
    match telemetry {
        Some(counts) => Some(counts.after(event)),
        None => None,
    }
}

/// What is reported of `event`; telemetry that is switched off reports nothing.
pub open spec fn reports_of(
    telemetry: Option<ActiveCounts>,
    event: TelemetryEvent,
) -> Seq<ReportView> {
    match telemetry {
        Some(counts) => event.reports(counts.after(event)),
        None => seq![],
    }
}

/// Stands for an active connection. It is given back when the connection is over.
pub struct ConnectionMetricGuard {
    transport: ConnectionTransport,
}

impl ConnectionMetricGuard {
    /// How the connection is made.
    pub closed spec fn of(&self) -> ConnectionTransport {
        self.transport
    }

    /// How the connection is made.
    pub fn transport(&self) -> (transport: ConnectionTransport)
        ensures
            transport == self.of(),
    {
        self.transport
    }
}

/// Stands for an active remote WebSocket. It is given back when the WebSocket is closed.
pub struct RemoteWebSocketMetricGuard {
    _private: (),
}

impl ExecServerTelemetryInner {
    fn connection_counter(&mut self, transport: ConnectionTransport) -> (counter: &mut i64)
        ensures
            *counter == old(self)@.connections(transport),
            final(self)@ == old(self)@.with_connections(
                transport,
                *final(counter) - old(self)@.connections(transport),
            ),
    {
        match transport {
            ConnectionTransport::Relay => &mut self.relay_connections,
            ConnectionTransport::Stdio => &mut self.stdio_connections,
            ConnectionTransport::WebSocket => &mut self.websocket_connections,
        }
    }

    fn counter(
        name: &'static str,
        description: &'static str,
        tags: Vec<(&'static str, &'static str)>,
    ) -> (report: MetricReport)
        ensures
            report@ == counter(name, description, tags.deep_view()),
    {
        MetricReport { name, description, value: MetricValue::Counter(1), tags }
    }

    fn duration(
        name: &'static str,
        description: &'static str,
        duration: Duration,
        tags: Vec<(&'static str, &'static str)>,
    ) -> (report: MetricReport)
        ensures
            report@ == timing(name, description, duration, tags.deep_view()),
    {
        MetricReport { name, description, value: MetricValue::Duration(duration), tags }
    }

    fn gauge(
        name: &'static str,
        description: &'static str,
        value: i64,
        tags: Vec<(&'static str, &'static str)>,
    ) -> (report: MetricReport)
        ensures
            report@ == gauge(name, description, value as int, tags.deep_view()),
    {
        MetricReport { name, description, value: MetricValue::Gauge(value), tags }
    }
}

fn one_tag(key: &'static str, value: &'static str) -> (tags: Vec<(&'static str, &'static str)>)
    ensures
        tags.deep_view() == seq![(key@, value@)],
{
    let tags = vec![(key, value)];
    assert(tags.deep_view() =~= seq![(key@, value@)]);
    tags
}

fn two_tags(
    key: &'static str,
    value: &'static str,
    other_key: &'static str,
    other_value: &'static str,
) -> (tags: Vec<(&'static str, &'static str)>)
    ensures
        tags.deep_view() == seq![(key@, value@), (other_key@, other_value@)],
{
    let tags = vec![(key, value), (other_key, other_value)];
    assert(tags.deep_view() =~= seq![(key@, value@), (other_key@, other_value@)]);
    tags
}

fn no_tags() -> (tags: Vec<(&'static str, &'static str)>)
    ensures
        tags.deep_view() == Seq::<(Seq<char>, Seq<char>)>::empty(),
{
    let tags: Vec<(&'static str, &'static str)> = Vec::new();
    assert(tags.deep_view() =~= Seq::<(Seq<char>, Seq<char>)>::empty());
    tags
}

impl ExecServerTelemetry {
    /// Telemetry with nothing active, or switched off where there is no metrics client.
    pub fn new(has_metrics_client: bool) -> (telemetry: Self)
        ensures
            telemetry@ == if has_metrics_client {
                Some(ActiveCounts::zero())
            } else {
                None
            },
    {
        ExecServerTelemetry {
            inner: if has_metrics_client {
                Some(
                    ExecServerTelemetryInner {
                        relay_connections: 0,
                        stdio_connections: 0,
                        websocket_connections: 0,
                        remote_websockets: 0,
                        active_processes: 0,
                    },
                )
            } else {
                None
            },
        }
    }

    /// A client has connected.
    pub fn connection_started(&mut self, transport: ConnectionTransport) -> (r: (
        ConnectionMetricGuard,
        Vec<MetricReport>,
    ))
        requires
            old(self)@ matches Some(counts) ==> counts.connections(transport) < i64::MAX,
        ensures
            r.0.of() == transport,
            final(self)@ == telemetry_after(
                old(self)@,
                TelemetryEvent::ConnectionStarted { transport },
            ),
            r.1.deep_view() == reports_of(
                old(self)@,
                TelemetryEvent::ConnectionStarted { transport },
            ),
    {
        let ghost expected = reports_of(self@, TelemetryEvent::ConnectionStarted { transport });
        let mut reports: Vec<MetricReport> = Vec::new();
        if let Some(inner) = &mut self.inner {
            let counter = inner.connection_counter(transport);
            let active: i64 = *counter + 1;
            *counter = active;
            reports.push(
                ExecServerTelemetryInner::gauge(
                    CONNECTIONS_ACTIVE_METRIC,
                    CONNECTIONS_ACTIVE_DESCRIPTION,
                    active,
                    one_tag("transport", transport.metric_tag()),
                ),
            );
            reports.push(
                ExecServerTelemetryInner::counter(
                    CONNECTIONS_TOTAL_METRIC,
                    CONNECTIONS_TOTAL_DESCRIPTION,
                    two_tags("transport", transport.metric_tag(), "result", "accepted"),
                ),
            );
        }
        assert(reports.deep_view() =~= expected);
        (ConnectionMetricGuard { transport }, reports)
    }

    /// The connection that `guard` stands for is over.
    pub fn connection_finished(
        &mut self,
        guard: ConnectionMetricGuard,
    ) -> (reports: Vec<MetricReport>)
        requires
            old(self)@ matches Some(counts) ==> counts.connections(guard.of()) > i64::MIN,
        ensures
            final(self)@ == telemetry_after(
                old(self)@,
                TelemetryEvent::ConnectionFinished { transport: guard.of() },
            ),
            reports.deep_view() == reports_of(
                old(self)@,
                TelemetryEvent::ConnectionFinished { transport: guard.of() },
            ),
    {
        let ghost expected = reports_of(
            self@,
            TelemetryEvent::ConnectionFinished { transport: guard.of() },
        );
        let mut reports: Vec<MetricReport> = Vec::new();
        if let Some(inner) = &mut self.inner {
            let counter = inner.connection_counter(guard.transport);
            let active: i64 = *counter - 1;
            *counter = active;
            reports.push(
                ExecServerTelemetryInner::gauge(
                    CONNECTIONS_ACTIVE_METRIC,
                    CONNECTIONS_ACTIVE_DESCRIPTION,
                    active,
                    one_tag("transport", guard.transport.metric_tag()),
                ),
            );
        }
        assert(reports.deep_view() =~= expected);
        reports
    }

    /// An attempt to register with the remote side is over.
    pub fn remote_registration_completed(
        &self,
        result: &'static str,
        duration: Duration,
    ) -> (reports: Vec<MetricReport>)
        ensures
            reports.deep_view() == reports_of(
                self@,
                TelemetryEvent::RemoteRegistrationCompleted { result: result@, duration },
            ),
    {
        let ghost expected = reports_of(
            self@,
            TelemetryEvent::RemoteRegistrationCompleted { result: result@, duration },
        );
        let mut reports: Vec<MetricReport> = Vec::new();
        if let Some(_) = &self.inner {
            reports.push(
                ExecServerTelemetryInner::counter(
                    REMOTE_REGISTRATION_TOTAL_METRIC,
                    REMOTE_REGISTRATION_TOTAL_DESCRIPTION,
                    one_tag("result", result),
                ),
            );
            reports.push(
                ExecServerTelemetryInner::duration(
                    REMOTE_REGISTRATION_DURATION_METRIC,
                    REMOTE_REGISTRATION_DURATION_DESCRIPTION,
                    duration,
                    one_tag("result", result),
                ),
            );
        }
        assert(reports.deep_view() =~= expected);
        reports
    }

    /// A remote WebSocket has been opened.
    pub fn remote_websocket_connected(
        &mut self,
    ) -> (r: (RemoteWebSocketMetricGuard, Vec<MetricReport>))
        requires
            old(self)@ matches Some(counts) ==> counts.remote_websockets < i64::MAX,
        ensures
            final(self)@ == telemetry_after(old(self)@, TelemetryEvent::RemoteWebSocketConnected),
            r.1.deep_view() == reports_of(old(self)@, TelemetryEvent::RemoteWebSocketConnected),
    {
        let ghost expected = reports_of(self@, TelemetryEvent::RemoteWebSocketConnected);
        let mut reports: Vec<MetricReport> = Vec::new();
        if let Some(inner) = &mut self.inner {
            let active: i64 = inner.remote_websockets + 1;
            inner.remote_websockets = active;
            reports.push(
                ExecServerTelemetryInner::gauge(
                    REMOTE_WEBSOCKET_ACTIVE_METRIC,
                    REMOTE_WEBSOCKET_ACTIVE_DESCRIPTION,
                    active,
                    no_tags(),
                ),
            );
        }
        assert(reports.deep_view() =~= expected);
        (RemoteWebSocketMetricGuard { _private: () }, reports)
    }

    /// The remote WebSocket that `guard` stands for is closed.
    pub fn remote_websocket_disconnected(
        &mut self,
        guard: RemoteWebSocketMetricGuard,
    ) -> (reports: Vec<MetricReport>)
        requires
            old(self)@ matches Some(counts) ==> counts.remote_websockets > i64::MIN,
        ensures
            final(self)@ == telemetry_after(
                old(self)@,
                TelemetryEvent::RemoteWebSocketDisconnected,
            ),
            reports.deep_view() == reports_of(
                old(self)@,
                TelemetryEvent::RemoteWebSocketDisconnected,
            ),
    {
        let ghost expected = reports_of(self@, TelemetryEvent::RemoteWebSocketDisconnected);
        let mut reports: Vec<MetricReport> = Vec::new();
        if let Some(inner) = &mut self.inner {
            let active: i64 = inner.remote_websockets - 1;
            inner.remote_websockets = active;
            reports.push(
                ExecServerTelemetryInner::gauge(
                    REMOTE_WEBSOCKET_ACTIVE_METRIC,
                    REMOTE_WEBSOCKET_ACTIVE_DESCRIPTION,
                    active,
                    no_tags(),
                ),
            );
        }
        assert(reports.deep_view() =~= expected);
        reports
    }

    /// An attempt to open a remote WebSocket is over.
    pub fn remote_websocket_connect_completed(
        &self,
        result: &'static str,
        duration: Duration,
    ) -> (reports: Vec<MetricReport>)
        ensures
            reports.deep_view() == reports_of(
                self@,
                TelemetryEvent::RemoteWebSocketConnectCompleted { result: result@, duration },
            ),
    {
        let ghost expected = reports_of(
            self@,
            TelemetryEvent::RemoteWebSocketConnectCompleted { result: result@, duration },
        );
        let mut reports: Vec<MetricReport> = Vec::new();
        if let Some(_) = &self.inner {
            reports.push(
                ExecServerTelemetryInner::counter(
                    REMOTE_WEBSOCKET_CONNECT_TOTAL_METRIC,
                    REMOTE_WEBSOCKET_CONNECT_TOTAL_DESCRIPTION,
                    one_tag("result", result),
                ),
            );
            reports.push(
                ExecServerTelemetryInner::duration(
                    REMOTE_WEBSOCKET_CONNECT_DURATION_METRIC,
                    REMOTE_WEBSOCKET_CONNECT_DURATION_DESCRIPTION,
                    duration,
                    one_tag("result", result),
                ),
            );
        }
        assert(reports.deep_view() =~= expected);
        reports
    }

    /// A remote WebSocket is opened anew.
    pub fn remote_websocket_reconnect(&self, reason: &'static str) -> (reports: Vec<MetricReport>)
        ensures
            reports.deep_view() == reports_of(
                self@,
                TelemetryEvent::RemoteWebSocketReconnect { reason: reason@ },
            ),
    {
        let ghost expected = reports_of(
            self@,
            TelemetryEvent::RemoteWebSocketReconnect { reason: reason@ },
        );
        let mut reports: Vec<MetricReport> = Vec::new();
        if let Some(_) = &self.inner {
            reports.push(
                ExecServerTelemetryInner::counter(
                    REMOTE_WEBSOCKET_RECONNECTS_METRIC,
                    REMOTE_WEBSOCKET_RECONNECTS_DESCRIPTION,
                    one_tag("reason", reason),
                ),
            );
        }
        assert(reports.deep_view() =~= expected);
        reports
    }

    /// A request has been answered.
    pub fn request_completed(
        &self,
        method: &'static str,
        result: &'static str,
        duration: Duration,
    ) -> (reports: Vec<MetricReport>)
        ensures
            reports.deep_view() == reports_of(
                self@,
                TelemetryEvent::RequestCompleted { method: method@, result: result@, duration },
            ),
    {
        let ghost expected = reports_of(
            self@,
            TelemetryEvent::RequestCompleted { method: method@, result: result@, duration },
        );
        let mut reports: Vec<MetricReport> = Vec::new();
        if let Some(_) = &self.inner {
            reports.push(
                ExecServerTelemetryInner::counter(
                    REQUESTS_TOTAL_METRIC,
                    REQUESTS_TOTAL_DESCRIPTION,
                    two_tags("method", method, "result", result),
                ),
            );
            reports.push(
                ExecServerTelemetryInner::duration(
                    REQUEST_DURATION_METRIC,
                    REQUEST_DURATION_DESCRIPTION,
                    duration,
                    two_tags("method", method, "result", result),
                ),
            );
        }
        assert(reports.deep_view() =~= expected);
        reports
    }

    /// A process has been started.
    pub fn process_started(&mut self) -> (reports: Vec<MetricReport>)
        requires
            old(self)@ matches Some(counts) ==> counts.processes < i64::MAX,
        ensures
            final(self)@ == telemetry_after(old(self)@, TelemetryEvent::ProcessStarted),
            reports.deep_view() == reports_of(old(self)@, TelemetryEvent::ProcessStarted),
    {
        let ghost expected = reports_of(self@, TelemetryEvent::ProcessStarted);
        let mut reports: Vec<MetricReport> = Vec::new();
        if let Some(inner) = &mut self.inner {
            let active: i64 = inner.active_processes + 1;
            inner.active_processes = active;
            reports.push(
                ExecServerTelemetryInner::gauge(
                    PROCESSES_ACTIVE_METRIC,
                    PROCESSES_ACTIVE_DESCRIPTION,
                    active,
                    no_tags(),
                ),
            );
        }
        assert(reports.deep_view() =~= expected);
        reports
    }

    /// A process has ended.
    pub fn process_finished(
        &mut self,
        result: &'static str,
        duration: Duration,
    ) -> (reports: Vec<MetricReport>)
        requires
            old(self)@ matches Some(counts) ==> counts.processes > i64::MIN,
        ensures
            final(self)@ == telemetry_after(
                old(self)@,
                TelemetryEvent::ProcessFinished { result: result@, duration },
            ),
            reports.deep_view() == reports_of(
                old(self)@,
                TelemetryEvent::ProcessFinished { result: result@, duration },
            ),
    {
        let ghost expected = reports_of(
            self@,
            TelemetryEvent::ProcessFinished { result: result@, duration },
        );
        let mut reports: Vec<MetricReport> = Vec::new();
        if let Some(inner) = &mut self.inner {
            let active: i64 = inner.active_processes - 1;
            inner.active_processes = active;
            reports.push(
                ExecServerTelemetryInner::gauge(
                    PROCESSES_ACTIVE_METRIC,
                    PROCESSES_ACTIVE_DESCRIPTION,
                    active,
                    no_tags(),
                ),
            );
            reports.push(
                ExecServerTelemetryInner::counter(
                    PROCESSES_FINISHED_TOTAL_METRIC,
                    PROCESSES_FINISHED_TOTAL_DESCRIPTION,
                    one_tag("result", result),
                ),
            );
            reports.push(
                ExecServerTelemetryInner::duration(
                    PROCESS_DURATION_METRIC,
                    PROCESS_DURATION_DESCRIPTION,
                    duration,
                    one_tag("result", result),
                ),
            );
        }
        assert(reports.deep_view() =~= expected);
        reports
    }

    /// The active connections of one transport; none are counted where telemetry is switched off.
    pub fn active_connections(&self, transport: ConnectionTransport) -> (active: Option<i64>)
        ensures
            match self@ {
                Some(counts) => active matches Some(n) && n == counts.connections(transport),
                None => active is None,
            },
    {
        match &self.inner {
            Some(inner) => Some(
                match transport {
                    ConnectionTransport::Relay => inner.relay_connections,
                    ConnectionTransport::Stdio => inner.stdio_connections,
                    ConnectionTransport::WebSocket => inner.websocket_connections,
                },
            ),
            None => None,
        }
    }

    /// The active remote WebSockets; none are counted where telemetry is switched off.
    pub fn active_remote_websockets(&self) -> (active: Option<i64>)
        ensures
            match self@ {
                Some(counts) => active matches Some(n) && n == counts.remote_websockets,
                None => active is None,
            },
    {
        match &self.inner {
            Some(inner) => Some(inner.remote_websockets),
            None => None,
        }
    }

    /// The active processes; none are counted where telemetry is switched off.
    pub fn active_processes(&self) -> (active: Option<i64>)
        ensures
            match self@ {
                Some(counts) => active matches Some(n) && n == counts.processes,
                None => active is None,
            },
    {
        match &self.inner {
            Some(inner) => Some(inner.active_processes),
            None => None,
        }
    }
}

} // verus!
