//! What holds of the exec server's telemetry over time.
use vstd::prelude::*;

use crate::telemetry::{
    reports_of, telemetry_after, ActiveCounts, ConnectionTransport, MetricValue, ReportView,
    TelemetryEvent,
    CONNECTIONS_ACTIVE_DESCRIPTION, CONNECTIONS_ACTIVE_METRIC, CONNECTIONS_TOTAL_DESCRIPTION,
    CONNECTIONS_TOTAL_METRIC, PROCESSES_ACTIVE_DESCRIPTION, PROCESSES_ACTIVE_METRIC,
    PROCESSES_FINISHED_TOTAL_DESCRIPTION, PROCESSES_FINISHED_TOTAL_METRIC,
    PROCESS_DURATION_DESCRIPTION, PROCESS_DURATION_METRIC,
    REMOTE_REGISTRATION_DURATION_DESCRIPTION, REMOTE_REGISTRATION_DURATION_METRIC,
    REMOTE_REGISTRATION_TOTAL_DESCRIPTION, REMOTE_REGISTRATION_TOTAL_METRIC,
    REMOTE_WEBSOCKET_ACTIVE_DESCRIPTION, REMOTE_WEBSOCKET_ACTIVE_METRIC,
    REMOTE_WEBSOCKET_CONNECT_DURATION_DESCRIPTION, REMOTE_WEBSOCKET_CONNECT_DURATION_METRIC,
    REMOTE_WEBSOCKET_CONNECT_TOTAL_DESCRIPTION, REMOTE_WEBSOCKET_CONNECT_TOTAL_METRIC,
    REMOTE_WEBSOCKET_RECONNECTS_DESCRIPTION, REMOTE_WEBSOCKET_RECONNECTS_METRIC,
    REQUESTS_TOTAL_DESCRIPTION, REQUESTS_TOTAL_METRIC, REQUEST_DURATION_DESCRIPTION,
    REQUEST_DURATION_METRIC,
};

verus! {

/// How many of `events` are connections of one transport that start.
pub open spec fn connections_started(
    events: Seq<TelemetryEvent>,
    transport: ConnectionTransport,
) -> nat {
    events.filter(|event: TelemetryEvent| event == TelemetryEvent::ConnectionStarted { transport })
        .len()
}

/// How many of `events` are connections of one transport that finish.
pub open spec fn connections_finished(
    events: Seq<TelemetryEvent>,
    transport: ConnectionTransport,
) -> nat {
    events.filter(
        |event: TelemetryEvent| event == TelemetryEvent::ConnectionFinished { transport },
    ).len()
}

/// How many of `events` are remote WebSockets that open.
pub open spec fn websockets_connected(events: Seq<TelemetryEvent>) -> nat {
    events.filter(|event: TelemetryEvent| event is RemoteWebSocketConnected).len()
}

/// How many of `events` are remote WebSockets that close.
pub open spec fn websockets_disconnected(events: Seq<TelemetryEvent>) -> nat {
    events.filter(|event: TelemetryEvent| event is RemoteWebSocketDisconnected).len()
}

/// How many of `events` are processes that start.
pub open spec fn processes_started(events: Seq<TelemetryEvent>) -> nat {
    events.filter(|event: TelemetryEvent| event is ProcessStarted).len()
}

/// How many of `events` are processes that end.
pub open spec fn processes_finished(events: Seq<TelemetryEvent>) -> nat {
    events.filter(|event: TelemetryEvent| event is ProcessFinished).len()
}

/// Whatever happens, what is counted as active is what has started and has not finished.
pub proof fn law_counts_balance(
    counts: ActiveCounts,
    events: Seq<TelemetryEvent>,
    transport: ConnectionTransport,
)
    ensures
        counts.after_all(events).connections(transport) == counts.connections(transport)
            + connections_started(events, transport) - connections_finished(events, transport),
        counts.after_all(events).remote_websockets == counts.remote_websockets
            + websockets_connected(events) - websockets_disconnected(events),
        counts.after_all(events).processes == counts.processes + processes_started(events)
            - processes_finished(events),
    decreases events.len(),
{
    reveal(Seq::filter);
    if events.len() > 0 {
        law_counts_balance(counts, events.drop_last(), transport);
    }
}

/// What has started and then finished leaves the counts as they were.
pub proof fn law_finishing_undoes_starting(
    counts: ActiveCounts,
    transport: ConnectionTransport,
    result: Seq<char>,
    duration: std::time::Duration,
)
    ensures
        counts.after(TelemetryEvent::ConnectionStarted { transport }).after(
            TelemetryEvent::ConnectionFinished { transport },
        ) == counts,
        counts.after(TelemetryEvent::RemoteWebSocketConnected).after(
            TelemetryEvent::RemoteWebSocketDisconnected,
        ) == counts,
        counts.after(TelemetryEvent::ProcessStarted).after(
            TelemetryEvent::ProcessFinished { result, duration },
        ) == counts,
{
}

/// The counts do not depend on the order of events.
pub proof fn law_order_does_not_matter(
    counts: ActiveCounts,
    first: TelemetryEvent,
    second: TelemetryEvent,
)
    ensures
        counts.after(first).after(second) == counts.after(second).after(first),
{
}

/// A connection of one transport leaves every other count alone.
pub proof fn law_transports_are_counted_apart(
    counts: ActiveCounts,
    transport: ConnectionTransport,
    other: ConnectionTransport,
    event: TelemetryEvent,
)
    requires
        transport != other,
        event == (TelemetryEvent::ConnectionStarted { transport }) || event == (
        TelemetryEvent::ConnectionFinished { transport }),
    ensures
        counts.after(event).connections(other) == counts.connections(other),
        counts.after(event).remote_websockets == counts.remote_websockets,
        counts.after(event).processes == counts.processes,
{
}

/// The report is one of the known metrics, under its own description, with a value of its kind
/// and with its tags.
pub open spec fn is_known_metric(report: ReportView) -> bool {
    let keys = report.tags.map_values(|tag: (Seq<char>, Seq<char>)| tag.0);
    let is = |name: Seq<char>, description: Seq<char>, tags: Seq<Seq<char>>|
        report.name == name && report.description == description && keys == tags;
    match report.value {
        MetricValue::Counter(increment) => {
            &&& increment == 1
            &&& {
                ||| is(
                    CONNECTIONS_TOTAL_METRIC@,
                    CONNECTIONS_TOTAL_DESCRIPTION@,
                    seq!["transport"@, "result"@],
                )
                ||| is(
                    REMOTE_REGISTRATION_TOTAL_METRIC@,
                    REMOTE_REGISTRATION_TOTAL_DESCRIPTION@,
                    seq!["result"@],
                )
                ||| is(
                    REMOTE_WEBSOCKET_CONNECT_TOTAL_METRIC@,
                    REMOTE_WEBSOCKET_CONNECT_TOTAL_DESCRIPTION@,
                    seq!["result"@],
                )
                ||| is(
                    REMOTE_WEBSOCKET_RECONNECTS_METRIC@,
                    REMOTE_WEBSOCKET_RECONNECTS_DESCRIPTION@,
                    seq!["reason"@],
                )
                ||| is(
                    REQUESTS_TOTAL_METRIC@,
                    REQUESTS_TOTAL_DESCRIPTION@,
                    seq!["method"@, "result"@],
                )
                ||| is(
                    PROCESSES_FINISHED_TOTAL_METRIC@,
                    PROCESSES_FINISHED_TOTAL_DESCRIPTION@,
                    seq!["result"@],
                )
            }
        },
        MetricValue::Gauge(_) => {
            ||| is(CONNECTIONS_ACTIVE_METRIC@, CONNECTIONS_ACTIVE_DESCRIPTION@, seq!["transport"@])
            ||| is(REMOTE_WEBSOCKET_ACTIVE_METRIC@, REMOTE_WEBSOCKET_ACTIVE_DESCRIPTION@, seq![])
            ||| is(PROCESSES_ACTIVE_METRIC@, PROCESSES_ACTIVE_DESCRIPTION@, seq![])
        },
        MetricValue::Duration(_) => {
            ||| is(
                REMOTE_REGISTRATION_DURATION_METRIC@,
                REMOTE_REGISTRATION_DURATION_DESCRIPTION@,
                seq!["result"@],
            )
            ||| is(
                REMOTE_WEBSOCKET_CONNECT_DURATION_METRIC@,
                REMOTE_WEBSOCKET_CONNECT_DURATION_DESCRIPTION@,
                seq!["result"@],
            )
            ||| is(
                REQUEST_DURATION_METRIC@,
                REQUEST_DURATION_DESCRIPTION@,
                seq!["method"@, "result"@],
            )
            ||| is(PROCESS_DURATION_METRIC@, PROCESS_DURATION_DESCRIPTION@, seq!["result"@])
        },
    }
}

/// Nothing but the known metrics is ever reported, and every event reports something.
pub proof fn law_reports_are_bounded(event: TelemetryEvent, counts: ActiveCounts)
    ensures
        1 <= event.reports(counts).len() <= 3,
        forall|i: int|
            0 <= i < event.reports(counts).len() ==> is_known_metric(
                #[trigger] event.reports(counts)[i],
            ),
{
    let reports = event.reports(counts);
    assert forall|i: int| 0 <= i < reports.len() implies is_known_metric(#[trigger] reports[i]) by {
        let tags = reports[i].tags;
        let keys = tags.map_values(|tag: (Seq<char>, Seq<char>)| tag.0);
        if tags.len() == 0 {
            assert(keys =~= seq![]);
        } else if tags.len() == 1 {
            assert(keys =~= seq![tags[0].0]);
        } else {
            assert(keys =~= seq![tags[0].0, tags[1].0]);
        }
    }
}

/// Telemetry begins with nothing active.
pub proof fn law_nothing_is_active_at_first(transport: ConnectionTransport)
    ensures
        ActiveCounts::zero().connections(transport) == 0,
        ActiveCounts::zero().remote_websockets == 0,
        ActiveCounts::zero().processes == 0,
{
}

/// Each count moves by one with what it counts, up at its start and down at its end, and with
/// nothing else. Telemetry that is switched off stays so and reports nothing.
pub proof fn law_counts_follow_events(counts: ActiveCounts, event: TelemetryEvent)
    ensures
        telemetry_after(Some(counts), event) == Some(
            ActiveCounts {
                relay_connections: counts.relay_connections + connection_change(
                    event,
                    ConnectionTransport::Relay,
                ),
                stdio_connections: counts.stdio_connections + connection_change(
                    event,
                    ConnectionTransport::Stdio,
                ),
                websocket_connections: counts.websocket_connections + connection_change(
                    event,
                    ConnectionTransport::WebSocket,
                ),
                remote_websockets: counts.remote_websockets + (if event
                    is RemoteWebSocketConnected {
                    1int
                } else if event is RemoteWebSocketDisconnected {
                    -1
                } else {
                    0
                }),
                processes: counts.processes + (if event is ProcessStarted {
                    1int
                } else if event is ProcessFinished {
                    -1
                } else {
                    0
                }),
            },
        ),
        telemetry_after(None, event) is None,
        reports_of(None, event).len() == 0,
{
}

/// By how much an event changes the active connections of one transport.
pub open spec fn connection_change(event: TelemetryEvent, transport: ConnectionTransport) -> int {
    if event == (TelemetryEvent::ConnectionStarted { transport }) {
        1
    } else if event == (TelemetryEvent::ConnectionFinished { transport }) {
        -1
    } else {
        0
    }
}

/// A request is counted once and timed once, under its own method, its own result and its own
/// duration.
pub proof fn law_requests_are_reported(
    counts: ActiveCounts,
    method: Seq<char>,
    result: Seq<char>,
    duration: std::time::Duration,
)
    ensures
        reports_of(
            Some(counts),
            TelemetryEvent::RequestCompleted { method, result, duration },
        ) == seq![
            ReportView {
                name: "exec_server_requests_total"@,
                description: "Total number of exec-server requests."@,
                value: MetricValue::Counter(1),
                tags: seq![("method"@, method), ("result"@, result)],
            },
            ReportView {
                name: "exec_server_request_duration_seconds"@,
                description: "Duration of exec-server requests in seconds."@,
                value: MetricValue::Duration(duration),
                tags: seq![("method"@, method), ("result"@, result)],
            },
        ],
{
}

/// An attempt to register, or to open a remote WebSocket, is counted once and timed once, under its
/// own result and its own duration; a reconnect is counted once, under its own reason.
pub proof fn law_attempts_are_reported(
    counts: ActiveCounts,
    result: Seq<char>,
    reason: Seq<char>,
    duration: std::time::Duration,
)
    ensures
        reports_of(
            Some(counts),
            TelemetryEvent::RemoteRegistrationCompleted { result, duration },
        ) == seq![
            ReportView {
                name: "exec_server_remote_registration_total"@,
                description: "Total number of remote exec-server registration attempts."@,
                value: MetricValue::Counter(1),
                tags: seq![("result"@, result)],
            },
            ReportView {
                name: "exec_server_remote_registration_duration_seconds"@,
                description: "Duration of remote exec-server registration attempts in seconds."@,
                value: MetricValue::Duration(duration),
                tags: seq![("result"@, result)],
            },
        ],
        reports_of(
            Some(counts),
            TelemetryEvent::RemoteWebSocketConnectCompleted { result, duration },
        ) == seq![
            ReportView {
                name: "exec_server_remote_websocket_connect_total"@,
                description: "Total number of remote exec-server WebSocket connection attempts."@,
                value: MetricValue::Counter(1),
                tags: seq![("result"@, result)],
            },
            ReportView {
                name: "exec_server_remote_websocket_connect_duration_seconds"@,
                description: "Duration of remote exec-server WebSocket connection attempts in seconds."@,
                value: MetricValue::Duration(duration),
                tags: seq![("result"@, result)],
            },
        ],
        reports_of(Some(counts), TelemetryEvent::RemoteWebSocketReconnect { reason }) == seq![
            ReportView {
                name: "exec_server_remote_websocket_reconnects_total"@,
                description: "Total number of remote exec-server WebSocket reconnects."@,
                value: MetricValue::Counter(1),
                tags: seq![("reason"@, reason)],
            },
        ],
{
}

/// The active processes are reported as they stand after a process has started or ended; an ended
/// process is also counted and timed, under its own result and its own duration.
pub proof fn law_processes_are_reported(
    counts: ActiveCounts,
    active: i64,
    result: Seq<char>,
    duration: std::time::Duration,
)
    ensures
        active == counts.processes + 1 ==> reports_of(
            Some(counts),
            TelemetryEvent::ProcessStarted,
        ) == seq![
            ReportView {
                name: "exec_server_processes_active"@,
                description: "Number of active exec-server processes."@,
                value: MetricValue::Gauge(active),
                tags: seq![],
            },
        ],
        active == counts.processes - 1 ==> reports_of(
            Some(counts),
            TelemetryEvent::ProcessFinished { result, duration },
        ) == seq![
            ReportView {
                name: "exec_server_processes_active"@,
                description: "Number of active exec-server processes."@,
                value: MetricValue::Gauge(active),
                tags: seq![],
            },
            ReportView {
                name: "exec_server_processes_finished_total"@,
                description: "Total number of finished exec-server processes."@,
                value: MetricValue::Counter(1),
                tags: seq![("result"@, result)],
            },
            ReportView {
                name: "exec_server_process_duration_seconds"@,
                description: "Duration of exec-server processes in seconds."@,
                value: MetricValue::Duration(duration),
                tags: seq![("result"@, result)],
            },
        ],
{
}

/// The active remote WebSockets are reported as they stand after one was opened or closed.
pub proof fn law_websockets_are_reported(counts: ActiveCounts, active: i64)
    ensures
        active == counts.remote_websockets + 1 ==> reports_of(
            Some(counts),
            TelemetryEvent::RemoteWebSocketConnected,
        ) == seq![
            ReportView {
                name: "exec_server_remote_websocket_active"@,
                description: "Number of active remote exec-server WebSocket connections."@,
                value: MetricValue::Gauge(active),
                tags: seq![],
            },
        ],
        active == counts.remote_websockets - 1 ==> reports_of(
            Some(counts),
            TelemetryEvent::RemoteWebSocketDisconnected,
        ) == seq![
            ReportView {
                name: "exec_server_remote_websocket_active"@,
                description: "Number of active remote exec-server WebSocket connections."@,
                value: MetricValue::Gauge(active),
                tags: seq![],
            },
        ],
{
}

/// A transport by its name, with the connections that are counted under it.
pub open spec fn counted_under(
    counts: ActiveCounts,
    transport: ConnectionTransport,
) -> (Seq<char>, int) {
    match transport {
        ConnectionTransport::Relay => ("relay"@, counts.relay_connections),
        ConnectionTransport::Stdio => ("stdio"@, counts.stdio_connections),
        ConnectionTransport::WebSocket => ("websocket"@, counts.websocket_connections),
    }
}

/// The active connections of a transport are reported under its name as they stand after one was
/// made or ended; a connection that was made is also counted, as accepted.
pub proof fn law_connections_are_reported(
    counts: ActiveCounts,
    transport: ConnectionTransport,
    active: i64,
)
    ensures
        ({
            let (name, before) = counted_under(counts, transport);
            &&& active == before + 1 ==> reports_of(
                Some(counts),
                TelemetryEvent::ConnectionStarted { transport },
            ) == seq![
                ReportView {
                    name: "exec_server_connections_active"@,
                    description: "Number of active exec-server connections."@,
                    value: MetricValue::Gauge(active),
                    tags: seq![("transport"@, name)],
                },
                ReportView {
                    name: "exec_server_connections_total"@,
                    description: "Total number of accepted exec-server connections."@,
                    value: MetricValue::Counter(1),
                    tags: seq![("transport"@, name), ("result"@, "accepted"@)],
                },
            ]
            &&& active == before - 1 ==> reports_of(
                Some(counts),
                TelemetryEvent::ConnectionFinished { transport },
            ) == seq![
                ReportView {
                    name: "exec_server_connections_active"@,
                    description: "Number of active exec-server connections."@,
                    value: MetricValue::Gauge(active),
                    tags: seq![("transport"@, name)],
                },
            ]
        }),
{
}

/// Two events of one kind are reported alike up to what they carry: the reports have the same
/// metrics in the same order, and a different result shows in every counter and every timing.
pub proof fn law_results_are_told_apart(
    counts: ActiveCounts,
    method: Seq<char>,
    result: Seq<char>,
    other: Seq<char>,
    duration: std::time::Duration,
    i: int,
)
    requires
        result != other,
        0 <= i < 2,
    ensures
        ({
            let reports = reports_of(
                Some(counts),
                TelemetryEvent::RequestCompleted { method, result, duration },
            );
            let others = reports_of(
                Some(counts),
                TelemetryEvent::RequestCompleted { method, result: other, duration },
            );
            &&& reports.len() == 2 && others.len() == 2
            &&& reports[i].name == others[i].name
            &&& reports[i].value == others[i].value
            &&& reports[i].tags != others[i].tags
        }),
{
    let tags = seq![("method"@, method), ("result"@, result)];
    let others = seq![("method"@, method), ("result"@, other)];
    assert(tags[1] != others[1]);
}

} // verus!
