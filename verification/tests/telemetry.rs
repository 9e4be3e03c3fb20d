use std::collections::BTreeMap;
use std::time::Duration;

use codex_session::telemetry::{
    runtime_span, ConnectionTransport, ExecServerTelemetry, MetricReport, MetricValue, SpanLevel,
    CONNECTIONS_ACTIVE_DESCRIPTION, CONNECTIONS_TOTAL_DESCRIPTION, PROCESSES_ACTIVE_DESCRIPTION,
    PROCESSES_FINISHED_TOTAL_DESCRIPTION, PROCESS_DURATION_DESCRIPTION,
    REMOTE_REGISTRATION_DURATION_DESCRIPTION, REMOTE_REGISTRATION_TOTAL_DESCRIPTION,
    REMOTE_WEBSOCKET_ACTIVE_DESCRIPTION, REMOTE_WEBSOCKET_CONNECT_DURATION_DESCRIPTION,
    REMOTE_WEBSOCKET_CONNECT_TOTAL_DESCRIPTION, REMOTE_WEBSOCKET_RECONNECTS_DESCRIPTION,
    REQUESTS_TOTAL_DESCRIPTION, REQUEST_DURATION_DESCRIPTION,
};

type Tags = BTreeMap<String, String>;

fn tags_of(report: &MetricReport) -> Tags {
    report
        .tags
        .iter()
        .map(|(key, value)| (key.to_string(), value.to_string()))
        .collect()
}

fn tags(pairs: &[(&str, &str)]) -> Tags {
    pairs
        .iter()
        .map(|(key, value)| (key.to_string(), value.to_string()))
        .collect()
}

fn named<'a>(reports: &'a [MetricReport], name: &str) -> Vec<&'a MetricReport> {
    let named: Vec<&MetricReport> =
        reports.iter().filter(|report| report.name == name).collect();
    assert!(!named.is_empty(), "metric {name} missing");
    named
}

/// What a collector holds of a metric in the end: counters add up, gauges stand at the last value.
fn metric_points(reports: &[MetricReport], name: &str) -> Vec<(f64, Tags)> {
    let mut points: BTreeMap<Tags, i64> = BTreeMap::new();
    for report in named(reports, name) {
        match report.value {
            MetricValue::Counter(increment) => {
                *points.entry(tags_of(report)).or_insert(0) += increment;
            }
            MetricValue::Gauge(value) => {
                points.insert(tags_of(report), value);
            }
            MetricValue::Duration(_) => panic!("unexpected metric data for {name}"),
        }
    }
    points.into_iter().map(|(tags, value)| (value as f64, tags)).collect()
}

fn durations(reports: &[MetricReport], name: &str) -> Vec<f64> {
    named(reports, name)
        .into_iter()
        .map(|report| match report.value {
            MetricValue::Duration(duration) => duration.as_secs_f64(),
            _ => panic!("unexpected histogram data for {name}"),
        })
        .collect()
}

fn histogram_count(reports: &[MetricReport], name: &str) -> usize {
    durations(reports, name).len()
}

fn histogram_sum(reports: &[MetricReport], name: &str) -> f64 {
    durations(reports, name).into_iter().sum()
}

fn unit(report: &MetricReport) -> &'static str {
    match report.value {
        MetricValue::Duration(_) => "s",
        _ => "",
    }
}

#[test]
fn emits_bounded_exec_server_metrics() {
    let mut telemetry = ExecServerTelemetry::new(true);
    let mut metrics: Vec<MetricReport> = Vec::new();

    let (connection, reports) = telemetry.connection_started(ConnectionTransport::WebSocket);
    metrics.extend(reports);
    metrics.extend(telemetry.remote_registration_completed("success", Duration::from_millis(5)));
    let (remote_websocket, reports) = telemetry.remote_websocket_connected();
    metrics.extend(reports);
    metrics
        .extend(telemetry.remote_websocket_connect_completed("success", Duration::from_millis(7)));
    metrics.extend(telemetry.request_completed(
        "process/start",
        "success",
        Duration::from_millis(12),
    ));
    metrics.extend(telemetry.process_started());
    metrics.extend(telemetry.process_finished("success", Duration::from_millis(34)));
    metrics.extend(telemetry.remote_websocket_reconnect("connect_failed"));
    metrics.extend(telemetry.remote_websocket_disconnected(remote_websocket));
    metrics.extend(telemetry.connection_finished(connection));

    assert_eq!(
        metric_points(&metrics, "exec_server_connections_total"),
        vec![(1.0, tags(&[("result", "accepted"), ("transport", "websocket")]))]
    );
    assert_eq!(
        metric_points(&metrics, "exec_server_connections_active"),
        vec![(0.0, tags(&[("transport", "websocket")]))]
    );
    assert_eq!(
        metric_points(&metrics, "exec_server_remote_registration_total"),
        vec![(1.0, tags(&[("result", "success")]))]
    );
    assert_eq!(
        metric_points(&metrics, "exec_server_remote_websocket_connect_total"),
        vec![(1.0, tags(&[("result", "success")]))]
    );
    assert_eq!(
        metric_points(&metrics, "exec_server_remote_websocket_active"),
        vec![(0.0, tags(&[]))]
    );
    assert_eq!(
        metric_points(&metrics, "exec_server_requests_total"),
        vec![(1.0, tags(&[("method", "process/start"), ("result", "success")]))]
    );
    assert_eq!(
        metric_points(&metrics, "exec_server_processes_active"),
        vec![(0.0, tags(&[]))]
    );
    assert_eq!(
        metric_points(&metrics, "exec_server_processes_finished_total"),
        vec![(1.0, tags(&[("result", "success")]))]
    );
    assert_eq!(
        metric_points(&metrics, "exec_server_remote_websocket_reconnects_total"),
        vec![(1.0, tags(&[("reason", "connect_failed")]))]
    );
    assert_eq!(
        histogram_count(&metrics, "exec_server_remote_registration_duration_seconds"),
        1
    );
    assert_eq!(
        histogram_count(&metrics, "exec_server_remote_websocket_connect_duration_seconds"),
        1
    );
    assert_eq!(histogram_count(&metrics, "exec_server_request_duration_seconds"), 1);
    assert_eq!(histogram_count(&metrics, "exec_server_process_duration_seconds"), 1);
    assert_eq!(histogram_sum(&metrics, "exec_server_request_duration_seconds"), 0.012);
    for (name, description, expected_unit) in [
        ("exec_server_connections_active", CONNECTIONS_ACTIVE_DESCRIPTION, ""),
        ("exec_server_connections_total", CONNECTIONS_TOTAL_DESCRIPTION, ""),
        ("exec_server_remote_registration_total", REMOTE_REGISTRATION_TOTAL_DESCRIPTION, ""),
        (
            "exec_server_remote_registration_duration_seconds",
            REMOTE_REGISTRATION_DURATION_DESCRIPTION,
            "s",
        ),
        ("exec_server_remote_websocket_active", REMOTE_WEBSOCKET_ACTIVE_DESCRIPTION, ""),
        (
            "exec_server_remote_websocket_connect_total",
            REMOTE_WEBSOCKET_CONNECT_TOTAL_DESCRIPTION,
            "",
        ),
        (
            "exec_server_remote_websocket_connect_duration_seconds",
            REMOTE_WEBSOCKET_CONNECT_DURATION_DESCRIPTION,
            "s",
        ),
        (
            "exec_server_remote_websocket_reconnects_total",
            REMOTE_WEBSOCKET_RECONNECTS_DESCRIPTION,
            "",
        ),
        ("exec_server_requests_total", REQUESTS_TOTAL_DESCRIPTION, ""),
        ("exec_server_request_duration_seconds", REQUEST_DURATION_DESCRIPTION, "s"),
        ("exec_server_processes_active", PROCESSES_ACTIVE_DESCRIPTION, ""),
        ("exec_server_processes_finished_total", PROCESSES_FINISHED_TOTAL_DESCRIPTION, ""),
        ("exec_server_process_duration_seconds", PROCESS_DURATION_DESCRIPTION, "s"),
    ] {
        for report in named(&metrics, name) {
            assert_eq!(report.description, description);
            assert_eq!(unit(report), expected_unit);
        }
    }
}

#[test]
fn a_started_connection_reports_its_gauge_and_its_counter() {
    let mut telemetry = ExecServerTelemetry::new(true);
    let (guard, reports) = telemetry.connection_started(ConnectionTransport::Relay);
    assert_eq!(guard.transport(), ConnectionTransport::Relay);
    assert_eq!(
        reports,
        vec![
            MetricReport {
                name: "exec_server_connections_active",
                description: "Number of active exec-server connections.",
                value: MetricValue::Gauge(1),
                tags: vec![("transport", "relay")],
            },
            MetricReport {
                name: "exec_server_connections_total",
                description: "Total number of accepted exec-server connections.",
                value: MetricValue::Counter(1),
                tags: vec![("transport", "relay"), ("result", "accepted")],
            },
        ]
    );
}

#[test]
fn transports_are_counted_apart() {
    let mut telemetry = ExecServerTelemetry::new(true);
    let (first, _) = telemetry.connection_started(ConnectionTransport::Stdio);
    let (second, reports) = telemetry.connection_started(ConnectionTransport::Stdio);
    assert_eq!(reports[0].value, MetricValue::Gauge(2));
    let (relay, reports) = telemetry.connection_started(ConnectionTransport::Relay);
    assert_eq!(reports[0].value, MetricValue::Gauge(1));
    assert_eq!(telemetry.active_connections(ConnectionTransport::Stdio), Some(2));
    assert_eq!(telemetry.active_connections(ConnectionTransport::Relay), Some(1));
    assert_eq!(telemetry.active_connections(ConnectionTransport::WebSocket), Some(0));

    let reports = telemetry.connection_finished(first);
    assert_eq!(reports[0].value, MetricValue::Gauge(1));
    assert_eq!(reports[0].tags, vec![("transport", "stdio")]);
    telemetry.connection_finished(relay);
    telemetry.connection_finished(second);
    for transport in [
        ConnectionTransport::Relay,
        ConnectionTransport::Stdio,
        ConnectionTransport::WebSocket,
    ] {
        assert_eq!(telemetry.active_connections(transport), Some(0));
    }
}

#[test]
fn processes_and_websockets_are_counted() {
    let mut telemetry = ExecServerTelemetry::new(true);
    telemetry.process_started();
    let reports = telemetry.process_started();
    assert_eq!(reports[0].value, MetricValue::Gauge(2));
    assert_eq!(telemetry.active_processes(), Some(2));
    let reports = telemetry.process_finished("failed", Duration::from_secs(1));
    let values: Vec<MetricValue> = reports.iter().map(|report| report.value).collect();
    assert_eq!(
        values,
        [
            MetricValue::Gauge(1),
            MetricValue::Counter(1),
            MetricValue::Duration(Duration::from_secs(1)),
        ]
    );
    assert_eq!(reports[2].tags, vec![("result", "failed")]);

    let (guard, reports) = telemetry.remote_websocket_connected();
    assert_eq!(reports[0].value, MetricValue::Gauge(1));
    assert_eq!(telemetry.active_remote_websockets(), Some(1));
    let reports = telemetry.remote_websocket_disconnected(guard);
    assert_eq!(reports[0].value, MetricValue::Gauge(0));
}

#[test]
fn a_count_may_go_below_zero() {
    let mut telemetry = ExecServerTelemetry::new(true);
    let reports = telemetry.process_finished("success", Duration::ZERO);
    assert_eq!(reports[0].value, MetricValue::Gauge(-1));
}

#[test]
fn telemetry_without_metrics_reports_nothing() {
    for mut telemetry in [ExecServerTelemetry::new(false), ExecServerTelemetry::default()] {
        let (connection, reports) = telemetry.connection_started(ConnectionTransport::Stdio);
        assert!(reports.is_empty());
        assert!(telemetry.connection_finished(connection).is_empty());
        let (websocket, reports) = telemetry.remote_websocket_connected();
        assert!(reports.is_empty());
        assert!(telemetry.remote_websocket_disconnected(websocket).is_empty());
        assert!(telemetry.remote_registration_completed("x", Duration::ZERO).is_empty());
        assert!(telemetry.remote_websocket_connect_completed("x", Duration::ZERO).is_empty());
        assert!(telemetry.remote_websocket_reconnect("x").is_empty());
        assert!(telemetry.request_completed("m", "x", Duration::ZERO).is_empty());
        assert!(telemetry.process_started().is_empty());
        assert!(telemetry.process_finished("x", Duration::ZERO).is_empty());
        assert_eq!(telemetry.active_connections(ConnectionTransport::Stdio), None);
        assert_eq!(telemetry.active_remote_websockets(), None);
        assert_eq!(telemetry.active_processes(), None);
    }
}

#[test]
fn failed_reports_are_logged_by_their_kind() {
    let report = |value: MetricValue| MetricReport {
        name: "name",
        description: "description",
        value,
        tags: Vec::new(),
    };
    assert_eq!(
        report(MetricValue::Counter(1)).failure_message(),
        "failed to emit exec-server counter"
    );
    assert_eq!(
        report(MetricValue::Gauge(1)).failure_message(),
        "failed to emit exec-server gauge"
    );
    assert_eq!(
        report(MetricValue::Duration(Duration::ZERO)).failure_message(),
        "failed to emit exec-server duration"
    );
}

#[test]
fn metric_tags_name_the_transport() {
    assert_eq!(ConnectionTransport::Relay.metric_tag(), "relay");
    assert_eq!(ConnectionTransport::Stdio.metric_tag(), "stdio");
    assert_eq!(ConnectionTransport::WebSocket.metric_tag(), "websocket");
}

#[test]
fn the_server_runs_in_a_span() {
    let span = runtime_span();
    assert_eq!(span.level, SpanLevel::Info);
    assert_eq!(span.name, "codex.exec_server");
    assert_eq!(span.otel_kind, "internal");
}
