//! Metrics: how they are kept, reported and pushed.

use goosefs_sdk::clock::Duration;
use goosefs_sdk::config::{GoosefsConfig, TextMap};
use goosefs_sdk::metrics::batch::HeartbeatQueue;
use goosefs_sdk::metrics::heartbeat::{
    app_id_from, app_id_from_uuid, generated_app_id, given_name, resolve_app_id, BeatLog, HeartbeatTask, LogSampler,
};
use goosefs_sdk::metrics::name;
use goosefs_sdk::metrics::pushgateway::{
    collect_metrics_text, push_outcome, push_request, sanitize_metric_name, text_of_metrics,
    url_encode, PushOutcome, PushgatewayConfig, PushgatewayTask,
};
use goosefs_sdk::metrics::registry::{counter, gauge, Counter, Gauge, Registry};
use goosefs_sdk::metrics::reporter::{
    strip_instance_prefix, ClientMetricsReporter, INSTANCE_CLIENT,
};
use goosefs_sdk::metrics::task::{
    ReportLoop, TaskControl, TaskPhase, HEARTBEAT_SHUTDOWN_SECS, PUSH_SHUTDOWN_SECS,
};
use goosefs_sdk::proto::{Metric, MetricType};

#[test]
fn counter_inc_and_get() {
    let mut c = Counter::default();
    assert_eq!(c.get(), 0);

    c.inc(42);
    assert_eq!(c.get(), 42);

    c.inc(8);
    assert_eq!(c.get(), 50);

    c.inc(-10);
    assert_eq!(c.get(), 40);
}

#[test]
fn counter_negative_increment() {
    let mut c = Counter::default();
    c.inc(-5);
    assert_eq!(c.get(), -5);
}

#[test]
fn gauge_set_and_get() {
    let mut g = Gauge::default();
    assert_eq!(g.get(), 0);

    g.set(99);
    assert_eq!(g.get(), 99);

    g.set(-10);
    assert_eq!(g.get(), -10);
}

#[test]
fn name_constants() {
    assert_eq!(name::CLIENT_BYTES_READ_LOCAL, "Client.BytesReadLocal");
    assert_eq!(name::CLIENT_BYTES_WRITTEN_LOCAL, "Client.BytesWrittenLocal");
    assert_eq!(name::CLIENT_BYTES_WRITTEN_UFS, "Client.BytesWrittenUfs");
}

#[test]
fn registry_counter_factory() {
    let mut registry = Registry::default();
    assert_eq!(counter(&mut registry, "my_counter").get(), 0);
    counter(&mut registry, "my_counter").inc(10);
    assert_eq!(counter(&mut registry, "my_counter").get(), 10);
    assert_eq!(counter(&mut registry, "other_counter").get(), 0);
}

#[test]
fn registry_gauge_factory() {
    let mut registry = Registry::default();
    assert_eq!(gauge(&mut registry, "my_gauge").get(), 0);
    gauge(&mut registry, "my_gauge").set(55);
    assert_eq!(gauge(&mut registry, "my_gauge").get(), 55);
    assert_eq!(gauge(&mut registry, "other_gauge").get(), 0);
}

#[test]
fn counter_first_snapshot_reports_full_value() {
    let mut registry = Registry::default();
    let mut reporter = ClientMetricsReporter::default();
    counter(&mut registry, "test_reporter_first_snap").inc(100);

    let snap = reporter.snapshot(&registry);
    let found = snap
        .iter()
        .find(|m| m.name.as_deref() == Some("test_reporter_first_snap"));
    assert!(found.is_some(), "counter should appear in first snapshot");
    assert_eq!(found.unwrap().value.map(|v| v as f64), Some(100.0));
    assert_eq!(found.unwrap().metric_type, MetricType::Counter.as_i32());
}

#[test]
fn counter_diff_correct_between_snapshots() {
    let mut registry = Registry::default();
    let mut reporter = ClientMetricsReporter::default();
    counter(&mut registry, "test_reporter_diff").inc(50);

    let snap1 = reporter.snapshot(&registry);
    let v1 = snap1
        .iter()
        .find(|m| m.name.as_deref() == Some("test_reporter_diff"))
        .and_then(|m| m.value.map(|v| v as f64));
    assert_eq!(v1, Some(50.0));

    counter(&mut registry, "test_reporter_diff").inc(30);

    let snap2 = reporter.snapshot(&registry);
    let v2 = snap2
        .iter()
        .find(|m| m.name.as_deref() == Some("test_reporter_diff"))
        .and_then(|m| m.value.map(|v| v as f64));
    assert_eq!(v2, Some(30.0));
}

#[test]
fn counter_unchanged_not_in_snapshot() {
    let mut registry = Registry::default();
    let mut reporter = ClientMetricsReporter::default();
    counter(&mut registry, "test_reporter_unchanged").inc(10);

    let snap1 = reporter.snapshot(&registry);
    assert!(snap1
        .iter()
        .any(|m| m.name.as_deref() == Some("test_reporter_unchanged")));

    let snap2 = reporter.snapshot(&registry);
    assert!(
        !snap2
            .iter()
            .any(|m| m.name.as_deref() == Some("test_reporter_unchanged")),
        "unchanged counter must not appear in snapshot"
    );
}

#[test]
fn counter_zero_from_start_not_in_snapshot() {
    let mut registry = Registry::default();
    let mut reporter = ClientMetricsReporter::default();
    counter(&mut registry, "test_reporter_zero_start");

    let snap = reporter.snapshot(&registry);
    assert!(
        !snap
            .iter()
            .any(|m| m.name.as_deref() == Some("test_reporter_zero_start")),
        "zero-value counter must not appear in snapshot"
    );
}

#[test]
fn counter_baseline_written_even_when_diff_zero() {
    let mut registry = Registry::default();
    let mut reporter = ClientMetricsReporter::default();
    counter(&mut registry, "test_reporter_baseline");

    let snap1 = reporter.snapshot(&registry);
    assert!(!snap1
        .iter()
        .any(|m| m.name.as_deref() == Some("test_reporter_baseline")));

    counter(&mut registry, "test_reporter_baseline").inc(75);

    let snap2 = reporter.snapshot(&registry);
    let v = snap2
        .iter()
        .find(|m| m.name.as_deref() == Some("test_reporter_baseline"))
        .and_then(|m| m.value.map(|v| v as f64));
    assert_eq!(
        v,
        Some(75.0),
        "diff after baseline write must be incremental"
    );
}

#[test]
fn gauge_returns_current_value() {
    let mut registry = Registry::default();
    let mut reporter = ClientMetricsReporter::default();
    gauge(&mut registry, "test_reporter_gauge").set(42);

    let snap = reporter.snapshot(&registry);
    let found = snap
        .iter()
        .find(|m| m.name.as_deref() == Some("test_reporter_gauge"));
    assert!(found.is_some(), "gauge must appear in snapshot");
    assert_eq!(found.unwrap().value.map(|v| v as f64), Some(42.0));
    assert_eq!(found.unwrap().metric_type, MetricType::Gauge.as_i32());
}

#[test]
fn gauge_no_diff_always_reported() {
    let mut registry = Registry::default();
    let mut reporter = ClientMetricsReporter::default();
    gauge(&mut registry, "test_reporter_gauge_stable").set(7);

    let snap1 = reporter.snapshot(&registry);
    let snap2 = reporter.snapshot(&registry);

    let in_snap1 = snap1
        .iter()
        .any(|m| m.name.as_deref() == Some("test_reporter_gauge_stable"));
    let in_snap2 = snap2
        .iter()
        .any(|m| m.name.as_deref() == Some("test_reporter_gauge_stable"));
    assert!(in_snap1, "gauge must appear in first snapshot");
    assert!(
        in_snap2,
        "gauge must appear in second snapshot even if unchanged"
    );
}

#[test]
fn name_constants_round_trip() {
    let mut registry = Registry::default();
    let mut reporter = ClientMetricsReporter::default();

    counter(&mut registry, name::CLIENT_BYTES_READ_LOCAL).inc(1024);
    counter(&mut registry, name::CLIENT_BYTES_WRITTEN_LOCAL).inc(2048);
    counter(&mut registry, name::CLIENT_BYTES_WRITTEN_UFS).inc(512);

    let snap = reporter.snapshot(&registry);

    for bare in &["BytesReadLocal", "BytesWrittenLocal", "BytesWrittenUfs"] {
        let m = snap
            .iter()
            .find(|m| m.name.as_deref() == Some(*bare))
            .unwrap_or_else(|| panic!("metric {} missing from snapshot", bare));
        assert_eq!(
            m.instance.as_deref(),
            Some(INSTANCE_CLIENT),
            "metric {} must carry instance=\"Client\"",
            bare
        );
        assert_eq!(m.metric_type, MetricType::Counter.as_i32());
    }
}

#[test]
fn strip_instance_prefix_behaviour() {
    assert_eq!(
        strip_instance_prefix("Client.BytesReadLocal"),
        "BytesReadLocal"
    );
    assert_eq!(
        strip_instance_prefix("Worker.BytesReadAlluxio"),
        "BytesReadAlluxio"
    );
    assert_eq!(
        strip_instance_prefix("Client.BytesReadPerUfs.s3a"),
        "BytesReadPerUfs.s3a"
    );
    assert_eq!(strip_instance_prefix("BytesReadLocal"), "BytesReadLocal");
    assert_eq!(strip_instance_prefix(""), "");
}

#[test]
fn sanitize_metric_name_basic() {
    assert_eq!(
        sanitize_metric_name("Client.BytesReadLocal"),
        "goosefs_client_bytes_read_local"
    );
    assert_eq!(
        sanitize_metric_name("Client.BytesWrittenUfs"),
        "goosefs_client_bytes_written_ufs"
    );
    assert_eq!(
        sanitize_metric_name("Client.BytesWrittenLocal"),
        "goosefs_client_bytes_written_local"
    );
}

#[test]
fn sanitize_metric_name_custom() {
    assert_eq!(
        sanitize_metric_name("Client.DemoOpsCount"),
        "goosefs_client_demo_ops_count"
    );
}

#[test]
fn push_url_basic() {
    let config = PushgatewayConfig::new("http://localhost:9091", "my_job");
    assert_eq!(
        config.push_url(),
        "http://localhost:9091/metrics/job/my_job"
    );
}

#[test]
fn push_url_with_instance() {
    let config =
        PushgatewayConfig::new("http://localhost:9091", "my_job").with_instance("host1");
    assert_eq!(
        config.push_url(),
        "http://localhost:9091/metrics/job/my_job/instance/host1"
    );
}

#[test]
fn push_url_with_extra_labels() {
    let config = PushgatewayConfig::new("http://localhost:9091", "my_job")
        .with_instance("host1")
        .with_label("namespace", "prod")
        .with_label("cluster", "us-east");
    assert_eq!(
        config.push_url(),
        "http://localhost:9091/metrics/job/my_job/instance/host1/namespace/prod/cluster/us-east"
    );
}

#[test]
fn push_url_trailing_slash_stripped() {
    let config = PushgatewayConfig::new("http://localhost:9091/", "my_job");
    assert_eq!(
        config.push_url(),
        "http://localhost:9091/metrics/job/my_job"
    );
}

#[test]
fn collect_metrics_text_includes_counters() {
    let mut registry = Registry::default();
    counter(&mut registry, "Client.PushgatewayTestCounter").inc(42);

    let text = collect_metrics_text(&registry);
    assert!(
        text.contains("goosefs_client_pushgateway_test_counter"),
        "expected metric name in output, got:\n{}",
        text
    );
    assert!(text.contains("42"), "expected value 42 in output");
    assert!(text.contains("# TYPE"), "expected TYPE annotation");
}

#[test]
fn collect_metrics_text_includes_gauges() {
    let mut registry = Registry::default();
    gauge(&mut registry, "Client.PushgatewayTestGauge").set(99);

    let text = collect_metrics_text(&registry);
    assert!(
        text.contains("goosefs_client_pushgateway_test_gauge"),
        "expected gauge metric name in output, got:\n{}",
        text
    );
    assert!(text.contains("99"), "expected gauge value 99 in output");
    assert!(text.contains("# TYPE"), "expected TYPE annotation");
}

#[test]
fn url_encode_basic() {
    assert_eq!(url_encode("hello"), "hello");
    assert_eq!(url_encode("hello world"), "hello%20world");
    assert_eq!(url_encode("a/b"), "a%2Fb");
}

#[test]
fn log_sampler_first_call_logs() {
    let mut sampler = LogSampler::new(Duration::from_secs(30));
    assert!(sampler.should_log(), "first call must always log");
}

#[test]
fn log_sampler_second_call_suppressed() {
    let mut sampler = LogSampler::new(Duration::from_secs(30));
    sampler.should_log();
    assert!(
        !sampler.should_log(),
        "second call within window must be suppressed"
    );
}

#[test]
fn log_sampler_zero_window_always_logs() {
    let mut sampler = LogSampler::new(Duration::from_secs(0));
    let first = sampler.should_log();
    assert!(first);
    let _ = sampler.should_log();
}

#[test]
fn resolve_app_id_uses_config_app_id() {
    let config = GoosefsConfig::new("127.0.0.1:9200", &TextMap::new()).with_app_id("my-service");
    let id = resolve_app_id(&config);
    assert_eq!(id, "my-service");
}

#[test]
fn resolve_app_id_fallback_non_empty() {
    let config = GoosefsConfig::new("127.0.0.1:9200", &TextMap::new());
    let id = resolve_app_id(&config);
    assert!(!id.is_empty(), "app_id fallback must never be empty");
}

#[test]
fn resolve_app_id_empty_string_treated_as_unset() {
    let mut config = GoosefsConfig::new("127.0.0.1:9200", &TextMap::new());
    config.app_id = Some(String::new());
    let id = resolve_app_id(&config);
    assert!(!id.is_empty());
    assert_ne!(id, "", "empty app_id must not propagate");
}

#[test]
fn log_lines_are_a_window_apart() {
    let mut sampler = LogSampler::new(Duration::from_millis(30));
    assert!(sampler.should_log_at(5));
    assert!(!sampler.should_log_at(34));
    assert!(sampler.should_log_at(35));
    assert!(!sampler.should_log_at(36));
}

#[test]
fn made_up_name_takes_eight_characters() {
    assert_eq!(
        generated_app_id("01234567-89ab-cdef-0123-456789abcdef"),
        "goosefs-rust-01234567"
    );
    assert_eq!(given_name(Some(String::new())), None);
    assert_eq!(given_name(Some("h".to_string())), Some("h".to_string()));
    assert_eq!(given_name(None), None);
}

#[test]
fn counter_wraps_at_the_end_of_its_range() {
    let mut c = Counter::default();
    c.inc(i64::MAX);
    c.inc(1);
    assert_eq!(c.get(), i64::MIN);
}

#[test]
fn registry_lists_every_name_once() {
    let mut registry = Registry::default();
    for n in ["a", "b", "c", "a", "b"] {
        counter(&mut registry, n).inc(1);
    }
    gauge(&mut registry, "a").set(9);
    let mut values = registry.counter_values();
    values.sort();
    assert_eq!(
        values,
        vec![
            ("a".to_string(), 2),
            ("b".to_string(), 2),
            ("c".to_string(), 1)
        ]
    );
    assert_eq!(registry.gauge_values(), vec![("a".to_string(), 9)]);
}

#[test]
fn reports_of_a_counter_add_up_to_its_value() {
    let mut registry = Registry::default();
    let mut reporter = ClientMetricsReporter::new();
    let mut total = 0i64;
    for step in [5i64, 0, 7, -3, 0, 100] {
        counter(&mut registry, "Client.Sum").inc(step);
        for m in reporter.snapshot(&registry) {
            total += m.value.unwrap();
        }
    }
    assert_eq!(total, counter(&mut registry, "Client.Sum").get());
}

fn metric(name: &str, value: i64, kind: MetricType) -> Metric {
    Metric {
        instance: Some("Client".to_string()),
        source: None,
        name: Some(name.to_string()),
        value: Some(value),
        metric_type: kind.as_i32(),
    }
}

#[test]
fn nothing_to_report_means_no_heartbeat() {
    let mut queue = HeartbeatQueue::new();
    assert!(queue.next_payload(vec![], "app", 10).is_none());
    assert!(queue
        .next_payload(vec![metric("a", 1, MetricType::Counter)], "app", 0)
        .is_none());
}

#[test]
fn heartbeat_carries_all_metrics_in_one_envelope() {
    let mut queue = HeartbeatQueue::new();
    let payload = queue
        .next_payload(
            vec![
                metric("c1", 10, MetricType::Counter),
                metric("c2", 20, MetricType::Counter),
            ],
            "envelope-app",
            1024,
        )
        .unwrap();
    assert_eq!(payload.source.as_deref(), Some("envelope-app"));
    let names: Vec<&str> = payload.metrics.iter().filter_map(|m| m.name.as_deref()).collect();
    assert_eq!(names, vec!["c1", "c2"]);
    assert!(payload
        .metrics
        .iter()
        .all(|m| m.source.as_deref() == Some("envelope-app")));
}

#[test]
fn entries_over_the_limit_go_out_later() {
    let mut queue = HeartbeatQueue::new();
    let first = queue
        .next_payload(
            vec![
                metric("a", 1, MetricType::Counter),
                metric("b", 2, MetricType::Counter),
                metric("g", 5, MetricType::Gauge),
            ],
            "app",
            1,
        )
        .unwrap();
    assert_eq!(first.metrics[0].name.as_deref(), Some("a"));
    let second = queue
        .next_payload(
            vec![
                metric("a", 10, MetricType::Counter),
                metric("b", 40, MetricType::Counter),
                metric("g", 6, MetricType::Gauge),
            ],
            "app",
            2,
        )
        .unwrap();
    assert_eq!(second.metrics[0].name.as_deref(), Some("b"));
    assert_eq!(second.metrics[0].value, Some(42));
    assert_eq!(second.metrics[1].name.as_deref(), Some("g"));
    assert_eq!(second.metrics[1].value, Some(6));
    let third = queue.next_payload(vec![], "app", 2).unwrap();
    assert_eq!(third.metrics.len(), 1);
    assert_eq!(third.metrics[0].value, Some(10));
}

#[test]
fn source_that_is_set_is_kept() {
    let mut queue = HeartbeatQueue::new();
    let mut m = metric("a", 1, MetricType::Counter);
    m.source = Some("other".to_string());
    let payload = queue.next_payload(vec![m], "app", 5).unwrap();
    assert_eq!(payload.metrics[0].source.as_deref(), Some("other"));
}

#[test]
fn closing_a_task_flushes_once() {
    let mut task = ReportLoop::start();
    assert_eq!(task.step(false), TaskPhase::Waiting);
    assert_eq!(task.step(false), TaskPhase::Reporting);
    assert_eq!(task.step(false), TaskPhase::Waiting);
    assert_eq!(task.step(true), TaskPhase::Reporting);
    assert_eq!(task.step(true), TaskPhase::Ended);
    assert_eq!(task.step(false), TaskPhase::Ended);
}

#[test]
fn shutdown_waits_only_once() {
    let mut beat = TaskControl::new(HEARTBEAT_SHUTDOWN_SECS);
    assert!(!beat.closed);
    assert_eq!(beat.shutdown(), Some(Duration::from_secs(3)));
    assert!(beat.closed);
    assert_eq!(beat.shutdown(), None);
    let mut push = TaskControl::new(PUSH_SHUTDOWN_SECS);
    assert_eq!(push.shutdown(), Some(Duration::from_secs(5)));
}

#[test]
fn prometheus_name_is_valid_whatever_the_name() {
    assert_eq!(sanitize_metric_name("Client.p99-latency"), "goosefs_client_p99_latency");
    assert_eq!(sanitize_metric_name("\u{dc}ber zwei"), "goosefs__ber_zwei");
    assert_eq!(sanitize_metric_name("HTTPRequests"), "goosefs_httprequests");
    assert_eq!(sanitize_metric_name(""), "goosefs_");
}

#[test]
fn encoding_goes_by_bytes() {
    assert_eq!(url_encode("\u{e9}"), "%C3%A9");
    assert_eq!(url_encode("a-b_c.d~e"), "a-b_c.d~e");
    assert_eq!(url_encode("%"), "%25");
}

#[test]
fn default_gateway() {
    let config = PushgatewayConfig::default();
    assert_eq!(
        config.push_url(),
        "http://127.0.0.1:9091/metrics/job/goosefs_client"
    );
    let config = config.with_push_interval(Duration::from_secs(3));
    assert_eq!(config.push_interval, Duration::from_secs(3));
}

#[test]
fn text_of_metrics_is_exact() {
    let text = text_of_metrics(
        &vec![("Client.A".to_string(), -4)],
        &vec![("G".to_string(), 7)],
    );
    assert_eq!(
        text,
        "# HELP goosefs_client_a GooseFS client counter: Client.A\n\
# TYPE goosefs_client_a counter\n\
goosefs_client_a -4\n\
# HELP goosefs_g GooseFS client gauge: G\n\
# TYPE goosefs_g gauge\n\
goosefs_g 7\n"
    );
    assert_eq!(collect_metrics_text(&Registry::default()), "");
}

#[test]
fn only_text_is_pushed() {
    assert!(push_request("http://h/m", String::new()).is_none());
    let request = push_request("http://h/m", "x 1\n".to_string()).unwrap();
    assert_eq!(request.url, "http://h/m");
    assert_eq!(request.content_type, "text/plain; version=0.0.4");
    assert_eq!(request.body, "x 1\n");
    assert_eq!(push_outcome(Some(202)), PushOutcome::Pushed);
    assert_eq!(push_outcome(Some(199)), PushOutcome::Refused);
    assert_eq!(push_outcome(Some(300)), PushOutcome::Refused);
    assert_eq!(push_outcome(None), PushOutcome::Failed);
}

#[test]
fn heartbeat_task_is_send_sync()
where
    HeartbeatTask: Send + Sync,
{
}

#[test]
fn skip_when_empty() {
    let mut registry = Registry::default();
    counter(&mut registry, "test_hb_skip_when_empty");
    let mut task = HeartbeatTask::new("test-app", 1024);
    let _ = task.reporter.snapshot(&registry);
    for _ in 0..2 {
        assert!(
            task.do_heartbeat(&registry).is_none(),
            "heartbeat RPC must be skipped when snapshot is empty"
        );
    }
}

#[test]
fn flush_on_shutdown() {
    let counter_name = "test_hb_flush_on_shutdown";
    let mut registry = Registry::default();
    counter(&mut registry, counter_name).inc(42);
    let mut task = HeartbeatTask::new("flush-app", 1024);
    let mut steps = ReportLoop::start();
    steps.step(task.control.closed);
    assert_eq!(task.shutdown(), Some(Duration::from_secs(3)));
    let mut sent = Vec::new();
    while steps.phase != TaskPhase::Ended {
        if steps.phase == TaskPhase::Reporting {
            sent.extend(task.do_heartbeat(&registry));
        }
        steps.step(task.control.closed);
    }
    assert_eq!(
        sent.len(),
        1,
        "shutdown must trigger exactly one final heartbeat flush"
    );
    let cm = &sent[0];
    assert_eq!(
        cm.source.as_deref(),
        Some("flush-app"),
        "ClientMetrics.source must equal the app_id"
    );
    let metric = cm
        .metrics
        .iter()
        .find(|m| m.name.as_deref() == Some(counter_name))
        .expect("counter must be present in the flushed payload");
    assert_eq!(metric.value.map(|v| v as f64), Some(42.0), "flushed counter value must be 42");
}

#[test]
fn do_heartbeat_sets_source_from_app_id() {
    let mut registry = Registry::default();
    counter(&mut registry, "test_do_hb_source_app_id").inc(77);
    let mut task = HeartbeatTask::new("my-node-id", 1024);
    let cm = task
        .do_heartbeat(&registry)
        .expect("do_heartbeat must call RPC when snapshot is non-empty");
    assert_eq!(
        cm.source.as_deref(),
        Some("my-node-id"),
        "ClientMetrics.source must equal the app_id argument"
    );
}

#[test]
fn do_heartbeat_wraps_all_metrics_in_single_envelope() {
    let mut registry = Registry::default();
    counter(&mut registry, "test_do_hb_envelope_c1").inc(10);
    counter(&mut registry, "test_do_hb_envelope_c2").inc(20);
    let mut task = HeartbeatTask::new("envelope-app", 1024);
    let received = task
        .do_heartbeat(&registry)
        .expect("metrics must have been forwarded");
    let metrics_names: Vec<&str> = received
        .metrics
        .iter()
        .filter_map(|m| m.name.as_deref())
        .collect();
    assert!(
        metrics_names.contains(&"test_do_hb_envelope_c1"),
        "c1 must be in the payload"
    );
    assert!(
        metrics_names.contains(&"test_do_hb_envelope_c2"),
        "c2 must be in the payload"
    );
}

#[test]
fn failed_beats_warn_once_per_window() {
    let mut task = HeartbeatTask::new("app", 1024);
    assert_eq!(task.beat_done(true), BeatLog::Nothing);
    assert_eq!(task.beat_done(false), BeatLog::Warning);
    assert_eq!(task.beat_done(false), BeatLog::Detail);
}

#[test]
fn push_task_posts_what_there_is() {
    let config = PushgatewayConfig::new("http://gw", "j").with_push_interval(Duration::from_secs(4));
    let mut task = PushgatewayTask::new(&config);
    assert_eq!(task.interval, Duration::from_secs(4));
    let mut registry = Registry::default();
    assert!(task.next_push(&registry).is_none());
    counter(&mut registry, "Client.X").inc(3);
    let request = task.next_push(&registry).unwrap();
    assert_eq!(request.url, "http://gw/metrics/job/j");
    assert!(request.body.ends_with("goosefs_client_x 3\n"));
    assert_eq!(task.shutdown(), Some(Duration::from_secs(5)));
    assert_eq!(task.shutdown(), None);
}

#[test]
fn made_up_name_takes_the_first_digits_of_the_identifier() {
    let id = uuid::Uuid::from_u64_pair(0x0123_abcd_89ab_cdef, 0x0123_4567_89ab_cdef);
    assert_eq!(app_id_from_uuid(&id), "goosefs-rust-0123abcd");
    assert_eq!(app_id_from_uuid(&uuid::Uuid::from_u64_pair(0, 0)), "goosefs-rust-00000000");
}

#[test]
fn configured_name_comes_before_the_machine_and_the_machine_before_a_made_up_one() {
    let id = "01234567-89ab-cdef-0123-456789abcdef";
    let name = |s: &str| Some(s.to_string());
    assert_eq!(app_id_from(name("mine"), name("host"), id), "mine");
    assert_eq!(app_id_from(name(""), name("host"), id), "host");
    assert_eq!(app_id_from(None, name("host"), id), "host");
    assert_eq!(app_id_from(None, name(""), id), "goosefs-rust-01234567");
    assert_eq!(app_id_from(None, None, id), "goosefs-rust-01234567");
}

#[test]
fn failures_are_warned_of_once_per_window() {
    let mut task = HeartbeatTask::new("app", 10);
    assert_eq!(task.beat_done_at(true, 0), BeatLog::Nothing);
    assert_eq!(task.beat_done_at(false, 1_000), BeatLog::Warning);
    assert_eq!(task.beat_done_at(false, 30_999), BeatLog::Detail);
    assert_eq!(task.beat_done_at(false, 31_000), BeatLog::Warning);
    task.shutdown();
    assert_eq!(task.app_id, "app");
    assert_eq!(task.max_batch_size, 10);
    assert_eq!(task.control.shutdown_secs, 3);
    assert_eq!(task.beat_done_at(false, 31_001), BeatLog::Detail);
}
