//! The shared context of a client.

use goosefs_sdk::clock::Duration;
use goosefs_sdk::config::{GoosefsConfig, TextMap};
use goosefs_sdk::context::{
    config_refresh_interval, local_ip, process_instance, push_settings, refresh_check_interval,
    worker_refresh_woken, FileSystemContext, RefreshAction, SetupAction, SetupOp,
};
use goosefs_sdk::error::Error;
use goosefs_sdk::metrics::heartbeat::resolve_app_id;
use goosefs_sdk::proto::WorkerInfo;

fn context(config: GoosefsConfig) -> FileSystemContext {
    SetupOp::start(config).0.context
}

#[test]
fn test_context_closed_starts_false() {
    let ctx = context(GoosefsConfig::new("127.0.0.1:9200", &TextMap::new()));
    assert!(!ctx.is_closed());
}

#[test]
fn test_context_close_is_idempotent() {
    let mut ctx = context(GoosefsConfig::new("127.0.0.1:9200", &TextMap::new()));
    ctx.refreshing = true;
    ctx.heartbeat = true;

    let was_open = !ctx.is_closed();
    assert!(was_open);
    let first = ctx.close();
    assert!(first.abort_refresh && first.shut_heartbeat && !first.shut_push);

    let was_open2 = !ctx.is_closed();
    assert!(!was_open2);
    let second = ctx.close();
    assert!(!second.abort_refresh && !second.shut_heartbeat && !second.shut_push);
}

#[test]
fn test_refresh_check_interval() {
    assert_eq!(refresh_check_interval(), Duration::from_secs(30));
}

#[test]
fn test_config_refresh_interval() {
    assert_eq!(config_refresh_interval(), Duration::from_secs(60));
}

#[test]
fn test_resolve_app_id_non_empty() {
    let config = GoosefsConfig::new("127.0.0.1:9200", &TextMap::new());
    let id = resolve_app_id(&config);
    assert!(!id.is_empty());
}

#[test]
fn test_metrics_enabled_flag_is_accessible() {
    let config_on = GoosefsConfig::new("127.0.0.1:9200", &TextMap::new()).with_metrics_enabled(true);
    assert!(config_on.metrics_enabled);

    let config_off = GoosefsConfig::new("127.0.0.1:9200", &TextMap::new()).with_metrics_enabled(false);
    assert!(!config_off.metrics_enabled);
}

#[test]
fn metrics_disabled_by_default() {
    let config = GoosefsConfig::new("127.0.0.1:9200", &TextMap::new());
    let config_off = GoosefsConfig::new("127.0.0.1:9200", &TextMap::new()).with_metrics_enabled(false);
    assert!(
        !config_off.metrics_enabled,
        "with_metrics_enabled(false) must disable metrics"
    );
    assert!(config.metrics_enabled);
}

fn internal(message: &str) -> Error {
    Error::Internal { message: message.to_string(), source: None }
}

fn up_to_refresh(config: GoosefsConfig) -> SetupOp {
    let (op, action) = SetupOp::start(config);
    assert!(matches!(action, SetupAction::ConnectClients));
    let (op, action) = op.clients_connected(Ok(()), Ok(()));
    assert!(matches!(action, SetupAction::ListWorkers));
    let (op, action) = op.workers_listed(Ok(vec![WorkerInfo::default()]));
    assert!(matches!(action, SetupAction::UseWorkers(ref w, false) if w.len() == 1));
    let (op, action) = op.cache_opened(false);
    assert!(matches!(action, SetupAction::StartRefresh));
    op
}

#[test]
fn disabled_no_task_spawn() {
    let config = GoosefsConfig::new("127.0.0.1:9200", &TextMap::new()).with_metrics_enabled(false);
    assert!(!config.metrics_enabled, "metrics_enabled must be false");
    let (op, action) = up_to_refresh(config).task_started();
    assert!(
        matches!(action, SetupAction::ReadProperties),
        "metrics_enabled=false must prevent task from being spawned"
    );
    let (op, action) = op.properties_read(Ok(GoosefsConfig::default(&TextMap::new())));
    assert!(matches!(action, SetupAction::Ready));
    assert!(!op.context.heartbeat);
    assert!(op.context.refreshing);
    assert!(!op.context.pushing);
}

#[test]
fn enabled_metrics_connect_and_beat() {
    let (op, action) = up_to_refresh(GoosefsConfig::new("127.0.0.1:9200", &TextMap::new())).task_started();
    assert!(matches!(action, SetupAction::ConnectMetrics));
    let (op, action) = op.metrics_connected(Ok(()));
    assert!(matches!(action, SetupAction::StartHeartbeat));
    let (op, action) = op.task_started();
    assert!(matches!(action, SetupAction::ReadProperties));
    assert!(op.context.heartbeat);
}

#[test]
fn failure_to_reach_the_metrics_service_fails_the_setup() {
    let (op, _) = up_to_refresh(GoosefsConfig::new("127.0.0.1:9200", &TextMap::new())).task_started();
    let (_, action) = op.metrics_connected(Err(internal("down")));
    assert!(matches!(action, SetupAction::Fail(Error::Internal { .. })));
}

#[test]
fn first_failed_connection_is_reported() {
    let (op, _) = SetupOp::start(GoosefsConfig::new("127.0.0.1:9200", &TextMap::new()));
    let (_, action) = op.clients_connected(Err(internal("master")), Err(internal("manager")));
    assert!(matches!(action, SetupAction::Fail(Error::Internal { message, .. }) if message == "master"));
    let (op, _) = SetupOp::start(GoosefsConfig::new("127.0.0.1:9200", &TextMap::new()));
    let (_, action) = op.clients_connected(Ok(()), Err(internal("manager")));
    assert!(matches!(action, SetupAction::Fail(Error::Internal { message, .. }) if message == "manager"));
}

#[test]
fn cluster_without_workers_is_refused() {
    let (op, _) = SetupOp::start(GoosefsConfig::new("127.0.0.1:9200", &TextMap::new()));
    let (op, _) = op.clients_connected(Ok(()), Ok(()));
    let (_, action) = op.workers_listed(Ok(vec![]));
    assert!(matches!(
        action,
        SetupAction::Fail(Error::NoWorkerAvailable { message }) if message == "no workers available at startup"
    ));
}

#[test]
fn push_follows_the_configuration_or_the_file() {
    let on = GoosefsConfig::new("127.0.0.1:9200", &TextMap::new())
        .with_metrics_enabled(false)
        .with_pushgateway_enabled(true);
    let (op, action) = up_to_refresh(on).task_started();
    assert!(matches!(action, SetupAction::PushAsConfigured));
    assert!(op.context.pushing);
    let (_, action) = op.task_started();
    assert!(matches!(action, SetupAction::Ready));
    let off = GoosefsConfig::new("127.0.0.1:9200", &TextMap::new()).with_metrics_enabled(false);
    let (op, _) = up_to_refresh(off).task_started();
    let file = GoosefsConfig::new("x:1", &TextMap::new()).with_pushgateway_enabled(true);
    let (op, action) = op.properties_read(Ok(file));
    assert!(matches!(action, SetupAction::PushAsInFile(ref c) if c.master_addr == "x:1"));
    assert!(op.context.pushing);
}

#[test]
fn cache_that_cannot_be_opened_is_done_without() {
    let config = GoosefsConfig { client_cache_enabled: true, ..GoosefsConfig::default(&TextMap::new()) };
    let (op, _) = SetupOp::start(config);
    let (op, _) = op.clients_connected(Ok(()), Ok(()));
    let (op, action) = op.workers_listed(Ok(vec![WorkerInfo::default()]));
    assert!(matches!(action, SetupAction::UseWorkers(_, true)));
    let (op, _) = op.cache_opened(false);
    assert!(!op.context.cache);
}

#[test]
fn instance_is_address_and_process() {
    assert_eq!(process_instance("10.0.0.7", 4711), "10.0.0.7:4711");
    assert_eq!(local_ip(None), "127.0.0.1");
    assert_eq!(local_ip(Some("10.0.0.7".to_string())), "10.0.0.7");
    let config = GoosefsConfig::new("127.0.0.1:9200", &TextMap::new()).with_pushgateway_job("j");
    let settings = push_settings(&config, "10.0.0.7", 4711);
    assert_eq!(settings.instance.as_deref(), Some("10.0.0.7:4711"));
    assert_eq!(settings.job, "j");
    let named = config.with_pushgateway_instance("me");
    assert_eq!(push_settings(&named, "10.0.0.7", 4711).instance.as_deref(), Some("me"));
}

#[test]
fn refresh_ends_with_the_context() {
    assert_eq!(worker_refresh_woken(true, true), RefreshAction::End);
    assert_eq!(worker_refresh_woken(false, true), RefreshAction::Refresh);
    assert_eq!(worker_refresh_woken(false, false), RefreshAction::Sleep);
}
