//! How a context is set up and closed: laws on the calls and their results.
//!
//! `call_ensures(f, args, r)` says that `r` is a result of the call of `f` with `args`.

use vstd::prelude::*;

use crate::clock::Duration;
use crate::config::settings::GoosefsConfig;
use crate::context::{
    config_refresh_interval, local_ip, process_instance, push_settings, refresh_check_interval,
    worker_refresh_woken, CloseActions, FileSystemContext, RefreshAction, SetupAction, SetupOp,
};
use crate::error::Result;
use crate::metrics::pushgateway::PushgatewayConfig;
use crate::proto::WorkerInfo;
use crate::text::decimal;

verus! {

/// Closing stops every task that runs, and nothing is left to stop the second time.
pub proof fn law_close_stops_what_runs_once(
    a: &mut FileSystemContext,
    b: &mut FileSystemContext,
    first: CloseActions,
    second: CloseActions,
    closed: bool,
)
    requires
        call_ensures(FileSystemContext::close, (a,), first),
        *old(b) == *final(a),
        call_ensures(FileSystemContext::close, (b,), second),
        call_ensures(FileSystemContext::is_closed, (final(a),), closed),
    ensures
        closed,
        !old(a).closed ==> first.abort_refresh == old(a).refreshing && first.shut_heartbeat == old(a).heartbeat && first.shut_push == old(a).pushing,
        !old(a).closed ==> !final(a).refreshing && !final(a).heartbeat && !final(a).pushing,
        !second.abort_refresh && !second.shut_heartbeat && !second.shut_push,
        final(a).config == old(a).config,
{
}

/// The refreshing of the workers ends with the context, and lists them anew exactly if
/// the list is stale.
pub proof fn law_stale_workers_are_listed_anew(closed: bool, stale: bool, r: RefreshAction)
    requires
        call_ensures(worker_refresh_woken, (closed, stale), r),
    ensures
        (r is End) == closed,
        (r is Refresh) == (!closed && stale),
{
}

/// How often the workers and the configuration are looked at.
pub proof fn law_refresh_intervals(a: Duration, b: Duration)
    requires
        call_ensures(refresh_check_interval, (), a),
        call_ensures(config_refresh_interval, (), b),
    ensures
        a.nanos == 30_000_000_000,
        b.nanos == 60_000_000_000,
{
}

/// A process is named by its address and its number, and pushes as it is configured.
pub proof fn law_process_pushes_as_configured(
    config: GoosefsConfig,
    ip: &str,
    pid: u32,
    name: String,
    found: Option<String>,
    own: String,
    r: PushgatewayConfig,
)
    requires
        call_ensures(process_instance, (ip, pid), name),
        call_ensures(local_ip, (found,), own),
        call_ensures(push_settings, (&config, ip, pid), r),
    ensures
        name@ == ip@ + seq![':'] + decimal(pid as nat),
        found matches Some(s) ==> own@ == s@,
        found is None ==> own@ == "127.0.0.1"@,
        r.endpoint@ == config.pushgateway_endpoint@,
        r.job@ == config.pushgateway_job@,
        r.push_interval == config.pushgateway_push_interval,
        config.pushgateway_instance is None ==> (r.instance matches Some(i) && i@ == name@),
        config.pushgateway_instance matches Some(given) ==> (r.instance matches Some(i) && i@
            == given@),
        r.extra_labels@.len() == 0,
{
}

/// Setting up starts with the clients, and fails if one of them, or the list of the
/// workers, cannot be had, or if the list is empty.
pub proof fn law_setup_needs_clients_and_workers(
    config: GoosefsConfig,
    begun: (SetupOp, SetupAction),
    master: Result<()>,
    manager: Result<()>,
    connected: (SetupOp, SetupAction),
    op: SetupOp,
    workers: Result<Vec<WorkerInfo>>,
    listed: (SetupOp, SetupAction),
)
    requires
        call_ensures(SetupOp::start, (config,), begun),
        call_ensures(SetupOp::clients_connected, (begun.0, master, manager), connected),
        call_ensures(SetupOp::workers_listed, (op, workers), listed),
    ensures
        begun.1 is ConnectClients && begun.0.context.config == config && !begun.0.context.closed,
        !begun.0.context.cache && !begun.0.context.refreshing && !begun.0.context.heartbeat
            && !begun.0.context.pushing,
        master is Ok && manager is Ok ==> connected.1 is ListWorkers,
        master matches Err(e) ==> connected.1 == SetupAction::Fail(e),
        master is Ok ==> (manager matches Err(e) ==> connected.1 == SetupAction::Fail(e)),
        workers matches Err(e) ==> listed.1 == SetupAction::Fail(e),
        workers matches Ok(w) ==> w@.len() == 0 ==> (listed.1 matches SetupAction::Fail(e) && e
            is NoWorkerAvailable),
        workers matches Ok(w) ==> w@.len() > 0 ==> listed.1 == SetupAction::UseWorkers(
            w,
            op.context.config.client_cache_enabled,
        ),
{
}

/// The page cache is used if it is wanted and could be opened, and the workers are kept
/// fresh in any case.
pub proof fn law_cache_is_used_if_opened(op: SetupOp, opened: bool, r: (SetupOp, SetupAction))
    requires
        call_ensures(SetupOp::cache_opened, (op, opened), r),
    ensures
        r.0.context.cache == (op.context.config.client_cache_enabled && opened),
        r.0.context.refreshing && r.1 is StartRefresh,
        r.0.context.config == op.context.config,
{
}

/// Beats are made exactly if metrics are enabled, once the metrics client is connected;
/// without it the setup fails.
pub proof fn law_heartbeat_follows_the_setting(
    op: SetupOp,
    after_refresh: (SetupOp, SetupAction),
    m: SetupOp,
    outcome: Result<()>,
    connected: (SetupOp, SetupAction),
)
    requires
        op.phase is Refresh,
        call_ensures(SetupOp::task_started, (op,), after_refresh),
        call_ensures(SetupOp::metrics_connected, (m, outcome), connected),
    ensures
        (after_refresh.1 is ConnectMetrics) == op.context.config.metrics_enabled,
        outcome is Ok ==> connected.1 is StartHeartbeat && connected.0.context.heartbeat,
        outcome matches Err(e) ==> connected.1 == SetupAction::Fail(e),
{
}

/// Metrics are pushed as the configuration says, or else as the file of the properties
/// does; then the context is ready.
pub proof fn law_push_follows_the_settings(
    op: SetupOp,
    r: (SetupOp, SetupAction),
    p: SetupOp,
    outcome: Result<GoosefsConfig>,
    read: (SetupOp, SetupAction),
)
    requires
        call_ensures(SetupOp::task_started, (op,), r),
        call_ensures(SetupOp::properties_read, (p, outcome), read),
    ensures
        op.phase is Heartbeat && op.context.config.pushgateway_enabled ==> r.1 is PushAsConfigured
            && r.0.context.pushing,
        op.phase is Heartbeat && !op.context.config.pushgateway_enabled ==> r.1 is ReadProperties
            && r.0.context.pushing == op.context.pushing,
        op.phase is Push ==> r.1 is Ready,
        outcome matches Ok(file) ==> file.pushgateway_enabled ==> read.1
            == SetupAction::PushAsInFile(file) && read.0.context.pushing,
        outcome matches Ok(file) ==> !file.pushgateway_enabled ==> read.1 is Ready,
        outcome is Err ==> read.1 is Ready,
{
}

} // verus!
