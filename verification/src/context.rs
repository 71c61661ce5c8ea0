//! The shared context of a client: its connections and its background tasks.

use vstd::prelude::*;
use vstd::string::*;

use crate::clock::Duration;
use crate::config::settings::GoosefsConfig;
use crate::error::{Error, ErrorView, Result};
use crate::metrics::pushgateway::PushgatewayConfig;
use crate::proto::WorkerInfo;
use crate::text::{decimal, push_decimal};

verus! {

/// Time between two checks of the list of workers, in seconds.
pub const REFRESH_CHECK_SECS: u64 = 30;

/// Time between two checks of the configuration, in seconds.
pub const CONFIG_REFRESH_SECS: u64 = 60;

/// How long a worker counts as failed, in seconds.
pub const FAILURE_TTL_SECS: u64 = 60;

/// How long a list of workers counts as fresh, in seconds.
pub const WORKER_REFRESH_TTL_SECS: u64 = 30;

/// The message of a cluster without workers.
pub const NO_WORKERS: &'static str = "no workers available at startup";

/// Address of a machine that has no other.
pub const FALLBACK_IP: &'static str = "127.0.0.1";

/// Time between two checks of the list of workers.
pub fn refresh_check_interval() -> (r: Duration)
    ensures
        r == Duration::secs(30),
{
    Duration::from_secs(REFRESH_CHECK_SECS)
}

/// Time between two checks of the configuration.
pub fn config_refresh_interval() -> (r: Duration)
    ensures
        r == Duration::secs(60),
{
    Duration::from_secs(CONFIG_REFRESH_SECS)
}

/// The shared context of a client.
#[derive(Debug)]
pub struct FileSystemContext {
    /// The configuration it was made with.
    pub config: GoosefsConfig,
    /// Whether the local page cache is in use.
    pub cache: bool,
    /// Whether it has been closed.
    pub closed: bool,
    /// Whether the tasks that refresh the workers and the configuration run.
    pub refreshing: bool,
    /// Whether the heartbeat runs.
    pub heartbeat: bool,
    /// Whether metrics are pushed.
    pub pushing: bool,
}

/// What is to be stopped when a context is closed.
#[derive(Debug, Clone, Copy, PartialEq, Eq, Structural)]
pub struct CloseActions {
    /// Abort the tasks that refresh the workers and the configuration.
    pub abort_refresh: bool,
    /// Send the last heartbeat and end its task.
    pub shut_heartbeat: bool,
    /// Make the last push and end its task.
    pub shut_push: bool,
}

impl FileSystemContext {
    /// The context once it has been closed.
    pub open spec fn after_close(self) -> FileSystemContext {
        if self.closed {
            self
        } else {
            FileSystemContext {
                closed: true,
                refreshing: false,
                heartbeat: false,
                pushing: false,
                ..self
            }
        }
    }

    /// What is to be stopped when the context is closed: every task that runs, and
    /// nothing if it was closed before.
    pub open spec fn to_stop(self) -> CloseActions {
        CloseActions {
            abort_refresh: !self.closed && self.refreshing,
            shut_heartbeat: !self.closed && self.heartbeat,
            shut_push: !self.closed && self.pushing,
        }
    }

    /// The configuration.
    pub fn config(&self) -> (r: &GoosefsConfig)
        ensures
            *r == self.config,
    {
        &self.config
    }

    /// Tells whether the context has been closed.
    pub fn is_closed(&self) -> (r: bool)
        ensures
            r == self.closed,
    {
        self.closed
    }

    /// Closes the context, and gives out what is to be stopped: every task that
    /// runs, the first time, and nothing from then on.
    pub fn close(&mut self) -> (r: CloseActions)
        ensures
            *final(self) == old(self).after_close(),
            r == old(self).to_stop(),
    {
        if self.closed {
            return CloseActions { abort_refresh: false, shut_heartbeat: false, shut_push: false };
        }
        let actions = CloseActions {
            abort_refresh: self.refreshing,
            shut_heartbeat: self.heartbeat,
            shut_push: self.pushing,
        };
        self.closed = true;
        self.refreshing = false;
        self.heartbeat = false;
        self.pushing = false;
        actions
    }
}

/// To close a context again changes nothing and stops nothing.
pub proof fn law_close_is_idempotent(context: FileSystemContext)
    ensures
        context.after_close().closed,
        context.after_close().after_close() == context.after_close(),
        context.after_close().to_stop() == (CloseActions {
            abort_refresh: false,
            shut_heartbeat: false,
            shut_push: false,
        }),
{
}

/// What a refresh task does when it wakes.
#[derive(Debug, Clone, Copy, PartialEq, Eq, Structural)]
pub enum RefreshAction {
    /// End.
    End,
    /// Refresh, and sleep again.
    Refresh,
    /// Sleep again.
    Sleep,
}

/// What the task that refreshes the workers does when it wakes: it ends if the
/// context is closed, and refreshes a list that is stale.
pub fn worker_refresh_woken(closed: bool, stale: bool) -> (r: RefreshAction)
    ensures
        r == (if closed {
            RefreshAction::End
        } else if stale {
            RefreshAction::Refresh
        } else {
            RefreshAction::Sleep
        }),
{
    if closed {
        RefreshAction::End
    } else if stale {
        RefreshAction::Refresh
    } else {
        RefreshAction::Sleep
    }
}

/// The name under which a process pushes its metrics if none is configured: the
/// address of the machine and the number of the process.
pub fn process_instance(ip: &str, pid: u32) -> (r: String)
    ensures
        r@ == ip@ + seq![':'] + decimal(pid as nat),
{
    let mut out = ip.to_owned();
    out.push(':');
    push_decimal(&mut out, pid as u128);
    assert(out@ =~= ip@ + seq![':'] + decimal(pid as nat));
    out
}

/// The address of the machine, or the fallback if it could not be found out.
pub fn local_ip(found: Option<String>) -> (r: String)
    ensures
        r@ == (match found {
            Some(ip) => ip@,
            None => FALLBACK_IP@,
        }),
{
    match found {
        Some(ip) => ip,
        None => FALLBACK_IP.to_owned(),
    }
}

/// Tells whether `r` holds the push settings of `config`, with the instance of the
/// process where none is configured.
pub open spec fn pushes_as(
    r: PushgatewayConfig,
    config: GoosefsConfig,
    ip: Seq<char>,
    pid: u32,
) -> bool {
    &&& r.endpoint@ == config.pushgateway_endpoint@
    &&& r.job@ == config.pushgateway_job@
    &&& r.push_interval == config.pushgateway_push_interval
    &&& r.extra_labels@.len() == 0
    &&& r.instance matches Some(instance) && instance@ == (match config.pushgateway_instance {
        Some(i) => i@,
        None => ip + seq![':'] + decimal(pid as nat),
    })
}

/// The push settings of a configuration.
pub fn push_settings(config: &GoosefsConfig, ip: &str, pid: u32) -> (r: PushgatewayConfig)
    ensures
        pushes_as(r, *config, ip@, pid),
{
    let settings = PushgatewayConfig::new(
        &config.pushgateway_endpoint,
        &config.pushgateway_job,
    ).with_push_interval(config.pushgateway_push_interval);
    match &config.pushgateway_instance {
        Some(instance) => settings.with_instance(instance),
        None => settings.with_instance(&process_instance(ip, pid)),
    }
}

/// Where setting up a context stands.
#[derive(Debug, Clone, Copy, PartialEq, Eq, Structural)]
pub enum SetupPhase {
    /// The master and the worker manager are connected to.
    Clients,
    /// The workers are listed.
    Workers,
    /// The workers are put to use, and the cache is opened if it is wanted.
    Cache,
    /// The refresh tasks are started.
    Refresh,
    /// The metrics service is connected to.
    Metrics,
    /// The heartbeat is started.
    Heartbeat,
    /// The properties file is read.
    Properties,
    /// The push task is started.
    Push,
    /// Setting up has ended.
    Ended,
}

/// What setting up a context asks for.
#[derive(Debug)]
pub enum SetupAction {
    /// Connect to the master and to the worker manager.
    ConnectClients,
    /// List the workers.
    ListWorkers,
    /// Put the workers to use, and open the local page cache if the flag is set.
    UseWorkers(Vec<WorkerInfo>, bool),
    /// Start the tasks that refresh the workers and the configuration.
    StartRefresh,
    /// Connect to the metrics service.
    ConnectMetrics,
    /// Start the heartbeat.
    StartHeartbeat,
    /// Read the properties file.
    ReadProperties,
    /// Start to push metrics with the settings of the context's configuration.
    PushAsConfigured,
    /// Start to push metrics with the settings of the properties file.
    PushAsInFile(GoosefsConfig),
    /// The context is ready.
    Ready,
    /// Return the error.
    Fail(Error),
}

/// Setting up a context.
#[derive(Debug)]
pub struct SetupOp {
    /// Where setting up stands.
    pub phase: SetupPhase,
    /// The context so far.
    pub context: FileSystemContext,
}

impl SetupOp {
    /// Starts to set up a context.
    pub fn start(config: GoosefsConfig) -> (r: (SetupOp, SetupAction))
        ensures
            r.0.phase == SetupPhase::Clients,
            r.0.context == (FileSystemContext {
                config,
                cache: false,
                closed: false,
                refreshing: false,
                heartbeat: false,
                pushing: false,
            }),
            r.1 is ConnectClients,
            r.0.heeds_metrics(),
    {
        let context = FileSystemContext {
            config,
            cache: false,
            closed: false,
            refreshing: false,
            heartbeat: false,
            pushing: false,
        };
        (SetupOp { phase: SetupPhase::Clients, context }, SetupAction::ConnectClients)
    }

    /// Tells whether metrics are left alone where they are disabled: then no
    /// connection to the metrics service is made and no heartbeat is started.
    pub open spec fn heeds_metrics(self) -> bool {
        !self.context.config.metrics_enabled ==> !self.context.heartbeat && self.phase
            != SetupPhase::Metrics && self.phase != SetupPhase::Heartbeat
    }

    /// Tells whether setting up fails with the given error.
    pub open spec fn fails(self, r: (SetupOp, SetupAction), e: Error) -> bool {
        &&& r.0 == (SetupOp { phase: SetupPhase::Ended, ..self })
        &&& r.1 == SetupAction::Fail(e)
    }

    /// Tells whether setting up goes on to push metrics, or to find out whether it
    /// should, with the context given.
    pub open spec fn goes_on_to_push(
        context: FileSystemContext,
        r: (SetupOp, SetupAction),
    ) -> bool {
        if context.config.pushgateway_enabled {
            &&& r.0 == (SetupOp {
                phase: SetupPhase::Push,
                context: FileSystemContext { pushing: true, ..context },
            })
            &&& r.1 is PushAsConfigured
        } else {
            &&& r.0 == (SetupOp { phase: SetupPhase::Properties, context })
            &&& r.1 is ReadProperties
        }
    }

    fn fail(self, e: Error) -> (r: (SetupOp, SetupAction))
        ensures
            self.fails(r, e),
    {
        (SetupOp { phase: SetupPhase::Ended, context: self.context }, SetupAction::Fail(e))
    }

    fn push(context: FileSystemContext) -> (r: (SetupOp, SetupAction))
        ensures
            SetupOp::goes_on_to_push(context, r),
    {
        if context.config.pushgateway_enabled {
            let mut context = context;
            context.pushing = true;
            (SetupOp { phase: SetupPhase::Push, context }, SetupAction::PushAsConfigured)
        } else {
            (SetupOp { phase: SetupPhase::Properties, context }, SetupAction::ReadProperties)
        }
    }

    /// Takes in whether the master and the worker manager were connected to.
    pub fn clients_connected(self, master: Result<()>, manager: Result<()>) -> (r: (
        SetupOp,
        SetupAction,
    ))
        requires
            self.phase == SetupPhase::Clients,
        ensures
            self.heeds_metrics() ==> r.0.heeds_metrics() && (r.1 is ConnectMetrics || r.1 is StartHeartbeat
                ==> self.context.config.metrics_enabled),
            match (master, manager) {
                (Err(e), _) => self.fails(r, e),
                (Ok(_), Err(e)) => self.fails(r, e),
                (Ok(_), Ok(_)) => r.0 == (SetupOp { phase: SetupPhase::Workers, ..self })
                    && r.1 is ListWorkers,
            },
    {
        match master {
            Err(e) => self.fail(e),
            Ok(_) => match manager {
                Err(e) => self.fail(e),
                Ok(_) => (
                    SetupOp { phase: SetupPhase::Workers, context: self.context },
                    SetupAction::ListWorkers,
                ),
            },
        }
    }

    /// Takes in the list of workers. A cluster without workers is refused.
    pub fn workers_listed(self, outcome: Result<Vec<WorkerInfo>>) -> (r: (SetupOp, SetupAction))
        requires
            self.phase == SetupPhase::Workers,
        ensures
            self.heeds_metrics() ==> r.0.heeds_metrics() && (r.1 is ConnectMetrics || r.1 is StartHeartbeat
                ==> self.context.config.metrics_enabled),
            match outcome {
                Err(e) => self.fails(r, e),
                Ok(workers) => if workers@.len() == 0 {
                    &&& r.0 == (SetupOp { phase: SetupPhase::Ended, ..self })
                    &&& r.1 matches SetupAction::Fail(e) && e@ == (ErrorView::NoWorkerAvailable {
                        message: NO_WORKERS@,
                    })
                } else {
                    &&& r.0 == (SetupOp { phase: SetupPhase::Cache, ..self })
                    &&& r.1 == SetupAction::UseWorkers(
                        workers,
                        self.context.config.client_cache_enabled,
                    )
                },
            },
    {
        match outcome {
            Err(e) => self.fail(e),
            Ok(workers) => if workers.len() == 0 {
                self.fail(Error::NoWorkerAvailable { message: NO_WORKERS.to_owned() })
            } else {
                let wanted = self.context.config.client_cache_enabled;
                (
                    SetupOp { phase: SetupPhase::Cache, context: self.context },
                    SetupAction::UseWorkers(workers, wanted),
                )
            },
        }
    }

    /// Takes in whether the cache was opened. A context does without a cache that
    /// could not be opened.
    pub fn cache_opened(self, opened: bool) -> (r: (SetupOp, SetupAction))
        requires
            self.phase == SetupPhase::Cache,
        ensures
            self.heeds_metrics() ==> r.0.heeds_metrics() && (r.1 is ConnectMetrics || r.1 is StartHeartbeat
                ==> self.context.config.metrics_enabled),
            r.0 == (SetupOp {
                phase: SetupPhase::Refresh,
                context: FileSystemContext {
                    cache: self.context.config.client_cache_enabled && opened,
                    refreshing: true,
                    ..self.context
                },
            }),
            r.1 is StartRefresh,
    {
        let mut context = self.context;
        context.cache = context.config.client_cache_enabled && opened;
        context.refreshing = true;
        (SetupOp { phase: SetupPhase::Refresh, context }, SetupAction::StartRefresh)
    }

    /// Goes on once the tasks that were asked for have been started. The metrics
    /// service is connected to only if metrics are enabled.
    pub fn task_started(self) -> (r: (SetupOp, SetupAction))
        requires
            self.phase == SetupPhase::Refresh || self.phase == SetupPhase::Heartbeat || self.phase
                == SetupPhase::Push,
        ensures
            self.heeds_metrics() ==> r.0.heeds_metrics() && (r.1 is ConnectMetrics || r.1 is StartHeartbeat
                ==> self.context.config.metrics_enabled),
            if self.phase == SetupPhase::Push {
                r.0 == (SetupOp { phase: SetupPhase::Ended, ..self }) && r.1 is Ready
            } else if self.phase == SetupPhase::Refresh && self.context.config.metrics_enabled {
                r.0 == (SetupOp { phase: SetupPhase::Metrics, ..self }) && r.1 is ConnectMetrics
            } else {
                SetupOp::goes_on_to_push(self.context, r)
            },
    {
        match self.phase {
            SetupPhase::Push => (
                SetupOp { phase: SetupPhase::Ended, context: self.context },
                SetupAction::Ready,
            ),
            SetupPhase::Refresh => if self.context.config.metrics_enabled {
                (
                    SetupOp { phase: SetupPhase::Metrics, context: self.context },
                    SetupAction::ConnectMetrics,
                )
            } else {
                SetupOp::push(self.context)
            },
            _ => SetupOp::push(self.context),
        }
    }

    /// Takes in whether the metrics service was connected to.
    pub fn metrics_connected(self, outcome: Result<()>) -> (r: (SetupOp, SetupAction))
        requires
            self.phase == SetupPhase::Metrics,
        ensures
            self.heeds_metrics() ==> r.0.heeds_metrics() && (r.1 is ConnectMetrics || r.1 is StartHeartbeat
                ==> self.context.config.metrics_enabled),
            match outcome {
                Err(e) => self.fails(r, e),
                Ok(_) => {
                    &&& r.0 == (SetupOp {
                        phase: SetupPhase::Heartbeat,
                        context: FileSystemContext { heartbeat: true, ..self.context },
                    })
                    &&& r.1 is StartHeartbeat
                },
            },
    {
        match outcome {
            Err(e) => self.fail(e),
            Ok(_) => {
                let mut context = self.context;
                context.heartbeat = true;
                (SetupOp { phase: SetupPhase::Heartbeat, context }, SetupAction::StartHeartbeat)
            },
        }
    }

    /// Takes in what the properties file says. Metrics are pushed if the file asks
    /// for it, though the configuration does not.
    pub fn properties_read(self, outcome: Result<GoosefsConfig>) -> (r: (SetupOp, SetupAction))
        requires
            self.phase == SetupPhase::Properties,
        ensures
            self.heeds_metrics() ==> r.0.heeds_metrics() && (r.1 is ConnectMetrics || r.1 is StartHeartbeat
                ==> self.context.config.metrics_enabled),
            match outcome {
                Ok(file) if file.pushgateway_enabled => {
                    &&& r.0 == (SetupOp {
                        phase: SetupPhase::Push,
                        context: FileSystemContext { pushing: true, ..self.context },
                    })
                    &&& r.1 == SetupAction::PushAsInFile(file)
                },
                _ => r.0 == (SetupOp { phase: SetupPhase::Ended, ..self }) && r.1 is Ready,
            },
    {
        match outcome {
            Ok(file) => if file.pushgateway_enabled {
                let mut context = self.context;
                context.pushing = true;
                (SetupOp { phase: SetupPhase::Push, context }, SetupAction::PushAsInFile(file))
            } else {
                (SetupOp { phase: SetupPhase::Ended, context: self.context }, SetupAction::Ready)
            },
            Err(_) => (
                SetupOp { phase: SetupPhase::Ended, context: self.context },
                SetupAction::Ready,
            ),
        }
    }
}

} // verus!
