//! The configuration record, its defaults, builders and validation.

use vstd::prelude::*;
use vstd::string::*;

use crate::auth::auth_type_named;
use crate::auth::AuthType;
use crate::clock::Duration;
use crate::clock::NANOS_PER_MILLI;
use crate::config::kinds::unknown_write_type;
use crate::config::kinds::write_type_named;
use crate::config::kinds::CacheEvictorType;
use crate::config::kinds::WriteType;
use crate::config::values::text_at;
use crate::config::values::TextMap;
use crate::proto::WritePType;
use crate::text::decimal;
use crate::text::decimal_int;
use crate::text::drop_leading;
use crate::text::drop_trailing;
use crate::text::only;
use crate::text::push_decimal;
use crate::text::push_decimal_i64;
use crate::text::trim_end_char;
use crate::text::trim_start_char;
use crate::text::views;

verus! {

/// Smallest heartbeat and push interval, in milliseconds.
pub const MIN_METRICS_HEARTBEAT_INTERVAL_MS: u64 = 1000;

/// Configuration of the client.
#[derive(Debug, Clone)]
pub struct GoosefsConfig {
    /// Primary master address in `host:port` format .
    pub master_addr: String,
    /// Multiple master addresses for HA deployments.
    pub master_addrs: Vec<String>,
    /// Default block size in bytes for new files.
    pub block_size: u64,
    /// Chunk size for streaming read/write RPCs.
    pub chunk_size: u64,
    /// Connect timeout for gRPC channels.
    pub connect_timeout: Duration,
    /// Request timeout for individual RPCs.
    pub request_timeout: Duration,
    /// Whether to use VPC mapping addresses from WorkerNetAddress.
    pub use_vpc_mapping: bool,
    /// Root path prefix for all operations (e.g. `/goosefs-data`).
    pub root: String,
    /// Default write type for newly created files.
    pub write_type: Option<i32>,
    /// Sequential-read prefetch window in chunks (default: 8).
    pub prefetch_window: i32,
    /// Receive-buffer depth (in messages) between the background stream-drain
    /// task and the consumer (default: 16).
    pub read_buffer_messages: usize,
    /// Flow-control ACK coalescing threshold in bytes (default: 0 = ACK every
    /// chunk). Coalescing (>0) is opt-in and only safe on workers that honour
    /// `prefetch_window`; otherwise it can stall the read flow-control window.
    pub ack_interval_bytes: i64,
    /// Flow-control ACK coalescing threshold in chunks (default: 1 = every
    /// chunk). See `ack_interval_bytes`.
    pub ack_interval_chunks: u32,
    /// Number of independent Master gRPC channels to pool (default: 1).
    pub master_connection_pool_size: usize,
    /// Number of independent gRPC channels to pool **per worker** (default: 1).
    pub worker_connection_pool_size: usize,
    /// Maximum total duration for master inquire retries (default: 2 min).
    pub master_inquire_retry_max_duration: Duration,
    /// Initial sleep time between master inquire polling rounds (default: 50
    /// ms).
    pub master_inquire_initial_sleep: Duration,
    /// Maximum sleep time between master inquire polling rounds (default: 3 s).
    pub master_inquire_max_sleep: Duration,
    /// Timeout for a single master polling ping RPC (default: 30 s).
    pub master_polling_timeout: Duration,
    /// Authentication type (default: `Simple`).
    pub auth_type: AuthType,
    /// Username for authentication (default: current OS user).
    pub auth_username: String,
    /// Authentication timeout (default: 30 s).
    pub auth_timeout: Duration,
    /// Config manager RPC addresses.
    pub config_manager_rpc_addresses: Vec<String>,
    /// Config manager RPC port (default: 9214).
    pub config_rpc_port: u16,
    /// Whether transparent acceleration is enabled (default: true).
    pub transparent_acceleration_enabled: bool,
    /// Whether transparent acceleration cosranger is enabled (default: false).
    pub transparent_acceleration_cosranger_enabled: bool,
    /// Whether access control based on file permission is enabled (default:
    /// false).
    pub authorization_permission_enabled: bool,
    /// Impersonation username for SIMPLE/CUSTOM authentication.
    pub login_impersonation_username: String,
    /// Whether client metrics collection and heartbeat reporting is enabled.
    pub metrics_enabled: bool,
    /// Interval between successive metrics heartbeat RPCs (default: 10 s).
    pub metrics_heartbeat_interval: Duration,
    /// Per-heartbeat RPC timeout (default: 5 s).
    pub metrics_heartbeat_timeout: Duration,
    /// Application ID for metric source attribution (default: `None`).
    pub app_id: Option<String>,
    /// Maximum number of `Metric` entries per single heartbeat RPC (default:
    /// 1024).
    pub metrics_max_batch_size: usize,
    /// Whether to enable Prometheus Pushgateway metrics push (default:
    /// `false`).
    pub pushgateway_enabled: bool,
    /// Pushgateway endpoint URL (default: `"http://127.0.0.1:9091"`).
    pub pushgateway_endpoint: String,
    /// Pushgateway push interval (default: 10 s).
    pub pushgateway_push_interval: Duration,
    /// Pushgateway job label (default: `"goosefs_client"`).
    pub pushgateway_job: String,
    /// Pushgateway instance label (default: `None`).
    pub pushgateway_instance: Option<String>,
    /// Whether the client-side local page cache is enabled (default: `false`).
    pub client_cache_enabled: bool,
    /// Cache page size in bytes (default: 1 MiB).
    pub client_cache_page_size: u64,
    /// Per-directory cache capacity in bytes (default: 512 MiB).
    pub client_cache_size: u64,
    /// Local cache directories (default: `["/tmp/goosefs_cache"]`).
    pub client_cache_dirs: Vec<String>,
    /// Page eviction policy (default: `LRU`).
    pub client_cache_evictor: CacheEvictorType,
    /// Whether async write-back (cache fill) is enabled (default: `true`).
    pub client_cache_async_write_enabled: bool,
    /// Async write-back concurrency (default: 16).
    pub client_cache_async_write_threads: usize,
    /// Whether per-scope cache quota is enabled (default: `false`).
    pub client_cache_quota_enabled: bool,
    /// Page time-to-live in seconds; `0` means no expiry (default: `0`).
    pub client_cache_ttl_secs: u64,
    /// Whether **sequential** reads (`read`) are routed through the local page
    /// cache (default: `false`).
    pub client_cache_sequential_read_enabled: bool,
    /// Master kill switch for the short-circuit local read path (default:
    /// `true`).
    pub short_circuit_enabled: bool,
    /// Per-task LRU capacity for hot-block readers (default: 64).
    /// `goosefs.client.short.circuit.cache.capacity`.
    pub short_circuit_cache_capacity: usize,
    /// Idle TTL after which a cached SC reader is dropped (default: 30 s).
    /// `goosefs.client.short.circuit.cache.ttl`.
    pub short_circuit_cache_ttl: Duration,
    /// Negative-cache TTL: a block that failed SC is not retried for this long
    /// (default: 5 s). `goosefs.client.short.circuit.neg.cache.ttl`.
    pub short_circuit_neg_cache_ttl: Duration,
    /// L1 kernel-readahead hint: `sequential | random | normal | none`
    /// (default: `random`). `goosefs.client.short.circuit.advise`.
    pub short_circuit_advise: String,
    /// L2 application-level prefetch master switch (default: `true`). When
    /// `false`, `prefetch` / `prefetch_many` degrade to no-ops.
    /// `goosefs.client.short.circuit.prefetch.enabled`.
    pub short_circuit_prefetch_enabled: bool,
    /// Max gap (bytes) between adjacent ranges merged by `prefetch_many`
    /// (default: 64 KiB). `goosefs.client.short.circuit.prefetch.coalesce.gap`.
    pub short_circuit_prefetch_coalesce_gap: usize,
    /// Max number of `madvise` calls issued per `prefetch_many` (default:
    /// 1024). `goosefs.client.short.circuit.prefetch.max.batch`.
    pub short_circuit_prefetch_max_batch: usize,
    /// Minimum block size (bytes) to attempt SC; smaller blocks skip SC
    /// (default: 0 = no minimum).
    /// `goosefs.client.short.circuit.min.block.size`.
    pub short_circuit_min_block_size: i64,
}

/// The name of the operating-system user: the variable `USER`, else
/// `USERNAME`, else `unknown`.
pub open spec fn login_name(env: Map<Seq<char>, Seq<char>>) -> Seq<char> {
    match text_at(env, "USER"@) {
        Some(s) => s,
        None => match text_at(env, "USERNAME"@) {
            Some(s) => s,
            None => "unknown"@,
        },
    }
}

/// The name of the operating-system user: the variable `USER`, else
/// `USERNAME`, else `unknown`.
pub fn default_auth_username(env: &TextMap) -> (r: String)
    ensures
        r@ == login_name(env@),
{
    match env.get("USER") {
        Some(s) => s.to_owned(),
        None => match env.get("USERNAME") {
            Some(s) => s.to_owned(),
            None => "unknown".to_owned(),
        },
    }
}

impl GoosefsConfig {
    /// Every setting but the master addresses has its built-in value, for the
    /// operating-system user `user`.
    pub open spec fn builtin(self, user: Seq<char>) -> bool {
        &&& self.block_size == 67108864
        &&& self.chunk_size == 1048576
        &&& self.connect_timeout == Duration::millis(30000)
        &&& self.request_timeout == Duration::millis(300000)
        &&& self.use_vpc_mapping == false
        &&& self.root@ == Seq::<char>::empty()
        &&& self.write_type is None
        &&& self.prefetch_window == 8
        &&& self.read_buffer_messages == 16
        &&& self.ack_interval_bytes == 0
        &&& self.ack_interval_chunks == 1
        &&& self.master_connection_pool_size == 1
        &&& self.worker_connection_pool_size == 1
        &&& self.master_inquire_retry_max_duration == Duration::millis(120000)
        &&& self.master_inquire_initial_sleep == Duration::millis(50)
        &&& self.master_inquire_max_sleep == Duration::millis(3000)
        &&& self.master_polling_timeout == Duration::millis(30000)
        &&& self.auth_type == AuthType::Simple
        &&& self.auth_username@ == user
        &&& self.auth_timeout == Duration::millis(30000)
        &&& views(self.config_manager_rpc_addresses@) == Seq::<Seq<char>>::empty()
        &&& self.config_rpc_port == 9214
        &&& self.transparent_acceleration_enabled == true
        &&& self.transparent_acceleration_cosranger_enabled == false
        &&& self.authorization_permission_enabled == false
        &&& self.login_impersonation_username@ == "_HDFS_USER_"@
        &&& self.metrics_enabled == true
        &&& self.metrics_heartbeat_interval == Duration::millis(10000)
        &&& self.metrics_heartbeat_timeout == Duration::millis(5000)
        &&& self.app_id is None
        &&& self.metrics_max_batch_size == 1024
        &&& self.pushgateway_enabled == false
        &&& self.pushgateway_endpoint@ == "http://127.0.0.1:9091"@
        &&& self.pushgateway_push_interval == Duration::millis(10000)
        &&& self.pushgateway_job@ == "goosefs_client"@
        &&& self.pushgateway_instance is None
        &&& self.client_cache_enabled == false
        &&& self.client_cache_page_size == 1048576
        &&& self.client_cache_size == 536870912
        &&& views(self.client_cache_dirs@) == seq!["/tmp/goosefs_cache"@]
        &&& self.client_cache_evictor == CacheEvictorType::Lru
        &&& self.client_cache_async_write_enabled == true
        &&& self.client_cache_async_write_threads == 16
        &&& self.client_cache_quota_enabled == false
        &&& self.client_cache_ttl_secs == 0
        &&& self.client_cache_sequential_read_enabled == false
        &&& self.short_circuit_enabled == true
        &&& self.short_circuit_cache_capacity == 64
        &&& self.short_circuit_cache_ttl == Duration::millis(30000)
        &&& self.short_circuit_neg_cache_ttl == Duration::millis(5000)
        &&& self.short_circuit_advise@ == "random"@
        &&& self.short_circuit_prefetch_enabled == true
        &&& self.short_circuit_prefetch_coalesce_gap == 65536
        &&& self.short_circuit_prefetch_max_batch == 1024
        &&& self.short_circuit_min_block_size == 0
    }

    /// The built-in configuration for the user that the environment names.
    pub fn default(env: &TextMap) -> (r: Self)
        ensures
            r.master_addr@ == "127.0.0.1:9200"@,
            r.master_addrs@.len() == 0,
            r.builtin(login_name(env@)),
    {
        let mut dirs: Vec<String> = Vec::new();
        dirs.push("/tmp/goosefs_cache".to_owned());
        let r = GoosefsConfig {
            master_addr: "127.0.0.1:9200".to_owned(),
            master_addrs: Vec::new(),
            block_size: 67108864,
            chunk_size: 1048576,
            connect_timeout: Duration::from_millis(30000),
            request_timeout: Duration::from_millis(300000),
            use_vpc_mapping: false,
            root: String::new(),
            write_type: None,
            prefetch_window: 8,
            read_buffer_messages: 16,
            ack_interval_bytes: 0,
            ack_interval_chunks: 1,
            master_connection_pool_size: 1,
            worker_connection_pool_size: 1,
            master_inquire_retry_max_duration: Duration::from_millis(120000),
            master_inquire_initial_sleep: Duration::from_millis(50),
            master_inquire_max_sleep: Duration::from_millis(3000),
            master_polling_timeout: Duration::from_millis(30000),
            auth_type: AuthType::Simple,
            auth_username: default_auth_username(env),
            auth_timeout: Duration::from_millis(30000),
            config_manager_rpc_addresses: Vec::new(),
            config_rpc_port: 9214,
            transparent_acceleration_enabled: true,
            transparent_acceleration_cosranger_enabled: false,
            authorization_permission_enabled: false,
            login_impersonation_username: "_HDFS_USER_".to_owned(),
            metrics_enabled: true,
            metrics_heartbeat_interval: Duration::from_millis(10000),
            metrics_heartbeat_timeout: Duration::from_millis(5000),
            app_id: None,
            metrics_max_batch_size: 1024,
            pushgateway_enabled: false,
            pushgateway_endpoint: "http://127.0.0.1:9091".to_owned(),
            pushgateway_push_interval: Duration::from_millis(10000),
            pushgateway_job: "goosefs_client".to_owned(),
            pushgateway_instance: None,
            client_cache_enabled: false,
            client_cache_page_size: 1048576,
            client_cache_size: 536870912,
            client_cache_dirs: dirs,
            client_cache_evictor: CacheEvictorType::Lru,
            client_cache_async_write_enabled: true,
            client_cache_async_write_threads: 16,
            client_cache_quota_enabled: false,
            client_cache_ttl_secs: 0,
            client_cache_sequential_read_enabled: false,
            short_circuit_enabled: true,
            short_circuit_cache_capacity: 64,
            short_circuit_cache_ttl: Duration::from_millis(30000),
            short_circuit_neg_cache_ttl: Duration::from_millis(5000),
            short_circuit_advise: "random".to_owned(),
            short_circuit_prefetch_enabled: true,
            short_circuit_prefetch_coalesce_gap: 65536,
            short_circuit_prefetch_max_batch: 1024,
            short_circuit_min_block_size: 0,
        };
        proof {
            assert(views(r.client_cache_dirs@) =~= seq!["/tmp/goosefs_cache"@]);
            assert(views(r.config_manager_rpc_addresses@) =~= Seq::<Seq<char>>::empty());
        }
        r
    }
}

/// The full path below `root`: joined by one slash, or the path itself if
/// there is no root.
pub open spec fn path_below(root: Seq<char>, path: Seq<char>) -> Seq<char> {
    if root.len() == 0 {
        path
    } else {
        drop_trailing(root, only('/')) + "/"@ + drop_leading(path, only('/'))
    }
}

impl GoosefsConfig {
    /// A configuration with one master, for the user that the environment names.
    pub fn new(master_addr: &str, env: &TextMap) -> (r: Self)
        ensures
            r.master_addr@ == master_addr@,
            r.master_addrs@.len() == 0,
            r.builtin(login_name(env@)),
    {
        let mut c = GoosefsConfig::default(env);
        c.master_addr = master_addr.to_owned();
        c
    }

    /// A configuration with several masters, the first of which also stands
    /// alone in `master_addr`, for the user that the environment names.
    pub fn new_ha(addrs: Vec<String>, env: &TextMap) -> (r: Self)
        requires
            addrs@.len() > 0,
        ensures
            r.master_addr@ == addrs@[0]@,
            r.master_addrs == addrs,
            r.builtin(login_name(env@)),
    {
        let mut c = GoosefsConfig::default(env);
        c.master_addr = addrs[0].clone();
        c.master_addrs = addrs;
        c
    }

    /// A configuration with one master or with several, by the number of
    /// addresses, for the user that the environment names.
    pub fn from_addresses(addrs: Vec<String>, env: &TextMap) -> (r: Self)
        requires
            addrs@.len() > 0,
        ensures
            r.master_addr@ == addrs@[0]@,
            addrs@.len() == 1 ==> r.master_addrs@.len() == 0,
            addrs@.len() > 1 ==> r.master_addrs == addrs,
            r.builtin(login_name(env@)),
    {
        if addrs.len() == 1 {
            GoosefsConfig::new(addrs[0].as_str(), env)
        } else {
            GoosefsConfig::new_ha(addrs, env)
        }
    }

    /// The master addresses in effect.
    pub open spec fn effective_masters(self) -> Seq<Seq<char>> {
        if self.master_addrs@.len() == 0 {
            seq![self.master_addr@]
        } else {
            views(self.master_addrs@)
        }
    }

    /// The master addresses in effect: the list, or `master_addr` alone if the
    /// list is empty.
    pub fn master_addresses(&self) -> (r: Vec<String>)
        ensures
            views(r@) == self.effective_masters(),
    {
        let mut out: Vec<String> = Vec::new();
        if self.master_addrs.len() == 0 {
            out.push(self.master_addr.clone());
            proof {
                assert(views(out@) =~= seq![self.master_addr@]);
            }
            return out;
        }
        let mut i: usize = 0;
        while i < self.master_addrs.len()
            invariant
                i <= self.master_addrs@.len(),
                out@.len() == i,
                forall|k: int| 0 <= k < i ==> #[trigger] out@[k]@ == self.master_addrs@[k]@,
            decreases self.master_addrs@.len() - i,
        {
            out.push(self.master_addrs[i].clone());
            i = i + 1;
        }
        proof {
            assert(views(out@) =~= views(self.master_addrs@));
        }
        out
    }

    /// Tells whether there are several masters.
    pub fn is_multi_master(&self) -> (r: bool)
        ensures
            r == (self.master_addrs@.len() > 1),
    {
        self.master_addrs.len() > 1
    }

    /// The path below the root of the configuration.
    pub fn full_path(&self, path: &str) -> (r: String)
        ensures
            r@ == path_below(self.root@, path@),
    {
        if self.root.as_str().is_empty() {
            path.to_owned()
        } else {
            let mut out = trim_end_char(self.root.as_str(), '/').to_owned();
            out.append("/");
            out.append(trim_start_char(path, '/'));
            out
        }
    }

    /// The endpoint of the master.
    pub fn master_endpoint(&self) -> (r: String)
        ensures
            r@ == "http://"@ + self.master_addr@,
    {
        let mut out = "http://".to_owned();
        out.append(self.master_addr.as_str());
        out
    }

    /// The endpoint of a worker.
    pub fn worker_endpoint(&self, host: &str, rpc_port: i32) -> (r: String)
        ensures
            r@ == "http://"@ + host@ + ":"@ + decimal_int(rpc_port as int),
    {
        let mut out = "http://".to_owned();
        out.append(host);
        out.append(":");
        push_decimal_i64(&mut out, rpc_port as i64);
        out
    }

    /// Sets the authentication type.
    pub fn with_auth_type(self, auth_type: AuthType) -> (r: Self)
        ensures
            r == (GoosefsConfig { auth_type, ..self }),
    {
        let mut c = self;
        c.auth_type = auth_type;
        c
    }

    /// Sets the authentication type from its name, `nosasl` or `simple` in any
    /// case of the letters.
    pub fn with_auth_type_str(self, auth_type: &str) -> (r: Result<Self, String>)
        ensures
            match auth_type_named(auth_type@) {
                Some(t) => r == Ok::<GoosefsConfig, String>(GoosefsConfig { auth_type: t, ..self }),
                None => r matches Err(e) && e@ == "unknown authentication type '"@ + auth_type@
                    + "'"@,
            },
    {
        match AuthType::parse_name(auth_type) {
            Ok(t) => Ok(self.with_auth_type(t)),
            Err(e) => Err(e),
        }
    }

    /// Sets the user name for authentication.
    pub fn with_auth_username(self, username: &str) -> (r: Self)
        ensures
            r.auth_username@ == username@,
            r == (GoosefsConfig { auth_username: r.auth_username, ..self }),
    {
        let mut c = self;
        c.auth_username = username.to_owned();
        c
    }

    /// Sets the default write type from its protocol value.
    pub fn with_write_type(self, wt: WritePType) -> (r: Self)
        ensures
            r == (GoosefsConfig { write_type: Some(wt.number()), ..self }),
    {
        let mut c = self;
        c.write_type = Some(wt.as_i32());
        c
    }

    /// Sets the default write type.
    pub fn with_write_type_enum(self, wt: WriteType) -> (r: Self)
        ensures
            r == (GoosefsConfig { write_type: Some(wt.proto().number()), ..self }),
    {
        let mut c = self;
        c.write_type = Some(wt.as_i32());
        c
    }

    /// Sets the default write type from its name, in any case of the letters.
    pub fn with_write_type_str(self, wt: &str) -> (r: Result<Self, String>)
        ensures
            match write_type_named(wt@) {
                Some(t) => r == Ok::<GoosefsConfig, String>(
                    GoosefsConfig { write_type: Some(t.proto().number()), ..self },
                ),
                None => r matches Err(e) && e@ == unknown_write_type(wt@),
            },
    {
        match WriteType::parse_name(wt) {
            Ok(t) => Ok(self.with_write_type_enum(t)),
            Err(e) => Err(e),
        }
    }

    /// Sets the prefetch window of sequential reads, in chunks.
    pub fn with_prefetch_window(self, window: i32) -> (r: Self)
        ensures
            r == (GoosefsConfig { prefetch_window: window, ..self }),
    {
        let mut c = self;
        c.prefetch_window = window;
        c
    }

    /// Sets the number of bytes after which a read is acknowledged.
    pub fn with_ack_interval_bytes(self, bytes: i64) -> (r: Self)
        ensures
            r == (GoosefsConfig { ack_interval_bytes: bytes, ..self }),
    {
        let mut c = self;
        c.ack_interval_bytes = bytes;
        c
    }

    /// Sets the number of pooled master channels, at least 1.
    pub fn with_master_connection_pool_size(self, size: usize) -> (r: Self)
        ensures
            r == (GoosefsConfig { master_connection_pool_size: if size >= 1 {
                    size
                } else {
                    1
                }, ..self }),
    {
        let mut c = self;
        c.master_connection_pool_size = if size >= 1 {
            size
        } else {
            1
        };
        c
    }

    /// Sets the number of pooled channels for each worker, at least 1.
    pub fn with_worker_connection_pool_size(self, size: usize) -> (r: Self)
        ensures
            r == (GoosefsConfig { worker_connection_pool_size: if size >= 1 {
                    size
                } else {
                    1
                }, ..self }),
    {
        let mut c = self;
        c.worker_connection_pool_size = if size >= 1 {
            size
        } else {
            1
        };
        c
    }

    /// The default write type, if it is set to a known value.
    pub fn get_write_type(&self) -> (r: Option<WritePType>)
        ensures
            match self.write_type {
                Some(n) => if 0 <= n <= 6 {
                    r matches Some(t) && t.number() == n
                } else {
                    r is None
                },
                None => r is None,
            },
    {
        match self.write_type {
            Some(n) => WritePType::from_i32(n),
            None => None,
        }
    }

    /// Switches the collection of metrics on or off.
    pub fn with_metrics_enabled(self, enabled: bool) -> (r: Self)
        ensures
            r == (GoosefsConfig { metrics_enabled: enabled, ..self }),
    {
        let mut c = self;
        c.metrics_enabled = enabled;
        c
    }

    /// Sets the interval of the metrics heartbeat, at least a second.
    pub fn with_metrics_heartbeat_interval(self, interval: Duration) -> (r: Self)
        requires
            interval.nanos >= Duration::secs(1).nanos,
        ensures
            r == (GoosefsConfig { metrics_heartbeat_interval: interval, ..self }),
    {
        let mut c = self;
        c.metrics_heartbeat_interval = interval;
        c
    }

    /// Sets the time that one heartbeat call may take, at least a second.
    pub fn with_metrics_heartbeat_timeout(self, timeout: Duration) -> (r: Self)
        requires
            timeout.nanos >= Duration::secs(1).nanos,
        ensures
            r == (GoosefsConfig { metrics_heartbeat_timeout: timeout, ..self }),
    {
        let mut c = self;
        c.metrics_heartbeat_timeout = timeout;
        c
    }

    /// Sets the application id that metrics are attributed to.
    pub fn with_app_id(self, app_id: &str) -> (r: Self)
        ensures
            r.app_id matches Some(s) && s@ == app_id@,
            r == (GoosefsConfig { app_id: r.app_id, ..self }),
    {
        let mut c = self;
        c.app_id = Some(app_id.to_owned());
        c
    }

    /// Switches the push of metrics on or off.
    pub fn with_pushgateway_enabled(self, enabled: bool) -> (r: Self)
        ensures
            r == (GoosefsConfig { pushgateway_enabled: enabled, ..self }),
    {
        let mut c = self;
        c.pushgateway_enabled = enabled;
        c
    }

    /// Sets the URL that metrics are pushed to.
    pub fn with_pushgateway_endpoint(self, endpoint: &str) -> (r: Self)
        ensures
            r.pushgateway_endpoint@ == endpoint@,
            r == (GoosefsConfig { pushgateway_endpoint: r.pushgateway_endpoint, ..self }),
    {
        let mut c = self;
        c.pushgateway_endpoint = endpoint.to_owned();
        c
    }

    /// Sets the interval of the metrics push, at least a second.
    pub fn with_pushgateway_push_interval(self, interval: Duration) -> (r: Self)
        requires
            interval.nanos >= Duration::secs(1).nanos,
        ensures
            r == (GoosefsConfig { pushgateway_push_interval: interval, ..self }),
    {
        let mut c = self;
        c.pushgateway_push_interval = interval;
        c
    }

    /// Sets the job label of the metrics push.
    pub fn with_pushgateway_job(self, job: &str) -> (r: Self)
        ensures
            r.pushgateway_job@ == job@,
            r == (GoosefsConfig { pushgateway_job: r.pushgateway_job, ..self }),
    {
        let mut c = self;
        c.pushgateway_job = job.to_owned();
        c
    }

    /// Sets the instance label of the metrics push.
    pub fn with_pushgateway_instance(self, instance: &str) -> (r: Self)
        ensures
            r.pushgateway_instance matches Some(s) && s@ == instance@,
            r == (GoosefsConfig { pushgateway_instance: r.pushgateway_instance, ..self }),
    {
        let mut c = self;
        c.pushgateway_instance = Some(instance.to_owned());
        c
    }

    /// The whole milliseconds of a duration, as a numeral.
    pub open spec fn millis_text(d: Duration) -> Seq<char> {
        decimal((d.nanos as int / NANOS_PER_MILLI as int) as nat)
    }

    /// The first thing that is wrong with the configuration, in words.
    pub open spec fn problem(self) -> Option<Seq<char>> {
        if self.master_addr@.len() == 0 && self.master_addrs@.len() == 0 {
            Some("at least one master address must be provided (master_addr or master_addrs)"@)
        } else if exists|i: int|
            0 <= i < self.master_addrs@.len() && (#[trigger] self.master_addrs@[i])@.len() == 0 {
            Some("master_addrs contains an empty address"@)
        } else if self.block_size == 0 {
            Some("block_size must be > 0"@)
        } else if self.chunk_size == 0 {
            Some("chunk_size must be > 0"@)
        } else if self.chunk_size > self.block_size {
            Some("chunk_size must be <= block_size"@)
        } else if self.metrics_heartbeat_interval.nanos < Duration::millis(
            MIN_METRICS_HEARTBEAT_INTERVAL_MS as int,
        ).nanos {
            Some(
                "metrics_heartbeat_interval must be >= 1000ms (got "@ + Self::millis_text(
                    self.metrics_heartbeat_interval,
                ) + "ms)"@,
            )
        } else if self.metrics_heartbeat_timeout.nanos < Duration::secs(1).nanos {
            Some(
                "metrics_heartbeat_timeout must be >= 1000ms (got "@ + Self::millis_text(
                    self.metrics_heartbeat_timeout,
                ) + "ms)"@,
            )
        } else if self.metrics_heartbeat_timeout.nanos >= self.metrics_heartbeat_interval.nanos {
            Some(
                "metrics_heartbeat_timeout ("@ + Self::millis_text(self.metrics_heartbeat_timeout)
                    + "ms) must be < metrics_heartbeat_interval ("@ + Self::millis_text(
                    self.metrics_heartbeat_interval,
                ) + "ms) to prevent in-flight RPCs from piling up across ticks"@,
            )
        } else {
            None
        }
    }

    /// Checks the configuration; the error says what is wrong first.
    pub fn validate(&self) -> (r: Result<(), String>)
        ensures
            match r {
                Ok(_) => self.problem() is None,
                Err(e) => self.problem() == Some(e@),
            },
    {
        if self.master_addr.as_str().is_empty() && self.master_addrs.len() == 0 {
            return Err(
                "at least one master address must be provided (master_addr or master_addrs)".to_owned(),
            );
        }
        let mut i: usize = 0;
        while i < self.master_addrs.len()
            invariant
                i <= self.master_addrs@.len(),
                self.master_addr@.len() != 0 || self.master_addrs@.len() != 0,
                forall|k: int| 0 <= k < i ==> (#[trigger] self.master_addrs@[k])@.len() != 0,
            decreases self.master_addrs@.len() - i,
        {
            if self.master_addrs[i].as_str().is_empty() {
                return Err("master_addrs contains an empty address".to_owned());
            }
            i = i + 1;
        }
        if self.block_size == 0 {
            return Err("block_size must be > 0".to_owned());
        }
        if self.chunk_size == 0 {
            return Err("chunk_size must be > 0".to_owned());
        }
        if self.chunk_size > self.block_size {
            return Err("chunk_size must be <= block_size".to_owned());
        }
        let least = Duration::from_millis(MIN_METRICS_HEARTBEAT_INTERVAL_MS);
        if self.metrics_heartbeat_interval.nanos < least.nanos {
            let mut e = "metrics_heartbeat_interval must be >= 1000ms (got ".to_owned();
            push_decimal(&mut e, self.metrics_heartbeat_interval.as_millis());
            e.append("ms)");
            return Err(e);
        }
        let second = Duration::from_secs(1);
        if self.metrics_heartbeat_timeout.nanos < second.nanos {
            let mut e = "metrics_heartbeat_timeout must be >= 1000ms (got ".to_owned();
            push_decimal(&mut e, self.metrics_heartbeat_timeout.as_millis());
            e.append("ms)");
            return Err(e);
        }
        if self.metrics_heartbeat_timeout.nanos >= self.metrics_heartbeat_interval.nanos {
            let mut e = "metrics_heartbeat_timeout (".to_owned();
            push_decimal(&mut e, self.metrics_heartbeat_timeout.as_millis());
            e.append("ms) must be < metrics_heartbeat_interval (");
            push_decimal(&mut e, self.metrics_heartbeat_interval.as_millis());
            e.append("ms) to prevent in-flight RPCs from piling up across ticks");
            return Err(e);
        }
        Ok(())
    }
}

/// The built-in configuration is valid.
pub proof fn law_default_is_valid(c: GoosefsConfig, user: Seq<char>)
    requires
        c.master_addr@ == "127.0.0.1:9200"@,
        c.master_addrs@.len() == 0,
        c.builtin(user),
    ensures
        c.problem() is None,
{
    reveal_strlit("127.0.0.1:9200");
}

} // verus!
