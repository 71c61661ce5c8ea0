//! Settings from environment variables, and the search for a properties file.

use vstd::prelude::*;
use vstd::string::*;

use crate::config::keys::ENV_APP_ID;
use crate::config::keys::ENV_AUTHORIZATION_PERMISSION_ENABLED;
use crate::config::keys::ENV_AUTH_TYPE;
use crate::config::keys::ENV_AUTH_USERNAME;
use crate::config::keys::ENV_BLOCK_SIZE;
use crate::config::keys::ENV_CHUNK_SIZE;
use crate::config::keys::ENV_CLIENT_CACHE_ASYNC_WRITE_ENABLED;
use crate::config::keys::ENV_CLIENT_CACHE_ASYNC_WRITE_THREADS;
use crate::config::keys::ENV_CLIENT_CACHE_DIRS;
use crate::config::keys::ENV_CLIENT_CACHE_ENABLED;
use crate::config::keys::ENV_CLIENT_CACHE_EVICTOR;
use crate::config::keys::ENV_CLIENT_CACHE_PAGE_SIZE;
use crate::config::keys::ENV_CLIENT_CACHE_QUOTA_ENABLED;
use crate::config::keys::ENV_CLIENT_CACHE_SEQUENTIAL_READ_ENABLED;
use crate::config::keys::ENV_CLIENT_CACHE_SIZE;
use crate::config::keys::ENV_CLIENT_CACHE_TTL_SECS;
use crate::config::keys::ENV_CONFIG_FILE;
use crate::config::keys::ENV_CONFIG_MANAGER_RPC_ADDRESSES;
use crate::config::keys::ENV_CONFIG_RPC_PORT;
use crate::config::keys::ENV_CONF_DIR;
use crate::config::keys::ENV_HOME;
use crate::config::keys::ENV_LOGIN_IMPERSONATION_USERNAME;
use crate::config::keys::ENV_MASTER_ADDR;
use crate::config::keys::ENV_METRICS_ENABLED;
use crate::config::keys::ENV_METRICS_HEARTBEAT_INTERVAL_MS;
use crate::config::keys::ENV_PUSHGATEWAY_ENABLED;
use crate::config::keys::ENV_PUSHGATEWAY_ENDPOINT;
use crate::config::keys::ENV_PUSHGATEWAY_INSTANCE;
use crate::config::keys::ENV_PUSHGATEWAY_JOB;
use crate::config::keys::ENV_PUSHGATEWAY_PUSH_INTERVAL_MS;
use crate::config::keys::ENV_TRANSPARENT_ACCELERATION_COSRANGER_ENABLED;
use crate::config::keys::ENV_TRANSPARENT_ACCELERATION_ENABLED;
use crate::config::keys::ENV_WRITE_TYPE;
use crate::config::keys::PROPERTIES_FILENAME;
use crate::config::settings::GoosefsConfig;
use crate::config::settings::MIN_METRICS_HEARTBEAT_INTERVAL_MS;
use crate::config::values::TextMap;
use crate::config::values::any_case_flag_or;
use crate::config::values::auth_type_or;
use crate::config::values::evictor_or;
use crate::config::values::flag_or;
use crate::config::values::list_or;
use crate::config::values::listed;
use crate::config::values::millis_or;
use crate::config::values::number_or;
use crate::config::values::opt_text_or;
use crate::config::values::overlay_any_case_flag;
use crate::config::values::overlay_auth_type;
use crate::config::values::overlay_evictor;
use crate::config::values::overlay_flag;
use crate::config::values::overlay_list;
use crate::config::values::overlay_millis;
use crate::config::values::overlay_number;
use crate::config::values::overlay_opt_text;
use crate::config::values::overlay_text;
use crate::config::values::overlay_write_type;
use crate::config::values::owned_view;
use crate::config::values::parse_list;
use crate::config::values::text_at;
use crate::config::values::text_or;
use crate::config::values::write_type_or;
use crate::text::views;

verus! {

/// The master address that the variable gives: the first of its list.
pub open spec fn env_master(v: Option<Seq<char>>, d: Seq<char>) -> Seq<char> {
    match v {
        Some(s) if listed(s).len() > 0 => listed(s)[0],
        _ => d,
    }
}

/// The list of masters that the variable gives: empty for a single master.
pub open spec fn env_masters(v: Option<Seq<char>>, d: Seq<Seq<char>>) -> Seq<Seq<char>> {
    match v {
        Some(s) if listed(s).len() > 1 => listed(s),
        Some(s) if listed(s).len() == 1 => Seq::empty(),
        _ => d,
    }
}

/// The masters that the variable gives, else those so far.
fn env_master_addresses(addr: String, addrs: Vec<String>, env: &TextMap) -> (r: (
    String,
    Vec<String>,
))
    ensures
        r.0@ == env_master(text_at(env@, ENV_MASTER_ADDR@), addr@),
        views(r.1@) == env_masters(text_at(env@, ENV_MASTER_ADDR@), views(addrs@)),
{
    if let Some(s) = env.get(ENV_MASTER_ADDR) {
        let list = parse_list(s);
        proof {
            assert(views(list@).len() == list@.len());
        }
        if list.len() > 1 {
            return (list[0].clone(), list);
        }
        if list.len() == 1 {
            let none: Vec<String> = Vec::new();
            proof {
                assert(views(none@) =~= Seq::<Seq<char>>::empty());
            }
            return (list[0].clone(), none);
        }
    }
    (addr, addrs)
}

impl GoosefsConfig {
    /// `r` is `self` with the settings of the environment `env` on top.
    pub open spec fn overlaid_by_env(
        self,
        env: Map<Seq<char>, Seq<char>>,
        r: GoosefsConfig,
    ) -> bool {
        &&& r.master_addr@ == env_master(text_at(env, ENV_MASTER_ADDR@), self.master_addr@)
        &&& views(r.master_addrs@) == env_masters(
            text_at(env, ENV_MASTER_ADDR@),
            views(self.master_addrs@),
        )
        &&& r.write_type == write_type_or(text_at(env, ENV_WRITE_TYPE@), self.write_type)
        &&& r.block_size == number_or(
            text_at(env, ENV_BLOCK_SIZE@),
            0,
            u64::MAX as int,
            self.block_size as int,
        )
        &&& r.chunk_size == number_or(
            text_at(env, ENV_CHUNK_SIZE@),
            0,
            u64::MAX as int,
            self.chunk_size as int,
        )
        &&& r.auth_type == auth_type_or(text_at(env, ENV_AUTH_TYPE@), self.auth_type)
        &&& r.auth_username@ == text_or(text_at(env, ENV_AUTH_USERNAME@), self.auth_username@)
        &&& views(r.config_manager_rpc_addresses@) == list_or(
            text_at(env, ENV_CONFIG_MANAGER_RPC_ADDRESSES@),
            views(self.config_manager_rpc_addresses@),
        )
        &&& r.config_rpc_port == number_or(
            text_at(env, ENV_CONFIG_RPC_PORT@),
            0,
            u16::MAX as int,
            self.config_rpc_port as int,
        )
        &&& r.transparent_acceleration_enabled == flag_or(
            text_at(env, ENV_TRANSPARENT_ACCELERATION_ENABLED@),
            self.transparent_acceleration_enabled,
        )
        &&& r.transparent_acceleration_cosranger_enabled == flag_or(
            text_at(env, ENV_TRANSPARENT_ACCELERATION_COSRANGER_ENABLED@),
            self.transparent_acceleration_cosranger_enabled,
        )
        &&& r.authorization_permission_enabled == flag_or(
            text_at(env, ENV_AUTHORIZATION_PERMISSION_ENABLED@),
            self.authorization_permission_enabled,
        )
        &&& r.login_impersonation_username@ == text_or(
            text_at(env, ENV_LOGIN_IMPERSONATION_USERNAME@),
            self.login_impersonation_username@,
        )
        &&& r.metrics_enabled == any_case_flag_or(
            text_at(env, ENV_METRICS_ENABLED@),
            self.metrics_enabled,
        )
        &&& r.metrics_heartbeat_interval == millis_or(
            text_at(env, ENV_METRICS_HEARTBEAT_INTERVAL_MS@),
            MIN_METRICS_HEARTBEAT_INTERVAL_MS as int,
            self.metrics_heartbeat_interval,
        )
        &&& owned_view(r.app_id) == opt_text_or(text_at(env, ENV_APP_ID@), self.app_id)
        &&& r.pushgateway_enabled == any_case_flag_or(
            text_at(env, ENV_PUSHGATEWAY_ENABLED@),
            self.pushgateway_enabled,
        )
        &&& r.pushgateway_endpoint@ == text_or(
            text_at(env, ENV_PUSHGATEWAY_ENDPOINT@),
            self.pushgateway_endpoint@,
        )
        &&& r.pushgateway_push_interval == millis_or(
            text_at(env, ENV_PUSHGATEWAY_PUSH_INTERVAL_MS@),
            MIN_METRICS_HEARTBEAT_INTERVAL_MS as int,
            self.pushgateway_push_interval,
        )
        &&& r.pushgateway_job@ == text_or(text_at(env, ENV_PUSHGATEWAY_JOB@), self.pushgateway_job@)
        &&& owned_view(r.pushgateway_instance) == opt_text_or(
            text_at(env, ENV_PUSHGATEWAY_INSTANCE@),
            self.pushgateway_instance,
        )
        &&& r.client_cache_enabled == any_case_flag_or(
            text_at(env, ENV_CLIENT_CACHE_ENABLED@),
            self.client_cache_enabled,
        )
        &&& r.client_cache_page_size == number_or(
            text_at(env, ENV_CLIENT_CACHE_PAGE_SIZE@),
            1,
            u64::MAX as int,
            self.client_cache_page_size as int,
        )
        &&& r.client_cache_size == number_or(
            text_at(env, ENV_CLIENT_CACHE_SIZE@),
            0,
            u64::MAX as int,
            self.client_cache_size as int,
        )
        &&& views(r.client_cache_dirs@) == list_or(
            text_at(env, ENV_CLIENT_CACHE_DIRS@),
            views(self.client_cache_dirs@),
        )
        &&& r.client_cache_evictor == evictor_or(
            text_at(env, ENV_CLIENT_CACHE_EVICTOR@),
            self.client_cache_evictor,
        )
        &&& r.client_cache_async_write_enabled == any_case_flag_or(
            text_at(env, ENV_CLIENT_CACHE_ASYNC_WRITE_ENABLED@),
            self.client_cache_async_write_enabled,
        )
        &&& r.client_cache_async_write_threads == number_or(
            text_at(env, ENV_CLIENT_CACHE_ASYNC_WRITE_THREADS@),
            1,
            usize::MAX as int,
            self.client_cache_async_write_threads as int,
        )
        &&& r.client_cache_quota_enabled == any_case_flag_or(
            text_at(env, ENV_CLIENT_CACHE_QUOTA_ENABLED@),
            self.client_cache_quota_enabled,
        )
        &&& r.client_cache_ttl_secs == number_or(
            text_at(env, ENV_CLIENT_CACHE_TTL_SECS@),
            0,
            u64::MAX as int,
            self.client_cache_ttl_secs as int,
        )
        &&& r.client_cache_sequential_read_enabled == any_case_flag_or(
            text_at(env, ENV_CLIENT_CACHE_SEQUENTIAL_READ_ENABLED@),
            self.client_cache_sequential_read_enabled,
        )
        &&& r == (GoosefsConfig {
            master_addr: r.master_addr,
            master_addrs: r.master_addrs,
            write_type: r.write_type,
            block_size: r.block_size,
            chunk_size: r.chunk_size,
            auth_type: r.auth_type,
            auth_username: r.auth_username,
            config_manager_rpc_addresses: r.config_manager_rpc_addresses,
            config_rpc_port: r.config_rpc_port,
            transparent_acceleration_enabled: r.transparent_acceleration_enabled,
            transparent_acceleration_cosranger_enabled: r.transparent_acceleration_cosranger_enabled,
            authorization_permission_enabled: r.authorization_permission_enabled,
            login_impersonation_username: r.login_impersonation_username,
            metrics_enabled: r.metrics_enabled,
            metrics_heartbeat_interval: r.metrics_heartbeat_interval,
            app_id: r.app_id,
            pushgateway_enabled: r.pushgateway_enabled,
            pushgateway_endpoint: r.pushgateway_endpoint,
            pushgateway_push_interval: r.pushgateway_push_interval,
            pushgateway_job: r.pushgateway_job,
            pushgateway_instance: r.pushgateway_instance,
            client_cache_enabled: r.client_cache_enabled,
            client_cache_page_size: r.client_cache_page_size,
            client_cache_size: r.client_cache_size,
            client_cache_dirs: r.client_cache_dirs,
            client_cache_evictor: r.client_cache_evictor,
            client_cache_async_write_enabled: r.client_cache_async_write_enabled,
            client_cache_async_write_threads: r.client_cache_async_write_threads,
            client_cache_quota_enabled: r.client_cache_quota_enabled,
            client_cache_ttl_secs: r.client_cache_ttl_secs,
            client_cache_sequential_read_enabled: r.client_cache_sequential_read_enabled,
            ..self
        })
    }

    /// Puts the settings of the environment on top: a variable that is set and
    /// reads as a value of its setting replaces that setting.
    #[verifier::spinoff_prover]
    #[verifier::rlimit(30)]
    pub fn apply_env(self, env: &TextMap) -> (r: Self)
        ensures
            self.overlaid_by_env(env@, r),
    {
        let (master_addr, master_addrs) = env_master_addresses(
            self.master_addr,
            self.master_addrs,
            env,
        );
        let write_type = overlay_write_type(self.write_type, env, ENV_WRITE_TYPE);
        let block_size: u64 = overlay_number(env, ENV_BLOCK_SIZE, 0, u64::MAX, self.block_size);
        let chunk_size: u64 = overlay_number(env, ENV_CHUNK_SIZE, 0, u64::MAX, self.chunk_size);
        let auth_type = overlay_auth_type(self.auth_type, env, ENV_AUTH_TYPE);
        let auth_username = overlay_text(self.auth_username, env, ENV_AUTH_USERNAME);
        let config_manager_rpc_addresses = overlay_list(
            self.config_manager_rpc_addresses,
            env,
            ENV_CONFIG_MANAGER_RPC_ADDRESSES,
        );
        let config_rpc_port: u16 = overlay_number(
            env,
            ENV_CONFIG_RPC_PORT,
            0,
            u16::MAX as u64,
            self.config_rpc_port as u64,
        ) as u16;
        let transparent_acceleration_enabled = overlay_flag(
            self.transparent_acceleration_enabled,
            env,
            ENV_TRANSPARENT_ACCELERATION_ENABLED,
        );
        let transparent_acceleration_cosranger_enabled = overlay_flag(
            self.transparent_acceleration_cosranger_enabled,
            env,
            ENV_TRANSPARENT_ACCELERATION_COSRANGER_ENABLED,
        );
        let authorization_permission_enabled = overlay_flag(
            self.authorization_permission_enabled,
            env,
            ENV_AUTHORIZATION_PERMISSION_ENABLED,
        );
        let login_impersonation_username = overlay_text(
            self.login_impersonation_username,
            env,
            ENV_LOGIN_IMPERSONATION_USERNAME,
        );
        let metrics_enabled = overlay_any_case_flag(self.metrics_enabled, env, ENV_METRICS_ENABLED);
        let metrics_heartbeat_interval = overlay_millis(
            env,
            ENV_METRICS_HEARTBEAT_INTERVAL_MS,
            MIN_METRICS_HEARTBEAT_INTERVAL_MS,
            self.metrics_heartbeat_interval,
        );
        let app_id = overlay_opt_text(self.app_id, env, ENV_APP_ID);
        let pushgateway_enabled = overlay_any_case_flag(
            self.pushgateway_enabled,
            env,
            ENV_PUSHGATEWAY_ENABLED,
        );
        let pushgateway_endpoint = overlay_text(
            self.pushgateway_endpoint,
            env,
            ENV_PUSHGATEWAY_ENDPOINT,
        );
        let pushgateway_push_interval = overlay_millis(
            env,
            ENV_PUSHGATEWAY_PUSH_INTERVAL_MS,
            MIN_METRICS_HEARTBEAT_INTERVAL_MS,
            self.pushgateway_push_interval,
        );
        let pushgateway_job = overlay_text(self.pushgateway_job, env, ENV_PUSHGATEWAY_JOB);
        let pushgateway_instance = overlay_opt_text(
            self.pushgateway_instance,
            env,
            ENV_PUSHGATEWAY_INSTANCE,
        );
        let client_cache_enabled = overlay_any_case_flag(
            self.client_cache_enabled,
            env,
            ENV_CLIENT_CACHE_ENABLED,
        );
        let client_cache_page_size: u64 = overlay_number(
            env,
            ENV_CLIENT_CACHE_PAGE_SIZE,
            1,
            u64::MAX,
            self.client_cache_page_size,
        );
        let client_cache_size: u64 = overlay_number(
            env,
            ENV_CLIENT_CACHE_SIZE,
            0,
            u64::MAX,
            self.client_cache_size,
        );
        let client_cache_dirs = overlay_list(self.client_cache_dirs, env, ENV_CLIENT_CACHE_DIRS);
        let client_cache_evictor = overlay_evictor(
            self.client_cache_evictor,
            env,
            ENV_CLIENT_CACHE_EVICTOR,
        );
        let client_cache_async_write_enabled = overlay_any_case_flag(
            self.client_cache_async_write_enabled,
            env,
            ENV_CLIENT_CACHE_ASYNC_WRITE_ENABLED,
        );
        let client_cache_async_write_threads: usize = overlay_number(
            env,
            ENV_CLIENT_CACHE_ASYNC_WRITE_THREADS,
            1,
            usize::MAX as u64,
            self.client_cache_async_write_threads as u64,
        ) as usize;
        let client_cache_quota_enabled = overlay_any_case_flag(
            self.client_cache_quota_enabled,
            env,
            ENV_CLIENT_CACHE_QUOTA_ENABLED,
        );
        let client_cache_ttl_secs: u64 = overlay_number(
            env,
            ENV_CLIENT_CACHE_TTL_SECS,
            0,
            u64::MAX,
            self.client_cache_ttl_secs,
        );
        let client_cache_sequential_read_enabled = overlay_any_case_flag(
            self.client_cache_sequential_read_enabled,
            env,
            ENV_CLIENT_CACHE_SEQUENTIAL_READ_ENABLED,
        );
        GoosefsConfig {
            master_addr,
            master_addrs,
            write_type,
            block_size,
            chunk_size,
            auth_type,
            auth_username,
            config_manager_rpc_addresses,
            config_rpc_port,
            transparent_acceleration_enabled,
            transparent_acceleration_cosranger_enabled,
            authorization_permission_enabled,
            login_impersonation_username,
            metrics_enabled,
            metrics_heartbeat_interval,
            app_id,
            pushgateway_enabled,
            pushgateway_endpoint,
            pushgateway_push_interval,
            pushgateway_job,
            pushgateway_instance,
            client_cache_enabled,
            client_cache_page_size,
            client_cache_size,
            client_cache_dirs,
            client_cache_evictor,
            client_cache_async_write_enabled,
            client_cache_async_write_threads,
            client_cache_quota_enabled,
            client_cache_ttl_secs,
            client_cache_sequential_read_enabled,
            ..self
        }
    }
}

/// `dir` and `name` joined by one slash.
pub open spec fn joined(dir: Seq<char>, name: Seq<char>) -> Seq<char> {
    if dir.len() == 0 {
        name
    } else if dir.last() == '/' {
        dir + name
    } else {
        dir + "/"@ + name
    }
}

/// `dir` and `name` joined by one slash.
fn join(dir: &str, name: &str) -> (r: String)
    ensures
        r@ == joined(dir@, name@),
{
    let n: usize = dir.unicode_len();
    let mut out = dir.to_owned();
    if n > 0 && dir.get_char(n - 1) != '/' {
        out.append("/");
    }
    out.append(name);
    proof {
        assert(out@ =~= joined(dir@, name@));
    }
    out
}

/// The home directory: the variable `HOME`, else `USERPROFILE`.
pub open spec fn user_home(env: Map<Seq<char>, Seq<char>>) -> Option<Seq<char>> {
    match text_at(env, "HOME"@) {
        Some(s) => Some(s),
        None => text_at(env, "USERPROFILE"@),
    }
}

/// The path, if there is one, as a list of one.
pub open spec fn one(v: Option<Seq<char>>) -> Seq<Seq<char>> {
    match v {
        Some(s) => seq![s],
        None => Seq::empty(),
    }
}

/// `f` of the text, if there is one.
pub open spec fn mapped(v: Option<Seq<char>>, f: spec_fn(Seq<char>) -> Seq<char>) -> Option<
    Seq<char>,
> {
    match v {
        Some(s) => Some(f(s)),
        None => None,
    }
}

/// Where a properties file is looked for, in order: the file that the
/// environment names; the configuration directory, or without one the
/// installation's `conf`; the user's home; the system directory.
pub open spec fn search_paths(env: Map<Seq<char>, Seq<char>>) -> Seq<Seq<char>> {
    let file = PROPERTIES_FILENAME@;
    let dir = text_at(env, ENV_CONF_DIR@);
    one(text_at(env, ENV_CONFIG_FILE@)) + one(mapped(dir, |d: Seq<char>| joined(d, file))) + one(
        if dir is Some {
            None
        } else {
            mapped(
                text_at(env, ENV_HOME@),
                |h: Seq<char>| joined(joined(h, "conf"@), file),
            )
        },
    ) + one(mapped(user_home(env), |h: Seq<char>| joined(joined(h, ".goosefs"@), file))) + seq![
        joined("/etc/goosefs"@, file),
    ]
}

/// Where a properties file is looked for, in order.
pub fn config_file_candidates(env: &TextMap) -> (r: Vec<String>)
    ensures
        views(r@) == search_paths(env@),
{
    let mut out: Vec<String> = Vec::new();
    let ghost s0 = one(text_at(env@, ENV_CONFIG_FILE@));
    if let Some(p) = env.get(ENV_CONFIG_FILE) {
        out.push(p.to_owned());
    }
    proof {
        assert(views(out@) =~= s0);
    }
    let ghost file = PROPERTIES_FILENAME@;
    let ghost s1 = one(mapped(text_at(env@, ENV_CONF_DIR@), |d: Seq<char>| joined(d, file)));
    let mut s2 = Ghost(Seq::<Seq<char>>::empty());
    let ghost before = out@;
    match env.get(ENV_CONF_DIR) {
        Some(d) => {
            out.push(join(d, PROPERTIES_FILENAME));
            proof {
                assert(views(out@) =~= views(before) + s1);
            }
        },
        None => {
            if let Some(h) = env.get(ENV_HOME) {
                let conf = join(h, "conf");
                let p = join(conf.as_str(), PROPERTIES_FILENAME);
                proof {
                    s2@ = seq![p@];
                }
                out.push(p);
            }
            proof {
                assert(views(out@) =~= views(before) + s1 + s2@);
            }
        },
    }
    let ghost before = out@;
    let home = match env.get("HOME") {
        Some(h) => Some(h),
        None => env.get("USERPROFILE"),
    };
    let ghost s3 = one(
        mapped(user_home(env@), |h: Seq<char>| joined(joined(h, ".goosefs"@), file)),
    );
    if let Some(h) = home {
        let dir = join(h, ".goosefs");
        out.push(join(dir.as_str(), PROPERTIES_FILENAME));
    }
    proof {
        assert(views(out@) =~= views(before) + s3);
    }
    let ghost before = out@;
    out.push(join("/etc/goosefs", PROPERTIES_FILENAME));
    proof {
        assert(views(out@) =~= views(before).push(joined("/etc/goosefs"@, file)));
        assert(views(out@) =~= search_paths(env@));
    }
    out
}

/// The first candidate that exists.
///
/// `exists` says of each candidate whether a file is there.
pub fn discover_config_file(candidates: &Vec<String>, exists: &Vec<bool>) -> (r: Option<String>)
    requires
        candidates@.len() == exists@.len(),
    ensures
        match r {
            Some(p) => exists|i: int|
                0 <= i < candidates@.len() && #[trigger] exists@[i] && p@ == candidates@[i]@
                    && forall|k: int| 0 <= k < i ==> !#[trigger] exists@[k],
            None => forall|k: int| 0 <= k < exists@.len() ==> !#[trigger] exists@[k],
        },
        r is None ==> !exists@.contains(true),
{
    let mut i: usize = 0;
    while i < candidates.len()
        invariant
            i <= candidates@.len(),
            candidates@.len() == exists@.len(),
            forall|k: int| 0 <= k < i ==> !#[trigger] exists@[k],
        decreases candidates@.len() - i,
    {
        if exists[i] {
            return Some(candidates[i].clone());
        }
        i = i + 1;
    }
    None
}

} // verus!
