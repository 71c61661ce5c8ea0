//! Laws of the layered configuration.

use vstd::prelude::*;

use crate::auth::auth_type_named;
use crate::config::keys::ENV_APP_ID;
use crate::config::keys::ENV_AUTHORIZATION_PERMISSION_ENABLED;
use crate::config::keys::ENV_AUTH_TYPE;
use crate::config::keys::ENV_AUTH_USERNAME;
use crate::config::keys::ENV_BLOCK_SIZE;
use crate::config::keys::ENV_CHUNK_SIZE;
use crate::config::keys::ENV_CLIENT_CACHE_ASYNC_WRITE_ENABLED;
use crate::config::keys::ENV_CLIENT_CACHE_ASYNC_WRITE_THREADS;
use crate::config::keys::ENV_CLIENT_CACHE_DIRS;
use crate::config::keys::ENV_CLIENT_CACHE_ENABLED;
use crate::config::keys::ENV_CLIENT_CACHE_EVICTOR;
use crate::config::keys::ENV_CLIENT_CACHE_PAGE_SIZE;
use crate::config::keys::ENV_CLIENT_CACHE_QUOTA_ENABLED;
use crate::config::keys::ENV_CLIENT_CACHE_SEQUENTIAL_READ_ENABLED;
use crate::config::keys::ENV_CLIENT_CACHE_SIZE;
use crate::config::keys::ENV_CLIENT_CACHE_TTL_SECS;
use crate::config::keys::ENV_CONFIG_MANAGER_RPC_ADDRESSES;
use crate::config::keys::ENV_CONFIG_RPC_PORT;
use crate::config::keys::ENV_LOGIN_IMPERSONATION_USERNAME;
use crate::config::keys::ENV_MASTER_ADDR;
use crate::config::keys::ENV_METRICS_ENABLED;
use crate::config::keys::ENV_METRICS_HEARTBEAT_INTERVAL_MS;
use crate::config::keys::ENV_PUSHGATEWAY_ENABLED;
use crate::config::keys::ENV_PUSHGATEWAY_ENDPOINT;
use crate::config::keys::ENV_PUSHGATEWAY_INSTANCE;
use crate::config::keys::ENV_PUSHGATEWAY_JOB;
use crate::config::keys::ENV_PUSHGATEWAY_PUSH_INTERVAL_MS;
use crate::config::keys::ENV_TRANSPARENT_ACCELERATION_COSRANGER_ENABLED;
use crate::config::keys::ENV_TRANSPARENT_ACCELERATION_ENABLED;
use crate::config::keys::ENV_WRITE_TYPE;
use crate::config::kinds::evictor_named;
use crate::config::kinds::write_type_named;
use crate::config::settings::GoosefsConfig;
use crate::config::values::bool_spelled;
use crate::config::values::listed;
use crate::config::values::owned_view;
use crate::config::values::text_at;
use crate::text::lowered;
use crate::text::unsigned_value;
use crate::text::views;

verus! {

impl GoosefsConfig {
    /// The two configurations have the same settings.
    pub open spec fn same_settings(self, other: GoosefsConfig) -> bool {
        &&& self.master_addr@ == other.master_addr@
        &&& views(self.master_addrs@) == views(other.master_addrs@)
        &&& self.block_size == other.block_size
        &&& self.chunk_size == other.chunk_size
        &&& self.connect_timeout == other.connect_timeout
        &&& self.request_timeout == other.request_timeout
        &&& self.use_vpc_mapping == other.use_vpc_mapping
        &&& self.root@ == other.root@
        &&& self.write_type == other.write_type
        &&& self.prefetch_window == other.prefetch_window
        &&& self.read_buffer_messages == other.read_buffer_messages
        &&& self.ack_interval_bytes == other.ack_interval_bytes
        &&& self.ack_interval_chunks == other.ack_interval_chunks
        &&& self.master_connection_pool_size == other.master_connection_pool_size
        &&& self.worker_connection_pool_size == other.worker_connection_pool_size
        &&& self.master_inquire_retry_max_duration == other.master_inquire_retry_max_duration
        &&& self.master_inquire_initial_sleep == other.master_inquire_initial_sleep
        &&& self.master_inquire_max_sleep == other.master_inquire_max_sleep
        &&& self.master_polling_timeout == other.master_polling_timeout
        &&& self.auth_type == other.auth_type
        &&& self.auth_username@ == other.auth_username@
        &&& self.auth_timeout == other.auth_timeout
        &&& views(self.config_manager_rpc_addresses@) == views(other.config_manager_rpc_addresses@)
        &&& self.config_rpc_port == other.config_rpc_port
        &&& self.transparent_acceleration_enabled == other.transparent_acceleration_enabled
        &&& self.transparent_acceleration_cosranger_enabled == other.transparent_acceleration_cosranger_enabled
        &&& self.authorization_permission_enabled == other.authorization_permission_enabled
        &&& self.login_impersonation_username@ == other.login_impersonation_username@
        &&& self.metrics_enabled == other.metrics_enabled
        &&& self.metrics_heartbeat_interval == other.metrics_heartbeat_interval
        &&& self.metrics_heartbeat_timeout == other.metrics_heartbeat_timeout
        &&& owned_view(self.app_id) == owned_view(other.app_id)
        &&& self.metrics_max_batch_size == other.metrics_max_batch_size
        &&& self.pushgateway_enabled == other.pushgateway_enabled
        &&& self.pushgateway_endpoint@ == other.pushgateway_endpoint@
        &&& self.pushgateway_push_interval == other.pushgateway_push_interval
        &&& self.pushgateway_job@ == other.pushgateway_job@
        &&& owned_view(self.pushgateway_instance) == owned_view(other.pushgateway_instance)
        &&& self.client_cache_enabled == other.client_cache_enabled
        &&& self.client_cache_page_size == other.client_cache_page_size
        &&& self.client_cache_size == other.client_cache_size
        &&& views(self.client_cache_dirs@) == views(other.client_cache_dirs@)
        &&& self.client_cache_evictor == other.client_cache_evictor
        &&& self.client_cache_async_write_enabled == other.client_cache_async_write_enabled
        &&& self.client_cache_async_write_threads == other.client_cache_async_write_threads
        &&& self.client_cache_quota_enabled == other.client_cache_quota_enabled
        &&& self.client_cache_ttl_secs == other.client_cache_ttl_secs
        &&& self.client_cache_sequential_read_enabled == other.client_cache_sequential_read_enabled
        &&& self.short_circuit_enabled == other.short_circuit_enabled
        &&& self.short_circuit_cache_capacity == other.short_circuit_cache_capacity
        &&& self.short_circuit_cache_ttl == other.short_circuit_cache_ttl
        &&& self.short_circuit_neg_cache_ttl == other.short_circuit_neg_cache_ttl
        &&& self.short_circuit_advise@ == other.short_circuit_advise@
        &&& self.short_circuit_prefetch_enabled == other.short_circuit_prefetch_enabled
        &&& self.short_circuit_prefetch_coalesce_gap == other.short_circuit_prefetch_coalesce_gap
        &&& self.short_circuit_prefetch_max_batch == other.short_circuit_prefetch_max_batch
        &&& self.short_circuit_min_block_size == other.short_circuit_min_block_size
    }
}

/// An environment without variables changes no setting.
pub proof fn law_empty_environment_changes_nothing(c: GoosefsConfig, r: GoosefsConfig)
    requires
        c.overlaid_by_env(Map::empty(), r),
    ensures
        r.same_settings(c),
{
}

/// A file without properties changes no setting.
pub proof fn law_empty_properties_change_nothing(c: GoosefsConfig, r: GoosefsConfig)
    requires
        c.overlaid_by_properties(Map::empty(), r),
    ensures
        r.same_settings(c),
{
}

/// Applying one environment twice is applying it once.
pub proof fn law_apply_env_is_idempotent(
    c: GoosefsConfig,
    env: Map<Seq<char>, Seq<char>>,
    r: GoosefsConfig,
    again: GoosefsConfig,
)
    requires
        c.overlaid_by_env(env, r),
        r.overlaid_by_env(env, again),
    ensures
        again.same_settings(r),
{
}

/// Applying one file twice is applying it once.
pub proof fn law_properties_are_idempotent(
    c: GoosefsConfig,
    m: Map<Seq<char>, Seq<char>>,
    r: GoosefsConfig,
    again: GoosefsConfig,
)
    requires
        c.overlaid_by_properties(m, r),
        r.overlaid_by_properties(m, again),
    ensures
        again.same_settings(r),
{
}

/// The text is there and not empty.
pub open spec fn gives_text(v: Option<Seq<char>>) -> bool {
    v matches Some(s) && s.len() > 0
}

/// The text spells a truth value.
pub open spec fn gives_flag(v: Option<Seq<char>>) -> bool {
    v matches Some(s) && bool_spelled(s) is Some
}

/// The text spells a truth value, in any case of its letters.
pub open spec fn gives_any_case_flag(v: Option<Seq<char>>) -> bool {
    v matches Some(s) && bool_spelled(lowered(s)) is Some
}

/// The text spells a number in `min ..= max`.
pub open spec fn gives_number(v: Option<Seq<char>>, min: int, max: int) -> bool {
    v matches Some(s) && (unsigned_value(s, max) matches Ok(n) && n >= min)
}

/// The text lists an item.
pub open spec fn gives_list(v: Option<Seq<char>>) -> bool {
    v matches Some(s) && listed(s).len() > 0
}

/// The text names an authentication type.
pub open spec fn gives_auth_type(v: Option<Seq<char>>) -> bool {
    v matches Some(s) && auth_type_named(s) is Some
}

/// The text names a write type.
pub open spec fn gives_write_type(v: Option<Seq<char>>) -> bool {
    v matches Some(s) && write_type_named(s) is Some
}

/// The text names an eviction policy.
pub open spec fn gives_evictor(v: Option<Seq<char>>) -> bool {
    v matches Some(s) && evictor_named(s) is Some
}

/// A setting that the environment gives comes out the same whatever the file
/// and the defaults said before; every other setting stays as it was.
pub proof fn law_environment_outranks_the_rest(
    a: GoosefsConfig,
    b: GoosefsConfig,
    env: Map<Seq<char>, Seq<char>>,
    ra: GoosefsConfig,
    rb: GoosefsConfig,
)
    requires
        a.overlaid_by_env(env, ra),
        b.overlaid_by_env(env, rb),
    ensures
        gives_list(text_at(env, ENV_MASTER_ADDR@)) ==> ra.master_addr@ == rb.master_addr@ && views(
            ra.master_addrs@,
        ) == views(rb.master_addrs@),
        !gives_list(text_at(env, ENV_MASTER_ADDR@)) ==> ra.master_addr@ == a.master_addr@ && views(
            ra.master_addrs@,
        ) == views(a.master_addrs@),
        gives_write_type(text_at(env, ENV_WRITE_TYPE@)) ==> ra.write_type == rb.write_type,
        !gives_write_type(text_at(env, ENV_WRITE_TYPE@)) ==> ra.write_type == a.write_type,
        gives_number(text_at(env, ENV_BLOCK_SIZE@), 0, u64::MAX as int)
            ==> ra.block_size == rb.block_size,
        !gives_number(text_at(env, ENV_BLOCK_SIZE@), 0, u64::MAX as int)
            ==> ra.block_size == a.block_size,
        gives_number(text_at(env, ENV_CHUNK_SIZE@), 0, u64::MAX as int)
            ==> ra.chunk_size == rb.chunk_size,
        !gives_number(text_at(env, ENV_CHUNK_SIZE@), 0, u64::MAX as int)
            ==> ra.chunk_size == a.chunk_size,
        gives_auth_type(text_at(env, ENV_AUTH_TYPE@)) ==> ra.auth_type == rb.auth_type,
        !gives_auth_type(text_at(env, ENV_AUTH_TYPE@)) ==> ra.auth_type == a.auth_type,
        gives_text(text_at(env, ENV_AUTH_USERNAME@)) ==> ra.auth_username@ == rb.auth_username@,
        !gives_text(text_at(env, ENV_AUTH_USERNAME@)) ==> ra.auth_username@ == a.auth_username@,
        gives_list(text_at(env, ENV_CONFIG_MANAGER_RPC_ADDRESSES@))
            ==> views(ra.config_manager_rpc_addresses@) == views(rb.config_manager_rpc_addresses@),
        !gives_list(text_at(env, ENV_CONFIG_MANAGER_RPC_ADDRESSES@))
            ==> views(ra.config_manager_rpc_addresses@) == views(a.config_manager_rpc_addresses@),
        gives_number(text_at(env, ENV_CONFIG_RPC_PORT@), 0, u16::MAX as int)
            ==> ra.config_rpc_port == rb.config_rpc_port,
        !gives_number(text_at(env, ENV_CONFIG_RPC_PORT@), 0, u16::MAX as int)
            ==> ra.config_rpc_port == a.config_rpc_port,
        gives_flag(text_at(env, ENV_TRANSPARENT_ACCELERATION_ENABLED@))
            ==> ra.transparent_acceleration_enabled == rb.transparent_acceleration_enabled,
        !gives_flag(text_at(env, ENV_TRANSPARENT_ACCELERATION_ENABLED@))
            ==> ra.transparent_acceleration_enabled == a.transparent_acceleration_enabled,
        gives_flag(text_at(env, ENV_TRANSPARENT_ACCELERATION_COSRANGER_ENABLED@))
            ==> ra.transparent_acceleration_cosranger_enabled
            == rb.transparent_acceleration_cosranger_enabled,
        !gives_flag(text_at(env, ENV_TRANSPARENT_ACCELERATION_COSRANGER_ENABLED@))
            ==> ra.transparent_acceleration_cosranger_enabled
            == a.transparent_acceleration_cosranger_enabled,
        gives_flag(text_at(env, ENV_AUTHORIZATION_PERMISSION_ENABLED@))
            ==> ra.authorization_permission_enabled == rb.authorization_permission_enabled,
        !gives_flag(text_at(env, ENV_AUTHORIZATION_PERMISSION_ENABLED@))
            ==> ra.authorization_permission_enabled == a.authorization_permission_enabled,
        gives_text(text_at(env, ENV_LOGIN_IMPERSONATION_USERNAME@))
            ==> ra.login_impersonation_username@ == rb.login_impersonation_username@,
        !gives_text(text_at(env, ENV_LOGIN_IMPERSONATION_USERNAME@))
            ==> ra.login_impersonation_username@ == a.login_impersonation_username@,
        gives_any_case_flag(text_at(env, ENV_METRICS_ENABLED@))
            ==> ra.metrics_enabled == rb.metrics_enabled,
        !gives_any_case_flag(text_at(env, ENV_METRICS_ENABLED@))
            ==> ra.metrics_enabled == a.metrics_enabled,
        gives_number(text_at(env, ENV_METRICS_HEARTBEAT_INTERVAL_MS@), 1000, u64::MAX as int)
            ==> ra.metrics_heartbeat_interval == rb.metrics_heartbeat_interval,
        !gives_number(text_at(env, ENV_METRICS_HEARTBEAT_INTERVAL_MS@), 1000, u64::MAX as int)
            ==> ra.metrics_heartbeat_interval == a.metrics_heartbeat_interval,
        gives_text(text_at(env, ENV_APP_ID@)) ==> owned_view(ra.app_id) == owned_view(rb.app_id),
        !gives_text(text_at(env, ENV_APP_ID@)) ==> owned_view(ra.app_id) == owned_view(a.app_id),
        gives_any_case_flag(text_at(env, ENV_PUSHGATEWAY_ENABLED@))
            ==> ra.pushgateway_enabled == rb.pushgateway_enabled,
        !gives_any_case_flag(text_at(env, ENV_PUSHGATEWAY_ENABLED@))
            ==> ra.pushgateway_enabled == a.pushgateway_enabled,
        gives_text(text_at(env, ENV_PUSHGATEWAY_ENDPOINT@))
            ==> ra.pushgateway_endpoint@ == rb.pushgateway_endpoint@,
        !gives_text(text_at(env, ENV_PUSHGATEWAY_ENDPOINT@))
            ==> ra.pushgateway_endpoint@ == a.pushgateway_endpoint@,
        gives_number(text_at(env, ENV_PUSHGATEWAY_PUSH_INTERVAL_MS@), 1000, u64::MAX as int)
            ==> ra.pushgateway_push_interval == rb.pushgateway_push_interval,
        !gives_number(text_at(env, ENV_PUSHGATEWAY_PUSH_INTERVAL_MS@), 1000, u64::MAX as int)
            ==> ra.pushgateway_push_interval == a.pushgateway_push_interval,
        gives_text(text_at(env, ENV_PUSHGATEWAY_JOB@))
            ==> ra.pushgateway_job@ == rb.pushgateway_job@,
        !gives_text(text_at(env, ENV_PUSHGATEWAY_JOB@))
            ==> ra.pushgateway_job@ == a.pushgateway_job@,
        gives_text(text_at(env, ENV_PUSHGATEWAY_INSTANCE@))
            ==> owned_view(ra.pushgateway_instance) == owned_view(rb.pushgateway_instance),
        !gives_text(text_at(env, ENV_PUSHGATEWAY_INSTANCE@))
            ==> owned_view(ra.pushgateway_instance) == owned_view(a.pushgateway_instance),
        gives_any_case_flag(text_at(env, ENV_CLIENT_CACHE_ENABLED@))
            ==> ra.client_cache_enabled == rb.client_cache_enabled,
        !gives_any_case_flag(text_at(env, ENV_CLIENT_CACHE_ENABLED@))
            ==> ra.client_cache_enabled == a.client_cache_enabled,
        gives_number(text_at(env, ENV_CLIENT_CACHE_PAGE_SIZE@), 1, u64::MAX as int)
            ==> ra.client_cache_page_size == rb.client_cache_page_size,
        !gives_number(text_at(env, ENV_CLIENT_CACHE_PAGE_SIZE@), 1, u64::MAX as int)
            ==> ra.client_cache_page_size == a.client_cache_page_size,
        gives_number(text_at(env, ENV_CLIENT_CACHE_SIZE@), 0, u64::MAX as int)
            ==> ra.client_cache_size == rb.client_cache_size,
        !gives_number(text_at(env, ENV_CLIENT_CACHE_SIZE@), 0, u64::MAX as int)
            ==> ra.client_cache_size == a.client_cache_size,
        gives_list(text_at(env, ENV_CLIENT_CACHE_DIRS@))
            ==> views(ra.client_cache_dirs@) == views(rb.client_cache_dirs@),
        !gives_list(text_at(env, ENV_CLIENT_CACHE_DIRS@))
            ==> views(ra.client_cache_dirs@) == views(a.client_cache_dirs@),
        gives_evictor(text_at(env, ENV_CLIENT_CACHE_EVICTOR@))
            ==> ra.client_cache_evictor == rb.client_cache_evictor,
        !gives_evictor(text_at(env, ENV_CLIENT_CACHE_EVICTOR@))
            ==> ra.client_cache_evictor == a.client_cache_evictor,
        gives_any_case_flag(text_at(env, ENV_CLIENT_CACHE_ASYNC_WRITE_ENABLED@))
            ==> ra.client_cache_async_write_enabled == rb.client_cache_async_write_enabled,
        !gives_any_case_flag(text_at(env, ENV_CLIENT_CACHE_ASYNC_WRITE_ENABLED@))
            ==> ra.client_cache_async_write_enabled == a.client_cache_async_write_enabled,
        gives_number(text_at(env, ENV_CLIENT_CACHE_ASYNC_WRITE_THREADS@), 1, usize::MAX as int)
            ==> ra.client_cache_async_write_threads == rb.client_cache_async_write_threads,
        !gives_number(text_at(env, ENV_CLIENT_CACHE_ASYNC_WRITE_THREADS@), 1, usize::MAX as int)
            ==> ra.client_cache_async_write_threads == a.client_cache_async_write_threads,
        gives_any_case_flag(text_at(env, ENV_CLIENT_CACHE_QUOTA_ENABLED@))
            ==> ra.client_cache_quota_enabled == rb.client_cache_quota_enabled,
        !gives_any_case_flag(text_at(env, ENV_CLIENT_CACHE_QUOTA_ENABLED@))
            ==> ra.client_cache_quota_enabled == a.client_cache_quota_enabled,
        gives_number(text_at(env, ENV_CLIENT_CACHE_TTL_SECS@), 0, u64::MAX as int)
            ==> ra.client_cache_ttl_secs == rb.client_cache_ttl_secs,
        !gives_number(text_at(env, ENV_CLIENT_CACHE_TTL_SECS@), 0, u64::MAX as int)
            ==> ra.client_cache_ttl_secs == a.client_cache_ttl_secs,
        gives_any_case_flag(text_at(env, ENV_CLIENT_CACHE_SEQUENTIAL_READ_ENABLED@))
            ==> ra.client_cache_sequential_read_enabled == rb.client_cache_sequential_read_enabled,
        !gives_any_case_flag(text_at(env, ENV_CLIENT_CACHE_SEQUENTIAL_READ_ENABLED@))
            ==> ra.client_cache_sequential_read_enabled == a.client_cache_sequential_read_enabled,
{
}

} // verus!
