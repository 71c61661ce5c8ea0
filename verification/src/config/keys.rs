//! Names of the properties, environment variables and storage options.

use vstd::prelude::*;

verus! {

/// Impersonation disabled sentinel.
pub const IMPERSONATION_NONE: &'static str = "_NONE_";

/// Storage option key for Goosefs master address(es).
pub const STORAGE_OPT_MASTER_ADDR: &'static str = "goosefs_master_addr";

/// Storage option key for the default write type.
pub const STORAGE_OPT_WRITE_TYPE: &'static str = "goosefs_write_type";

/// Storage option key for block size (in bytes).
pub const STORAGE_OPT_BLOCK_SIZE: &'static str = "goosefs_block_size";

/// Storage option key for chunk size (in bytes).
pub const STORAGE_OPT_CHUNK_SIZE: &'static str = "goosefs_chunk_size";

/// Storage option key for authentication type.
pub const STORAGE_OPT_AUTH_TYPE: &'static str = "goosefs_auth_type";

/// Storage option key for authentication username.
pub const STORAGE_OPT_AUTH_USERNAME: &'static str = "goosefs_auth_username";

/// Goosefs configuration directory property name.
pub const CONF_DIR: &'static str = "goosefs.conf.dir";

/// Environment variable: explicit config file path.
pub const ENV_CONFIG_FILE: &'static str = "GOOSEFS_CONFIG_FILE";

/// Environment variable: Goosefs configuration directory.
pub const ENV_CONF_DIR: &'static str = "GOOSEFS_CONF_DIR";

/// Environment variable: Goosefs installation home directory.
pub const ENV_HOME: &'static str = "GOOSEFS_HOME";

/// Environment variable: Goosefs master address(es).
pub const ENV_MASTER_ADDR: &'static str = "GOOSEFS_MASTER_ADDR";

/// Environment variable: default write type.
pub const ENV_WRITE_TYPE: &'static str = "GOOSEFS_WRITE_TYPE";

/// Environment variable: block size.
pub const ENV_BLOCK_SIZE: &'static str = "GOOSEFS_BLOCK_SIZE";

/// Environment variable: chunk size.
pub const ENV_CHUNK_SIZE: &'static str = "GOOSEFS_CHUNK_SIZE";

/// Environment variable: authentication type.
pub const ENV_AUTH_TYPE: &'static str = "GOOSEFS_AUTH_TYPE";

/// Environment variable: authentication username.
pub const ENV_AUTH_USERNAME: &'static str = "GOOSEFS_AUTH_USERNAME";

/// Environment variable: config manager RPC addresses.
pub const ENV_CONFIG_MANAGER_RPC_ADDRESSES: &'static str = "GOOSEFS_CONFIG_MANAGER_RPC_ADDRESSES";

/// Environment variable: config RPC port.
pub const ENV_CONFIG_RPC_PORT: &'static str = "GOOSEFS_CONFIG_RPC_PORT";

/// Environment variable: transparent acceleration enabled.
pub const ENV_TRANSPARENT_ACCELERATION_ENABLED: &'static str =
    "GOOSEFS_TRANSPARENT_ACCELERATION_ENABLED";

/// Environment variable: transparent acceleration cosranger enabled.
pub const ENV_TRANSPARENT_ACCELERATION_COSRANGER_ENABLED: &'static str =
    "GOOSEFS_TRANSPARENT_ACCELERATION_COSRANGER_ENABLED";

/// Environment variable: authorization permission enabled.
pub const ENV_AUTHORIZATION_PERMISSION_ENABLED: &'static str =
    "GOOSEFS_AUTHORIZATION_PERMISSION_ENABLED";

/// Environment variable: login impersonation username.
pub const ENV_LOGIN_IMPERSONATION_USERNAME: &'static str = "GOOSEFS_LOGIN_IMPERSONATION_USERNAME";

/// Environment variable: whether client metrics collection is enabled.
pub const ENV_METRICS_ENABLED: &'static str = "GOOSEFS_USER_METRICS_COLLECTION_ENABLED";

/// Environment variable: metrics heartbeat interval in **milliseconds**.
pub const ENV_METRICS_HEARTBEAT_INTERVAL_MS: &'static str =
    "GOOSEFS_USER_METRICS_HEARTBEAT_INTERVAL_MS";

/// Environment variable: application ID for metric source attribution.
pub const ENV_APP_ID: &'static str = "GOOSEFS_USER_APP_ID";

/// Environment variable: whether to enable Pushgateway metrics push.
pub const ENV_PUSHGATEWAY_ENABLED: &'static str = "GOOSEFS_METRICS_PUSHGATEWAY_ENABLED";

/// Environment variable: Pushgateway endpoint URL.
pub const ENV_PUSHGATEWAY_ENDPOINT: &'static str = "GOOSEFS_METRICS_PUSHGATEWAY_ENDPOINT";

/// Environment variable: Pushgateway push interval in **milliseconds**.
pub const ENV_PUSHGATEWAY_PUSH_INTERVAL_MS: &'static str =
    "GOOSEFS_METRICS_PUSHGATEWAY_PUSH_INTERVAL_MS";

/// Environment variable: Pushgateway job label.
pub const ENV_PUSHGATEWAY_JOB: &'static str = "GOOSEFS_METRICS_PUSHGATEWAY_JOB";

/// Environment variable: Pushgateway instance label.
pub const ENV_PUSHGATEWAY_INSTANCE: &'static str = "GOOSEFS_METRICS_PUSHGATEWAY_INSTANCE";

/// Whether to enable the client-side local page cache (`true`/`false`).
pub const ENV_CLIENT_CACHE_ENABLED: &'static str = "GOOSEFS_USER_CLIENT_CACHE_ENABLED";

/// Page size in bytes for the local page cache.
pub const ENV_CLIENT_CACHE_PAGE_SIZE: &'static str = "GOOSEFS_USER_CLIENT_CACHE_PAGE_SIZE";

/// Per-directory capacity in bytes for the local page cache.
pub const ENV_CLIENT_CACHE_SIZE: &'static str = "GOOSEFS_USER_CLIENT_CACHE_SIZE";

/// Comma-separated list of local page cache directories.
pub const ENV_CLIENT_CACHE_DIRS: &'static str = "GOOSEFS_USER_CLIENT_CACHE_DIRS";

/// Eviction policy (`LRU`/`LFU`).
pub const ENV_CLIENT_CACHE_EVICTOR: &'static str = "GOOSEFS_USER_CLIENT_CACHE_EVICTION_POLICY";

/// Whether async write-back (cache fill) is enabled (`true`/`false`).
pub const ENV_CLIENT_CACHE_ASYNC_WRITE_ENABLED: &'static str =
    "GOOSEFS_USER_CLIENT_CACHE_ASYNC_WRITE_ENABLED";

/// Async write-back concurrency.
pub const ENV_CLIENT_CACHE_ASYNC_WRITE_THREADS: &'static str =
    "GOOSEFS_USER_CLIENT_CACHE_ASYNC_WRITE_THREADS";

/// Whether per-scope quota is enabled (`true`/`false`).
pub const ENV_CLIENT_CACHE_QUOTA_ENABLED: &'static str = "GOOSEFS_USER_CLIENT_CACHE_QUOTA_ENABLED";

/// Page time-to-live in seconds (`0` = no expiry).
pub const ENV_CLIENT_CACHE_TTL_SECS: &'static str = "GOOSEFS_USER_CLIENT_CACHE_TTL_SECONDS";

/// Whether sequential reads are routed through the local page cache
/// (`true`/`false`).
pub const ENV_CLIENT_CACHE_SEQUENTIAL_READ_ENABLED: &'static str =
    "GOOSEFS_USER_CLIENT_CACHE_SEQUENTIAL_READ_ENABLED";

/// Storage option key for config manager RPC addresses.
pub const STORAGE_OPT_CONFIG_MANAGER_RPC_ADDRESSES: &'static str =
    "goosefs_config_manager_rpc_addresses";

/// Storage option key for config RPC port.
pub const STORAGE_OPT_CONFIG_RPC_PORT: &'static str = "goosefs_config_rpc_port";

/// Storage option key for transparent acceleration enabled.
pub const STORAGE_OPT_TRANSPARENT_ACCELERATION_ENABLED: &'static str =
    "goosefs_transparent_acceleration_enabled";

/// Storage option key for transparent acceleration cosranger enabled.
pub const STORAGE_OPT_TRANSPARENT_ACCELERATION_COSRANGER_ENABLED: &'static str =
    "goosefs_transparent_acceleration_cosranger_enabled";

/// Storage option key for authorization permission enabled.
pub const STORAGE_OPT_AUTHORIZATION_PERMISSION_ENABLED: &'static str =
    "goosefs_authorization_permission_enabled";

/// Storage option key for login impersonation username.
pub const STORAGE_OPT_LOGIN_IMPERSONATION_USERNAME: &'static str =
    "goosefs_login_impersonation_username";

/// Storage option key for enabling the local page cache.
pub const STORAGE_OPT_CLIENT_CACHE_ENABLED: &'static str = "goosefs_client_cache_enabled";

/// Storage option key for the local page cache page size (bytes).
pub const STORAGE_OPT_CLIENT_CACHE_PAGE_SIZE: &'static str = "goosefs_client_cache_page_size";

/// Storage option key for the local page cache per-directory size (bytes).
pub const STORAGE_OPT_CLIENT_CACHE_SIZE: &'static str = "goosefs_client_cache_size";

/// Storage option key for the local page cache directories (comma-separated).
pub const STORAGE_OPT_CLIENT_CACHE_DIRS: &'static str = "goosefs_client_cache_dirs";

/// Storage option key for the local page cache eviction policy (`LRU`/`LFU`).
pub const STORAGE_OPT_CLIENT_CACHE_EVICTOR: &'static str = "goosefs_client_cache_eviction_policy";

/// Property `goosefs.master.rpc.addresses`.
pub const PROP_MASTER_RPC_ADDRESSES: &'static str = "goosefs.master.rpc.addresses";

/// Property `goosefs.master.hostname`.
pub const PROP_MASTER_HOSTNAME: &'static str = "goosefs.master.hostname";

/// Property `goosefs.master.rpc.port`.
pub const PROP_MASTER_RPC_PORT: &'static str = "goosefs.master.rpc.port";

/// Property `goosefs.config.manager.rpc.addresses`.
pub const PROP_CONFIG_MANAGER_RPC_ADDRESSES: &'static str = "goosefs.config.manager.rpc.addresses";

/// Property `goosefs.config.rpc.port`.
pub const PROP_CONFIG_RPC_PORT: &'static str = "goosefs.config.rpc.port";

/// Property `goosefs.security.authentication.type`.
pub const PROP_SECURITY_AUTHENTICATION_TYPE: &'static str = "goosefs.security.authentication.type";

/// Property `goosefs.security.authorization.permission.enabled`.
pub const PROP_SECURITY_AUTHORIZATION_PERMISSION_ENABLED: &'static str =
    "goosefs.security.authorization.permission.enabled";

/// Property `goosefs.security.login.impersonation.username`.
pub const PROP_SECURITY_LOGIN_IMPERSONATION_USERNAME: &'static str =
    "goosefs.security.login.impersonation.username";

/// Property `goosefs.security.login.username`.
pub const PROP_SECURITY_LOGIN_USERNAME: &'static str = "goosefs.security.login.username";

/// Property `goosefs.user.client.transparent_acceleration.enabled`.
pub const PROP_USER_CLIENT_TRANSPARENT_ACCELERATION_ENABLED: &'static str =
    "goosefs.user.client.transparent_acceleration.enabled";

/// Property `goosefs.user.client.transparent_acceleration.cosranger.enabled`.
pub const PROP_USER_CLIENT_TRANSPARENT_ACCELERATION_COSRANGER_ENABLED: &'static str =
    "goosefs.user.client.transparent_acceleration.cosranger.enabled";

/// Property `goosefs.user.file.writetype.default`.
pub const PROP_USER_FILE_WRITETYPE_DEFAULT: &'static str = "goosefs.user.file.writetype.default";

/// Property `goosefs.user.block.size.bytes.default`.
pub const PROP_USER_BLOCK_SIZE_BYTES_DEFAULT: &'static str =
    "goosefs.user.block.size.bytes.default";

/// Property `goosefs.user.network.data.transfer.chunk.size`.
pub const PROP_USER_NETWORK_DATA_TRANSFER_CHUNK_SIZE: &'static str =
    "goosefs.user.network.data.transfer.chunk.size";

/// Property `goosefs.user.metrics.collection.enabled`.
pub const PROP_USER_METRICS_COLLECTION_ENABLED: &'static str =
    "goosefs.user.metrics.collection.enabled";

/// Property `goosefs.user.metrics.heartbeat.interval`.
pub const PROP_USER_METRICS_HEARTBEAT_INTERVAL: &'static str =
    "goosefs.user.metrics.heartbeat.interval";

/// Property `goosefs.user.app.id`.
pub const PROP_USER_APP_ID: &'static str = "goosefs.user.app.id";

/// Property `goosefs.metrics.pushgateway.enabled`.
pub const PROP_METRICS_PUSHGATEWAY_ENABLED: &'static str = "goosefs.metrics.pushgateway.enabled";

/// Property `goosefs.metrics.pushgateway.endpoint`.
pub const PROP_METRICS_PUSHGATEWAY_ENDPOINT: &'static str = "goosefs.metrics.pushgateway.endpoint";

/// Property `goosefs.metrics.pushgateway.push.interval`.
pub const PROP_METRICS_PUSHGATEWAY_PUSH_INTERVAL: &'static str =
    "goosefs.metrics.pushgateway.push.interval";

/// Property `goosefs.metrics.pushgateway.job`.
pub const PROP_METRICS_PUSHGATEWAY_JOB: &'static str = "goosefs.metrics.pushgateway.job";

/// Property `goosefs.metrics.pushgateway.instance`.
pub const PROP_METRICS_PUSHGATEWAY_INSTANCE: &'static str = "goosefs.metrics.pushgateway.instance";

/// Property `goosefs.user.client.cache.enabled`.
pub const PROP_USER_CLIENT_CACHE_ENABLED: &'static str = "goosefs.user.client.cache.enabled";

/// Property `goosefs.user.client.cache.page.size`.
pub const PROP_USER_CLIENT_CACHE_PAGE_SIZE: &'static str = "goosefs.user.client.cache.page.size";

/// Property `goosefs.user.client.cache.size`.
pub const PROP_USER_CLIENT_CACHE_SIZE: &'static str = "goosefs.user.client.cache.size";

/// Property `goosefs.user.client.cache.dirs`.
pub const PROP_USER_CLIENT_CACHE_DIRS: &'static str = "goosefs.user.client.cache.dirs";

/// Property `goosefs.user.client.cache.eviction.policy`.
pub const PROP_USER_CLIENT_CACHE_EVICTION_POLICY: &'static str =
    "goosefs.user.client.cache.eviction.policy";

/// Property `goosefs.user.client.cache.async.write.enabled`.
pub const PROP_USER_CLIENT_CACHE_ASYNC_WRITE_ENABLED: &'static str =
    "goosefs.user.client.cache.async.write.enabled";

/// Property `goosefs.user.client.cache.async.write.threads`.
pub const PROP_USER_CLIENT_CACHE_ASYNC_WRITE_THREADS: &'static str =
    "goosefs.user.client.cache.async.write.threads";

/// Property `goosefs.user.client.cache.quota.enabled`.
pub const PROP_USER_CLIENT_CACHE_QUOTA_ENABLED: &'static str =
    "goosefs.user.client.cache.quota.enabled";

/// Property `goosefs.user.client.cache.ttl.seconds`.
pub const PROP_USER_CLIENT_CACHE_TTL_SECONDS: &'static str =
    "goosefs.user.client.cache.ttl.seconds";

/// Property `goosefs.user.client.cache.sequential.read.enabled`.
pub const PROP_USER_CLIENT_CACHE_SEQUENTIAL_READ_ENABLED: &'static str =
    "goosefs.user.client.cache.sequential.read.enabled";

/// Name of the properties file.
pub const PROPERTIES_FILENAME: &'static str = "goosefs-site.properties";

} // verus!
