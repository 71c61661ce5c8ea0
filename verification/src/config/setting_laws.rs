//! What each setting takes from the environment and from a properties file.
//!
//! `call_ensures(f, args, r)` says that `r` is a result of the call of `f` with `args`.

use vstd::prelude::*;

use crate::config::kinds::{law_write_type_name_is_read_back, WriteType};
use crate::config::properties::PropertiesMap;
use crate::config::settings::GoosefsConfig;
use crate::config::values::{
    byte_size, listed, owned_view, unit_factor, unit_prefix, TextMap,
};
use crate::text::{decimal, is_digit, lowered, trimmed, unsigned_value, views};
use crate::text_laws::{law_decimal_numeral_has_its_value, lemma_untrimmed};

verus! {

/// Whether the source gives `text` under `key`.
pub open spec fn gives(m: Map<Seq<char>, Seq<char>>, key: Seq<char>, text: Seq<char>) -> bool {
    m.contains_key(key) && m[key] == text
}

pub proof fn lemma_truth_values()
    ensures
        "true"@ != "false"@,
        lowered("true"@) == "true"@,
        lowered("false"@) == "false"@,
{
    reveal_strlit("true");
    reveal_strlit("false");
    assert("true"@.len() != "false"@.len());
    assert(lowered("true"@) =~= "true"@);
    assert(lowered("false"@) =~= "false"@);
}

proof fn lemma_names(wt: WriteType)
    ensures
        crate::config::kinds::write_type_named(wt.name()) == Some(wt),
        crate::auth::auth_type_named("simple"@) == Some(crate::auth::AuthType::Simple),
        crate::auth::auth_type_named("nosasl"@) == Some(crate::auth::AuthType::NoSasl),
        crate::config::kinds::evictor_named("lru"@) == Some(
            crate::config::kinds::CacheEvictorType::Lru,
        ),
        crate::config::kinds::evictor_named("lfu"@) == Some(
            crate::config::kinds::CacheEvictorType::Lfu,
        ),
{
    law_write_type_name_is_read_back(wt);
    reveal_strlit("simple");
    reveal_strlit("nosasl");
    reveal_strlit("lru");
    reveal_strlit("lfu");
    assert(lowered("simple"@) =~= "simple"@);
    assert(lowered("nosasl"@) =~= "nosasl"@);
    assert(lowered("lru"@) =~= "lru"@);
    assert(lowered("lfu"@) =~= "lfu"@);
    assert("simple"@[0] != "nosasl"@[0]);
    assert("lru"@[1] != "lfu"@[1]);
    lemma_untrimmed("lru"@);
    lemma_untrimmed("lfu"@);
}

proof fn lemma_small_zero()
    ensures
        unsigned_value(decimal(0), u64::MAX as int) == Ok::<int, crate::text::NumeralError>(0),
        unsigned_value(decimal(0), usize::MAX as int) == Ok::<int, crate::text::NumeralError>(0),
{
    law_decimal_numeral_has_its_value(0, u64::MAX as int);
    law_decimal_numeral_has_its_value(0, usize::MAX as int);
}

proof fn lemma_size_with_unit(n: nat, unit: Seq<char>, letter: char, factor: int)
    requires
        n <= u64::MAX,
        unit.len() == 2,
        unit[1] == 'B',
        (unit[0] == 'K' && letter == 'k' && factor == 1024) || (unit[0] == 'M' && letter == 'm'
            && factor == 1048576) || (unit[0] == 'G' && letter == 'g' && factor == 1073741824),
    ensures
        n * factor <= u64::MAX ==> byte_size(decimal(n) + unit) == Ok::<int, Seq<char>>(n * factor),
{
    law_decimal_numeral_has_its_value(n, u64::MAX as int);
    let d = decimal(n);
    let s = d + unit;
    assert(is_digit(d[0]) && is_digit(d[d.len() - 1]));
    lemma_untrimmed(s);
    lemma_untrimmed(d);
    let l = lowered(s);
    assert(l[s.len() - 2] == letter && l[s.len() - 1] == 'b');
    assert(unit_factor(s) == factor);
    assert(unit_prefix(s) =~= d);
}

pub proof fn lemma_byte_sizes(n: nat)
    ensures
        n <= u64::MAX ==> byte_size(decimal(n)) == Ok::<int, Seq<char>>(n as int),
        n * 1024 <= u64::MAX ==> byte_size(decimal(n) + "KB"@) == Ok::<int, Seq<char>>(
            (n * 1024) as int,
        ),
        n * 1048576 <= u64::MAX ==> byte_size(decimal(n) + "MB"@) == Ok::<int, Seq<char>>(
            (n * 1048576) as int,
        ),
        n * 1073741824 <= u64::MAX ==> byte_size(decimal(n) + "GB"@) == Ok::<int, Seq<char>>(
            (n * 1073741824) as int,
        ),
{
    if n <= u64::MAX {
        law_decimal_numeral_has_its_value(n, u64::MAX as int);
        let d = decimal(n);
        assert(is_digit(d[0]) && is_digit(d[d.len() - 1]));
        lemma_untrimmed(d);
        assert(lowered(d)[d.len() - 1] == d[d.len() - 1]);
        assert(unit_prefix(d) == d && unit_factor(d) == 1);
        reveal_strlit("KB");
        reveal_strlit("MB");
        reveal_strlit("GB");
        lemma_size_with_unit(n, "KB"@, 'k', 1024);
        lemma_size_with_unit(n, "MB"@, 'm', 1048576);
        lemma_size_with_unit(n, "GB"@, 'g', 1073741824);
    }
}

/// Each number and time of the configuration is the one that its own variable spells, in
/// decimal digits; without that variable it stays as it was.
#[verifier::spinoff_prover]
#[verifier::rlimit(40)]
pub proof fn law_numbers_come_from_their_variables(
    c: GoosefsConfig,
    env: TextMap,
    n: nat,
    r: GoosefsConfig,
)
    requires
        call_ensures(GoosefsConfig::apply_env, (c, &env), r),
    ensures
        !env@.contains_key("GOOSEFS_BLOCK_SIZE"@) ==> r.block_size == c.block_size,
        gives(env@, "GOOSEFS_BLOCK_SIZE"@, decimal(n)) && n <= u64::MAX ==> r.block_size == n,
        !env@.contains_key("GOOSEFS_CHUNK_SIZE"@) ==> r.chunk_size == c.chunk_size,
        gives(env@, "GOOSEFS_CHUNK_SIZE"@, decimal(n)) && n <= u64::MAX ==> r.chunk_size == n,
        !env@.contains_key("GOOSEFS_CONFIG_RPC_PORT"@) ==> r.config_rpc_port == c.config_rpc_port,
        gives(env@, "GOOSEFS_CONFIG_RPC_PORT"@, decimal(n)) && n <= u16::MAX ==> r.config_rpc_port == n,
        !env@.contains_key("GOOSEFS_USER_METRICS_HEARTBEAT_INTERVAL_MS"@) ==> r.metrics_heartbeat_interval == c.metrics_heartbeat_interval,
        gives(env@, "GOOSEFS_USER_METRICS_HEARTBEAT_INTERVAL_MS"@, decimal(n)) && 1000 <= n <= u64::MAX ==> r.metrics_heartbeat_interval.nanos == n * 1_000_000,
        gives(env@, "GOOSEFS_USER_METRICS_HEARTBEAT_INTERVAL_MS"@, decimal(n)) && n < 1000 ==> r.metrics_heartbeat_interval == c.metrics_heartbeat_interval,
        !env@.contains_key("GOOSEFS_METRICS_PUSHGATEWAY_PUSH_INTERVAL_MS"@) ==> r.pushgateway_push_interval == c.pushgateway_push_interval,
        gives(env@, "GOOSEFS_METRICS_PUSHGATEWAY_PUSH_INTERVAL_MS"@, decimal(n)) && 1000 <= n <= u64::MAX ==> r.pushgateway_push_interval.nanos == n * 1_000_000,
        gives(env@, "GOOSEFS_METRICS_PUSHGATEWAY_PUSH_INTERVAL_MS"@, decimal(n)) && n < 1000 ==> r.pushgateway_push_interval == c.pushgateway_push_interval,
        !env@.contains_key("GOOSEFS_USER_CLIENT_CACHE_PAGE_SIZE"@) ==> r.client_cache_page_size == c.client_cache_page_size,
        gives(env@, "GOOSEFS_USER_CLIENT_CACHE_PAGE_SIZE"@, decimal(n)) && 1 <= n <= u64::MAX ==> r.client_cache_page_size == n,
        gives(env@, "GOOSEFS_USER_CLIENT_CACHE_PAGE_SIZE"@, decimal(0)) ==> r.client_cache_page_size == c.client_cache_page_size,
        !env@.contains_key("GOOSEFS_USER_CLIENT_CACHE_SIZE"@) ==> r.client_cache_size == c.client_cache_size,
        gives(env@, "GOOSEFS_USER_CLIENT_CACHE_SIZE"@, decimal(n)) && n <= u64::MAX ==> r.client_cache_size == n,
        !env@.contains_key("GOOSEFS_USER_CLIENT_CACHE_ASYNC_WRITE_THREADS"@) ==> r.client_cache_async_write_threads == c.client_cache_async_write_threads,
        gives(env@, "GOOSEFS_USER_CLIENT_CACHE_ASYNC_WRITE_THREADS"@, decimal(n)) && 1 <= n <= usize::MAX ==> r.client_cache_async_write_threads == n,
        gives(env@, "GOOSEFS_USER_CLIENT_CACHE_ASYNC_WRITE_THREADS"@, decimal(0)) ==> r.client_cache_async_write_threads == c.client_cache_async_write_threads,
        !env@.contains_key("GOOSEFS_USER_CLIENT_CACHE_TTL_SECONDS"@) ==> r.client_cache_ttl_secs == c.client_cache_ttl_secs,
        gives(env@, "GOOSEFS_USER_CLIENT_CACHE_TTL_SECONDS"@, decimal(n)) && n <= u64::MAX ==> r.client_cache_ttl_secs == n,
{
    lemma_small_zero();
    if n <= u64::MAX {
        law_decimal_numeral_has_its_value(n, u64::MAX as int);
    }
    if n <= u16::MAX {
        law_decimal_numeral_has_its_value(n, u16::MAX as int);
    }
    if n <= usize::MAX {
        law_decimal_numeral_has_its_value(n, usize::MAX as int);
    }
}

/// Each text and list of the configuration is the one of its own variable; without that
/// variable, or with an empty one, it stays as it was.
#[verifier::spinoff_prover]
#[verifier::rlimit(40)]
pub proof fn law_texts_come_from_their_variables(
    c: GoosefsConfig,
    env: TextMap,
    r: GoosefsConfig,
)
    requires
        call_ensures(GoosefsConfig::apply_env, (c, &env), r),
    ensures
        !env@.contains_key("GOOSEFS_AUTH_USERNAME"@) ==> r.auth_username@ == c.auth_username@,
        env@.contains_key("GOOSEFS_AUTH_USERNAME"@) && env@["GOOSEFS_AUTH_USERNAME"@].len() > 0 ==> r.auth_username@ == env@["GOOSEFS_AUTH_USERNAME"@],
        gives(env@, "GOOSEFS_AUTH_USERNAME"@, Seq::<char>::empty()) ==> r.auth_username@ == c.auth_username@,
        !env@.contains_key("GOOSEFS_CONFIG_MANAGER_RPC_ADDRESSES"@) ==> views(r.config_manager_rpc_addresses@) == views(c.config_manager_rpc_addresses@),
        env@.contains_key("GOOSEFS_CONFIG_MANAGER_RPC_ADDRESSES"@) && listed(env@["GOOSEFS_CONFIG_MANAGER_RPC_ADDRESSES"@]).len() > 0 ==> views(r.config_manager_rpc_addresses@) == listed(env@["GOOSEFS_CONFIG_MANAGER_RPC_ADDRESSES"@]),
        !env@.contains_key("GOOSEFS_LOGIN_IMPERSONATION_USERNAME"@) ==> r.login_impersonation_username@ == c.login_impersonation_username@,
        env@.contains_key("GOOSEFS_LOGIN_IMPERSONATION_USERNAME"@) && env@["GOOSEFS_LOGIN_IMPERSONATION_USERNAME"@].len() > 0 ==> r.login_impersonation_username@ == env@["GOOSEFS_LOGIN_IMPERSONATION_USERNAME"@],
        gives(env@, "GOOSEFS_LOGIN_IMPERSONATION_USERNAME"@, Seq::<char>::empty()) ==> r.login_impersonation_username@ == c.login_impersonation_username@,
        !env@.contains_key("GOOSEFS_USER_APP_ID"@) ==> owned_view(r.app_id) == owned_view(c.app_id),
        env@.contains_key("GOOSEFS_USER_APP_ID"@) && env@["GOOSEFS_USER_APP_ID"@].len() > 0 ==> owned_view(r.app_id) == Some(env@["GOOSEFS_USER_APP_ID"@]),
        gives(env@, "GOOSEFS_USER_APP_ID"@, Seq::<char>::empty()) ==> owned_view(r.app_id) == owned_view(c.app_id),
        !env@.contains_key("GOOSEFS_METRICS_PUSHGATEWAY_ENDPOINT"@) ==> r.pushgateway_endpoint@ == c.pushgateway_endpoint@,
        env@.contains_key("GOOSEFS_METRICS_PUSHGATEWAY_ENDPOINT"@) && env@["GOOSEFS_METRICS_PUSHGATEWAY_ENDPOINT"@].len() > 0 ==> r.pushgateway_endpoint@ == env@["GOOSEFS_METRICS_PUSHGATEWAY_ENDPOINT"@],
        gives(env@, "GOOSEFS_METRICS_PUSHGATEWAY_ENDPOINT"@, Seq::<char>::empty()) ==> r.pushgateway_endpoint@ == c.pushgateway_endpoint@,
        !env@.contains_key("GOOSEFS_METRICS_PUSHGATEWAY_JOB"@) ==> r.pushgateway_job@ == c.pushgateway_job@,
        env@.contains_key("GOOSEFS_METRICS_PUSHGATEWAY_JOB"@) && env@["GOOSEFS_METRICS_PUSHGATEWAY_JOB"@].len() > 0 ==> r.pushgateway_job@ == env@["GOOSEFS_METRICS_PUSHGATEWAY_JOB"@],
        gives(env@, "GOOSEFS_METRICS_PUSHGATEWAY_JOB"@, Seq::<char>::empty()) ==> r.pushgateway_job@ == c.pushgateway_job@,
        !env@.contains_key("GOOSEFS_METRICS_PUSHGATEWAY_INSTANCE"@) ==> owned_view(r.pushgateway_instance) == owned_view(c.pushgateway_instance),
        env@.contains_key("GOOSEFS_METRICS_PUSHGATEWAY_INSTANCE"@) && env@["GOOSEFS_METRICS_PUSHGATEWAY_INSTANCE"@].len() > 0 ==> owned_view(r.pushgateway_instance) == Some(env@["GOOSEFS_METRICS_PUSHGATEWAY_INSTANCE"@]),
        gives(env@, "GOOSEFS_METRICS_PUSHGATEWAY_INSTANCE"@, Seq::<char>::empty()) ==> owned_view(r.pushgateway_instance) == owned_view(c.pushgateway_instance),
        !env@.contains_key("GOOSEFS_USER_CLIENT_CACHE_DIRS"@) ==> views(r.client_cache_dirs@) == views(c.client_cache_dirs@),
        env@.contains_key("GOOSEFS_USER_CLIENT_CACHE_DIRS"@) && listed(env@["GOOSEFS_USER_CLIENT_CACHE_DIRS"@]).len() > 0 ==> views(r.client_cache_dirs@) == listed(env@["GOOSEFS_USER_CLIENT_CACHE_DIRS"@]),
{
}

/// Each switch of the configuration is the one that its own variable spells; without that
/// variable it stays as it was.
#[verifier::spinoff_prover]
#[verifier::rlimit(40)]
pub proof fn law_flags_come_from_their_variables(
    c: GoosefsConfig,
    env: TextMap,
    r: GoosefsConfig,
)
    requires
        call_ensures(GoosefsConfig::apply_env, (c, &env), r),
    ensures
        !env@.contains_key("GOOSEFS_TRANSPARENT_ACCELERATION_ENABLED"@) ==> r.transparent_acceleration_enabled == c.transparent_acceleration_enabled,
        gives(env@, "GOOSEFS_TRANSPARENT_ACCELERATION_ENABLED"@, "true"@) ==> r.transparent_acceleration_enabled,
        gives(env@, "GOOSEFS_TRANSPARENT_ACCELERATION_ENABLED"@, "false"@) ==> !r.transparent_acceleration_enabled,
        !env@.contains_key("GOOSEFS_TRANSPARENT_ACCELERATION_COSRANGER_ENABLED"@) ==> r.transparent_acceleration_cosranger_enabled == c.transparent_acceleration_cosranger_enabled,
        gives(env@, "GOOSEFS_TRANSPARENT_ACCELERATION_COSRANGER_ENABLED"@, "true"@) ==> r.transparent_acceleration_cosranger_enabled,
        gives(env@, "GOOSEFS_TRANSPARENT_ACCELERATION_COSRANGER_ENABLED"@, "false"@) ==> !r.transparent_acceleration_cosranger_enabled,
        !env@.contains_key("GOOSEFS_AUTHORIZATION_PERMISSION_ENABLED"@) ==> r.authorization_permission_enabled == c.authorization_permission_enabled,
        gives(env@, "GOOSEFS_AUTHORIZATION_PERMISSION_ENABLED"@, "true"@) ==> r.authorization_permission_enabled,
        gives(env@, "GOOSEFS_AUTHORIZATION_PERMISSION_ENABLED"@, "false"@) ==> !r.authorization_permission_enabled,
        !env@.contains_key("GOOSEFS_USER_METRICS_COLLECTION_ENABLED"@) ==> r.metrics_enabled == c.metrics_enabled,
        gives(env@, "GOOSEFS_USER_METRICS_COLLECTION_ENABLED"@, "true"@) ==> r.metrics_enabled,
        gives(env@, "GOOSEFS_USER_METRICS_COLLECTION_ENABLED"@, "false"@) ==> !r.metrics_enabled,
        !env@.contains_key("GOOSEFS_METRICS_PUSHGATEWAY_ENABLED"@) ==> r.pushgateway_enabled == c.pushgateway_enabled,
        gives(env@, "GOOSEFS_METRICS_PUSHGATEWAY_ENABLED"@, "true"@) ==> r.pushgateway_enabled,
        gives(env@, "GOOSEFS_METRICS_PUSHGATEWAY_ENABLED"@, "false"@) ==> !r.pushgateway_enabled,
        !env@.contains_key("GOOSEFS_USER_CLIENT_CACHE_ENABLED"@) ==> r.client_cache_enabled == c.client_cache_enabled,
        gives(env@, "GOOSEFS_USER_CLIENT_CACHE_ENABLED"@, "true"@) ==> r.client_cache_enabled,
        gives(env@, "GOOSEFS_USER_CLIENT_CACHE_ENABLED"@, "false"@) ==> !r.client_cache_enabled,
        !env@.contains_key("GOOSEFS_USER_CLIENT_CACHE_ASYNC_WRITE_ENABLED"@) ==> r.client_cache_async_write_enabled == c.client_cache_async_write_enabled,
        gives(env@, "GOOSEFS_USER_CLIENT_CACHE_ASYNC_WRITE_ENABLED"@, "true"@) ==> r.client_cache_async_write_enabled,
        gives(env@, "GOOSEFS_USER_CLIENT_CACHE_ASYNC_WRITE_ENABLED"@, "false"@) ==> !r.client_cache_async_write_enabled,
        !env@.contains_key("GOOSEFS_USER_CLIENT_CACHE_QUOTA_ENABLED"@) ==> r.client_cache_quota_enabled == c.client_cache_quota_enabled,
        gives(env@, "GOOSEFS_USER_CLIENT_CACHE_QUOTA_ENABLED"@, "true"@) ==> r.client_cache_quota_enabled,
        gives(env@, "GOOSEFS_USER_CLIENT_CACHE_QUOTA_ENABLED"@, "false"@) ==> !r.client_cache_quota_enabled,
        !env@.contains_key("GOOSEFS_USER_CLIENT_CACHE_SEQUENTIAL_READ_ENABLED"@) ==> r.client_cache_sequential_read_enabled == c.client_cache_sequential_read_enabled,
        gives(env@, "GOOSEFS_USER_CLIENT_CACHE_SEQUENTIAL_READ_ENABLED"@, "true"@) ==> r.client_cache_sequential_read_enabled,
        gives(env@, "GOOSEFS_USER_CLIENT_CACHE_SEQUENTIAL_READ_ENABLED"@, "false"@) ==> !r.client_cache_sequential_read_enabled,
{
    lemma_truth_values();
}

/// The write type, the authentication type and the eviction policy are those that their
/// own variable names; without that variable they stay as they were.
#[verifier::spinoff_prover]
#[verifier::rlimit(40)]
pub proof fn law_names_come_from_their_variables(
    c: GoosefsConfig,
    env: TextMap,
    wt: WriteType,
    r: GoosefsConfig,
)
    requires
        call_ensures(GoosefsConfig::apply_env, (c, &env), r),
    ensures
        !env@.contains_key("GOOSEFS_WRITE_TYPE"@) ==> r.write_type == c.write_type,
        gives(env@, "GOOSEFS_WRITE_TYPE"@, wt.name()) ==> r.write_type == Some(wt.proto().number()),
        !env@.contains_key("GOOSEFS_AUTH_TYPE"@) ==> r.auth_type == c.auth_type,
        gives(env@, "GOOSEFS_AUTH_TYPE"@, "simple"@) ==> r.auth_type is Simple,
        gives(env@, "GOOSEFS_AUTH_TYPE"@, "nosasl"@) ==> r.auth_type is NoSasl,
        !env@.contains_key("GOOSEFS_USER_CLIENT_CACHE_EVICTION_POLICY"@) ==> r.client_cache_evictor == c.client_cache_evictor,
        gives(env@, "GOOSEFS_USER_CLIENT_CACHE_EVICTION_POLICY"@, "lru"@) ==> r.client_cache_evictor is Lru,
        gives(env@, "GOOSEFS_USER_CLIENT_CACHE_EVICTION_POLICY"@, "lfu"@) ==> r.client_cache_evictor is Lfu,
{
    lemma_names(wt);
}

/// Each number and time of the configuration is the one that its own property spells, in
/// decimal digits or as a byte size; without that property it stays as it was.
#[verifier::spinoff_prover]
#[verifier::rlimit(40)]
pub proof fn law_numbers_come_from_their_properties(
    m: Map<Seq<char>, Seq<char>>,
    props: PropertiesMap,
    c: GoosefsConfig,
    n: nat,
    r: GoosefsConfig,
)
    requires
        call_ensures(PropertiesMap::into_goosefs_config, (props, c), r),
        props@ == m,
    ensures
        !m.contains_key("goosefs.config.rpc.port"@) ==> r.config_rpc_port == c.config_rpc_port,
        gives(m, "goosefs.config.rpc.port"@, decimal(n)) && n <= u16::MAX ==> r.config_rpc_port == n,
        !m.contains_key("goosefs.user.block.size.bytes.default"@) ==> r.block_size == c.block_size,
        gives(m, "goosefs.user.block.size.bytes.default"@, decimal(n)) && 1 <= n <= u64::MAX ==> r.block_size == n,
        gives(m, "goosefs.user.block.size.bytes.default"@, decimal(n) + "KB"@) && 1 <= n && n * 1024 <= u64::MAX ==> r.block_size == n * 1024,
        gives(m, "goosefs.user.block.size.bytes.default"@, decimal(n) + "MB"@) && 1 <= n && n * 1048576 <= u64::MAX ==> r.block_size == n * 1048576,
        gives(m, "goosefs.user.block.size.bytes.default"@, decimal(n) + "GB"@) && 1 <= n && n * 1073741824 <= u64::MAX ==> r.block_size == n * 1073741824,
        !m.contains_key("goosefs.user.network.data.transfer.chunk.size"@) ==> r.chunk_size == c.chunk_size,
        gives(m, "goosefs.user.network.data.transfer.chunk.size"@, decimal(n)) && 1 <= n <= u64::MAX ==> r.chunk_size == n,
        gives(m, "goosefs.user.network.data.transfer.chunk.size"@, decimal(n) + "KB"@) && 1 <= n && n * 1024 <= u64::MAX ==> r.chunk_size == n * 1024,
        gives(m, "goosefs.user.network.data.transfer.chunk.size"@, decimal(n) + "MB"@) && 1 <= n && n * 1048576 <= u64::MAX ==> r.chunk_size == n * 1048576,
        gives(m, "goosefs.user.network.data.transfer.chunk.size"@, decimal(n) + "GB"@) && 1 <= n && n * 1073741824 <= u64::MAX ==> r.chunk_size == n * 1073741824,
        !m.contains_key("goosefs.user.metrics.heartbeat.interval"@) ==> r.metrics_heartbeat_interval == c.metrics_heartbeat_interval,
        gives(m, "goosefs.user.metrics.heartbeat.interval"@, decimal(n)) && 1000 <= n <= u64::MAX ==> r.metrics_heartbeat_interval.nanos == n * 1_000_000,
        gives(m, "goosefs.user.metrics.heartbeat.interval"@, decimal(n)) && n < 1000 ==> r.metrics_heartbeat_interval == c.metrics_heartbeat_interval,
        !m.contains_key("goosefs.metrics.pushgateway.push.interval"@) ==> r.pushgateway_push_interval == c.pushgateway_push_interval,
        gives(m, "goosefs.metrics.pushgateway.push.interval"@, decimal(n)) && 1000 <= n <= u64::MAX ==> r.pushgateway_push_interval.nanos == n * 1_000_000,
        gives(m, "goosefs.metrics.pushgateway.push.interval"@, decimal(n)) && n < 1000 ==> r.pushgateway_push_interval == c.pushgateway_push_interval,
        !m.contains_key("goosefs.user.client.cache.page.size"@) ==> r.client_cache_page_size == c.client_cache_page_size,
        gives(m, "goosefs.user.client.cache.page.size"@, decimal(n)) && 1 <= n <= u64::MAX ==> r.client_cache_page_size == n,
        gives(m, "goosefs.user.client.cache.page.size"@, decimal(n) + "KB"@) && 1 <= n && n * 1024 <= u64::MAX ==> r.client_cache_page_size == n * 1024,
        gives(m, "goosefs.user.client.cache.page.size"@, decimal(n) + "MB"@) && 1 <= n && n * 1048576 <= u64::MAX ==> r.client_cache_page_size == n * 1048576,
        gives(m, "goosefs.user.client.cache.page.size"@, decimal(n) + "GB"@) && 1 <= n && n * 1073741824 <= u64::MAX ==> r.client_cache_page_size == n * 1073741824,
        !m.contains_key("goosefs.user.client.cache.size"@) ==> r.client_cache_size == c.client_cache_size,
        gives(m, "goosefs.user.client.cache.size"@, decimal(n)) && n <= u64::MAX ==> r.client_cache_size == n,
        gives(m, "goosefs.user.client.cache.size"@, decimal(n) + "KB"@) && n * 1024 <= u64::MAX ==> r.client_cache_size == n * 1024,
        gives(m, "goosefs.user.client.cache.size"@, decimal(n) + "MB"@) && n * 1048576 <= u64::MAX ==> r.client_cache_size == n * 1048576,
        gives(m, "goosefs.user.client.cache.size"@, decimal(n) + "GB"@) && n * 1073741824 <= u64::MAX ==> r.client_cache_size == n * 1073741824,
        !m.contains_key("goosefs.user.client.cache.async.write.threads"@) ==> r.client_cache_async_write_threads == c.client_cache_async_write_threads,
        gives(m, "goosefs.user.client.cache.async.write.threads"@, decimal(n)) && 1 <= n <= usize::MAX ==> r.client_cache_async_write_threads == n,
        gives(m, "goosefs.user.client.cache.async.write.threads"@, decimal(0)) ==> r.client_cache_async_write_threads == c.client_cache_async_write_threads,
        !m.contains_key("goosefs.user.client.cache.ttl.seconds"@) ==> r.client_cache_ttl_secs == c.client_cache_ttl_secs,
        gives(m, "goosefs.user.client.cache.ttl.seconds"@, decimal(n)) && n <= u64::MAX ==> r.client_cache_ttl_secs == n,
{
    lemma_small_zero();
    if n <= u64::MAX {
        law_decimal_numeral_has_its_value(n, u64::MAX as int);
    }
    if n <= u16::MAX {
        law_decimal_numeral_has_its_value(n, u16::MAX as int);
    }
    if n <= usize::MAX {
        law_decimal_numeral_has_its_value(n, usize::MAX as int);
    }
    lemma_byte_sizes(n);
    lemma_byte_sizes(0);
}

/// Each text and list of the configuration is the one of its own property; without that
/// property, or with an empty one, it stays as it was.
#[verifier::spinoff_prover]
#[verifier::rlimit(40)]
pub proof fn law_texts_come_from_their_properties(
    m: Map<Seq<char>, Seq<char>>,
    props: PropertiesMap,
    c: GoosefsConfig,
    r: GoosefsConfig,
)
    requires
        call_ensures(PropertiesMap::into_goosefs_config, (props, c), r),
        props@ == m,
    ensures
        !m.contains_key("goosefs.config.manager.rpc.addresses"@) ==> views(r.config_manager_rpc_addresses@) == views(c.config_manager_rpc_addresses@),
        m.contains_key("goosefs.config.manager.rpc.addresses"@) && listed(m["goosefs.config.manager.rpc.addresses"@]).len() > 0 ==> views(r.config_manager_rpc_addresses@) == listed(m["goosefs.config.manager.rpc.addresses"@]),
        !m.contains_key("goosefs.security.login.impersonation.username"@) ==> r.login_impersonation_username@ == c.login_impersonation_username@,
        m.contains_key("goosefs.security.login.impersonation.username"@) && m["goosefs.security.login.impersonation.username"@].len() > 0 ==> r.login_impersonation_username@ == m["goosefs.security.login.impersonation.username"@],
        gives(m, "goosefs.security.login.impersonation.username"@, Seq::<char>::empty()) ==> r.login_impersonation_username@ == c.login_impersonation_username@,
        !m.contains_key("goosefs.security.login.username"@) ==> r.auth_username@ == c.auth_username@,
        m.contains_key("goosefs.security.login.username"@) && m["goosefs.security.login.username"@].len() > 0 ==> r.auth_username@ == m["goosefs.security.login.username"@],
        gives(m, "goosefs.security.login.username"@, Seq::<char>::empty()) ==> r.auth_username@ == c.auth_username@,
        !m.contains_key("goosefs.user.app.id"@) ==> owned_view(r.app_id) == owned_view(c.app_id),
        m.contains_key("goosefs.user.app.id"@) && m["goosefs.user.app.id"@].len() > 0 ==> owned_view(r.app_id) == Some(m["goosefs.user.app.id"@]),
        gives(m, "goosefs.user.app.id"@, Seq::<char>::empty()) ==> owned_view(r.app_id) == owned_view(c.app_id),
        !m.contains_key("goosefs.metrics.pushgateway.endpoint"@) ==> r.pushgateway_endpoint@ == c.pushgateway_endpoint@,
        m.contains_key("goosefs.metrics.pushgateway.endpoint"@) && m["goosefs.metrics.pushgateway.endpoint"@].len() > 0 ==> r.pushgateway_endpoint@ == m["goosefs.metrics.pushgateway.endpoint"@],
        gives(m, "goosefs.metrics.pushgateway.endpoint"@, Seq::<char>::empty()) ==> r.pushgateway_endpoint@ == c.pushgateway_endpoint@,
        !m.contains_key("goosefs.metrics.pushgateway.job"@) ==> r.pushgateway_job@ == c.pushgateway_job@,
        m.contains_key("goosefs.metrics.pushgateway.job"@) && m["goosefs.metrics.pushgateway.job"@].len() > 0 ==> r.pushgateway_job@ == m["goosefs.metrics.pushgateway.job"@],
        gives(m, "goosefs.metrics.pushgateway.job"@, Seq::<char>::empty()) ==> r.pushgateway_job@ == c.pushgateway_job@,
        !m.contains_key("goosefs.metrics.pushgateway.instance"@) ==> owned_view(r.pushgateway_instance) == owned_view(c.pushgateway_instance),
        m.contains_key("goosefs.metrics.pushgateway.instance"@) && m["goosefs.metrics.pushgateway.instance"@].len() > 0 ==> owned_view(r.pushgateway_instance) == Some(m["goosefs.metrics.pushgateway.instance"@]),
        gives(m, "goosefs.metrics.pushgateway.instance"@, Seq::<char>::empty()) ==> owned_view(r.pushgateway_instance) == owned_view(c.pushgateway_instance),
        !m.contains_key("goosefs.user.client.cache.dirs"@) ==> views(r.client_cache_dirs@) == views(c.client_cache_dirs@),
        m.contains_key("goosefs.user.client.cache.dirs"@) && listed(m["goosefs.user.client.cache.dirs"@]).len() > 0 ==> views(r.client_cache_dirs@) == listed(m["goosefs.user.client.cache.dirs"@]),
{
}

/// Each switch of the configuration is the one that its own property spells; without that
/// property it stays as it was.
#[verifier::spinoff_prover]
#[verifier::rlimit(40)]
pub proof fn law_flags_come_from_their_properties(
    m: Map<Seq<char>, Seq<char>>,
    props: PropertiesMap,
    c: GoosefsConfig,
    r: GoosefsConfig,
)
    requires
        call_ensures(PropertiesMap::into_goosefs_config, (props, c), r),
        props@ == m,
    ensures
        !m.contains_key("goosefs.security.authorization.permission.enabled"@) ==> r.authorization_permission_enabled == c.authorization_permission_enabled,
        gives(m, "goosefs.security.authorization.permission.enabled"@, "true"@) ==> r.authorization_permission_enabled,
        gives(m, "goosefs.security.authorization.permission.enabled"@, "false"@) ==> !r.authorization_permission_enabled,
        !m.contains_key("goosefs.user.client.transparent_acceleration.enabled"@) ==> r.transparent_acceleration_enabled == c.transparent_acceleration_enabled,
        gives(m, "goosefs.user.client.transparent_acceleration.enabled"@, "true"@) ==> r.transparent_acceleration_enabled,
        gives(m, "goosefs.user.client.transparent_acceleration.enabled"@, "false"@) ==> !r.transparent_acceleration_enabled,
        !m.contains_key("goosefs.user.client.transparent_acceleration.cosranger.enabled"@) ==> r.transparent_acceleration_cosranger_enabled == c.transparent_acceleration_cosranger_enabled,
        gives(m, "goosefs.user.client.transparent_acceleration.cosranger.enabled"@, "true"@) ==> r.transparent_acceleration_cosranger_enabled,
        gives(m, "goosefs.user.client.transparent_acceleration.cosranger.enabled"@, "false"@) ==> !r.transparent_acceleration_cosranger_enabled,
        !m.contains_key("goosefs.user.metrics.collection.enabled"@) ==> r.metrics_enabled == c.metrics_enabled,
        gives(m, "goosefs.user.metrics.collection.enabled"@, "true"@) ==> r.metrics_enabled,
        gives(m, "goosefs.user.metrics.collection.enabled"@, "false"@) ==> !r.metrics_enabled,
        !m.contains_key("goosefs.metrics.pushgateway.enabled"@) ==> r.pushgateway_enabled == c.pushgateway_enabled,
        gives(m, "goosefs.metrics.pushgateway.enabled"@, "true"@) ==> r.pushgateway_enabled,
        gives(m, "goosefs.metrics.pushgateway.enabled"@, "false"@) ==> !r.pushgateway_enabled,
        !m.contains_key("goosefs.user.client.cache.enabled"@) ==> r.client_cache_enabled == c.client_cache_enabled,
        gives(m, "goosefs.user.client.cache.enabled"@, "true"@) ==> r.client_cache_enabled,
        gives(m, "goosefs.user.client.cache.enabled"@, "false"@) ==> !r.client_cache_enabled,
        !m.contains_key("goosefs.user.client.cache.async.write.enabled"@) ==> r.client_cache_async_write_enabled == c.client_cache_async_write_enabled,
        gives(m, "goosefs.user.client.cache.async.write.enabled"@, "true"@) ==> r.client_cache_async_write_enabled,
        gives(m, "goosefs.user.client.cache.async.write.enabled"@, "false"@) ==> !r.client_cache_async_write_enabled,
        !m.contains_key("goosefs.user.client.cache.quota.enabled"@) ==> r.client_cache_quota_enabled == c.client_cache_quota_enabled,
        gives(m, "goosefs.user.client.cache.quota.enabled"@, "true"@) ==> r.client_cache_quota_enabled,
        gives(m, "goosefs.user.client.cache.quota.enabled"@, "false"@) ==> !r.client_cache_quota_enabled,
        !m.contains_key("goosefs.user.client.cache.sequential.read.enabled"@) ==> r.client_cache_sequential_read_enabled == c.client_cache_sequential_read_enabled,
        gives(m, "goosefs.user.client.cache.sequential.read.enabled"@, "true"@) ==> r.client_cache_sequential_read_enabled,
        gives(m, "goosefs.user.client.cache.sequential.read.enabled"@, "false"@) ==> !r.client_cache_sequential_read_enabled,
{
    lemma_truth_values();
}

/// The write type, the authentication type and the eviction policy are those that their
/// own property names; without that property they stay as they were.
#[verifier::spinoff_prover]
#[verifier::rlimit(40)]
pub proof fn law_names_come_from_their_properties(
    m: Map<Seq<char>, Seq<char>>,
    props: PropertiesMap,
    c: GoosefsConfig,
    wt: WriteType,
    r: GoosefsConfig,
)
    requires
        call_ensures(PropertiesMap::into_goosefs_config, (props, c), r),
        props@ == m,
    ensures
        !m.contains_key("goosefs.security.authentication.type"@) ==> r.auth_type == c.auth_type,
        gives(m, "goosefs.security.authentication.type"@, "simple"@) ==> r.auth_type is Simple,
        gives(m, "goosefs.security.authentication.type"@, "nosasl"@) ==> r.auth_type is NoSasl,
        !m.contains_key("goosefs.user.file.writetype.default"@) ==> r.write_type == c.write_type,
        gives(m, "goosefs.user.file.writetype.default"@, wt.name()) ==> r.write_type == Some(wt.proto().number()),
        !m.contains_key("goosefs.user.client.cache.eviction.policy"@) ==> r.client_cache_evictor == c.client_cache_evictor,
        gives(m, "goosefs.user.client.cache.eviction.policy"@, "lru"@) ==> r.client_cache_evictor is Lru,
        gives(m, "goosefs.user.client.cache.eviction.policy"@, "lfu"@) ==> r.client_cache_evictor is Lfu,
{
    lemma_names(wt);
}

} // verus!
