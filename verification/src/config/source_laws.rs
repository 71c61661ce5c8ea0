//! What a properties file says, and how the configuration is put together.
//!
//! `call_ensures(f, args, r)` says that `r` is a result of the call of `f` with `args`.

use vstd::prelude::*;

use crate::auth::AuthType;
use crate::clock::Duration;
use crate::config::environment::{config_file_candidates, discover_config_file};
use crate::config::kinds::WriteType;
use crate::config::properties::{line_entry, lines_map, ConfigLoadError, PropertiesMap};
use crate::config::setting_laws::gives;
use crate::config::settings::{default_auth_username, GoosefsConfig};
use crate::config::values::{items, owned_view, parse_list, text_at, TextMap};
use crate::proto::WritePType;
use crate::text::{
    decimal, drop_leading, drop_trailing, first_from, is_white, lemma_first_from, only, pieces,
    trimmed, views, white,
};
use crate::text_laws::{law_decimal_numeral_has_its_value, lemma_first_behind, lemma_untrimmed};

verus! {

proof fn lemma_items_of_both(a: Seq<Seq<char>>, b: Seq<Seq<char>>)
    ensures
        items(a + b) == items(a) + items(b),
    decreases b.len(),
{
    if b.len() == 0 {
        assert(a + b =~= a);
        assert(items(a) + items(b) =~= items(a));
    } else {
        lemma_items_of_both(a, b.drop_last());
        assert((a + b).drop_last() =~= a + b.drop_last());
        assert((a + b).last() == b.last());
        assert(items(a + b) =~= items(a) + items(b));
    }
}

/// The first item of `a,b` is `a`, and the others are those of `b`; a blank first item is
/// left out. White space at the ends of an item does not belong to it.
pub proof fn law_list_is_read_item_by_item(
    s: &str,
    t: &str,
    a: Seq<char>,
    whole: Vec<String>,
    rest: Vec<String>,
)
    requires
        call_ensures(parse_list, (s,), whole),
        call_ensures(parse_list, (t,), rest),
        s@ == a.push(',') + t@,
        forall|i: int| 0 <= i < a.len() ==> a[i] != ',',
        a.len() > 0 ==> !is_white(a[0]) && !is_white(a.last()),
    ensures
        a.len() > 0 ==> views(whole@) == seq![a] + views(rest@),
        a.len() == 0 ==> views(whole@) == views(rest@),
{
    lemma_first_behind(a, ',', t@);
    lemma_untrimmed(a);
    let one = seq![a];
    lemma_items_of_both(one, pieces(t@, ','));
    assert(one.drop_last() =~= Seq::<Seq<char>>::empty());
    reveal_with_fuel(items, 2);
    assert(items(one) =~= if a.len() > 0 {
        one
    } else {
        Seq::<Seq<char>>::empty()
    });
    assert(Seq::<Seq<char>>::empty() + views(rest@) =~= views(rest@));
}

/// A text without a comma is a list of one item, or of none if it is blank.
pub proof fn law_text_without_comma_is_one_item(s: &str, r: Vec<String>)
    requires
        call_ensures(parse_list, (s,), r),
        forall|i: int| 0 <= i < s@.len() ==> s@[i] != ',',
        s@.len() > 0 ==> !is_white(s@[0]) && !is_white(s@.last()),
    ensures
        s@.len() > 0 ==> views(r@) == seq![s@],
        s@.len() == 0 ==> r@.len() == 0,
{
    lemma_first_from(s@, ',', 0);
    lemma_untrimmed(s@);
    let one = seq![s@];
    assert(one.drop_last() =~= Seq::<Seq<char>>::empty());
    reveal_with_fuel(items, 2);
    assert(items(one) =~= if s@.len() > 0 {
        one
    } else {
        Seq::<Seq<char>>::empty()
    });
    assert(views(r@).len() == r@.len());
}

/// The masters are those that the environment lists, in their order; without such a
/// list they stay as they were.
pub proof fn law_environment_names_the_masters(
    c: GoosefsConfig,
    env: TextMap,
    r: GoosefsConfig,
    text: &str,
    list: Vec<String>,
    before: Vec<String>,
    masters: Vec<String>,
)
    requires
        call_ensures(GoosefsConfig::apply_env, (c, &env), r),
        call_ensures(GoosefsConfig::master_addresses, (&c,), before),
        call_ensures(GoosefsConfig::master_addresses, (&r,), masters),
        call_ensures(parse_list, (text,), list),
    ensures
        gives(env@, "GOOSEFS_MASTER_ADDR"@, text@) && list@.len() > 0 ==> views(masters@) == views(
            list@,
        ) && r.master_addr@ == list@[0]@,
        gives(env@, "GOOSEFS_MASTER_ADDR"@, text@) && list@.len() == 0 ==> views(masters@) == views(
            before@,
        ),
        !env@.contains_key("GOOSEFS_MASTER_ADDR"@) ==> views(masters@) == views(before@)
            && r.master_addr@ == c.master_addr@,
{
    assert(views(list@).len() == list@.len());
    assert(views(r.master_addrs@).len() == r.master_addrs@.len());
    assert(views(c.master_addrs@).len() == c.master_addrs@.len());
    if list@.len() > 0 {
        assert(views(list@)[0] == list@[0]@);
    }
    if list@.len() == 1 {
        assert(views(list@) =~= seq![list@[0]@]);
    }
}

/// The masters are those that the properties list; without a list, the master is at the
/// named host, at port 9200 unless a port is named.
pub proof fn law_properties_name_the_masters(
    c: GoosefsConfig,
    props: PropertiesMap,
    r: GoosefsConfig,
    text: &str,
    list: Vec<String>,
    before: Vec<String>,
    masters: Vec<String>,
    host: Seq<char>,
    port: nat,
)
    requires
        call_ensures(PropertiesMap::into_goosefs_config, (props, c), r),
        call_ensures(GoosefsConfig::master_addresses, (&c,), before),
        call_ensures(GoosefsConfig::master_addresses, (&r,), masters),
        call_ensures(parse_list, (text,), list),
        c.master_addrs@.len() == 0,
        port <= u16::MAX,
    ensures
        gives(props@, "goosefs.master.rpc.addresses"@, text@) && list@.len() > 0 ==> views(masters@)
            == views(list@),
        !props@.contains_key("goosefs.master.rpc.addresses"@) && gives(
            props@,
            "goosefs.master.hostname"@,
            host,
        ) && gives(props@, "goosefs.master.rpc.port"@, decimal(port)) ==> views(masters@) == seq![
            host + ":"@ + decimal(port),
        ],
        !props@.contains_key("goosefs.master.rpc.addresses"@) && gives(
            props@,
            "goosefs.master.hostname"@,
            host,
        ) && !props@.contains_key("goosefs.master.rpc.port"@) ==> views(masters@) == seq![
            host + ":"@ + decimal(9200),
        ],
        !props@.contains_key("goosefs.master.rpc.addresses"@) && !props@.contains_key(
            "goosefs.master.hostname"@,
        ) ==> views(masters@) == views(before@),
{
    law_decimal_numeral_has_its_value(port, u16::MAX as int);
    assert(views(list@).len() == list@.len());
    assert(views(r.master_addrs@).len() == r.master_addrs@.len());
    assert(views(c.master_addrs@).len() == c.master_addrs@.len());
    if list@.len() > 0 {
        assert(views(list@)[0] == list@[0]@);
    }
    if list@.len() == 1 {
        assert(views(list@) =~= seq![list@[0]@]);
    }
}

/// A configuration made from addresses has those masters, in their order.
pub proof fn law_configuration_has_the_given_masters(
    addr: &str,
    addrs: Vec<String>,
    env: TextMap,
    one: GoosefsConfig,
    several: GoosefsConfig,
    any: GoosefsConfig,
    plain: GoosefsConfig,
    of_one: Vec<String>,
    of_several: Vec<String>,
    of_any: Vec<String>,
    of_plain: Vec<String>,
)
    requires
        addrs@.len() > 0,
        call_ensures(GoosefsConfig::new, (addr, &env), one),
        call_ensures(GoosefsConfig::new_ha, (addrs, &env), several),
        call_ensures(GoosefsConfig::from_addresses, (addrs, &env), any),
        call_ensures(GoosefsConfig::default, (&env,), plain),
        call_ensures(GoosefsConfig::master_addresses, (&one,), of_one),
        call_ensures(GoosefsConfig::master_addresses, (&several,), of_several),
        call_ensures(GoosefsConfig::master_addresses, (&any,), of_any),
        call_ensures(GoosefsConfig::master_addresses, (&plain,), of_plain),
    ensures
        views(of_one@) == seq![addr@],
        views(of_several@) == views(addrs@),
        views(of_any@) == views(addrs@),
        views(of_plain@) == seq!["127.0.0.1:9200"@],
        any.master_addr@ == addrs@[0]@,
        several.master_addr@ == addrs@[0]@,
{
    if addrs@.len() == 1 {
        assert(views(addrs@) =~= seq![addrs@[0]@]);
    }
}

/// What a configuration is before anything is set.
pub proof fn law_builtin_settings(env: TextMap, r: GoosefsConfig, user: Seq<char>)
    requires
        call_ensures(GoosefsConfig::default, (&env,), r),
    ensures
        r.block_size == 64 * 1024 * 1024,
        r.chunk_size == 1024 * 1024,
        r.connect_timeout.nanos == 30_000_000_000,
        r.request_timeout.nanos == 300_000_000_000,
        !r.use_vpc_mapping,
        r.root@.len() == 0,
        r.write_type is None,
        r.prefetch_window == 8 && r.read_buffer_messages == 16,
        r.ack_interval_bytes == 0 && r.ack_interval_chunks == 1,
        r.master_connection_pool_size == 1 && r.worker_connection_pool_size == 1,
        r.master_inquire_retry_max_duration.nanos == 120_000_000_000,
        r.master_inquire_initial_sleep.nanos == 50_000_000,
        r.master_inquire_max_sleep.nanos == 3_000_000_000,
        r.master_polling_timeout.nanos == 30_000_000_000,
        r.auth_type is Simple,
        r.auth_timeout.nanos == 30_000_000_000,
        gives(env@, "USER"@, user) ==> r.auth_username@ == user,
        !env@.contains_key("USER"@) && gives(env@, "USERNAME"@, user) ==> r.auth_username@ == user,
        !env@.contains_key("USER"@) && !env@.contains_key("USERNAME"@) ==> r.auth_username@
            == "unknown"@,
        r.config_manager_rpc_addresses@.len() == 0,
        r.config_rpc_port == 9214,
        r.transparent_acceleration_enabled && !r.transparent_acceleration_cosranger_enabled,
        !r.authorization_permission_enabled,
        r.login_impersonation_username@ == "_HDFS_USER_"@,
        r.metrics_enabled,
        r.metrics_heartbeat_interval.nanos == 10_000_000_000,
        r.metrics_heartbeat_timeout.nanos == 5_000_000_000,
        r.app_id is None,
        r.metrics_max_batch_size == 1024,
        !r.pushgateway_enabled,
        r.pushgateway_endpoint@ == "http://127.0.0.1:9091"@,
        r.pushgateway_push_interval.nanos == 10_000_000_000,
        r.pushgateway_job@ == "goosefs_client"@,
        r.pushgateway_instance is None,
        !r.client_cache_enabled && !r.client_cache_quota_enabled
            && !r.client_cache_sequential_read_enabled,
        r.client_cache_page_size == 1024 * 1024,
        r.client_cache_size == 512 * 1024 * 1024,
        r.client_cache_dirs@.len() == 1 && r.client_cache_dirs@[0]@ == "/tmp/goosefs_cache"@,
        r.client_cache_evictor is Lru,
        r.client_cache_async_write_enabled && r.client_cache_async_write_threads == 16,
        r.client_cache_ttl_secs == 0,
        r.short_circuit_enabled && r.short_circuit_prefetch_enabled,
        r.short_circuit_cache_capacity == 64,
        r.short_circuit_cache_ttl.nanos == 30_000_000_000,
        r.short_circuit_neg_cache_ttl.nanos == 5_000_000_000,
        r.short_circuit_advise@ == "random"@,
        r.short_circuit_prefetch_coalesce_gap == 64 * 1024,
        r.short_circuit_prefetch_max_batch == 1024,
        r.short_circuit_min_block_size == 0,
{
    let d = views(r.client_cache_dirs@);
    assert(d.len() == r.client_cache_dirs@.len());
    assert(d[0] == r.client_cache_dirs@[0]@);
    assert(views(r.config_manager_rpc_addresses@).len() == r.config_manager_rpc_addresses@.len());
}

/// The user is the one that the environment names.
pub proof fn law_user_is_named_by_the_environment(env: TextMap, user: Seq<char>, r: String)
    requires
        call_ensures(default_auth_username, (&env,), r),
    ensures
        gives(env@, "USER"@, user) ==> r@ == user,
        !env@.contains_key("USER"@) && gives(env@, "USERNAME"@, user) ==> r@ == user,
        !env@.contains_key("USER"@) && !env@.contains_key("USERNAME"@) ==> r@ == "unknown"@,
{
}

/// Setting a number or a switch puts it where it is read, and undoing it gives the
/// configuration back.
pub proof fn law_set_numbers_are_in_place(
    c: GoosefsConfig,
    window: i32,
    bytes: i64,
    size: usize,
    on: bool,
    r1: GoosefsConfig,
    r2: GoosefsConfig,
    r3: GoosefsConfig,
    r4: GoosefsConfig,
    r5: GoosefsConfig,
    r6: GoosefsConfig,
)
    requires
        call_ensures(GoosefsConfig::with_prefetch_window, (c, window), r1),
        call_ensures(GoosefsConfig::with_ack_interval_bytes, (c, bytes), r2),
        call_ensures(GoosefsConfig::with_master_connection_pool_size, (c, size), r3),
        call_ensures(GoosefsConfig::with_worker_connection_pool_size, (c, size), r4),
        call_ensures(GoosefsConfig::with_metrics_enabled, (c, on), r5),
        call_ensures(GoosefsConfig::with_pushgateway_enabled, (c, on), r6),
    ensures
        r1.prefetch_window == window,
        (GoosefsConfig { prefetch_window: c.prefetch_window, ..r1 }) == c,
        r2.ack_interval_bytes == bytes,
        (GoosefsConfig { ack_interval_bytes: c.ack_interval_bytes, ..r2 }) == c,
        size > 0 ==> r3.master_connection_pool_size == size,
        size == 0 ==> r3.master_connection_pool_size == 1,
        (GoosefsConfig { master_connection_pool_size: c.master_connection_pool_size, ..r3 }) == c,
        size > 0 ==> r4.worker_connection_pool_size == size,
        size == 0 ==> r4.worker_connection_pool_size == 1,
        (GoosefsConfig { worker_connection_pool_size: c.worker_connection_pool_size, ..r4 }) == c,
        r5.metrics_enabled == on,
        (GoosefsConfig { metrics_enabled: c.metrics_enabled, ..r5 }) == c,
        r6.pushgateway_enabled == on,
        (GoosefsConfig { pushgateway_enabled: c.pushgateway_enabled, ..r6 }) == c,
{
}

/// Setting a span of time puts it where it is read, and undoing it gives the
/// configuration back.
pub proof fn law_set_times_are_in_place(
    c: GoosefsConfig,
    d: Duration,
    r1: GoosefsConfig,
    r2: GoosefsConfig,
    r3: GoosefsConfig,
)
    requires
        call_ensures(GoosefsConfig::with_metrics_heartbeat_interval, (c, d), r1),
        call_ensures(GoosefsConfig::with_metrics_heartbeat_timeout, (c, d), r2),
        call_ensures(GoosefsConfig::with_pushgateway_push_interval, (c, d), r3),
    ensures
        r1.metrics_heartbeat_interval == d,
        (GoosefsConfig { metrics_heartbeat_interval: c.metrics_heartbeat_interval, ..r1 }) == c,
        r2.metrics_heartbeat_timeout == d,
        (GoosefsConfig { metrics_heartbeat_timeout: c.metrics_heartbeat_timeout, ..r2 }) == c,
        r3.pushgateway_push_interval == d,
        (GoosefsConfig { pushgateway_push_interval: c.pushgateway_push_interval, ..r3 }) == c,
{
}

/// Setting a text puts it where it is read, and undoing it gives the configuration back.
pub proof fn law_set_texts_are_in_place(
    c: GoosefsConfig,
    s: &str,
    r1: GoosefsConfig,
    r2: GoosefsConfig,
    r3: GoosefsConfig,
    r4: GoosefsConfig,
    r5: GoosefsConfig,
)
    requires
        call_ensures(GoosefsConfig::with_auth_username, (c, s), r1),
        call_ensures(GoosefsConfig::with_app_id, (c, s), r2),
        call_ensures(GoosefsConfig::with_pushgateway_endpoint, (c, s), r3),
        call_ensures(GoosefsConfig::with_pushgateway_job, (c, s), r4),
        call_ensures(GoosefsConfig::with_pushgateway_instance, (c, s), r5),
    ensures
        r1.auth_username@ == s@,
        (GoosefsConfig { auth_username: c.auth_username, ..r1 }) == c,
        owned_view(r2.app_id) == Some(s@),
        (GoosefsConfig { app_id: c.app_id, ..r2 }) == c,
        r3.pushgateway_endpoint@ == s@,
        (GoosefsConfig { pushgateway_endpoint: c.pushgateway_endpoint, ..r3 }) == c,
        r4.pushgateway_job@ == s@,
        (GoosefsConfig { pushgateway_job: c.pushgateway_job, ..r4 }) == c,
        owned_view(r5.pushgateway_instance) == Some(s@),
        (GoosefsConfig { pushgateway_instance: c.pushgateway_instance, ..r5 }) == c,
{
}

/// A write type that is set, as a value or by its name, is the one that is read.
pub proof fn law_set_write_type_is_read(
    c: GoosefsConfig,
    wt: WriteType,
    p: WritePType,
    s: &str,
    r1: GoosefsConfig,
    r2: GoosefsConfig,
    r3: std::result::Result<GoosefsConfig, String>,
    r4: GoosefsConfig,
    read1: Option<WritePType>,
    read2: Option<WritePType>,
    read4: Option<WritePType>,
)
    requires
        call_ensures(GoosefsConfig::with_write_type_enum, (c, wt), r1),
        call_ensures(GoosefsConfig::with_write_type, (c, p), r2),
        call_ensures(GoosefsConfig::with_write_type_str, (c, s), r3),
        s@ == wt.name(),
        r3 == Ok::<GoosefsConfig, String>(r4),
        call_ensures(GoosefsConfig::get_write_type, (&r1,), read1),
        call_ensures(GoosefsConfig::get_write_type, (&r2,), read2),
        call_ensures(GoosefsConfig::get_write_type, (&r4,), read4),
    ensures
        read1 == Some(wt.proto()),
        read2 == Some(p),
        read4 == Some(wt.proto()),
        (GoosefsConfig { write_type: c.write_type, ..r1 }) == c,
        (GoosefsConfig { write_type: c.write_type, ..r2 }) == c,
        (GoosefsConfig { write_type: c.write_type, ..r4 }) == c,
{
    crate::config::kinds::law_write_type_name_is_read_back(wt);
}

/// A configuration is refused exactly if it has no master or an unnamed one, if its
/// blocks or chunks are empty or a chunk does not fit into a block, or if the heartbeats
/// come more often than every second, or may take as long as the time between two.
pub proof fn law_valid_configurations(
    c: GoosefsConfig,
    masters: Vec<String>,
    r: std::result::Result<(), String>,
)
    requires
        call_ensures(GoosefsConfig::validate, (&c,), r),
        call_ensures(GoosefsConfig::master_addresses, (&c,), masters),
    ensures
        (r is Ok) == ((forall|i: int|
            0 <= i < masters@.len() ==> (#[trigger] masters@[i])@.len() > 0) && c.block_size > 0
            && 0 < c.chunk_size <= c.block_size && c.metrics_heartbeat_timeout.nanos
            >= 1_000_000_000 && c.metrics_heartbeat_timeout.nanos
            < c.metrics_heartbeat_interval.nanos),
{
    let v = views(masters@);
    assert(v.len() == masters@.len());
    assert forall|i: int| 0 <= i < masters@.len() implies v[i] == (#[trigger] masters@[i])@ by {}
    if c.master_addrs@.len() > 0 {
        assert forall|i: int| 0 <= i < masters@.len() implies (#[trigger] masters@[i])@
            == c.master_addrs@[i]@ by {
            assert(v[i] == c.master_addrs@[i]@);
        }
        if exists|i: int|
            0 <= i < c.master_addrs@.len() && (#[trigger] c.master_addrs@[i])@.len() == 0 {
            let i = choose|i: int|
                0 <= i < c.master_addrs@.len() && (#[trigger] c.master_addrs@[i])@.len() == 0;
            assert(masters@[i]@.len() == 0);
        }
    } else {
        assert(masters@[0]@ == c.master_addr@);
    }
}

proof fn lemma_no_slash_dropped(a: Seq<char>, b: Seq<char>)
    requires
        a.len() > 0 ==> a.last() != '/',
        b.len() > 0 ==> b[0] != '/',
    ensures
        drop_trailing(a, only('/')) == a,
        drop_trailing(a.push('/'), only('/')) == a,
        drop_leading(b, only('/')) == b,
        drop_leading(seq!['/'] + b, only('/')) == b,
{
    reveal_with_fuel(drop_leading, 2);
    reveal_with_fuel(drop_trailing, 2);
    assert(a.push('/').drop_last() =~= a);
    assert((seq!['/'] + b).drop_first() =~= b);
    assert((seq!['/'] + b)[0] == '/');
}

/// A path stands below the root with one slash in between, however many slashes the root
/// and the path bring; without a root it stays as it is.
pub proof fn law_path_stands_below_the_root(
    c: GoosefsConfig,
    path: &str,
    a: Seq<char>,
    b: Seq<char>,
    r: String,
)
    requires
        call_ensures(GoosefsConfig::full_path, (&c, path), r),
        a.len() > 0 && a.last() != '/',
        b.len() > 0 ==> b[0] != '/',
    ensures
        c.root@.len() == 0 ==> r@ == path@,
        (c.root@ == a || c.root@ == a.push('/')) && (path@ == b || path@ == seq!['/'] + b) ==> r@
            == a + seq!['/'] + b,
{
    lemma_no_slash_dropped(a, b);
    reveal_strlit("/");
    assert("/"@ =~= seq!['/']);
}

/// The endpoint of the master is its address over HTTP.
pub proof fn law_master_is_reached_over_http(c: GoosefsConfig, r: String)
    requires
        call_ensures(GoosefsConfig::master_endpoint, (&c,), r),
    ensures
        r@.len() == 7 + c.master_addr@.len(),
        r@.take(7) == "http://"@,
        r@.skip(7) == c.master_addr@,
{
    reveal_strlit("http://");
    assert(r@.take(7) =~= "http://"@);
    assert(r@.skip(7) =~= c.master_addr@);
}

proof fn lemma_last_line(a: Seq<char>, line: Seq<char>)
    requires
        forall|i: int| 0 <= i < line.len() ==> line[i] != '\n',
    ensures
        pieces(a.push('\n') + line, '\n') == pieces(a, '\n').push(line),
    decreases a.len(),
{
    let s = a.push('\n') + line;
    lemma_first_from(a, '\n', 0);
    let f = first_from(a, '\n', 0);
    if f >= a.len() {
        lemma_first_behind(a, '\n', line);
        lemma_first_from(line, '\n', 0);
        assert(pieces(line, '\n') =~= seq![line]);
        assert(pieces(a, '\n') =~= seq![a]);
        assert(pieces(s, '\n') =~= pieces(a, '\n').push(line));
    } else {
        let head = a.take(f);
        let tail = a.skip(f + 1);
        lemma_first_behind(head, '\n', tail.push('\n') + line);
        assert(head.push('\n') + (tail.push('\n') + line) =~= s);
        lemma_last_line(tail, line);
        assert(pieces(s, '\n') =~= seq![head] + pieces(tail, '\n').push(line));
        assert(pieces(s, '\n') =~= pieces(a, '\n').push(line));
    }
}

proof fn lemma_line(key: Seq<char>, sep: char, value: Seq<char>)
    requires
        sep == '=' || sep == ':',
        key.len() > 0,
        key[0] != '#' && key[0] != '!',
        !is_white(key[0]) && !is_white(key.last()),
        forall|i: int| 0 <= i < key.len() ==> key[i] != '=' && key[i] != ':',
        value.len() > 0,
        !is_white(value[0]) && !is_white(value.last()),
    ensures
        line_entry(key.push(sep) + value) == Some((key, value)),
{
    let t = key.push(sep) + value;
    assert(t[0] == key[0] && t.last() == value.last());
    lemma_untrimmed(t);
    lemma_untrimmed(key);
    lemma_untrimmed(value);
    lemma_first_from(t, '=', 0);
    lemma_first_from(t, ':', 0);
    let e = first_from(t, '=', 0);
    let c = first_from(t, ':', 0);
    assert(t[key.len() as int] == sep);
    if e < key.len() {
        assert(t[e] == key[e]);
    }
    if c < key.len() {
        assert(t[c] == key[c]);
    }
    assert(t.take(key.len() as int) =~= key);
    assert(t.skip(key.len() as int + 1) =~= value);
}

/// A line `key=value` or `key:value` at the end of a file gives the key that value,
/// whatever the lines before say, and changes nothing else; a comment changes nothing.
pub proof fn law_properties_are_read_line_by_line(
    before: &str,
    content: &str,
    key: Seq<char>,
    sep: char,
    value: Seq<char>,
    line: Seq<char>,
    p: PropertiesMap,
    r: PropertiesMap,
)
    requires
        call_ensures(PropertiesMap::parse, (before,), p),
        call_ensures(PropertiesMap::parse, (content,), r),
        content@ == before@.push('\n') + line,
        forall|i: int| 0 <= i < line.len() ==> line[i] != '\n',
        sep == '=' || sep == ':',
        key.len() > 0,
        key[0] != '#' && key[0] != '!',
        !is_white(key[0]) && !is_white(key.last()),
        forall|i: int| 0 <= i < key.len() ==> key[i] != '=' && key[i] != ':',
        value.len() > 0,
        !is_white(value[0]) && !is_white(value.last()),
    ensures
        line == key.push(sep) + value ==> gives(r@, key, value),
        line == key.push(sep) + value ==> forall|k: Seq<char>|
            k != key ==> (#[trigger] r@.contains_key(k)) == p@.contains_key(k) && r@[k] == p@[k],
        line.len() == 0 ==> r@ == p@,
        line.len() > 0 && (line[0] == '#' || line[0] == '!') ==> r@ == p@,
{
    lemma_last_line(before@, line);
    lemma_line(key, sep, value);
    let all = pieces(content@, '\n');
    assert(all.drop_last() =~= pieces(before@, '\n'));
    assert(all.last() == line);
    if line.len() > 0 && (line[0] == '#' || line[0] == '!') {
        let t = trimmed(line);
        assert(drop_leading(line, white()) == line);
        lemma_first_stays(line);
    }
}

proof fn lemma_first_stays(s: Seq<char>)
    requires
        s.len() > 0,
        !is_white(s[0]),
    ensures
        drop_trailing(s, white()).len() > 0,
        drop_trailing(s, white())[0] == s[0],
    decreases s.len(),
{
    if is_white(s.last()) {
        assert(s.drop_last()[0] == s[0]);
        lemma_first_stays(s.drop_last());
    }
}

/// What a properties file gives is what is loaded; what it does not give has its
/// built-in value.
pub proof fn law_file_is_loaded(
    content: &str,
    env: TextMap,
    p: PropertiesMap,
    n: nat,
    wt: WriteType,
    path: &str,
    text: String,
    cause: String,
    r: GoosefsConfig,
    loaded: std::result::Result<GoosefsConfig, ConfigLoadError>,
    failed: std::result::Result<GoosefsConfig, ConfigLoadError>,
)
    requires
        call_ensures(PropertiesMap::parse, (content,), p),
        call_ensures(GoosefsConfig::from_properties_str, (content, &env), r),
        text@ == content@,
        call_ensures(
            GoosefsConfig::from_properties,
            (path, Ok::<String, String>(text), &env),
            loaded,
        ),
        call_ensures(
            GoosefsConfig::from_properties,
            (path, Err::<String, String>(cause), &env),
            failed,
        ),
        0 < n <= u64::MAX,
    ensures
        gives(p@, "goosefs.user.block.size.bytes.default"@, decimal(n)) ==> r.block_size == n
            && (loaded matches Ok(c) && c.block_size == n),
        !p@.contains_key("goosefs.user.block.size.bytes.default"@) ==> r.block_size == 64 * 1024
            * 1024 && (loaded matches Ok(c) && c.block_size == 64 * 1024 * 1024),
        gives(p@, "goosefs.user.file.writetype.default"@, wt.name()) ==> r.write_type == Some(
            wt.proto().number(),
        ) && (loaded matches Ok(c) && c.write_type == Some(wt.proto().number())),
        !p@.contains_key("goosefs.user.file.writetype.default"@) ==> r.write_type is None && (
        loaded matches Ok(c) && c.write_type is None),
        failed matches Err(ConfigLoadError::IoError { path: q, source }) && q@ == path@ && source
            == cause,
{
    law_decimal_numeral_has_its_value(n, u64::MAX as int);
    crate::config::setting_laws::lemma_byte_sizes(n);
    crate::config::kinds::law_write_type_name_is_read_back(wt);
}

/// The environment outranks the file, and the file the built-in values; a file that
/// cannot be read is an error.
pub proof fn law_environment_outranks_the_file(
    content: String,
    path: String,
    cause: String,
    env: TextMap,
    p: PropertiesMap,
    n: nat,
    k: nat,
    r: std::result::Result<GoosefsConfig, ConfigLoadError>,
    failed: std::result::Result<GoosefsConfig, ConfigLoadError>,
    without: std::result::Result<GoosefsConfig, ConfigLoadError>,
    alone: GoosefsConfig,
    text: &str,
)
    requires
        text@ == content@,
        call_ensures(PropertiesMap::parse, (text,), p),
        call_ensures(
            GoosefsConfig::from_properties_auto,
            (Some((path, Ok::<String, String>(content))), &env),
            r,
        ),
        call_ensures(
            GoosefsConfig::from_properties_auto,
            (Some((path, Err::<String, String>(cause))), &env),
            failed,
        ),
        call_ensures(
            GoosefsConfig::from_properties_auto,
            (None::<(String, std::result::Result<String, String>)>, &env),
            without,
        ),
        call_ensures(GoosefsConfig::from_env, (&env,), alone),
        0 < n <= u64::MAX,
        0 < k <= u64::MAX,
    ensures
        gives(env@, "GOOSEFS_BLOCK_SIZE"@, decimal(n)) ==> (r matches Ok(c) && c.block_size == n)
            && (without matches Ok(c) && c.block_size == n) && alone.block_size == n,
        !env@.contains_key("GOOSEFS_BLOCK_SIZE"@) && gives(
            p@,
            "goosefs.user.block.size.bytes.default"@,
            decimal(k),
        ) ==> (r matches Ok(c) && c.block_size == k),
        !env@.contains_key("GOOSEFS_BLOCK_SIZE"@) && !p@.contains_key(
            "goosefs.user.block.size.bytes.default"@,
        ) ==> (r matches Ok(c) && c.block_size == 64 * 1024 * 1024),
        !env@.contains_key("GOOSEFS_BLOCK_SIZE"@) ==> (without matches Ok(c) && c.block_size == 64
            * 1024 * 1024) && alone.block_size == 64 * 1024 * 1024,
        failed matches Err(ConfigLoadError::IoError { path: q, source }) && q@ == path@ && source
            == cause,
{
    law_decimal_numeral_has_its_value(n, u64::MAX as int);
    law_decimal_numeral_has_its_value(k, u64::MAX as int);
    crate::config::setting_laws::lemma_byte_sizes(k);
}

/// The file that the environment names is looked for first, the one of the system last,
/// and the first one that exists is taken.
pub proof fn law_first_existing_file_is_taken(
    env: TextMap,
    named: Seq<char>,
    list: Vec<String>,
    exists_at: Vec<bool>,
    i: int,
    r: Option<String>,
)
    requires
        call_ensures(config_file_candidates, (&env,), list),
        list@.len() == exists_at@.len(),
        call_ensures(discover_config_file, (&list, &exists_at), r),
        0 <= i < list@.len(),
    ensures
        list@.len() > 0,
        gives(env@, "GOOSEFS_CONFIG_FILE"@, named) ==> list@[0]@ == named,
        list@.last()@ == "/etc/goosefs/goosefs-site.properties"@,
        exists_at@[i] && (forall|k: int| 0 <= k < i ==> !#[trigger] exists_at@[k]) ==> (r matches
            Some(p) && p@ == list@[i]@),
        (r is None) == (forall|k: int| 0 <= k < exists_at@.len() ==> !#[trigger] exists_at@[k]),
{
    let v = views(list@);
    assert(v.len() == list@.len());
    assert(v[0] == list@[0]@);
    assert(v.last() == list@.last()@);
    reveal_strlit("/etc/goosefs");
    reveal_strlit("/");
    reveal_strlit("goosefs-site.properties");
    reveal_strlit("/etc/goosefs/goosefs-site.properties");
    assert("/etc/goosefs"@ + "/"@ + "goosefs-site.properties"@
        =~= "/etc/goosefs/goosefs-site.properties"@);
    assert(call_ensures(discover_config_file, (&list, &exists_at), r));
    if r is None {
        assert(!exists_at@.contains(true));
        assert(!exists_at@[i]);
    }
    if exists_at@[i] && (forall|k: int| 0 <= k < i ==> !#[trigger] exists_at@[k]) {
        assert(r is Some);
        let j = choose|j: int|
            0 <= j < list@.len() && #[trigger] exists_at@[j] && r->0@ == list@[j]@ && forall|k: int|
                0 <= k < j ==> !#[trigger] exists_at@[k];
        assert(j == i);
    }
}

/// The directories that are searched: the configured one, or without it the one of the
/// installation, and then that of the user.
pub proof fn law_directories_are_searched_in_order(
    env: TextMap,
    dir: Seq<char>,
    home: Seq<char>,
    user: Seq<char>,
    list: Vec<String>,
)
    requires
        call_ensures(config_file_candidates, (&env,), list),
        dir.len() > 0 && dir.last() != '/',
        home.len() > 0 && home.last() != '/',
        user.len() > 0 && user.last() != '/',
        !env@.contains_key("GOOSEFS_CONFIG_FILE"@),
    ensures
        gives(env@, "GOOSEFS_CONF_DIR"@, dir) ==> list@[0]@ == dir + "/goosefs-site.properties"@,
        !env@.contains_key("GOOSEFS_CONF_DIR"@) && gives(env@, "GOOSEFS_HOME"@, home)
            ==> list@[0]@ == home + "/conf/goosefs-site.properties"@,
        gives(env@, "HOME"@, user) ==> list@.len() >= 2 && list@[list@.len() - 2]@ == user
            + "/.goosefs/goosefs-site.properties"@,
        !env@.contains_key("HOME"@) && gives(env@, "USERPROFILE"@, user) ==> list@.len() >= 2
            && list@[list@.len() - 2]@ == user + "/.goosefs/goosefs-site.properties"@,
{
    let v = views(list@);
    assert(v.len() == list@.len());
    assert(v[0] == list@[0]@);
    if v.len() >= 2 {
        assert(v[v.len() - 2] == list@[list@.len() - 2]@);
    }
    reveal_strlit("/");
    reveal_strlit("conf");
    reveal_strlit(".goosefs");
    reveal_strlit("goosefs-site.properties");
    reveal_strlit("/goosefs-site.properties");
    reveal_strlit("/conf/goosefs-site.properties");
    reveal_strlit("/.goosefs/goosefs-site.properties");
    assert(dir + "/"@ + "goosefs-site.properties"@ =~= dir + "/goosefs-site.properties"@);
    assert((home + "/"@ + "conf"@).last() == 'f');
    assert(home + "/"@ + "conf"@ + "/"@ + "goosefs-site.properties"@ =~= home
        + "/conf/goosefs-site.properties"@);
    assert((user + "/"@ + ".goosefs"@).last() == 's');
    assert(user + "/"@ + ".goosefs"@ + "/"@ + "goosefs-site.properties"@ =~= user
        + "/.goosefs/goosefs-site.properties"@);
}

/// What a properties file gives under a key can be read as a number, a truth value or a
/// list.
pub proof fn law_properties_are_read_by_kind(
    p: PropertiesMap,
    key: &str,
    max: u64,
    n: nat,
    text: &str,
    number: Option<u64>,
    flag: Option<bool>,
    list: Option<Vec<String>>,
    items_of: Vec<String>,
)
    requires
        call_ensures(PropertiesMap::get_parsed, (&p, key, max), number),
        call_ensures(PropertiesMap::get_bool, (&p, key), flag),
        call_ensures(PropertiesMap::get_list, (&p, key), list),
        call_ensures(parse_list, (text,), items_of),
    ensures
        gives(p@, key@, decimal(n)) && n <= max ==> number == Some(n as u64),
        gives(p@, key@, "true"@) ==> flag == Some(true),
        gives(p@, key@, "false"@) ==> flag == Some(false),
        gives(p@, key@, text@) ==> (list matches Some(l) && views(l@) == views(items_of@)),
        !p@.contains_key(key@) ==> number is None && flag is None && list is None,
{
    if n <= max {
        law_decimal_numeral_has_its_value(n, max as int);
    }
    crate::config::setting_laws::lemma_truth_values();
}

/// An authentication type that is set, as a value or by its name, is in place.
pub proof fn law_set_authentication_type_is_in_place(
    c: GoosefsConfig,
    t: AuthType,
    s: &str,
    named: std::result::Result<AuthType, String>,
    r: GoosefsConfig,
    by_name: std::result::Result<GoosefsConfig, String>,
    several: bool,
)
    requires
        call_ensures(GoosefsConfig::with_auth_type, (c, t), r),
        call_ensures(GoosefsConfig::with_auth_type_str, (c, s), by_name),
        call_ensures(AuthType::parse_name, (s,), named),
        call_ensures(GoosefsConfig::is_multi_master, (&c,), several),
    ensures
        r.auth_type == t,
        (GoosefsConfig { auth_type: c.auth_type, ..r }) == c,
        named matches Ok(u) ==> (by_name matches Ok(d) && d.auth_type == u && (GoosefsConfig {
            auth_type: c.auth_type,
            ..d
        }) == c),
        named is Err ==> by_name is Err,
        several == (c.master_addrs@.len() > 1),
{
}

/// The endpoint of a worker is its host and its port over HTTP.
pub proof fn law_worker_is_reached_over_http(
    c: GoosefsConfig,
    host: &str,
    port: i32,
    r: String,
)
    requires
        call_ensures(GoosefsConfig::worker_endpoint, (&c, host, port), r),
        port >= 0,
    ensures
        r@ == "http://"@ + host@ + seq![':'] + decimal(port as nat),
{
    reveal_strlit(":");
    assert(":"@ =~= seq![':']);
}

/// A property is found under its key, and a failed load is told with its cause.
pub proof fn law_property_is_found_under_its_key(
    p: PropertiesMap,
    key: &str,
    r: Option<&str>,
    e: ConfigLoadError,
    s: String,
)
    requires
        call_ensures(PropertiesMap::get, (&p, key), r),
        call_ensures(ConfigLoadError::to_string, (&e,), s),
    ensures
        (r is Some) == p@.contains_key(key@),
        r matches Some(v) ==> v@ == p@[key@],
        e matches ConfigLoadError::IoError { path, source } ==> s@
            == "failed to read config file '"@ + path@ + "': "@ + source@,
        e matches ConfigLoadError::ParseError { message } ==> s@ == "failed to parse YAML config: "@
            + message@,
{
}

} // verus!
