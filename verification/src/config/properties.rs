//! Properties files: lines of `key=value`.

use vstd::prelude::*;
use vstd::string::*;

use crate::config::keys::PROP_CONFIG_MANAGER_RPC_ADDRESSES;
use crate::config::keys::PROP_CONFIG_RPC_PORT;
use crate::config::keys::PROP_MASTER_HOSTNAME;
use crate::config::keys::PROP_MASTER_RPC_ADDRESSES;
use crate::config::keys::PROP_MASTER_RPC_PORT;
use crate::config::keys::PROP_METRICS_PUSHGATEWAY_ENABLED;
use crate::config::keys::PROP_METRICS_PUSHGATEWAY_ENDPOINT;
use crate::config::keys::PROP_METRICS_PUSHGATEWAY_INSTANCE;
use crate::config::keys::PROP_METRICS_PUSHGATEWAY_JOB;
use crate::config::keys::PROP_METRICS_PUSHGATEWAY_PUSH_INTERVAL;
use crate::config::keys::PROP_SECURITY_AUTHENTICATION_TYPE;
use crate::config::keys::PROP_SECURITY_AUTHORIZATION_PERMISSION_ENABLED;
use crate::config::keys::PROP_SECURITY_LOGIN_IMPERSONATION_USERNAME;
use crate::config::keys::PROP_SECURITY_LOGIN_USERNAME;
use crate::config::keys::PROP_USER_APP_ID;
use crate::config::keys::PROP_USER_BLOCK_SIZE_BYTES_DEFAULT;
use crate::config::keys::PROP_USER_CLIENT_CACHE_ASYNC_WRITE_ENABLED;
use crate::config::keys::PROP_USER_CLIENT_CACHE_ASYNC_WRITE_THREADS;
use crate::config::keys::PROP_USER_CLIENT_CACHE_DIRS;
use crate::config::keys::PROP_USER_CLIENT_CACHE_ENABLED;
use crate::config::keys::PROP_USER_CLIENT_CACHE_EVICTION_POLICY;
use crate::config::keys::PROP_USER_CLIENT_CACHE_PAGE_SIZE;
use crate::config::keys::PROP_USER_CLIENT_CACHE_QUOTA_ENABLED;
use crate::config::keys::PROP_USER_CLIENT_CACHE_SEQUENTIAL_READ_ENABLED;
use crate::config::keys::PROP_USER_CLIENT_CACHE_SIZE;
use crate::config::keys::PROP_USER_CLIENT_CACHE_TTL_SECONDS;
use crate::config::keys::PROP_USER_CLIENT_TRANSPARENT_ACCELERATION_COSRANGER_ENABLED;
use crate::config::keys::PROP_USER_CLIENT_TRANSPARENT_ACCELERATION_ENABLED;
use crate::config::keys::PROP_USER_FILE_WRITETYPE_DEFAULT;
use crate::config::keys::PROP_USER_METRICS_COLLECTION_ENABLED;
use crate::config::keys::PROP_USER_METRICS_HEARTBEAT_INTERVAL;
use crate::config::keys::PROP_USER_NETWORK_DATA_TRANSFER_CHUNK_SIZE;
use crate::config::settings::GoosefsConfig;
use crate::config::settings::MIN_METRICS_HEARTBEAT_INTERVAL_MS;
use crate::config::values::TextMap;
use crate::config::values::any_case_flag_or;
use crate::config::values::auth_type_or;
use crate::config::values::bool_spelled;
use crate::config::values::evictor_or;
use crate::config::values::list_or;
use crate::config::values::listed;
use crate::config::values::millis_or;
use crate::config::values::number_or;
use crate::config::values::opt_text_or;
use crate::config::values::opt_view;
use crate::config::values::overlay_any_case_flag;
use crate::config::values::overlay_auth_type;
use crate::config::values::overlay_evictor;
use crate::config::values::overlay_list;
use crate::config::values::overlay_millis;
use crate::config::values::overlay_number;
use crate::config::values::overlay_opt_text;
use crate::config::values::overlay_size;
use crate::config::values::overlay_text;
use crate::config::values::overlay_write_type;
use crate::config::values::owned_view;
use crate::config::values::parse_bool;
use crate::config::values::parse_list;
use crate::config::values::size_or;
use crate::config::values::text_at;
use crate::config::values::text_or;
use crate::config::values::write_type_or;
use crate::text::chars_of;
use crate::text::decimal;
use crate::text::first_from;
use crate::text::lower;
use crate::text::lowered;
use crate::text::parse_unsigned;
use crate::text::pieces;
use crate::text::push_decimal;
use crate::text::split;
use crate::text::trim;
use crate::text::trimmed;
use crate::text::unsigned_value;
use crate::text::views;

verus! {

/// Why a configuration could not be loaded.
#[derive(Debug)]
pub enum ConfigLoadError {
    /// The file could not be read.
    IoError {
        /// The path of the file.
        path: String,
        /// The cause in words.
        source: String,
    },
    /// The content could not be parsed.
    ParseError {
        /// What is wrong.
        message: String,
    },
}

impl ConfigLoadError {
    /// The error in words.
    pub open spec fn text(self) -> Seq<char> {
        match self {
            ConfigLoadError::IoError { path, source } => "failed to read config file '"@ + path@
                + "': "@ + source@,
            ConfigLoadError::ParseError { message } => "failed to parse YAML config: "@ + message@,
        }
    }

    /// The error in words.
    pub fn to_string(&self) -> (r: String)
        ensures
            r@ == self.text(),
    {
        match self {
            ConfigLoadError::IoError { path, source } => {
                let mut out = "failed to read config file '".to_owned();
                out.append(path.as_str());
                out.append("': ");
                out.append(source.as_str());
                out
            },
            ConfigLoadError::ParseError { message } => {
                let mut out = "failed to parse YAML config: ".to_owned();
                out.append(message.as_str());
                out
            },
        }
    }
}

/// The properties of a file.
pub struct PropertiesMap {
    /// The values by key.
    pub props: TextMap,
}

/// The position of the first `=` or `:`, or the length.
pub open spec fn separator(s: Seq<char>) -> int {
    let e = first_from(s, '=', 0);
    let c = first_from(s, ':', 0);
    if e <= c {
        e
    } else {
        c
    }
}

/// What a line says: a key and a value, unless the line is blank, a comment,
/// or without a separator or a key.
pub open spec fn line_entry(line: Seq<char>) -> Option<(Seq<char>, Seq<char>)> {
    let t = trimmed(line);
    if t.len() == 0 || t[0] == '#' || t[0] == '!' || separator(t) >= t.len() {
        None
    } else {
        let key = trimmed(t.take(separator(t)));
        if key.len() == 0 {
            None
        } else {
            Some((key, trimmed(t.skip(separator(t) + 1))))
        }
    }
}

/// What the lines say; a later line replaces an earlier one with its key.
pub open spec fn lines_map(lines: Seq<Seq<char>>) -> Map<Seq<char>, Seq<char>>
    decreases lines.len(),
{
    if lines.len() == 0 {
        Map::empty()
    } else {
        let before = lines_map(lines.drop_last());
        match line_entry(lines.last()) {
            Some((k, v)) => before.insert(k, v),
            None => before,
        }
    }
}

/// The properties that the text of a file gives.
pub open spec fn properties(content: Seq<char>) -> Map<Seq<char>, Seq<char>> {
    lines_map(pieces(content, '\n'))
}

impl View for PropertiesMap {
    type V = Map<Seq<char>, Seq<char>>;

    open spec fn view(&self) -> Map<Seq<char>, Seq<char>> {
        self.props@
    }
}

/// What a line says.
fn parse_line(line: &str) -> (r: Option<(String, String)>)
    ensures
        match r {
            Some((k, v)) => line_entry(line@) == Some((k@, v@)),
            None => line_entry(line@) is None,
        },
{
    let t = trim(line);
    let v = chars_of(t);
    if v.len() == 0 || v[0] == '#' || v[0] == '!' {
        return None;
    }
    let n: usize = v.len();
    let e: usize = crate::text::find_char_from(&v, '=', 0);
    let c: usize = crate::text::find_char_from(&v, ':', 0);
    let sep: usize = if e <= c {
        e
    } else {
        c
    };
    if sep >= n {
        return None;
    }
    let key = trim(t.substring_char(0, sep));
    proof {
        assert(t@.subrange(0, sep as int) =~= t@.take(sep as int));
        assert(t@.subrange(sep + 1, n as int) =~= t@.skip(sep + 1));
    }
    if key.is_empty() {
        return None;
    }
    let value = trim(t.substring_char(sep + 1, n));
    Some((key.to_owned(), value.to_owned()))
}

impl PropertiesMap {
    /// Parses the text of a properties file.
    ///
    /// Lines that start with `#` or `!` are comments and blank lines are
    /// ignored; key and value are separated by the first `=` or `:`, and white
    /// space around them is dropped.
    pub fn parse(content: &str) -> (r: Self)
        ensures
            r@ == properties(content@),
    {
        let lines = split(content, '\n');
        let ghost whole = pieces(content@, '\n');
        let mut props = TextMap::new();
        let mut i: usize = 0;
        while i < lines.len()
            invariant
                i <= lines@.len(),
                views(lines@) == whole,
                props@ == lines_map(whole.take(i as int)),
            decreases lines@.len() - i,
        {
            proof {
                assert(whole[i as int] == lines@[i as int]@);
                assert(whole.take(i + 1).drop_last() =~= whole.take(i as int));
            }
            if let Some((k, v)) = parse_line(lines[i].as_str()) {
                props.insert(k, v);
            }
            i = i + 1;
        }
        proof {
            assert(whole.take(whole.len() as int) =~= whole);
        }
        PropertiesMap { props }
    }

    /// The value under `key`.
    pub fn get(&self, key: &str) -> (r: Option<&str>)
        ensures
            opt_view(r) == text_at(self@, key@),
    {
        self.props.get(key)
    }

    /// The number of at most `max` under `key`.
    pub fn get_parsed(&self, key: &str, max: u64) -> (r: Option<u64>)
        ensures
            match r {
                Some(n) => text_at(self@, key@) matches Some(s) && unsigned_value(s, max as int)
                    == Ok::<int, crate::text::NumeralError>(n as int) && n <= max,
                None => text_at(self@, key@) matches Some(s) ==> unsigned_value(
                    s,
                    max as int,
                ) is Err,
            },
    {
        match self.get(key) {
            Some(s) => match parse_unsigned(s, max) {
                Ok(n) => Some(n),
                Err(_) => None,
            },
            None => None,
        }
    }

    /// The truth value under `key`, in any case of its letters.
    pub fn get_bool(&self, key: &str) -> (r: Option<bool>)
        ensures
            r == (match text_at(self@, key@) {
                Some(s) => bool_spelled(lowered(s)),
                None => None,
            }),
    {
        match self.get(key) {
            Some(s) => parse_bool(lower(s).as_str()),
            None => None,
        }
    }

    /// The items of the comma-separated list under `key`.
    pub fn get_list(&self, key: &str) -> (r: Option<Vec<String>>)
        ensures
            match r {
                Some(l) => text_at(self@, key@) matches Some(s) && views(l@) == listed(s),
                None => text_at(self@, key@) is None,
            },
    {
        match self.get(key) {
            Some(s) => Some(parse_list(s)),
            None => None,
        }
    }
}

/// The master address of the properties: the first of the listed addresses,
/// else host and port, else `d`.
pub open spec fn property_master(m: Map<Seq<char>, Seq<char>>, d: Seq<char>) -> Seq<char> {
    match text_at(m, PROP_MASTER_RPC_ADDRESSES@) {
        Some(s) => if listed(s).len() > 0 {
            listed(s)[0]
        } else {
            d
        },
        None => match text_at(m, PROP_MASTER_HOSTNAME@) {
            Some(host) => host + ":"@ + decimal(
                number_or(text_at(m, PROP_MASTER_RPC_PORT@), 0, u16::MAX as int, 9200) as nat,
            ),
            None => d,
        },
    }
}

/// The list of masters of the properties, if they list several, else `d`.
pub open spec fn property_masters(
    m: Map<Seq<char>, Seq<char>>,
    d: Seq<Seq<char>>,
) -> Seq<Seq<char>> {
    match text_at(m, PROP_MASTER_RPC_ADDRESSES@) {
        Some(s) => if listed(s).len() > 1 {
            listed(s)
        } else {
            d
        },
        None => d,
    }
}

impl GoosefsConfig {
    /// `r` is `self` with the settings of the properties `m` on top.
    pub open spec fn overlaid_by_properties(
        self,
        m: Map<Seq<char>, Seq<char>>,
        r: GoosefsConfig,
    ) -> bool {
        &&& r.master_addr@ == property_master(m, self.master_addr@)
        &&& views(r.master_addrs@) == property_masters(m, views(self.master_addrs@))
        &&& views(r.config_manager_rpc_addresses@) == list_or(
            text_at(m, PROP_CONFIG_MANAGER_RPC_ADDRESSES@),
            views(self.config_manager_rpc_addresses@),
        )
        &&& r.config_rpc_port == number_or(
            text_at(m, PROP_CONFIG_RPC_PORT@),
            0,
            u16::MAX as int,
            self.config_rpc_port as int,
        )
        &&& r.auth_type == auth_type_or(
            text_at(m, PROP_SECURITY_AUTHENTICATION_TYPE@),
            self.auth_type,
        )
        &&& r.authorization_permission_enabled == any_case_flag_or(
            text_at(m, PROP_SECURITY_AUTHORIZATION_PERMISSION_ENABLED@),
            self.authorization_permission_enabled,
        )
        &&& r.login_impersonation_username@ == text_or(
            text_at(m, PROP_SECURITY_LOGIN_IMPERSONATION_USERNAME@),
            self.login_impersonation_username@,
        )
        &&& r.auth_username@ == text_or(
            text_at(m, PROP_SECURITY_LOGIN_USERNAME@),
            self.auth_username@,
        )
        &&& r.transparent_acceleration_enabled == any_case_flag_or(
            text_at(m, PROP_USER_CLIENT_TRANSPARENT_ACCELERATION_ENABLED@),
            self.transparent_acceleration_enabled,
        )
        &&& r.transparent_acceleration_cosranger_enabled == any_case_flag_or(
            text_at(m, PROP_USER_CLIENT_TRANSPARENT_ACCELERATION_COSRANGER_ENABLED@),
            self.transparent_acceleration_cosranger_enabled,
        )
        &&& r.write_type == write_type_or(
            text_at(m, PROP_USER_FILE_WRITETYPE_DEFAULT@),
            self.write_type,
        )
        &&& r.block_size == size_or(
            text_at(m, PROP_USER_BLOCK_SIZE_BYTES_DEFAULT@),
            1,
            self.block_size as int,
        )
        &&& r.chunk_size == size_or(
            text_at(m, PROP_USER_NETWORK_DATA_TRANSFER_CHUNK_SIZE@),
            1,
            self.chunk_size as int,
        )
        &&& r.metrics_enabled == any_case_flag_or(
            text_at(m, PROP_USER_METRICS_COLLECTION_ENABLED@),
            self.metrics_enabled,
        )
        &&& r.metrics_heartbeat_interval == millis_or(
            text_at(m, PROP_USER_METRICS_HEARTBEAT_INTERVAL@),
            MIN_METRICS_HEARTBEAT_INTERVAL_MS as int,
            self.metrics_heartbeat_interval,
        )
        &&& owned_view(r.app_id) == opt_text_or(text_at(m, PROP_USER_APP_ID@), self.app_id)
        &&& r.pushgateway_enabled == any_case_flag_or(
            text_at(m, PROP_METRICS_PUSHGATEWAY_ENABLED@),
            self.pushgateway_enabled,
        )
        &&& r.pushgateway_endpoint@ == text_or(
            text_at(m, PROP_METRICS_PUSHGATEWAY_ENDPOINT@),
            self.pushgateway_endpoint@,
        )
        &&& r.pushgateway_push_interval == millis_or(
            text_at(m, PROP_METRICS_PUSHGATEWAY_PUSH_INTERVAL@),
            MIN_METRICS_HEARTBEAT_INTERVAL_MS as int,
            self.pushgateway_push_interval,
        )
        &&& r.pushgateway_job@ == text_or(
            text_at(m, PROP_METRICS_PUSHGATEWAY_JOB@),
            self.pushgateway_job@,
        )
        &&& owned_view(r.pushgateway_instance) == opt_text_or(
            text_at(m, PROP_METRICS_PUSHGATEWAY_INSTANCE@),
            self.pushgateway_instance,
        )
        &&& r.client_cache_enabled == any_case_flag_or(
            text_at(m, PROP_USER_CLIENT_CACHE_ENABLED@),
            self.client_cache_enabled,
        )
        &&& r.client_cache_page_size == size_or(
            text_at(m, PROP_USER_CLIENT_CACHE_PAGE_SIZE@),
            1,
            self.client_cache_page_size as int,
        )
        &&& r.client_cache_size == size_or(
            text_at(m, PROP_USER_CLIENT_CACHE_SIZE@),
            0,
            self.client_cache_size as int,
        )
        &&& views(r.client_cache_dirs@) == list_or(
            text_at(m, PROP_USER_CLIENT_CACHE_DIRS@),
            views(self.client_cache_dirs@),
        )
        &&& r.client_cache_evictor == evictor_or(
            text_at(m, PROP_USER_CLIENT_CACHE_EVICTION_POLICY@),
            self.client_cache_evictor,
        )
        &&& r.client_cache_async_write_enabled == any_case_flag_or(
            text_at(m, PROP_USER_CLIENT_CACHE_ASYNC_WRITE_ENABLED@),
            self.client_cache_async_write_enabled,
        )
        &&& r.client_cache_async_write_threads == number_or(
            text_at(m, PROP_USER_CLIENT_CACHE_ASYNC_WRITE_THREADS@),
            1,
            usize::MAX as int,
            self.client_cache_async_write_threads as int,
        )
        &&& r.client_cache_quota_enabled == any_case_flag_or(
            text_at(m, PROP_USER_CLIENT_CACHE_QUOTA_ENABLED@),
            self.client_cache_quota_enabled,
        )
        &&& r.client_cache_ttl_secs == number_or(
            text_at(m, PROP_USER_CLIENT_CACHE_TTL_SECONDS@),
            0,
            u64::MAX as int,
            self.client_cache_ttl_secs as int,
        )
        &&& r.client_cache_sequential_read_enabled == any_case_flag_or(
            text_at(m, PROP_USER_CLIENT_CACHE_SEQUENTIAL_READ_ENABLED@),
            self.client_cache_sequential_read_enabled,
        )
        &&& r == (GoosefsConfig {
            master_addr: r.master_addr,
            master_addrs: r.master_addrs,
            config_manager_rpc_addresses: r.config_manager_rpc_addresses,
            config_rpc_port: r.config_rpc_port,
            auth_type: r.auth_type,
            authorization_permission_enabled: r.authorization_permission_enabled,
            login_impersonation_username: r.login_impersonation_username,
            auth_username: r.auth_username,
            transparent_acceleration_enabled: r.transparent_acceleration_enabled,
            transparent_acceleration_cosranger_enabled: r.transparent_acceleration_cosranger_enabled,
            write_type: r.write_type,
            block_size: r.block_size,
            chunk_size: r.chunk_size,
            metrics_enabled: r.metrics_enabled,
            metrics_heartbeat_interval: r.metrics_heartbeat_interval,
            app_id: r.app_id,
            pushgateway_enabled: r.pushgateway_enabled,
            pushgateway_endpoint: r.pushgateway_endpoint,
            pushgateway_push_interval: r.pushgateway_push_interval,
            pushgateway_job: r.pushgateway_job,
            pushgateway_instance: r.pushgateway_instance,
            client_cache_enabled: r.client_cache_enabled,
            client_cache_page_size: r.client_cache_page_size,
            client_cache_size: r.client_cache_size,
            client_cache_dirs: r.client_cache_dirs,
            client_cache_evictor: r.client_cache_evictor,
            client_cache_async_write_enabled: r.client_cache_async_write_enabled,
            client_cache_async_write_threads: r.client_cache_async_write_threads,
            client_cache_quota_enabled: r.client_cache_quota_enabled,
            client_cache_ttl_secs: r.client_cache_ttl_secs,
            client_cache_sequential_read_enabled: r.client_cache_sequential_read_enabled,
            ..self
        })
    }
}

impl PropertiesMap {
    /// The masters of the properties, else those so far.
    fn master_addresses(&self, addr: String, addrs: Vec<String>) -> (r: (String, Vec<String>))
        ensures
            r.0@ == property_master(self@, addr@),
            views(r.1@) == property_masters(self@, views(addrs@)),
    {
        match self.get_list(PROP_MASTER_RPC_ADDRESSES) {
            Some(list) => {
                proof {
                    assert(views(list@).len() == list@.len());
                }
                if list.len() > 1 {
                    (list[0].clone(), list)
                } else if list.len() == 1 {
                    (list[0].clone(), addrs)
                } else {
                    (addr, addrs)
                }
            },
            None => match self.get(PROP_MASTER_HOSTNAME) {
                Some(host) => {
                    let port: u64 = overlay_number(
                        &self.props,
                        PROP_MASTER_RPC_PORT,
                        0,
                        u16::MAX as u64,
                        9200,
                    );
                    let mut out = host.to_owned();
                    out.append(":");
                    push_decimal(&mut out, port as u128);
                    (out, addrs)
                },
                None => (addr, addrs),
            },
        }
    }

    /// Puts the properties on top of `base`: a property that is given and
    /// reads as a value of its setting replaces that setting.
    #[verifier::spinoff_prover]
    #[verifier::rlimit(30)]
    pub fn into_goosefs_config(self, base: GoosefsConfig) -> (r: GoosefsConfig)
        ensures
            base.overlaid_by_properties(self@, r),
    {
        let (master_addr, master_addrs) = self.master_addresses(
            base.master_addr,
            base.master_addrs,
        );
        let m = &self.props;
        let config_manager_rpc_addresses = overlay_list(
            base.config_manager_rpc_addresses,
            m,
            PROP_CONFIG_MANAGER_RPC_ADDRESSES,
        );
        let config_rpc_port: u16 = overlay_number(
            m,
            PROP_CONFIG_RPC_PORT,
            0,
            u16::MAX as u64,
            base.config_rpc_port as u64,
        ) as u16;
        let auth_type = overlay_auth_type(base.auth_type, m, PROP_SECURITY_AUTHENTICATION_TYPE);
        let authorization_permission_enabled = overlay_any_case_flag(
            base.authorization_permission_enabled,
            m,
            PROP_SECURITY_AUTHORIZATION_PERMISSION_ENABLED,
        );
        let login_impersonation_username = overlay_text(
            base.login_impersonation_username,
            m,
            PROP_SECURITY_LOGIN_IMPERSONATION_USERNAME,
        );
        let auth_username = overlay_text(base.auth_username, m, PROP_SECURITY_LOGIN_USERNAME);
        let transparent_acceleration_enabled = overlay_any_case_flag(
            base.transparent_acceleration_enabled,
            m,
            PROP_USER_CLIENT_TRANSPARENT_ACCELERATION_ENABLED,
        );
        let transparent_acceleration_cosranger_enabled = overlay_any_case_flag(
            base.transparent_acceleration_cosranger_enabled,
            m,
            PROP_USER_CLIENT_TRANSPARENT_ACCELERATION_COSRANGER_ENABLED,
        );
        let write_type = overlay_write_type(base.write_type, m, PROP_USER_FILE_WRITETYPE_DEFAULT);
        let block_size: u64 = overlay_size(
            m,
            PROP_USER_BLOCK_SIZE_BYTES_DEFAULT,
            1,
            base.block_size,
        );
        let chunk_size: u64 = overlay_size(
            m,
            PROP_USER_NETWORK_DATA_TRANSFER_CHUNK_SIZE,
            1,
            base.chunk_size,
        );
        let metrics_enabled = overlay_any_case_flag(
            base.metrics_enabled,
            m,
            PROP_USER_METRICS_COLLECTION_ENABLED,
        );
        let metrics_heartbeat_interval = overlay_millis(
            m,
            PROP_USER_METRICS_HEARTBEAT_INTERVAL,
            MIN_METRICS_HEARTBEAT_INTERVAL_MS,
            base.metrics_heartbeat_interval,
        );
        let app_id = overlay_opt_text(base.app_id, m, PROP_USER_APP_ID);
        let pushgateway_enabled = overlay_any_case_flag(
            base.pushgateway_enabled,
            m,
            PROP_METRICS_PUSHGATEWAY_ENABLED,
        );
        let pushgateway_endpoint = overlay_text(
            base.pushgateway_endpoint,
            m,
            PROP_METRICS_PUSHGATEWAY_ENDPOINT,
        );
        let pushgateway_push_interval = overlay_millis(
            m,
            PROP_METRICS_PUSHGATEWAY_PUSH_INTERVAL,
            MIN_METRICS_HEARTBEAT_INTERVAL_MS,
            base.pushgateway_push_interval,
        );
        let pushgateway_job = overlay_text(base.pushgateway_job, m, PROP_METRICS_PUSHGATEWAY_JOB);
        let pushgateway_instance = overlay_opt_text(
            base.pushgateway_instance,
            m,
            PROP_METRICS_PUSHGATEWAY_INSTANCE,
        );
        let client_cache_enabled = overlay_any_case_flag(
            base.client_cache_enabled,
            m,
            PROP_USER_CLIENT_CACHE_ENABLED,
        );
        let client_cache_page_size: u64 = overlay_size(
            m,
            PROP_USER_CLIENT_CACHE_PAGE_SIZE,
            1,
            base.client_cache_page_size,
        );
        let client_cache_size: u64 = overlay_size(
            m,
            PROP_USER_CLIENT_CACHE_SIZE,
            0,
            base.client_cache_size,
        );
        let client_cache_dirs = overlay_list(
            base.client_cache_dirs,
            m,
            PROP_USER_CLIENT_CACHE_DIRS,
        );
        let client_cache_evictor = overlay_evictor(
            base.client_cache_evictor,
            m,
            PROP_USER_CLIENT_CACHE_EVICTION_POLICY,
        );
        let client_cache_async_write_enabled = overlay_any_case_flag(
            base.client_cache_async_write_enabled,
            m,
            PROP_USER_CLIENT_CACHE_ASYNC_WRITE_ENABLED,
        );
        let client_cache_async_write_threads: usize = overlay_number(
            m,
            PROP_USER_CLIENT_CACHE_ASYNC_WRITE_THREADS,
            1,
            usize::MAX as u64,
            base.client_cache_async_write_threads as u64,
        ) as usize;
        let client_cache_quota_enabled = overlay_any_case_flag(
            base.client_cache_quota_enabled,
            m,
            PROP_USER_CLIENT_CACHE_QUOTA_ENABLED,
        );
        let client_cache_ttl_secs: u64 = overlay_number(
            m,
            PROP_USER_CLIENT_CACHE_TTL_SECONDS,
            0,
            u64::MAX,
            base.client_cache_ttl_secs,
        );
        let client_cache_sequential_read_enabled = overlay_any_case_flag(
            base.client_cache_sequential_read_enabled,
            m,
            PROP_USER_CLIENT_CACHE_SEQUENTIAL_READ_ENABLED,
        );
        GoosefsConfig {
            master_addr,
            master_addrs,
            config_manager_rpc_addresses,
            config_rpc_port,
            auth_type,
            authorization_permission_enabled,
            login_impersonation_username,
            auth_username,
            transparent_acceleration_enabled,
            transparent_acceleration_cosranger_enabled,
            write_type,
            block_size,
            chunk_size,
            metrics_enabled,
            metrics_heartbeat_interval,
            app_id,
            pushgateway_enabled,
            pushgateway_endpoint,
            pushgateway_push_interval,
            pushgateway_job,
            pushgateway_instance,
            client_cache_enabled,
            client_cache_page_size,
            client_cache_size,
            client_cache_dirs,
            client_cache_evictor,
            client_cache_async_write_enabled,
            client_cache_async_write_threads,
            client_cache_quota_enabled,
            client_cache_ttl_secs,
            client_cache_sequential_read_enabled,
            ..base
        }
    }
}

} // verus!
