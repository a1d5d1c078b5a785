use vstd::prelude::*;
use vstd::string::*;

use crate::address::{lookup_resolves, resolve_outcome, AddressError, AddressLookup, SocketAddress};
use crate::auth::{Auth, SensitiveAuth};
use crate::network::{
    bitcoin_magic_from_str, bitcoin_network_magic, daemon_p2p_port_spec, daemon_rpc_port_spec,
    daemon_subdir_spec, db_subdir_spec, electrum_port_spec, hex_magic_bytes, is_hex_magic,
    monitoring_port_spec, network_magic_bytes, ElectrsNetwork, Magic, Network,
};
use crate::paths::{join_path, joined};

verus! {

/// What the parser of arguments, environment variables and configuration
/// files yields, with what looking up each given address gave so far.
pub struct RawConfig {
    pub network: ElectrsNetwork,
    pub db_dir: String,
    pub db_log_dir: Option<String>,
    pub db_parallelism: u8,
    pub daemon_dir: String,
    pub auth: Option<String>,
    pub cookie_file: Option<String>,
    pub daemon_rpc_addr: Option<AddressLookup>,
    pub daemon_p2p_addr: Option<AddressLookup>,
    pub electrum_rpc_addr: Option<AddressLookup>,
    pub monitoring_addr: Option<AddressLookup>,
    pub wait_duration_secs: u64,
    pub jsonrpc_timeout_secs: u64,
    pub index_batch_size: usize,
    pub index_lookup_limit: usize,
    pub reindex_last_blocks: usize,
    pub auto_reindex: bool,
    pub ignore_mempool: bool,
    pub sync_once: bool,
    pub skip_block_download_wait: bool,
    pub disable_electrum_rpc: bool,
    pub server_banner: String,
    pub signet_magic: Option<String>,
    pub log_filters: Option<String>,
    pub timestamp: bool,
    pub verbose: u8,
    pub version: bool,
}

/// Parsed and post-processed configuration.
pub struct Config {
    pub network: ElectrsNetwork,
    pub db_path: String,
    pub db_log_dir: Option<String>,
    pub db_parallelism: u8,
    pub daemon_auth: SensitiveAuth,
    pub daemon_rpc_addr: SocketAddress,
    pub daemon_p2p_addr: SocketAddress,
    pub electrum_rpc_addr: SocketAddress,
    pub monitoring_addr: SocketAddress,
    pub wait_duration: std::time::Duration,
    pub jsonrpc_timeout: std::time::Duration,
    pub index_batch_size: usize,
    pub index_lookup_limit: Option<usize>,
    pub reindex_last_blocks: usize,
    pub auto_reindex: bool,
    pub ignore_mempool: bool,
    pub sync_once: bool,
    pub skip_block_download_wait: bool,
    pub disable_electrum_rpc: bool,
    pub server_banner: String,
    pub signet_magic: Magic,
}

/// Why a configuration is refused.
pub enum ConfigError {
    /// The signet magic is not eight hexadecimal digits.
    InvalidSignetMagic { magic: String, error: bitcoin::p2p::ParseMagicError },
    /// A signet magic was given for another network.
    SignetMagicNotOnSignet,
    /// An address could not be resolved.
    Address(AddressError),
    /// A monitoring address was given to a build without metrics.
    MonitoringWithoutMetrics,
    /// Deprecated options were used: `timestamp`, or a verbosity level.
    DeprecatedOptions { timestamp: bool, verbose: bool },
    /// The `auth` option holds no colon between user and password.
    AuthWithoutColon,
    /// Both `auth` and `cookie_file` were given.
    AmbiguousAuth,
    /// The JSON-RPC timeout is not longer than the wait duration.
    TimeoutNotAboveWait { jsonrpc_timeout_secs: u64, wait_duration_secs: u64 },
}

/// What to do once the configuration is accepted.
pub enum Startup {
    /// Print the version and stop.
    ShowVersion,
    /// Run with this configuration and these log filters.
    Run { config: Config, log_filters: Option<String> },
}

/// The next thing to do with a raw configuration: look one of its addresses
/// up and hand the configuration back, or act on the verdict.
pub enum ConfigStep {
    LookUp { raw: RawConfig, field: AddressField },
    Done(Result<Startup, ConfigError>),
}

/// What `std::time::Duration::from_secs` gives for a number of seconds.
pub uninterp spec fn duration_of_secs(secs: u64) -> std::time::Duration;

/// What `std::time::Duration::as_secs` gives: the whole seconds of a duration.
pub uninterp spec fn duration_whole_secs(d: std::time::Duration) -> u64;

/// What `std::time::Duration::subsec_nanos` gives: the part of a duration
/// below a second, in nanoseconds.
pub uninterp spec fn duration_subsec_nanos(d: std::time::Duration) -> u32;

/// Calls `std::time::Duration::from_secs`, which depends on its argument
/// alone and, as its documentation shows, makes a duration of exactly that
/// many whole seconds and no fraction of a second.
#[verifier::external_body]
fn duration_from_secs(secs: u64) -> (d: std::time::Duration)
    ensures
        d == duration_of_secs(secs),
        duration_whole_secs(d) == secs,
        duration_subsec_nanos(d) == 0,
{
    std::time::Duration::from_secs(secs)
}

/// The magic bytes used when no signet magic is given: DigiByte's own, or
/// those of the Bitcoin network.
pub open spec fn default_magic_bytes(n: ElectrsNetwork) -> Seq<u8> {
    match n {
        ElectrsNetwork::DigiByte => seq![0xfau8, 0xc3u8, 0xb6u8, 0xdau8],
        ElectrsNetwork::Bitcoin(b) => network_magic_bytes(b),
    }
}

/// Whether the magic bytes are chosen without error.
pub open spec fn magic_passes(network: ElectrsNetwork, signet_magic: Option<String>) -> bool {
    match signet_magic {
        Some(m) => network == ElectrsNetwork::Bitcoin(Network::Signet) && is_hex_magic(m@),
        None => true,
    }
}

/// How the magic bytes are chosen: a signet magic, accepted on signet only,
/// must be eight hexadecimal digits and gives their bytes; without one each
/// network has its default.
pub open spec fn magic_outcome(
    network: ElectrsNetwork,
    signet_magic: Option<String>,
    r: Result<Magic, ConfigError>,
) -> bool {
    match signet_magic {
        Some(m) => if network == ElectrsNetwork::Bitcoin(Network::Signet) {
            if is_hex_magic(m@) {
                r matches Ok(x) && x.0@ == hex_magic_bytes(m@)
            } else {
                r matches Err(ConfigError::InvalidSignetMagic { magic, .. }) && magic == m
            }
        } else {
            r matches Err(ConfigError::SignetMagicNotOnSignet)
        },
        None => r matches Ok(x) && x.0@ == default_magic_bytes(network),
    }
}

fn select_magic(network: ElectrsNetwork, signet_magic: Option<String>) -> (r: Result<
    Magic,
    ConfigError,
>)
    ensures
        magic_outcome(network, signet_magic, r),
{
    match signet_magic {
        Some(magic) => {
            if network == ElectrsNetwork::Bitcoin(Network::Signet) {
                match bitcoin_magic_from_str(magic.as_str()) {
                    Ok(m) => Ok(m),
                    Err(error) => Err(ConfigError::InvalidSignetMagic { magic, error }),
                }
            } else {
                Err(ConfigError::SignetMagicNotOnSignet)
            }
        },
        None => match network {
            ElectrsNetwork::DigiByte => {
                let m = Magic([0xfa, 0xc3, 0xb6, 0xda]);
                assert(m.0@ =~= seq![0xfau8, 0xc3u8, 0xb6u8, 0xdau8]);
                Ok(m)
            },
            ElectrsNetwork::Bitcoin(n) => Ok(bitcoin_network_magic(n)),
        },
    }
}

/// The address used for an interface: the given one, resolved with what its
/// lookup gave, or the local IPv4 address 127.0.0.1 with the network's default
/// port.
pub open spec fn address_outcome(lookup: Option<AddressLookup>, port: u16) -> Result<
    SocketAddress,
    AddressError,
> {
    match lookup {
        None => Ok(SocketAddress::V4 { ip: 0x7f00_0001, port }),
        Some(l) => resolve_outcome(l.addr, l.outcome->Some_0),
    }
}

/// Whether an address is given and still waits to be looked up.
pub open spec fn awaits_lookup(lookup: Option<AddressLookup>) -> bool {
    lookup matches Some(l) && l.outcome is None
}

fn awaits(lookup: &Option<AddressLookup>) -> (r: bool)
    ensures
        r == awaits_lookup(*lookup),
{
    match lookup {
        Some(l) => l.outcome.is_none(),
        None => false,
    }
}

fn address_resolves(lookup: &Option<AddressLookup>, port: u16) -> (r: bool)
    requires
        !awaits_lookup(*lookup),
    ensures
        r == (address_outcome(*lookup, port) is Ok),
{
    match lookup {
        None => true,
        Some(l) => match &l.outcome {
            Some(outcome) => lookup_resolves(outcome, &l.addr),
            None => false,
        },
    }
}

fn resolve_or_default(lookup: Option<AddressLookup>, port: u16) -> (r: Result<
    SocketAddress,
    AddressError,
>)
    requires
        !awaits_lookup(lookup),
    ensures
        r == address_outcome(lookup, port),
{
    match lookup {
        None => Ok(SocketAddress::V4 { ip: 0x7f00_0001, port }),
        Some(l) => l.addr.resolve(l.outcome.unwrap()),
    }
}

/// The addresses of a configuration, in the order they are checked.
#[derive(Clone, Copy, Debug, PartialEq, Eq, Structural)]
pub enum AddressField {
    DaemonRpc,
    DaemonP2p,
    ElectrumRpc,
    Monitoring,
}

/// The address that must be looked up before the configuration can be
/// checked further: the first given address still waiting for its lookup
/// that the checks reach, i.e. all checks made before it pass. A refused
/// signet magic, an address that does not resolve, or a monitoring address
/// without metrics stops the checks before any later address is reached.
pub open spec fn next_lookup_spec(raw: RawConfig, metrics_enabled: bool) -> Option<AddressField> {
    let n = raw.network;
    if !magic_passes(n, raw.signet_magic) {
        None
    } else if awaits_lookup(raw.daemon_rpc_addr) {
        Some(AddressField::DaemonRpc)
    } else if address_outcome(raw.daemon_rpc_addr, daemon_rpc_port_spec(n)) is Err {
        None
    } else if awaits_lookup(raw.daemon_p2p_addr) {
        Some(AddressField::DaemonP2p)
    } else if address_outcome(raw.daemon_p2p_addr, daemon_p2p_port_spec(n)) is Err {
        None
    } else if awaits_lookup(raw.electrum_rpc_addr) {
        Some(AddressField::ElectrumRpc)
    } else if address_outcome(raw.electrum_rpc_addr, electrum_port_spec(n)) is Err {
        None
    } else if !metrics_enabled && raw.monitoring_addr is Some {
        None
    } else if awaits_lookup(raw.monitoring_addr) {
        Some(AddressField::Monitoring)
    } else {
        None
    }
}

/// Which address, if any, must be looked up before the configuration can be
/// checked further.
pub fn next_lookup(raw: &RawConfig, metrics_enabled: bool) -> (r: Option<AddressField>)
    ensures
        r == next_lookup_spec(*raw, metrics_enabled),
{
    let n = raw.network;
    if !signet_magic_accepted(n, &raw.signet_magic) {
        return None;
    }
    if awaits(&raw.daemon_rpc_addr) {
        return Some(AddressField::DaemonRpc);
    }
    if !address_resolves(&raw.daemon_rpc_addr, n.default_daemon_rpc_port()) {
        return None;
    }
    if awaits(&raw.daemon_p2p_addr) {
        return Some(AddressField::DaemonP2p);
    }
    if !address_resolves(&raw.daemon_p2p_addr, n.default_daemon_p2p_port()) {
        return None;
    }
    if awaits(&raw.electrum_rpc_addr) {
        return Some(AddressField::ElectrumRpc);
    }
    if !address_resolves(&raw.electrum_rpc_addr, n.default_electrum_port()) {
        return None;
    }
    if !metrics_enabled && raw.monitoring_addr.is_some() {
        return None;
    }
    if awaits(&raw.monitoring_addr) {
        return Some(AddressField::Monitoring);
    }
    None
}

/// `user` and `pass` are what lies before and after the first colon of `s`.
pub open spec fn splits_at_first_colon(s: Seq<char>, user: Seq<char>, pass: Seq<char>) -> bool {
    s == user + seq![':'] + pass && !user.contains(':')
}

fn split_at_first_colon(s: &str) -> (r: Option<(String, String)>)
    ensures
        match r {
            Some((user, pass)) => splits_at_first_colon(s@, user@, pass@),
            None => !s@.contains(':'),
        },
{
    let n = s.unicode_len();
    let mut i: usize = 0;
    while i < n
        invariant
            n == s@.len(),
            i <= n,
            forall|j: int| 0 <= j < i ==> s@[j] != ':',
        decreases n - i,
    {
        if s.get_char(i) == ':' {
            let user = s.substring_char(0, i);
            let pass = s.substring_char(i + 1, n);
            assert(s@ =~= user@ + seq![':'] + pass@);
            assert(!user@.contains(':')) by {
                assert forall|j: int| 0 <= j < user@.len() implies user@[j] != ':' by {
                    assert(user@[j] == s@[j]);
                }
            }
            return Some((user.to_owned(), pass.to_owned()));
        }
        i = i + 1;
    }
    None
}

/// Whether the credentials are chosen without error.
pub open spec fn auth_passes(auth: Option<String>, cookie_file: Option<String>) -> bool {
    match (auth, cookie_file) {
        (Some(a), None) => a@.contains(':'),
        (Some(_), Some(_)) => false,
        _ => true,
    }
}

/// How the daemon credentials are chosen: the cookie file `.cookie` of the
/// daemon directory by default, or the given cookie file, or the user and
/// password of `auth` split at its first colon; `auth` and `cookie_file` are
/// not to be given together.
pub open spec fn auth_outcome(
    auth: Option<String>,
    cookie_file: Option<String>,
    daemon_dir: Seq<char>,
    r: Result<Auth, ConfigError>,
) -> bool {
    match (auth, cookie_file) {
        (None, None) => r matches Ok(Auth::CookieFile(p)) && p@ == joined(daemon_dir, ".cookie"@),
        (None, Some(c)) => r == Ok::<Auth, ConfigError>(Auth::CookieFile(c)),
        (Some(a), None) => if a@.contains(':') {
            r matches Ok(Auth::UserPass(user, pass)) && splits_at_first_colon(a@, user@, pass@)
        } else {
            r matches Err(ConfigError::AuthWithoutColon)
        },
        (Some(_), Some(_)) => r matches Err(ConfigError::AmbiguousAuth),
    }
}

fn select_auth(auth: Option<String>, cookie_file: Option<String>, daemon_dir: &str) -> (r: Result<
    Auth,
    ConfigError,
>)
    ensures
        auth_outcome(auth, cookie_file, daemon_dir@, r),
{
    match (auth, cookie_file) {
        (None, None) => Ok(Auth::CookieFile(join_path(daemon_dir, ".cookie"))),
        (None, Some(cookie_file)) => Ok(Auth::CookieFile(cookie_file)),
        (Some(auth), None) => match split_at_first_colon(auth.as_str()) {
            Some((user, pass)) => {
                assert(auth@[user@.len() as int] == ':');
                Ok(Auth::UserPass(user, pass))
            },
            None => Err(ConfigError::AuthWithoutColon),
        },
        (Some(_), Some(_)) => Err(ConfigError::AmbiguousAuth),
    }
}

/// The daemon directory, with the network's subdirectory when it has one.
pub open spec fn daemon_dir_spec(raw: RawConfig) -> Seq<char> {
    match daemon_subdir_spec(raw.network) {
        Some(s) => joined(raw.daemon_dir@, s),
        None => raw.daemon_dir@,
    }
}

/// The configuration put together from an accepted raw configuration.
pub open spec fn config_matches(raw: RawConfig, config: Config) -> bool {
    let n = raw.network;
    &&& config.network == n
    &&& config.db_path@ == joined(raw.db_dir@, db_subdir_spec(n))
    &&& config.db_log_dir == raw.db_log_dir
    &&& config.db_parallelism == raw.db_parallelism
    &&& auth_outcome(raw.auth, raw.cookie_file, daemon_dir_spec(raw), Ok(config.daemon_auth.0))
    &&& address_outcome(raw.daemon_rpc_addr, daemon_rpc_port_spec(n)) == Ok::<SocketAddress, AddressError>(config.daemon_rpc_addr)
    &&& address_outcome(raw.daemon_p2p_addr, daemon_p2p_port_spec(n)) == Ok::<SocketAddress, AddressError>(config.daemon_p2p_addr)
    &&& address_outcome(raw.electrum_rpc_addr, electrum_port_spec(n)) == Ok::<SocketAddress, AddressError>(config.electrum_rpc_addr)
    &&& address_outcome(raw.monitoring_addr, monitoring_port_spec(n)) == Ok::<SocketAddress, AddressError>(config.monitoring_addr)
    &&& config.wait_duration == duration_of_secs(raw.wait_duration_secs)
    &&& duration_whole_secs(config.wait_duration) == raw.wait_duration_secs
    &&& duration_subsec_nanos(config.wait_duration) == 0
    &&& config.jsonrpc_timeout == duration_of_secs(raw.jsonrpc_timeout_secs)
    &&& duration_whole_secs(config.jsonrpc_timeout) == raw.jsonrpc_timeout_secs
    &&& duration_subsec_nanos(config.jsonrpc_timeout) == 0
    &&& config.index_batch_size == raw.index_batch_size
    &&& config.index_lookup_limit == (if raw.index_lookup_limit == 0 {
        None
    } else {
        Some(raw.index_lookup_limit)
    })
    &&& config.reindex_last_blocks == raw.reindex_last_blocks
    &&& config.auto_reindex == raw.auto_reindex
    &&& config.ignore_mempool == raw.ignore_mempool
    &&& config.sync_once == raw.sync_once
    &&& config.skip_block_download_wait == raw.skip_block_download_wait
    &&& config.disable_electrum_rpc == raw.disable_electrum_rpc
    &&& config.server_banner == raw.server_banner
    &&& magic_outcome(n, raw.signet_magic, Ok(config.signet_magic))
}

/// What becomes of a raw configuration. The checks are made in this order and
/// the first that fails decides the error: the signet magic, the daemon's RPC
/// address, the daemon's peer-to-peer address, the Electrum RPC address, a
/// monitoring address without metrics, the monitoring address, deprecated
/// options, the credentials, and the timeouts. An accepted configuration
/// shows the version when asked to, and otherwise runs.
pub open spec fn startup_outcome(raw: RawConfig, metrics_enabled: bool, r: Result<Startup, ConfigError>) -> bool {
    let n = raw.network;
    let rpc = address_outcome(raw.daemon_rpc_addr, daemon_rpc_port_spec(n));
    let p2p = address_outcome(raw.daemon_p2p_addr, daemon_p2p_port_spec(n));
    let electrum = address_outcome(raw.electrum_rpc_addr, electrum_port_spec(n));
    let monitoring = address_outcome(raw.monitoring_addr, monitoring_port_spec(n));
    if !magic_passes(n, raw.signet_magic) {
        r matches Err(e) && magic_outcome(n, raw.signet_magic, Err(e))
    } else if rpc is Err {
        r == Err::<Startup, ConfigError>(ConfigError::Address(rpc->Err_0))
    } else if p2p is Err {
        r == Err::<Startup, ConfigError>(ConfigError::Address(p2p->Err_0))
    } else if electrum is Err {
        r == Err::<Startup, ConfigError>(ConfigError::Address(electrum->Err_0))
    } else if !metrics_enabled && raw.monitoring_addr is Some {
        r matches Err(ConfigError::MonitoringWithoutMetrics)
    } else if monitoring is Err {
        r == Err::<Startup, ConfigError>(ConfigError::Address(monitoring->Err_0))
    } else if raw.timestamp || raw.verbose > 0 {
        r matches Err(ConfigError::DeprecatedOptions { timestamp, verbose }) && timestamp
            == raw.timestamp && verbose == (raw.verbose > 0)
    } else if !auth_passes(raw.auth, raw.cookie_file) {
        r matches Err(e) && auth_outcome(raw.auth, raw.cookie_file, daemon_dir_spec(raw), Err(e))
    } else if raw.jsonrpc_timeout_secs <= raw.wait_duration_secs {
        r matches Err(ConfigError::TimeoutNotAboveWait { jsonrpc_timeout_secs, wait_duration_secs })
            && jsonrpc_timeout_secs == raw.jsonrpc_timeout_secs && wait_duration_secs
            == raw.wait_duration_secs
    } else if raw.version {
        r matches Ok(Startup::ShowVersion)
    } else {
        r matches Ok(Startup::Run { config, log_filters }) && log_filters == raw.log_filters
            && config_matches(raw, config)
    }
}

/// Whether the signet magic option, if any, is accepted for the network.
pub fn signet_magic_accepted(network: ElectrsNetwork, signet_magic: &Option<String>) -> (r: bool)
    ensures
        r == magic_passes(network, *signet_magic),
{
    match signet_magic {
        Some(m) => network == ElectrsNetwork::Bitcoin(Network::Signet) && bitcoin_magic_from_str(
            m.as_str(),
        ).is_ok(),
        None => true,
    }
}

/// What `Config::from_raw` gives: a request for the next lookup the checks
/// need, handing the configuration back, or else the verdict.
pub open spec fn from_raw_outcome(raw: RawConfig, metrics_enabled: bool, r: ConfigStep) -> bool {
    match next_lookup_spec(raw, metrics_enabled) {
        Some(f) => r == (ConfigStep::LookUp { raw, field: f }),
        None => r matches ConfigStep::Done(res) && startup_outcome(raw, metrics_enabled, res),
    }
}

impl Config {
    /// Checks and post-processes a raw configuration. While an address the
    /// checks reach is still to be looked up, it asks for that lookup and
    /// hands the configuration back unchanged.
    pub fn from_raw(raw: RawConfig, metrics_enabled: bool) -> (r: ConfigStep)
        ensures
            from_raw_outcome(raw, metrics_enabled, r),
    {
        if let Some(field) = next_lookup(&raw, metrics_enabled) {
            return ConfigStep::LookUp { raw, field };
        }
        ConfigStep::Done(Self::check(raw, metrics_enabled))
    }

    fn check(raw: RawConfig, metrics_enabled: bool) -> (r: Result<Startup, ConfigError>)
        requires
            next_lookup_spec(raw, metrics_enabled) is None,
        ensures
            startup_outcome(raw, metrics_enabled, r),
    {
        let ghost raw0 = raw;
        let RawConfig {
            network,
            db_dir,
            db_log_dir,
            db_parallelism,
            daemon_dir,
            auth,
            cookie_file,
            daemon_rpc_addr,
            daemon_p2p_addr,
            electrum_rpc_addr,
            monitoring_addr,
            wait_duration_secs,
            jsonrpc_timeout_secs,
            index_batch_size,
            index_lookup_limit,
            reindex_last_blocks,
            auto_reindex,
            ignore_mempool,
            sync_once,
            skip_block_download_wait,
            disable_electrum_rpc,
            server_banner,
            signet_magic,
            log_filters,
            timestamp,
            verbose,
            version,
        } = raw;
        let db_path = join_path(db_dir.as_str(), network.db_subdir());
        let magic = match select_magic(network, signet_magic) {
            Ok(m) => m,
            Err(e) => return Err(e),
        };
        let daemon_rpc_addr = match resolve_or_default(
            daemon_rpc_addr,
            network.default_daemon_rpc_port(),
        ) {
            Ok(a) => a,
            Err(e) => return Err(ConfigError::Address(e)),
        };
        let daemon_p2p_addr = match resolve_or_default(
            daemon_p2p_addr,
            network.default_daemon_p2p_port(),
        ) {
            Ok(a) => a,
            Err(e) => return Err(ConfigError::Address(e)),
        };
        let electrum_rpc_addr = match resolve_or_default(
            electrum_rpc_addr,
            network.default_electrum_port(),
        ) {
            Ok(a) => a,
            Err(e) => return Err(ConfigError::Address(e)),
        };
        if !metrics_enabled && monitoring_addr.is_some() {
            return Err(ConfigError::MonitoringWithoutMetrics);
        }
        let monitoring_addr = match resolve_or_default(
            monitoring_addr,
            network.default_monitoring_port(),
        ) {
            Ok(a) => a,
            Err(e) => return Err(ConfigError::Address(e)),
        };
        let daemon_dir = match network.daemon_subdir() {
            Some(s) => join_path(daemon_dir.as_str(), s),
            None => daemon_dir,
        };
        if timestamp || verbose > 0 {
            return Err(ConfigError::DeprecatedOptions { timestamp, verbose: verbose > 0 });
        }
        let daemon_auth = match select_auth(auth, cookie_file, daemon_dir.as_str()) {
            Ok(a) => SensitiveAuth(a),
            Err(e) => return Err(e),
        };
        let index_lookup_limit = if index_lookup_limit == 0 {
            None
        } else {
            Some(index_lookup_limit)
        };
        if jsonrpc_timeout_secs <= wait_duration_secs {
            return Err(ConfigError::TimeoutNotAboveWait { jsonrpc_timeout_secs, wait_duration_secs });
        }
        if version {
            return Ok(Startup::ShowVersion);
        }
        let config = Config {
            network,
            db_path,
            db_log_dir,
            db_parallelism,
            daemon_auth,
            daemon_rpc_addr,
            daemon_p2p_addr,
            electrum_rpc_addr,
            monitoring_addr,
            wait_duration: duration_from_secs(wait_duration_secs),
            jsonrpc_timeout: duration_from_secs(jsonrpc_timeout_secs),
            index_batch_size,
            index_lookup_limit,
            reindex_last_blocks,
            auto_reindex,
            ignore_mempool,
            sync_once,
            skip_block_download_wait,
            disable_electrum_rpc,
            server_banner,
            signet_magic: magic,
        };
        Ok(Startup::Run { config, log_filters })
    }
}

} // verus!
