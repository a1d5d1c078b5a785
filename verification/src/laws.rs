use vstd::prelude::*;

use crate::address::{
    lemma_preferred_address_prefers_ipv4, resolve_outcome, AddressError, AddressLookup,
    ResolvAddr, SocketAddress,
};
use crate::auth::Auth;
use crate::config::{
    default_magic_bytes, duration_subsec_nanos, duration_whole_secs, from_raw_outcome,
    startup_outcome, AddressField, Config, ConfigError, ConfigStep, RawConfig, Startup,
};
use crate::network::{
    ascii_lower_code, daemon_p2p_port_spec, daemon_rpc_port_spec, daemon_subdir_spec,
    db_subdir_spec, electrs_network_from_name, electrum_port_spec, eq_ignore_ascii_case_spec,
    monitoring_port_spec, network_from_name, ElectrsNetwork, Network,
};
use crate::paths::joined;

verus! {

/// The names of Bitcoin's networks keep their meaning: the DigiByte aliases
/// never take one of them over.
pub proof fn lemma_bitcoin_names_kept(s: Seq<char>)
    requires
        network_from_name(s) is Some,
    ensures
        electrs_network_from_name(s) == Ok::<ElectrsNetwork, Seq<char>>(
            ElectrsNetwork::Bitcoin(network_from_name(s)->0),
        ),
{
    reveal_strlit("bitcoin");
    reveal_strlit("testnet");
    reveal_strlit("testnet4");
    reveal_strlit("signet");
    reveal_strlit("regtest");
    reveal_strlit("digibyte");
    reveal_strlit("dgb");
    if eq_ignore_ascii_case_spec(s, "digibyte"@) {
        assert(s.len() == 8);
        assert(s == "testnet4"@);
        assert(ascii_lower_code(s[0]) == ascii_lower_code("digibyte"@[0]));
        assert(s[0] == 't' && "digibyte"@[0] == 'd');
        assert(false);
    }
    if eq_ignore_ascii_case_spec(s, "dgb"@) {
        assert(s.len() == 3);
        assert(false);
    }
}

/// Each network keeps its index in a subdirectory of its own.
pub proof fn lemma_db_subdirs_distinct(a: ElectrsNetwork, b: ElectrsNetwork)
    requires
        a != b,
    ensures
        db_subdir_spec(a) != db_subdir_spec(b),
{
    reveal_strlit("bitcoin");
    reveal_strlit("testnet");
    reveal_strlit("testnet4");
    reveal_strlit("regtest");
    reveal_strlit("signet");
    reveal_strlit("digibyte");
    if db_subdir_spec(a) == db_subdir_spec(b) {
        assert(db_subdir_spec(a)[0] == db_subdir_spec(b)[0]);
        assert(db_subdir_spec(a).len() == db_subdir_spec(b).len());
        assert(db_subdir_spec(a)[1] == db_subdir_spec(b)[1]);
        assert(db_subdir_spec(a)[db_subdir_spec(a).len() - 1] == db_subdir_spec(b)[db_subdir_spec(
            b,
        ).len() - 1]);
    }
}

/// Without a signet magic, each network speaks with magic bytes of its own,
/// so peers of different networks never take each other's messages.
pub proof fn lemma_default_magics_distinct(a: ElectrsNetwork, b: ElectrsNetwork)
    requires
        a != b,
    ensures
        default_magic_bytes(a) != default_magic_bytes(b),
{
    if default_magic_bytes(a) == default_magic_bytes(b) {
        assert(default_magic_bytes(a)[0] == default_magic_bytes(b)[0]);
        assert(default_magic_bytes(a)[1] == default_magic_bytes(b)[1]);
    }
}

/// Every accepted configuration has a JSON-RPC timeout longer than the wait
/// duration (both whole seconds, the timeout's more), no deprecated option, at most one of `auth` and `cookie_file`, a
/// signet magic only on signet, and a monitoring address only with metrics.
pub proof fn lemma_accepted_config(raw: RawConfig, metrics_enabled: bool, r: Result<Startup, ConfigError>)
    requires
        startup_outcome(raw, metrics_enabled, r),
        r is Ok,
    ensures
        raw.jsonrpc_timeout_secs > raw.wait_duration_secs,
        !raw.timestamp && raw.verbose == 0,
        !(raw.auth is Some && raw.cookie_file is Some),
        raw.signet_magic is Some ==> raw.network == ElectrsNetwork::Bitcoin(Network::Signet),
        metrics_enabled || raw.monitoring_addr is None,
        r matches Ok(Startup::Run { config, .. }) ==> duration_whole_secs(config.jsonrpc_timeout)
            > duration_whole_secs(config.wait_duration) && duration_subsec_nanos(
            config.jsonrpc_timeout,
        ) == 0 && duration_subsec_nanos(config.wait_duration) == 0,
{
}

/// `a` is what a lookup that gave `v` leads to: the first IPv4 address of
/// `v`, or, when `v` holds none, its first address.
pub open spec fn picked_from_lookup(v: Seq<SocketAddress>, a: SocketAddress) -> bool {
    ||| exists|i: int|
        0 <= i < v.len() && v[i] is V4 && a == v[i] && forall|j: int| 0 <= j < i ==> !(v[j] is V4)
    ||| (forall|i: int| 0 <= i < v.len() ==> !(v[i] is V4)) && v.len() > 0 && a == v[0]
}

/// Resolving prefers IPv4: a lookup that gave addresses resolves to its first
/// IPv4 address, or to its first address when it gave only IPv6 ones; a
/// lookup that gave none, or failed, is an error naming the address.
pub proof fn lemma_resolve_prefers_ipv4(
    addr: ResolvAddr,
    v: Vec<SocketAddress>,
    err: std::io::Error,
)
    ensures
        v@.len() == 0 ==> resolve_outcome(addr, Ok(v)) == Err::<SocketAddress, AddressError>(
            AddressError::NoAddrError(addr.0),
        ),
        v@.len() > 0 ==> (resolve_outcome(addr, Ok(v)) matches Ok(a) && picked_from_lookup(v@, a)),
        resolve_outcome(addr, Err(err)) == Err::<SocketAddress, AddressError>(
            AddressError::ResolvError { addr: addr.0, err },
        ),
{
    lemma_preferred_address_prefers_ipv4(v@);
}

/// The address an interface ends up with: 127.0.0.1 with the default port
/// when none was given, and otherwise what the given address's own lookup
/// leads to.
pub open spec fn address_taken(given: Option<AddressLookup>, default_port: u16, a: SocketAddress) -> bool {
    match given {
        None => a == (SocketAddress::V4 { ip: 0x7f00_0001, port: default_port }),
        Some(l) => l.outcome matches Some(Ok(v)) && picked_from_lookup(v@, a),
    }
}

proof fn lemma_taken(given: Option<AddressLookup>, port: u16, a: SocketAddress)
    requires
        given matches Some(l) ==> l.outcome is Some,
        crate::config::address_outcome(given, port) == Ok::<SocketAddress, AddressError>(a),
    ensures
        address_taken(given, port, a),
{
    match given {
        None => {},
        Some(l) => match l.outcome {
            Some(Ok(v)) => {
                lemma_preferred_address_prefers_ipv4(v@);
            },
            _ => {},
        },
    }
}

/// A configuration runs only once every address it was given has been looked
/// up, and each interface then has the address its own lookup leads to; only
/// an interface given no address gets 127.0.0.1 with its default port.
pub proof fn lemma_run_uses_given_addresses(
    raw: RawConfig,
    metrics_enabled: bool,
    config: Config,
    log_filters: Option<String>,
)
    requires
        from_raw_outcome(
            raw,
            metrics_enabled,
            ConfigStep::Done(Ok(Startup::Run { config, log_filters })),
        ),
    ensures
        raw.daemon_rpc_addr matches Some(l) ==> l.outcome is Some,
        raw.daemon_p2p_addr matches Some(l) ==> l.outcome is Some,
        raw.electrum_rpc_addr matches Some(l) ==> l.outcome is Some,
        raw.monitoring_addr matches Some(l) ==> l.outcome is Some,
        address_taken(raw.daemon_rpc_addr, daemon_rpc_port_spec(raw.network), config.daemon_rpc_addr),
        address_taken(raw.daemon_p2p_addr, daemon_p2p_port_spec(raw.network), config.daemon_p2p_addr),
        address_taken(raw.electrum_rpc_addr, electrum_port_spec(raw.network), config.electrum_rpc_addr),
        address_taken(raw.monitoring_addr, monitoring_port_spec(raw.network), config.monitoring_addr),
{
    let n = raw.network;
    lemma_taken(raw.daemon_rpc_addr, daemon_rpc_port_spec(n), config.daemon_rpc_addr);
    lemma_taken(raw.daemon_p2p_addr, daemon_p2p_port_spec(n), config.daemon_p2p_addr);
    lemma_taken(raw.electrum_rpc_addr, electrum_port_spec(n), config.electrum_rpc_addr);
    lemma_taken(raw.monitoring_addr, monitoring_port_spec(n), config.monitoring_addr);
}

/// The address a lookup is asked for is a given address still waiting for
/// its lookup.
pub proof fn lemma_lookup_asked_only_when_pending(raw: RawConfig, metrics_enabled: bool, r: ConfigStep)
    requires
        from_raw_outcome(raw, metrics_enabled, r),
    ensures
        r matches ConfigStep::LookUp { raw: back, field } ==> (back == raw && ((match field {
            AddressField::DaemonRpc => raw.daemon_rpc_addr,
            AddressField::DaemonP2p => raw.daemon_p2p_addr,
            AddressField::ElectrumRpc => raw.electrum_rpc_addr,
            AddressField::Monitoring => raw.monitoring_addr,
        }) matches Some(l) && l.outcome is None)),
{
}

/// A configuration that runs keeps every option it passes on unchanged: the
/// network, the database options, the index options, the flags, the banner
/// and the log filters; a lookup limit of 0 means none, and the durations are
/// the given whole seconds.
pub proof fn lemma_run_keeps_options(
    raw: RawConfig,
    metrics_enabled: bool,
    config: Config,
    log_filters: Option<String>,
)
    requires
        from_raw_outcome(
            raw,
            metrics_enabled,
            ConfigStep::Done(Ok(Startup::Run { config, log_filters })),
        ),
    ensures
        config.network == raw.network,
        config.db_log_dir == raw.db_log_dir,
        config.db_parallelism == raw.db_parallelism,
        config.index_batch_size == raw.index_batch_size,
        config.reindex_last_blocks == raw.reindex_last_blocks,
        config.auto_reindex == raw.auto_reindex,
        config.ignore_mempool == raw.ignore_mempool,
        config.sync_once == raw.sync_once,
        config.skip_block_download_wait == raw.skip_block_download_wait,
        config.disable_electrum_rpc == raw.disable_electrum_rpc,
        config.server_banner == raw.server_banner,
        log_filters == raw.log_filters,
        raw.index_lookup_limit == 0 ==> config.index_lookup_limit is None,
        raw.index_lookup_limit != 0 ==> config.index_lookup_limit == Some(raw.index_lookup_limit),
        duration_whole_secs(config.wait_duration) == raw.wait_duration_secs,
        duration_whole_secs(config.jsonrpc_timeout) == raw.jsonrpc_timeout_secs,
        !raw.version,
{
}

/// Without `auth` or `cookie_file`, the credentials are the `.cookie` file of
/// the daemon directory, within the network's own daemon subdirectory when it
/// has one.
pub proof fn lemma_default_cookie(
    raw: RawConfig,
    metrics_enabled: bool,
    config: Config,
    log_filters: Option<String>,
)
    requires
        from_raw_outcome(
            raw,
            metrics_enabled,
            ConfigStep::Done(Ok(Startup::Run { config, log_filters })),
        ),
        raw.auth is None,
        raw.cookie_file is None,
    ensures
        config.daemon_auth.0 matches Auth::CookieFile(p) && p@ == match daemon_subdir_spec(raw.network) {
            Some(sub) => joined(joined(raw.daemon_dir@, sub), ".cookie"@),
            None => joined(raw.daemon_dir@, ".cookie"@),
        },
{
}

/// Networks that have a daemon subdirectory have distinct ones, and each
/// begins with the network's own name (testnet's daemon keeps `testnet3`).
pub proof fn lemma_daemon_subdirs(a: ElectrsNetwork, b: ElectrsNetwork)
    ensures
        a != b && daemon_subdir_spec(a) is Some && daemon_subdir_spec(b) is Some ==> daemon_subdir_spec(a)
            != daemon_subdir_spec(b),
        daemon_subdir_spec(a) matches Some(d) ==> db_subdir_spec(a).is_prefix_of(d),
{
    reveal_strlit("testnet");
    reveal_strlit("testnet3");
    reveal_strlit("testnet4");
    reveal_strlit("regtest");
    reveal_strlit("signet");
    if a != b && daemon_subdir_spec(a) is Some && daemon_subdir_spec(b) is Some {
        let x = daemon_subdir_spec(a)->0;
        let y = daemon_subdir_spec(b)->0;
        if x == y {
            assert(x[0] == y[0]);
            assert(x[x.len() - 1] == y[y.len() - 1]);
        }
    }
}

/// Distinct networks have distinct default ports for the daemon's RPC and
/// peer-to-peer interfaces and for monitoring; the Bitcoin networks also have
/// distinct Electrum ports (DigiByte shares mainnet's 50001). Each Bitcoin
/// network's peer-to-peer port follows its RPC port, and within a network the
/// four ports all differ.
pub proof fn lemma_default_ports(a: ElectrsNetwork, b: ElectrsNetwork)
    ensures
        a != b ==> daemon_rpc_port_spec(a) != daemon_rpc_port_spec(b),
        a != b ==> daemon_p2p_port_spec(a) != daemon_p2p_port_spec(b),
        a != b ==> monitoring_port_spec(a) != monitoring_port_spec(b),
        a != b && a is Bitcoin && b is Bitcoin ==> electrum_port_spec(a) != electrum_port_spec(b),
        a is Bitcoin ==> daemon_p2p_port_spec(a) == daemon_rpc_port_spec(a) + 1,
        daemon_rpc_port_spec(a) != daemon_p2p_port_spec(a),
        daemon_rpc_port_spec(a) != electrum_port_spec(a),
        daemon_rpc_port_spec(a) != monitoring_port_spec(a),
        daemon_p2p_port_spec(a) != electrum_port_spec(a),
        daemon_p2p_port_spec(a) != monitoring_port_spec(a),
        electrum_port_spec(a) != monitoring_port_spec(a),
{
}

/// A network's database subdirectory is one of its own names: read as a
/// network name it gives the network back.
pub proof fn lemma_db_subdir_names_network(n: ElectrsNetwork)
    ensures
        electrs_network_from_name(db_subdir_spec(n)) == Ok::<ElectrsNetwork, Seq<char>>(n),
{
    reveal_strlit("bitcoin");
    reveal_strlit("testnet");
    reveal_strlit("testnet4");
    reveal_strlit("signet");
    reveal_strlit("regtest");
    reveal_strlit("digibyte");
    reveal_strlit("dgb");
    let s = db_subdir_spec(n);
    if n is Bitcoin {
        if eq_ignore_ascii_case_spec(s, "digibyte"@) {
            assert(s.len() == 8);
            assert(s == "testnet4"@);
            assert(ascii_lower_code(s[0]) == ascii_lower_code("digibyte"@[0]));
            assert(s[0] == 't' && "digibyte"@[0] == 'd');
            assert(false);
        }
        if eq_ignore_ascii_case_spec(s, "dgb"@) {
            assert(false);
        }
        assert(s[0] != "bitcoin"@[0] ==> s != "bitcoin"@);
        assert(s.len() != "testnet"@.len() || s[s.len() - 1] != "testnet"@[6] ==> s != "testnet"@);
        assert(s.len() != "testnet4"@.len() ==> s != "testnet4"@);
        assert(s[0] != "signet"@[0] ==> s != "signet"@);
        assert(network_from_name(s) == Some(n->Bitcoin_0));
    } else {
        assert(s == "digibyte"@);
        assert forall|i: int| 0 <= i < s.len() implies ascii_lower_code(#[trigger] s[i])
            == ascii_lower_code("digibyte"@[i]) by {}
        assert(eq_ignore_ascii_case_spec(s, "digibyte"@));
    }
}

/// Whether a name means DigiByte does not depend on the case of its letters.
pub proof fn lemma_digibyte_names_ignore_case(s: Seq<char>, t: Seq<char>)
    requires
        eq_ignore_ascii_case_spec(s, t),
        electrs_network_from_name(s) == Ok::<ElectrsNetwork, Seq<char>>(ElectrsNetwork::DigiByte),
    ensures
        electrs_network_from_name(t) == Ok::<ElectrsNetwork, Seq<char>>(ElectrsNetwork::DigiByte),
{
    reveal_strlit("bitcoin");
    reveal_strlit("testnet");
    reveal_strlit("testnet4");
    reveal_strlit("signet");
    reveal_strlit("regtest");
    if eq_ignore_ascii_case_spec(s, "digibyte"@) {
        assert forall|i: int| 0 <= i < t.len() implies ascii_lower_code(#[trigger] t[i])
            == ascii_lower_code("digibyte"@[i]) by {
            assert(ascii_lower_code(s[i]) == ascii_lower_code(t[i]));
        }
    } else {
        assert forall|i: int| 0 <= i < t.len() implies ascii_lower_code(#[trigger] t[i])
            == ascii_lower_code("dgb"@[i]) by {
            assert(ascii_lower_code(s[i]) == ascii_lower_code(t[i]));
        }
    }
}

/// Extending a path by a relative component keeps the path in front and the
/// component at the end, with one `/` between them when the path is not empty
/// and none doubled.
pub proof fn lemma_joined_relative(base: Seq<char>, c: Seq<char>)
    requires
        c.len() > 0,
        c[0] != '/',
    ensures
        base.is_prefix_of(joined(base, c)),
        c.is_suffix_of(joined(base, c)),
        joined(base, c).len() == base.len() + c.len() || joined(base, c).len() == base.len()
            + c.len() + 1,
        base.len() > 0 ==> joined(base, c)[joined(base, c).len() - c.len() - 1] == '/',
        base.len() > 0 && base.last() == '/' ==> joined(base, c).len() == base.len() + c.len(),
        base.len() == 0 ==> joined(base, c) == c,
{
    let j = joined(base, c);
    if base.len() == 0 || base.last() == '/' {
        assert(j == base + c);
        assert(j.subrange(j.len() - c.len(), j.len() as int) =~= c);
        assert(j.subrange(0, base.len() as int) =~= base);
    } else {
        assert(j == base + seq!['/'] + c);
        assert(j.subrange(j.len() - c.len(), j.len() as int) =~= c);
        assert(j.subrange(0, base.len() as int) =~= base);
    }
}

} // verus!
