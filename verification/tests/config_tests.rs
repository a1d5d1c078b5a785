use electrs::address::{
    no_address_message, resolve_error_message, select_resolved_addr, AddressError, AddressLookup,
    ResolvAddr, SocketAddress,
};
use electrs::auth::{cookie_file_debug, user_pass_debug, Auth, SensitiveAuth};
use electrs::config::{
    next_lookup, signet_magic_accepted, AddressField, Config, ConfigError, ConfigStep, RawConfig,
    Startup,
};
use electrs::network::{ElectrsNetwork, Magic, Network};
use std::time::Duration;

const LOCALHOST_V4: u32 = 0x7f00_0001;

fn v4(ip: u32, port: u16) -> SocketAddress {
    SocketAddress::V4 { ip, port }
}

fn v6(ip6: u128, port: u16) -> SocketAddress {
    SocketAddress::V6 { ip6, port, flowinfo: 0, scope_id: 0 }
}

fn raw(network: ElectrsNetwork) -> RawConfig {
    RawConfig {
        network,
        db_dir: "/data".to_string(),
        db_log_dir: None,
        db_parallelism: 1,
        daemon_dir: "/home/u/.bitcoin".to_string(),
        auth: None,
        cookie_file: None,
        daemon_rpc_addr: None,
        daemon_p2p_addr: None,
        electrum_rpc_addr: None,
        monitoring_addr: None,
        wait_duration_secs: 10,
        jsonrpc_timeout_secs: 15,
        index_batch_size: 10,
        index_lookup_limit: 0,
        reindex_last_blocks: 0,
        auto_reindex: true,
        ignore_mempool: false,
        sync_once: false,
        skip_block_download_wait: false,
        disable_electrum_rpc: false,
        server_banner: "Welcome".to_string(),
        signet_magic: None,
        log_filters: None,
        timestamp: false,
        verbose: 0,
        version: false,
    }
}

fn lookup(name: &str, outcome: Result<Vec<SocketAddress>, std::io::Error>) -> Option<AddressLookup> {
    Some(AddressLookup { addr: ResolvAddr(name.to_string()), outcome: Some(outcome) })
}

fn decide(raw: RawConfig, metrics_enabled: bool) -> Result<Startup, ConfigError> {
    match Config::from_raw(raw, metrics_enabled) {
        ConfigStep::Done(r) => r,
        ConfigStep::LookUp { .. } => panic!("unexpected lookup request"),
    }
}

fn pending(name: &str) -> Option<AddressLookup> {
    Some(AddressLookup::pending(ResolvAddr(name.to_string())))
}

fn requested(raw: RawConfig, metrics_enabled: bool) -> (RawConfig, AddressField) {
    match Config::from_raw(raw, metrics_enabled) {
        ConfigStep::LookUp { raw, field } => (raw, field),
        ConfigStep::Done(_) => panic!("no lookup requested"),
    }
}

fn run(raw: RawConfig) -> Config {
    match decide(raw, true) {
        Ok(Startup::Run { config, .. }) => config,
        Ok(Startup::ShowVersion) => panic!("unexpected version request"),
        Err(_) => panic!("configuration refused"),
    }
}

fn refuse(raw: RawConfig, metrics_enabled: bool) -> ConfigError {
    match decide(raw, metrics_enabled) {
        Err(e) => e,
        Ok(_) => panic!("configuration accepted"),
    }
}

#[test]
fn test_resolved_address_prefers_ipv4_with_ipv6_fallback() {
    let ipv4 = v4(LOCALHOST_V4, 14022);
    let ipv6 = v6(1, 14022);

    assert_eq!(select_resolved_addr(vec![ipv6, ipv4]), Some(ipv4));
    assert_eq!(select_resolved_addr(vec![ipv6]), Some(ipv6));
}

#[test]
fn test_auth_debug() {
    let auth = Auth::NoAuth;
    assert_eq!(SensitiveAuth(auth).debug_string(), "None");

    let auth = Auth::CookieFile("/foo/bar/.cookie".to_string());
    assert_eq!(SensitiveAuth(auth).debug_string(), "CookieFile(\"/foo/bar/.cookie\")");

    let auth = Auth::UserPass("user".to_owned(), "pass".to_owned());
    assert_eq!(SensitiveAuth(auth).debug_string(), "UserPass(\"user\", \"<sensitive>\")");
}

#[test]
fn select_from_empty_lookup_gives_nothing() {
    assert_eq!(select_resolved_addr(vec![]), None);
}

#[test]
fn select_picks_first_ipv4_after_ipv6() {
    let a = v4(1, 1);
    let b = v4(2, 2);
    assert_eq!(select_resolved_addr(vec![v6(7, 1), v6(8, 1), a, b]), Some(a));
    assert_eq!(select_resolved_addr(vec![v6(7, 1), v6(8, 1)]), Some(v6(7, 1)));
}

#[test]
fn password_is_hidden_whatever_it_is() {
    let a = SensitiveAuth(Auth::UserPass("u".to_string(), "secret1".to_string()));
    let b = SensitiveAuth(Auth::UserPass("u".to_string(), "other".to_string()));
    assert_eq!(a.debug_string(), b.debug_string());
    assert!(!a.debug_string().contains("secret1"));
}

#[test]
fn get_auth_copies_credentials() {
    let a = SensitiveAuth(Auth::UserPass("u".to_string(), "p".to_string()));
    assert_eq!(a.get_auth(), Auth::UserPass("u".to_string(), "p".to_string()));
}

#[test]
fn digibyte_names_in_any_case() {
    for name in ["digibyte", "DigiByte", "DIGIBYTE", "dgb", "DGB", "dGb"] {
        assert_eq!(ElectrsNetwork::from_str(name), Ok(ElectrsNetwork::DigiByte));
    }
}

#[test]
fn bitcoin_network_names() {
    assert_eq!(ElectrsNetwork::from_str("bitcoin"), Ok(ElectrsNetwork::Bitcoin(Network::Bitcoin)));
    assert_eq!(ElectrsNetwork::from_str("testnet"), Ok(ElectrsNetwork::Bitcoin(Network::Testnet)));
    assert_eq!(ElectrsNetwork::from_str("testnet4"), Ok(ElectrsNetwork::Bitcoin(Network::Testnet4)));
    assert_eq!(ElectrsNetwork::from_str("signet"), Ok(ElectrsNetwork::Bitcoin(Network::Signet)));
    assert_eq!(ElectrsNetwork::from_str("regtest"), Ok(ElectrsNetwork::Bitcoin(Network::Regtest)));
}

#[test]
fn unknown_network_names_are_refused() {
    assert_eq!(
        ElectrsNetwork::from_str("Bitcoin"),
        Err("failed to parse Bitcoin as network".to_string())
    );
    assert_eq!(
        ElectrsNetwork::from_str("digibytes"),
        Err("failed to parse digibytes as network".to_string())
    );
    assert_eq!(ElectrsNetwork::from_str(""), Err("failed to parse  as network".to_string()));
}

#[test]
fn default_network_and_conversion() {
    assert_eq!(ElectrsNetwork::default(), ElectrsNetwork::Bitcoin(Network::Bitcoin));
    assert_eq!(Network::from(ElectrsNetwork::DigiByte), Network::Bitcoin);
    assert_eq!(Network::from(ElectrsNetwork::Bitcoin(Network::Signet)), Network::Signet);
}

#[test]
fn default_ports() {
    let dgb = ElectrsNetwork::DigiByte;
    assert_eq!(dgb.default_daemon_rpc_port(), 14022);
    assert_eq!(dgb.default_daemon_p2p_port(), 12024);
    assert_eq!(dgb.default_electrum_port(), 50001);
    assert_eq!(dgb.default_monitoring_port(), 4225);
    let btc = ElectrsNetwork::Bitcoin(Network::Bitcoin);
    assert_eq!(btc.default_daemon_rpc_port(), 8332);
    assert_eq!(btc.default_daemon_p2p_port(), 8333);
    assert_eq!(btc.default_electrum_port(), 50001);
    assert_eq!(btc.default_monitoring_port(), 4224);
    let t4 = ElectrsNetwork::Bitcoin(Network::Testnet4);
    assert_eq!(t4.default_daemon_rpc_port(), 48332);
    assert_eq!(t4.default_daemon_p2p_port(), 48333);
    assert_eq!(t4.default_electrum_port(), 40001);
    assert_eq!(t4.default_monitoring_port(), 44224);
    let reg = ElectrsNetwork::Bitcoin(Network::Regtest);
    assert_eq!(reg.default_daemon_rpc_port(), 18443);
    assert_eq!(reg.default_electrum_port(), 60401);
}

#[test]
fn directories_per_network() {
    assert_eq!(ElectrsNetwork::DigiByte.db_subdir(), "digibyte");
    assert_eq!(ElectrsNetwork::Bitcoin(Network::Testnet).db_subdir(), "testnet");
    assert_eq!(ElectrsNetwork::Bitcoin(Network::Testnet).daemon_subdir(), Some("testnet3"));
    assert_eq!(ElectrsNetwork::Bitcoin(Network::Bitcoin).daemon_subdir(), None);
    assert_eq!(ElectrsNetwork::DigiByte.daemon_subdir(), None);
}

#[test]
fn type_descriptions() {
    assert_eq!(
        ElectrsNetwork::describe_type(),
        "either 'bitcoin', 'testnet', 'testnet4', 'regtest', 'signet' or 'digibyte'"
    );
    assert_eq!(ResolvAddr::describe_type(), "a network address (will be resolved if needed)");
}

#[test]
fn digibyte_defaults() {
    let config = run(raw(ElectrsNetwork::DigiByte));
    assert_eq!(config.network, ElectrsNetwork::DigiByte);
    assert_eq!(config.db_path, "/data/digibyte");
    assert_eq!(config.daemon_rpc_addr, v4(LOCALHOST_V4, 14022));
    assert_eq!(config.daemon_p2p_addr, v4(LOCALHOST_V4, 12024));
    assert_eq!(config.electrum_rpc_addr, v4(LOCALHOST_V4, 50001));
    assert_eq!(config.monitoring_addr, v4(LOCALHOST_V4, 4225));
    assert_eq!(config.signet_magic, Magic([0xfa, 0xc3, 0xb6, 0xda]));
    assert_eq!(config.daemon_auth.get_auth(), Auth::CookieFile("/home/u/.bitcoin/.cookie".to_string()));
    assert_eq!(config.wait_duration, Duration::from_secs(10));
    assert_eq!(config.jsonrpc_timeout, Duration::from_secs(15));
    assert_eq!(config.index_lookup_limit, None);
    assert_eq!(config.server_banner, "Welcome");
}

#[test]
fn readme_digibyte_setup() {
    let mut r = raw(ElectrsNetwork::DigiByte);
    r.auth = Some("dgb_electrum:CHANGE_THIS".to_string());
    r.daemon_rpc_addr = lookup("digibyte:14022", Ok(vec![v4(0xac10_0002, 14022)]));
    r.daemon_p2p_addr = lookup("digibyte:12024", Ok(vec![v4(0xac10_0002, 12024)]));
    r.electrum_rpc_addr = lookup("0.0.0.0:50001", Ok(vec![v4(0, 50001)]));
    r.monitoring_addr = lookup("0.0.0.0:4225", Ok(vec![v4(0, 4225)]));
    r.log_filters = Some("INFO".to_string());
    match decide(r, true) {
        Ok(Startup::Run { config, log_filters }) => {
            assert_eq!(log_filters, Some("INFO".to_string()));
            assert_eq!(config.daemon_rpc_addr, v4(0xac10_0002, 14022));
            assert_eq!(config.daemon_p2p_addr, v4(0xac10_0002, 12024));
            assert_eq!(config.electrum_rpc_addr, v4(0, 50001));
            assert_eq!(config.monitoring_addr, v4(0, 4225));
            assert_eq!(
                config.daemon_auth.get_auth(),
                Auth::UserPass("dgb_electrum".to_string(), "CHANGE_THIS".to_string())
            );
            assert_eq!(
                config.daemon_auth.debug_string(),
                "UserPass(\"dgb_electrum\", \"<sensitive>\")"
            );
        }
        _ => panic!("configuration refused"),
    }
}

#[test]
fn magic_of_each_bitcoin_network() {
    let cases = [
        (Network::Bitcoin, [0xf9, 0xbe, 0xb4, 0xd9]),
        (Network::Testnet, [0x0b, 0x11, 0x09, 0x07]),
        (Network::Testnet4, [0x1c, 0x16, 0x3f, 0x28]),
        (Network::Signet, [0x0a, 0x03, 0xcf, 0x40]),
        (Network::Regtest, [0xfa, 0xbf, 0xb5, 0xda]),
    ];
    for (n, bytes) in cases {
        assert_eq!(run(raw(ElectrsNetwork::Bitcoin(n))).signet_magic, Magic(bytes));
    }
}

#[test]
fn signet_magic_is_parsed_on_signet() {
    let mut r = raw(ElectrsNetwork::Bitcoin(Network::Signet));
    r.signet_magic = Some("0A1b2C3d".to_string());
    assert_eq!(run(r).signet_magic, Magic([0x0a, 0x1b, 0x2c, 0x3d]));
}

#[test]
fn invalid_signet_magic_is_refused() {
    for bad in ["0a1b2c", "0a1b2c3g", "0a1b2c3d4e", ""] {
        let mut r = raw(ElectrsNetwork::Bitcoin(Network::Signet));
        r.signet_magic = Some(bad.to_string());
        match refuse(r, true) {
            ConfigError::InvalidSignetMagic { magic, .. } => assert_eq!(magic, bad),
            _ => panic!("wrong error"),
        }
    }
}

#[test]
fn signet_magic_only_on_signet() {
    for n in [ElectrsNetwork::DigiByte, ElectrsNetwork::Bitcoin(Network::Bitcoin)] {
        let mut r = raw(n);
        r.signet_magic = Some("0a1b2c3d".to_string());
        assert!(matches!(refuse(r, true), ConfigError::SignetMagicNotOnSignet));
    }
}

#[test]
fn daemon_dir_of_testnet_holds_cookie() {
    let config = run(raw(ElectrsNetwork::Bitcoin(Network::Testnet)));
    assert_eq!(config.db_path, "/data/testnet");
    assert_eq!(
        config.daemon_auth.get_auth(),
        Auth::CookieFile("/home/u/.bitcoin/testnet3/.cookie".to_string())
    );
    assert_eq!(config.daemon_rpc_addr, v4(LOCALHOST_V4, 18332));
}

#[test]
fn cookie_file_given() {
    let mut r = raw(ElectrsNetwork::DigiByte);
    r.cookie_file = Some("/c/.cookie".to_string());
    assert_eq!(run(r).daemon_auth.get_auth(), Auth::CookieFile("/c/.cookie".to_string()));
}

#[test]
fn auth_splits_at_first_colon() {
    let mut r = raw(ElectrsNetwork::DigiByte);
    r.auth = Some("a:b:c".to_string());
    assert_eq!(
        run(r).daemon_auth.get_auth(),
        Auth::UserPass("a".to_string(), "b:c".to_string())
    );
    let mut r = raw(ElectrsNetwork::DigiByte);
    r.auth = Some(":".to_string());
    assert_eq!(run(r).daemon_auth.get_auth(), Auth::UserPass(String::new(), String::new()));
}

#[test]
fn auth_without_colon_is_refused() {
    let mut r = raw(ElectrsNetwork::DigiByte);
    r.auth = Some("userpass".to_string());
    assert!(matches!(refuse(r, true), ConfigError::AuthWithoutColon));
}

#[test]
fn auth_and_cookie_file_together_are_refused() {
    let mut r = raw(ElectrsNetwork::DigiByte);
    r.auth = Some("u:p".to_string());
    r.cookie_file = Some("/c".to_string());
    assert!(matches!(refuse(r, true), ConfigError::AmbiguousAuth));
}

#[test]
fn timeout_must_exceed_wait() {
    let mut r = raw(ElectrsNetwork::DigiByte);
    r.jsonrpc_timeout_secs = 10;
    match refuse(r, true) {
        ConfigError::TimeoutNotAboveWait { jsonrpc_timeout_secs, wait_duration_secs } => {
            assert_eq!((jsonrpc_timeout_secs, wait_duration_secs), (10, 10));
        }
        _ => panic!("wrong error"),
    }
}

#[test]
fn deprecated_options_are_refused() {
    let mut r = raw(ElectrsNetwork::DigiByte);
    r.timestamp = true;
    r.verbose = 2;
    match refuse(r, true) {
        ConfigError::DeprecatedOptions { timestamp, verbose } => assert!(timestamp && verbose),
        _ => panic!("wrong error"),
    }
    let mut r = raw(ElectrsNetwork::DigiByte);
    r.verbose = 1;
    match refuse(r, true) {
        ConfigError::DeprecatedOptions { timestamp, verbose } => assert!(!timestamp && verbose),
        _ => panic!("wrong error"),
    }
}

#[test]
fn monitoring_address_needs_metrics() {
    let mut r = raw(ElectrsNetwork::DigiByte);
    r.monitoring_addr = lookup("0.0.0.0:4225", Ok(vec![v4(0, 4225)]));
    assert!(matches!(refuse(r, false), ConfigError::MonitoringWithoutMetrics));
    let r = raw(ElectrsNetwork::DigiByte);
    assert!(decide(r, false).is_ok());
}

#[test]
fn unresolvable_addresses_are_refused() {
    let mut r = raw(ElectrsNetwork::DigiByte);
    r.daemon_p2p_addr = lookup("nowhere:1", Ok(vec![]));
    match refuse(r, true) {
        ConfigError::Address(e) => {
            assert!(matches!(&e, AddressError::NoAddrError(a) if a == "nowhere:1"));
            assert_eq!(e.message(), "No address found for nowhere:1");
        }
        _ => panic!("wrong error"),
    }
    let mut r = raw(ElectrsNetwork::DigiByte);
    r.electrum_rpc_addr =
        lookup("bad:1", Err(std::io::Error::new(std::io::ErrorKind::Other, "lookup failed")));
    match refuse(r, true) {
        ConfigError::Address(e) => {
            assert!(matches!(&e, AddressError::ResolvError { addr, .. } if addr == "bad:1"));
            assert_eq!(e.message(), "Failed to resolve address bad:1: lookup failed");
        }
        _ => panic!("wrong error"),
    }
}

#[test]
fn first_failing_check_decides() {
    let mut r = raw(ElectrsNetwork::DigiByte);
    r.signet_magic = Some("00000000".to_string());
    r.auth = Some("nocolon".to_string());
    r.daemon_rpc_addr = lookup("nowhere:1", Ok(vec![]));
    assert!(matches!(refuse(r, true), ConfigError::SignetMagicNotOnSignet));
    let mut r = raw(ElectrsNetwork::DigiByte);
    r.auth = Some("nocolon".to_string());
    r.jsonrpc_timeout_secs = 1;
    assert!(matches!(refuse(r, true), ConfigError::AuthWithoutColon));
}

#[test]
fn version_is_shown_only_for_an_accepted_configuration() {
    let mut r = raw(ElectrsNetwork::DigiByte);
    r.version = true;
    assert!(matches!(decide(r, true), Ok(Startup::ShowVersion)));
    let mut r = raw(ElectrsNetwork::DigiByte);
    r.version = true;
    r.jsonrpc_timeout_secs = 1;
    assert!(matches!(refuse(r, true), ConfigError::TimeoutNotAboveWait { .. }));
}

#[test]
fn index_lookup_limit_zero_means_none() {
    let mut r = raw(ElectrsNetwork::DigiByte);
    r.index_lookup_limit = 5;
    assert_eq!(run(r).index_lookup_limit, Some(5));
}

fn all_networks() -> Vec<ElectrsNetwork> {
    vec![
        ElectrsNetwork::Bitcoin(Network::Bitcoin),
        ElectrsNetwork::Bitcoin(Network::Testnet),
        ElectrsNetwork::Bitcoin(Network::Testnet4),
        ElectrsNetwork::Bitcoin(Network::Signet),
        ElectrsNetwork::Bitcoin(Network::Regtest),
        ElectrsNetwork::DigiByte,
    ]
}

#[test]
fn each_network_has_its_own_db_subdir_and_magic() {
    let nets = all_networks();
    for (i, a) in nets.iter().enumerate() {
        for b in nets.iter().skip(i + 1) {
            assert_ne!(a.db_subdir(), b.db_subdir());
            assert_ne!(run(raw(*a)).signet_magic, run(raw(*b)).signet_magic);
        }
    }
}

#[test]
fn cookie_path_shows_as_a_path() {
    let auth = Auth::CookieFile("/home/o'b/.cookie".to_string());
    assert_eq!(
        SensitiveAuth(auth).debug_string(),
        format!("CookieFile({:?})", std::path::Path::new("/home/o'b/.cookie"))
    );
}

#[test]
fn debug_forms_from_quoted_parts() {
    assert_eq!(cookie_file_debug("\"/x\""), "CookieFile(\"/x\")");
    assert_eq!(user_pass_debug("\"u\""), "UserPass(\"u\", \"<sensitive>\")");
}

#[test]
fn address_error_texts() {
    assert_eq!(resolve_error_message("x:1", "boom"), "Failed to resolve address x:1: boom");
    assert_eq!(no_address_message("x:1"), "No address found for x:1");
    let e = AddressError::ResolvError {
        addr: "x:1".to_string(),
        err: std::io::Error::new(std::io::ErrorKind::Other, "boom"),
    };
    assert_eq!(e.message(), "Failed to resolve address x:1: boom");
}

#[test]
fn lookups_are_asked_for_in_checking_order() {
    let mut r = raw(ElectrsNetwork::DigiByte);
    r.daemon_p2p_addr = pending("p2p:1");
    r.monitoring_addr = pending("mon:1");
    assert_eq!(next_lookup(&r, true), Some(AddressField::DaemonP2p));
    let (mut r, field) = requested(r, true);
    assert_eq!(field, AddressField::DaemonP2p);
    r.daemon_p2p_addr.as_mut().unwrap().outcome = Some(Ok(vec![v4(5, 1)]));
    let (mut r, field) = requested(r, true);
    assert_eq!(field, AddressField::Monitoring);
    r.monitoring_addr.as_mut().unwrap().outcome = Some(Ok(vec![v4(6, 2)]));
    let config = match decide(r, true) {
        Ok(Startup::Run { config, .. }) => config,
        _ => panic!("configuration refused"),
    };
    assert_eq!(config.daemon_p2p_addr, v4(5, 1));
    assert_eq!(config.monitoring_addr, v4(6, 2));
}

#[test]
fn no_lookup_after_a_failure() {
    let mut r = raw(ElectrsNetwork::DigiByte);
    r.daemon_rpc_addr = lookup("nowhere:1", Ok(vec![]));
    r.daemon_p2p_addr = pending("p2p:1");
    assert_eq!(next_lookup(&r, true), None);
    assert!(matches!(refuse(r, true), ConfigError::Address(AddressError::NoAddrError(_))));

    let mut r = raw(ElectrsNetwork::DigiByte);
    r.signet_magic = Some("00000000".to_string());
    r.daemon_rpc_addr = pending("rpc:1");
    assert_eq!(next_lookup(&r, true), None);
    assert!(matches!(refuse(r, true), ConfigError::SignetMagicNotOnSignet));
}

#[test]
fn monitoring_address_without_metrics_is_not_looked_up() {
    let mut r = raw(ElectrsNetwork::DigiByte);
    r.monitoring_addr = pending("mon:1");
    assert_eq!(next_lookup(&r, false), None);
    assert!(matches!(refuse(r, false), ConfigError::MonitoringWithoutMetrics));
}

#[test]
fn accepted_durations_are_ordered() {
    let config = run(raw(ElectrsNetwork::DigiByte));
    assert!(config.jsonrpc_timeout > config.wait_duration);
    assert_eq!(config.jsonrpc_timeout.subsec_nanos(), 0);
}

#[test]
fn signet_magic_acceptance() {
    let signet = ElectrsNetwork::Bitcoin(Network::Signet);
    assert!(signet_magic_accepted(signet, &None));
    assert!(signet_magic_accepted(signet, &Some("0a03cf40".to_string())));
    assert!(!signet_magic_accepted(signet, &Some("0a03cf4".to_string())));
    assert!(!signet_magic_accepted(ElectrsNetwork::DigiByte, &Some("0a03cf40".to_string())));
    assert!(signet_magic_accepted(ElectrsNetwork::DigiByte, &None));
}
