use vstd::prelude::*;
use vstd::string::*;

verus! {

/// The Bitcoin networks the server knows, as in `bitcoin::Network`.
#[derive(Clone, Copy, Debug, PartialEq, Eq, Structural)]
pub enum Network {
    Bitcoin,
    Testnet,
    Testnet4,
    Signet,
    Regtest,
}

/// The network the server indexes: one of Bitcoin's, or DigiByte.
#[derive(Clone, Copy, Debug, PartialEq, Eq, Structural)]
pub enum ElectrsNetwork {
    Bitcoin(Network),
    DigiByte,
}

/// The four magic bytes that start every peer-to-peer message of a network.
#[derive(Clone, Copy, Debug, PartialEq, Eq)]
pub struct Magic(pub [u8; 4]);

/// The error of `bitcoin::p2p::Magic::from_str` on a string that is not
/// eight hexadecimal digits.
#[verifier::external_type_specification]
#[verifier::external_body]
pub struct ExParseMagicError(bitcoin::p2p::ParseMagicError);

/// The network that `bitcoin::Network::from_str` gives for a name.
pub open spec fn network_from_name(s: Seq<char>) -> Option<Network> {
    if s == "bitcoin"@ {
        Some(Network::Bitcoin)
    } else if s == "testnet"@ {
        Some(Network::Testnet)
    } else if s == "testnet4"@ {
        Some(Network::Testnet4)
    } else if s == "signet"@ {
        Some(Network::Signet)
    } else if s == "regtest"@ {
        Some(Network::Regtest)
    } else {
        None
    }
}

/// The text of the error that `bitcoin::Network::from_str` gives for a name it
/// does not know.
pub open spec fn network_parse_error_text(s: Seq<char>) -> Seq<char> {
    "failed to parse "@ + s + " as network"@
}

/// Calls `bitcoin::Network::from_str`. As its source shows, it knows exactly
/// the names "bitcoin", "testnet", "testnet4", "signet" and "regtest" (case
/// matters), and its error displays as "failed to parse <s> as network"; the
/// error is handed back as that text.
#[verifier::external_body]
fn bitcoin_network_from_str(s: &str) -> (r: Result<Network, String>)
    ensures
        match r {
            Ok(n) => network_from_name(s@) == Some(n),
            Err(e) => network_from_name(s@) is None && e@ == network_parse_error_text(s@),
        },
{
    match s.parse::<bitcoin::Network>() {
        Ok(bitcoin::Network::Bitcoin) => Ok(Network::Bitcoin),
        Ok(bitcoin::Network::Testnet) => Ok(Network::Testnet),
        Ok(bitcoin::Network::Testnet4) => Ok(Network::Testnet4),
        Ok(bitcoin::Network::Signet) => Ok(Network::Signet),
        Ok(bitcoin::Network::Regtest) => Ok(Network::Regtest),
        Err(e) => Err(e.to_string()),
    }
}

/// The magic bytes of each Bitcoin network, as `bitcoin::Network::magic` gives them.
pub open spec fn network_magic_bytes(n: Network) -> Seq<u8> {
    match n {
        Network::Bitcoin => seq![0xf9u8, 0xbeu8, 0xb4u8, 0xd9u8],
        Network::Testnet => seq![0x0bu8, 0x11u8, 0x09u8, 0x07u8],
        Network::Testnet4 => seq![0x1cu8, 0x16u8, 0x3fu8, 0x28u8],
        Network::Signet => seq![0x0au8, 0x03u8, 0xcfu8, 0x40u8],
        Network::Regtest => seq![0xfau8, 0xbfu8, 0xb5u8, 0xdau8],
    }
}

/// Calls `bitcoin::Network::magic`, which, as its source shows, gives the
/// constant magic bytes of each network listed in `network_magic_bytes`.
#[verifier::external_body]
pub(crate) fn bitcoin_network_magic(n: Network) -> (m: Magic)
    ensures
        m.0@ == network_magic_bytes(n),
{
    let network = match n {
        Network::Bitcoin => bitcoin::Network::Bitcoin,
        Network::Testnet => bitcoin::Network::Testnet,
        Network::Testnet4 => bitcoin::Network::Testnet4,
        Network::Signet => bitcoin::Network::Signet,
        Network::Regtest => bitcoin::Network::Regtest,
    };
    Magic(network.magic().to_bytes())
}

/// The value of a hexadecimal digit (either case), if `c` is one.
pub open spec fn hex_digit_value(c: char) -> Option<int> {
    let x = c as int;
    if 48 <= x <= 57 {
        Some(x - 48)
    } else if 97 <= x <= 102 {
        Some(x - 87)
    } else if 65 <= x <= 70 {
        Some(x - 55)
    } else {
        None
    }
}

/// Whether `s` is exactly eight hexadecimal digits.
pub open spec fn is_hex_magic(s: Seq<char>) -> bool {
    s.len() == 8 && forall|i: int| 0 <= i < 8 ==> (#[trigger] hex_digit_value(s[i])) is Some
}

/// The bytes that eight hexadecimal digits spell, two digits a byte, high digit first.
pub open spec fn hex_magic_bytes(s: Seq<char>) -> Seq<u8> {
    Seq::new(
        4,
        |i: int|
            (hex_digit_value(s[2 * i])->0 * 16 + hex_digit_value(s[2 * i + 1])->0) as u8,
    )
}

/// Calls `bitcoin::p2p::Magic::from_str`. As its source (and that of
/// `hex_conservative`'s `FromHex` for `[u8; 4]`) shows, it succeeds exactly on
/// eight hexadecimal digits of either case and decodes them two a byte, high
/// digit first; otherwise it gives its error.
#[verifier::external_body]
pub(crate) fn bitcoin_magic_from_str(s: &str) -> (r: Result<Magic, bitcoin::p2p::ParseMagicError>)
    ensures
        r is Ok <==> is_hex_magic(s@),
        r matches Ok(m) ==> m.0@ == hex_magic_bytes(s@),
{
    match s.parse::<bitcoin::p2p::Magic>() {
        Ok(m) => Ok(Magic(m.to_bytes())),
        Err(e) => Err(e),
    }
}

/// The code of a character with ASCII capitals folded to small letters.
pub open spec fn ascii_lower_code(c: char) -> u32 {
    let x = c as u32;
    if 65 <= x <= 90 {
        (x + 32) as u32
    } else {
        x
    }
}

/// Whether two strings are equal up to the case of ASCII letters.
pub open spec fn eq_ignore_ascii_case_spec(a: Seq<char>, b: Seq<char>) -> bool {
    a.len() == b.len() && forall|i: int|
        0 <= i < a.len() ==> ascii_lower_code(#[trigger] a[i]) == ascii_lower_code(b[i])
}

fn lower_code(c: char) -> (r: u32)
    ensures
        r == ascii_lower_code(c),
{
    let x = c as u32;
    if 65 <= x && x <= 90 {
        x + 32
    } else {
        x
    }
}

/// Compares two strings, ignoring the case of ASCII letters.
pub fn eq_ignore_ascii_case(a: &str, b: &str) -> (r: bool)
    ensures
        r == eq_ignore_ascii_case_spec(a@, b@),
{
    let n = a.unicode_len();
    let m = b.unicode_len();
    if n != m {
        return false;
    }
    let mut i: usize = 0;
    while i < n
        invariant
            n == a@.len(),
            m == b@.len(),
            n == m,
            i <= n,
            forall|j: int| 0 <= j < i ==> ascii_lower_code(#[trigger] a@[j]) == ascii_lower_code(b@[j]),
        decreases n - i,
    {
        if lower_code(a.get_char(i)) != lower_code(b.get_char(i)) {
            return false;
        }
        i = i + 1;
    }
    true
}

/// What `ElectrsNetwork::from_str` gives for a name: DigiByte for "digibyte"
/// or "dgb" in any ASCII case, else the Bitcoin network of that exact name,
/// else the text of the error.
pub open spec fn electrs_network_from_name(s: Seq<char>) -> Result<ElectrsNetwork, Seq<char>> {
    if eq_ignore_ascii_case_spec(s, "digibyte"@) || eq_ignore_ascii_case_spec(s, "dgb"@) {
        Ok(ElectrsNetwork::DigiByte)
    } else {
        match network_from_name(s) {
            Some(n) => Ok(ElectrsNetwork::Bitcoin(n)),
            None => Err(network_parse_error_text(s)),
        }
    }
}

impl ElectrsNetwork {
    /// Parses a network name.
    pub fn from_str(string: &str) -> (r: Result<ElectrsNetwork, String>)
        ensures
            match r {
                Ok(n) => electrs_network_from_name(string@) == Ok::<ElectrsNetwork, Seq<char>>(n),
                Err(e) => electrs_network_from_name(string@) == Err::<ElectrsNetwork, Seq<char>>(e@),
            },
    {
        if eq_ignore_ascii_case(string, "digibyte") || eq_ignore_ascii_case(string, "dgb") {
            return Ok(ElectrsNetwork::DigiByte);
        }
        match bitcoin_network_from_str(string) {
            Ok(n) => Ok(ElectrsNetwork::Bitcoin(n)),
            Err(e) => Err(e),
        }
    }
}

/// The Bitcoin network whose rules DigiByte borrows until it has its own.
pub open spec fn as_bitcoin_network(n: ElectrsNetwork) -> Network {
    match n {
        ElectrsNetwork::Bitcoin(network) => network,
        ElectrsNetwork::DigiByte => Network::Bitcoin,
    }
}

impl Default for ElectrsNetwork {
    /// Bitcoin mainnet.
    fn default() -> (r: Self)
        ensures
            r == ElectrsNetwork::Bitcoin(Network::Bitcoin),
    {
        ElectrsNetwork::Bitcoin(Network::Bitcoin)
    }
}

impl From<ElectrsNetwork> for Network {
    fn from(network: ElectrsNetwork) -> (r: Network) {
        match network {
            ElectrsNetwork::Bitcoin(network) => network,
            ElectrsNetwork::DigiByte => Network::Bitcoin,
        }
    }
}

impl vstd::std_specs::convert::FromSpecImpl<ElectrsNetwork> for Network {
    open spec fn obeys_from_spec() -> bool {
        true
    }

    open spec fn from_spec(v: ElectrsNetwork) -> Network {
        as_bitcoin_network(v)
    }
}

/// The per-network defaults: the subdirectory of the database directory, the
/// ports of the daemon's RPC and peer-to-peer interfaces, of the Electrum RPC
/// interface and of the monitoring interface, and the subdirectory of the
/// daemon's data directory (none for mainnet and DigiByte).
pub open spec fn db_subdir_spec(n: ElectrsNetwork) -> Seq<char> {
    match n {
        ElectrsNetwork::Bitcoin(Network::Bitcoin) => "bitcoin"@,
        ElectrsNetwork::Bitcoin(Network::Testnet) => "testnet"@,
        ElectrsNetwork::Bitcoin(Network::Testnet4) => "testnet4"@,
        ElectrsNetwork::Bitcoin(Network::Regtest) => "regtest"@,
        ElectrsNetwork::Bitcoin(Network::Signet) => "signet"@,
        ElectrsNetwork::DigiByte => "digibyte"@,
    }
}

pub open spec fn daemon_rpc_port_spec(n: ElectrsNetwork) -> u16 {
    match n {
        ElectrsNetwork::Bitcoin(Network::Bitcoin) => 8332,
        ElectrsNetwork::Bitcoin(Network::Testnet) => 18332,
        ElectrsNetwork::Bitcoin(Network::Testnet4) => 48332,
        ElectrsNetwork::Bitcoin(Network::Regtest) => 18443,
        ElectrsNetwork::Bitcoin(Network::Signet) => 38332,
        ElectrsNetwork::DigiByte => 14022,
    }
}

pub open spec fn daemon_p2p_port_spec(n: ElectrsNetwork) -> u16 {
    match n {
        ElectrsNetwork::Bitcoin(Network::Bitcoin) => 8333,
        ElectrsNetwork::Bitcoin(Network::Testnet) => 18333,
        ElectrsNetwork::Bitcoin(Network::Testnet4) => 48333,
        ElectrsNetwork::Bitcoin(Network::Regtest) => 18444,
        ElectrsNetwork::Bitcoin(Network::Signet) => 38333,
        ElectrsNetwork::DigiByte => 12024,
    }
}

pub open spec fn electrum_port_spec(n: ElectrsNetwork) -> u16 {
    match n {
        ElectrsNetwork::Bitcoin(Network::Bitcoin) => 50001,
        ElectrsNetwork::Bitcoin(Network::Testnet) => 60001,
        ElectrsNetwork::Bitcoin(Network::Testnet4) => 40001,
        ElectrsNetwork::Bitcoin(Network::Regtest) => 60401,
        ElectrsNetwork::Bitcoin(Network::Signet) => 60601,
        ElectrsNetwork::DigiByte => 50001,
    }
}

pub open spec fn monitoring_port_spec(n: ElectrsNetwork) -> u16 {
    match n {
        ElectrsNetwork::Bitcoin(Network::Bitcoin) => 4224,
        ElectrsNetwork::Bitcoin(Network::Testnet) => 14224,
        ElectrsNetwork::Bitcoin(Network::Testnet4) => 44224,
        ElectrsNetwork::Bitcoin(Network::Regtest) => 24224,
        ElectrsNetwork::Bitcoin(Network::Signet) => 34224,
        ElectrsNetwork::DigiByte => 4225,
    }
}

pub open spec fn daemon_subdir_spec(n: ElectrsNetwork) -> Option<Seq<char>> {
    match n {
        ElectrsNetwork::Bitcoin(Network::Bitcoin) => None,
        ElectrsNetwork::Bitcoin(Network::Testnet) => Some("testnet3"@),
        ElectrsNetwork::Bitcoin(Network::Testnet4) => Some("testnet4"@),
        ElectrsNetwork::Bitcoin(Network::Regtest) => Some("regtest"@),
        ElectrsNetwork::Bitcoin(Network::Signet) => Some("signet"@),
        ElectrsNetwork::DigiByte => None,
    }
}

impl ElectrsNetwork {
    /// The subdirectory of the database directory that holds this network's index.
    pub fn db_subdir(self) -> (r: &'static str)
        ensures
            r@ == db_subdir_spec(self),
    {
        match self {
            ElectrsNetwork::Bitcoin(Network::Bitcoin) => "bitcoin",
            ElectrsNetwork::Bitcoin(Network::Testnet) => "testnet",
            ElectrsNetwork::Bitcoin(Network::Testnet4) => "testnet4",
            ElectrsNetwork::Bitcoin(Network::Regtest) => "regtest",
            ElectrsNetwork::Bitcoin(Network::Signet) => "signet",
            ElectrsNetwork::DigiByte => "digibyte",
        }
    }

    /// The default port of the daemon's JSON-RPC interface.
    pub fn default_daemon_rpc_port(self) -> (r: u16)
        ensures
            r == daemon_rpc_port_spec(self),
    {
        match self {
            ElectrsNetwork::Bitcoin(Network::Bitcoin) => 8332,
            ElectrsNetwork::Bitcoin(Network::Testnet) => 18332,
            ElectrsNetwork::Bitcoin(Network::Testnet4) => 48332,
            ElectrsNetwork::Bitcoin(Network::Regtest) => 18443,
            ElectrsNetwork::Bitcoin(Network::Signet) => 38332,
            ElectrsNetwork::DigiByte => 14022,
        }
    }

    /// The default port of the daemon's peer-to-peer interface.
    pub fn default_daemon_p2p_port(self) -> (r: u16)
        ensures
            r == daemon_p2p_port_spec(self),
    {
        match self {
            ElectrsNetwork::Bitcoin(Network::Bitcoin) => 8333,
            ElectrsNetwork::Bitcoin(Network::Testnet) => 18333,
            ElectrsNetwork::Bitcoin(Network::Testnet4) => 48333,
            ElectrsNetwork::Bitcoin(Network::Regtest) => 18444,
            ElectrsNetwork::Bitcoin(Network::Signet) => 38333,
            ElectrsNetwork::DigiByte => 12024,
        }
    }

    /// The default port the Electrum RPC server listens on.
    pub fn default_electrum_port(self) -> (r: u16)
        ensures
            r == electrum_port_spec(self),
    {
        match self {
            ElectrsNetwork::Bitcoin(Network::Bitcoin) => 50001,
            ElectrsNetwork::Bitcoin(Network::Testnet) => 60001,
            ElectrsNetwork::Bitcoin(Network::Testnet4) => 40001,
            ElectrsNetwork::Bitcoin(Network::Regtest) => 60401,
            ElectrsNetwork::Bitcoin(Network::Signet) => 60601,
            ElectrsNetwork::DigiByte => 50001,
        }
    }

    /// The default port the monitoring server listens on.
    pub fn default_monitoring_port(self) -> (r: u16)
        ensures
            r == monitoring_port_spec(self),
    {
        match self {
            ElectrsNetwork::Bitcoin(Network::Bitcoin) => 4224,
            ElectrsNetwork::Bitcoin(Network::Testnet) => 14224,
            ElectrsNetwork::Bitcoin(Network::Testnet4) => 44224,
            ElectrsNetwork::Bitcoin(Network::Regtest) => 24224,
            ElectrsNetwork::Bitcoin(Network::Signet) => 34224,
            ElectrsNetwork::DigiByte => 4225,
        }
    }

    /// The subdirectory of the daemon's data directory that this network uses, if any.
    pub fn daemon_subdir(self) -> (r: Option<&'static str>)
        ensures
            match r {
                Some(s) => daemon_subdir_spec(self) == Some(s@),
                None => daemon_subdir_spec(self) is None,
            },
    {
        match self {
            ElectrsNetwork::Bitcoin(Network::Bitcoin) => None,
            ElectrsNetwork::Bitcoin(Network::Testnet) => Some("testnet3"),
            ElectrsNetwork::Bitcoin(Network::Testnet4) => Some("testnet4"),
            ElectrsNetwork::Bitcoin(Network::Regtest) => Some("regtest"),
            ElectrsNetwork::Bitcoin(Network::Signet) => Some("signet"),
            ElectrsNetwork::DigiByte => None,
        }
    }

    /// The phrase that describes the accepted values in help texts.
    pub fn describe_type() -> (r: &'static str)
        ensures
            r@ == "either 'bitcoin', 'testnet', 'testnet4', 'regtest', 'signet' or 'digibyte'"@,
    {
        "either 'bitcoin', 'testnet', 'testnet4', 'regtest', 'signet' or 'digibyte'"
    }
}

} // verus!
