use vstd::prelude::*;
use vstd::string::*;

verus! {

/// The error of a failed name lookup, as `std` reports it.
#[verifier::external_type_specification]
#[verifier::external_body]
pub struct ExIoError(std::io::Error);

/// A socket address as plain values: an IPv4 address as a 32-bit number in
/// network order (`a.b.c.d` is `a << 24 | b << 16 | c << 8 | d`), an IPv6
/// address as a 128-bit number, a port and, for IPv6, the flow info and scope id.
#[derive(Clone, Copy, Debug, PartialEq, Eq, Structural)]
pub enum SocketAddress {
    V4 { ip: u32, port: u16 },
    V6 { ip6: u128, port: u16, flowinfo: u32, scope_id: u32 },
}

impl SocketAddress {
    /// Whether this is an IPv4 address.
    pub fn is_ipv4(&self) -> (r: bool)
        ensures
            r == (*self is V4),
    {
        match self {
            SocketAddress::V4 { .. } => true,
            SocketAddress::V6 { .. } => false,
        }
    }
}

/// The first IPv4 address of a list, if any.
pub open spec fn first_ipv4(s: Seq<SocketAddress>) -> Option<SocketAddress>
    decreases s.len(),
{
    if s.len() == 0 {
        None
    } else if s[0] is V4 {
        Some(s[0])
    } else {
        first_ipv4(s.drop_first())
    }
}

/// The address picked out of the results of a name lookup: the first IPv4
/// address if there is one, else the first address, else none.
pub open spec fn preferred_address(s: Seq<SocketAddress>) -> Option<SocketAddress> {
    match first_ipv4(s) {
        Some(a) => Some(a),
        None => if s.len() == 0 {
            None
        } else {
            Some(s[0])
        },
    }
}

proof fn lemma_first_ipv4_step(s: Seq<SocketAddress>, k: int)
    requires
        0 <= k < s.len(),
        !(s[k] is V4),
    ensures
        first_ipv4(s.subrange(k, s.len() as int)) == first_ipv4(s.subrange(k + 1, s.len() as int)),
{
    let t = s.subrange(k, s.len() as int);
    assert(t[0] == s[k]);
    assert(t.drop_first() =~= s.subrange(k + 1, s.len() as int));
}

/// Picks the address to use out of the results of a name lookup.
pub fn select_resolved_addr(addresses: Vec<SocketAddress>) -> (r: Option<SocketAddress>)
    ensures
        r == preferred_address(addresses@),
{
    let ghost s = addresses@;
    let mut fallback: Option<SocketAddress> = None;
    let mut i: usize = 0;
    assert(s.subrange(0, s.len() as int) =~= s);
    while i < addresses.len()
        invariant
            s == addresses@,
            0 <= i <= s.len(),
            first_ipv4(s) == first_ipv4(s.subrange(i as int, s.len() as int)),
            fallback is None <==> i == 0,
            i > 0 ==> fallback == Some(s[0]),
        decreases s.len() - i,
    {
        let address = addresses[i];
        if address.is_ipv4() {
            let ghost t = s.subrange(i as int, s.len() as int);
            assert(t[0] == address);
            return Some(address);
        }
        proof {
            lemma_first_ipv4_step(s, i as int);
        }
        if fallback.is_none() {
            fallback = Some(address);
        }
        i = i + 1;
    }
    assert(s.subrange(i as int, s.len() as int).len() == 0);
    fallback
}

/// The selection prefers IPv4: when the lookup gave an IPv4 address, the
/// first of them is picked; when it gave only IPv6 addresses, the first one is
/// picked; nothing is picked only from an empty lookup.
pub proof fn lemma_preferred_address_prefers_ipv4(s: Seq<SocketAddress>)
    ensures
        preferred_address(s) is None <==> s.len() == 0,
        (exists|i: int| 0 <= i < s.len() && s[i] is V4) ==> exists|i: int|
            0 <= i < s.len() && s[i] is V4 && preferred_address(s) == Some(s[i]) && forall|j: int|
                0 <= j < i ==> !(s[j] is V4),
        (forall|i: int| 0 <= i < s.len() ==> !(s[i] is V4)) && s.len() > 0 ==> preferred_address(s)
            == Some(s[0]),
{
    lemma_first_ipv4_found(s);
}

proof fn lemma_first_ipv4_found(s: Seq<SocketAddress>)
    ensures
        (exists|i: int| 0 <= i < s.len() && s[i] is V4) ==> exists|i: int|
            0 <= i < s.len() && s[i] is V4 && first_ipv4(s) == Some(s[i]) && forall|j: int|
                0 <= j < i ==> !(s[j] is V4),
        (forall|i: int| 0 <= i < s.len() ==> !(s[i] is V4)) ==> first_ipv4(s) is None,
    decreases s.len(),
{
    if s.len() > 0 {
        let t = s.drop_first();
        lemma_first_ipv4_found(t);
        if s[0] is V4 {
            assert(first_ipv4(s) == Some(s[0]));
        } else {
            if exists|i: int| 0 <= i < s.len() && s[i] is V4 {
                let i = choose|i: int| 0 <= i < s.len() && s[i] is V4;
                assert(t[i - 1] == s[i]);
                let k = choose|k: int|
                    0 <= k < t.len() && t[k] is V4 && first_ipv4(t) == Some(t[k]) && forall|j: int|
                        0 <= j < k ==> !(t[j] is V4);
                assert(s[k + 1] == t[k]);
                assert forall|j: int| 0 <= j < k + 1 implies !(s[j] is V4) by {
                    if j > 0 {
                        assert(s[j] == t[j - 1]);
                    }
                }
            }
            if forall|i: int| 0 <= i < s.len() ==> !(s[i] is V4) {
                assert forall|i: int| 0 <= i < t.len() implies !(t[i] is V4) by {
                    assert(t[i] == s[i + 1]);
                }
            }
        }
    }
}

/// An address given as text, resolved when the configuration is put together.
pub struct ResolvAddr(pub String);

impl ResolvAddr {
    /// The phrase that describes such an argument in help texts.
    pub fn describe_type() -> (r: &'static str)
        ensures
            r@ == "a network address (will be resolved if needed)"@,
    {
        "a network address (will be resolved if needed)"
    }

    /// Resolves the address, given what looking the name up gave: the
    /// preferred address of the lookup, an error naming the address when the
    /// lookup gave none, or the lookup's own error.
    pub fn resolve(self, lookup: Result<Vec<SocketAddress>, std::io::Error>) -> (r: Result<
        SocketAddress,
        AddressError,
    >)
        ensures
            r == resolve_outcome(self, lookup),
    {
        match lookup {
            Ok(addresses) => match select_resolved_addr(addresses) {
                Some(address) => Ok(address),
                None => Err(AddressError::NoAddrError(self.0)),
            },
            Err(err) => Err(AddressError::ResolvError { addr: self.0, err }),
        }
    }
}

/// What resolving an address gives, for each outcome of its lookup.
pub open spec fn resolve_outcome(
    addr: ResolvAddr,
    lookup: Result<Vec<SocketAddress>, std::io::Error>,
) -> Result<SocketAddress, AddressError> {
    match lookup {
        Ok(v) => match preferred_address(v@) {
            Some(a) => Ok(a),
            None => Err(AddressError::NoAddrError(addr.0)),
        },
        Err(e) => Err(AddressError::ResolvError { addr: addr.0, err: e }),
    }
}

/// An address given in the configuration, with what looking its name up
/// gave once that is done (`None` until then).
pub struct AddressLookup {
    pub addr: ResolvAddr,
    pub outcome: Option<Result<Vec<SocketAddress>, std::io::Error>>,
}

impl AddressLookup {
    /// An address that is still to be looked up.
    pub fn pending(addr: ResolvAddr) -> (r: AddressLookup)
        ensures
            r.addr == addr,
            r.outcome is None,
    {
        AddressLookup { addr, outcome: None }
    }
}

/// Whether a lookup gave at least one address, i.e. resolving with it succeeds.
pub(crate) fn lookup_resolves(outcome: &Result<Vec<SocketAddress>, std::io::Error>, addr: &ResolvAddr) -> (r: bool)
    ensures
        r == (resolve_outcome(*addr, *outcome) is Ok),
{
    match outcome {
        Ok(addresses) => {
            proof {
                lemma_preferred_address_prefers_ipv4(addresses@);
            }
            addresses.len() > 0
        },
        Err(_) => false,
    }
}

/// An error that might happen when resolving an address.
pub enum AddressError {
    ResolvError { addr: String, err: std::io::Error },
    NoAddrError(String),
}

/// Calls `std::io::Error`'s `Display`; the text comes from the operating
/// system and is not stated.
#[verifier::external_body]
fn io_error_text(err: &std::io::Error) -> String {
    err.to_string()
}

/// The text of a failed lookup: the address and the lookup's own error text.
pub fn resolve_error_message(addr: &str, err_text: &str) -> (r: String)
    ensures
        r@ == "Failed to resolve address "@ + addr@ + ": "@ + err_text@,
{
    let mut r = String::from_str("Failed to resolve address ");
    r.append(addr);
    r.append(": ");
    r.append(err_text);
    r
}

/// The text of a lookup that gave no address.
pub fn no_address_message(addr: &str) -> (r: String)
    ensures
        r@ == "No address found for "@ + addr@,
{
    let mut r = String::from_str("No address found for ");
    r.append(addr);
    r
}

impl AddressError {
    /// The text that describes the error. For a failed lookup it is
    /// `resolve_error_message` of the address and the error's own text, which
    /// comes from the operating system.
    pub fn message(&self) -> (r: String)
        ensures
            match self {
                AddressError::NoAddrError(addr) => r@ == "No address found for "@ + addr@,
                AddressError::ResolvError { addr, err } => exists|t: Seq<char>|
                    r@ == "Failed to resolve address "@ + addr@ + ": "@ + t,
            },
    {
        match self {
            AddressError::NoAddrError(addr) => no_address_message(addr.as_str()),
            AddressError::ResolvError { addr, err } => {
                let text = io_error_text(err);
                resolve_error_message(addr.as_str(), text.as_str())
            },
        }
    }
}

} // verus!
