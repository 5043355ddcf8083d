//! The subnet scan: which hosts of the local IPv4 network to probe, and the
//! result that pairs each of them with its probe's outcome.

use vstd::prelude::*;
use vstd::arithmetic::power2::{pow2, lemma_pow2_adds, lemma_pow2_pos, lemma2_to64};
use vstd::arithmetic::div_mod::lemma_fundamental_div_mod;

verus! {

/// Port probed on every host of the subnet.
pub const PROBE_PORT: u16 = 8888;

/// How long one probe may take, in seconds.
pub const PROBE_TIMEOUT_SECS: u64 = 1;

/// The error of `ipnet::Ipv4Net::new`, for a prefix length over 32.
#[verifier::external_type_specification]
#[verifier::external_body]
pub struct ExPrefixLenError(ipnet::PrefixLenError);

/// Why a scan could not start.
#[derive(PartialEq, Eq, Structural, Clone, Copy, Debug)]
pub enum ScanError {
    /// The interface has no IPv4 address.
    NoIpv4Address,
    /// The prefix length is over 32.
    InvalidPrefix,
}

/// The number of addresses in a network with this prefix length.
pub open spec fn block_size(prefix_len: u8) -> int {
    pow2((32 - prefix_len) as nat) as int
}

/// The network address: `addr` with its host bits cleared.
pub open spec fn network_start(addr: u32, prefix_len: u8) -> int {
    (addr as int / block_size(prefix_len)) * block_size(prefix_len)
}

/// The first usable host: past the network address unless the prefix is 31
/// or 32, where every address is a host.
pub open spec fn first_host(addr: u32, prefix_len: u8) -> int {
    if prefix_len < 31 {
        network_start(addr, prefix_len) + 1
    } else {
        network_start(addr, prefix_len)
    }
}

/// The number of usable hosts in a network with this prefix length.
pub open spec fn usable_host_count(prefix_len: u8) -> int {
    if prefix_len < 31 {
        block_size(prefix_len) - 2
    } else {
        block_size(prefix_len)
    }
}

/// The usable hosts of the network of `addr`, in increasing order: all its
/// addresses but the network and broadcast addresses when the prefix is
/// under 31.
pub open spec fn host_addresses(addr: u32, prefix_len: u8) -> Seq<u32> {
    Seq::new(usable_host_count(prefix_len) as nat, |i: int| (first_host(addr, prefix_len) + i) as u32)
}

/// Relies on `ipnet::Ipv4Net::new`, which refuses a prefix length over 32,
/// and on the addresses that its `hosts` iterator yields.
#[verifier::external_body]
fn network_hosts(addr: u32, prefix_len: u8) -> (r: Result<Vec<u32>, ipnet::PrefixLenError>)
    ensures
        r is Err <==> prefix_len > 32,
        r matches Ok(h) ==> h@ == host_addresses(addr, prefix_len),
{
    match ipnet::Ipv4Net::new(addr.into(), prefix_len) {
        Ok(net) => Ok(net.hosts().map(u32::from).collect()),
        Err(e) => Err(e),
    }
}

/// The hosts to probe, given the interface's IPv4 addresses with their
/// prefix lengths: those of the network of the first address.
pub fn scan_targets(ipv4: &Vec<(u32, u8)>) -> (r: Result<Vec<u32>, ScanError>)
    ensures
        ipv4@.len() == 0 ==> r == Err::<Vec<u32>, ScanError>(ScanError::NoIpv4Address),
        ipv4@.len() > 0 ==> match r {
            Ok(h) => ipv4@[0].1 <= 32 && h@ == host_addresses(ipv4@[0].0, ipv4@[0].1),
            Err(e) => ipv4@[0].1 > 32 && e == ScanError::InvalidPrefix,
        },
{
    if ipv4.len() == 0 {
        return Err(ScanError::NoIpv4Address);
    }
    let (addr, prefix_len) = ipv4[0];
    match network_hosts(addr, prefix_len) {
        Ok(h) => Ok(h),
        Err(_) => Err(ScanError::InvalidPrefix),
    }
}

/// The scan's result: each host paired with whether its probe connected.
pub fn scan_result(hosts: &Vec<u32>, reachable: &Vec<bool>) -> (r: Vec<(u32, bool)>)
    requires
        hosts@.len() == reachable@.len(),
    ensures
        r@.len() == hosts@.len(),
        forall|i: int| 0 <= i < r@.len() ==> #[trigger] r@[i] == (hosts@[i], reachable@[i]),
{
    let mut r: Vec<(u32, bool)> = Vec::new();
    let mut i: usize = 0;
    while i < hosts.len()
        invariant
            hosts@.len() == reachable@.len(),
            i <= hosts@.len(),
            r@.len() == i,
            forall|j: int| 0 <= j < i ==> #[trigger] r@[j] == (hosts@[j], reachable@[j]),
        decreases hosts@.len() - i,
    {
        r.push((hosts[i], reachable[i]));
        i = i + 1;
    }
    r
}

/// A scan over a network with N usable hosts probes N addresses, each of
/// them once: the host list has N entries and no address twice.
pub proof fn lemma_hosts_listed_once(addr: u32, prefix_len: u8)
    requires
        prefix_len <= 32,
    ensures
        host_addresses(addr, prefix_len).len() == usable_host_count(prefix_len),
        host_addresses(addr, prefix_len).no_duplicates(),
        forall|i: int| 0 <= i < host_addresses(addr, prefix_len).len() ==>
            #[trigger] host_addresses(addr, prefix_len)[i] == first_host(addr, prefix_len) + i,
{
    let k = (32 - prefix_len) as nat;
    let m = prefix_len as nat;
    let b = block_size(prefix_len);
    lemma_pow2_adds(k, m);
    lemma2_to64();
    assert(k + m == 32);
    lemma_pow2_pos(k);
    lemma_pow2_pos(m);
    let q = addr as int / b;
    lemma_fundamental_div_mod(addr as int, b);
    let big = pow2(m) as int;
    assert(b * big == 0x1_0000_0000);
    assert(q < big) by (nonlinear_arith)
        requires
            addr as int == b * q + addr as int % b,
            0 <= addr as int % b,
            addr < b * big,
            b > 0,
    ;
    assert(q * b + b <= big * b) by (nonlinear_arith)
        requires
            q < big,
            b > 0,
    ;
    assert(q >= 0) by (nonlinear_arith)
        requires
            addr as int == b * q + addr as int % b,
            addr as int % b < b,
            addr >= 0,
            b > 0,
    ;
    if prefix_len < 31 {
        lemma_pow2_adds(2, (k - 2) as nat);
        lemma_pow2_pos((k - 2) as nat);
        assert(2 + (k - 2) as nat == k);
        assert(b == 4 * pow2((k - 2) as nat));
        assert(b >= 4);
    }
    assert(network_start(addr, prefix_len) == q * b);
    let s = host_addresses(addr, prefix_len);
    let f = first_host(addr, prefix_len);
    assert(big * b == b * big) by (nonlinear_arith);
    assert(q * b >= 0) by (nonlinear_arith)
        requires
            q >= 0,
            b > 0,
    ;
    assert(q * b + b <= 0x1_0000_0000);
    assert(0 <= f);
    assert(f + usable_host_count(prefix_len) <= 0x1_0000_0000);
    assert forall|i: int| 0 <= i < s.len() implies #[trigger] s[i] == f + i by {}
    assert forall|i: int, j: int| 0 <= i < s.len() && 0 <= j < s.len() && i != j implies s[i] != s[j] by {
        assert(s[i] == f + i);
        assert(s[j] == f + j);
    }
}

} // verus!
