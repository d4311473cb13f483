//! Addresses, datapath endpoints and the signalled-source filter.
use vstd::prelude::*;

verus! {

/// An IP address.
#[derive(Clone, Copy, Debug, PartialEq, Eq, Structural)]
pub enum IpAddress {
    /// An IPv4 address, octet by octet.
    V4(u8, u8, u8, u8),
    /// An IPv6 address as one big-endian number.
    V6(u128),
}

/// The family of an IP address.
#[derive(Clone, Copy, Debug, PartialEq, Eq, Structural)]
pub enum AddressFamily {
    V4,
    V6,
}

/// Two to the power of `exponent`.
pub open spec fn power_of_two(exponent: nat) -> nat
    decreases exponent,
{
    if exponent == 0 {
        1
    } else {
        2 * power_of_two((exponent - 1) as nat)
    }
}

/// A power of two is positive.
proof fn lemma_power_positive(exponent: nat)
    ensures
        power_of_two(exponent) > 0,
    decreases exponent,
{
    if exponent > 0 {
        lemma_power_positive((exponent - 1) as nat);
    }
}

/// A number without its last `rest` bits.
fn leading_bits(value: u128, rest: u32) -> (leading: u128)
    ensures
        leading == value as nat / power_of_two(rest as nat),
{
    let mut leading: u128 = value;
    let mut i: u32 = 0;
    proof {
        assert(power_of_two(0) == 1);
        assert(value as int / 1 == value as int);
    }
    while i < rest
        invariant
            i <= rest,
            leading == value as nat / power_of_two(i as nat),
        decreases rest - i,
    {
        proof {
            let divisor = power_of_two(i as nat);
            lemma_power_positive(i as nat);
            assert(value as int / divisor as int / 2 == value as int / (divisor * 2) as int) by {
                vstd::arithmetic::div_mod::lemma_div_denominator(value as int, divisor as int, 2);
            }
        }
        leading = leading / 2;
        i = i + 1;
    }
    leading
}

impl IpAddress {
    /// The family this address belongs to.
    pub open spec fn family_spec(self) -> AddressFamily {
        match self {
            IpAddress::V4(..) => AddressFamily::V4,
            IpAddress::V6(_) => AddressFamily::V6,
        }
    }

    /// The address as one big-endian number.
    pub open spec fn number(self) -> nat {
        match self {
            IpAddress::V4(a, b, c, d) => (a * 0x1000000 + b * 0x10000 + c * 0x100 + d) as nat,
            IpAddress::V6(value) => value as nat,
        }
    }

    /// Whether two addresses of one family agree in their first `prefix` bits.
    pub open spec fn shares_prefix(self, other: IpAddress, prefix: u8) -> bool {
        let rest: nat = match self {
            IpAddress::V4(..) => if prefix < 32 {
                (32 - prefix) as nat
            } else {
                0
            },
            IpAddress::V6(_) => if prefix < 128 {
                (128 - prefix) as nat
            } else {
                0
            },
        };
        self.family_spec() == other.family_spec() && self.number() / power_of_two(rest) == other.number() / power_of_two(
            rest,
        )
    }

    /// Whether two addresses of one family agree in their first `prefix` bits.
    pub fn same_prefix(&self, other: IpAddress, prefix: u8) -> (same: bool)
        ensures
            same == self.shares_prefix(other, prefix),
    {
        match (*self, other) {
            (IpAddress::V4(a, b, c, d), IpAddress::V4(e, f, g, h)) => {
                let mine: u128 = a as u128 * 0x1000000 + b as u128 * 0x10000 + c as u128 * 0x100 + d as u128;
                let theirs: u128 = e as u128 * 0x1000000 + f as u128 * 0x10000 + g as u128 * 0x100 + h as u128;
                let rest: u32 = if prefix < 32 {
                    32 - prefix as u32
                } else {
                    0
                };
                leading_bits(mine, rest) == leading_bits(theirs, rest)
            },
            (IpAddress::V6(mine), IpAddress::V6(theirs)) => {
                let rest: u32 = if prefix < 128 {
                    128 - prefix as u32
                } else {
                    0
                };
                leading_bits(mine, rest) == leading_bits(theirs, rest)
            },
            _ => false,
        }
    }

    /// Whether this is the wildcard address.
    pub open spec fn unspecified(self) -> bool {
        self == IpAddress::V4(0, 0, 0, 0) || self == IpAddress::V6(0)
    }

    /// Whether this is the wildcard address.
    pub fn is_unspecified(&self) -> (wildcard: bool)
        ensures
            wildcard == self.unspecified(),
    {
        match *self {
            IpAddress::V4(a, b, c, d) => a == 0 && b == 0 && c == 0 && d == 0,
            IpAddress::V6(value) => value == 0,
        }
    }

    /// The family this address belongs to.
    pub fn family(&self) -> (family: AddressFamily)
        ensures
            family == self.family_spec(),
    {
        match *self {
            IpAddress::V4(..) => AddressFamily::V4,
            IpAddress::V6(_) => AddressFamily::V6,
        }
    }
}

/// A transport address: an IP address and a port. An IPv6 one has a flow label and a scope too, which
/// tell link-local addresses of two networks apart; both are zero in an IPv4 one.
#[derive(Clone, Copy, Debug, PartialEq, Eq, Structural)]
pub struct SocketAddress {
    pub ip: IpAddress,
    pub port: u16,
    pub flowinfo: u32,
    pub scope_id: u32,
}

impl SocketAddress {
    /// An address without a flow label and a scope.
    pub open spec fn plain(ip: IpAddress, port: u16) -> SocketAddress {
        SocketAddress { ip, port, flowinfo: 0, scope_id: 0 }
    }

    /// An address without a flow label and a scope.
    pub fn new(ip: IpAddress, port: u16) -> (address: SocketAddress)
        ensures
            address == SocketAddress::plain(ip, port),
    {
        SocketAddress { ip, port, flowinfo: 0, scope_id: 0 }
    }
}

/// A datapath endpoint: one engine socket.
#[derive(Clone, Copy, Debug, PartialEq, Eq, Structural)]
pub struct EndpointId(pub u64);

/// Which sources may send media to an endpoint.
#[derive(Clone, Copy, Debug, PartialEq, Eq, Structural)]
pub enum SourceFilter {
    /// Only the signalled address.
    Exact(IpAddress),
    /// Any address that shares the leading bits with this one. More bits than an address has ask for
    /// all of them.
    Subnet(IpAddress, u8),
    /// Any address.
    Any,
}

impl SourceFilter {
    /// Whether a datagram from `source` passes the filter.
    pub open spec fn accepts_spec(self, source: IpAddress) -> bool {
        match self {
            SourceFilter::Exact(signalled) => signalled == source,
            SourceFilter::Subnet(network, prefix) => network.shares_prefix(source, prefix),
            SourceFilter::Any => true,
        }
    }

    /// Whether a datagram from `source` passes the filter.
    pub fn accepts(&self, source: IpAddress) -> (accepted: bool)
        ensures
            accepted == self.accepts_spec(source),
    {
        match *self {
            SourceFilter::Exact(signalled) => signalled == source,
            SourceFilter::Subnet(network, prefix) => network.same_prefix(source, prefix),
            SourceFilter::Any => true,
        }
    }
}

/// A datagram received on an endpoint.
#[derive(Clone, Debug)]
pub struct RxPacket {
    /// The endpoint it arrived on.
    pub endpoint: EndpointId,
    /// The observed source.
    pub source: SocketAddress,
    /// When it arrived, in microseconds of the datapath's clock.
    pub arrival: u64,
    /// The datagram bytes.
    pub data: Vec<u8>,
}

/// A filter on one address lets that address through and no other, and one on any lets all through.
pub proof fn law_exact_filter(signalled: IpAddress, source: IpAddress)
    ensures
        SourceFilter::Exact(signalled).accepts_spec(source) <==> signalled == source,
        SourceFilter::Any.accepts_spec(source),
{
}

/// A filter on a network of whole octets lets through exactly the addresses with those octets: none for a
/// prefix of zero, and all four for one of 32 or more. It lets nothing of the other family through.
pub proof fn law_network_filter_v4(a: u8, b: u8, c: u8, d: u8, e: u8, f: u8, g: u8, h: u8, prefix: u8, other: u128)
    ensures
        ({
            let network = IpAddress::V4(a, b, c, d);
            let source = IpAddress::V4(e, f, g, h);
            let passes = SourceFilter::Subnet(network, prefix).accepts_spec(source);
            &&& prefix == 0 ==> passes
            &&& prefix == 8 ==> (passes <==> a == e)
            &&& prefix == 16 ==> (passes <==> a == e && b == f)
            &&& prefix == 24 ==> (passes <==> a == e && b == f && c == g)
            &&& prefix >= 32 ==> (passes <==> network == source)
            &&& !SourceFilter::Subnet(network, prefix).accepts_spec(IpAddress::V6(other))
            &&& !SourceFilter::Subnet(IpAddress::V6(other), prefix).accepts_spec(source)
        }),
{
    lemma_powers();
    let mine = IpAddress::V4(a, b, c, d).number();
    let theirs = IpAddress::V4(e, f, g, h).number();
    assert(mine as int / 0x1_0000_0000 == 0 && theirs as int / 0x1_0000_0000 == 0);
    assert(mine as int / 0x1000000 == a && theirs as int / 0x1000000 == e);
    assert(mine as int / 0x10000 == a * 0x100 + b && theirs as int / 0x10000 == e * 0x100 + f);
    assert(mine as int / 0x100 == a * 0x10000 + b * 0x100 + c && theirs as int / 0x100 == e * 0x10000 + f * 0x100 + g);
    assert(mine as int / 1 == mine && theirs as int / 1 == theirs);
}

/// Some powers of two.
proof fn lemma_powers()
    ensures
        power_of_two(0) == 1,
        power_of_two(8) == 0x100,
        power_of_two(16) == 0x10000,
        power_of_two(24) == 0x1000000,
        power_of_two(32) == 0x1_0000_0000,
{
    reveal_with_fuel(power_of_two, 33);
}

/// A wider network holds every narrower one: an address that shares so many leading bits shares fewer too. Every
/// address is in its own networks, and being in the network of another goes both ways.
pub proof fn law_networks_are_nested(network: IpAddress, source: IpAddress, narrow: u8, wide: u8)
    requires
        wide <= narrow,
    ensures
        network.shares_prefix(source, narrow) ==> network.shares_prefix(source, wide),
        network.shares_prefix(network, narrow),
        network.shares_prefix(source, wide) == source.shares_prefix(network, wide),
        network.shares_prefix(source, 255) ==> network == source,
{
    let bits: nat = if network is V4 {
        32
    } else {
        128
    };
    let kept = if narrow < bits {
        (bits - narrow) as nat
    } else {
        0
    };
    let dropped = if wide < bits {
        (bits - wide) as nat
    } else {
        0
    };
    lemma_coarser(network.number(), kept, dropped);
    lemma_coarser(source.number(), kept, dropped);
    lemma_power_zero();
}

/// Two to the power of zero.
proof fn lemma_power_zero()
    ensures
        power_of_two(0) == 1,
{
}

/// Dropping more bits is dropping some and then the rest.
proof fn lemma_coarser(value: nat, kept: nat, dropped: nat)
    requires
        kept <= dropped,
    ensures
        value / power_of_two(dropped) == value / power_of_two(kept) / power_of_two((dropped - kept) as nat),
{
    lemma_power_positive(kept);
    lemma_power_positive((dropped - kept) as nat);
    lemma_power_sum(kept, (dropped - kept) as nat);
    vstd::arithmetic::div_mod::lemma_div_denominator(
        value as int,
        power_of_two(kept) as int,
        power_of_two((dropped - kept) as nat) as int,
    );
}

/// Powers of two multiply by adding their exponents.
proof fn lemma_power_sum(a: nat, b: nat)
    ensures
        power_of_two(a + b) == power_of_two(a) * power_of_two(b),
    decreases b,
{
    if b > 0 {
        lemma_power_sum(a, (b - 1) as nat);
        let left = power_of_two(a) as int;
        let right = power_of_two((b - 1) as nat) as int;
        assert(left * (2 * right) == 2 * (left * right)) by (nonlinear_arith);
    } else {
        assert(power_of_two(a) * 1 == power_of_two(a));
    }
}

/// The wildcards are the two addresses of zeros.
pub proof fn law_wildcards(a: u8, b: u8, c: u8, d: u8, value: u128)
    ensures
        IpAddress::V4(a, b, c, d).unspecified() <==> a == 0 && b == 0 && c == 0 && d == 0,
        IpAddress::V6(value).unspecified() <==> value == 0,
        IpAddress::V4(a, b, c, d).family_spec() is V4,
        IpAddress::V6(value).family_spec() is V6,
{
}

} // verus!
