//! Peer addresses, their order, and what the order decides.

use vstd::prelude::*;

verus! {

/// The address and port of one end of the chat.
#[derive(Debug, Clone, Copy, PartialEq, Eq, Structural)]
pub enum SocketAddress {
    /// An IPv4 address, its four octets read as one big-endian number.
    V4 { ipv4: u32, port: u16 },
    /// An IPv6 address, its sixteen octets read as one big-endian number.
    V6 { ipv6: u128, port: u16, flowinfo: u32, scope_id: u32 },
}

/// Whether `a` comes before `b`: IPv4 before IPv6, then by address, then by
/// port, and for IPv6 then by flow information and by scope.
pub open spec fn precedes(a: SocketAddress, b: SocketAddress) -> bool {
    match (a, b) {
        (SocketAddress::V4 { ipv4: i, port: p }, SocketAddress::V4 { ipv4: j, port: q }) => {
            i < j || (i == j && p < q)
        },
        (SocketAddress::V4 { .. }, SocketAddress::V6 { .. }) => true,
        (SocketAddress::V6 { .. }, SocketAddress::V4 { .. }) => false,
        (
            SocketAddress::V6 { ipv6: i, port: p, flowinfo: f, scope_id: s },
            SocketAddress::V6 { ipv6: j, port: q, flowinfo: g, scope_id: t },
        ) => {
            ||| i < j
            ||| i == j && p < q
            ||| i == j && p == q && f < g
            ||| i == j && p == q && f == g && s < t
        },
    }
}

/// The number under which the peer at `my` derives the key it shares with the
/// peer at `peer`: 0 for the address that comes first, 1 for the other.
pub open spec fn key_id_of(my: SocketAddress, peer: SocketAddress) -> u8 {
    if precedes(my, peer) {
        0
    } else {
        1
    }
}

/// Where an address stands among all addresses: an IPv4 address by the number
/// that its address and port make when they are written side by side, an IPv6
/// address behind all of them by the number that its address, port, flow
/// information and scope make.
pub open spec fn rank(a: SocketAddress) -> int {
    match a {
        SocketAddress::V4 { ipv4, port } => 0x1_0000 * ipv4 + port,
        SocketAddress::V6 { ipv6, port, flowinfo, scope_id } => 0x1_0000_0000_0000
            + 0x1_0000_0000 * (0x1_0000_0000 * (0x1_0000 * ipv6 + port) + flowinfo) + scope_id,
    }
}

impl SocketAddress {
    /// Whether this address comes before `other`.
    pub fn is_before(&self, other: &SocketAddress) -> (r: bool)
        ensures
            r == precedes(*self, *other),
            r == (rank(*self) < rank(*other)),
    {
        match (*self, *other) {
            (SocketAddress::V4 { ipv4: i, port: p }, SocketAddress::V4 { ipv4: j, port: q }) => {
                i < j || (i == j && p < q)
            },
            (SocketAddress::V4 { .. }, SocketAddress::V6 { .. }) => true,
            (SocketAddress::V6 { .. }, SocketAddress::V4 { .. }) => false,
            (
                SocketAddress::V6 { ipv6: i, port: p, flowinfo: f, scope_id: s },
                SocketAddress::V6 { ipv6: j, port: q, flowinfo: g, scope_id: t },
            ) => {
                if i != j {
                    i < j
                } else if p != q {
                    p < q
                } else if f != g {
                    f < g
                } else {
                    s < t
                }
            },
        }
    }
}

/// The number under which the peer at `my` derives the key it shares with the
/// peer at `peer`.
pub fn key_id(my: &SocketAddress, peer: &SocketAddress) -> (r: u8)
    requires
        my != peer,
    ensures
        r == key_id_of(*my, *peer),
        rank(*my) < rank(*peer) ==> r == 0,
        rank(*my) >= rank(*peer) ==> r == 1,
{
    if my.is_before(peer) {
        0
    } else {
        1
    }
}

/// Of two different addresses exactly one comes before the other, and none
/// comes before itself.
pub proof fn law_order_is_total(a: SocketAddress, b: SocketAddress)
    ensures
        !precedes(a, a),
        a != b ==> precedes(a, b) != precedes(b, a),
{
}

/// The order is transitive.
pub proof fn law_order_is_transitive(a: SocketAddress, b: SocketAddress, c: SocketAddress)
    requires
        precedes(a, b),
        precedes(b, c),
    ensures
        precedes(a, c),
{
}

/// The two ends of a chat derive their keys under different numbers, one of
/// them 0 and one of them 1, so that they agree on the direction of encryption
/// without a word.
pub proof fn law_peers_take_opposite_key_ids(a: SocketAddress, b: SocketAddress)
    requires
        a != b,
    ensures
        key_id_of(a, b) + key_id_of(b, a) == 1,
{
    law_order_is_total(a, b);
}

/// The order is that of the numbers in the addresses, the larger parts first, and
/// the address that comes first gets the number 0.
pub proof fn law_order_follows_the_numbers(a: SocketAddress, b: SocketAddress)
    ensures
        precedes(a, b) <==> rank(a) < rank(b),
        a == b <==> rank(a) == rank(b),
        key_id_of(a, b) == 0 <==> rank(a) < rank(b),
        key_id_of(a, b) == 1 <==> rank(a) >= rank(b),
{
}

/// IPv4 comes before IPv6; among addresses of one kind the larger address comes
/// later whatever the port, and at one address the larger port.
pub proof fn law_address_outweighs_port(
    i: u32,
    j: u32,
    k: u128,
    l: u128,
    p: u16,
    q: u16,
    f: u32,
    g: u32,
    s: u32,
    t: u32,
)
    ensures
        precedes(
            SocketAddress::V4 { ipv4: i, port: p },
            SocketAddress::V6 { ipv6: k, port: q, flowinfo: f, scope_id: s },
        ),
        i < j ==> precedes(
            SocketAddress::V4 { ipv4: i, port: p },
            SocketAddress::V4 { ipv4: j, port: q },
        ),
        p < q ==> precedes(
            SocketAddress::V4 { ipv4: i, port: p },
            SocketAddress::V4 { ipv4: i, port: q },
        ),
        k < l ==> precedes(
            SocketAddress::V6 { ipv6: k, port: p, flowinfo: f, scope_id: s },
            SocketAddress::V6 { ipv6: l, port: q, flowinfo: g, scope_id: t },
        ),
        p < q ==> precedes(
            SocketAddress::V6 { ipv6: k, port: p, flowinfo: f, scope_id: s },
            SocketAddress::V6 { ipv6: k, port: q, flowinfo: g, scope_id: t },
        ),
        f < g ==> precedes(
            SocketAddress::V6 { ipv6: k, port: p, flowinfo: f, scope_id: s },
            SocketAddress::V6 { ipv6: k, port: p, flowinfo: g, scope_id: t },
        ),
        s < t ==> precedes(
            SocketAddress::V6 { ipv6: k, port: p, flowinfo: f, scope_id: s },
            SocketAddress::V6 { ipv6: k, port: p, flowinfo: f, scope_id: t },
        ),
{
}

}
