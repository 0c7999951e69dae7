//! Socket addresses as plain values, the address-family filter applied to
//! resolved candidates, and the local binding policy.

use vstd::prelude::*;

verus! {

/// An IP address: a v4 address as its 32-bit value, a v6 address as its
/// 128-bit value (network byte order, most significant first).
#[derive(Clone, Copy, Debug, PartialEq, Eq, Structural)]
pub enum IpAddress {
    V4(u32),
    V6(u128),
}

/// A socket address: an IP address and a port.
#[derive(Clone, Copy, Debug, PartialEq, Eq, Structural)]
pub struct SocketAddress {
    pub ip: IpAddress,
    pub port: u16,
}

impl IpAddress {
    /// Whether this is a v4 address.
    pub fn is_ipv4(&self) -> (r: bool)
        ensures
            r == (self is V4),
    {
        match self {
            IpAddress::V4(_) => true,
            IpAddress::V6(_) => false,
        }
    }

    /// Whether this is a v6 address.
    pub fn is_ipv6(&self) -> (r: bool)
        ensures
            r == (self is V6),
    {
        match self {
            IpAddress::V4(_) => false,
            IpAddress::V6(_) => true,
        }
    }
}

/// Two addresses belong to the same family (both v4 or both v6).
pub open spec fn same_family(a: IpAddress, b: IpAddress) -> bool {
    (a is V4) == (b is V4)
}

/// A resolved candidate is eligible when no local address is set, or when
/// its family matches the local address's family.
pub open spec fn eligible(candidate: SocketAddress, local: Option<IpAddress>) -> bool {
    match local {
        Some(l) => same_family(candidate.ip, l),
        None => true,
    }
}

/// The candidates that remain after filtering, in resolution order.
pub open spec fn eligible_candidates(
    resolved: Seq<SocketAddress>,
    local: Option<IpAddress>,
) -> Seq<SocketAddress> {
    resolved.filter(|a: SocketAddress| eligible(a, local))
}

/// Decides whether a resolved address may be dialed given the optional
/// local address the socket will be bound to.
pub fn resolved_address_filter(resolved_addr: &SocketAddress, local_addr: Option<IpAddress>) -> (r:
    bool)
    ensures
        r == eligible(*resolved_addr, local_addr),
{
    match local_addr {
        Some(local_addr) => match resolved_addr.ip {
            IpAddress::V4(_) => local_addr.is_ipv4(),
            IpAddress::V6(_) => local_addr.is_ipv6(),
        },
        None => true,
    }
}

/// Keeps the resolved addresses that pass `resolved_address_filter`, in
/// their original order.
pub fn filter_candidates(resolved: &Vec<SocketAddress>, local_addr: Option<IpAddress>) -> (r: Vec<
    SocketAddress,
>)
    ensures
        r@ == eligible_candidates(resolved@, local_addr),
{
    let mut kept: Vec<SocketAddress> = Vec::new();
    let mut i: usize = 0;
    while i < resolved.len()
        invariant
            i <= resolved@.len(),
            kept@ == eligible_candidates(resolved@.subrange(0, i as int), local_addr),
        decreases resolved@.len() - i,
    {
        let candidate = resolved[i];
        let keep = resolved_address_filter(&candidate, local_addr);
        proof {
            reveal(Seq::filter);
            let next = resolved@.subrange(0, i + 1);
            assert(next.drop_last() == resolved@.subrange(0, i as int));
            assert(next.last() == candidate);
        }
        if keep {
            kept.push(candidate);
        }
        i = i + 1;
    }
    assert(resolved@.subrange(0, resolved@.len() as int) == resolved@);
    kept
}

/// Filtering keeps exactly the candidates of the local address's family:
/// with a v4 local address no v6 candidate remains and every v4 candidate
/// does, and the other way round for a v6 local address; with no local
/// address every candidate remains, in the same order.
pub proof fn lemma_filter_by_family(resolved: Seq<SocketAddress>, local: Option<IpAddress>)
    ensures
        local is None ==> eligible_candidates(resolved, local) == resolved,
        local is Some ==> forall|a: SocketAddress|
            #[trigger] eligible_candidates(resolved, local).contains(a) <==> (resolved.contains(a)
                && same_family(a.ip, local->0)),
{
    let f = |a: SocketAddress| eligible(a, local);
    if local is None {
        assert(resolved.filter(f) =~= resolved) by {
            lemma_filter_all(resolved, f);
        }
    } else {
        assert forall|a: SocketAddress| #[trigger]
            eligible_candidates(resolved, local).contains(a) <==> (resolved.contains(a)
                && same_family(a.ip, local->0)) by {
            let filtered = resolved.filter(f);
            if filtered.contains(a) {
                resolved.lemma_filter_contains_rev(f, a);
                let i = choose|i: int| 0 <= i < filtered.len() && filtered[i] == a;
                resolved.lemma_filter_pred(f, i);
            }
            if resolved.contains(a) && same_family(a.ip, local->0) {
                let i = choose|i: int| 0 <= i < resolved.len() && resolved[i] == a;
                resolved.lemma_filter_contains(f, i);
            }
        }
    }
}

proof fn lemma_filter_all(s: Seq<SocketAddress>, f: spec_fn(SocketAddress) -> bool)
    requires
        forall|a: SocketAddress| #[trigger] f(a),
    ensures
        s.filter(f) == s,
    decreases s.len(),
{
    reveal(Seq::filter);
    if s.len() > 0 {
        lemma_filter_all(s.drop_last(), f);
        assert(s.drop_last().push(s.last()) =~= s);
    } else {
        assert(s =~= Seq::<SocketAddress>::empty());
    }
}

/// The address the socket is bound to before connecting to `dst`, if any:
/// the explicit local address on port 0; otherwise, where the platform
/// needs a bound socket, the unspecified address of `dst`'s family on
/// port 0; otherwise none.
pub open spec fn bind_choice(
    dst: SocketAddress,
    local: Option<IpAddress>,
    bind_required: bool,
) -> Option<SocketAddress> {
    match local {
        Some(l) => Some(SocketAddress { ip: l, port: 0 }),
        None => if bind_required {
            Some(
                SocketAddress {
                    ip: match dst.ip {
                        IpAddress::V4(_) => IpAddress::V4(0),
                        IpAddress::V6(_) => IpAddress::V6(0),
                    },
                    port: 0,
                },
            )
        } else {
            None
        },
    }
}

/// Applies the local binding policy for an outgoing socket to `dst_addr`.
/// `bind_required` tells whether the platform rejects connecting an
/// unbound socket.
pub fn bind_local_address(
    dst_addr: &SocketAddress,
    local_addr: Option<IpAddress>,
    bind_required: bool,
) -> (r: Option<SocketAddress>)
    ensures
        r == bind_choice(*dst_addr, local_addr, bind_required),
{
    match local_addr {
        Some(local_addr) => Some(SocketAddress { ip: local_addr, port: 0 }),
        None => {
            if bind_required {
                let any = match dst_addr.ip {
                    IpAddress::V4(_) => IpAddress::V4(0),
                    IpAddress::V6(_) => IpAddress::V6(0),
                };
                Some(SocketAddress { ip: any, port: 0 })
            } else {
                None
            }
        },
    }
}

} // verus!
