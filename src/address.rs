use vstd::prelude::*;

verus! {

/// An IP address held as plain values: four octets or eight 16-bit segments.
#[derive(Debug, Clone, Copy, PartialEq, Eq, Structural, Hash)]
pub enum IpAddress {
    V4(u8, u8, u8, u8),
    V6(u16, u16, u16, u16, u16, u16, u16, u16),
}

/// A server address: an IP address and a UDP port.
#[derive(Debug, Clone, Copy, PartialEq, Eq, Structural, Hash)]
pub struct SocketAddress {
    pub ip: IpAddress,
    pub port: u16,
}

/// The addresses that resolved, in their original order.
pub open spec fn keep_resolved(s: Seq<Option<SocketAddress>>) -> Seq<SocketAddress>
    decreases s.len(),
{
    if s.len() == 0 {
        seq![]
    } else {
        let rest = keep_resolved(s.drop_last());
        match s.last() {
            Some(a) => rest.push(a),
            None => rest,
        }
    }
}

/// Selection keeps exactly the resolved candidates and never adds any.
pub proof fn lemma_keep_resolved_members(s: Seq<Option<SocketAddress>>, a: SocketAddress)
    ensures
        keep_resolved(s).contains(a) <==> s.contains(Some(a)),
        keep_resolved(s).len() <= s.len(),
    decreases s.len(),
{
    if s.len() > 0 {
        let init = s.drop_last();
        lemma_keep_resolved_members(init, a);
        assert(s =~= init.push(s.last()));
        if s.contains(Some(a)) {
            let k = choose|k: int| 0 <= k < s.len() && s[k] == Some(a);
            if k < s.len() - 1 {
                assert(init[k] == Some(a));
            }
        }
        if init.contains(Some(a)) {
            let k = choose|k: int| 0 <= k < init.len() && init[k] == Some(a);
            assert(s[k] == Some(a));
        }
        let rest = keep_resolved(init);
        match s.last() {
            Some(b) => {
                if rest.contains(a) {
                    let k = choose|k: int| 0 <= k < rest.len() && rest[k] == a;
                    assert(rest.push(b)[k] == a);
                }
                if a == b {
                    assert(rest.push(b)[rest.len() as int] == a);
                }
                if rest.push(b).contains(a) {
                    let k = choose|k: int| 0 <= k < rest.len() + 1 && rest.push(b)[k] == a;
                    if k < rest.len() {
                        assert(rest[k] == a);
                    }
                }
            },
            None => {},
        }
    }
}

impl SocketAddress {
    pub fn new(ip: IpAddress, port: u16) -> (r: SocketAddress)
        ensures
            r.ip == ip,
            r.port == port,
    {
        SocketAddress { ip, port }
    }
}

/// Keeps the candidates that resolved to an address, dropping the others.
pub fn resolved_addresses(candidates: &Vec<Option<SocketAddress>>) -> (r: Vec<SocketAddress>)
    ensures
        r@ == keep_resolved(candidates@),
{
    let mut r: Vec<SocketAddress> = Vec::new();
    let mut i: usize = 0;
    while i < candidates.len()
        invariant
            i <= candidates@.len(),
            r@ == keep_resolved(candidates@.take(i as int)),
        decreases candidates@.len() - i,
    {
        assert(candidates@.take(i as int + 1).drop_last() =~= candidates@.take(i as int));
        match candidates[i] {
            Some(a) => r.push(a),
            None => {},
        }
        i = i + 1;
    }
    assert(candidates@.take(i as int) =~= candidates@);
    r
}

} // verus!
