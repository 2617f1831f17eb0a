//! Bridge address resolution policy.
//!
//! The client role turns a configured address-or-hostname string into one
//! concrete endpoint address. A string that already is a literal socket
//! address is used unchanged, with no resolution. Otherwise the resolver's
//! candidates are ranked: prefer the first candidate that is neither
//! loopback nor unspecified nor in a private IPv4 range; else the first that
//! is not loopback; else the first candidate outright. The filter guards
//! against accidentally bridging through a loopback or private address when
//! a public one was intended; it is advisory, not a hard security boundary.

use vstd::prelude::*;

verus! {

/// Resolution failed to produce a usable address.
#[derive(Clone, Copy, PartialEq, Eq, Structural, Debug)]
pub enum ResolveError {
    /// Name resolution yielded no candidate address.
    NoAddresses,
}

/// A host address, IPv4 or IPv6, as its raw octets.
pub enum HostIp {
    V4 { octets: Vec<u8> },
    V6 { octets: Vec<u8> },
}

/// The mathematical shape of a host address.
pub enum HostIpView {
    V4 { octets: Seq<u8> },
    V6 { octets: Seq<u8> },
}

impl View for HostIp {
    type V = HostIpView;

    open spec fn view(&self) -> HostIpView {
        match self {
            HostIp::V4 { octets } => (HostIpView::V4 { octets: octets@ }),
            HostIp::V6 { octets } => (HostIpView::V6 { octets: octets@ }),
        }
    }
}

/// A candidate endpoint address: host and port.
pub struct BridgeAddr {
    pub ip: HostIp,
    pub port: u16,
}

/// The mathematical shape of an endpoint address.
pub struct BridgeAddrView {
    pub ip: HostIpView,
    pub port: u16,
}

impl View for BridgeAddr {
    type V = BridgeAddrView;

    open spec fn view(&self) -> BridgeAddrView {
        BridgeAddrView { ip: self.ip@, port: self.port }
    }
}

/// A well-formed host address has exactly its address octets.
pub open spec fn wf_ip(ip: HostIpView) -> bool {
    match ip {
        HostIpView::V4 { octets } => octets.len() == 4,
        HostIpView::V6 { octets } => octets.len() == 16,
    }
}

/// A well-formed endpoint address.
pub open spec fn wf_addr(a: BridgeAddrView) -> bool {
    wf_ip(a.ip)
}

/// A loopback address: `127.0.0.0/8`, or the IPv6 loopback `::1`.
pub open spec fn is_loopback(ip: HostIpView) -> bool {
    match ip {
        HostIpView::V4 { octets } => octets[0] == 127,
        HostIpView::V6 { octets } => (forall|i: int| 0 <= i < 15 ==> octets[i] == 0) && octets[15]
            == 1,
    }
}

/// An unspecified address: `0.0.0.0`, or the IPv6 unspecified `::`.
pub open spec fn is_unspecified(ip: HostIpView) -> bool {
    match ip {
        HostIpView::V4 { octets } => octets[0] == 0 && octets[1] == 0 && octets[2] == 0
            && octets[3] == 0,
        HostIpView::V6 { octets } => forall|i: int| 0 <= i < 16 ==> octets[i] == 0,
    }
}

/// A private IPv4 address: `10/8`, `172.16/12`, or `192.168/16`. An IPv6
/// address is never judged private here.
pub open spec fn is_private_v4(ip: HostIpView) -> bool {
    match ip {
        HostIpView::V4 { octets } => octets[0] == 10 || (octets[0] == 172 && 16 <= octets[1] <= 31)
            || (octets[0] == 192 && octets[1] == 168),
        HostIpView::V6 { .. } => false,
    }
}

/// A candidate fit for the first preference tier: neither loopback nor
/// unspecified nor in a private IPv4 range.
pub open spec fn is_public(a: BridgeAddrView) -> bool {
    !is_loopback(a.ip) && !is_unspecified(a.ip) && !is_private_v4(a.ip)
}

/// The first candidate that satisfies the first tier, if any.
pub open spec fn select_public(cs: Seq<BridgeAddrView>) -> Option<BridgeAddrView>
    decreases cs.len(),
{
    if cs.len() == 0 {
        None
    } else if is_public(cs[0]) {
        Some(cs[0])
    } else {
        select_public(cs.drop_first())
    }
}

/// The first candidate that is not loopback, if any.
pub open spec fn select_nonloopback(cs: Seq<BridgeAddrView>) -> Option<BridgeAddrView>
    decreases cs.len(),
{
    if cs.len() == 0 {
        None
    } else if !is_loopback(cs[0].ip) {
        Some(cs[0])
    } else {
        select_nonloopback(cs.drop_first())
    }
}

/// The policy's choice among a non-empty candidate list: the three
/// preference tiers in order.
pub open spec fn spec_select(cs: Seq<BridgeAddrView>) -> BridgeAddrView
    recommends
        cs.len() > 0,
{
    match select_public(cs) {
        Some(a) => a,
        None => match select_nonloopback(cs) {
            Some(a) => a,
            None => cs[0],
        },
    }
}

/// The views of a candidate list.
pub open spec fn views_of(cs: Seq<BridgeAddr>) -> Seq<BridgeAddrView> {
    cs.map(|i: int, a: BridgeAddr| a@)
}

/// Whether `ip` is a loopback address.
pub fn ip_is_loopback(ip: &HostIp) -> (r: bool)
    requires
        wf_ip(ip@),
    ensures
        r == is_loopback(ip@),
{
    match ip {
        HostIp::V4 { octets } => octets[0] == 127,
        HostIp::V6 { octets } => {
            let mut i: usize = 0;
            let mut all_zero = true;
            while i < 15
                invariant
                    i <= 15,
                    octets@.len() == 16,
                    all_zero == (forall|j: int| 0 <= j < i ==> octets@[j] == 0),
                decreases 15 - i,
            {
                if octets[i] != 0 {
                    all_zero = false;
                }
                i = i + 1;
            }
            all_zero && octets[15] == 1
        },
    }
}

/// Whether `ip` is the unspecified address.
pub fn ip_is_unspecified(ip: &HostIp) -> (r: bool)
    requires
        wf_ip(ip@),
    ensures
        r == is_unspecified(ip@),
{
    match ip {
        HostIp::V4 { octets } => octets[0] == 0 && octets[1] == 0 && octets[2] == 0 && octets[3]
            == 0,
        HostIp::V6 { octets } => {
            let mut i: usize = 0;
            let mut all_zero = true;
            while i < 16
                invariant
                    i <= 16,
                    octets@.len() == 16,
                    all_zero == (forall|j: int| 0 <= j < i ==> octets@[j] == 0),
                decreases 16 - i,
            {
                if octets[i] != 0 {
                    all_zero = false;
                }
                i = i + 1;
            }
            all_zero
        },
    }
}

/// Whether `ip` lies in a private IPv4 range.
pub fn ip_is_private_v4(ip: &HostIp) -> (r: bool)
    requires
        wf_ip(ip@),
    ensures
        r == is_private_v4(ip@),
{
    match ip {
        HostIp::V4 { octets } => {
            let a = octets[0];
            let b = octets[1];
            a == 10 || (a == 172 && 16 <= b && b <= 31) || (a == 192 && b == 168)
        },
        HostIp::V6 { .. } => false,
    }
}

/// Whether `a` fits the first preference tier.
pub fn addr_is_public(a: &BridgeAddr) -> (r: bool)
    requires
        wf_addr(a@),
    ensures
        r == is_public(a@),
{
    !ip_is_loopback(&a.ip) && !ip_is_unspecified(&a.ip) && !ip_is_private_v4(&a.ip)
}

/// Copies an endpoint address.
fn duplicate_addr(a: &BridgeAddr) -> (r: BridgeAddr)
    ensures
        r@ == a@,
{
    let ip = match &a.ip {
        HostIp::V4 { octets } => HostIp::V4 { octets: duplicate_bytes(octets) },
        HostIp::V6 { octets } => HostIp::V6 { octets: duplicate_bytes(octets) },
    };
    BridgeAddr { ip, port: a.port }
}

/// Copies a byte vector.
fn duplicate_bytes(src: &Vec<u8>) -> (r: Vec<u8>)
    ensures
        r@ == src@,
{
    let n: usize = src.len();
    let mut out: Vec<u8> = Vec::new();
    let mut i: usize = 0;
    while i < n
        invariant
            i <= n,
            n == src@.len(),
            out@ == src@.subrange(0, i as int),
        decreases n - i,
    {
        out.push(src[i]);
        assert(out@ =~= src@.subrange(0, (i + 1) as int));
        i = i + 1;
    }
    assert(out@ =~= src@);
    out
}

/// If no candidate before `i` fits the first tier and the candidate at `i`
/// does, the first tier picks exactly the candidate at `i`.
proof fn lemma_public_found(cs: Seq<BridgeAddrView>, i: int)
    requires
        0 <= i < cs.len(),
        is_public(cs[i]),
        forall|j: int| 0 <= j < i ==> !is_public(cs[j]),
    ensures
        select_public(cs) == Some(cs[i]),
    decreases i,
{
    if i > 0 {
        lemma_public_found(cs.drop_first(), i - 1);
    }
}

/// If no candidate fits the first tier, it picks none.
proof fn lemma_public_none(cs: Seq<BridgeAddrView>)
    requires
        forall|j: int| 0 <= j < cs.len() ==> !is_public(cs[j]),
    ensures
        select_public(cs) is None,
    decreases cs.len(),
{
    if cs.len() > 0 {
        lemma_public_none(cs.drop_first());
    }
}

/// The same, for the second tier.
proof fn lemma_nonloopback_found(cs: Seq<BridgeAddrView>, i: int)
    requires
        0 <= i < cs.len(),
        !is_loopback(cs[i].ip),
        forall|j: int| 0 <= j < i ==> is_loopback(cs[j].ip),
    ensures
        select_nonloopback(cs) == Some(cs[i]),
    decreases i,
{
    if i > 0 {
        lemma_nonloopback_found(cs.drop_first(), i - 1);
    }
}

/// If every candidate is loopback, the second tier picks none.
proof fn lemma_nonloopback_none(cs: Seq<BridgeAddrView>)
    requires
        forall|j: int| 0 <= j < cs.len() ==> is_loopback(cs[j].ip),
    ensures
        select_nonloopback(cs) is None,
    decreases cs.len(),
{
    if cs.len() > 0 {
        lemma_nonloopback_none(cs.drop_first());
    }
}

/// Selects the bridge endpoint address.
///
/// `literal` carries the configured string's value when it already parsed
/// as a literal socket address: it is then used unchanged and the
/// candidates are ignored, so no resolution takes part. Otherwise
/// `candidates` holds the resolver's results in order; an empty list is a
/// resolution failure, and a non-empty one is ranked by the three tiers.
pub fn select_bridge_address(literal: Option<BridgeAddr>, candidates: &Vec<BridgeAddr>) -> (r:
    Result<BridgeAddr, ResolveError>)
    requires
        forall|i: int| 0 <= i < candidates@.len() ==> wf_addr(#[trigger] candidates@[i]@),
    ensures
        literal matches Some(a) ==> (r matches Ok(b) && b@ == a@),
        literal is None && candidates@.len() == 0 ==> r == Err::<BridgeAddr, ResolveError>(
            ResolveError::NoAddresses,
        ),
        literal is None && candidates@.len() > 0 ==> (r matches Ok(b) && b@ == spec_select(
            views_of(candidates@),
        )),
{
    match literal {
        Some(a) => Ok(a),
        None => rank_candidates(candidates),
    }
}

/// Ranks the resolver's candidates by the three preference tiers.
fn rank_candidates(candidates: &Vec<BridgeAddr>) -> (r: Result<BridgeAddr, ResolveError>)
    requires
        forall|i: int| 0 <= i < candidates@.len() ==> wf_addr(#[trigger] candidates@[i]@),
    ensures
        candidates@.len() == 0 ==> r == Err::<BridgeAddr, ResolveError>(ResolveError::NoAddresses),
        candidates@.len() > 0 ==> (r matches Ok(b) && b@ == spec_select(views_of(candidates@))),
{
    let n: usize = candidates.len();
    if n == 0 {
        return Err(ResolveError::NoAddresses);
    }
    let ghost vs = views_of(candidates@);
    assert(vs.len() == n);

    let mut i: usize = 0;
    while i < n
        invariant
            i <= n,
            n == candidates@.len(),
            vs == views_of(candidates@),
            forall|i0: int| 0 <= i0 < candidates@.len() ==> wf_addr(#[trigger] candidates@[i0]@),
            forall|j: int| 0 <= j < i ==> !is_public(#[trigger] vs[j]),
        decreases n - i,
    {
        assert(wf_addr(candidates@[i as int]@));
        if addr_is_public(&candidates[i]) {
            proof {
                lemma_public_found(vs, i as int);
            }
            return Ok(duplicate_addr(&candidates[i]));
        }
        i = i + 1;
    }
    proof {
        lemma_public_none(vs);
    }

    let mut i: usize = 0;
    while i < n
        invariant
            i <= n,
            n == candidates@.len(),
            vs == views_of(candidates@),
            select_public(vs) is None,
            forall|i0: int| 0 <= i0 < candidates@.len() ==> wf_addr(#[trigger] candidates@[i0]@),
            forall|j: int| 0 <= j < i ==> is_loopback(#[trigger] vs[j].ip),
        decreases n - i,
    {
        assert(wf_addr(candidates@[i as int]@));
        if !ip_is_loopback(&candidates[i].ip) {
            proof {
                lemma_nonloopback_found(vs, i as int);
            }
            return Ok(duplicate_addr(&candidates[i]));
        }
        i = i + 1;
    }
    proof {
        lemma_nonloopback_none(vs);
    }
    Ok(duplicate_addr(&candidates[0]))
}

} // verus!
