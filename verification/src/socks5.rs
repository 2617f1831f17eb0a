//! Local proxy protocol engine (SOCKS5 subset).
//!
//! The wire format: a greeting `05 NMETHODS <methods>` answered with `05 00`,
//! then a connect request `05 01 00 ATYP <addr> <port-be16>` with
//! `ATYP ∈ {01 IPv4, 03 domain, 04 IPv6}`, answered on success with the fixed
//! ten-byte reply `05 00 00 01 00 00 00 00 00 00`. The decoder works on the
//! bytes read so far and reports how a message parses; the handshake engine
//! drives the state machine `AwaitingGreeting → AwaitingRequest →
//! Established / Failed` and never emits a success reply on a bad request.
//! The mirrored client side encodes the same messages for traversing an
//! upstream instance of the protocol.

use vstd::prelude::*;

verus! {

/// Protocol version identifier.
pub const SOCKS_VERSION: u8 = 0x05;

/// The CONNECT command, the only one supported.
pub const CMD_CONNECT: u8 = 0x01;

/// The "no authentication" method, the only one negotiated.
pub const METHOD_NO_AUTH: u8 = 0x00;

/// Address-type tag: IPv4 literal, four address bytes.
pub const ATYP_V4: u8 = 0x01;

/// Address-type tag: domain name, one length byte then that many bytes.
pub const ATYP_DOMAIN: u8 = 0x03;

/// Address-type tag: IPv6 literal, sixteen address bytes.
pub const ATYP_V6: u8 = 0x04;

/// Reply code for success.
pub const REPLY_SUCCESS: u8 = 0x00;

/// Why a handshake was aborted.
#[derive(Clone, Copy, PartialEq, Eq, Structural, Debug)]
pub enum HandshakeError {
    /// The version byte was not `0x05`.
    UnsupportedVersion,
    /// The command was not CONNECT.
    UnsupportedCommand,
    /// The address-type tag was none of IPv4, domain, IPv6.
    UnsupportedAddressType,
    /// An upstream reply did not match expectations.
    BadReply,
}

/// A decoded target address, as the request carried it.
///
/// A domain name is kept as the raw bytes of the request; resolving it to a
/// socket address is the caller's concern.
pub enum TargetAddr {
    V4 { octets: Vec<u8>, port: u16 },
    Domain { name: Vec<u8>, port: u16 },
    V6 { octets: Vec<u8>, port: u16 },
}

/// The mathematical shape of a target address.
pub enum TargetAddrView {
    V4 { octets: Seq<u8>, port: u16 },
    Domain { name: Seq<u8>, port: u16 },
    V6 { octets: Seq<u8>, port: u16 },
}

impl View for TargetAddr {
    type V = TargetAddrView;

    open spec fn view(&self) -> TargetAddrView {
        match self {
            TargetAddr::V4 { octets, port } => (TargetAddrView::V4 { octets: octets@, port: *port }),
            TargetAddr::Domain { name, port } => (TargetAddrView::Domain { name: name@, port: *port }),
            TargetAddr::V6 { octets, port } => (TargetAddrView::V6 { octets: octets@, port: *port }),
        }
    }
}

/// A well-formed target address: the literal has exactly its address bytes,
/// and a domain name fits the one-byte length field.
pub open spec fn wf_target(t: TargetAddrView) -> bool {
    match t {
        TargetAddrView::V4 { octets, .. } => octets.len() == 4,
        TargetAddrView::Domain { name, .. } => name.len() <= 255,
        TargetAddrView::V6 { octets, .. } => octets.len() == 16,
    }
}

/// The port encoded big-endian by the two bytes `hi`, `lo`.
pub open spec fn spec_port(hi: u8, lo: u8) -> u16 {
    (hi * 256 + lo) as u16
}

/// High byte of a big-endian port.
pub open spec fn spec_port_hi(port: u16) -> u8 {
    (port / 256) as u8
}

/// Low byte of a big-endian port.
pub open spec fn spec_port_lo(port: u16) -> u8 {
    (port % 256) as u8
}

/// Joins two big-endian bytes into a port number.
pub fn port_from_be(hi: u8, lo: u8) -> (p: u16)
    ensures
        p == spec_port(hi, lo),
{
    (hi as u16) * 256 + (lo as u16)
}

/// How far a greeting parses from the bytes read so far.
pub enum GreetingOutcome {
    /// More bytes are needed.
    Incomplete,
    /// The greeting is invalid; no reply is owed.
    Reject(HandshakeError),
    /// A complete greeting occupying `consumed` bytes.
    Accept { consumed: int },
}

/// How far a connect request parses from the bytes read so far.
pub enum RequestOutcome {
    /// More bytes are needed.
    Incomplete,
    /// The request is invalid; no success reply is owed.
    Reject(HandshakeError),
    /// A complete request for `target`, occupying `consumed` bytes.
    Accept { target: TargetAddrView, consumed: int },
}

/// Parse of a greeting `VER NMETHODS <methods>` from the prefix of `s`.
///
/// The version is judged once both header bytes are present, as the engine
/// reads them together.
pub open spec fn spec_decode_greeting(s: Seq<u8>) -> GreetingOutcome {
    if s.len() < 2 {
        GreetingOutcome::Incomplete
    } else if s[0] != SOCKS_VERSION {
        GreetingOutcome::Reject(HandshakeError::UnsupportedVersion)
    } else if s.len() < 2 + s[1] {
        GreetingOutcome::Incomplete
    } else {
        GreetingOutcome::Accept { consumed: 2 + s[1] }
    }
}

/// Parse of a connect request `VER CMD RSV ATYP <addr> <port>` from the
/// prefix of `s`. The reserved byte is read but not judged. Faults are
/// reported in header order: version, then command, then address type.
pub open spec fn spec_decode_request(s: Seq<u8>) -> RequestOutcome {
    if s.len() < 4 {
        RequestOutcome::Incomplete
    } else if s[0] != SOCKS_VERSION {
        RequestOutcome::Reject(HandshakeError::UnsupportedVersion)
    } else if s[1] != CMD_CONNECT {
        RequestOutcome::Reject(HandshakeError::UnsupportedCommand)
    } else if s[3] == ATYP_V4 {
        if s.len() < 10 {
            RequestOutcome::Incomplete
        } else {
            RequestOutcome::Accept {
                target: (TargetAddrView::V4 {
                    octets: s.subrange(4, 8),
                    port: spec_port(s[8], s[9]),
                }),
                consumed: 10,
            }
        }
    } else if s[3] == ATYP_DOMAIN {
        if s.len() < 5 {
            RequestOutcome::Incomplete
        } else if s.len() < 7 + s[4] {
            RequestOutcome::Incomplete
        } else {
            RequestOutcome::Accept {
                target: (TargetAddrView::Domain {
                    name: s.subrange(5, 5 + s[4]),
                    port: spec_port(s[5 + s[4]], s[6 + s[4]]),
                }),
                consumed: 7 + s[4],
            }
        }
    } else if s[3] == ATYP_V6 {
        if s.len() < 22 {
            RequestOutcome::Incomplete
        } else {
            RequestOutcome::Accept {
                target: (TargetAddrView::V6 {
                    octets: s.subrange(4, 20),
                    port: spec_port(s[20], s[21]),
                }),
                consumed: 22,
            }
        }
    } else {
        RequestOutcome::Reject(HandshakeError::UnsupportedAddressType)
    }
}

/// Result of running the greeting decoder.
pub enum GreetingStep {
    Incomplete,
    Reject(HandshakeError),
    Accept { consumed: usize },
}

/// Result of running the request decoder.
pub enum RequestStep {
    Incomplete,
    Reject(HandshakeError),
    Accept { target: TargetAddr, consumed: usize },
}

/// The outcome a `GreetingStep` stands for.
pub open spec fn greeting_step_view(r: GreetingStep) -> GreetingOutcome {
    match r {
        GreetingStep::Incomplete => GreetingOutcome::Incomplete,
        GreetingStep::Reject(e) => GreetingOutcome::Reject(e),
        GreetingStep::Accept { consumed } => (GreetingOutcome::Accept { consumed: consumed as int }),
    }
}

/// The outcome a `RequestStep` stands for.
pub open spec fn request_step_view(r: RequestStep) -> RequestOutcome {
    match r {
        RequestStep::Incomplete => RequestOutcome::Incomplete,
        RequestStep::Reject(e) => RequestOutcome::Reject(e),
        RequestStep::Accept { target, consumed } => (RequestOutcome::Accept {
            target: target@,
            consumed: consumed as int,
        }),
    }
}

/// Decodes a greeting from the bytes read so far.
pub fn decode_greeting(buf: &Vec<u8>) -> (r: GreetingStep)
    ensures
        greeting_step_view(r) == spec_decode_greeting(buf@),
{
    if buf.len() < 2 {
        return GreetingStep::Incomplete;
    }
    if buf[0] != SOCKS_VERSION {
        return GreetingStep::Reject(HandshakeError::UnsupportedVersion);
    }
    let nmethods = buf[1] as usize;
    if buf.len() < 2 + nmethods {
        return GreetingStep::Incomplete;
    }
    GreetingStep::Accept { consumed: 2 + nmethods }
}

/// Decodes a connect request from the bytes read so far.
pub fn decode_request(buf: &Vec<u8>) -> (r: RequestStep)
    ensures
        request_step_view(r) == spec_decode_request(buf@),
{
    if buf.len() < 4 {
        return RequestStep::Incomplete;
    }
    if buf[0] != SOCKS_VERSION {
        return RequestStep::Reject(HandshakeError::UnsupportedVersion);
    }
    if buf[1] != CMD_CONNECT {
        return RequestStep::Reject(HandshakeError::UnsupportedCommand);
    }
    let atyp = buf[3];
    if atyp == ATYP_V4 {
        if buf.len() < 10 {
            return RequestStep::Incomplete;
        }
        let octets = copy_range(buf, 4, 4);
        let port = port_from_be(buf[8], buf[9]);
        RequestStep::Accept { target: TargetAddr::V4 { octets, port }, consumed: 10 }
    } else if atyp == ATYP_DOMAIN {
        if buf.len() < 5 {
            return RequestStep::Incomplete;
        }
        let n = buf[4] as usize;
        if buf.len() < 7 + n {
            return RequestStep::Incomplete;
        }
        let name = copy_range(buf, 5, n);
        let port = port_from_be(buf[5 + n], buf[6 + n]);
        RequestStep::Accept { target: TargetAddr::Domain { name, port }, consumed: 7 + n }
    } else if atyp == ATYP_V6 {
        if buf.len() < 22 {
            return RequestStep::Incomplete;
        }
        let octets = copy_range(buf, 4, 16);
        let port = port_from_be(buf[20], buf[21]);
        RequestStep::Accept { target: TargetAddr::V6 { octets, port }, consumed: 22 }
    } else {
        RequestStep::Reject(HandshakeError::UnsupportedAddressType)
    }
}

/// Copies `len` bytes of `buf` starting at `start` into a fresh vector.
fn copy_range(buf: &Vec<u8>, start: usize, len: usize) -> (r: Vec<u8>)
    requires
        start + len <= buf@.len(),
    ensures
        r@ == buf@.subrange(start as int, start as int + len as int),
{
    let blen: usize = buf.len();
    let mut out: Vec<u8> = Vec::new();
    let mut i: usize = 0;
    while i < len
        invariant
            i <= len,
            start + len <= blen,
            blen == buf@.len(),
            out@ == buf@.subrange(start as int, start as int + i as int),
        decreases len - i,
    {
        out.push(buf[start + i]);
        assert(out@ =~= buf@.subrange(start as int, start as int + (i + 1) as int));
        i = i + 1;
    }
    out
}

/// The greeting reply: version, then "no authentication" selected.
pub open spec fn spec_greeting_reply() -> Seq<u8> {
    seq![SOCKS_VERSION, METHOD_NO_AUTH]
}

/// The fixed success reply: status success, address type IPv4, all-zero
/// bound address and port.
pub open spec fn spec_success_reply() -> Seq<u8> {
    seq![SOCKS_VERSION, REPLY_SUCCESS, 0u8, ATYP_V4, 0u8, 0u8, 0u8, 0u8, 0u8, 0u8]
}

/// Builds the two-byte greeting reply.
pub fn greeting_reply() -> (r: Vec<u8>)
    ensures
        r@ == spec_greeting_reply(),
{
    let mut out: Vec<u8> = Vec::new();
    out.push(SOCKS_VERSION);
    out.push(METHOD_NO_AUTH);
    assert(out@ =~= spec_greeting_reply());
    out
}

/// Builds the fixed ten-byte success reply.
pub fn success_reply() -> (r: Vec<u8>)
    ensures
        r@ == spec_success_reply(),
{
    let mut out: Vec<u8> = Vec::new();
    out.push(SOCKS_VERSION);
    out.push(REPLY_SUCCESS);
    out.push(0u8);
    out.push(ATYP_V4);
    out.push(0u8);
    out.push(0u8);
    out.push(0u8);
    out.push(0u8);
    out.push(0u8);
    out.push(0u8);
    assert(out@ =~= spec_success_reply());
    out
}

/// Phase of the handshake state machine.
#[derive(Clone, Copy, PartialEq, Eq, Structural, Debug)]
pub enum HandshakePhase {
    AwaitingGreeting,
    AwaitingRequest,
    Established,
    Failed,
}

/// What the caller must do after feeding bytes to the engine.
pub enum EngineStep {
    /// Read more bytes and feed them again.
    NeedMore,
    /// Write the greeting reply and go on to the connect request.
    SendGreetingReply { reply: Vec<u8> },
    /// Write the success reply; the handshake is established for `target`.
    SendSuccess { reply: Vec<u8>, target: TargetAddr },
    /// Abort the connection; nothing is written.
    Fail { error: HandshakeError },
}

/// The handshake engine of one inbound local connection.
///
/// It either establishes with exactly one resolved target and a success
/// reply, or fails before any application byte is exchanged: a success reply
/// is produced only by the transition into `Established`.
pub struct HandshakeEngine {
    pub phase: HandshakePhase,
}

impl HandshakeEngine {
    /// A fresh engine awaiting the greeting.
    pub fn new() -> (e: Self)
        ensures
            e.phase is AwaitingGreeting,
    {
        HandshakeEngine { phase: HandshakePhase::AwaitingGreeting }
    }

    /// Feeds the bytes read so far for the current message and takes one
    /// step. Returns how many bytes of `buf` were consumed and what to do;
    /// a finished engine consumes nothing.
    pub fn advance(&mut self, buf: &Vec<u8>) -> (r: (usize, EngineStep))
        ensures
            match old(self).phase {
                HandshakePhase::AwaitingGreeting => match spec_decode_greeting(buf@) {
                    GreetingOutcome::Incomplete => r.0 == 0 && r.1 is NeedMore
                        && final(self).phase is AwaitingGreeting,
                    GreetingOutcome::Reject(e) => r.0 == 0
                        && (r.1 matches EngineStep::Fail { error } && error == e)
                        && final(self).phase is Failed,
                    GreetingOutcome::Accept { consumed } => r.0 == consumed
                        && (r.1 matches EngineStep::SendGreetingReply { reply }
                            && reply@ == spec_greeting_reply())
                        && final(self).phase is AwaitingRequest,
                },
                HandshakePhase::AwaitingRequest => match spec_decode_request(buf@) {
                    RequestOutcome::Incomplete => r.0 == 0 && r.1 is NeedMore
                        && final(self).phase is AwaitingRequest,
                    RequestOutcome::Reject(e) => r.0 == 0
                        && (r.1 matches EngineStep::Fail { error } && error == e)
                        && final(self).phase is Failed,
                    RequestOutcome::Accept { target, consumed } => r.0 == consumed
                        && (r.1 matches EngineStep::SendSuccess { reply, target: t }
                            && reply@ == spec_success_reply()
                            && t@ == target
                            && wf_target(t@))
                        && final(self).phase is Established,
                },
                HandshakePhase::Established => r.0 == 0 && r.1 is NeedMore
                    && final(self).phase is Established,
                HandshakePhase::Failed => r.0 == 0 && r.1 is NeedMore && final(self).phase is Failed,
            },
    {
        match self.phase {
            HandshakePhase::AwaitingGreeting => {
                match decode_greeting(buf) {
                    GreetingStep::Incomplete => (0, EngineStep::NeedMore),
                    GreetingStep::Reject(error) => {
                        self.phase = HandshakePhase::Failed;
                        (0, EngineStep::Fail { error })
                    },
                    GreetingStep::Accept { consumed } => {
                        self.phase = HandshakePhase::AwaitingRequest;
                        (consumed, EngineStep::SendGreetingReply { reply: greeting_reply() })
                    },
                }
            },
            HandshakePhase::AwaitingRequest => {
                match decode_request(buf) {
                    RequestStep::Incomplete => (0, EngineStep::NeedMore),
                    RequestStep::Reject(error) => {
                        self.phase = HandshakePhase::Failed;
                        (0, EngineStep::Fail { error })
                    },
                    RequestStep::Accept { target, consumed } => {
                        self.phase = HandshakePhase::Established;
                        (consumed, EngineStep::SendSuccess { reply: success_reply(), target })
                    },
                }
            },
            HandshakePhase::Established => (0, EngineStep::NeedMore),
            HandshakePhase::Failed => (0, EngineStep::NeedMore),
        }
    }
}

/// The three-byte client greeting: version, one method, "no authentication".
pub open spec fn spec_client_greeting() -> Seq<u8> {
    seq![SOCKS_VERSION, 1u8, METHOD_NO_AUTH]
}

/// Builds the client greeting for traversing an upstream proxy.
pub fn client_greeting() -> (r: Vec<u8>)
    ensures
        r@ == spec_client_greeting(),
{
    let mut out: Vec<u8> = Vec::new();
    out.push(SOCKS_VERSION);
    out.push(1u8);
    out.push(METHOD_NO_AUTH);
    assert(out@ =~= spec_client_greeting());
    out
}

/// The wire encoding of a connect request for `t`.
pub open spec fn spec_encode_request(t: TargetAddrView) -> Seq<u8> {
    match t {
        TargetAddrView::V4 { octets, port } => seq![SOCKS_VERSION, CMD_CONNECT, 0u8, ATYP_V4]
            + octets + seq![spec_port_hi(port), spec_port_lo(port)],
        TargetAddrView::Domain { name, port } => seq![
            SOCKS_VERSION, CMD_CONNECT, 0u8, ATYP_DOMAIN, name.len() as u8,
        ] + name + seq![spec_port_hi(port), spec_port_lo(port)],
        TargetAddrView::V6 { octets, port } => seq![SOCKS_VERSION, CMD_CONNECT, 0u8, ATYP_V6]
            + octets + seq![spec_port_hi(port), spec_port_lo(port)],
    }
}

/// Encodes a connect request for `target`.
pub fn encode_connect_request(target: &TargetAddr) -> (r: Vec<u8>)
    requires
        wf_target(target@),
    ensures
        r@ == spec_encode_request(target@),
{
    let mut out: Vec<u8> = Vec::new();
    out.push(SOCKS_VERSION);
    out.push(CMD_CONNECT);
    out.push(0u8);
    match target {
        TargetAddr::V4 { octets, port } => {
            out.push(ATYP_V4);
            push_all(&mut out, octets);
            push_port(&mut out, *port);
        },
        TargetAddr::Domain { name, port } => {
            out.push(ATYP_DOMAIN);
            out.push(name.len() as u8);
            push_all(&mut out, name);
            push_port(&mut out, *port);
        },
        TargetAddr::V6 { octets, port } => {
            out.push(ATYP_V6);
            push_all(&mut out, octets);
            push_port(&mut out, *port);
        },
    }
    assert(out@ =~= spec_encode_request(target@));
    out
}

/// Appends all bytes of `src` to `out`.
fn push_all(out: &mut Vec<u8>, src: &Vec<u8>)
    ensures
        final(out)@ == old(out)@ + src@,
{
    let n: usize = src.len();
    let mut i: usize = 0;
    while i < n
        invariant
            i <= n,
            n == src@.len(),
            out@ == old(out)@ + src@.subrange(0, i as int),
        decreases n - i,
    {
        out.push(src[i]);
        assert(out@ =~= old(out)@ + src@.subrange(0, (i + 1) as int));
        i = i + 1;
    }
    assert(out@ =~= old(out)@ + src@);
}

/// Appends a port in big-endian order.
fn push_port(out: &mut Vec<u8>, port: u16)
    ensures
        final(out)@ == old(out)@ + seq![spec_port_hi(port), spec_port_lo(port)],
{
    out.push((port / 256) as u8);
    out.push((port % 256) as u8);
    assert(out@ =~= old(out)@ + seq![spec_port_hi(port), spec_port_lo(port)]);
}

/// Judges the upstream proxy's two-byte greeting reply.
pub fn parse_method_reply(ver: u8, method: u8) -> (r: Result<(), HandshakeError>)
    ensures
        r is Ok <==> ver == SOCKS_VERSION && method == METHOD_NO_AUTH,
        ver != SOCKS_VERSION ==> r == Err::<(), HandshakeError>(HandshakeError::UnsupportedVersion),
        ver == SOCKS_VERSION && method != METHOD_NO_AUTH
            ==> r == Err::<(), HandshakeError>(HandshakeError::BadReply),
{
    if ver != SOCKS_VERSION {
        Err(HandshakeError::UnsupportedVersion)
    } else if method != METHOD_NO_AUTH {
        Err(HandshakeError::BadReply)
    } else {
        Ok(())
    }
}

/// The address-type tag of an upstream connect reply, deciding how long the
/// bound-address trailer is.
#[derive(Clone, Copy, PartialEq, Eq, Structural, Debug)]
pub enum ReplyAddrTag {
    V4,
    Domain,
    V6,
}

/// Judges the header of an upstream connect reply: version, then reply
/// status, then address type.
pub fn parse_connect_reply_header(ver: u8, rep: u8, atyp: u8) -> (r: Result<
    ReplyAddrTag,
    HandshakeError,
>)
    ensures
        ver != SOCKS_VERSION
            ==> r == Err::<ReplyAddrTag, HandshakeError>(HandshakeError::UnsupportedVersion),
        ver == SOCKS_VERSION && rep != REPLY_SUCCESS
            ==> r == Err::<ReplyAddrTag, HandshakeError>(HandshakeError::BadReply),
        ver == SOCKS_VERSION && rep == REPLY_SUCCESS ==> {
            &&& atyp == ATYP_V4 ==> r == Ok::<ReplyAddrTag, HandshakeError>(ReplyAddrTag::V4)
            &&& atyp == ATYP_DOMAIN ==> r == Ok::<ReplyAddrTag, HandshakeError>(ReplyAddrTag::Domain)
            &&& atyp == ATYP_V6 ==> r == Ok::<ReplyAddrTag, HandshakeError>(ReplyAddrTag::V6)
            &&& atyp != ATYP_V4 && atyp != ATYP_DOMAIN && atyp != ATYP_V6 ==> r == Err::<
                ReplyAddrTag,
                HandshakeError,
            >(HandshakeError::UnsupportedAddressType)
        },
{
    if ver != SOCKS_VERSION {
        Err(HandshakeError::UnsupportedVersion)
    } else if rep != REPLY_SUCCESS {
        Err(HandshakeError::BadReply)
    } else if atyp == ATYP_V4 {
        Ok(ReplyAddrTag::V4)
    } else if atyp == ATYP_DOMAIN {
        Ok(ReplyAddrTag::Domain)
    } else if atyp == ATYP_V6 {
        Ok(ReplyAddrTag::V6)
    } else {
        Err(HandshakeError::UnsupportedAddressType)
    }
}

/// How many trailer bytes of an upstream connect reply remain to be read and
/// discarded. For a domain-tagged reply, `domain_len` is the length byte
/// that follows the header; for the literal tags it is not used.
pub fn reply_trailer_len(tag: ReplyAddrTag, domain_len: u8) -> (n: usize)
    ensures
        tag is V4 ==> n == 6,
        tag is Domain ==> n == domain_len + 2,
        tag is V6 ==> n == 18,
{
    match tag {
        ReplyAddrTag::V4 => 6,
        ReplyAddrTag::Domain => (domain_len as usize) + 2,
        ReplyAddrTag::V6 => 18,
    }
}

/// Round trip: a connect request encoded for a well-formed target, followed
/// by any further bytes of the stream, decodes back to that exact target and
/// consumes exactly the encoding.
pub proof fn lemma_connect_round_trip(t: TargetAddrView, rest: Seq<u8>)
    requires
        wf_target(t),
    ensures
        spec_decode_request(spec_encode_request(t) + rest) == (RequestOutcome::Accept {
            target: t,
            consumed: spec_encode_request(t).len() as int,
        }),
{
    let s = spec_encode_request(t) + rest;
    match t {
        TargetAddrView::V4 { octets, port } => {
            assert(s.subrange(4, 8) =~= octets);
            assert(spec_port(s[8], s[9]) == port) by {
                assert(s[8] == spec_port_hi(port) && s[9] == spec_port_lo(port));
            };
        },
        TargetAddrView::Domain { name, port } => {
            let n = name.len() as int;
            assert(s[4] == n);
            assert(s.subrange(5, 5 + n) =~= name);
            assert(s[5 + n] == spec_port_hi(port) && s[6 + n] == spec_port_lo(port));
        },
        TargetAddrView::V6 { octets, port } => {
            assert(s.subrange(4, 20) =~= octets);
            assert(s[20] == spec_port_hi(port) && s[21] == spec_port_lo(port));
        },
    }
}

/// A connect request whose version is not `0x05`, whose command is not
/// CONNECT, or whose address type is none of the three supported tags is
/// rejected with the matching error, so the engine never replies to it.
pub proof fn lemma_invalid_request_rejected(s: Seq<u8>)
    requires
        s.len() >= 4,
    ensures
        s[0] != SOCKS_VERSION ==> spec_decode_request(s) == RequestOutcome::Reject(
            HandshakeError::UnsupportedVersion,
        ),
        s[0] == SOCKS_VERSION && s[1] != CMD_CONNECT ==> spec_decode_request(s)
            == RequestOutcome::Reject(HandshakeError::UnsupportedCommand),
        s[0] == SOCKS_VERSION && s[1] == CMD_CONNECT && s[3] != ATYP_V4 && s[3] != ATYP_DOMAIN
            && s[3] != ATYP_V6 ==> spec_decode_request(s) == RequestOutcome::Reject(
            HandshakeError::UnsupportedAddressType,
        ),
{
}

/// A greeting whose version is not `0x05` is rejected once both header bytes
/// are present.
pub proof fn lemma_invalid_greeting_rejected(s: Seq<u8>)
    requires
        s.len() >= 2,
        s[0] != SOCKS_VERSION,
    ensures
        spec_decode_greeting(s) == GreetingOutcome::Reject(HandshakeError::UnsupportedVersion),
{
}

/// A greeting verdict other than "more bytes needed" is final: reading
/// further bytes of the stream cannot change it.
pub proof fn lemma_greeting_decode_stable(s: Seq<u8>, t: Seq<u8>)
    requires
        s.len() <= t.len(),
        s == t.subrange(0, s.len() as int),
        !(spec_decode_greeting(s) is Incomplete),
    ensures
        spec_decode_greeting(t) == spec_decode_greeting(s),
{
    assert(t[0] == s[0]);
    assert(t[1] == s[1]);
}

/// A connect-request verdict other than "more bytes needed" is final:
/// reading further bytes of the stream cannot change it.
pub proof fn lemma_request_decode_stable(s: Seq<u8>, t: Seq<u8>)
    requires
        s.len() <= t.len(),
        s == t.subrange(0, s.len() as int),
        !(spec_decode_request(s) is Incomplete),
    ensures
        spec_decode_request(t) == spec_decode_request(s),
{
    assert(forall|k: int| 0 <= k < s.len() ==> t[k] == s[k]);
    if s[0] == SOCKS_VERSION && s[1] == CMD_CONNECT {
        if s[3] == ATYP_V4 {
            assert(t.subrange(4, 8) =~= s.subrange(4, 8));
        } else if s[3] == ATYP_DOMAIN {
            let n = s[4] as int;
            assert(t.subrange(5, 5 + n) =~= s.subrange(5, 5 + n));
        } else if s[3] == ATYP_V6 {
            assert(t.subrange(4, 20) =~= s.subrange(4, 20));
        }
    }
}

} // verus!
