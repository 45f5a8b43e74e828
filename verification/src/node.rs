//! The peer-to-peer link between a connecting node and a hosting node: the
//! hosting node's key, the stages of a link, and the proxy layer that a
//! connecting node opens for its local clients.

use vstd::prelude::*;
use crate::keys::{is_node_key, public_key_from_bytes, NodeKey};
use crate::service::ServiceCheck;

verus! {

/// Why a hosting node cannot be addressed.
#[derive(Debug, PartialEq, Eq, Structural)]
pub enum TargetError {
    /// The key is not 32 bytes long.
    KeyLength,
    /// The 32 bytes are no valid node key.
    InvalidKey,
}

/// The node key held in `bytes`, which keeps these bytes: refused unless they
/// are 32 bytes long and a valid key.
pub fn node_key(bytes: &Vec<u8>) -> (r: Result<NodeKey, TargetError>)
    ensures
        r matches Ok(k) ==> k.bytes() == bytes@,
        bytes@.len() != 32 ==> r matches Err(TargetError::KeyLength),
        bytes@.len() == 32 && is_node_key(bytes@) ==> r is Ok,
        bytes@.len() == 32 && !is_node_key(bytes@) ==> r matches Err(TargetError::InvalidKey),
{
    if bytes.len() != 32 {
        return Err(TargetError::KeyLength);
    }
    match public_key_from_bytes(bytes.as_slice()) {
        Some(key) => Ok(key),
        None => Err(TargetError::InvalidKey),
    }
}

/// The node that a connecting node first tries, to test that the session's
/// host is up: the key is read from the `alpn` bytes of the service's answer
/// and keeps them.
pub fn test_target(check: &ServiceCheck) -> (r: Result<NodeKey, TargetError>)
    requires
        check.alpn is Some,
    ensures
        r matches Ok(k) ==> k.bytes() == check.alpn->0@,
        check.alpn->0@.len() != 32 ==> r matches Err(TargetError::KeyLength),
        check.alpn->0@.len() == 32 && is_node_key(check.alpn->0@) ==> r is Ok,
        check.alpn->0@.len() == 32 && !is_node_key(check.alpn->0@) ==> r matches Err(
            TargetError::InvalidKey,
        ),
{
    match &check.alpn {
        Some(alpn) => node_key(alpn),
        None => Err(TargetError::KeyLength),
    }
}

/// The byte that a node writes first on a new bidirectional stream.
pub fn greeting() -> (g: Vec<u8>)
    ensures
        g@ == seq![1u8],
{
    let g: Vec<u8> = vec![1u8];
    g
}

/// A stage in linking to a hosting node.
#[derive(Debug, PartialEq, Eq, Structural, Clone, Copy)]
pub enum LinkStage {
    /// Connecting to the node.
    Connect,
    /// Opening a bidirectional stream.
    OpenStream,
    /// Writing the greeting on the stream.
    Greet,
    /// Linked: the stream carries traffic.
    Ready,
}

/// Why a link failed.
#[derive(Debug, PartialEq, Eq, Structural, Clone, Copy)]
pub enum LinkFailure {
    CannotConnect,
    StreamRefused,
    GreetFailed,
}

/// The stage after `stage` succeeded or failed: each step leads to the next,
/// a failure ends the link with its reason.
pub open spec fn link_next_of(stage: LinkStage, ok: bool) -> Result<LinkStage, LinkFailure> {
    match stage {
        LinkStage::Connect => if ok {
            Ok(LinkStage::OpenStream)
        } else {
            Err(LinkFailure::CannotConnect)
        },
        LinkStage::OpenStream => if ok {
            Ok(LinkStage::Greet)
        } else {
            Err(LinkFailure::StreamRefused)
        },
        LinkStage::Greet => if ok {
            Ok(LinkStage::Ready)
        } else {
            Err(LinkFailure::GreetFailed)
        },
        LinkStage::Ready => Ok(LinkStage::Ready),
    }
}

/// The stage of a link after `stage` succeeded (`ok`) or failed.
pub fn link_next(stage: LinkStage, ok: bool) -> (r: Result<LinkStage, LinkFailure>)
    ensures
        r == link_next_of(stage, ok),
{
    match stage {
        LinkStage::Connect => if ok {
            Ok(LinkStage::OpenStream)
        } else {
            Err(LinkFailure::CannotConnect)
        },
        LinkStage::OpenStream => if ok {
            Ok(LinkStage::Greet)
        } else {
            Err(LinkFailure::StreamRefused)
        },
        LinkStage::Greet => if ok {
            Ok(LinkStage::Ready)
        } else {
            Err(LinkFailure::GreetFailed)
        },
        LinkStage::Ready => Ok(LinkStage::Ready),
    }
}

/// The position of a stage in the order in which a link is made.
pub open spec fn link_rank(stage: LinkStage) -> nat {
    match stage {
        LinkStage::Connect => 0,
        LinkStage::OpenStream => 1,
        LinkStage::Greet => 2,
        LinkStage::Ready => 3,
    }
}

/// Each step of a link that succeeds leads to the step after it, and each
/// step that fails ends the link; a made link stays made.
pub proof fn link_steps_in_order(stage: LinkStage, ok: bool)
    ensures
        stage != LinkStage::Ready ==> (link_next_of(stage, true) matches Ok(next) && link_rank(next)
            == link_rank(stage) + 1),
        stage != LinkStage::Ready ==> link_next_of(stage, false) is Err,
        link_next_of(LinkStage::Ready, ok) == Ok::<LinkStage, LinkFailure>(LinkStage::Ready),
{
}

/// The port of the proxy layer and of the local server.
pub const PROXY_PORT: u16 = 25565;

/// How many pending connections the proxy layer's listener holds.
pub const LISTEN_BACKLOG: u32 = 1024;

/// A stage of a connecting node: test the link to the host, then open the
/// proxy layer (IPv4 first, IPv6 if that fails), listen, and serve clients.
#[derive(Debug, PartialEq, Eq, Structural, Clone, Copy)]
pub enum EstablishStage {
    Test(LinkStage),
    BindV4,
    BindV6,
    Listen,
    Serve,
}

/// Why a connecting node gave up.
#[derive(Debug, PartialEq, Eq, Structural, Clone, Copy)]
pub enum EstablishFailure {
    /// The test link to the host failed.
    Test(LinkFailure),
    /// Neither `0.0.0.0:25565` nor `[::]:25565` could be bound.
    NoProxyPort,
    /// The bound socket could not listen.
    ListenFailed,
}

/// The stage after `stage` succeeded or failed. A finished test link is
/// closed and the proxy layer is bound; a failed IPv4 bind falls back to
/// IPv6; once serving, a failed accept is passed over.
pub open spec fn establish_next_of(stage: EstablishStage, ok: bool) -> Result<
    EstablishStage,
    EstablishFailure,
> {
    match stage {
        EstablishStage::Test(link) => match link_next_of(link, ok) {
            Ok(LinkStage::Ready) => Ok(EstablishStage::BindV4),
            Ok(next) => Ok(EstablishStage::Test(next)),
            Err(failure) => Err(EstablishFailure::Test(failure)),
        },
        EstablishStage::BindV4 => if ok {
            Ok(EstablishStage::Listen)
        } else {
            Ok(EstablishStage::BindV6)
        },
        EstablishStage::BindV6 => if ok {
            Ok(EstablishStage::Listen)
        } else {
            Err(EstablishFailure::NoProxyPort)
        },
        EstablishStage::Listen => if ok {
            Ok(EstablishStage::Serve)
        } else {
            Err(EstablishFailure::ListenFailed)
        },
        EstablishStage::Serve => Ok(EstablishStage::Serve),
    }
}

/// The stage of a connecting node after `stage` succeeded (`ok`) or failed.
pub fn establish_next(stage: EstablishStage, ok: bool) -> (r: Result<EstablishStage, EstablishFailure>)
    ensures
        r == establish_next_of(stage, ok),
{
    match stage {
        EstablishStage::Test(link) => match link_next(link, ok) {
            Ok(LinkStage::Ready) => Ok(EstablishStage::BindV4),
            Ok(next) => Ok(EstablishStage::Test(next)),
            Err(failure) => Err(EstablishFailure::Test(failure)),
        },
        EstablishStage::BindV4 => if ok {
            Ok(EstablishStage::Listen)
        } else {
            Ok(EstablishStage::BindV6)
        },
        EstablishStage::BindV6 => if ok {
            Ok(EstablishStage::Listen)
        } else {
            Err(EstablishFailure::NoProxyPort)
        },
        EstablishStage::Listen => if ok {
            Ok(EstablishStage::Serve)
        } else {
            Err(EstablishFailure::ListenFailed)
        },
        EstablishStage::Serve => Ok(EstablishStage::Serve),
    }
}

/// A connecting node opens its proxy layer only once its test link to the
/// host is complete (connected, stream opened, greeting written); it binds IPv6
/// only after IPv4 failed; it listens only on a bound socket and serves only
/// once listening, and it keeps serving.
pub proof fn proxy_layer_needs_tested_host(stage: EstablishStage, ok: bool)
    ensures
        establish_next_of(stage, ok) == Ok::<EstablishStage, EstablishFailure>(
            EstablishStage::BindV4,
        ) ==> (stage matches EstablishStage::Test(link) && link_next_of(link, ok) == Ok::<
            LinkStage,
            LinkFailure,
        >(LinkStage::Ready)),
        establish_next_of(stage, ok) == Ok::<EstablishStage, EstablishFailure>(
            EstablishStage::BindV6,
        ) ==> stage == EstablishStage::BindV4 && !ok,
        establish_next_of(stage, ok) == Ok::<EstablishStage, EstablishFailure>(
            EstablishStage::Listen,
        ) ==> (stage == EstablishStage::BindV4 || stage == EstablishStage::BindV6) && ok,
        establish_next_of(stage, ok) == Ok::<EstablishStage, EstablishFailure>(
            EstablishStage::Serve,
        ) ==> (stage == EstablishStage::Listen && ok) || stage == EstablishStage::Serve,
        stage == EstablishStage::Serve ==> establish_next_of(stage, ok) == Ok::<
            EstablishStage,
            EstablishFailure,
        >(EstablishStage::Serve),
{
}

/// The position of a stage in the order in which a connecting node goes
/// through them.
pub open spec fn establish_rank(stage: EstablishStage) -> nat {
    match stage {
        EstablishStage::Test(link) => link_rank(link),
        EstablishStage::BindV4 => 4,
        EstablishStage::BindV6 => 5,
        EstablishStage::Listen => 6,
        EstablishStage::Serve => 7,
    }
}

/// A step of a connecting node that succeeds never ends it and always moves
/// it forward; a successful bind, on IPv4 or on IPv6, leads to listening on
/// the bound socket; a listening node that succeeds serves.
pub proof fn establish_success_moves_forward(stage: EstablishStage)
    ensures
        stage != EstablishStage::Serve ==> (establish_next_of(stage, true) matches Ok(next)
            && establish_rank(next) > establish_rank(stage)),
        (stage == EstablishStage::BindV4 || stage == EstablishStage::BindV6) ==> establish_next_of(
            stage,
            true,
        ) == Ok::<EstablishStage, EstablishFailure>(EstablishStage::Listen),
        stage == EstablishStage::Listen ==> establish_next_of(stage, true) == Ok::<
            EstablishStage,
            EstablishFailure,
        >(EstablishStage::Serve),
{
}

/// A step of a connecting node that fails ends it, with the reason of that
/// step, except a failed IPv4 bind, which falls back to IPv6; a complete test
/// link and serving cannot fail.
pub proof fn establish_failure_ends(stage: EstablishStage)
    ensures
        stage == EstablishStage::BindV4 ==> establish_next_of(stage, false) == Ok::<
            EstablishStage,
            EstablishFailure,
        >(EstablishStage::BindV6),
        (stage matches EstablishStage::Test(link) && link != LinkStage::Ready) ==> (establish_next_of(
            stage,
            false,
        ) matches Err(EstablishFailure::Test(_))),
        stage == EstablishStage::BindV6 ==> establish_next_of(stage, false) == Err::<
            EstablishStage,
            EstablishFailure,
        >(EstablishFailure::NoProxyPort),
        stage == EstablishStage::Listen ==> establish_next_of(stage, false) == Err::<
            EstablishStage,
            EstablishFailure,
        >(EstablishFailure::ListenFailed),
        (stage == EstablishStage::Test(LinkStage::Ready) || stage == EstablishStage::Serve)
            ==> establish_next_of(stage, false) is Ok,
{
}

/// A stage of a hosting node's answer to an incoming connection: accept the
/// connection, accept its stream, bind a local socket, connect to the local
/// server, then relay.
#[derive(Debug, PartialEq, Eq, Structural, Clone, Copy)]
pub enum HostStage {
    Accept,
    AcceptStream,
    BindLocal,
    ConnectServer,
    Relay,
}

/// Why a hosting node dropped an incoming connection.
#[derive(Debug, PartialEq, Eq, Structural, Clone, Copy)]
pub enum HostFailure {
    /// The connection's handshake failed.
    Handshake,
    /// The peer opened no stream.
    StreamRefused,
    /// The local server could not be reached.
    ServerUnreachable,
}

/// The stage after `stage` succeeded or failed. A failed bind of the local
/// socket is only reported: the connection to the server is tried anyway.
pub open spec fn host_next_of(stage: HostStage, ok: bool) -> Result<HostStage, HostFailure> {
    match stage {
        HostStage::Accept => if ok {
            Ok(HostStage::AcceptStream)
        } else {
            Err(HostFailure::Handshake)
        },
        HostStage::AcceptStream => if ok {
            Ok(HostStage::BindLocal)
        } else {
            Err(HostFailure::StreamRefused)
        },
        HostStage::BindLocal => Ok(HostStage::ConnectServer),
        HostStage::ConnectServer => if ok {
            Ok(HostStage::Relay)
        } else {
            Err(HostFailure::ServerUnreachable)
        },
        HostStage::Relay => Ok(HostStage::Relay),
    }
}

/// The stage of a hosting node's connection after `stage` succeeded (`ok`) or
/// failed.
pub fn host_next(stage: HostStage, ok: bool) -> (r: Result<HostStage, HostFailure>)
    ensures
        r == host_next_of(stage, ok),
{
    match stage {
        HostStage::Accept => if ok {
            Ok(HostStage::AcceptStream)
        } else {
            Err(HostFailure::Handshake)
        },
        HostStage::AcceptStream => if ok {
            Ok(HostStage::BindLocal)
        } else {
            Err(HostFailure::StreamRefused)
        },
        HostStage::BindLocal => Ok(HostStage::ConnectServer),
        HostStage::ConnectServer => if ok {
            Ok(HostStage::Relay)
        } else {
            Err(HostFailure::ServerUnreachable)
        },
        HostStage::Relay => Ok(HostStage::Relay),
    }
}

/// The position of a stage in the order in which a hosting node answers a
/// connection.
pub open spec fn host_rank(stage: HostStage) -> nat {
    match stage {
        HostStage::Accept => 0,
        HostStage::AcceptStream => 1,
        HostStage::BindLocal => 2,
        HostStage::ConnectServer => 3,
        HostStage::Relay => 4,
    }
}

/// Each step of a hosting node that succeeds leads to the step after it
/// (accept, accept the stream, bind locally, connect to the server, relay);
/// only a failure ends the connection, with the reason of the failed step; a
/// failed local bind is passed over, and relaying goes on.
pub proof fn host_steps_in_order(stage: HostStage, ok: bool)
    ensures
        stage != HostStage::Relay ==> (host_next_of(stage, true) matches Ok(next) && host_rank(next)
            == host_rank(stage) + 1),
        host_next_of(stage, ok) is Err ==> !ok,
        host_next_of(stage, ok) == Err::<HostStage, HostFailure>(HostFailure::Handshake) <==> (
        stage == HostStage::Accept && !ok),
        host_next_of(stage, ok) == Err::<HostStage, HostFailure>(HostFailure::StreamRefused) <==> (
        stage == HostStage::AcceptStream && !ok),
        host_next_of(stage, ok) == Err::<HostStage, HostFailure>(HostFailure::ServerUnreachable)
            <==> (stage == HostStage::ConnectServer && !ok),
        host_next_of(HostStage::BindLocal, ok) == Ok::<HostStage, HostFailure>(
            HostStage::ConnectServer,
        ),
        host_next_of(HostStage::Relay, ok) == Ok::<HostStage, HostFailure>(HostStage::Relay),
{
}

} // verus!
