//! What holds of the TUIC outbound as a whole.
use vstd::prelude::*;
use crate::session::{IpAddr, SocketAddr, SocksAddr};
use crate::text::{ascii_lower, same_ignoring_case};
use crate::tuic::datagram::{incoming, outgoing, RelayPacket, UdpPacket};
use crate::tuic::error::TuicError;
use crate::tuic::handler::api_entries;
use crate::tuic::init::{
    checked, init_outcome, outbound_settings_of, peer_of, tls_settings_of, ConnectOutcome,
    InitResults, OutboundSettings, TlsSettings,
};
use crate::tuic::options::{HandlerOptions, SocketPolicy};
use crate::tuic::outbound::{stream_outcome, OutboundCell};
use crate::tuic::types::{
    address_of, target_of, CongestionControl, ResolveEvent, ResolveStep, ServerAddr, TargetAddr,
    UdpRelayMode,
};

verus! {

/// A TUIC address stands for a destination whose TUIC form it is.
pub proof fn law_target_comes_back(target: TargetAddr)
    ensures
        target_of(address_of(target)) == target,
{
}

/// The TUIC form of a destination stands for that destination, if it has no flow
/// information and no scope, which the form does not hold.
pub proof fn law_destination_comes_back(addr: SocksAddr)
    requires
        addr matches SocksAddr::Ip(SocketAddr::V6(v6)) ==> v6.flowinfo == 0 && v6.scope_id == 0,
    ensures
        address_of(target_of(addr)) == addr,
{
}

/// A reply keeps its payload. One from where a packet was sent to reaches the client
/// as coming from that destination.
pub proof fn law_reply_comes_from_destination(
    sent: UdpPacket,
    reply: RelayPacket,
    local_addr: SocksAddr,
)
    requires
        reply.target == outgoing(sent).target,
        sent.dst_addr matches SocksAddr::Ip(SocketAddr::V6(v6)) ==> v6.flowinfo == 0
            && v6.scope_id == 0,
    ensures
        incoming(reply, local_addr).src_addr == sent.dst_addr,
        incoming(reply, local_addr).dst_addr == local_addr,
        incoming(reply, local_addr).data == reply.payload,
{
}

/// The name of a relay mode stands for the mode.
pub proof fn law_relay_mode_name_comes_back(mode: UdpRelayMode)
    ensures
        UdpRelayMode::named(mode.name()) == mode,
{
    reveal_strlit("native");
    reveal_strlit("quic");
    assert(ascii_lower("native"@).len() == 6);
    assert(ascii_lower("quic"@).len() == 4);
}

/// Names of relay modes and congestion controllers are read whatever the case of
/// their ASCII letters.
pub proof fn law_names_ignore_case(name: Seq<char>, other: Seq<char>)
    requires
        same_ignoring_case(name, other),
    ensures
        UdpRelayMode::named(name) == UdpRelayMode::named(other),
        CongestionControl::named(name) == CongestionControl::named(other),
{
}

/// A configured address is used whatever the domain stands for and whatever is
/// learned of the server, and nothing is asked.
pub proof fn law_configured_address_is_used(
    server: ServerAddr,
    ip: IpAddr,
    literal: Option<IpAddr>,
    event: ResolveEvent,
    step: ResolveStep,
)
    requires
        server.ip == Some(ip),
        server.resolves_by(literal, event, step),
    ensures
        step == ResolveStep::Finish(Ok(SocketAddr::of(ip, server.port))),
{
}

/// Resolution asks at most once, and not at all where an address is configured or the
/// domain stands for one.
pub proof fn law_resolution_ends(
    server: ServerAddr,
    literal: Option<IpAddr>,
    event: ResolveEvent,
    step: ResolveStep,
)
    requires
        server.resolves_by(literal, event, step),
    ensures
        event is Answer ==> step is Finish,
        server.ip is Some || literal is Some ==> step is Finish,
{
}

/// Whatever address is found for a server, it is dialled at the server's port.
pub proof fn law_port_is_kept(
    server: ServerAddr,
    literal: Option<IpAddr>,
    event: ResolveEvent,
    step: ResolveStep,
    peer: SocketAddr,
)
    requires
        server.resolves_by(literal, event, step),
        step == ResolveStep::Finish(Ok(peer)),
    ensures
        exists|ip: IpAddr| peer == #[trigger] SocketAddr::of(ip, server.port),
{
}

/// An outbound is built if and only if the configuration is accepted and every step
/// succeeds, and then with the session's socket policy.
pub proof fn law_outbound_is_built_iff_all_succeeds(
    opts: HandlerOptions,
    policy: SocketPolicy,
    peer: Result<SocketAddr, TuicError>,
    results: InitResults,
)
    ensures
        init_outcome(opts, policy, peer, results) is Ok <==> checked(opts) is Ok && results.tls is Ok
            && peer is Ok && results.connect is Ready && results.poll is Ok,
        init_outcome(opts, policy, peer, results) is Ok ==> init_outcome(opts, policy, peer, results)
            == Ok::<SocketPolicy, TuicError>(policy),
{
}

/// A zero interval is reported whatever else would have happened, and of two the
/// heartbeat's.
pub proof fn law_zero_interval_comes_first(
    opts: HandlerOptions,
    policy: SocketPolicy,
    peer: Result<SocketAddr, TuicError>,
    results: InitResults,
)
    requires
        checked(opts) is Err,
    ensures
        init_outcome(opts, policy, peer, results) == Err::<SocketPolicy, TuicError>(
            if opts.heartbeat_interval.in_nanos() == 0 {
                TuicError::HeartbeatInterval
            } else {
                TuicError::GcInterval
            },
        ),
{
}

/// With a configured address, neither the server's text nor the resolver has a say.
pub proof fn law_configured_address_decides(
    opts: HandlerOptions,
    address: IpAddr,
    literal: Option<IpAddr>,
    answer: Result<Option<IpAddr>, String>,
)
    requires
        opts.ip is Some,
    ensures
        peer_of(opts, Some(address), literal, answer) == Ok::<SocketAddr, TuicError>(
            SocketAddr::of(address, opts.port),
        ),
{
}

/// The TLS client and the connection are set up alike: early data where the
/// handshake takes no round trip, and the same trust in certificates.
pub proof fn law_tls_and_connection_agree(
    opts: HandlerOptions,
    tls: TlsSettings,
    peer: SocketAddr,
    policy: SocketPolicy,
    alpn: Seq<Seq<char>>,
    out: OutboundSettings,
)
    requires
        tls_settings_of(opts, tls),
        outbound_settings_of(opts, peer, policy, alpn, out),
    ensures
        tls.enable_early_data == out.zero_rtt_handshake,
        tls.skip_cert_verify == out.skip_cert_verify,
{
}

/// A stream is opened if and only if there is an outbound and the attempt on it
/// succeeds; an error of getting the outbound is handed on as it is.
pub proof fn law_stream_opens_iff_all_succeeds(
    outbound: Result<(), TuicError>,
    outcome: ConnectOutcome,
)
    ensures
        stream_outcome(outbound, outcome) is Ok <==> outbound is Ok && outcome is Ready,
        outbound is Err ==> stream_outcome(outbound, outcome) == outbound,
{
}

/// The size limit of relayed packets has no say: not in what is accepted, which server
/// is dialled, how it is dialled, what comes of it, or how the outbound is described.
pub proof fn law_packet_size_has_no_say(
    opts: HandlerOptions,
    size: u64,
    configured: Option<IpAddr>,
    literal: Option<IpAddr>,
    tls: TlsSettings,
    peer: SocketAddr,
    policy: SocketPolicy,
    alpn: Seq<Seq<char>>,
    out: OutboundSettings,
    results: InitResults,
)
    ensures
        ({
            let other = HandlerOptions { max_udp_relay_packet_size: size, ..opts };
            let dialled = peer_of(opts, configured, literal, results.answer);
            &&& checked(other) == checked(opts)
            &&& peer_of(other, configured, literal, results.answer) == dialled
            &&& tls_settings_of(other, tls) == tls_settings_of(opts, tls)
            &&& outbound_settings_of(other, peer, policy, alpn, out) == outbound_settings_of(
                opts,
                peer,
                policy,
                alpn,
                out,
            )
            &&& init_outcome(other, policy, dialled, results) == init_outcome(
                opts,
                policy,
                dialled,
                results,
            )
            &&& api_entries(other) == api_entries(opts)
        }),
{
}

/// The cell after attempts that came out as `outcomes`, from an empty one.
pub open spec fn cell_after(outcomes: Seq<Result<SocketPolicy, TuicError>>) -> OutboundCell
    decreases outcomes.len(),
{
    if outcomes.len() == 0 {
        OutboundCell::Empty
    } else {
        cell_after(outcomes.drop_last()).settled(outcomes.last())
    }
}

/// The outbound is built once: the first attempt that succeeds, after none or more
/// that failed, fixes the socket policy for good.
pub proof fn law_first_outbound_stays(
    outcomes: Seq<Result<SocketPolicy, TuicError>>,
    first: int,
    policy: SocketPolicy,
)
    requires
        0 <= first < outcomes.len(),
        outcomes[first] == Ok::<SocketPolicy, TuicError>(policy),
        forall|i: int| 0 <= i < first ==> outcomes[i] is Err,
    ensures
        cell_after(outcomes) == OutboundCell::Built(policy),
    decreases outcomes.len(),
{
    let earlier = outcomes.drop_last();
    if first < earlier.len() {
        law_first_outbound_stays(earlier, first, policy);
    } else {
        law_failures_leave_nothing(earlier);
    }
}

/// As long as every attempt fails, there is no outbound.
pub proof fn law_failures_leave_nothing(outcomes: Seq<Result<SocketPolicy, TuicError>>)
    requires
        forall|i: int| 0 <= i < outcomes.len() ==> outcomes[i] is Err,
    ensures
        cell_after(outcomes) is Empty,
    decreases outcomes.len(),
{
    if outcomes.len() > 0 {
        law_failures_leave_nothing(outcomes.drop_last());
    }
}

/// The description of an outbound says each thing once.
pub proof fn law_description_keys_differ(opts: HandlerOptions)
    ensures
        forall|i: int, j: int|
            0 <= i < j < api_entries(opts).len() ==> (#[trigger] api_entries(opts)[i]).0 != (
            #[trigger] api_entries(opts)[j]).0,
{
    reveal_strlit("server");
    reveal_strlit("port");
    reveal_strlit("uuid");
    reveal_strlit("password");
    reveal_strlit("udp-relay-mode");
    reveal_strlit("skip-cert-verify");
    reveal_strlit("sni");
    reveal_strlit("disable-sni");
    assert("server"@.len() == 6 && "password"@.len() == 8 && "udp-relay-mode"@.len() == 14);
    assert("port"@.len() == 4 && "uuid"@.len() == 4 && "port"@[0] != "uuid"@[0]);
    assert("skip-cert-verify"@.len() == 16 && "sni"@.len() == 3 && "disable-sni"@.len() == 11);
}

} // verus!
