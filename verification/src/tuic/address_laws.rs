//! What holds of the calls that handle addresses: the search for the server's, and
//! those of streams, flows and packets.
use vstd::prelude::*;
use crate::session::{IpAddr, Session, SocketAddr, SocksAddr};
use crate::text::{without_leading, without_trailing};
use crate::tuic::datagram::{
    FlowContext, NetworkType, Protocol, RelayPacket, TuicDatagramOutbound, UdpPacket,
};
use crate::tuic::error::TuicError;
use crate::tuic::handler::Handler;
use crate::tuic::init::peer_of;
use crate::tuic::options::HandlerOptions;
use crate::tuic::types::{
    bare_host, from_target, ip_of_text, ResolveEvent, ResolveStep, ServerAddr, SocketAdderTrans,
    TargetAddr,
};

verus! {

/// `addr` is `ip` at `port`, of the same family, bit by bit, with nothing added.
pub open spec fn is_at(addr: SocketAddr, ip: IpAddr, port: u16) -> bool {
    match (addr, ip) {
        (SocketAddr::V4(addr), IpAddr::V4(ip)) => addr.ip.bits == ip.bits && addr.port == port,
        (SocketAddr::V6(addr), IpAddr::V6(ip)) => addr.ip.bits == ip.bits && addr.port == port
            && addr.flowinfo == 0 && addr.scope_id == 0,
        _ => false,
    }
}

/// `target` and `addr` name the same place: the same family and bits, or the same
/// domain, and the same port.
pub open spec fn same_place(target: TargetAddr, addr: SocksAddr) -> bool {
    match (target, addr) {
        (TargetAddr::IPv4(ip, port), SocksAddr::Ip(SocketAddr::V4(addr))) => ip.bits
            == addr.ip.bits && port == addr.port,
        (TargetAddr::IPv6(ip, port), SocksAddr::Ip(SocketAddr::V6(addr))) => ip.bits
            == addr.ip.bits && port == addr.port,
        (TargetAddr::Domain(name, port), SocksAddr::Domain(other, other_port)) => name@ == other@
            && port == other_port,
        _ => false,
    }
}

/// The first address that is known.
pub open spec fn first_known(
    configured: Option<IpAddr>,
    literal: Option<IpAddr>,
    answered: Option<IpAddr>,
) -> Option<IpAddr> {
    if configured is Some {
        configured
    } else if literal is Some {
        literal
    } else {
        answered
    }
}

/// The address in an answer of the resolver, if it is one.
pub open spec fn answered(answer: Result<Option<IpAddr>, String>) -> Option<IpAddr> {
    match answer {
        Ok(ip) => ip,
        Err(_) => None,
    }
}

/// The address in what was learned, if there is one.
pub open spec fn learned(event: ResolveEvent) -> Option<IpAddr> {
    match event {
        ResolveEvent::Start => None,
        ResolveEvent::Answer(answer) => answered(answer),
    }
}

/// A socket address is the given IP address of either family at the given port.
pub proof fn law_socket_address_joins(ip: IpAddr, port: u16, r: SocketAddr)
    requires
        call_ensures(SocketAddr::new, (ip, port), r),
    ensures
        is_at(r, ip, port),
{
}

/// Resolution succeeds if and only if an address is known, of either family, and then
/// with the first one at the server's port: the configured one, else the one that the
/// domain stands for, else the answered one.
pub proof fn law_resolution_finds_the_first_address(
    server: ServerAddr,
    literal: Option<IpAddr>,
    event: ResolveEvent,
    r: ResolveStep,
)
    requires
        call_ensures(ServerAddr::resolve_with, (&server, literal, event), r),
    ensures
        match first_known(server.ip, literal, learned(event)) {
            Some(ip) => r matches ResolveStep::Finish(Ok(peer)) && is_at(peer, ip, server.port),
            None => !(r matches ResolveStep::Finish(Ok(_))),
        },
{
}

/// Without an address, the domain is looked up as it was written, without made-up
/// addresses; an answer without one is the end, with the resolver's reason where it
/// gives one.
pub proof fn law_resolution_without_an_address(
    server: ServerAddr,
    literal: Option<IpAddr>,
    event: ResolveEvent,
    r: ResolveStep,
)
    requires
        call_ensures(ServerAddr::resolve_with, (&server, literal, event), r),
        first_known(server.ip, literal, learned(event)) is None,
    ensures
        event is Start ==> (r matches ResolveStep::AskResolver { host, enhanced } && host@
            == server.domain@ && !enhanced),
        event matches ResolveEvent::Answer(Ok(_)) ==> r == ResolveStep::Finish(
            Err(TuicError::NoAddress),
        ),
        event matches ResolveEvent::Answer(Err(e)) ==> r == ResolveStep::Finish(
            Err(TuicError::Resolver(e)),
        ),
{
}

/// The name to ask for has no say in the resolution, and the domain only in what is
/// looked up.
pub proof fn law_only_addresses_and_port_resolve(
    server: ServerAddr,
    other: ServerAddr,
    literal: Option<IpAddr>,
    event: ResolveEvent,
    r: ResolveStep,
    s: ResolveStep,
)
    requires
        server.ip == other.ip,
        server.port == other.port,
        call_ensures(ServerAddr::resolve_with, (&server, literal, event), r),
        call_ensures(ServerAddr::resolve_with, (&other, literal, event), s),
    ensures
        r is Finish ==> r == s,
        r is AskResolver <==> s is AskResolver,
{
}

/// A server's domain is itself read as an address, without square brackets around it:
/// resolution goes as it goes for that address.
pub proof fn law_domain_is_read_first(
    server: ServerAddr,
    event: ResolveEvent,
    r: ResolveStep,
)
    requires
        call_ensures(ServerAddr::resolve, (&server, event), r),
    ensures
        match first_known(server.ip, ip_of_text(bare_host(server.domain@)), learned(event)) {
            Some(ip) => r matches ResolveStep::Finish(Ok(peer)) && is_at(peer, ip, server.port),
            None => match event {
                ResolveEvent::Start => r matches ResolveStep::AskResolver { host, enhanced }
                    && host@ == server.domain@ && !enhanced,
                ResolveEvent::Answer(Ok(_)) => r == ResolveStep::Finish(Err(TuicError::NoAddress)),
                ResolveEvent::Answer(Err(e)) => r == ResolveStep::Finish(
                    Err(TuicError::Resolver(e)),
                ),
            },
        },
{
}

/// A server in square brackets resolves as it does without them: they change at most
/// the text that is looked up.
pub proof fn law_brackets_do_not_change_the_address(
    bare: ServerAddr,
    bracketed: ServerAddr,
    event: ResolveEvent,
    r: ResolveStep,
    s: ResolveStep,
)
    requires
        bare.ip == bracketed.ip,
        bare.port == bracketed.port,
        bracketed.domain@ == seq!['['] + bare.domain@ + seq![']'],
        call_ensures(ServerAddr::resolve, (&bare, event), r),
        call_ensures(ServerAddr::resolve, (&bracketed, event), s),
    ensures
        r is Finish ==> r == s,
        r is AskResolver <==> s is AskResolver,
{
    law_brackets_are_dropped(bare.domain@);
}

/// Brackets around a host do not count, and a host without any is left alone.
pub proof fn law_brackets_are_dropped(host: Seq<char>)
    ensures
        bare_host(seq!['['] + host + seq![']']) == bare_host(host),
        (host.len() == 0 || host[0] != '[' && host.last() != ']') ==> bare_host(host) == host,
{
    let inner = host + seq![']'];
    assert(seq!['['] + host + seq![']'] =~= seq!['['] + inner);
    assert((seq!['['] + inner).drop_first() =~= inner);
    lemma_leading_of_joined(host);
    let rest = without_leading(host, '[');
    assert((rest + seq![']']).drop_last() =~= rest);
    assert((rest + seq![']']).last() == ']');
}

/// Dropping what a text starts with leaves what it ends in.
proof fn lemma_leading_of_joined(host: Seq<char>)
    ensures
        without_leading(host + seq![']'], '[') == without_leading(host, '[') + seq![']'],
    decreases host.len(),
{
    let joined = host + seq![']'];
    if host.len() == 0 {
        assert(joined[0] == ']');
    } else {
        assert(joined[0] == host[0]);
        assert(joined.drop_first() =~= host.drop_first() + seq![']']);
        lemma_leading_of_joined(host.drop_first());
    }
}

/// What is dropped from the two ends of a text is brackets and nothing else, and none
/// is left there.
pub proof fn law_only_brackets_are_dropped(host: Seq<char>)
    ensures
        exists|from: int, to: int|
            {
                &&& 0 <= from <= to <= host.len()
                &&& bare_host(host) == #[trigger] host.subrange(from, to)
                &&& forall|i: int| 0 <= i < from ==> host[i] == '['
                &&& forall|i: int| to <= i < host.len() ==> host[i] == ']'
                &&& from < to ==> host[from] != '[' && host[to - 1] != ']'
            },
{
    let rest = without_leading(host, '[');
    let from = lemma_leading_run(host, '[');
    let len = lemma_trailing_run(rest, ']');
    assert(bare_host(host) =~= host.subrange(from, from + len));
    assert forall|i: int| from + len <= i < host.len() implies host[i] == ']' by {
        assert(rest[i - from] == host[i]);
    }
    if len > 0 {
        assert(rest[0] == host[from]);
        assert(rest[len - 1] == host[from + len - 1]);
    }
}

/// Where the run of `c` at the start of a text ends.
proof fn lemma_leading_run(s: Seq<char>, c: char) -> (from: int)
    ensures
        0 <= from <= s.len(),
        without_leading(s, c) == s.subrange(from, s.len() as int),
        forall|i: int| 0 <= i < from ==> s[i] == c,
        from < s.len() ==> s[from] != c,
    decreases s.len(),
{
    if s.len() > 0 && s[0] == c {
        let tail = s.drop_first();
        let from = lemma_leading_run(tail, c);
        assert(tail.subrange(from, tail.len() as int) =~= s.subrange(from + 1, s.len() as int));
        assert forall|i: int| 0 <= i < from + 1 implies s[i] == c by {
            if i > 0 {
                assert(tail[i - 1] == s[i]);
            }
        }
        if from + 1 < s.len() {
            assert(tail[from] == s[from + 1]);
        }
        from + 1
    } else {
        assert(s =~= s.subrange(0, s.len() as int));
        0
    }
}

/// Where the run of `c` at the end of a text starts.
proof fn lemma_trailing_run(s: Seq<char>, c: char) -> (to: int)
    ensures
        0 <= to <= s.len(),
        without_trailing(s, c) == s.subrange(0, to),
        forall|i: int| to <= i < s.len() ==> s[i] == c,
        to > 0 ==> s[to - 1] != c,
    decreases s.len(),
{
    if s.len() > 0 && s.last() == c {
        let head = s.drop_last();
        let to = lemma_trailing_run(head, c);
        assert(head.subrange(0, to) =~= s.subrange(0, to));
        assert forall|i: int| to <= i < s.len() implies s[i] == c by {
            if i < head.len() {
                assert(head[i] == s[i]);
            }
        }
        if to > 0 {
            assert(head[to - 1] == s[to - 1]);
        }
        to
    } else {
        assert(s =~= s.subrange(0, s.len() as int));
        s.len() as int
    }
}

/// The server's socket address is found if and only if there is a configured address,
/// an address in the server's text or an answered one, and it is the first of those at
/// the configured port. An address counts as configured only where its text is.
pub proof fn law_server_is_found_at_the_first_address(
    opts: HandlerOptions,
    address: Option<IpAddr>,
    literal: Option<IpAddr>,
    answer: Result<Option<IpAddr>, String>,
)
    ensures
        ({
            let configured = if opts.ip is Some { address } else { None };
            match first_known(configured, literal, answered(answer)) {
                Some(ip) => peer_of(opts, address, literal, answer) matches Ok(peer) && is_at(
                    peer,
                    ip,
                    opts.port,
                ),
                None => peer_of(opts, address, literal, answer) == Err::<SocketAddr, TuicError>(
                    match answer {
                        Ok(_) => TuicError::NoAddress,
                        Err(e) => TuicError::Resolver(e),
                    },
                ),
            }
        }),
{
}

/// A server holds what it was made of, and asks for the name that was given, else for
/// its domain.
pub proof fn law_server_holds_what_it_was_given(
    domain: String,
    port: u16,
    ip: Option<IpAddr>,
    sni: Option<String>,
    server: ServerAddr,
    copy: ServerAddr,
    name: &str,
)
    requires
        call_ensures(ServerAddr::new, (domain, port, ip, sni), server),
        call_ensures(ServerAddr::clone, (&server,), copy),
        call_ensures(ServerAddr::server_name, (&copy,), name),
    ensures
        server.domain@ == domain@,
        server.port == port,
        server.ip == ip,
        server.sni == sni,
        copy == server,
        sni matches Some(sni) ==> name@ == sni@,
        sni is None ==> name@ == domain@,
{
}

/// Turning a destination into its TUIC form and back keeps the place, in both
/// directions.
pub proof fn law_places_are_kept(
    addr: SocksAddr,
    form: TargetAddr,
    target: TargetAddr,
    back: SocksAddr,
)
    requires
        call_ensures(SocksAddr::into_tuic, (addr,), form),
        call_ensures(from_target, (target,), back),
    ensures
        same_place(form, addr),
        same_place(target, back),
        back matches SocksAddr::Ip(SocketAddr::V6(v6)) ==> v6.flowinfo == 0 && v6.scope_id == 0,
{
}

/// A copy of a destination is the same destination.
pub proof fn law_copied_destination_is_the_same(addr: SocksAddr, copy: SocksAddr)
    requires
        call_ensures(SocksAddr::clone, (&addr,), copy),
    ensures
        copy == addr,
{
}

/// A default session comes from nowhere and goes nowhere, with no socket policy.
pub proof fn law_default_session_is_empty(sess: Session)
    requires
        call_ensures(Session::default, (), sess),
    ensures
        sess.source matches SocketAddr::V4(addr) && addr.ip.bits == 0 && addr.port == 0,
        sess.destination == SocksAddr::Ip(sess.source),
        sess.so_mark is None,
        sess.iface is None,
{
}

/// The flow that an association announces goes where its session goes, to an IP address
/// as well as to a domain, and comes from where the session comes from. Replies on it
/// reach the client there.
pub proof fn law_flow_goes_where_the_session_goes(
    sess: Session,
    r: (TuicDatagramOutbound, FlowContext),
    back: SocksAddr,
)
    requires
        call_ensures(TuicDatagramOutbound::new, (&sess,), r),
        call_ensures(from_target, (r.1.target,), back),
    ensures
        same_place(r.1.target, sess.destination),
        match (back, sess.destination) {
            (SocksAddr::Ip(SocketAddr::V6(a)), SocksAddr::Ip(SocketAddr::V6(b))) => a.ip == b.ip
                && a.port == b.port,
            _ => back == sess.destination,
        },
        r.1.source == Some(sess.source),
        r.0.local_addr == SocksAddr::Ip(sess.source),
        r.1.network == NetworkType::Udp,
        r.1.protocol == Protocol::Tuic,
        r.1.inbound_tag@ == "tuic"@,
        r.1.user is None && r.1.inbound_port is None && r.1.inbound_type is None,
{
}

/// Where a flow goes does not depend on who opened it, nor who it comes from on where
/// it goes; the socket policy has no say in either.
pub proof fn law_flow_ends_are_independent(
    a: Session,
    b: Session,
    r: (TuicDatagramOutbound, FlowContext),
    s: (TuicDatagramOutbound, FlowContext),
)
    requires
        call_ensures(TuicDatagramOutbound::new, (&a,), r),
        call_ensures(TuicDatagramOutbound::new, (&b,), s),
    ensures
        a.destination == b.destination ==> r.1.target == s.1.target,
        a.source == b.source <==> r.1.source == s.1.source,
        a.source == b.source <==> r.0.local_addr == s.0.local_addr,
{
}

/// An association and a stream of one session go to the same place, and an association
/// is opened with the same ends wherever it is opened.
pub proof fn law_streams_and_flows_go_together(
    handler: Handler,
    sess: Session,
    target: TargetAddr,
    made: (TuicDatagramOutbound, FlowContext),
    opened: Result<(TuicDatagramOutbound, FlowContext), TuicError>,
)
    requires
        call_ensures(Handler::stream_target, (&handler, &sess), target),
        call_ensures(TuicDatagramOutbound::new, (&sess,), made),
        call_ensures(Handler::open_datagram, (&handler, Ok(()), &sess), opened),
    ensures
        same_place(target, sess.destination),
        made.1.target == target,
        opened matches Ok(association) && association.1.target == target && association.1.source
            == Some(sess.source) && association.0.local_addr == made.0.local_addr
            && association.1.network == NetworkType::Udp,
{
}

/// A packet goes out to its destination with its data as it is, and names no source;
/// which association it goes by has no say.
pub proof fn law_packets_go_out_whole(
    assoc: TuicDatagramOutbound,
    packet: UdpPacket,
    r: RelayPacket,
)
    requires
        call_ensures(TuicDatagramOutbound::start_send, (&assoc, packet), r),
    ensures
        same_place(r.target, packet.dst_addr),
        r.payload@ == packet.data@,
        r.source is None,
{
}

/// What comes in reaches the association's client with its data as it is, from the
/// place that the relay names as the far end. There is a packet as long as the relay
/// gives one.
pub proof fn law_packets_come_in_whole(
    assoc: TuicDatagramOutbound,
    packet: Option<RelayPacket>,
    r: Option<UdpPacket>,
)
    requires
        call_ensures(TuicDatagramOutbound::poll_next, (&assoc, packet), r),
    ensures
        packet is Some <==> r is Some,
        packet matches Some(packet) ==> same_place(packet.target, r->0.src_addr)
            && r->0.data@ == packet.payload@ && r->0.dst_addr == assoc.local_addr,
{
}

/// A reply from where a packet of the session was sent comes back to the session's
/// client as coming from that destination.
pub proof fn law_reply_reaches_the_client(
    sess: Session,
    assoc: (TuicDatagramOutbound, FlowContext),
    sent: UdpPacket,
    relayed: RelayPacket,
    reply: RelayPacket,
    r: Option<UdpPacket>,
)
    requires
        call_ensures(TuicDatagramOutbound::new, (&sess,), assoc),
        call_ensures(TuicDatagramOutbound::start_send, (&assoc.0, sent), relayed),
        reply.target == relayed.target,
        call_ensures(TuicDatagramOutbound::poll_next, (&assoc.0, Some(reply)), r),
    ensures
        r matches Some(packet) && packet.data@ == reply.payload@ && packet.dst_addr
            == SocksAddr::Ip(sess.source) && same_place(relayed.target, packet.src_addr)
            && match (packet.src_addr, sent.dst_addr) {
            (SocksAddr::Ip(SocketAddr::V6(a)), SocksAddr::Ip(SocketAddr::V6(b))) => a.ip == b.ip
                && a.port == b.port,
            _ => packet.src_addr == sent.dst_addr,
        },
{
}

/// A packet holds what it was made of.
pub proof fn law_packet_holds_what_it_was_given(
    data: Vec<u8>,
    src_addr: SocksAddr,
    dst_addr: SocksAddr,
    r: UdpPacket,
)
    requires
        call_ensures(UdpPacket::new, (data, src_addr, dst_addr), r),
    ensures
        r.data@ == data@,
        r.src_addr == src_addr,
        r.dst_addr == dst_addr,
{
}

} // verus!
