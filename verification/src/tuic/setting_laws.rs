//! What holds of the calls that turn a configuration into an outbound, describe it and
//! open streams on it.
use vstd::prelude::*;
use vstd::utf8::*;
use crate::session::{IpAddr, Session};
use crate::text::{ascii_lower, same_ignoring_case};
use crate::tuic::address_laws::{answered, first_known, is_at, learned, same_place};
use crate::tuic::datagram::{FlowContext, TuicDatagramOutbound};
use crate::tuic::error::TuicError;
use crate::tuic::handler::Handler;
use crate::tuic::init::{
    alpn_texts, lossy_text, texts_of, ConnectOutcome, ConnectStage, InitResults, OutboundSettings,
    PollStage, ResolveProgress, ResolveStage, ServerStage, TlsSettings, TlsStage,
};
use crate::tuic::laws::law_relay_mode_name_comes_back;
use crate::tuic::options::{bytes_of, Duration, HandlerOptions, SocketPolicy};
use crate::tuic::outbound::OutboundCell;
use crate::tuic::types::{
    bare_host, ip_of_text, CongestionControl, ResolveEvent, ResolveStep, ServerAddr, TargetAddr,
    UdpRelayMode,
};

verus! {

/// `span` has no length.
pub open spec fn no_time(span: Duration) -> bool {
    span.secs == 0 && span.nanos == 0
}

/// The stages between a configuration and its connection.
pub struct Stages<'a> {
    pub tls: TlsStage<'a>,
    pub server: ServerStage<'a>,
    pub resolve: ResolveStage<'a>,
    pub connect: ConnectStage<'a>,
}

/// The calls that lead from `handler` and `sess` to the connection, through `stages`,
/// where the two address texts stand for `address` and `literal` and `event` is what
/// was learned last.
pub open spec fn passed<'a>(
    handler: &'a Handler,
    sess: Session,
    address: Option<IpAddr>,
    literal: Option<IpAddr>,
    event: ResolveEvent,
    stages: Stages<'a>,
) -> bool {
    &&& call_ensures(
        Handler::init_outbound,
        (handler, &sess),
        Ok::<TlsStage<'a>, TuicError>(stages.tls),
    )
    &&& call_ensures(
        TlsStage::built,
        (stages.tls, Ok(())),
        Ok::<ServerStage<'a>, TuicError>(stages.server),
    )
    &&& call_ensures(ServerStage::address_read, (stages.server, address), stages.resolve)
    &&& call_ensures(
        ResolveStage::resolve_with,
        (stages.resolve, literal, event),
        ResolveProgress::Found(stages.connect),
    )
}

/// A span is empty if and only if it has neither seconds nor nanoseconds.
pub proof fn law_zero_is_no_time(span: Duration, r: bool)
    requires
        call_ensures(Duration::is_zero, (&span,), r),
    ensures
        r <==> no_time(span),
{
}

/// The building of an outbound starts if and only if neither interval is empty; of two
/// empty ones the heartbeat's is reported. The session has no say in that.
pub proof fn law_empty_intervals_are_refused<'a>(
    handler: &'a Handler,
    sess: Session,
    r: Result<TlsStage<'a>, TuicError>,
)
    requires
        call_ensures(Handler::init_outbound, (handler, &sess), r),
    ensures
        r is Ok <==> !no_time(handler.opts.heartbeat_interval) && !no_time(handler.opts.gc_interval),
        no_time(handler.opts.heartbeat_interval) ==> r == Err::<TlsStage<'a>, TuicError>(
            TuicError::HeartbeatInterval,
        ),
        no_time(handler.opts.gc_interval) && !no_time(handler.opts.heartbeat_interval) ==> r
            == Err::<TlsStage<'a>, TuicError>(TuicError::GcInterval),
{
}

/// The server name is sent if and only if that was not disabled.
pub proof fn law_server_name_is_sent_unless_disabled<'a>(
    handler: &'a Handler,
    sess: Session,
    stage: TlsStage<'a>,
    tls: TlsSettings,
)
    requires
        call_ensures(Handler::init_outbound, (handler, &sess), Ok::<TlsStage<'a>, TuicError>(stage)),
        call_ensures(TlsStage::settings, (&stage,), tls),
    ensures
        handler.opts.disable_sni ==> !tls.enable_sni,
        !handler.opts.disable_sni ==> tls.enable_sni,
{
}

/// The TLS client verifies, identifies itself and negotiates as configured: it trusts
/// any certificate only where that is asked for, shows the given certificate and key,
/// offers the given protocols in the given order, and sends early data only where
/// round trips are to be saved.
pub proof fn law_tls_client_is_as_configured<'a>(
    handler: &'a Handler,
    sess: Session,
    stage: TlsStage<'a>,
    tls: TlsSettings,
)
    requires
        call_ensures(Handler::init_outbound, (handler, &sess), Ok::<TlsStage<'a>, TuicError>(stage)),
        call_ensures(TlsStage::settings, (&stage,), tls),
    ensures
        tls.skip_cert_verify <==> handler.opts.skip_cert_verify,
        tls.enable_early_data <==> handler.opts.reduce_rtt,
        tls.cert is Some <==> handler.opts.tls_cert is Some,
        tls.cert is Some ==> tls.cert->0@ == handler.opts.tls_cert->0@,
        tls.key is Some <==> handler.opts.tls_key is Some,
        tls.key is Some ==> tls.key->0@ == handler.opts.tls_key->0@,
        tls.alpn_protocols@.len() == handler.opts.alpn@.len(),
        forall|i: int|
            0 <= i < handler.opts.alpn@.len() ==> (#[trigger] tls.alpn_protocols@[i])@
                == handler.opts.alpn@[i]@,
{
    assert(bytes_of(tls.alpn_protocols@).len() == bytes_of(handler.opts.alpn@).len());
    assert forall|i: int| 0 <= i < handler.opts.alpn@.len() implies (
    #[trigger] tls.alpn_protocols@[i])@ == handler.opts.alpn@[i]@ by {
        assert(bytes_of(tls.alpn_protocols@)[i] == bytes_of(handler.opts.alpn@)[i]);
    }
}

/// Two configurations that ask the same of TLS get the same TLS client, whatever else
/// is in them and whatever session it is for.
pub proof fn law_tls_client_depends_on_tls_options_only<'a>(
    handlers: (&'a Handler, &'a Handler),
    sessions: (Session, Session),
    stages: (TlsStage<'a>, TlsStage<'a>),
    tls: (TlsSettings, TlsSettings),
)
    requires
        call_ensures(
            Handler::init_outbound,
            (handlers.0, &sessions.0),
            Ok::<TlsStage<'a>, TuicError>(stages.0),
        ),
        call_ensures(
            Handler::init_outbound,
            (handlers.1, &sessions.1),
            Ok::<TlsStage<'a>, TuicError>(stages.1),
        ),
        call_ensures(TlsStage::settings, (&stages.0,), tls.0),
        call_ensures(TlsStage::settings, (&stages.1,), tls.1),
    ensures
        handlers.0.opts.disable_sni == handlers.1.opts.disable_sni <==> tls.0.enable_sni
            == tls.1.enable_sni,
        handlers.0.opts.reduce_rtt == handlers.1.opts.reduce_rtt <==> tls.0.enable_early_data
            == tls.1.enable_early_data,
        handlers.0.opts.skip_cert_verify == handlers.1.opts.skip_cert_verify
            <==> tls.0.skip_cert_verify == tls.1.skip_cert_verify,
        handlers.0.opts.tls_cert == handlers.1.opts.tls_cert <==> tls.0.cert == tls.1.cert,
        handlers.0.opts.tls_key == handlers.1.opts.tls_key <==> tls.0.key == tls.1.key,
{
}

/// A TLS client that was not built ends the building, with the reason; one that was
/// does not.
pub proof fn law_tls_failure_is_reported<'a>(
    stage: TlsStage<'a>,
    outcome: Result<(), String>,
    r: Result<ServerStage<'a>, TuicError>,
)
    requires
        call_ensures(TlsStage::built, (stage, outcome), r),
    ensures
        outcome is Ok <==> r is Ok,
        outcome matches Err(e) ==> r == Err::<ServerStage<'a>, TuicError>(TuicError::Tls(e)),
{
}

/// The connection goes to the first address that is known, configured, literal or
/// answered, at the configured port.
pub proof fn law_connection_goes_to_the_first_address<'a>(
    handler: &'a Handler,
    sess: Session,
    address: Option<IpAddr>,
    literal: Option<IpAddr>,
    event: ResolveEvent,
    stages: Stages<'a>,
    alpn: Vec<String>,
    out: OutboundSettings,
)
    requires
        passed(handler, sess, address, literal, event, stages),
        call_ensures(ConnectStage::settings_with, (&stages.connect, alpn), out) || call_ensures(
            ConnectStage::settings,
            (&stages.connect,),
            out,
        ),
    ensures
        first_known(
            if handler.opts.ip is Some {
                address
            } else {
                None
            },
            literal,
            learned(event),
        ) matches Some(ip) && is_at(out.peer_addr, ip, handler.opts.port),
{
}

/// The connection uses the congestion controller that was configured, whichever it is.
pub proof fn law_connection_uses_the_configured_controller<'a>(
    handler: &'a Handler,
    sess: Session,
    address: Option<IpAddr>,
    literal: Option<IpAddr>,
    event: ResolveEvent,
    stages: Stages<'a>,
    alpn: Vec<String>,
    out: OutboundSettings,
)
    requires
        passed(handler, sess, address, literal, event, stages),
        call_ensures(ConnectStage::settings_with, (&stages.connect, alpn), out) || call_ensures(
            ConnectStage::settings,
            (&stages.connect,),
            out,
        ),
    ensures
        handler.opts.congestion_controller is Cubic <==> out.congestion_control is Cubic,
        handler.opts.congestion_controller is NewReno <==> out.congestion_control is NewReno,
        handler.opts.congestion_controller is Bbr <==> out.congestion_control is Bbr,
        handler.opts.congestion_controller is Bbr3 <==> out.congestion_control is Bbr3,
{
}

/// The connection is otherwise as configured too: the name it asks for, who it is for,
/// its timing, limits, windows, trust and relay mode; and its socket is bound and
/// marked as the session asks.
pub proof fn law_connection_is_as_configured<'a>(
    handler: &'a Handler,
    sess: Session,
    address: Option<IpAddr>,
    literal: Option<IpAddr>,
    event: ResolveEvent,
    stages: Stages<'a>,
    alpn: Vec<String>,
    out: OutboundSettings,
)
    requires
        passed(handler, sess, address, literal, event, stages),
        call_ensures(ConnectStage::settings_with, (&stages.connect, alpn), out) || call_ensures(
            ConnectStage::settings,
            (&stages.connect,),
            out,
        ),
    ensures
        handler.opts.sni matches Some(name) ==> out.sni@ == name@,
        handler.opts.sni is None ==> out.sni@ == handler.opts.server@,
        out.auth.0 == handler.opts.uuid,
        out.auth.1@ == encode_utf8(handler.opts.password@),
        out.zero_rtt_handshake <==> handler.opts.reduce_rtt,
        out.skip_cert_verify <==> handler.opts.skip_cert_verify,
        out.heartbeat == handler.opts.heartbeat_interval && !no_time(out.heartbeat),
        out.gc_interval == handler.opts.gc_interval && !no_time(out.gc_interval),
        out.gc_lifetime == handler.opts.gc_lifetime,
        out.max_idle_time == Some(handler.opts.idle_timeout),
        out.send_window == Some(handler.opts.send_window),
        out.stream_receive_window == Some(handler.opts.receive_window),
        out.udp_relay_mode is Native <==> handler.opts.udp_relay_mode is Native,
        out.socket.iface == sess.iface,
        out.socket.so_mark == sess.so_mark,
{
}

/// As many streams of either kind may be open as configured, but for what a `u32` does
/// not hold.
pub proof fn law_open_streams_are_capped<'a>(
    handler: &'a Handler,
    sess: Session,
    address: Option<IpAddr>,
    literal: Option<IpAddr>,
    event: ResolveEvent,
    stages: Stages<'a>,
    alpn: Vec<String>,
    out: OutboundSettings,
)
    requires
        passed(handler, sess, address, literal, event, stages),
        call_ensures(ConnectStage::settings_with, (&stages.connect, alpn), out) || call_ensures(
            ConnectStage::settings,
            (&stages.connect,),
            out,
        ),
    ensures
        out.max_concurrent_bi_streams is Some,
        out.max_concurrent_bi_streams->0 <= handler.opts.max_open_stream,
        out.max_concurrent_bi_streams->0 < handler.opts.max_open_stream
            ==> out.max_concurrent_bi_streams->0 == u32::MAX,
        out.max_concurrent_uni_streams == out.max_concurrent_bi_streams,
{
}

/// The connection offers the protocols that it is given, in their order.
pub proof fn law_connection_offers_what_it_is_given<'a>(
    stage: ConnectStage<'a>,
    alpn: Vec<String>,
    out: OutboundSettings,
)
    requires
        call_ensures(ConnectStage::settings_with, (&stage, alpn), out),
    ensures
        out.alpn@.len() == alpn@.len(),
        forall|i: int| 0 <= i < alpn@.len() ==> (#[trigger] out.alpn@[i])@ == alpn@[i]@,
{
    assert(texts_of(out.alpn@).len() == texts_of(alpn@).len());
    assert forall|i: int| 0 <= i < alpn@.len() implies (#[trigger] out.alpn@[i])@ == alpn@[i]@ by {
        assert(texts_of(out.alpn@)[i] == texts_of(alpn@)[i]);
    }
}

/// The connection offers every configured protocol, in its place; one whose name is
/// UTF-8 by that very name.
pub proof fn law_connection_offers_the_configured_protocols<'a>(
    handler: &'a Handler,
    sess: Session,
    address: Option<IpAddr>,
    literal: Option<IpAddr>,
    event: ResolveEvent,
    stages: Stages<'a>,
    out: OutboundSettings,
)
    requires
        passed(handler, sess, address, literal, event, stages),
        call_ensures(ConnectStage::settings, (&stages.connect,), out),
    ensures
        out.alpn@.len() == handler.opts.alpn@.len(),
        forall|i: int|
            0 <= i < out.alpn@.len() ==> (#[trigger] out.alpn@[i])@ == lossy_text(
                handler.opts.alpn@[i]@,
            ),
        forall|i: int|
            0 <= i < out.alpn@.len() && valid_utf8(handler.opts.alpn@[i]@) ==> encode_utf8(
                (#[trigger] out.alpn@[i])@,
            ) == handler.opts.alpn@[i]@,
{
    assert(texts_of(out.alpn@).len() == alpn_texts(handler.opts.alpn@).len());
    assert forall|i: int| 0 <= i < out.alpn@.len() implies (#[trigger] out.alpn@[i])@ == lossy_text(
        handler.opts.alpn@[i]@,
    ) by {
        assert(texts_of(out.alpn@)[i] == alpn_texts(handler.opts.alpn@)[i]);
    }
    assert forall|i: int|
        0 <= i < out.alpn@.len() && valid_utf8(handler.opts.alpn@[i]@) implies encode_utf8(
        (#[trigger] out.alpn@[i])@,
    ) == handler.opts.alpn@[i]@ by {
        decode_utf8_encode_utf8(handler.opts.alpn@[i]@);
    }
}

/// Of two configurations that differ only in the congestion controller, the connections
/// differ in exactly that.
pub proof fn law_controller_changes_nothing_else<'a>(
    handlers: (&'a Handler, &'a Handler),
    sess: Session,
    address: Option<IpAddr>,
    literal: Option<IpAddr>,
    event: ResolveEvent,
    stages: (Stages<'a>, Stages<'a>),
    alpn: Vec<String>,
    out: (OutboundSettings, OutboundSettings),
)
    requires
        handlers.0.opts == (HandlerOptions {
            congestion_controller: handlers.0.opts.congestion_controller,
            ..handlers.1.opts
        }),
        passed(handlers.0, sess, address, literal, event, stages.0),
        passed(handlers.1, sess, address, literal, event, stages.1),
        call_ensures(ConnectStage::settings_with, (&stages.0.connect, alpn), out.0),
        call_ensures(ConnectStage::settings_with, (&stages.1.connect, alpn), out.1),
    ensures
        out.0.congestion_control == out.1.congestion_control
            <==> handlers.0.opts.congestion_controller == handlers.1.opts.congestion_controller,
        out.0.peer_addr == out.1.peer_addr,
        out.0.sni@ == out.1.sni@,
        out.0.auth.0 == out.1.auth.0 && out.0.auth.1@ == out.1.auth.1@,
        out.0.zero_rtt_handshake == out.1.zero_rtt_handshake,
        out.0.heartbeat == out.1.heartbeat,
        out.0.gc_interval == out.1.gc_interval,
        out.0.gc_lifetime == out.1.gc_lifetime,
        out.0.skip_cert_verify == out.1.skip_cert_verify,
        out.0.max_concurrent_bi_streams == out.1.max_concurrent_bi_streams,
        out.0.max_concurrent_uni_streams == out.1.max_concurrent_uni_streams,
        out.0.send_window == out.1.send_window,
        out.0.stream_receive_window == out.1.stream_receive_window,
        out.0.max_idle_time == out.1.max_idle_time,
        out.0.udp_relay_mode == out.1.udp_relay_mode,
        out.0.socket == out.1.socket,
{
}

/// The server that is dialled, now and before each reconnect, is the configured one.
pub proof fn law_server_is_the_configured_one<'a>(
    handler: &'a Handler,
    sess: Session,
    address: Option<IpAddr>,
    literal: Option<IpAddr>,
    event: ResolveEvent,
    stages: Stages<'a>,
    resolved: &ServerAddr,
    dialled: &ServerAddr,
)
    requires
        passed(handler, sess, address, literal, event, stages),
        call_ensures(ResolveStage::server, (&stages.resolve,), resolved),
        call_ensures(ConnectStage::server, (&stages.connect,), dialled),
    ensures
        *dialled == *resolved,
        dialled.domain@ == handler.opts.server@,
        dialled.port == handler.opts.port,
        dialled.sni == handler.opts.sni,
        handler.opts.ip is Some ==> dialled.ip == address,
        handler.opts.ip is None ==> dialled.ip is None,
{
}

/// A stage reads the configured address text, and goes on as with what it stands for.
pub proof fn law_address_text_is_read<'a>(
    handler: &'a Handler,
    sess: Session,
    tls: TlsStage<'a>,
    server: ServerStage<'a>,
    read: ResolveStage<'a>,
    found: &ServerAddr,
)
    requires
        call_ensures(Handler::init_outbound, (handler, &sess), Ok::<TlsStage<'a>, TuicError>(tls)),
        call_ensures(TlsStage::built, (tls, Ok(())), Ok::<ServerStage<'a>, TuicError>(server)),
        call_ensures(ServerStage::read_address, (server,), read),
        call_ensures(ResolveStage::server, (&read,), found),
    ensures
        handler.opts.ip matches Some(text) ==> found.ip == ip_of_text(text@),
        handler.opts.ip is None ==> found.ip is None,
        found.domain@ == handler.opts.server@,
        found.port == handler.opts.port,
        found.sni == handler.opts.sni,
{
}

/// A stage finds the server's address if and only if one is known, asks if and only if
/// none is and nothing was asked, and else fails as the resolver does.
pub proof fn law_stage_resolves_like_its_server<'a>(
    stage: ResolveStage<'a>,
    literal: Option<IpAddr>,
    event: ResolveEvent,
    server: &ServerAddr,
    r: ResolveProgress<'a>,
)
    requires
        call_ensures(ResolveStage::server, (&stage,), server),
        call_ensures(ResolveStage::resolve_with, (stage, literal, event), r),
    ensures
        first_known(server.ip, literal, learned(event)) is Some <==> r is Found,
        first_known(server.ip, literal, learned(event)) is None ==> match event {
            ResolveEvent::Start => r matches ResolveProgress::Ask(
                same,
                ResolveStep::AskResolver { host, enhanced },
            ) && same == stage && host@ == server.domain@ && !enhanced,
            ResolveEvent::Answer(Ok(_)) => r == ResolveProgress::<'a>::Failed(TuicError::NoAddress),
            ResolveEvent::Answer(Err(e)) => r == ResolveProgress::<'a>::Failed(
                TuicError::Resolver(e),
            ),
        },
{
}

/// A stage reads its server's text, without brackets, and goes on as with what it
/// stands for.
pub proof fn law_stage_reads_its_server<'a>(
    stage: ResolveStage<'a>,
    event: ResolveEvent,
    server: &ServerAddr,
    r: ResolveProgress<'a>,
    alpn: Vec<String>,
    out: OutboundSettings,
)
    requires
        call_ensures(ResolveStage::server, (&stage,), server),
        call_ensures(ResolveStage::resolve, (stage, event), r),
        r matches ResolveProgress::Found(found) ==> call_ensures(
            ConnectStage::settings_with,
            (&found, alpn),
            out,
        ),
    ensures
        match first_known(server.ip, ip_of_text(bare_host(server.domain@)), learned(event)) {
            Some(ip) => r is Found && is_at(out.peer_addr, ip, server.port),
            None => match event {
                ResolveEvent::Start => r matches ResolveProgress::Ask(
                    same,
                    ResolveStep::AskResolver { host, enhanced },
                ) && same == stage && host@ == server.domain@ && !enhanced,
                ResolveEvent::Answer(Ok(_)) => r == ResolveProgress::<'a>::Failed(
                    TuicError::NoAddress,
                ),
                ResolveEvent::Answer(Err(e)) => r == ResolveProgress::<'a>::Failed(
                    TuicError::Resolver(e),
                ),
            },
        },
{
}

/// Connecting and opening a stream may both take as long as a request may.
pub proof fn law_time_limits_are_the_request_timeout<'a>(
    handler: &'a Handler,
    sess: Session,
    address: Option<IpAddr>,
    literal: Option<IpAddr>,
    event: ResolveEvent,
    stages: Stages<'a>,
    connecting: Duration,
    opening: Duration,
)
    requires
        passed(handler, sess, address, literal, event, stages),
        call_ensures(ConnectStage::time_limit, (&stages.connect,), connecting),
        call_ensures(Handler::stream_time_limit, (handler,), opening),
    ensures
        connecting == handler.opts.request_timeout,
        opening == connecting,
{
}

/// A connection that is ready and whose tasks start gives the outbound, with the
/// session's policy; any other end is reported as what it is.
pub proof fn law_connection_outcomes_are_reported<'a>(
    handler: &'a Handler,
    sess: Session,
    address: Option<IpAddr>,
    literal: Option<IpAddr>,
    event: ResolveEvent,
    stages: Stages<'a>,
    outcome: ConnectOutcome,
    connected: Result<PollStage, TuicError>,
    started: Result<(), String>,
    polled: Result<SocketPolicy, TuicError>,
)
    requires
        passed(handler, sess, address, literal, event, stages),
        call_ensures(ConnectStage::connected, (stages.connect, outcome), connected),
        connected matches Ok(stage) ==> call_ensures(PollStage::polled, (stage, started), polled),
    ensures
        outcome is Ready <==> connected is Ok,
        outcome matches ConnectOutcome::Failed(e) ==> connected == Err::<PollStage, TuicError>(
            TuicError::Connect(e),
        ),
        outcome is TimedOut ==> connected == Err::<PollStage, TuicError>(
            TuicError::ConnectTimedOut,
        ),
        outcome is Ready && started is Ok ==> (polled matches Ok(policy) && policy.iface
            == sess.iface && policy.so_mark == sess.so_mark),
        outcome is Ready ==> (started matches Err(e) ==> polled == Err::<SocketPolicy, TuicError>(
            TuicError::Poll(e),
        )),
{
}

/// An outbound is built if and only if nothing goes wrong, and else fails with the
/// first thing that does, in the order: intervals, TLS, address, connection, tasks.
pub proof fn law_outbound_fails_at_the_first_fault(
    handler: Handler,
    sess: Session,
    address: Option<IpAddr>,
    literal: Option<IpAddr>,
    results: InitResults,
    r: Result<SocketPolicy, TuicError>,
)
    requires
        call_ensures(Handler::init_given, (&handler, &sess, address, literal, results), r),
    ensures
        ({
            let found = first_known(
                if handler.opts.ip is Some {
                    address
                } else {
                    None
                },
                literal,
                answered(results.answer),
            );
            let accepted = !no_time(handler.opts.heartbeat_interval) && !no_time(
                handler.opts.gc_interval,
            );
            let dialled = accepted && results.tls is Ok && found is Some;
            let made = dialled && results.connect is Ready;
            &&& no_time(handler.opts.heartbeat_interval) <==> r == Err::<SocketPolicy, TuicError>(
                TuicError::HeartbeatInterval,
            )
            &&& !accepted && !no_time(handler.opts.heartbeat_interval) <==> r == Err::<
                SocketPolicy,
                TuicError,
            >(TuicError::GcInterval)
            &&& accepted ==> (results.tls matches Err(e) ==> r == Err::<SocketPolicy, TuicError>(
                TuicError::Tls(e),
            ))
            &&& accepted && results.tls is Ok && found is None ==> match results.answer {
                Ok(_) => r == Err::<SocketPolicy, TuicError>(TuicError::NoAddress),
                Err(e) => r == Err::<SocketPolicy, TuicError>(TuicError::Resolver(e)),
            }
            &&& dialled ==> (results.connect matches ConnectOutcome::Failed(e) ==> r == Err::<
                SocketPolicy,
                TuicError,
            >(TuicError::Connect(e)))
            &&& dialled && results.connect is TimedOut ==> r == Err::<SocketPolicy, TuicError>(
                TuicError::ConnectTimedOut,
            )
            &&& made ==> (results.poll matches Err(e) ==> r == Err::<SocketPolicy, TuicError>(
                TuicError::Poll(e),
            ))
            &&& made && results.poll is Ok <==> r is Ok
            &&& r matches Ok(policy) ==> policy.iface == sess.iface && policy.so_mark
                == sess.so_mark
        }),
{
}

/// Building an outbound reads the two address texts, the server's without brackets, and
/// goes on as with what they stand for.
pub proof fn law_building_reads_both_texts(
    handler: Handler,
    sess: Session,
    results: InitResults,
    r: Result<SocketPolicy, TuicError>,
    given: Result<SocketPolicy, TuicError>,
)
    requires
        call_ensures(Handler::init_with, (&handler, &sess, results), r),
        call_ensures(
            Handler::init_given,
            (
                &handler,
                &sess,
                match handler.opts.ip {
                    Some(text) => ip_of_text(text@),
                    None => None,
                },
                ip_of_text(bare_host(handler.opts.server@)),
                results,
            ),
            given,
        ),
    ensures
        r == given,
{
}

/// An outbound that is there is used, whatever the session; else it is built, and for
/// this session.
pub proof fn law_outbound_is_built_when_missing<'a>(
    handler: &'a Handler,
    cell: OutboundCell,
    sess: Session,
    r: Result<Option<TlsStage<'a>>, TuicError>,
    started: Result<TlsStage<'a>, TuicError>,
)
    requires
        call_ensures(Handler::get_outbound, (handler, &cell, &sess), r),
        call_ensures(Handler::init_outbound, (handler, &sess), started),
    ensures
        cell is Built ==> (r matches Ok(stage) && stage is None),
        cell is Empty ==> match started {
            Ok(stage) => r matches Ok(Some(same)) && same.plan().options() == handler.opts
                && same.plan().policy() == stage.plan().policy() && same.plan().policy().iface
                == sess.iface && same.plan().policy().so_mark == sess.so_mark,
            Err(e) => r == Err::<Option<TlsStage<'a>>, TuicError>(e),
        },
{
}

/// The first outbound fills the cell and stays there; a failure is handed on and leaves
/// the cell as it was.
pub proof fn law_cell_keeps_the_first_outbound(
    cell: &mut OutboundCell,
    outcome: Result<SocketPolicy, TuicError>,
    r: Result<(), TuicError>,
)
    requires
        call_ensures(OutboundCell::settle, (cell, outcome), r),
    ensures
        *old(cell) is Built ==> *final(cell) == *old(cell),
        outcome is Err ==> *final(cell) == *old(cell),
        *old(cell) is Empty ==> (outcome matches Ok(policy) ==> *final(cell)
            == OutboundCell::Built(policy)),
        outcome is Ok <==> r is Ok,
        outcome matches Err(e) ==> r == Err::<(), TuicError>(e),
{
}

/// A stream is tried if and only if there is an outbound, to the session's destination
/// and for as long as a request may take; without one, a stream and an association
/// fail alike, with the outbound's error.
pub proof fn law_streams_need_an_outbound(
    handler: Handler,
    sess: Session,
    outbound: Result<(), TuicError>,
    stream: Result<(TargetAddr, Duration), TuicError>,
    datagram: Result<(TuicDatagramOutbound, FlowContext), TuicError>,
)
    requires
        call_ensures(Handler::open_stream, (&handler, outbound, &sess), stream),
        call_ensures(Handler::open_datagram, (&handler, outbound, &sess), datagram),
    ensures
        outbound is Ok <==> stream is Ok,
        outbound is Ok <==> datagram is Ok,
        stream matches Ok(attempt) ==> same_place(attempt.0, sess.destination) && attempt.1
            == handler.opts.request_timeout,
        datagram matches Ok(association) ==> same_place(association.1.target, sess.destination),
        outbound matches Err(e) ==> stream == Err::<(TargetAddr, Duration), TuicError>(e)
            && datagram == Err::<(TuicDatagramOutbound, FlowContext), TuicError>(e),
{
}

/// A stream is open if and only if there is an outbound and the attempt on it was
/// ready; an outbound's error comes before any of the attempt, and the attempt's comes
/// with its reason.
pub proof fn law_stream_outcomes_are_reported(
    handler: Handler,
    outbound: Result<(), TuicError>,
    outcome: ConnectOutcome,
    r: Result<(), TuicError>,
    attempt: Result<(), TuicError>,
)
    requires
        call_ensures(Handler::stream_given, (&handler, outbound, outcome), r),
        call_ensures(Handler::stream_connected, (&handler, outcome), attempt),
    ensures
        outcome is Ready <==> attempt is Ok,
        outcome matches ConnectOutcome::Failed(e) ==> attempt == Err::<(), TuicError>(
            TuicError::StreamConnect(e),
        ),
        outcome is TimedOut ==> attempt == Err::<(), TuicError>(TuicError::StreamTimedOut),
        outbound is Ok ==> r == attempt,
        outbound matches Err(e) ==> r == Err::<(), TuicError>(e),
{
}

/// A handler holds its configuration, goes by its name and its server's, and relays
/// UDP.
pub proof fn law_handler_holds_what_it_was_given(
    opts: HandlerOptions,
    handler: Handler,
    name: &str,
    server: Option<&str>,
    udp: bool,
)
    requires
        call_ensures(Handler::new, (opts,), handler),
        call_ensures(Handler::name, (&handler,), name),
        call_ensures(Handler::server_name, (&handler,), server),
        call_ensures(Handler::support_udp, (&handler,), udp),
    ensures
        handler.opts == opts,
        name@ == opts.name@,
        server matches Some(server) && server@ == opts.server@,
        udp,
{
}

/// A copy of a configuration holds the same, and so does a copy of a socket policy.
pub proof fn law_copies_hold_the_same(
    opts: HandlerOptions,
    copy: HandlerOptions,
    policy: SocketPolicy,
    same: SocketPolicy,
)
    requires
        call_ensures(HandlerOptions::clone, (&opts,), copy),
        call_ensures(SocketPolicy::clone, (&policy,), same),
    ensures
        copy == (HandlerOptions { alpn: copy.alpn, ..opts }),
        copy.alpn@.len() == opts.alpn@.len(),
        forall|i: int| 0 <= i < opts.alpn@.len() ==> (#[trigger] copy.alpn@[i])@ == opts.alpn@[i]@,
        same == policy,
{
    assert(bytes_of(copy.alpn@).len() == bytes_of(opts.alpn@).len());
    assert forall|i: int| 0 <= i < opts.alpn@.len() implies (#[trigger] copy.alpn@[i])@
        == opts.alpn@[i]@ by {
        assert(bytes_of(copy.alpn@)[i] == bytes_of(opts.alpn@)[i]);
    }
}

/// A relay mode is native if and only if its name reads so, whatever the case; every
/// other name stands for QUIC. The name that a mode reports stands for the mode.
pub proof fn law_relay_modes_are_read(
    text: &str,
    r: UdpRelayMode,
    mode: UdpRelayMode,
    name: &'static str,
    back: UdpRelayMode,
)
    requires
        call_ensures(UdpRelayMode::from, (text,), r),
        call_ensures(UdpRelayMode::as_str, (&mode,), name),
        call_ensures(UdpRelayMode::from, (name,), back),
    ensures
        same_ignoring_case(text@, "native"@) <==> r is Native,
        back == mode,
        name@ == if mode is Native {
            "native"@
        } else {
            "quic"@
        },
{
    law_relay_mode_name_comes_back(mode);
}

/// A controller is read if and only if its name is given, whatever the case; every
/// other name stands for the default one, BBR, and is found to be none.
pub proof fn law_controllers_are_read(
    text: &str,
    r: CongestionControl,
    found: Option<CongestionControl>,
    default: CongestionControl,
)
    requires
        call_ensures(CongestionControl::from, (text,), r),
        call_ensures(CongestionControl::find, (text,), found),
        call_ensures(CongestionControl::default, (), default),
    ensures
        same_ignoring_case(text@, "cubic"@) <==> r is Cubic,
        same_ignoring_case(text@, "new_reno"@) || same_ignoring_case(text@, "newreno"@)
            <==> r is NewReno,
        same_ignoring_case(text@, "bbr3"@) <==> r is Bbr3,
        same_ignoring_case(text@, "bbr"@) <==> found == Some(CongestionControl::Bbr),
        found matches Some(control) ==> r == control,
        found is None ==> r == default,
        default is Bbr,
        found is None <==> r is Bbr && !same_ignoring_case(text@, "bbr"@),
{
    reveal_strlit("cubic");
    reveal_strlit("new_reno");
    reveal_strlit("newreno");
    reveal_strlit("bbr");
    reveal_strlit("bbr3");
    assert(ascii_lower("cubic"@).len() == 5);
    assert(ascii_lower("new_reno"@).len() == 8);
    assert(ascii_lower("newreno"@).len() == 7);
    assert(ascii_lower("bbr"@).len() == 3);
    assert(ascii_lower("bbr3"@).len() == 4);
}

/// An error in words ends in the reason that came with it, behind what it is a reason
/// for; a resolver's reason stands alone.
pub proof fn law_errors_give_their_reason(reason: String, error: TuicError, words: String)
    requires
        call_ensures(TuicError::message, (&error,), words),
    ensures
        error == TuicError::Tls(reason) ==> words@ == "tuic TLS: "@ + reason@,
        error == TuicError::Resolver(reason) ==> words@ == reason@,
        error == TuicError::Connect(reason) ==> words@ == "TUIC connect: "@ + reason@,
        error == TuicError::Poll(reason) ==> words@ == "TUIC poll: "@ + reason@,
        error == TuicError::StreamConnect(reason) ==> words@ == "TUIC stream connect: "@ + reason@,
        error is HeartbeatInterval ==> words@ == "TUIC heartbeat interval must be positive"@,
        error is GcInterval ==> words@ == "TUIC GC interval must be positive"@,
        error is NoAddress ==> words@ == "TUIC server resolution returned no address"@,
        error is ConnectTimedOut ==> words@ == "TUIC connect timed out"@,
        error is StreamTimedOut ==> words@ == "TUIC stream connect timed out"@,
{
}

} // verus!
