use clash_lib::session::{
    IpAddr, Ipv4Addr, Ipv6Addr, Session, SocketAddr, SocketAddrV6, SocksAddr,
};
use clash_lib::tuic::datagram::{
    NetworkType, Protocol, RelayPacket, TuicDatagramOutbound, UdpPacket, CHANNEL_CAPACITY,
};
use clash_lib::tuic::error::TuicError;
use clash_lib::tuic::handler::{ApiValue, Handler};
use clash_lib::tuic::init::{
    ConnectOutcome, ConnectStage, InitResults, ResolveProgress, ResolveStage, ServerStage,
};
use clash_lib::tuic::options::{Duration, HandlerOptions, SocketPolicy};
use clash_lib::tuic::outbound::OutboundCell;
use clash_lib::tuic::types::{
    from_target, CongestionControl, ResolveEvent, ResolveStep, ServerAddr, SocketAdderTrans,
    TargetAddr, UdpRelayMode,
};

fn millis(ms: u64) -> Duration {
    Duration { secs: ms / 1000, nanos: (ms % 1000) as u32 * 1_000_000 }
}

fn options() -> HandlerOptions {
    HandlerOptions {
        name: "test-tuic".to_string(),
        server: "127.0.0.1".to_string(),
        port: 8443,
        uuid: 1,
        password: "passwd".to_string(),
        udp_relay_mode: UdpRelayMode::Native,
        disable_sni: true,
        alpn: vec![b"h3".to_vec()],
        heartbeat_interval: millis(3000),
        reduce_rtt: false,
        request_timeout: millis(4000),
        idle_timeout: millis(4500),
        congestion_controller: CongestionControl::Bbr,
        max_open_stream: 32,
        gc_interval: millis(3001),
        gc_lifetime: millis(15000),
        send_window: 8 * 1024 * 1024 * 2,
        receive_window: 8 * 1024 * 1024,
        skip_cert_verify: true,
        max_udp_relay_packet_size: 1500,
        ip: Some("127.0.0.1".to_string()),
        sni: Some("localhost".to_string()),
        tls_cert: None,
        tls_key: None,
    }
}

fn v4(bits: u32) -> IpAddr {
    IpAddr::V4(Ipv4Addr { bits })
}

fn v6(bits: u128) -> IpAddr {
    IpAddr::V6(Ipv6Addr { bits })
}

fn session() -> Session {
    Session {
        source: SocketAddr::new(v4(0x7f00_0001), 54321),
        destination: SocksAddr::Domain("example.com".to_string(), 443),
        so_mark: Some(7),
        iface: Some("eth0".to_string()),
    }
}

/// Takes a handler up to the stage where its connection is made.
fn connect_stage<'a>(handler: &'a Handler, address: Option<IpAddr>) -> ConnectStage<'a> {
    let stage = handler.init_outbound(&session()).unwrap();
    let stage = stage.built(Ok(())).unwrap();
    match stage.address_read(address).resolve(ResolveEvent::Start) {
        ResolveProgress::Found(stage) => stage,
        _ => panic!("no address"),
    }
}

fn results() -> InitResults {
    InitResults {
        tls: Ok(()),
        answer: Ok(None),
        connect: ConnectOutcome::Ready,
        poll: Ok(()),
    }
}

fn text(value: &str) -> ApiValue {
    ApiValue::Text(value.to_string())
}

#[test]
fn relay_mode_names() {
    assert!(UdpRelayMode::from("native") == UdpRelayMode::Native);
    assert!(UdpRelayMode::from("NaTiVe") == UdpRelayMode::Native);
    assert!(UdpRelayMode::from("quic") == UdpRelayMode::Quic);
    assert!(UdpRelayMode::from("QUIC") == UdpRelayMode::Quic);
    assert!(UdpRelayMode::from("") == UdpRelayMode::Quic);
    assert!(UdpRelayMode::from("natives") == UdpRelayMode::Quic);
    for mode in [UdpRelayMode::Native, UdpRelayMode::Quic] {
        assert!(UdpRelayMode::from(mode.as_str()) == mode);
    }
    assert_eq!(UdpRelayMode::Native.as_str(), "native");
    assert_eq!(UdpRelayMode::Quic.as_str(), "quic");
}

#[test]
fn congestion_controller_names() {
    assert!(CongestionControl::from("cubic") == CongestionControl::Cubic);
    assert!(CongestionControl::from("CUBIC") == CongestionControl::Cubic);
    assert!(CongestionControl::from("new_reno") == CongestionControl::NewReno);
    assert!(CongestionControl::from("NewReno") == CongestionControl::NewReno);
    assert!(CongestionControl::from("bbr") == CongestionControl::Bbr);
    assert!(CongestionControl::from("BBR3") == CongestionControl::Bbr3);
    assert!(CongestionControl::from("new-reno") == CongestionControl::Bbr);
    assert!(CongestionControl::from("") == CongestionControl::Bbr);
    assert!(CongestionControl::default() == CongestionControl::Bbr);
    assert!(CongestionControl::find("Bbr") == Some(CongestionControl::Bbr));
    assert!(CongestionControl::find("bbr2").is_none());
}

#[test]
fn targets_and_destinations_come_back() {
    let addr = SocksAddr::Ip(SocketAddr::new(v4(0x0102_0304), 5));
    let target = addr.into_tuic();
    assert!(matches!(target, TargetAddr::IPv4(Ipv4Addr { bits: 0x0102_0304 }, 5)));
    assert!(matches!(
        from_target(target),
        SocksAddr::Ip(back) if back == SocketAddr::new(v4(0x0102_0304), 5)
    ));

    let target = SocksAddr::Domain("a.b".to_string(), 6).into_tuic();
    assert!(matches!(&target, TargetAddr::Domain(name, 6) if name == "a.b"));
    assert!(matches!(from_target(target), SocksAddr::Domain(name, 6) if name == "a.b"));

    let target = TargetAddr::IPv6(Ipv6Addr { bits: 1 }, 7);
    let back = from_target(target);
    assert!(matches!(
        &back,
        SocksAddr::Ip(SocketAddr::V6(SocketAddrV6 { ip: Ipv6Addr { bits: 1 }, port: 7, flowinfo: 0, scope_id: 0 }))
    ));
    assert!(matches!(back.into_tuic(), TargetAddr::IPv6(Ipv6Addr { bits: 1 }, 7)));
}

#[test]
fn flow_information_and_scope_are_dropped() {
    let addr = SocksAddr::Ip(SocketAddr::V6(SocketAddrV6 {
        ip: Ipv6Addr { bits: 2 },
        port: 8,
        flowinfo: 3,
        scope_id: 4,
    }));
    let target = addr.clone().into_tuic();
    assert!(matches!(target, TargetAddr::IPv6(Ipv6Addr { bits: 2 }, 8)));
    assert!(matches!(
        from_target(target),
        SocksAddr::Ip(SocketAddr::V6(SocketAddrV6 { flowinfo: 0, scope_id: 0, .. }))
    ));
}

#[test]
fn server_name_is_sni_or_domain() {
    let with = ServerAddr::new("a.b".to_string(), 1, None, Some("c.d".to_string()));
    assert_eq!(with.server_name(), "c.d");
    assert_eq!(with.clone().server_name(), "c.d");
    let without = ServerAddr::new("a.b".to_string(), 1, None, None);
    assert_eq!(without.server_name(), "a.b");
}

#[test]
fn configured_address_is_used_at_once() {
    let server = ServerAddr::new("::1".to_string(), 9, Some(v4(1)), None);
    for event in [
        ResolveEvent::Start,
        ResolveEvent::Answer(Ok(Some(v4(3)))),
        ResolveEvent::Answer(Ok(None)),
        ResolveEvent::Answer(Err("down".to_string())),
    ] {
        assert!(matches!(
            server.resolve(event),
            ResolveStep::Finish(Ok(addr)) if addr == SocketAddr::new(v4(1), 9)
        ));
    }
    assert!(matches!(
        server.resolve_with(Some(v4(2)), ResolveEvent::Start),
        ResolveStep::Finish(Ok(addr)) if addr == SocketAddr::new(v4(1), 9)
    ));
}

#[test]
fn domains_that_are_addresses_are_not_looked_up() {
    for (domain, ip) in [
        ("127.0.0.1", v4(0x7f00_0001)),
        ("[127.0.0.1]", v4(0x7f00_0001)),
        ("::1", v6(1)),
        ("[::1]", v6(1)),
        ("[[::1]]", v6(1)),
        ("2001:db8::ff", v6(0x2001_0db8_0000_0000_0000_0000_0000_00ff)),
    ] {
        let server = ServerAddr::new(domain.to_string(), 9, None, None);
        assert!(matches!(
            server.resolve(ResolveEvent::Start),
            ResolveStep::Finish(Ok(addr)) if addr == SocketAddr::new(ip, 9)
        ));
    }
}

#[test]
fn other_domains_are_looked_up_as_they_are() {
    for domain in ["example.com", "[host]", "127.0.0.1.", "256.0.0.1", "]::1[", "[]", ""] {
        let server = ServerAddr::new(domain.to_string(), 9, None, None);
        assert!(matches!(
            server.resolve(ResolveEvent::Start),
            ResolveStep::AskResolver { host, enhanced: false } if host == domain
        ));
    }
}

#[test]
fn resolution_steps() {
    let server = ServerAddr::new("[host]".to_string(), 9, None, None);
    assert!(matches!(
        server.resolve_with(Some(v6(5)), ResolveEvent::Start),
        ResolveStep::Finish(Ok(addr)) if addr == SocketAddr::new(v6(5), 9)
    ));
    assert!(matches!(
        server.resolve_with(None, ResolveEvent::Start),
        ResolveStep::AskResolver { host, enhanced: false } if host == "[host]"
    ));
    assert!(matches!(
        server.resolve(ResolveEvent::Answer(Ok(Some(v4(6))))),
        ResolveStep::Finish(Ok(addr)) if addr == SocketAddr::new(v4(6), 9)
    ));
    assert!(matches!(
        server.resolve(ResolveEvent::Answer(Ok(None))),
        ResolveStep::Finish(Err(TuicError::NoAddress))
    ));
    assert!(matches!(
        server.resolve(ResolveEvent::Answer(Err("down".to_string()))),
        ResolveStep::Finish(Err(TuicError::Resolver(e))) if e == "down"
    ));
}

#[test]
fn durations_and_zero() {
    assert!(Duration { secs: 0, nanos: 0 }.is_zero());
    assert!(!Duration { secs: 0, nanos: 1 }.is_zero());
    assert!(!Duration { secs: 1, nanos: 0 }.is_zero());
}

#[test]
fn handler_reports_itself() {
    let handler = Handler::new(options());
    assert_eq!(handler.name(), "test-tuic");
    assert_eq!(handler.server_name(), Some("127.0.0.1"));
    assert!(handler.support_udp());
}

#[test]
fn description_of_a_full_configuration() {
    let mut opts = options();
    opts.uuid = 0x67e5_5044_10b1_426f_9247_bb68_0e5f_e0c8;
    let map = Handler::new(opts).as_map();
    let expected = vec![
        ("server".to_string(), text("127.0.0.1")),
        ("port".to_string(), ApiValue::Number(8443)),
        ("uuid".to_string(), text("67e55044-10b1-426f-9247-bb680e5fe0c8")),
        ("password".to_string(), text("passwd")),
        ("udp-relay-mode".to_string(), text("native")),
        ("skip-cert-verify".to_string(), ApiValue::Flag(true)),
        ("sni".to_string(), text("localhost")),
        ("disable-sni".to_string(), ApiValue::Flag(true)),
    ];
    assert_eq!(map, expected);
    for (i, entry) in map.iter().enumerate() {
        assert!(map[..i].iter().all(|earlier| earlier.0 != entry.0));
    }
}

#[test]
fn description_of_a_bare_configuration() {
    let mut opts = options();
    opts.udp_relay_mode = UdpRelayMode::Quic;
    opts.skip_cert_verify = false;
    opts.disable_sni = false;
    opts.sni = None;
    let expected = vec![
        ("server".to_string(), text("127.0.0.1")),
        ("port".to_string(), ApiValue::Number(8443)),
        ("uuid".to_string(), text("00000000-0000-0000-0000-000000000001")),
        ("password".to_string(), text("passwd")),
        ("udp-relay-mode".to_string(), text("quic")),
    ];
    assert_eq!(Handler::new(opts).as_map(), expected);
}

#[test]
fn uuid_text_is_what_the_uuid_crate_reads() {
    for uuid in [0u128, u128::MAX, 0x0123_4567_89ab_cdef_0123_4567_89ab_cdef] {
        let mut opts = options();
        opts.uuid = uuid;
        let map = Handler::new(opts).as_map();
        match &map[2].1 {
            ApiValue::Text(text) => {
                assert_eq!(text.len(), 36);
                assert_eq!(uuid::Uuid::parse_str(text).unwrap().as_u128(), uuid);
            }
            other => panic!("{:?}", other),
        }
    }
}

#[test]
fn zero_intervals_are_refused_in_order() {
    let zero = Duration { secs: 0, nanos: 0 };
    let mut opts = options();
    opts.heartbeat_interval = zero;
    opts.gc_interval = zero;
    assert!(matches!(
        Handler::new(opts).init_outbound(&session()),
        Err(TuicError::HeartbeatInterval)
    ));
    let mut opts = options();
    opts.gc_interval = zero;
    assert!(matches!(
        Handler::new(opts).init_outbound(&session()),
        Err(TuicError::GcInterval)
    ));
}

#[test]
fn tls_settings_follow_the_options() {
    let mut opts = options();
    opts.reduce_rtt = true;
    opts.alpn = vec![b"h3".to_vec(), vec![0xff, 0x00]];
    opts.tls_cert = Some("cert".to_string());
    opts.tls_key = Some("key".to_string());
    let handler = Handler::new(opts);
    let tls = handler.init_outbound(&session()).unwrap().settings();
    assert_eq!(tls.alpn_protocols, vec![b"h3".to_vec(), vec![0xff, 0x00]]);
    assert!(tls.enable_early_data);
    assert!(!tls.enable_sni);
    assert!(tls.skip_cert_verify);
    assert_eq!(tls.cert.as_deref(), Some("cert"));
    assert_eq!(tls.key.as_deref(), Some("key"));
}

#[test]
fn outbound_settings_follow_the_options() {
    let mut opts = options();
    opts.alpn = vec![b"h3".to_vec(), "\u{e4}".as_bytes().to_vec(), vec![b'a', 0xff, b'b']];
    let handler = Handler::new(opts);
    let stage = connect_stage(&handler, Some(v4(0x0a00_0001)));
    assert!(stage.time_limit() == millis(4000));
    assert_eq!(stage.server().server_name(), "localhost");
    let out = stage.settings();
    assert!(out.peer_addr == SocketAddr::new(v4(0x0a00_0001), 8443));
    assert_eq!(out.sni, "localhost");
    assert_eq!(out.auth, (1, b"passwd".to_vec()));
    assert!(!out.zero_rtt_handshake);
    assert!(out.heartbeat == millis(3000));
    assert!(out.gc_interval == millis(3001));
    assert!(out.gc_lifetime == millis(15000));
    assert!(out.skip_cert_verify);
    assert_eq!(out.alpn, vec!["h3", "\u{e4}", "a\u{fffd}b"]);
    assert!(out.congestion_control == CongestionControl::Bbr);
    assert_eq!(out.max_concurrent_bi_streams, Some(32));
    assert_eq!(out.max_concurrent_uni_streams, Some(32));
    assert_eq!(out.send_window, Some(16 * 1024 * 1024));
    assert_eq!(out.stream_receive_window, Some(8 * 1024 * 1024));
    assert!(out.max_idle_time == Some(millis(4500)));
    assert!(out.udp_relay_mode == UdpRelayMode::Native);
    assert_eq!(out.socket.iface.as_deref(), Some("eth0"));
    assert_eq!(out.socket.so_mark, Some(7));
    let out = stage.settings_with(vec!["x".to_string()]);
    assert_eq!(out.alpn, vec!["x"]);
}

#[test]
fn stream_limits_are_capped() {
    for (given, capped) in [
        (0, 0),
        (u32::MAX as u64, u32::MAX),
        (u32::MAX as u64 + 1, u32::MAX),
        (u64::MAX, u32::MAX),
    ] {
        let mut opts = options();
        opts.max_open_stream = given;
        let handler = Handler::new(opts);
        let out = connect_stage(&handler, Some(v4(1))).settings();
        assert_eq!(out.max_concurrent_bi_streams, Some(capped));
        assert_eq!(out.max_concurrent_uni_streams, Some(capped));
    }
}

fn server_stage<'a>(handler: &'a Handler) -> ServerStage<'a> {
    handler.init_outbound(&session()).unwrap().built(Ok(())).unwrap()
}

#[test]
fn address_text_counts_only_where_there_is_one() {
    let handler = Handler::new(options());
    assert!(server_stage(&handler).read_address().server().ip == Some(v4(0x7f00_0001)));
    assert!(server_stage(&handler).address_read(Some(v4(1))).server().ip == Some(v4(1)));
    assert!(server_stage(&handler).address_read(None).server().ip.is_none());

    let mut opts = options();
    opts.ip = Some("[::1]".to_string());
    let handler = Handler::new(opts);
    assert!(server_stage(&handler).read_address().server().ip.is_none());

    let mut opts = options();
    opts.ip = None;
    let handler = Handler::new(opts);
    assert!(server_stage(&handler).read_address().server().ip.is_none());
    assert!(server_stage(&handler).address_read(Some(v4(1))).server().ip.is_none());
}

#[test]
fn stages_of_a_lookup() {
    let mut opts = options();
    opts.ip = None;
    opts.server = "example.com".to_string();
    let handler = Handler::new(opts);
    fn asked<'a>(handler: &'a Handler) -> ResolveStage<'a> {
        match server_stage(handler).read_address().resolve(ResolveEvent::Start) {
            ResolveProgress::Ask(stage, ResolveStep::AskResolver { host, enhanced: false }) => {
                assert_eq!(host, "example.com");
                stage
            }
            _ => panic!("nothing asked"),
        }
    }
    match asked(&handler).resolve(ResolveEvent::Answer(Ok(Some(v4(3))))) {
        ResolveProgress::Found(stage) => {
            assert!(stage.settings().peer_addr == SocketAddr::new(v4(3), 8443));
        }
        _ => panic!("no address"),
    }
    assert!(matches!(
        asked(&handler).resolve(ResolveEvent::Answer(Ok(None))),
        ResolveProgress::Failed(TuicError::NoAddress)
    ));
    assert!(matches!(
        asked(&handler).resolve_with(Some(v4(4)), ResolveEvent::Start),
        ResolveProgress::Found(_)
    ));
}

#[test]
fn init_succeeds_with_the_session_policy() {
    let handler = Handler::new(options());
    let policy = handler.init_with(&session(), results()).unwrap();
    assert_eq!(policy.iface.as_deref(), Some("eth0"));
    assert_eq!(policy.so_mark, Some(7));
}

#[test]
fn init_errors_and_their_words() {
    let zero = Duration { secs: 0, nanos: 0 };
    let mut opts = options();
    opts.ip = None;
    opts.server = "example.com".to_string();
    let handler = Handler::new(opts);
    let fail = |results: InitResults| handler.init_with(&session(), results).unwrap_err().message();

    let mut r = results();
    r.tls = Err("bad key".to_string());
    assert_eq!(fail(r), "tuic TLS: bad key");
    assert_eq!(fail(results()), "TUIC server resolution returned no address");
    let mut r = results();
    r.answer = Err("dns down".to_string());
    assert_eq!(fail(r), "dns down");
    let mut r = results();
    r.answer = Ok(Some(v4(9)));
    r.connect = ConnectOutcome::TimedOut;
    assert_eq!(fail(r), "TUIC connect timed out");
    let mut r = results();
    r.answer = Ok(Some(v4(9)));
    r.connect = ConnectOutcome::Failed("refused".to_string());
    r.poll = Err("later".to_string());
    assert_eq!(fail(r), "TUIC connect: refused");
    let mut r = results();
    r.answer = Ok(Some(v4(9)));
    r.poll = Err("gone".to_string());
    assert_eq!(fail(r), "TUIC poll: gone");

    let mut opts = options();
    opts.heartbeat_interval = zero;
    assert_eq!(
        Handler::new(opts).init_with(&session(), results()).unwrap_err().message(),
        "TUIC heartbeat interval must be positive"
    );
    let mut opts = options();
    opts.gc_interval = zero;
    assert_eq!(
        Handler::new(opts).init_with(&session(), results()).unwrap_err().message(),
        "TUIC GC interval must be positive"
    );
}

#[test]
fn init_falls_back_from_address_to_literal_to_resolver() {
    let handler = Handler::new(options());
    let answered = |answer: Result<Option<IpAddr>, String>| {
        let mut r = results();
        r.answer = answer;
        r
    };
    let down = || answered(Err("down".to_string()));
    let given = |address, literal, r| handler.init_given(&session(), address, literal, r);
    assert!(given(Some(v4(1)), None, down()).is_ok());
    assert!(given(None, Some(v4(2)), down()).is_ok());
    assert!(given(None, None, answered(Ok(Some(v4(3))))).is_ok());
    assert!(matches!(given(None, None, down()), Err(TuicError::Resolver(e)) if e == "down"));
    // Both the configured text and the server's are addresses.
    assert!(handler.init_with(&session(), down()).is_ok());
}

#[test]
fn first_outbound_stays() {
    fn policy(mark: u32) -> SocketPolicy {
        SocketPolicy { iface: None, so_mark: Some(mark) }
    }
    let handler = Handler::new(options());
    let mut cell = OutboundCell::Empty;
    assert!(matches!(handler.get_outbound(&cell, &session()), Ok(Some(_))));
    assert!(matches!(
        cell.settle(Err(TuicError::ConnectTimedOut)),
        Err(TuicError::ConnectTimedOut)
    ));
    assert!(matches!(cell, OutboundCell::Empty));
    assert!(cell.settle(Ok(policy(1))).is_ok());
    assert!(cell.settle(Ok(policy(2))).is_ok());
    assert!(cell.settle(Err(TuicError::NoAddress)).is_err());
    assert!(matches!(&cell, OutboundCell::Built(p) if p.so_mark == Some(1)));
    assert!(matches!(handler.get_outbound(&cell, &session()), Ok(None)));
    assert!(matches!(handler.get_outbound(&cell, &Session::default()), Ok(None)));

    let mut opts = options();
    opts.gc_interval = Duration { secs: 0, nanos: 0 };
    let handler = Handler::new(opts);
    assert!(matches!(
        handler.get_outbound(&OutboundCell::Empty, &session()),
        Err(TuicError::GcInterval)
    ));
}

#[test]
fn streams_go_to_the_destination() {
    let handler = Handler::new(options());
    assert!(matches!(
        handler.stream_target(&session()),
        TargetAddr::Domain(name, 443) if name == "example.com"
    ));
    assert!(handler.stream_time_limit() == millis(4000));
    assert!(handler.stream_connected(ConnectOutcome::Ready).is_ok());
    assert_eq!(
        handler.stream_connected(ConnectOutcome::TimedOut).unwrap_err().message(),
        "TUIC stream connect timed out"
    );
    assert_eq!(
        handler
            .stream_connected(ConnectOutcome::Failed("reset".to_string()))
            .unwrap_err()
            .message(),
        "TUIC stream connect: reset"
    );
}

#[test]
fn opening_a_stream() {
    let handler = Handler::new(options());
    let (target, limit) = handler.open_stream(Ok(()), &session()).unwrap();
    assert!(matches!(target, TargetAddr::Domain(name, 443) if name == "example.com"));
    assert!(limit == millis(4000));
    assert!(handler.stream_given(Ok(()), ConnectOutcome::Ready).is_ok());
    assert!(matches!(
        handler.stream_given(Ok(()), ConnectOutcome::Failed("reset".to_string())),
        Err(TuicError::StreamConnect(e)) if e == "reset"
    ));
    assert!(matches!(
        handler.stream_given(Ok(()), ConnectOutcome::TimedOut),
        Err(TuicError::StreamTimedOut)
    ));
}

#[test]
fn outbound_errors_are_handed_on() {
    let handler = Handler::new(options());
    for outcome in [
        ConnectOutcome::Ready,
        ConnectOutcome::Failed("reset".to_string()),
        ConnectOutcome::TimedOut,
    ] {
        assert!(matches!(
            handler.stream_given(Err(TuicError::Connect("refused".to_string())), outcome),
            Err(TuicError::Connect(e)) if e == "refused"
        ));
    }
    assert!(matches!(
        handler.open_stream(Err(TuicError::NoAddress), &session()),
        Err(TuicError::NoAddress)
    ));
    assert!(matches!(
        handler.open_datagram(Err(TuicError::ConnectTimedOut), &session()),
        Err(TuicError::ConnectTimedOut)
    ));
    let (assoc, flow) = handler.open_datagram(Ok(()), &session()).unwrap();
    assert!(matches!(
        assoc.local_addr,
        SocksAddr::Ip(addr) if addr == SocketAddr::new(v4(0x7f00_0001), 54321)
    ));
    assert!(matches!(&flow.target, TargetAddr::Domain(name, 443) if name == "example.com"));
    assert!(flow.network == NetworkType::Udp);
}

#[test]
fn failed_build_fails_the_stream() {
    let mut opts = options();
    opts.heartbeat_interval = millis(0);
    let handler = Handler::new(opts);
    let built = handler.init_given(&session(), None, None, results());
    let got = match built {
        Ok(_) => Ok(()),
        Err(e) => Err(e),
    };
    assert!(matches!(
        handler.stream_given(got, ConnectOutcome::Ready),
        Err(TuicError::HeartbeatInterval)
    ));
}

#[test]
fn packet_size_has_no_say() {
    let handler = Handler::new(options());
    let mut opts = options();
    opts.max_udp_relay_packet_size = 0;
    let other = Handler::new(opts);
    assert!(other.as_map() == handler.as_map());
    let address = Some(v4(0x7f00_0001));
    let settings = connect_stage(&handler, address).settings();
    let same = connect_stage(&other, address).settings();
    assert!(same.peer_addr == settings.peer_addr);
    assert!(same.heartbeat == settings.heartbeat);
    assert!(same.send_window == settings.send_window);
    assert!(same.stream_receive_window == settings.stream_receive_window);
    assert!(same.max_concurrent_bi_streams == settings.max_concurrent_bi_streams);
    assert!(same.alpn == settings.alpn);
}

#[test]
fn association_of_a_session() {
    let (assoc, flow) = TuicDatagramOutbound::new(&session());
    assert!(matches!(
        assoc.local_addr,
        SocksAddr::Ip(addr) if addr == SocketAddr::new(v4(0x7f00_0001), 54321)
    ));
    assert!(matches!(&flow.target, TargetAddr::Domain(name, 443) if name == "example.com"));
    assert!(flow.network == NetworkType::Udp);
    assert!(flow.source == Some(SocketAddr::new(v4(0x7f00_0001), 54321)));
    assert_eq!(flow.inbound_tag, "tuic");
    assert!(flow.protocol == Protocol::Tuic);
    assert!(flow.user.is_none() && flow.inbound_port.is_none() && flow.inbound_type.is_none());
    assert_eq!(CHANNEL_CAPACITY, 32);
}

#[test]
fn packets_and_replies() {
    let (assoc, _) = TuicDatagramOutbound::new(&session());
    let echo = SocketAddr::new(v4(0x0808_0808), 53);
    for probe in [b"hello-udp".as_slice(), b"second".as_slice()] {
        let sent = assoc.start_send(UdpPacket::new(
            probe.to_vec(),
            assoc.local_addr.clone(),
            SocksAddr::Ip(echo),
        ));
        assert!(sent.source.is_none());
        assert_eq!(sent.payload, probe);
        let reply = RelayPacket { source: None, target: sent.target, payload: sent.payload };
        let got = assoc.poll_next(Some(reply)).unwrap();
        assert_eq!(got.data, probe);
        assert!(matches!(got.src_addr, SocksAddr::Ip(addr) if addr == echo));
        assert!(matches!(
            got.dst_addr,
            SocksAddr::Ip(addr) if addr == SocketAddr::new(v4(0x7f00_0001), 54321)
        ));
    }
    assert!(assoc.poll_next(None).is_none());
}

#[test]
fn configured_address_decides() {
    let handler = Handler::new(options());
    let mut r = results();
    r.answer = Err("not asked".to_string());
    assert!(handler.init_given(&session(), Some(v4(1)), Some(v4(9)), r).is_ok());
    match server_stage(&handler).read_address().resolve_with(Some(v4(9)), ResolveEvent::Start) {
        ResolveProgress::Found(stage) => {
            assert!(stage.settings().peer_addr == SocketAddr::new(v4(0x7f00_0001), 8443));
        }
        _ => panic!("no address"),
    }
}

#[test]
fn cloned_options_are_the_same() {
    let mut opts = options();
    opts.alpn = vec![b"h3".to_vec(), vec![0xff]];
    let copy = opts.clone();
    assert_eq!(copy.alpn, opts.alpn);
    assert_eq!(format!("{:?}", copy), format!("{:?}", opts));
}

#[test]
fn tls_and_connection_agree() {
    for (reduce_rtt, skip_cert_verify) in [(false, true), (true, false)] {
        let mut opts = options();
        opts.reduce_rtt = reduce_rtt;
        opts.skip_cert_verify = skip_cert_verify;
        let handler = Handler::new(opts);
        let tls = handler.init_outbound(&session()).unwrap().settings();
        let out = connect_stage(&handler, Some(v4(1))).settings();
        assert_eq!(tls.enable_early_data, reduce_rtt);
        assert_eq!(out.zero_rtt_handshake, reduce_rtt);
        assert_eq!(tls.skip_cert_verify, skip_cert_verify);
        assert_eq!(out.skip_cert_verify, skip_cert_verify);
    }
}
