//! How a TUIC outbound is built, stage by stage. Each stage says what is to be done
//! next, and is left with what came of it.
use vstd::prelude::*;
use vstd::string::*;
use vstd::utf8::*;
use crate::session::{IpAddr, Session, SocketAddr};
use crate::tuic::error::TuicError;
use crate::tuic::handler::Handler;
use crate::tuic::options::{
    bytes_of, clone_bytes, clone_text, policy_of, Duration, HandlerOptions, SocketPolicy,
};
use crate::tuic::types::{
    bare_host, ip_of_text, read_host, read_ip, CongestionControl, ResolveEvent, ResolveStep,
    ServerAddr, UdpRelayMode,
};

verus! {

/// What becomes of a configuration before anything is done with it.
pub open spec fn checked(opts: HandlerOptions) -> Result<(), TuicError> {
    if opts.heartbeat_interval.in_nanos() == 0 {
        Err(TuicError::HeartbeatInterval)
    } else if opts.gc_interval.in_nanos() == 0 {
        Err(TuicError::GcInterval)
    } else {
        Ok(())
    }
}

/// The TLS client configuration to build.
#[derive(Debug)]
pub struct TlsSettings {
    pub skip_cert_verify: bool,
    pub cert: Option<String>,
    pub key: Option<String>,
    pub alpn_protocols: Vec<Vec<u8>>,
    pub enable_early_data: bool,
    pub enable_sni: bool,
}

/// The characters of each entry of a list.
pub open spec fn texts_of(list: Seq<String>) -> Seq<Seq<char>> {
    Seq::new(list.len(), |i: int| list[i]@)
}

/// `tls` is what `opts` asks of the TLS client.
pub open spec fn tls_settings_of(opts: HandlerOptions, tls: TlsSettings) -> bool {
    &&& tls.skip_cert_verify == opts.skip_cert_verify
    &&& tls.cert == opts.tls_cert
    &&& tls.key == opts.tls_key
    &&& bytes_of(tls.alpn_protocols@) == bytes_of(opts.alpn@)
    &&& tls.enable_early_data == opts.reduce_rtt
    &&& tls.enable_sni == !opts.disable_sni
}

/// The connection to make.
pub struct OutboundSettings {
    pub peer_addr: SocketAddr,
    pub sni: String,
    /// The user's identifier, and the password as bytes.
    pub auth: (u128, Vec<u8>),
    pub zero_rtt_handshake: bool,
    pub heartbeat: Duration,
    pub gc_interval: Duration,
    pub gc_lifetime: Duration,
    pub skip_cert_verify: bool,
    pub alpn: Vec<String>,
    pub congestion_control: CongestionControl,
    pub max_concurrent_bi_streams: Option<u32>,
    pub max_concurrent_uni_streams: Option<u32>,
    pub send_window: Option<u64>,
    pub stream_receive_window: Option<u64>,
    pub max_idle_time: Option<Duration>,
    pub udp_relay_mode: UdpRelayMode,
    /// How the connection's socket is bound and marked.
    pub socket: SocketPolicy,
}

/// What `String::from_utf8_lossy` reads in bytes.
pub uninterp spec fn lossy_text(bytes: Seq<u8>) -> Seq<char>;

/// `String::from_utf8_lossy`: the text that the bytes encode. Where they are not
/// UTF-8, which replacement characters stand in the text is left to the name.
#[verifier::external_body]
fn read_lossy(bytes: &[u8]) -> (r: String)
    ensures
        r@ == lossy_text(bytes@),
        valid_utf8(bytes@) ==> r@ == decode_utf8(bytes@),
{
    String::from_utf8_lossy(bytes).into_owned()
}

/// The text of each protocol name.
pub open spec fn alpn_texts(alpn: Seq<Vec<u8>>) -> Seq<Seq<char>> {
    Seq::new(alpn.len(), |i: int| lossy_text(alpn[i]@))
}

/// `n`, or the largest `u32` where `n` is larger.
pub open spec fn capped(n: u64) -> u32 {
    if n <= u32::MAX {
        n as u32
    } else {
        u32::MAX
    }
}

/// `out` is the connection that `opts` asks for, to `peer`, on a socket with `socket`
/// as its policy, with `alpn` as its protocol names.
pub open spec fn outbound_settings_of(
    opts: HandlerOptions,
    peer: SocketAddr,
    socket: SocketPolicy,
    alpn: Seq<Seq<char>>,
    out: OutboundSettings,
) -> bool {
    &&& out.peer_addr == peer
    &&& out.sni@ == server_of(opts, None).tls_name()
    &&& out.auth.0 == opts.uuid
    &&& out.auth.1@ == encode_utf8(opts.password@)
    &&& out.zero_rtt_handshake == opts.reduce_rtt
    &&& out.heartbeat == opts.heartbeat_interval
    &&& out.gc_interval == opts.gc_interval
    &&& out.gc_lifetime == opts.gc_lifetime
    &&& out.skip_cert_verify == opts.skip_cert_verify
    &&& texts_of(out.alpn@) == alpn
    &&& out.congestion_control == opts.congestion_controller
    &&& out.max_concurrent_bi_streams == Some(capped(opts.max_open_stream))
    &&& out.max_concurrent_uni_streams == Some(capped(opts.max_open_stream))
    &&& out.send_window == Some(opts.send_window)
    &&& out.stream_receive_window == Some(opts.receive_window)
    &&& out.max_idle_time == Some(opts.idle_timeout)
    &&& out.udp_relay_mode == opts.udp_relay_mode
    &&& out.socket == socket
}

/// What came of an attempt to connect within a time limit.
#[derive(Debug)]
pub enum ConnectOutcome {
    Ready,
    Failed(String),
    TimedOut,
}

/// The address that the configured address text stands for, if there is such a text
/// and it is an address.
pub open spec fn configured_ip(opts: HandlerOptions) -> Option<IpAddr> {
    match opts.ip {
        Some(text) => ip_of_text(text@),
        None => None,
    }
}

/// Reads the configured address text, where there is one.
fn configured_address(opts: &HandlerOptions) -> (r: Option<IpAddr>)
    ensures
        r == configured_ip(*opts),
{
    match &opts.ip {
        Some(text) => read_ip(text.as_str()),
        None => None,
    }
}

/// The configured server. `address` is what the configured address text stands for;
/// it counts only where there is such a text.
pub open spec fn server_of(opts: HandlerOptions, address: Option<IpAddr>) -> ServerAddr {
    ServerAddr {
        domain: opts.server,
        port: opts.port,
        ip: if opts.ip is Some {
            address
        } else {
            None
        },
        sni: opts.sni,
    }
}

/// An accepted configuration, with the socket policy that the outbound is built
/// with.
pub struct Plan<'a> {
    opts: &'a HandlerOptions,
    socket: SocketPolicy,
}

/// The configuration was accepted; the TLS client is to be built.
pub struct TlsStage<'a> {
    plan: Plan<'a>,
}

/// The TLS client is built; the address given in place of the server's is to be
/// read, where one is given.
pub struct ServerStage<'a> {
    plan: Plan<'a>,
}

/// The server is known; its socket address is to be found.
pub struct ResolveStage<'a> {
    plan: Plan<'a>,
    server: ServerAddr,
}

/// The server's socket address is known; the connection is to be made.
pub struct ConnectStage<'a> {
    plan: Plan<'a>,
    server: ServerAddr,
    peer: SocketAddr,
}

/// The connection is made; its tasks are to be started.
pub struct PollStage {
    socket: SocketPolicy,
}

/// Where the search for the server's socket address stands.
pub enum ResolveProgress<'a> {
    /// More is to be learned first.
    Ask(ResolveStage<'a>, ResolveStep),
    /// The address is found.
    Found(ConnectStage<'a>),
    /// There is none.
    Failed(TuicError),
}

impl<'a> Plan<'a> {
    /// No interval is zero.
    #[verifier::type_invariant]
    closed spec fn accepted(self) -> bool {
        checked(*self.opts) is Ok
    }

    /// The configuration.
    pub closed spec fn options(self) -> HandlerOptions {
        *self.opts
    }

    /// The policy of the outbound's socket.
    pub closed spec fn policy(self) -> SocketPolicy {
        self.socket
    }
}

impl Handler {
    /// Starts building the outbound for `sess`, unless an interval in the
    /// configuration is zero.
    pub fn init_outbound<'a>(&'a self, sess: &Session) -> (r: Result<TlsStage<'a>, TuicError>)
        ensures
            match checked(self.opts) {
                Ok(_) => r matches Ok(stage) && stage.plan().options() == self.opts
                    && stage.plan().policy() == policy_of(*sess),
                Err(e) => r == Err::<TlsStage<'a>, TuicError>(e),
            },
    {
        if self.opts.heartbeat_interval.is_zero() {
            return Err(TuicError::HeartbeatInterval);
        }
        if self.opts.gc_interval.is_zero() {
            return Err(TuicError::GcInterval);
        }
        let socket = SocketPolicy { iface: clone_text(&sess.iface), so_mark: sess.so_mark };
        Ok(TlsStage { plan: Plan { opts: &self.opts, socket } })
    }
}

impl<'a> TlsStage<'a> {
    /// What the stage was entered with.
    pub closed spec fn plan(self) -> Plan<'a> {
        self.plan
    }

    /// The TLS client to build.
    pub fn settings(&self) -> (r: TlsSettings)
        ensures
            tls_settings_of(self.plan().options(), r),
    {
        let opts = self.plan.opts;
        TlsSettings {
            skip_cert_verify: opts.skip_cert_verify,
            cert: clone_text(&opts.tls_cert),
            key: clone_text(&opts.tls_key),
            alpn_protocols: clone_bytes(&opts.alpn),
            enable_early_data: opts.reduce_rtt,
            enable_sni: !opts.disable_sni,
        }
    }

    /// Goes on once the TLS client was built, or was not for the reason given.
    pub fn built(self, outcome: Result<(), String>) -> (r: Result<ServerStage<'a>, TuicError>)
        ensures
            match outcome {
                Ok(_) => r matches Ok(stage) && stage.plan() == self.plan(),
                Err(e) => r == Err::<ServerStage<'a>, TuicError>(TuicError::Tls(e)),
            },
    {
        match outcome {
            Ok(_) => Ok(ServerStage { plan: self.plan }),
            Err(e) => Err(TuicError::Tls(e)),
        }
    }
}

impl<'a> ServerStage<'a> {
    /// What the stage was entered with.
    pub closed spec fn plan(self) -> Plan<'a> {
        self.plan
    }

    /// Goes on with what the configured text stands for, if it is an address.
    pub fn address_read(self, address: Option<IpAddr>) -> (r: ResolveStage<'a>)
        ensures
            r.plan() == self.plan(),
            r.target() == server_of(self.plan().options(), address),
    {
        let opts = self.plan.opts;
        let ip: Option<IpAddr> = match &opts.ip {
            Some(_) => address,
            None => None,
        };
        let server = ServerAddr::new(opts.server.clone(), opts.port, ip, clone_text(&opts.sni));
        ResolveStage { plan: self.plan, server }
    }

    /// Reads the address given in place of the server's, and goes on with it.
    pub fn read_address(self) -> (r: ResolveStage<'a>)
        ensures
            r.plan() == self.plan(),
            r.target() == server_of(self.plan().options(), configured_ip(self.plan().options())),
    {
        let address: Option<IpAddr> = configured_address(self.plan.opts);
        self.address_read(address)
    }
}

impl<'a> ResolveStage<'a> {
    /// The server is the configured one.
    #[verifier::type_invariant]
    closed spec fn configured(self) -> bool {
        self.server == server_of(*self.plan.opts, self.server.ip)
    }

    /// What the stage was entered with.
    pub closed spec fn plan(self) -> Plan<'a> {
        self.plan
    }

    /// The server.
    pub closed spec fn target(self) -> ServerAddr {
        self.server
    }

    /// The server to resolve, now and before each reconnect.
    pub fn server(&self) -> (r: &ServerAddr)
        ensures
            *r == self.target(),
    {
        &self.server
    }

    /// `r` is what `event` leads to, where the server's text stands for `literal`.
    pub open spec fn leads_to(
        self,
        literal: Option<IpAddr>,
        event: ResolveEvent,
        r: ResolveProgress<'a>,
    ) -> bool {
        match r {
            ResolveProgress::Ask(stage, step) => stage == self && !(step is Finish)
                && self.target().resolves_by(literal, event, step),
            ResolveProgress::Found(stage) => stage.plan() == self.plan() && stage.target()
                == self.target() && self.target().resolves_by(
                literal,
                event,
                ResolveStep::Finish(Ok(stage.peer_addr())),
            ),
            ResolveProgress::Failed(e) => self.target().resolves_by(
                literal,
                event,
                ResolveStep::Finish(Err(e)),
            ),
        }
    }

    /// Goes on with what was learned of the server's address, where the server's text
    /// stands for `literal`.
    pub fn resolve_with(self, literal: Option<IpAddr>, event: ResolveEvent) -> (r: ResolveProgress<
        'a,
    >)
        ensures
            self.leads_to(literal, event, r),
    {
        proof {
            use_type_invariant(&self);
        }
        match self.server.resolve_with(literal, event) {
            ResolveStep::Finish(Ok(peer)) => ResolveProgress::Found(
                ConnectStage { plan: self.plan, server: self.server, peer },
            ),
            ResolveStep::Finish(Err(e)) => ResolveProgress::Failed(e),
            step => ResolveProgress::Ask(self, step),
        }
    }

    /// Goes on with what was learned of the server's address.
    pub fn resolve(self, event: ResolveEvent) -> (r: ResolveProgress<'a>)
        ensures
            self.leads_to(self.target().literal(), event, r),
    {
        let literal: Option<IpAddr> = read_host(self.server.domain.as_str());
        self.resolve_with(literal, event)
    }
}

impl<'a> ConnectStage<'a> {
    /// The server is the configured one, and it is dialled at the configured port.
    #[verifier::type_invariant]
    closed spec fn configured(self) -> bool {
        &&& self.server == server_of(*self.plan.opts, self.server.ip)
        &&& exists|ip: IpAddr| self.peer == #[trigger] SocketAddr::of(ip, self.plan.opts.port)
    }

    /// What the stage was entered with.
    pub closed spec fn plan(self) -> Plan<'a> {
        self.plan
    }

    /// The server.
    pub closed spec fn target(self) -> ServerAddr {
        self.server
    }

    /// The server's socket address.
    pub closed spec fn peer_addr(self) -> SocketAddr {
        self.peer
    }

    /// The server that is connected to.
    pub fn server(&self) -> (r: &ServerAddr)
        ensures
            *r == self.target(),
    {
        &self.server
    }

    /// How long the connection may take.
    pub fn time_limit(&self) -> (r: Duration)
        ensures
            r == self.plan().options().request_timeout,
    {
        self.plan.opts.request_timeout
    }

    /// The connection to make, with the protocol names as text. It has a heartbeat
    /// and a garbage collection, and goes to the configured port.
    pub fn settings_with(&self, alpn: Vec<String>) -> (r: OutboundSettings)
        ensures
            outbound_settings_of(
                self.plan().options(),
                self.peer_addr(),
                self.plan().policy(),
                texts_of(alpn@),
                r,
            ),
            r.heartbeat.in_nanos() > 0,
            r.gc_interval.in_nanos() > 0,
            exists|ip: IpAddr|
                r.peer_addr == #[trigger] SocketAddr::of(ip, self.plan().options().port),
    {
        proof {
            use_type_invariant(self);
            use_type_invariant(&self.plan);
        }
        let opts = self.plan.opts;
        let streams: u32 = if opts.max_open_stream <= u32::MAX as u64 {
            opts.max_open_stream as u32
        } else {
            u32::MAX
        };
        OutboundSettings {
            peer_addr: self.peer,
            sni: self.server.server_name().to_owned(),
            auth: (opts.uuid, opts.password.as_str().as_bytes_vec()),
            zero_rtt_handshake: opts.reduce_rtt,
            heartbeat: opts.heartbeat_interval,
            gc_interval: opts.gc_interval,
            gc_lifetime: opts.gc_lifetime,
            skip_cert_verify: opts.skip_cert_verify,
            alpn,
            congestion_control: opts.congestion_controller,
            max_concurrent_bi_streams: Some(streams),
            max_concurrent_uni_streams: Some(streams),
            send_window: Some(opts.send_window),
            stream_receive_window: Some(opts.receive_window),
            max_idle_time: Some(opts.idle_timeout),
            udp_relay_mode: opts.udp_relay_mode,
            socket: self.plan.socket.clone(),
        }
    }

    /// The connection to make, with the configured protocol names.
    pub fn settings(&self) -> (r: OutboundSettings)
        ensures
            outbound_settings_of(
                self.plan().options(),
                self.peer_addr(),
                self.plan().policy(),
                alpn_texts(self.plan().options().alpn@),
                r,
            ),
            r.heartbeat.in_nanos() > 0,
            r.gc_interval.in_nanos() > 0,
            exists|ip: IpAddr|
                r.peer_addr == #[trigger] SocketAddr::of(ip, self.plan().options().port),
            forall|i: int|
                0 <= i < r.alpn@.len() && valid_utf8(self.plan().options().alpn@[i]@)
                    ==> #[trigger] r.alpn@[i]@ == decode_utf8(self.plan().options().alpn@[i]@),
    {
        let opts = self.plan.opts;
        let mut alpn: Vec<String> = Vec::new();
        for i in 0..opts.alpn.len()
            invariant
                alpn@.len() == i,
                forall|j: int| 0 <= j < i ==> #[trigger] alpn@[j]@ == lossy_text(opts.alpn@[j]@),
                forall|j: int|
                    0 <= j < i && valid_utf8(opts.alpn@[j]@) ==> #[trigger] alpn@[j]@
                        == decode_utf8(opts.alpn@[j]@),
        {
            alpn.push(read_lossy(opts.alpn[i].as_slice()));
        }
        assert(texts_of(alpn@) =~= alpn_texts(opts.alpn@));
        let r = self.settings_with(alpn);
        assert forall|i: int|
            0 <= i < r.alpn@.len() && valid_utf8(opts.alpn@[i]@) implies #[trigger] r.alpn@[i]@
            == decode_utf8(opts.alpn@[i]@) by {
            assert(texts_of(r.alpn@)[i] == texts_of(alpn@)[i]);
        }
        r
    }

    /// Goes on with what came of the connection.
    pub fn connected(self, outcome: ConnectOutcome) -> (r: Result<PollStage, TuicError>)
        ensures
            match outcome {
                ConnectOutcome::Ready => r matches Ok(stage) && stage.policy()
                    == self.plan().policy(),
                ConnectOutcome::Failed(e) => r == Err::<PollStage, TuicError>(
                    TuicError::Connect(e),
                ),
                ConnectOutcome::TimedOut => r == Err::<PollStage, TuicError>(
                    TuicError::ConnectTimedOut,
                ),
            },
    {
        match outcome {
            ConnectOutcome::Ready => Ok(PollStage { socket: self.plan.socket }),
            ConnectOutcome::Failed(e) => Err(TuicError::Connect(e)),
            ConnectOutcome::TimedOut => Err(TuicError::ConnectTimedOut),
        }
    }
}

impl PollStage {
    /// The policy of the outbound's socket.
    pub closed spec fn policy(self) -> SocketPolicy {
        self.socket
    }

    /// Ends with the policy of the outbound's socket, once the connection's tasks
    /// were started, or were not for the reason given.
    pub fn polled(self, outcome: Result<(), String>) -> (r: Result<SocketPolicy, TuicError>)
        ensures
            match outcome {
                Ok(_) => r == Ok::<SocketPolicy, TuicError>(self.policy()),
                Err(e) => r == Err::<SocketPolicy, TuicError>(TuicError::Poll(e)),
            },
    {
        match outcome {
            Ok(_) => Ok(self.socket),
            Err(e) => Err(TuicError::Poll(e)),
        }
    }
}

/// What everything outside answers while an outbound is built.
#[derive(Debug)]
pub struct InitResults {
    /// What came of building the TLS client.
    pub tls: Result<(), String>,
    /// The resolver's answer.
    pub answer: Result<Option<IpAddr>, String>,
    /// What came of connecting.
    pub connect: ConnectOutcome,
    /// What came of starting the connection's tasks.
    pub poll: Result<(), String>,
}

/// The server's socket address: at the configured address, else at the one that the
/// server's text stands for, else at the one that the resolver answers. `address` and
/// `literal` are what the two texts stand for.
pub open spec fn peer_of(
    opts: HandlerOptions,
    address: Option<IpAddr>,
    literal: Option<IpAddr>,
    answer: Result<Option<IpAddr>, String>,
) -> Result<SocketAddr, TuicError> {
    match (server_of(opts, address).ip, literal, answer) {
        (Some(ip), _, _) => Ok(SocketAddr::of(ip, opts.port)),
        (None, Some(ip), _) => Ok(SocketAddr::of(ip, opts.port)),
        (None, None, Ok(Some(ip))) => Ok(SocketAddr::of(ip, opts.port)),
        (None, None, Ok(None)) => Err(TuicError::NoAddress),
        (None, None, Err(e)) => Err(TuicError::Resolver(e)),
    }
}

/// What the building of an outbound comes to, with `peer` as what the search for the
/// server's socket address comes to. The first thing that goes wrong decides.
pub open spec fn init_outcome(
    opts: HandlerOptions,
    policy: SocketPolicy,
    peer: Result<SocketAddr, TuicError>,
    results: InitResults,
) -> Result<SocketPolicy, TuicError> {
    match (checked(opts), results.tls, peer, results.connect, results.poll) {
        (Err(e), _, _, _, _) => Err(e),
        (Ok(_), Err(e), _, _, _) => Err(TuicError::Tls(e)),
        (Ok(_), Ok(_), Err(e), _, _) => Err(e),
        (Ok(_), Ok(_), Ok(_), ConnectOutcome::Failed(e), _) => Err(TuicError::Connect(e)),
        (Ok(_), Ok(_), Ok(_), ConnectOutcome::TimedOut, _) => Err(TuicError::ConnectTimedOut),
        (Ok(_), Ok(_), Ok(_), ConnectOutcome::Ready, Err(e)) => Err(TuicError::Poll(e)),
        (Ok(_), Ok(_), Ok(_), ConnectOutcome::Ready, Ok(_)) => Ok(policy),
    }
}

impl Handler {
    /// The address that the server's text stands for, if it is one.
    pub open spec fn server_literal(&self) -> Option<IpAddr> {
        ip_of_text(bare_host(self.opts.server@))
    }

    /// Builds the outbound from given answers of everything outside, through all
    /// stages in turn, where the two address texts stand for `address` and `literal`.
    /// An answer that no stage asks for does not count.
    pub fn init_given(
        &self,
        sess: &Session,
        address: Option<IpAddr>,
        literal: Option<IpAddr>,
        results: InitResults,
    ) -> (r: Result<SocketPolicy, TuicError>)
        ensures
            r == init_outcome(
                self.opts,
                policy_of(*sess),
                peer_of(self.opts, address, literal, results.answer),
                results,
            ),
    {
        let stage = match self.init_outbound(sess) {
            Ok(stage) => stage,
            Err(e) => return Err(e),
        };
        let stage = match stage.built(results.tls) {
            Ok(stage) => stage,
            Err(e) => return Err(e),
        };
        let stage = stage.address_read(address);
        let stage = match stage.resolve_with(literal, ResolveEvent::Start) {
            ResolveProgress::Found(stage) => stage,
            ResolveProgress::Failed(e) => return Err(e),
            ResolveProgress::Ask(stage, _) => match stage.resolve_with(
                literal,
                ResolveEvent::Answer(results.answer),
            ) {
                ResolveProgress::Found(stage) => stage,
                ResolveProgress::Failed(e) => return Err(e),
                // Nothing is asked after the resolver has answered.
                ResolveProgress::Ask(_, _) => return Err(TuicError::NoAddress),
            },
        };
        match stage.connected(results.connect) {
            Ok(stage) => stage.polled(results.poll),
            Err(e) => Err(e),
        }
    }

    /// Builds the outbound from given answers of everything outside, through all
    /// stages in turn. An answer that no stage asks for does not count.
    pub fn init_with(&self, sess: &Session, results: InitResults) -> (r: Result<
        SocketPolicy,
        TuicError,
    >)
        ensures
            r == init_outcome(
                self.opts,
                policy_of(*sess),
                peer_of(
                    self.opts,
                    configured_ip(self.opts),
                    self.server_literal(),
                    results.answer,
                ),
                results,
            ),
    {
        let address: Option<IpAddr> = configured_address(&self.opts);
        let literal: Option<IpAddr> = read_host(self.opts.server.as_str());
        self.init_given(sess, address, literal, results)
    }
}

} // verus!
