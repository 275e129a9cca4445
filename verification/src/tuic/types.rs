//! Addresses and settings of the TUIC protocol.
use vstd::prelude::*;
use crate::session::{IpAddr, Ipv4Addr, Ipv6Addr, SocketAddr, SocksAddr};
use crate::text::{
    same_ignoring_case, trim_leading, trim_trailing, without_leading, without_trailing,
};
use crate::tuic::error::TuicError;

verus! {

/// The configured TUIC server address, resolved to a socket address just before
/// the outbound is built.
pub struct ServerAddr {
    pub domain: String,
    pub port: u16,
    pub ip: Option<IpAddr>,
    pub sni: Option<String>,
}

/// What the resolution of a server address has learned.
#[derive(Debug)]
pub enum ResolveEvent {
    /// Nothing yet.
    Start,
    /// The resolver's answer: an address, no address, or why it failed.
    Answer(Result<Option<IpAddr>, String>),
}

/// What the resolution of a server address needs next.
#[derive(Debug)]
pub enum ResolveStep {
    /// Look this host up; `enhanced` allows made-up addresses.
    AskResolver { host: String, enhanced: bool },
    /// Nothing: this is the outcome.
    Finish(Result<SocketAddr, TuicError>),
}

/// The IP address that a text stands for, if it is one.
pub uninterp spec fn ip_of_text(text: Seq<char>) -> Option<IpAddr>;

/// `str::parse` into `core::net::IpAddr`: the address of either family that the text
/// is a notation of. Which notations there are is left to the name.
#[verifier::external_body]
pub(crate) fn read_ip(text: &str) -> (r: Option<IpAddr>)
    ensures
        r == ip_of_text(text@),
{
    match text.parse::<core::net::IpAddr>() {
        Ok(core::net::IpAddr::V4(ip)) => Some(IpAddr::V4(Ipv4Addr { bits: ip.into() })),
        Ok(core::net::IpAddr::V6(ip)) => Some(IpAddr::V6(Ipv6Addr { bits: ip.into() })),
        Err(_) => None,
    }
}

/// `host` without the square brackets that an IPv6 address may stand in.
pub open spec fn bare_host(host: Seq<char>) -> Seq<char> {
    without_trailing(without_leading(host, '['), ']')
}

/// Reads a host as an IP address, in square brackets or not.
pub(crate) fn read_host(host: &str) -> (r: Option<IpAddr>)
    ensures
        r == ip_of_text(bare_host(host@)),
{
    read_ip(trim_trailing(trim_leading(host, '['), ']'))
}

impl Clone for ServerAddr {
    fn clone(&self) -> (r: ServerAddr)
        ensures
            r == *self,
    {
        let sni: Option<String> = match &self.sni {
            Some(name) => Some(name.clone()),
            None => None,
        };
        ServerAddr { domain: self.domain.clone(), port: self.port, ip: self.ip, sni }
    }
}

impl ServerAddr {
    /// A server given by its domain or address as text, with the address to use in
    /// its place and the name to ask for, where there are any.
    pub fn new(domain: String, port: u16, ip: Option<IpAddr>, sni: Option<String>) -> (r: Self)
        ensures
            r == (ServerAddr { domain, port, ip, sni }),
    {
        ServerAddr { domain, port, ip, sni }
    }

    /// The name that the TLS handshake asks for.
    pub open spec fn tls_name(&self) -> Seq<char> {
        match self.sni {
            Some(name) => name@,
            None => self.domain@,
        }
    }

    /// The name to ask for in the TLS handshake: the configured one, or the domain.
    pub fn server_name(&self) -> (r: &str)
        ensures
            r@ == self.tls_name(),
    {
        match &self.sni {
            Some(name) => name.as_str(),
            None => self.domain.as_str(),
        }
    }

    /// The address that the domain itself stands for, if it is one.
    pub open spec fn literal(&self) -> Option<IpAddr> {
        ip_of_text(bare_host(self.domain@))
    }

    /// `step` is what `event` asks for, where the domain itself stands for `literal`.
    pub open spec fn resolves_by(
        &self,
        literal: Option<IpAddr>,
        event: ResolveEvent,
        step: ResolveStep,
    ) -> bool {
        match (self.ip, literal, event) {
            (Some(ip), _, _) => step == ResolveStep::Finish(Ok(SocketAddr::of(ip, self.port))),
            (None, Some(ip), _) => step == ResolveStep::Finish(Ok(SocketAddr::of(ip, self.port))),
            (None, None, ResolveEvent::Start) => step matches ResolveStep::AskResolver {
                host,
                enhanced,
            } && host@ == self.domain@ && !enhanced,
            (None, None, ResolveEvent::Answer(Ok(Some(ip)))) => step == ResolveStep::Finish(
                Ok(SocketAddr::of(ip, self.port)),
            ),
            (None, None, ResolveEvent::Answer(Ok(None))) => step == ResolveStep::Finish(
                Err(TuicError::NoAddress),
            ),
            (None, None, ResolveEvent::Answer(Err(e))) => step == ResolveStep::Finish(
                Err(TuicError::Resolver(e)),
            ),
        }
    }

    /// The next step towards the server's socket address, where the domain itself
    /// stands for `literal`.
    pub fn resolve_with(&self, literal: Option<IpAddr>, event: ResolveEvent) -> (r: ResolveStep)
        ensures
            self.resolves_by(literal, event, r),
    {
        if let Some(ip) = self.ip {
            return ResolveStep::Finish(Ok(SocketAddr::new(ip, self.port)));
        }
        if let Some(ip) = literal {
            return ResolveStep::Finish(Ok(SocketAddr::new(ip, self.port)));
        }
        match event {
            ResolveEvent::Start => ResolveStep::AskResolver {
                host: self.domain.clone(),
                enhanced: false,
            },
            ResolveEvent::Answer(Ok(Some(ip))) => ResolveStep::Finish(
                Ok(SocketAddr::new(ip, self.port)),
            ),
            ResolveEvent::Answer(Ok(None)) => ResolveStep::Finish(Err(TuicError::NoAddress)),
            ResolveEvent::Answer(Err(e)) => ResolveStep::Finish(Err(TuicError::Resolver(e))),
        }
    }

    /// The next step towards the server's socket address. A configured address is
    /// used as it is; else the domain is read as an address; else it is looked up.
    pub fn resolve(&self, event: ResolveEvent) -> (r: ResolveStep)
        ensures
            self.resolves_by(self.literal(), event, r),
    {
        self.resolve_with(read_host(self.domain.as_str()), event)
    }
}

/// How UDP packets travel to the server: as datagrams, or each on a stream.
#[derive(Debug, Clone, Copy, PartialEq, Eq, Structural)]
pub enum UdpRelayMode {
    Native,
    Quic,
}

impl UdpRelayMode {
    /// The mode that `name` stands for; a name that is none stands for `Quic`.
    pub open spec fn named(name: Seq<char>) -> UdpRelayMode {
        if same_ignoring_case(name, "native"@) {
            UdpRelayMode::Native
        } else {
            UdpRelayMode::Quic
        }
    }

    /// The name of the mode.
    pub open spec fn name(self) -> Seq<char> {
        match self {
            UdpRelayMode::Native => "native"@,
            UdpRelayMode::Quic => "quic"@,
        }
    }

    /// The name under which the mode is reported and configured.
    pub fn as_str(&self) -> (r: &'static str)
        ensures
            r@ == self.name(),
    {
        match self {
            UdpRelayMode::Native => "native",
            UdpRelayMode::Quic => "quic",
        }
    }
}

impl<'a> From<&'a str> for UdpRelayMode {
    fn from(s: &'a str) -> (r: UdpRelayMode) {
        if s.eq_ignore_ascii_case("native") {
            UdpRelayMode::Native
        } else {
            UdpRelayMode::Quic
        }
    }
}

impl<'a> vstd::std_specs::convert::FromSpecImpl<&'a str> for UdpRelayMode {
    open spec fn obeys_from_spec() -> bool {
        true
    }

    open spec fn from_spec(s: &'a str) -> UdpRelayMode {
        UdpRelayMode::named(s@)
    }
}

/// The congestion controllers of a connection.
#[derive(Debug, Clone, Copy, PartialEq, Eq, Structural)]
pub enum CongestionControl {
    Cubic,
    NewReno,
    Bbr,
    Bbr3,
}

impl Default for CongestionControl {
    fn default() -> (r: CongestionControl)
        ensures
            r == CongestionControl::Bbr,
    {
        CongestionControl::Bbr
    }
}

impl CongestionControl {
    /// The controller that `name` is a name of, if it is one.
    pub open spec fn known(name: Seq<char>) -> Option<CongestionControl> {
        if same_ignoring_case(name, "cubic"@) {
            Some(CongestionControl::Cubic)
        } else if same_ignoring_case(name, "new_reno"@) || same_ignoring_case(name, "newreno"@) {
            Some(CongestionControl::NewReno)
        } else if same_ignoring_case(name, "bbr"@) {
            Some(CongestionControl::Bbr)
        } else if same_ignoring_case(name, "bbr3"@) {
            Some(CongestionControl::Bbr3)
        } else {
            None
        }
    }

    /// The controller that `name` stands for; a name that is none stands for the
    /// default one.
    pub open spec fn named(name: Seq<char>) -> CongestionControl {
        match CongestionControl::known(name) {
            Some(control) => control,
            None => CongestionControl::Bbr,
        }
    }

    /// The controller of that name, if there is one.
    pub fn find(name: &str) -> (r: Option<CongestionControl>)
        ensures
            r == CongestionControl::known(name@),
    {
        if name.eq_ignore_ascii_case("cubic") {
            Some(CongestionControl::Cubic)
        } else if name.eq_ignore_ascii_case("new_reno") || name.eq_ignore_ascii_case("newreno") {
            Some(CongestionControl::NewReno)
        } else if name.eq_ignore_ascii_case("bbr") {
            Some(CongestionControl::Bbr)
        } else if name.eq_ignore_ascii_case("bbr3") {
            Some(CongestionControl::Bbr3)
        } else {
            None
        }
    }
}

impl<'a> From<&'a str> for CongestionControl {
    fn from(s: &'a str) -> (r: CongestionControl) {
        match CongestionControl::find(s) {
            Some(control) => control,
            None => CongestionControl::default(),
        }
    }
}

impl<'a> vstd::std_specs::convert::FromSpecImpl<&'a str> for CongestionControl {
    open spec fn obeys_from_spec() -> bool {
        true
    }

    open spec fn from_spec(s: &'a str) -> CongestionControl {
        CongestionControl::named(s@)
    }
}

/// Where a relayed stream or packet goes, as the TUIC protocol writes it.
#[derive(Debug)]
pub enum TargetAddr {
    Domain(String, u16),
    IPv4(Ipv4Addr, u16),
    IPv6(Ipv6Addr, u16),
}

/// The TUIC form of a destination. Flow information and scope have no place in it.
pub open spec fn target_of(addr: SocksAddr) -> TargetAddr {
    match addr {
        SocksAddr::Ip(SocketAddr::V4(addr)) => TargetAddr::IPv4(addr.ip, addr.port),
        SocksAddr::Ip(SocketAddr::V6(addr)) => TargetAddr::IPv6(addr.ip, addr.port),
        SocksAddr::Domain(domain, port) => TargetAddr::Domain(domain, port),
    }
}

/// The destination that a TUIC address stands for.
pub open spec fn address_of(target: TargetAddr) -> SocksAddr {
    match target {
        TargetAddr::IPv4(ip, port) => SocksAddr::Ip(SocketAddr::of(IpAddr::V4(ip), port)),
        TargetAddr::IPv6(ip, port) => SocksAddr::Ip(SocketAddr::of(IpAddr::V6(ip), port)),
        TargetAddr::Domain(domain, port) => SocksAddr::Domain(domain, port),
    }
}

/// Addresses that have a TUIC form.
pub trait SocketAdderTrans: Sized {
    /// The TUIC form.
    spec fn tuic_form(self) -> TargetAddr;

    /// Turns the address into its TUIC form.
    fn into_tuic(self) -> (r: TargetAddr)
        ensures
            r == self.tuic_form(),
    ;
}

impl SocketAdderTrans for SocksAddr {
    open spec fn tuic_form(self) -> TargetAddr {
        target_of(self)
    }

    fn into_tuic(self) -> (r: TargetAddr) {
        match self {
            SocksAddr::Ip(SocketAddr::V4(addr)) => TargetAddr::IPv4(addr.ip, addr.port),
            SocksAddr::Ip(SocketAddr::V6(addr)) => TargetAddr::IPv6(addr.ip, addr.port),
            SocksAddr::Domain(domain, port) => TargetAddr::Domain(domain, port),
        }
    }
}

/// Turns a TUIC address back into a destination.
pub fn from_target(addr: TargetAddr) -> (r: SocksAddr)
    ensures
        r == address_of(addr),
{
    match addr {
        TargetAddr::IPv4(ip, port) => SocksAddr::Ip(SocketAddr::new(IpAddr::V4(ip), port)),
        TargetAddr::IPv6(ip, port) => SocksAddr::Ip(SocketAddr::new(IpAddr::V6(ip), port)),
        TargetAddr::Domain(domain, port) => SocksAddr::Domain(domain, port),
    }
}

} // verus!
