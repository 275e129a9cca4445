//! The configuration of a TUIC outbound.
use vstd::prelude::*;
use crate::session::Session;
use crate::tuic::types::{CongestionControl, UdpRelayMode};

verus! {

/// A span of time.
#[derive(Debug, Clone, Copy, PartialEq, Eq, Structural)]
pub struct Duration {
    pub secs: u64,
    pub nanos: u32,
}

impl Duration {
    /// The span in nanoseconds.
    pub open spec fn in_nanos(self) -> nat {
        (self.secs * 1_000_000_000 + self.nanos) as nat
    }

    /// Whether no time passes in it.
    pub fn is_zero(&self) -> (r: bool)
        ensures
            r == (self.in_nanos() == 0),
    {
        self.secs == 0 && self.nanos == 0
    }
}

/// What a TUIC outbound is configured with.
#[derive(Debug)]
pub struct HandlerOptions {
    pub name: String,
    pub server: String,
    pub port: u16,
    /// The user's identifier, as a 128-bit number.
    pub uuid: u128,
    pub password: String,
    pub udp_relay_mode: UdpRelayMode,
    pub disable_sni: bool,
    pub alpn: Vec<Vec<u8>>,
    pub heartbeat_interval: Duration,
    pub reduce_rtt: bool,
    pub request_timeout: Duration,
    pub idle_timeout: Duration,
    pub congestion_controller: CongestionControl,
    pub max_open_stream: u64,
    pub gc_interval: Duration,
    pub gc_lifetime: Duration,
    pub send_window: u64,
    pub receive_window: u64,
    pub skip_cert_verify: bool,
    /// Not used.
    pub max_udp_relay_packet_size: u64,
    /// The server's address, to be used in place of what `server` resolves to.
    pub ip: Option<String>,
    pub sni: Option<String>,
    /// File path or inline PEM client certificate for mTLS.
    pub tls_cert: Option<String>,
    /// File path or inline PEM client private key for mTLS.
    pub tls_key: Option<String>,
}

/// The bytes of each entry of a list.
pub open spec fn bytes_of(list: Seq<Vec<u8>>) -> Seq<Seq<u8>> {
    Seq::new(list.len(), |i: int| list[i]@)
}

/// A copy of a list of byte strings.
pub(crate) fn clone_bytes(list: &Vec<Vec<u8>>) -> (r: Vec<Vec<u8>>)
    ensures
        bytes_of(r@) == bytes_of(list@),
{
    let mut copy: Vec<Vec<u8>> = Vec::new();
    for i in 0..list.len()
        invariant
            copy@.len() == i,
            forall|j: int| 0 <= j < i ==> #[trigger] copy@[j]@ == list@[j]@,
    {
        let entry: &Vec<u8> = &list[i];
        copy.push(entry.clone());
    }
    assert(bytes_of(copy@) =~= bytes_of(list@));
    copy
}

impl Clone for HandlerOptions {
    fn clone(&self) -> (r: HandlerOptions)
        ensures
            r == (HandlerOptions { alpn: r.alpn, ..*self }),
            bytes_of(r.alpn@) == bytes_of(self.alpn@),
    {
        HandlerOptions {
            name: self.name.clone(),
            server: self.server.clone(),
            port: self.port,
            uuid: self.uuid,
            password: self.password.clone(),
            udp_relay_mode: self.udp_relay_mode,
            disable_sni: self.disable_sni,
            alpn: clone_bytes(&self.alpn),
            heartbeat_interval: self.heartbeat_interval,
            reduce_rtt: self.reduce_rtt,
            request_timeout: self.request_timeout,
            idle_timeout: self.idle_timeout,
            congestion_controller: self.congestion_controller,
            max_open_stream: self.max_open_stream,
            gc_interval: self.gc_interval,
            gc_lifetime: self.gc_lifetime,
            send_window: self.send_window,
            receive_window: self.receive_window,
            skip_cert_verify: self.skip_cert_verify,
            max_udp_relay_packet_size: self.max_udp_relay_packet_size,
            ip: clone_text(&self.ip),
            sni: clone_text(&self.sni),
            tls_cert: clone_text(&self.tls_cert),
            tls_key: clone_text(&self.tls_key),
        }
    }
}

/// How outgoing sockets are bound and marked.
#[derive(Debug)]
pub struct SocketPolicy {
    pub iface: Option<String>,
    pub so_mark: Option<u32>,
}

/// The socket policy that a session asks for.
pub open spec fn policy_of(sess: Session) -> SocketPolicy {
    SocketPolicy { iface: sess.iface, so_mark: sess.so_mark }
}

/// A copy of an optional text.
pub(crate) fn clone_text(text: &Option<String>) -> (r: Option<String>)
    ensures
        r == *text,
{
    match text {
        Some(text) => Some(text.clone()),
        None => None,
    }
}

impl Clone for SocketPolicy {
    fn clone(&self) -> (r: SocketPolicy)
        ensures
            r == *self,
    {
        SocketPolicy { iface: clone_text(&self.iface), so_mark: self.so_mark }
    }
}

} // verus!
