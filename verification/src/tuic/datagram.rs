//! UDP packets on their way through a TUIC association, and the association's own
//! description.
use vstd::prelude::*;
use crate::session::{Session, SocketAddr, SocksAddr};
use crate::tuic::types::{address_of, from_target, target_of, SocketAdderTrans, TargetAddr};

verus! {

/// How many packets may wait in each direction of an association.
pub const CHANNEL_CAPACITY: usize = 32;

/// A UDP packet as the proxy sees it.
#[derive(Debug)]
pub struct UdpPacket {
    pub data: Vec<u8>,
    pub src_addr: SocksAddr,
    pub dst_addr: SocksAddr,
}

/// A UDP packet as the association carries it. `target` is the far end, for packets
/// in both directions.
#[derive(Debug)]
pub struct RelayPacket {
    pub source: Option<TargetAddr>,
    pub target: TargetAddr,
    pub payload: Vec<u8>,
}

/// The network that a flow belongs to.
#[derive(Debug, Clone, Copy, PartialEq, Eq, Structural)]
pub enum NetworkType {
    Tcp,
    Udp,
}

/// The protocol that a flow came in by.
#[derive(Debug, Clone, Copy, PartialEq, Eq, Structural)]
pub enum Protocol {
    Tuic,
}

/// The description of a flow.
#[derive(Debug)]
pub struct FlowContext {
    pub target: TargetAddr,
    pub network: NetworkType,
    pub source: Option<SocketAddr>,
    pub inbound_tag: String,
    pub protocol: Protocol,
    pub user: Option<String>,
    pub inbound_port: Option<u16>,
    pub inbound_type: Option<String>,
}

/// The proxy's end of one UDP association.
#[derive(Debug)]
pub struct TuicDatagramOutbound {
    pub local_addr: SocksAddr,
}

impl UdpPacket {
    /// A packet with `data`, from `src_addr` to `dst_addr`.
    pub fn new(data: Vec<u8>, src_addr: SocksAddr, dst_addr: SocksAddr) -> (r: Self)
        ensures
            r == (UdpPacket { data, src_addr, dst_addr }),
    {
        UdpPacket { data, src_addr, dst_addr }
    }
}

/// The flow of the association that `sess` opens.
pub open spec fn udp_flow_of(sess: Session, flow: FlowContext) -> bool {
    &&& flow.target == target_of(sess.destination)
    &&& flow.network == NetworkType::Udp
    &&& flow.source == Some(sess.source)
    &&& flow.inbound_tag@ == "tuic"@
    &&& flow.protocol == Protocol::Tuic
    &&& flow.user is None
    &&& flow.inbound_port is None
    &&& flow.inbound_type is None
}

/// A packet as it goes out. It names no source.
pub open spec fn outgoing(packet: UdpPacket) -> RelayPacket {
    RelayPacket { source: None, target: target_of(packet.dst_addr), payload: packet.data }
}

/// A packet as it comes in, for the client at `local_addr`.
pub open spec fn incoming(packet: RelayPacket, local_addr: SocksAddr) -> UdpPacket {
    UdpPacket { data: packet.payload, src_addr: address_of(packet.target), dst_addr: local_addr }
}

impl TuicDatagramOutbound {
    /// The association for `sess`: the proxy's end, and the flow to announce.
    pub fn new(sess: &Session) -> (r: (Self, FlowContext))
        ensures
            r.0.local_addr == SocksAddr::Ip(sess.source),
            udp_flow_of(*sess, r.1),
    {
        let flow = FlowContext {
            target: sess.destination.clone().into_tuic(),
            network: NetworkType::Udp,
            source: Some(sess.source),
            inbound_tag: "tuic".to_owned(),
            protocol: Protocol::Tuic,
            user: None,
            inbound_port: None,
            inbound_type: None,
        };
        (TuicDatagramOutbound { local_addr: SocksAddr::Ip(sess.source) }, flow)
    }

    /// The packet to hand to the association for `packet`.
    pub fn start_send(&self, packet: UdpPacket) -> (r: RelayPacket)
        ensures
            r == outgoing(packet),
    {
        RelayPacket { source: None, target: packet.dst_addr.into_tuic(), payload: packet.data }
    }

    /// The packet to hand to the client for what the association gave: none once the
    /// association has ended.
    pub fn poll_next(&self, packet: Option<RelayPacket>) -> (r: Option<UdpPacket>)
        ensures
            match packet {
                Some(packet) => r == Some(incoming(packet, self.local_addr)),
                None => r is None,
            },
    {
        match packet {
            Some(packet) => Some(
                UdpPacket::new(
                    packet.payload,
                    from_target(packet.target),
                    self.local_addr.clone(),
                ),
            ),
            None => None,
        }
    }
}

} // verus!
