//! The transport adapter: what to hand to a socket for a message, and what
//! to make of what a socket gave.

use vstd::prelude::*;
use crate::codec::{
    decode, decode_outcome, decode_view, decoded, encode, encode_outcome, DecodeError,
    EncodeError,
};
use crate::value::{CustomPacket, Message, MessageView, Packet, PacketView, PeerAddr, Source};

verus! {

/// A datagram to send: the bytes, and the peer to send them to.
#[derive(Clone, Debug, PartialEq, Eq)]
pub struct Outbound {
    pub bytes: Vec<u8>,
    pub destination: PeerAddr,
}

/// What a blocking read on a socket gave.
#[derive(Clone, Debug, PartialEq, Eq)]
pub enum Inbound {
    /// A datagram, with the endpoint that it came from.
    Datagram { bytes: Vec<u8>, source: Source },
    /// The deadline of the read passed before a datagram came.
    TimedOut,
    /// The read failed otherwise.
    Failed,
}

/// Why nothing could be sent, or nothing was received.
#[derive(Clone, Copy, Debug, PartialEq, Eq, Structural)]
pub enum TransportError {
    /// The message has no frame.
    Encode(EncodeError),
    /// No datagram came before the deadline.
    Timeout,
    /// The socket failed.
    Socket,
    /// The datagram came from an endpoint that is not IPv4.
    UnsupportedAddressFamily,
    /// The datagram holds no packet.
    Decode(DecodeError),
}

/// The datagram for a message and a peer, or the reason why there is none.
pub open spec fn send_outcome(m: MessageView, peer: PeerAddr) -> Result<
    (Seq<u8>, PeerAddr),
    TransportError,
> {
    match encode_outcome(m) {
        Ok(frame) => Ok((frame, peer)),
        Err(e) => Err(TransportError::Encode(e)),
    }
}

/// The value of an attempt to make a datagram.
pub open spec fn outbound_view(r: Result<Outbound, TransportError>) -> Result<
    (Seq<u8>, PeerAddr),
    TransportError,
> {
    match r {
        Ok(out) => Ok((out.bytes@, out.destination)),
        Err(e) => Err(e),
    }
}

/// Frames a message for a peer.
pub fn frame_for(message: &Message, peer: PeerAddr) -> (r: Result<Outbound, TransportError>)
    ensures
        outbound_view(r) == send_outcome(message@, peer),
{
    match encode(message) {
        Ok(bytes) => Ok(Outbound { bytes, destination: peer }),
        Err(e) => Err(TransportError::Encode(e)),
    }
}

/// Frames the message of a packet for the peer that the packet names: the
/// datagram to hand to the socket.
pub fn send_packet(packet: &CustomPacket) -> (r: Result<Outbound, TransportError>)
    ensures
        outbound_view(r) == send_outcome(packet.message(), packet.peer),
{
    let message = Message {
        addr: packet.addr.clone(),
        args: crate::value::duplicate_args(&packet.args),
    };
    frame_for(&message, packet.peer)
}

/// What is made of a datagram from `source`, given what decoding its bytes
/// gave: an endpoint that is not IPv4 is refused before the bytes are
/// looked at.
pub open spec fn accept_outcome(source: Source, made: Result<PacketView, DecodeError>) -> Result<
    (PeerAddr, PacketView),
    TransportError,
> {
    match source {
        Source::Unsupported => Err(TransportError::UnsupportedAddressFamily),
        Source::V4(peer) => match made {
            Ok(packet) => Ok((peer, packet)),
            Err(e) => Err(TransportError::Decode(e)),
        },
    }
}

/// The value of what was received.
pub open spec fn received_view(r: Result<(PeerAddr, Packet), TransportError>) -> Result<
    (PeerAddr, PacketView),
    TransportError,
> {
    match r {
        Ok((peer, packet)) => Ok((peer, packet@)),
        Err(e) => Err(e),
    }
}

/// Pairs the source of a datagram with the packet that its bytes hold.
pub fn accept(source: Source, made: Result<Packet, DecodeError>) -> (r: Result<
    (PeerAddr, Packet),
    TransportError,
>)
    ensures
        received_view(r) == accept_outcome(source, decode_view(made)),
{
    match source {
        Source::Unsupported => Err(TransportError::UnsupportedAddressFamily),
        Source::V4(peer) => match made {
            Ok(packet) => Ok((peer, packet)),
            Err(e) => Err(TransportError::Decode(e)),
        },
    }
}

/// What is made of what a read gave, given what the decoder makes of bytes.
pub open spec fn receive_outcome(inbound: Inbound) -> Result<(PeerAddr, PacketView), TransportError> {
    match inbound {
        Inbound::TimedOut => Err(TransportError::Timeout),
        Inbound::Failed => Err(TransportError::Socket),
        Inbound::Datagram { bytes, source } => accept_outcome(
            source,
            decode_outcome(bytes@.len(), decoded(bytes@)),
        ),
    }
}

/// Makes of what a read gave the source and the packet of the datagram.
///
/// A read that timed out or failed is reported as such. A datagram from an
/// endpoint that is not IPv4 is refused. Otherwise the bytes are decoded,
/// and a message or a bundle is handed back with its source.
pub fn recv_packet(inbound: &Inbound) -> (r: Result<(PeerAddr, Packet), TransportError>)
    ensures
        received_view(r) == receive_outcome(*inbound),
{
    match inbound {
        Inbound::TimedOut => Err(TransportError::Timeout),
        Inbound::Failed => Err(TransportError::Socket),
        Inbound::Datagram { bytes, source } => accept(*source, decode(bytes.as_slice())),
    }
}

} // verus!
