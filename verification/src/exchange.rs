//! One request/reply exchange with a single peer: a message goes out, and
//! the first datagram that comes back decides the outcome.

use vstd::prelude::*;
use crate::codec::{decode, decode_outcome, decode_view, decoded, DecodeError};
use crate::transport::{
    frame_for, outbound_view, send_outcome, Inbound, Outbound, TransportError,
};
use crate::value::{Message, MessageView, Packet, PacketView, PeerAddr, Source};

verus! {

/// Why an exchange did not resolve to a reply.
#[derive(Clone, Copy, Debug, PartialEq, Eq, Structural)]
pub enum ExchangeError {
    /// No reply came before the deadline.
    Timeout,
    /// The reply came from another endpoint than the one the message went to.
    PeerMismatch,
    /// The message could not be framed, the socket failed, the reply came
    /// from an endpoint that is not IPv4, or it holds no packet.
    Transport(TransportError),
}

/// How long to wait for a reply, in milliseconds: a wait of zero means no
/// deadline, the read blocks until a datagram comes.
pub fn read_timeout(wait_ms: u64) -> (r: Option<u64>)
    ensures
        wait_ms == 0 ==> r is None,
        wait_ms > 0 ==> r == Some(wait_ms),
{
    if wait_ms > 0 {
        Some(wait_ms)
    } else {
        None
    }
}

/// Frames a packet for the server: the datagram to hand to the socket. Only
/// a message has a frame; a bundle, whose contents the library does not
/// hold, has none.
pub fn send_msg(server_addr: PeerAddr, packet: &Packet) -> (r: Result<Outbound, TransportError>)
    ensures
        packet@ matches PacketView::Message(m) ==> outbound_view(r) == send_outcome(
            m,
            server_addr,
        ),
        packet@ is Bundle ==> r == Err::<Outbound, TransportError>(
            TransportError::Encode(crate::codec::EncodeError::Bundle),
        ),
{
    match packet {
        Packet::Message(message) => frame_for(message, server_addr),
        Packet::Bundle => Err(TransportError::Encode(crate::codec::EncodeError::Bundle)),
    }
}

/// The outcome of an exchange with `destination`, given that a datagram came
/// from `source` and what decoding its bytes gave. A source that is not
/// IPv4 is a failure of the transport, not another peer; a reply from another
/// peer fails the exchange whatever it holds; a reply from the peer resolves
/// the exchange if it holds a packet, message or bundle.
pub open spec fn reply_outcome(
    destination: PeerAddr,
    source: Source,
    made: Result<PacketView, DecodeError>,
) -> Result<PacketView, ExchangeError> {
    match source {
        Source::Unsupported => Err(
            ExchangeError::Transport(TransportError::UnsupportedAddressFamily),
        ),
        Source::V4(peer) => if peer != destination {
            Err(ExchangeError::PeerMismatch)
        } else {
            match made {
                Ok(packet) => Ok(packet),
                Err(e) => Err(ExchangeError::Transport(TransportError::Decode(e))),
            }
        },
    }
}

/// The outcome of an exchange with `destination`, given what the read gave.
pub open spec fn exchange_outcome(destination: PeerAddr, inbound: Inbound) -> Result<
    PacketView,
    ExchangeError,
> {
    match inbound {
        Inbound::TimedOut => Err(ExchangeError::Timeout),
        Inbound::Failed => Err(ExchangeError::Transport(TransportError::Socket)),
        Inbound::Datagram { bytes, source } => reply_outcome(
            destination,
            source,
            decode_outcome(bytes@.len(), decoded(bytes@)),
        ),
    }
}

/// The value of the outcome of an exchange.
pub open spec fn reply_view(r: Result<Packet, ExchangeError>) -> Result<PacketView, ExchangeError> {
    match r {
        Ok(packet) => Ok(packet@),
        Err(e) => Err(e),
    }
}

/// Decides an exchange with `destination` on a datagram from `source`,
/// given what decoding its bytes gave.
pub fn match_reply(destination: PeerAddr, source: Source, made: Result<Packet, DecodeError>) -> (r:
    Result<Packet, ExchangeError>)
    ensures
        reply_view(r) == reply_outcome(destination, source, decode_view(made)),
{
    match source {
        Source::Unsupported => Err(
            ExchangeError::Transport(TransportError::UnsupportedAddressFamily),
        ),
        Source::V4(peer) => {
            if peer != destination {
                Err(ExchangeError::PeerMismatch)
            } else {
                match made {
                    Ok(packet) => Ok(packet),
                    Err(e) => Err(ExchangeError::Transport(TransportError::Decode(e))),
                }
            }
        },
    }
}

/// Decides an exchange with the server on what the read gave: the reply, or
/// the reason why there is none.
pub fn recv_msg(inbound: &Inbound, server_addr: PeerAddr) -> (r: Result<Packet, ExchangeError>)
    ensures
        reply_view(r) == exchange_outcome(server_addr, *inbound),
{
    match inbound {
        Inbound::TimedOut => Err(ExchangeError::Timeout),
        Inbound::Failed => Err(ExchangeError::Transport(TransportError::Socket)),
        Inbound::Datagram { bytes, source } => match_reply(
            server_addr,
            *source,
            decode(bytes.as_slice()),
        ),
    }
}

/// The state of an exchange. An exchange is used once: it leaves `Idle` when
/// a message is submitted, and `AwaitingReply` on the first thing that the
/// read gives; the other states are final.
#[derive(Clone, Debug, PartialEq, Eq)]
pub enum Exchange {
    /// Nothing was submitted yet.
    Idle,
    /// The message was handed over for sending to `destination`.
    AwaitingReply { destination: PeerAddr },
    /// The peer replied.
    Resolved { reply: Packet },
    /// No reply came before the deadline.
    TimedOut,
    /// The exchange failed otherwise.
    Failed { error: ExchangeError },
}

/// The mathematical value of an [`Exchange`].
pub enum ExchangeView {
    Idle,
    AwaitingReply { destination: PeerAddr },
    Resolved { reply: PacketView },
    TimedOut,
    Failed { error: ExchangeError },
}

impl View for Exchange {
    type V = ExchangeView;

    open spec fn view(&self) -> ExchangeView {
        match *self {
            Exchange::Idle => ExchangeView::Idle,
            Exchange::AwaitingReply { destination } => ExchangeView::AwaitingReply { destination },
            Exchange::Resolved { reply } => ExchangeView::Resolved { reply: reply@ },
            Exchange::TimedOut => ExchangeView::TimedOut,
            Exchange::Failed { error } => ExchangeView::Failed { error },
        }
    }
}

impl ExchangeView {
    /// Whether the state is final.
    pub open spec fn terminal(self) -> bool {
        self is Resolved || self is TimedOut || self is Failed
    }

    /// The state after a message for `destination` is submitted: from `Idle`
    /// the exchange awaits the reply if the message has a frame and fails if
    /// it has none; any other state stays.
    pub open spec fn submitted(self, m: MessageView, destination: PeerAddr) -> ExchangeView {
        match self {
            ExchangeView::Idle => match send_outcome(m, destination) {
                Ok(_) => ExchangeView::AwaitingReply { destination },
                Err(e) => ExchangeView::Failed { error: ExchangeError::Transport(e) },
            },
            other => other,
        }
    }

    /// The state that an outcome leads to.
    pub open spec fn settled(outcome: Result<PacketView, ExchangeError>) -> ExchangeView {
        match outcome {
            Ok(reply) => ExchangeView::Resolved { reply },
            Err(ExchangeError::Timeout) => ExchangeView::TimedOut,
            Err(error) => ExchangeView::Failed { error },
        }
    }

    /// The state after the read gave `inbound`: an exchange that awaits its
    /// reply is settled by it; any other state stays.
    pub open spec fn received(self, inbound: Inbound) -> ExchangeView {
        match self {
            ExchangeView::AwaitingReply { destination } => Self::settled(
                exchange_outcome(destination, inbound),
            ),
            other => other,
        }
    }
}

impl Exchange {
    /// A new exchange.
    pub fn new() -> (r: Exchange)
        ensures
            r@ == ExchangeView::Idle,
    {
        Exchange::Idle
    }

    /// Whether the exchange has reached a final state.
    pub fn is_terminal(&self) -> (r: bool)
        ensures
            r == self@.terminal(),
    {
        match self {
            Exchange::Idle => false,
            Exchange::AwaitingReply { .. } => false,
            _ => true,
        }
    }

    /// Submits a message for `destination`. From `Idle`, hands back the
    /// datagram to send and awaits the reply, or fails if the message has no
    /// frame. In any other state nothing is sent and the state stays.
    pub fn submit(self, message: &Message, destination: PeerAddr) -> (r: (Exchange, Option<Outbound>))
        ensures
            r.0@ == self@.submitted(message@, destination),
            self@ is Idle ==> match send_outcome(message@, destination) {
                Ok(datagram) => r.1 matches Some(out) && (out.bytes@, out.destination) == datagram,
                Err(_) => r.1 is None,
            },
            !(self@ is Idle) ==> r.1 is None,
    {
        match self {
            Exchange::Idle => match frame_for(message, destination) {
                Ok(out) => (Exchange::AwaitingReply { destination }, Some(out)),
                Err(e) => (Exchange::Failed { error: ExchangeError::Transport(e) }, None),
            },
            other => (other, None),
        }
    }

    /// Takes what the read gave. An exchange that awaits its reply is
    /// settled by it, whatever it is; any other state stays.
    pub fn receive(self, inbound: &Inbound) -> (r: Exchange)
        ensures
            r@ == self@.received(*inbound),
    {
        match self {
            Exchange::AwaitingReply { destination } => match recv_msg(inbound, destination) {
                Ok(reply) => Exchange::Resolved { reply },
                Err(ExchangeError::Timeout) => Exchange::TimedOut,
                Err(error) => Exchange::Failed { error },
            },
            other => other,
        }
    }
}

/// An exchange that awaits its reply and gets none before the deadline
/// times out: the read that timed out settles it.
pub proof fn silence_times_out(destination: PeerAddr)
    ensures
        exchange_outcome(destination, Inbound::TimedOut) == Err::<PacketView, ExchangeError>(
            ExchangeError::Timeout,
        ),
        (ExchangeView::AwaitingReply { destination }).received(Inbound::TimedOut)
            == ExchangeView::TimedOut,
{
}

/// A datagram from another IPv4 endpoint than the one the message went to
/// fails the exchange with a peer mismatch, whatever its bytes are.
pub proof fn reply_from_another_peer_fails(destination: PeerAddr, peer: PeerAddr, bytes: Vec<u8>)
    requires
        peer != destination,
    ensures
        exchange_outcome(destination, Inbound::Datagram { bytes, source: Source::V4(peer) })
            == Err::<PacketView, ExchangeError>(ExchangeError::PeerMismatch),
        (ExchangeView::AwaitingReply { destination }).received(
            Inbound::Datagram { bytes, source: Source::V4(peer) },
        ) == (ExchangeView::Failed { error: ExchangeError::PeerMismatch }),
{
}

/// An exchange resolves only on a datagram from the peer that the message
/// went to.
pub proof fn resolved_by_the_peer_only(destination: PeerAddr, inbound: Inbound)
    requires
        (ExchangeView::AwaitingReply { destination }).received(inbound) is Resolved,
    ensures
        inbound matches Inbound::Datagram { source, .. } && source == Source::V4(destination),
{
}

/// The first thing that the read gives settles an exchange that awaits its
/// reply, and nothing changes a settled exchange: it resolves to at most one
/// reply.
pub proof fn settled_once(
    state: ExchangeView,
    first: Inbound,
    later: Inbound,
    m: MessageView,
    destination: PeerAddr,
)
    ensures
        state is AwaitingReply ==> state.received(first).terminal(),
        state.terminal() ==> state.received(later) == state && state.submitted(m, destination)
            == state,
{
}

} // verus!
