//! The receiving side: which port may be bound, and the cycle of a server
//! that answers each request with one acknowledgement until it is told to
//! stop.

use vstd::prelude::*;
use vstd::string::*;
use crate::codec::{message_frame, representable};
use crate::transport::{
    frame_for, receive_outcome, received_view, recv_packet, Inbound, Outbound, TransportError,
};
use crate::value::{ArgView, Message, MessageView, OscArg, Packet, PacketView, PeerAddr};

verus! {

/// The port that client and server use unless told otherwise.
pub const DEFAULT_PORT: u16 = 3131;

/// The first port that is not reserved to the system.
pub const FIRST_FREE_PORT: u16 = 1024;

/// Why a port is not bound.
#[derive(Clone, Copy, Debug, PartialEq, Eq, Structural)]
pub enum BindError {
    /// The port is reserved to the system.
    PrivilegedPort,
}

/// Checks a port before any socket is made: a port below 1024 is refused,
/// any other is handed back.
pub fn check_port(port: u16) -> (r: Result<u16, BindError>)
    ensures
        port < FIRST_FREE_PORT ==> r == Err::<u16, BindError>(BindError::PrivilegedPort),
        port >= FIRST_FREE_PORT ==> r == Ok::<u16, BindError>(port),
{
    if port < FIRST_FREE_PORT {
        Err(BindError::PrivilegedPort)
    } else {
        Ok(port)
    }
}

/// Whether a packet asks the server to stop: a message whose first argument
/// is the string `stop`.
pub open spec fn stop_request(packet: PacketView) -> bool {
    packet matches PacketView::Message(m) && m.args.len() > 0 && m.args[0] == ArgView::Str(
        "stop"@,
    )
}

/// Whether a packet asks the server to stop.
pub fn is_stop(packet: &Packet) -> (r: bool)
    ensures
        r == stop_request(packet@),
{
    match packet {
        Packet::Bundle => false,
        Packet::Message(message) => {
            if message.args.len() == 0 {
                false
            } else {
                assert(message@.args[0] == message.args@[0]@);
                match &message.args[0] {
                    OscArg::Str(s) => {
                        let stop = String::from_str("stop");
                        *s == stop
                    },
                    _ => false,
                }
            }
        },
    }
}

/// The message with which the server answers every request.
pub open spec fn acknowledgement_view() -> MessageView {
    MessageView { addr: "/server/reply"@, args: seq![ArgView::Str("Message received"@)] }
}

/// The acknowledgement has a frame.
pub proof fn acknowledgement_representable()
    ensures
        representable(acknowledgement_view()),
{
    reveal_strlit("/server/reply");
    reveal_strlit("Message received");
    let m = acknowledgement_view();
    assert forall|j: int| 0 <= j < m.args.len() implies crate::codec::encodable(
        #[trigger] m.args[j],
    ) by {
        assert(m.args[j] == ArgView::Str("Message received"@));
    }
}

/// The message with which the server answers every request.
pub fn acknowledgement() -> (r: Message)
    ensures
        r@ == acknowledgement_view(),
{
    let mut args: Vec<OscArg> = Vec::new();
    args.push(OscArg::Str(String::from_str("Message received")));
    let r = Message { addr: String::from_str("/server/reply"), args };
    assert(r@.args =~= acknowledgement_view().args);
    r
}

/// The state of a server.
#[derive(Clone, Copy, Debug, PartialEq, Eq, Structural)]
pub enum Server {
    /// The server reads the next request.
    Listening,
    /// The server was told to stop: it reads no more.
    Stopped,
}

/// What the caller is to do after the server took what a read gave.
#[derive(Clone, Debug, PartialEq, Eq)]
pub enum Turn {
    /// Send this datagram, the one reply to the request.
    Reply(Outbound),
    /// Nothing is sent: no request was received, for this reason.
    Report(TransportError),
    /// Nothing is sent: the server has stopped.
    Halt,
}

/// The mathematical value of a [`Turn`].
pub enum TurnView {
    Reply { bytes: Seq<u8>, destination: PeerAddr },
    Report(TransportError),
    Halt,
}

impl View for Turn {
    type V = TurnView;

    open spec fn view(&self) -> TurnView {
        match *self {
            Turn::Reply(out) => TurnView::Reply { bytes: out.bytes@, destination: out.destination },
            Turn::Report(e) => TurnView::Report(e),
            Turn::Halt => TurnView::Halt,
        }
    }
}

/// What a server in state `state` does with a request, or with the reason
/// why there is none: a stopped server halts; a listening server answers a
/// request with the acknowledgement, sent to where the request came from,
/// and stops after it if the request asks so; it reports a failed read and
/// goes on.
pub open spec fn answer_outcome(
    state: Server,
    received: Result<(PeerAddr, PacketView), TransportError>,
) -> (Server, TurnView) {
    match state {
        Server::Stopped => (Server::Stopped, TurnView::Halt),
        Server::Listening => match received {
            Err(e) => (Server::Listening, TurnView::Report(e)),
            Ok((peer, packet)) => (
                if stop_request(packet) {
                    Server::Stopped
                } else {
                    Server::Listening
                },
                TurnView::Reply {
                    bytes: message_frame(acknowledgement_view()),
                    destination: peer,
                },
            ),
        },
    }
}

impl Server {
    /// A server that listens.
    pub fn new() -> (r: Server)
        ensures
            r == Server::Listening,
    {
        Server::Listening
    }

    /// Whether the server is to read another request.
    pub fn is_listening(&self) -> (r: bool)
        ensures
            r == (*self == Server::Listening),
    {
        match self {
            Server::Listening => true,
            Server::Stopped => false,
        }
    }

    /// Takes a request with its source, or the reason why there is none, and
    /// says what to do and in which state the server goes on.
    pub fn answer(self, received: Result<(PeerAddr, Packet), TransportError>) -> (r: (
        Server,
        Turn,
    ))
        ensures
            (r.0, r.1@) == answer_outcome(self, received_view(received)),
    {
        match self {
            Server::Stopped => (Server::Stopped, Turn::Halt),
            Server::Listening => match received {
                Err(e) => (Server::Listening, Turn::Report(e)),
                Ok((peer, packet)) => {
                    let next = if is_stop(&packet) {
                        Server::Stopped
                    } else {
                        Server::Listening
                    };
                    proof {
                        acknowledgement_representable();
                    }
                    let reply = frame_for(&acknowledgement(), peer).unwrap();
                    (next, Turn::Reply(reply))
                },
            },
        }
    }

    /// Takes what a read gave, and says what to do and in which state the
    /// server goes on.
    pub fn serve(self, inbound: &Inbound) -> (r: (Server, Turn))
        ensures
            (r.0, r.1@) == answer_outcome(self, receive_outcome(*inbound)),
    {
        match self {
            Server::Stopped => (Server::Stopped, Turn::Halt),
            Server::Listening => self.answer(recv_packet(inbound)),
        }
    }
}

/// A listening server that receives a request to stop answers it with the
/// one acknowledgement, sent to where the request came from, and stops; a
/// stopped server halts, whatever it is given.
pub proof fn stop_ends_the_cycle(
    peer: PeerAddr,
    packet: PacketView,
    later: Result<(PeerAddr, PacketView), TransportError>,
)
    requires
        stop_request(packet),
    ensures
        answer_outcome(Server::Listening, Ok((peer, packet))) == (
            Server::Stopped,
            TurnView::Reply { bytes: message_frame(acknowledgement_view()), destination: peer },
        ),
        answer_outcome(Server::Stopped, later) == (Server::Stopped, TurnView::Halt),
{
}

/// A listening server answers every request, and only a request: it sends a
/// reply exactly if a packet was received.
pub proof fn one_reply_per_request(received: Result<(PeerAddr, PacketView), TransportError>)
    ensures
        answer_outcome(Server::Listening, received).1 is Reply <==> received is Ok,
{
}

} // verus!
