//! The data model: typed arguments, messages, packets and peer addresses.

use vstd::prelude::*;

verus! {

/// One argument of a message.
#[derive(Clone, Debug, PartialEq, Eq)]
pub enum OscArg {
    /// A 32-bit signed integer.
    Int(i32),
    /// A single-precision number, held as its IEEE-754 bit pattern.
    Float(u32),
    /// A string.
    Str(String),
    /// An argument of a kind that this library carries but does not read.
    Other,
}

/// The mathematical value of an [`OscArg`].
pub enum ArgView {
    Int(i32),
    Float(u32),
    Str(Seq<char>),
    Other,
}

impl View for OscArg {
    type V = ArgView;

    open spec fn view(&self) -> ArgView {
        match *self {
            OscArg::Int(v) => ArgView::Int(v),
            OscArg::Float(bits) => ArgView::Float(bits),
            OscArg::Str(s) => ArgView::Str(s@),
            OscArg::Other => ArgView::Other,
        }
    }
}

/// The values of a sequence of arguments, position by position.
pub open spec fn args_view(args: Seq<OscArg>) -> Seq<ArgView> {
    Seq::new(args.len(), |i: int| args[i]@)
}

impl OscArg {
    /// A copy of this argument.
    pub fn duplicate(&self) -> (r: OscArg)
        ensures
            r@ == self@,
    {
        match self {
            OscArg::Int(v) => OscArg::Int(*v),
            OscArg::Float(bits) => OscArg::Float(*bits),
            OscArg::Str(s) => OscArg::Str(s.clone()),
            OscArg::Other => OscArg::Other,
        }
    }
}

/// A copy of a list of arguments.
pub fn duplicate_args(args: &Vec<OscArg>) -> (r: Vec<OscArg>)
    ensures
        args_view(r@) == args_view(args@),
{
    let mut out: Vec<OscArg> = Vec::new();
    let mut i: usize = 0;
    while i < args.len()
        invariant
            i <= args.len(),
            out.len() == i,
            forall|k: int| 0 <= k < i ==> out@[k]@ == args@[k]@,
        decreases args.len() - i,
    {
        out.push(args[i].duplicate());
        i += 1;
    }
    assert(args_view(out@) =~= args_view(args@));
    out
}

/// An address-tagged, ordered list of typed arguments.
#[derive(Clone, Debug, PartialEq, Eq)]
pub struct Message {
    /// The address path: a routing key that begins with `/`.
    pub addr: String,
    /// The arguments, in order.
    pub args: Vec<OscArg>,
}

/// The mathematical value of a [`Message`].
pub struct MessageView {
    pub addr: Seq<char>,
    pub args: Seq<ArgView>,
}

impl View for Message {
    type V = MessageView;

    open spec fn view(&self) -> MessageView {
        MessageView { addr: self.addr@, args: args_view(self.args@) }
    }
}

/// What one datagram holds: a message, or a bundle, whose contents this
/// library does not interpret.
#[derive(Clone, Debug, PartialEq, Eq)]
pub enum Packet {
    Message(Message),
    Bundle,
}

/// The mathematical value of a [`Packet`].
pub enum PacketView {
    Message(MessageView),
    Bundle,
}

impl View for Packet {
    type V = PacketView;

    open spec fn view(&self) -> PacketView {
        match *self {
            Packet::Message(m) => PacketView::Message(m@),
            Packet::Bundle => PacketView::Bundle,
        }
    }
}

/// An IPv4 endpoint: the four octets of the address as one number, the first
/// octet highest, and the port.
#[derive(Clone, Copy, Debug, PartialEq, Eq, Structural)]
pub struct PeerAddr {
    pub ip: u32,
    pub port: u16,
}

/// Where a datagram came from.
#[derive(Clone, Copy, Debug, PartialEq, Eq, Structural)]
pub enum Source {
    /// An IPv4 endpoint.
    V4(PeerAddr),
    /// An endpoint of another address family, which is not supported.
    Unsupported,
}

/// A message together with the peer it is meant for.
#[derive(Clone, Debug, PartialEq, Eq)]
pub struct CustomPacket {
    /// The address path of the message.
    pub addr: String,
    /// The arguments of the message.
    pub args: Vec<OscArg>,
    /// The peer.
    pub peer: PeerAddr,
}

impl CustomPacket {
    /// The message that this packet carries, as a value.
    pub open spec fn message(&self) -> MessageView {
        MessageView { addr: self.addr@, args: args_view(self.args@) }
    }
}

} // verus!
