//! The wire format: a message as bytes, and bytes as a packet.
//!
//! A message frame is the address path as a padded string, then the type
//! tags, a comma followed by one character for each argument, as a padded
//! string, then the data of each argument in order. A padded string is the
//! bytes of the text followed by one to four zero bytes, so that its length
//! is a multiple of four. An integer is four bytes, big end first, in two's
//! complement; a single-precision number is the four bytes of its bit
//! pattern, big end first; a string is a padded string.

use vstd::prelude::*;
use vstd::string::*;
use vstd::utf8::encode_utf8;
use crate::value::{ArgView, Message, MessageView, OscArg, Packet, PacketView};

verus! {

/// The largest datagram, in bytes, that is decoded.
pub const MTU: usize = 1536;

/// `n` zero bytes.
pub open spec fn zeros(n: nat) -> Seq<u8> {
    Seq::new(n, |i: int| 0u8)
}

/// The bytes of a text in the wire format: the bytes themselves, then one to
/// four zero bytes, up to the next multiple of four.
pub open spec fn padded(bytes: Seq<u8>) -> Seq<u8> {
    bytes + zeros((4 - bytes.len() % 4) as nat)
}

/// The four bytes of a 32-bit number, big end first.
pub open spec fn be_bytes(v: u32) -> Seq<u8> {
    seq![(v >> 24) as u8, (v >> 16) as u8, (v >> 8) as u8, v as u8]
}

/// The type tag of an argument: `i`, `f` or `s`. An argument of another kind
/// has none, and stands here as a zero byte.
pub open spec fn tag_of(arg: ArgView) -> u8 {
    match arg {
        ArgView::Int(_) => 105,
        ArgView::Float(_) => 102,
        ArgView::Str(_) => 115,
        ArgView::Other => 0,
    }
}

/// The type tags of a list of arguments, after the comma that leads them.
pub open spec fn tags_of(args: Seq<ArgView>) -> Seq<u8> {
    seq![44u8] + Seq::new(args.len(), |i: int| tag_of(args[i]))
}

/// The data of one argument in the wire format.
pub open spec fn arg_data(arg: ArgView) -> Seq<u8> {
    match arg {
        ArgView::Int(v) => be_bytes(v as u32),
        ArgView::Float(bits) => be_bytes(bits),
        ArgView::Str(s) => padded(encode_utf8(s)),
        ArgView::Other => Seq::empty(),
    }
}

/// The data of a list of arguments, one after the other.
pub open spec fn args_data(args: Seq<ArgView>) -> Seq<u8>
    decreases args.len(),
{
    if args.len() == 0 {
        Seq::empty()
    } else {
        args_data(args.drop_last()) + arg_data(args.last())
    }
}

/// The frame of a message: address, type tags, data.
pub open spec fn message_frame(m: MessageView) -> Seq<u8> {
    padded(encode_utf8(m.addr)) + padded(tags_of(m.args)) + args_data(m.args)
}

/// Whether a text can stand as a zero-terminated string: it does not hold
/// the character of number zero.
pub open spec fn terminable(text: Seq<char>) -> bool {
    !text.contains('\0')
}

/// Whether a text is an address path: it begins with `/` and can stand as a
/// zero-terminated string.
pub open spec fn address_path(text: Seq<char>) -> bool {
    text.len() > 0 && text[0] == '/' && terminable(text)
}

/// Whether an argument has a place in a frame: an integer, a
/// single-precision number, or a string that can be zero-terminated.
pub open spec fn encodable(arg: ArgView) -> bool {
    match arg {
        ArgView::Int(_) => true,
        ArgView::Float(_) => true,
        ArgView::Str(s) => terminable(s),
        ArgView::Other => false,
    }
}

/// Whether every one of the first `n` arguments has a place in a frame.
pub open spec fn encodable_before(args: Seq<ArgView>, n: int) -> bool {
    forall|j: int| 0 <= j < n ==> encodable(#[trigger] args[j])
}

/// Whether a message has a frame.
pub open spec fn representable(m: MessageView) -> bool {
    address_path(m.addr) && encodable_before(m.args, m.args.len() as int)
}

/// Why a message has no frame.
#[derive(Clone, Copy, Debug, PartialEq, Eq, Structural)]
pub enum EncodeError {
    /// The address does not begin with `/`, or holds a zero character.
    Address,
    /// The argument at `index` is the first that has no place in a frame: it
    /// is of a kind that the library does not read, or a string that holds a
    /// zero character.
    Argument { index: usize },
    /// The packet is a bundle, whose contents the library does not hold.
    Bundle,
}

/// Why bytes are no packet.
#[derive(Clone, Copy, Debug, PartialEq, Eq, Structural)]
pub enum DecodeError {
    /// There are more bytes than a datagram can hold.
    Oversized,
    /// The bytes are truncated, malformed, or neither a message nor a bundle.
    Malformed,
}

/// Whether a byte string holds a zero byte.
fn has_zero(bytes: &[u8]) -> (r: bool)
    ensures
        r == bytes@.contains(0u8),
{
    let mut i: usize = 0;
    while i < bytes.len()
        invariant
            i <= bytes.len(),
            forall|j: int| 0 <= j < i ==> bytes@[j] != 0,
        decreases bytes.len() - i,
    {
        if bytes[i] == 0 {
            return true;
        }
        i += 1;
    }
    false
}

/// Appends `bytes` as a padded string.
fn push_padded(out: &mut Vec<u8>, bytes: &[u8])
    ensures
        final(out)@ == old(out)@ + padded(bytes@),
{
    out.extend_from_slice(bytes);
    let pad: usize = 4 - bytes.len() % 4;
    let mut k: usize = 0;
    while k < pad
        invariant
            k <= pad,
            out@ == old(out)@ + bytes@ + zeros(k as nat),
        decreases pad - k,
    {
        out.push(0);
        k += 1;
        assert(zeros(k as nat) =~= zeros((k - 1) as nat).push(0u8));
    }
    assert(out@ =~= old(out)@ + padded(bytes@));
}

/// Appends the four bytes of `v`, big end first.
fn push_be(out: &mut Vec<u8>, v: u32)
    ensures
        final(out)@ == old(out)@ + be_bytes(v),
{
    out.push(#[verifier::truncate] ((v >> 24) as u8));
    out.push(#[verifier::truncate] ((v >> 16) as u8));
    out.push(#[verifier::truncate] ((v >> 8) as u8));
    out.push(#[verifier::truncate] (v as u8));
    assert(out@ =~= old(out)@ + be_bytes(v));
}

/// The position of the first argument that has no place in a frame.
pub open spec fn first_unencodable(args: Seq<ArgView>) -> usize {
    choose|index: usize|
        index < args.len() && !encodable(args[index as int]) && encodable_before(
            args,
            index as int,
        )
}

/// The frame of a message, or the reason why it has none: the address, or
/// else the first argument without a place.
pub open spec fn encode_outcome(m: MessageView) -> Result<Seq<u8>, EncodeError> {
    if !address_path(m.addr) {
        Err(EncodeError::Address)
    } else if !encodable_before(m.args, m.args.len() as int) {
        Err(EncodeError::Argument { index: first_unencodable(m.args) })
    } else {
        Ok(message_frame(m))
    }
}

/// The value of the result of encoding.
pub open spec fn encode_view(r: Result<Vec<u8>, EncodeError>) -> Result<Seq<u8>, EncodeError> {
    match r {
        Ok(bytes) => Ok(bytes@),
        Err(e) => Err(e),
    }
}

/// Where two positions both hold the first argument without a place, they
/// are one position.
proof fn first_unencodable_is(args: Seq<ArgView>, index: usize)
    requires
        index < args.len(),
        !encodable(args[index as int]),
        encodable_before(args, index as int),
    ensures
        first_unencodable(args) == index,
        !encodable_before(args, args.len() as int),
{
    let other = first_unencodable(args);
    if other < index {
        assert(encodable(args[other as int]));
    } else if index < other {
        assert(encodable(args[index as int]));
    }
}

/// Encodes a message as its frame.
///
/// Succeeds exactly on the messages that have a frame. Otherwise the error
/// names the address, or else the first argument without a place.
pub fn encode(message: &Message) -> (r: Result<Vec<u8>, EncodeError>)
    ensures
        encode_view(r) == encode_outcome(message@),
        r is Ok <==> representable(message@),
{
    let addr = message.addr.as_str().as_bytes();
    proof {
        crate::text::first_byte(message.addr@, '/');
        crate::text::zero_byte_iff_nul(message.addr@);
    }
    if addr.len() == 0 || addr[0] != 47 || has_zero(addr) {
        return Err(EncodeError::Address);
    }
    let ghost args = message@.args;
    let mut tags: Vec<u8> = Vec::new();
    tags.push(44);
    let mut data: Vec<u8> = Vec::new();
    let mut i: usize = 0;
    while i < message.args.len()
        invariant
            args == crate::value::args_view(message.args@),
            args == message@.args,
            address_path(message@.addr),
            i <= message.args.len(),
            encodable_before(args, i as int),
            tags@ == tags_of(args.take(i as int)),
            data@ == args_data(args.take(i as int)),
        decreases message.args.len() - i,
    {
        let ghost tags_before = tags@;
        let ghost data_before = data@;
        assert(args[i as int] == message.args@[i as int]@);
        match &message.args[i] {
            OscArg::Int(v) => {
                tags.push(105);
                push_be(&mut data, #[verifier::truncate] (*v as u32));
            },
            OscArg::Float(bits) => {
                tags.push(102);
                push_be(&mut data, *bits);
            },
            OscArg::Str(s) => {
                let text = s.as_str().as_bytes();
                proof {
                    crate::text::zero_byte_iff_nul(s@);
                }
                if has_zero(text) {
                    proof {
                        first_unencodable_is(args, i);
                    }
                    return Err(EncodeError::Argument { index: i });
                }
                tags.push(115);
                push_padded(&mut data, text);
            },
            OscArg::Other => {
                proof {
                    first_unencodable_is(args, i);
                }
                return Err(EncodeError::Argument { index: i });
            },
        }
        proof {
            let next = args.take(i + 1);
            assert(next.drop_last() =~= args.take(i as int));
            assert(next.last() == args[i as int]);
            assert(tags@ =~= tags_of(next));
            assert(data@ == data_before + arg_data(args[i as int]));
        }
        i += 1;
    }
    assert(args.take(i as int) =~= args);
    let mut out: Vec<u8> = Vec::new();
    push_padded(&mut out, addr);
    push_padded(&mut out, tags.as_slice());
    out.extend_from_slice(data.as_slice());
    assert(out@ =~= message_frame(message@));
    Ok(out)
}

/// What the decoder makes of a datagram: the packet that the bytes hold, or
/// `None` where it refuses them.
pub uninterp spec fn decoded(bytes: Seq<u8>) -> Option<PacketView>;

#[verifier::external_type_specification]
#[verifier::external_body]
pub struct ExOscError(rosc::OscError);

/// Calls `rosc::decoder::decode_udp` and hands the packet over in the
/// library's types. Trusted: the outcome depends on the bytes alone, and the
/// contract names it; it says nothing of what the outcome is on any given
/// bytes. The decoder calls itself once for each bundle within a bundle, so
/// the input is kept to the size of a datagram.
#[verifier::external_body]
fn decode_udp(bytes: &[u8]) -> (r: Result<Packet, rosc::OscError>)
    requires
        bytes@.len() <= MTU,
    ensures
        r matches Ok(packet) ==> decoded(bytes@) == Some(packet@),
        r is Err ==> decoded(bytes@) is None,
{
    let (_, packet) = rosc::decoder::decode_udp(bytes)?;
    Ok(match packet {
        rosc::OscPacket::Message(m) => Packet::Message(Message {
            addr: m.addr,
            args: m.args.into_iter().map(|arg| match arg {
                rosc::OscType::Int(v) => OscArg::Int(v),
                rosc::OscType::Float(x) => OscArg::Float(x.to_bits()),
                rosc::OscType::String(s) => OscArg::Str(s),
                _ => OscArg::Other,
            }).collect(),
        }),
        rosc::OscPacket::Bundle(_) => Packet::Bundle,
    })
}

/// The outcome of decoding, given what the decoder made of the bytes.
pub open spec fn decode_outcome(len: nat, made: Option<PacketView>) -> Result<
    PacketView,
    DecodeError,
> {
    if len > MTU {
        Err(DecodeError::Oversized)
    } else {
        match made {
            Some(packet) => Ok(packet),
            None => Err(DecodeError::Malformed),
        }
    }
}

/// The value of the result of decoding.
pub open spec fn decode_view(r: Result<Packet, DecodeError>) -> Result<PacketView, DecodeError> {
    match r {
        Ok(packet) => Ok(packet@),
        Err(e) => Err(e),
    }
}

/// Decodes a datagram into the one packet that it holds.
///
/// More bytes than a datagram can hold are refused as oversized; bytes that
/// the decoder refuses are malformed.
pub fn decode(bytes: &[u8]) -> (r: Result<Packet, DecodeError>)
    ensures
        decode_view(r) == decode_outcome(bytes@.len(), decoded(bytes@)),
{
    if bytes.len() > MTU {
        return Err(DecodeError::Oversized);
    }
    match decode_udp(bytes) {
        Ok(packet) => Ok(packet),
        Err(_) => Err(DecodeError::Malformed),
    }
}

} // verus!
