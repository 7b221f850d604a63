use osc_tools::codec::{encode, DecodeError, EncodeError};
use osc_tools::exchange::{match_reply, read_timeout, recv_msg, send_msg, Exchange, ExchangeError};
use osc_tools::transport::{Inbound, Outbound, TransportError};
use osc_tools::value::{Message, OscArg, Packet, PeerAddr, Source};

fn peer(last: u8, port: u16) -> PeerAddr {
    PeerAddr { ip: u32::from_be_bytes([10, 0, 0, last]), port }
}

fn request() -> Message {
    Message { addr: "/client/message".to_string(), args: vec![OscArg::Str("ping".to_string())] }
}

fn reply() -> Message {
    Message { addr: "/server/reply".to_string(), args: vec![OscArg::Str("Message received".to_string())] }
}

fn datagram(m: &Message, from: PeerAddr) -> Inbound {
    Inbound::Datagram { bytes: encode(m).unwrap(), source: Source::V4(from) }
}

#[test]
fn a_wait_of_zero_means_no_deadline() {
    assert_eq!(read_timeout(0), None);
}

#[test]
fn a_wait_is_the_deadline_in_milliseconds() {
    assert_eq!(read_timeout(50), Some(50));
    assert_eq!(read_timeout(500), Some(500));
    assert_eq!(read_timeout(1), Some(1));
    assert_eq!(read_timeout(u64::MAX), Some(u64::MAX));
}

#[test]
fn exchange_times_out_when_no_reply_comes() {
    let a = peer(1, 3131);
    let (exchange, out) = Exchange::new().submit(&request(), a);
    assert!(out.is_some());
    assert_eq!(read_timeout(50), Some(50));
    let exchange = exchange.receive(&Inbound::TimedOut);
    assert_eq!(exchange, Exchange::TimedOut);
    assert!(exchange.is_terminal());
    assert_eq!(recv_msg(&Inbound::TimedOut, a), Err(ExchangeError::Timeout));
}

#[test]
fn exchange_fails_on_a_reply_from_another_peer() {
    let a = peer(1, 3131);
    let b = peer(2, 3131);
    let (exchange, _) = Exchange::new().submit(&request(), a);
    let exchange = exchange.receive(&datagram(&reply(), b));
    assert_eq!(exchange, Exchange::Failed { error: ExchangeError::PeerMismatch });
    assert_eq!(recv_msg(&datagram(&reply(), b), a), Err(ExchangeError::PeerMismatch));
}

#[test]
fn another_port_is_another_peer() {
    assert_eq!(
        recv_msg(&datagram(&reply(), peer(1, 3132)), peer(1, 3131)),
        Err(ExchangeError::PeerMismatch)
    );
}

#[test]
fn another_peer_fails_the_exchange_whatever_it_sent() {
    let inbound = Inbound::Datagram { bytes: vec![0xFF; 3], source: Source::V4(peer(2, 1)) };
    assert_eq!(recv_msg(&inbound, peer(1, 1)), Err(ExchangeError::PeerMismatch));
}

#[test]
fn another_address_family_is_no_peer_mismatch() {
    let inbound = Inbound::Datagram { bytes: encode(&reply()).unwrap(), source: Source::Unsupported };
    assert_eq!(
        recv_msg(&inbound, peer(1, 1)),
        Err(ExchangeError::Transport(TransportError::UnsupportedAddressFamily))
    );
}

#[test]
fn exchange_resolves_on_a_reply_from_the_peer() {
    let a = peer(1, 3131);
    let (exchange, out) = Exchange::new().submit(&request(), a);
    assert_eq!(exchange, Exchange::AwaitingReply { destination: a });
    assert_eq!(out, Some(Outbound { bytes: encode(&request()).unwrap(), destination: a }));
    assert!(!exchange.is_terminal());
    let exchange = exchange.receive(&datagram(&reply(), a));
    assert_eq!(exchange, Exchange::Resolved { reply: Packet::Message(reply()) });
    assert!(exchange.is_terminal());
}

#[test]
fn exchange_resolves_on_a_bundle_from_the_peer() {
    let a = peer(1, 3131);
    let mut bytes = b"#bundle\0".to_vec();
    bytes.extend_from_slice(&[0; 8]);
    let inbound = Inbound::Datagram { bytes, source: Source::V4(a) };
    let (exchange, _) = Exchange::new().submit(&request(), a);
    assert_eq!(exchange.receive(&inbound), Exchange::Resolved { reply: Packet::Bundle });
}

#[test]
fn exchange_fails_on_a_malformed_reply() {
    let a = peer(1, 3131);
    let inbound = Inbound::Datagram { bytes: vec![1, 2, 3], source: Source::V4(a) };
    let (exchange, _) = Exchange::new().submit(&request(), a);
    assert_eq!(
        exchange.receive(&inbound),
        Exchange::Failed {
            error: ExchangeError::Transport(TransportError::Decode(DecodeError::Malformed))
        }
    );
}

#[test]
fn exchange_fails_on_a_failed_read() {
    let (exchange, _) = Exchange::new().submit(&request(), peer(1, 1));
    assert_eq!(
        exchange.receive(&Inbound::Failed),
        Exchange::Failed { error: ExchangeError::Transport(TransportError::Socket) }
    );
}

#[test]
fn exchange_fails_on_a_message_without_frame() {
    let bad = Message { addr: "no-slash".to_string(), args: vec![] };
    let (exchange, out) = Exchange::new().submit(&bad, peer(1, 1));
    assert_eq!(out, None);
    assert_eq!(
        exchange,
        Exchange::Failed { error: ExchangeError::Transport(TransportError::Encode(EncodeError::Address)) }
    );
}

#[test]
fn an_exchange_is_used_once() {
    let a = peer(1, 3131);
    let (exchange, _) = Exchange::new().submit(&request(), a);
    let (exchange, out) = exchange.submit(&request(), peer(2, 1));
    assert_eq!(out, None);
    assert_eq!(exchange, Exchange::AwaitingReply { destination: a });
    let exchange = exchange.receive(&Inbound::TimedOut);
    let exchange = exchange.receive(&datagram(&reply(), a));
    assert_eq!(exchange, Exchange::TimedOut);
    let (exchange, out) = exchange.submit(&request(), a);
    assert_eq!(out, None);
    assert_eq!(exchange, Exchange::TimedOut);
}

#[test]
fn a_resolved_exchange_keeps_its_reply() {
    let a = peer(1, 3131);
    let (exchange, _) = Exchange::new().submit(&request(), a);
    let exchange = exchange.receive(&datagram(&reply(), a));
    let exchange = exchange.receive(&datagram(&request(), a));
    assert_eq!(exchange, Exchange::Resolved { reply: Packet::Message(reply()) });
    let exchange = exchange.receive(&Inbound::TimedOut);
    assert_eq!(exchange, Exchange::Resolved { reply: Packet::Message(reply()) });
}

#[test]
fn an_idle_exchange_takes_no_datagram() {
    let exchange = Exchange::new().receive(&datagram(&reply(), peer(1, 1)));
    assert_eq!(exchange, Exchange::Idle);
    assert!(!exchange.is_terminal());
}

#[test]
fn send_msg_frames_a_message_for_the_server() {
    let a = peer(1, 3131);
    assert_eq!(
        send_msg(a, &Packet::Message(request())),
        Ok(Outbound { bytes: encode(&request()).unwrap(), destination: a })
    );
}

#[test]
fn send_msg_has_no_frame_for_a_bundle() {
    assert_eq!(
        send_msg(peer(1, 3131), &Packet::Bundle),
        Err(TransportError::Encode(EncodeError::Bundle))
    );
}

#[test]
fn recv_msg_hands_back_the_reply() {
    let a = peer(1, 3131);
    assert_eq!(recv_msg(&datagram(&reply(), a), a), Ok(Packet::Message(reply())));
}

#[test]
fn match_reply_checks_the_peer_before_the_packet() {
    let a = peer(1, 1);
    let b = peer(1, 2);
    assert_eq!(match_reply(a, Source::V4(b), Err(DecodeError::Malformed)), Err(ExchangeError::PeerMismatch));
    assert_eq!(match_reply(a, Source::V4(b), Ok(Packet::Bundle)), Err(ExchangeError::PeerMismatch));
    assert_eq!(match_reply(a, Source::V4(a), Ok(Packet::Bundle)), Ok(Packet::Bundle));
    assert_eq!(
        match_reply(a, Source::V4(a), Err(DecodeError::Oversized)),
        Err(ExchangeError::Transport(TransportError::Decode(DecodeError::Oversized)))
    );
    assert_eq!(
        match_reply(a, Source::Unsupported, Ok(Packet::Bundle)),
        Err(ExchangeError::Transport(TransportError::UnsupportedAddressFamily))
    );
}
