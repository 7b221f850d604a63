use osc_tools::codec::{encode, DecodeError, EncodeError};
use osc_tools::transport::{accept, frame_for, recv_packet, send_packet, Inbound, Outbound, TransportError};
use osc_tools::value::{CustomPacket, Message, OscArg, Packet, PeerAddr, Source};

fn peer(last: u8, port: u16) -> PeerAddr {
    PeerAddr { ip: u32::from_be_bytes([127, 0, 0, last]), port }
}

fn hello() -> Message {
    Message { addr: "/client/message".to_string(), args: vec![OscArg::Str("hello".to_string())] }
}

#[test]
fn send_packet_frames_the_message_for_its_peer() {
    let packet = CustomPacket { addr: hello().addr, args: hello().args, peer: peer(1, 3131) };
    assert_eq!(
        send_packet(&packet),
        Ok(Outbound { bytes: encode(&hello()).unwrap(), destination: peer(1, 3131) })
    );
}

#[test]
fn send_packet_reports_a_message_without_frame() {
    let packet = CustomPacket { addr: "nope".to_string(), args: vec![], peer: peer(1, 3131) };
    assert_eq!(send_packet(&packet), Err(TransportError::Encode(EncodeError::Address)));
    let packet = CustomPacket { addr: "/a".to_string(), args: vec![OscArg::Other], peer: peer(1, 3131) };
    assert_eq!(
        send_packet(&packet),
        Err(TransportError::Encode(EncodeError::Argument { index: 0 }))
    );
}

#[test]
fn frame_for_keeps_the_destination() {
    let out = frame_for(&hello(), peer(9, 4000)).unwrap();
    assert_eq!(out.destination, peer(9, 4000));
    assert_eq!(out.bytes, b"/client/message\0,s\0\0hello\0\0\0".to_vec());
}

#[test]
fn recv_packet_hands_back_source_and_message() {
    let inbound = Inbound::Datagram { bytes: encode(&hello()).unwrap(), source: Source::V4(peer(2, 5000)) };
    assert_eq!(recv_packet(&inbound), Ok((peer(2, 5000), Packet::Message(hello()))));
}

#[test]
fn recv_packet_hands_back_a_bundle() {
    let mut bytes = b"#bundle\0".to_vec();
    bytes.extend_from_slice(&[0; 8]);
    let inbound = Inbound::Datagram { bytes, source: Source::V4(peer(2, 5000)) };
    assert_eq!(recv_packet(&inbound), Ok((peer(2, 5000), Packet::Bundle)));
}

#[test]
fn recv_packet_reports_a_timeout() {
    assert_eq!(recv_packet(&Inbound::TimedOut), Err(TransportError::Timeout));
}

#[test]
fn recv_packet_reports_a_failed_read() {
    assert_eq!(recv_packet(&Inbound::Failed), Err(TransportError::Socket));
}

#[test]
fn recv_packet_refuses_another_address_family() {
    let inbound = Inbound::Datagram { bytes: encode(&hello()).unwrap(), source: Source::Unsupported };
    assert_eq!(recv_packet(&inbound), Err(TransportError::UnsupportedAddressFamily));
    let inbound = Inbound::Datagram { bytes: vec![1, 2, 3], source: Source::Unsupported };
    assert_eq!(recv_packet(&inbound), Err(TransportError::UnsupportedAddressFamily));
}

#[test]
fn recv_packet_reports_malformed_bytes() {
    let inbound = Inbound::Datagram { bytes: vec![1, 2, 3], source: Source::V4(peer(2, 5000)) };
    assert_eq!(recv_packet(&inbound), Err(TransportError::Decode(DecodeError::Malformed)));
}

#[test]
fn recv_packet_reports_an_oversized_datagram() {
    let inbound = Inbound::Datagram { bytes: vec![b'/'; 1537], source: Source::V4(peer(2, 5000)) };
    assert_eq!(recv_packet(&inbound), Err(TransportError::Decode(DecodeError::Oversized)));
}

#[test]
fn accept_pairs_source_and_packet() {
    assert_eq!(
        accept(Source::V4(peer(3, 1)), Ok(Packet::Bundle)),
        Ok((peer(3, 1), Packet::Bundle))
    );
    assert_eq!(
        accept(Source::V4(peer(3, 1)), Err(DecodeError::Malformed)),
        Err(TransportError::Decode(DecodeError::Malformed))
    );
    assert_eq!(
        accept(Source::Unsupported, Ok(Packet::Bundle)),
        Err(TransportError::UnsupportedAddressFamily)
    );
}
