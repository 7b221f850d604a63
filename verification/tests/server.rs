use osc_tools::codec::{decode, encode, DecodeError};
use osc_tools::server::{acknowledgement, check_port, is_stop, BindError, Server, Turn, DEFAULT_PORT, FIRST_FREE_PORT};
use osc_tools::transport::{Inbound, Outbound, TransportError};
use osc_tools::value::{Message, OscArg, Packet, PeerAddr, Source};

fn peer(last: u8, port: u16) -> PeerAddr {
    PeerAddr { ip: u32::from_be_bytes([192, 168, 0, last]), port }
}

fn client_message(text: &str) -> Message {
    Message { addr: "/client/message".to_string(), args: vec![OscArg::Str(text.to_string())] }
}

fn datagram(m: &Message, from: PeerAddr) -> Inbound {
    Inbound::Datagram { bytes: encode(m).unwrap(), source: Source::V4(from) }
}

fn ack_to(to: PeerAddr) -> Turn {
    Turn::Reply(Outbound { bytes: encode(&acknowledgement()).unwrap(), destination: to })
}

#[test]
fn port_80_is_refused() {
    assert_eq!(check_port(80), Err(BindError::PrivilegedPort));
}

#[test]
fn ports_below_1024_are_refused() {
    assert_eq!(check_port(0), Err(BindError::PrivilegedPort));
    assert_eq!(check_port(1), Err(BindError::PrivilegedPort));
    assert_eq!(check_port(1023), Err(BindError::PrivilegedPort));
}

#[test]
fn ports_from_1024_are_handed_back() {
    assert_eq!(check_port(1024), Ok(1024));
    assert_eq!(check_port(3131), Ok(3131));
    assert_eq!(check_port(u16::MAX), Ok(u16::MAX));
    assert_eq!(check_port(DEFAULT_PORT), Ok(3131));
    assert_eq!(FIRST_FREE_PORT, 1024);
}

#[test]
fn the_acknowledgement() {
    let m = acknowledgement();
    assert_eq!(m.addr, "/server/reply");
    assert_eq!(m.args, vec![OscArg::Str("Message received".to_string())]);
    assert_eq!(decode(&encode(&m).unwrap()), Ok(Packet::Message(m)));
}

#[test]
fn stop_is_a_first_argument() {
    assert!(is_stop(&Packet::Message(client_message("stop"))));
    assert!(!is_stop(&Packet::Message(client_message("Stop"))));
    assert!(!is_stop(&Packet::Message(client_message("stop "))));
    assert!(!is_stop(&Packet::Message(client_message(""))));
    assert!(!is_stop(&Packet::Bundle));
    let none = Message { addr: "/stop".to_string(), args: vec![] };
    assert!(!is_stop(&Packet::Message(none)));
    let second = Message {
        addr: "/a".to_string(),
        args: vec![OscArg::Int(1), OscArg::Str("stop".to_string())],
    };
    assert!(!is_stop(&Packet::Message(second)));
    let first = Message {
        addr: "/a".to_string(),
        args: vec![OscArg::Str("stop".to_string()), OscArg::Int(1)],
    };
    assert!(is_stop(&Packet::Message(first)));
}

#[test]
fn stop_request_gets_one_reply_and_ends_the_loop() {
    let client = peer(7, 40000);
    let mut server = Server::new();
    let mut reads = 0;
    let mut sent: Vec<Outbound> = Vec::new();
    let mut queue = vec![
        datagram(&client_message("stop"), client),
        datagram(&client_message("late"), client),
    ];
    queue.reverse();
    while server.is_listening() {
        let inbound = queue.pop().unwrap();
        reads += 1;
        let (next, turn) = server.serve(&inbound);
        server = next;
        if let Turn::Reply(out) = turn {
            sent.push(out);
        }
    }
    assert_eq!(reads, 1);
    assert_eq!(server, Server::Stopped);
    assert_eq!(
        sent,
        vec![Outbound { bytes: encode(&acknowledgement()).unwrap(), destination: client }]
    );
    assert_eq!(queue.len(), 1);
}

#[test]
fn a_request_gets_one_reply_and_the_server_goes_on() {
    let client = peer(7, 40000);
    let (next, turn) = Server::new().serve(&datagram(&client_message("hello"), client));
    assert_eq!(next, Server::Listening);
    assert_eq!(turn, ack_to(client));
}

#[test]
fn each_client_gets_its_own_reply() {
    let mut server = Server::new();
    for last in [1u8, 2, 3] {
        let (next, turn) = server.serve(&datagram(&client_message("hello"), peer(last, 5000)));
        assert_eq!(turn, ack_to(peer(last, 5000)));
        server = next;
    }
    assert!(server.is_listening());
}

#[test]
fn a_bundle_gets_a_reply_too() {
    let mut bytes = b"#bundle\0".to_vec();
    bytes.extend_from_slice(&[0; 8]);
    let inbound = Inbound::Datagram { bytes, source: Source::V4(peer(1, 2000)) };
    let (next, turn) = Server::new().serve(&inbound);
    assert_eq!(next, Server::Listening);
    assert_eq!(turn, ack_to(peer(1, 2000)));
}

#[test]
fn a_bad_datagram_does_not_stop_the_server() {
    let inbound = Inbound::Datagram { bytes: vec![9, 9], source: Source::V4(peer(1, 2000)) };
    let (next, turn) = Server::new().serve(&inbound);
    assert_eq!(next, Server::Listening);
    assert_eq!(turn, Turn::Report(TransportError::Decode(DecodeError::Malformed)));
    let (next, turn) = Server::new().serve(&Inbound::Failed);
    assert_eq!(next, Server::Listening);
    assert_eq!(turn, Turn::Report(TransportError::Socket));
    let (next, turn) = Server::new().serve(&Inbound::TimedOut);
    assert_eq!(next, Server::Listening);
    assert_eq!(turn, Turn::Report(TransportError::Timeout));
    let inbound = Inbound::Datagram {
        bytes: encode(&client_message("stop")).unwrap(),
        source: Source::Unsupported,
    };
    let (next, turn) = Server::new().serve(&inbound);
    assert_eq!(next, Server::Listening);
    assert_eq!(turn, Turn::Report(TransportError::UnsupportedAddressFamily));
}

#[test]
fn a_stopped_server_halts() {
    let (next, turn) = Server::Stopped.serve(&datagram(&client_message("hello"), peer(1, 2000)));
    assert_eq!(next, Server::Stopped);
    assert_eq!(turn, Turn::Halt);
    let (next, turn) = Server::Stopped.answer(Ok((peer(1, 2000), Packet::Bundle)));
    assert_eq!(next, Server::Stopped);
    assert_eq!(turn, Turn::Halt);
    assert!(!Server::Stopped.is_listening());
}

#[test]
fn answer_decides_on_the_request_it_is_given() {
    let client = peer(4, 4444);
    let (next, turn) = Server::new().answer(Ok((client, Packet::Message(client_message("stop")))));
    assert_eq!(next, Server::Stopped);
    assert_eq!(turn, ack_to(client));
    let (next, turn) = Server::new().answer(Err(TransportError::Timeout));
    assert_eq!(next, Server::Listening);
    assert_eq!(turn, Turn::Report(TransportError::Timeout));
}
