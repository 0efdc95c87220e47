use irpc::bench::{multiply, sqr, sum_of_doubles, sum_of_squares, Tally};
use irpc::error::{ErrorKind, IoError};
use irpc::iroh_transport::{
    after_handshake, before_handshake, filter_connection, request_decision, wrap_request_filter,
    zero_rtt_rejected, AcceptAll, AfterHandshake, FilterAnswers, IrohConnectionFilter, IrohListener,
    ListenerEvent, ListenerStep, RequestDecision, RequestFilter, RequestIds, ZeroRttStatus,
};
use irpc::rpc::ERROR_CODE_REQUEST_LIMITED;
use irpc::uds::addr::{AddrMap, Counter};
use irpc::uds::local_transport_config;
use irpc::uds::plaintext::{
    CryptoError, PlaintextClientConfig, PlaintextHeaderKey, PlaintextPacketKey,
    PlaintextServerConfig, Side,
};
use irpc::uds::socket::{
    bind, client_file_name, client_path, connect, poll_send, PollStep, Received,
};
use irpc::util::certs::trusted_certs;
use noq_proto::transport_parameters::TransportParameters;
use rustls::RootCertStore;

struct EvenPorts;

impl IrohConnectionFilter<u16, char> for EvenPorts {
    fn accept(&self, addr: &u16) -> bool {
        addr % 2 == 0
    }

    fn accept_endpoint_id(&self, id: &char) -> bool {
        *id != 'x'
    }
}

impl RequestFilter<u8> for EvenPorts {
    fn accept(&self, request: &u8) -> bool {
        *request < 10
    }
}

#[test]
fn listener_filters_and_numbers() {
    let mut listener = IrohListener::new(EvenPorts);
    let incoming = |addr: u16, validated: bool| ListenerEvent::Incoming { addr, validated };
    assert_eq!(listener.on_event::<u16, char>(incoming(2, true)), ListenerStep::Spawn { id: 0 });
    assert_eq!(listener.on_event::<u16, char>(incoming(3, true)), ListenerStep::Refuse);
    assert_eq!(listener.on_event::<u16, char>(incoming(3, false)), ListenerStep::Spawn { id: 1 });
    assert_eq!(listener.on_event::<u16, char>(ListenerEvent::TaskEnded), ListenerStep::Wait);
    assert_eq!(listener.on_event::<u16, char>(ListenerEvent::Closed), ListenerStep::Stop);
}

#[test]
fn connections_are_filtered_after_the_handshake() {
    let close = AfterHandshake::Close { code: ERROR_CODE_REQUEST_LIMITED };
    assert_eq!(filter_connection(&EvenPorts, &2u16, false, &'a'), AfterHandshake::Handle);
    assert_eq!(filter_connection(&EvenPorts, &3u16, false, &'a'), close);
    assert_eq!(filter_connection(&EvenPorts, &3u16, true, &'a'), AfterHandshake::Handle);
    assert_eq!(filter_connection(&EvenPorts, &2u16, true, &'x'), close);
    assert_eq!(filter_connection(&AcceptAll, &3u16, false, &'x'), AfterHandshake::Handle);
}

#[test]
fn filter_decisions() {
    for bits in 0..16u8 {
        let validated = bits & 1 != 0;
        let answers = FilterAnswers {
            accept: bits & 2 != 0,
            accept_unvalidated: bits & 4 != 0,
            accept_endpoint_id: bits & 8 != 0,
        };
        let handled = before_handshake(validated, answers)
            && after_handshake(validated, answers) == AfterHandshake::Handle;
        assert_eq!(
            handled,
            answers.accept && answers.accept_endpoint_id && (validated || answers.accept_unvalidated)
        );
    }
}

#[test]
fn requests_are_filtered() {
    assert_eq!(wrap_request_filter(&EvenPorts, &9u8), RequestDecision::Handle);
    assert_eq!(
        wrap_request_filter(&EvenPorts, &10u8),
        RequestDecision::Reset { code: ERROR_CODE_REQUEST_LIMITED }
    );
    assert_eq!(request_decision(true), RequestDecision::Handle);
}

#[test]
fn request_ids_wrap() {
    let mut ids = RequestIds::new();
    assert_eq!((ids.next_id(), ids.next_id()), (0, 1));
    ids.next = u64::MAX;
    assert_eq!((ids.next_id(), ids.next_id()), (u64::MAX, 0));
}

#[test]
fn zero_rtt_status() {
    assert!(!zero_rtt_rejected(ZeroRttStatus::Accepted));
    assert!(zero_rtt_rejected(ZeroRttStatus::Rejected));
    assert!(zero_rtt_rejected(ZeroRttStatus::Failed));
}

#[test]
fn addresses_map_both_ways() {
    let mut ports = Counter::ports();
    let mut map = AddrMap::new();
    let a = map.get_or_insert_addr(b"/tmp/a", &mut ports);
    let b = map.get_or_insert_addr(b"/tmp/b", &mut ports);
    assert_eq!((a, b), (100, 101));
    assert_eq!(map.get_or_insert_addr(b"/tmp/a", &mut ports), a);
    assert_eq!(map.get_path(b).as_deref(), Some(&b"/tmp/b"[..]));
    assert_eq!(map.get_path(999), None);
    map.insert(b"/tmp/a", 7);
    assert_eq!(map.get_or_insert_addr(b"/tmp/a", &mut ports), 7);
}

#[test]
fn spelling_of_paths_makes_no_difference() {
    let mut ports = Counter::ports();
    let mut map = AddrMap::new();
    let port = map.get_or_insert_addr(b"/tmp/a/b", &mut ports);
    for same in [&b"/tmp/a//b"[..], b"/tmp/./a/b", b"/tmp/a/b/", b"//tmp/a/b/.", b"/./tmp/a/b"] {
        assert_eq!(map.get_or_insert_addr(same, &mut ports), port);
    }
    assert_eq!(map.get_path(port).as_deref(), Some(&b"/tmp/a/b"[..]));
    for other in [&b"tmp/a/b"[..], b"./tmp/a/b", b"/tmp/a/../a/b", b"/tmp/a", b"/tmp/ab", b""] {
        assert_ne!(map.get_or_insert_addr(other, &mut ports), port);
    }
    assert_eq!(ports.next, 107);
    let mut ports = Counter::ports();
    let (mut client, server_port) = connect(b"/tmp/client", b"/tmp//server", &mut ports);
    let reply = Ok(Received { len: 3, path: Some(b"/tmp/server".to_vec()) });
    assert!(matches!(
        client.poll_recv(reply, &mut ports),
        PollStep::Return(Ok(meta)) if meta.port == server_port
    ));
}

#[test]
fn counters_wrap() {
    let mut ids = Counter::client_ids();
    assert_eq!((ids.take(), ids.take()), (0, 1));
    ids.next = u16::MAX;
    assert_eq!((ids.take(), ids.take()), (u16::MAX, 0));
}

#[test]
fn sockets_know_their_addresses() {
    let mut ports = Counter::ports();
    let server = bind(b"/tmp/server", &mut ports);
    assert_eq!(server.local, 100);
    assert_eq!(server.destination(100), Ok(b"/tmp/server".to_vec()));
    let (client, server_port) = connect(b"/tmp/client", b"/tmp/server", &mut ports);
    assert_eq!((client.local, server_port), (101, 102));
    assert_eq!(client.destination(102), Ok(b"/tmp/server".to_vec()));
    assert_eq!(client.destination(101), Ok(b"/tmp/client".to_vec()));
    let e = client.destination(5).unwrap_err();
    assert_eq!(e.kind(), ErrorKind::AddrNotAvailable);
    assert_eq!(e.text(), "no UDS path for addr 127.0.0.1:5");
}

#[test]
fn packets_can_be_answered() {
    let mut ports = Counter::ports();
    let mut server = bind(b"/tmp/server", &mut ports);
    let packet = |path: Option<&[u8]>| Ok(Received { len: 12, path: path.map(|p| p.to_vec()) });
    let port = match server.poll_recv(packet(Some(b"/tmp/client")), &mut ports) {
        PollStep::Return(Ok(meta)) => {
            assert_eq!((meta.len, meta.stride, meta.dst_ip), (12, 12, [127, 0, 0, 1]));
            meta.port
        }
        other => panic!("{:?}", other),
    };
    assert_eq!(port, 101);
    assert_eq!(server.destination(port), Ok(b"/tmp/client".to_vec()));
    assert!(matches!(
        server.poll_recv(packet(Some(b"/tmp/client")), &mut ports),
        PollStep::Return(Ok(meta)) if meta.port == port
    ));
    assert!(matches!(
        server.poll_recv(packet(None), &mut ports),
        PollStep::Return(Ok(meta)) if meta.port == 102
    ));
    let would_block = IoError::of_kind(ErrorKind::WouldBlock);
    assert!(matches!(server.poll_recv(Err(would_block.clone()), &mut ports), PollStep::Again));
    let refused = IoError::of_kind(ErrorKind::ConnectionRefused);
    assert!(matches!(server.poll_recv(Err(refused.clone()), &mut ports), PollStep::Return(Err(_))));
    assert!(matches!(poll_send(Ok(12)), PollStep::Return(Ok(()))));
    assert!(matches!(poll_send(Err(would_block)), PollStep::Again));
    assert!(matches!(poll_send(Err(refused)), PollStep::Return(Err(_))));
}

#[test]
fn client_files() {
    assert_eq!(client_file_name(1234, 0), ".irpc-uds-client-1234-0");
    assert_eq!(client_file_name(u32::MAX, 65535), ".irpc-uds-client-4294967295-65535");
    assert_ne!(client_file_name(1, 23), client_file_name(12, 3));
}

#[test]
fn plaintext_handshake() {
    let mut client = PlaintextClientConfig.start_session("client params");
    let mut server = PlaintextServerConfig.start_session("server params");
    assert!(client.is_handshaking() && server.is_handshaking());
    let writes = |w: irpc::uds::plaintext::HandshakeWrite| (w.write_params, w.keys);
    assert_eq!(writes(client.next_write()), (true, true));
    assert_eq!(writes(client.next_write()), (false, true));
    assert_eq!(writes(client.next_write()), (false, false));
    assert_eq!(writes(server.next_write()), (false, true));
    assert_eq!(writes(server.next_write()), (true, true));
    assert_eq!(writes(server.next_write()), (false, false));
    assert!(client.wants_params());
    let e = client.take_params(Err("bad".to_string())).unwrap_err();
    assert_eq!(e.message, "failed to read transport parameters: bad");
    assert_eq!(client.take_params(Ok("server params")), Ok(true));
    assert_eq!(client.take_params(Err("ignored".to_string())), Ok(true));
    assert_eq!(client.transport_parameters(), Some(&"server params"));
    assert!(!client.is_handshaking());
    assert_eq!(server.take_params(Ok("client params")), Ok(true));
    assert!(!server.is_handshaking());
    assert_eq!(server.side(), Side::Server);
    assert_eq!(server.params(), &"server params");
}

#[test]
fn handshake_exchanges_parameters() {
    let params = |bytes: &[u8]| TransportParameters::read(noq_proto::Side::Client, &mut &bytes[..]).unwrap();
    let mut client = PlaintextClientConfig.start_session(params(&[1, 1, 30]));
    let mut server = PlaintextServerConfig.start_session(params(&[]));
    let mut wire = vec![9];
    assert!(client.write_handshake(&mut wire));
    assert_eq!(wire, [9, 1, 1, 30]);
    assert!(client.write_handshake(&mut wire));
    assert!(!client.write_handshake(&mut wire));
    assert_eq!(wire, [9, 1, 1, 30]);
    let e = server.read_handshake(&[1, 5, 1]).unwrap_err();
    assert_eq!(e.message, "failed to read transport parameters: parameters were malformed");
    assert!(server.transport_parameters().is_none());
    assert_eq!(server.read_handshake(&wire[1..]), Ok(true));
    assert_eq!(server.transport_parameters(), Some(&params(&[1, 1, 30])));
    assert_eq!(server.read_handshake(&[1, 5, 1]), Ok(true));
    let mut other_server = PlaintextServerConfig.start_session(params(&[]));
    assert!(other_server.read_handshake(&[0, 0]).is_err());
    assert_eq!(client.read_handshake(&[0, 0]), Ok(true));
}

#[test]
fn client_sockets_stand_beside_the_server() {
    for (server, client) in [
        (&b"/tmp/a/server"[..], &b"/tmp/a/c"[..]),
        (b"/tmp//a/./server/", b"/tmp//a/c"),
        (b"/server", b"/c"),
        (b"//server", b"/c"),
        (b"server", b"c"),
        (b"./server", b"./c"),
        (b"a/..", b"a/c"),
        (b".", b"c"),
        (b"/", b"/tmp/c"),
        (b"", b"/tmp/c"),
    ] {
        assert_eq!(client_path(server, b"c"), client);
        let path = std::path::Path::new(std::str::from_utf8(server).unwrap());
        let dir = path.parent().unwrap_or(std::path::Path::new("/tmp"));
        assert_eq!(dir.join("c").to_str().unwrap().as_bytes(), client);
    }
}

#[test]
fn bad_certificates_are_named() {
    let cert = || rcgen::generate_simple_self_signed(vec!["localhost".to_string()]).unwrap().cert.der().to_vec();
    let (a, b) = (cert(), cert());
    assert_eq!(trusted_certs(&[]).unwrap().len(), 0);
    let store = trusted_certs(&[&a, &b]).unwrap();
    assert_eq!(store.len(), 2);
    let mut one = RootCertStore::empty();
    one.add(b.as_slice().into()).unwrap();
    assert_eq!(store.roots[1], one.roots[0]);
    assert_ne!(store.roots[0], one.roots[0]);
    let e = trusted_certs(&[&a, b"not a certificate", &b"neither"[..], &b]).unwrap_err();
    assert_eq!(e.index, 1);
    assert!(!e.message.is_empty());
}

#[test]
fn packets_carry_a_checksum() {
    let key = PlaintextPacketKey::new(Side::Client);
    let mut buf = b"to be or not to be".to_vec();
    buf.extend_from_slice(&[0; 8]);
    key.encrypt(0, &mut buf, 5);
    assert_eq!(&buf[..18], b"to be or not to be");
    assert_eq!(buf[18..], 1988685042348123509u64.to_le_bytes());
    let sealed = buf[5..].to_vec();
    let mut payload = sealed.clone();
    assert_eq!(key.decrypt(0, b"to be", &mut payload), Ok(()));
    assert_eq!(payload, b" or not to be");
    for i in 0..sealed.len() * 8 {
        let mut altered = sealed.clone();
        altered[i / 8] ^= 1 << (i % 8);
        let before = altered.clone();
        assert_eq!(key.decrypt(0, b"to be", &mut altered), Err(CryptoError));
        assert_eq!(altered, before);
    }
    assert_eq!(key.decrypt(0, b"to bE", &mut sealed.clone()), Err(CryptoError));
    assert_eq!(key.decrypt(0, b"", &mut vec![1, 2, 3]), Err(CryptoError));
    assert_eq!(key.tag_len(), 8);
}

#[test]
fn plaintext_keys_change_no_header() {
    let key = PlaintextPacketKey::new(Side::Client);
    let mut buf = vec![1, 2, 3];
    let header = PlaintextHeaderKey::new(Side::Server);
    header.encrypt(0, &mut buf);
    header.decrypt(0, &mut buf);
    assert_eq!(buf, vec![1, 2, 3]);
    assert_eq!(header.sample_size(), 0);
    assert_eq!(key.confidentiality_limit(), u64::MAX);
    assert_eq!(key.integrity_limit(), 1 << 36);
    assert_eq!(PlaintextServerConfig.retry_tag(), [0u8; 16]);
}

#[test]
fn local_settings() {
    let config = local_transport_config();
    assert_eq!((config.initial_mtu, config.min_mtu, config.mtu_discovery), (8192, 8192, false));
    assert_eq!(config.initial_rtt_millis, 1);
    assert_eq!(config.stream_receive_window, 16 * 1024 * 1024);
    assert_eq!(config.send_window, 64 * 1024 * 1024);
    assert_eq!(config.max_concurrent_bidi_streams, 1024);
    assert!(config.max_receive_window);
    assert_eq!(config.keep_alive_millis, None);
}

#[test]
fn benchmark_sums() {
    assert_eq!(sum_of_squares(0), 0);
    assert_eq!(sum_of_squares(4), 14);
    assert_eq!(sum_of_squares(100_000), 333_328_333_350_000);
    assert_eq!(sqr(u64::MAX), (u64::MAX as u128) * (u64::MAX as u128));
    assert_eq!(multiply(2, 21), 42);
    assert_eq!(sum_of_doubles(5), 20);
    assert_eq!(sum_of_doubles(0), 0);
    assert_eq!(sum_of_doubles(0x1_0000_0000), 0xffff_ffff_0000_0000);
}

#[test]
fn benchmark_progress() {
    let mut tally = Tally::new();
    assert!(tally.on_response(5));
    assert!(!tally.on_response(6));
    assert_eq!((tally.sum, tally.count), (11, 2));
    tally.count = 20_000;
    assert!(tally.on_response(0));
}
