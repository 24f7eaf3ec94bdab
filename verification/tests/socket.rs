use ublox_cellular::services::data::tcp_stack::{ check_tcp_write_reply, tcp_connect_step, tcp_send_chunks, TcpConnectAction, };
use ublox_cellular::services::data::Error as DataError;
use ublox_cellular::services::data::ingress::IngressPlan;
use ublox_cellular::command::ip_transport_layer::{SocketClosed, SocketDataAvailable};
use ublox_cellular::command::Urc;
use ublox_cellular::command::ip_transport_layer::{ ConnectSocket, PrepareWriteSocketDataBinary, SetSocketSslState, SslTlsStatus, WriteSocketDataBinary, WriteSocketDataResponse, };
use ublox_cellular::services::data::ssl::SecurityProfileId;
use ublox_cellular::command::ip_transport_layer::{
    CloseSocket, CreateSocket, CreateSocketResponse, PrepareUDPSendToDataBinary, ReadSocketData,
    ReadUDPSocketData, SocketData, SocketProtocol, UDPSendToDataBinary, UDPSendToDataResponse, UDPSocketData,
};
use ublox_cellular::socket::endpoint::{IpAddr, SocketAddr, SocketAddrV4};
use ublox_cellular::socket::ref_::Ref;
use ublox_cellular::socket::set::SocketSet;
use ublox_cellular::socket::tcp::{State, TcpSocket};
use ublox_cellular::socket::udp::UdpSocket;
use ublox_cellular::socket::{Error, Handle, Socket, SocketType};
use ublox_cellular::time::Instant;

type Sockets = SocketSet<2, 1000, 16>;

#[test]
fn socket_set_add_get_remove() {
    let mut set: Sockets = SocketSet::new();
    assert_eq!(set.capacity(), 2);
    assert!(set.is_empty());

    let tcp: TcpSocket<1000, 16> = TcpSocket::new(3);
    assert_eq!(set.add(Socket::Tcp(tcp)), Ok(Handle(3)));
    assert_eq!(set.len(), 1);
    assert_eq!(set.socket_type(Handle(3)), Some(SocketType::Tcp));
    assert_eq!(set.socket_type(Handle(4)), None);

    // the same handle twice is refused
    assert_eq!(set.add(Socket::Tcp(TcpSocket::new(3))), Err(Error::DuplicateSocket));

    let udp: UdpSocket<1000, 16> = UdpSocket::new(7);
    assert_eq!(set.add(Socket::Udp(udp)), Ok(Handle(7)));
    assert_eq!(set.index_of(Handle(7)), Ok(1));
    assert_eq!(set.handles(), vec![Handle(3), Handle(7)]);

    // no slot left
    assert_eq!(set.add(Socket::Tcp(TcpSocket::new(9))), Err(Error::SocketSetFull));

    {
        let mut r = set.get::<TcpSocket<1000, 16>>(Handle(3)).unwrap();
        r.socket.set_state(State::Established);
    }
    assert!(matches!(set.get::<UdpSocket<1000, 16>>(Handle(3)), Err(Error::Illegal)));
    assert!(matches!(set.get::<TcpSocket<1000, 16>>(Handle(8)), Err(Error::InvalidSocket)));

    match set.remove(Handle(3)) {
        Ok(Socket::Tcp(t)) => assert_eq!(t.state(), State::Established),
        _ => panic!(),
    }
    assert_eq!(set.len(), 1);
    assert!(matches!(set.remove(Handle(3)), Err(Error::InvalidSocket)));
    // a socket with a reference is left alone
    set.prune();
    assert_eq!(set.index_of(Handle(7)), Ok(1));
    // without references, a closed socket is removed
    assert_eq!(set.release(Handle(7)), Ok(()));
    set.prune();
    assert!(set.is_empty());
}

#[test]
fn prune_closes_open_sockets_without_references() {
    let mut set: Sockets = SocketSet::new();
    let mut udp: UdpSocket<1000, 16> = UdpSocket::new(5);
    udp.bind(SocketAddr::V4(SocketAddrV4::new([10, 0, 0, 1], 5000))).unwrap();
    set.add(Socket::Udp(udp)).unwrap();
    let mut tcp: TcpSocket<1000, 16> = TcpSocket::new(6);
    tcp.set_state(State::Established);
    set.add(Socket::Tcp(tcp)).unwrap();
    set.release(Handle(5)).unwrap();
    set.release(Handle(6)).unwrap();
    // the open sockets are closed, and stay
    set.prune();
    assert_eq!(set.len(), 2);
    assert!(!set.get::<UdpSocket<1000, 16>>(Handle(5)).unwrap().socket.is_open());
    assert_eq!(set.get::<TcpSocket<1000, 16>>(Handle(6)).unwrap().socket.state(), State::Closed);
    // now closed, they are removed
    set.prune();
    assert!(set.is_empty());
}

#[test]
fn socket_set_reference_counts() {
    let mut set: Sockets = SocketSet::new();
    set.add(Socket::Tcp(TcpSocket::new(1))).unwrap();
    assert_eq!(set.release(Handle(1)), Ok(()));
    assert_eq!(set.release(Handle(1)), Err(Error::Illegal));
    assert_eq!(set.retain(Handle(1)), Ok(()));
    assert_eq!(set.release(Handle(1)), Ok(()));
    assert_eq!(set.retain(Handle(2)), Err(Error::InvalidSocket));
    assert_eq!(set.release(Handle(2)), Err(Error::InvalidSocket));
}

#[test]
fn tcp_socket_receives_in_order() {
    let mut tcp: TcpSocket<1000, 8> = TcpSocket::new(0);
    assert_eq!(tcp.state(), State::Closed);
    assert!(!tcp.is_open());
    assert_eq!(tcp.recv_slice(&mut [0u8; 4]), Err(Error::Illegal));
    tcp.set_state(State::Established);
    assert!(tcp.is_active() && tcp.may_send() && tcp.may_recv());
    assert!(tcp.can_recv());
    assert_eq!(tcp.rx_enqueue_slice(b"hello"), 5);
    assert!(tcp.can_recv());
    assert_eq!(tcp.rx_enqueue_slice(b"world"), 3);
    assert!(!tcp.can_recv());
    assert_eq!(tcp.recv_queue(), 8);
    let mut buf = [0u8; 3];
    assert_eq!(tcp.peek_slice(&mut buf), Ok(3));
    assert_eq!(&buf, b"hel");
    assert_eq!(tcp.recv_slice(&mut buf), Ok(3));
    assert_eq!(&buf, b"hel");
    let mut rest = [0u8; 8];
    assert_eq!(tcp.recv_slice(&mut rest), Ok(5));
    assert_eq!(&rest[..5], b"lowor");
    tcp.close();
    assert_eq!(tcp.state(), State::Closed);
}

#[test]
fn udp_socket_bind_and_receive() {
    let mut udp: UdpSocket<1000, 8> = UdpSocket::new(2);
    assert!(!udp.is_open());
    assert_eq!(udp.bind(SocketAddr::V4(SocketAddrV4::new([0, 0, 0, 0], 0))), Err(Error::Unaddressable));
    assert_eq!(udp.bind(SocketAddr::V4(SocketAddrV4::new([10, 0, 0, 1], 5000))), Ok(()));
    assert!(udp.is_open());
    // an empty receive buffer gives nothing to read
    assert_eq!(udp.peek(4), Err(Error::Exhausted));
    assert_eq!(udp.peek_slice(&mut [0u8; 4]), Err(Error::Exhausted));
    assert_eq!(udp.recv(|b: &mut [u8]| (0, b.len())), Err(Error::Exhausted));
    assert_eq!(udp.bind(SocketAddr::V4(SocketAddrV4::new([10, 0, 0, 1], 5001))), Err(Error::Illegal));
    assert_eq!(udp.endpoint().port(), 5000);
    assert_eq!(udp.rx_window(), 8);
    assert_eq!(udp.rx_enqueue_slice(b"abc"), 3);
    assert_eq!(udp.rx_window(), 5);
    assert!(udp.can_recv());
    let mut buf = [0u8; 8];
    assert_eq!(udp.recv_slice(&mut buf), Ok(3));
    assert_eq!(&buf[..3], b"abc");
    assert_eq!(udp.rx_enqueue_slice(b"de"), 2);
    assert_eq!(udp.peek(8), Ok(&b"de"[..]));
    assert_eq!(udp.recv(|b: &mut [u8]| (1, b[0])), Ok(b'd'));
    assert_eq!(udp.recv_slice(&mut buf), Ok(1));
    udp.set_available_data(12);
    assert_eq!(udp.get_available_data(), 12);
    udp.close();
    assert!(!udp.is_open());
}

#[test]
fn udp_socket_polls_for_data_on_an_interval() {
    let mut udp: UdpSocket<1000, 8> = UdpSocket::new(2);
    // the first check has nothing to compare with
    assert!(!udp.should_update_available_data(Instant::from_ticks(100)));
    assert!(!udp.should_update_available_data(Instant::from_ticks(5_000)));
    assert!(udp.should_update_available_data(Instant::from_ticks(20_100)));
}

#[test]
fn ref_wraps_and_unwraps() {
    let mut x = 5u32;
    let r = Ref::new(&mut x);
    assert!(!r.consumed);
    let inner = Ref::into_inner(r);
    *inner = 6;
    assert_eq!(x, 6);
}

#[test]
fn iter_walks_the_sockets_in_slot_order() {
    let mut set: SocketSet<3, 1000, 8> = SocketSet::new();
    set.add(Socket::Udp(UdpSocket::new(4))).unwrap();
    set.add(Socket::Tcp(TcpSocket::new(2))).unwrap();
    let items = set.iter();
    assert_eq!(items.len(), 2);
    assert_eq!(items[0].0, Handle(4));
    assert_eq!(items[0].1.get_type(), SocketType::Udp);
    assert_eq!(items[1].0, Handle(2));
    assert_eq!(items[1].1.get_type(), SocketType::Tcp);
    assert!(SocketSet::<2, 1000, 8>::new().iter().is_empty());
}

#[test]
fn socket_reads_reach_the_buffer() {
    assert_eq!(
        ReadSocketData { socket: Handle(0), length: 0 }.to_text().into_iter().collect::<String>(),
        "AT+USORD=0,0\r\n"
    );
    assert_eq!(
        ReadUDPSocketData { socket: Handle(1), length: 256 }.to_text().into_iter().collect::<String>(),
        "AT+USORF=1,256\r\n"
    );
    assert_eq!(
        SocketData::parse(b"+USORD: 0,4,\"48656C6C\""),
        Some(SocketData { socket: Handle(0), length: 4, data: Some(String::from("48656C6C")) })
    );
    assert_eq!(
        SocketData::parse(b"+USORD: 3,12"),
        Some(SocketData { socket: Handle(3), length: 12, data: None })
    );
    assert_eq!(SocketData::parse(b"+USORD: 3"), None);
    let answer = UDPSocketData::parse(b"+USORF: 1,\"93.184.216.34\",5000,2,\"4869\"").unwrap();
    assert_eq!(answer.socket, Handle(1));
    assert_eq!(answer.remote_addr, IpAddr::V4([93, 184, 216, 34]));
    assert_eq!(answer.remote_port, 5000);
    assert_eq!(answer.length, 2);
    assert_eq!(answer.data, Some(String::from("4869")));
    assert_eq!(UDPSocketData::parse(b"+USORF: 1,\"host\",5000,2,\"4869\""), None);
    let six = UDPSocketData::parse(b"+USORF: 2,\"2001:db8::ff00:42:8329\",53,0").unwrap();
    assert_eq!(six.remote_addr, IpAddr::V6([0x2001, 0xdb8, 0, 0, 0, 0xff00, 0x42, 0x8329]));
    assert_eq!(six.remote_port, 53);
    assert_eq!(six.data, None);

    let mut udp: UdpSocket<1000, 8> = UdpSocket::new(1);
    udp.bind(SocketAddr::V4(SocketAddrV4::new([93, 184, 216, 34], 5000))).unwrap();
    udp.set_available_data(2);
    assert_eq!(
        udp.ingest(answer.socket, answer.length, answer.data.map(|d| d.into_bytes())),
        Ok(())
    );
    let mut buf = [0u8; 8];
    assert_eq!(udp.recv_slice(&mut buf), Ok(2));
    assert_eq!(&buf[..2], b"Hi");
}

#[test]
fn datagram_commands() {
    let line = |v: Vec<char>| v.into_iter().collect::<String>();
    assert_eq!(line(CreateSocket { protocol: SocketProtocol::UDP, local_port: None }.to_text()), "AT+USOCR=17\r\n");
    assert_eq!(
        line(CreateSocket { protocol: SocketProtocol::TCP, local_port: Some(5000) }.to_text()),
        "AT+USOCR=6,5000\r\n"
    );
    assert_eq!(CreateSocketResponse::parse(b"+USOCR: 3"), Some(CreateSocketResponse { socket: Handle(3) }));
    assert_eq!(CreateSocketResponse::parse(b"+USOCR: 300"), None);
    assert_eq!(line(CloseSocket { socket: Handle(3) }.to_text()), "AT+USOCL=3\r\n");
    let prepare = PrepareUDPSendToDataBinary {
        socket: Handle(1),
        remote_addr: IpAddr::V4([195, 34, 89, 241]),
        remote_port: 7,
        length: 5,
    };
    assert_eq!(line(prepare.to_text()), "AT+USOST=1,\"195.34.89.241\",7,5\r\n");
    assert_eq!(UDPSendToDataBinary { data: b"hello" }.to_bytes(), b"hello".to_vec());
    assert_eq!(
        UDPSendToDataResponse::parse(b"+USOST: 1,5"),
        Some(UDPSendToDataResponse { socket: Handle(1), length: 5 })
    );
    assert_eq!(UDPSendToDataResponse::parse(b"+USOST: 1"), None);
}

#[test]
fn tcp_client_stack_decisions() {
    assert_eq!(tcp_connect_step(State::Created), Ok(TcpConnectAction::EnableSslThenConnect));
    for state in [State::Closed, State::Listen, State::Established, State::CloseWait, State::TimeWait] {
        assert_eq!(tcp_connect_step(state), Err(Error::Illegal));
    }
    assert_eq!(tcp_send_chunks(false, 10), Err(Error::SocketClosed));
    assert_eq!(tcp_send_chunks(true, 2500), Ok(vec![(0, 1024), (1024, 2048), (2048, 2500)]));
    assert_eq!(tcp_send_chunks(true, 0), Ok(vec![]));
    assert_eq!(check_tcp_write_reply(Handle(1), 5, Handle(1), 5), Ok(()));
    assert_eq!(check_tcp_write_reply(Handle(1), 5, Handle(1), 4), Err(DataError::BadLength));
    assert_eq!(
        check_tcp_write_reply(Handle(1), 5, Handle(2), 5),
        Err(DataError::Socket(Error::InvalidSocket))
    );
}

#[test]
fn tcp_socket_connects_and_takes_in_data() {
    let mut tcp: TcpSocket<1000, 8> = TcpSocket::new(4);
    tcp.set_state(State::Created);
    assert!(!tcp.is_connected());
    let remote = SocketAddr::V4(SocketAddrV4::new([93, 184, 216, 34], 443));
    tcp.set_connected(remote);
    assert!(tcp.is_connected());
    assert_eq!(tcp.remote(), Some(remote));
    // nothing waits: the first check only notes the instant
    assert_eq!(tcp.plan_ingress(Instant::from_ticks(0)), Ok(IngressPlan::Idle));
    assert_eq!(tcp.plan_ingress(Instant::from_ticks(15_000)), Ok(IngressPlan::Poll));
    tcp.set_available_data(300);
    assert_eq!(tcp.plan_ingress(Instant::from_ticks(16_000)), Ok(IngressPlan::Read(8)));
    assert_eq!(tcp.ingest(Handle(5), 2, Some(b"4869".to_vec())), Err(DataError::WrongSocketType));
    assert_eq!(tcp.ingest(Handle(4), 3, Some(b"4869".to_vec())), Err(DataError::BadLength));
    assert_eq!(tcp.ingest(Handle(4), 2, Some(b"4869".to_vec())), Ok(()));
    let mut buf = [0u8; 8];
    assert_eq!(tcp.recv_slice(&mut buf), Ok(2));
    assert_eq!(&buf[..2], b"Hi");
    assert_eq!(tcp.ingest(Handle(4), 0, Some(Vec::new())), Ok(()));
    assert_eq!(tcp.get_available_data(), 0);
    tcp.closed_by_remote();
    assert_eq!(tcp.state(), State::Closed);
    assert!(!tcp.is_connected());
}

#[test]
fn socket_urcs_reach_tcp_sockets() {
    let mut set: Sockets = SocketSet::new();
    let mut tcp: TcpSocket<1000, 16> = TcpSocket::new(2);
    tcp.set_state(State::Established);
    set.add(Socket::Tcp(tcp)).unwrap();
    set.handle_urc(Urc::SocketDataAvailable(SocketDataAvailable { socket: Handle(2), length: 40 }), Instant::from_ticks(1));
    assert_eq!(set.get::<TcpSocket<1000, 16>>(Handle(2)).unwrap().socket.get_available_data(), 40);
    set.handle_urc(Urc::SocketClosed(SocketClosed { socket: Handle(2) }), Instant::from_ticks(2));
    assert_eq!(set.get::<TcpSocket<1000, 16>>(Handle(2)).unwrap().socket.state(), State::Closed);
}

#[test]
fn tcp_commands() {
    let text = |v: Vec<char>| v.into_iter().collect::<String>();
    assert_eq!(
        text(ConnectSocket { socket: Handle(3), remote_addr: IpAddr::V4([93, 184, 216, 34]), remote_port: 443 }.to_text()),
        "AT+USOCO=3,\"93.184.216.34\",443\r\n"
    );
    assert_eq!(
        text(
            SetSocketSslState { socket: Handle(3), ssl_tls_status: SslTlsStatus::Enabled, profile_id: Some(SecurityProfileId(0)) }
                .to_text()
        ),
        "AT+USOSEC=3,1,0\r\n"
    );
    assert_eq!(
        text(SetSocketSslState { socket: Handle(3), ssl_tls_status: SslTlsStatus::Disabled, profile_id: None }.to_text()),
        "AT+USOSEC=3,0\r\n"
    );
    assert_eq!(text(PrepareWriteSocketDataBinary { socket: Handle(3), length: 5 }.to_text()), "AT+USOWR=3,5\r\n");
    assert_eq!(WriteSocketDataBinary { data: b"hello" }.to_bytes(), b"hello".to_vec());
    assert_eq!(
        WriteSocketDataResponse::parse(b"+USOWR: 3,5"),
        Some(WriteSocketDataResponse { socket: Handle(3), length: 5 })
    );
    assert_eq!(WriteSocketDataResponse::parse(b"+USOWR: 3"), None);
}
