//! Internet protocol transport layer: sockets on the module.

use crate::registration::text_of;
use crate::services::data::ssl::SecurityProfileId;
use crate::socket::endpoint::{ip_text, ip_written, is_ip_text, parse_ip, push_ip_text, IpAddr};
use crate::socket::Handle;
use super::{at_body, body_of, num_field, number_field, optional_string, read_optional_string, string_field, string_text};
use crate::text::{chars_of_bytes, fields, latin1, split_fields};
use super::at::{at_line, at_text, decimal_text, push_decimal, push_quoted_chars, quoted};
use vstd::prelude::*;

verus! {

/// `+UUSORD`/`+UUSORF`: data arrived on a socket.
#[derive(Debug, Clone, Copy, PartialEq, Eq, Structural)]
pub struct SocketDataAvailable {
    pub socket: Handle,
    pub length: usize,
}

/// `+UUSOCL`: the remote end closed a socket.
#[derive(Debug, Clone, Copy, PartialEq, Eq, Structural)]
pub struct SocketClosed {
    pub socket: Handle,
}

/// The data notice that the value text `body` holds, if any: 2 comma separated
/// decimal fields.
pub open spec fn socket_data_of(body: Seq<char>) -> Option<SocketDataAvailable> {
    if fields(body).len() == 2 && num_field(body, 0, 255) is Some && num_field(body, 1, usize::MAX as nat) is Some {
        Some(SocketDataAvailable { socket: Handle(num_field(body, 0, 255)->0 as u8), length: num_field(body, 1, usize::MAX as nat)->0 as usize })
    } else {
        None
    }
}

impl SocketDataAvailable {
    /// The data notice that the value text `body` holds, if any.
    pub fn from_fields(body: &[char]) -> (r: Option<Self>)
        ensures
            r == socket_data_of(body@),
    {
        let f = split_fields(body);
        if f.len() != 2 {
            return None;
        }
        let v0 = match number_field(&f, 0, 255) {
            Some(v) => v,
            None => {
                return None;
            },
        };
        let v1 = match number_field(&f, 1, usize::MAX) {
            Some(v) => v,
            None => {
                return None;
            },
        };
        Some(SocketDataAvailable { socket: Handle(v0 as u8), length: v1 })
    }
}

/// The closing notice that the value text `body` holds, if any: 1 comma separated
/// decimal field.
pub open spec fn socket_closed_of(body: Seq<char>) -> Option<SocketClosed> {
    if fields(body).len() == 1 && num_field(body, 0, 255) is Some {
        Some(SocketClosed { socket: Handle(num_field(body, 0, 255)->0 as u8) })
    } else {
        None
    }
}

impl SocketClosed {
    /// The closing notice that the value text `body` holds, if any.
    pub fn from_fields(body: &[char]) -> (r: Option<Self>)
        ensures
            r == socket_closed_of(body@),
    {
        let f = split_fields(body);
        if f.len() != 1 {
            return None;
        }
        let v0 = match number_field(&f, 0, 255) {
            Some(v) => v,
            None => {
                return None;
            },
        };
        Some(SocketClosed { socket: Handle(v0 as u8) })
    }
}

/// The transport protocol of a socket of the module.
#[derive(Debug, Clone, Copy, PartialEq, Eq, Structural)]
pub enum SocketProtocol {
    TCP,
    UDP,
}

impl SocketProtocol {
    /// The number that stands for the value in a command or response.
    pub open spec fn spec_value(self) -> u8 {
        match self {
            SocketProtocol::TCP => 6,
            SocketProtocol::UDP => 17,
        }
    }

    /// The value that the number `v` stands for, if any.
    pub open spec fn spec_from_value(v: u8) -> Option<SocketProtocol> {
        if v == 6 {
            Some(SocketProtocol::TCP)
        } else if v == 17 {
            Some(SocketProtocol::UDP)
        } else {
            None
        }
    }

    /// The number that stands for the value; the value is read back from it.
    pub fn value(&self) -> (r: u8)
        ensures
            r == self.spec_value(),
            Self::spec_from_value(r) == Some(*self),
    {
        match self {
            SocketProtocol::TCP => 6,
            SocketProtocol::UDP => 17,
        }
    }

    /// The value that the number `v` stands for, if any; its number is `v`.
    pub fn from_value(v: u8) -> (r: Option<Self>)
        ensures
            r == Self::spec_from_value(v),
            r matches Some(e) ==> e.spec_value() == v,
    {
        if v == 6 {
            Some(SocketProtocol::TCP)
        } else if v == 17 {
            Some(SocketProtocol::UDP)
        } else {
            None
        }
    }
}

/// Whether a socket uses SSL/TLS.
#[derive(Debug, Clone, Copy, PartialEq, Eq, Structural)]
pub enum SslTlsStatus {
    Disabled,
    Enabled,
}

impl SslTlsStatus {
    /// The number that stands for the value in a command or response.
    pub open spec fn spec_value(self) -> u8 {
        match self {
            SslTlsStatus::Disabled => 0,
            SslTlsStatus::Enabled => 1,
        }
    }

    /// The value that the number `v` stands for, if any.
    pub open spec fn spec_from_value(v: u8) -> Option<SslTlsStatus> {
        if v == 0 {
            Some(SslTlsStatus::Disabled)
        } else if v == 1 {
            Some(SslTlsStatus::Enabled)
        } else {
            None
        }
    }

    /// The number that stands for the value; the value is read back from it.
    pub fn value(&self) -> (r: u8)
        ensures
            r == self.spec_value(),
            Self::spec_from_value(r) == Some(*self),
    {
        match self {
            SslTlsStatus::Disabled => 0,
            SslTlsStatus::Enabled => 1,
        }
    }

    /// The value that the number `v` stands for, if any; its number is `v`.
    pub fn from_value(v: u8) -> (r: Option<Self>)
        ensures
            r == Self::spec_from_value(v),
            r matches Some(e) ==> e.spec_value() == v,
    {
        if v == 0 {
            Some(SslTlsStatus::Disabled)
        } else if v == 1 {
            Some(SslTlsStatus::Enabled)
        } else {
            None
        }
    }
}

/// Whether socket data travels as hexadecimal text.
#[derive(Debug, Clone, Copy, PartialEq, Eq, Structural)]
pub enum HexMode {
    Disabled,
    Enabled,
}

impl HexMode {
    /// The number that stands for the value in a command or response.
    pub open spec fn spec_value(self) -> u8 {
        match self {
            HexMode::Disabled => 0,
            HexMode::Enabled => 1,
        }
    }

    /// The value that the number `v` stands for, if any.
    pub open spec fn spec_from_value(v: u8) -> Option<HexMode> {
        if v == 0 {
            Some(HexMode::Disabled)
        } else if v == 1 {
            Some(HexMode::Enabled)
        } else {
            None
        }
    }

    /// The number that stands for the value; the value is read back from it.
    pub fn value(&self) -> (r: u8)
        ensures
            r == self.spec_value(),
            Self::spec_from_value(r) == Some(*self),
    {
        match self {
            HexMode::Disabled => 0,
            HexMode::Enabled => 1,
        }
    }

    /// The value that the number `v` stands for, if any; its number is `v`.
    pub fn from_value(v: u8) -> (r: Option<Self>)
        ensures
            r == Self::spec_from_value(v),
            r matches Some(e) ==> e.spec_value() == v,
    {
        if v == 0 {
            Some(HexMode::Disabled)
        } else if v == 1 {
            Some(HexMode::Enabled)
        } else {
            None
        }
    }
}

/// The datum of a socket to read (`+USOCTL`).
#[derive(Debug, Clone, Copy, PartialEq, Eq, Structural)]
pub enum SocketControlParam {
    SocketType,
    LastSocketError,
    BytesSent,
    BytesReceived,
    RemotePeerSocketAddr,
    SocketStatus,
    OutgoingUnackData,
}

impl SocketControlParam {
    /// The number that stands for the value in a command or response.
    pub open spec fn spec_value(self) -> u8 {
        match self {
            SocketControlParam::SocketType => 0,
            SocketControlParam::LastSocketError => 1,
            SocketControlParam::BytesSent => 2,
            SocketControlParam::BytesReceived => 3,
            SocketControlParam::RemotePeerSocketAddr => 4,
            SocketControlParam::SocketStatus => 10,
            SocketControlParam::OutgoingUnackData => 11,
        }
    }

    /// The value that the number `v` stands for, if any.
    pub open spec fn spec_from_value(v: u8) -> Option<SocketControlParam> {
        if v == 0 {
            Some(SocketControlParam::SocketType)
        } else if v == 1 {
            Some(SocketControlParam::LastSocketError)
        } else if v == 2 {
            Some(SocketControlParam::BytesSent)
        } else if v == 3 {
            Some(SocketControlParam::BytesReceived)
        } else if v == 4 {
            Some(SocketControlParam::RemotePeerSocketAddr)
        } else if v == 10 {
            Some(SocketControlParam::SocketStatus)
        } else if v == 11 {
            Some(SocketControlParam::OutgoingUnackData)
        } else {
            None
        }
    }

    /// The number that stands for the value; the value is read back from it.
    pub fn value(&self) -> (r: u8)
        ensures
            r == self.spec_value(),
            Self::spec_from_value(r) == Some(*self),
    {
        match self {
            SocketControlParam::SocketType => 0,
            SocketControlParam::LastSocketError => 1,
            SocketControlParam::BytesSent => 2,
            SocketControlParam::BytesReceived => 3,
            SocketControlParam::RemotePeerSocketAddr => 4,
            SocketControlParam::SocketStatus => 10,
            SocketControlParam::OutgoingUnackData => 11,
        }
    }

    /// The value that the number `v` stands for, if any; its number is `v`.
    pub fn from_value(v: u8) -> (r: Option<Self>)
        ensures
            r == Self::spec_from_value(v),
            r matches Some(e) ==> e.spec_value() == v,
    {
        if v == 0 {
            Some(SocketControlParam::SocketType)
        } else if v == 1 {
            Some(SocketControlParam::LastSocketError)
        } else if v == 2 {
            Some(SocketControlParam::BytesSent)
        } else if v == 3 {
            Some(SocketControlParam::BytesReceived)
        } else if v == 4 {
            Some(SocketControlParam::RemotePeerSocketAddr)
        } else if v == 10 {
            Some(SocketControlParam::SocketStatus)
        } else if v == 11 {
            Some(SocketControlParam::OutgoingUnackData)
        } else {
            None
        }
    }
}

/// HEX mode of the socket data commands +UDCONF=1
#[derive(Debug, Clone, Copy, PartialEq, Eq, Structural)]
pub struct SetHexMode {
    pub hex_mode_disable: HexMode,
}

impl SetHexMode {
    /// The arguments of the command, as they are written on the command line.
    pub open spec fn spec_args(&self) -> Seq<Seq<char>> {
        seq![decimal_text(self.hex_mode_disable.spec_value() as nat)]
    }

    /// The command line: `AT+UDCONF=1,` with its arguments.
    pub fn to_text(&self) -> (r: Vec<char>)
        ensures
            r@ == at_text("+UDCONF=1,"@, self.spec_args(), false),
    {
        let mut args: Vec<Vec<char>> = Vec::new();
        let mut a: Vec<char> = Vec::new();
        push_decimal(&mut a, self.hex_mode_disable.value() as u128);
        args.push(a);
        proof {
            assert(args@.map_values(|a: Vec<char>| a@) =~= self.spec_args());
        }
        at_line("+UDCONF=1,", &args, false)
    }
}

/// 25.12 Read socket data +USORD: up to `length` bytes of the data that
/// waits on the socket (0 asks how much waits).
#[derive(Debug, Clone, Copy, PartialEq, Eq, Structural)]
pub struct ReadSocketData {
    pub socket: Handle,
    pub length: usize,
}

/// 25.14 Read UDP socket data +USORF: up to `length` bytes of the data that
/// waits on the socket.
#[derive(Debug, Clone, Copy, PartialEq, Eq, Structural)]
pub struct ReadUDPSocketData {
    pub socket: Handle,
    pub length: usize,
}

impl ReadSocketData {
    /// The arguments of the command, as they are written on the command line.
    pub open spec fn spec_args(&self) -> Seq<Seq<char>> {
        seq![decimal_text(self.socket.0 as nat), decimal_text(self.length as nat)]
    }

    /// The command line: `AT+USORD` with its arguments.
    pub fn to_text(&self) -> (r: Vec<char>)
        ensures
            r@ == at_text("+USORD"@, self.spec_args(), true),
    {
        let mut args: Vec<Vec<char>> = Vec::new();
        let mut a: Vec<char> = Vec::new();
        push_decimal(&mut a, self.socket.0 as u128);
        args.push(a);
        let mut a: Vec<char> = Vec::new();
        push_decimal(&mut a, self.length as u128);
        args.push(a);
        proof {
            assert(args@.map_values(|a: Vec<char>| a@) =~= self.spec_args());
        }
        at_line("+USORD", &args, true)
    }
}

impl ReadUDPSocketData {
    /// The arguments of the command, as they are written on the command line.
    pub open spec fn spec_args(&self) -> Seq<Seq<char>> {
        seq![decimal_text(self.socket.0 as nat), decimal_text(self.length as nat)]
    }

    /// The command line: `AT+USORF` with its arguments.
    pub fn to_text(&self) -> (r: Vec<char>)
        ensures
            r@ == at_text("+USORF"@, self.spec_args(), true),
    {
        let mut args: Vec<Vec<char>> = Vec::new();
        let mut a: Vec<char> = Vec::new();
        push_decimal(&mut a, self.socket.0 as u128);
        args.push(a);
        let mut a: Vec<char> = Vec::new();
        push_decimal(&mut a, self.length as u128);
        args.push(a);
        proof {
            assert(args@.map_values(|a: Vec<char>| a@) =~= self.spec_args());
        }
        at_line("+USORF", &args, true)
    }
}

/// 25.12 The answer to `+USORD`: the socket, the length of the data (or,
/// when 0 was asked, how much waits), and the data as text.
#[derive(Debug, Clone, PartialEq, Eq)]
pub struct SocketData {
    pub socket: Handle,
    pub length: usize,
    pub data: Option<String>,
}

/// What the value text `body` of a `+USORD` answer reports, if it is well
/// formed: 2 or 3 comma separated fields, the socket (at most 255) and the
/// length as decimal numbers, then optionally the data as a string.
pub open spec fn socket_read_of(body: Seq<char>) -> Option<(u8, usize, Option<Seq<char>>)> {
    let fs = fields(body);
    if 2 <= fs.len() <= 3 {
        match (num_field(body, 0, 255), num_field(body, 1, usize::MAX as nat), optional_string(fs, 2, usize::MAX as nat)) {
            (Some(s), Some(n), Some(d)) => Some((s as u8, n as usize, d)),
            _ => None,
        }
    } else {
        None
    }
}

impl SocketData {
    /// What the answer `resp` (`+USORD: <socket>,<length>[,"<data>"]`) reports, if it is well formed.
    pub fn parse(resp: &[u8]) -> (r: Option<Self>)
        ensures
            match socket_read_of(at_body(latin1(resp@))) {
                Some((s, n, d)) => r matches Some(v) && v.socket == Handle(s) && v.length == n && text_of(v.data) == d,
                None => r is None,
            },
    {
        let c = chars_of_bytes(resp);
        let body = body_of(c.as_slice());
        let f = split_fields(body.as_slice());
        proof {
            assert(f@.map_values(|a: Vec<char>| a@) =~= fields(body@));
        }
        if f.len() < 2 || f.len() > 3 {
            return None;
        }
        let s = match number_field(&f, 0, 255) {
            Some(v) => v,
            None => {
                return None;
            },
        };
        let n = match number_field(&f, 1, usize::MAX) {
            Some(v) => v,
            None => {
                return None;
            },
        };
        let d = match read_optional_string(&f, 2, usize::MAX) {
            Some(v) => v,
            None => {
                return None;
            },
        };
        Some(SocketData { socket: Handle(s as u8), length: n, data: d })
    }
}

/// 25.14 The answer to `+USORF`: the socket, the remote end that sent the
/// data, the length of the data, and the data as text.
#[derive(Debug, Clone, PartialEq, Eq)]
pub struct UDPSocketData {
    pub socket: Handle,
    pub remote_addr: IpAddr,
    pub remote_port: u16,
    pub length: usize,
    pub data: Option<String>,
}

/// What the value text `body` of a `+USORF` answer reports, if it is well
/// formed: 4 or 5 comma separated fields, the socket (at most 255), the
/// text of the remote IP address as a string (see [is_ip_text]), the
/// remote port and the length as decimal numbers, then optionally the data
/// as a string.
pub open spec fn udp_read_of(body: Seq<char>) -> Option<(u8, Seq<char>, u16, usize, Option<Seq<char>>)> {
    let fs = fields(body);
    if 4 <= fs.len() <= 5 {
        match (
            num_field(body, 0, 255),
            if is_ip_text(string_text(fs[1])) { Some(string_text(fs[1])) } else { None },
            num_field(body, 2, 65535),
            num_field(body, 3, usize::MAX as nat),
            optional_string(fs, 4, usize::MAX as nat),
        ) {
            (Some(s), Some(ip), Some(port), Some(n), Some(d)) => Some((s as u8, ip, port as u16, n as usize, d)),
            _ => None,
        }
    } else {
        None
    }
}

impl UDPSocketData {
    /// What the answer `resp` (`+USORF: <socket>,"<ip>",<port>,<length>[,"<data>"]`) reports, if it is well formed.
    pub fn parse(resp: &[u8]) -> (r: Option<Self>)
        ensures
            match udp_read_of(at_body(latin1(resp@))) {
                Some((s, ip, port, n, d)) => r matches Some(v) && v.socket == Handle(s) && v.remote_port == port
                    && v.length == n && text_of(v.data) == d && ip_written(ip, v.remote_addr),
                None => r is None,
            },
    {
        let c = chars_of_bytes(resp);
        let body = body_of(c.as_slice());
        let f = split_fields(body.as_slice());
        proof {
            assert(f@.map_values(|a: Vec<char>| a@) =~= fields(body@));
        }
        if f.len() < 4 || f.len() > 5 {
            return None;
        }
        let s = match number_field(&f, 0, 255) {
            Some(v) => v,
            None => {
                return None;
            },
        };
        let text = string_field(f[1].as_slice());
        let ip = match parse_ip(text.as_slice()) {
            Some(a) => a,
            None => {
                return None;
            },
        };
        let port = match number_field(&f, 2, 65535) {
            Some(v) => v,
            None => {
                return None;
            },
        };
        let n = match number_field(&f, 3, usize::MAX) {
            Some(v) => v,
            None => {
                return None;
            },
        };
        let d = match read_optional_string(&f, 4, usize::MAX) {
            Some(v) => v,
            None => {
                return None;
            },
        };
        Some(UDPSocketData { socket: Handle(s as u8), remote_addr: ip, remote_port: port as u16, length: n, data: d })
    }
}

/// 25.3 Create a socket +USOCR: of the protocol `protocol`, on the local
/// port `local_port` where one is given.
#[derive(Debug, Clone, Copy, PartialEq, Eq, Structural)]
pub struct CreateSocket {
    pub protocol: SocketProtocol,
    pub local_port: Option<u16>,
}

impl CreateSocket {
    /// The arguments of the command, as they are written on the command line (an absent trailing argument is left out).
    pub open spec fn spec_args(&self) -> Seq<Seq<char>> {
        seq![decimal_text(self.protocol.spec_value() as nat)] + match self.local_port {
            Some(p) => seq![decimal_text(p as nat)],
            None => Seq::empty(),
        }
    }

    /// The command line: `AT+USOCR` with its arguments.
    pub fn to_text(&self) -> (r: Vec<char>)
        ensures
            r@ == at_text("+USOCR"@, self.spec_args(), true),
    {
        let mut args: Vec<Vec<char>> = Vec::new();
        let mut a: Vec<char> = Vec::new();
        push_decimal(&mut a, self.protocol.value() as u128);
        args.push(a);
        match self.local_port {
            Some(p) => {
                let mut a: Vec<char> = Vec::new();
                push_decimal(&mut a, p as u128);
                args.push(a);
            },
            None => {},
        }
        proof {
            assert(args@.map_values(|a: Vec<char>| a@) =~= self.spec_args());
        }
        at_line("+USOCR", &args, true)
    }
}

/// 25.3 The answer to `+USOCR`: the socket that was created.
#[derive(Debug, Clone, Copy, PartialEq, Eq, Structural)]
pub struct CreateSocketResponse {
    pub socket: Handle,
}

/// The socket that the value text `body` of a `+USOCR` answer names, if
/// any: one decimal field of at most 255.
pub open spec fn created_socket_of(body: Seq<char>) -> Option<CreateSocketResponse> {
    if fields(body).len() == 1 {
        match num_field(body, 0, 255) {
            Some(s) => Some(CreateSocketResponse { socket: Handle(s as u8) }),
            None => None,
        }
    } else {
        None
    }
}

impl CreateSocketResponse {
    /// The socket that the answer `resp` (`+USOCR: <socket>`) names, if any.
    pub fn parse(resp: &[u8]) -> (r: Option<Self>)
        ensures
            r == created_socket_of(at_body(latin1(resp@))),
    {
        let c = chars_of_bytes(resp);
        let body = body_of(c.as_slice());
        let f = split_fields(body.as_slice());
        if f.len() != 1 {
            return None;
        }
        match number_field(&f, 0, 255) {
            Some(s) => Some(CreateSocketResponse { socket: Handle(s as u8) }),
            None => None,
        }
    }
}

/// 25.11 Close a socket +USOCL.
#[derive(Debug, Clone, Copy, PartialEq, Eq, Structural)]
pub struct CloseSocket {
    pub socket: Handle,
}

impl CloseSocket {
    /// The arguments of the command, as they are written on the command line.
    pub open spec fn spec_args(&self) -> Seq<Seq<char>> {
        seq![decimal_text(self.socket.0 as nat)]
    }

    /// The command line: `AT+USOCL` with its arguments.
    pub fn to_text(&self) -> (r: Vec<char>)
        ensures
            r@ == at_text("+USOCL"@, self.spec_args(), true),
    {
        let mut args: Vec<Vec<char>> = Vec::new();
        let mut a: Vec<char> = Vec::new();
        push_decimal(&mut a, self.socket.0 as u128);
        args.push(a);
        proof {
            assert(args@.map_values(|a: Vec<char>| a@) =~= self.spec_args());
        }
        at_line("+USOCL", &args, true)
    }
}

/// 25.10 Announce a datagram of `length` bytes to the remote end
/// `remote_addr`:`remote_port` on the socket +USOST; the data follows the
/// module's prompt.
#[derive(Debug, Clone, Copy, PartialEq, Eq)]
pub struct PrepareUDPSendToDataBinary {
    pub socket: Handle,
    pub remote_addr: IpAddr,
    pub remote_port: u16,
    pub length: usize,
}

impl PrepareUDPSendToDataBinary {
    /// The arguments of the command, as they are written on the command line.
    pub open spec fn spec_args(&self) -> Seq<Seq<char>> {
        seq![
            decimal_text(self.socket.0 as nat),
            quoted(ip_text(self.remote_addr)),
            decimal_text(self.remote_port as nat),
            decimal_text(self.length as nat),
        ]
    }

    /// The command line: `AT+USOST` with its arguments.
    pub fn to_text(&self) -> (r: Vec<char>)
        ensures
            r@ == at_text("+USOST"@, self.spec_args(), true),
    {
        let mut args: Vec<Vec<char>> = Vec::new();
        let mut a: Vec<char> = Vec::new();
        push_decimal(&mut a, self.socket.0 as u128);
        args.push(a);
        let mut text: Vec<char> = Vec::new();
        push_ip_text(&mut text, &self.remote_addr);
        let mut a: Vec<char> = Vec::new();
        push_quoted_chars(&mut a, text.as_slice());
        args.push(a);
        let mut a: Vec<char> = Vec::new();
        push_decimal(&mut a, self.remote_port as u128);
        args.push(a);
        let mut a: Vec<char> = Vec::new();
        push_decimal(&mut a, self.length as u128);
        args.push(a);
        proof {
            assert(args@.map_values(|a: Vec<char>| a@) =~= self.spec_args());
        }
        at_line("+USOST", &args, true)
    }
}

/// 25.10 The data of a datagram announced by [PrepareUDPSendToDataBinary]:
/// sent as it is, without a command name or a line ending.
#[derive(Debug, Clone, Copy, PartialEq, Eq)]
pub struct UDPSendToDataBinary<'a> {
    pub data: &'a [u8],
}

impl<'a> UDPSendToDataBinary<'a> {
    /// What is sent: the data itself, of at most 2048 bytes.
    pub fn to_bytes(&self) -> (r: Vec<u8>)
        requires
            self.data@.len() <= 2048,
        ensures
            r@ == self.data@,
    {
        let mut r: Vec<u8> = Vec::new();
        let mut i: usize = 0;
        while i < self.data.len()
            invariant
                0 <= i <= self.data@.len(),
                r@ == self.data@.subrange(0, i as int),
            decreases self.data@.len() - i,
        {
            r.push(self.data[i]);
            proof {
                assert(self.data@.subrange(0, i + 1) =~= self.data@.subrange(0, i as int).push(self.data@[i as int]));
            }
            i = i + 1;
        }
        assert(self.data@.subrange(0, self.data@.len() as int) =~= self.data@);
        r
    }
}

/// 25.10 The answer to the data of a datagram: the socket and how many
/// bytes were sent.
#[derive(Debug, Clone, Copy, PartialEq, Eq, Structural)]
pub struct UDPSendToDataResponse {
    pub socket: Handle,
    pub length: usize,
}

/// What the value text `body` of a `+USOST` answer reports, if it is well
/// formed: 2 comma separated decimal fields, the socket (at most 255) and
/// the length.
pub open spec fn udp_sent_of(body: Seq<char>) -> Option<UDPSendToDataResponse> {
    if fields(body).len() == 2 {
        match (num_field(body, 0, 255), num_field(body, 1, usize::MAX as nat)) {
            (Some(s), Some(n)) => Some(UDPSendToDataResponse { socket: Handle(s as u8), length: n as usize }),
            _ => None,
        }
    } else {
        None
    }
}

impl UDPSendToDataResponse {
    /// What the answer `resp` (`+USOST: <socket>,<length>`) reports, if it is well formed.
    pub fn parse(resp: &[u8]) -> (r: Option<Self>)
        ensures
            r == udp_sent_of(at_body(latin1(resp@))),
    {
        let c = chars_of_bytes(resp);
        let body = body_of(c.as_slice());
        let f = split_fields(body.as_slice());
        if f.len() != 2 {
            return None;
        }
        let s = match number_field(&f, 0, 255) {
            Some(v) => v,
            None => {
                return None;
            },
        };
        match number_field(&f, 1, usize::MAX) {
            Some(n) => Some(UDPSendToDataResponse { socket: Handle(s as u8), length: n }),
            None => None,
        }
    }
}


/// 25.8 Connect a socket to the remote end `remote_addr`:`remote_port`
/// +USOCO
#[derive(Debug, Clone, Copy, PartialEq, Eq)]
pub struct ConnectSocket {
    pub socket: Handle,
    pub remote_addr: IpAddr,
    pub remote_port: u16,
}

impl ConnectSocket {
    /// The arguments of the command, as they are written on the command line.
    pub open spec fn spec_args(&self) -> Seq<Seq<char>> {
        seq![
            decimal_text(self.socket.0 as nat),
            quoted(ip_text(self.remote_addr)),
            decimal_text(self.remote_port as nat),
        ]
    }

    /// The command line: `AT+USOCO` with its arguments.
    pub fn to_text(&self) -> (r: Vec<char>)
        ensures
            r@ == at_text("+USOCO"@, self.spec_args(), true),
    {
        let mut args: Vec<Vec<char>> = Vec::new();
        let mut a: Vec<char> = Vec::new();
        push_decimal(&mut a, self.socket.0 as u128);
        args.push(a);
        let mut text: Vec<char> = Vec::new();
        push_ip_text(&mut text, &self.remote_addr);
        let mut a: Vec<char> = Vec::new();
        push_quoted_chars(&mut a, text.as_slice());
        args.push(a);
        let mut a: Vec<char> = Vec::new();
        push_decimal(&mut a, self.remote_port as u128);
        args.push(a);
        proof {
            assert(args@.map_values(|a: Vec<char>| a@) =~= self.spec_args());
        }
        at_line("+USOCO", &args, true)
    }
}

/// 25.4 SSL/TLS mode of a socket +USOSEC: on or off, with the security
/// profile that it uses (where one is given).
#[derive(Debug, Clone, Copy, PartialEq, Eq)]
pub struct SetSocketSslState {
    pub socket: Handle,
    pub ssl_tls_status: SslTlsStatus,
    pub profile_id: Option<SecurityProfileId>,
}

impl SetSocketSslState {
    /// The arguments of the command, as they are written on the command line (an absent trailing argument is left out).
    pub open spec fn spec_args(&self) -> Seq<Seq<char>> {
        seq![decimal_text(self.socket.0 as nat), decimal_text(self.ssl_tls_status.spec_value() as nat)]
            + match self.profile_id {
            Some(p) => seq![decimal_text(p.0 as nat)],
            None => Seq::empty(),
        }
    }

    /// The command line: `AT+USOSEC` with its arguments.
    pub fn to_text(&self) -> (r: Vec<char>)
        ensures
            r@ == at_text("+USOSEC"@, self.spec_args(), true),
    {
        let mut args: Vec<Vec<char>> = Vec::new();
        let mut a: Vec<char> = Vec::new();
        push_decimal(&mut a, self.socket.0 as u128);
        args.push(a);
        let mut a: Vec<char> = Vec::new();
        push_decimal(&mut a, self.ssl_tls_status.value() as u128);
        args.push(a);
        match self.profile_id {
            Some(p) => {
                let mut a: Vec<char> = Vec::new();
                push_decimal(&mut a, p.0 as u128);
                args.push(a);
            },
            None => {},
        }
        proof {
            assert(args@.map_values(|a: Vec<char>| a@) =~= self.spec_args());
        }
        at_line("+USOSEC", &args, true)
    }
}

/// 25.10 Announce `length` bytes to write on a connected socket +USOWR; the
/// data follows the module's prompt.
#[derive(Debug, Clone, Copy, PartialEq, Eq, Structural)]
pub struct PrepareWriteSocketDataBinary {
    pub socket: Handle,
    pub length: usize,
}

impl PrepareWriteSocketDataBinary {
    /// The arguments of the command, as they are written on the command line.
    pub open spec fn spec_args(&self) -> Seq<Seq<char>> {
        seq![decimal_text(self.socket.0 as nat), decimal_text(self.length as nat)]
    }

    /// The command line: `AT+USOWR` with its arguments.
    pub fn to_text(&self) -> (r: Vec<char>)
        ensures
            r@ == at_text("+USOWR"@, self.spec_args(), true),
    {
        let mut args: Vec<Vec<char>> = Vec::new();
        let mut a: Vec<char> = Vec::new();
        push_decimal(&mut a, self.socket.0 as u128);
        args.push(a);
        let mut a: Vec<char> = Vec::new();
        push_decimal(&mut a, self.length as u128);
        args.push(a);
        proof {
            assert(args@.map_values(|a: Vec<char>| a@) =~= self.spec_args());
        }
        at_line("+USOWR", &args, true)
    }
}

/// 25.10 The data announced by [PrepareWriteSocketDataBinary]: sent as it
/// is, without a command name or a line ending.
#[derive(Debug, Clone, Copy, PartialEq, Eq)]
pub struct WriteSocketDataBinary<'a> {
    pub data: &'a [u8],
}

impl<'a> WriteSocketDataBinary<'a> {
    /// What is sent: the data itself, of at most 2048 bytes.
    pub fn to_bytes(&self) -> (r: Vec<u8>)
        requires
            self.data@.len() <= 2048,
        ensures
            r@ == self.data@,
    {
        let mut r: Vec<u8> = Vec::new();
        let mut i: usize = 0;
        while i < self.data.len()
            invariant
                0 <= i <= self.data@.len(),
                r@ == self.data@.subrange(0, i as int),
            decreases self.data@.len() - i,
        {
            r.push(self.data[i]);
            proof {
                assert(self.data@.subrange(0, i + 1) =~= self.data@.subrange(0, i as int).push(self.data@[i as int]));
            }
            i = i + 1;
        }
        assert(self.data@.subrange(0, self.data@.len() as int) =~= self.data@);
        r
    }
}

/// 25.10 The answer to written data: the socket and how many bytes were
/// written.
#[derive(Debug, Clone, Copy, PartialEq, Eq, Structural)]
pub struct WriteSocketDataResponse {
    pub socket: Handle,
    pub length: usize,
}

/// What the value text `body` of a `+USOWR` answer reports, if it is well
/// formed: 2 comma separated decimal fields, the socket (at most 255) and
/// the length.
pub open spec fn tcp_written_of(body: Seq<char>) -> Option<WriteSocketDataResponse> {
    if fields(body).len() == 2 {
        match (num_field(body, 0, 255), num_field(body, 1, usize::MAX as nat)) {
            (Some(s), Some(n)) => Some(WriteSocketDataResponse { socket: Handle(s as u8), length: n as usize }),
            _ => None,
        }
    } else {
        None
    }
}

impl WriteSocketDataResponse {
    /// What the answer `resp` (`+USOWR: <socket>,<length>`) reports, if it is well formed.
    pub fn parse(resp: &[u8]) -> (r: Option<Self>)
        ensures
            r == tcp_written_of(at_body(latin1(resp@))),
    {
        let c = chars_of_bytes(resp);
        let body = body_of(c.as_slice());
        let f = split_fields(body.as_slice());
        if f.len() != 2 {
            return None;
        }
        let s = match number_field(&f, 0, 255) {
            Some(v) => v,
            None => {
                return None;
            },
        };
        match number_field(&f, 1, usize::MAX) {
            Some(n) => Some(WriteSocketDataResponse { socket: Handle(s as u8), length: n }),
            None => None,
        }
    }
}

} // verus!
