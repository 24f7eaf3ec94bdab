//! Packet switched data services: PDP contexts, GPRS attach, PSD profiles.

use crate::text::{chars_of_bytes, latin1, spells};
use super::{at_body, body_of, string_field, string_text};
use super::{num_field, number_field};
use crate::text::{decimal_at_most, fields, split_fields, read_utf8, trim_ascii, utf8_text};
use super::at::{at_line, at_text, decimal_text, push_decimal, push_quoted, push_quoted_chars, quoted};
use crate::socket::endpoint::{ip_text, ip_written, is_ip_text, parse_ip, push_ip_text, IpAddr};
use crate::network::ContextId;
use vstd::prelude::*;

verus! {

/// A packet domain event, as the `+CGEV` URC reports it.
#[derive(Debug, Clone, Copy, PartialEq, Eq, Structural)]
pub enum PacketSwitchedEventReporting {
    NetworkDetach,
    MobileStationDetach,
    NetworkDeactivate,
    MobileStationDeactivate,
    NetworkPDNDeactivate,
    MobileStationPDNDeactivate,
}

impl PacketSwitchedEventReporting {
    /// The text that names the event.
    pub open spec fn spec_token(self) -> Seq<char> {
        match self {
            PacketSwitchedEventReporting::NetworkDetach => "NW DETACH"@,
            PacketSwitchedEventReporting::MobileStationDetach => "ME DETACH"@,
            PacketSwitchedEventReporting::NetworkDeactivate => "NW DEACT"@,
            PacketSwitchedEventReporting::MobileStationDeactivate => "ME DEACT"@,
            PacketSwitchedEventReporting::NetworkPDNDeactivate => "NW PDN DEACT"@,
            PacketSwitchedEventReporting::MobileStationPDNDeactivate => "ME PDN DEACT"@,
        }
    }

    /// The text that names the event.
    pub fn token(&self) -> (r: &'static str)
        ensures
            r@ == self.spec_token(),
    {
        match self {
            PacketSwitchedEventReporting::NetworkDetach => "NW DETACH",
            PacketSwitchedEventReporting::MobileStationDetach => "ME DETACH",
            PacketSwitchedEventReporting::NetworkDeactivate => "NW DEACT",
            PacketSwitchedEventReporting::MobileStationDeactivate => "ME DEACT",
            PacketSwitchedEventReporting::NetworkPDNDeactivate => "NW PDN DEACT",
            PacketSwitchedEventReporting::MobileStationPDNDeactivate => "ME PDN DEACT",
        }
    }
}

/// The event that the text `t` names, if any.
pub open spec fn event_named(t: Seq<char>) -> Option<PacketSwitchedEventReporting> {
    if t == "NW DETACH"@ {
        Some(PacketSwitchedEventReporting::NetworkDetach)
    } else if t == "ME DETACH"@ {
        Some(PacketSwitchedEventReporting::MobileStationDetach)
    } else if t == "NW DEACT"@ {
        Some(PacketSwitchedEventReporting::NetworkDeactivate)
    } else if t == "ME DEACT"@ {
        Some(PacketSwitchedEventReporting::MobileStationDeactivate)
    } else if t == "NW PDN DEACT"@ {
        Some(PacketSwitchedEventReporting::NetworkPDNDeactivate)
    } else if t == "ME PDN DEACT"@ {
        Some(PacketSwitchedEventReporting::MobileStationPDNDeactivate)
    } else {
        None
    }
}

impl PacketSwitchedEventReporting {
    /// The event that the text `t` names, if any.
    pub fn from_token(t: &[char]) -> (r: Option<Self>)
        ensures
            r == event_named(t@),
    {
        if spells(t, "NW DETACH") {
            Some(PacketSwitchedEventReporting::NetworkDetach)
        } else if spells(t, "ME DETACH") {
            Some(PacketSwitchedEventReporting::MobileStationDetach)
        } else if spells(t, "NW DEACT") {
            Some(PacketSwitchedEventReporting::NetworkDeactivate)
        } else if spells(t, "ME DEACT") {
            Some(PacketSwitchedEventReporting::MobileStationDeactivate)
        } else if spells(t, "NW PDN DEACT") {
            Some(PacketSwitchedEventReporting::NetworkPDNDeactivate)
        } else if spells(t, "ME PDN DEACT") {
            Some(PacketSwitchedEventReporting::MobileStationPDNDeactivate)
        } else {
            None
        }
    }

    /// The event that the response text `resp` reports, if any.
    pub fn parse(resp: &[u8]) -> (r: Option<Self>)
        ensures
            r == event_named(at_body(latin1(resp@))),
    {
        let c = chars_of_bytes(resp);
        let b = body_of(c.as_slice());
        Self::from_token(b.as_slice())
    }
}

/// Each event is read back from its own text.
pub proof fn lemma_event_token_round_trip(e: PacketSwitchedEventReporting)
    ensures
        event_named(e.spec_token()) == Some(e),
{
    let t = e.spec_token();
    match e {
        PacketSwitchedEventReporting::NetworkDetach => {
        },
        PacketSwitchedEventReporting::MobileStationDetach => {
            reveal_strlit("ME DETACH");
            reveal_strlit("NW DETACH");
            assert(t[0] != "NW DETACH"@[0]);
        },
        PacketSwitchedEventReporting::NetworkDeactivate => {
            reveal_strlit("NW DEACT");
            reveal_strlit("NW DETACH");
            assert(t.len() != "NW DETACH"@.len());
            reveal_strlit("ME DETACH");
            assert(t.len() != "ME DETACH"@.len());
        },
        PacketSwitchedEventReporting::MobileStationDeactivate => {
            reveal_strlit("ME DEACT");
            reveal_strlit("NW DETACH");
            assert(t.len() != "NW DETACH"@.len());
            reveal_strlit("ME DETACH");
            assert(t.len() != "ME DETACH"@.len());
            reveal_strlit("NW DEACT");
            assert(t[0] != "NW DEACT"@[0]);
        },
        PacketSwitchedEventReporting::NetworkPDNDeactivate => {
            reveal_strlit("NW PDN DEACT");
            reveal_strlit("NW DETACH");
            assert(t.len() != "NW DETACH"@.len());
            reveal_strlit("ME DETACH");
            assert(t.len() != "ME DETACH"@.len());
            reveal_strlit("NW DEACT");
            assert(t.len() != "NW DEACT"@.len());
            reveal_strlit("ME DEACT");
            assert(t.len() != "ME DEACT"@.len());
        },
        PacketSwitchedEventReporting::MobileStationPDNDeactivate => {
            reveal_strlit("ME PDN DEACT");
            reveal_strlit("NW DETACH");
            assert(t.len() != "NW DETACH"@.len());
            reveal_strlit("ME DETACH");
            assert(t.len() != "ME DETACH"@.len());
            reveal_strlit("NW DEACT");
            assert(t.len() != "NW DEACT"@.len());
            reveal_strlit("ME DEACT");
            assert(t.len() != "ME DEACT"@.len());
            reveal_strlit("NW PDN DEACT");
            assert(t[0] != "NW PDN DEACT"@[0]);
        },
    }
}

/// `+UUPSDA`: the result of a PSD profile activation.
#[derive(Debug, Clone, Copy, PartialEq, Eq, Structural)]
pub struct DataConnectionActivated {
    pub result: u8,
}

/// `+UUPSDD`: a PSD profile was deactivated.
#[derive(Debug, Clone, Copy, PartialEq, Eq, Structural)]
pub struct DataConnectionDeactivated {
    pub profile_id: u8,
}

/// `+UREG`: extended packet switched network registration state.
#[derive(Debug, Clone, Copy, PartialEq, Eq, Structural)]
pub struct ExtendedPSNetworkRegistration {
    pub state: u8,
}

/// The activation result that the value text `body` holds, if any: 1 comma separated
/// decimal field.
pub open spec fn activation_of(body: Seq<char>) -> Option<DataConnectionActivated> {
    if fields(body).len() == 1 && num_field(body, 0, 255) is Some {
        Some(DataConnectionActivated { result: num_field(body, 0, 255)->0 as u8 })
    } else {
        None
    }
}

impl DataConnectionActivated {
    /// The activation result that the value text `body` holds, if any.
    pub fn from_fields(body: &[char]) -> (r: Option<Self>)
        ensures
            r == activation_of(body@),
    {
        let f = split_fields(body);
        if f.len() != 1 {
            return None;
        }
        let v0 = match number_field(&f, 0, 255) {
            Some(v) => v,
            None => {
                return None;
            },
        };
        Some(DataConnectionActivated { result: v0 as u8 })
    }
}

/// The deactivation notice that the value text `body` holds, if any: 1 comma separated
/// decimal field.
pub open spec fn deactivation_of(body: Seq<char>) -> Option<DataConnectionDeactivated> {
    if fields(body).len() == 1 && num_field(body, 0, 255) is Some {
        Some(DataConnectionDeactivated { profile_id: num_field(body, 0, 255)->0 as u8 })
    } else {
        None
    }
}

impl DataConnectionDeactivated {
    /// The deactivation notice that the value text `body` holds, if any.
    pub fn from_fields(body: &[char]) -> (r: Option<Self>)
        ensures
            r == deactivation_of(body@),
    {
        let f = split_fields(body);
        if f.len() != 1 {
            return None;
        }
        let v0 = match number_field(&f, 0, 255) {
            Some(v) => v,
            None => {
                return None;
            },
        };
        Some(DataConnectionDeactivated { profile_id: v0 as u8 })
    }
}

/// The registration state that the value text `body` holds, if any: 1 comma separated
/// decimal field.
pub open spec fn ureg_of(body: Seq<char>) -> Option<ExtendedPSNetworkRegistration> {
    if fields(body).len() == 1 && num_field(body, 0, 255) is Some {
        Some(ExtendedPSNetworkRegistration { state: num_field(body, 0, 255)->0 as u8 })
    } else {
        None
    }
}

impl ExtendedPSNetworkRegistration {
    /// The registration state that the value text `body` holds, if any.
    pub fn from_fields(body: &[char]) -> (r: Option<Self>)
        ensures
            r == ureg_of(body@),
    {
        let f = split_fields(body);
        if f.len() != 1 {
            return None;
        }
        let v0 = match number_field(&f, 0, 255) {
            Some(v) => v,
            None => {
                return None;
            },
        };
        Some(ExtendedPSNetworkRegistration { state: v0 as u8 })
    }
}

/// The parameter of a PSD profile to read (`+UPSD`).
#[derive(Debug, Clone, Copy, PartialEq, Eq, Structural)]
pub enum PacketSwitchedParamReq {
    ProtocolType,
    APN,
    Username,
    Password,
    DNS1,
    DNS2,
    Authentication,
    IPAddress,
    DataCompression,
    HeaderCompression,
    QoSPrecedence,
    QoSDelay,
    QoSReliability,
    /// The context that the profile maps to (tag 100).
    MapProfile,
    UNUSED,
}

impl PacketSwitchedParamReq {
    /// The number that stands for the value in a command or response.
    pub open spec fn spec_value(self) -> u8 {
        match self {
            PacketSwitchedParamReq::ProtocolType => 0,
            PacketSwitchedParamReq::APN => 1,
            PacketSwitchedParamReq::Username => 2,
            PacketSwitchedParamReq::Password => 3,
            PacketSwitchedParamReq::DNS1 => 4,
            PacketSwitchedParamReq::DNS2 => 5,
            PacketSwitchedParamReq::Authentication => 6,
            PacketSwitchedParamReq::IPAddress => 7,
            PacketSwitchedParamReq::DataCompression => 8,
            PacketSwitchedParamReq::HeaderCompression => 9,
            PacketSwitchedParamReq::QoSPrecedence => 10,
            PacketSwitchedParamReq::QoSDelay => 11,
            PacketSwitchedParamReq::QoSReliability => 12,
            PacketSwitchedParamReq::MapProfile => 100,
            PacketSwitchedParamReq::UNUSED => 255,
        }
    }

    /// The value that the number `v` stands for, if any.
    pub open spec fn spec_from_value(v: u8) -> Option<PacketSwitchedParamReq> {
        if v == 0 {
            Some(PacketSwitchedParamReq::ProtocolType)
        } else if v == 1 {
            Some(PacketSwitchedParamReq::APN)
        } else if v == 2 {
            Some(PacketSwitchedParamReq::Username)
        } else if v == 3 {
            Some(PacketSwitchedParamReq::Password)
        } else if v == 4 {
            Some(PacketSwitchedParamReq::DNS1)
        } else if v == 5 {
            Some(PacketSwitchedParamReq::DNS2)
        } else if v == 6 {
            Some(PacketSwitchedParamReq::Authentication)
        } else if v == 7 {
            Some(PacketSwitchedParamReq::IPAddress)
        } else if v == 8 {
            Some(PacketSwitchedParamReq::DataCompression)
        } else if v == 9 {
            Some(PacketSwitchedParamReq::HeaderCompression)
        } else if v == 10 {
            Some(PacketSwitchedParamReq::QoSPrecedence)
        } else if v == 11 {
            Some(PacketSwitchedParamReq::QoSDelay)
        } else if v == 12 {
            Some(PacketSwitchedParamReq::QoSReliability)
        } else if v == 100 {
            Some(PacketSwitchedParamReq::MapProfile)
        } else if v == 255 {
            Some(PacketSwitchedParamReq::UNUSED)
        } else {
            None
        }
    }

    /// The number that stands for the value; the value is read back from it.
    pub fn value(&self) -> (r: u8)
        ensures
            r == self.spec_value(),
            Self::spec_from_value(r) == Some(*self),
    {
        match self {
            PacketSwitchedParamReq::ProtocolType => 0,
            PacketSwitchedParamReq::APN => 1,
            PacketSwitchedParamReq::Username => 2,
            PacketSwitchedParamReq::Password => 3,
            PacketSwitchedParamReq::DNS1 => 4,
            PacketSwitchedParamReq::DNS2 => 5,
            PacketSwitchedParamReq::Authentication => 6,
            PacketSwitchedParamReq::IPAddress => 7,
            PacketSwitchedParamReq::DataCompression => 8,
            PacketSwitchedParamReq::HeaderCompression => 9,
            PacketSwitchedParamReq::QoSPrecedence => 10,
            PacketSwitchedParamReq::QoSDelay => 11,
            PacketSwitchedParamReq::QoSReliability => 12,
            PacketSwitchedParamReq::MapProfile => 100,
            PacketSwitchedParamReq::UNUSED => 255,
        }
    }

    /// The value that the number `v` stands for, if any; its number is `v`.
    pub fn from_value(v: u8) -> (r: Option<Self>)
        ensures
            r == Self::spec_from_value(v),
            r matches Some(e) ==> e.spec_value() == v,
    {
        if v == 0 {
            Some(PacketSwitchedParamReq::ProtocolType)
        } else if v == 1 {
            Some(PacketSwitchedParamReq::APN)
        } else if v == 2 {
            Some(PacketSwitchedParamReq::Username)
        } else if v == 3 {
            Some(PacketSwitchedParamReq::Password)
        } else if v == 4 {
            Some(PacketSwitchedParamReq::DNS1)
        } else if v == 5 {
            Some(PacketSwitchedParamReq::DNS2)
        } else if v == 6 {
            Some(PacketSwitchedParamReq::Authentication)
        } else if v == 7 {
            Some(PacketSwitchedParamReq::IPAddress)
        } else if v == 8 {
            Some(PacketSwitchedParamReq::DataCompression)
        } else if v == 9 {
            Some(PacketSwitchedParamReq::HeaderCompression)
        } else if v == 10 {
            Some(PacketSwitchedParamReq::QoSPrecedence)
        } else if v == 11 {
            Some(PacketSwitchedParamReq::QoSDelay)
        } else if v == 12 {
            Some(PacketSwitchedParamReq::QoSReliability)
        } else if v == 100 {
            Some(PacketSwitchedParamReq::MapProfile)
        } else if v == 255 {
            Some(PacketSwitchedParamReq::UNUSED)
        } else {
            None
        }
    }
}

/// The protocol of a PSD profile.
#[derive(Debug, Clone, Copy, PartialEq, Eq, Structural)]
pub enum ProtocolType {
    IPv4,
    IPv6,
    IPv4v6PreferV4Internal,
    IPv4v6PreferV6Internal,
}

impl ProtocolType {
    /// The number that stands for the value in a command or response.
    pub open spec fn spec_value(self) -> u8 {
        match self {
            ProtocolType::IPv4 => 0,
            ProtocolType::IPv6 => 1,
            ProtocolType::IPv4v6PreferV4Internal => 2,
            ProtocolType::IPv4v6PreferV6Internal => 3,
        }
    }

    /// The value that the number `v` stands for, if any.
    pub open spec fn spec_from_value(v: u8) -> Option<ProtocolType> {
        if v == 0 {
            Some(ProtocolType::IPv4)
        } else if v == 1 {
            Some(ProtocolType::IPv6)
        } else if v == 2 {
            Some(ProtocolType::IPv4v6PreferV4Internal)
        } else if v == 3 {
            Some(ProtocolType::IPv4v6PreferV6Internal)
        } else {
            None
        }
    }

    /// The number that stands for the value; the value is read back from it.
    pub fn value(&self) -> (r: u8)
        ensures
            r == self.spec_value(),
            Self::spec_from_value(r) == Some(*self),
    {
        match self {
            ProtocolType::IPv4 => 0,
            ProtocolType::IPv6 => 1,
            ProtocolType::IPv4v6PreferV4Internal => 2,
            ProtocolType::IPv4v6PreferV6Internal => 3,
        }
    }

    /// The value that the number `v` stands for, if any; its number is `v`.
    pub fn from_value(v: u8) -> (r: Option<Self>)
        ensures
            r == Self::spec_from_value(v),
            r matches Some(e) ==> e.spec_value() == v,
    {
        if v == 0 {
            Some(ProtocolType::IPv4)
        } else if v == 1 {
            Some(ProtocolType::IPv6)
        } else if v == 2 {
            Some(ProtocolType::IPv4v6PreferV4Internal)
        } else if v == 3 {
            Some(ProtocolType::IPv4v6PreferV6Internal)
        } else {
            None
        }
    }
}

/// The authentication of a PSD profile; `NoAuthentication` is the value 0 (none).
#[derive(Debug, Clone, Copy, PartialEq, Eq, Structural)]
pub enum AuthenticationType {
    NoAuthentication,
    PAP,
    CHAP,
    Auto,
}

impl AuthenticationType {
    /// The number that stands for the value in a command or response.
    pub open spec fn spec_value(self) -> u8 {
        match self {
            AuthenticationType::NoAuthentication => 0,
            AuthenticationType::PAP => 1,
            AuthenticationType::CHAP => 2,
            AuthenticationType::Auto => 3,
        }
    }

    /// The value that the number `v` stands for, if any.
    pub open spec fn spec_from_value(v: u8) -> Option<AuthenticationType> {
        if v == 0 {
            Some(AuthenticationType::NoAuthentication)
        } else if v == 1 {
            Some(AuthenticationType::PAP)
        } else if v == 2 {
            Some(AuthenticationType::CHAP)
        } else if v == 3 {
            Some(AuthenticationType::Auto)
        } else {
            None
        }
    }

    /// The number that stands for the value; the value is read back from it.
    pub fn value(&self) -> (r: u8)
        ensures
            r == self.spec_value(),
            Self::spec_from_value(r) == Some(*self),
    {
        match self {
            AuthenticationType::NoAuthentication => 0,
            AuthenticationType::PAP => 1,
            AuthenticationType::CHAP => 2,
            AuthenticationType::Auto => 3,
        }
    }

    /// The value that the number `v` stands for, if any; its number is `v`.
    pub fn from_value(v: u8) -> (r: Option<Self>)
        ensures
            r == Self::spec_from_value(v),
            r matches Some(e) ==> e.spec_value() == v,
    {
        if v == 0 {
            Some(AuthenticationType::NoAuthentication)
        } else if v == 1 {
            Some(AuthenticationType::PAP)
        } else if v == 2 {
            Some(AuthenticationType::CHAP)
        } else if v == 3 {
            Some(AuthenticationType::Auto)
        } else {
            None
        }
    }
}

/// Data compression of a PSD profile.
#[derive(Debug, Clone, Copy, PartialEq, Eq, Structural)]
pub enum DataCompression {
    Off,
    Predefined,
    V42Bits,
}

impl DataCompression {
    /// The number that stands for the value in a command or response.
    pub open spec fn spec_value(self) -> u8 {
        match self {
            DataCompression::Off => 0,
            DataCompression::Predefined => 1,
            DataCompression::V42Bits => 2,
        }
    }

    /// The value that the number `v` stands for, if any.
    pub open spec fn spec_from_value(v: u8) -> Option<DataCompression> {
        if v == 0 {
            Some(DataCompression::Off)
        } else if v == 1 {
            Some(DataCompression::Predefined)
        } else if v == 2 {
            Some(DataCompression::V42Bits)
        } else {
            None
        }
    }

    /// The number that stands for the value; the value is read back from it.
    pub fn value(&self) -> (r: u8)
        ensures
            r == self.spec_value(),
            Self::spec_from_value(r) == Some(*self),
    {
        match self {
            DataCompression::Off => 0,
            DataCompression::Predefined => 1,
            DataCompression::V42Bits => 2,
        }
    }

    /// The value that the number `v` stands for, if any; its number is `v`.
    pub fn from_value(v: u8) -> (r: Option<Self>)
        ensures
            r == Self::spec_from_value(v),
            r matches Some(e) ==> e.spec_value() == v,
    {
        if v == 0 {
            Some(DataCompression::Off)
        } else if v == 1 {
            Some(DataCompression::Predefined)
        } else if v == 2 {
            Some(DataCompression::V42Bits)
        } else {
            None
        }
    }
}

/// Header compression of a PSD profile.
#[derive(Debug, Clone, Copy, PartialEq, Eq, Structural)]
pub enum HeaderCompression {
    Off,
    Predefined,
    RFC1144,
    RFC2507,
    RFC3095,
}

impl HeaderCompression {
    /// The number that stands for the value in a command or response.
    pub open spec fn spec_value(self) -> u8 {
        match self {
            HeaderCompression::Off => 0,
            HeaderCompression::Predefined => 1,
            HeaderCompression::RFC1144 => 2,
            HeaderCompression::RFC2507 => 3,
            HeaderCompression::RFC3095 => 4,
        }
    }

    /// The value that the number `v` stands for, if any.
    pub open spec fn spec_from_value(v: u8) -> Option<HeaderCompression> {
        if v == 0 {
            Some(HeaderCompression::Off)
        } else if v == 1 {
            Some(HeaderCompression::Predefined)
        } else if v == 2 {
            Some(HeaderCompression::RFC1144)
        } else if v == 3 {
            Some(HeaderCompression::RFC2507)
        } else if v == 4 {
            Some(HeaderCompression::RFC3095)
        } else {
            None
        }
    }

    /// The number that stands for the value; the value is read back from it.
    pub fn value(&self) -> (r: u8)
        ensures
            r == self.spec_value(),
            Self::spec_from_value(r) == Some(*self),
    {
        match self {
            HeaderCompression::Off => 0,
            HeaderCompression::Predefined => 1,
            HeaderCompression::RFC1144 => 2,
            HeaderCompression::RFC2507 => 3,
            HeaderCompression::RFC3095 => 4,
        }
    }

    /// The value that the number `v` stands for, if any; its number is `v`.
    pub fn from_value(v: u8) -> (r: Option<Self>)
        ensures
            r == Self::spec_from_value(v),
            r matches Some(e) ==> e.spec_value() == v,
    {
        if v == 0 {
            Some(HeaderCompression::Off)
        } else if v == 1 {
            Some(HeaderCompression::Predefined)
        } else if v == 2 {
            Some(HeaderCompression::RFC1144)
        } else if v == 3 {
            Some(HeaderCompression::RFC2507)
        } else if v == 4 {
            Some(HeaderCompression::RFC3095)
        } else {
            None
        }
    }
}

/// QoS precedence class of a PSD profile.
#[derive(Debug, Clone, Copy, PartialEq, Eq, Structural)]
pub enum QoSPrecedence {
    Subscribed,
    High,
    Normal,
    Low,
}

impl QoSPrecedence {
    /// The number that stands for the value in a command or response.
    pub open spec fn spec_value(self) -> u8 {
        match self {
            QoSPrecedence::Subscribed => 0,
            QoSPrecedence::High => 1,
            QoSPrecedence::Normal => 2,
            QoSPrecedence::Low => 3,
        }
    }

    /// The value that the number `v` stands for, if any.
    pub open spec fn spec_from_value(v: u8) -> Option<QoSPrecedence> {
        if v == 0 {
            Some(QoSPrecedence::Subscribed)
        } else if v == 1 {
            Some(QoSPrecedence::High)
        } else if v == 2 {
            Some(QoSPrecedence::Normal)
        } else if v == 3 {
            Some(QoSPrecedence::Low)
        } else {
            None
        }
    }

    /// The number that stands for the value; the value is read back from it.
    pub fn value(&self) -> (r: u8)
        ensures
            r == self.spec_value(),
            Self::spec_from_value(r) == Some(*self),
    {
        match self {
            QoSPrecedence::Subscribed => 0,
            QoSPrecedence::High => 1,
            QoSPrecedence::Normal => 2,
            QoSPrecedence::Low => 3,
        }
    }

    /// The value that the number `v` stands for, if any; its number is `v`.
    pub fn from_value(v: u8) -> (r: Option<Self>)
        ensures
            r == Self::spec_from_value(v),
            r matches Some(e) ==> e.spec_value() == v,
    {
        if v == 0 {
            Some(QoSPrecedence::Subscribed)
        } else if v == 1 {
            Some(QoSPrecedence::High)
        } else if v == 2 {
            Some(QoSPrecedence::Normal)
        } else if v == 3 {
            Some(QoSPrecedence::Low)
        } else {
            None
        }
    }
}

/// QoS delay class of a PSD profile.
#[derive(Debug, Clone, Copy, PartialEq, Eq, Structural)]
pub enum QoSDelay {
    Subscribed,
    Class1,
    Class2,
    Class3,
    BestEffort,
}

impl QoSDelay {
    /// The number that stands for the value in a command or response.
    pub open spec fn spec_value(self) -> u8 {
        match self {
            QoSDelay::Subscribed => 0,
            QoSDelay::Class1 => 1,
            QoSDelay::Class2 => 2,
            QoSDelay::Class3 => 3,
            QoSDelay::BestEffort => 4,
        }
    }

    /// The value that the number `v` stands for, if any.
    pub open spec fn spec_from_value(v: u8) -> Option<QoSDelay> {
        if v == 0 {
            Some(QoSDelay::Subscribed)
        } else if v == 1 {
            Some(QoSDelay::Class1)
        } else if v == 2 {
            Some(QoSDelay::Class2)
        } else if v == 3 {
            Some(QoSDelay::Class3)
        } else if v == 4 {
            Some(QoSDelay::BestEffort)
        } else {
            None
        }
    }

    /// The number that stands for the value; the value is read back from it.
    pub fn value(&self) -> (r: u8)
        ensures
            r == self.spec_value(),
            Self::spec_from_value(r) == Some(*self),
    {
        match self {
            QoSDelay::Subscribed => 0,
            QoSDelay::Class1 => 1,
            QoSDelay::Class2 => 2,
            QoSDelay::Class3 => 3,
            QoSDelay::BestEffort => 4,
        }
    }

    /// The value that the number `v` stands for, if any; its number is `v`.
    pub fn from_value(v: u8) -> (r: Option<Self>)
        ensures
            r == Self::spec_from_value(v),
            r matches Some(e) ==> e.spec_value() == v,
    {
        if v == 0 {
            Some(QoSDelay::Subscribed)
        } else if v == 1 {
            Some(QoSDelay::Class1)
        } else if v == 2 {
            Some(QoSDelay::Class2)
        } else if v == 3 {
            Some(QoSDelay::Class3)
        } else if v == 4 {
            Some(QoSDelay::BestEffort)
        } else {
            None
        }
    }
}

/// QoS reliability class of a PSD profile.
#[derive(Debug, Clone, Copy, PartialEq, Eq, Structural)]
pub enum QoSReliability {
    Subscribed,
    Class1,
    Class2,
    Class3,
    Class4,
    Class5,
    Class6,
}

impl QoSReliability {
    /// The number that stands for the value in a command or response.
    pub open spec fn spec_value(self) -> u8 {
        match self {
            QoSReliability::Subscribed => 0,
            QoSReliability::Class1 => 1,
            QoSReliability::Class2 => 2,
            QoSReliability::Class3 => 3,
            QoSReliability::Class4 => 4,
            QoSReliability::Class5 => 5,
            QoSReliability::Class6 => 6,
        }
    }

    /// The value that the number `v` stands for, if any.
    pub open spec fn spec_from_value(v: u8) -> Option<QoSReliability> {
        if v == 0 {
            Some(QoSReliability::Subscribed)
        } else if v == 1 {
            Some(QoSReliability::Class1)
        } else if v == 2 {
            Some(QoSReliability::Class2)
        } else if v == 3 {
            Some(QoSReliability::Class3)
        } else if v == 4 {
            Some(QoSReliability::Class4)
        } else if v == 5 {
            Some(QoSReliability::Class5)
        } else if v == 6 {
            Some(QoSReliability::Class6)
        } else {
            None
        }
    }

    /// The number that stands for the value; the value is read back from it.
    pub fn value(&self) -> (r: u8)
        ensures
            r == self.spec_value(),
            Self::spec_from_value(r) == Some(*self),
    {
        match self {
            QoSReliability::Subscribed => 0,
            QoSReliability::Class1 => 1,
            QoSReliability::Class2 => 2,
            QoSReliability::Class3 => 3,
            QoSReliability::Class4 => 4,
            QoSReliability::Class5 => 5,
            QoSReliability::Class6 => 6,
        }
    }

    /// The value that the number `v` stands for, if any; its number is `v`.
    pub fn from_value(v: u8) -> (r: Option<Self>)
        ensures
            r == Self::spec_from_value(v),
            r matches Some(e) ==> e.spec_value() == v,
    {
        if v == 0 {
            Some(QoSReliability::Subscribed)
        } else if v == 1 {
            Some(QoSReliability::Class1)
        } else if v == 2 {
            Some(QoSReliability::Class2)
        } else if v == 3 {
            Some(QoSReliability::Class3)
        } else if v == 4 {
            Some(QoSReliability::Class4)
        } else if v == 5 {
            Some(QoSReliability::Class5)
        } else if v == 6 {
            Some(QoSReliability::Class6)
        } else {
            None
        }
    }
}

/// An action on a PSD profile (`+UPSDA`).
#[derive(Debug, Clone, Copy, PartialEq, Eq, Structural)]
pub enum PacketSwitchedAction {
    Reset,
    Store,
    Load,
    Activate,
    Deactivate,
}

impl PacketSwitchedAction {
    /// The number that stands for the value in a command or response.
    pub open spec fn spec_value(self) -> u8 {
        match self {
            PacketSwitchedAction::Reset => 0,
            PacketSwitchedAction::Store => 1,
            PacketSwitchedAction::Load => 2,
            PacketSwitchedAction::Activate => 3,
            PacketSwitchedAction::Deactivate => 4,
        }
    }

    /// The value that the number `v` stands for, if any.
    pub open spec fn spec_from_value(v: u8) -> Option<PacketSwitchedAction> {
        if v == 0 {
            Some(PacketSwitchedAction::Reset)
        } else if v == 1 {
            Some(PacketSwitchedAction::Store)
        } else if v == 2 {
            Some(PacketSwitchedAction::Load)
        } else if v == 3 {
            Some(PacketSwitchedAction::Activate)
        } else if v == 4 {
            Some(PacketSwitchedAction::Deactivate)
        } else {
            None
        }
    }

    /// The number that stands for the value; the value is read back from it.
    pub fn value(&self) -> (r: u8)
        ensures
            r == self.spec_value(),
            Self::spec_from_value(r) == Some(*self),
    {
        match self {
            PacketSwitchedAction::Reset => 0,
            PacketSwitchedAction::Store => 1,
            PacketSwitchedAction::Load => 2,
            PacketSwitchedAction::Activate => 3,
            PacketSwitchedAction::Deactivate => 4,
        }
    }

    /// The value that the number `v` stands for, if any; its number is `v`.
    pub fn from_value(v: u8) -> (r: Option<Self>)
        ensures
            r == Self::spec_from_value(v),
            r matches Some(e) ==> e.spec_value() == v,
    {
        if v == 0 {
            Some(PacketSwitchedAction::Reset)
        } else if v == 1 {
            Some(PacketSwitchedAction::Store)
        } else if v == 2 {
            Some(PacketSwitchedAction::Load)
        } else if v == 3 {
            Some(PacketSwitchedAction::Activate)
        } else if v == 4 {
            Some(PacketSwitchedAction::Deactivate)
        } else {
            None
        }
    }
}

/// The network assigned datum of a PSD profile to read (`+UPSND`).
#[derive(Debug, Clone, Copy, PartialEq, Eq, Structural)]
pub enum PacketSwitchedNetworkDataParam {
    IPAddress,
    DNS1,
    DNS2,
    QoSPrecedence,
    QoSDelay,
    QoSReliability,
    QoSPeakRate,
    QoSMeanRate,
    PsdProfileStatus,
    QoS3GDeliveryOrder,
    QoS3GTransferDelay,
}

impl PacketSwitchedNetworkDataParam {
    /// The number that stands for the value in a command or response.
    pub open spec fn spec_value(self) -> u8 {
        match self {
            PacketSwitchedNetworkDataParam::IPAddress => 0,
            PacketSwitchedNetworkDataParam::DNS1 => 1,
            PacketSwitchedNetworkDataParam::DNS2 => 2,
            PacketSwitchedNetworkDataParam::QoSPrecedence => 3,
            PacketSwitchedNetworkDataParam::QoSDelay => 4,
            PacketSwitchedNetworkDataParam::QoSReliability => 5,
            PacketSwitchedNetworkDataParam::QoSPeakRate => 6,
            PacketSwitchedNetworkDataParam::QoSMeanRate => 7,
            PacketSwitchedNetworkDataParam::PsdProfileStatus => 8,
            PacketSwitchedNetworkDataParam::QoS3GDeliveryOrder => 9,
            PacketSwitchedNetworkDataParam::QoS3GTransferDelay => 24,
        }
    }

    /// The value that the number `v` stands for, if any.
    pub open spec fn spec_from_value(v: u8) -> Option<PacketSwitchedNetworkDataParam> {
        if v == 0 {
            Some(PacketSwitchedNetworkDataParam::IPAddress)
        } else if v == 1 {
            Some(PacketSwitchedNetworkDataParam::DNS1)
        } else if v == 2 {
            Some(PacketSwitchedNetworkDataParam::DNS2)
        } else if v == 3 {
            Some(PacketSwitchedNetworkDataParam::QoSPrecedence)
        } else if v == 4 {
            Some(PacketSwitchedNetworkDataParam::QoSDelay)
        } else if v == 5 {
            Some(PacketSwitchedNetworkDataParam::QoSReliability)
        } else if v == 6 {
            Some(PacketSwitchedNetworkDataParam::QoSPeakRate)
        } else if v == 7 {
            Some(PacketSwitchedNetworkDataParam::QoSMeanRate)
        } else if v == 8 {
            Some(PacketSwitchedNetworkDataParam::PsdProfileStatus)
        } else if v == 9 {
            Some(PacketSwitchedNetworkDataParam::QoS3GDeliveryOrder)
        } else if v == 24 {
            Some(PacketSwitchedNetworkDataParam::QoS3GTransferDelay)
        } else {
            None
        }
    }

    /// The number that stands for the value; the value is read back from it.
    pub fn value(&self) -> (r: u8)
        ensures
            r == self.spec_value(),
            Self::spec_from_value(r) == Some(*self),
    {
        match self {
            PacketSwitchedNetworkDataParam::IPAddress => 0,
            PacketSwitchedNetworkDataParam::DNS1 => 1,
            PacketSwitchedNetworkDataParam::DNS2 => 2,
            PacketSwitchedNetworkDataParam::QoSPrecedence => 3,
            PacketSwitchedNetworkDataParam::QoSDelay => 4,
            PacketSwitchedNetworkDataParam::QoSReliability => 5,
            PacketSwitchedNetworkDataParam::QoSPeakRate => 6,
            PacketSwitchedNetworkDataParam::QoSMeanRate => 7,
            PacketSwitchedNetworkDataParam::PsdProfileStatus => 8,
            PacketSwitchedNetworkDataParam::QoS3GDeliveryOrder => 9,
            PacketSwitchedNetworkDataParam::QoS3GTransferDelay => 24,
        }
    }

    /// The value that the number `v` stands for, if any; its number is `v`.
    pub fn from_value(v: u8) -> (r: Option<Self>)
        ensures
            r == Self::spec_from_value(v),
            r matches Some(e) ==> e.spec_value() == v,
    {
        if v == 0 {
            Some(PacketSwitchedNetworkDataParam::IPAddress)
        } else if v == 1 {
            Some(PacketSwitchedNetworkDataParam::DNS1)
        } else if v == 2 {
            Some(PacketSwitchedNetworkDataParam::DNS2)
        } else if v == 3 {
            Some(PacketSwitchedNetworkDataParam::QoSPrecedence)
        } else if v == 4 {
            Some(PacketSwitchedNetworkDataParam::QoSDelay)
        } else if v == 5 {
            Some(PacketSwitchedNetworkDataParam::QoSReliability)
        } else if v == 6 {
            Some(PacketSwitchedNetworkDataParam::QoSPeakRate)
        } else if v == 7 {
            Some(PacketSwitchedNetworkDataParam::QoSMeanRate)
        } else if v == 8 {
            Some(PacketSwitchedNetworkDataParam::PsdProfileStatus)
        } else if v == 9 {
            Some(PacketSwitchedNetworkDataParam::QoS3GDeliveryOrder)
        } else if v == 24 {
            Some(PacketSwitchedNetworkDataParam::QoS3GTransferDelay)
        } else {
            None
        }
    }
}

/// GPRS attach state (`+CGATT`).
#[derive(Debug, Clone, Copy, PartialEq, Eq, Structural)]
pub enum GPRSAttachedState {
    Detached,
    Attached,
}

impl GPRSAttachedState {
    /// The number that stands for the value in a command or response.
    pub open spec fn spec_value(self) -> u8 {
        match self {
            GPRSAttachedState::Detached => 0,
            GPRSAttachedState::Attached => 1,
        }
    }

    /// The value that the number `v` stands for, if any.
    pub open spec fn spec_from_value(v: u8) -> Option<GPRSAttachedState> {
        if v == 0 {
            Some(GPRSAttachedState::Detached)
        } else if v == 1 {
            Some(GPRSAttachedState::Attached)
        } else {
            None
        }
    }

    /// The number that stands for the value; the value is read back from it.
    pub fn value(&self) -> (r: u8)
        ensures
            r == self.spec_value(),
            Self::spec_from_value(r) == Some(*self),
    {
        match self {
            GPRSAttachedState::Detached => 0,
            GPRSAttachedState::Attached => 1,
        }
    }

    /// The value that the number `v` stands for, if any; its number is `v`.
    pub fn from_value(v: u8) -> (r: Option<Self>)
        ensures
            r == Self::spec_from_value(v),
            r matches Some(e) ==> e.spec_value() == v,
    {
        if v == 0 {
            Some(GPRSAttachedState::Detached)
        } else if v == 1 {
            Some(GPRSAttachedState::Attached)
        } else {
            None
        }
    }
}

/// A parameter of a PSD profile, with its value (`+UPSD`).
#[derive(Debug, Clone, PartialEq, Eq)]
pub enum PacketSwitchedParam {
    /// The protocol type.
    ProtocolType(ProtocolType),
    /// The access point name.
    APN(String),
    /// The user name for the authentication.
    Username(String),
    /// The password for the authentication.
    Password(String),
    /// The primary DNS address.
    DNS1(IpAddr),
    /// The secondary DNS address.
    DNS2(IpAddr),
    /// The authentication type.
    Authentication(AuthenticationType),
    /// The static IP address; `0.0.0.0` asks for one assigned on activation.
    IPAddress(IpAddr),
    /// The data compression.
    DataCompression(DataCompression),
    /// The header compression.
    HeaderCompression(HeaderCompression),
    /// The QoS precedence class.
    QoSPrecedence(QoSPrecedence),
    /// The QoS delay class.
    QoSDelay(QoSDelay),
    /// The QoS reliability class.
    QoSReliability(QoSReliability),
    /// Map the profile to the PDP context with this identifier.
    MapProfile(ContextId),
    UNUSED,
}

impl PacketSwitchedParam {
    /// The tag of the parameter on the command line: its place in the list
    /// of parameters.
    pub open spec fn spec_tag(&self) -> nat {
        match self {
            PacketSwitchedParam::ProtocolType(_) => 0,
            PacketSwitchedParam::APN(_) => 1,
            PacketSwitchedParam::Username(_) => 2,
            PacketSwitchedParam::Password(_) => 3,
            PacketSwitchedParam::DNS1(_) => 4,
            PacketSwitchedParam::DNS2(_) => 5,
            PacketSwitchedParam::Authentication(_) => 6,
            PacketSwitchedParam::IPAddress(_) => 7,
            PacketSwitchedParam::DataCompression(_) => 8,
            PacketSwitchedParam::HeaderCompression(_) => 9,
            PacketSwitchedParam::QoSPrecedence(_) => 10,
            PacketSwitchedParam::QoSDelay(_) => 11,
            PacketSwitchedParam::QoSReliability(_) => 12,
            PacketSwitchedParam::MapProfile(_) => 100,
            PacketSwitchedParam::UNUSED => 13,
        }
    }

    /// The arguments that write the parameter: its tag, then its value
    /// (a number for a choice, a quoted string for a text or an address);
    /// `UNUSED` has no value.
    pub open spec fn spec_args(&self) -> Seq<Seq<char>> {
        let tag = decimal_text(self.spec_tag());
        match self {
            PacketSwitchedParam::ProtocolType(v) => seq![tag, decimal_text(v.spec_value() as nat)],
            PacketSwitchedParam::APN(t) => seq![tag, quoted(t@)],
            PacketSwitchedParam::Username(t) => seq![tag, quoted(t@)],
            PacketSwitchedParam::Password(t) => seq![tag, quoted(t@)],
            PacketSwitchedParam::DNS1(ip) => seq![tag, quoted(ip_text(*ip))],
            PacketSwitchedParam::DNS2(ip) => seq![tag, quoted(ip_text(*ip))],
            PacketSwitchedParam::Authentication(v) => seq![tag, decimal_text(v.spec_value() as nat)],
            PacketSwitchedParam::IPAddress(ip) => seq![tag, quoted(ip_text(*ip))],
            PacketSwitchedParam::DataCompression(v) => seq![tag, decimal_text(v.spec_value() as nat)],
            PacketSwitchedParam::HeaderCompression(v) => seq![tag, decimal_text(v.spec_value() as nat)],
            PacketSwitchedParam::QoSPrecedence(v) => seq![tag, decimal_text(v.spec_value() as nat)],
            PacketSwitchedParam::QoSDelay(v) => seq![tag, decimal_text(v.spec_value() as nat)],
            PacketSwitchedParam::QoSReliability(v) => seq![tag, decimal_text(v.spec_value() as nat)],
            PacketSwitchedParam::MapProfile(cid) => seq![tag, decimal_text(cid.0 as nat)],
            PacketSwitchedParam::UNUSED => seq![tag],
        }
    }

    /// Append the arguments that write the parameter to `args`.
    pub fn push_args(&self, args: &mut Vec<Vec<char>>)
        ensures
            final(args)@.map_values(|a: Vec<char>| a@) == old(args)@.map_values(|a: Vec<char>| a@) + self.spec_args(),
    {
        let mut tag: Vec<char> = Vec::new();
        let mut value: Vec<char> = Vec::new();
        let has_value: bool = match self {
            PacketSwitchedParam::ProtocolType(v) => {
                push_decimal(&mut tag, 0);
                push_decimal(&mut value, v.value() as u128);
                true
            },
            PacketSwitchedParam::APN(t) => {
                push_decimal(&mut tag, 1);
                push_quoted(&mut value, t.as_str());
                true
            },
            PacketSwitchedParam::Username(t) => {
                push_decimal(&mut tag, 2);
                push_quoted(&mut value, t.as_str());
                true
            },
            PacketSwitchedParam::Password(t) => {
                push_decimal(&mut tag, 3);
                push_quoted(&mut value, t.as_str());
                true
            },
            PacketSwitchedParam::DNS1(ip) => {
                push_decimal(&mut tag, 4);
                let mut text: Vec<char> = Vec::new();
                push_ip_text(&mut text, ip);
                push_quoted_chars(&mut value, text.as_slice());
                true
            },
            PacketSwitchedParam::DNS2(ip) => {
                push_decimal(&mut tag, 5);
                let mut text: Vec<char> = Vec::new();
                push_ip_text(&mut text, ip);
                push_quoted_chars(&mut value, text.as_slice());
                true
            },
            PacketSwitchedParam::Authentication(v) => {
                push_decimal(&mut tag, 6);
                push_decimal(&mut value, v.value() as u128);
                true
            },
            PacketSwitchedParam::IPAddress(ip) => {
                push_decimal(&mut tag, 7);
                let mut text: Vec<char> = Vec::new();
                push_ip_text(&mut text, ip);
                push_quoted_chars(&mut value, text.as_slice());
                true
            },
            PacketSwitchedParam::DataCompression(v) => {
                push_decimal(&mut tag, 8);
                push_decimal(&mut value, v.value() as u128);
                true
            },
            PacketSwitchedParam::HeaderCompression(v) => {
                push_decimal(&mut tag, 9);
                push_decimal(&mut value, v.value() as u128);
                true
            },
            PacketSwitchedParam::QoSPrecedence(v) => {
                push_decimal(&mut tag, 10);
                push_decimal(&mut value, v.value() as u128);
                true
            },
            PacketSwitchedParam::QoSDelay(v) => {
                push_decimal(&mut tag, 11);
                push_decimal(&mut value, v.value() as u128);
                true
            },
            PacketSwitchedParam::QoSReliability(v) => {
                push_decimal(&mut tag, 12);
                push_decimal(&mut value, v.value() as u128);
                true
            },
            PacketSwitchedParam::MapProfile(cid) => {
                push_decimal(&mut tag, 100);
                push_decimal(&mut value, cid.0 as u128);
                true
            },
            PacketSwitchedParam::UNUSED => {
                push_decimal(&mut tag, 13);
                false
            },
        };
        let ghost before = args@.map_values(|a: Vec<char>| a@);
        let ghost tag_view = tag@;
        let ghost value_view = value@;
        args.push(tag);
        if has_value {
            args.push(value);
        }
        proof {
            assert(tag_view =~= decimal_text(self.spec_tag()));
            if has_value {
                assert(self.spec_args() =~= seq![tag_view, value_view]);
            } else {
                assert(self.spec_args() =~= seq![tag_view]);
            }
            assert(args@.map_values(|a: Vec<char>| a@) =~= before + self.spec_args());
        }
    }
}

/// 18.7 Set a parameter of a PSD profile +UPSD
#[derive(Debug, Clone, PartialEq, Eq)]
pub struct SetPacketSwitchedConfig {
    pub profile_id: u8,
    pub param: PacketSwitchedParam,
}

impl SetPacketSwitchedConfig {
    /// The arguments of the command, as they are written on the command line.
    pub open spec fn spec_args(&self) -> Seq<Seq<char>> {
        seq![decimal_text(self.profile_id as nat)] + self.param.spec_args()
    }

    /// The command line: `AT+UPSD` with its arguments.
    pub fn to_text(&self) -> (r: Vec<char>)
        ensures
            r@ == at_text("+UPSD"@, self.spec_args(), true),
    {
        let mut args: Vec<Vec<char>> = Vec::new();
        let mut a: Vec<char> = Vec::new();
        push_decimal(&mut a, self.profile_id as u128);
        args.push(a);
        proof {
            assert(args@.map_values(|a: Vec<char>| a@) =~= seq![decimal_text(self.profile_id as nat)]);
        }
        self.param.push_args(&mut args);
        at_line("+UPSD", &args, true)
    }
}

/// PDP context definition +CGDCONT: the context `cid`, of the packet data
/// protocol `pdp_type`, on the access point `apn`.
#[derive(Debug, Clone, Copy, PartialEq, Eq)]
pub struct SetPDPContextDefinition<'a> {
    pub cid: ContextId,
    pub pdp_type: &'a str,
    pub apn: &'a str,
}

impl<'a> SetPDPContextDefinition<'a> {
    /// The arguments of the command, as they are written on the command line.
    pub open spec fn spec_args(&self) -> Seq<Seq<char>> {
        seq![decimal_text(self.cid.0 as nat), quoted(self.pdp_type@), quoted(self.apn@)]
    }

    /// The command line: `AT+CGDCONT` with its arguments.
    pub fn to_text(&self) -> (r: Vec<char>)
        ensures
            r@ == at_text("+CGDCONT"@, self.spec_args(), true),
    {
        let mut args: Vec<Vec<char>> = Vec::new();
        let mut a: Vec<char> = Vec::new();
        push_decimal(&mut a, self.cid.0 as u128);
        args.push(a);
        let mut a: Vec<char> = Vec::new();
        push_quoted(&mut a, self.pdp_type);
        args.push(a);
        let mut a: Vec<char> = Vec::new();
        push_quoted(&mut a, self.apn);
        args.push(a);
        proof {
            assert(args@.map_values(|a: Vec<char>| a@) =~= self.spec_args());
        }
        at_line("+CGDCONT", &args, true)
    }
}

/// Authentication parameters of a PDP context +UAUTHREQ.
#[derive(Debug, Clone, Copy, PartialEq, Eq)]
pub struct SetAuthParameters<'a> {
    pub cid: ContextId,
    pub auth_type: AuthenticationType,
    pub username: &'a str,
    pub password: &'a str,
}

impl<'a> SetAuthParameters<'a> {
    /// The arguments of the command, as they are written on the command line.
    pub open spec fn spec_args(&self) -> Seq<Seq<char>> {
        seq![
            decimal_text(self.cid.0 as nat),
            decimal_text(self.auth_type.spec_value() as nat),
            quoted(self.username@),
            quoted(self.password@),
        ]
    }

    /// The command line: `AT+UAUTHREQ` with its arguments.
    pub fn to_text(&self) -> (r: Vec<char>)
        ensures
            r@ == at_text("+UAUTHREQ"@, self.spec_args(), true),
    {
        let mut args: Vec<Vec<char>> = Vec::new();
        let mut a: Vec<char> = Vec::new();
        push_decimal(&mut a, self.cid.0 as u128);
        args.push(a);
        let mut a: Vec<char> = Vec::new();
        push_decimal(&mut a, self.auth_type.value() as u128);
        args.push(a);
        let mut a: Vec<char> = Vec::new();
        push_quoted(&mut a, self.username);
        args.push(a);
        let mut a: Vec<char> = Vec::new();
        push_quoted(&mut a, self.password);
        args.push(a);
        proof {
            assert(args@.map_values(|a: Vec<char>| a@) =~= self.spec_args());
        }
        at_line("+UAUTHREQ", &args, true)
    }
}

/// 18.7 Read a parameter of a PSD profile +UPSD
#[derive(Debug, Clone, Copy, PartialEq, Eq, Structural)]
pub struct GetPacketSwitchedConfig {
    pub profile_id: u8,
    pub param: PacketSwitchedParamReq,
}

/// 18.8 Packet switched data action +UPSDA
#[derive(Debug, Clone, Copy, PartialEq, Eq, Structural)]
pub struct SetPacketSwitchedAction {
    pub profile_id: u8,
    pub action: PacketSwitchedAction,
}

/// 18.9 Packet switched network-assigned data +UPSND
#[derive(Debug, Clone, Copy, PartialEq, Eq, Structural)]
pub struct GetPacketSwitchedNetworkData {
    pub profile_id: u8,
    pub param: PacketSwitchedNetworkDataParam,
}

/// 18.14 GPRS attach or detach +CGATT
#[derive(Debug, Clone, Copy, PartialEq, Eq, Structural)]
pub struct SetGPRSAttached {
    pub state: GPRSAttachedState,
}

/// 18.14 Read the GPRS attach state +CGATT?
#[derive(Debug, Clone, Copy, PartialEq, Eq, Structural)]
pub struct GetGPRSAttached;

/// 18.27 GPRS network registration status +CGREG
#[derive(Debug, Clone, Copy, PartialEq, Eq, Structural)]
pub struct GPRSNetworkRegistration {
    pub stat: u8,
}

/// 18.36 EPS network registration status +CEREG
#[derive(Debug, Clone, Copy, PartialEq, Eq, Structural)]
pub struct EPSNetworkRegistration {
    pub stat: u8,
}

impl GetPacketSwitchedConfig {
    /// The arguments of the command, as they are written on the command line.
    pub open spec fn spec_args(&self) -> Seq<Seq<char>> {
        seq![decimal_text(self.profile_id as nat), decimal_text(self.param.spec_value() as nat)]
    }

    /// The command line: `AT+UPSD` with its arguments.
    pub fn to_text(&self) -> (r: Vec<char>)
        ensures
            r@ == at_text("+UPSD"@, self.spec_args(), true),
    {
        let mut args: Vec<Vec<char>> = Vec::new();
        let mut a: Vec<char> = Vec::new();
        push_decimal(&mut a, self.profile_id as u128);
        args.push(a);
        let mut a: Vec<char> = Vec::new();
        push_decimal(&mut a, self.param.value() as u128);
        args.push(a);
        proof {
            assert(args@.map_values(|a: Vec<char>| a@) =~= self.spec_args());
        }
        at_line("+UPSD", &args, true)
    }
}

impl SetPacketSwitchedAction {
    /// The arguments of the command, as they are written on the command line.
    pub open spec fn spec_args(&self) -> Seq<Seq<char>> {
        seq![decimal_text(self.profile_id as nat), decimal_text(self.action.spec_value() as nat)]
    }

    /// The command line: `AT+UPSDA` with its arguments.
    pub fn to_text(&self) -> (r: Vec<char>)
        ensures
            r@ == at_text("+UPSDA"@, self.spec_args(), true),
    {
        let mut args: Vec<Vec<char>> = Vec::new();
        let mut a: Vec<char> = Vec::new();
        push_decimal(&mut a, self.profile_id as u128);
        args.push(a);
        let mut a: Vec<char> = Vec::new();
        push_decimal(&mut a, self.action.value() as u128);
        args.push(a);
        proof {
            assert(args@.map_values(|a: Vec<char>| a@) =~= self.spec_args());
        }
        at_line("+UPSDA", &args, true)
    }
}

impl GetPacketSwitchedNetworkData {
    /// The arguments of the command, as they are written on the command line.
    pub open spec fn spec_args(&self) -> Seq<Seq<char>> {
        seq![decimal_text(self.profile_id as nat), decimal_text(self.param.spec_value() as nat)]
    }

    /// The command line: `AT+UPSND` with its arguments.
    pub fn to_text(&self) -> (r: Vec<char>)
        ensures
            r@ == at_text("+UPSND"@, self.spec_args(), true),
    {
        let mut args: Vec<Vec<char>> = Vec::new();
        let mut a: Vec<char> = Vec::new();
        push_decimal(&mut a, self.profile_id as u128);
        args.push(a);
        let mut a: Vec<char> = Vec::new();
        push_decimal(&mut a, self.param.value() as u128);
        args.push(a);
        proof {
            assert(args@.map_values(|a: Vec<char>| a@) =~= self.spec_args());
        }
        at_line("+UPSND", &args, true)
    }
}

impl SetGPRSAttached {
    /// The arguments of the command, as they are written on the command line.
    pub open spec fn spec_args(&self) -> Seq<Seq<char>> {
        seq![decimal_text(self.state.spec_value() as nat)]
    }

    /// The command line: `AT+CGATT` with its arguments.
    pub fn to_text(&self) -> (r: Vec<char>)
        ensures
            r@ == at_text("+CGATT"@, self.spec_args(), true),
    {
        let mut args: Vec<Vec<char>> = Vec::new();
        let mut a: Vec<char> = Vec::new();
        push_decimal(&mut a, self.state.value() as u128);
        args.push(a);
        proof {
            assert(args@.map_values(|a: Vec<char>| a@) =~= self.spec_args());
        }
        at_line("+CGATT", &args, true)
    }
}

impl GetGPRSAttached {
    /// The arguments of the command, as they are written on the command line.
    pub open spec fn spec_args(&self) -> Seq<Seq<char>> {
        Seq::empty()
    }

    /// The command line: `AT+CGATT?`.
    pub fn to_text(&self) -> (r: Vec<char>)
        ensures
            r@ == at_text("+CGATT?"@, self.spec_args(), true),
    {
        let mut args: Vec<Vec<char>> = Vec::new();
        proof {
            assert(args@.map_values(|a: Vec<char>| a@) =~= self.spec_args());
        }
        at_line("+CGATT?", &args, true)
    }
}

/// The state of a PDP context (`+CGACT`).
#[derive(Debug, Clone, Copy, PartialEq, Eq, Structural)]
pub enum PDPContextStatus {
    Deactivated,
    Activated,
}

impl PDPContextStatus {
    /// The number that stands for the value in a command or response.
    pub open spec fn spec_value(self) -> u8 {
        match self {
            PDPContextStatus::Deactivated => 0,
            PDPContextStatus::Activated => 1,
        }
    }

    /// The value that the number `v` stands for, if any.
    pub open spec fn spec_from_value(v: u8) -> Option<PDPContextStatus> {
        if v == 0 {
            Some(PDPContextStatus::Deactivated)
        } else if v == 1 {
            Some(PDPContextStatus::Activated)
        } else {
            None
        }
    }

    /// The number that stands for the value; the value is read back from it.
    pub fn value(&self) -> (r: u8)
        ensures
            r == self.spec_value(),
            Self::spec_from_value(r) == Some(*self),
    {
        match self {
            PDPContextStatus::Deactivated => 0,
            PDPContextStatus::Activated => 1,
        }
    }

    /// The value that the number `v` stands for, if any; its number is `v`.
    pub fn from_value(v: u8) -> (r: Option<Self>)
        ensures
            r == Self::spec_from_value(v),
            r matches Some(e) ==> e.spec_value() == v,
    {
        if v == 0 {
            Some(PDPContextStatus::Deactivated)
        } else if v == 1 {
            Some(PDPContextStatus::Activated)
        } else {
            None
        }
    }
}

/// 18.14 Read the states of the PDP contexts +CGACT?
#[derive(Debug, Clone, Copy, PartialEq, Eq, Structural)]
pub struct GetPDPContextState;

/// 18.14 Activate or deactivate a PDP context (all of them without `cid`) +CGACT
#[derive(Debug, Clone, Copy, PartialEq, Eq, Structural)]
pub struct SetPDPContextState {
    pub status: PDPContextStatus,
    pub cid: Option<ContextId>,
}

impl GetPDPContextState {
    /// The arguments of the command, as they are written on the command line.
    pub open spec fn spec_args(&self) -> Seq<Seq<char>> {
        Seq::empty()
    }

    /// The command line: `AT+CGACT?`.
    pub fn to_text(&self) -> (r: Vec<char>)
        ensures
            r@ == at_text("+CGACT?"@, self.spec_args(), true),
    {
        let mut args: Vec<Vec<char>> = Vec::new();
        proof {
            assert(args@.map_values(|a: Vec<char>| a@) =~= self.spec_args());
        }
        at_line("+CGACT?", &args, true)
    }
}

impl SetPDPContextState {
    /// The arguments of the command, as they are written on the command line (an absent trailing argument is left out).
    pub open spec fn spec_args(&self) -> Seq<Seq<char>> {
        seq![decimal_text(self.status.spec_value() as nat)] + match self.cid {
            Some(v) => seq![decimal_text(v.0 as nat)],
            None => Seq::empty(),
        }
    }

    /// The command line: `AT+CGACT` with its arguments.
    pub fn to_text(&self) -> (r: Vec<char>)
        ensures
            r@ == at_text("+CGACT"@, self.spec_args(), true),
    {
        let mut args: Vec<Vec<char>> = Vec::new();
        let mut a: Vec<char> = Vec::new();
        push_decimal(&mut a, self.status.value() as u128);
        args.push(a);
        match self.cid {
            Some(v) => {
            let mut a: Vec<char> = Vec::new();
            push_decimal(&mut a, v.0 as u128);
            args.push(a);
            },
            None => {},
        }
        proof {
            assert(args@.map_values(|a: Vec<char>| a@) =~= self.spec_args());
        }
        at_line("+CGACT", &args, true)
    }
}

/// 18.14 The GPRS attach state, as `+CGATT?` answers it.
#[derive(Debug, Clone, Copy, PartialEq, Eq, Structural)]
pub struct GPRSAttached {
    pub state: GPRSAttachedState,
}

/// The attach state that the value text `body` of a `+CGATT?` answer
/// reports, if any: one decimal field that names a state.
pub open spec fn gprs_attached_of(body: Seq<char>) -> Option<GPRSAttached> {
    if fields(body).len() == 1 {
        match num_field(body, 0, 255) {
            Some(v) => match GPRSAttachedState::spec_from_value(v as u8) {
                Some(state) => Some(GPRSAttached { state }),
                None => None,
            },
            None => None,
        }
    } else {
        None
    }
}

impl GPRSAttached {
    /// The attach state that the answer `resp` (`+CGATT: <state>`) reports, if any.
    pub fn parse(resp: &[u8]) -> (r: Option<Self>)
        ensures
            r == gprs_attached_of(at_body(latin1(resp@))),
    {
        let c = chars_of_bytes(resp);
        let body = body_of(c.as_slice());
        let f = split_fields(body.as_slice());
        if f.len() != 1 {
            return None;
        }
        match number_field(&f, 0, 255) {
            Some(v) => match GPRSAttachedState::from_value(v as u8) {
                Some(state) => Some(GPRSAttached { state }),
                None => None,
            },
            None => None,
        }
    }
}

/// 18.27 Read the GPRS network registration status +CGREG?
#[derive(Debug, Clone, Copy, PartialEq, Eq, Structural)]
pub struct GetGPRSNetworkRegistrationStatus;

/// 18.36 Read the EPS network registration status +CEREG?
#[derive(Debug, Clone, Copy, PartialEq, Eq, Structural)]
pub struct GetEPSNetworkRegistrationStatus;

impl GetGPRSNetworkRegistrationStatus {
    /// The arguments of the command, as they are written on the command line.
    pub open spec fn spec_args(&self) -> Seq<Seq<char>> {
        Seq::empty()
    }

    /// The command line: `AT+CGREG?`.
    pub fn to_text(&self) -> (r: Vec<char>)
        ensures
            r@ == at_text("+CGREG?"@, self.spec_args(), true),
    {
        let mut args: Vec<Vec<char>> = Vec::new();
        proof {
            assert(args@.map_values(|a: Vec<char>| a@) =~= self.spec_args());
        }
        at_line("+CGREG?", &args, true)
    }
}

impl GetEPSNetworkRegistrationStatus {
    /// The arguments of the command, as they are written on the command line.
    pub open spec fn spec_args(&self) -> Seq<Seq<char>> {
        Seq::empty()
    }

    /// The command line: `AT+CEREG?`.
    pub fn to_text(&self) -> (r: Vec<char>)
        ensures
            r@ == at_text("+CEREG?"@, self.spec_args(), true),
    {
        let mut args: Vec<Vec<char>> = Vec::new();
        proof {
            assert(args@.map_values(|a: Vec<char>| a@) =~= self.spec_args());
        }
        at_line("+CEREG?", &args, true)
    }
}

/// The URC setting and the registration status that the value text `body`
/// of a `+CGREG?` or `+CEREG?` answer reports, if it is well formed: at
/// least two comma separated fields, the first two decimal numbers of at
/// most 255. The cell fields that may follow them are not read.
pub open spec fn reg_read_of(body: Seq<char>) -> Option<(u8, u8)> {
    if fields(body).len() >= 2 {
        match (num_field(body, 0, 255), num_field(body, 1, 255)) {
            (Some(n), Some(st)) => Some((n as u8, st as u8)),
            _ => None,
        }
    } else {
        None
    }
}

fn read_registration(resp: &[u8]) -> (r: Option<(u8, u8)>)
    ensures
        r == reg_read_of(at_body(latin1(resp@))),
{
    let c = chars_of_bytes(resp);
    let body = body_of(c.as_slice());
    let f = split_fields(body.as_slice());
    if f.len() < 2 {
        return None;
    }
    let n = match number_field(&f, 0, 255) {
        Some(v) => v,
        None => {
            return None;
        },
    };
    let st = match number_field(&f, 1, 255) {
        Some(v) => v,
        None => {
            return None;
        },
    };
    Some((n as u8, st as u8))
}

/// 18.27 The GPRS network registration status, as `+CGREG?` answers it.
#[derive(Debug, Clone, Copy, PartialEq, Eq, Structural)]
pub struct GPRSNetworkRegistrationStatus {
    pub n: u8,
    pub stat: u8,
}

impl GPRSNetworkRegistrationStatus {
    /// What the answer `resp` (`+CGREG: <n>,<stat>[,...]`) reports, if it is
    /// well formed (see [reg_read_of]).
    pub fn parse(resp: &[u8]) -> (r: Option<Self>)
        ensures
            match reg_read_of(at_body(latin1(resp@))) {
                Some((n, stat)) => r == Some(GPRSNetworkRegistrationStatus { n, stat }),
                None => r is None,
            },
    {
        match read_registration(resp) {
            Some((n, stat)) => Some(GPRSNetworkRegistrationStatus { n, stat }),
            None => None,
        }
    }
}

/// 18.36 The EPS network registration status, as `+CEREG?` answers it.
#[derive(Debug, Clone, Copy, PartialEq, Eq, Structural)]
pub struct EPSNetworkRegistrationStatus {
    pub n: u8,
    pub stat: u8,
}

impl EPSNetworkRegistrationStatus {
    /// What the answer `resp` (`+CEREG: <n>,<stat>[,...]`) reports, if it is
    /// well formed (see [reg_read_of]).
    pub fn parse(resp: &[u8]) -> (r: Option<Self>)
        ensures
            match reg_read_of(at_body(latin1(resp@))) {
                Some((n, stat)) => r == Some(EPSNetworkRegistrationStatus { n, stat }),
                None => r is None,
            },
    {
        match read_registration(resp) {
            Some((n, stat)) => Some(EPSNetworkRegistrationStatus { n, stat }),
            None => None,
        }
    }
}

/// 18.9 A parameter of a PSD profile that the network assigned, as
/// `+UPSND` answers it.
#[derive(Debug, Clone, PartialEq, Eq)]
pub struct PacketSwitchedNetworkData {
    pub profile_id: u8,
    pub param_tag: u8,
    /// The value, as text (without its quotes when it is quoted).
    pub param_val: String,
}

/// What the value text `body` of a `+UPSND` answer reports, if it is well
/// formed: 3 comma separated fields, the profile and the tag as decimal
/// numbers of at most 255, and the value as the string that its text (see
/// [string_text]) holds as UTF-8 (see [utf8_text]).
pub open spec fn network_data_of(body: Seq<char>) -> Option<(u8, u8, Seq<char>)> {
    if fields(body).len() == 3 {
        match (num_field(body, 0, 255), num_field(body, 1, 255), utf8_text(string_text(fields(body)[2]))) {
            (Some(p), Some(t), Some(v)) => Some((p as u8, t as u8, v)),
            _ => None,
        }
    } else {
        None
    }
}

impl PacketSwitchedNetworkData {
    /// What the answer `resp` (`+UPSND: <profile>,<tag>,<value>`) reports, if it is well formed.
    pub fn parse(resp: &[u8]) -> (r: Option<Self>)
        ensures
            match network_data_of(at_body(latin1(resp@))) {
                Some((p, t, v)) => r matches Some(d) && d.profile_id == p && d.param_tag == t
                    && d.param_val@ == v,
                None => r is None,
            },
    {
        let c = chars_of_bytes(resp);
        let body = body_of(c.as_slice());
        let f = split_fields(body.as_slice());
        if f.len() != 3 {
            return None;
        }
        let p = match number_field(&f, 0, 255) {
            Some(v) => v,
            None => {
                return None;
            },
        };
        let t = match number_field(&f, 1, 255) {
            Some(v) => v,
            None => {
                return None;
            },
        };
        let v = match read_utf8(string_field(f[2].as_slice()).as_slice()) {
            Some(v) => v,
            None => {
                return None;
            },
        };
        Some(PacketSwitchedNetworkData { profile_id: p as u8, param_tag: t as u8, param_val: v })
    }
}

/// 18.7 A parameter of a PSD profile, as `+UPSD` answers it.
#[derive(Debug, Clone, PartialEq, Eq)]
pub struct PacketSwitchedConfig {
    pub profile_id: u8,
    pub param: PacketSwitchedParam,
}

/// Whether the parameter with the tag `tag` is read from the value text
/// `t`: a text parameter (access point name, user name, password) from
/// a text that is well formed UTF-8 (see [utf8_text]); an address (DNS servers, static address) from a string that
/// writes an IP address; a choice from a decimal number that names one of
/// its values; the mapped context from a decimal number of at most 255.
pub open spec fn param_readable(tag: nat, t: Seq<char>) -> bool {
    let n = decimal_at_most(trim_ascii(t), 255);
    if tag == 1 || tag == 2 || tag == 3 {
        utf8_text(string_text(t)) is Some
    } else if tag == 4 || tag == 5 || tag == 7 {
        is_ip_text(string_text(t))
    } else if tag == 100 {
        n is Some
    } else {
        match n {
            Some(v) => if tag == 0 {
                ProtocolType::spec_from_value(v as u8) is Some
            } else if tag == 6 {
                AuthenticationType::spec_from_value(v as u8) is Some
            } else if tag == 8 {
                DataCompression::spec_from_value(v as u8) is Some
            } else if tag == 9 {
                HeaderCompression::spec_from_value(v as u8) is Some
            } else if tag == 10 {
                QoSPrecedence::spec_from_value(v as u8) is Some
            } else if tag == 11 {
                QoSDelay::spec_from_value(v as u8) is Some
            } else if tag == 12 {
                QoSReliability::spec_from_value(v as u8) is Some
            } else {
                false
            },
            None => false,
        }
    }
}

/// Whether `param` is the parameter with the tag `tag` that the value
/// text `t` writes.
pub open spec fn param_written(param: PacketSwitchedParam, tag: nat, t: Seq<char>) -> bool {
    let n = decimal_at_most(trim_ascii(t), 255);
    &&& param.spec_tag() == tag
    &&& match param {
        PacketSwitchedParam::ProtocolType(v) => n == Some(v.spec_value() as nat),
        PacketSwitchedParam::APN(s) => utf8_text(string_text(t)) == Some(s@),
        PacketSwitchedParam::Username(s) => utf8_text(string_text(t)) == Some(s@),
        PacketSwitchedParam::Password(s) => utf8_text(string_text(t)) == Some(s@),
        PacketSwitchedParam::DNS1(a) => ip_written(string_text(t), a),
        PacketSwitchedParam::DNS2(a) => ip_written(string_text(t), a),
        PacketSwitchedParam::IPAddress(a) => ip_written(string_text(t), a),
        PacketSwitchedParam::Authentication(v) => n == Some(v.spec_value() as nat),
        PacketSwitchedParam::DataCompression(v) => n == Some(v.spec_value() as nat),
        PacketSwitchedParam::HeaderCompression(v) => n == Some(v.spec_value() as nat),
        PacketSwitchedParam::QoSPrecedence(v) => n == Some(v.spec_value() as nat),
        PacketSwitchedParam::QoSDelay(v) => n == Some(v.spec_value() as nat),
        PacketSwitchedParam::QoSReliability(v) => n == Some(v.spec_value() as nat),
        PacketSwitchedParam::MapProfile(c) => n == Some(c.0 as nat),
        _ => false,
    }
}

/// Whether the value text `body` of a `+UPSD` answer is read: 3 comma
/// separated fields, the profile and the tag as decimal numbers of at most
/// 255, and a value that the tag reads.
pub open spec fn config_readable(body: Seq<char>) -> bool {
    &&& fields(body).len() == 3
    &&& num_field(body, 0, 255) is Some
    &&& num_field(body, 1, 255) is Some
    &&& param_readable(num_field(body, 1, 255)->0, fields(body)[2])
}

fn read_param(tag: u8, f: &[char]) -> (r: Option<PacketSwitchedParam>)
    ensures
        r is Some == param_readable(tag as nat, f@),
        r matches Some(p) ==> param_written(p, tag as nat, f@),
{
    if tag == 1 || tag == 2 || tag == 3 {
        let text = match read_utf8(string_field(f).as_slice()) {
            Some(v) => v,
            None => {
                return None;
            },
        };
        return if tag == 1 {
            Some(PacketSwitchedParam::APN(text))
        } else if tag == 2 {
            Some(PacketSwitchedParam::Username(text))
        } else {
            Some(PacketSwitchedParam::Password(text))
        };
    }
    if tag == 4 || tag == 5 || tag == 7 {
        let a = match parse_ip(string_field(f).as_slice()) {
            Some(a) => a,
            None => {
                return None;
            },
        };
        return if tag == 4 {
            Some(PacketSwitchedParam::DNS1(a))
        } else if tag == 5 {
            Some(PacketSwitchedParam::DNS2(a))
        } else {
            Some(PacketSwitchedParam::IPAddress(a))
        };
    }
    let t = crate::text::trimmed_ascii(f);
    let n = match crate::text::parse_decimal(t.as_slice(), 255) {
        Some(v) => v as u8,
        None => {
            return None;
        },
    };
    if tag == 100 {
        Some(PacketSwitchedParam::MapProfile(ContextId(n)))
    } else if tag == 0 {
        match ProtocolType::from_value(n) {
            Some(v) => Some(PacketSwitchedParam::ProtocolType(v)),
            None => None,
        }
    } else if tag == 6 {
        match AuthenticationType::from_value(n) {
            Some(v) => Some(PacketSwitchedParam::Authentication(v)),
            None => None,
        }
    } else if tag == 8 {
        match DataCompression::from_value(n) {
            Some(v) => Some(PacketSwitchedParam::DataCompression(v)),
            None => None,
        }
    } else if tag == 9 {
        match HeaderCompression::from_value(n) {
            Some(v) => Some(PacketSwitchedParam::HeaderCompression(v)),
            None => None,
        }
    } else if tag == 10 {
        match QoSPrecedence::from_value(n) {
            Some(v) => Some(PacketSwitchedParam::QoSPrecedence(v)),
            None => None,
        }
    } else if tag == 11 {
        match QoSDelay::from_value(n) {
            Some(v) => Some(PacketSwitchedParam::QoSDelay(v)),
            None => None,
        }
    } else if tag == 12 {
        match QoSReliability::from_value(n) {
            Some(v) => Some(PacketSwitchedParam::QoSReliability(v)),
            None => None,
        }
    } else {
        None
    }
}

impl PacketSwitchedConfig {
    /// The parameter that the answer `resp` (`+UPSD: <profile>,<tag>,<value>`)
    /// reports, when it is read (see [config_readable]).
    pub fn parse(resp: &[u8]) -> (r: Option<Self>)
        ensures
            r is Some == config_readable(at_body(latin1(resp@))),
            r matches Some(c) ==> {
                let body = at_body(latin1(resp@));
                &&& num_field(body, 0, 255) == Some(c.profile_id as nat)
                &&& param_written(c.param, num_field(body, 1, 255)->0, fields(body)[2])
            },
    {
        let c = chars_of_bytes(resp);
        let body = body_of(c.as_slice());
        let f = split_fields(body.as_slice());
        if f.len() != 3 {
            return None;
        }
        let p = match number_field(&f, 0, 255) {
            Some(v) => v,
            None => {
                return None;
            },
        };
        let t = match number_field(&f, 1, 255) {
            Some(v) => v,
            None => {
                return None;
            },
        };
        match read_param(t as u8, f[2].as_slice()) {
            Some(param) => Some(PacketSwitchedConfig { profile_id: p as u8, param }),
            None => None,
        }
    }
}

/// Reporting of packet domain events (`+CGEREP`).
#[derive(Debug, Clone, Copy, PartialEq, Eq, Structural)]
pub enum PSEventReportingMode {
    /// Events are not reported.
    DiscardUrcs,
    /// Events are reported, and dropped while the link is reserved.
    DiscardUrcsWhenLinkReserved,
    /// Events are reported, and buffered while the link is reserved.
    CircularBufferUrcs,
}

impl PSEventReportingMode {
    /// The number that stands for the value in a command or response.
    pub open spec fn spec_value(self) -> u8 {
        match self {
            PSEventReportingMode::DiscardUrcs => 0,
            PSEventReportingMode::DiscardUrcsWhenLinkReserved => 1,
            PSEventReportingMode::CircularBufferUrcs => 2,
        }
    }

    /// The value that the number `v` stands for, if any.
    pub open spec fn spec_from_value(v: u8) -> Option<PSEventReportingMode> {
        if v == 0 {
            Some(PSEventReportingMode::DiscardUrcs)
        } else if v == 1 {
            Some(PSEventReportingMode::DiscardUrcsWhenLinkReserved)
        } else if v == 2 {
            Some(PSEventReportingMode::CircularBufferUrcs)
        } else {
            None
        }
    }

    /// The number that stands for the value; the value is read back from it.
    pub fn value(&self) -> (r: u8)
        ensures
            r == self.spec_value(),
            Self::spec_from_value(r) == Some(*self),
    {
        match self {
            PSEventReportingMode::DiscardUrcs => 0,
            PSEventReportingMode::DiscardUrcsWhenLinkReserved => 1,
            PSEventReportingMode::CircularBufferUrcs => 2,
        }
    }

    /// The value that the number `v` stands for, if any; its number is `v`.
    pub fn from_value(v: u8) -> (r: Option<Self>)
        ensures
            r == Self::spec_from_value(v),
            r matches Some(e) ==> e.spec_value() == v,
    {
        if v == 0 {
            Some(PSEventReportingMode::DiscardUrcs)
        } else if v == 1 {
            Some(PSEventReportingMode::DiscardUrcsWhenLinkReserved)
        } else if v == 2 {
            Some(PSEventReportingMode::CircularBufferUrcs)
        } else {
            None
        }
    }
}

/// 18.16 Packet domain event reporting +CGEREP
#[derive(Debug, Clone, Copy, PartialEq, Eq, Structural)]
pub struct SetPacketSwitchedEventReporting {
    pub mode: PSEventReportingMode,
    pub bfr: Option<u8>,
}

impl SetPacketSwitchedEventReporting {
    /// The arguments of the command, as they are written on the command line (an absent trailing argument is left out).
    pub open spec fn spec_args(&self) -> Seq<Seq<char>> {
        seq![decimal_text(self.mode.spec_value() as nat)] + match self.bfr {
            Some(v) => seq![decimal_text(v as nat)],
            None => Seq::empty(),
        }
    }

    /// The command line: `AT+CGEREP` with its arguments.
    pub fn to_text(&self) -> (r: Vec<char>)
        ensures
            r@ == at_text("+CGEREP"@, self.spec_args(), true),
    {
        let mut args: Vec<Vec<char>> = Vec::new();
        let mut a: Vec<char> = Vec::new();
        push_decimal(&mut a, self.mode.value() as u128);
        args.push(a);
        match self.bfr {
            Some(v) => {
                let mut a: Vec<char> = Vec::new();
                push_decimal(&mut a, v as u128);
                args.push(a);
            },
            None => {},
        }
        proof {
            assert(args@.map_values(|a: Vec<char>| a@) =~= self.spec_args());
        }
        at_line("+CGEREP", &args, true)
    }
}

/// The `+CGREG` URC setting.
#[derive(Debug, Clone, Copy, PartialEq, Eq, Structural)]
pub enum GPRSNetworkRegistrationUrcConfig {
    UrcDisabled,
    UrcEnabled,
    UrcVerbose,
}

impl GPRSNetworkRegistrationUrcConfig {
    /// The number that stands for the value in a command or response.
    pub open spec fn spec_value(self) -> u8 {
        match self {
            GPRSNetworkRegistrationUrcConfig::UrcDisabled => 0,
            GPRSNetworkRegistrationUrcConfig::UrcEnabled => 1,
            GPRSNetworkRegistrationUrcConfig::UrcVerbose => 2,
        }
    }

    /// The value that the number `v` stands for, if any.
    pub open spec fn spec_from_value(v: u8) -> Option<GPRSNetworkRegistrationUrcConfig> {
        if v == 0 {
            Some(GPRSNetworkRegistrationUrcConfig::UrcDisabled)
        } else if v == 1 {
            Some(GPRSNetworkRegistrationUrcConfig::UrcEnabled)
        } else if v == 2 {
            Some(GPRSNetworkRegistrationUrcConfig::UrcVerbose)
        } else {
            None
        }
    }

    /// The number that stands for the value; the value is read back from it.
    pub fn value(&self) -> (r: u8)
        ensures
            r == self.spec_value(),
            Self::spec_from_value(r) == Some(*self),
    {
        match self {
            GPRSNetworkRegistrationUrcConfig::UrcDisabled => 0,
            GPRSNetworkRegistrationUrcConfig::UrcEnabled => 1,
            GPRSNetworkRegistrationUrcConfig::UrcVerbose => 2,
        }
    }

    /// The value that the number `v` stands for, if any; its number is `v`.
    pub fn from_value(v: u8) -> (r: Option<Self>)
        ensures
            r == Self::spec_from_value(v),
            r matches Some(e) ==> e.spec_value() == v,
    {
        if v == 0 {
            Some(GPRSNetworkRegistrationUrcConfig::UrcDisabled)
        } else if v == 1 {
            Some(GPRSNetworkRegistrationUrcConfig::UrcEnabled)
        } else if v == 2 {
            Some(GPRSNetworkRegistrationUrcConfig::UrcVerbose)
        } else {
            None
        }
    }
}

/// 18.27 GPRS network registration status +CGREG: configure the URC
#[derive(Debug, Clone, Copy, PartialEq, Eq, Structural)]
pub struct SetGPRSNetworkRegistrationStatus {
    pub n: GPRSNetworkRegistrationUrcConfig,
}

impl SetGPRSNetworkRegistrationStatus {
    /// The arguments of the command, as they are written on the command line.
    pub open spec fn spec_args(&self) -> Seq<Seq<char>> {
        seq![decimal_text(self.n.spec_value() as nat)]
    }

    /// The command line: `AT+CGREG` with its arguments.
    pub fn to_text(&self) -> (r: Vec<char>)
        ensures
            r@ == at_text("+CGREG"@, self.spec_args(), true),
    {
        let mut args: Vec<Vec<char>> = Vec::new();
        let mut a: Vec<char> = Vec::new();
        push_decimal(&mut a, self.n.value() as u128);
        args.push(a);
        proof {
            assert(args@.map_values(|a: Vec<char>| a@) =~= self.spec_args());
        }
        at_line("+CGREG", &args, true)
    }
}

/// The `+CEREG` URC setting.
#[derive(Debug, Clone, Copy, PartialEq, Eq, Structural)]
pub enum EPSNetworkRegistrationUrcConfig {
    UrcDisabled,
    UrcEnabled,
    UrcVerbose,
    UrcExtended,
}

impl EPSNetworkRegistrationUrcConfig {
    /// The number that stands for the value in a command or response.
    pub open spec fn spec_value(self) -> u8 {
        match self {
            EPSNetworkRegistrationUrcConfig::UrcDisabled => 0,
            EPSNetworkRegistrationUrcConfig::UrcEnabled => 1,
            EPSNetworkRegistrationUrcConfig::UrcVerbose => 2,
            EPSNetworkRegistrationUrcConfig::UrcExtended => 3,
        }
    }

    /// The value that the number `v` stands for, if any.
    pub open spec fn spec_from_value(v: u8) -> Option<EPSNetworkRegistrationUrcConfig> {
        if v == 0 {
            Some(EPSNetworkRegistrationUrcConfig::UrcDisabled)
        } else if v == 1 {
            Some(EPSNetworkRegistrationUrcConfig::UrcEnabled)
        } else if v == 2 {
            Some(EPSNetworkRegistrationUrcConfig::UrcVerbose)
        } else if v == 3 {
            Some(EPSNetworkRegistrationUrcConfig::UrcExtended)
        } else {
            None
        }
    }

    /// The number that stands for the value; the value is read back from it.
    pub fn value(&self) -> (r: u8)
        ensures
            r == self.spec_value(),
            Self::spec_from_value(r) == Some(*self),
    {
        match self {
            EPSNetworkRegistrationUrcConfig::UrcDisabled => 0,
            EPSNetworkRegistrationUrcConfig::UrcEnabled => 1,
            EPSNetworkRegistrationUrcConfig::UrcVerbose => 2,
            EPSNetworkRegistrationUrcConfig::UrcExtended => 3,
        }
    }

    /// The value that the number `v` stands for, if any; its number is `v`.
    pub fn from_value(v: u8) -> (r: Option<Self>)
        ensures
            r == Self::spec_from_value(v),
            r matches Some(e) ==> e.spec_value() == v,
    {
        if v == 0 {
            Some(EPSNetworkRegistrationUrcConfig::UrcDisabled)
        } else if v == 1 {
            Some(EPSNetworkRegistrationUrcConfig::UrcEnabled)
        } else if v == 2 {
            Some(EPSNetworkRegistrationUrcConfig::UrcVerbose)
        } else if v == 3 {
            Some(EPSNetworkRegistrationUrcConfig::UrcExtended)
        } else {
            None
        }
    }
}

/// 18.36 EPS network registration status +CEREG: configure the URC
#[derive(Debug, Clone, Copy, PartialEq, Eq, Structural)]
pub struct SetEPSNetworkRegistrationStatus {
    pub n: EPSNetworkRegistrationUrcConfig,
}

impl SetEPSNetworkRegistrationStatus {
    /// The arguments of the command, as they are written on the command line.
    pub open spec fn spec_args(&self) -> Seq<Seq<char>> {
        seq![decimal_text(self.n.spec_value() as nat)]
    }

    /// The command line: `AT+CEREG` with its arguments.
    pub fn to_text(&self) -> (r: Vec<char>)
        ensures
            r@ == at_text("+CEREG"@, self.spec_args(), true),
    {
        let mut args: Vec<Vec<char>> = Vec::new();
        let mut a: Vec<char> = Vec::new();
        push_decimal(&mut a, self.n.value() as u128);
        args.push(a);
        proof {
            assert(args@.map_values(|a: Vec<char>| a@) =~= self.spec_args());
        }
        at_line("+CEREG", &args, true)
    }
}

} // verus!
