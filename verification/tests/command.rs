use ublox_cellular::text::{decode_utf8, read_utf8};
use ublox_cellular::command::device_lock::{PinStatus, PinStatusCode};
use ublox_cellular::command::error::{CmeError, CmsError, UbloxError};
use ublox_cellular::command::dns::ResolveNameIpResponse;
use ublox_cellular::services::data::dns::{
    address_query, address_text, check_addr_type, host_address, name_query, AddrType,
};
use ublox_cellular::socket::endpoint::{parse_ip, parse_ipv4, parse_ipv6, IpAddr};
use ublox_cellular::socket::Error as SocketError;
use ublox_cellular::command::device_data_security::{
    SecurityData, SecurityDataImport, SendSecurityDataImport,
};
use ublox_cellular::command::file_system::DownloadFile;
use ublox_cellular::command::general::{
    FirmwareVersion, IdentificationInformationResponse, ManufacturerId, ModelId, CCID, CIMI, IMEI,
};
use ublox_cellular::command::http::HttpResponse;
use ublox_cellular::command::ip_transport_layer::{SocketClosed, SocketDataAvailable};
use ublox_cellular::command::mobile_control::Functionality;
use ublox_cellular::command::network_service::{
    NetworkRegistrationStat, NetworkRegistrationStatus, NetworkRegistrationUrcConfig,
};
use ublox_cellular::registration::{RegType, RegistrationParams, Status};
use ublox_cellular::command::psn::{
    DataConnectionActivated, DataConnectionDeactivated, ExtendedPSNetworkRegistration,
    PacketSwitchedEventReporting,
};
use ublox_cellular::command::sms::MessageWaitingIndication;
use ublox_cellular::command::Urc;
use ublox_cellular::socket::Handle;

#[test]
fn unknown_error() {
    assert_eq!(
        "+CME ERROR: Something went wrong".parse::<UbloxError>(),
        Ok(UbloxError::Cme(CmeError::Unknown))
    );
    assert_eq!(
        "+CMS ERROR: Something went wrong".parse::<UbloxError>(),
        Ok(UbloxError::Cms(CmsError::Unknown))
    );
}

#[test]
fn numeric_error() {
    assert_eq!(
        "+CME ERROR: 0".parse::<UbloxError>(),
        Ok(UbloxError::Cme(CmeError::PhoneFailure))
    );
    assert_eq!(
        "+CME ERROR: 1500".parse::<UbloxError>(),
        Ok(UbloxError::Cme(CmeError::WrongGpioIdentifier))
    );
}

#[test]
fn verbose_error() {
    assert_eq!(
        "+CME ERROR: Phone failure".parse::<UbloxError>(),
        Ok(UbloxError::Cme(CmeError::PhoneFailure))
    );
    assert_eq!(
        "+CME ERROR: Wrong GPIO identifier".parse::<UbloxError>(),
        Ok(UbloxError::Cme(CmeError::WrongGpioIdentifier))
    );
}

#[test]
fn generic_error() {
    assert_eq!("ERROR".parse::<UbloxError>(), Ok(UbloxError::Generic));
}

#[test]
fn cme_error_with_surrounding_white_space_and_alias() {
    assert_eq!(
        "  +CME ERROR:   302 \r\n".parse::<UbloxError>(),
        Ok(UbloxError::Cme(CmeError::OperationNotAllowed))
    );
    assert_eq!("Memory full".parse::<CmeError>(), Ok(CmeError::MemoryFull));
    assert_eq!("nothing".parse::<CmeError>(), Err(()));
    assert_eq!("+CMS ERROR: 500".parse::<UbloxError>(), Ok(UbloxError::Cms(CmsError::Unknown)));
    // surrounding white space never changes the result
    for text in ["302", "Memory full", "nothing", "1649", ""] {
        let padded = format!(" \r\n{text}\t ");
        assert_eq!(padded.parse::<CmeError>(), text.parse::<CmeError>(), "{text}");
        assert_eq!(padded.trim().parse::<CmeError>(), padded.parse::<CmeError>(), "{text}");
    }
}

#[test]
fn deserialize_packet_switched_event_urc() {
    let urc = Urc::parse(b"+CGEV: ME DETACH\r\n").unwrap();
    if !matches!(
        urc,
        Urc::PacketSwitchedEventReporting(PacketSwitchedEventReporting::MobileStationDetach),
    ) {
        panic!()
    }
}

#[test]
fn serialize_me_detach() {
    assert_eq!(PacketSwitchedEventReporting::MobileStationDetach.token(), "ME DETACH");
}

#[test]
fn deserialize_packet_switched_event() {
    assert_eq!(
        PacketSwitchedEventReporting::parse(b"ME DETACH\r\n"),
        Some(PacketSwitchedEventReporting::MobileStationDetach)
    );
    assert_eq!(
        PacketSwitchedEventReporting::parse(b"NW PDN DEACT\r\n"),
        Some(PacketSwitchedEventReporting::NetworkPDNDeactivate)
    );
    assert_eq!(
        PacketSwitchedEventReporting::parse(b"NW DETACH\r\n"),
        Some(PacketSwitchedEventReporting::NetworkDetach)
    );
}

#[test]
fn serialize_pin_status() {
    assert_eq!(PinStatusCode::PhNetSubPin.token(), "PH-NETSUB PIN");
}

#[test]
fn deserialize_pin_status() {
    assert_eq!(
        PinStatus::parse(b"+CPIN: READY"),
        Some(PinStatus {
            code: PinStatusCode::Ready
        })
    );
    assert_eq!(
        PinStatus::parse(b"+CPIN: SIM PIN"),
        Some(PinStatus {
            code: PinStatusCode::SimPin
        })
    );
}

#[test]
fn pin_status_rejects_unknown_text() {
    assert_eq!(PinStatus::parse(b"+CPIN: SIM PIN3"), None);
    assert_eq!(PinStatus::parse(b"+CPIN:"), None);
}

#[test]
fn every_token_reads_back() {
    for code in [
        PinStatusCode::Ready,
        PinStatusCode::SimPin,
        PinStatusCode::SimPuk,
        PinStatusCode::SimPin2,
        PinStatusCode::SimPuk2,
        PinStatusCode::PhNetPin,
        PinStatusCode::PhNetSubPin,
        PinStatusCode::PhSpPin,
        PinStatusCode::PhCorpPin,
        PinStatusCode::PhSimPin,
    ] {
        let chars: Vec<char> = code.token().chars().collect();
        assert_eq!(PinStatusCode::from_token(&chars), Some(code));
    }
    for event in [
        PacketSwitchedEventReporting::NetworkDetach,
        PacketSwitchedEventReporting::MobileStationDetach,
        PacketSwitchedEventReporting::NetworkDeactivate,
        PacketSwitchedEventReporting::MobileStationDeactivate,
        PacketSwitchedEventReporting::NetworkPDNDeactivate,
        PacketSwitchedEventReporting::MobileStationPDNDeactivate,
    ] {
        let chars: Vec<char> = event.token().chars().collect();
        assert_eq!(PacketSwitchedEventReporting::from_token(&chars), Some(event));
    }
}

#[test]
fn urcs_with_numeric_fields() {
    assert_eq!(
        Urc::parse(b"+UUSORD: 3,120\r\n"),
        Some(Urc::SocketDataAvailable(SocketDataAvailable {
            socket: Handle(3),
            length: 120
        }))
    );
    assert_eq!(
        Urc::parse(b"+UUSORF: 1, 16"),
        Some(Urc::SocketDataAvailableUDP(SocketDataAvailable {
            socket: Handle(1),
            length: 16
        }))
    );
    assert_eq!(
        Urc::parse(b"+UUPSDA: 0"),
        Some(Urc::DataConnectionActivated(DataConnectionActivated { result: 0 }))
    );
    assert_eq!(
        Urc::parse(b"+UUPSDD: 1"),
        Some(Urc::DataConnectionDeactivated(DataConnectionDeactivated { profile_id: 1 }))
    );
    assert_eq!(
        Urc::parse(b"+UUSOCL: 2\r\n"),
        Some(Urc::SocketClosed(SocketClosed { socket: Handle(2) }))
    );
    assert_eq!(
        Urc::parse(b"+UMWI: 1,2"),
        Some(Urc::MessageWaitingIndication(MessageWaitingIndication {
            status: 1,
            message_type: 2
        }))
    );
    assert_eq!(
        Urc::parse(b"+UREG: 4"),
        Some(Urc::ExtendedPSNetworkRegistration(ExtendedPSNetworkRegistration { state: 4 }))
    );
    assert_eq!(
        Urc::parse(b"+UUHTTPCR: 0,1,1"),
        Some(Urc::HttpResponse(HttpResponse {
            profile_id: 0,
            http_command: 1,
            http_result: 1
        }))
    );
}

#[test]
fn urcs_that_do_not_parse() {
    // a handle must fit in a byte
    assert_eq!(Urc::parse(b"+UUSORD: 256,1"), None);
    // wrong number of fields
    assert_eq!(Urc::parse(b"+UUSORD: 1"), None);
    assert_eq!(Urc::parse(b"+UUSOCL: 1,2"), None);
    // not a number
    assert_eq!(Urc::parse(b"+UUSOCL: x"), None);
    assert_eq!(Urc::parse(b"+UUSOCL: "), None);
    // unknown code, or no colon
    assert_eq!(Urc::parse(b"+CREG: 1"), None);
    assert_eq!(Urc::parse(b"+UUSOCL"), None);
    assert_eq!(Urc::parse(b""), None);
    // unknown event
    assert_eq!(Urc::parse(b"+CGEV: ME ATTACH"), None);
}

#[test]
fn enum_values_read_back() {
    assert_eq!(Functionality::SilentResetWithSimReset.value(), 16);
    assert_eq!(Functionality::from_value(127), Some(Functionality::Halt));
    assert_eq!(Functionality::from_value(2), None);
    assert_eq!(
        Functionality::from_value(Functionality::AirplaneMode.value()),
        Some(Functionality::AirplaneMode)
    );
}

#[test]
fn urc_line_endings_do_not_matter() {
    for line in [&b"+UUSORD: 3,120"[..], b"+CGEV: NW DEACT"] {
        let mut with_ending = line.to_vec();
        with_ending.extend_from_slice(b" \r\n");
        assert_eq!(Urc::parse(line), Urc::parse(&with_ending));
        assert!(Urc::parse(line).is_some());
    }
}

#[test]
fn registration_status_answers() {
    assert_eq!(
        NetworkRegistrationStatus::parse(b"+CREG: 0,1"),
        Some(NetworkRegistrationStatus {
            n: NetworkRegistrationUrcConfig::UrcDisabled,
            stat: NetworkRegistrationStat::Registered,
            lac: None,
            ci: None,
            act_status: None,
        })
    );
    assert_eq!(
        NetworkRegistrationStatus::parse(b"+CREG: 2,5,\"4E54\",\"44A5\",6"),
        Some(NetworkRegistrationStatus {
            n: NetworkRegistrationUrcConfig::UrcVerbose,
            stat: NetworkRegistrationStat::RegisteredRoaming,
            lac: Some(String::from("4E54")),
            ci: Some(String::from("44A5")),
            act_status: Some(6),
        })
    );
    assert_eq!(
        NetworkRegistrationStatus::parse(b"+CREG: 1,2,,,"),
        Some(NetworkRegistrationStatus {
            n: NetworkRegistrationUrcConfig::UrcEnabled,
            stat: NetworkRegistrationStat::NotRegisteredSearching,
            lac: None,
            ci: None,
            act_status: None,
        })
    );
    // A status that does not exist, a location area code that is too long,
    // too few or too many fields.
    assert_eq!(NetworkRegistrationStatus::parse(b"+CREG: 0,8"), None);
    assert_eq!(NetworkRegistrationStatus::parse(b"+CREG: 2,1,\"4E541\",\"44A5\""), None);
    assert_eq!(NetworkRegistrationStatus::parse(b"+CREG: 0"), None);
    assert_eq!(NetworkRegistrationStatus::parse(b"+CREG: 0,1,,,,"), None);
    let status = NetworkRegistrationStatus::parse(b"+CREG: 2,5,\"4E54\",\"44A5\",6").unwrap();
    let params = RegistrationParams::from(status);
    assert_eq!(params.reg_type, RegType::Creg);
    assert_eq!(params.status, Status::Roaming);
    assert_eq!(params.cell_id, None);
    assert_eq!(params.lac, None);
}

#[test]
fn identification_answers() {
    assert_eq!(
        ManufacturerId::parse(b"u-blox"),
        Some(ManufacturerId { manufacturer: b"u-blox".to_vec() })
    );
    assert_eq!(ManufacturerId::parse(b"u-blox AG Thalwil"), None);
    assert_eq!(ModelId::parse(b"LARA-R6001D"), Some(ModelId { model: b"LARA-R6001D".to_vec() }));
    assert_eq!(
        FirmwareVersion::parse(b" 02.06 "),
        Some(FirmwareVersion { version: b"02.06".to_vec() })
    );
    assert_eq!(
        IdentificationInformationResponse::parse(b"02.06,A00.01"),
        Some(IdentificationInformationResponse { app_ver: b"02.06".to_vec() })
    );
    assert_eq!(IMEI::parse(b"004999010640000"), Some(IMEI { imei: 4999010640000 }));
    assert_eq!(IMEI::parse(b"+CGSN: 357520070000000"), Some(IMEI { imei: 357520070000000 }));
    assert_eq!(IMEI::parse(b"35752007000000000000"), None);
    assert_eq!(IMEI::parse(b"not a number"), None);
    assert_eq!(CIMI::parse(b"222107701772423"), Some(CIMI { imsi: 222107701772423 }));
    assert_eq!(
        CCID::parse(b"+CCID: 89391078000234163950"),
        Some(CCID { ccid: 89391078000234163950 })
    );
}

#[test]
fn security_data_answers() {
    let import = SecurityDataImport::parse(b"+USECMNG: 0,0,\"ca_cert\",\"09BF3E65C4A6B7D6C1D0E0E31A2EB54B\"")
        .unwrap();
    assert_eq!(import.op_code, 0);
    assert_eq!(import.data_type, 0);
    assert_eq!(import.internal_name, "ca_cert");
    assert_eq!(import.md5_string, "09BF3E65C4A6B7D6C1D0E0E31A2EB54B");
    assert_eq!(SecurityDataImport::parse(b"+USECMNG: 0,0,\"ca_cert\""), None);
    assert_eq!(
        SecurityData::parse(b"+USECMNG: \"CA\",\"AddTrustCA\",\"AddTrust External CA Root\",\"2020/05/30\""),
        Some(SecurityData {
            cert_type: String::from("CA"),
            internal_name: String::from("AddTrustCA"),
            common_name: Some(String::from("AddTrust External CA Root")),
            expiration_date: Some(String::from("2020/05/30")),
        })
    );
    assert_eq!(
        SecurityData::parse(b"\"PK\",\"key\""),
        Some(SecurityData {
            cert_type: String::from("PK"),
            internal_name: String::from("key"),
            common_name: None,
            expiration_date: None,
        })
    );
    assert_eq!(SecurityData::parse(b"\"CAX\",\"key\""), None);
    let data = [0u8, 255, 10, 13, 65];
    assert_eq!(SendSecurityDataImport { data: &data }.to_bytes(), data.to_vec());
    assert_eq!(DownloadFile { text: b"hello" }.to_bytes(), b"hello".to_vec());
}

fn chars(s: &str) -> Vec<char> {
    s.chars().collect()
}

#[test]
fn name_resolution() {
    assert_eq!(check_addr_type(AddrType::IPv6), Err(SocketError::Illegal));
    assert_eq!(check_addr_type(AddrType::IPv4), Ok(()));
    assert_eq!(check_addr_type(AddrType::Either), Ok(()));
    assert_eq!(address_text(&IpAddr::V4([93, 184, 216, 34])), "93.184.216.34");
    let q = name_query("example.com");
    assert_eq!(q.resolution_type, 0);
    assert_eq!(q.ip_domain_string, "example.com");
    assert_eq!(address_query("93.184.216.34").resolution_type, 1);
    assert_eq!(parse_ipv4(&chars("1.2.3.4")), Some([1, 2, 3, 4]));
    assert_eq!(parse_ipv4(&chars("255.0.10.0")), Some([255, 0, 10, 0]));
    for bad in ["01.2.3.4", "256.1.1.1", "1.2.3", "1.2.3.4.5", "", "1..2.3", " 1.2.3.4", "1.2.3.a"] {
        assert_eq!(parse_ipv4(&chars(bad)), None, "{bad}");
    }
    let answer = ResolveNameIpResponse::parse(b"+UDNSRN: \"93.184.216.34\"").unwrap();
    assert_eq!(answer.ip_domain_string, "93.184.216.34");
    assert_eq!(host_address(&answer), Ok(IpAddr::V4([93, 184, 216, 34])));
    let name = ResolveNameIpResponse::parse(b"+UDNSRN: \"example.com\"").unwrap();
    assert_eq!(host_address(&name), Err(SocketError::Illegal));
    let six = ResolveNameIpResponse::parse(b"+UDNSRN: \"2a00:1450:4001:82a::200e\"").unwrap();
    assert_eq!(host_address(&six), Ok(IpAddr::V6([0x2a00, 0x1450, 0x4001, 0x82a, 0, 0, 0, 0x200e])));
    // The same addresses as the standard library reads.
    let mut seed: u32 = 11;
    for _ in 0..3000 {
        let mut text = String::new();
        let parts = 3 + (seed % 3);
        for k in 0..parts {
            seed = seed.wrapping_mul(1103515245).wrapping_add(12345);
            if k > 0 {
                text.push('.');
            }
            match (seed >> 16) % 6 {
                0 => text.push_str("0"),
                1 => text.push_str(&((seed >> 8) % 300).to_string()),
                2 => text.push_str(&format!("0{}", (seed >> 8) % 10)),
                3 => text.push_str(&((seed >> 4) % 256).to_string()),
                4 => {}
                _ => text.push_str(&((seed >> 8) % 1000).to_string()),
            }
        }
        let std = text.parse::<core::net::Ipv4Addr>().ok().map(|a| a.octets());
        assert_eq!(parse_ipv4(&chars(&text)), std, "{text}");
    }
}

#[test]
fn ipv6_text_is_read() {
    assert_eq!(parse_ipv6(&chars("::")), Some([0; 8]));
    assert_eq!(parse_ipv6(&chars("::1")), Some([0, 0, 0, 0, 0, 0, 0, 1]));
    assert_eq!(parse_ipv6(&chars("1::")), Some([1, 0, 0, 0, 0, 0, 0, 0]));
    assert_eq!(parse_ipv6(&chars("1:2:3:4:5:6:7:8")), Some([1, 2, 3, 4, 5, 6, 7, 8]));
    assert_eq!(parse_ipv6(&chars("1:2:3:4:5:6:7::")), Some([1, 2, 3, 4, 5, 6, 7, 0]));
    assert_eq!(parse_ipv6(&chars("::ffff:192.0.2.1")), Some([0, 0, 0, 0, 0, 0xffff, 0xc000, 0x0201]));
    assert_eq!(parse_ipv6(&chars("1:2:3:4:5:6:1.2.3.4")), Some([1, 2, 3, 4, 5, 6, 0x0102, 0x0304]));
    assert_eq!(parse_ipv6(&chars("ABCD:ef01::0000")), Some([0xabcd, 0xef01, 0, 0, 0, 0, 0, 0]));
    for bad in [
        "", ":", ":::", "1:::2", "1::2::3", "12345::", "1:2:3:4:5:6:7", "1:2:3:4:5:6:7:8:9",
        "1:2:3:4:5:6:7:8::", "::1.2.3.4:5", "1.2.3.4::", "1:2:3:4:5:6::1.2.3.4", "g::", "::1:",
        ":1::", "1:2:3:4:5:6:7:1.2.3.4", "::01.2.3.4",
    ] {
        assert_eq!(parse_ipv6(&chars(bad)), None, "{bad}");
    }
    assert_eq!(parse_ip(&chars("10.0.0.1")), Some(IpAddr::V4([10, 0, 0, 1])));
    assert_eq!(parse_ip(&chars("fe80::1")), Some(IpAddr::V6([0xfe80, 0, 0, 0, 0, 0, 0, 1])));
    assert_eq!(parse_ip(&chars("example.com")), None);
    // The same addresses as the standard library reads.
    let atoms = ["0", "1", "ff", "FFFF", "12345", "abcd", "0db8", "1.2.3.4", "256.1.1.1", "g", "", "::", ":"];
    let mut seed: u32 = 7;
    for _ in 0..20000 {
        let mut text = String::new();
        seed = seed.wrapping_mul(1103515245).wrapping_add(12345);
        let parts = 1 + (seed >> 16) % 10;
        for k in 0..parts {
            seed = seed.wrapping_mul(1103515245).wrapping_add(12345);
            if k > 0 {
                text.push(if (seed >> 20) % 7 == 0 { '.' } else { ':' });
            }
            text.push_str(atoms[((seed >> 16) % atoms.len() as u32) as usize]);
        }
        let std6 = text.parse::<core::net::Ipv6Addr>().ok().map(|a| a.segments());
        assert_eq!(parse_ipv6(&chars(&text)), std6, "{text}");
        let std = text.parse::<core::net::IpAddr>().ok().map(|a| match a {
            core::net::IpAddr::V4(v) => IpAddr::V4(v.octets()),
            core::net::IpAddr::V6(v) => IpAddr::V6(v.segments()),
        });
        assert_eq!(parse_ip(&chars(&text)), std, "{text}");
    }
    // Every address, written canonically, is read back.
    for _ in 0..2000 {
        let mut g = [0u16; 8];
        for x in g.iter_mut() {
            seed = seed.wrapping_mul(1103515245).wrapping_add(12345);
            *x = if (seed >> 16) % 3 == 0 { 0 } else { (seed >> 8) as u16 };
        }
        let text = core::net::Ipv6Addr::from(g).to_string();
        assert_eq!(parse_ipv6(&chars(&text)), Some(g), "{text}");
        // The library's own text of an address reads back as it.
        let ip = IpAddr::V6(g);
        assert_eq!(parse_ip(&chars(&address_text(&ip))), Some(ip));
        let o = [(seed >> 24) as u8, (seed >> 16) as u8, (seed >> 8) as u8, seed as u8];
        assert_eq!(parse_ip(&chars(&address_text(&IpAddr::V4(o)))), Some(IpAddr::V4(o)));
    }
    let mapped = IpAddr::V6([0, 0, 0, 0, 0, 0xffff, 0xc000, 0x0201]);
    assert_eq!(address_text(&mapped), "::ffff:192.0.2.1");
    assert_eq!(parse_ip(&chars("::ffff:192.0.2.1")), Some(mapped));
}

#[test]
fn utf8_decoding_matches_std() {
    let cases: [&[u8]; 12] = [
        b"",
        b"plain",
        b"Telen\xc3\xb8r",
        b"\xe2\x82\xac",
        b"\xf0\x9f\x98\x80",
        b"\xc0\x80",
        b"\xe0\x80\xaf",
        b"\xed\xa0\x80",
        b"\xf4\x90\x80\x80",
        b"\xf8\x88\x80\x80\x80",
        b"\xc3",
        b"\xb8",
    ];
    for bytes in cases {
        let std = std::str::from_utf8(bytes).ok().map(String::from);
        assert_eq!(decode_utf8(bytes), std, "{bytes:?}");
    }
    let chars: Vec<char> = b"Telen\xc3\xb8r".iter().map(|b| *b as char).collect();
    assert_eq!(read_utf8(&chars), Some(String::from("Telen\u{f8}r")));
}
