use ublox_cellular::client::{
    check_send_at, initialize_start, needs_operator_selection, setup_step, setup_steps, sim_ready, spin_outcome,
    SetupAction, SetupEvent, SetupState,
    InitStart, SetupStep, State,
};
use ublox_cellular::command::control::FlowControl as LineFlowControl;
use ublox_cellular::command::control::{
    Circuit108Behaviour, Circuit109Behaviour, SetCircuit108Behaviour, SetCircuit109Behaviour, SetFlowControl,
};
use ublox_cellular::command::device_lock::GetPinStatus;
use ublox_cellular::command::ip_transport_layer::SetHexMode;
use ublox_cellular::command::mobile_control::{PowerSavingMode, SetPowerSavingControl};
use ublox_cellular::command::network_service::{
    GetSignalQuality, OperatorNameFormat, OperatorSelection, RatAct, SignalQuality,
};
use ublox_cellular::command::psn::{
    EPSNetworkRegistrationUrcConfig, GPRSNetworkRegistrationUrcConfig, PSEventReportingMode,
    SetEPSNetworkRegistrationStatus, SetGPRSNetworkRegistrationStatus, SetPacketSwitchedEventReporting,
};
use ublox_cellular::services::data::ssl::{
    enable_ssl, import_certificate, import_private_key, import_root_ca, SecurityProfileId,
};
use ublox_cellular::services::data::tls::TlsConnector;
use ublox_cellular::module_timing::{kill_time, pwr_off_time, pwr_on_time, reset_time};
use ublox_cellular::command::device_data_security::{
    CertificateValidationLevel, PrepareSecurityDataImport, SecurityDataType, SecurityProfileManager,
    SecurityProfileOperation,
};
use ublox_cellular::command::device_lock::PinStatusCode;
use ublox_cellular::command::general::{GetIMEI, IdentificationInformation};
use ublox_cellular::command::ip_transport_layer::{HexMode, SocketClosed, SocketDataAvailable};
use ublox_cellular::command::mobile_control::{
    Functionality, ModuleSwitchOff, ResetMode, SetClock, SetModuleFunctionality,
};
use ublox_cellular::command::psn::{
    EPSNetworkRegistrationStatus, GPRSNetworkRegistrationStatus, GetEPSNetworkRegistrationStatus,
    GetGPRSNetworkRegistrationStatus,
};
use ublox_cellular::registration::{RegType, RegistrationParams, Status};
use ublox_cellular::command::system_features::{
    FSFactoryRestoreType, NVMFactoryRestoreType, SetFactoryConfiguration,
};
use ublox_cellular::command::network_service::{
    GetNetworkRegistrationStatus, NetworkRegistrationUrcConfig, OperatorSelectionMode,
    SetNetworkRegistrationStatus,
};
use ublox_cellular::command::psn::{
    AuthenticationType, GPRSAttached, GPRSAttachedState, GetGPRSAttached, GetPacketSwitchedConfig,
    PacketSwitchedAction, PacketSwitchedConfig, PacketSwitchedNetworkData, PacketSwitchedParam,
    PacketSwitchedParamReq, ProtocolType, SetAuthParameters, SetPDPContextDefinition,
    SetPacketSwitchedAction, SetPacketSwitchedConfig,
};
use ublox_cellular::socket::endpoint::{push_ip_text, IpAddr};
use ublox_cellular::command::{Urc, AT};
use ublox_cellular::config::FlowControl;
use ublox_cellular::error::Error as DeviceError;
use ublox_cellular::network::ContextId;
use ublox_cellular::power::PowerState;
use ublox_cellular::services::data::apn::{APNInfo, Apn};
use ublox_cellular::services::data::context::{
    activation_step, attach_step, context_activated, context_definition, parse_context_states,
    profile_settings,
    ActivationCommand, ActivationProgress, ActivationStep, AttachStep, DefinitionStep,
    PdpContextState, ATTACH_ATTEMPTS,
};
use ublox_cellular::services::data::egress::{check_write_reply, egress_chunks};
use ublox_cellular::services::data::ingress::{plan_ingress, IngressPlan};
use ublox_cellular::services::data::{ContextState, Error};
use ublox_cellular::socket::set::SocketSet;
use ublox_cellular::socket::tcp::TcpSocket;
use ublox_cellular::socket::udp::UdpSocket;
use ublox_cellular::socket::{Handle, Socket};
use ublox_cellular::time::Instant;

fn text(v: Vec<char>) -> String {
    v.into_iter().collect()
}

#[test]
fn command_lines() {
    assert_eq!(text(AT.to_text()), "AT\r\n");
    assert_eq!(text(ModuleSwitchOff.to_text()), "AT+CPWROFF\r\n");
    assert_eq!(
        text(
            SetModuleFunctionality {
                fun: Functionality::Minimum,
                rst: Some(ResetMode::DontReset)
            }
            .to_text()
        ),
        "AT+CFUN=0,0\r\n"
    );
    assert_eq!(
        text(
            SetModuleFunctionality {
                fun: Functionality::Full,
                rst: None
            }
            .to_text()
        ),
        "AT+CFUN=1\r\n"
    );
    assert_eq!(text(GetIMEI { snt: None }.to_text()), "AT+CGSN\r\n");
    let restore = SetFactoryConfiguration {
        fs_op: FSFactoryRestoreType::AllFiles,
        nvm_op: NVMFactoryRestoreType::NVMFlashSectors,
    };
    assert_eq!(text(restore.to_text()), "AT+UFACTORY=2,1\r\n");
    let keep = SetFactoryConfiguration {
        fs_op: FSFactoryRestoreType::NoRestore,
        nvm_op: NVMFactoryRestoreType::NoRestore,
    };
    assert_eq!(text(keep.to_text()), "AT+UFACTORY=0,0\r\n");
    assert_eq!(text(GetGPRSNetworkRegistrationStatus.to_text()), "AT+CGREG?\r\n");
    assert_eq!(text(GetEPSNetworkRegistrationStatus.to_text()), "AT+CEREG?\r\n");
    assert_eq!(
        GPRSNetworkRegistrationStatus::parse(b"+CGREG: 2,1,\"61EF\",\"7C4D\",0,\"C1\""),
        Some(GPRSNetworkRegistrationStatus { n: 2, stat: 1 })
    );
    assert_eq!(
        EPSNetworkRegistrationStatus::parse(b"+CEREG: 0,5"),
        Some(EPSNetworkRegistrationStatus { n: 0, stat: 5 })
    );
    assert_eq!(EPSNetworkRegistrationStatus::parse(b"+CEREG: 0"), None);
    let gprs = RegistrationParams::from_gprs_registration(5);
    assert_eq!(gprs.reg_type, RegType::Cgreg);
    assert_eq!(gprs.status, Status::Roaming);
    assert_eq!(RegistrationParams::from_eps_registration(1).reg_type, RegType::Cereg);
    assert_eq!(text(IdentificationInformation { n: 9 }.to_text()), "ATI9\r\n");
    assert_eq!(text(GetGPRSAttached.to_text()), "AT+CGATT?\r\n");
    assert_eq!(
        text(
            SetPacketSwitchedAction {
                profile_id: 1,
                action: PacketSwitchedAction::Activate
            }
            .to_text()
        ),
        "AT+UPSDA=1,3\r\n"
    );
    assert_eq!(
        text(SetClock { time: "21/01/01,12:00:00+04" }.to_text()),
        "AT+CCLK=\"21/01/01,12:00:00+04\"\r\n"
    );
    assert_eq!(
        text(
            PrepareSecurityDataImport {
                data_type: SecurityDataType::TrustedRootCA,
                internal_name: "ca \"x\"",
                data_size: 1200,
                password: None
            }
            .to_text()
        ),
        "AT+USECMNG=0,0,\"ca \\22x\\22\",1200\r\n"
    );
}

#[test]
fn egress_in_chunks() {
    assert_eq!(egress_chunks(0), vec![]);
    assert_eq!(egress_chunks(10), vec![(0, 10)]);
    assert_eq!(egress_chunks(1024), vec![(0, 1024)]);
    assert_eq!(egress_chunks(2500), vec![(0, 1024), (1024, 2048), (2048, 2500)]);
    assert_eq!(check_write_reply(Handle(1), 10, Handle(1), 10), Ok(()));
    assert_eq!(check_write_reply(Handle(1), 10, Handle(1), 9), Err(Error::BadLength));
    assert_eq!(check_write_reply(Handle(1), 10, Handle(2), 10), Err(Error::WrongSocketType));
}

#[test]
fn ingress_planning() {
    assert_eq!(plan_ingress(0, false, true, 10), Ok(IngressPlan::Idle));
    assert_eq!(plan_ingress(0, true, true, 10), Ok(IngressPlan::Poll));
    assert_eq!(plan_ingress(5, false, false, 0), Err(Error::BufferFull));
    assert_eq!(plan_ingress(500, false, true, 1000), Ok(IngressPlan::Read(256)));
    assert_eq!(plan_ingress(500, false, true, 100), Ok(IngressPlan::Read(100)));
    assert_eq!(plan_ingress(20, false, true, 100), Ok(IngressPlan::Read(20)));
}

#[test]
fn ingest_socket_data() {
    let mut udp: UdpSocket<1000, 8> = UdpSocket::new(1);
    udp.set_available_data(3);
    assert_eq!(udp.plan_ingress(Instant::from_ticks(0)), Ok(IngressPlan::Read(3)));
    assert_eq!(
        udp.ingest(Handle(2), 3, Some(b"616263".to_vec())),
        Err(Error::WrongSocketType)
    );
    assert_eq!(udp.ingest(Handle(1), 2, Some(b"616263".to_vec())), Err(Error::BadLength));
    assert_eq!(udp.ingest(Handle(1), 3, Some(b"6162zz".to_vec())), Err(Error::InvalidHex));
    assert_eq!(udp.ingest(Handle(1), 3, Some(b"616263".to_vec())), Ok(()));
    assert_eq!(udp.get_available_data(), 3);
    assert_eq!(udp.ingest(Handle(1), 0, None), Err(Error::Socket(ublox_cellular::socket::Error::Exhausted)));
    assert_eq!(udp.get_available_data(), 0);
    assert_eq!(udp.rx_window(), 5);
    // with nothing waiting, the first poll check is not due yet
    assert_eq!(udp.plan_ingress(Instant::from_ticks(100)), Ok(IngressPlan::Idle));
    assert_eq!(udp.plan_ingress(Instant::from_ticks(20_000)), Ok(IngressPlan::Poll));
}

#[test]
fn context_activation_steps() {
    let cid = ContextId(1);
    let states = [
        PdpContextState { cid: ContextId(2), activated: true },
        PdpContextState { cid, activated: false },
        PdpContextState { cid, activated: true },
    ];
    assert!(!context_activated(&states, cid));
    assert!(context_activated(&states, ContextId(2)));
    assert!(!context_activated(&states, ContextId(3)));

    let mut p = ActivationProgress::new();
    assert_eq!(activation_step(ContextState::Active, cid, &p), ActivationStep::Done);
    assert_eq!(
        activation_step(ContextState::Activating, cid, &p),
        ActivationStep::Send(ActivationCommand::ReadContextStates)
    );
    p.activated = Some(false);
    assert_eq!(
        activation_step(ContextState::Activating, cid, &p),
        ActivationStep::Send(ActivationCommand::ActivateContext)
    );
    p.context_activation_sent = true;
    assert_eq!(activation_step(ContextState::Activating, cid, &p), ActivationStep::WouldBlock);

    let mut p = ActivationProgress::new();
    p.activated = Some(true);
    assert_eq!(
        activation_step(ContextState::Activating, cid, &p),
        ActivationStep::Send(ActivationCommand::ReadProfileMapping)
    );
    p.mapped_context = Some(Some(ContextId(4)));
    assert_eq!(
        activation_step(ContextState::Activating, cid, &p),
        ActivationStep::Send(ActivationCommand::MapProfile)
    );
    p.remapped = true;
    assert_eq!(
        activation_step(ContextState::Activating, cid, &p),
        ActivationStep::Send(ActivationCommand::ReadProfileStatus)
    );
    p.profile_status = Some(0);
    assert_eq!(
        activation_step(ContextState::Activating, cid, &p),
        ActivationStep::Send(ActivationCommand::ActivateProfile)
    );
    p.profile_activation_sent = true;
    assert_eq!(activation_step(ContextState::Activating, cid, &p), ActivationStep::Done);
}

#[test]
fn context_definition_and_profile_settings() {
    let info = APNInfo {
        apn: Apn::Given("em"),
        user_name: Some("user"),
        password: None,
    };
    assert_eq!(
        context_definition(ContextState::Setup, &info),
        vec![
            DefinitionStep::MinimumFunctionality,
            DefinitionStep::DefineContext("em"),
            DefinitionStep::Authenticate("user", ""),
            DefinitionStep::FullFunctionality,
        ]
    );
    assert_eq!(context_definition(ContextState::Active, &info), vec![]);
    assert_eq!(
        profile_settings(&info),
        vec![
            PacketSwitchedParam::APN(String::from("em")),
            PacketSwitchedParam::Username(String::from("user")),
            PacketSwitchedParam::IPAddress(IpAddr::V4([0, 0, 0, 0])),
            PacketSwitchedParam::Authentication(AuthenticationType::Auto),
        ]
    );
    assert_eq!(APNInfo::new("em").apn, Apn::Given("em"));
    assert_eq!(
        profile_settings(&APNInfo::default()),
        vec![
            PacketSwitchedParam::IPAddress(IpAddr::V4([0, 0, 0, 0])),
            PacketSwitchedParam::Authentication(AuthenticationType::Auto),
        ]
    );
}

#[test]
fn device_decisions() {
    let steps = setup_steps(true, FlowControl::NoFlowControl);
    assert_eq!(steps.len(), 11);
    assert_eq!(steps[0], SetupStep::ReportErrors);
    assert_eq!(steps[9], SetupStep::SetHexMode(HexMode::Enabled));
    assert_eq!(steps[10], SetupStep::SetFlowControl(LineFlowControl::Disabled));
    assert_eq!(
        setup_steps(false, FlowControl::RtsCts)[10],
        SetupStep::SetFlowControl(LineFlowControl::RtsCts)
    );
    assert_eq!(initialize_start(PowerState::Off, State::FullyInitialized), InitStart::PowerOn);
    assert_eq!(initialize_start(PowerState::On, State::FullyInitialized), InitStart::AlreadyInitialized);
    assert_eq!(initialize_start(PowerState::On, State::AtInitialized), InitStart::Configure);
    assert!(!needs_operator_selection(OperatorSelectionMode::Automatic));
    assert!(!needs_operator_selection(OperatorSelectionMode::Manual));
    assert!(needs_operator_selection(OperatorSelectionMode::Deregister));
    assert_eq!(spin_outcome(true, State::FullyInitialized, ContextState::Active), (true, ContextState::Active));
    assert_eq!(spin_outcome(false, State::FullyInitialized, ContextState::Active), (false, ContextState::Activating));
    assert_eq!(spin_outcome(true, State::AtInitialized, ContextState::Setup), (false, ContextState::Setup));
    assert_eq!(check_send_at(State::Off), Err(DeviceError::Uninitialized));
    assert_eq!(check_send_at(State::AtInitialized), Ok(()));
    assert!(sim_ready(Some(PinStatusCode::Ready)));
    assert!(!sim_ready(Some(PinStatusCode::SimPin)));
    assert!(!sim_ready(None));
}

#[test]
fn socket_urcs_reach_their_socket() {
    let mut set: SocketSet<2, 1000, 8> = SocketSet::new();
    set.add(Socket::Udp(UdpSocket::new(1))).unwrap();
    set.add(Socket::Tcp(TcpSocket::new(2))).unwrap();
    set.handle_urc(
        Urc::SocketDataAvailable(SocketDataAvailable { socket: Handle(1), length: 42 }),
        Instant::from_ticks(5),
    );
    set.handle_urc(Urc::SocketClosed(SocketClosed { socket: Handle(1) }), Instant::from_ticks(7));
    set.handle_urc(
        Urc::SocketDataAvailable(SocketDataAvailable { socket: Handle(9), length: 1 }),
        Instant::from_ticks(8),
    );
    let r = set.get::<UdpSocket<1000, 8>>(Handle(1)).unwrap();
    assert_eq!(r.socket.get_available_data(), 42);
    assert!(r.socket.recycle(Instant::from_ticks(15_007)));
    assert!(!r.socket.recycle(Instant::from_ticks(14_000)));
}

#[test]
fn attach_is_read_a_bounded_number_of_times() {
    assert_eq!(attach_step(GPRSAttachedState::Attached, 0), AttachStep::Attached);
    assert_eq!(attach_step(GPRSAttachedState::Attached, 200), AttachStep::Attached);
    assert_eq!(attach_step(GPRSAttachedState::Detached, 0), AttachStep::Retry);
    assert_eq!(attach_step(GPRSAttachedState::Detached, ATTACH_ATTEMPTS - 2), AttachStep::Retry);
    assert_eq!(attach_step(GPRSAttachedState::Detached, ATTACH_ATTEMPTS - 1), AttachStep::GiveUp);
    assert_eq!(attach_step(GPRSAttachedState::Detached, 255), AttachStep::GiveUp);
}

#[test]
fn registration_status_commands() {
    let set = SetNetworkRegistrationStatus { n: NetworkRegistrationUrcConfig::UrcVerbose };
    assert_eq!(text(set.to_text()), "AT+CREG=2\r\n");
    let off = SetNetworkRegistrationStatus { n: NetworkRegistrationUrcConfig::UrcDisabled };
    assert_eq!(text(off.to_text()), "AT+CREG=0\r\n");
    assert_eq!(text(GetNetworkRegistrationStatus.to_text()), "AT+CREG?\r\n");
}

fn ip_string(ip: IpAddr) -> String {
    let mut out = Vec::new();
    push_ip_text(&mut out, &ip);
    text(out)
}

#[test]
fn profile_parameter_commands() {
    let line = |param: PacketSwitchedParam| text(SetPacketSwitchedConfig { profile_id: 0, param }.to_text());
    assert_eq!(line(PacketSwitchedParam::APN(String::from("em"))), "AT+UPSD=0,1,\"em\"\r\n");
    assert_eq!(line(PacketSwitchedParam::Username(String::from("a\"b"))), "AT+UPSD=0,2,\"a\\22b\"\r\n");
    assert_eq!(
        line(PacketSwitchedParam::IPAddress(IpAddr::V4([0, 0, 0, 0]))),
        "AT+UPSD=0,7,\"0.0.0.0\"\r\n"
    );
    assert_eq!(
        line(PacketSwitchedParam::Authentication(AuthenticationType::Auto)),
        "AT+UPSD=0,6,3\r\n"
    );
    assert_eq!(line(PacketSwitchedParam::ProtocolType(ProtocolType::IPv6)), "AT+UPSD=0,0,1\r\n");
    assert_eq!(
        line(PacketSwitchedParam::DNS2(IpAddr::V6([0x2001, 0xdb8, 0, 0, 0, 0, 0, 1]))),
        "AT+UPSD=0,5,\"2001:db8::1\"\r\n"
    );
    assert_eq!(line(PacketSwitchedParam::UNUSED), "AT+UPSD=0,13\r\n");
}

#[test]
fn ip_text_is_canonical() {
    assert_eq!(ip_string(IpAddr::V4([192, 168, 1, 10])), "192.168.1.10");
    assert_eq!(ip_string(IpAddr::V6([0; 8])), "::");
    assert_eq!(ip_string(IpAddr::V6([0, 0, 0, 0, 0, 0, 0, 1])), "::1");
    assert_eq!(ip_string(IpAddr::V6([1, 0, 0, 0, 0, 0, 0, 0])), "1::");
    assert_eq!(ip_string(IpAddr::V6([1, 0, 1, 0, 1, 0, 1, 0])), "1:0:1:0:1:0:1:0");
    assert_eq!(ip_string(IpAddr::V6([1, 0, 0, 2, 0, 0, 3, 4])), "1::2:0:0:3:4");
    assert_eq!(ip_string(IpAddr::V6([1, 0, 0, 2, 0, 0, 0, 3])), "1:0:0:2::3");
    assert_eq!(
        ip_string(IpAddr::V6([0, 0, 0, 0, 0, 0xffff, 0xc000, 0x0280])),
        "::ffff:192.0.2.128"
    );
    // The same text as the standard library writes.
    let mut seed: u32 = 7;
    for _ in 0..2000 {
        let mut g = [0u16; 8];
        for k in 0..8 {
            seed = seed.wrapping_mul(1103515245).wrapping_add(12345);
            let r = (seed >> 16) % 5;
            g[k] = match r {
                0 | 1 => 0,
                2 => (seed >> 8) as u16,
                3 => (seed >> 20) as u16 & 0xf,
                _ => 0xffff,
            };
        }
        assert_eq!(ip_string(IpAddr::V6(g)), core::net::Ipv6Addr::from(g).to_string());
        let o = [(seed >> 24) as u8, (seed >> 16) as u8, (seed >> 8) as u8, seed as u8];
        assert_eq!(ip_string(IpAddr::V4(o)), core::net::Ipv4Addr::from(o).to_string());
    }
}

#[test]
fn data_service_answers() {
    assert_eq!(
        GPRSAttached::parse(b"+CGATT: 1"),
        Some(GPRSAttached { state: GPRSAttachedState::Attached })
    );
    assert_eq!(
        GPRSAttached::parse(b"+CGATT: 0"),
        Some(GPRSAttached { state: GPRSAttachedState::Detached })
    );
    assert_eq!(GPRSAttached::parse(b"+CGATT: 3"), None);
    assert_eq!(
        PacketSwitchedNetworkData::parse(b"+UPSND: 0,8,1"),
        Some(PacketSwitchedNetworkData { profile_id: 0, param_tag: 8, param_val: String::from("1") })
    );
    assert_eq!(
        PacketSwitchedNetworkData::parse(b"+UPSND: 0,0,\"93.68.225.175\""),
        Some(PacketSwitchedNetworkData {
            profile_id: 0,
            param_tag: 0,
            param_val: String::from("93.68.225.175"),
        })
    );
    assert_eq!(PacketSwitchedNetworkData::parse(b"+UPSND: 0,8"), None);
    assert_eq!(
        PacketSwitchedConfig::parse(b"+UPSD: 0,100,1"),
        Some(PacketSwitchedConfig { profile_id: 0, param: PacketSwitchedParam::MapProfile(ContextId(1)) })
    );
    assert_eq!(
        PacketSwitchedConfig::parse(b"+UPSD: 2,1,\"em\""),
        Some(PacketSwitchedConfig { profile_id: 2, param: PacketSwitchedParam::APN(String::from("em")) })
    );
    assert_eq!(
        PacketSwitchedConfig::parse(b"+UPSD: 0,6,3"),
        Some(PacketSwitchedConfig {
            profile_id: 0,
            param: PacketSwitchedParam::Authentication(AuthenticationType::Auto),
        })
    );
    assert_eq!(PacketSwitchedConfig::parse(b"+UPSD: 0,6,7"), None);
    assert_eq!(
        PacketSwitchedConfig::parse(b"+UPSD: 0,7,\"0.0.0.0\""),
        Some(PacketSwitchedConfig { profile_id: 0, param: PacketSwitchedParam::IPAddress(IpAddr::V4([0, 0, 0, 0])) })
    );
    assert_eq!(
        PacketSwitchedConfig::parse(b"+UPSD: 1,4,\"2001:db8::1\""),
        Some(PacketSwitchedConfig {
            profile_id: 1,
            param: PacketSwitchedParam::DNS1(IpAddr::V6([0x2001, 0xdb8, 0, 0, 0, 0, 0, 1])),
        })
    );
    assert_eq!(
        PacketSwitchedConfig::parse(b"+UPSD: 1,5,\"8.8.4.4\""),
        Some(PacketSwitchedConfig { profile_id: 1, param: PacketSwitchedParam::DNS2(IpAddr::V4([8, 8, 4, 4])) })
    );
    assert_eq!(PacketSwitchedConfig::parse(b"+UPSD: 1,4,\"dns.example\""), None);
    assert_eq!(
        parse_context_states(b"+CGACT: 1,1\r\n+CGACT: 2,0"),
        Some(vec![
            PdpContextState { cid: ContextId(1), activated: true },
            PdpContextState { cid: ContextId(2), activated: false },
        ])
    );
    assert_eq!(parse_context_states(b""), Some(vec![]));
    assert_eq!(parse_context_states(b"+CGACT: 1,2"), None);
    let map = SetPacketSwitchedConfig { profile_id: 0, param: PacketSwitchedParam::MapProfile(ContextId(1)) };
    assert_eq!(text(map.to_text()), "AT+UPSD=0,100,1\r\n");
    let read = GetPacketSwitchedConfig { profile_id: 0, param: PacketSwitchedParamReq::MapProfile };
    assert_eq!(text(read.to_text()), "AT+UPSD=0,100\r\n");
}

#[test]
fn context_definition_commands() {
    let define = SetPDPContextDefinition { cid: ContextId(1), pdp_type: "IP", apn: "em" };
    assert_eq!(text(define.to_text()), "AT+CGDCONT=1,\"IP\",\"em\"\r\n");
    let auth = SetAuthParameters {
        cid: ContextId(1),
        auth_type: AuthenticationType::Auto,
        username: "user",
        password: "",
    };
    assert_eq!(text(auth.to_text()), "AT+UAUTHREQ=1,3,\"user\",\"\"\r\n");
}

#[test]
fn control_pin_timing() {
    assert_eq!(pwr_on_time::<1_000_000>().ticks(), 50);
    assert_eq!(pwr_on_time::<32_768>().ticks(), 1);
    assert_eq!(pwr_on_time::<1_000>().ticks(), 0);
    assert_eq!(pwr_off_time::<1_000>().ticks(), 1_000);
    assert_eq!(reset_time::<1_000>().ticks(), 50);
    assert_eq!(reset_time::<32_768>().ticks(), 1_638);
    assert!(kill_time::<1_000>().is_none());
}

#[test]
fn security_profile_plans() {
    let data = [1u8, 2, 3, 4, 5];
    let import = import_root_ca(SecurityProfileId(0), "ca", &data);
    assert_eq!(text(import.prepare.to_text()), "AT+USECMNG=0,0,\"ca\",5\r\n");
    assert_eq!(import.data.to_bytes(), data.to_vec());
    assert_eq!(text(import.profile.to_text()), "AT+USECPRF=0,3,\"ca\"\r\n");
    let cert = import_certificate(SecurityProfileId(1), "cc", &data);
    assert_eq!(text(cert.prepare.to_text()), "AT+USECMNG=0,1,\"cc\",5\r\n");
    assert_eq!(text(cert.profile.to_text()), "AT+USECPRF=1,5,\"cc\"\r\n");
    let key = import_private_key(SecurityProfileId(1), "pk", &data, Some("pw"));
    assert_eq!(text(key.prepare.to_text()), "AT+USECMNG=0,2,\"pk\",5,\"pw\"\r\n");
    assert_eq!(text(key.profile.to_text()), "AT+USECPRF=1,6,\"pk\"\r\n");
    let lines: Vec<String> = enable_ssl(SecurityProfileId(0), "example.com")
        .iter()
        .map(|c| text(c.to_text()))
        .collect();
    assert_eq!(
        lines,
        vec![
            "AT+USECPRF=0,0,3\r\n".to_string(),
            "AT+USECPRF=0,2,0\r\n".to_string(),
            "AT+USECPRF=0,4,\"example.com\"\r\n".to_string(),
        ]
    );
    let connector = TlsConnector::new(SecurityProfileId(2));
    assert_eq!(connector.connect_settings("example.com").len(), 3);
    assert_eq!(
        connector.connect_settings("h")[1],
        SecurityProfileManager {
            profile_id: SecurityProfileId(2),
            operation: Some(SecurityProfileOperation::CipherSuite(0)),
        }
    );
    assert_eq!(
        connector.connect_settings("h")[0].operation,
        Some(SecurityProfileOperation::CertificateValidationLevel(
            CertificateValidationLevel::RootCertValidationWithValidityDate
        ))
    );
    assert_eq!(
        text(SecurityProfileManager { profile_id: SecurityProfileId(2), operation: None }.to_text()),
        "AT+USECPRF=2\r\n"
    );
}

#[test]
fn setup_commands() {
    assert_eq!(text(SetCircuit109Behaviour { value: Circuit109Behaviour::ChangesWithCarrier }.to_text()), "AT&C1\r\n");
    assert_eq!(text(SetCircuit108Behaviour { value: Circuit108Behaviour::Ignore }.to_text()), "AT&D0\r\n");
    assert_eq!(text(SetFlowControl { value: LineFlowControl::RtsCts }.to_text()), "AT&K3\r\n");
    assert_eq!(text(SetFlowControl { value: LineFlowControl::Disabled }.to_text()), "AT&K0\r\n");
    assert_eq!(
        text(SetPowerSavingControl { mode: PowerSavingMode::Disabled, timeout: None }.to_text()),
        "AT+UPSV=0\r\n"
    );
    assert_eq!(
        text(SetPowerSavingControl { mode: PowerSavingMode::Enabled, timeout: Some(2000) }.to_text()),
        "AT+UPSV=1,2000\r\n"
    );
    assert_eq!(text(SetHexMode { hex_mode_disable: HexMode::Enabled }.to_text()), "AT+UDCONF=1,1\r\n");
    assert_eq!(
        text(SetPacketSwitchedEventReporting { mode: PSEventReportingMode::CircularBufferUrcs, bfr: None }.to_text()),
        "AT+CGEREP=2\r\n"
    );
    assert_eq!(
        text(SetGPRSNetworkRegistrationStatus { n: GPRSNetworkRegistrationUrcConfig::UrcDisabled }.to_text()),
        "AT+CGREG=0\r\n"
    );
    assert_eq!(
        text(SetEPSNetworkRegistrationStatus { n: EPSNetworkRegistrationUrcConfig::UrcDisabled }.to_text()),
        "AT+CEREG=0\r\n"
    );
    assert_eq!(text(GetPinStatus.to_text()), "AT+CPIN?\r\n");
    assert_eq!(text(GetSignalQuality.to_text()), "AT+CESQ\r\n");
    assert_eq!(
        SignalQuality::parse(b"+CESQ: 99,99,255,255,20,80"),
        Some(SignalQuality { rxlev: 99, ber: 99, rscp: 255, ecn0: 255, rsrq: 20, rsrp: 80 })
    );
    assert_eq!(SignalQuality::parse(b"+CESQ: 99,99,255,255,20"), None);
    assert_eq!(
        OperatorSelection::parse(b"+COPS: 0,0,\"Telenor\",7"),
        Some(OperatorSelection {
            mode: OperatorSelectionMode::Automatic,
            oper: Some(OperatorNameFormat::Long(String::from("Telenor"))),
            act: Some(RatAct::Lte),
        })
    );
    assert_eq!(
        OperatorSelection::parse(b"+COPS: 1,2,\"24201\""),
        Some(OperatorSelection {
            mode: OperatorSelectionMode::Manual,
            oper: Some(OperatorNameFormat::Numeric(String::from("24201"))),
            act: None,
        })
    );
    assert_eq!(
        OperatorSelection::parse(b"+COPS: 2"),
        Some(OperatorSelection { mode: OperatorSelectionMode::Deregister, oper: None, act: None })
    );
    assert_eq!(OperatorSelection::parse(b"+COPS: 9"), None);
    // a numeric name has at most 6 characters; the format comes with a name
    assert_eq!(OperatorSelection::parse(b"+COPS: 0,2,\"1234567\""), None);
    assert_eq!(OperatorSelection::parse(b"+COPS: 0,0"), None);
    assert_eq!(OperatorSelection::parse(b"+COPS: 0,0,\"Telenor\",12"), None);
}

#[test]
fn string_fields_are_read_as_utf8() {
    assert_eq!(
        OperatorSelection::parse(b"+COPS: 0,0,\"Telen\xc3\xb8r\",7"),
        Some(OperatorSelection {
            mode: OperatorSelectionMode::Automatic,
            oper: Some(OperatorNameFormat::Long(String::from("Telen\u{f8}r"))),
            act: Some(RatAct::Lte),
        })
    );
    // a short name holds at most 10 bytes: "\u{e6}\u{f8}\u{e5}\u{e6}\u{f8}\u{e5}" takes 12
    assert_eq!(OperatorSelection::parse(b"+COPS: 0,1,\"\xc3\xa6\xc3\xb8\xc3\xa5\xc3\xa6\xc3\xb8\xc3\xa5\""), None);
    // a lone continuation byte and a cut sequence are no UTF-8
    assert_eq!(OperatorSelection::parse(b"+COPS: 0,0,\"Telen\xb8r\""), None);
    assert_eq!(OperatorSelection::parse(b"+COPS: 0,0,\"Telen\xc3\""), None);
    assert_eq!(
        PacketSwitchedNetworkData::parse(b"+UPSND: 0,1,\"\xe2\x82\xac\""),
        Some(PacketSwitchedNetworkData { profile_id: 0, param_tag: 1, param_val: String::from("\u{20ac}") })
    );
    assert_eq!(PacketSwitchedNetworkData::parse(b"+UPSND: 0,1,\"\xed\xa0\x80\""), None);
}

#[test]
fn setup_goes_step_by_step() {
    let steps = setup_steps(true, FlowControl::NoFlowControl);
    let ok = SetupEvent::Succeeded;
    let failed = SetupEvent::Failed;
    assert_eq!(setup_step(&steps, SetupState::Start, ok), (SetupState::PoweringOn, SetupAction::PrepareAndPowerOn));
    assert_eq!(setup_step(&steps, SetupState::PoweringOn, failed), (SetupState::Failed, SetupAction::FailWithLastError));
    assert_eq!(setup_step(&steps, SetupState::PoweringOn, ok), (SetupState::CheckingAlive, SetupAction::CheckAlive));
    // a module that does not answer is reset hard, then powered off hard
    assert_eq!(setup_step(&steps, SetupState::CheckingAlive, failed), (SetupState::HardResetting, SetupAction::HardReset));
    assert_eq!(setup_step(&steps, SetupState::HardResetting, ok), (SetupState::Failed, SetupAction::FailBaudDetection));
    assert_eq!(
        setup_step(&steps, SetupState::HardResetting, failed),
        (SetupState::HardPoweringOff, SetupAction::HardPowerOffAndWait)
    );
    assert_eq!(setup_step(&steps, SetupState::HardPoweringOff, ok), (SetupState::Failed, SetupAction::FailBaudDetection));
    assert_eq!(setup_step(&steps, SetupState::HardPoweringOff, failed), (SetupState::Failed, SetupAction::FailWithLastError));
    // the commands in order; the first failure stops; the last success initializes
    assert_eq!(setup_step(&steps, SetupState::CheckingAlive, ok), (SetupState::Step(0), SetupAction::Send(steps[0])));
    assert_eq!(setup_step(&steps, SetupState::Step(3), ok), (SetupState::Step(4), SetupAction::Send(steps[4])));
    assert_eq!(setup_step(&steps, SetupState::Step(3), failed), (SetupState::Failed, SetupAction::FailWithLastError));
    assert_eq!(setup_step(&steps, SetupState::Step(10), ok), (SetupState::Done, SetupAction::MarkAtInitialized));
    assert_eq!(setup_step(&[], SetupState::CheckingAlive, ok), (SetupState::Done, SetupAction::MarkAtInitialized));
    assert_eq!(setup_step(&steps, SetupState::Done, ok), (SetupState::Done, SetupAction::Idle));
}
