use ublox_cellular::hex::{from_hex, FromHexError};
use ublox_cellular::command::mobile_control::Functionality;
use ublox_cellular::error::{Error, GenericError};
use ublox_cellular::power::{
    hard_power_off_plan, power_on_plan, power_state_of, power_wait_step, soft_reset_functionality,
    PowerOnPlan, PowerState,
};
use ublox_cellular::registration::{CellularRegistrationStatus, Status};
use ublox_cellular::time::{Duration, Instant};

#[test]
fn hex_decodes_in_place() {
    let mut data = *b"48656c6C6f";
    assert_eq!(from_hex(&mut data), Ok(&b"Hello"[..]));
    let mut odd = *b"abc";
    assert_eq!(from_hex(&mut odd), Err(FromHexError::OddLength));
    let mut bad = *b"zz";
    assert_eq!(from_hex(&mut bad), Err(FromHexError::InvalidHexCharacter));
    let mut empty: [u8; 0] = [];
    assert_eq!(from_hex(&mut empty), Ok(&b""[..]));
}

#[test]
fn hex_decoding_leaves_the_second_half() {
    let mut buf = *b"0aFf";
    assert_eq!(from_hex(&mut buf), Ok(&[0x0a_u8, 0xff][..]));
    assert_eq!(buf, [0x0a, 0xff, b'F', b'f']);
    // an odd length is refused before anything is written
    let mut odd = *b"zzz";
    assert_eq!(from_hex(&mut odd), Err(FromHexError::OddLength));
    assert_eq!(&odd, b"zzz");
    // decoding stops at the first pair that is not hexadecimal
    let mut partly = *b"41zz4243";
    assert_eq!(from_hex(&mut partly), Err(FromHexError::InvalidHexCharacter));
    assert_eq!(&partly, b"A1zz4243");
}

#[test]
fn instants_on_the_wrapping_counter() {
    let a: Instant<1000> = Instant::from_ticks(u32::MAX - 9);
    let b: Instant<1000> = Instant::from_ticks(10);
    assert_eq!(b.checked_duration_since(a).map(|d| d.ticks()), Some(20));
    assert_eq!(a.checked_duration_since(b), None);
    let d: Duration<1000> = Duration::from_ticks(15_000);
    assert!(d.at_least_secs(15));
    assert!(!d.at_least_secs(16));
}

#[test]
fn registration_status_is_sticky_while_unchanged() {
    let mut st: CellularRegistrationStatus<1000> = CellularRegistrationStatus::new();
    assert_eq!(st.get_status(), Status::NoStatus);
    assert!(!st.registered());
    st.set_status(Status::Searching, Instant::from_ticks(100));
    st.set_status(Status::Searching, Instant::from_ticks(200));
    assert!(st.sticky());
    assert_eq!(st.started(), Some(Instant::from_ticks(100)));
    assert_eq!(st.updated(), Some(Instant::from_ticks(200)));
    assert_eq!(st.duration(Instant::from_ticks(1100)).ticks(), 1000);
    st.set_status(Status::Home, Instant::from_ticks(300));
    assert!(!st.sticky());
    assert!(st.registered());
    assert_eq!(st.started(), Some(Instant::from_ticks(300)));
    st.reset();
    assert_eq!(st.get_status(), Status::NoStatus);
    assert_eq!(st.started(), None);
    assert_eq!(Status::from_value(5), Status::Roaming);
    assert_eq!(Status::from_value(9), Status::NoStatus);
}

#[test]
fn power_state_from_vint_or_answer() {
    assert_eq!(power_state_of(Some(true), false), PowerState::On);
    assert_eq!(power_state_of(Some(false), true), PowerState::Off);
    assert_eq!(power_state_of(None, true), PowerState::On);
    assert_eq!(power_state_of(None, false), PowerState::Off);
}

#[test]
fn power_plans() {
    assert_eq!(power_on_plan(PowerState::On, true), PowerOnPlan::AlreadyOn);
    assert_eq!(power_on_plan(PowerState::Off, true), PowerOnPlan::PulsePowerPin);
    assert_eq!(power_on_plan(PowerState::Off, false), PowerOnPlan::SoftReset);
    assert_eq!(hard_power_off_plan(PowerState::Off, false), Ok(false));
    assert_eq!(hard_power_off_plan(PowerState::On, true), Ok(true));
    assert_eq!(
        hard_power_off_plan(PowerState::On, false),
        Err(Error::Generic(GenericError::Unsupported))
    );
    assert_eq!(soft_reset_functionality(true), Functionality::SilentResetWithSimReset);
    assert_eq!(soft_reset_functionality(false), Functionality::SilentReset);
    assert_eq!(power_wait_step(PowerState::On, PowerState::On, 10, 100), Some(Ok(())));
    assert_eq!(power_wait_step(PowerState::Off, PowerState::On, 10, 100), None);
    assert_eq!(
        power_wait_step(PowerState::On, PowerState::On, 100, 100),
        Some(Err(Error::Generic(GenericError::Timeout)))
    );
}
