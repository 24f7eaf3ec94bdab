use ublox_cellular::command::psn::{DataConnectionActivated, DataConnectionDeactivated};
use ublox_cellular::command::Urc;
use ublox_cellular::network::{AtError, AtTx, Error, Intervention, Network};
use ublox_cellular::registration::{ConnectionState, Status};
use ublox_cellular::services::data::ContextState;
use ublox_cellular::time::Instant;

const FREQ_HZ: u32 = 1000;

#[test]
fn unhandled_urcs() {
    let mut tx = AtTx::new(5);
    let mut n_urcs_dequeued = 0;

    if tx.handle_urc(false) {
        n_urcs_dequeued += 1;
    }
    assert_eq!(n_urcs_dequeued, 0);
    for _ in 0..5 {
        if tx.handle_urc(false) {
            n_urcs_dequeued += 1;
        }
    }
    assert_eq!(n_urcs_dequeued, 1);
    for handled in [false, true, false] {
        if tx.handle_urc(handled) {
            n_urcs_dequeued += 1;
        }
    }
    assert_eq!(n_urcs_dequeued, 2);
}

#[test]
fn reset_reg_time() {
    let tx = AtTx::new(5);
    let mut network: Network<FREQ_HZ> = Network::new(tx);

    assert!(network.reset_reg_time(Instant::from_ticks(1234)).is_ok());

    assert_eq!(network.status.reg_start_time, Some(Instant::from_ticks(1234)));
    assert_eq!(network.status.reg_check_time, Some(Instant::from_ticks(1234)));
}

#[test]
fn check_registration_state() {
    let tx = AtTx::new(5);
    let mut network: Network<FREQ_HZ> = Network::new(tx);
    let now = Instant::from_ticks(1234);

    // Check that `ConnectionState` will change from `Connected` to `Connecting`
    // with a state reset, if neither (csd + psd) || eps is actually registered
    network.status.conn_state = ConnectionState::Connected;
    network.status.registration_interventions = 3;
    network.status.csd.set_status(Status::Denied, Instant::from_ticks(1));
    network.status.eps.set_status(Status::NotRegistering, Instant::from_ticks(5));

    assert!(network.check_registration_state(now).is_ok());

    assert_eq!(network.status.conn_state, ConnectionState::Connecting);
    assert_eq!(network.status.reg_start_time, Some(Instant::from_ticks(1234)));
    assert_eq!(network.status.reg_check_time, Some(Instant::from_ticks(1234)));
    assert_eq!(network.status.csd.get_status(), Status::NoStatus);
    assert_eq!(network.status.csd.updated(), None);
    assert_eq!(network.status.csd.started(), None);
    assert_eq!(network.status.psd.get_status(), Status::NoStatus);
    assert_eq!(network.status.psd.updated(), None);
    assert_eq!(network.status.psd.started(), None);
    assert_eq!(network.status.eps.get_status(), Status::NoStatus);
    assert_eq!(network.status.eps.updated(), None);
    assert_eq!(network.status.eps.started(), None);

    // Check that `ConnectionState` will change from `Connecting` to `Connected`
    // if eps is actually registered
    network.status.eps.set_status(Status::Roaming, Instant::from_ticks(5));

    assert!(network.check_registration_state(now).is_ok());

    assert_eq!(network.status.conn_state, ConnectionState::Connected);

    // Check that `ConnectionState` will change from `Connecting` to `Connected`
    // if (csd + psd) is actually registered
    network.status.conn_state = ConnectionState::Connecting;
    network.status.reset(now);
    network.status.eps.set_status(Status::Denied, Instant::from_ticks(5));
    network.status.csd.set_status(Status::Roaming, Instant::from_ticks(5));
    network.status.psd.set_status(Status::Home, Instant::from_ticks(5));

    assert!(network.check_registration_state(now).is_ok());

    assert_eq!(network.status.conn_state, ConnectionState::Connected);
}

#[test]
fn intervene_registration() {
    let tx = AtTx::new(5);
    let mut network: Network<FREQ_HZ> = Network::new(tx);
    network.status.conn_state = ConnectionState::Connecting;
    network.status.eps.set_status(Status::NotRegistering, Instant::from_ticks(1234));
    network.status.eps.set_status(Status::NotRegistering, Instant::from_ticks(1534));
    network.status.csd.set_status(Status::NotRegistering, Instant::from_ticks(1534));

    assert_eq!(network.status.eps.updated(), Some(Instant::from_ticks(1534)));
    assert_eq!(network.status.eps.started(), Some(Instant::from_ticks(1234)));
    assert!(network.status.eps.sticky());
    let now = Instant::from_ticks(25_234);
    assert_eq!(network.status.eps.duration(now).ticks(), 24_000);

    assert_eq!(network.intervene_registration(now), Intervention::PlmnReselection);
    assert_eq!(network.status.registration_interventions, 2);
}

#[test]
fn intervene_registration_waits_while_not_connecting() {
    let mut network: Network<FREQ_HZ> = Network::new(AtTx::new(5));
    assert_eq!(network.intervene_registration(Instant::from_ticks(10)), Intervention::Wait);
    assert_eq!(network.status.registration_interventions, 1);
    // outside `Connecting`, any count of interventions is accepted
    network.status.registration_interventions = u32::MAX;
    assert_eq!(network.intervene_registration(Instant::from_ticks(10)), Intervention::Wait);
    assert_eq!(network.status.registration_interventions, u32::MAX);
}

#[test]
fn data_connection_urcs_move_the_context() {
    let mut network: Network<FREQ_HZ> = Network::new(AtTx::new(5));
    assert_eq!(network.context_state, ContextState::Setup);
    assert!(network.handle_urc(Urc::DataConnectionActivated(DataConnectionActivated { result: 0 })));
    assert_eq!(network.context_state, ContextState::Active);
    assert!(network.handle_urc(Urc::DataConnectionDeactivated(DataConnectionDeactivated {
        profile_id: 1
    })));
    assert_eq!(network.context_state, ContextState::Activating);
}

#[test]
fn timeouts_are_counted_until_a_command_succeeds() {
    let mut tx = AtTx::new(5);
    for _ in 0..11 {
        assert_eq!(tx.command_failed(AtError::Timeout), Error::AT(AtError::Timeout));
    }
    assert!(tx.too_many_timeouts());
    assert_eq!(tx.command_failed(AtError::Read), Error::AT(AtError::Read));
    assert_eq!(tx.consecutive_timeouts, 11);
    tx.command_succeeded();
    assert_eq!(tx.consecutive_timeouts, 0);
    assert!(!tx.too_many_timeouts());
}

#[test]
fn is_connected_follows_the_connection_state() {
    let mut network: Network<FREQ_HZ> = Network::new(AtTx::new(5));
    assert_eq!(network.is_connected(), Ok(false));
    network.status.conn_state = ConnectionState::Connected;
    assert_eq!(network.is_connected(), Ok(true));
}
