//! Network registration supervision and the AT transmitter's bookkeeping.

use crate::command::error::UbloxError;
use crate::command::Urc;
use crate::error::GenericError;
use crate::registration::{CellularRegistrationStatus, ConnectionState, RegistrationState, Status, is_registered};
use crate::services::data::ContextState;
use crate::time::{Instant, half_range, ticks_between};
use vstd::prelude::*;

verus! {

/// Why an AT command exchange failed.
#[derive(Debug, Clone, Copy, PartialEq, Eq, Structural)]
pub enum AtError {
    /// The module answered with an error result.
    Error(UbloxError),
    Timeout,
    Read,
    Write,
    InvalidResponse,
    Aborted,
    Overflow,
    Parse,
}

/// Why a network operation failed.
#[derive(Debug, Clone, Copy, PartialEq, Eq, Structural)]
pub enum Error {
    Generic(GenericError),
    AT(AtError),
    RegistrationDenied,
    UnknownProfile,
    ActivationFailed,
    _Unknown,
}

} // verus!

verus! {

/// The identifier of a PSD profile.
#[derive(Debug, Clone, Copy, PartialEq, Eq, Structural)]
pub struct ProfileId(pub u8);

/// The identifier of a PDP context.
#[derive(Debug, Clone, Copy, PartialEq, Eq, Structural)]
pub struct ContextId(pub u8);

/// The bookkeeping of the AT transmitter: how often in a row a pending URC
/// was left unhandled, and how many commands in a row timed out.
#[derive(Debug, Clone, Copy, PartialEq, Eq, Structural)]
pub struct AtTx {
    pub urc_attempts: u8,
    pub max_urc_attempts: u8,
    pub consecutive_timeouts: u8,
}

impl AtTx {
    pub fn new(max_urc_attempts: u8) -> (r: Self)
        ensures
            r.urc_attempts == 0,
            r.consecutive_timeouts == 0,
            r.max_urc_attempts == max_urc_attempts,
    {
        AtTx { urc_attempts: 0, consecutive_timeouts: 0, max_urc_attempts }
    }

    /// Decide on the pending URC after the handler has seen it: a handled URC
    /// is dequeued; an unhandled one is kept for another `max_urc_attempts`
    /// attempts and then dropped. Returns whether to dequeue it.
    pub fn handle_urc(&mut self, handled: bool) -> (dequeue: bool)
        ensures
            (dequeue, final(self).urc_attempts) == urc_decision(
                old(self).urc_attempts,
                old(self).max_urc_attempts,
                handled,
            ),
            dequeue == (handled || old(self).urc_attempts >= old(self).max_urc_attempts),
            final(self).urc_attempts == (if dequeue { 0 } else { old(self).urc_attempts + 1 }),
            old(self).urc_attempts <= old(self).max_urc_attempts ==> final(self).urc_attempts
                <= final(self).max_urc_attempts,
            final(self).max_urc_attempts == old(self).max_urc_attempts,
            final(self).consecutive_timeouts == old(self).consecutive_timeouts,
    {
        if !handled {
            if self.urc_attempts < self.max_urc_attempts {
                self.urc_attempts = self.urc_attempts + 1;
                return false;
            }
        }
        self.urc_attempts = 0;
        true
    }

    /// Note that a command was answered: the run of timeouts ends.
    pub fn command_succeeded(&mut self)
        ensures
            *final(self) == (AtTx { consecutive_timeouts: 0, ..*old(self) }),
    {
        self.consecutive_timeouts = 0;
    }

    /// Note that a command failed with `e`, and return the network error
    /// that reports it. A timeout lengthens the run of timeouts.
    pub fn command_failed(&mut self, e: AtError) -> (r: Error)
        requires
            e == AtError::Timeout ==> old(self).consecutive_timeouts < u8::MAX,
        ensures
            r == Error::AT(e),
            final(self).consecutive_timeouts == (if e == AtError::Timeout {
                old(self).consecutive_timeouts + 1
            } else {
                old(self).consecutive_timeouts as int
            }),
            final(self).urc_attempts == old(self).urc_attempts,
            final(self).max_urc_attempts == old(self).max_urc_attempts,
    {
        match e {
            AtError::Timeout => {
                self.consecutive_timeouts = self.consecutive_timeouts + 1;
            },
            _ => {},
        }
        Error::AT(e)
    }

    /// Whether so many commands in a row timed out that the modem must be reset.
    pub fn too_many_timeouts(&self) -> (r: bool)
        ensures
            r == (self.consecutive_timeouts > 10),
    {
        self.consecutive_timeouts > 10
    }
}

} // verus!

verus! {

/// How long the registration may go unchecked while connecting, in seconds.
pub const REGISTRATION_CHECK_INTERVAL_SECS: u32 = 15;

/// How long registering may take before the modem is reset, in seconds.
pub const REGISTRATION_TIMEOUT_SECS: u32 = 300;

/// What to do about a registration that does not make progress.
#[derive(Debug, Clone, Copy, PartialEq, Eq, Structural)]
pub enum Intervention {
    /// Nothing; let the registration go on.
    Wait,
    /// Select the operator anew (`AT+COPS=0`).
    PlmnReselection,
    /// Switch the radio off and on again (`AT+CFUN=0` then `AT+CFUN=1`).
    RfReset,
    /// Attach to GPRS by activating a PDP context; if that fails, call
    /// `gprs_attach_failed` and select the operator anew.
    GprsAttach,
}

/// Whether `since` lies at least `secs` seconds before `now` (or, when it
/// does not lie before `now` at all, `when_not_before`).
pub open spec fn lies_secs_before<const FREQ_HZ: u32>(
    since: Instant<FREQ_HZ>,
    now: Instant<FREQ_HZ>,
    secs: int,
    when_not_before: bool,
) -> bool {
    let d = ticks_between(now.tick_count(), since.tick_count());
    if d < half_range() {
        d >= secs * FREQ_HZ
    } else {
        when_not_before
    }
}

/// The status has been reported unchanged for at least `secs` seconds.
pub open spec fn stuck_for<const FREQ_HZ: u32>(
    st: CellularRegistrationStatus<FREQ_HZ>,
    now: Instant<FREQ_HZ>,
    secs: int,
) -> bool {
    st.spec_sticky() && st.spec_duration_ticks(now) >= secs * FREQ_HZ
}

/// The intervention that the registration state `st` calls for at `now`.
pub open spec fn intervention_for<const FREQ_HZ: u32>(
    st: RegistrationState<FREQ_HZ>,
    now: Instant<FREQ_HZ>,
) -> Intervention {
    let timeout = st.registration_interventions * 15;
    if st.conn_state != ConnectionState::Connecting {
        Intervention::Wait
    } else if stuck_for(st.eps, now, timeout) && st.eps.spec_status() == Status::NotRegistering
        && st.csd.spec_status() == Status::NotRegistering {
        Intervention::PlmnReselection
    } else if stuck_for(st.eps, now, timeout) && st.eps.spec_status() == Status::Denied
        && st.csd.spec_status() == Status::Denied {
        Intervention::RfReset
    } else if stuck_for(st.csd, now, timeout) && st.csd.spec_status() == Status::Denied
        && st.psd.spec_status() == Status::Denied {
        Intervention::RfReset
    } else if is_registered(st.csd.spec_status()) && stuck_for(st.psd, now, timeout)
        && st.psd.spec_status() == Status::NotRegistering && st.eps.spec_status()
        == Status::NotRegistering {
        Intervention::GprsAttach
    } else {
        Intervention::Wait
    }
}

/// How a stuck registration is helped, while the module is connecting and
/// a status has been reported unchanged for `registration_interventions *
/// 15` seconds: EPS stuck with EPS and CSD both not registering calls for a
/// new operator selection; EPS stuck with EPS and CSD both denied, or CSD
/// stuck with CSD and PSD both denied, calls for an RF reset; PSD stuck with
/// CSD registered and PSD and EPS not registering calls for a GPRS attach.
/// An operator selection is chosen only in the first case, an RF reset
/// only in the second, a GPRS attach only in the third, and nothing is done
/// while the module is not connecting.
pub proof fn lemma_interventions<const FREQ_HZ: u32>(st: RegistrationState<FREQ_HZ>, now: Instant<FREQ_HZ>)
    ensures
        ({
            let r = intervention_for(st, now);
            let timeout = st.registration_interventions * 15;
            let connecting = st.conn_state == ConnectionState::Connecting;
            let eps_stuck = stuck_for(st.eps, now, timeout);
            let csd_stuck = stuck_for(st.csd, now, timeout);
            let psd_stuck = stuck_for(st.psd, now, timeout);
            let eps = st.eps.spec_status();
            let csd = st.csd.spec_status();
            let psd = st.psd.spec_status();
            &&& !connecting ==> r == Intervention::Wait
            &&& connecting && eps_stuck && eps == Status::NotRegistering && csd == Status::NotRegistering
                ==> r == Intervention::PlmnReselection
            &&& connecting && eps_stuck && eps == Status::Denied && csd == Status::Denied
                ==> r == Intervention::RfReset
            &&& connecting && csd_stuck && csd == Status::Denied && psd == Status::Denied
                ==> r == Intervention::RfReset
            &&& connecting && is_registered(csd) && psd_stuck && psd == Status::NotRegistering && eps
                == Status::NotRegistering ==> r == Intervention::GprsAttach
            &&& r == Intervention::PlmnReselection ==> connecting && eps_stuck && eps == Status::NotRegistering
                && csd == Status::NotRegistering
            &&& r == Intervention::RfReset ==> connecting && ((eps_stuck && eps == Status::Denied && csd
                == Status::Denied) || (csd_stuck && csd == Status::Denied && psd == Status::Denied))
            &&& r == Intervention::GprsAttach ==> connecting && is_registered(csd) && psd_stuck && psd
                == Status::NotRegistering && eps == Status::NotRegistering
        }),
{
}

/// Whether the module counts as registered: on both the circuit and packet
/// switched domains, or on EPS.
pub open spec fn registered_somewhere<const FREQ_HZ: u32>(st: RegistrationState<FREQ_HZ>) -> bool {
    (is_registered(st.csd.spec_status()) && is_registered(st.psd.spec_status())) || is_registered(
        st.eps.spec_status(),
    )
}

/// Whether `f` is what checking the registration state `o` at `now` gives:
/// a module disconnected by choice stays so; a registered one is connected;
/// a connected one that lost its registration goes back to connecting,
/// with every domain forgotten and the registration started anew at `now`;
/// otherwise nothing changes.
pub open spec fn registration_checked<const FREQ_HZ: u32>(
    o: RegistrationState<FREQ_HZ>,
    now: Instant<FREQ_HZ>,
    f: RegistrationState<FREQ_HZ>,
) -> bool {
    if o.conn_state == ConnectionState::Disconnected {
        f == o
    } else if registered_somewhere(o) {
        f == (RegistrationState { conn_state: ConnectionState::Connected, ..o })
    } else if o.conn_state == ConnectionState::Connected {
        &&& f.conn_state == ConnectionState::Connecting
        &&& f.csd.is_blank()
        &&& f.psd.is_blank()
        &&& f.eps.is_blank()
        &&& f.reg_start_time == Some(now)
        &&& f.reg_check_time == Some(now)
        &&& f.registration_interventions == 1
        &&& f.check_imsi == o.check_imsi
        &&& f.cgi == o.cgi
    } else {
        f == o
    }
}

/// After a check of the registration state, the module is connected
/// exactly when it is registered (unless it was disconnected by choice).
pub proof fn lemma_connected_iff_registered<const FREQ_HZ: u32>(
    o: RegistrationState<FREQ_HZ>,
    now: Instant<FREQ_HZ>,
    f: RegistrationState<FREQ_HZ>,
)
    requires
        registration_checked(o, now, f),
        o.conn_state != ConnectionState::Disconnected,
    ensures
        f.conn_state == ConnectionState::Connected <==> registered_somewhere(f),
        f.conn_state != ConnectionState::Disconnected,
{
}

/// Checking the registration state a second time changes nothing.
pub proof fn lemma_check_registration_idempotent<const FREQ_HZ: u32>(
    o: RegistrationState<FREQ_HZ>,
    now: Instant<FREQ_HZ>,
    f: RegistrationState<FREQ_HZ>,
    g: RegistrationState<FREQ_HZ>,
)
    requires
        registration_checked(o, now, f),
        registration_checked(f, now, g),
    ensures
        g == f,
{
}

/// What the transmitter does with a pending URC that was `handled` or not,
/// after `attempts` earlier unhandled tries, when it keeps an unhandled URC
/// for `max` tries: whether to dequeue it, and the new count of tries.
pub open spec fn urc_decision(attempts: u8, max: u8, handled: bool) -> (bool, u8) {
    if !handled && attempts < max {
        (false, (attempts + 1) as u8)
    } else {
        (true, 0)
    }
}

/// The count of tries after `k` more unhandled tries from `attempts`.
pub open spec fn attempts_after_unhandled(attempts: u8, max: u8, k: nat) -> u8
    decreases k,
{
    if k == 0 {
        attempts
    } else {
        attempts_after_unhandled(urc_decision(attempts, max, false).1, max, (k - 1) as nat)
    }
}

/// A URC that no handler takes is kept through `max` tries and dropped on
/// the next one: from a fresh count, the first `max` unhandled tries keep
/// it (the count reaches `k`), and the try after them dequeues it.
pub proof fn lemma_unhandled_urc_dropped_after_max_tries(max: u8, k: nat)
    requires
        k <= max,
    ensures
        attempts_after_unhandled(0, max, k) == k,
        k < max ==> !urc_decision(attempts_after_unhandled(0, max, k), max, false).0,
        k == max ==> urc_decision(attempts_after_unhandled(0, max, k), max, false) == (true, 0u8),
    decreases k,
{
    if k > 0 {
        lemma_unhandled_urc_dropped_after_max_tries(max, (k - 1) as nat);
        lemma_attempts_after_unhandled_step(0, max, (k - 1) as nat);
    }
}

/// One more unhandled try after `k` of them.
proof fn lemma_attempts_after_unhandled_step(attempts: u8, max: u8, k: nat)
    ensures
        attempts_after_unhandled(attempts, max, k + 1) == urc_decision(
            attempts_after_unhandled(attempts, max, k),
            max,
            false,
        ).1,
    decreases k,
{
    let next = urc_decision(attempts, max, false).1;
    assert(attempts_after_unhandled(attempts, max, k + 1) == attempts_after_unhandled(next, max, k));
    if k > 0 {
        lemma_attempts_after_unhandled_step(next, max, (k - 1) as nat);
        assert(attempts_after_unhandled(attempts, max, k) == attempts_after_unhandled(next, max, (k - 1) as nat));
    }
}

/// What a URC does to the PDP context state, if anything.
pub open spec fn context_after_urc(urc: Urc, ctx: ContextState) -> ContextState {
    match urc {
        Urc::DataConnectionActivated(_) => ContextState::Active,
        Urc::DataConnectionDeactivated(_) => ContextState::Activating,
        _ => ctx,
    }
}

/// Whether the network supervision handles the URC (the others are left to
/// the sockets).
pub open spec fn handles_urc(urc: Urc) -> bool {
    match urc {
        Urc::PacketSwitchedEventReporting(_) => true,
        Urc::ExtendedPSNetworkRegistration(_) => true,
        Urc::DataConnectionActivated(_) => true,
        Urc::DataConnectionDeactivated(_) => true,
        Urc::MessageWaitingIndication(_) => true,
        _ => false,
    }
}

/// The supervision of the network registration and of the PDP context.
pub struct Network<const FREQ_HZ: u32> {
    pub status: RegistrationState<FREQ_HZ>,
    pub context_state: ContextState,
    pub at_tx: AtTx,
}

impl<const FREQ_HZ: u32> Network<FREQ_HZ> {
    pub fn new(at_tx: AtTx) -> (r: Self)
        ensures
            r.status.reg_check_time is None,
            r.status.reg_start_time is None,
            r.status.conn_state == ConnectionState::Disconnected,
            r.status.csd.is_blank(),
            r.status.psd.is_blank(),
            r.status.eps.is_blank(),
            r.status.registration_interventions == 1,
            !r.status.check_imsi,
            r.context_state == ContextState::Setup,
            r.at_tx == at_tx,
    {
        Network { status: RegistrationState::new(), context_state: ContextState::Setup, at_tx }
    }

    pub fn is_connected(&self) -> (r: Result<bool, Error>)
        ensures
            r == Ok::<bool, Error>(self.status.conn_state == ConnectionState::Connected),
    {
        Ok(match self.status.conn_state {
            ConnectionState::Connected => true,
            _ => false,
        })
    }

    /// Start timing the registration anew at `now`.
    pub fn reset_reg_time(&mut self, now: Instant<FREQ_HZ>) -> (r: Result<(), Error>)
        ensures
            r is Ok,
            final(self).status == (RegistrationState {
                reg_start_time: Some(now),
                reg_check_time: Some(now),
                ..old(self).status
            }),
            final(self).context_state == old(self).context_state,
            final(self).at_tx == old(self).at_tx,
    {
        self.status.reg_start_time = Some(now);
        self.status.reg_check_time = self.status.reg_start_time;
        Ok(())
    }

    /// Follow the registration: connected once both CSD and PSD, or EPS, are
    /// registered; back to connecting, with the registration started anew at
    /// `now`, when a connected module lost it. A module disconnected by choice
    /// stays so.
    pub fn check_registration_state(&mut self, now: Instant<FREQ_HZ>) -> (r: Result<(), Error>)
        ensures
            r is Ok,
            final(self).context_state == old(self).context_state,
            final(self).at_tx == old(self).at_tx,
            registration_checked(old(self).status, now, final(self).status),
    {
        // Don't do anything if we are actually disconnected by choice
        if self.status.conn_state == ConnectionState::Disconnected {
            return Ok(());
        }
        // If both (CSD + PSD) is registered, or EPS is registered, we are connected!
        if (self.status.csd.registered() && self.status.psd.registered()) || self.status.eps.registered() {
            self.status.set_connection_state(ConnectionState::Connected);
        } else if self.status.conn_state == ConnectionState::Connected {
            self.status.reset(now);
            self.status.set_connection_state(ConnectionState::Connecting);
        }
        Ok(())
    }

    /// Decide how to help a registration that is stuck, and forget the
    /// statuses that the intervention will renew. The caller carries the
    /// intervention out.
    pub fn intervene_registration(&mut self, now: Instant<FREQ_HZ>) -> (r: Intervention)
        requires
            old(self).status.conn_state == ConnectionState::Connecting ==> old(
                self,
            ).status.registration_interventions * 15 <= u32::MAX,
        ensures
            r == intervention_for(old(self).status, now),
            final(self).context_state == old(self).context_state,
            final(self).at_tx == old(self).at_tx,
            ({
                let o = old(self).status;
                let f = final(self).status;
                match r {
                    Intervention::Wait => f == o,
                    Intervention::GprsAttach => {
                        &&& f.psd.is_blank()
                        &&& f == (RegistrationState {
                            psd: f.psd,
                            registration_interventions: (o.registration_interventions + 1) as u32,
                            ..o
                        })
                    },
                    _ => {
                        &&& f.csd.is_blank()
                        &&& f.psd.is_blank()
                        &&& f.eps.is_blank()
                        &&& f == (RegistrationState {
                            csd: f.csd,
                            psd: f.psd,
                            eps: f.eps,
                            registration_interventions: (o.registration_interventions + 1) as u32,
                            ..o
                        })
                    },
                }
            }),
    {
        if self.status.conn_state != ConnectionState::Connecting {
            return Intervention::Wait;
        }
        // If EPS has been sticky for longer than `timeout`
        let timeout: u32 = self.status.registration_interventions * 15;
        if self.status.eps.sticky() && self.status.eps.duration(now).at_least_secs(timeout) {
            // If (EPS + CSD) is not attempting registration
            if self.status.eps.get_status() == Status::NotRegistering && self.status.csd.get_status()
                == Status::NotRegistering {
                self.status.csd.reset();
                self.status.psd.reset();
                self.status.eps.reset();
                self.status.registration_interventions = self.status.registration_interventions + 1;
                return Intervention::PlmnReselection;
            // If (EPS + CSD) is denied registration
            } else if self.status.eps.get_status() == Status::Denied && self.status.csd.get_status()
                == Status::Denied {
                self.status.csd.reset();
                self.status.psd.reset();
                self.status.eps.reset();
                self.status.registration_interventions = self.status.registration_interventions + 1;
                return Intervention::RfReset;
            }
        }
        // If CSD has been sticky for longer than `timeout`,
        // and (CSD + PSD) is denied registration.
        if self.status.csd.sticky() && self.status.csd.duration(now).at_least_secs(timeout)
            && self.status.csd.get_status() == Status::Denied && self.status.psd.get_status()
            == Status::Denied {
            self.status.csd.reset();
            self.status.psd.reset();
            self.status.eps.reset();
            self.status.registration_interventions = self.status.registration_interventions + 1;
            return Intervention::RfReset;
        }
        // If CSD is registered, but PSD has been sticky for longer than `timeout`,
        // and (PSD + EPS) is not attempting registration.
        if self.status.csd.registered() && self.status.psd.sticky() && self.status.psd.duration(
            now,
        ).at_least_secs(timeout) && self.status.psd.get_status() == Status::NotRegistering
            && self.status.eps.get_status() == Status::NotRegistering {
            self.status.psd.reset();
            self.status.registration_interventions = self.status.registration_interventions + 1;
            return Intervention::GprsAttach;
        }
        Intervention::Wait
    }

    /// The GPRS attach of `Intervention::GprsAttach` failed: forget every
    /// status before the operator is selected anew.
    pub fn gprs_attach_failed(&mut self)
        ensures
            final(self).status.csd.is_blank(),
            final(self).status.psd.is_blank(),
            final(self).status.eps.is_blank(),
            final(self).status == (RegistrationState {
                csd: final(self).status.csd,
                psd: final(self).status.psd,
                eps: final(self).status.eps,
                ..old(self).status
            }),
            final(self).context_state == old(self).context_state,
            final(self).at_tx == old(self).at_tx,
    {
        self.status.csd.reset();
        self.status.psd.reset();
        self.status.eps.reset();
    }

    /// Whether the registration is due to be checked at `now`: it never was,
    /// or the last check lies at least the check interval back (or not back
    /// at all, on the counter's circle).
    pub fn should_check_registration(&self, now: Instant<FREQ_HZ>) -> (r: bool)
        ensures
            r == match self.status.reg_check_time {
                Some(t) => lies_secs_before(t, now, REGISTRATION_CHECK_INTERVAL_SECS as int, true),
                None => true,
            },
    {
        match self.status.reg_check_time {
            Some(t) => match now.checked_duration_since(t) {
                Some(d) => d.at_least_secs(REGISTRATION_CHECK_INTERVAL_SECS),
                None => true,
            },
            None => true,
        }
    }

    /// While connecting, and when the registration is due to be checked,
    /// note the check at `now` and return true: the caller then asks the
    /// module for its registration statuses.
    pub fn begin_registration_check(&mut self, now: Instant<FREQ_HZ>) -> (r: bool)
        ensures
            r == (old(self).status.conn_state == ConnectionState::Connecting && match old(
                self,
            ).status.reg_check_time {
                Some(t) => lies_secs_before(t, now, REGISTRATION_CHECK_INTERVAL_SECS as int, true),
                None => true,
            }),
            r ==> final(self).status == (RegistrationState { reg_check_time: Some(now), ..old(self).status }),
            !r ==> final(self).status == old(self).status,
            final(self).context_state == old(self).context_state,
            final(self).at_tx == old(self).at_tx,
    {
        if self.status.conn_state != ConnectionState::Connecting || !self.should_check_registration(now) {
            return false;
        }
        self.status.reg_check_time = Some(now);
        true
    }

    /// Whether registering, started at `reg_start_time`, has been going on
    /// for the registration timeout at `now`, so that the modem must be reset.
    pub fn registration_timed_out(&self, now: Instant<FREQ_HZ>) -> (r: bool)
        ensures
            r == (self.status.conn_state == ConnectionState::Connecting && match self.status.reg_start_time {
                Some(t) => lies_secs_before(t, now, REGISTRATION_TIMEOUT_SECS as int, false),
                None => false,
            }),
    {
        if self.status.conn_state != ConnectionState::Connecting {
            return false;
        }
        match self.status.reg_start_time {
            Some(t) => match now.checked_duration_since(t) {
                Some(d) => d.at_least_secs(REGISTRATION_TIMEOUT_SECS),
                None => false,
            },
            None => false,
        }
    }

    /// Handle the pending URC `urc`: follow the PDP context through the data
    /// connection URCs, and let the transmitter decide whether to dequeue it.
    pub fn handle_urc(&mut self, urc: Urc) -> (dequeue: bool)
        ensures
            final(self).context_state == context_after_urc(urc, old(self).context_state),
            dequeue == (handles_urc(urc) || old(self).at_tx.urc_attempts >= old(self).at_tx.max_urc_attempts),
            final(self).at_tx.urc_attempts == (if dequeue { 0 } else { old(self).at_tx.urc_attempts + 1 }),
            final(self).at_tx.max_urc_attempts == old(self).at_tx.max_urc_attempts,
            final(self).at_tx.consecutive_timeouts == old(self).at_tx.consecutive_timeouts,
            final(self).status == old(self).status,
    {
        let handled = match urc {
            Urc::PacketSwitchedEventReporting(_) => true,
            Urc::ExtendedPSNetworkRegistration(_) => true,
            Urc::DataConnectionActivated(_) => {
                self.context_state = ContextState::Active;
                true
            },
            Urc::DataConnectionDeactivated(_) => {
                self.context_state = ContextState::Activating;
                true
            },
            Urc::MessageWaitingIndication(_) => true,
            _ => false,
        };
        self.at_tx.handle_urc(handled)
    }
}

} // verus!
