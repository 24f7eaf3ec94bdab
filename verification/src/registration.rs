//! Registration state of the module on the circuit switched (CSD), packet
//! switched (PSD) and evolved packet switched (EPS) domains.

use crate::command::network_service::{NetworkRegistrationStat, NetworkRegistrationStatus};
use crate::time::{Duration, Instant};
use vstd::prelude::*;

verus! {

/// The registration status of one domain, as the module reports it.
#[derive(Debug, Clone, Copy, PartialEq, Eq, Structural)]
pub enum Status {
    NoStatus,
    NotRegistering,
    Home,
    Searching,
    Denied,
    Unknown,
    Roaming,
}

/// The status that the 3GPP registration value `v` stands for.
pub open spec fn status_of(v: u8) -> Status {
    if v == 0 {
        Status::NotRegistering
    } else if v == 1 {
        Status::Home
    } else if v == 2 {
        Status::Searching
    } else if v == 3 {
        Status::Denied
    } else if v == 4 {
        Status::Unknown
    } else if v == 5 {
        Status::Roaming
    } else {
        Status::NoStatus
    }
}

impl Status {
    /// The status that the 3GPP registration value `v` stands for.
    pub fn from_value(v: u8) -> (r: Status)
        ensures
            r == status_of(v),
    {
        match v {
            0 => Status::NotRegistering,
            1 => Status::Home,
            2 => Status::Searching,
            3 => Status::Denied,
            4 => Status::Unknown,
            5 => Status::Roaming,
            _ => Status::NoStatus,
        }
    }

    /// Convert the 3GPP registration status from a CREG response to a [`Status`].
    pub fn from_network_registration(v: NetworkRegistrationStat) -> (r: Status)
        ensures
            r == status_of(v.spec_value()),
    {
        Status::from_value(v.value())
    }
}

impl Default for Status {
    fn default() -> (r: Self)
        ensures
            r == Status::NoStatus,
    {
        Status::NoStatus
    }
}

impl From<u8> for Status {
    fn from(v: u8) -> (r: Self) {
        Status::from_value(v)
    }
}

impl vstd::std_specs::convert::FromSpecImpl<u8> for Status {
    open spec fn obeys_from_spec() -> bool {
        true
    }

    open spec fn from_spec(v: u8) -> Status {
        status_of(v)
    }
}

/// The registration status of one domain, with the instants at which it was
/// last reported and at which it last changed.
#[derive(Debug, Clone, Copy)]
pub struct CellularRegistrationStatus<const FREQ_HZ: u32> {
    status: Status,
    updated: Option<Instant<FREQ_HZ>>,
    started: Option<Instant<FREQ_HZ>>,
}

/// The 3GPP registration values 0 to 5 keep their meanings: 0 not
/// registered and not searching, 1 registered on the home network, 2 not
/// registered but searching, 3 registration denied, 4 unknown, 5 registered
/// while roaming; every other value reports no status. So the module counts
/// as registered exactly on the values 1 and 5, and no two of the values 0
/// to 5 stand for the same status.
pub proof fn lemma_registration_values(v: u8, w: u8)
    ensures
        (status_of(v) == Status::NotRegistering) == (v == 0),
        (status_of(v) == Status::Home) == (v == 1),
        (status_of(v) == Status::Searching) == (v == 2),
        (status_of(v) == Status::Denied) == (v == 3),
        (status_of(v) == Status::Unknown) == (v == 4),
        (status_of(v) == Status::Roaming) == (v == 5),
        (status_of(v) == Status::NoStatus) == (v > 5),
        is_registered(status_of(v)) == (v == 1 || v == 5),
        v <= 5 && w <= 5 && status_of(v) == status_of(w) ==> v == w,
        status_of(NetworkRegistrationStat::Registered.spec_value()) == Status::Home,
        status_of(NetworkRegistrationStat::RegisteredRoaming.spec_value()) == Status::Roaming,
        status_of(NetworkRegistrationStat::NotRegisteredSearching.spec_value()) == Status::Searching,
        status_of(NetworkRegistrationStat::RegistrationDenied.spec_value()) == Status::Denied,
{
}

/// Whether `s` counts as registered: home network or roaming.
pub open spec fn is_registered(s: Status) -> bool {
    s == Status::Home || s == Status::Roaming
}

/// Whether `f` is the status `o` after `stat` was reported at `ts`.
pub open spec fn status_recorded<const FREQ_HZ: u32>(
    o: CellularRegistrationStatus<FREQ_HZ>,
    stat: Status,
    ts: Instant<FREQ_HZ>,
    f: CellularRegistrationStatus<FREQ_HZ>,
) -> bool {
    &&& f.spec_status() == stat
    &&& f.spec_updated() == Some(ts)
    &&& f.spec_started() == (if o.spec_status() != stat {
        Some(ts)
    } else {
        o.spec_started()
    })
}

/// A status that changed at `t1` and is reported again at another instant
/// `t2` is sticky, and keeps `t1` as the instant of its change; right after
/// a change the status is not sticky.
pub proof fn lemma_repeated_status_is_sticky<const FREQ_HZ: u32>(
    o: CellularRegistrationStatus<FREQ_HZ>,
    stat: Status,
    t1: Instant<FREQ_HZ>,
    m: CellularRegistrationStatus<FREQ_HZ>,
    t2: Instant<FREQ_HZ>,
    f: CellularRegistrationStatus<FREQ_HZ>,
)
    requires
        status_recorded(o, stat, t1, m),
        status_recorded(m, stat, t2, f),
    ensures
        o.spec_status() != stat && t1 != t2 ==> f.spec_sticky(),
        f.spec_started() == m.spec_started(),
        o.spec_status() != stat ==> f.spec_started() == Some(t1),
        o.spec_status() != stat ==> !m.spec_sticky(),
{
}

impl<const FREQ_HZ: u32> CellularRegistrationStatus<FREQ_HZ> {
    /// The last reported status.
    pub closed spec fn spec_status(self) -> Status {
        self.status
    }

    /// When the status was last reported.
    pub closed spec fn spec_updated(self) -> Option<Instant<FREQ_HZ>> {
        self.updated
    }

    /// When the status last changed.
    pub closed spec fn spec_started(self) -> Option<Instant<FREQ_HZ>> {
        self.started
    }

    /// No status, never reported.
    pub open spec fn is_blank(self) -> bool {
        &&& self.spec_status() == Status::NoStatus
        &&& self.spec_updated() is None
        &&& self.spec_started() is None
    }

    /// A status has been reported more than once since it last changed.
    pub open spec fn spec_sticky(self) -> bool {
        self.spec_updated() is Some && self.spec_updated() != self.spec_started()
    }

    /// The ticks elapsed from the last change to `ts`, or 0 when there was no
    /// change yet or `ts` is not later than it.
    pub open spec fn spec_duration_ticks(self, ts: Instant<FREQ_HZ>) -> u32 {
        match self.spec_started() {
            Some(started) => if crate::time::ticks_between(ts.tick_count(), started.tick_count())
                < crate::time::half_range() {
                crate::time::ticks_between(ts.tick_count(), started.tick_count()) as u32
            } else {
                0
            },
            None => 0,
        }
    }

    pub fn new() -> (r: Self)
        ensures
            r.is_blank(),
    {
        CellularRegistrationStatus { status: Status::NoStatus, updated: None, started: None }
    }

    /// The time elapsed from the last change of status to `ts`.
    pub fn duration(&self, ts: Instant<FREQ_HZ>) -> (r: Duration<FREQ_HZ>)
        ensures
            r.tick_count() == self.spec_duration_ticks(ts),
    {
        match self.started {
            Some(started) => match ts.checked_duration_since(started) {
                Some(d) => d,
                None => Duration::from_ticks(0),
            },
            None => Duration::from_ticks(0),
        }
    }

    pub fn started(&self) -> (r: Option<Instant<FREQ_HZ>>)
        ensures
            r == self.spec_started(),
    {
        self.started
    }

    pub fn updated(&self) -> (r: Option<Instant<FREQ_HZ>>)
        ensures
            r == self.spec_updated(),
    {
        self.updated
    }

    pub fn reset(&mut self)
        ensures
            final(self).is_blank(),
    {
        self.status = Status::NoStatus;
        self.updated = None;
        self.started = None;
    }

    pub fn get_status(&self) -> (r: Status)
        ensures
            r == self.spec_status(),
    {
        self.status
    }

    /// Record that `stat` was reported at `ts`: the change instant moves to
    /// `ts` only when the status differs from the last one.
    pub fn set_status(&mut self, stat: Status, ts: Instant<FREQ_HZ>)
        ensures
            status_recorded(*old(self), stat, ts, *final(self)),
    {
        if self.status != stat {
            self.status = stat;
            self.started = Some(ts);
        }
        self.updated = Some(ts);
    }

    pub fn registered(&self) -> (r: bool)
        ensures
            r == is_registered(self.spec_status()),
    {
        match self.status {
            Status::Home | Status::Roaming => true,
            _ => false,
        }
    }

    pub fn sticky(&self) -> (r: bool)
        ensures
            r == self.spec_sticky(),
    {
        match self.updated {
            Some(u) => match self.started {
                Some(s) => {
                    proof {
                        crate::time::lemma_instant_eq(u, s);
                    }
                    u.ticks() != s.ticks()
                },
                None => true,
            },
            None => false,
        }
    }
}

/// Which registration report a set of parameters came from.
#[derive(Debug, Clone, Copy, PartialEq, Eq, Structural)]
pub enum RegType {
    Creg,
    Cgreg,
    Cereg,
    Unknown,
}

impl Default for RegType {
    fn default() -> (r: Self)
        ensures
            r == RegType::Unknown,
    {
        RegType::Unknown
    }
}

/// The radio access network of a registration.
#[derive(Debug, Clone, Copy, PartialEq, Eq, Structural)]
pub enum RadioAccessNetwork {
    UnknownUnused,
    Geran,
    Utran,
    Eutran,
}

/// The registration report that belongs to each radio access network.
pub open spec fn reg_type_of(ran: RadioAccessNetwork) -> RegType {
    match ran {
        RadioAccessNetwork::UnknownUnused => RegType::Unknown,
        RadioAccessNetwork::Geran => RegType::Creg,
        RadioAccessNetwork::Utran => RegType::Cgreg,
        RadioAccessNetwork::Eutran => RegType::Cereg,
    }
}

/// The radio access network that belongs to each registration report.
pub open spec fn ran_of(reg_type: RegType) -> RadioAccessNetwork {
    match reg_type {
        RegType::Unknown => RadioAccessNetwork::UnknownUnused,
        RegType::Creg => RadioAccessNetwork::Geran,
        RegType::Cgreg => RadioAccessNetwork::Utran,
        RegType::Cereg => RadioAccessNetwork::Eutran,
    }
}

/// The radio access network with number `v`; unknown numbers are `UnknownUnused`.
pub open spec fn ran_of_number(v: usize) -> RadioAccessNetwork {
    if v == 1 {
        RadioAccessNetwork::Geran
    } else if v == 2 {
        RadioAccessNetwork::Utran
    } else if v == 3 {
        RadioAccessNetwork::Eutran
    } else {
        RadioAccessNetwork::UnknownUnused
    }
}

impl RadioAccessNetwork {
    /// The number of this radio access network.
    pub open spec fn spec_number(self) -> usize {
        match self {
            RadioAccessNetwork::UnknownUnused => 0,
            RadioAccessNetwork::Geran => 1,
            RadioAccessNetwork::Utran => 2,
            RadioAccessNetwork::Eutran => 3,
        }
    }

    /// The number of this radio access network.
    pub fn number(&self) -> (r: usize)
        ensures
            r == self.spec_number(),
    {
        match self {
            RadioAccessNetwork::UnknownUnused => 0,
            RadioAccessNetwork::Geran => 1,
            RadioAccessNetwork::Utran => 2,
            RadioAccessNetwork::Eutran => 3,
        }
    }
}

impl From<RadioAccessNetwork> for RegType {
    fn from(ran: RadioAccessNetwork) -> (r: Self) {
        match ran {
            RadioAccessNetwork::UnknownUnused => RegType::Unknown,
            RadioAccessNetwork::Geran => RegType::Creg,
            RadioAccessNetwork::Utran => RegType::Cgreg,
            RadioAccessNetwork::Eutran => RegType::Cereg,
        }
    }
}

impl vstd::std_specs::convert::FromSpecImpl<RadioAccessNetwork> for RegType {
    open spec fn obeys_from_spec() -> bool {
        true
    }

    open spec fn from_spec(ran: RadioAccessNetwork) -> RegType {
        reg_type_of(ran)
    }
}

impl From<RegType> for RadioAccessNetwork {
    fn from(reg_type: RegType) -> (r: Self) {
        match reg_type {
            RegType::Unknown => RadioAccessNetwork::UnknownUnused,
            RegType::Creg => RadioAccessNetwork::Geran,
            RegType::Cgreg => RadioAccessNetwork::Utran,
            RegType::Cereg => RadioAccessNetwork::Eutran,
        }
    }
}

impl vstd::std_specs::convert::FromSpecImpl<RegType> for RadioAccessNetwork {
    open spec fn obeys_from_spec() -> bool {
        true
    }

    open spec fn from_spec(reg_type: RegType) -> RadioAccessNetwork {
        ran_of(reg_type)
    }
}

impl From<usize> for RadioAccessNetwork {
    fn from(v: usize) -> (r: Self) {
        match v {
            1 => Self::Geran,
            2 => Self::Utran,
            3 => Self::Eutran,
            _ => Self::UnknownUnused,
        }
    }
}

impl vstd::std_specs::convert::FromSpecImpl<usize> for RadioAccessNetwork {
    open spec fn obeys_from_spec() -> bool {
        true
    }

    open spec fn from_spec(v: usize) -> RadioAccessNetwork {
        ran_of_number(v)
    }
}

/// A registration report and the radio access network and the cell it names.
#[derive(Debug, Clone, PartialEq, Eq)]
pub struct RegistrationParams {
    pub reg_type: RegType,
    pub status: Status,
    pub cell_id: Option<String>,
    pub lac: Option<String>,
}

/// The text of an optional string.
pub open spec fn text_of(s: Option<String>) -> Option<Seq<char>> {
    match s {
        Some(s) => Some(s@),
        None => None,
    }
}

impl RegistrationParams {
    /// The parameters of a `+CREG` report: status only, no cell identity.
    pub fn from_network_registration(stat: NetworkRegistrationStat) -> (r: Self)
        ensures
            r.reg_type == RegType::Creg,
            r.status == status_of(stat.spec_value()),
            r.cell_id is None,
            r.lac is None,
    {
        RegistrationParams {
            reg_type: RegType::Creg,
            status: Status::from_network_registration(stat),
            cell_id: None,
            lac: None,
        }
    }
}

impl RegistrationParams {
    /// The parameters of a `+CGREG` report with the status `stat`: the
    /// packet switched domain, no cell identity.
    pub fn from_gprs_registration(stat: u8) -> (r: Self)
        ensures
            r.reg_type == RegType::Cgreg,
            r.status == status_of(stat),
            r.cell_id is None,
            r.lac is None,
    {
        RegistrationParams { reg_type: RegType::Cgreg, status: Status::from_value(stat), cell_id: None, lac: None }
    }

    /// The parameters of a `+CEREG` report with the status `stat`: the EPS
    /// domain, no cell identity.
    pub fn from_eps_registration(stat: u8) -> (r: Self)
        ensures
            r.reg_type == RegType::Cereg,
            r.status == status_of(stat),
            r.cell_id is None,
            r.lac is None,
    {
        RegistrationParams { reg_type: RegType::Cereg, status: Status::from_value(stat), cell_id: None, lac: None }
    }
}

impl From<NetworkRegistrationStatus> for RegistrationParams {
    /// The parameters of a `+CREG?` answer: its status only.
    fn from(v: NetworkRegistrationStatus) -> (r: Self) {
        RegistrationParams::from_network_registration(v.stat)
    }
}

impl vstd::std_specs::convert::FromSpecImpl<NetworkRegistrationStatus> for RegistrationParams {
    open spec fn obeys_from_spec() -> bool {
        true
    }

    open spec fn from_spec(v: NetworkRegistrationStatus) -> RegistrationParams {
        RegistrationParams {
            reg_type: RegType::Creg,
            status: status_of(v.stat.spec_value()),
            cell_id: None,
            lac: None,
        }
    }
}

/// The identity of the cell that the module is registered in.
#[derive(Debug, Clone, PartialEq, Eq)]
pub struct CellularGlobalIdentity {
    /// Registered network operator cell Id.
    pub cell_id: Option<String>,
    /// Registered network operator Location Area Code.
    pub lac: Option<String>,
}

impl Default for CellularGlobalIdentity {
    fn default() -> (r: Self)
        ensures
            r.cell_id is None,
            r.lac is None,
    {
        CellularGlobalIdentity { cell_id: None, lac: None }
    }
}

/// Whether the module is connected to the network, or trying to be.
#[derive(Debug, Clone, Copy, PartialEq, Eq, Structural)]
pub enum ConnectionState {
    Disconnected,
    Connecting,
    Connected,
}

impl Default for ConnectionState {
    fn default() -> (r: Self)
        ensures
            r == ConnectionState::Disconnected,
    {
        ConnectionState::Disconnected
    }
}

/// The registration state of the module on all three domains.
#[derive(Debug, Clone)]
pub struct RegistrationState<const FREQ_HZ: u32> {
    pub reg_check_time: Option<Instant<FREQ_HZ>>,
    pub reg_start_time: Option<Instant<FREQ_HZ>>,
    pub conn_state: ConnectionState,
    /// CSD (Circuit Switched Data) registration status (registered/searching/roaming etc.).
    pub csd: CellularRegistrationStatus<FREQ_HZ>,
    /// PSD (Packet Switched Data) registration status (registered/searching/roaming etc.).
    pub psd: CellularRegistrationStatus<FREQ_HZ>,
    /// EPS (Evolved Packet Switched) registration status (registered/searching/roaming etc.).
    pub eps: CellularRegistrationStatus<FREQ_HZ>,
    pub registration_interventions: u32,
    pub check_imsi: bool,
    pub cgi: CellularGlobalIdentity,
}

/// Whether `cell_id` is a cell identity other than `current`.
fn other_cell(current: &Option<String>, cell_id: &Option<String>) -> (r: bool)
    ensures
        r == (cell_id is Some && text_of(*current) != text_of(*cell_id)),
{
    match cell_id {
        None => false,
        Some(new_id) => match current {
            None => true,
            Some(cur) => {
                let same = crate::text::spells(crate::text::chars_of(cur.as_str()).as_slice(), new_id.as_str());
                !same
            },
        },
    }
}

impl<const FREQ_HZ: u32> RegistrationState<FREQ_HZ> {
    pub fn new() -> (r: Self)
        ensures
            r.reg_check_time is None,
            r.reg_start_time is None,
            r.conn_state == ConnectionState::Disconnected,
            r.csd.is_blank(),
            r.psd.is_blank(),
            r.eps.is_blank(),
            r.registration_interventions == 1,
            !r.check_imsi,
            r.cgi.cell_id is None,
            r.cgi.lac is None,
    {
        RegistrationState {
            reg_check_time: None,
            reg_start_time: None,
            conn_state: ConnectionState::Disconnected,
            csd: CellularRegistrationStatus::new(),
            psd: CellularRegistrationStatus::new(),
            eps: CellularRegistrationStatus::new(),
            registration_interventions: 1,
            check_imsi: false,
            cgi: CellularGlobalIdentity::default(),
        }
    }

    /// Forget the status of every domain and start registering anew at `now`.
    pub fn reset(&mut self, now: Instant<FREQ_HZ>)
        ensures
            final(self).csd.is_blank(),
            final(self).psd.is_blank(),
            final(self).eps.is_blank(),
            final(self).reg_start_time == Some(now),
            final(self).reg_check_time == Some(now),
            final(self).registration_interventions == 1,
            final(self).conn_state == old(self).conn_state,
            final(self).check_imsi == old(self).check_imsi,
            final(self).cgi == old(self).cgi,
    {
        self.csd.reset();
        self.psd.reset();
        self.eps.reset();
        self.reg_start_time = Some(now);
        self.reg_check_time = self.reg_start_time;
        self.registration_interventions = 1;
    }

    pub fn set_connection_state(&mut self, state: ConnectionState)
        ensures
            *final(self) == (RegistrationState { conn_state: state, ..*old(self) }),
    {
        if self.conn_state == state {
            return;
        }
        self.conn_state = state;
    }

    /// Record the registration report `new_params`, received at `ts`, on its
    /// domain; note that the IMSI must be checked when the domain becomes
    /// registered, and take over the cell identity when it names another cell.
    pub fn compare_and_set(&mut self, new_params: RegistrationParams, ts: Instant<FREQ_HZ>)
        ensures
            new_params.reg_type == RegType::Unknown ==> *final(self) == *old(self),
            new_params.reg_type != RegType::Unknown ==> {
                let (o, f) = match new_params.reg_type {
                    RegType::Creg => (old(self).csd, final(self).csd),
                    RegType::Cgreg => (old(self).psd, final(self).psd),
                    _ => (old(self).eps, final(self).eps),
                };
                &&& f.spec_status() == new_params.status
                &&& f.spec_updated() == Some(ts)
                &&& f.spec_started() == (if o.spec_status() != new_params.status {
                    Some(ts)
                } else {
                    o.spec_started()
                })
                &&& final(self).check_imsi == (old(self).check_imsi || (!is_registered(o.spec_status())
                    && is_registered(new_params.status)))
                &&& new_params.reg_type != RegType::Creg ==> final(self).csd == old(self).csd
                &&& new_params.reg_type != RegType::Cgreg ==> final(self).psd == old(self).psd
                &&& new_params.reg_type != RegType::Cereg ==> final(self).eps == old(self).eps
                &&& final(self).conn_state == old(self).conn_state
                &&& final(self).reg_start_time == old(self).reg_start_time
                &&& final(self).reg_check_time == old(self).reg_check_time
                &&& final(self).registration_interventions == old(self).registration_interventions
                &&& if new_params.cell_id is Some && text_of(old(self).cgi.cell_id) != text_of(
                    new_params.cell_id,
                ) {
                    final(self).cgi == CellularGlobalIdentity {
                        cell_id: new_params.cell_id,
                        lac: new_params.lac,
                    }
                } else {
                    final(self).cgi == old(self).cgi
                }
            },
    {
        match new_params.reg_type {
            RegType::Creg => {
                let prev_reg_status = self.csd.registered();
                self.csd.set_status(new_params.status, ts);
                if !prev_reg_status && self.csd.registered() {
                    self.check_imsi = true
                }
            },
            RegType::Cgreg => {
                let prev_reg_status = self.psd.registered();
                self.psd.set_status(new_params.status, ts);
                if !prev_reg_status && self.psd.registered() {
                    self.check_imsi = true
                }
            },
            RegType::Cereg => {
                let prev_reg_status = self.eps.registered();
                self.eps.set_status(new_params.status, ts);
                if !prev_reg_status && self.eps.registered() {
                    self.check_imsi = true
                }
            },
            RegType::Unknown => {
                return;
            },
        }
        // Update Cellular Global Identity
        if other_cell(&self.cgi.cell_id, &new_params.cell_id) {
            self.cgi.cell_id = new_params.cell_id;
            self.cgi.lac = new_params.lac;
        }
    }
}

} // verus!
