//! Network service commands: registration, operator selection, signal quality.

use crate::network::Error;
use crate::registration::text_of;
use crate::text::{chars_of_bytes, fields, latin1, split_fields};
use super::at::{at_line, at_text, decimal_text, push_decimal};
use super::{at_body, body_of, num_field, number_field, optional_number, optional_string, read_optional_number, read_optional_string, read_required_string, required_string};
use vstd::prelude::*;

verus! {

/// Network registration status, as the `<stat>` argument of `+CREG`.
#[derive(Debug, Clone, Copy, PartialEq, Eq, Structural)]
pub enum NetworkRegistrationStat {
    NotRegistered,
    Registered,
    NotRegisteredSearching,
    RegistrationDenied,
    Unknown,
    RegisteredRoaming,
    RegisteredSmsOnly,
    RegisteredSmsOnlyRoaming,
    RegisteredCsfbNotPerferred,
    RegisteredCsfbNotPerferredRoaming,
}

impl NetworkRegistrationStat {
    /// The number that stands for this status on the wire.
    pub open spec fn spec_value(self) -> u8 {
        match self {
            NetworkRegistrationStat::NotRegistered => 0,
            NetworkRegistrationStat::Registered => 1,
            NetworkRegistrationStat::NotRegisteredSearching => 2,
            NetworkRegistrationStat::RegistrationDenied => 3,
            NetworkRegistrationStat::Unknown => 4,
            NetworkRegistrationStat::RegisteredRoaming => 5,
            NetworkRegistrationStat::RegisteredSmsOnly => 6,
            NetworkRegistrationStat::RegisteredSmsOnlyRoaming => 7,
            NetworkRegistrationStat::RegisteredCsfbNotPerferred => 9,
            NetworkRegistrationStat::RegisteredCsfbNotPerferredRoaming => 10,
        }
    }

    /// The number that stands for this status on the wire.
    pub fn value(&self) -> (r: u8)
        ensures
            r == self.spec_value(),
    {
        match self {
            NetworkRegistrationStat::NotRegistered => 0,
            NetworkRegistrationStat::Registered => 1,
            NetworkRegistrationStat::NotRegisteredSearching => 2,
            NetworkRegistrationStat::RegistrationDenied => 3,
            NetworkRegistrationStat::Unknown => 4,
            NetworkRegistrationStat::RegisteredRoaming => 5,
            NetworkRegistrationStat::RegisteredSmsOnly => 6,
            NetworkRegistrationStat::RegisteredSmsOnlyRoaming => 7,
            NetworkRegistrationStat::RegisteredCsfbNotPerferred => 9,
            NetworkRegistrationStat::RegisteredCsfbNotPerferredRoaming => 10,
        }
    }

    /// The status that the number `v` stands for, if any.
    pub open spec fn spec_from_value(v: u8) -> Option<NetworkRegistrationStat> {
        if v == 0 {
            Some(NetworkRegistrationStat::NotRegistered)
        } else if v == 1 {
            Some(NetworkRegistrationStat::Registered)
        } else if v == 2 {
            Some(NetworkRegistrationStat::NotRegisteredSearching)
        } else if v == 3 {
            Some(NetworkRegistrationStat::RegistrationDenied)
        } else if v == 4 {
            Some(NetworkRegistrationStat::Unknown)
        } else if v == 5 {
            Some(NetworkRegistrationStat::RegisteredRoaming)
        } else if v == 6 {
            Some(NetworkRegistrationStat::RegisteredSmsOnly)
        } else if v == 7 {
            Some(NetworkRegistrationStat::RegisteredSmsOnlyRoaming)
        } else if v == 9 {
            Some(NetworkRegistrationStat::RegisteredCsfbNotPerferred)
        } else if v == 10 {
            Some(NetworkRegistrationStat::RegisteredCsfbNotPerferredRoaming)
        } else {
            None
        }
    }

    /// The status that the number `v` stands for, if any; its number is `v`.
    pub fn from_value(v: u8) -> (r: Option<Self>)
        ensures
            r == Self::spec_from_value(v),
            r matches Some(e) ==> e.spec_value() == v,
    {
        if v == 0 {
            Some(NetworkRegistrationStat::NotRegistered)
        } else if v == 1 {
            Some(NetworkRegistrationStat::Registered)
        } else if v == 2 {
            Some(NetworkRegistrationStat::NotRegisteredSearching)
        } else if v == 3 {
            Some(NetworkRegistrationStat::RegistrationDenied)
        } else if v == 4 {
            Some(NetworkRegistrationStat::Unknown)
        } else if v == 5 {
            Some(NetworkRegistrationStat::RegisteredRoaming)
        } else if v == 6 {
            Some(NetworkRegistrationStat::RegisteredSmsOnly)
        } else if v == 7 {
            Some(NetworkRegistrationStat::RegisteredSmsOnlyRoaming)
        } else if v == 9 {
            Some(NetworkRegistrationStat::RegisteredCsfbNotPerferred)
        } else if v == 10 {
            Some(NetworkRegistrationStat::RegisteredCsfbNotPerferredRoaming)
        } else {
            None
        }
    }

    /// Whether the module may use the network: registered at home or roaming.
    pub fn is_access_alive(&self) -> (r: bool)
        ensures
            r == (*self == NetworkRegistrationStat::Registered || *self
                == NetworkRegistrationStat::RegisteredRoaming),
    {
        match self {
            NetworkRegistrationStat::Registered | NetworkRegistrationStat::RegisteredRoaming => true,
            _ => false,
        }
    }

    /// The status itself, unless the network denied the registration.
    pub fn registration_ok(self) -> (r: Result<Self, Error>)
        ensures
            self == NetworkRegistrationStat::RegistrationDenied ==> r == Err::<Self, Error>(
                Error::RegistrationDenied,
            ),
            self != NetworkRegistrationStat::RegistrationDenied ==> r == Ok::<Self, Error>(self),
    {
        match self {
            NetworkRegistrationStat::RegistrationDenied => Err(Error::RegistrationDenied),
            _ => Ok(self),
        }
    }
}

/// Operator selection mode (`+COPS`).
#[derive(Debug, Clone, Copy, PartialEq, Eq, Structural)]
pub enum OperatorSelectionMode {
    Automatic,
    Manual,
    Deregister,
    FormatOnly,
    ManualAutomatic,
    ExtendedNetworkSearch,
    ExtendedNetworkSearchWithoutTags,
    NetworkTimingAdvanceSearch,
}

impl OperatorSelectionMode {
    /// The number that stands for the value in a command or response.
    pub open spec fn spec_value(self) -> u8 {
        match self {
            OperatorSelectionMode::Automatic => 0,
            OperatorSelectionMode::Manual => 1,
            OperatorSelectionMode::Deregister => 2,
            OperatorSelectionMode::FormatOnly => 3,
            OperatorSelectionMode::ManualAutomatic => 4,
            OperatorSelectionMode::ExtendedNetworkSearch => 5,
            OperatorSelectionMode::ExtendedNetworkSearchWithoutTags => 6,
            OperatorSelectionMode::NetworkTimingAdvanceSearch => 8,
        }
    }

    /// The value that the number `v` stands for, if any.
    pub open spec fn spec_from_value(v: u8) -> Option<OperatorSelectionMode> {
        if v == 0 {
            Some(OperatorSelectionMode::Automatic)
        } else if v == 1 {
            Some(OperatorSelectionMode::Manual)
        } else if v == 2 {
            Some(OperatorSelectionMode::Deregister)
        } else if v == 3 {
            Some(OperatorSelectionMode::FormatOnly)
        } else if v == 4 {
            Some(OperatorSelectionMode::ManualAutomatic)
        } else if v == 5 {
            Some(OperatorSelectionMode::ExtendedNetworkSearch)
        } else if v == 6 {
            Some(OperatorSelectionMode::ExtendedNetworkSearchWithoutTags)
        } else if v == 8 {
            Some(OperatorSelectionMode::NetworkTimingAdvanceSearch)
        } else {
            None
        }
    }

    /// The number that stands for the value; the value is read back from it.
    pub fn value(&self) -> (r: u8)
        ensures
            r == self.spec_value(),
            Self::spec_from_value(r) == Some(*self),
    {
        match self {
            OperatorSelectionMode::Automatic => 0,
            OperatorSelectionMode::Manual => 1,
            OperatorSelectionMode::Deregister => 2,
            OperatorSelectionMode::FormatOnly => 3,
            OperatorSelectionMode::ManualAutomatic => 4,
            OperatorSelectionMode::ExtendedNetworkSearch => 5,
            OperatorSelectionMode::ExtendedNetworkSearchWithoutTags => 6,
            OperatorSelectionMode::NetworkTimingAdvanceSearch => 8,
        }
    }

    /// The value that the number `v` stands for, if any; its number is `v`.
    pub fn from_value(v: u8) -> (r: Option<Self>)
        ensures
            r == Self::spec_from_value(v),
            r matches Some(e) ==> e.spec_value() == v,
    {
        if v == 0 {
            Some(OperatorSelectionMode::Automatic)
        } else if v == 1 {
            Some(OperatorSelectionMode::Manual)
        } else if v == 2 {
            Some(OperatorSelectionMode::Deregister)
        } else if v == 3 {
            Some(OperatorSelectionMode::FormatOnly)
        } else if v == 4 {
            Some(OperatorSelectionMode::ManualAutomatic)
        } else if v == 5 {
            Some(OperatorSelectionMode::ExtendedNetworkSearch)
        } else if v == 6 {
            Some(OperatorSelectionMode::ExtendedNetworkSearchWithoutTags)
        } else if v == 8 {
            Some(OperatorSelectionMode::NetworkTimingAdvanceSearch)
        } else {
            None
        }
    }
}

/// Network registration URC configuration (`+CREG`).
#[derive(Debug, Clone, Copy, PartialEq, Eq, Structural)]
pub enum NetworkRegistrationUrcConfig {
    UrcDisabled,
    UrcEnabled,
    UrcVerbose,
}

impl NetworkRegistrationUrcConfig {
    /// The number that stands for the value in a command or response.
    pub open spec fn spec_value(self) -> u8 {
        match self {
            NetworkRegistrationUrcConfig::UrcDisabled => 0,
            NetworkRegistrationUrcConfig::UrcEnabled => 1,
            NetworkRegistrationUrcConfig::UrcVerbose => 2,
        }
    }

    /// The value that the number `v` stands for, if any.
    pub open spec fn spec_from_value(v: u8) -> Option<NetworkRegistrationUrcConfig> {
        if v == 0 {
            Some(NetworkRegistrationUrcConfig::UrcDisabled)
        } else if v == 1 {
            Some(NetworkRegistrationUrcConfig::UrcEnabled)
        } else if v == 2 {
            Some(NetworkRegistrationUrcConfig::UrcVerbose)
        } else {
            None
        }
    }

    /// The number that stands for the value; the value is read back from it.
    pub fn value(&self) -> (r: u8)
        ensures
            r == self.spec_value(),
            Self::spec_from_value(r) == Some(*self),
    {
        match self {
            NetworkRegistrationUrcConfig::UrcDisabled => 0,
            NetworkRegistrationUrcConfig::UrcEnabled => 1,
            NetworkRegistrationUrcConfig::UrcVerbose => 2,
        }
    }

    /// The value that the number `v` stands for, if any; its number is `v`.
    pub fn from_value(v: u8) -> (r: Option<Self>)
        ensures
            r == Self::spec_from_value(v),
            r matches Some(e) ==> e.spec_value() == v,
    {
        if v == 0 {
            Some(NetworkRegistrationUrcConfig::UrcDisabled)
        } else if v == 1 {
            Some(NetworkRegistrationUrcConfig::UrcEnabled)
        } else if v == 2 {
            Some(NetworkRegistrationUrcConfig::UrcVerbose)
        } else {
            None
        }
    }
}

/// The preferred radio access technology.
#[derive(Debug, Clone, Copy, PartialEq, Eq, Structural)]
pub enum RatPreferred {
    GsmGprsEgprs,
    Utran,
    Lte,
}

impl RatPreferred {
    /// The number that stands for the value in a command or response.
    pub open spec fn spec_value(self) -> u8 {
        match self {
            RatPreferred::GsmGprsEgprs => 0,
            RatPreferred::Utran => 2,
            RatPreferred::Lte => 3,
        }
    }

    /// The value that the number `v` stands for, if any.
    pub open spec fn spec_from_value(v: u8) -> Option<RatPreferred> {
        if v == 0 {
            Some(RatPreferred::GsmGprsEgprs)
        } else if v == 2 {
            Some(RatPreferred::Utran)
        } else if v == 3 {
            Some(RatPreferred::Lte)
        } else {
            None
        }
    }

    /// The number that stands for the value; the value is read back from it.
    pub fn value(&self) -> (r: u8)
        ensures
            r == self.spec_value(),
            Self::spec_from_value(r) == Some(*self),
    {
        match self {
            RatPreferred::GsmGprsEgprs => 0,
            RatPreferred::Utran => 2,
            RatPreferred::Lte => 3,
        }
    }

    /// The value that the number `v` stands for, if any; its number is `v`.
    pub fn from_value(v: u8) -> (r: Option<Self>)
        ensures
            r == Self::spec_from_value(v),
            r matches Some(e) ==> e.spec_value() == v,
    {
        if v == 0 {
            Some(RatPreferred::GsmGprsEgprs)
        } else if v == 2 {
            Some(RatPreferred::Utran)
        } else if v == 3 {
            Some(RatPreferred::Lte)
        } else {
            None
        }
    }
}

/// 7.2 Extended signal quality +CESQ
#[derive(Debug, Clone, Copy, PartialEq, Eq, Structural)]
pub struct SignalQuality {
    pub rxlev: u8,
    pub ber: u8,
    pub rscp: u8,
    pub ecn0: u8,
    pub rsrq: u8,
    pub rsrp: u8,
}

/// 7.5 Operator selection +COPS: the selection mode, the operator (in the
/// format it is given in) and the access technology, where they are known.
#[derive(Debug, Clone, PartialEq, Eq)]
pub struct OperatorSelection {
    pub mode: OperatorSelectionMode,
    pub oper: Option<OperatorNameFormat>,
    pub act: Option<RatAct>,
}

/// The name of an operator, in one of the three formats of `+COPS`.
#[derive(Debug, Clone, PartialEq, Eq)]
pub enum OperatorNameFormat {
    /// Format 0: the long alphanumeric name, up to 24 characters.
    Long(String),
    /// Format 1: the short alphanumeric name, up to 10 characters.
    Short(String),
    /// Format 2: the numeric name (MCC and MNC), up to 6 characters.
    Numeric(String),
}

/// The longest name of an operator in the format `format` (0, 1 or 2).
pub open spec fn operator_name_cap(format: nat) -> nat {
    if format == 0 {
        24
    } else if format == 1 {
        10
    } else {
        6
    }
}

/// Whether `o` is the operator with the name `name` in the format `format`.
pub open spec fn operator_written(o: OperatorNameFormat, format: nat, name: Seq<char>) -> bool {
    match o {
        OperatorNameFormat::Long(s) => format == 0 && s@ == name,
        OperatorNameFormat::Short(s) => format == 1 && s@ == name,
        OperatorNameFormat::Numeric(s) => format == 2 && s@ == name,
    }
}

/// The access technology of the selected operator (`<AcT>` of `+COPS`).
#[derive(Debug, Clone, Copy, PartialEq, Eq, Structural)]
pub enum RatAct {
    Gsm,
    GsmCompact,
    Utran,
    GsmEgprs,
    UtranHsdpa,
    UtranHsupa,
    UtranHsdpaHsupa,
    Lte,
    EcGsmIot,
    LteNbS1,
}

impl RatAct {
    /// The value that the number `v` stands for, if any.
    pub open spec fn spec_from_value(v: u8) -> Option<RatAct> {
        if v == 0 {
            Some(RatAct::Gsm)
        } else if v == 1 {
            Some(RatAct::GsmCompact)
        } else if v == 2 {
            Some(RatAct::Utran)
        } else if v == 3 {
            Some(RatAct::GsmEgprs)
        } else if v == 4 {
            Some(RatAct::UtranHsdpa)
        } else if v == 5 {
            Some(RatAct::UtranHsupa)
        } else if v == 6 {
            Some(RatAct::UtranHsdpaHsupa)
        } else if v == 7 {
            Some(RatAct::Lte)
        } else if v == 8 {
            Some(RatAct::EcGsmIot)
        } else if v == 9 {
            Some(RatAct::LteNbS1)
        } else {
            None
        }
    }

    /// The value that the number `v` stands for, if any.
    pub fn from_value(v: u8) -> (r: Option<Self>)
        ensures
            r == Self::spec_from_value(v),
    {
        if v == 0 {
            Some(RatAct::Gsm)
        } else if v == 1 {
            Some(RatAct::GsmCompact)
        } else if v == 2 {
            Some(RatAct::Utran)
        } else if v == 3 {
            Some(RatAct::GsmEgprs)
        } else if v == 4 {
            Some(RatAct::UtranHsdpa)
        } else if v == 5 {
            Some(RatAct::UtranHsupa)
        } else if v == 6 {
            Some(RatAct::UtranHsdpaHsupa)
        } else if v == 7 {
            Some(RatAct::Lte)
        } else if v == 8 {
            Some(RatAct::EcGsmIot)
        } else if v == 9 {
            Some(RatAct::LteNbS1)
        } else {
            None
        }
    }
}

/// The radio access technologies the module uses, with the preferred ones
/// where it uses several (`+URAT`).
#[derive(Debug, Clone, Copy, PartialEq, Eq, Structural)]
pub enum RadioAccessTechnologySelected {
    GsmGprsEGprs,
    GsmUmts(RatPreferred),
    Umts,
    Lte,
    GsmUmtsLte(RatPreferred, RatPreferred),
    GsmLte(RatPreferred),
    UmtsLte(RatPreferred),
}

impl RadioAccessTechnologySelected {
    /// The number that stands for the selection, before its preferences.
    pub open spec fn spec_value(self) -> u8 {
        match self {
            RadioAccessTechnologySelected::GsmGprsEGprs => 0,
            RadioAccessTechnologySelected::GsmUmts(_) => 1,
            RadioAccessTechnologySelected::Umts => 2,
            RadioAccessTechnologySelected::Lte => 3,
            RadioAccessTechnologySelected::GsmUmtsLte(_, _) => 4,
            RadioAccessTechnologySelected::GsmLte(_) => 5,
            RadioAccessTechnologySelected::UmtsLte(_) => 6,
        }
    }

    /// The number that stands for the selection, before its preferences.
    pub fn value(&self) -> (r: u8)
        ensures
            r == self.spec_value(),
    {
        match self {
            RadioAccessTechnologySelected::GsmGprsEGprs => 0,
            RadioAccessTechnologySelected::GsmUmts(_) => 1,
            RadioAccessTechnologySelected::Umts => 2,
            RadioAccessTechnologySelected::Lte => 3,
            RadioAccessTechnologySelected::GsmUmtsLte(_, _) => 4,
            RadioAccessTechnologySelected::GsmLte(_) => 5,
            RadioAccessTechnologySelected::UmtsLte(_) => 6,
        }
    }
}

/// 7.7 Radio access technology (RAT) selection +URAT
#[derive(Debug, Clone, Copy, PartialEq, Eq, Structural)]
pub struct RadioAccessTechnology {
    pub act: RadioAccessTechnologySelected,
}

/// 7.5 Operator selection +COPS: select the operator, in the given format.
#[derive(Debug, Clone, Copy, PartialEq, Eq, Structural)]
pub struct SetOperatorSelection {
    pub mode: OperatorSelectionMode,
    pub format: Option<u8>,
}

/// 7.5 Read the operator selection +COPS?
#[derive(Debug, Clone, Copy, PartialEq, Eq, Structural)]
pub struct GetOperatorSelection;

impl SetOperatorSelection {
    /// The arguments of the command, as they are written on the command line (an absent trailing argument is left out).
    pub open spec fn spec_args(&self) -> Seq<Seq<char>> {
        seq![decimal_text(self.mode.spec_value() as nat)] + match self.format {
            Some(v) => seq![decimal_text(v as nat)],
            None => Seq::empty(),
        }
    }

    /// The command line: `AT+COPS` with its arguments.
    pub fn to_text(&self) -> (r: Vec<char>)
        ensures
            r@ == at_text("+COPS"@, self.spec_args(), true),
    {
        let mut args: Vec<Vec<char>> = Vec::new();
        let mut a: Vec<char> = Vec::new();
        push_decimal(&mut a, self.mode.value() as u128);
        args.push(a);
        match self.format {
            Some(v) => {
            let mut a: Vec<char> = Vec::new();
            push_decimal(&mut a, v as u128);
            args.push(a);
            },
            None => {},
        }
        proof {
            assert(args@.map_values(|a: Vec<char>| a@) =~= self.spec_args());
        }
        at_line("+COPS", &args, true)
    }
}

impl GetOperatorSelection {
    /// The arguments of the command, as they are written on the command line.
    pub open spec fn spec_args(&self) -> Seq<Seq<char>> {
        Seq::empty()
    }

    /// The command line: `AT+COPS?`.
    pub fn to_text(&self) -> (r: Vec<char>)
        ensures
            r@ == at_text("+COPS?"@, self.spec_args(), true),
    {
        let mut args: Vec<Vec<char>> = Vec::new();
        proof {
            assert(args@.map_values(|a: Vec<char>| a@) =~= self.spec_args());
        }
        at_line("+COPS?", &args, true)
    }
}

/// 7.14 Network registration status +CREG: configure the URC.
#[derive(Debug, Clone, Copy, PartialEq, Eq, Structural)]
pub struct SetNetworkRegistrationStatus {
    pub n: NetworkRegistrationUrcConfig,
}

/// 7.14 Read the network registration status +CREG?
#[derive(Debug, Clone, Copy, PartialEq, Eq, Structural)]
pub struct GetNetworkRegistrationStatus;

impl SetNetworkRegistrationStatus {
    /// The arguments of the command, as they are written on the command line.
    pub open spec fn spec_args(&self) -> Seq<Seq<char>> {
        seq![decimal_text(self.n.spec_value() as nat)]
    }

    /// The command line: `AT+CREG` with its arguments.
    pub fn to_text(&self) -> (r: Vec<char>)
        ensures
            r@ == at_text("+CREG"@, self.spec_args(), true),
    {
        let mut args: Vec<Vec<char>> = Vec::new();
        let mut a: Vec<char> = Vec::new();
        push_decimal(&mut a, self.n.value() as u128);
        args.push(a);
        proof {
            assert(args@.map_values(|a: Vec<char>| a@) =~= self.spec_args());
        }
        at_line("+CREG", &args, true)
    }
}

impl GetNetworkRegistrationStatus {
    /// The arguments of the command, as they are written on the command line.
    pub open spec fn spec_args(&self) -> Seq<Seq<char>> {
        Seq::empty()
    }

    /// The command line: `AT+CREG?`.
    pub fn to_text(&self) -> (r: Vec<char>)
        ensures
            r@ == at_text("+CREG?"@, self.spec_args(), true),
    {
        let mut args: Vec<Vec<char>> = Vec::new();
        proof {
            assert(args@.map_values(|a: Vec<char>| a@) =~= self.spec_args());
        }
        at_line("+CREG?", &args, true)
    }
}

/// 7.14 Network registration status +CREG, as `+CREG?` answers it.
#[derive(Debug, Clone, PartialEq, Eq)]
pub struct NetworkRegistrationStatus {
    pub n: NetworkRegistrationUrcConfig,
    pub stat: NetworkRegistrationStat,
    /// The location area code, at most 4 characters.
    pub lac: Option<String>,
    /// The cell identity, at most 8 characters.
    pub ci: Option<String>,
    pub act_status: Option<u8>,
}

/// What the value text `body` of a `+CREG?` answer reports, if it is well
/// formed: 2 to 5 comma separated fields, the URC setting and the status as
/// numbers, then optionally the location area code (at most 4 characters)
/// and the cell identity (at most 8), as strings, and the access technology
/// as a number (at most 255).
pub open spec fn creg_status_of(body: Seq<char>) -> Option<
    (NetworkRegistrationUrcConfig, NetworkRegistrationStat, Option<Seq<char>>, Option<Seq<char>>, Option<u8>),
> {
    let fs = fields(body);
    if fs.len() < 2 || fs.len() > 5 {
        None
    } else {
        match (num_field(body, 0, 255), num_field(body, 1, 255)) {
            (Some(n), Some(st)) => match (
                NetworkRegistrationUrcConfig::spec_from_value(n as u8),
                NetworkRegistrationStat::spec_from_value(st as u8),
                optional_string(fs, 2, 4),
                optional_string(fs, 3, 8),
                optional_number(fs, 4, 255),
            ) {
                (Some(a), Some(b), Some(lac), Some(ci), Some(act)) => Some(
                    (
                        a,
                        b,
                        lac,
                        ci,
                        match act {
                            Some(v) => Some(v as u8),
                            None => None,
                        },
                    ),
                ),
                _ => None,
            },
            _ => None,
        }
    }
}

impl NetworkRegistrationStatus {
    /// What the answer `resp` to `+CREG?` (`+CREG: <n>,<stat>[,<lac>,<ci>[,<AcTStatus>]]`)
    /// reports, if it is well formed (see [creg_status_of]).
    pub fn parse(resp: &[u8]) -> (r: Option<Self>)
        ensures
            match creg_status_of(at_body(latin1(resp@))) {
                Some((n, stat, lac, ci, act)) => r matches Some(v) && v.n == n && v.stat == stat
                    && text_of(v.lac) == lac && text_of(v.ci) == ci && v.act_status == act,
                None => r is None,
            },
    {
        let c = chars_of_bytes(resp);
        let body = body_of(c.as_slice());
        let f = split_fields(body.as_slice());
        let ghost fs = fields(body@);
        proof {
            assert(f@.map_values(|a: Vec<char>| a@) =~= fs);
        }
        if f.len() < 2 || f.len() > 5 {
            return None;
        }
        let n = match number_field(&f, 0, 255) {
            Some(v) => v,
            None => {
                return None;
            },
        };
        let st = match number_field(&f, 1, 255) {
            Some(v) => v,
            None => {
                return None;
            },
        };
        let n = match NetworkRegistrationUrcConfig::from_value(n as u8) {
            Some(v) => v,
            None => {
                return None;
            },
        };
        let stat = match NetworkRegistrationStat::from_value(st as u8) {
            Some(v) => v,
            None => {
                return None;
            },
        };
        let lac = match read_optional_string(&f, 2, 4) {
            Some(v) => v,
            None => {
                return None;
            },
        };
        let ci = match read_optional_string(&f, 3, 8) {
            Some(v) => v,
            None => {
                return None;
            },
        };
        let act = match read_optional_number(&f, 4, 255) {
            Some(v) => v,
            None => {
                return None;
            },
        };
        let act_status: Option<u8> = match act {
            Some(v) => Some(v as u8),
            None => None,
        };
        Some(NetworkRegistrationStatus { n, stat, lac, ci, act_status })
    }
}

/// 7.4 Read the extended signal quality +CESQ
#[derive(Debug, Clone, Copy, PartialEq, Eq, Structural)]
pub struct GetSignalQuality;

impl GetSignalQuality {
    /// The arguments of the command, as they are written on the command line.
    pub open spec fn spec_args(&self) -> Seq<Seq<char>> {
        Seq::empty()
    }

    /// The command line: `AT+CESQ`.
    pub fn to_text(&self) -> (r: Vec<char>)
        ensures
            r@ == at_text("+CESQ"@, self.spec_args(), true),
    {
        let mut args: Vec<Vec<char>> = Vec::new();
        proof {
            assert(args@.map_values(|a: Vec<char>| a@) =~= self.spec_args());
        }
        at_line("+CESQ", &args, true)
    }
}

/// The signal quality that the value text `body` of a `+CESQ` answer
/// reports, if it is well formed: 6 comma separated decimal numbers of at
/// most 255.
pub open spec fn signal_quality_of(body: Seq<char>) -> Option<SignalQuality> {
    if fields(body).len() == 6 {
        match (
            num_field(body, 0, 255),
            num_field(body, 1, 255),
            num_field(body, 2, 255),
            num_field(body, 3, 255),
            num_field(body, 4, 255),
            num_field(body, 5, 255),
        ) {
            (Some(a), Some(b), Some(c), Some(d), Some(e), Some(f)) => Some(
                SignalQuality { rxlev: a as u8, ber: b as u8, rscp: c as u8, ecn0: d as u8, rsrq: e as u8, rsrp: f as u8 },
            ),
            _ => None,
        }
    } else {
        None
    }
}

impl SignalQuality {
    /// The signal quality that the answer `resp` (`+CESQ: <rxlev>,<ber>,<rscp>,<ecn0>,<rsrq>,<rsrp>`) reports, if any.
    pub fn parse(resp: &[u8]) -> (r: Option<Self>)
        ensures
            r == signal_quality_of(at_body(latin1(resp@))),
    {
        let c = chars_of_bytes(resp);
        let body = body_of(c.as_slice());
        let f = split_fields(body.as_slice());
        if f.len() != 6 {
            return None;
        }
        let a = match number_field(&f, 0, 255) {
            Some(v) => v,
            None => {
                return None;
            },
        };
        let b = match number_field(&f, 1, 255) {
            Some(v) => v,
            None => {
                return None;
            },
        };
        let c2 = match number_field(&f, 2, 255) {
            Some(v) => v,
            None => {
                return None;
            },
        };
        let d = match number_field(&f, 3, 255) {
            Some(v) => v,
            None => {
                return None;
            },
        };
        let e = match number_field(&f, 4, 255) {
            Some(v) => v,
            None => {
                return None;
            },
        };
        let g = match number_field(&f, 5, 255) {
            Some(v) => v,
            None => {
                return None;
            },
        };
        Some(SignalQuality { rxlev: a as u8, ber: b as u8, rscp: c2 as u8, ecn0: d as u8, rsrq: e as u8, rsrp: g as u8 })
    }
}

/// What the value text `body` of a `+COPS?` answer reports, if it is well
/// formed: one, three or four comma separated fields; the first a decimal
/// number that names a selection mode; then the format of the operator's
/// name (0, 1 or 2) and the name as a string, of at most
/// [operator_name_cap] characters; then a decimal number that names the
/// access technology.
pub open spec fn cops_of(body: Seq<char>) -> Option<(OperatorSelectionMode, Option<(nat, Seq<char>)>, Option<RatAct>)> {
    let fs = fields(body);
    if fs.len() == 1 || fs.len() == 3 || fs.len() == 4 {
        match num_field(body, 0, 255) {
            Some(v) => match OperatorSelectionMode::spec_from_value(v as u8) {
                Some(mode) => if fs.len() == 1 {
                    Some((mode, None, None))
                } else {
                    match num_field(body, 1, 2) {
                        Some(format) => match required_string(fs, 2, operator_name_cap(format)) {
                            Some(name) => if fs.len() == 3 {
                                Some((mode, Some((format, name)), None))
                            } else {
                                match num_field(body, 3, 255) {
                                    Some(a) => match RatAct::spec_from_value(a as u8) {
                                        Some(act) => Some((mode, Some((format, name)), Some(act))),
                                        None => None,
                                    },
                                    None => None,
                                }
                            },
                            None => None,
                        },
                        None => None,
                    }
                },
                None => None,
            },
            None => None,
        }
    } else {
        None
    }
}

impl OperatorSelection {
    /// The selection that the answer `resp` (`+COPS: <mode>[,<format>,<oper>[,<AcT>]]`)
    /// reports, if it is well formed (see [cops_of]).
    pub fn parse(resp: &[u8]) -> (r: Option<Self>)
        ensures
            match cops_of(at_body(latin1(resp@))) {
                Some((mode, oper, act)) => r matches Some(v) && v.mode == mode && v.act == act && match oper {
                    Some((format, name)) => v.oper matches Some(o) && operator_written(o, format, name),
                    None => v.oper is None,
                },
                None => r is None,
            },
    {
        let c = chars_of_bytes(resp);
        let body = body_of(c.as_slice());
        let f = split_fields(body.as_slice());
        let ghost fs = fields(body@);
        proof {
            assert(f@.map_values(|a: Vec<char>| a@) =~= fs);
        }
        let n = f.len();
        if !(n == 1 || n == 3 || n == 4) {
            return None;
        }
        let mode = match number_field(&f, 0, 255) {
            Some(v) => match OperatorSelectionMode::from_value(v as u8) {
                Some(m) => m,
                None => {
                    return None;
                },
            },
            None => {
                return None;
            },
        };
        if n == 1 {
            return Some(OperatorSelection { mode, oper: None, act: None });
        }
        let format = match number_field(&f, 1, 2) {
            Some(v) => v,
            None => {
                return None;
            },
        };
        let cap: usize = if format == 0 {
            24
        } else if format == 1 {
            10
        } else {
            6
        };
        let name = match read_required_string(&f, 2, cap) {
            Some(t) => t,
            None => {
                return None;
            },
        };
        let oper = if format == 0 {
            OperatorNameFormat::Long(name)
        } else if format == 1 {
            OperatorNameFormat::Short(name)
        } else {
            OperatorNameFormat::Numeric(name)
        };
        if n == 3 {
            return Some(OperatorSelection { mode, oper: Some(oper), act: None });
        }
        let act = match number_field(&f, 3, 255) {
            Some(a) => match RatAct::from_value(a as u8) {
                Some(v) => v,
                None => {
                    return None;
                },
            },
            None => {
                return None;
            },
        };
        Some(OperatorSelection { mode, oper: Some(oper), act: Some(act) })
    }
}

} // verus!
