//! Mobile equipment control and status: functionality, clock, error reporting.

use super::at::{at_line, at_text, decimal_text, push_decimal, push_quoted, quoted};
use vstd::prelude::*;

verus! {

/// Level of functionality of the module (`+CFUN`).
#[derive(Debug, Clone, Copy, PartialEq, Eq, Structural)]
pub enum Functionality {
    /// Sets the MT to minimum functionality (disable both transmit and receive RF circuits by deactivating both CS and PS services)
    Minimum,
    /// Sets the MT to full functionality
    Full,
    /// Disables both transmit and receive RF circuits by deactivating both CS and PS services and sets the MT into airplane mode
    AirplaneMode,
    /// Enables the SIM-toolkit interface in dedicated mode
    DedicatedMode,
    /// Disables the SIM-toolkit interface
    DisableSimToolkit,
    /// Disables the SIM-toolkit interface (same as 7)
    DisableSimToolkit_,
    /// Enables the SIM-toolkit interface in raw mode
    RawMode,
    /// MT silent reset (with detach from network and saving of NVM parameters), without reset of the SIM card
    SilentReset,
    /// MT silent reset (with detach from network and saving of NVM parameters), with reset of the SIM card
    SilentResetWithSimReset,
    /// Sets the MT to minimum functionality by deactivating CS and PS services and the SIM card
    MinimumWithoutSim,
    /// Sets the MT in a deep low power state "HALT"
    Halt,
}

impl Functionality {
    /// The number that stands for the value in a command or response.
    pub open spec fn spec_value(self) -> u8 {
        match self {
            Functionality::Minimum => 0,
            Functionality::Full => 1,
            Functionality::AirplaneMode => 4,
            Functionality::DedicatedMode => 6,
            Functionality::DisableSimToolkit => 7,
            Functionality::DisableSimToolkit_ => 8,
            Functionality::RawMode => 9,
            Functionality::SilentReset => 15,
            Functionality::SilentResetWithSimReset => 16,
            Functionality::MinimumWithoutSim => 19,
            Functionality::Halt => 127,
        }
    }

    /// The value that the number `v` stands for, if any.
    pub open spec fn spec_from_value(v: u8) -> Option<Functionality> {
        if v == 0 {
            Some(Functionality::Minimum)
        } else if v == 1 {
            Some(Functionality::Full)
        } else if v == 4 {
            Some(Functionality::AirplaneMode)
        } else if v == 6 {
            Some(Functionality::DedicatedMode)
        } else if v == 7 {
            Some(Functionality::DisableSimToolkit)
        } else if v == 8 {
            Some(Functionality::DisableSimToolkit_)
        } else if v == 9 {
            Some(Functionality::RawMode)
        } else if v == 15 {
            Some(Functionality::SilentReset)
        } else if v == 16 {
            Some(Functionality::SilentResetWithSimReset)
        } else if v == 19 {
            Some(Functionality::MinimumWithoutSim)
        } else if v == 127 {
            Some(Functionality::Halt)
        } else {
            None
        }
    }

    /// The number that stands for the value; the value is read back from it.
    pub fn value(&self) -> (r: u8)
        ensures
            r == self.spec_value(),
            Self::spec_from_value(r) == Some(*self),
    {
        match self {
            Functionality::Minimum => 0,
            Functionality::Full => 1,
            Functionality::AirplaneMode => 4,
            Functionality::DedicatedMode => 6,
            Functionality::DisableSimToolkit => 7,
            Functionality::DisableSimToolkit_ => 8,
            Functionality::RawMode => 9,
            Functionality::SilentReset => 15,
            Functionality::SilentResetWithSimReset => 16,
            Functionality::MinimumWithoutSim => 19,
            Functionality::Halt => 127,
        }
    }

    /// The value that the number `v` stands for, if any; its number is `v`.
    pub fn from_value(v: u8) -> (r: Option<Self>)
        ensures
            r == Self::spec_from_value(v),
            r matches Some(e) ==> e.spec_value() == v,
    {
        if v == 0 {
            Some(Functionality::Minimum)
        } else if v == 1 {
            Some(Functionality::Full)
        } else if v == 4 {
            Some(Functionality::AirplaneMode)
        } else if v == 6 {
            Some(Functionality::DedicatedMode)
        } else if v == 7 {
            Some(Functionality::DisableSimToolkit)
        } else if v == 8 {
            Some(Functionality::DisableSimToolkit_)
        } else if v == 9 {
            Some(Functionality::RawMode)
        } else if v == 15 {
            Some(Functionality::SilentReset)
        } else if v == 16 {
            Some(Functionality::SilentResetWithSimReset)
        } else if v == 19 {
            Some(Functionality::MinimumWithoutSim)
        } else if v == 127 {
            Some(Functionality::Halt)
        } else {
            None
        }
    }
}

/// Whether the module resets after a change of functionality.
#[derive(Debug, Clone, Copy, PartialEq, Eq, Structural)]
pub enum ResetMode {
    DontReset,
    Reset,
}

impl ResetMode {
    /// The number that stands for the value in a command or response.
    pub open spec fn spec_value(self) -> u8 {
        match self {
            ResetMode::DontReset => 0,
            ResetMode::Reset => 1,
        }
    }

    /// The value that the number `v` stands for, if any.
    pub open spec fn spec_from_value(v: u8) -> Option<ResetMode> {
        if v == 0 {
            Some(ResetMode::DontReset)
        } else if v == 1 {
            Some(ResetMode::Reset)
        } else {
            None
        }
    }

    /// The number that stands for the value; the value is read back from it.
    pub fn value(&self) -> (r: u8)
        ensures
            r == self.spec_value(),
            Self::spec_from_value(r) == Some(*self),
    {
        match self {
            ResetMode::DontReset => 0,
            ResetMode::Reset => 1,
        }
    }

    /// The value that the number `v` stands for, if any; its number is `v`.
    pub fn from_value(v: u8) -> (r: Option<Self>)
        ensures
            r == Self::spec_from_value(v),
            r matches Some(e) ==> e.spec_value() == v,
    {
        if v == 0 {
            Some(ResetMode::DontReset)
        } else if v == 1 {
            Some(ResetMode::Reset)
        } else {
            None
        }
    }
}

/// Automatic time zone update (`+CTZU`).
#[derive(Debug, Clone, Copy, PartialEq, Eq, Structural)]
pub enum AutomaticTimezone {
    Disabled,
    EnabledLocal,
    EnabledGMT,
}

impl AutomaticTimezone {
    /// The number that stands for the value in a command or response.
    pub open spec fn spec_value(self) -> u8 {
        match self {
            AutomaticTimezone::Disabled => 0,
            AutomaticTimezone::EnabledLocal => 1,
            AutomaticTimezone::EnabledGMT => 2,
        }
    }

    /// The value that the number `v` stands for, if any.
    pub open spec fn spec_from_value(v: u8) -> Option<AutomaticTimezone> {
        if v == 0 {
            Some(AutomaticTimezone::Disabled)
        } else if v == 1 {
            Some(AutomaticTimezone::EnabledLocal)
        } else if v == 2 {
            Some(AutomaticTimezone::EnabledGMT)
        } else {
            None
        }
    }

    /// The number that stands for the value; the value is read back from it.
    pub fn value(&self) -> (r: u8)
        ensures
            r == self.spec_value(),
            Self::spec_from_value(r) == Some(*self),
    {
        match self {
            AutomaticTimezone::Disabled => 0,
            AutomaticTimezone::EnabledLocal => 1,
            AutomaticTimezone::EnabledGMT => 2,
        }
    }

    /// The value that the number `v` stands for, if any; its number is `v`.
    pub fn from_value(v: u8) -> (r: Option<Self>)
        ensures
            r == Self::spec_from_value(v),
            r matches Some(e) ==> e.spec_value() == v,
    {
        if v == 0 {
            Some(AutomaticTimezone::Disabled)
        } else if v == 1 {
            Some(AutomaticTimezone::EnabledLocal)
        } else if v == 2 {
            Some(AutomaticTimezone::EnabledGMT)
        } else {
            None
        }
    }
}

/// How mobile termination errors are reported (`+CMEE`).
#[derive(Debug, Clone, Copy, PartialEq, Eq, Structural)]
pub enum TerminationErrorMode {
    Disabled,
    Enabled,
    Verbose,
}

impl TerminationErrorMode {
    /// The number that stands for the value in a command or response.
    pub open spec fn spec_value(self) -> u8 {
        match self {
            TerminationErrorMode::Disabled => 0,
            TerminationErrorMode::Enabled => 1,
            TerminationErrorMode::Verbose => 2,
        }
    }

    /// The value that the number `v` stands for, if any.
    pub open spec fn spec_from_value(v: u8) -> Option<TerminationErrorMode> {
        if v == 0 {
            Some(TerminationErrorMode::Disabled)
        } else if v == 1 {
            Some(TerminationErrorMode::Enabled)
        } else if v == 2 {
            Some(TerminationErrorMode::Verbose)
        } else {
            None
        }
    }

    /// The number that stands for the value; the value is read back from it.
    pub fn value(&self) -> (r: u8)
        ensures
            r == self.spec_value(),
            Self::spec_from_value(r) == Some(*self),
    {
        match self {
            TerminationErrorMode::Disabled => 0,
            TerminationErrorMode::Enabled => 1,
            TerminationErrorMode::Verbose => 2,
        }
    }

    /// The value that the number `v` stands for, if any; its number is `v`.
    pub fn from_value(v: u8) -> (r: Option<Self>)
        ensures
            r == Self::spec_from_value(v),
            r matches Some(e) ==> e.spec_value() == v,
    {
        if v == 0 {
            Some(TerminationErrorMode::Disabled)
        } else if v == 1 {
            Some(TerminationErrorMode::Enabled)
        } else if v == 2 {
            Some(TerminationErrorMode::Verbose)
        } else {
            None
        }
    }
}

/// Power mode of the module (`+CFUN?`).
#[derive(Debug, Clone, Copy, PartialEq, Eq, Structural)]
pub enum PowerMode {
    Minimum,
    On,
    AirplaneMode,
    MinimumWithoutSim,
}

impl PowerMode {
    /// The number that stands for the value in a command or response.
    pub open spec fn spec_value(self) -> u8 {
        match self {
            PowerMode::Minimum => 0,
            PowerMode::On => 1,
            PowerMode::AirplaneMode => 4,
            PowerMode::MinimumWithoutSim => 19,
        }
    }

    /// The value that the number `v` stands for, if any.
    pub open spec fn spec_from_value(v: u8) -> Option<PowerMode> {
        if v == 0 {
            Some(PowerMode::Minimum)
        } else if v == 1 {
            Some(PowerMode::On)
        } else if v == 4 {
            Some(PowerMode::AirplaneMode)
        } else if v == 19 {
            Some(PowerMode::MinimumWithoutSim)
        } else {
            None
        }
    }

    /// The number that stands for the value; the value is read back from it.
    pub fn value(&self) -> (r: u8)
        ensures
            r == self.spec_value(),
            Self::spec_from_value(r) == Some(*self),
    {
        match self {
            PowerMode::Minimum => 0,
            PowerMode::On => 1,
            PowerMode::AirplaneMode => 4,
            PowerMode::MinimumWithoutSim => 19,
        }
    }

    /// The value that the number `v` stands for, if any; its number is `v`.
    pub fn from_value(v: u8) -> (r: Option<Self>)
        ensures
            r == Self::spec_from_value(v),
            r matches Some(e) ==> e.spec_value() == v,
    {
        if v == 0 {
            Some(PowerMode::Minimum)
        } else if v == 1 {
            Some(PowerMode::On)
        } else if v == 4 {
            Some(PowerMode::AirplaneMode)
        } else if v == 19 {
            Some(PowerMode::MinimumWithoutSim)
        } else {
            None
        }
    }
}

/// SIM toolkit mode (`+CFUN?`).
#[derive(Debug, Clone, Copy, PartialEq, Eq, Structural)]
pub enum STKMode {
    DedicatedMode,
    Disabled,
    RawMode,
}

impl STKMode {
    /// The number that stands for the value in a command or response.
    pub open spec fn spec_value(self) -> u8 {
        match self {
            STKMode::DedicatedMode => 6,
            STKMode::Disabled => 0,
            STKMode::RawMode => 9,
        }
    }

    /// The value that the number `v` stands for, if any.
    pub open spec fn spec_from_value(v: u8) -> Option<STKMode> {
        if v == 6 {
            Some(STKMode::DedicatedMode)
        } else if v == 0 {
            Some(STKMode::Disabled)
        } else if v == 9 {
            Some(STKMode::RawMode)
        } else {
            None
        }
    }

    /// The number that stands for the value; the value is read back from it.
    pub fn value(&self) -> (r: u8)
        ensures
            r == self.spec_value(),
            Self::spec_from_value(r) == Some(*self),
    {
        match self {
            STKMode::DedicatedMode => 6,
            STKMode::Disabled => 0,
            STKMode::RawMode => 9,
        }
    }

    /// The value that the number `v` stands for, if any; its number is `v`.
    pub fn from_value(v: u8) -> (r: Option<Self>)
        ensures
            r == Self::spec_from_value(v),
            r matches Some(e) ==> e.spec_value() == v,
    {
        if v == 6 {
            Some(STKMode::DedicatedMode)
        } else if v == 0 {
            Some(STKMode::Disabled)
        } else if v == 9 {
            Some(STKMode::RawMode)
        } else {
            None
        }
    }
}

/// How mobile termination errors are reported (`+CMEE?`).
#[derive(Debug, Clone, Copy, PartialEq, Eq, Structural)]
pub enum ReportMobileTerminationErrorStatus {
    DisabledERRORused,
    EnabledCodeUsed,
    EnabledVerbose,
}

impl ReportMobileTerminationErrorStatus {
    /// The number that stands for the value in a command or response.
    pub open spec fn spec_value(self) -> u8 {
        match self {
            ReportMobileTerminationErrorStatus::DisabledERRORused => 0,
            ReportMobileTerminationErrorStatus::EnabledCodeUsed => 1,
            ReportMobileTerminationErrorStatus::EnabledVerbose => 2,
        }
    }

    /// The value that the number `v` stands for, if any.
    pub open spec fn spec_from_value(v: u8) -> Option<ReportMobileTerminationErrorStatus> {
        if v == 0 {
            Some(ReportMobileTerminationErrorStatus::DisabledERRORused)
        } else if v == 1 {
            Some(ReportMobileTerminationErrorStatus::EnabledCodeUsed)
        } else if v == 2 {
            Some(ReportMobileTerminationErrorStatus::EnabledVerbose)
        } else {
            None
        }
    }

    /// The number that stands for the value; the value is read back from it.
    pub fn value(&self) -> (r: u8)
        ensures
            r == self.spec_value(),
            Self::spec_from_value(r) == Some(*self),
    {
        match self {
            ReportMobileTerminationErrorStatus::DisabledERRORused => 0,
            ReportMobileTerminationErrorStatus::EnabledCodeUsed => 1,
            ReportMobileTerminationErrorStatus::EnabledVerbose => 2,
        }
    }

    /// The value that the number `v` stands for, if any; its number is `v`.
    pub fn from_value(v: u8) -> (r: Option<Self>)
        ensures
            r == Self::spec_from_value(v),
            r matches Some(e) ==> e.spec_value() == v,
    {
        if v == 0 {
            Some(ReportMobileTerminationErrorStatus::DisabledERRORused)
        } else if v == 1 {
            Some(ReportMobileTerminationErrorStatus::EnabledCodeUsed)
        } else if v == 2 {
            Some(ReportMobileTerminationErrorStatus::EnabledVerbose)
        } else {
            None
        }
    }
}

/// 5.2 Module switch off +CPWROFF
#[derive(Debug, Clone, Copy, PartialEq, Eq, Structural)]
pub struct ModuleSwitchOff;

/// 5.3 Set module functionality +CFUN
#[derive(Debug, Clone, Copy, PartialEq, Eq, Structural)]
pub struct SetModuleFunctionality {
    pub fun: Functionality,
    pub rst: Option<ResetMode>,
}

/// 5.3 Read module functionality +CFUN?
#[derive(Debug, Clone, Copy, PartialEq, Eq, Structural)]
pub struct GetModuleFunctionality;

/// 5.4 Indicator control +CIND?
#[derive(Debug, Clone, Copy, PartialEq, Eq, Structural)]
pub struct GetIndicatorControl;

/// 5.7 Clock +CCLK
#[derive(Debug, Clone, Copy, PartialEq, Eq)]
pub struct SetClock<'a> {
    pub time: &'a str,
}

/// 5.7 Read the clock +CCLK?
#[derive(Debug, Clone, Copy, PartialEq, Eq, Structural)]
pub struct GetClock;

/// 5.9 Automatic time zone update +CTZU
#[derive(Debug, Clone, Copy, PartialEq, Eq, Structural)]
pub struct SetAutomaticTimezoneUpdate {
    pub on_off: AutomaticTimezone,
}

/// 5.13 Report mobile termination error +CMEE
#[derive(Debug, Clone, Copy, PartialEq, Eq, Structural)]
pub struct SetReportMobileTerminationError {
    pub n: TerminationErrorMode,
}

/// 5.13 Read how mobile termination errors are reported +CMEE?
#[derive(Debug, Clone, Copy, PartialEq, Eq, Structural)]
pub struct GetReportMobileTerminationError;

impl ModuleSwitchOff {
    /// The arguments of the command, as they are written on the command line.
    pub open spec fn spec_args(&self) -> Seq<Seq<char>> {
        Seq::empty()
    }

    /// The command line: `AT+CPWROFF`.
    pub fn to_text(&self) -> (r: Vec<char>)
        ensures
            r@ == at_text("+CPWROFF"@, self.spec_args(), true),
    {
        let mut args: Vec<Vec<char>> = Vec::new();
        proof {
            assert(args@.map_values(|a: Vec<char>| a@) =~= self.spec_args());
        }
        at_line("+CPWROFF", &args, true)
    }
}

impl SetModuleFunctionality {
    /// The arguments of the command, as they are written on the command line (an absent trailing argument is left out).
    pub open spec fn spec_args(&self) -> Seq<Seq<char>> {
        seq![decimal_text(self.fun.spec_value() as nat)] + match self.rst {
            Some(v) => seq![decimal_text(v.spec_value() as nat)],
            None => Seq::empty(),
        }
    }

    /// The command line: `AT+CFUN` with its arguments.
    pub fn to_text(&self) -> (r: Vec<char>)
        ensures
            r@ == at_text("+CFUN"@, self.spec_args(), true),
    {
        let mut args: Vec<Vec<char>> = Vec::new();
        let mut a: Vec<char> = Vec::new();
        push_decimal(&mut a, self.fun.value() as u128);
        args.push(a);
        match self.rst {
            Some(v) => {
            let mut a: Vec<char> = Vec::new();
            push_decimal(&mut a, v.value() as u128);
            args.push(a);
            },
            None => {},
        }
        proof {
            assert(args@.map_values(|a: Vec<char>| a@) =~= self.spec_args());
        }
        at_line("+CFUN", &args, true)
    }
}

impl GetModuleFunctionality {
    /// The arguments of the command, as they are written on the command line.
    pub open spec fn spec_args(&self) -> Seq<Seq<char>> {
        Seq::empty()
    }

    /// The command line: `AT+CFUN?`.
    pub fn to_text(&self) -> (r: Vec<char>)
        ensures
            r@ == at_text("+CFUN?"@, self.spec_args(), true),
    {
        let mut args: Vec<Vec<char>> = Vec::new();
        proof {
            assert(args@.map_values(|a: Vec<char>| a@) =~= self.spec_args());
        }
        at_line("+CFUN?", &args, true)
    }
}

impl GetIndicatorControl {
    /// The arguments of the command, as they are written on the command line.
    pub open spec fn spec_args(&self) -> Seq<Seq<char>> {
        Seq::empty()
    }

    /// The command line: `AT+CIND?`.
    pub fn to_text(&self) -> (r: Vec<char>)
        ensures
            r@ == at_text("+CIND?"@, self.spec_args(), true),
    {
        let mut args: Vec<Vec<char>> = Vec::new();
        proof {
            assert(args@.map_values(|a: Vec<char>| a@) =~= self.spec_args());
        }
        at_line("+CIND?", &args, true)
    }
}

impl<'a> SetClock<'a> {
    /// The arguments of the command, as they are written on the command line.
    pub open spec fn spec_args(&self) -> Seq<Seq<char>> {
        seq![quoted(self.time@)]
    }

    /// The command line: `AT+CCLK` with its arguments.
    pub fn to_text(&self) -> (r: Vec<char>)
        ensures
            r@ == at_text("+CCLK"@, self.spec_args(), true),
    {
        let mut args: Vec<Vec<char>> = Vec::new();
        let mut a: Vec<char> = Vec::new();
        push_quoted(&mut a, self.time);
        args.push(a);
        proof {
            assert(args@.map_values(|a: Vec<char>| a@) =~= self.spec_args());
        }
        at_line("+CCLK", &args, true)
    }
}

impl GetClock {
    /// The arguments of the command, as they are written on the command line.
    pub open spec fn spec_args(&self) -> Seq<Seq<char>> {
        Seq::empty()
    }

    /// The command line: `AT+CCLK?`.
    pub fn to_text(&self) -> (r: Vec<char>)
        ensures
            r@ == at_text("+CCLK?"@, self.spec_args(), true),
    {
        let mut args: Vec<Vec<char>> = Vec::new();
        proof {
            assert(args@.map_values(|a: Vec<char>| a@) =~= self.spec_args());
        }
        at_line("+CCLK?", &args, true)
    }
}

impl SetAutomaticTimezoneUpdate {
    /// The arguments of the command, as they are written on the command line.
    pub open spec fn spec_args(&self) -> Seq<Seq<char>> {
        seq![decimal_text(self.on_off.spec_value() as nat)]
    }

    /// The command line: `AT+CTZU` with its arguments.
    pub fn to_text(&self) -> (r: Vec<char>)
        ensures
            r@ == at_text("+CTZU"@, self.spec_args(), true),
    {
        let mut args: Vec<Vec<char>> = Vec::new();
        let mut a: Vec<char> = Vec::new();
        push_decimal(&mut a, self.on_off.value() as u128);
        args.push(a);
        proof {
            assert(args@.map_values(|a: Vec<char>| a@) =~= self.spec_args());
        }
        at_line("+CTZU", &args, true)
    }
}

impl SetReportMobileTerminationError {
    /// The arguments of the command, as they are written on the command line.
    pub open spec fn spec_args(&self) -> Seq<Seq<char>> {
        seq![decimal_text(self.n.spec_value() as nat)]
    }

    /// The command line: `AT+CMEE` with its arguments.
    pub fn to_text(&self) -> (r: Vec<char>)
        ensures
            r@ == at_text("+CMEE"@, self.spec_args(), true),
    {
        let mut args: Vec<Vec<char>> = Vec::new();
        let mut a: Vec<char> = Vec::new();
        push_decimal(&mut a, self.n.value() as u128);
        args.push(a);
        proof {
            assert(args@.map_values(|a: Vec<char>| a@) =~= self.spec_args());
        }
        at_line("+CMEE", &args, true)
    }
}

impl GetReportMobileTerminationError {
    /// The arguments of the command, as they are written on the command line.
    pub open spec fn spec_args(&self) -> Seq<Seq<char>> {
        Seq::empty()
    }

    /// The command line: `AT+CMEE?`.
    pub fn to_text(&self) -> (r: Vec<char>)
        ensures
            r@ == at_text("+CMEE?"@, self.spec_args(), true),
    {
        let mut args: Vec<Vec<char>> = Vec::new();
        proof {
            assert(args@.map_values(|a: Vec<char>| a@) =~= self.spec_args());
        }
        at_line("+CMEE?", &args, true)
    }
}

/// UART power saving (`+UPSV`).
#[derive(Debug, Clone, Copy, PartialEq, Eq, Structural)]
pub enum PowerSavingMode {
    /// Power saving off.
    Disabled,
    /// Power saving after the `+UPSV` timeout.
    Enabled,
    /// Power saving while RTS is off.
    CtrlByRts,
    /// Power saving while DTR is off.
    CtrlByDtr,
}

impl PowerSavingMode {
    /// The number that stands for the value in a command or response.
    pub open spec fn spec_value(self) -> u8 {
        match self {
            PowerSavingMode::Disabled => 0,
            PowerSavingMode::Enabled => 1,
            PowerSavingMode::CtrlByRts => 2,
            PowerSavingMode::CtrlByDtr => 3,
        }
    }

    /// The value that the number `v` stands for, if any.
    pub open spec fn spec_from_value(v: u8) -> Option<PowerSavingMode> {
        if v == 0 {
            Some(PowerSavingMode::Disabled)
        } else if v == 1 {
            Some(PowerSavingMode::Enabled)
        } else if v == 2 {
            Some(PowerSavingMode::CtrlByRts)
        } else if v == 3 {
            Some(PowerSavingMode::CtrlByDtr)
        } else {
            None
        }
    }

    /// The number that stands for the value; the value is read back from it.
    pub fn value(&self) -> (r: u8)
        ensures
            r == self.spec_value(),
            Self::spec_from_value(r) == Some(*self),
    {
        match self {
            PowerSavingMode::Disabled => 0,
            PowerSavingMode::Enabled => 1,
            PowerSavingMode::CtrlByRts => 2,
            PowerSavingMode::CtrlByDtr => 3,
        }
    }

    /// The value that the number `v` stands for, if any; its number is `v`.
    pub fn from_value(v: u8) -> (r: Option<Self>)
        ensures
            r == Self::spec_from_value(v),
            r matches Some(e) ==> e.spec_value() == v,
    {
        if v == 0 {
            Some(PowerSavingMode::Disabled)
        } else if v == 1 {
            Some(PowerSavingMode::Enabled)
        } else if v == 2 {
            Some(PowerSavingMode::CtrlByRts)
        } else if v == 3 {
            Some(PowerSavingMode::CtrlByDtr)
        } else {
            None
        }
    }
}

/// Power saving control +UPSV
#[derive(Debug, Clone, Copy, PartialEq, Eq, Structural)]
pub struct SetPowerSavingControl {
    pub mode: PowerSavingMode,
    pub timeout: Option<u16>,
}

impl SetPowerSavingControl {
    /// The arguments of the command, as they are written on the command line (an absent trailing argument is left out).
    pub open spec fn spec_args(&self) -> Seq<Seq<char>> {
        seq![decimal_text(self.mode.spec_value() as nat)] + match self.timeout {
            Some(v) => seq![decimal_text(v as nat)],
            None => Seq::empty(),
        }
    }

    /// The command line: `AT+UPSV` with its arguments.
    pub fn to_text(&self) -> (r: Vec<char>)
        ensures
            r@ == at_text("+UPSV"@, self.spec_args(), true),
    {
        let mut args: Vec<Vec<char>> = Vec::new();
        let mut a: Vec<char> = Vec::new();
        push_decimal(&mut a, self.mode.value() as u128);
        args.push(a);
        match self.timeout {
            Some(v) => {
                let mut a: Vec<char> = Vec::new();
                push_decimal(&mut a, v as u128);
                args.push(a);
            },
            None => {},
        }
        proof {
            assert(args@.map_values(|a: Vec<char>| a@) =~= self.spec_args());
        }
        at_line("+UPSV", &args, true)
    }
}

} // verus!
