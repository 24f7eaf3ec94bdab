//! GPIO configuration of the module.

use super::at::{at_line, at_text, decimal_text, push_decimal};
use vstd::prelude::*;

verus! {

/// Output value of a GPIO.
#[derive(Debug, Clone, Copy, PartialEq, Eq, Structural)]
pub enum GpioOutValue {
    Low,
    High,
}

impl GpioOutValue {
    /// The number that stands for the value in a command or response.
    pub open spec fn spec_value(self) -> u8 {
        match self {
            GpioOutValue::Low => 0,
            GpioOutValue::High => 1,
        }
    }

    /// The value that the number `v` stands for, if any.
    pub open spec fn spec_from_value(v: u8) -> Option<GpioOutValue> {
        if v == 0 {
            Some(GpioOutValue::Low)
        } else if v == 1 {
            Some(GpioOutValue::High)
        } else {
            None
        }
    }

    /// The number that stands for the value; the value is read back from it.
    pub fn value(&self) -> (r: u8)
        ensures
            r == self.spec_value(),
            Self::spec_from_value(r) == Some(*self),
    {
        match self {
            GpioOutValue::Low => 0,
            GpioOutValue::High => 1,
        }
    }

    /// The value that the number `v` stands for, if any; its number is `v`.
    pub fn from_value(v: u8) -> (r: Option<Self>)
        ensures
            r == Self::spec_from_value(v),
            r matches Some(e) ==> e.spec_value() == v,
    {
        if v == 0 {
            Some(GpioOutValue::Low)
        } else if v == 1 {
            Some(GpioOutValue::High)
        } else {
            None
        }
    }
}

/// Pull mode of a GPIO input.
#[derive(Debug, Clone, Copy, PartialEq, Eq, Structural)]
pub enum GpioInPull {
    NoPull,
    PullUp,
    PullDown,
}

impl GpioInPull {
    /// The number that stands for the value in a command or response.
    pub open spec fn spec_value(self) -> u8 {
        match self {
            GpioInPull::NoPull => 0,
            GpioInPull::PullUp => 1,
            GpioInPull::PullDown => 2,
        }
    }

    /// The value that the number `v` stands for, if any.
    pub open spec fn spec_from_value(v: u8) -> Option<GpioInPull> {
        if v == 0 {
            Some(GpioInPull::NoPull)
        } else if v == 1 {
            Some(GpioInPull::PullUp)
        } else if v == 2 {
            Some(GpioInPull::PullDown)
        } else {
            None
        }
    }

    /// The number that stands for the value; the value is read back from it.
    pub fn value(&self) -> (r: u8)
        ensures
            r == self.spec_value(),
            Self::spec_from_value(r) == Some(*self),
    {
        match self {
            GpioInPull::NoPull => 0,
            GpioInPull::PullUp => 1,
            GpioInPull::PullDown => 2,
        }
    }

    /// The value that the number `v` stands for, if any; its number is `v`.
    pub fn from_value(v: u8) -> (r: Option<Self>)
        ensures
            r == Self::spec_from_value(v),
            r matches Some(e) ==> e.spec_value() == v,
    {
        if v == 0 {
            Some(GpioInPull::NoPull)
        } else if v == 1 {
            Some(GpioInPull::PullUp)
        } else if v == 2 {
            Some(GpioInPull::PullDown)
        } else {
            None
        }
    }
}

/// The function of a GPIO pin (`+UGPIOC`).
#[derive(Debug, Clone, Copy, PartialEq, Eq, Structural)]
pub enum GpioMode {
    Output,
    Input,
    NetworkStatus,
    ExternalGnssSupplyEnable,
    ExternalGnssDataReady,
    ExternalGnssRtcSharing,
    JammingDetection,
    SimDetection,
    HeadsetDetection,
    GsmTxIndication,
    ModuleOperatingStatus,
    ModuleFunctionalityStatus,
    I2SDigitalAudio,
    SpiSerial,
    MasterClockGeneration,
    Uart,
    WifiEnable,
    RingIndication,
    LastGaspEnable,
    ExternalGnssAntenna,
    TimePulseGnss,
    TimePulseModem,
    TimestampExternalInterrupt,
    FastPoweroff,
    Lwm2mPulse,
    HardwareFlowControl,
    ClockOutput,
    PadDisabled,
}

impl GpioMode {
    /// The number that stands for the value in a command or response.
    pub open spec fn spec_value(self) -> u8 {
        match self {
            GpioMode::Output => 0,
            GpioMode::Input => 1,
            GpioMode::NetworkStatus => 2,
            GpioMode::ExternalGnssSupplyEnable => 3,
            GpioMode::ExternalGnssDataReady => 4,
            GpioMode::ExternalGnssRtcSharing => 5,
            GpioMode::JammingDetection => 6,
            GpioMode::SimDetection => 7,
            GpioMode::HeadsetDetection => 8,
            GpioMode::GsmTxIndication => 9,
            GpioMode::ModuleOperatingStatus => 10,
            GpioMode::ModuleFunctionalityStatus => 11,
            GpioMode::I2SDigitalAudio => 12,
            GpioMode::SpiSerial => 13,
            GpioMode::MasterClockGeneration => 14,
            GpioMode::Uart => 15,
            GpioMode::WifiEnable => 16,
            GpioMode::RingIndication => 18,
            GpioMode::LastGaspEnable => 19,
            GpioMode::ExternalGnssAntenna => 20,
            GpioMode::TimePulseGnss => 21,
            GpioMode::TimePulseModem => 22,
            GpioMode::TimestampExternalInterrupt => 23,
            GpioMode::FastPoweroff => 24,
            GpioMode::Lwm2mPulse => 25,
            GpioMode::HardwareFlowControl => 26,
            GpioMode::ClockOutput => 32,
            GpioMode::PadDisabled => 255,
        }
    }

    /// The value that the number `v` stands for, if any.
    pub open spec fn spec_from_value(v: u8) -> Option<GpioMode> {
        if v == 0 {
            Some(GpioMode::Output)
        } else if v == 1 {
            Some(GpioMode::Input)
        } else if v == 2 {
            Some(GpioMode::NetworkStatus)
        } else if v == 3 {
            Some(GpioMode::ExternalGnssSupplyEnable)
        } else if v == 4 {
            Some(GpioMode::ExternalGnssDataReady)
        } else if v == 5 {
            Some(GpioMode::ExternalGnssRtcSharing)
        } else if v == 6 {
            Some(GpioMode::JammingDetection)
        } else if v == 7 {
            Some(GpioMode::SimDetection)
        } else if v == 8 {
            Some(GpioMode::HeadsetDetection)
        } else if v == 9 {
            Some(GpioMode::GsmTxIndication)
        } else if v == 10 {
            Some(GpioMode::ModuleOperatingStatus)
        } else if v == 11 {
            Some(GpioMode::ModuleFunctionalityStatus)
        } else if v == 12 {
            Some(GpioMode::I2SDigitalAudio)
        } else if v == 13 {
            Some(GpioMode::SpiSerial)
        } else if v == 14 {
            Some(GpioMode::MasterClockGeneration)
        } else if v == 15 {
            Some(GpioMode::Uart)
        } else if v == 16 {
            Some(GpioMode::WifiEnable)
        } else if v == 18 {
            Some(GpioMode::RingIndication)
        } else if v == 19 {
            Some(GpioMode::LastGaspEnable)
        } else if v == 20 {
            Some(GpioMode::ExternalGnssAntenna)
        } else if v == 21 {
            Some(GpioMode::TimePulseGnss)
        } else if v == 22 {
            Some(GpioMode::TimePulseModem)
        } else if v == 23 {
            Some(GpioMode::TimestampExternalInterrupt)
        } else if v == 24 {
            Some(GpioMode::FastPoweroff)
        } else if v == 25 {
            Some(GpioMode::Lwm2mPulse)
        } else if v == 26 {
            Some(GpioMode::HardwareFlowControl)
        } else if v == 32 {
            Some(GpioMode::ClockOutput)
        } else if v == 255 {
            Some(GpioMode::PadDisabled)
        } else {
            None
        }
    }

    /// The number that stands for the value; the value is read back from it.
    pub fn value(&self) -> (r: u8)
        ensures
            r == self.spec_value(),
            Self::spec_from_value(r) == Some(*self),
    {
        match self {
            GpioMode::Output => 0,
            GpioMode::Input => 1,
            GpioMode::NetworkStatus => 2,
            GpioMode::ExternalGnssSupplyEnable => 3,
            GpioMode::ExternalGnssDataReady => 4,
            GpioMode::ExternalGnssRtcSharing => 5,
            GpioMode::JammingDetection => 6,
            GpioMode::SimDetection => 7,
            GpioMode::HeadsetDetection => 8,
            GpioMode::GsmTxIndication => 9,
            GpioMode::ModuleOperatingStatus => 10,
            GpioMode::ModuleFunctionalityStatus => 11,
            GpioMode::I2SDigitalAudio => 12,
            GpioMode::SpiSerial => 13,
            GpioMode::MasterClockGeneration => 14,
            GpioMode::Uart => 15,
            GpioMode::WifiEnable => 16,
            GpioMode::RingIndication => 18,
            GpioMode::LastGaspEnable => 19,
            GpioMode::ExternalGnssAntenna => 20,
            GpioMode::TimePulseGnss => 21,
            GpioMode::TimePulseModem => 22,
            GpioMode::TimestampExternalInterrupt => 23,
            GpioMode::FastPoweroff => 24,
            GpioMode::Lwm2mPulse => 25,
            GpioMode::HardwareFlowControl => 26,
            GpioMode::ClockOutput => 32,
            GpioMode::PadDisabled => 255,
        }
    }

    /// The value that the number `v` stands for, if any; its number is `v`.
    pub fn from_value(v: u8) -> (r: Option<Self>)
        ensures
            r == Self::spec_from_value(v),
            r matches Some(e) ==> e.spec_value() == v,
    {
        if v == 0 {
            Some(GpioMode::Output)
        } else if v == 1 {
            Some(GpioMode::Input)
        } else if v == 2 {
            Some(GpioMode::NetworkStatus)
        } else if v == 3 {
            Some(GpioMode::ExternalGnssSupplyEnable)
        } else if v == 4 {
            Some(GpioMode::ExternalGnssDataReady)
        } else if v == 5 {
            Some(GpioMode::ExternalGnssRtcSharing)
        } else if v == 6 {
            Some(GpioMode::JammingDetection)
        } else if v == 7 {
            Some(GpioMode::SimDetection)
        } else if v == 8 {
            Some(GpioMode::HeadsetDetection)
        } else if v == 9 {
            Some(GpioMode::GsmTxIndication)
        } else if v == 10 {
            Some(GpioMode::ModuleOperatingStatus)
        } else if v == 11 {
            Some(GpioMode::ModuleFunctionalityStatus)
        } else if v == 12 {
            Some(GpioMode::I2SDigitalAudio)
        } else if v == 13 {
            Some(GpioMode::SpiSerial)
        } else if v == 14 {
            Some(GpioMode::MasterClockGeneration)
        } else if v == 15 {
            Some(GpioMode::Uart)
        } else if v == 16 {
            Some(GpioMode::WifiEnable)
        } else if v == 18 {
            Some(GpioMode::RingIndication)
        } else if v == 19 {
            Some(GpioMode::LastGaspEnable)
        } else if v == 20 {
            Some(GpioMode::ExternalGnssAntenna)
        } else if v == 21 {
            Some(GpioMode::TimePulseGnss)
        } else if v == 22 {
            Some(GpioMode::TimePulseModem)
        } else if v == 23 {
            Some(GpioMode::TimestampExternalInterrupt)
        } else if v == 24 {
            Some(GpioMode::FastPoweroff)
        } else if v == 25 {
            Some(GpioMode::Lwm2mPulse)
        } else if v == 26 {
            Some(GpioMode::HardwareFlowControl)
        } else if v == 32 {
            Some(GpioMode::ClockOutput)
        } else if v == 255 {
            Some(GpioMode::PadDisabled)
        } else {
            None
        }
    }
}

/// 19.1 GPIO select configuration command +UGPIOC
#[derive(Debug, Clone, Copy, PartialEq, Eq, Structural)]
pub struct SetGpioConfiguration {
    pub gpio_id: u8,
    pub gpio_mode: GpioMode,
}

/// 19.1 Read the GPIO configuration +UGPIOC?
#[derive(Debug, Clone, Copy, PartialEq, Eq, Structural)]
pub struct GetGpioConfiguration;

impl SetGpioConfiguration {
    /// The arguments of the command, as they are written on the command line.
    pub open spec fn spec_args(&self) -> Seq<Seq<char>> {
        seq![decimal_text(self.gpio_id as nat), decimal_text(self.gpio_mode.spec_value() as nat)]
    }

    /// The command line: `AT+UGPIOC` with its arguments.
    pub fn to_text(&self) -> (r: Vec<char>)
        ensures
            r@ == at_text("+UGPIOC"@, self.spec_args(), true),
    {
        let mut args: Vec<Vec<char>> = Vec::new();
        let mut a: Vec<char> = Vec::new();
        push_decimal(&mut a, self.gpio_id as u128);
        args.push(a);
        let mut a: Vec<char> = Vec::new();
        push_decimal(&mut a, self.gpio_mode.value() as u128);
        args.push(a);
        proof {
            assert(args@.map_values(|a: Vec<char>| a@) =~= self.spec_args());
        }
        at_line("+UGPIOC", &args, true)
    }
}

impl GetGpioConfiguration {
    /// The arguments of the command, as they are written on the command line.
    pub open spec fn spec_args(&self) -> Seq<Seq<char>> {
        Seq::empty()
    }

    /// The command line: `AT+UGPIOC?`.
    pub fn to_text(&self) -> (r: Vec<char>)
        ensures
            r@ == at_text("+UGPIOC?"@, self.spec_args(), true),
    {
        let mut args: Vec<Vec<char>> = Vec::new();
        proof {
            assert(args@.map_values(|a: Vec<char>| a@) =~= self.spec_args());
        }
        at_line("+UGPIOC?", &args, true)
    }
}

} // verus!
