//! V24 control and V25ter: the serial interface of the module.

use super::at::{at_line, at_text, decimal_text, push_decimal};
use vstd::prelude::*;

verus! {

/// DTE-DCE flow control (`&K`).
#[derive(Debug, Clone, Copy, PartialEq, Eq, Structural)]
pub enum FlowControl {
    Disabled,
    RtsCts,
    XonXoff,
}

impl FlowControl {
    /// The number that stands for the value in a command or response.
    pub open spec fn spec_value(self) -> u8 {
        match self {
            FlowControl::Disabled => 0,
            FlowControl::RtsCts => 3,
            FlowControl::XonXoff => 4,
        }
    }

    /// The value that the number `v` stands for, if any.
    pub open spec fn spec_from_value(v: u8) -> Option<FlowControl> {
        if v == 0 {
            Some(FlowControl::Disabled)
        } else if v == 3 {
            Some(FlowControl::RtsCts)
        } else if v == 4 {
            Some(FlowControl::XonXoff)
        } else {
            None
        }
    }

    /// The number that stands for the value; the value is read back from it.
    pub fn value(&self) -> (r: u8)
        ensures
            r == self.spec_value(),
            Self::spec_from_value(r) == Some(*self),
    {
        match self {
            FlowControl::Disabled => 0,
            FlowControl::RtsCts => 3,
            FlowControl::XonXoff => 4,
        }
    }

    /// The value that the number `v` stands for, if any; its number is `v`.
    pub fn from_value(v: u8) -> (r: Option<Self>)
        ensures
            r == Self::spec_from_value(v),
            r matches Some(e) ==> e.spec_value() == v,
    {
        if v == 0 {
            Some(FlowControl::Disabled)
        } else if v == 3 {
            Some(FlowControl::RtsCts)
        } else if v == 4 {
            Some(FlowControl::XonXoff)
        } else {
            None
        }
    }
}

/// Software flow control (`+IFC`).
#[derive(Debug, Clone, Copy, PartialEq, Eq, Structural)]
pub enum SoftwareFlowControl {
    NoFlowControl,
    Circuit103_104,
    Circuit105_106,
}

impl SoftwareFlowControl {
    /// The number that stands for the value in a command or response.
    pub open spec fn spec_value(self) -> u8 {
        match self {
            SoftwareFlowControl::NoFlowControl => 0,
            SoftwareFlowControl::Circuit103_104 => 1,
            SoftwareFlowControl::Circuit105_106 => 3,
        }
    }

    /// The value that the number `v` stands for, if any.
    pub open spec fn spec_from_value(v: u8) -> Option<SoftwareFlowControl> {
        if v == 0 {
            Some(SoftwareFlowControl::NoFlowControl)
        } else if v == 1 {
            Some(SoftwareFlowControl::Circuit103_104)
        } else if v == 3 {
            Some(SoftwareFlowControl::Circuit105_106)
        } else {
            None
        }
    }

    /// The number that stands for the value; the value is read back from it.
    pub fn value(&self) -> (r: u8)
        ensures
            r == self.spec_value(),
            Self::spec_from_value(r) == Some(*self),
    {
        match self {
            SoftwareFlowControl::NoFlowControl => 0,
            SoftwareFlowControl::Circuit103_104 => 1,
            SoftwareFlowControl::Circuit105_106 => 3,
        }
    }

    /// The value that the number `v` stands for, if any; its number is `v`.
    pub fn from_value(v: u8) -> (r: Option<Self>)
        ensures
            r == Self::spec_from_value(v),
            r matches Some(e) ==> e.spec_value() == v,
    {
        if v == 0 {
            Some(SoftwareFlowControl::NoFlowControl)
        } else if v == 1 {
            Some(SoftwareFlowControl::Circuit103_104)
        } else if v == 3 {
            Some(SoftwareFlowControl::Circuit105_106)
        } else {
            None
        }
    }
}

/// Baud rate of the serial interface (`+IPR`); `B0` is automatic detection.
#[derive(Debug, Clone, Copy, PartialEq, Eq, Structural)]
pub enum BaudRate {
    B0,
    B1200,
    B2400,
    B4800,
    B9600,
    B19200,
    B38400,
    B57600,
    B115200,
    B230400,
    B460800,
    B921600,
    B3000000,
    B3250000,
    B6000000,
    B6500000,
}

impl BaudRate {
    /// The number that stands for the value in a command or response.
    pub open spec fn spec_value(self) -> u32 {
        match self {
            BaudRate::B0 => 0,
            BaudRate::B1200 => 1200,
            BaudRate::B2400 => 2400,
            BaudRate::B4800 => 4800,
            BaudRate::B9600 => 9600,
            BaudRate::B19200 => 19200,
            BaudRate::B38400 => 38400,
            BaudRate::B57600 => 57600,
            BaudRate::B115200 => 115200,
            BaudRate::B230400 => 230400,
            BaudRate::B460800 => 460800,
            BaudRate::B921600 => 921600,
            BaudRate::B3000000 => 3000000,
            BaudRate::B3250000 => 3250000,
            BaudRate::B6000000 => 6000000,
            BaudRate::B6500000 => 6500000,
        }
    }

    /// The value that the number `v` stands for, if any.
    pub open spec fn spec_from_value(v: u32) -> Option<BaudRate> {
        if v == 0 {
            Some(BaudRate::B0)
        } else if v == 1200 {
            Some(BaudRate::B1200)
        } else if v == 2400 {
            Some(BaudRate::B2400)
        } else if v == 4800 {
            Some(BaudRate::B4800)
        } else if v == 9600 {
            Some(BaudRate::B9600)
        } else if v == 19200 {
            Some(BaudRate::B19200)
        } else if v == 38400 {
            Some(BaudRate::B38400)
        } else if v == 57600 {
            Some(BaudRate::B57600)
        } else if v == 115200 {
            Some(BaudRate::B115200)
        } else if v == 230400 {
            Some(BaudRate::B230400)
        } else if v == 460800 {
            Some(BaudRate::B460800)
        } else if v == 921600 {
            Some(BaudRate::B921600)
        } else if v == 3000000 {
            Some(BaudRate::B3000000)
        } else if v == 3250000 {
            Some(BaudRate::B3250000)
        } else if v == 6000000 {
            Some(BaudRate::B6000000)
        } else if v == 6500000 {
            Some(BaudRate::B6500000)
        } else {
            None
        }
    }

    /// The number that stands for the value; the value is read back from it.
    pub fn value(&self) -> (r: u32)
        ensures
            r == self.spec_value(),
            Self::spec_from_value(r) == Some(*self),
    {
        match self {
            BaudRate::B0 => 0,
            BaudRate::B1200 => 1200,
            BaudRate::B2400 => 2400,
            BaudRate::B4800 => 4800,
            BaudRate::B9600 => 9600,
            BaudRate::B19200 => 19200,
            BaudRate::B38400 => 38400,
            BaudRate::B57600 => 57600,
            BaudRate::B115200 => 115200,
            BaudRate::B230400 => 230400,
            BaudRate::B460800 => 460800,
            BaudRate::B921600 => 921600,
            BaudRate::B3000000 => 3000000,
            BaudRate::B3250000 => 3250000,
            BaudRate::B6000000 => 6000000,
            BaudRate::B6500000 => 6500000,
        }
    }

    /// The value that the number `v` stands for, if any; its number is `v`.
    pub fn from_value(v: u32) -> (r: Option<Self>)
        ensures
            r == Self::spec_from_value(v),
            r matches Some(e) ==> e.spec_value() == v,
    {
        if v == 0 {
            Some(BaudRate::B0)
        } else if v == 1200 {
            Some(BaudRate::B1200)
        } else if v == 2400 {
            Some(BaudRate::B2400)
        } else if v == 4800 {
            Some(BaudRate::B4800)
        } else if v == 9600 {
            Some(BaudRate::B9600)
        } else if v == 19200 {
            Some(BaudRate::B19200)
        } else if v == 38400 {
            Some(BaudRate::B38400)
        } else if v == 57600 {
            Some(BaudRate::B57600)
        } else if v == 115200 {
            Some(BaudRate::B115200)
        } else if v == 230400 {
            Some(BaudRate::B230400)
        } else if v == 460800 {
            Some(BaudRate::B460800)
        } else if v == 921600 {
            Some(BaudRate::B921600)
        } else if v == 3000000 {
            Some(BaudRate::B3000000)
        } else if v == 3250000 {
            Some(BaudRate::B3250000)
        } else if v == 6000000 {
            Some(BaudRate::B6000000)
        } else if v == 6500000 {
            Some(BaudRate::B6500000)
        } else {
            None
        }
    }
}

/// The baud rate of the serial interface (`+IPR?`).
#[derive(Debug, Clone, Copy, PartialEq, Eq, Structural)]
pub struct DataRate {
    pub data_rate: u32,
}

/// How the module treats the DTR circuit 108 (`&D`).
#[derive(Debug, Clone, Copy, PartialEq, Eq, Structural)]
pub enum Circuit108Behaviour {
    /// The DTR line is ignored.
    Ignore,
    /// An on-to-off change of DTR enters command mode.
    EnterCommandMode,
    /// An on-to-off change of DTR clears the data call.
    DisconnectDataCall,
}

impl Circuit108Behaviour {
    /// The number that stands for the value in a command or response.
    pub open spec fn spec_value(self) -> u8 {
        match self {
            Circuit108Behaviour::Ignore => 0,
            Circuit108Behaviour::EnterCommandMode => 1,
            Circuit108Behaviour::DisconnectDataCall => 2,
        }
    }

    /// The value that the number `v` stands for, if any.
    pub open spec fn spec_from_value(v: u8) -> Option<Circuit108Behaviour> {
        if v == 0 {
            Some(Circuit108Behaviour::Ignore)
        } else if v == 1 {
            Some(Circuit108Behaviour::EnterCommandMode)
        } else if v == 2 {
            Some(Circuit108Behaviour::DisconnectDataCall)
        } else {
            None
        }
    }

    /// The number that stands for the value; the value is read back from it.
    pub fn value(&self) -> (r: u8)
        ensures
            r == self.spec_value(),
            Self::spec_from_value(r) == Some(*self),
    {
        match self {
            Circuit108Behaviour::Ignore => 0,
            Circuit108Behaviour::EnterCommandMode => 1,
            Circuit108Behaviour::DisconnectDataCall => 2,
        }
    }

    /// The value that the number `v` stands for, if any; its number is `v`.
    pub fn from_value(v: u8) -> (r: Option<Self>)
        ensures
            r == Self::spec_from_value(v),
            r matches Some(e) ==> e.spec_value() == v,
    {
        if v == 0 {
            Some(Circuit108Behaviour::Ignore)
        } else if v == 1 {
            Some(Circuit108Behaviour::EnterCommandMode)
        } else if v == 2 {
            Some(Circuit108Behaviour::DisconnectDataCall)
        } else {
            None
        }
    }
}

/// How the module drives the DCD circuit 109 (`&C`).
#[derive(Debug, Clone, Copy, PartialEq, Eq, Structural)]
pub enum Circuit109Behaviour {
    /// DCD is always on.
    AlwaysPresent,
    /// DCD follows the carrier.
    ChangesWithCarrier,
}

impl Circuit109Behaviour {
    /// The number that stands for the value in a command or response.
    pub open spec fn spec_value(self) -> u8 {
        match self {
            Circuit109Behaviour::AlwaysPresent => 0,
            Circuit109Behaviour::ChangesWithCarrier => 1,
        }
    }

    /// The value that the number `v` stands for, if any.
    pub open spec fn spec_from_value(v: u8) -> Option<Circuit109Behaviour> {
        if v == 0 {
            Some(Circuit109Behaviour::AlwaysPresent)
        } else if v == 1 {
            Some(Circuit109Behaviour::ChangesWithCarrier)
        } else {
            None
        }
    }

    /// The number that stands for the value; the value is read back from it.
    pub fn value(&self) -> (r: u8)
        ensures
            r == self.spec_value(),
            Self::spec_from_value(r) == Some(*self),
    {
        match self {
            Circuit109Behaviour::AlwaysPresent => 0,
            Circuit109Behaviour::ChangesWithCarrier => 1,
        }
    }

    /// The value that the number `v` stands for, if any; its number is `v`.
    pub fn from_value(v: u8) -> (r: Option<Self>)
        ensures
            r == Self::spec_from_value(v),
            r matches Some(e) ==> e.spec_value() == v,
    {
        if v == 0 {
            Some(Circuit109Behaviour::AlwaysPresent)
        } else if v == 1 {
            Some(Circuit109Behaviour::ChangesWithCarrier)
        } else {
            None
        }
    }
}

/// Circuit 108 behaviour &D
#[derive(Debug, Clone, Copy, PartialEq, Eq, Structural)]
pub struct SetCircuit108Behaviour {
    pub value: Circuit108Behaviour,
}

impl SetCircuit108Behaviour {
    /// The arguments of the command, as they are written on the command line.
    pub open spec fn spec_args(&self) -> Seq<Seq<char>> {
        seq![decimal_text(self.value.spec_value() as nat)]
    }

    /// The command line: `AT&D` with its arguments.
    pub fn to_text(&self) -> (r: Vec<char>)
        ensures
            r@ == at_text("&D"@, self.spec_args(), false),
    {
        let mut args: Vec<Vec<char>> = Vec::new();
        let mut a: Vec<char> = Vec::new();
        push_decimal(&mut a, self.value.value() as u128);
        args.push(a);
        proof {
            assert(args@.map_values(|a: Vec<char>| a@) =~= self.spec_args());
        }
        at_line("&D", &args, false)
    }
}

/// Circuit 109 behaviour &C
#[derive(Debug, Clone, Copy, PartialEq, Eq, Structural)]
pub struct SetCircuit109Behaviour {
    pub value: Circuit109Behaviour,
}

impl SetCircuit109Behaviour {
    /// The arguments of the command, as they are written on the command line.
    pub open spec fn spec_args(&self) -> Seq<Seq<char>> {
        seq![decimal_text(self.value.spec_value() as nat)]
    }

    /// The command line: `AT&C` with its arguments.
    pub fn to_text(&self) -> (r: Vec<char>)
        ensures
            r@ == at_text("&C"@, self.spec_args(), false),
    {
        let mut args: Vec<Vec<char>> = Vec::new();
        let mut a: Vec<char> = Vec::new();
        push_decimal(&mut a, self.value.value() as u128);
        args.push(a);
        proof {
            assert(args@.map_values(|a: Vec<char>| a@) =~= self.spec_args());
        }
        at_line("&C", &args, false)
    }
}

/// DTE-DCE flow control &K
#[derive(Debug, Clone, Copy, PartialEq, Eq, Structural)]
pub struct SetFlowControl {
    pub value: FlowControl,
}

impl SetFlowControl {
    /// The arguments of the command, as they are written on the command line.
    pub open spec fn spec_args(&self) -> Seq<Seq<char>> {
        seq![decimal_text(self.value.spec_value() as nat)]
    }

    /// The command line: `AT&K` with its arguments.
    pub fn to_text(&self) -> (r: Vec<char>)
        ensures
            r@ == at_text("&K"@, self.spec_args(), false),
    {
        let mut args: Vec<Vec<char>> = Vec::new();
        let mut a: Vec<char> = Vec::new();
        push_decimal(&mut a, self.value.value() as u128);
        args.push(a);
        proof {
            assert(args@.map_values(|a: Vec<char>| a@) =~= self.spec_args());
        }
        at_line("&K", &args, false)
    }
}

} // verus!
