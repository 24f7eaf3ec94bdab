//! General commands: identification of the module and the SIM.

use super::at::{at_line, at_text, decimal_text, push_decimal};
use super::{first_field, first_field_bytes};
use crate::text::{chars_of_bytes, decimal_at_most, latin1, parse_decimal_wide, trim_ascii, trimmed_ascii};
use vstd::prelude::*;

verus! {

/// 4.1 Manufacturer identification +CGMI
#[derive(Debug, Clone, Copy, PartialEq, Eq, Structural)]
pub struct GetManufacturerId;

/// 4.7 IMEI identification +CGSN
#[derive(Debug, Clone, Copy, PartialEq, Eq, Structural)]
pub struct GetIMEI {
    pub snt: Option<u8>,
}

/// 4.11 Identification information I
#[derive(Debug, Clone, Copy, PartialEq, Eq, Structural)]
pub struct IdentificationInformation {
    pub n: u8,
}

/// 4.12 Card identification +CCID
#[derive(Debug, Clone, Copy, PartialEq, Eq, Structural)]
pub struct GetCCID;

/// The IMEI of the module.
#[derive(Debug, Clone, Copy, PartialEq, Eq, Structural)]
pub struct IMEI {
    pub imei: u64,
}

/// The IMSI of the SIM.
#[derive(Debug, Clone, Copy, PartialEq, Eq, Structural)]
pub struct CIMI {
    pub imsi: u64,
}

/// The ICCID of the SIM.
#[derive(Debug, Clone, Copy, PartialEq, Eq, Structural)]
pub struct CCID {
    pub ccid: u128,
}

impl GetManufacturerId {
    /// The arguments of the command, as they are written on the command line.
    pub open spec fn spec_args(&self) -> Seq<Seq<char>> {
        Seq::empty()
    }

    /// The command line: `AT+CGMI`.
    pub fn to_text(&self) -> (r: Vec<char>)
        ensures
            r@ == at_text("+CGMI"@, self.spec_args(), true),
    {
        let mut args: Vec<Vec<char>> = Vec::new();
        proof {
            assert(args@.map_values(|a: Vec<char>| a@) =~= self.spec_args());
        }
        at_line("+CGMI", &args, true)
    }
}

impl GetIMEI {
    /// The arguments of the command, as they are written on the command line (an absent trailing argument is left out).
    pub open spec fn spec_args(&self) -> Seq<Seq<char>> {
        Seq::empty() + match self.snt {
            Some(v) => seq![decimal_text(v as nat)],
            None => Seq::empty(),
        }
    }

    /// The command line: `AT+CGSN` with its arguments.
    pub fn to_text(&self) -> (r: Vec<char>)
        ensures
            r@ == at_text("+CGSN"@, self.spec_args(), true),
    {
        let mut args: Vec<Vec<char>> = Vec::new();
        match self.snt {
            Some(v) => {
            let mut a: Vec<char> = Vec::new();
            push_decimal(&mut a, v as u128);
            args.push(a);
            },
            None => {},
        }
        proof {
            assert(args@.map_values(|a: Vec<char>| a@) =~= self.spec_args());
        }
        at_line("+CGSN", &args, true)
    }
}

impl IdentificationInformation {
    /// The arguments of the command, as they are written on the command line.
    pub open spec fn spec_args(&self) -> Seq<Seq<char>> {
        seq![decimal_text(self.n as nat)]
    }

    /// The command line: `ATI` with its arguments.
    pub fn to_text(&self) -> (r: Vec<char>)
        ensures
            r@ == at_text("I"@, self.spec_args(), false),
    {
        let mut args: Vec<Vec<char>> = Vec::new();
        let mut a: Vec<char> = Vec::new();
        push_decimal(&mut a, self.n as u128);
        args.push(a);
        proof {
            assert(args@.map_values(|a: Vec<char>| a@) =~= self.spec_args());
        }
        at_line("I", &args, false)
    }
}

impl GetCCID {
    /// The arguments of the command, as they are written on the command line.
    pub open spec fn spec_args(&self) -> Seq<Seq<char>> {
        Seq::empty()
    }

    /// The command line: `AT+CCID`.
    pub fn to_text(&self) -> (r: Vec<char>)
        ensures
            r@ == at_text("+CCID"@, self.spec_args(), true),
    {
        let mut args: Vec<Vec<char>> = Vec::new();
        proof {
            assert(args@.map_values(|a: Vec<char>| a@) =~= self.spec_args());
        }
        at_line("+CCID", &args, true)
    }
}

/// 4.3 Model identification +CGMM
#[derive(Debug, Clone, Copy, PartialEq, Eq, Structural)]
pub struct GetModelId;

/// 4.5 Firmware version identification +CGMR
#[derive(Debug, Clone, Copy, PartialEq, Eq, Structural)]
pub struct GetFirmwareVersion;

impl GetModelId {
    /// The arguments of the command, as they are written on the command line.
    pub open spec fn spec_args(&self) -> Seq<Seq<char>> {
        Seq::empty()
    }

    /// The command line: `AT+CGMM`.
    pub fn to_text(&self) -> (r: Vec<char>)
        ensures
            r@ == at_text("+CGMM"@, self.spec_args(), true),
    {
        let mut args: Vec<Vec<char>> = Vec::new();
        proof {
            assert(args@.map_values(|a: Vec<char>| a@) =~= self.spec_args());
        }
        at_line("+CGMM", &args, true)
    }
}

impl GetFirmwareVersion {
    /// The arguments of the command, as they are written on the command line.
    pub open spec fn spec_args(&self) -> Seq<Seq<char>> {
        Seq::empty()
    }

    /// The command line: `AT+CGMR`.
    pub fn to_text(&self) -> (r: Vec<char>)
        ensures
            r@ == at_text("+CGMR"@, self.spec_args(), true),
    {
        let mut args: Vec<Vec<char>> = Vec::new();
        proof {
            assert(args@.map_values(|a: Vec<char>| a@) =~= self.spec_args());
        }
        at_line("+CGMR", &args, true)
    }
}

/// 4.1 The manufacturer, as `+CGMI` answers it: at most 10 bytes.
#[derive(Debug, Clone, PartialEq, Eq)]
pub struct ManufacturerId {
    pub manufacturer: Vec<u8>,
}

/// 4.3 The model, as `+CGMM` answers it: at most 16 bytes.
#[derive(Debug, Clone, PartialEq, Eq)]
pub struct ModelId {
    pub model: Vec<u8>,
}

/// 4.5 The firmware version, as `+CGMR` answers it: at most 10 bytes.
#[derive(Debug, Clone, PartialEq, Eq)]
pub struct FirmwareVersion {
    pub version: Vec<u8>,
}

/// 4.9 Module information, as `I` answers it: at most 32 bytes.
#[derive(Debug, Clone, PartialEq, Eq)]
pub struct IdentificationInformationResponse {
    pub app_ver: Vec<u8>,
}

/// The bytes of the first field of the answer `resp`, when there are at most `cap` of them.
fn text_answer(resp: &[u8], cap: usize) -> (r: Option<Vec<u8>>)
    ensures
        first_field(resp@).len() <= cap ==> (r matches Some(b) && latin1(b@) == first_field(resp@)),
        first_field(resp@).len() > cap ==> r is None,
{
    let b = first_field_bytes(resp);
    if b.len() <= cap {
        Some(b)
    } else {
        None
    }
}

impl ManufacturerId {
    /// The manufacturer that the answer `resp` names: the first field of its
    /// value part, when it has at most 10 bytes.
    pub fn parse(resp: &[u8]) -> (r: Option<Self>)
        ensures
            first_field(resp@).len() <= 10 ==> (r matches Some(m) && latin1(m.manufacturer@) == first_field(resp@)),
            first_field(resp@).len() > 10 ==> r is None,
    {
        match text_answer(resp, 10) {
            Some(b) => Some(ManufacturerId { manufacturer: b }),
            None => None,
        }
    }
}

impl ModelId {
    /// The model that the answer `resp` names: the first field of its value
    /// part, when it has at most 16 bytes.
    pub fn parse(resp: &[u8]) -> (r: Option<Self>)
        ensures
            first_field(resp@).len() <= 16 ==> (r matches Some(m) && latin1(m.model@) == first_field(resp@)),
            first_field(resp@).len() > 16 ==> r is None,
    {
        match text_answer(resp, 16) {
            Some(b) => Some(ModelId { model: b }),
            None => None,
        }
    }
}

impl FirmwareVersion {
    /// The firmware version that the answer `resp` names: the first field of
    /// its value part, when it has at most 10 bytes.
    pub fn parse(resp: &[u8]) -> (r: Option<Self>)
        ensures
            first_field(resp@).len() <= 10 ==> (r matches Some(m) && latin1(m.version@) == first_field(resp@)),
            first_field(resp@).len() > 10 ==> r is None,
    {
        match text_answer(resp, 10) {
            Some(b) => Some(FirmwareVersion { version: b }),
            None => None,
        }
    }
}

impl IdentificationInformationResponse {
    /// The module information in the answer `resp`: the first field of its
    /// value part, when it has at most 32 bytes.
    pub fn parse(resp: &[u8]) -> (r: Option<Self>)
        ensures
            first_field(resp@).len() <= 32 ==> (r matches Some(m) && latin1(m.app_ver@) == first_field(resp@)),
            first_field(resp@).len() > 32 ==> r is None,
    {
        match text_answer(resp, 32) {
            Some(b) => Some(IdentificationInformationResponse { app_ver: b }),
            None => None,
        }
    }
}

/// The number that the answer `resp` holds: its first field, without
/// surrounding white space, as a decimal number of at most `max`.
pub open spec fn number_answer(resp: Seq<u8>, max: nat) -> Option<nat> {
    decimal_at_most(trim_ascii(first_field(resp)), max)
}

fn read_number_answer(resp: &[u8], max: u128) -> (r: Option<u128>)
    ensures
        match number_answer(resp@, max as nat) {
            Some(v) => r == Some(v as u128),
            None => r is None,
        },
{
    let b = first_field_bytes(resp);
    let c = chars_of_bytes(b.as_slice());
    let t = trimmed_ascii(c.as_slice());
    parse_decimal_wide(t.as_slice(), max)
}

impl IMEI {
    /// The IMEI in the answer `resp` to `+CGSN`, if it holds one (see [number_answer]).
    pub fn parse(resp: &[u8]) -> (r: Option<Self>)
        ensures
            match number_answer(resp@, u64::MAX as nat) {
                Some(v) => r == Some(IMEI { imei: v as u64 }),
                None => r is None,
            },
    {
        match read_number_answer(resp, u64::MAX as u128) {
            Some(v) => Some(IMEI { imei: v as u64 }),
            None => None,
        }
    }
}

impl CIMI {
    /// The IMSI in the answer `resp` to `+CIMI`, if it holds one (see [number_answer]).
    pub fn parse(resp: &[u8]) -> (r: Option<Self>)
        ensures
            match number_answer(resp@, u64::MAX as nat) {
                Some(v) => r == Some(CIMI { imsi: v as u64 }),
                None => r is None,
            },
    {
        match read_number_answer(resp, u64::MAX as u128) {
            Some(v) => Some(CIMI { imsi: v as u64 }),
            None => None,
        }
    }
}

impl CCID {
    /// The ICCID in the answer `resp` to `+CCID`, if it holds one (see [number_answer]).
    pub fn parse(resp: &[u8]) -> (r: Option<Self>)
        ensures
            match number_answer(resp@, u128::MAX as nat) {
                Some(v) => r == Some(CCID { ccid: v as u128 }),
                None => r is None,
            },
    {
        match read_number_answer(resp, u128::MAX) {
            Some(v) => Some(CCID { ccid: v }),
            None => None,
        }
    }
}

} // verus!
