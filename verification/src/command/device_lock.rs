//! Device lock: the SIM PIN state.

use crate::text::{chars_of_bytes, latin1, spells};
use super::{at_body, body_of, lemma_at_body_of_named_value};
use super::at::{at_line, at_text};
use vstd::prelude::*;

verus! {

/// What the module waits for before it can be used (`+CPIN`).
#[derive(Debug, Clone, Copy, PartialEq, Eq, Structural)]
pub enum PinStatusCode {
    /// READY: MT is not pending for any password
    Ready,
    /// SIM PIN: MT is waiting SIM PIN to be given
    SimPin,
    /// SIM PUK: MT is waiting SIM PUK to be given
    SimPuk,
    /// SIM PIN2: MT is waiting SIM PIN2 to be given
    SimPin2,
    /// SIM PUK2: MT is waiting SIM PUK2 to be given
    SimPuk2,
    /// PH-NET PIN: MT is waiting network personalization password to be given
    PhNetPin,
    /// PH-NETSUB PIN: MT is waiting network subset personalization password to be given
    PhNetSubPin,
    /// PH-SP PIN: MT is waiting service provider personalization password to be given
    PhSpPin,
    /// PH-CORP PIN: MT is waiting corporate personalization password to be given
    PhCorpPin,
    /// PH-SIM PIN: MT is waiting phone to SIM/UICC card password to be given
    PhSimPin,
}

/// 9.1 Enter PIN +CPIN
#[derive(Debug, Clone, Copy, PartialEq, Eq, Structural)]
pub struct PinStatus {
    pub code: PinStatusCode,
}

impl PinStatusCode {
    /// The text that names the value.
    pub open spec fn spec_token(self) -> Seq<char> {
        match self {
            PinStatusCode::Ready => "READY"@,
            PinStatusCode::SimPin => "SIM PIN"@,
            PinStatusCode::SimPuk => "SIM PUK"@,
            PinStatusCode::SimPin2 => "SIM PIN2"@,
            PinStatusCode::SimPuk2 => "SIM PUK2"@,
            PinStatusCode::PhNetPin => "PH-NET PIN"@,
            PinStatusCode::PhNetSubPin => "PH-NETSUB PIN"@,
            PinStatusCode::PhSpPin => "PH-SP PIN"@,
            PinStatusCode::PhCorpPin => "PH-CORP PIN"@,
            PinStatusCode::PhSimPin => "PH-SIM PIN"@,
        }
    }

    /// The text that names the value.
    pub fn token(&self) -> (r: &'static str)
        ensures
            r@ == self.spec_token(),
    {
        match self {
            PinStatusCode::Ready => "READY",
            PinStatusCode::SimPin => "SIM PIN",
            PinStatusCode::SimPuk => "SIM PUK",
            PinStatusCode::SimPin2 => "SIM PIN2",
            PinStatusCode::SimPuk2 => "SIM PUK2",
            PinStatusCode::PhNetPin => "PH-NET PIN",
            PinStatusCode::PhNetSubPin => "PH-NETSUB PIN",
            PinStatusCode::PhSpPin => "PH-SP PIN",
            PinStatusCode::PhCorpPin => "PH-CORP PIN",
            PinStatusCode::PhSimPin => "PH-SIM PIN",
        }
    }
}

/// The PIN state that the text `t` names, if any.
pub open spec fn pin_code_named(t: Seq<char>) -> Option<PinStatusCode> {
    if t == "READY"@ {
        Some(PinStatusCode::Ready)
    } else if t == "SIM PIN"@ {
        Some(PinStatusCode::SimPin)
    } else if t == "SIM PUK"@ {
        Some(PinStatusCode::SimPuk)
    } else if t == "SIM PIN2"@ {
        Some(PinStatusCode::SimPin2)
    } else if t == "SIM PUK2"@ {
        Some(PinStatusCode::SimPuk2)
    } else if t == "PH-NET PIN"@ {
        Some(PinStatusCode::PhNetPin)
    } else if t == "PH-NETSUB PIN"@ {
        Some(PinStatusCode::PhNetSubPin)
    } else if t == "PH-SP PIN"@ {
        Some(PinStatusCode::PhSpPin)
    } else if t == "PH-CORP PIN"@ {
        Some(PinStatusCode::PhCorpPin)
    } else if t == "PH-SIM PIN"@ {
        Some(PinStatusCode::PhSimPin)
    } else {
        None
    }
}

impl PinStatusCode {
    /// The PIN state that the text `t` names, if any.
    pub fn from_token(t: &[char]) -> (r: Option<Self>)
        ensures
            r == pin_code_named(t@),
    {
        if spells(t, "READY") {
            Some(PinStatusCode::Ready)
        } else if spells(t, "SIM PIN") {
            Some(PinStatusCode::SimPin)
        } else if spells(t, "SIM PUK") {
            Some(PinStatusCode::SimPuk)
        } else if spells(t, "SIM PIN2") {
            Some(PinStatusCode::SimPin2)
        } else if spells(t, "SIM PUK2") {
            Some(PinStatusCode::SimPuk2)
        } else if spells(t, "PH-NET PIN") {
            Some(PinStatusCode::PhNetPin)
        } else if spells(t, "PH-NETSUB PIN") {
            Some(PinStatusCode::PhNetSubPin)
        } else if spells(t, "PH-SP PIN") {
            Some(PinStatusCode::PhSpPin)
        } else if spells(t, "PH-CORP PIN") {
            Some(PinStatusCode::PhCorpPin)
        } else if spells(t, "PH-SIM PIN") {
            Some(PinStatusCode::PhSimPin)
        } else {
            None
        }
    }
}
impl PinStatus {
    /// The PIN state that the response text `resp` (`+CPIN: <code>`) reports, if any.
    pub fn parse(resp: &[u8]) -> (r: Option<Self>)
        ensures
            r == (match pin_code_named(at_body(latin1(resp@))) {
                Some(code) => Some(PinStatus { code }),
                None => None,
            }),
    {
        let c = chars_of_bytes(resp);
        let b = body_of(c.as_slice());
        match PinStatusCode::from_token(b.as_slice()) {
            Some(code) => Some(PinStatus { code }),
            None => None,
        }
    }
}

/// Each PIN state is read back from its own text.
pub proof fn lemma_pin_code_token_round_trip(e: PinStatusCode)
    ensures
        pin_code_named(e.spec_token()) == Some(e),
{
    let t = e.spec_token();
    match e {
        PinStatusCode::Ready => {
        },
        PinStatusCode::SimPin => {
            reveal_strlit("SIM PIN");
            reveal_strlit("READY");
            assert(t.len() != "READY"@.len());
        },
        PinStatusCode::SimPuk => {
            reveal_strlit("SIM PUK");
            reveal_strlit("READY");
            assert(t.len() != "READY"@.len());
            reveal_strlit("SIM PIN");
            assert(t[5] != "SIM PIN"@[5]);
        },
        PinStatusCode::SimPin2 => {
            reveal_strlit("SIM PIN2");
            reveal_strlit("READY");
            assert(t.len() != "READY"@.len());
            reveal_strlit("SIM PIN");
            assert(t.len() != "SIM PIN"@.len());
            reveal_strlit("SIM PUK");
            assert(t.len() != "SIM PUK"@.len());
        },
        PinStatusCode::SimPuk2 => {
            reveal_strlit("SIM PUK2");
            reveal_strlit("READY");
            assert(t.len() != "READY"@.len());
            reveal_strlit("SIM PIN");
            assert(t.len() != "SIM PIN"@.len());
            reveal_strlit("SIM PUK");
            assert(t.len() != "SIM PUK"@.len());
            reveal_strlit("SIM PIN2");
            assert(t[5] != "SIM PIN2"@[5]);
        },
        PinStatusCode::PhNetPin => {
            reveal_strlit("PH-NET PIN");
            reveal_strlit("READY");
            assert(t.len() != "READY"@.len());
            reveal_strlit("SIM PIN");
            assert(t.len() != "SIM PIN"@.len());
            reveal_strlit("SIM PUK");
            assert(t.len() != "SIM PUK"@.len());
            reveal_strlit("SIM PIN2");
            assert(t.len() != "SIM PIN2"@.len());
            reveal_strlit("SIM PUK2");
            assert(t.len() != "SIM PUK2"@.len());
        },
        PinStatusCode::PhNetSubPin => {
            reveal_strlit("PH-NETSUB PIN");
            reveal_strlit("READY");
            assert(t.len() != "READY"@.len());
            reveal_strlit("SIM PIN");
            assert(t.len() != "SIM PIN"@.len());
            reveal_strlit("SIM PUK");
            assert(t.len() != "SIM PUK"@.len());
            reveal_strlit("SIM PIN2");
            assert(t.len() != "SIM PIN2"@.len());
            reveal_strlit("SIM PUK2");
            assert(t.len() != "SIM PUK2"@.len());
            reveal_strlit("PH-NET PIN");
            assert(t.len() != "PH-NET PIN"@.len());
        },
        PinStatusCode::PhSpPin => {
            reveal_strlit("PH-SP PIN");
            reveal_strlit("READY");
            assert(t.len() != "READY"@.len());
            reveal_strlit("SIM PIN");
            assert(t.len() != "SIM PIN"@.len());
            reveal_strlit("SIM PUK");
            assert(t.len() != "SIM PUK"@.len());
            reveal_strlit("SIM PIN2");
            assert(t.len() != "SIM PIN2"@.len());
            reveal_strlit("SIM PUK2");
            assert(t.len() != "SIM PUK2"@.len());
            reveal_strlit("PH-NET PIN");
            assert(t.len() != "PH-NET PIN"@.len());
            reveal_strlit("PH-NETSUB PIN");
            assert(t.len() != "PH-NETSUB PIN"@.len());
        },
        PinStatusCode::PhCorpPin => {
            reveal_strlit("PH-CORP PIN");
            reveal_strlit("READY");
            assert(t.len() != "READY"@.len());
            reveal_strlit("SIM PIN");
            assert(t.len() != "SIM PIN"@.len());
            reveal_strlit("SIM PUK");
            assert(t.len() != "SIM PUK"@.len());
            reveal_strlit("SIM PIN2");
            assert(t.len() != "SIM PIN2"@.len());
            reveal_strlit("SIM PUK2");
            assert(t.len() != "SIM PUK2"@.len());
            reveal_strlit("PH-NET PIN");
            assert(t.len() != "PH-NET PIN"@.len());
            reveal_strlit("PH-NETSUB PIN");
            assert(t.len() != "PH-NETSUB PIN"@.len());
            reveal_strlit("PH-SP PIN");
            assert(t.len() != "PH-SP PIN"@.len());
        },
        PinStatusCode::PhSimPin => {
            reveal_strlit("PH-SIM PIN");
            reveal_strlit("READY");
            assert(t.len() != "READY"@.len());
            reveal_strlit("SIM PIN");
            assert(t.len() != "SIM PIN"@.len());
            reveal_strlit("SIM PUK");
            assert(t.len() != "SIM PUK"@.len());
            reveal_strlit("SIM PIN2");
            assert(t.len() != "SIM PIN2"@.len());
            reveal_strlit("SIM PUK2");
            assert(t.len() != "SIM PUK2"@.len());
            reveal_strlit("PH-NET PIN");
            assert(t[3] != "PH-NET PIN"@[3]);
            reveal_strlit("PH-NETSUB PIN");
            assert(t.len() != "PH-NETSUB PIN"@.len());
            reveal_strlit("PH-SP PIN");
            assert(t.len() != "PH-SP PIN"@.len());
            reveal_strlit("PH-CORP PIN");
            assert(t.len() != "PH-CORP PIN"@.len());
        },
    }
}
/// The token of a PIN state has no white space at either end.
proof fn lemma_pin_token_trimmed(c: PinStatusCode)
    ensures
        c.spec_token().len() > 0,
        !crate::text::is_ascii_space(c.spec_token()[0]),
        !crate::text::is_ascii_space(c.spec_token().last()),
{
    match c {
        PinStatusCode::Ready => {
            reveal_strlit("READY");
        },
        PinStatusCode::SimPin => {
            reveal_strlit("SIM PIN");
        },
        PinStatusCode::SimPuk => {
            reveal_strlit("SIM PUK");
        },
        PinStatusCode::SimPin2 => {
            reveal_strlit("SIM PIN2");
        },
        PinStatusCode::SimPuk2 => {
            reveal_strlit("SIM PUK2");
        },
        PinStatusCode::PhNetPin => {
            reveal_strlit("PH-NET PIN");
        },
        PinStatusCode::PhNetSubPin => {
            reveal_strlit("PH-NETSUB PIN");
        },
        PinStatusCode::PhSpPin => {
            reveal_strlit("PH-SP PIN");
        },
        PinStatusCode::PhCorpPin => {
            reveal_strlit("PH-CORP PIN");
        },
        PinStatusCode::PhSimPin => {
            reveal_strlit("PH-SIM PIN");
        },
    }
}

/// A `+CPIN: <state>` line is read back as the PIN state it names.
pub proof fn lemma_pin_status_line_round_trip(c: PinStatusCode)
    ensures
        pin_code_named(at_body("+CPIN: "@ + c.spec_token())) == Some(c),
{
    reveal_strlit("+CPIN: ");
    reveal_strlit("+CPIN");
    let name = "+CPIN"@;
    assert("+CPIN: "@ =~= name + seq![':', ' ']);
    lemma_pin_token_trimmed(c);
    lemma_at_body_of_named_value(name, c.spec_token());
    assert("+CPIN: "@ + c.spec_token() =~= name + seq![':', ' '] + c.spec_token());
    lemma_pin_code_token_round_trip(c);
}

/// The bytes of a `+CPIN: <code>` line, followed by a line ending (or any
/// other ASCII white space), are read back as that PIN state by
/// `PinStatus::parse`.
pub proof fn lemma_pin_status_bytes_round_trip(c: PinStatusCode, b: Seq<u8>, t: Seq<char>)
    requires
        crate::text::all_ascii_space(t),
        latin1(b) == "+CPIN: "@ + c.spec_token() + t,
    ensures
        pin_code_named(at_body(latin1(b))) == Some(c),
{
    crate::text::lemma_trim_ascii_append_space("+CPIN: "@ + c.spec_token(), t);
    lemma_pin_status_line_round_trip(c);
}

/// 9.1 Read the PIN state +CPIN?
#[derive(Debug, Clone, Copy, PartialEq, Eq, Structural)]
pub struct GetPinStatus;

impl GetPinStatus {
    /// The arguments of the command, as they are written on the command line.
    pub open spec fn spec_args(&self) -> Seq<Seq<char>> {
        Seq::empty()
    }

    /// The command line: `AT+CPIN?`.
    pub fn to_text(&self) -> (r: Vec<char>)
        ensures
            r@ == at_text("+CPIN?"@, self.spec_args(), true),
    {
        let mut args: Vec<Vec<char>> = Vec::new();
        proof {
            assert(args@.map_values(|a: Vec<char>| a@) =~= self.spec_args());
        }
        at_line("+CPIN?", &args, true)
    }
}

} // verus!
