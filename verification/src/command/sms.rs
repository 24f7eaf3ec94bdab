//! Short messages service.

use super::{num_field, number_field};
use crate::text::{fields, split_fields};
use super::at::{at_line, at_text, decimal_text, push_decimal};
use vstd::prelude::*;

verus! {

/// `+UMWI`: a message waiting indication.
#[derive(Debug, Clone, Copy, PartialEq, Eq, Structural)]
pub struct MessageWaitingIndication {
    pub status: u8,
    pub message_type: u8,
}

/// The message waiting indication that the value text `body` holds, if any: 2 comma separated
/// decimal fields.
pub open spec fn mwi_of(body: Seq<char>) -> Option<MessageWaitingIndication> {
    if fields(body).len() == 2 && num_field(body, 0, 255) is Some && num_field(body, 1, 255) is Some {
        Some(MessageWaitingIndication { status: num_field(body, 0, 255)->0 as u8, message_type: num_field(body, 1, 255)->0 as u8 })
    } else {
        None
    }
}

impl MessageWaitingIndication {
    /// The message waiting indication that the value text `body` holds, if any.
    pub fn from_fields(body: &[char]) -> (r: Option<Self>)
        ensures
            r == mwi_of(body@),
    {
        let f = split_fields(body);
        if f.len() != 2 {
            return None;
        }
        let v0 = match number_field(&f, 0, 255) {
            Some(v) => v,
            None => {
                return None;
            },
        };
        let v1 = match number_field(&f, 1, 255) {
            Some(v) => v,
            None => {
                return None;
            },
        };
        Some(MessageWaitingIndication { status: v0 as u8, message_type: v1 as u8 })
    }
}

/// 11.29 Message waiting indication +UMWI: whether the URCs are shown.
#[derive(Debug, Clone, Copy, PartialEq, Eq, Structural)]
pub struct SetMessageWaitingIndication {
    pub mode: u8,
}

impl SetMessageWaitingIndication {
    /// The arguments of the command, as they are written on the command line.
    pub open spec fn spec_args(&self) -> Seq<Seq<char>> {
        seq![decimal_text(self.mode as nat)]
    }

    /// The command line: `AT+UMWI` with its arguments.
    pub fn to_text(&self) -> (r: Vec<char>)
        ensures
            r@ == at_text("+UMWI"@, self.spec_args(), true),
    {
        let mut args: Vec<Vec<char>> = Vec::new();
        let mut a: Vec<char> = Vec::new();
        push_decimal(&mut a, self.mode as u128);
        args.push(a);
        proof {
            assert(args@.map_values(|a: Vec<char>| a@) =~= self.spec_args());
        }
        at_line("+UMWI", &args, true)
    }
}

} // verus!
