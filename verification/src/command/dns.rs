//! Domain name resolution on the module.

use super::at::{at_line, at_text, decimal_text, push_decimal, push_quoted, quoted};
use super::{at_body, body_of, read_required_string, required_string};
use crate::text::{chars_of_bytes, fields, latin1, split_fields};
use vstd::prelude::*;

verus! {

/// The resolution asked of `+UDNSRN`: from a domain name to an IP address.
pub const DOMAIN_NAME_TO_IP: u8 = 0;

/// The resolution asked of `+UDNSRN`: from an IP address to a domain name.
pub const IP_TO_DOMAIN_NAME: u8 = 1;

/// 24.1 Resolve name / IP number through DNS +UDNSRN
#[derive(Debug, Clone, Copy, PartialEq, Eq)]
pub struct ResolveNameIp<'a> {
    pub resolution_type: u8,
    pub ip_domain_string: &'a str,
}

impl<'a> ResolveNameIp<'a> {
    /// The arguments of the command, as they are written on the command line.
    pub open spec fn spec_args(&self) -> Seq<Seq<char>> {
        seq![decimal_text(self.resolution_type as nat), quoted(self.ip_domain_string@)]
    }

    /// The command line: `AT+UDNSRN` with its arguments.
    pub fn to_text(&self) -> (r: Vec<char>)
        ensures
            r@ == at_text("+UDNSRN"@, self.spec_args(), true),
    {
        let mut args: Vec<Vec<char>> = Vec::new();
        let mut a: Vec<char> = Vec::new();
        push_decimal(&mut a, self.resolution_type as u128);
        args.push(a);
        let mut a: Vec<char> = Vec::new();
        push_quoted(&mut a, self.ip_domain_string);
        args.push(a);
        proof {
            assert(args@.map_values(|a: Vec<char>| a@) =~= self.spec_args());
        }
        at_line("+UDNSRN", &args, true)
    }
}

/// 24.1 The answer to `+UDNSRN`: the IP address or the domain name, as
/// text of at most 128 characters.
#[derive(Debug, Clone, PartialEq, Eq)]
pub struct ResolveNameIpResponse {
    pub ip_domain_string: String,
}

/// What the value text `body` of a `+UDNSRN` answer reports, if it is well
/// formed: one string field of at most 128 characters.
pub open spec fn resolution_of(body: Seq<char>) -> Option<Seq<char>> {
    if fields(body).len() == 1 {
        required_string(fields(body), 0, 128)
    } else {
        None
    }
}

impl ResolveNameIpResponse {
    /// What the answer `resp` (`+UDNSRN: "<text>"`) reports, if it is well formed.
    pub fn parse(resp: &[u8]) -> (r: Option<Self>)
        ensures
            match resolution_of(at_body(latin1(resp@))) {
                Some(t) => r matches Some(v) && v.ip_domain_string@ == t,
                None => r is None,
            },
    {
        let c = chars_of_bytes(resp);
        let body = body_of(c.as_slice());
        let f = split_fields(body.as_slice());
        proof {
            assert(f@.map_values(|a: Vec<char>| a@) =~= fields(body@));
        }
        if f.len() != 1 {
            return None;
        }
        match read_required_string(&f, 0, 128) {
            Some(t) => Some(ResolveNameIpResponse { ip_domain_string: t }),
            None => None,
        }
    }
}

} // verus!
