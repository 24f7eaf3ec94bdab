//! HTTP client of the module.

use super::{num_field, number_field};
use crate::text::{fields, split_fields};
use vstd::prelude::*;

verus! {

/// `+UUHTTPCR`: the result of an HTTP command.
#[derive(Debug, Clone, Copy, PartialEq, Eq, Structural)]
pub struct HttpResponse {
    pub profile_id: u8,
    pub http_command: u8,
    pub http_result: u8,
}

/// The HTTP command result that the value text `body` holds, if any: 3 comma separated
/// decimal fields.
pub open spec fn http_response_of(body: Seq<char>) -> Option<HttpResponse> {
    if fields(body).len() == 3 && num_field(body, 0, 255) is Some && num_field(body, 1, 255) is Some && num_field(body, 2, 255) is Some {
        Some(HttpResponse { profile_id: num_field(body, 0, 255)->0 as u8, http_command: num_field(body, 1, 255)->0 as u8, http_result: num_field(body, 2, 255)->0 as u8 })
    } else {
        None
    }
}

impl HttpResponse {
    /// The HTTP command result that the value text `body` holds, if any.
    pub fn from_fields(body: &[char]) -> (r: Option<Self>)
        ensures
            r == http_response_of(body@),
    {
        let f = split_fields(body);
        if f.len() != 3 {
            return None;
        }
        let v0 = match number_field(&f, 0, 255) {
            Some(v) => v,
            None => {
                return None;
            },
        };
        let v1 = match number_field(&f, 1, 255) {
            Some(v) => v,
            None => {
                return None;
            },
        };
        let v2 = match number_field(&f, 2, 255) {
            Some(v) => v,
            None => {
                return None;
            },
        };
        Some(HttpResponse { profile_id: v0 as u8, http_command: v1 as u8, http_result: v2 as u8 })
    }
}

} // verus!
