//! AT Commands for u-blox cellular module family, following the u-blox
//! cellular modules AT commands manual.

pub mod at;
pub mod control;
pub mod device_data_security;
pub mod device_lock;
pub mod dns;
pub mod error;
pub mod file_system;
pub mod general;
pub mod gpio;
pub mod http;
pub mod ip_transport_layer;
pub mod mobile_control;
pub mod network_service;
pub mod psn;
pub mod sms;
pub mod system_features;

use crate::text::{trim_ascii_bounds, is_ascii_space, trim_ascii_start, trim_ascii_end, all_ascii_space, lemma_index_of_finds, lemma_index_of, lemma_trim_ascii_append_space, chars_of_bytes, decimal_at_most, fields, find_from, index_of, latin1, parse_decimal, slice_of, spells, trim_ascii, trimmed_ascii};
use at::{at_line, at_text};
use crate::registration::text_of;
use crate::text::{read_utf8, utf8_text};
use vstd::prelude::*;

verus! {

/// Whether `c` opens the name of an AT command.
pub open spec fn is_at_sigil(c: char) -> bool {
    c == '+' || c == '#' || c == '$' || c == '&' || c == '%'
}

/// The value part of a response line: when the trimmed line starts with a
/// command name (`+NAME:`), the trimmed text after the first colon;
/// otherwise the whole trimmed line.
pub open spec fn at_body(s: Seq<char>) -> Seq<char> {
    let t = trim_ascii(s);
    let k = index_of(t, ':');
    if t.len() > 0 && is_at_sigil(t[0]) && k < t.len() {
        trim_ascii(t.subrange(k as int + 1, t.len() as int))
    } else {
        t
    }
}

/// The number in the `i`-th comma separated field of `body`, when that
/// field, without surrounding white space, is a decimal number of at most `max`.
pub open spec fn num_field(body: Seq<char>, i: int, max: nat) -> Option<nat> {
    decimal_at_most(trim_ascii(fields(body)[i]), max)
}

/// The number in the `i`-th of the fields `f`, when that field, without
/// surrounding white space, is a decimal number of at most `max`.
pub fn number_field(f: &Vec<Vec<char>>, i: usize, max: usize) -> (r: Option<usize>)
    requires
        i < f@.len(),
    ensures
        match decimal_at_most(trim_ascii(f@[i as int]@), max as nat) {
            Some(v) => r == Some(v as usize),
            None => r is None,
        },
{
    let t = trimmed_ascii(f[i].as_slice());
    parse_decimal(t.as_slice(), max)
}

/// The text of a string field `f`: without surrounding white space, and
/// without its quotes when it is written between quotes.
pub open spec fn string_text(f: Seq<char>) -> Seq<char> {
    let t = trim_ascii(f);
    if t.len() >= 2 && t[0] == '"' && t[t.len() - 1] == '"' {
        t.subrange(1, t.len() - 1)
    } else {
        t
    }
}

/// The text of the string field `f`.
pub fn string_field(f: &[char]) -> (r: Vec<char>)
    ensures
        r@ == string_text(f@),
{
    let t = trimmed_ascii(f);
    let n = t.len();
    if n >= 2 && t[0] == '"' && t[n - 1] == '"' {
        slice_of(t.as_slice(), 1, n - 1)
    } else {
        t
    }
}

/// The value part of the response line `s`.
pub fn body_of(s: &[char]) -> (r: Vec<char>)
    ensures
        r@ == at_body(s@),
{
    let t = trimmed_ascii(s);
    let k = find_from(t.as_slice(), ':', 0);
    proof {
        assert(t@.subrange(0, t@.len() as int) =~= t@);
    }
    if t.len() > 0 && (t[0] == '+' || t[0] == '#' || t[0] == '$' || t[0] == '&' || t[0] == '%') && k < t.len() {
        let rest = slice_of(t.as_slice(), k + 1, t.len());
        trimmed_ascii(rest.as_slice())
    } else {
        t
    }
}

/// Where the value part of the response line `s` begins and ends in `s`.
pub fn body_bounds(s: &[char]) -> (r: (usize, usize))
    ensures
        r.0 <= r.1 <= s@.len(),
        s@.subrange(r.0 as int, r.1 as int) == at_body(s@),
{
    let (a, b) = trim_ascii_bounds(s);
    let t = slice_of(s, a, b);
    let k = find_from(t.as_slice(), ':', 0);
    proof {
        assert(t@.subrange(0, t@.len() as int) =~= t@);
    }
    if t.len() > 0 && (t[0] == '+' || t[0] == '#' || t[0] == '$' || t[0] == '&' || t[0] == '%') && k < t.len() {
        let rest = slice_of(t.as_slice(), k + 1, t.len());
        let (a2, b2) = trim_ascii_bounds(rest.as_slice());
        proof {
            assert(rest@.subrange(a2 as int, b2 as int) =~= s@.subrange(
                (a + k + 1 + a2) as int,
                (a + k + 1 + b2) as int,
            ));
        }
        (a + k + 1 + a2, a + k + 1 + b2)
    } else {
        (a, b)
    }
}

/// The first comma separated field of the value part of the response `resp`.
pub open spec fn first_field(resp: Seq<u8>) -> Seq<char> {
    fields(at_body(latin1(resp)))[0]
}

/// The bytes of the first comma separated field of the value part of the
/// response `resp`.
pub fn first_field_bytes(resp: &[u8]) -> (r: Vec<u8>)
    ensures
        latin1(r@) == first_field(resp@),
{
    let c = chars_of_bytes(resp);
    let (lo, hi) = body_bounds(c.as_slice());
    let body = slice_of(c.as_slice(), lo, hi);
    let k = find_from(body.as_slice(), ',', 0);
    let mut r: Vec<u8> = Vec::new();
    let mut i: usize = lo;
    while i < lo + k
        invariant
            lo <= i <= lo + k <= hi <= resp@.len(),
            r@ == resp@.subrange(lo as int, i as int),
        decreases lo + k - i,
    {
        r.push(resp[i]);
        proof {
            assert(resp@.subrange(lo as int, i + 1) =~= resp@.subrange(lo as int, i as int).push(resp@[i as int]));
        }
        i = i + 1;
    }
    proof {
        let b = at_body(latin1(resp@));
        assert(body@ == b);
        assert(body@.subrange(0, body@.len() as int) =~= body@);
        assert(fields(b)[0] =~= b.subrange(0, k as int));
        assert(latin1(r@) =~= b.subrange(0, k as int));
    }
    r
}

/// The optional number in the field `i` of `fs`, when it is well formed:
/// none where there is no such field or it is blank; otherwise a decimal
/// number of at most `max`.
pub open spec fn optional_number(fs: Seq<Seq<char>>, i: int, max: nat) -> Option<Option<nat>> {
    if i >= fs.len() || trim_ascii(fs[i]).len() == 0 {
        Some(None)
    } else {
        match decimal_at_most(trim_ascii(fs[i]), max) {
            Some(v) => Some(Some(v)),
            None => None,
        }
    }
}

/// The optional string in the field `i` of `fs`, when it is well formed:
/// none where there is no such field or it is blank; otherwise the string
/// that its text (see [string_text]), of at most `cap` bytes, holds as
/// UTF-8 (see [utf8_text]).
pub open spec fn optional_string(fs: Seq<Seq<char>>, i: int, cap: nat) -> Option<Option<Seq<char>>> {
    if i >= fs.len() || trim_ascii(fs[i]).len() == 0 {
        Some(None)
    } else if string_text(fs[i]).len() <= cap {
        match utf8_text(string_text(fs[i])) {
            Some(t) => Some(Some(t)),
            None => None,
        }
    } else {
        None
    }
}

/// The optional number in the field `i` of `f` (see [optional_number]).
pub fn read_optional_number(f: &Vec<Vec<char>>, i: usize, max: usize) -> (r: Option<Option<usize>>)
    ensures
        match optional_number(f@.map_values(|a: Vec<char>| a@), i as int, max as nat) {
            Some(Some(v)) => r == Some(Some(v as usize)),
            Some(None) => r == Some(None::<usize>),
            None => r is None,
        },
{
    let ghost fs = f@.map_values(|a: Vec<char>| a@);
    if i >= f.len() {
        return Some(None);
    }
    assert(fs[i as int] == f@[i as int]@);
    let t = trimmed_ascii(f[i].as_slice());
    if t.len() == 0 {
        return Some(None);
    }
    match number_field(f, i, max) {
        Some(v) => Some(Some(v)),
        None => None,
    }
}

/// The optional string in the field `i` of `f` (see [optional_string]).
pub fn read_optional_string(f: &Vec<Vec<char>>, i: usize, cap: usize) -> (r: Option<Option<String>>)
    ensures
        match optional_string(f@.map_values(|a: Vec<char>| a@), i as int, cap as nat) {
            Some(t) => r matches Some(v) && text_of(v) == t,
            None => r is None,
        },
{
    let ghost fs = f@.map_values(|a: Vec<char>| a@);
    if i >= f.len() {
        return Some(None);
    }
    assert(fs[i as int] == f@[i as int]@);
    let t = trimmed_ascii(f[i].as_slice());
    if t.len() == 0 {
        return Some(None);
    }
    let text = string_field(f[i].as_slice());
    if text.len() <= cap {
        match read_utf8(text.as_slice()) {
            Some(v) => Some(Some(v)),
            None => None,
        }
    } else {
        None
    }
}

/// The string in the field `i` of `fs`, when there is such a field and its
/// text (see [string_text]) has at most `cap` bytes and is well formed
/// UTF-8: the string that the text holds (see [utf8_text]).
pub open spec fn required_string(fs: Seq<Seq<char>>, i: int, cap: nat) -> Option<Seq<char>> {
    if 0 <= i < fs.len() && string_text(fs[i]).len() <= cap {
        utf8_text(string_text(fs[i]))
    } else {
        None
    }
}

/// The string in the field `i` of `f` (see [required_string]).
pub fn read_required_string(f: &Vec<Vec<char>>, i: usize, cap: usize) -> (r: Option<String>)
    ensures
        match required_string(f@.map_values(|a: Vec<char>| a@), i as int, cap as nat) {
            Some(t) => r matches Some(v) && v@ == t,
            None => r is None,
        },
{
    let ghost fs = f@.map_values(|a: Vec<char>| a@);
    if i >= f.len() {
        return None;
    }
    assert(fs[i as int] == f@[i as int]@);
    let text = string_field(f[i].as_slice());
    if text.len() <= cap {
        read_utf8(text.as_slice())
    } else {
        None
    }
}

/// The response of a command that answers only with a final result code.
#[derive(Debug, Clone, Copy, PartialEq, Eq, Structural)]
pub struct NoResponse;

/// The bare `AT` command, which only checks that the module answers.
#[derive(Debug, Clone, Copy, PartialEq, Eq, Structural)]
pub struct AT;

impl AT {
    /// The command line: `AT` alone.
    pub fn to_text(&self) -> (r: Vec<char>)
        ensures
            r@ == at_text(""@, Seq::empty(), true),
    {
        let args: Vec<Vec<char>> = Vec::new();
        proof {
            assert(args@.map_values(|a: Vec<char>| a@) =~= Seq::<Seq<char>>::empty());
        }
        at_line("", &args, true)
    }
}

/// An unsolicited result code of the module.
#[derive(Debug, Clone, Copy, PartialEq, Eq, Structural)]
pub enum Urc {
    /// `+CGEV`
    PacketSwitchedEventReporting(psn::PacketSwitchedEventReporting),
    /// `+UUSORD`
    SocketDataAvailable(ip_transport_layer::SocketDataAvailable),
    /// `+UUSORF`
    SocketDataAvailableUDP(ip_transport_layer::SocketDataAvailable),
    /// `+UUPSDA`
    DataConnectionActivated(psn::DataConnectionActivated),
    /// `+UUPSDD`
    DataConnectionDeactivated(psn::DataConnectionDeactivated),
    /// `+UUSOCL`
    SocketClosed(ip_transport_layer::SocketClosed),
    /// `+UMWI`
    MessageWaitingIndication(sms::MessageWaitingIndication),
    /// `+UREG`
    ExtendedPSNetworkRegistration(psn::ExtendedPSNetworkRegistration),
    /// `+UUHTTPCR`
    HttpResponse(http::HttpResponse),
}

/// The unsolicited result code that the line `s` reports, if any: the text
/// before the first colon names the code, and the text after it, without
/// surrounding white space, holds its value.
pub open spec fn urc_of(s: Seq<char>) -> Option<Urc> {
    let k = index_of(s, ':');
    let code = s.subrange(0, k as int);
    let body = trim_ascii(s.subrange(k as int + 1, s.len() as int));
    if k >= s.len() {
        None
    } else if code == "+CGEV"@ {
        match psn::event_named(body) {
            Some(e) => Some(Urc::PacketSwitchedEventReporting(e)),
            None => None,
        }
    } else if code == "+UUSORD"@ {
        match ip_transport_layer::socket_data_of(body) {
            Some(d) => Some(Urc::SocketDataAvailable(d)),
            None => None,
        }
    } else if code == "+UUSORF"@ {
        match ip_transport_layer::socket_data_of(body) {
            Some(d) => Some(Urc::SocketDataAvailableUDP(d)),
            None => None,
        }
    } else if code == "+UUPSDA"@ {
        match psn::activation_of(body) {
            Some(d) => Some(Urc::DataConnectionActivated(d)),
            None => None,
        }
    } else if code == "+UUPSDD"@ {
        match psn::deactivation_of(body) {
            Some(d) => Some(Urc::DataConnectionDeactivated(d)),
            None => None,
        }
    } else if code == "+UUSOCL"@ {
        match ip_transport_layer::socket_closed_of(body) {
            Some(d) => Some(Urc::SocketClosed(d)),
            None => None,
        }
    } else if code == "+UMWI"@ {
        match sms::mwi_of(body) {
            Some(d) => Some(Urc::MessageWaitingIndication(d)),
            None => None,
        }
    } else if code == "+UREG"@ {
        match psn::ureg_of(body) {
            Some(d) => Some(Urc::ExtendedPSNetworkRegistration(d)),
            None => None,
        }
    } else if code == "+UUHTTPCR"@ {
        match http::http_response_of(body) {
            Some(d) => Some(Urc::HttpResponse(d)),
            None => None,
        }
    } else {
        None
    }
}

impl Urc {
    /// The unsolicited result code that the line `resp` reports, if any.
    pub fn parse(resp: &[u8]) -> (r: Option<Urc>)
        ensures
            r == urc_of(latin1(resp@)),
    {
        let s = chars_of_bytes(resp);
        let k = find_from(s.as_slice(), ':', 0);
        proof {
            assert(s@.subrange(0, s@.len() as int) =~= s@);
        }
        if k >= s.len() {
            return None;
        }
        let code = slice_of(s.as_slice(), 0, k);
        let rest = slice_of(s.as_slice(), k + 1, s.len());
        let body = trimmed_ascii(rest.as_slice());
        let code = code.as_slice();
        let body = body.as_slice();
        if spells(code, "+CGEV") {
            match psn::PacketSwitchedEventReporting::from_token(body) {
                Some(e) => Some(Urc::PacketSwitchedEventReporting(e)),
                None => None,
            }
        } else if spells(code, "+UUSORD") {
            match ip_transport_layer::SocketDataAvailable::from_fields(body) {
                Some(d) => Some(Urc::SocketDataAvailable(d)),
                None => None,
            }
        } else if spells(code, "+UUSORF") {
            match ip_transport_layer::SocketDataAvailable::from_fields(body) {
                Some(d) => Some(Urc::SocketDataAvailableUDP(d)),
                None => None,
            }
        } else if spells(code, "+UUPSDA") {
            match psn::DataConnectionActivated::from_fields(body) {
                Some(d) => Some(Urc::DataConnectionActivated(d)),
                None => None,
            }
        } else if spells(code, "+UUPSDD") {
            match psn::DataConnectionDeactivated::from_fields(body) {
                Some(d) => Some(Urc::DataConnectionDeactivated(d)),
                None => None,
            }
        } else if spells(code, "+UUSOCL") {
            match ip_transport_layer::SocketClosed::from_fields(body) {
                Some(d) => Some(Urc::SocketClosed(d)),
                None => None,
            }
        } else if spells(code, "+UMWI") {
            match sms::MessageWaitingIndication::from_fields(body) {
                Some(d) => Some(Urc::MessageWaitingIndication(d)),
                None => None,
            }
        } else if spells(code, "+UREG") {
            match psn::ExtendedPSNetworkRegistration::from_fields(body) {
                Some(d) => Some(Urc::ExtendedPSNetworkRegistration(d)),
                None => None,
            }
        } else if spells(code, "+UUHTTPCR") {
            match http::HttpResponse::from_fields(body) {
                Some(d) => Some(Urc::HttpResponse(d)),
                None => None,
            }
        } else {
            None
        }
    }
}

/// A URC line reads the same with or without a trailing line ending (or
/// any other trailing ASCII white space), once it has its colon.
pub proof fn lemma_urc_ignores_line_ending(s: Seq<char>, t: Seq<char>)
    requires
        index_of(s, ':') < s.len(),
        all_ascii_space(t),
    ensures
        urc_of(s + t) == urc_of(s),
{
    let k = index_of(s, ':');
    lemma_index_of_finds(s, ':');
    assert forall|j: int| 0 <= j < k implies (s + t)[j] != ':' by {
        assert((s + t)[j] == s[j]);
    }
    assert((s + t)[k as int] == s[k as int]);
    lemma_index_of(s + t, ':', k as int);
    assert((s + t).subrange(0, k as int) =~= s.subrange(0, k as int));
    let rest = s.subrange(k as int + 1, s.len() as int);
    assert((s + t).subrange(k as int + 1, (s + t).len() as int) =~= rest + t);
    lemma_trim_ascii_append_space(rest, t);
}

/// The value part of `name: value`, for a command name `name` (a sigil and
/// no colon or white space) and a value with no white space at either end,
/// is that value.
pub proof fn lemma_at_body_of_named_value(name: Seq<char>, value: Seq<char>)
    requires
        name.len() > 0,
        is_at_sigil(name[0]),
        forall|j: int| 0 <= j < name.len() ==> name[j] != ':' && !is_ascii_space(#[trigger] name[j]),
        value.len() > 0,
        !is_ascii_space(value[0]),
        !is_ascii_space(value.last()),
    ensures
        at_body(name + seq![':', ' '] + value) == value,
{
    let s = name + seq![':', ' '] + value;
    let k = name.len();
    // trimming the whole line changes nothing: it starts with the sigil and ends with the value
    assert(!is_ascii_space(s[0]));
    assert(trim_ascii_start(s) == s);
    assert(s.last() == value.last());
    assert(trim_ascii_end(s) == s);
    assert(trim_ascii(s) == s);
    // the first colon ends the name
    assert forall|j: int| 0 <= j < k implies s[j] != ':' by {
        assert(s[j] == name[j]);
    }
    assert(s[k as int] == ':');
    lemma_index_of(s, ':', k as int);
    // after it come a space and the value
    let rest = s.subrange(k as int + 1, s.len() as int);
    assert(rest =~= seq![' '] + value);
    assert(is_ascii_space(rest[0]));
    assert(rest.drop_first() =~= value);
    assert(trim_ascii_start(value) == value);
    assert(trim_ascii_start(rest) == value);
    assert(trim_ascii_end(value) == value);
}

/// The token of a packet domain event has no white space at either end.
proof fn lemma_event_token_trimmed(c: psn::PacketSwitchedEventReporting)
    ensures
        c.spec_token().len() > 0,
        !is_ascii_space(c.spec_token()[0]),
        !is_ascii_space(c.spec_token().last()),
{
    match c {
        psn::PacketSwitchedEventReporting::NetworkDetach => {
            reveal_strlit("NW DETACH");
        },
        psn::PacketSwitchedEventReporting::MobileStationDetach => {
            reveal_strlit("ME DETACH");
        },
        psn::PacketSwitchedEventReporting::NetworkDeactivate => {
            reveal_strlit("NW DEACT");
        },
        psn::PacketSwitchedEventReporting::MobileStationDeactivate => {
            reveal_strlit("ME DEACT");
        },
        psn::PacketSwitchedEventReporting::NetworkPDNDeactivate => {
            reveal_strlit("NW PDN DEACT");
        },
        psn::PacketSwitchedEventReporting::MobileStationPDNDeactivate => {
            reveal_strlit("ME PDN DEACT");
        },
    }
}

/// A `+CGEV: <event>` line is read as the packet domain event URC it names.
pub proof fn lemma_event_urc_round_trip(e: psn::PacketSwitchedEventReporting)
    ensures
        urc_of("+CGEV: "@ + e.spec_token()) == Some(Urc::PacketSwitchedEventReporting(e)),
{
    reveal_strlit("+CGEV: ");
    reveal_strlit("+CGEV");
    let name = "+CGEV"@;
    let value = e.spec_token();
    let s = "+CGEV: "@ + value;
    assert(s =~= name + seq![':', ' '] + value);
    lemma_event_token_trimmed(e);
    assert forall|j: int| 0 <= j < 5 implies s[j] != ':' by {
        assert(s[j] == name[j]);
    }
    lemma_index_of(s, ':', 5);
    assert(s.subrange(0, 5) =~= name);
    let rest = s.subrange(6, s.len() as int);
    assert(rest =~= seq![' '] + value);
    assert(rest.drop_first() =~= value);
    assert(trim_ascii_start(value) == value);
    assert(trim_ascii_start(rest) == value);
    assert(trim_ascii_end(value) == value);
    psn::lemma_event_token_round_trip(e);
}


/// The bytes of the text that names a packet domain event, followed by a
/// line ending (or any other ASCII white space), are read back as that
/// event by `PacketSwitchedEventReporting::parse`.
pub proof fn lemma_event_bytes_round_trip(e: psn::PacketSwitchedEventReporting, b: Seq<u8>, t: Seq<char>)
    requires
        all_ascii_space(t),
        latin1(b) == e.spec_token() + t,
    ensures
        psn::event_named(at_body(latin1(b))) == Some(e),
{
    let v = e.spec_token();
    lemma_event_token_trimmed(e);
    lemma_trim_ascii_append_space(v, t);
    assert(trim_ascii_start(v) == v);
    assert(trim_ascii_end(v) == v);
    assert(trim_ascii(v) == v);
    assert(!is_at_sigil(v[0])) by {
        match e {
            psn::PacketSwitchedEventReporting::NetworkDetach => {
                reveal_strlit("NW DETACH");
            },
            psn::PacketSwitchedEventReporting::MobileStationDetach => {
                reveal_strlit("ME DETACH");
            },
            psn::PacketSwitchedEventReporting::NetworkDeactivate => {
                reveal_strlit("NW DEACT");
            },
            psn::PacketSwitchedEventReporting::MobileStationDeactivate => {
                reveal_strlit("ME DEACT");
            },
            psn::PacketSwitchedEventReporting::NetworkPDNDeactivate => {
                reveal_strlit("NW PDN DEACT");
            },
            psn::PacketSwitchedEventReporting::MobileStationPDNDeactivate => {
                reveal_strlit("ME PDN DEACT");
            },
        }
    }
    psn::lemma_event_token_round_trip(e);
}

} // verus!
