//! Defining and activating the PDP context that carries the data
//! connection: which commands to send, given what the module answered.

use super::apn::{APNInfo, Apn};
use super::ContextState;
use crate::command::psn::{AuthenticationType, GPRSAttachedState, PDPContextStatus, PacketSwitchedParam};
use crate::command::{at_body, body_of, num_field, number_field};
use crate::text::{chars_of_bytes, fields, latin1, lines, split_fields, split_lines, trim_ascii, trimmed_ascii};
use crate::socket::endpoint::IpAddr;
use crate::network::ContextId;
use vstd::prelude::*;

verus! {

/// The state of one PDP context, as `+CGACT?` reports it.
#[derive(Debug, Clone, Copy, PartialEq, Eq, Structural)]
pub struct PdpContextState {
    pub cid: ContextId,
    pub activated: bool,
}

/// Whether the context `cid` is activated: as the first report on `cid`
/// says, or not when no report names it.
pub open spec fn spec_context_activated(states: Seq<PdpContextState>, cid: ContextId) -> bool
    decreases states.len(),
{
    if states.len() == 0 {
        false
    } else if states[0].cid == cid {
        states[0].activated
    } else {
        spec_context_activated(states.drop_first(), cid)
    }
}

/// Whether the context `cid` is activated, as the reports `states` say.
pub fn context_activated(states: &[PdpContextState], cid: ContextId) -> (r: bool)
    ensures
        r == spec_context_activated(states@, cid),
{
    let mut i: usize = 0;
    assert(states@.subrange(0, states@.len() as int) =~= states@);
    while i < states.len()
        invariant
            0 <= i <= states@.len(),
            spec_context_activated(states@, cid) == spec_context_activated(
                states@.subrange(i as int, states@.len() as int),
                cid,
            ),
        decreases states@.len() - i,
    {
        let ghost rest = states@.subrange(i as int, states@.len() as int);
        if states[i].cid == cid {
            return states[i].activated;
        }
        assert(rest.drop_first() =~= states@.subrange(i + 1, states@.len() as int));
        i = i + 1;
    }
    false
}

/// The state of a PDP context that the line `line` (`+CGACT: <cid>,<status>`)
/// reports, if any: 2 comma separated decimal fields, the context and a
/// status.
pub open spec fn context_state_of(line: Seq<char>) -> Option<PdpContextState> {
    let body = at_body(line);
    if fields(body).len() == 2 {
        match (num_field(body, 0, 255), num_field(body, 1, 255)) {
            (Some(c), Some(st)) => match PDPContextStatus::spec_from_value(st as u8) {
                Some(status) => Some(
                    PdpContextState { cid: ContextId(c as u8), activated: status == PDPContextStatus::Activated },
                ),
                None => None,
            },
            _ => None,
        }
    } else {
        None
    }
}

/// The states that the lines `ls` report, in their order, when each line
/// that is not blank reports one; blank lines are passed over.
pub open spec fn context_states_of(ls: Seq<Seq<char>>) -> Option<Seq<PdpContextState>>
    decreases ls.len(),
{
    if ls.len() == 0 {
        Some(Seq::empty())
    } else {
        match context_states_of(ls.drop_last()) {
            Some(prev) => if trim_ascii(ls.last()).len() == 0 {
                Some(prev)
            } else {
                match context_state_of(ls.last()) {
                    Some(st) => Some(prev.push(st)),
                    None => None,
                }
            },
            None => None,
        }
    }
}

proof fn lemma_context_states_fail_extends(ls: Seq<Seq<char>>, j: int)
    requires
        0 <= j <= ls.len(),
        context_states_of(ls.subrange(0, j)) is None,
    ensures
        context_states_of(ls) is None,
    decreases ls.len() - j,
{
    if j < ls.len() {
        let next = ls.subrange(0, j + 1);
        assert(next.drop_last() =~= ls.subrange(0, j));
        lemma_context_states_fail_extends(ls, j + 1);
    } else {
        assert(ls.subrange(0, j) =~= ls);
    }
}

fn read_context_state(line: &[char]) -> (r: Option<PdpContextState>)
    ensures
        r == context_state_of(line@),
{
    let body = body_of(line);
    let f = split_fields(body.as_slice());
    if f.len() != 2 {
        return None;
    }
    let c = match number_field(&f, 0, 255) {
        Some(v) => v,
        None => {
            return None;
        },
    };
    let st = match number_field(&f, 1, 255) {
        Some(v) => v,
        None => {
            return None;
        },
    };
    match PDPContextStatus::from_value(st as u8) {
        Some(status) => Some(
            PdpContextState { cid: ContextId(c as u8), activated: status == PDPContextStatus::Activated },
        ),
        None => None,
    }
}

/// The states of the PDP contexts that the answer `resp` to `+CGACT?`
/// reports, one per line, when each line that is not blank reports one.
pub fn parse_context_states(resp: &[u8]) -> (r: Option<Vec<PdpContextState>>)
    ensures
        match context_states_of(lines(latin1(resp@))) {
            Some(v) => r matches Some(x) && x@ == v,
            None => r is None,
        },
{
    let c = chars_of_bytes(resp);
    let ls = split_lines(c.as_slice());
    let ghost all = lines(c@);
    let mut r: Vec<PdpContextState> = Vec::new();
    let mut i: usize = 0;
    while i < ls.len()
        invariant
            0 <= i <= ls@.len(),
            all == lines(latin1(resp@)),
            ls@.len() == all.len(),
            forall|k: int| 0 <= k < ls@.len() ==> #[trigger] ls@[k]@ == all[k],
            context_states_of(all.subrange(0, i as int)) == Some(r@),
        decreases ls@.len() - i,
    {
        let ghost part = all.subrange(0, i + 1);
        proof {
            assert(part.drop_last() =~= all.subrange(0, i as int));
            assert(part.last() == ls@[i as int]@);
        }
        let t = trimmed_ascii(ls[i].as_slice());
        if t.len() > 0 {
            match read_context_state(ls[i].as_slice()) {
                Some(st) => {
                    r.push(st);
                },
                None => {
                    proof {
                        assert(context_state_of(part.last()) is None);
                        assert(trim_ascii(part.last()).len() > 0);
                        assert(context_states_of(part) is None);
                        lemma_context_states_fail_extends(all, i + 1);
                    }
                    return None;
                },
            }
        }
        i = i + 1;
    }
    proof {
        assert(all.subrange(0, all.len() as int) =~= all);
    }
    Some(r)
}

/// A command of the context activation through 3GPP commands.
#[derive(Debug, Clone, Copy, PartialEq, Eq, Structural)]
pub enum ActivationCommand {
    /// Read the states of the PDP contexts (`+CGACT?`).
    ReadContextStates,
    /// Read which context the PSD profile maps to (`+UPSD=<profile>,100`).
    ReadProfileMapping,
    /// Map the PSD profile to the context, and read the profile status.
    MapProfile,
    /// Read whether the PSD profile is active (`+UPSND=<profile>,8`).
    ReadProfileStatus,
    /// Activate the PSD profile (`+UPSDA=<profile>,3`).
    ActivateProfile,
    /// Activate the PDP context (`+CGACT=1,<cid>`).
    ActivateContext,
}

/// What the module answered so far during the context activation.
#[derive(Debug, Clone, Copy, PartialEq, Eq, Structural)]
pub struct ActivationProgress {
    /// Whether the context is activated, once the states were read.
    pub activated: Option<bool>,
    /// The context that the profile maps to (`None` inside when the answer
    /// named none), once read.
    pub mapped_context: Option<Option<ContextId>>,
    /// Whether the profile was mapped to the context.
    pub remapped: bool,
    /// The status of the profile (0: inactive), once read.
    pub profile_status: Option<u8>,
    /// Whether the activation of the profile was sent.
    pub profile_activation_sent: bool,
    /// Whether the activation of the context was sent.
    pub context_activation_sent: bool,
}

/// The next step of the context activation.
#[derive(Debug, Clone, Copy, PartialEq, Eq, Structural)]
pub enum ActivationStep {
    /// The context is active: nothing more to do.
    Done,
    /// Send this command and note the answer.
    Send(ActivationCommand),
    /// The activation of the context was asked for; try again later.
    WouldBlock,
}

impl ActivationProgress {
    /// Nothing answered yet.
    pub fn new() -> (r: Self)
        ensures
            r.activated is None,
            r.mapped_context is None,
            !r.remapped,
            r.profile_status is None,
            !r.profile_activation_sent,
            !r.context_activation_sent,
    {
        ActivationProgress {
            activated: None,
            mapped_context: None,
            remapped: false,
            profile_status: None,
            profile_activation_sent: false,
            context_activation_sent: false,
        }
    }
}

/// The next step of the activation of the context `cid`, when the context
/// is in state `ctx` and the module answered `p` so far: nothing when it is
/// active; first the states of the contexts; for an inactive context, its
/// activation, after which the caller waits; for an active one, the
/// profile's mapping, a new mapping when it names another context, the
/// profile status, and the profile's activation when it is inactive.
pub open spec fn spec_activation_step(ctx: ContextState, cid: ContextId, p: ActivationProgress) -> ActivationStep {
    if ctx == ContextState::Active {
        ActivationStep::Done
    } else {
        match p.activated {
            None => ActivationStep::Send(ActivationCommand::ReadContextStates),
            Some(false) => if p.context_activation_sent {
                ActivationStep::WouldBlock
            } else {
                ActivationStep::Send(ActivationCommand::ActivateContext)
            },
            Some(true) => match p.mapped_context {
                None => ActivationStep::Send(ActivationCommand::ReadProfileMapping),
                Some(mapped) => if (mapped matches Some(c) && c != cid) && !p.remapped {
                    ActivationStep::Send(ActivationCommand::MapProfile)
                } else {
                    match p.profile_status {
                        None => ActivationStep::Send(ActivationCommand::ReadProfileStatus),
                        Some(tag) => if tag == 0 && !p.profile_activation_sent {
                            ActivationStep::Send(ActivationCommand::ActivateProfile)
                        } else {
                            ActivationStep::Done
                        },
                    }
                },
            },
        }
    }
}

/// What each step of the activation of the context `cid` is taken for: an
/// active context needs nothing; each state is read once, before what
/// depends on it (the states of the contexts, then the profile's mapping,
/// then the profile status); the context is activated only when the
/// module reported it inactive and its activation was not sent yet; the
/// profile is mapped anew only when the module reported it mapped to
/// another context; the profile is activated only when the context is
/// active, the profile is mapped to it (or was mapped anew), the module
/// reported the profile inactive (status 0) and its activation was not
/// sent yet. Once the profile is reported active (any other status) on an
/// activated context that it maps to, the activation is done.
pub proof fn lemma_activation_steps(ctx: ContextState, cid: ContextId, p: ActivationProgress)
    ensures
        ({
            let r = spec_activation_step(ctx, cid, p);
            let mapped_here = p.mapped_context matches Some(m) && (m == Some(cid) || m is None || p.remapped);
            &&& ctx == ContextState::Active ==> r == ActivationStep::Done
            &&& r == ActivationStep::Send(ActivationCommand::ReadContextStates) <==> ctx != ContextState::Active
                && p.activated is None
            &&& r == ActivationStep::WouldBlock <==> ctx != ContextState::Active && p.activated == Some(false)
                && p.context_activation_sent
            &&& r == ActivationStep::Send(ActivationCommand::ReadProfileMapping) <==> ctx != ContextState::Active
                && p.activated == Some(true) && p.mapped_context is None
            &&& r == ActivationStep::Send(ActivationCommand::ReadProfileStatus) <==> ctx != ContextState::Active
                && p.activated == Some(true) && mapped_here && p.profile_status is None
            &&& r == ActivationStep::Send(ActivationCommand::ActivateContext) <==> ctx != ContextState::Active
                && p.activated == Some(false) && !p.context_activation_sent
            &&& r == ActivationStep::Send(ActivationCommand::MapProfile) <==> ctx != ContextState::Active
                && p.activated == Some(true) && (p.mapped_context matches Some(Some(c)) && c != cid)
                && !p.remapped
            &&& r == ActivationStep::Send(ActivationCommand::ActivateProfile) <==> ctx != ContextState::Active
                && p.activated == Some(true) && mapped_here && p.profile_status == Some(0u8)
                && !p.profile_activation_sent
            &&& p.activated == Some(true) && mapped_here && (p.profile_status matches Some(tag) && tag != 0)
                ==> r == ActivationStep::Done
            &&& r == ActivationStep::Done ==> ctx == ContextState::Active || (p.activated == Some(true)
                && mapped_here && p.profile_status is Some && (p.profile_status != Some(0u8)
                || p.profile_activation_sent))
        }),
{
}

/// The next step of the activation of the context `cid`.
pub fn activation_step(ctx: ContextState, cid: ContextId, p: &ActivationProgress) -> (r: ActivationStep)
    ensures
        r == spec_activation_step(ctx, cid, *p),
{
    if ctx == ContextState::Active {
        return ActivationStep::Done;
    }
    match p.activated {
        None => ActivationStep::Send(ActivationCommand::ReadContextStates),
        Some(false) => if p.context_activation_sent {
            ActivationStep::WouldBlock
        } else {
            ActivationStep::Send(ActivationCommand::ActivateContext)
        },
        Some(true) => match p.mapped_context {
            None => ActivationStep::Send(ActivationCommand::ReadProfileMapping),
            Some(mapped) => {
                let other = match mapped {
                    Some(c) => c != cid,
                    None => false,
                };
                if other && !p.remapped {
                    ActivationStep::Send(ActivationCommand::MapProfile)
                } else {
                    match p.profile_status {
                        None => ActivationStep::Send(ActivationCommand::ReadProfileStatus),
                        Some(tag) => if tag == 0 && !p.profile_activation_sent {
                            ActivationStep::Send(ActivationCommand::ActivateProfile)
                        } else {
                            ActivationStep::Done
                        },
                    }
                }
            },
        },
    }
}

/// A step of the definition of the PDP context.
#[derive(Debug, Clone, Copy, PartialEq, Eq)]
pub enum DefinitionStep<'a> {
    /// Set the module to minimum functionality, without a reset.
    MinimumFunctionality,
    /// Define the context with the access point name (`+CGDCONT`).
    DefineContext(&'a str),
    /// Set the authentication of the context: automatic, with these
    /// credentials (`+UAUTHREQ`).
    Authenticate(&'a str, &'a str),
    /// Set the module to full functionality, without a reset.
    FullFunctionality,
}

/// The text of an optional credential: empty when there is none.
pub open spec fn credential<'a>(c: Option<&'a str>) -> Seq<char> {
    match c {
        Some(s) => s@,
        None => Seq::empty(),
    }
}

fn credential_of<'a>(c: Option<&'a str>) -> (r: &'a str)
    ensures
        r@ == credential(c),
        c matches Some(s) ==> r == s,
{
    match c {
        Some(s) => s,
        None => {
            proof {
                reveal_strlit("");
            }
            ""
        },
    }
}

/// The steps that define the PDP context, when it is still being set up
/// (`ctx` is `Setup`; otherwise none): minimum functionality, the context's
/// access point name when one is given, its authentication (an absent
/// credential is empty), and full functionality again. Afterwards the
/// context is activating.
pub fn context_definition<'a>(ctx: ContextState, apn_info: &APNInfo<'a>) -> (r: Vec<DefinitionStep<'a>>)
    ensures
        ctx != ContextState::Setup ==> r@.len() == 0,
        ctx == ContextState::Setup ==> {
            let k: int = if apn_info.apn is Given { 1 } else { 0 };
            &&& r@.len() == 3 + k
            &&& r@[0] == DefinitionStep::MinimumFunctionality
            &&& (apn_info.apn matches Apn::Given(a) ==> r@[1] == DefinitionStep::DefineContext(a))
            &&& r@[1 + k] matches DefinitionStep::Authenticate(u, p) && u@ == credential(apn_info.user_name)
                && p@ == credential(apn_info.password)
            &&& (apn_info.user_name matches Some(u) ==> r@[1 + k]->Authenticate_0 == u)
            &&& (apn_info.password matches Some(p) ==> r@[1 + k]->Authenticate_1 == p)
            &&& r@[2 + k] == DefinitionStep::FullFunctionality
        },
{
    let mut r: Vec<DefinitionStep<'a>> = Vec::new();
    if ctx != ContextState::Setup {
        return r;
    }
    r.push(DefinitionStep::MinimumFunctionality);
    match apn_info.apn {
        Apn::Given(a) => {
            r.push(DefinitionStep::DefineContext(a));
        },
        Apn::Automatic => {},
    }
    let u = credential_of(apn_info.user_name);
    let p = credential_of(apn_info.password);
    r.push(DefinitionStep::Authenticate(u, p));
    r.push(DefinitionStep::FullFunctionality);
    r
}

/// The parameters of the PSD profile for `apn_info`, in the order they are
/// written (`+UPSD`) when the context is activated that way: the access
/// point name, user name and password that are given, then the IP address
/// `0.0.0.0` (assigned on activation) and automatic authentication.
pub fn profile_settings<'a>(apn_info: &APNInfo<'a>) -> (r: Vec<PacketSwitchedParam>)
    ensures
        ({
            let a: int = if apn_info.apn is Given { 1 } else { 0 };
            let u: int = if apn_info.user_name is Some { 1 } else { 0 };
            let p: int = if apn_info.password is Some { 1 } else { 0 };
            &&& r@.len() == a + u + p + 2
            &&& (apn_info.apn matches Apn::Given(s) ==> r@[0] matches PacketSwitchedParam::APN(t) && t@ == s@)
            &&& (apn_info.user_name matches Some(s) ==> r@[a] matches PacketSwitchedParam::Username(t) && t@ == s@)
            &&& (apn_info.password matches Some(s) ==> r@[a + u] matches PacketSwitchedParam::Password(t) && t@ == s@)
            &&& r@[a + u + p] == PacketSwitchedParam::IPAddress(IpAddr::V4([0u8, 0u8, 0u8, 0u8]))
            &&& r@[a + u + p + 1] == PacketSwitchedParam::Authentication(AuthenticationType::Auto)
        }),
{
    let mut r: Vec<PacketSwitchedParam> = Vec::new();
    match apn_info.apn {
        Apn::Given(s) => {
            r.push(PacketSwitchedParam::APN(s.to_owned()));
        },
        Apn::Automatic => {},
    }
    match apn_info.user_name {
        Some(s) => {
            r.push(PacketSwitchedParam::Username(s.to_owned()));
        },
        None => {},
    }
    match apn_info.password {
        Some(s) => {
            r.push(PacketSwitchedParam::Password(s.to_owned()));
        },
        None => {},
    }
    r.push(PacketSwitchedParam::IPAddress(IpAddr::V4([0u8, 0u8, 0u8, 0u8])));
    r.push(PacketSwitchedParam::Authentication(AuthenticationType::Auto));
    r
}

/// Whether the PSD profile must be configured and activated (through
/// `+UPSD` commands): when the context is not active yet and the profile
/// status reads inactive (0).
pub fn profile_needs_activation(ctx: ContextState, profile_status: u8) -> (r: bool)
    ensures
        r == (ctx != ContextState::Active && profile_status == 0),
{
    ctx != ContextState::Active && profile_status == 0
}

/// How many times the GPRS attach state is read before the attach is given
/// up for now.
pub const ATTACH_ATTEMPTS: u8 = 10;

/// What follows a read of the GPRS attach state.
#[derive(Debug, Clone, Copy, PartialEq, Eq, Structural)]
pub enum AttachStep {
    /// The module is attached.
    Attached,
    /// Wait a second and read again.
    Retry,
    /// Wait a second and give up for now (the caller tries again later).
    GiveUp,
}

/// What follows reading the attach state `state` on the read numbered
/// `attempt` (from 0).
pub fn attach_step(state: GPRSAttachedState, attempt: u8) -> (r: AttachStep)
    ensures
        state == GPRSAttachedState::Attached ==> r == AttachStep::Attached,
        state != GPRSAttachedState::Attached && attempt + 1 < ATTACH_ATTEMPTS ==> r == AttachStep::Retry,
        state != GPRSAttachedState::Attached && attempt + 1 >= ATTACH_ATTEMPTS ==> r == AttachStep::GiveUp,
{
    if state == GPRSAttachedState::Attached {
        AttachStep::Attached
    } else if attempt < ATTACH_ATTEMPTS - 1 {
        AttachStep::Retry
    } else {
        AttachStep::GiveUp
    }
}

} // verus!
