//! The state of the driver's device.

use crate::command::control::FlowControl as LineFlowControl;
use crate::command::device_lock::PinStatusCode;
use crate::command::ip_transport_layer::HexMode;
use crate::command::network_service::OperatorSelectionMode;
use crate::config::FlowControl;
use crate::error::Error;
use crate::power::PowerState;
use crate::services::data::ContextState;
use vstd::prelude::*;

verus! {

/// How far the device has come up.
#[derive(Debug, Clone, Copy, PartialEq, Eq, Structural)]
pub enum State {
    /// Device is off
    Off,
    /// Device is able to respond to AT commands
    AtInitialized,
    /// Device is fully initialized
    FullyInitialized,
}

/// A step of setting the module up for AT commands.
#[derive(Debug, Clone, Copy, PartialEq, Eq, Structural)]
pub enum SetupStep {
    /// Report mobile termination errors with codes (`+CMEE=1`).
    ReportErrors,
    /// Drive the SIM select GPIO (GPIO 25) high.
    SelectSimGpio,
    /// Read the model identification.
    ReadModelId,
    /// Read the firmware version.
    ReadFirmwareVersion,
    /// Wait for the SIM to be ready.
    SelectSimCard,
    /// Read the ICCID of the SIM.
    ReadCcid,
    /// The DCD circuit (109) follows the carrier.
    DcdFollowsCarrier,
    /// Changes of the DTR circuit (108) are ignored.
    IgnoreDtr,
    /// Switch off the UART power saving.
    UartPowerSavingOff,
    /// Socket data travels as hexadecimal text, or not.
    SetHexMode(HexMode),
    /// Flow control on the serial line.
    SetFlowControl(LineFlowControl),
}

/// The commands that set the module up for AT commands, in order, for a
/// configuration with or without hexadecimal socket data (`hex_mode`) and
/// with the given flow control.
pub open spec fn spec_setup_steps(hex_mode: bool, flow_control: FlowControl) -> Seq<SetupStep> {
    seq![
        SetupStep::ReportErrors,
        SetupStep::SelectSimGpio,
        SetupStep::ReadModelId,
        SetupStep::ReadFirmwareVersion,
        SetupStep::SelectSimCard,
        SetupStep::ReadCcid,
        SetupStep::DcdFollowsCarrier,
        SetupStep::IgnoreDtr,
        SetupStep::UartPowerSavingOff,
        SetupStep::SetHexMode(if hex_mode { HexMode::Enabled } else { HexMode::Disabled }),
        SetupStep::SetFlowControl(
            match flow_control {
                FlowControl::RtsCts => LineFlowControl::RtsCts,
                FlowControl::NoFlowControl => LineFlowControl::Disabled,
            },
        ),
    ]
}

/// The setup follows the configuration: it sets the hexadecimal mode of
/// socket data once, enabling it exactly when the configuration asks for
/// hexadecimal data, and sets the flow control once, to RTS/CTS exactly
/// when the configuration asks for it; its other steps do not depend on the
/// configuration. Errors are reported as codes from the first step on, and
/// the SIM is selected (its GPIO first) before its ICCID is read.
pub proof fn lemma_setup_follows_configuration(hex_mode: bool, flow_control: FlowControl, hex2: bool, flow2: FlowControl)
    ensures
        ({
            let s = spec_setup_steps(hex_mode, flow_control);
            let t = spec_setup_steps(hex2, flow2);
            &&& exists|i: int| 0 <= i < s.len() && #[trigger] s[i] is SetHexMode
            &&& exists|i: int| 0 <= i < s.len() && #[trigger] s[i] is SetFlowControl
            &&& forall|i: int| 0 <= i < s.len() && #[trigger] s[i] is SetHexMode ==> (s[i]->SetHexMode_0
                == HexMode::Enabled) == hex_mode && (s[i]->SetHexMode_0 == HexMode::Disabled) == !hex_mode
            &&& forall|i: int| 0 <= i < s.len() && #[trigger] s[i] is SetFlowControl ==> (s[i]->SetFlowControl_0
                == LineFlowControl::RtsCts) == (flow_control == FlowControl::RtsCts) && (s[i]->SetFlowControl_0
                == LineFlowControl::Disabled) == (flow_control == FlowControl::NoFlowControl)
            &&& forall|i: int, j: int| 0 <= i < s.len() && 0 <= j < s.len() && #[trigger] s[i] is SetHexMode
                && #[trigger] s[j] is SetHexMode ==> i == j
            &&& forall|i: int, j: int| 0 <= i < s.len() && 0 <= j < s.len() && #[trigger] s[i] is SetFlowControl
                && #[trigger] s[j] is SetFlowControl ==> i == j
            &&& t.len() == s.len()
            &&& s[0] == SetupStep::ReportErrors
            &&& forall|i: int, j: int| 0 <= i < s.len() && 0 <= j < s.len() && #[trigger] s[i]
                == SetupStep::SelectSimGpio && #[trigger] s[j] == SetupStep::SelectSimCard ==> i < j
            &&& forall|i: int, j: int| 0 <= i < s.len() && 0 <= j < s.len() && #[trigger] s[i]
                == SetupStep::SelectSimCard && #[trigger] s[j] == SetupStep::ReadCcid ==> i < j
            &&& forall|i: int| 0 <= i < s.len() && !(#[trigger] s[i] is SetHexMode) && !(s[i] is SetFlowControl)
                ==> s[i] == t[i]
        }),
{
    let s = spec_setup_steps(hex_mode, flow_control);
    let t = spec_setup_steps(hex2, flow2);
    assert(s.len() == 11);
    assert(s[9] is SetHexMode);
    assert(s[10] is SetFlowControl);
    assert forall|i: int| 0 <= i < 9 implies !(#[trigger] s[i] is SetHexMode) && !(s[i] is SetFlowControl)
        && s[i] == t[i] by {
        assert(i == 0 || i == 1 || i == 2 || i == 3 || i == 4 || i == 5 || i == 6 || i == 7 || i == 8);
    }
    assert forall|i: int| 0 <= i < s.len() && #[trigger] s[i] == SetupStep::SelectSimGpio implies i == 1 by {
        assert(i == 0 || i == 1 || i == 2 || i == 3 || i == 4 || i == 5 || i == 6 || i == 7 || i == 8 || i == 9
            || i == 10);
    }
    assert forall|i: int| 0 <= i < s.len() && #[trigger] s[i] == SetupStep::SelectSimCard implies i == 4 by {
        assert(i == 0 || i == 1 || i == 2 || i == 3 || i == 4 || i == 5 || i == 6 || i == 7 || i == 8 || i == 9
            || i == 10);
    }
    assert forall|i: int| 0 <= i < s.len() && #[trigger] s[i] == SetupStep::ReadCcid implies i == 5 by {
        assert(i == 0 || i == 1 || i == 2 || i == 3 || i == 4 || i == 5 || i == 6 || i == 7 || i == 8 || i == 9
            || i == 10);
    }
}

/// The commands that set the module up for AT commands, in order.
pub fn setup_steps(hex_mode: bool, flow_control: FlowControl) -> (r: Vec<SetupStep>)
    ensures
        r@ == spec_setup_steps(hex_mode, flow_control),
{
    let mut r: Vec<SetupStep> = Vec::new();
    r.push(SetupStep::ReportErrors);
    r.push(SetupStep::SelectSimGpio);
    r.push(SetupStep::ReadModelId);
    r.push(SetupStep::ReadFirmwareVersion);
    r.push(SetupStep::SelectSimCard);
    r.push(SetupStep::ReadCcid);
    r.push(SetupStep::DcdFollowsCarrier);
    r.push(SetupStep::IgnoreDtr);
    r.push(SetupStep::UartPowerSavingOff);
    r.push(SetupStep::SetHexMode(if hex_mode { HexMode::Enabled } else { HexMode::Disabled }));
    r.push(
        SetupStep::SetFlowControl(
            match flow_control {
                FlowControl::RtsCts => LineFlowControl::RtsCts,
                FlowControl::NoFlowControl => LineFlowControl::Disabled,
            },
        ),
    );
    assert(r@ =~= spec_setup_steps(hex_mode, flow_control));
    r
}

/// How the initialization of the device starts.
#[derive(Debug, Clone, Copy, PartialEq, Eq, Structural)]
pub enum InitStart {
    /// The module is not known to be on: power it on (or reset it), forget
    /// the device state, then set it up.
    PowerOn,
    /// The device is already fully initialized: nothing to do.
    AlreadyInitialized,
    /// The module is on but not fully initialized: set it up.
    Configure,
}

/// How the initialization starts for a module in power state `power` and a
/// device in state `state`.
pub fn initialize_start(power: PowerState, state: State) -> (r: InitStart)
    ensures
        power != PowerState::On ==> r == InitStart::PowerOn,
        power == PowerState::On && state == State::FullyInitialized ==> r == InitStart::AlreadyInitialized,
        power == PowerState::On && state != State::FullyInitialized ==> r == InitStart::Configure,
{
    if power != PowerState::On {
        InitStart::PowerOn
    } else if state == State::FullyInitialized {
        InitStart::AlreadyInitialized
    } else {
        InitStart::Configure
    }
}

/// Whether the operator must be selected automatically (`+COPS=0`): only
/// when the module is in neither automatic nor manual selection, so that a
/// registered module does not reselect its network.
pub fn needs_operator_selection(mode: OperatorSelectionMode) -> (r: bool)
    ensures
        r == !(mode == OperatorSelectionMode::Automatic || mode == OperatorSelectionMode::Manual),
{
    !(mode == OperatorSelectionMode::Automatic || mode == OperatorSelectionMode::Manual)
}

/// The outcome of a turn of the device's state machine: whether the device
/// is ready (connected and fully initialized), and the state of the data
/// context, which falls back to activating when the device is not ready
/// (a safeguard against a missed URC).
pub fn spin_outcome(connected: bool, state: State, ctx: ContextState) -> (r: (bool, ContextState))
    ensures
        r.0 == (connected && state == State::FullyInitialized),
        r.1 == (if !r.0 && ctx == ContextState::Active {
            ContextState::Activating
        } else {
            ctx
        }),
{
    if connected && state == State::FullyInitialized {
        (true, ctx)
    } else if ctx == ContextState::Active {
        (false, ContextState::Activating)
    } else {
        (false, ctx)
    }
}

/// Whether an AT command may be sent by the user: not before the device
/// was set up (`Err(Error::Uninitialized)`).
pub fn check_send_at(state: State) -> (r: Result<(), Error>)
    ensures
        state == State::Off ==> r == Err::<(), Error>(Error::Uninitialized),
        state != State::Off ==> r is Ok,
{
    match state {
        State::Off => Err(Error::Uninitialized),
        _ => Ok(()),
    }
}

/// How many times the SIM state is read before the module is cycled
/// through minimum functionality.
pub const SIM_ATTEMPTS: u8 = 2;

/// Whether the PIN state that the module answered (if it answered) lets
/// the SIM be used.
pub fn sim_ready(code: Option<PinStatusCode>) -> (r: bool)
    ensures
        r == (code == Some(PinStatusCode::Ready)),
{
    match code {
        Some(PinStatusCode::Ready) => true,
        _ => false,
    }
}


/// How far setting the module up for AT commands has come.
#[derive(Debug, Clone, Copy, PartialEq, Eq, Structural)]
pub enum SetupState {
    /// Nothing done yet.
    Start,
    /// The module is being powered on.
    PoweringOn,
    /// The module is asked whether it answers AT commands.
    CheckingAlive,
    /// It did not answer: it is being reset by its reset pin.
    HardResetting,
    /// The hard reset failed: it is being powered off by its pins.
    HardPoweringOff,
    /// The setup command with this index is being sent.
    Step(usize),
    /// The module is set up for AT commands.
    Done,
    /// The setup stopped.
    Failed,
}

/// What came of the last action of the setup.
#[derive(Debug, Clone, Copy, PartialEq, Eq, Structural)]
pub enum SetupEvent {
    Succeeded,
    Failed,
}

/// What the setup does next.
#[derive(Debug, Clone, Copy, PartialEq, Eq, Structural)]
pub enum SetupAction {
    /// Set the data context back to `Setup`, prune the sockets and power
    /// the module on.
    PrepareAndPowerOn,
    /// Ask whether the module answers AT commands.
    CheckAlive,
    /// Reset the module by its reset pin.
    HardReset,
    /// Power the module off by its pins, and wait a second.
    HardPowerOffAndWait,
    /// Send this setup command.
    Send(SetupStep),
    /// The device answers AT commands: note it (`State::AtInitialized`).
    MarkAtInitialized,
    /// Stop with `Err(BaudDetection)`: the module never answered.
    FailBaudDetection,
    /// Stop with the error of the last action.
    FailWithLastError,
    /// Nothing more to do.
    Idle,
}

/// The next state and action of the setup with the commands `steps`, in
/// state `state`, after the last action ended as `event`. The setup
/// prepares and powers the module on; a power failure stops it. A module
/// that does not answer is reset hard and, if that fails, powered off
/// hard; either way the setup stops with `BaudDetection` (or with the error
/// of the power-off). Otherwise the commands are sent in order, the first
/// one that fails stops the setup, and only once all succeeded is the
/// device marked `AtInitialized`.
pub open spec fn spec_setup_step(steps: Seq<SetupStep>, state: SetupState, event: SetupEvent) -> (SetupState, SetupAction) {
    let first = if steps.len() == 0 {
        (SetupState::Done, SetupAction::MarkAtInitialized)
    } else {
        (SetupState::Step(0), SetupAction::Send(steps[0]))
    };
    match state {
        SetupState::Start => (SetupState::PoweringOn, SetupAction::PrepareAndPowerOn),
        SetupState::PoweringOn => match event {
            SetupEvent::Succeeded => (SetupState::CheckingAlive, SetupAction::CheckAlive),
            SetupEvent::Failed => (SetupState::Failed, SetupAction::FailWithLastError),
        },
        SetupState::CheckingAlive => match event {
            SetupEvent::Succeeded => first,
            SetupEvent::Failed => (SetupState::HardResetting, SetupAction::HardReset),
        },
        SetupState::HardResetting => match event {
            SetupEvent::Succeeded => (SetupState::Failed, SetupAction::FailBaudDetection),
            SetupEvent::Failed => (SetupState::HardPoweringOff, SetupAction::HardPowerOffAndWait),
        },
        SetupState::HardPoweringOff => match event {
            SetupEvent::Succeeded => (SetupState::Failed, SetupAction::FailBaudDetection),
            SetupEvent::Failed => (SetupState::Failed, SetupAction::FailWithLastError),
        },
        SetupState::Step(i) => match event {
            SetupEvent::Succeeded => if i + 1 < steps.len() {
                (SetupState::Step((i + 1) as usize), SetupAction::Send(steps[i + 1]))
            } else {
                (SetupState::Done, SetupAction::MarkAtInitialized)
            },
            SetupEvent::Failed => (SetupState::Failed, SetupAction::FailWithLastError),
        },
        SetupState::Done => (SetupState::Done, SetupAction::Idle),
        SetupState::Failed => (SetupState::Failed, SetupAction::Idle),
    }
}

/// The next state and action of the setup (see [spec_setup_step]).
pub fn setup_step(steps: &[SetupStep], state: SetupState, event: SetupEvent) -> (r: (SetupState, SetupAction))
    ensures
        r == spec_setup_step(steps@, state, event),
{
    match state {
        SetupState::Start => (SetupState::PoweringOn, SetupAction::PrepareAndPowerOn),
        SetupState::PoweringOn => match event {
            SetupEvent::Succeeded => (SetupState::CheckingAlive, SetupAction::CheckAlive),
            SetupEvent::Failed => (SetupState::Failed, SetupAction::FailWithLastError),
        },
        SetupState::CheckingAlive => match event {
            SetupEvent::Succeeded => if steps.len() == 0 {
                (SetupState::Done, SetupAction::MarkAtInitialized)
            } else {
                (SetupState::Step(0), SetupAction::Send(steps[0]))
            },
            SetupEvent::Failed => (SetupState::HardResetting, SetupAction::HardReset),
        },
        SetupState::HardResetting => match event {
            SetupEvent::Succeeded => (SetupState::Failed, SetupAction::FailBaudDetection),
            SetupEvent::Failed => (SetupState::HardPoweringOff, SetupAction::HardPowerOffAndWait),
        },
        SetupState::HardPoweringOff => match event {
            SetupEvent::Succeeded => (SetupState::Failed, SetupAction::FailBaudDetection),
            SetupEvent::Failed => (SetupState::Failed, SetupAction::FailWithLastError),
        },
        SetupState::Step(i) => match event {
            SetupEvent::Succeeded => if i < steps.len() && steps.len() - i > 1 {
                (SetupState::Step(i + 1), SetupAction::Send(steps[i + 1]))
            } else {
                (SetupState::Done, SetupAction::MarkAtInitialized)
            },
            SetupEvent::Failed => (SetupState::Failed, SetupAction::FailWithLastError),
        },
        SetupState::Done => (SetupState::Done, SetupAction::Idle),
        SetupState::Failed => (SetupState::Failed, SetupAction::Idle),
    }
}

/// How the setup goes on: it starts by preparing and powering the module
/// on; a module that does not answer is reset hard, and the setup then
/// stops, never sending a command; the commands are sent one after the
/// other in their order, starting with the first; the first failed command
/// stops the setup with its error; a stopped or finished setup stays so.
/// (The commands are a list, so there are at most `usize::MAX` of them.)
pub proof fn lemma_setup_progress(steps: Seq<SetupStep>, state: SetupState, event: SetupEvent)
    requires
        steps.len() <= usize::MAX,
    ensures
        ({
            let (next, action) = spec_setup_step(steps, state, event);
            &&& state == SetupState::Start ==> action == SetupAction::PrepareAndPowerOn
            &&& state == SetupState::CheckingAlive && event == SetupEvent::Failed ==> action
                == SetupAction::HardReset
            &&& state == SetupState::CheckingAlive && event == SetupEvent::Succeeded && steps.len() > 0
                ==> next == SetupState::Step(0) && action == SetupAction::Send(steps[0])
            &&& (state == SetupState::HardResetting || state == SetupState::HardPoweringOff) ==> !(action is Send)
                && action != SetupAction::MarkAtInitialized && (next == SetupState::Failed || next
                == SetupState::HardPoweringOff)
            &&& state == SetupState::HardResetting && event == SetupEvent::Succeeded ==> action
                == SetupAction::FailBaudDetection
            &&& state is Step && event == SetupEvent::Failed ==> next == SetupState::Failed && action
                == SetupAction::FailWithLastError
            &&& state is Step && event == SetupEvent::Succeeded && state->Step_0 + 1 < steps.len() ==> next
                == SetupState::Step((state->Step_0 + 1) as usize) && action == SetupAction::Send(
                steps[state->Step_0 + 1])
            &&& action is Send ==> event == SetupEvent::Succeeded && next is Step && action->Send_0
                == steps[next->Step_0 as int] && next->Step_0 < steps.len()
            &&& state == SetupState::Done ==> next == SetupState::Done && action == SetupAction::Idle
            &&& state == SetupState::Failed ==> next == SetupState::Failed && action == SetupAction::Idle
        }),
{
}

/// The device is marked `AtInitialized` only after the last setup command
/// succeeded (or the module answered and there are no commands).
pub proof fn lemma_initialized_only_after_every_step(steps: Seq<SetupStep>, state: SetupState, event: SetupEvent)
    requires
        spec_setup_step(steps, state, event).1 == SetupAction::MarkAtInitialized,
    ensures
        event == SetupEvent::Succeeded,
        state == SetupState::CheckingAlive ==> steps.len() == 0,
        state is Step ==> state->Step_0 + 1 >= steps.len(),
        state == SetupState::CheckingAlive || state is Step,
{
}

} // verus!
