//! Lighting the emitter for one stream, if a control is configured.
//!
//! Three kinds of control reach the camera, and they are not trusted equally. An override is a
//! person naming a control: its unit may be a vendor's, but the camera has to publish it, and it is
//! decided at most once per control and process. A control that setup recorded is applied by
//! deriving its value anew from the camera. The built-in table carries a payload that was validated
//! against that exact product. All of them stand back while somebody else holds the camera or an
//! earlier change is unresolved.
use vstd::prelude::*;
use crate::ir_emitter::apply::{override_is_published, unpublished, Application, ApplyResult};
use crate::ir_emitter::capture_write::{
    replies_to, Applied, CaptureReply, CaptureRequest, CaptureWrite, Hold,
};
use crate::ir_emitter::consumers::{ConsumerScan, ScanView};
use crate::ir_emitter::control::{
    built_in, control_is_documented, documented, known_control, override_setting, recorded,
    recorded_control, setting, ControlView, EmitterControl, OverrideSetting, SettingView, Variable,
};
use crate::ir_emitter::descriptor::CameraIdentity;
use crate::ir_emitter::memo::{OverrideKey, Reuse};
use crate::ir_emitter::recovery::{OutcomeView, RecoveryOutcome};
use crate::ir_emitter::recovery_pass::{
    recovery_answers, RecoveryPhase, RecoveryReply, RecoveryRequest,
};
use crate::ir_emitter::stream_mode::{ModeView, StreamMode};
use crate::ir_emitter::xu::CameraRequest;
use crate::text::copy_bytes;

verus! {

// ---------------------------------------------------------------------------------------------
// The plan
// ---------------------------------------------------------------------------------------------

/// What a capture decided to send the camera. `Nothing` means no request at all.
#[derive(Clone, Debug, PartialEq, Eq)]
pub enum CaptureAction {
    Nothing,
    Override(EmitterControl),
    DeviceDefault { unit: u8, selector: u8 },
    KnownPayload(EmitterControl),
}

/// What a capture decided to send the camera, as values.
pub enum ActionView {
    Nothing,
    Override(ControlView),
    DeviceDefault { unit: u8, selector: u8 },
    KnownPayload(ControlView),
}

impl View for CaptureAction {
    type V = ActionView;

    open spec fn view(&self) -> ActionView {
        match *self {
            CaptureAction::Nothing => ActionView::Nothing,
            CaptureAction::Override(ctrl) => ActionView::Override(ctrl@),
            CaptureAction::DeviceDefault { unit, selector } => ActionView::DeviceDefault {
                unit,
                selector,
            },
            CaptureAction::KnownPayload(ctrl) => ActionView::KnownPayload(ctrl@),
        }
    }
}

impl ActionView {
    /// The control that an action writes to.
    pub open spec fn target(self) -> Option<(u8, u8)> {
        match self {
            ActionView::Nothing => None,
            ActionView::Override(c) => Some((c.unit, c.selector)),
            ActionView::KnownPayload(c) => Some((c.unit, c.selector)),
            ActionView::DeviceDefault { unit, selector } => Some((unit, selector)),
        }
    }
}

impl CaptureAction {
    /// Which control this action will write to, or `None` when it writes nothing.
    #[must_use]
    pub fn coordinates(&self) -> (r: Option<(u8, u8)>)
        ensures
            r == self@.target(),
    {
        match self {
            CaptureAction::Nothing => None,
            CaptureAction::Override(c) => Some((c.unit, c.selector)),
            CaptureAction::KnownPayload(c) => Some((c.unit, c.selector)),
            CaptureAction::DeviceDefault { unit, selector } => Some((*unit, *selector)),
        }
    }
}

/// A control, or none, as a value.
pub open spec fn control_view(ctrl: Option<EmitterControl>) -> Option<ControlView> {
    match ctrl {
        Some(ctrl) => Some(ctrl@),
        None => None,
    }
}

/// The control of the built-in table, where the camera documents it.
pub open spec fn built_in_action(id: CameraIdentity) -> ActionView {
    match built_in(id.vid, id.pid) {
        Some(ctrl) => if documented(id, ctrl.unit, ctrl.selector) {
            ActionView::KnownPayload(ctrl)
        } else {
            ActionView::Nothing
        },
        None => ActionView::Nothing,
    }
}

/// Which control, if any, a capture should apply: none while the recovery pass forbids it, and
/// otherwise the override, the recorded control or the built-in one, of which the last two have to
/// be documented by the camera.
pub open spec fn planned(
    recovery: OutcomeView,
    wanted: Option<ControlView>,
    id: CameraIdentity,
    conf: Option<Seq<char>>,
) -> ActionView {
    if !recovery.permits_write() {
        ActionView::Nothing
    } else if wanted is Some {
        ActionView::Override(wanted->0)
    } else {
        match conf {
            Some(text) => match recorded(text, id.usb_text()) {
                Some((unit, selector)) => if documented(id, unit, selector) {
                    ActionView::DeviceDefault { unit, selector }
                } else {
                    built_in_action(id)
                },
                None => built_in_action(id),
            },
            None => built_in_action(id),
        }
    }
}

/// A text, or none, as a value.
pub open spec fn conf_view(conf: Option<&str>) -> Option<Seq<char>> {
    match conf {
        Some(text) => Some(text@),
        None => None,
    }
}

/// Which control, if any, a capture should apply to this camera. `conf` is the record of a setup
/// run, where it can be read.
#[must_use]
pub fn planned_action(
    recovery: &RecoveryOutcome,
    wanted: Option<EmitterControl>,
    id: &CameraIdentity,
    conf: Option<&str>,
) -> (r: CaptureAction)
    ensures
        r@ == planned(recovery@, control_view(wanted), *id, conf_view(conf)),
{
    // Before any of the sources is consulted: all of them write to the same extension unit that
    // an unresolved record is about.
    if !recovery.permits_capture_write() {
        return CaptureAction::Nothing;
    }
    if let Some(ctrl) = wanted {
        return CaptureAction::Override(ctrl);
    }
    if let Some(text) = conf {
        if let Some((unit, selector)) = recorded_control(text, id) {
            let ctrl: EmitterControl = EmitterControl { unit, selector, payload: Vec::new() };
            if control_is_documented(id, &ctrl) {
                return CaptureAction::DeviceDefault { unit, selector };
            }
        }
    }
    match known_control(id.vid, id.pid) {
        Some(ctrl) => if control_is_documented(id, &ctrl) {
            CaptureAction::KnownPayload(ctrl)
        } else {
            CaptureAction::Nothing
        },
        None => CaptureAction::Nothing,
    }
}

// ---------------------------------------------------------------------------------------------
// The report
// ---------------------------------------------------------------------------------------------

/// What a capture's emitter path did, in one line.
pub open spec fn activation_line(outcome: Option<Applied>) -> Seq<char> {
    match outcome {
        Some(Applied::Wrote) => "irlume: capture emitter write completed"@,
        Some(Applied::AlreadyHeld) => "irlume: capture emitter already held the requested value"@,
        _ => "irlume: capture emitter was not activated"@,
    }
}

/// A positive statement of what a capture's emitter path did, for a caller that needs to verify it
/// rather than infer it. `None` stands for a path that ended before the control was looked at.
#[must_use]
pub fn activation_report(outcome: Option<Applied>) -> (r: String)
    ensures
        r@ == activation_line(outcome),
{
    match outcome {
        Some(Applied::Wrote) => "irlume: capture emitter write completed".to_owned(),
        Some(Applied::AlreadyHeld) =>
            "irlume: capture emitter already held the requested value".to_owned(),
        _ => "irlume: capture emitter was not activated".to_owned(),
    }
}

// ---------------------------------------------------------------------------------------------
// Requests and replies
// ---------------------------------------------------------------------------------------------

/// What lighting the emitter asks for next.
#[derive(Clone, Debug, PartialEq, Eq)]
pub enum EnableRequest<B> {
    /// The override variable.
    ReadVariable,
    /// Other holders of the node.
    ScanConsumers,
    /// The identity behind the open camera.
    ReadIdentity,
    Recovery(RecoveryRequest<B>),
    /// The record of a setup run.
    ReadConf,
    /// The kernel's number of the open device.
    DeviceNumber,
    /// What was decided about these bytes for this control. The record of decisions stays locked
    /// from here until the decision is settled or the emitter is ready.
    Consult { key: OverrideKey, payload: B },
    Capture(CaptureRequest<B>),
    /// Record what was decided.
    Settle { key: OverrideKey, payload: B, applied: bool },
    /// Claim a crash leftover: the value that irlume displaced, where a record marks the bytes that
    /// the control holds as irlume's own.
    Claim { unit: u8, selector: u8, current: B },
}

impl View for EnableRequest<Vec<u8>> {
    type V = EnableRequest<Seq<u8>>;

    open spec fn view(&self) -> EnableRequest<Seq<u8>> {
        match *self {
            EnableRequest::ReadVariable => EnableRequest::ReadVariable,
            EnableRequest::ScanConsumers => EnableRequest::ScanConsumers,
            EnableRequest::ReadIdentity => EnableRequest::ReadIdentity,
            EnableRequest::Recovery(request) => EnableRequest::Recovery(request@),
            EnableRequest::ReadConf => EnableRequest::ReadConf,
            EnableRequest::DeviceNumber => EnableRequest::DeviceNumber,
            EnableRequest::Consult { key, payload } => EnableRequest::Consult {
                key,
                payload: payload@,
            },
            EnableRequest::Capture(request) => EnableRequest::Capture(request@),
            EnableRequest::Settle { key, payload, applied } => EnableRequest::Settle {
                key,
                payload: payload@,
                applied,
            },
            EnableRequest::Claim { unit, selector, current } => EnableRequest::Claim {
                unit,
                selector,
                current: current@,
            },
        }
    }
}

/// What came of a request.
#[derive(Debug, PartialEq, Eq)]
pub enum EnableReply {
    Variable(Variable),
    Scanned(ConsumerScan),
    /// The identity, or none where the descriptors cannot be read.
    Identity(Option<CameraIdentity>),
    Recovery(RecoveryReply<Vec<u8>, String>),
    /// The record of a setup run, or none where it cannot be read.
    Conf(Option<String>),
    /// The device's number, or none where it cannot be told.
    Device(Option<u64>),
    /// What was decided, or none where that is not to be had.
    Consulted(Option<Reuse>),
    Capture(CaptureReply<Vec<u8>>),
    Settled,
    /// The displaced value, where a leftover was claimed.
    Claimed(Option<Vec<u8>>),
}

/// What came of a request, as values.
pub enum EnableReplyView {
    Variable(Variable),
    Scanned(ScanView),
    Identity(Option<CameraIdentity>),
    Recovery(RecoveryReply<Seq<u8>, Seq<char>>),
    Conf(Option<Seq<char>>),
    Device(Option<u64>),
    Consulted(Option<Reuse>),
    Capture(CaptureReply<Seq<u8>>),
    Settled,
    Claimed(Option<Seq<u8>>),
}

impl View for EnableReply {
    type V = EnableReplyView;

    open spec fn view(&self) -> EnableReplyView {
        match *self {
            EnableReply::Variable(variable) => EnableReplyView::Variable(variable),
            EnableReply::Scanned(scan) => EnableReplyView::Scanned(scan@),
            EnableReply::Identity(id) => EnableReplyView::Identity(id),
            EnableReply::Recovery(reply) => EnableReplyView::Recovery(reply@),
            EnableReply::Conf(None) => EnableReplyView::Conf(None),
            EnableReply::Conf(Some(text)) => EnableReplyView::Conf(Some(text@)),
            EnableReply::Device(number) => EnableReplyView::Device(number),
            EnableReply::Consulted(reuse) => EnableReplyView::Consulted(reuse),
            EnableReply::Capture(reply) => EnableReplyView::Capture(reply@),
            EnableReply::Settled => EnableReplyView::Settled,
            EnableReply::Claimed(None) => EnableReplyView::Claimed(None),
            EnableReply::Claimed(Some(bytes)) => EnableReplyView::Claimed(Some(bytes@)),
        }
    }
}

/// Whether a reply is one that a request can have.
pub open spec fn enable_answers(request: EnableRequest<Seq<u8>>, reply: EnableReplyView) -> bool {
    match request {
        EnableRequest::ReadVariable => reply is Variable,
        EnableRequest::ScanConsumers => reply is Scanned,
        EnableRequest::ReadIdentity => reply is Identity,
        EnableRequest::Recovery(request) => reply matches EnableReplyView::Recovery(reply)
            && recovery_answers(request, reply),
        EnableRequest::ReadConf => reply is Conf,
        EnableRequest::DeviceNumber => reply is Device,
        EnableRequest::Consult { .. } => reply is Consulted,
        EnableRequest::Capture(request) => reply matches EnableReplyView::Capture(reply)
            && replies_to(request, reply),
        EnableRequest::Settle { .. } => reply is Settled,
        EnableRequest::Claim { .. } => reply is Claimed,
    }
}

// ---------------------------------------------------------------------------------------------
// The sequence
// ---------------------------------------------------------------------------------------------

/// Where lighting the emitter stands.
#[derive(Debug)]
pub enum Enable {
    ReadVariable,
    Scan { wanted: Option<EmitterControl> },
    Identify { wanted: Option<EmitterControl> },
    Recover { wanted: Option<EmitterControl>, id: CameraIdentity, pass: RecoveryPhase<Vec<u8>, String> },
    ReadConf { id: CameraIdentity },
    DeviceNumber { id: CameraIdentity, ctrl: EmitterControl },
    Consult { id: CameraIdentity, ctrl: EmitterControl, key: OverrideKey },
    /// `named` tells an override from the automatic sources; `remember` is where the decision is
    /// to be recorded.
    Apply { named: bool, remember: Option<OverrideKey>, application: Application<Vec<u8>> },
    Settle {
        key: OverrideKey,
        unit: u8,
        selector: u8,
        write: CaptureWrite<Vec<u8>>,
        applied: Vec<u8>,
    },
    Claim { unit: u8, selector: u8, current: Vec<u8>, applied: Vec<u8> },
    Ready(StreamMode),
}

/// Where lighting the emitter stands, as values.
pub enum EnableView {
    ReadVariable,
    Scan { wanted: Option<ControlView> },
    Identify { wanted: Option<ControlView> },
    Recover {
        wanted: Option<ControlView>,
        id: CameraIdentity,
        pass: RecoveryPhase<Seq<u8>, Seq<char>>,
    },
    ReadConf { id: CameraIdentity },
    DeviceNumber { id: CameraIdentity, ctrl: ControlView },
    Consult { id: CameraIdentity, ctrl: ControlView, key: OverrideKey },
    Apply { named: bool, remember: Option<OverrideKey>, application: Application<Seq<u8>> },
    Settle {
        key: OverrideKey,
        unit: u8,
        selector: u8,
        write: CaptureWrite<Seq<u8>>,
        applied: Seq<u8>,
    },
    Claim { unit: u8, selector: u8, current: Seq<u8>, applied: Seq<u8> },
    Ready(ModeView),
}

impl View for Enable {
    type V = EnableView;

    open spec fn view(&self) -> EnableView {
        match *self {
            Enable::ReadVariable => EnableView::ReadVariable,
            Enable::Scan { wanted } => EnableView::Scan { wanted: control_view(wanted) },
            Enable::Identify { wanted } => EnableView::Identify { wanted: control_view(wanted) },
            Enable::Recover { wanted, id, pass } => EnableView::Recover {
                wanted: control_view(wanted),
                id,
                pass: pass@,
            },
            Enable::ReadConf { id } => EnableView::ReadConf { id },
            Enable::DeviceNumber { id, ctrl } => EnableView::DeviceNumber { id, ctrl: ctrl@ },
            Enable::Consult { id, ctrl, key } => EnableView::Consult { id, ctrl: ctrl@, key },
            Enable::Apply { named, remember, application } => EnableView::Apply {
                named,
                remember,
                application: application@,
            },
            Enable::Settle { key, unit, selector, write, applied } => EnableView::Settle {
                key,
                unit,
                selector,
                write: write@,
                applied: applied@,
            },
            Enable::Claim { unit, selector, current, applied } => EnableView::Claim {
                unit,
                selector,
                current: current@,
                applied: applied@,
            },
            Enable::Ready(mode) => EnableView::Ready(mode@),
        }
    }
}

/// The key under which a decision about a control of an open device is recorded.
pub open spec fn key_of(rdev: u64, id: CameraIdentity, unit: u8, selector: u8) -> OverrideKey {
    OverrideKey {
        rdev,
        interface_number: id.interface_number,
        vid: id.vid,
        pid: id.pid,
        unit,
        selector,
    }
}

/// The key under which a decision about a control of an open device is recorded.
#[must_use]
pub fn override_key(rdev: u64, id: &CameraIdentity, ctrl: &EmitterControl) -> (r: OverrideKey)
    ensures
        r == key_of(rdev, *id, ctrl.unit, ctrl.selector),
{
    OverrideKey {
        rdev,
        interface_number: id.interface_number,
        vid: id.vid,
        pid: id.pid,
        unit: ctrl.unit,
        selector: ctrl.selector,
    }
}

/// A guard that owns nothing, over a control that is active or not.
pub open spec fn unarmed(unit: u8, selector: u8, applied: Seq<u8>, active: bool) -> ModeView {
    ModeView {
        unit,
        selector,
        restore: seq![],
        applied,
        armed: false,
        active,
        hold: Hold::Nothing,
    }
}

/// What a capture pass came to, held against the bytes that it was to apply: a change displaced
/// something else of the same length, and a control that was left alone held them already.
pub open spec fn fits(write: CaptureWrite<Seq<u8>>, applied: Seq<u8>) -> bool {
    match write.outcome {
        Applied::Wrote => write.current.len() == applied.len() && write.current != applied,
        Applied::AlreadyHeld => write.current == applied,
        Applied::Nothing => true,
    }
}

/// What follows once a control was looked at: a guard over the change that was made, with the
/// value that it displaced; or a claim where the control already held the bytes under the lock.
pub open spec fn guarded(
    unit: u8,
    selector: u8,
    write: CaptureWrite<Seq<u8>>,
    applied: Seq<u8>,
) -> EnableView {
    match write.outcome {
        Applied::Wrote => EnableView::Ready(
            ModeView {
                unit,
                selector,
                restore: write.current,
                applied,
                armed: true,
                active: true,
                hold: write.hold,
            },
        ),
        Applied::AlreadyHeld => if write.hold == Hold::Lock {
            EnableView::Claim { unit, selector, current: write.current, applied }
        } else {
            EnableView::Ready(unarmed(unit, selector, applied, true))
        },
        Applied::Nothing => EnableView::Ready(unarmed(unit, selector, applied, false)),
    }
}

/// What follows once an application ended: the decision is recorded where it is to be.
pub open spec fn concluded(
    remember: Option<OverrideKey>,
    unit: u8,
    selector: u8,
    write: CaptureWrite<Seq<u8>>,
    applied: Seq<u8>,
) -> EnableView {
    match remember {
        Some(key) => EnableView::Settle { key, unit, selector, write, applied },
        None => guarded(unit, selector, write, applied),
    }
}

/// What follows once an override may be applied: it has to be published.
pub open spec fn gated(
    id: CameraIdentity,
    ctrl: ControlView,
    remember: Option<OverrideKey>,
) -> EnableView {
    if unpublished(id, ctrl.unit, ctrl.selector) is Some {
        concluded(
            remember,
            ctrl.unit,
            ctrl.selector,
            CaptureWrite::<Seq<u8>>::nothing(),
            ctrl.payload,
        )
    } else {
        EnableView::Apply {
            named: true,
            remember,
            application: Application::<Seq<u8>>::given(ctrl),
        }
    }
}

/// What follows once an automatic source was planned.
pub open spec fn started(action: ActionView) -> EnableView {
    match action {
        ActionView::DeviceDefault { unit, selector } => EnableView::Apply {
            named: false,
            remember: None,
            application: Application::<Seq<u8>>::of_device(unit, selector),
        },
        ActionView::KnownPayload(ctrl) => EnableView::Apply {
            named: false,
            remember: None,
            application: Application::<Seq<u8>>::given(ctrl),
        },
        _ => EnableView::Ready(ModeView::nothing()),
    }
}

/// What follows once the recovery pass took a reply.
pub open spec fn recovering(
    wanted: Option<ControlView>,
    id: CameraIdentity,
    pass: RecoveryPhase<Seq<u8>, Seq<char>>,
) -> EnableView {
    match pass {
        RecoveryPhase::Ended(end) => if !end.outcome(seq![]).permits_write() {
            EnableView::Ready(ModeView::nothing())
        } else {
            match wanted {
                Some(ctrl) => EnableView::DeviceNumber { id, ctrl },
                None => EnableView::ReadConf { id },
            }
        },
        _ => EnableView::Recover { wanted, id, pass },
    }
}

/// What follows once an application took a reply.
pub open spec fn applying(
    named: bool,
    remember: Option<OverrideKey>,
    application: Application<Seq<u8>>,
) -> EnableView {
    match application.result() {
        None => EnableView::Apply { named, remember, application },
        Some(ApplyResult::Done { write, applied }) => concluded(
            remember,
            application.unit,
            application.selector,
            write,
            applied,
        ),
        Some(ApplyResult::Refused(_)) => concluded(
            remember,
            application.unit,
            application.selector,
            CaptureWrite::<Seq<u8>>::nothing(),
            if named {
                application.given_bytes()
            } else {
                seq![]
            },
        ),
    }
}

impl EnableView {
    /// What is asked for next, if anything is.
    pub open spec fn asked(self) -> Option<EnableRequest<Seq<u8>>> {
        match self {
            EnableView::ReadVariable => Some(EnableRequest::ReadVariable),
            EnableView::Scan { .. } => Some(EnableRequest::ScanConsumers),
            EnableView::Identify { .. } => Some(EnableRequest::ReadIdentity),
            EnableView::Recover { wanted, id, pass } => match pass.asked() {
                Some(request) => Some(EnableRequest::Recovery(request)),
                None => None,
            },
            EnableView::ReadConf { .. } => Some(EnableRequest::ReadConf),
            EnableView::DeviceNumber { .. } => Some(EnableRequest::DeviceNumber),
            EnableView::Consult { id, ctrl, key } => Some(
                EnableRequest::Consult { key, payload: ctrl.payload },
            ),
            EnableView::Apply { named, remember, application } => match application.asked() {
                Some(request) => Some(EnableRequest::Capture(request)),
                None => None,
            },
            EnableView::Settle { key, unit, selector, write, applied } => Some(
                EnableRequest::Settle {
                    key,
                    payload: applied,
                    applied: write.outcome != Applied::Nothing,
                },
            ),
            EnableView::Claim { unit, selector, current, applied } => Some(
                EnableRequest::Claim { unit, selector, current },
            ),
            EnableView::Ready(_) => None,
        }
    }

    /// Where lighting the emitter stands after a reply.
    pub open spec fn step(self, reply: EnableReplyView) -> Self {
        match (self, reply) {
            (EnableView::ReadVariable, EnableReplyView::Variable(variable)) => match setting(
                variable,
            ) {
                SettingView::Absent => EnableView::Scan { wanted: None },
                SettingView::Control(ctrl) => EnableView::Scan { wanted: Some(ctrl) },
                _ => EnableView::Ready(ModeView::nothing()),
            },
            (EnableView::Scan { wanted }, EnableReplyView::Scanned(scan)) => {
                if scan.consumers.len() > 0 {
                    EnableView::Ready(ModeView::nothing())
                } else {
                    EnableView::Identify { wanted }
                }
            },
            (EnableView::Identify { wanted }, EnableReplyView::Identity(id)) => match id {
                None => EnableView::Ready(ModeView::nothing()),
                Some(id) => EnableView::Recover { wanted, id, pass: RecoveryPhase::Lock },
            },
            (EnableView::Recover { wanted, id, pass }, EnableReplyView::Recovery(reply)) => {
                recovering(wanted, id, pass.step(reply))
            },
            (EnableView::ReadConf { id }, EnableReplyView::Conf(text)) => started(
                planned(OutcomeView::NothingPending, None, id, text),
            ),
            (EnableView::DeviceNumber { id, ctrl }, EnableReplyView::Device(number)) => {
                match number {
                    None => EnableView::Ready(
                        unarmed(ctrl.unit, ctrl.selector, ctrl.payload, false),
                    ),
                    Some(rdev) => EnableView::Consult {
                        id,
                        ctrl,
                        key: key_of(rdev, id, ctrl.unit, ctrl.selector),
                    },
                }
            },
            (EnableView::Consult { id, ctrl, key }, EnableReplyView::Consulted(reuse)) => {
                match reuse {
                    Some(Reuse::Answer(true)) => gated(id, ctrl, None),
                    Some(Reuse::Decide) => gated(id, ctrl, Some(key)),
                    _ => EnableView::Ready(
                        unarmed(ctrl.unit, ctrl.selector, ctrl.payload, false),
                    ),
                }
            },
            (
                EnableView::Apply { named, remember, application },
                EnableReplyView::Capture(reply),
            ) => applying(named, remember, application.step(reply)),
            (
                EnableView::Settle { key, unit, selector, write, applied },
                EnableReplyView::Settled,
            ) => guarded(unit, selector, write, applied),
            (
                EnableView::Claim { unit, selector, current, applied },
                EnableReplyView::Claimed(claimed),
            ) => match claimed {
                Some(displaced) => EnableView::Ready(
                    ModeView {
                        unit,
                        selector,
                        restore: displaced,
                        applied,
                        armed: true,
                        active: true,
                        hold: Hold::Record,
                    },
                ),
                None => EnableView::Ready(unarmed(unit, selector, applied, true)),
            },
            (phase, _) => phase,
        }
    }

    /// What every state keeps: the parts that it consists of are still asking, and what a capture
    /// pass came to fits the bytes that it was to apply.
    pub open spec fn well_formed(self) -> bool {
        match self {
            EnableView::Recover { wanted, id, pass } => pass.asked() is Some,
            EnableView::Apply { named, remember, application } => application.well_formed()
                && application.asked() is Some,
            EnableView::Settle { key, unit, selector, write, applied } => fits(write, applied),
            EnableView::Claim { unit, selector, current, applied } => current == applied,
            _ => true,
        }
    }
}

impl Enable {
    /// Before the first request.
    #[must_use]
    pub fn new() -> (r: Self)
        ensures
            r@ == EnableView::ReadVariable,
            r@.well_formed(),
    {
        Enable::ReadVariable
    }

    /// What is asked for next, if anything is.
    #[must_use]
    pub fn request(&self) -> (r: Option<EnableRequest<Vec<u8>>>)
        ensures
            match r {
                Some(request) => self@.asked() == Some(request@),
                None => self@.asked() is None,
            },
    {
        match self {
            Enable::ReadVariable => Some(EnableRequest::ReadVariable),
            Enable::Scan { .. } => Some(EnableRequest::ScanConsumers),
            Enable::Identify { .. } => Some(EnableRequest::ReadIdentity),
            Enable::Recover { wanted: _, id: _, pass } => match pass.request() {
                Some(request) => Some(EnableRequest::Recovery(request)),
                None => None,
            },
            Enable::ReadConf { .. } => Some(EnableRequest::ReadConf),
            Enable::DeviceNumber { .. } => Some(EnableRequest::DeviceNumber),
            Enable::Consult { id: _, ctrl, key } => Some(
                EnableRequest::Consult { key: *key, payload: copy_bytes(ctrl.payload.as_slice()) },
            ),
            Enable::Apply { named: _, remember: _, application } => match application.request() {
                Some(request) => Some(EnableRequest::Capture(request)),
                None => None,
            },
            Enable::Settle { key, unit: _, selector: _, write, applied } => Some(
                EnableRequest::Settle {
                    key: *key,
                    payload: copy_bytes(applied.as_slice()),
                    applied: match write.outcome {
                        Applied::Nothing => false,
                        _ => true,
                    },
                },
            ),
            Enable::Claim { unit, selector, current, applied: _ } => Some(
                EnableRequest::Claim {
                    unit: *unit,
                    selector: *selector,
                    current: copy_bytes(current.as_slice()),
                },
            ),
            Enable::Ready(_) => None,
        }
    }

    fn inert() -> (r: Self)
        ensures
            r@ == EnableView::Ready(ModeView::nothing()),
    {
        Enable::Ready(StreamMode::inert())
    }

    fn unarmed_mode(unit: u8, selector: u8, applied: Vec<u8>, active: bool) -> (r: Self)
        ensures
            r@ == EnableView::Ready(unarmed(unit, selector, applied@, active)),
    {
        let restore: Vec<u8> = Vec::new();
        assert(restore@ =~= seq![]);
        Enable::Ready(
            StreamMode {
                unit,
                selector,
                restore,
                applied,
                armed: false,
                active,
                hold: Hold::Nothing,
            },
        )
    }

    fn guard(unit: u8, selector: u8, write: CaptureWrite<Vec<u8>>, applied: Vec<u8>) -> (r: Self)
        requires
            fits(write@, applied@),
        ensures
            r@ == guarded(unit, selector, write@, applied@),
            r@.well_formed(),
    {
        match write.outcome {
            Applied::Wrote => Enable::Ready(
                StreamMode {
                    unit,
                    selector,
                    restore: write.current,
                    applied,
                    armed: true,
                    active: true,
                    hold: write.hold,
                },
            ),
            Applied::AlreadyHeld => {
                if write.hold == Hold::Lock {
                    Enable::Claim { unit, selector, current: write.current, applied }
                } else {
                    Enable::unarmed_mode(unit, selector, applied, true)
                }
            },
            Applied::Nothing => Enable::unarmed_mode(unit, selector, applied, false),
        }
    }

    fn conclude(
        remember: Option<OverrideKey>,
        unit: u8,
        selector: u8,
        write: CaptureWrite<Vec<u8>>,
        applied: Vec<u8>,
    ) -> (r: Self)
        requires
            fits(write@, applied@),
        ensures
            r@ == concluded(remember, unit, selector, write@, applied@),
            r@.well_formed(),
    {
        match remember {
            Some(key) => Enable::Settle { key, unit, selector, write, applied },
            None => Enable::guard(unit, selector, write, applied),
        }
    }

    fn gate(id: &CameraIdentity, ctrl: EmitterControl, remember: Option<OverrideKey>) -> (r: Self)
        ensures
            r@ == gated(*id, ctrl@, remember),
            r@.well_formed(),
    {
        match override_is_published(id, &ctrl) {
            Err(_) => Enable::conclude(
                remember,
                ctrl.unit,
                ctrl.selector,
                CaptureWrite::refused(),
                ctrl.payload,
            ),
            Ok(()) => Enable::Apply {
                named: true,
                remember,
                application: Application::known_payload(ctrl),
            },
        }
    }

    fn start(action: CaptureAction) -> (r: Self)
        ensures
            r@ == started(action@),
            r@.well_formed(),
    {
        match action {
            CaptureAction::DeviceDefault { unit, selector } => Enable::Apply {
                named: false,
                remember: None,
                application: Application::device_default(unit, selector),
            },
            CaptureAction::KnownPayload(ctrl) => Enable::Apply {
                named: false,
                remember: None,
                application: Application::known_payload(ctrl),
            },
            _ => Enable::inert(),
        }
    }

    fn recovered(
        wanted: Option<EmitterControl>,
        id: CameraIdentity,
        pass: RecoveryPhase<Vec<u8>, String>,
    ) -> (r: Self)
        ensures
            r@ == recovering(control_view(wanted), id, pass@),
            r@.well_formed(),
    {
        proof {
            reveal_strlit("");
        }
        assert(""@ =~= seq![]);
        match pass.outcome_with("") {
            None => Enable::Recover { wanted, id, pass },
            Some(outcome) => {
                if !outcome.permits_capture_write() {
                    Enable::inert()
                } else {
                    match wanted {
                        Some(ctrl) => Enable::DeviceNumber { id, ctrl },
                        None => Enable::ReadConf { id },
                    }
                }
            },
        }
    }

    fn applied(
        named: bool,
        remember: Option<OverrideKey>,
        application: Application<Vec<u8>>,
    ) -> (r: Self)
        requires
            application@.well_formed(),
        ensures
            r@ == applying(named, remember, application@),
            r@.well_formed(),
    {
        match application.outcome() {
            None => Enable::Apply { named, remember, application },
            Some(ApplyResult::Done { write, applied }) => Enable::conclude(
                remember,
                application.unit,
                application.selector,
                write,
                applied,
            ),
            Some(ApplyResult::Refused(_)) => {
                let applied: Vec<u8> = if named {
                    application.payload()
                } else {
                    Vec::new()
                };
                assert(applied@ =~= (if named {
                    application@.given_bytes()
                } else {
                    seq![]
                }));
                Enable::conclude(
                    remember,
                    application.unit,
                    application.selector,
                    CaptureWrite::refused(),
                    applied,
                )
            },
        }
    }

    /// Takes the reply to the last request.
    #[must_use]
    pub fn advance(self, reply: EnableReply) -> (r: Self)
        requires
            self@.well_formed(),
            self@.asked() is Some,
            enable_answers(self@.asked()->0, reply@),
        ensures
            r@ == self@.step(reply@),
            r@.well_formed(),
    {
        match (self, reply) {
            (Enable::ReadVariable, EnableReply::Variable(variable)) => match override_setting(
                variable,
            ) {
                OverrideSetting::Absent => Enable::Scan { wanted: None },
                OverrideSetting::Control(ctrl) => Enable::Scan { wanted: Some(ctrl) },
                OverrideSetting::Disabled => Enable::inert(),
                OverrideSetting::Malformed(_) => Enable::inert(),
            },
            (Enable::Scan { wanted }, EnableReply::Scanned(scan)) => {
                if scan.stands_down() {
                    Enable::inert()
                } else {
                    Enable::Identify { wanted }
                }
            },
            (Enable::Identify { wanted }, EnableReply::Identity(id)) => match id {
                None => Enable::inert(),
                Some(id) => Enable::Recover { wanted, id, pass: RecoveryPhase::new() },
            },
            (Enable::Recover { wanted, id, pass }, EnableReply::Recovery(reply)) => {
                Enable::recovered(wanted, id, pass.advance(reply))
            },
            (Enable::ReadConf { id }, EnableReply::Conf(text)) => {
                let action: CaptureAction = match &text {
                    Some(text) => planned_action(
                        &RecoveryOutcome::NothingPending,
                        None,
                        &id,
                        Some(text.as_str()),
                    ),
                    None => planned_action(&RecoveryOutcome::NothingPending, None, &id, None),
                };
                Enable::start(action)
            },
            (Enable::DeviceNumber { id, ctrl }, EnableReply::Device(number)) => match number {
                None => Enable::unarmed_mode(ctrl.unit, ctrl.selector, ctrl.payload, false),
                Some(rdev) => {
                    let key: OverrideKey = override_key(rdev, &id, &ctrl);
                    Enable::Consult { id, ctrl, key }
                },
            },
            (Enable::Consult { id, ctrl, key }, EnableReply::Consulted(reuse)) => match reuse {
                Some(Reuse::Answer(true)) => Enable::gate(&id, ctrl, None),
                Some(Reuse::Decide) => Enable::gate(&id, ctrl, Some(key)),
                _ => Enable::unarmed_mode(ctrl.unit, ctrl.selector, ctrl.payload, false),
            },
            (Enable::Apply { named, remember, application }, EnableReply::Capture(reply)) => {
                Enable::applied(named, remember, application.advance(reply))
            },
            (
                Enable::Settle { key: _, unit, selector, write, applied },
                EnableReply::Settled,
            ) => Enable::guard(unit, selector, write, applied),
            (
                Enable::Claim { unit, selector, current: _, applied },
                EnableReply::Claimed(claimed),
            ) => match claimed {
                Some(displaced) => Enable::Ready(
                    StreamMode {
                        unit,
                        selector,
                        restore: displaced,
                        applied,
                        armed: true,
                        active: true,
                        hold: Hold::Record,
                    },
                ),
                None => Enable::unarmed_mode(unit, selector, applied, true),
            },
            (phase, _) => phase,
        }
    }
}

// ---------------------------------------------------------------------------------------------
// Laws
// ---------------------------------------------------------------------------------------------

/// While a change is unresolved, or somebody else looks after the camera, no source is applied:
/// not the override, not the recorded control, not the built-in one.
pub proof fn an_unresolved_change_stops_every_source(
    recovery: OutcomeView,
    wanted: Option<ControlView>,
    id: CameraIdentity,
    conf: Option<Seq<char>>,
)
    ensures
        !recovery.permits_write() ==> planned(recovery, wanted, id, conf) is Nothing,
        recovery.permits_write() ==> planned(recovery, wanted, id, conf) == planned(
            OutcomeView::NothingPending,
            wanted,
            id,
            conf,
        ),
{
}

/// A control that nobody named is applied only where the attached camera documents it; and one
/// that somebody did name is the only one considered.
pub proof fn automatic_controls_are_documented(
    recovery: OutcomeView,
    wanted: Option<ControlView>,
    id: CameraIdentity,
    conf: Option<Seq<char>>,
)
    ensures
        match planned(recovery, wanted, id, conf) {
            ActionView::Nothing => true,
            ActionView::Override(ctrl) => wanted == Some(ctrl),
            ActionView::DeviceDefault { unit, selector } => wanted is None && documented(
                id,
                unit,
                selector,
            ),
            ActionView::KnownPayload(ctrl) => wanted is None && documented(
                id,
                ctrl.unit,
                ctrl.selector,
            ) && built_in(id.vid, id.pid) == Some(ctrl),
        },
{
}

/// A variable that says `off`, or that is set to something which is no control, ends everything
/// before anything is looked at, the camera included.
pub proof fn a_disabled_emitter_is_left_alone(variable: Variable)
    requires
        setting(variable) is Disabled || setting(variable) is Malformed,
    ensures
        EnableView::ReadVariable.step(EnableReplyView::Variable(variable)) == EnableView::Ready(
            ModeView::nothing(),
        ),
{
}

/// A camera that another process is seen to hold is not touched.
pub proof fn a_foreign_holder_is_left_alone(wanted: Option<ControlView>, scan: ScanView)
    requires
        scan.consumers.len() > 0,
    ensures
        (EnableView::Scan { wanted }).step(EnableReplyView::Scanned(scan)) == EnableView::Ready(
            ModeView::nothing(),
        ),
{
}

/// An application begins only for a control that the attached camera publishes: the override's
/// unit advertises its selector, and a control that nobody named is documented.
pub proof fn only_published_controls_are_applied(before: EnableView, reply: EnableReplyView)
    requires
        before.asked() is Some,
        enable_answers(before.asked()->0, reply),
        !(before is Apply),
        before.step(reply) is Apply,
    ensures
        match before.step(reply) {
            EnableView::Apply { named, remember, application } => {
                &&& application.phase is Info
                &&& match before {
                    EnableView::Consult { id, ctrl, key } => named && application
                        == Application::<Seq<u8>>::given(ctrl) && unpublished(
                        id,
                        ctrl.unit,
                        ctrl.selector,
                    ) is None,
                    EnableView::ReadConf { id } => !named && remember is None && documented(
                        id,
                        application.unit,
                        application.selector,
                    ),
                    _ => false,
                }
            },
            _ => false,
        },
{
}

/// A guard is armed only by a change: one that this pass made, with the value that it displaced,
/// which differs from what was applied; or a leftover that was claimed on a control that holds
/// what was to be applied, with the value that it had displaced.
pub proof fn a_guard_is_armed_only_by_a_change(
    before: EnableView,
    reply: EnableReplyView,
    mode: ModeView,
)
    requires
        before.well_formed(),
        before.asked() is Some,
        enable_answers(before.asked()->0, reply),
        before.step(reply) == EnableView::Ready(mode),
        mode.armed,
    ensures
        mode.active,
        match before {
            EnableView::Apply { named, remember, application } => {
                &&& reply matches EnableReplyView::Capture(answer)
                    && application.step(answer).result() matches Some(
                    ApplyResult::Done { write, applied },
                ) && write.outcome == Applied::Wrote && mode.restore == write.current
                    && mode.applied == applied && mode.restore != mode.applied
            },
            EnableView::Settle { key, unit, selector, write, applied } => write.outcome
                == Applied::Wrote && mode.restore == write.current && mode.applied == applied
                && mode.restore != mode.applied,
            EnableView::Claim { unit, selector, current, applied } => reply
                == EnableReplyView::Claimed(Some(mode.restore)) && mode.applied == applied
                && mode.applied == current,
            _ => false,
        },
{
    if let EnableView::Apply { named, remember, application } = before {
        if let EnableReplyView::Capture(answer) = reply {
            crate::ir_emitter::apply::application_moves_on(application, answer);
        }
    }
}

impl EnableView {
    /// Where lighting the emitter stands after replies, the first of them first.
    pub open spec fn after_all(self, replies: Seq<EnableReplyView>) -> Self
        decreases replies.len(),
    {
        if replies.len() == 0 {
            self
        } else {
            self.after_all(replies.drop_last()).step(replies.last())
        }
    }

    /// Whether each reply of a run is one that the request before it can have.
    pub open spec fn proper_run(self, replies: Seq<EnableReplyView>) -> bool {
        forall|i: int|
            0 <= i < replies.len() ==> {
                let before = self.after_all(#[trigger] replies.take(i));
                before.asked() is Some && enable_answers(before.asked()->0, replies[i])
            }
    }

    /// How many requests are still made at most.
    pub open spec fn left(self) -> int {
        match self {
            EnableView::ReadVariable => 36,
            EnableView::Scan { .. } => 35,
            EnableView::Identify { .. } => 34,
            EnableView::Recover { wanted, id, pass } => 20 + pass.left(),
            EnableView::ReadConf { .. } => 17,
            EnableView::DeviceNumber { .. } => 17,
            EnableView::Consult { .. } => 16,
            EnableView::Apply { named, remember, application } => 2 + application.left(),
            EnableView::Settle { .. } => 2,
            EnableView::Claim { .. } => 1,
            EnableView::Ready(_) => 0,
        }
    }

    /// Whether the next request changes the camera, other than to put back what a recovery pass
    /// found changed.
    pub open spec fn writes(self) -> bool {
        self.asked() matches Some(
            EnableRequest::Capture(CaptureRequest::Camera(CameraRequest::Write(_))),
        )
    }

    /// Whether a control is chosen or applied.
    pub open spec fn past_recovery(self) -> bool {
        match self {
            EnableView::ReadConf { .. }
            | EnableView::DeviceNumber { .. }
            | EnableView::Consult { .. }
            | EnableView::Apply { .. }
            | EnableView::Settle { .. }
            | EnableView::Claim { .. } => true,
            _ => false,
        }
    }
}

/// Whether a run held a recovery pass that ended and permits a write.
pub open spec fn recovered_at(replies: Seq<EnableReplyView>, i: int) -> bool {
    &&& 0 <= i < replies.len()
    &&& EnableView::ReadVariable.after_all(replies.take(i)) matches EnableView::Recover {
        wanted,
        id,
        pass,
    } && replies[i] matches EnableReplyView::Recovery(reply) && pass.step(
        reply,
    ) matches RecoveryPhase::Ended(end) && end.outcome(seq![]).permits_write()
}

/// Each reply brings lighting the emitter nearer to its end, and it keeps what it keeps.
pub proof fn enabling_moves_on(before: EnableView, reply: EnableReplyView)
    requires
        before.well_formed(),
        before.asked() is Some,
        enable_answers(before.asked()->0, reply),
    ensures
        before.step(reply).left() < before.left(),
        before.step(reply).well_formed(),
        before.writes() ==> before.left() == 4,
        before.step(reply).asked() is None ==> before.step(reply) is Ready,
{
    match (before, reply) {
        (EnableView::Apply { named, remember, application }, EnableReplyView::Capture(answer)) => {
            crate::ir_emitter::apply::application_moves_on(application, answer);
        },
        (EnableView::Recover { wanted, id, pass }, EnableReplyView::Recovery(answer)) => {
            crate::ir_emitter::recovery_pass::recovery_moves_on(pass, answer);
        },
        _ => {},
    }
}

proof fn run_stays_well_formed(replies: Seq<EnableReplyView>, n: int)
    requires
        EnableView::ReadVariable.proper_run(replies),
        0 <= n <= replies.len(),
    ensures
        EnableView::ReadVariable.after_all(replies.take(n)).well_formed(),
    decreases n,
{
    if n > 0 {
        run_stays_well_formed(replies, n - 1);
        assert(replies.take(n).drop_last() =~= replies.take(n - 1));
        let before = EnableView::ReadVariable.after_all(replies.take(n - 1));
        assert(before.asked() is Some && enable_answers(before.asked()->0, replies[n - 1]));
        enabling_moves_on(before, replies[n - 1]);
    }
}

/// Over any run, lighting the emitter changes the camera at most once, beside what a recovery
/// pass puts back: no source is tried after another one was written.
pub proof fn enabling_writes_at_most_once(replies: Seq<EnableReplyView>, i: int, j: int)
    requires
        EnableView::ReadVariable.proper_run(replies),
        0 <= i < j <= replies.len(),
        EnableView::ReadVariable.after_all(replies.take(i)).writes(),
    ensures
        !EnableView::ReadVariable.after_all(replies.take(j)).writes(),
        EnableView::ReadVariable.after_all(replies.take(j)).left() < 4,
    decreases j,
{
    let start = EnableView::ReadVariable;
    assert(replies.take(j).drop_last() =~= replies.take(j - 1));
    let before = start.after_all(replies.take(j - 1));
    assert(before.asked() is Some && enable_answers(before.asked()->0, replies[j - 1]));
    run_stays_well_formed(replies, j - 1);
    enabling_moves_on(before, replies[j - 1]);
    if i < j - 1 {
        enabling_writes_at_most_once(replies, i, j - 1);
    }
    let after = start.after_all(replies.take(j));
    assert(after == before.step(replies[j - 1]));
    assert(after.writes() ==> after.left() == 4);
}

/// Nothing is chosen, let alone written, before a recovery pass ended and permits it.
pub proof fn recovery_comes_first(replies: Seq<EnableReplyView>)
    requires
        EnableView::ReadVariable.proper_run(replies),
        EnableView::ReadVariable.after_all(replies).past_recovery(),
    ensures
        exists|i: int| #[trigger] recovered_at(replies, i),
    decreases replies.len(),
{
    let start = EnableView::ReadVariable;
    let n = replies.len() as int;
    let shorter = replies.drop_last();
    assert(replies.take(n - 1) =~= shorter);
    let before = start.after_all(shorter);
    if before.past_recovery() {
        assert forall|i: int| 0 <= i < shorter.len() implies {
            let before = start.after_all(#[trigger] shorter.take(i));
            before.asked() is Some && enable_answers(before.asked()->0, shorter[i])
        } by {
            assert(replies.take(i) =~= shorter.take(i));
        }
        recovery_comes_first(shorter);
        let i = choose|i: int| #[trigger] recovered_at(shorter, i);
        assert(replies.take(i) =~= shorter.take(i));
        assert(recovered_at(replies, i));
    } else {
        assert(before is Recover);
        assert(recovered_at(replies, n - 1));
    }
}

/// A decision is recorded only where the record said that there was none: a control's answer is
/// computed once.
pub proof fn a_decision_is_made_once(replies: Seq<EnableReplyView>)
    requires
        EnableView::ReadVariable.proper_run(replies),
    ensures
        match EnableView::ReadVariable.after_all(replies) {
            EnableView::Settle { .. } => replies.contains(
                EnableReplyView::Consulted(Some(Reuse::Decide)),
            ),
            EnableView::Apply { named, remember, application } => remember is Some ==> named
                && replies.contains(EnableReplyView::Consulted(Some(Reuse::Decide))),
            _ => true,
        },
    decreases replies.len(),
{
    if replies.len() > 0 {
        let start = EnableView::ReadVariable;
        let n = replies.len() as int;
        let shorter = replies.drop_last();
        assert(replies.take(n - 1) =~= shorter);
        assert forall|i: int| 0 <= i < shorter.len() implies {
            let before = start.after_all(#[trigger] shorter.take(i));
            before.asked() is Some && enable_answers(before.asked()->0, shorter[i])
        } by {
            assert(replies.take(i) =~= shorter.take(i));
        }
        a_decision_is_made_once(shorter);
        let decide = EnableReplyView::Consulted(Some(Reuse::Decide));
        if shorter.contains(decide) {
            let k = choose|k: int| 0 <= k < shorter.len() && shorter[k] == decide;
            assert(replies[k] == decide);
        }
        if replies.last() == decide {
            assert(replies[n - 1] == decide);
        }
    }
}

/// Where nothing stands in the way, lighting goes on: a variable that asks for nothing or names a
/// control leads to the look for other holders, a node that nobody else holds to the identity, and
/// an identity to the recovery pass on that camera. The control that was named is carried along. A
/// camera whose identity cannot be read is left dark.
pub proof fn an_undisturbed_camera_is_looked_at(
    variable: Variable,
    wanted: Option<ControlView>,
    scan: ScanView,
    id: CameraIdentity,
)
    requires
        scan.consumers.len() == 0,
    ensures
        EnableView::ReadVariable.asked() == Some(EnableRequest::<Seq<u8>>::ReadVariable),
        setting(variable) is Absent ==> EnableView::ReadVariable.step(
            EnableReplyView::Variable(variable),
        ) == (EnableView::Scan { wanted: None }),
        setting(variable) matches SettingView::Control(ctrl) ==> EnableView::ReadVariable.step(
            EnableReplyView::Variable(variable),
        ) == (EnableView::Scan { wanted: Some(ctrl) }),
        (EnableView::Scan { wanted }).asked() == Some(EnableRequest::<Seq<u8>>::ScanConsumers),
        (EnableView::Scan { wanted }).step(EnableReplyView::Scanned(scan)) == (
        EnableView::Identify { wanted }),
        (EnableView::Identify { wanted }).asked() == Some(EnableRequest::<Seq<u8>>::ReadIdentity),
        (EnableView::Identify { wanted }).step(EnableReplyView::Identity(Some(id))) == (
        EnableView::Recover { wanted, id, pass: RecoveryPhase::<Seq<u8>, Seq<char>>::Lock }),
        (EnableView::Identify { wanted }).step(EnableReplyView::Identity(None)) == EnableView::Ready(
            ModeView::nothing(),
        ),
{
}

/// A recovery pass goes on until it ends. Once it permits a write, a named control is looked up by
/// the device's number, and without one the record of a setup run is read; where it does not, the
/// camera is left dark.
pub proof fn a_recovered_camera_is_lit_from_its_source(
    wanted: Option<ControlView>,
    id: CameraIdentity,
    pass: RecoveryPhase<Seq<u8>, Seq<char>>,
    reply: RecoveryReply<Seq<u8>, Seq<char>>,
)
    ensures
        ({
            let next = (EnableView::Recover { wanted, id, pass }).step(
                EnableReplyView::Recovery(reply),
            );
            match pass.step(reply) {
                RecoveryPhase::Ended(end) => match end.outcome(seq![]) {
                    OutcomeView::NothingPending
                    | OutcomeView::ForAnotherCamera
                    | OutcomeView::AlreadyRestored
                    | OutcomeView::Restored { .. }
                    | OutcomeView::RestoredRecordKept(_) => match wanted {
                        Some(ctrl) => next == (EnableView::DeviceNumber { id, ctrl })
                            && next.asked() == Some(EnableRequest::<Seq<u8>>::DeviceNumber),
                        None => next == (EnableView::ReadConf { id }) && next.asked() == Some(
                            EnableRequest::<Seq<u8>>::ReadConf,
                        ),
                    },
                    _ => next == EnableView::Ready(ModeView::nothing()),
                },
                going => next == (EnableView::Recover { wanted, id, pass: going }),
            }
        }),
{
}

/// Without an override, the configuration leads to an application: of the camera's own value at the
/// control that it names, where the camera documents that; else of the built-in payload for the
/// camera, exactly as the table has it, where the camera documents that. Nothing is applied only
/// where there is neither.
pub proof fn a_planned_control_is_applied(id: CameraIdentity, conf: Option<Seq<char>>)
    ensures
        ({
            let next = (EnableView::ReadConf { id }).step(EnableReplyView::Conf(conf));
            let named = match conf {
                Some(text) => recorded(text, id.usb_text()),
                None => None,
            };
            let usable = named is Some && documented(id, (named->0).0, (named->0).1);
            let known = built_in(id.vid, id.pid);
            &&& usable ==> next == (EnableView::Apply {
                named: false,
                remember: None,
                application: Application::<Seq<u8>>::of_device((named->0).0, (named->0).1),
            })
            &&& !usable && known is Some && documented(id, known->0.unit, known->0.selector)
                ==> next == (EnableView::Apply {
                named: false,
                remember: None,
                application: Application::<Seq<u8>>::given(known->0),
            })
            &&& next is Apply ==> next.asked() == Some(
                EnableRequest::Capture(CaptureRequest::Camera(CameraRequest::<Seq<u8>>::GetInfo)),
            )
            &&& !(next is Apply) ==> next == EnableView::Ready(ModeView::nothing()) && !usable && (
            known is None || !documented(id, known->0.unit, known->0.selector))
        }),
{
}

/// What is planned for a camera is, where a write is permitted, the override if there is one, else
/// the recorded control if the camera documents it, else the built-in one if the camera documents
/// that; and nothing only where there is none of them.
pub proof fn a_plan_takes_the_first_source_that_there_is(
    recovery: OutcomeView,
    wanted: Option<ControlView>,
    id: CameraIdentity,
    conf: Option<Seq<char>>,
)
    requires
        recovery is NothingPending || recovery is ForAnotherCamera || recovery is AlreadyRestored
            || recovery is Restored || recovery is RestoredRecordKept,
    ensures
        ({
            let plan = planned(recovery, wanted, id, conf);
            let named = match conf {
                Some(text) => recorded(text, id.usb_text()),
                None => None,
            };
            let usable = named is Some && documented(id, (named->0).0, (named->0).1);
            let known = built_in(id.vid, id.pid);
            let fits = known is Some && documented(id, known->0.unit, known->0.selector);
            &&& wanted matches Some(ctrl) ==> plan == ActionView::Override(ctrl)
            &&& wanted is None && usable ==> plan == (ActionView::DeviceDefault {
                unit: (named->0).0,
                selector: (named->0).1,
            })
            &&& wanted is None && !usable && fits ==> plan == ActionView::KnownPayload(known->0)
            &&& plan is Nothing <==> wanted is None && !usable && !fits
        }),
{
}

/// The control that an action writes to is its own, and an action that writes to none is nothing.
pub proof fn an_action_has_its_own_target(ctrl: ControlView, unit: u8, selector: u8)
    ensures
        ActionView::Nothing.target() is None,
        ActionView::Override(ctrl).target() == Some((ctrl.unit, ctrl.selector)),
        ActionView::KnownPayload(ctrl).target() == Some((ctrl.unit, ctrl.selector)),
        (ActionView::DeviceDefault { unit, selector }).target() == Some((unit, selector)),
{
}

/// A named control is looked up under the number of the device, the camera's identity and its own
/// coordinates. Where nothing was decided about it, or the same bytes were taken, it is applied
/// exactly as it was named, if the camera publishes it; and where nothing was decided, the decision
/// is recorded under that key.
pub proof fn a_named_control_is_applied_as_named(
    id: CameraIdentity,
    ctrl: ControlView,
    rdev: u64,
)
    ensures
        ({
            let key = OverrideKey {
                rdev,
                interface_number: id.interface_number,
                vid: id.vid,
                pid: id.pid,
                unit: ctrl.unit,
                selector: ctrl.selector,
            };
            let asking = (EnableView::DeviceNumber { id, ctrl }).step(
                EnableReplyView::Device(Some(rdev)),
            );
            let decide = asking.step(EnableReplyView::Consulted(Some(Reuse::Decide)));
            let again = asking.step(EnableReplyView::Consulted(Some(Reuse::Answer(true))));
            let offered = unpublished(id, ctrl.unit, ctrl.selector) is None;
            &&& asking.asked() == Some(EnableRequest::Consult { key, payload: ctrl.payload })
            &&& offered ==> decide == (EnableView::Apply {
                named: true,
                remember: Some(key),
                application: Application::<Seq<u8>>::given(ctrl),
            }) && again == (EnableView::Apply {
                named: true,
                remember: None,
                application: Application::<Seq<u8>>::given(ctrl),
            })
            &&& !offered ==> decide.asked() == Some(
                EnableRequest::Settle { key, payload: ctrl.payload, applied: false },
            ) && (again matches EnableView::Ready(mode) && !mode.active && !mode.armed)
        }),
{
}

/// A control that was refused before, that was decided for other bytes, whose decision cannot be
/// had, or whose device has no number is not applied: the stream stays as it is.
pub proof fn a_decided_refusal_stands(id: CameraIdentity, ctrl: ControlView, key: OverrideKey)
    ensures
        ({
            let dark = |next: EnableView|
                next matches EnableView::Ready(mode) && !mode.active && !mode.armed;
            let asking = EnableView::Consult { id, ctrl, key };
            &&& dark(asking.step(EnableReplyView::Consulted(Some(Reuse::Answer(false)))))
            &&& dark(asking.step(EnableReplyView::Consulted(Some(Reuse::RefuseChanged))))
            &&& dark(asking.step(EnableReplyView::Consulted(None)))
            &&& dark((EnableView::DeviceNumber { id, ctrl }).step(EnableReplyView::Device(None)))
        }),
{
}

/// An application goes on until it ends. A change that the camera took lights the stream and arms
/// its guard over exactly that change; a control that held the bytes already is claimed where the
/// lock is held, and lights the stream in any case; and a control that nothing reached leaves it
/// dark.
pub proof fn an_applied_control_lights_the_stream(
    named: bool,
    application: Application<Seq<u8>>,
    reply: CaptureReply<Seq<u8>>,
)
    ensures
        ({
            let next = (EnableView::Apply { named, remember: None, application }).step(
                EnableReplyView::Capture(reply),
            );
            let after = application.step(reply);
            match after.result() {
                None => next == (EnableView::Apply { named, remember: None, application: after }),
                Some(ApplyResult::Done { write, applied }) => match write.outcome {
                    Applied::Wrote => next == EnableView::Ready(
                        ModeView {
                            unit: after.unit,
                            selector: after.selector,
                            restore: write.current,
                            applied,
                            armed: true,
                            active: true,
                            hold: write.hold,
                        },
                    ),
                    Applied::AlreadyHeld => if write.hold == Hold::Lock {
                        next.asked() == Some(
                            EnableRequest::Claim {
                                unit: after.unit,
                                selector: after.selector,
                                current: write.current,
                            },
                        )
                    } else {
                        next matches EnableView::Ready(mode) && mode.active && !mode.armed
                    },
                    Applied::Nothing => next matches EnableView::Ready(mode) && !mode.active
                        && !mode.armed,
                },
                Some(ApplyResult::Refused(_)) => next matches EnableView::Ready(mode)
                    && !mode.active && !mode.armed,
            }
        }),
{
}

/// A decision that is to be recorded is, with whether the control holds the bytes; and the stream is
/// then what it would have been without that.
pub proof fn a_decision_is_recorded_as_it_was_made(
    key: OverrideKey,
    application: Application<Seq<u8>>,
    reply: CaptureReply<Seq<u8>>,
)
    requires
        application.step(reply).result() matches Some(ApplyResult::Done { write, applied }),
    ensures
        ({
            let write = application.step(reply).result()->0->write;
            let applied = application.step(reply).result()->0->applied;
            let remembered = (EnableView::Apply {
                named: true,
                remember: Some(key),
                application,
            }).step(EnableReplyView::Capture(reply));
            let plain = (EnableView::Apply { named: true, remember: None, application }).step(
                EnableReplyView::Capture(reply),
            );
            &&& remembered.asked() == Some(
                EnableRequest::Settle {
                    key,
                    payload: applied,
                    applied: write.outcome == Applied::Wrote || write.outcome
                        == Applied::AlreadyHeld,
                },
            )
            &&& remembered.step(EnableReplyView::Settled) == plain
        }),
{
}

/// A leftover that is claimed arms the guard over what it had displaced; without one, the stream is
/// lit and owes nothing.
pub proof fn a_claimed_leftover_arms_the_guard(
    unit: u8,
    selector: u8,
    current: Seq<u8>,
    applied: Seq<u8>,
    displaced: Seq<u8>,
)
    ensures
        ({
            let claiming = EnableView::Claim { unit, selector, current, applied };
            &&& claiming.step(EnableReplyView::Claimed(Some(displaced))) == EnableView::Ready(
                ModeView {
                    unit,
                    selector,
                    restore: displaced,
                    applied,
                    armed: true,
                    active: true,
                    hold: Hold::Record,
                },
            )
            &&& claiming.step(EnableReplyView::Claimed(None)) matches EnableView::Ready(mode)
                && mode.active && !mode.armed
        }),
{
}

/// A camera of the built-in table is lit from the configuration's absence on: it is asked for its
/// capabilities and its length, locked, read, its change recorded, written with the table's payload
/// and confirmed; and the stream is lit and owes exactly what the control held before.
pub proof fn a_known_camera_is_lit(
    id: CameraIdentity,
    ctrl: ControlView,
    info: u8,
    current: Seq<u8>,
    confirmed: bool,
)
    requires
        built_in(id.vid, id.pid) == Some(ctrl),
        documented(id, ctrl.unit, ctrl.selector),
        info & 0x02 != 0,
        info & 0x04 == 0,
        info & 0x20 == 0,
        current != ctrl.payload,
    ensures
        ({
            let camera = |reply: crate::ir_emitter::xu::CameraReply<Seq<u8>>|
                EnableReplyView::Capture(CaptureReply::Camera(reply));
            let e0 = EnableView::ReadConf { id };
            let e1 = e0.step(EnableReplyView::Conf(None));
            let e2 = e1.step(camera(crate::ir_emitter::xu::CameraReply::Info(info)));
            let e3 = e2.step(camera(crate::ir_emitter::xu::CameraReply::Length(9)));
            let e4 = e3.step(EnableReplyView::Capture(CaptureReply::Lock(crate::ir_emitter::capture_write::LockReply::Taken)));
            let e5 = e4.step(camera(crate::ir_emitter::xu::CameraReply::Bytes(current)));
            let e6 = e5.step(EnableReplyView::Capture(CaptureReply::Save(crate::ir_emitter::capture_write::SaveReply::Recorded)));
            let e7 = e6.step(camera(crate::ir_emitter::xu::CameraReply::Accepted));
            let e8 = e7.step(EnableReplyView::Capture(CaptureReply::Stored(confirmed)));
            &&& e6.asked() == Some(
                EnableRequest::Capture(
                    CaptureRequest::Camera(CameraRequest::Write(ctrl.payload)),
                ),
            )
            &&& e8 == EnableView::Ready(
                ModeView {
                    unit: ctrl.unit,
                    selector: ctrl.selector,
                    restore: current,
                    applied: ctrl.payload,
                    armed: true,
                    active: true,
                    hold: Hold::Record,
                },
            )
        }),
{
    crate::ir_emitter::control::the_built_in_table_is_these_two_cameras(id.vid, id.pid);
    assert(ctrl.payload.len() == 9);
    let camera = |reply: crate::ir_emitter::xu::CameraReply<Seq<u8>>| EnableReplyView::Capture(CaptureReply::Camera(reply));
    let e1 = (EnableView::ReadConf { id }).step(EnableReplyView::Conf(None));
    let e2 = e1.step(camera(crate::ir_emitter::xu::CameraReply::Info(info)));
    let e3 = e2.step(camera(crate::ir_emitter::xu::CameraReply::Length(9)));
    let e4 = e3.step(EnableReplyView::Capture(CaptureReply::Lock(crate::ir_emitter::capture_write::LockReply::Taken)));
    let e5 = e4.step(camera(crate::ir_emitter::xu::CameraReply::Bytes(current)));
    let e6 = e5.step(EnableReplyView::Capture(CaptureReply::Save(crate::ir_emitter::capture_write::SaveReply::Recorded)));
    assert(e2 is Apply);
    assert(e3 is Apply);
    assert(e4 is Apply);
    assert(e5 is Apply);
    assert(e6 is Apply);
}

} // verus!
