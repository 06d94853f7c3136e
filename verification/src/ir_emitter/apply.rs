//! Applying a control: the evidence that every write needs, whoever named the control.
//!
//! Before anything is sent the control has to be published, the camera has to say that it accepts
//! a write now, and the value has to be as long as the camera states.
use vstd::prelude::*;
use crate::ir_emitter::capture_write::{
    replies_to, CaptureReply, CaptureRequest, CaptureWrite, CaptureWriter, WritePhase,
};
use crate::ir_emitter::control::{ControlView, EmitterControl};
use crate::ir_emitter::derive::{Derivation, Intended};
use crate::ir_emitter::descriptor::{first_with_id, unit_ids, CameraIdentity};
use crate::ir_emitter::xu::{
    info_allows_set, plausible_len, settable, valid_ctrl_len, CameraReply, CameraRequest, XuError,
};
use crate::text::{copy_bytes, decimal, decimal_list, hex_digits, push_decimal, push_decimal_list,
    push_hex};

verus! {

/// Why an override was not written to the camera. Each variant names something that the camera
/// itself failed to say.
#[derive(Clone, Debug, PartialEq, Eq)]
pub enum OverrideRefusal<B> {
    /// The USB descriptor has no extension unit with that id.
    NoSuchUnit { unit: u8, seen: B },
    /// The unit exists but does not advertise that selector.
    NotAdvertised { unit: u8, selector: u8 },
    /// The control does not accept a write right now.
    WriteNotAccepted { unit: u8, selector: u8, info: u8 },
    /// The control is not as long as the bytes that the override supplies.
    WrongLength { unit: u8, selector: u8, wants: usize, given: usize },
    /// A request that the descriptor says the control answers went unanswered.
    Unreadable { unit: u8, selector: u8, err: XuError },
}

impl View for OverrideRefusal<Vec<u8>> {
    type V = OverrideRefusal<Seq<u8>>;

    open spec fn view(&self) -> OverrideRefusal<Seq<u8>> {
        match *self {
            OverrideRefusal::NoSuchUnit { unit, seen } => OverrideRefusal::NoSuchUnit {
                unit,
                seen: seen@,
            },
            OverrideRefusal::NotAdvertised { unit, selector } => OverrideRefusal::NotAdvertised {
                unit,
                selector,
            },
            OverrideRefusal::WriteNotAccepted { unit, selector, info } => {
                OverrideRefusal::WriteNotAccepted { unit, selector, info }
            },
            OverrideRefusal::WrongLength { unit, selector, wants, given } => {
                OverrideRefusal::WrongLength { unit, selector, wants, given }
            },
            OverrideRefusal::Unreadable { unit, selector, err } => OverrideRefusal::Unreadable {
                unit,
                selector,
                err,
            },
        }
    }
}

impl OverrideRefusal<Seq<u8>> {
    /// The sentence that describes the refusal, with the words for a failed request.
    pub open spec fn worded(self, failure: Seq<char>) -> Seq<char> {
        match self {
            OverrideRefusal::NoSuchUnit { unit, seen } => "this camera publishes no extension unit "@
                + decimal(unit as nat) + " (it has units ["@ + decimal_list(seen, ", "@) + "])"@,
            OverrideRefusal::NotAdvertised { unit, selector } => "unit "@ + decimal(unit as nat)
                + " does not advertise selector "@ + decimal(selector as nat)
                + " in its descriptor"@,
            OverrideRefusal::WriteNotAccepted { unit, selector, info } => "unit "@ + decimal(
                unit as nat,
            ) + " selector "@ + decimal(selector as nat) + " reports capabilities 0x"@ + hex_digits(
                info as nat,
                2,
            ) + ", which does not accept a write right now"@,
            OverrideRefusal::WrongLength { unit, selector, wants, given } => "unit "@ + decimal(
                unit as nat,
            ) + " selector "@ + decimal(selector as nat) + " takes "@ + decimal(wants as nat)
                + " bytes, not the "@ + decimal(given as nat) + " given"@,
            OverrideRefusal::Unreadable { unit, selector, err } => "unit "@ + decimal(unit as nat)
                + " selector "@ + decimal(selector as nat)
                + " did not answer a request its own descriptor says it implements ("@ + failure
                + ")"@,
        }
    }

    /// Whether a text describes the refusal.
    pub open spec fn described_by(self, text: Seq<char>) -> bool {
        match self {
            OverrideRefusal::Unreadable { unit, selector, err } => exists|failure: Seq<char>|
                err.described_by(failure) && text == #[trigger] self.worded(failure),
            _ => text == self.worded(seq![]),
        }
    }
}

impl OverrideRefusal<Vec<u8>> {
    /// The sentence that describes the refusal, with the words for a failed request.
    #[must_use]
    pub fn message_with(&self, failure: &str) -> (r: String)
        ensures
            r@ == self@.worded(failure@),
    {
        match self {
            OverrideRefusal::NoSuchUnit { unit, seen } => {
                let mut s: String = "this camera publishes no extension unit ".to_owned();
                push_decimal(&mut s, *unit as u64);
                s.append(" (it has units [");
                push_decimal_list(&mut s, seen.as_slice(), ", ");
                s.append("])");
                s
            },
            OverrideRefusal::NotAdvertised { unit, selector } => {
                let mut s: String = "unit ".to_owned();
                push_decimal(&mut s, *unit as u64);
                s.append(" does not advertise selector ");
                push_decimal(&mut s, *selector as u64);
                s.append(" in its descriptor");
                s
            },
            OverrideRefusal::WriteNotAccepted { unit, selector, info } => {
                let mut s: String = "unit ".to_owned();
                push_decimal(&mut s, *unit as u64);
                s.append(" selector ");
                push_decimal(&mut s, *selector as u64);
                s.append(" reports capabilities 0x");
                push_hex(&mut s, *info as u128, 2);
                s.append(", which does not accept a write right now");
                s
            },
            OverrideRefusal::WrongLength { unit, selector, wants, given } => {
                let mut s: String = "unit ".to_owned();
                push_decimal(&mut s, *unit as u64);
                s.append(" selector ");
                push_decimal(&mut s, *selector as u64);
                s.append(" takes ");
                push_decimal(&mut s, *wants as u64);
                s.append(" bytes, not the ");
                push_decimal(&mut s, *given as u64);
                s.append(" given");
                s
            },
            OverrideRefusal::Unreadable { unit, selector, err: _ } => {
                let mut s: String = "unit ".to_owned();
                push_decimal(&mut s, *unit as u64);
                s.append(" selector ");
                push_decimal(&mut s, *selector as u64);
                s.append(" did not answer a request its own descriptor says it implements (");
                s.append(failure);
                s.append(")");
                s
            },
        }
    }

    /// The sentence that describes the refusal.
    #[must_use]
    pub fn message(&self) -> (r: String)
        ensures
            self@.described_by(r@),
    {
        match self {
            OverrideRefusal::Unreadable { unit: _, selector: _, err } => {
                let failure: String = err.message();
                let r: String = self.message_with(failure.as_str());
                assert(err.described_by(failure@) && r@ == self@.worded(failure@));
                r
            },
            _ => {
                proof {
                    reveal_strlit("");
                }
                assert(""@ =~= seq![]);
                self.message_with("")
            },
        }
    }
}

/// Why an override names a control that the camera does not publish, if it does.
pub open spec fn unpublished(id: CameraIdentity, unit: u8, selector: u8) -> Option<
    OverrideRefusal<Seq<u8>>,
> {
    match first_with_id(id.units@, unit) {
        None => Some(OverrideRefusal::NoSuchUnit { unit, seen: unit_ids(id.units@) }),
        Some(published) => if published.offers(selector) {
            None
        } else {
            Some(OverrideRefusal::NotAdvertised { unit, selector })
        },
    }
}

/// The descriptor half of the override's gate: the named unit must exist on this camera and
/// advertise the named selector. It need not be Microsoft's: the override exists for cameras that
/// have no such unit, and a vendor unit that publishes a selector has stated that the control is
/// there.
pub fn override_is_published(id: &CameraIdentity, ctrl: &EmitterControl) -> (r: Result<
    (),
    OverrideRefusal<Vec<u8>>,
>)
    ensures
        match r {
            Ok(()) => unpublished(*id, ctrl.unit, ctrl.selector) is None,
            Err(why) => unpublished(*id, ctrl.unit, ctrl.selector) == Some(why@),
        },
{
    match id.unit_with_id(ctrl.unit) {
        None => Err(OverrideRefusal::NoSuchUnit { unit: ctrl.unit, seen: id.ids() }),
        Some(published) => if published.advertises(ctrl.selector) {
            Ok(())
        } else {
            Err(OverrideRefusal::NotAdvertised { unit: ctrl.unit, selector: ctrl.selector })
        },
    }
}

// ---------------------------------------------------------------------------------------------
// Application
// ---------------------------------------------------------------------------------------------

/// Where the bytes to write come from.
#[derive(Clone, Debug, PartialEq, Eq)]
pub enum Source<B> {
    /// They are given: by a person, or by the built-in table.
    Given(B),
    /// They are derived from the camera's own answers.
    Device,
}

impl View for Source<Vec<u8>> {
    type V = Source<Seq<u8>>;

    open spec fn view(&self) -> Source<Seq<u8>> {
        match *self {
            Source::Given(payload) => Source::Given(payload@),
            Source::Device => Source::Device,
        }
    }
}

/// Why a control was not applied.
#[derive(Clone, Copy, Debug, PartialEq, Eq, Structural)]
pub enum ApplyRefusal {
    /// The control does not accept a write right now.
    NotAccepted { info: u8 },
    /// The control is not as long as the given bytes.
    WrongLength { wants: usize },
    /// The camera has not clearly said what the control accepts.
    NotDerived,
    /// A request went unanswered.
    Unreadable(XuError),
}

/// Where an application stands.
#[derive(Clone, Debug, PartialEq, Eq)]
pub enum ApplyPhase<B> {
    Info,
    Length,
    Derive(Derivation<B>),
    Write(CaptureWriter<B>),
    Refused(ApplyRefusal),
}

impl View for ApplyPhase<Vec<u8>> {
    type V = ApplyPhase<Seq<u8>>;

    open spec fn view(&self) -> ApplyPhase<Seq<u8>> {
        match *self {
            ApplyPhase::Info => ApplyPhase::Info,
            ApplyPhase::Length => ApplyPhase::Length,
            ApplyPhase::Derive(derivation) => ApplyPhase::Derive(derivation@),
            ApplyPhase::Write(writer) => ApplyPhase::Write(writer@),
            ApplyPhase::Refused(why) => ApplyPhase::Refused(why),
        }
    }
}

/// What an application came to.
#[derive(Clone, Debug, PartialEq, Eq)]
pub enum ApplyResult<B> {
    /// The control was looked at, and `applied` is what it should hold.
    Done { write: CaptureWrite<B>, applied: B },
    Refused(ApplyRefusal),
}

impl View for ApplyResult<Vec<u8>> {
    type V = ApplyResult<Seq<u8>>;

    open spec fn view(&self) -> ApplyResult<Seq<u8>> {
        match *self {
            ApplyResult::Done { write, applied } => ApplyResult::Done {
                write: write@,
                applied: applied@,
            },
            ApplyResult::Refused(why) => ApplyResult::Refused(why),
        }
    }
}

/// The application of one control.
#[derive(Clone, Debug, PartialEq, Eq)]
pub struct Application<B> {
    pub unit: u8,
    pub selector: u8,
    pub source: Source<B>,
    pub phase: ApplyPhase<B>,
}

impl View for Application<Vec<u8>> {
    type V = Application<Seq<u8>>;

    open spec fn view(&self) -> Application<Seq<u8>> {
        Application {
            unit: self.unit,
            selector: self.selector,
            source: self.source@,
            phase: self.phase@,
        }
    }
}

impl Application<Seq<u8>> {
    /// The application of given bytes, before the first request.
    pub open spec fn given(control: ControlView) -> Self {
        Application {
            unit: control.unit,
            selector: control.selector,
            source: Source::Given(control.payload),
            phase: ApplyPhase::Info,
        }
    }

    /// The application of what the camera itself says, before the first request.
    pub open spec fn of_device(unit: u8, selector: u8) -> Self {
        Application { unit, selector, source: Source::Device, phase: ApplyPhase::Info }
    }

    /// What is asked for next, if anything is.
    pub open spec fn asked(self) -> Option<CaptureRequest<Seq<u8>>> {
        match self.phase {
            ApplyPhase::Info => Some(CaptureRequest::Camera(CameraRequest::GetInfo)),
            ApplyPhase::Length => Some(CaptureRequest::Camera(CameraRequest::GetLen)),
            ApplyPhase::Derive(derivation) => match derivation.asked() {
                Some(request) => Some(CaptureRequest::Camera(request)),
                None => None,
            },
            ApplyPhase::Write(writer) => writer.asked(),
            ApplyPhase::Refused(_) => None,
        }
    }

    /// The phase once the length is known.
    pub open spec fn after_length(self, len: u16) -> ApplyPhase<Seq<u8>> {
        if !plausible_len(len as int) {
            ApplyPhase::Refused(ApplyRefusal::Unreadable(XuError::Unsupported))
        } else {
            match self.source {
                Source::Given(payload) => if payload.len() != len {
                    ApplyPhase::Refused(ApplyRefusal::WrongLength { wants: len as usize })
                } else {
                    ApplyPhase::Write(CaptureWriter::<Seq<u8>>::start(payload))
                },
                Source::Device => ApplyPhase::Derive(
                    Derivation::<Seq<u8>>::start(self.selector, len as usize),
                ),
            }
        }
    }

    /// The phase after a derivation took a reply.
    pub open spec fn after_derivation(derivation: Derivation<Seq<u8>>) -> ApplyPhase<Seq<u8>> {
        match derivation.result() {
            None => ApplyPhase::Derive(derivation),
            Some(Intended::Value(value)) => ApplyPhase::Write(
                CaptureWriter::<Seq<u8>>::start(value),
            ),
            Some(Intended::Refused(_)) => ApplyPhase::Refused(ApplyRefusal::NotDerived),
            Some(Intended::Failed(err)) => ApplyPhase::Refused(ApplyRefusal::Unreadable(err)),
        }
    }

    /// The phase after a reply.
    pub open spec fn next_phase(self, reply: CaptureReply<Seq<u8>>) -> ApplyPhase<Seq<u8>> {
        match (self.phase, reply) {
            (ApplyPhase::Info, CaptureReply::Camera(CameraReply::Info(info))) => if settable(
                info,
            ) {
                ApplyPhase::Length
            } else {
                ApplyPhase::Refused(ApplyRefusal::NotAccepted { info })
            },
            (ApplyPhase::Length, CaptureReply::Camera(CameraReply::Length(len))) => {
                self.after_length(len)
            },
            (ApplyPhase::Derive(derivation), CaptureReply::Camera(reply)) => {
                Application::<Seq<u8>>::after_derivation(derivation.step(reply))
            },
            (ApplyPhase::Write(writer), _) => ApplyPhase::Write(writer.step(reply)),
            (_, CaptureReply::Camera(CameraReply::Failed(err))) => ApplyPhase::Refused(
                ApplyRefusal::Unreadable(err),
            ),
            (phase, _) => phase,
        }
    }

    /// The application after a reply.
    pub open spec fn step(self, reply: CaptureReply<Seq<u8>>) -> Self {
        Application { phase: self.next_phase(reply), ..self }
    }

    /// What the application came to, once it asks for nothing more.
    pub open spec fn result(self) -> Option<ApplyResult<Seq<u8>>> {
        match self.phase {
            ApplyPhase::Write(writer) => match writer.phase {
                WritePhase::Finished(write) => Some(
                    ApplyResult::Done { write, applied: writer.wanted },
                ),
                WritePhase::Failed(err) => Some(ApplyResult::Refused(ApplyRefusal::Unreadable(err))),
                _ => None,
            },
            ApplyPhase::Refused(why) => Some(ApplyResult::Refused(why)),
            _ => None,
        }
    }

    /// The bytes that were given, if any were.
    pub open spec fn given_bytes(self) -> Seq<u8> {
        match self.source {
            Source::Given(payload) => payload,
            Source::Device => seq![],
        }
    }

    /// What every application keeps.
    pub open spec fn well_formed(self) -> bool {
        match self.phase {
            ApplyPhase::Derive(derivation) => derivation.well_formed() && derivation.asked() is Some
                && plausible_len(derivation.len as int),
            ApplyPhase::Write(writer) => writer.well_formed() && plausible_len(
                writer.wanted.len() as int,
            ),
            _ => true,
        }
    }
}

impl Application<Vec<u8>> {
    /// The application of a built-in payload, or of an override that the camera publishes.
    #[must_use]
    pub fn known_payload(ctrl: EmitterControl) -> (r: Self)
        ensures
            r@ == Application::<Seq<u8>>::given(ctrl@),
            r@.well_formed(),
    {
        Application {
            unit: ctrl.unit,
            selector: ctrl.selector,
            source: Source::Given(ctrl.payload),
            phase: ApplyPhase::Info,
        }
    }

    /// The application of a control's own value, with the checks that setup makes.
    #[must_use]
    pub fn device_default(unit: u8, selector: u8) -> (r: Self)
        ensures
            r@ == Application::<Seq<u8>>::of_device(unit, selector),
            r@.well_formed(),
    {
        Application { unit, selector, source: Source::Device, phase: ApplyPhase::Info }
    }

    /// What is asked for next, if anything is.
    #[must_use]
    pub fn request(&self) -> (r: Option<CaptureRequest<Vec<u8>>>)
        ensures
            match r {
                Some(request) => self@.asked() == Some(request@),
                None => self@.asked() is None,
            },
    {
        match &self.phase {
            ApplyPhase::Info => Some(CaptureRequest::Camera(CameraRequest::GetInfo)),
            ApplyPhase::Length => Some(CaptureRequest::Camera(CameraRequest::GetLen)),
            ApplyPhase::Derive(derivation) => match derivation.request() {
                Some(request) => Some(CaptureRequest::Camera(request)),
                None => None,
            },
            ApplyPhase::Write(writer) => writer.request(),
            ApplyPhase::Refused(_) => None,
        }
    }

    fn length_known(&self, len: u16) -> (r: ApplyPhase<Vec<u8>>)
        ensures
            r@ == self@.after_length(len),
            (Application { phase: r@, ..self@ }).well_formed(),
    {
        let len: usize = match valid_ctrl_len(len as usize) {
            Some(len) => len,
            None => {
                return ApplyPhase::Refused(ApplyRefusal::Unreadable(XuError::Unsupported));
            },
        };
        match &self.source {
            Source::Given(payload) => {
                if payload.len() != len {
                    ApplyPhase::Refused(ApplyRefusal::WrongLength { wants: len })
                } else {
                    ApplyPhase::Write(CaptureWriter::new(copy_bytes(payload.as_slice())))
                }
            },
            Source::Device => ApplyPhase::Derive(Derivation::new(self.selector, len)),
        }
    }

    fn derived(derivation: Derivation<Vec<u8>>) -> (r: ApplyPhase<Vec<u8>>)
        requires
            derivation@.well_formed(),
            plausible_len(derivation@.len as int),
        ensures
            r@ == Application::<Seq<u8>>::after_derivation(derivation@),
            match r@ {
                ApplyPhase::Derive(d) => d.well_formed() && d.asked() is Some && plausible_len(
                    d.len as int,
                ),
                ApplyPhase::Write(w) => w.well_formed() && plausible_len(w.wanted.len() as int),
                _ => true,
            },
    {
        match derivation.outcome() {
            None => ApplyPhase::Derive(derivation),
            Some(Intended::Value(value)) => ApplyPhase::Write(CaptureWriter::new(value)),
            Some(Intended::Refused(_)) => ApplyPhase::Refused(ApplyRefusal::NotDerived),
            Some(Intended::Failed(err)) => ApplyPhase::Refused(ApplyRefusal::Unreadable(err)),
        }
    }

    /// Takes the reply to the last request.
    #[must_use]
    pub fn advance(self, reply: CaptureReply<Vec<u8>>) -> (r: Self)
        requires
            self@.well_formed(),
            self@.asked() is Some,
            replies_to(self@.asked()->0, reply@),
        ensures
            r@ == self@.step(reply@),
            r@.well_formed(),
    {
        if let ApplyPhase::Length = &self.phase {
            let phase: ApplyPhase<Vec<u8>> = match reply {
                CaptureReply::Camera(CameraReply::Length(len)) => self.length_known(len),
                CaptureReply::Camera(CameraReply::Failed(err)) => ApplyPhase::Refused(
                    ApplyRefusal::Unreadable(err),
                ),
                _ => ApplyPhase::Length,
            };
            return Application {
                unit: self.unit,
                selector: self.selector,
                source: self.source,
                phase,
            };
        }
        let phase: ApplyPhase<Vec<u8>> = match self.phase {
            ApplyPhase::Write(writer) => ApplyPhase::Write(writer.advance(reply)),
            ApplyPhase::Derive(derivation) => match reply {
                CaptureReply::Camera(reply) => Application::<Vec<u8>>::derived(
                    derivation.advance(reply),
                ),
                _ => ApplyPhase::Derive(derivation),
            },
            ApplyPhase::Info => match reply {
                CaptureReply::Camera(CameraReply::Info(info)) => if info_allows_set(info) {
                    ApplyPhase::Length
                } else {
                    ApplyPhase::Refused(ApplyRefusal::NotAccepted { info })
                },
                CaptureReply::Camera(CameraReply::Failed(err)) => ApplyPhase::Refused(
                    ApplyRefusal::Unreadable(err),
                ),
                _ => ApplyPhase::Info,
            },
            phase => phase,
        };
        Application { unit: self.unit, selector: self.selector, source: self.source, phase }
    }

    /// What the application came to, or `None` while it still asks.
    #[must_use]
    pub fn outcome(&self) -> (r: Option<ApplyResult<Vec<u8>>>)
        ensures
            match r {
                Some(result) => self@.result() == Some(result@),
                None => self@.result() is None,
            },
    {
        match &self.phase {
            ApplyPhase::Write(writer) => match &writer.phase {
                WritePhase::Finished(write) => Some(
                    ApplyResult::Done {
                        write: CaptureWrite {
                            outcome: write.outcome,
                            current: copy_bytes(write.current.as_slice()),
                            hold: write.hold,
                        },
                        applied: copy_bytes(writer.wanted.as_slice()),
                    },
                ),
                WritePhase::Failed(err) => Some(
                    ApplyResult::Refused(ApplyRefusal::Unreadable(*err)),
                ),
                _ => None,
            },
            ApplyPhase::Refused(why) => Some(ApplyResult::Refused(*why)),
            _ => None,
        }
    }

    /// The bytes that were given, if any were.
    #[must_use]
    pub fn payload(&self) -> (r: Vec<u8>)
        ensures
            r@ == self@.given_bytes(),
    {
        match &self.source {
            Source::Given(payload) => copy_bytes(payload.as_slice()),
            Source::Device => {
                let none: Vec<u8> = Vec::new();
                assert(none@ =~= seq![]);
                none
            },
        }
    }

    /// What the refusal of an override is, in the override's own terms.
    #[must_use]
    pub fn override_refusal(&self, why: ApplyRefusal) -> (r: OverrideRefusal<Vec<u8>>)
        ensures
            r@ == self@.as_override_refusal(why),
    {
        let given: usize = match &self.source {
            Source::Given(payload) => payload.len(),
            Source::Device => 0,
        };
        let (unit, selector): (u8, u8) = (self.unit, self.selector);
        match why {
            ApplyRefusal::NotAccepted { info } => OverrideRefusal::WriteNotAccepted {
                unit,
                selector,
                info,
            },
            ApplyRefusal::WrongLength { wants } => OverrideRefusal::WrongLength {
                unit,
                selector,
                wants,
                given,
            },
            ApplyRefusal::NotDerived => OverrideRefusal::Unreadable {
                unit,
                selector,
                err: XuError::Unsupported,
            },
            ApplyRefusal::Unreadable(err) => OverrideRefusal::Unreadable { unit, selector, err },
        }
    }
}

impl Application<Seq<u8>> {
    /// What the refusal of an override is, in the override's own terms.
    pub open spec fn as_override_refusal(self, why: ApplyRefusal) -> OverrideRefusal<Seq<u8>> {
        let unit = self.unit;
        let selector = self.selector;
        match why {
            ApplyRefusal::NotAccepted { info } => OverrideRefusal::WriteNotAccepted {
                unit,
                selector,
                info,
            },
            ApplyRefusal::WrongLength { wants } => OverrideRefusal::WrongLength {
                unit,
                selector,
                wants,
                given: match self.source {
                    Source::Given(payload) => payload.len() as usize,
                    Source::Device => 0,
                },
            },
            ApplyRefusal::NotDerived => OverrideRefusal::Unreadable {
                unit,
                selector,
                err: XuError::Unsupported,
            },
            ApplyRefusal::Unreadable(err) => OverrideRefusal::Unreadable { unit, selector, err },
        }
    }
}

impl ApplyRefusal {
    /// The refusal of an automatic write, as a failed request.
    pub open spec fn as_error(self) -> XuError {
        match self {
            ApplyRefusal::Unreadable(err) => err,
            _ => XuError::Unsupported,
        }
    }

    /// The refusal of an automatic write, as a failed request.
    #[must_use]
    pub fn error(self) -> (r: XuError)
        ensures
            r == self.as_error(),
    {
        match self {
            ApplyRefusal::Unreadable(err) => err,
            _ => XuError::Unsupported,
        }
    }
}

// ---------------------------------------------------------------------------------------------
// Laws
// ---------------------------------------------------------------------------------------------

impl Application<Seq<u8>> {
    /// The application after replies, the first of them first.
    pub open spec fn after_all(self, replies: Seq<CaptureReply<Seq<u8>>>) -> Self
        decreases replies.len(),
    {
        if replies.len() == 0 {
            self
        } else {
            self.after_all(replies.drop_last()).step(replies.last())
        }
    }

    /// How many requests an application still makes at most.
    pub open spec fn left(self) -> int {
        match self.phase {
            ApplyPhase::Info => 12,
            ApplyPhase::Length => 11,
            ApplyPhase::Derive(derivation) => 5 + derivation.left(),
            ApplyPhase::Write(writer) => writer.left(),
            ApplyPhase::Refused(_) => 0,
        }
    }

    /// Whether the next request changes the camera.
    pub open spec fn writes(self) -> bool {
        self.asked() matches Some(CaptureRequest::Camera(CameraRequest::Write(_)))
    }

    /// Whether each reply of a run is one that the request before it can have.
    pub open spec fn proper_run(self, replies: Seq<CaptureReply<Seq<u8>>>) -> bool {
        forall|i: int|
            0 <= i < replies.len() ==> {
                let before = self.after_all(#[trigger] replies.take(i));
                before.asked() is Some && replies_to(before.asked()->0, replies[i])
            }
    }
}

proof fn shorter_run(a: Application<Seq<u8>>, replies: Seq<CaptureReply<Seq<u8>>>)
    requires
        a.proper_run(replies),
        replies.len() > 0,
    ensures
        a.proper_run(replies.drop_last()),
        a.after_all(replies.drop_last()).asked() is Some,
        replies_to(a.after_all(replies.drop_last()).asked()->0, replies.last()),
{
    let shorter = replies.drop_last();
    assert(replies.take(shorter.len() as int) =~= shorter);
    assert forall|i: int| 0 <= i < shorter.len() implies {
        let before = a.after_all(#[trigger] shorter.take(i));
        before.asked() is Some && replies_to(before.asked()->0, shorter[i])
    } by {
        assert(replies.take(i) =~= shorter.take(i));
    }
}

/// Each reply brings an application nearer to its end, so no request is made twice over.
pub proof fn application_moves_on(a: Application<Seq<u8>>, reply: CaptureReply<Seq<u8>>)
    requires
        a.well_formed(),
        a.asked() is Some,
        replies_to(a.asked()->0, reply),
    ensures
        a.step(reply).left() < a.left(),
        a.step(reply).well_formed(),
{
}

/// Over any run, an application changes the camera at most once.
pub proof fn application_writes_at_most_once(
    a: Application<Seq<u8>>,
    replies: Seq<CaptureReply<Seq<u8>>>,
    i: int,
    j: int,
)
    requires
        a.well_formed(),
        a.proper_run(replies),
        0 <= i < j <= replies.len(),
        a.after_all(replies.take(i)).writes(),
    ensures
        !a.after_all(replies.take(j)).writes(),
        a.after_all(replies.take(j)).left() < 2,
    decreases j,
{
    let shorter = replies.take(j);
    assert(shorter.drop_last() =~= replies.take(j - 1));
    let before = a.after_all(replies.take(j - 1));
    assert(before.asked() is Some && replies_to(before.asked()->0, replies[j - 1]));
    run_stays_well_formed(a, replies, j - 1);
    application_moves_on(before, replies[j - 1]);
    if i < j - 1 {
        application_writes_at_most_once(a, replies, i, j - 1);
    }
}

proof fn run_stays_well_formed(
    a: Application<Seq<u8>>,
    replies: Seq<CaptureReply<Seq<u8>>>,
    n: int,
)
    requires
        a.well_formed(),
        a.proper_run(replies),
        0 <= n <= replies.len(),
    ensures
        a.after_all(replies.take(n)).well_formed(),
        a.after_all(replies.take(n)).source == a.source,
        a.after_all(replies.take(n)).selector == a.selector,
    decreases n,
{
    if n > 0 {
        run_stays_well_formed(a, replies, n - 1);
        assert(replies.take(n).drop_last() =~= replies.take(n - 1));
        let before = a.after_all(replies.take(n - 1));
        assert(before.asked() is Some && replies_to(before.asked()->0, replies[n - 1]));
        application_moves_on(before, replies[n - 1]);
    }
}

/// When an application is about to change the camera, the camera has said that it accepts a
/// write, and has stated exactly the length of what is written; and where the bytes were given,
/// they are the ones written.
pub proof fn a_write_needs_the_cameras_word(
    a: Application<Seq<u8>>,
    replies: Seq<CaptureReply<Seq<u8>>>,
    value: Seq<u8>,
)
    requires
        a.phase == ApplyPhase::<Seq<u8>>::Info,
        a.proper_run(replies),
        a.after_all(replies).asked() == Some(CaptureRequest::Camera(CameraRequest::Write(value))),
    ensures
        replies.len() >= 2,
        replies[0] matches CaptureReply::Camera(CameraReply::Info(info)) && settable(info),
        replies[1] matches CaptureReply::Camera(CameraReply::Length(len)) && plausible_len(
            len as int,
        ) && len == value.len(),
        a.source matches Source::Given(payload) ==> value == payload,
{
    gate_was_passed(a, replies);
}

proof fn gate_was_passed(a: Application<Seq<u8>>, replies: Seq<CaptureReply<Seq<u8>>>)
    requires
        a.phase == ApplyPhase::<Seq<u8>>::Info,
        a.proper_run(replies),
    ensures
        a.after_all(replies).well_formed(),
        a.after_all(replies).source == a.source,
        match a.after_all(replies).phase {
            ApplyPhase::Info => replies.len() == 0,
            ApplyPhase::Length => replies.len() == 1 && (replies[0] matches CaptureReply::Camera(
                CameraReply::Info(info),
            ) && settable(info)),
            ApplyPhase::Derive(derivation) => replies.len() >= 2 && (
            replies[0] matches CaptureReply::Camera(CameraReply::Info(info)) && settable(info)) && (
            replies[1] matches CaptureReply::Camera(CameraReply::Length(len)) && plausible_len(
                len as int,
            ) && len == derivation.len) && a.source is Device,
            ApplyPhase::Write(writer) => replies.len() >= 2 && (
            replies[0] matches CaptureReply::Camera(CameraReply::Info(info)) && settable(info)) && (
            replies[1] matches CaptureReply::Camera(CameraReply::Length(len)) && plausible_len(
                len as int,
            ) && len == writer.wanted.len()) && (a.source matches Source::Given(payload)
                ==> writer.wanted == payload),
            ApplyPhase::Refused(_) => true,
        },
    decreases replies.len(),
{
    if replies.len() > 0 {
        let shorter = replies.drop_last();
        shorter_run(a, replies);
        gate_was_passed(a, shorter);
        application_moves_on(a.after_all(shorter), replies.last());
        if shorter.len() >= 1 {
            assert(replies[0] == shorter[0]);
        }
        if shorter.len() >= 2 {
            assert(replies[1] == shorter[1]);
        }
    }
}

/// Once a request that comes before the write goes unanswered, nothing further is asked.
pub proof fn a_refusal_ends_the_application(a: Application<Seq<u8>>, reply: CaptureReply<Seq<u8>>)
    requires
        a.well_formed(),
        !(a.phase is Write),
        a.asked() is Some,
        reply matches CaptureReply::Camera(CameraReply::Failed(_)),
    ensures
        a.step(reply).asked() is None,
        a.step(reply).result() == Some(
            ApplyResult::<Seq<u8>>::Refused(
                ApplyRefusal::Unreadable(reply->Camera_0->Failed_0),
            ),
        ),
{
}

/// An override is published exactly where the first unit with its id advertises its selector,
/// whoever's unit it is; otherwise the refusal says which of the two is missing.
pub proof fn a_published_control_is_one_that_its_unit_advertises(
    id: CameraIdentity,
    unit: u8,
    selector: u8,
)
    ensures
        match first_with_id(id.units@, unit) {
            Some(published) => if published.selectors@.contains(selector) {
                unpublished(id, unit, selector) is None
            } else {
                unpublished(id, unit, selector) == Some(
                    OverrideRefusal::<Seq<u8>>::NotAdvertised { unit, selector },
                )
            },
            None => unpublished(id, unit, selector) matches Some(
                OverrideRefusal::NoSuchUnit { unit: missing, seen },
            ) && missing == unit && seen.len() == id.units@.len() && forall|i: int|
                0 <= i < seen.len() ==> #[trigger] seen[i] == id.units@[i].unit_id,
        },
{
}

/// Given bytes are applied to a control that accepts a change and is as long as they are: the
/// camera is asked for its capabilities and its length, and then the write of exactly those bytes
/// is begun.
pub proof fn given_bytes_are_applied(control: ControlView, info: u8, len: u16)
    requires
        info & 0x02 != 0,
        info & 0x04 == 0,
        info & 0x20 == 0,
        1 <= len <= 64,
    ensures
        ({
            let a0 = Application::<Seq<u8>>::given(control);
            let a1 = a0.step(CaptureReply::Camera(CameraReply::Info(info)));
            let a2 = a1.step(CaptureReply::Camera(CameraReply::Length(len)));
            &&& a0.asked() == Some(CaptureRequest::Camera(CameraRequest::<Seq<u8>>::GetInfo))
            &&& a1.asked() == Some(CaptureRequest::Camera(CameraRequest::<Seq<u8>>::GetLen))
            &&& a2.unit == control.unit
            &&& a2.selector == control.selector
            &&& control.payload.len() == len ==> a2.phase == ApplyPhase::Write(
                CaptureWriter::<Seq<u8>>::start(control.payload),
            ) && a2.asked() == Some(CaptureRequest::<Seq<u8>>::AcquireLock)
            &&& control.payload.len() != len ==> a2.asked() is None && a2.result() == Some(
                ApplyResult::<Seq<u8>>::Refused(
                    ApplyRefusal::WrongLength { wants: len as usize },
                ),
            )
        }),
{
}

/// A control's own value is applied once it is derived: the capabilities and the length are asked
/// for, the derivation goes on from there, and the write of what it came to is begun; what it could
/// not derive is not applied.
pub proof fn a_derived_value_is_applied(unit: u8, selector: u8, info: u8, len: u16)
    requires
        info & 0x02 != 0,
        info & 0x04 == 0,
        info & 0x20 == 0,
        1 <= len <= 64,
    ensures
        ({
            let a0 = Application::<Seq<u8>>::of_device(unit, selector);
            let a2 = a0.step(CaptureReply::Camera(CameraReply::Info(info))).step(
                CaptureReply::Camera(CameraReply::Length(len)),
            );
            &&& a2.unit == unit
            &&& a2.selector == selector
            &&& a2.phase == ApplyPhase::Derive(
                Derivation::<Seq<u8>>::start(selector, len as usize),
            )
        }),
{
}

/// What a derivation comes to is what is applied: a value is written, a refusal and a failure end
/// the application, each as what it is.
pub proof fn what_is_derived_is_what_is_applied(
    a: Application<Seq<u8>>,
    derivation: Derivation<Seq<u8>>,
    reply: CameraReply<Seq<u8>>,
)
    requires
        a.phase == ApplyPhase::Derive(derivation),
    ensures
        ({
            let next = a.step(CaptureReply::Camera(reply));
            match derivation.step(reply).result() {
                None => next.phase == ApplyPhase::Derive(derivation.step(reply)),
                Some(Intended::Value(value)) => next.phase == ApplyPhase::Write(
                    CaptureWriter::<Seq<u8>>::start(value),
                ),
                Some(Intended::Refused(_)) => next.result() == Some(
                    ApplyResult::<Seq<u8>>::Refused(ApplyRefusal::NotDerived),
                ),
                Some(Intended::Failed(err)) => next.result() == Some(
                    ApplyResult::<Seq<u8>>::Refused(ApplyRefusal::Unreadable(err)),
                ),
            }
        }),
{
}

/// A control that does not accept a change now, or that has no plausible length, is asked for
/// nothing more.
pub proof fn an_unready_control_is_refused(a: Application<Seq<u8>>, info: u8, len: u16)
    ensures
        a.phase is Info && (info & 0x02 == 0 || info & 0x04 != 0 || info & 0x20 != 0) ==> a.step(
            CaptureReply::Camera(CameraReply::Info(info)),
        ).result() == Some(ApplyResult::<Seq<u8>>::Refused(ApplyRefusal::NotAccepted { info })),
        a.phase is Length && (len == 0 || len > 64) ==> a.step(
            CaptureReply::Camera(CameraReply::Length(len)),
        ).result() == Some(
            ApplyResult::<Seq<u8>>::Refused(ApplyRefusal::Unreadable(XuError::Unsupported)),
        ),
{
}

/// What a write came to is what the application came to, with the bytes that were wanted.
pub proof fn a_finished_write_is_the_result(
    a: Application<Seq<u8>>,
    writer: CaptureWriter<Seq<u8>>,
    reply: CaptureReply<Seq<u8>>,
)
    requires
        a.phase == ApplyPhase::Write(writer),
    ensures
        a.asked() == writer.asked(),
        a.step(reply).phase == ApplyPhase::Write(writer.step(reply)),
        writer.phase matches WritePhase::Finished(write) ==> a.result() == Some(
            ApplyResult::Done { write, applied: writer.wanted },
        ),
        writer.phase matches WritePhase::Failed(err) ==> a.result() == Some(
            ApplyResult::<Seq<u8>>::Refused(ApplyRefusal::Unreadable(err)),
        ),
{
}

} // verus!
