//! The end of a setup run that lit the camera: confirm, publish, release, in that order.
//!
//! Confirmation comes first, because a configuration for a control that the camera did not take
//! would be applied by every later capture. The undo record goes last: until the configuration is
//! durable the camera is changed with nothing saying which control did it.
use vstd::prelude::*;
use crate::ir_emitter::control::{
    conf_line, conf_text, recorded, recorded_control, ControlView, EmitterControl,
};
use crate::ir_emitter::descriptor::CameraIdentity;
use crate::ir_emitter::xu::{answers, CameraReply, CameraRequest, ControlQuery, XuError};
use crate::text::{copy_bytes, hex_list, push_hex_list, same_bytes};

verus! {

/// What went wrong at the end of a run.
#[derive(Clone, Debug, PartialEq, Eq)]
pub enum FinishFault<B, T> {
    /// The applied control could not be read back.
    Unanswered(XuError),
    /// The control does not hold what was applied.
    NotTaken { now: B, attempted: B },
    /// The configuration could not be saved.
    Unsaved(T),
    /// The undo record could not be removed.
    NotCleared(T),
}

impl View for FinishFault<Vec<u8>, String> {
    type V = FinishFault<Seq<u8>, Seq<char>>;

    open spec fn view(&self) -> FinishFault<Seq<u8>, Seq<char>> {
        match *self {
            FinishFault::Unanswered(err) => FinishFault::Unanswered(err),
            FinishFault::NotTaken { now, attempted } => FinishFault::NotTaken {
                now: now@,
                attempted: attempted@,
            },
            FinishFault::Unsaved(why) => FinishFault::Unsaved(why@),
            FinishFault::NotCleared(why) => FinishFault::NotCleared(why@),
        }
    }
}

impl FinishFault<Seq<u8>, Seq<char>> {
    /// The fault in words, with the words for a failed request.
    pub open spec fn worded(self, failure: Seq<char>) -> Seq<char> {
        match self {
            FinishFault::Unanswered(_) => "read the applied control back: "@ + failure,
            FinishFault::NotTaken { now, attempted } => "the control reads ["@ + hex_list(now)
                + "] after being set to ["@ + hex_list(attempted) + "]"@,
            FinishFault::Unsaved(why) => "save the emitter config: "@ + why,
            FinishFault::NotCleared(why) => why,
        }
    }

    /// Whether a text describes the fault.
    pub open spec fn described_by(self, text: Seq<char>) -> bool {
        match self {
            FinishFault::Unanswered(err) => exists|failure: Seq<char>|
                err.described_by(failure) && text == #[trigger] self.worded(failure),
            _ => text == self.worded(seq![]),
        }
    }
}

impl FinishFault<Vec<u8>, String> {
    /// The fault in words, with the words for a failed request.
    #[must_use]
    pub fn message_with(&self, failure: &str) -> (r: String)
        ensures
            r@ == self@.worded(failure@),
    {
        match self {
            FinishFault::Unanswered(_) => {
                let mut s: String = "read the applied control back: ".to_owned();
                s.append(failure);
                s
            },
            FinishFault::NotTaken { now, attempted } => {
                let mut s: String = "the control reads [".to_owned();
                push_hex_list(&mut s, now.as_slice());
                s.append("] after being set to [");
                push_hex_list(&mut s, attempted.as_slice());
                s.append("]");
                s
            },
            FinishFault::Unsaved(why) => {
                let mut s: String = "save the emitter config: ".to_owned();
                s.append(why.as_str());
                s
            },
            FinishFault::NotCleared(why) => why.clone(),
        }
    }

    /// The fault in words.
    #[must_use]
    pub fn message(&self) -> (r: String)
        ensures
            self@.described_by(r@),
    {
        match self {
            FinishFault::Unanswered(err) => {
                let failure: String = err.message();
                let r: String = self.message_with(failure.as_str());
                assert(err.described_by(failure@) && r@ == self@.worded(failure@));
                r
            },
            _ => {
                proof {
                    reveal_strlit("");
                }
                assert(""@ =~= seq![]);
                self.message_with("")
            },
        }
    }
}

// ---------------------------------------------------------------------------------------------
// A lit camera
// ---------------------------------------------------------------------------------------------

/// The undo data of an exploratory write, for as long as the control is not known to be back where
/// it was found.
#[derive(Debug, PartialEq, Eq)]
pub struct ExploratoryWrite {
    pub original: Vec<u8>,
    /// Set once the applied value is durably recorded in the configuration.
    pub resolved: bool,
    /// Whether the exploratory value is known to be on the camera and the camera still answers.
    /// Only then is anything written when the run is dropped: sending the same request again to
    /// hardware that just failed to answer is not an option.
    pub exploratory_value_is_live: bool,
}

/// A setup run that has left the camera lit, with its undo record open. Dropping it without
/// releasing the record puts the control back.
#[derive(Debug, PartialEq, Eq)]
pub struct Discovered {
    pub control: EmitterControl,
    pub pending: ExploratoryWrite,
}

/// A setup run that has left the camera lit, as values.
pub struct DiscoveredView {
    pub control: ControlView,
    pub original: Seq<u8>,
    pub resolved: bool,
    pub live: bool,
}

impl View for Discovered {
    type V = DiscoveredView;

    open spec fn view(&self) -> DiscoveredView {
        DiscoveredView {
            control: self.control@,
            original: self.pending.original@,
            resolved: self.pending.resolved,
            live: self.pending.exploratory_value_is_live,
        }
    }
}

impl DiscoveredView {
    /// A run that has just left the camera lit.
    pub open spec fn lit(control: ControlView, original: Seq<u8>) -> Self {
        DiscoveredView { control, original, resolved: false, live: true }
    }

    /// The value that is put back when the run is dropped, if one is.
    pub open spec fn undo_owed(self) -> Option<Seq<u8>> {
        if !self.resolved && self.live {
            Some(self.original)
        } else {
            None
        }
    }

    /// What a read of the control says of the applied value, where something is wrong.
    pub open spec fn confirmation_fault(self, reply: CameraReply<Seq<u8>>) -> Option<
        FinishFault<Seq<u8>, Seq<char>>,
    > {
        match reply {
            CameraReply::Bytes(now) => if now == self.control.payload {
                None
            } else {
                Some(FinishFault::NotTaken { now, attempted: self.control.payload })
            },
            CameraReply::Failed(err) => Some(FinishFault::Unanswered(err)),
            _ => None,
        }
    }
}

impl Discovered {
    /// A run that has just left the camera lit.
    #[must_use]
    pub fn lit(control: EmitterControl, original: Vec<u8>) -> (r: Self)
        ensures
            r@ == DiscoveredView::lit(control@, original@),
    {
        Discovered {
            control,
            pending: ExploratoryWrite { original, resolved: false, exploratory_value_is_live: true },
        }
    }

    /// The control that lit the camera.
    #[must_use]
    pub fn control(&self) -> (r: &EmitterControl)
        ensures
            r@ == self@.control,
    {
        &self.control
    }

    /// What is put back when the run is dropped, if anything is.
    #[must_use]
    pub fn undo(&self) -> (r: Option<Vec<u8>>)
        ensures
            match r {
                Some(bytes) => self@.undo_owed() == Some(bytes@),
                None => self@.undo_owed() is None,
            },
    {
        if !self.pending.resolved && self.pending.exploratory_value_is_live {
            Some(copy_bytes(self.pending.original.as_slice()))
        } else {
            None
        }
    }

    /// Takes the answer of a read of the control, made to confirm that the camera holds what this
    /// run applied. A camera that fails to answer is left alone from here on; one that answers with
    /// another value still needs the control put back.
    pub fn confirm_applied(&mut self, reply: CameraReply<Vec<u8>>) -> (r: Result<
        (),
        FinishFault<Vec<u8>, String>,
    >)
        requires
            answers(
                CameraRequest::Read {
                    query: ControlQuery::Current,
                    len: old(self)@.control.payload.len() as usize,
                },
                reply@,
            ),
        ensures
            match r {
                Ok(()) => old(self)@.confirmation_fault(reply@) is None,
                Err(fault) => old(self)@.confirmation_fault(reply@) == Some(fault@),
            },
            final(self)@ == (DiscoveredView {
                live: old(self)@.live && !(reply@ is Failed),
                ..old(self)@
            }),
    {
        match reply {
            CameraReply::Bytes(now) => {
                if same_bytes(now.as_slice(), self.control.payload.as_slice()) {
                    Ok(())
                } else {
                    Err(
                        FinishFault::NotTaken {
                            now,
                            attempted: copy_bytes(self.control.payload.as_slice()),
                        },
                    )
                }
            },
            CameraReply::Failed(err) => {
                self.pending.exploratory_value_is_live = false;
                Err(FinishFault::Unanswered(err))
            },
            _ => Ok(()),
        }
    }

    /// Takes what came of removing the undo record, which is done only once the configuration
    /// naming this control is durable.
    pub fn committed(&mut self, trouble: Option<String>) -> (r: Result<
        (),
        FinishFault<Vec<u8>, String>,
    >)
        ensures
            match (trouble, r) {
                (None, Ok(())) => true,
                (Some(why), Err(fault)) => fault@ == FinishFault::<Seq<u8>, Seq<char>>::NotCleared(
                    why@,
                ),
                _ => false,
            },
            final(self)@ == (DiscoveredView {
                resolved: old(self)@.resolved || trouble is None,
                ..old(self)@
            }),
    {
        match trouble {
            None => {
                self.pending.resolved = true;
                Ok(())
            },
            Some(why) => Err(FinishFault::NotCleared(why)),
        }
    }

    /// Takes that a configuration which could not be made durable is visible all the same: every
    /// later capture applies it, so the camera is not put back and the undo record stays.
    pub fn half_published(&mut self)
        ensures
            final(self)@ == (DiscoveredView { live: false, ..old(self)@ }),
    {
        self.pending.exploratory_value_is_live = false;
    }
}

// ---------------------------------------------------------------------------------------------
// Finishing
// ---------------------------------------------------------------------------------------------

/// What finishing asks for next.
#[derive(Clone, Debug, PartialEq, Eq)]
pub enum FinishRequest<B, T> {
    Camera(CameraRequest<B>),
    /// Save this configuration durably.
    SaveConf(T),
    /// The configuration as it can be read now.
    ReadConf,
    /// Remove the undo record.
    ClearRecord,
}

impl View for FinishRequest<Vec<u8>, String> {
    type V = FinishRequest<Seq<u8>, Seq<char>>;

    open spec fn view(&self) -> FinishRequest<Seq<u8>, Seq<char>> {
        match *self {
            FinishRequest::Camera(request) => FinishRequest::Camera(request@),
            FinishRequest::SaveConf(text) => FinishRequest::SaveConf(text@),
            FinishRequest::ReadConf => FinishRequest::ReadConf,
            FinishRequest::ClearRecord => FinishRequest::ClearRecord,
        }
    }
}

/// What came of a request.
#[derive(Clone, Debug, PartialEq, Eq)]
pub enum FinishReply<B, T> {
    Camera(CameraReply<B>),
    /// The store took the change, or why it did not.
    Stored(Option<T>),
    /// The configuration, or none where it cannot be read.
    Conf(Option<T>),
}

impl View for FinishReply<Vec<u8>, String> {
    type V = FinishReply<Seq<u8>, Seq<char>>;

    open spec fn view(&self) -> FinishReply<Seq<u8>, Seq<char>> {
        match *self {
            FinishReply::Camera(reply) => FinishReply::Camera(reply@),
            FinishReply::Stored(None) => FinishReply::Stored(None),
            FinishReply::Stored(Some(why)) => FinishReply::Stored(Some(why@)),
            FinishReply::Conf(None) => FinishReply::Conf(None),
            FinishReply::Conf(Some(text)) => FinishReply::Conf(Some(text@)),
        }
    }
}

/// Whether a reply is one that a request can have.
pub open spec fn finish_answers(
    request: FinishRequest<Seq<u8>, Seq<char>>,
    reply: FinishReply<Seq<u8>, Seq<char>>,
) -> bool {
    match request {
        FinishRequest::Camera(request) => reply matches FinishReply::Camera(reply) && answers(
            request,
            reply,
        ),
        FinishRequest::SaveConf(_) | FinishRequest::ClearRecord => reply is Stored,
        FinishRequest::ReadConf => reply is Conf,
    }
}

/// Where finishing stands.
#[derive(Clone, Debug, PartialEq, Eq)]
pub enum FinishPhase<B, T> {
    Confirm,
    Publish,
    /// An error of the save does not say that nothing became visible.
    CheckVisible { why: T },
    Commit,
    /// Put the control back.
    Undo(FinishFault<B, T>),
    UndoCheck(FinishFault<B, T>),
    UndoClear(FinishFault<B, T>),
    Ended(Option<FinishFault<B, T>>),
}

impl View for FinishPhase<Vec<u8>, String> {
    type V = FinishPhase<Seq<u8>, Seq<char>>;

    open spec fn view(&self) -> FinishPhase<Seq<u8>, Seq<char>> {
        match *self {
            FinishPhase::Confirm => FinishPhase::Confirm,
            FinishPhase::Publish => FinishPhase::Publish,
            FinishPhase::CheckVisible { why } => FinishPhase::CheckVisible { why: why@ },
            FinishPhase::Commit => FinishPhase::Commit,
            FinishPhase::Undo(fault) => FinishPhase::Undo(fault@),
            FinishPhase::UndoCheck(fault) => FinishPhase::UndoCheck(fault@),
            FinishPhase::UndoClear(fault) => FinishPhase::UndoClear(fault@),
            FinishPhase::Ended(None) => FinishPhase::Ended(None),
            FinishPhase::Ended(Some(fault)) => FinishPhase::Ended(Some(fault@)),
        }
    }
}

/// The end of a run that lit the camera.
#[derive(Debug, PartialEq, Eq)]
pub struct Finish {
    pub id: CameraIdentity,
    pub found: Discovered,
    pub phase: FinishPhase<Vec<u8>, String>,
}

/// The end of a run that lit the camera, as values.
pub struct FinishView {
    pub id: CameraIdentity,
    pub found: DiscoveredView,
    pub phase: FinishPhase<Seq<u8>, Seq<char>>,
}

impl View for Finish {
    type V = FinishView;

    open spec fn view(&self) -> FinishView {
        FinishView { id: self.id, found: self.found@, phase: self.phase@ }
    }
}

impl FinishView {
    /// Before the first request.
    pub open spec fn start(id: CameraIdentity, found: DiscoveredView) -> Self {
        FinishView { id, found, phase: FinishPhase::Confirm }
    }

    /// What is asked for next, if anything is.
    pub open spec fn asked(self) -> Option<FinishRequest<Seq<u8>, Seq<char>>> {
        match self.phase {
            FinishPhase::Confirm => Some(
                FinishRequest::Camera(
                    CameraRequest::Read {
                        query: ControlQuery::Current,
                        len: self.found.control.payload.len() as usize,
                    },
                ),
            ),
            FinishPhase::Publish => Some(
                FinishRequest::SaveConf(
                    conf_line(
                        self.id.usb_text(),
                        self.found.control.unit,
                        self.found.control.selector,
                    ),
                ),
            ),
            FinishPhase::CheckVisible { .. } => Some(FinishRequest::ReadConf),
            FinishPhase::Commit => Some(FinishRequest::ClearRecord),
            FinishPhase::Undo(_) => Some(
                FinishRequest::Camera(CameraRequest::Write(self.found.original)),
            ),
            FinishPhase::UndoCheck(_) => Some(
                FinishRequest::Camera(
                    CameraRequest::Read {
                        query: ControlQuery::Current,
                        len: self.found.original.len() as usize,
                    },
                ),
            ),
            FinishPhase::UndoClear(_) => Some(FinishRequest::ClearRecord),
            FinishPhase::Ended(_) => None,
        }
    }

    /// The run ends with a fault, and where the camera is to be put back, that comes first.
    pub open spec fn dropped(
        found: DiscoveredView,
        fault: FinishFault<Seq<u8>, Seq<char>>,
    ) -> FinishPhase<Seq<u8>, Seq<char>> {
        if found.undo_owed() is Some {
            FinishPhase::Undo(fault)
        } else {
            FinishPhase::Ended(Some(fault))
        }
    }

    /// Whether the configuration names this run's control for this camera.
    pub open spec fn published(self, conf: Option<Seq<char>>) -> bool {
        conf is Some && recorded(conf->0, self.id.usb_text()) == Some(
            (self.found.control.unit, self.found.control.selector),
        )
    }

    /// Where finishing stands after a reply.
    pub open spec fn step(self, reply: FinishReply<Seq<u8>, Seq<char>>) -> Self {
        match (self.phase, reply) {
            (FinishPhase::Confirm, FinishReply::Camera(reply)) => {
                let found = DiscoveredView {
                    live: self.found.live && !(reply is Failed),
                    ..self.found
                };
                FinishView {
                    found,
                    phase: match self.found.confirmation_fault(reply) {
                        None => FinishPhase::Publish,
                        Some(fault) => FinishView::dropped(found, fault),
                    },
                    ..self
                }
            },
            (FinishPhase::Publish, FinishReply::Stored(trouble)) => FinishView {
                phase: match trouble {
                    None => FinishPhase::Commit,
                    Some(why) => FinishPhase::CheckVisible { why },
                },
                ..self
            },
            (FinishPhase::CheckVisible { why }, FinishReply::Conf(conf)) => if self.published(
                conf,
            ) {
                FinishView {
                    found: DiscoveredView { live: false, ..self.found },
                    phase: FinishPhase::Ended(Some(FinishFault::Unsaved(why))),
                    ..self
                }
            } else {
                FinishView {
                    phase: FinishView::dropped(self.found, FinishFault::Unsaved(why)),
                    ..self
                }
            },
            (FinishPhase::Commit, FinishReply::Stored(trouble)) => match trouble {
                None => FinishView {
                    found: DiscoveredView { resolved: true, ..self.found },
                    phase: FinishPhase::Ended(None),
                    ..self
                },
                Some(why) => FinishView {
                    phase: FinishView::dropped(self.found, FinishFault::NotCleared(why)),
                    ..self
                },
            },
            (FinishPhase::Undo(fault), FinishReply::Camera(reply)) => FinishView {
                found: DiscoveredView { live: false, ..self.found },
                phase: if reply is Accepted {
                    FinishPhase::UndoCheck(fault)
                } else {
                    FinishPhase::Ended(Some(fault))
                },
                ..self
            },
            (FinishPhase::UndoCheck(fault), FinishReply::Camera(reply)) => FinishView {
                phase: if reply == CameraReply::Bytes(self.found.original) {
                    FinishPhase::UndoClear(fault)
                } else {
                    FinishPhase::Ended(Some(fault))
                },
                ..self
            },
            (FinishPhase::UndoClear(fault), FinishReply::Stored(trouble)) => FinishView {
                found: DiscoveredView {
                    resolved: self.found.resolved || trouble is None,
                    ..self.found
                },
                phase: FinishPhase::Ended(Some(fault)),
                ..self
            },
            (_, _) => self,
        }
    }
}

impl Discovered {
    /// Confirm, publish, release, as one sequence.
    #[must_use]
    pub fn finish(self, id: CameraIdentity) -> (r: Finish)
        ensures
            r@ == FinishView::start(id, self@),
    {
        Finish { id, found: self, phase: FinishPhase::Confirm }
    }
}

impl Finish {
    /// What is asked for next, if anything is.
    #[must_use]
    pub fn request(&self) -> (r: Option<FinishRequest<Vec<u8>, String>>)
        ensures
            match r {
                Some(request) => self@.asked() == Some(request@),
                None => self@.asked() is None,
            },
    {
        match &self.phase {
            FinishPhase::Confirm => Some(
                FinishRequest::Camera(
                    CameraRequest::Read {
                        query: ControlQuery::Current,
                        len: self.found.control.payload.len(),
                    },
                ),
            ),
            FinishPhase::Publish => Some(
                FinishRequest::SaveConf(conf_text(&self.id, &self.found.control)),
            ),
            FinishPhase::CheckVisible { .. } => Some(FinishRequest::ReadConf),
            FinishPhase::Commit => Some(FinishRequest::ClearRecord),
            FinishPhase::Undo(_) => Some(
                FinishRequest::Camera(CameraRequest::write(self.found.pending.original.as_slice())),
            ),
            FinishPhase::UndoCheck(_) => Some(
                FinishRequest::Camera(
                    CameraRequest::Read {
                        query: ControlQuery::Current,
                        len: self.found.pending.original.len(),
                    },
                ),
            ),
            FinishPhase::UndoClear(_) => Some(FinishRequest::ClearRecord),
            FinishPhase::Ended(_) => None,
        }
    }

    fn drop_with(found: &Discovered, fault: FinishFault<Vec<u8>, String>) -> (r: FinishPhase<
        Vec<u8>,
        String,
    >)
        ensures
            r@ == FinishView::dropped(found@, fault@),
    {
        if !found.pending.resolved && found.pending.exploratory_value_is_live {
            FinishPhase::Undo(fault)
        } else {
            FinishPhase::Ended(Some(fault))
        }
    }

    fn is_published(&self, conf: &Option<String>) -> (r: bool)
        ensures
            r == self@.published(
                match *conf {
                    Some(text) => Some(text@),
                    None => None,
                },
            ),
    {
        match conf {
            Some(text) => match recorded_control(text.as_str(), &self.id) {
                Some((unit, selector)) => unit == self.found.control.unit && selector
                    == self.found.control.selector,
                None => false,
            },
            None => false,
        }
    }

    /// Takes the reply to the last request.
    #[must_use]
    pub fn advance(self, reply: FinishReply<Vec<u8>, String>) -> (r: Self)
        requires
            self@.asked() is Some,
            finish_answers(self@.asked()->0, reply@),
        ensures
            r@ == self@.step(reply@),
    {
        let visible: bool = match &reply {
            FinishReply::Conf(conf) => self.is_published(conf),
            _ => false,
        };
        let Finish { id, mut found, phase } = self;
        let phase: FinishPhase<Vec<u8>, String> = match (phase, reply) {
            (FinishPhase::Confirm, FinishReply::Camera(reply)) => match found.confirm_applied(
                reply,
            ) {
                Ok(()) => FinishPhase::Publish,
                Err(fault) => Finish::drop_with(&found, fault),
            },
            (FinishPhase::Publish, FinishReply::Stored(trouble)) => match trouble {
                None => FinishPhase::Commit,
                Some(why) => FinishPhase::CheckVisible { why },
            },
            (FinishPhase::CheckVisible { why }, FinishReply::Conf(_)) => {
                if visible {
                    found.half_published();
                    FinishPhase::Ended(Some(FinishFault::Unsaved(why)))
                } else {
                    Finish::drop_with(&found, FinishFault::Unsaved(why))
                }
            },
            (FinishPhase::Commit, FinishReply::Stored(trouble)) => match found.committed(trouble) {
                Ok(()) => FinishPhase::Ended(None),
                Err(fault) => Finish::drop_with(&found, fault),
            },
            (FinishPhase::Undo(fault), FinishReply::Camera(reply)) => {
                found.pending.exploratory_value_is_live = false;
                match reply {
                    CameraReply::Accepted => FinishPhase::UndoCheck(fault),
                    _ => FinishPhase::Ended(Some(fault)),
                }
            },
            (FinishPhase::UndoCheck(fault), FinishReply::Camera(reply)) => match reply {
                CameraReply::Bytes(now) => {
                    if same_bytes(now.as_slice(), found.pending.original.as_slice()) {
                        FinishPhase::UndoClear(fault)
                    } else {
                        FinishPhase::Ended(Some(fault))
                    }
                },
                _ => FinishPhase::Ended(Some(fault)),
            },
            (FinishPhase::UndoClear(fault), FinishReply::Stored(trouble)) => {
                if trouble.is_none() {
                    found.pending.resolved = true;
                }
                FinishPhase::Ended(Some(fault))
            },
            (phase, _) => phase,
        };
        Finish { id, found, phase }
    }

    /// What came of finishing, or `None` while it still asks.
    #[must_use]
    pub fn outcome(&self) -> (r: Option<Result<(), String>>)
        ensures
            match self@.phase {
                FinishPhase::Ended(None) => r == Some(Ok::<(), String>(())),
                FinishPhase::Ended(Some(fault)) => r matches Some(Err(text))
                    && fault.described_by(text@),
                _ => r is None,
            },
    {
        match &self.phase {
            FinishPhase::Ended(None) => Some(Ok(())),
            FinishPhase::Ended(Some(fault)) => Some(Err(fault.message())),
            _ => None,
        }
    }
}

// ---------------------------------------------------------------------------------------------
// Laws
// ---------------------------------------------------------------------------------------------

impl FinishView {
    /// Where finishing stands after replies, the first of them first.
    pub open spec fn after_all(self, replies: Seq<FinishReply<Seq<u8>, Seq<char>>>) -> Self
        decreases replies.len(),
    {
        if replies.len() == 0 {
            self
        } else {
            self.after_all(replies.drop_last()).step(replies.last())
        }
    }

    /// Whether each reply of a run is one that the request before it can have.
    pub open spec fn proper_run(self, replies: Seq<FinishReply<Seq<u8>, Seq<char>>>) -> bool {
        forall|i: int|
            0 <= i < replies.len() ==> {
                let before = self.after_all(#[trigger] replies.take(i));
                before.asked() is Some && finish_answers(before.asked()->0, replies[i])
            }
    }

    /// How many requests finishing still makes at most.
    pub open spec fn left(self) -> int {
        match self.phase {
            FinishPhase::Confirm => 7,
            FinishPhase::Publish => 6,
            FinishPhase::CheckVisible { .. } => 5,
            FinishPhase::Commit => 5,
            FinishPhase::Undo(_) => 3,
            FinishPhase::UndoCheck(_) => 2,
            FinishPhase::UndoClear(_) => 1,
            FinishPhase::Ended(_) => 0,
        }
    }
}

/// Each reply brings finishing nearer to its end; the run's control, its original and the camera
/// stay what they are.
pub proof fn finish_moves_on(finish: FinishView, reply: FinishReply<Seq<u8>, Seq<char>>)
    requires
        finish.asked() is Some,
        finish_answers(finish.asked()->0, reply),
    ensures
        finish.step(reply).left() < finish.left(),
        finish.step(reply).id == finish.id,
        finish.step(reply).found.control == finish.found.control,
        finish.step(reply).found.original == finish.found.original,
{
}

proof fn shorter_run(start: FinishView, replies: Seq<FinishReply<Seq<u8>, Seq<char>>>)
    requires
        start.proper_run(replies),
        replies.len() > 0,
    ensures
        start.proper_run(replies.drop_last()),
        start.after_all(replies.drop_last()).asked() is Some,
        finish_answers(start.after_all(replies.drop_last()).asked()->0, replies.last()),
{
    let shorter = replies.drop_last();
    assert(replies.take(shorter.len() as int) =~= shorter);
    assert forall|i: int| 0 <= i < shorter.len() implies {
        let before = start.after_all(#[trigger] shorter.take(i));
        before.asked() is Some && finish_answers(before.asked()->0, shorter[i])
    } by {
        assert(replies.take(i) =~= shorter.take(i));
    }
}

proof fn run_keeps_the_run(start: FinishView, replies: Seq<FinishReply<Seq<u8>, Seq<char>>>)
    requires
        start.proper_run(replies),
    ensures
        start.after_all(replies).id == start.id,
        start.after_all(replies).found.control == start.found.control,
        start.after_all(replies).found.original == start.found.original,
    decreases replies.len(),
{
    if replies.len() > 0 {
        shorter_run(start, replies);
        run_keeps_the_run(start, replies.drop_last());
        finish_moves_on(start.after_all(replies.drop_last()), replies.last());
    }
}

/// A configuration is published only for a control that was just read to hold what the run applied.
pub proof fn only_a_confirmed_control_is_published(
    id: CameraIdentity,
    found: DiscoveredView,
    replies: Seq<FinishReply<Seq<u8>, Seq<char>>>,
    text: Seq<char>,
)
    requires
        FinishView::start(id, found).proper_run(replies),
        FinishView::start(id, found).after_all(replies).asked() == Some(
            FinishRequest::<Seq<u8>, Seq<char>>::SaveConf(text),
        ),
    ensures
        replies.len() == 1,
        replies[0] == FinishReply::<Seq<u8>, Seq<char>>::Camera(
            CameraReply::Bytes(found.control.payload),
        ),
        text == conf_line(id.usb_text(), found.control.unit, found.control.selector),
{
    let start = FinishView::start(id, found);
    run_keeps_the_run(start, replies);
    shorter_run(start, replies);
    let r1 = replies.drop_last();
    if r1.len() > 0 {
        shorter_run(start, r1);
    }
}

/// The undo record is removed only once the configuration was saved, or once the control was read
/// to hold its original again.
pub proof fn the_record_goes_last(
    id: CameraIdentity,
    found: DiscoveredView,
    replies: Seq<FinishReply<Seq<u8>, Seq<char>>>,
)
    requires
        FinishView::start(id, found).proper_run(replies),
        FinishView::start(id, found).after_all(replies).asked() == Some(
            FinishRequest::<Seq<u8>, Seq<char>>::ClearRecord,
        ),
    ensures
        replies.len() >= 2,
        (replies.len() == 2 && replies[1] == FinishReply::<Seq<u8>, Seq<char>>::Stored(None))
            || replies.last() == FinishReply::<Seq<u8>, Seq<char>>::Camera(
            CameraReply::Bytes(found.original),
        ),
{
    let start = FinishView::start(id, found);
    run_keeps_the_run(start, replies);
    shorter_run(start, replies);
    let r1 = replies.drop_last();
    run_keeps_the_run(start, r1);
    shorter_run(start, r1);
    let r2 = r1.drop_last();
    if r2.len() > 0 {
        shorter_run(start, r2);
    }
}

/// A camera that fails to answer while it is confirmed is asked for nothing more, and nothing is
/// published about it; and where an error left the configuration visible, the camera is not put
/// back and its undo record stays.
pub proof fn a_silent_camera_is_left_alone(
    id: CameraIdentity,
    found: DiscoveredView,
    err: XuError,
    why: Seq<char>,
    conf: Seq<char>,
)
    requires
        recorded(conf, id.usb_text()) == Some((found.control.unit, found.control.selector)),
    ensures
        FinishView::start(id, found).step(
            FinishReply::Camera(CameraReply::Failed(err)),
        ).asked() is None,
        (FinishView { id, found, phase: FinishPhase::CheckVisible { why } }).step(
            FinishReply::Conf(Some(conf)),
        ).asked() is None,
        (FinishView { id, found, phase: FinishPhase::CheckVisible { why } }).step(
            FinishReply::Conf(Some(conf)),
        ).found.undo_owed() is None,
{
}

/// A run that did not go through puts the control back, unless the camera stopped answering or its
/// configuration is visible.
pub proof fn a_failed_run_is_undone(
    id: CameraIdentity,
    found: DiscoveredView,
    now: Seq<u8>,
    why: Seq<char>,
)
    requires
        found.undo_owed() is Some,
        now != found.control.payload,
    ensures
        FinishView::start(id, found).step(FinishReply::Camera(CameraReply::Bytes(now))).asked()
            == Some(
            FinishRequest::<Seq<u8>, Seq<char>>::Camera(CameraRequest::Write(found.original)),
        ),
        (FinishView { id, found, phase: FinishPhase::CheckVisible { why } }).step(
            FinishReply::Conf(None),
        ).asked() == Some(
            FinishRequest::<Seq<u8>, Seq<char>>::Camera(CameraRequest::Write(found.original)),
        ),
        (FinishView { id, found, phase: FinishPhase::Commit }).step(
            FinishReply::Stored(Some(why)),
        ).asked() == Some(
            FinishRequest::<Seq<u8>, Seq<char>>::Camera(CameraRequest::Write(found.original)),
        ),
{
}

/// A run whose control is read to hold what was applied is published and done: the configuration
/// that names the control for this camera is saved, the record is removed, nothing is owed any more,
/// and there is no fault.
pub proof fn a_confirmed_run_is_published(id: CameraIdentity, found: DiscoveredView)
    ensures
        ({
            let stored = FinishReply::<Seq<u8>, Seq<char>>::Stored(None);
            let f0 = FinishView::start(id, found);
            let f1 = f0.step(FinishReply::Camera(CameraReply::Bytes(found.control.payload)));
            let f2 = f1.step(stored);
            let f3 = f2.step(stored);
            &&& f0.asked() == Some(
                FinishRequest::<Seq<u8>, Seq<char>>::Camera(
                    CameraRequest::Read {
                        query: ControlQuery::Current,
                        len: found.control.payload.len() as usize,
                    },
                ),
            )
            &&& f1.asked() == Some(
                FinishRequest::<Seq<u8>, Seq<char>>::SaveConf(
                    conf_line(id.usb_text(), found.control.unit, found.control.selector),
                ),
            )
            &&& f2.asked() == Some(FinishRequest::<Seq<u8>, Seq<char>>::ClearRecord)
            &&& f3.phase == FinishPhase::<Seq<u8>, Seq<char>>::Ended(None)
            &&& f3.found.undo_owed() is None
        }),
{
}

/// A run that is not to be published is undone: where the control reads as something else, the
/// configuration could not be saved and is not visible, or the record could not be removed, what was
/// there before is written back, read to be back, and its record removed; and the run ends with
/// what was wrong.
pub proof fn an_unpublished_run_is_undone(
    id: CameraIdentity,
    found: DiscoveredView,
    now: Seq<u8>,
    why: Seq<char>,
    conf: Option<Seq<char>>,
    fault: FinishFault<Seq<u8>, Seq<char>>,
)
    requires
        !found.resolved,
        found.live,
        now != found.control.payload,
        !(conf is Some && recorded(conf->0, id.usb_text()) == Some(
            (found.control.unit, found.control.selector),
        )),
    ensures
        ({
            let at = |phase: FinishPhase<Seq<u8>, Seq<char>>| FinishView { id, found, phase };
            let not_taken = at(FinishPhase::Confirm).step(
                FinishReply::Camera(CameraReply::Bytes(now)),
            );
            let unsaved = at(FinishPhase::Publish).step(FinishReply::Stored(Some(why)));
            let invisible = unsaved.step(FinishReply::Conf(conf));
            let kept = at(FinishPhase::Commit).step(FinishReply::Stored(Some(why)));
            let u0 = at(FinishPhase::Undo(fault));
            let u1 = u0.step(FinishReply::Camera(CameraReply::Accepted));
            let u2 = u1.step(FinishReply::Camera(CameraReply::Bytes(found.original)));
            let u3 = u2.step(FinishReply::Stored(None));
            &&& not_taken.phase == FinishPhase::<Seq<u8>, Seq<char>>::Undo(
                FinishFault::NotTaken { now, attempted: found.control.payload },
            )
            &&& unsaved.asked() == Some(FinishRequest::<Seq<u8>, Seq<char>>::ReadConf)
            &&& invisible.phase == FinishPhase::<Seq<u8>, Seq<char>>::Undo(
                FinishFault::Unsaved(why),
            )
            &&& kept.phase == FinishPhase::<Seq<u8>, Seq<char>>::Undo(FinishFault::NotCleared(why))
            &&& u0.asked() == Some(
                FinishRequest::<Seq<u8>, Seq<char>>::Camera(CameraRequest::Write(found.original)),
            )
            &&& u1.asked() == Some(
                FinishRequest::<Seq<u8>, Seq<char>>::Camera(
                    CameraRequest::Read {
                        query: ControlQuery::Current,
                        len: found.original.len() as usize,
                    },
                ),
            )
            &&& u2.asked() == Some(FinishRequest::<Seq<u8>, Seq<char>>::ClearRecord)
            &&& u3.phase == FinishPhase::<Seq<u8>, Seq<char>>::Ended(Some(fault))
            &&& u3.found.undo_owed() is None
        }),
{
}

/// A configuration that is visible although it could not be saved durably keeps the control as it is
/// and its record: every later capture applies it.
pub proof fn a_visible_configuration_keeps_the_control(
    run: FinishView,
    why: Seq<char>,
    conf: Seq<char>,
)
    requires
        run.phase == (FinishPhase::<Seq<u8>, Seq<char>>::CheckVisible { why }),
        recorded(conf, run.id.usb_text()) == Some(
            (run.found.control.unit, run.found.control.selector),
        ),
    ensures
        ({
            let next = run.step(FinishReply::Conf(Some(conf)));
            &&& next.phase == FinishPhase::<Seq<u8>, Seq<char>>::Ended(
                Some(FinishFault::Unsaved(why)),
            )
            &&& next.found.undo_owed() is None
            &&& next.found.resolved == run.found.resolved
        }),
{
}

/// A control is owed back exactly while the tried value is on a camera that answers and the run is
/// not resolved; a read that fails ends that, and one that answers does not.
pub proof fn a_lit_run_owes_its_original(
    control: ControlView,
    original: Seq<u8>,
    run: DiscoveredView,
    now: Seq<u8>,
    err: XuError,
)
    ensures
        DiscoveredView::lit(control, original).undo_owed() == Some(original),
        DiscoveredView::lit(control, original).control == control,
        run.undo_owed() is Some <==> !run.resolved && run.live,
        run.undo_owed() matches Some(owed) ==> owed == run.original,
        run.confirmation_fault(CameraReply::Bytes(run.control.payload)) is None,
        now != run.control.payload ==> run.confirmation_fault(CameraReply::Bytes(now)) == Some(
            FinishFault::<Seq<u8>, Seq<char>>::NotTaken { now, attempted: run.control.payload },
        ),
        run.confirmation_fault(CameraReply::Failed(err)) == Some(
            FinishFault::<Seq<u8>, Seq<char>>::Unanswered(err),
        ),
{
}

} // verus!
