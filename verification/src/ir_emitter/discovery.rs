//! Finding the camera's emitter control, using only what the hardware itself documents.
//!
//! Only the unit that is Microsoft's documented camera-control extension is considered, and only
//! selectors that it advertises are touched: the infrared torch first, whose whole purpose is the
//! lamp, then face authentication. Any sign that the camera has stopped answering ends everything.
use vstd::prelude::*;
use crate::ir_emitter::control::{ControlView, EmitterControl};
use crate::ir_emitter::descriptor::{
    first_microsoft, show_byte, shown_byte, unit_ids, CameraIdentity, MSXU_FACE_AUTHENTICATION,
    MSXU_IR_TORCH,
};
use crate::ir_emitter::discovery_error::{DiscoveryError, DiscoveryErrorView};
use crate::ir_emitter::finish::{Discovered, DiscoveredView};
use crate::ir_emitter::recovery_pass::{
    recovery_answers, CameraLock, RecoveryPhase, RecoveryReply, RecoveryRequest,
};
use crate::ir_emitter::trial::{
    trial_answers, JournalTrouble, Trial, TrialEnd, TrialPhase, TrialReply, TrialRequest,
};
use crate::ir_emitter::xu::XuError;
use crate::text::{copy_bytes, copy_texts, texts};

verus! {

/// What a setup run asks for next.
#[derive(Clone, Debug, PartialEq, Eq)]
pub enum DiscoveryRequest<B> {
    /// One lock for the whole run.
    LockCamera,
    Recovery(RecoveryRequest<B>),
    Trial(TrialRequest<B>),
}

impl View for DiscoveryRequest<Vec<u8>> {
    type V = DiscoveryRequest<Seq<u8>>;

    open spec fn view(&self) -> DiscoveryRequest<Seq<u8>> {
        match *self {
            DiscoveryRequest::LockCamera => DiscoveryRequest::LockCamera,
            DiscoveryRequest::Recovery(request) => DiscoveryRequest::Recovery(request@),
            DiscoveryRequest::Trial(request) => DiscoveryRequest::Trial(request@),
        }
    }
}

/// What came of a request.
#[derive(Debug, PartialEq, Eq)]
pub enum DiscoveryReply<B, T> {
    Locked(CameraLock<T>),
    Recovery(RecoveryReply<B, T>),
    Trial(TrialReply<B, T>),
}

impl View for DiscoveryReply<Vec<u8>, String> {
    type V = DiscoveryReply<Seq<u8>, Seq<char>>;

    open spec fn view(&self) -> DiscoveryReply<Seq<u8>, Seq<char>> {
        match *self {
            DiscoveryReply::Locked(lock) => DiscoveryReply::Locked(
                match lock {
                    CameraLock::Held => CameraLock::Held,
                    CameraLock::Busy => CameraLock::Busy,
                    CameraLock::Failed(why) => CameraLock::Failed(why@),
                },
            ),
            DiscoveryReply::Recovery(reply) => DiscoveryReply::Recovery(reply@),
            DiscoveryReply::Trial(reply) => DiscoveryReply::Trial(reply@),
        }
    }
}

/// Whether a reply is one that a request can have.
pub open spec fn discovery_answers(
    request: DiscoveryRequest<Seq<u8>>,
    reply: DiscoveryReply<Seq<u8>, Seq<char>>,
) -> bool {
    match request {
        DiscoveryRequest::LockCamera => reply is Locked,
        DiscoveryRequest::Recovery(request) => reply matches DiscoveryReply::Recovery(reply)
            && recovery_answers(request, reply),
        DiscoveryRequest::Trial(request) => reply matches DiscoveryReply::Trial(reply)
            && trial_answers(request, reply),
    }
}

/// How a setup run ended.
#[derive(Clone, Debug, PartialEq, Eq)]
pub enum DiscoveryEnd<B, T> {
    /// The camera is lit by the control at this selector.
    Found { selector: u8, original: B, wanted: B },
    NoMicrosoftXu,
    Busy,
    /// The camera could not be locked. Carries why.
    Unlocked(T),
    UnresolvedChange,
    /// A trial failed.
    Failed { selector: u8, end: TrialEnd<B, T> },
    NoUsableControl,
}

impl View for DiscoveryEnd<Vec<u8>, String> {
    type V = DiscoveryEnd<Seq<u8>, Seq<char>>;

    open spec fn view(&self) -> DiscoveryEnd<Seq<u8>, Seq<char>> {
        match *self {
            DiscoveryEnd::Found { selector, original, wanted } => DiscoveryEnd::Found {
                selector,
                original: original@,
                wanted: wanted@,
            },
            DiscoveryEnd::NoMicrosoftXu => DiscoveryEnd::NoMicrosoftXu,
            DiscoveryEnd::Busy => DiscoveryEnd::Busy,
            DiscoveryEnd::Unlocked(why) => DiscoveryEnd::Unlocked(why@),
            DiscoveryEnd::UnresolvedChange => DiscoveryEnd::UnresolvedChange,
            DiscoveryEnd::Failed { selector, end } => DiscoveryEnd::Failed { selector, end: end@ },
            DiscoveryEnd::NoUsableControl => DiscoveryEnd::NoUsableControl,
        }
    }
}

/// Where a setup run stands.
#[derive(Clone, Debug, PartialEq, Eq)]
pub enum DiscoveryPhase<B, T> {
    Lock,
    Recover(RecoveryPhase<B, T>),
    Try(Trial<B, T>),
    Ended(DiscoveryEnd<B, T>),
}

impl View for DiscoveryPhase<Vec<u8>, String> {
    type V = DiscoveryPhase<Seq<u8>, Seq<char>>;

    open spec fn view(&self) -> DiscoveryPhase<Seq<u8>, Seq<char>> {
        match *self {
            DiscoveryPhase::Lock => DiscoveryPhase::Lock,
            DiscoveryPhase::Recover(pass) => DiscoveryPhase::Recover(pass@),
            DiscoveryPhase::Try(trial) => DiscoveryPhase::Try(trial@),
            DiscoveryPhase::Ended(end) => DiscoveryPhase::Ended(end@),
        }
    }
}

/// A setup run on one camera.
#[derive(Clone, Debug, PartialEq, Eq)]
pub struct Discovery {
    pub id: CameraIdentity,
    /// What was tried and to no avail, one line each.
    pub tried: Vec<String>,
    pub phase: DiscoveryPhase<Vec<u8>, String>,
}

/// A setup run on one camera, as values.
pub struct DiscoveryView {
    pub id: CameraIdentity,
    pub tried: Seq<Seq<char>>,
    pub phase: DiscoveryPhase<Seq<u8>, Seq<char>>,
}

impl View for Discovery {
    type V = DiscoveryView;

    open spec fn view(&self) -> DiscoveryView {
        DiscoveryView { id: self.id, tried: texts(self.tried@), phase: self.phase@ }
    }
}

/// The line on a selector that the unit does not advertise.
pub open spec fn not_advertised(selector: u8) -> Seq<char> {
    "selector "@ + shown_byte(selector) + " not advertised"@
}

/// The line on a selector whose trial came to nothing.
pub open spec fn came_to_nothing(selector: u8, end: TrialEnd<Seq<u8>, Seq<char>>) -> Seq<char> {
    match end {
        TrialEnd::NotUsable(why) => "selector "@ + shown_byte(selector) + ": "@ + why.worded(),
        _ => "selector "@ + shown_byte(selector)
            + " is already set to the value setup would apply"@,
    }
}

impl DiscoveryView {
    /// A run before the first request. A camera without a Microsoft unit is asked for nothing.
    pub open spec fn start(id: CameraIdentity) -> Self {
        DiscoveryView {
            id,
            tried: seq![],
            phase: if first_microsoft(id.units@) is Some {
                DiscoveryPhase::Lock
            } else {
                DiscoveryPhase::Ended(DiscoveryEnd::NoMicrosoftXu)
            },
        }
    }

    /// Whether the camera's Microsoft unit advertises a selector.
    pub open spec fn offers(self, selector: u8) -> bool {
        first_microsoft(self.id.units@) matches Some(unit) && unit.offers(selector)
    }

    /// The run at its second selector.
    pub open spec fn at_second(self) -> Self {
        if self.offers(MSXU_FACE_AUTHENTICATION) {
            DiscoveryView {
                phase: DiscoveryPhase::Try(
                    Trial::<Seq<u8>, Seq<char>>::start(MSXU_FACE_AUTHENTICATION),
                ),
                ..self
            }
        } else {
            DiscoveryView {
                tried: self.tried.push(not_advertised(MSXU_FACE_AUTHENTICATION)),
                phase: DiscoveryPhase::Ended(DiscoveryEnd::NoUsableControl),
                ..self
            }
        }
    }

    /// The run at its first selector.
    pub open spec fn at_first(self) -> Self {
        if self.offers(MSXU_IR_TORCH) {
            DiscoveryView {
                phase: DiscoveryPhase::Try(Trial::<Seq<u8>, Seq<char>>::start(MSXU_IR_TORCH)),
                ..self
            }
        } else {
            DiscoveryView {
                tried: self.tried.push(not_advertised(MSXU_IR_TORCH)),
                ..self
            }.at_second()
        }
    }

    /// The run once a trial came to nothing.
    pub open spec fn moved_on(self, selector: u8, end: TrialEnd<Seq<u8>, Seq<char>>) -> Self {
        let next = DiscoveryView {
            tried: self.tried.push(came_to_nothing(selector, end)),
            phase: DiscoveryPhase::Ended(DiscoveryEnd::NoUsableControl),
            ..self
        };
        if selector == MSXU_IR_TORCH {
            next.at_second()
        } else {
            next
        }
    }

    /// The run once a trial took a reply.
    pub open spec fn trying(self, trial: Trial<Seq<u8>, Seq<char>>) -> Self {
        let selector = trial.selector;
        match trial.phase {
            TrialPhase::Ended(end) => match end {
                TrialEnd::Lit { original, wanted } => DiscoveryView {
                    phase: DiscoveryPhase::Ended(
                        DiscoveryEnd::Found { selector, original, wanted },
                    ),
                    ..self
                },
                TrialEnd::AlreadyApplied | TrialEnd::NotUsable(_) => self.moved_on(selector, end),
                _ => DiscoveryView {
                    phase: DiscoveryPhase::Ended(DiscoveryEnd::Failed { selector, end }),
                    ..self
                },
            },
            _ => DiscoveryView { phase: DiscoveryPhase::Try(trial), ..self },
        }
    }

    /// The run once the recovery pass took a reply.
    pub open spec fn recovering(self, pass: RecoveryPhase<Seq<u8>, Seq<char>>) -> Self {
        match pass {
            RecoveryPhase::Ended(end) => if end.outcome(seq![]).blocks_setup() {
                DiscoveryView {
                    phase: DiscoveryPhase::Ended(DiscoveryEnd::UnresolvedChange),
                    ..self
                }
            } else {
                self.at_first()
            },
            _ => DiscoveryView { phase: DiscoveryPhase::Recover(pass), ..self },
        }
    }

    /// What is asked for next, if anything is.
    pub open spec fn asked(self) -> Option<DiscoveryRequest<Seq<u8>>> {
        match self.phase {
            DiscoveryPhase::Lock => Some(DiscoveryRequest::LockCamera),
            DiscoveryPhase::Recover(pass) => match pass.asked() {
                Some(request) => Some(DiscoveryRequest::Recovery(request)),
                None => None,
            },
            DiscoveryPhase::Try(trial) => match trial.asked() {
                Some(request) => Some(DiscoveryRequest::Trial(request)),
                None => None,
            },
            DiscoveryPhase::Ended(_) => None,
        }
    }

    /// The run after a reply.
    pub open spec fn step(self, reply: DiscoveryReply<Seq<u8>, Seq<char>>) -> Self {
        match (self.phase, reply) {
            (DiscoveryPhase::Lock, DiscoveryReply::Locked(lock)) => DiscoveryView {
                phase: match lock {
                    CameraLock::Held => DiscoveryPhase::Recover(RecoveryPhase::Load),
                    CameraLock::Busy => DiscoveryPhase::Ended(DiscoveryEnd::Busy),
                    CameraLock::Failed(why) => DiscoveryPhase::Ended(DiscoveryEnd::Unlocked(why)),
                },
                ..self
            },
            (DiscoveryPhase::Recover(pass), DiscoveryReply::Recovery(reply)) => self.recovering(
                pass.step(reply),
            ),
            (DiscoveryPhase::Try(trial), DiscoveryReply::Trial(reply)) => self.trying(
                trial.step(reply),
            ),
            (_, _) => self,
        }
    }

    /// What every run keeps: the parts that it consists of are still asking, and what is tried is
    /// advertised by the camera's Microsoft unit.
    pub open spec fn well_formed(self) -> bool {
        match self.phase {
            DiscoveryPhase::Lock => first_microsoft(self.id.units@) is Some,
            DiscoveryPhase::Recover(pass) => pass.asked() is Some && first_microsoft(
                self.id.units@,
            ) is Some,
            DiscoveryPhase::Try(trial) => trial.well_formed() && trial.asked() is Some
                && self.offers(trial.selector) && (trial.selector == MSXU_IR_TORCH
                || trial.selector == MSXU_FACE_AUTHENTICATION),
            DiscoveryPhase::Ended(end) => match end {
                DiscoveryEnd::NoMicrosoftXu => first_microsoft(self.id.units@) is None,
                DiscoveryEnd::Found { selector, original, wanted } => self.offers(selector)
                    && original.len() == wanted.len() && original != wanted,
                DiscoveryEnd::Failed { selector, end } => self.offers(selector) && !(end is Lit)
                    && !(end is AlreadyApplied) && !(end is NotUsable),
                _ => first_microsoft(self.id.units@) is Some,
            },
        }
    }
}

impl Discovery {
    /// A setup run on a camera.
    #[must_use]
    pub fn new(id: CameraIdentity) -> (r: Self)
        ensures
            r@ == DiscoveryView::start(id),
            r@.well_formed(),
    {
        let has_unit: bool = id.microsoft_xu().is_some();
        let tried: Vec<String> = Vec::new();
        assert(texts(tried@) =~= seq![]);
        Discovery {
            id,
            tried,
            phase: if has_unit {
                DiscoveryPhase::Lock
            } else {
                DiscoveryPhase::Ended(DiscoveryEnd::NoMicrosoftXu)
            },
        }
    }

    /// The unit that requests go to.
    #[must_use]
    pub fn unit(&self) -> (r: Option<u8>)
        ensures
            match first_microsoft(self@.id.units@) {
                Some(unit) => r == Some(unit.unit_id),
                None => r is None,
            },
    {
        match self.id.microsoft_xu() {
            Some(unit) => Some(unit.unit_id),
            None => None,
        }
    }

    fn is_offered(id: &CameraIdentity, selector: u8) -> (r: bool)
        ensures
            r == (first_microsoft(id.units@) matches Some(unit) && unit.offers(selector)),
    {
        match id.microsoft_xu() {
            Some(unit) => unit.advertises(selector),
            None => false,
        }
    }

    fn try_second(id: CameraIdentity, tried: Vec<String>) -> (r: Self)
        ensures
            forall|phase: DiscoveryPhase<Seq<u8>, Seq<char>>|
                r@ == (#[trigger] at(id, texts(tried@), phase)).at_second(),
    {
        let mut tried: Vec<String> = tried;
        if Discovery::is_offered(&id, MSXU_FACE_AUTHENTICATION) {
            Discovery { id, tried, phase: DiscoveryPhase::Try(Trial::new(MSXU_FACE_AUTHENTICATION)) }
        } else {
            let ghost before = texts(tried@);
            let mut s: String = "selector ".to_owned();
            s.append(show_byte(MSXU_FACE_AUTHENTICATION).as_str());
            s.append(" not advertised");
            tried.push(s);
            assert(texts(tried@) =~= before.push(not_advertised(MSXU_FACE_AUTHENTICATION)));
            Discovery { id, tried, phase: DiscoveryPhase::Ended(DiscoveryEnd::NoUsableControl) }
        }
    }

    fn try_first(id: CameraIdentity, tried: Vec<String>) -> (r: Self)
        ensures
            forall|phase: DiscoveryPhase<Seq<u8>, Seq<char>>|
                r@ == (#[trigger] at(id, texts(tried@), phase)).at_first(),
    {
        let mut tried: Vec<String> = tried;
        if Discovery::is_offered(&id, MSXU_IR_TORCH) {
            Discovery { id, tried, phase: DiscoveryPhase::Try(Trial::new(MSXU_IR_TORCH)) }
        } else {
            let ghost before = texts(tried@);
            let mut s: String = "selector ".to_owned();
            s.append(show_byte(MSXU_IR_TORCH).as_str());
            s.append(" not advertised");
            tried.push(s);
            assert(texts(tried@) =~= before.push(not_advertised(MSXU_IR_TORCH)));
            let ghost more = texts(tried@);
            let r: Discovery = Discovery::try_second(id, tried);
            assert forall|phase: DiscoveryPhase<Seq<u8>, Seq<char>>|
                r@ == (#[trigger] at(id, before, phase)).at_first() by {
                assert(r@ == at(id, more, phase).at_second());
            }
            r
        }
    }

    fn move_on(
        id: CameraIdentity,
        tried: Vec<String>,
        selector: u8,
        end: TrialEnd<Vec<u8>, String>,
    ) -> (r: Self)
        ensures
            forall|phase: DiscoveryPhase<Seq<u8>, Seq<char>>|
                r@ == (#[trigger] at(id, texts(tried@), phase)).moved_on(selector, end@),
    {
        let ghost before = texts(tried@);
        let mut tried: Vec<String> = tried;
        let mut s: String = "selector ".to_owned();
        s.append(show_byte(selector).as_str());
        match &end {
            TrialEnd::NotUsable(why) => {
                s.append(": ");
                s.append(why.message().as_str());
            },
            _ => {
                s.append(" is already set to the value setup would apply");
            },
        }
        tried.push(s);
        assert(texts(tried@) =~= before.push(came_to_nothing(selector, end@)));
        let ghost more = texts(tried@);
        if selector == MSXU_IR_TORCH {
            let r: Discovery = Discovery::try_second(id, tried);
            assert forall|phase: DiscoveryPhase<Seq<u8>, Seq<char>>|
                r@ == (#[trigger] at(id, before, phase)).moved_on(selector, end@) by {
                let next = at(
                    id,
                    more,
                    DiscoveryPhase::<Seq<u8>, Seq<char>>::Ended(DiscoveryEnd::NoUsableControl),
                );
                assert(r@ == next.at_second());
            }
            r
        } else {
            Discovery { id, tried, phase: DiscoveryPhase::Ended(DiscoveryEnd::NoUsableControl) }
        }
    }

    fn tried(id: CameraIdentity, tried: Vec<String>, trial: Trial<Vec<u8>, String>) -> (r: Self)
        ensures
            forall|phase: DiscoveryPhase<Seq<u8>, Seq<char>>|
                r@ == (#[trigger] at(id, texts(tried@), phase)).trying(trial@),
    {
        let selector: u8 = trial.selector;
        match trial.phase {
            TrialPhase::Ended(end) => match end {
                TrialEnd::Lit { original, wanted } => Discovery {
                    id,
                    tried,
                    phase: DiscoveryPhase::Ended(
                        DiscoveryEnd::Found { selector, original, wanted },
                    ),
                },
                TrialEnd::AlreadyApplied => Discovery::move_on(
                    id,
                    tried,
                    selector,
                    TrialEnd::AlreadyApplied,
                ),
                TrialEnd::NotUsable(why) => Discovery::move_on(
                    id,
                    tried,
                    selector,
                    TrialEnd::NotUsable(why),
                ),
                end => Discovery {
                    id,
                    tried,
                    phase: DiscoveryPhase::Ended(DiscoveryEnd::Failed { selector, end }),
                },
            },
            phase => Discovery { id, tried, phase: DiscoveryPhase::Try(Trial { selector, phase }) },
        }
    }

    fn recovered(
        id: CameraIdentity,
        tried: Vec<String>,
        pass: RecoveryPhase<Vec<u8>, String>,
    ) -> (r: Self)
        ensures
            forall|phase: DiscoveryPhase<Seq<u8>, Seq<char>>|
                r@ == (#[trigger] at(id, texts(tried@), phase)).recovering(pass@),
    {
        proof {
            reveal_strlit("");
        }
        assert(""@ =~= seq![]);
        match pass.outcome_with("") {
            None => Discovery { id, tried, phase: DiscoveryPhase::Recover(pass) },
            Some(outcome) => {
                if outcome.blocks_discovery() {
                    Discovery {
                        id,
                        tried,
                        phase: DiscoveryPhase::Ended(DiscoveryEnd::UnresolvedChange),
                    }
                } else {
                    Discovery::try_first(id, tried)
                }
            },
        }
    }

    /// What is asked for next, if anything is.
    #[must_use]
    pub fn request(&self) -> (r: Option<DiscoveryRequest<Vec<u8>>>)
        ensures
            match r {
                Some(request) => self@.asked() == Some(request@),
                None => self@.asked() is None,
            },
    {
        match &self.phase {
            DiscoveryPhase::Lock => Some(DiscoveryRequest::LockCamera),
            DiscoveryPhase::Recover(pass) => match pass.request() {
                Some(request) => Some(DiscoveryRequest::Recovery(request)),
                None => None,
            },
            DiscoveryPhase::Try(trial) => match trial.request() {
                Some(request) => Some(DiscoveryRequest::Trial(request)),
                None => None,
            },
            DiscoveryPhase::Ended(_) => None,
        }
    }

    /// Takes the reply to the last request.
    #[must_use]
    pub fn advance(self, reply: DiscoveryReply<Vec<u8>, String>) -> (r: Self)
        requires
            self@.well_formed(),
            self@.asked() is Some,
            discovery_answers(self@.asked()->0, reply@),
        ensures
            r@ == self@.step(reply@),
            r@.well_formed(),
    {
        let ghost before = self@;
        let ghost answer = reply@;
        let Discovery { id, tried, phase } = self;
        assert(before == at(id, texts(tried@), phase@));
        proof {
            discovery_stays_well_formed(before, answer);
        }
        match (phase, reply) {
            (DiscoveryPhase::Lock, DiscoveryReply::Locked(lock)) => {
                let phase: DiscoveryPhase<Vec<u8>, String> = match lock {
                    CameraLock::Held => DiscoveryPhase::Recover(RecoveryPhase::locked()),
                    CameraLock::Busy => DiscoveryPhase::Ended(DiscoveryEnd::Busy),
                    CameraLock::Failed(why) => DiscoveryPhase::Ended(DiscoveryEnd::Unlocked(why)),
                };
                Discovery { id, tried, phase }
            },
            (DiscoveryPhase::Recover(pass), DiscoveryReply::Recovery(reply)) => {
                Discovery::recovered(id, tried, pass.advance(reply))
            },
            (DiscoveryPhase::Try(trial), DiscoveryReply::Trial(reply)) => Discovery::tried(
                id,
                tried,
                trial.advance(reply),
            ),
            (phase, _) => Discovery { id, tried, phase },
        }
    }
}

/// A run with given parts.
pub open spec fn at(
    id: CameraIdentity,
    tried: Seq<Seq<char>>,
    phase: DiscoveryPhase<Seq<u8>, Seq<char>>,
) -> DiscoveryView {
    DiscoveryView { id, tried, phase }
}

// ---------------------------------------------------------------------------------------------
// What a run came to
// ---------------------------------------------------------------------------------------------

impl DiscoveryView {
    /// The unit that requests go to.
    pub open spec fn unit_id(self) -> u8 {
        match first_microsoft(self.id.units@) {
            Some(unit) => unit.unit_id,
            None => 0,
        }
    }

    /// What the run came to, with the words for a failed read of a restored control.
    pub open spec fn result(self, failure: Seq<char>) -> Option<
        Result<DiscoveredView, DiscoveryErrorView>,
    > {
        let unit = self.unit_id();
        match self.phase {
            DiscoveryPhase::Ended(end) => Some(
                match end {
                    DiscoveryEnd::Found { selector, original, wanted } => Ok(
                        DiscoveredView::lit(
                            ControlView { unit, selector, payload: wanted },
                            original,
                        ),
                    ),
                    DiscoveryEnd::NoMicrosoftXu => Err(
                        DiscoveryErrorView::NoMicrosoftXu { seen: unit_ids(self.id.units@) },
                    ),
                    DiscoveryEnd::Busy => Err(DiscoveryErrorView::CameraBusy),
                    DiscoveryEnd::Unlocked(why) => Err(DiscoveryErrorView::JournalUnwritable(why)),
                    DiscoveryEnd::UnresolvedChange => Err(DiscoveryErrorView::UnresolvedChange),
                    DiscoveryEnd::NoUsableControl => Err(
                        DiscoveryErrorView::NoUsableControl { unit, tried: self.tried },
                    ),
                    DiscoveryEnd::Failed { selector, end } => Err(
                        match end {
                            TrialEnd::Query(err) => DiscoveryErrorView::Unresponsive {
                                unit,
                                selector,
                                err,
                            },
                            TrialEnd::Restore(err) => DiscoveryErrorView::RestoreFailed {
                                unit,
                                selector,
                                err,
                            },
                            TrialEnd::Journal(trouble) => DiscoveryErrorView::JournalUnwritable(
                                trouble.worded(failure),
                            ),
                            TrialEnd::Guard(why) => DiscoveryErrorView::WriteRefused(why),
                            _ => DiscoveryErrorView::MeasurementFailed,
                        },
                    ),
                },
            ),
            _ => None,
        }
    }

    /// The failed request whose words are part of the error, if there is one.
    pub open spec fn failure(self) -> Option<XuError> {
        match self.phase {
            DiscoveryPhase::Ended(
                DiscoveryEnd::Failed {
                    selector,
                    end: TrialEnd::Journal(JournalTrouble::BackUnanswered(err)),
                },
            ) => Some(err),
            _ => None,
        }
    }

    /// Whether a result says what the run came to, in whatever words the operating system has for a
    /// failed request.
    pub open spec fn told_by(self, result: Option<Result<DiscoveredView, DiscoveryErrorView>>) -> bool {
        match self.failure() {
            None => result == self.result(seq![]),
            Some(err) => exists|failure: Seq<char>|
                err.described_by(failure) && result == #[trigger] self.result(failure),
        }
    }
}

/// A result, as values.
pub open spec fn result_view(r: Option<Result<Discovered, DiscoveryError>>) -> Option<
    Result<DiscoveredView, DiscoveryErrorView>,
> {
    match r {
        None => None,
        Some(Ok(found)) => Some(Ok(found@)),
        Some(Err(error)) => Some(Err(error@)),
    }
}

impl Discovery {
    /// What the run came to, with the words for a failed read of a restored control, or `None`
    /// while it still asks.
    #[must_use]
    pub fn outcome_with(&self, failure: &str) -> (r: Option<Result<Discovered, DiscoveryError>>)
        ensures
            result_view(r) == self@.result(failure@),
    {
        let unit: u8 = match self.id.microsoft_xu() {
            Some(unit) => unit.unit_id,
            None => 0,
        };
        let end: &DiscoveryEnd<Vec<u8>, String> = match &self.phase {
            DiscoveryPhase::Ended(end) => end,
            _ => {
                return None;
            },
        };
        Some(
            match end {
                DiscoveryEnd::Found { selector, original, wanted } => Ok(
                    Discovered::lit(
                        EmitterControl {
                            unit,
                            selector: *selector,
                            payload: copy_bytes(wanted.as_slice()),
                        },
                        copy_bytes(original.as_slice()),
                    ),
                ),
                DiscoveryEnd::NoMicrosoftXu => Err(
                    DiscoveryError::NoMicrosoftXu { seen: self.id.ids() },
                ),
                DiscoveryEnd::Busy => Err(DiscoveryError::CameraBusy),
                DiscoveryEnd::Unlocked(why) => Err(DiscoveryError::JournalUnwritable(why.clone())),
                DiscoveryEnd::UnresolvedChange => Err(DiscoveryError::UnresolvedChange),
                DiscoveryEnd::NoUsableControl => Err(
                    DiscoveryError::NoUsableControl { unit, tried: copy_texts(&self.tried) },
                ),
                DiscoveryEnd::Failed { selector, end } => {
                    let selector: u8 = *selector;
                    Err(
                        match end {
                            TrialEnd::Query(err) => DiscoveryError::Unresponsive {
                                unit,
                                selector,
                                err: *err,
                            },
                            TrialEnd::Restore(err) => DiscoveryError::RestoreFailed {
                                unit,
                                selector,
                                err: *err,
                            },
                            TrialEnd::Journal(trouble) => DiscoveryError::JournalUnwritable(
                                trouble.message_with(failure),
                            ),
                            TrialEnd::Guard(why) => DiscoveryError::WriteRefused(why.clone()),
                            _ => DiscoveryError::MeasurementFailed,
                        },
                    )
                },
            },
        )
    }

    /// What the run came to, or `None` while it still asks.
    #[must_use]
    pub fn outcome(&self) -> (r: Option<Result<Discovered, DiscoveryError>>)
        ensures
            self@.told_by(result_view(r)),
    {
        let err: Option<XuError> = match &self.phase {
            DiscoveryPhase::Ended(
                DiscoveryEnd::Failed {
                    selector: _,
                    end: TrialEnd::Journal(JournalTrouble::BackUnanswered(err)),
                },
            ) => Some(*err),
            _ => None,
        };
        match err {
            Some(err) => {
                let failure: String = err.message();
                let r: Option<Result<Discovered, DiscoveryError>> = self.outcome_with(
                    failure.as_str(),
                );
                assert(err.described_by(failure@) && result_view(r) == self@.result(failure@));
                r
            },
            None => {
                proof {
                    reveal_strlit("");
                }
                assert(""@ =~= seq![]);
                self.outcome_with("")
            },
        }
    }
}

// ---------------------------------------------------------------------------------------------
// Laws
// ---------------------------------------------------------------------------------------------

/// A run keeps what it keeps: above all, whatever is tried sits on the camera's Microsoft unit and
/// is advertised by it.
pub proof fn discovery_stays_well_formed(
    run: DiscoveryView,
    reply: DiscoveryReply<Seq<u8>, Seq<char>>,
)
    requires
        run.well_formed(),
        run.asked() is Some,
        discovery_answers(run.asked()->0, reply),
    ensures
        run.step(reply).well_formed(),
        run.step(reply).id == run.id,
{
    if let DiscoveryPhase::Try(trial) = run.phase {
        if let DiscoveryReply::Trial(answer) = reply {
            crate::ir_emitter::trial::trial_moves_on(trial, answer);
        }
    }
}

/// A camera without Microsoft's camera-control unit is asked for nothing at all.
pub proof fn a_camera_without_the_unit_is_left_alone(id: CameraIdentity)
    requires
        first_microsoft(id.units@) is None,
    ensures
        DiscoveryView::start(id).asked() is None,
        DiscoveryView::start(id).result(seq![]) == Some(
            Err::<DiscoveredView, DiscoveryErrorView>(
                DiscoveryErrorView::NoMicrosoftXu { seen: unit_ids(id.units@) },
            ),
        ),
{
}

/// While an earlier change is unresolved, or somebody else holds the camera, no control is tried.
pub proof fn an_unresolved_change_stops_setup(
    run: DiscoveryView,
    pass: RecoveryPhase<Seq<u8>, Seq<char>>,
    lock: CameraLock<Seq<char>>,
)
    ensures
        pass matches RecoveryPhase::Ended(end) ==> (end.outcome(seq![]).blocks_setup()
            ==> run.recovering(pass).asked() is None && run.recovering(pass).result(seq![]) == Some(
            Err::<DiscoveredView, DiscoveryErrorView>(DiscoveryErrorView::UnresolvedChange),
        )),
        run.phase is Lock && !(lock is Held) ==> run.step(DiscoveryReply::Locked(lock)).asked() is None,
{
}

/// A trial that fails ends the run: no other control is tried afterwards.
pub proof fn a_failed_trial_ends_setup(run: DiscoveryView, trial: Trial<Seq<u8>, Seq<char>>)
    requires
        trial.phase matches TrialPhase::Ended(end) && (end is Query || end is Restore || end
            is Journal || end is Measurement || end is Guard),
    ensures
        run.trying(trial).asked() is None,
        run.trying(trial).phase == DiscoveryPhase::Ended(
            DiscoveryEnd::Failed { selector: trial.selector, end: trial.phase->Ended_0 },
        ),
{
}

/// The torch is tried before face authentication, and a run tries each at most once.
pub proof fn the_torch_comes_first(run: DiscoveryView, end: TrialEnd<Seq<u8>, Seq<char>>)
    ensures
        run.offers(MSXU_IR_TORCH) ==> run.at_first().phase == DiscoveryPhase::Try(
            Trial::<Seq<u8>, Seq<char>>::start(MSXU_IR_TORCH),
        ),
        run.moved_on(MSXU_FACE_AUTHENTICATION, end).phase is Ended,
        run.moved_on(MSXU_IR_TORCH, end).phase matches DiscoveryPhase::Try(trial)
            ==> trial.selector == MSXU_FACE_AUTHENTICATION,
{
}

/// A camera with a Microsoft unit is locked first, and a lock that is held leads to its recovery; a
/// busy camera and a failed lock end the run, each as what it is.
pub proof fn setup_locks_and_recovers_first(id: CameraIdentity, why: Seq<char>)
    requires
        first_microsoft(id.units@) is Some,
    ensures
        ({
            let start = DiscoveryView::start(id);
            let held = start.step(DiscoveryReply::Locked(CameraLock::Held));
            let busy = start.step(DiscoveryReply::Locked(CameraLock::Busy));
            let failed = start.step(DiscoveryReply::Locked(CameraLock::Failed(why)));
            &&& start.asked() == Some(DiscoveryRequest::<Seq<u8>>::LockCamera)
            &&& start.tried.len() == 0
            &&& held.asked() == Some(
                DiscoveryRequest::Recovery(RecoveryRequest::<Seq<u8>>::LoadRecord),
            )
            &&& held.tried.len() == 0
            &&& busy.result(seq![]) == Some(
                Err::<DiscoveredView, DiscoveryErrorView>(DiscoveryErrorView::CameraBusy),
            )
            &&& failed.result(seq![]) == Some(
                Err::<DiscoveredView, DiscoveryErrorView>(
                    DiscoveryErrorView::JournalUnwritable(why),
                ),
            )
        }),
{
}

/// Once a recovery pass leaves nothing in the way, the first documented control that the Microsoft
/// unit advertises is tried: the torch at 0x0a, or face authentication at 0x06 where the torch is
/// not advertised, which is noted. Where neither is, there is nothing to try.
pub proof fn a_resolved_camera_is_tried(
    run: DiscoveryView,
    pass: RecoveryPhase<Seq<u8>, Seq<char>>,
    unit: crate::ir_emitter::descriptor::ExtensionUnit,
)
    requires
        first_microsoft(run.id.units@) == Some(unit),
        pass matches RecoveryPhase::Ended(end) && !end.outcome(seq![]).blocks_setup(),
    ensures
        ({
            let next = run.recovering(pass);
            let torch = unit.selectors@.contains(0x0au8);
            let face = unit.selectors@.contains(0x06u8);
            let unlisted = |selector: u8| "selector "@ + shown_byte(selector) + " not advertised"@;
            &&& torch ==> next.phase == DiscoveryPhase::Try(
                Trial::<Seq<u8>, Seq<char>>::start(0x0a),
            ) && next.tried == run.tried
            &&& !torch && face ==> next.phase == DiscoveryPhase::Try(
                Trial::<Seq<u8>, Seq<char>>::start(0x06),
            ) && next.tried == run.tried.push(unlisted(0x0a))
            &&& !torch && !face ==> next.phase == DiscoveryPhase::<Seq<u8>, Seq<char>>::Ended(
                DiscoveryEnd::NoUsableControl,
            ) && next.tried == run.tried.push(unlisted(0x0a)).push(unlisted(0x06))
        }),
{
}

/// A torch that came to nothing, whatever the reason, does not end the run: a line is noted on it,
/// and where the Microsoft unit advertises face authentication, a fresh trial of that is next.
pub proof fn a_useless_torch_is_followed_by_face_authentication(
    run: DiscoveryView,
    trial: Trial<Seq<u8>, Seq<char>>,
    reply: TrialReply<Seq<u8>, Seq<char>>,
    unit: crate::ir_emitter::descriptor::ExtensionUnit,
)
    requires
        run.phase == DiscoveryPhase::Try(trial),
        trial.selector == 0x0a,
        trial.step(reply).phase matches TrialPhase::Ended(end) && (end is AlreadyApplied || end
            is NotUsable),
        first_microsoft(run.id.units@) == Some(unit),
    ensures
        ({
            let next = run.step(DiscoveryReply::Trial(reply));
            let face = unit.selectors@.contains(0x06u8);
            &&& next.id == run.id
            &&& face ==> next.phase == DiscoveryPhase::Try(
                Trial::<Seq<u8>, Seq<char>>::start(0x06),
            ) && next.asked() is Some && next.tried.len() == run.tried.len() + 1
            &&& !face ==> next.phase == DiscoveryPhase::<Seq<u8>, Seq<char>>::Ended(
                DiscoveryEnd::NoUsableControl,
            ) && next.tried.len() == run.tried.len() + 2
            &&& next.tried.take(run.tried.len() as int) == run.tried
            &&& trial.step(reply).phase matches TrialPhase::Ended(TrialEnd::NotUsable(why)) ==> (
            next.tried[run.tried.len() as int] == "selector "@ + shown_byte(0x0a) + ": "@
                + why.worded())
        }),
{
    let next = run.step(DiscoveryReply::Trial(reply));
    assert(next.tried.take(run.tried.len() as int) =~= run.tried);
}

/// Where face authentication came to nothing too, the run ends without a usable control, with a line
/// on it behind what was noted before.
pub proof fn useless_face_authentication_ends_the_run(
    run: DiscoveryView,
    trial: Trial<Seq<u8>, Seq<char>>,
    reply: TrialReply<Seq<u8>, Seq<char>>,
)
    requires
        run.phase == DiscoveryPhase::Try(trial),
        trial.selector == 0x06,
        trial.step(reply).phase matches TrialPhase::Ended(end) && (end is AlreadyApplied || end
            is NotUsable),
    ensures
        ({
            let next = run.step(DiscoveryReply::Trial(reply));
            &&& next.phase == DiscoveryPhase::<Seq<u8>, Seq<char>>::Ended(
                DiscoveryEnd::NoUsableControl,
            )
            &&& next.tried.drop_last() == run.tried
            &&& next.tried.len() == run.tried.len() + 1
        }),
{
    let next = run.step(DiscoveryReply::Trial(reply));
    assert(next.tried.drop_last() =~= run.tried);
}

/// A trial that ends lit is the end of the run: the control that is reported is the one that was
/// tried, on the Microsoft unit, with the bytes that light it, and with what was there before as
/// what is owed. Nothing else is tried.
pub proof fn a_lit_control_is_reported(
    run: DiscoveryView,
    trial: Trial<Seq<u8>, Seq<char>>,
    reply: TrialReply<Seq<u8>, Seq<char>>,
    unit: crate::ir_emitter::descriptor::ExtensionUnit,
    original: Seq<u8>,
    wanted: Seq<u8>,
)
    requires
        run.phase == DiscoveryPhase::Try(trial),
        trial.step(reply).phase == TrialPhase::<Seq<u8>, Seq<char>>::Ended(
            TrialEnd::Lit { original, wanted },
        ),
        first_microsoft(run.id.units@) == Some(unit),
    ensures
        ({
            let next = run.step(DiscoveryReply::Trial(reply));
            &&& next.asked() is None
            &&& next.result(seq![]) matches Some(Ok(found)) && {
                &&& found.control == (ControlView {
                    unit: unit.unit_id,
                    selector: trial.selector,
                    payload: wanted,
                })
                &&& found.undo_owed() == Some(original)
            }
        }),
{
}

/// A trial goes on until it ends: a reply that does not end it leaves the run at that trial.
pub proof fn a_trial_is_not_cut_short(
    run: DiscoveryView,
    trial: Trial<Seq<u8>, Seq<char>>,
    reply: TrialReply<Seq<u8>, Seq<char>>,
)
    requires
        run.phase == DiscoveryPhase::Try(trial),
        !(trial.step(reply).phase is Ended),
    ensures
        run.step(DiscoveryReply::Trial(reply)) == (DiscoveryView {
            phase: DiscoveryPhase::Try(trial.step(reply)),
            ..run
        }),
        run.asked() == (match trial.asked() {
            Some(request) => Some(DiscoveryRequest::Trial(request)),
            None => None,
        }),
{
}

/// A recovery pass goes on until it ends, too.
pub proof fn a_recovery_is_not_cut_short(
    run: DiscoveryView,
    pass: RecoveryPhase<Seq<u8>, Seq<char>>,
    reply: RecoveryReply<Seq<u8>, Seq<char>>,
)
    requires
        run.phase == DiscoveryPhase::Recover(pass),
        !(pass.step(reply) is Ended),
    ensures
        run.step(DiscoveryReply::Recovery(reply)) == (DiscoveryView {
            phase: DiscoveryPhase::Recover(pass.step(reply)),
            ..run
        }),
{
}

/// A failed trial is told as what failed: silence, a restore, the record, the caller's refusal or
/// the measurement, with the control that it happened on.
pub proof fn a_failed_trial_is_told(run: DiscoveryView, selector: u8, err: XuError, why: Seq<char>)
    requires
        first_microsoft(run.id.units@) is Some,
    ensures
        ({
            let unit = first_microsoft(run.id.units@)->0.unit_id;
            let ended = |end: TrialEnd<Seq<u8>, Seq<char>>|
                (DiscoveryView {
                    phase: DiscoveryPhase::Ended(DiscoveryEnd::Failed { selector, end }),
                    ..run
                }).result(seq![]);
            let told = |error: DiscoveryErrorView|
                Some(Err::<DiscoveredView, DiscoveryErrorView>(error));
            &&& ended(TrialEnd::Query(err)) == told(
                DiscoveryErrorView::Unresponsive { unit, selector, err },
            )
            &&& ended(TrialEnd::Restore(err)) == told(
                DiscoveryErrorView::RestoreFailed { unit, selector, err },
            )
            &&& ended(TrialEnd::Guard(why)) == told(DiscoveryErrorView::WriteRefused(why))
            &&& ended(TrialEnd::Measurement) == told(DiscoveryErrorView::MeasurementFailed)
            &&& ended(TrialEnd::Journal(JournalTrouble::Said(why))) == told(
                DiscoveryErrorView::JournalUnwritable(why),
            )
            &&& (DiscoveryView {
                phase: DiscoveryPhase::Ended(DiscoveryEnd::NoUsableControl),
                ..run
            }).result(seq![]) == told(
                DiscoveryErrorView::NoUsableControl { unit, tried: run.tried },
            )
        }),
{
}

impl DiscoveryView {
    /// The run after replies, the first of them first.
    pub open spec fn after_all(self, replies: Seq<DiscoveryReply<Seq<u8>, Seq<char>>>) -> Self
        decreases replies.len(),
    {
        if replies.len() == 0 {
            self
        } else {
            self.after_all(replies.drop_last()).step(replies.last())
        }
    }

    /// Whether each reply of a run is one that the request before it can have.
    pub open spec fn proper_run(self, replies: Seq<DiscoveryReply<Seq<u8>, Seq<char>>>) -> bool {
        forall|i: int|
            0 <= i < replies.len() ==> {
                let before = self.after_all(#[trigger] replies.take(i));
                before.asked() is Some && discovery_answers(before.asked()->0, replies[i])
            }
    }
}

/// Whether a trial of a selector came to nothing at a point of a run: the control already holds what
/// would be applied, or is of no use.
pub open spec fn passed_over_at(
    id: CameraIdentity,
    replies: Seq<DiscoveryReply<Seq<u8>, Seq<char>>>,
    selector: u8,
    i: int,
) -> bool {
    &&& 0 <= i < replies.len()
    &&& match (DiscoveryView::start(id).after_all(replies.take(i)).phase, replies[i]) {
        (DiscoveryPhase::Try(trial), DiscoveryReply::Trial(reply)) => trial.selector == selector
            && match trial.step(reply).phase {
            TrialPhase::Ended(end) => end is AlreadyApplied || end is NotUsable,
            _ => false,
        },
        _ => false,
    }
}

/// Whether a run has done with a selector: the Microsoft unit does not advertise it, or a trial of it
/// came to nothing.
pub open spec fn done_with(
    id: CameraIdentity,
    replies: Seq<DiscoveryReply<Seq<u8>, Seq<char>>>,
    selector: u8,
) -> bool {
    ||| !(first_microsoft(id.units@) matches Some(unit) && unit.selectors@.contains(selector))
    ||| exists|i: int| #[trigger] passed_over_at(id, replies, selector, i)
}

proof fn done_stays_done(
    id: CameraIdentity,
    replies: Seq<DiscoveryReply<Seq<u8>, Seq<char>>>,
    selector: u8,
)
    requires
        replies.len() > 0,
        done_with(id, replies.drop_last(), selector),
    ensures
        done_with(id, replies, selector),
{
    let shorter = replies.drop_last();
    if exists|i: int| #[trigger] passed_over_at(id, shorter, selector, i) {
        let i = choose|i: int| #[trigger] passed_over_at(id, shorter, selector, i);
        assert(shorter.take(i) =~= replies.take(i));
        assert(passed_over_at(id, replies, selector, i));
    }
}

proof fn run_notes_each_selector(
    id: CameraIdentity,
    replies: Seq<DiscoveryReply<Seq<u8>, Seq<char>>>,
)
    requires
        DiscoveryView::start(id).proper_run(replies),
    ensures
        ({
            let run = DiscoveryView::start(id).after_all(replies);
            &&& run.id == id
            &&& run.well_formed()
            &&& match run.phase {
                DiscoveryPhase::Lock | DiscoveryPhase::Recover(_) => run.tried.len() == 0,
                DiscoveryPhase::Try(trial) => if trial.selector == 0x0a {
                    run.tried.len() == 0
                } else {
                    trial.selector == 0x06 && run.tried.len() == 1 && done_with(id, replies, 0x0a)
                },
                DiscoveryPhase::Ended(DiscoveryEnd::NoUsableControl) => run.tried.len() == 2
                    && done_with(id, replies, 0x0a) && done_with(id, replies, 0x06),
                DiscoveryPhase::Ended(_) => true,
            }
        }),
    decreases replies.len(),
{
    let start = DiscoveryView::start(id);
    if replies.len() > 0 {
        let shorter = replies.drop_last();
        let n = shorter.len() as int;
        assert(replies.take(n) =~= shorter);
        assert forall|i: int| 0 <= i < shorter.len() implies {
            let before = start.after_all(#[trigger] shorter.take(i));
            before.asked() is Some && discovery_answers(before.asked()->0, shorter[i])
        } by {
            assert(replies.take(i) =~= shorter.take(i));
        }
        run_notes_each_selector(id, shorter);
        let before = start.after_all(shorter);
        assert(before.asked() is Some && discovery_answers(before.asked()->0, replies[n]));
        discovery_stays_well_formed(before, replies[n]);
        let run = start.after_all(replies);
        assert(run == before.step(replies[n]));
        if done_with(id, shorter, 0x0a) {
            done_stays_done(id, replies, 0x0a);
        }
        if let DiscoveryPhase::Try(trial) = before.phase {
            if let DiscoveryReply::Trial(reply) = replies[n] {
                assert(trial.step(reply).selector == trial.selector);
                if let TrialPhase::Ended(end) = trial.step(reply).phase {
                    if end is AlreadyApplied || end is NotUsable {
                        assert(passed_over_at(id, replies, trial.selector, n));
                    }
                }
            }
        }
    }
}

/// A run ends without a usable control only once it is done with both documented ones: each of the
/// two selectors is not advertised, or a trial of it came to nothing; and there is a line on each.
pub proof fn nothing_usable_means_that_both_were_tried(
    id: CameraIdentity,
    replies: Seq<DiscoveryReply<Seq<u8>, Seq<char>>>,
)
    requires
        DiscoveryView::start(id).proper_run(replies),
        DiscoveryView::start(id).after_all(replies).phase == DiscoveryPhase::<
            Seq<u8>,
            Seq<char>,
        >::Ended(DiscoveryEnd::NoUsableControl),
    ensures
        done_with(id, replies, 0x0a),
        done_with(id, replies, 0x06),
        DiscoveryView::start(id).after_all(replies).tried.len() == 2,
{
    run_notes_each_selector(id, replies);
}

/// What a run came to is told in one way where no failure's words are part of it, and else in one way
/// for all words that describe the failure: only those words are left open.
pub proof fn a_run_is_told_as_it_ended(
    run: DiscoveryView,
    result: Option<Result<DiscoveredView, DiscoveryErrorView>>,
    failure: Seq<char>,
)
    ensures
        run.failure() is None ==> (run.told_by(result) <==> result == run.result(seq![])),
        run.failure() matches Some(err) ==> (err.described_by(failure) ==> run.told_by(
            run.result(failure),
        )),
        run.told_by(result) ==> exists|words: Seq<char>| result == #[trigger] run.result(words),
{
}

} // verus!
