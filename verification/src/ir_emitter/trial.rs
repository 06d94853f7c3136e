//! Trying one advertised, documented control, leaving it as it was found unless it worked.
//!
//! The undo record is durable before the first change, the control is read again immediately before
//! it is changed, and each change is followed by the restore of what was there. One brighter frame
//! is no evidence: the brightness has to follow the control both ways.
use vstd::prelude::*;
use crate::ir_emitter::derive::{Derivation, Intended};
use crate::ir_emitter::xu::{
    answers, info_allows_set, plausible_len, settable, valid_ctrl_len, CameraReply, CameraRequest,
    ControlQuery, XuError,
};
use crate::reading::Reading;
use crate::text::{copy_bytes, decimal, hex_list, push_decimal, push_hex_list, same_bytes};

verus! {

/// The mean above which an infrared capture counts as usable for authentication. It does not decide
/// whether a control works: that is a question about whether writing it changed anything.
pub const IR_LIT_MEAN: u32 = 40;

/// How far the mean has to rise over what it was before a control counts as a success; it filters
/// ambient flicker and exposure drift.
pub const AUTOCONF_MIN_LIFT: u32 = 20;

/// A measured brightness, with the two marks that later ones are held against.
#[derive(Clone, Debug, PartialEq, Eq)]
pub struct Brightness<T> {
    /// The mean of the frame.
    pub level: Reading,
    /// The mean plus [`AUTOCONF_MIN_LIFT`].
    pub raised: Reading,
    /// The mean less [`AUTOCONF_MIN_LIFT`].
    pub lowered: Reading,
    /// The mean as it is shown, without decimals.
    pub shown: T,
}

impl View for Brightness<String> {
    type V = Brightness<Seq<char>>;

    open spec fn view(&self) -> Brightness<Seq<char>> {
        Brightness {
            level: self.level,
            raised: self.raised,
            lowered: self.lowered,
            shown: self.shown@,
        }
    }
}

// ---------------------------------------------------------------------------------------------
// Ends
// ---------------------------------------------------------------------------------------------

/// Why a control is not usable.
#[derive(Clone, Debug, PartialEq, Eq)]
pub enum Unusable<B, T> {
    /// The control does not accept a write right now.
    NotAccepted,
    /// The camera has not clearly said what the control accepts.
    NotDerived(T),
    /// Something else moved the control while the brightness was measured.
    Moved { original: B, now: B },
    /// The image did not brighten.
    Dim { before: T, lit: T },
    /// The image stayed bright when the control was put back.
    Stayed { before: T, lit: T, after: T },
}

impl View for Unusable<Vec<u8>, String> {
    type V = Unusable<Seq<u8>, Seq<char>>;

    open spec fn view(&self) -> Unusable<Seq<u8>, Seq<char>> {
        match *self {
            Unusable::NotAccepted => Unusable::NotAccepted,
            Unusable::NotDerived(why) => Unusable::NotDerived(why@),
            Unusable::Moved { original, now } => Unusable::Moved {
                original: original@,
                now: now@,
            },
            Unusable::Dim { before, lit } => Unusable::Dim { before: before@, lit: lit@ },
            Unusable::Stayed { before, lit, after } => Unusable::Stayed {
                before: before@,
                lit: lit@,
                after: after@,
            },
        }
    }
}

impl Unusable<Seq<u8>, Seq<char>> {
    /// The reason in words.
    pub open spec fn worded(self) -> Seq<char> {
        match self {
            Unusable::NotAccepted =>
                "the camera reports it does not accept a write to this control right now"@,
            Unusable::NotDerived(why) => why,
            Unusable::Moved { original, now } =>
                "the control changed while setup was measuring: it held ["@ + hex_list(original)
                + "] when discovery began and ["@ + hex_list(now)
                + "] immediately before the write, so something else is driving it; nothing was sent"@,
            Unusable::Dim { before, lit } => "the image did not brighten (before "@ + before
                + ", after "@ + lit + ", needs +"@ + decimal(AUTOCONF_MIN_LIFT as nat) + ")"@,
            Unusable::Stayed { before, lit, after } =>
                "the image brightened but stayed bright when the control was put back ("@ + before
                + " before, "@ + lit + " with it set, "@ + after
                + " after undoing it), so the change did not come from this control"@,
        }
    }
}

impl Unusable<Vec<u8>, String> {
    /// The reason in words.
    #[must_use]
    pub fn message(&self) -> (r: String)
        ensures
            r@ == self@.worded(),
    {
        match self {
            Unusable::NotAccepted =>
                "the camera reports it does not accept a write to this control right now".to_owned(),
            Unusable::NotDerived(why) => why.clone(),
            Unusable::Moved { original, now } => {
                let mut s: String =
                    "the control changed while setup was measuring: it held [".to_owned();
                push_hex_list(&mut s, original.as_slice());
                s.append("] when discovery began and [");
                push_hex_list(&mut s, now.as_slice());
                s.append(
                    "] immediately before the write, so something else is driving it; nothing was sent",
                );
                s
            },
            Unusable::Dim { before, lit } => {
                let mut s: String = "the image did not brighten (before ".to_owned();
                s.append(before.as_str());
                s.append(", after ");
                s.append(lit.as_str());
                s.append(", needs +");
                push_decimal(&mut s, AUTOCONF_MIN_LIFT as u64);
                s.append(")");
                s
            },
            Unusable::Stayed { before, lit, after } => {
                let mut s: String =
                    "the image brightened but stayed bright when the control was put back (".to_owned();
                s.append(before.as_str());
                s.append(" before, ");
                s.append(lit.as_str());
                s.append(" with it set, ");
                s.append(after.as_str());
                s.append(" after undoing it), so the change did not come from this control");
                s
            },
        }
    }
}

/// What is wrong with an undo record.
#[derive(Clone, Debug, PartialEq, Eq)]
pub enum JournalTrouble<B, T> {
    /// In the store's own words.
    Said(T),
    /// The control could not be read back, so the record stays.
    BackUnanswered(XuError),
    /// The control does not hold what it was restored to, so the record stays.
    NotTaken { back: B, original: B },
}

impl View for JournalTrouble<Vec<u8>, String> {
    type V = JournalTrouble<Seq<u8>, Seq<char>>;

    open spec fn view(&self) -> JournalTrouble<Seq<u8>, Seq<char>> {
        match *self {
            JournalTrouble::Said(why) => JournalTrouble::Said(why@),
            JournalTrouble::BackUnanswered(err) => JournalTrouble::BackUnanswered(err),
            JournalTrouble::NotTaken { back, original } => JournalTrouble::NotTaken {
                back: back@,
                original: original@,
            },
        }
    }
}

impl JournalTrouble<Seq<u8>, Seq<char>> {
    /// The trouble in words, with the words for a failed request.
    pub open spec fn worded(self, failure: Seq<char>) -> Seq<char> {
        match self {
            JournalTrouble::Said(why) => why,
            JournalTrouble::BackUnanswered(_) => "read the control back: "@ + failure,
            JournalTrouble::NotTaken { back, original } => "the control reads ["@ + hex_list(back)
                + "] after being restored to ["@ + hex_list(original) + "]"@,
        }
    }
}

impl JournalTrouble<Vec<u8>, String> {
    /// The trouble in words, with the words for a failed request.
    #[must_use]
    pub fn message_with(&self, failure: &str) -> (r: String)
        ensures
            r@ == self@.worded(failure@),
    {
        match self {
            JournalTrouble::Said(why) => why.clone(),
            JournalTrouble::BackUnanswered(_) => {
                let mut s: String = "read the control back: ".to_owned();
                s.append(failure);
                s
            },
            JournalTrouble::NotTaken { back, original } => {
                let mut s: String = "the control reads [".to_owned();
                push_hex_list(&mut s, back.as_slice());
                s.append("] after being restored to [");
                push_hex_list(&mut s, original.as_slice());
                s.append("]");
                s
            },
        }
    }
}

/// How a trial ended.
#[derive(Clone, Debug, PartialEq, Eq)]
pub enum TrialEnd<B, T> {
    /// Lit, and still holding the applied value, with its undo record open.
    Lit { original: B, wanted: B },
    /// The control is already set to the value that setup would apply.
    AlreadyApplied,
    /// Usable but without effect, or not usable. The control was left as it was found.
    NotUsable(Unusable<B, T>),
    /// A request went unanswered.
    Query(XuError),
    /// A changed control could not be put back.
    Restore(XuError),
    /// The undo record could not be written, or could not be confirmed dropped.
    Journal(JournalTrouble<B, T>),
    /// The camera stopped delivering frames, or the run was asked to stop.
    Measurement,
    /// The caller's guard refused the next change.
    Guard(T),
}

impl View for TrialEnd<Vec<u8>, String> {
    type V = TrialEnd<Seq<u8>, Seq<char>>;

    open spec fn view(&self) -> TrialEnd<Seq<u8>, Seq<char>> {
        match *self {
            TrialEnd::Lit { original, wanted } => TrialEnd::Lit {
                original: original@,
                wanted: wanted@,
            },
            TrialEnd::AlreadyApplied => TrialEnd::AlreadyApplied,
            TrialEnd::NotUsable(why) => TrialEnd::NotUsable(why@),
            TrialEnd::Query(err) => TrialEnd::Query(err),
            TrialEnd::Restore(err) => TrialEnd::Restore(err),
            TrialEnd::Journal(trouble) => TrialEnd::Journal(trouble@),
            TrialEnd::Measurement => TrialEnd::Measurement,
            TrialEnd::Guard(why) => TrialEnd::Guard(why@),
        }
    }
}

// ---------------------------------------------------------------------------------------------
// Requests and replies
// ---------------------------------------------------------------------------------------------

/// What a trial asks for next.
#[derive(Clone, Debug, PartialEq, Eq)]
pub enum TrialRequest<B> {
    Camera(CameraRequest<B>),
    /// Measure the brightness.
    Measure,
    /// Whether the run was asked to stop.
    CheckAbort,
    /// Whether the caller permits the next change.
    AskGuard,
    /// Record durably how to undo the change from `original` to `attempted`.
    OpenRecord { original: B, attempted: B },
    /// Remove the record.
    ClearRecord,
}

impl View for TrialRequest<Vec<u8>> {
    type V = TrialRequest<Seq<u8>>;

    open spec fn view(&self) -> TrialRequest<Seq<u8>> {
        match *self {
            TrialRequest::Camera(request) => TrialRequest::Camera(request@),
            TrialRequest::Measure => TrialRequest::Measure,
            TrialRequest::CheckAbort => TrialRequest::CheckAbort,
            TrialRequest::AskGuard => TrialRequest::AskGuard,
            TrialRequest::OpenRecord { original, attempted } => TrialRequest::OpenRecord {
                original: original@,
                attempted: attempted@,
            },
            TrialRequest::ClearRecord => TrialRequest::ClearRecord,
        }
    }
}

/// What came of a trial's request.
#[derive(Clone, Debug, PartialEq, Eq)]
pub enum TrialReply<B, T> {
    Camera(CameraReply<B>),
    /// The brightness, or none where no frame came.
    Measured(Option<Brightness<T>>),
    /// Whether the run was asked to stop.
    Abort(bool),
    /// The caller permits the change, or why it does not.
    Guard(Option<T>),
    /// The store took the change, or why it did not.
    Stored(Option<T>),
}

impl View for TrialReply<Vec<u8>, String> {
    type V = TrialReply<Seq<u8>, Seq<char>>;

    open spec fn view(&self) -> TrialReply<Seq<u8>, Seq<char>> {
        match *self {
            TrialReply::Camera(reply) => TrialReply::Camera(reply@),
            TrialReply::Measured(None) => TrialReply::Measured(None),
            TrialReply::Measured(Some(brightness)) => TrialReply::Measured(Some(brightness@)),
            TrialReply::Abort(asked) => TrialReply::Abort(asked),
            TrialReply::Guard(None) => TrialReply::Guard(None),
            TrialReply::Guard(Some(why)) => TrialReply::Guard(Some(why@)),
            TrialReply::Stored(None) => TrialReply::Stored(None),
            TrialReply::Stored(Some(why)) => TrialReply::Stored(Some(why@)),
        }
    }
}

/// Whether a reply is one that a trial's request can have.
pub open spec fn trial_answers(
    request: TrialRequest<Seq<u8>>,
    reply: TrialReply<Seq<u8>, Seq<char>>,
) -> bool {
    match request {
        TrialRequest::Camera(request) => reply matches TrialReply::Camera(reply) && answers(
            request,
            reply,
        ),
        TrialRequest::Measure => reply is Measured,
        TrialRequest::CheckAbort => reply is Abort,
        TrialRequest::AskGuard => reply is Guard,
        TrialRequest::OpenRecord { .. } | TrialRequest::ClearRecord => reply is Stored,
    }
}

// ---------------------------------------------------------------------------------------------
// The trial
// ---------------------------------------------------------------------------------------------

/// The values that a trial works with.
#[derive(Clone, Debug, PartialEq, Eq)]
pub struct Subject<B, T> {
    /// What the control held when the trial began.
    pub original: B,
    /// What the trial applies.
    pub wanted: B,
    /// The brightness before anything was changed.
    pub before: Brightness<T>,
}

impl View for Subject<Vec<u8>, String> {
    type V = Subject<Seq<u8>, Seq<char>>;

    open spec fn view(&self) -> Subject<Seq<u8>, Seq<char>> {
        Subject { original: self.original@, wanted: self.wanted@, before: self.before@ }
    }
}

/// What follows once the control was put back.
#[derive(Clone, Debug, PartialEq, Eq)]
pub enum AfterRestore<B, T> {
    /// The brightness is measured again.
    Measure { wanted: B, before: Brightness<T>, lit: Brightness<T> },
    /// The trial ends, once the control is confirmed to be back.
    End(TrialEnd<B, T>),
}

impl View for AfterRestore<Vec<u8>, String> {
    type V = AfterRestore<Seq<u8>, Seq<char>>;

    open spec fn view(&self) -> AfterRestore<Seq<u8>, Seq<char>> {
        match *self {
            AfterRestore::Measure { wanted, before, lit } => AfterRestore::Measure {
                wanted: wanted@,
                before: before@,
                lit: lit@,
            },
            AfterRestore::End(end) => AfterRestore::End(end@),
        }
    }
}

/// Where a trial stands.
#[derive(Clone, Debug, PartialEq, Eq)]
pub enum TrialPhase<B, T> {
    Info,
    Length,
    Current { len: usize },
    Derive { original: B, derivation: Derivation<B> },
    MeasureBefore { original: B, wanted: B },
    AbortBeforeRecord(Subject<B, T>),
    Open(Subject<B, T>),
    Reread(Subject<B, T>),
    AbortBeforeWrite(Subject<B, T>),
    GuardFirst(Subject<B, T>),
    /// Nothing was written: the record describes a change that never happened.
    Abandon(TrialEnd<B, T>),
    ApplyFirst(Subject<B, T>),
    MeasureLit(Subject<B, T>),
    Restore { original: B, next: AfterRestore<B, T> },
    MeasureAfter { original: B, wanted: B, before: Brightness<T>, lit: Brightness<T> },
    AbortBeforeLast { original: B, wanted: B },
    GuardLast { original: B, wanted: B },
    /// The control was put back: read that it is.
    Confirm { original: B, end: TrialEnd<B, T> },
    Clear(TrialEnd<B, T>),
    ApplyLast { original: B, wanted: B },
    Ended(TrialEnd<B, T>),
}

impl View for TrialPhase<Vec<u8>, String> {
    type V = TrialPhase<Seq<u8>, Seq<char>>;

    open spec fn view(&self) -> TrialPhase<Seq<u8>, Seq<char>> {
        match *self {
            TrialPhase::Info => TrialPhase::Info,
            TrialPhase::Length => TrialPhase::Length,
            TrialPhase::Current { len } => TrialPhase::Current { len },
            TrialPhase::Derive { original, derivation } => TrialPhase::Derive {
                original: original@,
                derivation: derivation@,
            },
            TrialPhase::MeasureBefore { original, wanted } => TrialPhase::MeasureBefore {
                original: original@,
                wanted: wanted@,
            },
            TrialPhase::AbortBeforeRecord(subject) => TrialPhase::AbortBeforeRecord(subject@),
            TrialPhase::Open(subject) => TrialPhase::Open(subject@),
            TrialPhase::Reread(subject) => TrialPhase::Reread(subject@),
            TrialPhase::AbortBeforeWrite(subject) => TrialPhase::AbortBeforeWrite(subject@),
            TrialPhase::GuardFirst(subject) => TrialPhase::GuardFirst(subject@),
            TrialPhase::Abandon(end) => TrialPhase::Abandon(end@),
            TrialPhase::ApplyFirst(subject) => TrialPhase::ApplyFirst(subject@),
            TrialPhase::MeasureLit(subject) => TrialPhase::MeasureLit(subject@),
            TrialPhase::Restore { original, next } => TrialPhase::Restore {
                original: original@,
                next: next@,
            },
            TrialPhase::MeasureAfter { original, wanted, before, lit } => {
                TrialPhase::MeasureAfter {
                    original: original@,
                    wanted: wanted@,
                    before: before@,
                    lit: lit@,
                }
            },
            TrialPhase::AbortBeforeLast { original, wanted } => TrialPhase::AbortBeforeLast {
                original: original@,
                wanted: wanted@,
            },
            TrialPhase::GuardLast { original, wanted } => TrialPhase::GuardLast {
                original: original@,
                wanted: wanted@,
            },
            TrialPhase::Confirm { original, end } => TrialPhase::Confirm {
                original: original@,
                end: end@,
            },
            TrialPhase::Clear(end) => TrialPhase::Clear(end@),
            TrialPhase::ApplyLast { original, wanted } => TrialPhase::ApplyLast {
                original: original@,
                wanted: wanted@,
            },
            TrialPhase::Ended(end) => TrialPhase::Ended(end@),
        }
    }
}

/// A trial of one control.
#[derive(Clone, Debug, PartialEq, Eq)]
pub struct Trial<B, T> {
    pub selector: u8,
    pub phase: TrialPhase<B, T>,
}

impl View for Trial<Vec<u8>, String> {
    type V = Trial<Seq<u8>, Seq<char>>;

    open spec fn view(&self) -> Trial<Seq<u8>, Seq<char>> {
        Trial { selector: self.selector, phase: self.phase@ }
    }
}

impl Trial<Seq<u8>, Seq<char>> {
    /// A trial before the first request.
    pub open spec fn start(selector: u8) -> Self {
        Trial { selector, phase: TrialPhase::Info }
    }

    /// What is asked for next, if anything is.
    pub open spec fn asked(self) -> Option<TrialRequest<Seq<u8>>> {
        match self.phase {
            TrialPhase::Info => Some(TrialRequest::Camera(CameraRequest::GetInfo)),
            TrialPhase::Length => Some(TrialRequest::Camera(CameraRequest::GetLen)),
            TrialPhase::Current { len } => Some(
                TrialRequest::Camera(CameraRequest::Read { query: ControlQuery::Current, len }),
            ),
            TrialPhase::Derive { original, derivation } => match derivation.asked() {
                Some(request) => Some(TrialRequest::Camera(request)),
                None => None,
            },
            TrialPhase::MeasureBefore { .. } => Some(TrialRequest::Measure),
            TrialPhase::AbortBeforeRecord(_) => Some(TrialRequest::CheckAbort),
            TrialPhase::Open(subject) => Some(
                TrialRequest::OpenRecord { original: subject.original, attempted: subject.wanted },
            ),
            TrialPhase::Reread(subject) => Some(
                TrialRequest::Camera(
                    CameraRequest::Read {
                        query: ControlQuery::Current,
                        len: subject.original.len() as usize,
                    },
                ),
            ),
            TrialPhase::AbortBeforeWrite(_) => Some(TrialRequest::CheckAbort),
            TrialPhase::GuardFirst(_) => Some(TrialRequest::AskGuard),
            TrialPhase::Abandon(_) => Some(TrialRequest::ClearRecord),
            TrialPhase::ApplyFirst(subject) => Some(
                TrialRequest::Camera(CameraRequest::Write(subject.wanted)),
            ),
            TrialPhase::MeasureLit(_) => Some(TrialRequest::Measure),
            TrialPhase::Restore { original, next } => Some(
                TrialRequest::Camera(CameraRequest::Write(original)),
            ),
            TrialPhase::MeasureAfter { .. } => Some(TrialRequest::Measure),
            TrialPhase::AbortBeforeLast { .. } => Some(TrialRequest::CheckAbort),
            TrialPhase::GuardLast { .. } => Some(TrialRequest::AskGuard),
            TrialPhase::Confirm { original, end } => Some(
                TrialRequest::Camera(
                    CameraRequest::Read {
                        query: ControlQuery::Current,
                        len: original.len() as usize,
                    },
                ),
            ),
            TrialPhase::Clear(_) => Some(TrialRequest::ClearRecord),
            TrialPhase::ApplyLast { original, wanted } => Some(
                TrialRequest::Camera(CameraRequest::Write(wanted)),
            ),
            TrialPhase::Ended(_) => None,
        }
    }

    /// The phase once a derivation took a reply.
    pub open spec fn after_derivation(
        original: Seq<u8>,
        derivation: Derivation<Seq<u8>>,
    ) -> TrialPhase<Seq<u8>, Seq<char>> {
        match derivation.result() {
            None => TrialPhase::Derive { original, derivation },
            Some(Intended::Value(wanted)) => if original == wanted {
                TrialPhase::Ended(TrialEnd::AlreadyApplied)
            } else {
                TrialPhase::MeasureBefore { original, wanted }
            },
            Some(Intended::Refused(why)) => TrialPhase::Ended(
                TrialEnd::NotUsable(Unusable::NotDerived(why)),
            ),
            Some(Intended::Failed(err)) => TrialPhase::Ended(TrialEnd::Query(err)),
        }
    }

    /// The phase once the lit image was measured.
    pub open spec fn after_lit(
        subject: Subject<Seq<u8>, Seq<char>>,
        lit: Option<Brightness<Seq<char>>>,
    ) -> TrialPhase<Seq<u8>, Seq<char>> {
        let original = subject.original;
        match lit {
            None => TrialPhase::Restore {
                original,
                next: AfterRestore::End(TrialEnd::Measurement),
            },
            Some(lit) => if subject.before.raised.above(lit.level) {
                TrialPhase::Restore {
                    original,
                    next: AfterRestore::End(
                        TrialEnd::NotUsable(
                            Unusable::Dim { before: subject.before.shown, lit: lit.shown },
                        ),
                    ),
                }
            } else {
                TrialPhase::Restore {
                    original,
                    next: AfterRestore::Measure {
                        wanted: subject.wanted,
                        before: subject.before,
                        lit,
                    },
                }
            },
        }
    }

    /// The phase once the restored image was measured.
    pub open spec fn after_restored(
        original: Seq<u8>,
        wanted: Seq<u8>,
        before: Brightness<Seq<char>>,
        lit: Brightness<Seq<char>>,
        after: Option<Brightness<Seq<char>>>,
    ) -> TrialPhase<Seq<u8>, Seq<char>> {
        match after {
            None => TrialPhase::Ended(TrialEnd::Measurement),
            Some(after) => if after.level.at_least(lit.lowered) {
                TrialPhase::Confirm {
                    original,
                    end: TrialEnd::NotUsable(
                        Unusable::Stayed {
                            before: before.shown,
                            lit: lit.shown,
                            after: after.shown,
                        },
                    ),
                }
            } else {
                TrialPhase::AbortBeforeLast { original, wanted }
            },
        }
    }

    /// The phase once the store said whether a record was removed.
    pub open spec fn after_clear(
        end: TrialEnd<Seq<u8>, Seq<char>>,
        trouble: Option<Seq<char>>,
    ) -> TrialPhase<Seq<u8>, Seq<char>> {
        match trouble {
            None => TrialPhase::Ended(end),
            Some(why) => TrialPhase::Ended(TrialEnd::Journal(JournalTrouble::Said(why))),
        }
    }

    /// The phase after a reply.
    pub open spec fn next_phase(self, reply: TrialReply<Seq<u8>, Seq<char>>) -> TrialPhase<
        Seq<u8>,
        Seq<char>,
    > {
        match (self.phase, reply) {
            (TrialPhase::Info, TrialReply::Camera(CameraReply::Info(info))) => if settable(info) {
                TrialPhase::Length
            } else {
                TrialPhase::Ended(TrialEnd::NotUsable(Unusable::NotAccepted))
            },
            (TrialPhase::Length, TrialReply::Camera(CameraReply::Length(len))) => {
                if plausible_len(len as int) {
                    TrialPhase::Current { len: len as usize }
                } else {
                    TrialPhase::Ended(TrialEnd::Query(XuError::Unsupported))
                }
            },
            (TrialPhase::Current { len }, TrialReply::Camera(CameraReply::Bytes(original))) => {
                TrialPhase::Derive {
                    original,
                    derivation: Derivation::<Seq<u8>>::start(self.selector, len),
                }
            },
            (TrialPhase::Derive { original, derivation }, TrialReply::Camera(reply)) => {
                Trial::<Seq<u8>, Seq<char>>::after_derivation(original, derivation.step(reply))
            },
            (TrialPhase::MeasureBefore { original, wanted }, TrialReply::Measured(measured)) => {
                match measured {
                    None => TrialPhase::Ended(TrialEnd::Measurement),
                    Some(before) => TrialPhase::AbortBeforeRecord(
                        Subject { original, wanted, before },
                    ),
                }
            },
            (TrialPhase::AbortBeforeRecord(subject), TrialReply::Abort(asked)) => if asked {
                TrialPhase::Ended(TrialEnd::Measurement)
            } else {
                TrialPhase::Open(subject)
            },
            (TrialPhase::Open(subject), TrialReply::Stored(trouble)) => match trouble {
                None => TrialPhase::Reread(subject),
                Some(why) => TrialPhase::Ended(TrialEnd::Journal(JournalTrouble::Said(why))),
            },
            (TrialPhase::Reread(subject), TrialReply::Camera(CameraReply::Bytes(now))) => {
                if now == subject.original {
                    TrialPhase::AbortBeforeWrite(subject)
                } else {
                    TrialPhase::Abandon(
                        TrialEnd::NotUsable(Unusable::Moved { original: subject.original, now }),
                    )
                }
            },
            (TrialPhase::AbortBeforeWrite(subject), TrialReply::Abort(asked)) => if asked {
                TrialPhase::Ended(TrialEnd::Measurement)
            } else {
                TrialPhase::GuardFirst(subject)
            },
            (TrialPhase::GuardFirst(subject), TrialReply::Guard(refusal)) => match refusal {
                None => TrialPhase::ApplyFirst(subject),
                Some(why) => TrialPhase::Abandon(TrialEnd::Guard(why)),
            },
            (TrialPhase::Abandon(end), TrialReply::Stored(trouble)) => {
                Trial::<Seq<u8>, Seq<char>>::after_clear(end, trouble)
            },
            (TrialPhase::ApplyFirst(subject), TrialReply::Camera(CameraReply::Accepted)) => {
                TrialPhase::MeasureLit(subject)
            },
            (TrialPhase::MeasureLit(subject), TrialReply::Measured(lit)) => {
                Trial::<Seq<u8>, Seq<char>>::after_lit(subject, lit)
            },
            (
                TrialPhase::Restore { original, next },
                TrialReply::Camera(CameraReply::Accepted),
            ) => match next {
                AfterRestore::Measure { wanted, before, lit } => TrialPhase::MeasureAfter {
                    original,
                    wanted,
                    before,
                    lit,
                },
                AfterRestore::End(end) => TrialPhase::Confirm { original, end },
            },
            (
                TrialPhase::Restore { original, next },
                TrialReply::Camera(CameraReply::Failed(err)),
            ) => TrialPhase::Ended(TrialEnd::Restore(err)),
            (
                TrialPhase::MeasureAfter { original, wanted, before, lit },
                TrialReply::Measured(after),
            ) => Trial::<Seq<u8>, Seq<char>>::after_restored(original, wanted, before, lit, after),
            (TrialPhase::AbortBeforeLast { original, wanted }, TrialReply::Abort(asked)) => {
                if asked {
                    TrialPhase::Ended(TrialEnd::Measurement)
                } else {
                    TrialPhase::GuardLast { original, wanted }
                }
            },
            (TrialPhase::GuardLast { original, wanted }, TrialReply::Guard(refusal)) => {
                match refusal {
                    None => TrialPhase::ApplyLast { original, wanted },
                    Some(why) => TrialPhase::Confirm { original, end: TrialEnd::Guard(why) },
                }
            },
            (
                TrialPhase::Confirm { original, end },
                TrialReply::Camera(CameraReply::Bytes(back)),
            ) => if back == original {
                TrialPhase::Clear(end)
            } else {
                TrialPhase::Ended(TrialEnd::Journal(JournalTrouble::NotTaken { back, original }))
            },
            (
                TrialPhase::Confirm { original, end },
                TrialReply::Camera(CameraReply::Failed(err)),
            ) => TrialPhase::Ended(TrialEnd::Journal(JournalTrouble::BackUnanswered(err))),
            (TrialPhase::Clear(end), TrialReply::Stored(trouble)) => {
                Trial::<Seq<u8>, Seq<char>>::after_clear(end, trouble)
            },
            (
                TrialPhase::ApplyLast { original, wanted },
                TrialReply::Camera(CameraReply::Accepted),
            ) => TrialPhase::Ended(TrialEnd::Lit { original, wanted }),
            (_, TrialReply::Camera(CameraReply::Failed(err))) => TrialPhase::Ended(
                TrialEnd::Query(err),
            ),
            (phase, _) => phase,
        }
    }

    /// The trial after a reply.
    pub open spec fn step(self, reply: TrialReply<Seq<u8>, Seq<char>>) -> Self {
        Trial { phase: self.next_phase(reply), ..self }
    }

    /// What has to be put back if the run is torn down here: the tried value is known to be on the
    /// camera, and the camera still answers, only while the lit image is measured.
    pub open spec fn undo_owed(self) -> Option<Seq<u8>> {
        match self.phase {
            TrialPhase::MeasureLit(subject) => Some(subject.original),
            _ => None,
        }
    }

    /// What every trial keeps.
    pub open spec fn well_formed(self) -> bool {
        match self.phase {
            TrialPhase::Derive { original, derivation } => derivation.well_formed()
                && derivation.asked() is Some && derivation.len == original.len(),
            TrialPhase::MeasureBefore { original, wanted } => original.len() == wanted.len()
                && original != wanted,
            TrialPhase::AbortBeforeRecord(subject)
            | TrialPhase::Open(subject)
            | TrialPhase::Reread(subject)
            | TrialPhase::AbortBeforeWrite(subject)
            | TrialPhase::GuardFirst(subject)
            | TrialPhase::ApplyFirst(subject)
            | TrialPhase::MeasureLit(subject) => subject.original.len() == subject.wanted.len()
                && subject.original != subject.wanted,
            TrialPhase::Restore { original, next } => match next {
                AfterRestore::Measure { wanted, before, lit } => original.len() == wanted.len()
                    && original != wanted && !before.raised.above(lit.level),
                AfterRestore::End(end) => !(end is Lit),
            },
            TrialPhase::MeasureAfter { original, wanted, before, lit } => original.len()
                == wanted.len() && original != wanted && !before.raised.above(lit.level),
            TrialPhase::AbortBeforeLast { original, wanted }
            | TrialPhase::GuardLast { original, wanted }
            | TrialPhase::ApplyLast { original, wanted } => original.len() == wanted.len()
                && original != wanted,
            TrialPhase::Abandon(end) => !(end is Lit),
            TrialPhase::Confirm { original, end } => !(end is Lit),
            TrialPhase::Clear(end) => !(end is Lit),
            TrialPhase::Ended(end) => match end {
                TrialEnd::Lit { original, wanted } => original.len() == wanted.len() && original
                    != wanted,
                _ => true,
            },
            _ => true,
        }
    }
}

impl Trial<Vec<u8>, String> {
    /// A trial of a control.
    #[must_use]
    pub fn new(selector: u8) -> (r: Self)
        ensures
            r@ == Trial::<Seq<u8>, Seq<char>>::start(selector),
            r@.well_formed(),
    {
        Trial { selector, phase: TrialPhase::Info }
    }

    /// What is asked for next, if anything is.
    #[must_use]
    pub fn request(&self) -> (r: Option<TrialRequest<Vec<u8>>>)
        ensures
            match r {
                Some(request) => self@.asked() == Some(request@),
                None => self@.asked() is None,
            },
    {
        match &self.phase {
            TrialPhase::Info => Some(TrialRequest::Camera(CameraRequest::GetInfo)),
            TrialPhase::Length => Some(TrialRequest::Camera(CameraRequest::GetLen)),
            TrialPhase::Current { len } => Some(
                TrialRequest::Camera(
                    CameraRequest::Read { query: ControlQuery::Current, len: *len },
                ),
            ),
            TrialPhase::Derive { original: _, derivation } => match derivation.request() {
                Some(request) => Some(TrialRequest::Camera(request)),
                None => None,
            },
            TrialPhase::MeasureBefore { .. } => Some(TrialRequest::Measure),
            TrialPhase::AbortBeforeRecord(_) => Some(TrialRequest::CheckAbort),
            TrialPhase::Open(subject) => Some(
                TrialRequest::OpenRecord {
                    original: copy_bytes(subject.original.as_slice()),
                    attempted: copy_bytes(subject.wanted.as_slice()),
                },
            ),
            TrialPhase::Reread(subject) => Some(
                TrialRequest::Camera(
                    CameraRequest::Read {
                        query: ControlQuery::Current,
                        len: subject.original.len(),
                    },
                ),
            ),
            TrialPhase::AbortBeforeWrite(_) => Some(TrialRequest::CheckAbort),
            TrialPhase::GuardFirst(_) => Some(TrialRequest::AskGuard),
            TrialPhase::Abandon(_) => Some(TrialRequest::ClearRecord),
            TrialPhase::ApplyFirst(subject) => Some(
                TrialRequest::Camera(CameraRequest::write(subject.wanted.as_slice())),
            ),
            TrialPhase::MeasureLit(_) => Some(TrialRequest::Measure),
            TrialPhase::Restore { original, next: _ } => Some(
                TrialRequest::Camera(CameraRequest::write(original.as_slice())),
            ),
            TrialPhase::MeasureAfter { .. } => Some(TrialRequest::Measure),
            TrialPhase::AbortBeforeLast { .. } => Some(TrialRequest::CheckAbort),
            TrialPhase::GuardLast { .. } => Some(TrialRequest::AskGuard),
            TrialPhase::Confirm { original, end: _ } => Some(
                TrialRequest::Camera(
                    CameraRequest::Read { query: ControlQuery::Current, len: original.len() },
                ),
            ),
            TrialPhase::Clear(_) => Some(TrialRequest::ClearRecord),
            TrialPhase::ApplyLast { original: _, wanted } => Some(
                TrialRequest::Camera(CameraRequest::write(wanted.as_slice())),
            ),
            TrialPhase::Ended(_) => None,
        }
    }

    /// What has to be put back if the run is torn down here, if anything has.
    #[must_use]
    pub fn undo(&self) -> (r: Option<Vec<u8>>)
        ensures
            match r {
                Some(bytes) => self@.undo_owed() == Some(bytes@),
                None => self@.undo_owed() is None,
            },
    {
        match &self.phase {
            TrialPhase::MeasureLit(subject) => Some(copy_bytes(subject.original.as_slice())),
            _ => None,
        }
    }

    fn derived(original: Vec<u8>, derivation: Derivation<Vec<u8>>) -> (r: TrialPhase<
        Vec<u8>,
        String,
    >)
        ensures
            r@ == Trial::<Seq<u8>, Seq<char>>::after_derivation(original@, derivation@),
    {
        match derivation.outcome() {
            None => TrialPhase::Derive { original, derivation },
            Some(Intended::Value(wanted)) => {
                if same_bytes(original.as_slice(), wanted.as_slice()) {
                    TrialPhase::Ended(TrialEnd::AlreadyApplied)
                } else {
                    TrialPhase::MeasureBefore { original, wanted }
                }
            },
            Some(Intended::Refused(why)) => TrialPhase::Ended(
                TrialEnd::NotUsable(Unusable::NotDerived(why)),
            ),
            Some(Intended::Failed(err)) => TrialPhase::Ended(TrialEnd::Query(err)),
        }
    }

    fn lit(subject: Subject<Vec<u8>, String>, lit: Option<Brightness<String>>) -> (r: TrialPhase<
        Vec<u8>,
        String,
    >)
        ensures
            r@ == Trial::<Seq<u8>, Seq<char>>::after_lit(
                subject@,
                TrialReply::<Vec<u8>, String>::Measured(lit)@->Measured_0,
            ),
    {
        let Subject { original, wanted, before } = subject;
        match lit {
            None => TrialPhase::Restore {
                original,
                next: AfterRestore::End(TrialEnd::Measurement),
            },
            Some(lit) => {
                if before.raised.is_above(&lit.level) {
                    TrialPhase::Restore {
                        original,
                        next: AfterRestore::End(
                            TrialEnd::NotUsable(
                                Unusable::Dim { before: before.shown, lit: lit.shown },
                            ),
                        ),
                    }
                } else {
                    TrialPhase::Restore {
                        original,
                        next: AfterRestore::Measure { wanted, before, lit },
                    }
                }
            },
        }
    }

    fn restored(
        original: Vec<u8>,
        wanted: Vec<u8>,
        before: Brightness<String>,
        lit: Brightness<String>,
        after: Option<Brightness<String>>,
    ) -> (r: TrialPhase<Vec<u8>, String>)
        ensures
            r@ == Trial::<Seq<u8>, Seq<char>>::after_restored(
                original@,
                wanted@,
                before@,
                lit@,
                TrialReply::<Vec<u8>, String>::Measured(after)@->Measured_0,
            ),
    {
        match after {
            None => TrialPhase::Ended(TrialEnd::Measurement),
            Some(after) => {
                if after.level.is_at_least(&lit.lowered) {
                    TrialPhase::Confirm {
                        original,
                        end: TrialEnd::NotUsable(
                            Unusable::Stayed {
                                before: before.shown,
                                lit: lit.shown,
                                after: after.shown,
                            },
                        ),
                    }
                } else {
                    TrialPhase::AbortBeforeLast { original, wanted }
                }
            },
        }
    }

    fn cleared(end: TrialEnd<Vec<u8>, String>, trouble: Option<String>) -> (r: TrialPhase<
        Vec<u8>,
        String,
    >)
        ensures
            r@ == Trial::<Seq<u8>, Seq<char>>::after_clear(
                end@,
                TrialReply::<Vec<u8>, String>::Stored(trouble)@->Stored_0,
            ),
    {
        match trouble {
            None => TrialPhase::Ended(end),
            Some(why) => TrialPhase::Ended(TrialEnd::Journal(JournalTrouble::Said(why))),
        }
    }

    /// Takes a reply of the camera.
    fn answered(phase: TrialPhase<Vec<u8>, String>, selector: u8, reply: CameraReply<Vec<u8>>) -> (r:
        TrialPhase<Vec<u8>, String>)
        requires
            (Trial { selector, phase: phase@ }).asked() matches Some(TrialRequest::Camera(request))
                && answers(request, reply@),
        ensures
            r@ == (Trial { selector, phase: phase@ }).next_phase(TrialReply::Camera(reply@)),
    {
        match (phase, reply) {
            (TrialPhase::Info, CameraReply::Info(info)) => if info_allows_set(info) {
                TrialPhase::Length
            } else {
                TrialPhase::Ended(TrialEnd::NotUsable(Unusable::NotAccepted))
            },
            (TrialPhase::Length, CameraReply::Length(len)) => match valid_ctrl_len(len as usize) {
                Some(len) => TrialPhase::Current { len },
                None => TrialPhase::Ended(TrialEnd::Query(XuError::Unsupported)),
            },
            (TrialPhase::Current { len }, CameraReply::Bytes(original)) => TrialPhase::Derive {
                original,
                derivation: Derivation::new(selector, len),
            },
            (TrialPhase::Derive { original, derivation }, reply) => {
                Trial::<Vec<u8>, String>::derived(original, derivation.advance(reply))
            },
            (TrialPhase::Reread(subject), CameraReply::Bytes(now)) => {
                if same_bytes(now.as_slice(), subject.original.as_slice()) {
                    TrialPhase::AbortBeforeWrite(subject)
                } else {
                    TrialPhase::Abandon(
                        TrialEnd::NotUsable(Unusable::Moved { original: subject.original, now }),
                    )
                }
            },
            (TrialPhase::ApplyFirst(subject), CameraReply::Accepted) => {
                TrialPhase::MeasureLit(subject)
            },
            (TrialPhase::Restore { original, next }, CameraReply::Accepted) => match next {
                AfterRestore::Measure { wanted, before, lit } => TrialPhase::MeasureAfter {
                    original,
                    wanted,
                    before,
                    lit,
                },
                AfterRestore::End(end) => TrialPhase::Confirm { original, end },
            },
            (TrialPhase::Restore { original: _, next: _ }, CameraReply::Failed(err)) => {
                TrialPhase::Ended(TrialEnd::Restore(err))
            },
            (TrialPhase::Confirm { original, end }, CameraReply::Bytes(back)) => {
                if same_bytes(back.as_slice(), original.as_slice()) {
                    TrialPhase::Clear(end)
                } else {
                    TrialPhase::Ended(
                        TrialEnd::Journal(JournalTrouble::NotTaken { back, original }),
                    )
                }
            },
            (TrialPhase::Confirm { original: _, end: _ }, CameraReply::Failed(err)) => {
                TrialPhase::Ended(TrialEnd::Journal(JournalTrouble::BackUnanswered(err)))
            },
            (TrialPhase::ApplyLast { original, wanted }, CameraReply::Accepted) => {
                TrialPhase::Ended(TrialEnd::Lit { original, wanted })
            },
            (_, CameraReply::Failed(err)) => TrialPhase::Ended(TrialEnd::Query(err)),
            (phase, _) => phase,
        }
    }

    /// Takes the reply to the last request.
    #[must_use]
    pub fn advance(self, reply: TrialReply<Vec<u8>, String>) -> (r: Self)
        requires
            self@.well_formed(),
            self@.asked() is Some,
            trial_answers(self@.asked()->0, reply@),
        ensures
            r@ == self@.step(reply@),
            r@.well_formed(),
    {
        let ghost before = self@;
        let selector: u8 = self.selector;
        let phase: TrialPhase<Vec<u8>, String> = match (self.phase, reply) {
            (phase, TrialReply::Camera(reply)) => Trial::<Vec<u8>, String>::answered(
                phase,
                selector,
                reply,
            ),
            (TrialPhase::MeasureBefore { original, wanted }, TrialReply::Measured(measured)) => {
                match measured {
                    None => TrialPhase::Ended(TrialEnd::Measurement),
                    Some(before) => TrialPhase::AbortBeforeRecord(
                        Subject { original, wanted, before },
                    ),
                }
            },
            (TrialPhase::AbortBeforeRecord(subject), TrialReply::Abort(asked)) => if asked {
                TrialPhase::Ended(TrialEnd::Measurement)
            } else {
                TrialPhase::Open(subject)
            },
            (TrialPhase::Open(subject), TrialReply::Stored(trouble)) => match trouble {
                None => TrialPhase::Reread(subject),
                Some(why) => TrialPhase::Ended(TrialEnd::Journal(JournalTrouble::Said(why))),
            },
            (TrialPhase::AbortBeforeWrite(subject), TrialReply::Abort(asked)) => if asked {
                TrialPhase::Ended(TrialEnd::Measurement)
            } else {
                TrialPhase::GuardFirst(subject)
            },
            (TrialPhase::GuardFirst(subject), TrialReply::Guard(refusal)) => match refusal {
                None => TrialPhase::ApplyFirst(subject),
                Some(why) => TrialPhase::Abandon(TrialEnd::Guard(why)),
            },
            (TrialPhase::Abandon(end), TrialReply::Stored(trouble)) => {
                Trial::<Vec<u8>, String>::cleared(end, trouble)
            },
            (TrialPhase::MeasureLit(subject), TrialReply::Measured(lit)) => {
                Trial::<Vec<u8>, String>::lit(subject, lit)
            },
            (
                TrialPhase::MeasureAfter { original, wanted, before, lit },
                TrialReply::Measured(after),
            ) => Trial::<Vec<u8>, String>::restored(original, wanted, before, lit, after),
            (TrialPhase::AbortBeforeLast { original, wanted }, TrialReply::Abort(asked)) => {
                if asked {
                    TrialPhase::Ended(TrialEnd::Measurement)
                } else {
                    TrialPhase::GuardLast { original, wanted }
                }
            },
            (TrialPhase::GuardLast { original, wanted }, TrialReply::Guard(refusal)) => {
                match refusal {
                    None => TrialPhase::ApplyLast { original, wanted },
                    Some(why) => TrialPhase::Confirm { original, end: TrialEnd::Guard(why) },
                }
            },
            (TrialPhase::Clear(end), TrialReply::Stored(trouble)) => {
                Trial::<Vec<u8>, String>::cleared(end, trouble)
            },
            (phase, _) => phase,
        };
        proof {
            trial_moves_on(before, reply@);
        }
        Trial { selector, phase }
    }
}

// ---------------------------------------------------------------------------------------------
// Laws
// ---------------------------------------------------------------------------------------------

impl Trial<Seq<u8>, Seq<char>> {
    /// How many requests a trial still makes at most.
    pub open spec fn left(self) -> int {
        match self.phase {
            TrialPhase::Info => 28,
            TrialPhase::Length => 27,
            TrialPhase::Current { .. } => 26,
            TrialPhase::Derive { original, derivation } => 20 + derivation.left(),
            TrialPhase::MeasureBefore { .. } => 20,
            TrialPhase::AbortBeforeRecord(_) => 19,
            TrialPhase::Open(_) => 18,
            TrialPhase::Reread(_) => 17,
            TrialPhase::AbortBeforeWrite(_) => 16,
            TrialPhase::GuardFirst(_) => 15,
            TrialPhase::ApplyFirst(_) => 14,
            TrialPhase::MeasureLit(_) => 13,
            TrialPhase::Restore { .. } => 12,
            TrialPhase::MeasureAfter { .. } => 11,
            TrialPhase::AbortBeforeLast { .. } => 10,
            TrialPhase::GuardLast { .. } => 9,
            TrialPhase::ApplyLast { .. } => 8,
            TrialPhase::Confirm { .. } => 2,
            TrialPhase::Clear(_) => 1,
            TrialPhase::Abandon(_) => 1,
            TrialPhase::Ended(_) => 0,
        }
    }

    /// The trial after replies, the first of them first.
    pub open spec fn after_all(self, replies: Seq<TrialReply<Seq<u8>, Seq<char>>>) -> Self
        decreases replies.len(),
    {
        if replies.len() == 0 {
            self
        } else {
            self.after_all(replies.drop_last()).step(replies.last())
        }
    }

    /// Whether each reply of a run is one that the request before it can have.
    pub open spec fn proper_run(self, replies: Seq<TrialReply<Seq<u8>, Seq<char>>>) -> bool {
        forall|i: int|
            0 <= i < replies.len() ==> {
                let before = self.after_all(#[trigger] replies.take(i));
                before.asked() is Some && trial_answers(before.asked()->0, replies[i])
            }
    }

    /// Whether the next request puts the tried value on the camera.
    pub open spec fn changes(self) -> bool {
        self.phase is ApplyFirst || self.phase is ApplyLast
    }
}

/// Each reply brings a trial nearer to its end, and what a trial keeps is kept.
pub proof fn trial_moves_on(
    trial: Trial<Seq<u8>, Seq<char>>,
    reply: TrialReply<Seq<u8>, Seq<char>>,
)
    requires
        trial.well_formed(),
        trial.asked() is Some,
        trial_answers(trial.asked()->0, reply),
    ensures
        trial.step(reply).left() < trial.left(),
        trial.step(reply).well_formed(),
{
}

proof fn shorter_run(
    start: Trial<Seq<u8>, Seq<char>>,
    replies: Seq<TrialReply<Seq<u8>, Seq<char>>>,
)
    requires
        start.proper_run(replies),
        replies.len() > 0,
    ensures
        start.proper_run(replies.drop_last()),
        start.after_all(replies.drop_last()).asked() is Some,
        trial_answers(start.after_all(replies.drop_last()).asked()->0, replies.last()),
        replies.take(replies.len() - 1) == replies.drop_last(),
{
    let shorter = replies.drop_last();
    assert(replies.take(shorter.len() as int) =~= shorter);
    assert forall|i: int| 0 <= i < shorter.len() implies {
        let before = start.after_all(#[trigger] shorter.take(i));
        before.asked() is Some && trial_answers(before.asked()->0, shorter[i])
    } by {
        assert(replies.take(i) =~= shorter.take(i));
    }
}

/// Over any run of a trial, what it keeps is kept.
pub proof fn trial_stays_well_formed(
    selector: u8,
    replies: Seq<TrialReply<Seq<u8>, Seq<char>>>,
)
    requires
        Trial::start(selector).proper_run(replies),
    ensures
        Trial::start(selector).after_all(replies).well_formed(),
        Trial::start(selector).after_all(replies).left() + replies.len() <= 28,
    decreases replies.len(),
{
    if replies.len() > 0 {
        let start = Trial::start(selector);
        shorter_run(start, replies);
        trial_stays_well_formed(selector, replies.drop_last());
        trial_moves_on(start.after_all(replies.drop_last()), replies.last());
    }
}

/// A camera that fails to answer ends the trial: nothing further is asked of it.
pub proof fn a_failed_request_ends_the_trial(trial: Trial<Seq<u8>, Seq<char>>, err: XuError)
    requires
        trial.well_formed(),
        trial.asked() matches Some(TrialRequest::Camera(_)),
    ensures
        trial.step(TrialReply::Camera(CameraReply::Failed(err))).phase is Ended,
        !(trial.step(
            TrialReply::Camera(CameraReply::Failed(err)),
        ).phase matches TrialPhase::Ended(TrialEnd::Lit { .. })),
{
}

/// A torn-down trial has something to put back exactly while the tried value is known to be on a
/// camera that answers: right after the camera took it, and not once a restore was begun or a
/// request failed.
pub proof fn teardown_puts_back_only_a_live_value(
    trial: Trial<Seq<u8>, Seq<char>>,
    reply: TrialReply<Seq<u8>, Seq<char>>,
)
    requires
        trial.well_formed(),
        trial.asked() is Some,
        trial_answers(trial.asked()->0, reply),
    ensures
        trial.step(reply).undo_owed() matches Some(original) ==> (
        trial.phase matches TrialPhase::ApplyFirst(subject) && subject.original == original
            && reply == TrialReply::<Seq<u8>, Seq<char>>::Camera(CameraReply::Accepted)),
{
}

/// Each time that a trial is about to put the tried value on the camera, the run was just found not
/// to be asked to stop and the caller has just permitted the change.
pub proof fn a_change_is_permitted_each_time(
    selector: u8,
    replies: Seq<TrialReply<Seq<u8>, Seq<char>>>,
)
    requires
        Trial::start(selector).proper_run(replies),
        Trial::start(selector).after_all(replies).changes(),
    ensures
        replies.len() >= 3,
        replies[replies.len() - 1] == TrialReply::<Seq<u8>, Seq<char>>::Guard(None),
        replies[replies.len() - 2] == TrialReply::<Seq<u8>, Seq<char>>::Abort(false),
        Trial::start(selector).after_all(replies).phase matches TrialPhase::ApplyFirst(subject)
            ==> replies[replies.len() - 3] == TrialReply::<Seq<u8>, Seq<char>>::Camera(
            CameraReply::Bytes(subject.original),
        ),
{
    let start = Trial::start(selector);
    shorter_run(start, replies);
    let r1 = replies.drop_last();
    shorter_run(start, r1);
    let r2 = r1.drop_last();
    shorter_run(start, r2);
}

/// Whether the store has said, at a point of a run, that it durably holds how to undo a change.
pub open spec fn recorded_at(
    selector: u8,
    replies: Seq<TrialReply<Seq<u8>, Seq<char>>>,
    i: int,
    original: Seq<u8>,
    wanted: Seq<u8>,
) -> bool {
    &&& 0 <= i < replies.len()
    &&& Trial::start(selector).after_all(replies.take(i)).asked() == Some(
        TrialRequest::OpenRecord { original, attempted: wanted },
    )
    &&& replies[i] == TrialReply::<Seq<u8>, Seq<char>>::Stored(None)
}

/// Whether a run holds the record of a change.
pub open spec fn is_recorded(
    selector: u8,
    replies: Seq<TrialReply<Seq<u8>, Seq<char>>>,
    original: Seq<u8>,
    wanted: Seq<u8>,
) -> bool {
    exists|i: int| #[trigger] recorded_at(selector, replies, i, original, wanted)
}

proof fn record_stays(
    selector: u8,
    replies: Seq<TrialReply<Seq<u8>, Seq<char>>>,
    original: Seq<u8>,
    wanted: Seq<u8>,
)
    requires
        replies.len() > 0,
        is_recorded(selector, replies.drop_last(), original, wanted),
    ensures
        is_recorded(selector, replies, original, wanted),
{
    let shorter = replies.drop_last();
    let i = choose|i: int| #[trigger] recorded_at(selector, shorter, i, original, wanted);
    assert(shorter.take(i) =~= replies.take(i));
    assert(recorded_at(selector, replies, i, original, wanted));
}

/// The values that a phase works with from the moment that they are recorded.
pub open spec fn recorded_values(phase: TrialPhase<Seq<u8>, Seq<char>>) -> Option<
    (Seq<u8>, Seq<u8>),
> {
    match phase {
        TrialPhase::Reread(subject)
        | TrialPhase::AbortBeforeWrite(subject)
        | TrialPhase::GuardFirst(subject)
        | TrialPhase::ApplyFirst(subject)
        | TrialPhase::MeasureLit(subject) => Some((subject.original, subject.wanted)),
        TrialPhase::Restore {
            original,
            next: AfterRestore::Measure { wanted, before, lit },
        } => Some((original, wanted)),
        TrialPhase::MeasureAfter { original, wanted, before, lit } => Some((original, wanted)),
        TrialPhase::AbortBeforeLast { original, wanted }
        | TrialPhase::GuardLast { original, wanted }
        | TrialPhase::ApplyLast { original, wanted } => Some((original, wanted)),
        TrialPhase::Ended(TrialEnd::Lit { original, wanted }) => Some((original, wanted)),
        _ => None,
    }
}

/// Whether a phase puts back, or has put back, a value.
pub open spec fn restored_value(phase: TrialPhase<Seq<u8>, Seq<char>>) -> Option<Seq<u8>> {
    match phase {
        TrialPhase::Restore { original, next } => Some(original),
        TrialPhase::Confirm { original, end } => Some(original),
        _ => None,
    }
}

/// One reply's effect on the recorded values: they come out of the record's opening and then stay.
proof fn step_keeps_the_values(
    trial: Trial<Seq<u8>, Seq<char>>,
    reply: TrialReply<Seq<u8>, Seq<char>>,
)
    requires
        trial.well_formed(),
        trial.asked() is Some,
        trial_answers(trial.asked()->0, reply),
    ensures
        recorded_values(trial.step(reply).phase) matches Some(values) ==> recorded_values(
            trial.phase,
        ) == Some(values) || (trial.asked() == Some(
            TrialRequest::OpenRecord { original: values.0, attempted: values.1 },
        ) && reply == TrialReply::<Seq<u8>, Seq<char>>::Stored(None)),
        restored_value(trial.step(reply).phase) matches Some(original) ==> restored_value(
            trial.phase,
        ) == Some(original) || (recorded_values(trial.phase) matches Some(values) && values.0
            == original),
{
}

/// What a phase writes is one of its values.
proof fn writes_a_recorded_value(phase: TrialPhase<Seq<u8>, Seq<char>>, selector: u8, value: Seq<u8>)
    requires
        (Trial { selector, phase }).asked() == Some(
            TrialRequest::Camera(CameraRequest::Write(value)),
        ),
    ensures
        (recorded_values(phase) matches Some(values) && (values.0 == value || values.1 == value))
            || restored_value(phase) == Some(value),
{
    if let TrialPhase::Derive { original, derivation } = phase {
        crate::ir_emitter::derive::derivation_never_writes(derivation);
    }
}

proof fn values_are_recorded(selector: u8, replies: Seq<TrialReply<Seq<u8>, Seq<char>>>)
    requires
        Trial::start(selector).proper_run(replies),
    ensures
        recorded_values(Trial::start(selector).after_all(replies).phase) matches Some(values)
            ==> is_recorded(selector, replies, values.0, values.1),
        restored_value(Trial::start(selector).after_all(replies).phase) matches Some(original)
            ==> exists|wanted: Seq<u8>| #[trigger]
            is_recorded(selector, replies, original, wanted),
    decreases replies.len(),
{
    if replies.len() > 0 {
        let start = Trial::start(selector);
        shorter_run(start, replies);
        let shorter = replies.drop_last();
        values_are_recorded(selector, shorter);
        let before = start.after_all(shorter);
        let now = start.after_all(replies);
        assert(now == before.step(replies.last()));
        trial_stays_well_formed(selector, shorter);
        step_keeps_the_values(before, replies.last());
        match recorded_values(now.phase) {
            Some(values) => {
                if recorded_values(before.phase) == Some(values) {
                    record_stays(selector, replies, values.0, values.1);
                } else {
                    assert(recorded_at(
                        selector,
                        replies,
                        replies.len() - 1,
                        values.0,
                        values.1,
                    ));
                }
            },
            None => {},
        }
        match restored_value(now.phase) {
            Some(original) => {
                if restored_value(before.phase) == Some(original) {
                    let wanted = choose|wanted: Seq<u8>| #[trigger]
                        is_recorded(selector, shorter, original, wanted);
                    record_stays(selector, replies, original, wanted);
                } else {
                    let values = recorded_values(before.phase)->0;
                    record_stays(selector, replies, values.0, values.1);
                }
            },
            None => {},
        }
    }
}

/// Before a trial changes the camera at all, the undo record is durable and complete: what is
/// written is the value that the record says is tried, or the one that it says is to be put back.
pub proof fn the_record_is_durable_first(
    selector: u8,
    replies: Seq<TrialReply<Seq<u8>, Seq<char>>>,
    value: Seq<u8>,
)
    requires
        Trial::start(selector).proper_run(replies),
        Trial::start(selector).after_all(replies).asked() == Some(
            TrialRequest::Camera(CameraRequest::Write(value)),
        ),
    ensures
        exists|original: Seq<u8>, wanted: Seq<u8>| #[trigger]
            is_recorded(selector, replies, original, wanted) && (value == original || value
                == wanted),
{
    let now = Trial::start(selector).after_all(replies);
    values_are_recorded(selector, replies);
    writes_a_recorded_value(now.phase, now.selector, value);
}

/// A trial that ends lit leaves a record open of exactly the change that it made.
pub proof fn a_lit_control_keeps_its_record(
    selector: u8,
    replies: Seq<TrialReply<Seq<u8>, Seq<char>>>,
    original: Seq<u8>,
    wanted: Seq<u8>,
)
    requires
        Trial::start(selector).proper_run(replies),
        Trial::start(selector).after_all(replies).phase == TrialPhase::<Seq<u8>, Seq<char>>::Ended(
            TrialEnd::Lit { original, wanted },
        ),
    ensures
        is_recorded(selector, replies, original, wanted),
        original.len() == wanted.len(),
        original != wanted,
{
    values_are_recorded(selector, replies);
    trial_stays_well_formed(selector, replies);
}

/// Whether the brightness followed the control both ways, at a point of a run: it rose with it and
/// fell when it was put back.
pub open spec fn followed_at(
    selector: u8,
    replies: Seq<TrialReply<Seq<u8>, Seq<char>>>,
    i: int,
) -> bool {
    &&& 0 <= i < replies.len()
    &&& Trial::start(selector).after_all(replies.take(i)).phase matches TrialPhase::MeasureAfter {
        original,
        wanted,
        before,
        lit,
    } && replies[i] matches TrialReply::Measured(Some(after)) && !before.raised.above(lit.level)
        && !after.level.at_least(lit.lowered)
}

/// A control counts as working only where the brightness rose with it and fell when it was put
/// back.
pub proof fn a_working_control_is_followed_both_ways(
    selector: u8,
    replies: Seq<TrialReply<Seq<u8>, Seq<char>>>,
)
    requires
        Trial::start(selector).proper_run(replies),
        ({
            let phase = Trial::start(selector).after_all(replies).phase;
            ||| phase is AbortBeforeLast
            ||| phase is GuardLast
            ||| phase is ApplyLast
            ||| phase matches TrialPhase::Ended(TrialEnd::Lit { .. })
        }),
    ensures
        exists|i: int| #[trigger] followed_at(selector, replies, i),
    decreases replies.len(),
{
    let start = Trial::start(selector);
    shorter_run(start, replies);
    let shorter = replies.drop_last();
    trial_stays_well_formed(selector, shorter);
    let n = replies.len() as int;
    let before = start.after_all(shorter);
    if before.phase is MeasureAfter {
        assert(followed_at(selector, replies, n - 1));
    } else {
        a_working_control_is_followed_both_ways(selector, shorter);
        let i = choose|i: int| #[trigger] followed_at(selector, shorter, i);
        assert(shorter.take(i) =~= replies.take(i));
        assert(followed_at(selector, replies, i));
    }
}

/// Whether the control was read, at a point of a run, to hold its original again.
pub open spec fn back_at(
    selector: u8,
    replies: Seq<TrialReply<Seq<u8>, Seq<char>>>,
    i: int,
) -> bool {
    &&& 0 <= i < replies.len()
    &&& Trial::start(selector).after_all(replies.take(i)).phase matches TrialPhase::Confirm {
        original,
        end,
    } && replies[i] == TrialReply::<Seq<u8>, Seq<char>>::Camera(CameraReply::Bytes(original))
}

/// Where a trial stands once it changed the control, before the control is confirmed to be back.
pub open spec fn changed(phase: TrialPhase<Seq<u8>, Seq<char>>) -> bool {
    match phase {
        TrialPhase::MeasureLit(_)
        | TrialPhase::Restore { .. }
        | TrialPhase::MeasureAfter { .. }
        | TrialPhase::AbortBeforeLast { .. }
        | TrialPhase::GuardLast { .. }
        | TrialPhase::ApplyLast { .. }
        | TrialPhase::Confirm { .. } => true,
        _ => false,
    }
}

/// Whether a trial ended without a word on the control itself: lit, or with trouble.
pub open spec fn ended_in_trouble(phase: TrialPhase<Seq<u8>, Seq<char>>) -> bool {
    match phase {
        TrialPhase::Ended(end) => !(end is NotUsable) && !(end is Guard) && !(end
            is AlreadyApplied),
        _ => false,
    }
}

/// One reply's effect on a trial that changed the control.
proof fn step_after_a_change(
    trial: Trial<Seq<u8>, Seq<char>>,
    reply: TrialReply<Seq<u8>, Seq<char>>,
)
    requires
        trial.asked() is Some,
        trial_answers(trial.asked()->0, reply),
    ensures
        changed(trial.phase) ==> {
            ||| changed(trial.step(reply).phase)
            ||| ended_in_trouble(trial.step(reply).phase)
            ||| (trial.step(reply).phase is Clear && (trial.phase matches TrialPhase::Confirm {
                original,
                end,
            } && reply == TrialReply::<Seq<u8>, Seq<char>>::Camera(CameraReply::Bytes(original))))
        },
        trial.phase is Clear ==> trial.step(reply).phase is Ended,
        trial.phase is ApplyFirst && reply == TrialReply::<Seq<u8>, Seq<char>>::Camera(
            CameraReply::Accepted,
        ) ==> changed(trial.step(reply).phase),
{
}

/// A trial that changed the control and then ends because the control is of no use, or because the
/// caller refused to go on, has read that the control holds its original again.
pub proof fn a_useless_control_is_left_as_found(
    selector: u8,
    replies: Seq<TrialReply<Seq<u8>, Seq<char>>>,
    k: int,
)
    requires
        Trial::start(selector).proper_run(replies),
        0 <= k < replies.len(),
        Trial::start(selector).after_all(replies.take(k)).phase is ApplyFirst,
        replies[k] == TrialReply::<Seq<u8>, Seq<char>>::Camera(CameraReply::Accepted),
    ensures
        changed(Trial::start(selector).after_all(replies).phase) || ended_in_trouble(
            Trial::start(selector).after_all(replies).phase,
        ) || ((Trial::start(selector).after_all(replies).phase is Clear || Trial::start(
            selector,
        ).after_all(replies).phase is Ended) && exists|i: int| #[trigger]
            back_at(selector, replies, i)),
    decreases replies.len(),
{
    let start = Trial::start(selector);
    let n = replies.len() as int;
    shorter_run(start, replies);
    let shorter = replies.drop_last();
    let before = start.after_all(shorter);
    let now = start.after_all(replies);
    assert(now == before.step(replies.last()));
    step_after_a_change(before, replies.last());
    if k == n - 1 {
        assert(replies.take(k) =~= shorter);
    } else {
        assert(replies.take(k) =~= shorter.take(k));
        a_useless_control_is_left_as_found(selector, shorter, k);
        if changed(before.phase) {
            if now.phase is Clear {
                assert(back_at(selector, replies, n - 1));
            }
        } else {
            let i = choose|i: int| #[trigger] back_at(selector, shorter, i);
            assert(shorter.take(i) =~= replies.take(i));
            assert(back_at(selector, replies, i));
        }
    }
}

/// A trial begins with the control itself: its capabilities, its length, what it holds, and then
/// what it would be given, which is derived for that selector and that length. A control that does
/// not accept a change now, or has no plausible length, is not asked for more.
pub proof fn a_trial_reads_the_control_first(
    selector: u8,
    info: u8,
    len: u16,
    original: Seq<u8>,
)
    ensures
        ({
            let t0 = Trial::start(selector);
            let t1 = t0.step(TrialReply::Camera(CameraReply::Info(info)));
            let t2 = t1.step(TrialReply::Camera(CameraReply::Length(len)));
            let t3 = t2.step(TrialReply::Camera(CameraReply::Bytes(original)));
            let ready = info & 0x02 != 0 && info & 0x04 == 0 && info & 0x20 == 0;
            &&& t0.asked() == Some(TrialRequest::Camera(CameraRequest::<Seq<u8>>::GetInfo))
            &&& !ready ==> t1.phase == TrialPhase::<Seq<u8>, Seq<char>>::Ended(
                TrialEnd::NotUsable(Unusable::NotAccepted),
            )
            &&& ready ==> t1.asked() == Some(TrialRequest::Camera(CameraRequest::<Seq<u8>>::GetLen))
            &&& ready && (len == 0 || len > 64) ==> t2.phase == TrialPhase::<
                Seq<u8>,
                Seq<char>,
            >::Ended(TrialEnd::Query(XuError::Unsupported))
            &&& ready && 1 <= len <= 64 ==> {
                &&& t2.asked() == Some(
                    TrialRequest::Camera(
                        CameraRequest::<Seq<u8>>::Read {
                            query: ControlQuery::Current,
                            len: len as usize,
                        },
                    ),
                )
                &&& t3.phase == (TrialPhase::<Seq<u8>, Seq<char>>::Derive {
                    original,
                    derivation: Derivation::<Seq<u8>>::start(selector, len as usize),
                })
            }
            &&& t3.selector == selector
        }),
{
}

/// What a derivation comes to decides what a trial does: a value that the control holds already ends
/// it, another one is tried, and a refusal or a failure is told as it is.
pub proof fn what_is_derived_is_what_is_tried(
    trial: Trial<Seq<u8>, Seq<char>>,
    original: Seq<u8>,
    derivation: Derivation<Seq<u8>>,
    reply: CameraReply<Seq<u8>>,
)
    requires
        trial.phase == (TrialPhase::<Seq<u8>, Seq<char>>::Derive { original, derivation }),
    ensures
        ({
            let next = trial.step(TrialReply::Camera(reply));
            match derivation.step(reply).result() {
                None => next.phase == (TrialPhase::<Seq<u8>, Seq<char>>::Derive {
                    original,
                    derivation: derivation.step(reply),
                }),
                Some(Intended::Value(wanted)) => if wanted == original {
                    next.phase == TrialPhase::<Seq<u8>, Seq<char>>::Ended(TrialEnd::AlreadyApplied)
                } else {
                    next.phase == (TrialPhase::<Seq<u8>, Seq<char>>::MeasureBefore {
                        original,
                        wanted,
                    }) && next.asked() == Some(TrialRequest::<Seq<u8>>::Measure)
                },
                Some(Intended::Refused(why)) => next.phase == TrialPhase::<
                    Seq<u8>,
                    Seq<char>,
                >::Ended(TrialEnd::NotUsable(Unusable::NotDerived(why))),
                Some(Intended::Failed(err)) => next.phase == TrialPhase::<
                    Seq<u8>,
                    Seq<char>,
                >::Ended(TrialEnd::Query(err)),
            }
        }),
{
}

/// A control that the image follows is found: where nothing interferes, the brightness rises with it
/// by the least lift or more and falls below its own mark when it is put back, the trial measures,
/// records, reads again, writes, measures, puts back, measures, writes once more, and ends lit with
/// exactly what was there before and what is there now.
pub proof fn a_control_that_the_image_follows_is_found(
    selector: u8,
    original: Seq<u8>,
    wanted: Seq<u8>,
    before: Brightness<Seq<char>>,
    lit: Brightness<Seq<char>>,
    after: Brightness<Seq<char>>,
)
    requires
        lit.level.rank() >= before.raised.rank(),
        after.level.rank() < lit.lowered.rank(),
    ensures
        ({
            let go = TrialReply::<Seq<u8>, Seq<char>>::Abort(false);
            let permitted = TrialReply::<Seq<u8>, Seq<char>>::Guard(None);
            let taken = TrialReply::<Seq<u8>, Seq<char>>::Camera(CameraReply::Accepted);
            let t0 = Trial { selector, phase: TrialPhase::MeasureBefore { original, wanted } };
            let t1 = t0.step(TrialReply::Measured(Some(before)));
            let t2 = t1.step(go);
            let t3 = t2.step(TrialReply::Stored(None));
            let t4 = t3.step(TrialReply::Camera(CameraReply::Bytes(original)));
            let t5 = t4.step(go);
            let t6 = t5.step(permitted);
            let t7 = t6.step(taken);
            let t8 = t7.step(TrialReply::Measured(Some(lit)));
            let t9 = t8.step(taken);
            let t10 = t9.step(TrialReply::Measured(Some(after)));
            let t11 = t10.step(go);
            let t12 = t11.step(permitted);
            let t13 = t12.step(taken);
            let current = Some(
                TrialRequest::Camera(
                    CameraRequest::<Seq<u8>>::Read {
                        query: ControlQuery::Current,
                        len: original.len() as usize,
                    },
                ),
            );
            &&& t0.asked() == Some(TrialRequest::<Seq<u8>>::Measure)
            &&& t1.asked() == Some(TrialRequest::<Seq<u8>>::CheckAbort)
            &&& t2.asked() == Some(TrialRequest::OpenRecord { original, attempted: wanted })
            &&& t3.asked() == current
            &&& t4.asked() == Some(TrialRequest::<Seq<u8>>::CheckAbort)
            &&& t5.asked() == Some(TrialRequest::<Seq<u8>>::AskGuard)
            &&& t6.asked() == Some(TrialRequest::Camera(CameraRequest::Write(wanted)))
            &&& t7.asked() == Some(TrialRequest::<Seq<u8>>::Measure)
            &&& t8.asked() == Some(TrialRequest::Camera(CameraRequest::Write(original)))
            &&& t9.asked() == Some(TrialRequest::<Seq<u8>>::Measure)
            &&& t10.asked() == Some(TrialRequest::<Seq<u8>>::CheckAbort)
            &&& t11.asked() == Some(TrialRequest::<Seq<u8>>::AskGuard)
            &&& t12.asked() == Some(TrialRequest::Camera(CameraRequest::Write(wanted)))
            &&& t13.asked() is None
            &&& t13 == (Trial {
                selector,
                phase: TrialPhase::<Seq<u8>, Seq<char>>::Ended(TrialEnd::Lit { original, wanted }),
            })
            &&& t7.undo_owed() == Some(original)
        }),
{
}

/// A control is put back, read to be back, and its record removed, before a trial says that it is of
/// no use: where the image did not brighten by the least lift, where it could not be measured, and
/// where it stayed bright once the control was put back. Each is told as what it is.
pub proof fn a_control_of_no_use_is_put_back(
    selector: u8,
    subject: Subject<Seq<u8>, Seq<char>>,
    lit: Brightness<Seq<char>>,
    after: Brightness<Seq<char>>,
)
    requires
        !lit.level.is_nan(),
        !subject.before.raised.is_nan(),
        !lit.lowered.is_nan(),
        !after.level.is_nan(),
    ensures
        ({
            let original = subject.original;
            let taken = TrialReply::<Seq<u8>, Seq<char>>::Camera(CameraReply::Accepted);
            let back = TrialReply::<Seq<u8>, Seq<char>>::Camera(CameraReply::Bytes(original));
            let removed = TrialReply::<Seq<u8>, Seq<char>>::Stored(None);
            let put_back = Some(TrialRequest::Camera(CameraRequest::Write(original)));
            let current = Some(
                TrialRequest::Camera(
                    CameraRequest::<Seq<u8>>::Read {
                        query: ControlQuery::Current,
                        len: original.len() as usize,
                    },
                ),
            );
            let measuring = Trial { selector, phase: TrialPhase::MeasureLit(subject) };
            let dim = measuring.step(TrialReply::Measured(Some(lit)));
            let dark = measuring.step(TrialReply::Measured(None));
            let again = dim.step(taken);
            let stayed = again.step(TrialReply::Measured(Some(after)));
            &&& dim.asked() == put_back
            &&& dark.asked() == put_back
            &&& lit.level.rank() < subject.before.raised.rank() ==> {
                &&& dim.step(taken).asked() == current
                &&& dim.step(taken).step(back).asked() == Some(
                    TrialRequest::<Seq<u8>>::ClearRecord,
                )
                &&& dim.step(taken).step(back).step(removed).phase == TrialPhase::<
                    Seq<u8>,
                    Seq<char>,
                >::Ended(
                    TrialEnd::NotUsable(
                        Unusable::Dim { before: subject.before.shown, lit: lit.shown },
                    ),
                )
            }
            &&& dark.step(taken).asked() == current
            &&& dark.step(taken).step(back).asked() == Some(TrialRequest::<Seq<u8>>::ClearRecord)
            &&& dark.step(taken).step(back).step(removed).phase == TrialPhase::<
                Seq<u8>,
                Seq<char>,
            >::Ended(TrialEnd::Measurement)
            &&& lit.level.rank() >= subject.before.raised.rank() && after.level.rank()
                >= lit.lowered.rank() ==> {
                &&& again.asked() == Some(TrialRequest::<Seq<u8>>::Measure)
                &&& stayed.asked() == current
                &&& stayed.step(back).asked() == Some(TrialRequest::<Seq<u8>>::ClearRecord)
                &&& stayed.step(back).step(removed).phase == TrialPhase::<
                    Seq<u8>,
                    Seq<char>,
                >::Ended(
                    TrialEnd::NotUsable(
                        Unusable::Stayed {
                            before: subject.before.shown,
                            lit: lit.shown,
                            after: after.shown,
                        },
                    ),
                )
            }
        }),
{
}

/// A control that something else moved is left to it: the record of the change that was not made is
/// removed, and the trial says what was there and what is.
pub proof fn a_moved_control_is_left_alone(
    selector: u8,
    subject: Subject<Seq<u8>, Seq<char>>,
    now: Seq<u8>,
)
    requires
        now != subject.original,
    ensures
        ({
            let t0 = Trial { selector, phase: TrialPhase::Reread(subject) };
            let t1 = t0.step(TrialReply::Camera(CameraReply::Bytes(now)));
            &&& t1.asked() == Some(TrialRequest::<Seq<u8>>::ClearRecord)
            &&& t1.step(TrialReply::Stored(None)).phase == TrialPhase::<Seq<u8>, Seq<char>>::Ended(
                TrialEnd::NotUsable(Unusable::Moved { original: subject.original, now }),
            )
        }),
{
}

/// A change that the caller refuses is not made: before the first the record is removed, and before
/// the last, where the control was put back, it is removed once that is read. The refusal's own
/// words are what the trial ends with.
pub proof fn a_refused_change_is_told_in_its_own_words(
    selector: u8,
    subject: Subject<Seq<u8>, Seq<char>>,
    why: Seq<char>,
)
    ensures
        ({
            let original = subject.original;
            let refused = TrialReply::<Seq<u8>, Seq<char>>::Guard(Some(why));
            let removed = TrialReply::<Seq<u8>, Seq<char>>::Stored(None);
            let end = TrialPhase::<Seq<u8>, Seq<char>>::Ended(TrialEnd::Guard(why));
            let first = (Trial { selector, phase: TrialPhase::GuardFirst(subject) }).step(refused);
            let last = (Trial {
                selector,
                phase: TrialPhase::<Seq<u8>, Seq<char>>::GuardLast {
                    original,
                    wanted: subject.wanted,
                },
            }).step(refused);
            let back = last.step(TrialReply::Camera(CameraReply::Bytes(original)));
            &&& first.asked() == Some(TrialRequest::<Seq<u8>>::ClearRecord)
            &&& first.step(removed).phase == end
            &&& last.asked() == Some(
                TrialRequest::Camera(
                    CameraRequest::<Seq<u8>>::Read {
                        query: ControlQuery::Current,
                        len: original.len() as usize,
                    },
                ),
            )
            &&& back.asked() == Some(TrialRequest::<Seq<u8>>::ClearRecord)
            &&& back.step(removed).phase == end
        }),
{
}

/// A run that is asked to stop, or whose frames stop coming while nothing is on the camera, ends
/// there and asks for nothing more.
pub proof fn a_stopped_trial_ends(trial: Trial<Seq<u8>, Seq<char>>)
    ensures
        trial.asked() == Some(TrialRequest::<Seq<u8>>::CheckAbort) ==> trial.step(
            TrialReply::Abort(true),
        ).phase == TrialPhase::<Seq<u8>, Seq<char>>::Ended(TrialEnd::Measurement),
        trial.phase is MeasureBefore || trial.phase is MeasureAfter ==> trial.step(
            TrialReply::Measured(None),
        ).phase == TrialPhase::<Seq<u8>, Seq<char>>::Ended(TrialEnd::Measurement),
{
    if let TrialPhase::Derive { original, derivation } = trial.phase {
        assert(derivation.asked() matches Some(request) ==> trial.asked() == Some(
            TrialRequest::Camera(request),
        ));
    }
}

/// Trouble with the record, and a control that is not read to be back, end a trial with just that
/// trouble: the record stays, and the control is not called useless.
pub proof fn trouble_with_the_record_is_told(
    trial: Trial<Seq<u8>, Seq<char>>,
    why: Seq<char>,
    back: Seq<u8>,
    err: XuError,
)
    ensures
        trial.phase is Open || trial.phase is Clear || trial.phase is Abandon ==> trial.step(
            TrialReply::Stored(Some(why)),
        ).phase == TrialPhase::<Seq<u8>, Seq<char>>::Ended(
            TrialEnd::Journal(JournalTrouble::Said(why)),
        ),
        trial.phase matches TrialPhase::Confirm { original, end } ==> {
            &&& back != original ==> trial.step(
                TrialReply::Camera(CameraReply::Bytes(back)),
            ).phase == TrialPhase::<Seq<u8>, Seq<char>>::Ended(
                TrialEnd::Journal(JournalTrouble::NotTaken { back, original }),
            )
            &&& trial.step(TrialReply::Camera(CameraReply::Failed(err))).phase == TrialPhase::<
                Seq<u8>,
                Seq<char>,
            >::Ended(TrialEnd::Journal(JournalTrouble::BackUnanswered(err)))
        },
        trial.phase is Restore ==> trial.step(
            TrialReply::Camera(CameraReply::Failed(err)),
        ).phase == TrialPhase::<Seq<u8>, Seq<char>>::Ended(TrialEnd::Restore(err)),
        trial.phase is Info || trial.phase is Length || trial.phase is Current || trial.phase
            is Reread || trial.phase is ApplyFirst || trial.phase is ApplyLast ==> trial.step(
            TrialReply::Camera(CameraReply::Failed(err)),
        ).phase == TrialPhase::<Seq<u8>, Seq<char>>::Ended(TrialEnd::Query(err)),
{
}

} // verus!
