//! The recovery pass: what is asked of the record store and of the camera, in which order.
//!
//! A restore is counted durably before it is made, the control is read again immediately before it
//! is written, and a record is dropped only once the control is known to hold its original.
use vstd::prelude::*;
use crate::ir_emitter::recovery::{
    attempt_refusal, counted_attempt_authorizes_write, saved_view, AtomicWrite, OutcomeView,
    RecoveryOutcome,
};
use crate::ir_emitter::xu::{
    answers, info_allows_set, plausible_len, settable, valid_ctrl_len, CameraReply, CameraRequest,
    ControlQuery, XuError,
};
use crate::text::{copy_bytes, decimal, hex_list, push_decimal, push_hex_list, same_bytes};

verus! {

/// What is read of a record before it is acted on.
#[derive(Clone, Copy, Debug, PartialEq, Eq, Structural)]
pub struct RecordFacts {
    pub unit: u8,
    pub selector: u8,
    /// How long the control was when the record was written.
    pub len: usize,
}

/// What became of the attempt to lock the camera.
#[derive(Clone, Debug, PartialEq, Eq)]
pub enum CameraLock<T> {
    Held,
    /// Another process holds the camera.
    Busy,
    Failed(T),
}

/// What the store holds for a camera.
#[derive(Clone, Debug, PartialEq, Eq)]
pub enum Situation<T> {
    Nothing,
    /// A record of this camera.
    Mine(RecordFacts),
    /// A record of a camera of the same model, at another port or at none that was recorded.
    SameModelElsewhere { unit: u8, selector: u8, original: T, usb_devpath: T },
    /// The store cannot be read.
    Unreadable(T),
}

/// Why a record is not one to act on.
#[derive(Clone, Debug, PartialEq, Eq)]
pub enum Mismatch<T> {
    DifferentCamera,
    OwnerStillRunning { pid: u32 },
    OutOfAttempts { attempts: u32 },
    UnsupportedSchema { found: u32, supported: u32 },
    Malformed(T),
    ControlNotPublished,
}

/// What a record calls for, given what the control holds now.
#[derive(Clone, Debug, PartialEq, Eq)]
pub enum RestoreDecision<B, T> {
    AlreadyRestored,
    Refuse(T),
    /// Write these bytes back.
    Write(B),
}

/// What a recovery pass asks for next.
#[derive(Clone, Debug, PartialEq, Eq)]
pub enum RecoveryRequest<B> {
    LockCamera,
    LoadRecord,
    /// Hold the record against this camera.
    CheckRecord,
    Camera(CameraRequest<B>),
    /// What the record calls for, with the control as it is now.
    Decide { len: usize, writable: bool, current: B },
    /// Save the record with one attempt more and no owner, durably.
    CountAttempt,
    /// The bytes that the interrupted run had applied, out of the record.
    DecodeAttempted,
    /// Save the record with the count as it was.
    GiveBack,
    ClearRecord,
}

impl View for RecoveryRequest<Vec<u8>> {
    type V = RecoveryRequest<Seq<u8>>;

    open spec fn view(&self) -> RecoveryRequest<Seq<u8>> {
        match *self {
            RecoveryRequest::LockCamera => RecoveryRequest::LockCamera,
            RecoveryRequest::LoadRecord => RecoveryRequest::LoadRecord,
            RecoveryRequest::CheckRecord => RecoveryRequest::CheckRecord,
            RecoveryRequest::Camera(request) => RecoveryRequest::Camera(request@),
            RecoveryRequest::Decide { len, writable, current } => RecoveryRequest::Decide {
                len,
                writable,
                current: current@,
            },
            RecoveryRequest::CountAttempt => RecoveryRequest::CountAttempt,
            RecoveryRequest::DecodeAttempted => RecoveryRequest::DecodeAttempted,
            RecoveryRequest::GiveBack => RecoveryRequest::GiveBack,
            RecoveryRequest::ClearRecord => RecoveryRequest::ClearRecord,
        }
    }
}

/// What came of a recovery pass's request.
#[derive(Debug, PartialEq, Eq)]
pub enum RecoveryReply<B, T> {
    Locked(CameraLock<T>),
    Loaded(Situation<T>),
    /// The record is one to act on, or why it is not.
    Checked(Option<Mismatch<T>>),
    Camera(CameraReply<B>),
    Decided(RestoreDecision<B, T>),
    Counted(Result<AtomicWrite<T>, T>),
    Decoded(Result<B, T>),
    /// The store took the change, or why it did not.
    Stored(Option<T>),
}

/// A text, or none, as a value.
pub open spec fn text_view(text: Option<String>) -> Option<Seq<char>> {
    match text {
        Some(text) => Some(text@),
        None => None,
    }
}

impl View for RecoveryReply<Vec<u8>, String> {
    type V = RecoveryReply<Seq<u8>, Seq<char>>;

    open spec fn view(&self) -> RecoveryReply<Seq<u8>, Seq<char>> {
        match *self {
            RecoveryReply::Locked(lock) => RecoveryReply::Locked(
                match lock {
                    CameraLock::Held => CameraLock::Held,
                    CameraLock::Busy => CameraLock::Busy,
                    CameraLock::Failed(why) => CameraLock::Failed(why@),
                },
            ),
            RecoveryReply::Loaded(situation) => RecoveryReply::Loaded(
                match situation {
                    Situation::Nothing => Situation::Nothing,
                    Situation::Mine(record) => Situation::Mine(record),
                    Situation::SameModelElsewhere { unit, selector, original, usb_devpath } => {
                        Situation::SameModelElsewhere {
                            unit,
                            selector,
                            original: original@,
                            usb_devpath: usb_devpath@,
                        }
                    },
                    Situation::Unreadable(why) => Situation::Unreadable(why@),
                },
            ),
            RecoveryReply::Checked(mismatch) => RecoveryReply::Checked(
                match mismatch {
                    None => None,
                    Some(Mismatch::DifferentCamera) => Some(Mismatch::DifferentCamera),
                    Some(Mismatch::OwnerStillRunning { pid }) => Some(
                        Mismatch::OwnerStillRunning { pid },
                    ),
                    Some(Mismatch::OutOfAttempts { attempts }) => Some(
                        Mismatch::OutOfAttempts { attempts },
                    ),
                    Some(Mismatch::UnsupportedSchema { found, supported }) => Some(
                        Mismatch::UnsupportedSchema { found, supported },
                    ),
                    Some(Mismatch::Malformed(why)) => Some(Mismatch::Malformed(why@)),
                    Some(Mismatch::ControlNotPublished) => Some(Mismatch::ControlNotPublished),
                },
            ),
            RecoveryReply::Camera(reply) => RecoveryReply::Camera(reply@),
            RecoveryReply::Decided(decision) => RecoveryReply::Decided(
                match decision {
                    RestoreDecision::AlreadyRestored => RestoreDecision::AlreadyRestored,
                    RestoreDecision::Refuse(why) => RestoreDecision::Refuse(why@),
                    RestoreDecision::Write(bytes) => RestoreDecision::Write(bytes@),
                },
            ),
            RecoveryReply::Counted(saved) => RecoveryReply::Counted(saved_view(saved)),
            RecoveryReply::Decoded(decoded) => RecoveryReply::Decoded(
                match decoded {
                    Ok(bytes) => Ok(bytes@),
                    Err(why) => Err(why@),
                },
            ),
            RecoveryReply::Stored(trouble) => RecoveryReply::Stored(text_view(trouble)),
        }
    }
}

/// Whether a reply is one that a recovery pass's request can have.
pub open spec fn recovery_answers(
    request: RecoveryRequest<Seq<u8>>,
    reply: RecoveryReply<Seq<u8>, Seq<char>>,
) -> bool {
    match request {
        RecoveryRequest::LockCamera => reply is Locked,
        RecoveryRequest::LoadRecord => reply is Loaded,
        RecoveryRequest::CheckRecord => reply is Checked,
        RecoveryRequest::Camera(request) => reply matches RecoveryReply::Camera(reply) && answers(
            request,
            reply,
        ),
        RecoveryRequest::Decide { .. } => reply is Decided,
        RecoveryRequest::CountAttempt => reply is Counted,
        RecoveryRequest::DecodeAttempted => reply is Decoded,
        RecoveryRequest::GiveBack | RecoveryRequest::ClearRecord => reply is Stored,
    }
}

// ---------------------------------------------------------------------------------------------
// Reasons
// ---------------------------------------------------------------------------------------------

/// Why an outstanding change could not be resolved.
#[derive(Clone, Debug, PartialEq, Eq)]
pub enum Reason<B, T> {
    /// In the store's own words.
    Said(T),
    OutOfAttempts { attempts: u32 },
    UnsupportedSchema { found: u32, supported: u32 },
    Malformed(T),
    ControlNotPublished,
    LengthUnanswered(XuError),
    LengthChanged { len: usize, recorded: usize },
    InfoUnanswered(XuError),
    CurrentUnanswered(XuError),
    NotCounted(T),
    Undecodable(T),
    Moved { now: B, attempted: B },
    RecheckUnanswered(XuError),
    RestoreFailed(XuError),
    NotTaken { back: B, original: B },
    BackUnanswered(XuError),
}

impl View for Reason<Vec<u8>, String> {
    type V = Reason<Seq<u8>, Seq<char>>;

    open spec fn view(&self) -> Reason<Seq<u8>, Seq<char>> {
        match *self {
            Reason::Said(why) => Reason::Said(why@),
            Reason::OutOfAttempts { attempts } => Reason::OutOfAttempts { attempts },
            Reason::UnsupportedSchema { found, supported } => Reason::UnsupportedSchema {
                found,
                supported,
            },
            Reason::Malformed(why) => Reason::Malformed(why@),
            Reason::ControlNotPublished => Reason::ControlNotPublished,
            Reason::LengthUnanswered(err) => Reason::LengthUnanswered(err),
            Reason::LengthChanged { len, recorded } => Reason::LengthChanged { len, recorded },
            Reason::InfoUnanswered(err) => Reason::InfoUnanswered(err),
            Reason::CurrentUnanswered(err) => Reason::CurrentUnanswered(err),
            Reason::NotCounted(why) => Reason::NotCounted(why@),
            Reason::Undecodable(why) => Reason::Undecodable(why@),
            Reason::Moved { now, attempted } => Reason::Moved {
                now: now@,
                attempted: attempted@,
            },
            Reason::RecheckUnanswered(err) => Reason::RecheckUnanswered(err),
            Reason::RestoreFailed(err) => Reason::RestoreFailed(err),
            Reason::NotTaken { back, original } => Reason::NotTaken {
                back: back@,
                original: original@,
            },
            Reason::BackUnanswered(err) => Reason::BackUnanswered(err),
        }
    }
}

impl Reason<Seq<u8>, Seq<char>> {
    /// The failed request behind the reason, if there is one.
    pub open spec fn failure(self) -> Option<XuError> {
        match self {
            Reason::LengthUnanswered(err)
            | Reason::InfoUnanswered(err)
            | Reason::CurrentUnanswered(err)
            | Reason::RecheckUnanswered(err)
            | Reason::RestoreFailed(err)
            | Reason::BackUnanswered(err) => Some(err),
            _ => None,
        }
    }

    /// The reason in words, with the words for a failed request.
    pub open spec fn worded(self, failure: Seq<char>) -> Seq<char> {
        match self {
            Reason::Said(why) => why,
            Reason::OutOfAttempts { attempts } => decimal(attempts as nat)
                + " attempts to put it back did not take, so no more will be made"@,
            Reason::UnsupportedSchema { found, supported } => "the record is schema "@ + decimal(
                found as nat,
            ) + " and this build implements "@ + decimal(supported as nat),
            Reason::Malformed(why) => "malformed: "@ + why,
            Reason::ControlNotPublished =>
                "the record names a control this camera does not publish"@,
            Reason::LengthUnanswered(_) => "query the control length: "@ + failure,
            Reason::LengthChanged { len, recorded } => "the control is "@ + decimal(len as nat)
                + " bytes and the record was written when it was "@ + decimal(recorded as nat)
                + ", so the recorded bytes are not this control's value"@,
            Reason::InfoUnanswered(_) => "query the control: "@ + failure,
            Reason::CurrentUnanswered(_) => "read the control: "@ + failure,
            Reason::NotCounted(why) => why,
            Reason::Undecodable(why) => "attempted: "@ + why,
            Reason::Moved { now, attempted } =>
                "the control changed while the attempt was being recorded: it holds ["@ + hex_list(
                now,
            ) + "], not this run's value ["@ + hex_list(attempted) + "]; nothing was written"@,
            Reason::RecheckUnanswered(_) => "recheck the control before restoring it: "@ + failure,
            Reason::RestoreFailed(_) => "restore: "@ + failure,
            Reason::NotTaken { back, original } => "the control reads ["@ + hex_list(back)
                + "] after being restored to ["@ + hex_list(original) + "]"@,
            Reason::BackUnanswered(_) => "read the control back: "@ + failure,
        }
    }
}

impl Reason<Vec<u8>, String> {
    fn message_with(&self, failure: &str) -> (r: String)
        ensures
            r@ == self@.worded(failure@),
    {
        match self {
            Reason::Said(why) => why.clone(),
            Reason::OutOfAttempts { attempts } => {
                let mut s: String = "".to_owned();
                proof {
                    reveal_strlit("");
                }
                push_decimal(&mut s, *attempts as u64);
                assert(s@ =~= decimal(*attempts as nat));
                s.append(" attempts to put it back did not take, so no more will be made");
                s
            },
            Reason::UnsupportedSchema { found, supported } => {
                let mut s: String = "the record is schema ".to_owned();
                push_decimal(&mut s, *found as u64);
                s.append(" and this build implements ");
                push_decimal(&mut s, *supported as u64);
                s
            },
            Reason::Malformed(why) => {
                let mut s: String = "malformed: ".to_owned();
                s.append(why.as_str());
                s
            },
            Reason::ControlNotPublished =>
                "the record names a control this camera does not publish".to_owned(),
            Reason::LengthUnanswered(_) => {
                let mut s: String = "query the control length: ".to_owned();
                s.append(failure);
                s
            },
            Reason::LengthChanged { len, recorded } => {
                let mut s: String = "the control is ".to_owned();
                push_decimal(&mut s, *len as u64);
                s.append(" bytes and the record was written when it was ");
                push_decimal(&mut s, *recorded as u64);
                s.append(", so the recorded bytes are not this control's value");
                s
            },
            Reason::InfoUnanswered(_) => {
                let mut s: String = "query the control: ".to_owned();
                s.append(failure);
                s
            },
            Reason::CurrentUnanswered(_) => {
                let mut s: String = "read the control: ".to_owned();
                s.append(failure);
                s
            },
            Reason::NotCounted(why) => why.clone(),
            Reason::Undecodable(why) => {
                let mut s: String = "attempted: ".to_owned();
                s.append(why.as_str());
                s
            },
            Reason::Moved { now, attempted } => {
                let mut s: String =
                    "the control changed while the attempt was being recorded: it holds [".to_owned();
                push_hex_list(&mut s, now.as_slice());
                s.append("], not this run's value [");
                push_hex_list(&mut s, attempted.as_slice());
                s.append("]; nothing was written");
                s
            },
            Reason::RecheckUnanswered(_) => {
                let mut s: String = "recheck the control before restoring it: ".to_owned();
                s.append(failure);
                s
            },
            Reason::RestoreFailed(_) => {
                let mut s: String = "restore: ".to_owned();
                s.append(failure);
                s
            },
            Reason::NotTaken { back, original } => {
                let mut s: String = "the control reads [".to_owned();
                push_hex_list(&mut s, back.as_slice());
                s.append("] after being restored to [");
                push_hex_list(&mut s, original.as_slice());
                s.append("]");
                s
            },
            Reason::BackUnanswered(_) => {
                let mut s: String = "read the control back: ".to_owned();
                s.append(failure);
                s
            },
        }
    }

    fn failed_request(&self) -> (r: Option<XuError>)
        ensures
            r == self@.failure(),
    {
        match self {
            Reason::LengthUnanswered(err) => Some(*err),
            Reason::InfoUnanswered(err) => Some(*err),
            Reason::CurrentUnanswered(err) => Some(*err),
            Reason::RecheckUnanswered(err) => Some(*err),
            Reason::RestoreFailed(err) => Some(*err),
            Reason::BackUnanswered(err) => Some(*err),
            _ => None,
        }
    }
}

// ---------------------------------------------------------------------------------------------
// The pass
// ---------------------------------------------------------------------------------------------

/// How a recovery pass ended.
#[derive(Clone, Debug, PartialEq, Eq)]
pub enum RecoveryEnd<B, T> {
    Busy,
    /// The camera could not be locked. Carries why.
    Unlocked(T),
    NothingPending,
    ForAnotherCamera,
    OwnerStillRunning { pid: u32 },
    /// A record of the same model, elsewhere.
    Elsewhere { unit: u8, selector: u8, original: T, usb_devpath: T },
    AlreadyRestored,
    Restored { unit: u8, selector: u8 },
    /// The control holds its original, but the record could not be removed. Carries why.
    RecordKept(T),
    /// The change is still there; and where an unused attempt could not be given back, why not.
    Unresolved { reason: Reason<B, T>, kept_count: Option<T> },
}

impl View for RecoveryEnd<Vec<u8>, String> {
    type V = RecoveryEnd<Seq<u8>, Seq<char>>;

    open spec fn view(&self) -> RecoveryEnd<Seq<u8>, Seq<char>> {
        match *self {
            RecoveryEnd::Busy => RecoveryEnd::Busy,
            RecoveryEnd::Unlocked(why) => RecoveryEnd::Unlocked(why@),
            RecoveryEnd::NothingPending => RecoveryEnd::NothingPending,
            RecoveryEnd::ForAnotherCamera => RecoveryEnd::ForAnotherCamera,
            RecoveryEnd::OwnerStillRunning { pid } => RecoveryEnd::OwnerStillRunning { pid },
            RecoveryEnd::Elsewhere { unit, selector, original, usb_devpath } => {
                RecoveryEnd::Elsewhere {
                    unit,
                    selector,
                    original: original@,
                    usb_devpath: usb_devpath@,
                }
            },
            RecoveryEnd::AlreadyRestored => RecoveryEnd::AlreadyRestored,
            RecoveryEnd::Restored { unit, selector } => RecoveryEnd::Restored { unit, selector },
            RecoveryEnd::RecordKept(why) => RecoveryEnd::RecordKept(why@),
            RecoveryEnd::Unresolved { reason, kept_count } => RecoveryEnd::Unresolved {
                reason: reason@,
                kept_count: text_view(kept_count),
            },
        }
    }
}

/// Where a recovery pass stands.
#[derive(Clone, Debug, PartialEq, Eq)]
pub enum RecoveryPhase<B, T> {
    Lock,
    Load,
    Check(RecordFacts),
    Length(RecordFacts),
    Info(RecordFacts),
    Current { record: RecordFacts, info: u8 },
    Decide { record: RecordFacts, info: u8, current: B },
    ClearUnneeded,
    Count { record: RecordFacts, original: B },
    Decode { record: RecordFacts, original: B },
    Recheck { record: RecordFacts, original: B, attempted: B },
    GiveBack(Reason<B, T>),
    Restore { record: RecordFacts, original: B },
    ReadBack { record: RecordFacts, original: B },
    ClearRestored(RecordFacts),
    Ended(RecoveryEnd<B, T>),
}

impl View for RecoveryPhase<Vec<u8>, String> {
    type V = RecoveryPhase<Seq<u8>, Seq<char>>;

    open spec fn view(&self) -> RecoveryPhase<Seq<u8>, Seq<char>> {
        match *self {
            RecoveryPhase::Lock => RecoveryPhase::Lock,
            RecoveryPhase::Load => RecoveryPhase::Load,
            RecoveryPhase::Check(record) => RecoveryPhase::Check(record),
            RecoveryPhase::Length(record) => RecoveryPhase::Length(record),
            RecoveryPhase::Info(record) => RecoveryPhase::Info(record),
            RecoveryPhase::Current { record, info } => RecoveryPhase::Current { record, info },
            RecoveryPhase::Decide { record, info, current } => RecoveryPhase::Decide {
                record,
                info,
                current: current@,
            },
            RecoveryPhase::ClearUnneeded => RecoveryPhase::ClearUnneeded,
            RecoveryPhase::Count { record, original } => RecoveryPhase::Count {
                record,
                original: original@,
            },
            RecoveryPhase::Decode { record, original } => RecoveryPhase::Decode {
                record,
                original: original@,
            },
            RecoveryPhase::Recheck { record, original, attempted } => RecoveryPhase::Recheck {
                record,
                original: original@,
                attempted: attempted@,
            },
            RecoveryPhase::GiveBack(reason) => RecoveryPhase::GiveBack(reason@),
            RecoveryPhase::Restore { record, original } => RecoveryPhase::Restore {
                record,
                original: original@,
            },
            RecoveryPhase::ReadBack { record, original } => RecoveryPhase::ReadBack {
                record,
                original: original@,
            },
            RecoveryPhase::ClearRestored(record) => RecoveryPhase::ClearRestored(record),
            RecoveryPhase::Ended(end) => RecoveryPhase::Ended(end@),
        }
    }
}

/// The end of a pass that could not resolve a change, with nothing counted that was not used.
pub open spec fn unresolved(reason: Reason<Seq<u8>, Seq<char>>) -> RecoveryPhase<
    Seq<u8>,
    Seq<char>,
> {
    RecoveryPhase::Ended(RecoveryEnd::Unresolved { reason, kept_count: None })
}

impl RecoveryPhase<Seq<u8>, Seq<char>> {
    /// What is asked for next, if anything is.
    pub open spec fn asked(self) -> Option<RecoveryRequest<Seq<u8>>> {
        match self {
            RecoveryPhase::Lock => Some(RecoveryRequest::LockCamera),
            RecoveryPhase::Load => Some(RecoveryRequest::LoadRecord),
            RecoveryPhase::Check(_) => Some(RecoveryRequest::CheckRecord),
            RecoveryPhase::Length(_) => Some(RecoveryRequest::Camera(CameraRequest::GetLen)),
            RecoveryPhase::Info(_) => Some(RecoveryRequest::Camera(CameraRequest::GetInfo)),
            RecoveryPhase::Current { record, info } => Some(
                RecoveryRequest::Camera(
                    CameraRequest::Read { query: ControlQuery::Current, len: record.len },
                ),
            ),
            RecoveryPhase::Decide { record, info, current } => Some(
                RecoveryRequest::Decide { len: record.len, writable: settable(info), current },
            ),
            RecoveryPhase::ClearUnneeded => Some(RecoveryRequest::ClearRecord),
            RecoveryPhase::Count { .. } => Some(RecoveryRequest::CountAttempt),
            RecoveryPhase::Decode { .. } => Some(RecoveryRequest::DecodeAttempted),
            RecoveryPhase::Recheck { record, original, attempted } => Some(
                RecoveryRequest::Camera(
                    CameraRequest::Read {
                        query: ControlQuery::Current,
                        len: original.len() as usize,
                    },
                ),
            ),
            RecoveryPhase::GiveBack(_) => Some(RecoveryRequest::GiveBack),
            RecoveryPhase::Restore { record, original } => Some(
                RecoveryRequest::Camera(CameraRequest::Write(original)),
            ),
            RecoveryPhase::ReadBack { record, original } => Some(
                RecoveryRequest::Camera(
                    CameraRequest::Read {
                        query: ControlQuery::Current,
                        len: original.len() as usize,
                    },
                ),
            ),
            RecoveryPhase::ClearRestored(_) => Some(RecoveryRequest::ClearRecord),
            RecoveryPhase::Ended(_) => None,
        }
    }

    /// The control that camera requests go to.
    pub open spec fn target(self) -> Option<(u8, u8)> {
        match self {
            RecoveryPhase::Length(record)
            | RecoveryPhase::Info(record)
            | RecoveryPhase::Current { record, .. }
            | RecoveryPhase::Recheck { record, .. }
            | RecoveryPhase::Restore { record, .. }
            | RecoveryPhase::ReadBack { record, .. } => Some((record.unit, record.selector)),
            _ => None,
        }
    }

    /// The phase after the store said what it holds.
    pub open spec fn after_load(situation: Situation<Seq<char>>) -> Self {
        match situation {
            Situation::Nothing => RecoveryPhase::Ended(RecoveryEnd::NothingPending),
            Situation::Mine(record) => RecoveryPhase::Check(record),
            Situation::SameModelElsewhere { unit, selector, original, usb_devpath } => {
                RecoveryPhase::Ended(
                    RecoveryEnd::Elsewhere { unit, selector, original, usb_devpath },
                )
            },
            Situation::Unreadable(why) => unresolved(Reason::Said(why)),
        }
    }

    /// The phase after the record was held against the camera.
    pub open spec fn after_check(record: RecordFacts, mismatch: Option<Mismatch<Seq<char>>>) -> Self {
        match mismatch {
            None => RecoveryPhase::Length(record),
            Some(Mismatch::DifferentCamera) => RecoveryPhase::Ended(RecoveryEnd::ForAnotherCamera),
            Some(Mismatch::OwnerStillRunning { pid }) => RecoveryPhase::Ended(
                RecoveryEnd::OwnerStillRunning { pid },
            ),
            Some(Mismatch::OutOfAttempts { attempts }) => unresolved(
                Reason::OutOfAttempts { attempts },
            ),
            Some(Mismatch::UnsupportedSchema { found, supported }) => unresolved(
                Reason::UnsupportedSchema { found, supported },
            ),
            Some(Mismatch::Malformed(why)) => unresolved(Reason::Malformed(why)),
            Some(Mismatch::ControlNotPublished) => unresolved(Reason::ControlNotPublished),
        }
    }

    /// The phase after the camera said how long the control is. Its own answer comes first and
    /// gates the rest.
    pub open spec fn after_length(record: RecordFacts, len: u16) -> Self {
        if !plausible_len(len as int) {
            unresolved(Reason::LengthUnanswered(XuError::Unsupported))
        } else if len != record.len {
            unresolved(Reason::LengthChanged { len: len as usize, recorded: record.len })
        } else {
            RecoveryPhase::Info(record)
        }
    }

    /// The phase after the store said whether a record was removed.
    pub open spec fn after_clear(
        cleared: RecoveryEnd<Seq<u8>, Seq<char>>,
        trouble: Option<Seq<char>>,
    ) -> Self {
        match trouble {
            None => RecoveryPhase::Ended(cleared),
            Some(why) => RecoveryPhase::Ended(RecoveryEnd::RecordKept(why)),
        }
    }

    /// The phase after a reply.
    pub open spec fn step(self, reply: RecoveryReply<Seq<u8>, Seq<char>>) -> Self {
        match (self, reply) {
            (RecoveryPhase::Lock, RecoveryReply::Locked(lock)) => match lock {
                CameraLock::Held => RecoveryPhase::Load,
                CameraLock::Busy => RecoveryPhase::Ended(RecoveryEnd::Busy),
                CameraLock::Failed(why) => RecoveryPhase::Ended(RecoveryEnd::Unlocked(why)),
            },
            (RecoveryPhase::Load, RecoveryReply::Loaded(situation)) => {
                RecoveryPhase::<Seq<u8>, Seq<char>>::after_load(situation)
            },
            (RecoveryPhase::Check(record), RecoveryReply::Checked(mismatch)) => {
                RecoveryPhase::<Seq<u8>, Seq<char>>::after_check(record, mismatch)
            },
            (RecoveryPhase::Length(record), RecoveryReply::Camera(reply)) => match reply {
                CameraReply::Length(len) => RecoveryPhase::<Seq<u8>, Seq<char>>::after_length(
                    record,
                    len,
                ),
                CameraReply::Failed(err) => unresolved(Reason::LengthUnanswered(err)),
                _ => self,
            },
            (RecoveryPhase::Info(record), RecoveryReply::Camera(reply)) => match reply {
                CameraReply::Info(info) => RecoveryPhase::Current { record, info },
                CameraReply::Failed(err) => unresolved(Reason::InfoUnanswered(err)),
                _ => self,
            },
            (RecoveryPhase::Current { record, info }, RecoveryReply::Camera(reply)) => {
                match reply {
                    CameraReply::Bytes(current) => RecoveryPhase::Decide { record, info, current },
                    CameraReply::Failed(err) => unresolved(Reason::CurrentUnanswered(err)),
                    _ => self,
                }
            },
            (RecoveryPhase::Decide { record, info, current }, RecoveryReply::Decided(decision)) => {
                match decision {
                    RestoreDecision::AlreadyRestored => RecoveryPhase::ClearUnneeded,
                    RestoreDecision::Refuse(why) => unresolved(Reason::Said(why)),
                    RestoreDecision::Write(original) => RecoveryPhase::Count { record, original },
                }
            },
            (RecoveryPhase::ClearUnneeded, RecoveryReply::Stored(trouble)) => {
                RecoveryPhase::<Seq<u8>, Seq<char>>::after_clear(
                    RecoveryEnd::AlreadyRestored,
                    trouble,
                )
            },
            (RecoveryPhase::Count { record, original }, RecoveryReply::Counted(saved)) => {
                match attempt_refusal(saved) {
                    None => RecoveryPhase::Decode { record, original },
                    Some(why) => unresolved(Reason::NotCounted(why)),
                }
            },
            (RecoveryPhase::Decode { record, original }, RecoveryReply::Decoded(decoded)) => {
                match decoded {
                    Ok(attempted) => RecoveryPhase::Recheck { record, original, attempted },
                    Err(why) => RecoveryPhase::GiveBack(Reason::Undecodable(why)),
                }
            },
            (
                RecoveryPhase::Recheck { record, original, attempted },
                RecoveryReply::Camera(reply),
            ) => match reply {
                CameraReply::Bytes(now) => if now == attempted {
                    RecoveryPhase::Restore { record, original }
                } else {
                    RecoveryPhase::GiveBack(Reason::Moved { now, attempted })
                },
                CameraReply::Failed(err) => RecoveryPhase::GiveBack(Reason::RecheckUnanswered(err)),
                _ => self,
            },
            (RecoveryPhase::GiveBack(reason), RecoveryReply::Stored(trouble)) => {
                RecoveryPhase::Ended(RecoveryEnd::Unresolved { reason, kept_count: trouble })
            },
            (RecoveryPhase::Restore { record, original }, RecoveryReply::Camera(reply)) => {
                match reply {
                    CameraReply::Accepted => RecoveryPhase::ReadBack { record, original },
                    CameraReply::Failed(err) => unresolved(Reason::RestoreFailed(err)),
                    _ => self,
                }
            },
            (RecoveryPhase::ReadBack { record, original }, RecoveryReply::Camera(reply)) => {
                match reply {
                    CameraReply::Bytes(back) => if back == original {
                        RecoveryPhase::ClearRestored(record)
                    } else {
                        unresolved(Reason::NotTaken { back, original })
                    },
                    CameraReply::Failed(err) => unresolved(Reason::BackUnanswered(err)),
                    _ => self,
                }
            },
            (RecoveryPhase::ClearRestored(record), RecoveryReply::Stored(trouble)) => {
                RecoveryPhase::<Seq<u8>, Seq<char>>::after_clear(
                    RecoveryEnd::Restored { unit: record.unit, selector: record.selector },
                    trouble,
                )
            },
            (phase, _) => phase,
        }
    }
}

impl RecoveryPhase<Vec<u8>, String> {
    /// A pass that first locks the camera.
    #[must_use]
    pub fn new() -> (r: Self)
        ensures
            r@ == RecoveryPhase::<Seq<u8>, Seq<char>>::Lock,
    {
        RecoveryPhase::Lock
    }

    /// A pass under a lock that the caller holds.
    #[must_use]
    pub fn locked() -> (r: Self)
        ensures
            r@ == RecoveryPhase::<Seq<u8>, Seq<char>>::Load,
    {
        RecoveryPhase::Load
    }

    /// What is asked for next, if anything is.
    #[must_use]
    pub fn request(&self) -> (r: Option<RecoveryRequest<Vec<u8>>>)
        ensures
            match r {
                Some(request) => self@.asked() == Some(request@),
                None => self@.asked() is None,
            },
    {
        match self {
            RecoveryPhase::Lock => Some(RecoveryRequest::LockCamera),
            RecoveryPhase::Load => Some(RecoveryRequest::LoadRecord),
            RecoveryPhase::Check(_) => Some(RecoveryRequest::CheckRecord),
            RecoveryPhase::Length(_) => Some(RecoveryRequest::Camera(CameraRequest::GetLen)),
            RecoveryPhase::Info(_) => Some(RecoveryRequest::Camera(CameraRequest::GetInfo)),
            RecoveryPhase::Current { record, info: _ } => Some(
                RecoveryRequest::Camera(
                    CameraRequest::Read { query: ControlQuery::Current, len: record.len },
                ),
            ),
            RecoveryPhase::Decide { record, info, current } => Some(
                RecoveryRequest::Decide {
                    len: record.len,
                    writable: info_allows_set(*info),
                    current: copy_bytes(current.as_slice()),
                },
            ),
            RecoveryPhase::ClearUnneeded => Some(RecoveryRequest::ClearRecord),
            RecoveryPhase::Count { .. } => Some(RecoveryRequest::CountAttempt),
            RecoveryPhase::Decode { .. } => Some(RecoveryRequest::DecodeAttempted),
            RecoveryPhase::Recheck { record: _, original, attempted: _ } => Some(
                RecoveryRequest::Camera(
                    CameraRequest::Read { query: ControlQuery::Current, len: original.len() },
                ),
            ),
            RecoveryPhase::GiveBack(_) => Some(RecoveryRequest::GiveBack),
            RecoveryPhase::Restore { record: _, original } => Some(
                RecoveryRequest::Camera(CameraRequest::write(original.as_slice())),
            ),
            RecoveryPhase::ReadBack { record: _, original } => Some(
                RecoveryRequest::Camera(
                    CameraRequest::Read { query: ControlQuery::Current, len: original.len() },
                ),
            ),
            RecoveryPhase::ClearRestored(_) => Some(RecoveryRequest::ClearRecord),
            RecoveryPhase::Ended(_) => None,
        }
    }

    /// The control that camera requests go to.
    #[must_use]
    pub fn control(&self) -> (r: Option<(u8, u8)>)
        ensures
            r == self@.target(),
    {
        match self {
            RecoveryPhase::Length(record) => Some((record.unit, record.selector)),
            RecoveryPhase::Info(record) => Some((record.unit, record.selector)),
            RecoveryPhase::Current { record, .. } => Some((record.unit, record.selector)),
            RecoveryPhase::Recheck { record, .. } => Some((record.unit, record.selector)),
            RecoveryPhase::Restore { record, .. } => Some((record.unit, record.selector)),
            RecoveryPhase::ReadBack { record, .. } => Some((record.unit, record.selector)),
            _ => None,
        }
    }

    fn loaded(situation: Situation<String>) -> (r: Self)
        ensures
            r@ == RecoveryPhase::<Seq<u8>, Seq<char>>::after_load(
                RecoveryReply::<Vec<u8>, String>::Loaded(situation)@->Loaded_0,
            ),
    {
        match situation {
            Situation::Nothing => RecoveryPhase::Ended(RecoveryEnd::NothingPending),
            Situation::Mine(record) => RecoveryPhase::Check(record),
            Situation::SameModelElsewhere { unit, selector, original, usb_devpath } => {
                RecoveryPhase::Ended(
                    RecoveryEnd::Elsewhere { unit, selector, original, usb_devpath },
                )
            },
            Situation::Unreadable(why) => RecoveryPhase::unresolved_for(Reason::Said(why)),
        }
    }

    fn unresolved_for(reason: Reason<Vec<u8>, String>) -> (r: Self)
        ensures
            r@ == unresolved(reason@),
    {
        RecoveryPhase::Ended(RecoveryEnd::Unresolved { reason, kept_count: None })
    }

    fn checked(record: RecordFacts, mismatch: Option<Mismatch<String>>) -> (r: Self)
        ensures
            r@ == RecoveryPhase::<Seq<u8>, Seq<char>>::after_check(
                record,
                RecoveryReply::<Vec<u8>, String>::Checked(mismatch)@->Checked_0,
            ),
    {
        match mismatch {
            None => RecoveryPhase::Length(record),
            Some(Mismatch::DifferentCamera) => RecoveryPhase::Ended(RecoveryEnd::ForAnotherCamera),
            Some(Mismatch::OwnerStillRunning { pid }) => RecoveryPhase::Ended(
                RecoveryEnd::OwnerStillRunning { pid },
            ),
            Some(Mismatch::OutOfAttempts { attempts }) => RecoveryPhase::unresolved_for(
                Reason::OutOfAttempts { attempts },
            ),
            Some(Mismatch::UnsupportedSchema { found, supported }) => RecoveryPhase::unresolved_for(
                Reason::UnsupportedSchema { found, supported },
            ),
            Some(Mismatch::Malformed(why)) => RecoveryPhase::unresolved_for(Reason::Malformed(why)),
            Some(Mismatch::ControlNotPublished) => RecoveryPhase::unresolved_for(
                Reason::ControlNotPublished,
            ),
        }
    }

    fn length_known(record: RecordFacts, len: u16) -> (r: Self)
        ensures
            r@ == RecoveryPhase::<Seq<u8>, Seq<char>>::after_length(record, len),
    {
        match valid_ctrl_len(len as usize) {
            None => RecoveryPhase::unresolved_for(Reason::LengthUnanswered(XuError::Unsupported)),
            Some(len) => if len != record.len {
                RecoveryPhase::unresolved_for(Reason::LengthChanged { len, recorded: record.len })
            } else {
                RecoveryPhase::Info(record)
            },
        }
    }

    fn cleared(end: RecoveryEnd<Vec<u8>, String>, trouble: Option<String>) -> (r: Self)
        ensures
            r@ == RecoveryPhase::<Seq<u8>, Seq<char>>::after_clear(end@, text_view(trouble)),
    {
        match trouble {
            None => RecoveryPhase::Ended(end),
            Some(why) => RecoveryPhase::Ended(RecoveryEnd::RecordKept(why)),
        }
    }

    /// Takes the reply to the last request.
    #[must_use]
    pub fn advance(self, reply: RecoveryReply<Vec<u8>, String>) -> (r: Self)
        requires
            self@.asked() is Some,
            recovery_answers(self@.asked()->0, reply@),
        ensures
            r@ == self@.step(reply@),
    {
        match (self, reply) {
            (RecoveryPhase::Lock, RecoveryReply::Locked(lock)) => match lock {
                CameraLock::Held => RecoveryPhase::Load,
                CameraLock::Busy => RecoveryPhase::Ended(RecoveryEnd::Busy),
                CameraLock::Failed(why) => RecoveryPhase::Ended(RecoveryEnd::Unlocked(why)),
            },
            (RecoveryPhase::Load, RecoveryReply::Loaded(situation)) => {
                RecoveryPhase::loaded(situation)
            },
            (RecoveryPhase::Check(record), RecoveryReply::Checked(mismatch)) => {
                RecoveryPhase::checked(record, mismatch)
            },
            (RecoveryPhase::Length(record), RecoveryReply::Camera(reply)) => match reply {
                CameraReply::Length(len) => RecoveryPhase::length_known(record, len),
                CameraReply::Failed(err) => RecoveryPhase::unresolved_for(
                    Reason::LengthUnanswered(err),
                ),
                _ => RecoveryPhase::Length(record),
            },
            (RecoveryPhase::Info(record), RecoveryReply::Camera(reply)) => match reply {
                CameraReply::Info(info) => RecoveryPhase::Current { record, info },
                CameraReply::Failed(err) => RecoveryPhase::unresolved_for(
                    Reason::InfoUnanswered(err),
                ),
                _ => RecoveryPhase::Info(record),
            },
            (RecoveryPhase::Current { record, info }, RecoveryReply::Camera(reply)) => {
                match reply {
                    CameraReply::Bytes(current) => RecoveryPhase::Decide { record, info, current },
                    CameraReply::Failed(err) => RecoveryPhase::unresolved_for(
                        Reason::CurrentUnanswered(err),
                    ),
                    _ => RecoveryPhase::Current { record, info },
                }
            },
            (
                RecoveryPhase::Decide { record, info: _, current: _ },
                RecoveryReply::Decided(decision),
            ) => match decision {
                RestoreDecision::AlreadyRestored => RecoveryPhase::ClearUnneeded,
                RestoreDecision::Refuse(why) => RecoveryPhase::unresolved_for(Reason::Said(why)),
                RestoreDecision::Write(original) => RecoveryPhase::Count { record, original },
            },
            (RecoveryPhase::ClearUnneeded, RecoveryReply::Stored(trouble)) => {
                RecoveryPhase::cleared(RecoveryEnd::AlreadyRestored, trouble)
            },
            (RecoveryPhase::Count { record, original }, RecoveryReply::Counted(saved)) => {
                match counted_attempt_authorizes_write(saved) {
                    Ok(()) => RecoveryPhase::Decode { record, original },
                    Err(why) => RecoveryPhase::unresolved_for(Reason::NotCounted(why)),
                }
            },
            (RecoveryPhase::Decode { record, original }, RecoveryReply::Decoded(decoded)) => {
                match decoded {
                    Ok(attempted) => RecoveryPhase::Recheck { record, original, attempted },
                    Err(why) => RecoveryPhase::GiveBack(Reason::Undecodable(why)),
                }
            },
            (
                RecoveryPhase::Recheck { record, original, attempted },
                RecoveryReply::Camera(reply),
            ) => match reply {
                CameraReply::Bytes(now) => {
                    if same_bytes(now.as_slice(), attempted.as_slice()) {
                        RecoveryPhase::Restore { record, original }
                    } else {
                        RecoveryPhase::GiveBack(Reason::Moved { now, attempted })
                    }
                },
                CameraReply::Failed(err) => RecoveryPhase::GiveBack(Reason::RecheckUnanswered(err)),
                _ => RecoveryPhase::Recheck { record, original, attempted },
            },
            (RecoveryPhase::GiveBack(reason), RecoveryReply::Stored(trouble)) => {
                RecoveryPhase::Ended(RecoveryEnd::Unresolved { reason, kept_count: trouble })
            },
            (RecoveryPhase::Restore { record, original }, RecoveryReply::Camera(reply)) => {
                match reply {
                    CameraReply::Accepted => RecoveryPhase::ReadBack { record, original },
                    CameraReply::Failed(err) => RecoveryPhase::unresolved_for(
                        Reason::RestoreFailed(err),
                    ),
                    _ => RecoveryPhase::Restore { record, original },
                }
            },
            (RecoveryPhase::ReadBack { record, original }, RecoveryReply::Camera(reply)) => {
                match reply {
                    CameraReply::Bytes(back) => {
                        if same_bytes(back.as_slice(), original.as_slice()) {
                            RecoveryPhase::ClearRestored(record)
                        } else {
                            RecoveryPhase::unresolved_for(Reason::NotTaken { back, original })
                        }
                    },
                    CameraReply::Failed(err) => RecoveryPhase::unresolved_for(
                        Reason::BackUnanswered(err),
                    ),
                    _ => RecoveryPhase::ReadBack { record, original },
                }
            },
            (RecoveryPhase::ClearRestored(record), RecoveryReply::Stored(trouble)) => {
                RecoveryPhase::cleared(
                    RecoveryEnd::Restored { unit: record.unit, selector: record.selector },
                    trouble,
                )
            },
            (phase, _) => phase,
        }
    }
}

// ---------------------------------------------------------------------------------------------
// What a pass came to
// ---------------------------------------------------------------------------------------------

impl RecoveryEnd<Seq<u8>, Seq<char>> {
    /// What the pass came to, with the words for a failed request.
    pub open spec fn outcome(self, failure: Seq<char>) -> OutcomeView {
        match self {
            RecoveryEnd::Busy => OutcomeView::Busy,
            RecoveryEnd::Unlocked(why) => OutcomeView::Unchecked("lock the camera: "@ + why),
            RecoveryEnd::NothingPending => OutcomeView::NothingPending,
            RecoveryEnd::ForAnotherCamera => OutcomeView::ForAnotherCamera,
            RecoveryEnd::OwnerStillRunning { pid } => OutcomeView::OwnerStillRunning { pid },
            RecoveryEnd::Elsewhere { unit, selector, original, usb_devpath } => {
                OutcomeView::Unconfirmed {
                    unit,
                    selector,
                    original,
                    recorded_at: if usb_devpath.len() == 0 {
                        "a build that did not record which port it was on"@
                    } else {
                        usb_devpath
                    },
                }
            },
            RecoveryEnd::AlreadyRestored => OutcomeView::AlreadyRestored,
            RecoveryEnd::Restored { unit, selector } => OutcomeView::Restored { unit, selector },
            RecoveryEnd::RecordKept(why) => OutcomeView::RestoredRecordKept(why),
            RecoveryEnd::Unresolved { reason, kept_count } => OutcomeView::Unresolved(
                match kept_count {
                    None => reason.worded(failure),
                    Some(why) => reason.worded(failure)
                        + "; and the unused attempt could not be given back ("@ + why + ")"@,
                },
            ),
        }
    }

    /// The failed request behind the end, if there is one.
    pub open spec fn failure(self) -> Option<XuError> {
        match self {
            RecoveryEnd::Unresolved { reason, kept_count } => reason.failure(),
            _ => None,
        }
    }

    /// Whether an outcome says what the pass came to, in whatever words the operating system has
    /// for a failed request.
    pub open spec fn told_by(self, outcome: OutcomeView) -> bool {
        match self.failure() {
            None => outcome == self.outcome(seq![]),
            Some(err) => exists|failure: Seq<char>|
                err.described_by(failure) && outcome == #[trigger] self.outcome(failure),
        }
    }
}

impl RecoveryPhase<Vec<u8>, String> {
    /// What the pass came to, with the words for a failed request, or `None` while it still asks.
    #[must_use]
    pub fn outcome_with(&self, failure: &str) -> (r: Option<RecoveryOutcome>)
        ensures
            match self@ {
                RecoveryPhase::Ended(end) => r is Some && r->0@ == end.outcome(failure@),
                _ => r is None,
            },
    {
        let end: &RecoveryEnd<Vec<u8>, String> = match self {
            RecoveryPhase::Ended(end) => end,
            _ => {
                return None;
            },
        };
        Some(
            match end {
                RecoveryEnd::Busy => RecoveryOutcome::Busy,
                RecoveryEnd::Unlocked(why) => {
                    let mut s: String = "lock the camera: ".to_owned();
                    s.append(why.as_str());
                    RecoveryOutcome::Unchecked(s)
                },
                RecoveryEnd::NothingPending => RecoveryOutcome::NothingPending,
                RecoveryEnd::ForAnotherCamera => RecoveryOutcome::ForAnotherCamera,
                RecoveryEnd::OwnerStillRunning { pid } => RecoveryOutcome::OwnerStillRunning {
                    pid: *pid,
                },
                RecoveryEnd::Elsewhere { unit, selector, original, usb_devpath } => {
                    proof {
                        reveal_strlit("");
                    }
                    assert(usb_devpath@.len() == 0 ==> usb_devpath@ =~= ""@);
                    RecoveryOutcome::Unconfirmed {
                        unit: *unit,
                        selector: *selector,
                        original: original.clone(),
                        recorded_at: if *usb_devpath == "".to_owned() {
                            "a build that did not record which port it was on".to_owned()
                        } else {
                            usb_devpath.clone()
                        },
                    }
                },
                RecoveryEnd::AlreadyRestored => RecoveryOutcome::AlreadyRestored,
                RecoveryEnd::Restored { unit, selector } => RecoveryOutcome::Restored {
                    unit: *unit,
                    selector: *selector,
                },
                RecoveryEnd::RecordKept(why) => RecoveryOutcome::RestoredRecordKept(why.clone()),
                RecoveryEnd::Unresolved { reason, kept_count } => {
                    let mut s: String = reason.message_with(failure);
                    if let Some(why) = kept_count {
                        s.append("; and the unused attempt could not be given back (");
                        s.append(why.as_str());
                        s.append(")");
                    }
                    RecoveryOutcome::Unresolved(s)
                },
            },
        )
    }

    /// What the pass came to, or `None` while it still asks.
    #[must_use]
    pub fn outcome(&self) -> (r: Option<RecoveryOutcome>)
        ensures
            match self@ {
                RecoveryPhase::Ended(end) => r is Some && end.told_by(r->0@),
                _ => r is None,
            },
    {
        let err: Option<XuError> = match self {
            RecoveryPhase::Ended(RecoveryEnd::Unresolved { reason, kept_count: _ }) => {
                reason.failed_request()
            },
            _ => None,
        };
        match err {
            Some(err) => {
                let failure: String = err.message();
                let r: Option<RecoveryOutcome> = self.outcome_with(failure.as_str());
                proof {
                    if let RecoveryPhase::Ended(end) = self@ {
                        assert(err.described_by(failure@) && r->0@ == end.outcome(failure@));
                    }
                }
                r
            },
            None => {
                proof {
                    reveal_strlit("");
                }
                assert(""@ =~= seq![]);
                self.outcome_with("")
            },
        }
    }
}

// ---------------------------------------------------------------------------------------------
// Laws
// ---------------------------------------------------------------------------------------------

impl RecoveryPhase<Seq<u8>, Seq<char>> {
    /// The pass after replies, the first of them first.
    pub open spec fn after_all(self, replies: Seq<RecoveryReply<Seq<u8>, Seq<char>>>) -> Self
        decreases replies.len(),
    {
        if replies.len() == 0 {
            self
        } else {
            self.after_all(replies.drop_last()).step(replies.last())
        }
    }

    /// How many requests a pass still makes at most.
    pub open spec fn left(self) -> int {
        match self {
            RecoveryPhase::Lock => 13,
            RecoveryPhase::Load => 12,
            RecoveryPhase::Check(_) => 11,
            RecoveryPhase::Length(_) => 10,
            RecoveryPhase::Info(_) => 9,
            RecoveryPhase::Current { .. } => 8,
            RecoveryPhase::Decide { .. } => 7,
            RecoveryPhase::Count { .. } => 6,
            RecoveryPhase::Decode { .. } => 5,
            RecoveryPhase::Recheck { .. } => 4,
            RecoveryPhase::Restore { .. } => 3,
            RecoveryPhase::ReadBack { .. } => 2,
            RecoveryPhase::ClearRestored(_) => 1,
            RecoveryPhase::ClearUnneeded => 1,
            RecoveryPhase::GiveBack(_) => 1,
            RecoveryPhase::Ended(_) => 0,
        }
    }

    /// Whether the next request changes the camera.
    pub open spec fn writes(self) -> bool {
        self.asked() matches Some(RecoveryRequest::Camera(CameraRequest::Write(_)))
    }

    /// Whether the next request goes to the camera.
    pub open spec fn asks_camera(self) -> bool {
        self.asked() matches Some(RecoveryRequest::Camera(_))
    }

    /// Whether each reply of a run is one that the request before it can have.
    pub open spec fn proper_run(self, replies: Seq<RecoveryReply<Seq<u8>, Seq<char>>>) -> bool {
        forall|i: int|
            0 <= i < replies.len() ==> {
                let before = self.after_all(#[trigger] replies.take(i));
                before.asked() is Some && recovery_answers(before.asked()->0, replies[i])
            }
    }
}

/// Each reply brings a pass nearer to its end, and once the camera fails to answer nothing more is
/// asked of it.
pub proof fn recovery_moves_on(
    phase: RecoveryPhase<Seq<u8>, Seq<char>>,
    reply: RecoveryReply<Seq<u8>, Seq<char>>,
)
    requires
        phase.asked() is Some,
        recovery_answers(phase.asked()->0, reply),
    ensures
        phase.step(reply).left() < phase.left(),
        reply matches RecoveryReply::Camera(CameraReply::Failed(_)) ==> !phase.step(
            reply,
        ).asks_camera(),
{
}

pub(crate) proof fn shorter_run(
    phase: RecoveryPhase<Seq<u8>, Seq<char>>,
    replies: Seq<RecoveryReply<Seq<u8>, Seq<char>>>,
)
    requires
        phase.proper_run(replies),
        replies.len() > 0,
    ensures
        phase.proper_run(replies.drop_last()),
        phase.after_all(replies.drop_last()).asked() is Some,
        recovery_answers(phase.after_all(replies.drop_last()).asked()->0, replies.last()),
{
    let shorter = replies.drop_last();
    assert(replies.take(shorter.len() as int) =~= shorter);
    assert forall|i: int| 0 <= i < shorter.len() implies {
        let before = phase.after_all(#[trigger] shorter.take(i));
        before.asked() is Some && recovery_answers(before.asked()->0, shorter[i])
    } by {
        assert(replies.take(i) =~= shorter.take(i));
    }
}

/// Over any run, a pass changes the camera at most once.
pub proof fn recovery_writes_at_most_once(
    start: RecoveryPhase<Seq<u8>, Seq<char>>,
    replies: Seq<RecoveryReply<Seq<u8>, Seq<char>>>,
    i: int,
    j: int,
)
    requires
        start.proper_run(replies),
        0 <= i < j <= replies.len(),
        start.after_all(replies.take(i)).writes(),
    ensures
        !start.after_all(replies.take(j)).writes(),
        start.after_all(replies.take(j)).left() < 3,
    decreases j,
{
    assert(replies.take(j).drop_last() =~= replies.take(j - 1));
    let before = start.after_all(replies.take(j - 1));
    assert(before.asked() is Some && recovery_answers(before.asked()->0, replies[j - 1]));
    recovery_moves_on(before, replies[j - 1]);
    if i < j - 1 {
        recovery_writes_at_most_once(start, replies, i, j - 1);
    }
}

/// Before a pass puts a control back, the store has called for exactly those bytes, the attempt
/// was counted durably, and the control was read again, last of all, to hold what the interrupted
/// run had applied.
pub proof fn a_restore_is_counted_and_rechecked(
    start: RecoveryPhase<Seq<u8>, Seq<char>>,
    replies: Seq<RecoveryReply<Seq<u8>, Seq<char>>>,
    value: Seq<u8>,
)
    requires
        start is Lock || start is Load,
        start.proper_run(replies),
        start.after_all(replies).asked() == Some(
            RecoveryRequest::Camera(CameraRequest::Write(value)),
        ),
    ensures
        replies.len() >= 4,
        ({
            let n = replies.len() as int;
            &&& replies[n - 1] matches RecoveryReply::Camera(CameraReply::Bytes(now))
                && replies[n - 2] == RecoveryReply::<Seq<u8>, Seq<char>>::Decoded(Ok(now))
            &&& replies[n - 3] == RecoveryReply::<Seq<u8>, Seq<char>>::Counted(
                Ok(AtomicWrite::Durable),
            )
            &&& replies[n - 4] == RecoveryReply::<Seq<u8>, Seq<char>>::Decided(
                RestoreDecision::Write(value),
            )
        }),
{
    shorter_run(start, replies);
    let r1 = replies.drop_last();
    shorter_run(start, r1);
    let r2 = r1.drop_last();
    shorter_run(start, r2);
    let r3 = r2.drop_last();
    shorter_run(start, r3);
}

/// A control's value is first read as long as the camera itself has just said the control is, and
/// the record agrees: a record that claims another length never sizes a request.
pub proof fn the_cameras_length_gates_the_read(
    start: RecoveryPhase<Seq<u8>, Seq<char>>,
    replies: Seq<RecoveryReply<Seq<u8>, Seq<char>>>,
    record: RecordFacts,
    info: u8,
)
    requires
        start is Lock || start is Load,
        start.proper_run(replies),
        start.after_all(replies) == (RecoveryPhase::<Seq<u8>, Seq<char>>::Current { record, info }),
    ensures
        start.after_all(replies).asked() == Some(
            RecoveryRequest::<Seq<u8>>::Camera(
                CameraRequest::Read { query: ControlQuery::Current, len: record.len },
            ),
        ),
        replies.len() >= 4,
        ({
            let n = replies.len() as int;
            &&& replies[n - 1] == RecoveryReply::<Seq<u8>, Seq<char>>::Camera(
                CameraReply::Info(info),
            )
            &&& replies[n - 2] matches RecoveryReply::Camera(CameraReply::Length(len)) && len
                == record.len && plausible_len(len as int)
            &&& replies[n - 3] == RecoveryReply::<Seq<u8>, Seq<char>>::Checked(None)
            &&& replies[n - 4] == RecoveryReply::<Seq<u8>, Seq<char>>::Loaded(
                Situation::Mine(record),
            )
        }),
{
    shorter_run(start, replies);
    let r1 = replies.drop_last();
    shorter_run(start, r1);
    let r2 = r1.drop_last();
    shorter_run(start, r2);
    let r3 = r2.drop_last();
    shorter_run(start, r3);
}

/// A record is removed only where the control was just read to hold the very bytes that were
/// written back, or where the store found it restored already.
pub proof fn a_record_outlives_its_change(
    start: RecoveryPhase<Seq<u8>, Seq<char>>,
    replies: Seq<RecoveryReply<Seq<u8>, Seq<char>>>,
)
    requires
        start is Lock || start is Load,
        start.proper_run(replies),
        start.after_all(replies).asked() == Some(RecoveryRequest::<Seq<u8>>::ClearRecord),
    ensures
        replies.len() >= 2,
        ({
            let n = replies.len() as int;
            ||| replies[n - 1] == RecoveryReply::<Seq<u8>, Seq<char>>::Decided(
                RestoreDecision::AlreadyRestored,
            )
            ||| (replies[n - 1] matches RecoveryReply::Camera(CameraReply::Bytes(back))
                && start.after_all(replies.take(n - 2)).asked() == Some(
                RecoveryRequest::Camera(CameraRequest::Write(back)),
            ))
        }),
{
    let n = replies.len() as int;
    shorter_run(start, replies);
    let r1 = replies.drop_last();
    shorter_run(start, r1);
    let r2 = r1.drop_last();
    assert(r2 =~= replies.take(n - 2));
}

/// An attempt that was counted is used or given back: once a count was saved durably, no pass ends
/// without having asked either to put the control back or to give the attempt back.
pub proof fn a_counted_attempt_is_used_or_given_back(
    start: RecoveryPhase<Seq<u8>, Seq<char>>,
    replies: Seq<RecoveryReply<Seq<u8>, Seq<char>>>,
    k: int,
)
    requires
        start is Lock || start is Load,
        start.proper_run(replies),
        0 <= k < replies.len(),
        replies[k] == RecoveryReply::<Seq<u8>, Seq<char>>::Counted(Ok(AtomicWrite::Durable)),
    ensures
        start.after_all(replies) is Decode || start.after_all(replies) is Recheck || exists|i: int|
            0 <= i <= replies.len() && ({
                let then = #[trigger] start.after_all(replies.take(i));
                then.writes() || then.asked() == Some(RecoveryRequest::<Seq<u8>>::GiveBack)
            }),
    decreases replies.len(),
{
    let n = replies.len() as int;
    assert(replies.take(n) =~= replies);
    shorter_run(start, replies);
    let shorter = replies.drop_last();
    assert(replies.take(n - 1) =~= shorter);
    if k == n - 1 {
        assert(start.after_all(replies) is Decode);
    } else {
        a_counted_attempt_is_used_or_given_back(start, shorter, k);
        let before = start.after_all(shorter);
        if before is Decode || before is Recheck {
            let now = start.after_all(replies.take(n));
            assert(now is Recheck || now.writes() || now.asked() == Some(
                RecoveryRequest::<Seq<u8>>::GiveBack,
            ));
        } else {
            let i = choose|i: int|
                0 <= i <= shorter.len() && ({
                    let then = #[trigger] start.after_all(shorter.take(i));
                    then.writes() || then.asked() == Some(RecoveryRequest::<Seq<u8>>::GiveBack)
                });
            assert(shorter.take(i) =~= replies.take(i));
        }
    }
}

/// A camera that another process holds, or that cannot be locked, is asked for nothing.
pub proof fn an_unlocked_camera_is_left_alone(reply: CameraLock<Seq<char>>)
    requires
        !(reply is Held),
    ensures
        RecoveryPhase::<Seq<u8>, Seq<char>>::Lock.step(RecoveryReply::Locked(reply)).asked() is None,
        RecoveryPhase::<Seq<u8>, Seq<char>>::Lock.step(RecoveryReply::Locked(reply)) is Ended,
{
}

/// A change that is left on this camera is put back: the record is held against the camera, the
/// control is found as long as recorded and is read, the attempt is counted, the control is read
/// again to hold what was tried, the original is written and read back, the record is removed, and
/// the pass says which control it restored.
pub proof fn a_leftover_change_is_put_back(
    record: RecordFacts,
    info: u8,
    current: Seq<u8>,
    original: Seq<u8>,
    attempted: Seq<u8>,
)
    requires
        1 <= record.len <= 64,
    ensures
        ({
            let bytes = |b: Seq<u8>|
                RecoveryReply::<Seq<u8>, Seq<char>>::Camera(CameraReply::Bytes(b));
            let read = |len: usize|
                Some(
                    RecoveryRequest::<Seq<u8>>::Camera(
                        CameraRequest::Read { query: ControlQuery::Current, len },
                    ),
                );
            let p0 = RecoveryPhase::<Seq<u8>, Seq<char>>::Lock;
            let p1 = p0.step(RecoveryReply::Locked(CameraLock::Held));
            let p2 = p1.step(RecoveryReply::Loaded(Situation::Mine(record)));
            let p3 = p2.step(RecoveryReply::Checked(None));
            let p4 = p3.step(RecoveryReply::Camera(CameraReply::Length(record.len as u16)));
            let p5 = p4.step(RecoveryReply::Camera(CameraReply::Info(info)));
            let p6 = p5.step(bytes(current));
            let p7 = p6.step(RecoveryReply::Decided(RestoreDecision::Write(original)));
            let p8 = p7.step(RecoveryReply::Counted(Ok(AtomicWrite::Durable)));
            let p9 = p8.step(RecoveryReply::Decoded(Ok(attempted)));
            let p10 = p9.step(bytes(attempted));
            let p11 = p10.step(RecoveryReply::Camera(CameraReply::Accepted));
            let p12 = p11.step(bytes(original));
            let p13 = p12.step(RecoveryReply::Stored(None));
            &&& p0.asked() == Some(RecoveryRequest::<Seq<u8>>::LockCamera)
            &&& p1.asked() == Some(RecoveryRequest::<Seq<u8>>::LoadRecord)
            &&& p2.asked() == Some(RecoveryRequest::<Seq<u8>>::CheckRecord)
            &&& p3.asked() == Some(
                RecoveryRequest::<Seq<u8>>::Camera(CameraRequest::GetLen),
            )
            &&& p4.asked() == Some(
                RecoveryRequest::<Seq<u8>>::Camera(CameraRequest::GetInfo),
            )
            &&& p5.asked() == read(record.len)
            &&& p6.asked() == Some(
                RecoveryRequest::<Seq<u8>>::Decide {
                    len: record.len,
                    writable: info & 0x02 != 0 && info & 0x04 == 0 && info & 0x20 == 0,
                    current,
                },
            )
            &&& p7.asked() == Some(RecoveryRequest::<Seq<u8>>::CountAttempt)
            &&& p8.asked() == Some(RecoveryRequest::<Seq<u8>>::DecodeAttempted)
            &&& p9.asked() == read(original.len() as usize)
            &&& p10.asked() == Some(
                RecoveryRequest::<Seq<u8>>::Camera(CameraRequest::Write(original)),
            )
            &&& p11.asked() == read(original.len() as usize)
            &&& p12.asked() == Some(RecoveryRequest::<Seq<u8>>::ClearRecord)
            &&& p13 matches RecoveryPhase::Ended(end) && end.outcome(seq![]) == (
            OutcomeView::Restored { unit: record.unit, selector: record.selector })
            &&& p3.target() == Some((record.unit, record.selector))
            &&& p4.target() == p3.target()
            &&& p5.target() == p3.target()
            &&& p9.target() == p3.target()
            &&& p10.target() == p3.target()
            &&& p11.target() == p3.target()
        }),
{
}

/// What stands in the way of a pass is what it comes to: a busy or unlockable camera, no record, one
/// of another camera or of a run that still goes, one at another place, and one that cannot be read
/// or used.
pub proof fn an_unneeded_pass_says_why(
    record: RecordFacts,
    pid: u32,
    why: Seq<char>,
    unit: u8,
    selector: u8,
    original: Seq<char>,
    usb_devpath: Seq<char>,
)
    ensures
        ({
            let came_to = |phase: RecoveryPhase<Seq<u8>, Seq<char>>, outcome: OutcomeView|
                phase matches RecoveryPhase::Ended(end) && end.outcome(seq![]) == outcome;
            let lock = RecoveryPhase::<Seq<u8>, Seq<char>>::Lock;
            let load = RecoveryPhase::<Seq<u8>, Seq<char>>::Load;
            let check = RecoveryPhase::<Seq<u8>, Seq<char>>::Check(record);
            let failed = lock.step(RecoveryReply::Locked(CameraLock::Failed(why)));
            let unreadable = load.step(RecoveryReply::Loaded(Situation::Unreadable(why)));
            let elsewhere = load.step(
                RecoveryReply::Loaded(
                    Situation::SameModelElsewhere { unit, selector, original, usb_devpath },
                ),
            );
            &&& came_to(
                lock.step(RecoveryReply::Locked(CameraLock::Busy)),
                OutcomeView::Busy,
            )
            &&& failed is Ended && failed->Ended_0.outcome(seq![]) is Unchecked
            &&& came_to(
                load.step(RecoveryReply::Loaded(Situation::Nothing)),
                OutcomeView::NothingPending,
            )
            &&& unreadable is Ended && unreadable->Ended_0.outcome(seq![]) is Unresolved
            &&& elsewhere is Ended && elsewhere->Ended_0.outcome(seq![]) is Unconfirmed
            &&& elsewhere->Ended_0.outcome(seq![])->Unconfirmed_unit == unit
            &&& elsewhere->Ended_0.outcome(seq![])->Unconfirmed_selector == selector
            &&& elsewhere->Ended_0.outcome(seq![])->Unconfirmed_original == original
            &&& came_to(
                check.step(RecoveryReply::Checked(Some(Mismatch::DifferentCamera))),
                OutcomeView::ForAnotherCamera,
            )
            &&& came_to(
                check.step(RecoveryReply::Checked(Some(Mismatch::OwnerStillRunning { pid }))),
                OutcomeView::OwnerStillRunning { pid },
            )
        }),
{
}

/// A control that already holds its original has its record removed and nothing written; a record
/// that cannot be removed is told apart from a change that is left.
pub proof fn a_control_that_is_back_needs_no_write(
    record: RecordFacts,
    info: u8,
    current: Seq<u8>,
    trouble: Seq<char>,
)
    ensures
        ({
            let decided = (RecoveryPhase::<Seq<u8>, Seq<char>>::Decide { record, info, current }).step(
                RecoveryReply::Decided(RestoreDecision::AlreadyRestored),
            );
            let done = decided.step(RecoveryReply::Stored(None));
            let kept = decided.step(RecoveryReply::Stored(Some(trouble)));
            let restored = RecoveryPhase::<Seq<u8>, Seq<char>>::ClearRestored(record).step(
                RecoveryReply::Stored(Some(trouble)),
            );
            &&& decided.asked() == Some(RecoveryRequest::<Seq<u8>>::ClearRecord)
            &&& done is Ended && done->Ended_0.outcome(seq![]) == OutcomeView::AlreadyRestored
            &&& kept is Ended && kept->Ended_0.outcome(seq![]) == OutcomeView::RestoredRecordKept(
                trouble,
            )
            &&& restored is Ended && restored->Ended_0.outcome(seq![])
                == OutcomeView::RestoredRecordKept(trouble)
        }),
{
}

/// A pass that cannot be sure leaves the change unresolved: a control of another length, a request
/// that goes unanswered, a refusal, a count that is not durable, a control that does not hold what was
/// tried, and one that does not read as its original. What was counted and not used is given back.
pub proof fn an_uncertain_pass_leaves_the_change(
    phase: RecoveryPhase<Seq<u8>, Seq<char>>,
    len: u16,
    bytes: Seq<u8>,
    err: XuError,
    why: Seq<char>,
    given_back: Option<Seq<char>>,
)
    ensures
        ({
            let unresolved = |next: RecoveryPhase<Seq<u8>, Seq<char>>|
                next is Ended && next->Ended_0.outcome(seq![]) is Unresolved;
            let gives_back = |next: RecoveryPhase<Seq<u8>, Seq<char>>|
                next.asked() == Some(RecoveryRequest::<Seq<u8>>::GiveBack) && unresolved(
                    next.step(RecoveryReply::Stored(given_back)),
                );
            let failed = phase.step(RecoveryReply::Camera(CameraReply::Failed(err)));
            let answered = phase.step(RecoveryReply::Camera(CameraReply::Bytes(bytes)));
            &&& phase is Length || phase is Info || phase is Current || phase is Restore || phase
                is ReadBack ==> unresolved(failed)
            &&& phase matches RecoveryPhase::Length(record) ==> (len == 0 || len > 64 || len
                != record.len ==> unresolved(
                phase.step(RecoveryReply::Camera(CameraReply::Length(len))),
            ))
            &&& phase is Decide ==> unresolved(
                phase.step(RecoveryReply::Decided(RestoreDecision::Refuse(why))),
            )
            &&& phase is Count ==> unresolved(phase.step(RecoveryReply::Counted(Err(why))))
                && unresolved(
                phase.step(RecoveryReply::Counted(Ok(AtomicWrite::VisibleNotDurable(why)))),
            )
            &&& phase is Decode ==> gives_back(phase.step(RecoveryReply::Decoded(Err(why))))
            &&& phase is Recheck ==> gives_back(failed)
            &&& phase matches RecoveryPhase::Recheck { record, original, attempted } ==> (bytes
                != attempted ==> gives_back(answered))
            &&& phase matches RecoveryPhase::ReadBack { record, original } ==> (bytes != original
                ==> unresolved(answered))
        }),
{
}

/// What a pass came to is told in one way where no request failed, and else in one way for all words
/// that describe the failure: only those words are left open.
pub proof fn a_pass_is_told_as_it_ended(
    end: RecoveryEnd<Seq<u8>, Seq<char>>,
    outcome: OutcomeView,
    failure: Seq<char>,
)
    ensures
        end.failure() is None ==> (end.told_by(outcome) <==> outcome == end.outcome(seq![])),
        end.failure() matches Some(err) ==> (err.described_by(failure) ==> end.told_by(
            end.outcome(failure),
        )),
        end.told_by(outcome) ==> exists|words: Seq<char>| outcome == #[trigger] end.outcome(words),
{
}

} // verus!
