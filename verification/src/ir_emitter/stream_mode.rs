//! The mode held for the lifetime of one stream, put back when the stream ends.
//!
//! What is written back is the value that the control held, read on the pass that changed it,
//! rather than a constructed "off" value or the camera's default: a control that another program
//! left elsewhere is put back where they left it.
use vstd::prelude::*;
use crate::ir_emitter::capture_write::Hold;
use crate::ir_emitter::xu::{answers, CameraReply, CameraRequest, ControlQuery, XuError};
use crate::text::{copy_bytes, decimal, push_decimal, same_bytes};

verus! {

/// Why a restore did not put the control back.
#[derive(Clone, Debug, PartialEq, Eq)]
pub enum RestoreError {
    /// The camera did not take the read or the write.
    Camera(XuError),
    /// The record could not be retired first, so no camera request was made: the mode stays
    /// applied and the record stays claimable.
    Bookkeeping(String),
}

impl RestoreError {
    /// Whether a text describes the failure.
    pub open spec fn described_by(self, text: Seq<char>) -> bool {
        match self {
            RestoreError::Camera(err) => err.described_by(text),
            RestoreError::Bookkeeping(why) => text == why@,
        }
    }

    /// The sentence that describes the failure.
    #[must_use]
    pub fn message(&self) -> (r: String)
        ensures
            self.described_by(r@),
    {
        match self {
            RestoreError::Camera(err) => err.message(),
            RestoreError::Bookkeeping(why) => why.clone(),
        }
    }
}

/// Why nothing was restored, where the record could not be retired.
pub open spec fn not_retired(unit: u8, selector: u8, why: Seq<char>) -> Seq<char> {
    "not restoring unit"@ + decimal(unit as nat) + "/sel"@ + decimal(selector as nat)
        + ": its stream record cannot be retired ("@ + why
        + "); the mode stays applied and the record stays claimable for the next session"@
}

/// The guard over one stream's mode.
#[derive(Debug, PartialEq, Eq)]
pub struct StreamMode {
    pub unit: u8,
    pub selector: u8,
    /// What the control held before irlume touched it.
    pub restore: Vec<u8>,
    /// What this guard wrote, so that the restore can check the control still holds it.
    pub applied: Vec<u8>,
    /// True only while irlume's own change is outstanding.
    pub armed: bool,
    /// Whether the control is active for this stream, whoever set it.
    pub active: bool,
    /// What is held for as long as the guard lives.
    pub hold: Hold,
}

/// The guard over one stream's mode, as values.
pub struct ModeView {
    pub unit: u8,
    pub selector: u8,
    pub restore: Seq<u8>,
    pub applied: Seq<u8>,
    pub armed: bool,
    pub active: bool,
    pub hold: Hold,
}

impl View for StreamMode {
    type V = ModeView;

    open spec fn view(&self) -> ModeView {
        ModeView {
            unit: self.unit,
            selector: self.selector,
            restore: self.restore@,
            applied: self.applied@,
            armed: self.armed,
            active: self.active,
            hold: self.hold,
        }
    }
}

impl ModeView {
    /// A guard over nothing.
    pub open spec fn nothing() -> Self {
        ModeView {
            unit: 0,
            selector: 0,
            restore: seq![],
            applied: seq![],
            armed: false,
            active: false,
            hold: Hold::Nothing,
        }
    }

    /// The restore that an armed guard owes.
    pub open spec fn owed(self) -> Option<Restoration<Seq<u8>, Seq<char>>> {
        if self.armed {
            Some(
                Restoration {
                    unit: self.unit,
                    selector: self.selector,
                    restore: self.restore,
                    applied: self.applied,
                    recorded: self.hold == Hold::Record,
                    phase: if self.hold == Hold::Record {
                        RestorePhase::Retire
                    } else {
                        RestorePhase::Read
                    },
                },
            )
        } else {
            None
        }
    }

    /// The guard once its restore was begun.
    pub open spec fn disarmed(self) -> Self {
        if self.armed {
            ModeView { armed: false, hold: Hold::Nothing, ..self }
        } else {
            self
        }
    }
}

impl StreamMode {
    /// A guard over nothing: no control was applied, so nothing is put back.
    #[must_use]
    pub fn inert() -> (r: Self)
        ensures
            r@ == ModeView::nothing(),
    {
        let restore: Vec<u8> = Vec::new();
        let applied: Vec<u8> = Vec::new();
        assert(restore@ =~= seq![]);
        assert(applied@ =~= seq![]);
        StreamMode {
            unit: 0,
            selector: 0,
            restore,
            applied,
            armed: false,
            active: false,
            hold: Hold::Nothing,
        }
    }

    /// Whether the emitter control is active for this stream, whoever set it. Not the same as
    /// whether irlume changed it.
    #[must_use]
    pub fn lit(&self) -> (r: bool)
        ensures
            r == self@.active,
    {
        self.active
    }

    /// Whether this guard owns an outstanding change that still has to be put back. Not
    /// [`Self::lit`]: a control found already holding the wanted value is active and owns nothing.
    #[must_use]
    pub fn owns_restore(&self) -> (r: bool)
        ensures
            r == self@.armed,
    {
        self.armed
    }

    /// Begins to put the control back, where this guard owes that. The guard is disarmed first
    /// either way: repeating a write that the camera has just refused is not an option. What it
    /// held goes over to the restore, and is released when that ends.
    pub fn restore(&mut self) -> (r: Option<Restoration<Vec<u8>, String>>)
        ensures
            match r {
                Some(restoration) => old(self)@.owed() == Some(restoration@),
                None => old(self)@.owed() is None,
            },
            final(self)@ == old(self)@.disarmed(),
    {
        if !self.armed {
            return None;
        }
        let recorded: bool = self.hold == Hold::Record;
        self.armed = false;
        self.hold = Hold::Nothing;
        Some(
            Restoration {
                unit: self.unit,
                selector: self.selector,
                restore: copy_bytes(self.restore.as_slice()),
                applied: copy_bytes(self.applied.as_slice()),
                recorded,
                phase: if recorded {
                    RestorePhase::Retire
                } else {
                    RestorePhase::Read
                },
            },
        )
    }
}

// ---------------------------------------------------------------------------------------------
// Restoring
// ---------------------------------------------------------------------------------------------

/// What a restore asks for next.
#[derive(Clone, Debug, PartialEq, Eq)]
pub enum RestoreRequest<B> {
    Camera(CameraRequest<B>),
    /// Make the record incapable of authorising another restore.
    RetireRecord,
    /// Remove the retired record.
    ResolveRecord,
    /// Put the retired record back into force.
    RepromoteRecord,
}

impl View for RestoreRequest<Vec<u8>> {
    type V = RestoreRequest<Seq<u8>>;

    open spec fn view(&self) -> RestoreRequest<Seq<u8>> {
        match *self {
            RestoreRequest::Camera(request) => RestoreRequest::Camera(request@),
            RestoreRequest::RetireRecord => RestoreRequest::RetireRecord,
            RestoreRequest::ResolveRecord => RestoreRequest::ResolveRecord,
            RestoreRequest::RepromoteRecord => RestoreRequest::RepromoteRecord,
        }
    }
}

/// What came of a restore's request.
#[derive(Clone, Debug, PartialEq, Eq)]
pub enum RestoreReply<B, T> {
    Camera(CameraReply<B>),
    /// The store took the change, or why it did not.
    Stored(Option<T>),
}

impl View for RestoreReply<Vec<u8>, String> {
    type V = RestoreReply<Seq<u8>, Seq<char>>;

    open spec fn view(&self) -> RestoreReply<Seq<u8>, Seq<char>> {
        match *self {
            RestoreReply::Camera(reply) => RestoreReply::Camera(reply@),
            RestoreReply::Stored(None) => RestoreReply::Stored(None),
            RestoreReply::Stored(Some(why)) => RestoreReply::Stored(Some(why@)),
        }
    }
}

/// Whether a reply is one that a restore's request can have.
pub open spec fn restore_answers(
    request: RestoreRequest<Seq<u8>>,
    reply: RestoreReply<Seq<u8>, Seq<char>>,
) -> bool {
    match request {
        RestoreRequest::Camera(request) => reply matches RestoreReply::Camera(reply) && answers(
            request,
            reply,
        ),
        _ => reply is Stored,
    }
}

/// How a restore ended.
#[derive(Clone, Debug, PartialEq, Eq)]
pub enum RestoreEnd<T> {
    /// The control was put back.
    Restored,
    /// The control no longer held what irlume applied, so there was nothing of irlume's to undo.
    LeftAlone,
    /// The record could not be retired, so no camera request was made. Carries why.
    NotRetired(T),
    /// The camera did not take the read or the write.
    Refused(XuError),
}

/// Where a restore stands.
#[derive(Clone, Debug, PartialEq, Eq)]
pub enum RestorePhase<T> {
    Retire,
    Read,
    Write,
    Resolve { restored: bool },
    Repromote(XuError),
    Ended(RestoreEnd<T>),
}

impl View for RestorePhase<String> {
    type V = RestorePhase<Seq<char>>;

    open spec fn view(&self) -> RestorePhase<Seq<char>> {
        match *self {
            RestorePhase::Retire => RestorePhase::Retire,
            RestorePhase::Read => RestorePhase::Read,
            RestorePhase::Write => RestorePhase::Write,
            RestorePhase::Resolve { restored } => RestorePhase::Resolve { restored },
            RestorePhase::Repromote(err) => RestorePhase::Repromote(err),
            RestorePhase::Ended(RestoreEnd::Restored) => RestorePhase::Ended(RestoreEnd::Restored),
            RestorePhase::Ended(RestoreEnd::LeftAlone) => RestorePhase::Ended(
                RestoreEnd::LeftAlone,
            ),
            RestorePhase::Ended(RestoreEnd::NotRetired(why)) => RestorePhase::Ended(
                RestoreEnd::NotRetired(why@),
            ),
            RestorePhase::Ended(RestoreEnd::Refused(err)) => RestorePhase::Ended(
                RestoreEnd::Refused(err),
            ),
        }
    }
}

/// A restore in progress.
#[derive(Debug, PartialEq, Eq)]
pub struct Restoration<B, T> {
    pub unit: u8,
    pub selector: u8,
    pub restore: B,
    pub applied: B,
    /// Whether a record covers the change.
    pub recorded: bool,
    pub phase: RestorePhase<T>,
}

impl View for Restoration<Vec<u8>, String> {
    type V = Restoration<Seq<u8>, Seq<char>>;

    open spec fn view(&self) -> Restoration<Seq<u8>, Seq<char>> {
        Restoration {
            unit: self.unit,
            selector: self.selector,
            restore: self.restore@,
            applied: self.applied@,
            recorded: self.recorded,
            phase: self.phase@,
        }
    }
}

impl Restoration<Seq<u8>, Seq<char>> {
    /// What is asked for next, if anything is.
    pub open spec fn asked(self) -> Option<RestoreRequest<Seq<u8>>> {
        match self.phase {
            RestorePhase::Retire => Some(RestoreRequest::RetireRecord),
            RestorePhase::Read => Some(
                RestoreRequest::Camera(
                    CameraRequest::Read {
                        query: ControlQuery::Current,
                        len: self.applied.len() as usize,
                    },
                ),
            ),
            RestorePhase::Write => Some(RestoreRequest::Camera(CameraRequest::Write(self.restore))),
            RestorePhase::Resolve { .. } => Some(RestoreRequest::ResolveRecord),
            RestorePhase::Repromote(_) => Some(RestoreRequest::RepromoteRecord),
            RestorePhase::Ended(_) => None,
        }
    }

    /// The phase once nothing is outstanding: the record must not outlive the fact it records.
    pub open spec fn settled(self, restored: bool) -> RestorePhase<Seq<char>> {
        if self.recorded {
            RestorePhase::Resolve { restored }
        } else if restored {
            RestorePhase::Ended(RestoreEnd::Restored)
        } else {
            RestorePhase::Ended(RestoreEnd::LeftAlone)
        }
    }

    /// The phase once the camera refused: the leftover is real again, so its record goes back into
    /// force for the next session.
    pub open spec fn refused(self, err: XuError) -> RestorePhase<Seq<char>> {
        if self.recorded {
            RestorePhase::Repromote(err)
        } else {
            RestorePhase::Ended(RestoreEnd::Refused(err))
        }
    }

    /// The phase after a reply.
    pub open spec fn next_phase(self, reply: RestoreReply<Seq<u8>, Seq<char>>) -> RestorePhase<
        Seq<char>,
    > {
        match (self.phase, reply) {
            (RestorePhase::Retire, RestoreReply::Stored(None)) => RestorePhase::Read,
            (RestorePhase::Retire, RestoreReply::Stored(Some(why))) => RestorePhase::Ended(
                RestoreEnd::NotRetired(why),
            ),
            (RestorePhase::Read, RestoreReply::Camera(CameraReply::Bytes(now))) => if now
                == self.applied {
                RestorePhase::Write
            } else {
                self.settled(false)
            },
            (RestorePhase::Write, RestoreReply::Camera(CameraReply::Accepted)) => self.settled(true),
            (_, RestoreReply::Camera(CameraReply::Failed(err))) => self.refused(err),
            (RestorePhase::Resolve { restored }, RestoreReply::Stored(_)) => if restored {
                RestorePhase::Ended(RestoreEnd::Restored)
            } else {
                RestorePhase::Ended(RestoreEnd::LeftAlone)
            },
            (RestorePhase::Repromote(err), RestoreReply::Stored(_)) => RestorePhase::Ended(
                RestoreEnd::Refused(err),
            ),
            (phase, _) => phase,
        }
    }

    /// The restore after a reply.
    pub open spec fn step(self, reply: RestoreReply<Seq<u8>, Seq<char>>) -> Self {
        Restoration { phase: self.next_phase(reply), ..self }
    }
}

impl Restoration<Vec<u8>, String> {
    /// What is asked for next, if anything is.
    #[must_use]
    pub fn request(&self) -> (r: Option<RestoreRequest<Vec<u8>>>)
        ensures
            match r {
                Some(request) => self@.asked() == Some(request@),
                None => self@.asked() is None,
            },
    {
        match &self.phase {
            RestorePhase::Retire => Some(RestoreRequest::RetireRecord),
            RestorePhase::Read => Some(
                RestoreRequest::Camera(
                    CameraRequest::Read { query: ControlQuery::Current, len: self.applied.len() },
                ),
            ),
            RestorePhase::Write => Some(
                RestoreRequest::Camera(CameraRequest::write(self.restore.as_slice())),
            ),
            RestorePhase::Resolve { .. } => Some(RestoreRequest::ResolveRecord),
            RestorePhase::Repromote(_) => Some(RestoreRequest::RepromoteRecord),
            RestorePhase::Ended(_) => None,
        }
    }

    /// Takes the reply to the last request.
    pub fn advance(&mut self, reply: RestoreReply<Vec<u8>, String>)
        requires
            old(self)@.asked() is Some,
            restore_answers(old(self)@.asked()->0, reply@),
        ensures
            final(self)@ == old(self)@.step(reply@),
    {
        let reading: bool = match &self.phase {
            RestorePhase::Read => true,
            _ => false,
        };
        match reply {
            RestoreReply::Camera(CameraReply::Failed(err)) => {
                self.phase = if self.recorded {
                    RestorePhase::Repromote(err)
                } else {
                    RestorePhase::Ended(RestoreEnd::Refused(err))
                };
            },
            RestoreReply::Camera(CameraReply::Bytes(now)) => {
                if reading && same_bytes(now.as_slice(), self.applied.as_slice()) {
                    self.phase = RestorePhase::Write;
                } else {
                    self.phase = if self.recorded {
                        RestorePhase::Resolve { restored: false }
                    } else {
                        RestorePhase::Ended(RestoreEnd::LeftAlone)
                    };
                }
            },
            RestoreReply::Camera(_) => {
                self.phase = if self.recorded {
                    RestorePhase::Resolve { restored: true }
                } else {
                    RestorePhase::Ended(RestoreEnd::Restored)
                };
            },
            RestoreReply::Stored(trouble) => {
                let next: RestorePhase<String> = match (&self.phase, trouble) {
                    (RestorePhase::Retire, None) => RestorePhase::Read,
                    (RestorePhase::Retire, Some(why)) => RestorePhase::Ended(
                        RestoreEnd::NotRetired(why),
                    ),
                    (RestorePhase::Resolve { restored }, _) => if *restored {
                        RestorePhase::Ended(RestoreEnd::Restored)
                    } else {
                        RestorePhase::Ended(RestoreEnd::LeftAlone)
                    },
                    (RestorePhase::Repromote(err), _) => RestorePhase::Ended(
                        RestoreEnd::Refused(*err),
                    ),
                    (_, _) => RestorePhase::Read,
                };
                self.phase = next;
            },
        }
    }

    /// What came of the restore, or `None` while it still asks.
    #[must_use]
    pub fn outcome(&self) -> (r: Option<Result<(), RestoreError>>)
        ensures
            match self@.phase {
                RestorePhase::Ended(RestoreEnd::Restored)
                | RestorePhase::Ended(RestoreEnd::LeftAlone) => r == Some(
                    Ok::<(), RestoreError>(()),
                ),
                RestorePhase::Ended(RestoreEnd::NotRetired(why)) => r matches Some(
                    Err(RestoreError::Bookkeeping(text)),
                ) && text@ == not_retired(self@.unit, self@.selector, why),
                RestorePhase::Ended(RestoreEnd::Refused(err)) => r == Some(
                    Err::<(), RestoreError>(RestoreError::Camera(err)),
                ),
                _ => r is None,
            },
    {
        match &self.phase {
            RestorePhase::Ended(RestoreEnd::Restored) => Some(Ok(())),
            RestorePhase::Ended(RestoreEnd::LeftAlone) => Some(Ok(())),
            RestorePhase::Ended(RestoreEnd::NotRetired(why)) => {
                let mut s: String = "not restoring unit".to_owned();
                push_decimal(&mut s, self.unit as u64);
                s.append("/sel");
                push_decimal(&mut s, self.selector as u64);
                s.append(": its stream record cannot be retired (");
                s.append(why.as_str());
                s.append(
                    "); the mode stays applied and the record stays claimable for the next session",
                );
                Some(Err(RestoreError::Bookkeeping(s)))
            },
            RestorePhase::Ended(RestoreEnd::Refused(err)) => Some(Err(RestoreError::Camera(*err))),
            _ => None,
        }
    }
}

// ---------------------------------------------------------------------------------------------
// Laws
// ---------------------------------------------------------------------------------------------

impl Restoration<Seq<u8>, Seq<char>> {
    /// The restore after replies, the first of them first.
    pub open spec fn after_all(self, replies: Seq<RestoreReply<Seq<u8>, Seq<char>>>) -> Self
        decreases replies.len(),
    {
        if replies.len() == 0 {
            self
        } else {
            self.after_all(replies.drop_last()).step(replies.last())
        }
    }

    /// How many requests a restore still makes at most.
    pub open spec fn left(self) -> int {
        match self.phase {
            RestorePhase::Retire => 4,
            RestorePhase::Read => 3,
            RestorePhase::Write => 2,
            RestorePhase::Resolve { .. } => 1,
            RestorePhase::Repromote(_) => 1,
            RestorePhase::Ended(_) => 0,
        }
    }

    /// Whether the next request changes the camera.
    pub open spec fn writes(self) -> bool {
        self.asked() matches Some(RestoreRequest::Camera(CameraRequest::Write(_)))
    }

    /// Whether each reply of a run is one that the request before it can have.
    pub open spec fn proper_run(self, replies: Seq<RestoreReply<Seq<u8>, Seq<char>>>) -> bool {
        forall|i: int|
            0 <= i < replies.len() ==> {
                let before = self.after_all(#[trigger] replies.take(i));
                before.asked() is Some && restore_answers(before.asked()->0, replies[i])
            }
    }
}

proof fn run_keeps_the_values(
    start: Restoration<Seq<u8>, Seq<char>>,
    replies: Seq<RestoreReply<Seq<u8>, Seq<char>>>,
)
    ensures
        start.after_all(replies).restore == start.restore,
        start.after_all(replies).applied == start.applied,
        start.after_all(replies).recorded == start.recorded,
    decreases replies.len(),
{
    if replies.len() > 0 {
        run_keeps_the_values(start, replies.drop_last());
    }
}

/// Each reply brings a restore nearer to its end, so it makes at most four requests and changes
/// the camera at most once.
pub proof fn restore_moves_on(
    restoration: Restoration<Seq<u8>, Seq<char>>,
    reply: RestoreReply<Seq<u8>, Seq<char>>,
)
    requires
        restoration.asked() is Some,
        restore_answers(restoration.asked()->0, reply),
    ensures
        restoration.step(reply).left() < restoration.left(),
        restoration.writes() ==> !restoration.step(reply).writes(),
{
}

/// A guard's restore writes exactly the bytes that were displaced, and only right after the
/// control was read to hold what the guard applied; where a record covers the change, that record
/// was retired before any request went to the camera.
pub proof fn a_restore_undoes_only_its_own_change(
    mode: ModeView,
    start: Restoration<Seq<u8>, Seq<char>>,
    replies: Seq<RestoreReply<Seq<u8>, Seq<char>>>,
    value: Seq<u8>,
)
    requires
        mode.owed() == Some(start),
        start.proper_run(replies),
        start.after_all(replies).asked() == Some(
            RestoreRequest::Camera(CameraRequest::Write(value)),
        ),
    ensures
        value == mode.restore,
        replies.len() >= 1,
        replies.last() == RestoreReply::<Seq<u8>, Seq<char>>::Camera(
            CameraReply::Bytes(mode.applied),
        ),
        mode.hold == Hold::Record ==> replies[0] == RestoreReply::<Seq<u8>, Seq<char>>::Stored(
            None,
        ),
{
    run_keeps_the_values(start, replies);
    let r1 = replies.drop_last();
    let n = replies.len() as int;
    assert(replies.take(n - 1) =~= r1);
    run_keeps_the_values(start, r1);
    if r1.len() > 0 {
        let r2 = r1.drop_last();
        assert(replies.take(n - 2) =~= r2);
        run_keeps_the_values(start, r2);
        if r2.len() > 0 {
            assert(replies.take(n - 3) =~= r2.drop_last());
        }
    }
}

/// Where the record cannot be retired, no request goes to the camera at all.
pub proof fn an_unretired_record_blocks_the_restore(mode: ModeView, why: Seq<char>)
    requires
        mode.armed,
        mode.hold == Hold::Record,
    ensures
        mode.owed()->0.asked() == Some(RestoreRequest::<Seq<u8>>::RetireRecord),
        mode.owed()->0.step(RestoreReply::Stored(Some(why))).asked() is None,
{
}

/// A control that moved is left alone, and a camera that refuses leaves a recorded change
/// claimable: after either reply the camera is asked for nothing more.
pub proof fn the_camera_is_not_pressed(
    restoration: Restoration<Seq<u8>, Seq<char>>,
    reply: CameraReply<Seq<u8>>,
)
    requires
        restoration.phase == RestorePhase::<Seq<char>>::Read || restoration.phase
            == RestorePhase::<Seq<char>>::Write,
        reply is Failed || (restoration.phase == RestorePhase::<Seq<char>>::Read && reply
            != CameraReply::Bytes(restoration.applied) && reply is Bytes),
    ensures
        !(restoration.step(RestoreReply::Camera(reply)).asked() matches Some(
            RestoreRequest::Camera(_),
        )),
        reply is Failed && restoration.recorded ==> restoration.step(
            RestoreReply::Camera(reply),
        ).asked() == Some(RestoreRequest::<Seq<u8>>::RepromoteRecord),
{
}

/// Restoring twice restores once: a guard whose restore was begun owes nothing more.
pub proof fn a_second_restore_owes_nothing(mode: ModeView)
    ensures
        mode.disarmed().owed() is None,
        mode.disarmed().active == mode.active,
{
}

/// An armed guard puts its change back: it retires the record where it holds one, reads the control,
/// writes what was displaced where the control still holds what was applied, and removes the record.
pub proof fn an_armed_guard_puts_its_change_back(mode: ModeView, resolved: Option<Seq<char>>)
    requires
        mode.armed,
    ensures
        ({
            let taken = RestoreReply::<Seq<u8>, Seq<char>>::Camera(CameraReply::Accepted);
            let held = RestoreReply::<Seq<u8>, Seq<char>>::Camera(CameraReply::Bytes(mode.applied));
            let removed = RestoreReply::<Seq<u8>, Seq<char>>::Stored(resolved);
            let r0 = mode.owed()->0;
            let r1 = if mode.hold == Hold::Record {
                r0.step(RestoreReply::Stored(None))
            } else {
                r0
            };
            let r2 = r1.step(held);
            let r3 = r2.step(taken);
            &&& mode.owed() is Some
            &&& r0.unit == mode.unit && r0.selector == mode.selector
            &&& mode.hold == Hold::Record ==> r0.asked() == Some(
                RestoreRequest::<Seq<u8>>::RetireRecord,
            )
            &&& r1.asked() == Some(
                RestoreRequest::Camera(
                    CameraRequest::<Seq<u8>>::Read {
                        query: ControlQuery::Current,
                        len: mode.applied.len() as usize,
                    },
                ),
            )
            &&& r2.asked() == Some(RestoreRequest::Camera(CameraRequest::Write(mode.restore)))
            &&& mode.hold == Hold::Record ==> r3.asked() == Some(
                RestoreRequest::<Seq<u8>>::ResolveRecord,
            ) && r3.step(removed).phase == RestorePhase::<Seq<char>>::Ended(RestoreEnd::Restored)
            &&& mode.hold != Hold::Record ==> r3.phase == RestorePhase::<Seq<char>>::Ended(
                RestoreEnd::Restored,
            )
        }),
{
}

/// A control that no longer holds what was applied is left to whoever set it: nothing is written,
/// and the record, which is of nothing any more, is removed.
pub proof fn a_control_that_was_taken_over_is_left_alone(
    mode: ModeView,
    now: Seq<u8>,
    resolved: Option<Seq<char>>,
)
    requires
        mode.armed,
        now != mode.applied,
    ensures
        ({
            let r1 = if mode.hold == Hold::Record {
                mode.owed()->0.step(RestoreReply::Stored(None))
            } else {
                mode.owed()->0
            };
            let r2 = r1.step(RestoreReply::Camera(CameraReply::Bytes(now)));
            &&& mode.hold == Hold::Record ==> r2.asked() == Some(
                RestoreRequest::<Seq<u8>>::ResolveRecord,
            ) && r2.step(RestoreReply::Stored(resolved)).phase == RestorePhase::<Seq<char>>::Ended(
                RestoreEnd::LeftAlone,
            )
            &&& mode.hold != Hold::Record ==> r2.phase == RestorePhase::<Seq<char>>::Ended(
                RestoreEnd::LeftAlone,
            )
        }),
{
}

/// A camera that does not take the read or the write leaves the change where it is: its record goes
/// back into force, and the failure is what the restore ends with.
pub proof fn a_failed_restore_keeps_its_record_in_force(
    restoration: Restoration<Seq<u8>, Seq<char>>,
    err: XuError,
    stored: Option<Seq<char>>,
)
    requires
        restoration.phase is Read || restoration.phase is Write,
    ensures
        ({
            let next = restoration.step(RestoreReply::Camera(CameraReply::Failed(err)));
            let end = RestorePhase::<Seq<char>>::Ended(RestoreEnd::Refused(err));
            &&& restoration.recorded ==> next.asked() == Some(
                RestoreRequest::<Seq<u8>>::RepromoteRecord,
            ) && next.step(RestoreReply::Stored(stored)).phase == end
            &&& !restoration.recorded ==> next.phase == end
        }),
{
}

/// A guard that is not armed owes nothing, and one whose restore was begun keeps what it says of the
/// stream and nothing else.
pub proof fn a_begun_restore_disarms_the_guard(mode: ModeView)
    ensures
        mode.owed() is Some <==> mode.armed,
        !mode.disarmed().armed,
        mode.disarmed().active == mode.active,
        mode.armed ==> mode.disarmed().hold == Hold::Nothing,
        mode.disarmed().unit == mode.unit && mode.disarmed().selector == mode.selector,
        mode.disarmed().applied == mode.applied && mode.disarmed().restore == mode.restore,
{
}

} // verus!
