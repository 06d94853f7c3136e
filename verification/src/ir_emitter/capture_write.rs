//! The one tail that every capture write goes through: read what the control holds, and write only
//! when it differs.
//!
//! The read and the decision are one pass, so that the value which is later put back is the value
//! that the write displaced. Round the write sits a leftover record, in two phases: it is on disk
//! before the change, and confirmed once the camera accepts, because a record of a write that
//! never happened must not authorise anything. Recording is best-effort: trouble with the store
//! does not turn the emitter off, but a live owner or an unresolved record does.
use vstd::prelude::*;
use crate::ir_emitter::xu::{answers, CameraReply, CameraRequest, ControlQuery, XuError};
use crate::text::{copy_bytes, same_bytes};

verus! {

/// What an apply path did to the control, which is not the same question as whether the payload
/// was accepted.
#[derive(Clone, Copy, Debug, PartialEq, Eq, Structural)]
pub enum Applied {
    /// A change went out and the camera took it.
    Wrote,
    /// The control already held the payload, so nothing was sent. The value is active, but it is
    /// another writer's, and not irlume's to undo.
    AlreadyHeld,
    /// Nothing reached the control: a check refused, or the camera rejected the write.
    Nothing,
}

/// What is held for the stream's lifetime.
#[derive(Clone, Copy, Debug, PartialEq, Eq, Structural)]
pub enum Hold {
    Nothing,
    /// The bare stream lock.
    Lock,
    /// The leftover record, which holds the stream lock.
    Record,
}

/// What a capture write did, and what its one read answered.
#[derive(Clone, Debug, PartialEq, Eq)]
pub struct CaptureWrite<B> {
    pub outcome: Applied,
    /// What the control held immediately before the decision to write.
    pub current: B,
    /// What is held: a record where a recorded write was made, the bare lock where a write could
    /// not be recorded or where the control already held the value.
    pub hold: Hold,
}

impl View for CaptureWrite<Vec<u8>> {
    type V = CaptureWrite<Seq<u8>>;

    open spec fn view(&self) -> CaptureWrite<Seq<u8>> {
        CaptureWrite { outcome: self.outcome, current: self.current@, hold: self.hold }
    }
}

impl CaptureWrite<Seq<u8>> {
    /// Nothing was read and nothing was sent.
    pub open spec fn nothing() -> Self {
        CaptureWrite { outcome: Applied::Nothing, current: seq![], hold: Hold::Nothing }
    }
}

impl CaptureWrite<Vec<u8>> {
    /// Nothing was read and nothing was sent: a check refused before the control was consulted.
    #[must_use]
    pub fn refused() -> (r: Self)
        ensures
            r@ == CaptureWrite::<Seq<u8>>::nothing(),
    {
        let current: Vec<u8> = Vec::new();
        assert(current@ =~= seq![]);
        CaptureWrite { outcome: Applied::Nothing, current, hold: Hold::Nothing }
    }
}

/// What became of the attempt to take a camera's stream lock.
#[derive(Clone, Copy, Debug, PartialEq, Eq, Structural)]
pub enum LockReply {
    Taken,
    /// A live guard owns this camera.
    Busy,
    /// Machine trouble; nobody contests the camera.
    Unavailable,
}

/// What became of the attempt to save a leftover record under the lock.
#[derive(Clone, Copy, Debug, PartialEq, Eq, Structural)]
pub enum SaveReply {
    Recorded,
    /// A record of a change that may still be live would be destroyed.
    Outstanding,
    /// A record that must not be reasoned past would be destroyed.
    Protected,
    /// Machine trouble; the lock is still held.
    Unavailable,
}

/// What a capture asks for next: of the camera, or of the store of leftover records.
#[derive(Clone, Debug, PartialEq, Eq)]
pub enum CaptureRequest<B> {
    Camera(CameraRequest<B>),
    /// Take the camera's stream lock.
    AcquireLock,
    /// Save a record of the change from `displaced` to `applied`.
    SaveRecord { applied: B, displaced: B },
    /// Mark the saved record as one of a change that happened.
    ConfirmRecord,
    /// Remove the saved record.
    ResolveRecord,
}

impl View for CaptureRequest<Vec<u8>> {
    type V = CaptureRequest<Seq<u8>>;

    open spec fn view(&self) -> CaptureRequest<Seq<u8>> {
        match *self {
            CaptureRequest::Camera(request) => CaptureRequest::Camera(request@),
            CaptureRequest::AcquireLock => CaptureRequest::AcquireLock,
            CaptureRequest::SaveRecord { applied, displaced } => CaptureRequest::SaveRecord {
                applied: applied@,
                displaced: displaced@,
            },
            CaptureRequest::ConfirmRecord => CaptureRequest::ConfirmRecord,
            CaptureRequest::ResolveRecord => CaptureRequest::ResolveRecord,
        }
    }
}

/// What came of a capture's request.
#[derive(Clone, Debug, PartialEq, Eq)]
pub enum CaptureReply<B> {
    Camera(CameraReply<B>),
    Lock(LockReply),
    Save(SaveReply),
    /// Whether the store took the change to a saved record.
    Stored(bool),
}

impl View for CaptureReply<Vec<u8>> {
    type V = CaptureReply<Seq<u8>>;

    open spec fn view(&self) -> CaptureReply<Seq<u8>> {
        match *self {
            CaptureReply::Camera(reply) => CaptureReply::Camera(reply@),
            CaptureReply::Lock(reply) => CaptureReply::Lock(reply),
            CaptureReply::Save(reply) => CaptureReply::Save(reply),
            CaptureReply::Stored(taken) => CaptureReply::Stored(taken),
        }
    }
}

/// Whether a reply is one that a capture's request can have.
pub open spec fn replies_to(
    request: CaptureRequest<Seq<u8>>,
    reply: CaptureReply<Seq<u8>>,
) -> bool {
    match request {
        CaptureRequest::Camera(request) => reply matches CaptureReply::Camera(reply) && answers(
            request,
            reply,
        ),
        CaptureRequest::AcquireLock => reply is Lock,
        CaptureRequest::SaveRecord { .. } => reply is Save,
        CaptureRequest::ConfirmRecord | CaptureRequest::ResolveRecord => reply is Stored,
    }
}

/// Where a capture write stands.
#[derive(Clone, Debug, PartialEq, Eq)]
pub enum WritePhase<B> {
    Acquire,
    Read { locked: bool },
    Save { current: B },
    Write { current: B, hold: Hold },
    Confirm { current: B },
    Discard { current: B },
    Finished(CaptureWrite<B>),
    /// The control could not be read, so there is no value to put back and nothing was written.
    Failed(XuError),
}

impl View for WritePhase<Vec<u8>> {
    type V = WritePhase<Seq<u8>>;

    open spec fn view(&self) -> WritePhase<Seq<u8>> {
        match *self {
            WritePhase::Acquire => WritePhase::Acquire,
            WritePhase::Read { locked } => WritePhase::Read { locked },
            WritePhase::Save { current } => WritePhase::Save { current: current@ },
            WritePhase::Write { current, hold } => WritePhase::Write { current: current@, hold },
            WritePhase::Confirm { current } => WritePhase::Confirm { current: current@ },
            WritePhase::Discard { current } => WritePhase::Discard { current: current@ },
            WritePhase::Finished(write) => WritePhase::Finished(write@),
            WritePhase::Failed(err) => WritePhase::Failed(err),
        }
    }
}

/// A write of `wanted` to a control, where the control does not hold it yet.
#[derive(Clone, Debug, PartialEq, Eq)]
pub struct CaptureWriter<B> {
    pub wanted: B,
    pub phase: WritePhase<B>,
}

impl View for CaptureWriter<Vec<u8>> {
    type V = CaptureWriter<Seq<u8>>;

    open spec fn view(&self) -> CaptureWriter<Seq<u8>> {
        CaptureWriter { wanted: self.wanted@, phase: self.phase@ }
    }
}

impl CaptureWriter<Seq<u8>> {
    /// The write before the first request.
    pub open spec fn start(wanted: Seq<u8>) -> Self {
        CaptureWriter { wanted, phase: WritePhase::Acquire }
    }

    /// What is asked for next, if anything is.
    pub open spec fn asked(self) -> Option<CaptureRequest<Seq<u8>>> {
        match self.phase {
            WritePhase::Acquire => Some(CaptureRequest::AcquireLock),
            WritePhase::Read { .. } => Some(
                CaptureRequest::Camera(
                    CameraRequest::Read {
                        query: ControlQuery::Current,
                        len: self.wanted.len() as usize,
                    },
                ),
            ),
            WritePhase::Save { current } => Some(
                CaptureRequest::SaveRecord { applied: self.wanted, displaced: current },
            ),
            WritePhase::Write { .. } => Some(
                CaptureRequest::Camera(CameraRequest::Write(self.wanted)),
            ),
            WritePhase::Confirm { .. } => Some(CaptureRequest::ConfirmRecord),
            WritePhase::Discard { .. } => Some(CaptureRequest::ResolveRecord),
            WritePhase::Finished(_) | WritePhase::Failed(_) => None,
        }
    }

    /// The phase after a reply.
    pub open spec fn next_phase(self, reply: CaptureReply<Seq<u8>>) -> WritePhase<Seq<u8>> {
        match (self.phase, reply) {
            (WritePhase::Acquire, CaptureReply::Lock(lock)) => match lock {
                LockReply::Taken => WritePhase::Read { locked: true },
                LockReply::Busy => WritePhase::Finished(CaptureWrite::<Seq<u8>>::nothing()),
                LockReply::Unavailable => WritePhase::Read { locked: false },
            },
            (
                WritePhase::Read { locked },
                CaptureReply::Camera(CameraReply::Bytes(current)),
            ) => if current == self.wanted {
                WritePhase::Finished(
                    CaptureWrite {
                        outcome: Applied::AlreadyHeld,
                        current,
                        hold: if locked {
                            Hold::Lock
                        } else {
                            Hold::Nothing
                        },
                    },
                )
            } else if locked {
                WritePhase::Save { current }
            } else {
                WritePhase::Write { current, hold: Hold::Nothing }
            },
            (WritePhase::Read { .. }, CaptureReply::Camera(CameraReply::Failed(err))) => {
                WritePhase::Failed(err)
            },
            (WritePhase::Save { current }, CaptureReply::Save(save)) => match save {
                SaveReply::Recorded => WritePhase::Write { current, hold: Hold::Record },
                SaveReply::Outstanding | SaveReply::Protected => WritePhase::Finished(
                    CaptureWrite::<Seq<u8>>::nothing(),
                ),
                SaveReply::Unavailable => WritePhase::Write { current, hold: Hold::Lock },
            },
            (WritePhase::Write { current, hold }, CaptureReply::Camera(reply)) => if reply
                == CameraReply::<Seq<u8>>::Accepted {
                if hold == Hold::Record {
                    WritePhase::Confirm { current }
                } else {
                    WritePhase::Finished(CaptureWrite { outcome: Applied::Wrote, current, hold })
                }
            } else if hold == Hold::Record {
                WritePhase::Discard { current }
            } else {
                WritePhase::Finished(
                    CaptureWrite { outcome: Applied::Nothing, current, hold: Hold::Nothing },
                )
            },
            (WritePhase::Confirm { current }, _) => WritePhase::Finished(
                CaptureWrite { outcome: Applied::Wrote, current, hold: Hold::Record },
            ),
            (WritePhase::Discard { current }, _) => WritePhase::Finished(
                CaptureWrite { outcome: Applied::Nothing, current, hold: Hold::Nothing },
            ),
            (phase, _) => phase,
        }
    }

    /// The write after a reply.
    pub open spec fn step(self, reply: CaptureReply<Seq<u8>>) -> Self {
        CaptureWriter { phase: self.next_phase(reply), ..self }
    }

    /// What every write keeps: what it would displace is as long as what it writes, and differs.
    pub open spec fn well_formed(self) -> bool {
        &&& self.wanted.len() <= usize::MAX
        &&& match self.phase {
            WritePhase::Save { current } => current.len() == self.wanted.len() && current
                != self.wanted,
            WritePhase::Write { current, hold } => current.len() == self.wanted.len() && current
                != self.wanted,
            WritePhase::Confirm { current } => current.len() == self.wanted.len() && current
                != self.wanted,
            WritePhase::Discard { current } => current.len() == self.wanted.len() && current
                != self.wanted,
            WritePhase::Finished(write) => match write.outcome {
                Applied::Wrote => write.current.len() == self.wanted.len() && write.current
                    != self.wanted,
                Applied::AlreadyHeld => write.current == self.wanted && write.hold != Hold::Record,
                Applied::Nothing => write.hold == Hold::Nothing,
            },
            _ => true,
        }
    }
}

impl CaptureWriter<Vec<u8>> {
    /// A write of the wanted bytes.
    #[must_use]
    pub fn new(wanted: Vec<u8>) -> (r: Self)
        ensures
            r@ == CaptureWriter::<Seq<u8>>::start(wanted@),
            r@.well_formed(),
    {
        let length: usize = wanted.len();
        assert(wanted@.len() == length);
        CaptureWriter { wanted, phase: WritePhase::Acquire }
    }

    /// What is asked for next, if anything is.
    #[must_use]
    pub fn request(&self) -> (r: Option<CaptureRequest<Vec<u8>>>)
        ensures
            match r {
                Some(request) => self@.asked() == Some(request@),
                None => self@.asked() is None,
            },
    {
        match &self.phase {
            WritePhase::Acquire => Some(CaptureRequest::AcquireLock),
            WritePhase::Read { .. } => Some(
                CaptureRequest::Camera(
                    CameraRequest::Read { query: ControlQuery::Current, len: self.wanted.len() },
                ),
            ),
            WritePhase::Save { current } => Some(
                CaptureRequest::SaveRecord {
                    applied: copy_bytes(self.wanted.as_slice()),
                    displaced: copy_bytes(current.as_slice()),
                },
            ),
            WritePhase::Write { .. } => Some(
                CaptureRequest::Camera(CameraRequest::write(self.wanted.as_slice())),
            ),
            WritePhase::Confirm { .. } => Some(CaptureRequest::ConfirmRecord),
            WritePhase::Discard { .. } => Some(CaptureRequest::ResolveRecord),
            WritePhase::Finished(_) => None,
            WritePhase::Failed(_) => None,
        }
    }

    /// Takes the reply to the last request.
    #[must_use]
    pub fn advance(self, reply: CaptureReply<Vec<u8>>) -> (r: Self)
        requires
            self@.asked() is Some,
            replies_to(self@.asked()->0, reply@),
        ensures
            r@ == self@.step(reply@),
            self@.well_formed() ==> r@.well_formed(),
    {
        let wanted: Vec<u8> = self.wanted;
        let phase: WritePhase<Vec<u8>> = match (self.phase, reply) {
            (WritePhase::Acquire, CaptureReply::Lock(lock)) => match lock {
                LockReply::Taken => WritePhase::Read { locked: true },
                LockReply::Busy => WritePhase::Finished(CaptureWrite::refused()),
                LockReply::Unavailable => WritePhase::Read { locked: false },
            },
            (WritePhase::Read { locked }, CaptureReply::Camera(reply)) => match reply {
                CameraReply::Bytes(current) => {
                    if same_bytes(current.as_slice(), wanted.as_slice()) {
                        WritePhase::Finished(
                            CaptureWrite {
                                outcome: Applied::AlreadyHeld,
                                current,
                                hold: if locked {
                                    Hold::Lock
                                } else {
                                    Hold::Nothing
                                },
                            },
                        )
                    } else if locked {
                        WritePhase::Save { current }
                    } else {
                        WritePhase::Write { current, hold: Hold::Nothing }
                    }
                },
                CameraReply::Failed(err) => WritePhase::Failed(err),
                _ => WritePhase::Read { locked },
            },
            (WritePhase::Save { current }, CaptureReply::Save(save)) => match save {
                SaveReply::Recorded => WritePhase::Write { current, hold: Hold::Record },
                SaveReply::Outstanding => WritePhase::Finished(CaptureWrite::refused()),
                SaveReply::Protected => WritePhase::Finished(CaptureWrite::refused()),
                SaveReply::Unavailable => WritePhase::Write { current, hold: Hold::Lock },
            },
            (WritePhase::Write { current, hold }, CaptureReply::Camera(reply)) => {
                let accepted: bool = match reply {
                    CameraReply::Accepted => true,
                    _ => false,
                };
                let recorded: bool = hold == Hold::Record;
                if accepted && recorded {
                    WritePhase::Confirm { current }
                } else if accepted {
                    WritePhase::Finished(CaptureWrite { outcome: Applied::Wrote, current, hold })
                } else if recorded {
                    WritePhase::Discard { current }
                } else {
                    WritePhase::Finished(
                        CaptureWrite { outcome: Applied::Nothing, current, hold: Hold::Nothing },
                    )
                }
            },
            (WritePhase::Confirm { current }, _) => WritePhase::Finished(
                CaptureWrite { outcome: Applied::Wrote, current, hold: Hold::Record },
            ),
            (WritePhase::Discard { current }, _) => WritePhase::Finished(
                CaptureWrite { outcome: Applied::Nothing, current, hold: Hold::Nothing },
            ),
            (phase, _) => phase,
        };
        CaptureWriter { wanted, phase }
    }
}

// ---------------------------------------------------------------------------------------------
// Laws
// ---------------------------------------------------------------------------------------------

impl CaptureWriter<Seq<u8>> {
    /// The write after replies, the first of them first.
    pub open spec fn after_all(self, replies: Seq<CaptureReply<Seq<u8>>>) -> Self
        decreases replies.len(),
    {
        if replies.len() == 0 {
            self
        } else {
            self.after_all(replies.drop_last()).step(replies.last())
        }
    }

    /// How many requests a write still makes at most.
    pub open spec fn left(self) -> int {
        match self.phase {
            WritePhase::Acquire => 5,
            WritePhase::Read { .. } => 4,
            WritePhase::Save { .. } => 3,
            WritePhase::Write { .. } => 2,
            WritePhase::Confirm { .. } => 1,
            WritePhase::Discard { .. } => 1,
            WritePhase::Finished(_) => 0,
            WritePhase::Failed(_) => 0,
        }
    }

    /// Whether the next request changes the camera.
    pub open spec fn writes(self) -> bool {
        self.asked() matches Some(CaptureRequest::Camera(CameraRequest::Write(_)))
    }
}

/// Whether each reply of a run is one that the request before it can have.
pub open spec fn proper_run(wanted: Seq<u8>, replies: Seq<CaptureReply<Seq<u8>>>) -> bool {
    forall|i: int|
        0 <= i < replies.len() ==> {
            let before = CaptureWriter::start(wanted).after_all(#[trigger] replies.take(i));
            before.asked() is Some && replies_to(before.asked()->0, replies[i])
        }
}

proof fn shorter_run(wanted: Seq<u8>, replies: Seq<CaptureReply<Seq<u8>>>)
    requires
        proper_run(wanted, replies),
        replies.len() > 0,
    ensures
        proper_run(wanted, replies.drop_last()),
        CaptureWriter::start(wanted).after_all(replies.drop_last()).asked() is Some,
        replies_to(
            CaptureWriter::start(wanted).after_all(replies.drop_last()).asked()->0,
            replies.last(),
        ),
{
    let shorter = replies.drop_last();
    assert(replies.take(shorter.len() as int) =~= shorter);
    assert forall|i: int| 0 <= i < shorter.len() implies {
        let before = CaptureWriter::start(wanted).after_all(#[trigger] shorter.take(i));
        before.asked() is Some && replies_to(before.asked()->0, shorter[i])
    } by {
        assert(replies.take(i) =~= shorter.take(i));
    }
}

/// A write keeps what it keeps, over any run.
pub proof fn writer_stays_well_formed(wanted: Seq<u8>, replies: Seq<CaptureReply<Seq<u8>>>)
    requires
        wanted.len() <= usize::MAX,
        proper_run(wanted, replies),
    ensures
        CaptureWriter::start(wanted).after_all(replies).well_formed(),
        CaptureWriter::start(wanted).after_all(replies).wanted == wanted,
        CaptureWriter::start(wanted).after_all(replies).left() <= 5 - replies.len(),
    decreases replies.len(),
{
    if replies.len() > 0 {
        shorter_run(wanted, replies);
        writer_stays_well_formed(wanted, replies.drop_last());
    }
}

/// A capture pass changes the camera at most once: after the request that does, no other does.
pub proof fn at_most_one_write(
    wanted: Seq<u8>,
    replies: Seq<CaptureReply<Seq<u8>>>,
    i: int,
    j: int,
)
    requires
        wanted.len() <= usize::MAX,
        proper_run(wanted, replies),
        0 <= i < j <= replies.len(),
        CaptureWriter::start(wanted).after_all(replies.take(i)).writes(),
    ensures
        !CaptureWriter::start(wanted).after_all(replies.take(j)).writes(),
        CaptureWriter::start(wanted).after_all(replies.take(j)).left() < 2,
    decreases j,
{
    let shorter = replies.take(j);
    assert(shorter.drop_last() =~= replies.take(j - 1));
    let before = CaptureWriter::start(wanted).after_all(replies.take(j - 1));
    assert(before.asked() is Some && replies_to(before.asked()->0, replies[j - 1]));
    if i < j - 1 {
        at_most_one_write(wanted, replies, i, j - 1);
    }
}

/// What a capture pass is about to write is what was wanted, and the control was just read to hold
/// something else; where the stream lock was taken, the store has been asked to record exactly
/// that change first.
pub proof fn a_write_is_read_and_recorded_first(
    wanted: Seq<u8>,
    replies: Seq<CaptureReply<Seq<u8>>>,
)
    requires
        wanted.len() <= usize::MAX,
        proper_run(wanted, replies),
        CaptureWriter::start(wanted).after_all(replies).writes(),
    ensures
        replies.len() >= 2,
        replies[0] == CaptureReply::<Seq<u8>>::Lock(LockReply::Taken) || replies[0]
            == CaptureReply::<Seq<u8>>::Lock(LockReply::Unavailable),
        replies[1] matches CaptureReply::Camera(CameraReply::Bytes(current)) && current != wanted,
        replies[0] == CaptureReply::<Seq<u8>>::Lock(LockReply::Taken) ==> replies.len() == 3 && (
        replies[2] == CaptureReply::<Seq<u8>>::Save(SaveReply::Recorded) || replies[2]
            == CaptureReply::<Seq<u8>>::Save(SaveReply::Unavailable)),
{
    let start = CaptureWriter::start(wanted);
    writer_stays_well_formed(wanted, replies);
    shorter_run(wanted, replies);
    let r1 = replies.drop_last();
    shorter_run(wanted, r1);
    let r2 = r1.drop_last();
    if r2.len() > 0 {
        shorter_run(wanted, r2);
        let r3 = r2.drop_last();
        if r3.len() > 0 {
            shorter_run(wanted, r3);
            writer_stays_well_formed(wanted, r3.drop_last());
        }
    }
}

/// A camera that a live guard owns is asked for nothing, and nothing of it is changed.
pub proof fn a_contested_camera_is_left_alone(
    wanted: Seq<u8>,
    replies: Seq<CaptureReply<Seq<u8>>>,
)
    requires
        proper_run(wanted, replies),
        replies.len() > 0,
        replies[0] == CaptureReply::<Seq<u8>>::Lock(LockReply::Busy),
    ensures
        replies.len() == 1,
        CaptureWriter::start(wanted).after_all(replies).phase == WritePhase::Finished(
            CaptureWrite::<Seq<u8>>::nothing(),
        ),
{
    let start = CaptureWriter::start(wanted);
    let one = replies.take(1);
    assert(one.drop_last() =~= Seq::<CaptureReply<Seq<u8>>>::empty());
    assert(start.after_all(one.drop_last()) == start);
    assert(start.after_all(one).phase == WritePhase::Finished(CaptureWrite::<Seq<u8>>::nothing()));
    if replies.len() > 1 {
        assert(start.after_all(replies.take(1)).asked() is Some);
    } else {
        assert(one =~= replies);
    }
}

/// A recorded write is confirmed after the camera took it, and a write that the camera rejected
/// leaves no record: each is the next request, and the last.
pub proof fn a_record_follows_the_camera(
    writer: CaptureWriter<Seq<u8>>,
    current: Seq<u8>,
    reply: CameraReply<Seq<u8>>,
    stored: bool,
)
    requires
        writer.phase == (WritePhase::Write { current, hold: Hold::Record }),
        answers(CameraRequest::Write(writer.wanted), reply),
    ensures
        writer.step(CaptureReply::Camera(reply)).asked() == Some(
            if reply is Accepted {
                CaptureRequest::<Seq<u8>>::ConfirmRecord
            } else {
                CaptureRequest::<Seq<u8>>::ResolveRecord
            },
        ),
        writer.step(CaptureReply::Camera(reply)).step(CaptureReply::Stored(stored)).phase
            == WritePhase::Finished(
            CaptureWrite {
                outcome: if reply is Accepted {
                    Applied::Wrote
                } else {
                    Applied::Nothing
                },
                current,
                hold: if reply is Accepted {
                    Hold::Record
                } else {
                    Hold::Nothing
                },
            },
        ),
{
}

/// A camera that holds something else is changed: its lock is taken, it is read, the change is
/// recorded, the wanted bytes are written and the record is confirmed; and what the pass came to is
/// a change that displaced what was read, with the record held.
pub proof fn a_free_camera_is_changed_under_a_record(
    wanted: Seq<u8>,
    current: Seq<u8>,
    confirmed: bool,
)
    requires
        current != wanted,
    ensures
        ({
            let w0 = CaptureWriter::<Seq<u8>>::start(wanted);
            let w1 = w0.step(CaptureReply::Lock(LockReply::Taken));
            let w2 = w1.step(CaptureReply::Camera(CameraReply::Bytes(current)));
            let w3 = w2.step(CaptureReply::Save(SaveReply::Recorded));
            let w4 = w3.step(CaptureReply::Camera(CameraReply::Accepted));
            let w5 = w4.step(CaptureReply::Stored(confirmed));
            &&& w0.asked() == Some(CaptureRequest::<Seq<u8>>::AcquireLock)
            &&& w1.asked() == Some(
                CaptureRequest::Camera(
                    CameraRequest::<Seq<u8>>::Read {
                        query: ControlQuery::Current,
                        len: wanted.len() as usize,
                    },
                ),
            )
            &&& w2.asked() == Some(
                CaptureRequest::SaveRecord { applied: wanted, displaced: current },
            )
            &&& w3.asked() == Some(CaptureRequest::Camera(CameraRequest::Write(wanted)))
            &&& w4.asked() == Some(CaptureRequest::<Seq<u8>>::ConfirmRecord)
            &&& w5.asked() is None
            &&& w5.phase == WritePhase::Finished(
                CaptureWrite { outcome: Applied::Wrote, current, hold: Hold::Record },
            )
        }),
{
}

/// Trouble with the store does not keep the emitter dark: without a lock the change is made with
/// nothing held, and without a record it is made under the bare lock. A change that the camera
/// rejects is none.
pub proof fn store_trouble_does_not_stop_a_change(wanted: Seq<u8>, current: Seq<u8>, err: XuError)
    requires
        current != wanted,
    ensures
        ({
            let w0 = CaptureWriter::<Seq<u8>>::start(wanted);
            let read = CaptureReply::Camera(CameraReply::Bytes(current));
            let unlocked = w0.step(CaptureReply::Lock(LockReply::Unavailable)).step(read);
            let unrecorded = w0.step(CaptureReply::Lock(LockReply::Taken)).step(read).step(
                CaptureReply::Save(SaveReply::Unavailable),
            );
            let accepted = CaptureReply::<Seq<u8>>::Camera(CameraReply::Accepted);
            let rejected = CaptureReply::<Seq<u8>>::Camera(CameraReply::Failed(err));
            let rejected_end = WritePhase::Finished(
                CaptureWrite { outcome: Applied::Nothing, current, hold: Hold::Nothing },
            );
            &&& unlocked.asked() == Some(CaptureRequest::Camera(CameraRequest::Write(wanted)))
            &&& unrecorded.asked() == Some(CaptureRequest::Camera(CameraRequest::Write(wanted)))
            &&& unlocked.step(accepted).phase == WritePhase::Finished(
                CaptureWrite { outcome: Applied::Wrote, current, hold: Hold::Nothing },
            )
            &&& unrecorded.step(accepted).phase == WritePhase::Finished(
                CaptureWrite { outcome: Applied::Wrote, current, hold: Hold::Lock },
            )
            &&& unlocked.step(rejected).phase == rejected_end
            &&& unrecorded.step(rejected).phase == rejected_end
        }),
{
}

/// A control that already holds what is wanted is not written to; it is told as held, with the lock
/// where there is one.
pub proof fn a_held_value_is_not_written_again(wanted: Seq<u8>)
    ensures
        ({
            let w0 = CaptureWriter::<Seq<u8>>::start(wanted);
            let read = CaptureReply::Camera(CameraReply::Bytes(wanted));
            let locked = w0.step(CaptureReply::Lock(LockReply::Taken)).step(read);
            let unlocked = w0.step(CaptureReply::Lock(LockReply::Unavailable)).step(read);
            &&& locked.asked() is None
            &&& unlocked.asked() is None
            &&& locked.phase == WritePhase::Finished(
                CaptureWrite { outcome: Applied::AlreadyHeld, current: wanted, hold: Hold::Lock },
            )
            &&& unlocked.phase == WritePhase::Finished(
                CaptureWrite { outcome: Applied::AlreadyHeld, current: wanted, hold: Hold::Nothing },
            )
        }),
{
}

/// A record that would be destroyed, and a control that cannot be read, each keep the camera as it
/// is: nothing more is asked, and nothing counts as changed.
pub proof fn a_record_at_stake_stops_the_change(wanted: Seq<u8>, current: Seq<u8>, err: XuError)
    requires
        current != wanted,
    ensures
        ({
            let w1 = CaptureWriter::<Seq<u8>>::start(wanted).step(
                CaptureReply::Lock(LockReply::Taken),
            );
            let w2 = w1.step(CaptureReply::Camera(CameraReply::Bytes(current)));
            let nothing = WritePhase::<Seq<u8>>::Finished(
                CaptureWrite { outcome: Applied::Nothing, current: seq![], hold: Hold::Nothing },
            );
            &&& w2.step(CaptureReply::Save(SaveReply::Outstanding)).phase == nothing
            &&& w2.step(CaptureReply::Save(SaveReply::Protected)).phase == nothing
            &&& w1.step(CaptureReply::Camera(CameraReply::Failed(err))).phase == WritePhase::<
                Seq<u8>,
            >::Failed(err)
            &&& w1.step(CaptureReply::Camera(CameraReply::Failed(err))).asked() is None
        }),
{
}

} // verus!
