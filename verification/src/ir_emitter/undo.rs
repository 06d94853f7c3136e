//! Putting a control back when a setup run is torn down with its tried value on the camera.
//!
//! The record of the change is the only copy of what was there before, so it is removed only once
//! the control was read to hold that again. A camera that refuses the write is not pressed further.
use vstd::prelude::*;
use crate::ir_emitter::xu::{answers, CameraReply, CameraRequest, ControlQuery};
use crate::text::same_bytes;

verus! {

/// What a teardown asks for next.
#[derive(Clone, Debug, PartialEq, Eq)]
pub enum UndoRequest<B> {
    Camera(CameraRequest<B>),
    ClearRecord,
}

impl View for UndoRequest<Vec<u8>> {
    type V = UndoRequest<Seq<u8>>;

    open spec fn view(&self) -> UndoRequest<Seq<u8>> {
        match *self {
            UndoRequest::Camera(request) => UndoRequest::Camera(request@),
            UndoRequest::ClearRecord => UndoRequest::ClearRecord,
        }
    }
}

/// What came of a teardown's request.
#[derive(Clone, Debug, PartialEq, Eq)]
pub enum UndoReply<B> {
    Camera(CameraReply<B>),
    /// Whether the store removed the record.
    Cleared(bool),
}

impl View for UndoReply<Vec<u8>> {
    type V = UndoReply<Seq<u8>>;

    open spec fn view(&self) -> UndoReply<Seq<u8>> {
        match *self {
            UndoReply::Camera(reply) => UndoReply::Camera(reply@),
            UndoReply::Cleared(cleared) => UndoReply::Cleared(cleared),
        }
    }
}

/// Whether a reply is one that a request can have.
pub open spec fn undo_answers(request: UndoRequest<Seq<u8>>, reply: UndoReply<Seq<u8>>) -> bool {
    match request {
        UndoRequest::Camera(request) => reply matches UndoReply::Camera(reply) && answers(
            request,
            reply,
        ),
        UndoRequest::ClearRecord => reply is Cleared,
    }
}

/// How a teardown ended.
#[derive(Clone, Copy, Debug, PartialEq, Eq, Structural)]
pub enum UndoEnd {
    /// Nothing had to be put back.
    NothingOwed,
    /// The camera did not take the write. The record stays.
    Refused,
    /// The control was not read to be back. The record stays.
    Unconfirmed,
    /// The control is back, and the record could not be removed.
    RecordKept,
    /// The control is back, and the record is gone.
    Undone,
}

/// Where a teardown stands, with what has to be put back.
#[derive(Debug, PartialEq, Eq)]
pub enum Undo<B> {
    Write(B),
    ReadBack(B),
    Clear,
    Ended(UndoEnd),
}

impl View for Undo<Vec<u8>> {
    type V = Undo<Seq<u8>>;

    open spec fn view(&self) -> Undo<Seq<u8>> {
        match *self {
            Undo::Write(original) => Undo::Write(original@),
            Undo::ReadBack(original) => Undo::ReadBack(original@),
            Undo::Clear => Undo::Clear,
            Undo::Ended(end) => Undo::Ended(end),
        }
    }
}

impl Undo<Seq<u8>> {
    /// A teardown before the first request.
    pub open spec fn start(owed: Option<Seq<u8>>) -> Self {
        match owed {
            Some(original) => Undo::Write(original),
            None => Undo::Ended(UndoEnd::NothingOwed),
        }
    }

    /// What is asked for next, if anything is.
    pub open spec fn asked(self) -> Option<UndoRequest<Seq<u8>>> {
        match self {
            Undo::Write(original) => Some(UndoRequest::Camera(CameraRequest::Write(original))),
            Undo::ReadBack(original) => Some(
                UndoRequest::Camera(
                    CameraRequest::Read {
                        query: ControlQuery::Current,
                        len: original.len() as usize,
                    },
                ),
            ),
            Undo::Clear => Some(UndoRequest::ClearRecord),
            Undo::Ended(_) => None,
        }
    }

    /// The teardown after a reply.
    pub open spec fn step(self, reply: UndoReply<Seq<u8>>) -> Self {
        match (self, reply) {
            (Undo::Write(original), UndoReply::Camera(reply)) => if reply
                == CameraReply::<Seq<u8>>::Accepted {
                Undo::ReadBack(original)
            } else {
                Undo::Ended(UndoEnd::Refused)
            },
            (Undo::ReadBack(original), UndoReply::Camera(reply)) => if reply == CameraReply::Bytes(
                original,
            ) {
                Undo::Clear
            } else {
                Undo::Ended(UndoEnd::Unconfirmed)
            },
            (Undo::Clear, UndoReply::Cleared(cleared)) => Undo::Ended(
                if cleared {
                    UndoEnd::Undone
                } else {
                    UndoEnd::RecordKept
                },
            ),
            (undo, _) => undo,
        }
    }

    /// How the teardown ended, once it asks for nothing more.
    pub open spec fn result(self) -> Option<UndoEnd> {
        match self {
            Undo::Ended(end) => Some(end),
            _ => None,
        }
    }
}

impl Undo<Vec<u8>> {
    /// A teardown that has to put back what is owed, if anything is.
    #[must_use]
    pub fn new(owed: Option<Vec<u8>>) -> (r: Self)
        ensures
            r@ == Undo::<Seq<u8>>::start(
                match owed {
                    Some(original) => Some(original@),
                    None => None,
                },
            ),
    {
        match owed {
            Some(original) => Undo::Write(original),
            None => Undo::Ended(UndoEnd::NothingOwed),
        }
    }

    /// What is asked for next, if anything is.
    #[must_use]
    pub fn request(&self) -> (r: Option<UndoRequest<Vec<u8>>>)
        ensures
            match r {
                Some(request) => self@.asked() == Some(request@),
                None => self@.asked() is None,
            },
    {
        match self {
            Undo::Write(original) => Some(
                UndoRequest::Camera(CameraRequest::write(original.as_slice())),
            ),
            Undo::ReadBack(original) => Some(
                UndoRequest::Camera(
                    CameraRequest::Read { query: ControlQuery::Current, len: original.len() },
                ),
            ),
            Undo::Clear => Some(UndoRequest::ClearRecord),
            Undo::Ended(_) => None,
        }
    }

    /// Takes the reply to the last request.
    #[must_use]
    pub fn advance(self, reply: UndoReply<Vec<u8>>) -> (r: Self)
        requires
            self@.asked() is Some,
            undo_answers(self@.asked()->0, reply@),
        ensures
            r@ == self@.step(reply@),
    {
        match (self, reply) {
            (Undo::Write(original), UndoReply::Camera(reply)) => match reply {
                CameraReply::Accepted => Undo::ReadBack(original),
                _ => Undo::Ended(UndoEnd::Refused),
            },
            (Undo::ReadBack(original), UndoReply::Camera(reply)) => match reply {
                CameraReply::Bytes(now) => if same_bytes(now.as_slice(), original.as_slice()) {
                    Undo::Clear
                } else {
                    Undo::Ended(UndoEnd::Unconfirmed)
                },
                _ => Undo::Ended(UndoEnd::Unconfirmed),
            },
            (Undo::Clear, UndoReply::Cleared(cleared)) => if cleared {
                Undo::Ended(UndoEnd::Undone)
            } else {
                Undo::Ended(UndoEnd::RecordKept)
            },
            (undo, _) => undo,
        }
    }

    /// How the teardown ended, once it asks for nothing more.
    #[must_use]
    pub fn outcome(&self) -> (r: Option<UndoEnd>)
        ensures
            r == self@.result(),
    {
        match self {
            Undo::Ended(end) => Some(*end),
            _ => None,
        }
    }
}

// ---------------------------------------------------------------------------------------------
// Laws
// ---------------------------------------------------------------------------------------------

impl Undo<Seq<u8>> {
    /// The teardown after replies, the first of them first.
    pub open spec fn after_all(self, replies: Seq<UndoReply<Seq<u8>>>) -> Self
        decreases replies.len(),
    {
        if replies.len() == 0 {
            self
        } else {
            self.after_all(replies.drop_last()).step(replies.last())
        }
    }

    /// Whether each reply of a run is one that the request before it can have.
    pub open spec fn proper_run(self, replies: Seq<UndoReply<Seq<u8>>>) -> bool {
        forall|i: int|
            0 <= i < replies.len() ==> {
                let before = self.after_all(#[trigger] replies.take(i));
                before.asked() is Some && undo_answers(before.asked()->0, replies[i])
            }
    }

    /// How many requests a teardown still makes at most.
    pub open spec fn left(self) -> int {
        match self {
            Undo::Write(_) => 3,
            Undo::ReadBack(_) => 2,
            Undo::Clear => 1,
            Undo::Ended(_) => 0,
        }
    }
}

proof fn run_so_far(owed: Option<Seq<u8>>, replies: Seq<UndoReply<Seq<u8>>>)
    requires
        Undo::<Seq<u8>>::start(owed).proper_run(replies),
    ensures
        ({
            let accepted = UndoReply::Camera(CameraReply::<Seq<u8>>::Accepted);
            match Undo::<Seq<u8>>::start(owed).after_all(replies) {
                Undo::Write(original) => owed == Some(original) && replies.len() == 0,
                Undo::ReadBack(original) => owed == Some(original) && replies == seq![accepted],
                Undo::Clear => owed matches Some(original) && replies == seq![
                    accepted,
                    UndoReply::Camera(CameraReply::Bytes(original)),
                ],
                Undo::Ended(UndoEnd::NothingOwed) => owed is None && replies.len() == 0,
                Undo::Ended(UndoEnd::Refused) => owed is Some && replies.len() == 1,
                Undo::Ended(UndoEnd::Unconfirmed) => owed is Some && replies.len() == 2,
                Undo::Ended(end) => owed matches Some(original) && replies == seq![
                    accepted,
                    UndoReply::Camera(CameraReply::Bytes(original)),
                    UndoReply::Cleared(end == UndoEnd::Undone),
                ],
            }
        }),
    decreases replies.len(),
{
    let start = Undo::<Seq<u8>>::start(owed);
    if replies.len() > 0 {
        let shorter = replies.drop_last();
        assert(replies.take(shorter.len() as int) =~= shorter);
        assert forall|i: int| 0 <= i < shorter.len() implies {
            let before = start.after_all(#[trigger] shorter.take(i));
            before.asked() is Some && undo_answers(before.asked()->0, shorter[i])
        } by {
            assert(replies.take(i) =~= shorter.take(i));
        }
        run_so_far(owed, shorter);
        assert(start.after_all(shorter).asked() is Some);
        assert(replies =~= shorter.push(replies.last()));
        assert(replies =~= shorter + seq![replies.last()]);
    } else {
        assert(replies =~= seq![]);
    }
}

/// Each reply brings a teardown nearer to its end.
pub proof fn undo_moves_on(undo: Undo<Seq<u8>>, reply: UndoReply<Seq<u8>>)
    requires
        undo.asked() is Some,
        undo_answers(undo.asked()->0, reply),
    ensures
        undo.step(reply).left() < undo.left(),
        undo.step(reply).asked() is None <==> undo.step(reply).result() is Some,
{
}

/// Where nothing is owed, nothing is asked for.
pub proof fn nothing_owed_asks_for_nothing()
    ensures
        Undo::<Seq<u8>>::start(None).asked() is None,
        Undo::<Seq<u8>>::start(None).result() == Some(UndoEnd::NothingOwed),
{
}

/// A teardown writes only what is owed, and only as its first request: the camera is changed at
/// most once.
pub proof fn an_undo_writes_what_is_owed_once(
    owed: Option<Seq<u8>>,
    replies: Seq<UndoReply<Seq<u8>>>,
    value: Seq<u8>,
)
    requires
        Undo::<Seq<u8>>::start(owed).proper_run(replies),
        Undo::<Seq<u8>>::start(owed).after_all(replies).asked() == Some(
            UndoRequest::Camera(CameraRequest::Write(value)),
        ),
    ensures
        owed == Some(value),
        replies.len() == 0,
{
    run_so_far(owed, replies);
}

/// The record is removed only behind a confirmed read-back: the camera took the write of what was
/// owed, and the control was then read to hold exactly that.
pub proof fn the_record_is_cleared_behind_a_read_back(
    owed: Option<Seq<u8>>,
    replies: Seq<UndoReply<Seq<u8>>>,
)
    requires
        Undo::<Seq<u8>>::start(owed).proper_run(replies),
        Undo::<Seq<u8>>::start(owed).after_all(replies).asked() == Some(
            UndoRequest::<Seq<u8>>::ClearRecord,
        ),
    ensures
        owed is Some,
        replies == seq![
            UndoReply::Camera(CameraReply::<Seq<u8>>::Accepted),
            UndoReply::Camera(CameraReply::Bytes(owed->0)),
        ],
{
    run_so_far(owed, replies);
}

/// What is owed is put back, read to be back and its record removed; a refused write, a read that
/// says something else or fails, and a record that stays each end the teardown as what they are, and
/// leave the record where it is.
pub proof fn an_undo_ends_as_what_it_came_to(
    original: Seq<u8>,
    now: Seq<u8>,
    err: crate::ir_emitter::xu::XuError,
)
    requires
        now != original,
    ensures
        ({
            let ended = |end: UndoEnd| Undo::<Seq<u8>>::Ended(end);
            let u0 = Undo::<Seq<u8>>::start(Some(original));
            let u1 = u0.step(UndoReply::Camera(CameraReply::Accepted));
            let u2 = u1.step(UndoReply::Camera(CameraReply::Bytes(original)));
            &&& u0.asked() == Some(UndoRequest::Camera(CameraRequest::Write(original)))
            &&& u1.asked() == Some(
                UndoRequest::<Seq<u8>>::Camera(
                    CameraRequest::Read {
                        query: ControlQuery::Current,
                        len: original.len() as usize,
                    },
                ),
            )
            &&& u2.asked() == Some(UndoRequest::<Seq<u8>>::ClearRecord)
            &&& u2.step(UndoReply::Cleared(true)) == ended(UndoEnd::Undone)
            &&& u2.step(UndoReply::Cleared(false)) == ended(UndoEnd::RecordKept)
            &&& u0.step(UndoReply::Camera(CameraReply::Failed(err))) == ended(UndoEnd::Refused)
            &&& u1.step(UndoReply::Camera(CameraReply::Bytes(now))) == ended(UndoEnd::Unconfirmed)
            &&& u1.step(UndoReply::Camera(CameraReply::Failed(err))) == ended(UndoEnd::Unconfirmed)
        }),
{
}

} // verus!
