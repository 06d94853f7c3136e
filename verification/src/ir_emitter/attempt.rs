//! What a record of an interrupted run says of the attempts to put its control back.
//!
//! An attempt is counted before the write that it bounds, so that a crash during that write still
//! counts. One that wrote nothing is given back: the limit bounds writes, not readings.
use vstd::prelude::*;
use crate::ir_emitter::recovery::AtomicWrite;
use crate::ir_emitter::recovery_pass::{
    shorter_run, RecoveryPhase, RecoveryReply, RecoveryRequest,
};

verus! {

/// How often a control was to be put back, and the process that owns the record.
#[derive(Clone, Debug, PartialEq, Eq)]
pub struct AttemptMark {
    pub restore_attempts: u32,
    pub boot_id: Option<String>,
    pub pid: Option<u32>,
}

/// How often a control was to be put back, and the process that owns the record, as values.
pub struct MarkView {
    pub restore_attempts: u32,
    pub boot_id: Option<Seq<char>>,
    pub pid: Option<u32>,
}

impl View for AttemptMark {
    type V = MarkView;

    open spec fn view(&self) -> MarkView {
        MarkView {
            restore_attempts: self.restore_attempts,
            boot_id: match self.boot_id {
                Some(boot_id) => Some(boot_id@),
                None => None,
            },
            pid: self.pid,
        }
    }
}

impl MarkView {
    /// The mark of a new record: no attempt, and no owner.
    pub open spec fn opened() -> Self {
        MarkView { restore_attempts: 0, boot_id: None, pid: None }
    }

    /// The mark with one attempt more and no owner.
    pub open spec fn counted(self) -> Self {
        MarkView {
            restore_attempts: (self.restore_attempts + 1) as u32,
            boot_id: None,
            pid: None,
        }
    }

    /// The mark that a request saves over the one that was loaded, if it saves one.
    pub open spec fn saved_for<B>(self, request: RecoveryRequest<B>) -> Option<MarkView> {
        match request {
            RecoveryRequest::CountAttempt => Some(self.counted()),
            RecoveryRequest::GiveBack => Some(self),
            _ => None,
        }
    }
}

impl AttemptMark {
    /// The mark of a new record: no attempt is counted, and no process owns it. A record that a
    /// failed save left visible would otherwise be taken for that of a process that still runs, and
    /// never be acted on, although its camera was not written to.
    #[must_use]
    pub fn opened() -> (r: Self)
        ensures
            r@ == MarkView::opened(),
            r.restore_attempts == 0,
            r.boot_id is None,
            r.pid is None,
    {
        AttemptMark { restore_attempts: 0, boot_id: None, pid: None }
    }

    /// The mark with one attempt more and no owner: an owner that is still named would keep the
    /// record from being acted on once this process is gone.
    #[must_use]
    pub fn counted(&self) -> (r: Self)
        requires
            self.restore_attempts < u32::MAX,
        ensures
            r@ == self@.counted(),
            r.restore_attempts == self.restore_attempts + 1,
            r.boot_id is None,
            r.pid is None,
    {
        AttemptMark { restore_attempts: self.restore_attempts + 1, boot_id: None, pid: None }
    }

    /// The mark that a request saves over this one, which was loaded, if it saves one: a counted
    /// attempt is one more without an owner, and an attempt that is given back leaves the mark as
    /// it was loaded.
    #[must_use]
    pub fn saved_for(&self, request: &RecoveryRequest<Vec<u8>>) -> (r: Option<Self>)
        requires
            self.restore_attempts < u32::MAX,
        ensures
            match r {
                Some(mark) => self@.saved_for(request@) == Some(mark@),
                None => self@.saved_for(request@) is None,
            },
    {
        match request {
            RecoveryRequest::CountAttempt => Some(self.counted()),
            RecoveryRequest::GiveBack => Some(
                AttemptMark {
                    restore_attempts: self.restore_attempts,
                    boot_id: match &self.boot_id {
                        Some(boot_id) => Some(boot_id.clone()),
                        None => None,
                    },
                    pid: self.pid,
                },
            ),
            _ => None,
        }
    }
}

// ---------------------------------------------------------------------------------------------
// Laws
// ---------------------------------------------------------------------------------------------

/// Whether a reply says that the store shows what it was asked to save.
pub open spec fn shows_save(reply: RecoveryReply<Seq<u8>, Seq<char>>) -> bool {
    reply matches RecoveryReply::Counted(Ok(_)) || reply == RecoveryReply::<
        Seq<u8>,
        Seq<char>,
    >::Stored(None)
}

/// The mark that the store shows after a run, where it showed `loaded` before.
pub open spec fn mark_after(
    start: RecoveryPhase<Seq<u8>, Seq<char>>,
    loaded: MarkView,
    replies: Seq<RecoveryReply<Seq<u8>, Seq<char>>>,
) -> MarkView
    decreases replies.len(),
{
    if replies.len() == 0 {
        loaded
    } else {
        let shorter = replies.drop_last();
        let shown = mark_after(start, loaded, shorter);
        match start.after_all(shorter).asked() {
            Some(request) => match loaded.saved_for(request) {
                Some(saved) => if shows_save(replies.last()) {
                    saved
                } else {
                    shown
                },
                None => shown,
            },
            None => shown,
        }
    }
}

/// Whether a run asked for a write to the camera.
pub open spec fn wrote(
    start: RecoveryPhase<Seq<u8>, Seq<char>>,
    replies: Seq<RecoveryReply<Seq<u8>, Seq<char>>>,
) -> bool {
    exists|i: int| 0 <= i <= replies.len() && (#[trigger] start.after_all(replies.take(i))).writes()
}

proof fn mark_follows_the_pass(
    start: RecoveryPhase<Seq<u8>, Seq<char>>,
    loaded: MarkView,
    replies: Seq<RecoveryReply<Seq<u8>, Seq<char>>>,
)
    requires
        start is Lock || start is Load,
        start.proper_run(replies),
    ensures
        match start.after_all(replies) {
            RecoveryPhase::Decode { .. } | RecoveryPhase::Recheck { .. } | RecoveryPhase::GiveBack(
                _,
            ) => mark_after(start, loaded, replies) == loaded.counted(),
            RecoveryPhase::Restore { .. }
            | RecoveryPhase::ReadBack { .. }
            | RecoveryPhase::ClearRestored(_) => mark_after(start, loaded, replies)
                == loaded.counted() && wrote(start, replies),
            RecoveryPhase::Ended(_) => mark_after(start, loaded, replies) == loaded || mark_after(
                start,
                loaded,
                replies,
            ) == loaded.counted(),
            _ => mark_after(start, loaded, replies) == loaded,
        },
    decreases replies.len(),
{
    let n = replies.len() as int;
    assert(replies.take(n) =~= replies);
    if n > 0 {
        let shorter = replies.drop_last();
        shorter_run(start, replies);
        mark_follows_the_pass(start, loaded, shorter);
        if wrote(start, shorter) {
            let i = choose|i: int|
                0 <= i <= shorter.len() && (#[trigger] start.after_all(shorter.take(i))).writes();
            assert(shorter.take(i) =~= replies.take(i));
            assert(wrote(start, replies));
        }
        if start.after_all(replies).writes() {
            assert(start.after_all(replies.take(n)).writes());
        }
    }
}

/// A record's attempts are counted at most once by a pass, whatever becomes of it: the store shows
/// the mark as it was loaded, or with one attempt more and no owner.
pub proof fn an_attempt_is_counted_once(
    start: RecoveryPhase<Seq<u8>, Seq<char>>,
    loaded: MarkView,
    replies: Seq<RecoveryReply<Seq<u8>, Seq<char>>>,
)
    requires
        start is Lock || start is Load,
        start.proper_run(replies),
    ensures
        mark_after(start, loaded, replies) == loaded || mark_after(start, loaded, replies)
            == loaded.counted(),
{
    mark_follows_the_pass(start, loaded, replies);
}

/// A pass that ended without a write to the camera leaves the mark as it was loaded, unless the
/// store itself failed: it could not make a count durable, or would not take one back.
pub proof fn an_attempt_that_wrote_nothing_is_not_spent(
    start: RecoveryPhase<Seq<u8>, Seq<char>>,
    loaded: MarkView,
    replies: Seq<RecoveryReply<Seq<u8>, Seq<char>>>,
)
    requires
        start is Lock || start is Load,
        start.proper_run(replies),
        start.after_all(replies) is Ended,
        !wrote(start, replies),
        !(replies.last() matches RecoveryReply::Counted(Ok(AtomicWrite::VisibleNotDurable(_)))),
        !(replies.last() matches RecoveryReply::Stored(Some(_))),
    ensures
        mark_after(start, loaded, replies) == loaded,
{
    let n = replies.len() as int;
    let shorter = replies.drop_last();
    assert(n > 0);
    shorter_run(start, replies);
    mark_follows_the_pass(start, loaded, shorter);
    if wrote(start, shorter) {
        let i = choose|i: int|
            0 <= i <= shorter.len() && (#[trigger] start.after_all(shorter.take(i))).writes();
        assert(shorter.take(i) =~= replies.take(i));
        assert(wrote(start, replies));
    }
}

/// A new record has no attempt and no owner; a counted attempt is one more and has no owner either;
/// and one that is given back leaves every part of the mark as it was. No other request saves a mark.
pub proof fn a_mark_is_saved_for_a_count_or_its_return(
    loaded: MarkView,
    request: RecoveryRequest<Seq<u8>>,
)
    requires
        loaded.restore_attempts < u32::MAX,
    ensures
        MarkView::opened().restore_attempts == 0,
        MarkView::opened().boot_id is None && MarkView::opened().pid is None,
        match request {
            RecoveryRequest::CountAttempt => match loaded.saved_for(request) {
                Some(saved) => saved.restore_attempts == loaded.restore_attempts + 1
                    && saved.boot_id is None && saved.pid is None,
                None => false,
            },
            RecoveryRequest::GiveBack => loaded.saved_for(request) == Some(loaded),
            _ => loaded.saved_for(request) is None,
        },
{
}

} // verus!
