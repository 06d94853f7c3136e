//! Putting back what an interrupted setup run left changed.
//!
//! The pass runs before setup and before any capture applies a control, because both would
//! otherwise build on a control that is not where its owner left it. What it came to decides what
//! the caller may do next.
use vstd::prelude::*;
use crate::text::{decimal, push_decimal};

verus! {

// ---------------------------------------------------------------------------------------------
// Outcome
// ---------------------------------------------------------------------------------------------

/// What a recovery pass did. The variants are split by what the caller must do next, not by what
/// went wrong.
#[derive(Clone, Debug, PartialEq, Eq)]
pub enum RecoveryOutcome {
    NothingPending,
    /// The record store could not be examined: nothing was observed about any record.
    Unchecked(String),
    /// A record exists for a different camera, which is none of this camera's business.
    ForAnotherCamera,
    /// The control already held the original and the record was dropped.
    AlreadyRestored,
    Restored { unit: u8, selector: u8 },
    /// The control is confirmed back at its original, but the record could not be removed.
    RestoredRecordKept(String),
    /// A run that opened a record on this camera is still going.
    OwnerStillRunning { pid: u32 },
    /// Another irlume process holds this camera's lock.
    Busy,
    /// An outstanding change on this camera that could not be resolved.
    Unresolved(String),
    /// A record for a camera of the same model that cannot be confirmed to be this one.
    Unconfirmed { unit: u8, selector: u8, original: String, recorded_at: String },
}

/// What a recovery pass did, as values.
pub enum OutcomeView {
    NothingPending,
    Unchecked(Seq<char>),
    ForAnotherCamera,
    AlreadyRestored,
    Restored { unit: u8, selector: u8 },
    RestoredRecordKept(Seq<char>),
    OwnerStillRunning { pid: u32 },
    Busy,
    Unresolved(Seq<char>),
    Unconfirmed { unit: u8, selector: u8, original: Seq<char>, recorded_at: Seq<char> },
}

impl View for RecoveryOutcome {
    type V = OutcomeView;

    open spec fn view(&self) -> OutcomeView {
        match *self {
            RecoveryOutcome::NothingPending => OutcomeView::NothingPending,
            RecoveryOutcome::Unchecked(why) => OutcomeView::Unchecked(why@),
            RecoveryOutcome::ForAnotherCamera => OutcomeView::ForAnotherCamera,
            RecoveryOutcome::AlreadyRestored => OutcomeView::AlreadyRestored,
            RecoveryOutcome::Restored { unit, selector } => OutcomeView::Restored { unit, selector },
            RecoveryOutcome::RestoredRecordKept(why) => OutcomeView::RestoredRecordKept(why@),
            RecoveryOutcome::OwnerStillRunning { pid } => OutcomeView::OwnerStillRunning { pid },
            RecoveryOutcome::Busy => OutcomeView::Busy,
            RecoveryOutcome::Unresolved(why) => OutcomeView::Unresolved(why@),
            RecoveryOutcome::Unconfirmed { unit, selector, original, recorded_at } => {
                OutcomeView::Unconfirmed {
                    unit,
                    selector,
                    original: original@,
                    recorded_at: recorded_at@,
                }
            },
        }
    }
}

impl OutcomeView {
    /// Whether a capture may go on to apply a control: the camera is not known to be changed, and
    /// nobody else is looking after it.
    pub open spec fn permits_write(self) -> bool {
        match self {
            OutcomeView::NothingPending
            | OutcomeView::ForAnotherCamera
            | OutcomeView::AlreadyRestored
            | OutcomeView::Restored { .. }
            | OutcomeView::RestoredRecordKept(_) => true,
            _ => false,
        }
    }

    /// Whether setup may not start.
    pub open spec fn blocks_setup(self) -> bool {
        match self {
            OutcomeView::NothingPending
            | OutcomeView::ForAnotherCamera
            | OutcomeView::AlreadyRestored
            | OutcomeView::Restored { .. } => false,
            _ => true,
        }
    }

    /// A stable tag for the kind of outcome.
    pub open spec fn tag(self) -> Seq<char> {
        match self {
            OutcomeView::NothingPending => "nothing"@,
            OutcomeView::ForAnotherCamera => "another-camera"@,
            OutcomeView::AlreadyRestored => "already-restored"@,
            OutcomeView::Restored { .. } => "restored"@,
            OutcomeView::RestoredRecordKept(_) => "restored-record-kept"@,
            OutcomeView::OwnerStillRunning { .. } => "owner-running"@,
            OutcomeView::Busy => "busy"@,
            OutcomeView::Unchecked(_) => "unchecked"@,
            OutcomeView::Unresolved(_) => "unresolved"@,
            OutcomeView::Unconfirmed { .. } => "unconfirmed"@,
        }
    }

    /// One line for the log, or nothing where there was nothing to do or somebody else is looking
    /// after the camera. `store` is where the records are.
    pub open spec fn line(self, store: Seq<char>) -> Option<Seq<char>> {
        match self {
            OutcomeView::NothingPending
            | OutcomeView::ForAnotherCamera
            | OutcomeView::OwnerStillRunning { .. }
            | OutcomeView::Busy => None,
            OutcomeView::AlreadyRestored => Some(
                "irlume: an interrupted emitter setup was already undone; dropped its undo record"@,
            ),
            OutcomeView::Restored { unit, selector } => Some(
                "irlume: an interrupted emitter setup had left unit "@ + decimal(unit as nat)
                    + " selector "@ + decimal(selector as nat)
                    + " changed; put it back to the value the camera reported before that run"@,
            ),
            OutcomeView::RestoredRecordKept(why) => Some(
                "irlume: an emitter control was put back and confirmed, but its undo record in "@
                    + store + " could not be removed ("@ + why
                    + "). The camera is in the right state; `irlume ir-setup` will refuse until the record can be written"@,
            ),
            OutcomeView::Unchecked(why) => Some(
                "irlume: could not check whether an interrupted emitter setup left this camera changed ("@
                    + why
                    + "). irlume will not write to this camera's emitter from this process until the lock error is resolved and the journal can be checked, so IR face authentication will not light here."@,
            ),
            OutcomeView::Unresolved(why) => Some(
                "irlume: an emitter control on this camera was left changed by an interrupted setup and has not been put back ("@
                    + why
                    + "). irlume will not write to this camera's emitter until it is resolved, so IR face authentication will not light. The recorded original is in "@
                    + store,
            ),
            OutcomeView::Unconfirmed { unit, selector, original, recorded_at } => Some(
                "irlume: a camera of this model was left with unit "@ + decimal(unit as nat)
                    + " selector "@ + decimal(selector as nat)
                    + " changed by an interrupted setup, recorded at "@ + recorded_at
                    + ", and this camera is not at that address. Two units of one model are indistinguishable from their USB descriptors, so irlume will not write those bytes into this one and will not write to its emitter at all until the record is resolved: IR face authentication will not light. Reconnect the camera to the port it was set up on and it will be put back automatically. The original value is "@
                    + original + ", recorded in "@ + store,
            ),
        }
    }
}

impl RecoveryOutcome {
    /// Whether a capture may go on to apply an emitter control to this camera.
    ///
    /// Refusing costs the emitter, so face authentication does not light. That is the cheaper side
    /// of the trade. A record for another camera permits the write: it has nothing to say about
    /// this one.
    #[must_use]
    pub fn permits_capture_write(&self) -> (r: bool)
        ensures
            r == self@.permits_write(),
    {
        match self {
            RecoveryOutcome::NothingPending => true,
            RecoveryOutcome::ForAnotherCamera => true,
            RecoveryOutcome::AlreadyRestored => true,
            RecoveryOutcome::Restored { .. } => true,
            RecoveryOutcome::RestoredRecordKept(_) => true,
            _ => false,
        }
    }

    /// Whether setup may not start. Stricter than [`Self::permits_capture_write`] in one place: a
    /// record that could not be removed also stops setup, whose first act is to write one.
    #[must_use]
    pub fn blocks_discovery(&self) -> (r: bool)
        ensures
            r == self@.blocks_setup(),
    {
        match self {
            RecoveryOutcome::NothingPending => false,
            RecoveryOutcome::ForAnotherCamera => false,
            RecoveryOutcome::AlreadyRestored => false,
            RecoveryOutcome::Restored { .. } => false,
            _ => true,
        }
    }

    /// A stable tag for the kind of outcome, for de-duplicating log lines.
    #[must_use]
    pub fn kind(&self) -> (r: &'static str)
        ensures
            r@ == self@.tag(),
    {
        match self {
            RecoveryOutcome::NothingPending => "nothing",
            RecoveryOutcome::ForAnotherCamera => "another-camera",
            RecoveryOutcome::AlreadyRestored => "already-restored",
            RecoveryOutcome::Restored { .. } => "restored",
            RecoveryOutcome::RestoredRecordKept(_) => "restored-record-kept",
            RecoveryOutcome::OwnerStillRunning { .. } => "owner-running",
            RecoveryOutcome::Busy => "busy",
            RecoveryOutcome::Unchecked(_) => "unchecked",
            RecoveryOutcome::Unresolved(_) => "unresolved",
            RecoveryOutcome::Unconfirmed { .. } => "unconfirmed",
        }
    }

    /// One line for the log, or nothing. `store` is where the records are.
    #[must_use]
    pub fn message(&self, store: &str) -> (r: Option<String>)
        ensures
            match r {
                Some(line) => self@.line(store@) == Some(line@),
                None => self@.line(store@) is None,
            },
    {
        match self {
            RecoveryOutcome::NothingPending => None,
            RecoveryOutcome::ForAnotherCamera => None,
            RecoveryOutcome::OwnerStillRunning { .. } => None,
            RecoveryOutcome::Busy => None,
            RecoveryOutcome::AlreadyRestored => Some(
                "irlume: an interrupted emitter setup was already undone; dropped its undo record".to_owned(),
            ),
            RecoveryOutcome::Restored { unit, selector } => {
                let mut s: String = "irlume: an interrupted emitter setup had left unit ".to_owned();
                push_decimal(&mut s, *unit as u64);
                s.append(" selector ");
                push_decimal(&mut s, *selector as u64);
                s.append(
                    " changed; put it back to the value the camera reported before that run",
                );
                Some(s)
            },
            RecoveryOutcome::RestoredRecordKept(why) => {
                let mut s: String =
                    "irlume: an emitter control was put back and confirmed, but its undo record in ".to_owned();
                s.append(store);
                s.append(" could not be removed (");
                s.append(why.as_str());
                s.append(
                    "). The camera is in the right state; `irlume ir-setup` will refuse until the record can be written",
                );
                Some(s)
            },
            RecoveryOutcome::Unchecked(why) => {
                let mut s: String =
                    "irlume: could not check whether an interrupted emitter setup left this camera changed (".to_owned();
                s.append(why.as_str());
                s.append(
                    "). irlume will not write to this camera's emitter from this process until the lock error is resolved and the journal can be checked, so IR face authentication will not light here.",
                );
                Some(s)
            },
            RecoveryOutcome::Unresolved(why) => {
                let mut s: String =
                    "irlume: an emitter control on this camera was left changed by an interrupted setup and has not been put back (".to_owned();
                s.append(why.as_str());
                s.append(
                    "). irlume will not write to this camera's emitter until it is resolved, so IR face authentication will not light. The recorded original is in ",
                );
                s.append(store);
                Some(s)
            },
            RecoveryOutcome::Unconfirmed { unit, selector, original, recorded_at } => {
                let mut s: String = "irlume: a camera of this model was left with unit ".to_owned();
                push_decimal(&mut s, *unit as u64);
                s.append(" selector ");
                push_decimal(&mut s, *selector as u64);
                s.append(" changed by an interrupted setup, recorded at ");
                s.append(recorded_at.as_str());
                s.append(
                    ", and this camera is not at that address. Two units of one model are indistinguishable from their USB descriptors, so irlume will not write those bytes into this one and will not write to its emitter at all until the record is resolved: IR face authentication will not light. Reconnect the camera to the port it was set up on and it will be put back automatically. The original value is ",
                );
                s.append(original.as_str());
                s.append(", recorded in ");
                s.append(store);
                Some(s)
            },
        }
    }
}

// ---------------------------------------------------------------------------------------------
// The log
// ---------------------------------------------------------------------------------------------

/// What makes two outcomes the same line of the log: the camera's fingerprint and the kind of
/// outcome.
pub open spec fn report_key(fingerprint: Seq<char>, outcome: OutcomeView) -> Seq<char> {
    fingerprint + ":"@ + outcome.tag()
}

/// The line that an outcome still owes the log, after those that were reported.
pub open spec fn due_line(
    reported: Set<Seq<char>>,
    fingerprint: Seq<char>,
    outcome: OutcomeView,
    store: Seq<char>,
) -> Option<Seq<char>> {
    if reported.contains(report_key(fingerprint, outcome)) {
        None
    } else {
        outcome.line(store)
    }
}

/// What was reported, once an outcome came in.
pub open spec fn reported_after(
    reported: Set<Seq<char>>,
    fingerprint: Seq<char>,
    outcome: OutcomeView,
    store: Seq<char>,
) -> Set<Seq<char>> {
    if outcome.line(store) is Some {
        reported.insert(report_key(fingerprint, outcome))
    } else {
        reported
    }
}

/// The outcomes that one process has put into its log. A pass runs many times a second, and a
/// record that cannot be acted on would otherwise repeat its line each time.
pub struct ReportedOutcomes {
    keys: Vec<String>,
}

impl View for ReportedOutcomes {
    type V = Set<Seq<char>>;

    closed spec fn view(&self) -> Set<Seq<char>> {
        self.keys@.map_values(|key: String| key@).to_set()
    }
}

impl ReportedOutcomes {
    /// Nothing reported yet.
    #[must_use]
    pub fn new() -> (r: Self)
        ensures
            r@ == Set::<Seq<char>>::empty(),
    {
        let r = ReportedOutcomes { keys: Vec::new() };
        assert(r@ =~= Set::<Seq<char>>::empty());
        r
    }

    fn holds(&self, key: &String) -> (r: bool)
        ensures
            r == self@.contains(key@),
    {
        let ghost views = self.keys@.map_values(|key: String| key@);
        let mut i: usize = 0;
        while i < self.keys.len()
            invariant
                i <= self.keys@.len(),
                views == self.keys@.map_values(|key: String| key@),
                self@ == views.to_set(),
                forall|j: int| 0 <= j < i ==> #[trigger] views[j] != key@,
            decreases self.keys@.len() - i,
        {
            if self.keys[i] == *key {
                assert(views[i as int] == key@);
                return true;
            }
            i = i + 1;
        }
        false
    }

    /// The line to log for an outcome of a camera: once for each camera and kind of outcome, so
    /// that a later change of outcome is still told. `store` is where the records are.
    pub fn report(&mut self, fingerprint: &str, outcome: &RecoveryOutcome, store: &str) -> (r:
        Option<String>)
        ensures
            match r {
                Some(line) => due_line(old(self)@, fingerprint@, outcome@, store@) == Some(line@),
                None => due_line(old(self)@, fingerprint@, outcome@, store@) is None,
            },
            final(self)@ == reported_after(old(self)@, fingerprint@, outcome@, store@),
    {
        match outcome.message(store) {
            None => None,
            Some(line) => {
                let mut key: String = fingerprint.to_owned();
                key.append(":");
                key.append(outcome.kind());
                if self.holds(&key) {
                    assert(self@.insert(key@) =~= self@);
                    return None;
                }
                let ghost before = self.keys@.map_values(|key: String| key@);
                self.keys.push(key);
                proof {
                    let after = self.keys@.map_values(|key: String| key@);
                    assert(after =~= before.push(key@));
                    assert forall|k: Seq<char>|
                        after.to_set().contains(k) == before.to_set().insert(key@).contains(k) by {
                        assert(after[before.len() as int] == key@);
                        if before.contains(k) {
                            let i = before.index_of(k);
                            assert(after[i] == k);
                        }
                        if after.contains(k) {
                            let i = after.index_of(k);
                            assert(i < before.len() ==> before[i] == k);
                        }
                    }
                    assert(after.to_set() =~= before.to_set().insert(key@));
                }
                Some(line)
            },
        }
    }
}

// ---------------------------------------------------------------------------------------------
// The record store
// ---------------------------------------------------------------------------------------------

/// How a file reached the disk.
#[derive(Clone, Debug, PartialEq, Eq)]
pub enum AtomicWrite<T> {
    Durable,
    /// The new contents can be read, but a power loss may revert them. Carries why.
    VisibleNotDurable(T),
}

/// Why a counted attempt may not be followed by a write, if it may not.
pub open spec fn attempt_refusal(saved: Result<AtomicWrite<Seq<char>>, Seq<char>>) -> Option<
    Seq<char>,
> {
    match saved {
        Ok(AtomicWrite::Durable) => None,
        Ok(AtomicWrite::VisibleNotDurable(why)) => Some(
            "count the attempt: the updated record is visible but not durable ("@ + why
                + "); refusing the write"@,
        ),
        Err(why) => Some("count the attempt: "@ + why),
    }
}

/// What became of saving a count, as values.
pub open spec fn saved_view(saved: Result<AtomicWrite<String>, String>) -> Result<
    AtomicWrite<Seq<char>>,
    Seq<char>,
> {
    match saved {
        Ok(AtomicWrite::Durable) => Ok(AtomicWrite::Durable),
        Ok(AtomicWrite::VisibleNotDurable(why)) => Ok(AtomicWrite::VisibleNotDurable(why@)),
        Err(why) => Err(why@),
    }
}

/// Whether a counted attempt may be followed by a firmware write.
///
/// The attempt limit exists to bound firmware writes across crashes, so a count that a power loss
/// can revert bounds nothing; and where nothing became visible, nothing was counted.
pub fn counted_attempt_authorizes_write(saved: Result<AtomicWrite<String>, String>) -> (r: Result<
    (),
    String,
>)
    ensures
        match r {
            Ok(()) => attempt_refusal(saved_view(saved)) is None,
            Err(why) => attempt_refusal(saved_view(saved)) == Some(why@),
        },
{
    match saved {
        Ok(AtomicWrite::Durable) => Ok(()),
        Ok(AtomicWrite::VisibleNotDurable(why)) => {
            let mut s: String =
                "count the attempt: the updated record is visible but not durable (".to_owned();
            s.append(why.as_str());
            s.append("); refusing the write");
            Err(s)
        },
        Err(why) => {
            let mut s: String = "count the attempt: ".to_owned();
            s.append(why.as_str());
            Err(s)
        },
    }
}

// ---------------------------------------------------------------------------------------------
// Laws
// ---------------------------------------------------------------------------------------------

/// Whatever stops a capture's write stops setup too, and the one thing that stops setup alone is a
/// record that could not be removed.
pub proof fn setup_is_stricter_than_capture(outcome: OutcomeView)
    ensures
        !outcome.permits_write() ==> outcome.blocks_setup(),
        outcome.permits_write() && outcome.blocks_setup() <==> outcome is RestoredRecordKept,
{
}

/// A write is refused silently only where another process is looking after the camera; every other
/// refusal is told, with where the bytes are that would put it back or why that was not looked at.
pub proof fn silent_refusals_have_an_owner(outcome: OutcomeView, store: Seq<char>)
    requires
        !outcome.permits_write(),
        outcome.line(store) is None,
    ensures
        outcome is OwnerStillRunning || outcome is Busy,
{
}

/// An outcome that repeats on one camera puts no second line into the log.
pub proof fn a_repeated_outcome_is_silent(
    reported: Set<Seq<char>>,
    fingerprint: Seq<char>,
    first: OutcomeView,
    second: OutcomeView,
    store: Seq<char>,
)
    requires
        first.tag() == second.tag(),
        first.line(store) is Some,
    ensures
        due_line(
            reported_after(reported, fingerprint, first, store),
            fingerprint,
            second,
            store,
        ) is None,
{
}

/// A change of outcome on one camera is told, whatever was told of it before.
pub proof fn a_change_of_outcome_is_told(
    reported: Set<Seq<char>>,
    fingerprint: Seq<char>,
    first: OutcomeView,
    second: OutcomeView,
    store: Seq<char>,
)
    requires
        first.tag() != second.tag(),
    ensures
        due_line(
            reported_after(reported, fingerprint, first, store),
            fingerprint,
            second,
            store,
        ) == due_line(reported, fingerprint, second, store),
{
    let n = (fingerprint + ":"@).len() as int;
    if report_key(fingerprint, first) == report_key(fingerprint, second) {
        assert(report_key(fingerprint, first).skip(n) =~= first.tag());
        assert(report_key(fingerprint, second).skip(n) =~= second.tag());
    }
}

/// A capture may write exactly where no change is known to be left on this camera and nobody else
/// looks after it; setup may start exactly where, beside that, no record is left behind.
pub proof fn an_outcome_permits_what_it_resolved(outcome: OutcomeView)
    ensures
        outcome is NothingPending || outcome is ForAnotherCamera || outcome is AlreadyRestored
            || outcome is Restored ==> outcome.permits_write() && !outcome.blocks_setup(),
        outcome is RestoredRecordKept ==> outcome.permits_write() && outcome.blocks_setup(),
        outcome is Unchecked || outcome is OwnerStillRunning || outcome is Busy || outcome
            is Unresolved || outcome is Unconfirmed ==> !outcome.permits_write()
            && outcome.blocks_setup(),
{
}

/// A counted attempt is followed by a write only where the count is durable; otherwise the reason is
/// the store's own.
pub proof fn only_a_durable_count_permits_a_write(why: Seq<char>)
    ensures
        attempt_refusal(Ok(AtomicWrite::Durable)) is None,
        attempt_refusal(Ok(AtomicWrite::VisibleNotDurable(why))) is Some,
        attempt_refusal(Err(why)) == Some("count the attempt: "@ + why),
{
}

/// An outcome that has something to tell is told the first time that its camera comes to it, in full
/// and under no other camera's or outcome's entry; and what is told leaves only its own entry.
pub proof fn a_new_outcome_is_told(
    reported: Set<Seq<char>>,
    fingerprint: Seq<char>,
    outcome: OutcomeView,
    store: Seq<char>,
)
    ensures
        !reported.contains(fingerprint + ":"@ + outcome.tag()) ==> due_line(
            reported,
            fingerprint,
            outcome,
            store,
        ) == outcome.line(store),
        outcome.line(store) is Some ==> reported_after(reported, fingerprint, outcome, store)
            == reported.insert(fingerprint + ":"@ + outcome.tag()),
        outcome.line(store) is None ==> reported_after(reported, fingerprint, outcome, store)
            == reported,
        outcome is AlreadyRestored || outcome is Restored || outcome is RestoredRecordKept
            || outcome is Unchecked || outcome is Unresolved || outcome is Unconfirmed
            ==> outcome.line(store) is Some,
{
}

} // verus!
