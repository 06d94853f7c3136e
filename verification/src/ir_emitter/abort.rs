//! Stopping a setup run when a fatal signal arrives.
//!
//! A signal handler may do little more than note the signal's number; putting the camera back
//! happens on the ordinary return path, where the note is polled between frames and again before
//! each change to the camera. The signal was caught to get the camera put back, not to ignore it,
//! so it is raised again afterwards.
use vstd::prelude::*;

verus! {

/// Whether a noted signal asks the run to stop. Zero notes none.
pub open spec fn noted(signal: i32) -> bool {
    signal != 0
}

/// The signal that a number notes, if it notes one.
pub open spec fn signal_noted(signal: i32) -> Option<i32> {
    if noted(signal) {
        Some(signal)
    } else {
        None
    }
}

/// Whether a fatal signal arrived during this run, given what the handler noted.
#[must_use]
pub fn abort_requested(signal: i32) -> (r: bool)
    ensures
        r == noted(signal),
{
    signal != 0
}

/// The signal to raise again once its disposition is restored, if one was noted.
#[must_use]
pub fn pending_signal(signal: i32) -> (r: Option<i32>)
    ensures
        r == signal_noted(signal),
{
    if abort_requested(signal) {
        Some(signal)
    } else {
        None
    }
}

/// What happens to a note.
pub enum NoteEvent {
    Install,
    Signal(i32),
    HandBack,
}

/// The note after an event.
pub open spec fn note_after(note: Option<i32>, event: NoteEvent) -> Option<i32> {
    match event {
        NoteEvent::Install | NoteEvent::HandBack => None,
        NoteEvent::Signal(signal) => signal_noted(signal),
    }
}

/// The note of a fatal signal, which lives from the installation of the handlers until the signal
/// is handed back.
#[derive(Debug, PartialEq, Eq)]
pub struct AbortNote {
    pub signal: i32,
}

impl View for AbortNote {
    type V = Option<i32>;

    open spec fn view(&self) -> Option<i32> {
        signal_noted(self.signal)
    }
}

impl AbortNote {
    /// No note.
    #[must_use]
    pub fn new() -> (r: Self)
        ensures
            r@ is None,
    {
        AbortNote { signal: 0 }
    }

    /// The handlers are installed: what an earlier run noted is forgotten.
    pub fn install(&mut self)
        ensures
            final(self)@ == note_after(old(self)@, NoteEvent::Install),
    {
        self.signal = 0;
    }

    /// A signal arrived. The last one is the one that is handed back.
    pub fn note(&mut self, signal: i32)
        requires
            signal != 0,
        ensures
            final(self)@ == note_after(old(self)@, NoteEvent::Signal(signal)),
    {
        self.signal = signal;
    }

    /// Whether a fatal signal arrived during this run.
    #[must_use]
    pub fn requested(&self) -> (r: bool)
        ensures
            r == (self@ is Some),
    {
        abort_requested(self.signal)
    }

    /// The dispositions are restored: the signal to raise again, if one was noted. Nothing of it
    /// is left for the next run.
    pub fn hand_back(&mut self) -> (r: Option<i32>)
        ensures
            r == old(self)@,
            final(self)@ == note_after(old(self)@, NoteEvent::HandBack),
    {
        let pending: Option<i32> = pending_signal(self.signal);
        self.signal = 0;
        pending
    }
}

// ---------------------------------------------------------------------------------------------
// Laws
// ---------------------------------------------------------------------------------------------

/// The note after events, the first of them first.
pub open spec fn note_after_all(note: Option<i32>, events: Seq<NoteEvent>) -> Option<i32>
    decreases events.len(),
{
    if events.len() == 0 {
        note
    } else {
        note_after(note_after_all(note, events.drop_last()), events.last())
    }
}

/// The events of one run: the handlers are installed, and signals arrive.
pub open spec fn caught(signals: Seq<i32>) -> Seq<NoteEvent> {
    seq![NoteEvent::Install] + Seq::new(signals.len(), |i: int| NoteEvent::Signal(signals[i]))
}

/// Whatever an earlier run left, no signal is noted right after the handlers are installed; one is
/// as soon as a signal arrived, the last of them, and it stays noted; and none is once it was
/// handed back.
pub proof fn a_note_lives_from_install_to_hand_back(earlier: Option<i32>, signals: Seq<i32>)
    requires
        forall|i: int| 0 <= i < signals.len() ==> #[trigger] signals[i] != 0,
    ensures
        note_after_all(earlier, caught(signals)) == (if signals.len() == 0 {
            None
        } else {
            Some(signals.last())
        }),
        note_after_all(earlier, caught(signals).push(NoteEvent::HandBack)) is None,
{
    let run = caught(signals);
    assert(run.push(NoteEvent::HandBack).drop_last() =~= run);
    if signals.len() == 0 {
        assert(run =~= seq![NoteEvent::Install]);
        assert(run.last() == NoteEvent::Install);
    } else {
        assert(run.last() == NoteEvent::Signal(signals.last()));
    }
}

} // verus!
