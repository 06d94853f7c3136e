//! What was already decided about an override, for one control of one open camera.
//!
//! The answer is computed once and reused, a refusal or a failed write included: repeated writes
//! of bytes that nothing here can check are what the record exists to stop.
use vstd::prelude::*;
use crate::text::{copy_bytes, same_bytes};

verus! {

/// Which control on which open device a decision was about. The device is the kernel's number of
/// the character device behind the open file, so it cannot be spelled two ways.
#[derive(Clone, Copy, Debug, PartialEq, Eq, Structural)]
pub struct OverrideKey {
    pub rdev: u64,
    pub interface_number: u8,
    pub vid: u16,
    pub pid: u16,
    pub unit: u8,
    pub selector: u8,
}

/// What was decided, and for which bytes.
#[derive(Clone, Debug, PartialEq, Eq)]
pub struct OverrideDecision {
    pub payload: Vec<u8>,
    pub applied: bool,
}

/// What was decided, and for which bytes, as values.
pub struct DecisionView {
    pub payload: Seq<u8>,
    pub applied: bool,
}

impl View for OverrideDecision {
    type V = DecisionView;

    open spec fn view(&self) -> DecisionView {
        DecisionView { payload: self.payload@, applied: self.applied }
    }
}

/// What an existing record means for the value now being asked for.
#[derive(Clone, Copy, Debug, PartialEq, Eq, Structural)]
pub enum Reuse {
    /// The same bytes were already decided; that answer stands.
    Answer(bool),
    /// The same control, different bytes. Neither answering from the record nor writing again is
    /// right, so refuse.
    RefuseChanged,
    /// Nothing decided yet.
    Decide,
}

/// What an existing record means for the bytes now being asked for.
pub open spec fn reused(existing: Option<DecisionView>, wanted: Seq<u8>) -> Reuse {
    match existing {
        None => Reuse::Decide,
        Some(decision) => if decision.payload == wanted {
            Reuse::Answer(decision.applied)
        } else {
            Reuse::RefuseChanged
        },
    }
}

/// A decision, or none, as a value.
pub open spec fn decision_view(decision: Option<&OverrideDecision>) -> Option<DecisionView> {
    match decision {
        Some(decision) => Some(decision@),
        None => None,
    }
}

/// What an existing record means for the bytes now being asked for.
#[must_use]
pub fn reuse(existing: Option<&OverrideDecision>, wanted: &[u8]) -> (r: Reuse)
    ensures
        r == reused(decision_view(existing), wanted@),
{
    match existing {
        None => Reuse::Decide,
        Some(decision) => if same_bytes(decision.payload.as_slice(), wanted) {
            Reuse::Answer(decision.applied)
        } else {
            Reuse::RefuseChanged
        },
    }
}

/// The decisions of one process, the latest first.
pub struct OverrideMemo {
    entries: Vec<(OverrideKey, OverrideDecision)>,
}

/// The first decision about a control.
pub open spec fn first_decision(
    entries: Seq<(OverrideKey, OverrideDecision)>,
    key: OverrideKey,
) -> Option<DecisionView>
    decreases entries.len(),
{
    if entries.len() == 0 {
        None
    } else if entries[0].0 == key {
        Some(entries[0].1@)
    } else {
        first_decision(entries.skip(1), key)
    }
}

impl OverrideMemo {
    /// What was decided about a control.
    pub closed spec fn decided(self, key: OverrideKey) -> Option<DecisionView> {
        first_decision(self.entries@, key)
    }

    /// No decision yet.
    #[must_use]
    pub fn new() -> (r: Self)
        ensures
            forall|key: OverrideKey| #[trigger] r.decided(key) is None,
    {
        OverrideMemo { entries: Vec::new() }
    }

    /// What was decided about the control.
    #[must_use]
    pub fn get(&self, key: OverrideKey) -> (r: Option<&OverrideDecision>)
        ensures
            decision_view(r) == self.decided(key),
    {
        let mut i: usize = 0;
        assert(self.entries@.skip(0) =~= self.entries@);
        while i < self.entries.len()
            invariant
                i <= self.entries@.len(),
                self.decided(key) == first_decision(self.entries@.skip(i as int), key),
            decreases self.entries@.len() - i,
        {
            if self.entries[i].0 == key {
                return Some(&self.entries[i].1);
            }
            assert(self.entries@.skip(i as int).skip(1) =~= self.entries@.skip(i as int + 1));
            i = i + 1;
        }
        None
    }

    /// What the record means for the bytes now being asked for.
    #[must_use]
    pub fn consult(&self, key: OverrideKey, wanted: &[u8]) -> (r: Reuse)
        ensures
            r == reused(self.decided(key), wanted@),
    {
        reuse(self.get(key), wanted)
    }

    /// Records what was decided about a control, where nothing was: a decision stands for the rest
    /// of the process.
    pub fn settle(&mut self, key: OverrideKey, payload: &[u8], applied: bool)
        ensures
            final(self).decided(key) == (match old(self).decided(key) {
                Some(decision) => Some(decision),
                None => Some(DecisionView { payload: payload@, applied }),
            }),
            forall|other: OverrideKey|
                other != key ==> #[trigger] final(self).decided(other) == old(self).decided(other),
    {
        if self.get(key).is_some() {
            return;
        }
        let ghost before = self.entries@;
        self.entries.insert(0, (key, OverrideDecision { payload: copy_bytes(payload), applied }));
        assert(self.entries@.skip(1) =~= before);
    }
}

// ---------------------------------------------------------------------------------------------
// Laws
// ---------------------------------------------------------------------------------------------

/// Once bytes were decided for a control, no other bytes are ever asked of the camera for it, and
/// a refusal of those bytes stands.
pub proof fn a_decision_stands(existing: DecisionView, wanted: Seq<u8>)
    ensures
        reused(Some(existing), wanted) != Reuse::Decide,
        wanted != existing.payload ==> reused(Some(existing), wanted) == Reuse::RefuseChanged,
        wanted == existing.payload ==> reused(Some(existing), wanted) == Reuse::Answer(
            existing.applied,
        ),
{
}

/// A control about which nothing was decided is decided, whatever the bytes; and what is decided is
/// the answer for the same bytes from then on.
pub proof fn a_new_control_is_decided(wanted: Seq<u8>, applied: bool)
    ensures
        reused(None, wanted) == Reuse::Decide,
        reused(Some(DecisionView { payload: wanted, applied }), wanted) == Reuse::Answer(applied),
{
}

} // verus!
