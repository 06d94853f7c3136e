//! Continuity of the sequence numbers of one capture stream.
use vstd::prelude::*;

verus! {

/// Why sequence continuity can no longer be represented safely.
#[derive(Clone, Copy, Debug, PartialEq, Eq, Structural)]
#[non_exhaustive]
pub enum SequenceTrackerError {
    DropCounterOverflow,
    StreamEpochOverflow,
    TrackerFailed,
}

impl SequenceTrackerError {
    /// The sentence that describes the error.
    pub open spec fn spec_message(self) -> Seq<char> {
        match self {
            SequenceTrackerError::DropCounterOverflow => "V4L2 sequence drop counter overflowed"@,
            SequenceTrackerError::StreamEpochOverflow => "V4L2 sequence stream epoch overflowed"@,
            SequenceTrackerError::TrackerFailed => "V4L2 sequence tracker is permanently failed"@,
        }
    }

    /// The sentence that describes the error.
    pub fn message(&self) -> (r: String)
        ensures
            r@ == self.spec_message(),
    {
        match self {
            SequenceTrackerError::DropCounterOverflow =>
                "V4L2 sequence drop counter overflowed".to_owned(),
            SequenceTrackerError::StreamEpochOverflow =>
                "V4L2 sequence stream epoch overflowed".to_owned(),
            SequenceTrackerError::TrackerFailed =>
                "V4L2 sequence tracker is permanently failed".to_owned(),
        }
    }
}

/// Derived continuity facts for one dequeued V4L2 sequence number.
#[derive(Clone, Copy, Debug, PartialEq, Eq, Structural)]
pub struct SequenceObservation {
    pub raw: u32,
    pub advance: Option<u32>,
    pub gap: u32,
    pub cumulative_drops: u64,
    pub discontinuity: bool,
    pub stream_epoch: u64,
}

impl SequenceObservation {
    #[must_use]
    pub fn raw(&self) -> (r: u32)
        ensures
            r == self.raw,
    {
        self.raw
    }

    #[must_use]
    pub fn advance(&self) -> (r: Option<u32>)
        ensures
            r == self.advance,
    {
        self.advance
    }

    #[must_use]
    pub fn gap(&self) -> (r: u32)
        ensures
            r == self.gap,
    {
        self.gap
    }

    #[must_use]
    pub fn cumulative_drops(&self) -> (r: u64)
        ensures
            r == self.cumulative_drops,
    {
        self.cumulative_drops
    }

    #[must_use]
    pub fn discontinuity(&self) -> (r: bool)
        ensures
            r == self.discontinuity,
    {
        self.discontinuity
    }

    #[must_use]
    pub fn stream_epoch(&self) -> (r: u64)
        ensures
            r == self.stream_epoch,
    {
        self.stream_epoch
    }
}

/// The serial number that lies `advance` steps after `raw`, modulo 2^32.
pub open spec fn serial_after(raw: u32, advance: u32) -> int {
    (raw + advance) % 0x1_0000_0000
}

/// How far a serial number lies after another, modulo 2^32.
pub open spec fn serial_distance(from: u32, to: u32) -> int {
    (to - from) % 0x1_0000_0000
}

/// The steps from one serial number forward to another, where RFC 1982 defines the second as the
/// greater: more than none and fewer than 2^31.
pub open spec fn forward_steps(from: u32, to: u32) -> Option<int> {
    if 0 < serial_distance(from, to) < 0x8000_0000 {
        Some(serial_distance(from, to))
    } else {
        None
    }
}

/// Stateful RFC-1982 sequence continuity tracker for one logical stream.
#[derive(Clone, Debug, PartialEq, Eq, Structural)]
pub struct SequenceTracker {
    pub previous: Option<u32>,
    pub cumulative_drops: u64,
    pub stream_epoch: u64,
    pub pending_discontinuity: bool,
    pub failed: bool,
}

impl Default for SequenceTracker {
    fn default() -> (r: Self)
        ensures
            r == SequenceTracker::fresh(),
    {
        SequenceTracker::new()
    }
}

impl SequenceTracker {
    /// A tracker that has seen nothing.
    pub open spec fn fresh() -> Self {
        SequenceTracker {
            previous: None,
            cumulative_drops: 0,
            stream_epoch: 0,
            pending_discontinuity: false,
            failed: false,
        }
    }

    /// The steps from the previous serial number forward to `raw`, if there is such a number and
    /// such a way.
    pub open spec fn steps_to(self, raw: u32) -> Option<int> {
        if self.previous is Some {
            forward_steps(self.previous->0, raw)
        } else {
            None
        }
    }

    /// Whether `raw` does not follow the previous serial number: a repeat, a step back, or a
    /// distance at which RFC 1982 defines no order.
    pub open spec fn breaks(self, raw: u32) -> bool {
        self.previous is Some && self.steps_to(raw) is None
    }

    /// The frames missing between the previous serial number and `raw`.
    pub open spec fn missing(self, raw: u32) -> int {
        if self.steps_to(raw) is Some {
            self.steps_to(raw)->0 - 1
        } else {
            0
        }
    }

    /// What observing a sequence number answers.
    pub open spec fn observed(self, raw: u32) -> Result<SequenceObservation, SequenceTrackerError> {
        if self.failed {
            Err(SequenceTrackerError::TrackerFailed)
        } else if self.breaks(raw) && self.stream_epoch == u64::MAX {
            Err(SequenceTrackerError::StreamEpochOverflow)
        } else if self.cumulative_drops + self.missing(raw) > u64::MAX {
            Err(SequenceTrackerError::DropCounterOverflow)
        } else {
            Ok(
                SequenceObservation {
                    raw,
                    advance: if self.steps_to(raw) is Some {
                        Some(self.steps_to(raw)->0 as u32)
                    } else {
                        None
                    },
                    gap: self.missing(raw) as u32,
                    cumulative_drops: (self.cumulative_drops + self.missing(raw)) as u64,
                    discontinuity: self.breaks(raw) || self.pending_discontinuity,
                    stream_epoch: if self.breaks(raw) {
                        (self.stream_epoch + 1) as u64
                    } else {
                        self.stream_epoch
                    },
                },
            )
        }
    }

    /// The tracker after it has observed a sequence number that was delivered.
    pub open spec fn after_observe(self, raw: u32) -> Self {
        match self.observed(raw) {
            Ok(observation) => SequenceTracker {
                previous: Some(raw),
                cumulative_drops: observation.cumulative_drops,
                stream_epoch: observation.stream_epoch,
                pending_discontinuity: false,
                failed: false,
            },
            Err(_) => SequenceTracker { failed: true, ..self },
        }
    }

    /// The tracker after it has observed a sequence number whose frame was discarded: a
    /// discontinuity, old or new, stays marked.
    pub open spec fn after_discard(self, raw: u32) -> Self {
        match self.observed(raw) {
            Ok(observation) => SequenceTracker {
                pending_discontinuity: observation.discontinuity,
                ..self.after_observe(raw)
            },
            Err(_) => self.after_observe(raw),
        }
    }

    /// What starting a recovered epoch answers.
    pub open spec fn epoch_begun(self) -> Result<(), SequenceTrackerError> {
        if self.failed {
            Err(SequenceTrackerError::TrackerFailed)
        } else if self.stream_epoch == u64::MAX {
            Err(SequenceTrackerError::StreamEpochOverflow)
        } else {
            Ok(())
        }
    }

    /// The tracker after starting a recovered epoch.
    pub open spec fn after_begin(self) -> Self {
        if self.epoch_begun() is Err {
            SequenceTracker { failed: true, ..self }
        } else {
            SequenceTracker {
                previous: None,
                stream_epoch: (self.stream_epoch + 1) as u64,
                pending_discontinuity: true,
                ..self
            }
        }
    }

    #[must_use]
    pub fn new() -> (r: Self)
        ensures
            r == SequenceTracker::fresh(),
    {
        SequenceTracker {
            previous: None,
            cumulative_drops: 0,
            stream_epoch: 0,
            pending_discontinuity: false,
            failed: false,
        }
    }

    /// Mark a successfully replaced stream as a new discontinuous epoch.
    ///
    /// The marker remains pending until the next observed (delivered) frame, so
    /// discarded warm-up dequeues cannot consume the recovery evidence.
    ///
    /// # Errors
    ///
    /// Returns [`SequenceTrackerError::StreamEpochOverflow`] and permanently
    /// fails the tracker when the epoch cannot be represented.
    pub fn begin_new_epoch(&mut self) -> (r: Result<(), SequenceTrackerError>)
        ensures
            r == old(self).epoch_begun(),
            *final(self) == old(self).after_begin(),
    {
        if self.failed {
            return Err(SequenceTrackerError::TrackerFailed);
        }
        if self.stream_epoch == u64::MAX {
            self.failed = true;
            return Err(SequenceTrackerError::StreamEpochOverflow);
        }
        self.stream_epoch = self.stream_epoch + 1;
        self.previous = None;
        self.pending_discontinuity = true;
        Ok(())
    }

    /// Observes the sequence number of a frame that is not delivered: a discontinuity stays
    /// marked for the first frame that is.
    pub fn observe_discarded(&mut self, raw: u32) -> (r: Result<
        SequenceObservation,
        SequenceTrackerError,
    >)
        ensures
            r == old(self).observed(raw),
            *final(self) == old(self).after_discard(raw),
    {
        match self.observe(raw) {
            Ok(observation) => {
                if observation.discontinuity() {
                    self.pending_discontinuity = true;
                }
                Ok(observation)
            },
            Err(error) => Err(error),
        }
    }

    /// Observe one raw sequence value.
    ///
    /// # Errors
    ///
    /// Returns [`SequenceTrackerError`] after an unrepresentable counter state.
    pub fn observe(&mut self, raw: u32) -> (r: Result<SequenceObservation, SequenceTrackerError>)
        ensures
            r == old(self).observed(raw),
            *final(self) == old(self).after_observe(raw),
    {
        if self.failed {
            return Err(SequenceTrackerError::TrackerFailed);
        }
        let mut gap: u32 = 0;
        let mut transition_discontinuity = false;
        let mut advance: Option<u32> = None;
        if let Some(previous) = self.previous {
            let delta: u32 = raw.wrapping_sub(previous);
            assert(delta == serial_distance(previous, raw));
            if 1 <= delta && delta < 0x8000_0000 {
                gap = delta - 1;
                advance = Some(delta);
            } else {
                transition_discontinuity = true;
            }
        }
        if transition_discontinuity {
            if self.stream_epoch == u64::MAX {
                self.failed = true;
                return Err(SequenceTrackerError::StreamEpochOverflow);
            }
            self.stream_epoch = self.stream_epoch + 1;
        }
        if gap != 0 {
            match self.cumulative_drops.checked_add(gap as u64) {
                Some(cumulative_drops) => {
                    self.cumulative_drops = cumulative_drops;
                },
                None => {
                    self.failed = true;
                    return Err(SequenceTrackerError::DropCounterOverflow);
                },
            }
        }
        let discontinuity = transition_discontinuity || self.pending_discontinuity;
        self.previous = Some(raw);
        self.pending_discontinuity = false;
        Ok(
            SequenceObservation {
                raw,
                advance,
                gap,
                cumulative_drops: self.cumulative_drops,
                discontinuity,
                stream_epoch: self.stream_epoch,
            },
        )
    }

    pub fn previous_for_test(&self) -> (r: Option<u32>)
        ensures
            r == self.previous,
    {
        self.previous
    }

    pub fn continuity_state_for_test(&self) -> (r: (Option<u32>, u64, u64, bool, bool))
        ensures
            r == (
                self.previous,
                self.cumulative_drops,
                self.stream_epoch,
                self.pending_discontinuity,
                self.failed,
            ),
    {
        (
            self.previous,
            self.cumulative_drops,
            self.stream_epoch,
            self.pending_discontinuity,
            self.failed,
        )
    }

    /// Exhausts the epoch counter, so that the next recovery overflows it.
    pub fn force_stream_epoch_overflow_on_recovery(&mut self)
        ensures
            *final(self) == (SequenceTracker { stream_epoch: u64::MAX, ..*old(self) }),
    {
        self.stream_epoch = u64::MAX;
    }

    pub fn stream_epoch_for_test(&self) -> (r: u64)
        ensures
            r == self.stream_epoch,
    {
        self.stream_epoch
    }

    pub fn failed_for_test(&self) -> (r: bool)
        ensures
            r == self.failed,
    {
        self.failed
    }

    /// Exhausts the drop counter, so that the next gap overflows it.
    pub fn force_drop_overflow_on_next_gap(&mut self)
        ensures
            *final(self) == (SequenceTracker {
                previous: Some(1),
                cumulative_drops: u64::MAX,
                ..*old(self)
            }),
    {
        self.previous = Some(1);
        self.cumulative_drops = u64::MAX;
    }
}

// ---------------------------------------------------------------------------------------------
// Laws
// ---------------------------------------------------------------------------------------------

/// One thing that can happen to a sequence tracker.
pub ghost enum SequenceStep {
    Observe(u32),
    Discard(u32),
    Begin,
}

impl SequenceTracker {
    /// The tracker after one step.
    pub open spec fn after_step(self, step: SequenceStep) -> Self {
        match step {
            SequenceStep::Observe(raw) => self.after_observe(raw),
            SequenceStep::Discard(raw) => self.after_discard(raw),
            SequenceStep::Begin => self.after_begin(),
        }
    }

    /// The frames that one step reports missing.
    pub open spec fn gap_of(self, step: SequenceStep) -> int {
        match step {
            SequenceStep::Observe(raw) => if self.observed(raw) is Ok {
                self.observed(raw)->Ok_0.gap as int
            } else {
                0
            },
            SequenceStep::Discard(raw) => if self.observed(raw) is Ok {
                self.observed(raw)->Ok_0.gap as int
            } else {
                0
            },
            SequenceStep::Begin => 0,
        }
    }

    /// The tracker after a run of steps, the first of them first.
    pub open spec fn after_steps(self, steps: Seq<SequenceStep>) -> Self
        decreases steps.len(),
    {
        if steps.len() == 0 {
            self
        } else {
            self.after_steps(steps.drop_last()).after_step(steps.last())
        }
    }

    /// The frames that a run of steps reports missing, all together.
    pub open spec fn gaps_of(self, steps: Seq<SequenceStep>) -> int
        decreases steps.len(),
    {
        if steps.len() == 0 {
            0
        } else {
            self.gaps_of(steps.drop_last()) + self.after_steps(steps.drop_last()).gap_of(
                steps.last(),
            )
        }
    }
}

/// The drop counter is exact: over any run it grows by the sum of the gaps that were reported,
/// and neither it nor the epoch counter ever goes back.
pub proof fn drop_counter_sums_the_reported_gaps(
    tracker: SequenceTracker,
    steps: Seq<SequenceStep>,
)
    ensures
        tracker.after_steps(steps).cumulative_drops == tracker.cumulative_drops + tracker.gaps_of(
            steps,
        ),
        tracker.gaps_of(steps) >= 0,
        tracker.after_steps(steps).stream_epoch >= tracker.stream_epoch,
    decreases steps.len(),
{
    if steps.len() > 0 {
        drop_counter_sums_the_reported_gaps(tracker, steps.drop_last());
    }
}

/// A failed tracker is failed for good: after any steps it is as it was, and answers every
/// number and every recovery with `TrackerFailed`.
pub proof fn sequence_failure_is_permanent(
    tracker: SequenceTracker,
    steps: Seq<SequenceStep>,
    raw: u32,
)
    requires
        tracker.failed,
    ensures
        tracker.after_steps(steps) == tracker,
        tracker.after_steps(steps).observed(raw) == Err::<SequenceObservation, SequenceTrackerError>(
            SequenceTrackerError::TrackerFailed,
        ),
        tracker.after_steps(steps).epoch_begun() == Err::<(), SequenceTrackerError>(
            SequenceTrackerError::TrackerFailed,
        ),
    decreases steps.len(),
{
    if steps.len() > 0 {
        sequence_failure_is_permanent(tracker, steps.drop_last(), raw);
    }
}

/// A recovered epoch's marker outlives everything that is discarded: if the first delivered
/// number after the recovery is accepted, it carries the discontinuity.
pub proof fn recovery_marks_the_first_delivered_number(
    tracker: SequenceTracker,
    discarded: Seq<SequenceStep>,
    raw: u32,
)
    requires
        tracker.pending_discontinuity,
        forall|i: int| 0 <= i < discarded.len() ==> (#[trigger] discarded[i]) is Discard,
    ensures
        ({
            let waiting = tracker.after_steps(discarded);
            &&& waiting.pending_discontinuity
            &&& waiting.observed(raw) is Ok ==> waiting.observed(raw)->Ok_0.discontinuity
        }),
    decreases discarded.len(),
{
    if discarded.len() > 0 {
        let shorter = discarded.drop_last();
        assert forall|i: int| 0 <= i < shorter.len() implies (#[trigger] shorter[i]) is Discard by {
            assert(shorter[i] == discarded[i]);
        }
        recovery_marks_the_first_delivered_number(tracker, shorter, raw);
        assert(discarded[discarded.len() - 1] is Discard);
    }
}

/// Two numbers accepted in a row either stay in one epoch, where the second lies its reported
/// advance after the first and reports one frame fewer missing, or the second starts a new epoch
/// and says so.
pub proof fn accepted_numbers_follow_or_say_so(tracker: SequenceTracker, first: u32, second: u32)
    requires
        tracker.observed(first) is Ok,
        tracker.after_observe(first).observed(second) is Ok,
    ensures
        ({
            let a = tracker.observed(first)->Ok_0;
            let b = tracker.after_observe(first).observed(second)->Ok_0;
            if b.advance is Some {
                &&& !b.discontinuity
                &&& b.stream_epoch == a.stream_epoch
                &&& b.raw == serial_after(a.raw, b.advance->0)
                &&& b.gap == b.advance->0 - 1
                &&& b.cumulative_drops == a.cumulative_drops + b.gap
            } else {
                &&& b.discontinuity
                &&& b.stream_epoch == a.stream_epoch + 1
                &&& b.gap == 0
                &&& b.cumulative_drops == a.cumulative_drops
            }
        }),
{
}

/// A number that lies fewer than 2^31 steps after the previous one, modulo 2^32, is accepted as what
/// it is: so many steps on, the frames between them missing and added to the counter, in the same
/// epoch. It is marked as discontinuous only where a mark is still pending.
pub proof fn a_number_ahead_is_accepted(tracker: SequenceTracker, raw: u32, steps: int)
    requires
        !tracker.failed,
        tracker.previous is Some,
        0 < steps < 0x8000_0000,
        raw == tracker.previous->0 + steps || raw == tracker.previous->0 + steps - 0x1_0000_0000,
        tracker.cumulative_drops + steps - 1 <= u64::MAX,
    ensures
        tracker.observed(raw) == Ok::<SequenceObservation, SequenceTrackerError>(
            SequenceObservation {
                raw,
                advance: Some(steps as u32),
                gap: (steps - 1) as u32,
                cumulative_drops: (tracker.cumulative_drops + steps - 1) as u64,
                discontinuity: tracker.pending_discontinuity,
                stream_epoch: tracker.stream_epoch,
            },
        ),
        tracker.after_observe(raw) == (SequenceTracker {
            previous: Some(raw),
            cumulative_drops: (tracker.cumulative_drops + steps - 1) as u64,
            stream_epoch: tracker.stream_epoch,
            pending_discontinuity: false,
            failed: false,
        }),
        tracker.after_discard(raw) == (SequenceTracker {
            pending_discontinuity: tracker.pending_discontinuity,
            ..tracker.after_observe(raw)
        }),
{
}

/// A number that cannot be counted without wrapping the drop counter fails the tracker.
pub proof fn an_uncountable_gap_fails_the_tracker(tracker: SequenceTracker, raw: u32, steps: int)
    requires
        !tracker.failed,
        tracker.previous is Some,
        0 < steps < 0x8000_0000,
        raw == tracker.previous->0 + steps || raw == tracker.previous->0 + steps - 0x1_0000_0000,
        tracker.cumulative_drops + steps - 1 > u64::MAX,
    ensures
        tracker.observed(raw) == Err::<SequenceObservation, SequenceTrackerError>(
            SequenceTrackerError::DropCounterOverflow,
        ),
        tracker.after_observe(raw).failed,
        tracker.after_discard(raw).failed,
{
}

/// The first number of a tracker or of a recovered epoch is accepted whatever it is: it is no step
/// from anything, and nothing is missing before it.
pub proof fn a_first_number_is_accepted(tracker: SequenceTracker, raw: u32)
    requires
        !tracker.failed,
        tracker.previous is None,
    ensures
        tracker.observed(raw) == Ok::<SequenceObservation, SequenceTrackerError>(
            SequenceObservation {
                raw,
                advance: None,
                gap: 0,
                cumulative_drops: tracker.cumulative_drops,
                discontinuity: tracker.pending_discontinuity,
                stream_epoch: tracker.stream_epoch,
            },
        ),
        tracker.after_observe(raw) == (SequenceTracker {
            previous: Some(raw),
            pending_discontinuity: false,
            ..tracker
        }),
        tracker.after_discard(raw) == (SequenceTracker { previous: Some(raw), ..tracker }),
{
}

/// A number that repeats the previous one, or lies 2^31 steps ahead or more, which is behind it,
/// starts a new epoch and says so; nothing is counted as missing. A discarded one leaves the mark
/// for the next. Where the epochs are used up, the tracker fails.
pub proof fn a_number_that_does_not_follow_starts_an_epoch(
    tracker: SequenceTracker,
    raw: u32,
    steps: int,
)
    requires
        !tracker.failed,
        tracker.previous is Some,
        steps == 0 || 0x8000_0000 <= steps < 0x1_0000_0000,
        raw == tracker.previous->0 + steps || raw == tracker.previous->0 + steps - 0x1_0000_0000,
    ensures
        tracker.stream_epoch < u64::MAX ==> {
            &&& tracker.observed(raw) == Ok::<SequenceObservation, SequenceTrackerError>(
                SequenceObservation {
                    raw,
                    advance: None,
                    gap: 0,
                    cumulative_drops: tracker.cumulative_drops,
                    discontinuity: true,
                    stream_epoch: (tracker.stream_epoch + 1) as u64,
                },
            )
            &&& tracker.after_observe(raw) == (SequenceTracker {
                previous: Some(raw),
                cumulative_drops: tracker.cumulative_drops,
                stream_epoch: (tracker.stream_epoch + 1) as u64,
                pending_discontinuity: false,
                failed: false,
            })
            &&& tracker.after_discard(raw).pending_discontinuity
            &&& tracker.after_discard(raw).previous == Some(raw)
        },
        tracker.stream_epoch == u64::MAX ==> tracker.observed(raw) == Err::<
            SequenceObservation,
            SequenceTrackerError,
        >(SequenceTrackerError::StreamEpochOverflow) && tracker.after_observe(raw).failed,
{
}

/// A recovered epoch follows the last one, forgets the number that came before and is marked; what
/// was counted as missing stays. Where the epochs are used up, the tracker fails instead.
pub proof fn a_recovered_sequence_epoch_starts_anew(tracker: SequenceTracker)
    requires
        !tracker.failed,
    ensures
        tracker.stream_epoch < u64::MAX ==> tracker.epoch_begun() is Ok && tracker.after_begin()
            == (SequenceTracker {
            previous: None,
            cumulative_drops: tracker.cumulative_drops,
            stream_epoch: (tracker.stream_epoch + 1) as u64,
            pending_discontinuity: true,
            failed: false,
        }),
        tracker.stream_epoch == u64::MAX ==> tracker.epoch_begun() == Err::<
            (),
            SequenceTrackerError,
        >(SequenceTrackerError::StreamEpochOverflow) && tracker.after_begin().failed,
{
}

/// A new tracker has counted nothing, and its first number is neither marked nor missing anything.
pub proof fn a_new_sequence_starts_unmarked(raw: u32)
    ensures
        SequenceTracker::fresh().observed(raw) == Ok::<SequenceObservation, SequenceTrackerError>(
            SequenceObservation {
                raw,
                advance: None,
                gap: 0,
                cumulative_drops: 0,
                discontinuity: false,
                stream_epoch: 0,
            },
        ),
{
}

/// The steps that a serial number lies after another, taken from that other, lead to it.
pub proof fn serial_steps_lead_there(from: u32, to: u32)
    ensures
        serial_after(from, serial_distance(from, to) as u32) == to,
        0 <= serial_distance(from, to) < 0x1_0000_0000,
        from <= to ==> serial_distance(from, to) == to - from,
{
}

} // verus!
