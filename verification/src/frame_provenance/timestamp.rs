//! Continuity of the timestamps of one capture stream.
use vstd::prelude::*;
use crate::text::{push_signed_decimal, signed_decimal};

verus! {

/// Clock domain reported in the known V4L2 timestamp-type bits.
#[derive(Clone, Copy, Debug, PartialEq, Eq, Structural)]
pub enum TimestampClock {
    Unknown,
    Monotonic,
    Copy,
}

impl TimestampClock {
    /// The name of the clock domain.
    pub open spec fn spec_name(self) -> Seq<char> {
        match self {
            TimestampClock::Unknown => "Unknown"@,
            TimestampClock::Monotonic => "Monotonic"@,
            TimestampClock::Copy => "Copy"@,
        }
    }

    /// The name of the clock domain.
    pub fn name(&self) -> (r: &'static str)
        ensures
            r@ == self.spec_name(),
    {
        match self {
            TimestampClock::Unknown => "Unknown",
            TimestampClock::Monotonic => "Monotonic",
            TimestampClock::Copy => "Copy",
        }
    }
}

/// Capture event represented by the V4L2 timestamp.
#[derive(Clone, Copy, Debug, PartialEq, Eq, Structural)]
pub enum TimestampSource {
    EndOfFrame,
    StartOfExposure,
}

impl TimestampSource {
    /// The name of the capture event.
    pub open spec fn spec_name(self) -> Seq<char> {
        match self {
            TimestampSource::EndOfFrame => "EndOfFrame"@,
            TimestampSource::StartOfExposure => "StartOfExposure"@,
        }
    }

    /// The name of the capture event.
    pub fn name(&self) -> (r: &'static str)
        ensures
            r@ == self.spec_name(),
    {
        match self {
            TimestampSource::EndOfFrame => "EndOfFrame",
            TimestampSource::StartOfExposure => "StartOfExposure",
        }
    }
}

/// Derived continuity facts for one trusted V4L2 timestamp.
#[derive(Clone, Copy, Debug, PartialEq, Eq, Structural)]
pub struct TimestampObservation {
    pub micros: i64,
    pub delta_micros: Option<u64>,
    pub clock: TimestampClock,
    pub source: TimestampSource,
    pub discontinuity: bool,
    pub stream_epoch: u64,
}

impl TimestampObservation {
    #[must_use]
    pub fn micros(&self) -> (r: i64)
        ensures
            r == self.micros,
    {
        self.micros
    }

    #[must_use]
    pub fn delta_micros(&self) -> (r: Option<u64>)
        ensures
            r == self.delta_micros,
    {
        self.delta_micros
    }

    #[must_use]
    pub fn clock(&self) -> (r: TimestampClock)
        ensures
            r == self.clock,
    {
        self.clock
    }

    #[must_use]
    pub fn source(&self) -> (r: TimestampSource)
        ensures
            r == self.source,
    {
        self.source
    }

    #[must_use]
    pub fn discontinuity(&self) -> (r: bool)
        ensures
            r == self.discontinuity,
    {
        self.discontinuity
    }

    #[must_use]
    pub fn stream_epoch(&self) -> (r: u64)
        ensures
            r == self.stream_epoch,
    {
        self.stream_epoch
    }
}

/// Why trusted timestamp continuity cannot advance.
#[derive(Clone, Copy, Debug, PartialEq, Eq, Structural)]
#[non_exhaustive]
#[allow(inconsistent_fields)]
pub enum TimestampTrackerError {
    /// The first timestamp did not name the monotonic clock.
    UntrustedClock(TimestampClock),
    /// Zero cannot identify a valid frame instant.
    ZeroTimestamp,
    /// Negative keys are outside the normalized dequeue domain.
    NegativeTimestamp(i64),
    /// The timestamp clock changed inside a live stream epoch.
    ClockChanged { expected: TimestampClock, actual: TimestampClock },
    /// The driver-selected timestamp event changed inside a live stream epoch.
    SourceChanged { expected: TimestampSource, actual: TimestampSource },
    /// The timestamp repeated or moved backward inside an epoch.
    NonIncreasing { previous: i64, current: i64 },
    /// The epoch counter cannot advance without wrapping.
    StreamEpochOverflow,
    /// This epoch saw invalid evidence and requires explicit recovery.
    EpochFailed,
    /// Checked arithmetic previously exhausted and permanently poisoned the tracker.
    TrackerFailed,
}

impl TimestampTrackerError {
    /// The sentence that describes the error.
    pub open spec fn spec_message(self) -> Seq<char> {
        match self {
            TimestampTrackerError::UntrustedClock(clock) => "untrusted timestamp clock "@
                + clock.spec_name(),
            TimestampTrackerError::ZeroTimestamp =>
                "zero timestamp cannot identify a frame instant"@,
            TimestampTrackerError::NegativeTimestamp(value) => "negative timestamp "@
                + signed_decimal(value as int) + "us"@,
            TimestampTrackerError::ClockChanged { expected, actual } =>
                "timestamp clock changed from "@ + expected.spec_name() + " to "@
                    + actual.spec_name(),
            TimestampTrackerError::SourceChanged { expected, actual } =>
                "timestamp source changed from "@ + expected.spec_name() + " to "@
                    + actual.spec_name(),
            TimestampTrackerError::NonIncreasing { previous, current } =>
                "timestamp did not increase: previous "@ + signed_decimal(previous as int)
                    + "us, current "@ + signed_decimal(current as int) + "us"@,
            TimestampTrackerError::StreamEpochOverflow => "timestamp stream epoch overflow"@,
            TimestampTrackerError::EpochFailed =>
                "timestamp epoch is failed; recovery is required"@,
            TimestampTrackerError::TrackerFailed => "timestamp tracker is permanently failed"@,
        }
    }

    /// The sentence that describes the error.
    pub fn message(&self) -> (r: String)
        ensures
            r@ == self.spec_message(),
    {
        match self {
            TimestampTrackerError::UntrustedClock(clock) => {
                let mut s: String = "untrusted timestamp clock ".to_owned();
                s.append(clock.name());
                s
            },
            TimestampTrackerError::ZeroTimestamp =>
                "zero timestamp cannot identify a frame instant".to_owned(),
            TimestampTrackerError::NegativeTimestamp(value) => {
                let mut s: String = "negative timestamp ".to_owned();
                push_signed_decimal(&mut s, *value);
                s.append("us");
                s
            },
            TimestampTrackerError::ClockChanged { expected, actual } => {
                let mut s: String = "timestamp clock changed from ".to_owned();
                s.append(expected.name());
                s.append(" to ");
                s.append(actual.name());
                s
            },
            TimestampTrackerError::SourceChanged { expected, actual } => {
                let mut s: String = "timestamp source changed from ".to_owned();
                s.append(expected.name());
                s.append(" to ");
                s.append(actual.name());
                s
            },
            TimestampTrackerError::NonIncreasing { previous, current } => {
                let mut s: String = "timestamp did not increase: previous ".to_owned();
                push_signed_decimal(&mut s, *previous);
                s.append("us, current ");
                push_signed_decimal(&mut s, *current);
                s.append("us");
                s
            },
            TimestampTrackerError::StreamEpochOverflow =>
                "timestamp stream epoch overflow".to_owned(),
            TimestampTrackerError::EpochFailed =>
                "timestamp epoch is failed; recovery is required".to_owned(),
            TimestampTrackerError::TrackerFailed =>
                "timestamp tracker is permanently failed".to_owned(),
        }
    }
}

/// Timestamp continuity state for one logical capture stream.
#[derive(Clone, Debug, PartialEq, Eq)]
pub struct TimestampTracker {
    pub previous: Option<i64>,
    pub domain: Option<(TimestampClock, TimestampSource)>,
    pub stream_epoch: u64,
    pub pending_discontinuity: bool,
    pub epoch_failed: bool,
    pub failed: bool,
}

impl Default for TimestampTracker {
    fn default() -> (r: Self)
        ensures
            r == TimestampTracker::fresh(),
    {
        TimestampTracker::new()
    }
}

impl TimestampTracker {
    /// A tracker that has seen nothing.
    pub open spec fn fresh() -> Self {
        TimestampTracker {
            previous: None,
            domain: None,
            stream_epoch: 0,
            pending_discontinuity: false,
            epoch_failed: false,
            failed: false,
        }
    }

    /// The fault of one timestamp, of a tracker whose epoch is live: the first of a changed
    /// clock, a changed source, an untrusted clock, a negative, a zero and a non-increasing one.
    pub open spec fn fault(
        self,
        micros: i64,
        clock: TimestampClock,
        source: TimestampSource,
    ) -> Option<TimestampTrackerError> {
        if self.domain is Some && clock != (self.domain->0).0 {
            Some(
                TimestampTrackerError::ClockChanged { expected: (self.domain->0).0, actual: clock },
            )
        } else if self.domain is Some && source != (self.domain->0).1 {
            Some(
                TimestampTrackerError::SourceChanged { expected: (self.domain->0).1, actual: source },
            )
        } else if clock != TimestampClock::Monotonic {
            Some(TimestampTrackerError::UntrustedClock(clock))
        } else if micros < 0 {
            Some(TimestampTrackerError::NegativeTimestamp(micros))
        } else if micros == 0 {
            Some(TimestampTrackerError::ZeroTimestamp)
        } else if self.previous is Some && micros <= self.previous->0 {
            Some(
                TimestampTrackerError::NonIncreasing {
                    previous: self.previous->0,
                    current: micros,
                },
            )
        } else {
            None
        }
    }

    /// What observing a timestamp answers.
    pub open spec fn observed(
        self,
        micros: i64,
        clock: TimestampClock,
        source: TimestampSource,
    ) -> Result<TimestampObservation, TimestampTrackerError> {
        if self.failed {
            Err(TimestampTrackerError::TrackerFailed)
        } else if self.epoch_failed {
            Err(TimestampTrackerError::EpochFailed)
        } else if self.fault(micros, clock, source) is Some {
            Err(self.fault(micros, clock, source)->0)
        } else {
            Ok(
                TimestampObservation {
                    micros,
                    delta_micros: if self.previous is Some && micros - self.previous->0 <= i64::MAX {
                        Some((micros - self.previous->0) as u64)
                    } else {
                        None
                    },
                    clock,
                    source,
                    discontinuity: self.pending_discontinuity,
                    stream_epoch: self.stream_epoch,
                },
            )
        }
    }

    /// The tracker after it has observed a timestamp that was delivered.
    pub open spec fn after_observe(
        self,
        micros: i64,
        clock: TimestampClock,
        source: TimestampSource,
    ) -> Self {
        if self.failed || self.epoch_failed {
            self
        } else if self.fault(micros, clock, source) is Some {
            TimestampTracker { epoch_failed: true, ..self }
        } else {
            TimestampTracker {
                previous: Some(micros),
                domain: Some((clock, source)),
                pending_discontinuity: false,
                ..self
            }
        }
    }

    /// The tracker after it has observed a timestamp whose frame was discarded.
    pub open spec fn after_discard(
        self,
        micros: i64,
        clock: TimestampClock,
        source: TimestampSource,
    ) -> Self {
        TimestampTracker {
            pending_discontinuity: self.pending_discontinuity,
            ..self.after_observe(micros, clock, source)
        }
    }

    /// What starting a recovered epoch answers.
    pub open spec fn epoch_begun(self) -> Result<(), TimestampTrackerError> {
        if self.failed {
            Err(TimestampTrackerError::TrackerFailed)
        } else if self.stream_epoch == u64::MAX {
            Err(TimestampTrackerError::StreamEpochOverflow)
        } else {
            Ok(())
        }
    }

    /// The tracker after starting a recovered epoch.
    pub open spec fn after_begin(self) -> Self {
        if self.failed {
            self
        } else if self.stream_epoch == u64::MAX {
            TimestampTracker { failed: true, ..self }
        } else {
            TimestampTracker {
                previous: None,
                domain: None,
                stream_epoch: (self.stream_epoch + 1) as u64,
                pending_discontinuity: true,
                epoch_failed: false,
                failed: false,
            }
        }
    }

    /// The tracker after its current epoch was declared failed.
    pub open spec fn after_fail(self) -> Self {
        TimestampTracker { epoch_failed: self.epoch_failed || !self.failed, ..self }
    }

    /// What every tracker keeps: an accepted timestamp is positive, and came with the
    /// monotonic clock.
    pub open spec fn well_formed(self) -> bool {
        &&& (self.previous is Some <==> self.domain is Some)
        &&& self.previous is Some ==> self.previous->0 > 0
        &&& self.domain is Some ==> (self.domain->0).0 == TimestampClock::Monotonic
    }

    #[must_use]
    pub fn new() -> (r: Self)
        ensures
            r == TimestampTracker::fresh(),
    {
        TimestampTracker {
            previous: None,
            domain: None,
            stream_epoch: 0,
            pending_discontinuity: false,
            epoch_failed: false,
            failed: false,
        }
    }

    /// Declares the current epoch failed, as one that saw invalid evidence is. A tracker that is
    /// permanently failed stays as it is.
    pub fn fail_current_epoch(&mut self)
        ensures
            *final(self) == old(self).after_fail(),
    {
        if !self.failed {
            self.epoch_failed = true;
        }
    }

    /// Observes the timestamp of a frame that is not delivered: the discontinuity marker of a
    /// recovered epoch stays for the first frame that is.
    pub fn observe_discarded(
        &mut self,
        micros: i64,
        clock: TimestampClock,
        source: TimestampSource,
    ) -> (r: Result<TimestampObservation, TimestampTrackerError>)
        ensures
            r == old(self).observed(micros, clock, source),
            *final(self) == old(self).after_discard(micros, clock, source),
            old(self).well_formed() ==> final(self).well_formed(),
    {
        match self.observe(micros, clock, source) {
            Ok(observation) => {
                if observation.discontinuity() {
                    self.pending_discontinuity = true;
                }
                Ok(observation)
            },
            Err(error) => Err(error),
        }
    }

    /// Starts a recovered stream epoch and resets its timestamp domain.
    ///
    /// # Errors
    ///
    /// Returns [`TimestampTrackerError::StreamEpochOverflow`] when the epoch
    /// counter is exhausted, permanently poisoning the tracker, or
    /// [`TimestampTrackerError::TrackerFailed`] when it was already poisoned.
    pub fn begin_new_epoch(&mut self) -> (r: Result<(), TimestampTrackerError>)
        ensures
            r == old(self).epoch_begun(),
            *final(self) == old(self).after_begin(),
            old(self).well_formed() ==> final(self).well_formed(),
    {
        if self.failed {
            return Err(TimestampTrackerError::TrackerFailed);
        }
        if self.stream_epoch == u64::MAX {
            self.failed = true;
            return Err(TimestampTrackerError::StreamEpochOverflow);
        }
        self.stream_epoch = self.stream_epoch + 1;
        self.previous = None;
        self.domain = None;
        self.pending_discontinuity = true;
        self.epoch_failed = false;
        Ok(())
    }

    /// Validates and records one timestamp in the current stream epoch.
    ///
    /// # Errors
    ///
    /// Returns a [`TimestampTrackerError`] for an untrusted or changed domain,
    /// a non-positive or non-increasing timestamp, or a previously failed
    /// timestamp epoch. A continuity error keeps the epoch failed until
    /// [`Self::begin_new_epoch`] succeeds.
    pub fn observe(
        &mut self,
        micros: i64,
        clock: TimestampClock,
        source: TimestampSource,
    ) -> (r: Result<TimestampObservation, TimestampTrackerError>)
        ensures
            r == old(self).observed(micros, clock, source),
            *final(self) == old(self).after_observe(micros, clock, source),
            old(self).well_formed() ==> final(self).well_formed(),
    {
        if self.failed {
            return Err(TimestampTrackerError::TrackerFailed);
        }
        if self.epoch_failed {
            return Err(TimestampTrackerError::EpochFailed);
        }
        if let Some((expected_clock, expected_source)) = self.domain {
            if clock != expected_clock {
                self.epoch_failed = true;
                return Err(
                    TimestampTrackerError::ClockChanged { expected: expected_clock, actual: clock },
                );
            }
            if source != expected_source {
                self.epoch_failed = true;
                return Err(
                    TimestampTrackerError::SourceChanged {
                        expected: expected_source,
                        actual: source,
                    },
                );
            }
        }
        if clock != TimestampClock::Monotonic {
            self.epoch_failed = true;
            return Err(TimestampTrackerError::UntrustedClock(clock));
        }
        if micros < 0 {
            self.epoch_failed = true;
            return Err(TimestampTrackerError::NegativeTimestamp(micros));
        }
        if micros == 0 {
            self.epoch_failed = true;
            return Err(TimestampTrackerError::ZeroTimestamp);
        }
        let mut delta_micros: Option<u64> = None;
        if let Some(previous) = self.previous {
            if micros <= previous {
                self.epoch_failed = true;
                return Err(TimestampTrackerError::NonIncreasing { previous, current: micros });
            }
            if let Some(delta) = micros.checked_sub(previous) {
                delta_micros = Some(delta as u64);
            }
        }
        self.previous = Some(micros);
        self.domain = Some((clock, source));
        let discontinuity = self.pending_discontinuity;
        self.pending_discontinuity = false;
        Ok(
            TimestampObservation {
                micros,
                delta_micros,
                clock,
                source,
                discontinuity,
                stream_epoch: self.stream_epoch,
            },
        )
    }

    /// Exhausts the epoch counter, so that the next recovery overflows it.
    pub fn force_stream_epoch_overflow_on_recovery(&mut self)
        ensures
            *final(self) == (TimestampTracker { stream_epoch: u64::MAX, ..*old(self) }),
    {
        self.stream_epoch = u64::MAX;
    }

    pub fn stream_epoch_for_test(&self) -> (r: u64)
        ensures
            r == self.stream_epoch,
    {
        self.stream_epoch
    }

    pub fn failed_for_test(&self) -> (r: bool)
        ensures
            r == self.failed,
    {
        self.failed
    }

    pub fn previous_for_test(&self) -> (r: Option<i64>)
        ensures
            r == self.previous,
    {
        self.previous
    }

    pub fn continuity_state_for_test(&self) -> (r: (
        Option<i64>,
        Option<(TimestampClock, TimestampSource)>,
        u64,
        bool,
    ))
        ensures
            r == (self.previous, self.domain, self.stream_epoch, self.pending_discontinuity),
    {
        (self.previous, self.domain, self.stream_epoch, self.pending_discontinuity)
    }

    pub fn epoch_failed_for_test(&self) -> (r: bool)
        ensures
            r == self.epoch_failed,
    {
        self.epoch_failed
    }
}

// ---------------------------------------------------------------------------------------------
// Laws
// ---------------------------------------------------------------------------------------------

/// One thing that can happen to a timestamp tracker.
pub ghost enum TimestampStep {
    Observe(i64, TimestampClock, TimestampSource),
    Discard(i64, TimestampClock, TimestampSource),
    Begin,
    Fail,
}

impl TimestampTracker {
    /// The tracker after one step.
    pub open spec fn after_step(self, step: TimestampStep) -> Self {
        match step {
            TimestampStep::Observe(micros, clock, source) => self.after_observe(
                micros,
                clock,
                source,
            ),
            TimestampStep::Discard(micros, clock, source) => self.after_discard(
                micros,
                clock,
                source,
            ),
            TimestampStep::Begin => self.after_begin(),
            TimestampStep::Fail => self.after_fail(),
        }
    }

    /// The tracker after a run of steps, the first of them first.
    pub open spec fn after_steps(self, steps: Seq<TimestampStep>) -> Self
        decreases steps.len(),
    {
        if steps.len() == 0 {
            self
        } else {
            self.after_steps(steps.drop_last()).after_step(steps.last())
        }
    }
}

/// Whatever happens to a well-formed tracker, it stays well-formed and its epoch counter never
/// goes back.
pub proof fn timestamp_steps_keep_the_invariant(
    tracker: TimestampTracker,
    steps: Seq<TimestampStep>,
)
    requires
        tracker.well_formed(),
    ensures
        tracker.after_steps(steps).well_formed(),
        tracker.after_steps(steps).stream_epoch >= tracker.stream_epoch,
    decreases steps.len(),
{
    if steps.len() > 0 {
        timestamp_steps_keep_the_invariant(tracker, steps.drop_last());
    }
}

/// A poisoned tracker is poisoned for good: after any steps it is as it was, but for the
/// observation that it still answers every timestamp and every recovery with `TrackerFailed`.
pub proof fn timestamp_poisoning_is_permanent(
    tracker: TimestampTracker,
    steps: Seq<TimestampStep>,
    micros: i64,
    clock: TimestampClock,
    source: TimestampSource,
)
    requires
        tracker.failed,
    ensures
        tracker.after_steps(steps) == tracker,
        tracker.after_steps(steps).observed(micros, clock, source) == Err::<
            TimestampObservation,
            TimestampTrackerError,
        >(TimestampTrackerError::TrackerFailed),
        tracker.after_steps(steps).epoch_begun() == Err::<(), TimestampTrackerError>(
            TimestampTrackerError::TrackerFailed,
        ),
    decreases steps.len(),
{
    if steps.len() > 0 {
        timestamp_poisoning_is_permanent(tracker, steps.drop_last(), micros, clock, source);
    }
}

/// A failed epoch accepts nothing, whatever is observed or discarded, until a recovered epoch
/// is begun.
pub proof fn failed_timestamp_epoch_needs_recovery(
    tracker: TimestampTracker,
    steps: Seq<TimestampStep>,
    micros: i64,
    clock: TimestampClock,
    source: TimestampSource,
)
    requires
        tracker.epoch_failed,
        forall|i: int| 0 <= i < steps.len() ==> steps[i] != TimestampStep::Begin,
    ensures
        tracker.after_steps(steps).epoch_failed,
        tracker.after_steps(steps).observed(micros, clock, source) is Err,
    decreases steps.len(),
{
    if steps.len() > 0 {
        failed_timestamp_epoch_needs_recovery(tracker, steps.drop_last(), micros, clock, source);
    }
}

/// A recovered epoch's marker outlives everything that is discarded: if the first delivered
/// timestamp after the recovery is accepted, it carries the discontinuity, and the one delivered
/// after it does not.
pub proof fn recovery_marks_exactly_the_first_delivered_timestamp(
    tracker: TimestampTracker,
    discarded: Seq<TimestampStep>,
    first: TimestampStep,
    second: TimestampStep,
)
    requires
        tracker.pending_discontinuity,
        forall|i: int| 0 <= i < discarded.len() ==> (#[trigger] discarded[i]) is Discard,
        first is Observe,
        second is Observe,
    ensures
        ({
            let waiting = tracker.after_steps(discarded);
            let marked = waiting.observed(first->Observe_0, first->Observe_1, first->Observe_2);
            let next = waiting.after_step(first);
            let plain = next.observed(second->Observe_0, second->Observe_1, second->Observe_2);
            &&& waiting.pending_discontinuity
            &&& marked is Ok ==> marked->Ok_0.discontinuity
            &&& marked is Ok && plain is Ok ==> !plain->Ok_0.discontinuity
        }),
    decreases discarded.len(),
{
    if discarded.len() > 0 {
        let shorter = discarded.drop_last();
        assert forall|i: int| 0 <= i < shorter.len() implies (#[trigger] shorter[i]) is Discard by {
            assert(shorter[i] == discarded[i]);
        }
        recovery_marks_exactly_the_first_delivered_timestamp(tracker, shorter, first, second);
        assert(discarded[discarded.len() - 1] is Discard);
    }
}

/// Two timestamps accepted in a row share their domain and their epoch, increase, and the second
/// reports their exact distance.
pub proof fn accepted_timestamps_increase(
    tracker: TimestampTracker,
    first: (i64, TimestampClock, TimestampSource),
    second: (i64, TimestampClock, TimestampSource),
)
    requires
        tracker.well_formed(),
        tracker.observed(first.0, first.1, first.2) is Ok,
        tracker.after_observe(first.0, first.1, first.2).observed(second.0, second.1, second.2) is Ok,
    ensures
        ({
            let a = tracker.observed(first.0, first.1, first.2)->Ok_0;
            let b = tracker.after_observe(first.0, first.1, first.2).observed(
                second.0,
                second.1,
                second.2,
            )->Ok_0;
            &&& 0 < a.micros < b.micros
            &&& b.delta_micros == Some((b.micros - a.micros) as u64)
            &&& a.clock == TimestampClock::Monotonic
            &&& b.clock == TimestampClock::Monotonic
            &&& a.source == b.source
            &&& a.stream_epoch == b.stream_epoch
        }),
{
}

/// A positive timestamp of the monotonic clock that is later than the one before it, in the domain
/// of its epoch, is accepted as it is, with the exact distance; a pending mark goes to it, and is
/// kept where it is discarded.
pub proof fn a_later_timestamp_is_accepted(
    tracker: TimestampTracker,
    micros: i64,
    source: TimestampSource,
)
    requires
        !tracker.failed,
        !tracker.epoch_failed,
        micros > 0,
        tracker.domain matches Some(domain) ==> domain == (TimestampClock::Monotonic, source),
        tracker.previous matches Some(before) ==> 0 < before < micros,
    ensures
        tracker.observed(micros, TimestampClock::Monotonic, source) == Ok::<
            TimestampObservation,
            TimestampTrackerError,
        >(
            TimestampObservation {
                micros,
                delta_micros: match tracker.previous {
                    Some(before) => Some((micros - before) as u64),
                    None => None,
                },
                clock: TimestampClock::Monotonic,
                source,
                discontinuity: tracker.pending_discontinuity,
                stream_epoch: tracker.stream_epoch,
            },
        ),
        tracker.after_observe(micros, TimestampClock::Monotonic, source) == (TimestampTracker {
            previous: Some(micros),
            domain: Some((TimestampClock::Monotonic, source)),
            pending_discontinuity: false,
            ..tracker
        }),
        tracker.after_discard(micros, TimestampClock::Monotonic, source) == (TimestampTracker {
            previous: Some(micros),
            domain: Some((TimestampClock::Monotonic, source)),
            ..tracker
        }),
{
}

/// Each way in which a timestamp can be wrong is answered with its own error, which names both what
/// was expected and what came; and nothing but such a timestamp is refused in a live epoch.
pub proof fn a_wrong_timestamp_is_named(
    tracker: TimestampTracker,
    micros: i64,
    clock: TimestampClock,
    source: TimestampSource,
)
    requires
        !tracker.failed,
        !tracker.epoch_failed,
        tracker.well_formed(),
    ensures
        ({
            let answer = tracker.observed(micros, clock, source);
            let expected = tracker.domain;
            &&& expected is Some && clock != TimestampClock::Monotonic ==> answer == Err::<
                TimestampObservation,
                TimestampTrackerError,
            >(
                TimestampTrackerError::ClockChanged {
                    expected: TimestampClock::Monotonic,
                    actual: clock,
                },
            )
            &&& expected is None && clock != TimestampClock::Monotonic ==> answer == Err::<
                TimestampObservation,
                TimestampTrackerError,
            >(TimestampTrackerError::UntrustedClock(clock))
            &&& expected is Some && clock == TimestampClock::Monotonic && source != (expected->0).1
                ==> answer == Err::<TimestampObservation, TimestampTrackerError>(
                TimestampTrackerError::SourceChanged {
                    expected: (expected->0).1,
                    actual: source,
                },
            )
            &&& clock == TimestampClock::Monotonic && (expected is None || source == (
            expected->0).1) ==> {
                &&& micros < 0 ==> answer == Err::<TimestampObservation, TimestampTrackerError>(
                    TimestampTrackerError::NegativeTimestamp(micros),
                )
                &&& micros == 0 ==> answer == Err::<TimestampObservation, TimestampTrackerError>(
                    TimestampTrackerError::ZeroTimestamp,
                )
                &&& micros > 0 && tracker.previous is Some && micros <= tracker.previous->0
                    ==> answer == Err::<TimestampObservation, TimestampTrackerError>(
                    TimestampTrackerError::NonIncreasing {
                        previous: tracker.previous->0,
                        current: micros,
                    },
                )
                &&& micros > 0 && (tracker.previous is None || micros > tracker.previous->0)
                    ==> answer is Ok
            }
            &&& answer is Err ==> {
                &&& tracker.after_observe(micros, clock, source) == (TimestampTracker {
                    epoch_failed: true,
                    ..tracker
                })
                &&& tracker.after_discard(micros, clock, source) == (TimestampTracker {
                    epoch_failed: true,
                    ..tracker
                })
            }
        }),
{
}

/// A recovered epoch follows the last one, failed or not: it is live, has no domain and no earlier
/// timestamp, and is marked. Where the epochs are used up, the tracker is poisoned instead.
pub proof fn a_recovered_timestamp_epoch_starts_anew(tracker: TimestampTracker)
    requires
        !tracker.failed,
    ensures
        tracker.stream_epoch < u64::MAX ==> tracker.epoch_begun() is Ok && tracker.after_begin()
            == (TimestampTracker {
            previous: None,
            domain: None,
            stream_epoch: (tracker.stream_epoch + 1) as u64,
            pending_discontinuity: true,
            epoch_failed: false,
            failed: false,
        }),
        tracker.stream_epoch == u64::MAX ==> tracker.epoch_begun() == Err::<
            (),
            TimestampTrackerError,
        >(TimestampTrackerError::StreamEpochOverflow) && tracker.after_begin().failed,
        tracker.after_fail() == (TimestampTracker { epoch_failed: true, ..tracker }),
{
}

/// A new tracker accepts any positive timestamp of the monotonic clock, unmarked and without a
/// distance.
pub proof fn a_new_timeline_starts_unmarked(micros: i64, source: TimestampSource)
    requires
        micros > 0,
    ensures
        TimestampTracker::fresh().observed(micros, TimestampClock::Monotonic, source) == Ok::<
            TimestampObservation,
            TimestampTrackerError,
        >(
            TimestampObservation {
                micros,
                delta_micros: None,
                clock: TimestampClock::Monotonic,
                source,
                discontinuity: false,
                stream_epoch: 0,
            },
        ),
{
}

} // verus!
