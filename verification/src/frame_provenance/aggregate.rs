//! Evidence for a frame that is derived from several dequeues.
use vstd::prelude::*;
use crate::contracts::{CaptureWindow, IlluminationProvenance, StreamRole};
use crate::frame_provenance::sequence::{serial_after, SequenceTracker};
use crate::frame_provenance::single::{
    RuntimeProvenanceError, SingleFrameProvenance, ValidatedFormatIdentity,
};
use crate::frame_provenance::timestamp::TimestampTracker;

verus! {

/// How contributors influenced a derived frame.
#[derive(Clone, Copy, Debug, PartialEq, Eq, Structural)]
pub enum ContributorSelection {
    Selected { index: usize },
    ReducedOverAll,
    Subtracted { lit_index: usize, ambient_index: usize },
}

/// The most contributors that a derived frame has.
pub const MAX_CONTRIBUTORS: usize = 64;

/// What is wrong with a selection among the contributors, if anything is.
pub open spec fn selection_fault(
    contributors: Seq<SingleFrameProvenance>,
    selection: ContributorSelection,
) -> Option<RuntimeProvenanceError> {
    match selection {
        ContributorSelection::Selected { index } => if index < contributors.len() {
            None
        } else {
            Some(RuntimeProvenanceError::InvalidSelection)
        },
        ContributorSelection::ReducedOverAll => None,
        ContributorSelection::Subtracted { lit_index, ambient_index } => if lit_index
            == ambient_index {
            Some(RuntimeProvenanceError::EqualSubtractionIndices)
        } else if lit_index < contributors.len() && ambient_index < contributors.len() {
            None
        } else {
            Some(RuntimeProvenanceError::InvalidSelection)
        },
    }
}

/// Whether all contributors say the same of their illumination.
pub open spec fn unanimous(contributors: Seq<SingleFrameProvenance>) -> bool {
    forall|i: int|
        0 <= i < contributors.len() ==> (#[trigger] contributors[i]).illumination
            == contributors[0].illumination
}

/// The illumination of the derived frame.
pub open spec fn derived_illumination(
    contributors: Seq<SingleFrameProvenance>,
    selection: ContributorSelection,
) -> IlluminationProvenance {
    match selection {
        ContributorSelection::Selected { index } => contributors[index as int].illumination,
        ContributorSelection::ReducedOverAll => if unanimous(contributors) {
            contributors[0].illumination
        } else {
            IlluminationProvenance::Unknown
        },
        ContributorSelection::Subtracted { lit_index, ambient_index } => if contributors[lit_index as int].illumination
            == IlluminationProvenance::ActiveIr
            && contributors[ambient_index as int].illumination == IlluminationProvenance::Ambient {
            IlluminationProvenance::ActiveIr
        } else {
            IlluminationProvenance::Unknown
        },
    }
}

/// The categories in which contributors have to agree with the first, in the order in which
/// they are looked at.
pub ghost enum Category {
    Role,
    Binding,
    Format,
    TimestampDomain,
    ContinuityEpoch,
    Continuity,
}

/// Whether a contributor fits the first one in a category.
pub open spec fn fits(
    first: SingleFrameProvenance,
    other: SingleFrameProvenance,
    category: Category,
) -> bool {
    match category {
        Category::Role => other.binding.stream_role == first.binding.stream_role,
        Category::Binding => other.binding.camera_instance_id == first.binding.camera_instance_id
            && other.binding.generation == first.binding.generation,
        Category::Format => other.format.agrees(first.format),
        Category::TimestampDomain => other.timestamp.clock == first.timestamp.clock
            && other.timestamp.source == first.timestamp.source,
        Category::ContinuityEpoch => other.sequence.stream_epoch == first.sequence.stream_epoch
            && other.timestamp.stream_epoch == first.timestamp.stream_epoch,
        Category::Continuity => !other.facts.corrupt() && !other.sequence.discontinuity
            && !other.timestamp.discontinuity,
    }
}

/// Whether all contributors fit the first one in a category.
pub open spec fn all_fit(contributors: Seq<SingleFrameProvenance>, category: Category) -> bool {
    forall|i: int|
        0 <= i < contributors.len() ==> fits(
            contributors[0],
            #[trigger] contributors[i],
            category,
        )
}

/// What is wrong between two neighbours, if anything is.
pub open spec fn pair_fault(
    previous: SingleFrameProvenance,
    current: SingleFrameProvenance,
) -> Option<RuntimeProvenanceError> {
    let delta = current.timestamp.micros - previous.timestamp.micros;
    if !(i64::MIN <= delta <= i64::MAX) {
        Some(RuntimeProvenanceError::TimestampSpanOverflow)
    } else if delta <= 0 {
        Some(RuntimeProvenanceError::NonIncreasingTimestamp)
    } else if current.sequence.advance is None || current.sequence.raw != serial_after(
        previous.sequence.raw,
        current.sequence.advance->0,
    ) {
        Some(RuntimeProvenanceError::NonConsecutiveSequence)
    } else if current.timestamp.delta_micros != Some(delta as u64) {
        Some(RuntimeProvenanceError::TimestampDeltaMismatch)
    } else {
        None
    }
}

/// What is wrong between the first `n` contributors, taken pair by pair from the left.
pub open spec fn pairs_fault(contributors: Seq<SingleFrameProvenance>, n: int) -> Option<
    RuntimeProvenanceError,
>
    decreases n,
{
    if n < 2 {
        None
    } else if pairs_fault(contributors, n - 1) is Some {
        pairs_fault(contributors, n - 1)
    } else {
        pair_fault(contributors[n - 2], contributors[n - 1])
    }
}

/// What keeps contributors from being one derived frame, if anything does.
pub open spec fn aggregate_fault(
    contributors: Seq<SingleFrameProvenance>,
    selection: ContributorSelection,
) -> Option<RuntimeProvenanceError> {
    let n = contributors.len() as int;
    if n < 2 {
        Some(RuntimeProvenanceError::TooFewContributors)
    } else if n > MAX_CONTRIBUTORS {
        Some(RuntimeProvenanceError::TooManyContributors)
    } else if selection_fault(contributors, selection) is Some {
        selection_fault(contributors, selection)
    } else if !all_fit(contributors, Category::Role) {
        Some(RuntimeProvenanceError::MixedRole)
    } else if !all_fit(contributors, Category::Binding) {
        Some(RuntimeProvenanceError::MixedBinding)
    } else if !all_fit(contributors, Category::Format) {
        Some(RuntimeProvenanceError::MixedFormat)
    } else if !all_fit(contributors, Category::TimestampDomain) {
        Some(RuntimeProvenanceError::MixedTimestampDomain)
    } else if !all_fit(contributors, Category::ContinuityEpoch) {
        Some(RuntimeProvenanceError::MixedContinuityEpoch)
    } else if !all_fit(contributors, Category::Continuity) {
        Some(RuntimeProvenanceError::ContributorDiscontinuity)
    } else if pairs_fault(contributors, n) is Some {
        pairs_fault(contributors, n)
    } else if contributors[n - 1].sequence.cumulative_drops
        < contributors[0].sequence.cumulative_drops {
        Some(RuntimeProvenanceError::CounterUnderflow)
    } else if contributors[n - 1].timestamp.micros - contributors[0].timestamp.micros > i64::MAX {
        Some(RuntimeProvenanceError::TimestampSpanOverflow)
    } else {
        None
    }
}

/// Whether `window` is the smallest that covers the windows of all contributors.
pub open spec fn is_union(
    contributors: Seq<SingleFrameProvenance>,
    window: CaptureWindow,
) -> bool {
    &&& forall|i: int|
        0 <= i < contributors.len() ==> window.covers((#[trigger] contributors[i]).capture_window)
    &&& exists|i: int|
        0 <= i < contributors.len() && window.start == (
        #[trigger] contributors[i]).capture_window.start
    &&& exists|i: int|
        0 <= i < contributors.len() && window.end == (
        #[trigger] contributors[i]).capture_window.end
}

/// Whether `gap` is the greatest gap of the contributors.
pub open spec fn is_worst_gap(contributors: Seq<SingleFrameProvenance>, gap: u32) -> bool {
    &&& forall|i: int|
        0 <= i < contributors.len() ==> (#[trigger] contributors[i]).sequence.gap <= gap
    &&& exists|i: int|
        0 <= i < contributors.len() && (#[trigger] contributors[i]).sequence.gap == gap
}

/// Whether `delta` is the greatest distance that the contributors report, if any reports one.
pub open spec fn is_worst_delta(
    contributors: Seq<SingleFrameProvenance>,
    delta: Option<u64>,
) -> bool {
    match delta {
        None => forall|i: int|
            0 <= i < contributors.len() ==> (
            #[trigger] contributors[i]).timestamp.delta_micros is None,
        Some(worst) => {
            &&& forall|i: int|
                0 <= i < contributors.len() ==> ((
                #[trigger] contributors[i]).timestamp.delta_micros matches Some(d) ==> d <= worst)
            &&& exists|i: int|
                0 <= i < contributors.len() && (
                #[trigger] contributors[i]).timestamp.delta_micros == Some(worst)
        },
    }
}

/// Validated provenance for a frame derived from multiple single dequeues.
#[derive(Debug, PartialEq, Eq)]
pub struct AggregateFrameProvenance {
    contributors: Vec<SingleFrameProvenance>,
    selection: ContributorSelection,
    capture_window: CaptureWindow,
    illumination: IlluminationProvenance,
    cumulative_drops_start: u64,
    cumulative_drops_end: u64,
    drops_within: u64,
    worst_gap: u32,
    worst_delta_micros: Option<u64>,
    timestamp_span_micros: u64,
}

impl AggregateFrameProvenance {
    pub closed spec fn spec_contributors(self) -> Seq<SingleFrameProvenance> {
        self.contributors@
    }

    pub closed spec fn spec_selection(self) -> ContributorSelection {
        self.selection
    }

    pub closed spec fn spec_capture_window(self) -> CaptureWindow {
        self.capture_window
    }

    pub closed spec fn spec_illumination(self) -> IlluminationProvenance {
        self.illumination
    }

    pub closed spec fn spec_worst_gap(self) -> u32 {
        self.worst_gap
    }

    pub closed spec fn spec_worst_delta(self) -> Option<u64> {
        self.worst_delta_micros
    }

    pub closed spec fn spec_drops(self) -> (u64, u64, u64) {
        (self.cumulative_drops_start, self.cumulative_drops_end, self.drops_within)
    }

    pub closed spec fn spec_span(self) -> u64 {
        self.timestamp_span_micros
    }

    /// What every aggregate is: coherent contributors, and exactly what they add up to.
    pub open spec fn well_formed(self) -> bool {
        let contributors = self.spec_contributors();
        let first = contributors[0];
        let last = contributors[contributors.len() - 1];
        &&& aggregate_fault(contributors, self.spec_selection()) is None
        &&& self.spec_illumination() == derived_illumination(contributors, self.spec_selection())
        &&& is_union(contributors, self.spec_capture_window())
        &&& is_worst_gap(contributors, self.spec_worst_gap())
        &&& is_worst_delta(contributors, self.spec_worst_delta())
        &&& self.spec_drops().0 == first.sequence.cumulative_drops
        &&& self.spec_drops().1 == last.sequence.cumulative_drops
        &&& self.spec_drops().2 == last.sequence.cumulative_drops
            - first.sequence.cumulative_drops
        &&& self.spec_span() == last.timestamp.micros - first.timestamp.micros
    }

    #[verifier::type_invariant]
    spec fn type_invariant(self) -> bool {
        self.well_formed()
    }

    /// Derives a frame from contributors.
    ///
    /// # Errors
    ///
    /// Returns the first [`RuntimeProvenanceError`] that the contributors and their selection
    /// give rise to.
    pub fn new(
        contributors: Vec<SingleFrameProvenance>,
        selection: ContributorSelection,
    ) -> (r: Result<Self, RuntimeProvenanceError>)
        ensures
            match aggregate_fault(contributors@, selection) {
                Some(error) => r == Err::<Self, RuntimeProvenanceError>(error),
                None => {
                    &&& r is Ok
                    &&& r->Ok_0.spec_contributors() == contributors@
                    &&& r->Ok_0.spec_selection() == selection
                    &&& r->Ok_0.well_formed()
                },
            },
    {
        let len: usize = contributors.len();
        if len < 2 {
            return Err(RuntimeProvenanceError::TooFewContributors);
        }
        if len > MAX_CONTRIBUTORS {
            return Err(RuntimeProvenanceError::TooManyContributors);
        }
        let illumination: IlluminationProvenance = match selection {
            ContributorSelection::Selected { index } => {
                if index >= len {
                    return Err(RuntimeProvenanceError::InvalidSelection);
                }
                contributors[index].illumination()
            },
            ContributorSelection::ReducedOverAll => {
                if same_illumination(contributors.as_slice()) {
                    contributors[0].illumination()
                } else {
                    IlluminationProvenance::Unknown
                }
            },
            ContributorSelection::Subtracted { lit_index, ambient_index } => {
                if lit_index == ambient_index {
                    return Err(RuntimeProvenanceError::EqualSubtractionIndices);
                }
                if lit_index >= len || ambient_index >= len {
                    return Err(RuntimeProvenanceError::InvalidSelection);
                }
                if contributors[lit_index].illumination() == IlluminationProvenance::ActiveIr
                    && contributors[ambient_index].illumination()
                    == IlluminationProvenance::Ambient {
                    IlluminationProvenance::ActiveIr
                } else {
                    IlluminationProvenance::Unknown
                }
            },
        };
        if let Some(error) = mixed(contributors.as_slice()) {
            return Err(error);
        }
        if let Some(error) = consecutive(contributors.as_slice()) {
            return Err(error);
        }
        let cumulative_drops_start: u64 = contributors[0].sequence().cumulative_drops();
        let cumulative_drops_end: u64 = contributors[len - 1].sequence().cumulative_drops();
        let drops_within: u64 = match cumulative_drops_end.checked_sub(cumulative_drops_start) {
            Some(drops) => drops,
            None => {
                return Err(RuntimeProvenanceError::CounterUnderflow);
            },
        };
        let timestamp_span_micros: u64 = match contributors[len - 1].timestamp().micros().checked_sub(
            contributors[0].timestamp().micros(),
        ) {
            Some(span) => span as u64,
            None => {
                return Err(RuntimeProvenanceError::TimestampSpanOverflow);
            },
        };
        let capture_window: CaptureWindow = union_of(contributors.as_slice());
        let worst_gap: u32 = worst_gap_of(contributors.as_slice());
        let worst_delta_micros: Option<u64> = worst_delta_of(contributors.as_slice());
        Ok(
            AggregateFrameProvenance {
                contributors,
                selection,
                capture_window,
                illumination,
                cumulative_drops_start,
                cumulative_drops_end,
                drops_within,
                worst_gap,
                worst_delta_micros,
                timestamp_span_micros,
            },
        )
    }

    #[must_use]
    pub fn contributors(&self) -> (r: &[SingleFrameProvenance])
        ensures
            r@ == self.spec_contributors(),
            self.well_formed(),
    {
        proof {
            use_type_invariant(self);
        }
        self.contributors.as_slice()
    }

    #[must_use]
    pub fn selection(&self) -> (r: ContributorSelection)
        ensures
            r == self.spec_selection(),
    {
        self.selection
    }

    #[must_use]
    pub fn capture_window(&self) -> (r: CaptureWindow)
        ensures
            r == self.spec_capture_window(),
            is_union(self.spec_contributors(), r),
    {
        proof {
            use_type_invariant(self);
        }
        self.capture_window
    }

    #[must_use]
    pub fn illumination(&self) -> (r: IlluminationProvenance)
        ensures
            r == self.spec_illumination(),
            r == derived_illumination(self.spec_contributors(), self.spec_selection()),
    {
        proof {
            use_type_invariant(self);
        }
        self.illumination
    }

    #[must_use]
    pub fn cumulative_drops_start(&self) -> (r: u64)
        ensures
            r == self.spec_drops().0,
            r == self.spec_contributors()[0].sequence.cumulative_drops,
    {
        proof {
            use_type_invariant(self);
        }
        self.cumulative_drops_start
    }

    #[must_use]
    pub fn cumulative_drops_end(&self) -> (r: u64)
        ensures
            r == self.spec_drops().1,
            r == self.spec_contributors().last().sequence.cumulative_drops,
    {
        proof {
            use_type_invariant(self);
        }
        self.cumulative_drops_end
    }

    #[must_use]
    pub fn drops_within(&self) -> (r: u64)
        ensures
            r == self.spec_drops().2,
            r == self.spec_contributors().last().sequence.cumulative_drops
                - self.spec_contributors()[0].sequence.cumulative_drops,
    {
        proof {
            use_type_invariant(self);
        }
        self.drops_within
    }

    #[must_use]
    pub fn worst_gap(&self) -> (r: u32)
        ensures
            r == self.spec_worst_gap(),
            is_worst_gap(self.spec_contributors(), r),
    {
        proof {
            use_type_invariant(self);
        }
        self.worst_gap
    }

    #[must_use]
    pub fn worst_delta_micros(&self) -> (r: Option<u64>)
        ensures
            r == self.spec_worst_delta(),
            is_worst_delta(self.spec_contributors(), r),
    {
        proof {
            use_type_invariant(self);
        }
        self.worst_delta_micros
    }

    #[must_use]
    pub fn timestamp_span_micros(&self) -> (r: u64)
        ensures
            r == self.spec_span(),
            r == self.spec_contributors().last().timestamp.micros
                - self.spec_contributors()[0].timestamp.micros,
    {
        proof {
            use_type_invariant(self);
        }
        self.timestamp_span_micros
    }
}

impl Clone for AggregateFrameProvenance {
    fn clone(&self) -> (r: Self)
        ensures
            r.spec_contributors() == self.spec_contributors(),
            r.spec_selection() == self.spec_selection(),
            r.well_formed(),
    {
        proof {
            use_type_invariant(self);
        }
        let mut contributors: Vec<SingleFrameProvenance> = Vec::new();
        let mut i: usize = 0;
        while i < self.contributors.len()
            invariant
                i <= self.contributors@.len(),
                contributors@ == self.contributors@.take(i as int),
            decreases self.contributors@.len() - i,
        {
            contributors.push(self.contributors[i]);
            i = i + 1;
            assert(contributors@ =~= self.contributors@.take(i as int));
        }
        assert(contributors@ =~= self.contributors@);
        AggregateFrameProvenance {
            contributors,
            selection: self.selection,
            capture_window: self.capture_window,
            illumination: self.illumination,
            cumulative_drops_start: self.cumulative_drops_start,
            cumulative_drops_end: self.cumulative_drops_end,
            drops_within: self.drops_within,
            worst_gap: self.worst_gap,
            worst_delta_micros: self.worst_delta_micros,
            timestamp_span_micros: self.timestamp_span_micros,
        }
    }
}

/// Whether all contributors say the same of their illumination.
fn same_illumination(contributors: &[SingleFrameProvenance]) -> (r: bool)
    requires
        contributors@.len() > 0,
    ensures
        r == unanimous(contributors@),
{
    let first: IlluminationProvenance = contributors[0].illumination();
    let mut i: usize = 0;
    while i < contributors.len()
        invariant
            i <= contributors@.len(),
            first == contributors@[0].illumination,
            forall|k: int| 0 <= k < i ==> (#[trigger] contributors@[k]).illumination == first,
        decreases contributors@.len() - i,
    {
        if contributors[i].illumination() != first {
            return false;
        }
        i = i + 1;
    }
    true
}

/// Whether a contributor fits the first one, category by category.
fn fits_in(first: &SingleFrameProvenance, other: &SingleFrameProvenance) -> (r: [bool; 6])
    ensures
        r@[0] == fits(*first, *other, Category::Role),
        r@[1] == fits(*first, *other, Category::Binding),
        r@[2] == fits(*first, *other, Category::Format),
        r@[3] == fits(*first, *other, Category::TimestampDomain),
        r@[4] == fits(*first, *other, Category::ContinuityEpoch),
        r@[5] == fits(*first, *other, Category::Continuity),
{
    [
        other.binding().stream_role() == first.binding().stream_role(),
        *other.binding().camera_instance_id() == *first.binding().camera_instance_id()
            && other.binding().generation() == first.binding().generation(),
        other.format().same_as(first.format()),
        other.timestamp().clock() == first.timestamp().clock() && other.timestamp().source()
            == first.timestamp().source(),
        other.sequence().stream_epoch() == first.sequence().stream_epoch()
            && other.timestamp().stream_epoch() == first.timestamp().stream_epoch(),
        !other.facts().driver_reported_corruption() && !other.sequence().discontinuity()
            && !other.timestamp().discontinuity(),
    ]
}

/// The first category in which some contributor does not fit the first one.
fn mixed(contributors: &[SingleFrameProvenance]) -> (r: Option<RuntimeProvenanceError>)
    requires
        contributors@.len() > 0,
    ensures
        r == (if !all_fit(contributors@, Category::Role) {
            Some(RuntimeProvenanceError::MixedRole)
        } else if !all_fit(contributors@, Category::Binding) {
            Some(RuntimeProvenanceError::MixedBinding)
        } else if !all_fit(contributors@, Category::Format) {
            Some(RuntimeProvenanceError::MixedFormat)
        } else if !all_fit(contributors@, Category::TimestampDomain) {
            Some(RuntimeProvenanceError::MixedTimestampDomain)
        } else if !all_fit(contributors@, Category::ContinuityEpoch) {
            Some(RuntimeProvenanceError::MixedContinuityEpoch)
        } else if !all_fit(contributors@, Category::Continuity) {
            Some(RuntimeProvenanceError::ContributorDiscontinuity)
        } else {
            None::<RuntimeProvenanceError>
        }),
{
    let mut role: bool = true;
    let mut binding: bool = true;
    let mut format: bool = true;
    let mut domain: bool = true;
    let mut epoch: bool = true;
    let mut continuity: bool = true;
    let mut i: usize = 0;
    while i < contributors.len()
        invariant
            contributors@.len() > 0,
            i <= contributors@.len(),
            role == all_fit_below(contributors@, Category::Role, i as int),
            binding == all_fit_below(contributors@, Category::Binding, i as int),
            format == all_fit_below(contributors@, Category::Format, i as int),
            domain == all_fit_below(contributors@, Category::TimestampDomain, i as int),
            epoch == all_fit_below(contributors@, Category::ContinuityEpoch, i as int),
            continuity == all_fit_below(contributors@, Category::Continuity, i as int),
        decreases contributors@.len() - i,
    {
        let verdicts: [bool; 6] = fits_in(&contributors[0], &contributors[i]);
        proof {
            all_fit_below_grows(contributors@, i as int);
        }
        role = role && verdicts[0];
        binding = binding && verdicts[1];
        format = format && verdicts[2];
        domain = domain && verdicts[3];
        epoch = epoch && verdicts[4];
        continuity = continuity && verdicts[5];
        i = i + 1;
    }
    if !role {
        Some(RuntimeProvenanceError::MixedRole)
    } else if !binding {
        Some(RuntimeProvenanceError::MixedBinding)
    } else if !format {
        Some(RuntimeProvenanceError::MixedFormat)
    } else if !domain {
        Some(RuntimeProvenanceError::MixedTimestampDomain)
    } else if !epoch {
        Some(RuntimeProvenanceError::MixedContinuityEpoch)
    } else if !continuity {
        Some(RuntimeProvenanceError::ContributorDiscontinuity)
    } else {
        None
    }
}

/// Whether the first `n` contributors fit the first one in a category.
spec fn all_fit_below(
    contributors: Seq<SingleFrameProvenance>,
    category: Category,
    n: int,
) -> bool {
    forall|i: int| 0 <= i < n ==> fits(contributors[0], #[trigger] contributors[i], category)
}

proof fn all_fit_below_grows(contributors: Seq<SingleFrameProvenance>, n: int)
    requires
        0 <= n < contributors.len(),
    ensures
        forall|category: Category|
            #[trigger] all_fit_below(contributors, category, n + 1) == (all_fit_below(
                contributors,
                category,
                n,
            ) && fits(contributors[0], contributors[n], category)),
{
    assert forall|category: Category|
        #[trigger] all_fit_below(contributors, category, n + 1) == (all_fit_below(
            contributors,
            category,
            n,
        ) && fits(contributors[0], contributors[n], category)) by {
        if all_fit_below(contributors, category, n) && fits(
            contributors[0],
            contributors[n],
            category,
        ) {
            assert forall|i: int| 0 <= i < n + 1 implies fits(
                contributors[0],
                #[trigger] contributors[i],
                category,
            ) by {
                if i == n {
                } else {
                    assert(fits(contributors[0], contributors[i], category));
                }
            }
        }
    }
}

/// What is wrong between two neighbours, if anything is.
fn neighbours(previous: &SingleFrameProvenance, current: &SingleFrameProvenance) -> (r: Option<
    RuntimeProvenanceError,
>)
    ensures
        r == pair_fault(*previous, *current),
{
    let delta: i64 = match current.timestamp().micros().checked_sub(previous.timestamp().micros()) {
        Some(delta) => delta,
        None => {
            return Some(RuntimeProvenanceError::TimestampSpanOverflow);
        },
    };
    if delta <= 0 {
        return Some(RuntimeProvenanceError::NonIncreasingTimestamp);
    }
    let advance: u32 = match current.sequence().advance() {
        Some(advance) => advance,
        None => {
            return Some(RuntimeProvenanceError::NonConsecutiveSequence);
        },
    };
    if current.sequence().raw() != previous.sequence().raw().wrapping_add(advance) {
        return Some(RuntimeProvenanceError::NonConsecutiveSequence);
    }
    match current.timestamp().delta_micros() {
        Some(reported) => {
            if reported != delta as u64 {
                return Some(RuntimeProvenanceError::TimestampDeltaMismatch);
            }
        },
        None => {
            return Some(RuntimeProvenanceError::TimestampDeltaMismatch);
        },
    }
    None
}

/// The fault of the leftmost pair of neighbours that has one. Where no pair has, no timestamp is
/// before the first.
fn consecutive(contributors: &[SingleFrameProvenance]) -> (r: Option<RuntimeProvenanceError>)
    requires
        contributors@.len() > 0,
    ensures
        r == pairs_fault(contributors@, contributors@.len() as int),
        r is None ==> forall|k: int|
            0 <= k < contributors@.len() ==> contributors@[0].timestamp.micros <= (
            #[trigger] contributors@[k]).timestamp.micros,
{
    let mut i: usize = 1;
    while i < contributors.len()
        invariant
            1 <= i <= contributors@.len(),
            pairs_fault(contributors@, i as int) is None,
            forall|k: int|
                0 <= k < i ==> contributors@[0].timestamp.micros <= (
                #[trigger] contributors@[k]).timestamp.micros,
        decreases contributors@.len() - i,
    {
        if let Some(error) = neighbours(&contributors[i - 1], &contributors[i]) {
            proof {
                pairs_fault_stays(contributors@, i as int + 1, contributors@.len() as int);
            }
            return Some(error);
        }
        assert(contributors@[0].timestamp.micros <= contributors@[i - 1].timestamp.micros);
        i = i + 1;
    }
    None
}

/// A fault among the first pairs is the fault among all of them.
proof fn pairs_fault_stays(contributors: Seq<SingleFrameProvenance>, n: int, len: int)
    requires
        n <= len,
        pairs_fault(contributors, n) is Some,
    ensures
        pairs_fault(contributors, len) == pairs_fault(contributors, n),
    decreases len - n,
{
    if n < len {
        assert(pairs_fault(contributors, n + 1) == pairs_fault(contributors, n));
        pairs_fault_stays(contributors, n + 1, len);
    }
}

/// The smallest window that covers the windows of all contributors.
fn union_of(contributors: &[SingleFrameProvenance]) -> (r: CaptureWindow)
    requires
        contributors@.len() > 0,
    ensures
        is_union(contributors@, r),
{
    let mut window: CaptureWindow = contributors[0].capture_window();
    let mut i: usize = 1;
    let ghost mut starts: int = 0;
    let ghost mut ends: int = 0;
    while i < contributors.len()
        invariant
            1 <= i <= contributors@.len(),
            forall|k: int|
                0 <= k < i ==> window.covers((#[trigger] contributors@[k]).capture_window),
            0 <= starts < i,
            0 <= ends < i,
            window.start == contributors@[starts].capture_window.start,
            window.end == contributors@[ends].capture_window.end,
        decreases contributors@.len() - i,
    {
        let next: CaptureWindow = contributors[i].capture_window();
        let joined: CaptureWindow = window.union(next);
        proof {
            if joined.start != window.start {
                starts = i as int;
            }
            if joined.end != window.end {
                ends = i as int;
            }
        }
        window = joined;
        i = i + 1;
    }
    window
}

/// The greatest gap of the contributors.
fn worst_gap_of(contributors: &[SingleFrameProvenance]) -> (r: u32)
    requires
        contributors@.len() > 0,
    ensures
        is_worst_gap(contributors@, r),
{
    let mut worst: u32 = contributors[0].sequence().gap();
    let mut i: usize = 1;
    while i < contributors.len()
        invariant
            1 <= i <= contributors@.len(),
            forall|k: int| 0 <= k < i ==> (#[trigger] contributors@[k]).sequence.gap <= worst,
            exists|k: int| 0 <= k < i && (#[trigger] contributors@[k]).sequence.gap == worst,
        decreases contributors@.len() - i,
    {
        let gap: u32 = contributors[i].sequence().gap();
        if gap > worst {
            worst = gap;
        }
        assert(contributors@[i as int].sequence.gap == gap);
        i = i + 1;
    }
    worst
}

/// The greatest distance that the contributors report, if any reports one.
fn worst_delta_of(contributors: &[SingleFrameProvenance]) -> (r: Option<u64>)
    ensures
        is_worst_delta(contributors@, r),
{
    let mut worst: Option<u64> = None;
    let mut i: usize = 0;
    assert(contributors@.take(0).len() == 0);
    while i < contributors.len()
        invariant
            i <= contributors@.len(),
            is_worst_delta(contributors@.take(i as int), worst),
        decreases contributors@.len() - i,
    {
        let ghost before = contributors@.take(i as int);
        let ghost after = contributors@.take(i as int + 1);
        let ghost old_worst = worst;
        assert(after[i as int] == contributors@[i as int]);
        assert forall|k: int| 0 <= k < i implies before[k] == #[trigger] after[k] by {}
        if let Some(delta) = contributors[i].timestamp().delta_micros() {
            match worst {
                Some(known) => {
                    if delta > known {
                        worst = Some(delta);
                    }
                },
                None => {
                    worst = Some(delta);
                },
            }
        }
        proof {
            if worst == old_worst && worst is Some {
                let k = choose|k: int|
                    0 <= k < before.len() && (#[trigger] before[k]).timestamp.delta_micros == worst;
                assert(after[k].timestamp.delta_micros == worst);
            }
        }
        assert(is_worst_delta(after, worst));
        i = i + 1;
    }
    assert(contributors@.take(i as int) =~= contributors@);
    worst
}

/// Mandatory runtime evidence owned by every frame.
#[derive(Clone, Debug)]
pub enum RuntimeFrameProvenance {
    Single(SingleFrameProvenance),
    Aggregate(AggregateFrameProvenance),
}

impl RuntimeFrameProvenance {
    /// The contributors of the frame: itself, or those that it was derived from.
    pub open spec fn sources(self) -> Seq<SingleFrameProvenance> {
        match self {
            RuntimeFrameProvenance::Single(single) => seq![single],
            RuntimeFrameProvenance::Aggregate(aggregate) => aggregate.spec_contributors(),
        }
    }

    /// Whether an aggregate is what its contributors add up to.
    pub open spec fn well_formed(self) -> bool {
        match self {
            RuntimeFrameProvenance::Single(_) => true,
            RuntimeFrameProvenance::Aggregate(aggregate) => aggregate.well_formed(),
        }
    }

    /// Whether every contributor is what the two steps of a publication let through.
    pub open spec fn coherent(self) -> bool {
        forall|i: int| 0 <= i < self.sources().len() ==> (#[trigger] self.sources()[i]).coherent()
    }

    /// What is said of the frame's illumination.
    pub open spec fn spec_illumination(self) -> IlluminationProvenance {
        match self {
            RuntimeFrameProvenance::Single(single) => single.illumination,
            RuntimeFrameProvenance::Aggregate(aggregate) => aggregate.spec_illumination(),
        }
    }

    /// The role of the stream that the frame comes from.
    pub open spec fn spec_stream_role(self) -> StreamRole {
        self.sources()[0].binding.stream_role
    }

    #[must_use]
    pub fn capture_window(&self) -> (r: CaptureWindow)
        ensures
            r == (match *self {
                RuntimeFrameProvenance::Single(single) => single.capture_window,
                RuntimeFrameProvenance::Aggregate(aggregate) => aggregate.spec_capture_window(),
            }),
    {
        match self {
            RuntimeFrameProvenance::Single(single) => single.capture_window(),
            RuntimeFrameProvenance::Aggregate(aggregate) => aggregate.capture_window(),
        }
    }

    #[must_use]
    pub fn illumination(&self) -> (r: IlluminationProvenance)
        ensures
            r == self.spec_illumination(),
            self.coherent() && r == IlluminationProvenance::ActiveIr ==> self.spec_stream_role()
                == StreamRole::Ir,
    {
        proof {
            if let RuntimeFrameProvenance::Aggregate(aggregate) = self {
                use_type_invariant(aggregate);
            }
            if self.coherent() && self.spec_illumination() == IlluminationProvenance::ActiveIr {
                active_light_has_an_ir_stream(*self);
            }
        }
        match self {
            RuntimeFrameProvenance::Single(single) => single.illumination(),
            RuntimeFrameProvenance::Aggregate(aggregate) => aggregate.illumination(),
        }
    }

    #[must_use]
    pub fn stream_role(&self) -> (r: StreamRole)
        ensures
            r == self.spec_stream_role(),
            forall|i: int|
                0 <= i < self.sources().len() ==> (
                #[trigger] self.sources()[i]).binding.stream_role == r,
            self.coherent() && self.spec_illumination() == IlluminationProvenance::ActiveIr ==> r
                == StreamRole::Ir,
    {
        proof {
            if let RuntimeFrameProvenance::Aggregate(aggregate) = self {
                use_type_invariant(aggregate);
            }
            one_stream_role(*self);
            if self.coherent() && self.spec_illumination() == IlluminationProvenance::ActiveIr {
                active_light_has_an_ir_stream(*self);
            }
        }
        match self {
            RuntimeFrameProvenance::Single(single) => single.binding().stream_role(),
            RuntimeFrameProvenance::Aggregate(aggregate) => {
                let contributors: &[SingleFrameProvenance] = aggregate.contributors();
                contributors[0].binding().stream_role()
            },
        }
    }

    #[must_use]
    pub fn format(&self) -> (r: &ValidatedFormatIdentity)
        ensures
            *r == self.sources()[0].format,
    {
        match self {
            RuntimeFrameProvenance::Single(single) => single.format(),
            RuntimeFrameProvenance::Aggregate(aggregate) => {
                let contributors: &[SingleFrameProvenance] = aggregate.contributors();
                contributors[0].format()
            },
        }
    }
}

// ---------------------------------------------------------------------------------------------
// Laws
// ---------------------------------------------------------------------------------------------

/// No pair is at fault among contributors that have no fault.
proof fn pairs_all_good(contributors: Seq<SingleFrameProvenance>, n: int, i: int)
    requires
        1 <= i < n <= contributors.len(),
        pairs_fault(contributors, n) is None,
    ensures
        pair_fault(contributors[i - 1], contributors[i]) is None,
    decreases n,
{
    if i < n - 1 {
        pairs_all_good(contributors, n - 1, i);
    }
}

/// The timestamps of accepted contributors increase strictly from the first to the last.
pub proof fn accepted_contributors_increase(
    contributors: Seq<SingleFrameProvenance>,
    selection: ContributorSelection,
    i: int,
    j: int,
)
    requires
        aggregate_fault(contributors, selection) is None,
        0 <= i < j < contributors.len(),
    ensures
        contributors[i].timestamp.micros < contributors[j].timestamp.micros,
    decreases j - i,
{
    pairs_all_good(contributors, contributors.len() as int, j);
    if i < j - 1 {
        accepted_contributors_increase(contributors, selection, i, j - 1);
    }
}

/// The distances that the contributors from the second to the `n`-th report, all together.
pub open spec fn sum_of_deltas(contributors: Seq<SingleFrameProvenance>, n: int) -> int
    decreases n,
{
    if n < 2 {
        0
    } else {
        sum_of_deltas(contributors, n - 1) + contributors[n - 1].timestamp.delta_micros->0
    }
}

proof fn deltas_add_up(contributors: Seq<SingleFrameProvenance>, n: int, m: int)
    requires
        1 <= m <= n <= contributors.len(),
        pairs_fault(contributors, n) is None,
    ensures
        sum_of_deltas(contributors, m) == contributors[m - 1].timestamp.micros
            - contributors[0].timestamp.micros,
    decreases m,
{
    if m >= 2 {
        deltas_add_up(contributors, n, m - 1);
        pairs_all_good(contributors, n, m - 1);
    }
}

/// The span of accepted contributors is the sum of the distances that they report after the
/// first, and each of those distances is reported.
pub proof fn span_is_the_sum_of_deltas(
    contributors: Seq<SingleFrameProvenance>,
    selection: ContributorSelection,
)
    requires
        aggregate_fault(contributors, selection) is None,
    ensures
        sum_of_deltas(contributors, contributors.len() as int)
            == contributors.last().timestamp.micros - contributors[0].timestamp.micros,
        forall|i: int|
            1 <= i < contributors.len() ==> (
            #[trigger] contributors[i]).timestamp.delta_micros is Some,
{
    deltas_add_up(contributors, contributors.len() as int, contributors.len() as int);
    assert forall|i: int| 1 <= i < contributors.len() implies (
    #[trigger] contributors[i]).timestamp.delta_micros is Some by {
        pairs_all_good(contributors, contributors.len() as int, i);
    }
}

/// A derived frame is called actively lit only where every contributor that it rests on is what
/// the selection needs: the chosen one lit, all of them lit, or a lit one less an ambient one.
pub proof fn active_light_needs_evidence(
    contributors: Seq<SingleFrameProvenance>,
    selection: ContributorSelection,
)
    requires
        aggregate_fault(contributors, selection) is None,
        derived_illumination(contributors, selection) == IlluminationProvenance::ActiveIr,
    ensures
        match selection {
            ContributorSelection::Selected { index } => contributors[index as int].illumination
                == IlluminationProvenance::ActiveIr,
            ContributorSelection::ReducedOverAll => forall|i: int|
                0 <= i < contributors.len() ==> (#[trigger] contributors[i]).illumination
                    == IlluminationProvenance::ActiveIr,
            ContributorSelection::Subtracted { lit_index, ambient_index } => {
                &&& contributors[lit_index as int].illumination == IlluminationProvenance::ActiveIr
                &&& contributors[ambient_index as int].illumination
                    == IlluminationProvenance::Ambient
            },
        },
{
}

/// A derived frame is called actively lit only where it comes from an infrared stream: each of its
/// contributors does.
pub proof fn active_light_needs_an_ir_stream(
    contributors: Seq<SingleFrameProvenance>,
    selection: ContributorSelection,
)
    requires
        aggregate_fault(contributors, selection) is None,
        forall|i: int| 0 <= i < contributors.len() ==> (#[trigger] contributors[i]).coherent(),
        derived_illumination(contributors, selection) == IlluminationProvenance::ActiveIr,
    ensures
        contributors[0].binding.stream_role == StreamRole::Ir,
        forall|i: int|
            0 <= i < contributors.len() ==> (#[trigger] contributors[i]).binding.stream_role
                == StreamRole::Ir,
{
    let lit = match selection {
        ContributorSelection::Selected { index } => index as int,
        ContributorSelection::ReducedOverAll => 0,
        ContributorSelection::Subtracted { lit_index, .. } => lit_index as int,
    };
    assert(contributors[lit].coherent());
    assert(fits(contributors[0], contributors[lit], Category::Role));
    assert forall|i: int| 0 <= i < contributors.len() implies (
    #[trigger] contributors[i]).binding.stream_role == StreamRole::Ir by {
        assert(fits(contributors[0], contributors[i], Category::Role));
    }
}

/// Everything that a frame rests on comes from a stream of one role.
pub proof fn one_stream_role(frame: RuntimeFrameProvenance)
    requires
        frame.well_formed(),
    ensures
        forall|i: int|
            0 <= i < frame.sources().len() ==> (#[trigger] frame.sources()[i]).binding.stream_role
                == frame.spec_stream_role(),
{
    assert forall|i: int| 0 <= i < frame.sources().len() implies (
    #[trigger] frame.sources()[i]).binding.stream_role == frame.spec_stream_role() by {
        if frame is Aggregate {
            assert(fits(frame.sources()[0], frame.sources()[i], Category::Role));
        }
    }
}

/// Whatever is called actively lit, a single frame or a derived one, comes from an infrared stream.
pub proof fn active_light_has_an_ir_stream(frame: RuntimeFrameProvenance)
    requires
        frame.well_formed(),
        frame.coherent(),
        frame.spec_illumination() == IlluminationProvenance::ActiveIr,
    ensures
        frame.spec_stream_role() == StreamRole::Ir,
{
    match frame {
        RuntimeFrameProvenance::Single(_) => {
            assert(frame.sources()[0].coherent());
        },
        RuntimeFrameProvenance::Aggregate(aggregate) => {
            active_light_needs_an_ir_stream(
                aggregate.spec_contributors(),
                aggregate.spec_selection(),
            );
        },
    }
}

/// Two frames that the trackers accepted in a row, with no break between them, are neighbours
/// that no pair rule objects to.
pub proof fn tracked_neighbours_have_no_fault(
    numbers: SequenceTracker,
    times: TimestampTracker,
    previous: SingleFrameProvenance,
    current: SingleFrameProvenance,
)
    requires
        times.well_formed(),
        numbers.observed(previous.sequence.raw) is Ok,
        numbers.observed(previous.sequence.raw)->Ok_0 == previous.sequence,
        ({
            let next = numbers.after_observe(previous.sequence.raw).observed(current.sequence.raw);
            next is Ok && next->Ok_0 == current.sequence
        }),
        ({
            let before = previous.timestamp;
            let first = times.observed(before.micros, before.clock, before.source);
            first is Ok && first->Ok_0 == before
        }),
        ({
            let before = previous.timestamp;
            let after = current.timestamp;
            let next = times.after_observe(before.micros, before.clock, before.source).observed(
                after.micros,
                after.clock,
                after.source,
            );
            next is Ok && next->Ok_0 == after
        }),
        !current.sequence.discontinuity,
    ensures
        pair_fault(previous, current) is None,
        current.sequence.cumulative_drops >= previous.sequence.cumulative_drops,
{
}

/// The evidence of active light is enough: a selected contributor's illumination is passed on; what
/// all contributors say is said of their reduction, and nothing where they differ; and a lit
/// contributor less an ambient one is actively lit in whichever order they were captured, while any
/// other difference is not.
pub proof fn evidence_of_light_is_enough(
    contributors: Seq<SingleFrameProvenance>,
    lit_index: usize,
    ambient_index: usize,
    light: IlluminationProvenance,
)
    requires
        contributors.len() > 0,
        lit_index < contributors.len(),
        ambient_index < contributors.len(),
    ensures
        derived_illumination(contributors, ContributorSelection::Selected { index: lit_index })
            == contributors[lit_index as int].illumination,
        (forall|i: int|
            0 <= i < contributors.len() ==> (#[trigger] contributors[i]).illumination == light)
            ==> derived_illumination(contributors, ContributorSelection::ReducedOverAll) == light,
        contributors[lit_index as int].illumination
            != contributors[ambient_index as int].illumination ==> derived_illumination(
            contributors,
            ContributorSelection::ReducedOverAll,
        ) == IlluminationProvenance::Unknown,
        ({
            let derived = derived_illumination(
                contributors,
                ContributorSelection::Subtracted { lit_index, ambient_index },
            );
            let pair = contributors[lit_index as int].illumination
                == IlluminationProvenance::ActiveIr
                && contributors[ambient_index as int].illumination
                == IlluminationProvenance::Ambient;
            &&& pair ==> derived == IlluminationProvenance::ActiveIr
            &&& !pair ==> derived == IlluminationProvenance::Unknown
        }),
{
}

/// Whether a contributor comes from the same place as another: its stream, camera, generation,
/// format, clock, event and epochs are that other's.
pub open spec fn same_stream(a: SingleFrameProvenance, b: SingleFrameProvenance) -> bool {
    &&& a.binding == b.binding
    &&& a.format.fourcc@ == b.format.fourcc@
    &&& (ValidatedFormatIdentity { fourcc: b.format.fourcc, ..a.format }) == b.format
    &&& a.timestamp.clock == b.timestamp.clock
    &&& a.timestamp.source == b.timestamp.source
    &&& a.sequence.stream_epoch == b.sequence.stream_epoch
    &&& a.timestamp.stream_epoch == b.timestamp.stream_epoch
}

/// Whether a contributor follows another in one stream: later by exactly what it reports, and as
/// many numbers on, modulo 2^32, as it reports.
pub open spec fn follows(previous: SingleFrameProvenance, current: SingleFrameProvenance) -> bool {
    &&& current.timestamp.delta_micros matches Some(delta) && 0 < delta <= i64::MAX
        && current.timestamp.micros == previous.timestamp.micros + delta
    &&& current.sequence.advance matches Some(steps) && (current.sequence.raw
        == previous.sequence.raw + steps || current.sequence.raw == previous.sequence.raw + steps
        - 0x1_0000_0000)
}

proof fn followers_have_no_fault(contributors: Seq<SingleFrameProvenance>, n: int)
    requires
        n <= contributors.len(),
        forall|i: int|
            0 < i < contributors.len() ==> follows(contributors[i - 1], #[trigger] contributors[i]),
    ensures
        pairs_fault(contributors, n) is None,
    decreases n,
{
    if n >= 2 {
        followers_have_no_fault(contributors, n - 1);
        assert(follows(contributors[n - 1 - 1], contributors[n - 1]));
    }
}

/// Two to 64 contributors of one stream, each following the one before it without a break, none
/// corrupt, with a drop counter that does not go back and a span that can be told, make an
/// aggregate under every selection among them.
pub proof fn contributors_of_one_stream_make_an_aggregate(
    contributors: Seq<SingleFrameProvenance>,
    selection: ContributorSelection,
)
    requires
        2 <= contributors.len() <= 64,
        match selection {
            ContributorSelection::Selected { index } => index < contributors.len(),
            ContributorSelection::ReducedOverAll => true,
            ContributorSelection::Subtracted { lit_index, ambient_index } => lit_index
                != ambient_index && lit_index < contributors.len() && ambient_index
                < contributors.len(),
        },
        forall|i: int|
            0 <= i < contributors.len() ==> same_stream(contributors[0], #[trigger] contributors[i]),
        forall|i: int|
            0 <= i < contributors.len() ==> {
                let c = #[trigger] contributors[i];
                c.facts.known_flags & 0x40u32 == 0 && !c.sequence.discontinuity
                    && !c.timestamp.discontinuity
            },
        forall|i: int|
            0 < i < contributors.len() ==> follows(contributors[i - 1], #[trigger] contributors[i]),
        contributors[0].sequence.cumulative_drops <= contributors.last().sequence.cumulative_drops,
        contributors.last().timestamp.micros - contributors[0].timestamp.micros <= i64::MAX,
    ensures
        aggregate_fault(contributors, selection) is None,
{
    followers_have_no_fault(contributors, contributors.len() as int);
    assert forall|i: int, category: Category|
        0 <= i < contributors.len() implies #[trigger] fits(
        contributors[0],
        contributors[i],
        category,
    ) by {
        assert(same_stream(contributors[0], contributors[i]));
    }
    assert(all_fit(contributors, Category::Role));
    assert(all_fit(contributors, Category::Binding));
    assert(all_fit(contributors, Category::Format));
    assert(all_fit(contributors, Category::TimestampDomain));
    assert(all_fit(contributors, Category::ContinuityEpoch));
    assert(all_fit(contributors, Category::Continuity));
}

/// What makes an aggregate is what it is: contributors that are too few or too many, a selection
/// that is none, contributors of two streams, a break, a corrupt one, and neighbours that do not
/// follow are each refused.
pub proof fn an_aggregate_has_one_unbroken_stream(
    contributors: Seq<SingleFrameProvenance>,
    selection: ContributorSelection,
)
    requires
        aggregate_fault(contributors, selection) is None,
    ensures
        2 <= contributors.len() <= 64,
        match selection {
            ContributorSelection::Selected { index } => index < contributors.len(),
            ContributorSelection::ReducedOverAll => true,
            ContributorSelection::Subtracted { lit_index, ambient_index } => lit_index
                != ambient_index && lit_index < contributors.len() && ambient_index
                < contributors.len(),
        },
        forall|i: int|
            0 <= i < contributors.len() ==> same_stream(contributors[0], #[trigger] contributors[i]),
        forall|i: int|
            0 <= i < contributors.len() ==> {
                let c = #[trigger] contributors[i];
                c.facts.known_flags & 0x40u32 == 0 && !c.sequence.discontinuity
                    && !c.timestamp.discontinuity
            },
        forall|i: int|
            0 < i < contributors.len() ==> follows(contributors[i - 1], #[trigger] contributors[i]),
        contributors[0].sequence.cumulative_drops <= contributors.last().sequence.cumulative_drops,
        contributors.last().timestamp.micros - contributors[0].timestamp.micros <= i64::MAX,
{
    assert forall|i: int| 0 <= i < contributors.len() implies same_stream(
        contributors[0],
        #[trigger] contributors[i],
    ) && contributors[i].facts.known_flags & 0x40u32 == 0 && !contributors[i].sequence.discontinuity
        && !contributors[i].timestamp.discontinuity by {
        assert(fits(contributors[0], contributors[i], Category::Role));
        assert(fits(contributors[0], contributors[i], Category::Binding));
        assert(fits(contributors[0], contributors[i], Category::Format));
        assert(fits(contributors[0], contributors[i], Category::TimestampDomain));
        assert(fits(contributors[0], contributors[i], Category::ContinuityEpoch));
        assert(fits(contributors[0], contributors[i], Category::Continuity));
    }
    assert forall|i: int| 0 < i < contributors.len() implies follows(
        contributors[i - 1],
        #[trigger] contributors[i],
    ) by {
        pairs_all_good(contributors, contributors.len() as int, i);
    }
}

/// Each refusal of an aggregate has its ground: how many contributors there are, what is selected,
/// or a contributor that differs from the first, is broken, or does not follow its neighbour.
pub proof fn a_refused_aggregate_says_why(
    contributors: Seq<SingleFrameProvenance>,
    selection: ContributorSelection,
)
    ensures
        ({
            let fault = aggregate_fault(contributors, selection);
            let n = contributors.len();
            &&& n < 2 <==> fault == Some(RuntimeProvenanceError::TooFewContributors)
            &&& n > 64 <==> fault == Some(RuntimeProvenanceError::TooManyContributors)
            &&& 2 <= n <= 64 ==> {
                &&& fault == Some(RuntimeProvenanceError::EqualSubtractionIndices) <==> (
                selection matches ContributorSelection::Subtracted { lit_index, ambient_index }
                    && lit_index == ambient_index)
                &&& fault == Some(RuntimeProvenanceError::InvalidSelection) <==> match selection {
                    ContributorSelection::Selected { index } => index >= n,
                    ContributorSelection::ReducedOverAll => false,
                    ContributorSelection::Subtracted { lit_index, ambient_index } => lit_index
                        != ambient_index && (lit_index >= n || ambient_index >= n),
                }
            }
            &&& fault == Some(RuntimeProvenanceError::MixedRole) ==> exists|i: int|
                0 <= i < n && (#[trigger] contributors[i]).binding.stream_role
                    != contributors[0].binding.stream_role
            &&& fault == Some(RuntimeProvenanceError::MixedBinding) ==> exists|i: int|
                0 <= i < n && ((#[trigger] contributors[i]).binding.camera_instance_id
                    != contributors[0].binding.camera_instance_id
                    || contributors[i].binding.generation != contributors[0].binding.generation)
            &&& fault == Some(RuntimeProvenanceError::MixedTimestampDomain) ==> exists|i: int|
                0 <= i < n && ((#[trigger] contributors[i]).timestamp.clock
                    != contributors[0].timestamp.clock || contributors[i].timestamp.source
                    != contributors[0].timestamp.source)
            &&& fault == Some(RuntimeProvenanceError::MixedContinuityEpoch) ==> exists|i: int|
                0 <= i < n && ((#[trigger] contributors[i]).sequence.stream_epoch
                    != contributors[0].sequence.stream_epoch
                    || contributors[i].timestamp.stream_epoch
                    != contributors[0].timestamp.stream_epoch)
            &&& fault == Some(RuntimeProvenanceError::ContributorDiscontinuity) ==> exists|i: int|
                0 <= i < n && ((#[trigger] contributors[i]).facts.known_flags & 0x40u32 != 0
                    || contributors[i].sequence.discontinuity
                    || contributors[i].timestamp.discontinuity)
            &&& fault == Some(RuntimeProvenanceError::CounterUnderflow) ==> n >= 2
                && contributors.last().sequence.cumulative_drops
                < contributors[0].sequence.cumulative_drops
        }),
{
    pair_faults_are_about_pairs(contributors, contributors.len() as int);
}

/// What is wrong between neighbours is one of four things, and some pair shows it.
proof fn pair_faults_are_about_pairs(contributors: Seq<SingleFrameProvenance>, n: int)
    requires
        n <= contributors.len(),
    ensures
        match pairs_fault(contributors, n) {
            None => true,
            Some(error) => (error is TimestampSpanOverflow || error is NonIncreasingTimestamp
                || error is NonConsecutiveSequence || error is TimestampDeltaMismatch)
                && exists|i: int|
                0 < i < n && pair_fault(contributors[i - 1], #[trigger] contributors[i]) == Some(
                    error,
                ),
        },
    decreases n,
{
    if n >= 2 {
        pair_faults_are_about_pairs(contributors, n - 1);
        if pairs_fault(contributors, n - 1) is Some {
            let error = pairs_fault(contributors, n - 1)->0;
            let i = choose|i: int|
                0 < i < n - 1 && pair_fault(contributors[i - 1], #[trigger] contributors[i])
                    == Some(error);
            assert(pair_fault(contributors[i - 1], contributors[i]) == Some(error));
        } else if pairs_fault(contributors, n) is Some {
            assert(pair_fault(contributors[n - 1 - 1], contributors[n - 1]) == pairs_fault(
                contributors,
                n,
            ));
        }
    }
}

/// What is wrong between two neighbours is told by the first of: a distance that cannot be told, no
/// progress, a number that is not where its reported steps lead, and a distance other than the
/// reported one.
pub proof fn neighbours_are_refused_for_what_is_wrong(
    previous: SingleFrameProvenance,
    current: SingleFrameProvenance,
)
    ensures
        ({
            let fault = pair_fault(previous, current);
            let delta = current.timestamp.micros - previous.timestamp.micros;
            let steps = current.sequence.advance;
            let led = steps is Some && (current.sequence.raw == previous.sequence.raw + steps->0
                || current.sequence.raw == previous.sequence.raw + steps->0 - 0x1_0000_0000);
            &&& fault is None <==> follows(previous, current)
            &&& fault == Some(RuntimeProvenanceError::NonIncreasingTimestamp) <==> i64::MIN <= delta
                <= 0
            &&& fault == Some(RuntimeProvenanceError::NonConsecutiveSequence) <==> 0 < delta
                <= i64::MAX && !led
            &&& fault == Some(RuntimeProvenanceError::TimestampDeltaMismatch) <==> 0 < delta
                <= i64::MAX && led && current.timestamp.delta_micros != Some(delta as u64)
        }),
{
}

/// The window of an aggregate starts with the first instant of any contributor's and ends with the
/// last, and the gap and the distance that it reports are the greatest of theirs: no other value
/// is.
pub proof fn an_aggregate_tells_the_extremes(
    contributors: Seq<SingleFrameProvenance>,
    window: CaptureWindow,
    gap: u32,
    delta: Option<u64>,
)
    requires
        contributors.len() > 0,
        is_union(contributors, window),
        is_worst_gap(contributors, gap),
        is_worst_delta(contributors, delta),
    ensures
        forall|i: int|
            0 <= i < contributors.len() ==> {
                let c = #[trigger] contributors[i];
                &&& window.start <= c.capture_window.start
                &&& c.capture_window.end <= window.end
                &&& c.sequence.gap <= gap
                &&& c.timestamp.delta_micros matches Some(d) ==> delta is Some && d <= delta->0
            },
        exists|i: int|
            0 <= i < contributors.len() && (#[trigger] contributors[i]).capture_window.start
                == window.start,
        exists|i: int|
            0 <= i < contributors.len() && (#[trigger] contributors[i]).capture_window.end
                == window.end,
        exists|i: int| 0 <= i < contributors.len() && (#[trigger] contributors[i]).sequence.gap == gap,
        delta is Some ==> exists|i: int|
            0 <= i < contributors.len() && (#[trigger] contributors[i]).timestamp.delta_micros
                == delta,
{
}

} // verus!
