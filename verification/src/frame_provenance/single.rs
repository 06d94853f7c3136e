//! Evidence for one delivered dequeue.
use vstd::prelude::*;
use crate::contracts::{
    CameraGeneration, CameraInstanceId, CaptureWindow, IlluminationProvenance, StreamRole,
};
use crate::frame_provenance::dequeue::DequeuedBufferFacts;
use crate::frame_provenance::sequence::SequenceObservation;
use crate::frame_provenance::timestamp::TimestampObservation;

verus! {

/// Immutable camera identity and logical role copied from a validated lease.
///
/// This value owns its identity so a dequeued frame never depends on a later
/// `/dev/videoN` lookup or a mutable inventory observation.
#[derive(Clone, Copy, Debug, PartialEq, Eq, Structural)]
pub struct FrameBinding {
    pub camera_instance_id: CameraInstanceId,
    pub generation: CameraGeneration,
    pub stream_role: StreamRole,
}

impl FrameBinding {
    pub fn new(
        camera_instance_id: CameraInstanceId,
        generation: CameraGeneration,
        stream_role: StreamRole,
    ) -> (r: Self)
        ensures
            r == (FrameBinding { camera_instance_id, generation, stream_role }),
    {
        FrameBinding { camera_instance_id, generation, stream_role }
    }

    /// Process-scoped identity of the physical camera incarnation.
    #[must_use]
    pub fn camera_instance_id(&self) -> (r: &CameraInstanceId)
        ensures
            *r == self.camera_instance_id,
    {
        &self.camera_instance_id
    }

    /// Lifecycle generation validated when the lease was acquired.
    #[must_use]
    pub fn generation(&self) -> (r: CameraGeneration)
        ensures
            r == self.generation,
    {
        self.generation
    }

    /// Logical role of the endpoint producing frames under this binding.
    #[must_use]
    pub fn stream_role(&self) -> (r: StreamRole)
        ensures
            r == self.stream_role,
    {
        self.stream_role
    }
}

/// A format that a device holds, with the numbers that V4L2 gives its enumerations.
#[derive(Clone, Copy, Debug, PartialEq, Eq)]
pub struct StableFormat {
    pub fourcc: [u8; 4],
    pub width: u32,
    pub height: u32,
    pub stride: u32,
    pub size: u32,
    pub field_order: u32,
    pub colorspace: u32,
    pub quantization: u32,
    pub transfer: u32,
    pub flags: u32,
}

/// Complete identity of the format proven stable after the V4L2 buffer claim.
#[derive(Clone, Copy, Debug, PartialEq, Eq)]
pub struct ValidatedFormatIdentity {
    pub fourcc: [u8; 4],
    pub width: u32,
    pub height: u32,
    pub stride: u32,
    pub image_size: u32,
    pub field_order: u32,
    pub colorspace: u32,
    pub quantization: u32,
    pub transfer: u32,
    pub flags: u32,
}

impl ValidatedFormatIdentity {
    /// Whether two identities agree in every category.
    pub open spec fn agrees(self, other: ValidatedFormatIdentity) -> bool {
        &&& self.fourcc@ == other.fourcc@
        &&& self.width == other.width
        &&& self.height == other.height
        &&& self.stride == other.stride
        &&& self.image_size == other.image_size
        &&& self.field_order == other.field_order
        &&& self.colorspace == other.colorspace
        &&& self.quantization == other.quantization
        &&& self.transfer == other.transfer
        &&& self.flags == other.flags
    }

    /// Whether two identities agree in every category.
    #[must_use]
    pub fn same_as(&self, other: &ValidatedFormatIdentity) -> (r: bool)
        ensures
            r == self.agrees(*other),
    {
        let code: bool = self.fourcc[0] == other.fourcc[0] && self.fourcc[1] == other.fourcc[1]
            && self.fourcc[2] == other.fourcc[2] && self.fourcc[3] == other.fourcc[3];
        assert(code == (self.fourcc@ == other.fourcc@)) by {
            if code {
                assert(self.fourcc@ =~= other.fourcc@);
            }
        }
        code && self.width == other.width && self.height == other.height && self.stride
            == other.stride && self.image_size == other.image_size && self.field_order
            == other.field_order && self.colorspace == other.colorspace && self.quantization
            == other.quantization && self.transfer == other.transfer && self.flags == other.flags
    }

    /// Copy every field category compared by the post-claim format check.
    #[must_use]
    pub fn from_stable_format(format: &StableFormat) -> (r: Self)
        ensures
            r.fourcc@ == format.fourcc@,
            r.width == format.width,
            r.height == format.height,
            r.stride == format.stride,
            r.image_size == format.size,
            r.field_order == format.field_order,
            r.colorspace == format.colorspace,
            r.quantization == format.quantization,
            r.transfer == format.transfer,
            r.flags == format.flags,
    {
        ValidatedFormatIdentity {
            fourcc: format.fourcc,
            width: format.width,
            height: format.height,
            stride: format.stride,
            image_size: format.size,
            field_order: format.field_order,
            colorspace: format.colorspace,
            quantization: format.quantization,
            transfer: format.transfer,
            flags: format.flags,
        }
    }

    #[must_use]
    pub fn fourcc(&self) -> (r: [u8; 4])
        ensures
            r == self.fourcc,
    {
        self.fourcc
    }

    #[must_use]
    pub fn width(&self) -> (r: u32)
        ensures
            r == self.width,
    {
        self.width
    }

    #[must_use]
    pub fn height(&self) -> (r: u32)
        ensures
            r == self.height,
    {
        self.height
    }

    #[must_use]
    pub fn stride(&self) -> (r: u32)
        ensures
            r == self.stride,
    {
        self.stride
    }

    #[must_use]
    pub fn image_size(&self) -> (r: u32)
        ensures
            r == self.image_size,
    {
        self.image_size
    }

    #[must_use]
    pub fn field_order(&self) -> (r: u32)
        ensures
            r == self.field_order,
    {
        self.field_order
    }

    #[must_use]
    pub fn colorspace(&self) -> (r: u32)
        ensures
            r == self.colorspace,
    {
        self.colorspace
    }

    #[must_use]
    pub fn quantization(&self) -> (r: u32)
        ensures
            r == self.quantization,
    {
        self.quantization
    }

    #[must_use]
    pub fn transfer(&self) -> (r: u32)
        ensures
            r == self.transfer,
    {
        self.transfer
    }

    #[must_use]
    pub fn flags(&self) -> (r: u32)
        ensures
            r == self.flags,
    {
        self.flags
    }
}

/// Why captured evidence cannot be published as runtime frame provenance.
#[derive(Clone, Copy, Debug, PartialEq, Eq, Structural)]
#[non_exhaustive]
pub enum RuntimeProvenanceError {
    FactsSequenceMismatch,
    FactsTimestampMismatch,
    ContinuityMismatch,
    DriverReportedCorruption,
    SingleWindowMustBePoint,
    ActiveIrRequiresIrStream,
    TooFewContributors,
    TooManyContributors,
    InvalidSelection,
    EqualSubtractionIndices,
    MixedBinding,
    MixedFormat,
    MixedRole,
    MixedTimestampDomain,
    MixedContinuityEpoch,
    ContributorDiscontinuity,
    NonIncreasingTimestamp,
    NonConsecutiveSequence,
    TimestampDeltaMismatch,
    CounterUnderflow,
    TimestampSpanOverflow,
}

impl RuntimeProvenanceError {
    /// The sentence that describes the error.
    pub open spec fn spec_message(self) -> Seq<char> {
        match self {
            RuntimeProvenanceError::FactsSequenceMismatch =>
                "dequeue facts and sequence observation disagree"@,
            RuntimeProvenanceError::FactsTimestampMismatch =>
                "dequeue facts and timestamp observation disagree"@,
            RuntimeProvenanceError::ContinuityMismatch =>
                "sequence and timestamp continuity disagree"@,
            RuntimeProvenanceError::DriverReportedCorruption =>
                "V4L2 marked a provenance contributor corrupt"@,
            RuntimeProvenanceError::SingleWindowMustBePoint =>
                "single-frame capture window is not a point"@,
            RuntimeProvenanceError::ActiveIrRequiresIrStream =>
                "active-IR evidence requires an IR stream"@,
            RuntimeProvenanceError::TooFewContributors =>
                "aggregate provenance requires at least two contributors"@,
            RuntimeProvenanceError::TooManyContributors =>
                "aggregate provenance exceeds 64 contributors"@,
            RuntimeProvenanceError::InvalidSelection =>
                "aggregate contributor selection is out of bounds"@,
            RuntimeProvenanceError::EqualSubtractionIndices =>
                "subtraction contributors must be distinct"@,
            RuntimeProvenanceError::MixedBinding =>
                "aggregate contributors have mixed camera bindings"@,
            RuntimeProvenanceError::MixedFormat =>
                "aggregate contributors have mixed validated formats"@,
            RuntimeProvenanceError::MixedRole => "aggregate contributors have mixed stream roles"@,
            RuntimeProvenanceError::MixedTimestampDomain =>
                "aggregate contributors have mixed timestamp domains"@,
            RuntimeProvenanceError::MixedContinuityEpoch =>
                "aggregate contributors have mixed continuity epochs"@,
            RuntimeProvenanceError::ContributorDiscontinuity =>
                "aggregate contributor reports a discontinuity"@,
            RuntimeProvenanceError::NonIncreasingTimestamp =>
                "aggregate timestamps are not strictly increasing"@,
            RuntimeProvenanceError::NonConsecutiveSequence =>
                "aggregate sequence observations are not consecutive"@,
            RuntimeProvenanceError::TimestampDeltaMismatch =>
                "aggregate timestamp delta disagrees with its observation"@,
            RuntimeProvenanceError::CounterUnderflow =>
                "aggregate cumulative drop counter moved backward"@,
            RuntimeProvenanceError::TimestampSpanOverflow =>
                "aggregate timestamp span cannot be represented"@,
        }
    }

    /// The sentence that describes the error.
    pub fn message(&self) -> (r: String)
        ensures
            r@ == self.spec_message(),
    {
        match self {
            RuntimeProvenanceError::FactsSequenceMismatch =>
                "dequeue facts and sequence observation disagree".to_owned(),
            RuntimeProvenanceError::FactsTimestampMismatch =>
                "dequeue facts and timestamp observation disagree".to_owned(),
            RuntimeProvenanceError::ContinuityMismatch =>
                "sequence and timestamp continuity disagree".to_owned(),
            RuntimeProvenanceError::DriverReportedCorruption =>
                "V4L2 marked a provenance contributor corrupt".to_owned(),
            RuntimeProvenanceError::SingleWindowMustBePoint =>
                "single-frame capture window is not a point".to_owned(),
            RuntimeProvenanceError::ActiveIrRequiresIrStream =>
                "active-IR evidence requires an IR stream".to_owned(),
            RuntimeProvenanceError::TooFewContributors =>
                "aggregate provenance requires at least two contributors".to_owned(),
            RuntimeProvenanceError::TooManyContributors =>
                "aggregate provenance exceeds 64 contributors".to_owned(),
            RuntimeProvenanceError::InvalidSelection =>
                "aggregate contributor selection is out of bounds".to_owned(),
            RuntimeProvenanceError::EqualSubtractionIndices =>
                "subtraction contributors must be distinct".to_owned(),
            RuntimeProvenanceError::MixedBinding =>
                "aggregate contributors have mixed camera bindings".to_owned(),
            RuntimeProvenanceError::MixedFormat =>
                "aggregate contributors have mixed validated formats".to_owned(),
            RuntimeProvenanceError::MixedRole =>
                "aggregate contributors have mixed stream roles".to_owned(),
            RuntimeProvenanceError::MixedTimestampDomain =>
                "aggregate contributors have mixed timestamp domains".to_owned(),
            RuntimeProvenanceError::MixedContinuityEpoch =>
                "aggregate contributors have mixed continuity epochs".to_owned(),
            RuntimeProvenanceError::ContributorDiscontinuity =>
                "aggregate contributor reports a discontinuity".to_owned(),
            RuntimeProvenanceError::NonIncreasingTimestamp =>
                "aggregate timestamps are not strictly increasing".to_owned(),
            RuntimeProvenanceError::NonConsecutiveSequence =>
                "aggregate sequence observations are not consecutive".to_owned(),
            RuntimeProvenanceError::TimestampDeltaMismatch =>
                "aggregate timestamp delta disagrees with its observation".to_owned(),
            RuntimeProvenanceError::CounterUnderflow =>
                "aggregate cumulative drop counter moved backward".to_owned(),
            RuntimeProvenanceError::TimestampSpanOverflow =>
                "aggregate timestamp span cannot be represented".to_owned(),
        }
    }
}

/// Validated evidence awaiting an explicit, consuming illumination decision.
#[derive(Clone, Copy, Debug, PartialEq, Eq)]
pub struct PendingSingleFrameProvenance {
    pub binding: FrameBinding,
    pub format: ValidatedFormatIdentity,
    pub facts: DequeuedBufferFacts,
    pub sequence: SequenceObservation,
    pub timestamp: TimestampObservation,
    pub capture_window: CaptureWindow,
}

/// Complete trusted runtime evidence for one delivered dequeue.
#[derive(Clone, Copy, Debug, PartialEq, Eq)]
pub struct SingleFrameProvenance {
    pub binding: FrameBinding,
    pub format: ValidatedFormatIdentity,
    pub facts: DequeuedBufferFacts,
    pub sequence: SequenceObservation,
    pub timestamp: TimestampObservation,
    pub capture_window: CaptureWindow,
    pub illumination: IlluminationProvenance,
}

impl SingleFrameProvenance {
    /// Where the pieces of evidence of one frame contradict each other, if they do.
    pub open spec fn contradiction(
        facts: DequeuedBufferFacts,
        sequence: SequenceObservation,
        timestamp: TimestampObservation,
        capture_window: CaptureWindow,
    ) -> Option<RuntimeProvenanceError> {
        if facts.sequence_raw != sequence.raw {
            Some(RuntimeProvenanceError::FactsSequenceMismatch)
        } else if facts.timestamp_micros != timestamp.micros || facts.timestamp_clock
            != timestamp.clock || facts.timestamp_source != timestamp.source {
            Some(RuntimeProvenanceError::FactsTimestampMismatch)
        } else if sequence.stream_epoch != timestamp.stream_epoch || sequence.discontinuity
            != timestamp.discontinuity {
            Some(RuntimeProvenanceError::ContinuityMismatch)
        } else if facts.corrupt() {
            Some(RuntimeProvenanceError::DriverReportedCorruption)
        } else if capture_window.start != capture_window.end {
            Some(RuntimeProvenanceError::SingleWindowMustBePoint)
        } else {
            None
        }
    }

    /// Whether the evidence is what the two steps of a publication let through.
    pub open spec fn coherent(self) -> bool {
        &&& Self::contradiction(
            self.facts,
            self.sequence,
            self.timestamp,
            self.capture_window,
        ) is None
        &&& self.illumination == IlluminationProvenance::ActiveIr ==> self.binding.stream_role
            == StreamRole::Ir
    }

    pub fn begin(
        binding: FrameBinding,
        format: ValidatedFormatIdentity,
        facts: DequeuedBufferFacts,
        sequence: SequenceObservation,
        timestamp: TimestampObservation,
        capture_window: CaptureWindow,
    ) -> (r: Result<PendingSingleFrameProvenance, RuntimeProvenanceError>)
        ensures
            r == (match SingleFrameProvenance::contradiction(
                facts,
                sequence,
                timestamp,
                capture_window,
            ) {
                Some(error) => Err(error),
                None => Ok(
                    PendingSingleFrameProvenance {
                        binding,
                        format,
                        facts,
                        sequence,
                        timestamp,
                        capture_window,
                    },
                ),
            }),
    {
        if facts.sequence_raw() != sequence.raw() {
            return Err(RuntimeProvenanceError::FactsSequenceMismatch);
        }
        if facts.timestamp_micros() != timestamp.micros() || facts.timestamp_clock()
            != timestamp.clock() || facts.timestamp_source() != timestamp.source() {
            return Err(RuntimeProvenanceError::FactsTimestampMismatch);
        }
        if sequence.stream_epoch() != timestamp.stream_epoch() || sequence.discontinuity()
            != timestamp.discontinuity() {
            return Err(RuntimeProvenanceError::ContinuityMismatch);
        }
        if facts.driver_reported_corruption() {
            return Err(RuntimeProvenanceError::DriverReportedCorruption);
        }
        if capture_window.start != capture_window.end {
            return Err(RuntimeProvenanceError::SingleWindowMustBePoint);
        }
        Ok(
            PendingSingleFrameProvenance {
                binding,
                format,
                facts,
                sequence,
                timestamp,
                capture_window,
            },
        )
    }

    #[must_use]
    pub fn binding(&self) -> (r: &FrameBinding)
        ensures
            *r == self.binding,
    {
        &self.binding
    }

    #[must_use]
    pub fn format(&self) -> (r: &ValidatedFormatIdentity)
        ensures
            *r == self.format,
    {
        &self.format
    }

    #[must_use]
    pub fn facts(&self) -> (r: &DequeuedBufferFacts)
        ensures
            *r == self.facts,
    {
        &self.facts
    }

    #[must_use]
    pub fn sequence(&self) -> (r: &SequenceObservation)
        ensures
            *r == self.sequence,
    {
        &self.sequence
    }

    #[must_use]
    pub fn timestamp(&self) -> (r: &TimestampObservation)
        ensures
            *r == self.timestamp,
    {
        &self.timestamp
    }

    #[must_use]
    pub fn capture_window(&self) -> (r: CaptureWindow)
        ensures
            r == self.capture_window,
    {
        self.capture_window
    }

    #[must_use]
    pub fn illumination(&self) -> (r: IlluminationProvenance)
        ensures
            r == self.illumination,
    {
        self.illumination
    }
}

impl PendingSingleFrameProvenance {
    /// The frame under an illumination decision.
    pub open spec fn decided(self, illumination: IlluminationProvenance) -> SingleFrameProvenance {
        SingleFrameProvenance {
            binding: self.binding,
            format: self.format,
            facts: self.facts,
            sequence: self.sequence,
            timestamp: self.timestamp,
            capture_window: self.capture_window,
            illumination,
        }
    }

    pub fn finalize_illumination(self, illumination: IlluminationProvenance) -> (r: Result<
        SingleFrameProvenance,
        RuntimeProvenanceError,
    >)
        ensures
            r == (if illumination == IlluminationProvenance::ActiveIr && self.binding.stream_role
                != StreamRole::Ir {
                Err(RuntimeProvenanceError::ActiveIrRequiresIrStream)
            } else {
                Ok(self.decided(illumination))
            }),
            r is Ok && SingleFrameProvenance::contradiction(
                self.facts,
                self.sequence,
                self.timestamp,
                self.capture_window,
            ) is None ==> r->Ok_0.coherent(),
    {
        if illumination == IlluminationProvenance::ActiveIr && self.binding.stream_role()
            != StreamRole::Ir {
            return Err(RuntimeProvenanceError::ActiveIrRequiresIrStream);
        }
        Ok(
            SingleFrameProvenance {
                binding: self.binding,
                format: self.format,
                facts: self.facts,
                sequence: self.sequence,
                timestamp: self.timestamp,
                capture_window: self.capture_window,
                illumination,
            },
        )
    }
}

// ---------------------------------------------------------------------------------------------
// Laws
// ---------------------------------------------------------------------------------------------

/// A frame that both steps of a publication let through is coherent: its evidence does not
/// contradict itself, and it is called actively lit only where it comes from an infrared stream.
pub proof fn published_frames_are_coherent(
    pending: PendingSingleFrameProvenance,
    illumination: IlluminationProvenance,
)
    requires
        SingleFrameProvenance::contradiction(
            pending.facts,
            pending.sequence,
            pending.timestamp,
            pending.capture_window,
        ) is None,
        illumination == IlluminationProvenance::ActiveIr ==> pending.binding.stream_role
            == StreamRole::Ir,
    ensures
        pending.decided(illumination).coherent(),
{
}

/// The evidence of one frame is let through exactly where its pieces agree: the numbers, the
/// instant, the clock and the event that the dequeue gave are those that were tracked, both trackers
/// tell one epoch and one mark, the driver reported no corruption, and the window is an instant.
pub proof fn agreeing_evidence_is_let_through(
    facts: DequeuedBufferFacts,
    sequence: SequenceObservation,
    timestamp: TimestampObservation,
    window: CaptureWindow,
)
    ensures
        SingleFrameProvenance::contradiction(facts, sequence, timestamp, window) is None <==> {
            &&& facts.sequence_raw == sequence.raw
            &&& facts.timestamp_micros == timestamp.micros
            &&& facts.timestamp_clock == timestamp.clock
            &&& facts.timestamp_source == timestamp.source
            &&& sequence.stream_epoch == timestamp.stream_epoch
            &&& sequence.discontinuity == timestamp.discontinuity
            &&& facts.known_flags & 0x40u32 == 0
            &&& window.start == window.end
        },
{
}

/// Each refusal of a frame's evidence names pieces that do disagree.
pub proof fn contradictory_evidence_is_named(
    facts: DequeuedBufferFacts,
    sequence: SequenceObservation,
    timestamp: TimestampObservation,
    window: CaptureWindow,
)
    ensures
        match SingleFrameProvenance::contradiction(facts, sequence, timestamp, window) {
            None => true,
            Some(RuntimeProvenanceError::FactsSequenceMismatch) => facts.sequence_raw
                != sequence.raw,
            Some(RuntimeProvenanceError::FactsTimestampMismatch) => facts.sequence_raw
                == sequence.raw && (facts.timestamp_micros != timestamp.micros
                || facts.timestamp_clock != timestamp.clock || facts.timestamp_source
                != timestamp.source),
            Some(RuntimeProvenanceError::ContinuityMismatch) => facts.timestamp_micros
                == timestamp.micros && (sequence.stream_epoch != timestamp.stream_epoch
                || sequence.discontinuity != timestamp.discontinuity),
            Some(RuntimeProvenanceError::DriverReportedCorruption) => facts.known_flags & 0x40u32
                != 0 && sequence.stream_epoch == timestamp.stream_epoch,
            Some(RuntimeProvenanceError::SingleWindowMustBePoint) => window.start != window.end
                && facts.known_flags & 0x40u32 == 0,
            Some(_) => false,
        },
{
}

/// A decision about the illumination changes nothing else of the evidence, and two identities of a
/// format agree only where every category of theirs does.
pub proof fn a_decision_keeps_the_evidence(
    pending: PendingSingleFrameProvenance,
    illumination: IlluminationProvenance,
    other: ValidatedFormatIdentity,
)
    ensures
        ({
            let frame = pending.decided(illumination);
            &&& frame.binding == pending.binding
            &&& frame.format == pending.format
            &&& frame.facts == pending.facts
            &&& frame.sequence == pending.sequence
            &&& frame.timestamp == pending.timestamp
            &&& frame.capture_window == pending.capture_window
            &&& frame.illumination == illumination
        }),
        pending.format.agrees(pending.format),
        pending.format.agrees(other) <==> pending.format.fourcc@ == other.fourcc@ && (
        ValidatedFormatIdentity { fourcc: other.fourcc, ..pending.format }) == other,
{
}

} // verus!
