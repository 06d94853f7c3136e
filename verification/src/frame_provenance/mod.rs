//! Strict runtime evidence bound to one immutable camera lease reference.
pub mod aggregate;
pub mod dequeue;
pub mod sequence;
pub mod single;
pub mod timestamp;

pub use aggregate::{AggregateFrameProvenance, ContributorSelection, RuntimeFrameProvenance};
pub use dequeue::{BufferMetadata, DequeuedBufferError, DequeuedBufferFacts, PayloadLayout};
pub use sequence::{SequenceObservation, SequenceTracker, SequenceTrackerError};
pub use single::{
    FrameBinding, PendingSingleFrameProvenance, RuntimeProvenanceError, SingleFrameProvenance,
    StableFormat, ValidatedFormatIdentity,
};
pub use timestamp::{
    TimestampClock, TimestampObservation, TimestampSource, TimestampTracker, TimestampTrackerError,
};
