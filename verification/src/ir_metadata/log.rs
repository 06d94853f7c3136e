//! The metadata stream's lifecycle: what to ask of the device next, given what it answered.
//!
//! The caller performs each request on the node and hands back the reply. The rules here decide
//! when the queue may stream, which buffers say anything, and what the teardown may change: the
//! selected format persists after close, so it is put back only where it is known to be irlume's
//! own.
use std::collections::HashMap;
use vstd::prelude::*;
use crate::ir_metadata::parse::{
    buffer_illumination, illumination_in_dequeued_buffer, Illumination, UVCM, V4L2_BUF_FLAG_ERROR,
};
use crate::text::{decimal, push_decimal};

verus! {

/// Ring size for metadata buffers.
pub const META_BUFFERS: u32 = 8;

/// The buffer size that is asked for: several seconds of start-up headroom.
pub const REQUESTED_META_BUFFER_SIZE: u32 = 1_048_576;

/// Application allocation ceiling, not a UVC wire limit: unexpectedly large negotiated buffers
/// are refused before a ring is allocated.
pub const MAX_META_BUFFER_SIZE: u32 = 1_048_576;

/// A metadata node's format.
#[derive(Clone, Copy, Debug, PartialEq, Eq, Structural)]
pub struct MetadataFormat {
    pub dataformat: u32,
    pub buffersize: u32,
}

/// What is known of the format that this session left on the node.
#[derive(Clone, Copy, Debug, PartialEq, Eq, Structural)]
pub enum FormatChange {
    Unchanged,
    /// A failed request does not prove zero mutation, nor does a later read
    /// establish who wrote that state: never guess an undo.
    Uncertain,
    Applied(MetadataFormat),
}

/// Why a metadata stream did not start.
#[derive(Clone, Debug, PartialEq, Eq)]
pub enum StartRefusal {
    /// A request on the node failed.
    Device(String),
    NotUvcm,
    BufferSize,
    NoBuffers,
    TooManyBuffers,
    BufferLength(u32),
    MapFailed(u32),
}

impl StartRefusal {
    /// The sentence that describes the refusal.
    pub open spec fn spec_message(self) -> Seq<char> {
        match self {
            StartRefusal::Device(why) => why@,
            StartRefusal::NotUvcm => "the device does not accept the UVCM metadata format"@,
            StartRefusal::BufferSize =>
                "the device negotiated an unsupported metadata buffer size"@,
            StartRefusal::NoBuffers => "the device granted no metadata buffers"@,
            StartRefusal::TooManyBuffers => "the device granted too many metadata buffers"@,
            StartRefusal::BufferLength(index) => "unsupported metadata buffer length at index "@
                + decimal(index as nat),
            StartRefusal::MapFailed(index) => "mapping metadata buffer "@ + decimal(index as nat)
                + " failed"@,
        }
    }

    /// The sentence that describes the refusal.
    pub fn message(&self) -> (r: String)
        ensures
            r@ == self.spec_message(),
    {
        match self {
            StartRefusal::Device(why) => why.clone(),
            StartRefusal::NotUvcm =>
                "the device does not accept the UVCM metadata format".to_owned(),
            StartRefusal::BufferSize =>
                "the device negotiated an unsupported metadata buffer size".to_owned(),
            StartRefusal::NoBuffers => "the device granted no metadata buffers".to_owned(),
            StartRefusal::TooManyBuffers =>
                "the device granted too many metadata buffers".to_owned(),
            StartRefusal::BufferLength(index) => {
                let mut s: String = "unsupported metadata buffer length at index ".to_owned();
                push_decimal(&mut s, *index as u64);
                s
            },
            StartRefusal::MapFailed(index) => {
                let mut s: String = "mapping metadata buffer ".to_owned();
                push_decimal(&mut s, *index as u64);
                s.append(" failed");
                s
            },
        }
    }
}

/// Where a session stands.
#[derive(Clone, Debug, PartialEq, Eq)]
pub enum Phase {
    ReadFormat,
    Negotiate,
    RequestBuffers,
    Query { index: u32, count: u32 },
    MapBuffer { index: u32, count: u32, length: u32 },
    Queue { index: u32, count: u32 },
    StreamOn,
    Running,
    Refused(StartRefusal),
}

/// What the start of a session asks of the node next.
#[derive(Clone, Copy, Debug, PartialEq, Eq, Structural)]
pub enum StartRequest {
    GetFormat,
    SetFormat(MetadataFormat),
    RequestBuffers { count: u32 },
    QueryBuffer { index: u32 },
    MapBuffer { index: u32, length: u32 },
    QueueBuffer { index: u32 },
    StreamOn,
    /// Nothing: the stream runs, or it was refused.
    Finished,
}

/// What the node answered.
#[derive(Clone, Debug, PartialEq, Eq)]
pub enum DeviceReply {
    /// The request succeeded.
    Done,
    /// The request succeeded and left this format.
    Format(MetadataFormat),
    /// So many buffers were granted.
    Granted(u32),
    /// The buffer has this length.
    Length(u32),
    /// The request failed.
    Failed(String),
}

/// A dequeued metadata buffer, as the kernel describes it.
#[derive(Clone, Copy, Debug, PartialEq, Eq, Structural)]
pub struct DequeuedMetadata {
    pub index: u32,
    pub bytesused: u32,
    pub flags: u32,
    pub seconds: i64,
    pub microseconds: i64,
}

impl DequeuedMetadata {
    /// The timestamp that identifies the image frame, in microseconds.
    pub open spec fn key(self) -> int {
        self.seconds * 1_000_000 + self.microseconds
    }
}

/// What a drain does next.
#[derive(Clone, Copy, Debug, PartialEq, Eq, Structural)]
pub enum DrainRequest {
    /// Nothing more.
    Stop,
    /// Ask for the next ready buffer.
    Dequeue,
    /// Show the first bytes of the buffer that was dequeued.
    View { index: u32, length: usize },
    /// Hand the buffer back to the driver.
    Requeue { index: u32 },
}

/// A metadata session, recording each frame's illumination flag against
/// the buffer timestamp that identifies its image frame.
pub struct IlluminationLog {
    phase: Phase,
    records: HashMap<i64, Illumination>,
    buffers: Vec<u32>,
    restore_format: Option<MetadataFormat>,
    format_change: FormatChange,
    buffers_requested: bool,
    retired: bool,
}

impl IlluminationLog {
    pub closed spec fn phase(self) -> Phase {
        self.phase
    }

    /// The illumination of the frames of this burst, by timestamp.
    pub closed spec fn records(self) -> Map<i64, Illumination> {
        self.records@
    }

    /// The lengths of the mapped buffers.
    pub closed spec fn buffers(self) -> Seq<u32> {
        self.buffers@
    }

    /// What the node was set to before this session changed it.
    pub closed spec fn restore_format(self) -> Option<MetadataFormat> {
        self.restore_format
    }

    pub closed spec fn format_change(self) -> FormatChange {
        self.format_change
    }

    pub closed spec fn buffers_requested(self) -> bool {
        self.buffers_requested
    }

    /// Whether an error buffer ended the session's trust in the ring.
    pub closed spec fn retired(self) -> bool {
        self.retired
    }

    /// What every session keeps: buffers are mapped one by one up to the granted count, and the
    /// stream runs only once all of them are.
    pub open spec fn well_formed(self) -> bool {
        &&& match self.phase() {
            Phase::ReadFormat => self.buffers().len() == 0 && !self.buffers_requested()
                && self.restore_format() is None && self.format_change()
                == FormatChange::Unchanged,
            Phase::Negotiate => self.buffers().len() == 0 && !self.buffers_requested()
                && self.restore_format() is Some && self.format_change()
                == FormatChange::Uncertain,
            Phase::RequestBuffers => self.buffers().len() == 0 && self.buffers_requested(),
            Phase::Query { index, count } => index < count <= META_BUFFERS && self.buffers().len()
                == index && self.buffers_requested(),
            Phase::MapBuffer { index, count, length } => index < count <= META_BUFFERS
                && self.buffers().len() == index && 0 < length <= MAX_META_BUFFER_SIZE
                && self.buffers_requested(),
            Phase::Queue { index, count } => index < count <= META_BUFFERS && self.buffers().len()
                == index + 1 && self.buffers_requested(),
            Phase::StreamOn => 0 < self.buffers().len() <= META_BUFFERS
                && self.buffers_requested(),
            Phase::Running => 0 < self.buffers().len() <= META_BUFFERS && self.buffers_requested(),
            Phase::Refused(_) => true,
        }
        &&& forall|i: int|
            0 <= i < self.buffers().len() ==> 0 < #[trigger] self.buffers()[i]
                <= MAX_META_BUFFER_SIZE
        &&& self.format_change() is Applied ==> self.restore_format() is Some
    }

    /// What is asked of the node in a phase.
    pub open spec fn asked(self) -> StartRequest {
        match self.phase() {
            Phase::ReadFormat => StartRequest::GetFormat,
            Phase::Negotiate => StartRequest::SetFormat(
                MetadataFormat { dataformat: UVCM, buffersize: REQUESTED_META_BUFFER_SIZE },
            ),
            Phase::RequestBuffers => StartRequest::RequestBuffers { count: META_BUFFERS },
            Phase::Query { index, count } => StartRequest::QueryBuffer { index },
            Phase::MapBuffer { index, count, length } => StartRequest::MapBuffer { index, length },
            Phase::Queue { index, count } => StartRequest::QueueBuffer { index },
            Phase::StreamOn => StartRequest::StreamOn,
            Phase::Running => StartRequest::Finished,
            Phase::Refused(_) => StartRequest::Finished,
        }
    }

    /// Whether a reply is one that a request can have.
    pub open spec fn answers(request: StartRequest, reply: DeviceReply) -> bool {
        match request {
            StartRequest::GetFormat | StartRequest::SetFormat(_) => reply is Format
                || reply is Failed,
            StartRequest::RequestBuffers { .. } => reply is Granted || reply is Failed,
            StartRequest::QueryBuffer { .. } => reply is Length || reply is Failed,
            StartRequest::MapBuffer { .. }
            | StartRequest::QueueBuffer { .. }
            | StartRequest::StreamOn => reply is Done || reply is Failed,
            StartRequest::Finished => false,
        }
    }

    /// The phase after a reply.
    pub open spec fn next_phase(self, reply: DeviceReply) -> Phase {
        match (self.phase(), reply) {
            (Phase::MapBuffer { index, count, length }, DeviceReply::Failed(_)) => Phase::Refused(
                StartRefusal::MapFailed(index),
            ),
            (_, DeviceReply::Failed(why)) => Phase::Refused(StartRefusal::Device(why)),
            (Phase::ReadFormat, _) => Phase::Negotiate,
            (Phase::Negotiate, DeviceReply::Format(got)) => if got.dataformat != UVCM {
                Phase::Refused(StartRefusal::NotUvcm)
            } else if got.buffersize == 0 || got.buffersize > MAX_META_BUFFER_SIZE {
                Phase::Refused(StartRefusal::BufferSize)
            } else {
                Phase::RequestBuffers
            },
            (Phase::RequestBuffers, DeviceReply::Granted(count)) => if count == 0 {
                Phase::Refused(StartRefusal::NoBuffers)
            } else if count > META_BUFFERS {
                Phase::Refused(StartRefusal::TooManyBuffers)
            } else {
                Phase::Query { index: 0, count }
            },
            (Phase::Query { index, count }, DeviceReply::Length(length)) => if length == 0 || length
                > MAX_META_BUFFER_SIZE {
                Phase::Refused(StartRefusal::BufferLength(index))
            } else {
                Phase::MapBuffer { index, count, length }
            },
            (Phase::MapBuffer { index, count, length }, _) => Phase::Queue { index, count },
            (Phase::Queue { index, count }, _) => if index + 1 < count {
                Phase::Query { index: (index + 1) as u32, count }
            } else {
                Phase::StreamOn
            },
            (Phase::StreamOn, _) => Phase::Running,
            (phase, _) => phase,
        }
    }

    /// A session on a node that was just opened.
    #[must_use]
    pub fn new() -> (r: Self)
        ensures
            r.well_formed(),
            r.phase() == Phase::ReadFormat,
            r.records() == Map::<i64, Illumination>::empty(),
            !r.retired(),
    {
        IlluminationLog {
            phase: Phase::ReadFormat,
            records: HashMap::new(),
            buffers: Vec::new(),
            restore_format: None,
            format_change: FormatChange::Unchanged,
            buffers_requested: false,
            retired: false,
        }
    }

    /// What the start of the session asks of the node next.
    #[must_use]
    pub fn request(&self) -> (r: StartRequest)
        ensures
            r == self.asked(),
    {
        match &self.phase {
            Phase::ReadFormat => StartRequest::GetFormat,
            Phase::Negotiate => StartRequest::SetFormat(
                MetadataFormat { dataformat: UVCM, buffersize: REQUESTED_META_BUFFER_SIZE },
            ),
            Phase::RequestBuffers => StartRequest::RequestBuffers { count: META_BUFFERS },
            Phase::Query { index, count: _ } => StartRequest::QueryBuffer { index: *index },
            Phase::MapBuffer { index, count: _, length } => StartRequest::MapBuffer {
                index: *index,
                length: *length,
            },
            Phase::Queue { index, count: _ } => StartRequest::QueueBuffer { index: *index },
            Phase::StreamOn => StartRequest::StreamOn,
            Phase::Running => StartRequest::Finished,
            Phase::Refused(_) => StartRequest::Finished,
        }
    }

    /// Takes the node's reply to the last request.
    ///
    /// The format is held to be changed from the moment that a change is asked for, and known
    /// again once the node answers with the one that it took. Buffers count as requested from
    /// the moment that they are asked for: even an allocation error may have made progress.
    pub fn advance(&mut self, reply: DeviceReply)
        requires
            old(self).well_formed(),
            IlluminationLog::answers(old(self).asked(), reply),
        ensures
            final(self).well_formed(),
            final(self).phase() == old(self).next_phase(reply),
            final(self).records() == old(self).records(),
            final(self).retired() == old(self).retired(),
            final(self).buffers() == (match (old(self).phase(), reply) {
                (Phase::MapBuffer { index, count, length }, DeviceReply::Done) => old(self).buffers().push(length),
                _ => old(self).buffers(),
            }),
            final(self).buffers_requested() == (old(self).buffers_requested() || final(self).phase() == Phase::RequestBuffers),
            final(self).restore_format() == (match (old(self).phase(), reply) {
                (Phase::ReadFormat, DeviceReply::Format(original)) => Some(original),
                _ => old(self).restore_format(),
            }),
            final(self).format_change() == (match (old(self).phase(), reply) {
                (Phase::ReadFormat, DeviceReply::Format(_)) => FormatChange::Uncertain,
                (Phase::Negotiate, DeviceReply::Format(got)) => if old(self).restore_format()
                    == Some(got) {
                    FormatChange::Unchanged
                } else {
                    FormatChange::Applied(got)
                },
                _ => old(self).format_change(),
            }),
    {
        let failed_map: Option<u32> = match &self.phase {
            Phase::MapBuffer { index, count: _, length: _ } => Some(*index),
            _ => None,
        };
        match reply {
            DeviceReply::Failed(why) => {
                self.phase = match failed_map {
                    Some(index) => Phase::Refused(StartRefusal::MapFailed(index)),
                    None => Phase::Refused(StartRefusal::Device(why)),
                };
            },
            DeviceReply::Format(format) => {
                let reading: bool = matches!(self.phase, Phase::ReadFormat);
                if reading {
                    self.restore_format = Some(format);
                    self.format_change = FormatChange::Uncertain;
                    self.phase = Phase::Negotiate;
                } else {
                    let unchanged: bool = match self.restore_format {
                        Some(original) => original == format,
                        None => false,
                    };
                    self.format_change = if unchanged {
                        FormatChange::Unchanged
                    } else {
                        FormatChange::Applied(format)
                    };
                    if format.dataformat != UVCM {
                        self.phase = Phase::Refused(StartRefusal::NotUvcm);
                    } else if format.buffersize == 0 || format.buffersize > MAX_META_BUFFER_SIZE {
                        self.phase = Phase::Refused(StartRefusal::BufferSize);
                    } else {
                        self.buffers_requested = true;
                        self.phase = Phase::RequestBuffers;
                    }
                }
            },
            DeviceReply::Granted(count) => {
                if count == 0 {
                    self.phase = Phase::Refused(StartRefusal::NoBuffers);
                } else if count > META_BUFFERS {
                    self.phase = Phase::Refused(StartRefusal::TooManyBuffers);
                } else {
                    self.phase = Phase::Query { index: 0, count };
                }
            },
            DeviceReply::Length(length) => {
                let (index, count): (u32, u32) = match &self.phase {
                    Phase::Query { index, count } => (*index, *count),
                    _ => (0, 0),
                };
                if length == 0 || length > MAX_META_BUFFER_SIZE {
                    self.phase = Phase::Refused(StartRefusal::BufferLength(index));
                } else {
                    self.phase = Phase::MapBuffer { index, count, length };
                }
            },
            DeviceReply::Done => {
                let next: Phase = match &self.phase {
                    Phase::MapBuffer { index, count, length } => {
                        let (index, count, length): (u32, u32, u32) = (*index, *count, *length);
                        self.buffers.push(length);
                        Phase::Queue { index, count }
                    },
                    Phase::Queue { index, count } => {
                        let (index, count): (u32, u32) = (*index, *count);
                        if index + 1 < count {
                            Phase::Query { index: index + 1, count }
                        } else {
                            Phase::StreamOn
                        }
                    },
                    _ => Phase::Running,
                };
                self.phase = next;
            },
        }
    }

    /// Why the stream did not start, if it was refused.
    #[must_use]
    pub fn refusal(&self) -> (r: Option<String>)
        ensures
            match self.phase() {
                Phase::Refused(refusal) => r is Some && r->0@ == refusal.spec_message(),
                _ => r is None,
            },
    {
        match &self.phase {
            Phase::Refused(refusal) => Some(refusal.message()),
            _ => None,
        }
    }

    /// Whether nothing but the records changed.
    pub open spec fn same_session(self, before: IlluminationLog) -> bool {
        &&& self.phase() == before.phase()
        &&& self.buffers() == before.buffers()
        &&& self.restore_format() == before.restore_format()
        &&& self.format_change() == before.format_change()
        &&& self.buffers_requested() == before.buffers_requested()
    }

    /// Drop the previous burst's records.
    ///
    /// Correlation only ever looks at the burst being captured. Called once before a burst
    /// rather than inside a drain, which runs per frame.
    pub fn begin_burst(&mut self)
        ensures
            final(self).same_session(*old(self)),
            final(self).retired() == old(self).retired(),
            final(self).records() == Map::<i64, Illumination>::empty(),
    {
        self.records.clear();
    }

    /// Starts to pull every metadata buffer the driver has ready. A session that is retired, or
    /// whose image producer failed, forgets what it recorded and asks for nothing.
    pub fn begin_drain(&mut self, producer_failed: bool) -> (r: DrainRequest)
        ensures
            final(self).same_session(*old(self)),
            final(self).retired() == old(self).retired(),
            if old(self).retired() || producer_failed {
                r == DrainRequest::Stop && final(self).records() == Map::<i64, Illumination>::empty()
            } else {
                &&& final(self).records() == old(self).records()
                &&& r == (if old(self).phase() == Phase::Running {
                    DrainRequest::Dequeue
                } else {
                    DrainRequest::Stop
                })
            },
    {
        if self.retired || producer_failed {
            self.records.clear();
            return DrainRequest::Stop;
        }
        match &self.phase {
            Phase::Running => DrainRequest::Dequeue,
            _ => DrainRequest::Stop,
        }
    }

    /// Takes what the kernel says of a dequeued buffer, before any of its bytes is looked at.
    ///
    /// A buffer in error retires the session: what it recorded is forgotten, and nothing more is
    /// read. A buffer that does not exist, or that claims more bytes than are mapped, goes back
    /// unread.
    pub fn inspect(&mut self, buffer: &DequeuedMetadata) -> (r: DrainRequest)
        ensures
            final(self).same_session(*old(self)),
            if buffer.flags & V4L2_BUF_FLAG_ERROR != 0 {
                &&& r == DrainRequest::Stop
                &&& final(self).retired()
                &&& final(self).records() == Map::<i64, Illumination>::empty()
            } else {
                &&& final(self).retired() == old(self).retired()
                &&& final(self).records() == old(self).records()
                &&& r == (if buffer.index < old(self).buffers().len() && buffer.bytesused <= old(self).buffers()[buffer.index as int] {
                    DrainRequest::View {
                        index: buffer.index,
                        length: buffer.bytesused as usize,
                    }
                } else {
                    DrainRequest::Requeue { index: buffer.index }
                })
            },
    {
        if buffer.flags & V4L2_BUF_FLAG_ERROR != 0 {
            self.retired = true;
            self.records.clear();
            return DrainRequest::Stop;
        }
        let index: usize = buffer.index as usize;
        if index < self.buffers.len() && buffer.bytesused <= self.buffers[index] {
            DrainRequest::View { index: buffer.index, length: buffer.bytesused as usize }
        } else {
            DrainRequest::Requeue { index: buffer.index }
        }
    }

    /// Records what the bytes of a dequeued buffer say of its frame. The timestamp of a buffer that
    /// says nothing is not looked at.
    pub fn classify(&mut self, buffer: &DequeuedMetadata, bytes: &[u8]) -> (r: DrainRequest)
        requires
            buffer.flags & V4L2_BUF_FLAG_ERROR == 0 && buffer_illumination(bytes@) is Some
                ==> i64::MIN <= buffer.key() <= i64::MAX,
        ensures
            r == (DrainRequest::Requeue { index: buffer.index }),
            final(self).same_session(*old(self)),
            final(self).retired() == old(self).retired(),
            final(self).records() == (if buffer.flags & V4L2_BUF_FLAG_ERROR == 0
                && buffer_illumination(bytes@) is Some {
                old(self).records().insert(
                    buffer.key() as i64,
                    buffer_illumination(bytes@)->0,
                )
            } else {
                old(self).records()
            }),
    {
        broadcast use vstd::std_specs::hash::group_hash_axioms;

        if let Some(illumination) = illumination_in_dequeued_buffer(bytes, buffer.flags) {
            let key: i128 = buffer.seconds as i128 * 1_000_000 + buffer.microseconds as i128;
            self.records.insert(key as i64, illumination);
        }
        DrainRequest::Requeue { index: buffer.index }
    }

    /// Goes on after the driver took a buffer back, or stops where it did not: a buffer that
    /// cannot be returned is one that the driver will never refill.
    #[must_use]
    pub fn requeued(&self, accepted: bool) -> (r: DrainRequest)
        ensures
            r == (if accepted {
                DrainRequest::Dequeue
            } else {
                DrainRequest::Stop
            }),
    {
        if accepted {
            DrainRequest::Dequeue
        } else {
            DrainRequest::Stop
        }
    }

    /// What the camera said about the image frame captured at a timestamp.
    #[must_use]
    pub fn illumination_at(&self, timestamp_us: i64) -> (r: Option<Illumination>)
        ensures
            r == (if self.records().dom().contains(timestamp_us) {
                Some(self.records()[timestamp_us])
            } else {
                None
            }),
    {
        broadcast use vstd::std_specs::hash::group_hash_axioms;

        match self.records.get(&timestamp_us) {
            Some(illumination) => Some(*illumination),
            None => None,
        }
    }

    /// What the end of the session has to put back: the original format, where the node still
    /// holds the one that this session applied.
    pub open spec fn owed(self) -> Option<OwedFormat> {
        match (self.restore_format(), self.format_change()) {
            (Some(original), FormatChange::Applied(applied)) => Some(
                OwedFormat { applied, original },
            ),
            _ => None,
        }
    }

    /// The teardown of the session, or `None` where it has to wait: an image producer that is not
    /// quiescent takes the session over and tears it down after its stop.
    #[must_use]
    pub fn teardown(&self, producer_quiescent: Option<bool>) -> (r: Option<Teardown>)
        ensures
            producer_quiescent == Some(false) ==> r is None,
            producer_quiescent != Some(false) ==> r == Some(
                Teardown {
                    phase: if self.phase() == Phase::Running {
                        TeardownPhase::StopStream
                    } else {
                        TeardownPhase::Unmap
                    },
                    buffers_requested: self.buffers_requested(),
                    owed: self.owed(),
                },
            ),
    {
        if let Some(quiescent) = producer_quiescent {
            if !quiescent {
                return None;
            }
        }
        let owed: Option<OwedFormat> = match (self.restore_format, self.format_change) {
            (Some(original), FormatChange::Applied(applied)) => Some(
                OwedFormat { applied, original },
            ),
            _ => None,
        };
        let streaming: bool = match &self.phase {
            Phase::Running => true,
            _ => false,
        };
        Some(
            Teardown {
                phase: if streaming {
                    TeardownPhase::StopStream
                } else {
                    TeardownPhase::Unmap
                },
                buffers_requested: self.buffers_requested,
                owed,
            },
        )
    }
}

// ---------------------------------------------------------------------------------------------
// Teardown
// ---------------------------------------------------------------------------------------------

/// A format to put back, and the one that must still be there for that.
#[derive(Clone, Copy, Debug, PartialEq, Eq, Structural)]
pub struct OwedFormat {
    pub applied: MetadataFormat,
    pub original: MetadataFormat,
}

/// Where a teardown stands.
#[derive(Clone, Copy, Debug, PartialEq, Eq, Structural)]
pub enum TeardownPhase {
    StopStream,
    Unmap,
    Release,
    CheckFormat,
    RestoreFormat,
    Close,
    Closed,
}

/// What a teardown asks of the node next.
#[derive(Clone, Copy, Debug, PartialEq, Eq, Structural)]
pub enum TeardownRequest {
    StreamOff,
    UnmapBuffers,
    ReleaseBuffers,
    GetFormat,
    SetFormat(MetadataFormat),
    Close,
    /// Nothing: the node is closed.
    Finished,
}

/// The end of a metadata session.
///
/// Unmapping alone leaves the queue allocated, and a format cannot be changed on an allocated
/// queue: so the buffers are unmapped and handed back before the format is looked at. There is
/// no atomic compare-and-set: the check is a best-effort ownership check.
#[derive(Clone, Copy, Debug, PartialEq, Eq, Structural)]
pub struct Teardown {
    pub phase: TeardownPhase,
    pub buffers_requested: bool,
    pub owed: Option<OwedFormat>,
}

impl Teardown {
    /// What a phase asks of the node.
    pub open spec fn asked(self) -> TeardownRequest {
        match self.phase {
            TeardownPhase::StopStream => TeardownRequest::StreamOff,
            TeardownPhase::Unmap => TeardownRequest::UnmapBuffers,
            TeardownPhase::Release => TeardownRequest::ReleaseBuffers,
            TeardownPhase::CheckFormat => TeardownRequest::GetFormat,
            TeardownPhase::RestoreFormat => match self.owed {
                Some(owed) => TeardownRequest::SetFormat(owed.original),
                None => TeardownRequest::Finished,
            },
            TeardownPhase::Close => TeardownRequest::Close,
            TeardownPhase::Closed => TeardownRequest::Finished,
        }
    }

    /// What every teardown keeps: a format is looked at, or put back, only where one is owed.
    pub open spec fn well_formed(self) -> bool {
        self.phase == TeardownPhase::CheckFormat || self.phase == TeardownPhase::RestoreFormat
            ==> self.owed is Some
    }

    /// The phase that follows once the buffers are known to be released.
    pub open spec fn after_release(self) -> TeardownPhase {
        if self.owed is Some {
            TeardownPhase::CheckFormat
        } else {
            TeardownPhase::Close
        }
    }

    /// The phase after a reply.
    pub open spec fn next_phase(self, reply: DeviceReply) -> TeardownPhase {
        match self.phase {
            TeardownPhase::StopStream => TeardownPhase::Unmap,
            TeardownPhase::Unmap => if self.buffers_requested {
                TeardownPhase::Release
            } else {
                self.after_release()
            },
            TeardownPhase::Release => if reply is Failed {
                TeardownPhase::Close
            } else {
                self.after_release()
            },
            TeardownPhase::CheckFormat => if reply == DeviceReply::Format(self.owed->0.applied) {
                TeardownPhase::RestoreFormat
            } else {
                TeardownPhase::Close
            },
            TeardownPhase::RestoreFormat => TeardownPhase::Close,
            TeardownPhase::Close => TeardownPhase::Closed,
            TeardownPhase::Closed => TeardownPhase::Closed,
        }
    }

    /// What the teardown asks of the node next.
    #[must_use]
    pub fn request(&self) -> (r: TeardownRequest)
        ensures
            r == self.asked(),
    {
        match self.phase {
            TeardownPhase::StopStream => TeardownRequest::StreamOff,
            TeardownPhase::Unmap => TeardownRequest::UnmapBuffers,
            TeardownPhase::Release => TeardownRequest::ReleaseBuffers,
            TeardownPhase::CheckFormat => TeardownRequest::GetFormat,
            TeardownPhase::RestoreFormat => match self.owed {
                Some(owed) => TeardownRequest::SetFormat(owed.original),
                None => TeardownRequest::Finished,
            },
            TeardownPhase::Close => TeardownRequest::Close,
            TeardownPhase::Closed => TeardownRequest::Finished,
        }
    }

    /// Takes the node's reply to the last request. A failure never stops the teardown; it only
    /// keeps the format as it is where the buffers were not released or it cannot be read.
    pub fn advance(&mut self, reply: DeviceReply)
        requires
            old(self).well_formed(),
        ensures
            final(self).well_formed(),
            final(self).phase == old(self).next_phase(reply),
            final(self).owed == old(self).owed,
            final(self).buffers_requested == old(self).buffers_requested,
    {
        let released: TeardownPhase = if self.owed.is_some() {
            TeardownPhase::CheckFormat
        } else {
            TeardownPhase::Close
        };
        let failed: bool = match &reply {
            DeviceReply::Failed(_) => true,
            _ => false,
        };
        let ours: bool = match (&reply, self.owed) {
            (DeviceReply::Format(current), Some(owed)) => *current == owed.applied,
            _ => false,
        };
        self.phase = match self.phase {
            TeardownPhase::StopStream => TeardownPhase::Unmap,
            TeardownPhase::Unmap => if self.buffers_requested {
                TeardownPhase::Release
            } else {
                released
            },
            TeardownPhase::Release => if failed {
                TeardownPhase::Close
            } else {
                released
            },
            TeardownPhase::CheckFormat => if ours {
                TeardownPhase::RestoreFormat
            } else {
                TeardownPhase::Close
            },
            TeardownPhase::RestoreFormat => TeardownPhase::Close,
            TeardownPhase::Close => TeardownPhase::Closed,
            TeardownPhase::Closed => TeardownPhase::Closed,
        };
    }

    /// The teardown after a reply.
    pub open spec fn after(self, reply: DeviceReply) -> Teardown {
        Teardown { phase: self.next_phase(reply), ..self }
    }

    /// The teardown after replies, the first of them first.
    pub open spec fn after_all(self, replies: Seq<DeviceReply>) -> Teardown
        decreases replies.len(),
    {
        if replies.len() == 0 {
            self
        } else {
            self.after_all(replies.drop_last()).after(replies.last())
        }
    }
}

// ---------------------------------------------------------------------------------------------
// Laws
// ---------------------------------------------------------------------------------------------

/// A teardown changes the node's format only to put the original back, only where this session
/// applied another, and only right after the node was read to hold that one still.
pub proof fn teardown_restores_only_what_it_owns(
    session: IlluminationLog,
    teardown: Teardown,
    replies: Seq<DeviceReply>,
    format: MetadataFormat,
)
    requires
        teardown.owed == session.owed(),
        teardown.phase == TeardownPhase::StopStream || teardown.phase == TeardownPhase::Unmap,
        teardown.after_all(replies).asked() == TeardownRequest::SetFormat(format),
    ensures
        session.restore_format() == Some(format),
        session.format_change() is Applied,
        replies.len() > 0,
        replies.last() == DeviceReply::Format(session.format_change()->Applied_0),
{
    teardown_keeps_what_is_owed(teardown, replies);
    if replies.len() > 0 {
        teardown_keeps_what_is_owed(teardown, replies.drop_last());
    }
}

proof fn teardown_keeps_what_is_owed(teardown: Teardown, replies: Seq<DeviceReply>)
    ensures
        teardown.after_all(replies).owed == teardown.owed,
        teardown.after_all(replies).buffers_requested == teardown.buffers_requested,
    decreases replies.len(),
{
    if replies.len() > 0 {
        teardown_keeps_what_is_owed(teardown, replies.drop_last());
    }
}

/// A number that each step of a teardown lowers, down to zero where the node is closed.
pub open spec fn steps_left(phase: TeardownPhase) -> int {
    match phase {
        TeardownPhase::StopStream => 6,
        TeardownPhase::Unmap => 5,
        TeardownPhase::Release => 4,
        TeardownPhase::CheckFormat => 3,
        TeardownPhase::RestoreFormat => 2,
        TeardownPhase::Close => 1,
        TeardownPhase::Closed => 0,
    }
}

/// Every teardown closes the node, whatever the device answers, within six replies; and since
/// each step moves on, no request is made twice.
pub proof fn teardown_always_closes(teardown: Teardown, replies: Seq<DeviceReply>)
    ensures
        steps_left(teardown.after_all(replies).phase) <= (if steps_left(teardown.phase)
            > replies.len() {
            steps_left(teardown.phase) - replies.len()
        } else {
            0
        }),
        replies.len() >= 6 ==> teardown.after_all(replies).phase == TeardownPhase::Closed,
    decreases replies.len(),
{
    if replies.len() > 0 {
        teardown_always_closes(teardown, replies.drop_last());
    }
}

/// The buffers that were requested are handed back before the format is looked at or put back.
pub proof fn buffers_are_released_before_the_format(
    teardown: Teardown,
    replies: Seq<DeviceReply>,
)
    requires
        teardown.phase == TeardownPhase::StopStream || teardown.phase == TeardownPhase::Unmap,
        teardown.buffers_requested,
        teardown.after_all(replies).phase == TeardownPhase::CheckFormat
            || teardown.after_all(replies).phase == TeardownPhase::RestoreFormat,
    ensures
        exists|i: int|
            0 <= i < replies.len() && (#[trigger] teardown.after_all(replies.take(i))).phase
                == TeardownPhase::Release && !(replies[i] is Failed),
    decreases replies.len(),
{
    teardown_keeps_what_is_owed(teardown, replies);
    let shorter = replies.drop_last();
    let n = shorter.len() as int;
    assert(replies.take(n) =~= shorter);
    teardown_keeps_what_is_owed(teardown, shorter);
    if teardown.after_all(shorter).phase == TeardownPhase::Release {
        assert(teardown.after_all(replies.take(n)).phase == TeardownPhase::Release);
    } else {
        buffers_are_released_before_the_format(teardown, shorter);
        let i = choose|i: int|
            0 <= i < shorter.len() && (#[trigger] teardown.after_all(shorter.take(i))).phase
                == TeardownPhase::Release && !(shorter[i] is Failed);
        assert(shorter.take(i) =~= replies.take(i));
    }
}

/// The stream is switched on only with every granted buffer mapped, and each of them within the
/// allocation ceiling.
pub proof fn streaming_needs_every_buffer(session: IlluminationLog)
    requires
        session.well_formed(),
        session.asked() == StartRequest::StreamOn,
    ensures
        0 < session.buffers().len() <= META_BUFFERS,
        forall|i: int|
            0 <= i < session.buffers().len() ==> 0 < #[trigger] session.buffers()[i]
                <= MAX_META_BUFFER_SIZE,
{
}

/// The start of a session asks for the format, for UVCM with buffers of a mebibyte, for eight
/// buffers, for the length of each, to map it at that length and to queue it, and to switch the
/// stream on.
pub proof fn each_phase_asks_for_its_own(session: IlluminationLog)
    ensures
        match session.phase() {
            Phase::ReadFormat => session.asked() == StartRequest::GetFormat,
            Phase::Negotiate => session.asked() == StartRequest::SetFormat(
                MetadataFormat { dataformat: 0x4d43_5655, buffersize: 1_048_576 },
            ),
            Phase::RequestBuffers => session.asked() == (StartRequest::RequestBuffers { count: 8 }),
            Phase::Query { index, count } => session.asked() == (StartRequest::QueryBuffer {
                index,
            }),
            Phase::MapBuffer { index, count, length } => session.asked() == (
            StartRequest::MapBuffer { index, length }),
            Phase::Queue { index, count } => session.asked() == (StartRequest::QueueBuffer {
                index,
            }),
            Phase::StreamOn => session.asked() == StartRequest::StreamOn,
            Phase::Running | Phase::Refused(_) => session.asked() == StartRequest::Finished,
        },
{
}

/// A node that answers as it should is taken one step further by every answer, until its stream runs:
/// over the format to the buffers, over each of the granted buffers in turn, and to the stream.
pub proof fn a_willing_node_is_started(
    session: IlluminationLog,
    format: MetadataFormat,
    granted: u32,
    bytes: u32,
)
    requires
        format.dataformat == 0x4d43_5655,
        1 <= format.buffersize <= 1_048_576,
        1 <= granted <= 8,
        1 <= bytes <= 1_048_576,
    ensures
        match session.phase() {
            Phase::ReadFormat => session.next_phase(DeviceReply::Format(format))
                == Phase::Negotiate,
            Phase::Negotiate => session.next_phase(DeviceReply::Format(format))
                == Phase::RequestBuffers,
            Phase::RequestBuffers => session.next_phase(DeviceReply::Granted(granted)) == (
            Phase::Query { index: 0, count: granted }),
            Phase::Query { index, count } => session.next_phase(DeviceReply::Length(bytes)) == (
            Phase::MapBuffer { index, count, length: bytes }),
            Phase::MapBuffer { index, count, length } => session.next_phase(DeviceReply::Done) == (
            Phase::Queue { index, count }),
            Phase::Queue { index, count } => {
                &&& index + 1 < count ==> session.next_phase(DeviceReply::Done) == (Phase::Query {
                    index: (index + 1) as u32,
                    count,
                })
                &&& index + 1 >= count ==> session.next_phase(DeviceReply::Done) == Phase::StreamOn
            },
            Phase::StreamOn => session.next_phase(DeviceReply::Done) == Phase::Running,
            _ => true,
        },
{
}

/// A start is refused for what the node did: another format, a buffer size of zero or above a
/// mebibyte, no buffers or more than were asked for, a buffer of no length or too long, or a request
/// that failed. A failed mapping is told by the buffer's index, any other failure in its own words.
pub proof fn a_refused_start_says_why(session: IlluminationLog, reply: DeviceReply)
    requires
        IlluminationLog::answers(session.asked(), reply),
    ensures
        ({
            let next = session.next_phase(reply);
            match reply {
                DeviceReply::Failed(why) => next == (match session.phase() {
                    Phase::MapBuffer { index, count, length } => Phase::Refused(
                        StartRefusal::MapFailed(index),
                    ),
                    _ => Phase::Refused(StartRefusal::Device(why)),
                }),
                DeviceReply::Format(got) => {
                    &&& session.phase() == Phase::Negotiate && got.dataformat != 0x4d43_5655
                        ==> next == Phase::Refused(StartRefusal::NotUvcm)
                    &&& session.phase() == Phase::Negotiate && got.dataformat == 0x4d43_5655 && (
                    got.buffersize == 0 || got.buffersize > 1_048_576) ==> next == Phase::Refused(
                        StartRefusal::BufferSize,
                    )
                },
                DeviceReply::Granted(count) => {
                    &&& count == 0 ==> next == Phase::Refused(StartRefusal::NoBuffers)
                    &&& count > 8 ==> next == Phase::Refused(StartRefusal::TooManyBuffers)
                },
                DeviceReply::Length(length) => length == 0 || length > 1_048_576 ==> next
                    == Phase::Refused(StartRefusal::BufferLength(session.phase()->Query_index)),
                DeviceReply::Done => !(next is Refused),
            }
        }),
{
}

/// A format is owed exactly where the one before this session is known and this session is known to
/// have left another.
pub proof fn a_known_change_is_owed(session: IlluminationLog)
    ensures
        session.owed() is Some <==> session.restore_format() is Some && session.format_change() is Applied,
        session.owed() is Some ==> Some(session.owed()->0.original) == session.restore_format()
            && FormatChange::Applied(session.owed()->0.applied) == session.format_change(),
{
}

/// A running session that owes a format stops its stream, unmaps its buffers, hands them back, finds
/// its own format still there, puts the original back and closes the node. A step that fails on the
/// way to the buffers' release does not keep it from the next.
pub proof fn an_owed_format_is_put_back(
    owed: OwedFormat,
    stopped: DeviceReply,
    unmapped: DeviceReply,
    put_back: DeviceReply,
    closed: DeviceReply,
)
    ensures
        ({
            let t0 = Teardown {
                phase: TeardownPhase::StopStream,
                buffers_requested: true,
                owed: Some(owed),
            };
            let t1 = t0.after(stopped);
            let t2 = t1.after(unmapped);
            let t3 = t2.after(DeviceReply::Done);
            let t4 = t3.after(DeviceReply::Format(owed.applied));
            let t5 = t4.after(put_back);
            let t6 = t5.after(closed);
            &&& t0.asked() == TeardownRequest::StreamOff
            &&& t1.asked() == TeardownRequest::UnmapBuffers
            &&& t2.asked() == TeardownRequest::ReleaseBuffers
            &&& t3.asked() == TeardownRequest::GetFormat
            &&& t4.asked() == TeardownRequest::SetFormat(owed.original)
            &&& t5.asked() == TeardownRequest::Close
            &&& t6.asked() == TeardownRequest::Finished
        }),
{
}

/// A format is left as it is, and the node closed, where the buffers were not released or the node
/// does not hold the session's own format; and where nothing is owed it is not even looked at.
pub proof fn a_foreign_format_is_left_alone(
    owed: OwedFormat,
    why: String,
    reply: DeviceReply,
    requested: bool,
)
    requires
        reply != DeviceReply::Format(owed.applied),
    ensures
        ({
            let releasing = Teardown {
                phase: TeardownPhase::Release,
                buffers_requested: requested,
                owed: Some(owed),
            };
            let checking = Teardown { phase: TeardownPhase::CheckFormat, ..releasing };
            let unmapping = Teardown { phase: TeardownPhase::Unmap, ..releasing };
            &&& releasing.after(DeviceReply::Failed(why)).asked() == TeardownRequest::Close
            &&& checking.after(reply).asked() == TeardownRequest::Close
            &&& (Teardown { owed: None, ..releasing }).after(DeviceReply::Done).asked()
                == TeardownRequest::Close
            &&& unmapping.after(reply).asked() == (if requested {
                TeardownRequest::ReleaseBuffers
            } else {
                TeardownRequest::GetFormat
            })
        }),
{
}

} // verus!
