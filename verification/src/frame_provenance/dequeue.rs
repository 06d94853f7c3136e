//! The boundary at which a dequeued buffer becomes trusted evidence.
use vstd::prelude::*;
use crate::frame_provenance::timestamp::{TimestampClock, TimestampSource};
use crate::text::{
    debug_quoted, decimal, decoded_lossy, hex_digits, push_decimal, push_hex, push_signed_decimal,
    quoted, signed_decimal, utf8_lossy,
};

verus! {

/// Buffer flag: the payload of the buffer is corrupted.
pub const FLAG_ERROR: u32 = 0x0000_0040;

/// Buffer flag: the image is a keyframe.
pub const FLAG_KEYFRAME: u32 = 0x0000_0008;

/// The flag bits that name the timestamp's clock.
pub const TIMESTAMP_MASK: u32 = 0x0000_e000;

/// Timestamp clock: not said.
pub const TIMESTAMP_UNKNOWN: u32 = 0x0000_0000;

/// Timestamp clock: the monotonic clock.
pub const TIMESTAMP_MONOTONIC: u32 = 0x0000_2000;

/// Timestamp clock: copied from an output buffer.
pub const TIMESTAMP_COPY: u32 = 0x0000_4000;

/// The flag bits that name the event at which the timestamp was taken.
pub const TSTAMP_SRC_MASK: u32 = 0x0007_0000;

/// Timestamp event: the end of the frame.
pub const TSTAMP_SRC_EOF: u32 = 0x0000_0000;

/// Timestamp event: the start of the exposure.
pub const TSTAMP_SRC_SOE: u32 = 0x0001_0000;

/// What the kernel says of a dequeued buffer.
#[derive(Clone, Copy, Debug, PartialEq, Eq, Structural)]
pub struct BufferMetadata {
    /// Number of bytes occupied by the data in the buffer.
    pub bytesused: u32,
    /// Buffer flags.
    pub flags: u32,
    /// Field order of the image in the buffer.
    pub field: u32,
    /// Whole seconds of the time of capture.
    pub timestamp_sec: i64,
    /// Microseconds of the time of capture.
    pub timestamp_usec: i64,
    /// Sequence number, counting the frames.
    pub sequence: u32,
}

impl Default for BufferMetadata {
    fn default() -> (r: Self)
        ensures
            r == (BufferMetadata {
                bytesused: 0,
                flags: 0,
                field: 0,
                timestamp_sec: 0,
                timestamp_usec: 0,
                sequence: 0,
            }),
    {
        BufferMetadata {
            bytesused: 0,
            flags: 0,
            field: 0,
            timestamp_sec: 0,
            timestamp_usec: 0,
            sequence: 0,
        }
    }
}

/// Why a dequeued buffer cannot enter the trusted decode boundary.
#[derive(Clone, Copy, Debug, PartialEq, Eq)]
#[non_exhaustive]
pub enum DequeuedBufferError {
    /// V4L2 marked the dequeued payload as corrupt.
    DriverReportedCorruption,
    /// The driver returned a timestamp that cannot identify a valid instant.
    InvalidTimestamp { seconds: i64, microseconds: i64 },
    /// The known timestamp mask carried a value with no defined semantics.
    UnsupportedTimestampClock(u32),
    /// The known timestamp-source mask carried a value with no defined semantics.
    UnsupportedTimestampSource(u32),
    /// The negotiated format has no strict payload rule in this boundary.
    UnsupportedFormat([u8; 4]),
    /// Zero geometry cannot describe a decodable image payload.
    InvalidGeometry { width: u32, height: u32 },
    /// Existing decoders require tightly packed rows.
    UnsupportedStride { expected: usize, actual: usize },
    /// Geometry arithmetic exceeded the target address space.
    PayloadSizeOverflow,
    /// The initialized payload cannot contain the negotiated image.
    PayloadTooShort { bytes_used: usize, minimum: usize },
    /// The driver claims more initialized payload than exists in the mmap slot.
    PayloadExceedsMapping { bytes_used: usize, mapped_len: usize },
    /// The kernel's payload length cannot be represented on this target.
    PayloadLengthUnsupported(u32),
}

impl DequeuedBufferError {
    /// The sentence that describes the error. `format` is how an unsupported pixel format is
    /// shown.
    pub open spec fn worded(self, format: Seq<char>) -> Seq<char> {
        match self {
            DequeuedBufferError::DriverReportedCorruption =>
                "V4L2 marked the dequeued payload as corrupt"@,
            DequeuedBufferError::InvalidTimestamp { seconds, microseconds } =>
                "invalid V4L2 timestamp "@ + signed_decimal(seconds as int) + "s "@
                    + signed_decimal(microseconds as int) + "us"@,
            DequeuedBufferError::UnsupportedTimestampClock(bits) =>
                "unsupported V4L2 timestamp clock bits 0x"@ + hex_digits(bits as nat, 8),
            DequeuedBufferError::UnsupportedTimestampSource(bits) =>
                "unsupported V4L2 timestamp source bits 0x"@ + hex_digits(bits as nat, 8),
            DequeuedBufferError::UnsupportedFormat(_) =>
                "unsupported dequeued pixel format "@ + format,
            DequeuedBufferError::InvalidGeometry { width, height } =>
                "invalid dequeued geometry "@ + decimal(width as nat) + "x"@ + decimal(
                    height as nat,
                ),
            DequeuedBufferError::UnsupportedStride { expected, actual } =>
                "unsupported row stride "@ + decimal(actual as nat) + "; tight decoder requires "@
                    + decimal(expected as nat),
            DequeuedBufferError::PayloadSizeOverflow =>
                "dequeued payload geometry overflows usize"@,
            DequeuedBufferError::PayloadTooShort { bytes_used, minimum } =>
                "dequeued payload uses "@ + decimal(bytes_used as nat)
                    + " bytes but format requires at least "@ + decimal(minimum as nat),
            DequeuedBufferError::PayloadExceedsMapping { bytes_used, mapped_len } =>
                "dequeued payload uses "@ + decimal(bytes_used as nat)
                    + " bytes but mapping has "@ + decimal(mapped_len as nat),
            DequeuedBufferError::PayloadLengthUnsupported(bytes_used) =>
                "dequeued payload length "@ + decimal(bytes_used as nat)
                    + " is unsupported on this target"@,
        }
    }

    /// The sentence that describes the error. A pixel format is shown as text, quoted.
    pub open spec fn spec_message(self) -> Seq<char> {
        match self {
            DequeuedBufferError::UnsupportedFormat(fourcc) => self.worded(
                debug_quoted(utf8_lossy(fourcc@)),
            ),
            _ => self.worded(""@),
        }
    }

    /// The sentence that describes the error.
    pub fn message(&self) -> (r: String)
        ensures
            r@ == self.spec_message(),
    {
        match self {
            DequeuedBufferError::UnsupportedFormat(fourcc) => self.message_with(
                quoted(decoded_lossy(fourcc.as_slice()).as_str()).as_str(),
            ),
            _ => self.message_with(""),
        }
    }

    /// The sentence that describes the error, with a pixel format as it is shown.
    pub fn message_with(&self, format: &str) -> (r: String)
        ensures
            r@ == self.worded(format@),
    {
        match self {
            DequeuedBufferError::DriverReportedCorruption =>
                "V4L2 marked the dequeued payload as corrupt".to_owned(),
            DequeuedBufferError::InvalidTimestamp { seconds, microseconds } => {
                let mut s: String = "invalid V4L2 timestamp ".to_owned();
                push_signed_decimal(&mut s, *seconds);
                s.append("s ");
                push_signed_decimal(&mut s, *microseconds);
                s.append("us");
                s
            },
            DequeuedBufferError::UnsupportedTimestampClock(bits) => {
                let mut s: String = "unsupported V4L2 timestamp clock bits 0x".to_owned();
                push_hex(&mut s, *bits as u128, 8);
                s
            },
            DequeuedBufferError::UnsupportedTimestampSource(bits) => {
                let mut s: String = "unsupported V4L2 timestamp source bits 0x".to_owned();
                push_hex(&mut s, *bits as u128, 8);
                s
            },
            DequeuedBufferError::UnsupportedFormat(_) => {
                let mut s: String = "unsupported dequeued pixel format ".to_owned();
                s.append(format);
                s
            },
            DequeuedBufferError::InvalidGeometry { width, height } => {
                let mut s: String = "invalid dequeued geometry ".to_owned();
                push_decimal(&mut s, *width as u64);
                s.append("x");
                push_decimal(&mut s, *height as u64);
                s
            },
            DequeuedBufferError::UnsupportedStride { expected, actual } => {
                let mut s: String = "unsupported row stride ".to_owned();
                push_decimal(&mut s, *actual as u64);
                s.append("; tight decoder requires ");
                push_decimal(&mut s, *expected as u64);
                s
            },
            DequeuedBufferError::PayloadSizeOverflow =>
                "dequeued payload geometry overflows usize".to_owned(),
            DequeuedBufferError::PayloadTooShort { bytes_used, minimum } => {
                let mut s: String = "dequeued payload uses ".to_owned();
                push_decimal(&mut s, *bytes_used as u64);
                s.append(" bytes but format requires at least ");
                push_decimal(&mut s, *minimum as u64);
                s
            },
            DequeuedBufferError::PayloadExceedsMapping { bytes_used, mapped_len } => {
                let mut s: String = "dequeued payload uses ".to_owned();
                push_decimal(&mut s, *bytes_used as u64);
                s.append(" bytes but mapping has ");
                push_decimal(&mut s, *mapped_len as u64);
                s
            },
            DequeuedBufferError::PayloadLengthUnsupported(bytes_used) => {
                let mut s: String = "dequeued payload length ".to_owned();
                push_decimal(&mut s, *bytes_used as u64);
                s.append(" is unsupported on this target");
                s
            },
        }
    }
}

// ---------------------------------------------------------------------------------------------
// Payload layout
// ---------------------------------------------------------------------------------------------

/// How the bytes of an image are packed.
pub ghost enum Packing {
    /// One byte for each pixel: `GREY`, `Y8  `, `Y800`.
    OneByte,
    /// Two bytes for each pixel: `Y16 `, `Y10 `, `Y12 `.
    TwoBytes,
    /// Two pixels in four bytes: `YUYV`.
    PixelPairs,
    /// A plane of one byte for each pixel, and half as much again for the chroma of each block
    /// of two by two pixels: `NV12`.
    LumaAndChroma,
}

/// The packing of a pixel format, by its four character code.
pub open spec fn packing(fourcc: Seq<u8>) -> Option<Packing> {
    if fourcc == seq![0x47u8, 0x52u8, 0x45u8, 0x59u8] || fourcc == seq![0x59u8, 0x38u8, 0x20u8, 0x20u8]
        || fourcc == seq![0x59u8, 0x38u8, 0x30u8, 0x30u8] {
        Some(Packing::OneByte)
    } else if fourcc == seq![0x59u8, 0x31u8, 0x36u8, 0x20u8] || fourcc == seq![
        0x59u8,
        0x31u8,
        0x30u8,
        0x20u8,
    ] || fourcc == seq![0x59u8, 0x31u8, 0x32u8, 0x20u8] {
        Some(Packing::TwoBytes)
    } else if fourcc == seq![0x59u8, 0x55u8, 0x59u8, 0x56u8] {
        Some(Packing::PixelPairs)
    } else if fourcc == seq![0x4eu8, 0x56u8, 0x31u8, 0x32u8] {
        Some(Packing::LumaAndChroma)
    } else {
        None
    }
}

/// Whether the code of a pixel format is the four given characters.
fn is_code(fourcc: &[u8; 4], a: u8, b: u8, c: u8, d: u8) -> (r: bool)
    ensures
        r == (fourcc@ == seq![a, b, c, d]),
{
    assert(fourcc@ =~= seq![fourcc@[0], fourcc@[1], fourcc@[2], fourcc@[3]]);
    assert(seq![a, b, c, d][0] == a && seq![a, b, c, d][1] == b && seq![a, b, c, d][2] == c
        && seq![a, b, c, d][3] == d);
    fourcc[0] == a && fourcc[1] == b && fourcc[2] == c && fourcc[3] == d
}

/// Checked minimum payload for one negotiated, tightly packed image format.
#[derive(Clone, Copy, Debug, PartialEq, Eq, Structural)]
pub struct PayloadLayout {
    pub minimum: usize,
}

impl PayloadLayout {
    /// Whether a geometry describes whole pixels of a packing.
    pub open spec fn geometry_fits(packing: Option<Packing>, width: u32, height: u32) -> bool {
        &&& width > 0
        &&& height > 0
        &&& packing == Some(Packing::PixelPairs) ==> width % 2 == 0
        &&& packing == Some(Packing::LumaAndChroma) ==> width % 2 == 0 && height % 2 == 0
    }

    /// The bytes of a tightly packed row.
    pub open spec fn row_bytes(packing: Packing, width: u32) -> int {
        match packing {
            Packing::OneByte | Packing::LumaAndChroma => width as int,
            Packing::TwoBytes | Packing::PixelPairs => 2 * width,
        }
    }

    /// The bytes of a tightly packed image.
    pub open spec fn image_bytes(packing: Packing, width: u32, height: u32) -> int {
        let plane = Self::row_bytes(packing, width) * height;
        if packing == Packing::LumaAndChroma {
            plane + plane / 2
        } else {
            plane
        }
    }

    /// The layout of a negotiated format.
    pub open spec fn negotiated(fourcc: [u8; 4], width: u32, height: u32, stride: u32) -> Result<
        PayloadLayout,
        DequeuedBufferError,
    > {
        let format = packing(fourcc@);
        if !Self::geometry_fits(format, width, height) {
            Err(DequeuedBufferError::InvalidGeometry { width, height })
        } else if format is None {
            Err(DequeuedBufferError::UnsupportedFormat(fourcc))
        } else if Self::row_bytes(format->0, width) > usize::MAX {
            Err(DequeuedBufferError::PayloadSizeOverflow)
        } else if stride != Self::row_bytes(format->0, width) {
            Err(
                DequeuedBufferError::UnsupportedStride {
                    expected: Self::row_bytes(format->0, width) as usize,
                    actual: stride as usize,
                },
            )
        } else if Self::image_bytes(format->0, width, height) > usize::MAX {
            Err(DequeuedBufferError::PayloadSizeOverflow)
        } else {
            Ok(
                PayloadLayout {
                    minimum: Self::image_bytes(format->0, width, height) as usize,
                },
            )
        }
    }

    pub fn new(fourcc: [u8; 4], width: u32, height: u32, stride: u32) -> (r: Result<
        Self,
        DequeuedBufferError,
    >)
        ensures
            r == PayloadLayout::negotiated(fourcc, width, height, stride),
    {
        let yuyv: bool = is_code(&fourcc, 0x59, 0x55, 0x59, 0x56);
        let nv12: bool = is_code(&fourcc, 0x4e, 0x56, 0x31, 0x32);
        let one_byte: bool = is_code(&fourcc, 0x47, 0x52, 0x45, 0x59) || is_code(
            &fourcc,
            0x59,
            0x38,
            0x20,
            0x20,
        ) || is_code(&fourcc, 0x59, 0x38, 0x30, 0x30);
        let two_bytes: bool = is_code(&fourcc, 0x59, 0x31, 0x36, 0x20) || is_code(
            &fourcc,
            0x59,
            0x31,
            0x30,
            0x20,
        ) || is_code(&fourcc, 0x59, 0x31, 0x32, 0x20);
        proof {
            codes_differ(fourcc@);
        }
        if width == 0 || height == 0 {
            return Err(DequeuedBufferError::InvalidGeometry { width, height });
        }
        if (yuyv && width % 2 != 0) || (nv12 && (width % 2 != 0 || height % 2 != 0)) {
            return Err(DequeuedBufferError::InvalidGeometry { width, height });
        }
        let columns: usize = width as usize;
        let rows: usize = height as usize;
        let actual: usize = stride as usize;
        let expected: usize = if one_byte || nv12 {
            columns
        } else if two_bytes || yuyv {
            match columns.checked_mul(2) {
                Some(bytes) => bytes,
                None => {
                    return Err(DequeuedBufferError::PayloadSizeOverflow);
                },
            }
        } else {
            return Err(DequeuedBufferError::UnsupportedFormat(fourcc));
        };
        if actual != expected {
            return Err(DequeuedBufferError::UnsupportedStride { expected, actual });
        }
        let plane: usize = match expected.checked_mul(rows) {
            Some(bytes) => bytes,
            None => {
                return Err(DequeuedBufferError::PayloadSizeOverflow);
            },
        };
        let minimum: usize = if nv12 {
            match plane.checked_add(plane / 2) {
                Some(bytes) => bytes,
                None => {
                    return Err(DequeuedBufferError::PayloadSizeOverflow);
                },
            }
        } else {
            plane
        };
        Ok(PayloadLayout { minimum })
    }

    pub fn validate(self, facts: &DequeuedBufferFacts) -> (r: Result<(), DequeuedBufferError>)
        ensures
            r == (if facts.bytes_used < self.minimum {
                Err(
                    DequeuedBufferError::PayloadTooShort {
                        bytes_used: facts.bytes_used,
                        minimum: self.minimum,
                    },
                )
            } else {
                Ok(())
            }),
    {
        if facts.bytes_used < self.minimum {
            return Err(
                DequeuedBufferError::PayloadTooShort {
                    bytes_used: facts.bytes_used,
                    minimum: self.minimum,
                },
            );
        }
        Ok(())
    }
}

/// The codes of the packings that depend on the geometry are no others.
proof fn codes_differ(fourcc: Seq<u8>)
    ensures
        fourcc == seq![0x59u8, 0x55u8, 0x59u8, 0x56u8] <==> packing(fourcc) == Some(
            Packing::PixelPairs,
        ),
        fourcc == seq![0x4eu8, 0x56u8, 0x31u8, 0x32u8] <==> packing(fourcc) == Some(
            Packing::LumaAndChroma,
        ),
{
    if fourcc == seq![0x59u8, 0x55u8, 0x59u8, 0x56u8] || fourcc == seq![0x4eu8, 0x56u8, 0x31u8, 0x32u8] {
        assert(fourcc[1] == 0x55u8 || fourcc[1] == 0x56u8);
        assert(seq![0x47u8, 0x52u8, 0x45u8, 0x59u8][1] == 0x52u8);
        assert(seq![0x59u8, 0x38u8, 0x20u8, 0x20u8][1] == 0x38u8);
        assert(seq![0x59u8, 0x38u8, 0x30u8, 0x30u8][1] == 0x38u8);
        assert(seq![0x59u8, 0x31u8, 0x36u8, 0x20u8][1] == 0x31u8);
        assert(seq![0x59u8, 0x31u8, 0x30u8, 0x20u8][1] == 0x31u8);
        assert(seq![0x59u8, 0x31u8, 0x32u8, 0x20u8][1] == 0x31u8);
        assert(seq![0x59u8, 0x55u8, 0x59u8, 0x56u8][1] == 0x55u8);
        assert(seq![0x4eu8, 0x56u8, 0x31u8, 0x32u8][1] == 0x56u8);
    }
}

// ---------------------------------------------------------------------------------------------
// Facts of one dequeue
// ---------------------------------------------------------------------------------------------

/// Owned kernel facts copied from one reusable V4L2 dequeue slot.
#[derive(Clone, Copy, Debug, PartialEq, Eq, Structural)]
pub struct DequeuedBufferFacts {
    pub bytes_used: usize,
    pub known_flags: u32,
    pub sequence_raw: u32,
    pub timestamp_seconds: i64,
    pub timestamp_microseconds: i64,
    pub timestamp_micros: i64,
    pub timestamp_clock: TimestampClock,
    pub timestamp_source: TimestampSource,
}

/// The clock that the flag bits name.
pub open spec fn named_clock(bits: u32) -> Option<TimestampClock> {
    if bits == TIMESTAMP_UNKNOWN {
        Some(TimestampClock::Unknown)
    } else if bits == TIMESTAMP_MONOTONIC {
        Some(TimestampClock::Monotonic)
    } else if bits == TIMESTAMP_COPY {
        Some(TimestampClock::Copy)
    } else {
        None
    }
}

/// The event that the flag bits name.
pub open spec fn named_source(bits: u32) -> Option<TimestampSource> {
    if bits == TSTAMP_SRC_EOF {
        Some(TimestampSource::EndOfFrame)
    } else if bits == TSTAMP_SRC_SOE {
        Some(TimestampSource::StartOfExposure)
    } else {
        None
    }
}

impl DequeuedBufferFacts {
    /// The timestamp of a buffer in microseconds.
    pub open spec fn total_micros(metadata: BufferMetadata) -> int {
        metadata.timestamp_sec * 1_000_000 + metadata.timestamp_usec
    }

    /// Whether a timestamp names an instant that microseconds can key.
    pub open spec fn timestamp_valid(metadata: BufferMetadata) -> bool {
        &&& metadata.timestamp_sec >= 0
        &&& 0 <= metadata.timestamp_usec < 1_000_000
        &&& Self::total_micros(metadata) <= i64::MAX
    }

    /// What the metadata of a buffer with a mapping of `mapped_len` bytes says.
    pub open spec fn copied(metadata: BufferMetadata, mapped_len: usize) -> Result<
        DequeuedBufferFacts,
        DequeuedBufferError,
    > {
        let clock_bits = metadata.flags & TIMESTAMP_MASK;
        let source_bits = metadata.flags & TSTAMP_SRC_MASK;
        if metadata.bytesused > mapped_len {
            Err(
                DequeuedBufferError::PayloadExceedsMapping {
                    bytes_used: metadata.bytesused as usize,
                    mapped_len,
                },
            )
        } else if !Self::timestamp_valid(metadata) {
            Err(
                DequeuedBufferError::InvalidTimestamp {
                    seconds: metadata.timestamp_sec,
                    microseconds: metadata.timestamp_usec,
                },
            )
        } else if named_clock(clock_bits) is None {
            Err(DequeuedBufferError::UnsupportedTimestampClock(clock_bits))
        } else if named_source(source_bits) is None {
            Err(DequeuedBufferError::UnsupportedTimestampSource(source_bits))
        } else {
            Ok(
                DequeuedBufferFacts {
                    bytes_used: metadata.bytesused as usize,
                    known_flags: metadata.flags,
                    sequence_raw: metadata.sequence,
                    timestamp_seconds: metadata.timestamp_sec,
                    timestamp_microseconds: metadata.timestamp_usec,
                    timestamp_micros: Self::total_micros(metadata) as i64,
                    timestamp_clock: named_clock(clock_bits)->0,
                    timestamp_source: named_source(source_bits)->0,
                },
            )
        }
    }

    /// Whether V4L2 marked the payload as corrupt.
    pub open spec fn corrupt(self) -> bool {
        self.known_flags & FLAG_ERROR != 0
    }

    /// Copy and validate metadata before the ring slot can be reused.
    ///
    /// # Errors
    ///
    /// Returns [`DequeuedBufferError`] for malformed timestamp semantics or a
    /// payload outside the mmap boundary. Driver-reported payload corruption is
    /// retained as metadata so continuity can observe the dequeue while the
    /// trusted payload boundary rejects delivery.
    pub fn from_v4l(metadata: &BufferMetadata, mapped_len: usize) -> (r: Result<
        Self,
        DequeuedBufferError,
    >)
        ensures
            r == DequeuedBufferFacts::copied(*metadata, mapped_len),
    {
        let bytes_used: usize = metadata.bytesused as usize;
        if bytes_used > mapped_len {
            return Err(DequeuedBufferError::PayloadExceedsMapping { bytes_used, mapped_len });
        }
        let seconds: i64 = metadata.timestamp_sec;
        let microseconds: i64 = metadata.timestamp_usec;
        if seconds < 0 || microseconds < 0 || microseconds >= 1_000_000 {
            return Err(DequeuedBufferError::InvalidTimestamp { seconds, microseconds });
        }
        let whole: i64 = match seconds.checked_mul(1_000_000) {
            Some(micros) => micros,
            None => {
                return Err(DequeuedBufferError::InvalidTimestamp { seconds, microseconds });
            },
        };
        let timestamp_micros: i64 = match whole.checked_add(microseconds) {
            Some(micros) => micros,
            None => {
                return Err(DequeuedBufferError::InvalidTimestamp { seconds, microseconds });
            },
        };
        let clock_bits: u32 = metadata.flags & TIMESTAMP_MASK;
        let timestamp_clock: TimestampClock = if clock_bits == TIMESTAMP_UNKNOWN {
            TimestampClock::Unknown
        } else if clock_bits == TIMESTAMP_MONOTONIC {
            TimestampClock::Monotonic
        } else if clock_bits == TIMESTAMP_COPY {
            TimestampClock::Copy
        } else {
            return Err(DequeuedBufferError::UnsupportedTimestampClock(clock_bits));
        };
        let source_bits: u32 = metadata.flags & TSTAMP_SRC_MASK;
        let timestamp_source: TimestampSource = if source_bits == TSTAMP_SRC_EOF {
            TimestampSource::EndOfFrame
        } else if source_bits == TSTAMP_SRC_SOE {
            TimestampSource::StartOfExposure
        } else {
            return Err(DequeuedBufferError::UnsupportedTimestampSource(source_bits));
        };
        Ok(
            DequeuedBufferFacts {
                bytes_used,
                known_flags: metadata.flags,
                sequence_raw: metadata.sequence,
                timestamp_seconds: seconds,
                timestamp_microseconds: microseconds,
                timestamp_micros,
                timestamp_clock,
                timestamp_source,
            },
        )
    }

    /// Number of initialized payload bytes reported by the driver.
    #[must_use]
    pub fn bytes_used(&self) -> (r: usize)
        ensures
            r == self.bytes_used,
    {
        self.bytes_used
    }

    /// All flag bits that the metadata carried.
    #[must_use]
    pub fn known_flags(&self) -> (r: u32)
        ensures
            r == self.known_flags,
    {
        self.known_flags
    }

    /// Whether V4L2 marked this successfully dequeued payload as corrupt.
    #[must_use]
    pub fn driver_reported_corruption(&self) -> (r: bool)
        ensures
            r == self.corrupt(),
    {
        self.known_flags & FLAG_ERROR != 0
    }

    /// Raw wrapping V4L2 sequence number.
    #[must_use]
    pub fn sequence_raw(&self) -> (r: u32)
        ensures
            r == self.sequence_raw,
    {
        self.sequence_raw
    }

    /// Whole seconds from the V4L2 buffer timestamp.
    #[must_use]
    pub fn timestamp_seconds(&self) -> (r: i64)
        ensures
            r == self.timestamp_seconds,
    {
        self.timestamp_seconds
    }

    /// Sub-second microseconds from the V4L2 buffer timestamp.
    #[must_use]
    pub fn timestamp_microseconds(&self) -> (r: i64)
        ensures
            r == self.timestamp_microseconds,
    {
        self.timestamp_microseconds
    }

    /// Checked total timestamp in microseconds for same-domain correlation.
    #[must_use]
    pub fn timestamp_micros(&self) -> (r: i64)
        ensures
            r == self.timestamp_micros,
    {
        self.timestamp_micros
    }

    /// Clock domain declared by the V4L2 timestamp flags.
    #[must_use]
    pub fn timestamp_clock(&self) -> (r: TimestampClock)
        ensures
            r == self.timestamp_clock,
    {
        self.timestamp_clock
    }

    /// Capture event declared by the V4L2 timestamp flags.
    #[must_use]
    pub fn timestamp_source(&self) -> (r: TimestampSource)
        ensures
            r == self.timestamp_source,
    {
        self.timestamp_source
    }
}

/// A validated payload holds every byte of the negotiated image and lies in its mapping.
pub proof fn validated_payload_holds_the_image(
    metadata: BufferMetadata,
    mapped_len: usize,
    fourcc: [u8; 4],
    width: u32,
    height: u32,
    stride: u32,
)
    requires
        DequeuedBufferFacts::copied(metadata, mapped_len) is Ok,
        PayloadLayout::negotiated(fourcc, width, height, stride) is Ok,
        DequeuedBufferFacts::copied(metadata, mapped_len)->Ok_0.bytes_used
            >= PayloadLayout::negotiated(fourcc, width, height, stride)->Ok_0.minimum,
    ensures
        PayloadLayout::image_bytes(packing(fourcc@)->0, width, height) <= metadata.bytesused
            <= mapped_len,
        stride * height <= metadata.bytesused,
{
    let format = packing(fourcc@)->0;
    assert(PayloadLayout::row_bytes(format, width) == stride);
    assert(stride * height >= 0) by (nonlinear_arith);
}

/// Driver-reported corruption does not keep a buffer out: which facts a buffer gives does not
/// depend on the error flag, and the flag is kept.
pub proof fn corruption_is_retained_not_rejected(metadata: BufferMetadata, mapped_len: usize)
    ensures
        ({
            let flagged = BufferMetadata { flags: metadata.flags | FLAG_ERROR, ..metadata };
            let plain = DequeuedBufferFacts::copied(metadata, mapped_len);
            let corrupt = DequeuedBufferFacts::copied(flagged, mapped_len);
            &&& plain is Ok <==> corrupt is Ok
            &&& corrupt is Ok ==> corrupt->Ok_0.corrupt() && corrupt->Ok_0 == (
            DequeuedBufferFacts { known_flags: flagged.flags, ..plain->Ok_0 })
        }),
{
    let flags = metadata.flags;
    assert((flags | 0x40u32) & 0xe000u32 == flags & 0xe000u32) by (bit_vector);
    assert((flags | 0x40u32) & 0x7_0000u32 == flags & 0x7_0000u32) by (bit_vector);
    assert((flags | 0x40u32) & 0x40u32 != 0u32) by (bit_vector);
}

/// The facts of a buffer are copied exactly where its payload lies in its mapping, its timestamp is
/// an instant that microseconds can key, and its flags name a known clock and event; they are the
/// buffer's own numbers.
pub proof fn a_sound_buffer_gives_its_own_facts(metadata: BufferMetadata, mapped_len: usize)
    ensures
        ({
            let clock = metadata.flags & 0xe000u32;
            let event = metadata.flags & 0x7_0000u32;
            let sound = {
                &&& metadata.bytesused <= mapped_len
                &&& metadata.timestamp_sec >= 0
                &&& 0 <= metadata.timestamp_usec <= 999_999
                &&& metadata.timestamp_sec * 1_000_000 + metadata.timestamp_usec <= i64::MAX
                &&& (clock == 0 || clock == 0x2000u32 || clock == 0x4000u32)
                &&& (event == 0 || event == 0x1_0000u32)
            };
            let copied = DequeuedBufferFacts::copied(metadata, mapped_len);
            &&& copied is Ok <==> sound
            &&& copied matches Ok(facts) ==> {
                &&& facts.bytes_used == metadata.bytesused
                &&& facts.known_flags == metadata.flags
                &&& facts.sequence_raw == metadata.sequence
                &&& facts.timestamp_seconds == metadata.timestamp_sec
                &&& facts.timestamp_microseconds == metadata.timestamp_usec
                &&& facts.timestamp_micros == metadata.timestamp_sec * 1_000_000
                    + metadata.timestamp_usec
                &&& (facts.timestamp_clock is Unknown <==> clock == 0)
                &&& (facts.timestamp_clock is Monotonic <==> clock == 0x2000u32)
                &&& (facts.timestamp_clock is Copy <==> clock == 0x4000u32)
                &&& (facts.timestamp_source is EndOfFrame <==> event == 0)
                &&& (facts.timestamp_source is StartOfExposure <==> event == 0x1_0000u32)
                &&& (facts.corrupt() <==> metadata.flags & 0x40u32 != 0)
            }
        }),
{
}

/// Each refusal of a buffer carries the numbers that are its ground, and that ground is there. A
/// payload beyond its mapping is told before anything else.
pub proof fn a_refused_buffer_says_why(metadata: BufferMetadata, mapped_len: usize)
    ensures
        match DequeuedBufferFacts::copied(metadata, mapped_len) {
            Ok(_) => true,
            Err(DequeuedBufferError::PayloadExceedsMapping { bytes_used, mapped_len: mapped }) =>
                bytes_used == metadata.bytesused && mapped == mapped_len && bytes_used > mapped,
            Err(DequeuedBufferError::InvalidTimestamp { seconds, microseconds }) => seconds
                == metadata.timestamp_sec && microseconds == metadata.timestamp_usec && (seconds < 0
                || microseconds < 0 || microseconds >= 1_000_000 || seconds * 1_000_000
                + microseconds > i64::MAX),
            Err(DequeuedBufferError::UnsupportedTimestampClock(bits)) => bits == metadata.flags
                & 0xe000u32 && bits != 0 && bits != 0x2000u32 && bits != 0x4000u32,
            Err(DequeuedBufferError::UnsupportedTimestampSource(bits)) => bits == metadata.flags
                & 0x7_0000u32 && bits != 0 && bits != 0x1_0000u32,
            Err(_) => false,
        },
        metadata.bytesused > mapped_len ==> DequeuedBufferFacts::copied(
            metadata,
            mapped_len,
        ) matches Err(DequeuedBufferError::PayloadExceedsMapping { .. }),
{
}

/// Of the formats that hold one byte for each pixel, two bytes, pairs of pixels, or a plane and half
/// as much chroma, a geometry of whole pixels and tight rows has a layout, and it asks for every
/// byte of the image.
pub proof fn a_tight_image_has_its_size(fourcc: [u8; 4], width: u32, height: u32, stride: u32)
    requires
        width > 0,
        height > 0,
        2 * width <= usize::MAX,
        stride as int * height as int + stride as int * height as int / 2 <= usize::MAX,
    ensures
        ({
            let code = fourcc@;
            let size = stride as int * height as int;
            let layout = PayloadLayout::negotiated(fourcc, width, height, stride);
            let grey = code == seq![0x47u8, 0x52u8, 0x45u8, 0x59u8] || code == seq![
                0x59u8,
                0x38u8,
                0x20u8,
                0x20u8,
            ] || code == seq![0x59u8, 0x38u8, 0x30u8, 0x30u8];
            let deep = code == seq![0x59u8, 0x31u8, 0x36u8, 0x20u8] || code == seq![
                0x59u8,
                0x31u8,
                0x30u8,
                0x20u8,
            ] || code == seq![0x59u8, 0x31u8, 0x32u8, 0x20u8];
            let pairs = code == seq![0x59u8, 0x55u8, 0x59u8, 0x56u8];
            let planar = code == seq![0x4eu8, 0x56u8, 0x31u8, 0x32u8];
            &&& grey && stride == width ==> layout is Ok && layout->Ok_0.minimum == size
            &&& deep && stride == 2 * width ==> layout is Ok && layout->Ok_0.minimum == size
            &&& pairs && width % 2 == 0 && stride == 2 * width ==> layout is Ok && layout->Ok_0.minimum
                == size
            &&& planar && width % 2 == 0 && height % 2 == 0 && stride == width
                ==> layout is Ok && layout->Ok_0.minimum == size + size / 2
            &&& grey && stride != width || planar && width % 2 == 0 && height % 2 == 0 && stride
                != width ==> layout == Err::<PayloadLayout, DequeuedBufferError>(
                DequeuedBufferError::UnsupportedStride {
                    expected: width as usize,
                    actual: stride as usize,
                },
            )
            &&& deep && stride != 2 * width || pairs && width % 2 == 0 && stride != 2 * width
                ==> layout == Err::<PayloadLayout, DequeuedBufferError>(
                DequeuedBufferError::UnsupportedStride {
                    expected: (2 * width) as usize,
                    actual: stride as usize,
                },
            )
            &&& pairs && width % 2 != 0 || planar && (width % 2 != 0 || height % 2 != 0)
                ==> layout == Err::<PayloadLayout, DequeuedBufferError>(
                DequeuedBufferError::InvalidGeometry { width, height },
            )
            &&& !grey && !deep && !pairs && !planar ==> layout == Err::<
                PayloadLayout,
                DequeuedBufferError,
            >(DequeuedBufferError::UnsupportedFormat(fourcc))
        }),
{
    let code = fourcc@;
    codes_differ(code);
    assert(seq![0x47u8, 0x52u8, 0x45u8, 0x59u8][0] == 0x47u8);
    assert(seq![0x59u8, 0x38u8, 0x20u8, 0x20u8][1] == 0x38u8);
    assert(seq![0x59u8, 0x38u8, 0x30u8, 0x30u8][1] == 0x38u8);
    assert(seq![0x59u8, 0x31u8, 0x36u8, 0x20u8][1] == 0x31u8);
    assert(seq![0x59u8, 0x31u8, 0x30u8, 0x20u8][1] == 0x31u8);
    assert(seq![0x59u8, 0x31u8, 0x32u8, 0x20u8][1] == 0x31u8);
    assert(seq![0x59u8, 0x31u8, 0x36u8, 0x20u8][0] == 0x59u8);
    assert(seq![0x59u8, 0x31u8, 0x30u8, 0x20u8][0] == 0x59u8);
    assert(seq![0x59u8, 0x31u8, 0x32u8, 0x20u8][0] == 0x59u8);
    assert(stride as int * height as int >= 0) by (nonlinear_arith);
}

/// An image without width or height has no layout, whatever its format.
pub proof fn an_empty_image_has_no_layout(fourcc: [u8; 4], width: u32, height: u32, stride: u32)
    requires
        width == 0 || height == 0,
    ensures
        PayloadLayout::negotiated(fourcc, width, height, stride) == Err::<
            PayloadLayout,
            DequeuedBufferError,
        >(DequeuedBufferError::InvalidGeometry { width, height }),
{
}

} // verus!
