use irlume_camera::contracts::{
    CameraGeneration, CameraInstanceId, CaptureWindow, IlluminationProvenance, StreamRole,
};
use irlume_camera::frame_provenance::dequeue::{
    FLAG_ERROR, FLAG_KEYFRAME, TIMESTAMP_COPY, TIMESTAMP_MONOTONIC, TSTAMP_SRC_EOF, TSTAMP_SRC_SOE,
};
use irlume_camera::frame_provenance::{
    AggregateFrameProvenance, BufferMetadata, ContributorSelection, DequeuedBufferError,
    DequeuedBufferFacts, FrameBinding, PayloadLayout, RuntimeFrameProvenance,
    RuntimeProvenanceError, SequenceTracker, SequenceTrackerError, SingleFrameProvenance,
    StableFormat, TimestampClock, TimestampSource, TimestampTracker, TimestampTrackerError,
    ValidatedFormatIdentity,
};

/// A tight GREY format as a driver reports it, with every other field at zero.
fn stable_format(width: u32, height: u32) -> StableFormat {
    StableFormat {
        fourcc: *b"GREY",
        width,
        height,
        stride: 0,
        size: 0,
        field_order: 0,
        colorspace: 0,
        quantization: 0,
        transfer: 0,
        flags: 0,
    }
}

#[test]
fn first_monotonic_timestamp_establishes_a_clean_epoch() {
    let mut tracker = TimestampTracker::new();
    let observation = tracker
        .observe(
            1_000_000,
            TimestampClock::Monotonic,
            TimestampSource::EndOfFrame,
        )
        .expect("first timestamp is valid");

    assert_eq!(observation.micros(), 1_000_000);
    assert_eq!(observation.delta_micros(), None);
    assert_eq!(observation.clock(), TimestampClock::Monotonic);
    assert_eq!(observation.source(), TimestampSource::EndOfFrame);
    assert!(!observation.discontinuity());
    assert_eq!(observation.stream_epoch(), 0);
}

#[test]
fn monotonic_timestamps_report_positive_deltas() {
    let mut tracker = TimestampTracker::new();
    tracker
        .observe(
            1_000_000,
            TimestampClock::Monotonic,
            TimestampSource::StartOfExposure,
        )
        .expect("baseline");
    let observation = tracker
        .observe(
            1_033_333,
            TimestampClock::Monotonic,
            TimestampSource::StartOfExposure,
        )
        .expect("increasing timestamp");

    assert_eq!(observation.delta_micros(), Some(33_333));
    assert!(!observation.discontinuity());
    assert_eq!(observation.stream_epoch(), 0);
}

#[test]
fn untrusted_timestamp_clocks_fail_the_current_epoch() {
    for clock in [TimestampClock::Unknown, TimestampClock::Copy] {
        let mut tracker = TimestampTracker::new();
        assert_eq!(
            tracker.observe(1, clock, TimestampSource::EndOfFrame),
            Err(TimestampTrackerError::UntrustedClock(clock))
        );
        assert_eq!(
            tracker.observe(2, TimestampClock::Monotonic, TimestampSource::EndOfFrame),
            Err(TimestampTrackerError::EpochFailed)
        );
    }
}

#[test]
fn invalid_timestamp_ordering_stays_failed_until_recovery() {
    let mut zero = TimestampTracker::new();
    assert_eq!(
        zero.observe(0, TimestampClock::Monotonic, TimestampSource::EndOfFrame),
        Err(TimestampTrackerError::ZeroTimestamp)
    );

    for current in [100, 99] {
        let mut tracker = TimestampTracker::new();
        tracker
            .observe(100, TimestampClock::Monotonic, TimestampSource::EndOfFrame)
            .expect("baseline");
        assert_eq!(
            tracker.observe(
                current,
                TimestampClock::Monotonic,
                TimestampSource::EndOfFrame
            ),
            Err(TimestampTrackerError::NonIncreasing {
                previous: 100,
                current
            })
        );
        assert_eq!(
            tracker.observe(101, TimestampClock::Monotonic, TimestampSource::EndOfFrame),
            Err(TimestampTrackerError::EpochFailed)
        );
    }
}

#[test]
fn timestamp_domain_changes_fail_the_current_epoch() {
    let mut source = TimestampTracker::new();
    source
        .observe(10, TimestampClock::Monotonic, TimestampSource::EndOfFrame)
        .expect("baseline");
    assert_eq!(
        source.observe(
            11,
            TimestampClock::Monotonic,
            TimestampSource::StartOfExposure
        ),
        Err(TimestampTrackerError::SourceChanged {
            expected: TimestampSource::EndOfFrame,
            actual: TimestampSource::StartOfExposure,
        })
    );

    let mut clock = TimestampTracker::new();
    clock
        .observe(10, TimestampClock::Monotonic, TimestampSource::EndOfFrame)
        .expect("baseline");
    assert_eq!(
        clock.observe(11, TimestampClock::Copy, TimestampSource::EndOfFrame),
        Err(TimestampTrackerError::ClockChanged {
            expected: TimestampClock::Monotonic,
            actual: TimestampClock::Copy,
        })
    );
}

#[test]
fn recovered_timestamp_epoch_marks_only_its_first_observation() {
    let mut tracker = TimestampTracker::new();
    tracker
        .observe(100, TimestampClock::Monotonic, TimestampSource::EndOfFrame)
        .expect("baseline");
    assert!(tracker
        .observe(99, TimestampClock::Monotonic, TimestampSource::EndOfFrame)
        .is_err());

    tracker.begin_new_epoch().expect("recovery epoch");
    let first = tracker
        .observe(
            1,
            TimestampClock::Monotonic,
            TimestampSource::StartOfExposure,
        )
        .expect("new baseline");
    assert!(first.discontinuity());
    assert_eq!(first.stream_epoch(), 1);
    assert_eq!(first.delta_micros(), None);

    let second = tracker
        .observe(
            2,
            TimestampClock::Monotonic,
            TimestampSource::StartOfExposure,
        )
        .expect("same epoch");
    assert!(!second.discontinuity());
}

#[test]
fn timestamp_epoch_overflow_permanently_poisons_tracker() {
    let mut tracker = TimestampTracker::new();
    tracker.stream_epoch = u64::MAX;

    assert_eq!(
        tracker.begin_new_epoch(),
        Err(TimestampTrackerError::StreamEpochOverflow)
    );
    assert_eq!(
        tracker.begin_new_epoch(),
        Err(TimestampTrackerError::TrackerFailed)
    );
    assert_eq!(
        tracker.observe(1, TimestampClock::Monotonic, TimestampSource::EndOfFrame),
        Err(TimestampTrackerError::TrackerFailed)
    );
}

#[test]
fn negative_timestamp_fails_the_current_epoch() {
    let mut tracker = TimestampTracker::new();
    assert_eq!(
        tracker.observe(-1, TimestampClock::Monotonic, TimestampSource::EndOfFrame),
        Err(TimestampTrackerError::NegativeTimestamp(-1))
    );
    assert_eq!(
        tracker.observe(1, TimestampClock::Monotonic, TimestampSource::EndOfFrame),
        Err(TimestampTrackerError::EpochFailed)
    );
}

#[test]
fn sequence_observation_reports_only_same_epoch_forward_advance() {
    let mut tracker = SequenceTracker::new();
    assert_eq!(tracker.observe(41).expect("baseline").advance(), None);
    assert_eq!(tracker.observe(45).expect("forward gap").advance(), Some(4));
    tracker.begin_new_epoch().expect("recovery epoch");
    assert_eq!(
        tracker
            .observe_discarded(u32::MAX)
            .expect("recovery baseline")
            .advance(),
        None
    );
    assert_eq!(
        tracker.observe(0).expect("wrapped advance").advance(),
        Some(1)
    );
}

#[test]
fn first_sequence_establishes_a_clean_baseline() {
    let mut tracker = SequenceTracker::new();

    let observation = tracker.observe(41).expect("first sequence is valid");

    assert_eq!(observation.raw(), 41);
    assert_eq!(observation.gap(), 0);
    assert_eq!(observation.cumulative_drops(), 0);
    assert!(!observation.discontinuity());
    assert_eq!(observation.stream_epoch(), 0);
}

#[test]
fn forward_sequences_count_only_missing_frames() {
    let mut tracker = SequenceTracker::new();
    tracker.observe(41).expect("baseline");

    let contiguous = tracker.observe(42).expect("contiguous sequence");
    assert_eq!(contiguous.gap(), 0);
    assert_eq!(contiguous.cumulative_drops(), 0);
    assert!(!contiguous.discontinuity());

    let gap = tracker.observe(45).expect("small forward gap");
    assert_eq!(gap.gap(), 2);
    assert_eq!(gap.cumulative_drops(), 2);
    assert!(!gap.discontinuity());
    assert_eq!(gap.stream_epoch(), 0);
}

#[test]
fn sequence_wrap_is_contiguous() {
    let mut tracker = SequenceTracker::new();
    tracker.observe(u32::MAX).expect("baseline");

    let wrapped = tracker.observe(0).expect("serial wrap");

    assert_eq!(wrapped.gap(), 0);
    assert_eq!(wrapped.cumulative_drops(), 0);
    assert!(!wrapped.discontinuity());
    assert_eq!(wrapped.stream_epoch(), 0);
}

#[test]
fn non_forward_sequences_start_bounded_discontinuous_epochs() {
    let mut tracker = SequenceTracker::new();
    tracker.observe(10).expect("baseline");

    let duplicate = tracker.observe(10).expect("duplicate is represented");
    assert_eq!(duplicate.gap(), 0);
    assert_eq!(duplicate.cumulative_drops(), 0);
    assert!(duplicate.discontinuity());
    assert_eq!(duplicate.stream_epoch(), 1);

    let backward = tracker.observe(9).expect("backward reset is represented");
    assert_eq!(backward.gap(), 0);
    assert_eq!(backward.cumulative_drops(), 0);
    assert!(backward.discontinuity());
    assert_eq!(backward.stream_epoch(), 2);

    let ambiguous = tracker
        .observe(9_u32.wrapping_add(1_u32 << 31))
        .expect("half-range delta is represented");
    assert_eq!(ambiguous.gap(), 0);
    assert_eq!(ambiguous.cumulative_drops(), 0);
    assert!(ambiguous.discontinuity());
    assert_eq!(ambiguous.stream_epoch(), 3);
}

#[test]
fn explicit_restart_is_sticky_until_the_next_observation() {
    let mut tracker = SequenceTracker::new();
    tracker.observe(100).expect("baseline");
    tracker.begin_new_epoch().expect("representable epoch");

    let restarted = tracker.observe(3).expect("first restarted frame");
    assert_eq!(restarted.gap(), 0);
    assert_eq!(restarted.cumulative_drops(), 0);
    assert!(restarted.discontinuity());
    assert_eq!(restarted.stream_epoch(), 1);

    let next = tracker.observe(4).expect("new epoch continues");
    assert!(!next.discontinuity());
    assert_eq!(next.stream_epoch(), 1);
}

#[test]
fn drop_counter_overflow_permanently_fails_the_tracker() {
    let mut tracker = SequenceTracker {
        previous: Some(10),
        cumulative_drops: u64::MAX,
        stream_epoch: 0,
        pending_discontinuity: false,
        failed: false,
    };

    assert_eq!(
        tracker.observe(12),
        Err(SequenceTrackerError::DropCounterOverflow)
    );
    assert_eq!(
        tracker.observe(13),
        Err(SequenceTrackerError::TrackerFailed)
    );
}

#[test]
fn stream_epoch_overflow_permanently_fails_the_tracker() {
    let mut tracker = SequenceTracker {
        previous: Some(10),
        cumulative_drops: 0,
        stream_epoch: u64::MAX,
        pending_discontinuity: false,
        failed: false,
    };

    assert_eq!(
        tracker.observe(10),
        Err(SequenceTrackerError::StreamEpochOverflow)
    );
    assert_eq!(
        tracker.observe(11),
        Err(SequenceTrackerError::TrackerFailed)
    );
}

#[test]
fn largest_defined_forward_delta_is_counted_not_ambiguous() {
    let mut tracker = SequenceTracker::new();
    tracker.observe(0).expect("baseline");

    let observation = tracker
        .observe(0x7fff_ffff)
        .expect("largest RFC-1982 forward delta");

    assert_eq!(observation.gap(), 0x7fff_fffe);
    assert_eq!(observation.cumulative_drops(), u64::from(0x7fff_fffe_u32));
    assert!(!observation.discontinuity());
}

#[test]
fn wrapped_forward_gap_counts_only_missing_frames() {
    let mut tracker = SequenceTracker::new();
    tracker.observe(u32::MAX - 1).expect("baseline");

    let observation = tracker.observe(1).expect("wrapped forward gap");

    assert_eq!(observation.gap(), 2);
    assert_eq!(observation.cumulative_drops(), 2);
    assert!(!observation.discontinuity());
}

#[test]
fn explicit_epoch_overflow_permanently_fails_the_tracker() {
    let mut tracker = SequenceTracker {
        previous: Some(10),
        cumulative_drops: 0,
        stream_epoch: u64::MAX,
        pending_discontinuity: false,
        failed: false,
    };

    assert_eq!(
        tracker.begin_new_epoch(),
        Err(SequenceTrackerError::StreamEpochOverflow)
    );
    assert_eq!(
        tracker.begin_new_epoch(),
        Err(SequenceTrackerError::TrackerFailed)
    );
}

#[test]
fn dequeue_rejects_bytes_used_beyond_the_mapping() {
    let metadata = BufferMetadata {
        bytesused: 8,
        ..BufferMetadata::default()
    };

    assert_eq!(
        DequeuedBufferFacts::from_v4l(&metadata, 7),
        Err(DequeuedBufferError::PayloadExceedsMapping {
            bytes_used: 8,
            mapped_len: 7,
        })
    );
}

#[test]
fn dequeue_retains_driver_error_status_with_valid_continuity_facts() {
    let metadata = BufferMetadata {
        bytesused: 4,
        flags: FLAG_ERROR | TIMESTAMP_MONOTONIC,
        sequence: 7,
        timestamp_sec: 3,
        timestamp_usec: 4,
        ..Default::default()
    };

    let facts = DequeuedBufferFacts::from_v4l(&metadata, 4)
        .expect("corruption does not erase valid continuity metadata");
    assert!(facts.driver_reported_corruption());
    assert_eq!(facts.sequence_raw(), 7);
    assert_eq!(facts.timestamp_micros(), 3_000_004);
}

#[test]
fn dequeue_rejects_out_of_range_timestamp_microseconds() {
    let metadata = BufferMetadata {
        timestamp_sec: 7,
        timestamp_usec: 1_000_000,
        ..BufferMetadata::default()
    };

    assert_eq!(
        DequeuedBufferFacts::from_v4l(&metadata, 0),
        Err(DequeuedBufferError::InvalidTimestamp {
            seconds: 7,
            microseconds: 1_000_000,
        })
    );
}

#[test]
fn dequeue_rejects_negative_timestamp_seconds() {
    let metadata = BufferMetadata {
        timestamp_sec: -1,
        timestamp_usec: 0,
        ..BufferMetadata::default()
    };

    assert_eq!(
        DequeuedBufferFacts::from_v4l(&metadata, 0),
        Err(DequeuedBufferError::InvalidTimestamp {
            seconds: -1,
            microseconds: 0,
        })
    );
}

#[test]
fn dequeue_rejects_timestamp_that_cannot_form_a_microsecond_key() {
    let metadata = BufferMetadata {
        timestamp_sec: i64::MAX,
        timestamp_usec: 0,
        ..BufferMetadata::default()
    };

    assert_eq!(
        DequeuedBufferFacts::from_v4l(&metadata, 0),
        Err(DequeuedBufferError::InvalidTimestamp {
            seconds: i64::MAX,
            microseconds: 0,
        })
    );
}

#[test]
fn dequeue_normalizes_monotonic_start_of_exposure_metadata() {
    let flags = TIMESTAMP_MONOTONIC
        | TSTAMP_SRC_SOE
        | FLAG_KEYFRAME;
    let metadata = BufferMetadata {
        bytesused: 3,
        flags,
        timestamp_sec: 7,
        timestamp_usec: 11,
        sequence: 42,
        ..BufferMetadata::default()
    };

    let facts = DequeuedBufferFacts::from_v4l(&metadata, 4).expect("valid metadata");
    assert_eq!(facts.bytes_used(), 3);
    assert_eq!(facts.sequence_raw(), 42);
    assert_eq!(facts.timestamp_seconds(), 7);
    assert_eq!(facts.timestamp_microseconds(), 11);
    assert_eq!(facts.timestamp_clock(), TimestampClock::Monotonic);
    assert_eq!(facts.timestamp_source(), TimestampSource::StartOfExposure);
    assert_eq!(facts.known_flags(), flags);
}

#[test]
fn dequeue_normalizes_monotonic_end_of_frame_metadata() {
    let metadata = BufferMetadata {
        flags: TIMESTAMP_MONOTONIC | TSTAMP_SRC_EOF,
        timestamp_sec: 1,
        timestamp_usec: 2,
        ..BufferMetadata::default()
    };

    let facts = DequeuedBufferFacts::from_v4l(&metadata, 0).expect("valid metadata");
    assert_eq!(facts.timestamp_clock(), TimestampClock::Monotonic);
    assert_eq!(facts.timestamp_source(), TimestampSource::EndOfFrame);
}

#[test]
fn grey_layout_rejects_short_payload() {
    let layout = PayloadLayout::new(*b"GREY", 4, 3, 4).expect("tight GREY layout");
    let metadata = BufferMetadata {
        bytesused: 11,
        ..BufferMetadata::default()
    };
    let facts = DequeuedBufferFacts::from_v4l(&metadata, 12).expect("bounded metadata");

    assert_eq!(
        layout.validate(&facts),
        Err(DequeuedBufferError::PayloadTooShort {
            bytes_used: 11,
            minimum: 12,
        })
    );
}

#[test]
fn every_decoded_format_rejects_a_short_payload() {
    let cases = [
        (*b"GREY", 4, 16),
        (*b"Y8  ", 4, 16),
        (*b"Y800", 4, 16),
        (*b"Y16 ", 8, 32),
        (*b"Y10 ", 8, 32),
        (*b"Y12 ", 8, 32),
        (*b"YUYV", 8, 32),
        (*b"NV12", 4, 24),
    ];

    for (fourcc, stride, minimum) in cases {
        let layout = PayloadLayout::new(fourcc, 4, 4, stride).expect("supported layout");
        let metadata = BufferMetadata {
            bytesused: minimum - 1,
            ..BufferMetadata::default()
        };
        let facts = DequeuedBufferFacts::from_v4l(&metadata, minimum as usize)
            .expect("bounded metadata");
        assert_eq!(
            layout.validate(&facts),
            Err(DequeuedBufferError::PayloadTooShort {
                bytes_used: minimum as usize - 1,
                minimum: minimum as usize,
            }),
            "{}",
            String::from_utf8_lossy(&fourcc)
        );
    }
}

#[test]
fn payload_geometry_overflow_is_rejected() {
    let dimension = u32::MAX - 1;
    assert_eq!(
        PayloadLayout::new(*b"NV12", dimension, dimension, dimension),
        Err(DequeuedBufferError::PayloadSizeOverflow)
    );
}

#[test]
fn padded_stride_is_rejected_until_decoders_support_rows() {
    assert_eq!(
        PayloadLayout::new(*b"GREY", 4, 3, 8),
        Err(DequeuedBufferError::UnsupportedStride {
            expected: 4,
            actual: 8,
        })
    );
}

#[test]
fn yuyv_requires_complete_two_pixel_macropixels() {
    assert_eq!(
        PayloadLayout::new(*b"YUYV", 3, 2, 6),
        Err(DequeuedBufferError::InvalidGeometry {
            width: 3,
            height: 2,
        })
    );
}

#[test]
fn single_runtime_provenance_echoes_complete_evidence() {

    let binding = FrameBinding::new(
        CameraInstanceId::new("11111111111111111111111111111111").expect("test identity"),
        CameraGeneration::initial(),
        StreamRole::Ir,
    );
    let format = stable_format(4, 3);
    let format = ValidatedFormatIdentity::from_stable_format(&format);
    let metadata = BufferMetadata {
        bytesused: 12,
        flags: TIMESTAMP_MONOTONIC
            | TSTAMP_SRC_SOE
            | FLAG_KEYFRAME,
        sequence: 7,
        timestamp_sec: 3,
        timestamp_usec: 4,
        ..Default::default()
    };
    let facts = DequeuedBufferFacts::from_v4l(&metadata, 12).expect("valid facts");
    let sequence = SequenceTracker::new()
        .observe(7)
        .expect("valid sequence");
    let timestamp = TimestampTracker::new()
        .observe(
            3_000_004,
            TimestampClock::Monotonic,
            TimestampSource::StartOfExposure,
        )
        .expect("valid timestamp");
    let at = 5_000_000_u64;

    let provenance = SingleFrameProvenance::begin(
        binding.clone(),
        format.clone(),
        facts.clone(),
        sequence,
        timestamp,
        CaptureWindow::at(at),
    )
    .expect("coherent evidence")
    .finalize_illumination(IlluminationProvenance::ActiveIr)
    .expect("IR may carry authoritative active illumination");

    assert_eq!(provenance.binding(), &binding);
    assert_eq!(provenance.format(), &format);
    assert_eq!(provenance.facts(), &facts);
    assert_eq!(provenance.sequence(), &sequence);
    assert_eq!(provenance.timestamp(), &timestamp);
    assert_eq!(provenance.capture_window(), CaptureWindow::at(at));
    assert_eq!(provenance.illumination(), IlluminationProvenance::ActiveIr);
}

fn runtime_series(
    raws: &[u32],
    micros: &[i64],
    illumination: &[IlluminationProvenance],
) -> Vec<SingleFrameProvenance> {

    let binding = FrameBinding::new(
        CameraInstanceId::new("33333333333333333333333333333333").expect("test identity"),
        CameraGeneration::initial(),
        StreamRole::Ir,
    );
    let mut stable = stable_format(8, 6);
    stable.stride = 8;
    stable.size = 48;
    stable.field_order = 1;
    stable.colorspace = 8;
    stable.flags = 1;
    stable.quantization = 1;
    stable.transfer = 2;
    let format = ValidatedFormatIdentity::from_stable_format(&stable);
    let mut sequence_tracker = SequenceTracker::new();
    let mut timestamp_tracker = TimestampTracker::new();
    let base = 5_000_000_u64;

    raws.iter()
        .zip(micros)
        .zip(illumination)
        .map(|((&raw, &micros), &illumination)| {
            let metadata = BufferMetadata {
                bytesused: 48,
                sequence: raw,
                timestamp_sec: 0,
        timestamp_usec: micros,
                flags: TIMESTAMP_MONOTONIC,
                ..Default::default()
            };
            let facts =
                DequeuedBufferFacts::from_v4l(&metadata, 48).expect("valid test facts");
            let sequence = sequence_tracker.observe(raw).expect("valid test sequence");
            let timestamp = timestamp_tracker
                .observe(
                    micros,
                    TimestampClock::Monotonic,
                    TimestampSource::EndOfFrame,
                )
                .expect("valid test timestamp");
            let at = base + micros.unsigned_abs();
            SingleFrameProvenance::begin(
                binding.clone(),
                format.clone(),
                facts,
                sequence,
                timestamp,
                CaptureWindow::at(at),
            )
            .expect("coherent test evidence")
            .finalize_illumination(illumination)
            .expect("coherent test illumination")
        })
        .collect()
}

#[test]
fn validated_format_identity_retains_every_discriminant() {
    let mut format = stable_format(640, 400);
    format.stride = 672;
    format.size = 268_800;
    format.field_order = 4;
    format.colorspace = 3;
    format.flags = 1;
    format.quantization = 2;
    format.transfer = 1;
    let identity = ValidatedFormatIdentity::from_stable_format(&format);
    assert_eq!(identity.width(), 640);
    assert_eq!(identity.height(), 400);
    assert_eq!(identity.fourcc(), *b"GREY");
    assert_eq!(identity.stride(), 672);
    assert_eq!(identity.image_size(), 268_800);
    assert_eq!(identity.field_order(), format.field_order);
    assert_eq!(identity.colorspace(), format.colorspace);
    assert_eq!(identity.flags(), format.flags);
    assert_eq!(identity.quantization(), format.quantization);
    assert_eq!(identity.transfer(), format.transfer);
}

#[test]
fn single_rejects_raw_metadata_and_observation_disagreement() {
    let mut single = runtime_series(&[9], &[1_000], &[IlluminationProvenance::Unknown])
        .pop()
        .expect("one single");
    single.facts.sequence_raw = 10;
    assert_eq!(
        SingleFrameProvenance::begin(
            single.binding,
            single.format,
            single.facts,
            single.sequence,
            single.timestamp,
            single.capture_window,
        ),
        Err(RuntimeProvenanceError::FactsSequenceMismatch)
    );
}

#[test]
fn single_rejects_timestamp_facts_and_observation_disagreement() {
    let mut single = runtime_series(&[9], &[1_000], &[IlluminationProvenance::Unknown])
        .pop()
        .expect("one single");
    single.facts.timestamp_micros += 1;
    assert_eq!(
        SingleFrameProvenance::begin(
            single.binding,
            single.format,
            single.facts,
            single.sequence,
            single.timestamp,
            single.capture_window,
        ),
        Err(RuntimeProvenanceError::FactsTimestampMismatch)
    );
}

#[test]
fn single_rejects_corrupt_buffers_and_non_point_capture_windows() {
    let mut corrupt = runtime_series(&[9], &[1_000], &[IlluminationProvenance::Unknown])
        .pop()
        .expect("one single");
    corrupt.facts.known_flags |= FLAG_ERROR;
    assert_eq!(
        SingleFrameProvenance::begin(
            corrupt.binding.clone(),
            corrupt.format.clone(),
            corrupt.facts.clone(),
            corrupt.sequence,
            corrupt.timestamp,
            corrupt.capture_window,
        ),
        Err(RuntimeProvenanceError::DriverReportedCorruption)
    );
    corrupt.facts.known_flags &= !FLAG_ERROR;
    let end = corrupt.capture_window.end + 1_000;
    assert_eq!(
        SingleFrameProvenance::begin(
            corrupt.binding,
            corrupt.format,
            corrupt.facts,
            corrupt.sequence,
            corrupt.timestamp,
            CaptureWindow {
                start: corrupt.capture_window.start,
                end,
            },
        ),
        Err(RuntimeProvenanceError::SingleWindowMustBePoint)
    );
}

#[test]
fn illumination_finalization_rejects_active_ir_on_rgb() {
    let mut single = runtime_series(&[1], &[1], &[IlluminationProvenance::Unknown])
        .pop()
        .expect("one single");
    single.binding.stream_role = StreamRole::Rgb;
    let pending = SingleFrameProvenance::begin(
        single.binding,
        single.format,
        single.facts,
        single.sequence,
        single.timestamp,
        single.capture_window,
    )
    .expect("otherwise coherent");
    assert_eq!(
        pending.finalize_illumination(IlluminationProvenance::ActiveIr),
        Err(RuntimeProvenanceError::ActiveIrRequiresIrStream)
    );
}

#[test]
fn aggregate_accumulates_drop_span_gap_delta_and_union() {
    let contributors = runtime_series(
        &[10, 13, 17],
        &[100, 200, 500],
        &[
            IlluminationProvenance::Unknown,
            IlluminationProvenance::Ambient,
            IlluminationProvenance::ActiveIr,
        ],
    );
    let expected_start = contributors[0].capture_window().start;
    let expected_end = contributors[2].capture_window().end;
    let aggregate = AggregateFrameProvenance::new(
        contributors,
        ContributorSelection::Selected { index: 2 },
    )
    .expect("coherent aggregate");
    assert_eq!(aggregate.drops_within(), 5);
    assert_eq!(aggregate.timestamp_span_micros(), 400);
    assert_eq!(aggregate.worst_gap(), 3);
    assert_eq!(aggregate.worst_delta_micros(), Some(300));
    assert_eq!(aggregate.capture_window().start, expected_start);
    assert_eq!(aggregate.capture_window().end, expected_end);
    assert_eq!(aggregate.illumination(), IlluminationProvenance::ActiveIr);
}

#[test]
fn aggregate_accepts_checked_u32_wrap_continuity() {
    let aggregate = AggregateFrameProvenance::new(
        runtime_series(
            &[u32::MAX - 1, u32::MAX, 0],
            &[100, 200, 300],
            &[IlluminationProvenance::Unknown; 3],
        ),
        ContributorSelection::ReducedOverAll,
    )
    .expect("wrap is consecutive");
    assert_eq!(aggregate.drops_within(), 0);
    assert_eq!(aggregate.worst_gap(), 0);
}

#[test]
fn aggregate_enforces_contributor_bounds_and_selection_indices() {
    let one = runtime_series(&[1], &[1], &[IlluminationProvenance::Unknown]);
    assert_eq!(
        AggregateFrameProvenance::new(one, ContributorSelection::ReducedOverAll),
        Err(RuntimeProvenanceError::TooFewContributors)
    );
    let too_many = runtime_series(
        &(1..=65).collect::<Vec<_>>(),
        &(1..=65).map(i64::from).collect::<Vec<_>>(),
        &[IlluminationProvenance::Unknown; 65],
    );
    assert_eq!(
        AggregateFrameProvenance::new(
            too_many,
            ContributorSelection::ReducedOverAll
        ),
        Err(RuntimeProvenanceError::TooManyContributors)
    );
    let two = runtime_series(&[1, 2], &[1, 2], &[IlluminationProvenance::Unknown; 2]);
    assert_eq!(
        AggregateFrameProvenance::new(
            two,
            ContributorSelection::Selected { index: 2 }
        ),
        Err(RuntimeProvenanceError::InvalidSelection)
    );
}

#[test]
fn aggregate_rejects_mixed_binding_role_format_and_timestamp_domain() {
    let base = runtime_series(&[1, 2], &[100, 200], &[IlluminationProvenance::Unknown; 2]);
    let mut mixed = base.clone();
    mixed[1].binding.generation =
        CameraGeneration::new(2).expect("generation");
    assert_eq!(
        AggregateFrameProvenance::new(
            mixed,
            ContributorSelection::ReducedOverAll
        ),
        Err(RuntimeProvenanceError::MixedBinding)
    );
    let mut mixed = base.clone();
    mixed[1].binding.stream_role = StreamRole::Rgb;
    assert_eq!(
        AggregateFrameProvenance::new(
            mixed,
            ContributorSelection::ReducedOverAll
        ),
        Err(RuntimeProvenanceError::MixedRole)
    );
    let mut mixed = base.clone();
    mixed[1].format.flags ^= 1;
    assert_eq!(
        AggregateFrameProvenance::new(
            mixed,
            ContributorSelection::ReducedOverAll
        ),
        Err(RuntimeProvenanceError::MixedFormat)
    );
    let mut mixed = base;
    mixed[1].timestamp.source = TimestampSource::StartOfExposure;
    assert_eq!(
        AggregateFrameProvenance::new(
            mixed,
            ContributorSelection::ReducedOverAll
        ),
        Err(RuntimeProvenanceError::MixedTimestampDomain)
    );
}

#[test]
fn aggregate_rejects_discontinuity_nonconsecutive_and_counter_underflow() {
    let base = runtime_series(&[5, 6], &[100, 200], &[IlluminationProvenance::Unknown; 2]);
    let mut broken = base.clone();
    broken[1].sequence.discontinuity = true;
    broken[1].timestamp.discontinuity = true;
    assert_eq!(
        AggregateFrameProvenance::new(
            broken,
            ContributorSelection::ReducedOverAll
        ),
        Err(RuntimeProvenanceError::ContributorDiscontinuity)
    );
    let mut broken = base.clone();
    broken[1].facts.known_flags |= FLAG_ERROR;
    assert_eq!(
        AggregateFrameProvenance::new(
            broken,
            ContributorSelection::ReducedOverAll
        ),
        Err(RuntimeProvenanceError::ContributorDiscontinuity)
    );
    let mut broken = base.clone();
    broken[1].sequence.advance = Some(2);
    assert_eq!(
        AggregateFrameProvenance::new(
            broken,
            ContributorSelection::ReducedOverAll
        ),
        Err(RuntimeProvenanceError::NonConsecutiveSequence)
    );
    let mut broken = base;
    broken[1].sequence.cumulative_drops = 0;
    broken[0].sequence.cumulative_drops = 1;
    assert_eq!(
        AggregateFrameProvenance::new(
            broken,
            ContributorSelection::ReducedOverAll
        ),
        Err(RuntimeProvenanceError::CounterUnderflow)
    );
}

#[test]
fn aggregate_rejects_mixed_continuity_epoch() {
    let mut broken =
        runtime_series(&[5, 6], &[100, 200], &[IlluminationProvenance::Unknown; 2]);
    broken[1].sequence.stream_epoch = 1;
    broken[1].timestamp.stream_epoch = 1;
    assert_eq!(
        AggregateFrameProvenance::new(
            broken,
            ContributorSelection::ReducedOverAll
        ),
        Err(RuntimeProvenanceError::MixedContinuityEpoch)
    );
}

#[test]
fn aggregate_rejects_non_increasing_or_inconsistent_timestamps() {
    let base = runtime_series(&[1, 2], &[100, 200], &[IlluminationProvenance::Unknown; 2]);
    let mut broken = base.clone();
    broken[1].timestamp.micros = 100;
    assert_eq!(
        AggregateFrameProvenance::new(
            broken,
            ContributorSelection::ReducedOverAll
        ),
        Err(RuntimeProvenanceError::NonIncreasingTimestamp)
    );
    let mut broken = base;
    broken[1].timestamp.delta_micros = Some(99);
    assert_eq!(
        AggregateFrameProvenance::new(
            broken,
            ContributorSelection::ReducedOverAll
        ),
        Err(RuntimeProvenanceError::TimestampDeltaMismatch)
    );
}

#[test]
fn aggregate_subtraction_requires_distinct_lit_and_ambient_evidence() {
    let contributors = runtime_series(
        &[1, 2],
        &[100, 200],
        &[
            IlluminationProvenance::ActiveIr,
            IlluminationProvenance::Ambient,
        ],
    );
    let aggregate = AggregateFrameProvenance::new(
        contributors.clone(),
        ContributorSelection::Subtracted {
            lit_index: 0,
            ambient_index: 1,
        },
    )
    .expect("valid subtraction");
    assert_eq!(aggregate.illumination(), IlluminationProvenance::ActiveIr);
    assert_eq!(
        AggregateFrameProvenance::new(
            contributors,
            ContributorSelection::Subtracted {
                lit_index: 0,
                ambient_index: 0,
            },
        ),
        Err(RuntimeProvenanceError::EqualSubtractionIndices)
    );
}

// --- laws on concrete values ---------------------------------------------------------------

#[test]
fn a_poisoned_timestamp_tracker_never_recovers() {
    let mut tracker = TimestampTracker::new();
    tracker.force_stream_epoch_overflow_on_recovery();
    assert!(tracker.begin_new_epoch().is_err());
    assert!(tracker.failed_for_test());
    for micros in [1, 2, 3] {
        assert_eq!(
            tracker.observe(micros, TimestampClock::Monotonic, TimestampSource::EndOfFrame),
            Err(TimestampTrackerError::TrackerFailed)
        );
        assert_eq!(
            tracker.begin_new_epoch(),
            Err(TimestampTrackerError::TrackerFailed)
        );
    }
}

#[test]
fn accepted_timestamps_of_an_epoch_increase() {
    let mut tracker = TimestampTracker::new();
    let mut last = 0;
    for micros in [5, 9, 9, 12, 40] {
        if let Ok(seen) =
            tracker.observe(micros, TimestampClock::Monotonic, TimestampSource::EndOfFrame)
        {
            assert!(seen.micros() > last);
            last = seen.micros();
        }
    }
    // The repeated 9 failed the epoch, so nothing after it is accepted.
    assert_eq!(last, 9);
    assert!(tracker.epoch_failed_for_test());
}

#[test]
fn a_discarded_first_timestamp_keeps_the_mark_for_the_first_delivered_one() {
    let mut tracker = TimestampTracker::new();
    tracker.begin_new_epoch().expect("recovery epoch");
    let discarded = tracker
        .observe_discarded(10, TimestampClock::Monotonic, TimestampSource::EndOfFrame)
        .expect("discarded");
    assert_eq!(discarded.micros(), 10);
    let delivered = tracker
        .observe(20, TimestampClock::Monotonic, TimestampSource::EndOfFrame)
        .expect("delivered");
    assert!(delivered.discontinuity());
    let next = tracker
        .observe(30, TimestampClock::Monotonic, TimestampSource::EndOfFrame)
        .expect("delivered");
    assert!(!next.discontinuity());
}

#[test]
fn the_drop_counter_is_the_sum_of_the_reported_gaps() {
    let mut tracker = SequenceTracker::new();
    let mut sum = 0_u64;
    for raw in [3, 4, 9, 9, 11, 2, 6] {
        let seen = tracker.observe(raw).expect("representable");
        sum += u64::from(seen.gap());
        assert_eq!(seen.cumulative_drops(), sum);
    }
    assert_eq!(sum, 4 + 1 + 3);
}

#[test]
fn a_failed_sequence_tracker_stays_failed() {
    let mut tracker = SequenceTracker::new();
    tracker.observe(1).expect("baseline");
    tracker.force_drop_overflow_on_next_gap();
    assert_eq!(
        tracker.observe(3),
        Err(SequenceTrackerError::DropCounterOverflow)
    );
    assert!(tracker.failed_for_test());
    assert_eq!(tracker.observe(4), Err(SequenceTrackerError::TrackerFailed));
    assert_eq!(
        tracker.begin_new_epoch(),
        Err(SequenceTrackerError::TrackerFailed)
    );
}

#[test]
fn an_accepted_payload_holds_the_whole_image() {
    let layout = PayloadLayout::new(*b"NV12", 4, 4, 4).expect("supported");
    for bytes_used in 0..30_u32 {
        let metadata = BufferMetadata {
            bytesused: bytes_used,
            ..BufferMetadata::default()
        };
        let facts = DequeuedBufferFacts::from_v4l(&metadata, 64).expect("bounded");
        assert_eq!(layout.validate(&facts).is_ok(), bytes_used >= 24);
    }
}

#[test]
fn unknown_pixel_formats_and_empty_geometry_are_refused() {
    assert!(matches!(
        PayloadLayout::new(*b"ABCD", 4, 4, 4),
        Err(DequeuedBufferError::UnsupportedFormat(_))
    ));
    assert_eq!(
        PayloadLayout::new(*b"GREY", 0, 4, 0),
        Err(DequeuedBufferError::InvalidGeometry {
            width: 0,
            height: 4
        })
    );
}

#[test]
fn a_copied_timestamp_clock_is_told_apart() {
    let metadata = BufferMetadata {
        flags: TIMESTAMP_COPY,
        ..BufferMetadata::default()
    };
    let facts = DequeuedBufferFacts::from_v4l(&metadata, 0).expect("valid");
    assert_eq!(facts.timestamp_clock(), TimestampClock::Copy);
    let facts = DequeuedBufferFacts::from_v4l(&BufferMetadata::default(), 0).expect("valid");
    assert_eq!(facts.timestamp_clock(), TimestampClock::Unknown);
}

#[test]
fn active_light_needs_a_lit_contributor() {
    let dark = runtime_series(
        &[1, 2],
        &[100, 200],
        &[IlluminationProvenance::Ambient, IlluminationProvenance::Unknown],
    );
    let aggregate =
        AggregateFrameProvenance::new(dark, ContributorSelection::ReducedOverAll).expect("coherent");
    assert_ne!(aggregate.illumination(), IlluminationProvenance::ActiveIr);
}

#[test]
fn runtime_provenance_answers_for_what_it_holds() {
    let mut series = runtime_series(
        &[1, 2],
        &[100, 200],
        &[IlluminationProvenance::ActiveIr, IlluminationProvenance::ActiveIr],
    );
    let aggregate = AggregateFrameProvenance::new(
        series.clone(),
        ContributorSelection::Selected { index: 1 },
    )
    .expect("coherent");
    let span = aggregate.capture_window();
    let held = RuntimeFrameProvenance::Aggregate(aggregate);
    assert_eq!(held.capture_window(), span);
    assert_eq!(held.stream_role(), StreamRole::Ir);
    assert_eq!(held.illumination(), IlluminationProvenance::ActiveIr);
    let single = series.pop().expect("two contributors");
    let window = single.capture_window();
    let format = single.format().clone();
    let held = RuntimeFrameProvenance::Single(single);
    assert_eq!(held.capture_window(), window);
    assert_eq!(held.format(), &format);
}

#[test]
fn whatever_is_actively_lit_comes_from_an_infrared_stream() {
    for (illuminations, selection) in [
        (
            [IlluminationProvenance::Ambient, IlluminationProvenance::ActiveIr],
            ContributorSelection::Selected { index: 1 },
        ),
        (
            [IlluminationProvenance::ActiveIr, IlluminationProvenance::ActiveIr],
            ContributorSelection::ReducedOverAll,
        ),
        (
            [IlluminationProvenance::ActiveIr, IlluminationProvenance::Ambient],
            ContributorSelection::Subtracted {
                lit_index: 0,
                ambient_index: 1,
            },
        ),
    ] {
        let series = runtime_series(&[1, 2], &[100, 200], &illuminations);
        let aggregate = AggregateFrameProvenance::new(series, selection).expect("coherent");
        for contributor in aggregate.contributors() {
            assert_eq!(contributor.binding().stream_role(), StreamRole::Ir);
        }
        let held = RuntimeFrameProvenance::Aggregate(aggregate);
        assert_eq!(held.illumination(), IlluminationProvenance::ActiveIr);
        assert_eq!(held.stream_role(), StreamRole::Ir);
    }
    let single = runtime_series(&[1], &[100], &[IlluminationProvenance::ActiveIr]).remove(0);
    let held = RuntimeFrameProvenance::Single(single);
    assert_eq!(held.illumination(), IlluminationProvenance::ActiveIr);
    assert_eq!(held.stream_role(), StreamRole::Ir);
}

#[test]
fn every_refusal_of_provenance_has_a_sentence() {
    assert_eq!(
        RuntimeProvenanceError::MixedRole.message(),
        "aggregate contributors have mixed stream roles"
    );
    assert_eq!(
        DequeuedBufferError::PayloadTooShort {
            bytes_used: 11,
            minimum: 12
        }
        .message(),
        "dequeued payload uses 11 bytes but format requires at least 12"
    );
    assert_ne!(
        TimestampTrackerError::EpochFailed.message(),
        TimestampTrackerError::TrackerFailed.message()
    );
    assert_ne!(
        SequenceTrackerError::TrackerFailed.message(),
        SequenceTrackerError::DropCounterOverflow.message()
    );
}

#[test]
fn an_unsupported_format_is_shown_as_quoted_text() {
    assert_eq!(
        DequeuedBufferError::UnsupportedFormat(*b"MJPG").message(),
        "unsupported dequeued pixel format \"MJPG\""
    );
    assert_eq!(
        DequeuedBufferError::UnsupportedFormat([0xff, b'A', b'"', b'B']).message(),
        "unsupported dequeued pixel format \"\u{fffd}A\\\"B\""
    );
    assert_eq!(
        DequeuedBufferError::UnsupportedFormat(*b"MJPG").message_with("[77, 74, 80, 71]"),
        "unsupported dequeued pixel format [77, 74, 80, 71]"
    );
    assert_eq!(
        DequeuedBufferError::PayloadTooShort {
            bytes_used: 7,
            minimum: 8
        }
        .message(),
        "dequeued payload uses 7 bytes but format requires at least 8"
    );
}
