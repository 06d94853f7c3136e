use irlume_camera::ir_dark::{DARK_MEAN_MAX, SATURATED_MIN_MEAN};
use irlume_camera::ir_metadata::burst;
use irlume_camera::ir_metadata::burst::{count_lit, CLIPPED_FRAC_MAX};
use irlume_camera::ir_metadata::ioctl::{
    vidioc_dqbuf, vidioc_g_fmt, vidioc_qbuf, vidioc_querybuf, vidioc_reqbufs, vidioc_s_fmt,
    vidioc_streamoff, vidioc_streamon,
};
use irlume_camera::ir_metadata::log::{
    DequeuedMetadata, DeviceReply, DrainRequest, IlluminationLog, MetadataFormat, StartRequest,
    Teardown, TeardownRequest, MAX_META_BUFFER_SIZE, META_BUFFERS,
};
use irlume_camera::ir_metadata::node::{
    metadata_node_for, node_number, open_selected_with, pick_metadata_sibling, presence_from_discovered, siblings,
    ClassEntry, IlluminationMetadataPresence, MetadataSelection,
};
use irlume_camera::ir_metadata::parse::{
    illumination_in_dequeued_buffer, parse_illumination, Illumination,
    METADATA_ID_FRAME_ILLUMINATION, UVCH, UVCM,
};
use irlume_camera::reading::Reading;

fn readings(values: &[f64]) -> Vec<Reading> {
    values
        .iter()
        .map(|value| Reading::from_bits(value.to_bits()))
        .collect()
}

fn brightest_lit(means: &[f64], flags: &[Option<Illumination>]) -> Option<usize> {
    burst::brightest_lit(&readings(means), flags)
}

fn best_gate_frame(
    means: &[f64],
    flags: &[Option<Illumination>],
    clipped: Option<&[f64]>,
) -> Option<usize> {
    let clipped = clipped.map(readings);
    burst::best_gate_frame(&readings(means), flags, clipped.as_deref())
}

fn burst_plateau_reached(
    means: &[f64],
    flags: &[Option<Illumination>],
    clipped: Option<&[f64]>,
) -> bool {
    let clipped = clipped.map(readings);
    burst::burst_plateau_reached(&readings(means), flags, clipped.as_deref())
}

fn ambient_partner(lit: usize, means: &[f64], flags: &[Option<Illumination>]) -> Option<usize> {
    burst::ambient_partner(lit, &readings(means), flags)
}

/// The nodes beside a device, out of a list of (node name, interface it belongs to); an interface
/// of `None` means that the node has no `device` link, like a v4l2loopback dummy.
fn siblings_on_same_interface(device: &str, nodes: &[(&str, Option<&str>)]) -> Vec<String> {
    let name = device.rsplit('/').next().unwrap_or_default();
    let Some(interface) = nodes
        .iter()
        .find(|(node, _)| *node == name)
        .and_then(|(_, interface)| *interface)
    else {
        return Vec::new();
    };
    let entries = nodes
        .iter()
        .map(|(node, interface)| ClassEntry {
            name: node.to_string(),
            interface: interface.map(str::to_string),
        })
        .collect();
    siblings(name, interface, &entries)
}

#[test]
fn exact_metadata_selection_calls_only_the_permitted_open() {
    let events = std::cell::RefCell::new(Vec::new());
    let selected = open_selected_with(
        "/dev/video2",
        MetadataSelection::Exact("/dev/video3"),
        false,
        |_| {
            events.borrow_mut().push("discover".to_string());
            Some("/dev/video1".into())
        },
        |image, metadata| {
            events.borrow_mut().push(format!("open:{image}:{metadata}"));
            Ok(())
        },
    )
    .unwrap();
    assert_eq!(selected, Some(()));
    assert_eq!(events.into_inner(), ["open:/dev/video2:/dev/video3"]);
}

#[test]
fn a_discovered_node_maps_to_present_and_no_node_to_absent() {
    assert_eq!(
        presence_from_discovered(Some("/dev/video3".into())),
        IlluminationMetadataPresence::Present
    );
    assert_eq!(
        presence_from_discovered(None),
        IlluminationMetadataPresence::Absent
    );
}

#[test]
fn counting_lit_flags_counts_only_the_frames_the_camera_called_lit() {
    let (dark, lit) = (Illumination::Dark, Illumination::Lit);
    assert_eq!(
        count_lit(&[Some(lit), None, Some(dark), Some(lit), None]),
        2
    );
    assert_eq!(count_lit(&[None, None]), 0);
    assert_eq!(count_lit(&[]), 0);
}

#[test]
fn single_interface_camera_pairs_ir_with_its_own_metadata_node() {
    let candidates = vec![
        "/dev/video0".to_string(), // RGB image
        "/dev/video1".to_string(), // RGB metadata: the wrong-pair trap
        "/dev/video3".to_string(), // IR metadata
    ];
    let offers = |c: &str| c.ends_with('1') || c.ends_with('3');
    assert_eq!(
        pick_metadata_sibling("/dev/video2", candidates, offers),
        Some("/dev/video3".to_string()),
        "the IR camera must arm ITS stream's metadata node, not RGB's"
    );
}

/// Split-interface cameras (NexiGo): the only sibling is the pair.
#[test]
fn split_interface_pairing_is_unchanged() {
    let offers = |_: &str| true;
    assert_eq!(
        pick_metadata_sibling("/dev/video0", vec!["/dev/video1".into()], offers),
        Some("/dev/video1".to_string())
    );
}

/// Only lower-numbered siblings offer the format: that is another
/// stream's queue, and no reader beats a wrong reader (brightness is the
/// designed fallback).
#[test]
fn a_lower_numbered_metadata_node_is_never_borrowed() {
    let offers = |_: &str| true;
    assert_eq!(
        pick_metadata_sibling("/dev/video2", vec!["/dev/video1".into()], offers),
        None
    );
}

#[test]
fn a_later_streams_metadata_node_is_never_borrowed() {
    let candidates = vec![
        "/dev/video1".to_string(), // earlier stream's metadata
        "/dev/video3".to_string(), // later stream's image
        "/dev/video4".to_string(), // later stream's metadata
    ];
    let offers = |candidate: &str| candidate.ends_with('1') || candidate.ends_with('4');
    assert_eq!(
        pick_metadata_sibling("/dev/video2", candidates, offers),
        None,
        "missing metadata for this stream must fall back, not borrow a later stream"
    );
}

/// Double-digit nodes order numerically, not lexically: video10's
/// metadata is video11, even with a video9 sibling in the list.
#[test]
fn pairing_orders_numerically_on_double_digit_nodes() {
    let candidates = vec!["/dev/video9".to_string(), "/dev/video11".to_string()];
    let offers = |_: &str| true;
    assert_eq!(
        pick_metadata_sibling("/dev/video10", candidates, offers),
        Some("/dev/video11".to_string())
    );
}

/// Bytes captured from an ASUS IR module, kernel 7.1.5: uvcvideo's 12-byte
/// header, then a 28-byte payload header (2 standard + PTS + SCR + one
/// 16-byte Microsoft record).
fn real_buffer(illuminated: bool, header_flags: u8) -> Vec<u8> {
    let mut b = Vec::new();
    b.extend_from_slice(&924_485_039_416u64.to_le_bytes()); // ns
    b.extend_from_slice(&817u16.to_le_bytes()); // sof
    b.push(28); // bHeaderLength
    b.push(header_flags); // bmHeaderInfo
    b.extend_from_slice(&2_115_448u32.to_le_bytes()); // PTS
    b.extend_from_slice(&[0u8; 6]); // SCR
    b.extend_from_slice(&METADATA_ID_FRAME_ILLUMINATION.to_le_bytes());
    b.extend_from_slice(&16u32.to_le_bytes());
    b.extend_from_slice(&u32::from(illuminated).to_le_bytes());
    b.extend_from_slice(&[0u8; 4]); // Reserved
    b
}

/// 0x8d and 0x8c are the two values observed alternating on real hardware:
/// end-of-header, SCR, PTS, and the frame id toggling.
const LIT_FLAGS: u8 = 0x8d;
const DARK_FLAGS: u8 = 0x8c;

// Independent wire fixtures: Microsoft UVC extensions sections 2.2.3.2
// (concatenated partial blobs) and 2.2.3.4.4 (four u32 fields).
fn illumination_item(lit: bool) -> Vec<u8> {
    let mut item = vec![6, 0, 0, 0, 16, 0, 0, 0];
    item.extend_from_slice(&u32::from(lit).to_le_bytes());
    item.extend_from_slice(&[0; 4]);
    item
}

fn metadata_fragment(extra: &[u8], flags: u8) -> Vec<u8> {
    let standard = usize::from(flags & 4 != 0) * 4 + usize::from(flags & 8 != 0) * 6;
    let mut block = vec![0; 10]; // Linux host timestamp and SOF
    block.push(u8::try_from(2 + standard + extra.len()).unwrap());
    block.push(flags);
    block.resize(12 + standard, 0);
    block.extend_from_slice(extra);
    block
}

#[test]
fn metadata_rejects_kernel_reachable_cross_fid_record_assembly() {
    // Linux can retain both headers when the FID=0 frame has no image
    // bytes. Neither frame supplies a complete illumination record.
    let mut frame = metadata_fragment(&[6, 0, 0, 0, 16, 0, 0, 0], 0x80);
    frame.extend(metadata_fragment(&[1, 0, 0, 0, 0, 0, 0, 0], 0x83));
    assert_eq!(parse_illumination(&frame), None);
}

#[test]
fn metadata_rejects_fid_changes_even_in_standard_only_headers() {
    for fid in [0, 1] {
        let full = metadata_fragment(&illumination_item(true), 0x80 | fid);
        let other = metadata_fragment(&[], 0x8c | (fid ^ 1));
        assert_eq!(
            parse_illumination(&[full.clone(), other.clone()].concat()),
            None
        );
        assert_eq!(parse_illumination(&[other, full].concat()), None);
    }
}

#[test]
fn metadata_refuses_any_header_after_observed_eof() {
    let item = illumination_item(true);
    for split in 1..=item.len() {
        let mut frame = metadata_fragment(&item[..split], 0x82);
        frame.extend(metadata_fragment(&item[split..], 0x80));
        assert_eq!(parse_illumination(&frame), None, "split {split}");
    }
}

#[test]
fn metadata_preserves_same_fid_splits_with_optional_final_eof() {
    for fid in [0, 1] {
        for eof in [0, 2] {
            for lit in [false, true] {
                let item = illumination_item(lit);
                for split in 1..item.len() {
                    let mut frame = metadata_fragment(&item[..split], 0x84 | fid);
                    frame.extend(metadata_fragment(&item[split..], 0x88 | fid | eof));
                    assert_eq!(
                        parse_illumination(&frame),
                        Some(if lit {
                            Illumination::Lit
                        } else {
                            Illumination::Dark
                        })
                    );
                }
            }
        }
    }
}

#[test]
fn metadata_record_survives_every_split_and_optional_timestamp_layout() {
    for lit in [false, true] {
        let item = illumination_item(lit);
        let expected = Some(if lit {
            Illumination::Lit
        } else {
            Illumination::Dark
        });
        for first_flags in [0x80, 0x84, 0x88, 0x8c] {
            for last_flags in [0x80, 0x84, 0x88, 0x8c] {
                for split in 1..item.len() {
                    let mut frame = metadata_fragment(&item[..split], first_flags);
                    frame.extend(metadata_fragment(&[], 0x8c));
                    frame.extend(metadata_fragment(&item[split..], last_flags));
                    assert_eq!(
                        parse_illumination(&frame),
                        expected,
                        "split {split}, flags {first_flags:x}/{last_flags:x}"
                    );
                }
            }
        }
    }
}

#[test]
fn metadata_custom_continuation_is_never_illumination_evidence() {
    let mut items = vec![0, 0, 0, 0x80, 24, 0, 0, 0];
    items.extend(illumination_item(true)); // opaque custom payload
    items.extend(illumination_item(false)); // actual frame evidence
    assert_eq!(
        parse_illumination(&metadata_fragment(&items, 0x8c)),
        Some(Illumination::Dark)
    );
    for split in 1..items.len() {
        let mut frame = metadata_fragment(&items[..split], 0x8c);
        frame.extend(metadata_fragment(&items[split..], 0x8c));
        assert_eq!(
            parse_illumination(&frame),
            Some(Illumination::Dark),
            "split {split}"
        );
    }
    let frame: Vec<_> = items
        .chunks(1)
        .flat_map(|part| metadata_fragment(part, 0x80))
        .collect();
    assert_eq!(parse_illumination(&frame), Some(Illumination::Dark));
}

#[test]
fn metadata_illumination_requires_the_complete_sixteen_byte_record() {
    let mut item = illumination_item(true);
    item[4..8].copy_from_slice(&12u32.to_le_bytes());
    item.truncate(12);
    assert_eq!(parse_illumination(&metadata_fragment(&item, 0x80)), None);
}

#[test]
fn metadata_conflicting_duplicates_are_unknown_in_either_order() {
    for lit in [true, false] {
        let mut items = illumination_item(lit);
        items.extend(illumination_item(!lit));
        assert_eq!(parse_illumination(&metadata_fragment(&items, 0x80)), None);
    }
    let items = illumination_item(true).repeat(2);
    assert_eq!(
        parse_illumination(&metadata_fragment(&items, 0x80)),
        Some(Illumination::Lit)
    );
}

#[test]
fn metadata_valid_prefix_does_not_hide_malformed_trailing_data() {
    let good = metadata_fragment(&illumination_item(true), 0x80);
    for tail in [vec![0], vec![0; 11], metadata_fragment(&[1], 0x80)] {
        let mut frame = good.clone();
        frame.extend(tail);
        assert_eq!(parse_illumination(&frame), None);
    }
    for size in [0u32, 4, 9, u32::MAX] {
        let mut items = illumination_item(true);
        items.extend_from_slice(&0x8000_0000u32.to_le_bytes());
        items.extend_from_slice(&size.to_le_bytes());
        items.push(0);
        assert_eq!(parse_illumination(&metadata_fragment(&items, 0x80)), None);
    }
}

#[test]
fn metadata_error_header_invalidates_the_whole_frame() {
    let good = metadata_fragment(&illumination_item(true), 0x80);
    let bad = metadata_fragment(&[], 0xc0); // UVC ERR
    for frame in [[good.clone(), bad.clone()].concat(), [bad, good].concat()] {
        assert_eq!(parse_illumination(&frame), None);
    }
}

#[test]
fn metadata_dequeue_error_discards_even_a_complete_lit_record() {
    let frame = metadata_fragment(&illumination_item(true), 0x80);
    assert_eq!(
        illumination_in_dequeued_buffer(&frame, 0x2000),
        Some(Illumination::Lit)
    );
    assert_eq!(illumination_in_dequeued_buffer(&frame, 0x2040), None);
}

#[test]
fn metadata_complete_extensions_keep_the_defined_bit_semantics() {
    let mut item = illumination_item(true);
    item[4..8].copy_from_slice(&24u32.to_le_bytes());
    item[8..12].copy_from_slice(&0x8000_0001u32.to_le_bytes());
    item[12..16].copy_from_slice(&0xdead_beefu32.to_le_bytes());
    item.extend_from_slice(&[0xff; 8]);
    assert_eq!(
        parse_illumination(&metadata_fragment(&item, 0x80)),
        Some(Illumination::Lit)
    );
    item[8] = 0;
    assert_eq!(
        parse_illumination(&metadata_fragment(&item, 0x80)),
        Some(Illumination::Dark)
    );
}

#[test]
fn metadata_large_custom_item_is_skipped_across_many_fragments() {
    let mut items = vec![0, 0, 0, 0x80, 0, 4, 0, 0]; // Size = 1024
    items.resize(1024, 0xff);
    items.extend(illumination_item(true));
    for chunk in [1, 7, 127, 243] {
        let frame: Vec<_> = items
            .chunks(chunk)
            .flat_map(|part| metadata_fragment(part, 0x8c))
            .collect();
        assert_eq!(parse_illumination(&frame), Some(Illumination::Lit));
    }
}

#[test]
fn metadata_incomplete_optional_timestamp_is_not_a_new_record_start() {
    let good = metadata_fragment(&illumination_item(true), 0x80);
    for flags in [0x84, 0x88, 0x8c] {
        let mut broken = metadata_fragment(&[], flags);
        broken.pop();
        broken[10] -= 1;
        assert_eq!(parse_illumination(&[good.clone(), broken].concat()), None);
    }
}

#[test]
fn metadata_incomplete_frames_are_not_joined_across_calls() {
    let item = illumination_item(true);
    for split in 1..item.len() {
        assert_eq!(
            parse_illumination(&metadata_fragment(&item[..split], 0x80)),
            None
        );
        assert_eq!(
            parse_illumination(&metadata_fragment(&item[split..], 0x80)),
            None
        );
    }
    assert_eq!(
        parse_illumination(&metadata_fragment(&item, 0x80)),
        Some(Illumination::Lit)
    );
}

#[test]
fn reads_the_illumination_flag_from_a_real_buffer() {
    assert_eq!(
        parse_illumination(&real_buffer(true, LIT_FLAGS)),
        Some(Illumination::Lit)
    );
    assert_eq!(
        parse_illumination(&real_buffer(false, DARK_FLAGS)),
        Some(Illumination::Dark)
    );
}

#[test]
fn a_header_with_no_appended_record_is_unknown_not_dark() {
    // The first frame after STREAMON, measured: bHeaderLength 12, nothing
    // appended. Reading this as "dark" would make the burst discard a frame
    // the camera never said anything about.
    let mut b = Vec::new();
    b.extend_from_slice(&1u64.to_le_bytes());
    b.extend_from_slice(&673u16.to_le_bytes());
    b.push(12);
    b.push(DARK_FLAGS);
    b.extend_from_slice(&0u32.to_le_bytes()); // PTS
    b.extend_from_slice(&[0u8; 6]); // SCR
    assert_eq!(parse_illumination(&b), None);
}

#[test]
fn a_header_without_pts_or_scr_shifts_where_records_start() {
    // Same record, but the header declares neither PTS nor SCR, so the
    // standard part is 2 bytes and the record begins 10 bytes earlier.
    // Assuming a fixed 12-byte standard header would misread this.
    let mut b = Vec::new();
    b.extend_from_slice(&1u64.to_le_bytes());
    b.extend_from_slice(&0u16.to_le_bytes());
    b.push(18); // 2 standard + 16 record
    b.push(0x80); // end-of-header only: no PTS, no SCR
    b.extend_from_slice(&METADATA_ID_FRAME_ILLUMINATION.to_le_bytes());
    b.extend_from_slice(&16u32.to_le_bytes());
    b.extend_from_slice(&1u32.to_le_bytes());
    b.extend_from_slice(&[0u8; 4]);
    assert_eq!(parse_illumination(&b), Some(Illumination::Lit));
}

#[test]
fn a_record_that_overruns_the_buffer_is_refused_not_guessed() {
    let mut b = real_buffer(true, LIT_FLAGS);
    // Claim a record far larger than the bytes present.
    let size_at = b.len() - 12;
    b[size_at..size_at + 4].copy_from_slice(&4096u32.to_le_bytes());
    assert_eq!(parse_illumination(&b), None);
}

#[test]
fn a_zero_sized_record_does_not_loop_forever() {
    let mut b = real_buffer(true, LIT_FLAGS);
    let size_at = b.len() - 12;
    b[size_at..size_at + 4].copy_from_slice(&0u32.to_le_bytes());
    assert_eq!(parse_illumination(&b), None);
}

#[test]
fn a_truncated_buffer_is_refused() {
    let b = real_buffer(true, LIT_FLAGS);
    for cut in 0..b.len() {
        // No panic and no false reading for any prefix.
        let _ = parse_illumination(&b[..cut]);
    }
    assert_eq!(parse_illumination(&b[..20]), None);
}

#[test]
fn several_entries_in_one_buffer_are_walked() {
    // A frame that arrived as two USB payloads: the first header carries no
    // record, the second does.
    let mut first = Vec::new();
    first.extend_from_slice(&1u64.to_le_bytes());
    first.extend_from_slice(&0u16.to_le_bytes());
    first.push(12);
    first.push(LIT_FLAGS); // Both payloads belong to the same wire frame.
    first.extend_from_slice(&0u32.to_le_bytes());
    first.extend_from_slice(&[0u8; 6]);
    let mut both = first;
    both.extend_from_slice(&real_buffer(true, LIT_FLAGS));
    assert_eq!(parse_illumination(&both), Some(Illumination::Lit));
    both[11] ^= 1;
    assert_eq!(parse_illumination(&both), None);
}

#[test]
fn brightest_lit_ignores_a_brighter_frame_the_camera_called_dark() {
    let means = [90.0, 50.0, 40.0];
    let flags = [
        Some(Illumination::Dark),
        Some(Illumination::Lit),
        Some(Illumination::Lit),
    ];
    assert_eq!(brightest_lit(&means, &flags), Some(1));
}

#[test]
fn brightest_lit_matches_the_old_rule_when_nothing_is_flagged() {
    let means = [10.0, 90.0, 90.0, 20.0];
    let flags = [None, None, None, None];
    // First frame holding the maximum, as the incremental scan always did.
    assert_eq!(brightest_lit(&means, &flags), Some(1));
}

#[test]
fn no_metadata_selects_the_burst_maximum() {
    let means = [1.0, 34.0, 128.0, 2.0];
    let flags = [None, None, None, None];
    let clipped = [0.0, 0.0, 0.9, 0.0];
    assert_eq!(best_gate_frame(&means, &flags, Some(&clipped)), Some(2));
    assert_eq!(best_gate_frame(&means, &flags, None), Some(2));
}

#[test]
fn metadata_less_strobe_selects_the_bright_phase() {
    let means: Vec<f64> = [0.6, 128.0].repeat(5);
    let flags = vec![None; means.len()];
    let best_i =
        best_gate_frame(&means, &flags, None).expect("a non-empty burst has a gate frame");
    assert_eq!(means[best_i], 128.0);
    assert!(
        !(0.0..f64::from_bits(DARK_MEAN_MAX)).contains(&means[best_i])
            && means[best_i] < f64::from_bits(SATURATED_MIN_MEAN),
        "the production caller must not route this burst to dark diagnosis"
    );
}

#[test]
fn best_gate_frame_skips_a_clipped_brightest_lit_frame() {
    let means = [200.0, 150.0, 3.0];
    let flags = [
        Some(Illumination::Lit),
        Some(Illumination::Lit),
        Some(Illumination::Dark),
    ];
    let clipped = [0.30, 0.01, 0.0];
    assert_eq!(best_gate_frame(&means, &flags, Some(&clipped)), Some(1));
}

#[test]
fn best_gate_frame_never_trades_a_clipped_face_for_an_emitter_off_frame() {
    // Every lit frame clips. The dark frame is the cleanest in the burst
    // and must still lose: least-clipped LIT wins.
    let means = [2.0, 220.0, 150.0];
    let flags = [
        Some(Illumination::Dark),
        Some(Illumination::Lit),
        Some(Illumination::Lit),
    ];
    let clipped = [0.0, 0.60, 0.30];
    assert_eq!(best_gate_frame(&means, &flags, Some(&clipped)), Some(2));
}

#[test]
fn best_gate_frame_keeps_the_brightest_on_a_clean_burst() {
    // No frame clips, so selection matches brightest_lit exactly,
    // including first-on-tie.
    let means = [50.0, 90.0, 90.0];
    let flags = [Some(Illumination::Lit); 3];
    let clipped = [0.0, 0.0, 0.0];
    assert_eq!(best_gate_frame(&means, &flags, Some(&clipped)), Some(1));
}

#[test]
fn burst_plateau_exits_a_steady_emitter_after_two_flat_frames() {
    let flags = [Some(Illumination::Lit); 10];
    let clipped = [0.0; 10];
    // Frame 0 is the best clean lit frame; two equal frames follow.
    let means = [150.0, 150.0, 150.0];
    assert!(
        burst_plateau_reached(&means, &flags[..3], Some(&clipped[..3])),
        "a steady plateau is decided after three frames"
    );
    // One frame after the best is not enough: the ambient pair still
    // wants the neighbour behind the best frame.
    assert!(!burst_plateau_reached(
        &means[..2],
        &flags[..2],
        Some(&clipped[..2])
    ));
    // A brightening burst keeps the loop going: something later could
    // still beat the current best.
    let rising = [100.0, 120.0, 145.0];
    assert!(!burst_plateau_reached(
        &rising,
        &flags[..3],
        Some(&clipped[..3])
    ));
    // Once two frames fail to improve a strong best, the answer flips.
    let settled = [100.0, 120.0, 145.0, 144.0, 100.0];
    assert!(burst_plateau_reached(
        &settled,
        &flags[..5],
        Some(&clipped[..5])
    ));
}

#[test]
fn burst_plateau_never_fires_without_camera_flags_or_clip_ceilings() {
    let means = [150.0, 150.0, 150.0];
    let lit = [Some(Illumination::Lit); 3];
    let clipped = [0.0; 3];
    // No clip ceiling -> "clean" is not measurable.
    assert!(!burst_plateau_reached(&means, &lit, None));
    // No camera classification -> "lit" is not measurable.
    let unsaid = [None, None, None];
    assert!(!burst_plateau_reached(&means, &unsaid, Some(&clipped)));
    // Too few frames to have both a best and its trailing pair.
    assert!(!burst_plateau_reached(
        &[150.0, 150.0],
        &lit[..2],
        Some(&clipped[..2])
    ));
}

#[test]
fn burst_plateau_ignores_clipped_and_unlit_frames_as_improvements() {
    // A brighter but CLIPPED lit frame cannot become the best, and does
    // not count as an improvement either.
    let means = [150.0, 220.0, 149.0, 148.0];
    let flags = [Some(Illumination::Lit); 4];
    let clipped = [0.0, 0.4, 0.0, 0.0];
    assert!(burst_plateau_reached(&means, &flags, Some(&clipped)));
    // A dark frame with a huge mean is not an improvement.
    let strobe_means = [180.0, 5.0, 178.0];
    let strobe_flags = [
        Some(Illumination::Lit),
        Some(Illumination::Dark),
        Some(Illumination::Lit),
    ];
    let clean = [0.0; 3];
    assert!(burst_plateau_reached(
        &strobe_means,
        &strobe_flags,
        Some(&clean)
    ));
}

#[test]
fn best_gate_frame_without_clip_data_matches_brightest_lit() {
    // A format with no known ceiling reports no clipping; the scan is the
    // long-standing brightest-lit one.
    let means = [90.0, 50.0];
    let flags = [Some(Illumination::Lit), Some(Illumination::Lit)];
    assert_eq!(best_gate_frame(&means, &flags, None), Some(0));
}

#[test]
fn best_gate_frame_without_camera_flags_keeps_the_brightest_scan() {
    // Unclassified burst: the cleanest frames of a strobing burst are the
    // emitter-off ones, so clip-aware selection must not run at all, even
    // when the brightest frame is heavily clipped.
    let means = [3.0, 220.0, 40.0];
    let flags = [None, None, None];
    let clipped = [0.0, 0.80, 0.0];
    assert_eq!(best_gate_frame(&means, &flags, Some(&clipped)), Some(1));
}

#[test]
fn best_gate_frame_counts_the_threshold_itself_as_clean() {
    // The boundary belongs to the clean side; a frame at exactly
    // CLIPPED_FRAC_MAX outranks a dimmer spotless one.
    let means = [200.0, 150.0];
    let flags = [Some(Illumination::Lit), Some(Illumination::Lit)];
    let clipped = [f64::from_bits(CLIPPED_FRAC_MAX), 0.0];
    assert_eq!(best_gate_frame(&means, &flags, Some(&clipped)), Some(0));
}

#[test]
fn best_gate_frame_breaks_a_clipping_tie_toward_the_brighter_frame() {
    // All-clipped fallback with equal clipping: brightness decides.
    let means = [90.0, 180.0];
    let flags = [Some(Illumination::Lit), Some(Illumination::Lit)];
    let clipped = [0.30, 0.30];
    assert_eq!(best_gate_frame(&means, &flags, Some(&clipped)), Some(1));
}

#[test]
fn brightest_lit_falls_back_when_every_frame_is_flagged_dark() {
    // A camera in D0, or one whose emitter never fired: metadata says no
    // frame was lit, so refusing to pick one would fail the capture. Pick
    // the brightest and let the ambient gates downstream judge it.
    let means = [10.0, 90.0, 20.0];
    let flags = [Some(Illumination::Dark); 3];
    assert_eq!(brightest_lit(&means, &flags), Some(1));
}

#[test]
fn brightest_lit_on_an_empty_burst_is_none() {
    assert_eq!(brightest_lit(&[], &[]), None);
}

#[test]
fn ambient_partner_prefers_the_neighbour_the_camera_flagged_dark() {
    // The brighter neighbour is the flagged-dark one. Brightness alone
    // would pick the other; the camera's answer wins.
    let means = [30.0, 100.0, 5.0];
    let flags = [
        Some(Illumination::Dark),
        Some(Illumination::Lit),
        Some(Illumination::Lit),
    ];
    assert_eq!(ambient_partner(1, &means, &flags), Some(0));
}

#[test]
fn ambient_partner_falls_back_to_the_darker_neighbour() {
    let means = [30.0, 100.0, 5.0];
    let flags = [None, None, None];
    assert_eq!(ambient_partner(1, &means, &flags), Some(2));
}

#[test]
fn ambient_partner_at_the_burst_edges_stays_in_range() {
    let means = [100.0, 5.0];
    let flags = [None, None];
    assert_eq!(ambient_partner(0, &means, &flags), Some(1));
    assert_eq!(ambient_partner(1, &means, &flags), Some(0));
    assert_eq!(ambient_partner(0, &[42.0], &[None]), None);
}

#[test]
fn a_node_with_no_device_link_does_not_end_the_search() {
    // The layout measured on a machine with both a real camera and three
    // v4l2loopback dummies: read_dir yields the dummies, which have no
    // `device` link at all. Aborting on the first of those made a real
    // camera's metadata node unreachable, and the capture path silently
    // fell back to brightness on hardware that could have answered.
    let nodes = &[
            ("video2", Some("3-2.1:1.2")),
            ("video3", Some("3-2.1:1.2")),
            ("video8", None),
            ("video9", None),
            ("video10", None),
        ];
    let found = siblings_on_same_interface("/dev/video2", nodes);
    assert_eq!(found, vec!["/dev/video3".to_string()]);
}

#[test]
fn siblings_are_ordered_by_node_number_not_by_name() {
    // Sorting the strings puts /dev/video10 before /dev/video2, which is
    // the opposite of the documented rule and reachable on any host that
    // has reached double-digit node numbers.
    let nodes = &[
            ("video4", Some("1-1:1.0")),
            ("video10", Some("1-1:1.0")),
            ("video2", Some("1-1:1.0")),
            ("video9", Some("1-1:1.0")),
        ];
    let found = siblings_on_same_interface("/dev/video4", nodes);
    assert_eq!(
        found,
        vec![
            "/dev/video2".to_string(),
            "/dev/video9".to_string(),
            "/dev/video10".to_string(),
        ]
    );
}

#[test]
fn a_node_name_with_no_number_sorts_last_rather_than_first() {
    assert_eq!(node_number("/dev/video10"), 10);
    assert_eq!(node_number("/dev/video2"), 2);
    // Not "node zero": an unexpected shape must not outrank a real node.
    assert_eq!(node_number("/dev/videoX"), u32::MAX);
    assert_eq!(node_number(""), u32::MAX);
}

#[test]
fn a_second_camera_on_another_interface_is_not_a_sibling() {
    // Node numbering interleaves across cameras, so pairing by "the next
    // node number" would cross between two cameras here.
    let nodes = &[
            ("video0", Some("3-5:1.0")),
            ("video1", Some("3-5:1.0")),
            ("video2", Some("3-5:1.2")),
            ("video3", Some("3-5:1.2")),
        ];
    let found = siblings_on_same_interface("/dev/video2", nodes);
    assert_eq!(found, vec!["/dev/video3".to_string()]);
}

#[test]
fn a_device_that_is_not_in_sysfs_yields_no_siblings() {
    let nodes = &[("video0", Some("3-5:1.0"))];
    assert!(siblings_on_same_interface("/dev/video99", nodes).is_empty());
}

#[test]
fn the_two_metadata_fourccs_are_what_the_kernel_uses() {
    // v4l2 spells these 'UVCH' and 'UVCM' little-endian; a byte-order slip
    // here would silently request a format no driver has.
    assert_eq!(UVCH, u32::from_le_bytes(*b"UVCH"));
    assert_eq!(UVCM, u32::from_le_bytes(*b"UVCM"));
}

// --- the metadata session -------------------------------------------------------------------

const ORIGINAL: MetadataFormat = MetadataFormat {
    dataformat: UVCH,
    buffersize: 10_240,
};
const TAKEN: MetadataFormat = MetadataFormat {
    dataformat: UVCM,
    buffersize: 65_536,
};

/// A node that answers every request of a start.
fn answer(request: StartRequest) -> DeviceReply {
    match request {
        StartRequest::GetFormat => DeviceReply::Format(ORIGINAL),
        StartRequest::SetFormat(_) => DeviceReply::Format(TAKEN),
        StartRequest::RequestBuffers { .. } => DeviceReply::Granted(2),
        StartRequest::QueryBuffer { .. } => DeviceReply::Length(4_096),
        StartRequest::MapBuffer { .. }
        | StartRequest::QueueBuffer { .. }
        | StartRequest::StreamOn => DeviceReply::Done,
        StartRequest::Finished => unreachable!(),
    }
}

fn started() -> IlluminationLog {
    let mut log = IlluminationLog::new();
    while log.request() != StartRequest::Finished {
        let reply = answer(log.request());
        log.advance(reply);
    }
    log
}

#[test]
fn a_session_maps_every_buffer_before_it_streams() {
    let mut log = IlluminationLog::new();
    let mut asked = Vec::new();
    while log.request() != StartRequest::Finished {
        let request = log.request();
        asked.push(request);
        log.advance(answer(request));
    }
    assert_eq!(log.refusal(), None);
    assert_eq!(
        asked[3..],
        [
            StartRequest::QueryBuffer { index: 0 },
            StartRequest::MapBuffer { index: 0, length: 4_096 },
            StartRequest::QueueBuffer { index: 0 },
            StartRequest::QueryBuffer { index: 1 },
            StartRequest::MapBuffer { index: 1, length: 4_096 },
            StartRequest::QueueBuffer { index: 1 },
            StartRequest::StreamOn,
        ]
    );
}

#[test]
fn every_refusal_of_a_session_has_its_own_sentence() {
    let refusal = |at: StartRequest, reply: DeviceReply| {
        let mut log = IlluminationLog::new();
        loop {
            let request = log.request();
            if request == StartRequest::Finished {
                break log.refusal().expect("refused");
            }
            if std::mem::discriminant(&request) == std::mem::discriminant(&at) {
                log.advance(reply.clone());
            } else {
                log.advance(answer(request));
            }
        }
    };
    let any = MetadataFormat { dataformat: 0, buffersize: 0 };
    assert_eq!(
        refusal(StartRequest::GetFormat, DeviceReply::Failed("EIO".into())),
        "EIO"
    );
    assert_eq!(
        refusal(StartRequest::SetFormat(any), DeviceReply::Format(ORIGINAL)),
        "the device does not accept the UVCM metadata format"
    );
    assert_eq!(
        refusal(
            StartRequest::SetFormat(any),
            DeviceReply::Format(MetadataFormat {
                dataformat: UVCM,
                buffersize: MAX_META_BUFFER_SIZE + 1,
            })
        ),
        "the device negotiated an unsupported metadata buffer size"
    );
    assert_eq!(
        refusal(StartRequest::RequestBuffers { count: 0 }, DeviceReply::Granted(0)),
        "the device granted no metadata buffers"
    );
    assert_eq!(
        refusal(
            StartRequest::RequestBuffers { count: 0 },
            DeviceReply::Granted(META_BUFFERS + 1)
        ),
        "the device granted too many metadata buffers"
    );
    assert_eq!(
        refusal(StartRequest::QueryBuffer { index: 0 }, DeviceReply::Length(0)),
        "unsupported metadata buffer length at index 0"
    );
    assert_eq!(
        refusal(
            StartRequest::MapBuffer { index: 0, length: 0 },
            DeviceReply::Failed("ENOMEM".into())
        ),
        "mapping metadata buffer 0 failed"
    );
}

fn torn_down(
    mut teardown: Teardown,
    current: MetadataFormat,
    fails: &[TeardownRequest],
) -> Vec<TeardownRequest> {
    let mut asked = Vec::new();
    while teardown.request() != TeardownRequest::Finished {
        let request = teardown.request();
        asked.push(request);
        teardown.advance(if fails.contains(&request) {
            DeviceReply::Failed("EIO".into())
        } else if request == TeardownRequest::GetFormat {
            DeviceReply::Format(current)
        } else {
            DeviceReply::Done
        });
    }
    asked
}

#[test]
fn a_teardown_puts_the_format_back_only_where_it_is_its_own() {
    let log = started();
    assert!(log.teardown(Some(false)).is_none());
    let teardown = log.teardown(None).expect("nobody else produces");
    assert_eq!(
        torn_down(teardown, TAKEN, &[]),
        [
            TeardownRequest::StreamOff,
            TeardownRequest::UnmapBuffers,
            TeardownRequest::ReleaseBuffers,
            TeardownRequest::GetFormat,
            TeardownRequest::SetFormat(ORIGINAL),
            TeardownRequest::Close,
        ]
    );
    // Somebody else changed the node meanwhile: their format stays.
    assert!(!torn_down(teardown, ORIGINAL, &[]).contains(&TeardownRequest::SetFormat(ORIGINAL)));
    // Buffers that were not released keep the queue allocated: the format is not looked at.
    let stuck = torn_down(teardown, TAKEN, &[TeardownRequest::ReleaseBuffers]);
    assert!(!stuck.contains(&TeardownRequest::GetFormat));
    assert_eq!(stuck.last(), Some(&TeardownRequest::Close));
}

#[test]
fn an_error_buffer_retires_the_session() {
    let mut log = started();
    assert_eq!(log.begin_drain(false), DrainRequest::Dequeue);
    let mut buffer = DequeuedMetadata {
        index: 1,
        bytesused: 40,
        flags: 0x2000,
        seconds: 3,
        microseconds: 4,
    };
    assert_eq!(
        log.inspect(&buffer),
        DrainRequest::View { index: 1, length: 40 }
    );
    let bytes = metadata_fragment(&illumination_item(true), 0x80);
    assert_eq!(log.classify(&buffer, &bytes), DrainRequest::Requeue { index: 1 });
    assert_eq!(log.illumination_at(3_000_004), Some(Illumination::Lit));
    assert_eq!(log.illumination_at(3_000_005), None);
    assert_eq!(log.requeued(true), DrainRequest::Dequeue);
    assert_eq!(log.requeued(false), DrainRequest::Stop);
    // A buffer that claims more than is mapped goes back unread.
    buffer.bytesused = 4_097;
    assert_eq!(log.inspect(&buffer), DrainRequest::Requeue { index: 1 });
    buffer.index = 2;
    assert_eq!(log.inspect(&buffer), DrainRequest::Requeue { index: 2 });
    buffer.flags |= 0x40;
    assert_eq!(log.inspect(&buffer), DrainRequest::Stop);
    assert_eq!(log.illumination_at(3_000_004), None);
    assert_eq!(log.begin_drain(false), DrainRequest::Stop);
}

#[test]
fn the_timestamp_of_a_silent_buffer_is_not_looked_at() {
    let mut log = started();
    let mut buffer = DequeuedMetadata {
        index: 1,
        bytesused: 0,
        flags: 0,
        seconds: i64::MAX,
        microseconds: i64::MAX,
    };
    assert_eq!(log.classify(&buffer, &[]), DrainRequest::Requeue { index: 1 });
    // Nor is that of a buffer in error, whatever its bytes say.
    buffer.flags = 0x40;
    let bytes = metadata_fragment(&illumination_item(true), 0x80);
    assert_eq!(log.classify(&buffer, &bytes), DrainRequest::Requeue { index: 1 });
    // The greatest timestamp that can be told is still one.
    buffer.flags = 0;
    buffer.seconds = i64::MAX / 1_000_000;
    buffer.microseconds = i64::MAX % 1_000_000;
    assert_eq!(log.classify(&buffer, &bytes), DrainRequest::Requeue { index: 1 });
    assert_eq!(log.illumination_at(i64::MAX), Some(Illumination::Lit));
}

#[test]
fn a_burst_starts_without_records() {
    let mut log = started();
    let buffer = DequeuedMetadata {
        index: 0,
        bytesused: 28,
        flags: 0,
        seconds: 1,
        microseconds: 0,
    };
    let bytes = metadata_fragment(&illumination_item(false), 0x80);
    log.classify(&buffer, &bytes);
    assert_eq!(log.illumination_at(1_000_000), Some(Illumination::Dark));
    log.begin_burst();
    assert_eq!(log.illumination_at(1_000_000), None);
    log.classify(&buffer, &bytes);
    assert_eq!(log.begin_drain(true), DrainRequest::Stop);
    assert_eq!(log.illumination_at(1_000_000), None);
}

#[test]
fn explicit_absence_and_exact_failure_never_fall_back_to_discovery() {
    let absent: Result<Option<()>, String> = open_selected_with(
        "/dev/a-configured-ir-node",
        MetadataSelection::Absent,
        false,
        |_| unreachable!(),
        |_, _| unreachable!(),
    );
    assert!(absent.unwrap().is_none());
    let failed: Result<Option<()>, String> = open_selected_with(
        "/dev/a-configured-ir-node",
        MetadataSelection::Exact("/definitely/missing/metadata"),
        false,
        |_| unreachable!(),
        |_, node| Err(format!("metadata node {node} would not open")),
    );
    let error = failed.err().expect("required exact metadata must fail");
    assert!(error.contains("would not open"), "{error}");
}

#[test]
fn the_request_numbers_are_the_kernels() {
    assert_eq!(vidioc_g_fmt(), 0xc0d0_5604);
    assert_eq!(vidioc_s_fmt(), 0xc0d0_5605);
    assert_eq!(vidioc_reqbufs(), 0xc014_5608);
    assert_eq!(vidioc_querybuf(), 0xc058_5609);
    assert_eq!(vidioc_qbuf(), 0xc058_560f);
    assert_eq!(vidioc_dqbuf(), 0xc058_5611);
    assert_eq!(vidioc_streamon(), 0x4004_5612);
    assert_eq!(vidioc_streamoff(), 0x4004_5613);
}

#[test]
fn how_a_record_is_split_does_not_matter() {
    let item = illumination_item(true);
    let whole = parse_illumination(&metadata_fragment(&item, 0x80));
    for split in 1..item.len() {
        let mut parts = metadata_fragment(&item[..split], 0x80);
        parts.extend(metadata_fragment(&item[split..], 0x80));
        assert_eq!(parse_illumination(&parts), whole);
    }
}

#[test]
fn a_settled_best_frame_stays() {
    let means = [100.0, 120.0, 145.0, 144.0, 100.0];
    let flags = [Some(Illumination::Lit); 5];
    let clipped = [0.0; 5];
    assert!(burst_plateau_reached(&means, &flags, Some(&clipped)));
    let best = best_gate_frame(&means, &flags, Some(&clipped));
    assert_eq!(best, Some(2));
    assert_eq!(best_gate_frame(&means[..3], &flags[..3], Some(&clipped[..3])), best);
}

#[test]
fn a_metadata_node_is_asked_for_only_where_none_is_ruled_out() {
    let nodes = || vec!["/dev/video2".to_string(), "/dev/video3".to_string()];
    let asked = std::cell::RefCell::new(Vec::new());
    let node_for = |disabled: bool, offers: bool| {
        metadata_node_for(disabled, "/dev/video2", nodes(), |node| {
            asked.borrow_mut().push(node.to_string());
            offers
        })
    };
    assert_eq!(node_for(true, true), None);
    assert!(asked.borrow().is_empty());
    assert_eq!(node_for(false, true), Some("/dev/video3".to_string()));
    assert_eq!(node_for(false, false), None);
    assert_eq!(asked.into_inner(), ["/dev/video3", "/dev/video3"]);
}
