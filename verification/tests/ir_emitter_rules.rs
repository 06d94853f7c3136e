use irlume_camera::ir_emitter::abort::{abort_requested, pending_signal};
use irlume_camera::ir_emitter::apply::{override_is_published, OverrideRefusal};
use irlume_camera::ir_emitter::capture_write::Applied;
use irlume_camera::ir_emitter::consumers::{
    foreign_consumers, ConsumerScan, Link, Links, ProcessEntry, ProcessTree,
};
use irlume_camera::ir_emitter::control::{
    conf_text, control_is_documented, emitter_explicitly_disabled, known_control,
    malformed_text, override_setting,
    parse_control, parse_u8, recorded_control, EmitterControl, OverrideSetting, Variable,
};
use irlume_camera::ir_emitter::descriptor::{
    describe_units, CameraIdentity, ExtensionUnit, MSXU_FACE_AUTHENTICATION, MSXU_IR_TORCH,
};
use irlume_camera::ir_emitter::discovery_error::DiscoveryError;
use irlume_camera::ir_emitter::enable::{
    activation_report, override_key, planned_action, CaptureAction,
};
use irlume_camera::ir_emitter::memo::{reuse, OverrideDecision, OverrideMemo, Reuse};
use irlume_camera::ir_emitter::payload::{face_auth_payload, ir_torch_default_is_usable};
use irlume_camera::ir_emitter::recovery::{
    counted_attempt_authorizes_write, AtomicWrite, RecoveryOutcome,
};
use irlume_camera::ir_emitter::trial::{AUTOCONF_MIN_LIFT, IR_LIT_MEAN};
use irlume_camera::ir_emitter::xu::{
    info_allows_set, length_of, uvcioc_ctrl_query, valid_ctrl_len, ControlQuery, XuError,
};

/// Where the undo records are.
const STORE: &str = "/var/lib/irlume-message-test";

fn unit(unit_id: u8, microsoft: bool, selectors: &[u8]) -> ExtensionUnit {
    ExtensionUnit {
        unit_id,
        microsoft,
        selectors: selectors.to_vec(),
    }
}

/// The infrared interface of the ASUS module: two vendor units and Microsoft's, whose descriptor
/// advertises face authentication and metadata.
fn identity(vid: u16, pid: u16) -> CameraIdentity {
    CameraIdentity {
        vid,
        pid,
        interface_number: 2,
        serial: Some("200901010001".into()),
        usb_devpath: "/devices/pci0000:00/0000:00:14.0/usb3/3-5".into(),
        units: vec![
            unit(11, false, &[1, 2]),
            unit(10, false, &[10, 11]),
            unit(14, true, &[6, 9]),
        ],
    }
}

fn torch(mode: u32, value: u32) -> Vec<u8> {
    let mut v = mode.to_le_bytes().to_vec();
    v.extend_from_slice(&value.to_le_bytes());
    v
}

fn ctrl(unit: u8, selector: u8, payload: Vec<u8>) -> EmitterControl {
    EmitterControl {
        unit,
        selector,
        payload,
    }
}

#[test]
fn a_blind_spot_alone_does_not_stand_the_emitter_down() {
    // The packaged daemon sees permission_denied on essentially every
    // scan; standing down on it would keep the emitter permanently dark.
    // Only a consumer the scan SAW stands the write down.
    let blind = ConsumerScan {
        consumers: vec![],
        permission_denied: true,
    };
    assert!(!blind.stands_down());
    let seen = ConsumerScan {
        consumers: vec![(1234, "chrome".to_string())],
        permission_denied: true,
    };
    assert!(seen.stands_down());
}

#[test]
fn each_recovery_outcome_decides_what_the_callers_may_do() {
    // (outcome, may capture write, blocks discovery, is logged)
    let table = [
        (RecoveryOutcome::NothingPending, true, false, false),
        (RecoveryOutcome::ForAnotherCamera, true, false, false),
        (RecoveryOutcome::AlreadyRestored, true, false, true),
        (
            RecoveryOutcome::Restored {
                unit: 14,
                selector: 6,
            },
            true,
            false,
            true,
        ),
        // The camera is provably right and only the store is wrong, so a
        // capture proceeds; discovery cannot, because its first act is to
        // write a record into that same store.
        (
            RecoveryOutcome::RestoredRecordKept("read-only fs".into()),
            true,
            true,
            true,
        ),
        // Silent: a setup run in flight is ordinary, and it is about to
        // resolve its own record. It still stops both writers.
        (
            RecoveryOutcome::OwnerStillRunning { pid: 1234 },
            false,
            true,
            false,
        ),
        (
            RecoveryOutcome::Unresolved("3 attempts did not take".into()),
            false,
            true,
            true,
        ),
        (
            RecoveryOutcome::Unchecked("lock the camera: permission denied".into()),
            false,
            true,
            true,
        ),
        // Another irlume process holds this camera. Silent, and it stops
        // both writers: it is being looked after already.
        (RecoveryOutcome::Busy, false, true, false),
        // A same-model record this run cannot confirm belongs here.
        (
            RecoveryOutcome::Unconfirmed {
                unit: 14,
                selector: 6,
                original: "010301".into(),
                recorded_at: "/devices/pci0000:00/0000:00:14.0/usb3/3-5".into(),
            },
            false,
            true,
            true,
        ),
    ];

    fn stated_policy(outcome: &RecoveryOutcome) -> (bool, bool) {
        match outcome {
            RecoveryOutcome::NothingPending => (true, false),
            RecoveryOutcome::ForAnotherCamera => (true, false),
            RecoveryOutcome::AlreadyRestored => (true, false),
            RecoveryOutcome::Restored { .. } => (true, false),
            RecoveryOutcome::RestoredRecordKept(_) => (true, true),
            RecoveryOutcome::OwnerStillRunning { .. } => (false, true),
            RecoveryOutcome::Busy => (false, true),
            RecoveryOutcome::Unchecked(_) => (false, true),
            RecoveryOutcome::Unresolved(_) => (false, true),
            RecoveryOutcome::Unconfirmed { .. } => (false, true),
        }
    }
    for (outcome, may_write, blocks, _) in &table {
        assert_eq!(
            stated_policy(outcome),
            (*may_write, *blocks),
            "the table and the exhaustive statement disagree for {outcome:?}"
        );
    }
    for (outcome, may_write, blocks, logged) in table {
        assert_eq!(
            outcome.permits_capture_write(),
            may_write,
            "capture policy for {outcome:?}"
        );
        assert_eq!(
            outcome.blocks_discovery(),
            blocks,
            "discovery policy for {outcome:?}"
        );
        assert_eq!(
            outcome.message(STORE).is_some(),
            logged,
            "logging for {outcome:?}"
        );
    }
}

#[test]
fn a_restore_needs_the_attempt_counted_durably_not_just_visibly() {
    assert_eq!(
        counted_attempt_authorizes_write(Ok(AtomicWrite::Durable)),
        Ok(()),
        "the ordinary durable path must still authorize the write"
    );

    let why = counted_attempt_authorizes_write(Ok(AtomicWrite::VisibleNotDurable("no space".to_string())))
    .expect_err("a count a power loss can revert must NOT authorize a firmware write");
    assert!(
        why.contains("visible but not durable") && why.contains("refusing"),
        "the refusal must say why, got: {why}"
    );
    assert!(
        why.contains("no space"),
        "the underlying error must survive into the message, got: {why}"
    );

    // And nothing published at all is also a refusal, but for the other
    // reason: no attempt was spent, so a write here would be uncounted.
    let why = counted_attempt_authorizes_write(Err("disk full".into()))
        .expect_err("an unwritten record must not authorize a write either");
    assert!(why.contains("disk full"), "got: {why}");
}

#[test]
fn a_record_for_another_camera_does_not_stop_this_one() {
    let id = identity(0x3277, 0x0059);
    let ctrl = EmitterControl {
        unit: 14,
        selector: 6,
        payload: vec![1, 3, 2],
    };
    assert_eq!(
        planned_action(&RecoveryOutcome::ForAnotherCamera, Some(ctrl.clone()), &id, None),
        CaptureAction::Override(ctrl),
        "another camera's record is not this camera's business"
    );
}

#[test]
fn a_refusal_says_the_emitter_will_not_light() {
    let msg = RecoveryOutcome::Unresolved("the control reads [1, 3, 2]".into())
        .message(STORE)
        .expect("a refusal is always reported");
    assert!(msg.contains("will not write"), "{msg}");
    assert!(msg.contains("will not light"), "{msg}");
    // And where to find the bytes that would put it back.
    assert!(
        msg.contains(STORE),
        "{msg}"
    );
}

#[test]
fn encode_parse_roundtrip() {
    let c = EmitterControl {
        unit: 14,
        selector: 6,
        payload: vec![1, 3, 2, 0],
    };
    assert_eq!(parse_control(&c.encode()), Some(c));
}

#[test]
fn parse_control_accepts_decimal_and_hex() {
    assert_eq!(
        parse_control("14:6:1,3,2"),
        Some(EmitterControl {
            unit: 14,
            selector: 6,
            payload: vec![1, 3, 2],
        })
    );
    assert_eq!(
        parse_control(" 0x0E:0X06:0x01,255 "),
        Some(EmitterControl {
            unit: 14,
            selector: 6,
            payload: vec![1, 255],
        })
    );
}

#[test]
fn parse_control_rejects_garbage() {
    // Empty / non-numeric / missing fields.
    assert_eq!(parse_control(""), None);
    assert_eq!(parse_control("   "), None);
    assert_eq!(parse_control("abc"), None);
    assert_eq!(parse_control("1:2"), None); // no payload section
    assert_eq!(parse_control("1:2:"), None); // empty payload
    assert_eq!(parse_control("x:2:1"), None); // bad unit
    assert_eq!(parse_control("1:y:1"), None); // bad selector
                                              // Out-of-range unit/selector (u8 overflow) fail the whole parse.
    assert_eq!(parse_control("256:1:1"), None);
    assert_eq!(parse_control("1:300:1"), None);
    assert_eq!(parse_control("1:2:300"), None); // byte out of range

    assert_eq!(parse_control("1:2:1,300,2"), None);
    assert_eq!(parse_control("1:2:1,bad,2"), None);
    assert_eq!(parse_control("1:2:1,,2"), None);
    assert_eq!(parse_control("1:2:1,2,"), None);

    // A trailing field means the value is not what it appears to be.
    assert_eq!(parse_control("1:2:3:4"), None);

    // Hex and decimal still parse, and a valid payload is unchanged.
    assert_eq!(
        parse_control("14:6:1,0x03,2").map(|c| c.payload),
        Some(vec![1, 3, 2])
    );
}

#[test]
fn known_control_table_is_keyed_on_usb_identity_not_a_name() {
    // The two modules the payload was validated on.
    let asus = known_control(0x3277, 0x0059).expect("ASUS entry");
    assert_eq!(asus.unit, 14);
    assert_eq!(
        asus.selector,
        MSXU_FACE_AUTHENTICATION
    );

    let nexigo = known_control(0x3443, 0xc803).expect("N930W entry");
    assert_eq!(nexigo.unit, 4);
    assert_eq!(
        nexigo.selector,
        MSXU_FACE_AUTHENTICATION
    );

    // A different camera gets nothing, however it names itself. The old
    // table matched `card.contains("ASUS")`, so any camera with that word
    // in its name received nine bytes at unit 14 selector 6.
    assert_eq!(known_control(0x046d, 0x085e), None); // Logitech Brio
    assert_eq!(known_control(0x3277, 0x0060), None); // same vendor, other product
    assert_eq!(known_control(0x0000, 0x0000), None);
}

#[test]
fn valid_ctrl_len_bounds() {
    // GET_LEN plausibility: 1..=64 accepted, 0 and oversize rejected.
    assert_eq!(valid_ctrl_len(0), None);
    assert_eq!(valid_ctrl_len(1), Some(1));
    assert_eq!(valid_ctrl_len(9), Some(9));
    assert_eq!(valid_ctrl_len(64), Some(64));
    assert_eq!(valid_ctrl_len(65), None);
    assert_eq!(valid_ctrl_len(usize::MAX), None);
}

#[test]
fn only_a_control_the_camera_documents_is_applied_automatically() {
    let asus = identity(0x3277, 0x0059);

    // Unit 14 selector 6 is the Microsoft Face Authentication control on
    // this camera, confirmed against its real descriptor.
    assert!(control_is_documented(
        &asus,
        &EmitterControl {
            unit: 14,
            selector: 6,
            payload: vec![1, 3, 2]
        }
    ));

    assert!(!control_is_documented(
        &asus,
        &EmitterControl {
            unit: 4,
            selector: 13,
            payload: vec![1, 3, 2, 0]
        }
    ));
    // Right unit, selector the descriptor does not advertise.
    assert!(!control_is_documented(
        &asus,
        &EmitterControl {
            unit: 14,
            selector: 10,
            payload: vec![0; 8]
        }
    ));
    // A unit that exists on the OTHER VideoControl function of the same
    // physical camera. Unit numbers are not addresses.
    assert!(!control_is_documented(
        &asus,
        &EmitterControl {
            unit: 7,
            selector: 6,
            payload: vec![1]
        }
    ));
}

#[test]
fn a_timeout_is_not_mistaken_for_an_unsupported_control() {
    assert_eq!(XuError::from_errno(libc::EPIPE), XuError::Unsupported);
    assert_eq!(XuError::from_errno(libc::EINVAL), XuError::Unsupported);
    assert_eq!(XuError::from_errno(libc::ENOENT), XuError::Unsupported);

    assert_eq!(
        XuError::from_errno(libc::ETIMEDOUT),
        XuError::Unresponsive(libc::ETIMEDOUT)
    );
    for e in [libc::ENODEV, libc::EPROTO, libc::EILSEQ, libc::EIO] {
        assert_eq!(XuError::from_errno(e), XuError::Unresponsive(e));
    }
}

#[test]
fn an_unrecognised_errno_is_treated_as_dangerous() {
    assert_eq!(XuError::from_errno(0), XuError::Unresponsive(0));
    assert_eq!(XuError::from_errno(9999), XuError::Unresponsive(9999));
}

#[test]
fn a_control_is_only_written_when_get_info_permits_it() {
    const GET: u8 = 1 << 0;
    const SET: u8 = 1 << 1;
    const AUTO_DISABLED: u8 = 1 << 2;
    const COMMIT_DISABLED: u8 = 1 << 5;

    assert!(info_allows_set(SET));
    assert!(info_allows_set(GET | SET));
    // Microsoft specifies GET_INFO = 3 for IR Torch.
    assert!(info_allows_set(3));

    assert!(
        !info_allows_set(GET),
        "read-only control must not be written"
    );
    assert!(!info_allows_set(0));
    assert!(!info_allows_set(SET | AUTO_DISABLED));
    assert!(!info_allows_set(SET | COMMIT_DISABLED));
}

#[test]
fn discovery_errors_explain_themselves() {
    let no_xu = DiscoveryError::NoMicrosoftXu { seen: vec![4, 7] };
    let s = no_xu.message(STORE);
    assert!(s.contains("[4, 7]"), "{s}");
    assert!(s.contains("IRLUME_IR_EMITTER"), "{s}");

    // A refusal is not a dead camera and must not be reported as one.
    let refused = DiscoveryError::Unresponsive {
        unit: 14,
        selector: 6,
        err: XuError::Unsupported,
    };
    let r = refused.message(STORE);
    assert!(r.contains("refused a request"), "{r}");
    assert!(!r.contains("stopped responding"), "{r}");

    let dead = DiscoveryError::Unresponsive {
        unit: 4,
        selector: 13,
        err: XuError::Unresponsive(libc::ETIMEDOUT),
    };
    let s = dead.message(STORE);
    assert!(s.contains("unit 4"), "{s}");
    assert!(s.contains("anything further"), "{s}");

    let stuck = DiscoveryError::RestoreFailed {
        unit: 4,
        selector: 13,
        err: XuError::Unsupported,
    };
    assert!(stuck.message(STORE).contains("could not be restored"));
}

#[test]
fn a_spec_conformant_ir_torch_default_is_accepted() {
    let min = torch(0, 10);
    let max = torch(0b011, 200); // D0 off + D1 on
    assert_eq!(
        ir_torch_default_is_usable(&torch(2, 120), &min, &max, &torch(0, 1)),
        Ok(())
    );

    // ALTERNATING, where the camera says it supports it.
    let max_alt = torch(0b101, 200); // D0 off + D2 alternating
    assert_eq!(
        ir_torch_default_is_usable(&torch(4, 200), &min, &max_alt, &torch(0, 1)),
        Ok(())
    );
}

#[test]
fn an_ir_torch_default_that_would_not_turn_the_lamp_on_is_refused() {
    let min = torch(0, 10);
    let max = torch(0b011, 200);
    // OFF as a default. Writing it back could not light anything.
    assert!(ir_torch_default_is_usable(&torch(0, 100), &min, &max, &torch(0, 1)).is_err());
    // A mode the specification does not define.
    assert!(ir_torch_default_is_usable(&torch(3, 100), &min, &max, &torch(0, 1)).is_err());
    assert!(ir_torch_default_is_usable(&torch(255, 100), &min, &max, &torch(0, 1)).is_err());
}

#[test]
fn a_default_mode_the_camera_does_not_claim_is_refused() {
    let min = torch(0, 10);
    let only_on = torch(0b011, 200); // D0 + D1, no ALTERNATING
    assert!(ir_torch_default_is_usable(&torch(4, 100), &min, &only_on, &torch(0, 1)).is_err());

    // Capabilities without the mandatory OFF bit are malformed.
    let no_off = torch(0b010, 200);
    assert!(ir_torch_default_is_usable(&torch(2, 100), &min, &no_off, &torch(0, 1)).is_err());
}

#[test]
fn an_out_of_range_or_inverted_power_is_refused() {
    let max = torch(0b011, 200);
    assert!(
        ir_torch_default_is_usable(&torch(2, 201), &torch(0, 10), &max, &torch(0, 1)).is_err()
    );
    assert!(
        ir_torch_default_is_usable(&torch(2, 5), &torch(0, 10), &max, &torch(0, 1)).is_err()
    );
    // min above max: the camera is not describing a usable range.
    assert!(
        ir_torch_default_is_usable(&torch(2, 100), &torch(0, 250), &max, &torch(0, 1)).is_err()
    );
}

#[test]
fn an_ir_torch_payload_of_the_wrong_length_is_refused() {
    let min = torch(0, 10);
    let max = torch(0b011, 200);
    assert!(ir_torch_default_is_usable(&[0u8; 4], &min, &max, &torch(0, 1)).is_err());
    assert!(ir_torch_default_is_usable(&[0u8; 9], &min, &max, &torch(0, 1)).is_err());
    assert!(ir_torch_default_is_usable(&torch(2, 100), &[0u8; 2], &max, &torch(0, 1)).is_err());
    assert!(ir_torch_default_is_usable(&torch(2, 100), &min, &[], &torch(0, 1)).is_err());
}

#[test]
fn face_authentication_is_not_subjected_to_ir_torch_rules() {
    assert_ne!(
        MSXU_FACE_AUTHENTICATION,
        MSXU_IR_TORCH
    );
    // The validated 9-byte Hello payload would fail every IR Torch rule,
    // which is exactly why it is not run through them.
    let nine = vec![1u8, 3, 2, 0, 0, 0, 0, 0, 0];
    assert!(
        ir_torch_default_is_usable(&nine, &torch(0, 0), &torch(3, 9), &torch(0, 1)).is_err()
    );
}

#[test]
fn ir_torch_capability_and_minimum_fields_are_checked() {
    let min = torch(0, 10);
    let max = torch(0b011, 200);
    assert_eq!(
        ir_torch_default_is_usable(&torch(2, 100), &min, &max, &torch(0, 1)),
        Ok(())
    );

    // A capability bitmap carrying bits outside D0 to D2.
    assert!(ir_torch_default_is_usable(
        &torch(2, 100),
        &min,
        &torch(0x8000_0003, 200),
        &torch(0, 1)
    )
    .is_err());
    assert!(ir_torch_default_is_usable(
        &torch(2, 100),
        &min,
        &torch(0b1011, 200),
        &torch(0, 1)
    )
    .is_err());

    // GET_MIN's mode field is specified as zero.
    assert!(
        ir_torch_default_is_usable(&torch(2, 100), &torch(2, 10), &max, &torch(0, 1)).is_err()
    );
    assert!(
        ir_torch_default_is_usable(&torch(2, 100), &torch(1, 10), &max, &torch(0, 1)).is_err()
    );
}

#[test]
fn the_override_accepts_a_vendor_unit_but_only_one_the_camera_publishes() {
    let asus = identity(0x3277, 0x0059);

    // Unit 10 on this camera's VideoControl interface is a vendor unit, not
    // Microsoft's, and its descriptor advertises selectors 10 and 11.
    let vendor = ctrl(10, 11, vec![1]);
    assert_eq!(override_is_published(&asus, &vendor), Ok(()));
    // The automatic paths still refuse it, and that difference is the point:
    // a vendor control is reachable only when a person names it.
    assert!(
        !control_is_documented(&asus, &vendor),
        "a vendor unit must never be written without someone naming it"
    );

    // Microsoft's own unit is equally acceptable when named.
    assert_eq!(
        override_is_published(&asus, &ctrl(14, 6, vec![1; 9])),
        Ok(())
    );

    // A selector that unit does not advertise. Unit 14 publishes 6 and 9;
    // IR Torch (10) is not implemented on this module.
    assert_eq!(
        override_is_published(&asus, &ctrl(14, 10, vec![0; 4])),
        Err(OverrideRefusal::NotAdvertised {
            unit: 14,
            selector: 10
        })
    );

    // Unit 4 exists on the OTHER VideoControl function of the same physical
    // camera and advertises selector 10 there. Unit numbers are not
    // addresses, so from this interface it does not exist.
    assert_eq!(
        override_is_published(&asus, &ctrl(4, 10, vec![0; 4])),
        Err(OverrideRefusal::NoSuchUnit {
            unit: 4,
            seen: vec![11, 10, 14]
        })
    );

    // The shape someone types when they are guessing.
    assert!(matches!(
        override_is_published(&asus, &ctrl(3, 1, vec![255])),
        Err(OverrideRefusal::NoSuchUnit { .. })
    ));
}

#[test]
fn a_malformed_override_is_not_the_same_as_no_override() {
    let set = |s: &str| override_setting(Variable::Text(s.to_string()));

    assert_eq!(override_setting(Variable::NotPresent), OverrideSetting::Absent);
    assert_eq!(set("off"), OverrideSetting::Disabled);
    assert_eq!(set("  none  "), OverrideSetting::Disabled);
    assert_eq!(set(""), OverrideSetting::Absent, "an empty value is someone clearing it");
    assert_eq!(
        set("14:6:1,3,2"),
        OverrideSetting::Control(ctrl(14, 6, vec![1, 3, 2]))
    );

    for bad in [
        "4:6:1,3,bad,0,0,0,0,0,0",
        "4:6:",
        "4:6",
        "garbage",
        "4:6:1:2",
        "999:6:1",
    ] {
        assert!(
            matches!(set(bad), OverrideSetting::Malformed(_)),
            "{bad:?} must refuse, not fall through to the built-in table"
        );
    }
    // Set, and not text at all.
    assert!(matches!(
        override_setting(Variable::NotUnicode),
        OverrideSetting::Malformed(_)
    ));
}

#[test]
fn changing_the_override_does_not_report_the_earlier_answer() {
    let applied = OverrideDecision {
        payload: vec![1, 3, 2],
        applied: true,
    };
    assert_eq!(reuse(Some(&applied), &[1, 3, 2]), Reuse::Answer(true));
    assert_eq!(reuse(Some(&applied), &[1, 3, 1]), Reuse::RefuseChanged);
    // A shorter prefix is not the same bytes either.
    assert_eq!(reuse(Some(&applied), &[1, 3]), Reuse::RefuseChanged);
    assert_eq!(reuse(None, &[1, 3, 2]), Reuse::Decide);

    // A recorded refusal is reused just as firmly: retrying it every capture
    // is what the limiter exists to stop.
    let refused = OverrideDecision {
        payload: vec![1, 3, 2],
        applied: false,
    };
    assert_eq!(reuse(Some(&refused), &[1, 3, 2]), Reuse::Answer(false));
}

#[test]
fn every_refusal_says_which_control_and_why() {
    for (refusal, must_contain) in [
        (
            OverrideRefusal::NoSuchUnit {
                unit: 3,
                seen: vec![11, 10, 14],
            },
            vec!["3", "11, 10, 14"],
        ),
        (
            OverrideRefusal::NotAdvertised {
                unit: 14,
                selector: 10,
            },
            vec!["14", "10", "advertise"],
        ),
        (
            OverrideRefusal::WriteNotAccepted {
                unit: 14,
                selector: 6,
                info: 0x01,
            },
            vec!["14", "6", "0x01"],
        ),
        (
            OverrideRefusal::WrongLength {
                unit: 14,
                selector: 6,
                wants: 9,
                given: 3,
            },
            vec!["14", "6", "9 bytes", "3 given"],
        ),
        (
            OverrideRefusal::Unreadable {
                unit: 14,
                selector: 6,
                err: XuError::Unresponsive(libc::ETIMEDOUT),
            },
            vec!["14", "6", "did not answer"],
        ),
    ] {
        let msg = refusal.message();
        for needle in must_contain {
            assert!(
                msg.contains(needle),
                "{refusal:?} message missing {needle:?}: {msg}"
            );
        }
    }
}

#[test]
fn the_hint_that_offers_the_override_says_what_it_writes_to() {
    let msg = DiscoveryError::NoMicrosoftXu { seen: vec![1, 2] }.message(STORE);
    assert!(msg.contains("IRLUME_IR_EMITTER"), "{msg}");
    assert!(msg.contains("firmware"), "{msg}");
    assert!(msg.contains("#159"), "{msg}");
}

#[test]
fn the_derivation_reproduces_the_payload_validated_on_both_cameras() {
    let def = vec![1, 3, 1, 0, 0, 0, 0, 0, 0]; // D0, general purpose
    let max = vec![1, 3, 3, 0, 0, 0, 0, 0, 0]; // D0 | D1 supported
    let validated = vec![1, 3, 2, 0, 0, 0, 0, 0, 0]; // D1, face auth
    assert_eq!(face_auth_payload(&def, &max), Ok(validated.clone()));

    // And it is exactly what the built-in table carries for both.
    assert_eq!(known_control(0x3277, 0x0059).unwrap().payload, validated);
    assert_eq!(known_control(0x3443, 0xc803).unwrap().payload, validated);
}

#[test]
fn a_background_subtraction_interface_is_refused_not_selected() {
    let def = vec![1, 3, 1, 0, 0, 0, 0, 0, 0];
    let max_d2_only = [1, 3, 0b101, 0, 0, 0, 0, 0, 0]; // D0 | D2
    let err = face_auth_payload(&def, &max_d2_only).unwrap_err();
    assert!(err.contains("background subtraction"), "{err}");
    assert!(err.contains("D1"), "{err}");
}

#[test]
fn several_interfaces_advertising_alternating_illumination_are_all_selected() {
    let def = vec![2, 3, 1, 5, 1, 0, 0, 0, 0];
    let max = [2, 3, 0b011, 5, 0b011, 0, 0, 0, 0];
    assert_eq!(
        face_auth_payload(&def, &max),
        Ok(vec![2, 3, 0b010, 5, 0b010, 0, 0, 0, 0])
    );
}

#[test]
fn a_camera_contradicting_itself_gets_nothing_written() {
    let def = vec![1, 3, 1, 0, 0, 0, 0, 0, 0];

    // Both face-auth modes at once: the specification forbids it.
    assert!(face_auth_payload(&def, &[1, 3, 0b111, 0, 0, 0, 0, 0, 0]).is_err());
    // Neither face-auth mode, yet listed in GET_MAX.
    assert!(face_auth_payload(&def, &[1, 3, 0b001, 0, 0, 0, 0, 0, 0]).is_err());
    // Undefined bits.
    assert!(face_auth_payload(&def, &[1, 3, 0b1011, 0, 0, 0, 0, 0, 0]).is_err());
    // No interfaces at all.
    assert!(face_auth_payload(&def, &[0, 0, 0, 0, 0, 0, 0, 0, 0]).is_err());
    // More entries than the buffer can hold.
    assert!(face_auth_payload(&def, &[9, 3, 0b011, 0, 0, 0, 0, 0, 0]).is_err());
    // The same interface twice.
    let dup = vec![2, 3, 0b011, 3, 0b011, 0, 0, 0, 0];
    assert!(face_auth_payload(&[2, 3, 1, 3, 1, 0, 0, 0, 0], &dup).is_err());
    // Default and maximum describing different-sized controls.
    assert!(face_auth_payload(&[1, 3, 1], &[1, 3, 3, 0]).is_err());
    // A length that cannot hold whole entries.
    assert!(face_auth_payload(&[1, 3], &[1, 3]).is_err());
}

#[test]
fn the_derivation_never_introduces_an_interface_the_camera_did_not_list() {
    let def = vec![1, 3, 1, 0, 0, 0, 0, 0, 0];
    let max = vec![1, 3, 0b011, 0, 0, 0, 0, 0, 0];
    let out = face_auth_payload(&def, &max).unwrap();
    assert_eq!(out.len(), max.len());
    assert_eq!(out[0], max[0], "entry count comes from the camera");
    assert_eq!(out[1], max[1], "interface number comes from the camera");
    assert_eq!(
        out[2] & !max[2],
        0,
        "no bit is set that the camera did not offer"
    );
    assert!(out[3..].iter().all(|&b| b == 0), "unused bytes are zeroed");
}

#[test]
fn a_default_that_contradicts_the_maximum_is_refused() {
    let max = [1, 3, 0b011, 0, 0, 0, 0, 0, 0];

    // Default names a different interface than the maximum listed.
    assert!(face_auth_payload(&[1, 99, 1, 0, 0, 0, 0, 0, 0], &max).is_err());
    // Default lists a different number of interfaces.
    assert!(face_auth_payload(&[0, 0, 0, 0, 0, 0, 0, 0, 0], &max).is_err());
    assert!(face_auth_payload(&[2, 3, 1, 5, 1, 0, 0, 0, 0], &max).is_err());
    // Default carries a mode that is not one defined mode.
    assert!(face_auth_payload(&[1, 3, 0b011, 0, 0, 0, 0, 0, 0], &max).is_err());
    assert!(face_auth_payload(&[1, 3, 0b1000, 0, 0, 0, 0, 0, 0], &max).is_err());
    // Data past the interfaces either answer listed.
    assert!(face_auth_payload(&[1, 3, 1, 0, 0, 7, 0, 0, 0], &max).is_err());
    assert!(face_auth_payload(
        &[1, 3, 1, 0, 0, 0, 0, 0, 0],
        &[1, 3, 0b011, 0, 9, 0, 0, 0, 0]
    )
    .is_err());

    // The real pair from both cameras still works.
    assert_eq!(
        face_auth_payload(&[1, 3, 1, 0, 0, 0, 0, 0, 0], &max),
        Ok(vec![1, 3, 2, 0, 0, 0, 0, 0, 0])
    );
}

#[test]
fn ir_torch_resolution_is_validated() {
    let min = torch(0, 10);
    let max = torch(0b011, 210);
    let res = torch(0, 10); // span 200 divides by 10; default 110 is on grid
    assert_eq!(
        ir_torch_default_is_usable(&torch(2, 110), &min, &max, &res),
        Ok(())
    );

    // A zero step is forbidden outright.
    assert!(ir_torch_default_is_usable(&torch(2, 110), &min, &max, &torch(0, 0)).is_err());
    // The resolution's mode field is specified as zero.
    assert!(ir_torch_default_is_usable(&torch(2, 110), &min, &max, &torch(2, 10)).is_err());
    // A span that does not divide evenly by the step.
    assert!(ir_torch_default_is_usable(&torch(2, 110), &min, &max, &torch(0, 30)).is_err());
    // A default that does not sit on the grid.
    assert!(ir_torch_default_is_usable(&torch(2, 115), &min, &max, &res).is_err());
    // A resolution of the wrong length.
    assert!(ir_torch_default_is_usable(&torch(2, 110), &min, &max, &[0u8; 4]).is_err());
}

#[test]
fn discovery_measures_change_not_absolute_brightness() {
    // A dim room: emitter off is nearly black, emitter on is well under the
    // authentication floor, but the control plainly did something.
    let baseline = 2.0f32;
    let lit = 25.0f32;
    assert!(lit < (IR_LIT_MEAN as f32), "this is the case that used to fail");
    assert!(
        lit >= baseline + AUTOCONF_MIN_LIFT as f32,
        "a clear lift is what discovery is looking for"
    );

    // Ambient infrared with no real change must still be rejected.
    let bright_ambient = 120.0f32;
    assert!(bright_ambient + 5.0 < bright_ambient + (AUTOCONF_MIN_LIFT as f32));
}

#[test]
fn ir_torch_default_is_an_active_mode_so_it_cannot_be_an_off_state() {
    let min = torch(0, 10);
    let max = torch(0b011, 200);
    let res = torch(0, 10);

    // The validator only accepts an active default...
    assert_eq!(
        ir_torch_default_is_usable(&torch(2, 100), &min, &max, &res),
        Ok(())
    );
    // ...and rejects an off one outright.
    assert!(ir_torch_default_is_usable(&torch(0, 100), &min, &max, &res).is_err());
    assert!(ir_torch_default_is_usable(&torch(1, 100), &min, &max, &res).is_err());

    // Which is exactly why nothing may treat GET_DEF as "off": for this
    // control the specification guarantees the opposite.
}

#[test]
fn a_control_already_at_the_target_value_is_reported_not_retried() {
    let already = vec![1u8, 3, 2, 0, 0, 0, 0, 0, 0];
    let wanted = face_auth_payload(
        &[1, 3, 1, 0, 0, 0, 0, 0, 0],
        &[1, 3, 0b011, 0, 0, 0, 0, 0, 0],
    )
    .unwrap();
    assert_eq!(
        already, wanted,
        "the state a working camera is already in is what setup would write"
    );
}

// --- records, overrides and scans ------------------------------------------------------------

#[test]
fn the_emitter_write_marker_matches_what_ci_greps_for() {
    assert_eq!(
        activation_report(Some(Applied::Wrote)),
        "irlume: capture emitter write completed"
    );
    for other in [Some(Applied::AlreadyHeld), Some(Applied::Nothing), None] {
        assert!(!activation_report(other).contains("write completed"));
    }
}

#[test]
fn a_persisted_control_is_bound_to_the_camera_it_was_found_on() {
    let asus = identity(0x3277, 0x0059);
    let other = identity(0x046d, 0x085e);
    let found = ctrl(14, 6, vec![1, 3, 2]);

    let conf = conf_text(&asus, &found);
    assert_eq!(
        conf, "3277:0059 14:6",
        "the file records which camera and which control, and no payload"
    );
    assert_eq!(recorded_control(&conf, &asus), Some((14, 6)));
    assert_eq!(recorded_control(&conf, &other), None);

    for refused in [
        // No identity, with or without a second line.
        "14:6:1,3,2",
        "4:13:1,3,2,0\n4:9:255,255",
        // Focus and metadata are no emitter controls.
        "3277:0059 14:1",
        "3277:0059 14:9",
        // A stamped file that still carries a payload.
        "3277:0059 14:6:1,3,2",
        "",
    ] {
        assert_eq!(recorded_control(refused, &asus), None, "{refused:?}");
    }
    assert_eq!(recorded_control("3277:0059 14:10", &asus), Some((14, 10)));
    assert_eq!(
        recorded_control("  3277:0059   0x0e : 6 \r\nnoise", &asus),
        Some((14, 6))
    );
}

#[test]
fn hexadecimal_stamps_are_read_in_either_case() {
    let camera = identity(0xabcd, 0xef01);
    assert_eq!(camera.usb_id(), "abcd:ef01");
    assert_eq!(recorded_control("ABCD:EF01 14:6", &camera), Some((14, 6)));
}

#[test]
fn bytes_are_read_as_they_are_written_down() {
    assert_eq!(parse_u8(" 0x1F "), Some(31));
    assert_eq!(parse_u8("+7"), Some(7));
    assert_eq!(parse_u8("255"), Some(255));
    for wrong in ["", "+", "-1", "256", "0x", "0x100", "1 2"] {
        assert_eq!(parse_u8(wrong), None, "{wrong:?}");
    }
}

#[test]
fn a_control_without_a_payload_does_not_read_back() {
    let bare = ctrl(14, 6, Vec::new());
    assert_eq!(bare.encode(), "14:6:");
    assert_eq!(parse_control(&bare.encode()), None);
    let all: Vec<u8> = (0..=255).collect();
    let full = ctrl(255, 0, all);
    assert_eq!(parse_control(&full.encode()), Some(full));
}

#[test]
fn a_malformed_override_says_what_it_was_set_to() {
    match override_setting(Variable::Text("  4:6: ".into())) {
        OverrideSetting::Malformed(why) => assert_eq!(
            why,
            "is set to \"4:6:\", which is not unit:selector:bytes, so nothing was driven; unset \
             it to use the camera's own control"
        ),
        other => panic!("{other:?}"),
    }
    assert!(emitter_explicitly_disabled(Variable::Text("off".into())));
    assert!(!emitter_explicitly_disabled(Variable::Text("on".into())));
    assert!(!emitter_explicitly_disabled(Variable::NotPresent));
}

#[test]
fn an_unresolved_record_stops_every_source_a_capture_could_write_from() {
    let id = identity(0x3277, 0x0059);
    let conf = format!("{} 14:6", id.usb_id());
    let blocked = [
        RecoveryOutcome::Unresolved("3 attempts did not take".into()),
        RecoveryOutcome::OwnerStillRunning { pid: 4321 },
    ];
    for recovery in &blocked {
        assert_eq!(
            planned_action(recovery, Some(ctrl(14, 6, vec![1, 3, 2])), &id, None),
            CaptureAction::Nothing,
            "override under {recovery:?}"
        );
        assert_eq!(
            planned_action(&RecoveryOutcome::NothingPending, None, &id, Some(&conf)),
            CaptureAction::DeviceDefault {
                unit: 14,
                selector: 6
            },
            "the recorded branch must be reachable, or the next assertion proves nothing"
        );
        assert_eq!(
            planned_action(recovery, None, &id, Some(&conf)),
            CaptureAction::Nothing,
            "recorded control under {recovery:?}"
        );
        assert!(matches!(
            planned_action(&RecoveryOutcome::NothingPending, None, &id, None),
            CaptureAction::KnownPayload(_)
        ));
        assert_eq!(
            planned_action(recovery, None, &id, None),
            CaptureAction::Nothing,
            "built-in control under {recovery:?}"
        );
    }
}

#[test]
fn an_undocumented_record_falls_through_to_the_built_in_table() {
    let id = identity(0x3277, 0x0059);
    // The torch is not advertised by this module.
    let action = planned_action(
        &RecoveryOutcome::NothingPending,
        None,
        &id,
        Some("3277:0059 14:10"),
    );
    assert_eq!(action.coordinates(), Some((14, 6)));
    let stranger = identity(0x046d, 0x085e);
    let action = planned_action(&RecoveryOutcome::NothingPending, None, &stranger, None);
    assert_eq!(action, CaptureAction::Nothing);
    assert_eq!(action.coordinates(), None);
}

#[test]
fn the_record_identifies_the_open_device_and_the_bytes_it_decided() {
    let id = identity(0x3277, 0x0059);
    let ka = override_key(7, &id, &ctrl(14, 6, vec![1; 9]));
    let kb = override_key(7, &id, &ctrl(14, 6, vec![1; 9]));
    assert_eq!(ka, kb, "the same device reached twice must be one record");
    let kz = override_key(8, &id, &ctrl(14, 6, vec![1; 9]));
    assert_ne!(
        ka, kz,
        "two different devices were recorded as the same camera"
    );
    let kc = override_key(7, &id, &ctrl(14, 9, vec![1; 9]));
    assert_ne!(ka, kc);
    let kd = override_key(7, &id, &ctrl(14, 6, vec![2; 9]));
    assert_eq!(ka, kd);
}

#[test]
fn a_decision_is_kept_for_its_control_alone() {
    let id = identity(0x3277, 0x0059);
    let key = override_key(7, &id, &ctrl(14, 6, vec![1]));
    let other = override_key(7, &id, &ctrl(14, 9, vec![1]));
    let mut memo = OverrideMemo::new();
    assert_eq!(memo.consult(key, &[1]), Reuse::Decide);
    memo.settle(key, &[1], true);
    memo.settle(key, &[2], false);
    assert_eq!(memo.consult(key, &[1]), Reuse::Answer(true));
    assert_eq!(memo.consult(key, &[2]), Reuse::RefuseChanged);
    assert_eq!(memo.consult(other, &[1]), Reuse::Decide);
    memo.settle(other, &[1], false);
    assert_eq!(memo.consult(other, &[1]), Reuse::Answer(false));
    assert_eq!(memo.consult(key, &[1]), Reuse::Answer(true));
}

fn process(name: &str, comm: Option<&str>, targets: &[&str]) -> ProcessEntry {
    ProcessEntry {
        name: name.to_string(),
        links: Links::Listed(targets.iter().map(|t| Link::To(t.to_string())).collect()),
        comm: comm.map(str::to_string),
    }
}

#[test]
fn foreign_consumers_finds_other_processes_holding_the_node() {
    let tree = ProcessTree::Listed(vec![
        process("100", Some("irlumed\n"), &["/dev/video2"]),
        process("200", Some("cheese\n"), &["/dev/null", "/dev/video2"]),
        process("300", Some("other\n"), &["/dev/video20"]),
        process("400", None, &["/dev/video2"]),
        process("sys", None, &["/dev/video2"]),
    ]);
    let scan = foreign_consumers(&tree, "/dev/video2", 100);
    assert_eq!(
        scan,
        ConsumerScan {
            consumers: vec![(200, "cheese".to_string()), (400, "?".to_string())],
            permission_denied: false,
        }
    );
    assert!(scan.stands_down());
    assert_eq!(scan.holders(), ["cheese(200)", "?(400)"]);
}

#[test]
fn foreign_consumers_fails_open_on_missing_or_odd_trees() {
    let missing = ProcessTree::Unreadable { denied: false };
    assert_eq!(
        foreign_consumers(&missing, "/dev/video2", 1),
        ConsumerScan::nothing()
    );
    let tree = ProcessTree::Listed(vec![process("200", None, &[""])]);
    assert_eq!(foreign_consumers(&tree, "", 1), ConsumerScan::nothing());
    let denied = ProcessTree::Unreadable { denied: true };
    assert!(foreign_consumers(&denied, "/dev/video2", 1).permission_denied);
}

#[test]
fn an_unlistable_fd_dir_marks_the_scan_incomplete_not_empty() {
    let entry = |denied| ProcessEntry {
        name: "300".into(),
        links: Links::Unreadable { denied },
        comm: None,
    };
    let scan = foreign_consumers(&ProcessTree::Listed(vec![entry(true)]), "/dev/video2", 1);
    assert!(scan.permission_denied && !scan.stands_down());
    // A process that vanished is no blind spot.
    let scan = foreign_consumers(&ProcessTree::Listed(vec![entry(false)]), "/dev/video2", 1);
    assert_eq!(scan, ConsumerScan::nothing());
}

#[test]
fn a_denied_readlink_marks_the_scan_incomplete() {
    let links = |list| {
        ProcessTree::Listed(vec![ProcessEntry {
            name: "300".into(),
            links: Links::Listed(list),
            comm: Some("x".into()),
        }])
    };
    let denied = Link::Unreadable { denied: true };
    let held = Link::To("/dev/video2".to_string());
    let scan = foreign_consumers(&links(vec![denied.clone(), held.clone()]), "/dev/video2", 1);
    assert!(scan.permission_denied && scan.stands_down());
    // Nothing behind the first hit is looked at.
    let scan = foreign_consumers(&links(vec![held, denied]), "/dev/video2", 1);
    assert!(!scan.permission_denied && scan.stands_down());
}

#[test]
fn units_are_described_one_line_each() {
    let lines = describe_units(&identity(1, 2).units);
    assert_eq!(
        lines,
        [
            "unit 11 (vendor-defined; irlume will not write to it): advertises [0x01, 0x02]",
            "unit 10 (vendor-defined; irlume will not write to it): advertises [0x0a, 0x0b]",
            "unit 14 (Microsoft camera control): advertises [0x06, 0x09]",
        ]
    );
}

#[test]
fn a_noted_signal_asks_to_stop_and_is_handed_back() {
    assert!(!abort_requested(0));
    assert!(abort_requested(15));
    assert_eq!(pending_signal(0), None);
    assert_eq!(pending_signal(15), Some(15));
}

#[test]
fn requests_carry_the_codes_of_the_specification() {
    assert_eq!(uvcioc_ctrl_query(16), 0xc010_7521);
    assert_eq!(length_of(0x09, 0x01), 265);
    let codes = [
        ControlQuery::Current,
        ControlQuery::Minimum,
        ControlQuery::Maximum,
        ControlQuery::Resolution,
        ControlQuery::Default,
    ]
    .map(ControlQuery::code);
    assert_eq!(codes, [0x81, 0x82, 0x83, 0x84, 0x87]);
}

#[test]
fn a_failed_request_is_worded_by_the_system() {
    assert_eq!(XuError::Unsupported.message(), "control not supported");
    let dead = XuError::Unresponsive(libc::ETIMEDOUT);
    assert_eq!(
        dead.message_with("no answer"),
        "camera did not answer (no answer)"
    );
    let message = dead.message();
    assert!(message.starts_with("camera did not answer ("), "{message}");
    assert!(message.contains(&libc::ETIMEDOUT.to_string()), "{message}");
    assert_eq!(XuError::from_errno(libc::EACCES), XuError::Unsupported);
    assert_eq!(XuError::from_errno(libc::EPERM), XuError::Unsupported);
}

#[test]
fn every_faulty_face_authentication_answer_is_named() {
    let max = [1, 3, 0b011, 0, 0];
    for (def, max, why) in [
        (vec![1, 3, 1], max.to_vec(), "its maximum is 5 bytes and its default is 3; they describe the same control and must match"),
        (vec![1, 3, 1, 0], vec![1, 3, 3, 0], "a 4-byte payload cannot hold whole entries"),
        (vec![1, 3, 1, 0, 0], vec![0, 3, 3, 0, 0], "it advertises no interface capable of face authentication"),
        (vec![1, 3, 1, 0, 0], vec![3, 3, 3, 0, 0], "it claims 3 entries, which does not fit in 5 bytes"),
        (vec![3, 3, 1, 0, 0], max.to_vec(), "its default claims more entries than it can hold"),
        (vec![2, 3, 1, 0, 0], max.to_vec(), "it lists 1 interfaces at maximum but 2 by default"),
        (vec![1, 3, 1, 0, 0], vec![1, 3, 0x13, 0, 0], "interface 3 advertises flags 0x13, which sets bits the specification does not define"),
        (vec![1, 3, 1, 0, 0], vec![1, 3, 1, 0, 0], "interface 3 advertises 0x01, which is not exactly one face-authentication mode"),
        (vec![2, 3, 1, 3, 1], vec![2, 3, 3, 3, 3], "interface 3 is listed more than once"),
        (vec![1, 4, 1, 0, 0], max.to_vec(), "its default names interface 4 where its maximum names 3"),
        (vec![1, 3, 3, 0, 0], max.to_vec(), "interface 3 has a default mode of 0x03, which is not one defined mode"),
        (vec![1, 3, 1, 0, 9], max.to_vec(), "it reports data past the interfaces it listed"),
    ] {
        assert_eq!(face_auth_payload(&def, &max), Err(why.to_string()));
    }
}

#[test]
fn every_faulty_torch_answer_is_named() {
    let (min, max, res) = (torch(0, 10), torch(0b011, 210), torch(0, 10));
    for (def, min, max, res, why) in [
        (vec![0; 4], min.clone(), max.clone(), res.clone(), "the camera reported an default of 4 bytes; IR Torch is defined as 8"),
        (torch(2, 20), vec![], max.clone(), res.clone(), "the camera reported an minimum of 0 bytes; IR Torch is defined as 8"),
        (torch(2, 20), min.clone(), vec![1], res.clone(), "the camera reported an maximum of 1 bytes; IR Torch is defined as 8"),
        (torch(2, 20), min.clone(), max.clone(), vec![1], "the camera reported an resolution of 1 bytes; IR Torch is defined as 8"),
        (torch(0, 20), min.clone(), max.clone(), res.clone(), "its default mode is 0, and the specification requires 2 (on) or 4 (alternating)"),
        (torch(2, 20), min.clone(), torch(0b010, 210), res.clone(), "the camera does not report the off mode, so its capabilities are malformed"),
        (torch(2, 20), min.clone(), torch(0x8000_0003, 210), res.clone(), "its capability bitmap 0x80000003 sets bits the specification does not define"),
        (torch(2, 20), torch(1, 10), max.clone(), res.clone(), "its reported minimum mode is 1, and the specification requires 0"),
        (torch(4, 20), min.clone(), max.clone(), res.clone(), "its default mode 4 is not among the modes it says it supports (0x3)"),
        (torch(2, 20), torch(0, 300), max.clone(), res.clone(), "its reported power range is inverted (300 to 210)"),
        (torch(2, 5), min.clone(), max.clone(), res.clone(), "its default power 5 is outside the range it reports (10 to 210)"),
        (torch(2, 20), min.clone(), max.clone(), torch(1, 10), "its reported resolution mode is 1, and the specification requires 0"),
        (torch(2, 20), min.clone(), max.clone(), torch(0, 0), "it reports a power step of zero, which the specification forbids"),
        (torch(2, 20), min.clone(), max.clone(), torch(0, 30), "its power range 10 to 210 does not divide evenly by its step 30"),
        (torch(2, 25), min.clone(), max.clone(), res.clone(), "its default power 25 does not sit on its own step grid of 10"),
    ] {
        assert_eq!(
            ir_torch_default_is_usable(&def, &min, &max, &res),
            Err(why.to_string())
        );
    }
}

#[test]
fn whatever_stops_a_capture_stops_setup_too() {
    for outcome in [
        RecoveryOutcome::NothingPending,
        RecoveryOutcome::RestoredRecordKept("x".into()),
        RecoveryOutcome::Busy,
        RecoveryOutcome::Unresolved("x".into()),
        RecoveryOutcome::Unchecked("x".into()),
    ] {
        assert!(outcome.permits_capture_write() || outcome.blocks_discovery());
        let only_setup = outcome.permits_capture_write() && outcome.blocks_discovery();
        assert_eq!(
            only_setup,
            matches!(outcome, RecoveryOutcome::RestoredRecordKept(_))
        );
    }
    assert_eq!(RecoveryOutcome::Busy.kind(), "busy");
    assert_eq!(
        RecoveryOutcome::Restored {
            unit: 14,
            selector: 6
        }
        .message(STORE)
        .expect("told"),
        "irlume: an interrupted emitter setup had left unit 14 selector 6 changed; put it back to \
         the value the camera reported before that run"
    );
}

#[test]
fn every_setup_error_has_its_own_sentence() {
    let errors = [
        DiscoveryError::Descriptors("EIO".into()),
        DiscoveryError::NoMicrosoftXu { seen: vec![4, 7] },
        DiscoveryError::NoUsableControl {
            unit: 14,
            tried: vec!["a".into(), "b".into()],
        },
        DiscoveryError::MeasurementFailed,
        DiscoveryError::CameraBusy,
        DiscoveryError::UnresolvedChange,
        DiscoveryError::JournalUnwritable("full".into()),
        DiscoveryError::WriteRefused("shut".into()),
    ];
    let mut sentences: Vec<String> = errors.iter().map(|e| e.message(STORE)).collect();
    assert_eq!(
        sentences[2],
        "unit 14 advertises no usable emitter control (a; b)"
    );
    assert!(sentences[5].contains(STORE));
    sentences.sort();
    sentences.dedup();
    assert_eq!(sentences.len(), errors.len());
}

#[test]
fn a_malformed_override_is_quoted() {
    assert_eq!(
        malformed_text("\"4:6:\""),
        "is set to \"4:6:\", which is not unit:selector:bytes, so nothing was driven; unset it to \
         use the camera's own control"
    );
    assert_eq!(
        override_setting(Variable::Text(" a\tb ".into())),
        OverrideSetting::Malformed(malformed_text("\"a\\tb\""))
    );
}
