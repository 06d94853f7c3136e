use irlume_camera::ir_dark;
use irlume_camera::ir_dark::{
    diagnose, DarkEvidence, IrDarkCause, DARK_MEAN_MAX, SATURATED_FLAT_MAX, SATURATED_MIN_MEAN,
};
use irlume_camera::reading::Reading;

fn at(value: f64) -> Reading {
    Reading::from_bits(value.to_bits())
}

/// The line for a cause, with the figures shown as the capture path shows them.
fn render(card: &str, mean: f64, cause: &IrDarkCause) -> Option<String> {
    let figure = match cause {
        IrDarkCause::SaturatedFlat { stddev, .. } => format!("{:.2}", f64::from_bits(stddev.bits)),
        IrDarkCause::LitBurstDarkChoice { burst_max_mean } => {
            format!("{:.0}", f64::from_bits(burst_max_mean.bits))
        }
        _ => String::new(),
    };
    ir_dark::render(card, &format!("{mean:.0}"), &figure, cause)
}

fn textured_dark() -> DarkEvidence {
    DarkEvidence {
        emitter_active: false,
        emitter_disabled: false,
        privacy_engaged: false,
        frames_lit: 0,
        frames_classified: 0,
        frame_mean: at(20.0),
        frame_stddev: at(40.0),
        // As dark as the chosen frame: a whole-burst-dark baseline, so
        // each existing arm stays reachable (a bright maximum would route
        // every case into LitBurstDarkChoice by design).
        burst_max_mean: at(20.0),
    }
}

#[test]
fn a_lit_burst_with_a_dark_choice_names_selection_not_the_emitter() {
    let brio = DarkEvidence {
        frame_mean: at(34.0),
        burst_max_mean: at(128.0),
        ..textured_dark()
    };
    assert_eq!(
        diagnose(&brio),
        Some(IrDarkCause::LitBurstDarkChoice {
            burst_max_mean: at(128.0)
        })
    );
    let line = render("Logitech BRIO", 34.0, &diagnose(&brio).unwrap()).unwrap();
    assert!(line.contains("emitter works"), "{line}");
    assert!(
        !line.contains("ir-setup"),
        "must not point at firmware: {line}"
    );

    // Direct optical evidence outranks the metadata arms too: a bright
    // frame refutes "ignored control" as surely as "no emitter".
    assert_eq!(
        diagnose(&DarkEvidence {
            frames_lit: 3,
            frames_classified: 8,
            burst_max_mean: at(90.0),
            ..textured_dark()
        }),
        Some(IrDarkCause::LitBurstDarkChoice {
            burst_max_mean: at(90.0)
        })
    );
    // But the shutter still wins: an engaged privacy control explains a
    // dark choice regardless of what earlier frames held.
    assert_eq!(
        diagnose(&DarkEvidence {
            privacy_engaged: true,
            burst_max_mean: at(128.0),
            ..textured_dark()
        }),
        Some(IrDarkCause::PrivacyEngaged)
    );
    // And a burst that is dark END TO END (the BRIO's pre-strobe warm-up
    // window) keeps the emitter diagnosis: there is no optical evidence
    // to refute it with.
    assert_eq!(
        diagnose(&DarkEvidence {
            frame_mean: at(16.0),
            burst_max_mean: at(24.0),
            ..textured_dark()
        }),
        Some(IrDarkCause::NoEmitterDriven)
    );
}

/// Each cause is reachable, and the precedence follows evidence
/// specificity: a positive shutter reading beats everything, the camera
/// saying "fired" beats inference, a flat frame beats metadata absence.
#[test]
fn each_cause_is_reachable_and_ordered_by_evidence() {
    assert_eq!(
        diagnose(&DarkEvidence {
            privacy_engaged: true,
            frames_lit: 3,
            ..textured_dark()
        }),
        Some(IrDarkCause::PrivacyEngaged),
        "an engaged shutter outranks even a lit flag"
    );
    assert_eq!(
        diagnose(&DarkEvidence {
            frames_lit: 3,
            frames_classified: 8,
            frame_stddev: at(0.0),
            frame_mean: at(10.0),
            ..textured_dark()
        }),
        Some(IrDarkCause::LitButDark {
            frames_lit: 3,
            frames_classified: 8
        }),
        "the camera saying FIRED outranks the flat-frame inference"
    );
    assert_eq!(
        diagnose(&DarkEvidence {
            emitter_active: true,
            frames_classified: 8,
            ..textured_dark()
        }),
        Some(IrDarkCause::ActiveButNotReported {
            frames_classified: 8
        }),
    );
    assert_eq!(
        diagnose(&DarkEvidence {
            emitter_disabled: true,
            ..textured_dark()
        }),
        Some(IrDarkCause::EmitterDisabled),
    );
    assert_eq!(
        diagnose(&textured_dark()),
        Some(IrDarkCause::NoEmitterDriven)
    );
    let off = diagnose(&DarkEvidence {
        emitter_active: false,
        emitter_disabled: true,
        privacy_engaged: true,
        frames_lit: 8,
        frames_classified: 8,
        frame_mean: at(20.0),
        frame_stddev: at(0.0),
        // A bright maximum too: `off` must silence even the optical arm.
        burst_max_mean: at(128.0),
    })
    .expect("a dark burst under off still resolves, to a silent cause");
    assert_eq!(off, IrDarkCause::EmitterDisabled);
    assert!(render("cam", 20.0, &off).is_none());
    assert_eq!(
        diagnose(&DarkEvidence {
            emitter_active: true,
            ..textured_dark()
        }),
        Some(IrDarkCause::Undetermined),
        "active control, no metadata, real signal: the honest answer is no answer"
    );
}

#[test]
fn scenes_are_not_diagnosed() {
    assert_eq!(
        diagnose(&DarkEvidence {
            frame_mean: at(100.0),
            ..textured_dark()
        }),
        None,
        "a mid-brightness textured frame is a scene"
    );
    assert_eq!(
        diagnose(&DarkEvidence {
            frame_mean: at(252.0),
            frame_stddev: at(40.0),
            emitter_active: true,
            frames_lit: 5,
            frames_classified: 10,
            ..textured_dark()
        }),
        None,
        "a saturated frame WITH texture is a close subject, not a cover"
    );
    // Off is silent for scenes too, and resolves for both covered bands.
    assert_eq!(
        diagnose(&DarkEvidence {
            emitter_disabled: true,
            frame_mean: at(100.0),
            ..textured_dark()
        }),
        None
    );
    // Flat at MID brightness is unmeasured territory: neither band claims
    // it (the 144 shutter blank never reaches capture on cameras with a
    // privacy control, and no other mid-flat source has been measured).
    // This row pins the saturated floor at its measured height.
    assert_eq!(
        diagnose(&DarkEvidence {
            frame_mean: at(200.0),
            frame_stddev: at(0.5),
            ..textured_dark()
        }),
        None
    );
}

#[test]
fn the_measured_covers_are_named_and_off_still_silences_them() {
    for (mean, sd) in [(255.0, 0.0), (252.8, 0.76), (254.7, 3.63)] {
        let cause = diagnose(&DarkEvidence {
            frame_mean: at(mean),
            frame_stddev: at(sd),
            emitter_active: true,
            frames_lit: 5,
            frames_classified: 10,
            ..textured_dark()
        })
        .unwrap_or_else(|| panic!("covered at mean {mean} stddev {sd} must be named"));
        assert_eq!(
            cause,
            IrDarkCause::SaturatedFlat {
                stddev: at(sd),
                frames_lit: 5,
                frames_classified: 10
            }
        );
        let msg = render("cam", mean, &cause).expect("the cover speaks");
        assert!(msg.contains("saturated and nearly constant"), "{msg}");
        assert!(
            !msg.contains("ir-setup"),
            "no firmware advice for a cover: {msg}"
        );
        assert!(
            msg.contains("bouncing the emitter"),
            "lit flags support the mechanism: {msg}"
        );
    }
    {
        let msg = render(
            "cam",
            255.0,
            &IrDarkCause::SaturatedFlat {
                stddev: at(0.0),
                frames_lit: 0,
                frames_classified: 0,
            },
        )
        .expect("still speaks");
        assert!(!msg.contains("bouncing the emitter"), "{msg}");
        assert!(!msg.contains("marked illuminated"), "{msg}");
    }
    assert_eq!(
        diagnose(&DarkEvidence {
            emitter_disabled: true,
            frame_mean: at(255.0),
            frame_stddev: at(0.0),
            ..textured_dark()
        }),
        Some(IrDarkCause::EmitterDisabled),
        "off silences the saturated band too"
    );
}

/// Near-zero flatness is what clean darkness looks like (measured mean
/// 0.0 at stddev 0.08-0.13 on both cameras), so it falls through to the
/// emitter causes instead of claiming a cover; the informative flat band
/// (the 144 shutter blank) still names one.
#[test]
fn near_zero_flat_is_darkness_not_a_cover() {
    assert_eq!(
        diagnose(&DarkEvidence {
            frame_mean: at(0.0),
            frame_stddev: at(0.1),
            ..textured_dark()
        }),
        Some(IrDarkCause::NoEmitterDriven),
        "a flat zero frame with no emitter is a dark room, and ir-setup is right"
    );
    assert_eq!(
        diagnose(&DarkEvidence {
            frame_mean: at(0.0),
            frame_stddev: at(0.1),
            emitter_active: true,
            frames_classified: 10,
            ..textured_dark()
        }),
        Some(IrDarkCause::ActiveButNotReported {
            frames_classified: 10
        }),
    );
    assert_eq!(
        diagnose(&DarkEvidence {
            frame_mean: at(20.0),
            frame_stddev: at(0.0),
            ..textured_dark()
        }),
        Some(IrDarkCause::NoEmitterDriven),
        "a dark flat frame carries no measured cover signature (#198 review: \
         the only measured dark-band blank never reaches capture), so the \
         emitter causes answer"
    );
}

#[test]
fn disabled_renders_nothing_and_ir_setup_is_advised_only_where_it_helps() {
    assert!(render("cam", 20.0, &IrDarkCause::EmitterDisabled).is_none());
    for (cause, wants_setup) in [
        (IrDarkCause::NoEmitterDriven, true),
        (
            IrDarkCause::LitButDark {
                frames_lit: 3,
                frames_classified: 8,
            },
            false,
        ),
        (IrDarkCause::PrivacyEngaged, false),
        (
            IrDarkCause::SaturatedFlat {
                stddev: at(0.0),
                frames_lit: 5,
                frames_classified: 10,
            },
            false,
        ),
    ] {
        let msg = render("cam", 20.0, &cause).expect("these causes all speak");
        assert_eq!(
            msg.contains("run `sudo irlume ir-setup` to find"),
            wants_setup,
            "ir-setup discovery advice on the wrong cause sends a user to write \
             firmware for a problem that is not there: {msg}"
        );
    }
}

#[test]
fn lit_metadata_does_not_claim_measured_optical_output() {
    let msg = render(
        "cam",
        20.0,
        &IrDarkCause::LitButDark {
            frames_lit: 3,
            frames_classified: 8,
        },
    )
    .unwrap();
    assert!(msg.contains("captured with illumination on"), "{msg}");
    assert!(msg.contains("does not measure optical output"), "{msg}");
    assert!(!msg.contains("light is leaving"), "{msg}");
    assert!(!msg.contains("will not help"), "{msg}");
}

#[test]
fn the_bands_are_where_they_were_measured() {
    assert_eq!(f64::from_bits(DARK_MEAN_MAX), 35.0);
    assert_eq!(f64::from_bits(SATURATED_MIN_MEAN), 250.0);
    assert_eq!(f64::from_bits(SATURATED_FLAT_MAX), 8.0);
}

#[test]
fn the_lines_name_the_card_and_the_figures() {
    assert_eq!(
        render("a \"cam\"", 20.4, &IrDarkCause::NoEmitterDriven).expect("speaks"),
        "[ir] \"a \\\"cam\\\"\": IR is dark (mean 20) with no active emitter; run `sudo irlume \
         ir-setup` to find this camera's emitter control from what it publishes \
         (IRLUME_IR_EMITTER=off silences this)"
    );
}

#[test]
fn readings_compare_as_numbers_do() {
    for (a, b) in [(1.0, 2.0), (-1.0, 1.0), (-3.0, -2.0), (0.0, -0.0), (f64::NAN, 1.0)] {
        assert_eq!(at(a).is_above(&at(b)), a > b);
        assert_eq!(at(b).is_above(&at(a)), b > a);
        assert_eq!(at(a).is_at_least(&at(b)), a >= b);
        assert_eq!(at(a).is_equal(&at(b)), a == b);
    }
}

#[test]
fn a_camera_is_named_in_quotes() {
    let expected = "[ir] \"a \\\"cam\\\"\": IR is dark because the privacy shutter is engaged (the \
                    `privacy` control reads 1); release it. No emitter problem is in evidence.";
    let cause = IrDarkCause::PrivacyEngaged;
    assert_eq!(
        ir_dark::render("a \"cam\"", "12", "", &cause).as_deref(),
        Some(expected)
    );
    assert_eq!(
        ir_dark::render_quoted("\"a \\\"cam\\\"\"", "12", "", &cause).as_deref(),
        Some(expected)
    );
}
