//! Why an IR burst is not a usable scene, named from evidence, not guessed.
//!
//! A dark IR frame has several causes, and advice that fits one of them sends the user of
//! another to write to camera firmware for a problem that is not there. The most common cover
//! case is not dark at all: an opaque cover under an active emitter reflects it straight back
//! and saturates the sensor.
//!
//! The decision is a pure function over plain evidence, and the renderer returns the full
//! message, so wording and advice stay in one place.
use vstd::prelude::*;
use crate::reading::Reading;
use crate::text::{debug_quoted, decimal, push_decimal, quoted};

verus! {

/// The dark gate, 35: below this mean a burst is dark and gets a diagnosis.
pub const DARK_MEAN_MAX: u64 = 0x4041_8000_0000_0000;

/// At or above this mean, 250, the frame is treated as saturated.
pub const SATURATED_MIN_MEAN: u64 = 0x406f_4000_0000_0000;

/// A saturated frame at or below this spread, 8, is a constant, not a scene.
pub const SATURATED_FLAT_MAX: u64 = 0x4020_0000_0000_0000;

/// What the capture path observed about a dark burst. Every field is a plain
/// value so [`diagnose`] stays pure.
#[derive(Debug, Clone, Copy, PartialEq, Eq, Structural)]
pub struct DarkEvidence {
    /// The emitter control is active for this stream.
    pub emitter_active: bool,
    /// The user told irlume to drive nothing.
    pub emitter_disabled: bool,
    /// The V4L2 privacy control read engaged. `false` covers released, absent
    /// and unreadable alike: only a positive reading is evidence of a cause.
    pub privacy_engaged: bool,
    /// Burst frames the camera's illumination metadata flagged lit.
    pub frames_lit: usize,
    /// Burst frames carrying any illumination metadata at all.
    pub frames_classified: usize,
    /// Mean of the chosen frame.
    pub frame_mean: Reading,
    /// Pixel standard deviation of the chosen frame.
    pub frame_stddev: Reading,
    /// Mean of the brightest frame in the burst.
    pub burst_max_mean: Reading,
}

/// The named cause of a dark IR burst, most specific evidence first.
#[derive(Debug, Clone, Copy, PartialEq, Eq, Structural)]
pub enum IrDarkCause {
    /// The privacy control reads engaged: the sensor is blanked by the shutter.
    PrivacyEngaged,
    /// The frame is saturated and nearly constant, as under an opaque cover directly in front of
    /// the active emitter. A saturated frame with texture is a scene, and gets no diagnosis.
    SaturatedFlat { stddev: Reading, frames_lit: usize, frames_classified: usize },
    /// The camera marked frames as captured with illumination on, yet the
    /// image stayed dark. The metadata reports the illumination state; it does not measure
    /// optical output.
    LitButDark { frames_lit: usize, frames_classified: usize },
    /// The requested control value was active for the stream,
    /// but no classified frame was marked illuminated.
    ActiveButNotReported { frames_classified: usize },
    /// The user switched the emitter off; a dark frame is the configured
    /// outcome, and saying anything would be noise they opted out of.
    EmitterDisabled,
    /// No emitter was driven and nothing else explains the darkness: the one
    /// case where `ir-setup` is the right advice.
    NoEmitterDriven,
    /// The chosen frame is dark but the burst holds a bright frame: light
    /// reached the sensor this capture, so the question is frame selection, never the firmware.
    LitBurstDarkChoice { burst_max_mean: Reading },
    /// The control is active and the camera supplies no metadata: the evidence cannot separate
    /// an emitter the camera ignored from a subject out of range or a genuinely dark scene.
    Undetermined,
}

impl DarkEvidence {
    /// Whether the chosen frame lies in the dark band.
    pub open spec fn dark(self) -> bool {
        Reading { bits: DARK_MEAN_MAX }.above(self.frame_mean)
    }

    /// Whether the chosen frame lies in the saturated band.
    pub open spec fn saturated(self) -> bool {
        self.frame_mean.at_least(Reading { bits: SATURATED_MIN_MEAN })
    }

    /// Whether the chosen frame is nearly constant.
    pub open spec fn flat(self) -> bool {
        Reading { bits: SATURATED_FLAT_MAX }.at_least(self.frame_stddev)
    }

    /// Whether some frame of the burst is brighter than the dark band.
    pub open spec fn bright_somewhere(self) -> bool {
        self.burst_max_mean.at_least(Reading { bits: DARK_MEAN_MAX })
    }

    /// Whether the chosen frame is a scene to authenticate against. A mean that is not a number
    /// is none.
    pub open spec fn scene(self) -> bool {
        if self.saturated() {
            !self.flat()
        } else {
            self.frame_mean.at_least(Reading { bits: DARK_MEAN_MAX })
        }
    }

    /// The cause of an unusable burst, `None` for a scene.
    pub open spec fn cause(self) -> Option<IrDarkCause> {
        if self.emitter_disabled {
            if self.dark() || (self.saturated() && self.flat()) {
                Some(IrDarkCause::EmitterDisabled)
            } else {
                None
            }
        } else if self.scene() {
            None
        } else if self.saturated() {
            Some(
                IrDarkCause::SaturatedFlat {
                    stddev: self.frame_stddev,
                    frames_lit: self.frames_lit,
                    frames_classified: self.frames_classified,
                },
            )
        } else if self.privacy_engaged {
            Some(IrDarkCause::PrivacyEngaged)
        } else if self.bright_somewhere() {
            Some(IrDarkCause::LitBurstDarkChoice { burst_max_mean: self.burst_max_mean })
        } else if self.frames_lit > 0 {
            Some(
                IrDarkCause::LitButDark {
                    frames_lit: self.frames_lit,
                    frames_classified: self.frames_classified,
                },
            )
        } else if !self.emitter_active {
            Some(IrDarkCause::NoEmitterDriven)
        } else if self.frames_classified > 0 {
            Some(
                IrDarkCause::ActiveButNotReported { frames_classified: self.frames_classified },
            )
        } else {
            Some(IrDarkCause::Undetermined)
        }
    }
}

/// Name the cause of an unusable burst, or `None` for a scene. Self-gating:
/// the two bands that carry a diagnosis are dark (mean below [`DARK_MEAN_MAX`])
/// and saturated-flat ([`SATURATED_MIN_MEAN`] up, spread up to
/// [`SATURATED_FLAT_MAX`]); everything else is a frame to authenticate against,
/// not to explain.
pub fn diagnose(e: &DarkEvidence) -> (r: Option<IrDarkCause>)
    ensures
        r == e.cause(),
{
    let dark_gate: Reading = Reading { bits: DARK_MEAN_MAX };
    // An explicit output policy, not an inferred hardware cause: it precedes every diagnosis.
    if e.emitter_disabled {
        return if dark_gate.is_above(&e.frame_mean) || saturated_flat(e) {
            Some(IrDarkCause::EmitterDisabled)
        } else {
            None
        };
    }
    if e.frame_mean.is_at_least(&Reading { bits: SATURATED_MIN_MEAN }) {
        return if saturated_flat(e) {
            Some(
                IrDarkCause::SaturatedFlat {
                    stddev: e.frame_stddev,
                    frames_lit: e.frames_lit,
                    frames_classified: e.frames_classified,
                },
            )
        } else {
            None
        };
    }
    if e.frame_mean.is_at_least(&dark_gate) {
        return None;
    }
    if e.privacy_engaged {
        return Some(IrDarkCause::PrivacyEngaged);
    }
    // Direct optical evidence beats every emitter inference below: a bright
    // frame anywhere in the burst means light reached the sensor.
    if e.burst_max_mean.is_at_least(&dark_gate) {
        return Some(IrDarkCause::LitBurstDarkChoice { burst_max_mean: e.burst_max_mean });
    }
    if e.frames_lit > 0 {
        return Some(
            IrDarkCause::LitButDark {
                frames_lit: e.frames_lit,
                frames_classified: e.frames_classified,
            },
        );
    }
    if e.emitter_active && e.frames_classified > 0 {
        return Some(
            IrDarkCause::ActiveButNotReported { frames_classified: e.frames_classified },
        );
    }
    if !e.emitter_active {
        return Some(IrDarkCause::NoEmitterDriven);
    }
    Some(IrDarkCause::Undetermined)
}

/// Saturated and nearly constant: the measured cover-under-emitter signature.
fn saturated_flat(e: &DarkEvidence) -> (r: bool)
    ensures
        r == (e.saturated() && e.flat()),
{
    e.frame_mean.is_at_least(&Reading { bits: SATURATED_MIN_MEAN }) && (Reading {
        bits: SATURATED_FLAT_MAX,
    }).is_at_least(&e.frame_stddev)
}

/// The line for a cause on a camera whose name is already quoted: see [`render_quoted`].
pub open spec fn quoted_line(
    card: Seq<char>,
    mean: Seq<char>,
    figure: Seq<char>,
    cause: IrDarkCause,
) -> Option<Seq<char>> {
    let head = "[ir] "@ + card;
    match cause {
        IrDarkCause::PrivacyEngaged => Some(
            head
                + ": IR is dark because the privacy shutter is engaged (the `privacy` control reads 1); release it. No emitter problem is in evidence."@,
        ),
        IrDarkCause::SaturatedFlat { stddev, frames_lit, frames_classified } => Some(
            head + ": the IR frame is saturated and nearly constant (mean "@ + mean + ", stddev "@
                + figure + ")"@ + (if frames_lit > 0 {
                ", with "@ + decimal(frames_lit as nat) + "/"@ + decimal(frames_classified as nat)
                    + " frames marked illuminated"@
            } else {
                ""@
            })
                + ". On both tested cameras this pattern matched an opaque cover directly in front of the lens"@
                + (if frames_lit > 0 {
                ", bouncing the emitter straight back"@
            } else {
                ""@
            })
                + "; strong IR flooding the lens could read the same (covered measured 252.8-255.0; real scenes carry spread 35+). Check for a cover or anything flush against the camera."@,
        ),
        IrDarkCause::LitButDark { frames_lit, frames_classified } => Some(
            head + ": the camera marked "@ + decimal(frames_lit as nat) + "/"@ + decimal(
                frames_classified as nat,
            )
                + " frames as captured with illumination on, yet the image stayed dark (mean "@
                + mean
                + "). That metadata does not measure optical output, so irlume cannot distinguish a failed or ignored emitter from a lens cover, range, or exposure problem. Check the cover, distance and exposure; if those do not explain it, `sudo irlume ir-setup` re-measures the control."@,
        ),
        IrDarkCause::ActiveButNotReported { frames_classified } => Some(
            head + ": the emitter control held the requested value, but none of "@ + decimal(
                frames_classified as nat,
            )
                + " metadata-classified frames was marked as captured with illumination on. The evidence cannot tell whether the camera ignored the mode, the emitter failed, or the metadata does not reflect the control. `sudo irlume ir-setup` re-measures the control."@,
        ),
        IrDarkCause::EmitterDisabled => None,
        IrDarkCause::NoEmitterDriven => Some(
            head + ": IR is dark (mean "@ + mean
                + ") with no active emitter; run `sudo irlume ir-setup` to find this camera's emitter control from what it publishes (IRLUME_IR_EMITTER=off silences this)"@,
        ),
        IrDarkCause::LitBurstDarkChoice { burst_max_mean } => Some(
            head + ": the chosen IR frame is dark (mean "@ + mean
                + ") but the burst holds a lit frame (mean "@ + figure
                + "): the emitter works, likely strobing, and frame selection landed on a dark phase. Not a firmware problem; if authentication fails here, report these two numbers"@,
        ),
        IrDarkCause::Undetermined => Some(
            head + ": IR is dark (mean "@ + mean
                + ") with the emitter control active; this camera supplies no illumination metadata, so irlume cannot tell an ignored control from a subject out of range or a dark scene. If moving closer changes nothing, `sudo irlume ir-setup` re-measures the control."@,
        ),
    }
}

/// The line for a cause: see [`render`].
pub open spec fn line(
    card: Seq<char>,
    mean: Seq<char>,
    figure: Seq<char>,
    cause: IrDarkCause,
) -> Option<Seq<char>> {
    quoted_line(debug_quoted(card), mean, figure, cause)
}

/// The user-facing line for a cause, or `None` where silence is the right
/// output ([`IrDarkCause::EmitterDisabled`]).
///
/// `mean` is the chosen frame's mean as it is printed, without decimals. `figure` is the number
/// that the cause carries as it is printed: the spread with two decimals, or the burst's greatest
/// mean without any. A cause without a number of its own does not print it.
pub fn render(card: &str, mean: &str, figure: &str, cause: &IrDarkCause) -> (r: Option<String>)
    ensures
        match r {
            Some(text) => line(card@, mean@, figure@, *cause) == Some(text@),
            None => line(card@, mean@, figure@, *cause) is None,
        },
{
    render_quoted(quoted(card).as_str(), mean, figure, cause)
}

/// The user-facing line for a cause, as [`render`] gives it, for a camera whose name is already
/// quoted.
pub fn render_quoted(card: &str, mean: &str, figure: &str, cause: &IrDarkCause) -> (r: Option<
    String,
>)
    ensures
        match r {
            Some(text) => quoted_line(card@, mean@, figure@, *cause) == Some(text@),
            None => quoted_line(card@, mean@, figure@, *cause) is None,
        },
{
    let mut s: String = "[ir] ".to_owned();
    s.append(card);
    match cause {
        IrDarkCause::PrivacyEngaged => {
            s.append(
                ": IR is dark because the privacy shutter is engaged (the `privacy` control reads 1); release it. No emitter problem is in evidence.",
            );
        },
        IrDarkCause::SaturatedFlat { stddev: _, frames_lit, frames_classified } => {
            s.append(": the IR frame is saturated and nearly constant (mean ");
            s.append(mean);
            s.append(", stddev ");
            s.append(figure);
            s.append(")");
            let mut marked: String = "".to_owned();
            if *frames_lit > 0 {
                marked = ", with ".to_owned();
                push_decimal(&mut marked, *frames_lit as u64);
                marked.append("/");
                push_decimal(&mut marked, *frames_classified as u64);
                marked.append(" frames marked illuminated");
            }
            s.append(marked.as_str());
            s.append(
                ". On both tested cameras this pattern matched an opaque cover directly in front of the lens",
            );
            if *frames_lit > 0 {
                s.append(", bouncing the emitter straight back");
            } else {
                s.append("");
            }
            s.append(
                "; strong IR flooding the lens could read the same (covered measured 252.8-255.0; real scenes carry spread 35+). Check for a cover or anything flush against the camera.",
            );
        },
        IrDarkCause::LitButDark { frames_lit, frames_classified } => {
            s.append(": the camera marked ");
            push_decimal(&mut s, *frames_lit as u64);
            s.append("/");
            push_decimal(&mut s, *frames_classified as u64);
            s.append(" frames as captured with illumination on, yet the image stayed dark (mean ");
            s.append(mean);
            s.append(
                "). That metadata does not measure optical output, so irlume cannot distinguish a failed or ignored emitter from a lens cover, range, or exposure problem. Check the cover, distance and exposure; if those do not explain it, `sudo irlume ir-setup` re-measures the control.",
            );
        },
        IrDarkCause::ActiveButNotReported { frames_classified } => {
            s.append(": the emitter control held the requested value, but none of ");
            push_decimal(&mut s, *frames_classified as u64);
            s.append(
                " metadata-classified frames was marked as captured with illumination on. The evidence cannot tell whether the camera ignored the mode, the emitter failed, or the metadata does not reflect the control. `sudo irlume ir-setup` re-measures the control.",
            );
        },
        IrDarkCause::EmitterDisabled => {
            return None;
        },
        IrDarkCause::NoEmitterDriven => {
            s.append(": IR is dark (mean ");
            s.append(mean);
            s.append(
                ") with no active emitter; run `sudo irlume ir-setup` to find this camera's emitter control from what it publishes (IRLUME_IR_EMITTER=off silences this)",
            );
        },
        IrDarkCause::LitBurstDarkChoice { burst_max_mean: _ } => {
            s.append(": the chosen IR frame is dark (mean ");
            s.append(mean);
            s.append(") but the burst holds a lit frame (mean ");
            s.append(figure);
            s.append(
                "): the emitter works, likely strobing, and frame selection landed on a dark phase. Not a firmware problem; if authentication fails here, report these two numbers",
            );
        },
        IrDarkCause::Undetermined => {
            s.append(": IR is dark (mean ");
            s.append(mean);
            s.append(
                ") with the emitter control active; this camera supplies no illumination metadata, so irlume cannot tell an ignored control from a subject out of range or a dark scene. If moving closer changes nothing, `sudo irlume ir-setup` re-measures the control.",
            );
        },
    }
    Some(s)
}

// ---------------------------------------------------------------------------------------------
// Laws
// ---------------------------------------------------------------------------------------------

/// A switched-off emitter silences every diagnosis: whatever else was observed, nothing is
/// printed.
pub proof fn disabled_is_silent(
    e: DarkEvidence,
    card: Seq<char>,
    mean: Seq<char>,
    figure: Seq<char>,
)
    requires
        e.emitter_disabled,
    ensures
        e.cause() is None || line(card, mean, figure, e.cause()->0) is None,
{
}

/// A scene is never diagnosed.
pub proof fn scenes_get_no_diagnosis(e: DarkEvidence)
    requires
        e.scene(),
    ensures
        e.cause() is None,
{
}

/// The emitter is named as not driven only where nothing else explains the darkness: no shutter,
/// no bright frame, no frame flagged lit, no active control.
pub proof fn setup_is_advised_only_without_another_cause(e: DarkEvidence)
    requires
        e.cause() == Some(IrDarkCause::NoEmitterDriven),
    ensures
        !e.emitter_disabled,
        !e.privacy_engaged,
        !e.bright_somewhere(),
        e.frames_lit == 0,
        !e.emitter_active,
{
}

/// A burst is diagnosed exactly where its chosen frame is no scene: the mean lies below 35, or it
/// is 250 at least with a spread of 8 at most. Nothing else that was observed matters.
pub proof fn a_burst_is_diagnosed_exactly_off_the_scene(e: DarkEvidence)
    requires
        !e.frame_mean.is_nan(),
        !e.frame_stddev.is_nan(),
    ensures
        e.cause() is Some <==> e.frame_mean.rank() < 0x4041_8000_0000_0000 || (e.frame_mean.rank()
            >= 0x406f_4000_0000_0000 && e.frame_stddev.rank() <= 0x4020_0000_0000_0000),
{
}

/// A mean that is not a number is no scene: it is diagnosed like a dark frame, unless the emitter is
/// switched off, and never as a saturated one.
pub proof fn an_unreadable_mean_is_no_scene(e: DarkEvidence)
    requires
        e.frame_mean.is_nan(),
    ensures
        e.cause() is None <==> e.emitter_disabled,
        !(e.cause() matches Some(IrDarkCause::SaturatedFlat { .. })),
{
}

/// The emitter is named as switched off exactly where it is and there is anything to name.
pub proof fn switched_off_is_the_only_cause_of_a_disabled_emitter(e: DarkEvidence)
    ensures
        e.emitter_disabled ==> e.cause() is None || e.cause() == Some(IrDarkCause::EmitterDisabled),
        e.cause() == Some(IrDarkCause::EmitterDisabled) ==> e.emitter_disabled,
{
}

/// A saturated frame is named only for its own figures: it is flat, whatever the shutter, the rest
/// of the burst and the emitter say, and the cause carries the spread and both counts as they are.
pub proof fn a_saturated_flat_frame_is_named_so(e: DarkEvidence)
    requires
        !e.emitter_disabled,
        !e.frame_mean.is_nan(),
        !e.frame_stddev.is_nan(),
    ensures
        e.frame_mean.rank() >= 0x406f_4000_0000_0000 && e.frame_stddev.rank()
            <= 0x4020_0000_0000_0000 ==> e.cause() == Some(
            IrDarkCause::SaturatedFlat {
                stddev: e.frame_stddev,
                frames_lit: e.frames_lit,
                frames_classified: e.frames_classified,
            },
        ),
        e.cause() matches Some(IrDarkCause::SaturatedFlat { .. }) ==> e.frame_mean.rank()
            >= 0x406f_4000_0000_0000 && e.frame_stddev.rank() <= 0x4020_0000_0000_0000,
{
}

/// An engaged shutter explains every dark frame, before anything that the emitter or the rest of
/// the burst says; and it is named for nothing else.
pub proof fn an_engaged_shutter_explains_a_dark_frame(e: DarkEvidence)
    requires
        !e.emitter_disabled,
        e.frame_mean.rank() < 0x4041_8000_0000_0000,
    ensures
        e.privacy_engaged <==> e.cause() == Some(IrDarkCause::PrivacyEngaged),
{
}

/// A bright frame in the burst of a dark one is optical evidence: it is named before every
/// inference from the emitter's state or the camera's marks, and with its own mean.
pub proof fn a_bright_frame_in_the_burst_is_named(e: DarkEvidence)
    requires
        !e.emitter_disabled,
        e.frame_mean.rank() < 0x4041_8000_0000_0000,
        !e.privacy_engaged,
    ensures
        !e.burst_max_mean.is_nan() && e.burst_max_mean.rank() >= 0x4041_8000_0000_0000
            <==> e.cause() == Some(
            IrDarkCause::LitBurstDarkChoice { burst_max_mean: e.burst_max_mean },
        ),
        e.cause() matches Some(IrDarkCause::LitBurstDarkChoice { .. }) ==> !e.burst_max_mean.is_nan()
            && e.burst_max_mean.rank() >= 0x4041_8000_0000_0000,
{
}

/// Of a dark frame in a dark burst with no engaged shutter, the camera's own marks come first:
/// where it marked any frame as illuminated, that is what is said, with exactly the counts that
/// were observed, and whether or not the emitter control is active.
pub proof fn frames_marked_illuminated_are_counted_as_such(e: DarkEvidence)
    requires
        !e.emitter_disabled,
        e.frame_mean.rank() < 0x4041_8000_0000_0000,
        !e.privacy_engaged,
        e.burst_max_mean.rank() < 0x4041_8000_0000_0000,
    ensures
        e.frames_lit > 0 ==> e.cause() == Some(
            IrDarkCause::LitButDark {
                frames_lit: e.frames_lit,
                frames_classified: e.frames_classified,
            },
        ),
        e.frames_lit == 0 ==> !(e.cause() matches Some(IrDarkCause::LitButDark { .. })),
{
}

/// Where no frame was marked as illuminated and nothing else explains a dark frame, the emitter's
/// state and the presence of marks decide: an inactive control asks for a setup; an active one was
/// not reported by the frames that were classified, or nothing can be told.
pub proof fn an_unreported_emitter_is_told_by_its_control(e: DarkEvidence)
    requires
        !e.emitter_disabled,
        e.frame_mean.rank() < 0x4041_8000_0000_0000,
        !e.privacy_engaged,
        e.burst_max_mean.rank() < 0x4041_8000_0000_0000,
        e.frames_lit == 0,
    ensures
        !e.emitter_active <==> e.cause() == Some(IrDarkCause::NoEmitterDriven),
        e.emitter_active && e.frames_classified > 0 <==> e.cause() == Some(
            IrDarkCause::ActiveButNotReported { frames_classified: e.frames_classified },
        ),
        e.emitter_active && e.frames_classified == 0 <==> e.cause() == Some(
            IrDarkCause::Undetermined,
        ),
{
}

/// What is said of frames that were not marked as illuminated is said only where none was: an
/// active control that was not reported, one that nothing can be told of, and one that is not
/// driven.
pub proof fn an_unlit_cause_needs_unlit_frames(e: DarkEvidence)
    requires
        e.cause() matches Some(IrDarkCause::ActiveButNotReported { .. }) || e.cause() == Some(
            IrDarkCause::NoEmitterDriven,
        ) || e.cause() == Some(IrDarkCause::Undetermined),
    ensures
        e.frames_lit == 0,
        e.emitter_active <==> e.cause() != Some(IrDarkCause::NoEmitterDriven),
        e.cause() matches Some(IrDarkCause::ActiveButNotReported { frames_classified }) ==> 0
            < frames_classified && frames_classified == e.frames_classified,
        e.cause() == Some(IrDarkCause::Undetermined) ==> e.frames_classified == 0,
{
}

/// The counts and the emitter change no diagnosis of a frame that the shutter or the burst
/// explains, and the shutter none of a saturated one.
pub proof fn a_stronger_cause_hides_a_weaker_one(e: DarkEvidence, other: DarkEvidence)
    requires
        e.emitter_disabled == other.emitter_disabled,
        e.frame_mean == other.frame_mean,
        e.frame_stddev == other.frame_stddev,
        e.burst_max_mean == other.burst_max_mean,
        e.privacy_engaged == other.privacy_engaged,
        e.cause() matches Some(cause) && (cause is PrivacyEngaged || cause is LitBurstDarkChoice
            || cause is EmitterDisabled),
    ensures
        other.cause() == e.cause(),
{
}

} // verus!
