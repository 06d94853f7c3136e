//! Why setup could not produce a control.
use vstd::prelude::*;
use crate::ir_emitter::xu::XuError;
use crate::text::{
    decimal, decimal_list, joined, push_decimal, push_decimal_list, push_joined, texts,
};

verus! {

/// Why setup could not produce a control.
#[derive(Clone, Debug, PartialEq, Eq)]
pub enum DiscoveryError {
    /// The USB descriptors could not be read. Never a reason to start guessing.
    Descriptors(String),
    /// The camera has no Microsoft unit, so there is no documented control to address on it.
    NoMicrosoftXu { seen: Vec<u8> },
    /// The unit is present but advertises no control that can be used, or the ones it advertises
    /// did not light anything.
    NoUsableControl { unit: u8, tried: Vec<String> },
    /// The camera stopped answering.
    Unresponsive { unit: u8, selector: u8, err: XuError },
    /// The camera stopped delivering frames.
    MeasurementFailed,
    /// Another irlume process is already working on this camera.
    CameraBusy,
    /// A control was changed and could not be put back.
    RestoreFailed { unit: u8, selector: u8, err: XuError },
    /// An earlier run left a control changed and this one could not undo it.
    UnresolvedChange,
    /// The undo record could not be written, so nothing was sent to the camera.
    JournalUnwritable(String),
    /// The caller's guard refused the next exploratory write. Anything already changed was restored
    /// before this was returned.
    WriteRefused(String),
}

/// Why setup could not produce a control, as values.
pub enum DiscoveryErrorView {
    Descriptors(Seq<char>),
    NoMicrosoftXu { seen: Seq<u8> },
    NoUsableControl { unit: u8, tried: Seq<Seq<char>> },
    Unresponsive { unit: u8, selector: u8, err: XuError },
    MeasurementFailed,
    CameraBusy,
    RestoreFailed { unit: u8, selector: u8, err: XuError },
    UnresolvedChange,
    JournalUnwritable(Seq<char>),
    WriteRefused(Seq<char>),
}

impl View for DiscoveryError {
    type V = DiscoveryErrorView;

    open spec fn view(&self) -> DiscoveryErrorView {
        match *self {
            DiscoveryError::Descriptors(why) => DiscoveryErrorView::Descriptors(why@),
            DiscoveryError::NoMicrosoftXu { seen } => DiscoveryErrorView::NoMicrosoftXu {
                seen: seen@,
            },
            DiscoveryError::NoUsableControl { unit, tried } => {
                DiscoveryErrorView::NoUsableControl { unit, tried: texts(tried@) }
            },
            DiscoveryError::Unresponsive { unit, selector, err } => {
                DiscoveryErrorView::Unresponsive { unit, selector, err }
            },
            DiscoveryError::MeasurementFailed => DiscoveryErrorView::MeasurementFailed,
            DiscoveryError::CameraBusy => DiscoveryErrorView::CameraBusy,
            DiscoveryError::RestoreFailed { unit, selector, err } => {
                DiscoveryErrorView::RestoreFailed { unit, selector, err }
            },
            DiscoveryError::UnresolvedChange => DiscoveryErrorView::UnresolvedChange,
            DiscoveryError::JournalUnwritable(why) => DiscoveryErrorView::JournalUnwritable(why@),
            DiscoveryError::WriteRefused(why) => DiscoveryErrorView::WriteRefused(why@),
        }
    }
}

impl DiscoveryErrorView {
    /// The failed request behind the error, if its words are part of the sentence.
    pub open spec fn failure(self) -> Option<XuError> {
        match self {
            DiscoveryErrorView::Unresponsive { unit, selector, err } => if err
                == XuError::Unsupported {
                None
            } else {
                Some(err)
            },
            DiscoveryErrorView::RestoreFailed { unit, selector, err } => Some(err),
            _ => None,
        }
    }

    /// The sentence that describes the error, with the words for a failed request. `store` is where
    /// the undo records are.
    pub open spec fn worded(self, failure: Seq<char>, store: Seq<char>) -> Seq<char> {
        match self {
            DiscoveryErrorView::Descriptors(why) =>
                "could not read the camera's USB descriptors: "@ + why,
            DiscoveryErrorView::NoMicrosoftXu { seen } =>
                "this camera has no Microsoft camera-control extension unit (found units ["@
                + decimal_list(seen, ", "@)
                + "]), so irlume has no documented way to drive its emitter. If the vendor documents a control for it, IRLUME_IR_EMITTER=unit:selector:bytes sends those bytes to the camera's firmware; irlume checks the camera publishes that control before writing, but the bytes themselves are yours. Do not try numbers to see what happens: that is what left one reporter's camera unable to enumerate at all (#159)"@,
            DiscoveryErrorView::NoUsableControl { unit, tried } => "unit "@ + decimal(unit as nat)
                + " advertises no usable emitter control ("@ + joined(tried, "; "@) + ")"@,
            DiscoveryErrorView::Unresponsive { unit, selector, err } => if err
                == XuError::Unsupported {
                "unit "@ + decimal(unit as nat) + " selector "@ + decimal(selector as nat)
                    + " refused a request its own descriptor says it implements, so setup stopped rather than push a camera that is contradicting itself"@
            } else {
                "camera stopped responding at unit "@ + decimal(unit as nat) + " selector "@
                    + decimal(selector as nat) + " ("@ + failure
                    + "); stopped without sending anything further. Unplug and reconnect it before retrying"@
            },
            DiscoveryErrorView::MeasurementFailed =>
                "the camera stopped delivering frames during setup, so nothing further was sent. Check the camera is not in use by another program and try again"@,
            DiscoveryErrorView::RestoreFailed { unit, selector, err } => "unit "@ + decimal(
                unit as nat,
            ) + " selector "@ + decimal(selector as nat)
                + " was changed and could not be restored ("@ + failure
                + "); power the camera down fully before using it again"@,
            DiscoveryErrorView::CameraBusy =>
                "another irlume process is already working on this camera's emitter; nothing was sent to it. Wait for that to finish and try again"@,
            DiscoveryErrorView::UnresolvedChange =>
                "an earlier setup run left a control on this camera changed and it could not be put back, so this run stopped before reading anything: it would have recorded the changed value as the one to go back to. The original bytes are in "@
                + store
                + ". Unplug and reconnect the camera, or power it down fully, and try again"@,
            DiscoveryErrorView::JournalUnwritable(why) =>
                "nothing was sent to the camera because the record of how to undo it could not be written ("@
                + why
                + "). Setup writes that record first on purpose, so that a crash or a power loss part-way through still leaves something that can put the control back"@,
            DiscoveryErrorView::WriteRefused(why) => why
                + "; setup stopped without sending anything further, and anything it had already changed was put back"@,
        }
    }

    /// Whether a text describes the error.
    pub open spec fn described_by(self, text: Seq<char>, store: Seq<char>) -> bool {
        match self.failure() {
            None => text == self.worded(seq![], store),
            Some(err) => exists|failure: Seq<char>|
                err.described_by(failure) && text == #[trigger] self.worded(failure, store),
        }
    }
}

impl DiscoveryError {
    /// The sentence that describes the error, with the words for a failed request. `store` is where
    /// the undo records are.
    #[must_use]
    pub fn message_with(&self, failure: &str, store: &str) -> (r: String)
        ensures
            r@ == self@.worded(failure@, store@),
    {
        match self {
            DiscoveryError::Descriptors(why) => {
                let mut s: String = "could not read the camera's USB descriptors: ".to_owned();
                s.append(why.as_str());
                s
            },
            DiscoveryError::NoMicrosoftXu { seen } => {
                let mut s: String =
                    "this camera has no Microsoft camera-control extension unit (found units [".to_owned();
                push_decimal_list(&mut s, seen.as_slice(), ", ");
                s.append(
                    "]), so irlume has no documented way to drive its emitter. If the vendor documents a control for it, IRLUME_IR_EMITTER=unit:selector:bytes sends those bytes to the camera's firmware; irlume checks the camera publishes that control before writing, but the bytes themselves are yours. Do not try numbers to see what happens: that is what left one reporter's camera unable to enumerate at all (#159)",
                );
                s
            },
            DiscoveryError::NoUsableControl { unit, tried } => {
                let mut s: String = "unit ".to_owned();
                push_decimal(&mut s, *unit as u64);
                s.append(" advertises no usable emitter control (");
                push_joined(&mut s, tried, "; ");
                s.append(")");
                s
            },
            DiscoveryError::Unresponsive { unit, selector, err } => {
                if *err == XuError::Unsupported {
                    let mut s: String = "unit ".to_owned();
                    push_decimal(&mut s, *unit as u64);
                    s.append(" selector ");
                    push_decimal(&mut s, *selector as u64);
                    s.append(
                        " refused a request its own descriptor says it implements, so setup stopped rather than push a camera that is contradicting itself",
                    );
                    s
                } else {
                    let mut s: String = "camera stopped responding at unit ".to_owned();
                    push_decimal(&mut s, *unit as u64);
                    s.append(" selector ");
                    push_decimal(&mut s, *selector as u64);
                    s.append(" (");
                    s.append(failure);
                    s.append(
                        "); stopped without sending anything further. Unplug and reconnect it before retrying",
                    );
                    s
                }
            },
            DiscoveryError::MeasurementFailed =>
                "the camera stopped delivering frames during setup, so nothing further was sent. Check the camera is not in use by another program and try again".to_owned(),
            DiscoveryError::RestoreFailed { unit, selector, err: _ } => {
                let mut s: String = "unit ".to_owned();
                push_decimal(&mut s, *unit as u64);
                s.append(" selector ");
                push_decimal(&mut s, *selector as u64);
                s.append(" was changed and could not be restored (");
                s.append(failure);
                s.append("); power the camera down fully before using it again");
                s
            },
            DiscoveryError::CameraBusy =>
                "another irlume process is already working on this camera's emitter; nothing was sent to it. Wait for that to finish and try again".to_owned(),
            DiscoveryError::UnresolvedChange => {
                let mut s: String =
                    "an earlier setup run left a control on this camera changed and it could not be put back, so this run stopped before reading anything: it would have recorded the changed value as the one to go back to. The original bytes are in ".to_owned();
                s.append(store);
                s.append(
                    ". Unplug and reconnect the camera, or power it down fully, and try again",
                );
                s
            },
            DiscoveryError::JournalUnwritable(why) => {
                let mut s: String =
                    "nothing was sent to the camera because the record of how to undo it could not be written (".to_owned();
                s.append(why.as_str());
                s.append(
                    "). Setup writes that record first on purpose, so that a crash or a power loss part-way through still leaves something that can put the control back",
                );
                s
            },
            DiscoveryError::WriteRefused(why) => {
                let mut s: String = why.clone();
                s.append(
                    "; setup stopped without sending anything further, and anything it had already changed was put back",
                );
                s
            },
        }
    }

    /// The sentence that describes the error. `store` is where the undo records are.
    #[must_use]
    pub fn message(&self, store: &str) -> (r: String)
        ensures
            self@.described_by(r@, store@),
    {
        let err: Option<XuError> = match self {
            DiscoveryError::Unresponsive { unit: _, selector: _, err } => {
                if *err == XuError::Unsupported {
                    None
                } else {
                    Some(*err)
                }
            },
            DiscoveryError::RestoreFailed { unit: _, selector: _, err } => Some(*err),
            _ => None,
        };
        match err {
            Some(err) => {
                let failure: String = err.message();
                let r: String = self.message_with(failure.as_str(), store);
                assert(err.described_by(failure@) && r@ == self@.worded(failure@, store@));
                r
            },
            None => {
                proof {
                    reveal_strlit("");
                }
                assert(""@ =~= seq![]);
                self.message_with("", store)
            },
        }
    }
}

// ---------------------------------------------------------------------------------------------
// Laws
// ---------------------------------------------------------------------------------------------

/// Whether a text holds another.
pub open spec fn holds_text(text: Seq<char>, part: Seq<char>) -> bool {
    exists|front: Seq<char>, back: Seq<char>| text == #[trigger] (front + part + back)
}

/// A sentence tells what the error knows: the reason that it was given, and the unit that was tried
/// with every line on what was tried.
pub proof fn an_error_tells_what_it_knows(
    error: DiscoveryErrorView,
    failure: Seq<char>,
    store: Seq<char>,
)
    ensures
        match error {
            DiscoveryErrorView::Descriptors(why)
            | DiscoveryErrorView::JournalUnwritable(why)
            | DiscoveryErrorView::WriteRefused(why) => holds_text(
                error.worded(failure, store),
                why,
            ),
            DiscoveryErrorView::NoUsableControl { unit, tried } => holds_text(
                error.worded(failure, store),
                joined(tried, "; "@),
            ) && holds_text(error.worded(failure, store), decimal(unit as nat)),
            DiscoveryErrorView::NoMicrosoftXu { seen } => holds_text(
                error.worded(failure, store),
                decimal_list(seen, ", "@),
            ),
            DiscoveryErrorView::RestoreFailed { unit, selector, err } => holds_text(
                error.worded(failure, store),
                failure,
            ),
            DiscoveryErrorView::UnresolvedChange => holds_text(
                error.worded(failure, store),
                store,
            ),
            _ => true,
        },
{
    let text = error.worded(failure, store);
    match error {
        DiscoveryErrorView::Descriptors(why) => {
            let front = "could not read the camera's USB descriptors: "@;
            assert(text =~= front + why + Seq::<char>::empty());
        },
        DiscoveryErrorView::JournalUnwritable(why) => {
            let front =
                "nothing was sent to the camera because the record of how to undo it could not be written ("@;
            let back =
                "). Setup writes that record first on purpose, so that a crash or a power loss part-way through still leaves something that can put the control back"@;
            assert(text =~= front + why + back);
        },
        DiscoveryErrorView::WriteRefused(why) => {
            let back =
                "; setup stopped without sending anything further, and anything it had already changed was put back"@;
            assert(text =~= Seq::<char>::empty() + why + back);
        },
        DiscoveryErrorView::NoUsableControl { unit, tried } => {
            let front = "unit "@ + decimal(unit as nat)
                + " advertises no usable emitter control ("@;
            assert(text =~= front + joined(tried, "; "@) + ")"@);
            let back = " advertises no usable emitter control ("@ + joined(tried, "; "@) + ")"@;
            assert(text =~= "unit "@ + decimal(unit as nat) + back);
        },
        DiscoveryErrorView::NoMicrosoftXu { seen } => {
            let front =
                "this camera has no Microsoft camera-control extension unit (found units ["@;
            let n = front.len() + decimal_list(seen, ", "@).len();
            assert(text =~= front + decimal_list(seen, ", "@) + text.skip(n as int));
        },
        DiscoveryErrorView::RestoreFailed { unit, selector, err } => {
            let front = "unit "@ + decimal(unit as nat) + " selector "@ + decimal(selector as nat)
                + " was changed and could not be restored ("@;
            assert(text =~= front + failure
                + "); power the camera down fully before using it again"@);
        },
        DiscoveryErrorView::UnresolvedChange => {
            let back =
                ". Unplug and reconnect the camera, or power it down fully, and try again"@;
            let front = text.take(text.len() - back.len() - store.len());
            assert(text =~= front + store + back);
        },
        _ => {},
    }
}

/// The words of a failed request belong to the sentence of a camera that stopped answering or was not
/// put back, but not where the camera answered that it does not support the request.
pub proof fn a_refusal_by_the_camera_has_no_failure(unit: u8, selector: u8, err: XuError)
    ensures
        (DiscoveryErrorView::RestoreFailed { unit, selector, err }).failure() == Some(err),
        (DiscoveryErrorView::Unresponsive { unit, selector, err }).failure() == (if err
            == XuError::Unsupported {
            None
        } else {
            Some(err)
        }),
        DiscoveryErrorView::MeasurementFailed.failure() is None,
        DiscoveryErrorView::CameraBusy.failure() is None,
        DiscoveryErrorView::UnresolvedChange.failure() is None,
{
}

} // verus!
