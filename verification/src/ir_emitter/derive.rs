//! Asking a camera for the value that lights its emitter.
//!
//! Setup and every later capture both go through this, so a control that setup recorded is
//! derived again exactly as it was found. The camera is the authority at both moments.
use vstd::prelude::*;
use crate::ir_emitter::descriptor::MSXU_IR_TORCH;
use crate::ir_emitter::payload::{
    face_auth, face_auth_payload, ir_torch_default_is_usable, torch_fault,
};
use crate::ir_emitter::xu::{answers, CameraReply, CameraRequest, ControlQuery, XuError};
use crate::text::{hex_digits, push_hex};

verus! {

/// The capability byte that is required of the infrared torch: a synchronous
/// control that can be read and written, and nothing else.
pub const IR_TORCH_INFO: u8 = 3;

/// Where a derivation stands, with the answers it has: vectors where it runs, sequences where it
/// is spoken of.
#[derive(Clone, Debug, PartialEq, Eq)]
pub enum DerivationPhase<B> {
    ReadDefault,
    TorchInfo { def: B },
    TorchMinimum { def: B },
    TorchMaximum { def: B, min: B },
    TorchResolution { def: B, min: B, max: B },
    FaceMaximum { def: B },
    /// The torch's capability byte is not the one that is required.
    TorchUnlike { info: u8 },
    /// The torch answered everything.
    TorchRead { def: B, min: B, max: B, res: B },
    /// The face-authentication control answered everything.
    FaceRead { def: B, max: B },
    /// A request failed.
    Failed(XuError),
}

impl View for DerivationPhase<Vec<u8>> {
    type V = DerivationPhase<Seq<u8>>;

    open spec fn view(&self) -> DerivationPhase<Seq<u8>> {
        match *self {
            DerivationPhase::ReadDefault => DerivationPhase::ReadDefault,
            DerivationPhase::TorchInfo { def } => DerivationPhase::TorchInfo { def: def@ },
            DerivationPhase::TorchMinimum { def } => DerivationPhase::TorchMinimum { def: def@ },
            DerivationPhase::TorchMaximum { def, min } => DerivationPhase::TorchMaximum {
                def: def@,
                min: min@,
            },
            DerivationPhase::TorchResolution { def, min, max } => DerivationPhase::TorchResolution {
                def: def@,
                min: min@,
                max: max@,
            },
            DerivationPhase::FaceMaximum { def } => DerivationPhase::FaceMaximum { def: def@ },
            DerivationPhase::TorchUnlike { info } => DerivationPhase::TorchUnlike { info },
            DerivationPhase::TorchRead { def, min, max, res } => DerivationPhase::TorchRead {
                def: def@,
                min: min@,
                max: max@,
                res: res@,
            },
            DerivationPhase::FaceRead { def, max } => DerivationPhase::FaceRead {
                def: def@,
                max: max@,
            },
            DerivationPhase::Failed(err) => DerivationPhase::Failed(err),
        }
    }
}

/// What a derivation came to.
#[derive(Clone, Debug, PartialEq, Eq)]
pub enum Intended<B, T> {
    /// The bytes to write.
    Value(B),
    /// The camera has not clearly said what it accepts.
    Refused(T),
    /// A request failed.
    Failed(XuError),
}

impl View for Intended<Vec<u8>, String> {
    type V = Intended<Seq<u8>, Seq<char>>;

    open spec fn view(&self) -> Intended<Seq<u8>, Seq<char>> {
        match *self {
            Intended::Value(bytes) => Intended::Value(bytes@),
            Intended::Refused(why) => Intended::Refused(why@),
            Intended::Failed(err) => Intended::Failed(err),
        }
    }
}

/// The derivation of the bytes to write for one documented control of `len` bytes.
#[derive(Clone, Debug, PartialEq, Eq)]
pub struct Derivation<B> {
    pub selector: u8,
    pub len: usize,
    pub phase: DerivationPhase<B>,
}

impl View for Derivation<Vec<u8>> {
    type V = Derivation<Seq<u8>>;

    open spec fn view(&self) -> Derivation<Seq<u8>> {
        Derivation { selector: self.selector, len: self.len, phase: self.phase@ }
    }
}

/// Why a capability byte is not the infrared torch's.
pub open spec fn unlike_torch(info: u8) -> Seq<char> {
    "its capabilities are 0x"@ + hex_digits(info as nat, 2)
        + "; the specification requires exactly 0x03 for IR Torch"@
}

impl Derivation<Seq<u8>> {
    /// The derivation before the first request.
    pub open spec fn start(selector: u8, len: usize) -> Self {
        Derivation { selector, len, phase: DerivationPhase::ReadDefault }
    }

    /// What is asked of the camera next, if anything is.
    pub open spec fn asked(self) -> Option<CameraRequest<Seq<u8>>> {
        let len = self.len;
        match self.phase {
            DerivationPhase::ReadDefault => Some(
                CameraRequest::Read { query: ControlQuery::Default, len },
            ),
            DerivationPhase::TorchInfo { .. } => Some(CameraRequest::GetInfo),
            DerivationPhase::TorchMinimum { .. } => Some(
                CameraRequest::Read { query: ControlQuery::Minimum, len },
            ),
            DerivationPhase::TorchMaximum { .. } => Some(
                CameraRequest::Read { query: ControlQuery::Maximum, len },
            ),
            DerivationPhase::TorchResolution { .. } => Some(
                CameraRequest::Read { query: ControlQuery::Resolution, len },
            ),
            DerivationPhase::FaceMaximum { .. } => Some(
                CameraRequest::Read { query: ControlQuery::Maximum, len },
            ),
            _ => None,
        }
    }

    /// The phase after a reply. Microsoft specifies the torch's default as an active mode, so it
    /// is used directly once checked; the default of face authentication is general-purpose mode,
    /// so its value is derived from the advertised capabilities.
    pub open spec fn next_phase(self, reply: CameraReply<Seq<u8>>) -> DerivationPhase<Seq<u8>> {
        match (self.phase, reply) {
            (_, CameraReply::Failed(err)) => DerivationPhase::Failed(err),
            (DerivationPhase::ReadDefault, CameraReply::Bytes(def)) => if self.selector
                == MSXU_IR_TORCH {
                DerivationPhase::TorchInfo { def }
            } else {
                DerivationPhase::FaceMaximum { def }
            },
            (DerivationPhase::TorchInfo { def }, CameraReply::Info(info)) => if info
                != IR_TORCH_INFO {
                DerivationPhase::TorchUnlike { info }
            } else {
                DerivationPhase::TorchMinimum { def }
            },
            (DerivationPhase::TorchMinimum { def }, CameraReply::Bytes(min)) => {
                DerivationPhase::TorchMaximum { def, min }
            },
            (DerivationPhase::TorchMaximum { def, min }, CameraReply::Bytes(max)) => {
                DerivationPhase::TorchResolution { def, min, max }
            },
            (DerivationPhase::TorchResolution { def, min, max }, CameraReply::Bytes(res)) => {
                DerivationPhase::TorchRead { def, min, max, res }
            },
            (DerivationPhase::FaceMaximum { def }, CameraReply::Bytes(max)) => {
                DerivationPhase::FaceRead { def, max }
            },
            (phase, _) => phase,
        }
    }

    /// The derivation after a reply.
    pub open spec fn step(self, reply: CameraReply<Seq<u8>>) -> Self {
        Derivation { phase: self.next_phase(reply), ..self }
    }

    /// What the derivation came to, once it asks for nothing more.
    pub open spec fn result(self) -> Option<Intended<Seq<u8>, Seq<char>>> {
        match self.phase {
            DerivationPhase::TorchUnlike { info } => Some(Intended::Refused(unlike_torch(info))),
            DerivationPhase::TorchRead { def, min, max, res } => match torch_fault(
                def,
                min,
                max,
                res,
            ) {
                Some(why) => Some(Intended::Refused(why)),
                None => Some(Intended::Value(def)),
            },
            DerivationPhase::FaceRead { def, max } => match face_auth(def, max) {
                Ok(payload) => Some(Intended::Value(payload)),
                Err(why) => Some(Intended::Refused(why)),
            },
            DerivationPhase::Failed(err) => Some(Intended::Failed(err)),
            _ => None,
        }
    }

    /// Every answer it holds is as long as the control is.
    pub open spec fn well_formed(self) -> bool {
        match self.phase {
            DerivationPhase::TorchInfo { def } => def.len() == self.len,
            DerivationPhase::TorchMinimum { def } => def.len() == self.len,
            DerivationPhase::TorchMaximum { def, min } => def.len() == self.len,
            DerivationPhase::TorchResolution { def, min, max } => def.len() == self.len,
            DerivationPhase::FaceMaximum { def } => def.len() == self.len,
            DerivationPhase::TorchRead { def, min, max, res } => def.len() == self.len,
            DerivationPhase::FaceRead { def, max } => def.len() == self.len && max.len()
                == self.len,
            _ => true,
        }
    }
}

impl Derivation<Vec<u8>> {
    /// A derivation for a control of `len` bytes.
    #[must_use]
    pub fn new(selector: u8, len: usize) -> (r: Self)
        ensures
            r@ == Derivation::<Seq<u8>>::start(selector, len),
    {
        Derivation { selector, len, phase: DerivationPhase::ReadDefault }
    }

    /// What is asked of the camera next, if anything is.
    #[must_use]
    pub fn request(&self) -> (r: Option<CameraRequest<Vec<u8>>>)
        ensures
            match r {
                Some(request) => self@.asked() == Some(request@),
                None => self@.asked() is None,
            },
    {
        let len: usize = self.len;
        match &self.phase {
            DerivationPhase::ReadDefault => Some(
                CameraRequest::Read { query: ControlQuery::Default, len },
            ),
            DerivationPhase::TorchInfo { .. } => Some(CameraRequest::GetInfo),
            DerivationPhase::TorchMinimum { .. } => Some(
                CameraRequest::Read { query: ControlQuery::Minimum, len },
            ),
            DerivationPhase::TorchMaximum { .. } => Some(
                CameraRequest::Read { query: ControlQuery::Maximum, len },
            ),
            DerivationPhase::TorchResolution { .. } => Some(
                CameraRequest::Read { query: ControlQuery::Resolution, len },
            ),
            DerivationPhase::FaceMaximum { .. } => Some(
                CameraRequest::Read { query: ControlQuery::Maximum, len },
            ),
            _ => None,
        }
    }

    /// Takes the camera's reply to the last request.
    #[must_use]
    pub fn advance(self, reply: CameraReply<Vec<u8>>) -> (r: Self)
        requires
            self@.asked() is Some,
            answers(self@.asked()->0, reply@),
        ensures
            r@ == self@.step(reply@),
            self@.well_formed() ==> r@.well_formed(),
    {
        let phase: DerivationPhase<Vec<u8>> = match (self.phase, reply) {
            (_, CameraReply::Failed(err)) => DerivationPhase::Failed(err),
            (DerivationPhase::ReadDefault, CameraReply::Bytes(def)) => if self.selector
                == MSXU_IR_TORCH {
                DerivationPhase::TorchInfo { def }
            } else {
                DerivationPhase::FaceMaximum { def }
            },
            (DerivationPhase::TorchInfo { def }, CameraReply::Info(info)) => if info
                != IR_TORCH_INFO {
                DerivationPhase::TorchUnlike { info }
            } else {
                DerivationPhase::TorchMinimum { def }
            },
            (DerivationPhase::TorchMinimum { def }, CameraReply::Bytes(min)) => {
                DerivationPhase::TorchMaximum { def, min }
            },
            (DerivationPhase::TorchMaximum { def, min }, CameraReply::Bytes(max)) => {
                DerivationPhase::TorchResolution { def, min, max }
            },
            (DerivationPhase::TorchResolution { def, min, max }, CameraReply::Bytes(res)) => {
                DerivationPhase::TorchRead { def, min, max, res }
            },
            (DerivationPhase::FaceMaximum { def }, CameraReply::Bytes(max)) => {
                DerivationPhase::FaceRead { def, max }
            },
            (phase, _) => phase,
        };
        Derivation { selector: self.selector, len: self.len, phase }
    }

    /// What the derivation came to, or `None` while it still asks.
    #[must_use]
    pub fn outcome(&self) -> (r: Option<Intended<Vec<u8>, String>>)
        ensures
            match r {
                Some(intended) => self@.result() == Some(intended@),
                None => self@.result() is None,
            },
    {
        match &self.phase {
            DerivationPhase::TorchUnlike { info } => {
                let mut s: String = "its capabilities are 0x".to_owned();
                push_hex(&mut s, *info as u128, 2);
                s.append("; the specification requires exactly 0x03 for IR Torch");
                Some(Intended::Refused(s))
            },
            DerivationPhase::TorchRead { def, min, max, res } => match ir_torch_default_is_usable(
                def.as_slice(),
                min.as_slice(),
                max.as_slice(),
                res.as_slice(),
            ) {
                Ok(()) => Some(Intended::Value(crate::text::copy_bytes(def.as_slice()))),
                Err(why) => Some(Intended::Refused(why)),
            },
            DerivationPhase::FaceRead { def, max } => match face_auth_payload(
                def.as_slice(),
                max.as_slice(),
            ) {
                Ok(payload) => Some(Intended::Value(payload)),
                Err(why) => Some(Intended::Refused(why)),
            },
            DerivationPhase::Failed(err) => Some(Intended::Failed(*err)),
            _ => None,
        }
    }
}

// ---------------------------------------------------------------------------------------------
// Laws
// ---------------------------------------------------------------------------------------------

impl Derivation<Seq<u8>> {
    /// The derivation after replies, the first of them first.
    pub open spec fn after_all(self, replies: Seq<CameraReply<Seq<u8>>>) -> Self
        decreases replies.len(),
    {
        if replies.len() == 0 {
            self
        } else {
            self.after_all(replies.drop_last()).step(replies.last())
        }
    }
}

/// A derivation only ever reads: whatever the camera answers, it never asks for a change.
pub proof fn derivation_never_writes(d: Derivation<Seq<u8>>)
    ensures
        !(d.asked() matches Some(CameraRequest::Write(_))),
{
}

/// A derivation either asks for something or has come to a result, never both.
pub proof fn derivation_asks_or_ends(d: Derivation<Seq<u8>>)
    ensures
        d.asked() is Some <==> d.result() is None,
{
}

/// A value that a derivation came to is as long as the control is.
pub proof fn derived_value_fits_the_control(d: Derivation<Seq<u8>>, value: Seq<u8>)
    requires
        d.well_formed(),
        d.result() == Some(Intended::<Seq<u8>, Seq<char>>::Value(value)),
    ensures
        value.len() == d.len,
{
}

/// A derivation ends within five replies of the camera.
pub proof fn derivation_ends(selector: u8, len: usize, replies: Seq<CameraReply<Seq<u8>>>)
    requires
        forall|i: int|
            0 <= i < replies.len() ==> {
                let before = Derivation::start(selector, len).after_all(#[trigger] replies.take(i));
                before.asked() is Some ==> answers(before.asked()->0, replies[i])
            },
    ensures
        replies.len() >= 5 ==> Derivation::start(selector, len).after_all(replies).result() is Some,
        Derivation::start(selector, len).after_all(replies).left() <= 5 - replies.len()
            || Derivation::start(selector, len).after_all(replies).left() == 0,
    decreases replies.len(),
{
    if replies.len() > 0 {
        let shorter = replies.drop_last();
        assert(replies.take(shorter.len() as int) =~= shorter);
        assert forall|i: int| 0 <= i < shorter.len() implies {
            let before = Derivation::start(selector, len).after_all(#[trigger] shorter.take(i));
            before.asked() is Some ==> answers(before.asked()->0, shorter[i])
        } by {
            assert(replies.take(i) =~= shorter.take(i));
        }
        derivation_ends(selector, len, shorter);
    }
}

impl Derivation<Seq<u8>> {
    /// How many requests a derivation still makes at most.
    pub open spec fn left(self) -> int {
        match self.phase {
            DerivationPhase::ReadDefault => 5,
            DerivationPhase::TorchInfo { .. } => 4,
            DerivationPhase::TorchMinimum { .. } => 3,
            DerivationPhase::TorchMaximum { .. } => 2,
            DerivationPhase::TorchResolution { .. } => 1,
            DerivationPhase::FaceMaximum { .. } => 1,
            _ => 0,
        }
    }
}

/// The torch's own default is what is written to it: the camera is asked for it, for the capability
/// byte, which has to be 3, and for its limits, and the default is the value where those agree with
/// the control's definition.
pub proof fn a_torch_is_given_its_own_default(
    len: usize,
    info: u8,
    def: Seq<u8>,
    min: Seq<u8>,
    max: Seq<u8>,
    res: Seq<u8>,
)
    ensures
        ({
            let read = |query: ControlQuery| Some(CameraRequest::<Seq<u8>>::Read { query, len });
            let d0 = Derivation::<Seq<u8>>::start(0x0a, len);
            let d1 = d0.step(CameraReply::Bytes(def));
            let d2 = d1.step(CameraReply::Info(info));
            let d3 = d2.step(CameraReply::Bytes(min));
            let d4 = d3.step(CameraReply::Bytes(max));
            let d5 = d4.step(CameraReply::Bytes(res));
            &&& d0.asked() == read(ControlQuery::Default)
            &&& d1.asked() == Some(CameraRequest::<Seq<u8>>::GetInfo)
            &&& info != 3 ==> d2.asked() is None && d2.result() is Some && d2.result()->0 is Refused
            &&& info == 3 ==> {
                &&& d2.asked() == read(ControlQuery::Minimum)
                &&& d3.asked() == read(ControlQuery::Maximum)
                &&& d4.asked() == read(ControlQuery::Resolution)
                &&& d5.asked() is None
                &&& torch_fault(def, min, max, res) is None ==> d5.result() == Some(
                    Intended::<Seq<u8>, Seq<char>>::Value(def),
                )
                &&& torch_fault(def, min, max, res) matches Some(why) ==> d5.result() == Some(
                    Intended::<Seq<u8>, Seq<char>>::Refused(why),
                )
            }
        }),
{
}

/// Any other control is given the mode that its maximum lists: the camera is asked for the default
/// and the maximum, and the payload is made of them.
pub proof fn another_control_is_given_what_it_lists(
    selector: u8,
    len: usize,
    def: Seq<u8>,
    max: Seq<u8>,
)
    requires
        selector != 0x0a,
    ensures
        ({
            let d0 = Derivation::<Seq<u8>>::start(selector, len);
            let d1 = d0.step(CameraReply::Bytes(def));
            let d2 = d1.step(CameraReply::Bytes(max));
            &&& d0.asked() == Some(
                CameraRequest::<Seq<u8>>::Read { query: ControlQuery::Default, len },
            )
            &&& d1.asked() == Some(
                CameraRequest::<Seq<u8>>::Read { query: ControlQuery::Maximum, len },
            )
            &&& d2.asked() is None
            &&& face_auth(def, max) matches Ok(payload) ==> d2.result() == Some(
                Intended::<Seq<u8>, Seq<char>>::Value(payload),
            )
            &&& face_auth(def, max) matches Err(why) ==> d2.result() == Some(
                Intended::<Seq<u8>, Seq<char>>::Refused(why),
            )
        }),
{
}

/// A request that fails at any point is what the derivation comes to, and it asks for nothing more.
pub proof fn a_failed_answer_ends_the_derivation(d: Derivation<Seq<u8>>, err: XuError)
    requires
        d.asked() is Some,
    ensures
        d.step(CameraReply::Failed(err)).asked() is None,
        d.step(CameraReply::Failed(err)).result() == Some(
            Intended::<Seq<u8>, Seq<char>>::Failed(err),
        ),
{
}

} // verus!
