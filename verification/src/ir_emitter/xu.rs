//! Extension-unit requests: what is asked of a control, and how an answer is read.
use vstd::prelude::*;
use crate::text::copy_bytes;

verus! {

/// Trusted: `libc::EINVAL` is 22 on Linux.
#[verifier::external_body]
fn einval() -> (r: i32)
    ensures
        r == 22,
{
    libc::EINVAL
}

/// Trusted: `libc::ENOENT` is 2 on Linux.
#[verifier::external_body]
fn enoent() -> (r: i32)
    ensures
        r == 2,
{
    libc::ENOENT
}

/// Trusted: `libc::EPIPE` is 32 on Linux.
#[verifier::external_body]
fn epipe() -> (r: i32)
    ensures
        r == 32,
{
    libc::EPIPE
}

/// Trusted: `libc::EACCES` is 13 on Linux.
#[verifier::external_body]
fn eacces() -> (r: i32)
    ensures
        r == 13,
{
    libc::EACCES
}

/// Trusted: `libc::EPERM` is 1 on Linux.
#[verifier::external_body]
fn eperm() -> (r: i32)
    ensures
        r == 1,
{
    libc::EPERM
}

/// Trusted: the text of `std::io::Error::from_raw_os_error` for an error number. The operating
/// system words it, in its own language, so nothing is said of the text.
#[verifier::external_body]
fn os_error_text(errno: i32) -> (r: String)
{
    std::io::Error::from_raw_os_error(errno).to_string()
}

/// Why an extension-unit request failed.
///
/// A camera that has stopped answering is told apart from one that reports politely that it does
/// not implement a control: nothing further may be sent to the first.
#[derive(Clone, Copy, Debug, PartialEq, Eq, Structural)]
pub enum XuError {
    /// The request was refused without reaching the device, or the device answered with a stall,
    /// which is how a camera says that it does not implement something.
    Unsupported,
    /// The device did not answer, or the bus reported an error.
    Unresponsive(i32),
}

/// Whether an error number says that the device is well: the request was turned down before any
/// bus traffic, or answered with a stall.
pub open spec fn harmless_errno(errno: i32) -> bool {
    errno == 22 || errno == 2 || errno == 32 || errno == 13 || errno == 1
}

impl XuError {
    /// How an error number of a failed request is read. One that is not recognised counts as
    /// dangerous.
    pub open spec fn of_errno(errno: i32) -> XuError {
        if harmless_errno(errno) {
            XuError::Unsupported
        } else {
            XuError::Unresponsive(errno)
        }
    }

    /// How an error number of a failed request is read.
    #[must_use]
    pub fn from_errno(errno: i32) -> (r: Self)
        ensures
            r == XuError::of_errno(errno),
    {
        if errno == einval() || errno == enoent() || errno == epipe() || errno == eacces() || errno
            == eperm() {
            XuError::Unsupported
        } else {
            XuError::Unresponsive(errno)
        }
    }

    /// The sentence that describes the failure, with the operating system's words for its error
    /// number.
    pub open spec fn worded(self, system: Seq<char>) -> Seq<char> {
        match self {
            XuError::Unsupported => "control not supported"@,
            XuError::Unresponsive(_) => "camera did not answer ("@ + system + ")"@,
        }
    }

    /// Whether a text describes the failure, in whatever words the operating system has.
    pub open spec fn described_by(self, text: Seq<char>) -> bool {
        exists|system: Seq<char>| text == #[trigger] self.worded(system)
    }

    /// The sentence that describes the failure, with the operating system's words for it.
    #[must_use]
    pub fn message_with(&self, system: &str) -> (r: String)
        ensures
            r@ == self.worded(system@),
    {
        match self {
            XuError::Unsupported => "control not supported".to_owned(),
            XuError::Unresponsive(_) => {
                let mut s: String = "camera did not answer (".to_owned();
                s.append(system);
                s.append(")");
                s
            },
        }
    }

    /// The sentence that describes the failure.
    #[must_use]
    pub fn message(&self) -> (r: String)
        ensures
            self.described_by(r@),
            *self == XuError::Unsupported ==> r@ == "control not supported"@,
    {
        let system: String = match self {
            XuError::Unsupported => "".to_owned(),
            XuError::Unresponsive(errno) => os_error_text(*errno),
        };
        let r: String = self.message_with(system.as_str());
        assert(r@ == self.worded(system@));
        r
    }
}

/// The request codes of the UVC class.
pub const UVC_SET_CUR: u8 = 0x01;

pub const UVC_GET_CUR: u8 = 0x81;

pub const UVC_GET_MIN: u8 = 0x82;

pub const UVC_GET_MAX: u8 = 0x83;

pub const UVC_GET_RES: u8 = 0x84;

pub const UVC_GET_LEN: u8 = 0x85;

pub const UVC_GET_INFO: u8 = 0x86;

pub const UVC_GET_DEF: u8 = 0x87;

/// The request number of the kernel's extension-unit query, whose argument has `size` bytes.
#[must_use]
pub fn uvcioc_ctrl_query(size: u64) -> (r: u64)
    requires
        size < 0x4000,
    ensures
        r == 3 * 0x4000_0000 + size * 0x1_0000 + 0x75 * 0x100 + 0x21,
{
    3 * 0x4000_0000 + size * 0x1_0000 + 0x75 * 0x100 + 0x21
}

/// A value that is read from a control, as long as the control is.
#[derive(Clone, Copy, Debug, PartialEq, Eq, Structural)]
pub enum ControlQuery {
    Current,
    Minimum,
    Maximum,
    Resolution,
    Default,
}

impl ControlQuery {
    /// The request code of the UVC class.
    pub open spec fn spec_code(self) -> u8 {
        match self {
            ControlQuery::Current => UVC_GET_CUR,
            ControlQuery::Minimum => UVC_GET_MIN,
            ControlQuery::Maximum => UVC_GET_MAX,
            ControlQuery::Resolution => UVC_GET_RES,
            ControlQuery::Default => UVC_GET_DEF,
        }
    }

    /// The request code of the UVC class.
    #[must_use]
    pub fn code(self) -> (r: u8)
        ensures
            r == self.spec_code(),
    {
        match self {
            ControlQuery::Current => UVC_GET_CUR,
            ControlQuery::Minimum => UVC_GET_MIN,
            ControlQuery::Maximum => UVC_GET_MAX,
            ControlQuery::Resolution => UVC_GET_RES,
            ControlQuery::Default => UVC_GET_DEF,
        }
    }
}

/// A request to one control, whose bytes are of type `B`: a vector where a request is made, a
/// sequence where one is spoken of.
#[derive(Clone, Debug, PartialEq, Eq)]
pub enum CameraRequest<B> {
    /// The capability byte.
    GetInfo,
    /// How many bytes the control has.
    GetLen,
    /// A value of `len` bytes.
    Read { query: ControlQuery, len: usize },
    /// Change the control.
    Write(B),
}

impl View for CameraRequest<Vec<u8>> {
    type V = CameraRequest<Seq<u8>>;

    open spec fn view(&self) -> CameraRequest<Seq<u8>> {
        match *self {
            CameraRequest::GetInfo => CameraRequest::GetInfo,
            CameraRequest::GetLen => CameraRequest::GetLen,
            CameraRequest::Read { query, len } => CameraRequest::Read { query, len },
            CameraRequest::Write(bytes) => CameraRequest::Write(bytes@),
        }
    }
}

impl CameraRequest<Vec<u8>> {
    /// The request that changes a control to the given bytes.
    pub(crate) fn write(bytes: &[u8]) -> (r: Self)
        ensures
            r@ == CameraRequest::Write(bytes@),
    {
        CameraRequest::Write(copy_bytes(bytes))
    }
}

/// What came of a request to a control.
#[derive(Clone, Debug, PartialEq, Eq)]
pub enum CameraReply<B> {
    /// The capability byte.
    Info(u8),
    /// How many bytes the control says it has.
    Length(u16),
    /// The value that was asked for.
    Bytes(B),
    /// The change was accepted.
    Accepted,
    /// The request failed.
    Failed(XuError),
}

impl View for CameraReply<Vec<u8>> {
    type V = CameraReply<Seq<u8>>;

    open spec fn view(&self) -> CameraReply<Seq<u8>> {
        match *self {
            CameraReply::Info(info) => CameraReply::Info(info),
            CameraReply::Length(len) => CameraReply::Length(len),
            CameraReply::Bytes(bytes) => CameraReply::Bytes(bytes@),
            CameraReply::Accepted => CameraReply::Accepted,
            CameraReply::Failed(err) => CameraReply::Failed(err),
        }
    }
}

/// Whether a reply is one that a request can have.
pub open spec fn answers(request: CameraRequest<Seq<u8>>, reply: CameraReply<Seq<u8>>) -> bool {
    reply is Failed || match request {
        CameraRequest::GetInfo => reply is Info,
        CameraRequest::GetLen => reply is Length,
        CameraRequest::Read { query, len } => reply matches CameraReply::Bytes(bytes) && bytes.len()
            == len,
        CameraRequest::Write(_) => reply is Accepted,
    }
}

/// The longest control that is taken for one.
pub const MAX_CTRL_LEN: usize = 64;

/// Whether a control of that many bytes is a plausible one.
pub open spec fn plausible_len(len: int) -> bool {
    1 <= len <= MAX_CTRL_LEN
}

/// A plausible control reports 1 to 64 bytes; anything else, none from a phantom control or an
/// absurd length, is rejected.
#[must_use]
pub fn valid_ctrl_len(len: usize) -> (r: Option<usize>)
    ensures
        r == (if plausible_len(len as int) {
            Some(len)
        } else {
            None
        }),
{
    if 1 <= len && len <= MAX_CTRL_LEN {
        Some(len)
    } else {
        None
    }
}

/// The length that two bytes of a length reply say, the low one first.
#[must_use]
pub fn length_of(low: u8, high: u8) -> (r: u16)
    ensures
        r == 256 * high + low,
{
    256 * high as u16 + low as u16
}

/// The control accepts a change and is not disabled right now.
pub open spec fn settable(info: u8) -> bool {
    &&& info & 0x02 != 0
    &&& info & 0x04 == 0
    &&& info & 0x20 == 0
}

/// The capability byte says that the control accepts a change and is not disabled right now.
///
/// D1 is "supports SET value requests". D2 and D5 mean that the control is disabled by an
/// automatic mode or by the current Commit state: a change that the device has said it is not
/// ready for.
#[must_use]
pub fn info_allows_set(info: u8) -> (r: bool)
    ensures
        r == settable(info),
{
    info & 0x02 != 0 && info & 0x04 == 0 && info & 0x20 == 0
}

// ---------------------------------------------------------------------------------------------
// Laws
// ---------------------------------------------------------------------------------------------

/// A failed request is harmless only for the error numbers that say so; every other one is told as
/// the camera's silence, with its number.
pub proof fn an_unknown_failure_counts_as_silence(errno: i32)
    ensures
        XuError::of_errno(errno) == XuError::Unsupported <==> (errno == 1 || errno == 2 || errno
            == 13 || errno == 22 || errno == 32),
        XuError::of_errno(errno) != XuError::Unsupported ==> XuError::of_errno(errno)
            == XuError::Unresponsive(errno),
{
}

/// A control is taken for one exactly where it has 1 to 64 bytes, and a change is offered exactly
/// where the capability byte allows it and neither of the two ways of being disabled is set. Each
/// value is read by its own request.
pub proof fn a_change_needs_the_capability(info: u8, len: int, a: ControlQuery, b: ControlQuery)
    ensures
        plausible_len(len) <==> 1 <= len && len <= 64,
        info & 0x26 == 0x02 <==> settable(info),
        a.spec_code() == b.spec_code() ==> a == b,
        a == ControlQuery::Current ==> a.spec_code() == 0x81,
        a == ControlQuery::Minimum ==> a.spec_code() == 0x82,
        a == ControlQuery::Maximum ==> a.spec_code() == 0x83,
        a == ControlQuery::Resolution ==> a.spec_code() == 0x84,
        a == ControlQuery::Default ==> a.spec_code() == 0x87,
{
    assert((info & 0x26u8 == 0x02u8) == (info & 0x02u8 != 0 && info & 0x04u8 == 0 && info & 0x20u8
        == 0)) by (bit_vector);
}

} // verus!
