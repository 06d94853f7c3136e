//! The request numbers of the V4L2 ioctls on a metadata node.
//!
//! The size of an ioctl's argument is encoded in its request number, so a wrong size makes every
//! call fail as on a device that does not support metadata.
use vstd::prelude::*;

verus! {

/// Size of `struct v4l2_format`.
pub const FORMAT_SIZE: u64 = 208;

/// Size of `struct v4l2_requestbuffers`.
pub const REQUEST_BUFFERS_SIZE: u64 = 20;

/// Size of `struct v4l2_buffer`.
pub const BUFFER_SIZE: u64 = 88;

/// Size of an `int`.
pub const INT_SIZE: u64 = 4;

/// The request number of direction `direction` (1 writes, 3 reads and writes), V4L2's type
/// letter `V`, and an argument of `size` bytes.
pub open spec fn request_number(direction: int, nr: int, size: int) -> int {
    direction * 0x4000_0000 + size * 0x1_0000 + 0x56 * 0x100 + nr
}

/// The request number of an ioctl that reads and writes its argument.
pub fn iowr(nr: u64, size: u64) -> (r: u64)
    requires
        nr < 0x100,
        size < 0x4000,
    ensures
        r == request_number(3, nr as int, size as int),
{
    3 * 0x4000_0000 + size * 0x1_0000 + 0x56 * 0x100 + nr
}

/// The request number of an ioctl that only reads its argument from the caller.
pub fn iow(nr: u64, size: u64) -> (r: u64)
    requires
        nr < 0x100,
        size < 0x4000,
    ensures
        r == request_number(1, nr as int, size as int),
{
    0x4000_0000 + size * 0x1_0000 + 0x56 * 0x100 + nr
}

pub fn vidioc_g_fmt() -> (r: u64)
    ensures
        r == 0xc0d0_5604,
{
    iowr(4, FORMAT_SIZE)
}

pub fn vidioc_s_fmt() -> (r: u64)
    ensures
        r == 0xc0d0_5605,
{
    iowr(5, FORMAT_SIZE)
}

pub fn vidioc_try_fmt() -> (r: u64)
    ensures
        r == 0xc0d0_5640,
{
    iowr(64, FORMAT_SIZE)
}

pub fn vidioc_reqbufs() -> (r: u64)
    ensures
        r == 0xc014_5608,
{
    iowr(8, REQUEST_BUFFERS_SIZE)
}

pub fn vidioc_querybuf() -> (r: u64)
    ensures
        r == 0xc058_5609,
{
    iowr(9, BUFFER_SIZE)
}

pub fn vidioc_qbuf() -> (r: u64)
    ensures
        r == 0xc058_560f,
{
    iowr(15, BUFFER_SIZE)
}

pub fn vidioc_dqbuf() -> (r: u64)
    ensures
        r == 0xc058_5611,
{
    iowr(17, BUFFER_SIZE)
}

pub fn vidioc_streamon() -> (r: u64)
    ensures
        r == 0x4004_5612,
{
    iow(18, INT_SIZE)
}

pub fn vidioc_streamoff() -> (r: u64)
    ensures
        r == 0x4004_5613,
{
    iow(19, INT_SIZE)
}

} // verus!
