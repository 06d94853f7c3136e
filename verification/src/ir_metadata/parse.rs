//! The illumination record of a frame's metadata.
//!
//! uvcvideo hands each metadata buffer as blocks of a twelve-byte host header and the rest of one
//! UVC payload header. The bytes behind the standard part of the payload headers of a frame, one
//! after the other, are a stream of Microsoft metadata items.
use vstd::prelude::*;

verus! {

/// `V4L2_META_FMT_UVC_MSXU_1_5`, four character code `UVCM`.
pub const UVCM: u32 = 0x4d43_5655;

/// `V4L2_META_FMT_UVC`, four character code `UVCH`. The kernel's default and
/// what a device falls back to when it does not recognise a requested format,
/// which makes it the value that proves a request was refused.
pub const UVCH: u32 = 0x4843_5655;

/// `MetadataId_FrameIllumination` from Microsoft's UVC extensions.
pub const METADATA_ID_FRAME_ILLUMINATION: u32 = 6;

/// Size of uvcvideo's own per-buffer header, before the UVC payload header's
/// third byte.
pub const UVC_META_BUF_HEADER: usize = 12;

/// Payload header flag: the frame id, which toggles between frames.
pub const HEADER_FID: u8 = 0x01;

/// Payload header flag: the end of the frame.
pub const HEADER_EOF: u8 = 0x02;

/// Payload header flag: a presentation timestamp follows.
pub const HEADER_PTS: u8 = 0x04;

/// Payload header flag: a source clock reference follows.
pub const HEADER_SCR: u8 = 0x08;

/// Payload header flag: the payload is in error.
pub const HEADER_ERR: u8 = 0x40;

/// Buffer flag: the payload of the buffer is corrupted.
pub const V4L2_BUF_FLAG_ERROR: u32 = 0x0040;

/// The number that four bytes write, least significant first.
pub open spec fn le32(b: Seq<u8>) -> int {
    b[0] + 0x100 * b[1] + 0x1_0000 * b[2] + 0x100_0000 * b[3]
}

/// The number that four bytes at an offset write, least significant first.
fn read_le32(bytes: &[u8], at: usize) -> (r: u32)
    requires
        at + 4 <= bytes@.len(),
    ensures
        r == le32(bytes@.subrange(at as int, at + 4)),
{
    bytes[at] as u32 + 0x100 * bytes[at + 1] as u32 + 0x1_0000 * bytes[at + 2] as u32 + 0x100_0000
        * bytes[at + 3] as u32
}

/// The four character code of a format.
pub fn fourcc(c: &[u8; 4]) -> (r: u32)
    ensures
        r == le32(c@),
{
    c[0] as u32 + 0x100 * c[1] as u32 + 0x1_0000 * c[2] as u32 + 0x100_0000 * c[3] as u32
}

/// One frame's worth of illumination, as the camera reported it.
#[derive(Clone, Copy, Debug, PartialEq, Eq, Structural)]
pub enum Illumination {
    /// The illuminator fired for this frame.
    Lit,
    /// The illuminator did not fire; this frame is the ambient exposure.
    Dark,
}

// ---------------------------------------------------------------------------------------------
// Payload headers
// ---------------------------------------------------------------------------------------------

/// What one payload header says.
pub ghost struct PayloadHeader {
    /// The frame id bit.
    pub fid: u8,
    /// Whether the frame ends here.
    pub eof: bool,
    /// The bytes behind the standard part.
    pub extra: Seq<u8>,
}

/// The bytes of the timestamps that the flags of a header announce.
pub open spec fn timestamp_bytes(flags: u8) -> int {
    (if flags & HEADER_PTS != 0 {
        4int
    } else {
        0int
    }) + (if flags & HEADER_SCR != 0 {
        6int
    } else {
        0int
    })
}

/// Whether a buffer starts with a whole block of a header without error.
pub open spec fn starts_with_header(buf: Seq<u8>) -> bool {
    &&& buf.len() >= UVC_META_BUF_HEADER
    &&& buf[11] & HEADER_ERR == 0
    &&& buf[10] >= 2 + timestamp_bytes(buf[11])
    &&& UVC_META_BUF_HEADER + buf[10] - 2 <= buf.len()
}

/// The length of the block that a buffer starts with.
pub open spec fn block_length(buf: Seq<u8>) -> int {
    UVC_META_BUF_HEADER + buf[10] - 2
}

/// The header that a buffer starts with.
pub open spec fn first_header(buf: Seq<u8>) -> PayloadHeader {
    PayloadHeader {
        fid: buf[11] & HEADER_FID,
        eof: buf[11] & HEADER_EOF != 0,
        extra: buf.subrange(
            UVC_META_BUF_HEADER + timestamp_bytes(buf[11]),
            block_length(buf),
        ),
    }
}

/// The payload headers of a buffer, if it is whole blocks of headers without error.
pub open spec fn payload_headers(buf: Seq<u8>) -> Option<Seq<PayloadHeader>>
    decreases buf.len(),
{
    if buf.len() == 0 {
        Some(Seq::<PayloadHeader>::empty())
    } else if !starts_with_header(buf) {
        None
    } else {
        match payload_headers(buf.skip(block_length(buf))) {
            Some(rest) => Some(seq![first_header(buf)] + rest),
            None => None,
        }
    }
}

/// Whether headers belong to one frame: they share the frame id, and none follows the end.
pub open spec fn one_frame(headers: Seq<PayloadHeader>) -> bool {
    &&& forall|i: int| 0 <= i < headers.len() ==> (#[trigger] headers[i]).fid == headers[0].fid
    &&& forall|i: int| 0 <= i < headers.len() - 1 ==> !(#[trigger] headers[i]).eof
}

/// The bytes behind the standard parts of headers, one after the other.
pub open spec fn joined(headers: Seq<PayloadHeader>) -> Seq<u8>
    decreases headers.len(),
{
    if headers.len() == 0 {
        Seq::<u8>::empty()
    } else {
        joined(headers.drop_last()) + headers.last().extra
    }
}

// ---------------------------------------------------------------------------------------------
// Metadata items
// ---------------------------------------------------------------------------------------------

/// One Microsoft metadata item, its eight-byte header included.
pub ghost struct MetadataItem {
    pub id: int,
    pub bytes: Seq<u8>,
}

/// The size that the item at the start of a stream declares.
pub open spec fn item_size(stream: Seq<u8>) -> int {
    le32(stream.subrange(4, 8))
}

/// Whether a stream starts with a whole item: its header, and a size that holds the header, is a
/// multiple of eight and fits.
pub open spec fn starts_with_item(stream: Seq<u8>) -> bool {
    &&& stream.len() >= 8
    &&& item_size(stream) >= 8
    &&& item_size(stream) % 8 == 0
    &&& item_size(stream) <= stream.len()
}

/// The items of a stream, if it is whole items.
pub open spec fn metadata_items(stream: Seq<u8>) -> Option<Seq<MetadataItem>>
    decreases stream.len(),
{
    if stream.len() == 0 {
        Some(Seq::<MetadataItem>::empty())
    } else if !starts_with_item(stream) {
        None
    } else {
        match metadata_items(stream.skip(item_size(stream))) {
            Some(rest) => Some(
                seq![
                    MetadataItem {
                        id: le32(stream.subrange(0, 4)),
                        bytes: stream.take(item_size(stream)),
                    },
                ] + rest,
            ),
            None => None,
        }
    }
}

/// Whether an item is about the frame's illumination.
pub open spec fn about_illumination(item: MetadataItem) -> bool {
    item.id == METADATA_ID_FRAME_ILLUMINATION
}

/// What an illumination record says: its flags are the four bytes behind the header, and the
/// lowest bit of them is set where the illuminator fired.
pub open spec fn says(item: MetadataItem) -> Illumination {
    if item.bytes[8] % 2 == 1 {
        Illumination::Lit
    } else {
        Illumination::Dark
    }
}

/// Whether items say of the frame exactly `verdict`: at least one record does, every record is
/// complete, and none says otherwise.
pub open spec fn agree_on(items: Seq<MetadataItem>, verdict: Illumination) -> bool {
    &&& exists|i: int| 0 <= i < items.len() && about_illumination(#[trigger] items[i])
    &&& forall|i: int|
        0 <= i < items.len() && about_illumination(#[trigger] items[i]) ==> items[i].bytes.len()
            >= 16 && says(items[i]) == verdict
}

/// What items say of the frame, if they agree.
pub open spec fn verdict_of(items: Seq<MetadataItem>) -> Option<Illumination> {
    if agree_on(items, Illumination::Lit) {
        Some(Illumination::Lit)
    } else if agree_on(items, Illumination::Dark) {
        Some(Illumination::Dark)
    } else {
        None
    }
}

/// What the item stream of a frame says of its illumination.
pub open spec fn stream_illumination(stream: Seq<u8>) -> Option<Illumination> {
    match metadata_items(stream) {
        Some(items) => verdict_of(items),
        None => None,
    }
}

/// What a metadata buffer says of its frame's illumination.
pub open spec fn buffer_illumination(buf: Seq<u8>) -> Option<Illumination> {
    match payload_headers(buf) {
        Some(headers) => if one_frame(headers) {
            stream_illumination(joined(headers))
        } else {
            None
        },
        None => None,
    }
}

// ---------------------------------------------------------------------------------------------
// Reading
// ---------------------------------------------------------------------------------------------

/// Appends the bytes from `from` up to `to`.
fn push_range(out: &mut Vec<u8>, bytes: &[u8], from: usize, to: usize)
    requires
        from <= to <= bytes@.len(),
    ensures
        final(out)@ == old(out)@ + bytes@.subrange(from as int, to as int),
{
    let ghost before = out@;
    let mut i: usize = from;
    while i < to
        invariant
            from <= i <= to <= bytes@.len(),
            out@ == before + bytes@.subrange(from as int, i as int),
        decreases to - i,
    {
        out.push(bytes[i]);
        i = i + 1;
        assert(out@ =~= before + bytes@.subrange(from as int, i as int));
    }
}

/// Read the illumination flag out of one metadata buffer.
///
/// uvcvideo hands each buffer as `struct uvc_meta_buf`, packed:
///
/// ```text
/// __u64 ns; __u16 sof; __u8 length; __u8 flags; __u8 buf[];
/// ```
///
/// where `length` is the payload header's `bHeaderLength` and `flags` its
/// `bmHeaderInfo`, so `buf` carries the remaining `length - 2` bytes. The
/// standard part of the header is 2 bytes plus 4 for a presentation timestamp
/// and 6 for a source clock reference, each present only if `bmHeaderInfo`
/// says so. The extra bytes from all payload headers in this
/// frame are concatenated before reading Microsoft's records, each an 8-byte
/// little-endian `{id, size}` followed by its body.
///
/// A record may cross any payload boundary. Unknown items are skipped by their
/// whole size, including opaque bytes that resemble an illumination item.
/// The entire stream is validated before evidence is returned: malformed tails, UVC
/// errors, conflicting frame IDs, continuation after EOF and contradictory
/// illumination records make the frame unknown. EOF itself is optional.
///
/// Returns `None` when the buffer carries no illumination record, which is
/// normal for the first frame after `STREAMON` and must not be read as "dark".
pub fn parse_illumination(buf: &[u8]) -> (r: Option<Illumination>)
    ensures
        r == buffer_illumination(buf@),
{
    let ghost all = payload_headers(buf@);
    let ghost mut done: Seq<PayloadHeader> = Seq::empty();
    let mut extra: Vec<u8> = Vec::new();
    let mut at: usize = 0;
    let mut fid: Option<u8> = None;
    let mut ended: bool = false;
    assert(buf@.skip(0) =~= buf@);
    proof {
        if let Some(headers) = all {
            assert(done + headers =~= headers);
        }
    }
    while at < buf.len()
        invariant
            at <= buf@.len(),
            all == payload_headers(buf@),
            match payload_headers(buf@.skip(at as int)) {
                Some(rest) => all == Some(done + rest),
                None => all is None,
            },
            extra@ == joined(done),
            one_frame(done),
            fid is Some <==> done.len() > 0,
            done.len() > 0 ==> fid == Some(done[0].fid),
            ended == (done.len() > 0 && done.last().eof),
        decreases buf@.len() - at,
    {
        let ghost rest = buf@.skip(at as int);
        if buf.len() - at < UVC_META_BUF_HEADER {
            return None;
        }
        let body_start: usize = at + UVC_META_BUF_HEADER;
        let length: usize = buf[at + 10] as usize;
        let flags: u8 = buf[at + 11];
        assert(rest[10] == length && rest[11] == flags);
        if length < 2 || flags & HEADER_ERR != 0 {
            return None;
        }
        let conflict: bool = match fid {
            Some(first) => first != flags & HEADER_FID,
            None => false,
        };
        if ended || conflict {
            proof {
                if let Some(headers) = all {
                    // The header at this place contradicts those before it.
                    assert(headers[done.len() as int] == first_header(rest));
                    assert(headers[done.len() - 1] == done.last());
                    assert(headers[0] == done[0]);
                }
            }
            return None;
        }
        if buf.len() - body_start < length - 2 {
            return None;
        }
        let body_end: usize = body_start + (length - 2);
        let standard: usize = (if flags & HEADER_PTS != 0 {
            4usize
        } else {
            0usize
        }) + (if flags & HEADER_SCR != 0 {
            6usize
        } else {
            0usize
        });
        if length - 2 < standard {
            return None;
        }
        push_range(&mut extra, buf, body_start + standard, body_end);
        proof {
            let header = first_header(rest);
            let later = rest.skip(block_length(rest));
            assert(header.extra =~= buf@.subrange(body_start + standard, body_end as int));
            assert(later =~= buf@.skip(body_end as int));
            assert(done.push(header).drop_last() =~= done);
            if let Some(headers) = payload_headers(later) {
                assert(done + (seq![header] + headers) =~= done.push(header) + headers);
            }
            assert forall|i: int| 0 <= i < done.push(header).len() implies (
            #[trigger] done.push(header)[i]).fid == done.push(header)[0].fid by {
                if i < done.len() {
                    assert(done.push(header)[i] == done[i]);
                }
            }
            assert forall|i: int| 0 <= i < done.push(header).len() - 1 implies !(
            #[trigger] done.push(header)[i]).eof by {
                assert(done.push(header)[i] == done[i]);
                if i == done.len() - 1 {
                    assert(!ended);
                }
            }
            done = done.push(header);
        }
        fid = Some(flags & HEADER_FID);
        ended = flags & HEADER_EOF != 0;
        at = body_end;
    }
    assert(buf@.skip(at as int) =~= Seq::<u8>::empty());
    assert(done + Seq::<PayloadHeader>::empty() =~= done);
    illumination_in_frame(extra.as_slice())
}

/// Walk the assembled Microsoft metadata item stream for one frame.
///
/// Require the complete 16-byte FrameIllumination structure and eight-byte
/// item alignment. Preserve compatibility with aligned extensions and unknown
/// flag/reserved bits: only the defined illumination bit is interpreted.
pub fn illumination_in_frame(extra: &[u8]) -> (r: Option<Illumination>)
    ensures
        r == stream_illumination(extra@),
{
    let ghost all = metadata_items(extra@);
    let ghost mut done: Seq<MetadataItem> = Seq::empty();
    let mut at: usize = 0;
    let mut found: Option<Illumination> = None;
    assert(extra@.skip(0) =~= extra@);
    proof {
        if let Some(items) = all {
            assert(done + items =~= items);
        }
    }
    while at < extra.len()
        invariant
            at <= extra@.len(),
            all == metadata_items(extra@),
            match metadata_items(extra@.skip(at as int)) {
                Some(rest) => all == Some(done + rest),
                None => all is None,
            },
            match found {
                Some(verdict) => agree_on(done, verdict),
                None => forall|i: int|
                    0 <= i < done.len() ==> !about_illumination(#[trigger] done[i]),
            },
        decreases extra@.len() - at,
    {
        let ghost rest = extra@.skip(at as int);
        if extra.len() - at < 8 {
            return None;
        }
        let id: u32 = read_le32(extra, at);
        let size: usize = read_le32(extra, at + 4) as usize;
        assert(extra@.subrange(at as int, at + 4) =~= rest.subrange(0, 4));
        assert(extra@.subrange(at + 4, at + 8) =~= rest.subrange(4, 8));
        if size < 8 || size % 8 != 0 {
            return None;
        }
        if extra.len() - at < size {
            return None;
        }
        let end: usize = at + size;
        let ghost item = MetadataItem { id: id as int, bytes: rest.take(size as int) };
        let ghost later = extra@.skip(end as int);
        assert(rest.skip(size as int) =~= later);
        if id == METADATA_ID_FRAME_ILLUMINATION {
            if size < 16 {
                proof {
                    if let Some(items) = all {
                        assert(items[done.len() as int] == item);
                        assert(!agree_on(items, Illumination::Lit));
                        assert(!agree_on(items, Illumination::Dark));
                    }
                }
                return None;
            }
            let lit: bool = extra[at + 8] % 2 == 1;
            assert(item.bytes[8] == extra@[at + 8]);
            let illumination: Illumination = if lit {
                Illumination::Lit
            } else {
                Illumination::Dark
            };
            if let Some(previous) = found {
                if previous != illumination {
                    proof {
                        if let Some(items) = all {
                            assert(items[done.len() as int] == item);
                            let i = choose|i: int|
                                0 <= i < done.len() && about_illumination(#[trigger] done[i]);
                            assert(items[i] == done[i]);
                            assert(says(items[i]) != says(items[done.len() as int]));
                        }
                    }
                    return None;
                }
            }
            proof {
                let longer = done.push(item);
                assert(longer[done.len() as int] == item);
                assert forall|i: int|
                    0 <= i < longer.len() && about_illumination(
                        #[trigger] longer[i],
                    ) implies longer[i].bytes.len() >= 16 && says(longer[i])
                    == illumination by {
                    if i < done.len() {
                        assert(longer[i] == done[i]);
                    }
                }
            }
            found = Some(illumination);
        } else {
            proof {
                let longer = done.push(item);
                if let Some(verdict) = found {
                    let i = choose|i: int|
                        0 <= i < done.len() && about_illumination(#[trigger] done[i]);
                    assert(about_illumination(longer[i]));
                    assert forall|i: int|
                        0 <= i < longer.len() && about_illumination(
                            #[trigger] longer[i],
                        ) implies longer[i].bytes.len() >= 16 && says(longer[i])
                        == verdict by {
                        assert(longer[i] == done[i]);
                    }
                }
            }
        }
        proof {
            if let Some(items) = metadata_items(later) {
                assert(done + (seq![item] + items) =~= done.push(item) + items);
            }
            done = done.push(item);
        }
        at = end;
    }
    assert(extra@.skip(at as int) =~= Seq::<u8>::empty());
    assert(done + Seq::<MetadataItem>::empty() =~= done);
    proof {
        if let Some(verdict) = found {
            let i = choose|i: int| 0 <= i < done.len() && about_illumination(#[trigger] done[i]);
            assert(says(done[i]) == verdict);
        }
    }
    found
}

/// What a dequeued metadata buffer says: nothing where the driver marked it as corrupt.
pub fn illumination_in_dequeued_buffer(bytes: &[u8], flags: u32) -> (r: Option<Illumination>)
    ensures
        r == (if flags & V4L2_BUF_FLAG_ERROR != 0 {
            None
        } else {
            buffer_illumination(bytes@)
        }),
{
    if flags & V4L2_BUF_FLAG_ERROR != 0 {
        return None;
    }
    parse_illumination(bytes)
}

// ---------------------------------------------------------------------------------------------
// Laws
// ---------------------------------------------------------------------------------------------

/// Where a frame's item stream is split between payload headers makes no difference: buffers of
/// one frame each whose extra bytes join to the same stream say the same.
pub proof fn splits_do_not_matter(
    a: Seq<u8>,
    b: Seq<u8>,
    of_a: Seq<PayloadHeader>,
    of_b: Seq<PayloadHeader>,
)
    requires
        payload_headers(a) == Some(of_a),
        payload_headers(b) == Some(of_b),
        one_frame(of_a),
        one_frame(of_b),
        joined(of_a) == joined(of_b),
    ensures
        buffer_illumination(a) == buffer_illumination(b),
{
}

/// Blocks behind blocks: a buffer that is whole blocks and then others has the headers of both,
/// and none where the others are malformed.
pub proof fn headers_of_concatenation(a: Seq<u8>, b: Seq<u8>)
    requires
        payload_headers(a) is Some,
    ensures
        payload_headers(a + b) == (match payload_headers(b) {
            Some(headers) => Some(payload_headers(a)->0 + headers),
            None => None,
        }),
    decreases a.len(),
{
    if a.len() == 0 {
        assert(a + b =~= b);
        if let Some(headers) = payload_headers(b) {
            assert(Seq::<PayloadHeader>::empty() + headers =~= headers);
        }
    } else {
        let n = block_length(a);
        headers_of_concatenation(a.skip(n), b);
        assert((a + b).skip(n) =~= a.skip(n) + b);
        assert((a + b).subrange(UVC_META_BUF_HEADER + timestamp_bytes(a[11]), n) =~= a.subrange(
            UVC_META_BUF_HEADER + timestamp_bytes(a[11]),
            n,
        ));
        if let Some(headers) = payload_headers(b) {
            let first = seq![first_header(a)];
            let rest = payload_headers(a.skip(n))->0;
            assert(first + (rest + headers) =~= (first + rest) + headers);
        }
    }
}

/// A complete record does not hide what follows it: well-formed blocks with malformed bytes
/// behind them say nothing.
pub proof fn malformed_tails_are_not_hidden(a: Seq<u8>, b: Seq<u8>)
    requires
        payload_headers(a) is Some,
        payload_headers(b) is None,
    ensures
        buffer_illumination(a + b) is None,
{
    headers_of_concatenation(a, b);
}

/// A header in error anywhere makes the whole frame unknown.
pub proof fn an_error_header_invalidates_the_frame(a: Seq<u8>, bad: Seq<u8>, b: Seq<u8>)
    requires
        payload_headers(a) is Some,
        bad.len() >= UVC_META_BUF_HEADER,
        bad[11] & HEADER_ERR != 0,
    ensures
        buffer_illumination(a + (bad + b)) is None,
{
    assert((bad + b)[11] == bad[11]);
    headers_of_concatenation(a, bad + b);
}

/// Headers of different frames in one buffer make the frame unknown, whatever they carry.
pub proof fn frames_are_never_mixed(
    buf: Seq<u8>,
    headers: Seq<PayloadHeader>,
    i: int,
    j: int,
)
    requires
        payload_headers(buf) == Some(headers),
        0 <= i < headers.len(),
        0 <= j < headers.len(),
        headers[i].fid != headers[j].fid,
    ensures
        buffer_illumination(buf) is None,
{
}

/// A frame is called lit or dark only where a complete record says so and none says otherwise.
pub proof fn evidence_is_a_complete_record(buf: Seq<u8>, verdict: Illumination)
    requires
        buffer_illumination(buf) == Some(verdict),
    ensures
        ({
            let headers = payload_headers(buf)->0;
            let items = metadata_items(joined(headers))->0;
            &&& payload_headers(buf) is Some
            &&& one_frame(headers)
            &&& metadata_items(joined(headers)) is Some
            &&& agree_on(items, verdict)
        }),
{
}

/// A buffer of one whole block without error says what the items behind its header say: behind the
/// twelve bytes of the host's header, the four of a presentation timestamp and the six of a source
/// clock reference, each where the flags announce it.
pub proof fn one_block_carries_its_items(buf: Seq<u8>)
    requires
        buf.len() >= 12,
        buf.len() == 10 + buf[10],
        buf[11] & 0x40u8 == 0,
    ensures
        ({
            let from = 12 + (if buf[11] & 0x04u8 != 0 {
                4int
            } else {
                0int
            }) + (if buf[11] & 0x08u8 != 0 {
                6int
            } else {
                0int
            });
            buffer_illumination(buf) == (if from <= buf.len() {
                stream_illumination(buf.subrange(from, buf.len() as int))
            } else {
                None
            })
        }),
{
    reveal_with_fuel(payload_headers, 2);
    reveal_with_fuel(joined, 2);
    if starts_with_header(buf) {
        let header = first_header(buf);
        assert(buf.skip(block_length(buf)) =~= Seq::<u8>::empty());
        assert(seq![header] + Seq::<PayloadHeader>::empty() =~= seq![header]);
        assert(payload_headers(buf) == Some(seq![header]));
        assert(seq![header].drop_last() =~= Seq::<PayloadHeader>::empty());
        assert(Seq::<u8>::empty() + header.extra =~= header.extra);
        assert(joined(seq![header]) == header.extra);
        assert(one_frame(seq![header]));
    }
}

/// Two whole blocks say together what the items behind the first and then the second say, where both
/// have the same frame id and the first does not end the frame. Otherwise they say nothing.
pub proof fn two_blocks_join_their_items(a: Seq<u8>, b: Seq<u8>)
    requires
        a.len() >= 12,
        a.len() == 10 + a[10],
        a[11] & 0x4cu8 == 0,
        b.len() >= 12,
        b.len() == 10 + b[10],
        b[11] & 0x4cu8 == 0,
    ensures
        buffer_illumination(a + b) == (if a[11] & 0x01u8 == b[11] & 0x01u8 && a[11] & 0x02u8 == 0 {
            stream_illumination(a.skip(12) + b.skip(12))
        } else {
            None
        }),
{
    reveal_with_fuel(payload_headers, 2);
    reveal_with_fuel(joined, 3);
    let f = a[11];
    let g = b[11];
    assert(f & 0x40u8 == 0 && f & 0x04u8 == 0 && f & 0x08u8 == 0) by (bit_vector)
        requires
            f & 0x4cu8 == 0,
    ;
    assert(g & 0x40u8 == 0 && g & 0x04u8 == 0 && g & 0x08u8 == 0) by (bit_vector)
        requires
            g & 0x4cu8 == 0,
    ;
    let first = first_header(a);
    let second = first_header(b);
    assert(a.skip(block_length(a)) =~= Seq::<u8>::empty());
    assert(b.skip(block_length(b)) =~= Seq::<u8>::empty());
    assert(seq![first] + Seq::<PayloadHeader>::empty() =~= seq![first]);
    assert(seq![second] + Seq::<PayloadHeader>::empty() =~= seq![second]);
    assert(payload_headers(a) == Some(seq![first]));
    assert(payload_headers(b) == Some(seq![second]));
    headers_of_concatenation(a, b);
    let both = seq![first] + seq![second];
    assert(both =~= seq![first, second]);
    assert(first.extra =~= a.skip(12));
    assert(second.extra =~= b.skip(12));
    assert(both.drop_last() =~= seq![first]);
    assert(seq![first].drop_last() =~= Seq::<PayloadHeader>::empty());
    assert(Seq::<u8>::empty() + first.extra =~= first.extra);
    assert(joined(seq![first]) == first.extra);
    assert(joined(both) == first.extra + second.extra);
    if a[11] & 0x01u8 == b[11] & 0x01u8 && a[11] & 0x02u8 == 0 {
        assert(one_frame(both));
    } else {
        assert(both[0] == first && both[1] == second);
        assert(!one_frame(both));
    }
}

/// A header behind the end of a frame makes the frame unknown.
pub proof fn nothing_follows_the_end_of_a_frame(buf: Seq<u8>, headers: Seq<PayloadHeader>, i: int)
    requires
        payload_headers(buf) == Some(headers),
        0 <= i < headers.len() - 1,
        headers[i].eof,
    ensures
        buffer_illumination(buf) is None,
{
}

/// Items behind items: a stream of whole items and then others has the items of both, and none where
/// the others are malformed.
pub proof fn items_of_concatenation(a: Seq<u8>, b: Seq<u8>)
    requires
        metadata_items(a) is Some,
    ensures
        metadata_items(a + b) == (match metadata_items(b) {
            Some(items) => Some(metadata_items(a)->0 + items),
            None => None,
        }),
    decreases a.len(),
{
    if a.len() == 0 {
        assert(a + b =~= b);
        if let Some(items) = metadata_items(b) {
            assert(Seq::<MetadataItem>::empty() + items =~= items);
        }
    } else {
        let n = item_size(a);
        assert((a + b).subrange(4, 8) =~= a.subrange(4, 8));
        assert((a + b).subrange(0, 4) =~= a.subrange(0, 4));
        assert((a + b).take(n) =~= a.take(n));
        items_of_concatenation(a.skip(n), b);
        assert((a + b).skip(n) =~= a.skip(n) + b);
        if let Some(items) = metadata_items(b) {
            let first = seq![MetadataItem { id: le32(a.subrange(0, 4)), bytes: a.take(n) }];
            let rest = metadata_items(a.skip(n))->0;
            assert(first + (rest + items) =~= (first + rest) + items);
        }
    }
}

/// Whether bytes are one item of a kind: four bytes of the kind's number and four of the item's size,
/// least significant first, and as many bytes as that size, a multiple of eight.
pub open spec fn lone_item(bytes: Seq<u8>, id: int) -> bool {
    &&& bytes.len() >= 8
    &&& bytes.len() % 8 == 0
    &&& bytes[0] + 0x100 * bytes[1] + 0x1_0000 * bytes[2] + 0x100_0000 * bytes[3] == id
    &&& bytes[4] + 0x100 * bytes[5] + 0x1_0000 * bytes[6] + 0x100_0000 * bytes[7] == bytes.len()
}

proof fn a_lone_item_is_one_item(bytes: Seq<u8>, id: int)
    requires
        lone_item(bytes, id),
    ensures
        metadata_items(bytes) == Some(seq![MetadataItem { id, bytes }]),
{
    reveal_with_fuel(metadata_items, 2);
    assert(bytes.subrange(4, 8) =~= seq![bytes[4], bytes[5], bytes[6], bytes[7]]);
    assert(bytes.subrange(0, 4) =~= seq![bytes[0], bytes[1], bytes[2], bytes[3]]);
    let n = item_size(bytes);
    assert(n == bytes.len());
    assert(bytes.take(n) =~= bytes);
    assert(bytes.skip(n) =~= Seq::<u8>::empty());
    assert(seq![MetadataItem { id, bytes }] + Seq::<MetadataItem>::empty() =~= seq![
        MetadataItem { id, bytes },
    ]);
}

/// A complete illumination record says that the frame is lit exactly where the lowest bit of its
/// flags is set, and else that it is dark. One that is cut short says nothing.
pub proof fn a_record_says_whether_the_frame_is_lit(record: Seq<u8>)
    requires
        lone_item(record, 6),
    ensures
        stream_illumination(record) == (if record.len() < 16 {
            None
        } else if record[8] % 2 == 1 {
            Some(Illumination::Lit)
        } else {
            Some(Illumination::Dark)
        }),
{
    a_lone_item_is_one_item(record, 6);
    let items = seq![MetadataItem { id: 6, bytes: record }];
    assert(items[0] == (MetadataItem { id: 6, bytes: record }));
    assert(about_illumination(items[0]));
}

/// An item of another kind changes nothing, wherever it stands and whatever it holds.
pub proof fn other_items_are_skipped(a: Seq<u8>, other: Seq<u8>, b: Seq<u8>, id: int)
    requires
        metadata_items(a) is Some,
        lone_item(other, id),
        id != 6,
    ensures
        stream_illumination(a + (other + b)) == stream_illumination(a + b),
{
    a_lone_item_is_one_item(other, id);
    items_of_concatenation(other, b);
    items_of_concatenation(a, other + b);
    items_of_concatenation(a, b);
    if let Some(of_b) = metadata_items(b) {
        let of_a = metadata_items(a)->0;
        let item = MetadataItem { id, bytes: other };
        let longer = of_a + (seq![item] + of_b);
        let shorter = of_a + of_b;
        let n = of_a.len() as int;
        assert forall|verdict: Illumination| #[trigger] agree_on(longer, verdict) == agree_on(
            shorter,
            verdict,
        ) by {
            assert(longer[n] == item);
            assert forall|i: int| 0 <= i < shorter.len() implies #[trigger] shorter[i] == longer[if i
                < n {
                i
            } else {
                i + 1
            }] by {}
            assert forall|i: int| 0 <= i < longer.len() && i != n implies #[trigger] longer[i]
                == shorter[if i < n {
                i
            } else {
                i - 1
            }] by {}
            if exists|i: int| 0 <= i < shorter.len() && about_illumination(#[trigger] shorter[i]) {
                let i = choose|i: int|
                    0 <= i < shorter.len() && about_illumination(#[trigger] shorter[i]);
                assert(about_illumination(longer[if i < n {
                    i
                } else {
                    i + 1
                }]));
            }
            if exists|i: int| 0 <= i < longer.len() && about_illumination(#[trigger] longer[i]) {
                let i = choose|i: int|
                    0 <= i < longer.len() && about_illumination(#[trigger] longer[i]);
                assert(about_illumination(shorter[if i < n {
                    i
                } else {
                    i - 1
                }]));
            }
        }
    }
}

/// Records that say the same say it together, and records that contradict each other say nothing.
pub proof fn records_have_to_agree(a: Seq<u8>, b: Seq<u8>)
    requires
        stream_illumination(a) is Some,
        stream_illumination(b) is Some,
    ensures
        stream_illumination(a + b) == (if stream_illumination(a) == stream_illumination(b) {
            stream_illumination(a)
        } else {
            None
        }),
{
    items_of_concatenation(a, b);
    let of_a = metadata_items(a)->0;
    let of_b = metadata_items(b)->0;
    let all = of_a + of_b;
    let v = stream_illumination(a)->0;
    let w = stream_illumination(b)->0;
    let i = choose|i: int| 0 <= i < of_a.len() && about_illumination(#[trigger] of_a[i]);
    let j = choose|j: int| 0 <= j < of_b.len() && about_illumination(#[trigger] of_b[j]);
    assert(all[i] == of_a[i]);
    assert(all[of_a.len() + j] == of_b[j]);
    assert(says(all[i]) == v);
    assert(says(all[of_a.len() + j]) == w);
    if v == w {
        assert forall|k: int|
            0 <= k < all.len() && about_illumination(#[trigger] all[k]) implies all[k].bytes.len()
            >= 16 && says(all[k]) == v by {
            if k < of_a.len() {
                assert(all[k] == of_a[k]);
            } else {
                assert(all[k] == of_b[k - of_a.len()]);
            }
        }
        assert(agree_on(all, v));
    }
}

/// A stream without a record says nothing.
pub proof fn no_record_says_nothing(stream: Seq<u8>, items: Seq<MetadataItem>)
    requires
        metadata_items(stream) == Some(items),
        forall|i: int| 0 <= i < items.len() ==> (#[trigger] items[i]).id != 6,
    ensures
        stream_illumination(stream) is None,
{
}

/// Bytes behind whole items that are no item make the stream say nothing: fewer than the eight of a
/// header, or a size that is below eight, no multiple of eight or more than there is.
pub proof fn a_malformed_item_is_not_hidden(a: Seq<u8>, bad: Seq<u8>)
    requires
        metadata_items(a) is Some,
        bad.len() > 0,
        bad.len() < 8 || ({
            let size = bad[4] + 0x100 * bad[5] + 0x1_0000 * bad[6] + 0x100_0000 * bad[7];
            size < 8 || size % 8 != 0 || size > bad.len()
        }),
    ensures
        stream_illumination(a + bad) is None,
{
    items_of_concatenation(a, bad);
    if bad.len() >= 8 {
        assert(bad.subrange(4, 8) =~= seq![bad[4], bad[5], bad[6], bad[7]]);
    }
}

} // verus!
