//! What the encoder does, said of the settings it is given, the answers it gets and the calls it
//! makes.
use crate::encoders::abi;
use crate::encoders::abi::{AbiSizes, ControlValue, ExportBuffer, ExtControls, Format, Queued};
use crate::encoders::encode;
use crate::encoders::rate;
use crate::encoders::rate::RateChange;
use crate::encoders::setup;
use crate::encoders::setup::Creation;
use crate::encoders::teardown;
use crate::encoders::tegra;
use crate::encoders::tegra::{Call, Codec, Device, OsErrorView, Reference, ReplyView};
use crate::encoders::tegra::{RustCaptureSettings, VideoHeader};
use crate::encoders::vendor;
use crate::encoders::vendor::{LoadPhase, LoadProgress, LoadReplyView, LoadStepView, Loading};
use crate::text;
use vstd::prelude::*;

verus! {

/// The number of an ioctl of V4L2 that reads and writes an argument of `size` bytes, or only writes
/// one: direction, size, the letter V and a number of its own.
pub open spec fn ioctl_number(both: bool, size: u64, number: u64) -> u64 {
    ((if both {
        3u64
    } else {
        1u64
    }) << 30) | (size << 16) | (0x56u64 << 8) | number
}

/// The ioctl numbers are made up as the kernel makes them up.
pub proof fn ioctls_are_numbered_by_the_kernel()
    ensures
        abi::VIDIOC_S_FMT == ioctl_number(true, 208, 5),
        abi::VIDIOC_REQBUFS == ioctl_number(true, 20, 8),
        abi::VIDIOC_QUERYBUF == ioctl_number(true, 88, 9),
        abi::VIDIOC_QBUF == ioctl_number(true, 88, 15),
        abi::VIDIOC_EXPBUF == ioctl_number(true, 64, 16),
        abi::VIDIOC_DQBUF == ioctl_number(true, 88, 17),
        abi::VIDIOC_STREAMON == ioctl_number(false, 4, 18),
        abi::VIDIOC_STREAMOFF == ioctl_number(false, 4, 19),
        abi::VIDIOC_S_EXT_CTRLS == ioctl_number(true, 32, 72),
{
    assert(0xc0d0_5605u64 == (3u64 << 30) | (208u64 << 16) | (0x56u64 << 8) | 5u64) by (bit_vector);
    assert(0xc014_5608u64 == (3u64 << 30) | (20u64 << 16) | (0x56u64 << 8) | 8u64) by (bit_vector);
    assert(0xc058_5609u64 == (3u64 << 30) | (88u64 << 16) | (0x56u64 << 8) | 9u64) by (bit_vector);
    assert(0xc058_560fu64 == (3u64 << 30) | (88u64 << 16) | (0x56u64 << 8) | 15u64) by (bit_vector);
    assert(0xc040_5610u64 == (3u64 << 30) | (64u64 << 16) | (0x56u64 << 8) | 16u64) by (bit_vector);
    assert(0xc058_5611u64 == (3u64 << 30) | (88u64 << 16) | (0x56u64 << 8) | 17u64) by (bit_vector);
    assert(0x4004_5612u64 == (1u64 << 30) | (4u64 << 16) | (0x56u64 << 8) | 18u64) by (bit_vector);
    assert(0x4004_5613u64 == (1u64 << 30) | (4u64 << 16) | (0x56u64 << 8) | 19u64) by (bit_vector);
    assert(0xc020_5648u64 == (3u64 << 30) | (32u64 << 16) | (0x56u64 << 8) | 72u64) by (bit_vector);
}

/// The pixel formats are four characters each, and every control is counted from the base of the
/// codec class, which is the class that controls are sent under.
pub proof fn formats_and_controls_are_numbered_by_the_kernel()
    ensures
        abi::V4L2_PIX_FMT_NV12M == 'N' as u32 + 0x100 * ('M' as u32) + 0x1_0000 * ('1' as u32)
            + 0x100_0000 * ('2' as u32),
        abi::V4L2_PIX_FMT_H264 == 'H' as u32 + 0x100 * ('2' as u32) + 0x1_0000 * ('6' as u32)
            + 0x100_0000 * ('4' as u32),
        abi::V4L2_CTRL_CLASS_MPEG == 0x99_0000,
        abi::CID_BITRATE_MODE == abi::V4L2_CTRL_CLASS_MPEG + 0x900 + 206,
        abi::CID_BITRATE == abi::V4L2_CTRL_CLASS_MPEG + 0x900 + 207,
        abi::CID_H264_PROFILE == abi::V4L2_CTRL_CLASS_MPEG + 0x900 + 363,
        abi::CID_IDR_INTERVAL == abi::V4L2_CTRL_CLASS_MPEG + 0x900 + 514,
        abi::CID_VBV_SIZE == abi::V4L2_CTRL_CLASS_MPEG + 0x900 + 531,
        abi::CID_INSERT_SPS_PPS_AT_IDR == abi::V4L2_CTRL_CLASS_MPEG + 0x900 + 535,
        abi::CID_HW_PRESET == abi::V4L2_CTRL_CLASS_MPEG + 0x900 + 540,
        abi::CID_INSERT_VUI == abi::V4L2_CTRL_CLASS_MPEG + 0x900 + 546,
        abi::CID_MAX_PERFORMANCE == abi::V4L2_CTRL_CLASS_MPEG + 0x900 + 554,
        abi::CID_POC_TYPE == abi::V4L2_CTRL_CLASS_MPEG + 0x900 + 563,
        abi::CID_FORCE_IDR_FRAME == abi::V4L2_CTRL_CLASS_MPEG + 0x900 + 567,
{
}

/// Every call that the device itself answers is made by the ioctl that is named for it, and no
/// other call is made by one.
pub proof fn calls_are_made_by_their_ioctls(call: Call)
    ensures
        match call {
            Call::SetFormat(_) => call.request_of() == Some(ioctl_number(true, 208, 5)),
            Call::RequestBuffers(_) => call.request_of() == Some(ioctl_number(true, 20, 8)),
            Call::QueryBuffer(_) => call.request_of() == Some(ioctl_number(true, 88, 9)),
            Call::QueueBuffer(_) => call.request_of() == Some(ioctl_number(true, 88, 15)),
            Call::ExportBuffer(_) => call.request_of() == Some(ioctl_number(true, 64, 16)),
            Call::DequeueBuffer(_) => call.request_of() == Some(ioctl_number(true, 88, 17)),
            Call::StreamOn(_) => call.request_of() == Some(ioctl_number(false, 4, 18)),
            Call::StreamOff(_) => call.request_of() == Some(ioctl_number(false, 4, 19)),
            Call::SetControl(_) => call.request_of() == Some(ioctl_number(true, 32, 72)),
            _ => call.request_of() is None,
        },
{
    ioctls_are_numbered_by_the_kernel();
}

/// The sizes match exactly if each structure has the size that the kernel gives it.
pub proof fn sizes_match_one_by_one(sizes: AbiSizes)
    ensures
        setup::sizes_match(sizes) <==> {
            &&& sizes.format == 208
            &&& sizes.request_buffers == 20
            &&& sizes.buffer == 88
            &&& sizes.plane == 64
            &&& sizes.export_buffer == 64
            &&& sizes.ext_control == 20
            &&& sizes.ext_controls == 32
            &&& sizes.create_params == 28
        },
{
    let table = abi::abi_table(sizes);
    assert(table.len() == 8);
    assert(table[0].got == sizes.format && table[0].want == 208);
    assert(table[1].got == sizes.request_buffers && table[1].want == 20);
    assert(table[2].got == sizes.buffer && table[2].want == 88);
    assert(table[3].got == sizes.plane && table[3].want == 64);
    assert(table[4].got == sizes.export_buffer && table[4].want == 64);
    assert(table[5].got == sizes.ext_control && table[5].want == 20);
    assert(table[6].got == sizes.ext_controls && table[6].want == 32);
    assert(table[7].got == sizes.create_params && table[7].want == 28);
}

/// The message on a size that does not match names the structure, both sizes, and is about the
/// first of them.
pub proof fn wrong_size_is_named(sizes: AbiSizes, i: int)
    requires
        abi::first_mismatch(abi::abi_table(sizes), i),
    ensures
        ({
            let told = abi::mismatch(abi::abi_table(sizes)[i]);
            let is = " is "@;
            let here = " bytes here, the kernel ABI is "@;
            if sizes.format != 208 {
                told == "v4l2_format"@ + is + text::decimal(sizes.format as nat) + here
                    + text::decimal(208)
            } else if sizes.request_buffers != 20 {
                told == "v4l2_requestbuffers"@ + is + text::decimal(sizes.request_buffers as nat)
                    + here + text::decimal(20)
            } else if sizes.buffer != 88 {
                told == "v4l2_buffer"@ + is + text::decimal(sizes.buffer as nat) + here
                    + text::decimal(88)
            } else if sizes.plane != 64 {
                told == "v4l2_plane"@ + is + text::decimal(sizes.plane as nat) + here
                    + text::decimal(64)
            } else if sizes.export_buffer != 64 {
                told == "v4l2_exportbuffer"@ + is + text::decimal(sizes.export_buffer as nat) + here
                    + text::decimal(64)
            } else if sizes.ext_control != 20 {
                told == "v4l2_ext_control"@ + is + text::decimal(sizes.ext_control as nat) + here
                    + text::decimal(20)
            } else if sizes.ext_controls != 32 {
                told == "v4l2_ext_controls"@ + is + text::decimal(sizes.ext_controls as nat) + here
                    + text::decimal(32)
            } else {
                told == "NvBufferCreateParams"@ + is + text::decimal(sizes.create_params as nat)
                    + here + text::decimal(28)
            }
        }),
{
    let table = abi::abi_table(sizes);
    sizes_match_one_by_one(sizes);
    assert(table.len() == 8);
    assert(table[0].got == sizes.format);
    assert(table[1].got == sizes.request_buffers);
    assert(table[2].got == sizes.buffer);
    assert(table[3].got == sizes.plane);
    assert(table[4].got == sizes.export_buffer);
    assert(table[5].got == sizes.ext_control);
    assert(table[6].got == sizes.ext_controls);
}

/// The encoder takes a size exactly if both sides are twice a positive number.
pub proof fn sides_are_even_and_positive(width: i32, height: i32)
    ensures
        tegra::takes(width, height) <==> (exists|a: int, b: int|
            a > 0 && b > 0 && #[trigger] (2 * a) == width && #[trigger] (2 * b) == height),
{
    if tegra::takes(width, height) {
        let a = width as int / 2;
        let b = height as int / 2;
        assert(2 * a == width && 2 * b == height);
    }
}

/// A rate in kilobits is a thousand times as many bits, but for rates below one kilobit, which come
/// to one, and for those that do not fit in 32 bits, which come to the greatest number that does.
pub proof fn kilobits_are_a_thousand_bits(kbps: i32)
    ensures
        kbps <= 1 ==> tegra::bits_per_second(kbps) == 1000,
        1 <= kbps && kbps * 1000 <= 0xffff_ffff ==> tegra::bits_per_second(kbps) == kbps * 1000,
        kbps * 1000 > 0xffff_ffff ==> tegra::bits_per_second(kbps) == 0xffff_ffff,
{
}

/// A format that asks for pictures of this kind, and for nothing else: whatever is not asked for is
/// zero.
pub open spec fn asks_for(
    f: Format,
    type_: u32,
    width: int,
    height: int,
    pixelformat: u32,
    planes: u8,
    sizeimage: int,
) -> bool {
    &&& f.type_ == type_
    &&& f.pix_mp.width == width && f.pix_mp.height == height
    &&& f.pix_mp.pixelformat == pixelformat && f.pix_mp.num_planes == planes
    &&& f.pix_mp.field == 1 && f.pix_mp.colorspace == 0
    &&& f.pix_mp.flags == 0 && f.pix_mp.enc == 0 && f.pix_mp.quantization == 0
    &&& f.pix_mp.xfer_func == 0
    &&& forall|j: int| 0 <= j < 7 ==> #[trigger] f.pix_mp.reserved[j] == 0
    &&& forall|j: int|
        0 <= j < 8 ==> (#[trigger] f.pix_mp.plane_fmt[j]).sizeimage == if j == 0 {
            sizeimage
        } else {
            0
        }
    &&& forall|j: int| 0 <= j < 8 ==> (#[trigger] f.pix_mp.plane_fmt[j]).bytesperline == 0
    &&& forall|j: int, k: int|
        0 <= j < 8 && 0 <= k < 6 ==> #[trigger] f.pix_mp.plane_fmt[j].reserved[k] == 0
}

/// A format asks for the picture it is made of, whatever that is.
pub proof fn format_asks_for_its_picture(
    width: i32,
    height: i32,
    type_: u32,
    pixelformat: u32,
    planes: u8,
    sizeimage: u32,
)
    requires
        width >= 0,
        height >= 0,
    ensures
        asks_for(
            abi::format_of(width, height, type_, pixelformat, planes, sizeimage),
            type_,
            width as int,
            height as int,
            pixelformat,
            planes,
            sizeimage as int,
        ),
{
}

/// A buffer that names its queue, its memory, its number and its planes, and holds nothing.
pub open spec fn empty_buffer(q: Queued, type_: u32, memory: u32, index: int, count: u32) -> bool {
    &&& q.buffer.type_ == type_ && q.buffer.memory == memory
    &&& q.buffer.index == index && q.buffer.length == count
    &&& q.buffer.bytesused == 0 && q.buffer.flags == 0 && q.buffer.field == 0
    &&& q.buffer.timestamp[0] == 0 && q.buffer.timestamp[1] == 0
    &&& forall|j: int| 0 <= j < 4 ==> #[trigger] q.buffer.timecode[j] == 0
    &&& q.buffer.sequence == 0 && q.buffer.reserved2 == 0 && q.buffer.reserved == 0
    &&& forall|p: int| 0 <= p < 2 ==> empty_plane(#[trigger] q.planes[p])
}

/// A plane that holds nothing and names nothing.
pub open spec fn empty_plane(p: abi::Plane) -> bool {
    &&& p.bytesused == 0 && p.length == 0 && p.m == 0 && p.data_offset == 0
    &&& forall|j: int| 0 <= j < 11 ==> #[trigger] p.reserved[j] == 0
}

/// A control that is sent alone under the encoder's class, set to `value` in itself.
pub open spec fn sets(c: ExtControls, id: int, value: int) -> bool {
    &&& sent_alone(c, id)
    &&& c.control.value matches ControlValue::Inline(v)
    &&& v == value
}

/// A control that is sent alone under the encoder's class, set to `value` through a pointer.
pub open spec fn sets_through_pointer(c: ExtControls, id: int, value: int) -> bool {
    &&& sent_alone(c, id)
    &&& c.control.value matches ControlValue::Pointer(v)
    &&& v == value
}

/// The low 32 bits of a number, which are the number itself where it fits in them.
pub open spec fn low_half(n: i64) -> int {
    (n as u64 % 0x1_0000_0000) as int
}

/// A number that fits in 32 bits is its own low half.
pub proof fn low_half_of_a_small_number(n: i64)
    ensures
        0 <= n <= 0xffff_ffff ==> low_half(n) == n,
        n as u32 == low_half(n),
{
    assert(n as u32 == (n as u64) % 0x1_0000_0000) by (bit_vector);
}

/// Every control is sent alone under the encoder's class, and the buffers that a queue is asked
/// with are empty.
pub proof fn controls_and_buffers_hold_nothing_else(
    id: u32,
    value: i64,
    type_: u32,
    memory: u32,
    index: u32,
    count: u32,
)
    ensures
        id == 0x99_0b13 ==> sets_through_pointer(
            abi::control_of(id, value),
            id as int,
            low_half(value),
        ),
        id != 0x99_0b13 ==> sets(abi::control_of(id, value), id as int, value as int),
        empty_buffer(
            abi::buffer_of(type_, memory, index, count),
            type_,
            memory,
            index as int,
            count,
        ),
{
    low_half_of_a_small_number(value);
}

/// Control `id`, sent alone under the encoder's class, with nothing else filled in.
pub open spec fn sent_alone(c: ExtControls, id: int) -> bool {
    &&& c.which == 0x99_0000 && c.count == 1
    &&& c.error_idx == 0 && c.request_fd == 0 && c.reserved == 0
    &&& c.control.id == id && c.control.size == 0 && c.control.reserved2 == 0
}

/// What a creation starts from is what was asked for, with the frames between two key frames kept
/// between one and six hundred, four bytes to a pixel, and nothing acquired.
pub proof fn creation_starts_as_asked(settings: RustCaptureSettings, rgba: bool)
    requires
        tegra::takes(settings.width, settings.height),
        settings.width * 4 <= usize::MAX,
    ensures
        ({
            let c = setup::begun(settings, rgba);
            &&& c.rgba == rgba && c.vbv == settings.vbv_bits && c.phase is Vendor
            &&& 1 <= c.keyframe <= 600
            &&& settings.gop_frames <= 1 ==> c.keyframe == 1
            &&& 1 <= settings.gop_frames <= 600 ==> c.keyframe == settings.gop_frames
            &&& settings.gop_frames >= 600 ==> c.keyframe == 600
            &&& c.device.width == settings.width && c.device.height == settings.height
            &&& c.device.row_bytes == settings.width + settings.width + settings.width
                + settings.width
            &&& c.device.fd == -1 && c.device.staging_fd == -1
            &&& forall|j: int| 0 <= j < 4 ==> #[trigger] c.device.nv12_fd[j] == -1
            &&& forall|j: int| 0 <= j < 4 ==> #[trigger] c.device.capture[j] == (0usize, 0usize)
            &&& c.device.queued == 0 && c.device.spare is None
            &&& c.device.omit_headers == settings.omit_stripe_headers
            &&& c.device.bitrate_bps == tegra::bits_per_second(settings.video_bitrate_kbps)
        }),
{
    kilobits_are_a_thousand_bits(settings.video_bitrate_kbps);
}

/// What is told of a size that is not taken: both sides as they were given.
pub proof fn size_that_is_not_taken_is_told(width: i32, height: i32)
    ensures
        setup::odd_size(width, height) == "the encoder needs even dimensions, got "@
            + text::signed_decimal(width as int) + "x"@ + text::signed_decimal(height as int),
{
}

/// Whether two creations are about the same picture, configured alike.
pub open spec fn alike(c: Creation, t: Creation) -> bool {
    &&& t.rgba == c.rgba && t.keyframe == c.keyframe && t.vbv == c.vbv
    &&& t.device.width == c.device.width && t.device.height == c.device.height
    &&& t.device.row_bytes == c.device.row_bytes
    &&& t.device.omit_headers == c.device.omit_headers
    &&& t.device.bitrate_bps == c.device.bitrate_bps
}

/// No answer changes what a creation is about.
pub proof fn creation_keeps_its_plan(c: Creation, replies: Seq<ReplyView>, t: Creation)
    requires
        c.wf(),
        setup::answers(c, replies),
        setup::outcome(c, replies) == setup::ProgressView::Going(t),
    ensures
        t.wf(),
        alike(c, t),
    decreases replies.len(),
{
    if replies.len() > 0 {
        setup::creation_stays_wf(c, replies[0]);
        if let setup::ProgressView::Going(u) = c.next(replies[0]) {
            creation_keeps_its_plan(u, replies.drop_first(), t);
        }
    }
}

/// Host frames are staged in their own byte order: whatever the answers were, the staging surface
/// is of format 17 for R,G,B,A frames and of format 18 for B,G,R,A frames, as wide and as high as
/// the picture that was asked for, and pitch-linear.
pub proof fn frames_are_staged_in_their_byte_order(
    settings: RustCaptureSettings,
    rgba: bool,
    replies: Seq<ReplyView>,
    c: Creation,
)
    requires
        tegra::takes(settings.width, settings.height),
        settings.width * 4 <= usize::MAX,
        setup::answers(setup::begun(settings, rgba), replies),
        setup::outcome(setup::begun(settings, rgba), replies) == setup::ProgressView::Going(c),
        c.phase is Staging,
    ensures
        match c.due() {
            Call::CreateSurface(p) => {
                &&& rgba ==> p.color_format == 17
                &&& !rgba ==> p.color_format == 18
                &&& p.width == settings.width && p.height == settings.height
                &&& p.payload_type == 0 && p.memsize == 0 && p.layout == 0 && p.nvbuf_tag == 0
            },
            _ => false,
        },
{
    creation_starts_as_asked(settings, rgba);
    creation_keeps_its_plan(setup::begun(settings, rgba), replies, c);
}

/// The four surfaces that the encoder reads are block-linear NV12 of the size that was asked for,
/// tagged for the encoder, whatever the host's byte order is.
pub proof fn encoder_reads_nv12(
    settings: RustCaptureSettings,
    rgba: bool,
    replies: Seq<ReplyView>,
    c: Creation,
)
    requires
        tegra::takes(settings.width, settings.height),
        settings.width * 4 <= usize::MAX,
        setup::answers(setup::begun(settings, rgba), replies),
        setup::outcome(setup::begun(settings, rgba), replies) == setup::ProgressView::Going(c),
        c.phase is Surface,
    ensures
        match c.due() {
            Call::CreateSurface(p) => {
                &&& p.color_format == 5 && p.layout == 1 && p.nvbuf_tag == 4608
                &&& p.width == settings.width && p.height == settings.height
                &&& p.payload_type == 0 && p.memsize == 0
            },
            _ => false,
        },
{
    creation_starts_as_asked(settings, rgba);
    creation_keeps_its_plan(setup::begun(settings, rgba), replies, c);
}

/// The capture plane gives H.264 of the picture's size in one plane with room for a byte a pixel,
/// and for two megabytes where that is more; the output plane takes NV12 of the same size in two
/// planes. Four buffers are asked for on each, and each queue is started by its own number.
pub proof fn planes_are_configured_for_the_picture(c: Creation)
    requires
        c.wf(),
        c.device.width * c.device.height <= u32::MAX,
    ensures
        match (c.phase, c.due()) {
            (setup::Phase::Vendor, call) => call is LoadVendor,
            (setup::Phase::Node(i), Call::Open { node, nonblocking }) => node == i && nonblocking,
            (setup::Phase::CaptureFormat, Call::SetFormat(f)) => {
                let room = f.pix_mp.plane_fmt[0].sizeimage;
                let (w, h) = (c.device.width as int, c.device.height as int);
                &&& asks_for(f, 9, w, h, abi::V4L2_PIX_FMT_H264, 1, room as int)
                &&& room >= w * h && room >= 2 * 1024 * 1024
                &&& room == w * h || room == 2 * 1024 * 1024
            },
            (setup::Phase::OutputFormat, Call::SetFormat(f)) => asks_for(
                f,
                10,
                c.device.width as int,
                c.device.height as int,
                abi::V4L2_PIX_FMT_NV12M,
                2,
                0,
            ),
            (setup::Phase::Control(_), call) => call is SetControl,
            (setup::Phase::OutputBuffers, Call::RequestBuffers(r)) => r.count == 4 && r.type_ == 10
                && r.memory == 4 && r.capabilities == 0 && r.reserved == 0,
            (setup::Phase::Staging, call) => call is CreateSurface,
            (setup::Phase::Surface(_), call) => call is CreateSurface,
            (setup::Phase::CaptureBuffers, Call::RequestBuffers(r)) => r.count == 4 && r.type_ == 9
                && r.memory == 1 && r.capabilities == 0 && r.reserved == 0,
            (setup::Phase::Query(i), Call::QueryBuffer(q)) => empty_buffer(q, 9, 1, i as int, 1),
            (setup::Phase::Export { index, .. }, Call::ExportBuffer(e)) => {
                &&& e.type_ == 9 && e.index == index && e.plane == 0 && e.flags == 0 && e.fd == 0
                &&& forall|j: int| 0 <= j < 11 ==> #[trigger] e.reserved[j] == 0
            },
            (setup::Phase::Mapping { .. }, call) => call is MapExport,
            (setup::Phase::CloseExport { fd, .. }, Call::CloseExport(closed)) => closed == fd,
            (setup::Phase::Queue { queued, .. }, Call::QueueBuffer(q)) => q == queued,
            (setup::Phase::StreamOutput, Call::StreamOn(type_)) => type_ == 10,
            (setup::Phase::StreamCapture, Call::StreamOn(type_)) => type_ == 9,
            _ => false,
        },
{
    assert(0 <= c.device.width * c.device.height) by (nonlinear_arith)
        requires
            c.device.width > 0,
            c.device.height > 0,
    ;
}

/// The ten controls are the bitrate of the device, a constant bitrate, the main profile, the
/// fastest preset, full performance, parameter sets with every key frame, a VUI, a picture order
/// that needs no reordering, the frames between two key frames, and the size of the virtual buffer,
/// which alone goes through a pointer.
pub proof fn controls_are_those_asked_for(c: Creation, i: usize)
    requires
        c.wf(),
        c.phase == setup::Phase::Control(i),
    ensures
        match c.due() {
            Call::SetControl(x) => {
                &&& i == 0 ==> sets(x, 0x99_09cf, c.device.bitrate_bps as int)
                &&& i == 1 ==> sets(x, 0x99_09ce, 1)
                &&& i == 2 ==> sets(x, 0x99_0a6b, 2)
                &&& i == 3 ==> sets(x, 0x99_0b1c, 1)
                &&& i == 4 ==> sets(x, 0x99_0b2a, 1)
                &&& i == 5 ==> sets(x, 0x99_0b17, 1)
                &&& i == 6 ==> sets(x, 0x99_0b22, 1)
                &&& i == 7 ==> sets(x, 0x99_0b33, 2)
                &&& i == 8 ==> sets(x, 0x99_0b02, c.keyframe as int)
                &&& i == 9 ==> sets_through_pointer(x, 0x99_0b13, low_half(c.vbv))
            },
            _ => false,
        },
{
    low_half_of_a_small_number(c.vbv);
}

/// A capture buffer is mapped by what the device says of it: the buffer that is exported is the one
/// that was queried, it is mapped by its own length and offset through the export, the export is
/// closed, the mapping is noted in the buffer's place, and the buffer goes back as it came.
pub proof fn capture_buffer_is_mapped_as_queried(
    c: Creation,
    index: usize,
    q: Queued,
    export: ExportBuffer,
    address: usize,
    rc: i32,
    closed: i32,
    error: OsErrorView,
)
    requires
        c.wf(),
        c.phase == setup::Phase::Query(index),
        rc >= 0,
    ensures
        ({
            let queried = c.next(ReplyView::Buffer { rc, queued: q, error });
            let exporting = queried->Going_0;
            let exported = exporting.next(ReplyView::Exported { rc, export, error });
            let mapping = exported->Going_0;
            let mapped = mapping.next(ReplyView::Mapped(Some(address)));
            let closing = mapped->Going_0;
            let done = closing.next(ReplyView::Returned { rc: closed, error });
            let queueing = done->Going_0;
            &&& queried is Going && exported is Going && mapped is Going && done is Going
            &&& exporting.due() matches Call::ExportBuffer(e)
            &&& e.index == index
            &&& mapping.due() matches Call::MapExport { length, fd, offset }
            &&& length == q.planes[0].length && fd == export.fd && offset as u64 == q.planes[0].m
            &&& closing.due() == Call::CloseExport(export.fd)
            &&& queueing.due() == Call::QueueBuffer(q)
            &&& queueing.device.capture[index as int] == (address, q.planes[0].length as usize)
            &&& forall|j: int|
                0 <= j < 4 && j != index ==> #[trigger] queueing.device.capture[j]
                    == c.device.capture[j]
        }),
{
    let m = q.planes[0].m;
    assert((m as i64) as u64 == m) by (bit_vector);
}

/// A node is open exactly if its descriptor is not negative; the first that opens is taken, and
/// failing both the creation fails.
pub proof fn first_node_that_opens_is_taken(c: Creation, i: usize, fd: i32)
    requires
        c.wf(),
        c.phase == setup::Phase::Node(i),
    ensures
        match c.next(ReplyView::Opened(fd)) {
            setup::ProgressView::Going(t) => {
                &&& alike(c, t)
                &&& fd >= 0 ==> t.opened() && t.node == i && t.device.fd == fd
                &&& fd < 0 ==> t.phase == setup::Phase::Node(1) && i == 0
            },
            setup::ProgressView::Failed(device, message) => {
                &&& fd < 0 && i == 1 && device is None
                &&& message
                    == "no encoder node opened, tried [\"/dev/v4l2-nvenc\", \"/dev/nvhost-msenc\"]"@
            },
            setup::ProgressView::Ready(_) => false,
        },
{
}

/// Without the vendor's libraries there is no encoder; with them the nodes are tried.
pub proof fn libraries_come_first(c: Creation, there: bool)
    requires
        c.wf(),
        c.phase is Vendor,
    ensures
        match c.next(ReplyView::Vendor(there)) {
            setup::ProgressView::Going(t) => there && t.phase == setup::Phase::Node(0) && alike(
                c,
                t,
            ),
            setup::ProgressView::Failed(device, message) => !there && device is None && message
                == "the Tegra vendor libraries are unavailable"@,
            setup::ProgressView::Ready(_) => false,
        },
{
}

/// Once the device is open, a creation fails over an answer exactly if the call returned a negative
/// number, or if a mapping is missing when its export has been closed.
pub proof fn negative_results_fail_a_creation(c: Creation, reply: ReplyView)
    requires
        c.wf(),
        c.opened(),
        tegra::fits(c.due(), reply),
    ensures
        c.next(reply) is Failed <==> match (c.phase, reply) {
            (setup::Phase::CloseExport { address, .. }, _) => address is None,
            (_, ReplyView::Returned { rc, .. }) => rc < 0,
            (_, ReplyView::Created { rc, .. }) => rc < 0,
            (_, ReplyView::Buffer { rc, .. }) => rc < 0,
            (_, ReplyView::Exported { rc, .. }) => rc < 0,
            _ => false,
        },
{
}

/// A failed creation tells on which node it failed, over what, and what the system said of it.
pub proof fn failed_creation_tells_why(c: Creation, reply: ReplyView, message: Seq<char>)
    requires
        c.wf(),
        c.opened(),
        tegra::fits(c.due(), reply),
        c.next(reply) matches setup::ProgressView::Failed(_, m) && m == message,
    ensures
        ({
            let node = if c.node == 0 {
                "/dev/v4l2-nvenc"@
            } else {
                "/dev/nvhost-msenc"@
            };
            let said = match reply {
                ReplyView::Returned { error, .. } => error.text,
                ReplyView::Buffer { error, .. } => error.text,
                ReplyView::Exported { error, .. } => error.text,
                _ => Seq::empty(),
            };
            let refused = |what: Seq<char>| node + ": "@ + (what + " failed: "@ + said);
            match c.phase {
                setup::Phase::CaptureFormat => message == refused("S_FMT capture"@),
                setup::Phase::OutputFormat => message == refused("S_FMT output"@),
                setup::Phase::Control(i) => {
                    &&& i == 0 ==> message == refused("bitrate"@)
                    &&& i == 1 ==> message == refused("rate control mode"@)
                    &&& i == 2 ==> message == refused("profile"@)
                    &&& i == 3 ==> message == refused("preset"@)
                    &&& i == 4 ==> message == refused("max performance"@)
                    &&& i == 5 ==> message == refused("SPS/PPS at IDR"@)
                    &&& i == 6 ==> message == refused("VUI"@)
                    &&& i == 7 ==> message == refused("picture order count type"@)
                    &&& i == 8 ==> message == refused("IDR interval"@)
                    &&& i == 9 ==> message == refused("VBV size"@)
                },
                setup::Phase::OutputBuffers => message == refused("REQBUFS output"@),
                setup::Phase::Staging => message == node + ": "@
                    + "NvBufferCreateEx for the staging surface failed"@,
                setup::Phase::Surface(_) => message == node + ": "@
                    + "NvBufferCreateEx for an NV12 surface failed"@,
                setup::Phase::CaptureBuffers => message == refused("REQBUFS capture"@),
                setup::Phase::Query(_) => message == refused("QUERYBUF capture"@),
                setup::Phase::Export { .. } => message == refused("EXPBUF capture"@),
                setup::Phase::CloseExport { .. } => message == refused("mmap of a capture plane"@),
                setup::Phase::Queue { .. } => message == refused("QBUF capture"@),
                setup::Phase::StreamOutput => message == refused("STREAMON output"@),
                setup::Phase::StreamCapture => message == refused("STREAMON capture"@),
                _ => false,
            }
        }),
{
}

/// The surface of a frame is queued as a picture of two planes: a byte of luma a pixel in the first
/// and half as many bytes of chroma in the second, both in the surface of the slot, under the slot's
/// number, with the frame's number for a timestamp that the device copies.
pub proof fn queued_surface_holds_the_picture(s: encode::State, device: Device, slot: usize)
    requires
        s.wf(device),
        s.phase == encode::Phase::Queue(slot),
        device.width * device.height <= i32::MAX,
    ensures
        match s.due(device) {
            Call::QueueBuffer(q) => {
                &&& q.planes[0].bytesused == device.width * device.height
                &&& q.planes[1].bytesused == device.width * device.height / 2
                &&& q.planes[0].m == device.nv12_fd[slot as int] as u64
                &&& q.planes[1].m == device.nv12_fd[slot as int] as u64
                &&& q.planes[0].length == 0 && q.planes[0].data_offset == 0
                &&& q.planes[1].length == 0 && q.planes[1].data_offset == 0
                &&& q.buffer.index == slot && q.buffer.type_ == 10 && q.buffer.memory == 4
                &&& q.buffer.length == 2 && q.buffer.flags == 0x4000
                &&& q.buffer.bytesused == 0 && q.buffer.field == 0 && q.buffer.sequence == 0
                &&& q.buffer.reserved == 0 && q.buffer.reserved2 == 0
                &&& q.buffer.timestamp[0] as u64 == s.frame_number && q.buffer.timestamp[1] == 0
                &&& forall|j: int| 0 <= j < 4 ==> #[trigger] q.buffer.timecode[j] == 0
                &&& forall|j: int| 0 <= j < 11 ==> #[trigger] q.planes[0].reserved[j] == 0
                &&& forall|j: int| 0 <= j < 11 ==> #[trigger] q.planes[1].reserved[j] == 0
            },
            _ => false,
        },
{
    let n = s.frame_number;
    assert((n as i64) as u64 == n) by (bit_vector);
    assert(0 <= device.width * device.height) by (nonlinear_arith)
        requires
            device.width > 0,
            device.height > 0,
    ;
}

/// What each step of a job asks for: the frame is staged in the staging surface, converted from
/// there into the slot's, and queued; units are taken off the capture plane, surfaces off the output
/// plane, twenty milliseconds at a time; a unit is read off the buffer it came in, as long as the
/// device says it is; and what was read goes back as it came.
pub proof fn job_asks_for_its_frame(s: encode::State, device: Device)
    requires
        s.wf(device),
    ensures
        match (s.phase, s.due(device)) {
            (encode::Phase::Stage, Call::Stage { packed, width, height, fd }) => packed == s.packed
                && width == device.width && height == device.height && fd == device.staging_fd,
            (encode::Phase::Deadline, call) => call is Clock,
            (encode::Phase::Late { .. }, call) => call is Clock,
            (encode::Phase::Reclaim { .. }, Call::DequeueBuffer(q)) => empty_buffer(q, 10, 4, 0, 2),
            (encode::Phase::Wait { .. }, Call::Poll { fd, timeout_ms }) => fd == device.fd
                && timeout_ms == 20,
            (encode::Phase::Transform(slot), Call::Transform { from, to, params }) => {
                &&& from == device.staging_fd && to == device.nv12_fd[slot as int]
                &&& params[0] == 4 && params[2] == 4
                &&& forall|j: int| 0 <= j < 14 && j != 0 && j != 2 ==> #[trigger] params[j] == 0
            },
            (encode::Phase::ForceIdr(_), Call::SetControl(x)) => sets(x, 0x99_0b37, 1),
            (encode::Phase::Queue(_), call) => call is QueueBuffer,
            (encode::Phase::Collect, Call::DequeueBuffer(q)) => empty_buffer(q, 9, 1, 0, 1),
            (encode::Phase::Read(q), Call::ReadUnit { address, length, header }) => {
                &&& address == device.capture[q.buffer.index as int].0
                &&& length == q.planes[0].bytesused
                &&& header is None <==> device.omit_headers
            },
            (encode::Phase::Requeue(q), Call::QueueBuffer(back)) => back == q,
            _ => false,
        },
{
}

/// The header of a unit names H.264, the low sixteen bits of the timestamp it came with and of the
/// picture's width and height; it starts at the top and tracks no reference.
pub proof fn header_describes_the_unit(
    s: encode::State,
    device: Device,
    q: Queued,
    header: VideoHeader,
)
    requires
        s.wf(device),
        s.phase == encode::Phase::Read(q),
        s.due(device) matches Call::ReadUnit { header: Some(h), .. } && h == header,
    ensures
        header.codec == Codec::H264 && header.reference == Reference::Untracked,
        header.y_start == 0,
        header.frame_number == q.buffer.timestamp[0] as u64 % 65536,
        header.width == device.width as int % 65536,
        header.height == device.height as int % 65536,
{
    let (w, h) = (device.width, device.height);
    assert(w > 0 ==> w as u16 == w % 65536) by (bit_vector);
    assert(h > 0 ==> h as u16 == h % 65536) by (bit_vector);
    let t = q.buffer.timestamp[0];
    assert(t as u16 == (t as u64) % 65536) by (bit_vector);
}

/// A job fails over an answer exactly if the call returned a negative number where one matters, or
/// if time ran out: an output buffer that is not there yet is asked for again, and a capture buffer
/// that is not there is the end of the units.
pub proof fn negative_results_fail_a_job(s: encode::State, device: Device, reply: ReplyView)
    requires
        s.wf(device),
        tegra::fits(s.due(device), reply),
    ensures
        s.next(device, reply) is Err <==> match (s.phase, reply) {
            (encode::Phase::Reclaim { .. }, ReplyView::Buffer { rc, error, .. }) => rc < 0
                && !error.again,
            (encode::Phase::Late { deadline }, ReplyView::Time(now)) => now > deadline,
            (_, ReplyView::Returned { rc, .. }) => rc < 0,
            _ => false,
        },
        (s.next(device, reply) matches Ok(encode::ProgressView::Done(_))) <==> match (
            s.phase,
            reply,
        ) {
            (encode::Phase::Collect, ReplyView::Buffer { rc, .. }) => rc < 0,
            _ => false,
        },
{
}

/// A failed job tells over what it failed, and what the system said of it where it says anything.
pub proof fn failed_job_tells_why(
    s: encode::State,
    device: Device,
    reply: ReplyView,
    message: Seq<char>,
)
    requires
        s.wf(device),
        tegra::fits(s.due(device), reply),
        s.next(device, reply) == Err::<encode::ProgressView, Seq<char>>(message),
    ensures
        ({
            let said = match reply {
                ReplyView::Returned { error, .. } => error.text,
                ReplyView::Buffer { error, .. } => error.text,
                _ => Seq::empty(),
            };
            match s.phase {
                encode::Phase::Stage => message == "Raw2NvBuffer failed"@,
                encode::Phase::Reclaim { .. } => message == "DQBUF output"@ + " failed: "@ + said,
                encode::Phase::Late { .. } => message
                    == "the encoder did not return an output buffer in 500 ms"@,
                encode::Phase::Transform(_) => message == "NvBufferTransform failed"@,
                encode::Phase::ForceIdr(_) => message == "force IDR"@ + " failed: "@ + said,
                encode::Phase::Queue(_) => message == "QBUF output"@ + " failed: "@ + said,
                encode::Phase::Requeue(_) => message == "QBUF capture"@ + " failed: "@ + said,
                _ => false,
            }
        }),
{
}

/// How a job goes on: a converted frame is queued, through a key frame asked for exactly if one is
/// forced; a surface is waited for until half a second after the wait began, and no longer; what a
/// job is about never changes.
pub proof fn job_goes_on(s: encode::State, device: Device, reply: ReplyView, t: encode::State)
    requires
        s.wf(device),
        tegra::fits(s.due(device), reply),
        s.next(device, reply) == Ok::<encode::ProgressView, Seq<char>>(
            encode::ProgressView::Going(t),
        ),
    ensures
        t.packed == s.packed && t.frame_number == s.frame_number && t.force_idr == s.force_idr,
        match (s.phase, reply) {
            (encode::Phase::Stage, _) => t.phase is Transform || t.phase is Deadline,
            (encode::Phase::Deadline, ReplyView::Time(now)) => t.phase matches
                encode::Phase::Reclaim { deadline } && deadline == now + 500 * 1000 * 1000,
            (encode::Phase::Reclaim { deadline }, ReplyView::Buffer { rc, queued, .. }) => if rc
                >= 0 {
                t.phase == encode::Phase::Transform(queued.buffer.index as usize)
            } else {
                t.phase matches encode::Phase::Late { deadline: d } && d == deadline
            },
            (encode::Phase::Late { deadline }, ReplyView::Time(now)) => {
                &&& now <= deadline
                &&& t.phase matches encode::Phase::Wait { deadline: d }
                &&& d == deadline
            },
            (encode::Phase::Wait { deadline }, _) => t.phase matches
                encode::Phase::Reclaim { deadline: d } && d == deadline,
            (encode::Phase::Transform(slot), _) => if s.force_idr {
                t.phase == encode::Phase::ForceIdr(slot)
            } else {
                t.phase == encode::Phase::Queue(slot)
            },
            (encode::Phase::ForceIdr(slot), _) => t.phase == encode::Phase::Queue(slot),
            (encode::Phase::Queue(_), _) => t.phase is Collect,
            _ => t.phase is Collect || t.phase is Read || t.phase is Requeue,
        },
{
}

/// What a step changes of the device: a surface that came back is to spare, one that is queued is
/// counted while there are any that never were and is to spare no longer, and nothing else changes.
pub proof fn device_counts_its_surfaces(s: encode::State, device: Device, reply: ReplyView)
    requires
        s.wf(device),
        tegra::fits(s.due(device), reply),
    ensures
        ({
            let after = s.device_after(device, reply);
            match (s.phase, reply) {
                (encode::Phase::Reclaim { .. }, ReplyView::Buffer { rc, queued, .. }) if rc >= 0 => {
                    &&& after.queued == device.queued
                    &&& after.spare matches Some(i)
                    &&& i == queued.buffer.index
                },
                (encode::Phase::Queue(_), ReplyView::Returned { rc, .. }) if rc >= 0 => {
                    &&& after.spare is None
                    &&& device.queued < 4 ==> after.queued == device.queued + 1
                    &&& device.queued == 4 ==> after.queued == 4
                },
                _ => after == device,
            }
        }),
{
}

/// A frame is taken exactly if its rows are at least as far apart as they are long, and every row
/// lies within the bytes given.
pub proof fn frame_is_taken_if_every_row_is_there(
    pixels: Seq<u8>,
    stride: int,
    row_bytes: int,
    height: int,
)
    requires
        height > 0,
        stride >= 0,
        row_bytes >= 0,
    ensures
        encode::holds(pixels, stride, row_bytes, height) <==> {
            &&& row_bytes <= stride
            &&& forall|r: int| 0 <= r < height ==> #[trigger] (r * stride) + row_bytes <= pixels.len()
        },
{
    assert((height - 1) * stride == stride * (height - 1)) by (nonlinear_arith);
    if encode::holds(pixels, stride, row_bytes, height) {
        assert forall|r: int| 0 <= r < height implies #[trigger] (r * stride) + row_bytes
            <= pixels.len() by {
            assert(r * stride <= stride * (height - 1)) by (nonlinear_arith)
                requires
                    0 <= r < height,
                    0 <= stride,
            ;
        }
    }
}

/// The bitrate is changed exactly if another one is asked for, be it higher or lower: first the
/// bitrate itself, then the size of the virtual buffer, and only when both are set does the encoder
/// count as running at the new rate.
pub proof fn rate_is_changed_if_another_is_asked_for(
    device: Device,
    settings: RustCaptureSettings,
    rc: i32,
    error: OsErrorView,
)
    requires
        rc >= 0,
    ensures
        ({
            let bits = tegra::bits_per_second(settings.video_bitrate_kbps);
            let reply = ReplyView::Returned { rc, error };
            match rate::change_of(device, settings) {
                None => bits == device.bitrate_bps,
                Some(first) => {
                    &&& bits < device.bitrate_bps || bits > device.bitrate_bps
                    &&& first.due() matches Call::SetControl(x)
                    &&& sets(x, 0x99_09cf, bits)
                    &&& first.next(reply) matches Ok(Some(second))
                    &&& first.device_after(device, reply) == device
                    &&& second.due() matches Call::SetControl(y)
                    &&& sets_through_pointer(y, 0x99_0b13, low_half(settings.vbv_bits))
                    &&& second.next(reply) matches Ok(None)
                    &&& second.device_after(device, reply).bitrate_bps == bits
                    &&& second.device_after(device, reply) == (Device {
                        bitrate_bps: second.device_after(device, reply).bitrate_bps,
                        ..device
                    })
                },
            }
        }),
{
    kilobits_are_a_thousand_bits(settings.video_bitrate_kbps);
    low_half_of_a_small_number(settings.vbv_bits);
}

/// A change fails exactly over a negative result, and tells which of the two controls was refused
/// and what the system said.
pub proof fn negative_results_fail_a_change(change: RateChange, reply: ReplyView)
    requires
        tegra::fits(change.due(), reply),
    ensures
        match reply {
            ReplyView::Returned { rc, error } => match change.next(reply) {
                Err(message) => rc < 0 && match change.phase {
                    rate::Phase::Bitrate => message == "bitrate"@ + " failed: "@ + error.text,
                    rate::Phase::VbvSize => message == "VBV size"@ + " failed: "@ + error.text,
                },
                Ok(_) => rc >= 0,
            },
            _ => false,
        },
{
}

/// How often `call` is among `calls`.
pub open spec fn times(calls: Seq<Call>, call: Call) -> int
    decreases calls.len(),
{
    if calls.len() == 0 {
        0
    } else {
        times(calls.drop_last(), call) + if calls.last() == call {
            1int
        } else {
            0
        }
    }
}

proof fn times_of_parts(a: Seq<Call>, b: Seq<Call>, call: Call)
    ensures
        times(a + b, call) == times(a, call) + times(b, call),
    decreases b.len(),
{
    if b.len() == 0 {
        assert(a + b =~= a);
    } else {
        assert((a + b).drop_last() =~= a + b.drop_last());
        times_of_parts(a, b.drop_last(), call);
    }
}

/// One for what holds, and nothing for what does not.
pub open spec fn one_if(holds: bool) -> int {
    if holds {
        1
    } else {
        0
    }
}

proof fn unmaps_by_kind(device: Device, n: int, call: Call)
    requires
        0 <= n <= 4,
    ensures
        times(teardown::unmaps(device, n), call) == match call {
            Call::Unmap { address, length } => unmapped_times(device, n, address, length),
            _ => 0,
        },
    decreases n,
{
    if n > 0 {
        unmaps_by_kind(device, n - 1, call);
        let earlier = teardown::unmaps(device, n - 1);
        let (address, length) = device.capture[n - 1];
        assert(earlier.push(Call::Unmap { address, length }).drop_last() =~= earlier);
    }
}

proof fn destroys_by_kind(device: Device, n: int, call: Call)
    requires
        0 <= n <= 4,
    ensures
        times(teardown::destroys(device, n), call) == match call {
            Call::DestroySurface(fd) => destroyed_times(device, n, fd),
            _ => 0,
        },
    decreases n,
{
    if n > 0 {
        destroys_by_kind(device, n - 1, call);
        let earlier = teardown::destroys(device, n - 1);
        assert(earlier.push(Call::DestroySurface(device.nv12_fd[n - 1])).drop_last() =~= earlier);
    }
}

/// How many of the first `n` capture buffers are mapped at `address` with `length`.
pub open spec fn unmapped_times(device: Device, n: int, address: usize, length: usize) -> int
    decreases n,
{
    if n <= 0 {
        0
    } else {
        unmapped_times(device, n - 1, address, length) + one_if(
            address != 0 && device.capture[n - 1] == (address, length),
        )
    }
}

/// How many of the first `n` output surfaces are `fd`.
pub open spec fn destroyed_times(device: Device, n: int, fd: i32) -> int
    decreases n,
{
    if n <= 0 {
        0
    } else {
        destroyed_times(device, n - 1, fd) + one_if(fd >= 0 && device.nv12_fd[n - 1] == fd)
    }
}

/// Letting an encoder go does each thing as often as there is something to let go, and nothing
/// else: both queues are stopped and the device closed once, every mapping is unmapped once, and
/// every surface is destroyed once. The queues are stopped before anything else.
pub proof fn release_lets_go_once(device: Device, call: Call)
    ensures
        teardown::release_of(device)[0] == Call::StreamOff(10),
        teardown::release_of(device)[1] == Call::StreamOff(9),
        times(teardown::release_of(device), call) == match call {
            Call::StreamOff(type_) => one_if(type_ == 10) + one_if(type_ == 9),
            Call::Unmap { address, length } => {
                let c = device.capture;
                if address == 0 {
                    0
                } else {
                    one_if(c[0] == (address, length)) + one_if(c[1] == (address, length)) + one_if(
                        c[2] == (address, length),
                    ) + one_if(c[3] == (address, length))
                }
            },
            Call::Close(fd) => one_if(fd == device.fd),
            Call::DestroySurface(fd) => {
                let n = device.nv12_fd;
                if fd < 0 {
                    0
                } else {
                    one_if(n[0] == fd) + one_if(n[1] == fd) + one_if(n[2] == fd) + one_if(
                        n[3] == fd,
                    ) + one_if(device.staging_fd == fd)
                }
            },
            _ => 0,
        },
{
    reveal_with_fuel(unmapped_times, 5);
    reveal_with_fuel(destroyed_times, 5);
    reveal_with_fuel(times, 3);
    let stopped = seq![
        Call::StreamOff(abi::V4L2_BUF_TYPE_VIDEO_OUTPUT_MPLANE),
        Call::StreamOff(abi::V4L2_BUF_TYPE_VIDEO_CAPTURE_MPLANE),
    ];
    let unmapped = teardown::unmaps(device, 4);
    let destroyed = teardown::destroys(device, 4);
    let close = (stopped + unmapped).push(Call::Close(device.fd));
    let closed = close + destroyed;
    unmaps_by_kind(device, 4, call);
    destroys_by_kind(device, 4, call);
    times_of_parts(stopped, unmapped, call);
    assert(close.drop_last() =~= stopped + unmapped);
    times_of_parts(close, destroyed, call);
    let released = closed.push(Call::DestroySurface(device.staging_fd));
    assert(released.drop_last() =~= closed);
    assert(stopped.drop_last() =~= seq![stopped[0]]);
    assert(stopped.drop_last().drop_last() =~= Seq::empty());
    if let Call::DestroySurface(fd) = call {
        assert(device.staging_fd < 0 && fd >= 0 ==> fd != device.staging_fd);
    }
}

/// Each library is looked for under its own name and then in the vendor's directory, and each
/// function under its own name, ended by a zero, in the library it belongs to.
pub proof fn loading_asks_by_name(l: Loading)
    requires
        l.wf(),
    ensures
        match (l.phase, l.due()) {
            (LoadPhase::Library { library, again }, LoadStepView::Open(path)) => {
                let name = if library == 0 {
                    "libnvv4l2.so"@
                } else {
                    "libnvbuf_utils.so"@
                };
                if again {
                    path == "/usr/lib/aarch64-linux-gnu/tegra/"@ + name
                } else {
                    path == name
                }
            },
            (LoadPhase::Symbol(i), LoadStepView::Find { library, symbol }) => {
                &&& library == if i <= 2 {
                    0usize
                } else {
                    1
                }
                &&& i == 0 ==> symbol == "v4l2_open\0"@
                &&& i == 1 ==> symbol == "v4l2_ioctl\0"@
                &&& i == 2 ==> symbol == "v4l2_close\0"@
                &&& i == 3 ==> symbol == "NvBufferCreateEx\0"@
                &&& i == 4 ==> symbol == "Raw2NvBuffer\0"@
                &&& i == 5 ==> symbol == "NvBufferTransform\0"@
                &&& i == 6 ==> symbol == "NvBufferMemSyncForDevice\0"@
                &&& i == 7 ==> symbol == "NvBufferDestroy\0"@
            },
            _ => false,
        },
{
}

/// A loading fails exactly if a library is in neither place, or a function is not there; it tells
/// which, and what the loader said last.
pub proof fn failed_loading_tells_why(l: Loading, e: Seq<char>)
    requires
        l.wf(),
    ensures
        match (l.phase, l.next(LoadReplyView::Failed(e))) {
            (LoadPhase::Library { library, again: false }, Ok(LoadProgress::Going(t))) => {
                &&& t.phase matches LoadPhase::Library { library: same, again: true }
                &&& same == library && t.found == l.found
            },
            (LoadPhase::Library { library, again: true }, Err(message)) => {
                &&& library == 0 ==> message == "libnvv4l2.so"@ + " is not loadable: "@ + e
                &&& library == 1 ==> message == "libnvbuf_utils.so"@ + " is not loadable: "@ + e
            },
            (LoadPhase::Symbol(_), Err(message)) => l.due() matches LoadStepView::Find {
                symbol,
                ..
            } && message == symbol + " is missing: "@ + e,
            _ => false,
        },
{
}

/// A library that loads is followed by the other, and both by the functions, none of which is known
/// before it is found.
pub proof fn loaded_libraries_are_followed_by_functions(l: Loading, library: usize, again: bool)
    requires
        l.wf(),
        l.phase == (LoadPhase::Library { library, again }),
    ensures
        match l.next(LoadReplyView::Loaded) {
            Ok(LoadProgress::Going(t)) => {
                &&& t.found == l.found
                &&& library == 0 ==> t.phase == (LoadPhase::Library { library: 1, again: false })
                &&& library == 1 ==> t.phase == LoadPhase::Symbol(0)
            },
            _ => false,
        },
{
}

/// The functions stand in a vendor's table in the order in which they are looked up.
pub proof fn functions_stand_in_order(found: Seq<usize>)
    requires
        found.len() == 8,
    ensures
        ({
            let v = vendor::vendor_of(found);
            seq![v.open, v.ioctl, v.close, v.create, v.raw2buf, v.transform, v.sync, v.destroy]
                == found
        }),
{
    let v = vendor::vendor_of(found);
    assert(seq![v.open, v.ioctl, v.close, v.create, v.raw2buf, v.transform, v.sync, v.destroy]
        =~= found);
}

} // verus!
