//! The encoder's state, and the calls by which it is driven.
use crate::encoders::abi;
use crate::encoders::abi::{
    ExportBuffer, ExtControls, Format, NvBufferCreateParams, Queued, RequestBuffers,
    CAPTURE_BUFFERS, OUTPUT_BUFFERS,
};
use vstd::prelude::*;

verus! {

/// Stands where a file descriptor has not been acquired.
pub const NO_FD: i32 = -1;

/// The codec of a stream.
#[derive(Clone, Copy, Debug, PartialEq, Eq)]
pub enum Codec {
    H264,
}

/// What is known of the frame that a frame refers back to.
#[derive(Clone, Copy, Debug, PartialEq, Eq)]
pub enum Reference {
    Untracked,
}

/// What the wire header of an access unit says, but for the frame type, which is read off the
/// unit itself.
#[derive(Clone, Copy, Debug, PartialEq, Eq)]
pub struct VideoHeader {
    pub codec: Codec,
    pub frame_number: u16,
    pub y_start: u16,
    pub width: u16,
    pub height: u16,
    pub reference: Reference,
}

/// What an encoder is asked for.
#[derive(Clone, Copy, Debug, PartialEq, Eq)]
pub struct RustCaptureSettings {
    pub width: i32,
    pub height: i32,
    pub video_bitrate_kbps: i32,
    /// The frames between two key frames, before they are kept within bounds.
    pub gop_frames: i64,
    /// The bits of one frame at the bitrate asked for.
    pub vbv_bits: i64,
    pub omit_stripe_headers: bool,
}

/// An opened encoder device and what has been acquired for it.
#[derive(Clone, Copy, Debug, PartialEq)]
pub struct Device {
    pub fd: i32,
    pub width: i32,
    pub height: i32,
    pub row_bytes: usize,
    /// The surface that host frames are copied into; negative before there is one.
    pub staging_fd: i32,
    /// The surfaces that are queued on the output plane; negative before there are any.
    pub nv12_fd: [i32; OUTPUT_BUFFERS],
    /// Where each buffer of the capture plane is mapped, and how long it is; address zero before
    /// it is mapped.
    pub capture: [(usize, usize); CAPTURE_BUFFERS],
    /// How many output buffers have ever been queued, up to all of them.
    pub queued: usize,
    /// The output buffer that came back and has not been queued again, once all have been queued.
    pub spare: Option<usize>,
    pub omit_headers: bool,
    pub bitrate_bps: u32,
}

/// The hardware encoder.
pub struct TegraEncoder {
    pub device: Device,
    /// Where a padded frame is packed.
    pub scratch: Vec<u8>,
}

/// What the system says of its last failure.
#[derive(Debug)]
pub struct OsError {
    /// Whether it was `EAGAIN`.
    pub again: bool,
    pub text: String,
}

/// [`OsError`] as a mathematical value.
pub struct OsErrorView {
    pub again: bool,
    pub text: Seq<char>,
}

/// A call into the kernel or the vendor's libraries.
#[derive(Clone, Copy, Debug, PartialEq)]
pub enum Call {
    /// Load the vendor's libraries, if that has not been done.
    LoadVendor,
    /// Open this encoder node for reading and writing, and without blocking where it says so.
    Open { node: usize, nonblocking: bool },
    SetFormat(Format),
    SetControl(ExtControls),
    RequestBuffers(RequestBuffers),
    CreateSurface(NvBufferCreateParams),
    QueryBuffer(Queued),
    ExportBuffer(ExportBuffer),
    /// Map this file descriptor for reading and writing, shared.
    MapExport { length: usize, fd: i32, offset: i64 },
    /// Close the file descriptor of an exported buffer.
    CloseExport(i32),
    QueueBuffer(Queued),
    DequeueBuffer(Queued),
    StreamOn(u32),
    StreamOff(u32),
    /// Copy the frame, from the scratch buffer if it is packed there, into this surface.
    Stage { packed: bool, width: i32, height: i32, fd: i32 },
    /// Convert one surface into another.
    Transform { from: i32, to: i32, params: [u32; 14] },
    /// Read the clock.
    Clock,
    /// Wait until the device takes output, or for so many milliseconds.
    Poll { fd: i32, timeout_ms: i32 },
    /// Read a unit off the memory it was captured in, and write the header for it if one is asked
    /// for.
    ReadUnit { address: usize, length: usize, header: Option<VideoHeader> },
    /// Unmap a buffer of the capture plane.
    Unmap { address: usize, length: usize },
    /// Close the device.
    Close(i32),
    /// Destroy a surface.
    DestroySurface(i32),
}

/// What came of a call.
pub enum Reply {
    /// Whether the vendor's libraries are there.
    Vendor(bool),
    /// The node's file descriptor, negative if it did not open.
    Opened(i32),
    /// The call returned `rc`.
    Returned { rc: i32, error: OsError },
    /// The call returned `rc` and left this buffer.
    Buffer { rc: i32, queued: Queued, error: OsError },
    /// The call returned `rc` and left this export.
    Exported { rc: i32, export: ExportBuffer, error: OsError },
    /// The call returned `rc` and left this file descriptor.
    Created { rc: i32, fd: i32 },
    /// Where the buffer is mapped, if it is.
    Mapped(Option<usize>),
    /// The nanoseconds that a clock shows which never goes back.
    Time(u64),
    /// The header and the unit.
    Unit { header: Vec<u8>, bytes: Vec<u8> },
    /// The call has no result that matters.
    Done,
}

/// [`Reply`] as a mathematical value.
pub enum ReplyView {
    Vendor(bool),
    Opened(i32),
    Returned { rc: i32, error: OsErrorView },
    Buffer { rc: i32, queued: Queued, error: OsErrorView },
    Exported { rc: i32, export: ExportBuffer, error: OsErrorView },
    Created { rc: i32, fd: i32 },
    Mapped(Option<usize>),
    Time(u64),
    Unit { header: Seq<u8>, bytes: Seq<u8> },
    Done,
}

impl OsError {
    pub open spec fn view(&self) -> OsErrorView {
        OsErrorView { again: self.again, text: self.text@ }
    }
}

impl Reply {
    pub open spec fn view(&self) -> ReplyView {
        match self {
            Reply::Vendor(there) => ReplyView::Vendor(*there),
            Reply::Opened(fd) => ReplyView::Opened(*fd),
            Reply::Returned { rc, error } => ReplyView::Returned { rc: *rc, error: error@ },
            Reply::Buffer { rc, queued, error } => ReplyView::Buffer {
                rc: *rc,
                queued: *queued,
                error: error@,
            },
            Reply::Exported { rc, export, error } => ReplyView::Exported {
                rc: *rc,
                export: *export,
                error: error@,
            },
            Reply::Created { rc, fd } => ReplyView::Created { rc: *rc, fd: *fd },
            Reply::Mapped(address) => ReplyView::Mapped(*address),
            Reply::Time(now) => ReplyView::Time(*now),
            Reply::Unit { header, bytes } => ReplyView::Unit { header: header@, bytes: bytes@ },
            Reply::Done => ReplyView::Done,
        }
    }
}

/// Whether `reply` is one that `call` can have. A dequeued output buffer is one of those asked
/// for, and so is a dequeued capture buffer that holds something; a unit is as long as it was
/// said to be, and the clock has half a second to go before it overflows.
pub open spec fn fits(call: Call, reply: ReplyView) -> bool {
    match call {
        Call::LoadVendor => reply is Vendor,
        Call::Open { .. } => reply is Opened,
        Call::SetFormat(_)
        | Call::SetControl(_)
        | Call::RequestBuffers(_)
        | Call::CloseExport(_)
        | Call::QueueBuffer(_)
        | Call::StreamOn(_)
        | Call::Stage { .. }
        | Call::Transform { .. } => reply is Returned,
        Call::CreateSurface(_) => reply is Created,
        Call::QueryBuffer(_) => reply is Buffer,
        Call::DequeueBuffer(asked) => match reply {
            ReplyView::Buffer { rc, queued, .. } => rc >= 0 && (asked.buffer.type_
                == abi::V4L2_BUF_TYPE_VIDEO_OUTPUT_MPLANE || queued.planes[0].bytesused > 0)
                ==> queued.buffer.index < 4,
            _ => false,
        },
        Call::ExportBuffer(_) => reply is Exported,
        Call::MapExport { .. } => reply is Mapped,
        Call::Clock => match reply {
            ReplyView::Time(now) => now + 500_000_000 <= u64::MAX,
            _ => false,
        },
        Call::ReadUnit { length, .. } => match reply {
            ReplyView::Unit { bytes, .. } => bytes.len() == length,
            _ => false,
        },
        Call::Poll { .. }
        | Call::StreamOff(_)
        | Call::Unmap { .. }
        | Call::Close(_)
        | Call::DestroySurface(_) => reply is Done,
    }
}

impl Call {
    /// The number of the ioctl that makes the call, if one does.
    pub open spec fn request_of(self) -> Option<u64> {
        match self {
            Call::SetFormat(_) => Some(abi::VIDIOC_S_FMT),
            Call::SetControl(_) => Some(abi::VIDIOC_S_EXT_CTRLS),
            Call::RequestBuffers(_) => Some(abi::VIDIOC_REQBUFS),
            Call::QueryBuffer(_) => Some(abi::VIDIOC_QUERYBUF),
            Call::ExportBuffer(_) => Some(abi::VIDIOC_EXPBUF),
            Call::QueueBuffer(_) => Some(abi::VIDIOC_QBUF),
            Call::DequeueBuffer(_) => Some(abi::VIDIOC_DQBUF),
            Call::StreamOn(_) => Some(abi::VIDIOC_STREAMON),
            Call::StreamOff(_) => Some(abi::VIDIOC_STREAMOFF),
            _ => None,
        }
    }

    /// The number of the ioctl that makes the call, if one does.
    pub fn request(&self) -> (request: Option<u64>)
        ensures
            request == self.request_of(),
    {
        match self {
            Call::SetFormat(_) => Some(abi::VIDIOC_S_FMT),
            Call::SetControl(_) => Some(abi::VIDIOC_S_EXT_CTRLS),
            Call::RequestBuffers(_) => Some(abi::VIDIOC_REQBUFS),
            Call::QueryBuffer(_) => Some(abi::VIDIOC_QUERYBUF),
            Call::ExportBuffer(_) => Some(abi::VIDIOC_EXPBUF),
            Call::QueueBuffer(_) => Some(abi::VIDIOC_QBUF),
            Call::DequeueBuffer(_) => Some(abi::VIDIOC_DQBUF),
            Call::StreamOn(_) => Some(abi::VIDIOC_STREAMON),
            Call::StreamOff(_) => Some(abi::VIDIOC_STREAMOFF),
            _ => None,
        }
    }
}

/// Whether the encoder takes pictures of this size: both sides positive and even.
pub open spec fn takes(width: i32, height: i32) -> bool {
    width > 0 && height > 0 && width % 2 == 0 && height % 2 == 0
}

/// The bits per second that `kbps` asks for: at least one kilobit, and as many as fit.
pub open spec fn bits_per_second(kbps: i32) -> int {
    let kilobits: int = if kbps < 1 {
        1
    } else {
        kbps as int
    };
    if kilobits * 1000 > u32::MAX {
        u32::MAX as int
    } else {
        kilobits * 1000
    }
}

/// The bits per second that `kbps` asks for: at least one kilobit, and as many as fit.
pub fn bitrate_bps(kbps: i32) -> (bps: u32)
    ensures
        bps == bits_per_second(kbps),
{
    let kilobits: u64 = if kbps < 1 {
        1
    } else {
        kbps as u64
    };
    let bits: u64 = kilobits * 1000;
    if bits > u32::MAX as u64 {
        u32::MAX
    } else {
        bits as u32
    }
}

impl Device {
    /// The picture is of a size that the encoder takes, a row of it is four bytes a pixel, no more
    /// output buffers are queued than there are, and one that came back is one of them.
    pub open spec fn wf(self) -> bool {
        &&& takes(self.width, self.height)
        &&& self.row_bytes == self.width * 4
        &&& self.queued <= OUTPUT_BUFFERS
        &&& self.spare matches Some(i) ==> i < OUTPUT_BUFFERS && self.queued == OUTPUT_BUFFERS
    }
}

impl TegraEncoder {
    pub fn codec(&self) -> (codec: Codec)
        ensures
            codec == Codec::H264,
    {
        Codec::H264
    }

    /// The VIC converts into NV12 and the encoder takes nothing else.
    pub fn is_fullcolor(&self) -> (full: bool)
        ensures
            !full,
    {
        false
    }
}

/// Every bitrate asked for comes to at least one kilobit a second, none comes to less than a
/// smaller one, and within what fits each is taken as it stands.
pub proof fn bitrate_is_kept_within_bounds(kbps: i32, more: i32)
    requires
        kbps <= more,
    ensures
        1000 <= bits_per_second(kbps) <= bits_per_second(more) <= u32::MAX,
        1 <= kbps <= 4_294_967 ==> bits_per_second(kbps) == kbps * 1000,
{
}

} // verus!
