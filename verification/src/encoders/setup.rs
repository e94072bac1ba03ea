//! Making an encoder: finding the device, configuring it and acquiring what it works with.
//!
//! [`TegraEncoder::new`] starts a [`Creation`]. The program makes the call that
//! [`Creation::call`] names and hands the answer to [`Creation::reply`], until the encoder is
//! ready or the creation has failed.
use crate::encoders::abi;
use crate::encoders::abi::{
    AbiSizes, ExportBuffer, ExtControls, NvBufferCreateParams, Queued, RequestBuffers,
    CAPTURE_BUFFERS, OUTPUT_BUFFERS,
};
use crate::encoders::tegra;
use crate::encoders::tegra::{
    bitrate_bps, Call, Device, OsError, Reply, ReplyView, RustCaptureSettings, TegraEncoder,
    NO_FD,
};
use crate::encoders::vendor;
use crate::text;
use vstd::prelude::*;
use vstd::string::StringExecFns;

verus! {

/// What a creation is waiting for.
#[derive(Clone, Copy, Debug, PartialEq)]
pub enum Phase {
    Vendor,
    Node(usize),
    CaptureFormat,
    OutputFormat,
    Control(usize),
    OutputBuffers,
    Staging,
    Surface(usize),
    CaptureBuffers,
    Query(usize),
    Export { index: usize, queued: Queued },
    Mapping { index: usize, queued: Queued, fd: i32 },
    CloseExport { index: usize, queued: Queued, fd: i32, address: Option<usize> },
    Queue { index: usize, queued: Queued },
    StreamOutput,
    StreamCapture,
}

/// An encoder on its way to being ready.
#[derive(Clone, Copy, Debug, PartialEq)]
pub struct Creation {
    /// The frames between two key frames.
    pub keyframe: i64,
    /// The size of the virtual buffer in bits.
    pub vbv: i64,
    /// Whether host frames are in R,G,B,A order.
    pub rgba: bool,
    /// The node that opened.
    pub node: usize,
    pub device: Device,
    pub phase: Phase,
}

/// Where a creation stands after a call.
pub enum Progress {
    Going(Creation),
    Ready(TegraEncoder),
    /// It failed. The encoder is there once the device has opened; it holds what has to be let
    /// go.
    Failed(Option<TegraEncoder>, String),
}

/// [`Progress`] as a mathematical value.
pub enum ProgressView {
    Going(Creation),
    Ready(Device),
    Failed(Option<Device>, Seq<char>),
}

impl Progress {
    pub open spec fn view(&self) -> ProgressView {
        match self {
            Progress::Going(c) => ProgressView::Going(*c),
            Progress::Ready(e) => ProgressView::Ready(e.device),
            Progress::Failed(Some(e), m) => ProgressView::Failed(Some(e.device), m@),
            Progress::Failed(None, m) => ProgressView::Failed(None, m@),
        }
    }

    /// The encoder in it, if there is one, has packed nothing yet.
    pub open spec fn unused(&self) -> bool {
        match self {
            Progress::Going(_) => true,
            Progress::Ready(e) => e.scratch@.len() == 0,
            Progress::Failed(Some(e), _) => e.scratch@.len() == 0,
            Progress::Failed(None, _) => true,
        }
    }
}

/// What is said of a picture size that the encoder does not take.
pub open spec fn odd_size(width: i32, height: i32) -> Seq<char> {
    "the encoder needs even dimensions, got "@ + text::signed_decimal(width as int) + "x"@
        + text::signed_decimal(height as int)
}

/// What is said of a call that the system refused.
pub open spec fn refused(what: Seq<char>, error: Seq<char>) -> Seq<char> {
    what + " failed: "@ + error
}

/// What is said of a call that the system refused.
pub fn refusal(what: &str, error: &str) -> (message: String)
    ensures
        message@ == refused(what@, error@),
{
    let mut message: String = what.to_owned();
    message.append(" failed: ");
    message.append(error);
    message
}

/// The frames between two key frames: there is always a next one, and never more than six hundred
/// frames away.
pub open spec fn bounded_gop(frames: i64) -> i64 {
    if frames < 1 {
        1
    } else if frames > 600 {
        600
    } else {
        frames
    }
}

/// The device as it is opened.
pub open spec fn opened_device(settings: RustCaptureSettings) -> Device {
    Device {
        fd: NO_FD,
        width: settings.width,
        height: settings.height,
        row_bytes: (settings.width * 4) as usize,
        staging_fd: NO_FD,
        nv12_fd: abi::filled(NO_FD),
        capture: abi::filled((0usize, 0usize)),
        queued: 0,
        spare: None,
        omit_headers: settings.omit_stripe_headers,
        bitrate_bps: tegra::bits_per_second(settings.video_bitrate_kbps) as u32,
    }
}

/// The state in which a creation starts.
pub open spec fn begun(settings: RustCaptureSettings, rgba: bool) -> Creation {
    Creation {
        keyframe: bounded_gop(settings.gop_frames),
        vbv: settings.vbv_bits,
        rgba,
        node: 0,
        device: opened_device(settings),
        phase: Phase::Vendor,
    }
}

/// The controls in the order in which they are set, each with its value.
pub open spec fn control_at(c: Creation, i: usize) -> (u32, i64) {
    if i == 0 {
        (abi::CID_BITRATE, c.device.bitrate_bps as i64)
    } else if i == 1 {
        (abi::CID_BITRATE_MODE, abi::BITRATE_MODE_CBR as i64)
    } else if i == 2 {
        (abi::CID_H264_PROFILE, abi::H264_PROFILE_MAIN as i64)
    } else if i == 3 {
        (abi::CID_HW_PRESET, abi::HW_PRESET_ULTRAFAST as i64)
    } else if i == 4 {
        (abi::CID_MAX_PERFORMANCE, 1)
    } else if i == 5 {
        (abi::CID_INSERT_SPS_PPS_AT_IDR, 1)
    } else if i == 6 {
        (abi::CID_INSERT_VUI, 1)
    } else if i == 7 {
        (abi::CID_POC_TYPE, 2)
    } else if i == 8 {
        (abi::CID_IDR_INTERVAL, c.keyframe)
    } else {
        (abi::CID_VBV_SIZE, c.vbv)
    }
}

/// What each control is called in an error.
pub open spec fn control_name_of(i: usize) -> Seq<char> {
    if i == 0 {
        "bitrate"@
    } else if i == 1 {
        "rate control mode"@
    } else if i == 2 {
        "profile"@
    } else if i == 3 {
        "preset"@
    } else if i == 4 {
        "max performance"@
    } else if i == 5 {
        "SPS/PPS at IDR"@
    } else if i == 6 {
        "VUI"@
    } else if i == 7 {
        "picture order count type"@
    } else if i == 8 {
        "IDR interval"@
    } else {
        "VBV size"@
    }
}

/// What each call is named in an error; the calls that have an error text of their own have no
/// name.
pub open spec fn name_of(phase: Phase) -> Seq<char> {
    match phase {
        Phase::CaptureFormat => "S_FMT capture"@,
        Phase::OutputFormat => "S_FMT output"@,
        Phase::Control(i) => control_name_of(i),
        Phase::OutputBuffers => "REQBUFS output"@,
        Phase::CaptureBuffers => "REQBUFS capture"@,
        Phase::Query(_) => "QUERYBUF capture"@,
        Phase::Export { .. } => "EXPBUF capture"@,
        Phase::Queue { .. } => "QBUF capture"@,
        Phase::StreamOutput => "STREAMON output"@,
        Phase::StreamCapture => "STREAMON capture"@,
        _ => ""@,
    }
}

/// The phase behind one that only has to succeed.
pub open spec fn after(phase: Phase) -> Phase {
    match phase {
        Phase::CaptureFormat => Phase::OutputFormat,
        Phase::OutputFormat => Phase::Control(0),
        Phase::Control(i) => if i < 9 {
            Phase::Control((i + 1) as usize)
        } else {
            Phase::OutputBuffers
        },
        Phase::OutputBuffers => Phase::Staging,
        Phase::CaptureBuffers => Phase::Query(0),
        Phase::Queue { index, .. } => if index < 3 {
            Phase::Query((index + 1) as usize)
        } else {
            Phase::StreamOutput
        },
        Phase::StreamOutput => Phase::StreamCapture,
        _ => phase,
    }
}

impl Creation {
    /// The size is one that the encoder takes, and what is numbered is there.
    pub open spec fn wf(self) -> bool {
        &&& self.device.wf()
        &&& 1 <= self.keyframe <= 600
        &&& self.node < 2
        &&& match self.phase {
            Phase::Node(i) => i < 2,
            Phase::Control(i) => i < 10,
            Phase::Surface(i) | Phase::Query(i) => i < 4,
            Phase::Export { index, .. }
            | Phase::Mapping { index, .. }
            | Phase::CloseExport { index, .. }
            | Phase::Queue { index, .. } => index < 4,
            _ => true,
        }
    }

    /// Whether the device has opened.
    pub open spec fn opened(self) -> bool {
        !(self.phase is Vendor) && !(self.phase is Node)
    }

    /// The room for an access unit on the capture plane: a byte a pixel, and two megabytes at
    /// least.
    pub open spec fn capture_room(self) -> u32 {
        let pixels = self.device.width * self.device.height;
        if pixels > 0x20_0000 {
            pixels as u32
        } else {
            0x20_0000
        }
    }

    /// The surface that host frames are copied into.
    pub open spec fn staging_of(self) -> NvBufferCreateParams {
        NvBufferCreateParams {
            width: self.device.width,
            height: self.device.height,
            payload_type: abi::NVBUF_PAYLOAD_SURF_ARRAY,
            memsize: 0,
            layout: abi::NVBUF_LAYOUT_PITCH,
            color_format: if self.rgba {
                abi::NVBUF_COLOR_ABGR32
            } else {
                abi::NVBUF_COLOR_XRGB32
            },
            nvbuf_tag: abi::NVBUF_TAG_NONE,
        }
    }

    /// A surface that the encoder reads.
    pub open spec fn nv12_of(self) -> NvBufferCreateParams {
        NvBufferCreateParams {
            layout: abi::NVBUF_LAYOUT_BLOCK_LINEAR,
            color_format: abi::NVBUF_COLOR_NV12,
            nvbuf_tag: abi::NVBUF_TAG_VIDEO_ENC,
            ..self.staging_of()
        }
    }

    /// The call that is due.
    pub open spec fn due(self) -> Call {
        match self.phase {
            Phase::Vendor => Call::LoadVendor,
            Phase::Node(i) => Call::Open { node: i, nonblocking: true },
            Phase::CaptureFormat => Call::SetFormat(
                abi::format_of(
                    self.device.width,
                    self.device.height,
                    abi::V4L2_BUF_TYPE_VIDEO_CAPTURE_MPLANE,
                    abi::V4L2_PIX_FMT_H264,
                    1,
                    self.capture_room(),
                ),
            ),
            Phase::OutputFormat => Call::SetFormat(
                abi::format_of(
                    self.device.width,
                    self.device.height,
                    abi::V4L2_BUF_TYPE_VIDEO_OUTPUT_MPLANE,
                    abi::V4L2_PIX_FMT_NV12M,
                    2,
                    0,
                ),
            ),
            Phase::Control(i) => Call::SetControl(
                abi::control_of(control_at(self, i).0, control_at(self, i).1),
            ),
            Phase::OutputBuffers => Call::RequestBuffers(
                RequestBuffers {
                    count: OUTPUT_BUFFERS as u32,
                    type_: abi::V4L2_BUF_TYPE_VIDEO_OUTPUT_MPLANE,
                    memory: abi::V4L2_MEMORY_DMABUF,
                    capabilities: 0,
                    reserved: 0,
                },
            ),
            Phase::Staging => Call::CreateSurface(self.staging_of()),
            Phase::Surface(_) => Call::CreateSurface(self.nv12_of()),
            Phase::CaptureBuffers => Call::RequestBuffers(
                RequestBuffers {
                    count: CAPTURE_BUFFERS as u32,
                    type_: abi::V4L2_BUF_TYPE_VIDEO_CAPTURE_MPLANE,
                    memory: abi::V4L2_MEMORY_MMAP,
                    capabilities: 0,
                    reserved: 0,
                },
            ),
            Phase::Query(i) => Call::QueryBuffer(
                abi::buffer_of(
                    abi::V4L2_BUF_TYPE_VIDEO_CAPTURE_MPLANE,
                    abi::V4L2_MEMORY_MMAP,
                    i as u32,
                    1,
                ),
            ),
            Phase::Export { index, .. } => Call::ExportBuffer(
                ExportBuffer {
                    type_: abi::V4L2_BUF_TYPE_VIDEO_CAPTURE_MPLANE,
                    index: index as u32,
                    plane: 0,
                    flags: 0,
                    fd: 0,
                    reserved: abi::filled(0u32),
                },
            ),
            Phase::Mapping { queued, fd, .. } => Call::MapExport {
                length: queued.planes[0].length as usize,
                fd,
                offset: queued.planes[0].m as i64,
            },
            Phase::CloseExport { fd, .. } => Call::CloseExport(fd),
            Phase::Queue { queued, .. } => Call::QueueBuffer(queued),
            Phase::StreamOutput => Call::StreamOn(abi::V4L2_BUF_TYPE_VIDEO_OUTPUT_MPLANE),
            Phase::StreamCapture => Call::StreamOn(abi::V4L2_BUF_TYPE_VIDEO_CAPTURE_MPLANE),
        }
    }

    /// The creation going on in `phase`.
    pub open spec fn at(self, phase: Phase) -> ProgressView {
        ProgressView::Going(Creation { phase, ..self })
    }

    /// The creation failed with `message`, on the node that opened.
    pub open spec fn failed(self, message: Seq<char>) -> ProgressView {
        ProgressView::Failed(
            Some(self.device),
            vendor::node_name(self.node) + ": "@ + message,
        )
    }

    /// The creation with the surface `fd` that the call in this phase left behind.
    pub open spec fn with_surface(self, fd: i32) -> Creation {
        let device = match self.phase {
            Phase::Surface(i) => Device {
                nv12_fd: vstd::array::spec_array_update(self.device.nv12_fd, i as int, fd),
                ..self.device
            },
            _ => Device { staging_fd: fd, ..self.device },
        };
        Creation { device, ..self }
    }

    /// Where the creation stands after `reply` came to the call that was due.
    pub open spec fn next(self, reply: ReplyView) -> ProgressView {
        match (self.phase, reply) {
            (Phase::Vendor, ReplyView::Vendor(there)) => if there {
                self.at(Phase::Node(0))
            } else {
                ProgressView::Failed(None, "the Tegra vendor libraries are unavailable"@)
            },
            (Phase::Node(i), ReplyView::Opened(fd)) => if fd >= 0 {
                let device = Device { fd, ..self.device };
                Creation { node: i, device, ..self }.at(Phase::CaptureFormat)
            } else if i < 1 {
                self.at(Phase::Node((i + 1) as usize))
            } else {
                ProgressView::Failed(None, vendor::no_node())
            },
            (Phase::Staging, ReplyView::Created { rc, fd }) => if rc < 0 {
                self.with_surface(fd).failed("NvBufferCreateEx for the staging surface failed"@)
            } else {
                self.with_surface(fd).at(Phase::Surface(0))
            },
            (Phase::Surface(i), ReplyView::Created { rc, fd }) => if rc < 0 {
                self.with_surface(fd).failed("NvBufferCreateEx for an NV12 surface failed"@)
            } else if i < 3 {
                self.with_surface(fd).at(Phase::Surface((i + 1) as usize))
            } else {
                self.with_surface(fd).at(Phase::CaptureBuffers)
            },
            (Phase::Query(index), ReplyView::Buffer { rc, queued, error }) => if rc < 0 {
                self.failed(refused(name_of(self.phase), error.text))
            } else {
                self.at(Phase::Export { index, queued })
            },
            (Phase::Export { index, queued }, ReplyView::Exported { rc, export, error }) => if rc
                < 0 {
                self.failed(refused(name_of(self.phase), error.text))
            } else {
                self.at(Phase::Mapping { index, queued, fd: export.fd })
            },
            (Phase::Mapping { index, queued, fd }, ReplyView::Mapped(address)) => self.at(
                Phase::CloseExport { index, queued, fd, address },
            ),
            (
                Phase::CloseExport { index, queued, address, .. },
                ReplyView::Returned { error, .. },
            ) => match address {
                None => self.failed(refused("mmap of a capture plane"@, error.text)),
                Some(address) => {
                    let device = Device {
                        capture: vstd::array::spec_array_update(
                            self.device.capture,
                            index as int,
                            (address, queued.planes[0].length as usize),
                        ),
                        ..self.device
                    };
                    Creation { device, ..self }.at(Phase::Queue { index, queued })
                },
            },
            (_, ReplyView::Returned { rc, error }) => if rc < 0 {
                self.failed(refused(name_of(self.phase), error.text))
            } else if self.phase is StreamCapture {
                ProgressView::Ready(self.device)
            } else {
                self.at(after(self.phase))
            },
            (_, _) => ProgressView::Going(self),
        }
    }
}

/// What each control is called in an error.
fn control_name(i: usize) -> (name: &'static str)
    ensures
        name@ == control_name_of(i),
{
    if i == 0 {
        "bitrate"
    } else if i == 1 {
        "rate control mode"
    } else if i == 2 {
        "profile"
    } else if i == 3 {
        "preset"
    } else if i == 4 {
        "max performance"
    } else if i == 5 {
        "SPS/PPS at IDR"
    } else if i == 6 {
        "VUI"
    } else if i == 7 {
        "picture order count type"
    } else if i == 8 {
        "IDR interval"
    } else {
        "VBV size"
    }
}

/// What each call is named in an error.
fn name(phase: Phase) -> (name: &'static str)
    ensures
        name@ == name_of(phase),
{
    match phase {
        Phase::CaptureFormat => "S_FMT capture",
        Phase::OutputFormat => "S_FMT output",
        Phase::Control(i) => control_name(i),
        Phase::OutputBuffers => "REQBUFS output",
        Phase::CaptureBuffers => "REQBUFS capture",
        Phase::Query(_) => "QUERYBUF capture",
        Phase::Export { .. } => "EXPBUF capture",
        Phase::Queue { .. } => "QBUF capture",
        Phase::StreamOutput => "STREAMON output",
        Phase::StreamCapture => "STREAMON capture",
        _ => "",
    }
}

/// The phase behind one that only has to succeed.
fn following(phase: Phase) -> (next: Phase)
    ensures
        next == after(phase),
{
    match phase {
        Phase::CaptureFormat => Phase::OutputFormat,
        Phase::OutputFormat => Phase::Control(0),
        Phase::Control(i) => if i < 9 {
            Phase::Control(i + 1)
        } else {
            Phase::OutputBuffers
        },
        Phase::OutputBuffers => Phase::Staging,
        Phase::CaptureBuffers => Phase::Query(0),
        Phase::Queue { index, .. } => if index < 3 {
            Phase::Query(index + 1)
        } else {
            Phase::StreamOutput
        },
        Phase::StreamOutput => Phase::StreamCapture,
        _ => phase,
    }
}

/// Whether `sizes` are those of the kernel.
pub open spec fn sizes_match(sizes: AbiSizes) -> bool {
    forall|i: int|
        0 <= i < abi::abi_table(sizes).len() ==> (#[trigger] abi::abi_table(sizes)[i]).got
            == abi::abi_table(sizes)[i].want
}

impl TegraEncoder {
    /// Starts making an encoder for `settings`, by a build that lays the kernel's structures out
    /// in `sizes`.
    pub fn new(settings: &RustCaptureSettings, rgba: bool, sizes: &AbiSizes) -> (creation: Result<
        Creation,
        String,
    >)
        requires
            sizes_match(*sizes) && tegra::takes(settings.width, settings.height) ==> settings.width * 4
                <= usize::MAX,
        ensures
            match creation {
                Ok(c) => {
                    &&& sizes_match(*sizes)
                    &&& tegra::takes(settings.width, settings.height)
                    &&& c.wf()
                    &&& c == begun(*settings, rgba)
                },
                Err(e) => {
                    ||| exists|i: int| #[trigger]
                        abi::first_mismatch(abi::abi_table(*sizes), i) && e@ == abi::mismatch(
                            abi::abi_table(*sizes)[i],
                        )
                    ||| sizes_match(*sizes) && !tegra::takes(settings.width, settings.height)
                        && e@ == odd_size(settings.width, settings.height)
                },
            },
    {
        abi::abi_matches(sizes)?;
        let (width, height): (i32, i32) = (settings.width, settings.height);
        if width <= 0 || height <= 0 || width % 2 != 0 || height % 2 != 0 {
            let mut message: String = "the encoder needs even dimensions, got ".to_owned();
            text::push_signed(&mut message, width);
            message.append("x");
            text::push_signed(&mut message, height);
            return Err(message);
        }
        let keyframe: i64 = if settings.gop_frames < 1 {
            1
        } else if settings.gop_frames > 600 {
            600
        } else {
            settings.gop_frames
        };
        let device: Device = Device {
            fd: NO_FD,
            width,
            height,
            row_bytes: width as usize * 4,
            staging_fd: NO_FD,
            nv12_fd: [NO_FD; 4],
            capture: [(0usize, 0usize); 4],
            queued: 0,
            spare: None,
            omit_headers: settings.omit_stripe_headers,
            bitrate_bps: bitrate_bps(settings.video_bitrate_kbps),
        };
        Ok(
            Creation {
                keyframe,
                vbv: settings.vbv_bits,
                rgba,
                node: 0,
                device,
                phase: Phase::Vendor,
            },
        )
    }
}

impl Creation {
    /// The control that is due, with its value.
    fn control(&self, i: usize) -> (control: ExtControls)
        ensures
            control == abi::control_of(control_at(*self, i).0, control_at(*self, i).1),
    {
        let (id, value): (u32, i64) = if i == 0 {
            (abi::CID_BITRATE, self.device.bitrate_bps as i64)
        } else if i == 1 {
            (abi::CID_BITRATE_MODE, abi::BITRATE_MODE_CBR as i64)
        } else if i == 2 {
            (abi::CID_H264_PROFILE, abi::H264_PROFILE_MAIN as i64)
        } else if i == 3 {
            (abi::CID_HW_PRESET, abi::HW_PRESET_ULTRAFAST as i64)
        } else if i == 4 {
            (abi::CID_MAX_PERFORMANCE, 1)
        } else if i == 5 {
            (abi::CID_INSERT_SPS_PPS_AT_IDR, 1)
        } else if i == 6 {
            (abi::CID_INSERT_VUI, 1)
        } else if i == 7 {
            (abi::CID_POC_TYPE, 2)
        } else if i == 8 {
            (abi::CID_IDR_INTERVAL, self.keyframe)
        } else {
            (abi::CID_VBV_SIZE, self.vbv)
        };
        abi::set_control(id, value)
    }

    /// The surface that host frames are copied into.
    fn staging(&self) -> (params: NvBufferCreateParams)
        ensures
            params == self.staging_of(),
    {
        NvBufferCreateParams {
            width: self.device.width,
            height: self.device.height,
            payload_type: abi::NVBUF_PAYLOAD_SURF_ARRAY,
            memsize: 0,
            layout: abi::NVBUF_LAYOUT_PITCH,
            color_format: abi::staging_format(self.rgba),
            nvbuf_tag: abi::NVBUF_TAG_NONE,
        }
    }

    /// The call that is due. The picture's pixels have to be countable in 32 bits when its format
    /// is set.
    pub fn call(&self) -> (call: Call)
        requires
            self.wf(),
            self.phase is CaptureFormat ==> self.device.width * self.device.height <= u32::MAX,
        ensures
            call == self.due(),
    {
        let (width, height): (i32, i32) = (self.device.width, self.device.height);
        match self.phase {
            Phase::Vendor => Call::LoadVendor,
            Phase::Node(i) => Call::Open { node: i, nonblocking: true },
            Phase::CaptureFormat => {
                assert(0 <= width * height) by (nonlinear_arith)
                    requires
                        width > 0,
                        height > 0,
                ;
                let pixels: u32 = width as u32 * height as u32;
                let room: u32 = if pixels > 0x20_0000 {
                    pixels
                } else {
                    0x20_0000
                };
                Call::SetFormat(
                    abi::format(
                        width,
                        height,
                        abi::V4L2_BUF_TYPE_VIDEO_CAPTURE_MPLANE,
                        abi::V4L2_PIX_FMT_H264,
                        1,
                        room,
                    ),
                )
            },
            Phase::OutputFormat => Call::SetFormat(
                abi::format(
                    width,
                    height,
                    abi::V4L2_BUF_TYPE_VIDEO_OUTPUT_MPLANE,
                    abi::V4L2_PIX_FMT_NV12M,
                    2,
                    0,
                ),
            ),
            Phase::Control(i) => Call::SetControl(self.control(i)),
            Phase::OutputBuffers => Call::RequestBuffers(
                RequestBuffers {
                    count: OUTPUT_BUFFERS as u32,
                    type_: abi::V4L2_BUF_TYPE_VIDEO_OUTPUT_MPLANE,
                    memory: abi::V4L2_MEMORY_DMABUF,
                    capabilities: 0,
                    reserved: 0,
                },
            ),
            Phase::Staging => Call::CreateSurface(self.staging()),
            Phase::Surface(_) => {
                let mut params: NvBufferCreateParams = self.staging();
                params.layout = abi::NVBUF_LAYOUT_BLOCK_LINEAR;
                params.color_format = abi::NVBUF_COLOR_NV12;
                params.nvbuf_tag = abi::NVBUF_TAG_VIDEO_ENC;
                Call::CreateSurface(params)
            },
            Phase::CaptureBuffers => Call::RequestBuffers(
                RequestBuffers {
                    count: CAPTURE_BUFFERS as u32,
                    type_: abi::V4L2_BUF_TYPE_VIDEO_CAPTURE_MPLANE,
                    memory: abi::V4L2_MEMORY_MMAP,
                    capabilities: 0,
                    reserved: 0,
                },
            ),
            Phase::Query(i) => Call::QueryBuffer(
                abi::buffer(
                    abi::V4L2_BUF_TYPE_VIDEO_CAPTURE_MPLANE,
                    abi::V4L2_MEMORY_MMAP,
                    i as u32,
                    1,
                ),
            ),
            Phase::Export { index, .. } => Call::ExportBuffer(
                ExportBuffer {
                    type_: abi::V4L2_BUF_TYPE_VIDEO_CAPTURE_MPLANE,
                    index: index as u32,
                    plane: 0,
                    flags: 0,
                    fd: 0,
                    reserved: [0u32; 11],
                },
            ),
            Phase::Mapping { queued, fd, .. } => Call::MapExport {
                length: queued.planes[0].length as usize,
                fd,
                offset: queued.planes[0].m as i64,
            },
            Phase::CloseExport { fd, .. } => Call::CloseExport(fd),
            Phase::Queue { queued, .. } => Call::QueueBuffer(queued),
            Phase::StreamOutput => Call::StreamOn(abi::V4L2_BUF_TYPE_VIDEO_OUTPUT_MPLANE),
            Phase::StreamCapture => Call::StreamOn(abi::V4L2_BUF_TYPE_VIDEO_CAPTURE_MPLANE),
        }
    }

    /// The encoder as it is so far.
    fn encoder(&self) -> (encoder: TegraEncoder)
        ensures
            encoder.device == self.device,
            encoder.scratch@.len() == 0,
    {
        TegraEncoder { device: self.device, scratch: Vec::new() }
    }

    /// The creation going on in `phase`.
    fn going(&self, phase: Phase) -> (progress: Progress)
        ensures
            progress@ == self.at(phase),
            progress.unused(),
    {
        let mut creation: Creation = *self;
        creation.phase = phase;
        Progress::Going(creation)
    }

    /// The creation failed with `message`, on the node that opened.
    fn fail(&self, message: &str) -> (progress: Progress)
        requires
            self.wf(),
        ensures
            progress@ == self.failed(message@),
            progress.unused(),
    {
        Progress::Failed(
            Some(self.encoder()),
            text::labelled(vendor::encoder_node(self.node), message),
        )
    }

    /// The creation failed because the system refused the call that was due.
    fn refuse(&self, error: &OsError) -> (progress: Progress)
        requires
            self.wf(),
        ensures
            progress@ == self.failed(refused(name_of(self.phase), error@.text)),
            progress.unused(),
    {
        let message: String = refusal(name(self.phase), error.text.as_str());
        self.fail(message.as_str())
    }

    /// Takes `reply`, the answer to the call that was due.
    pub fn reply(self, reply: Reply) -> (progress: Progress)
        requires
            self.wf(),
            tegra::fits(self.due(), reply@),
        ensures
            progress@ == self.next(reply@),
            progress.unused(),
    {
        let mut creation: Creation = self;
        match (creation.phase, reply) {
            (Phase::Vendor, Reply::Vendor(there)) => if there {
                creation.going(Phase::Node(0))
            } else {
                Progress::Failed(None, "the Tegra vendor libraries are unavailable".to_owned())
            },
            (Phase::Node(i), Reply::Opened(fd)) => if fd >= 0 {
                creation.node = i;
                creation.device.fd = fd;
                creation.going(Phase::CaptureFormat)
            } else if i < 1 {
                creation.going(Phase::Node(i + 1))
            } else {
                Progress::Failed(None, vendor::none_opened())
            },
            (Phase::Staging, Reply::Created { rc, fd }) => {
                creation.device.staging_fd = fd;
                if rc < 0 {
                    creation.fail("NvBufferCreateEx for the staging surface failed")
                } else {
                    creation.going(Phase::Surface(0))
                }
            },
            (Phase::Surface(i), Reply::Created { rc, fd }) => {
                creation.device.nv12_fd[i] = fd;
                assert(creation.device == self.with_surface(fd).device);
                if rc < 0 {
                    creation.fail("NvBufferCreateEx for an NV12 surface failed")
                } else if i < 3 {
                    creation.going(Phase::Surface(i + 1))
                } else {
                    creation.going(Phase::CaptureBuffers)
                }
            },
            (Phase::Query(index), Reply::Buffer { rc, queued, error }) => if rc < 0 {
                creation.refuse(&error)
            } else {
                creation.going(Phase::Export { index, queued })
            },
            (Phase::Export { index, queued }, Reply::Exported { rc, export, error }) => if rc < 0 {
                creation.refuse(&error)
            } else {
                creation.going(Phase::Mapping { index, queued, fd: export.fd })
            },
            // The export is what is mapped: the device itself answers ENODEV.
            (Phase::Mapping { index, queued, fd }, Reply::Mapped(address)) => creation.going(
                Phase::CloseExport { index, queued, fd, address },
            ),
            (
                Phase::CloseExport { index, queued, address, .. },
                Reply::Returned { error, .. },
            ) => match address {
                None => {
                    let message: String = refusal("mmap of a capture plane", error.text.as_str());
                    creation.fail(message.as_str())
                },
                Some(address) => {
                    creation.device.capture[index] = (address, queued.planes[0].length as usize);
                    creation.going(Phase::Queue { index, queued })
                },
            },
            (phase, Reply::Returned { rc, error }) => if rc < 0 {
                creation.refuse(&error)
            } else {
                match phase {
                    Phase::StreamCapture => Progress::Ready(creation.encoder()),
                    _ => creation.going(following(phase)),
                }
            },
            (_, _) => Progress::Going(creation),
        }
    }
}

/// A creation stays well-formed with every call, and so is the device it ends with.
pub proof fn creation_stays_wf(c: Creation, reply: ReplyView)
    requires
        c.wf(),
        tegra::fits(c.due(), reply),
    ensures
        match c.next(reply) {
            ProgressView::Going(t) => t.wf(),
            ProgressView::Ready(d) => d.wf() && d.queued == c.device.queued && d.spare
                == c.device.spare,
            ProgressView::Failed(Some(d), _) => d.wf(),
            ProgressView::Failed(None, _) => true,
        },
{
}

/// How far a creation has come.
pub open spec fn place(phase: Phase) -> nat {
    match phase {
        Phase::Vendor => 0,
        Phase::Node(i) => (1 + i) as nat,
        Phase::CaptureFormat => 3,
        Phase::OutputFormat => 4,
        Phase::Control(i) => (5 + i) as nat,
        Phase::OutputBuffers => 15,
        Phase::Staging => 16,
        Phase::Surface(i) => (17 + i) as nat,
        Phase::CaptureBuffers => 21,
        Phase::Query(i) => (22 + 5 * i) as nat,
        Phase::Export { index, .. } => (23 + 5 * index) as nat,
        Phase::Mapping { index, .. } => (24 + 5 * index) as nat,
        Phase::CloseExport { index, .. } => (25 + 5 * index) as nat,
        Phase::Queue { index, .. } => (26 + 5 * index) as nat,
        Phase::StreamOutput => 42,
        Phase::StreamCapture => 43,
    }
}

/// Every call that succeeds brings a creation on. Once the device is open none is left out: the
/// formats are set first, then the ten controls, then the surfaces are made, then the four
/// capture buffers are mapped and queued in their order, and only then are the two queues
/// started, the encoder being ready with the second.
pub proof fn creation_leaves_nothing_out(c: Creation, reply: ReplyView)
    requires
        c.wf(),
        tegra::fits(c.due(), reply),
    ensures
        match c.next(reply) {
            ProgressView::Going(t) => {
                &&& place(c.phase) < place(t.phase)
                &&& c.opened() ==> t.opened() && place(t.phase) == place(c.phase) + 1
                &&& !c.opened() && t.opened() ==> t.phase is CaptureFormat
            },
            ProgressView::Ready(_) => c.phase is StreamCapture,
            ProgressView::Failed(device, _) => (device is Some <==> c.opened()),
        },
{
}

/// An exported buffer is closed as soon as it has been mapped, whether or not that worked.
pub proof fn exported_buffer_is_closed(c: Creation, export: ExportBuffer, address: Option<usize>)
    requires
        c.wf(),
        c.phase is Export,
    ensures
        forall|rc: i32, error: tegra::OsErrorView|
            rc >= 0 ==> match #[trigger] c.next(ReplyView::Exported { rc, export, error }) {
                ProgressView::Going(mapping) => {
                    &&& mapping.due() matches Call::MapExport { fd, .. }
                    &&& fd == export.fd
                    &&& match mapping.next(ReplyView::Mapped(address)) {
                        ProgressView::Going(closing) => closing.due() == Call::CloseExport(
                            export.fd,
                        ),
                        _ => false,
                    }
                },
                _ => false,
            },
{
}

/// The device of a creation, or the one that it ended with.
pub open spec fn device_of(progress: ProgressView) -> Option<Device> {
    match progress {
        ProgressView::Going(c) => if c.opened() {
            Some(c.device)
        } else {
            None
        },
        ProgressView::Ready(d) => Some(d),
        ProgressView::Failed(d, _) => d,
    }
}

/// Nothing that has been acquired is lost: the device stays the one that was opened, a surface is
/// noted even where the call that left it failed, a mapping is noted as soon as its export is
/// closed, and whatever was noted before is still there.
pub proof fn acquired_is_kept(c: Creation, reply: ReplyView, before: Device, after: Device)
    requires
        c.wf(),
        tegra::fits(c.due(), reply),
        c.opened(),
        before == c.device,
        device_of(c.next(reply)) == Some(after),
    ensures
        after.fd == before.fd,
        match reply {
            ReplyView::Created { fd, .. } => match c.phase {
                Phase::Surface(i) => after.nv12_fd[i as int] == fd && after.staging_fd
                    == before.staging_fd,
                _ => after.staging_fd == fd,
            },
            _ => after.staging_fd == before.staging_fd && after.nv12_fd == before.nv12_fd,
        },
        forall|j: int|
            0 <= j < 4 && c.phase != Phase::Surface(j as usize) ==> #[trigger] after.nv12_fd[j]
                == before.nv12_fd[j],
        match c.phase {
            Phase::CloseExport { index, queued, address: Some(address), .. } => {
                &&& after.capture[index as int] == (address, queued.planes[0].length as usize)
                &&& forall|j: int|
                    0 <= j < 4 && j != index ==> #[trigger] after.capture[j] == before.capture[j]
            },
            _ => after.capture == before.capture,
        },
{
}

/// Whether `replies` are answers to the calls that a creation makes one after the other, up to its
/// end at most.
pub open spec fn answers(c: Creation, replies: Seq<ReplyView>) -> bool
    decreases replies.len(),
{
    replies.len() > 0 ==> {
        &&& tegra::fits(c.due(), replies[0])
        &&& match c.next(replies[0]) {
            ProgressView::Going(t) => answers(t, replies.drop_first()),
            _ => replies.len() == 1,
        }
    }
}

/// What a creation comes to that gets `replies`.
pub open spec fn outcome(c: Creation, replies: Seq<ReplyView>) -> ProgressView
    decreases replies.len(),
{
    if replies.len() == 0 {
        ProgressView::Going(c)
    } else {
        match c.next(replies[0]) {
            ProgressView::Going(t) => outcome(t, replies.drop_first()),
            end => end,
        }
    }
}

/// Whether `reply` says that its call did what it was made for.
pub open spec fn succeeded(reply: ReplyView) -> bool {
    match reply {
        ReplyView::Returned { rc, .. }
        | ReplyView::Created { rc, .. }
        | ReplyView::Buffer { rc, .. }
        | ReplyView::Exported { rc, .. } => rc >= 0,
        ReplyView::Mapped(address) => address is Some,
        _ => true,
    }
}

/// An encoder that is ready has had an answer to each of the calls, and every call succeeded but
/// for those that closed an export, of which nothing is asked.
pub proof fn ready_took_every_call(c: Creation, replies: Seq<ReplyView>, device: Device)
    requires
        c.wf(),
        c.opened(),
        answers(c, replies),
        outcome(c, replies) == ProgressView::Ready(device),
    ensures
        replies.len() == 44 - place(c.phase),
        device.wf(),
        device.fd == c.device.fd,
        forall|i: int|
            0 <= i < replies.len() ==> succeeded(#[trigger] replies[i]) || closes_export(
                place(c.phase) + i,
            ),
    decreases replies.len(),
{
    reveal_with_fuel(answers, 2);
    reveal_with_fuel(outcome, 2);
    creation_stays_wf(c, replies[0]);
    creation_leaves_nothing_out(c, replies[0]);
    let rest = replies.drop_first();
    if let ProgressView::Going(t) = c.next(replies[0]) {
        ready_took_every_call(t, rest, device);
        if replies[0] == ReplyView::Mapped(None) {
            assert(tegra::fits(t.due(), rest[0]));
            assert(t.next(rest[0]) is Failed);
        }
        assert forall|i: int| 0 <= i < replies.len() implies succeeded(#[trigger] replies[i])
            || closes_export(place(c.phase) + i) by {
            if i > 0 {
                assert(rest[i - 1] == replies[i]);
            }
        }
    }
}

/// An encoder that is ready is the one that was asked for, whatever came before: its picture, the
/// length of its rows, whether it leaves headers out and its bitrate are those of the creation, and
/// so is the count of its queued buffers.
pub proof fn ready_is_what_was_asked_for(c: Creation, replies: Seq<ReplyView>, device: Device)
    requires
        c.wf(),
        answers(c, replies),
        outcome(c, replies) == ProgressView::Ready(device),
    ensures
        device.wf(),
        device.width == c.device.width && device.height == c.device.height,
        device.row_bytes == c.device.row_bytes,
        device.omit_headers == c.device.omit_headers,
        device.bitrate_bps == c.device.bitrate_bps,
        device.queued == c.device.queued && device.spare == c.device.spare,
    decreases replies.len(),
{
    creation_stays_wf(c, replies[0]);
    if let ProgressView::Going(t) = c.next(replies[0]) {
        ready_is_what_was_asked_for(t, replies.drop_first(), device);
    }
}

/// Whether the call at this place of a creation is one that closes an export.
pub open spec fn closes_export(place: int) -> bool {
    place == 25 || place == 30 || place == 35 || place == 40
}

} // verus!
