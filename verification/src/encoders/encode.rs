//! One host frame through the encoder.
//!
//! [`TegraEncoder::encode_host`] starts an [`EncodeJob`]. The program makes the call that
//! [`EncodeJob::call`] names and hands the answer to [`EncodeJob::reply`], until the access units
//! that the encoder has ready are there or the job has failed.
use crate::encoders::abi;
use crate::encoders::abi::{Plane, Queued, OUTPUT_BUFFERS};
use crate::encoders::setup;
use crate::encoders::setup::refusal;
use crate::encoders::tegra;
use crate::encoders::tegra::{
    Call, Codec, Device, Reference, Reply, ReplyView, TegraEncoder, VideoHeader,
};
use vstd::prelude::*;
use vstd::slice::slice_subrange;

verus! {

/// The milliseconds that one wait for an output buffer takes at most.
pub const WAIT_MS: i32 = 20;

/// The nanoseconds after which an output buffer is given up.
pub const RECLAIM_NS: u64 = 500_000_000;

/// What a job is waiting for.
#[derive(Clone, Copy, Debug, PartialEq)]
pub enum Phase {
    Stage,
    /// The time at which the wait for an output buffer starts.
    Deadline,
    /// One of the queued output buffers.
    Reclaim { deadline: u64 },
    /// The time, none of them having come back.
    Late { deadline: u64 },
    /// The device, there being time left.
    Wait { deadline: u64 },
    Transform(usize),
    ForceIdr(usize),
    Queue(usize),
    Collect,
    Read(Queued),
    Requeue(Queued),
}

/// A frame on its way through the encoder.
pub struct EncodeJob {
    /// Whether the frame stands in the scratch buffer.
    pub packed: bool,
    pub frame_number: u64,
    pub force_idr: bool,
    pub phase: Phase,
    /// The access units collected so far, each behind its header.
    pub out: Vec<u8>,
}

/// [`EncodeJob`] as a mathematical value.
#[verifier::ext_equal]
pub struct State {
    pub packed: bool,
    pub frame_number: u64,
    pub force_idr: bool,
    pub phase: Phase,
    pub out: Seq<u8>,
}

/// Where a job stands after a call.
pub enum Progress {
    Going(EncodeJob),
    Done(Vec<u8>),
}

/// [`Progress`] as a mathematical value.
pub enum ProgressView {
    Going(State),
    Done(Seq<u8>),
}

impl EncodeJob {
    pub open spec fn view(&self) -> State {
        State {
            packed: self.packed,
            frame_number: self.frame_number,
            force_idr: self.force_idr,
            phase: self.phase,
            out: self.out@,
        }
    }
}

impl Progress {
    pub open spec fn view(&self) -> ProgressView {
        match self {
            Progress::Going(job) => ProgressView::Going(job@),
            Progress::Done(out) => ProgressView::Done(out@),
        }
    }
}

/// The first `n` rows of a picture whose rows start `stride` apart, `row_bytes` of each, one
/// behind the other.
pub open spec fn rows(pixels: Seq<u8>, stride: int, row_bytes: int, n: int) -> Seq<u8>
    decreases n,
{
    if n <= 0 {
        Seq::empty()
    } else {
        rows(pixels, stride, row_bytes, n - 1) + pixels.subrange(
            (n - 1) * stride,
            (n - 1) * stride + row_bytes,
        )
    }
}

/// Whether `pixels` holds a picture of `height` rows of `row_bytes` that start `stride` apart; the
/// last need not be padded.
pub open spec fn holds(pixels: Seq<u8>, stride: int, row_bytes: int, height: int) -> bool {
    stride >= row_bytes && pixels.len() >= stride * (height - 1) + row_bytes
}

/// The header of a unit that came back as `queued`: its frame number travelled in the timestamp.
pub open spec fn header_of(device: Device, queued: Queued) -> Option<VideoHeader> {
    if device.omit_headers {
        None
    } else {
        Some(
            VideoHeader {
                codec: Codec::H264,
                frame_number: queued.buffer.timestamp[0] as u16,
                y_start: 0,
                width: device.width as u16,
                height: device.height as u16,
                reference: Reference::Untracked,
            },
        )
    }
}

/// A plane of an output buffer that holds `bytesused` bytes of the surface `fd`.
pub open spec fn surface_plane(fd: i32, bytesused: u32) -> Plane {
    Plane { m: fd as u64, bytesused, ..abi::blank_plane() }
}

/// The output buffer that hands surface `slot` to the encoder, with the frame number for a
/// timestamp.
pub open spec fn output_of(device: Device, slot: usize, frame_number: u64) -> Queued {
    let fd = device.nv12_fd[slot as int];
    let pixels = device.width * device.height;
    let blank = abi::buffer_of(
        abi::V4L2_BUF_TYPE_VIDEO_OUTPUT_MPLANE,
        abi::V4L2_MEMORY_DMABUF,
        slot as u32,
        2,
    );
    Queued {
        buffer: abi::Buffer {
            flags: abi::V4L2_BUF_FLAG_TIMESTAMP_COPY,
            timestamp: vstd::array::spec_array_update(
                abi::filled(0i64),
                0,
                frame_number as i64,
            ),
            ..blank.buffer
        },
        planes: vstd::array::spec_array_update(
            vstd::array::spec_array_update(
                blank.planes,
                0,
                surface_plane(fd, pixels as u32),
            ),
            1,
            surface_plane(fd, (pixels / 2) as u32),
        ),
    }
}

/// How many output buffers have been queued after one more.
pub open spec fn one_more(queued: usize) -> usize {
    if queued < OUTPUT_BUFFERS {
        (queued + 1) as usize
    } else {
        queued
    }
}

impl State {
    /// The slot in use is the first that was never queued, or the one that came back where all
    /// have been; a surface is waited for only where there is neither; none is left over once one
    /// is queued; and a unit is read off one of the four capture buffers.
    pub open spec fn wf(self, device: Device) -> bool {
        &&& device.wf()
        &&& match self.phase {
            Phase::Stage => true,
            Phase::Deadline
            | Phase::Reclaim { .. }
            | Phase::Late { .. }
            | Phase::Wait { .. } => device.queued == OUTPUT_BUFFERS && device.spare is None,
            Phase::Transform(slot) | Phase::ForceIdr(slot) | Phase::Queue(slot) => if device.queued
                < OUTPUT_BUFFERS {
                slot == device.queued
            } else {
                device.spare == Some(slot)
            },
            Phase::Collect | Phase::Requeue(_) => device.spare is None,
            Phase::Read(queued) => device.spare is None && queued.buffer.index < 4,
        }
    }

    /// The job in `phase`.
    pub open spec fn at(self, phase: Phase) -> State {
        State { phase, ..self }
    }

    /// The call that is due.
    pub open spec fn due(self, device: Device) -> Call {
        match self.phase {
            Phase::Stage => Call::Stage {
                packed: self.packed,
                width: device.width,
                height: device.height,
                fd: device.staging_fd,
            },
            Phase::Deadline | Phase::Late { .. } => Call::Clock,
            Phase::Reclaim { .. } => Call::DequeueBuffer(
                abi::buffer_of(
                    abi::V4L2_BUF_TYPE_VIDEO_OUTPUT_MPLANE,
                    abi::V4L2_MEMORY_DMABUF,
                    0,
                    2,
                ),
            ),
            Phase::Wait { .. } => Call::Poll { fd: device.fd, timeout_ms: WAIT_MS },
            Phase::Transform(slot) => Call::Transform {
                from: device.staging_fd,
                to: device.nv12_fd[slot as int],
                params: abi::transform_params_of(),
            },
            Phase::ForceIdr(_) => Call::SetControl(abi::control_of(abi::CID_FORCE_IDR_FRAME, 1)),
            Phase::Queue(slot) => Call::QueueBuffer(output_of(device, slot, self.frame_number)),
            Phase::Collect => Call::DequeueBuffer(
                abi::buffer_of(
                    abi::V4L2_BUF_TYPE_VIDEO_CAPTURE_MPLANE,
                    abi::V4L2_MEMORY_MMAP,
                    0,
                    1,
                ),
            ),
            Phase::Read(queued) => Call::ReadUnit {
                address: device.capture[queued.buffer.index as int].0,
                length: queued.planes[0].bytesused as usize,
                header: header_of(device, queued),
            },
            Phase::Requeue(queued) => Call::QueueBuffer(queued),
        }
    }

    /// Where the job stands after `reply` came to the call that was due, or the error that ends
    /// it.
    pub open spec fn next(self, device: Device, reply: ReplyView) -> Result<
        ProgressView,
        Seq<char>,
    > {
        match (self.phase, reply) {
            (Phase::Stage, ReplyView::Returned { rc, .. }) => if rc < 0 {
                Err("Raw2NvBuffer failed"@)
            } else if device.queued < OUTPUT_BUFFERS {
                Ok(ProgressView::Going(self.at(Phase::Transform(device.queued))))
            } else {
                match device.spare {
                    Some(slot) => Ok(ProgressView::Going(self.at(Phase::Transform(slot)))),
                    None => Ok(ProgressView::Going(self.at(Phase::Deadline))),
                }
            },
            (Phase::Deadline, ReplyView::Time(now)) => Ok(
                ProgressView::Going(
                    self.at(Phase::Reclaim { deadline: (now + RECLAIM_NS) as u64 }),
                ),
            ),
            (Phase::Reclaim { deadline }, ReplyView::Buffer { rc, queued, error }) => if rc >= 0 {
                Ok(ProgressView::Going(self.at(Phase::Transform(queued.buffer.index as usize))))
            } else if !error.again {
                Err(setup::refused("DQBUF output"@, error.text))
            } else {
                Ok(ProgressView::Going(self.at(Phase::Late { deadline })))
            },
            (Phase::Late { deadline }, ReplyView::Time(now)) => if now > deadline {
                Err("the encoder did not return an output buffer in 500 ms"@)
            } else {
                Ok(ProgressView::Going(self.at(Phase::Wait { deadline })))
            },
            (Phase::Wait { deadline }, ReplyView::Done) => Ok(
                ProgressView::Going(self.at(Phase::Reclaim { deadline })),
            ),
            (Phase::Transform(slot), ReplyView::Returned { rc, .. }) => if rc < 0 {
                Err("NvBufferTransform failed"@)
            } else if self.force_idr {
                Ok(ProgressView::Going(self.at(Phase::ForceIdr(slot))))
            } else {
                Ok(ProgressView::Going(self.at(Phase::Queue(slot))))
            },
            (Phase::ForceIdr(slot), ReplyView::Returned { rc, error }) => if rc < 0 {
                Err(setup::refused("force IDR"@, error.text))
            } else {
                Ok(ProgressView::Going(self.at(Phase::Queue(slot))))
            },
            (Phase::Queue(_), ReplyView::Returned { rc, error }) => if rc < 0 {
                Err(setup::refused("QBUF output"@, error.text))
            } else {
                Ok(ProgressView::Going(self.at(Phase::Collect)))
            },
            (Phase::Collect, ReplyView::Buffer { rc, queued, .. }) => if rc < 0 {
                Ok(ProgressView::Done(self.out))
            } else if queued.planes[0].bytesused > 0 {
                Ok(ProgressView::Going(self.at(Phase::Read(queued))))
            } else {
                Ok(ProgressView::Going(self.at(Phase::Requeue(queued))))
            },
            (Phase::Read(queued), ReplyView::Unit { header, bytes }) => Ok(
                ProgressView::Going(
                    State {
                        out: if device.omit_headers {
                            self.out + bytes
                        } else {
                            self.out + header + bytes
                        },
                        phase: Phase::Requeue(queued),
                        ..self
                    },
                ),
            ),
            (Phase::Requeue(_), ReplyView::Returned { rc, error }) => if rc < 0 {
                Err(setup::refused("QBUF capture"@, error.text))
            } else {
                Ok(ProgressView::Going(self.at(Phase::Collect)))
            },
            (_, _) => Ok(ProgressView::Going(self)),
        }
    }

    /// The device after `reply`: an output buffer that came back is to spare until it is queued
    /// again, and one more has been queued, until all have.
    pub open spec fn device_after(self, device: Device, reply: ReplyView) -> Device {
        match (self.phase, reply) {
            (Phase::Reclaim { .. }, ReplyView::Buffer { rc, queued, .. }) => if rc >= 0 {
                Device { spare: Some(queued.buffer.index as usize), ..device }
            } else {
                device
            },
            (Phase::Queue(_), ReplyView::Returned { rc, .. }) => if rc >= 0 {
                Device { queued: one_more(device.queued), spare: None, ..device }
            } else {
                device
            },
            _ => device,
        }
    }
}

/// Packs the first `height` rows of `pixels` into `out`.
fn pack(out: &mut Vec<u8>, pixels: &[u8], stride: usize, row_bytes: usize, height: usize)
    requires
        height > 0,
        stride * (height - 1) + row_bytes <= usize::MAX,
        holds(pixels@, stride as int, row_bytes as int, height as int),
    ensures
        final(out)@ == rows(pixels@, stride as int, row_bytes as int, height as int),
{
    out.clear();
    let mut row: usize = 0;
    while row < height
        invariant
            row <= height,
            stride * (height - 1) + row_bytes <= usize::MAX,
            holds(pixels@, stride as int, row_bytes as int, height as int),
            out@ == rows(pixels@, stride as int, row_bytes as int, row as int),
        decreases height - row,
    {
        assert(row * stride <= stride * (height - 1)) by (nonlinear_arith)
            requires
                0 <= row < height,
                0 <= stride,
        ;
        let from: usize = row * stride;
        let ghost before = out@;
        let source: &[u8] = slice_subrange(pixels, from, from + row_bytes);
        out.extend_from_slice(source);
        assert(out@ =~= before + source@);
        row = row + 1;
    }
}

impl TegraEncoder {
    /// Starts a frame through the encoder. `pixels` holds it in rows that start `stride` apart.
    pub fn encode_host(
        &mut self,
        pixels: &[u8],
        stride: usize,
        _rgba: bool,
        frame_number: u64,
        _qp: u32,
        force_idr: bool,
    ) -> (job: Result<EncodeJob, String>)
        requires
            old(self).device.wf(),
            stride * (old(self).device.height - 1) + old(self).device.row_bytes <= usize::MAX,
        ensures
            final(self).device == old(self).device,
            ({
                let device = old(self).device;
                let held = holds(
                    pixels@,
                    stride as int,
                    device.row_bytes as int,
                    device.height as int,
                );
                match job {
                    Ok(job) => {
                        &&& held
                        &&& job@ == (State {
                            packed: stride != device.row_bytes,
                            frame_number,
                            force_idr,
                            phase: Phase::Stage,
                            out: Seq::empty(),
                        })
                        &&& job@.wf(device)
                        &&& final(self).scratch@ == if job.packed {
                            rows(
                                pixels@,
                                stride as int,
                                device.row_bytes as int,
                                device.height as int,
                            )
                        } else {
                            old(self).scratch@
                        }
                    },
                    Err(e) => !held && e@ == "input buffer too small"@ && final(self).scratch@
                        == old(self).scratch@,
                }
            }),
    {
        let height: usize = self.device.height as usize;
        let row_bytes: usize = self.device.row_bytes;
        assert(0 <= stride * (height - 1)) by (nonlinear_arith)
            requires
                height >= 1,
                stride >= 0,
        ;
        let needed: usize = stride * (height - 1) + row_bytes;
        if stride < row_bytes || pixels.len() < needed {
            return Err("input buffer too small".to_owned());
        }
        // The surface is filled from tight rows, so a padded frame is packed once into scratch.
        let packed: bool = stride != row_bytes;
        if packed {
            pack(&mut self.scratch, pixels, stride, row_bytes, height);
        }
        Ok(EncodeJob { packed, frame_number, force_idr, phase: Phase::Stage, out: Vec::new() })
    }

    /// The frame in tight rows: the scratch buffer if `packed`, and `pixels` if not.
    pub fn source<'a>(&'a self, packed: bool, pixels: &'a [u8]) -> (source: &'a [u8])
        ensures
            source@ == if packed {
                self.scratch@
            } else {
                pixels@
            },
    {
        if packed {
            self.scratch.as_slice()
        } else {
            pixels
        }
    }
}

impl Device {
    /// The header of a unit that came back as `queued`.
    fn header(&self, queued: &Queued) -> (header: Option<VideoHeader>)
        ensures
            header == header_of(*self, *queued),
    {
        if self.omit_headers {
            None
        } else {
            Some(
                VideoHeader {
                    codec: Codec::H264,
                    frame_number: queued.buffer.timestamp[0] as u16,
                    y_start: 0,
                    width: self.width as u16,
                    height: self.height as u16,
                    reference: Reference::Untracked,
                },
            )
        }
    }

    /// The output buffer that hands surface `slot` to the encoder.
    fn output(&self, slot: usize, frame_number: u64) -> (queued: Queued)
        requires
            self.wf(),
            self.width * self.height <= i32::MAX,
            slot < 4,
        ensures
            queued == output_of(*self, slot, frame_number),
    {
        assert(0 <= self.width * self.height) by (nonlinear_arith)
            requires
                self.width > 0,
                self.height > 0,
        ;
        let pixels: i32 = self.width * self.height;
        let fd: i32 = self.nv12_fd[slot];
        let mut queued: Queued = abi::buffer(
            abi::V4L2_BUF_TYPE_VIDEO_OUTPUT_MPLANE,
            abi::V4L2_MEMORY_DMABUF,
            slot as u32,
            2,
        );
        let blank: Plane = queued.planes[0];
        queued.planes[0] = Plane { m: fd as u64, bytesused: pixels as u32, ..blank };
        queued.planes[1] = Plane { m: fd as u64, bytesused: (pixels / 2) as u32, ..blank };
        queued.buffer.flags = abi::V4L2_BUF_FLAG_TIMESTAMP_COPY;
        queued.buffer.timestamp[0] = frame_number as i64;
        assert(queued.planes =~= output_of(*self, slot, frame_number).planes);
        assert(queued.buffer.timestamp =~= output_of(*self, slot, frame_number).buffer.timestamp);
        queued
    }
}

impl EncodeJob {
    /// The call that is due. The picture's pixels have to be countable in 31 bits when the surface
    /// is queued.
    pub fn call(&self, encoder: &TegraEncoder) -> (call: Call)
        requires
            self@.wf(encoder.device),
            self.phase is Queue ==> encoder.device.width * encoder.device.height <= i32::MAX,
        ensures
            call == self@.due(encoder.device),
    {
        let device: &Device = &encoder.device;
        match self.phase {
            Phase::Stage => Call::Stage {
                packed: self.packed,
                width: device.width,
                height: device.height,
                fd: device.staging_fd,
            },
            Phase::Deadline | Phase::Late { .. } => Call::Clock,
            Phase::Reclaim { .. } => Call::DequeueBuffer(
                abi::buffer(
                    abi::V4L2_BUF_TYPE_VIDEO_OUTPUT_MPLANE,
                    abi::V4L2_MEMORY_DMABUF,
                    0,
                    2,
                ),
            ),
            Phase::Wait { .. } => Call::Poll { fd: device.fd, timeout_ms: WAIT_MS },
            Phase::Transform(slot) => Call::Transform {
                from: device.staging_fd,
                to: device.nv12_fd[slot],
                params: abi::transform_params(),
            },
            Phase::ForceIdr(_) => Call::SetControl(abi::set_control(abi::CID_FORCE_IDR_FRAME, 1)),
            Phase::Queue(slot) => Call::QueueBuffer(device.output(slot, self.frame_number)),
            Phase::Collect => Call::DequeueBuffer(
                abi::buffer(
                    abi::V4L2_BUF_TYPE_VIDEO_CAPTURE_MPLANE,
                    abi::V4L2_MEMORY_MMAP,
                    0,
                    1,
                ),
            ),
            Phase::Read(queued) => Call::ReadUnit {
                address: device.capture[queued.buffer.index as usize].0,
                length: queued.planes[0].bytesused as usize,
                header: device.header(&queued),
            },
            Phase::Requeue(queued) => Call::QueueBuffer(queued),
        }
    }

    /// The job in `phase`.
    fn going(self, phase: Phase) -> (end: Result<Progress, String>)
        ensures
            match end {
                Ok(p) => p@ == ProgressView::Going(self@.at(phase)),
                Err(_) => false,
            },
    {
        let mut job: EncodeJob = self;
        job.phase = phase;
        Ok(Progress::Going(job))
    }

    /// Takes `reply`, the answer to the call that was due. An error ends the job.
    pub fn reply(self, encoder: &mut TegraEncoder, reply: Reply) -> (end: Result<Progress, String>)
        requires
            self@.wf(old(encoder).device),
            tegra::fits(self@.due(old(encoder).device), reply@),
        ensures
            final(encoder).device == self@.device_after(old(encoder).device, reply@),
            final(encoder).scratch@ == old(encoder).scratch@,
            match end {
                Ok(p) => self@.next(old(encoder).device, reply@) == Ok::<ProgressView, Seq<char>>(
                    p@,
                ),
                Err(e) => self@.next(old(encoder).device, reply@) == Err::<ProgressView, Seq<char>>(
                    e@,
                ),
            },
    {
        match (self.phase, reply) {
            (Phase::Stage, Reply::Returned { rc, .. }) => if rc < 0 {
                Err("Raw2NvBuffer failed".to_owned())
            } else if encoder.device.queued < OUTPUT_BUFFERS {
                self.going(Phase::Transform(encoder.device.queued))
            } else {
                match encoder.device.spare {
                    Some(slot) => self.going(Phase::Transform(slot)),
                    None => self.going(Phase::Deadline),
                }
            },
            (Phase::Deadline, Reply::Time(now)) => self.going(
                Phase::Reclaim { deadline: now + RECLAIM_NS },
            ),
            (Phase::Reclaim { deadline }, Reply::Buffer { rc, queued, error }) => if rc >= 0 {
                encoder.device.spare = Some(queued.buffer.index as usize);
                self.going(Phase::Transform(queued.buffer.index as usize))
            } else if !error.again {
                Err(refusal("DQBUF output", error.text.as_str()))
            } else {
                self.going(Phase::Late { deadline })
            },
            (Phase::Late { deadline }, Reply::Time(now)) => if now > deadline {
                Err("the encoder did not return an output buffer in 500 ms".to_owned())
            } else {
                self.going(Phase::Wait { deadline })
            },
            (Phase::Wait { deadline }, Reply::Done) => self.going(Phase::Reclaim { deadline }),
            (Phase::Transform(slot), Reply::Returned { rc, .. }) => if rc < 0 {
                Err("NvBufferTransform failed".to_owned())
            } else if self.force_idr {
                self.going(Phase::ForceIdr(slot))
            } else {
                self.going(Phase::Queue(slot))
            },
            (Phase::ForceIdr(slot), Reply::Returned { rc, error }) => if rc < 0 {
                Err(refusal("force IDR", error.text.as_str()))
            } else {
                self.going(Phase::Queue(slot))
            },
            (Phase::Queue(_), Reply::Returned { rc, error }) => if rc < 0 {
                Err(refusal("QBUF output", error.text.as_str()))
            } else {
                if encoder.device.queued < OUTPUT_BUFFERS {
                    encoder.device.queued = encoder.device.queued + 1;
                }
                encoder.device.spare = None;
                self.going(Phase::Collect)
            },
            (Phase::Collect, Reply::Buffer { rc, queued, .. }) => if rc < 0 {
                Ok(Progress::Done(self.out))
            } else if queued.planes[0].bytesused > 0 {
                self.going(Phase::Read(queued))
            } else {
                self.going(Phase::Requeue(queued))
            },
            (Phase::Read(queued), Reply::Unit { header, bytes }) => {
                let mut job: EncodeJob = self;
                let mut header: Vec<u8> = header;
                let mut bytes: Vec<u8> = bytes;
                if !encoder.device.omit_headers {
                    job.out.append(&mut header);
                }
                job.out.append(&mut bytes);
                job.going(Phase::Requeue(queued))
            },
            (Phase::Requeue(_), Reply::Returned { rc, error }) => if rc < 0 {
                Err(refusal("QBUF capture", error.text.as_str()))
            } else {
                self.going(Phase::Collect)
            },
            (phase, _) => self.going(phase),
        }
    }
}

/// Byte `i` of row `r` stands `r` rows and `i` bytes into the packed picture, which holds nothing
/// else.
pub proof fn packing_keeps_every_pixel(
    pixels: Seq<u8>,
    stride: int,
    row_bytes: int,
    height: int,
    r: int,
    i: int,
)
    requires
        row_bytes >= 0,
        height > 0,
        holds(pixels, stride, row_bytes, height),
        0 <= r < height,
        0 <= i < row_bytes,
    ensures
        rows(pixels, stride, row_bytes, height).len() == height * row_bytes,
        0 <= r * row_bytes + i < height * row_bytes,
        rows(pixels, stride, row_bytes, height)[r * row_bytes + i] == pixels[r * stride + i],
    decreases height,
{
    packed_length(pixels, stride, row_bytes, height);
    assert(0 <= r * row_bytes && r * row_bytes + row_bytes <= height * row_bytes)
        by (nonlinear_arith)
        requires
            0 <= r < height,
            0 <= row_bytes,
    ;
    if height > 1 {
        assert(stride * (height - 2) <= stride * (height - 1)) by (nonlinear_arith)
            requires
                stride >= 0,
        ;
    }
    if r < height - 1 {
        packing_keeps_every_pixel(pixels, stride, row_bytes, height - 1, r, i);
    } else {
        packed_length(pixels, stride, row_bytes, height - 1);
        assert(stride * (height - 1) == (height - 1) * stride) by (nonlinear_arith);
        assert(0 <= (height - 1) * stride) by (nonlinear_arith)
            requires
                height > 0,
                stride >= 0,
        ;
    }
}

proof fn packed_length(pixels: Seq<u8>, stride: int, row_bytes: int, height: int)
    requires
        row_bytes >= 0,
        height >= 0,
        height > 0 ==> holds(pixels, stride, row_bytes, height),
    ensures
        rows(pixels, stride, row_bytes, height).len() == height * row_bytes,
    decreases height,
{
    if height > 0 {
        if height > 1 {
            assert(stride * (height - 2) <= stride * (height - 1)) by (nonlinear_arith)
                requires
                    stride >= 0,
            ;
        }
        packed_length(pixels, stride, row_bytes, height - 1);
        assert(0 <= (height - 1) * stride && (height - 1) * stride == stride * (height - 1))
            by (nonlinear_arith)
            requires
                height > 0,
                stride >= 0,
        ;
        assert((height - 1) * row_bytes + row_bytes == height * row_bytes) by (nonlinear_arith);
    } else {
        assert(height * row_bytes == 0) by (nonlinear_arith)
            requires
                height == 0,
        ;
    }
}

/// Packing rows that are tight already changes nothing, so that a tight frame need not be packed.
pub proof fn tight_rows_need_no_packing(pixels: Seq<u8>, row_bytes: int, height: int)
    requires
        row_bytes >= 0,
        height > 0,
        holds(pixels, row_bytes, row_bytes, height),
    ensures
        rows(pixels, row_bytes, row_bytes, height) == pixels.take(height * row_bytes),
    decreases height,
{
    assert(row_bytes * (height - 1) + row_bytes == height * row_bytes) by (nonlinear_arith);
    assert((height - 1) * row_bytes + row_bytes == height * row_bytes) by (nonlinear_arith);
    assert(0 <= (height - 1) * row_bytes) by (nonlinear_arith)
        requires
            height > 0,
            row_bytes >= 0,
    ;
    if height > 1 {
        assert(row_bytes * (height - 2) <= row_bytes * (height - 1)) by (nonlinear_arith)
            requires
                row_bytes >= 0,
        ;
        tight_rows_need_no_packing(pixels, row_bytes, height - 1);
    } else {
        assert(rows(pixels, row_bytes, row_bytes, 0) =~= pixels.take(0));
        assert((height - 1) * row_bytes == 0) by (nonlinear_arith)
            requires
                height == 1,
        ;
    }
    assert(rows(pixels, row_bytes, row_bytes, height) =~= pixels.take(height * row_bytes));
}

/// A job stays well-formed with every call, and so does the device, of which nothing changes but
/// the count of queued buffers and the one to spare.
pub proof fn job_stays_wf(s: State, device: Device, reply: ReplyView)
    requires
        s.wf(device),
        tegra::fits(s.due(device), reply),
    ensures
        s.device_after(device, reply).wf(),
        s.device_after(device, reply) == (Device {
            queued: s.device_after(device, reply).queued,
            spare: s.device_after(device, reply).spare,
            ..device
        }),
        match s.next(device, reply) {
            Ok(ProgressView::Going(t)) => t.wf(s.device_after(device, reply)),
            _ => true,
        },
{
}

/// The surfaces that the device holds after `reply`, of those in `flight` before it: one that is
/// queued is with the device until it is dequeued.
pub open spec fn flight_after(flight: Set<int>, s: State, reply: ReplyView) -> Set<int> {
    match (s.phase, reply) {
        (Phase::Queue(slot), ReplyView::Returned { rc, .. }) => if rc >= 0 {
            flight.insert(slot as int)
        } else {
            flight
        },
        (Phase::Reclaim { .. }, ReplyView::Buffer { rc, queued, .. }) => if rc >= 0 {
            flight.remove(queued.buffer.index as int)
        } else {
            flight
        },
        _ => flight,
    }
}

/// Whether what is in `flight` is accounted for: it is every surface that has been queued but for
/// the one to spare, and the one in use is not among them.
pub open spec fn accounted(flight: Set<int>, device: Device, phase: Phase) -> bool {
    &&& forall|j: int| #[trigger]
        flight.contains(j) <==> 0 <= j < device.queued && device.spare != Some(j as usize)
    &&& match phase {
        Phase::Transform(slot) | Phase::ForceIdr(slot) | Phase::Queue(slot) => !flight.contains(
            slot as int,
        ),
        _ => true,
    }
}

/// A surface that the device holds is never converted into or queued again: whatever the device
/// answers, and however a job ends, what is in flight stays accounted for.
pub proof fn surfaces_in_flight_are_left_alone(
    s: State,
    device: Device,
    flight: Set<int>,
    reply: ReplyView,
)
    requires
        s.wf(device),
        tegra::fits(s.due(device), reply),
        accounted(flight, device, s.phase),
    ensures
        s.phase matches Phase::Transform(slot) ==> !flight.contains(slot as int),
        s.phase matches Phase::Queue(slot) ==> !flight.contains(slot as int),
        match s.next(device, reply) {
            Ok(ProgressView::Going(t)) => accounted(
                flight_after(flight, s, reply),
                s.device_after(device, reply),
                t.phase,
            ),
            _ => accounted(
                flight_after(flight, s, reply),
                s.device_after(device, reply),
                Phase::Stage,
            ),
        },
{
}

/// Nothing is in flight in an encoder that has just been made.
pub proof fn new_encoder_is_accounted_for(device: Device)
    requires
        device.wf(),
        device.queued == 0,
    ensures
        accounted(Set::empty(), device, Phase::Stage),
{
}

/// The four surfaces are used in turn, then the one to spare, and only where there is none is one
/// waited for; and the device is waited on only when none has come back and there is time left.
pub proof fn waits_only_for_a_surface(s: State, device: Device, reply: ReplyView, t: State)
    requires
        s.wf(device),
        tegra::fits(s.due(device), reply),
        s.next(device, reply) == Ok::<ProgressView, Seq<char>>(ProgressView::Going(t)),
    ensures
        s.phase is Stage ==> if device.queued < OUTPUT_BUFFERS {
            t.phase == Phase::Transform(device.queued)
        } else {
            match device.spare {
                Some(slot) => t.phase == Phase::Transform(slot),
                None => t.phase is Deadline,
            }
        },
        t.phase is Deadline ==> s.phase is Stage,
        t.due(device) is Poll ==> s.phase is Late,
        t.phase matches Phase::Wait { deadline } ==> (reply matches ReplyView::Time(now) && now
            <= deadline),
        t.phase matches Phase::Late { .. } ==> (reply matches ReplyView::Buffer { rc, error, .. }
            && rc < 0 && error.again),
{
}

/// A job starts to wait for a surface only when all four are in flight.
pub proof fn waits_only_when_all_are_in_flight(
    s: State,
    device: Device,
    flight: Set<int>,
    reply: ReplyView,
    t: State,
)
    requires
        s.wf(device),
        tegra::fits(s.due(device), reply),
        accounted(flight, device, s.phase),
        s.next(device, reply) == Ok::<ProgressView, Seq<char>>(ProgressView::Going(t)),
        t.phase is Deadline,
    ensures
        forall|j: int| 0 <= j < 4 ==> flight.contains(j),
{
}

/// As long as a job waits for a surface, all four are in flight.
pub proof fn all_are_in_flight_while_one_is_waited_for(s: State, device: Device, flight: Set<int>)
    requires
        s.wf(device),
        accounted(flight, device, s.phase),
        s.phase is Deadline || s.phase is Reclaim || s.phase is Late || s.phase is Wait,
    ensures
        forall|j: int| 0 <= j < 4 ==> flight.contains(j),
{
}

/// A surface that came back is not lost to a job that fails before it is queued again: the next
/// job uses it without waiting.
pub proof fn spare_surface_is_used_next(
    s: State,
    device: Device,
    reply: ReplyView,
    next: State,
    rc: i32,
    error: tegra::OsErrorView,
)
    requires
        s.wf(device),
        tegra::fits(s.due(device), reply),
        s.phase is Transform || s.phase is ForceIdr || s.phase is Queue,
        device.queued == OUTPUT_BUFFERS,
        s.next(device, reply) is Err,
        next.phase is Stage,
        rc >= 0,
    ensures
        ({
            let slot = device.spare.unwrap();
            let after = s.device_after(device, reply);
            &&& device.spare is Some
            &&& after.spare == Some(slot)
            &&& next.next(after, ReplyView::Returned { rc, error }) == Ok::<
                ProgressView,
                Seq<char>,
            >(ProgressView::Going(next.at(Phase::Transform(slot))))
        }),
{
}

/// A surface that was waited for in vain is given up at the first look at the clock past the
/// deadline, which is half a second after the wait began.
pub proof fn reclaim_gives_up(s: State, device: Device, started: u64, now: u64)
    requires
        s.wf(device),
        s.phase is Deadline,
        started + RECLAIM_NS < now,
    ensures
        match s.next(device, ReplyView::Time(started)) {
            Ok(ProgressView::Going(t)) => match t.phase {
                Phase::Reclaim { deadline } => s.at(Phase::Late { deadline }).next(
                    device,
                    ReplyView::Time(now),
                ) == Err::<ProgressView, Seq<char>>(
                    "the encoder did not return an output buffer in 500 ms"@,
                ),
                _ => false,
            },
            _ => false,
        },
{
}

/// The frame number comes back: a unit that carries the timestamp its frame was queued with is
/// headed by the low sixteen bits of the frame number.
pub proof fn frame_number_comes_back(
    device: Device,
    slot: usize,
    frame_number: u64,
    unit: Queued,
    header: VideoHeader,
)
    requires
        unit.buffer.timestamp == output_of(device, slot, frame_number).buffer.timestamp,
        header_of(device, unit) == Some(header),
    ensures
        header.frame_number == frame_number % 65536,
{
    assert(unit.buffer.timestamp[0] == frame_number as i64);
    assert((frame_number as i64) as u16 == frame_number % 65536) by (bit_vector);
}

/// Every capture buffer that is dequeued goes back to the device as it came, read first if it
/// holds anything, before the next is asked for.
pub proof fn capture_buffers_go_back(s: State, device: Device, reply: ReplyView, t: State)
    requires
        s.wf(device),
        tegra::fits(s.due(device), reply),
        s.next(device, reply) == Ok::<ProgressView, Seq<char>>(ProgressView::Going(t)),
    ensures
        s.phase is Collect ==> (reply matches ReplyView::Buffer { queued, .. } && t.phase
            == if queued.planes[0].bytesused > 0 {
            Phase::Read(queued)
        } else {
            Phase::Requeue(queued)
        }),
        s.phase matches Phase::Read(queued) ==> t.phase == Phase::Requeue(queued),
        s.phase matches Phase::Requeue(queued) ==> s.due(device) == Call::QueueBuffer(queued)
            && t.phase is Collect,
{
}

/// What a job has collected is never lost or rearranged: each unit goes behind those before it,
/// behind a header of its own unless headers are left out, and what has been collected by the end
/// is what the job gives.
pub proof fn units_are_appended(s: State, device: Device, reply: ReplyView)
    requires
        s.wf(device),
        tegra::fits(s.due(device), reply),
    ensures
        match s.next(device, reply) {
            Ok(ProgressView::Going(t)) => {
                &&& s.out.is_prefix_of(t.out)
                &&& match reply {
                    ReplyView::Unit { header, bytes } => t.out.skip(s.out.len() as int)
                        == if device.omit_headers {
                        bytes
                    } else {
                        header + bytes
                    },
                    _ => t.out == s.out,
                }
            },
            Ok(ProgressView::Done(out)) => out == s.out,
            Err(_) => true,
        },
{
    if let Ok(ProgressView::Going(t)) = s.next(device, reply) {
        if let ReplyView::Unit { header, bytes } = reply {
            assert(t.out.skip(s.out.len() as int) =~= if device.omit_headers {
                bytes
            } else {
                header + bytes
            });
        }
    }
}

/// Whether `replies` are answers to the calls that a job makes one after the other, up to its end
/// at most.
pub open spec fn answers(s: State, device: Device, replies: Seq<ReplyView>) -> bool
    decreases replies.len(),
{
    replies.len() > 0 ==> {
        &&& tegra::fits(s.due(device), replies[0])
        &&& match s.next(device, replies[0]) {
            Ok(ProgressView::Going(t)) => answers(
                t,
                s.device_after(device, replies[0]),
                replies.drop_first(),
            ),
            _ => replies.len() == 1,
        }
    }
}

/// What a job comes to that gets `replies`, if that is its end.
pub open spec fn outcome(s: State, device: Device, replies: Seq<ReplyView>) -> Option<
    Result<Seq<u8>, Seq<char>>,
>
    decreases replies.len(),
{
    if replies.len() == 0 {
        None
    } else {
        match s.next(device, replies[0]) {
            Ok(ProgressView::Going(t)) => outcome(
                t,
                s.device_after(device, replies[0]),
                replies.drop_first(),
            ),
            Ok(ProgressView::Done(out)) => Some(Ok(out)),
            Err(e) => Some(Err(e)),
        }
    }
}

/// The units among `replies` in the order in which they came, each behind its header unless
/// headers are left out.
pub open spec fn units(replies: Seq<ReplyView>, omit_headers: bool) -> Seq<u8>
    decreases replies.len(),
{
    if replies.len() == 0 {
        Seq::empty()
    } else {
        let rest = units(replies.drop_first(), omit_headers);
        match replies[0] {
            ReplyView::Unit { header, bytes } => if omit_headers {
                bytes + rest
            } else {
                header + bytes + rest
            },
            _ => rest,
        }
    }
}

/// A job that succeeds gives all the units that came while it ran, in the order in which they
/// came, and nothing else.
pub proof fn job_gives_its_units(s: State, device: Device, replies: Seq<ReplyView>, out: Seq<u8>)
    requires
        s.wf(device),
        answers(s, device, replies),
        outcome(s, device, replies) == Some(Ok::<Seq<u8>, Seq<char>>(out)),
    ensures
        out == s.out + units(replies, device.omit_headers),
    decreases replies.len(),
{
    let reply = replies[0];
    let after = s.device_after(device, reply);
    job_stays_wf(s, device, reply);
    let rest = replies.drop_first();
    match s.next(device, reply) {
        Ok(ProgressView::Going(t)) => {
            job_gives_its_units(t, after, rest, out);
            assert(out =~= s.out + units(replies, device.omit_headers));
        },
        _ => {
            assert(units(rest, device.omit_headers) =~= Seq::empty());
            assert(out =~= s.out + units(replies, device.omit_headers));
        },
    }
}

/// A job that ends, however it ends, leaves what is in flight accounted for.
pub proof fn job_leaves_surfaces_accounted_for(
    s: State,
    device: Device,
    flight: Set<int>,
    replies: Seq<ReplyView>,
)
    requires
        s.wf(device),
        answers(s, device, replies),
        outcome(s, device, replies) is Some,
        accounted(flight, device, s.phase),
    ensures
        accounted(
            flown(flight, s, device, replies),
            device_behind(s, device, replies),
            Phase::Stage,
        ),
    decreases replies.len(),
{
    let reply = replies[0];
    let after = s.device_after(device, reply);
    job_stays_wf(s, device, reply);
    surfaces_in_flight_are_left_alone(s, device, flight, reply);
    if let Ok(ProgressView::Going(t)) = s.next(device, reply) {
        job_leaves_surfaces_accounted_for(
            t,
            after,
            flight_after(flight, s, reply),
            replies.drop_first(),
        );
    }
}

/// The device behind a job that got `replies`.
pub open spec fn device_behind(s: State, device: Device, replies: Seq<ReplyView>) -> Device
    decreases replies.len(),
{
    if replies.len() == 0 {
        device
    } else {
        let after = s.device_after(device, replies[0]);
        match s.next(device, replies[0]) {
            Ok(ProgressView::Going(t)) => device_behind(t, after, replies.drop_first()),
            _ => after,
        }
    }
}

/// What is in flight behind a job that got `replies`.
pub open spec fn flown(
    flight: Set<int>,
    s: State,
    device: Device,
    replies: Seq<ReplyView>,
) -> Set<int>
    decreases replies.len(),
{
    if replies.len() == 0 {
        flight
    } else {
        let then = flight_after(flight, s, replies[0]);
        match s.next(device, replies[0]) {
            Ok(ProgressView::Going(t)) => flown(
                then,
                t,
                s.device_after(device, replies[0]),
                replies.drop_first(),
            ),
            _ => then,
        }
    }
}

/// Whether a job in `phase` has its surface still to queue.
pub open spec fn still_to_queue(phase: Phase) -> bool {
    !(phase is Collect) && !(phase is Read) && !(phase is Requeue)
}

/// A job that succeeds has queued one surface, so that one more has been queued, until all have,
/// and none is left to spare.
pub proof fn job_queues_one_surface(
    s: State,
    device: Device,
    replies: Seq<ReplyView>,
    out: Seq<u8>,
)
    requires
        s.wf(device),
        answers(s, device, replies),
        outcome(s, device, replies) == Some(Ok::<Seq<u8>, Seq<char>>(out)),
    ensures
        device_behind(s, device, replies) == (Device {
            queued: if still_to_queue(s.phase) {
                one_more(device.queued)
            } else {
                device.queued
            },
            spare: None,
            ..device
        }),
    decreases replies.len(),
{
    job_stays_wf(s, device, replies[0]);
    if let Ok(ProgressView::Going(t)) = s.next(device, replies[0]) {
        job_queues_one_surface(
            t,
            s.device_after(device, replies[0]),
            replies.drop_first(),
            out,
        );
    }
}

} // verus!
