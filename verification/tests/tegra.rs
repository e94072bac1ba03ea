use pixelflux::encoders::abi;
use pixelflux::encoders::abi::{
    abi_matches, set_control, staging_format, AbiSizes, ControlValue, ExportBuffer, Queued,
};
use pixelflux::encoders::setup;
use pixelflux::encoders::setup::Creation;
use pixelflux::encoders::tegra::{
    bitrate_bps, Call, Codec, Device, OsError, Reply, RustCaptureSettings, TegraEncoder,
};
use pixelflux::encoders::vendor::{
    available, encoder_node, Availability, LoadProgress, LoadReply, LoadStep, Loading, Probe, ProbeProgress,
    Vendor,
};

const SIZES: AbiSizes = AbiSizes {
    format: 208,
    request_buffers: 20,
    buffer: 88,
    plane: 64,
    export_buffer: 64,
    ext_control: 20,
    ext_controls: 32,
    create_params: 28,
};

const SETTINGS: RustCaptureSettings = RustCaptureSettings {
    width: 1920,
    height: 1080,
    video_bitrate_kbps: 8000,
    gop_frames: 600,
    vbv_bits: 133_333,
    omit_stripe_headers: false,
};

fn os(text: &str) -> OsError {
    OsError { again: false, text: text.to_string() }
}

fn returned(rc: i32) -> Reply {
    Reply::Returned { rc, error: os("Invalid argument (os error 22)") }
}

#[test]
fn staging_follows_the_byte_order() {
    assert_eq!(staging_format(true), 17);
    assert_eq!(staging_format(false), 18);
}

#[test]
fn abi_sizes_are_those_of_the_kernel() {
    assert!(abi_matches(&SIZES).is_ok());
    let bad = |s: AbiSizes| abi_matches(&s).unwrap_err();
    assert_eq!(bad(AbiSizes { format: 204, ..SIZES }), "v4l2_format is 204 bytes here, the kernel ABI is 208");
    assert_eq!(bad(AbiSizes { request_buffers: 1, ..SIZES }), "v4l2_requestbuffers is 1 bytes here, the kernel ABI is 20");
    assert_eq!(bad(AbiSizes { buffer: 80, ..SIZES }), "v4l2_buffer is 80 bytes here, the kernel ABI is 88");
    assert_eq!(bad(AbiSizes { plane: 60, ..SIZES }), "v4l2_plane is 60 bytes here, the kernel ABI is 64");
    assert_eq!(bad(AbiSizes { export_buffer: 0, ..SIZES }), "v4l2_exportbuffer is 0 bytes here, the kernel ABI is 64");
    assert_eq!(bad(AbiSizes { ext_control: 24, ..SIZES }), "v4l2_ext_control is 24 bytes here, the kernel ABI is 20");
    assert_eq!(bad(AbiSizes { ext_controls: 24, ..SIZES }), "v4l2_ext_controls is 24 bytes here, the kernel ABI is 32");
    assert_eq!(bad(AbiSizes { create_params: 32, ..SIZES }), "NvBufferCreateParams is 32 bytes here, the kernel ABI is 28");
    let two = AbiSizes { plane: 60, create_params: 32, ..SIZES };
    assert_eq!(bad(two), "v4l2_plane is 60 bytes here, the kernel ABI is 64");
}

#[test]
fn ioctl_numbers_hold_the_sizes() {
    let size = |request: u64| ((request >> 16) & 0x3fff) as usize;
    assert_eq!(size(abi::VIDIOC_S_FMT), SIZES.format);
    assert_eq!(size(abi::VIDIOC_REQBUFS), SIZES.request_buffers);
    assert_eq!(size(abi::VIDIOC_DQBUF), SIZES.buffer);
    assert_eq!(size(abi::VIDIOC_EXPBUF), SIZES.export_buffer);
    assert_eq!(size(abi::VIDIOC_S_EXT_CTRLS), SIZES.ext_controls);
}

#[test]
fn the_virtual_buffer_size_goes_through_a_pointer() {
    let vbv = set_control(abi::CID_VBV_SIZE, 133_333);
    assert_eq!(vbv.control.value, ControlValue::Pointer(133_333));
    let bitrate = set_control(abi::CID_BITRATE, 8_000_000);
    assert_eq!(bitrate.control.value, ControlValue::Inline(8_000_000));
    for c in [vbv, bitrate] {
        assert_eq!((c.which, c.count, c.error_idx, c.request_fd, c.reserved), (0x0099_0000, 1, 0, 0, 0));
        assert_eq!((c.control.size, c.control.reserved2), (0, 0));
    }
    assert_eq!(bitrate.control.id, abi::CID_BITRATE);
    assert_eq!(set_control(abi::CID_VBV_SIZE, -1).control.value, ControlValue::Pointer(u32::MAX));
}

#[test]
fn formats_and_buffers_start_empty() {
    let f = abi::format(1920, 1080, 9, abi::V4L2_PIX_FMT_H264, 1, 77);
    assert_eq!((f.type_, f.pix_mp.width, f.pix_mp.height), (9, 1920, 1080));
    assert_eq!((f.pix_mp.pixelformat, f.pix_mp.field, f.pix_mp.num_planes), (abi::V4L2_PIX_FMT_H264, 1, 1));
    assert_eq!(f.pix_mp.plane_fmt[0].sizeimage, 77);
    assert!(f.pix_mp.plane_fmt[1..].iter().all(|p| p.sizeimage == 0 && p.bytesperline == 0));
    let b = abi::buffer(10, 4, 3, 2);
    assert_eq!((b.buffer.type_, b.buffer.memory, b.buffer.index, b.buffer.length), (10, 4, 3, 2));
    assert_eq!((b.buffer.flags, b.buffer.timestamp), (0, [0, 0]));
    assert!(b.planes.iter().all(|p| p.m == 0 && p.bytesused == 0));
    assert_eq!(abi::transform_params(), [4, 0, 4, 0, 0, 0, 0, 0, 0, 0, 0, 0, 0, 0]);
}

#[test]
fn bitrates_are_kept_within_bounds() {
    assert_eq!(bitrate_bps(8000), 8_000_000);
    assert_eq!(bitrate_bps(0), 1000);
    assert_eq!(bitrate_bps(-7), 1000);
    assert_eq!(bitrate_bps(4_294_967), 4_294_967_000);
    assert_eq!(bitrate_bps(4_294_968), u32::MAX);
    assert_eq!(bitrate_bps(i32::MAX), u32::MAX);
}

#[test]
fn sizes_must_be_even() {
    let sized = |width: i32, height: i32| {
        TegraEncoder::new(&RustCaptureSettings { width, height, ..SETTINGS }, false, &SIZES)
    };
    assert!(sized(2, 2).is_ok());
    for (w, h) in [(0, 2), (2, 0), (3, 2), (2, 5), (-2, 2), (2, -4)] {
        let message = format!("the encoder needs even dimensions, got {w}x{h}");
        assert_eq!(sized(w, h).unwrap_err(), message);
    }
    let abi = TegraEncoder::new(&RustCaptureSettings { width: 3, ..SETTINGS }, false, &AbiSizes { plane: 1, ..SIZES });
    assert_eq!(abi.unwrap_err(), "v4l2_plane is 1 bytes here, the kernel ABI is 64");
}

fn load_going(l: Loading, reply: LoadReply) -> Loading {
    match l.reply(reply).unwrap() {
        LoadProgress::Going(l) => l,
        LoadProgress::Loaded(_) => panic!("loaded"),
    }
}

fn opens(l: &Loading) -> String {
    match l.step() {
        LoadStep::Open(path) => path,
        LoadStep::Find { .. } => panic!("a symbol is looked up"),
    }
}

#[test]
fn libraries_are_looked_for_in_two_places() {
    let l = Vendor::load();
    assert_eq!(opens(&l), "libnvv4l2.so");
    let l = load_going(l, LoadReply::Failed("first".to_string()));
    assert_eq!(opens(&l), "/usr/lib/aarch64-linux-gnu/tegra/libnvv4l2.so");
    let e = l.reply(LoadReply::Failed("second".to_string())).unwrap_err();
    assert_eq!(e, "libnvv4l2.so is not loadable: second");
    let l = load_going(l, LoadReply::Loaded);
    assert_eq!(opens(&l), "libnvbuf_utils.so");
    let l = load_going(l, LoadReply::Failed("first".to_string()));
    assert_eq!(opens(&l), "/usr/lib/aarch64-linux-gnu/tegra/libnvbuf_utils.so");
    let e = l.reply(LoadReply::Failed("second".to_string())).unwrap_err();
    assert_eq!(e, "libnvbuf_utils.so is not loadable: second");
}

#[test]
fn every_function_is_found_under_its_name() {
    let names = [
        (0, "v4l2_open\0"),
        (0, "v4l2_ioctl\0"),
        (0, "v4l2_close\0"),
        (1, "NvBufferCreateEx\0"),
        (1, "Raw2NvBuffer\0"),
        (1, "NvBufferTransform\0"),
        (1, "NvBufferMemSyncForDevice\0"),
        (1, "NvBufferDestroy\0"),
    ];
    let mut l = load_going(load_going(Vendor::load(), LoadReply::Loaded), LoadReply::Loaded);
    for (i, (lib, name)) in names.into_iter().enumerate() {
        match l.step() {
            LoadStep::Find { library, symbol } => assert_eq!((library, symbol), (lib, name)),
            LoadStep::Open(_) => panic!("a library is loaded"),
        }
        let e = l.reply(LoadReply::Failed("gone".to_string())).unwrap_err();
        assert_eq!(e, format!("{name} is missing: gone"));
        match l.reply(LoadReply::Found(100 + i)).unwrap() {
            LoadProgress::Going(next) => l = next,
            LoadProgress::Loaded(v) => {
                assert_eq!(i, 7);
                assert_eq!((v.open, v.ioctl, v.close, v.create), (100, 101, 102, 103));
                assert_eq!((v.raw2buf, v.transform, v.sync, v.destroy), (104, 105, 106, 107));
            }
        }
    }
}

fn probe_going(p: Probe, reply: Reply) -> Probe {
    match p.reply(reply) {
        ProbeProgress::Going(p) => p,
        ProbeProgress::Answer(there) => panic!("answered {there}"),
    }
}

#[test]
fn a_probe_closes_what_it_opened() {
    let p = available();
    assert_eq!(p.call(), Call::LoadVendor);
    assert_eq!(p.reply(Reply::Vendor(false)), ProbeProgress::Answer(false));
    let p = probe_going(p, Reply::Vendor(true));
    assert_eq!(p.call(), Call::Open { node: 0, nonblocking: false });
    let first = probe_going(p, Reply::Opened(7));
    assert_eq!(first.call(), Call::Close(7));
    assert_eq!(first.reply(Reply::Done), ProbeProgress::Answer(true));
    let p = probe_going(p, Reply::Opened(-1));
    assert_eq!(p.call(), Call::Open { node: 1, nonblocking: false });
    assert_eq!(p.reply(Reply::Opened(-1)), ProbeProgress::Answer(false));
    let second = probe_going(p, Reply::Opened(0));
    assert_eq!(second.call(), Call::Close(0));
    assert_eq!(encoder_node(0), "/dev/v4l2-nvenc");
    assert_eq!(encoder_node(1), "/dev/nvhost-msenc");
}

#[test]
fn the_answer_of_a_probe_is_kept() {
    let mut a = Availability::new();
    assert_eq!(a.answer(), None);
    let mut calls: Vec<Call> = Vec::new();
    let mut replies = vec![Reply::Done, Reply::Opened(4), Reply::Opened(-1), Reply::Vendor(true)];
    while let Some(call) = a.call() {
        calls.push(call);
        a.reply(replies.pop().unwrap());
    }
    assert_eq!(
        calls,
        vec![
            Call::LoadVendor,
            Call::Open { node: 0, nonblocking: false },
            Call::Open { node: 1, nonblocking: false },
            Call::Close(4),
        ]
    );
    assert_eq!(a.answer(), Some(true));
    assert_eq!(a.call(), None);
    let mut a = Availability::new();
    a.reply(Reply::Vendor(false));
    assert_eq!((a.answer(), a.call()), (Some(false), None));
}

fn created() -> Creation {
    TegraEncoder::new(&SETTINGS, true, &SIZES).unwrap()
}

fn going(c: Creation, reply: Reply) -> Creation {
    match c.reply(reply) {
        setup::Progress::Going(c) => c,
        setup::Progress::Ready(_) => panic!("ready"),
        setup::Progress::Failed(_, e) => panic!("{e}"),
    }
}

fn failed(c: Creation, reply: Reply) -> (bool, String) {
    match c.reply(reply) {
        setup::Progress::Failed(encoder, e) => (encoder.is_some(), e),
        _ => panic!("no failure"),
    }
}

/// What a device answers that lets everything succeed: surfaces get the descriptors from twenty
/// on, exports those from forty on, and buffers are mapped from page to page.
fn answer(call: &Call) -> Reply {
    match *call {
        Call::LoadVendor => Reply::Vendor(true),
        Call::Open { .. } => Reply::Opened(5),
        Call::CreateSurface(p) => Reply::Created { rc: 0, fd: if p.nvbuf_tag == 0 { 20 } else { 21 } },
        Call::QueryBuffer(mut q) => {
            q.planes[0].length = 4096 + q.buffer.index;
            q.planes[0].m = 65536 * u64::from(q.buffer.index);
            Reply::Buffer { rc: 0, queued: q, error: os("") }
        }
        Call::ExportBuffer(mut e) => {
            e.fd = 40 + e.index as i32;
            Reply::Exported { rc: 0, export: e, error: os("") }
        }
        Call::MapExport { fd, .. } => Reply::Mapped(Some(fd as usize * 0x1000)),
        _ => returned(0),
    }
}

fn ready() -> TegraEncoder {
    let mut c = created();
    loop {
        let call = c.call();
        match c.reply(answer(&call)) {
            setup::Progress::Going(next) => c = next,
            setup::Progress::Ready(encoder) => return encoder,
            setup::Progress::Failed(_, e) => panic!("{e}"),
        }
    }
}

#[test]
fn a_creation_makes_every_call_once() {
    let mut c = created();
    let mut calls: Vec<Call> = Vec::new();
    let encoder = loop {
        let call = c.call();
        calls.push(call);
        match c.reply(answer(&call)) {
            setup::Progress::Going(next) => c = next,
            setup::Progress::Ready(encoder) => break encoder,
            setup::Progress::Failed(_, e) => panic!("{e}"),
        }
    };
    assert_eq!(calls.len(), 43);
    assert_eq!(calls[1], Call::Open { node: 0, nonblocking: true });
    match calls[2] {
        Call::SetFormat(f) => {
            assert_eq!((f.type_, f.pix_mp.pixelformat, f.pix_mp.num_planes), (9, abi::V4L2_PIX_FMT_H264, 1));
            assert_eq!(f.pix_mp.plane_fmt[0].sizeimage, 2_097_152);
        }
        _ => panic!("no format"),
    }
    match calls[3] {
        Call::SetFormat(f) => {
            assert_eq!((f.type_, f.pix_mp.pixelformat, f.pix_mp.num_planes), (10, abi::V4L2_PIX_FMT_NV12M, 2));
            assert_eq!(f.pix_mp.plane_fmt[0].sizeimage, 0);
        }
        _ => panic!("no format"),
    }
    let controls: Vec<(u32, ControlValue)> = calls[4..14]
        .iter()
        .map(|c| match c {
            Call::SetControl(c) => (c.control.id, c.control.value),
            _ => panic!("no control"),
        })
        .collect();
    assert_eq!(
        controls,
        vec![
            (abi::CID_BITRATE, ControlValue::Inline(8_000_000)),
            (abi::CID_BITRATE_MODE, ControlValue::Inline(1)),
            (abi::CID_H264_PROFILE, ControlValue::Inline(2)),
            (abi::CID_HW_PRESET, ControlValue::Inline(1)),
            (abi::CID_MAX_PERFORMANCE, ControlValue::Inline(1)),
            (abi::CID_INSERT_SPS_PPS_AT_IDR, ControlValue::Inline(1)),
            (abi::CID_INSERT_VUI, ControlValue::Inline(1)),
            (abi::CID_POC_TYPE, ControlValue::Inline(2)),
            (abi::CID_IDR_INTERVAL, ControlValue::Inline(600)),
            (abi::CID_VBV_SIZE, ControlValue::Pointer(133_333)),
        ]
    );
    match (calls[14], calls[20]) {
        (Call::RequestBuffers(output), Call::RequestBuffers(capture)) => {
            assert_eq!((output.count, output.type_, output.memory), (4, 10, 4));
            assert_eq!((capture.count, capture.type_, capture.memory), (4, 9, 1));
        }
        _ => panic!("no buffers"),
    }
    match (calls[15], calls[16]) {
        (Call::CreateSurface(staging), Call::CreateSurface(nv12)) => {
            assert_eq!((staging.width, staging.height, staging.layout), (1920, 1080, 0));
            assert_eq!((staging.color_format, staging.nvbuf_tag), (17, 0));
            assert_eq!((nv12.width, nv12.height, nv12.layout), (1920, 1080, 1));
            assert_eq!((nv12.color_format, nv12.nvbuf_tag), (5, 4608));
        }
        _ => panic!("no surfaces"),
    }
    for index in 0..4usize {
        let at = 21 + 5 * index;
        let queued = match calls[at] {
            Call::QueryBuffer(q) => {
                assert_eq!((q.buffer.index, q.buffer.type_, q.buffer.memory, q.buffer.length), (index as u32, 9, 1, 1));
                match answer(&calls[at]) {
                    Reply::Buffer { queued, .. } => queued,
                    _ => panic!("no buffer"),
                }
            }
            _ => panic!("no query"),
        };
        assert!(matches!(calls[at + 1], Call::ExportBuffer(e) if e.index == index as u32 && e.type_ == 9));
        let fd = 40 + index as i32;
        assert_eq!(calls[at + 2], Call::MapExport { length: 4096 + index, fd, offset: 65536 * index as i64 });
        assert_eq!(calls[at + 3], Call::CloseExport(fd));
        assert_eq!(calls[at + 4], Call::QueueBuffer(queued));
    }
    assert_eq!(calls[41], Call::StreamOn(10));
    assert_eq!(calls[42], Call::StreamOn(9));
    let d = encoder.device;
    assert_eq!((d.fd, d.width, d.height, d.row_bytes), (5, 1920, 1080, 7680));
    assert_eq!((d.staging_fd, d.nv12_fd, d.queued, d.spare), (20, [21; 4], 0, None));
    assert_eq!(d.capture, [(0x28000, 4096), (0x29000, 4097), (0x2a000, 4098), (0x2b000, 4099)]);
    assert_eq!((d.bitrate_bps, d.omit_headers), (8_000_000, false));
    assert!(encoder.scratch.is_empty());
    assert_eq!(encoder.codec(), Codec::H264);
    assert!(!encoder.is_fullcolor());
}

#[test]
fn key_frames_are_never_far_apart() {
    let interval = |gop_frames: i64| {
        TegraEncoder::new(&RustCaptureSettings { gop_frames, ..SETTINGS }, false, &SIZES).unwrap().keyframe
    };
    assert_eq!(interval(120), 120);
    assert_eq!(interval(0), 1);
    assert_eq!(interval(i64::MIN), 1);
    assert_eq!(interval(601), 600);
    assert_eq!(interval(i64::MAX), 600);
}

#[test]
fn large_pictures_get_a_byte_a_pixel() {
    let settings = RustCaptureSettings { width: 3840, height: 2160, ..SETTINGS };
    let c = TegraEncoder::new(&settings, false, &SIZES).unwrap();
    let c = going(going(c, Reply::Vendor(true)), Reply::Opened(3));
    match c.call() {
        Call::SetFormat(f) => assert_eq!(f.pix_mp.plane_fmt[0].sizeimage, 8_294_400),
        _ => panic!("no format"),
    }
}

#[test]
fn a_creation_fails_without_a_device() {
    let c = created();
    assert_eq!(failed(c, Reply::Vendor(false)), (false, "the Tegra vendor libraries are unavailable".to_string()));
    let c = going(c, Reply::Vendor(true));
    let c = going(c, Reply::Opened(-1));
    assert_eq!(c.call(), Call::Open { node: 1, nonblocking: true });
    let none = "no encoder node opened, tried [\"/dev/v4l2-nvenc\", \"/dev/nvhost-msenc\"]";
    assert_eq!(failed(c, Reply::Opened(-1)), (false, none.to_string()));
}

/// The reply by which a call fails.
fn refusal(call: &Call) -> Reply {
    match *call {
        Call::CreateSurface(_) => Reply::Created { rc: -1, fd: 33 },
        Call::QueryBuffer(q) => Reply::Buffer { rc: -1, queued: q, error: os("no") },
        Call::ExportBuffer(e) => Reply::Exported { rc: -1, export: e, error: os("no") },
        _ => Reply::Returned { rc: -1, error: os("no") },
    }
}

#[test]
fn each_failure_of_a_creation_has_its_text() {
    let mut c = going(created(), Reply::Vendor(true));
    c = going(c, Reply::Opened(-1));
    c = going(c, Reply::Opened(9));
    let mut seen: Vec<String> = Vec::new();
    loop {
        let call = c.call();
        match call {
            Call::MapExport { .. } => {
                let unmapped = going(c, Reply::Mapped(None));
                assert!(matches!(unmapped.call(), Call::CloseExport(_)));
                seen.push(failed(unmapped, returned(0)).1);
            }
            Call::CloseExport(_) => {}
            _ => {
                let (device, e) = failed(c, refusal(&call));
                assert!(device);
                seen.push(e);
            }
        }
        match c.reply(answer(&call)) {
            setup::Progress::Going(next) => c = next,
            setup::Progress::Ready(_) => break,
            setup::Progress::Failed(_, e) => panic!("{e}"),
        }
    }
    let mut expected = Vec::new();
    for what in [
        "S_FMT capture",
        "S_FMT output",
        "bitrate",
        "rate control mode",
        "profile",
        "preset",
        "max performance",
        "SPS/PPS at IDR",
        "VUI",
        "picture order count type",
        "IDR interval",
        "VBV size",
        "REQBUFS output",
    ] {
        expected.push(format!("/dev/nvhost-msenc: {what} failed: no"));
    }
    expected.push("/dev/nvhost-msenc: NvBufferCreateEx for the staging surface failed".to_string());
    for _ in 0..4 {
        expected.push("/dev/nvhost-msenc: NvBufferCreateEx for an NV12 surface failed".to_string());
    }
    expected.push("/dev/nvhost-msenc: REQBUFS capture failed: no".to_string());
    for _ in 0..4 {
        expected.push("/dev/nvhost-msenc: QUERYBUF capture failed: no".to_string());
        expected.push("/dev/nvhost-msenc: EXPBUF capture failed: no".to_string());
        expected.push(
            "/dev/nvhost-msenc: mmap of a capture plane failed: Invalid argument (os error 22)".to_string(),
        );
        expected.push("/dev/nvhost-msenc: QBUF capture failed: no".to_string());
    }
    expected.push("/dev/nvhost-msenc: STREAMON output failed: no".to_string());
    expected.push("/dev/nvhost-msenc: STREAMON capture failed: no".to_string());
    assert_eq!(seen, expected);
}

#[test]
fn a_surface_is_noted_though_the_call_failed() {
    let mut c = going(going(created(), Reply::Vendor(true)), Reply::Opened(9));
    while !matches!(c.call(), Call::CreateSurface(p) if p.nvbuf_tag != 0) {
        let call = c.call();
        c = going(c, answer(&call));
    }
    c = going(c, Reply::Created { rc: 0, fd: 31 });
    match c.reply(Reply::Created { rc: -1, fd: 32 }) {
        setup::Progress::Failed(Some(encoder), _) => {
            assert_eq!(encoder.device.nv12_fd, [31, 32, -1, -1]);
            assert_eq!(
                encoder.release(),
                vec![
                    Call::StreamOff(10),
                    Call::StreamOff(9),
                    Call::Close(9),
                    Call::DestroySurface(31),
                    Call::DestroySurface(32),
                    Call::DestroySurface(20),
                ]
            );
        }
        _ => panic!("no failure"),
    }
}

#[test]
fn everything_acquired_is_released() {
    let mut encoder = ready();
    encoder.device.nv12_fd = [21, 22, 23, 24];
    assert_eq!(
        encoder.release(),
        vec![
            Call::StreamOff(10),
            Call::StreamOff(9),
            Call::Unmap { address: 0x28000, length: 4096 },
            Call::Unmap { address: 0x29000, length: 4097 },
            Call::Unmap { address: 0x2a000, length: 4098 },
            Call::Unmap { address: 0x2b000, length: 4099 },
            Call::Close(5),
            Call::DestroySurface(21),
            Call::DestroySurface(22),
            Call::DestroySurface(23),
            Call::DestroySurface(24),
            Call::DestroySurface(20),
        ]
    );
    encoder.device.capture[1] = (0, 0);
    encoder.device.nv12_fd[2] = -1;
    encoder.device.nv12_fd[3] = 0;
    encoder.device.staging_fd = -1;
    assert_eq!(encoder.release().len(), 9);
    assert_eq!(encoder.release()[8], Call::DestroySurface(0));
}

#[test]
fn a_rate_is_changed_by_two_controls() {
    let mut encoder = ready();
    assert!(encoder.reconfigure_rate(&SETTINGS).is_none());
    let faster = RustCaptureSettings { video_bitrate_kbps: 9000, vbv_bits: 150_000, ..SETTINGS };
    let change = encoder.reconfigure_rate(&faster).unwrap();
    assert_eq!(change.call(), Call::SetControl(set_control(abi::CID_BITRATE, 9_000_000)));
    let e = change.reply(&mut encoder, returned(-1)).unwrap_err();
    assert_eq!(e, "bitrate failed: Invalid argument (os error 22)");
    let rest = change.reply(&mut encoder, returned(0)).unwrap().unwrap();
    assert_eq!(rest.call(), Call::SetControl(set_control(abi::CID_VBV_SIZE, 150_000)));
    let e = rest.reply(&mut encoder, returned(-1)).unwrap_err();
    assert_eq!(e, "VBV size failed: Invalid argument (os error 22)");
    assert_eq!(encoder.device.bitrate_bps, 8_000_000);
    assert!(encoder.reconfigure_rate(&faster).is_some());
    assert!(rest.reply(&mut encoder, returned(0)).unwrap().is_none());
    assert_eq!(encoder.device.bitrate_bps, 9_000_000);
    assert!(encoder.reconfigure_rate(&faster).is_none());
}

#[test]
fn calls_have_their_ioctl_numbers() {
    let q: Queued = abi::buffer(9, 1, 0, 1);
    let e = ExportBuffer { type_: 9, index: 0, plane: 0, flags: 0, fd: 0, reserved: [0; 11] };
    assert_eq!(Call::SetFormat(abi::format(2, 2, 9, 0, 1, 0)).request(), Some(0xc0d0_5605));
    assert_eq!(Call::QueryBuffer(q).request(), Some(0xc058_5609));
    assert_eq!(Call::QueueBuffer(q).request(), Some(0xc058_560f));
    assert_eq!(Call::DequeueBuffer(q).request(), Some(0xc058_5611));
    assert_eq!(Call::ExportBuffer(e).request(), Some(0xc040_5610));
    assert_eq!(Call::StreamOn(9).request(), Some(0x4004_5612));
    assert_eq!(Call::StreamOff(9).request(), Some(0x4004_5613));
    assert_eq!(Call::SetControl(set_control(1, 1)).request(), Some(0xc020_5648));
    assert_eq!(Call::Clock.request(), None);
    let device: Device = ready().device;
    assert_eq!(Call::Close(device.fd).request(), None);
}
