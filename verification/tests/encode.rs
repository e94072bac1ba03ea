use pixelflux::encoders::abi;
use pixelflux::encoders::abi::Queued;
use pixelflux::encoders::encode::{EncodeJob, Progress};
use pixelflux::encoders::tegra::{
    Call, Codec, Device, OsError, Reference, Reply, TegraEncoder, VideoHeader,
};

fn encoder(omit_headers: bool) -> TegraEncoder {
    TegraEncoder {
        device: Device {
            fd: 5,
            width: 2,
            height: 4,
            row_bytes: 8,
            staging_fd: 20,
            nv12_fd: [21, 22, 23, 24],
            capture: [(0x1000, 64), (0x2000, 64), (0x3000, 64), (0x4000, 64)],
            queued: 0,
            spare: None,
            omit_headers,
            bitrate_bps: 1000,
        },
        scratch: Vec::new(),
    }
}

fn os(again: bool) -> OsError {
    OsError { again, text: "no".to_string() }
}

fn returned(rc: i32) -> Reply {
    Reply::Returned { rc, error: os(false) }
}

fn buffer(rc: i32, queued: Queued, again: bool) -> Reply {
    Reply::Buffer { rc, queued, error: os(again) }
}

fn start(e: &mut TegraEncoder, frame: u64, idr: bool) -> EncodeJob {
    let pixels = [7u8; 32];
    e.encode_host(&pixels, 8, false, frame, 30, idr).unwrap()
}

fn going(job: EncodeJob, e: &mut TegraEncoder, reply: Reply) -> EncodeJob {
    match job.reply(e, reply).unwrap() {
        Progress::Going(job) => job,
        Progress::Done(_) => panic!("done"),
    }
}

fn error(job: EncodeJob, e: &mut TegraEncoder, reply: Reply) -> String {
    match job.reply(e, reply) {
        Err(e) => e,
        Ok(_) => panic!("no error"),
    }
}

/// A job that has queued its frame and asks for units.
fn collecting(e: &mut TegraEncoder, frame: u64) -> EncodeJob {
    let job = start(e, frame, false);
    let job = going(job, e, returned(0));
    let job = going(job, e, returned(0));
    going(job, e, returned(0))
}

fn unit(index: u32, bytesused: u32, timestamp: i64) -> Queued {
    let mut q = abi::buffer(9, 1, index, 1);
    q.planes[0].bytesused = bytesused;
    q.buffer.timestamp = [timestamp, 0];
    q
}

#[test]
fn a_padded_frame_is_packed() {
    let mut e = encoder(false);
    let pixels: Vec<u8> = (0..40).collect();
    let job = e.encode_host(&pixels[..38], 10, false, 1, 30, false).unwrap();
    assert!(job.packed);
    let expected: Vec<u8> = (0..4u8).flat_map(|r| (0..8u8).map(move |i| 10 * r + i)).collect();
    assert_eq!(e.scratch, expected);
    assert_eq!(e.source(job.packed, &pixels), &expected[..]);
    assert_eq!(job.call(&e), Call::Stage { packed: true, width: 2, height: 4, fd: 20 });
    let job = e.encode_host(&pixels, 8, false, 1, 30, false).unwrap();
    assert!(!job.packed);
    assert_eq!(e.scratch, expected);
    assert_eq!(e.source(job.packed, &pixels), &pixels[..]);
    e.scratch = vec![1; 100];
    e.encode_host(&pixels, 9, false, 1, 30, false).unwrap();
    assert_eq!(e.scratch.len(), 32);
    assert_eq!(e.scratch[8..16], pixels[9..17]);
}

#[test]
fn a_short_frame_is_refused() {
    let mut e = encoder(false);
    e.scratch = vec![9];
    let pixels = [0u8; 64];
    let refused = |e: &mut TegraEncoder, len: usize, stride: usize| {
        e.encode_host(&pixels[..len], stride, false, 1, 30, false).is_err()
    };
    assert!(refused(&mut e, 64, 7));
    assert!(refused(&mut e, 31, 8));
    assert!(!refused(&mut e, 32, 8));
    assert!(refused(&mut e, 37, 10));
    assert_eq!(e.scratch, vec![9]);
    match e.encode_host(&[], 8, false, 1, 30, false) {
        Err(text) => assert_eq!(text, "input buffer too small"),
        Ok(_) => panic!("taken"),
    }
    assert!(!refused(&mut e, 38, 10));
}

#[test]
fn a_frame_goes_through_its_surface() {
    let mut e = encoder(false);
    let job = start(&mut e, 0x1_0007, true);
    let job = going(job, &mut e, returned(0));
    assert_eq!(job.call(&e), Call::Transform { from: 20, to: 21, params: abi::transform_params() });
    let job = going(job, &mut e, returned(0));
    assert_eq!(job.call(&e), Call::SetControl(abi::set_control(abi::CID_FORCE_IDR_FRAME, 1)));
    let job = going(job, &mut e, returned(0));
    match job.call(&e) {
        Call::QueueBuffer(q) => {
            assert_eq!((q.buffer.index, q.buffer.type_, q.buffer.memory, q.buffer.length), (0, 10, 4, 2));
            assert_eq!((q.buffer.flags, q.buffer.timestamp), (0x4000, [0x1_0007, 0]));
            assert_eq!((q.planes[0].m, q.planes[0].bytesused), (21, 8));
            assert_eq!((q.planes[1].m, q.planes[1].bytesused), (21, 4));
        }
        _ => panic!("nothing is queued"),
    }
    assert_eq!(e.device.queued, 0);
    let job = going(job, &mut e, returned(0));
    assert_eq!(e.device.queued, 1);
    assert_eq!(job.call(&e), Call::DequeueBuffer(abi::buffer(9, 1, 0, 1)));
    match job.reply(&mut e, buffer(-1, unit(0, 0, 0), true)).unwrap() {
        Progress::Done(out) => assert!(out.is_empty()),
        Progress::Going(_) => panic!("going"),
    }
}

#[test]
fn units_are_collected_behind_their_headers() {
    let mut e = encoder(false);
    let job = collecting(&mut e, 3);
    let q = unit(2, 3, 0x1_0007);
    let job = going(job, &mut e, buffer(0, q, false));
    let header = VideoHeader {
        codec: Codec::H264,
        frame_number: 7,
        y_start: 0,
        width: 2,
        height: 4,
        reference: Reference::Untracked,
    };
    assert_eq!(job.call(&e), Call::ReadUnit { address: 0x3000, length: 3, header: Some(header) });
    let job = going(job, &mut e, Reply::Unit { header: vec![1, 2], bytes: vec![5, 6, 7] });
    assert_eq!(job.call(&e), Call::QueueBuffer(q));
    let job = going(job, &mut e, returned(0));
    let empty = unit(1, 0, 0);
    let job = going(job, &mut e, buffer(0, empty, false));
    assert_eq!(job.call(&e), Call::QueueBuffer(empty));
    let job = going(job, &mut e, returned(0));
    let job = going(job, &mut e, buffer(0, unit(3, 1, 8), false));
    let job = going(job, &mut e, Reply::Unit { header: vec![3], bytes: vec![9] });
    let job = going(job, &mut e, returned(0));
    match job.reply(&mut e, buffer(-1, empty, false)).unwrap() {
        Progress::Done(out) => assert_eq!(out, vec![1, 2, 5, 6, 7, 3, 9]),
        Progress::Going(_) => panic!("going"),
    }
}

#[test]
fn headers_can_be_left_out() {
    let mut e = encoder(true);
    let job = collecting(&mut e, 3);
    let job = going(job, &mut e, buffer(0, unit(0, 2, 7), false));
    assert_eq!(job.call(&e), Call::ReadUnit { address: 0x1000, length: 2, header: None });
    let job = going(job, &mut e, Reply::Unit { header: vec![1], bytes: vec![5, 6] });
    let job = going(job, &mut e, returned(0));
    match job.reply(&mut e, buffer(-1, unit(0, 0, 0), true)).unwrap() {
        Progress::Done(out) => assert_eq!(out, vec![5, 6]),
        Progress::Going(_) => panic!("going"),
    }
}

#[test]
fn surfaces_are_used_in_turn_and_then_reclaimed() {
    let mut e = encoder(true);
    for slot in 0..4usize {
        let job = start(&mut e, 0, false);
        let job = going(job, &mut e, returned(0));
        assert!(matches!(job.call(&e), Call::Transform { to, .. } if to == 21 + slot as i32));
        collecting(&mut e, 0);
        assert_eq!(e.device.queued, slot + 1);
    }
    let job = going(start(&mut e, 0, false), &mut e, returned(0));
    assert_eq!(job.call(&e), Call::Clock);
    let job = going(job, &mut e, Reply::Time(1000));
    assert_eq!(job.call(&e), Call::DequeueBuffer(abi::buffer(10, 4, 0, 2)));
    let job = going(job, &mut e, buffer(-1, abi::buffer(10, 4, 0, 2), true));
    assert_eq!(job.call(&e), Call::Clock);
    let job = going(job, &mut e, Reply::Time(500_001_000));
    assert_eq!(job.call(&e), Call::Poll { fd: 5, timeout_ms: 20 });
    let job = going(job, &mut e, Reply::Done);
    let job = going(job, &mut e, buffer(0, abi::buffer(10, 4, 2, 2), false));
    assert!(matches!(job.call(&e), Call::Transform { to: 23, .. }));
    let job = going(job, &mut e, returned(0));
    assert!(matches!(job.call(&e), Call::QueueBuffer(q) if q.buffer.index == 2));
    assert_eq!(e.device.spare, Some(2));
    going(job, &mut e, returned(0));
    assert_eq!((e.device.queued, e.device.spare), (4, None));
}

/// A job that has taken surface `slot` back, all four having been queued.
fn reclaimed(e: &mut TegraEncoder, slot: u32, idr: bool) -> EncodeJob {
    let job = going(start(e, 0, idr), e, returned(0));
    assert_eq!(job.call(e), Call::Clock);
    let job = going(job, e, Reply::Time(1000));
    going(job, e, buffer(0, abi::buffer(10, 4, slot, 2), false))
}

#[test]
fn a_surface_that_came_back_is_used_by_the_next_job() {
    let mut e = encoder(true);
    for _ in 0..4 {
        collecting(&mut e, 0);
    }
    for slot in 0..4u32 {
        let to = 21 + slot as i32;
        let job = reclaimed(&mut e, slot, false);
        assert_eq!(error(job, &mut e, returned(-1)), "NvBufferTransform failed");
        let job = going(start(&mut e, 0, true), &mut e, returned(0));
        assert!(matches!(job.call(&e), Call::Transform { to: t, .. } if t == to));
        let job = going(job, &mut e, returned(0));
        assert_eq!(error(job, &mut e, returned(-1)), "force IDR failed: no");
        let job = going(start(&mut e, 0, false), &mut e, returned(0));
        let job = going(job, &mut e, returned(0));
        assert_eq!(error(job, &mut e, returned(-1)), "QBUF output failed: no");
        let job = going(start(&mut e, 0, false), &mut e, returned(0));
        let job = going(job, &mut e, returned(0));
        assert!(matches!(job.call(&e), Call::QueueBuffer(q) if q.buffer.index == slot));
        going(job, &mut e, returned(0));
        assert_eq!((e.device.queued, e.device.spare), (4, None));
    }
    let job = going(start(&mut e, 0, false), &mut e, returned(0));
    assert_eq!(job.call(&e), Call::Clock);
}

#[test]
fn each_failure_of_a_job_has_its_text() {
    let mut e = encoder(true);
    let job = start(&mut e, 0, true);
    assert_eq!(error(job, &mut e, returned(-1)), "Raw2NvBuffer failed");
    let job = going(start(&mut e, 0, true), &mut e, returned(0));
    assert_eq!(error(job, &mut e, returned(-1)), "NvBufferTransform failed");
    let job = going(start(&mut e, 0, true), &mut e, returned(0));
    let job = going(job, &mut e, returned(0));
    assert_eq!(error(job, &mut e, returned(-1)), "force IDR failed: no");
    let job = going(start(&mut e, 0, false), &mut e, returned(0));
    let job = going(job, &mut e, returned(0));
    assert_eq!(error(job, &mut e, returned(-1)), "QBUF output failed: no");
    assert_eq!(e.device.queued, 0);
    let job = collecting(&mut e, 0);
    let job = going(job, &mut e, buffer(0, unit(0, 0, 0), false));
    assert_eq!(error(job, &mut e, returned(-1)), "QBUF capture failed: no");
    e.device.queued = 4;
    let blank = abi::buffer(10, 4, 0, 2);
    let job = going(going(start(&mut e, 0, false), &mut e, returned(0)), &mut e, Reply::Time(0));
    assert_eq!(error(job, &mut e, buffer(-1, blank, false)), "DQBUF output failed: no");
    let job = going(going(start(&mut e, 0, false), &mut e, returned(0)), &mut e, Reply::Time(0));
    let job = going(job, &mut e, buffer(-1, blank, true));
    let late = error(job, &mut e, Reply::Time(500_000_001));
    assert_eq!(late, "the encoder did not return an output buffer in 500 ms");
}

#[test]
fn the_last_frame_number_comes_back_in_sixteen_bits() {
    let mut e = encoder(false);
    let job = start(&mut e, u64::MAX, false);
    let job = going(going(job, &mut e, returned(0)), &mut e, returned(0));
    let sent = match job.call(&e) {
        Call::QueueBuffer(q) => q.buffer.timestamp[0],
        _ => panic!("nothing is queued"),
    };
    let job = going(job, &mut e, returned(0));
    let job = going(job, &mut e, buffer(0, unit(0, 1, sent), false));
    assert!(matches!(job.call(&e), Call::ReadUnit { header: Some(h), .. } if h.frame_number == 65535));
}
