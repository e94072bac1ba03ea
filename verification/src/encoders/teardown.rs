//! Letting an encoder go.
use crate::encoders::abi;
use crate::encoders::tegra::{Call, Device, TegraEncoder};
use vstd::prelude::*;

verus! {

/// The calls that unmap the first `n` capture buffers, of those that are mapped.
pub open spec fn unmaps(device: Device, n: int) -> Seq<Call>
    decreases n,
{
    if n <= 0 {
        Seq::empty()
    } else if device.capture[n - 1].0 != 0 {
        unmaps(device, n - 1).push(
            Call::Unmap {
                address: device.capture[n - 1].0,
                length: device.capture[n - 1].1,
            },
        )
    } else {
        unmaps(device, n - 1)
    }
}

/// The calls that destroy the first `n` surfaces of the output plane, of those that there are.
pub open spec fn destroys(device: Device, n: int) -> Seq<Call>
    decreases n,
{
    if n <= 0 {
        Seq::empty()
    } else if device.nv12_fd[n - 1] >= 0 {
        destroys(device, n - 1).push(Call::DestroySurface(device.nv12_fd[n - 1]))
    } else {
        destroys(device, n - 1)
    }
}

/// The calls that let a device go, in their order: both queues are stopped, the capture buffers
/// unmapped, the device closed, and the surfaces destroyed.
pub open spec fn release_of(device: Device) -> Seq<Call> {
    let stopped = seq![
        Call::StreamOff(abi::V4L2_BUF_TYPE_VIDEO_OUTPUT_MPLANE),
        Call::StreamOff(abi::V4L2_BUF_TYPE_VIDEO_CAPTURE_MPLANE),
    ];
    let closed = (stopped + unmaps(device, 4)).push(Call::Close(device.fd)) + destroys(device, 4);
    if device.staging_fd >= 0 {
        closed.push(Call::DestroySurface(device.staging_fd))
    } else {
        closed
    }
}

impl TegraEncoder {
    /// The calls that let the encoder go, to be made in their order, whatever comes of each.
    pub fn release(&self) -> (calls: Vec<Call>)
        ensures
            calls@ == release_of(self.device),
    {
        let device: &Device = &self.device;
        let mut calls: Vec<Call> = Vec::new();
        calls.push(Call::StreamOff(abi::V4L2_BUF_TYPE_VIDEO_OUTPUT_MPLANE));
        calls.push(Call::StreamOff(abi::V4L2_BUF_TYPE_VIDEO_CAPTURE_MPLANE));
        let ghost stopped = calls@;
        let mut i: usize = 0;
        while i < 4
            invariant
                i <= 4,
                calls@ == stopped + unmaps(*device, i as int),
            decreases 4 - i,
        {
            let (address, length): (usize, usize) = device.capture[i];
            if address != 0 {
                calls.push(Call::Unmap { address, length });
            }
            i = i + 1;
            assert(calls@ =~= stopped + unmaps(*device, i as int));
        }
        calls.push(Call::Close(device.fd));
        let ghost closed = calls@;
        let mut i: usize = 0;
        while i < 4
            invariant
                i <= 4,
                calls@ == closed + destroys(*device, i as int),
            decreases 4 - i,
        {
            let fd: i32 = device.nv12_fd[i];
            if fd >= 0 {
                calls.push(Call::DestroySurface(fd));
            }
            i = i + 1;
            assert(calls@ =~= closed + destroys(*device, i as int));
        }
        if device.staging_fd >= 0 {
            calls.push(Call::DestroySurface(device.staging_fd));
        }
        assert(stopped =~= seq![
            Call::StreamOff(abi::V4L2_BUF_TYPE_VIDEO_OUTPUT_MPLANE),
            Call::StreamOff(abi::V4L2_BUF_TYPE_VIDEO_CAPTURE_MPLANE),
        ]);
        calls
    }
}

proof fn mapped_is_unmapped(device: Device, n: int, i: int)
    requires
        0 <= i < n <= 4,
        device.capture[i].0 != 0,
    ensures
        unmaps(device, n).contains(
            Call::Unmap { address: device.capture[i].0, length: device.capture[i].1 },
        ),
    decreases n,
{
    let call = Call::Unmap { address: device.capture[i].0, length: device.capture[i].1 };
    if i == n - 1 {
        assert(unmaps(device, n).last() == call);
    } else {
        mapped_is_unmapped(device, n - 1, i);
        let earlier = unmaps(device, n - 1);
        let k = choose|k: int| 0 <= k < earlier.len() && earlier[k] == call;
        assert(unmaps(device, n)[k] == call);
    }
}

proof fn made_is_destroyed(device: Device, n: int, i: int)
    requires
        0 <= i < n <= 4,
        device.nv12_fd[i] >= 0,
    ensures
        destroys(device, n).contains(Call::DestroySurface(device.nv12_fd[i])),
    decreases n,
{
    let call = Call::DestroySurface(device.nv12_fd[i]);
    if i == n - 1 {
        assert(destroys(device, n).last() == call);
    } else {
        made_is_destroyed(device, n - 1, i);
        let earlier = destroys(device, n - 1);
        let k = choose|k: int| 0 <= k < earlier.len() && earlier[k] == call;
        assert(destroys(device, n)[k] == call);
    }
}

/// Whatever a device has acquired is let go: it is closed, every mapped capture buffer is
/// unmapped before that, and every surface destroyed after it.
pub proof fn acquired_is_released(device: Device)
    ensures
        ({
            let calls = release_of(device);
            let close = 2 + unmaps(device, 4).len();
            &&& calls[close as int] == Call::Close(device.fd)
            &&& forall|i: int|
                0 <= i < 4 && (#[trigger] device.capture[i]).0 != 0 ==> calls.take(
                    close as int,
                ).contains(
                    Call::Unmap { address: device.capture[i].0, length: device.capture[i].1 },
                )
            &&& forall|i: int|
                0 <= i < 4 && #[trigger] device.nv12_fd[i] >= 0 ==> calls.skip(
                    close as int + 1,
                ).contains(Call::DestroySurface(device.nv12_fd[i]))
            &&& device.staging_fd >= 0 ==> calls.last() == Call::DestroySurface(device.staging_fd)
                && calls.len() > close + 1
        }),
{
    let calls = release_of(device);
    let unmapped = unmaps(device, 4);
    let destroyed = destroys(device, 4);
    let close = (2 + unmapped.len()) as int;
    assert forall|i: int| 0 <= i < 4 && (#[trigger] device.capture[i]).0 != 0 implies calls.take(
        close,
    ).contains(Call::Unmap { address: device.capture[i].0, length: device.capture[i].1 }) by {
        let call = Call::Unmap { address: device.capture[i].0, length: device.capture[i].1 };
        mapped_is_unmapped(device, 4, i);
        let k = choose|k: int| 0 <= k < unmapped.len() && unmapped[k] == call;
        assert(calls.take(close)[2 + k] == call);
    }
    assert forall|i: int| 0 <= i < 4 && #[trigger] device.nv12_fd[i] >= 0 implies calls.skip(
        close + 1,
    ).contains(Call::DestroySurface(device.nv12_fd[i])) by {
        let call = Call::DestroySurface(device.nv12_fd[i]);
        made_is_destroyed(device, 4, i);
        let k = choose|k: int| 0 <= k < destroyed.len() && destroyed[k] == call;
        assert(calls.skip(close + 1)[k] == call);
    }
}

} // verus!
