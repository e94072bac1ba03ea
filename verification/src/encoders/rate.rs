//! Changing the bitrate of a running encoder.
//!
//! [`TegraEncoder::reconfigure_rate`] starts a [`RateChange`] if there is anything to change. The
//! controls are writable while the encoder is streaming.
use crate::encoders::abi;
use crate::encoders::setup;
use crate::encoders::setup::refusal;
use crate::encoders::tegra;
use crate::encoders::tegra::{
    bitrate_bps, Call, Device, Reply, ReplyView, RustCaptureSettings, TegraEncoder,
};
use vstd::prelude::*;

verus! {

/// What a change is waiting for.
#[derive(Clone, Copy, Debug, PartialEq, Eq)]
pub enum Phase {
    Bitrate,
    VbvSize,
}

/// A change of the bitrate under way.
#[derive(Clone, Copy, Debug, PartialEq, Eq)]
pub struct RateChange {
    /// The bits per second asked for.
    pub wanted: u32,
    /// The size of the virtual buffer at that rate.
    pub vbv: i64,
    pub phase: Phase,
}

/// The change that `settings` ask of a device, if they ask for one.
pub open spec fn change_of(device: Device, settings: RustCaptureSettings) -> Option<RateChange> {
    let wanted = tegra::bits_per_second(settings.video_bitrate_kbps);
    if wanted == device.bitrate_bps {
        None
    } else {
        Some(RateChange { wanted: wanted as u32, vbv: settings.vbv_bits, phase: Phase::Bitrate })
    }
}

impl RateChange {
    /// The call that is due.
    pub open spec fn due(self) -> Call {
        match self.phase {
            Phase::Bitrate => Call::SetControl(
                abi::control_of(abi::CID_BITRATE, self.wanted as i64),
            ),
            Phase::VbvSize => Call::SetControl(abi::control_of(abi::CID_VBV_SIZE, self.vbv)),
        }
    }

    /// What is left of the change after `reply`, if anything, or the error that ends it.
    pub open spec fn next(self, reply: ReplyView) -> Result<Option<RateChange>, Seq<char>> {
        match (self.phase, reply) {
            (Phase::Bitrate, ReplyView::Returned { rc, error }) => if rc < 0 {
                Err(setup::refused("bitrate"@, error.text))
            } else {
                Ok(Some(RateChange { phase: Phase::VbvSize, ..self }))
            },
            (Phase::VbvSize, ReplyView::Returned { rc, error }) => if rc < 0 {
                Err(setup::refused("VBV size"@, error.text))
            } else {
                Ok(None)
            },
            (_, _) => Ok(Some(self)),
        }
    }

    /// The device after `reply`: its bitrate is the new one once both controls are set.
    pub open spec fn device_after(self, device: Device, reply: ReplyView) -> Device {
        if self.next(reply) == Ok::<Option<RateChange>, Seq<char>>(None) {
            Device { bitrate_bps: self.wanted, ..device }
        } else {
            device
        }
    }

    /// The call that is due.
    pub fn call(&self) -> (call: Call)
        ensures
            call == self.due(),
    {
        match self.phase {
            Phase::Bitrate => Call::SetControl(
                abi::set_control(abi::CID_BITRATE, self.wanted as i64),
            ),
            Phase::VbvSize => Call::SetControl(abi::set_control(abi::CID_VBV_SIZE, self.vbv)),
        }
    }

    /// Takes `reply`, the answer to the call that was due. An error ends the change.
    pub fn reply(self, encoder: &mut TegraEncoder, reply: Reply) -> (end: Result<
        Option<RateChange>,
        String,
    >)
        requires
            tegra::fits(self.due(), reply@),
        ensures
            final(encoder).device == self.device_after(old(encoder).device, reply@),
            final(encoder).scratch@ == old(encoder).scratch@,
            match end {
                Ok(left) => self.next(reply@) == Ok::<Option<RateChange>, Seq<char>>(left),
                Err(e) => self.next(reply@) == Err::<Option<RateChange>, Seq<char>>(e@),
            },
    {
        match (self.phase, reply) {
            (Phase::Bitrate, Reply::Returned { rc, error }) => if rc < 0 {
                Err(refusal("bitrate", error.text.as_str()))
            } else {
                Ok(Some(RateChange { wanted: self.wanted, vbv: self.vbv, phase: Phase::VbvSize }))
            },
            (Phase::VbvSize, Reply::Returned { rc, error }) => if rc < 0 {
                Err(refusal("VBV size", error.text.as_str()))
            } else {
                encoder.device.bitrate_bps = self.wanted;
                Ok(None)
            },
            (_, _) => Ok(Some(self)),
        }
    }
}

impl TegraEncoder {
    /// Starts the change of the bitrate that `settings` ask for; there is nothing to do where the
    /// encoder runs at that rate already.
    pub fn reconfigure_rate(&self, settings: &RustCaptureSettings) -> (change: Option<RateChange>)
        ensures
            change == change_of(self.device, *settings),
    {
        let wanted: u32 = bitrate_bps(settings.video_bitrate_kbps);
        if wanted == self.device.bitrate_bps {
            None
        } else {
            Some(RateChange { wanted, vbv: settings.vbv_bits, phase: Phase::Bitrate })
        }
    }
}

/// A change that went through is not made again, whatever else the settings say.
pub proof fn finished_change_is_settled(
    device: Device,
    settings: RustCaptureSettings,
    again: RustCaptureSettings,
    first: ReplyView,
    second: ReplyView,
)
    requires
        again.video_bitrate_kbps == settings.video_bitrate_kbps,
        change_of(device, settings) is Some,
        ({
            let change = change_of(device, settings).unwrap();
            &&& tegra::fits(change.due(), first)
            &&& change.next(first) matches Ok(Some(rest))
            &&& tegra::fits(rest.due(), second)
            &&& rest.next(second) == Ok::<Option<RateChange>, Seq<char>>(None)
        }),
    ensures
        ({
            let change = change_of(device, settings).unwrap();
            let rest = change.next(first)->Ok_0.unwrap();
            let halfway = change.device_after(device, first);
            let after = rest.device_after(halfway, second);
            &&& halfway == device
            &&& after == (Device {
                bitrate_bps: tegra::bits_per_second(settings.video_bitrate_kbps) as u32,
                ..device
            })
            &&& change_of(after, again) is None
        }),
{
}

/// A change that failed leaves the device as it was, so that it is asked for again.
pub proof fn failed_change_is_tried_again(
    device: Device,
    settings: RustCaptureSettings,
    change: RateChange,
    reply: ReplyView,
)
    requires
        tegra::fits(change.due(), reply),
        change.next(reply) is Err,
        change_of(device, settings) is Some,
    ensures
        change.device_after(device, reply) == device,
        change_of(change.device_after(device, reply), settings) is Some,
{
}

} // verus!
