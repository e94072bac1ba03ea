//! What is asked of the portal before a session is opened, and of a session besides its input:
//! whether a portal is there, the PipeWire connection of the streams, and the end of the session.
use crate::text;
use crate::wayland::opening;
use crate::wayland::opening::{Call, CallView, Interface, Property, Reply, ReplyView};
use crate::wayland::portal;
use crate::wayland::portal::PortalSession;
use vstd::prelude::*;

verus! {

/// What a probe is waiting for.
#[derive(Clone, Copy, Debug, PartialEq, Eq)]
pub enum ProbePhase {
    Connect,
    Proxy,
    Version,
}

/// The question whether a portal answers on the session bus.
#[derive(Clone, Copy, Debug, PartialEq, Eq)]
pub struct Probe {
    pub phase: ProbePhase,
}

/// Where a probe stands after a call.
#[derive(Clone, Copy, Debug, PartialEq, Eq)]
pub enum ProbeProgress {
    Going(Probe),
    Answer(bool),
}

/// Whether `reply` is one that a call made in `phase` can have.
pub open spec fn fits(phase: ProbePhase, reply: ReplyView) -> bool {
    match phase {
        ProbePhase::Connect | ProbePhase::Proxy => reply is Done || reply is Failed,
        ProbePhase::Version => reply is Number || reply is Failed,
    }
}

impl Probe {
    /// The call that is due.
    pub open spec fn due(self) -> CallView {
        match self.phase {
            ProbePhase::Connect => CallView::Connect,
            ProbePhase::Proxy => CallView::Proxy(Interface::ScreenCast),
            ProbePhase::Version => CallView::Read(Interface::ScreenCast, Property::Version),
        }
    }

    /// Where the probe stands after `reply` came to the call that was due: whatever fails, there
    /// is no portal.
    pub open spec fn next(self, reply: ReplyView) -> ProbeProgress {
        match (self.phase, reply) {
            (_, ReplyView::Failed(_)) => ProbeProgress::Answer(false),
            (ProbePhase::Connect, _) => ProbeProgress::Going(Probe { phase: ProbePhase::Proxy }),
            (ProbePhase::Proxy, _) => ProbeProgress::Going(Probe { phase: ProbePhase::Version }),
            (ProbePhase::Version, _) => ProbeProgress::Answer(true),
        }
    }

    /// The call that is due.
    pub fn call(&self) -> (call: Call)
        ensures
            call@ == self.due(),
    {
        match self.phase {
            ProbePhase::Connect => Call::Connect,
            ProbePhase::Proxy => Call::Proxy(Interface::ScreenCast),
            ProbePhase::Version => Call::Read(Interface::ScreenCast, Property::Version),
        }
    }

    /// Takes `reply`, the answer to the call that was due.
    pub fn reply(self, reply: Reply) -> (progress: ProbeProgress)
        requires
            fits(self.phase, reply@),
        ensures
            progress == self.next(reply@),
    {
        match (self.phase, reply) {
            (_, Reply::Failed(_)) => ProbeProgress::Answer(false),
            (ProbePhase::Connect, _) => ProbeProgress::Going(Probe { phase: ProbePhase::Proxy }),
            (ProbePhase::Proxy, _) => ProbeProgress::Going(Probe { phase: ProbePhase::Version }),
            (ProbePhase::Version, _) => ProbeProgress::Answer(true),
        }
    }
}

/// A method of an object of the portal. Its arguments are the session and no options, or nothing
/// at all where no session is given.
#[derive(Debug)]
pub struct MethodCall {
    pub path: String,
    pub interface: &'static str,
    pub method: &'static str,
    pub session: Option<String>,
}

impl PortalSession {
    /// Starts the question whether a portal answers on the session bus at all (no dialog, no
    /// session).
    pub fn available() -> (probe: Probe)
        ensures
            probe == (Probe { phase: ProbePhase::Connect }),
    {
        Probe { phase: ProbePhase::Connect }
    }

    /// The call for the PipeWire connection the streams live on, which the portal opens with the
    /// node permissions of this session.
    pub fn open_pipewire_remote(&self) -> (call: MethodCall)
        ensures
            call.path@ == portal::DESKTOP_PATH@,
            call.interface@ == portal::SCREENCAST_IFACE@,
            call.method@ == "OpenPipeWireRemote"@,
            opening::maybe(call.session) == Some(self.session@),
    {
        MethodCall {
            path: portal::DESKTOP_PATH.to_owned(),
            interface: portal::SCREENCAST_IFACE,
            method: "OpenPipeWireRemote",
            session: Some(self.session.clone()),
        }
    }

    /// The call that tells the portal that the session is over.
    pub fn close(&self) -> (call: MethodCall)
        ensures
            call.path@ == self.session@,
            call.interface@ == portal::SESSION_IFACE@,
            call.method@ == "Close"@,
            call.session is None,
    {
        MethodCall {
            path: self.session.clone(),
            interface: portal::SESSION_IFACE,
            method: "Close",
            session: None,
        }
    }
}

impl MethodCall {
    /// What is said where the call failed with `error`.
    pub fn refusal(&self, error: &str) -> (message: String)
        ensures
            message@ == self.method@ + ": "@ + error@,
    {
        text::labelled(self.method, error)
    }
}

/// The state of an opening that makes the call which a probe makes in `phase`.
pub open spec fn alongside(phase: ProbePhase) -> opening::Phase {
    match phase {
        ProbePhase::Connect => opening::Phase::Connect,
        ProbePhase::Proxy => opening::Phase::ScreenCastProxy,
        ProbePhase::Version => opening::Phase::ScreenCastVersion,
    }
}

/// A probe makes the calls that a plain screen cast is opened with, and answers that no portal is
/// there exactly where the opening would fail over one of them.
pub proof fn probe_and_opening_agree(p: Probe, s: opening::State, reply: ReplyView)
    requires
        s.wf(),
        !s.remote,
        s.phase == alongside(p.phase),
        fits(p.phase, reply),
    ensures
        p.due() == s.call(),
        opening::fits(s.phase, reply),
        match p.next(reply) {
            ProbeProgress::Going(q) => s.next(reply) matches Ok(t) && t.phase == alongside(q.phase)
                && !t.remote,
            ProbeProgress::Answer(there) => there == (s.next(reply) is Ok),
        },
{
}

} // verus!
