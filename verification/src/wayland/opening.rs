//! Opening a portal session, one call at a time.
//!
//! [`PortalSession::open`] starts an [`Opening`]. As long as [`Opening::call`] names a call, the
//! program makes it and hands the answer to [`Opening::reply`].
use crate::text;
use crate::wayland::portal;
use crate::wayland::portal::{PortalSession, PortalStream};
use crate::wayland::variant::{opt_u32, Tree, VarDict, Variant};
use vstd::prelude::*;

verus! {

/// The two portal interfaces a session uses.
#[derive(Clone, Copy, Debug, PartialEq, Eq)]
pub enum Interface {
    ScreenCast,
    RemoteDesktop,
}

/// The properties read off an interface.
#[derive(Clone, Copy, Debug, PartialEq, Eq)]
pub enum Property {
    Version,
    AvailableCursorModes,
    AvailableDeviceTypes,
}

/// The methods that set a session up, each answered by a `Response` signal.
#[derive(Clone, Copy, Debug, PartialEq, Eq)]
pub enum Method {
    CreateSession,
    SelectSources,
    SelectDevices,
    Start,
}

impl Interface {
    /// The interface's name on the bus.
    pub open spec fn name_of(self) -> Seq<char> {
        match self {
            Interface::ScreenCast => portal::SCREENCAST_IFACE@,
            Interface::RemoteDesktop => portal::REMOTE_DESKTOP_IFACE@,
        }
    }

    /// The interface's name on the bus.
    pub fn name(self) -> (name: &'static str)
        ensures
            name@ == self.name_of(),
    {
        match self {
            Interface::ScreenCast => portal::SCREENCAST_IFACE,
            Interface::RemoteDesktop => portal::REMOTE_DESKTOP_IFACE,
        }
    }
}

impl Property {
    /// The property's name on the bus.
    pub open spec fn name_of(self) -> Seq<char> {
        match self {
            Property::Version => "version"@,
            Property::AvailableCursorModes => "AvailableCursorModes"@,
            Property::AvailableDeviceTypes => "AvailableDeviceTypes"@,
        }
    }

    /// The property's name on the bus.
    pub fn name(self) -> (name: &'static str)
        ensures
            name@ == self.name_of(),
    {
        match self {
            Property::Version => "version",
            Property::AvailableCursorModes => "AvailableCursorModes",
            Property::AvailableDeviceTypes => "AvailableDeviceTypes",
        }
    }
}

impl Method {
    /// The method's name on the bus.
    pub open spec fn name_of(self) -> Seq<char> {
        match self {
            Method::CreateSession => "CreateSession"@,
            Method::SelectSources => "SelectSources"@,
            Method::SelectDevices => "SelectDevices"@,
            Method::Start => "Start"@,
        }
    }

    /// The method's name on the bus.
    pub fn name(self) -> (name: &'static str)
        ensures
            name@ == self.name_of(),
    {
        match self {
            Method::CreateSession => "CreateSession",
            Method::SelectSources => "SelectSources",
            Method::SelectDevices => "SelectDevices",
            Method::Start => "Start",
        }
    }

    /// The window that a dialog of the method belongs to, which stands between the session and the
    /// options; only `Start` names one, and names none of its own.
    pub fn parent_window(self) -> (window: Option<&'static str>)
        ensures
            match window {
                Some(w) => self == Method::Start && w@ == ""@,
                None => self != Method::Start,
            },
    {
        match self {
            Method::Start => Some(""),
            _ => None,
        }
    }
}

/// What an opening is waiting for.
#[derive(Clone, Copy, Debug, PartialEq, Eq)]
pub enum Phase {
    Connect,
    ScreenCastProxy,
    RemoteDesktopProxy,
    ScreenCastVersion,
    RemoteDesktopVersion,
    CreateSession,
    CursorModes,
    SelectSources,
    DeviceTypes,
    SelectDevices,
    Start,
    SaveToken,
    Opened,
}

/// A session on its way to being open.
pub struct Opening {
    phase: Phase,
    pid: u32,
    capture: bool,
    wanted: u32,
    given: Option<String>,
    sc_version: u32,
    rd_version: u32,
    device_types: u32,
    portal: PortalSession,
}

/// An opening as a mathematical value: what was asked for, what the portal said so far and what
/// the session holds so far.
#[verifier::ext_equal]
pub struct State {
    pub phase: Phase,
    pub pid: nat,
    pub capture: bool,
    pub wanted: u32,
    pub given: Option<Seq<char>>,
    pub sc_version: u32,
    pub rd_version: u32,
    pub device_types: u32,
    pub remote: bool,
    pub session: Seq<char>,
    pub streams: Seq<PortalStream>,
    pub devices: u32,
    pub cursor_mode: u32,
    pub restore_token: Option<Seq<char>>,
}

/// A call that an opening asks for.
pub enum Call {
    /// Connect to the session bus.
    Connect,
    /// Make a proxy of the portal for the interface.
    Proxy(Interface),
    /// Read a numeric property.
    Read(Interface, Property),
    /// Make a request, on the session where there is one yet.
    Request(Interface, Method, Option<String>, VarDict),
    /// Keep the restore token for the next session.
    Save(String),
    /// Nothing is left to do.
    Finished,
}

/// [`Call`] as a mathematical value.
pub enum CallView {
    Connect,
    Proxy(Interface),
    Read(Interface, Property),
    Request(Interface, Method, Option<Seq<char>>, Map<Seq<char>, Tree>),
    Save(Seq<char>),
    Finished,
}

/// What came of a call.
pub enum Reply {
    Done,
    Number(u32),
    Results(VarDict),
    Failed(String),
}

/// [`Reply`] as a mathematical value.
pub enum ReplyView {
    Done,
    Number(u32),
    Results(Map<Seq<char>, Tree>),
    Failed(Seq<char>),
}

impl Call {
    pub open spec fn view(&self) -> CallView {
        match self {
            Call::Connect => CallView::Connect,
            Call::Proxy(i) => CallView::Proxy(*i),
            Call::Read(i, p) => CallView::Read(*i, *p),
            Call::Request(i, m, s, o) => CallView::Request(
                *i,
                *m,
                match s {
                    Some(s) => Some(s@),
                    None => None,
                },
                o@,
            ),
            Call::Save(t) => CallView::Save(t@),
            Call::Finished => CallView::Finished,
        }
    }
}

impl Reply {
    pub open spec fn view(&self) -> ReplyView {
        match self {
            Reply::Done => ReplyView::Done,
            Reply::Number(n) => ReplyView::Number(*n),
            Reply::Results(r) => ReplyView::Results(r@),
            Reply::Failed(e) => ReplyView::Failed(e@),
        }
    }

    /// The dictionary in it, if there is one, is one.
    pub open spec fn wf(&self) -> bool {
        match self {
            Reply::Results(r) => r.wf(),
            _ => true,
        }
    }
}

/// Whether `reply` is one that a call made in `phase` can have.
pub open spec fn fits(phase: Phase, reply: ReplyView) -> bool {
    match phase {
        Phase::Connect | Phase::ScreenCastProxy | Phase::RemoteDesktopProxy => reply is Done
            || reply is Failed,
        Phase::ScreenCastVersion | Phase::RemoteDesktopVersion | Phase::CursorModes
        | Phase::DeviceTypes => reply is Number || reply is Failed,
        Phase::CreateSession | Phase::SelectSources | Phase::SelectDevices | Phase::Start => reply is Results
            || reply is Failed,
        Phase::SaveToken => reply is Done,
        Phase::Opened => false,
    }
}

/// `options` with what makes the backend keep the grant, and the token of an earlier grant.
pub open spec fn persisted(
    options: Map<Seq<char>, Tree>,
    token: Option<Seq<char>>,
) -> Map<Seq<char>, Tree> {
    let kept = options.insert("persist_mode"@, Tree::U32(portal::PERSIST_UNTIL_REVOKED));
    match token {
        Some(t) => kept.insert("restore_token"@, Tree::Str(t)),
        None => kept,
    }
}

impl State {
    /// The state with `phase` in place of its own.
    pub open spec fn at(self, phase: Phase) -> State {
        State { phase, ..self }
    }

    /// What holds of every opening: it touches the remote desktop only where devices are wanted
    /// and the sources only for a capture, has a token to save when it saves one, and a capture
    /// is open only with a stream.
    pub open spec fn wf(self) -> bool {
        &&& self.remote == (self.wanted != 0)
        &&& match self.phase {
            Phase::RemoteDesktopProxy | Phase::RemoteDesktopVersion | Phase::DeviceTypes
            | Phase::SelectDevices => self.remote,
            Phase::CursorModes | Phase::SelectSources => self.capture,
            Phase::SaveToken => self.restore_token is Some,
            Phase::Opened => self.capture ==> self.streams.len() > 0,
            _ => true,
        }
    }

    /// Persistence rides `SelectSources` on a plain screen cast; a backend without the option
    /// ignores it.
    pub open spec fn persist_on_sources(self) -> bool {
        !self.remote && self.sc_version >= 4
    }

    /// Persistence rides `SelectDevices` on a remote desktop.
    pub open spec fn persist_on_devices(self) -> bool {
        self.remote && self.rd_version >= 2
    }

    /// The interface that creates and starts the session.
    pub open spec fn opener(self) -> Interface {
        if self.remote {
            Interface::RemoteDesktop
        } else {
            Interface::ScreenCast
        }
    }

    /// The options of `CreateSession`.
    pub open spec fn create_options(self) -> Map<Seq<char>, Tree> {
        map!["session_handle_token"@ => Tree::Str(portal::session_token_of(self.pid))]
    }

    /// The options of `SelectSources`: every monitor as its own stream, with the cursor mode
    /// where the interface knows the option.
    pub open spec fn source_options(self) -> Map<Seq<char>, Tree> {
        let monitors = map![
            "types"@ => Tree::U32(portal::SOURCE_MONITOR),
            "multiple"@ => Tree::Bool(true),
        ];
        let shown = if self.sc_version >= 2 {
            monitors.insert("cursor_mode"@, Tree::U32(self.cursor_mode))
        } else {
            monitors
        };
        if self.persist_on_sources() {
            persisted(shown, self.given)
        } else {
            shown
        }
    }

    /// The options of `SelectDevices`: the wanted devices that the portal has.
    pub open spec fn device_options(self) -> Map<Seq<char>, Tree> {
        let types = map!["types"@ => Tree::U32(self.wanted & self.device_types)];
        if self.persist_on_devices() {
            persisted(types, self.given)
        } else {
            types
        }
    }

    /// The call that is due.
    pub open spec fn call(self) -> CallView {
        match self.phase {
            Phase::Connect => CallView::Connect,
            Phase::ScreenCastProxy => CallView::Proxy(Interface::ScreenCast),
            Phase::RemoteDesktopProxy => CallView::Proxy(Interface::RemoteDesktop),
            Phase::ScreenCastVersion => CallView::Read(Interface::ScreenCast, Property::Version),
            Phase::RemoteDesktopVersion => CallView::Read(
                Interface::RemoteDesktop,
                Property::Version,
            ),
            Phase::CreateSession => CallView::Request(
                self.opener(),
                Method::CreateSession,
                None,
                self.create_options(),
            ),
            Phase::CursorModes => CallView::Read(
                Interface::ScreenCast,
                Property::AvailableCursorModes,
            ),
            Phase::SelectSources => CallView::Request(
                Interface::ScreenCast,
                Method::SelectSources,
                Some(self.session),
                self.source_options(),
            ),
            Phase::DeviceTypes => CallView::Read(
                Interface::RemoteDesktop,
                Property::AvailableDeviceTypes,
            ),
            Phase::SelectDevices => CallView::Request(
                Interface::RemoteDesktop,
                Method::SelectDevices,
                Some(self.session),
                self.device_options(),
            ),
            Phase::Start => CallView::Request(
                self.opener(),
                Method::Start,
                Some(self.session),
                Map::empty(),
            ),
            Phase::SaveToken => CallView::Save(self.restore_token->0),
            Phase::Opened => CallView::Finished,
        }
    }

    /// The phase behind the choice of sources.
    pub open spec fn after_sources(self) -> Phase {
        if self.remote {
            Phase::DeviceTypes
        } else {
            Phase::Start
        }
    }

    /// The end of the opening: a capture needs a stream.
    pub open spec fn concluded(self) -> Result<State, Seq<char>> {
        if self.capture && self.streams.len() == 0 {
            Err("the portal started no monitor stream"@)
        } else {
            Ok(self.at(Phase::Opened))
        }
    }

    /// The state after the results of `Start`.
    pub open spec fn started(self, results: Map<Seq<char>, Tree>) -> State {
        State {
            streams: portal::started_streams(results),
            devices: portal::started_devices(results),
            restore_token: portal::started_token(results),
            ..self
        }
    }

    /// The state after `reply` came to the call that was due, or the error that ends the opening.
    pub open spec fn next(self, reply: ReplyView) -> Result<State, Seq<char>> {
        match self.phase {
            Phase::Connect => match reply {
                ReplyView::Failed(e) => Err("session bus"@ + ": "@ + e),
                _ => Ok(self.at(Phase::ScreenCastProxy)),
            },
            Phase::ScreenCastProxy => match reply {
                ReplyView::Failed(e) => Err(e),
                _ => if self.remote {
                    Ok(self.at(Phase::RemoteDesktopProxy))
                } else {
                    Ok(self.at(Phase::ScreenCastVersion))
                },
            },
            Phase::RemoteDesktopProxy => match reply {
                ReplyView::Failed(e) => Err(e),
                _ => Ok(self.at(Phase::ScreenCastVersion)),
            },
            Phase::ScreenCastVersion => match reply {
                ReplyView::Number(n) => {
                    let known = State { sc_version: n, ..self };
                    if self.remote {
                        Ok(known.at(Phase::RemoteDesktopVersion))
                    } else {
                        Ok(known.at(Phase::CreateSession))
                    }
                },
                ReplyView::Failed(e) => Err("no ScreenCast portal"@ + ": "@ + e),
                _ => Err(seq![]),
            },
            Phase::RemoteDesktopVersion => match reply {
                ReplyView::Number(n) => Ok(
                    State { rd_version: n, ..self }.at(Phase::CreateSession),
                ),
                ReplyView::Failed(e) => Err("no RemoteDesktop portal"@ + ": "@ + e),
                _ => Err(seq![]),
            },
            Phase::CreateSession => match reply {
                ReplyView::Results(results) => match portal::session_handle_in(results) {
                    Some(handle) => {
                        let named = State { session: handle, ..self };
                        if self.capture {
                            Ok(named.at(Phase::CursorModes))
                        } else {
                            Ok(named.at(self.after_sources()))
                        }
                    },
                    None => Err("CreateSession returned no session handle"@),
                },
                ReplyView::Failed(e) => Err(e),
                _ => Err(seq![]),
            },
            Phase::CursorModes => {
                let available = match reply {
                    ReplyView::Number(n) => n,
                    _ => portal::CURSOR_EMBEDDED,
                };
                Ok(
                    State {
                        cursor_mode: portal::cursor_mode_for(available, self.cursor_mode),
                        ..self
                    }.at(Phase::SelectSources),
                )
            },
            Phase::SelectSources => match reply {
                ReplyView::Failed(e) => Err(e),
                _ => Ok(self.at(self.after_sources())),
            },
            Phase::DeviceTypes => {
                let available = match reply {
                    ReplyView::Number(n) => n,
                    _ => portal::DEVICE_KEYBOARD | portal::DEVICE_POINTER,
                };
                Ok(State { device_types: available, ..self }.at(Phase::SelectDevices))
            },
            Phase::SelectDevices => match reply {
                ReplyView::Failed(e) => Err(e),
                _ => Ok(self.at(Phase::Start)),
            },
            Phase::Start => match reply {
                ReplyView::Results(results) => if portal::started_token(results) is Some {
                    Ok(self.started(results).at(Phase::SaveToken))
                } else {
                    self.started(results).concluded()
                },
                ReplyView::Failed(e) => Err(e),
                _ => Err(seq![]),
            },
            Phase::SaveToken => self.concluded(),
            Phase::Opened => Ok(self),
        }
    }
}

/// The state in which an opening starts.
pub open spec fn asked(
    pid: nat,
    capture: bool,
    devices: u32,
    cursor_mode: u32,
    restore_token: Option<Seq<char>>,
) -> State {
    State {
        phase: Phase::Connect,
        pid,
        capture,
        wanted: devices,
        given: restore_token,
        sc_version: 0,
        rd_version: 0,
        device_types: 0,
        remote: devices != 0,
        session: "/"@,
        streams: seq![],
        devices: 0,
        cursor_mode,
        restore_token: None,
    }
}

/// The text of an optional text.
pub open spec fn maybe(s: Option<String>) -> Option<Seq<char>> {
    match s {
        Some(s) => Some(s@),
        None => None,
    }
}

impl PortalSession {
    /// Open a session. `devices` (`DEVICE_*` bits) selects what input the session drives; zero
    /// opens a plain ScreenCast session. `capture` asks for every monitor as its own stream with
    /// `cursor_mode` (`CURSOR_*`), downgraded to what the portal offers. `pid` is the process
    /// whose session it is.
    pub fn open(
        pid: u32,
        capture: bool,
        devices: u32,
        cursor_mode: u32,
        restore_token: Option<&str>,
    ) -> (opening: Opening)
        ensures
            opening@.wf(),
            opening@ == asked(
                pid as nat,
                capture,
                devices,
                cursor_mode,
                match restore_token {
                    Some(t) => Some(t@),
                    None => None,
                },
            ),
    {
        let given: Option<String> = match restore_token {
            Some(t) => Some(t.to_owned()),
            None => None,
        };
        let opening = Opening {
            phase: Phase::Connect,
            pid,
            capture,
            wanted: devices,
            given,
            sc_version: 0,
            rd_version: 0,
            device_types: 0,
            portal: PortalSession {
                remote: devices != 0,
                session: "/".to_owned(),
                streams: Vec::new(),
                devices: 0,
                cursor_mode,
                restore_token: None,
            },
        };
        assert(opening@ =~= asked(pid as nat, capture, devices, cursor_mode, maybe(given)));
        opening
    }
}

impl Opening {
    pub closed spec fn view(&self) -> State {
        State {
            phase: self.phase,
            pid: self.pid as nat,
            capture: self.capture,
            wanted: self.wanted,
            given: maybe(self.given),
            sc_version: self.sc_version,
            rd_version: self.rd_version,
            device_types: self.device_types,
            remote: self.portal.remote,
            session: self.portal.session@,
            streams: self.portal.streams@,
            devices: self.portal.devices,
            cursor_mode: self.portal.cursor_mode,
            restore_token: maybe(self.portal.restore_token),
        }
    }

    /// What the opening waits for.
    pub fn phase(&self) -> (phase: Phase)
        ensures
            phase == self@.phase,
    {
        self.phase
    }

    /// Adds to `options` what makes the backend keep the grant.
    fn persist(&self, options: &mut VarDict)
        requires
            old(options).wf(),
        ensures
            final(options).wf(),
            final(options)@ == persisted(old(options)@, self@.given),
    {
        opt_u32(options, "persist_mode", portal::PERSIST_UNTIL_REVOKED);
        if let Some(t) = &self.given {
            options.insert("restore_token", Variant::Str(t.clone()));
        }
    }

    /// The options of `CreateSession`.
    fn create_options(&self) -> (options: VarDict)
        ensures
            options.wf(),
            options@ == self@.create_options(),
    {
        let mut options = VarDict::new();
        options.insert("session_handle_token", Variant::Str(portal::session_token(self.pid)));
        options
    }

    /// The options of `SelectSources`.
    fn source_options(&self) -> (options: VarDict)
        ensures
            options.wf(),
            options@ == self@.source_options(),
    {
        let mut options = VarDict::new();
        opt_u32(&mut options, "types", portal::SOURCE_MONITOR);
        options.insert("multiple", Variant::Bool(true));
        if self.sc_version >= 2 {
            opt_u32(&mut options, "cursor_mode", self.portal.cursor_mode);
        }
        if !self.portal.remote && self.sc_version >= 4 {
            self.persist(&mut options);
        }
        options
    }

    /// The options of `SelectDevices`.
    fn device_options(&self) -> (options: VarDict)
        ensures
            options.wf(),
            options@ == self@.device_options(),
    {
        let mut options = VarDict::new();
        opt_u32(&mut options, "types", self.wanted & self.device_types);
        if self.portal.remote && self.rd_version >= 2 {
            self.persist(&mut options);
        }
        options
    }

    /// The interface that creates and starts the session.
    fn opener(&self) -> (iface: Interface)
        ensures
            iface == self@.opener(),
    {
        if self.portal.remote {
            Interface::RemoteDesktop
        } else {
            Interface::ScreenCast
        }
    }

    /// The phase behind the choice of sources.
    fn after_sources(&self) -> (phase: Phase)
        ensures
            phase == self@.after_sources(),
    {
        if self.portal.remote {
            Phase::DeviceTypes
        } else {
            Phase::Start
        }
    }

    /// The call that is due.
    pub fn call(&self) -> (call: Call)
        requires
            self@.wf(),
        ensures
            call@ == self@.call(),
            call matches Call::Request(_, _, _, options) ==> options.wf(),
    {
        match self.phase {
            Phase::Connect => Call::Connect,
            Phase::ScreenCastProxy => Call::Proxy(Interface::ScreenCast),
            Phase::RemoteDesktopProxy => Call::Proxy(Interface::RemoteDesktop),
            Phase::ScreenCastVersion => Call::Read(Interface::ScreenCast, Property::Version),
            Phase::RemoteDesktopVersion => Call::Read(Interface::RemoteDesktop, Property::Version),
            Phase::CreateSession => Call::Request(
                self.opener(),
                Method::CreateSession,
                None,
                self.create_options(),
            ),
            Phase::CursorModes => Call::Read(Interface::ScreenCast, Property::AvailableCursorModes),
            Phase::SelectSources => Call::Request(
                Interface::ScreenCast,
                Method::SelectSources,
                Some(self.portal.session.clone()),
                self.source_options(),
            ),
            Phase::DeviceTypes => Call::Read(
                Interface::RemoteDesktop,
                Property::AvailableDeviceTypes,
            ),
            Phase::SelectDevices => Call::Request(
                Interface::RemoteDesktop,
                Method::SelectDevices,
                Some(self.portal.session.clone()),
                self.device_options(),
            ),
            Phase::Start => Call::Request(
                self.opener(),
                Method::Start,
                Some(self.portal.session.clone()),
                VarDict::new(),
            ),
            Phase::SaveToken => match &self.portal.restore_token {
                Some(t) => Call::Save(t.clone()),
                None => Call::Finished,
            },
            Phase::Opened => Call::Finished,
        }
    }

    /// Ends the opening: a capture needs a stream.
    fn conclude(&mut self) -> (end: Result<(), String>)
        requires
            old(self)@.remote == (old(self)@.wanted != 0),
        ensures
            match end {
                Ok(_) => old(self)@.concluded() == Ok::<State, Seq<char>>(final(self)@),
                Err(e) => old(self)@.concluded() == Err::<State, Seq<char>>(e@) && *final(self)
                    == *old(self),
            },
    {
        if self.capture && self.portal.streams.len() == 0 {
            Err("the portal started no monitor stream".to_owned())
        } else {
            self.phase = Phase::Opened;
            Ok(())
        }
    }

    /// Takes over the results of `Start`.
    fn start(&mut self, results: &VarDict)
        requires
            results.wf(),
        ensures
            final(self)@ == old(self)@.started(results@),
    {
        self.portal.streams = match results.get("streams") {
            Some(v) => portal::list_streams(v),
            None => Vec::new(),
        };
        self.portal.devices = match results.get("devices") {
            Some(Variant::U32(d)) => *d,
            _ => 0,
        };
        self.portal.restore_token = match results.get("restore_token") {
            Some(Variant::Str(t)) => Some(t.clone()),
            _ => None,
        };
        assert(self@ =~= old(self)@.started(results@));
    }

    /// Takes `reply`, the answer to the call that was due. An error ends the opening.
    pub fn reply(&mut self, reply: Reply) -> (end: Result<(), String>)
        requires
            old(self)@.wf(),
            reply.wf(),
            fits(old(self)@.phase, reply@),
        ensures
            final(self)@.wf(),
            match end {
                Ok(_) => old(self)@.next(reply@) == Ok::<State, Seq<char>>(final(self)@),
                Err(e) => old(self)@.next(reply@) == Err::<State, Seq<char>>(e@)
                    && final(self)@.phase == old(self)@.phase && final(self)@.session == old(
                    self,
                )@.session,
            },
    {
        let reply: Reply = match reply {
            Reply::Failed(e) => {
                return self.fail(e);
            },
            reply => reply,
        };
        match (self.phase, reply) {
            (Phase::Connect, _) => {
                self.phase = Phase::ScreenCastProxy;
            },
            (Phase::ScreenCastProxy, _) => {
                self.phase =
                if self.portal.remote {
                    Phase::RemoteDesktopProxy
                } else {
                    Phase::ScreenCastVersion
                };
            },
            (Phase::RemoteDesktopProxy, _) => {
                self.phase = Phase::ScreenCastVersion;
            },
            (Phase::ScreenCastVersion, Reply::Number(n)) => {
                self.sc_version = n;
                self.phase =
                if self.portal.remote {
                    Phase::RemoteDesktopVersion
                } else {
                    Phase::CreateSession
                };
            },
            (Phase::RemoteDesktopVersion, Reply::Number(n)) => {
                self.rd_version = n;
                self.phase = Phase::CreateSession;
            },
            (Phase::CreateSession, Reply::Results(results)) => {
                match portal::session_handle(&results) {
                    Ok(handle) => {
                        self.portal.session = handle;
                    },
                    Err(e) => {
                        return Err(e);
                    },
                }
                self.phase =
                if self.capture {
                    Phase::CursorModes
                } else {
                    self.after_sources()
                };
            },
            (Phase::CursorModes, Reply::Number(available)) => {
                self.portal.cursor_mode = portal::choose_cursor_mode(
                    available,
                    self.portal.cursor_mode,
                );
                self.phase = Phase::SelectSources;
            },
            (Phase::SelectSources, _) => {
                self.phase = self.after_sources();
            },
            (Phase::DeviceTypes, Reply::Number(available)) => {
                self.device_types = available;
                self.phase = Phase::SelectDevices;
            },
            (Phase::SelectDevices, _) => {
                self.phase = Phase::Start;
            },
            (Phase::Start, Reply::Results(results)) => {
                self.start(&results);
                if self.portal.restore_token.is_some() {
                    self.phase = Phase::SaveToken;
                } else {
                    return self.conclude();
                }
            },
            (Phase::SaveToken, _) => {
                return self.conclude();
            },
            _ => {},
        }
        Ok(())
    }

    /// Takes the failure `e` of the call that was due. A portal that does not say which cursor
    /// modes or devices it has is taken to have the usual ones.
    fn fail(&mut self, e: String) -> (end: Result<(), String>)
        requires
            old(self)@.wf(),
            fits(old(self)@.phase, ReplyView::Failed(e@)),
        ensures
            final(self)@.wf(),
            match end {
                Ok(_) => old(self)@.next(ReplyView::Failed(e@)) == Ok::<State, Seq<char>>(
                    final(self)@,
                ),
                Err(m) => old(self)@.next(ReplyView::Failed(e@)) == Err::<State, Seq<char>>(m@)
                    && *final(self) == *old(self),
            },
    {
        match self.phase {
            Phase::Connect => Err(text::labelled("session bus", e.as_str())),
            Phase::ScreenCastVersion => Err(text::labelled("no ScreenCast portal", e.as_str())),
            Phase::RemoteDesktopVersion => Err(
                text::labelled("no RemoteDesktop portal", e.as_str()),
            ),
            Phase::CursorModes => {
                self.portal.cursor_mode = portal::choose_cursor_mode(
                    portal::CURSOR_EMBEDDED,
                    self.portal.cursor_mode,
                );
                self.phase = Phase::SelectSources;
                Ok(())
            },
            Phase::DeviceTypes => {
                self.device_types = portal::DEVICE_KEYBOARD | portal::DEVICE_POINTER;
                self.phase = Phase::SelectDevices;
                Ok(())
            },
            _ => Err(e),
        }
    }

    /// Whether there is a session to close, should the opening be given up: from the moment the
    /// portal is known to be there.
    pub fn begun(&self) -> (begun: bool)
        ensures
            begun == !(self@.phase is Connect || self@.phase is ScreenCastProxy
                || self@.phase is RemoteDesktopProxy || self@.phase is ScreenCastVersion),
    {
        match self.phase {
            Phase::Connect
            | Phase::ScreenCastProxy
            | Phase::RemoteDesktopProxy
            | Phase::ScreenCastVersion => false,
            _ => true,
        }
    }

    /// The session as it stands.
    pub fn session(&self) -> (portal: &PortalSession)
        ensures
            portal.remote == self@.remote,
            portal.session@ == self@.session,
            portal.streams@ == self@.streams,
            portal.devices == self@.devices,
            portal.cursor_mode == self@.cursor_mode,
            maybe(portal.restore_token) == self@.restore_token,
    {
        &self.portal
    }

    /// The session, once it is open.
    pub fn finish(self) -> (portal: PortalSession)
        requires
            self@.wf(),
            self@.phase is Opened,
        ensures
            self@.capture ==> portal.streams@.len() > 0,
            portal.remote == self@.remote,
            portal.session@ == self@.session,
            portal.streams@ == self@.streams,
            portal.devices == self@.devices,
            portal.cursor_mode == self@.cursor_mode,
            maybe(portal.restore_token) == self@.restore_token,
    {
        self.portal
    }
}

/// Every reply keeps what holds of an opening.
pub proof fn opening_stays_wf(s: State, reply: ReplyView, t: State)
    requires
        s.wf(),
        fits(s.phase, reply),
        s.next(reply) == Ok::<State, Seq<char>>(t),
    ensures
        t.wf(),
        t.pid == s.pid && t.capture == s.capture && t.wanted == s.wanted && t.given == s.given
            && t.remote == s.remote,
{
}

/// The place of a phase in the order in which they come.
pub open spec fn place(phase: Phase) -> nat {
    match phase {
        Phase::Connect => 0,
        Phase::ScreenCastProxy => 1,
        Phase::RemoteDesktopProxy => 2,
        Phase::ScreenCastVersion => 3,
        Phase::RemoteDesktopVersion => 4,
        Phase::CreateSession => 5,
        Phase::CursorModes => 6,
        Phase::SelectSources => 7,
        Phase::DeviceTypes => 8,
        Phase::SelectDevices => 9,
        Phase::Start => 10,
        Phase::SaveToken => 11,
        Phase::Opened => 12,
    }
}

/// Every reply that ends no opening takes it to a later phase, so that no call is made twice.
pub proof fn opening_goes_forward(s: State, reply: ReplyView, t: State)
    requires
        s.wf(),
        fits(s.phase, reply),
        s.next(reply) == Ok::<State, Seq<char>>(t),
    ensures
        place(s.phase) < place(t.phase),
{
}

/// Whether `replies` are answers to the calls that an opening makes one after the other, up to its
/// end at most.
pub open spec fn answers(s: State, replies: Seq<ReplyView>) -> bool
    decreases replies.len(),
{
    replies.len() > 0 ==> {
        &&& fits(s.phase, replies[0])
        &&& match s.next(replies[0]) {
            Ok(t) => answers(t, replies.drop_first()),
            Err(_) => replies.len() == 1,
        }
    }
}

/// Where an opening stands that got `replies`, or the error that ended it.
pub open spec fn outcome(s: State, replies: Seq<ReplyView>) -> Result<State, Seq<char>>
    decreases replies.len(),
{
    if replies.len() == 0 {
        Ok(s)
    } else {
        match s.next(replies[0]) {
            Ok(t) => outcome(t, replies.drop_first()),
            Err(e) => Err(e),
        }
    }
}

/// What an opening that got `replies` has asked the portal to do, and what it has saved, in order:
/// its calls but for the connection, the proxies and the properties read.
pub open spec fn undertaken(s: State, replies: Seq<ReplyView>) -> Seq<CallView>
    decreases replies.len(),
{
    if replies.len() == 0 {
        Seq::empty()
    } else {
        let first = if s.call() is Request || s.call() is Save {
            seq![s.call()]
        } else {
            Seq::empty()
        };
        match s.next(replies[0]) {
            Ok(t) => first + undertaken(t, replies.drop_first()),
            Err(_) => first,
        }
    }
}

/// The results with which the request of `phase` was answered among `replies`.
pub open spec fn results_of(s: State, replies: Seq<ReplyView>, phase: Phase) -> Option<
    Map<Seq<char>, Tree>,
>
    decreases replies.len(),
{
    if replies.len() == 0 {
        None
    } else {
        match (s.next(replies[0]), replies[0]) {
            (_, ReplyView::Results(results)) if s.phase == phase => Some(results),
            (Ok(t), _) => results_of(t, replies.drop_first(), phase),
            _ => None,
        }
    }
}

impl State {
    /// What an opening that ends in this state undertakes from `phase` on: it creates the session,
    /// chooses the sources of a capture, chooses the devices of a remote desktop, starts the
    /// session, and saves the token it got, if it got one.
    pub open spec fn ahead(self, phase: Phase) -> Seq<CallView> {
        let create = if place(phase) <= place(Phase::CreateSession) {
            seq![self.at(Phase::CreateSession).call()]
        } else {
            Seq::empty()
        };
        let sources = if self.capture && place(phase) <= place(Phase::SelectSources) {
            seq![self.at(Phase::SelectSources).call()]
        } else {
            Seq::empty()
        };
        let devices = if self.remote && place(phase) <= place(Phase::SelectDevices) {
            seq![self.at(Phase::SelectDevices).call()]
        } else {
            Seq::empty()
        };
        let start = if place(phase) <= place(Phase::Start) {
            seq![self.at(Phase::Start).call()]
        } else {
            Seq::empty()
        };
        let save = if self.restore_token is Some && place(phase) <= place(Phase::SaveToken) {
            seq![self.at(Phase::SaveToken).call()]
        } else {
            Seq::empty()
        };
        create + sources + devices + start + save
    }

    /// Whether what is known in this state is still so in `later`: each thing is learnt once, in
    /// its phase.
    pub open spec fn kept_in(self, later: State) -> bool {
        &&& later.pid == self.pid && later.capture == self.capture && later.wanted == self.wanted
        &&& later.given == self.given && later.remote == self.remote
        &&& place(self.phase) > place(Phase::ScreenCastVersion) ==> later.sc_version
            == self.sc_version
        &&& place(self.phase) > place(Phase::RemoteDesktopVersion) ==> later.rd_version
            == self.rd_version
        &&& place(self.phase) > place(Phase::CreateSession) ==> later.session == self.session
        &&& place(self.phase) > place(Phase::CursorModes) ==> later.cursor_mode
            == self.cursor_mode
        &&& place(self.phase) > place(Phase::DeviceTypes) ==> later.device_types
            == self.device_types
        &&& place(self.phase) > place(Phase::Start) ==> later.streams == self.streams
            && later.devices == self.devices && later.restore_token == self.restore_token
    }
}

proof fn rest_of_an_opening(s: State, replies: Seq<ReplyView>, t: State)
    requires
        s.wf(),
        answers(s, replies),
        outcome(s, replies) == Ok::<State, Seq<char>>(t),
        t.phase is Opened,
    ensures
        t.wf(),
        s.kept_in(t),
        undertaken(s, replies) == t.ahead(s.phase),
        place(s.phase) <= place(Phase::CreateSession) ==> {
            &&& results_of(s, replies, Phase::CreateSession) matches Some(results)
            &&& portal::session_handle_in(results) == Some(t.session)
        },
        place(s.phase) <= place(Phase::Start) ==> {
            &&& results_of(s, replies, Phase::Start) matches Some(results)
            &&& t.streams == portal::started_streams(results)
            &&& t.devices == portal::started_devices(results)
            &&& t.restore_token == portal::started_token(results)
        },
    decreases replies.len(),
{
    if replies.len() > 0 {
        let reply = replies[0];
        let rest = replies.drop_first();
        let u = s.next(reply)->Ok_0;
        opening_stays_wf(s, reply, u);
        opening_goes_forward(s, reply, u);
        rest_of_an_opening(u, rest, t);
        assert(undertaken(s, replies) =~= t.ahead(s.phase));
    } else {
        assert(undertaken(s, replies) =~= t.ahead(s.phase));
    }
}

/// An opening that ends with an open session has created it once and started it once, on the same
/// interface, has chosen sources once exactly for a capture and devices once exactly where devices
/// are wanted, all in that order and on the session that `CreateSession` gave, and has then saved
/// the token exactly if it got one. The streams, the devices and the token are those that `Start`
/// gave.
pub proof fn opened_session_was_asked_for(
    pid: nat,
    capture: bool,
    devices: u32,
    cursor_mode: u32,
    restore_token: Option<Seq<char>>,
    replies: Seq<ReplyView>,
    t: State,
)
    requires
        answers(asked(pid, capture, devices, cursor_mode, restore_token), replies),
        outcome(asked(pid, capture, devices, cursor_mode, restore_token), replies) == Ok::<
            State,
            Seq<char>,
        >(t),
        t.phase is Opened,
    ensures
        ({
            let s = asked(pid, capture, devices, cursor_mode, restore_token);
            let create = seq![
                CallView::Request(t.opener(), Method::CreateSession, None, t.create_options()),
            ];
            let sources = if capture {
                seq![
                    CallView::Request(
                        Interface::ScreenCast,
                        Method::SelectSources,
                        Some(t.session),
                        t.source_options(),
                    ),
                ]
            } else {
                Seq::empty()
            };
            let chosen = if devices != 0 {
                seq![
                    CallView::Request(
                        Interface::RemoteDesktop,
                        Method::SelectDevices,
                        Some(t.session),
                        t.device_options(),
                    ),
                ]
            } else {
                Seq::empty()
            };
            let start = seq![
                CallView::Request(t.opener(), Method::Start, Some(t.session), Map::empty()),
            ];
            let save = match t.restore_token {
                Some(token) => seq![CallView::Save(token)],
                None => Seq::empty(),
            };
            &&& undertaken(s, replies) == create + sources + chosen + start + save
            &&& t.remote == (devices != 0) && t.capture == capture && t.wanted == devices
            &&& t.pid == pid && t.given == restore_token
            &&& capture ==> t.streams.len() > 0
            &&& results_of(s, replies, Phase::CreateSession) matches Some(created)
            &&& portal::session_handle_in(created) == Some(t.session)
            &&& results_of(s, replies, Phase::Start) matches Some(started)
            &&& t.streams == portal::started_streams(started)
            &&& t.devices == portal::started_devices(started)
            &&& t.restore_token == portal::started_token(started)
        }),
{
    let s = asked(pid, capture, devices, cursor_mode, restore_token);
    rest_of_an_opening(s, replies, t);
}

/// The interface that a call goes to.
pub open spec fn target(call: CallView) -> Option<Interface> {
    match call {
        CallView::Proxy(i) => Some(i),
        CallView::Read(i, _) => Some(i),
        CallView::Request(i, _, _, _) => Some(i),
        _ => None,
    }
}

/// A session that drives no device is a plain screen cast: it never touches the remote desktop.
pub proof fn no_devices_no_remote_desktop(s: State)
    requires
        s.wf(),
        s.wanted == 0,
    ensures
        target(s.call()) != Some(Interface::RemoteDesktop),
{
}

/// The keys of the options that make a grant last are no others.
proof fn option_names_are_distinct()
    ensures
        "types"@ != "persist_mode"@,
        "types"@ != "restore_token"@,
        "multiple"@ != "persist_mode"@,
        "multiple"@ != "restore_token"@,
        "cursor_mode"@ != "persist_mode"@,
        "cursor_mode"@ != "restore_token"@,
        "persist_mode"@ != "restore_token"@,
        "types"@ != "multiple"@,
        "types"@ != "cursor_mode"@,
        "multiple"@ != "cursor_mode"@,
{
    reveal_strlit("types");
    reveal_strlit("multiple");
    reveal_strlit("cursor_mode");
    reveal_strlit("persist_mode");
    reveal_strlit("restore_token");
    assert("types"@.len() == 5);
    assert("multiple"@.len() == 8);
    assert("cursor_mode"@.len() == 11);
    assert("persist_mode"@.len() == 12);
    assert("restore_token"@.len() == 13);
}

/// Persistence rides exactly one choice: that of the sources on a plain screen cast, that of the
/// devices on a remote desktop. The token goes only where the grant is to be kept, and is the one
/// that was given.
pub proof fn persistence_rides_one_choice(s: State)
    requires
        s.wf(),
    ensures
        s.source_options().contains_key("persist_mode"@) == (!s.remote && s.sc_version >= 4),
        s.device_options().contains_key("persist_mode"@) == (s.remote && s.rd_version >= 2),
        s.source_options().contains_key("restore_token"@) == (!s.remote && s.sc_version >= 4
            && s.given is Some),
        s.device_options().contains_key("restore_token"@) == (s.remote && s.rd_version >= 2
            && s.given is Some),
        !(s.source_options().contains_key("restore_token"@) && s.device_options().contains_key(
            "restore_token"@,
        )),
        s.source_options().contains_key("restore_token"@) ==> s.source_options()["restore_token"@]
            == Tree::Str(s.given->0),
        s.device_options().contains_key("restore_token"@) ==> s.device_options()["restore_token"@]
            == Tree::Str(s.given->0),
{
    option_names_are_distinct();
}

/// A capture asks for monitors only, each as its own stream, and never for a cursor mode of an
/// interface that has none.
pub proof fn capture_asks_for_every_monitor(s: State)
    requires
        s.wf(),
    ensures
        s.source_options().contains_pair("types"@, Tree::U32(portal::SOURCE_MONITOR)),
        s.source_options().contains_pair("multiple"@, Tree::Bool(true)),
        s.source_options().contains_key("cursor_mode"@) == (s.sc_version >= 2),
        s.sc_version >= 2 ==> s.source_options()["cursor_mode"@] == Tree::U32(s.cursor_mode),
{
    option_names_are_distinct();
}

/// A session asks for no device that was not wanted and for none that the portal lacks.
pub proof fn only_wanted_and_present_devices(s: State)
    requires
        s.wf(),
    ensures
        s.device_options().contains_pair("types"@, Tree::U32(s.wanted & s.device_types)),
        (s.wanted & s.device_types) & !s.wanted == 0,
        (s.wanted & s.device_types) & !s.device_types == 0,
{
    option_names_are_distinct();
    let wanted = s.wanted;
    let types = s.device_types;
    assert((wanted & types) & !wanted == 0 && (wanted & types) & !types == 0) by (bit_vector);
}

/// A token that the portal hands out is saved before the session counts as open, and it is the
/// session's own from then on.
pub proof fn new_token_is_saved(s: State, results: Map<Seq<char>, Tree>, token: Seq<char>)
    requires
        s.wf(),
        s.phase is Start,
        portal::started_token(results) == Some(token),
    ensures
        ({
            let t = s.started(results).at(Phase::SaveToken);
            &&& s.next(ReplyView::Results(results)) == Ok::<State, Seq<char>>(t)
            &&& t.call() == CallView::Save(token)
            &&& t.restore_token == Some(token)
        }),
{
}

} // verus!
