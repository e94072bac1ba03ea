//! Input for the host's seat, as notifications that nobody answers.
use crate::wayland::portal::PortalSession;
use crate::wayland::variant::{Tree, VarDict, Variant};
use vstd::prelude::*;

verus! {

/// A double, carried by its bits.
#[derive(Clone, Copy, Debug, PartialEq, Eq)]
pub struct Double {
    pub bits: u64,
}

/// An argument of a notification, behind the session and the options.
#[derive(Clone, Copy, Debug, PartialEq, Eq)]
pub enum Arg {
    U32(u32),
    I32(i32),
    F64(Double),
}

/// A call to the portal's `RemoteDesktop` interface that wants no reply. Its arguments are the
/// session, the options and then `args`.
#[derive(Debug)]
pub struct Notification {
    pub method: &'static str,
    pub session: String,
    pub options: VarDict,
    pub args: Vec<Arg>,
}

/// [`Notification`] as a mathematical value.
pub struct NotificationView {
    pub method: Seq<char>,
    pub session: Seq<char>,
    pub options: Map<Seq<char>, Tree>,
    pub args: Seq<Arg>,
}

impl Notification {
    pub open spec fn view(&self) -> NotificationView {
        NotificationView {
            method: self.method@,
            session: self.session@,
            options: self.options@,
            args: self.args@,
        }
    }
}

/// A pressed key or button is 1, a released one 0.
pub open spec fn state_of(pressed: bool) -> u32 {
    if pressed {
        1
    } else {
        0
    }
}

/// A pressed key or button is 1, a released one 0.
fn state(pressed: bool) -> (n: u32)
    ensures
        n == state_of(pressed),
{
    if pressed {
        1
    } else {
        0
    }
}

impl PortalSession {
    /// That `sent` is `method` with `options` and `args` on this session, or nothing where the
    /// session drives no input.
    pub open spec fn notifies(
        &self,
        sent: Option<Notification>,
        method: Seq<char>,
        options: Map<Seq<char>, Tree>,
        args: Seq<Arg>,
    ) -> bool {
        match sent {
            Some(n) => self.remote && n.options.wf() && n@ == (NotificationView {
                method,
                session: self.session@,
                options,
                args,
            }),
            None => !self.remote,
        }
    }

    /// The notification of `method` with `options` and `args`, where the session drives input.
    fn notify(&self, method: &'static str, options: VarDict, args: Vec<Arg>) -> (sent: Option<
        Notification,
    >)
        requires
            options.wf(),
        ensures
            self.notifies(sent, method@, options@, args@),
    {
        if self.remote {
            Some(Notification { method, session: self.session.clone(), options, args })
        } else {
            None
        }
    }

    /// Absolute pointer motion in the logical coordinate space of the stream `node`.
    pub fn pointer_motion_abs(&self, node: u32, x: Double, y: Double) -> (sent: Option<
        Notification,
    >)
        ensures
            self.notifies(
                sent,
                "NotifyPointerMotionAbsolute"@,
                Map::empty(),
                seq![Arg::U32(node), Arg::F64(x), Arg::F64(y)],
            ),
    {
        let args: Vec<Arg> = vec![Arg::U32(node), Arg::F64(x), Arg::F64(y)];
        assert(args@ =~= seq![Arg::U32(node), Arg::F64(x), Arg::F64(y)]);
        self.notify("NotifyPointerMotionAbsolute", VarDict::new(), args)
    }

    /// Relative pointer motion.
    pub fn pointer_motion(&self, dx: Double, dy: Double) -> (sent: Option<Notification>)
        ensures
            self.notifies(
                sent,
                "NotifyPointerMotion"@,
                Map::empty(),
                seq![Arg::F64(dx), Arg::F64(dy)],
            ),
    {
        let args: Vec<Arg> = vec![Arg::F64(dx), Arg::F64(dy)];
        assert(args@ =~= seq![Arg::F64(dx), Arg::F64(dy)]);
        self.notify("NotifyPointerMotion", VarDict::new(), args)
    }

    /// Button by evdev code.
    pub fn pointer_button(&self, button: i32, pressed: bool) -> (sent: Option<Notification>)
        ensures
            self.notifies(
                sent,
                "NotifyPointerButton"@,
                Map::empty(),
                seq![Arg::I32(button), Arg::U32(state_of(pressed))],
            ),
    {
        let args: Vec<Arg> = vec![Arg::I32(button), Arg::U32(state(pressed))];
        assert(args@ =~= seq![Arg::I32(button), Arg::U32(state_of(pressed))]);
        self.notify("NotifyPointerButton", VarDict::new(), args)
    }

    /// Smooth scroll by logical pixels; `finish` closes the scroll series.
    pub fn pointer_axis(&self, dx: Double, dy: Double, finish: bool) -> (sent: Option<Notification>)
        ensures
            self.notifies(
                sent,
                "NotifyPointerAxis"@,
                map!["finish"@ => Tree::Bool(finish)],
                seq![Arg::F64(dx), Arg::F64(dy)],
            ),
    {
        let mut options = VarDict::new();
        options.insert("finish", Variant::Bool(finish));
        let args: Vec<Arg> = vec![Arg::F64(dx), Arg::F64(dy)];
        assert(args@ =~= seq![Arg::F64(dx), Arg::F64(dy)]);
        self.notify("NotifyPointerAxis", options, args)
    }

    /// Wheel steps: `axis` 0 vertical, 1 horizontal.
    pub fn pointer_axis_discrete(&self, axis: u32, steps: i32) -> (sent: Option<Notification>)
        ensures
            self.notifies(
                sent,
                "NotifyPointerAxisDiscrete"@,
                Map::empty(),
                seq![Arg::U32(axis), Arg::I32(steps)],
            ),
    {
        let args: Vec<Arg> = vec![Arg::U32(axis), Arg::I32(steps)];
        assert(args@ =~= seq![Arg::U32(axis), Arg::I32(steps)]);
        self.notify("NotifyPointerAxisDiscrete", VarDict::new(), args)
    }

    /// Key by keysym.
    pub fn keysym(&self, keysym: i32, pressed: bool) -> (sent: Option<Notification>)
        ensures
            self.notifies(
                sent,
                "NotifyKeyboardKeysym"@,
                Map::empty(),
                seq![Arg::I32(keysym), Arg::U32(state_of(pressed))],
            ),
    {
        let args: Vec<Arg> = vec![Arg::I32(keysym), Arg::U32(state(pressed))];
        assert(args@ =~= seq![Arg::I32(keysym), Arg::U32(state_of(pressed))]);
        self.notify("NotifyKeyboardKeysym", VarDict::new(), args)
    }

    /// Key by evdev keycode, in the host's own layout.
    pub fn keycode(&self, keycode: i32, pressed: bool) -> (sent: Option<Notification>)
        ensures
            self.notifies(
                sent,
                "NotifyKeyboardKeycode"@,
                Map::empty(),
                seq![Arg::I32(keycode), Arg::U32(state_of(pressed))],
            ),
    {
        let args: Vec<Arg> = vec![Arg::I32(keycode), Arg::U32(state(pressed))];
        assert(args@ =~= seq![Arg::I32(keycode), Arg::U32(state_of(pressed))]);
        self.notify("NotifyKeyboardKeycode", VarDict::new(), args)
    }
}

} // verus!
