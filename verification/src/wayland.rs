//! The desktop portal: one `RemoteDesktop` or `ScreenCast` session on the session bus.
//!
//! A compositor without the privileged wlroots protocols hands out its monitors and takes input
//! for its seat only through its portal. The session is opened by [`opening`], each method that
//! is answered by a `Response` signal goes through [`request`], input leaves as the notifications
//! of [`input`], and [`session`] holds what else is asked of a session. [`laws`] says what
//! all of that comes to, of the answers that the portal gives and the calls it gets.
pub mod input;
pub mod laws;
pub mod opening;
pub mod portal;
pub mod request;
pub mod session;
pub mod token;
pub mod variant;
