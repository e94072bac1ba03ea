//! Screen capture and hardware encoding on Linux hosts: the rules of a desktop-portal session and
//! of the Tegra H.264 encoder, apart from the bus, the device and the vendor libraries.
//!
//! Whatever has to talk to the outside is written as a step machine. A machine says which call is
//! due; the program around the library makes it and hands back what came of it.
pub mod encoders;
pub mod text;
pub mod wayland;
