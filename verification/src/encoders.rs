//! Tegra hardware H.264 through the vendor V4L2 encoder.
//!
//! The encoder is driven with ordinary V4L2 ioctls through the vendor's `libnvv4l2.so`. One host
//! frame becomes one access unit like this: the packed frame is copied into a pitch-linear
//! surface, the surface is converted to block-linear NV12, and the NV12 surface is queued on the
//! output plane as a dmabuf. The access unit comes back on the capture plane, one or two frames
//! later, so the frame number travels in the buffer timestamp and the wire header is written from
//! what comes back.
//!
//! [`vendor`] loads the libraries and finds the device, [`setup`] configures it, [`encode`]
//! drives one frame through it, [`rate`] changes the bitrate and [`teardown`] lets everything go.
//! [`laws`] says what all of that comes to, of the settings, the answers and the calls themselves.
pub mod abi;
pub mod encode;
pub mod laws;
pub mod rate;
pub mod setup;
pub mod teardown;
pub mod tegra;
pub mod vendor;
