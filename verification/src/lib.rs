//! A codec-agnostic video-decoding core.
//!
//! The crate decodes compressed video access units into raw pixel buffers
//! without depending on which native codec implementation is installed.
//! Backends are registered under a four-byte codec identifier; each stream
//! gets one decode session that owns its backend instance.
//!
//! The modules, leaves first:
//! - [`timing`]: presentation timestamps, propagated verbatim through a decode.
//! - [`pixelformat`]: the closed set of pixel formats a frame can carry.
//! - [`videodecoder`]: stream headers, the backend registry, and the error
//!   taxonomy shared by every component.
//! - [`h264`]: reframes parameter-set units into the configuration record a
//!   backend expects at initialization.
//! - [`openh264`]: the decode session state machine, frame geometry and the
//!   scoped pixel lock for the OpenH264 backend interface.

pub mod h264;
pub mod openh264;
pub mod pixelformat;
pub mod timing;
pub mod videodecoder;
