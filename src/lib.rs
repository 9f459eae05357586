//! A Monte-Carlo sphere ray tracer's integer core: image settings, the order and
//! text encoding of pixels, and the bounce control of a light path.

pub mod config;
pub mod path;
pub mod ppm;
