//! Logic core of a vehicle head-unit status display: a packed 4-bit
//! grayscale framebuffer with its page-oriented wire protocol, a quadrature
//! rotary-encoder decoder with detent detection, a home screen that renders
//! status and track metadata as a display list, and a render pipeline that
//! diffs application state and throttles redraws.
pub mod display;
pub mod encoder;
pub mod fmt;
pub mod home;
pub mod screen;
pub mod sh1122;
pub mod state;
