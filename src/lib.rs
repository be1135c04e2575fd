//! Screen capture frame model, pixel conversions and the capture engine's
//! lifecycle and delivery rules.

pub mod frame;
pub mod capturer;
