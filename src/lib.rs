//! Backlight brightness control for an external USB display, driven through a
//! vendor-defined HID feature report.
//!
//! The library holds the protocol: the brightness scale and its percent view,
//! the byte layout of the feature report, the control transfers that carry it,
//! the choice of the device, and the decisions of a one-shot command.
//! Talking to the device is left to the caller.
pub mod brightness;
pub mod discovery;
pub mod error;
pub mod protocol;
pub mod report;
pub mod session;

