//! Control RGB lighting on HID LampArray and LED Page devices on Linux.
//!
//! This crate provides:
//! - Discovery of HID RGB devices by parsing their report descriptors
//! - Support for HID LampArray (Usage Page 0x59) and LED Page RGB (Usage Page 0x08)
//! - No hardcoded vendor/product IDs: works with any compliant device
//!
//! The crate performs no device access itself. Operations on devices are sessions: a session says
//! which access is due, takes what the access returned, and ends with a result.
//!
//! A session can give its request only where the report that is due has room for its fields, which
//! [`fits`](device::session::LampArraySession::fits) tells:
//!
//! ```ignore
//! use hid_rgb_ctl::{discover_devices, DeviceInfo, LampArrayDevice, LedRgbDevice};
//!
//! for dev in &discover_devices(&entries) {
//!     match dev {
//!         DeviceInfo::LampArray(info) => {
//!             let mut session = LampArrayDevice::new(info).set_color(255, 0, 0, 255);
//!             while session.fits() {
//!                 match session.request() {
//!                     Some(request) => session = session.resume(perform(request)),
//!                     None => break,
//!                 }
//!             }
//!         }
//!         DeviceInfo::LedRgb(info) => {
//!             let mut session = LedRgbDevice::new(info).set_color(255, 0, 0, 255);
//!             while session.fits() {
//!                 match session.request() {
//!                     Some(request) => session = session.resume(perform(request)),
//!                     None => break,
//!                 }
//!             }
//!         }
//!     }
//! }
//! ```

pub mod bytes;
pub mod cli;
pub mod descriptor;
pub mod device;
pub mod error;
pub mod text;
pub mod views;

pub use descriptor::discovery::{discover_devices, HidrawEntry};
pub use descriptor::{
    DeviceInfo, LampArrayInfo, LampArrayReports, LedRgbInfo, ReportInfo, ReportType,
};
pub use device::lamp::{lamp_array_kind_name, LampArrayAttributes, LampAttributes};
pub use device::lamp_array::LampArrayDevice;
pub use device::led_rgb::{LedRgbAttributes, LedRgbDevice};
pub use device::multi_update::LampColor;
pub use error::Error;
