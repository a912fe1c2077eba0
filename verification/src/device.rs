//! HID RGB device control.
//!
//! Provides two device types:
//! - [`lamp_array::LampArrayDevice`]: HID LampArray (Usage Page 0x59) per HUT v1.4 Section 26
//! - [`led_rgb::LedRgbDevice`]: LED Page RGB LED (Usage Page 0x08) per HUT v1.4 Section 11.7
//!
//! What is done with a device is a session (`session`, `led_rgb`), which decides about one device
//! access after another. `conversation` states what whole sessions bring about.

pub mod conversation;
pub mod hidraw;
pub mod lamp;
pub mod lamp_array;
pub mod led_rgb;
pub mod multi_update;
pub mod scale;
pub mod session;
pub mod update;
