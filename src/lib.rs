//! Capture of human-input-device events: the queue that hands normalized
//! events to the application, with its blocking-consumption protocol, the
//! registry of connected devices, and the translation of raw device values
//! into events.

pub mod device;
pub mod error;
pub mod event;
pub mod queue;
pub mod registry;
pub mod value;

pub use device::{device_filters, device_id, Keyboard, Mouse, USAGE_KEYBOARD, USAGE_MOUSE};
pub use error::Error;
pub use event::{Event, MouseMotionEvent};
pub use queue::{EventQueue, QueueView, WaitStep};
pub use registry::{device_record, property_u16, DeviceRegistry, RegistryView};
pub use value::{motion_from_value, GENERIC_DESKTOP_PAGE, USAGE_X, USAGE_Y};
