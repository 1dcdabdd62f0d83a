//! USB Audio Class 2.0 for `usb-device`: the class-specific descriptors and
//! their bytes, the configuration an audio function describes, and the
//! decisions the class takes on control requests and endpoint events.

pub mod bytes;
pub mod class;
pub mod constants;
pub mod control;
pub mod cursor;
pub mod descriptors;
pub mod order;
mod sealed;

pub use class::{
    clock_source_descriptor, data_packet_size, frequency_access, max_rate, stream_timing, validity_access, Error,
    RangeEntry, RangeType, TerminalConfig, TerminalConfigurationDescriptors, UsbAudioClassError,
    UsbIsochronousFeedback, UsbSpeed,
};
pub use constants::USB_CLASS_AUDIO;
