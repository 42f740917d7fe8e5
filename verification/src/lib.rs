//! Verified core of a headless media engine built around libmpv: audio
//! configurations, waveform bin layout, error mapping, raw event decoding
//! and the handle setup protocol.

pub mod audio;
pub mod text;
pub mod error;
pub mod ffi;
pub mod events;
pub mod handle;

pub use audio::{AudioConfig, AudioExtractor};
pub use error::MpvError;
pub use events::{Event, PropertyValue};
pub use ffi::{MpvEventId, MpvFormat, MpvHandleOpaque};
pub use handle::{HandleSetup, MpvHandle, SeekMode, SetupAction, SetupEvent, OptionReply};
