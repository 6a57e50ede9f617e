//! A real-time audio bridge: negotiates a stream format for a device and
//! moves samples between the hardware's audio callback and the application,
//! in both capture and playback directions.
pub mod capture;
pub mod device;
pub mod error;
pub mod format;
pub mod lifecycle;
pub mod playback;

pub use capture::{CaptureChannel, Microphone, CAPTURE_CAPACITY};
pub use device::{Config, Device, SoundCard};
pub use error::SoundCardError;
pub use format::{negotiate, Format, NegotiatedFormat, Sample};
pub use lifecycle::StreamState;
pub use playback::{render_silence, fill_from, SharedBuffer, Speaker};
