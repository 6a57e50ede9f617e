use vstd::prelude::*;

verus! {

/// What can go wrong while looking up a device or driving a stream.
#[derive(Debug, PartialEq, Eq)]
pub enum SoundCardError {
    /// The device directory is empty, or a lookup in it failed.
    NoDevicesFound,
    /// The hardware refused the negotiated stream description.
    FormatUnsupported,
    /// An opaque failure reported by the platform audio subsystem.
    BackendError(String),
    /// `start` was called on a session that is already running.
    AlreadyRunning,
    /// `stop` was called on a session that is not running.
    NotRunning,
}

} // verus!
