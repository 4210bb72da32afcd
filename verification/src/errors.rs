//! Error taxonomy of the ingress engine and its collaborators.

use vstd::prelude::*;

verus! {

/// Conditions the ingress engine itself reports.
#[derive(Debug, Copy, Clone, PartialEq, Eq, Structural)]
pub enum IngressError {
    /// The byte queue was offered more bytes than it has room for: the
    /// producer is outrunning the consumer, fatal for the link.
    QueueOverflow,
    /// The frame buffer's fixed capacity was exceeded mid-frame: fatal,
    /// since dropping bytes would corrupt framing.
    BufferFull,
    /// A character of a hex pair was no ASCII hex digit; the frame is
    /// abandoned and the engine waits for the next frame start.
    InvalidHexDigit,
}

/// Conditions the application (firmware-load) manager reports.
#[derive(Debug, Copy, Clone, PartialEq, Eq, Structural)]
pub enum AppError {
    /// The checksum field already holds a full checksum.
    ChecksumFull,
    /// The staging memory for firmware bytes is full.
    RamFull,
    /// The staged load is not a complete, checksummed image.
    VerifyFailed,
}

/// Conditions the notification manager reports.
#[derive(Debug, Copy, Clone, PartialEq, Eq, Structural)]
pub enum NotificationError {
    /// The notification store is full; the notification is dropped.
    StorageFull,
}

/// Conditions the syscall parser reports.
#[derive(Debug, Copy, Clone, PartialEq, Eq, Structural)]
pub enum SyscallError {
    /// The frame body is no well-formed syscall command.
    Malformed,
}

} // verus!
