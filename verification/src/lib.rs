//! Ingress front-end of a wearable device's firmware.
//!
//! The library reframes an unbounded byte stream into discrete messages
//! (notifications, syscalls, application loads), decodes the ASCII-hex
//! sub-encoding used by the firmware-loading path, and dispatches each
//! completed frame to the collaborator responsible for it.  A companion
//! module multiplexes the three touch-sense inputs into input events.
//!
//! The engine's behaviour is specified by a byte-step model (`step`/`run`
//! in `ingress_manager`); `process` is proved to realize that model, and
//! the protocol's guarantees are proved of the model in `laws`.

pub mod buffer;
pub mod errors;
pub mod hex;
pub mod ingress_manager;
pub mod input;
pub mod laws;
pub mod queue;
pub mod syscall;
pub mod system;
