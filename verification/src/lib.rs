//! Binary command codec for a remote-controlled vehicle's serial link.
//!
//! A small closed set of control commands (motor start/stop, LED toggle,
//! motion-state query/report) is mapped to and from a compact byte
//! representation: a one-byte tag followed by a fixed-order payload whose
//! layout the tag alone determines. The raw bytes are handed to an external
//! byte-stuffing framing layer for transmission boundary delimiting; the
//! codec itself assumes nothing about the framing layer's escaping rules.

pub mod buffer;
pub mod codec;
pub mod slip;
pub mod types;

pub use types::Command;
pub use types::CodecError;
pub use types::MotionVector;
pub use types::MotorPosition;
pub use types::MotorState;
pub use types::Revision;
