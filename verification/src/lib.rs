//! Client side of the AnyBar status indicator.
//!
//! The indicator listens on a UDP port of the local machine and takes short
//! ASCII commands: the name of a colour, or `quit`. This crate holds the
//! handle for one indicator, the encoding of the commands, and the datagrams
//! that carry them. It performs no input or output itself: the caller
//! transmits each [`Datagram`] and reports back whether that succeeded.

pub mod color;
pub mod error;
pub mod handle;
pub mod wire;

pub use color::Color;
pub use error::AnybarError;
pub use handle::Anybar;
pub use wire::Datagram;
pub use wire::Endpoint;
