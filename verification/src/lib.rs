//! Serial-monitor core: a line-oriented parsing pipeline and a port
//! lifecycle model for serial-like transports.
//!
//! A transport produces raw [`Message`]s; the [`Parser`] extracts fields
//! from a message's text with a capture pattern, resolves a value and an
//! optional label expression, and emits a [`Point`]; points accumulate in
//! a [`PointBuffer`] for display. The [`SerialPort`] trait states the
//! open/read/write/close contract that every transport backend obeys.

pub mod data;
pub mod error;
pub mod number;
pub mod parser;
pub mod serial;
pub mod system;
pub mod text;

pub use data::{Direction, Message, Point, PointBuffer, Timestamp};
pub use error::Error;
pub use number::Number;
pub use parser::Parser;
pub use serial::{MemorySerialPort, PortConfig, PortInfo, PortState, PortType, SerialPort,
    SerialPortConfig};
pub use system::TimeSource;
