//! Host-side protocol engine for a microcontroller that exposes its pins
//! through a line-oriented text protocol.
//!
//! The engine never touches a transport. It encodes commands, decodes status
//! lines, keeps the intended and the confirmed pin tables apart, and tells its
//! caller which transport operation to perform next.

pub mod banner;
pub mod command;
pub mod echo;
pub mod line;
pub mod number;
pub mod pwm_streamer;
pub mod run;
pub mod scan;
pub mod session;
pub mod store;
pub mod text;
pub mod values;

pub use values::{PicoGPIOVersion, PinInput, PinValueRead, PinValueWrite};
pub use line::{ProtocolError, Update};
pub use pwm_streamer::{PwmStreamMode, PwmStreamer};
pub use session::{Goal, Phase, PicoGPIO, Reply, Request, DEFAULT_PINS};
pub use store::Tables;
