//! Host side of the Bluetooth HCI for a controller behind a byte stream.
//!
//! - [`data`]: the binary codec over fixed-capacity buffers.
//! - [`command`] and [`event`]: the typed commands and events, and how an
//!   event is matched to the command that caused it.
//! - [`frame`]: how commands and events lie on the wire.
//! - [`engine`]: the flow control: the controller's credit, the one
//!   outstanding command, the one deferred command and the one frame held
//!   back.
//!
//! Nothing here reads or writes a transport. The engine is handed the
//! frames that arrived and hands back the frames to send.

pub mod command;
pub mod data;
pub mod engine;
pub mod event;
pub mod frame;
mod private;

pub use engine::{
    Ble, BleError, CommandReceiptIndicator, Completion, ParseError, PollBehavior, QueueLock,
    QueueSlot,
};
