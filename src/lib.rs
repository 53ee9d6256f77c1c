//! Text commands turned into MIDI writes for a real-time callback: the message
//! encoding, the command decoding, the pending-command channel, the device
//! initialization sequence, and the decisions of each processing cycle.

pub mod channel;
pub mod command;
pub mod dispatch;
pub mod init;
pub mod midi;
pub mod relay;
pub mod text;
