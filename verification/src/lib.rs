//! Lighting control for a Logitech G610 keyboard: the report encoding, the
//! key table and the write sequences of each lighting operation.

pub mod cli;
pub mod command;
pub mod keyboard;
pub mod keys;
pub mod scale;
