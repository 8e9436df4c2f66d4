//! A virtual machine for a small 8-bit interpreted instruction set: the
//! instruction decoder, the display buffer, the input latch, the execution
//! engine and the decisions of the scheduler that drives it.

pub mod audio;
pub mod error;
pub mod font;
pub mod instruction;
pub mod keyboard;
pub mod keymap;
pub mod laws;
pub mod machine;
pub mod rom;
pub mod scheduler;
pub mod state;
pub mod video;
