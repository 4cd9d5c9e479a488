//! An interpreter for the CHIP-8 virtual machine: 4 KiB of RAM, sixteen
//! 8-bit registers, a call stack, two 60 Hz timers, a 64x32 monochrome
//! screen and a sixteen-key hex keypad.
//!
//! [`ChipEight`] is the machine. Its contracts are stated over [`Machine`],
//! the state as a plain mathematical value with one function for each
//! instruction; the module `laws` proves what follows from those functions.
pub mod chip8;
pub mod font;
pub mod host;
pub mod keypad;
pub mod laws;
pub mod model;
pub mod opcode;
pub mod random;

pub use chip8::ChipEight;
pub use host::find_sdl_gl_driver;
pub use keypad::{HostEvent, HostKey, Keypad, Polled};
pub use model::{Machine, Progress};
pub use opcode::{decode, Fault, Opcode};
