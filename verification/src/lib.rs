//! A CHIP-8 interpreter core: opcode decoding, the processor, the display buffer, the
//! delay and sound timers and the keypad, each with a contract proved by Verus.

pub mod cpu;
pub mod delay_timer;
pub mod execution_laws;
pub mod font;
pub mod frame;
pub mod instruction_laws;
pub mod instructions;
pub mod keypad;
pub mod laws;
mod random;
pub mod screen;
pub mod state;
