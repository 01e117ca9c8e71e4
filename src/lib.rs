//! A CHIP-8 interpreter core: machine state, instruction decoding and
//! instruction semantics, with every step's effect stated as a contract.
pub mod instructions;
pub mod laws;
pub mod machine;
pub mod rom;
pub mod screen;

pub use instructions::{parse_instruction, Instruction, Operation};
pub use machine::{Machine, MachineError};
pub use rom::Rom;
pub use screen::Screen;
