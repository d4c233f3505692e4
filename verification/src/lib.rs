//! A CHIP-8 virtual machine: machine state, instruction decoding and the
//! semantics of every instruction, together with the host-independent parts
//! of the input and display collaborators.

pub mod decode;
pub mod rng;
pub mod machine;
pub mod semantics;
pub mod chip8;
pub mod theorems;
pub mod input;
pub mod video;
