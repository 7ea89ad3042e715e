//! A CHIP-8 interpreter: the fetch-decode-execute cycle, the
//! processor/memory/register data model, and the display-buffer mutation
//! rules, with machine-checked contracts for every instruction.
//!
//! The front end (windowing, pixel rendering, key capture, pacing) is an
//! external collaborator: it drives the interpreter through plain values
//! (key events in, display frames out) and never touches the machine state.

pub mod model;
pub mod decode;
pub mod semantics;
pub mod vm;
mod cycle;
mod rng;
