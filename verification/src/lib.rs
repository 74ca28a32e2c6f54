//! Core of a cycle-driven simulator for digital hardware netlists.
//!
//! A netlist is an ordered collection of components (signal sources,
//! memories, probes) wired together by name.  The simulator owns the
//! current value of every named output and advances the whole graph by
//! one evaluation sweep per clock tick.  The memory subsystem provides
//! sized, signed/unsigned, endian-aware access to a sparse byte store
//! together with misalignment detection.

pub mod component;
pub mod data_mem;
pub mod instr_mem;
pub mod mem;
pub mod memory;
pub mod probe;
pub mod signal;
pub mod simulator;
pub mod state;
pub mod wiring;

pub use crate::component::Component;
pub use crate::data_mem::{DataMem, MemOp};
pub use crate::instr_mem::InstrMem;
pub use crate::mem::{Mem, MemCtrl};
pub use crate::memory::Memory;
pub use crate::probe::{Probe, ProbeOut};
pub use crate::signal::{Condition, SignalSigned, SignalUnsigned, SignalValue};
pub use crate::simulator::{ComponentStore, Simulator};
pub use crate::state::SimState;
pub use crate::wiring::{Id, Input, InputPort, OutputType, Ports};
