//! The instruction-memory component: a pure instruction fetch.
//! Every access reads a full word, big-endian, never signed, and the
//! store is never written during evaluation.

use vstd::prelude::*;
use crate::mem::{addr_out_of_range, read_wire};
use crate::memory::{read_spec, Memory};
use crate::signal::{Condition, SignalValue};
use crate::state::{upsert, wire_value, SimState, StateModel};
use crate::wiring::{Id, Input, InputPort, OutputType, Ports};

verus! {

/// The instruction-memory component.
#[derive(Debug)]
pub struct InstrMem {
    pub id: Id,
    pub a_in: Input,
    pub memory: Memory,
}

/// The condition surfaced by an `InstrMem` tick: the address wire
/// must carry a concrete word and the fetched word must lie inside
/// the addressable space.
pub open spec fn instr_mem_step_result(c: InstrMem, st: StateModel) -> Result<(), Condition> {
    let a_v = wire_value(st, c.a_in);
    if !(a_v is Data) {
        Err(Condition::NotData)
    } else if addr_out_of_range(a_v->Data_0, 4) {
        Err(Condition::OutOfRange)
    } else {
        Ok(())
    }
}

/// The signal state after an `InstrMem` tick: the fetched
/// big-endian word is published on `"rd_out"`.
pub open spec fn instr_mem_step_state(c: InstrMem, st: StateModel) -> StateModel {
    if instr_mem_step_result(c, st) is Err {
        st
    } else {
        let a_v = wire_value(st, c.a_in);
        let value = SignalValue::Data(
            read_spec(c.memory@, a_v->Data_0 as int, 4, false, true) as u32,
        );
        upsert(st, c.id@, "rd_out"@, value)
    }
}

impl InstrMem {
    /// Creates an instruction memory with the given wiring and
    /// initial sparse contents.
    pub fn new(id: &str, a_in: Input, memory: std::collections::BTreeMap<usize, u8>) -> (r:
        InstrMem)
        ensures
            r.id@ == id@,
            r.a_in == a_in,
            r.memory@ == memory@,
    {
        InstrMem { id: id.to_owned(), a_in, memory: Memory::new(memory) }
    }

    /// Creates a reference-counted instruction memory whose store is
    /// seeded with a single zero byte at address zero.
    pub fn rc_new(id: &str, a_in: Input) -> (r: std::rc::Rc<InstrMem>)
        ensures
            r.id@ == id@,
            r.a_in == a_in,
            r.memory@ == Map::<usize, u8>::empty().insert(0usize, 0u8),
    {
        let mut mem: std::collections::BTreeMap<usize, u8> = std::collections::BTreeMap::new();
        mem.insert(0, 0u8);
        std::rc::Rc::new(InstrMem::new(id, a_in, mem))
    }

    /// Reports the component's identity, its single declared input
    /// and its single output `"rd_out"`.
    pub fn get_id_ports(&self) -> (r: (Id, Ports))
        ensures
            r.0 == self.id,
            r.1.inputs@.len() == 1,
            r.1.inputs@[0].port_id@ == "instr_mem_a_in"@,
            r.1.inputs@[0].input == self.a_in,
            r.1.out_type == OutputType::Combinatorial,
            r.1.outputs@.len() == 1,
            r.1.outputs@[0]@ == "rd_out"@,
    {
        let wire = Input { id: self.a_in.id.clone(), field: self.a_in.field.clone() };
        let port = InputPort { port_id: "instr_mem_a_in".to_owned(), input: wire };
        let outputs: Vec<Id> = vec!["rd_out".to_owned()];
        (self.id.clone(), Ports::new(vec![port], OutputType::Combinatorial, outputs))
    }

    /// Rebinds the address input; any other port name leaves the
    /// component untouched.
    pub fn set_id_port(&mut self, target_port_id: Id, new_input: Input)
        ensures
            final(self).id == old(self).id,
            final(self).memory == old(self).memory,
            target_port_id@ == "instr_mem_a_in"@ ==> final(self).a_in == new_input,
            target_port_id@ != "instr_mem_a_in"@ ==> final(self).a_in == old(self).a_in,
    {
        if target_port_id == "instr_mem_a_in".to_owned() {
            self.a_in = new_input;
        }
    }

    /// One tick: fetches the big-endian word at the address input
    /// and publishes it on `"rd_out"`.
    pub fn clock(&mut self, state: &mut SimState) -> (r: Result<(), Condition>)
        ensures
            r == instr_mem_step_result(*old(self), old(state)@),
            final(state)@ == instr_mem_step_state(*old(self), old(state)@),
            *final(self) == *old(self),
    {
        let a_v = read_wire(state, &self.a_in);
        let a_u: u32 = match a_v.try_to_unsigned() {
            Ok(v) => v,
            Err(c) => { return Err(c); },
        };
        let addr_us: usize = a_u as usize;
        if addr_us > usize::MAX - 3 {
            return Err(Condition::OutOfRange);
        }
        let value = self.memory.read(addr_us, 4, false, true);
        let rd_name: String = "rd_out".to_owned();
        state.set_out(&self.id, &rd_name, value);
        Ok(())
    }
}

} // verus!
