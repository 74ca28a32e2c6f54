//! Probe components: a poke-able stimulus source and a passive
//! observer.  Neither performs any computation during a tick.

use vstd::prelude::*;
use crate::signal::SignalValue;
use crate::state::{lookup, upsert, SimState, StateModel};
use crate::wiring::{Id, Input, InputPort, OutputType, Ports};

verus! {

/// A stimulus source with a single output `"out"`.  Its output
/// defaults to `Data(0)` until external tooling pokes another value;
/// a poked value is left untouched by subsequent ticks.
#[derive(Debug)]
pub struct ProbeOut {
    pub id: Id,
}

/// The state after a `ProbeOut` tick: its output is seeded with
/// `Data(0)` while no concrete stimulus has been poked, and kept as
/// it is otherwise.
pub open spec fn probe_out_step(c: ProbeOut, st: StateModel) -> StateModel {
    match lookup(st, c.id@, "out"@) {
        Some(SignalValue::Uninitialized) => upsert(st, c.id@, "out"@, SignalValue::Data(0)),
        Some(_) => st,
        None => upsert(st, c.id@, "out"@, SignalValue::Data(0)),
    }
}

impl ProbeOut {
    /// Creates a stimulus source named `id`.
    pub fn new(id: &str) -> (r: ProbeOut)
        ensures
            r.id@ == id@,
    {
        ProbeOut { id: id.to_owned() }
    }

    /// Reports the component's identity and its single output.
    pub fn get_id_ports(&self) -> (r: (Id, Ports))
        ensures
            r.0 == self.id,
            r.1.inputs@.len() == 0,
            r.1.out_type == OutputType::Combinatorial,
            r.1.outputs@.len() == 1,
            r.1.outputs@[0]@ == "out"@,
    {
        (
            self.id.clone(),
            Ports::new(Vec::new(), OutputType::Combinatorial, vec!["out".to_owned()]),
        )
    }

    /// One tick: seeds the output with `Data(0)` if nothing has been
    /// driven onto it yet.
    pub fn clock(&mut self, state: &mut SimState) -> (r: Result<(), crate::signal::Condition>)
        ensures
            r == Result::<(), crate::signal::Condition>::Ok(()),
            final(state)@ == probe_out_step(*old(self), old(state)@),
            *final(self) == *old(self),
    {
        let probe_wire = Input::new(self.id.as_str(), "out");
        let out_name: String = "out".to_owned();
        match state.get_input(&probe_wire) {
            Some(SignalValue::Uninitialized) => {
                state.set_out(&self.id, &out_name, SignalValue::Data(0));
            },
            Some(_) => {},
            None => {
                state.set_out(&self.id, &out_name, SignalValue::Data(0));
            },
        }
        Ok(())
    }
}

/// A passive observer of a single wire; it declares no output and
/// leaves all state untouched.
#[derive(Debug)]
pub struct Probe {
    pub id: Id,
    pub input: Input,
}

impl Probe {
    /// Creates an observer named `id` watching `input`.
    pub fn new(id: &str, input: Input) -> (r: Probe)
        ensures
            r.id@ == id@,
            r.input == input,
    {
        Probe { id: id.to_owned(), input }
    }

    /// Reports the component's identity, its single declared input
    /// and its empty output list.
    pub fn get_id_ports(&self) -> (r: (Id, Ports))
        ensures
            r.0 == self.id,
            r.1.inputs@.len() == 1,
            r.1.inputs@[0].port_id@ == "in"@,
            r.1.inputs@[0].input == self.input,
            r.1.out_type == OutputType::Combinatorial,
            r.1.outputs@.len() == 0,
    {
        let wire = Input { id: self.input.id.clone(), field: self.input.field.clone() };
        let port = InputPort { port_id: "in".to_owned(), input: wire };
        (self.id.clone(), Ports::new(vec![port], OutputType::Combinatorial, Vec::new()))
    }

    /// One tick: a probe computes nothing and writes nothing.
    pub fn clock(&mut self, state: &mut SimState) -> (r: Result<(), crate::signal::Condition>)
        ensures
            r == Result::<(), crate::signal::Condition>::Ok(()),
            final(state)@ == old(state)@,
            *final(self) == *old(self),
    {
        Ok(())
    }
}

} // verus!
