//! Wiring descriptors: component identifiers, references to a
//! producer's named output, and the port declaration every component
//! publishes for introspection.

use vstd::prelude::*;

verus! {

/// An opaque string naming a component instance; unique within a
/// component store.
pub type Id = String;

/// A reference to `(producer id, output name)`.  Not an ownership
/// relation: it is a lookup key resolved against the simulator's
/// current-state mapping every tick.
#[derive(Clone, Debug)]
pub struct Input {
    pub id: Id,
    pub field: Id,
}

impl View for Input {
    type V = (Seq<char>, Seq<char>);

    open spec fn view(&self) -> (Seq<char>, Seq<char>) {
        (self.id@, self.field@)
    }
}

impl Input {
    /// Builds a wire reference to the output `field` of the
    /// component named `id`.
    pub fn new(id: &str, field: &str) -> (r: Input)
        ensures
            r.id@ == id@,
            r.field@ == field@,
    {
        Input { id: id.to_owned(), field: field.to_owned() }
    }
}

/// A declared input of a component: a stable local port name paired
/// with the wire it is currently bound to.
#[derive(Clone, Debug)]
pub struct InputPort {
    pub port_id: Id,
    pub input: Input,
}

/// Whether a component's outputs are a pure function of this tick's
/// inputs or reflect state latched at a previous tick.
#[derive(Clone, Copy, Debug, PartialEq, Eq, Structural)]
pub enum OutputType {
    Combinatorial,
    Sequential,
}

/// The port declaration of a component: its ordered declared inputs,
/// the timing classification of its outputs, and its ordered output
/// names.
#[derive(Clone, Debug)]
pub struct Ports {
    pub inputs: Vec<InputPort>,
    pub out_type: OutputType,
    pub outputs: Vec<Id>,
}

impl Ports {
    /// Assembles a port declaration from its parts.
    pub fn new(inputs: Vec<InputPort>, out_type: OutputType, outputs: Vec<Id>) -> (r: Ports)
        ensures
            r.inputs == inputs,
            r.out_type == out_type,
            r.outputs == outputs,
    {
        Ports { inputs, out_type, outputs }
    }
}

} // verus!
