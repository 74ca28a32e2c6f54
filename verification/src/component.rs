//! The component contract: every hardware block reports its ports,
//! lets construction tooling rebind an input, and executes one tick
//! against the shared signal state.
//!
//! Dispatch is a closed tagged variant set: one variant per hardware
//! block.  Callers that already know the concrete variant inspect a
//! component by matching on it.

use vstd::prelude::*;
use crate::data_mem::{
    data_mem_step_hist, data_mem_step_mem, data_mem_step_result, data_mem_step_state, DataMem,
};
use crate::instr_mem::{instr_mem_step_result, instr_mem_step_state, InstrMem};
use crate::mem::{mem_step_mem, mem_step_result, mem_step_state, Mem};
use crate::probe::{probe_out_step, Probe, ProbeOut};
use crate::signal::{Condition, SignalValue};
use crate::state::{lemma_upsert_preserves_resolution, SimState, StateModel};
use crate::wiring::{Id, Input, InputPort, OutputType, Ports};

verus! {

/// A hardware block of the netlist.
#[derive(Debug)]
pub enum Component {
    ProbeOut(ProbeOut),
    Probe(Probe),
    Mem(Mem),
    DataMem(DataMem),
    InstrMem(InstrMem),
}

/// The identity of a component.
pub open spec fn comp_id(c: Component) -> Seq<char> {
    match c {
        Component::ProbeOut(p) => p.id@,
        Component::Probe(p) => p.id@,
        Component::Mem(m) => m.id@,
        Component::DataMem(d) => d.id@,
        Component::InstrMem(i) => i.id@,
    }
}

/// The ordered output names a component declares.
pub open spec fn comp_outputs(c: Component) -> Seq<Seq<char>> {
    match c {
        Component::ProbeOut(_) => seq!["out"@],
        Component::Probe(_) => Seq::empty(),
        Component::Mem(_) => seq!["data"@, "err"@],
        Component::DataMem(_) => seq!["rd_out"@],
        Component::InstrMem(_) => seq!["rd_out"@],
    }
}

/// The result of one tick of a component against a given state.
pub open spec fn comp_step_result(c: Component, st: StateModel) -> Result<(), Condition> {
    match c {
        Component::ProbeOut(_) => Ok(()),
        Component::Probe(_) => Ok(()),
        Component::Mem(m) => mem_step_result(m, st),
        Component::DataMem(d) => data_mem_step_result(d, st),
        Component::InstrMem(i) => instr_mem_step_result(i, st),
    }
}

/// The signal state after one tick of a component.
pub open spec fn comp_step_state(c: Component, st: StateModel) -> StateModel {
    match c {
        Component::ProbeOut(p) => probe_out_step(p, st),
        Component::Probe(_) => st,
        Component::Mem(m) => mem_step_state(m, st),
        Component::DataMem(d) => data_mem_step_state(d, st),
        Component::InstrMem(i) => instr_mem_step_state(i, st),
    }
}

/// How a component's own private state evolves over one tick:
/// `post` is `pre` with its memory contents and history advanced,
/// and everything else (identity, wiring, configuration) unchanged.
pub open spec fn comp_step_ok(pre: Component, st: StateModel, post: Component) -> bool {
    match (pre, post) {
        (Component::ProbeOut(a), Component::ProbeOut(b)) => b == a,
        (Component::Probe(a), Component::Probe(b)) => b == a,
        (Component::Mem(a), Component::Mem(b)) => {
            &&& b.id == a.id
            &&& b.big_endian == a.big_endian
            &&& b.data == a.data
            &&& b.addr == a.addr
            &&& b.ctrl == a.ctrl
            &&& b.sign == a.sign
            &&& b.size == a.size
            &&& b.memory@ == mem_step_mem(a, st)
        },
        (Component::DataMem(a), Component::DataMem(b)) => {
            &&& b.id == a.id
            &&& b.a_in == a.a_in
            &&& b.op_in == a.op_in
            &&& b.wd_in == a.wd_in
            &&& b.we_in == a.we_in
            &&& b.big_endian == a.big_endian
            &&& b.memory@ == data_mem_step_mem(a, st)
            &&& b.history@ == data_mem_step_hist(a, st)
        },
        (Component::InstrMem(a), Component::InstrMem(b)) => b == a,
        _ => false,
    }
}

/// A component's tick never removes a key from the signal state:
/// everything that resolved before the tick still resolves after it.
pub proof fn lemma_comp_step_preserves_resolution(
    c: Component,
    st: StateModel,
    id: Seq<char>,
    field: Seq<char>,
)
    requires
        crate::state::resolves(st, id, field),
    ensures
        crate::state::resolves(comp_step_state(c, st), id, field),
{
    match c {
        Component::ProbeOut(p) => {
            match crate::state::lookup(st, p.id@, "out"@) {
                Some(SignalValue::Uninitialized) => {
                    lemma_upsert_preserves_resolution(
                        st,
                        p.id@,
                        "out"@,
                        SignalValue::Data(0),
                        id,
                        field,
                    );
                },
                Some(_) => {},
                None => {
                    lemma_upsert_preserves_resolution(
                        st,
                        p.id@,
                        "out"@,
                        SignalValue::Data(0),
                        id,
                        field,
                    );
                },
            }
        },
        Component::Probe(_) => {},
        Component::Mem(m) => {
            if mem_step_result(m, st) is Ok {
                let ctrl_v = crate::state::wire_value(st, m.ctrl.input);
                match crate::mem::ctrl_decode(ctrl_v->Data_0) {
                    Some(crate::mem::MemCtrl::Read) => {
                        let addr_v = crate::state::wire_value(st, m.addr.input);
                        let size_v = crate::state::wire_value(st, m.size.input);
                        let sign_v = crate::state::wire_value(st, m.sign.input);
                        let a = addr_v->Data_0 as int;
                        let sz = size_v->Data_0 as int;
                        let value = SignalValue::Data(
                            crate::memory::read_spec(
                                m.memory@,
                                a,
                                sz,
                                sign_v->Data_0 != 0,
                                m.big_endian,
                            ) as u32,
                        );
                        lemma_upsert_preserves_resolution(st, m.id@, "data"@, value, id, field);
                        lemma_upsert_preserves_resolution(
                            crate::state::upsert(st, m.id@, "data"@, value),
                            m.id@,
                            "err"@,
                            crate::mem::align_flag(a, sz),
                            id,
                            field,
                        );
                    },
                    Some(crate::mem::MemCtrl::Write) => {
                        let addr_v = crate::state::wire_value(st, m.addr.input);
                        let size_v = crate::state::wire_value(st, m.size.input);
                        lemma_upsert_preserves_resolution(
                            st,
                            m.id@,
                            "err"@,
                            crate::mem::align_flag(
                                addr_v->Data_0 as int,
                                size_v->Data_0 as int,
                            ),
                            id,
                            field,
                        );
                    },
                    _ => {},
                }
            }
        },
        Component::DataMem(d) => {
            if data_mem_step_result(d, st) is Ok {
                let op_v = crate::state::wire_value(st, d.op_in);
                match crate::data_mem::op_decode(op_v->Data_0) {
                    Some((sign, size)) => {
                        let a_v = crate::state::wire_value(st, d.a_in);
                        let value = SignalValue::Data(
                            crate::memory::read_spec(
                                data_mem_step_mem(d, st),
                                a_v->Data_0 as int,
                                size as int,
                                sign,
                                d.big_endian,
                            ) as u32,
                        );
                        lemma_upsert_preserves_resolution(st, d.id@, "rd_out"@, value, id, field);
                    },
                    None => {},
                }
            }
        },
        Component::InstrMem(im) => {
            if instr_mem_step_result(im, st) is Ok {
                let a_v = crate::state::wire_value(st, im.a_in);
                let value = SignalValue::Data(
                    crate::memory::read_spec(im.memory@, a_v->Data_0 as int, 4, false, true) as u32,
                );
                lemma_upsert_preserves_resolution(st, im.id@, "rd_out"@, value, id, field);
            }
        },
    }
}

/// The declared input ports of a component: the stable local port
/// names paired with the wires they are currently bound to, in
/// declaration order.
pub open spec fn comp_input_ports(c: Component) -> Seq<(Seq<char>, Input)> {
    match c {
        Component::ProbeOut(_) => Seq::empty(),
        Component::Probe(p) => seq![("in"@, p.input)],
        Component::Mem(m) => seq![
            (m.data.port_id@, m.data.input),
            (m.addr.port_id@, m.addr.input),
            (m.ctrl.port_id@, m.ctrl.input),
            (m.sign.port_id@, m.sign.input),
            (m.size.port_id@, m.size.input),
        ],
        Component::DataMem(d) => seq![
            ("data_mem_a_in"@, d.a_in),
            ("data_mem_a2_in"@, d.op_in),
            ("data_mem_wd_in"@, d.wd_in),
            ("data_mem_we_in"@, d.we_in),
        ],
        Component::InstrMem(i) => seq![("instr_mem_a_in"@, i.a_in)],
    }
}

/// The component after the port named `target` is rebound to
/// `input`: exactly the matching variant's rebinding, with every
/// other part of the component untouched.  The probes declare no
/// rebindable port and are left as they are.
pub open spec fn comp_rebind(pre: Component, target: Seq<char>, input: Input) -> Component {
    match pre {
        Component::ProbeOut(p) => Component::ProbeOut(p),
        Component::Probe(p) => Component::Probe(p),
        Component::Mem(m) => Component::Mem(
            Mem {
                data: if target == "data"@ {
                    InputPort { input, ..m.data }
                } else {
                    m.data
                },
                addr: if target == "addr"@ {
                    InputPort { input, ..m.addr }
                } else {
                    m.addr
                },
                ctrl: if target == "ctrl"@ {
                    InputPort { input, ..m.ctrl }
                } else {
                    m.ctrl
                },
                sign: if target == "sign"@ {
                    InputPort { input, ..m.sign }
                } else {
                    m.sign
                },
                size: if target == "size"@ {
                    InputPort { input, ..m.size }
                } else {
                    m.size
                },
                ..m
            },
        ),
        Component::DataMem(d) => Component::DataMem(
            DataMem {
                a_in: if target == "data_mem_a_in"@ {
                    input
                } else {
                    d.a_in
                },
                op_in: if target == "data_mem_a2_in"@ {
                    input
                } else {
                    d.op_in
                },
                wd_in: if target == "data_mem_wd_in"@ {
                    input
                } else {
                    d.wd_in
                },
                we_in: if target == "data_mem_we_in"@ {
                    input
                } else {
                    d.we_in
                },
                ..d
            },
        ),
        Component::InstrMem(i) => Component::InstrMem(
            InstrMem {
                a_in: if target == "instr_mem_a_in"@ {
                    input
                } else {
                    i.a_in
                },
                ..i
            },
        ),
    }
}

/// A component advanced by a step keeps its identity.
pub proof fn lemma_comp_step_ok_same_id(pre: Component, st: StateModel, post: Component)
    requires
        comp_step_ok(pre, st, post),
    ensures
        comp_id(post) == comp_id(pre),
        comp_outputs(post) == comp_outputs(pre),
{
}

impl Component {
    /// The component's identity, as an owned string.
    pub fn id_string(&self) -> (r: Id)
        ensures
            r@ == comp_id(*self),
    {
        match self {
            Component::ProbeOut(p) => p.id.clone(),
            Component::Probe(p) => p.id.clone(),
            Component::Mem(m) => m.id.clone(),
            Component::DataMem(d) => d.id.clone(),
            Component::InstrMem(i) => i.id.clone(),
        }
    }

    /// Reports the component's identity and port declaration: its
    /// declared inputs in order, its output-timing tag, and its
    /// output names in order.
    pub fn get_id_ports(&self) -> (r: (Id, Ports))
        ensures
            r.0@ == comp_id(*self),
            r.1.inputs@.map_values(|p: InputPort| (p.port_id@, p.input)) == comp_input_ports(
                *self,
            ),
            r.1.out_type == OutputType::Combinatorial,
            r.1.outputs@.map_values(|s: Id| s@) == comp_outputs(*self),
    {
        let r = match self {
            Component::ProbeOut(p) => p.get_id_ports(),
            Component::Probe(p) => p.get_id_ports(),
            Component::Mem(m) => m.get_id_ports(),
            Component::DataMem(d) => d.get_id_ports(),
            Component::InstrMem(i) => i.get_id_ports(),
        };
        proof {
            assert(r.1.inputs@.map_values(|p: InputPort| (p.port_id@, p.input))
                =~= comp_input_ports(*self));
            assert(r.1.outputs@.map_values(|s: Id| s@) =~= comp_outputs(*self));
        }
        r
    }

    /// Rebinds one declared input to a new producer; used only by
    /// netlist-construction tooling, never during evaluation.
    pub fn set_id_port(&mut self, target_port_id: Id, new_input: Input)
        ensures
            *final(self) == comp_rebind(*old(self), target_port_id@, new_input),
            comp_id(*final(self)) == comp_id(*old(self)),
            comp_outputs(*final(self)) == comp_outputs(*old(self)),
    {
        match self {
            Component::ProbeOut(_) => {},
            Component::Probe(_) => {},
            Component::Mem(m) => m.set_id_port(target_port_id, new_input),
            Component::DataMem(d) => d.set_id_port(target_port_id, new_input),
            Component::InstrMem(i) => i.set_id_port(target_port_id, new_input),
        }
    }

    /// One tick: reads the declared inputs from the shared state,
    /// computes, writes the declared outputs back, and advances the
    /// component's private state.
    pub fn clock(&mut self, state: &mut SimState) -> (r: Result<(), Condition>)
        ensures
            r == comp_step_result(*old(self), old(state)@),
            final(state)@ == comp_step_state(*old(self), old(state)@),
            comp_step_ok(*old(self), old(state)@, *final(self)),
    {
        match self {
            Component::ProbeOut(p) => p.clock(state),
            Component::Probe(p) => p.clock(state),
            Component::Mem(m) => m.clock(state),
            Component::DataMem(d) => d.clock(state),
            Component::InstrMem(i) => i.clock(state),
        }
    }
}

} // verus!
