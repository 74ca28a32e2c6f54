//! The data-memory component: decodes an opcode-like control word
//! into an access width and sign mode, performs at most one write
//! followed by the corresponding read each tick, and publishes the
//! read value as its sole output.  A write targeting address zero is
//! silently discarded (the "register zero is immutable" convention).

use vstd::prelude::*;
use crate::mem::{addr_out_of_range, read_wire};
use crate::memory::{data_word, read_spec, write_spec, Memory};
use crate::signal::{Condition, SignalValue};
use crate::state::{upsert, wire_value, SimState, StateModel};
use crate::wiring::{Id, Input, InputPort, OutputType, Ports};

verus! {

/// One history record: the previous value found at the accessed
/// range before a write tick (or an empty record for a tick without
/// write enable).
#[derive(Clone, Copy, Debug, PartialEq, Eq, Structural)]
pub struct MemOp {
    pub data: Option<usize>,
    pub addr: usize,
    pub size: u8,
}

/// Decode of the control word: `None` marks a recognized but
/// unimplemented operation; otherwise the result is the `(sign,
/// size)` pair for the access.  Unrecognized codes default to an
/// unsigned full-word access.
pub open spec fn op_decode(op: u32) -> Option<(bool, u32)> {
    if op == 0b10_0000 {  // load byte
        Some((true, 1))
    } else if op == 0b10_0001 {  // load halfword
        Some((true, 2))
    } else if op == 0b10_0010 {  // load word left: unimplemented
        None
    } else if op == 0b10_0011 {  // load word
        Some((false, 4))
    } else if op == 0b10_0100 {  // load byte unsigned
        Some((false, 1))
    } else if op == 0b10_0101 {  // load halfword unsigned
        Some((false, 2))
    } else if op == 0b10_0110 {  // load word right: unimplemented
        None
    } else {
        Some((false, 4))
    }
}

/// The data-memory component.
#[derive(Debug)]
pub struct DataMem {
    pub id: Id,
    pub a_in: Input,
    pub op_in: Input,
    pub wd_in: Input,
    pub we_in: Input,
    pub big_endian: bool,
    pub memory: Memory,
    pub history: Vec<MemOp>,
}

/// The condition surfaced by a `DataMem` tick: address, control and
/// write-enable must carry concrete words; the control code must be
/// implemented; the access must stay inside the addressable space;
/// an enabled write to a nonzero address needs concrete write data.
pub open spec fn data_mem_step_result(c: DataMem, st: StateModel) -> Result<(), Condition> {
    let a_v = wire_value(st, c.a_in);
    let op_v = wire_value(st, c.op_in);
    let wd_v = wire_value(st, c.wd_in);
    let we_v = wire_value(st, c.we_in);
    if !(a_v is Data) {
        Err(Condition::NotData)
    } else if !(op_v is Data) {
        Err(Condition::NotData)
    } else if !(we_v is Data) {
        Err(Condition::NotData)
    } else {
        match op_decode(op_v->Data_0) {
            None => Err(Condition::Unimplemented),
            Some((sign, size)) => {
                if addr_out_of_range(a_v->Data_0, size) {
                    Err(Condition::OutOfRange)
                } else if we_v->Data_0 == 1 && a_v->Data_0 != 0 && !(wd_v is Data) {
                    Err(Condition::NotData)
                } else {
                    Ok(())
                }
            },
        }
    }
}

/// The memory contents after a `DataMem` tick: only an enabled write
/// to a nonzero address changes them; a write targeting address zero
/// is discarded.
pub open spec fn data_mem_step_mem(c: DataMem, st: StateModel) -> Map<usize, u8> {
    if data_mem_step_result(c, st) is Err {
        c.memory@
    } else {
        let a_v = wire_value(st, c.a_in);
        let op_v = wire_value(st, c.op_in);
        let wd_v = wire_value(st, c.wd_in);
        let we_v = wire_value(st, c.we_in);
        match op_decode(op_v->Data_0) {
            Some((sign, size)) => {
                if we_v->Data_0 == 1 && a_v->Data_0 != 0 {
                    write_spec(
                        c.memory@,
                        a_v->Data_0 as int,
                        size as int,
                        c.big_endian,
                        data_word(wd_v),
                    )
                } else {
                    c.memory@
                }
            },
            None => c.memory@,
        }
    }
}

/// The signal state after a `DataMem` tick: the read (performed
/// after the write of the same tick) is published on `"rd_out"`.
pub open spec fn data_mem_step_state(c: DataMem, st: StateModel) -> StateModel {
    if data_mem_step_result(c, st) is Err {
        st
    } else {
        let a_v = wire_value(st, c.a_in);
        let op_v = wire_value(st, c.op_in);
        match op_decode(op_v->Data_0) {
            Some((sign, size)) => {
                let value = SignalValue::Data(
                    read_spec(
                        data_mem_step_mem(c, st),
                        a_v->Data_0 as int,
                        size as int,
                        sign,
                        c.big_endian,
                    ) as u32,
                );
                upsert(st, c.id@, "rd_out"@, value)
            },
            None => st,
        }
    }
}

/// The history after a `DataMem` tick: a write tick records the
/// previous (unsigned) value at the accessed range; any other
/// successful tick records an empty entry.
pub open spec fn data_mem_step_hist(c: DataMem, st: StateModel) -> Seq<MemOp> {
    if data_mem_step_result(c, st) is Err {
        c.history@
    } else {
        let a_v = wire_value(st, c.a_in);
        let op_v = wire_value(st, c.op_in);
        let we_v = wire_value(st, c.we_in);
        match op_decode(op_v->Data_0) {
            Some((sign, size)) => {
                if we_v->Data_0 == 1 {
                    c.history@.push(
                        MemOp {
                            data: Some(
                                read_spec(
                                    c.memory@,
                                    a_v->Data_0 as int,
                                    size as int,
                                    false,
                                    c.big_endian,
                                ) as usize,
                            ),
                            addr: a_v->Data_0 as usize,
                            size: size as u8,
                        },
                    )
                } else {
                    c.history@.push(MemOp { data: None, addr: 0, size: 0 })
                }
            },
            None => c.history@,
        }
    }
}

/// Zero-register write suppression: an enabled write whose address
/// is zero leaves the memory contents exactly as they were.
pub proof fn lemma_zero_address_write_suppressed(c: DataMem, st: StateModel)
    requires
        wire_value(st, c.a_in) == SignalValue::Data(0),
        wire_value(st, c.we_in) == SignalValue::Data(1),
    ensures
        data_mem_step_mem(c, st) == c.memory@,
{
}

impl DataMem {
    /// Creates a data memory with the given wiring and initial
    /// sparse contents.
    pub fn new(
        id: &str,
        a_in: Input,
        op_in: Input,
        wd_in: Input,
        we_in: Input,
        big_endian: bool,
        memory: std::collections::BTreeMap<usize, u8>,
    ) -> (r: DataMem)
        ensures
            r.id@ == id@,
            r.a_in == a_in,
            r.op_in == op_in,
            r.wd_in == wd_in,
            r.we_in == we_in,
            r.big_endian == big_endian,
            r.memory@ == memory@,
            r.history@ == Seq::<MemOp>::empty(),
    {
        DataMem {
            id: id.to_owned(),
            a_in,
            op_in,
            wd_in,
            we_in,
            big_endian,
            memory: Memory::new(memory),
            history: Vec::new(),
        }
    }

    /// Creates a reference-counted data memory whose store is
    /// seeded with a single zero byte at address zero.
    pub fn rc_new(
        id: &str,
        a_in: Input,
        op_in: Input,
        wd_in: Input,
        we_in: Input,
        big_endian: bool,
    ) -> (r: std::rc::Rc<DataMem>)
        ensures
            r.id@ == id@,
            r.a_in == a_in,
            r.op_in == op_in,
            r.wd_in == wd_in,
            r.we_in == we_in,
            r.big_endian == big_endian,
            r.memory@ == Map::<usize, u8>::empty().insert(0usize, 0u8),
            r.history@ == Seq::<MemOp>::empty(),
    {
        let mut mem: std::collections::BTreeMap<usize, u8> = std::collections::BTreeMap::new();
        mem.insert(0, 0u8);
        std::rc::Rc::new(DataMem::new(id, a_in, op_in, wd_in, we_in, big_endian, mem))
    }

    /// Reports the component's identity, its four declared inputs
    /// and its single output `"rd_out"`.
    pub fn get_id_ports(&self) -> (r: (Id, Ports))
        ensures
            r.0 == self.id,
            r.1.inputs@.len() == 4,
            r.1.inputs@[0].port_id@ == "data_mem_a_in"@,
            r.1.inputs@[0].input == self.a_in,
            r.1.inputs@[1].port_id@ == "data_mem_a2_in"@,
            r.1.inputs@[1].input == self.op_in,
            r.1.inputs@[2].port_id@ == "data_mem_wd_in"@,
            r.1.inputs@[2].input == self.wd_in,
            r.1.inputs@[3].port_id@ == "data_mem_we_in"@,
            r.1.inputs@[3].input == self.we_in,
            r.1.out_type == OutputType::Combinatorial,
            r.1.outputs@.len() == 1,
            r.1.outputs@[0]@ == "rd_out"@,
    {
        let mut inputs: Vec<InputPort> = Vec::new();
        inputs.push(InputPort { port_id: "data_mem_a_in".to_owned(), input: clone_wire(&self.a_in) });
        inputs.push(InputPort { port_id: "data_mem_a2_in".to_owned(), input: clone_wire(&self.op_in) });
        inputs.push(InputPort { port_id: "data_mem_wd_in".to_owned(), input: clone_wire(&self.wd_in) });
        inputs.push(InputPort { port_id: "data_mem_we_in".to_owned(), input: clone_wire(&self.we_in) });
        let outputs: Vec<Id> = vec!["rd_out".to_owned()];
        (self.id.clone(), Ports::new(inputs, OutputType::Combinatorial, outputs))
    }

    /// Rebinds one declared input to a new producer; unknown port
    /// names leave the component untouched.
    pub fn set_id_port(&mut self, target_port_id: Id, new_input: Input)
        ensures
            final(self).id == old(self).id,
            final(self).big_endian == old(self).big_endian,
            final(self).memory == old(self).memory,
            final(self).history == old(self).history,
            target_port_id@ == "data_mem_a_in"@ ==> final(self).a_in == new_input,
            target_port_id@ != "data_mem_a_in"@ ==> final(self).a_in == old(self).a_in,
            target_port_id@ == "data_mem_a2_in"@ ==> final(self).op_in == new_input,
            target_port_id@ != "data_mem_a2_in"@ ==> final(self).op_in == old(self).op_in,
            target_port_id@ == "data_mem_wd_in"@ ==> final(self).wd_in == new_input,
            target_port_id@ != "data_mem_wd_in"@ ==> final(self).wd_in == old(self).wd_in,
            target_port_id@ == "data_mem_we_in"@ ==> final(self).we_in == new_input,
            target_port_id@ != "data_mem_we_in"@ ==> final(self).we_in == old(self).we_in,
    {
        proof {
            reveal_strlit("data_mem_a_in");
            reveal_strlit("data_mem_a2_in");
            reveal_strlit("data_mem_wd_in");
            reveal_strlit("data_mem_we_in");
            assert("data_mem_a_in"@ =~= seq![
                'd', 'a', 't', 'a', '_', 'm', 'e', 'm', '_', 'a', '_', 'i', 'n',
            ]);
            assert("data_mem_a2_in"@ =~= seq![
                'd', 'a', 't', 'a', '_', 'm', 'e', 'm', '_', 'a', '2', '_', 'i', 'n',
            ]);
            assert("data_mem_wd_in"@ =~= seq![
                'd', 'a', 't', 'a', '_', 'm', 'e', 'm', '_', 'w', 'd', '_', 'i', 'n',
            ]);
            assert("data_mem_we_in"@ =~= seq![
                'd', 'a', 't', 'a', '_', 'm', 'e', 'm', '_', 'w', 'e', '_', 'i', 'n',
            ]);
            assert("data_mem_a_in"@ != "data_mem_a2_in"@ && "data_mem_a_in"@
                != "data_mem_wd_in"@ && "data_mem_a_in"@ != "data_mem_we_in"@);
            assert("data_mem_a2_in"@ != "data_mem_wd_in"@ && "data_mem_a2_in"@
                != "data_mem_we_in"@);
            assert("data_mem_wd_in"@ != "data_mem_we_in"@);
        }
        if target_port_id == "data_mem_a_in".to_owned() {
            self.a_in = new_input;
        } else if target_port_id == "data_mem_a2_in".to_owned() {
            self.op_in = new_input;
        } else if target_port_id == "data_mem_wd_in".to_owned() {
            self.wd_in = new_input;
        } else if target_port_id == "data_mem_we_in".to_owned() {
            self.we_in = new_input;
        }
    }

    /// One tick: decodes the control word, performs at most one
    /// write (suppressed at address zero) followed by the
    /// corresponding read, publishes the read value on `"rd_out"`
    /// and records a history entry.
    pub fn clock(&mut self, state: &mut SimState) -> (r: Result<(), Condition>)
        ensures
            r == data_mem_step_result(*old(self), old(state)@),
            final(state)@ == data_mem_step_state(*old(self), old(state)@),
            final(self).memory@ == data_mem_step_mem(*old(self), old(state)@),
            final(self).history@ == data_mem_step_hist(*old(self), old(state)@),
            final(self).id == old(self).id,
            final(self).a_in == old(self).a_in,
            final(self).op_in == old(self).op_in,
            final(self).wd_in == old(self).wd_in,
            final(self).we_in == old(self).we_in,
            final(self).big_endian == old(self).big_endian,
    {
        let a_v = read_wire(state, &self.a_in);
        let op_v = read_wire(state, &self.op_in);
        let wd_v = read_wire(state, &self.wd_in);
        let we_v = read_wire(state, &self.we_in);
        let a_u: u32 = match a_v.try_to_unsigned() {
            Ok(v) => v,
            Err(c) => { return Err(c); },
        };
        let op_u: u32 = match op_v.try_to_unsigned() {
            Ok(v) => v,
            Err(c) => { return Err(c); },
        };
        let we_u: u32 = match we_v.try_to_unsigned() {
            Ok(v) => v,
            Err(c) => { return Err(c); },
        };
        let sign: bool;
        let size_u: u32;
        if op_u == 0b10_0000 {
            sign = true;
            size_u = 1;
        } else if op_u == 0b10_0001 {
            sign = true;
            size_u = 2;
        } else if op_u == 0b10_0010 {
            return Err(Condition::Unimplemented);
        } else if op_u == 0b10_0011 {
            sign = false;
            size_u = 4;
        } else if op_u == 0b10_0100 {
            sign = false;
            size_u = 1;
        } else if op_u == 0b10_0101 {
            sign = false;
            size_u = 2;
        } else if op_u == 0b10_0110 {
            return Err(Condition::Unimplemented);
        } else {
            sign = false;
            size_u = 4;
        }
        let size_us: usize = size_u as usize;
        let addr_us: usize = a_u as usize;
        if addr_us > usize::MAX - (size_us - 1) {
            return Err(Condition::OutOfRange);
        }
        let mut entry = MemOp { data: None, addr: 0, size: 0 };
        if we_u == 1 {
            let prev = self.memory.read(addr_us, size_us, false, self.big_endian);
            let prev_word: Option<usize> = match prev {
                SignalValue::Data(d) => Some(d as usize),
                _ => None,
            };
            entry = MemOp { data: prev_word, addr: addr_us, size: size_u as u8 };
            if addr_us != 0 {
                if let SignalValue::Data(_) = wd_v {
                } else {
                    return Err(Condition::NotData);
                }
                self.memory.write(addr_us, size_us, self.big_endian, wd_v);
            }
        }
        let value = self.memory.read(addr_us, size_us, sign, self.big_endian);
        let rd_name: String = "rd_out".to_owned();
        state.set_out(&self.id, &rd_name, value);
        self.history.push(entry);
        Ok(())
    }
}

/// Copies a wire reference (`String` fields carry over exactly).
pub fn clone_wire(i: &Input) -> (r: Input)
    ensures
        r == *i,
{
    Input { id: i.id.clone(), field: i.field.clone() }
}

} // verus!
