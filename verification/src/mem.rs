//! The generic memory component: a byte store driven by data,
//! address, control, sign and size wires, publishing the read value
//! and a misalignment flag.

use vstd::prelude::*;
use crate::memory::{data_word, read_spec, write_spec, Memory};
use crate::signal::{Condition, SignalValue};
use crate::state::{lookup, lemma_lookup_upsert_other, lemma_lookup_upsert_same, lemma_upsert_noop, upsert, wire_value, SimState, StateModel};
use crate::wiring::{Id, Input, InputPort, OutputType, Ports};

verus! {

/// The control code driving a memory component's tick.
#[derive(Clone, Copy, Debug, PartialEq, Eq, Structural)]
pub enum MemCtrl {
    Idle,
    Read,
    Write,
}

/// Decode of a control signal: only the low byte of the word is
/// significant, and only the codes 0, 1 and 2 are recognized.
pub open spec fn ctrl_decode(v: u32) -> Option<MemCtrl> {
    if v % 256 == 0 {
        Some(MemCtrl::Idle)
    } else if v % 256 == 1 {
        Some(MemCtrl::Read)
    } else if v % 256 == 2 {
        Some(MemCtrl::Write)
    } else {
        None
    }
}

impl MemCtrl {
    /// Decodes a control word into a control code.
    pub fn try_from_unsigned(v: u32) -> (r: Option<MemCtrl>)
        ensures
            r == ctrl_decode(v),
    {
        let b: u32 = v % 256;
        if b == 0 {
            Some(MemCtrl::Idle)
        } else if b == 1 {
            Some(MemCtrl::Read)
        } else if b == 2 {
            Some(MemCtrl::Write)
        } else {
            None
        }
    }
}

/// A valid access width.
pub open spec fn size_ok(s: u32) -> bool {
    s == 1 || s == 2 || s == 4
}

/// An access running past the end of the addressable space.
pub open spec fn addr_out_of_range(a: u32, s: u32) -> bool {
    a + s - 1 > usize::MAX
}

/// The misalignment flag for an access of `s` bytes at `a`.
pub open spec fn align_flag(a: int, s: int) -> SignalValue {
    SignalValue::Data(if a % s != 0 { 1u32 } else { 0u32 })
}

/// The generic memory component.  `big_endian` fixes the byte order
/// of every access; the five wires deliver the write data, the
/// address, the control code, the sign flag and the access width.
#[derive(Debug)]
pub struct Mem {
    pub id: Id,
    pub big_endian: bool,
    pub data: InputPort,
    pub addr: InputPort,
    pub ctrl: InputPort,
    pub sign: InputPort,
    pub size: InputPort,
    pub memory: Memory,
}

/// The condition surfaced by a `Mem` tick: the address, control,
/// size and sign wires must carry concrete words; the control code
/// must be recognized; a read or write must use a valid width inside
/// the addressable space; a write additionally needs concrete data.
pub open spec fn mem_step_result(m: Mem, st: StateModel) -> Result<(), Condition> {
    let data_v = wire_value(st, m.data.input);
    let addr_v = wire_value(st, m.addr.input);
    let ctrl_v = wire_value(st, m.ctrl.input);
    let size_v = wire_value(st, m.size.input);
    let sign_v = wire_value(st, m.sign.input);
    if !(addr_v is Data) {
        Err(Condition::NotData)
    } else if !(ctrl_v is Data) {
        Err(Condition::NotData)
    } else if !(size_v is Data) {
        Err(Condition::NotData)
    } else if !(sign_v is Data) {
        Err(Condition::NotData)
    } else {
        match ctrl_decode(ctrl_v->Data_0) {
            Some(MemCtrl::Idle) => Ok(()),
            Some(MemCtrl::Read) => {
                if !size_ok(size_v->Data_0) {
                    Err(Condition::IllegalSize)
                } else if addr_out_of_range(addr_v->Data_0, size_v->Data_0) {
                    Err(Condition::OutOfRange)
                } else {
                    Ok(())
                }
            },
            Some(MemCtrl::Write) => {
                if !size_ok(size_v->Data_0) {
                    Err(Condition::IllegalSize)
                } else if addr_out_of_range(addr_v->Data_0, size_v->Data_0) {
                    Err(Condition::OutOfRange)
                } else if !(data_v is Data) {
                    Err(Condition::NotData)
                } else {
                    Ok(())
                }
            },
            None => Err(Condition::InvalidControl),
        }
    }
}

/// The signal state after a `Mem` tick.  A read publishes the read
/// value on `"data"` and the misalignment flag on `"err"`; a write
/// publishes only the flag; an idle tick and every condition leave
/// the state untouched.
pub open spec fn mem_step_state(m: Mem, st: StateModel) -> StateModel {
    if mem_step_result(m, st) is Err {
        st
    } else {
        let addr_v = wire_value(st, m.addr.input);
        let ctrl_v = wire_value(st, m.ctrl.input);
        let size_v = wire_value(st, m.size.input);
        let sign_v = wire_value(st, m.sign.input);
        let a = addr_v->Data_0 as int;
        let s = size_v->Data_0 as int;
        match ctrl_decode(ctrl_v->Data_0) {
            Some(MemCtrl::Read) => {
                let value = SignalValue::Data(
                    read_spec(m.memory@, a, s, sign_v->Data_0 != 0, m.big_endian) as u32,
                );
                upsert(
                    upsert(st, m.id@, "data"@, value),
                    m.id@,
                    "err"@,
                    align_flag(a, s),
                )
            },
            Some(MemCtrl::Write) => upsert(st, m.id@, "err"@, align_flag(a, s)),
            _ => st,
        }
    }
}

/// The memory contents after a `Mem` tick: only a successful write
/// changes them.
pub open spec fn mem_step_mem(m: Mem, st: StateModel) -> Map<usize, u8> {
    if mem_step_result(m, st) is Err {
        m.memory@
    } else {
        let data_v = wire_value(st, m.data.input);
        let addr_v = wire_value(st, m.addr.input);
        let ctrl_v = wire_value(st, m.ctrl.input);
        let size_v = wire_value(st, m.size.input);
        match ctrl_decode(ctrl_v->Data_0) {
            Some(MemCtrl::Write) => write_spec(
                m.memory@,
                addr_v->Data_0 as int,
                size_v->Data_0 as int,
                m.big_endian,
                data_word(data_v),
            ),
            _ => m.memory@,
        }
    }
}

/// True iff a wire does not reference the given output key.
pub open spec fn wire_avoids(w: Input, id: Seq<char>, field: Seq<char>) -> bool {
    !(w.id@ == id && w.field@ == field)
}

/// True iff none of the component's five wires is fed from one of
/// its own two outputs.
pub open spec fn mem_inputs_not_own_outputs(m: Mem) -> bool {
    &&& wire_avoids(m.data.input, m.id@, "data"@)
    &&& wire_avoids(m.data.input, m.id@, "err"@)
    &&& wire_avoids(m.addr.input, m.id@, "data"@)
    &&& wire_avoids(m.addr.input, m.id@, "err"@)
    &&& wire_avoids(m.ctrl.input, m.id@, "data"@)
    &&& wire_avoids(m.ctrl.input, m.id@, "err"@)
    &&& wire_avoids(m.sign.input, m.id@, "data"@)
    &&& wire_avoids(m.sign.input, m.id@, "err"@)
    &&& wire_avoids(m.size.input, m.id@, "data"@)
    &&& wire_avoids(m.size.input, m.id@, "err"@)
}

/// Idempotence of reading: a read tick never changes the memory
/// contents, and — as long as the component's inputs are not wired
/// to its own outputs — repeating the read tick with no intervening
/// write publishes identical values and leaves the signal state
/// exactly where the first read left it.
pub proof fn lemma_repeated_read_idempotent(m: Mem, st: StateModel)
    requires
        mem_step_result(m, st) == Ok::<(), Condition>(()),
        ctrl_decode(wire_value(st, m.ctrl.input)->Data_0) == Some(MemCtrl::Read),
        mem_inputs_not_own_outputs(m),
    ensures
        mem_step_mem(m, st) == m.memory@,
        mem_step_result(m, mem_step_state(m, st)) == mem_step_result(m, st),
        mem_step_state(m, mem_step_state(m, st)) == mem_step_state(m, st),
{
    let id = m.id@;
    let dname = "data"@;
    let ename = "err"@;
    reveal_strlit("data");
    reveal_strlit("err");
    assert("data"@ =~= seq!['d', 'a', 't', 'a']);
    assert("err"@ =~= seq!['e', 'r', 'r']);
    assert(dname != ename);
    let addr_v = wire_value(st, m.addr.input);
    let ctrl_v = wire_value(st, m.ctrl.input);
    let size_v = wire_value(st, m.size.input);
    let sign_v = wire_value(st, m.sign.input);
    let a = addr_v->Data_0 as int;
    let sz = size_v->Data_0 as int;
    let value = SignalValue::Data(
        read_spec(m.memory@, a, sz, sign_v->Data_0 != 0, m.big_endian) as u32,
    );
    let flag = align_flag(a, sz);
    let st1 = upsert(st, id, dname, value);
    let st2 = upsert(st1, id, ename, flag);
    assert(mem_step_state(m, st) == st2);
    lemma_lookup_upsert_other(st, id, dname, value, m.data.input.id@, m.data.input.field@);
    lemma_lookup_upsert_other(st1, id, ename, flag, m.data.input.id@, m.data.input.field@);
    lemma_lookup_upsert_other(st, id, dname, value, m.addr.input.id@, m.addr.input.field@);
    lemma_lookup_upsert_other(st1, id, ename, flag, m.addr.input.id@, m.addr.input.field@);
    lemma_lookup_upsert_other(st, id, dname, value, m.ctrl.input.id@, m.ctrl.input.field@);
    lemma_lookup_upsert_other(st1, id, ename, flag, m.ctrl.input.id@, m.ctrl.input.field@);
    lemma_lookup_upsert_other(st, id, dname, value, m.sign.input.id@, m.sign.input.field@);
    lemma_lookup_upsert_other(st1, id, ename, flag, m.sign.input.id@, m.sign.input.field@);
    lemma_lookup_upsert_other(st, id, dname, value, m.size.input.id@, m.size.input.field@);
    lemma_lookup_upsert_other(st1, id, ename, flag, m.size.input.id@, m.size.input.field@);
    assert(wire_value(st2, m.data.input) == wire_value(st, m.data.input));
    assert(wire_value(st2, m.addr.input) == wire_value(st, m.addr.input));
    assert(wire_value(st2, m.ctrl.input) == wire_value(st, m.ctrl.input));
    assert(wire_value(st2, m.sign.input) == wire_value(st, m.sign.input));
    assert(wire_value(st2, m.size.input) == wire_value(st, m.size.input));
    assert(mem_step_result(m, st2) == mem_step_result(m, st));
    lemma_lookup_upsert_same(st, id, dname, value);
    lemma_lookup_upsert_other(st1, id, ename, flag, id, dname);
    assert(lookup(st2, id, dname) == Some(value));
    lemma_upsert_noop(st2, id, dname, value);
    lemma_lookup_upsert_same(st1, id, ename, flag);
    assert(lookup(st2, id, ename) == Some(flag));
    lemma_upsert_noop(st2, id, ename, flag);
    assert(mem_step_state(m, st2) == st2);
}

impl Mem {
    /// Creates a memory component with the given wiring and initial
    /// byte store.
    pub fn new(
        id: &str,
        big_endian: bool,
        data: Input,
        addr: Input,
        ctrl: Input,
        sign: Input,
        size: Input,
        memory: Memory,
    ) -> (r: Mem)
        ensures
            r.id@ == id@,
            r.big_endian == big_endian,
            r.data.input == data,
            r.addr.input == addr,
            r.ctrl.input == ctrl,
            r.sign.input == sign,
            r.size.input == size,
            r.memory == memory,
            r.data.port_id@ == "data"@,
            r.addr.port_id@ == "addr"@,
            r.ctrl.port_id@ == "ctrl"@,
            r.sign.port_id@ == "sign"@,
            r.size.port_id@ == "size"@,
    {
        Mem {
            id: id.to_owned(),
            big_endian,
            data: InputPort { port_id: "data".to_owned(), input: data },
            addr: InputPort { port_id: "addr".to_owned(), input: addr },
            ctrl: InputPort { port_id: "ctrl".to_owned(), input: ctrl },
            sign: InputPort { port_id: "sign".to_owned(), input: sign },
            size: InputPort { port_id: "size".to_owned(), input: size },
            memory,
        }
    }

    /// Reports the component's identity, its five declared inputs
    /// and its two outputs `"data"` and `"err"`.
    pub fn get_id_ports(&self) -> (r: (Id, Ports))
        ensures
            r.0 == self.id,
            r.1.inputs@.len() == 5,
            r.1.inputs@[0] == self.data,
            r.1.inputs@[1] == self.addr,
            r.1.inputs@[2] == self.ctrl,
            r.1.inputs@[3] == self.sign,
            r.1.inputs@[4] == self.size,
            r.1.out_type == OutputType::Combinatorial,
            r.1.outputs@.len() == 2,
            r.1.outputs@[0]@ == "data"@,
            r.1.outputs@[1]@ == "err"@,
    {
        let mut inputs: Vec<InputPort> = Vec::new();
        inputs.push(clone_port(&self.data));
        inputs.push(clone_port(&self.addr));
        inputs.push(clone_port(&self.ctrl));
        inputs.push(clone_port(&self.sign));
        inputs.push(clone_port(&self.size));
        let outputs: Vec<Id> = vec!["data".to_owned(), "err".to_owned()];
        (self.id.clone(), Ports::new(inputs, OutputType::Combinatorial, outputs))
    }

    /// Rebinds one declared input to a new producer; unknown port
    /// names leave the component untouched.
    pub fn set_id_port(&mut self, target_port_id: Id, new_input: Input)
        ensures
            final(self).id == old(self).id,
            final(self).big_endian == old(self).big_endian,
            final(self).memory == old(self).memory,
            final(self).data.port_id == old(self).data.port_id,
            final(self).addr.port_id == old(self).addr.port_id,
            final(self).ctrl.port_id == old(self).ctrl.port_id,
            final(self).sign.port_id == old(self).sign.port_id,
            final(self).size.port_id == old(self).size.port_id,
            target_port_id@ == "data"@ ==> final(self).data.input == new_input,
            target_port_id@ != "data"@ ==> final(self).data.input == old(self).data.input,
            target_port_id@ == "addr"@ ==> final(self).addr.input == new_input,
            target_port_id@ != "addr"@ ==> final(self).addr.input == old(self).addr.input,
            target_port_id@ == "ctrl"@ ==> final(self).ctrl.input == new_input,
            target_port_id@ != "ctrl"@ ==> final(self).ctrl.input == old(self).ctrl.input,
            target_port_id@ == "sign"@ ==> final(self).sign.input == new_input,
            target_port_id@ != "sign"@ ==> final(self).sign.input == old(self).sign.input,
            target_port_id@ == "size"@ ==> final(self).size.input == new_input,
            target_port_id@ != "size"@ ==> final(self).size.input == old(self).size.input,
    {
        proof {
            reveal_strlit("data");
            reveal_strlit("addr");
            reveal_strlit("ctrl");
            reveal_strlit("sign");
            reveal_strlit("size");
            assert("data"@ =~= seq!['d', 'a', 't', 'a']);
            assert("addr"@ =~= seq!['a', 'd', 'd', 'r']);
            assert("ctrl"@ =~= seq!['c', 't', 'r', 'l']);
            assert("sign"@ =~= seq!['s', 'i', 'g', 'n']);
            assert("size"@ =~= seq!['s', 'i', 'z', 'e']);
            assert("data"@ != "addr"@ && "data"@ != "ctrl"@ && "data"@ != "sign"@ && "data"@
                != "size"@);
            assert("addr"@ != "ctrl"@ && "addr"@ != "sign"@ && "addr"@ != "size"@);
            assert("ctrl"@ != "sign"@ && "ctrl"@ != "size"@);
            assert("sign"@ != "size"@);
        }
        if target_port_id == "data".to_owned() {
            self.data.input = new_input;
        } else if target_port_id == "addr".to_owned() {
            self.addr.input = new_input;
        } else if target_port_id == "ctrl".to_owned() {
            self.ctrl.input = new_input;
        } else if target_port_id == "sign".to_owned() {
            self.sign.input = new_input;
        } else if target_port_id == "size".to_owned() {
            self.size.input = new_input;
        }
    }

    /// One tick: decodes the control wire, performs at most one
    /// write followed by the corresponding read, and publishes the
    /// read value and the misalignment flag.
    pub fn clock(&mut self, state: &mut SimState) -> (r: Result<(), Condition>)
        ensures
            r == mem_step_result(*old(self), old(state)@),
            final(state)@ == mem_step_state(*old(self), old(state)@),
            final(self).memory@ == mem_step_mem(*old(self), old(state)@),
            final(self).id == old(self).id,
            final(self).big_endian == old(self).big_endian,
            final(self).data == old(self).data,
            final(self).addr == old(self).addr,
            final(self).ctrl == old(self).ctrl,
            final(self).sign == old(self).sign,
            final(self).size == old(self).size,
    {
        let data_v = read_wire(state, &self.data.input);
        let addr_v = read_wire(state, &self.addr.input);
        let ctrl_v = read_wire(state, &self.ctrl.input);
        let size_v = read_wire(state, &self.size.input);
        let sign_v = read_wire(state, &self.sign.input);
        let addr_u: u32 = match addr_v.try_to_unsigned() {
            Ok(v) => v,
            Err(c) => { return Err(c); },
        };
        let ctrl_u: u32 = match ctrl_v.try_to_unsigned() {
            Ok(v) => v,
            Err(c) => { return Err(c); },
        };
        let size_u: u32 = match size_v.try_to_unsigned() {
            Ok(v) => v,
            Err(c) => { return Err(c); },
        };
        let sign_u: u32 = match sign_v.try_to_unsigned() {
            Ok(v) => v,
            Err(c) => { return Err(c); },
        };
        let ctrl = match MemCtrl::try_from_unsigned(ctrl_u) {
            Some(c) => c,
            None => { return Err(Condition::InvalidControl); },
        };
        match ctrl {
            MemCtrl::Idle => Ok(()),
            MemCtrl::Read => {
                if !(size_u == 1 || size_u == 2 || size_u == 4) {
                    return Err(Condition::IllegalSize);
                }
                let size_us: usize = size_u as usize;
                let addr_us: usize = addr_u as usize;
                if addr_us > usize::MAX - (size_us - 1) {
                    return Err(Condition::OutOfRange);
                }
                let sign = sign_u != 0;
                let value = self.memory.read(addr_us, size_us, sign, self.big_endian);
                let data_name: String = "data".to_owned();
                let err_name: String = "err".to_owned();
                state.set_out(&self.id, &data_name, value);
                let flag = self.memory.align(addr_us, size_us);
                state.set_out(&self.id, &err_name, flag);
                Ok(())
            },
            MemCtrl::Write => {
                if !(size_u == 1 || size_u == 2 || size_u == 4) {
                    return Err(Condition::IllegalSize);
                }
                let size_us: usize = size_u as usize;
                let addr_us: usize = addr_u as usize;
                if addr_us > usize::MAX - (size_us - 1) {
                    return Err(Condition::OutOfRange);
                }
                if let SignalValue::Data(_) = data_v {
                } else {
                    return Err(Condition::NotData);
                }
                self.memory.write(addr_us, size_us, self.big_endian, data_v);
                let err_name: String = "err".to_owned();
                let flag = self.memory.align(addr_us, size_us);
                state.set_out(&self.id, &err_name, flag);
                Ok(())
            },
        }
    }
}

/// Reads the current value of a wire, treating an unresolved
/// reference like a wire nothing was ever driven onto.
pub fn read_wire(state: &SimState, input: &Input) -> (r: SignalValue)
    ensures
        r == wire_value(state@, *input),
{
    match state.get_input(input) {
        Some(v) => v,
        None => SignalValue::Uninitialized,
    }
}

/// Copies an input port (`String` fields carry over exactly).
pub fn clone_port(p: &InputPort) -> (r: InputPort)
    ensures
        r == *p,
{
    InputPort {
        port_id: p.port_id.clone(),
        input: Input { id: p.input.id.clone(), field: p.input.field.clone() },
    }
}

} // verus!
