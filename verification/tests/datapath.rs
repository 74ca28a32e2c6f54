use cyclesim::{
    Component, ComponentStore, Condition, DataMem, Input, InstrMem, OutputType, Probe, ProbeOut,
    SignalValue, Simulator,
};
use std::collections::BTreeMap;

// control codes of the data memory, as its decode table reads them
const OP_LB: u32 = 0b10_0000;
const OP_LH: u32 = 0b10_0001;
const OP_LWL: u32 = 0b10_0010;
const OP_LW: u32 = 0b10_0011;
const OP_LBU: u32 = 0b10_0100;
const OP_LHU: u32 = 0b10_0101;
const OP_LWR: u32 = 0b10_0110;

fn data_mem_store(big_endian: bool) -> ComponentStore {
    ComponentStore {
        store: vec![
            Component::ProbeOut(ProbeOut::new("a")),
            Component::ProbeOut(ProbeOut::new("op")),
            Component::ProbeOut(ProbeOut::new("wd")),
            Component::ProbeOut(ProbeOut::new("we")),
            Component::DataMem(DataMem::new(
                "dm",
                Input::new("a", "out"),
                Input::new("op", "out"),
                Input::new("wd", "out"),
                Input::new("we", "out"),
                big_endian,
                BTreeMap::new(),
            )),
        ],
    }
}

#[test]
fn data_mem_end_to_end_big_endian() {
    let mut simulator = Simulator::new(data_mem_store(true));
    let rd = &Input::new("dm", "rd_out");

    // write byte 0xF0 at address 4 (the read of the same tick is
    // performed after the write)
    simulator.set_out_value("a", "out", SignalValue::Data(4));
    simulator.set_out_value("op", "out", SignalValue::Data(OP_LBU));
    simulator.set_out_value("wd", "out", SignalValue::Data(0xF0));
    simulator.set_out_value("we", "out", SignalValue::Data(1));
    let conds = simulator.clock();
    assert_eq!(conds, vec![]);
    assert_eq!(simulator.get_input_value(rd), SignalValue::Data(0x0000_00F0));

    // read byte unsigned
    simulator.set_out_value("we", "out", SignalValue::Data(0));
    simulator.clock();
    assert_eq!(simulator.get_input_value(rd), SignalValue::Data(0x0000_00F0));

    // read byte signed
    simulator.set_out_value("op", "out", SignalValue::Data(OP_LB));
    simulator.clock();
    assert_eq!(simulator.get_input_value(rd), SignalValue::Data(0xFFFF_FFF0));

    // read halfword signed: big-endian assembly of F0 00, sign-extended
    simulator.set_out_value("op", "out", SignalValue::Data(OP_LH));
    simulator.clock();
    assert_eq!(simulator.get_input_value(rd), SignalValue::Data(0xFFFF_F000));

    // read halfword unsigned
    simulator.set_out_value("op", "out", SignalValue::Data(OP_LHU));
    simulator.clock();
    assert_eq!(simulator.get_input_value(rd), SignalValue::Data(0x0000_F000));

    // read word: F0 00 00 00 assembled big-endian
    simulator.set_out_value("op", "out", SignalValue::Data(OP_LW));
    simulator.clock();
    assert_eq!(simulator.get_input_value(rd), SignalValue::Data(0xF000_0000));
}

#[test]
fn data_mem_zero_address_write_is_suppressed() {
    let mut simulator = Simulator::new(data_mem_store(true));
    let rd = &Input::new("dm", "rd_out");

    // an enabled word write at address 0 leaves memory unchanged
    simulator.set_out_value("a", "out", SignalValue::Data(0));
    simulator.set_out_value("op", "out", SignalValue::Data(OP_LW));
    simulator.set_out_value("wd", "out", SignalValue::Data(0x7777_7777));
    simulator.set_out_value("we", "out", SignalValue::Data(1));
    let conds = simulator.clock();
    assert_eq!(conds, vec![]);
    // the same-tick read still sees zeroes
    assert_eq!(simulator.get_input_value(rd), SignalValue::Data(0));

    // a later plain read at address 0 still returns 0
    simulator.set_out_value("we", "out", SignalValue::Data(0));
    simulator.clock();
    assert_eq!(simulator.get_input_value(rd), SignalValue::Data(0));

    // the same write at a nonzero address does take effect
    simulator.set_out_value("a", "out", SignalValue::Data(8));
    simulator.set_out_value("we", "out", SignalValue::Data(1));
    simulator.clock();
    assert_eq!(simulator.get_input_value(rd), SignalValue::Data(0x7777_7777));
}

#[test]
fn data_mem_unimplemented_operations() {
    let mut simulator = Simulator::new(data_mem_store(true));
    let rd = &Input::new("dm", "rd_out");

    simulator.set_out_value("op", "out", SignalValue::Data(OP_LWL));
    let conds = simulator.clock();
    assert_eq!(conds, vec![("dm".to_string(), Condition::Unimplemented)]);
    // a failed tick publishes nothing: the output still carries the
    // word read of the settle pass
    assert_eq!(simulator.get_input_value(rd), SignalValue::Data(0));

    simulator.set_out_value("op", "out", SignalValue::Data(OP_LWR));
    let conds = simulator.clock();
    assert_eq!(conds, vec![("dm".to_string(), Condition::Unimplemented)]);

    // a non-data write-enable is reported as NotData
    simulator.set_out_value("op", "out", SignalValue::Data(OP_LW));
    simulator.set_out_value("we", "out", SignalValue::Unknown);
    let conds = simulator.clock();
    assert_eq!(conds, vec![("dm".to_string(), Condition::NotData)]);
}

#[test]
fn instr_mem_fetches_big_endian_words() {
    let mut image = BTreeMap::new();
    image.insert(0usize, 0x12u8);
    image.insert(1usize, 0x34u8);
    image.insert(2usize, 0x56u8);
    image.insert(3usize, 0x78u8);
    image.insert(4usize, 0xAAu8);
    let cs = ComponentStore {
        store: vec![
            Component::ProbeOut(ProbeOut::new("pc")),
            Component::InstrMem(InstrMem::new("im", Input::new("pc", "out"), image)),
        ],
    };
    let mut simulator = Simulator::new(cs);
    let rd = &Input::new("im", "rd_out");

    // the settle pass already fetched at the seeded address 0
    assert_eq!(simulator.get_input_value(rd), SignalValue::Data(0x1234_5678));

    simulator.set_out_value("pc", "out", SignalValue::Data(4));
    simulator.clock();
    assert_eq!(simulator.get_input_value(rd), SignalValue::Data(0xAA00_0000));

    // fetching far past the image reads zeroes
    simulator.set_out_value("pc", "out", SignalValue::Data(1024));
    simulator.clock();
    assert_eq!(simulator.get_input_value(rd), SignalValue::Data(0));
}

#[test]
fn rc_constructors_seed_one_zero_byte() {
    let dm = DataMem::rc_new(
        "dm",
        Input::new("a", "out"),
        Input::new("op", "out"),
        Input::new("wd", "out"),
        Input::new("we", "out"),
        true,
    );
    assert_eq!(dm.id, "dm".to_string());
    assert_eq!(dm.memory.read(0, 4, false, true), SignalValue::Data(0));
    let im = InstrMem::rc_new("im", Input::new("pc", "out"));
    assert_eq!(im.id, "im".to_string());
    assert_eq!(im.memory.read(0, 4, false, true), SignalValue::Data(0));
}

#[test]
fn ports_and_rewiring() {
    let mut dm = Component::DataMem(DataMem::new(
        "dm",
        Input::new("a", "out"),
        Input::new("op", "out"),
        Input::new("wd", "out"),
        Input::new("we", "out"),
        true,
        BTreeMap::new(),
    ));
    let (id, ports) = dm.get_id_ports();
    assert_eq!(id, "dm".to_string());
    assert_eq!(ports.out_type, OutputType::Combinatorial);
    assert_eq!(ports.inputs.len(), 4);
    assert_eq!(ports.inputs[0].port_id, "data_mem_a_in".to_string());
    assert_eq!(ports.inputs[0].input.id, "a".to_string());
    assert_eq!(ports.outputs, vec!["rd_out".to_string()]);

    // rebind the address input, leave everything else alone
    dm.set_id_port("data_mem_a_in".to_string(), Input::new("pc", "out"));
    let (_, ports) = dm.get_id_ports();
    assert_eq!(ports.inputs[0].input.id, "pc".to_string());
    assert_eq!(ports.inputs[1].input.id, "op".to_string());

    // an unknown port name changes nothing
    dm.set_id_port("nonexistent".to_string(), Input::new("x", "out"));
    let (_, ports) = dm.get_id_ports();
    assert_eq!(ports.inputs[0].input.id, "pc".to_string());

    // rebinding through the polymorphic dispatch works for the
    // generic memory component as well
    let mut gm = Component::Mem(cyclesim::Mem::new(
        "gm",
        false,
        Input::new("d", "out"),
        Input::new("a", "out"),
        Input::new("c", "out"),
        Input::new("s", "out"),
        Input::new("z", "out"),
        cyclesim::Memory::new(BTreeMap::new()),
    ));
    gm.set_id_port("ctrl".to_string(), Input::new("c2", "out"));
    let (_, gports) = gm.get_id_ports();
    assert_eq!(gports.inputs[2].port_id, "ctrl".to_string());
    assert_eq!(gports.inputs[2].input.id, "c2".to_string());
    assert_eq!(gports.inputs[0].input.id, "d".to_string());

    let probe = Component::Probe(Probe::new("watch", Input::new("dm", "rd_out")));
    let (pid, pports) = probe.get_id_ports();
    assert_eq!(pid, "watch".to_string());
    assert_eq!(pports.inputs.len(), 1);
    assert_eq!(pports.outputs.len(), 0);
}
