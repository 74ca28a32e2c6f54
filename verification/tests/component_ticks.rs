use cyclesim::{
    Component, ComponentStore, Condition, Input, Mem, MemCtrl, Memory, ProbeOut, SignalUnsigned,
    SignalValue, Simulator,
};
use std::collections::BTreeMap;

fn mem_test_store(big_endian: bool) -> ComponentStore {
    ComponentStore {
        store: vec![
            Component::ProbeOut(ProbeOut::new("data")),
            Component::ProbeOut(ProbeOut::new("addr")),
            Component::ProbeOut(ProbeOut::new("ctrl")),
            Component::ProbeOut(ProbeOut::new("size")),
            Component::ProbeOut(ProbeOut::new("sign")),
            Component::Mem(Mem::new(
                "mem",
                big_endian,
                Input::new("data", "out"),
                Input::new("addr", "out"),
                Input::new("ctrl", "out"),
                Input::new("sign", "out"),
                Input::new("size", "out"),
                Memory::new(BTreeMap::new()),
            )),
        ],
    }
}

#[test]
fn test_mem_be() {
    let cs = mem_test_store(true);

    let mut simulator = Simulator::new(cs);

    assert_eq!(simulator.cycle(), 1);

    // outputs
    let out = &Input::new("mem", "data");
    let err = &Input::new("mem", "err");

    // reset: no tick has published the memory outputs yet
    assert_eq!(simulator.get_input_value(out), SignalValue::Uninitialized);
    assert_eq!(simulator.get_input_value(err), SignalValue::Uninitialized);

    println!("<setup for write 42 to addr 4>");

    simulator.set_out_value("data", "out", SignalValue::Data(0xf0));
    simulator.set_out_value("addr", "out", SignalValue::Data(4));
    simulator.set_out_value("ctrl", "out", SignalValue::Data(MemCtrl::Write as SignalUnsigned));
    simulator.set_out_value("size", "out", SignalValue::Data(1));

    println!("<clock>");
    simulator.clock();

    assert_eq!(simulator.cycle(), 2);
    assert_eq!(simulator.get_input_value(out), SignalValue::Uninitialized);
    assert_eq!(simulator.get_input_value(err), SignalValue::Data(false as SignalUnsigned));

    println!("<setup for read byte from addr 4>");

    simulator.set_out_value("ctrl", "out", SignalValue::Data(MemCtrl::Read as SignalUnsigned));
    simulator.set_out_value("size", "out", SignalValue::Data(1));

    simulator.clock();

    assert_eq!(simulator.cycle(), 3);
    assert_eq!(simulator.get_input_value(out), SignalValue::Data(0xf0));
    assert_eq!(simulator.get_input_value(err), SignalValue::Data(false as SignalUnsigned));

    println!("<setup for read byte from addr 4>");
    simulator.set_out_value("size", "out", SignalValue::Data(1));
    simulator.set_out_value("sign", "out", SignalValue::Data(true as SignalUnsigned));

    simulator.clock();
    assert_eq!(simulator.cycle(), 4);
    assert_eq!(simulator.get_input_value(out), SignalValue::Data(0xffff_fff0));
    assert_eq!(simulator.get_input_value(err), SignalValue::Data(false as SignalUnsigned));

    println!("<setup for read half-word from addr 4>");
    simulator.set_out_value("size", "out", SignalValue::Data(2));
    simulator.set_out_value("sign", "out", SignalValue::Data(true as SignalUnsigned));

    simulator.clock();
    assert_eq!(simulator.cycle(), 5);
    assert_eq!(simulator.get_input_value(out), SignalValue::Data(0xffff_f000));
    assert_eq!(simulator.get_input_value(err), SignalValue::Data(false as SignalUnsigned));

    println!("<setup for read word from addr 4>");
    simulator.set_out_value("size", "out", SignalValue::Data(4));
    simulator.set_out_value("sign", "out", SignalValue::Data(true as SignalUnsigned));

    simulator.clock();
    assert_eq!(simulator.cycle(), 6);
    assert_eq!(simulator.get_input_value(out), SignalValue::Data(0xf000_0000));
    assert_eq!(simulator.get_input_value(err), SignalValue::Data(false as SignalUnsigned));

    println!("<setup for read word from addr 5>");
    simulator.set_out_value("addr", "out", SignalValue::Data(5));

    simulator.clock();
    assert_eq!(simulator.cycle(), 7);
    assert_eq!(simulator.get_input_value(err), SignalValue::Data(true as SignalUnsigned));

    println!("<setup for read word from addr 6>");
    simulator.set_out_value("addr", "out", SignalValue::Data(6));

    simulator.clock();
    assert_eq!(simulator.cycle(), 8);
    assert_eq!(simulator.get_input_value(err), SignalValue::Data(true as SignalUnsigned));

    println!("<setup for read word from addr 7>");
    simulator.set_out_value("addr", "out", SignalValue::Data(7));

    simulator.clock();
    assert_eq!(simulator.cycle(), 9);
    assert_eq!(simulator.get_input_value(err), SignalValue::Data(true as SignalUnsigned));

    println!("<setup for read word from addr 8>");
    simulator.set_out_value("addr", "out", SignalValue::Data(8));

    simulator.clock();
    assert_eq!(simulator.cycle(), 10);
    assert_eq!(simulator.get_input_value(err), SignalValue::Data(false as SignalUnsigned));

    println!("<setup for read half-word from addr 9>");
    simulator.set_out_value("addr", "out", SignalValue::Data(9));
    simulator.set_out_value("size", "out", SignalValue::Data(2));
    simulator.clock();
    assert_eq!(simulator.cycle(), 11);
    assert_eq!(simulator.get_input_value(err), SignalValue::Data(true as SignalUnsigned));

    println!("<setup for read half-word from addr 10>");
    simulator.set_out_value("addr", "out", SignalValue::Data(10));

    simulator.clock();
    assert_eq!(simulator.cycle(), 12);
    assert_eq!(simulator.get_input_value(err), SignalValue::Data(false as SignalUnsigned));

    println!("<setup for write half-word at add 10>");
    simulator.set_out_value("addr", "out", SignalValue::Data(10));
    simulator.set_out_value("data", "out", SignalValue::Data(0x1234));
    simulator.set_out_value("ctrl", "out", SignalValue::Data(MemCtrl::Write as SignalUnsigned));
    simulator.clock();
    assert_eq!(simulator.cycle(), 13);
    assert_eq!(simulator.get_input_value(err), SignalValue::Data(false as SignalUnsigned));

    println!("<setup for read byte at add 10>");
    simulator.set_out_value("ctrl", "out", SignalValue::Data(MemCtrl::Read as SignalUnsigned));
    simulator.set_out_value("size", "out", SignalValue::Data(1));
    simulator.clock();
    assert_eq!(simulator.cycle(), 14);
    assert_eq!(simulator.get_input_value(out), SignalValue::Data(0x12));

    println!("<setup for read byte at add 11>");
    simulator.set_out_value("addr", "out", SignalValue::Data(11));
    simulator.clock();
    assert_eq!(simulator.cycle(), 15);
    assert_eq!(simulator.get_input_value(out), SignalValue::Data(0x34));

    println!("test done")
}

#[test]
fn test_mem_le() {
    let cs = mem_test_store(false);

    let mut simulator = Simulator::new(cs);

    assert_eq!(simulator.cycle(), 1);

    // outputs
    let out = &Input::new("mem", "data");
    let err = &Input::new("mem", "err");

    // reset: no tick has published the memory outputs yet
    assert_eq!(simulator.get_input_value(out), SignalValue::Uninitialized);
    assert_eq!(simulator.get_input_value(err), SignalValue::Uninitialized);

    simulator.set_out_value("data", "out", SignalValue::Data(0xf0));
    simulator.set_out_value("addr", "out", SignalValue::Data(4));
    simulator.set_out_value("ctrl", "out", SignalValue::Data(MemCtrl::Write as SignalUnsigned));
    simulator.set_out_value("size", "out", SignalValue::Data(1)); // byte

    println!("<clock>");
    simulator.clock();

    assert_eq!(simulator.cycle(), 2);
    assert_eq!(simulator.get_input_value(out), SignalValue::Uninitialized);
    assert_eq!(simulator.get_input_value(err), SignalValue::Data(false as SignalUnsigned));

    println!("<setup for read byte from addr 4>");

    simulator.set_out_value("ctrl", "out", SignalValue::Data(MemCtrl::Read as SignalUnsigned));
    simulator.set_out_value("size", "out", SignalValue::Data(1));

    simulator.clock();

    assert_eq!(simulator.cycle(), 3);
    assert_eq!(simulator.get_input_value(out), SignalValue::Data(0xf0));
    assert_eq!(simulator.get_input_value(err), SignalValue::Data(false as SignalUnsigned));

    println!("<setup for read byte from addr 4>");
    simulator.set_out_value("size", "out", SignalValue::Data(1));
    simulator.set_out_value("sign", "out", SignalValue::Data(true as SignalUnsigned));

    simulator.clock();
    assert_eq!(simulator.cycle(), 4);
    assert_eq!(simulator.get_input_value(out), SignalValue::Data(0xffff_fff0));
    assert_eq!(simulator.get_input_value(err), SignalValue::Data(false as SignalUnsigned));

    println!("<setup for read half-word from addr 4>");
    simulator.set_out_value("size", "out", SignalValue::Data(2));
    simulator.set_out_value("sign", "out", SignalValue::Data(true as SignalUnsigned));

    simulator.clock();
    assert_eq!(simulator.cycle(), 5);
    assert_eq!(simulator.get_input_value(out), SignalValue::Data(0x0000_00f0));
    assert_eq!(simulator.get_input_value(err), SignalValue::Data(false as SignalUnsigned));

    println!("<setup for read word from addr 4>");
    simulator.set_out_value("size", "out", SignalValue::Data(4));
    simulator.set_out_value("sign", "out", SignalValue::Data(true as SignalUnsigned));
    simulator.clock();
    assert_eq!(simulator.cycle(), 6);
    assert_eq!(simulator.get_input_value(out), SignalValue::Data(0x0000_00f0));
    assert_eq!(simulator.get_input_value(err), SignalValue::Data(false as SignalUnsigned));

    println!("<setup for write half-word at add 10>");
    simulator.set_out_value("addr", "out", SignalValue::Data(10)); // b
    simulator.set_out_value("data", "out", SignalValue::Data(0x1234));
    simulator.set_out_value("ctrl", "out", SignalValue::Data(MemCtrl::Write as SignalUnsigned));
    simulator.set_out_value("size", "out", SignalValue::Data(2));

    simulator.clock();
    assert_eq!(simulator.cycle(), 7);
    assert_eq!(simulator.get_input_value(err), SignalValue::Data(false as SignalUnsigned));

    println!("<setup for read byte at add 10>");
    simulator.set_out_value("ctrl", "out", SignalValue::Data(MemCtrl::Read as SignalUnsigned));
    simulator.set_out_value("size", "out", SignalValue::Data(1));
    simulator.clock();
    assert_eq!(simulator.cycle(), 8);
    assert_eq!(simulator.get_input_value(out), SignalValue::Data(0x34));

    println!("<setup for read byte at add 11>");
    simulator.set_out_value("addr", "out", SignalValue::Data(11));
    simulator.clock();
    assert_eq!(simulator.cycle(), 9);
    assert_eq!(simulator.get_input_value(out), SignalValue::Data(0x12));
}

#[test]
fn probe_out_seeds_zero_and_keeps_pokes() {
    let cs = ComponentStore {
        store: vec![Component::ProbeOut(ProbeOut::new("stim"))],
    };
    let mut simulator = Simulator::new(cs);
    let out = &Input::new("stim", "out");
    assert_eq!(simulator.get_input_value(out), SignalValue::Data(0));
    simulator.set_out_value("stim", "out", SignalValue::Data(42));
    simulator.clock();
    assert_eq!(simulator.get_input_value(out), SignalValue::Data(42));
}

#[test]
fn mem_conditions_surface_per_tick() {
    let mut simulator = Simulator::new(mem_test_store(true));

    // a non-data control word is reported as NotData
    simulator.set_out_value("ctrl", "out", SignalValue::Unknown);
    let conds = simulator.clock();
    assert_eq!(conds, vec![("mem".to_string(), Condition::NotData)]);

    // an unrecognized control code is reported as InvalidControl
    simulator.set_out_value("ctrl", "out", SignalValue::Data(7));
    let conds = simulator.clock();
    assert_eq!(conds, vec![("mem".to_string(), Condition::InvalidControl)]);

    // a read of three bytes is reported as IllegalSize
    simulator.set_out_value("ctrl", "out", SignalValue::Data(MemCtrl::Read as SignalUnsigned));
    simulator.set_out_value("size", "out", SignalValue::Data(3));
    let conds = simulator.clock();
    assert_eq!(conds, vec![("mem".to_string(), Condition::IllegalSize)]);

    // a write without concrete data is reported as NotData
    simulator.set_out_value("ctrl", "out", SignalValue::Data(MemCtrl::Write as SignalUnsigned));
    simulator.set_out_value("size", "out", SignalValue::Data(4));
    simulator.set_out_value("data", "out", SignalValue::DontCare);
    let conds = simulator.clock();
    assert_eq!(conds, vec![("mem".to_string(), Condition::NotData)]);

    // an idle tick raises nothing
    simulator.set_out_value("ctrl", "out", SignalValue::Data(0));
    let conds = simulator.clock();
    assert_eq!(conds, vec![]);
}

#[test]
fn clock_counter_increments_regardless_of_conditions() {
    let mut simulator = Simulator::new(mem_test_store(true));
    assert_eq!(simulator.cycle(), 1);
    // every wire still uninitialized on the probes' side is seeded 0,
    // so these ticks are idle; counter advances by exactly 1 each time
    for expected in 2..6usize {
        simulator.clock();
        assert_eq!(simulator.cycle(), expected);
    }
    // a tick that raises a condition still advances the counter by 1
    simulator.set_out_value("ctrl", "out", SignalValue::Data(7));
    simulator.clock();
    assert_eq!(simulator.cycle(), 6);
}

#[test]
fn repeated_reads_return_identical_values() {
    let mut simulator = Simulator::new(mem_test_store(false));
    simulator.set_out_value("data", "out", SignalValue::Data(0xabcd_1234));
    simulator.set_out_value("addr", "out", SignalValue::Data(16));
    simulator.set_out_value("size", "out", SignalValue::Data(4));
    simulator.set_out_value("ctrl", "out", SignalValue::Data(MemCtrl::Write as SignalUnsigned));
    simulator.clock();
    simulator.set_out_value("ctrl", "out", SignalValue::Data(MemCtrl::Read as SignalUnsigned));
    simulator.clock();
    let out = &Input::new("mem", "data");
    let first = simulator.get_input_value(out);
    assert_eq!(first, SignalValue::Data(0xabcd_1234));
    for _ in 0..3 {
        simulator.clock();
        assert_eq!(simulator.get_input_value(out), first);
    }
}
