use cyclesim::{Condition, MemCtrl, Memory, SignalValue};
use std::collections::BTreeMap;

fn empty_memory() -> Memory {
    Memory::new(BTreeMap::new())
}

#[test]
fn round_trip_all_sizes_and_endiannesses() {
    for &big_endian in &[true, false] {
        for &(size, value) in &[(1usize, 0xA5u32), (2, 0xBEEF), (4, 0xDEAD_BEEF)] {
            let mut mem = empty_memory();
            mem.write(32, size, big_endian, SignalValue::Data(value));
            assert_eq!(mem.read(32, size, false, big_endian), SignalValue::Data(value));
        }
    }
}

#[test]
fn round_trip_truncates_to_written_width() {
    let mut mem = empty_memory();
    mem.write(8, 1, false, SignalValue::Data(0x0102_03FF));
    assert_eq!(mem.read(8, 1, false, false), SignalValue::Data(0xFF));
    mem.write(16, 2, true, SignalValue::Data(0xABCD_1234));
    assert_eq!(mem.read(16, 2, false, true), SignalValue::Data(0x1234));
}

#[test]
fn sign_extension_of_byte() {
    let mut mem = empty_memory();
    mem.write(4, 1, true, SignalValue::Data(0xF0));
    assert_eq!(mem.read(4, 1, true, true), SignalValue::Data(0xFFFF_FFF0));
    assert_eq!(mem.read(4, 1, false, true), SignalValue::Data(0x0000_00F0));
}

#[test]
fn sign_extension_of_halfword() {
    let mut mem = empty_memory();
    mem.write(6, 2, false, SignalValue::Data(0x8001));
    assert_eq!(mem.read(6, 2, true, false), SignalValue::Data(0xFFFF_8001));
    assert_eq!(mem.read(6, 2, false, false), SignalValue::Data(0x0000_8001));
    // at full width the sign flag has no effect
    let mut mem = empty_memory();
    mem.write(8, 4, false, SignalValue::Data(0x8000_0001));
    assert_eq!(mem.read(8, 4, true, false), SignalValue::Data(0x8000_0001));
    assert_eq!(mem.read(8, 4, false, false), SignalValue::Data(0x8000_0001));
}

#[test]
fn endianness_byte_order() {
    let mut mem = empty_memory();
    mem.write(10, 2, true, SignalValue::Data(0x1234));
    assert_eq!(mem.read(10, 1, false, true), SignalValue::Data(0x12));
    assert_eq!(mem.read(11, 1, false, true), SignalValue::Data(0x34));

    let mut mem = empty_memory();
    mem.write(10, 2, false, SignalValue::Data(0x1234));
    assert_eq!(mem.read(10, 1, false, false), SignalValue::Data(0x34));
    assert_eq!(mem.read(11, 1, false, false), SignalValue::Data(0x12));
}

#[test]
fn endianness_word_order() {
    let mut mem = empty_memory();
    mem.write(0, 4, true, SignalValue::Data(0x0102_0304));
    assert_eq!(mem.read(0, 1, false, true), SignalValue::Data(0x01));
    assert_eq!(mem.read(1, 1, false, true), SignalValue::Data(0x02));
    assert_eq!(mem.read(2, 1, false, true), SignalValue::Data(0x03));
    assert_eq!(mem.read(3, 1, false, true), SignalValue::Data(0x04));
    mem.write(0, 4, false, SignalValue::Data(0x0102_0304));
    assert_eq!(mem.read(0, 1, false, false), SignalValue::Data(0x04));
    assert_eq!(mem.read(3, 1, false, false), SignalValue::Data(0x01));
}

#[test]
fn unset_addresses_read_as_zero() {
    let mem = empty_memory();
    assert_eq!(mem.read(1000, 4, false, true), SignalValue::Data(0));
    assert_eq!(mem.read(0, 1, true, false), SignalValue::Data(0));
}

#[test]
fn initial_contents_are_visible() {
    let mut seed = BTreeMap::new();
    seed.insert(0usize, 0x12u8);
    seed.insert(1usize, 0x34u8);
    seed.insert(2usize, 0x56u8);
    seed.insert(3usize, 0x78u8);
    let mem = Memory::new(seed);
    assert_eq!(mem.read(0, 4, false, true), SignalValue::Data(0x1234_5678));
    assert_eq!(mem.read(0, 4, false, false), SignalValue::Data(0x7856_3412));
}

#[test]
fn alignment_flag() {
    let mem = empty_memory();
    // a word access is misaligned at 5, 6 and 7 but not at 4 or 8
    assert_eq!(mem.align(4, 4), SignalValue::Data(0));
    assert_eq!(mem.align(5, 4), SignalValue::Data(1));
    assert_eq!(mem.align(6, 4), SignalValue::Data(1));
    assert_eq!(mem.align(7, 4), SignalValue::Data(1));
    assert_eq!(mem.align(8, 4), SignalValue::Data(0));
    // a halfword access is misaligned at 9 but not at 10
    assert_eq!(mem.align(9, 2), SignalValue::Data(1));
    assert_eq!(mem.align(10, 2), SignalValue::Data(0));
    // byte accesses are never misaligned
    assert_eq!(mem.align(9, 1), SignalValue::Data(0));
}

#[test]
fn signal_conversions() {
    assert_eq!(SignalValue::Data(5).try_to_unsigned(), Ok(5));
    assert_eq!(SignalValue::Uninitialized.try_to_unsigned(), Err(Condition::NotData));
    assert_eq!(SignalValue::Unknown.try_to_unsigned(), Err(Condition::NotData));
    assert_eq!(SignalValue::DontCare.try_to_unsigned(), Err(Condition::NotData));
    assert_eq!(SignalValue::Data(0xFFFF_FFFF).try_to_signed(), Ok(-1));
    assert_eq!(SignalValue::Data(7).try_to_signed(), Ok(7));
    assert_eq!(SignalValue::Unknown.try_to_signed(), Err(Condition::NotData));
    assert_eq!(SignalValue::from_signed(-1), SignalValue::Data(0xFFFF_FFFF));
    assert_eq!(SignalValue::from_signed(12), SignalValue::Data(12));
}

#[test]
fn control_decode() {
    assert_eq!(MemCtrl::try_from_unsigned(0), Some(MemCtrl::Idle));
    assert_eq!(MemCtrl::try_from_unsigned(1), Some(MemCtrl::Read));
    assert_eq!(MemCtrl::try_from_unsigned(2), Some(MemCtrl::Write));
    assert_eq!(MemCtrl::try_from_unsigned(3), None);
    assert_eq!(MemCtrl::try_from_unsigned(0xFF), None);
    // only the low byte of the control word is significant
    assert_eq!(MemCtrl::try_from_unsigned(0x100), Some(MemCtrl::Idle));
    assert_eq!(MemCtrl::try_from_unsigned(0x102), Some(MemCtrl::Write));
}
