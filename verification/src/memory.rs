//! Sparse byte-addressable memory with sized, signed/unsigned,
//! endian-aware access and misalignment detection.
//!
//! The store maps byte addresses to byte values; every address that
//! was never written reads as zero.  Reads of 1, 2 or 4 bytes are
//! assembled according to the requested endianness and, for widths
//! below the full signal width, optionally sign-extended.  Writes
//! decompose the low bytes of a data word in the same byte order.

use vstd::prelude::*;
use vstd::arithmetic::div_mod::{
    lemma_div_denominator, lemma_fundamental_div_mod, lemma_small_mod,
};
use crate::signal::SignalValue;

verus! {

/// The data word carried by a concrete signal, and zero for the
/// non-data states; contracts use it only under an `is Data` guard.
pub open spec fn data_word(v: SignalValue) -> int {
    if v is Data {
        v->Data_0 as int
    } else {
        0
    }
}

/// The byte stored at mathematical address `a`: the mapped value if
/// the address was ever set, and zero otherwise (including addresses
/// outside the machine's addressable range).
pub open spec fn mem_byte(m: Map<usize, u8>, a: int) -> u8 {
    if 0 <= a <= usize::MAX && m.dom().contains(a as usize) {
        m[a as usize]
    } else {
        0
    }
}

/// Two bytes assembled into a 16-bit value, least significant first.
pub open spec fn assemble2(lo: u8, hi: u8) -> int {
    lo + 0x100 * hi
}

/// Four bytes assembled into a 32-bit value, least significant first.
pub open spec fn assemble4(b0: u8, b1: u8, b2: u8, b3: u8) -> int {
    b0 + 0x100 * b1 + 0x10000 * b2 + 0x1000000 * b3
}

/// Sign extension of an 8-bit value to the 32-bit signal width.
pub open spec fn sign_extend_byte(v: int) -> int {
    if v < 0x80 {
        v
    } else {
        v + 0xFFFF_FF00
    }
}

/// Sign extension of a 16-bit value to the 32-bit signal width.
pub open spec fn sign_extend_half(v: int) -> int {
    if v < 0x8000 {
        v
    } else {
        v + 0xFFFF_0000
    }
}

/// The value delivered by a read of `size` bytes at `addr`: the bytes
/// are assembled per `big_endian`, and if `sign` is set and the width
/// is below the full signal width, sign-extended from that width.  At
/// full width `sign` has no effect.
pub open spec fn read_spec(m: Map<usize, u8>, addr: int, size: int, sign: bool, big_endian: bool) -> int
    recommends
        size == 1 || size == 2 || size == 4,
{
    if size == 1 {
        let v = mem_byte(m, addr) as int;
        if sign {
            sign_extend_byte(v)
        } else {
            v
        }
    } else if size == 2 {
        let v = if big_endian {
            assemble2(mem_byte(m, addr + 1), mem_byte(m, addr))
        } else {
            assemble2(mem_byte(m, addr), mem_byte(m, addr + 1))
        };
        if sign {
            sign_extend_half(v)
        } else {
            v
        }
    } else {
        if big_endian {
            assemble4(mem_byte(m, addr + 3), mem_byte(m, addr + 2), mem_byte(m, addr + 1), mem_byte(m, addr))
        } else {
            assemble4(mem_byte(m, addr), mem_byte(m, addr + 1), mem_byte(m, addr + 2), mem_byte(m, addr + 3))
        }
    }
}

/// The store after writing the low `size` bytes of `data` at `addr`,
/// ordered per `big_endian`.
pub open spec fn write_spec(m: Map<usize, u8>, addr: int, size: int, big_endian: bool, data: int) -> Map<usize, u8>
    recommends
        size == 1 || size == 2 || size == 4,
        0 <= addr,
        addr + size - 1 <= usize::MAX,
{
    if size == 1 {
        m.insert(addr as usize, (data % 0x100) as u8)
    } else if size == 2 {
        let lo = (data % 0x100) as u8;
        let hi = ((data / 0x100) % 0x100) as u8;
        if big_endian {
            m.insert(addr as usize, hi).insert((addr + 1) as usize, lo)
        } else {
            m.insert(addr as usize, lo).insert((addr + 1) as usize, hi)
        }
    } else {
        let b0 = (data % 0x100) as u8;
        let b1 = ((data / 0x100) % 0x100) as u8;
        let b2 = ((data / 0x10000) % 0x100) as u8;
        let b3 = ((data / 0x1000000) % 0x100) as u8;
        if big_endian {
            m.insert(addr as usize, b3).insert((addr + 1) as usize, b2).insert(
                (addr + 2) as usize,
                b1,
            ).insert((addr + 3) as usize, b0)
        } else {
            m.insert(addr as usize, b0).insert((addr + 1) as usize, b1).insert(
                (addr + 2) as usize,
                b2,
            ).insert((addr + 3) as usize, b3)
        }
    }
}

/// Round-trip law: for every access width in {1, 2, 4} and either
/// endianness, reading back an unsigned value that was just written
/// yields that value, provided it fits in the written width.
pub proof fn lemma_write_read_round_trip(
    m: Map<usize, u8>,
    addr: int,
    size: int,
    big_endian: bool,
    data: int,
)
    requires
        size == 1 || size == 2 || size == 4,
        0 <= addr,
        addr + size - 1 <= usize::MAX,
        0 <= data,
        size == 1 ==> data < 0x100,
        size == 2 ==> data < 0x10000,
        size == 4 ==> data < 0x1_0000_0000,
    ensures
        read_spec(write_spec(m, addr, size, big_endian, data), addr, size, false, big_endian)
            == data,
{
    if size == 1 {
        lemma_small_mod(data as nat, 0x100);
    } else if size == 2 {
        lemma_fundamental_div_mod(data, 0x100);
        lemma_small_mod((data / 0x100) as nat, 0x100);
    } else {
        let q1 = data / 0x100;
        let q2 = data / 0x10000;
        let q3 = data / 0x1000000;
        lemma_div_denominator(data, 0x100, 0x100);
        lemma_div_denominator(data, 0x10000, 0x100);
        assert(q1 / 0x100 == q2);
        assert(q2 / 0x100 == q3);
        lemma_fundamental_div_mod(data, 0x100);
        lemma_fundamental_div_mod(q1, 0x100);
        lemma_fundamental_div_mod(q2, 0x100);
        lemma_fundamental_div_mod(data, 0x1000000);
        lemma_small_mod(q3 as nat, 0x100);
    }
}

/// A sparse byte store.  Unset addresses read as zero.
#[derive(Debug)]
pub struct Memory {
    bytes: std::collections::BTreeMap<usize, u8>,
}

impl View for Memory {
    type V = Map<usize, u8>;

    closed spec fn view(&self) -> Map<usize, u8> {
        self.bytes@
    }
}

impl Memory {
    /// Creates a memory seeded with the given sparse contents.
    pub fn new(data: std::collections::BTreeMap<usize, u8>) -> (r: Memory)
        ensures
            r@ == data@,
    {
        Memory { bytes: data }
    }

    /// The byte currently stored at `addr` (zero if unset).
    pub fn get_byte(&self, addr: usize) -> (r: u8)
        ensures
            r == mem_byte(self@, addr as int),
    {
        match self.bytes.get(&addr) {
            Some(b) => *b,
            None => 0,
        }
    }

    /// The misalignment flag for an access of `size` bytes at `addr`:
    /// `Data(1)` iff the address is not a multiple of the size,
    /// `Data(0)` otherwise.
    pub fn align(&self, addr: usize, size: usize) -> (r: SignalValue)
        requires
            size > 0,
        ensures
            r == SignalValue::Data(if addr % size != 0 { 1u32 } else { 0u32 }),
            r == SignalValue::Data(1u32) <==> addr as int % size as int != 0,
            r == SignalValue::Data(0u32) <==> addr as int % size as int == 0,
    {
        SignalValue::Data(if addr % size != 0 { 1 } else { 0 })
    }

    /// Reads `size` consecutive bytes starting at `addr` and delivers
    /// them as a concrete signal per `read_spec`.
    pub fn read(&self, addr: usize, size: usize, sign: bool, big_endian: bool) -> (r: SignalValue)
        requires
            size == 1 || size == 2 || size == 4,
            addr + size - 1 <= usize::MAX,
        ensures
            r == SignalValue::Data(read_spec(self@, addr as int, size as int, sign, big_endian) as u32),
            r is Data,
    {
        if size == 1 {
            let b = self.get_byte(addr);
            let v: u32 = b as u32;
            if sign && v >= 0x80 {
                SignalValue::Data(v + 0xFFFF_FF00)
            } else {
                SignalValue::Data(v)
            }
        } else if size == 2 {
            let lo: u8;
            let hi: u8;
            if big_endian {
                hi = self.get_byte(addr);
                lo = self.get_byte(addr + 1);
            } else {
                lo = self.get_byte(addr);
                hi = self.get_byte(addr + 1);
            }
            let v: u32 = lo as u32 + 0x100 * hi as u32;
            if sign && v >= 0x8000 {
                SignalValue::Data(v + 0xFFFF_0000)
            } else {
                SignalValue::Data(v)
            }
        } else {
            let b0: u8;
            let b1: u8;
            let b2: u8;
            let b3: u8;
            if big_endian {
                b3 = self.get_byte(addr);
                b2 = self.get_byte(addr + 1);
                b1 = self.get_byte(addr + 2);
                b0 = self.get_byte(addr + 3);
            } else {
                b0 = self.get_byte(addr);
                b1 = self.get_byte(addr + 1);
                b2 = self.get_byte(addr + 2);
                b3 = self.get_byte(addr + 3);
            }
            let v: u32 = b0 as u32 + 0x100 * b1 as u32 + 0x10000 * b2 as u32 + 0x1000000 * b3 as u32;
            SignalValue::Data(v)
        }
    }

    /// Decomposes the low `size` bytes of `data` (which must be a
    /// concrete signal) and stores them at `addr..addr + size` in the
    /// byte order given by `big_endian`.
    pub fn write(&mut self, addr: usize, size: usize, big_endian: bool, data: SignalValue)
        requires
            size == 1 || size == 2 || size == 4,
            addr + size - 1 <= usize::MAX,
            data is Data,
        ensures
            final(self)@ == write_spec(old(self)@, addr as int, size as int, big_endian, data_word(data)),
    {
        let d: u32 = match data {
            SignalValue::Data(d) => d,
            _ => 0,
        };
        if size == 1 {
            self.bytes.insert(addr, (d % 0x100) as u8);
        } else if size == 2 {
            let lo: u8 = (d % 0x100) as u8;
            let hi: u8 = ((d / 0x100) % 0x100) as u8;
            if big_endian {
                self.bytes.insert(addr, hi);
                self.bytes.insert(addr + 1, lo);
            } else {
                self.bytes.insert(addr, lo);
                self.bytes.insert(addr + 1, hi);
            }
        } else {
            let b0: u8 = (d % 0x100) as u8;
            let b1: u8 = ((d / 0x100) % 0x100) as u8;
            let b2: u8 = ((d / 0x10000) % 0x100) as u8;
            let b3: u8 = ((d / 0x1000000) % 0x100) as u8;
            if big_endian {
                self.bytes.insert(addr, b3);
                self.bytes.insert(addr + 1, b2);
                self.bytes.insert(addr + 2, b1);
                self.bytes.insert(addr + 3, b0);
            } else {
                self.bytes.insert(addr, b0);
                self.bytes.insert(addr + 1, b1);
                self.bytes.insert(addr + 2, b2);
                self.bytes.insert(addr + 3, b3);
            }
        }
    }
}

} // verus!
