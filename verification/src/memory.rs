//! The memory bus: a flat 64 KiB address space with 8-bit cells, read and
//! written one byte at a time or as little-endian 16-bit pairs.
//!
//! Map: `0x0000`-`0x00FF` zero page, `0x0100`-`0x01FF` stack,
//! `0x0200`-`0x05FF` display buffer convention, `0x8000` up program ROM.
//! The interrupt vectors at `0xFFFA`-`0xFFFF` are documented but unused.

use vstd::prelude::*;

verus! {

pub const STACK_BASE: u16 = 0x0100;

/// Number of addressable cells: one for every 16-bit address.
pub const MEMORY_SIZE: usize = 0x10000;

/// The ROM base: programs are loaded here, and reset starts the program
/// counter here.
pub const ROM_BASE: u16 = 0x8000;

/// A 16-bit-addressed, 8-bit-celled memory.
///
/// `Data` is the cell type and `Addr` the address type; the emulator's
/// memory instantiates them at `u8` and `u16`.
pub trait MemoryBus {
    type Data;

    type Addr;

    fn rom(&mut self, data: &[Self::Data]);

    fn write(&mut self, addr: Self::Addr, data: Self::Data);

    fn read(&self, addr: Self::Addr) -> Self::Data;

    fn write_addr(&mut self, addr: Self::Addr, data: Self::Addr);

    fn read_addr(&self, addr: Self::Addr) -> Self::Addr;
}

/// The little-endian 16-bit value held at `addr` and the following cell,
/// the address wrapping at the top of the address space.
pub open spec fn spec_read16(mem: Seq<u8>, addr: u16) -> u16
    recommends
        mem.len() == MEMORY_SIZE,
{
    (mem[addr as int] + 0x100 * mem[addr.wrapping_add(1) as int]) as u16
}

/// Memory after a little-endian 16-bit store at `addr`, the address
/// wrapping at the top of the address space.
pub open spec fn spec_write16(mem: Seq<u8>, addr: u16, data: u16) -> Seq<u8>
    recommends
        mem.len() == MEMORY_SIZE,
{
    mem.update(addr as int, (data & 0xff) as u8).update(
        addr.wrapping_add(1) as int,
        (data >> 8) as u8,
    )
}

pub struct Memory {
    mem: Vec<u8>,
}

impl View for Memory {
    type V = Seq<u8>;

    closed spec fn view(&self) -> Seq<u8> {
        self.mem@
    }
}

impl Memory {
    #[verifier::type_invariant]
    spec fn type_inv(&self) -> bool {
        self.mem@.len() == MEMORY_SIZE
    }

    /// Fresh memory, every cell zero.
    pub fn new() -> (r: Memory)
        ensures
            r@ == Seq::new(MEMORY_SIZE as nat, |i: int| 0u8),
    {
        let mut mem: Vec<u8> = Vec::new();
        while mem.len() < MEMORY_SIZE
            invariant
                mem@ =~= Seq::new(mem@.len(), |i: int| 0u8),
                mem@.len() <= MEMORY_SIZE,
            decreases MEMORY_SIZE - mem@.len(),
        {
            mem.push(0);
        }
        assert(mem@ =~= Seq::new(MEMORY_SIZE as nat, |i: int| 0u8));
        Memory { mem }
    }

    /// How many cells the memory has; always `MEMORY_SIZE`.
    pub fn len(&self) -> (r: usize)
        ensures
            r == self@.len(),
            r == MEMORY_SIZE,
    {
        proof {
            use_type_invariant(self);
        }
        self.mem.len()
    }

    /// Copy `program` into memory starting at the ROM base.
    pub fn rom(&mut self, program: &[u8])
        requires
            program@.len() <= MEMORY_SIZE - ROM_BASE as int,
        ensures
            final(self)@ =~= old(self)@.subrange(0, ROM_BASE as int) + program@ + old(
                self,
            )@.subrange(ROM_BASE as int + program@.len(), MEMORY_SIZE as int),
    {
        proof {
            use_type_invariant(&*self);
        }
        let mut i: usize = 0;
        while i < program.len()
            invariant
                i <= program@.len(),
                program@.len() <= MEMORY_SIZE - ROM_BASE as int,
                old(self).mem@.len() == MEMORY_SIZE,
                self.mem@.len() == MEMORY_SIZE,
                self.mem@ =~= old(self).mem@.subrange(0, ROM_BASE as int) + program@.subrange(
                    0,
                    i as int,
                ) + old(self).mem@.subrange(ROM_BASE as int + i, MEMORY_SIZE as int),
            decreases program@.len() - i,
        {
            self.mem[ROM_BASE as usize + i] = program[i];
            i = i + 1;
        }
    }

    /// Store one byte at `addr`.
    pub fn write(&mut self, addr: u16, data: u8)
        ensures
            final(self)@ == old(self)@.update(addr as int, data),
    {
        proof {
            use_type_invariant(&*self);
        }
        self.mem[addr as usize] = data;
    }

    /// The byte held at `addr`.
    pub fn read(&self, addr: u16) -> (r: u8)
        ensures
            r == self@[addr as int],
    {
        proof {
            use_type_invariant(self);
        }
        self.mem[addr as usize]
    }

    /// Store a 16-bit value at `addr`, little-endian: the low byte at
    /// `addr`, the high byte at the next cell (wrapping at the top).
    pub fn write_addr(&mut self, addr: u16, data: u16)
        ensures
            final(self)@ == spec_write16(old(self)@, addr, data),
    {
        let lsb: u8 = (data & 0xff) as u8;
        let msb: u8 = (data >> 8) as u8;
        self.write(addr, lsb);
        self.write(addr.wrapping_add(1), msb);
    }

    /// The little-endian 16-bit value held at `addr` and the next cell
    /// (wrapping at the top).
    pub fn read_addr(&self, addr: u16) -> (r: u16)
        ensures
            r == spec_read16(self@, addr),
    {
        let lsb = self.read(addr);
        let msb = self.read(addr.wrapping_add(1));
        lsb as u16 + 0x100 * (msb as u16)
    }
}

impl MemoryBus for Memory {
    type Data = u8;

    type Addr = u16;

    fn rom(&mut self, data: &[u8]) {
        if data.len() <= MEMORY_SIZE - ROM_BASE as usize {
            self.rom(data);
        }
    }

    fn write(&mut self, addr: u16, data: u8) {
        self.write(addr, data);
    }

    fn read(&self, addr: u16) -> u8 {
        self.read(addr)
    }

    fn write_addr(&mut self, addr: u16, data: u16) {
        self.write_addr(addr, data);
    }

    fn read_addr(&self, addr: u16) -> u16 {
        self.read_addr(addr)
    }
}

/// Writing a 16-bit value and reading it back at the same address yields
/// the value unchanged; in particular for every `addr <= 0xFFFD` the pair
/// of cells lies inside the address space and holds the little-endian
/// image of `v`.
pub proof fn lemma_write16_read16(mem: Seq<u8>, addr: u16, v: u16)
    requires
        mem.len() == MEMORY_SIZE,
    ensures
        spec_read16(spec_write16(mem, addr, v), addr) == v,
{
    let addr1 = addr.wrapping_add(1);
    assert(addr1 != addr);
    assert(((v & 0xff) as u8) + 0x100 * ((v >> 8) as u8) == v) by (bit_vector);
}

} // verus!
