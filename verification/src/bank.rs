use vstd::prelude::*;

use crate::io::{IoKind, UartData};

verus! {

/// A byte-addressed register backing store: the model of one device's
/// register window that every driver in this library is verified against.
/// `mem[i]` holds the byte at address `base + i`. Multi-byte accesses
/// compose bytes little-endian; the big-endian access kind swaps on every
/// transfer. "Native order" is thus fixed to a little-endian host in this
/// model: the value-level decisions (ready bits, word judgements, interrupt
/// causes) are unaffected by that choice, only a raw byte inspection of the
/// window would differ on a big-endian host.
pub struct RegisterBank {
    pub base: usize,
    pub mem: Vec<u8>,
}

impl RegisterBank {
    /// The window's end address stays representable.
    pub open spec fn wf(self) -> bool {
        self.base + self.mem@.len() <= usize::MAX
    }

    /// `width` bytes starting at `addr` all lie inside the window.
    pub open spec fn contains_range(self, addr: int, width: int) -> bool {
        self.base <= addr && addr + width <= self.base + self.mem@.len()
    }

    pub open spec fn byte_at(self, addr: int) -> u8 {
        self.mem@[addr - self.base]
    }

    /// The 16-bit little-endian value at `addr`.
    pub open spec fn le16_at(self, addr: int) -> u16 {
        (self.byte_at(addr) + 256 * self.byte_at(addr + 1)) as u16
    }

    /// The 32-bit little-endian value at `addr`.
    pub open spec fn le32_at(self, addr: int) -> u32 {
        (self.byte_at(addr) + 256 * self.byte_at(addr + 1) + 65536 * self.byte_at(addr + 2)
            + 16777216 * self.byte_at(addr + 3)) as u32
    }

    /// The 32-bit big-endian value at `addr`.
    pub open spec fn be32_at(self, addr: int) -> u32 {
        (16777216 * self.byte_at(addr) + 65536 * self.byte_at(addr + 1) + 256 * self.byte_at(
            addr + 2,
        ) + self.byte_at(addr + 3)) as u32
    }

    /// The window's bytes after one byte is stored at `addr`.
    pub open spec fn store8(self, addr: int, v: u8) -> Seq<u8> {
        self.mem@.update(addr - self.base, v)
    }

    /// The window's bytes after a 16-bit little-endian store at `addr`.
    pub open spec fn store16_le(self, addr: int, v: u16) -> Seq<u8> {
        self.mem@.update(addr - self.base, (v % 256) as u8).update(
            addr + 1 - self.base,
            (v / 256) as u8,
        )
    }

    /// The window's bytes after a 32-bit little-endian store at `addr`.
    pub open spec fn store32_le(self, addr: int, v: u32) -> Seq<u8> {
        self.mem@.update(addr - self.base, (v % 256) as u8).update(
            addr + 1 - self.base,
            ((v / 256) % 256) as u8,
        ).update(addr + 2 - self.base, ((v / 65536) % 256) as u8).update(
            addr + 3 - self.base,
            (v / 16777216) as u8,
        )
    }

    /// The window's bytes after a 32-bit big-endian store at `addr`.
    pub open spec fn store32_be(self, addr: int, v: u32) -> Seq<u8> {
        self.mem@.update(addr - self.base, (v / 16777216) as u8).update(
            addr + 1 - self.base,
            ((v / 65536) % 256) as u8,
        ).update(addr + 2 - self.base, ((v / 256) % 256) as u8).update(
            addr + 3 - self.base,
            (v % 256) as u8,
        )
    }

    /// A fresh window of `size` zeroed bytes starting at `base`.
    pub fn new(base: usize, size: usize) -> (r: RegisterBank)
        requires
            base + size <= usize::MAX,
        ensures
            r.wf(),
            r.base == base,
            r.mem@.len() == size,
            forall|i: int| 0 <= i < size ==> r.mem@[i] == 0u8,
    {
        let mut mem: Vec<u8> = Vec::new();
        let mut i: usize = 0;
        while i < size
            invariant
                i <= size,
                mem@.len() == i,
                forall|k: int| 0 <= k < i ==> mem@[k] == 0u8,
            decreases size - i,
        {
            mem.push(0);
            i = i + 1;
        }
        RegisterBank { base, mem }
    }

    pub fn read8(&self, addr: usize) -> (r: u8)
        requires
            self.contains_range(addr as int, 1),
        ensures
            r == self.byte_at(addr as int),
    {
        self.mem[addr - self.base]
    }

    pub fn write8(&mut self, addr: usize, v: u8)
        requires
            old(self).contains_range(addr as int, 1),
        ensures
            final(self).base == old(self).base,
            final(self).mem@ == old(self).store8(addr as int, v),
    {
        let i = addr - self.base;
        self.mem.set(i, v);
    }

    pub fn read16_le(&self, addr: usize) -> (r: u16)
        requires
            self.wf(),
            self.contains_range(addr as int, 2),
        ensures
            r == self.le16_at(addr as int),
    {
        let b0 = self.mem[addr - self.base];
        let b1 = self.mem[addr - self.base + 1];
        b0 as u16 + 256 * (b1 as u16)
    }

    pub fn write16_le(&mut self, addr: usize, v: u16)
        requires
            old(self).wf(),
            old(self).contains_range(addr as int, 2),
        ensures
            final(self).base == old(self).base,
            final(self).mem@ == old(self).store16_le(addr as int, v),
    {
        let i = addr - self.base;
        self.mem.set(i, (v % 256) as u8);
        self.mem.set(i + 1, (v / 256) as u8);
    }

    pub fn read32_le(&self, addr: usize) -> (r: u32)
        requires
            self.wf(),
            self.contains_range(addr as int, 4),
        ensures
            r == self.le32_at(addr as int),
    {
        let b0 = self.mem[addr - self.base];
        let b1 = self.mem[addr - self.base + 1];
        let b2 = self.mem[addr - self.base + 2];
        let b3 = self.mem[addr - self.base + 3];
        b0 as u32 + 256 * (b1 as u32) + 65536 * (b2 as u32) + 16777216 * (b3 as u32)
    }

    pub fn write32_le(&mut self, addr: usize, v: u32)
        requires
            old(self).wf(),
            old(self).contains_range(addr as int, 4),
        ensures
            final(self).base == old(self).base,
            final(self).mem@ == old(self).store32_le(addr as int, v),
    {
        let i = addr - self.base;
        self.mem.set(i, (v % 256) as u8);
        self.mem.set(i + 1, ((v / 256) % 256) as u8);
        self.mem.set(i + 2, ((v / 65536) % 256) as u8);
        self.mem.set(i + 3, (v / 16777216) as u8);
    }

    pub fn read32_be(&self, addr: usize) -> (r: u32)
        requires
            self.wf(),
            self.contains_range(addr as int, 4),
        ensures
            r == self.be32_at(addr as int),
    {
        let b0 = self.mem[addr - self.base];
        let b1 = self.mem[addr - self.base + 1];
        let b2 = self.mem[addr - self.base + 2];
        let b3 = self.mem[addr - self.base + 3];
        16777216 * (b0 as u32) + 65536 * (b1 as u32) + 256 * (b2 as u32) + b3 as u32
    }

    pub fn write32_be(&mut self, addr: usize, v: u32)
        requires
            old(self).wf(),
            old(self).contains_range(addr as int, 4),
        ensures
            final(self).base == old(self).base,
            final(self).mem@ == old(self).store32_be(addr as int, v),
    {
        let i = addr - self.base;
        self.mem.set(i, (v / 16777216) as u8);
        self.mem.set(i + 1, ((v / 65536) % 256) as u8);
        self.mem.set(i + 2, ((v / 256) % 256) as u8);
        self.mem.set(i + 3, (v % 256) as u8);
    }
}

/// One register unit of `u` spans `width(u.io_kind)` bytes starting at
/// `base + reg * width`; this says that unit lies inside the window.
pub open spec fn reg_in_window(u: UartData, bank: RegisterBank, reg: int) -> bool {
    bank.wf() && bank.contains_range(
        u.base + reg * u.io_kind.spec_width(),
        u.io_kind.spec_width() as int,
    )
}

/// What a register-unit read of `reg` returns: the access kind fixes the
/// effective address, the transfer width, and the byte order. Port I/O moves
/// one byte; the result of narrower kinds is zero-extended to 32 bits.
pub open spec fn reg_read_spec(u: UartData, bank: RegisterBank, reg: int) -> u32 {
    match u.io_kind {
        IoKind::Port => bank.byte_at(u.base + reg) as u32,
        IoKind::Mmio16 => bank.le16_at(u.base + 2 * reg) as u32,
        IoKind::Mmio => bank.le32_at(u.base + 4 * reg),
        IoKind::Mmio32 => bank.le32_at(u.base + 4 * reg),
        IoKind::Mmio32be => bank.be32_at(u.base + 4 * reg),
    }
}

/// The window's bytes after a register-unit write of `val` to `reg`: values
/// wider than the transfer width are truncated, as the hardware bus would.
pub open spec fn reg_write_spec(u: UartData, bank: RegisterBank, reg: int, val: u32) -> Seq<u8> {
    match u.io_kind {
        IoKind::Port => bank.store8(u.base + reg, (val % 256) as u8),
        IoKind::Mmio16 => bank.store16_le(u.base + 2 * reg, (val % 65536) as u16),
        IoKind::Mmio => bank.store32_le(u.base + 4 * reg, val),
        IoKind::Mmio32 => bank.store32_le(u.base + 4 * reg, val),
        IoKind::Mmio32be => bank.store32_be(u.base + 4 * reg, val),
    }
}

/// Read the register unit `reg` of `u` with the width and byte order its
/// access kind prescribes.
pub fn reg_read(u: UartData, bank: &RegisterBank, reg: usize) -> (r: u32)
    requires
        reg_in_window(u, *bank, reg as int),
    ensures
        r == reg_read_spec(u, *bank, reg as int),
{
    match u.io_kind {
        IoKind::Port => bank.read8(u.base + reg) as u32,
        IoKind::Mmio16 => bank.read16_le(u.base + 2 * reg) as u32,
        IoKind::Mmio => bank.read32_le(u.base + 4 * reg),
        IoKind::Mmio32 => bank.read32_le(u.base + 4 * reg),
        IoKind::Mmio32be => bank.read32_be(u.base + 4 * reg),
    }
}

/// Splitting a 32-bit value into its four bytes and reassembling them gives
/// the value back.
pub proof fn lemma_u32_byte_recomposition(v: u32)
    ensures
        v == (v % 256) + 256 * ((v / 256) % 256) + 65536 * ((v / 65536) % 256) + 16777216 * (v
            / 16777216),
{
    vstd::arithmetic::div_mod::lemma_fundamental_div_mod(v as int, 256);
    vstd::arithmetic::div_mod::lemma_fundamental_div_mod(v as int / 256, 256);
    vstd::arithmetic::div_mod::lemma_fundamental_div_mod(v as int / 65536, 256);
    vstd::arithmetic::div_mod::lemma_div_denominator(v as int, 256, 256);
    vstd::arithmetic::div_mod::lemma_div_denominator(v as int, 65536, 256);
}

/// After a 16-bit little-endian store, the stored value reads back, and the
/// window keeps its length.
pub proof fn lemma_store16_le_reads_back(b1: RegisterBank, b2: RegisterBank, addr: int, v: u16)
    requires
        b1.wf(),
        b1.contains_range(addr, 2),
        b2.base == b1.base,
        b2.mem@ == b1.store16_le(addr, v),
    ensures
        b2.wf(),
        b2.mem@.len() == b1.mem@.len(),
        b2.le16_at(addr) == v,
        forall|a: int|
            b1.contains_range(a, 1) && !(addr <= a < addr + 2) ==> b2.byte_at(a) == b1.byte_at(a),
{
    vstd::arithmetic::div_mod::lemma_fundamental_div_mod(v as int, 256);
}

/// After a 32-bit little-endian store, the stored value reads back, the
/// window keeps its length, and every byte outside the four written cells is
/// unchanged.
pub proof fn lemma_store32_le_reads_back(b1: RegisterBank, b2: RegisterBank, addr: int, v: u32)
    requires
        b1.wf(),
        b1.contains_range(addr, 4),
        b2.base == b1.base,
        b2.mem@ == b1.store32_le(addr, v),
    ensures
        b2.wf(),
        b2.mem@.len() == b1.mem@.len(),
        b2.le32_at(addr) == v,
        forall|a: int|
            b1.contains_range(a, 1) && !(addr <= a < addr + 4) ==> b2.byte_at(a) == b1.byte_at(a),
{
    lemma_u32_byte_recomposition(v);
}

/// After a 32-bit big-endian store, the stored value reads back through a
/// big-endian read, the window keeps its length, and every byte outside the
/// four written cells is unchanged.
pub proof fn lemma_store32_be_reads_back(b1: RegisterBank, b2: RegisterBank, addr: int, v: u32)
    requires
        b1.wf(),
        b1.contains_range(addr, 4),
        b2.base == b1.base,
        b2.mem@ == b1.store32_be(addr, v),
    ensures
        b2.wf(),
        b2.mem@.len() == b1.mem@.len(),
        b2.be32_at(addr) == v,
        forall|a: int|
            b1.contains_range(a, 1) && !(addr <= a < addr + 4) ==> b2.byte_at(a) == b1.byte_at(a),
{
    lemma_u32_byte_recomposition(v);
}

/// Through the big-endian access kind the most significant byte of the value
/// lands at the lowest address: a raw inspection of the window after the
/// write shows the value's bytes in big-endian order. `before` and `after`
/// are the window around one register write.
pub proof fn lemma_be_write_byte_order(
    u: UartData,
    before: RegisterBank,
    after: RegisterBank,
    reg: int,
    v: u32,
)
    requires
        u.io_kind is Mmio32be,
        reg_in_window(u, before, reg),
        after.base == before.base,
        after.mem@ == reg_write_spec(u, before, reg, v),
    ensures
        after.byte_at(u.base + 4 * reg) as int == v / 16777216,
        after.byte_at(u.base + 4 * reg + 1) as int == (v / 65536) % 256,
        after.byte_at(u.base + 4 * reg + 2) as int == (v / 256) % 256,
        after.byte_at(u.base + 4 * reg + 3) as int == v % 256,
{
}

/// Register round trip: a register-unit read returns what the last write
/// to that unit stored — the written value truncated to the access kind's
/// transfer width, whatever the byte order. `before` and `after` are the
/// window around one register write.
pub proof fn lemma_reg_write_read_roundtrip(
    u: UartData,
    before: RegisterBank,
    after: RegisterBank,
    reg: int,
    v: u32,
)
    requires
        reg_in_window(u, before, reg),
        after.base == before.base,
        after.mem@ == reg_write_spec(u, before, reg, v),
    ensures
        reg_read_spec(u, after, reg) == match u.io_kind {
            IoKind::Port => v % 256,
            IoKind::Mmio16 => v % 65536,
            IoKind::Mmio => v,
            IoKind::Mmio32 => v,
            IoKind::Mmio32be => v,
        },
{
    match u.io_kind {
        IoKind::Port => {
        },
        IoKind::Mmio16 => {
            lemma_store16_le_reads_back(before, after, u.base + 2 * reg, (v % 65536) as u16);
        },
        IoKind::Mmio | IoKind::Mmio32 => {
            lemma_store32_le_reads_back(before, after, u.base + 4 * reg, v);
        },
        IoKind::Mmio32be => {
            lemma_store32_be_reads_back(before, after, u.base + 4 * reg, v);
        },
    }
}

/// Whether the bit of weight `pow` (a power of two) is set in `v`.
pub open spec fn bit_set(v: u32, pow: u32) -> bool {
    (v / pow) % 2 == 1
}

/// Test the bit of weight `pow` in `v`.
pub fn test_bit(v: u32, pow: u32) -> (r: bool)
    requires
        pow >= 1,
    ensures
        r == bit_set(v, pow),
{
    (v / pow) % 2 == 1
}

/// Write `val` to the register unit `reg` of `u` with the width and byte
/// order its access kind prescribes.
pub fn reg_write(u: UartData, bank: &mut RegisterBank, reg: usize, val: u32)
    requires
        reg_in_window(u, *old(bank), reg as int),
    ensures
        final(bank).base == old(bank).base,
        final(bank).mem@ == reg_write_spec(u, *old(bank), reg as int, val),
{
    match u.io_kind {
        IoKind::Port => bank.write8(u.base + reg, (val % 256) as u8),
        IoKind::Mmio16 => bank.write16_le(u.base + 2 * reg, (val % 65536) as u16),
        IoKind::Mmio => bank.write32_le(u.base + 4 * reg, val),
        IoKind::Mmio32 => bank.write32_le(u.base + 4 * reg, val),
        IoKind::Mmio32be => bank.write32_be(u.base + 4 * reg, val),
    }
}

} // verus!
