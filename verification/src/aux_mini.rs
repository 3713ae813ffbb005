use vstd::prelude::*;

use crate::bank::{bit_set, test_bit, RegisterBank};
use crate::io::{UartData, UartError};

verus! {

/// The "simple FIFO" controller family: one 32-bit data register at the base
/// address and one 32-bit status register at byte offset 0x24. Status bit 0
/// is receive-ready; status bit 5 is transmit-FIFO-full, so the transmitter
/// can accept a byte exactly when that bit is clear. This family has no
/// interrupt enable/status/acknowledge path.
pub struct AuxMini {}

pub const AUX_STATUS_OFFSET: usize = 0x24;

impl AuxMini {
    /// The device's registers fit inside the backing window.
    pub open spec fn window(u: UartData, bank: RegisterBank) -> bool {
        bank.wf() && bank.contains_range(u.base as int, 0x28)
    }

    pub open spec fn can_put_spec(u: UartData, bank: RegisterBank) -> bool {
        !bit_set(bank.le32_at(u.base + AUX_STATUS_OFFSET), 32)
    }

    pub open spec fn can_get_spec(u: UartData, bank: RegisterBank) -> bool {
        bit_set(bank.le32_at(u.base + AUX_STATUS_OFFSET), 1)
    }

    /// The window's bytes after a byte is sent: the byte is written,
    /// zero-extended, to the 32-bit data register.
    pub open spec fn put_mem(u: UartData, bank: RegisterBank, byte: u8) -> Seq<u8> {
        bank.store32_le(u.base as int, byte as u32)
    }

    /// What a receive returns: the low byte of the 32-bit data register.
    pub open spec fn get_result(u: UartData, bank: RegisterBank) -> u8 {
        (bank.le32_at(u.base as int) % 256) as u8
    }

    /// Transmit-ready decision from a raw status word: bit 5 is "FIFO full".
    pub fn can_put_bits(status: u32) -> (r: bool)
        ensures
            r == !bit_set(status, 32),
    {
        !test_bit(status, 32)
    }

    /// Receive-ready decision from a raw status word: bit 0 is "data ready".
    pub fn can_get_bits(status: u32) -> (r: bool)
        ensures
            r == bit_set(status, 1),
    {
        test_bit(status, 1)
    }

    pub fn can_put(u: UartData, bank: &RegisterBank) -> (r: bool)
        requires
            Self::window(u, *bank),
        ensures
            r == Self::can_put_spec(u, *bank),
    {
        let status = bank.read32_le(u.base + AUX_STATUS_OFFSET);
        Self::can_put_bits(status)
    }

    pub fn can_get(u: UartData, bank: &RegisterBank) -> (r: bool)
        requires
            Self::window(u, *bank),
        ensures
            r == Self::can_get_spec(u, *bank),
    {
        let status = bank.read32_le(u.base + AUX_STATUS_OFFSET);
        Self::can_get_bits(status)
    }

    /// Write one byte to the data register. Never fails.
    pub fn put(u: UartData, bank: &mut RegisterBank, byte: u8) -> (r: Result<(), UartError>)
        requires
            Self::window(u, *old(bank)),
        ensures
            r == Ok::<(), UartError>(()),
            final(bank).base == old(bank).base,
            final(bank).mem@ == Self::put_mem(u, *old(bank), byte),
    {
        bank.write32_le(u.base, byte as u32);
        Ok(())
    }

    /// Writing a status word whose transmit-FIFO-full bit (bit 5) is clear
    /// makes the transmitter report ready, and setting it makes it report
    /// busy; the receiver reports ready exactly when the written data-ready
    /// bit (bit 0) is set. `before` and `after` are the window around one
    /// store to the status register.
    pub proof fn lemma_status_controls_ready(
        u: UartData,
        before: RegisterBank,
        after: RegisterBank,
        v: u32,
    )
        requires
            Self::window(u, before),
            after.base == before.base,
            after.mem@ == before.store32_le(u.base + AUX_STATUS_OFFSET, v),
        ensures
            Self::window(u, after),
            Self::can_put_spec(u, after) == !bit_set(v, 32),
            Self::can_get_spec(u, after) == bit_set(v, 1),
    {
        crate::bank::lemma_store32_le_reads_back(before, after, u.base + AUX_STATUS_OFFSET, v);
    }

    /// Read one byte from the data register. Never fails.
    pub fn get(u: UartData, bank: &mut RegisterBank) -> (r: Result<u8, UartError>)
        requires
            Self::window(u, *old(bank)),
        ensures
            *final(bank) == *old(bank),
            r == Ok::<u8, UartError>(Self::get_result(u, *old(bank))),
    {
        let data = bank.read32_le(u.base);
        Ok((data % 256) as u8)
    }
}

} // verus!
