use vstd::prelude::*;

use crate::bank::{bit_set, test_bit, RegisterBank};
use crate::io::{IrqEvent, UartData, UartError};

verus! {

/// The ARM-style UART family with a separate flag register. Registers, as
/// byte offsets from the base address: data (32-bit) at 0, the error-clear
/// register (32-bit) at 4, the flag register (8-bit read) at 0x18, and the
/// interrupt mask / raw-status / clear registers (32-bit) at 0x38, 0x3C and
/// 0x44. Flag bit 4 is receive-FIFO-empty and flag bit 5 is
/// transmit-FIFO-full, so each direction is ready when its bit is clear.
/// Interrupt source bits: bit 4 receive, bit 5 transmit.
pub struct Pl011 {}

pub const PL011_ECR_OFFSET: usize = 0x04;

pub const PL011_FLAG_OFFSET: usize = 0x18;

pub const PL011_IMSC_OFFSET: usize = 0x38;

pub const PL011_RIS_OFFSET: usize = 0x3C;

pub const PL011_ICR_OFFSET: usize = 0x44;

/// The interrupt-mask value that enables the receive and transmit sources:
/// bits 4 and 5.
pub const PL011_RXI_TXI: u32 = 0x30;

impl Pl011 {
    /// The device's registers fit inside the backing window.
    pub open spec fn window(u: UartData, bank: RegisterBank) -> bool {
        bank.wf() && bank.contains_range(u.base as int, 0x48)
    }

    pub open spec fn can_put_spec(u: UartData, bank: RegisterBank) -> bool {
        !bit_set(bank.byte_at(u.base + PL011_FLAG_OFFSET) as u32, 32)
    }

    pub open spec fn can_get_spec(u: UartData, bank: RegisterBank) -> bool {
        !bit_set(bank.byte_at(u.base + PL011_FLAG_OFFSET) as u32, 16)
    }

    /// The window's bytes after a byte is sent: a one-byte write to the data
    /// register.
    pub open spec fn put_mem(u: UartData, bank: RegisterBank, byte: u8) -> Seq<u8> {
        bank.store8(u.base as int, byte)
    }

    /// A received data word is clean when none of the error indicators in
    /// its upper bits (break, parity, framing, overrun) is set.
    pub open spec fn rx_word_clean(data: u32) -> bool {
        data < 256
    }

    /// What a receive returns: the low byte of a clean data word, or a
    /// transport error for a word with error indicators.
    pub open spec fn get_result_spec(u: UartData, bank: RegisterBank) -> Result<u8, UartError> {
        if Self::rx_word_clean(bank.le32_at(u.base as int)) {
            Ok((bank.le32_at(u.base as int) % 256) as u8)
        } else {
            Err(UartError::Transport)
        }
    }

    /// The window's bytes after a receive: reporting an errored word clears
    /// the error condition by writing an all-ones pattern to the error-clear
    /// register; a clean receive leaves the window unchanged.
    pub open spec fn get_mem_spec(u: UartData, bank: RegisterBank) -> Seq<u8> {
        if Self::rx_word_clean(bank.le32_at(u.base as int)) {
            bank.mem@
        } else {
            bank.store32_le(u.base + PL011_ECR_OFFSET, 0xFFFFFFFFu32)
        }
    }

    /// Transmit-ready decision from the raw flag byte: bit 5 is "FIFO full".
    pub fn can_put_bits(flags: u8) -> (r: bool)
        ensures
            r == !bit_set(flags as u32, 32),
    {
        !test_bit(flags as u32, 32)
    }

    /// Receive-ready decision from the raw flag byte: bit 4 is "FIFO empty".
    pub fn can_get_bits(flags: u8) -> (r: bool)
        ensures
            r == !bit_set(flags as u32, 16),
    {
        !test_bit(flags as u32, 16)
    }

    /// Whether a raw data word is clean, i.e. carries no error indicator.
    pub fn rx_word_ok(data: u32) -> (r: bool)
        ensures
            r == Self::rx_word_clean(data),
    {
        data < 256
    }

    /// The pending-interrupt decision: a source counts only when it is both
    /// asserted in the raw status and enabled in the mask.
    pub fn irq_event_bits(ris: u32, mask: u32) -> (r: IrqEvent)
        ensures
            r.rx == (bit_set(ris, 16) && bit_set(mask, 16)),
            r.tx == (bit_set(ris, 32) && bit_set(mask, 32)),
    {
        IrqEvent {
            rx: test_bit(ris, 16) && test_bit(mask, 16),
            tx: test_bit(ris, 32) && test_bit(mask, 32),
        }
    }

    /// The acknowledge pattern for an event: the OR of the receive and
    /// transmit source bits that are being cleared.
    pub fn ack_bits(event: IrqEvent) -> (r: u32)
        ensures
            r == Self::ack_bits_spec(event),
    {
        let rx_bit: u32 = if event.rx { 16 } else { 0 };
        let tx_bit: u32 = if event.tx { 32 } else { 0 };
        rx_bit + tx_bit
    }

    pub open spec fn ack_bits_spec(event: IrqEvent) -> u32 {
        ((if event.rx { 16int } else { 0int }) + (if event.tx { 32int } else { 0int })) as u32
    }

    pub fn can_put(u: UartData, bank: &RegisterBank) -> (r: bool)
        requires
            Self::window(u, *bank),
        ensures
            r == Self::can_put_spec(u, *bank),
    {
        let flags = bank.read8(u.base + PL011_FLAG_OFFSET);
        Self::can_put_bits(flags)
    }

    pub fn can_get(u: UartData, bank: &RegisterBank) -> (r: bool)
        requires
            Self::window(u, *bank),
        ensures
            r == Self::can_get_spec(u, *bank),
    {
        let flags = bank.read8(u.base + PL011_FLAG_OFFSET);
        Self::can_get_bits(flags)
    }

    /// Writing a flag byte whose transmit-FIFO-full bit (bit 5) is clear
    /// makes the transmitter report ready, and setting it makes it report
    /// busy; the receiver reports ready exactly when the written
    /// receive-FIFO-empty bit (bit 4) is clear. `before` and `after` are the
    /// window around one store to the flag register.
    pub proof fn lemma_status_controls_ready(
        u: UartData,
        before: RegisterBank,
        after: RegisterBank,
        flags: u8,
    )
        requires
            Self::window(u, before),
            after.base == before.base,
            after.mem@ == before.store8(u.base + PL011_FLAG_OFFSET, flags),
        ensures
            Self::window(u, after),
            Self::can_put_spec(u, after) == !bit_set(flags as u32, 32),
            Self::can_get_spec(u, after) == !bit_set(flags as u32, 16),
    {
    }

    /// A source masked off in the interrupt-mask register never appears in
    /// the reported event, however the raw interrupt status reads; a source
    /// appears only when it is asserted in the raw status.
    pub proof fn lemma_masked_source_suppressed(u: UartData, bank: RegisterBank)
        ensures
            !bit_set(bank.le32_at(u.base + PL011_IMSC_OFFSET), 16) ==> !Self::irq_event_spec(
                u,
                bank,
            ).rx,
            !bit_set(bank.le32_at(u.base + PL011_IMSC_OFFSET), 32) ==> !Self::irq_event_spec(
                u,
                bank,
            ).tx,
            Self::irq_event_spec(u, bank).rx ==> bit_set(
                bank.le32_at(u.base + PL011_RIS_OFFSET),
                16,
            ),
            Self::irq_event_spec(u, bank).tx ==> bit_set(
                bank.le32_at(u.base + PL011_RIS_OFFSET),
                32,
            ),
    {
    }

    /// Write one byte to the data register. Never fails.
    pub fn put(u: UartData, bank: &mut RegisterBank, byte: u8) -> (r: Result<(), UartError>)
        requires
            Self::window(u, *old(bank)),
        ensures
            r == Ok::<(), UartError>(()),
            final(bank).base == old(bank).base,
            final(bank).mem@ == Self::put_mem(u, *old(bank), byte),
    {
        bank.write8(u.base, byte);
        Ok(())
    }

    /// Read one data word. A word carrying an error indicator is reported as
    /// a transport error, and the error condition is acknowledged by writing
    /// the all-ones clear pattern to the error-clear register.
    pub fn get(u: UartData, bank: &mut RegisterBank) -> (r: Result<u8, UartError>)
        requires
            Self::window(u, *old(bank)),
        ensures
            r == Self::get_result_spec(u, *old(bank)),
            final(bank).base == old(bank).base,
            final(bank).mem@ == Self::get_mem_spec(u, *old(bank)),
    {
        let data = bank.read32_le(u.base);
        if !Self::rx_word_ok(data) {
            bank.write32_le(u.base + PL011_ECR_OFFSET, 0xFFFFFFFF);
            return Err(UartError::Transport);
        }
        Ok((data % 256) as u8)
    }

    /// The window's bytes after the interrupt mask is set: enabling selects
    /// the receive and transmit sources, disabling clears every source.
    pub open spec fn set_irq_mem(u: UartData, bank: RegisterBank, enable: bool) -> Seq<u8> {
        bank.store32_le(u.base + PL011_IMSC_OFFSET, if enable { PL011_RXI_TXI } else { 0u32 })
    }

    pub fn set_irq_enable(u: UartData, bank: &mut RegisterBank, enable: bool)
        requires
            Self::window(u, *old(bank)),
        ensures
            final(bank).base == old(bank).base,
            final(bank).mem@ == Self::set_irq_mem(u, *old(bank), enable),
    {
        if enable {
            bank.write32_le(u.base + PL011_IMSC_OFFSET, PL011_RXI_TXI);
        } else {
            bank.write32_le(u.base + PL011_IMSC_OFFSET, 0);
        }
    }

    /// Interrupts count as enabled when any mask bit is set.
    pub open spec fn irq_enabled_spec(u: UartData, bank: RegisterBank) -> bool {
        bank.le32_at(u.base + PL011_IMSC_OFFSET) != 0
    }

    pub fn get_irq_enable(u: UartData, bank: &RegisterBank) -> (r: bool)
        requires
            Self::window(u, *bank),
        ensures
            r == Self::irq_enabled_spec(u, *bank),
    {
        bank.read32_le(u.base + PL011_IMSC_OFFSET) != 0
    }

    /// The effective interrupt cause: the bitwise AND of the raw interrupt
    /// status and the interrupt mask, mapped to the receive and transmit
    /// sources.
    pub open spec fn irq_event_spec(u: UartData, bank: RegisterBank) -> IrqEvent {
        IrqEvent {
            rx: bit_set(bank.le32_at(u.base + PL011_RIS_OFFSET), 16) && bit_set(
                bank.le32_at(u.base + PL011_IMSC_OFFSET),
                16,
            ),
            tx: bit_set(bank.le32_at(u.base + PL011_RIS_OFFSET), 32) && bit_set(
                bank.le32_at(u.base + PL011_IMSC_OFFSET),
                32,
            ),
        }
    }

    pub fn get_irq_event(u: UartData, bank: &RegisterBank) -> (r: IrqEvent)
        requires
            Self::window(u, *bank),
        ensures
            r == Self::irq_event_spec(u, *bank),
    {
        let ris = bank.read32_le(u.base + PL011_RIS_OFFSET);
        let mask = bank.read32_le(u.base + PL011_IMSC_OFFSET);
        Self::irq_event_bits(ris, mask)
    }

    /// The window's bytes after an event is acknowledged: one write of the
    /// OR of the acknowledged source bits to the interrupt-clear register.
    pub open spec fn clean_irq_mem(u: UartData, bank: RegisterBank, event: IrqEvent) -> Seq<u8> {
        bank.store32_le(u.base + PL011_ICR_OFFSET, Self::ack_bits_spec(event))
    }

    pub fn clean_irq_event(u: UartData, bank: &mut RegisterBank, event: IrqEvent)
        requires
            Self::window(u, *old(bank)),
        ensures
            final(bank).base == old(bank).base,
            final(bank).mem@ == Self::clean_irq_mem(u, *old(bank), event),
    {
        let pattern = Self::ack_bits(event);
        bank.write32_le(u.base + PL011_ICR_OFFSET, pattern);
    }
}

} // verus!
