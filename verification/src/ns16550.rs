use vstd::prelude::*;

use crate::bank::{bit_set, reg_in_window, reg_read, reg_read_spec, reg_write, reg_write_spec, test_bit, RegisterBank};
use crate::io::{IoKind, IrqEvent, UartData, UartError};

verus! {

/// The 16550-compatible family. Its registers are indexed in register units
/// whose byte width and byte order follow the access descriptor (port I/O,
/// or memory-mapped 16/32-bit, optionally big-endian): data at unit 0,
/// interrupt enable at unit 1, interrupt identification at unit 2, line
/// status at unit 5. Line-status bit 0 is data-ready and bit 6 is
/// transmitter-empty.
pub struct Ns16550 {}

impl Ns16550 {
    /// Register units 0 through 5 fit inside the backing window.
    pub open spec fn window(u: UartData, bank: RegisterBank) -> bool {
        bank.wf() && bank.contains_range(u.base as int, 6 * u.io_kind.spec_width())
    }

    pub proof fn lemma_window_covers_regs(u: UartData, bank: RegisterBank)
        requires
            Self::window(u, bank),
        ensures
            forall|r: int| 0 <= r < 6 ==> reg_in_window(u, bank, r),
    {
    }

    /// The line-status word.
    pub open spec fn sts_spec(u: UartData, bank: RegisterBank) -> u32 {
        reg_read_spec(u, bank, 5)
    }

    pub fn sts(u: UartData, bank: &RegisterBank) -> (r: u32)
        requires
            Self::window(u, *bank),
        ensures
            r == Self::sts_spec(u, *bank),
    {
        proof {
            Self::lemma_window_covers_regs(u, *bank);
        }
        reg_read(u, bank, 5)
    }

    pub open spec fn can_put_spec(u: UartData, bank: RegisterBank) -> bool {
        bit_set(Self::sts_spec(u, bank), 64)
    }

    pub open spec fn can_get_spec(u: UartData, bank: RegisterBank) -> bool {
        bit_set(Self::sts_spec(u, bank), 1)
    }

    /// The window's bytes after a byte is sent: the byte, zero-extended, is
    /// written to data register unit 0.
    pub open spec fn put_mem(u: UartData, bank: RegisterBank, byte: u8) -> Seq<u8> {
        reg_write_spec(u, bank, 0, byte as u32)
    }

    /// What a receive returns: the low byte of data register unit 0.
    pub open spec fn get_result(u: UartData, bank: RegisterBank) -> u8 {
        (reg_read_spec(u, bank, 0) % 256) as u8
    }

    /// Transmit-ready decision from the line-status word: bit 6 is
    /// "transmitter empty".
    pub fn can_put_bits(sts: u32) -> (r: bool)
        ensures
            r == bit_set(sts, 64),
    {
        test_bit(sts, 64)
    }

    /// Receive-ready decision from the line-status word: bit 0 is
    /// "data ready".
    pub fn can_get_bits(sts: u32) -> (r: bool)
        ensures
            r == bit_set(sts, 1),
    {
        test_bit(sts, 1)
    }

    pub fn can_put(u: UartData, bank: &RegisterBank) -> (r: bool)
        requires
            Self::window(u, *bank),
        ensures
            r == Self::can_put_spec(u, *bank),
    {
        let sts = Self::sts(u, bank);
        Self::can_put_bits(sts)
    }

    pub fn can_get(u: UartData, bank: &RegisterBank) -> (r: bool)
        requires
            Self::window(u, *bank),
        ensures
            r == Self::can_get_spec(u, *bank),
    {
        let sts = Self::sts(u, bank);
        Self::can_get_bits(sts)
    }

    /// Writing a line-status byte whose transmitter-empty bit (bit 6) is set
    /// makes the transmitter report ready, and clearing it makes it report
    /// busy; the receiver reports ready exactly when the written data-ready
    /// bit (bit 0) is set. This holds for every access kind: the status byte
    /// survives the kind's truncation and byte order. `before` and `after`
    /// are the window around one write to the line-status register.
    pub proof fn lemma_status_controls_ready(
        u: UartData,
        before: RegisterBank,
        after: RegisterBank,
        v: u8,
    )
        requires
            Self::window(u, before),
            after.base == before.base,
            after.mem@ == reg_write_spec(u, before, 5, v as u32),
        ensures
            Self::window(u, after),
            Self::can_put_spec(u, after) == bit_set(v as u32, 64),
            Self::can_get_spec(u, after) == bit_set(v as u32, 1),
    {
        Self::lemma_window_covers_regs(u, before);
        match u.io_kind {
            IoKind::Port => {
            },
            IoKind::Mmio16 => {
                crate::bank::lemma_store16_le_reads_back(
                    before,
                    after,
                    u.base + 2 * 5,
                    (v as u32 % 65536) as u16,
                );
            },
            IoKind::Mmio | IoKind::Mmio32 => {
                crate::bank::lemma_store32_le_reads_back(before, after, u.base + 4 * 5, v as u32);
            },
            IoKind::Mmio32be => {
                crate::bank::lemma_store32_be_reads_back(before, after, u.base + 4 * 5, v as u32);
            },
        }
    }

    /// Write one byte to the data register. Never fails.
    pub fn put(u: UartData, bank: &mut RegisterBank, byte: u8) -> (r: Result<(), UartError>)
        requires
            Self::window(u, *old(bank)),
        ensures
            r == Ok::<(), UartError>(()),
            final(bank).base == old(bank).base,
            final(bank).mem@ == Self::put_mem(u, *old(bank), byte),
    {
        proof {
            Self::lemma_window_covers_regs(u, *old(bank));
        }
        reg_write(u, bank, 0, byte as u32);
        Ok(())
    }

    /// Read one byte from the data register. Never fails.
    pub fn get(u: UartData, bank: &mut RegisterBank) -> (r: Result<u8, UartError>)
        requires
            Self::window(u, *old(bank)),
        ensures
            *final(bank) == *old(bank),
            r == Ok::<u8, UartError>(Self::get_result(u, *old(bank))),
    {
        proof {
            Self::lemma_window_covers_regs(u, *old(bank));
        }
        let data = reg_read(u, bank, 0);
        Ok((data % 256) as u8)
    }

    /// The window's bytes after the interrupt-enable register is set:
    /// enabling selects the receive and transmit sources (bits 0 and 1),
    /// disabling clears every source.
    pub open spec fn set_irq_mem(u: UartData, bank: RegisterBank, enable: bool) -> Seq<u8> {
        reg_write_spec(u, bank, 1, if enable { 3u32 } else { 0u32 })
    }

    pub fn set_irq_enable(u: UartData, bank: &mut RegisterBank, enable: bool)
        requires
            Self::window(u, *old(bank)),
        ensures
            final(bank).base == old(bank).base,
            final(bank).mem@ == Self::set_irq_mem(u, *old(bank), enable),
    {
        proof {
            Self::lemma_window_covers_regs(u, *old(bank));
        }
        let val: u32 = if enable { 3 } else { 0 };
        reg_write(u, bank, 1, val);
    }

    /// Interrupts count as enabled when any enable bit is set.
    pub open spec fn irq_enabled_spec(u: UartData, bank: RegisterBank) -> bool {
        reg_read_spec(u, bank, 1) != 0
    }

    pub fn get_irq_enable(u: UartData, bank: &RegisterBank) -> (r: bool)
        requires
            Self::window(u, *bank),
        ensures
            r == Self::irq_enabled_spec(u, *bank),
    {
        proof {
            Self::lemma_window_covers_regs(u, *bank);
        }
        reg_read(u, bank, 1) != 0
    }

    /// The pending-interrupt decision from the interrupt-identification
    /// word: bit 0 maps to receive, bit 1 to transmit.
    pub fn irq_event_bits(sts: u32) -> (r: IrqEvent)
        ensures
            r.rx == bit_set(sts, 1),
            r.tx == bit_set(sts, 2),
    {
        IrqEvent { rx: test_bit(sts, 1), tx: test_bit(sts, 2) }
    }

    pub open spec fn irq_event_spec(u: UartData, bank: RegisterBank) -> IrqEvent {
        IrqEvent {
            rx: bit_set(reg_read_spec(u, bank, 2), 1),
            tx: bit_set(reg_read_spec(u, bank, 2), 2),
        }
    }

    pub fn get_irq_event(u: UartData, bank: &RegisterBank) -> (r: IrqEvent)
        requires
            Self::window(u, *bank),
        ensures
            r == Self::irq_event_spec(u, *bank),
    {
        proof {
            Self::lemma_window_covers_regs(u, *bank);
        }
        let sts = reg_read(u, bank, 2);
        Self::irq_event_bits(sts)
    }

    /// Acknowledging an event takes no register write on this family.
    pub fn clean_irq_event(u: UartData, bank: &mut RegisterBank, event: IrqEvent)
        requires
            Self::window(u, *old(bank)),
        ensures
            *final(bank) == *old(bank),
    {
        let _ = event;
    }
}

} // verus!
