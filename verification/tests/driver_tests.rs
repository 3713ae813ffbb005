use any_uart::{
    AuxMini, ControllerFamily, IoKind, IrqEvent, Ns16550, Pl011, Receiver, RegisterBank, Sender,
    Uart, UartData, UartError,
};

fn bank_at(base: usize, size: usize) -> RegisterBank {
    RegisterBank::new(base, size)
}

fn sender(u: UartData, family: ControllerFamily) -> Sender {
    Sender { uart: u, family }
}

fn receiver(u: UartData, family: ControllerFamily) -> Receiver {
    Receiver { uart: u, family }
}

#[test]
fn bank_byte_roundtrip() {
    let mut b = bank_at(0x1000, 0x10);
    b.write8(0x1003, 0xAB);
    assert_eq!(b.read8(0x1003), 0xAB);
    assert_eq!(b.read8(0x1002), 0);
}

#[test]
fn bank_le16_roundtrip() {
    let mut b = bank_at(0, 8);
    b.write16_le(2, 0xBEEF);
    assert_eq!(b.read16_le(2), 0xBEEF);
    assert_eq!(b.mem[2], 0xEF);
    assert_eq!(b.mem[3], 0xBE);
}

#[test]
fn bank_le32_roundtrip() {
    let mut b = bank_at(0, 8);
    b.write32_le(0, 0x01020304);
    assert_eq!(b.read32_le(0), 0x01020304);
    assert_eq!(&b.mem[0..4], &[0x04, 0x03, 0x02, 0x01]);
}

#[test]
fn bank_be32_byte_pattern() {
    // The byte-swapped access kind: the most significant byte lands first.
    let mut b = bank_at(0, 8);
    b.write32_be(0, 0x01020304);
    assert_eq!(&b.mem[0..4], &[0x01, 0x02, 0x03, 0x04]);
    assert_eq!(b.read32_be(0), 0x01020304);
}

#[test]
fn ns16550_mmio32be_write_shows_big_endian_bytes() {
    // Writing through the 32-bit big-endian kind and inspecting raw memory
    // must show the pattern 01 02 03 04.
    let u = UartData::new(0x100, IoKind::Mmio32be);
    let mut b = bank_at(0x100, 0x20);
    let tx = sender(u, ControllerFamily::Ns16550);
    let r = tx.write_uncheck(&mut b, 0);
    assert!(r.is_ok());
    any_uart::bank::reg_write(u, &mut b, 0, 0x01020304);
    assert_eq!(&b.mem[0..4], &[0x01, 0x02, 0x03, 0x04]);
    assert_eq!(any_uart::bank::reg_read(u, &b, 0), 0x01020304);
}

#[test]
fn aux_status_gates_ready() {
    let u = UartData::new(0x3000, IoKind::Mmio32);
    let mut b = bank_at(0x3000, 0x28);
    // All zero: transmit-full bit clear (ready), receive bit clear (empty).
    assert!(AuxMini::can_put(u, &b));
    assert!(!AuxMini::can_get(u, &b));
    // Set bit 5 (transmit full) and bit 0 (receive ready).
    b.write32_le(0x3024, (1 << 5) | 1);
    assert!(!AuxMini::can_put(u, &b));
    assert!(AuxMini::can_get(u, &b));
    // Clear again.
    b.write32_le(0x3024, 0);
    assert!(AuxMini::can_put(u, &b));
    assert!(!AuxMini::can_get(u, &b));
}

#[test]
fn pl011_status_gates_ready() {
    let u = UartData::new(0, IoKind::Mmio32);
    let mut b = bank_at(0, 0x48);
    // Flag register zero: transmit not full, receive not empty.
    assert!(Pl011::can_put(u, &b));
    assert!(Pl011::can_get(u, &b));
    // Bit 5: transmit FIFO full. Bit 4: receive FIFO empty.
    b.write8(0x18, 0x30);
    assert!(!Pl011::can_put(u, &b));
    assert!(!Pl011::can_get(u, &b));
    b.write8(0x18, 0x10);
    assert!(Pl011::can_put(u, &b));
    assert!(!Pl011::can_get(u, &b));
}

#[test]
fn ns16550_status_gates_ready() {
    let u = UartData::new(0x200, IoKind::Mmio32);
    let mut b = bank_at(0x200, 0x20);
    // Line status zero: neither direction ready.
    assert!(!Ns16550::can_put(u, &b));
    assert!(!Ns16550::can_get(u, &b));
    // Bit 6: transmitter empty. Bit 0: data ready.
    any_uart::bank::reg_write(u, &mut b, 5, (1 << 6) | 1);
    assert!(Ns16550::can_put(u, &b));
    assert!(Ns16550::can_get(u, &b));
    assert_eq!(Ns16550::sts(u, &b), 0x41);
}

#[test]
fn can_send_true_means_send_succeeds_all_families() {
    // AuxMini: fresh bank is ready to send.
    let u = UartData::new(0, IoKind::Mmio32);
    let mut b = bank_at(0, 0x48);
    let tx = sender(u, ControllerFamily::AuxMini);
    assert!(tx.can_write(&b));
    assert!(tx.write(&mut b, b'A').is_ok());
    assert_eq!(b.mem[0], b'A');

    // Pl011: fresh bank is ready to send.
    let mut b = bank_at(0, 0x48);
    let tx = sender(u, ControllerFamily::Pl011);
    assert!(tx.can_write(&b));
    assert!(tx.write(&mut b, b'B').is_ok());
    assert_eq!(b.mem[0], b'B');

    // Ns16550: mark the transmitter empty first.
    let mut b = bank_at(0, 0x20);
    any_uart::bank::reg_write(u, &mut b, 5, 1 << 6);
    let tx = sender(u, ControllerFamily::Ns16550);
    assert!(tx.can_write(&b));
    assert!(tx.write(&mut b, b'C').is_ok());
    assert_eq!(b.mem[0], b'C');
}

#[test]
fn send_not_ready_reports_would_block() {
    let u = UartData::new(0, IoKind::Mmio32);
    // AuxMini: set the transmit-full bit.
    let mut b = bank_at(0, 0x28);
    b.write32_le(0x24, 1 << 5);
    let tx = sender(u, ControllerFamily::AuxMini);
    assert!(!tx.can_write(&b));
    assert_eq!(tx.write(&mut b, b'A'), Err(UartError::WouldBlock));
    assert_eq!(b.mem[0], 0, "a refused send must not touch the data register");

    // Ns16550: fresh bank has transmitter-empty clear.
    let mut b = bank_at(0, 0x20);
    let tx = sender(u, ControllerFamily::Ns16550);
    assert_eq!(tx.write(&mut b, b'C'), Err(UartError::WouldBlock));
}

#[test]
fn receive_roundtrip_all_families() {
    let u = UartData::new(0, IoKind::Mmio32);

    // AuxMini: data register holds a byte, receive-ready bit set.
    let mut b = bank_at(0, 0x28);
    b.write32_le(0, b'x' as u32);
    b.write32_le(0x24, 1);
    let rx = receiver(u, ControllerFamily::AuxMini);
    assert!(rx.can_read(&b));
    assert_eq!(rx.read(&mut b), Ok(b'x'));

    // Pl011: fresh flag register reads as receive-ready.
    let mut b = bank_at(0, 0x48);
    b.write32_le(0, b'y' as u32);
    let rx = receiver(u, ControllerFamily::Pl011);
    assert_eq!(rx.read(&mut b), Ok(b'y'));

    // Ns16550: set data-ready, put a byte in the data register.
    let mut b = bank_at(0, 0x20);
    any_uart::bank::reg_write(u, &mut b, 0, b'z' as u32);
    any_uart::bank::reg_write(u, &mut b, 5, 1);
    let rx = receiver(u, ControllerFamily::Ns16550);
    assert_eq!(rx.read(&mut b), Ok(b'z'));
}

#[test]
fn receive_not_ready_reports_would_block() {
    let u = UartData::new(0, IoKind::Mmio32);
    let mut b = bank_at(0, 0x28);
    let rx = receiver(u, ControllerFamily::AuxMini);
    assert_eq!(rx.read(&mut b), Err(UartError::WouldBlock));
}

#[test]
fn pl011_errored_word_reports_transport_and_clears() {
    let u = UartData::new(0, IoKind::Mmio32);
    let mut b = bank_at(0, 0x48);
    // A data word with a line-error indicator in its upper bits.
    b.write32_le(0, 0x0400 | b'q' as u32);
    let rx = receiver(u, ControllerFamily::Pl011);
    assert_eq!(rx.read(&mut b), Err(UartError::Transport));
    // Reporting the error must acknowledge it: all-ones in the error-clear
    // register at byte offset 4.
    assert_eq!(&b.mem[4..8], &[0xFF, 0xFF, 0xFF, 0xFF]);
}

#[test]
fn pl011_irq_event_is_masked_and() {
    // Raw status 0b110000 (bits 4 and 5), mask 0b010000 (bit 4 only):
    // the event must report receive pending and no transmit.
    let u = UartData::new(0, IoKind::Mmio32);
    let mut b = bank_at(0, 0x48);
    b.write32_le(0x3C, 0b110000);
    b.write32_le(0x38, 0b010000);
    let uart = Uart::new(u, ControllerFamily::Pl011);
    let ev = uart.get_irq_event(&b).unwrap();
    assert!(ev.rx);
    assert!(!ev.tx);
}

#[test]
fn pl011_irq_enable_roundtrip() {
    let u = UartData::new(0, IoKind::Mmio32);
    let mut b = bank_at(0, 0x48);
    let uart = Uart::new(u, ControllerFamily::Pl011);
    assert_eq!(uart.get_irq_enable(&b), Ok(false));
    uart.set_irq_enable(&mut b, true).unwrap();
    assert_eq!(b.read32_le(0x38), 0x30);
    assert_eq!(uart.get_irq_enable(&b), Ok(true));
    uart.set_irq_enable(&mut b, false).unwrap();
    assert_eq!(uart.get_irq_enable(&b), Ok(false));
}

#[test]
fn pl011_clean_irq_event_writes_clear_register() {
    let u = UartData::new(0, IoKind::Mmio32);
    let mut b = bank_at(0, 0x48);
    let uart = Uart::new(u, ControllerFamily::Pl011);
    uart.clean_irq_event(&mut b, IrqEvent { rx: true, tx: true }).unwrap();
    assert_eq!(b.read32_le(0x44), 0x30);
    uart.clean_irq_event(&mut b, IrqEvent { rx: true, tx: false }).unwrap();
    assert_eq!(b.read32_le(0x44), 0x10);
}

#[test]
fn ns16550_irq_paths() {
    let u = UartData::new(0, IoKind::Mmio32);
    let mut b = bank_at(0, 0x20);
    let uart = Uart::new(u, ControllerFamily::Ns16550);
    uart.set_irq_enable(&mut b, true).unwrap();
    assert_eq!(b.read32_le(4), 3);
    assert_eq!(uart.get_irq_enable(&b), Ok(true));
    uart.set_irq_enable(&mut b, false).unwrap();
    assert_eq!(uart.get_irq_enable(&b), Ok(false));
    // Interrupt identification: bit 0 receive, bit 1 transmit.
    any_uart::bank::reg_write(u, &mut b, 2, 0b11);
    let ev = uart.get_irq_event(&b).unwrap();
    assert!(ev.rx && ev.tx);
    // Acknowledge takes no register write on this family.
    let snapshot = b.mem.clone();
    uart.clean_irq_event(&mut b, ev).unwrap();
    assert_eq!(b.mem, snapshot);
}

#[test]
fn aux_irq_unsupported() {
    let u = UartData::new(0, IoKind::Mmio32);
    let mut b = bank_at(0, 0x28);
    let uart = Uart::new(u, ControllerFamily::AuxMini);
    assert_eq!(uart.set_irq_enable(&mut b, true), Err(UartError::Unsupported));
    assert_eq!(uart.get_irq_enable(&b), Err(UartError::Unsupported));
    assert_eq!(uart.get_irq_event(&b).unwrap_err(), UartError::Unsupported);
    assert_eq!(
        uart.clean_irq_event(&mut b, IrqEvent::default()),
        Err(UartError::Unsupported)
    );
}

#[test]
fn ns16550_port_kind_uses_byte_registers() {
    let u = UartData::new(0x3F8, IoKind::Port);
    let mut b = bank_at(0x3F8, 8);
    // Line status register sits one byte per register unit.
    any_uart::bank::reg_write(u, &mut b, 5, 0x61);
    assert_eq!(b.mem[5], 0x61);
    assert!(Ns16550::can_put(u, &b));
    assert!(Ns16550::can_get(u, &b));
}

#[test]
fn ns16550_mmio16_kind_uses_two_byte_registers() {
    let u = UartData::new(0, IoKind::Mmio16);
    let mut b = bank_at(0, 16);
    any_uart::bank::reg_write(u, &mut b, 5, 0x40);
    assert_eq!(b.mem[10], 0x40);
    assert_eq!(b.mem[11], 0);
    assert!(Ns16550::can_put(u, &b));
    assert!(!Ns16550::can_get(u, &b));
}

#[test]
fn reg_write_truncates_to_access_width() {
    // A register write stores only the access kind's width: a wide value is
    // truncated, and reads back truncated.
    let u = UartData::new(0, IoKind::Port);
    let mut b = bank_at(0, 8);
    any_uart::bank::reg_write(u, &mut b, 0, 0x1234);
    assert_eq!(any_uart::bank::reg_read(u, &b, 0), 0x34);

    let u = UartData::new(0, IoKind::Mmio16);
    let mut b = bank_at(0, 16);
    any_uart::bank::reg_write(u, &mut b, 0, 0xABCD_1234);
    assert_eq!(any_uart::bank::reg_read(u, &b, 0), 0x1234);

    let u = UartData::new(0, IoKind::Mmio);
    let mut b = bank_at(0, 32);
    any_uart::bank::reg_write(u, &mut b, 3, 0xABCD_1234);
    assert_eq!(any_uart::bank::reg_read(u, &b, 3), 0xABCD_1234);
}

#[test]
fn write_str_blocking_sends_every_byte() {
    let u = UartData::new(0, IoKind::Mmio32);
    let mut b = bank_at(0, 0x48);
    let tx = sender(u, ControllerFamily::Pl011);
    assert!(tx.write_str_blocking(&mut b, "hi").is_ok());
    // Each byte lands in the data register; the last one rests there.
    assert_eq!(b.mem[0], b'i');
}

#[test]
fn sender_mmio_reports_base() {
    let u = UartData::new(0x0900_0000, IoKind::Mmio32);
    let tx = sender(u, ControllerFamily::Pl011);
    assert_eq!(tx.mmio(), 0x0900_0000);
}

#[test]
fn uart_new_populates_facades() {
    let u = UartData::new(0x10, IoKind::Mmio32);
    let uart = Uart::new(u, ControllerFamily::Pl011);
    let tx = uart.tx.unwrap();
    let rx = uart.rx.unwrap();
    assert_eq!(tx.uart, u);
    assert_eq!(rx.uart, u);
    assert_eq!(tx.family, ControllerFamily::Pl011);
    assert_eq!(rx.family, ControllerFamily::Pl011);
}

#[test]
fn spec_level_ready_matches_exec() {
    // The sender and receiver dispatch agrees with the family driver on a
    // concrete bank (guards the dispatch wiring).
    let u = UartData::new(0, IoKind::Mmio32);
    let mut b = bank_at(0, 0x48);
    b.write8(0x18, 0x30);
    let tx = sender(u, ControllerFamily::Pl011);
    let rx = receiver(u, ControllerFamily::Pl011);
    assert!(!tx.can_write(&b));
    assert!(!rx.can_read(&b));
}

#[test]
fn irq_event_default_is_idle() {
    let ev = IrqEvent::default();
    assert!(!ev.rx && !ev.tx);
}

#[test]
fn io_kind_widths() {
    assert_eq!(IoKind::Port.width(), 1);
    assert_eq!(IoKind::Mmio.width(), 4);
    assert_eq!(IoKind::Mmio16.width(), 2);
    assert_eq!(IoKind::Mmio32.width(), 4);
    assert_eq!(IoKind::Mmio32be.width(), 4);
}

#[test]
fn uart_data_reg_u8_offsets() {
    let u = UartData::new(0x1000, IoKind::Mmio32);
    assert_eq!(u.reg_u8(0x18), 0x1018);
    assert_eq!(u.reg_u8(0), 0x1000);
}
