use vstd::prelude::*;
use vstd::string::StringSliceAdditionalSpecFns;

use crate::aux_mini::AuxMini;
use crate::bank::RegisterBank;
use crate::io::{IrqEvent, UartData, UartError};
use crate::ns16550::Ns16550;
use crate::pl011::Pl011;

verus! {

/// The closed set of controller families this library can drive. A family is
/// chosen exactly once, at discovery time, and every later operation
/// dispatches on it.
#[derive(Clone, Copy, Debug, PartialEq, Eq, Structural)]
pub enum ControllerFamily {
    AuxMini,
    Pl011,
    Ns16550,
}

/// The chosen family's registers fit inside the backing window.
pub open spec fn window(fam: ControllerFamily, u: UartData, bank: RegisterBank) -> bool {
    match fam {
        ControllerFamily::AuxMini => AuxMini::window(u, bank),
        ControllerFamily::Pl011 => Pl011::window(u, bank),
        ControllerFamily::Ns16550 => Ns16550::window(u, bank),
    }
}

/// Whether the transmitter can accept a byte now.
pub open spec fn can_put_spec(fam: ControllerFamily, u: UartData, bank: RegisterBank) -> bool {
    match fam {
        ControllerFamily::AuxMini => AuxMini::can_put_spec(u, bank),
        ControllerFamily::Pl011 => Pl011::can_put_spec(u, bank),
        ControllerFamily::Ns16550 => Ns16550::can_put_spec(u, bank),
    }
}

/// Whether a received byte is available now.
pub open spec fn can_get_spec(fam: ControllerFamily, u: UartData, bank: RegisterBank) -> bool {
    match fam {
        ControllerFamily::AuxMini => AuxMini::can_get_spec(u, bank),
        ControllerFamily::Pl011 => Pl011::can_get_spec(u, bank),
        ControllerFamily::Ns16550 => Ns16550::can_get_spec(u, bank),
    }
}

/// The window's bytes after one unconditional send of `byte`.
pub open spec fn put_mem_spec(
    fam: ControllerFamily,
    u: UartData,
    bank: RegisterBank,
    byte: u8,
) -> Seq<u8> {
    match fam {
        ControllerFamily::AuxMini => AuxMini::put_mem(u, bank, byte),
        ControllerFamily::Pl011 => Pl011::put_mem(u, bank, byte),
        ControllerFamily::Ns16550 => Ns16550::put_mem(u, bank, byte),
    }
}

/// What one unconditional receive returns.
pub open spec fn get_result_spec(
    fam: ControllerFamily,
    u: UartData,
    bank: RegisterBank,
) -> Result<u8, UartError> {
    match fam {
        ControllerFamily::AuxMini => Ok(AuxMini::get_result(u, bank)),
        ControllerFamily::Pl011 => Pl011::get_result_spec(u, bank),
        ControllerFamily::Ns16550 => Ok(Ns16550::get_result(u, bank)),
    }
}

/// The window's bytes after one unconditional receive: only a PL011
/// receive that reports a transport error writes (to the error-clear
/// register); every other receive leaves the window unchanged.
pub open spec fn get_mem_spec(fam: ControllerFamily, u: UartData, bank: RegisterBank) -> Seq<u8> {
    match fam {
        ControllerFamily::AuxMini => bank.mem@,
        ControllerFamily::Pl011 => Pl011::get_mem_spec(u, bank),
        ControllerFamily::Ns16550 => bank.mem@,
    }
}

/// What a checked send returns: a send is owed success exactly when the
/// transmitter is ready; otherwise it reports `WouldBlock` and the window is
/// untouched.
pub open spec fn write_result_spec(
    fam: ControllerFamily,
    u: UartData,
    bank: RegisterBank,
) -> Result<(), UartError> {
    if can_put_spec(fam, u, bank) {
        Ok(())
    } else {
        Err(UartError::WouldBlock)
    }
}

/// The window's bytes after a checked send.
pub open spec fn write_mem_spec(
    fam: ControllerFamily,
    u: UartData,
    bank: RegisterBank,
    byte: u8,
) -> Seq<u8> {
    if can_put_spec(fam, u, bank) {
        put_mem_spec(fam, u, bank, byte)
    } else {
        bank.mem@
    }
}

/// What a checked receive returns: the byte (or the PL011 transport error)
/// when data is available, `WouldBlock` otherwise.
pub open spec fn read_result_spec(
    fam: ControllerFamily,
    u: UartData,
    bank: RegisterBank,
) -> Result<u8, UartError> {
    if can_get_spec(fam, u, bank) {
        get_result_spec(fam, u, bank)
    } else {
        Err(UartError::WouldBlock)
    }
}

/// The window's bytes after a checked receive.
pub open spec fn read_mem_spec(fam: ControllerFamily, u: UartData, bank: RegisterBank) -> Seq<u8> {
    if can_get_spec(fam, u, bank) {
        get_mem_spec(fam, u, bank)
    } else {
        bank.mem@
    }
}

/// A send writes only the data register, so it never changes the answer of
/// the transmit-ready or receive-ready question, and a second send lands in
/// the same cells. `before` and `after` are the window around one send.
pub proof fn lemma_put_preserves_ready(
    fam: ControllerFamily,
    u: UartData,
    before: RegisterBank,
    after: RegisterBank,
    byte: u8,
)
    requires
        window(fam, u, before),
        after.base == before.base,
        after.mem@ == put_mem_spec(fam, u, before, byte),
    ensures
        window(fam, u, after),
        can_put_spec(fam, u, after) == can_put_spec(fam, u, before),
        can_get_spec(fam, u, after) == can_get_spec(fam, u, before),
        forall|c: u8| #[trigger] put_mem_spec(fam, u, after, c) == put_mem_spec(fam, u, before, c),
{
    assert forall|c: u8| #[trigger] put_mem_spec(fam, u, after, c) == put_mem_spec(
        fam,
        u,
        before,
        c,
    ) by {
        assert(put_mem_spec(fam, u, after, c) =~= put_mem_spec(fam, u, before, c));
    }
}

/// The transmit facade of one console: the resolved access descriptor and
/// the controller family chosen at discovery.
#[derive(Clone, Copy, Debug, PartialEq, Eq, Structural)]
pub struct Sender {
    pub uart: UartData,
    pub family: ControllerFamily,
}

impl Sender {
    pub open spec fn wf_with(self, bank: RegisterBank) -> bool {
        window(self.family, self.uart, bank)
    }

    pub fn can_write(&self, bank: &RegisterBank) -> (r: bool)
        requires
            self.wf_with(*bank),
        ensures
            r == can_put_spec(self.family, self.uart, *bank),
    {
        match self.family {
            ControllerFamily::AuxMini => AuxMini::can_put(self.uart, bank),
            ControllerFamily::Pl011 => Pl011::can_put(self.uart, bank),
            ControllerFamily::Ns16550 => Ns16550::can_put(self.uart, bank),
        }
    }

    /// Send a byte without consulting the status register first. The status
    /// register must have been checked: on live hardware an unchecked write
    /// can push into a full FIFO.
    pub fn write_uncheck(&self, bank: &mut RegisterBank, word: u8) -> (r: Result<(), UartError>)
        requires
            self.wf_with(*old(bank)),
        ensures
            r == Ok::<(), UartError>(()),
            final(bank).base == old(bank).base,
            final(bank).mem@ == put_mem_spec(self.family, self.uart, *old(bank), word),
    {
        match self.family {
            ControllerFamily::AuxMini => AuxMini::put(self.uart, bank, word),
            ControllerFamily::Pl011 => Pl011::put(self.uart, bank, word),
            ControllerFamily::Ns16550 => Ns16550::put(self.uart, bank, word),
        }
    }

    /// The checked, non-blocking send: reports `WouldBlock` when the
    /// transmitter is not ready, otherwise writes the byte to the data
    /// register.
    pub fn write(&self, bank: &mut RegisterBank, word: u8) -> (r: Result<(), UartError>)
        requires
            self.wf_with(*old(bank)),
        ensures
            r == write_result_spec(self.family, self.uart, *old(bank)),
            final(bank).base == old(bank).base,
            final(bank).mem@ == write_mem_spec(self.family, self.uart, *old(bank), word),
    {
        if !self.can_write(bank) {
            return Err(UartError::WouldBlock);
        }
        self.write_uncheck(bank, word)
    }

    /// Send every byte of `s`, retrying each byte until the transmitter
    /// accepts it. Against a register window, readiness never changes on its
    /// own, so the caller must present a ready transmitter (or an empty
    /// string); each byte then lands in the data register, the last one
    /// resting there.
    pub fn write_str_blocking(&self, bank: &mut RegisterBank, s: &str) -> (r: Result<
        (),
        UartError,
    >)
        requires
            self.wf_with(*old(bank)),
            s@.len() > 0 ==> can_put_spec(self.family, self.uart, *old(bank)),
        ensures
            r == Ok::<(), UartError>(()),
            final(bank).base == old(bank).base,
            s@.len() == 0 ==> final(bank).mem@ == old(bank).mem@,
            s@.len() > 0 ==> final(bank).mem@ == put_mem_spec(
                self.family,
                self.uart,
                *old(bank),
                s.spec_bytes()[s.spec_bytes().len() - 1],
            ),
    {
        let bytes = s.as_bytes();
        let ghost orig = *old(bank);
        let mut i: usize = 0;
        while i < bytes.len()
            invariant
                self.wf_with(*bank),
                bank.base == orig.base,
                i <= bytes@.len(),
                can_put_spec(self.family, self.uart, *bank) == can_put_spec(
                    self.family,
                    self.uart,
                    orig,
                ),
                bytes@.len() > 0 ==> can_put_spec(self.family, self.uart, orig),
                i == 0 ==> bank.mem@ == orig.mem@,
                i > 0 ==> bank.mem@ == put_mem_spec(self.family, self.uart, orig, bytes@[i - 1]),
                forall|c: u8| #[trigger] put_mem_spec(self.family, self.uart, *bank, c)
                    == put_mem_spec(self.family, self.uart, orig, c),
            decreases bytes@.len() - i,
        {
            let ghost prev = *bank;
            let res = self.write(bank, bytes[i]);
            proof {
                lemma_put_preserves_ready(self.family, self.uart, prev, *bank, bytes@[i as int]);
            }
            i = i + 1;
        }
        Ok(())
    }

    /// The base address of the device this sender drives.
    pub fn mmio(&self) -> (r: usize)
        ensures
            r == self.uart.base,
    {
        self.uart.base
    }
}

/// The receive facade of one console; a by-value copy of the same resolved
/// descriptor the sender holds.
#[derive(Clone, Copy, Debug, PartialEq, Eq, Structural)]
pub struct Receiver {
    pub uart: UartData,
    pub family: ControllerFamily,
}

impl Receiver {
    pub open spec fn wf_with(self, bank: RegisterBank) -> bool {
        window(self.family, self.uart, bank)
    }

    pub fn can_read(&self, bank: &RegisterBank) -> (r: bool)
        requires
            self.wf_with(*bank),
        ensures
            r == can_get_spec(self.family, self.uart, *bank),
    {
        match self.family {
            ControllerFamily::AuxMini => AuxMini::can_get(self.uart, bank),
            ControllerFamily::Pl011 => Pl011::can_get(self.uart, bank),
            ControllerFamily::Ns16550 => Ns16550::can_get(self.uart, bank),
        }
    }

    /// Receive a byte without consulting the status register first. The
    /// status register must have been checked: on live hardware an unchecked
    /// read can pop an empty FIFO.
    pub fn read_uncheck(&self, bank: &mut RegisterBank) -> (r: Result<u8, UartError>)
        requires
            self.wf_with(*old(bank)),
        ensures
            r == get_result_spec(self.family, self.uart, *old(bank)),
            final(bank).base == old(bank).base,
            final(bank).mem@ == get_mem_spec(self.family, self.uart, *old(bank)),
    {
        match self.family {
            ControllerFamily::AuxMini => AuxMini::get(self.uart, bank),
            ControllerFamily::Pl011 => Pl011::get(self.uart, bank),
            ControllerFamily::Ns16550 => Ns16550::get(self.uart, bank),
        }
    }

    /// The checked, non-blocking receive: reports `WouldBlock` when no data
    /// is available; an available PL011 word with error indicators is
    /// reported as a transport error and its error condition acknowledged.
    pub fn read(&self, bank: &mut RegisterBank) -> (r: Result<u8, UartError>)
        requires
            self.wf_with(*old(bank)),
        ensures
            r == read_result_spec(self.family, self.uart, *old(bank)),
            final(bank).base == old(bank).base,
            final(bank).mem@ == read_mem_spec(self.family, self.uart, *old(bank)),
    {
        if !self.can_read(bank) {
            return Err(UartError::WouldBlock);
        }
        self.read_uncheck(bank)
    }
}

/// One resolved console: the access descriptor, the controller family chosen
/// at discovery, and the two transfer facades (each a by-value copy of the
/// same descriptor, so both may coexist).
pub struct Uart {
    pub data: UartData,
    pub family: ControllerFamily,
    pub tx: Option<Sender>,
    pub rx: Option<Receiver>,
}

impl Uart {
    pub open spec fn wf(self) -> bool {
        &&& self.tx matches Some(t) && t.uart == self.data && t.family == self.family
        &&& self.rx matches Some(r) && r.uart == self.data && r.family == self.family
    }

    pub open spec fn wf_with(self, bank: RegisterBank) -> bool {
        window(self.family, self.data, bank)
    }

    pub fn new(data: UartData, family: ControllerFamily) -> (r: Uart)
        ensures
            r.data == data,
            r.family == family,
            r.wf(),
    {
        Uart {
            data,
            family,
            tx: Some(Sender { uart: data, family }),
            rx: Some(Receiver { uart: data, family }),
        }
    }

    /// The window's bytes after the interrupt enable is set: the simple FIFO
    /// family has no interrupt path, so nothing is written for it.
    pub open spec fn set_irq_mem_spec(
        fam: ControllerFamily,
        u: UartData,
        bank: RegisterBank,
        enable: bool,
    ) -> Seq<u8> {
        match fam {
            ControllerFamily::AuxMini => bank.mem@,
            ControllerFamily::Pl011 => Pl011::set_irq_mem(u, bank, enable),
            ControllerFamily::Ns16550 => Ns16550::set_irq_mem(u, bank, enable),
        }
    }

    /// Enable or disable the receive and transmit interrupt sources.
    /// Unsupported on the simple FIFO family, which reports the error and
    /// touches nothing.
    pub fn set_irq_enable(&self, bank: &mut RegisterBank, enable: bool) -> (r: Result<
        (),
        UartError,
    >)
        requires
            self.wf_with(*old(bank)),
        ensures
            r is Ok <==> !(self.family is AuxMini),
            r is Err ==> r == Err::<(), UartError>(UartError::Unsupported),
            final(bank).base == old(bank).base,
            final(bank).mem@ == Self::set_irq_mem_spec(self.family, self.data, *old(bank), enable),
    {
        match self.family {
            ControllerFamily::AuxMini => Err(UartError::Unsupported),
            ControllerFamily::Pl011 => {
                Pl011::set_irq_enable(self.data, bank, enable);
                Ok(())
            },
            ControllerFamily::Ns16550 => {
                Ns16550::set_irq_enable(self.data, bank, enable);
                Ok(())
            },
        }
    }

    /// Whether any interrupt source is enabled. Unsupported on the simple
    /// FIFO family.
    pub fn get_irq_enable(&self, bank: &RegisterBank) -> (r: Result<bool, UartError>)
        requires
            self.wf_with(*bank),
        ensures
            self.family is AuxMini ==> r == Err::<bool, UartError>(UartError::Unsupported),
            self.family is Pl011 ==> r == Ok::<bool, UartError>(
                Pl011::irq_enabled_spec(self.data, *bank),
            ),
            self.family is Ns16550 ==> r == Ok::<bool, UartError>(
                Ns16550::irq_enabled_spec(self.data, *bank),
            ),
    {
        match self.family {
            ControllerFamily::AuxMini => Err(UartError::Unsupported),
            ControllerFamily::Pl011 => Ok(Pl011::get_irq_enable(self.data, bank)),
            ControllerFamily::Ns16550 => Ok(Ns16550::get_irq_enable(self.data, bank)),
        }
    }

    /// Which interrupt sources are pending. Unsupported on the simple FIFO
    /// family.
    pub fn get_irq_event(&self, bank: &RegisterBank) -> (r: Result<IrqEvent, UartError>)
        requires
            self.wf_with(*bank),
        ensures
            self.family is AuxMini ==> r == Err::<IrqEvent, UartError>(UartError::Unsupported),
            self.family is Pl011 ==> r == Ok::<IrqEvent, UartError>(
                Pl011::irq_event_spec(self.data, *bank),
            ),
            self.family is Ns16550 ==> r == Ok::<IrqEvent, UartError>(
                Ns16550::irq_event_spec(self.data, *bank),
            ),
    {
        match self.family {
            ControllerFamily::AuxMini => Err(UartError::Unsupported),
            ControllerFamily::Pl011 => Ok(Pl011::get_irq_event(self.data, bank)),
            ControllerFamily::Ns16550 => Ok(Ns16550::get_irq_event(self.data, bank)),
        }
    }

    /// The window's bytes after an event is acknowledged: only the PL011
    /// family takes a register write.
    pub open spec fn clean_irq_mem_spec(
        fam: ControllerFamily,
        u: UartData,
        bank: RegisterBank,
        event: IrqEvent,
    ) -> Seq<u8> {
        match fam {
            ControllerFamily::AuxMini => bank.mem@,
            ControllerFamily::Pl011 => Pl011::clean_irq_mem(u, bank, event),
            ControllerFamily::Ns16550 => bank.mem@,
        }
    }

    /// Acknowledge a pending interrupt event. Unsupported on the simple FIFO
    /// family, which reports the error and touches nothing.
    pub fn clean_irq_event(&self, bank: &mut RegisterBank, event: IrqEvent) -> (r: Result<
        (),
        UartError,
    >)
        requires
            self.wf_with(*old(bank)),
        ensures
            r is Ok <==> !(self.family is AuxMini),
            r is Err ==> r == Err::<(), UartError>(UartError::Unsupported),
            final(bank).base == old(bank).base,
            final(bank).mem@ == Self::clean_irq_mem_spec(
                self.family,
                self.data,
                *old(bank),
                event,
            ),
    {
        match self.family {
            ControllerFamily::AuxMini => Err(UartError::Unsupported),
            ControllerFamily::Pl011 => {
                Pl011::clean_irq_event(self.data, bank, event);
                Ok(())
            },
            ControllerFamily::Ns16550 => {
                Ns16550::clean_irq_event(self.data, bank, event);
                Ok(())
            },
        }
    }
}

/// When the transmitter reports ready, the immediately following send is
/// owed success: it cannot report `WouldBlock`.
pub proof fn lemma_can_send_guarantees_send(fam: ControllerFamily, u: UartData, bank: RegisterBank)
    requires
        can_put_spec(fam, u, bank),
    ensures
        write_result_spec(fam, u, bank) is Ok,
{
}

/// When a received byte is reported available, the immediately following
/// receive cannot report `WouldBlock` (on the PL011 family it may still
/// report a transport error).
pub proof fn lemma_can_receive_guarantees_receive(
    fam: ControllerFamily,
    u: UartData,
    bank: RegisterBank,
)
    requires
        can_get_spec(fam, u, bank),
    ensures
        read_result_spec(fam, u, bank) != Err::<u8, UartError>(UartError::WouldBlock),
{
}

} // verus!
