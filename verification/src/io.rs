use vstd::prelude::*;

use crate::bytes::bytes_eq;

verus! {

/// How a controller's registers are reached: through a port-I/O space or
/// memory-mapped with a fixed access width, optionally byte-swapped.
#[derive(Clone, Copy, Debug, PartialEq, Eq, Structural)]
pub enum IoKind {
    Port,
    Mmio,
    Mmio16,
    Mmio32,
    Mmio32be,
}

impl IoKind {
    /// Width in bytes of one register unit for this access kind.
    pub open spec fn spec_width(self) -> usize {
        match self {
            IoKind::Port => 1usize,
            IoKind::Mmio => 4usize,
            IoKind::Mmio16 => 2usize,
            IoKind::Mmio32 => 4usize,
            IoKind::Mmio32be => 4usize,
        }
    }

    pub fn width(&self) -> (r: usize)
        ensures
            r == self.spec_width(),
    {
        match self {
            IoKind::Port => 1,
            IoKind::Mmio => 4,
            IoKind::Mmio16 => 2,
            IoKind::Mmio32 => 4,
            IoKind::Mmio32be => 4,
        }
    }

    /// Map an access-kind name from a boot argument to the kind it selects.
    pub fn from_name(name: &[u8]) -> (r: IoKind)
        ensures
            r == spec_kind_from_name(name@),
    {
        let mmio: [u8; 4] = ['m' as u8, 'm' as u8, 'i' as u8, 'o' as u8];
        let mmio16: [u8; 6] = ['m' as u8, 'm' as u8, 'i' as u8, 'o' as u8, '1' as u8, '6' as u8];
        let mmio32: [u8; 6] = ['m' as u8, 'm' as u8, 'i' as u8, 'o' as u8, '3' as u8, '2' as u8];
        let mmio32be: [u8; 8] = [
            'm' as u8,
            'm' as u8,
            'i' as u8,
            'o' as u8,
            '3' as u8,
            '2' as u8,
            'b' as u8,
            'e' as u8,
        ];
        let mmio32native: [u8; 12] = [
            'm' as u8,
            'm' as u8,
            'i' as u8,
            'o' as u8,
            '3' as u8,
            '2' as u8,
            'n' as u8,
            'a' as u8,
            't' as u8,
            'i' as u8,
            'v' as u8,
            'e' as u8,
        ];
        proof {
            assert(mmio@ =~= name_mmio());
            assert(mmio16@ =~= name_mmio16());
            assert(mmio32@ =~= name_mmio32());
            assert(mmio32be@ =~= name_mmio32be());
            assert(mmio32native@ =~= name_mmio32native());
        }
        if bytes_eq(name, mmio.as_slice()) {
            IoKind::Mmio
        } else if bytes_eq(name, mmio16.as_slice()) {
            IoKind::Mmio16
        } else if bytes_eq(name, mmio32.as_slice()) {
            IoKind::Mmio32
        } else if bytes_eq(name, mmio32be.as_slice()) {
            IoKind::Mmio32be
        } else if bytes_eq(name, mmio32native.as_slice()) {
            IoKind::Mmio32
        } else {
            IoKind::Port
        }
    }
}

/// The name table an early-console argument uses for access kinds.
/// An unknown name selects port I/O. The plain "mmio32native" maps to
/// little-endian 32-bit access, the byte order of this library's register
/// model.
pub open spec fn spec_kind_from_name(n: Seq<u8>) -> IoKind {
    if n == name_mmio() {
        IoKind::Mmio
    } else if n == name_mmio16() {
        IoKind::Mmio16
    } else if n == name_mmio32() {
        IoKind::Mmio32
    } else if n == name_mmio32be() {
        IoKind::Mmio32be
    } else if n == name_mmio32native() {
        IoKind::Mmio32
    } else {
        IoKind::Port
    }
}

pub open spec fn name_mmio() -> Seq<u8> {
    seq!['m' as u8, 'm' as u8, 'i' as u8, 'o' as u8]
}

pub open spec fn name_mmio16() -> Seq<u8> {
    seq!['m' as u8, 'm' as u8, 'i' as u8, 'o' as u8, '1' as u8, '6' as u8]
}

pub open spec fn name_mmio32() -> Seq<u8> {
    seq!['m' as u8, 'm' as u8, 'i' as u8, 'o' as u8, '3' as u8, '2' as u8]
}

pub open spec fn name_mmio32be() -> Seq<u8> {
    seq!['m' as u8, 'm' as u8, 'i' as u8, 'o' as u8, '3' as u8, '2' as u8, 'b' as u8, 'e' as u8]
}

pub open spec fn name_mmio32native() -> Seq<u8> {
    seq![
        'm' as u8,
        'm' as u8,
        'i' as u8,
        'o' as u8,
        '3' as u8,
        '2' as u8,
        'n' as u8,
        'a' as u8,
        't' as u8,
        'i' as u8,
        'v' as u8,
        'e' as u8,
    ]
}

/// Errors a console operation can report. `WouldBlock` is transient: the
/// device is not ready and the caller may retry. `Transport` is a PL011
/// receive whose data word carried an error indicator. `Unsupported` marks an
/// operation the matched family does not implement.
#[derive(Clone, Copy, Debug, PartialEq, Eq, Structural)]
pub enum UartError {
    WouldBlock,
    Transport,
    Unsupported,
}

/// A transient snapshot of which interrupt sources are pending.
#[derive(Clone, Copy, Debug, PartialEq, Eq, Structural)]
pub struct IrqEvent {
    pub rx: bool,
    pub tx: bool,
}

impl Default for IrqEvent {
    fn default() -> (r: Self)
        ensures
            !r.rx && !r.tx,
    {
        IrqEvent { rx: false, tx: false }
    }
}

/// The resolved access descriptor of one console device: its base address in
/// the caller's address space, and the access kind of its registers.
/// Immutable once constructed.
#[derive(Clone, Copy, Debug, PartialEq, Eq, Structural)]
pub struct UartData {
    pub base: usize,
    pub io_kind: IoKind,
}

impl UartData {
    pub fn new(base: usize, io_kind: IoKind) -> (r: Self)
        ensures
            r.base == base,
            r.io_kind == io_kind,
    {
        UartData { base, io_kind }
    }

    /// The effective address of the byte-addressed register at `offset`.
    pub fn reg_u8(&self, offset: usize) -> (r: usize)
        requires
            self.base + offset <= usize::MAX,
        ensures
            r == self.base + offset,
    {
        self.base + offset
    }
}

} // verus!
