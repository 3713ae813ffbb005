//! A hardware-abstracted serial-console driver layer for bare-metal boot
//! environments.
//!
//! The library locates the platform's console UART in a flattened device
//! tree (through an explicit `stdout-path` reference or an `earlycon` boot
//! argument), classifies it against a small closed set of controller
//! families, and exposes non-blocking byte-level send/receive plus interrupt
//! enable/status/acknowledge primitives.
//!
//! Register traffic is modelled on a [`bank::RegisterBank`], a byte-addressed
//! register backing store with explicit access widths and byte orders. The
//! decisions each driver takes — which bit gates a transfer, which word to
//! write where — are verified against that model; a bare-metal integration
//! performs the same accesses on live device memory.

pub mod aux_mini;
pub mod bank;
pub mod bytes;
pub mod discovery;
pub mod earlycon;
pub mod fdtcheck;
pub mod io;
pub mod ns16550;
pub mod pl011;
pub mod uart;

pub use aux_mini::AuxMini;
pub use bank::RegisterBank;
pub use discovery::{init, DiscoveredConsole, NodeModel, TreeModel};
pub use io::{IoKind, IrqEvent, UartData, UartError};
pub use ns16550::Ns16550;
pub use pl011::Pl011;
pub use uart::{ControllerFamily, Receiver, Sender, Uart};
