//! Platform constants for the BCM2837 board: core count, per-core stack
//! size, usable RAM top, and the peripheral register addresses.

use vstd::prelude::*;

verus! {

/// Number of symmetric cores that run the boot trampoline.
pub const NCPU: usize = 4;

/// Bytes of stack reserved for each core.
pub const STACK_SIZE: usize = 0x10000;

/// BCM2837 physical peripheral base: bus address 0x7Exx_xxxx appears at
/// CPU physical address 0x3Fxx_xxxx.
pub const IOBASE: usize = 0x3f00_0000;

/// Base of the AUX block (mini UART and SPI).
pub const AUX_BASE: usize = IOBASE + 0x21_5000;

/// Base of the GPIO register block.
pub const GPIO_BASE: usize = IOBASE + 0x20_0000;

/// Top of the RAM the ARM cores may claim; the VC SDRAM split is assumed
/// to give 256MB to the GPU.
pub const RAM_TOP: usize = 0x4000_0000 - 256 * 1024 * 1024;

/// Bytes assumed to cover the program's text, data and bss.
pub const PROG_SIZE: usize = 64 * 1024 * 1024;

/// First byte past the program image, usable as heap.
pub const HEAP_BASE: usize = 0 + PROG_SIZE;

/// First byte past the heap: the bottom of the lowest core stack.
pub const HEAP_TOP: usize = RAM_TOP - STACK_SIZE * NCPU;

/// Input clock of the AUX mini UART.
pub const AUX_UART_CLOCK: u32 = 250_000_000;

/// GPIO pin carrying the mini UART transmit line.
pub const AUX_UART_TX_PIN: u32 = 14;

/// GPIO pin carrying the mini UART receive line.
pub const AUX_UART_RX_PIN: u32 = 15;

} // verus!
