//! The NS16550A console UART: configuration, transmit decisions and the
//! bytes of console text.

use vstd::prelude::*;
use vstd::utf8::encode_utf8;
use crate::registers::access::{RegWrite, UART0_BASE};

verus! {

/// Transmitter holding register (divisor latch low while DLAB is set).
pub const UART_THR: usize = 0x0;

/// Interrupt enable register (divisor latch high while DLAB is set).
pub const UART_IER: usize = 0x1;

/// FIFO control register.
pub const UART_FCR: usize = 0x2;

/// Line control register.
pub const UART_LCR: usize = 0x3;

/// Line status register.
pub const UART_LSR: usize = 0x5;

/// Eight data bits, no parity, one stop bit.
pub const LCR_8N1: u8 = 0x03;

/// Enable the FIFOs and clear them.
pub const FCR_ENABLE: u8 = 0x07;

/// Line status: transmitter holding register empty.
pub const LSR_TX_EMPTY: u8 = 0x20;

/// Line control: divisor latch access.
pub const LCR_DLAB: u8 = 0x80;

/// Baud divisor for 115200 baud from a 1.8432 MHz clock.
pub const BAUD_DIVISOR: u16 = 1;

/// Line status polls before a byte is dropped.
pub const WRITE_TIMEOUT: u32 = 100_000;

/// What to do after reading the line status while a byte waits.
#[derive(Debug, Clone, Copy, PartialEq, Eq)]
pub enum TransmitStep {
    /// The transmitter is ready: perform this write.
    Write(RegWrite),
    /// Not ready; poll again with this many attempts left.
    Wait { remaining: u32 },
    /// Out of attempts: the byte is dropped.
    Skip,
}

/// The console UART.
pub struct Uart0;

/// The configuration writes: set DLAB with 8N1, divisor low and high, clear
/// DLAB keeping 8N1, enable FIFOs, disable interrupts.
pub open spec fn init_writes() -> Seq<RegWrite> {
    seq![
        RegWrite::Byte { addr: (UART0_BASE + UART_LCR) as usize, value: (LCR_8N1 | LCR_DLAB) as u8 },
        RegWrite::Byte { addr: (UART0_BASE + UART_THR) as usize, value: (BAUD_DIVISOR & 0xFF) as u8 },
        RegWrite::Byte { addr: (UART0_BASE + UART_IER) as usize, value: (BAUD_DIVISOR >> 8) as u8 },
        RegWrite::Byte { addr: (UART0_BASE + UART_LCR) as usize, value: LCR_8N1 },
        RegWrite::Byte { addr: (UART0_BASE + UART_FCR) as usize, value: FCR_ENABLE },
        RegWrite::Byte { addr: (UART0_BASE + UART_IER) as usize, value: 0 },
    ]
}

impl Uart0 {
    /// The writes that configure the UART for 115200 baud 8N1 with FIFOs.
    pub fn init() -> (w: Vec<RegWrite>)
        ensures
            w@ == init_writes(),
    {
        let mut w: Vec<RegWrite> = Vec::new();
        w.push(RegWrite::Byte { addr: UART0_BASE + UART_LCR, value: LCR_8N1 | LCR_DLAB });
        w.push(RegWrite::Byte { addr: UART0_BASE + UART_THR, value: (BAUD_DIVISOR & 0xFF) as u8 });
        w.push(RegWrite::Byte { addr: UART0_BASE + UART_IER, value: (BAUD_DIVISOR >> 8) as u8 });
        w.push(RegWrite::Byte { addr: UART0_BASE + UART_LCR, value: LCR_8N1 });
        w.push(RegWrite::Byte { addr: UART0_BASE + UART_FCR, value: FCR_ENABLE });
        w.push(RegWrite::Byte { addr: UART0_BASE + UART_IER, value: 0 });
        assert(w@ =~= init_writes());
        w
    }

    /// One step of transmitting `byte` after reading the line status: write
    /// when the holding register is empty; otherwise wait, or drop the byte
    /// when no attempt is left.
    pub fn write_byte(byte: u8, remaining: u32, lsr: u8) -> (step: TransmitStep)
        ensures
            step == if lsr & LSR_TX_EMPTY != 0 {
                TransmitStep::Write(RegWrite::Byte { addr: (UART0_BASE + UART_THR) as usize, value: byte })
            } else if remaining == 0 {
                TransmitStep::Skip
            } else {
                TransmitStep::Wait { remaining: (remaining - 1) as u32 }
            },
    {
        if lsr & LSR_TX_EMPTY != 0 {
            TransmitStep::Write(RegWrite::Byte { addr: UART0_BASE + UART_THR, value: byte })
        } else if remaining == 0 {
            TransmitStep::Skip
        } else {
            TransmitStep::Wait { remaining: remaining - 1 }
        }
    }

    /// The bytes that transmitting `s` sends, in order.
    pub fn write_str(s: &str) -> (bytes: Vec<u8>)
        ensures
            bytes@ == encode_utf8(s@),
    {
        let b = s.as_bytes();
        let mut out: Vec<u8> = Vec::new();
        crate::text::push_bytes(&mut out, b);
        out
    }

    /// Whether a line status value shows the transmitter idle.
    pub fn tx_done(lsr: u8) -> (b: bool)
        ensures
            b == (lsr & LSR_TX_EMPTY != 0),
    {
        lsr & LSR_TX_EMPTY != 0
    }
}

/// The console configuration writes.
pub fn console_init() -> (w: Vec<RegWrite>)
    ensures
        w@ == init_writes(),
{
    Uart0::init()
}

} // verus!
