//! UART0 registers and the console byte path.

use vstd::prelude::*;
use vstd::utf8::encode_utf8;
use crate::registers::access::{RegWrite, UART0_BASE};

verus! {

/// Transmit data register (bit 31 set while the FIFO is full).
pub const TXDATA: usize = UART0_BASE;

/// Receive data register.
pub const RXDATA: usize = UART0_BASE + 0x4;

/// Transmit control register.
pub const TXCTRL: usize = UART0_BASE + 0x8;

/// Receive control register.
pub const RXCTRL: usize = UART0_BASE + 0xC;

/// Baud rate divisor register.
pub const DIV: usize = UART0_BASE + 0x18;

/// The console UART.
pub struct Uart0;

/// One transmit write per byte.
pub open spec fn transmit_writes(bytes: Seq<u8>) -> Seq<RegWrite> {
    Seq::new(bytes.len(), |i: int| RegWrite::Word { addr: TXDATA, value: bytes[i] as u32 })
}

impl Uart0 {
    /// Initialization: divisor 139 (115200 baud), then transmitter enable.
    pub fn init() -> (w: Vec<RegWrite>)
        ensures
            w@ == seq![
                RegWrite::Word { addr: DIV, value: 139 },
                RegWrite::Word { addr: TXCTRL, value: 1 },
            ],
    {
        let mut w: Vec<RegWrite> = Vec::new();
        w.push(RegWrite::Word { addr: DIV, value: 139 });
        w.push(RegWrite::Word { addr: TXCTRL, value: 1 });
        assert(w@ =~= seq![
            RegWrite::Word { addr: DIV, value: 139 },
            RegWrite::Word { addr: TXCTRL, value: 1 },
        ]);
        w
    }

    /// The write that transmits one byte (once the FIFO has room).
    pub fn send_byte(byte: u8) -> (w: RegWrite)
        ensures
            w == (RegWrite::Word { addr: TXDATA, value: byte as u32 }),
    {
        RegWrite::Word { addr: TXDATA, value: byte as u32 }
    }

    /// The writes that transmit a string, one per UTF-8 byte.
    pub fn send_string(s: &str) -> (w: Vec<RegWrite>)
        ensures
            w@ == transmit_writes(encode_utf8(s@)),
    {
        let bytes = s.as_bytes();
        let mut w: Vec<RegWrite> = Vec::new();
        let mut i: usize = 0;
        while i < bytes.len()
            invariant
                i <= bytes@.len(),
                bytes@ == encode_utf8(s@),
                w@ == transmit_writes(bytes@.take(i as int)),
            decreases bytes@.len() - i,
        {
            w.push(Self::send_byte(bytes[i]));
            proof {
                assert(w@ =~= transmit_writes(bytes@.take(i + 1)));
            }
            i = i + 1;
        }
        assert(bytes@.take(bytes@.len() as int) =~= bytes@);
        w
    }

    /// Whether a TXDATA value shows room in the FIFO (bit 31 clear).
    pub fn tx_done(txdata: u32) -> (b: bool)
        ensures
            b == (txdata & 0x8000_0000 == 0),
    {
        txdata & 0x8000_0000 == 0
    }
}

} // verus!
