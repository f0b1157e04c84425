//! CST328 capacitive touch: what a report packet means.
//!
//! Register map, from the Hynitron CST328 datasheet, normal reporting mode:
//!
//! ```text
//! 0xD000  high nibble finger ID, low nibble status (0x06 = pressed)
//! 0xD001  X_Position >> 4
//! 0xD002  Y_Position >> 4
//! 0xD003  high nibble X & 0x0F, low nibble Y & 0x0F
//! 0xD004  pressure
//! 0xD005  bit 7 button flag, low bits finger count
//! 0xD006  fixed 0xAB
//! 0xD007+ fingers 2 to 5, five bytes each
//! ```
//!
//! The finger count at 0xD005 lags the per-finger status at 0xD000: a
//! packet can report a finger in the count while the status nibble already
//! says lifted. The status nibble decides, never the count. The packet is
//! read on the interrupt and validated, not pre-polled for readiness.

use vstd::prelude::*;

verus! {

/// Base of the touch report block.
pub const REG_TOUCH_DATA: u16 = 0xD000;
/// Length of the block covering finger 1 and the fixed marker.
pub const TOUCH_DATA_LEN: usize = 28;
/// Value the marker byte must hold for the packet to be valid.
pub const MARKER: u8 = 0xAB;
/// Status nibble value meaning a finger is down.
pub const STATUS_PRESSED: u8 = 0x06;
/// How long the reset line is held low, in milliseconds.
pub const RESET_ASSERT_MS: u32 = 1;
/// How long the controller needs after reset before it answers.
pub const RESET_SETTLE_MS: u32 = 250;

/// A validated single-finger touch sample in panel-native coordinates.
#[derive(Debug, Clone, Copy, PartialEq, Eq, Structural)]
pub struct Touch {
    /// X in the panel-native frame, 0 to 239 on the reference panel.
    pub x: u16,
    /// Y in the panel-native frame, 0 to 319 on the reference panel.
    pub y: u16,
    /// Contact pressure as reported by the controller.
    pub pressure: u8,
    /// Number of fingers the controller currently reports.
    pub fingers: u8,
}

/// Errors the reader can produce.
#[derive(Debug, Clone, Copy, PartialEq, Eq, Structural)]
pub enum TouchError {
    /// The I2C transfer itself failed.
    Bus,
    /// The packet did not carry the fixed 0xAB marker.
    BadMarker,
    /// Driving the reset line failed.
    Reset,
}

/// What a report packet says: an error when the marker is missing (or the
/// first byte is the marker itself, so the block is misaligned), no touch
/// when the status nibble is not "pressed", else finger 1 with its 12-bit
/// coordinates, pressure and the finger count without the button flag.
pub open spec fn decode(buf: Seq<u8>) -> Result<Option<Touch>, TouchError> {
    if buf[6] != MARKER || buf[0] == MARKER {
        Err(TouchError::BadMarker)
    } else if buf[0] % 16 != STATUS_PRESSED {
        Ok(None)
    } else {
        Ok(
            Some(
                Touch {
                    x: (buf[1] * 16 + buf[3] / 16) as u16,
                    y: (buf[2] * 16 + buf[3] % 16) as u16,
                    pressure: buf[4],
                    fingers: buf[5] % 128,
                },
            ),
        )
    }
}

/// CST328 reader: the bus it sits on and its 7-bit address.
pub struct Cst328<I> {
    i2c: I,
    addr: u8,
}

impl<I> Cst328<I> {
    pub closed spec fn address(&self) -> u8 {
        self.addr
    }

    pub closed spec fn bus_value(&self) -> I {
        self.i2c
    }

    /// Bind to a bus and address. Does not touch the device. The address is
    /// kept in its low byte.
    pub fn new(i2c: I, addr: u16) -> (s: Self)
        ensures
            s.address() == addr as u8,
            s.bus_value() == i2c,
    {
        Cst328 { i2c, addr: addr as u8 }
    }

    /// The address transfers are sent to.
    pub fn addr(&self) -> (a: u8)
        ensures
            a == self.address(),
    {
        self.addr
    }

    /// The register pointer written before the burst read: the report
    /// block base, big-endian.
    pub fn register(&self) -> (r: [u8; 2])
        ensures
            r@ == seq![0xD0u8, 0x00u8],
    {
        [0xD0, 0x00]
    }

    /// The bus, for the caller to run the combined write-read on.
    pub fn bus(&mut self) -> (b: &mut I)
        ensures
            *b == old(self).bus_value(),
            final(self).bus_value() == *final(b),
            final(self).address() == old(self).address(),
    {
        &mut self.i2c
    }

    /// Interpret one touch report transfer.
    ///
    /// A failed transfer is `Err(Bus)`. `Ok(None)` is a structurally valid
    /// packet with no finger down, the normal case on a release edge.
    /// `Err(BadMarker)` is a packet that is not a touch report at all.
    pub fn read(&self, transfer: Result<[u8; 28], ()>) -> (r: Result<Option<Touch>, TouchError>)
        ensures
            match transfer {
                Ok(buf) => r == decode(buf@),
                Err(_) => r == Err::<Option<Touch>, TouchError>(TouchError::Bus),
            },
    {
        let buf = match transfer {
            Ok(b) => b,
            Err(_) => {
                return Err(TouchError::Bus);
            },
        };
        if buf[6] != MARKER || buf[0] == MARKER {
            return Err(TouchError::BadMarker);
        }
        let b0 = buf[0];
        let b1 = buf[1];
        let b2 = buf[2];
        let b3 = buf[3];
        let b5 = buf[5];
        assert(b0 & 0x0F == b0 % 16) by (bit_vector);
        if b0 & 0x0F != STATUS_PRESSED {
            return Ok(None);
        }
        let x = ((b1 as u16) << 4) | (((b3 & 0xF0) >> 4) as u16);
        let y = ((b2 as u16) << 4) | ((b3 & 0x0F) as u16);
        assert(((b1 as u16) << 4) | (((b3 & 0xF0) >> 4) as u16) == b1 * 16 + b3 / 16) by (bit_vector);
        assert(((b2 as u16) << 4) | ((b3 & 0x0F) as u16) == b2 * 16 + b3 % 16) by (bit_vector);
        assert(b5 & 0x7F == b5 % 128) by (bit_vector);
        Ok(Some(Touch { x, y, pressure: buf[4], fingers: b5 & 0x7F }))
    }
}

} // verus!
