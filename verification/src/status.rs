//! The status flags and what they mean for one non-blocking access.

use crate::spi::Error;
use vstd::prelude::*;

verus! {

/// The flags of the status register that the driver looks at.
#[derive(Clone, Copy, Debug, PartialEq, Eq, Structural)]
pub struct Status {
    /// OVR: a received byte was lost because the previous one had not been read.
    pub ovr: bool,
    /// MODF: another master was seen driving the bus.
    pub modf: bool,
    /// CRCERR: the checksum of the received data did not match.
    pub crcerr: bool,
    /// RXNE: the receive buffer holds a byte.
    pub rxne: bool,
    /// TXE: the transmit buffer is free.
    pub txe: bool,
}

/// What a read does when no error is flagged and no byte has arrived.
#[derive(Clone, Copy, Debug, PartialEq, Eq, Structural)]
pub enum IdleRead {
    /// Hand out a zero byte as if it had been received. A caller cannot tell
    /// such a byte from a received zero.
    ZeroByte,
    /// Report that the read would block, as a send does.
    WouldBlock,
}

/// What a non-blocking read comes to, given the status flags.
#[derive(Clone, Copy, Debug, PartialEq, Eq, Structural)]
pub enum ReadStep {
    /// The read fails with this error. The data register is left alone.
    Fault(Error),
    /// A byte is waiting: read the data register, as one byte, and hand the
    /// byte out.
    TakeData,
    /// Nothing has arrived; hand out this byte. The data register is left
    /// alone.
    Yield(u8),
    /// Nothing has arrived; the read would block.
    WouldBlock,
}

/// What a non-blocking send comes to, given the status flags.
#[derive(Clone, Copy, Debug, PartialEq, Eq, Structural)]
pub enum SendStep {
    /// The send fails with this error. Nothing is written.
    Fault(Error),
    /// The transmit buffer is free: write this byte to the data register, as
    /// one byte, and report success.
    PutData(u8),
    /// The transmit buffer is still full; the send would block.
    WouldBlock,
}

impl Status {
    /// Whether one of the three error flags is set.
    pub open spec fn faulty(self) -> bool {
        self.ovr || self.modf || self.crcerr
    }

    /// The error that the flags stand for. Overrun goes before mode fault,
    /// and mode fault before a checksum error.
    pub open spec fn fault(self) -> Option<Error> {
        if self.ovr {
            Some(Error::Overrun)
        } else if self.modf {
            Some(Error::ModeFault)
        } else if self.crcerr {
            Some(Error::Crc)
        } else {
            None
        }
    }

    /// The outcome of a read under these flags. An error flag goes before a
    /// waiting byte.
    pub open spec fn read_step(self, idle: IdleRead) -> ReadStep {
        match self.fault() {
            Some(error) => ReadStep::Fault(error),
            None => if self.rxne {
                ReadStep::TakeData
            } else {
                match idle {
                    IdleRead::ZeroByte => ReadStep::Yield(0),
                    IdleRead::WouldBlock => ReadStep::WouldBlock,
                }
            },
        }
    }

    /// The outcome of sending `byte` under these flags. An error flag goes
    /// before a free transmit buffer.
    pub open spec fn send_step(self, byte: u8) -> SendStep {
        match self.fault() {
            Some(error) => SendStep::Fault(error),
            None => if self.txe {
                SendStep::PutData(byte)
            } else {
                SendStep::WouldBlock
            },
        }
    }
}

} // verus!
