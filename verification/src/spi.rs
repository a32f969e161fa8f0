//! The driver: a peripheral handle bound to the pins that carry its bus.

use crate::clock::{divisor_code, divisor_code_of, rate_reachable, Clocks, Hertz};
use crate::control::{
    lemma_startup_forgets_the_past, startup, startup_sequence, Control, Peripheral, Step,
};
use crate::gpio::{Alternate, AF0, PA5, PA6, PA7, PB2, PB4, PB5};
use crate::mode::Mode;
use crate::status::{IdleRead, ReadStep, SendStep, Status};
use vstd::prelude::*;

verus! {

/// SPI error.
#[derive(Clone, Copy, Debug, PartialEq, Eq, Structural)]
pub enum Error {
    /// Overrun occurred.
    Overrun,
    /// Mode fault occurred.
    ModeFault,
    /// CRC error.
    Crc,
    /// Kept free so that further errors can be added later.
    _Extensible,
}

/// Why a non-blocking access did not give a result.
#[derive(Clone, Copy, Debug, PartialEq, Eq, Structural)]
pub enum NbError {
    /// The access failed for good.
    Other(Error),
    /// The access could not be finished yet; try again.
    WouldBlock,
}

/// The SPI1 peripheral, owned through a handle of type `H`.
pub struct Spi1<H> {
    handle: H,
}

/// Marks the pin sets, each a clock line, a data-in line and a data-out line
/// in this order, that can carry the bus of the peripheral `Spi`.
pub trait Pins<Spi> {

}

impl<H> Pins<Spi1<H>> for (PA5<Alternate<AF0>>, PA6<Alternate<AF0>>, PA7<Alternate<AF0>>) {

}

impl<H> Pins<Spi1<H>> for (PB2<Alternate<AF0>>, PB4<Alternate<AF0>>, PB5<Alternate<AF0>>) {

}

/// SPI abstraction: a peripheral together with the pins of its bus.
pub struct Spi<SPI, PINS> {
    spi: SPI,
    pins: PINS,
}

impl<H> View for Spi1<H> {
    type V = H;

    /// The handle inside.
    closed spec fn view(&self) -> H {
        self.handle
    }
}

impl<SPI, PINS> View for Spi<SPI, PINS> {
    type V = (SPI, PINS);

    /// The peripheral and the pins that the driver owns.
    closed spec fn view(&self) -> (SPI, PINS) {
        (self.spi, self.pins)
    }
}

/// The register accesses that construction lays out for a mode, a requested
/// bit rate and the clocks: the start-up sequence with the control word of a
/// master whose prescaler code is the one the table gives for the ratio of
/// bus clock to bit rate.
pub open spec fn construction(mode: Mode, speed: Hertz, clocks: Clocks) -> Seq<Step> {
    startup(Control::master(mode, divisor_code_of(clocks.pclk.0 as int / speed.0 as int) as u8))
}

impl<H> Spi1<H> {
    /// Takes the handle of the SPI1 peripheral.
    pub fn new(handle: H) -> (spi: Self)
        ensures
            spi@ == handle,
    {
        Spi1 { handle }
    }

    /// Borrows the handle.
    pub fn handle(&self) -> (handle: &H)
        ensures
            *handle == self@,
    {
        &self.handle
    }

    /// Gives the handle back.
    pub fn free(self) -> (handle: H)
        ensures
            handle == self@,
    {
        self.handle
    }
}

impl<H, PINS> Spi<Spi1<H>, PINS> {
    /// Binds the peripheral to its pins and lays out the register accesses
    /// that bring it up as a bus master in `mode`, at the bit rate that the
    /// prescaler table gives for `speed`.
    ///
    /// The caller performs the accesses in the order given before it uses the
    /// driver. A `speed` of zero or above the bus clock is not served.
    pub fn spi1(spi: Spi1<H>, pins: PINS, mode: Mode, speed: Hertz, clocks: Clocks) -> (made: (
        Self,
        [Step; 6],
    )) where PINS: Pins<Spi1<H>>
        requires
            rate_reachable(clocks.pclk, speed),
        ensures
            made.0@ == (spi, pins),
            made.1@ == construction(mode, speed, clocks),
    {
        let ratio: u32 = clocks.pclk.0 / speed.0;
        assert(ratio >= 1) by (nonlinear_arith)
            requires
                ratio == clocks.pclk.0 as int / speed.0 as int,
                0 < speed.0 <= clocks.pclk.0,
        ;
        let br = divisor_code(ratio);
        let steps = startup_sequence(Control::for_master(mode, br));
        (Spi { spi, pins }, steps)
    }

    /// Hands the peripheral and the pins back. Nothing is programmed: the
    /// peripheral stays as it is.
    pub fn release(self) -> (parts: (Spi1<H>, PINS))
        ensures
            parts == self@,
    {
        (self.spi, self.pins)
    }

    /// Borrows the peripheral, for the register accesses.
    pub fn peripheral(&self) -> (spi: &Spi1<H>)
        ensures
            *spi == self@.0,
    {
        &self.spi
    }

    /// Decides a non-blocking read from the status flags.
    ///
    /// An error flag gives its error, overrun first, whether or not a byte is
    /// waiting. Without an error, a waiting byte is to be taken from the data
    /// register. With nothing waiting the read hands out a zero byte.
    pub fn read(&mut self, status: Status) -> (step: ReadStep)
        ensures
            step == status.read_step(IdleRead::ZeroByte),
            status.ovr ==> step == ReadStep::Fault(Error::Overrun),
            step is TakeData <==> !status.faulty() && status.rxne,
            step is Yield <==> !status.faulty() && !status.rxne,
            step matches ReadStep::Yield(byte) ==> byte == 0,
            step !is WouldBlock,
            *final(self) == *old(self),
    {
        self.read_with(status, IdleRead::ZeroByte)
    }

    /// Decides a non-blocking read from the status flags, with the choice of
    /// what an idle bus gives made by the caller.
    pub fn read_with(&mut self, status: Status, idle: IdleRead) -> (step: ReadStep)
        ensures
            step == status.read_step(idle),
            status.ovr ==> step == ReadStep::Fault(Error::Overrun),
            step is Fault <==> status.faulty(),
            step is TakeData <==> !status.faulty() && status.rxne,
            step is WouldBlock <==> !status.faulty() && !status.rxne && idle == IdleRead::WouldBlock,
            *final(self) == *old(self),
    {
        if status.ovr {
            ReadStep::Fault(Error::Overrun)
        } else if status.modf {
            ReadStep::Fault(Error::ModeFault)
        } else if status.crcerr {
            ReadStep::Fault(Error::Crc)
        } else if status.rxne {
            ReadStep::TakeData
        } else {
            match idle {
                IdleRead::ZeroByte => ReadStep::Yield(0),
                IdleRead::WouldBlock => ReadStep::WouldBlock,
            }
        }
    }

    /// Decides a non-blocking send of `byte` from the status flags.
    ///
    /// An error flag gives its error, overrun first. Without an error, the
    /// byte is to be written to the data register if the transmit buffer is
    /// free; otherwise the send would block.
    pub fn send(&mut self, status: Status, byte: u8) -> (step: SendStep)
        ensures
            step == status.send_step(byte),
            status.ovr ==> step == SendStep::Fault(Error::Overrun),
            step is Fault <==> status.faulty(),
            step is WouldBlock <==> !status.txe && !status.faulty(),
            step is PutData <==> status.txe && !status.faulty(),
            *final(self) == *old(self),
    {
        if status.ovr {
            SendStep::Fault(Error::Overrun)
        } else if status.modf {
            SendStep::Fault(Error::ModeFault)
        } else if status.crcerr {
            SendStep::Fault(Error::Crc)
        } else if status.txe {
            SendStep::PutData(byte)
        } else {
            SendStep::WouldBlock
        }
    }
}

/// Construction is idempotent on the hardware: whatever state the peripheral
/// was in, the accesses that construction lays out leave it in one and the
/// same state, so that constructing a second time changes nothing. In that
/// state the peripheral is clocked, out of reset and enabled, and its control
/// register holds the mode and the prescaler code that were asked for.
pub proof fn lemma_construction_is_idempotent(
    mode: Mode,
    speed: Hertz,
    clocks: Clocks,
    first: Peripheral,
    second: Peripheral,
)
    requires
        rate_reachable(clocks.pclk, speed),
    ensures
        ({
            let steps = construction(mode, speed, clocks);
            let code = divisor_code_of(clocks.pclk.0 as int / speed.0 as int);
            let after = first.after_all(steps);
            &&& after == second.after_all(steps)
            &&& after.after_all(steps) == after
            &&& after.clocked && !after.in_reset && !after.select_output
            &&& after.control == Control::master(mode, code as u8)
            &&& after.control.spe
            &&& after.control.br == code
            &&& after.control.well_formed()
        }),
{
    let code = divisor_code_of(clocks.pclk.0 as int / speed.0 as int);
    let control = Control::master(mode, code as u8);
    lemma_startup_forgets_the_past(first, control);
    lemma_startup_forgets_the_past(second, control);
    lemma_startup_forgets_the_past(first.after_all(startup(control)), control);
}

} // verus!
