//! The three capabilities that the driver consumes, and the record of what
//! it asked of them.
//!
//! The bus and the select line are the two traits below: each names the
//! error that it can fail with. The delay source is any
//! `embedded_hal::blocking::delay::DelayMs<u8>`. None of them promises
//! anything: what a call returns is for the capability to decide, and the
//! driver is verified for every reply.
//!
//! A [`Link`] owns the three and keeps, as ghost state, the list of
//! [`Exchange`]s made so far: which action was asked for, and what came back.
//! Only the four methods of `Link` that make a call extend that list, each by
//! the one exchange that it makes.

use crate::record::Exchange;
use crate::wire::Action;
use embedded_hal::blocking::delay::DelayMs;
use vstd::prelude::*;

verus! {

/// Why an operation of the driver failed.
#[derive(Debug)]
pub enum Error<SpiE, PinE> {
    /// The bus reported this when a byte was sent.
    Spi(SpiE),
    /// The select line reported this when its level was set.
    Pin(PinE),
}

/// A channel that takes bytes.
pub trait ByteChannel {
    /// What a failed transfer reports.
    type Error;

    /// Sends `words`, in order.
    fn write(&mut self, words: &[u8]) -> Result<(), Self::Error>;
}

/// An output line with two levels.
pub trait SelectLine {
    /// What a failed change of level reports.
    type Error;

    /// Drives the line low.
    fn set_low(&mut self) -> Result<(), Self::Error>;

    /// Drives the line high.
    fn set_high(&mut self) -> Result<(), Self::Error>;
}

/// What a reply of the select line means to the driver's caller.
pub fn line_outcome<SpiE, PinE>(reply: Result<(), PinE>) -> (r: Result<(), Error<SpiE, PinE>>)
    ensures
        reply is Ok ==> r is Ok,
        reply is Err ==> r == Err::<(), Error<SpiE, PinE>>(Error::Pin(reply->Err_0)),
{
    match reply {
        Ok(()) => Ok(()),
        Err(e) => Err(Error::Pin(e)),
    }
}

/// What a reply of the bus means to the driver's caller.
pub fn bus_outcome<SpiE, PinE>(reply: Result<(), SpiE>) -> (r: Result<(), Error<SpiE, PinE>>)
    ensures
        reply is Ok ==> r is Ok,
        reply is Err ==> r == Err::<(), Error<SpiE, PinE>>(Error::Spi(reply->Err_0)),
{
    match reply {
        Ok(()) => Ok(()),
        Err(e) => Err(Error::Spi(e)),
    }
}

/// Calls `DelayMs::delay_ms` of embedded-hal on the delay source. The trait
/// says that the call pauses execution and returns nothing; nothing is
/// claimed of it here.
#[verifier::external_body]
fn delay_ms<DS>(delay_source: &mut DS, ms: u8) where DS: DelayMs<u8> {
    delay_source.delay_ms(ms)
}

/// The bus, the select line and the delay source, owned together, with the
/// record of the calls made to them.
pub(crate) struct Link<SPI: ByteChannel, CS: SelectLine, DS> {
    spi: SPI,
    cs: CS,
    delay_source: DS,
    log: Ghost<Seq<Exchange<SPI::Error, CS::Error>>>,
}

impl<SPI, CS, DS, SpiE, PinE> Link<SPI, CS, DS> where
    SPI: ByteChannel<Error = SpiE>,
    CS: SelectLine<Error = PinE>,
    DS: DelayMs<u8>,
 {
    /// Every exchange made so far, oldest first.
    pub(crate) closed spec fn log(&self) -> Seq<Exchange<SpiE, PinE>> {
        self.log@
    }

    /// Takes the three capabilities. Makes no call.
    pub(crate) fn new(spi: SPI, cs: CS, delay_source: DS) -> (link: Self)
        ensures
            link.log() == Seq::<Exchange<SpiE, PinE>>::empty(),
    {
        Link { spi, cs, delay_source, log: Ghost(Seq::empty()) }
    }

    /// Drives the select line low.
    pub(crate) fn select(&mut self) -> (r: Result<(), Error<SpiE, PinE>>)
        ensures
            final(self).log() == old(self).log().push(
                (Exchange { action: Action::SelectLow, reply: r }),
            ),
            r is Err ==> r->Err_0 is Pin,
    {
        let r = line_outcome(self.cs.set_low());
        proof {
            self.log@ = self.log@.push(Exchange { action: Action::SelectLow, reply: r });
        }
        r
    }

    /// Drives the select line high.
    pub(crate) fn release(&mut self) -> (r: Result<(), Error<SpiE, PinE>>)
        ensures
            final(self).log() == old(self).log().push(
                (Exchange { action: Action::SelectHigh, reply: r }),
            ),
            r is Err ==> r->Err_0 is Pin,
    {
        let r = line_outcome(self.cs.set_high());
        proof {
            self.log@ = self.log@.push(Exchange { action: Action::SelectHigh, reply: r });
        }
        r
    }

    /// Sends one byte over the bus.
    pub(crate) fn send(&mut self, data: u8) -> (r: Result<(), Error<SpiE, PinE>>)
        ensures
            final(self).log() == old(self).log().push(
                (Exchange { action: Action::Transmit(data), reply: r }),
            ),
            r is Err ==> r->Err_0 is Spi,
    {
        let word = [data];
        let r = bus_outcome(self.spi.write(&word));
        proof {
            self.log@ = self.log@.push(Exchange { action: Action::Transmit(data), reply: r });
        }
        r
    }

    /// Waits `ms` milliseconds.
    pub(crate) fn pause(&mut self, ms: u8)
        ensures
            final(self).log() == old(self).log().push(
                (Exchange { action: Action::Delay(ms), reply: Ok(()) }),
            ),
    {
        delay_ms(&mut self.delay_source, ms);
        proof {
            self.log@ = self.log@.push(Exchange { action: Action::Delay(ms), reply: Ok(()) });
        }
    }
}

} // verus!
