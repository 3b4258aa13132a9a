//! The serial transport, and the record of what has been handed to it.
//!
//! Nothing but [`Link::send`] reaches the transport, and nothing but it adds to
//! the record: what the rest of the driver states of the record, it states of
//! the transport.

use embedded_hal::spi::{ErrorKind, SpiDevice};
use vstd::prelude::*;

verus! {

/// The kinds of failure that a serial transport reports.
#[verifier::external_type_specification]
#[verifier::external_body]
pub struct ExErrorKind(ErrorKind);

/// A serial transport together with what it has answered so far.
pub struct Link<DEV> {
    spi: DEV,
    accepted: Ghost<Seq<Seq<u8>>>,
    refused: Ghost<Seq<(Seq<u8>, ErrorKind)>>,
}

impl<DEV> Link<DEV> {
    /// The transport itself.
    pub closed spec fn device(&self) -> DEV {
        self.spi
    }

    /// Every buffer that the transport has accepted, oldest first.
    pub closed spec fn accepted(&self) -> Seq<Seq<u8>> {
        self.accepted@
    }

    /// Every buffer that the transport has refused, with the kind of failure
    /// that it reported, oldest first.
    pub closed spec fn refused(&self) -> Seq<(Seq<u8>, ErrorKind)> {
        self.refused@
    }

    /// How many buffers have been handed to the transport.
    pub open spec fn attempts(&self) -> nat {
        self.accepted().len() + self.refused().len()
    }

    /// Takes a transport to which nothing has been handed yet.
    pub(crate) fn new(spi: DEV) -> (link: Self)
        ensures
            link.device() == spi,
            link.accepted() == Seq::<Seq<u8>>::empty(),
            link.refused() == Seq::<(Seq<u8>, ErrorKind)>::empty(),
    {
        Link { spi, accepted: Ghost(Seq::empty()), refused: Ghost(Seq::empty()) }
    }

    /// Gives the transport back.
    pub(crate) fn release(self) -> (spi: DEV)
        ensures
            spi == self.device(),
    {
        self.spi
    }
}

impl<DEV: SpiDevice> Link<DEV> {
    /// Hands `buffer` to `SpiDevice::write`, once, which sends it within a
    /// single transaction, and returns what the transport answered, a failure
    /// by the kind that `Error::kind` gives it.
    ///
    /// Nothing is claimed of the answer: it is the transport's to decide. The
    /// contract says what the record is: a buffer counts as accepted when the
    /// transport answered this call with success, and as refused, with the
    /// kind reported, when it answered with a failure. A transport that
    /// panics rather than answers, as its trait allows it to do on a busy
    /// bus, does so here.
    #[verifier::external_body]
    pub(crate) fn send(&mut self, buffer: &[u8; 2]) -> (answer: Result<(), ErrorKind>)
        ensures
            match answer {
                Ok(()) => final(self).accepted() == old(self).accepted().push(buffer@)
                    && final(self).refused() == old(self).refused(),
                Err(kind) => final(self).accepted() == old(self).accepted()
                    && final(self).refused() == old(self).refused().push((buffer@, kind)),
            },
    {
        match self.spi.write(buffer) {
            Ok(()) => Ok(()),
            Err(e) => Err(embedded_hal::spi::Error::kind(&e)),
        }
    }
}

} // verus!
