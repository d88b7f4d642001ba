//! The bus transport capability the driver is generic over: addressed write
//! and addressed read, modelled by a ghost log of the completed transactions.

use vstd::prelude::*;

verus! {

/// One completed bus transaction, as the transport model records it.
pub enum Transaction {
    /// `bytes` were sent to the device at `addr`.
    Write { addr: u8, bytes: Seq<u8> },
    /// `bytes` were received from the device at `addr`.
    Read { addr: u8, bytes: Seq<u8> },
}

/// An addressed read/write capability over the two-wire bus, supplied by the
/// host platform. The driver takes exclusive ownership of one transport.
///
/// `history()` models the bus: the transactions completed so far, oldest
/// first. A failing operation reports a transport-defined error and leaves
/// the log as it was, so the log holds exactly what the device acknowledged.
pub trait I2cTransport: Sized {
    /// The transport-defined error type.
    type BusError;

    /// The transactions completed so far, oldest first. The default model is
    /// an empty, never-growing log: a transport that keeps it can satisfy
    /// `bus_write` and `bus_read` only by always failing, so a transport
    /// verified against this trait gives `history` a model of its own.
    open spec fn history(&self) -> Seq<Transaction> {
        Seq::empty()
    }

    /// Sends `bytes` to the device at `addr`.
    fn bus_write(&mut self, addr: u8, bytes: &[u8]) -> (r: Result<(), Self::BusError>)
        ensures
            r is Ok ==> final(self).history() == old(self).history().push(
                (Transaction::Write { addr, bytes: bytes@ }),
            ),
            r is Err ==> final(self).history() == old(self).history(),
    ;

    /// Fills `buffer` with bytes received from the device at `addr`.
    fn bus_read(&mut self, addr: u8, buffer: &mut Vec<u8>) -> (r: Result<(), Self::BusError>)
        ensures
            final(buffer)@.len() == old(buffer)@.len(),
            r is Ok ==> final(self).history() == old(self).history().push(
                (Transaction::Read { addr, bytes: final(buffer)@ }),
            ),
            r is Err ==> final(self).history() == old(self).history(),
    ;
}

} // verus!
