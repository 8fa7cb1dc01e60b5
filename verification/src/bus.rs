//! The seam between the driver and the two-wire bus.
//!
//! The driver reaches the device only through a [`RegisterBus`]. Nothing is
//! promised of what a bus answers: a transfer may fail, and a read may bring
//! any bytes. What is asked of every bus is that it keeps count: each call
//! adds one [`Transfer`] to its history, with the request as it was handed
//! over and the reply as it was handed back. The contracts of the driver
//! speak of that history, and so hold of a driver on any bus that keeps it.
use vstd::prelude::*;

verus! {

/// What is asked of the bus in one transfer.
pub enum Request {
    /// Send `bytes` to the device at `address`.
    Write { address: u8, bytes: Seq<u8> },
    /// Send `bytes` to the device at `address`, then read `count` bytes.
    WriteRead { address: u8, bytes: Seq<u8>, count: nat },
}

/// One transfer: the request, and either the bytes that came back (none for
/// a plain write) or the error of the bus.
pub struct Transfer<E> {
    pub request: Request,
    pub reply: Result<Seq<u8>, E>,
}

/// The history of a bus: the transfers made on it, oldest first, failed ones
/// included.
pub type History<E> = Seq<Transfer<E>>;

/// A blocking two-wire bus on which devices answer at seven-bit addresses.
///
/// The contracts of the two methods are not proved of an implementation that
/// stands outside this crate: they define the history of such a bus as the
/// calls made on it, and hold of every bus that changes its history in these
/// two methods only. The history is ghost: compiled code never asks for it,
/// and an implementation in plain Rust gives `transfers` a body that is
/// never run.
pub trait RegisterBus {
    /// What a failed transfer reports.
    type Error;

    /// The history of the bus.
    spec fn transfers(&self) -> History<Self::Error>;

    /// Sends `bytes` to the device at `address`.
    fn write(&mut self, address: u8, bytes: &[u8]) -> (res: Result<(), Self::Error>)
        ensures
            final(self).transfers() == old(self).transfers().push(
                Transfer {
                    request: (Request::Write { address, bytes: bytes@ }),
                    reply: match res {
                        Ok(_) => Ok(Seq::empty()),
                        Err(e) => Err(e),
                    },
                },
            ),
    ;

    /// Sends `bytes` to the device at `address`, then fills `buffer` with
    /// what the device sends back, in one transaction.
    fn write_read(&mut self, address: u8, bytes: &[u8], buffer: &mut [u8]) -> (res: Result<
        (),
        Self::Error,
    >)
        ensures
            final(buffer)@.len() == old(buffer)@.len(),
            final(self).transfers() == old(self).transfers().push(
                Transfer {
                    request: (Request::WriteRead {
                        address,
                        bytes: bytes@,
                        count: old(buffer)@.len(),
                    }),
                    reply: match res {
                        Ok(_) => Ok(final(buffer)@),
                        Err(e) => Err(e),
                    },
                },
            ),
    ;
}

/// Whether the history of `after` is that of `before` and then `count` more
/// transfers.
pub open spec fn made_since<B: RegisterBus>(after: B, before: B, count: nat) -> bool {
    &&& after.transfers().len() == before.transfers().len() + count
    &&& after.transfers().take(before.transfers().len() as int) =~= before.transfers()
}

/// The transfer number `k` of those that stand in the history of `after`
/// behind those of `before`.
pub open spec fn transfer_since<B: RegisterBus>(after: B, before: B, k: int) -> Transfer<
    B::Error,
> {
    after.transfers()[before.transfers().len() + k]
}

} // verus!
