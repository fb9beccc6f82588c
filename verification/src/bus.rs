//! The bus transport abstraction.
//!
//! The driver does not talk to the hardware itself: it is generic over a
//! transport that offers the two primitives of the serial bus, a plain write
//! and a combined write-then-read.  A transport keeps a ghost history of
//! every transaction it has attempted, successful or failed, and the
//! contracts of the two primitives say that each call appends exactly one
//! record whose outcome is the call's own result.  Callers can therefore
//! state precisely which transactions they issue, that a bus failure
//! surfaces unchanged, and that nothing is retried.
//!
//! Beside the history, a transport names its fixed `config` — whatever the
//! two operations never change — and an invariant `inv` that they preserve.
//! Both are carried through every generic contract, so what holds of a
//! concrete transport before it is handed to the driver still holds of it
//! after any sequence of driver calls.  A transport with nothing to say
//! picks `()` for the configuration and `true` for the invariant.

use vstd::prelude::*;

verus! {

/// One attempted bus transaction, as recorded in a transport's history.
/// `E` is the transport's error type; a failed attempt carries the error
/// the transport raised.
#[allow(inconsistent_fields)]
pub enum Transaction<E> {
    /// A plain write of `data` to the device at 8-bit bus address `addr`;
    /// `result` is `Ok(())` or the bus error it failed with.
    Write { addr: u8, data: Seq<u8>, result: Result<(), E> },
    /// A write of `data` to the device at 8-bit bus address `addr`, followed
    /// by a one-byte read, without releasing the bus in between; `result` is
    /// the byte read back or the bus error the attempt failed with.
    WriteRead { addr: u8, data: Seq<u8>, result: Result<u8, E> },
}

/// A bus transport: the two synchronous primitives the driver needs.
///
/// Implementations decide freely whether a transaction succeeds (a real bus
/// fails on its own schedule), but every call must append exactly one record
/// to the history — the transaction it attempted, with the very result the
/// call returns — while keeping the configuration and preserving the
/// invariant.  An implementation that retried a failed transaction, or
/// returned an error it never raised, could not satisfy these contracts.
pub trait I2cBus: Sized {
    /// The transport's own error type for failed bus transactions.
    type BusError;

    /// Whatever the transport holds that its two operations never change:
    /// its settings, or the script it is to follow.
    type Config;

    /// All transactions this transport has attempted, oldest first.
    spec fn history(self) -> Seq<Transaction<Self::BusError>>;

    /// The transport's fixed configuration.
    spec fn config(self) -> Self::Config;

    /// An invariant of the transport's state that both operations preserve.
    spec fn inv(self) -> bool;

    /// Write `data` to the device at bus address `addr`.
    fn write(&mut self, addr: u8, data: &[u8]) -> (r: Result<(), Self::BusError>)
        ensures
            (r is Ok ==> final(self).history() == old(self).history().push(
                Transaction::Write { addr, data: data@, result: Ok(()) },
            )),
            (r matches Err(e) ==> final(self).history() == old(self).history().push(
                Transaction::Write { addr, data: data@, result: Err(e) },
            )),
            final(self).config() == old(self).config(),
            old(self).inv() ==> final(self).inv(),
    ;

    /// Write `data` to the device at bus address `addr`, then read one byte
    /// back in the same transaction.
    fn write_read(&mut self, addr: u8, data: &[u8]) -> (r: Result<u8, Self::BusError>)
        ensures
            (r matches Ok(b) ==> final(self).history() == old(self).history().push(
                Transaction::WriteRead { addr, data: data@, result: Ok(b) },
            )),
            (r matches Err(e) ==> final(self).history() == old(self).history().push(
                Transaction::WriteRead { addr, data: data@, result: Err(e) },
            )),
            final(self).config() == old(self).config(),
            old(self).inv() ==> final(self).inv(),
    ;
}

} // verus!
