//! The sensor driver itself.
//!
//! A `Driver` owns its transport for its whole lifetime.  Construction reads
//! the chip's identity register and fails unless the chip reports the
//! expected model; after that the driver offers a calibration trigger and two
//! stateless status reads.  Every contract is stated over the transport's
//! transaction history, which records every attempt with its outcome, so it
//! pins down the bus traffic an operation issues, how the bytes read back
//! decode, and that a bus failure aborts at once with the transport's own
//! error, never retried.

use vstd::prelude::*;

use crate::bus::I2cBus;
use crate::bus::Transaction;
use crate::status::KeyStatus;
use crate::status::Status;
use crate::status::bit;

verus! {

/// The chip's fixed 8-bit bus address: the 7-bit address 0x1B, shifted left
/// for the read/write bit.
pub const DEVICE_ADDR: u8 = 0x1B << 1;

/// The identity byte the chip reports from the identity register.
pub const CHIP_ID: u8 = 0x2E;

/// Register offset of the chip identity byte.
pub const ID_ADDR: u8 = 0;

/// Register offset of the overall status byte.
pub const STATUS_ADDR: u8 = 2;

/// Register offset of the key-status byte.
pub const KEY_STATUS_ADDR: u8 = 3;

/// Register offset of the calibration trigger.
pub const CALIBRATE_ADDR: u8 = 56;

/// How many status reads `calibrate` is willing to issue before giving up.
///
/// The chip clears the calibrating flag after a hardware-determined number
/// of reads, so the poll wants no cap at all; every loop in this crate,
/// however, carries a `decreases` clause and so must provably terminate.
/// The cap is therefore the largest count a 64-bit machine can hold: at bus
/// speeds, reaching it would take many thousands of years, so no real
/// execution can tell the capped poll from an unbounded one.
pub const CALIBRATE_POLL_LIMIT: u64 = 0xFFFF_FFFF_FFFF_FFFF;

/// Everything that can go wrong when talking to the chip.
#[derive(Clone, Copy, Debug)]
pub enum Error<I2cError> {
    /// The transport reported a bus failure; the transport's own error is
    /// carried unchanged.
    I2cError(I2cError),
    /// At construction, the chip reported this identity byte instead of the
    /// expected `CHIP_ID`.
    IdMismatch(u8),
    /// `calibrate` read the status register `CALIBRATE_POLL_LIMIT` times and
    /// the chip reported a calibration still in progress on every single
    /// read.  Unreachable on working hardware: the cap exists only so that
    /// the poll provably terminates.
    PollLimitReached,
}

impl<E> From<E> for Error<E> {
    /// A bare transport error converts to its `I2cError` wrapping.
    fn from(error: E) -> (r: Self) {
        Error::I2cError(error)
    }
}

impl<E> vstd::std_specs::convert::FromSpecImpl<E> for Error<E> {
    open spec fn obeys_from_spec() -> bool {
        true
    }

    open spec fn from_spec(error: E) -> Self {
        Error::I2cError(error)
    }
}

/// Decide whether a chip-reported identity byte is the expected model:
/// exactly `CHIP_ID` is accepted, and any other byte is rejected with an
/// `IdMismatch` carrying that byte.
pub fn check_id<E>(id: u8) -> (r: Result<(), Error<E>>)
    ensures
        r is Ok <==> id == CHIP_ID,
        (r matches Err(e) ==> e == Error::<E>::IdMismatch(id)),
{
    if id == CHIP_ID {
        Ok(())
    } else {
        Err(Error::IdMismatch(id))
    }
}

/// The write-then-read attempt on register `reg` that ended with `read`:
/// the byte the chip returned, or the bus error.
pub open spec fn read_attempt_tx<E>(reg: u8, read: Result<u8, E>) -> Transaction<E> {
    Transaction::WriteRead { addr: DEVICE_ADDR, data: seq![reg], result: read }
}

/// The write-then-read transaction that reads register `reg` and gets
/// `response` back.
pub open spec fn reg_read_tx<E>(reg: u8, response: u8) -> Transaction<E> {
    read_attempt_tx(reg, Ok(response))
}

/// The write-then-read attempt on register `reg` that failed with `error`.
pub open spec fn failed_read_tx<E>(reg: u8, error: E) -> Transaction<E> {
    read_attempt_tx(reg, Err(error))
}

/// The write transaction that triggers a calibration cycle.
pub open spec fn calibrate_tx<E>() -> Transaction<E> {
    Transaction::Write { addr: DEVICE_ADDR, data: seq![CALIBRATE_ADDR, 0xFF], result: Ok(()) }
}

/// The calibration-trigger write attempt that failed with `error`.
pub open spec fn failed_calibrate_tx<E>(error: E) -> Transaction<E> {
    Transaction::Write { addr: DEVICE_ADDR, data: seq![CALIBRATE_ADDR, 0xFF], result: Err(error) }
}

/// The status-register reads that returned the given bytes, in order.
pub open spec fn status_reads<E>(bytes: Seq<u8>) -> Seq<Transaction<E>> {
    bytes.map_values(|b: u8| reg_read_tx::<E>(STATUS_ADDR, b))
}

/// A completed calibration poll: at least one status read, every byte but
/// the last with the calibrating flag set, the last with it clear.
pub open spec fn poll_complete(bytes: Seq<u8>) -> bool {
    &&& bytes.len() >= 1
    &&& forall|i: int| 0 <= i < bytes.len() - 1 ==> bit(#[trigger] bytes[i], 7)
    &&& !bit(bytes[bytes.len() - 1], 7)
}

/// An unfinished calibration poll: every status byte read so far has the
/// calibrating flag set.
pub open spec fn poll_pending(bytes: Seq<u8>) -> bool {
    forall|i: int| 0 <= i < bytes.len() ==> bit(#[trigger] bytes[i], 7)
}

/// A driver instance: the owned transport, and nothing else.  The chip holds
/// all sensor state; the driver reads it fresh on every call.
pub struct Driver<I2C> {
    i2c: I2C,
}

/// What construction returns for each way the one identity read can end:
/// the byte `CHIP_ID` gives a driver whose transport attempted exactly that
/// read on top of the prior history `pre`, any other byte gives `IdMismatch`
/// carrying it, and a bus error comes back unchanged as `I2cError`.
pub open spec fn construction_outcome<I2C: I2cBus>(
    pre: Seq<Transaction<I2C::BusError>>,
    read: Result<u8, I2C::BusError>,
    r: Result<Driver<I2C>, Error<I2C::BusError>>,
) -> bool {
    match read {
        Ok(b) => if b == CHIP_ID {
            r matches Ok(d) && d.transactions() == pre.push(reg_read_tx(ID_ADDR, b))
        } else {
            r == Err::<Driver<I2C>, Error<I2C::BusError>>(Error::IdMismatch(b))
        },
        Err(e) => r == Err::<Driver<I2C>, Error<I2C::BusError>>(Error::I2cError(e)),
    }
}

impl<I2C: I2cBus> Driver<I2C> {
    /// All bus transactions this driver's transport has attempted.
    pub closed spec fn transactions(self) -> Seq<Transaction<I2C::BusError>> {
        self.i2c.history()
    }

    /// The transport's fixed configuration, which no operation changes.
    pub closed spec fn bus_config(self) -> I2C::Config {
        self.i2c.config()
    }

    /// Whether the transport's own invariant holds; every operation
    /// preserves it.
    pub closed spec fn bus_inv(self) -> bool {
        self.i2c.inv()
    }

    /// Verify that the expected chip is present and build the driver,
    /// returning beside the result a ghost snapshot of the transport as the
    /// one identity-read attempt left it.  The snapshot is evidence of what
    /// was attempted even where construction fails and the transport is
    /// consumed: in every outcome the transport attempted exactly one
    /// write-then-read of the identity register, and the result is the
    /// verdict of `check_id` on how that attempt ended.
    pub fn new_traced(i2c: I2C) -> (res: (
        Result<Driver<I2C>, Error<I2C::BusError>>,
        Ghost<I2C>,
    ))
        ensures
            res.1@.config() == i2c.config(),
            i2c.inv() ==> res.1@.inv(),
            (res.0 matches Ok(d) ==> d.transactions() == res.1@.history() && d.bus_config()
                == i2c.config() && (i2c.inv() ==> d.bus_inv())),
            exists|read: Result<u8, I2C::BusError>|
                {
                    &&& res.1@.history() == i2c.history().push(
                        #[trigger] read_attempt_tx(ID_ADDR, read),
                    )
                    &&& construction_outcome::<I2C>(i2c.history(), read, res.0)
                },
    {
        let mut driver = Driver { i2c };
        let r = driver.get_id();
        let ghost snapshot = driver.i2c;
        match r {
            Ok(id) => {
                proof {
                    assert(snapshot.history() == i2c.history().push(
                        read_attempt_tx(ID_ADDR, Ok::<u8, I2C::BusError>(id)),
                    ));
                }
                match check_id::<I2C::BusError>(id) {
                    Ok(()) => (Ok(driver), Ghost(snapshot)),
                    Err(e) => (Err(e), Ghost(snapshot)),
                }
            },
            Err(e) => {
                proof {
                    let be = choose|be: I2C::BusError|
                        e == Error::<I2C::BusError>::I2cError(be) && snapshot.history() == i2c
                            .history().push(failed_read_tx(ID_ADDR, be));
                    assert(snapshot.history() == i2c.history().push(
                        read_attempt_tx(ID_ADDR, Err::<u8, I2C::BusError>(be)),
                    ));
                }
                (Err(e), Ghost(snapshot))
            },
        }
    }

    /// Verify that the expected chip is present and build the driver.
    ///
    /// Exactly one write-then-read of the identity register is attempted,
    /// and the byte it returns is judged by `check_id`: on success the chip
    /// reported `CHIP_ID`, an `IdMismatch` carries the differing byte the
    /// chip reported instead, and a bus failure on the read comes back as
    /// `I2cError`.  On failure the transport is consumed with the rejected
    /// driver, so this contract cannot name its final history;
    /// `new_traced` returns that history as a ghost snapshot and is the
    /// contract to hold construction to.
    pub fn new(i2c: I2C) -> (r: Result<Driver<I2C>, Error<I2C::BusError>>)
        ensures
            (r matches Ok(d) ==> d.transactions() == i2c.history().push(
                reg_read_tx(ID_ADDR, CHIP_ID),
            ) && d.bus_config() == i2c.config() && (i2c.inv() ==> d.bus_inv())),
            (r matches Err(e) ==> match e {
                Error::I2cError(_) => true,
                Error::IdMismatch(b) => b != CHIP_ID,
                Error::PollLimitReached => false,
            }),
            exists|read: Result<u8, I2C::BusError>| #[trigger] construction_outcome::<I2C>(
                i2c.history(),
                read,
                r,
            ),
    {
        let (r, _) = Self::new_traced(i2c);
        r
    }

    /// Trigger an onboard recalibration and wait for it to finish.
    ///
    /// One write of `[CALIBRATE_ADDR, 0xFF]` is issued, then the status
    /// register is read over and over until the calibrating flag clears:
    /// every poll but the last reads the flag set, the last reads it clear.
    /// The poll has no timeout and no backoff; it ends only when the flag
    /// clears, when the bus fails, or — so that the loop provably terminates
    /// — after `CALIBRATE_POLL_LIMIT` reads, a cap no real execution can
    /// reach.  A bus failure aborts at once with the transport's error
    /// unchanged and nothing retried: the history ends at the one failed
    /// attempt, either the trigger write itself, or one status read after
    /// polls that all showed the flag still set.
    pub fn calibrate(&mut self) -> (r: Result<(), Error<I2C::BusError>>)
        ensures
            (r is Ok ==> exists|bytes: Seq<u8>|
                (poll_complete(bytes) && final(self).transactions() == old(
                    self).transactions().push(calibrate_tx()) + status_reads(bytes))),
            (r matches Err(e) ==> match e {
                Error::I2cError(be) => final(self).transactions() == old(
                    self).transactions().push(failed_calibrate_tx(be)) || (exists|bytes: Seq<u8>|
                    (poll_pending(bytes) && final(self).transactions() == (old(
                        self).transactions().push(calibrate_tx()) + status_reads(bytes)).push(
                        failed_read_tx(STATUS_ADDR, be)))),
                Error::IdMismatch(_) => false,
                Error::PollLimitReached => exists|bytes: Seq<u8>|
                    (poll_pending(bytes) && bytes.len() == CALIBRATE_POLL_LIMIT && final(
                        self).transactions() == old(self).transactions().push(calibrate_tx())
                        + status_reads(bytes)),
            }),
            final(self).bus_config() == old(self).bus_config(),
            old(self).bus_inv() ==> final(self).bus_inv(),
    {
        let data: [u8; 2] = [CALIBRATE_ADDR, 0xFF];
        proof {
            assert(data@ =~= seq![CALIBRATE_ADDR, 0xFF]);
        }
        match self.i2c.write(DEVICE_ADDR, &data) {
            Ok(()) => (),
            Err(e) => {
                return Err(Error::I2cError(e));
            },
        }
        let ghost base: Seq<Transaction<I2C::BusError>> = old(self).transactions().push(
            calibrate_tx(),
        );
        let ghost mut bytes: Seq<u8> = Seq::empty();
        proof {
            assert(self.transactions() =~= base + status_reads(bytes));
        }
        let mut polls_left: u64 = CALIBRATE_POLL_LIMIT;
        while polls_left > 0
            invariant
                poll_pending(bytes),
                self.transactions() == base + status_reads(bytes),
                base == old(self).transactions().push(calibrate_tx()),
                bytes.len() + polls_left == CALIBRATE_POLL_LIMIT,
                self.bus_config() == old(self).bus_config(),
                old(self).bus_inv() ==> self.bus_inv(),
            decreases polls_left,
        {
            polls_left = polls_left - 1;
            let status = match self.get_status() {
                Ok(s) => s,
                Err(e) => {
                    return Err(e);
                },
            };
            proof {
                assert(status_reads::<I2C::BusError>(bytes.push(status.0)) =~= status_reads::<
                    I2C::BusError,
                >(bytes).push(reg_read_tx(STATUS_ADDR, status.0)));
                bytes = bytes.push(status.0);
            }
            if !status.calibrate() {
                proof {
                    assert(poll_complete(bytes));
                }
                return Ok(());
            }
        }
        Err(Error::PollLimitReached)
    }

    /// Read the overall status register: exactly one write-then-read attempt
    /// is made, whose response byte is returned decoded; a bus failure comes
    /// back unchanged as `I2cError`, with the failed attempt as the one
    /// addition to the history.
    pub fn get_status(&mut self) -> (r: Result<Status, Error<I2C::BusError>>)
        ensures
            (r matches Ok(s) ==> final(self).transactions() == old(self).transactions().push(
                reg_read_tx(STATUS_ADDR, s.0),
            )),
            (r matches Err(e) ==> (e matches Error::I2cError(be) && final(self).transactions()
                == old(self).transactions().push(failed_read_tx(STATUS_ADDR, be)))),
            final(self).bus_config() == old(self).bus_config(),
            old(self).bus_inv() ==> final(self).bus_inv(),
    {
        let data: [u8; 1] = [STATUS_ADDR];
        proof {
            assert(data@ =~= seq![STATUS_ADDR]);
        }
        match self.i2c.write_read(DEVICE_ADDR, &data) {
            Ok(b) => Ok(Status(b)),
            Err(e) => Err(Error::I2cError(e)),
        }
    }

    /// Read the key-status register: exactly one write-then-read attempt is
    /// made, whose response byte is returned decoded; a bus failure comes
    /// back unchanged as `I2cError`, with the failed attempt as the one
    /// addition to the history.
    pub fn get_key_status(&mut self) -> (r: Result<KeyStatus, Error<I2C::BusError>>)
        ensures
            (r matches Ok(s) ==> final(self).transactions() == old(self).transactions().push(
                reg_read_tx(KEY_STATUS_ADDR, s.0),
            )),
            (r matches Err(e) ==> (e matches Error::I2cError(be) && final(self).transactions()
                == old(self).transactions().push(failed_read_tx(KEY_STATUS_ADDR, be)))),
            final(self).bus_config() == old(self).bus_config(),
            old(self).bus_inv() ==> final(self).bus_inv(),
    {
        let data: [u8; 1] = [KEY_STATUS_ADDR];
        proof {
            assert(data@ =~= seq![KEY_STATUS_ADDR]);
        }
        match self.i2c.write_read(DEVICE_ADDR, &data) {
            Ok(b) => Ok(KeyStatus(b)),
            Err(e) => Err(Error::I2cError(e)),
        }
    }

    /// Borrow the transport, for callers that want to inspect it.
    pub fn bus(&self) -> (b: &I2C)
        ensures
            b.history() == self.transactions(),
            b.config() == self.bus_config(),
            b.inv() == self.bus_inv(),
    {
        &self.i2c
    }

    /// Read the identity register: exactly one write-then-read attempt is
    /// made, whose response byte is returned raw; a bus failure comes back
    /// unchanged as `I2cError`, with the failed attempt as the one addition
    /// to the history.
    fn get_id(&mut self) -> (r: Result<u8, Error<I2C::BusError>>)
        ensures
            (r matches Ok(b) ==> final(self).transactions() == old(self).transactions().push(
                reg_read_tx(ID_ADDR, b),
            )),
            (r matches Err(e) ==> (e matches Error::I2cError(be) && final(self).transactions()
                == old(self).transactions().push(failed_read_tx(ID_ADDR, be)))),
            final(self).bus_config() == old(self).bus_config(),
            old(self).bus_inv() ==> final(self).bus_inv(),
    {
        let data: [u8; 1] = [ID_ADDR];
        proof {
            assert(data@ =~= seq![ID_ADDR]);
        }
        match self.i2c.write_read(DEVICE_ADDR, &data) {
            Ok(b) => Ok(b),
            Err(e) => Err(Error::I2cError(e)),
        }
    }
}

} // verus!
