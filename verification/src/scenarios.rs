//! Verified end-to-end runs of the driver against the scripted transport.
//!
//! Each function here builds a `MockBus` with a fixed script, drives the
//! `Driver` through it, and proves the outcome from the contracts alone:
//! the generic driver contracts pin the attempts and their recorded
//! outcomes, and the mock's script-consistency invariant ties each recorded
//! outcome back to the scripted reply it consumed.  The functions return
//! the values they prove facts about, so tests can run them and check the
//! same outcomes at runtime.

use vstd::prelude::*;

use crate::bus::I2cBus;
use crate::bus::Transaction;
use crate::driver::construction_outcome;
use crate::driver::read_attempt_tx;
use crate::driver::reg_read_tx;
use crate::driver::Driver;
use crate::driver::Error;
use crate::driver::CHIP_ID;
use crate::driver::ID_ADDR;
use crate::driver::calibrate_tx;
use crate::driver::failed_calibrate_tx;
use crate::driver::failed_read_tx;
use crate::driver::poll_complete;
use crate::driver::poll_pending;
use crate::driver::status_reads;
use crate::driver::CALIBRATE_ADDR;
use crate::driver::CALIBRATE_POLL_LIMIT;
use crate::driver::DEVICE_ADDR;
use crate::driver::KEY_STATUS_ADDR;
use crate::driver::STATUS_ADDR;
use crate::mock::lemma_scripted_read;
use crate::mock::lemma_scripted_read_fail;
use crate::mock::lemma_scripted_read_in_script;
use crate::mock::lemma_scripted_write;
use crate::mock::MockBus;
use crate::mock::MockError;
use crate::mock::MockReply;
use crate::status::bit;
use crate::status::KeyStatus;
use crate::status::Status;

verus! {

/// A transport scripted to answer the one identity read, with byte `id`.
fn identity_script(id: u8) -> (bus: MockBus)
    ensures
        bus.history() == Seq::<Transaction<MockError>>::empty(),
        bus.config() == seq![MockReply::ReadOk(id)],
        bus.replies@ == seq![MockReply::ReadOk(id)],
        bus.inv(),
{
    let mut replies: Vec<MockReply> = Vec::new();
    replies.push(MockReply::ReadOk(id));
    proof {
        assert(replies@ =~= seq![MockReply::ReadOk(id)]);
    }
    MockBus::new(replies)
}

/// What construction returns once the script's first reply is known to
/// answer the identity read with `id`: the verdict of the identity check
/// on `id`.
proof fn lemma_construction_on_byte(
    bus: MockBus,
    g: MockBus,
    r: Result<Driver<MockBus>, Error<MockError>>,
    id: u8,
)
    requires
        bus.history() == Seq::<Transaction<MockError>>::empty(),
        bus.replies@.len() >= 1,
        bus.replies@[0] == MockReply::ReadOk(id),
        g.config() == bus.config(),
        g.inv(),
        exists|read: Result<u8, MockError>|
            {
                &&& g.history() == bus.history().push(#[trigger] read_attempt_tx(ID_ADDR, read))
                &&& construction_outcome::<MockBus>(bus.history(), read, r)
            },
    ensures
        construction_outcome::<MockBus>(bus.history(), Ok(id), r),
{
    let read = choose|read: Result<u8, MockError>|
        {
            &&& g.history() == bus.history().push(#[trigger] read_attempt_tx(ID_ADDR, read))
            &&& construction_outcome::<MockBus>(bus.history(), read, r)
        };
    assert(g.history().len() == 1);
    assert(g.history()[0] == read_attempt_tx::<MockError>(ID_ADDR, read));
    assert(g.replies@ == bus.replies@);
    lemma_scripted_read(g, 0, DEVICE_ADDR, seq![ID_ADDR], read, id);
}

/// Against a transport scripted to answer the identity read with `CHIP_ID`,
/// construction succeeds, and its one transaction is that read.
pub fn construct_on_expected_identity() -> (r: Result<Driver<MockBus>, Error<MockError>>)
    ensures
        r matches Ok(d) && d.transactions() == seq![
            reg_read_tx::<MockError>(ID_ADDR, CHIP_ID),
        ],
{
    let bus = identity_script(CHIP_ID);
    let ghost bus0 = bus;
    let (r, g) = Driver::new_traced(bus);
    proof {
        lemma_construction_on_byte(bus0, g@, r, CHIP_ID);
        assert(bus0.history().push(reg_read_tx(ID_ADDR, CHIP_ID)) =~= seq![
            reg_read_tx::<MockError>(ID_ADDR, CHIP_ID),
        ]);
    }
    r
}

/// Against a transport scripted to answer the identity read with a byte
/// other than `CHIP_ID`, construction fails with `IdMismatch` carrying
/// exactly that byte.
pub fn construct_on_wrong_identity(id: u8) -> (r: Result<Driver<MockBus>, Error<MockError>>)
    requires
        id != CHIP_ID,
    ensures
        r == Err::<Driver<MockBus>, Error<MockError>>(Error::IdMismatch(id)),
{
    let bus = identity_script(id);
    let ghost bus0 = bus;
    let (r, g) = Driver::new_traced(bus);
    proof {
        lemma_construction_on_byte(bus0, g@, r, id);
    }
    r
}

/// Against a transport scripted to fail the identity read with `code`,
/// construction returns exactly that bus error, unchanged.
pub fn construct_on_bus_failure(code: u8) -> (r: Result<Driver<MockBus>, Error<MockError>>)
    ensures
        r == Err::<Driver<MockBus>, Error<MockError>>(Error::I2cError(MockError(code))),
{
    let mut replies: Vec<MockReply> = Vec::new();
    replies.push(MockReply::Fail(code));
    proof {
        assert(replies@ =~= seq![MockReply::Fail(code)]);
    }
    let bus = MockBus::new(replies);
    let ghost bus0 = bus;
    let (r, g) = Driver::new_traced(bus);
    proof {
        let read = choose|read: Result<u8, MockError>|
            {
                &&& g@.history() == bus0.history().push(#[trigger] read_attempt_tx(ID_ADDR, read))
                &&& construction_outcome::<MockBus>(bus0.history(), read, r)
            };
        assert(g@.history().len() == 1);
        assert(g@.history()[0] == read_attempt_tx::<MockError>(ID_ADDR, read));
        assert(g@.replies@ == bus0.replies@);
        lemma_scripted_read_fail(g@, 0, DEVICE_ADDR, seq![ID_ADDR], read, code);
    }
    r
}

/// The full read-out scenario: the chip reports identity `CHIP_ID`, a
/// status byte of 0x00, and a key-status byte of 0b0000101.  Construction
/// succeeds, the status byte decodes with every flag clear, and the
/// key-status byte decodes with exactly keys 0 and 2 touched.
pub fn construct_then_read_both_registers() -> (r: (Status, KeyStatus))
    ensures
        r.0.0 == 0x00,
        r.1.0 == 0b101,
        !bit(r.0.0, 7) && !bit(r.0.0, 6) && !bit(r.0.0, 0),
        bit(r.1.0, 0) && !bit(r.1.0, 1) && bit(r.1.0, 2) && !bit(r.1.0, 3) && !bit(r.1.0, 4)
            && !bit(r.1.0, 5) && !bit(r.1.0, 6),
{
    let mut replies: Vec<MockReply> = Vec::new();
    replies.push(MockReply::ReadOk(CHIP_ID));
    replies.push(MockReply::ReadOk(0x00));
    replies.push(MockReply::ReadOk(0b101));
    proof {
        assert(replies@ =~= seq![
            MockReply::ReadOk(CHIP_ID),
            MockReply::ReadOk(0x00),
            MockReply::ReadOk(0b101),
        ]);
    }
    let bus = MockBus::new(replies);
    let ghost bus0 = bus;
    let (cr, g) = Driver::new_traced(bus);
    proof {
        lemma_construction_on_byte(bus0, g@, cr, CHIP_ID);
    }
    let mut driver = match cr {
        Ok(d) => d,
        Err(_) => {
            return vstd::pervasive::unreached();
        },
    };

    let sr = driver.get_status();
    let status = match sr {
        Ok(s) => s,
        Err(e) => {
            let bref = driver.bus();
            proof {
                let be = choose|be: MockError|
                    e == Error::<MockError>::I2cError(be) && driver.transactions() == bus0.history(
                    ).push(reg_read_tx(ID_ADDR, CHIP_ID)).push(
                        #[trigger] failed_read_tx(STATUS_ADDR, be),
                    );
                lemma_scripted_read_fail(*bref, 1, DEVICE_ADDR, seq![STATUS_ADDR], Err(be), 0);
            }
            return vstd::pervasive::unreached();
        },
    };
    let bref = driver.bus();
    proof {
        lemma_scripted_read(*bref, 1, DEVICE_ADDR, seq![STATUS_ADDR], Ok(status.0), 0x00);
    }

    let kr = driver.get_key_status();
    let keys = match kr {
        Ok(k) => k,
        Err(e) => {
            let bref = driver.bus();
            proof {
                let be = choose|be: MockError|
                    e == Error::<MockError>::I2cError(be) && driver.transactions() == bus0.history(
                    ).push(reg_read_tx(ID_ADDR, CHIP_ID)).push(reg_read_tx(STATUS_ADDR, 0x00)).push(
                        #[trigger] failed_read_tx(KEY_STATUS_ADDR, be),
                    );
                lemma_scripted_read_fail(*bref, 2, DEVICE_ADDR, seq![KEY_STATUS_ADDR], Err(be), 0b101);
            }
            return vstd::pervasive::unreached();
        },
    };
    let kref = driver.bus();
    proof {
        lemma_scripted_read(*kref, 2, DEVICE_ADDR, seq![KEY_STATUS_ADDR], Ok(keys.0), 0b101);
        assert(!bit(0x00, 7) && !bit(0x00, 6) && !bit(0x00, 0)) by (bit_vector);
        assert(bit(0x05, 0) && !bit(0x05, 1) && bit(0x05, 2) && !bit(0x05, 3) && !bit(0x05, 4)
            && !bit(0x05, 5) && !bit(0x05, 6)) by (bit_vector);
    }
    (status, keys)
}

/// What a mock scripted `[.., .., ReadOk(0x80), ReadOk(0x00)]` allows of a
/// run of successful status reads recorded from its third attempt on: at
/// most the two scripted ones, returning exactly the scripted bytes.
proof fn lemma_poll_reads(b: MockBus, bytes: Seq<u8>)
    requires
        b.inv(),
        b.replies@.len() == 4,
        b.replies@[2] == MockReply::ReadOk(0x80),
        b.replies@[3] == MockReply::ReadOk(0x00),
        2 + bytes.len() <= b.history().len(),
        forall|i: int|
            0 <= i < bytes.len() ==> b.history()[2 + i] == reg_read_tx::<MockError>(
                STATUS_ADDR,
                #[trigger] bytes[i],
            ),
    ensures
        bytes.len() <= 2,
        bytes.len() >= 1 ==> bytes[0] == 0x80,
        bytes.len() == 2 ==> bytes[1] == 0x00,
{
    if bytes.len() > 2 {
        lemma_scripted_read_in_script(b, 4, DEVICE_ADDR, seq![STATUS_ADDR], bytes[2]);
    }
    if bytes.len() >= 1 {
        lemma_scripted_read(b, 2, DEVICE_ADDR, seq![STATUS_ADDR], Ok(bytes[0]), 0x80);
    }
    if bytes.len() == 2 {
        lemma_scripted_read(b, 3, DEVICE_ADDR, seq![STATUS_ADDR], Ok(bytes[1]), 0x00);
    }
}

/// The calibration scenario: the chip reports its identity, accepts the
/// trigger write, shows the calibrating flag still set on the first poll,
/// and clear on the second.  Calibration succeeds after exactly those two
/// polls, with no transaction after the read that showed the flag clear.
pub fn calibrate_completes_after_pending_poll() -> (r: (
    Driver<MockBus>,
    Result<(), Error<MockError>>,
))
    ensures
        r.1 is Ok,
        r.0.transactions() == seq![
            reg_read_tx::<MockError>(ID_ADDR, CHIP_ID),
            calibrate_tx::<MockError>(),
            reg_read_tx::<MockError>(STATUS_ADDR, 0x80),
            reg_read_tx::<MockError>(STATUS_ADDR, 0x00),
        ],
{
    let mut replies: Vec<MockReply> = Vec::new();
    replies.push(MockReply::ReadOk(CHIP_ID));
    replies.push(MockReply::WriteOk);
    replies.push(MockReply::ReadOk(0x80));
    replies.push(MockReply::ReadOk(0x00));
    proof {
        assert(replies@ =~= seq![
            MockReply::ReadOk(CHIP_ID),
            MockReply::WriteOk,
            MockReply::ReadOk(0x80),
            MockReply::ReadOk(0x00),
        ]);
    }
    let bus = MockBus::new(replies);
    let ghost bus0 = bus;
    let (cr, g) = Driver::new_traced(bus);
    proof {
        lemma_construction_on_byte(bus0, g@, cr, CHIP_ID);
    }
    let mut driver = match cr {
        Ok(d) => d,
        Err(_) => {
            return vstd::pervasive::unreached();
        },
    };
    let ghost pre = driver.transactions();
    let r = driver.calibrate();
    let bref = driver.bus();
    proof {
        let b = *bref;
        let base = pre.push(calibrate_tx::<MockError>());
        assert(pre.len() == 1);
        assert(b.replies@ == bus0.replies@);
        if r is Ok {
            let bytes = choose|bytes: Seq<u8>|
                poll_complete(bytes) && driver.transactions() == pre.push(calibrate_tx())
                    + status_reads(bytes);
            assert forall|i: int| 0 <= i < bytes.len() implies b.history()[2 + i]
                == reg_read_tx::<MockError>(STATUS_ADDR, #[trigger] bytes[i]) by {
                assert(status_reads::<MockError>(bytes)[i] == reg_read_tx::<MockError>(
                    STATUS_ADDR,
                    bytes[i],
                ));
            }
            lemma_poll_reads(b, bytes);
            if bytes.len() == 1 {
                assert(bit(bytes[0], 7) == bit(0x80u8, 7));
                assert(bit(0x80u8, 7)) by (bit_vector);
            }
            assert(bytes.len() == 2);
            assert(bytes =~= seq![0x80u8, 0x00u8]);
            assert(driver.transactions() =~= seq![
                reg_read_tx::<MockError>(ID_ADDR, CHIP_ID),
                calibrate_tx::<MockError>(),
                reg_read_tx::<MockError>(STATUS_ADDR, 0x80),
                reg_read_tx::<MockError>(STATUS_ADDR, 0x00),
            ]);
        } else {
            let e = r->Err_0;
            if e is I2cError {
                let be = e->I2cError_0;
                if driver.transactions() == pre.push(failed_calibrate_tx(be)) {
                    // A failed trigger write, where the script supplies
                    // `WriteOk`: impossible.
                    lemma_scripted_write(
                        b,
                        1,
                        DEVICE_ADDR,
                        seq![CALIBRATE_ADDR, 0xFF],
                        Err(be),
                    );
                } else {
                    let bytes = choose|bytes: Seq<u8>|
                        poll_pending(bytes) && driver.transactions() == (pre.push(calibrate_tx())
                            + status_reads(bytes)).push(failed_read_tx(STATUS_ADDR, be));
                    assert forall|i: int| 0 <= i < bytes.len() implies b.history()[2 + i]
                        == reg_read_tx::<MockError>(STATUS_ADDR, #[trigger] bytes[i]) by {
                        assert(status_reads::<MockError>(bytes)[i] == reg_read_tx::<MockError>(
                            STATUS_ADDR,
                            bytes[i],
                        ));
                        assert((base + status_reads::<MockError>(bytes))[2 + i]
                            == status_reads::<MockError>(bytes)[i]);
                    }
                    lemma_poll_reads(b, bytes);
                    if bytes.len() == 0 {
                        // The first poll failed, where the script supplies
                        // `ReadOk(0x80)`: impossible.
                        lemma_scripted_read(b, 2, DEVICE_ADDR, seq![STATUS_ADDR], Err(be), 0x80);
                    } else if bytes.len() == 1 {
                        // The second poll failed, where the script supplies
                        // `ReadOk(0x00)`: impossible.
                        lemma_scripted_read(b, 3, DEVICE_ADDR, seq![STATUS_ADDR], Err(be), 0x00);
                    } else {
                        // Two successful polls, yet still pending: the
                        // second scripted byte has the flag clear.
                        assert(bit(bytes[1], 7) == bit(0x00u8, 7));
                        assert(!bit(0x00u8, 7)) by (bit_vector);
                    }
                }
            } else {
                // Only the poll-limit error is left, and it would take more
                // successful polls than the script can supply.
                let bytes = choose|bytes: Seq<u8>|
                    poll_pending(bytes) && bytes.len() == CALIBRATE_POLL_LIMIT && driver
                        .transactions() == pre.push(calibrate_tx()) + status_reads(bytes);
                assert forall|i: int| 0 <= i < bytes.len() implies b.history()[2 + i]
                    == reg_read_tx::<MockError>(STATUS_ADDR, #[trigger] bytes[i]) by {
                    assert(status_reads::<MockError>(bytes)[i] == reg_read_tx::<MockError>(
                        STATUS_ADDR,
                        bytes[i],
                    ));
                }
                lemma_poll_reads(b, bytes);
            }
            assert(false);
        }
    }
    (driver, r)
}

} // verus!
