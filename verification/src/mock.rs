//! A scripted bus transport for testing the driver without hardware.
//!
//! A `MockBus` is loaded with a script of replies and hands them out one per
//! transaction, recording every attempt — successful or failed — together
//! with its outcome.  Its contracts pin the result, the script position and
//! the recorded history of every call, so a scripted sequence can be
//! followed by a verified caller, and verifying this module also checks that
//! at least one concrete transport can honour the `I2cBus` contract.

use vstd::prelude::*;

use crate::bus::I2cBus;
use crate::bus::Transaction;

verus! {

/// The reply code `MockBus` uses when its script has run out, or when the
/// next scripted reply does not fit the transaction kind that was issued.
pub const SCRIPT_ERROR: u8 = 0xEE;

/// One scripted outcome for the next bus transaction.
#[derive(Clone, Copy, Debug, PartialEq, Eq, Structural)]
pub enum MockReply {
    /// The next transaction must be a plain write; it succeeds.
    WriteOk,
    /// The next transaction must be a write-then-read; it succeeds and the
    /// read returns this byte.
    ReadOk(u8),
    /// The next transaction fails with `MockError` of this code.
    Fail(u8),
}

/// The mock transport's bus error: the code of the `Fail` reply that caused
/// it, or `SCRIPT_ERROR` for a transaction the script did not provide for.
#[derive(Clone, Copy, Debug, PartialEq, Eq, Structural)]
pub struct MockError(pub u8);

/// How one recorded transaction attempt ended.
#[derive(Clone, Copy, Debug, PartialEq, Eq, Structural)]
pub enum MockOutcome {
    /// A plain write that succeeded.
    WriteOk,
    /// A plain write that failed with this error code.
    WriteErr(u8),
    /// A write-then-read that returned this byte.
    ReadOk(u8),
    /// A write-then-read that failed with this error code.
    ReadErr(u8),
}

/// One attempted transaction, recorded for inspection: the bus address, the
/// bytes written, and how the attempt ended.
#[derive(Debug)]
pub struct MockCall {
    pub addr: u8,
    pub data: Vec<u8>,
    pub outcome: MockOutcome,
}

impl MockCall {
    /// The transaction this record stands for.
    pub open spec fn tx(self) -> Transaction<MockError> {
        match self.outcome {
            MockOutcome::WriteOk => Transaction::Write {
                addr: self.addr,
                data: self.data@,
                result: Ok(()),
            },
            MockOutcome::WriteErr(c) => Transaction::Write {
                addr: self.addr,
                data: self.data@,
                result: Err(MockError(c)),
            },
            MockOutcome::ReadOk(b) => Transaction::WriteRead {
                addr: self.addr,
                data: self.data@,
                result: Ok(b),
            },
            MockOutcome::ReadErr(c) => Transaction::WriteRead {
                addr: self.addr,
                data: self.data@,
                result: Err(MockError(c)),
            },
        }
    }
}

/// Whether a recorded outcome is one the given scripted reply can produce:
/// the reply's own success or failure for the matching transaction kind, or
/// the script error for a mismatched kind.  `None` stands for a call beyond
/// the end of the script, which only ever produces the script error.
pub open spec fn outcome_fits(outcome: MockOutcome, reply: Option<MockReply>) -> bool {
    match reply {
        Some(MockReply::WriteOk) => outcome == MockOutcome::WriteOk || outcome
            == MockOutcome::ReadErr(SCRIPT_ERROR),
        Some(MockReply::ReadOk(b)) => outcome == MockOutcome::ReadOk(b) || outcome
            == MockOutcome::WriteErr(SCRIPT_ERROR),
        Some(MockReply::Fail(c)) => outcome == MockOutcome::WriteErr(c) || outcome
            == MockOutcome::ReadErr(c),
        None => outcome == MockOutcome::WriteErr(SCRIPT_ERROR) || outcome
            == MockOutcome::ReadErr(SCRIPT_ERROR),
    }
}

/// Appending a record appends its transaction to the mapped history.
proof fn lemma_history_push(calls: Seq<MockCall>, call: MockCall)
    ensures
        calls.push(call).map_values(|c: MockCall| c.tx()) == calls.map_values(
            |c: MockCall| c.tx(),
        ).push(call.tx()),
{
    assert(calls.push(call).map_values(|c: MockCall| c.tx()) =~= calls.map_values(
        |c: MockCall| c.tx(),
    ).push(call.tx()));
}

/// From a script-consistent mock whose `i`-th recorded attempt is a
/// write-then-read while the `i`-th scripted reply is `ReadOk(b)`, that
/// attempt returned exactly `b`.
pub proof fn lemma_scripted_read(bus: MockBus, i: int, a: u8, d: Seq<u8>, read: Result<
    u8,
    MockError,
>, b: u8)
    requires
        bus.inv(),
        0 <= i < bus.history().len(),
        bus.history()[i] == (Transaction::WriteRead { addr: a, data: d, result: read }),
        i < bus.replies@.len(),
        bus.replies@[i] == MockReply::ReadOk(b),
    ensures
        read == Ok::<u8, MockError>(b),
{
    assert(bus.history()[i] == bus.calls@[i].tx());
    assert(outcome_fits(bus.calls@[i].outcome, Some(MockReply::ReadOk(b))));
}

/// From a script-consistent mock whose `i`-th recorded attempt is a
/// write-then-read while the `i`-th scripted reply is `Fail(c)`, that
/// attempt failed with exactly `MockError(c)`.
pub proof fn lemma_scripted_read_fail(bus: MockBus, i: int, a: u8, d: Seq<u8>, read: Result<
    u8,
    MockError,
>, c: u8)
    requires
        bus.inv(),
        0 <= i < bus.history().len(),
        bus.history()[i] == (Transaction::WriteRead { addr: a, data: d, result: read }),
        i < bus.replies@.len(),
        bus.replies@[i] == MockReply::Fail(c),
    ensures
        read == Err::<u8, MockError>(MockError(c)),
{
    assert(bus.history()[i] == bus.calls@[i].tx());
    assert(outcome_fits(bus.calls@[i].outcome, Some(MockReply::Fail(c))));
}

/// From a script-consistent mock whose `i`-th recorded attempt is a plain
/// write while the `i`-th scripted reply is `WriteOk`, that attempt
/// succeeded.
pub proof fn lemma_scripted_write(bus: MockBus, i: int, a: u8, d: Seq<u8>, w: Result<
    (),
    MockError,
>)
    requires
        bus.inv(),
        0 <= i < bus.history().len(),
        bus.history()[i] == (Transaction::Write { addr: a, data: d, result: w }),
        i < bus.replies@.len(),
        bus.replies@[i] == MockReply::WriteOk,
    ensures
        w == Ok::<(), MockError>(()),
{
    assert(bus.history()[i] == bus.calls@[i].tx());
    assert(outcome_fits(bus.calls@[i].outcome, Some(MockReply::WriteOk)));
}

/// A script-consistent mock records successful write-then-read attempts
/// only while its script lasts: beyond the script, every attempt fails.
pub proof fn lemma_scripted_read_in_script(bus: MockBus, i: int, a: u8, d: Seq<u8>, b: u8)
    requires
        bus.inv(),
        0 <= i < bus.history().len(),
        bus.history()[i] == (Transaction::WriteRead { addr: a, data: d, result: Ok::<
            u8,
            MockError,
        >(b) }),
    ensures
        i < bus.replies@.len(),
{
    if i >= bus.replies@.len() {
        assert(bus.history()[i] == bus.calls@[i].tx());
        assert(outcome_fits(bus.calls@[i].outcome, None::<MockReply>));
    }
}

/// A transport that follows a fixed script of replies.
pub struct MockBus {
    /// The scripted replies, consumed front to back.
    pub replies: Vec<MockReply>,
    /// How many replies have been consumed.
    pub pos: usize,
    /// Every transaction attempt, oldest first.
    pub calls: Vec<MockCall>,
}

impl MockBus {
    /// The scripted reply the next transaction will consume, if any is left.
    pub open spec fn next_reply(self) -> Option<MockReply> {
        if self.pos < self.replies@.len() {
            Some(self.replies@[self.pos as int])
        } else {
            None
        }
    }

    /// The lasting tie between script and record: one reply consumed per
    /// recorded call for as long as the script lasted, and every recorded
    /// outcome one that its reply can produce.  This is the transport's
    /// `inv`, so it survives any sequence of driver calls.
    pub open spec fn script_consistent(self) -> bool {
        &&& self.pos == if self.calls@.len() <= self.replies@.len() {
            self.calls@.len() as int
        } else {
            self.replies@.len() as int
        }
        &&& forall|i: int|
            0 <= i < self.calls@.len() ==> outcome_fits(
                (#[trigger] self.calls@[i]).outcome,
                if i < self.replies@.len() {
                    Some(self.replies@[i])
                } else {
                    None
                },
            )
    }

    /// A fresh transport that will follow the given script.
    pub fn new(replies: Vec<MockReply>) -> (bus: MockBus)
        ensures
            bus.replies == replies,
            bus.pos == 0,
            bus.calls@ =~= Seq::<MockCall>::empty(),
            bus.history() =~= Seq::<Transaction<MockError>>::empty(),
            bus.config() == replies@,
            bus.inv(),
    {
        MockBus { replies, pos: 0, calls: Vec::new() }
    }

    /// Whether the whole script has been consumed.
    pub fn script_done(&self) -> (r: bool)
        ensures
            r == (self.next_reply() is None),
    {
        self.pos >= self.replies.len()
    }

    /// Consume the next scripted reply, if any is left.
    fn take_reply(&mut self) -> (r: Option<MockReply>)
        ensures
            r == old(self).next_reply(),
            final(self).replies == old(self).replies,
            final(self).calls == old(self).calls,
            final(self).pos == if old(self).next_reply() is Some {
                old(self).pos + 1
            } else {
                old(self).pos as int
            },
    {
        if self.pos < self.replies.len() {
            let reply = self.replies[self.pos];
            self.pos = self.pos + 1;
            Some(reply)
        } else {
            None
        }
    }

}

impl I2cBus for MockBus {
    type BusError = MockError;

    type Config = Seq<MockReply>;

    /// The transactions recorded in `calls`, as ghost history.
    open spec fn history(self) -> Seq<Transaction<MockError>> {
        self.calls@.map_values(|c: MockCall| c.tx())
    }

    /// The script is the mock's configuration: no transaction changes it.
    open spec fn config(self) -> Seq<MockReply> {
        self.replies@
    }

    /// The mock's invariant is the script-consistency of its record.
    open spec fn inv(self) -> bool {
        self.script_consistent()
    }

    /// Succeeds exactly when the next scripted reply is `WriteOk`; every
    /// other script state fails with its code, and the attempt is recorded
    /// either way.
    fn write(&mut self, addr: u8, data: &[u8]) -> (r: Result<(), MockError>)
        ensures
            final(self).replies == old(self).replies,
            final(self).pos == if old(self).next_reply() is Some {
                old(self).pos + 1
            } else {
                old(self).pos as int
            },
            match old(self).next_reply() {
                Some(MockReply::WriteOk) => r is Ok,
                Some(MockReply::ReadOk(_)) => r == Err::<(), MockError>(MockError(SCRIPT_ERROR)),
                Some(MockReply::Fail(c)) => r == Err::<(), MockError>(MockError(c)),
                None => r == Err::<(), MockError>(MockError(SCRIPT_ERROR)),
            },
    {
        let (outcome, result) = match self.take_reply() {
            Some(MockReply::WriteOk) => (MockOutcome::WriteOk, Ok(())),
            Some(MockReply::Fail(c)) => (MockOutcome::WriteErr(c), Err(MockError(c))),
            Some(MockReply::ReadOk(_)) => (
                MockOutcome::WriteErr(SCRIPT_ERROR),
                Err(MockError(SCRIPT_ERROR)),
            ),
            None => (MockOutcome::WriteErr(SCRIPT_ERROR), Err(MockError(SCRIPT_ERROR))),
        };
        let call = MockCall { addr, data: vstd::slice::slice_to_vec(data), outcome };
        proof {
            lemma_history_push(self.calls@, call);
        }
        self.calls.push(call);
        result
    }

    /// Succeeds exactly when the next scripted reply is `ReadOk`, returning
    /// the scripted byte; every other script state fails with its code, and
    /// the attempt is recorded either way.
    fn write_read(&mut self, addr: u8, data: &[u8]) -> (r: Result<u8, MockError>)
        ensures
            final(self).replies == old(self).replies,
            final(self).pos == if old(self).next_reply() is Some {
                old(self).pos + 1
            } else {
                old(self).pos as int
            },
            match old(self).next_reply() {
                Some(MockReply::WriteOk) => r == Err::<u8, MockError>(MockError(SCRIPT_ERROR)),
                Some(MockReply::ReadOk(b)) => r == Ok::<u8, MockError>(b),
                Some(MockReply::Fail(c)) => r == Err::<u8, MockError>(MockError(c)),
                None => r == Err::<u8, MockError>(MockError(SCRIPT_ERROR)),
            },
    {
        let (outcome, result) = match self.take_reply() {
            Some(MockReply::ReadOk(b)) => (MockOutcome::ReadOk(b), Ok(b)),
            Some(MockReply::Fail(c)) => (MockOutcome::ReadErr(c), Err(MockError(c))),
            Some(MockReply::WriteOk) => (
                MockOutcome::ReadErr(SCRIPT_ERROR),
                Err(MockError(SCRIPT_ERROR)),
            ),
            None => (MockOutcome::ReadErr(SCRIPT_ERROR), Err(MockError(SCRIPT_ERROR))),
        };
        let call = MockCall { addr, data: vstd::slice::slice_to_vec(data), outcome };
        proof {
            lemma_history_push(self.calls@, call);
        }
        self.calls.push(call);
        result
    }
}

} // verus!
