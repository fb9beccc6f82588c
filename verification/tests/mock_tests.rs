//! Tests of the scripted mock transport itself.

use at42qt1070::mock::MockError;
use at42qt1070::mock::MockOutcome;
use at42qt1070::mock::SCRIPT_ERROR;
use at42qt1070::I2cBus;
use at42qt1070::MockBus;
use at42qt1070::MockReply;

#[test]
fn replies_are_consumed_in_order() {
    let mut bus = MockBus::new(vec![
        MockReply::WriteOk,
        MockReply::ReadOk(0x55),
        MockReply::Fail(2),
    ]);
    assert!(!bus.script_done());
    assert_eq!(bus.write(0x36, &[56, 0xFF]), Ok(()));
    assert_eq!(bus.write_read(0x36, &[2]), Ok(0x55));
    assert_eq!(bus.write_read(0x36, &[2]), Err(MockError(2)));
    assert!(bus.script_done());
    // Every attempt was recorded, the failed one with its error code.
    assert_eq!(bus.calls.len(), 3);
    assert_eq!(bus.calls[0].outcome, MockOutcome::WriteOk);
    assert_eq!(bus.calls[1].outcome, MockOutcome::ReadOk(0x55));
    assert_eq!(bus.calls[2].outcome, MockOutcome::ReadErr(2));
}

#[test]
fn mismatched_reply_kind_is_a_script_error() {
    let mut bus = MockBus::new(vec![MockReply::ReadOk(0x55), MockReply::WriteOk]);
    assert_eq!(bus.write(0x36, &[0]), Err(MockError(SCRIPT_ERROR)));
    assert_eq!(bus.write_read(0x36, &[0]), Err(MockError(SCRIPT_ERROR)));
    // Both failed attempts were still recorded.
    assert_eq!(bus.calls.len(), 2);
    assert_eq!(bus.calls[0].outcome, MockOutcome::WriteErr(SCRIPT_ERROR));
    assert_eq!(bus.calls[1].outcome, MockOutcome::ReadErr(SCRIPT_ERROR));
}

#[test]
fn exhausted_script_is_a_script_error() {
    let mut bus = MockBus::new(vec![]);
    assert!(bus.script_done());
    assert_eq!(bus.write(0x36, &[0]), Err(MockError(SCRIPT_ERROR)));
    assert_eq!(bus.write_read(0x36, &[0]), Err(MockError(SCRIPT_ERROR)));
    assert_eq!(bus.calls.len(), 2);
}
