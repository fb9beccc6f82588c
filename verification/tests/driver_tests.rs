//! End-to-end tests of the driver against the scripted mock transport.

use at42qt1070::driver::check_id;
use at42qt1070::mock::MockCall;
use at42qt1070::mock::MockError;
use at42qt1070::mock::MockOutcome;
use at42qt1070::Driver;
use at42qt1070::Error;
use at42qt1070::MockBus;
use at42qt1070::MockReply;

const DEVICE_ADDR: u8 = 0x1B << 1;

fn expect_call(call: &MockCall, addr: u8, data: &[u8], outcome: MockOutcome) {
    assert_eq!(call.addr, addr);
    assert_eq!(call.data.as_slice(), data);
    assert_eq!(call.outcome, outcome);
}

#[test]
fn check_id_accepts_the_expected_identity() {
    assert!(check_id::<MockError>(0x2E).is_ok());
}

#[test]
fn check_id_rejects_any_other_byte_with_it() {
    assert!(matches!(check_id::<MockError>(0x13), Err(Error::IdMismatch(0x13))));
    assert!(matches!(check_id::<MockError>(0x00), Err(Error::IdMismatch(0x00))));
    assert!(matches!(check_id::<MockError>(0xFF), Err(Error::IdMismatch(0xFF))));
}

#[test]
fn new_succeeds_on_expected_identity() {
    let bus = MockBus::new(vec![MockReply::ReadOk(0x2E)]);
    let driver = Driver::new(bus).unwrap();
    let calls = &driver.bus().calls;
    assert_eq!(calls.len(), 1);
    expect_call(&calls[0], DEVICE_ADDR, &[0], MockOutcome::ReadOk(0x2E));
}

#[test]
fn new_fails_on_identity_mismatch() {
    let bus = MockBus::new(vec![MockReply::ReadOk(0x13)]);
    let r = Driver::new(bus);
    assert!(matches!(r, Err(Error::IdMismatch(0x13))));
}

#[test]
fn new_returns_transport_error_unchanged() {
    let bus = MockBus::new(vec![MockReply::Fail(9)]);
    let r = Driver::new(bus);
    assert!(matches!(r, Err(Error::I2cError(MockError(9)))));
}

#[test]
fn get_status_issues_one_read_of_register_two() {
    let bus = MockBus::new(vec![MockReply::ReadOk(0x2E), MockReply::ReadOk(0x00)]);
    let mut driver = Driver::new(bus).unwrap();
    let status = driver.get_status().unwrap();
    assert_eq!(status.0, 0x00);
    let calls = &driver.bus().calls;
    assert_eq!(calls.len(), 2);
    expect_call(&calls[1], DEVICE_ADDR, &[2], MockOutcome::ReadOk(0x00));
}

#[test]
fn get_key_status_issues_one_read_of_register_three() {
    let bus = MockBus::new(vec![MockReply::ReadOk(0x2E), MockReply::ReadOk(0b101)]);
    let mut driver = Driver::new(bus).unwrap();
    let keys = driver.get_key_status().unwrap();
    assert_eq!(keys.0, 0b101);
    let calls = &driver.bus().calls;
    assert_eq!(calls.len(), 2);
    expect_call(&calls[1], DEVICE_ADDR, &[3], MockOutcome::ReadOk(0b101));
}

#[test]
fn get_status_returns_transport_error_unchanged() {
    let bus = MockBus::new(vec![MockReply::ReadOk(0x2E), MockReply::Fail(3)]);
    let mut driver = Driver::new(bus).unwrap();
    let r = driver.get_status();
    assert!(matches!(r, Err(Error::I2cError(MockError(3)))));
    // Exactly one attempt was made: the failed read, nothing retried.
    let calls = &driver.bus().calls;
    assert_eq!(calls.len(), 2);
    expect_call(&calls[1], DEVICE_ADDR, &[2], MockOutcome::ReadErr(3));
}

#[test]
fn get_key_status_returns_transport_error_unchanged() {
    let bus = MockBus::new(vec![MockReply::ReadOk(0x2E), MockReply::Fail(4)]);
    let mut driver = Driver::new(bus).unwrap();
    let r = driver.get_key_status();
    assert!(matches!(r, Err(Error::I2cError(MockError(4)))));
    let calls = &driver.bus().calls;
    assert_eq!(calls.len(), 2);
    expect_call(&calls[1], DEVICE_ADDR, &[3], MockOutcome::ReadErr(4));
}

fn calibrate_script(polls_with_flag_set: usize) -> Vec<MockReply> {
    let mut script = vec![MockReply::ReadOk(0x2E), MockReply::WriteOk];
    for _ in 0..polls_with_flag_set {
        script.push(MockReply::ReadOk(0x80));
    }
    script.push(MockReply::ReadOk(0x00));
    script
}

fn check_calibrate_run(polls_with_flag_set: usize) {
    let bus = MockBus::new(calibrate_script(polls_with_flag_set));
    let mut driver = Driver::new(bus).unwrap();
    driver.calibrate().unwrap();
    let calls = &driver.bus().calls;
    // The identity read, the trigger write, then the status polls.
    assert_eq!(calls.len(), 2 + polls_with_flag_set + 1);
    expect_call(&calls[1], DEVICE_ADDR, &[56, 0xFF], MockOutcome::WriteOk);
    for i in 0..polls_with_flag_set {
        expect_call(&calls[2 + i], DEVICE_ADDR, &[2], MockOutcome::ReadOk(0x80));
    }
    expect_call(&calls[2 + polls_with_flag_set], DEVICE_ADDR, &[2], MockOutcome::ReadOk(0x00));
}

#[test]
fn calibrate_finishes_when_first_poll_is_clear() {
    check_calibrate_run(0);
}

#[test]
fn calibrate_polls_until_flag_clears_after_one_read() {
    check_calibrate_run(1);
}

#[test]
fn calibrate_polls_until_flag_clears_after_five_reads() {
    check_calibrate_run(5);
}

#[test]
fn calibrate_returns_trigger_write_error_unchanged() {
    let bus = MockBus::new(vec![MockReply::ReadOk(0x2E), MockReply::Fail(5)]);
    let mut driver = Driver::new(bus).unwrap();
    let r = driver.calibrate();
    assert!(matches!(r, Err(Error::I2cError(MockError(5)))));
    // The history ends at the failed trigger write: no poll was attempted.
    let calls = &driver.bus().calls;
    assert_eq!(calls.len(), 2);
    expect_call(&calls[1], DEVICE_ADDR, &[56, 0xFF], MockOutcome::WriteErr(5));
}

#[test]
fn calibrate_returns_poll_read_error_unchanged() {
    let bus = MockBus::new(vec![
        MockReply::ReadOk(0x2E),
        MockReply::WriteOk,
        MockReply::ReadOk(0x80),
        MockReply::Fail(6),
    ]);
    let mut driver = Driver::new(bus).unwrap();
    let r = driver.calibrate();
    assert!(matches!(r, Err(Error::I2cError(MockError(6)))));
    // Identity read, trigger write, one poll with the flag set, then the
    // failed poll; nothing after it.
    let calls = &driver.bus().calls;
    assert_eq!(calls.len(), 4);
    expect_call(&calls[2], DEVICE_ADDR, &[2], MockOutcome::ReadOk(0x80));
    expect_call(&calls[3], DEVICE_ADDR, &[2], MockOutcome::ReadErr(6));
}

#[test]
fn scenario_construct_then_read_both_registers() {
    let bus = MockBus::new(vec![
        MockReply::ReadOk(0x2E),
        MockReply::ReadOk(0x00),
        MockReply::ReadOk(0b0000101),
    ]);
    let mut driver = Driver::new(bus).unwrap();

    let status = driver.get_status().unwrap();
    assert!(!status.calibrate());
    assert!(!status.overflow());
    assert!(!status.touch());

    let keys = driver.get_key_status().unwrap();
    assert!(keys.key0());
    assert!(!keys.key1());
    assert!(keys.key2());
    assert!(!keys.key3());
    assert!(!keys.key4());
    assert!(!keys.key5());
    assert!(!keys.key6());
}
