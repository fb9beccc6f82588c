//! Runs of the verified scenario functions.  Each outcome asserted here is
//! also proved in the library; running them checks the same values again at
//! runtime.

use at42qt1070::mock::MockError;
use at42qt1070::scenarios::calibrate_completes_after_pending_poll;
use at42qt1070::scenarios::construct_on_bus_failure;
use at42qt1070::scenarios::construct_on_expected_identity;
use at42qt1070::scenarios::construct_on_wrong_identity;
use at42qt1070::scenarios::construct_then_read_both_registers;
use at42qt1070::Error;

#[test]
fn verified_construction_scenario_runs() {
    let r = construct_on_expected_identity();
    assert!(r.is_ok());
    assert_eq!(r.unwrap().bus().calls.len(), 1);
}

#[test]
fn verified_mismatch_scenario_runs() {
    let r = construct_on_wrong_identity(0x13);
    assert!(matches!(r, Err(Error::IdMismatch(0x13))));
}

#[test]
fn verified_bus_failure_scenario_runs() {
    let r = construct_on_bus_failure(7);
    assert!(matches!(r, Err(Error::I2cError(MockError(7)))));
}

#[test]
fn verified_read_out_scenario_runs() {
    let (status, keys) = construct_then_read_both_registers();
    assert_eq!(status.0, 0x00);
    assert_eq!(keys.0, 0b101);
}

#[test]
fn verified_calibrate_scenario_runs() {
    let (driver, r) = calibrate_completes_after_pending_poll();
    assert!(r.is_ok());
    assert_eq!(driver.bus().calls.len(), 4);
}
