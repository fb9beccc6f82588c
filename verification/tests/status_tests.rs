//! Tests of the bit decoding of the two status registers.

use at42qt1070::KeyStatus;
use at42qt1070::Status;

#[test]
fn status_all_flags_clear() {
    let s = Status(0x00);
    assert!(!s.calibrate());
    assert!(!s.overflow());
    assert!(!s.touch());
}

#[test]
fn status_all_flags_set() {
    let s = Status(0b1100_0001);
    assert!(s.calibrate());
    assert!(s.overflow());
    assert!(s.touch());
}

#[test]
fn status_each_flag_reads_its_own_bit() {
    assert!(Status(0x80).calibrate());
    assert!(!Status(0x80).overflow());
    assert!(!Status(0x80).touch());

    assert!(!Status(0x40).calibrate());
    assert!(Status(0x40).overflow());
    assert!(!Status(0x40).touch());

    assert!(!Status(0x01).calibrate());
    assert!(!Status(0x01).overflow());
    assert!(Status(0x01).touch());
}

#[test]
fn status_ignores_reserved_bits() {
    // Only the reserved bits 1 to 5 are set: every flag reads false.
    let s = Status(0b0011_1110);
    assert!(!s.calibrate());
    assert!(!s.overflow());
    assert!(!s.touch());
}

#[test]
fn key_status_all_clear() {
    let k = KeyStatus(0x00);
    assert!(!k.key0());
    assert!(!k.key1());
    assert!(!k.key2());
    assert!(!k.key3());
    assert!(!k.key4());
    assert!(!k.key5());
    assert!(!k.key6());
}

#[test]
fn key_status_all_set() {
    let k = KeyStatus(0x7F);
    assert!(k.key0());
    assert!(k.key1());
    assert!(k.key2());
    assert!(k.key3());
    assert!(k.key4());
    assert!(k.key5());
    assert!(k.key6());
}

#[test]
fn key_status_each_key_reads_its_own_bit() {
    for i in 0..7u8 {
        let k = KeyStatus(1 << i);
        let flags = [k.key0(), k.key1(), k.key2(), k.key3(), k.key4(), k.key5(), k.key6()];
        for (j, flag) in flags.iter().enumerate() {
            assert_eq!(*flag, j == i as usize);
        }
    }
}

#[test]
fn key_status_ignores_bit_seven() {
    let k = KeyStatus(0x80);
    assert!(!k.key0());
    assert!(!k.key1());
    assert!(!k.key2());
    assert!(!k.key3());
    assert!(!k.key4());
    assert!(!k.key5());
    assert!(!k.key6());
}
