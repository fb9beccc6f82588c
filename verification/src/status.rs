//! Decoding of the two status registers.
//!
//! Both registers hold a single byte whose individual bits are independent
//! boolean flags.  `bit` is the shared spec-level decoder; every getter's
//! contract states exactly which bit it reads.

use vstd::prelude::*;

verus! {

/// Bit `i` of byte `b`, as a boolean.
pub open spec fn bit(b: u8, i: u8) -> bool
    recommends
        i < 8,
{
    (b >> i) & 1 == 1
}

/// The overall status register: a raw byte with three meaningful flags.
/// Bits 1 to 5 are reserved and ignored by the driver.
#[derive(Clone, Copy, Debug, PartialEq, Eq, Structural)]
pub struct Status(pub u8);

impl Status {
    /// Bit 7: the chip is currently running a calibration cycle.
    pub fn calibrate(&self) -> (r: bool)
        ensures
            r == bit(self.0, 7),
    {
        (self.0 >> 7) & 1 == 1
    }

    /// Bit 6: a key signal overflowed.
    pub fn overflow(&self) -> (r: bool)
        ensures
            r == bit(self.0, 6),
    {
        (self.0 >> 6) & 1 == 1
    }

    /// Bit 0: at least one key is touched.
    pub fn touch(&self) -> (r: bool)
        ensures
            r == bit(self.0, 0),
    {
        (self.0 >> 0) & 1 == 1
    }
}

/// The key-status register: one touch flag per key in bits 0 to 6.
/// Bit 7 is unused, as the chip has seven keys.
#[derive(Clone, Copy, Debug, PartialEq, Eq, Structural)]
pub struct KeyStatus(pub u8);

impl KeyStatus {
    /// Bit 0: key 0 is touched.
    pub fn key0(&self) -> (r: bool)
        ensures
            r == bit(self.0, 0),
    {
        (self.0 >> 0) & 1 == 1
    }

    /// Bit 1: key 1 is touched.
    pub fn key1(&self) -> (r: bool)
        ensures
            r == bit(self.0, 1),
    {
        (self.0 >> 1) & 1 == 1
    }

    /// Bit 2: key 2 is touched.
    pub fn key2(&self) -> (r: bool)
        ensures
            r == bit(self.0, 2),
    {
        (self.0 >> 2) & 1 == 1
    }

    /// Bit 3: key 3 is touched.
    pub fn key3(&self) -> (r: bool)
        ensures
            r == bit(self.0, 3),
    {
        (self.0 >> 3) & 1 == 1
    }

    /// Bit 4: key 4 is touched.
    pub fn key4(&self) -> (r: bool)
        ensures
            r == bit(self.0, 4),
    {
        (self.0 >> 4) & 1 == 1
    }

    /// Bit 5: key 5 is touched.
    pub fn key5(&self) -> (r: bool)
        ensures
            r == bit(self.0, 5),
    {
        (self.0 >> 5) & 1 == 1
    }

    /// Bit 6: key 6 is touched.
    pub fn key6(&self) -> (r: bool)
        ensures
            r == bit(self.0, 6),
    {
        (self.0 >> 6) & 1 == 1
    }
}

} // verus!
