//! Driver for the AT42QT1070 seven-key capacitive touch sensor.
//!
//! The chip sits on a two-wire serial bus at a fixed device address and is
//! operated through single-byte register reads and writes.  The driver is
//! generic over a transport that provides the two bus primitives (a plain
//! write and a combined write-then-read); every transaction attempt the
//! driver makes, successful or failed, is recorded with its outcome in the
//! transport's ghost history, so the contracts state exactly which
//! transactions each operation performs, how the returned values decode,
//! and that a bus failure comes back unchanged with nothing retried.

pub mod bus;
pub mod driver;
pub mod mock;
pub mod scenarios;
pub mod status;

pub use bus::I2cBus;
pub use bus::Transaction;
pub use driver::Driver;
pub use driver::Error;
pub use mock::MockBus;
pub use mock::MockReply;
pub use status::KeyStatus;
pub use status::Status;
