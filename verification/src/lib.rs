//! Verified core of a two-axis servo camera mount.
//!
//! The mount is a device with one rotation property for each servo. A
//! write to a property carries a logical value; a number is a rotation in
//! percent. The channel forwarder of the property has the number's place
//! on the line from 836 at 0 percent to 1664 at 100 percent evaluated,
//! takes the pulse-width word of that place, and hands the write of the
//! word to a bus transaction. A value whose write the transport accepted
//! is echoed and stored; after a fault the property keeps what it held. A
//! value that is no number is echoed and stored as it is, with no
//! transaction.
//!
//! Two things are not held here and are passed in by the caller as
//! functions: the binary64 arithmetic that evaluates the line, from a
//! [`number::Number`] to the bit pattern of the result, and the bus, from
//! a [`bus::BusWrite`] to `Result<(), bus::TransportError>`. Where one bus
//! is shared, the second takes the lock for the length of the transaction.
//!
//! - [`number`], [`value`]: logical values and the numbers among them.
//! - [`pulse`]: from an evaluated line value to its pulse-width word.
//! - [`bus`]: register writes, and the startup of the controller.
//! - [`forwarder`]: from a logical value to one write and its outcome.
//! - [`property`], [`device`]: named values, and the device that holds them.
//! - [`mount`]: the camera mount itself.
//! - [`action`]: the dispatcher of actions, of which the mount has none.

pub mod action;
pub mod bus;
pub mod device;
pub mod forwarder;
pub mod mount;
pub mod number;
pub mod property;
pub mod pulse;
pub mod value;
