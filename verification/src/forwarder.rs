//! The channel forwarder: from a logical value to one register write, and
//! from the outcome of that write to what the requester is told.
//!
//! The forwarder is handed the two things that this crate does not hold:
//! `evaluate`, the binary64 evaluation of the line
//! `v / 100 * FULL_SWING + MIN_PULSE` at a number `v`, which gives the bit
//! pattern of the result, and `transact`, the write transaction on the bus.

use crate::bus::{BusWrite, TransportError};
use crate::number::Number;
use crate::pulse::{pulse_of, pulse_width};
use crate::value::Value;
use vstd::prelude::*;

verus! {

/// Why a forwarder did not accept a value.
#[derive(Clone, Copy, Debug, PartialEq, Eq)]
pub enum ForwarderError {
    /// The transport refused the register write.
    HardwareFault,
}

impl ForwarderError {
    /// The fixed diagnostic text of the error.
    pub fn message(&self) -> (text: &'static str)
        ensures
            text@ == "Unknown i2c error"@,
    {
        "Unknown i2c error"
    }
}

/// Forwards the logical values of one output channel to the register that
/// holds the channel's pulse width. It keeps no state between values.
#[derive(Clone, Copy, Debug, PartialEq, Eq)]
pub struct ChannelForwarder {
    /// The register that holds the pulse width of the channel.
    pub channel_register_offset: u8,
}

impl ChannelForwarder {
    /// A forwarder for the channel whose pulse width is held at
    /// `channel_register_offset`.
    pub fn new(channel_register_offset: u8) -> (forwarder: ChannelForwarder)
        ensures
            forwarder.channel_register_offset == channel_register_offset,
    {
        ChannelForwarder { channel_register_offset }
    }

    /// The write for a number whose line value has the binary64 pattern
    /// `line`: the pulse of that value, to the channel's register.
    pub open spec fn write_of(self, line: u64) -> BusWrite {
        BusWrite::Word { register: self.channel_register_offset, word: pulse_of(line) as u16 }
    }

    /// What the requester is told once the write for `value` has ended
    /// with `outcome`: the value itself, or a hardware fault.
    pub open spec fn concluded(value: Value, outcome: Result<(), TransportError>) -> Result<Value, ForwarderError> {
        match outcome {
            Ok(_) => Ok(value),
            Err(_) => Err(ForwarderError::HardwareFault),
        }
    }

    /// `evaluate` may be called on `n`, and `transact` on the write for
    /// whatever `evaluate` gives there.
    pub open spec fn licensed<E: FnOnce(Number) -> u64, F: FnOnce(BusWrite) -> Result<(), TransportError>>(
        self,
        n: Number,
        evaluate: E,
        transact: F,
    ) -> bool {
        &&& call_requires(evaluate, (n,))
        &&& forall|line: u64| #[trigger]
            call_ensures(evaluate, (n,), line) ==> call_requires(transact, (self.write_of(line),))
    }

    /// `evaluate` gave `line` at `n`, and `transact` ended the write for
    /// `line` with `outcome`.
    pub open spec fn performed<E: FnOnce(Number) -> u64, F: FnOnce(BusWrite) -> Result<(), TransportError>>(
        self,
        n: Number,
        evaluate: E,
        transact: F,
        line: u64,
        outcome: Result<(), TransportError>,
    ) -> bool {
        &&& call_ensures(evaluate, (n,), line)
        &&& call_ensures(transact, (self.write_of(line),), outcome)
    }

    /// The write for a number whose line value has the binary64 pattern
    /// `line`.
    pub fn request(&self, line: u64) -> (write: BusWrite)
        ensures
            write == self.write_of(line),
    {
        BusWrite::Word { register: self.channel_register_offset, word: pulse_width(line) }
    }

    /// Ends the write for `value` with the transport's `outcome`. A value
    /// whose write succeeded is echoed as it came, not as the pulse that
    /// was written; a fault is reported, with no second attempt.
    pub fn conclude(value: Value, outcome: Result<(), TransportError>) -> (r: Result<Value, ForwarderError>)
        ensures
            r == Self::concluded(value, outcome),
    {
        match outcome {
            Ok(_) => Ok(value),
            Err(_) => Err(ForwarderError::HardwareFault),
        }
    }

    /// Applies a logical value to the channel. For a number, `evaluate`
    /// gives its line value, the write of that value's pulse to the
    /// channel's register is handed to `transact`, and the result follows
    /// the outcome of that one transaction; a fault is not tried again.
    /// Any other value is accepted as it is, with no evaluation and no
    /// transaction.
    ///
    /// The precondition allows a call of `evaluate` on the number and of
    /// `transact` on the write for its result, and on nothing else; each
    /// of the two can be called once.
    pub fn apply<E: FnOnce(Number) -> u64, F: FnOnce(BusWrite) -> Result<(), TransportError>>(
        &self,
        value: Value,
        evaluate: E,
        transact: F,
    ) -> (r: Result<Value, ForwarderError>)
        requires
            value matches Value::Number(n) ==> self.licensed(n, evaluate, transact),
        ensures
            !value.is_number() ==> r == Ok::<Value, ForwarderError>(value),
            value matches Value::Number(n) ==> exists|line: u64, outcome: Result<(), TransportError>|
                {
                    &&& #[trigger] self.performed(n, evaluate, transact, line, outcome)
                    &&& outcome is Ok ==> r == Ok::<Value, ForwarderError>(value)
                    &&& outcome is Err ==> r == Err::<Value, ForwarderError>(ForwarderError::HardwareFault)
                },
            r matches Ok(echo) ==> echo == value,
            r matches Err(e) ==> e == ForwarderError::HardwareFault && value.is_number(),
    {
        match value.as_number() {
            None => Ok(value),
            Some(n) => {
                let line = evaluate(n);
                let outcome = transact(self.request(line));
                assert(self.performed(n, evaluate, transact, line, outcome));
                Self::conclude(value, outcome)
            },
        }
    }
}

} // verus!
