//! A named logical value that is written through a channel forwarder.

use crate::bus::{BusWrite, TransportError};
use crate::forwarder::{ChannelForwarder, ForwarderError};
use crate::number::Number;
use crate::value::Value;
use vstd::prelude::*;

verus! {

/// Why a property did not accept a value.
#[derive(Clone, Copy, Debug, PartialEq, Eq)]
pub enum PropertyError {
    /// The property's forwarder did not accept the value.
    Forwarder(ForwarderError),
}

impl PropertyError {
    /// The fixed diagnostic text of the error.
    pub fn message(&self) -> (text: &'static str)
        ensures
            text@ == "Unknown i2c error"@,
    {
        match self {
            PropertyError::Forwarder(e) => e.message(),
        }
    }
}

/// A property: its name, the logical value that was accepted last, what a
/// description of the device says of it, and the forwarder that writes go
/// through, if it has one.
pub struct Property {
    name: String,
    value: Value,
    kind: String,
    description: String,
    forwarder: Option<ChannelForwarder>,
}

/// What a property holds.
pub struct PropertyView {
    pub name: Seq<char>,
    pub value: Value,
    pub kind: Seq<char>,
    pub description: Seq<char>,
    pub forwarder: Option<ChannelForwarder>,
}

impl View for Property {
    type V = PropertyView;

    closed spec fn view(&self) -> PropertyView {
        PropertyView {
            name: self.name@,
            value: self.value,
            kind: self.kind@,
            description: self.description@,
            forwarder: self.forwarder,
        }
    }
}

impl PropertyView {
    /// What a write of `value` is forwarded through: the forwarder and
    /// the number, where the property has a forwarder and the value is a
    /// number; otherwise nothing is forwarded.
    pub open spec fn forwarded(self, value: Value) -> Option<(ChannelForwarder, Number)> {
        match (self.forwarder, value) {
            (Some(forwarder), Value::Number(n)) => Some((forwarder, n)),
            _ => None,
        }
    }
}

impl Property {
    /// A property that holds `initial`.
    pub fn new(
        name: String,
        initial: Value,
        kind: String,
        description: String,
        forwarder: Option<ChannelForwarder>,
    ) -> (property: Property)
        ensures
            property@ == (PropertyView {
                name: name@,
                value: initial,
                kind: kind@,
                description: description@,
                forwarder: forwarder,
            }),
    {
        Property { name, value: initial, kind, description, forwarder }
    }

    /// The name of the property.
    pub fn name(&self) -> (name: &str)
        ensures
            name@ == self@.name,
    {
        self.name.as_str()
    }

    /// Whether the property is named `name`.
    pub fn has_name(&self, name: &String) -> (same: bool)
        ensures
            same == (self@.name == name@),
    {
        self.name == *name
    }

    /// The logical value that was accepted last.
    pub fn read(&self) -> (value: &Value)
        ensures
            *value == self@.value,
    {
        &self.value
    }

    /// The type that a description of the device gives for the value.
    pub fn kind(&self) -> (kind: &str)
        ensures
            kind@ == self@.kind,
    {
        self.kind.as_str()
    }

    /// What a description of the device says of the property.
    pub fn description(&self) -> (description: &str)
        ensures
            description@ == self@.description,
    {
        self.description.as_str()
    }

    /// The forwarder that writes go through, if any.
    pub fn forwarder(&self) -> (forwarder: Option<ChannelForwarder>)
        ensures
            forwarder == self@.forwarder,
    {
        self.forwarder
    }

    /// Writes `value` to the property. With a forwarder the value is
    /// applied to the channel as `ChannelForwarder::apply` does, and what
    /// the forwarder accepted is stored and handed back; where the
    /// forwarder reports a fault the property stays as it was. Without a
    /// forwarder the value is stored as it is.
    pub fn write<E: FnOnce(Number) -> u64, F: FnOnce(BusWrite) -> Result<(), TransportError>>(
        &mut self,
        value: Value,
        evaluate: E,
        transact: F,
    ) -> (r: Result<&Value, PropertyError>)
        requires
            old(self)@.forwarded(value) matches Some((forwarder, n)) ==> forwarder.licensed(n, evaluate, transact),
        ensures
            r matches Ok(stored) ==> *stored == value && final(self)@ == (PropertyView { value: value, ..old(self)@ }),
            r matches Err(e) ==> e == PropertyError::Forwarder(ForwarderError::HardwareFault) && final(self)@ == old(
                self,
            )@,
            match old(self)@.forwarded(value) {
                None => r is Ok,
                Some((forwarder, n)) => exists|line: u64, outcome: Result<(), TransportError>|
                    #[trigger] forwarder.performed(n, evaluate, transact, line, outcome) && (r is Ok <==> outcome
                        is Ok),
            },
    {
        match self.forwarder {
            Some(forwarder) => match forwarder.apply(value, evaluate, transact) {
                Ok(accepted) => {
                    self.value = accepted;
                    Ok(&self.value)
                },
                Err(e) => Err(PropertyError::Forwarder(e)),
            },
            None => {
                self.value = value;
                Ok(&self.value)
            },
        }
    }
}

} // verus!
