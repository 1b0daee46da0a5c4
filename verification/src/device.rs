//! The device: the properties of the mount under one name.

use crate::bus::{BusWrite, TransportError};
use crate::forwarder::{ChannelForwarder, ForwarderError};
use crate::number::Number;
use crate::property::{Property, PropertyError, PropertyView};
use crate::value::Value;
use vstd::prelude::*;

verus! {

/// Why a device did not accept a value for a property.
#[derive(Clone, Copy, Debug, PartialEq, Eq)]
pub enum DeviceError {
    /// The device has no property of the given name.
    NoSuchProperty,
    /// The property did not accept the value.
    Property(PropertyError),
}

/// A device: its title, its type and description, and its properties in
/// the order in which they were added.
pub struct Device {
    title: String,
    kind: Option<String>,
    description: Option<String>,
    properties: Vec<Property>,
}

/// What a device holds.
pub struct DeviceView {
    pub title: Seq<char>,
    pub kind: Option<Seq<char>>,
    pub description: Option<Seq<char>>,
    pub properties: Seq<PropertyView>,
}

/// The text that an optional string holds.
pub open spec fn text_of(text: Option<String>) -> Option<Seq<char>> {
    match text {
        Some(t) => Some(t@),
        None => None,
    }
}

/// The properties that a vector holds, each by its view.
spec fn views_of(properties: Seq<Property>) -> Seq<PropertyView> {
    Seq::new(properties.len(), |i: int| properties[i]@)
}

impl DeviceView {
    /// No two properties have one name.
    pub open spec fn distinct_names(self) -> bool {
        forall|i: int, j: int|
            0 <= i < j < self.properties.len() ==> (#[trigger] self.properties[i]).name != (
            #[trigger] self.properties[j]).name
    }

    /// Some property is named `name`.
    pub open spec fn has(self, name: Seq<char>) -> bool {
        exists|i: int| 0 <= i < self.properties.len() && (#[trigger] self.properties[i]).name == name
    }

    /// `i` is the position of the first property named `name`.
    pub open spec fn is_position(self, name: Seq<char>, i: int) -> bool {
        &&& 0 <= i < self.properties.len()
        &&& self.properties[i].name == name
        &&& forall|k: int| 0 <= k < i ==> (#[trigger] self.properties[k]).name != name
    }

    /// The position of the first property named `name`, if there is one.
    pub open spec fn position(self, name: Seq<char>) -> Option<int> {
        if exists|i: int| self.is_position(name, i) {
            Some(choose|i: int| self.is_position(name, i))
        } else {
            None
        }
    }

    /// What a write of `value` to the first property named `name` is
    /// forwarded through, as `PropertyView::forwarded` gives it.
    pub open spec fn forwarded(self, name: Seq<char>, value: Value) -> Option<(ChannelForwarder, Number)> {
        match self.position(name) {
            Some(i) => self.properties[i].forwarded(value),
            None => None,
        }
    }

    /// The device with `value` held by the property at position `i`, all
    /// else as it is.
    pub open spec fn with_value(self, i: int, value: Value) -> DeviceView {
        DeviceView {
            properties: self.properties.update(i, PropertyView { value: value, ..self.properties[i] }),
            ..self
        }
    }
}

/// The first property of a name is the only position that `position` gives.
pub proof fn lemma_position_unique(device: DeviceView, name: Seq<char>, i: int)
    requires
        device.is_position(name, i),
    ensures
        device.position(name) == Some(i),
{
    let j = choose|j: int| device.is_position(name, j);
    if j < i {
        assert(device.properties[j].name != name);
    } else if i < j {
        assert(device.properties[i].name != name);
    }
}

/// Where names are distinct, a property is found at its own position: the
/// name of the property at `i` leads to `i` and to no other.
pub proof fn lemma_named_once(device: DeviceView, i: int)
    requires
        device.distinct_names(),
        0 <= i < device.properties.len(),
    ensures
        device.position(device.properties[i].name) == Some(i),
{
    lemma_position_unique(device, device.properties[i].name, i);
}

/// Where no property has the name, `position` gives none.
pub proof fn lemma_position_absent(device: DeviceView, name: Seq<char>)
    requires
        !device.has(name),
    ensures
        device.position(name) is None,
{
    if exists|i: int| device.is_position(name, i) {
        let i = choose|i: int| device.is_position(name, i);
        assert(device.properties[i].name == name);
    }
}

impl View for Device {
    type V = DeviceView;

    closed spec fn view(&self) -> DeviceView {
        DeviceView {
            title: self.title@,
            kind: text_of(self.kind),
            description: text_of(self.description),
            properties: views_of(self.properties@),
        }
    }
}

impl Device {
    /// A device without properties.
    pub fn new(title: String, kind: Option<String>, description: Option<String>) -> (device: Device)
        ensures
            device@ == (DeviceView {
                title: title@,
                kind: text_of(kind),
                description: text_of(description),
                properties: Seq::<PropertyView>::empty(),
            }),
            device@.distinct_names(),
    {
        let device = Device { title, kind, description, properties: Vec::new() };
        assert(device@.properties =~= Seq::<PropertyView>::empty());
        device
    }

    /// The title of the device.
    pub fn title(&self) -> (title: &str)
        ensures
            title@ == self@.title,
    {
        self.title.as_str()
    }

    /// The type of the device, if it was given one.
    pub fn kind(&self) -> (kind: Option<&str>)
        ensures
            match kind {
                Some(k) => self@.kind == Some(k@),
                None => self@.kind is None,
            },
    {
        match &self.kind {
            Some(k) => Some(k.as_str()),
            None => None,
        }
    }

    /// The description of the device, if it was given one.
    pub fn description(&self) -> (description: Option<&str>)
        ensures
            match description {
                Some(d) => self@.description == Some(d@),
                None => self@.description is None,
            },
    {
        match &self.description {
            Some(d) => Some(d.as_str()),
            None => None,
        }
    }

    /// The names of the properties, in the order of addition.
    pub fn property_names(&self) -> (names: Vec<String>)
        ensures
            names@.len() == self@.properties.len(),
            forall|i: int| 0 <= i < names@.len() ==> (#[trigger] names@[i])@ == self@.properties[i].name,
    {
        let mut names: Vec<String> = Vec::new();
        let mut i: usize = 0;
        while i < self.properties.len()
            invariant
                i <= self.properties.len(),
                names@.len() == i,
                forall|k: int| 0 <= k < i ==> (#[trigger] names@[k])@ == self@.properties[k].name,
            decreases self.properties.len() - i,
        {
            names.push(self.properties[i].name().to_owned());
            i = i + 1;
        }
        names
    }

    /// The number of properties.
    pub fn property_count(&self) -> (count: usize)
        ensures
            count == self@.properties.len(),
    {
        self.properties.len()
    }

    /// The property at `index`, counted in the order of addition.
    pub fn property_at(&self, index: usize) -> (property: Option<&Property>)
        ensures
            match property {
                Some(p) => index < self@.properties.len() && p@ == self@.properties[index as int],
                None => index >= self@.properties.len(),
            },
    {
        if index < self.properties.len() {
            Some(&self.properties[index])
        } else {
            None
        }
    }

    /// The position of the first property named `name`, if there is one.
    pub fn position(&self, name: &str) -> (position: Option<usize>)
        ensures
            match position {
                Some(i) => self@.position(name@) == Some(i as int),
                None => self@.position(name@) is None,
            },
            position is Some <==> self@.has(name@),
    {
        let wanted: String = name.to_owned();
        let mut i: usize = 0;
        while i < self.properties.len()
            invariant
                i <= self.properties.len(),
                wanted@ == name@,
                forall|k: int| 0 <= k < i ==> (#[trigger] self@.properties[k]).name != name@,
            decreases self.properties.len() - i,
        {
            if self.properties[i].has_name(&wanted) {
                proof {
                    lemma_position_unique(self@, name@, i as int);
                }
                return Some(i);
            }
            i = i + 1;
        }
        proof {
            lemma_position_absent(self@, name@);
        }
        None
    }

    /// The property named `name`, if there is one.
    pub fn find_property(&self, name: &str) -> (property: Option<&Property>)
        ensures
            match property {
                Some(p) => self@.position(name@) matches Some(i) && p@ == self@.properties[i],
                None => self@.position(name@) is None,
            },
    {
        match self.position(name) {
            Some(i) => Some(&self.properties[i]),
            None => None,
        }
    }

    /// The value of the property named `name`, if there is one.
    pub fn get_property(&self, name: &str) -> (value: Option<&Value>)
        ensures
            match value {
                Some(v) => self@.position(name@) matches Some(i) && *v == self@.properties[i].value,
                None => self@.position(name@) is None,
            },
    {
        match self.position(name) {
            Some(i) => Some(self.properties[i].read()),
            None => None,
        }
    }

    /// Adds `property` to the device. The first property of the same name
    /// is replaced where it stands and handed back; otherwise the new one
    /// comes last. Names that were distinct stay distinct.
    pub fn add_property(&mut self, property: Property) -> (replaced: Option<Property>)
        ensures
            final(self)@.title == old(self)@.title,
            final(self)@.kind == old(self)@.kind,
            final(self)@.description == old(self)@.description,
            match old(self)@.position(property@.name) {
                Some(i) => {
                    &&& replaced matches Some(p) && p@ == old(self)@.properties[i]
                    &&& final(self)@.properties == old(self)@.properties.update(i, property@)
                },
                None => {
                    &&& replaced is None
                    &&& final(self)@.properties == old(self)@.properties.push(property@)
                },
            },
            old(self)@.distinct_names() ==> final(self)@.distinct_names(),
    {
        match self.position(property.name()) {
            Some(i) => {
                let replaced = self.properties.remove(i);
                self.properties.insert(i, property);
                assert(self@.properties =~= old(self)@.properties.update(i as int, property@));
                Some(replaced)
            },
            None => {
                self.properties.push(property);
                assert(self@.properties =~= old(self)@.properties.push(property@));
                None
            },
        }
    }

    /// Writes `value` to the first property named `name`, as
    /// `Property::write` does. A device without such a property is left as
    /// it was, with no evaluation and no bus transaction.
    pub fn set_property<E: FnOnce(Number) -> u64, F: FnOnce(BusWrite) -> Result<(), TransportError>>(
        &mut self,
        name: &str,
        value: Value,
        evaluate: E,
        transact: F,
    ) -> (r: Result<&Value, DeviceError>)
        requires
            old(self)@.forwarded(name@, value) matches Some((forwarder, n)) ==> forwarder.licensed(
                n,
                evaluate,
                transact,
            ),
        ensures
            match old(self)@.position(name@) {
                None => final(self)@ == old(self)@ && r == Err::<&Value, DeviceError>(DeviceError::NoSuchProperty),
                Some(i) => {
                    &&& r matches Ok(stored) ==> *stored == value && final(self)@ == old(self)@.with_value(i, value)
                    &&& r matches Err(e) ==> e == DeviceError::Property(
                        PropertyError::Forwarder(ForwarderError::HardwareFault),
                    ) && final(self)@ == old(self)@
                    &&& match old(self)@.properties[i].forwarded(value) {
                        None => r is Ok,
                        Some((forwarder, n)) => exists|line: u64, outcome: Result<(), TransportError>|
                            #[trigger] forwarder.performed(n, evaluate, transact, line, outcome) && (r is Ok
                                <==> outcome is Ok),
                    }
                },
            },
            old(self)@.distinct_names() ==> final(self)@.distinct_names(),
    {
        match self.position(name) {
            Some(i) => {
                let ghost before = self.properties@[i as int]@;
                let status: Result<(), PropertyError> = match self.properties[i].write(value, evaluate, transact) {
                    Ok(_) => Ok(()),
                    Err(e) => Err(e),
                };
                proof {
                    let after = if status is Ok {
                        PropertyView { value: value, ..before }
                    } else {
                        before
                    };
                    assert(self@.properties =~= old(self)@.properties.update(i as int, after));
                    if status is Err {
                        assert(self@.properties =~= old(self)@.properties);
                    }
                }
                match status {
                    Ok(_) => Ok(self.properties[i].read()),
                    Err(e) => Err(DeviceError::Property(e)),
                }
            },
            None => Err(DeviceError::NoSuchProperty),
        }
    }
}

} // verus!
