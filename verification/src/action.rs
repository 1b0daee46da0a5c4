//! Actions of the device. The mount has settable properties only, so the
//! dispatcher makes no action, whatever is asked of it.

use crate::device::Device;
use crate::value::Value;
use vstd::prelude::*;

verus! {

/// An operation that a device was asked to start: its name and the input
/// it was asked with. The mount declares none, and the dispatcher makes
/// none.
#[derive(Debug, PartialEq, Eq)]
pub struct Action {
    pub name: String,
    pub input: Option<Value>,
}

/// The point at which a request to start an action arrives.
#[derive(Clone, Copy, Debug, PartialEq, Eq)]
pub struct ActionDispatcher;

impl ActionDispatcher {
    /// The action named `name` of `device`, made for `input`: always none.
    pub fn generate(&self, device: &Device, name: &str, input: Option<&Value>) -> (action: Option<Action>)
        ensures
            action is None,
    {
        None
    }
}

} // verus!
