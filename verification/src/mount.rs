//! The camera mount as a device: one rotation property for each servo.

use crate::bus::{off_register, off_register_of, CHANNELS};
use crate::device::{lemma_position_absent, Device, DeviceView};
use crate::forwarder::ChannelForwarder;
use crate::number::Number;
use crate::property::{Property, PropertyView};
use crate::value::Value;
use vstd::prelude::*;

verus! {

/// Port on which the device is served.
pub const SERVER_PORT: u16 = 8888;

/// Rotation, in percent, that each property holds before the first write.
pub const INITIAL_ROTATION: u64 = 50;

/// The rotation property of the servo on `channel`.
pub open spec fn servo_view(channel: u8) -> PropertyView {
    PropertyView {
        name: if channel == 0 {
            "servo0"@
        } else {
            "servo1"@
        },
        value: Value::Number(Number::Unsigned(50)),
        kind: "number"@,
        description: if channel == 0 {
            "Servo 0 rotation"@
        } else {
            "Servo 1 rotation"@
        },
        forwarder: match off_register_of(channel) {
            Some(register) => Some(ChannelForwarder { channel_register_offset: register }),
            None => None,
        },
    }
}

/// The camera mount: both servo properties, servo 0 first.
pub open spec fn camera_mount_view() -> DeviceView {
    DeviceView {
        title: "Camera Mount"@,
        kind: Some("thing"@),
        description: None,
        properties: seq![servo_view(0), servo_view(1)],
    }
}

/// The rotation property of the servo on `channel`, written through the
/// register that holds the channel's pulse width; none for a channel that
/// the mount does not drive.
pub fn servo_property(channel: u8) -> (property: Option<Property>)
    ensures
        match property {
            Some(p) => channel < CHANNELS && p@ == servo_view(channel),
            None => channel >= CHANNELS,
        },
{
    let register = match off_register(channel) {
        Some(register) => register,
        None => {
            return None;
        },
    };
    let (name, description) = if channel == 0 {
        ("servo0", "Servo 0 rotation")
    } else {
        ("servo1", "Servo 1 rotation")
    };
    Some(
        Property::new(
            name.to_owned(),
            Value::Number(Number::Unsigned(INITIAL_ROTATION)),
            "number".to_owned(),
            description.to_owned(),
            Some(ChannelForwarder::new(register)),
        ),
    )
}

/// The camera mount with its two properties.
pub fn camera_mount() -> (device: Device)
    ensures
        device@ == camera_mount_view(),
        device@.distinct_names(),
{
    let mut device = Device::new("Camera Mount".to_owned(), Some("thing".to_owned()), None);
    let mut channel: u8 = 0;
    loop
        invariant
            channel <= CHANNELS,
            device@.title == "Camera Mount"@,
            device@.kind == Some("thing"@),
            device@.description is None,
            device@.properties == camera_mount_view().properties.take(channel as int),
            device@.distinct_names(),
        ensures
            channel == CHANNELS,
        decreases CHANNELS - channel,
    {
        match servo_property(channel) {
            Some(property) => {
                proof {
                    reveal_strlit("servo0");
                    reveal_strlit("servo1");
                    assert("servo0"@[5] != "servo1"@[5]);
                    if channel == 1 {
                        assert(device@.properties[0].name != property@.name);
                    }
                    lemma_position_absent(device@, property@.name);
                }
                device.add_property(property);
                channel = channel + 1;
            },
            None => {
                break ;
            },
        }
    }
    assert(camera_mount_view().properties.take(2) =~= camera_mount_view().properties);
    device
}

} // verus!
