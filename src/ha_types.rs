//! Home Assistant entity descriptions, as configured (`HAEntity` and its
//! parts) and as announced over MQTT discovery (the `...Out` forms, which
//! leave out what only the panel itself needs).
use vstd::prelude::*;

verus! {

#[derive(Debug, Clone)]
pub struct HAEntity {
    pub name: String,
    pub variant: HAEntityVariant,
    pub unique_id: String,
    pub state_topic: String,
    pub icon: Option<String>,
    pub availability: Option<HADeviceAvailability>,
    pub device: Option<HADevice>,
    pub device_class: Option<String>,
    pub entity_category: Option<String>,
    pub gpio_pin: Option<u8>,
}

#[derive(Debug, Clone)]
pub struct HAEntityOut {
    pub name: String,
    pub unique_id: String,
    pub state_topic: String,
    pub icon: Option<String>,
    pub availability: Option<HADeviceAvailabilityOut>,
    pub device: Option<HADeviceOut>,
    pub device_class: Option<String>,
    pub entity_category: Option<String>,
}

#[allow(non_camel_case_types)]
#[derive(Debug, Clone, Copy, PartialEq, Eq, Structural)]
pub enum HAEntityVariant {
    binary_sensor,
    sensor,
}

#[derive(Debug, Clone)]
pub struct HADeviceAvailability {
    pub payload_available: Option<String>,
    pub payload_not_available: Option<String>,
    pub topic: String,
    pub value_template: Option<String>,
}

#[derive(Debug, Clone)]
pub struct HADeviceAvailabilityOut {
    pub payload_available: Option<String>,
    pub payload_not_available: Option<String>,
    pub topic: String,
    pub value_template: Option<String>,
}

#[derive(Debug, Clone)]
pub struct HADevice {
    pub configuration_url: Option<String>,
    pub hw_version: Option<String>,
    pub identifiers: Option<Vec<String>>,
    pub manufacturer: Option<String>,
    pub model: Option<String>,
    pub name: Option<String>,
    pub serial_number: Option<String>,
    pub suggested_area: Option<String>,
    pub sw_version: Option<String>,
    pub via_device: Option<String>,
}

#[derive(Debug, Clone)]
pub struct HADeviceOut {
    pub configuration_url: Option<String>,
    pub hw_version: Option<String>,
    pub identifiers: Option<Vec<String>>,
    pub manufacturer: Option<String>,
    pub model: Option<String>,
    pub name: Option<String>,
    pub serial_number: Option<String>,
    pub suggested_area: Option<String>,
    pub sw_version: Option<String>,
    pub via_device: Option<String>,
}

impl HAEntityVariant {
    pub open spec fn spec_name(self) -> Seq<char> {
        match self {
            HAEntityVariant::binary_sensor => "binary_sensor"@,
            HAEntityVariant::sensor => "sensor"@,
        }
    }

    /// The component name used in discovery topics.
    pub fn name(&self) -> (r: &'static str)
        ensures
            r@ == self.spec_name(),
    {
        match self {
            HAEntityVariant::binary_sensor => "binary_sensor",
            HAEntityVariant::sensor => "sensor",
        }
    }
}

pub open spec fn availability_out(a: HADeviceAvailability) -> HADeviceAvailabilityOut {
    HADeviceAvailabilityOut {
        payload_available: a.payload_available,
        payload_not_available: a.payload_not_available,
        topic: a.topic,
        value_template: a.value_template,
    }
}

pub open spec fn device_out(d: HADevice) -> HADeviceOut {
    HADeviceOut {
        configuration_url: d.configuration_url,
        hw_version: d.hw_version,
        identifiers: d.identifiers,
        manufacturer: d.manufacturer,
        model: d.model,
        name: d.name,
        serial_number: d.serial_number,
        suggested_area: d.suggested_area,
        sw_version: d.sw_version,
        via_device: d.via_device,
    }
}

/// The announced form keeps every field the two share, with availability
/// and device converted; variant and GPIO pin stay behind.
pub open spec fn entity_out(e: HAEntity) -> HAEntityOut {
    HAEntityOut {
        name: e.name,
        unique_id: e.unique_id,
        state_topic: e.state_topic,
        icon: e.icon,
        availability: match e.availability {
            Some(a) => Some(availability_out(a)),
            None => None,
        },
        device: match e.device {
            Some(d) => Some(device_out(d)),
            None => None,
        },
        device_class: e.device_class,
        entity_category: e.entity_category,
    }
}

impl From<HADeviceAvailability> for HADeviceAvailabilityOut {
    fn from(availability: HADeviceAvailability) -> (r: HADeviceAvailabilityOut) {
        HADeviceAvailabilityOut {
            payload_available: availability.payload_available,
            payload_not_available: availability.payload_not_available,
            topic: availability.topic,
            value_template: availability.value_template,
        }
    }
}

impl vstd::std_specs::convert::FromSpecImpl<HADeviceAvailability> for HADeviceAvailabilityOut {
    open spec fn obeys_from_spec() -> bool {
        true
    }

    open spec fn from_spec(v: HADeviceAvailability) -> HADeviceAvailabilityOut {
        availability_out(v)
    }
}

impl From<HADevice> for HADeviceOut {
    fn from(device: HADevice) -> (r: HADeviceOut) {
        HADeviceOut {
            configuration_url: device.configuration_url,
            hw_version: device.hw_version,
            identifiers: device.identifiers,
            manufacturer: device.manufacturer,
            model: device.model,
            name: device.name,
            serial_number: device.serial_number,
            suggested_area: device.suggested_area,
            sw_version: device.sw_version,
            via_device: device.via_device,
        }
    }
}

impl vstd::std_specs::convert::FromSpecImpl<HADevice> for HADeviceOut {
    open spec fn obeys_from_spec() -> bool {
        true
    }

    open spec fn from_spec(v: HADevice) -> HADeviceOut {
        device_out(v)
    }
}

impl From<HAEntity> for HAEntityOut {
    fn from(entity: HAEntity) -> (r: HAEntityOut) {
        let availability = match entity.availability {
            Some(a) => Some(HADeviceAvailabilityOut::from(a)),
            None => None,
        };
        let device = match entity.device {
            Some(d) => Some(HADeviceOut::from(d)),
            None => None,
        };
        HAEntityOut {
            name: entity.name,
            unique_id: entity.unique_id,
            state_topic: entity.state_topic,
            icon: entity.icon,
            availability,
            device,
            device_class: entity.device_class,
            entity_category: entity.entity_category,
        }
    }
}

impl vstd::std_specs::convert::FromSpecImpl<HAEntity> for HAEntityOut {
    open spec fn obeys_from_spec() -> bool {
        true
    }

    open spec fn from_spec(v: HAEntity) -> HAEntityOut {
        entity_out(v)
    }
}

} // verus!
