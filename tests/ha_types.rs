use rusty_esp_alarm::ha_types::{
    HADevice, HADeviceAvailability, HADeviceAvailabilityOut, HADeviceOut, HAEntity, HAEntityOut, HAEntityVariant,
};

fn device() -> HADevice {
    HADevice {
        configuration_url: None,
        hw_version: Some("1".to_string()),
        identifiers: Some(vec!["panel".to_string()]),
        manufacturer: Some("acme".to_string()),
        model: None,
        name: Some("Panel".to_string()),
        serial_number: None,
        suggested_area: Some("hall".to_string()),
        sw_version: None,
        via_device: None,
    }
}

#[test]
fn variant_names() {
    assert_eq!(HAEntityVariant::binary_sensor.name(), "binary_sensor");
    assert_eq!(HAEntityVariant::sensor.name(), "sensor");
}

#[test]
fn entity_converts_to_announced_form() {
    let entity = HAEntity {
        name: "Hall motion".to_string(),
        variant: HAEntityVariant::binary_sensor,
        unique_id: "hall-motion".to_string(),
        state_topic: "panel/hall/state".to_string(),
        icon: Some("mdi:motion".to_string()),
        availability: Some(HADeviceAvailability {
            payload_available: Some("online".to_string()),
            payload_not_available: Some("offline".to_string()),
            topic: "panel/availability".to_string(),
            value_template: None,
        }),
        device: Some(device()),
        device_class: Some("motion".to_string()),
        entity_category: None,
        gpio_pin: Some(14),
    };
    let out = HAEntityOut::from(entity);
    assert_eq!(out.name, "Hall motion");
    assert_eq!(out.unique_id, "hall-motion");
    assert_eq!(out.state_topic, "panel/hall/state");
    assert_eq!(out.icon.as_deref(), Some("mdi:motion"));
    assert_eq!(out.device_class.as_deref(), Some("motion"));
    assert!(out.entity_category.is_none());
    let a = out.availability.unwrap();
    assert_eq!(a.topic, "panel/availability");
    assert_eq!(a.payload_available.as_deref(), Some("online"));
    let d = out.device.unwrap();
    assert_eq!(d.identifiers, Some(vec!["panel".to_string()]));
    assert_eq!(d.suggested_area.as_deref(), Some("hall"));
}

#[test]
fn parts_convert_one_for_one() {
    let a = HADeviceAvailabilityOut::from(HADeviceAvailability {
        payload_available: None,
        payload_not_available: None,
        topic: "t".to_string(),
        value_template: Some("{{ value }}".to_string()),
    });
    assert_eq!(a.value_template.as_deref(), Some("{{ value }}"));
    let d = HADeviceOut::from(device());
    assert_eq!(d.manufacturer.as_deref(), Some("acme"));
    assert_eq!(d.hw_version.as_deref(), Some("1"));
    assert!(d.model.is_none());
}
