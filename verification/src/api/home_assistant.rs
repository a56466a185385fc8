use vstd::prelude::*;

verus! {

broadcast use vstd::string::group_string_axioms;

/// The Home Assistant MQTT discovery integration of the device.
pub struct HomeAssistantIntegration {}

impl HomeAssistantIntegration {
    /// The topic the device's discovery document is published on:
    /// `homeassistant/device/<name>/<id>/config`, for a device name already in lower case.
    pub fn discovery_topic(name: &str, id: &str) -> (topic: String)
        ensures
            topic@ == "homeassistant/device/"@ + name@ + "/"@ + id@ + "/config"@,
    {
        "homeassistant/device/".to_string().concat(name).concat("/").concat(id).concat("/config")
    }
}

} // verus!
