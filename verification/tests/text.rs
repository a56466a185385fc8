use rs_coffee::api::handlers_device::version;
use rs_coffee::api::home_assistant::HomeAssistantIntegration;
use rs_coffee::api::mqtt::{client_topic, mqtt_url, CommandRequest};
use rs_coffee::text::{decimal, parse_u32, split};

#[test]
fn split_like_std() {
    for (s, sep) in [("a.b.c", '.'), ("", '.'), ("..", '.'), ("x/y/", '/'), ("héllo wörld", ' ')] {
        let expected: Vec<String> = s.split(sep).map(|p| p.to_string()).collect();
        assert_eq!(split(s, sep), expected);
    }
}

#[test]
fn parse_u32_like_std() {
    assert_eq!(parse_u32("42"), Some(42));
    assert_eq!(parse_u32("+42"), Some(42));
    assert_eq!(parse_u32("4294967295"), Some(u32::MAX));
    assert_eq!(parse_u32("4294967296"), None);
    assert_eq!(parse_u32("-1"), None);
    assert_eq!(parse_u32(""), None);
    assert_eq!(parse_u32(" 1"), None);
}

#[test]
fn decimal_text() {
    assert_eq!(decimal(0), "0");
    assert_eq!(decimal(7), "7");
    assert_eq!(decimal(1883), "1883");
    assert_eq!(decimal(u64::MAX), u64::MAX.to_string());
}

#[test]
fn device_version() {
    assert_eq!(version(), "0.1.0");
}

#[test]
fn mqtt_addresses() {
    assert_eq!(mqtt_url("broker.local", 1883), "mqtt://broker.local:1883");
    assert_eq!(client_topic("coffee", "status"), "coffee/status");
}

#[test]
fn mqtt_commands() {
    assert_eq!(
        CommandRequest::from_message(Some("coffee/ab/set/power"), b"ON"),
        Ok(CommandRequest::PowerOn)
    );
    assert_eq!(
        CommandRequest::from_message(Some("coffee/ab/set/power"), b"off"),
        Ok(CommandRequest::PowerOff)
    );
    assert_eq!(
        CommandRequest::from_message(Some("power"), b"maybe"),
        Err("Invalid power command")
    );
    assert_eq!(
        CommandRequest::from_message(Some("x/temperature"), b"93.5"),
        Ok(CommandRequest::SetTemperature(b"93.5".to_vec()))
    );
    assert_eq!(
        CommandRequest::from_message(Some("x/pressure"), b"9"),
        Ok(CommandRequest::SetPressure(b"9".to_vec()))
    );
    assert_eq!(CommandRequest::from_message(Some("x/steam"), b"1"), Err("Invalid command"));
    assert_eq!(CommandRequest::from_message(None, b"1"), Err("No topic :("));
}

#[test]
fn discovery_topic_layout() {
    assert_eq!(
        HomeAssistantIntegration::discovery_topic("coffee", "a1b2c3d4e5f6"),
        "homeassistant/device/coffee/a1b2c3d4e5f6/config"
    );
}
