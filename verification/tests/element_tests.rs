use liblasso::element::{ElementChannelType, ElementPadType, ElementProperty, ElementPropertyType, ElementType, MessageKind};
use liblasso::mqtt_subscribe_source_element::MqttSubscribeSourceElement;

#[test]
fn new_element_has_default_properties() {
    let e = MqttSubscribeSourceElement::new();
    assert_eq!(e.get_property("host"), Some(String::new()));
    assert_eq!(e.get_property("port"), Some("21".to_string()));
    assert_eq!(e.get_property("user"), Some(String::new()));
    assert_eq!(e.get_property("password"), Some(String::new()));
    assert_eq!(e.get_property("topic"), Some(String::new()));
    assert_eq!(e.host().name, "host");
    assert_eq!(e.user().name, "username");
    assert_eq!(e.password().description, "Port of mqtt server");
    assert_eq!(e.topic().description, "Topic to subscribe");
    assert_eq!(e.port().property_type, ElementPropertyType::STRING);
}

#[test]
fn user_property_is_reached_as_user_not_username() {
    let mut e = MqttSubscribeSourceElement::new();
    assert_eq!(e.get_property("username"), None);
    assert!(e.set_property("username", "glenn").is_ok());
    assert_eq!(e.get_property("user"), Some(String::new()));
    assert!(e.set_property("user", "glenn").is_ok());
    assert_eq!(e.get_property("user"), Some("glenn".to_string()));
    assert_eq!(e.user().name, "username");
}

#[test]
fn names_and_type() {
    let e = MqttSubscribeSourceElement::new();
    assert_eq!(MqttSubscribeSourceElement::get_element_name(), "\"MqttSubscribeSourceElement\"");
    assert_eq!(e.get_name(), "MqttSubscribeSourceElement");
    assert_eq!(e.get_type(), ElementType::SOURCE);
}

#[test]
fn set_then_get_reads_back() {
    let mut e = MqttSubscribeSourceElement::new();
    for name in ["host", "port", "user", "password", "topic"] {
        assert!(e.set_property(name, "value-of-it").is_ok());
        assert_eq!(e.get_property(name), Some("value-of-it".to_string()));
    }
}

#[test]
fn set_leaves_other_properties() {
    let mut e = MqttSubscribeSourceElement::new();
    assert!(e.set_property("host", "broker.local").is_ok());
    assert!(e.set_property("topic", "wemos/#").is_ok());
    assert_eq!(e.get_property("host"), Some("broker.local".to_string()));
    assert_eq!(e.get_property("port"), Some("21".to_string()));
    assert_eq!(e.get_property("topic"), Some("wemos/#".to_string()));
    assert_eq!(e.host().name, "host");
    assert_eq!(e.host().description, "Host of mqtt server");
}

#[test]
fn last_set_wins() {
    let mut e = MqttSubscribeSourceElement::new();
    assert!(e.set_property("port", "1883").is_ok());
    assert!(e.set_property("port", "8883").is_ok());
    assert_eq!(e.get_property("port"), Some("8883".to_string()));
}

#[test]
fn unknown_property_is_ignored() {
    let mut e = MqttSubscribeSourceElement::new();
    assert!(e.set_property("Host", "x").is_ok());
    assert!(e.set_property("", "x").is_ok());
    assert_eq!(e.get_property("Host"), None);
    assert_eq!(e.get_property(""), None);
    assert_eq!(e.get_property("host"), Some(String::new()));
    assert_eq!(e.get_property("port"), Some("21".to_string()));
}

#[test]
fn non_ascii_names_and_values() {
    let mut e = MqttSubscribeSourceElement::new();
    assert!(e.set_property("tópic", "x").is_ok());
    assert_eq!(e.get_property("topic"), Some(String::new()));
    assert!(e.set_property("topic", "häuser/°C").is_ok());
    assert_eq!(e.get_property("topic"), Some("häuser/°C".to_string()));
}

#[test]
fn pads() {
    let e = MqttSubscribeSourceElement::new();
    let (i1, i2) = e.get_input_pads();
    assert!(i1.is_none() && i2.is_none());
    let (o1, o2) = e.get_output_pads();
    assert!(o2.is_none());
    let pad = o1.unwrap();
    assert_eq!(pad.name, "mqtt_subscribe_element_output1");
    assert_eq!(pad.channel_type, ElementChannelType::CHANNEL1);
    assert_eq!(pad.pad_type, ElementPadType::OUTPUT);
    assert_eq!(pad.data_formats, vec![MessageKind::StringMessage]);
    assert_eq!(pad.description, "Watches for any events from the mqtt broker");
}

#[test]
fn box_clone_copies_everything() {
    let mut e = MqttSubscribeSourceElement::new();
    assert!(e.set_property("password", "secret").is_ok());
    let b = e.box_clone();
    assert_eq!(b.get_property("password"), Some("secret".to_string()));
    assert_eq!(b.get_property("port"), Some("21".to_string()));
    assert_eq!(b.output_pad().name, e.output_pad().name);
}

#[test]
fn with_properties_keeps_the_given_properties() {
    let host = ElementProperty::new("host", "10.0.0.1", ElementPropertyType::STRING, "Host of mqtt server");
    let port = ElementProperty::new("port", "1883", ElementPropertyType::STRING, "Port of mqtt server");
    let user = ElementProperty::new("username", "me", ElementPropertyType::STRING, "Username of mqtt server");
    let password = ElementProperty::new("password", "pw", ElementPropertyType::STRING, "Port of mqtt server");
    let topic = ElementProperty::new("topic", "a/b", ElementPropertyType::STRING, "Topic to subscribe");
    let e = MqttSubscribeSourceElement::with_properties(host, port, user, password, topic);
    assert_eq!(e.get_property("host"), Some("10.0.0.1".to_string()));
    assert_eq!(e.get_property("port"), Some("1883".to_string()));
    assert_eq!(e.get_property("user"), Some("me".to_string()));
    assert_eq!(e.get_property("password"), Some("pw".to_string()));
    assert_eq!(e.get_property("topic"), Some("a/b".to_string()));
    assert_eq!(e.output_pad().name, "mqtt_subscribe_element_output1");
}

#[test]
fn property_value_accessors() {
    let mut p = ElementProperty::new("n", "v", ElementPropertyType::STRING, "d");
    assert_eq!(p.get_value(), "v");
    p.set_value("w");
    assert_eq!(p.get_value(), "w");
    assert_eq!(p.name, "n");
    assert_eq!(p.description, "d");
}

#[test]
fn output_pad_accessor() {
    let e = MqttSubscribeSourceElement::new();
    let pad = e.output_pad();
    assert_eq!(pad.name, "mqtt_subscribe_element_output1");
    assert_eq!(pad.data_formats, vec![MessageKind::StringMessage]);
}

#[test]
fn clone_copies_everything() {
    let mut e = MqttSubscribeSourceElement::new();
    assert!(e.set_property("topic", "t/1").is_ok());
    let c = e.clone();
    assert_eq!(c.get_property("topic"), Some("t/1".to_string()));
    assert_eq!(c.get_property("port"), Some("21".to_string()));
    assert_eq!(c.output_pad().name, "mqtt_subscribe_element_output1");
    let p = c.host().clone();
    assert_eq!(p.name, "host");
}
