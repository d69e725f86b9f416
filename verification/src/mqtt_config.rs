//! The MQTT client settings and subscriptions of the source element, taken
//! from its properties, and of the monitor program.
use vstd::prelude::*;
use vstd::string::StringExecFns;
use crate::mqtt_subscribe_source_element::{lemma_key_indices, MqttSubscribeSourceElement};

verus! {

/// MQTT delivery guarantee of a subscription.
#[derive(Clone, Copy, Debug, PartialEq, Eq, Structural)]
pub enum QoS {
    Level0,
    Level1,
    Level2,
}

/// How a client connects: keep-alive and reconnect intervals in seconds,
/// its client id, the broker's `host:port`, and the credentials it logs in
/// with, where it has any.
#[derive(Debug)]
pub struct MqttClientConfig {
    pub keep_alive: u16,
    pub reconnect: u16,
    pub client_id: String,
    pub broker: String,
    pub user_name: Option<String>,
    pub password: Option<String>,
}

/// A credential taken from a property's value: none where the value is empty.
pub open spec fn credential(value: Seq<char>, c: Option<String>) -> bool {
    if value.len() == 0 {
        c is None
    } else {
        c matches Some(s) && s@ == value
    }
}

/// The credential for a property value: `None` for empty text.
fn credential_of(value: &String) -> (c: Option<String>)
    ensures
        credential(value@, c),
{
    if value.as_str().is_empty() {
        None
    } else {
        Some(value.clone())
    }
}

/// A topic filter and the delivery guarantee asked for it.
#[derive(Debug)]
pub struct Subscription {
    pub topic: String,
    pub qos: QoS,
}

/// The settings the source element connects with: the broker at its host
/// and port properties, its user and password properties as credentials
/// (none where empty), and the client id "rumqtt-docs".
pub fn element_client_config(e: &MqttSubscribeSourceElement) -> (c: MqttClientConfig)
    ensures
        c.keep_alive == 5,
        c.reconnect == 3,
        c.client_id@ == "rumqtt-docs"@,
        c.broker@ == e.prop(0).value@ + ":"@ + e.prop(1).value@,
        credential(e.prop(2).value@, c.user_name),
        credential(e.prop(3).value@, c.password),
        e.property_value("host"@) matches Some(h) && e.property_value("port"@) matches Some(p) && c.broker@ == h
            + ":"@ + p,
        e.property_value("user"@) matches Some(u) && credential(u, c.user_name),
        e.property_value("password"@) matches Some(pw) && credential(pw, c.password),
{
    proof {
        lemma_key_indices();
    }
    let mut broker = e.host().value.clone();
    broker.append(":");
    broker.append(e.port().value.as_str());
    MqttClientConfig {
        keep_alive: 5,
        reconnect: 3,
        client_id: "rumqtt-docs".to_owned(),
        broker,
        user_name: credential_of(&e.user().value),
        password: credential_of(&e.password().value),
    }
}

/// The element subscribes to its topic property.
pub fn element_subscriptions(e: &MqttSubscribeSourceElement) -> (s: Vec<Subscription>)
    ensures
        s@.len() == 1,
        s@[0].topic@ == e.prop(4).value@,
        s@[0].qos == QoS::Level0,
        e.property_value("topic"@) == Some(s@[0].topic@),
{
    proof {
        lemma_key_indices();
    }
    let mut s: Vec<Subscription> = Vec::new();
    s.push(Subscription { topic: e.topic().value.clone(), qos: QoS::Level0 });
    s
}

/// The settings the monitor program connects with.
pub fn monitor_client_config() -> (c: MqttClientConfig)
    ensures
        c.keep_alive == 5,
        c.reconnect == 3,
        c.client_id@ == "pierce_house-mqtt"@,
        c.broker@ == "192.168.1.7:1883"@,
        c.user_name is None,
        c.password is None,
{
    MqttClientConfig {
        keep_alive: 5,
        reconnect: 3,
        client_id: "pierce_house-mqtt".to_owned(),
        broker: "192.168.1.7:1883".to_owned(),
        user_name: None,
        password: None,
    }
}

/// The topics the monitor program subscribes to.
pub fn monitor_subscriptions() -> (s: Vec<Subscription>)
    ensures
        s@.len() == 1,
        s@[0].topic@ == "wemos/+/current/status"@,
        s@[0].qos == QoS::Level0,
{
    let mut s: Vec<Subscription> = Vec::new();
    s.push(Subscription { topic: "wemos/+/current/status".to_owned(), qos: QoS::Level0 });
    s
}

} // verus!
