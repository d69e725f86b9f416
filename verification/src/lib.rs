//! Verified core of an MQTT source element for a data pipeline: the element's
//! properties and pads, the decisions of its subscription loop, the MQTT client
//! settings it and the monitor program use, and the logging levels that the
//! monitor derives from its verbosity flag.

pub mod element;
pub mod errors;
pub mod logging;
pub mod mqtt_config;
pub mod mqtt_subscribe_source_element;
pub mod subscribe_loop;
pub mod text;
