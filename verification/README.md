# liblasso (MQTT source element)

A Verus-verified library for the MQTT parts of a data pipeline:

- `src/element.rs` — element kinds, pads, string properties, stream messages.
- `src/mqtt_subscribe_source_element.rs` — the MQTT subscribe source element:
  defaults, property get/set (with proved laws), pads.
- `src/subscribe_loop.rs` — the element's wait loop as a state machine, and
  what it makes of each MQTT message.
- `src/mqtt_config.rs` — client settings and subscriptions of the element and
  of the monitor program.
- `src/logging.rs` — log levels chosen by the verbosity flag.
- `src/errors.rs` — error kinds with their descriptions and messages.
- `src/text.rs` — string comparison and payload decoding.

`app/` holds the monitor program and the parts that do I/O (MQTT client,
SQLite, logging back end, JSON form of the element).
