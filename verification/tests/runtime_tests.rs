use liblasso::element::{ElementChannelType, ElementPad, ElementPadType, ElementStreamFormat, MessageKind};
use liblasso::errors::ErrorKind;
use liblasso::logging::{log_config, noisy_target, LevelFilter, LogConfig};
use liblasso::mqtt_config::{element_client_config, element_subscriptions, monitor_client_config, monitor_subscriptions, QoS};
use liblasso::subscribe_loop::{on_message, start, step, RunAction, RunEvent, RunState};
use liblasso::mqtt_subscribe_source_element::MqttSubscribeSourceElement;
use liblasso::text::{payload_text, str_eq};

#[test]
fn logging_levels_by_verbosity() {
    assert_eq!(log_config(0), LogConfig { level: LevelFilter::Info, noisy_target_level: Some(LevelFilter::Warn) });
    assert_eq!(log_config(1), LogConfig { level: LevelFilter::Debug, noisy_target_level: Some(LevelFilter::Info) });
    assert_eq!(log_config(2), LogConfig { level: LevelFilter::Debug, noisy_target_level: None });
    assert_eq!(log_config(3), LogConfig { level: LevelFilter::Trace, noisy_target_level: None });
    assert_eq!(log_config(255), LogConfig { level: LevelFilter::Trace, noisy_target_level: None });
    assert_eq!(noisy_target(), "overly-verbose-target");
}

#[test]
fn client_settings() {
    let e = MqttSubscribeSourceElement::new();
    let c = element_client_config(&e);
    assert_eq!((c.keep_alive, c.reconnect), (5, 3));
    assert_eq!(c.client_id, "rumqtt-docs");
    assert_eq!(c.broker, ":21");
    assert_eq!(c.user_name, None);
    assert_eq!(c.password, None);
    let s = element_subscriptions(&e);
    assert_eq!(s.len(), 1);
    assert_eq!(s[0].topic, "");
    assert_eq!(s[0].qos, QoS::Level0);
    let m = monitor_client_config();
    assert_eq!((m.keep_alive, m.reconnect), (5, 3));
    assert_eq!(m.client_id, "pierce_house-mqtt");
    assert_eq!(m.broker, "192.168.1.7:1883");
    let ms = monitor_subscriptions();
    assert_eq!(ms.len(), 1);
    assert_eq!(ms[0].topic, "wemos/+/current/status");
    assert_eq!(ms[0].qos, QoS::Level0);
    assert_eq!(m.user_name, None);
    assert_eq!(m.password, None);
}

#[test]
fn element_connects_where_its_properties_say() {
    let mut e = MqttSubscribeSourceElement::new();
    assert!(e.set_property("host", "broker.local").is_ok());
    assert!(e.set_property("port", "1883").is_ok());
    assert!(e.set_property("topic", "a/b").is_ok());
    assert!(e.set_property("user", "glenn").is_ok());
    assert!(e.set_property("password", "pw").is_ok());
    let c = element_client_config(&e);
    assert_eq!(c.broker, "broker.local:1883");
    assert_eq!(c.user_name, Some("glenn".to_string()));
    assert_eq!(c.password, Some("pw".to_string()));
    let s = element_subscriptions(&e);
    assert_eq!(s.len(), 1);
    assert_eq!(s[0].topic, "a/b");
}

#[test]
fn loop_stops_on_dead_flag() {
    let (s, a) = start();
    assert_eq!((s, a), (RunState::AwaitFlag, RunAction::CheckFlag));
    assert_eq!(step(s, true, &RunEvent::Flag(false)), (RunState::Stopped, RunAction::Shutdown));
    assert_eq!(step(s, false, &RunEvent::Flag(false)), (RunState::Stopped, RunAction::Shutdown));
}

#[test]
fn loop_without_input_only_watches_flag() {
    let (mut s, _) = start();
    for _ in 0..5 {
        let (n, a) = step(s, false, &RunEvent::Flag(true));
        assert_eq!((n, a), (RunState::AwaitFlag, RunAction::CheckFlag));
        s = n;
    }
    assert_eq!(step(s, false, &RunEvent::Flag(false)), (RunState::Stopped, RunAction::Shutdown));
}

#[test]
fn loop_stops_on_end_data_only() {
    let (s, _) = start();
    let (s, a) = step(s, true, &RunEvent::Flag(true));
    assert_eq!((s, a), (RunState::AwaitInput, RunAction::ReceiveInput));
    let msg = RunEvent::Input(Some(ElementStreamFormat::StringMessage(3, vec!["x".to_string()])));
    let (s, a) = step(s, true, &msg);
    assert_eq!((s, a), (RunState::AwaitFlag, RunAction::CheckFlag));
    let (s, _) = step(s, true, &RunEvent::Flag(true));
    let (s2, a2) = step(s, true, &RunEvent::Input(None));
    assert_eq!((s2, a2), (RunState::AwaitFlag, RunAction::CheckFlag));
    let (s, a) = step(s, true, &RunEvent::Input(Some(ElementStreamFormat::EndDataMessage(7))));
    assert_eq!((s, a), (RunState::Stopped, RunAction::Shutdown));
    assert_eq!(step(s, true, &RunEvent::Flag(true)), (RunState::Stopped, RunAction::Nothing));
    assert_eq!(step(s, true, &RunEvent::Flag(false)), (RunState::Stopped, RunAction::Nothing));
}

#[test]
fn mismatched_events_repeat_the_pending_action() {
    assert_eq!(step(RunState::AwaitFlag, true, &RunEvent::Input(None)), (RunState::AwaitFlag, RunAction::CheckFlag));
    assert_eq!(step(RunState::AwaitInput, true, &RunEvent::Flag(false)), (RunState::AwaitInput, RunAction::ReceiveInput));
}

#[test]
fn message_becomes_string_message() {
    match on_message(b"21.5", true) {
        Some(ElementStreamFormat::StringMessage(id, v)) => {
            assert_eq!(id, 0);
            assert_eq!(v, vec!["21.5".to_string()]);
        }
        other => panic!("unexpected {:?}", other),
    }
    assert!(on_message(b"21.5", false).is_none());
}

#[test]
fn invalid_utf8_is_replaced() {
    assert_eq!(payload_text(&[0x61, 0xff, 0x62]), "a\u{FFFD}b");
    assert_eq!(payload_text("°C".as_bytes()), "°C");
    assert_eq!(payload_text(&[]), "");
}

#[test]
fn string_slice_equality() {
    assert!(str_eq("host", "host"));
    assert!(!str_eq("host", "hos"));
    assert!(!str_eq("host", "hoSt"));
    assert!(str_eq("", ""));
    assert!(str_eq("ö", "ö"));
}

#[test]
fn message_kinds() {
    assert_eq!(ElementStreamFormat::EndDataMessage(1).kind(), MessageKind::EndDataMessage);
    assert_eq!(ElementStreamFormat::StringMessage(1, vec![]).kind(), MessageKind::StringMessage);
}

#[test]
fn error_descriptions_and_messages() {
    let s = |x: &str| x.to_string();
    let cases: Vec<(ErrorKind, &str, &str)> = vec![
        (ErrorKind::Msg(s("boom")), "boom", "boom"),
        (ErrorKind::InvalidParameter(s("p")), "InvalidParameter", "InvalidParameter: 'p'"),
        (ErrorKind::ElementPadNotInput(s("e"), s("p")), "Element pad is not an input", "Element pad is not an input: 'e - p'"),
        (ErrorKind::ElementPadNotOutput(s("e"), s("p")), "Element pad is not an output", "Element pad is not an output: 'e - p'"),
        (ErrorKind::ElementDataSendError(ElementStreamFormat::EndDataMessage(1), s("closed")), "Element failed to send data", "Element failed to send data: EndDataMessage. Err: closed"),
        (ErrorKind::ElementDataReceiveError(s("gone")), "Element failled to receive data", "Element failed to receive data: gone"),
        (ErrorKind::ElementPadIncompatibleFormat(s("a"), s("b")), "Element pads have incompatible formats", "Element pads have incompatible formats: 'a - b'"),
        (ErrorKind::ElementNoSuchProperty(s("x")), "No such property", "Property x does not exist"),
        (ErrorKind::ElementWrongType(s("m")), "Element wrong type", "Element wrong type: m"),
        (ErrorKind::PipelineNotExist(s("p")), "Pipeline does not exist with that name", "Pipeline p does not exist"),
        (ErrorKind::PipelineNoSink(s("p")), "Pipeline has no sink element", "Pipeline p has no sink element"),
        (ErrorKind::PipelineNoSource(s("p")), "Pipeline has no source element", "Pipeline p has no source element"),
        (ErrorKind::PipelineDuplicateConnection(s("p"), s("c")), "Pipeline element and channel already connected", "Pipeline p element and channel c already connected"),
        (ErrorKind::PipelineMoreThanOneSink(s("p")), "Pipeline has more than one sink element", "Pipeline p has more than one sink element"),
        (ErrorKind::PipelineNoConnections(s("p")), "Pipeline has no connections", "Pipeline p has no connections"),
        (ErrorKind::PipelineRunError(s("p")), "Pipeline error when running", "Pipeline p error when running"),
        (ErrorKind::PipelineFileFormatCorrupt(s("p"), s("f")), "Pipeline file format corrupt", "Pipeline: p filepath: f file format corrupt"),
        (ErrorKind::UnknownError(s("u")), "Unknown Error", "Unknown Error: u"),
        (ErrorKind::Io(s("disk full")), "disk full", "disk full"),
        (ErrorKind::Json(s("EOF while parsing")), "EOF while parsing", "EOF while parsing"),
        (ErrorKind::Csv(s("bad row")), "bad row", "bad row"),
        (ErrorKind::DateTimeError(s("bad date")), "bad date", "bad date"),
        (ErrorKind::PostgresError(s("no db")), "no db", "no db"),
        (ErrorKind::ChannelError(s("closed")), "closed", "closed"),
    ];
    for (e, d, m) in cases {
        assert_eq!(e.description(), d);
        assert_eq!(e.display(), m);
    }
    let pad = MqttSubscribeSourceElement::new().output_pad().copy();
    let pad_text = format!("{:?}", pad);
    let e = ErrorKind::PipelinetDataFormatNotSupported(s("p"), pad);
    assert_eq!(e.description(), "Element data format is not support");
    assert_eq!(
        e.display(),
        "Element data format is not supported: 'pipeline_name p - pad ElementPad { channel_type: CHANNEL1, name: \"mqtt_subscribe_element_output1\", pad_type: OUTPUT, data_formats: [StringMessage], description: \"Watches for any events from the mqtt broker\" }'"
    );
    assert_eq!(e.display(), format!("Element data format is not supported: 'pipeline_name p - pad {}'", pad_text));
}

#[test]
fn pad_text_is_its_debug_form() {
    let pads = vec![
        ElementPad::new(ElementChannelType::CHANNEL2, "in\"put\\1\n".to_string(), ElementPadType::INPUT, vec![], "tab\there °C"),
        ElementPad::new(
            ElementChannelType::CHANNEL1,
            "x".to_string(),
            ElementPadType::OUTPUT,
            vec![MessageKind::StringMessage, MessageKind::EndDataMessage, MessageKind::StringMessage],
            "",
        ),
    ];
    for pad in pads {
        assert_eq!(pad.debug_text(), format!("{:?}", pad));
    }
    assert_eq!(liblasso::text::debug_text("a\"b"), "\"a\\\"b\"");
}
