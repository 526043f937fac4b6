use slow_dac_actor::{
    calibration_topic, ParamMap, ParamValue, Reply, Stage, UpdateAction, UpdateError,
    UpdateEvent, UpdateRequest, UpdateSession, VoltageInput,
};

fn request(arguments: Vec<(&str, ParamValue)>) -> UpdateRequest {
    let mut args = ParamMap::new();
    for (k, v) in arguments {
        args.insert(k.to_string(), v);
    }
    let mut parameters = ParamMap::new();
    parameters.insert("board".to_string(), ParamValue::Text("slow".to_string()));
    UpdateRequest { arguments: args, parameters, actor_name: "dac_actor".to_string() }
}

fn channel_a() -> (&'static str, ParamValue) {
    ("actor_channel_selected", ParamValue::Text("A".to_string()))
}

fn message_of(action: UpdateAction) -> (Option<String>, String) {
    match action {
        UpdateAction::Finish { notice, reply: Reply::Message(m) } => (notice, m),
        _ => panic!("expected a message"),
    }
}

/// Runs an update up to the parse of the calibration record.
fn until_parse(req: UpdateRequest) -> UpdateSession {
    let (session, action) = UpdateSession::start(req);
    match action {
        UpdateAction::ReadTopic(topic) => assert_eq!(topic, "A.json"),
        _ => panic!("expected a read"),
    }
    let content = "{\"max_voltage\":5.0,\"min_voltage\":0.0,\"physical_index\":\"A\"}";
    let (session, action) = session.step(UpdateEvent::TopicRead(Some(content.to_string())));
    match action {
        UpdateAction::ParseCalibration(record) => assert_eq!(record, content),
        _ => panic!("expected a parse"),
    }
    session
}

#[test]
fn topic_name_is_label_with_json_suffix() {
    let req = request(vec![("actor_channel_selected", ParamValue::Text("C".to_string()))]);
    assert_eq!(calibration_topic(&req.arguments), Ok("C.json".to_string()));
}

#[test]
fn missing_channel_argument_ends_without_read() {
    let (session, action) = UpdateSession::start(request(vec![("raw_value", ParamValue::U64(1))]));
    assert!(matches!(session.stage, Stage::Done));
    let (notice, m) = message_of(action);
    assert_eq!(notice, None);
    assert_eq!(
        m,
        "Error - There is problem in your 'actor_channel_selected', you probably forgot it."
    );
}

#[test]
fn channel_argument_of_wrong_type_is_missing() {
    let req = request(vec![("actor_channel_selected", ParamValue::U32(1))]);
    assert_eq!(calibration_topic(&req.arguments), Err(UpdateError::MissingArgument));
}

#[test]
fn voltage_scenario_composes_write_command() {
    let session = until_parse(request(vec![
        channel_a(),
        ("voltage_value", ParamValue::F64Bits(2.5f64.to_bits())),
    ]));
    let (session, action) = session.step(UpdateEvent::CalibrationParsed(Ok("A".to_string())));
    match action {
        UpdateAction::ScaleVoltage(v) => {
            assert_eq!(v, VoltageInput::F64Bits(2.5f64.to_bits()))
        }
        _ => panic!("expected a scale"),
    }
    let scaled = ((2.5f64 - 0.0) * 65535.0 / (5.0 - 0.0)).round() as u32;
    assert_eq!(scaled, 32768);
    let (session, action) = session.step(UpdateEvent::VoltageScaled(scaled));
    assert!(matches!(session.stage, Stage::Done));
    match action {
        UpdateAction::Finish { notice: None, reply: Reply::Command(c) } => {
            let p = c.parameters();
            assert_eq!(p.get("value"), Some(&ParamValue::U32(32768)));
            assert_eq!(p.get("dac_channel_code"), Some(&ParamValue::U32(0)));
            assert_eq!(p.get("command"), Some(&ParamValue::U32(3)));
            assert_eq!(p.get("tx_enable"), Some(&ParamValue::Bool(true)));
            assert_eq!(p.get("board"), Some(&ParamValue::Text("slow".to_string())));
            assert_eq!(c.followups().len(), 1);
            assert_eq!(c.followups()[0].function_name, "tx_disable");
            assert_eq!(c.followups()[0].actor_name, "dac_actor");
        }
        _ => panic!("expected a command"),
    }
}

#[test]
fn raw_value_scenario_ignores_calibration() {
    let session = until_parse(request(vec![
        channel_a(),
        ("raw_value", ParamValue::U64(1000)),
        ("voltage_value", ParamValue::U64(4)),
    ]));
    let (session, action) = session.step(UpdateEvent::CalibrationParsed(Ok("H".to_string())));
    assert!(matches!(session.stage, Stage::Done));
    match action {
        UpdateAction::Finish { notice: None, reply: Reply::Command(c) } => {
            assert_eq!(c.parameters().get("value"), Some(&ParamValue::U32(1000)));
            assert_eq!(c.parameters().get("dac_channel_code"), Some(&ParamValue::U32(7)));
        }
        _ => panic!("expected a command"),
    }
}

#[test]
fn invalid_channel_label_is_reported() {
    let session = until_parse(request(vec![channel_a(), ("raw_value", ParamValue::U64(5))]));
    let (_, action) = session.step(UpdateEvent::CalibrationParsed(Ok("Z".to_string())));
    let (notice, m) = message_of(action);
    assert_eq!(notice, None);
    assert_eq!(m, "Error - Invalid board channel index. Valid is [A-H].");
}

#[test]
fn value_error_comes_before_channel_error() {
    let session = until_parse(request(vec![channel_a()]));
    let (_, action) = session.step(UpdateEvent::CalibrationParsed(Ok("Z".to_string())));
    let (_, m) = message_of(action);
    assert_eq!(m, "Error - There is problem in your value linked function parameters.");
}

#[test]
fn failed_read_is_reported() {
    let (session, _) = UpdateSession::start(request(vec![channel_a()]));
    let (session, action) = session.step(UpdateEvent::TopicRead(None));
    assert!(matches!(session.stage, Stage::Done));
    let (notice, m) = message_of(action);
    assert_eq!(notice, None);
    assert_eq!(m, "Error - Failed to read the file.");
}

#[test]
fn parse_failure_embeds_content_and_detail_and_notifies() {
    let (session, _) = UpdateSession::start(request(vec![channel_a()]));
    let (session, _) = session.step(UpdateEvent::TopicRead(Some("not json".to_string())));
    let (session, action) =
        session.step(UpdateEvent::CalibrationParsed(Err("expected value".to_string())));
    assert!(matches!(session.stage, Stage::Done));
    let (notice, m) = message_of(action);
    assert_eq!(notice, Some("not json".to_string()));
    assert_eq!(m, "Error : Failed to load channel specs.\nnot json\nexpected value");
}

#[test]
fn event_out_of_order_is_reported() {
    let (session, _) = UpdateSession::start(request(vec![channel_a()]));
    let (session, action) = session.step(UpdateEvent::VoltageScaled(3));
    assert!(matches!(session.stage, Stage::Done));
    let (_, m) = message_of(action);
    assert_eq!(m, UpdateError::UnexpectedEvent.message());
}
