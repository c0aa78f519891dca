use sensor_data_server::mqtt_handler::{
    bundle_store_action,
    mq_event_action, payload_text, publish_steps, ErrorHandling, MqAction, MqEvent,
    PayloadError, PayloadKind, PublishResult, PublishRun, PublishStep, StoreAction, TopicNames,
    AbortReason,
};
use sensor_data_server::mqtt_lexer::{
    char_index_at_byte_exec, first_token_of, is_whitespace, Cursor, Parser, SegmentKind,
    TokenKind, TopicRouter,
};
use sensor_data_server::text::{str_contains, str_eq};
use sensor_data_server::wire;

#[test]
fn url_router_test() {}

#[test]
fn lexer_reads_ident_then_slash() {
    let mut c = Cursor::new("route_1/part");
    let t = c.advance_token();
    assert_eq!(t.kind, TokenKind::Ident);
    assert_eq!(t.len, 7);
    let t = c.advance_token();
    assert_eq!(t.kind, TokenKind::Slash);
    assert_eq!(t.len, 8);
    let t = c.advance_token();
    assert_eq!(t.kind, TokenKind::Ident);
    assert_eq!(t.len, 12);
    let t = c.advance_token();
    assert_eq!(t.kind, TokenKind::EOF);
    assert_eq!(t.len, 0);
    assert!(c.is_eof());
}

#[test]
fn lexer_punctuation_and_unknown() {
    let kinds = [
        ("[", TokenKind::OpenSquareBrace),
        ("]", TokenKind::CloseSquareBrace),
        ("{", TokenKind::OpenCurlyBrace),
        ("}", TokenKind::CloseCurlyBrace),
        ("|", TokenKind::Pipe),
        ("/", TokenKind::Slash),
        ("9", TokenKind::Unknown),
        ("-", TokenKind::Unknown),
    ];
    for (s, k) in kinds {
        let t = first_token_of(s);
        assert_eq!(t.kind, k);
        assert_eq!(t.len, 1);
    }
}

#[test]
fn lexer_whitespace_counts_bytes() {
    // U+00A0 (two bytes) and U+3000 (three bytes) are whitespace.
    let t = first_token_of(" \u{a0}\u{3000}x");
    assert_eq!(t.kind, TokenKind::Whitespace);
    assert_eq!(t.len, 6);
    // A multi-byte unknown character counts all its bytes.
    let t = first_token_of("\u{e9}abc");
    assert_eq!(t.kind, TokenKind::Unknown);
    assert_eq!(t.len, 2);
}

#[test]
fn whitespace_matches_std() {
    for u in 0u32..0x11000 {
        if let Some(c) = char::from_u32(u) {
            assert_eq!(is_whitespace(c), c.is_whitespace(), "char {:x}", u);
        }
    }
}

#[test]
fn cursor_first_second_bump_as_str() {
    let mut c = Cursor::new("ab");
    assert_eq!(c.first(), 'a');
    assert_eq!(c.second(), 'b');
    assert_eq!(c.bump(), Some('a'));
    assert_eq!(c.as_str(), "b");
    assert_eq!(c.second(), '\0');
    assert_eq!(c.bump(), Some('b'));
    assert_eq!(c.first(), '\0');
    assert_eq!(c.bump(), None);
    assert_eq!(c.pos_within_token(), 2);
}

#[test]
fn cursor_eat_until() {
    let mut c = Cursor::new("abc/def");
    c.eat_until(b'/');
    assert_eq!(c.as_str(), "/def");
    let mut c = Cursor::new("abc");
    c.eat_until(b'/');
    assert_eq!(c.as_str(), "");
    let mut c = Cursor::new("ab\u{e9}cd");
    c.eat_until(0xC3);
    assert_eq!(c.as_str(), "\u{e9}cd");
}

#[test]
fn parser_reads_leading_identifier() {
    let mut p = Parser::new("x");
    match p.advance_parser("sensor/temp") {
        Some(SegmentKind::Str(s)) => assert_eq!(s, "sensor"),
        _ => panic!("expected an identifier segment"),
    }
    assert!(p.advance_parser("").is_none());
}

#[test]
fn router_parse_route_ends() {
    let mut r = TopicRouter::new();
    r.parse_route("abc");
    r.parse_route("");
    r.add_route("abc");
    assert!(r.nodes.is_empty());
    assert!(r.root.is_none());
}

#[test]
fn char_index_of_byte_offsets() {
    let chars: Vec<char> = "a\u{e9}b".chars().collect();
    assert_eq!(char_index_at_byte_exec(&chars, 0), Some(0));
    assert_eq!(char_index_at_byte_exec(&chars, 1), Some(1));
    assert_eq!(char_index_at_byte_exec(&chars, 2), None);
    assert_eq!(char_index_at_byte_exec(&chars, 3), Some(2));
    assert_eq!(char_index_at_byte_exec(&chars, 4), Some(3));
    assert_eq!(char_index_at_byte_exec(&chars, 5), None);
}

#[test]
fn text_helpers() {
    assert!(str_contains("sensor/42/temperature", "temperature"));
    assert!(str_contains("abc", ""));
    assert!(!str_contains("abc", "abcd"));
    assert!(!str_contains("sensor/42/humidity", "temp"));
    assert!(str_eq("co2", "co2"));
    assert!(!str_eq("co2", "Co2"));
}

fn names() -> TopicNames {
    TopicNames {
        chip_temp: "chip_temperature".to_string(),
        temp: "temperature".to_string(),
        humidity: "humidity".to_string(),
        air_pressure: "airpressure".to_string(),
        light_intensity: "lightintensity".to_string(),
        battery_voltage: "battery_voltage".to_string(),
        co2: "co2".to_string(),
        measurement_bundle: "measurements".to_string(),
        error: "error".to_string(),
    }
}

#[test]
fn publish_steps_follow_topic_substrings() {
    let n = names();
    // "chip_temperature" contains "temperature" too: both steps run, chip first.
    assert_eq!(
        publish_steps("sensor/42/chip_temperature", &n),
        vec![PublishStep::ChipTemperature, PublishStep::Temperature]
    );
    assert_eq!(publish_steps("sensor/42/co2", &n), vec![PublishStep::Co2]);
    assert_eq!(publish_steps("sensor/42/nothing", &n), Vec::<PublishStep>::new());
}

#[test]
fn publish_step_table() {
    assert_eq!(PublishStep::LightIntensity.store_action(), StoreAction::AirPressure);
    assert_eq!(PublishStep::Co2.payload_kind(), PayloadKind::SingleCo2Measure);
    assert_eq!(
        PublishStep::MeasurementBundle.payload_kind(),
        PayloadKind::TypedSimpleMeasurements
    );
    assert_eq!(PublishStep::SensorError.payload_kind(), PayloadKind::SensorError);
    assert_eq!(PublishStep::Humidity.payload_kind(), PayloadKind::SingleSimpleMeasure);
}

#[test]
fn publish_run_collects_and_logs() {
    let n = names();
    let mut run = PublishRun::new("sensor/humidity/co2", &n);
    assert_eq!(run.next_step(), Some(PublishStep::Humidity));
    assert_eq!(run.record_store_result(false), ErrorHandling::Collect);
    assert_eq!(run.next_step(), Some(PublishStep::Co2));
    assert_eq!(run.record_store_result(false), ErrorHandling::Log);
    assert_eq!(run.next_step(), None);
    assert_eq!(run.result(), PublishResult::Failed(1));
}

#[test]
fn publish_run_ok_and_aborts() {
    let n = names();
    let mut run = PublishRun::new("sensor/humidity", &n);
    assert_eq!(run.record_store_result(true), ErrorHandling::Nothing);
    assert_eq!(run.result(), PublishResult::Handled);

    let mut run = PublishRun::new("sensor/humidity/error", &n);
    run.record_extraction_failure();
    assert_eq!(run.next_step(), None);
    assert_eq!(run.result(), PublishResult::Aborted(AbortReason::Extraction));

    let mut run = PublishRun::new("sensor/measurements", &n);
    assert_eq!(run.record_store_result(false), ErrorHandling::ReturnNow);
    assert_eq!(run.result(), PublishResult::Aborted(AbortReason::Store));
}

#[test]
fn mq_events() {
    assert_eq!(mq_event_action(MqEvent::IncomingPublish), MqAction::HandlePublish);
    assert_eq!(mq_event_action(MqEvent::Other), MqAction::Continue);
    assert_eq!(mq_event_action(MqEvent::ConnectionAborted), MqAction::LogErrorAndDisconnect);
    assert_eq!(mq_event_action(MqEvent::OtherError), MqAction::LogError);
}

#[test]
fn payload_utf8() {
    assert_eq!(payload_text(b"{\"a\":1}".to_vec()), Ok("{\"a\":1}".to_string()));
    assert_eq!(payload_text(vec![0xff, 0xfe]), Err(PayloadError::InvalidUtf8));
}

#[test]
fn each_step_runs_at_most_once() {
    let n = names();
    let steps = publish_steps("temperature/humidity/temperature/co2/error", &n);
    assert_eq!(
        steps,
        vec![PublishStep::Temperature, PublishStep::Humidity, PublishStep::Co2, PublishStep::SensorError]
    );
}

#[test]
fn lexer_always_makes_progress() {
    for text in ["a", "/", "\u{3000}x", "\u{e9}", "abc def", "??"] {
        let t = first_token_of(text);
        assert_ne!(t.kind, TokenKind::EOF);
        assert!(t.len >= 1 && (t.len as usize) <= text.len());
    }
    let t = first_token_of("");
    assert_eq!((t.kind, t.len), (TokenKind::EOF, 0));
}

#[test]
fn bundled_readings_use_the_topic_stores() {
    use_bundle_cases();
}

fn use_bundle_cases() {
    let cases = [
        (wire::SensorType::Temperature, Some(StoreAction::Temperature)),
        (wire::SensorType::Humidity, Some(StoreAction::Humidity)),
        (wire::SensorType::Airpressure, Some(StoreAction::AirPressure)),
        (wire::SensorType::LightIntensity, Some(StoreAction::AirPressure)),
        (wire::SensorType::BatteryVoltage, Some(StoreAction::BatteryVoltage)),
        (wire::SensorType::ChipTemperature, Some(StoreAction::ChipTemperature)),
        (wire::SensorType::Co2, None),
    ];
    for (t, action) in cases {
        assert_eq!(bundle_store_action(t), action);
    }
    assert_eq!(PublishStep::LightIntensity.store_action(), StoreAction::AirPressure);
}
