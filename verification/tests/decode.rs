use pls::decode::{
    decode_history, decode_server_info, decode_session, encode_session, normalize, DecodeError,
};
use pls::json::JsonValue;
use pls::model::{Outcome, PlexSession, PlexpyData, SessionType};

fn s(text: &str) -> JsonValue {
    JsonValue::Str(String::from(text))
}

fn session_fields(title: &str) -> Vec<(String, JsonValue)> {
    vec![
        (String::from("container"), s("mkv")),
        (String::from("full_title"), s(title)),
        (String::from("ip_address_public"), s("203.0.113.7")),
        (String::from("media_type"), s("movie")),
        (String::from("platform"), s("Chrome")),
        (String::from("player"), s("Web Player")),
        (String::from("quality_profile"), s("1080p")),
        (String::from("state"), s("playing")),
        (String::from("transcode_container"), s("")),
        (String::from("user"), s("alice")),
        (String::from("secure"), JsonValue::Int(1)),
        (String::from("progress_percent"), s("50")),
    ]
}

fn activity_payload(sessions: Vec<JsonValue>) -> JsonValue {
    JsonValue::Obj(vec![
        (String::from("sessions"), JsonValue::Arr(sessions)),
        (String::from("stream_count"), s("1")),
        (String::from("total_bandwidth"), JsonValue::Int(100)),
        (String::from("stream_count_transcode"), JsonValue::Int(0)),
        (String::from("wan_bandwidth"), JsonValue::Int(60)),
        (String::from("stream_count_direct_play"), JsonValue::Int(1)),
        (String::from("lan_bandwidth"), JsonValue::Int(40)),
        (String::from("stream_count_direct_stream"), JsonValue::Int(0)),
    ])
}

fn body(message: JsonValue, result: JsonValue, data: Option<JsonValue>) -> JsonValue {
    let mut fields = vec![(String::from("message"), message), (String::from("result"), result)];
    if let Some(d) = data {
        fields.push((String::from("data"), d));
    }
    JsonValue::Obj(vec![(String::from("response"), JsonValue::Obj(fields))])
}

fn sample_session(session_type: Option<SessionType>) -> PlexSession {
    PlexSession {
        container: String::from("mkv"),
        full_title: String::from("Test Movie"),
        ip_address_public: String::from("203.0.113.7"),
        media_type: String::from("movie"),
        platform: String::from("Chrome"),
        player: String::from("Web Player"),
        quality_profile: String::from("1080p"),
        state: String::from("playing"),
        transcode_container: String::new(),
        user: String::from("alice"),
        session_type,
        progress_percent: String::from("50"),
    }
}

#[test]
fn error_message_wins_over_result_field() {
    let b = body(s("Invalid apikey"), s("success"), None);
    let info = decode_server_info(&b).unwrap();
    match normalize(info.response) {
        Outcome::Error(m) => assert_eq!(m, "Invalid apikey"),
        other => panic!("expected an error outcome, got {:?}", other),
    }
}

#[test]
fn empty_object_data_with_error_message_is_an_error() {
    let b = body(s("Invalid apikey"), s("success"), Some(JsonValue::Obj(vec![])));
    let info = decode_server_info(&b).unwrap();
    match normalize(info.response) {
        Outcome::Error(m) => assert_eq!(m, "Invalid apikey"),
        other => panic!("expected an error outcome, got {:?}", other),
    }
}

#[test]
fn empty_object_data_without_message_is_empty() {
    let b = body(s(""), s("success"), Some(JsonValue::Obj(vec![])));
    let info = decode_server_info(&b).unwrap();
    assert_eq!(normalize(info.response), Outcome::Empty);
}

#[test]
fn absent_data_without_message_is_empty() {
    let b = body(s(""), s("success"), None);
    let info = decode_server_info(&b).unwrap();
    assert_eq!(normalize(info.response), Outcome::Empty);
}

#[test]
fn null_message_normalizes_to_empty_string() {
    let b = body(JsonValue::Null, s("success"), None);
    let info = decode_server_info(&b).unwrap();
    assert_eq!(info.response.message, "");
    assert_eq!(normalize(info.response), Outcome::Empty);
}

#[test]
fn empty_session_list_renders_not_errors() {
    let b = body(s(""), s("success"), Some(activity_payload(vec![])));
    let info = decode_server_info(&b).unwrap();
    match normalize(info.response) {
        Outcome::Render(PlexpyData::Activity(a)) => assert!(a.sessions.is_empty()),
        other => panic!("expected an activity payload, got {:?}", other),
    }
}

#[test]
fn activity_with_sessions_decodes_each_in_order() {
    let payload = activity_payload(vec![
        JsonValue::Obj(session_fields("First")),
        JsonValue::Obj(session_fields("Second")),
    ]);
    let b = body(s(""), s("success"), Some(payload));
    let info = decode_server_info(&b).unwrap();
    match normalize(info.response) {
        Outcome::Render(PlexpyData::Activity(a)) => {
            assert_eq!(a.sessions.len(), 2);
            assert_eq!(a.sessions[0].full_title, "First");
            assert_eq!(a.sessions[1].full_title, "Second");
            assert_eq!(a.sessions[0].session_type, Some(SessionType::Secure));
        },
        other => panic!("expected an activity payload, got {:?}", other),
    }
}

#[test]
fn history_payload_decodes_records() {
    let entry = JsonValue::Obj(vec![
        (String::from("full_title"), s("First Show")),
        (String::from("player"), s("Web")),
        (String::from("user"), s("alice")),
        (String::from("duration"), JsonValue::Int(1242)),
    ]);
    let payload = JsonValue::Obj(vec![
        (String::from("recordsTotal"), JsonValue::Int(1)),
        (String::from("data"), JsonValue::Arr(vec![entry])),
    ]);
    let b = body(s(""), s("success"), Some(payload));
    let info = decode_server_info(&b).unwrap();
    match normalize(info.response) {
        Outcome::Render(PlexpyData::History(h)) => {
            assert_eq!(h.records_total, 1);
            assert_eq!(h.history.len(), 1);
            assert_eq!(h.history[0].full_title, "First Show");
            assert_eq!(h.history[0].duration, 1242);
        },
        other => panic!("expected a history payload, got {:?}", other),
    }
}

#[test]
fn negative_duration_is_a_shape_error() {
    let entry = JsonValue::Obj(vec![
        (String::from("full_title"), s("First Show")),
        (String::from("player"), s("Web")),
        (String::from("user"), s("alice")),
        (String::from("duration"), JsonValue::Int(-5)),
    ]);
    let payload = JsonValue::Obj(vec![
        (String::from("recordsTotal"), JsonValue::Int(1)),
        (String::from("data"), JsonValue::Arr(vec![entry])),
    ]);
    assert_eq!(decode_history(&payload), Err(DecodeError::PayloadShape));
}

#[test]
fn unrecognizable_data_is_a_payload_shape_error() {
    let b = body(s(""), s("success"), Some(s("nonsense")));
    assert_eq!(decode_server_info(&b), Err(DecodeError::PayloadShape));
    assert_eq!(DecodeError::PayloadShape.describe(), "unrecognized payload shape");
}

#[test]
fn non_object_body_is_an_envelope_error() {
    assert_eq!(decode_server_info(&JsonValue::Null), Err(DecodeError::EnvelopeShape));
    let no_response = JsonValue::Obj(vec![(String::from("status"), s("ok"))]);
    assert_eq!(decode_server_info(&no_response), Err(DecodeError::EnvelopeShape));
    let bad_message = body(JsonValue::Int(3), s("success"), None);
    assert_eq!(decode_server_info(&bad_message), Err(DecodeError::EnvelopeShape));
    assert_eq!(DecodeError::EnvelopeShape.describe(), "malformed response envelope");
}

#[test]
fn session_type_field_readings() {
    let mut fields = session_fields("Test Movie");
    fields[10].1 = JsonValue::Int(0);
    let decoded = decode_session(&JsonValue::Obj(fields)).unwrap();
    assert_eq!(decoded.session_type, Some(SessionType::Insecure));

    let mut fields = session_fields("Test Movie");
    fields[10].1 = JsonValue::Null;
    let decoded = decode_session(&JsonValue::Obj(fields)).unwrap();
    assert_eq!(decoded.session_type, None);

    let mut fields = session_fields("Test Movie");
    fields[10].1 = JsonValue::Int(7);
    assert_eq!(decode_session(&JsonValue::Obj(fields)), Err(DecodeError::PayloadShape));
}

#[test]
fn session_round_trip_without_session_type() {
    let session = sample_session(None);
    let encoded = encode_session(&session);
    let decoded = decode_session(&encoded).unwrap();
    assert_eq!(decoded, session);
    assert!(decoded.session_type.is_none());
}

#[test]
fn session_round_trip_with_session_type() {
    for t in [SessionType::Insecure, SessionType::Secure] {
        let session = sample_session(Some(t));
        let encoded = encode_session(&session);
        let decoded = decode_session(&encoded).unwrap();
        assert_eq!(decoded, session);
    }
}

#[test]
fn session_missing_field_is_an_error() {
    let mut fields = session_fields("Test Movie");
    fields.remove(0);
    assert_eq!(decode_session(&JsonValue::Obj(fields)), Err(DecodeError::PayloadShape));
}
