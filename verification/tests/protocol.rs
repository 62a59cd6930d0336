use lola::lcu_driver::{decode_rpc_body, LcuDriverConfig};
use lola::ws::{
    decode_event, frame_payload, subscribe_message, ws_url, EventSession, OnJsonApiEventData,
    WsIncoming,
};

fn args(list: &[&str]) -> Vec<String> {
    list.iter().map(|s| s.to_string()).collect()
}

#[test]
fn cmdline_with_both_flags_is_accepted() {
    let cmd = args(&[
        "LeagueClientUx.exe",
        "--app-port=8080",
        "--remoting-auth-token=sEcReT",
        "--locale=en_US",
    ]);
    let config = LcuDriverConfig::from_cmdline(&cmd).unwrap();
    assert_eq!(config.remoting_app_port, 8080);
    assert_eq!(config.auth_token, "sEcReT");
}

#[test]
fn later_flag_occurrences_win() {
    let cmd = args(&["--app-port=1", "--app-port=2", "--remoting-auth-token=t"]);
    let config = LcuDriverConfig::from_cmdline(&cmd).unwrap();
    assert_eq!(config.remoting_app_port, 2);
}

#[test]
fn empty_cmdline_is_rejected() {
    let err = LcuDriverConfig::from_cmdline(&Vec::new()).unwrap_err();
    assert_eq!(err, "League of Legends client command line is null.");
}

#[test]
fn missing_port_flag_is_rejected() {
    let cmd = args(&["LeagueClientUx.exe", "--remoting-auth-token=t"]);
    let err = LcuDriverConfig::from_cmdline(&cmd).unwrap_err();
    assert_eq!(err, "League of Legends client did not expose a usable app port.");
}

#[test]
fn malformed_port_values_are_rejected() {
    for bad in ["--app-port=", "--app-port=abc", "--app-port=65536", "--app-port=0"] {
        let cmd = args(&[bad, "--remoting-auth-token=t"]);
        assert!(LcuDriverConfig::from_cmdline(&cmd).is_err(), "{bad} should be rejected");
    }
    let cmd = args(&["--app-port=65535", "--remoting-auth-token=t"]);
    assert_eq!(LcuDriverConfig::from_cmdline(&cmd).unwrap().remoting_app_port, 65535);
}

#[test]
fn missing_or_empty_token_is_rejected() {
    let cmd = args(&["--app-port=443"]);
    let err = LcuDriverConfig::from_cmdline(&cmd).unwrap_err();
    assert_eq!(err, "League of Legends client did not expose an auth token.");
    let cmd = args(&["--app-port=443", "--remoting-auth-token="]);
    assert!(LcuDriverConfig::from_cmdline(&cmd).is_err());
}

#[test]
fn request_urls_resolve_against_the_local_base() {
    let config = LcuDriverConfig { remoting_app_port: 443, auth_token: "t".to_string() };
    assert_eq!(config.http_base_url(), "https://127.0.0.1:443");
    assert_eq!(
        config.request_url("/lol-summoner/v1/current-summoner"),
        "https://127.0.0.1:443/lol-summoner/v1/current-summoner"
    );
    assert_eq!(ws_url(&config), "wss://localhost:443");
}

#[test]
fn auth_header_is_basic_base64() {
    let config = LcuDriverConfig { remoting_app_port: 443, auth_token: "token".to_string() };
    // base64("riot:token")
    assert_eq!(config.auth_header_value(), "Basic cmlvdDp0b2tlbg==");
}

#[test]
fn empty_body_resolves_to_null_not_error() {
    assert!(decode_rpc_body("").is_none());
}

#[test]
fn json_bodies_resolve_to_their_value() {
    let v = decode_rpc_body("{\"ok\":true}").unwrap();
    assert_eq!(v["ok"].as_bool(), Some(true));
    assert!(decode_rpc_body("not json at all").is_none());
}

#[test]
fn subscribe_message_is_the_protocol_literal() {
    assert_eq!(subscribe_message(), "[5, \"OnJsonApiEvent\"]");
}

#[test]
fn frame_payload_strips_envelope_and_trailing_character() {
    let frame = "[8,\"OnJsonApiEvent\",{\"uri\":\"/x\"}]";
    assert_eq!(frame_payload(frame).unwrap(), "{\"uri\":\"/x\"}");
    // a frame without the envelope prefix only loses its trailing character
    assert_eq!(frame_payload("ab").unwrap(), "a");
    assert!(frame_payload("").is_none());
}

#[test]
fn decode_event_reads_the_envelope() {
    let mut frame = String::from("[8,\"OnJsonApiEvent\",");
    frame.push_str("{\"uri\":\"/lol-champ-select/v1/session\",\"eventType\":\"Update\",");
    frame.push_str("\"data\":{\"n\":1}}]");
    let event = decode_event(&frame).unwrap();
    assert!(!event.closed);
    assert_eq!(event.uri, "/lol-champ-select/v1/session");
    assert_eq!(event.event_type, "Update");
    assert_eq!(event.data["n"].as_i64(), Some(1));
}

#[test]
fn malformed_frames_are_dropped_silently() {
    assert!(decode_event("").is_none());
    assert!(decode_event("[8,\"OnJsonApiEvent\",oops]").is_none());
    // valid JSON but not an event envelope
    assert!(decode_event("[8,\"OnJsonApiEvent\",{\"uri\":7}]").is_none());
    assert!(decode_event("{\"no\":\"envelope\"}x").is_none());
    // a data member is required too
    assert!(decode_event("[8,\"OnJsonApiEvent\",{\"uri\":\"/x\",\"eventType\":\"U\"}]").is_none());
}

#[test]
fn synthetic_closed_event_shape() {
    let e = OnJsonApiEventData::closed();
    assert!(e.closed);
    assert_eq!(e.uri, "");
    assert_eq!(e.event_type, "");
    assert!(e.data.is_null());
}

#[test]
fn close_frame_emits_exactly_one_closed_event() {
    let mut session = EventSession::new();
    let first = session.on_incoming(WsIncoming::Close).unwrap();
    assert!(first.closed);
    // after that, nothing more comes out, whatever arrives
    assert!(session.on_incoming(WsIncoming::Close).is_none());
    assert!(session.on_incoming(WsIncoming::ReadError).is_none());
    assert!(session
        .on_incoming(WsIncoming::Text("[8,\"OnJsonApiEvent\",{}]".to_string()))
        .is_none());
    assert!(session.on_incoming(WsIncoming::Other).is_none());
}

#[test]
fn read_error_also_closes_the_session() {
    let mut session = EventSession::new();
    let first = session.on_incoming(WsIncoming::ReadError).unwrap();
    assert!(first.closed);
    assert!(session.on_incoming(WsIncoming::Close).is_none());
}

#[test]
fn streaming_session_forwards_real_events() {
    let mut session = EventSession::new();
    let frame = "[8,\"OnJsonApiEvent\",{\"uri\":\"/x\",\"eventType\":\"Create\",\"data\":null}]";
    let event = session.on_incoming(WsIncoming::Text(frame.to_string())).unwrap();
    assert!(!event.closed);
    assert_eq!(event.uri, "/x");
    // empty frames and non-text messages are dropped, and the session stays open
    assert!(session.on_incoming(WsIncoming::Text(String::new())).is_none());
    assert!(session.on_incoming(WsIncoming::Other).is_none());
    let again = session.on_incoming(WsIncoming::Text(frame.to_string())).unwrap();
    assert_eq!(again.event_type, "Create");
}
