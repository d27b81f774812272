use stripelistener::{
    ack_json, dispatch_text, read_step, Action, Frame, LogLevel,
};

const WEBHOOK_FRAME: &str = r#"{"type":"webhook_event","webhook_id":"wh_1","webhook_conversation_id":"wc_1","event_payload":"{\"id\":\"evt_1\",\"type\":\"charge.succeeded\",\"created\":1000,\"livemode\":false}"}"#;

fn warning(actions: &[Action]) -> Option<String> {
    match actions {
        [Action::Log(LogLevel::Warn, t)] => Some(t.clone()),
        _ => None,
    }
}

#[test]
fn webhook_frame_acks_then_calls_back() {
    let actions = dispatch_text(WEBHOOK_FRAME);
    assert_eq!(actions.len(), 2);
    match &actions[0] {
        Action::Send(t) => assert_eq!(
            t,
            r#"{"type":"event_ack","event_id":"evt_1","webhook_conversation_id":"wc_1","webhook_id":"wh_1"}"#
        ),
        _ => panic!("the first action is not the acknowledgment"),
    }
    match &actions[1] {
        Action::Webhook(e, p) => {
            assert_eq!(p.event_type, "charge.succeeded");
            assert_eq!(p.id, "evt_1");
            assert_eq!(p.created, 1000);
            assert!(!p.livemode);
            assert_eq!(e.webhook_id, "wh_1");
            assert_eq!(e.webhook_conversation_id, "wc_1");
            assert!(e.extra.is_empty());
        }
        _ => panic!("the second action is not the webhook callback"),
    }
}

#[test]
fn webhook_extra_fields_are_kept() {
    let text = r#"{"type":"webhook_event","webhook_id":"wh_2","webhook_conversation_id":"wc_2","event_payload":"{\"id\":\"evt_2\",\"type\":\"a.b\",\"created\":5,\"livemode\":true}","endpoint":{"url":"http://x"},"n":3}"#;
    let actions = dispatch_text(text);
    match &actions[1] {
        Action::Webhook(e, p) => {
            assert_eq!(e.extra.len(), 2);
            assert!(e.extra.contains_key("endpoint"));
            assert!(e.extra.contains_key("n"));
            assert!(p.livemode);
        }
        _ => panic!("expected the webhook callback"),
    }
}

#[test]
fn v2_frame_acks_with_destination_and_empty_conversation() {
    let text = r#"{"type":"v2_event","destination_id":"ed_9","payload":"{\"id\":\"evt_v2\",\"type\":\"v2.core.thing\"}"}"#;
    let actions = dispatch_text(text);
    assert_eq!(actions.len(), 2);
    match &actions[0] {
        Action::Send(t) => assert_eq!(
            t,
            r#"{"type":"event_ack","event_id":"evt_v2","webhook_conversation_id":"","webhook_id":"ed_9"}"#
        ),
        _ => panic!("the first action is not the acknowledgment"),
    }
    match &actions[1] {
        Action::V2(e, p) => {
            assert_eq!(e.destination_id, "ed_9");
            assert_eq!(p.id, "evt_v2");
            assert_eq!(p.event_type, "v2.core.thing");
        }
        _ => panic!("the second action is not the v2 callback"),
    }
}

#[test]
fn unknown_kind_goes_to_unknown_callback_untouched() {
    let actions = dispatch_text(r#"{"type":"cli_notice","message":"hi","level":2}"#);
    assert_eq!(actions.len(), 1);
    match &actions[0] {
        Action::Unknown(kind, data) => {
            assert_eq!(kind, "cli_notice");
            assert_eq!(data.len(), 2);
            assert_eq!(data.get("message").and_then(|v| v.as_str()), Some("hi"));
            assert_eq!(data.get("level").and_then(|v| v.as_u64()), Some(2));
            assert!(!data.contains_key("type"));
        }
        _ => panic!("expected the unknown-message callback"),
    }
}

#[test]
fn unparsable_event_payload_is_dropped_with_a_warning() {
    let text = r#"{"type":"webhook_event","webhook_id":"wh_1","webhook_conversation_id":"wc_1","event_payload":"not json"}"#;
    let actions = dispatch_text(text);
    assert_eq!(warning(&actions).as_deref(), Some("could not parse event_payload"));
}

#[test]
fn event_payload_missing_a_field_is_dropped_with_a_warning() {
    let text = r#"{"type":"webhook_event","webhook_id":"wh_1","webhook_conversation_id":"wc_1","event_payload":"{\"id\":\"evt_1\",\"type\":\"x\",\"livemode\":false}"}"#;
    let actions = dispatch_text(text);
    assert_eq!(warning(&actions).as_deref(), Some("could not parse event_payload"));
}

#[test]
fn negative_created_is_not_an_event() {
    let text = r#"{"type":"webhook_event","webhook_id":"wh_1","webhook_conversation_id":"wc_1","event_payload":"{\"id\":\"evt_1\",\"type\":\"x\",\"created\":-1,\"livemode\":false}"}"#;
    let actions = dispatch_text(text);
    assert_eq!(warning(&actions).as_deref(), Some("could not parse event_payload"));
}

#[test]
fn unparsable_v2_payload_is_dropped_with_a_warning() {
    let text = r#"{"type":"v2_event","destination_id":"ed_1","payload":"{\"id\":7}"}"#;
    let actions = dispatch_text(text);
    assert_eq!(warning(&actions).as_deref(), Some("could not parse v2 payload"));
}

#[test]
fn webhook_envelope_missing_a_field_gives_nothing() {
    let text = r#"{"type":"webhook_event","webhook_id":"wh_1","event_payload":"{}"}"#;
    assert!(dispatch_text(text).is_empty());
}

#[test]
fn v2_envelope_missing_a_field_gives_nothing() {
    assert!(dispatch_text(r#"{"type":"v2_event","payload":"{}"}"#).is_empty());
}

#[test]
fn malformed_frames_give_a_warning() {
    for text in ["not json", "[1,2]", r#"{"kind":"webhook_event"}"#, r#"{"type":3}"#] {
        assert_eq!(warning(&dispatch_text(text)).as_deref(), Some("malformed message"));
    }
}

#[test]
fn ack_identifiers_are_escaped() {
    assert_eq!(
        ack_json("e\"1", "c\\2", "w\n3"),
        r#"{"type":"event_ack","event_id":"e\"1","webhook_conversation_id":"c\\2","webhook_id":"w\n3"}"#
    );
}

#[test]
fn close_and_errors_stop_reading() {
    let close = read_step(Frame::Close);
    assert!(close.stop);
    assert!(matches!(&close.actions[..], [Action::Log(LogLevel::Info, t)] if t == "websocket closed"));
    let err = read_step(Frame::Error("reset".to_string()));
    assert!(err.stop);
    assert!(matches!(&err.actions[..], [Action::Log(LogLevel::Error, t)] if t == "read error: reset"));
    let other = read_step(Frame::Other);
    assert!(!other.stop);
    assert!(other.actions.is_empty());
}

#[test]
fn text_frames_are_dispatched_and_reading_goes_on() {
    let step = read_step(Frame::Text(WEBHOOK_FRAME.to_string()));
    assert!(!step.stop);
    assert_eq!(step.actions.len(), 2);
    assert!(matches!(step.actions[0], Action::Send(_)));
}
