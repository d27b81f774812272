//! Inbound relay frames: decoding, acknowledgment and the actions they call for.
use vstd::prelude::*;
use vstd::string::StringExecFns;

use crate::json::{
    bool_member, json_object_text, json_quote_of, members, parse_object, quote, remove_member,
    string_member, text_members, u64_member, JsonObject, Members,
};
use crate::text::text_is;

verus! {

/// A frame's declared kind and the rest of its members.
pub struct IncomingMessage {
    pub msg_type: String,
    pub data: JsonObject,
}

/// A webhook delivery envelope.
pub struct WebhookEvent {
    pub webhook_id: String,
    pub webhook_conversation_id: String,
    pub event_payload: String,
    pub extra: JsonObject,
}

/// A v2 delivery envelope.
pub struct V2Event {
    pub destination_id: String,
    pub payload: String,
    pub extra: JsonObject,
}

/// The event carried, as serialized text, by a webhook delivery.
pub struct StripeEventPayload {
    pub id: String,
    pub event_type: String,
    pub created: u64,
    pub livemode: bool,
}

/// The event carried, as serialized text, by a v2 delivery.
pub struct V2EventPayload {
    pub id: String,
    pub event_type: String,
}

#[derive(PartialEq, Eq, Structural, Clone, Copy, Debug)]
pub enum LogLevel {
    Debug,
    Info,
    Warn,
    Error,
}

/// What the session has to do in answer to one frame, in order.
pub enum Action {
    /// Enqueue a text frame on the egress channel.
    Send(String),
    /// Call the handler's webhook callback.
    Webhook(WebhookEvent, StripeEventPayload),
    /// Call the handler's v2 callback.
    V2(V2Event, V2EventPayload),
    /// Call the handler's unknown-message callback.
    Unknown(String, JsonObject),
    /// Write a line to the logger.
    Log(LogLevel, String),
}

/// One item read from the socket.
pub enum Frame {
    Text(String),
    Close,
    Error(String),
    Other,
}

/// The answer to one frame: the actions, and whether reading stops.
pub struct ReadStep {
    pub actions: Vec<Action>,
    pub stop: bool,
}

/// The pluggable receiver of decoded deliveries.
pub trait EventHandler {
    fn on_webhook_event(&self, evt: WebhookEvent, parsed: StripeEventPayload);

    fn on_v2_event(&self, evt: V2Event, parsed: V2EventPayload);

    fn on_unknown_message(&self, raw_type: String, data: JsonObject);
}

/// The object has a string member `type`.
pub open spec fn decodes_incoming(o: Members) -> bool {
    o.strings.contains_key("type"@)
}

pub open spec fn incoming_decoded(msg: IncomingMessage, o: Members) -> bool {
    &&& msg.msg_type@ == o.strings["type"@]
    &&& members(msg.data) == o.without("type"@)
}

pub open spec fn decodes_webhook(o: Members) -> bool {
    &&& o.strings.contains_key("webhook_id"@)
    &&& o.strings.contains_key("webhook_conversation_id"@)
    &&& o.strings.contains_key("event_payload"@)
}

pub open spec fn webhook_decoded(e: WebhookEvent, o: Members) -> bool {
    &&& e.webhook_id@ == o.strings["webhook_id"@]
    &&& e.webhook_conversation_id@ == o.strings["webhook_conversation_id"@]
    &&& e.event_payload@ == o.strings["event_payload"@]
    &&& members(e.extra) == o.without("webhook_id"@).without("webhook_conversation_id"@).without(
        "event_payload"@,
    )
}

pub open spec fn decodes_v2(o: Members) -> bool {
    &&& o.strings.contains_key("destination_id"@)
    &&& o.strings.contains_key("payload"@)
}

pub open spec fn v2_decoded(e: V2Event, o: Members) -> bool {
    &&& e.destination_id@ == o.strings["destination_id"@]
    &&& e.payload@ == o.strings["payload"@]
    &&& members(e.extra) == o.without("destination_id"@).without("payload"@)
}

pub open spec fn decodes_event_payload(o: Members) -> bool {
    &&& o.strings.contains_key("id"@)
    &&& o.strings.contains_key("type"@)
    &&& o.u64s.contains_key("created"@)
    &&& o.bools.contains_key("livemode"@)
}

pub open spec fn event_payload_decoded(p: StripeEventPayload, o: Members) -> bool {
    &&& p.id@ == o.strings["id"@]
    &&& p.event_type@ == o.strings["type"@]
    &&& p.created == o.u64s["created"@]
    &&& p.livemode == o.bools["livemode"@]
}

pub open spec fn decodes_v2_payload(o: Members) -> bool {
    &&& o.strings.contains_key("id"@)
    &&& o.strings.contains_key("type"@)
}

pub open spec fn v2_payload_decoded(p: V2EventPayload, o: Members) -> bool {
    &&& p.id@ == o.strings["id"@]
    &&& p.event_type@ == o.strings["type"@]
}

/// The payload text is an object that decodes to a webhook event.
pub open spec fn event_payload_text_decodes(t: Seq<char>) -> bool {
    json_object_text(t) && decodes_event_payload(text_members(t))
}

/// The payload text is an object that decodes to a v2 event.
pub open spec fn v2_payload_text_decodes(t: Seq<char>) -> bool {
    json_object_text(t) && decodes_v2_payload(text_members(t))
}

/// The acknowledgment frame's text: its members in the order type,
/// event_id, webhook_conversation_id, webhook_id.
pub open spec fn ack_text(event_id: Seq<char>, conversation: Seq<char>, webhook: Seq<char>) -> Seq<char> {
    "{\"type\":\"event_ack\",\"event_id\":"@ + json_quote_of(event_id)
        + ",\"webhook_conversation_id\":"@ + json_quote_of(conversation) + ",\"webhook_id\":"@
        + json_quote_of(webhook) + "}"@
}

pub open spec fn is_log(a: Action, level: LogLevel, text: Seq<char>) -> bool {
    a matches Action::Log(l, t) && l == level && t@ == text
}

pub open spec fn is_ack(a: Action, event_id: Seq<char>, conversation: Seq<char>, webhook: Seq<char>) -> bool {
    a matches Action::Send(t) && t@ == ack_text(event_id, conversation, webhook)
}

pub open spec fn is_ack_frame(a: Action) -> bool {
    a is Send
}

/// Exactly one acknowledgment, for the webhook delivery `e` of event `p`,
/// and then the webhook callback with the same two values.
pub open spec fn ack_then_webhook(r: Seq<Action>, e: WebhookEvent, p: StripeEventPayload) -> bool {
    &&& r.len() == 2
    &&& is_ack(r[0], p.id@, e.webhook_conversation_id@, e.webhook_id@)
    &&& r[1] == Action::Webhook(e, p)
}

/// Exactly one acknowledgment, for the v2 delivery `e` of event `p`, and
/// then the v2 callback with the same two values.
pub open spec fn ack_then_v2(r: Seq<Action>, e: V2Event, p: V2EventPayload) -> bool {
    &&& r.len() == 2
    &&& is_ack(r[0], p.id@, Seq::empty(), e.destination_id@)
    &&& r[1] == Action::V2(e, p)
}

/// No action sends a frame.
pub open spec fn no_ack(r: Seq<Action>) -> bool {
    forall|i: int| 0 <= i < r.len() ==> !is_ack_frame(#[trigger] r[i])
}

/// The shape of every answer to a frame: at most two actions; where there
/// are two, an acknowledgment carrying the delivery's identifiers and then
/// the callback for that delivery; otherwise nothing is sent.
pub open spec fn protocol_answer(r: Seq<Action>) -> bool {
    &&& r.len() <= 2
    &&& r.len() != 2 ==> no_ack(r)
    &&& r.len() == 2 ==> {
        ||| (r[1] matches Action::Webhook(e, p) && ack_then_webhook(r, e, p))
        ||| (r[1] matches Action::V2(e, p) && ack_then_v2(r, e, p))
    }
}

/// The answer to a message of the given kind with the given other members.
/// A webhook or v2 delivery whose envelope and payload decode is answered by
/// the acknowledgment, carrying the event's id and the envelope's
/// identifiers, then the callback with the decoded values; one whose payload
/// does not decode, by a warning alone; one whose envelope does not decode,
/// by nothing. Any other kind goes to the unknown-message callback with the
/// members untouched.
pub open spec fn answers_message(r: Seq<Action>, kind: Seq<char>, o: Members) -> bool {
    if kind == "webhook_event"@ {
        if !decodes_webhook(o) {
            r.len() == 0
        } else {
            let t = o.strings["event_payload"@];
            if event_payload_text_decodes(t) {
                &&& r.len() == 2
                &&& is_ack(
                    r[0],
                    text_members(t).strings["id"@],
                    o.strings["webhook_conversation_id"@],
                    o.strings["webhook_id"@],
                )
                &&& r[1] matches Action::Webhook(e, p) && webhook_decoded(e, o)
                    && event_payload_decoded(p, text_members(t))
            } else {
                r.len() == 1 && is_log(r[0], LogLevel::Warn, "could not parse event_payload"@)
            }
        }
    } else if kind == "v2_event"@ {
        if !decodes_v2(o) {
            r.len() == 0
        } else {
            let t = o.strings["payload"@];
            if v2_payload_text_decodes(t) {
                &&& r.len() == 2
                &&& is_ack(
                    r[0],
                    text_members(t).strings["id"@],
                    Seq::empty(),
                    o.strings["destination_id"@],
                )
                &&& r[1] matches Action::V2(e, p) && v2_decoded(e, o) && v2_payload_decoded(
                    p,
                    text_members(t),
                )
            } else {
                r.len() == 1 && is_log(r[0], LogLevel::Warn, "could not parse v2 payload"@)
            }
        }
    } else {
        &&& r.len() == 1
        &&& r[0] matches Action::Unknown(k, d) && k@ == kind && members(d) == o
    }
}

/// The answer to a text frame: a warning where it is not an object with a
/// string `type`, else the answer to the message of that kind with the
/// object's other members.
pub open spec fn answers_text(r: Seq<Action>, t: Seq<char>) -> bool {
    if json_object_text(t) && decodes_incoming(text_members(t)) {
        answers_message(r, text_members(t).strings["type"@], text_members(t).without("type"@))
    } else {
        r.len() == 1 && is_log(r[0], LogLevel::Warn, "malformed message"@)
    }
}

/// No action calls the handler.
pub open spec fn no_callback(r: Seq<Action>) -> bool {
    forall|i: int| 0 <= i < r.len() ==> (#[trigger] r[i]) is Log
}

/// Builds the acknowledgment frame's text.
pub fn ack_json(event_id: &str, conversation: &str, webhook: &str) -> (r: String)
    ensures
        r@ == ack_text(event_id@, conversation@, webhook@),
{
    let mut s: String = "{\"type\":\"event_ack\",\"event_id\":".to_owned();
    let q1 = quote(event_id);
    s.append(q1.as_str());
    s.append(",\"webhook_conversation_id\":");
    let q2 = quote(conversation);
    s.append(q2.as_str());
    s.append(",\"webhook_id\":");
    let q3 = quote(webhook);
    s.append(q3.as_str());
    s.append("}");
    s
}

/// Splits an object into its declared kind and the rest of its members.
pub fn incoming_from_object(m: JsonObject) -> (r: Option<IncomingMessage>)
    ensures
        r is Some <==> decodes_incoming(members(m)),
        r matches Some(msg) ==> incoming_decoded(msg, members(m)),
{
    let mut data = m;
    match string_member(&data, "type") {
        None => None,
        Some(kind) => {
            remove_member(&mut data, "type");
            Some(IncomingMessage { msg_type: kind, data })
        },
    }
}

/// Reads a webhook delivery envelope out of a frame's members.
pub fn webhook_from_object(m: JsonObject) -> (r: Option<WebhookEvent>)
    ensures
        r is Some <==> decodes_webhook(members(m)),
        r matches Some(e) ==> webhook_decoded(e, members(m)),
{
    let mut extra = m;
    let webhook_id = match string_member(&extra, "webhook_id") {
        Some(v) => v,
        None => return None,
    };
    let webhook_conversation_id = match string_member(&extra, "webhook_conversation_id") {
        Some(v) => v,
        None => return None,
    };
    let event_payload = match string_member(&extra, "event_payload") {
        Some(v) => v,
        None => return None,
    };
    remove_member(&mut extra, "webhook_id");
    remove_member(&mut extra, "webhook_conversation_id");
    remove_member(&mut extra, "event_payload");
    Some(WebhookEvent { webhook_id, webhook_conversation_id, event_payload, extra })
}

/// Reads a v2 delivery envelope out of a frame's members.
pub fn v2_from_object(m: JsonObject) -> (r: Option<V2Event>)
    ensures
        r is Some <==> decodes_v2(members(m)),
        r matches Some(e) ==> v2_decoded(e, members(m)),
{
    let mut extra = m;
    let destination_id = match string_member(&extra, "destination_id") {
        Some(v) => v,
        None => return None,
    };
    let payload = match string_member(&extra, "payload") {
        Some(v) => v,
        None => return None,
    };
    remove_member(&mut extra, "destination_id");
    remove_member(&mut extra, "payload");
    Some(V2Event { destination_id, payload, extra })
}

/// Reads the event of a webhook delivery out of its decoded payload object.
pub fn event_payload_from_object(m: &JsonObject) -> (r: Option<StripeEventPayload>)
    ensures
        r is Some <==> decodes_event_payload(members(*m)),
        r matches Some(p) ==> event_payload_decoded(p, members(*m)),
{
    let id = match string_member(m, "id") {
        Some(v) => v,
        None => return None,
    };
    let event_type = match string_member(m, "type") {
        Some(v) => v,
        None => return None,
    };
    let created = match u64_member(m, "created") {
        Some(v) => v,
        None => return None,
    };
    let livemode = match bool_member(m, "livemode") {
        Some(v) => v,
        None => return None,
    };
    Some(StripeEventPayload { id, event_type, created, livemode })
}

/// Reads the event of a v2 delivery out of its decoded payload object.
pub fn v2_payload_from_object(m: &JsonObject) -> (r: Option<V2EventPayload>)
    ensures
        r is Some <==> decodes_v2_payload(members(*m)),
        r matches Some(p) ==> v2_payload_decoded(p, members(*m)),
{
    let id = match string_member(m, "id") {
        Some(v) => v,
        None => return None,
    };
    let event_type = match string_member(m, "type") {
        Some(v) => v,
        None => return None,
    };
    Some(V2EventPayload { id, event_type })
}

/// The actions for a webhook delivery whose payload text decoded to the
/// object `pm`: the acknowledgment and then the callback, or, where the
/// object is not an event, a warning alone.
pub fn webhook_actions(evt: WebhookEvent, pm: &JsonObject) -> (r: Vec<Action>)
    ensures
        decodes_event_payload(members(*pm)) ==> (r@[1] matches Action::Webhook(e, p) && e == evt
            && event_payload_decoded(p, members(*pm)) && ack_then_webhook(r@, e, p)),
        !decodes_event_payload(members(*pm)) ==> (r@.len() == 1
            && is_log(r@[0], LogLevel::Warn, "could not parse event_payload"@)),
{
    match event_payload_from_object(pm) {
        Some(parsed) => {
            let ack = ack_json(parsed.id.as_str(), evt.webhook_conversation_id.as_str(), evt.webhook_id.as_str());
            let mut r: Vec<Action> = Vec::new();
            r.push(Action::Send(ack));
            r.push(Action::Webhook(evt, parsed));
            r
        },
        None => {
            let mut r: Vec<Action> = Vec::new();
            r.push(Action::Log(LogLevel::Warn, "could not parse event_payload".to_owned()));
            r
        },
    }
}

/// The actions for a v2 delivery whose payload text decoded to the object
/// `pm`: the acknowledgment and then the callback, or, where the object is
/// not an event, a warning alone.
pub fn v2_actions(evt: V2Event, pm: &JsonObject) -> (r: Vec<Action>)
    ensures
        decodes_v2_payload(members(*pm)) ==> (r@[1] matches Action::V2(e, p) && e == evt
            && v2_payload_decoded(p, members(*pm)) && ack_then_v2(r@, e, p)),
        !decodes_v2_payload(members(*pm)) ==> (r@.len() == 1
            && is_log(r@[0], LogLevel::Warn, "could not parse v2 payload"@)),
{
    match v2_payload_from_object(pm) {
        Some(parsed) => {
            proof {
                reveal_strlit("");
                assert(""@ =~= Seq::<char>::empty());
            }
            let ack = ack_json(parsed.id.as_str(), "", evt.destination_id.as_str());
            let mut r: Vec<Action> = Vec::new();
            r.push(Action::Send(ack));
            r.push(Action::V2(evt, parsed));
            r
        },
        None => {
            let mut r: Vec<Action> = Vec::new();
            r.push(Action::Log(LogLevel::Warn, "could not parse v2 payload".to_owned()));
            r
        },
    }
}

/// The actions for one decoded frame. A webhook or v2 delivery whose
/// envelope and payload decode gives exactly one acknowledgment, carrying the
/// envelope's identifiers, followed by the matching callback. A delivery whose
/// payload text is not an event gives a warning and nothing else. Any other
/// kind goes to the unknown-message callback untouched, with no acknowledgment.
pub fn dispatch_message(msg: IncomingMessage) -> (r: Vec<Action>)
    ensures
        answers_message(r@, msg.msg_type@, members(msg.data)),
        msg.msg_type@ != "webhook_event"@ && msg.msg_type@ != "v2_event"@ ==> r@ == seq![
            Action::Unknown(msg.msg_type, msg.data),
        ] && no_ack(r@),
        protocol_answer(r@),
        r@.len() == 0 || r@[0] is Log ==> no_callback(r@),
{
    proof {
        reveal_strlit("webhook_event");
        reveal_strlit("v2_event");
        assert("webhook_event"@.len() != "v2_event"@.len());
    }
    if text_is(&msg.msg_type, "webhook_event") {
        match webhook_from_object(msg.data) {
            None => Vec::new(),
            Some(evt) => match parse_object(evt.event_payload.as_str()) {
                None => {
                    let mut r: Vec<Action> = Vec::new();
                    r.push(Action::Log(LogLevel::Warn, "could not parse event_payload".to_owned()));
                    r
                },
                Some(pm) => webhook_actions(evt, &pm),
            },
        }
    } else if text_is(&msg.msg_type, "v2_event") {
        match v2_from_object(msg.data) {
            None => Vec::new(),
            Some(evt) => match parse_object(evt.payload.as_str()) {
                None => {
                    let mut r: Vec<Action> = Vec::new();
                    r.push(Action::Log(LogLevel::Warn, "could not parse v2 payload".to_owned()));
                    r
                },
                Some(pm) => v2_actions(evt, &pm),
            },
        }
    } else {
        let mut r: Vec<Action> = Vec::new();
        r.push(Action::Unknown(msg.msg_type, msg.data));
        proof {
            assert(r@ =~= seq![Action::Unknown(msg.msg_type, msg.data)]);
            assert(!is_ack_frame(r@[0]));
        }
        r
    }
}

/// The actions for one text frame: a warning where it is not an object with
/// a string `type`, else those of its decoded message.
pub fn dispatch_text(text: &str) -> (r: Vec<Action>)
    ensures
        answers_text(r@, text@),
        protocol_answer(r@),
{
    let incoming = match parse_object(text) {
        Some(m) => incoming_from_object(m),
        None => None,
    };
    match incoming {
        Some(msg) => dispatch_message(msg),
        None => {
            let mut r: Vec<Action> = Vec::new();
            r.push(Action::Log(LogLevel::Warn, "malformed message".to_owned()));
            r
        },
    }
}

/// The session's answer to one item read from the socket. Text is dispatched
/// and reading goes on; a close or a read error ends reading, with a log
/// line; other frames are ignored.
pub fn read_step(frame: Frame) -> (r: ReadStep)
    ensures
        r.stop <==> (frame is Close || frame is Error),
        frame is Close ==> (r.actions@.len() == 1
            && is_log(r.actions@[0], LogLevel::Info, "websocket closed"@)),
        frame matches Frame::Error(e) ==> (r.actions@.len() == 1
            && is_log(r.actions@[0], LogLevel::Error, "read error: "@ + e@)),
        frame is Other ==> r.actions@.len() == 0,
        frame matches Frame::Text(t) ==> answers_text(r.actions@, t@),
        protocol_answer(r.actions@),
{
    match frame {
        Frame::Text(t) => ReadStep { actions: dispatch_text(t.as_str()), stop: false },
        Frame::Close => {
            let mut actions: Vec<Action> = Vec::new();
            actions.push(Action::Log(LogLevel::Info, "websocket closed".to_owned()));
            ReadStep { actions, stop: true }
        },
        Frame::Error(e) => {
            let mut line: String = "read error: ".to_owned();
            line.append(e.as_str());
            let mut actions: Vec<Action> = Vec::new();
            actions.push(Action::Log(LogLevel::Error, line));
            ReadStep { actions, stop: true }
        },
        Frame::Other => ReadStep { actions: Vec::new(), stop: false },
    }
}

} // verus!
