//! The listener: configuration, session authorization and the socket handshake.
use vstd::prelude::*;
use vstd::string::StringExecFns;

use crate::json::{
    json_object_text, json_quote_of, members, parse_object, quote, string_member, text_members,
    JsonObject, Members,
};
use crate::wire::{header_value_ok, url_has_host, url_with_host, valid_header_value};

verus! {

pub const USER_AGENT: &'static str = "Stripe/v1 stripe-cli/1.21.0";

pub const SUBPROTOCOL: &'static str = "stripecli-devproxy-v1";

pub const SESSIONS_URL: &'static str = "https://api.stripe.com/v1/stripecli/sessions";

pub const DEFAULT_DEVICE_NAME: &'static str = "custom-stripe-listener";

pub const DEFAULT_FEATURE: &'static str = "webhooks";

pub const DEFAULT_PONG_WAIT_MS: u64 = 10000;

pub const DEFAULT_PING_PERIOD_MS: u64 = 2000;

/// Settings of a listener; what is left unset gets a default on construction.
pub struct Config {
    pub api_key: String,
    pub device_name: Option<String>,
    pub websocket_features: Option<Vec<String>>,
    pub pong_wait_ms: Option<u64>,
    pub ping_period_ms: Option<u64>,
}

/// A session granted by the relay.
#[derive(Clone, Debug)]
pub struct Session {
    pub websocket_id: String,
    pub websocket_url: String,
    pub websocket_authorized_feature: String,
}

pub struct SessionView {
    pub websocket_id: Seq<char>,
    pub websocket_url: Seq<char>,
    pub websocket_authorized_feature: Seq<char>,
}

impl View for Session {
    type V = SessionView;

    open spec fn view(&self) -> SessionView {
        SessionView {
            websocket_id: self.websocket_id@,
            websocket_url: self.websocket_url@,
            websocket_authorized_feature: self.websocket_authorized_feature@,
        }
    }
}

#[derive(Debug)]
pub enum AuthorizationError {
    /// The relay answered with a status outside 200..=299.
    Status { status: u16, body: String },
    /// The relay's answer is not a session descriptor.
    Malformed,
    /// A header value holds a character that HTTP does not allow.
    Header,
    /// The request could not be sent or its answer read.
    Transport { message: String },
}

#[derive(Debug)]
pub enum ConnectionError {
    /// The socket URL does not parse or names no host.
    Url,
    /// The socket identifier cannot be sent as a header value.
    Header,
    /// The handshake failed.
    Handshake { message: String },
}

#[derive(Debug)]
pub enum ListenerError {
    Authorization(AuthorizationError),
    /// An operation was invoked out of sequence.
    State,
    Connection(ConnectionError),
}

/// A name and a value, as in a form field or a header.
pub type Pair = (String, String);

pub open spec fn pairs_view(v: Seq<Pair>) -> Seq<(Seq<char>, Seq<char>)> {
    v.map_values(|p: Pair| (p.0@, p.1@))
}

/// The HTTP request that asks the relay for a session.
pub struct AuthorizeRequest {
    pub url: String,
    pub headers: Vec<Pair>,
    pub form: Vec<Pair>,
}

/// The socket handshake: where to dial and which headers to declare.
pub struct Handshake {
    pub url: String,
    pub headers: Vec<Pair>,
}

pub open spec fn is_success(status: u16) -> bool {
    200 <= status <= 299
}

pub open spec fn feature_fields(fs: Seq<String>) -> Seq<(Seq<char>, Seq<char>)> {
    fs.map_values(|f: String| ("websocket_features[]"@, f@))
}

/// The form of the authorize request: the device label, then one field per
/// requested capability.
pub open spec fn authorize_form(device_name: Option<String>, features: Option<Vec<String>>) -> Seq<
    (Seq<char>, Seq<char>),
> {
    let d = match device_name {
        Some(n) => seq![("device_name"@, n@)],
        None => Seq::empty(),
    };
    let f = match features {
        Some(fs) => feature_fields(fs@),
        None => Seq::empty(),
    };
    d + f
}

/// The client-identification header value: a JSON object with its members
/// in sorted order.
pub open spec fn client_info_text(os: Seq<char>, arch: Seq<char>) -> Seq<char> {
    "{\"name\":\"stripe-cli\",\"os\":"@ + json_quote_of(os) + ",\"publisher\":\"stripe\",\"uname\":"@
        + json_quote_of(os + " "@ + arch) + ",\"version\":\"1.21.0\"}"@
}

pub open spec fn bearer_text(api_key: Seq<char>) -> Seq<char> {
    "Bearer "@ + api_key
}

/// The headers of the authorize request; the credential and the form's
/// content type go only with a non-empty credential.
pub open spec fn authorize_headers(api_key: Seq<char>, client_info: Seq<char>) -> Seq<
    (Seq<char>, Seq<char>),
> {
    seq![
        ("Accept-Encoding"@, "identity"@),
        ("User-Agent"@, USER_AGENT@),
        ("X-Stripe-Client-User-Agent"@, client_info),
    ] + if api_key.len() == 0 {
        Seq::empty()
    } else {
        seq![
            ("Authorization"@, bearer_text(api_key)),
            ("Content-Type"@, "application/x-www-form-urlencoded"@),
        ]
    }
}

/// The headers of the authorize request can all be sent.
pub open spec fn authorize_headers_ok(api_key: Seq<char>, os: Seq<char>, arch: Seq<char>) -> bool {
    &&& valid_header_value(client_info_text(os, arch))
    &&& (api_key.len() == 0 || valid_header_value(bearer_text(api_key)))
}

/// The session descriptor that a decoded answer holds, if it holds one.
pub open spec fn session_of(o: Members) -> Option<SessionView> {
    let f = o.strings;
    if f.contains_key("websocket_id"@) && f.contains_key("websocket_url"@) && f.contains_key(
        "websocket_authorized_feature"@,
    ) {
        Some(
            SessionView {
                websocket_id: f["websocket_id"@],
                websocket_url: f["websocket_url"@],
                websocket_authorized_feature: f["websocket_authorized_feature"@],
            },
        )
    } else {
        None
    }
}

/// The session that an authorize exchange grants: one exactly where the
/// status is in 200..=299 and the body is an object holding a session
/// descriptor.
pub open spec fn granted(status: u16, body: Seq<char>) -> Option<SessionView> {
    if is_success(status) && json_object_text(body) {
        session_of(text_members(body))
    } else {
        None
    }
}

/// The session a listener holds after an authorize exchange: the granted
/// one, or, where none is granted, the one it held before.
pub open spec fn authorize_step(prior: Option<SessionView>, status: u16, body: Seq<char>) -> Option<
    SessionView,
> {
    match granted(status, body) {
        Some(v) => Some(v),
        None => prior,
    }
}

/// Authorizing again yields a fresh session decided by the relay's answer
/// alone: whatever two listeners held before, the same successful answer
/// leaves both holding the same session, the one granted.
pub proof fn lemma_reauthorize_is_fresh(
    prior1: Option<SessionView>,
    prior2: Option<SessionView>,
    status: u16,
    body: Seq<char>,
)
    requires
        granted(status, body) is Some,
    ensures
        authorize_step(prior1, status, body) == authorize_step(prior2, status, body),
        authorize_step(prior1, status, body) == granted(status, body),
{
}

/// The socket URL: the session's URL with the granted capability as a query.
pub open spec fn socket_url(s: SessionView) -> Seq<char> {
    s.websocket_url + "?websocket_feature="@ + s.websocket_authorized_feature
}

/// The handshake headers: the socket identifier, the sub-protocol, and the
/// same client headers as the authorize request.
pub open spec fn handshake_headers(s: SessionView, client_info: Seq<char>) -> Seq<
    (Seq<char>, Seq<char>),
> {
    seq![
        ("Websocket-Id"@, s.websocket_id),
        ("Sec-WebSocket-Protocol"@, SUBPROTOCOL@),
        ("User-Agent"@, USER_AGENT@),
        ("X-Stripe-Client-User-Agent"@, client_info),
    ]
}

fn pair(name: &str, value: &str) -> (r: Pair)
    ensures
        r.0@ == name@,
        r.1@ == value@,
{
    (name.to_owned(), value.to_owned())
}

/// The client-identification header value for the given OS and architecture.
pub fn client_info(os: &str, arch: &str) -> (r: String)
    ensures
        r@ == client_info_text(os@, arch@),
{
    let mut uname: String = os.to_owned();
    uname.append(" ");
    uname.append(arch);
    let mut s: String = "{\"name\":\"stripe-cli\",\"os\":".to_owned();
    let q1 = quote(os);
    s.append(q1.as_str());
    s.append(",\"publisher\":\"stripe\",\"uname\":");
    let q2 = quote(uname.as_str());
    s.append(q2.as_str());
    s.append(",\"version\":\"1.21.0\"}");
    s
}

/// The log line that records a granted session.
pub fn session_log_line(s: &Session) -> (r: String)
    ensures
        r@ == "session created ws_id="@ + s.websocket_id@ + " feature="@
            + s.websocket_authorized_feature@,
{
    let mut line: String = "session created ws_id=".to_owned();
    line.append(s.websocket_id.as_str());
    line.append(" feature=");
    line.append(s.websocket_authorized_feature.as_str());
    line
}

/// Reads a session descriptor out of the relay's decoded answer.
pub fn session_from_object(m: &JsonObject) -> (r: Option<Session>)
    ensures
        r is Some <==> session_of(members(*m)) is Some,
        r matches Some(s) ==> session_of(members(*m)) == Some(s@),
{
    let websocket_id = match string_member(m, "websocket_id") {
        Some(v) => v,
        None => return None,
    };
    let websocket_url = match string_member(m, "websocket_url") {
        Some(v) => v,
        None => return None,
    };
    let websocket_authorized_feature = match string_member(m, "websocket_authorized_feature") {
        Some(v) => v,
        None => return None,
    };
    Some(Session { websocket_id, websocket_url, websocket_authorized_feature })
}

/// The outcome of an authorize exchange, from the answer's status, its body,
/// and the body as decoded (`None` where it is not a JSON object). Only a
/// status in 200..=299 with a session descriptor succeeds; nothing else
/// enters into the result.
pub fn authorize_outcome(status: u16, body: &str, decoded: Option<JsonObject>) -> (r: Result<
    Session,
    ListenerError,
>)
    ensures
        !is_success(status) ==> (r matches Err(
            ListenerError::Authorization(AuthorizationError::Status { status: s, body: b }),
        ) && s == status && b@ == body@),
        is_success(status) ==> match decoded {
            Some(m) => match session_of(members(m)) {
                Some(v) => r matches Ok(s) && s@ == v,
                None => r matches Err(ListenerError::Authorization(AuthorizationError::Malformed)),
            },
            None => r matches Err(ListenerError::Authorization(AuthorizationError::Malformed)),
        },
{
    if status < 200 || status > 299 {
        return Err(
            ListenerError::Authorization(AuthorizationError::Status { status, body: body.to_owned() }),
        );
    }
    match decoded {
        Some(m) => match session_from_object(&m) {
            Some(s) => Ok(s),
            None => Err(ListenerError::Authorization(AuthorizationError::Malformed)),
        },
        None => Err(ListenerError::Authorization(AuthorizationError::Malformed)),
    }
}

/// `c` is `old` with each unset setting given its default.
pub open spec fn defaulted(c: Config, old: Config) -> bool {
    &&& c.api_key == old.api_key
    &&& match old.device_name {
        Some(n) => c.device_name == Some(n),
        None => c.device_name matches Some(n) && n@ == DEFAULT_DEVICE_NAME@,
    }
    &&& match old.websocket_features {
        Some(f) => c.websocket_features == Some(f),
        None => c.websocket_features matches Some(f) && f@.len() == 1 && f@[0]@ == DEFAULT_FEATURE@,
    }
    &&& c.pong_wait_ms == Some(
        match old.pong_wait_ms {
            Some(t) => t,
            None => DEFAULT_PONG_WAIT_MS,
        },
    )
    &&& c.ping_period_ms == Some(
        match old.ping_period_ms {
            Some(t) => t,
            None => DEFAULT_PING_PERIOD_MS,
        },
    )
}

impl Config {
    /// A configuration with the given credential and every other setting unset.
    pub fn with_api_key(api_key: String) -> (r: Config)
        ensures
            r.api_key == api_key,
            r.device_name is None,
            r.websocket_features is None,
            r.pong_wait_ms is None,
            r.ping_period_ms is None,
    {
        Config {
            api_key,
            device_name: None,
            websocket_features: None,
            pong_wait_ms: None,
            ping_period_ms: None,
        }
    }

    /// Gives each unset setting its default and keeps the others.
    pub fn defaults(&mut self)
        ensures
            defaulted(*final(self), *old(self)),
    {
        if self.device_name.is_none() {
            self.device_name = Some(DEFAULT_DEVICE_NAME.to_owned());
        }
        if self.websocket_features.is_none() {
            let mut f: Vec<String> = Vec::new();
            f.push(DEFAULT_FEATURE.to_owned());
            self.websocket_features = Some(f);
        }
        if self.pong_wait_ms.is_none() {
            self.pong_wait_ms = Some(DEFAULT_PONG_WAIT_MS);
        }
        if self.ping_period_ms.is_none() {
            self.ping_period_ms = Some(DEFAULT_PING_PERIOD_MS);
        }
    }
}

fn copy_session(s: &Session) -> (r: Session)
    ensures
        r@ == s@,
{
    Session {
        websocket_id: s.websocket_id.clone(),
        websocket_url: s.websocket_url.clone(),
        websocket_authorized_feature: s.websocket_authorized_feature.clone(),
    }
}

/// A listener moves from idle to authorized once a session is granted; the
/// handshake can be planned only from there.
pub struct StripeListener {
    cfg: Config,
    session: Option<Session>,
}

impl StripeListener {
    /// The listener's configuration.
    pub closed spec fn config(&self) -> Config {
        self.cfg
    }

    /// The session the listener holds, if one was granted.
    pub closed spec fn current_session(&self) -> Option<SessionView> {
        match self.session {
            Some(s) => Some(s@),
            None => None,
        }
    }

    /// An idle listener: no session, and the configuration with its defaults.
    pub fn new(cfg: Config) -> (r: Self)
        ensures
            defaulted(r.config(), cfg),
            r.current_session() is None,
    {
        let mut cfg = cfg;
        cfg.defaults();
        StripeListener { cfg, session: None }
    }

    pub fn session(&self) -> (r: Option<&Session>)
        ensures
            r is None <==> self.current_session() is None,
            r matches Some(s) ==> self.current_session() == Some(s@),
    {
        match &self.session {
            Some(s) => Some(s),
            None => None,
        }
    }

    /// The period between liveness probes, in milliseconds.
    pub fn ping_period_ms(&self) -> (r: u64)
        ensures
            r == match self.config().ping_period_ms {
                Some(t) => t,
                None => DEFAULT_PING_PERIOD_MS,
            },
    {
        match self.cfg.ping_period_ms {
            Some(t) => t,
            None => DEFAULT_PING_PERIOD_MS,
        }
    }

    /// The request that asks the relay for a session, for a client on the
    /// given OS and architecture. It fails only where a header value cannot
    /// be sent.
    pub fn authorize_request(&self, os: &str, arch: &str) -> (r: Result<AuthorizeRequest, ListenerError>)
        ensures
            r is Ok <==> authorize_headers_ok(self.config().api_key@, os@, arch@),
            r is Err ==> r matches Err(ListenerError::Authorization(AuthorizationError::Header)),
            r matches Ok(req) ==> {
                &&& req.url@ == SESSIONS_URL@
                &&& pairs_view(req.headers@) == authorize_headers(
                    self.config().api_key@,
                    client_info_text(os@, arch@),
                )
                &&& pairs_view(req.form@) == authorize_form(
                    self.config().device_name,
                    self.config().websocket_features,
                )
            },
    {
        let info = client_info(os, arch);
        if !header_value_ok(info.as_str()) {
            return Err(ListenerError::Authorization(AuthorizationError::Header));
        }
        let mut headers: Vec<Pair> = Vec::new();
        headers.push(pair("Accept-Encoding", "identity"));
        headers.push(pair("User-Agent", USER_AGENT));
        headers.push(pair("X-Stripe-Client-User-Agent", info.as_str()));
        if !self.cfg.api_key.as_str().is_empty() {
            let mut bearer: String = "Bearer ".to_owned();
            bearer.append(self.cfg.api_key.as_str());
            if !header_value_ok(bearer.as_str()) {
                return Err(ListenerError::Authorization(AuthorizationError::Header));
            }
            headers.push(pair("Authorization", bearer.as_str()));
            headers.push(pair("Content-Type", "application/x-www-form-urlencoded"));
        }
        let mut form: Vec<Pair> = Vec::new();
        match &self.cfg.device_name {
            Some(n) => form.push(pair("device_name", n.as_str())),
            None => {},
        }
        match &self.cfg.websocket_features {
            Some(fs) => {
                let ghost base = pairs_view(form@);
                let mut i: usize = 0;
                while i < fs.len()
                    invariant
                        i <= fs@.len(),
                        pairs_view(form@) == base + feature_fields(fs@.take(i as int)),
                    decreases fs@.len() - i,
                {
                    let ghost before = form@;
                    form.push(pair("websocket_features[]", fs[i].as_str()));
                    proof {
                        assert(pairs_view(form@) =~= pairs_view(before).push(
                            ("websocket_features[]"@, fs@[i as int]@),
                        ));
                        assert(feature_fields(fs@.take(i + 1)) =~= feature_fields(
                            fs@.take(i as int),
                        ).push(("websocket_features[]"@, fs@[i as int]@)));
                    }
                    i = i + 1;
                }
                proof {
                    assert(fs@.take(fs@.len() as int) =~= fs@);
                }
            },
            None => {},
        }
        proof {
            assert(pairs_view(form@) =~= authorize_form(self.cfg.device_name, self.cfg.websocket_features));
            assert(pairs_view(headers@) =~= authorize_headers(self.cfg.api_key@, info@));
        }
        Ok(AuthorizeRequest { url: SESSIONS_URL.to_owned(), headers, form })
    }

    /// Takes the relay's answer to the authorize request. A status outside
    /// 200..=299 fails with that status and the body verbatim; a body that is
    /// not a session descriptor fails as malformed. On success the listener
    /// holds the new session, whatever it held before; on failure it keeps
    /// what it held.
    pub fn complete_authorize(&mut self, status: u16, body: &str) -> (r: Result<Session, ListenerError>)
        ensures
            final(self).config() == old(self).config(),
            !is_success(status) ==> (r matches Err(
                ListenerError::Authorization(AuthorizationError::Status { status: s, body: b }),
            ) && s == status && b@ == body@),
            is_success(status) && granted(status, body@) is None ==> r matches Err(
                ListenerError::Authorization(AuthorizationError::Malformed),
            ),
            r is Err ==> r matches Err(ListenerError::Authorization(_)),
            r is Ok <==> granted(status, body@) is Some,
            r matches Ok(s) ==> granted(status, body@) == Some(s@),
            final(self).current_session() == authorize_step(
                old(self).current_session(),
                status,
                body@,
            ),
    {
        let decoded = if 200 <= status && status <= 299 {
            parse_object(body)
        } else {
            None
        };
        let r = authorize_outcome(status, body, decoded);
        match &r {
            Ok(s) => {
                self.session = Some(copy_session(s));
            },
            Err(_) => {},
        }
        r
    }

    /// The handshake for the held session: its URL with the granted
    /// capability as a query, and the socket identifier, sub-protocol and
    /// client headers for the given OS and architecture. Without a session it
    /// fails with a state error.
    pub fn connect_request(&self, os: &str, arch: &str) -> (r: Result<Handshake, ListenerError>)
        ensures
            self.current_session() is None ==> r matches Err(ListenerError::State),
            self.current_session() matches Some(v) ==> {
                &&& !url_with_host(socket_url(v)) ==> (r matches Err(
                    ListenerError::Connection(ConnectionError::Url),
                ))
                &&& url_with_host(socket_url(v)) && !(valid_header_value(v.websocket_id)
                    && valid_header_value(client_info_text(os@, arch@))) ==> (r matches Err(
                    ListenerError::Connection(ConnectionError::Header),
                ))
                &&& r is Ok <==> url_with_host(socket_url(v)) && valid_header_value(v.websocket_id)
                    && valid_header_value(client_info_text(os@, arch@))
                &&& (r matches Ok(h) ==> h.url@ == socket_url(v) && pairs_view(h.headers@)
                    == handshake_headers(v, client_info_text(os@, arch@)))
            },
    {
        let s = match &self.session {
            Some(s) => s,
            None => return Err(ListenerError::State),
        };
        let mut url: String = s.websocket_url.clone();
        url.append("?websocket_feature=");
        url.append(s.websocket_authorized_feature.as_str());
        if !url_has_host(url.as_str()) {
            return Err(ListenerError::Connection(ConnectionError::Url));
        }
        if !header_value_ok(s.websocket_id.as_str()) {
            return Err(ListenerError::Connection(ConnectionError::Header));
        }
        let info = client_info(os, arch);
        if !header_value_ok(info.as_str()) {
            return Err(ListenerError::Connection(ConnectionError::Header));
        }
        let mut headers: Vec<Pair> = Vec::new();
        headers.push(pair("Websocket-Id", s.websocket_id.as_str()));
        headers.push(pair("Sec-WebSocket-Protocol", SUBPROTOCOL));
        headers.push(pair("User-Agent", USER_AGENT));
        headers.push(pair("X-Stripe-Client-User-Agent", info.as_str()));
        proof {
            assert(pairs_view(headers@) =~= handshake_headers(s@, info@));
        }
        Ok(Handshake { url, headers })
    }
} // impl StripeListener

} // verus!
