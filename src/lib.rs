//! Client for a webhook relay: session authorization, socket handshake
//! planning, and the dispatch protocol for inbound relay frames.
use vstd::prelude::*;

pub mod dispatch;
pub mod json;
pub mod listener;
pub mod logging;
pub mod text;
pub mod wire;

pub use dispatch::{
    ack_json, dispatch_message, dispatch_text, read_step, Action, EventHandler, Frame,
    IncomingMessage, LogLevel, ReadStep, StripeEventPayload, V2Event, V2EventPayload,
    WebhookEvent,
};
pub use json::JsonObject;
pub use listener::{
    client_info, AuthorizationError, AuthorizeRequest, Config, ConnectionError, Handshake,
    ListenerError, Session, StripeListener,
};
pub use logging::{Logger, NopLogger};

verus! {

} // verus!
