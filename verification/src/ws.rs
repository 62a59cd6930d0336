//! The push-event side of the protocol driver: the wire format of inbound
//! frames, and the session state machine that turns raw socket messages
//! into typed events. The socket itself stays with the caller; it feeds
//! every message through `EventSession::on_incoming` and forwards whatever
//! comes back.

use vstd::prelude::*;

use crate::jsonval::{
    json_null, member_present_of, member_str_of, parse_json, read_member_str, read_member_value,
    wf_json,
};
use crate::lcu_driver::LcuDriverConfig;
use crate::text::{dec_str, str_starts_with};

verus! {

broadcast use vstd::string::group_string_axioms;

/// One decoded push event. A synthetic closed event — empty uri, no
/// payload — signals stream termination; it is told apart from real events
/// by the dedicated flag alone and must never reach downstream consumers
/// as a real event.
#[derive(Debug)]
pub struct OnJsonApiEventData {
    pub data: serde_json::Value,
    pub event_type: String,
    pub uri: String,
    pub closed: bool,
}

impl OnJsonApiEventData {
    /// The synthetic closed event.
    pub fn closed() -> (r: Self)
        ensures
            r.closed,
            r.uri@.len() == 0,
            r.event_type@.len() == 0,
    {
        OnJsonApiEventData {
            closed: true,
            uri: String::new(),
            data: json_null(),
            event_type: String::new(),
        }
    }
}

/// The WebSocket URL of the local RPC peer.
pub fn ws_url(config: &LcuDriverConfig) -> (r: String)
    ensures
        r@ == "wss://localhost:"@ + dec_str(config.remoting_app_port as nat),
{
    let mut s = String::from_str("wss://localhost:");
    let port = crate::text::u64_to_dec(config.remoting_app_port as u64);
    s.append(port.as_str());
    s
}

/// The subscribe control message sent right after the handshake.
pub fn subscribe_message() -> (r: String)
    ensures
        r@ == "[5, \"OnJsonApiEvent\"]"@,
{
    String::from_str("[5, \"OnJsonApiEvent\"]")
}

/// A non-empty inbound text frame with its protocol framing stripped: the
/// one trailing character always goes, and the event-envelope prefix goes
/// when it is there.
pub open spec fn spec_frame_payload(text: Seq<char>) -> Seq<char> {
    let body = text.drop_last();
    let prefix = "[8,\"OnJsonApiEvent\","@;
    if body.len() >= prefix.len() && body.subrange(0, prefix.len() as int) == prefix {
        body.skip(prefix.len() as int)
    } else {
        body
    }
}

/// Strips the protocol framing from an inbound text frame; an empty frame
/// has no payload.
pub fn frame_payload(text: &str) -> (r: Option<String>)
    ensures
        text@.len() == 0 ==> r is None,
        text@.len() > 0 ==> (r matches Some(s) && s@ == spec_frame_payload(text@)),
{
    let n = text.unicode_len();
    if n == 0 {
        return None;
    }
    let body = text.substring_char(0, n - 1);
    proof {
        assert(body@ =~= text@.drop_last());
    }
    let prefix = "[8,\"OnJsonApiEvent\",";
    if str_starts_with(body, prefix) {
        let plen = prefix.unicode_len();
        let blen = body.unicode_len();
        let tail = body.substring_char(plen, blen);
        proof {
            assert(tail@ =~= body@.skip(prefix@.len() as int));
        }
        Some(tail.to_owned())
    } else {
        Some(body.to_owned())
    }
}

/// Whether a stripped frame payload is a well-formed event envelope: a
/// JSON document whose `uri` and `eventType` members are strings and whose
/// `data` member is present.
pub open spec fn spec_event_envelope(payload: Seq<char>) -> bool {
    &&& wf_json(payload)
    &&& member_str_of(payload, "uri"@) is Some
    &&& member_str_of(payload, "eventType"@) is Some
    &&& member_present_of(payload, "data"@)
}

/// Decodes one inbound text frame into an event. Empty frames are dropped
/// silently, and so is any frame whose payload is not a well-formed event
/// envelope — a malformed frame never ends the session. Every frame that
/// does carry an envelope decodes, to a real event (never the synthetic
/// closed one) with the envelope's own uri and event type.
pub fn decode_event(text: &str) -> (r: Option<OnJsonApiEventData>)
    ensures
        text@.len() == 0 ==> r is None,
        text@.len() > 0 ==> ({
            let payload = spec_frame_payload(text@);
            &&& r is Some <==> spec_event_envelope(payload)
            &&& r matches Some(e) ==> ({
                &&& !e.closed
                &&& e.uri@ == member_str_of(payload, "uri"@)->0
                &&& e.event_type@ == member_str_of(payload, "eventType"@)->0
            })
        }),
{
    let payload = match frame_payload(text) {
        Some(p) => p,
        None => {
            return None;
        },
    };
    if parse_json(payload.as_str()).is_none() {
        return None;
    }
    let uri = match read_member_str(payload.as_str(), "uri") {
        Some(s) => s,
        None => {
            return None;
        },
    };
    let event_type = match read_member_str(payload.as_str(), "eventType") {
        Some(s) => s,
        None => {
            return None;
        },
    };
    let data = match read_member_value(payload.as_str(), "data") {
        Some(v) => v,
        None => {
            return None;
        },
    };
    Some(OnJsonApiEventData { data, event_type, uri, closed: false })
}

/// One message off the socket, as the read loop sees it: a text frame, a
/// close frame, a read error, or anything else (binary, ping, pong).
#[derive(Debug)]
pub enum WsIncoming {
    Text(String),
    Close,
    ReadError,
    Other,
}

/// Whether a session that was closed (or not) stays or becomes closed on
/// one message: a close frame or a read error closes it, for good.
pub open spec fn step_closed(closed: bool, msg: WsIncoming) -> bool {
    closed || msg is Close || msg is ReadError
}

/// Whether one message makes the session emit the synthetic closed event:
/// only the step that closes a still-open session does.
pub open spec fn step_emits_closed(closed: bool, msg: WsIncoming) -> bool {
    !closed && (msg is Close || msg is ReadError)
}

/// How many synthetic closed events a whole run of messages emits.
pub open spec fn run_closed_emissions(closed: bool, msgs: Seq<WsIncoming>) -> nat
    decreases msgs.len(),
{
    if msgs.len() == 0 {
        0
    } else {
        (if step_emits_closed(closed, msgs[0]) {
            1nat
        } else {
            0nat
        }) + run_closed_emissions(step_closed(closed, msgs[0]), msgs.skip(1))
    }
}

/// Over any run of messages, a session emits the synthetic closed event at
/// most once, and a session that is already closed never emits it again.
pub proof fn lemma_closed_event_at_most_once(closed: bool, msgs: Seq<WsIncoming>)
    ensures
        run_closed_emissions(closed, msgs) <= 1,
        closed ==> run_closed_emissions(closed, msgs) == 0,
    decreases msgs.len(),
{
    if msgs.len() > 0 {
        lemma_closed_event_at_most_once(step_closed(closed, msgs[0]), msgs.skip(1));
    }
}

/// The per-connection session: once the socket closes or fails, exactly
/// one synthetic closed event goes downstream and nothing follows it.
pub struct EventSession {
    closed: bool,
}

impl EventSession {
    /// Whether the stream has terminated.
    pub closed spec fn is_closed(&self) -> bool {
        self.closed
    }

    pub fn new() -> (r: Self)
        ensures
            !r.is_closed(),
    {
        EventSession { closed: false }
    }

    /// Feeds one socket message through the session: a text frame decodes
    /// to at most one real event; a close frame or read error closes the
    /// session and emits the one synthetic closed event; after that,
    /// nothing is ever emitted again.
    pub fn on_incoming(&mut self, msg: WsIncoming) -> (r: Option<OnJsonApiEventData>)
        ensures
            final(self).is_closed() == step_closed(old(self).is_closed(), msg),
            old(self).is_closed() ==> r is None,
            (r matches Some(e) && e.closed) <==> step_emits_closed(old(self).is_closed(), msg),
            r matches Some(e) && !e.closed ==> msg is Text,
            msg matches WsIncoming::Text(t) ==> ({
                let payload = spec_frame_payload(t@);
                &&& !old(self).is_closed() && t@.len() == 0 ==> r is None
                &&& !old(self).is_closed() && t@.len() > 0 ==> ({
                    &&& r is Some <==> spec_event_envelope(payload)
                    &&& r matches Some(e) ==> ({
                        &&& !e.closed
                        &&& e.uri@ == member_str_of(payload, "uri"@)->0
                        &&& e.event_type@ == member_str_of(payload, "eventType"@)->0
                    })
                })
            }),
    {
        if self.closed {
            return None;
        }
        match msg {
            WsIncoming::Text(t) => decode_event(t.as_str()),
            WsIncoming::Close => {
                self.closed = true;
                Some(OnJsonApiEventData::closed())
            },
            WsIncoming::ReadError => {
                self.closed = true;
                Some(OnJsonApiEventData::closed())
            },
            WsIncoming::Other => None,
        }
    }
}

} // verus!
