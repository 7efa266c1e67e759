//! Twitch EventSub: webhook signatures, the webhook's answers, what is queued
//! for each notification, and the WebSocket messages.
use vstd::prelude::*;
use vstd::string::StringSliceAdditionalSpecFns;
use vstd::utf8::{decode_utf8, encode_utf8, valid_utf8};
use hmac::{Hmac, Mac};
use sha2::Sha256;
use crate::text::{append_str, chars_eq_str, chars_of, opt_str, same_text, string_of};

verus! {

/// How EventSub delivers a subscription's events.
pub struct EventSubTransport {
    /// `webhook` or `websocket`.
    pub method: String,
    /// Where webhook notifications are posted.
    pub callback: String,
    /// The secret that signs webhook notifications.
    pub secret: Option<String>,
}

/// An EventSub subscription as Twitch reports it.
pub struct EventSubSubscription {
    pub id: String,
    /// The subscription type, such as `channel.follow`.
    pub subscription_type: String,
    pub version: String,
    /// The condition, as JSON text.
    pub condition: String,
    pub transport: EventSubTransport,
    pub status: String,
    pub created_at: String,
}

/// A field of a notification's event: absent, present but not text, or text.
pub type EventField = Option<Option<String>>;

/// The fields of a notification's event that decide what is queued.
pub struct EventFields {
    pub user_id: EventField,
    pub user_name: EventField,
    pub from_broadcaster_user_id: EventField,
    pub from_broadcaster_user_name: EventField,
    pub broadcaster_user_id: EventField,
    pub broadcaster_user_name: EventField,
    pub followed_at: EventField,
}

/// The body of a webhook request.
pub struct EventSubWebhookPayload {
    pub subscription: EventSubSubscription,
    /// The event of a notification, when there is one.
    pub event: Option<EventFields>,
    /// The challenge of a verification request, when there is one.
    pub challenge: Option<String>,
}

/// What HMAC-SHA256 gives for a key and a message.
pub uninterp spec fn hmac_sha256_digest(key: Seq<u8>, message: Seq<u8>) -> Seq<u8>;

/// `Hmac::<Sha256>::new_from_slice`, `update` and `finalize`: the digest of
/// `message` under `key`, named by [`hmac_sha256_digest`]. HMAC takes keys
/// of any length, so the crate always builds the MAC.
#[verifier::external_body]
fn hmac_sha256(key: &[u8], message: &[u8]) -> (r: Option<Vec<u8>>)
    ensures
        r is Some,
        r matches Some(d) ==> d@ == hmac_sha256_digest(key@, message@),
{
    match <Hmac<Sha256> as Mac>::new_from_slice(key) {
        Ok(mut mac) => {
            mac.update(message);
            Some(mac.finalize().into_bytes().to_vec())
        },
        Err(_) => None,
    }
}

/// Lower-case hexadecimal digit for `d < 16`.
pub open spec fn hex_lower_digit(d: int) -> char {
    if d < 10 {
        crate::text::digit_char(d)
    } else if d == 10 {
        'a'
    } else if d == 11 {
        'b'
    } else if d == 12 {
        'c'
    } else if d == 13 {
        'd'
    } else if d == 14 {
        'e'
    } else {
        'f'
    }
}

/// Two lower-case hexadecimal digits per byte, high nibble first.
pub open spec fn hex_lower(b: Seq<u8>) -> Seq<char> {
    Seq::new(
        2 * b.len(),
        |i: int|
            if i % 2 == 0 {
                hex_lower_digit(b[i / 2] as int / 16)
            } else {
                hex_lower_digit(b[i / 2] as int % 16)
            },
    )
}

/// `hex::encode`: each byte as two lower-case hexadecimal digits.
#[verifier::external_body]
fn hex_encode(bytes: &[u8]) -> (r: String)
    ensures
        r@ == hex_lower(bytes@),
{
    hex::encode(bytes)
}

/// `std::str::from_utf8`: the text the bytes encode, if they are UTF-8.
#[verifier::external_body]
fn utf8_text(bytes: &[u8]) -> (r: Option<String>)
    ensures
        r is Some <==> valid_utf8(bytes@),
        r matches Some(s) ==> s@ == decode_utf8(bytes@),
{
    match std::str::from_utf8(bytes) {
        Ok(s) => Some(s.to_string()),
        Err(_) => None,
    }
}

/// The signature Twitch sends with a webhook message: `sha256=` and the hex
/// HMAC-SHA256, under the secret, of message id, timestamp and body.
pub open spec fn expected_signature(secret: Seq<char>, id: Seq<char>, timestamp: Seq<char>, body: Seq<char>) -> Seq<char> {
    "sha256="@ + hex_lower(hmac_sha256_digest(encode_utf8(secret), encode_utf8(id + timestamp + body)))
}

/// Subscribes to EventSub webhooks and checks what they deliver.
pub struct EventSubManager {
    pub client_id: String,
    pub access_token: String,
    pub webhook_secret: String,
    pub callback_url: String,
}

/// A reply of the webhook endpoint.
pub struct WebhookReply {
    /// HTTP status.
    pub status: u16,
    pub body: String,
    /// The body is sent as `text/plain`.
    pub text_plain: bool,
    /// A notification to queue: its subscription type and event.
    pub notification: Option<(String, EventFields)>,
}

/// Status and body of the webhook's reply, from the request as received:
/// whether it was a POST, the body bytes (if they could be read), whether
/// the signature checks out, whether the body parsed, the message type and
/// the challenge.
pub open spec fn webhook_spec(
    is_post: bool,
    body: Option<Seq<u8>>,
    signature_ok: bool,
    parsed: bool,
    message_type: Seq<char>,
    challenge: Option<Seq<char>>,
) -> (int, Seq<char>) {
    if !is_post {
        (405, "Method not allowed"@)
    } else if body is None {
        (400, "Failed to read body"@)
    } else if !valid_utf8(body->0) {
        (400, "Invalid UTF-8"@)
    } else if !signature_ok {
        (403, "Invalid signature"@)
    } else if !parsed {
        (400, "Invalid JSON"@)
    } else if message_type == "webhook_callback_verification"@ {
        match challenge {
            Some(c) => (200, c),
            None => (400, "Challenge missing"@),
        }
    } else if message_type == "notification"@ || message_type == "revocation"@ {
        (204, Seq::empty())
    } else {
        (400, "Unknown message type"@)
    }
}

/// The payload carries an event.
pub open spec fn has_event(p: Option<EventSubWebhookPayload>) -> bool {
    match p {
        Some(x) => x.event is Some,
        None => false,
    }
}

/// The subscription type of the payload.
pub open spec fn payload_type(p: Option<EventSubWebhookPayload>) -> Option<Seq<char>> {
    match p {
        Some(x) => Some(x.subscription.subscription_type@),
        None => None,
    }
}

impl EventSubManager {
    pub fn new(client_id: String, access_token: String, webhook_secret: String, callback_url: String) -> (r: Self)
        ensures
            r.client_id == client_id,
            r.access_token == access_token,
            r.webhook_secret == webhook_secret,
            r.callback_url == callback_url,
    {
        EventSubManager { client_id, access_token, webhook_secret, callback_url }
    }

    /// Whether `signature` is the one Twitch makes for this message with the
    /// manager's secret (see [`expected_signature`]).
    pub fn verify_signature(&self, body: &str, signature: &str, message_id: &str, timestamp: &str) -> (r: bool)
        ensures
            r == (signature@ == expected_signature(self.webhook_secret@, message_id@, timestamp@, body@)),
    {
        let mut msg = chars_of(message_id);
        append_str(&mut msg, timestamp);
        append_str(&mut msg, body);
        let message = string_of(&msg);
        let key = self.webhook_secret.as_str().as_bytes();
        let bytes = message.as_str().as_bytes();
        match hmac_sha256(key, bytes) {
            Some(d) => {
                let h = hex_encode(d.as_slice());
                let mut expected = chars_of("sha256=");
                append_str(&mut expected, h.as_str());
                assert(expected@ =~= expected_signature(self.webhook_secret@, message_id@, timestamp@, body@));
                chars_eq_str(&expected, signature)
            },
            None => false,
        }
    }

    /// The transport of the manager's webhook subscriptions.
    pub fn transport(&self) -> (r: EventSubTransport)
        ensures
            r.method@ == "webhook"@,
            r.callback@ == self.callback_url@,
            opt_str(r.secret) == Some(self.webhook_secret@),
    {
        EventSubTransport {
            method: "webhook".to_owned(),
            callback: self.callback_url.clone(),
            secret: Some(self.webhook_secret.clone()),
        }
    }

    /// The reply to a webhook request (see [`webhook_spec`]); a notification
    /// with an event is handed on to be queued.
    pub fn handle_webhook(
        &self,
        is_post: bool,
        body: Option<Vec<u8>>,
        message_id: &str,
        message_type: &str,
        timestamp: &str,
        signature: &str,
        payload: Option<EventSubWebhookPayload>,
    ) -> (r: WebhookReply)
        ensures
            ({
                let bv = match body {
                    Some(b) => Some(b@),
                    None => None,
                };
                let text = decode_utf8(bv->0);
                let sig_ok = signature@ == expected_signature(self.webhook_secret@, message_id@, timestamp@, text);
                let challenge = match payload {
                    Some(p) => opt_str(p.challenge),
                    None => None,
                };
                let (status, reply) = webhook_spec(is_post, bv, sig_ok, payload is Some, message_type@, challenge);
                &&& r.status == status
                &&& r.body@ == reply
                &&& r.text_plain == (status == 200)
                &&& (r.notification is Some <==> (status == 204 && message_type@ == "notification"@
                    && has_event(payload)))
                &&& (r.notification matches Some(n) ==> Some(n.0@) == payload_type(payload))
            }),
    {
        if !is_post {
            return WebhookReply { status: 405, body: "Method not allowed".to_owned(), text_plain: false, notification: None };
        }
        let bytes = match body {
            Some(b) => b,
            None => {
                return WebhookReply { status: 400, body: "Failed to read body".to_owned(), text_plain: false, notification: None };
            },
        };
        let text = match utf8_text(bytes.as_slice()) {
            Some(t) => t,
            None => {
                return WebhookReply { status: 400, body: "Invalid UTF-8".to_owned(), text_plain: false, notification: None };
            },
        };
        if !self.verify_signature(text.as_str(), signature, message_id, timestamp) {
            return WebhookReply { status: 403, body: "Invalid signature".to_owned(), text_plain: false, notification: None };
        }
        let p = match payload {
            Some(p) => p,
            None => {
                return WebhookReply { status: 400, body: "Invalid JSON".to_owned(), text_plain: false, notification: None };
            },
        };
        if same_text(message_type, "webhook_callback_verification") {
            match p.challenge {
                Some(c) => WebhookReply { status: 200, body: c, text_plain: true, notification: None },
                None => WebhookReply { status: 400, body: "Challenge missing".to_owned(), text_plain: false, notification: None },
            }
        } else if same_text(message_type, "notification") {
            let notification = match p.event {
                Some(e) => Some((p.subscription.subscription_type, e)),
                None => None,
            };
            WebhookReply { status: 204, body: String::new(), text_plain: false, notification }
        } else if same_text(message_type, "revocation") {
            WebhookReply { status: 204, body: String::new(), text_plain: false, notification: None }
        } else {
            WebhookReply { status: 400, body: "Unknown message type".to_owned(), text_plain: false, notification: None }
        }
    }
}

/// What `chrono::DateTime::parse_from_rfc3339` gives for a text, as seconds
/// since the Unix epoch (`timestamp`), or `None` when it does not parse.
pub uninterp spec fn rfc3339_seconds(s: Seq<char>) -> Option<i64>;

/// `DateTime::parse_from_rfc3339(s)` and `timestamp()`: named by [`rfc3339_seconds`].
#[verifier::external_body]
fn parse_rfc3339(s: &str) -> (r: Option<i64>)
    ensures
        r == rfc3339_seconds(s@),
{
    match chrono::DateTime::parse_from_rfc3339(s) {
        Ok(dt) => Some(dt.timestamp()),
        Err(_) => None,
    }
}

/// The text of a field that is present as text.
pub open spec fn text_of(f: EventField) -> Option<Seq<char>> {
    match f {
        Some(Some(s)) => Some(s@),
        _ => None,
    }
}

/// The first of three fields that is present, read as text (a present field
/// that is not text gives nothing, without looking further).
pub open spec fn first_present(a: EventField, b: EventField, c: EventField) -> Option<Seq<char>> {
    match a {
        Some(x) => opt_str(x),
        None => match b {
            Some(x) => opt_str(x),
            None => match c {
                Some(x) => opt_str(x),
                None => None,
            },
        },
    }
}

/// The event name other plugins see for a subscription type: `twitch.` and
/// the type with each `.` made `_`.
pub open spec fn event_name_spec(t: Seq<char>) -> Seq<char> {
    "twitch."@ + t.map_values(|c: char| if c == '.' { '_' } else { c })
}

/// A notification as it is queued for the plugins.
pub struct QueuedEvent {
    pub event_type: String,
    pub user_id: Option<String>,
    pub username: Option<String>,
    /// For a follow: when it happened, in Unix seconds.
    pub followed_at: Option<i64>,
}

/// What is queued for a notification of type `t` at `now`. A follow needs a
/// user id and name and is queued as `twitch.follow` with its time (the
/// `followed_at` field, or `now` when it is missing or does not parse); any
/// other type is queued under [`event_name_spec`], with the user id and name
/// of the user, else the raiding broadcaster, else the broadcaster.
pub open spec fn queued_spec(t: Seq<char>, e: EventFields, now: i64) -> Option<(Seq<char>, Option<Seq<char>>, Option<Seq<char>>, Option<i64>)> {
    if t == "channel.follow"@ {
        match (text_of(e.user_id), text_of(e.user_name)) {
            (Some(id), Some(name)) => {
                let at = match text_of(e.followed_at) {
                    Some(s) => match rfc3339_seconds(s) {
                        Some(x) => x,
                        None => now,
                    },
                    None => now,
                };
                Some(("twitch.follow"@, Some(id), Some(name), Some(at)))
            },
            _ => None,
        }
    } else {
        Some(
            (
                event_name_spec(t),
                first_present(e.user_id, e.from_broadcaster_user_id, e.broadcaster_user_id),
                first_present(e.user_name, e.from_broadcaster_user_name, e.broadcaster_user_name),
                None,
            ),
        )
    }
}

/// The text of a field that is present as text.
fn field_text(f: &EventField) -> (r: Option<String>)
    ensures
        opt_str(r) == text_of(*f),
{
    match f {
        Some(Some(s)) => Some(s.clone()),
        _ => None,
    }
}

/// The first of three fields that is present, read as text.
fn first_field(a: &EventField, b: &EventField, c: &EventField) -> (r: Option<String>)
    ensures
        opt_str(r) == first_present(*a, *b, *c),
{
    match a {
        Some(x) => x.clone(),
        None => match b {
            Some(x) => x.clone(),
            None => match c {
                Some(x) => x.clone(),
                None => None,
            },
        },
    }
}

/// The event name for a subscription type (see [`event_name_spec`]).
pub fn event_name(t: &str) -> (r: String)
    ensures
        r@ == event_name_spec(t@),
{
    let v = chars_of(t);
    let mut out = chars_of("twitch.");
    let ghost start = out@;
    let mut i: usize = 0;
    while i < v.len()
        invariant
            i <= v@.len(),
            start == "twitch."@,
            out@ == start + v@.take(i as int).map_values(|c: char| if c == '.' { '_' } else { c }),
        decreases v.len() - i,
    {
        let c = v[i];
        out.push(if c == '.' { '_' } else { c });
        i = i + 1;
        assert(v@.take(i as int).map_values(|c: char| if c == '.' { '_' } else { c }) =~= v@.take(
            i - 1,
        ).map_values(|c: char| if c == '.' { '_' } else { c }).push(if c == '.' { '_' } else { c }));
    }
    assert(v@.take(i as int) =~= v@);
    assert(v@ == t@);
    string_of(&out)
}

/// What is queued for a notification (see [`queued_spec`]).
pub fn queued_event(event_type: &str, e: &EventFields, now: i64) -> (r: Option<QueuedEvent>)
    ensures
        match r {
            Some(q) => queued_spec(event_type@, *e, now) == Some(
                (q.event_type@, opt_str(q.user_id), opt_str(q.username), q.followed_at),
            ),
            None => queued_spec(event_type@, *e, now) is None,
        },
{
    if same_text(event_type, "channel.follow") {
        let id = field_text(&e.user_id);
        let name = field_text(&e.user_name);
        if id.is_none() || name.is_none() {
            return None;
        }
        let at = match field_text(&e.followed_at) {
            Some(s) => match parse_rfc3339(s.as_str()) {
                Some(x) => x,
                None => now,
            },
            None => now,
        };
        Some(QueuedEvent { event_type: "twitch.follow".to_owned(), user_id: id, username: name, followed_at: Some(at) })
    } else {
        Some(
            QueuedEvent {
                event_type: event_name(event_type),
                user_id: first_field(&e.user_id, &e.from_broadcaster_user_id, &e.broadcaster_user_id),
                username: first_field(&e.user_name, &e.from_broadcaster_user_name, &e.broadcaster_user_name),
                followed_at: None,
            },
        )
    }
}

/// What a message of the EventSub WebSocket asks for.
pub enum SocketAction {
    /// `session_welcome` with its session id.
    Welcome(String),
    /// `session_welcome` without a session id: an error.
    MissingSession,
    Keepalive,
    /// `notification`: save and announce an event of this type.
    Notification(String),
    Reconnect,
    /// `revocation` of a subscription of this type.
    Revocation(String),
    Unknown,
}

/// Reads a WebSocket message from its message type, session id and
/// subscription type (`unknown` stands for a missing type).
pub fn socket_action(message_type: Option<String>, session_id: Option<String>, subscription_type: Option<String>) -> (r: SocketAction)
    ensures
        ({
            let mt = match message_type {
                Some(m) => m@,
                None => "unknown"@,
            };
            let st = match subscription_type {
                Some(t) => t@,
                None => "unknown"@,
            };
            if mt == "session_welcome"@ {
                match session_id {
                    Some(id) => r matches SocketAction::Welcome(x) && x@ == id@,
                    None => r is MissingSession,
                }
            } else if mt == "session_keepalive"@ {
                r is Keepalive
            } else if mt == "notification"@ {
                r matches SocketAction::Notification(x) && x@ == st
            } else if mt == "session_reconnect"@ {
                r is Reconnect
            } else if mt == "revocation"@ {
                r matches SocketAction::Revocation(x) && x@ == st
            } else {
                r is Unknown
            }
        }),
{
    let mt = match message_type {
        Some(m) => m,
        None => "unknown".to_owned(),
    };
    let st = match subscription_type {
        Some(t) => t,
        None => "unknown".to_owned(),
    };
    let m = mt.as_str();
    if same_text(m, "session_welcome") {
        match session_id {
            Some(id) => SocketAction::Welcome(id),
            None => SocketAction::MissingSession,
        }
    } else if same_text(m, "session_keepalive") {
        SocketAction::Keepalive
    } else if same_text(m, "notification") {
        SocketAction::Notification(st)
    } else if same_text(m, "session_reconnect") {
        SocketAction::Reconnect
    } else if same_text(m, "revocation") {
        SocketAction::Revocation(st)
    } else {
        SocketAction::Unknown
    }
}

} // verus!
