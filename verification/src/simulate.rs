//! Simulated Twitch traffic for the test routes: fake EventSub events and
//! fake chat messages.
use vstd::prelude::*;
use crate::text::{append_str, chars_of, decimal, push_decimal_i64, push_decimal_u64, decimal_nat, same_text, string_of};
use crate::query::hex_upper;

verus! {

/// The body of a simulated-event request: the event kind and the fields that
/// kind reads.
pub struct TestEventRequest {
    pub kind: Option<String>,
    pub follower_name: Option<String>,
    pub subscriber_name: Option<String>,
    pub cheerer_name: Option<String>,
    pub raider_name: Option<String>,
    pub bits: Option<i64>,
    pub viewers: Option<i64>,
}

/// A simulated EventSub event.
pub enum TestEvent {
    Follow(String),
    Subscribe(String),
    /// A cheer: who, and how many bits.
    Cheer(String, i64),
    /// A raid: who, and with how many viewers.
    Raid(String, i64),
    /// Five events of several kinds.
    Bulk,
    Unknown,
}

/// The text held by an optional field, or a default.
pub open spec fn or_default(o: Option<String>, d: Seq<char>) -> Seq<char> {
    match o {
        Some(s) => s@,
        None => d,
    }
}

fn text_or(o: Option<String>, d: &str) -> (r: String)
    ensures
        r@ == or_default(o, d@),
{
    match o {
        Some(s) => s,
        None => d.to_owned(),
    }
}

/// Reads a simulated-event request: the kind defaults to `follow`, names to
/// `test_follower`, `test_subscriber`, `test_cheerer`, `test_raider`, bits to
/// 100 and viewers to 50.
pub fn test_event(req: TestEventRequest) -> (r: TestEvent)
    ensures
        ({
            let k = or_default(req.kind, "follow"@);
            if k == "follow"@ {
                r matches TestEvent::Follow(n) && n@ == or_default(req.follower_name, "test_follower"@)
            } else if k == "subscribe"@ {
                r matches TestEvent::Subscribe(n) && n@ == or_default(req.subscriber_name, "test_subscriber"@)
            } else if k == "cheer"@ {
                r matches TestEvent::Cheer(n, b) && n@ == or_default(req.cheerer_name, "test_cheerer"@)
                    && b == (match req.bits { Some(x) => x, None => 100 })
            } else if k == "raid"@ {
                r matches TestEvent::Raid(n, v) && n@ == or_default(req.raider_name, "test_raider"@)
                    && v == (match req.viewers { Some(x) => x, None => 50 })
            } else if k == "bulk_events"@ {
                r is Bulk
            } else {
                r is Unknown
            }
        }),
{
    let k = text_or(req.kind, "follow");
    let ks = k.as_str();
    if same_text(ks, "follow") {
        TestEvent::Follow(text_or(req.follower_name, "test_follower"))
    } else if same_text(ks, "subscribe") {
        TestEvent::Subscribe(text_or(req.subscriber_name, "test_subscriber"))
    } else if same_text(ks, "cheer") {
        let b = match req.bits {
            Some(x) => x,
            None => 100,
        };
        TestEvent::Cheer(text_or(req.cheerer_name, "test_cheerer"), b)
    } else if same_text(ks, "raid") {
        let v = match req.viewers {
            Some(x) => x,
            None => 50,
        };
        TestEvent::Raid(text_or(req.raider_name, "test_raider"), v)
    } else if same_text(ks, "bulk_events") {
        TestEvent::Bulk
    } else {
        TestEvent::Unknown
    }
}

/// The `type` of the reply to a simulated event; `None` for an unknown kind.
pub open spec fn reply_type_spec(e: TestEvent) -> Option<Seq<char>> {
    match e {
        TestEvent::Follow(_) => Some("follow_event"@),
        TestEvent::Subscribe(_) => Some("subscribe_event"@),
        TestEvent::Cheer(_, _) => Some("cheer_event"@),
        TestEvent::Raid(_, _) => Some("raid_event"@),
        TestEvent::Bulk => Some("bulk_events"@),
        TestEvent::Unknown => None,
    }
}

/// The EventSub type a single simulated event is stored under.
pub open spec fn stored_type_spec(e: TestEvent) -> Seq<char> {
    match e {
        TestEvent::Follow(_) => "channel.follow"@,
        TestEvent::Subscribe(_) => "channel.subscribe"@,
        TestEvent::Cheer(_, _) => "channel.cheer"@,
        TestEvent::Raid(_, _) => "channel.raid"@,
        _ => Seq::empty(),
    }
}

/// A single event: one of follow, subscribe, cheer and raid.
pub open spec fn is_single(e: TestEvent) -> bool {
    e is Follow || e is Subscribe || e is Cheer || e is Raid
}

/// The reply message for a simulated event, or the error for an unknown kind.
pub open spec fn test_event_message_spec(e: TestEvent) -> Seq<char> {
    match e {
        TestEvent::Follow(n) => "Test follow event created for "@ + n@,
        TestEvent::Subscribe(n) => "Test subscribe event created for "@ + n@,
        TestEvent::Cheer(n, b) => "Test cheer event created: "@ + decimal(b as int) + " bits from "@ + n@,
        TestEvent::Raid(n, v) => "Test raid event created: "@ + n@ + " raiding with "@ + decimal(v as int)
            + " viewers"@,
        TestEvent::Bulk => "Created 5 test events (2 follows, 1 sub, 1 cheer, 1 raid)"@,
        TestEvent::Unknown => "Unknown test type. Use: follow, subscribe, cheer, raid, or bulk_events"@,
    }
}

/// The reply message for a simulated event (see [`test_event_message_spec`]).
pub fn test_event_message(e: &TestEvent) -> (r: String)
    ensures
        r@ == test_event_message_spec(*e),
{
    let mut m: Vec<char> = Vec::new();
    match e {
        TestEvent::Follow(n) => {
            append_str(&mut m, "Test follow event created for ");
            append_str(&mut m, n.as_str());
        },
        TestEvent::Subscribe(n) => {
            append_str(&mut m, "Test subscribe event created for ");
            append_str(&mut m, n.as_str());
        },
        TestEvent::Cheer(n, b) => {
            append_str(&mut m, "Test cheer event created: ");
            push_decimal_i64(&mut m, *b);
            append_str(&mut m, " bits from ");
            append_str(&mut m, n.as_str());
        },
        TestEvent::Raid(n, v) => {
            append_str(&mut m, "Test raid event created: ");
            append_str(&mut m, n.as_str());
            append_str(&mut m, " raiding with ");
            push_decimal_i64(&mut m, *v);
            append_str(&mut m, " viewers");
        },
        TestEvent::Bulk => append_str(&mut m, "Created 5 test events (2 follows, 1 sub, 1 cheer, 1 raid)"),
        TestEvent::Unknown => append_str(
            &mut m,
            "Unknown test type. Use: follow, subscribe, cheer, raid, or bulk_events",
        ),
    }
    assert(m@ =~= test_event_message_spec(*e));
    string_of(&m)
}

/// The `type` of the reply to a simulated event (see [`reply_type_spec`]).
pub fn test_event_kind(e: &TestEvent) -> (r: Option<String>)
    ensures
        match r {
            Some(t) => reply_type_spec(*e) == Some(t@),
            None => reply_type_spec(*e) is None,
        },
{
    match e {
        TestEvent::Follow(_) => Some("follow_event".to_owned()),
        TestEvent::Subscribe(_) => Some("subscribe_event".to_owned()),
        TestEvent::Cheer(_, _) => Some("cheer_event".to_owned()),
        TestEvent::Raid(_, _) => Some("raid_event".to_owned()),
        TestEvent::Bulk => Some("bulk_events".to_owned()),
        TestEvent::Unknown => None,
    }
}

fn copy_event(e: &TestEvent) -> (r: TestEvent)
    ensures
        r == *e,
{
    match e {
        TestEvent::Follow(n) => TestEvent::Follow(n.clone()),
        TestEvent::Subscribe(n) => TestEvent::Subscribe(n.clone()),
        TestEvent::Cheer(n, b) => TestEvent::Cheer(n.clone(), *b),
        TestEvent::Raid(n, v) => TestEvent::Raid(n.clone(), *v),
        TestEvent::Bulk => TestEvent::Bulk,
        TestEvent::Unknown => TestEvent::Unknown,
    }
}

/// The events stored for a simulated-event request, each with the EventSub
/// type it is stored under, in order: a single event once under its own
/// type; for `bulk_events` five events, the follows of `follower1` and
/// `follower2`, the subscription of `subscriber1`, a cheer of 500 bits from
/// `cheerer1` and a raid of 100 viewers from `raider1`; nothing for an
/// unknown kind.
pub fn stored_test_events(e: &TestEvent) -> (r: Vec<(String, TestEvent)>)
    ensures
        is_single(*e) ==> r@.len() == 1 && r@[0].0@ == stored_type_spec(*e) && r@[0].1 == *e,
        e is Unknown ==> r@.len() == 0,
        e is Bulk ==> {
            &&& r@.len() == 5
            &&& r@[0].0@ == "channel.follow"@
            &&& r@[0].1 matches TestEvent::Follow(n) && n@ == "follower1"@
            &&& r@[1].0@ == "channel.follow"@
            &&& r@[1].1 matches TestEvent::Follow(n) && n@ == "follower2"@
            &&& r@[2].0@ == "channel.subscribe"@
            &&& r@[2].1 matches TestEvent::Subscribe(n) && n@ == "subscriber1"@
            &&& r@[3].0@ == "channel.cheer"@
            &&& r@[3].1 matches TestEvent::Cheer(n, b) && n@ == "cheerer1"@ && b == 500
            &&& r@[4].0@ == "channel.raid"@
            &&& r@[4].1 matches TestEvent::Raid(n, v) && n@ == "raider1"@ && v == 100
        },
{
    let mut r: Vec<(String, TestEvent)> = Vec::new();
    match e {
        TestEvent::Follow(_) => r.push(("channel.follow".to_owned(), copy_event(e))),
        TestEvent::Subscribe(_) => r.push(("channel.subscribe".to_owned(), copy_event(e))),
        TestEvent::Cheer(_, _) => r.push(("channel.cheer".to_owned(), copy_event(e))),
        TestEvent::Raid(_, _) => r.push(("channel.raid".to_owned(), copy_event(e))),
        TestEvent::Bulk => {
            r.push(("channel.follow".to_owned(), TestEvent::Follow("follower1".to_owned())));
            r.push(("channel.follow".to_owned(), TestEvent::Follow("follower2".to_owned())));
            r.push(("channel.subscribe".to_owned(), TestEvent::Subscribe("subscriber1".to_owned())));
            r.push(("channel.cheer".to_owned(), TestEvent::Cheer("cheerer1".to_owned(), 500)));
            r.push(("channel.raid".to_owned(), TestEvent::Raid("raider1".to_owned(), 100)));
        },
        TestEvent::Unknown => {},
    }
    r
}

/// The chat text of a simulated cheer.
pub fn cheer_text(bits: i64) -> (r: String)
    ensures
        r@ == "Cheered "@ + decimal(bits as int) + " bits!"@,
{
    let mut m = chars_of("Cheered ");
    push_decimal_i64(&mut m, bits);
    append_str(&mut m, " bits!");
    string_of(&m)
}

/// A simulated chat test.
pub enum ChatTest {
    /// Store one message in a channel.
    Message { channel: String, message: String },
    /// Report on the connection test.
    Connection,
    /// Store five messages in a channel.
    Bulk { channel: String },
    Unknown,
}

/// Reads a simulated-chat request: the kind defaults to `message`, the
/// channel to `webarcade`, the message to a fixed greeting.
pub fn chat_test(kind: Option<String>, channel: Option<String>, message: Option<String>) -> (r: ChatTest)
    ensures
        ({
            let k = or_default(kind, "message"@);
            let c = or_default(channel, "webarcade"@);
            if k == "message"@ {
                r matches ChatTest::Message { channel: ch, message: m } && ch@ == c
                    && m@ == or_default(message, "Test message from WebArcade Twitch plugin!"@)
            } else if k == "connection"@ {
                r is Connection
            } else if k == "bulk_messages"@ {
                r matches ChatTest::Bulk { channel: ch } && ch@ == c
            } else {
                r is Unknown
            }
        }),
{
    let k = text_or(kind, "message");
    let ks = k.as_str();
    if same_text(ks, "message") {
        ChatTest::Message {
            channel: text_or(channel, "webarcade"),
            message: text_or(message, "Test message from WebArcade Twitch plugin!"),
        }
    } else if same_text(ks, "connection") {
        ChatTest::Connection
    } else if same_text(ks, "bulk_messages") {
        ChatTest::Bulk { channel: text_or(channel, "webarcade") }
    } else {
        ChatTest::Unknown
    }
}

/// A chat row stored by the chat tests.
pub struct TestChatRow {
    pub channel: String,
    pub username: String,
    pub user_id: String,
    pub message: String,
    pub timestamp: i64,
    pub color: String,
    pub display_name: String,
}

/// The colour of the `i`-th bulk message: `#FF`, the byte `i * 50 mod 256`
/// as two upper-case hex digits, then `00`.
pub open spec fn bulk_color_spec(i: int) -> Seq<char> {
    let b = (i * 50) % 256;
    "#FF"@ + seq![hex_upper(b / 16), hex_upper(b % 16)] + "00"@
}

fn hex_digit_upper(d: u64) -> (r: char)
    requires
        d < 16,
    ensures
        r == hex_upper(d as int),
{
    if d < 10 {
        if d == 0 { '0' } else if d == 1 { '1' } else if d == 2 { '2' } else if d == 3 { '3' } else if d == 4 { '4' } else if d == 5 { '5' } else if d == 6 { '6' } else if d == 7 { '7' } else if d == 8 { '8' } else { '9' }
    } else if d == 10 {
        'A'
    } else if d == 11 {
        'B'
    } else if d == 12 {
        'C'
    } else if d == 13 {
        'D'
    } else if d == 14 {
        'E'
    } else {
        'F'
    }
}

/// The colour of the `i`-th bulk message (see [`bulk_color_spec`]).
pub fn bulk_color(i: u64) -> (r: String)
    requires
        i <= u64::MAX / 50,
    ensures
        r@ == bulk_color_spec(i as int),
{
    let b = (i * 50) % 256;
    let mut m = chars_of("#FF");
    m.push(hex_digit_upper(b / 16));
    m.push(hex_digit_upper(b % 16));
    append_str(&mut m, "00");
    assert(m@ =~= bulk_color_spec(i as int));
    string_of(&m)
}

/// The five (user, message) pairs of the bulk chat test.
pub open spec fn bulk_lines() -> Seq<(Seq<char>, Seq<char>)> {
    seq![
        ("user1"@, "Hello chat!"@),
        ("user2"@, "How's everyone doing?"@),
        ("user3"@, "This is a test message"@),
        ("user4"@, "Testing IRC functionality"@),
        ("user5"@, "WebArcade is awesome!"@),
    ]
}

/// The rows of the bulk chat test: the `i`-th line is from user id
/// `10000 + i`, one second after the one before, coloured by [`bulk_color_spec`],
/// shown under the user name.
pub fn bulk_test_rows(channel: &str, timestamp: i64) -> (r: Vec<TestChatRow>)
    requires
        timestamp <= i64::MAX - 4,
    ensures
        r@.len() == 5,
        forall|i: int| 0 <= i < 5 ==> {
            let row = #[trigger] r@[i];
            &&& row.channel@ == channel@
            &&& row.username@ == bulk_lines()[i].0
            &&& row.display_name@ == bulk_lines()[i].0
            &&& row.message@ == bulk_lines()[i].1
            &&& row.user_id@ == decimal(10000 + i)
            &&& row.timestamp == timestamp + i
            &&& row.color@ == bulk_color_spec(i)
        },
{
    let lines: Vec<(&str, &str)> = vec![
        ("user1", "Hello chat!"),
        ("user2", "How's everyone doing?"),
        ("user3", "This is a test message"),
        ("user4", "Testing IRC functionality"),
        ("user5", "WebArcade is awesome!"),
    ];
    let mut rows: Vec<TestChatRow> = Vec::new();
    let mut i: usize = 0;
    while i < 5
        invariant
            i <= 5,
            lines@.len() == 5,
            forall|k: int| 0 <= k < 5 ==> (#[trigger] lines@[k]).0@ == bulk_lines()[k].0 && lines@[k].1@ == bulk_lines()[k].1,
            timestamp <= i64::MAX - 4,
            rows@.len() == i,
            forall|k: int| 0 <= k < i ==> {
                let row = #[trigger] rows@[k];
                &&& row.channel@ == channel@
                &&& row.username@ == bulk_lines()[k].0
                &&& row.display_name@ == bulk_lines()[k].0
                &&& row.message@ == bulk_lines()[k].1
                &&& row.user_id@ == decimal(10000 + k)
                &&& row.timestamp == timestamp + k
                &&& row.color@ == bulk_color_spec(k)
            },
        decreases 5 - i,
    {
        let (user, message) = lines[i];
        let mut id: Vec<char> = Vec::new();
        push_decimal_u64(&mut id, 10000 + i as u64);
        assert(decimal((10000 + i) as int) == decimal_nat((10000 + i) as nat));
        rows.push(TestChatRow {
            channel: channel.to_owned(),
            username: user.to_owned(),
            user_id: string_of(&id),
            message: message.to_owned(),
            timestamp: timestamp + i as i64,
            color: bulk_color(i as u64),
            display_name: user.to_owned(),
        });
        i = i + 1;
    }
    rows
}

} // verus!
