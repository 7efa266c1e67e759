//! OAuth for Twitch and YouTube: authorization URLs, scopes, token forms,
//! reading token responses and token expiry.
use vstd::prelude::*;
use vstd::string::StringSliceAdditionalSpecFns;
use vstd::utf8::encode_utf8;
use std::time::{Duration, SystemTime, UNIX_EPOCH};
use crate::query::{parse_query_param, percent_encoded, query_param, url_encode};
use crate::text::{append_str, chars_of, join_with, same_text, string_of, strip_prefixes, strip_prefixes_of};

verus! {

#[verifier::external_type_specification]
#[verifier::external_body]
pub struct ExSystemTime(SystemTime);

/// `SystemTime::now`: the clock's current time (nothing is known of it).
#[verifier::external_body]
fn system_now() -> (r: SystemTime) {
    SystemTime::now()
}

/// `SystemTime::duration_since(UNIX_EPOCH)`: the time since the epoch, or
/// `None` for a clock set before it (nothing more is stated of the value).
#[verifier::external_body]
fn since_epoch(t: &SystemTime) -> (r: Option<Duration>) {
    match t.duration_since(UNIX_EPOCH) {
        Ok(d) => Some(d),
        Err(_) => None,
    }
}

/// `Duration::as_secs`: the whole seconds of a duration (nothing is stated
/// of the value).
#[verifier::external_body]
fn whole_seconds(d: &Duration) -> (r: u64) {
    d.as_secs()
}

/// The whole seconds since the Unix epoch by the system clock, or `None`
/// for a clock set before the epoch.
fn clock_seconds() -> (r: Option<u64>) {
    let now = system_now();
    match since_epoch(&now) {
        Some(d) => Some(whole_seconds(&d)),
        None => None,
    }
}

/// A clock reading as a timestamp: the whole seconds taken as an `i64` (with
/// Rust's `as`, which wraps past `i64::MAX`), and 0 for a clock set before
/// the epoch.
pub fn timestamp_of(secs: Option<u64>) -> (r: i64)
    ensures
        r == (match secs {
            Some(s) => s as i64,
            None => 0i64,
        }),
        secs matches Some(s) ==> (s <= i64::MAX ==> r == s && r >= 0),
{
    match secs {
        Some(s) => s as i64,
        None => 0,
    }
}

/// Seconds since the Unix epoch by the system clock ([`timestamp_of`] the
/// clock's reading); a clock set before the epoch reads as 0. The reading
/// itself depends on the time, so nothing more is stated of the result.
pub fn current_timestamp() -> (r: i64) {
    timestamp_of(clock_seconds())
}

/// A token that expires at `expires_at` has expired at `now`.
pub fn expired_at(now: i64, expires_at: i64) -> (r: bool)
    ensures
        r == (now >= expires_at),
{
    now >= expires_at
}

/// Whether a token that expires at `expires_at` has expired by the system
/// clock: [`expired_at`] applied to [`current_timestamp`], which depends on
/// the time and so states nothing more.
pub fn is_token_expired(expires_at: i64) -> (r: bool) {
    let now = current_timestamp();
    expired_at(now, expires_at)
}

/// A token is refreshed ahead of use when less than 300 seconds remain.
pub fn needs_refresh(expires_at: i64, now: i64) -> (r: bool)
    requires
        i64::MIN <= expires_at - now <= i64::MAX,
    ensures
        r == (expires_at - now < 300),
{
    expires_at - now < 300
}

/// When a token issued at `now` for `expires_in` seconds expires.
pub fn expiry_time(now: i64, expires_in: i64) -> (r: i64)
    requires
        i64::MIN <= now + expires_in <= i64::MAX,
    ensures
        r == now + expires_in,
{
    now + expires_in
}

/// Where Twitch sends the user back after authorizing.
pub open spec fn twitch_redirect() -> Seq<char> {
    "http://localhost:3001/twitch/auth/callback"@
}

/// The scopes a Twitch account of a type asks for: the broadcaster's full
/// set, or the chat scopes of a bot.
pub open spec fn twitch_scopes(account_type: Seq<char>) -> Seq<Seq<char>> {
    if account_type == "broadcaster"@ {
        seq![
            "channel:read:subscriptions"@,
            "channel:read:redemptions"@,
            "channel:manage:redemptions"@,
            "channel:read:hype_train"@,
            "channel:read:polls"@,
            "channel:manage:polls"@,
            "channel:read:predictions"@,
            "channel:manage:predictions"@,
            "moderator:read:followers"@,
            "moderator:read:chatters"@,
            "chat:read"@,
            "chat:edit"@,
            "whispers:read"@,
            "whispers:edit"@,
        ]
    } else {
        seq!["chat:read"@, "chat:edit"@, "whispers:read"@, "whispers:edit"@]
    }
}

/// The chat scopes every account is authorized for.
pub open spec fn chat_scopes() -> Set<Seq<char>> {
    set!["chat:read"@, "chat:edit"@, "whispers:read"@, "whispers:edit"@]
}

/// The scopes the broadcaster's account needs besides the chat scopes:
/// reading subscriptions, redemptions, hype trains, polls and predictions,
/// managing redemptions, polls and predictions, and reading followers and
/// chatters.
pub open spec fn broadcaster_extra_scopes() -> Set<Seq<char>> {
    set![
        "channel:read:subscriptions"@,
        "channel:read:redemptions"@,
        "channel:manage:redemptions"@,
        "channel:read:hype_train"@,
        "channel:read:polls"@,
        "channel:manage:polls"@,
        "channel:read:predictions"@,
        "channel:manage:predictions"@,
        "moderator:read:followers"@,
        "moderator:read:chatters"@
    ]
}

/// The scopes asked for each account type: the broadcaster gets the 14
/// scopes of the chat and broadcaster lists (among them
/// `moderator:read:followers`, which follow events need), every other
/// account (the bot) exactly the four chat scopes.
pub proof fn lemma_scope_lists(account_type: Seq<char>)
    ensures
        account_type == "broadcaster"@ ==> twitch_scopes(account_type).len() == 14
            && twitch_scopes(account_type).to_set() == chat_scopes() + broadcaster_extra_scopes(),
        account_type != "broadcaster"@ ==> twitch_scopes(account_type).len() == 4
            && twitch_scopes(account_type).to_set() == chat_scopes(),
        forall|x: Seq<char>| chat_scopes().contains(x) ==> #[trigger] twitch_scopes(account_type).contains(x),
{
    let s = twitch_scopes(account_type);
    if account_type == "broadcaster"@ {
        let all = chat_scopes() + broadcaster_extra_scopes();
        assert forall|x: Seq<char>| s.to_set().contains(x) <==> all.contains(x) by {
            if all.contains(x) {
                if x == "channel:read:subscriptions"@ { assert(s[0] == x); }
                if x == "channel:read:redemptions"@ { assert(s[1] == x); }
                if x == "channel:manage:redemptions"@ { assert(s[2] == x); }
                if x == "channel:read:hype_train"@ { assert(s[3] == x); }
                if x == "channel:read:polls"@ { assert(s[4] == x); }
                if x == "channel:manage:polls"@ { assert(s[5] == x); }
                if x == "channel:read:predictions"@ { assert(s[6] == x); }
                if x == "channel:manage:predictions"@ { assert(s[7] == x); }
                if x == "moderator:read:followers"@ { assert(s[8] == x); }
                if x == "moderator:read:chatters"@ { assert(s[9] == x); }
                if x == "chat:read"@ { assert(s[10] == x); }
                if x == "chat:edit"@ { assert(s[11] == x); }
                if x == "whispers:read"@ { assert(s[12] == x); }
                if x == "whispers:edit"@ { assert(s[13] == x); }
            }
            if s.to_set().contains(x) {
                let i = choose|i: int| 0 <= i < s.len() && s[i] == x;
                assert(all.contains(s[i]));
            }
        }
        assert(s.to_set() =~= all);
    } else {
        let all = chat_scopes();
        assert forall|x: Seq<char>| s.to_set().contains(x) <==> all.contains(x) by {
            if all.contains(x) {
                if x == "chat:read"@ { assert(s[0] == x); }
                if x == "chat:edit"@ { assert(s[1] == x); }
                if x == "whispers:read"@ { assert(s[2] == x); }
                if x == "whispers:edit"@ { assert(s[3] == x); }
            }
            if s.to_set().contains(x) {
                let i = choose|i: int| 0 <= i < s.len() && s[i] == x;
                assert(all.contains(s[i]));
            }
        }
        assert(s.to_set() =~= all);
    }
    assert forall|x: Seq<char>| chat_scopes().contains(x) implies #[trigger] s.contains(x) by {
        assert(s.to_set().contains(x));
    }
}

/// The scopes of an account type joined with `sep`.
pub fn scopes_joined(account_type: &str, sep: &str) -> (r: String)
    ensures
        r@ == join_with(twitch_scopes(account_type@), sep@),
{
    let broadcaster = same_text(account_type, "broadcaster");
    let list: Vec<&str> = if broadcaster {
        vec![
            "channel:read:subscriptions",
            "channel:read:redemptions",
            "channel:manage:redemptions",
            "channel:read:hype_train",
            "channel:read:polls",
            "channel:manage:polls",
            "channel:read:predictions",
            "channel:manage:predictions",
            "moderator:read:followers",
            "moderator:read:chatters",
            "chat:read",
            "chat:edit",
            "whispers:read",
            "whispers:edit",
        ]
    } else {
        vec!["chat:read", "chat:edit", "whispers:read", "whispers:edit"]
    };
    let ghost all = twitch_scopes(account_type@);
    assert(list@.len() == all.len());
    assert(forall|k: int| 0 <= k < all.len() ==> #[trigger] list@[k]@ == all[k]);
    let mut out: Vec<char> = Vec::new();
    let mut i: usize = 0;
    assert(all.take(0) =~= Seq::<Seq<char>>::empty());
    while i < list.len()
        invariant
            i <= list@.len(),
            list@.len() == all.len(),
            forall|k: int| 0 <= k < all.len() ==> #[trigger] list@[k]@ == all[k],
            out@ == join_with(all.take(i as int), sep@),
        decreases list.len() - i,
    {
        assert(all.take(i + 1).drop_last() =~= all.take(i as int));
        if i > 0 {
            append_str(&mut out, sep);
        } else {
            assert(out@ =~= Seq::<char>::empty());
        }
        append_str(&mut out, list[i]);
        i = i + 1;
        proof {
            if i == 1 {
                assert(out@ =~= all.take(1)[0]);
            }
        }
    }
    assert(all.take(i as int) =~= all);
    string_of(&out)
}

/// The Twitch authorization URL for an account type, with the app's client
/// id: the redirect and the space-joined scopes percent-encoded, the
/// account type as the state.
pub open spec fn twitch_auth_url_spec(client_id: Seq<char>, account_type: Seq<char>, redirect_enc: Seq<char>, scopes_enc: Seq<char>) -> Seq<char> {
    "https://id.twitch.tv/oauth2/authorize?client_id="@ + client_id + "&redirect_uri="@ + redirect_enc
        + "&response_type=code&scope="@ + scopes_enc + "&state="@ + account_type
}

/// The Twitch authorization URL (see [`twitch_auth_url_spec`]); the client id
/// is the one stored in the settings.
pub fn generate_auth_url(client_id: &str, account_type: &str) -> (r: String)
    ensures
        r@ == twitch_auth_url_spec(
            client_id@,
            account_type@,
            percent_encoded(encode_utf8(twitch_redirect())),
            percent_encoded(encode_utf8(join_with(twitch_scopes(account_type@), " "@))),
        ),
{
    let redirect = "http://localhost:3001/twitch/auth/callback";
    let scopes = scopes_joined(account_type, " ");
    let re = url_encode(redirect);
    let ss = scopes.as_str();
    let se = url_encode(ss);
    let mut m = chars_of("https://id.twitch.tv/oauth2/authorize?client_id=");
    append_str(&mut m, client_id);
    append_str(&mut m, "&redirect_uri=");
    append_str(&mut m, re.as_str());
    append_str(&mut m, "&response_type=code&scope=");
    append_str(&mut m, se.as_str());
    append_str(&mut m, "&state=");
    append_str(&mut m, account_type);
    let r = string_of(&m);
    assert(r@ =~= twitch_auth_url_spec(
        client_id@,
        account_type@,
        percent_encoded(redirect.spec_bytes()),
        percent_encoded(ss.spec_bytes()),
    ));
    r
}

/// The client id among the stored Twitch settings (`key`, `value` rows):
/// the value of the row keyed `client_id`.
pub fn get_client_id_public(settings: &Vec<(String, String)>) -> (r: Option<String>)
    ensures
        match r {
            Some(v) => exists|i: int| 0 <= i < settings@.len() && settings@[i].0@ == "client_id"@
                && settings@[i].1@ == v@,
            None => forall|i: int| 0 <= i < settings@.len() ==> settings@[i].0@ != "client_id"@,
        },
{
    let mut i: usize = 0;
    while i < settings.len()
        invariant
            i <= settings@.len(),
            forall|k: int| 0 <= k < i ==> settings@[k].0@ != "client_id"@,
        decreases settings.len() - i,
    {
        if same_text(settings[i].0.as_str(), "client_id") {
            return Some(settings[i].1.clone());
        }
        i = i + 1;
    }
    None
}

/// The fields of a token response that the plugins read.
pub struct TokenFields {
    pub access_token: Option<String>,
    pub refresh_token: Option<String>,
    pub expires_in: Option<i64>,
}

/// A token response without a field the plugins need.
#[derive(PartialEq, Eq, Structural, Clone, Copy, Debug)]
pub enum TokenError {
    MissingAccessToken,
    MissingRefreshToken,
    MissingExpiresIn,
}

/// Reads a token response: access token, refresh token and lifetime, each
/// required, checked in that order.
pub fn read_token(t: TokenFields) -> (r: Result<(String, String, i64), TokenError>)
    ensures
        match (t.access_token, t.refresh_token, t.expires_in) {
            (Some(a), Some(b), Some(e)) => r matches Ok(x) && x.0@ == a@ && x.1@ == b@ && x.2 == e,
            (None, _, _) => r == Err::<(String, String, i64), TokenError>(TokenError::MissingAccessToken),
            (Some(_), None, _) => r == Err::<(String, String, i64), TokenError>(TokenError::MissingRefreshToken),
            (Some(_), Some(_), None) => r == Err::<(String, String, i64), TokenError>(TokenError::MissingExpiresIn),
        },
{
    let a = match t.access_token {
        Some(a) => a,
        None => return Err(TokenError::MissingAccessToken),
    };
    let b = match t.refresh_token {
        Some(b) => b,
        None => return Err(TokenError::MissingRefreshToken),
    };
    match t.expires_in {
        Some(e) => Ok((a, b, e)),
        None => Err(TokenError::MissingExpiresIn),
    }
}

/// The form that trades an authorization code for tokens.
pub fn code_exchange_form(client_id: &str, client_secret: &str, code: &str) -> (r: Vec<(String, String)>)
    ensures
        r@.len() == 5,
        r@[0].0@ == "client_id"@ && r@[0].1@ == client_id@,
        r@[1].0@ == "client_secret"@ && r@[1].1@ == client_secret@,
        r@[2].0@ == "code"@ && r@[2].1@ == code@,
        r@[3].0@ == "grant_type"@ && r@[3].1@ == "authorization_code"@,
        r@[4].0@ == "redirect_uri"@ && r@[4].1@ == twitch_redirect(),
{
    let mut v: Vec<(String, String)> = Vec::new();
    v.push(("client_id".to_owned(), client_id.to_owned()));
    v.push(("client_secret".to_owned(), client_secret.to_owned()));
    v.push(("code".to_owned(), code.to_owned()));
    v.push(("grant_type".to_owned(), "authorization_code".to_owned()));
    v.push(("redirect_uri".to_owned(), "http://localhost:3001/twitch/auth/callback".to_owned()));
    v
}

/// The form that trades a refresh token for new tokens.
pub fn refresh_form(client_id: &str, client_secret: &str, refresh_token: &str) -> (r: Vec<(String, String)>)
    ensures
        r@.len() == 4,
        r@[0].0@ == "client_id"@ && r@[0].1@ == client_id@,
        r@[1].0@ == "client_secret"@ && r@[1].1@ == client_secret@,
        r@[2].0@ == "refresh_token"@ && r@[2].1@ == refresh_token@,
        r@[3].0@ == "grant_type"@ && r@[3].1@ == "refresh_token"@,
{
    let mut v: Vec<(String, String)> = Vec::new();
    v.push(("client_id".to_owned(), client_id.to_owned()));
    v.push(("client_secret".to_owned(), client_secret.to_owned()));
    v.push(("refresh_token".to_owned(), refresh_token.to_owned()));
    v.push(("grant_type".to_owned(), "refresh_token".to_owned()));
    v
}

/// The `Authorization` header for a token.
pub fn bearer(token: &str) -> (r: String)
    ensures
        r@ == "Bearer "@ + token@,
{
    let mut m = chars_of("Bearer ");
    append_str(&mut m, token);
    string_of(&m)
}

/// Stored YouTube authorization.
pub struct YouTubeAuth {
    pub user_id: String,
    pub access_token: String,
    pub refresh_token: String,
    pub expires_at: i64,
    pub scopes: Vec<String>,
    pub created_at: i64,
    pub updated_at: i64,
}

/// A Google token response.
pub struct TokenResponse {
    pub access_token: String,
    pub refresh_token: Option<String>,
    pub expires_in: i64,
    pub scope: String,
    pub token_type: String,
}

/// A Google user.
pub struct UserInfo {
    pub id: String,
    pub name: Option<String>,
    pub email: Option<String>,
}

/// The YouTube scopes, space-joined.
pub open spec fn youtube_scopes() -> Seq<char> {
    "https://www.googleapis.com/auth/youtube.readonly https://www.googleapis.com/auth/yt-analytics.readonly https://www.googleapis.com/auth/userinfo.profile"@
}

/// The Google authorization URL: client id, redirect, scopes and state
/// (`state` when none is given) percent-encoded.
pub open spec fn youtube_auth_url_spec(client_enc: Seq<char>, redirect_enc: Seq<char>, scopes_enc: Seq<char>, state_enc: Seq<char>) -> Seq<char> {
    "https://accounts.google.com/o/oauth2/v2/auth?client_id="@ + client_enc + "&redirect_uri="@
        + redirect_enc + "&response_type=code&scope="@ + scopes_enc
        + "&access_type=offline&prompt=consent&state="@ + state_enc
}

/// The Google authorization URL (see [`youtube_auth_url_spec`]).
pub fn get_auth_url(client_id: &str, state: Option<String>) -> (r: String)
    ensures
        r@ == youtube_auth_url_spec(
            percent_encoded(encode_utf8(client_id@)),
            percent_encoded(encode_utf8("http://localhost:3001/youtube/auth/callback"@)),
            percent_encoded(encode_utf8(youtube_scopes())),
            percent_encoded(encode_utf8(match state {
                Some(s) => s@,
                None => "state"@,
            })),
        ),
{
    let redirect = "http://localhost:3001/youtube/auth/callback";
    let scopes = "https://www.googleapis.com/auth/youtube.readonly https://www.googleapis.com/auth/yt-analytics.readonly https://www.googleapis.com/auth/userinfo.profile";
    let st = match state {
        Some(s) => s,
        None => "state".to_owned(),
    };
    let ce = url_encode(client_id);
    let re = url_encode(redirect);
    let se = url_encode(scopes);
    let sts = st.as_str();
    let te = url_encode(sts);
    let mut m = chars_of("https://accounts.google.com/o/oauth2/v2/auth?client_id=");
    append_str(&mut m, ce.as_str());
    append_str(&mut m, "&redirect_uri=");
    append_str(&mut m, re.as_str());
    append_str(&mut m, "&response_type=code&scope=");
    append_str(&mut m, se.as_str());
    append_str(&mut m, "&access_type=offline&prompt=consent&state=");
    append_str(&mut m, te.as_str());
    let r = string_of(&m);
    assert(r@ =~= youtube_auth_url_spec(
        percent_encoded(client_id.spec_bytes()),
        percent_encoded(redirect.spec_bytes()),
        percent_encoded(scopes.spec_bytes()),
        percent_encoded(sts.spec_bytes()),
    ));
    r
}

/// The two kinds of Twitch account.
pub open spec fn is_account_type(t: Seq<char>) -> bool {
    t == "broadcaster"@ || t == "bot"@
}

/// The account type a query parameter names, when it is `broadcaster` or
/// `bot`; `None` answers "Invalid account_type".
pub fn account_type_param(query: &str, key: &str) -> (r: Option<String>)
    ensures
        match query_param(query@, key@) {
            Some(t) => if is_account_type(t) {
                r matches Some(x) && x@ == t
            } else {
                r is None
            },
            None => r is None,
        },
{
    match parse_query_param(query, key) {
        Some(t) => if same_text(t.as_str(), "broadcaster") || same_text(t.as_str(), "bot") {
            Some(t)
        } else {
            None
        },
        None => None,
    }
}

/// Why an authorization callback is refused.
#[derive(PartialEq, Eq, Structural, Clone, Copy, Debug)]
pub enum CallbackError {
    /// "Missing 'code' parameter".
    MissingCode,
    /// "Invalid state parameter".
    InvalidState,
}

/// Reads the Twitch authorization callback: the code, then the account type
/// carried as the state.
pub fn auth_callback_params(query: &str) -> (r: Result<(String, String), CallbackError>)
    ensures
        match query_param(query@, "code"@) {
            None => r == Err::<(String, String), CallbackError>(CallbackError::MissingCode),
            Some(c) => match query_param(query@, "state"@) {
                Some(t) => if is_account_type(t) {
                    r matches Ok(x) && x.0@ == c && x.1@ == t
                } else {
                    r == Err::<(String, String), CallbackError>(CallbackError::InvalidState)
                },
                None => r == Err::<(String, String), CallbackError>(CallbackError::InvalidState),
            },
        },
{
    let code = match parse_query_param(query, "code") {
        Some(c) => c,
        None => return Err(CallbackError::MissingCode),
    };
    match account_type_param(query, "state") {
        Some(t) => Ok((code, t)),
        None => Err(CallbackError::InvalidState),
    }
}

/// The account type a deletion path names (`/accounts/` taken off as often
/// as it is there), when it is `broadcaster` or `bot`.
pub fn account_from_path(path: &str) -> (r: Option<String>)
    ensures
        ({
            let t = strip_prefixes(path@, "/accounts/"@);
            if is_account_type(t) {
                r matches Some(x) && x@ == t
            } else {
                r is None
            }
        }),
{
    let p = chars_of(path);
    let t = strip_prefixes_of(&p, "/accounts/");
    let s = string_of(&t);
    if same_text(s.as_str(), "broadcaster") || same_text(s.as_str(), "bot") {
        Some(s)
    } else {
        None
    }
}

/// The app credentials are configured when both are given and not empty.
pub fn credentials_given(client_id: &str, client_secret: &str) -> (r: bool)
    ensures
        r == (client_id@.len() > 0 && client_secret@.len() > 0),
{
    let a = chars_of(client_id);
    let b = chars_of(client_secret);
    a.len() > 0 && b.len() > 0
}

} // verus!
