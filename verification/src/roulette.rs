//! Roulette chat commands: routing, the moderators' table commands, reading
//! bets, the cost of a bet and its confirmation message.
use vstd::prelude::*;
use crate::text::{all_digits, decimal_nat, is_digit, append_str, chars_eq_str, chars_of, decimal, lowercase, opt_str, parse_i64, parse_i64_spec, push_decimal_i64, same_text, split_whitespace, split_ws, string_of, to_lower};

verus! {

/// Where a chat message goes: `!roulette <args..>` (at least one argument) to
/// the table commands, `!bet`/`!b <args..>` to betting.
pub enum RouletteRoute {
    Table(Vec<String>),
    Bet(Vec<String>),
    Ignore,
}

/// The texts of `v`.
pub open spec fn texts(v: Seq<String>) -> Seq<Seq<char>> {
    v.map_values(|s: String| s@)
}

/// How a chat message is routed: by its first word, with the other words as
/// arguments.
pub open spec fn route_spec(m: Seq<char>) -> (int, Seq<Seq<char>>) {
    let parts = split_ws(m);
    if parts.len() >= 2 && parts[0] == "!roulette"@ {
        (1, parts.skip(1))
    } else if parts.len() >= 1 && (parts[0] == "!bet"@ || parts[0] == "!b"@) {
        (2, parts.skip(1))
    } else {
        (0, Seq::empty())
    }
}

/// Routes a chat message (see [`route_spec`]: 1 is the table, 2 betting).
pub fn route_message(message: &str) -> (r: RouletteRoute)
    ensures
        match r {
            RouletteRoute::Table(a) => route_spec(message@) == (1int, texts(a@)),
            RouletteRoute::Bet(a) => route_spec(message@) == (2int, texts(a@)),
            RouletteRoute::Ignore => route_spec(message@).0 == 0,
        },
{
    let m = chars_of(message);
    let parts = split_whitespace(&m);
    let ghost ps = split_ws(m@);
    if parts.len() == 0 {
        return RouletteRoute::Ignore;
    }
    let is_table = parts.len() >= 2 && chars_eq_str(&parts[0], "!roulette");
    let is_bet = chars_eq_str(&parts[0], "!bet") || chars_eq_str(&parts[0], "!b");
    if !is_table && !is_bet {
        return RouletteRoute::Ignore;
    }
    let mut args: Vec<String> = Vec::new();
    let mut i: usize = 1;
    while i < parts.len()
        invariant
            1 <= i <= parts@.len(),
            parts@.len() == ps.len(),
            forall|k: int| 0 <= k < parts@.len() ==> #[trigger] parts@[k]@ == ps[k],
            texts(args@) == ps.subrange(1, i as int),
        decreases parts.len() - i,
    {
        let ghost before = args@;
        args.push(string_of(&parts[i]));
        assert(args@ == before.push(args@[args@.len() - 1]));
        assert(texts(args@) =~= texts(before).push(ps[i as int]));
        i = i + 1;
        assert(texts(args@) =~= ps.subrange(1, i as int));
    }
    assert(ps.subrange(1, i as int) =~= ps.skip(1));
    if is_table {
        RouletteRoute::Table(args)
    } else {
        RouletteRoute::Bet(args)
    }
}

/// A moderator's table command.
#[derive(PartialEq, Eq, Structural, Clone, Copy, Debug)]
pub enum TableAction {
    /// `on`/`enable`: enable roulette and open a table if none is running.
    Enable,
    /// `off`/`disable`: disable roulette and cancel the running game.
    Disable,
    /// `start`: open a table.
    Start,
    /// `spin`: spin the wheel of a table that takes bets.
    Spin,
    /// `refund`/`cancel`: refund every bet and cancel the game.
    Refund,
    /// `stop`/`close`: close the game without refunds.
    Stop,
    /// No argument, or one not known.
    Unknown,
}

/// The table command named by the first argument, ignoring case.
pub open spec fn table_action_spec(args: Seq<Seq<char>>) -> TableAction {
    if args.len() == 0 {
        TableAction::Unknown
    } else {
        let a = lowercase(args[0]);
        if a == "on"@ || a == "enable"@ {
            TableAction::Enable
        } else if a == "off"@ || a == "disable"@ {
            TableAction::Disable
        } else if a == "start"@ {
            TableAction::Start
        } else if a == "spin"@ {
            TableAction::Spin
        } else if a == "refund"@ || a == "cancel"@ {
            TableAction::Refund
        } else if a == "stop"@ || a == "close"@ {
            TableAction::Stop
        } else {
            TableAction::Unknown
        }
    }
}

/// Reads the arguments of `!roulette`.
pub fn table_action(args: &Vec<String>) -> (r: TableAction)
    ensures
        r == table_action_spec(texts(args@)),
{
    if args.len() == 0 {
        return TableAction::Unknown;
    }
    let a = to_lower(args[0].as_str());
    let s = a.as_str();
    assert(texts(args@)[0] == args@[0]@);
    if same_text(s, "on") || same_text(s, "enable") {
        TableAction::Enable
    } else if same_text(s, "off") || same_text(s, "disable") {
        TableAction::Disable
    } else if same_text(s, "start") {
        TableAction::Start
    } else if same_text(s, "spin") {
        TableAction::Spin
    } else if same_text(s, "refund") || same_text(s, "cancel") {
        TableAction::Refund
    } else if same_text(s, "stop") || same_text(s, "close") {
        TableAction::Stop
    } else {
        TableAction::Unknown
    }
}

/// What `start` does once the configuration and the running game are known.
#[derive(PartialEq, Eq, Structural, Clone, Copy, Debug)]
pub enum StartDecision {
    /// Roulette is disabled for the channel: say so.
    Disabled,
    /// A game is already running: say so.
    AlreadyRunning,
    /// Open a new table, with a 30 second timer before the spin.
    OpenTable,
}

/// Seconds a table takes bets before the automatic spin.
pub const BETTING_SECONDS: i64 = 30;

/// The decision of `start`: a channel without a stored flag counts as enabled.
pub fn start_decision(stored_enabled: Option<bool>, game_running: bool) -> (r: StartDecision)
    ensures
        r == (if stored_enabled == Some(false) {
            StartDecision::Disabled
        } else if game_running {
            StartDecision::AlreadyRunning
        } else {
            StartDecision::OpenTable
        }),
{
    let enabled = match stored_enabled {
        Some(e) => e,
        None => true,
    };
    if !enabled {
        StartDecision::Disabled
    } else if game_running {
        StartDecision::AlreadyRunning
    } else {
        StartDecision::OpenTable
    }
}

/// A game in this status is spun, by the timer or by `spin`.
pub fn takes_bets(status: &str) -> (r: bool)
    ensures
        r == (status@ == "betting"@),
{
    same_text(status, "betting")
}

/// The smallest bet.
pub const MINIMUM_BET: i64 = 10;

/// What the first argument of `!bet` says about the amount.
#[derive(PartialEq, Eq, Structural, Clone, Copy, Debug)]
pub enum BetAmount {
    /// No arguments: nothing to do.
    Missing,
    /// Not a number, or under the minimum: answered with the minimum.
    TooSmall,
    /// The stake of each bet.
    Stake(i64),
}

/// The amount of a `!bet`: the first argument read as an `i64`, which must be
/// at least [`MINIMUM_BET`].
pub open spec fn bet_amount_spec(args: Seq<Seq<char>>) -> BetAmount {
    if args.len() == 0 {
        BetAmount::Missing
    } else {
        match parse_i64_spec(args[0]) {
            Some(a) => if a >= MINIMUM_BET {
                BetAmount::Stake(a)
            } else {
                BetAmount::TooSmall
            },
            None => BetAmount::TooSmall,
        }
    }
}

/// Reads the amount of a `!bet` (see [`bet_amount_spec`]).
pub fn bet_amount(args: &Vec<String>) -> (r: BetAmount)
    ensures
        r == bet_amount_spec(texts(args@)),
{
    if args.len() == 0 {
        return BetAmount::Missing;
    }
    assert(texts(args@)[0] == args@[0]@);
    let a = chars_of(args[0].as_str());
    match parse_i64(&a) {
        Some(x) => if x >= MINIMUM_BET {
            BetAmount::Stake(x)
        } else {
            BetAmount::TooSmall
        },
        None => BetAmount::TooSmall,
    }
}

/// What a bet is placed on.
#[derive(PartialEq, Eq, Structural, Clone, Copy, Debug)]
pub enum BetTarget {
    /// A single number from 0 to 36.
    Number(i64),
    Red,
    Black,
    Odd,
    Even,
    Low,
    High,
    Dozen1,
    Dozen2,
    Dozen3,
}

/// The bet a word names, ignoring case: a number from 0 to 36, a colour,
/// parity, half, or a dozen (`dozen1`/`1st`, `dozen2`/`2nd`, `dozen3`/`3rd`).
pub open spec fn bet_target_spec(word: Seq<char>) -> Option<BetTarget> {
    let w = lowercase(word);
    match parse_i64_spec(w) {
        Some(n) => if 0 <= n <= 36 {
            Some(BetTarget::Number(n))
        } else {
            None
        },
        None => if w == "red"@ {
            Some(BetTarget::Red)
        } else if w == "black"@ {
            Some(BetTarget::Black)
        } else if w == "odd"@ {
            Some(BetTarget::Odd)
        } else if w == "even"@ {
            Some(BetTarget::Even)
        } else if w == "low"@ {
            Some(BetTarget::Low)
        } else if w == "high"@ {
            Some(BetTarget::High)
        } else if w == "dozen1"@ || w == "1st"@ {
            Some(BetTarget::Dozen1)
        } else if w == "dozen2"@ || w == "2nd"@ {
            Some(BetTarget::Dozen2)
        } else if w == "dozen3"@ || w == "3rd"@ {
            Some(BetTarget::Dozen3)
        } else {
            None
        },
    }
}

/// Reads one bet word (see [`bet_target_spec`]).
pub fn bet_target(word: &str) -> (r: Option<BetTarget>)
    ensures
        r == bet_target_spec(word@),
{
    let l = to_lower(word);
    let w = chars_of(l.as_str());
    match parse_i64(&w) {
        Some(n) => if 0 <= n && n <= 36 {
            Some(BetTarget::Number(n))
        } else {
            None
        },
        None => {
            let s = l.as_str();
            if same_text(s, "red") {
                Some(BetTarget::Red)
            } else if same_text(s, "black") {
                Some(BetTarget::Black)
            } else if same_text(s, "odd") {
                Some(BetTarget::Odd)
            } else if same_text(s, "even") {
                Some(BetTarget::Even)
            } else if same_text(s, "low") {
                Some(BetTarget::Low)
            } else if same_text(s, "high") {
                Some(BetTarget::High)
            } else if same_text(s, "dozen1") || same_text(s, "1st") {
                Some(BetTarget::Dozen1)
            } else if same_text(s, "dozen2") || same_text(s, "2nd") {
                Some(BetTarget::Dozen2)
            } else if same_text(s, "dozen3") || same_text(s, "3rd") {
                Some(BetTarget::Dozen3)
            } else {
                None
            }
        },
    }
}

/// The bets named by `words`, in order; words that name none are skipped.
pub open spec fn bet_targets_spec(words: Seq<Seq<char>>) -> Seq<BetTarget>
    decreases words.len(),
{
    if words.len() == 0 {
        Seq::empty()
    } else {
        let r = bet_targets_spec(words.drop_last());
        match bet_target_spec(words.last()) {
            Some(t) => r.push(t),
            None => r,
        }
    }
}

/// The arguments after the first.
pub open spec fn after_first(args: Seq<Seq<char>>) -> Seq<Seq<char>> {
    if args.len() == 0 {
        Seq::empty()
    } else {
        args.skip(1)
    }
}

/// The bets of a `!bet`: every argument after the amount that names one.
pub fn bet_targets(args: &Vec<String>) -> (r: Vec<BetTarget>)
    ensures
        r@ == bet_targets_spec(after_first(texts(args@))),
        r@.len() <= args@.len(),
{
    let mut out: Vec<BetTarget> = Vec::new();
    if args.len() == 0 {
        return out;
    }
    let ghost ws = texts(args@).skip(1);
    let mut i: usize = 1;
    assert(ws.take(0) =~= Seq::<Seq<char>>::empty());
    while i < args.len()
        invariant
            1 <= i <= args@.len(),
            ws == texts(args@).skip(1),
            out@ == bet_targets_spec(ws.take(i - 1)),
            out@.len() <= i - 1,
        decreases args.len() - i,
    {
        proof {
            assert(ws.take(i as int).drop_last() =~= ws.take(i - 1));
            assert(ws.take(i as int).last() == args@[i as int]@);
        }
        match bet_target(args[i].as_str()) {
            Some(t) => out.push(t),
            None => {},
        }
        i = i + 1;
    }
    assert(ws.take(i - 1) =~= ws);
    out
}

/// The cost of placing `count` bets of `amount` each.
pub fn bet_total(amount: i64, count: usize) -> (r: i64)
    requires
        0 <= amount,
        amount * count <= i64::MAX,
    ensures
        r == amount * count,
{
    if amount == 0 {
        return 0;
    }
    assert(count <= amount * count) by (nonlinear_arith)
        requires
            amount >= 1,
    ;
    let c = count as i64;
    amount * c
}

/// The bets are placed only when the balance covers their total.
pub fn can_afford(balance: i64, total: i64) -> (r: bool)
    ensures
        r == (balance >= total),
{
    balance >= total
}

/// The text a bet is recorded and announced with: the number, or the name
/// of the bet (`dozen1` for every spelling of the first dozen).
pub open spec fn bet_value_spec(t: BetTarget) -> Seq<char> {
    match t {
        BetTarget::Number(n) => decimal(n as int),
        BetTarget::Red => "red"@,
        BetTarget::Black => "black"@,
        BetTarget::Odd => "odd"@,
        BetTarget::Even => "even"@,
        BetTarget::Low => "low"@,
        BetTarget::High => "high"@,
        BetTarget::Dozen1 => "dozen1"@,
        BetTarget::Dozen2 => "dozen2"@,
        BetTarget::Dozen3 => "dozen3"@,
    }
}

/// The kind a bet is recorded with: `number`, or the bet's own name.
pub open spec fn bet_type_spec(t: BetTarget) -> Seq<char> {
    match t {
        BetTarget::Number(_) => "number"@,
        _ => bet_value_spec(t),
    }
}

impl BetTarget {
    /// The recorded value (see [`bet_value_spec`]).
    pub fn value_text(&self) -> (r: String)
        ensures
            r@ == bet_value_spec(*self),
    {
        match self {
            BetTarget::Number(n) => {
                let mut v: Vec<char> = Vec::new();
                push_decimal_i64(&mut v, *n);
                assert(v@ =~= decimal(*n as int));
                string_of(&v)
            },
            BetTarget::Red => "red".to_owned(),
            BetTarget::Black => "black".to_owned(),
            BetTarget::Odd => "odd".to_owned(),
            BetTarget::Even => "even".to_owned(),
            BetTarget::Low => "low".to_owned(),
            BetTarget::High => "high".to_owned(),
            BetTarget::Dozen1 => "dozen1".to_owned(),
            BetTarget::Dozen2 => "dozen2".to_owned(),
            BetTarget::Dozen3 => "dozen3".to_owned(),
        }
    }

    /// The recorded kind (see [`bet_type_spec`]).
    pub fn type_text(&self) -> (r: String)
        ensures
            r@ == bet_type_spec(*self),
    {
        match self {
            BetTarget::Number(_) => "number".to_owned(),
            _ => self.value_text(),
        }
    }
}

/// The payout shown for a single bet with this recorded value: 35 to 1 on
/// a number (a value of digits only; recorded values are ASCII), 2 to 1 on
/// a dozen, 1 to 1 otherwise.
pub open spec fn payout_spec(value: Seq<char>) -> i64 {
    if all_digits(value) {
        35
    } else if value == "dozen1"@ || value == "dozen2"@ || value == "dozen3"@ {
        2
    } else {
        1
    }
}

/// The payout multiplier of a single bet (see [`payout_spec`]).
pub fn payout_multiplier(value: &str) -> (r: i64)
    ensures
        r == payout_spec(value@),
        1 <= r <= 35,
{
    let v = chars_of(value);
    let mut i: usize = 0;
    while i < v.len()
        invariant
            i <= v@.len(),
            v@ == value@,
            forall|k: int| 0 <= k < i ==> crate::text::is_digit(#[trigger] v@[k]),
        decreases v.len() - i,
    {
        if !('0' <= v[i] && v[i] <= '9') {
            assert(!crate::text::is_digit(v@[i as int]));
            return if same_text(value, "dozen1") || same_text(value, "dozen2") || same_text(value, "dozen3") {
                2
            } else {
                1
            };
        }
        i = i + 1;
    }
    35
}

/// The chat confirmation of the bets that were placed (`placed` holds their
/// recorded values; `total` is the cost of all bets asked for).
pub open spec fn bet_confirmation_spec(username: Seq<char>, amount: i64, placed: Seq<Seq<char>>, total: i64) -> Option<Seq<char>> {
    if placed.len() == 0 {
        None
    } else if placed.len() == 1 {
        let m = payout_spec(placed[0]);
        Some("🎰 @"@ + username + " bet "@ + decimal(amount as int) + " coins on "@ + placed[0]
            + "! Potential win: "@ + decimal(amount * (m + 1)) + " coins ("@ + decimal(m as int)
            + ":1)"@)
    } else {
        Some("🎰 @"@ + username + " placed "@ + decimal(placed.len() as int) + " bets of "@
            + decimal(amount as int) + " coins each! Total: "@ + decimal(total as int) + " coins"@)
    }
}

/// The chat confirmation of placed bets (see [`bet_confirmation_spec`]).
pub fn bet_confirmation(username: &str, amount: i64, placed: &Vec<String>, total: i64) -> (r: Option<String>)
    requires
        placed@.len() == 1 ==> amount * (payout_spec(placed@[0]@) + 1) <= i64::MAX,
        placed@.len() == 1 ==> amount * (payout_spec(placed@[0]@) + 1) >= i64::MIN,
        placed@.len() <= i64::MAX,
    ensures
        opt_str(r) == bet_confirmation_spec(username@, amount, texts(placed@), total),
{
    let ghost ps = texts(placed@);
    if placed.len() == 0 {
        return None;
    }
    let mut m = chars_of("🎰 @");
    append_str(&mut m, username);
    if placed.len() == 1 {
        assert(ps[0] == placed@[0]@);
        let mult = payout_multiplier(placed[0].as_str());
        let win = amount * (mult + 1);
        append_str(&mut m, " bet ");
        push_decimal_i64(&mut m, amount);
        append_str(&mut m, " coins on ");
        append_str(&mut m, placed[0].as_str());
        append_str(&mut m, "! Potential win: ");
        push_decimal_i64(&mut m, win);
        append_str(&mut m, " coins (");
        push_decimal_i64(&mut m, mult);
        append_str(&mut m, ":1)");
    } else {
        append_str(&mut m, " placed ");
        push_decimal_i64(&mut m, placed.len() as i64);
        append_str(&mut m, " bets of ");
        push_decimal_i64(&mut m, amount);
        append_str(&mut m, " coins each! Total: ");
        push_decimal_i64(&mut m, total);
        append_str(&mut m, " coins");
    }
    assert(Some(m@) == bet_confirmation_spec(username@, amount, ps, total));
    Some(string_of(&m))
}

/// Why a `!bet` is turned down.
pub enum BetRefusal {
    /// The amount is missing its minimum.
    TooSmall,
    /// No table takes bets.
    NoGame,
    /// The balance does not cover the total.
    CannotAfford { need: i64, have: i64 },
    /// Taking the coins failed.
    CurrencyError,
}

/// The chat answer to a refused bet.
pub open spec fn refusal_spec(username: Seq<char>, r: BetRefusal) -> Seq<char> {
    match r {
        BetRefusal::TooSmall => "@"@ + username + " ❌ Minimum bet is 10 coins"@,
        BetRefusal::NoGame => "@"@ + username
            + " 🎰 No active roulette game. Wait for a mod to start one!"@,
        BetRefusal::CannotAfford { need, have } => "@"@ + username
            + " ❌ Not enough coins! You need "@ + decimal(need as int) + " but have "@
            + decimal(have as int),
        BetRefusal::CurrencyError => "@"@ + username + " ❌ Failed to place bet (currency error)"@,
    }
}

/// The chat answer to a refused bet (see [`refusal_spec`]).
pub fn refusal_message(username: &str, reason: &BetRefusal) -> (r: String)
    ensures
        r@ == refusal_spec(username@, *reason),
{
    let mut m = chars_of("@");
    append_str(&mut m, username);
    match reason {
        BetRefusal::TooSmall => append_str(&mut m, " ❌ Minimum bet is 10 coins"),
        BetRefusal::NoGame => append_str(
            &mut m,
            " 🎰 No active roulette game. Wait for a mod to start one!",
        ),
        BetRefusal::CannotAfford { need, have } => {
            append_str(&mut m, " ❌ Not enough coins! You need ");
            push_decimal_i64(&mut m, *need);
            append_str(&mut m, " but have ");
            push_decimal_i64(&mut m, *have);
        },
        BetRefusal::CurrencyError => append_str(&mut m, " ❌ Failed to place bet (currency error)"),
    }
    assert(m@ =~= refusal_spec(username@, *reason));
    string_of(&m)
}

/// A call to the currency plugin: the channel, the user, the coins and the
/// reason it is booked under.
pub struct CurrencyCall {
    pub channel: String,
    pub username: String,
    pub amount: i64,
    pub reason: String,
}

/// `c` is the currency call with these values.
pub open spec fn is_currency_call(
    c: CurrencyCall,
    channel: Seq<char>,
    username: Seq<char>,
    amount: i64,
    reason: Seq<char>,
) -> bool {
    &&& c.channel@ == channel
    &&& c.username@ == username
    &&& c.amount == amount
    &&& c.reason@ == reason
}

fn currency_call(channel: &str, username: &str, amount: i64, reason: &str) -> (r: CurrencyCall)
    ensures
        is_currency_call(r, channel@, username@, amount, reason@),
{
    CurrencyCall {
        channel: channel.to_owned(),
        username: username.to_owned(),
        amount,
        reason: reason.to_owned(),
    }
}

/// What `refund`/`cancel` and `stop`/`close` do when a game is running: the
/// game is cancelled and its end announced (`Some`), after the refunds given
/// there are paid, in order. `bets` are the game's bets, user and amount;
/// `refund` pays each back under "Roulette bet refund", `stop` pays nothing.
/// `None` for the other commands.
pub fn refund_calls(action: TableAction, channel: &str, bets: &Vec<(String, i64)>) -> (r: Option<Vec<CurrencyCall>>)
    ensures
        r is Some <==> (action == TableAction::Refund || action == TableAction::Stop),
        action == TableAction::Stop ==> (r matches Some(v) && v@.len() == 0),
        action == TableAction::Refund ==> (r matches Some(v) && v@.len() == bets@.len() && forall|i: int|
            0 <= i < bets@.len() ==> is_currency_call(
                #[trigger] v@[i],
                channel@,
                bets@[i].0@,
                bets@[i].1,
                "Roulette bet refund"@,
            )),
{
    match action {
        TableAction::Stop => Some(Vec::new()),
        TableAction::Refund => {
            let mut v: Vec<CurrencyCall> = Vec::new();
            let mut i: usize = 0;
            while i < bets.len()
                invariant
                    i <= bets@.len(),
                    v@.len() == i,
                    forall|j: int|
                        0 <= j < i ==> is_currency_call(
                            #[trigger] v@[j],
                            channel@,
                            bets@[j].0@,
                            bets@[j].1,
                            "Roulette bet refund"@,
                        ),
                decreases bets@.len() - i,
            {
                let c = currency_call(channel, bets[i].0.as_str(), bets[i].1, "Roulette bet refund");
                v.push(c);
                i = i + 1;
            }
            Some(v)
        },
        _ => None,
    }
}

/// What a `!bet` with a stake and a balance comes to.
pub enum BetPlan {
    /// No argument names a bet: nothing is taken, placed or said.
    Silent,
    /// The balance does not cover the total: this answer, nothing taken.
    Refuse(BetRefusal),
    /// Take `charge` first, once, then place `bets`, each of `stake` coins,
    /// in this order.
    Deduct { charge: CurrencyCall, stake: i64, bets: Vec<BetTarget> },
}

/// The plan of a `!bet` by `username` in `channel`: `amount` coins on each
/// of `targets` (the bets its arguments name, in their order) against the
/// user's `balance`. The total, `amount` times the number of bets, is taken
/// once under "Roulette bet" before any bet is placed.
pub fn bet_plan(channel: &str, username: &str, amount: i64, targets: &Vec<BetTarget>, balance: i64) -> (r: BetPlan)
    requires
        0 <= amount,
        amount * targets@.len() <= i64::MAX,
    ensures
        targets@.len() == 0 ==> r is Silent,
        targets@.len() > 0 && balance < amount * targets@.len() ==> (r matches BetPlan::Refuse(
            BetRefusal::CannotAfford { need, have },
        ) && need == amount * targets@.len() && have == balance),
        targets@.len() > 0 && balance >= amount * targets@.len() ==> (r matches BetPlan::Deduct {
            charge,
            stake,
            bets,
        } && is_currency_call(charge, channel@, username@, (amount * targets@.len()) as i64, "Roulette bet"@)
            && stake == amount && bets@ == targets@),
{
    if targets.len() == 0 {
        return BetPlan::Silent;
    }
    let total = bet_total(amount, targets.len());
    if !can_afford(balance, total) {
        return BetPlan::Refuse(BetRefusal::CannotAfford { need: total, have: balance });
    }
    let mut bets: Vec<BetTarget> = Vec::new();
    let mut i: usize = 0;
    while i < targets.len()
        invariant
            i <= targets@.len(),
            bets@ == targets@.take(i as int),
        decreases targets@.len() - i,
    {
        bets.push(targets[i]);
        i = i + 1;
        assert(bets@ =~= targets@.take(i as int));
    }
    assert(bets@ =~= targets@);
    BetPlan::Deduct { charge: currency_call(channel, username, total, "Roulette bet"), stake: amount, bets }
}

/// After the coins were taken, or taking them failed: the bets to place, or
/// the answer that the currency failed, with no bet placed.
pub fn bets_after_charge(username: &str, charged: bool, bets: Vec<BetTarget>) -> (r: Result<Vec<BetTarget>, String>)
    ensures
        charged ==> (r matches Ok(b) && b@ == bets@),
        !charged ==> (r matches Err(m) && m@ == refusal_spec(username@, BetRefusal::CurrencyError)),
{
    if charged {
        Ok(bets)
    } else {
        Err(refusal_message(username, &BetRefusal::CurrencyError))
    }
}

/// The chat announcement for a table command's outcome.
pub open spec fn table_message_spec(a: TableAction, d: StartDecision) -> Option<Seq<char>> {
    match a {
        TableAction::Enable => Some("🎰 Roulette has been enabled!"@),
        TableAction::Disable => Some("🎰 Roulette has been disabled"@),
        TableAction::Start => match d {
            StartDecision::Disabled => Some("🎰 Roulette is currently disabled. Use !roulette on to enable it."@),
            StartDecision::AlreadyRunning => Some("🎰 A roulette game is already in progress!"@),
            StartDecision::OpenTable => Some(
                "🎰 Roulette table is open! Place your bets with !bet <amount> <type>. Spinning in 30 seconds!"@,
            ),
        },
        _ => None,
    }
}

/// The chat announcement for a table command (the start decision matters
/// for `start` alone).
pub fn table_message(a: TableAction, d: StartDecision) -> (r: Option<String>)
    ensures
        opt_str(r) == table_message_spec(a, d),
{
    match a {
        TableAction::Enable => Some("🎰 Roulette has been enabled!".to_owned()),
        TableAction::Disable => Some("🎰 Roulette has been disabled".to_owned()),
        TableAction::Start => match d {
            StartDecision::Disabled => Some(
                "🎰 Roulette is currently disabled. Use !roulette on to enable it.".to_owned(),
            ),
            StartDecision::AlreadyRunning => Some(
                "🎰 A roulette game is already in progress!".to_owned(),
            ),
            StartDecision::OpenTable => Some(
                "🎰 Roulette table is open! Place your bets with !bet <amount> <type>. Spinning in 30 seconds!".to_owned(),
            ),
        },
        _ => None,
    }
}

/// The words that name an outside bet by themselves.
pub open spec fn is_named_bet_word(w: Seq<char>) -> bool {
    w == "red"@ || w == "black"@ || w == "odd"@ || w == "even"@ || w == "low"@ || w == "high"@
}

/// Each bet word names its own bet: a colour, parity or half word, in any
/// case, is read as the bet recorded under that word, so different words
/// give different bets; and a bet read from a word other than a number is
/// recorded under the word itself, but for the dozens' short names
/// (`1st`, `2nd`, `3rd`).
pub proof fn lemma_bet_words(word: Seq<char>, other: Seq<char>)
    ensures
        is_named_bet_word(lowercase(word)) ==> (bet_target_spec(word) matches Some(t)
            && bet_value_spec(t) == lowercase(word)),
        is_named_bet_word(lowercase(word)) && is_named_bet_word(lowercase(other)) && lowercase(word)
            != lowercase(other) ==> bet_target_spec(word) != bet_target_spec(other),
        bet_target_spec(word) matches Some(t) ==> (t is Number || bet_value_spec(t) == lowercase(word)
            || (lowercase(word) == "1st"@ && t == BetTarget::Dozen1)
            || (lowercase(word) == "2nd"@ && t == BetTarget::Dozen2)
            || (lowercase(word) == "3rd"@ && t == BetTarget::Dozen3)),
{
    if is_named_bet_word(lowercase(word)) {
        lemma_named_word_not_number(lowercase(word));
    }
    if is_named_bet_word(lowercase(other)) {
        lemma_named_word_not_number(lowercase(other));
    }
}

proof fn lemma_named_word_not_number(w: Seq<char>)
    requires
        is_named_bet_word(w),
    ensures
        parse_i64_spec(w) is None,
{
    reveal_strlit("red");
    reveal_strlit("black");
    reveal_strlit("odd");
    reveal_strlit("even");
    reveal_strlit("low");
    reveal_strlit("high");
    assert(!is_digit(w[0]) && w[0] != '+' && w[0] != '-');
}

proof fn lemma_decimal_digits(n: nat)
    ensures
        all_digits(decimal_nat(n)),
    decreases n,
{
    let d = decimal_nat(n);
    if n < 10 {
        assert(is_digit(d[0]));
    } else {
        lemma_decimal_digits(n / 10);
        let p = decimal_nat(n / 10);
        assert forall|k: int| 0 <= k < d.len() implies is_digit(#[trigger] d[k]) by {
            if k < p.len() {
                assert(d[k] == p[k]);
            }
        }
    }
}

/// The payout announced for a single bet follows its kind: 35 to 1 on a
/// number, 2 to 1 on a dozen, 1 to 1 on colours, parity and halves.
pub proof fn lemma_payout_by_kind(t: BetTarget)
    requires
        t matches BetTarget::Number(n) ==> n >= 0,
    ensures
        payout_spec(bet_value_spec(t)) == (match t {
            BetTarget::Number(_) => 35i64,
            BetTarget::Dozen1 | BetTarget::Dozen2 | BetTarget::Dozen3 => 2i64,
            _ => 1i64,
        }),
{
    reveal_strlit("red");
    reveal_strlit("black");
    reveal_strlit("odd");
    reveal_strlit("even");
    reveal_strlit("low");
    reveal_strlit("high");
    reveal_strlit("dozen1");
    reveal_strlit("dozen2");
    reveal_strlit("dozen3");
    match t {
        BetTarget::Number(n) => {
            lemma_decimal_digits(n as nat);
        },
        _ => {
            let v = bet_value_spec(t);
            assert(!is_digit(v[0]));
        },
    }
}

} // verus!
