//! Verified core of the WebArcade plugin set: chat-command parsing, game
//! rules (levels, roulette, wheel and pack draws), viewer tracking, OAuth and
//! webhook helpers, and request validation shared by the HTTP routers.
use vstd::prelude::*;

pub mod levels;
pub mod text;
pub mod query;
pub mod irc;
pub mod tts;
pub mod roulette;
pub mod channel_commands;
pub mod watchtime;
pub mod eventsub;
pub mod simulate;
pub mod hue;
pub mod weighted;
pub mod oauth;
pub mod youtube;
pub mod plugins;
pub mod database;
pub mod records;
pub mod overlays;
pub mod files;

verus! {
} // verus!
