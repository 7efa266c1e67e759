# webarcade

The decision logic of the WebArcade stream plugins, written in Verus with
its contracts proved.

- `src/` — the verified library. Each module states its behaviour over plain
  text (`Seq<char>`), integers and maps:
  - `text`, `query`: chat tokens, trimming, decimal numbers, query strings
    and path parameters;
  - `irc`: Twitch IRC lines (reading `PRIVMSG`, answering `PING`, the lines
    the client sends);
  - `tts`, `roulette`, `channel_commands`, `watchtime`, `overlays`:
    chat commands and their answers, the roulette betting rules, who is
    watching, layout pages and the Discord bot's commands;
  - `eventsub`: webhook signatures and answers, queued notifications;
  - `oauth`, `youtube`, `hue`: authorization URLs, token handling and the
    data read from the Twitch, Google and Hue APIs;
  - `levels`, `weighted`: the level formula and weighted draws;
  - `records`, `database`, `files`, `simulate`, `plugins`: the shared record
    routes, the query console, the file browser, simulated events, and the
    plugins' metadata.
- `tests/` — tests of the library on concrete values.
- `app/` — the I/O around it: the webhook endpoint, the IRC connection,
  database access, serde forms of the library's types, and the chat and
  route handlers that make the service calls the library names (TTS
  management, roulette refunds and bets, channel updates, the watchtime
  awards, simulated events and Hue discovery).
