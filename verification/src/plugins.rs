//! The plugins and what each says of itself.
use vstd::prelude::*;

verus! {

/// What a plugin says of itself.
pub struct PluginMetadata {
    pub id: String,
    pub name: String,
    pub version: String,
    pub description: String,
    pub author: String,
    /// Ids of the plugins it needs.
    pub dependencies: Vec<String>,
}

/// The texts of `v`.
pub open spec fn texts(v: Seq<String>) -> Seq<Seq<char>> {
    v.map_values(|s: String| s@)
}

/// Metadata with the given texts and dependencies.
fn metadata_of(id: &str, name: &str, description: &str, author: &str, dependencies: Vec<String>) -> (r: PluginMetadata)
    ensures
        r.id@ == id@,
        r.name@ == name@,
        r.version@ == "1.0.0"@,
        r.description@ == description@,
        r.author@ == author@,
        r.dependencies@ == dependencies@,
{
    PluginMetadata {
        id: id.to_owned(),
        name: name.to_owned(),
        version: "1.0.0".to_owned(),
        description: description.to_owned(),
        author: author.to_owned(),
        dependencies,
    }
}

/// The `channel_commands` plugin.
pub struct ChannelCommandsPlugin;

impl ChannelCommandsPlugin {
    /// `channel_commands`: Channel Commands, version 1.0.0.
    pub fn metadata(&self) -> (r: PluginMetadata)
        ensures
            r.id@ == "channel_commands"@,
            r.name@ == "Channel Commands"@,
            r.version@ == "1.0.0"@,
            r.description@ == "Built-in commands for managing channel information (title, category)"@,
            r.author@ == "WebArcade Team"@,
            texts(r.dependencies@) == seq!["twitch"@],
    {
        let mut deps: Vec<String> = Vec::new();
        deps.push("twitch".to_owned());
        let r = metadata_of("channel_commands", "Channel Commands", "Built-in commands for managing channel information (title, category)", "WebArcade Team", deps);
        assert(texts(r.dependencies@) =~= seq!["twitch"@]);
        r
    }
}

/// The `code` plugin.
pub struct CodePlugin;

impl CodePlugin {
    /// `code`: Code Editor, version 1.0.0.
    pub fn metadata(&self) -> (r: PluginMetadata)
        ensures
            r.id@ == "code"@,
            r.name@ == "Code Editor"@,
            r.version@ == "1.0.0"@,
            r.description@ == "Monaco-based code editor with file tree navigation"@,
            r.author@ == "WebArcade Team"@,
            texts(r.dependencies@) == Seq::<Seq<char>>::empty(),
    {
        let deps: Vec<String> = Vec::new();
        let r = metadata_of("code", "Code Editor", "Monaco-based code editor with file tree navigation", "WebArcade Team", deps);
        assert(texts(r.dependencies@) =~= Seq::<Seq<char>>::empty());
        r
    }
}

/// The `database` plugin.
pub struct DatabasePlugin;

impl DatabasePlugin {
    /// `database`: Database, version 1.0.0.
    pub fn metadata(&self) -> (r: PluginMetadata)
        ensures
            r.id@ == "database"@,
            r.name@ == "Database"@,
            r.version@ == "1.0.0"@,
            r.description@ == "SQL query interface for the database"@,
            r.author@ == "WebArcade Team"@,
            texts(r.dependencies@) == Seq::<Seq<char>>::empty(),
    {
        let deps: Vec<String> = Vec::new();
        let r = metadata_of("database", "Database", "SQL query interface for the database", "WebArcade Team", deps);
        assert(texts(r.dependencies@) =~= Seq::<Seq<char>>::empty());
        r
    }
}

/// The `demo` plugin.
pub struct DemoPlugin;

impl DemoPlugin {
    /// `demo`: Demo Plugin, version 1.0.0.
    pub fn metadata(&self) -> (r: PluginMetadata)
        ensures
            r.id@ == "demo"@,
            r.name@ == "Demo Plugin"@,
            r.version@ == "1.0.0"@,
            r.description@ == "Showcases all UI components with native Rust backend"@,
            r.author@ == "WebArcade Team"@,
            texts(r.dependencies@) == Seq::<Seq<char>>::empty(),
    {
        let deps: Vec<String> = Vec::new();
        let r = metadata_of("demo", "Demo Plugin", "Showcases all UI components with native Rust backend", "WebArcade Team", deps);
        assert(texts(r.dependencies@) =~= Seq::<Seq<char>>::empty());
        r
    }
}

/// The `discord` plugin.
pub struct DiscordPlugin;

impl DiscordPlugin {
    /// `discord`: Discord Bot, version 1.0.0.
    pub fn metadata(&self) -> (r: PluginMetadata)
        ensures
            r.id@ == "discord"@,
            r.name@ == "Discord Bot"@,
            r.version@ == "1.0.0"@,
            r.description@ == "General-purpose Discord bot with custom commands"@,
            r.author@ == "WebArcade Team"@,
            texts(r.dependencies@) == Seq::<Seq<char>>::empty(),
    {
        let deps: Vec<String> = Vec::new();
        let r = metadata_of("discord", "Discord Bot", "General-purpose Discord bot with custom commands", "WebArcade Team", deps);
        assert(texts(r.dependencies@) =~= Seq::<Seq<char>>::empty());
        r
    }
}

/// The `levels` plugin.
pub struct LevelsPlugin;

impl LevelsPlugin {
    /// `levels`: Levels System, version 1.0.0.
    pub fn metadata(&self) -> (r: PluginMetadata)
        ensures
            r.id@ == "levels"@,
            r.name@ == "Levels System"@,
            r.version@ == "1.0.0"@,
            r.description@ == "User XP and leveling system"@,
            r.author@ == "WebArcade Team"@,
            texts(r.dependencies@) == Seq::<Seq<char>>::empty(),
    {
        let deps: Vec<String> = Vec::new();
        let r = metadata_of("levels", "Levels System", "User XP and leveling system", "WebArcade Team", deps);
        assert(texts(r.dependencies@) =~= Seq::<Seq<char>>::empty());
        r
    }
}

/// The `philips-hue` plugin.
pub struct PhilipsHuePlugin;

impl PhilipsHuePlugin {
    /// `philips-hue`: Philips Hue, version 1.0.0.
    pub fn metadata(&self) -> (r: PluginMetadata)
        ensures
            r.id@ == "philips-hue"@,
            r.name@ == "Philips Hue"@,
            r.version@ == "1.0.0"@,
            r.description@ == "Control your Philips Hue smart lights"@,
            r.author@ == "WebArcade Team"@,
            texts(r.dependencies@) == Seq::<Seq<char>>::empty(),
    {
        let deps: Vec<String> = Vec::new();
        let r = metadata_of("philips-hue", "Philips Hue", "Control your Philips Hue smart lights", "WebArcade Team", deps);
        assert(texts(r.dependencies@) =~= Seq::<Seq<char>>::empty());
        r
    }
}

/// The `plugin_ide` plugin.
pub struct PluginIdePlugin;

impl PluginIdePlugin {
    /// `plugin_ide`: Plugin IDE, version 1.0.0.
    pub fn metadata(&self) -> (r: PluginMetadata)
        ensures
            r.id@ == "plugin_ide"@,
            r.name@ == "Plugin IDE"@,
            r.version@ == "1.0.0"@,
            r.description@ == "Integrated development environment for building WebArcade plugins"@,
            r.author@ == "WebArcade"@,
            texts(r.dependencies@) == Seq::<Seq<char>>::empty(),
    {
        let deps: Vec<String> = Vec::new();
        let r = metadata_of("plugin_ide", "Plugin IDE", "Integrated development environment for building WebArcade plugins", "WebArcade", deps);
        assert(texts(r.dependencies@) =~= Seq::<Seq<char>>::empty());
        r
    }
}

/// The `roulette` plugin.
pub struct RoulettePlugin;

impl RoulettePlugin {
    /// `roulette`: Roulette Game, version 1.0.0.
    pub fn metadata(&self) -> (r: PluginMetadata)
        ensures
            r.id@ == "roulette"@,
            r.name@ == "Roulette Game"@,
            r.version@ == "1.0.0"@,
            r.description@ == "European roulette betting game"@,
            r.author@ == "WebArcade Team"@,
            texts(r.dependencies@) == seq!["currency"@],
    {
        let mut deps: Vec<String> = Vec::new();
        deps.push("currency".to_owned());
        let r = metadata_of("roulette", "Roulette Game", "European roulette betting game", "WebArcade Team", deps);
        assert(texts(r.dependencies@) =~= seq!["currency"@]);
        r
    }
}

/// The `status` plugin.
pub struct StatusPlugin;

impl StatusPlugin {
    /// `status`: Status System, version 1.0.0.
    pub fn metadata(&self) -> (r: PluginMetadata)
        ensures
            r.id@ == "status"@,
            r.name@ == "Status System"@,
            r.version@ == "1.0.0"@,
            r.description@ == "Stream status configuration (start date, ticker speed, etc.)"@,
            r.author@ == "WebArcade Team"@,
            texts(r.dependencies@) == Seq::<Seq<char>>::empty(),
    {
        let deps: Vec<String> = Vec::new();
        let r = metadata_of("status", "Status System", "Stream status configuration (start date, ticker speed, etc.)", "WebArcade Team", deps);
        assert(texts(r.dependencies@) =~= Seq::<Seq<char>>::empty());
        r
    }
}

/// The `system` plugin.
pub struct SystemPlugin;

impl SystemPlugin {
    /// `system`: System Monitor, version 1.0.0.
    pub fn metadata(&self) -> (r: PluginMetadata)
        ensures
            r.id@ == "system"@,
            r.name@ == "System Monitor"@,
            r.version@ == "1.0.0"@,
            r.description@ == "System resource monitoring (CPU, RAM, GPU)"@,
            r.author@ == "WebArcade Team"@,
            texts(r.dependencies@) == Seq::<Seq<char>>::empty(),
    {
        let deps: Vec<String> = Vec::new();
        let r = metadata_of("system", "System Monitor", "System resource monitoring (CPU, RAM, GPU)", "WebArcade Team", deps);
        assert(texts(r.dependencies@) =~= Seq::<Seq<char>>::empty());
        r
    }
}

/// The `text_commands` plugin.
pub struct TextCommandsPlugin;

impl TextCommandsPlugin {
    /// `text_commands`: Text Commands, version 1.0.0.
    pub fn metadata(&self) -> (r: PluginMetadata)
        ensures
            r.id@ == "text_commands"@,
            r.name@ == "Text Commands"@,
            r.version@ == "1.0.0"@,
            r.description@ == "Custom text commands for Twitch chat"@,
            r.author@ == "WebArcade Team"@,
            texts(r.dependencies@) == Seq::<Seq<char>>::empty(),
    {
        let deps: Vec<String> = Vec::new();
        let r = metadata_of("text_commands", "Text Commands", "Custom text commands for Twitch chat", "WebArcade Team", deps);
        assert(texts(r.dependencies@) =~= Seq::<Seq<char>>::empty());
        r
    }
}

/// The `timer` plugin.
pub struct TimerPlugin;

impl TimerPlugin {
    /// `timer`: Timer, version 1.0.0.
    pub fn metadata(&self) -> (r: PluginMetadata)
        ensures
            r.id@ == "timer"@,
            r.name@ == "Timer"@,
            r.version@ == "1.0.0"@,
            r.description@ == "Countdown timer for overlays and stream"@,
            r.author@ == "WebArcade Team"@,
            texts(r.dependencies@) == Seq::<Seq<char>>::empty(),
    {
        let deps: Vec<String> = Vec::new();
        let r = metadata_of("timer", "Timer", "Countdown timer for overlays and stream", "WebArcade Team", deps);
        assert(texts(r.dependencies@) =~= Seq::<Seq<char>>::empty());
        r
    }
}

/// The `tts` plugin.
pub struct TtsPlugin;

impl TtsPlugin {
    /// `tts`: Text-to-Speech, version 1.0.0.
    pub fn metadata(&self) -> (r: PluginMetadata)
        ensures
            r.id@ == "tts"@,
            r.name@ == "Text-to-Speech"@,
            r.version@ == "1.0.0"@,
            r.description@ == "Text-to-speech engine with multiple voices and queuing"@,
            r.author@ == "WebArcade Team"@,
            texts(r.dependencies@) == Seq::<Seq<char>>::empty(),
    {
        let deps: Vec<String> = Vec::new();
        let r = metadata_of("tts", "Text-to-Speech", "Text-to-speech engine with multiple voices and queuing", "WebArcade Team", deps);
        assert(texts(r.dependencies@) =~= Seq::<Seq<char>>::empty());
        r
    }
}

/// The `twitch` plugin.
pub struct TwitchPlugin;

impl TwitchPlugin {
    /// `twitch`: Twitch Integration, version 1.0.0.
    pub fn metadata(&self) -> (r: PluginMetadata)
        ensures
            r.id@ == "twitch"@,
            r.name@ == "Twitch Integration"@,
            r.version@ == "1.0.0"@,
            r.description@ == "Twitch integration with broadcaster and bot account support, IRC, and EventSub"@,
            r.author@ == "WebArcade Team"@,
            texts(r.dependencies@) == Seq::<Seq<char>>::empty(),
    {
        let deps: Vec<String> = Vec::new();
        let r = metadata_of("twitch", "Twitch Integration", "Twitch integration with broadcaster and bot account support, IRC, and EventSub", "WebArcade Team", deps);
        assert(texts(r.dependencies@) =~= Seq::<Seq<char>>::empty());
        r
    }
}

/// The `watchtime` plugin.
pub struct WatchtimePlugin;

impl WatchtimePlugin {
    /// `watchtime`: Watchtime Tracking, version 1.0.0.
    pub fn metadata(&self) -> (r: PluginMetadata)
        ensures
            r.id@ == "watchtime"@,
            r.name@ == "Watchtime Tracking"@,
            r.version@ == "1.0.0"@,
            r.description@ == "Track viewer watchtime and last_seen using the users table"@,
            r.author@ == "WebArcade Team"@,
            texts(r.dependencies@) == Seq::<Seq<char>>::empty(),
    {
        let deps: Vec<String> = Vec::new();
        let r = metadata_of("watchtime", "Watchtime Tracking", "Track viewer watchtime and last_seen using the users table", "WebArcade Team", deps);
        assert(texts(r.dependencies@) =~= Seq::<Seq<char>>::empty());
        r
    }
}

/// The `withings` plugin.
pub struct WithingsPlugin;

impl WithingsPlugin {
    /// `withings`: Withings, version 1.0.0.
    pub fn metadata(&self) -> (r: PluginMetadata)
        ensures
            r.id@ == "withings"@,
            r.name@ == "Withings"@,
            r.version@ == "1.0.0"@,
            r.description@ == "Withings health data integration for body composition tracking"@,
            r.author@ == "WebArcade Team"@,
            texts(r.dependencies@) == Seq::<Seq<char>>::empty(),
    {
        let deps: Vec<String> = Vec::new();
        let r = metadata_of("withings", "Withings", "Withings health data integration for body composition tracking", "WebArcade Team", deps);
        assert(texts(r.dependencies@) =~= Seq::<Seq<char>>::empty());
        r
    }
}

/// The `youtube` plugin.
pub struct YoutubePlugin;

impl YoutubePlugin {
    /// `youtube`: YouTube Integration, version 1.0.0.
    pub fn metadata(&self) -> (r: PluginMetadata)
        ensures
            r.id@ == "youtube"@,
            r.name@ == "YouTube Integration"@,
            r.version@ == "1.0.0"@,
            r.description@ == "YouTube integration with channel analytics and OAuth authentication"@,
            r.author@ == "WebArcade Team"@,
            texts(r.dependencies@) == Seq::<Seq<char>>::empty(),
    {
        let deps: Vec<String> = Vec::new();
        let r = metadata_of("youtube", "YouTube Integration", "YouTube integration with channel analytics and OAuth authentication", "WebArcade Team", deps);
        assert(texts(r.dependencies@) =~= Seq::<Seq<char>>::empty());
        r
    }
}

} // verus!
