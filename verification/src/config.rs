//! The bot's settings.

use std::collections::HashSet;
use vstd::prelude::*;
use vstd::string::StringExecFns;

verus! {

/// The settings the bot starts with. They are made once and read from then on.
#[derive(Debug, PartialEq, Eq)]
pub struct Config {
    /// The token the bot logs in with.
    pub discord_token: String,
    /// The users who may manage the bot.
    pub owners: HashSet<u64>,
    /// The online status to show.
    pub bot_status: String,
    /// The kind of activity to show.
    pub bot_activity_type: String,
    /// The text of the activity.
    pub bot_activity: String,
    /// The link of the activity, for a stream.
    pub bot_activity_url: String,
    /// Whether to leave a voice channel once no person is left in it.
    pub bot_leave_on_empty: bool,
}

/// The user data every command can reach: the settings.
#[derive(Debug, PartialEq, Eq)]
pub struct Data {
    pub config: Config,
}

/// The status shown where none is configured.
pub open spec fn default_bot_status_text() -> Seq<char> {
    "online"@
}

/// The kind of activity shown where none is configured.
pub open spec fn default_bot_activity_type_text() -> Seq<char> {
    "LISTENING"@
}

/// The activity text shown where none is configured.
pub open spec fn default_bot_activity_text() -> Seq<char> {
    "music"@
}

/// The status shown where none is configured.
pub fn default_bot_status() -> (status: String)
    ensures
        status@ == default_bot_status_text(),
{
    String::from_str("online")
}

/// The kind of activity shown where none is configured.
pub fn default_bot_activity_type() -> (kind: String)
    ensures
        kind@ == default_bot_activity_type_text(),
{
    String::from_str("LISTENING")
}

/// The activity text shown where none is configured.
pub fn default_bot_activity() -> (text: String)
    ensures
        text@ == default_bot_activity_text(),
{
    String::from_str("music")
}

/// A configured text, or `default` where none is configured.
pub open spec fn text_or(value: Option<String>, default: Seq<char>) -> Seq<char> {
    match value {
        Some(text) => text@,
        None => default,
    }
}

impl Config {
    /// Settings from what a configuration file holds. The token and the
    /// owners are always given; each other setting may be missing and then
    /// takes its default: status `online`, activity type `LISTENING`,
    /// activity `music`, no link, and staying in empty channels.
    pub fn new(
        discord_token: String,
        owners: HashSet<u64>,
        bot_status: Option<String>,
        bot_activity_type: Option<String>,
        bot_activity: Option<String>,
        bot_activity_url: Option<String>,
        bot_leave_on_empty: Option<bool>,
    ) -> (config: Config)
        ensures
            config.discord_token == discord_token,
            config.owners == owners,
            config.bot_status@ == text_or(bot_status, default_bot_status_text()),
            config.bot_activity_type@ == text_or(
                bot_activity_type,
                default_bot_activity_type_text(),
            ),
            config.bot_activity@ == text_or(bot_activity, default_bot_activity_text()),
            config.bot_activity_url@ == text_or(bot_activity_url, Seq::empty()),
            config.bot_leave_on_empty == (bot_leave_on_empty == Some(true)),
    {
        Config {
            discord_token,
            owners,
            bot_status: match bot_status {
                Some(status) => status,
                None => default_bot_status(),
            },
            bot_activity_type: match bot_activity_type {
                Some(kind) => kind,
                None => default_bot_activity_type(),
            },
            bot_activity: match bot_activity {
                Some(text) => text,
                None => default_bot_activity(),
            },
            bot_activity_url: match bot_activity_url {
                Some(url) => url,
                None => String::new(),
            },
            bot_leave_on_empty: match bot_leave_on_empty {
                Some(leave) => leave,
                None => false,
            },
        }
    }
}

/// The settings that the user data carries.
pub fn get_config(data: &Data) -> (config: &Config)
    ensures
        *config == data.config,
{
    &data.config
}

} // verus!
