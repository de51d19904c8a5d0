//! What the bot does on its own: showing its presence once it is connected,
//! and leaving a voice channel that no person is left in.

use vstd::prelude::*;
use vstd::string::StringExecFns;
use crate::config::Config;
use crate::decimal::{decimal, push_decimal};
use crate::text::{fitting_prefix, truncate_bytes};

verus! {

/// The online status the bot shows.
#[derive(Clone, Copy, Debug, PartialEq, Eq, Structural)]
pub enum OnlineStatus {
    Online,
    Idle,
    DoNotDisturb,
    Offline,
    Invisible,
}

/// The kind of activity the bot shows.
#[derive(Clone, Copy, Debug, PartialEq, Eq, Structural)]
pub enum ActivityKind {
    Listening,
    Streaming,
    Playing,
    Watching,
    Competing,
}

/// The activity the bot shows: its kind, its text, and for a stream its link.
#[derive(Debug, PartialEq, Eq)]
pub struct Activity {
    pub kind: ActivityKind,
    pub text: String,
    pub url: Option<String>,
}

/// The content of an [`Activity`].
pub struct ActivityView {
    pub kind: ActivityKind,
    pub text: Seq<char>,
    pub url: Option<Seq<char>>,
}

impl View for Activity {
    type V = ActivityView;

    open spec fn view(&self) -> ActivityView {
        ActivityView {
            kind: self.kind,
            text: self.text@,
            url: match self.url {
                Some(url) => Some(url@),
                None => None,
            },
        }
    }
}

/// The longest activity text, in bytes of its UTF-8 encoding.
pub const ACTIVITY_LIMIT: usize = 127;

/// The status a configured name stands for; `Online` for any other name.
pub open spec fn status_named(name: Seq<char>) -> OnlineStatus {
    if name == "online"@ {
        OnlineStatus::Online
    } else if name == "idle"@ {
        OnlineStatus::Idle
    } else if name == "donotdisturb"@ {
        OnlineStatus::DoNotDisturb
    } else if name == "offline"@ {
        OnlineStatus::Offline
    } else if name == "invisible"@ {
        OnlineStatus::Invisible
    } else {
        OnlineStatus::Online
    }
}

/// The activity that the configured kind, text and link stand for. The text
/// is kept whole where its UTF-8 encoding has at most [`ACTIVITY_LIMIT`]
/// bytes, else cut to its longest prefix of whole characters that has; only
/// a stream carries the link. Any kind but the five known ones gives
/// listening to `music`.
pub open spec fn activity_named(kind: Seq<char>, text: Seq<char>, url: Seq<char>) -> ActivityView {
    let shown = fitting_prefix(text, ACTIVITY_LIMIT as nat);
    if kind == "listening"@ {
        ActivityView { kind: ActivityKind::Listening, text: shown, url: None }
    } else if kind == "streaming"@ {
        ActivityView { kind: ActivityKind::Streaming, text: shown, url: Some(url) }
    } else if kind == "playing"@ {
        ActivityView { kind: ActivityKind::Playing, text: shown, url: None }
    } else if kind == "watching"@ {
        ActivityView { kind: ActivityKind::Watching, text: shown, url: None }
    } else if kind == "competing"@ {
        ActivityView { kind: ActivityKind::Competing, text: shown, url: None }
    } else {
        ActivityView { kind: ActivityKind::Listening, text: "music"@, url: None }
    }
}

/// Whether two texts are the same.
fn same_text(left: &str, right: &str) -> (same: bool)
    ensures
        same == (left@ == right@),
{
    String::from_str(left) == String::from_str(right)
}

/// Reads a configured status name.
pub fn online_status(name: &str) -> (status: OnlineStatus)
    ensures
        status == status_named(name@),
{
    if same_text(name, "online") {
        OnlineStatus::Online
    } else if same_text(name, "idle") {
        OnlineStatus::Idle
    } else if same_text(name, "donotdisturb") {
        OnlineStatus::DoNotDisturb
    } else if same_text(name, "offline") {
        OnlineStatus::Offline
    } else if same_text(name, "invisible") {
        OnlineStatus::Invisible
    } else {
        OnlineStatus::Online
    }
}

/// Reads a configured activity.
pub fn activity(kind: &str, text: &str, url: &str) -> (shown: Activity)
    ensures
        shown@ == activity_named(kind@, text@, url@),
{
    let text = String::from_str(truncate_bytes(text, ACTIVITY_LIMIT));
    if same_text(kind, "listening") {
        Activity { kind: ActivityKind::Listening, text, url: None }
    } else if same_text(kind, "streaming") {
        Activity { kind: ActivityKind::Streaming, text, url: Some(String::from_str(url)) }
    } else if same_text(kind, "playing") {
        Activity { kind: ActivityKind::Playing, text, url: None }
    } else if same_text(kind, "watching") {
        Activity { kind: ActivityKind::Watching, text, url: None }
    } else if same_text(kind, "competing") {
        Activity { kind: ActivityKind::Competing, text, url: None }
    } else {
        Activity { kind: ActivityKind::Listening, text: String::from_str("music"), url: None }
    }
}

/// The address under which the application `application_id` can be invited
/// to a server, with the rights the bot needs.
pub open spec fn invite_url_text(application_id: u64) -> Seq<char> {
    "https://discordapp.com/oauth2/authorize?client_id="@ + decimal(application_id as nat)
        + "&scope=bot%20applications.commands&permissions=36700160"@
}

/// The line the bot prints once it is connected.
pub open spec fn ready_text(application_id: u64) -> Seq<char> {
    "Ready! Invite the bot with "@ + invite_url_text(application_id)
}

/// Builds the address under which the bot can be invited.
pub fn invite_url(application_id: u64) -> (url: String)
    ensures
        url@ == invite_url_text(application_id),
{
    let mut url = String::from_str("https://discordapp.com/oauth2/authorize?client_id=");
    push_decimal(&mut url, application_id as u128);
    url.append("&scope=bot%20applications.commands&permissions=36700160");
    url
}

/// What the bot does once it is connected.
#[derive(Debug, PartialEq, Eq)]
pub struct Startup {
    /// The line to print.
    pub announcement: String,
    /// The status to show.
    pub status: OnlineStatus,
    /// The activity to show.
    pub activity: Activity,
}

/// Decides what the bot does once it is connected: the line to print, which
/// invites to add the application `application_id`, and the status and
/// activity to show, as the settings name them.
pub fn ready(config: &Config, application_id: u64) -> (startup: Startup)
    ensures
        startup.announcement@ == ready_text(application_id),
        startup.status == status_named(config.bot_status@),
        startup.activity@ == activity_named(
            config.bot_activity_type@,
            config.bot_activity@,
            config.bot_activity_url@,
        ),
{
    let mut announcement = String::from_str("Ready! Invite the bot with ");
    announcement.append(invite_url(application_id).as_str());
    Startup {
        announcement,
        status: online_status(config.bot_status.as_str()),
        activity: activity(
            config.bot_activity_type.as_str(),
            config.bot_activity.as_str(),
            config.bot_activity_url.as_str(),
        ),
    }
}

/// Whether the bot looks at its voice channel when the members of some
/// channel change: only where the settings tell it to leave empty channels.
pub fn watches_voice_channels(config: &Config) -> (watches: bool)
    ensures
        watches == config.bot_leave_on_empty,
{
    config.bot_leave_on_empty
}

/// Whether every member of a channel is a bot; `bots` says of each member
/// whether it is one.
pub open spec fn no_person_among(bots: Seq<bool>) -> bool {
    forall|i: int| 0 <= i < bots.len() ==> bots[i]
}

/// Decides whether the bot leaves its voice channel after the members of
/// some channel changed.
///
/// `members` says of each member of the bot's channel whether it is a bot,
/// the bot itself among them; it is `None` where the bot is in no channel
/// that can be looked up. The bot leaves if the settings say so and no person
/// is left in the channel.
pub fn handle_voice_state_update(config: &Config, members: Option<&[bool]>) -> (leave: bool)
    ensures
        leave == (config.bot_leave_on_empty && members is Some && no_person_among(members->0@)),
{
    if !config.bot_leave_on_empty {
        return false;
    }
    let bots = match members {
        Some(bots) => bots,
        None => {
            return false;
        },
    };
    let mut i: usize = 0;
    while i < bots.len()
        invariant
            i <= bots@.len(),
            members == Some(bots),
            forall|j: int| 0 <= j < i ==> bots@[j],
        decreases bots@.len() - i,
    {
        if !bots[i] {
            assert(!bots@[i as int]);
            return false;
        }
        i = i + 1;
    }
    true
}

} // verus!
