use std::collections::HashSet;

use jukebox::config::{
    default_bot_activity, default_bot_activity_type, default_bot_status, get_config, Config,
    Data,
};
use jukebox::text::truncate_bytes;
use jukebox::handler::{
    activity, handle_voice_state_update, invite_url, online_status, ready,
    watches_voice_channels, Activity, ActivityKind, OnlineStatus,
};

fn owners() -> HashSet<u64> {
    [1u64, 2, 3].into_iter().collect()
}

fn bare_config() -> Config {
    Config::new("token".to_string(), owners(), None, None, None, None, None)
}

fn leaving(leave: bool) -> Config {
    Config::new("token".to_string(), owners(), None, None, None, None, Some(leave))
}

#[test]
fn defaults() {
    assert_eq!(default_bot_status(), "online");
    assert_eq!(default_bot_activity_type(), "LISTENING");
    assert_eq!(default_bot_activity(), "music");
}

#[test]
fn config_takes_defaults_for_what_is_missing() {
    assert_eq!(
        bare_config(),
        Config {
            discord_token: "token".to_string(),
            owners: owners(),
            bot_status: "online".to_string(),
            bot_activity_type: "LISTENING".to_string(),
            bot_activity: "music".to_string(),
            bot_activity_url: String::new(),
            bot_leave_on_empty: false,
        }
    );
}

#[test]
fn config_keeps_what_is_given() {
    let config = Config::new(
        "token".to_string(),
        owners(),
        Some("idle".to_string()),
        Some("streaming".to_string()),
        Some("a show".to_string()),
        Some("https://example.com/live".to_string()),
        Some(true),
    );
    assert_eq!(
        config,
        Config {
            discord_token: "token".to_string(),
            owners: owners(),
            bot_status: "idle".to_string(),
            bot_activity_type: "streaming".to_string(),
            bot_activity: "a show".to_string(),
            bot_activity_url: "https://example.com/live".to_string(),
            bot_leave_on_empty: true,
        }
    );
}

#[test]
fn data_hands_out_its_config() {
    let data = Data { config: bare_config() };
    assert_eq!(get_config(&data), &bare_config());
}

#[test]
fn status_names() {
    assert_eq!(online_status("online"), OnlineStatus::Online);
    assert_eq!(online_status("idle"), OnlineStatus::Idle);
    assert_eq!(online_status("donotdisturb"), OnlineStatus::DoNotDisturb);
    assert_eq!(online_status("offline"), OnlineStatus::Offline);
    assert_eq!(online_status("invisible"), OnlineStatus::Invisible);
}

#[test]
fn unknown_status_names_mean_online() {
    assert_eq!(online_status(""), OnlineStatus::Online);
    assert_eq!(online_status("Idle"), OnlineStatus::Online);
    assert_eq!(online_status("dnd"), OnlineStatus::Online);
}

#[test]
fn activity_kinds() {
    let shown = |kind| Activity { kind, text: "a show".to_string(), url: None };
    assert_eq!(activity("listening", "a show", "u"), shown(ActivityKind::Listening));
    assert_eq!(activity("playing", "a show", "u"), shown(ActivityKind::Playing));
    assert_eq!(activity("watching", "a show", "u"), shown(ActivityKind::Watching));
    assert_eq!(activity("competing", "a show", "u"), shown(ActivityKind::Competing));
    assert_eq!(
        activity("streaming", "a show", "u"),
        Activity { kind: ActivityKind::Streaming, text: "a show".to_string(), url: Some("u".to_string()) }
    );
}

#[test]
fn unknown_activity_kinds_mean_listening_to_music() {
    let fallback = Activity { kind: ActivityKind::Listening, text: "music".to_string(), url: None };
    assert_eq!(activity("LISTENING", "a show", "u"), fallback);
    assert_eq!(activity("", "a show", "u"), fallback);
    assert_eq!(activity("sleeping", "a show", "u"), fallback);
}

#[test]
fn activity_text_is_cut_at_127_bytes() {
    let exact = "a".repeat(127);
    assert_eq!(activity("playing", &exact, "").text, exact);
    assert_eq!(activity("playing", &"a".repeat(128), "").text, exact);
    assert_eq!(activity("playing", &"a".repeat(500), "").text, exact);
}

#[test]
fn activity_text_is_cut_between_characters() {
    let text = format!("é{}", "a".repeat(126));
    assert_eq!(text.chars().count(), 127);
    assert_eq!(text.len(), 128);
    assert_eq!(activity("playing", &text, "").text, format!("é{}", "a".repeat(125)));
    assert_eq!(activity("playing", &"é".repeat(64), "").text, "é".repeat(63));
    assert_eq!(
        activity("playing", &format!("{}🔘", "a".repeat(124)), "").text,
        "a".repeat(124)
    );
    assert_eq!(
        activity("playing", &format!("{}🔘", "a".repeat(123)), "").text,
        format!("{}🔘", "a".repeat(123))
    );
}

#[test]
fn activity_text_cut_stops_at_the_first_character_that_does_not_fit() {
    let text = format!("{}éa", "a".repeat(126));
    assert_eq!(activity("playing", &text, "").text, "a".repeat(126));
}

#[test]
fn truncate_bytes_by_width() {
    assert_eq!(truncate_bytes("", 0), "");
    assert_eq!(truncate_bytes("abc", 0), "");
    assert_eq!(truncate_bytes("abc", 2), "ab");
    assert_eq!(truncate_bytes("abc", 3), "abc");
    assert_eq!(truncate_bytes("abc", usize::MAX), "abc");
    assert_eq!(truncate_bytes("é▬🔘", 1), "");
    assert_eq!(truncate_bytes("é▬🔘", 2), "é");
    assert_eq!(truncate_bytes("é▬🔘", 4), "é");
    assert_eq!(truncate_bytes("é▬🔘", 5), "é▬");
    assert_eq!(truncate_bytes("é▬🔘", 8), "é▬");
    assert_eq!(truncate_bytes("é▬🔘", 9), "é▬🔘");
}

#[test]
fn truncate_bytes_agrees_with_the_byte_limit() {
    let text = "aé▬🔘bé▬🔘c";
    for limit in 0..=text.len() + 1 {
        let mut cut = limit.min(text.len());
        while !text.is_char_boundary(cut) {
            cut -= 1;
        }
        assert_eq!(truncate_bytes(text, limit), &text[..cut]);
    }
}

#[test]
fn invite_address() {
    assert_eq!(
        invite_url(1234567890),
        "https://discordapp.com/oauth2/authorize?client_id=1234567890&scope=bot%20applications.commands&permissions=36700160"
    );
    assert_eq!(
        invite_url(0),
        "https://discordapp.com/oauth2/authorize?client_id=0&scope=bot%20applications.commands&permissions=36700160"
    );
}

#[test]
fn ready_with_default_settings() {
    let startup = ready(&bare_config(), 42);
    assert_eq!(
        startup.announcement,
        "Ready! Invite the bot with https://discordapp.com/oauth2/authorize?client_id=42&scope=bot%20applications.commands&permissions=36700160"
    );
    assert_eq!(startup.status, OnlineStatus::Online);
    assert_eq!(
        startup.activity,
        Activity { kind: ActivityKind::Listening, text: "music".to_string(), url: None }
    );
}

#[test]
fn ready_with_a_stream() {
    let config = Config::new(
        "token".to_string(),
        owners(),
        Some("donotdisturb".to_string()),
        Some("streaming".to_string()),
        Some("a show".to_string()),
        Some("https://example.com/live".to_string()),
        None,
    );
    let startup = ready(&config, 42);
    assert_eq!(startup.status, OnlineStatus::DoNotDisturb);
    assert_eq!(
        startup.activity,
        Activity {
            kind: ActivityKind::Streaming,
            text: "a show".to_string(),
            url: Some("https://example.com/live".to_string())
        }
    );
}

#[test]
fn leaves_when_only_bots_are_left() {
    assert!(handle_voice_state_update(&leaving(true), Some(&[true])));
    assert!(handle_voice_state_update(&leaving(true), Some(&[true, true, true])));
    assert!(handle_voice_state_update(&leaving(true), Some(&[])));
}

#[test]
fn stays_while_a_person_is_there() {
    assert!(!handle_voice_state_update(&leaving(true), Some(&[true, false])));
    assert!(!handle_voice_state_update(&leaving(true), Some(&[false])));
    assert!(!handle_voice_state_update(&leaving(true), Some(&[true, true, false, true])));
}

#[test]
fn stays_where_there_is_no_channel() {
    assert!(!handle_voice_state_update(&leaving(true), None));
}

#[test]
fn stays_unless_told_to_leave() {
    assert!(!handle_voice_state_update(&leaving(false), Some(&[true])));
    assert!(!handle_voice_state_update(&bare_config(), Some(&[true])));
    assert!(!handle_voice_state_update(&leaving(false), None));
}

#[test]
fn watches_voice_channels_only_when_told_to_leave() {
    assert!(watches_voice_channels(&leaving(true)));
    assert!(!watches_voice_channels(&leaving(false)));
    assert!(!watches_voice_channels(&bare_config()));
}
