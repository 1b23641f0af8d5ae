use schedule_bot::bot_config::BotConfig;
use schedule_bot::poll::PollData;
use schedule_bot::dispatch::Destination;
use schedule_bot::resolver::{channel_search, get_target_channel, get_target_guild, ChannelSearch};

fn s(x: &str) -> String {
    x.to_string()
}

#[test]
fn config_getters() {
    let c = BotConfig::new(s("SECRET-REDACTED"), s("guild"), s("channel"), None);
    assert!(!c.pin_all());
    assert_eq!(c.get_token(), "SECRET-REDACTED");
    assert_eq!(c.get_target_guild(), "guild");
    assert_eq!(c.get_target_channel(), "channel");
    assert!(BotConfig::new(s("t"), s("g"), s("c"), Some(true)).pin_all());
}

#[test]
fn poll_getters_and_lookup() {
    let p = PollData::new(3, s("Q"), vec![s("a"), s("b")], None, None);
    assert_eq!(p.id(), 3);
    assert_eq!(p.question(), "Q");
    assert_eq!(p.answers(), &vec![s("a"), s("b")]);
    assert_eq!(p.duration_minutes(), 1440);
    assert!(!p.multi_answer());
    let polls = vec![p, PollData::new(4, s("R"), vec![], Some(5), Some(true))];
    let found = PollData::get_poll_data(&polls, 4).unwrap();
    assert_eq!(found.duration_minutes(), 5);
    assert!(found.multi_answer());
    assert!(PollData::get_poll_data(&polls, 5).is_none());
}

#[test]
fn names_resolve_exactly_and_first_wins() {
    let guilds = vec![s("Alpha"), s("beta"), s("beta")];
    assert_eq!(get_target_guild(&guilds, &s("beta")), Some(1));
    assert_eq!(get_target_guild(&guilds, &s("Beta")), None);
    assert_eq!(get_target_channel(&vec![s("general"), s("news")], &s("news")), Some(1));
    assert_eq!(get_target_channel(&vec![], &s("news")), None);
}

#[test]
fn channel_search_prefers_the_place_guild() {
    assert!(matches!(channel_search(&Destination::Default), ChannelSearch::UseDefault));
    let own = Destination::Named { guild: Some(s("g")), channel: s("c") };
    match channel_search(&own) {
        ChannelSearch::InGuild { guild, channel } => {
            assert_eq!(guild, "g");
            assert_eq!(channel, "c");
        }
        _ => panic!("expected the place's guild"),
    }
    let default_guild = Destination::Named { guild: None, channel: s("c") };
    match channel_search(&default_guild) {
        ChannelSearch::InDefaultGuild { channel } => assert_eq!(channel, "c"),
        _ => panic!("expected the default guild"),
    }
}
