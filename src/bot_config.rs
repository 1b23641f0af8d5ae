use vstd::prelude::*;

verus! {

/// The bot's settings: its access token, the default guild and channel to
/// post in, and whether every sent message is pinned.
pub struct BotConfig {
    pub bot_token: String,
    pub target_guild: String,
    pub target_channel: String,
    pub pin_all: Option<bool>,
}

impl BotConfig {
    pub fn new(bot_token: String, target_guild: String, target_channel: String, pin_all: Option<bool>) -> (r:
        BotConfig)
        ensures
            r.bot_token == bot_token,
            r.target_guild == target_guild,
            r.target_channel == target_channel,
            r.pin_all == pin_all,
    {
        BotConfig { bot_token, target_guild, target_channel, pin_all }
    }

    /// Whether every sent message is pinned; no when unset.
    pub fn pin_all(&self) -> (r: bool)
        ensures
            r == (self.pin_all == Some(true)),
    {
        match self.pin_all {
            Some(p) => p,
            None => false,
        }
    }

    pub fn get_token(&self) -> (r: String)
        ensures
            r == self.bot_token,
    {
        self.bot_token.clone()
    }

    pub fn get_target_guild(&self) -> (r: String)
        ensures
            r == self.target_guild,
    {
        self.target_guild.clone()
    }

    pub fn get_target_channel(&self) -> (r: String)
        ensures
            r == self.target_channel,
    {
        self.target_channel.clone()
    }
}

} // verus!
