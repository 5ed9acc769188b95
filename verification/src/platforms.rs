//! Chat platform adapters: the messages they carry and the addresses their
//! send calls use.
use vstd::prelude::*;
use crate::text::{join2, join3, owned};

verus! {

#[derive(Debug, Clone, PartialEq, Eq)]
pub struct PlatformMessage {
    pub chat_id: String,
    pub content: String,
    pub user_id: String,
    pub platform: String,
}

#[derive(Debug, PartialEq, Eq)]
pub struct SendResult {
    pub message_id: Option<String>,
}

#[derive(Debug)]
pub enum PlatformError {
    ConnectionError(String),
    SendError(String),
}

pub open spec fn platform_error_text(e: PlatformError) -> Seq<char> {
    match e {
        PlatformError::ConnectionError(d) => "connection error: "@ + d@,
        PlatformError::SendError(d) => "send error: "@ + d@,
    }
}

impl PlatformError {
    pub fn message(&self) -> (r: String)
        ensures
            r@ == platform_error_text(*self),
    {
        match self {
            PlatformError::ConnectionError(d) => join2("connection error: ", d.as_str()),
            PlatformError::SendError(d) => join2("send error: ", d.as_str()),
        }
    }
}

/// A Discord bot.
#[derive(Debug)]
pub struct DiscordAdapter {
    pub bot_token: String,
}

impl DiscordAdapter {
    pub fn new(bot_token: &str) -> (r: Self)
        ensures
            r.bot_token@ == bot_token@,
    {
        DiscordAdapter { bot_token: owned(bot_token) }
    }

    pub fn name(&self) -> (r: &'static str)
        ensures
            r@ == "discord"@,
    {
        let r = "discord";
        proof {
            reveal_strlit("discord");
        }
        r
    }

    /// The endpoint that posts a message to a channel.
    pub fn send_url(&self, channel_id: &str) -> (r: String)
        ensures
            r@ == "https://discord.com/api/v10/channels/"@ + channel_id@ + "/messages"@,
    {
        join3("https://discord.com/api/v10/channels/", channel_id, "/messages")
    }
}

/// A Telegram bot.
#[derive(Debug)]
pub struct TelegramAdapter {
    pub bot_token: String,
}

impl TelegramAdapter {
    pub fn new(bot_token: &str) -> (r: Self)
        ensures
            r.bot_token@ == bot_token@,
    {
        TelegramAdapter { bot_token: owned(bot_token) }
    }

    pub fn name(&self) -> (r: &'static str)
        ensures
            r@ == "telegram"@,
    {
        let r = "telegram";
        proof {
            reveal_strlit("telegram");
        }
        r
    }

    /// The endpoint of the bot's `sendMessage` method.
    pub fn send_url(&self) -> (r: String)
        ensures
            r@ == "https://api.telegram.org/bot"@ + self.bot_token@ + "/sendMessage"@,
    {
        join3("https://api.telegram.org/bot", self.bot_token.as_str(), "/sendMessage")
    }
}

} // verus!
