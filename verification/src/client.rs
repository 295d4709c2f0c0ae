//! The client configuration that shards connect with.
use vstd::prelude::*;

use std::sync::Arc;

use crate::http::get_gateway::GetGateway;

verus! {

/// A bot's credentials and the gateway it connects to.
#[derive(Clone, Debug)]
pub struct Client {
    pub(crate) token: String,
    pub(crate) gateway_url: String,
    pub(crate) gateway_guild_subscriptions: bool,
}

impl Client {
    /// The bot token.
    pub closed spec fn token_text(&self) -> Seq<char> {
        self.token@
    }

    /// The gateway URL that discovery returned.
    pub closed spec fn gateway_url_text(&self) -> Seq<char> {
        self.gateway_url@
    }

    /// Whether the client asks for guild subscription events.
    pub closed spec fn guild_subscriptions(&self) -> bool {
        self.gateway_guild_subscriptions
    }

    /// The bot token.
    pub fn token(&self) -> (t: &String)
        ensures
            t@ == self.token_text(),
    {
        &self.token
    }

    /// The gateway URL.
    pub fn gateway_url(&self) -> (u: &String)
        ensures
            u@ == self.gateway_url_text(),
    {
        &self.gateway_url
    }

    /// Whether the client asks for guild subscription events.
    pub fn guild_subscriptions_enabled(&self) -> (b: bool)
        ensures
            b == self.guild_subscriptions(),
    {
        self.gateway_guild_subscriptions
    }
}

/// Collects a client's settings before the gateway is looked up.
pub struct ClientBuilder {
    token: String,
    gateway_guild_subscriptions: bool,
}

impl ClientBuilder {
    /// The token given.
    pub closed spec fn token_text(&self) -> Seq<char> {
        self.token@
    }

    /// The guild subscription setting.
    pub closed spec fn guild_subscriptions(&self) -> bool {
        self.gateway_guild_subscriptions
    }

    /// A builder for the given token, with guild subscriptions on.
    pub fn new(token: String) -> (b: ClientBuilder)
        ensures
            b.token_text() == token@,
            b.guild_subscriptions(),
    {
        ClientBuilder { token, gateway_guild_subscriptions: true }
    }

    /// Turns guild subscriptions on or off.
    pub fn set_guild_subscriptions(&mut self, guild_subscriptions: bool)
        ensures
            final(self).token_text() == old(self).token_text(),
            final(self).guild_subscriptions() == guild_subscriptions,
    {
        self.gateway_guild_subscriptions = guild_subscriptions;
    }

    /// The client for the gateway that discovery returned.
    pub fn create(&self, gateway: GetGateway) -> (c: Arc<Client>)
        ensures
            c.token_text() == self.token_text(),
            c.gateway_url_text() == gateway.url@,
            c.guild_subscriptions() == self.guild_subscriptions(),
    {
        Arc::new(Client {
            token: self.token.clone(),
            gateway_url: gateway.url,
            gateway_guild_subscriptions: self.gateway_guild_subscriptions,
        })
    }
}

} // verus!
