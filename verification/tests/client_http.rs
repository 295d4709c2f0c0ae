use async_discord::client::ClientBuilder;
use async_discord::gateway::connection::connect_url;
use async_discord::http::channel::create_message::{CreateMessage, CreateMessageFields};
use async_discord::http::get_gateway::GetGateway;
use async_discord::http::HttpClient;

#[test]
fn builder_defaults_to_guild_subscriptions() {
    let builder = ClientBuilder::new("token".to_string());
    let client = builder.create(GetGateway { url: "wss://gateway.discord.gg".to_string() });
    assert_eq!(client.token(), "token");
    assert_eq!(client.gateway_url(), "wss://gateway.discord.gg");
    assert!(client.guild_subscriptions_enabled());
}

#[test]
fn builder_turns_guild_subscriptions_off() {
    let mut builder = ClientBuilder::new("abc".to_string());
    builder.set_guild_subscriptions(false);
    let client = builder.create(GetGateway { url: "wss://g".to_string() });
    assert!(!client.guild_subscriptions_enabled());
    assert_eq!(client.token(), "abc");
    builder.set_guild_subscriptions(true);
    assert!(builder.create(GetGateway { url: "wss://g".to_string() }).guild_subscriptions_enabled());
}

#[test]
fn websocket_url_asks_for_version_six_and_zlib() {
    let client = ClientBuilder::new("t".to_string()).create(GetGateway { url: "wss://gateway.discord.gg".to_string() });
    assert_eq!(connect_url(&client), "wss://gateway.discord.gg/?v=6&compress=zlib-stream");
}

#[test]
fn rest_urls_and_authorization() {
    let http = HttpClient::new("secret".to_string());
    assert_eq!(http.url("/gateway"), "https://discord.com/api/gateway");
    assert_eq!(http.url(""), "https://discord.com/api");
    assert_eq!(http.authorization(), "Bot secret");
}

#[test]
fn create_message_posts_to_the_channel() {
    let http = HttpClient::new("secret".to_string());
    let fields = CreateMessageFields { content: "Pong!".to_string(), nonce: None, tts: None, embed: None };
    let msg = CreateMessage::new(&http, 81384788765712384, fields);
    assert_eq!(msg.url(), "https://discord.com/api/channels/81384788765712384/messages");
    assert_eq!(msg.fields().content, "Pong!");
    assert_eq!(msg.http().authorization(), "Bot secret");
}
