//! Requests to the REST API: where they go and how they are authorised.
use vstd::prelude::*;

pub mod channel;
pub mod get_gateway;

verus! {

/// The base of every REST URL.
pub open spec fn api_base() -> Seq<char> {
    "https://discord.com/api"@
}

/// What a REST request needs: the API's base URL and the bot token.
pub struct HttpClient {
    base_url: String,
    token: String,
}

impl HttpClient {
    pub closed spec fn base_url_text(&self) -> Seq<char> {
        self.base_url@
    }

    pub closed spec fn token_text(&self) -> Seq<char> {
        self.token@
    }

    /// A client for the given token against the public API.
    pub fn new(token: String) -> (c: HttpClient)
        ensures
            c.token_text() == token@,
            c.base_url_text() == api_base(),
    {
        HttpClient { token, base_url: "https://discord.com/api".to_owned() }
    }

    /// The full URL of an endpoint path: the base URL followed by the path.
    pub fn url(&self, uri: &str) -> (r: String)
        ensures
            r@ == self.base_url_text() + uri@,
    {
        let mut r = self.base_url.clone();
        r.append(uri);
        r
    }

    /// The value of the `Authorization` header: `Bot ` and the token.
    pub fn authorization(&self) -> (r: String)
        ensures
            r@ == "Bot "@ + self.token_text(),
    {
        let mut r = String::new();
        r.append("Bot ");
        r.append(self.token.as_str());
        r
    }
}

} // verus!
