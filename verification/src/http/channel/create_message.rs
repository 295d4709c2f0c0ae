//! Posting a message to a channel.
use vstd::prelude::*;

use crate::http::HttpClient;
use crate::text::{decimal, push_decimal};

verus! {

/// An embed attached to a message; no field is supported yet.
pub struct Embed {}

/// The body of a create-message request.
pub struct CreateMessageFields {
    pub content: String,
    pub nonce: Option<String>,
    pub tts: Option<bool>,
    pub embed: Option<Embed>,
}

/// The path of the endpoint that posts messages to a channel.
pub open spec fn messages_path(channel_id: u64) -> Seq<char> {
    "/channels/"@ + decimal(channel_id as nat) + "/messages"@
}

/// A request to post a message to a channel.
pub struct CreateMessage<'a> {
    fields: CreateMessageFields,
    http: &'a HttpClient,
    channel_id: u64,
}

impl<'a> CreateMessage<'a> {
    pub closed spec fn channel(&self) -> u64 {
        self.channel_id
    }

    pub closed spec fn client(&self) -> HttpClient {
        *self.http
    }

    pub closed spec fn body(&self) -> CreateMessageFields {
        self.fields
    }

    /// A request to post `fields` to the channel `channel_id`.
    pub fn new(http: &'a HttpClient, channel_id: u64, fields: CreateMessageFields) -> (m: CreateMessage<'a>)
        ensures
            m.channel() == channel_id,
            m.client() == *http,
            m.body() == fields,
    {
        CreateMessage { http, channel_id, fields }
    }

    /// The body to send.
    pub fn fields(&self) -> (f: &CreateMessageFields)
        ensures
            *f == self.body(),
    {
        &self.fields
    }

    /// The client to send with.
    pub fn http(&self) -> (h: &'a HttpClient)
        ensures
            *h == self.client(),
    {
        self.http
    }

    /// The URL to post to: the channel's messages endpoint.
    pub fn url(&self) -> (r: String)
        ensures
            r@ == self.client().base_url_text() + messages_path(self.channel()),
    {
        let mut path = String::new();
        path.append("/channels/");
        push_decimal(&mut path, self.channel_id);
        path.append("/messages");
        let r = self.http.url(path.as_str());
        assert(r@ =~= self.client().base_url_text() + messages_path(self.channel()));
        r
    }
}

} // verus!
