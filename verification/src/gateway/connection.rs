//! Where a shard opens its websocket.
use vstd::prelude::*;

use crate::client::Client;

verus! {

/// The query that selects version 6 of the gateway with a zlib stream.
pub open spec fn connect_query() -> Seq<char> {
    "/?v=6&compress=zlib-stream"@
}

/// The websocket URL for a client: its gateway URL with the version and
/// compression query.
pub fn connect_url(client: &Client) -> (r: String)
    ensures
        r@ == client.gateway_url_text() + connect_query(),
{
    let mut r = client.gateway_url().clone();
    r.append("/?v=6&compress=zlib-stream");
    r
}

} // verus!
