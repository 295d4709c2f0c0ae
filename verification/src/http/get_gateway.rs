//! The reply of the gateway-discovery endpoint.
use vstd::prelude::*;

verus! {

/// The body of `GET /gateway`: the URL to open the websocket on.
pub struct GetGateway {
    pub url: String,
}

} // verus!
