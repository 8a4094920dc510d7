//! What a logout request did.

use vstd::prelude::*;

verus! {

pub struct LogoutResult {
    /// A session was found and ended.
    pub terminated: bool,
    /// The front-channel logout URLs to load, one per involved client
    /// that registered one.
    pub frontchannel_logout_uris: Vec<String>,
    /// The `post_logout_redirect_uri`, when it is registered for the client
    /// the ID token hint names.
    pub validated_post_logout_redirect_uri: Option<String>,
}

impl LogoutResult {
    /// No session was found: nothing was ended.
    pub fn none(validated_post_logout_redirect_uri: Option<String>) -> (r: Self)
        ensures
            !r.terminated,
            r.frontchannel_logout_uris@.len() == 0,
            r.validated_post_logout_redirect_uri == validated_post_logout_redirect_uri,
    {
        LogoutResult { terminated: false, frontchannel_logout_uris: Vec::new(), validated_post_logout_redirect_uri }
    }
}

} // verus!
