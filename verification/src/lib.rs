use vstd::prelude::*;

pub mod client;
pub mod config;
pub mod error;
pub mod fetch;
pub mod portabletext;
pub mod url;

use client::SanityClient;
use config::SanityConfig;

verus! {

/// Builds a client for the configuration, which must be able to form an
/// endpoint URL; a configuration that cannot is a programming error, and
/// the unverified caller that reaches this function with one halts here.
pub fn create_client(config: SanityConfig) -> (r: SanityClient)
    requires
        client::spec_client_ok(config),
    ensures
        r.config == config,
        r.payload.query.base@ == client::spec_client_base(config),
        r.payload.query.serialized@ == client::spec_client_base(config),
        r.payload.body is None,
        r.payload.query_result is None,
{
    match SanityClient::new(config) {
        Ok(client) => client,
        Err(_) => vstd::pervasive::unreached(),
    }
}

} // verus!
