//! The broker's configuration.

use crate::text::{string_or, text_or};
use vstd::prelude::*;

verus! {

/// What a broker works with.
#[derive(Debug)]
pub struct BrokerConfig {
    pub jwt_secret: String,
    pub turn_url: String,
    pub turn_user: String,
    pub turn_secret: String,
    pub addr: String,
}

/// The values of the environment variables that are looked at, as far as they are set.
#[derive(Debug)]
pub struct BrokerEnvironment {
    pub jwt_secret: Option<String>,
    pub turn_url: Option<String>,
    pub turn_user: Option<String>,
    pub turn_secret: Option<String>,
    pub broker_addr: Option<String>,
}

/// Puts the configuration together. The secret must be set; without an address and a secret
/// there is no TURN server.
pub fn load_config(env: BrokerEnvironment) -> (r: Option<BrokerConfig>)
    ensures
        r is Some <==> env.jwt_secret is Some,
        r is Some ==> ({
            let c = r->0;
            &&& c.jwt_secret@ == env.jwt_secret->0@
            &&& c.turn_url@ == text_or(env.turn_url, ""@)
            &&& c.turn_user@ == text_or(env.turn_user, "sremote"@)
            &&& c.turn_secret@ == text_or(env.turn_secret, ""@)
            &&& c.addr@ == text_or(env.broker_addr, "127.0.0.1:5695"@)
        }),
{
    let jwt_secret: String = match env.jwt_secret {
        Some(secret) => secret,
        None => {
            return None;
        },
    };
    Some(
        BrokerConfig {
            jwt_secret,
            turn_url: string_or(env.turn_url, ""),
            turn_user: string_or(env.turn_user, "sremote"),
            turn_secret: string_or(env.turn_secret, ""),
            addr: string_or(env.broker_addr, "127.0.0.1:5695"),
        },
    )
}

} // verus!
