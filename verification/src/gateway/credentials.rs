use vstd::prelude::*;

use crate::gateway::state::{copy_opt_string, opt_view};

verus! {

/// What the gateway needs to log in and to forward events.
#[derive(Debug)]
pub struct GatewayCredentials {
    pub bot_token: String,
    pub webhook_url: Option<String>,
    pub webhook_secret: Option<String>,
}

/// The credentials as mathematical values.
pub struct GatewayCredentialsView {
    pub bot_token: Seq<char>,
    pub webhook_url: Option<Seq<char>>,
    pub webhook_secret: Option<Seq<char>>,
}

impl View for GatewayCredentials {
    type V = GatewayCredentialsView;

    open spec fn view(&self) -> GatewayCredentialsView {
        GatewayCredentialsView {
            bot_token: self.bot_token@,
            webhook_url: opt_view(self.webhook_url),
            webhook_secret: opt_view(self.webhook_secret),
        }
    }
}

impl Clone for GatewayCredentials {
    fn clone(&self) -> (r: Self)
        ensures
            r == *self,
    {
        GatewayCredentials {
            bot_token: self.bot_token.clone(),
            webhook_url: copy_opt_string(&self.webhook_url),
            webhook_secret: copy_opt_string(&self.webhook_secret),
        }
    }
}

} // verus!
