//! The webhook that gateway events are posted to: checking its URL when
//! the gateway is connected, and deciding on the attempts to post.

use vstd::prelude::*;

use crate::gateway::constants::WEBHOOK_MAX_ATTEMPTS;
use crate::gateway::credentials::GatewayCredentials;
use crate::gateway::state::opt_view;
use crate::gateway::utils::{is_private_hostname, private_hostname};
use crate::text::chars_eq;
use crate::text::chars_of;

verus! {

/// The parts of a URL that the check reads.
#[derive(Debug)]
pub struct UrlParts {
    pub scheme: String,
    pub username: String,
    pub password: Option<String>,
    pub host: Option<String>,
}

pub type UrlPartsView = (Seq<char>, Seq<char>, Option<Seq<char>>, Option<Seq<char>>);

pub open spec fn parts_view(p: Option<UrlParts>) -> Option<UrlPartsView> {
    match p {
        Some(x) => Some((x.scheme@, x.username@, opt_view(x.password), opt_view(x.host))),
        None => None,
    }
}

/// What `url::Url::parse` makes of a text: `None` when it is no URL,
/// otherwise its scheme, user name, password and host.
pub uninterp spec fn url_parts(text: Seq<char>) -> Option<UrlPartsView>;

/// Parses a URL with `url::Url::parse`.
///
/// Trusted: the result is the parser's answer for the text, its scheme,
/// user name, password and host copied out; which texts the parser accepts
/// and how it normalises them is not stated, only named.
#[verifier::external_body]
fn parse_url(text: &str) -> (r: Option<UrlParts>)
    ensures
        parts_view(r) == url_parts(text@),
{
    match url::Url::parse(text) {
        Ok(u) => Some(UrlParts {
            scheme: u.scheme().to_string(),
            username: u.username().to_string(),
            password: u.password().map(|p| p.to_string()),
            host: u.host_str().map(|h| h.to_string()),
        }),
        Err(_) => None,
    }
}

/// Why a webhook URL is refused, if it is: it must parse, use HTTPS, carry
/// no credentials and name a publicly routable host.
pub open spec fn webhook_refusal(parts: Option<UrlPartsView>) -> Option<Seq<char>> {
    match parts {
        None => Some("webhookUrl must be a valid URL"@),
        Some((scheme, username, password, host)) => {
            if scheme != seq!['h', 't', 't', 'p', 's'] {
                Some("webhookUrl must use HTTPS"@)
            } else if username.len() > 0 || (password is Some && password->0.len() > 0) {
                Some("webhookUrl must not contain credentials"@)
            } else if private_hostname(
                match host {
                    Some(h) => h,
                    None => Seq::empty(),
                },
            ) {
                Some("webhookUrl host must be publicly routable"@)
            } else {
                None
            }
        },
    }
}

/// Checks the parts of a parsed webhook URL.
pub fn check_webhook_url(parts: Option<UrlParts>) -> (r: Result<(), String>)
    ensures
        match webhook_refusal(parts_view(parts)) {
            Some(msg) => r is Err && r->Err_0@ == msg,
            None => r is Ok,
        },
{
    let parts = match parts {
        Some(p) => p,
        None => return Err(String::from_str("webhookUrl must be a valid URL")),
    };
    let https = ['h', 't', 't', 'p', 's'];
    assert(https@ =~= seq!['h', 't', 't', 'p', 's']);
    let scheme = chars_of(parts.scheme.as_str());
    if !chars_eq(scheme.as_slice(), &https) {
        return Err(String::from_str("webhookUrl must use HTTPS"));
    }
    let has_password = match &parts.password {
        Some(p) => !p.as_str().is_empty(),
        None => false,
    };
    if !parts.username.as_str().is_empty() || has_password {
        return Err(String::from_str("webhookUrl must not contain credentials"));
    }
    proof {
        reveal_strlit("");
    }
    assert(""@ =~= Seq::<char>::empty());
    let private = match &parts.host {
        Some(h) => is_private_hostname(h.as_str()),
        None => is_private_hostname(""),
    };
    if private {
        return Err(String::from_str("webhookUrl host must be publicly routable"));
    }
    Ok(())
}

/// Why credentials are refused, if they are: a bot token is required, and
/// a webhook URL, when given, must pass the check.
pub open spec fn credentials_refusal(
    bot_token: Seq<char>,
    webhook_parts: Option<Option<UrlPartsView>>,
) -> Option<Seq<char>> {
    if bot_token.len() == 0 {
        Some("Bot Token is required"@)
    } else {
        match webhook_parts {
            Some(parts) => webhook_refusal(parts),
            None => None,
        }
    }
}

/// Checks credentials that a connect request brings.
pub fn validate_credentials(creds: &GatewayCredentials) -> (r: Result<(), String>)
    ensures
        match credentials_refusal(
            creds.bot_token@,
            match creds.webhook_url {
                Some(u) => Some(url_parts(u@)),
                None => None,
            },
        ) {
            Some(msg) => r is Err && r->Err_0@ == msg,
            None => r is Ok,
        },
{
    if creds.bot_token.as_str().is_empty() {
        return Err(String::from_str("Bot Token is required"));
    }
    match &creds.webhook_url {
        Some(url) => check_webhook_url(parse_url(url.as_str())),
        None => Ok(()),
    }
}

/// Where an event is posted and with which token: the webhook URL, and the
/// webhook secret or else the bot token. Nothing is posted without
/// credentials or a webhook URL.
pub fn forward_target(creds: Option<&GatewayCredentials>) -> (r: Option<(String, String)>)
    ensures
        match creds {
            Some(c) => match c.webhook_url {
                Some(url) => r matches Some((u, t)) && u@ == url@ && t@ == (match c.webhook_secret {
                    Some(s) => s@,
                    None => c.bot_token@,
                }),
                None => r is None,
            },
            None => r is None,
        },
{
    let c = match creds {
        Some(c) => c,
        None => return None,
    };
    let url = match &c.webhook_url {
        Some(u) => u.clone(),
        None => return None,
    };
    let token = match &c.webhook_secret {
        Some(s) => s.clone(),
        None => c.bot_token.clone(),
    };
    Some((url, token))
}

/// What to do after one attempt to post an event.
#[derive(Clone, Copy, Debug, PartialEq, Eq, Structural)]
pub enum ForwardNext {
    /// The webhook took the event.
    Delivered,
    /// The webhook refused it: a client error is not retried.
    GiveUp,
    /// Try again while attempts are left.
    Retry,
}

/// The decision after an attempt: the status of the answer, or `None` when
/// no answer came.
pub open spec fn forward_next(status: Option<u16>) -> ForwardNext {
    match status {
        Some(s) => if 200 <= s < 300 {
            ForwardNext::Delivered
        } else if 400 <= s < 500 {
            ForwardNext::GiveUp
        } else {
            ForwardNext::Retry
        },
        None => ForwardNext::Retry,
    }
}

pub fn forward_outcome(status: Option<u16>) -> (r: ForwardNext)
    ensures
        r == forward_next(status),
{
    match status {
        Some(s) => if s >= 200 && s < 300 {
            ForwardNext::Delivered
        } else if s >= 400 && s < 500 {
            ForwardNext::GiveUp
        } else {
            ForwardNext::Retry
        },
        None => ForwardNext::Retry,
    }
}


/// Whether another attempt to post follows attempt number `attempt`
/// (counted from zero): only after an attempt that asks for a retry, and
/// at most `WEBHOOK_MAX_ATTEMPTS` attempts in all.
pub fn forward_again(attempt: u8, next: ForwardNext) -> (r: bool)
    ensures
        r == (next == ForwardNext::Retry && attempt + 1 < WEBHOOK_MAX_ATTEMPTS),
{
    match next {
        ForwardNext::Retry => attempt < WEBHOOK_MAX_ATTEMPTS - 1,
        _ => false,
    }
}

} // verus!
