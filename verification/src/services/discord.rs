//! The addresses of the Discord REST API that the bot calls, and what its
//! answers mean.

use vstd::prelude::*;

use crate::text::{decimal, decimal_text};

verus! {

/// The root of the Discord REST API, version 10.
pub const BASE_URL: &'static str = "https://discord.com/api/v10";

/// Where the global commands of an application are replaced.
pub fn global_commands_url(application_id: u64) -> (r: String)
    ensures
        r@ == BASE_URL@ + "/applications/"@ + decimal(application_id as nat) + "/commands"@,
{
    String::from_str(BASE_URL).concat("/applications/").concat(
        decimal_text(application_id).as_str(),
    ).concat("/commands")
}

/// Where the answer to an interaction is posted.
pub fn interaction_callback_url(interaction_id: u64, token: &str) -> (r: String)
    ensures
        r@ == BASE_URL@ + "/interactions/"@ + decimal(interaction_id as nat) + "/"@ + token@
            + "/callback"@,
{
    String::from_str(BASE_URL).concat("/interactions/").concat(
        decimal_text(interaction_id).as_str(),
    ).concat("/").concat(token).concat("/callback")
}

/// Where the first answer to an interaction is edited.
pub fn response_message_url(application_id: u64, token: &str) -> (r: String)
    ensures
        r@ == BASE_URL@ + "/webhooks/"@ + decimal(application_id as nat) + "/"@ + token@
            + "/messages/@original"@,
{
    String::from_str(BASE_URL).concat("/webhooks/").concat(
        decimal_text(application_id).as_str(),
    ).concat("/").concat(token).concat("/messages/@original")
}

/// Where a user is read.
pub fn user_url(user_id: u64) -> (r: String)
    ensures
        r@ == BASE_URL@ + "/users/"@ + decimal(user_id as nat),
{
    String::from_str(BASE_URL).concat("/users/").concat(decimal_text(user_id).as_str())
}

/// How an interaction is acknowledged before its answer is ready.
#[derive(Clone, Copy, Debug, PartialEq, Eq, Structural)]
pub enum DeferKind {
    /// The message that holds the component will be edited.
    UpdateMessage,
    /// A new message will answer.
    ChannelMessageWithSource,
}

/// A deferred edit updates the message; otherwise a new message follows.
pub fn defer_kind(is_edit: bool) -> (r: DeferKind)
    ensures
        r == (if is_edit {
            DeferKind::UpdateMessage
        } else {
            DeferKind::ChannelMessageWithSource
        }),
{
    if is_edit {
        DeferKind::UpdateMessage
    } else {
        DeferKind::ChannelMessageWithSource
    }
}

/// The error for an answer that is not a success: its status and body.
pub fn api_error_message(status: &str, body: &str) -> (r: String)
    ensures
        r@ == "API returned "@ + status@ + ": "@ + body@,
{
    String::from_str("API returned ").concat(status).concat(": ").concat(body)
}

} // verus!
