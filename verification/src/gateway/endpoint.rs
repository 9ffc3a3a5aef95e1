//! Reading the answers of the gateway endpoint and of the socket upgrade.

use vstd::prelude::*;

use crate::gateway::constants::GATEWAY_VERSION;
use crate::gateway::utils::{
    http_url, to_http_url, GatewayBotResponse, GatewayError, GatewayInfo, OpenWebSocketError,
};
use crate::text::{decimal, decimal_text};

verus! {

/// The authorization header value for a bot token.
pub fn bot_authorization(token: &str) -> (r: String)
    ensures
        r@ == "Bot "@ + token@,
{
    String::from_str("Bot ").concat(token)
}

/// Whether a failed answer of the gateway endpoint is worth a retry: rate
/// limits, timeouts and server errors are.
pub open spec fn endpoint_retryable(status: u16) -> bool {
    status == 429 || status >= 500 || status == 408
}

/// The error that an answer of the gateway endpoint other than 200 means.
pub fn gateway_status_error(status: u16) -> (r: Option<GatewayError>)
    ensures
        status == 200 ==> r is None,
        status != 200 ==> (r matches Some(GatewayError::Api(msg, retryable, code)) && msg@
            == "GET /gateway/bot failed ("@ + decimal(status as nat) + ")"@ && retryable
            == endpoint_retryable(status) && code == status),
{
    if status == 200 {
        return None;
    }
    let retryable = status == 429 || status >= 500 || status == 408;
    let msg = String::from_str("GET /gateway/bot failed (").concat(
        decimal_text(status as u64).as_str(),
    ).concat(")");
    Some(GatewayError::Api(msg, retryable, status))
}

/// What the body of a successful answer of the gateway endpoint means: an
/// unreadable body is a network error, an empty URL a retryable API error.
pub fn gateway_info_from_body(body: Result<GatewayBotResponse, String>) -> (r: Result<
    GatewayInfo,
    GatewayError,
>)
    ensures
        match body {
            Err(e) => r matches Err(GatewayError::Network(msg)) && msg@ == "Failed to parse JSON: "@
                + e@,
            Ok(data) => if data.url@.len() == 0 {
                r matches Err(GatewayError::Api(msg, retryable, code)) && msg@
                    == "GET /gateway/bot returned no URL"@ && retryable && code == 200
            } else {
                r matches Ok(info) && info.url@ == data.url@ && info.session_start_limit
                    == data.session_start_limit
            },
        },
{
    match body {
        Err(e) => Err(
            GatewayError::Network(String::from_str("Failed to parse JSON: ").concat(e.as_str())),
        ),
        Ok(data) => {
            if data.url.as_str().is_empty() {
                Err(
                    GatewayError::Api(
                        String::from_str("GET /gateway/bot returned no URL"),
                        true,
                        200,
                    ),
                )
            } else {
                Ok(GatewayInfo { url: data.url, session_start_limit: data.session_start_limit })
            }
        },
    }
}

/// The URL of the socket upgrade request: the gateway URL in HTTP form,
/// with the protocol version and the JSON encoding.
pub fn websocket_request_url(url: &str) -> (r: String)
    ensures
        r@ == http_url(url@) + "?v="@ + decimal(GATEWAY_VERSION as nat) + "&encoding=json"@,
{
    to_http_url(url).concat("?v=").concat(decimal_text(GATEWAY_VERSION as u64).as_str()).concat(
        "&encoding=json",
    )
}

/// Whether a refused socket upgrade is worth a retry.
pub open spec fn upgrade_retryable(status: u16) -> bool {
    status == 429 || status >= 500 || status == 0
}

/// The error when the answer to the upgrade request holds no socket.
pub fn websocket_refused(status: u16) -> (r: OpenWebSocketError)
    ensures
        r.error@ == "failed to connect ("@ + decimal(status as nat) + ")"@,
        r.retryable == upgrade_retryable(status),
{
    OpenWebSocketError {
        error: String::from_str("failed to connect (").concat(decimal_text(status as u64).as_str()).concat(
            ")",
        ),
        retryable: status == 429 || status >= 500 || status == 0,
    }
}

} // verus!
