use flarecord::services::discord::{
    api_error_message, defer_kind, global_commands_url, interaction_callback_url,
    response_message_url, user_url, DeferKind, BASE_URL,
};
use flarecord::utils::{has_api_access, is_interaction, DISCORD_USER_AGENT};

#[test]
fn discord_api_addresses() {
    assert_eq!(BASE_URL, "https://discord.com/api/v10");
    assert_eq!(
        global_commands_url(1234567890123),
        "https://discord.com/api/v10/applications/1234567890123/commands"
    );
    assert_eq!(
        interaction_callback_url(42, "tok-en"),
        "https://discord.com/api/v10/interactions/42/tok-en/callback"
    );
    assert_eq!(
        response_message_url(7, "abc"),
        "https://discord.com/api/v10/webhooks/7/abc/messages/@original"
    );
    assert_eq!(user_url(80351110224678912), "https://discord.com/api/v10/users/80351110224678912");
    assert_eq!(user_url(0), "https://discord.com/api/v10/users/0");
}

#[test]
fn deferrals_and_errors() {
    assert_eq!(defer_kind(true), DeferKind::UpdateMessage);
    assert_eq!(defer_kind(false), DeferKind::ChannelMessageWithSource);
    assert_eq!(
        api_error_message("404 Not Found", "{\"message\": \"Unknown\"}"),
        "API returned 404 Not Found: {\"message\": \"Unknown\"}"
    );
    assert_eq!(api_error_message("500", ""), "API returned 500: ");
}

#[test]
fn request_headers() {
    assert!(is_interaction(true, Some(DISCORD_USER_AGENT)));
    assert!(is_interaction(true, Some("Discord-Interactions/1.0 (+https://discord.com)")));
    assert!(!is_interaction(false, Some(DISCORD_USER_AGENT)));
    assert!(!is_interaction(true, Some("curl/8.0")));
    assert!(!is_interaction(true, None));
    assert!(has_api_access(Some("secret"), "secret"));
    assert!(!has_api_access(Some("secret "), "secret"));
    assert!(!has_api_access(None, "secret"));
    assert!(!has_api_access(Some(""), "secret"));
}
