use flarecord::bot::builder::BotBuilder;
use flarecord::bot::commands::DefaultBotCommands;
use flarecord::bot::Bot;
use flarecord::dev::{DevCommands, SyncCommand, VersionCommand};
use flarecord::models::command::{CommandHandler, CommandType, ADMINISTRATOR};
use flarecord::models::modals::ModalHandler;

#[test]
fn registering_replaces_by_name() {
    let b: BotBuilder<u32, &str, u8> = BotBuilder::new()
        .register_command("hello".to_string(), 1)
        .register_command("ping".to_string(), 2)
        .register_command("hello".to_string(), 3)
        .enable_dev_commands()
        .register_component("c1".to_string(), "component")
        .register_modal("m1".to_string(), 7)
        .register_command_handler("handler".to_string(), "does things".to_string(), 4);
    let bot = Bot::from_builder(b);
    assert_eq!(bot.command(&"hello".to_string()), Some(&CommandType::Custom(3)));
    assert_eq!(bot.command(&"ping".to_string()), Some(&CommandType::Custom(2)));
    assert_eq!(bot.command(&"dev".to_string()), Some(&CommandType::Dev(DevCommands)));
    assert_eq!(
        bot.command(&"handler".to_string()),
        Some(&CommandType::Handler(CommandHandler::new(
            "handler".to_string(),
            "does things".to_string(),
            4
        )))
    );
    assert_eq!(bot.command(&"missing".to_string()), None);
    assert_eq!(bot.component(&"c1".to_string()), Some(&"component"));
    assert_eq!(bot.modal(&"m1".to_string()), Some(&7));
    assert_eq!(bot.modal(&"c1".to_string()), None);
    let empty: Bot<u8, u8, u8> = Bot::new();
    assert_eq!(empty.command(&"dev".to_string()), None);
}

#[test]
fn command_names() {
    assert_eq!(DevCommands.name(), "dev");
    assert_eq!(DevCommands.default_member_permissions(), Some(ADMINISTRATOR));
    assert_eq!(ADMINISTRATOR, 1 << 3);
    assert_eq!(DevCommands.subcommands(), vec!["sync".to_string(), "version".to_string()]);
    assert_eq!(DefaultBotCommands.default_member_permissions(), Some(ADMINISTRATOR));
    assert!(DevCommands.description().contains("development mode"));
    assert_eq!(SyncCommand.name(), "sync");
    assert_eq!(SyncCommand.completed_message(), "Commands sync completed successfully!");
    assert_eq!(VersionCommand.name(), "version");
    assert_eq!(DefaultBotCommands.name(), "bot");
    assert_eq!(
        DefaultBotCommands.description(),
        "Useful set of commands that can be used to manage the bot"
    );
}

#[test]
fn command_handlers_keep_their_parts() {
    let c = CommandHandler::new("ping".to_string(), "answers pong".to_string(), 11u8);
    assert_eq!(c.name(), "ping");
    assert_eq!(c.description(), "answers pong");
    assert_eq!(c.handler, 11);
}

#[test]
fn modal_handlers_keep_their_parts() {
    let m: ModalHandler<fn() -> u8, ()> = ModalHandler::new("ticket".to_string(), "a ticket".to_string(), || 5);
    assert_eq!(m.name(), "ticket");
    assert_eq!(m.description(), "a ticket");
    assert_eq!((m.handler)(), 5);
}
