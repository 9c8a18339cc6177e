use admiral::logging::LogLevel;
use admiral::options::OptionKind;
use admiral::startup::{
    ready_begin, ready_step, respond_failure_entry, slash_commands, start_outcome_entry,
    wakeup_embed, ReadyAction, ReadyEvent, ReadyStage, StartFailure, WAKEUP_CHANNEL,
};

fn describe(actions: &[ReadyAction]) -> Vec<String> {
    actions
        .iter()
        .map(|a| match a {
            ReadyAction::Log(e) => format!("log {:?} {}", e.level, e.message),
            ReadyAction::ReadClock => "read clock".to_string(),
            ReadyAction::MakeTimestamp(s) => format!("timestamp {}", s),
            ReadyAction::SendWakeup => "send wakeup".to_string(),
            ReadyAction::SetCommands => "set commands".to_string(),
        })
        .collect()
}

#[test]
fn slash_command_table() {
    let commands = slash_commands();
    let names: Vec<&str> = commands.iter().map(|c| c.name.as_str()).collect();
    assert_eq!(
        names,
        vec!["greeting", "echo", "roll", "coin-flip", "get-cat-gif", "not-implemented", "send-msg-to-terminal"]
    );
    let roll = &commands[2];
    assert_eq!(roll.description, "Roll a dice. Defaults to d20");
    assert_eq!(roll.options.len(), 3);
    assert_eq!(roll.options[1].name, "dice");
    assert_eq!(roll.options[1].description, "Specifies dice to roll. For example: 2d20, d7, 14d28");
    assert!(!roll.options[1].required);
    assert_eq!(roll.options[2].kind, OptionKind::Boolean);
    assert!(commands[1].options[0].required);
    assert!(commands[0].options.is_empty());
}

#[test]
fn wakeup_message() {
    let e = wakeup_embed();
    assert_eq!(e.title, "Up and Running! :>");
    assert_eq!((e.red, e.green, e.blue), (0, 127, 255));
    assert_eq!(WAKEUP_CHANNEL, 1271918404152066048);
}

#[test]
fn ready_happy_path() {
    let (stage, actions) = ready_begin();
    assert_eq!(stage, ReadyStage::AwaitingClock);
    assert_eq!(describe(&actions), vec!["log Info Bot Connected!", "read clock"]);
    let (stage, actions) = ready_step(stage, ReadyEvent::Clock(Ok(1_700_000_000)));
    assert_eq!(stage, ReadyStage::AwaitingTimestamp);
    assert_eq!(describe(&actions), vec!["timestamp 1700000000"]);
    let (stage, actions) = ready_step(stage, ReadyEvent::Timestamp(Ok(())));
    assert_eq!(describe(&actions), vec!["send wakeup"]);
    let (stage, actions) = ready_step(stage, ReadyEvent::WakeupSent(Ok(())));
    assert_eq!(stage, ReadyStage::AwaitingCommands);
    assert_eq!(describe(&actions), vec!["set commands"]);
    let (stage, actions) = ready_step(stage, ReadyEvent::CommandsSet(Ok(())));
    assert_eq!(stage, ReadyStage::Finished);
    assert!(actions.is_empty());
}

#[test]
fn ready_failures_still_register_commands() {
    let (stage, actions) = ready_step(ReadyStage::AwaitingClock, ReadyEvent::Clock(Err("clock".into())));
    assert_eq!(stage, ReadyStage::AwaitingCommands);
    assert_eq!(
        describe(&actions),
        vec!["log Error Failed to get timestamp @`EventHandler::ready`:\n\tclock", "set commands"]
    );
    let (stage, actions) =
        ready_step(ReadyStage::AwaitingTimestamp, ReadyEvent::Timestamp(Err("range".into())));
    assert_eq!(stage, ReadyStage::AwaitingCommands);
    assert_eq!(
        describe(&actions),
        vec!["log Error Failed to parse timestamp @`EventHandler::ready`:\n\trange", "set commands"]
    );
    let (stage, actions) =
        ready_step(ReadyStage::AwaitingWakeup, ReadyEvent::WakeupSent(Err("http".into())));
    assert_eq!(stage, ReadyStage::AwaitingCommands);
    assert_eq!(
        describe(&actions),
        vec!["log Error Failure to send wakeup message @`EventHandler::ready`:\n\thttp", "set commands"]
    );
    let (stage, actions) =
        ready_step(ReadyStage::AwaitingCommands, ReadyEvent::CommandsSet(Err("denied".into())));
    assert_eq!(stage, ReadyStage::Finished);
    assert_eq!(
        describe(&actions),
        vec!["log Fatal Failure to set global commands @`EventHandler::ready`:\n\tdenied"]
    );
}

#[test]
fn ready_ignores_out_of_order_events() {
    let (stage, actions) = ready_step(ReadyStage::Finished, ReadyEvent::Clock(Ok(5)));
    assert_eq!(stage, ReadyStage::Finished);
    assert!(actions.is_empty());
}

#[test]
fn clock_seconds_are_cast_like_as_i64() {
    let (_, actions) = ready_step(ReadyStage::AwaitingClock, ReadyEvent::Clock(Ok(u64::MAX)));
    assert_eq!(describe(&actions), vec!["timestamp -1"]);
}

#[test]
fn start_outcomes() {
    let e = start_outcome_entry(Ok(()));
    assert_eq!((e.level, e.message.as_str()), (LogLevel::Info, "Client started successfully"));
    let e = start_outcome_entry(Err(StartFailure::MissingToken("not present".into())));
    assert_eq!(e.level, LogLevel::Fatal);
    assert_eq!(
        e.message,
        "Failed to start client @`main`:\n\tFailed to retrive bot token from enviroment @`main`:\n\tnot present"
    );
    let e = start_outcome_entry(Err(StartFailure::ClientStart("gateway".into())));
    assert_eq!(e.message, "Failed to start client @`main`:\n\tFailed to start client @`main`:\n\tgateway");
    let e = start_outcome_entry(Err(StartFailure::ClientBuild("bad".into())));
    assert_eq!(e.message, "Failed to start client @`main`:\n\tFailed to create client @`main`:\n\tbad");
}

#[test]
fn reply_failure_warning() {
    let e = respond_failure_entry("timeout");
    assert_eq!(e.level, LogLevel::Warning);
    assert_eq!(
        e.message,
        "Failure to respond to command @`EventHandler::interaction_create::Command`:\n\ttimeout"
    );
}
