//! What the bot does once it is connected, and what it reports when starting fails.

use vstd::prelude::*;

use crate::logging::{entry_with_reason, LogEntry, LogLevel};
use crate::options::OptionKind;

verus! {

// ---------------------------------------------------------------- slash commands

/// An option that a slash command declares.
#[derive(Clone, Debug)]
pub struct OptionSpec {
    pub kind: OptionKind,
    pub name: String,
    pub description: String,
    pub required: bool,
}

/// A slash command as the bot registers it.
#[derive(Clone, Debug)]
pub struct CommandSpec {
    pub name: String,
    pub description: String,
    pub options: Vec<OptionSpec>,
}

pub type OptionSpecView = (OptionKind, Seq<char>, Seq<char>, bool);

pub type CommandSpecView = (Seq<char>, Seq<char>, Seq<OptionSpecView>);

impl OptionSpec {
    pub open spec fn view(self) -> OptionSpecView {
        (self.kind, self.name@, self.description@, self.required)
    }
}

impl CommandSpec {
    pub open spec fn view(self) -> CommandSpecView {
        (self.name@, self.description@, self.options@.map_values(|o: OptionSpec| o.view()))
    }
}

/// The slash commands the bot registers, in order.
pub open spec fn command_table() -> Seq<CommandSpecView> {
    seq![
        ("greeting"@, "Say Hello"@, Seq::<OptionSpecView>::empty()),
        ("echo"@, "Return inputed string"@, seq![(OptionKind::String, "text"@, "Text to echo"@, true)]),
        (
            "roll"@,
            "Roll a dice. Defaults to d20"@,
            seq![
                (OptionKind::String, "action"@, "Specifies action to roll for"@, false),
                (OptionKind::String, "dice"@, "Specifies dice to roll. For example: 2d20, d7, 14d28"@, false),
                (OptionKind::Boolean, "sum"@, "If yes, suffix the message with the sum of all rolls"@, false),
            ],
        ),
        ("coin-flip"@, "Flip a coin"@, Seq::<OptionSpecView>::empty()),
        ("get-cat-gif"@, "Get a random cat GIF"@, Seq::<OptionSpecView>::empty()),
        ("not-implemented"@, "A non implemented command for debug/test reasons"@, Seq::<OptionSpecView>::empty()),
        (
            "send-msg-to-terminal"@,
            "Send a message to the bot's terminal"@,
            seq![(OptionKind::String, "text"@, "The text that gets sent to the bot's terminal"@, true)],
        ),
    ]
}

/// In `table`, the command `command` declares the option `option`, and declares it
/// with kind `kind` wherever it declares it.
pub open spec fn declares_option(table: Seq<CommandSpecView>, command: Seq<char>, option: Seq<char>, kind: OptionKind) -> bool {
    &&& exists|i: int, j: int|
        0 <= i < table.len() && table[i].0 == command && 0 <= j < table[i].2.len() && (#[trigger] table[i].2[j]).1
            == option && table[i].2[j].0 == kind
    &&& forall|i: int, j: int|
        0 <= i < table.len() && table[i].0 == command && 0 <= j < table[i].2.len() && (#[trigger] table[i].2[j]).1
            == option ==> table[i].2[j].0 == kind
}

/// Each option a command reads is registered with the kind it is read with:
/// `roll` declares `action` and `dice` as strings and `sum` as a boolean, and `echo`
/// and `send-msg-to-terminal` declare `text` as a string.
pub proof fn lemma_registered_kinds_match_reads()
    ensures
        declares_option(command_table(), "roll"@, "action"@, OptionKind::String),
        declares_option(command_table(), "roll"@, "dice"@, OptionKind::String),
        declares_option(command_table(), "roll"@, "sum"@, OptionKind::Boolean),
        declares_option(command_table(), "echo"@, "text"@, OptionKind::String),
        declares_option(command_table(), "send-msg-to-terminal"@, "text"@, OptionKind::String),
{
    reveal_strlit("greeting");
    reveal_strlit("echo");
    reveal_strlit("roll");
    reveal_strlit("coin-flip");
    reveal_strlit("get-cat-gif");
    reveal_strlit("not-implemented");
    reveal_strlit("send-msg-to-terminal");
    reveal_strlit("action");
    reveal_strlit("dice");
    reveal_strlit("sum");
    reveal_strlit("text");
    let t = command_table();
    assert(t[2].2[0].1 == "action"@ && t[2].2[1].1 == "dice"@ && t[2].2[2].1 == "sum"@);
    assert(t[1].2[0].1 == "text"@ && t[6].2[0].1 == "text"@);
    assert("greeting"@.len() == 8 && "roll"@.len() == 4 && "echo"@.len() == 4);
    assert("send-msg-to-terminal"@.len() == 20);
    assert(t[0].0 != "roll"@ && t[0].0 != "echo"@ && t[0].0 != "send-msg-to-terminal"@);
    assert("echo"@[0] != "roll"@[0]);
    assert(t[1].0 != "roll"@ && t[1].0 != "send-msg-to-terminal"@);
    assert(t[2].0 != "echo"@ && t[2].0 != "send-msg-to-terminal"@);
    assert(t[3].0 != "roll"@ && t[3].0 != "echo"@ && t[3].0 != "send-msg-to-terminal"@);
    assert(t[4].0 != "roll"@ && t[4].0 != "echo"@ && t[4].0 != "send-msg-to-terminal"@);
    assert(t[5].0 != "roll"@ && t[5].0 != "echo"@ && t[5].0 != "send-msg-to-terminal"@);
    assert(t[6].0 != "roll"@ && t[6].0 != "echo"@);
    assert("action"@ != "dice"@ && "action"@ != "sum"@ && "dice"@ != "sum"@);
}

fn option_spec(kind: OptionKind, name: &str, description: &str, required: bool) -> (r: OptionSpec)
    ensures
        r.view() == (kind, name@, description@, required),
{
    OptionSpec { kind, name: name.to_owned(), description: description.to_owned(), required }
}

fn command_spec(name: &str, description: &str, options: Vec<OptionSpec>) -> (r: CommandSpec)
    ensures
        r.name@ == name@,
        r.description@ == description@,
        r.options@ == options@,
{
    CommandSpec { name: name.to_owned(), description: description.to_owned(), options }
}

/// The slash commands to register once connected.
pub fn slash_commands() -> (r: Vec<CommandSpec>)
    ensures
        r@.map_values(|c: CommandSpec| c.view()) == command_table(),
{
    let mut r: Vec<CommandSpec> = Vec::new();
    r.push(command_spec("greeting", "Say Hello", Vec::new()));
    let mut echo_options: Vec<OptionSpec> = Vec::new();
    echo_options.push(option_spec(OptionKind::String, "text", "Text to echo", true));
    assert(echo_options@.map_values(|o: OptionSpec| o.view()) =~= command_table()[1].2);
    r.push(command_spec("echo", "Return inputed string", echo_options));
    let mut roll_options: Vec<OptionSpec> = Vec::new();
    roll_options.push(option_spec(OptionKind::String, "action", "Specifies action to roll for", false));
    roll_options.push(
        option_spec(OptionKind::String, "dice", "Specifies dice to roll. For example: 2d20, d7, 14d28", false),
    );
    roll_options.push(
        option_spec(OptionKind::Boolean, "sum", "If yes, suffix the message with the sum of all rolls", false),
    );
    assert(roll_options@.map_values(|o: OptionSpec| o.view()) =~= command_table()[2].2);
    r.push(command_spec("roll", "Roll a dice. Defaults to d20", roll_options));
    r.push(command_spec("coin-flip", "Flip a coin", Vec::new()));
    r.push(command_spec("get-cat-gif", "Get a random cat GIF", Vec::new()));
    r.push(command_spec("not-implemented", "A non implemented command for debug/test reasons", Vec::new()));
    let mut terminal_options: Vec<OptionSpec> = Vec::new();
    terminal_options.push(
        option_spec(OptionKind::String, "text", "The text that gets sent to the bot's terminal", true),
    );
    assert(terminal_options@.map_values(|o: OptionSpec| o.view()) =~= command_table()[6].2);
    r.push(command_spec("send-msg-to-terminal", "Send a message to the bot's terminal", terminal_options));
    assert(r@[0].options@.map_values(|o: OptionSpec| o.view()) =~= command_table()[0].2);
    assert(r@[3].options@.map_values(|o: OptionSpec| o.view()) =~= command_table()[3].2);
    assert(r@[4].options@.map_values(|o: OptionSpec| o.view()) =~= command_table()[4].2);
    assert(r@[5].options@.map_values(|o: OptionSpec| o.view()) =~= command_table()[5].2);
    assert(r@.map_values(|c: CommandSpec| c.view()) =~= command_table());
    r
}

// ---------------------------------------------------------------- the wake-up message

/// The channel that hears the wake-up message.
pub const WAKEUP_CHANNEL: u64 = 1271918404152066048;

/// The embed sent on wake-up: a title and a colour, stamped with the time of waking.
pub struct WakeupEmbed {
    pub title: String,
    pub red: u8,
    pub green: u8,
    pub blue: u8,
}

pub fn wakeup_embed() -> (r: WakeupEmbed)
    ensures
        r.title@ == "Up and Running! :>"@,
        (r.red, r.green, r.blue) == (0u8, 127u8, 255u8),
{
    WakeupEmbed { title: "Up and Running! :>".to_owned(), red: 0, green: 127, blue: 255 }
}

// ---------------------------------------------------------------- on ready

/// Where the bot stands in its start-up sequence.
#[derive(Clone, Copy, Debug, PartialEq, Eq, Structural)]
pub enum ReadyStage {
    /// Waiting for the system clock.
    AwaitingClock,
    /// Waiting for the seconds to become a message timestamp.
    AwaitingTimestamp,
    /// Waiting for the wake-up message to be sent.
    AwaitingWakeup,
    /// Waiting for the slash commands to be registered.
    AwaitingCommands,
    Finished,
}

/// What came back from the outside work that a stage waits for; a failure carries its reason.
pub enum ReadyEvent {
    /// The seconds since the Unix epoch, or why the clock could not tell them.
    Clock(Result<u64, String>),
    Timestamp(Result<(), String>),
    WakeupSent(Result<(), String>),
    CommandsSet(Result<(), String>),
}

/// Work for the caller to do.
pub enum ReadyAction {
    Log(LogEntry),
    ReadClock,
    /// Turn these seconds since the Unix epoch into the wake-up message's timestamp.
    MakeTimestamp(i64),
    SendWakeup,
    SetCommands,
}

pub enum ReadyEventView {
    Clock(Result<u64, Seq<char>>),
    Timestamp(Result<(), Seq<char>>),
    WakeupSent(Result<(), Seq<char>>),
    CommandsSet(Result<(), Seq<char>>),
}

pub enum ReadyActionView {
    Log(LogLevel, Seq<char>),
    ReadClock,
    MakeTimestamp(i64),
    SendWakeup,
    SetCommands,
}

pub open spec fn result_view<T>(r: Result<T, String>) -> Result<T, Seq<char>> {
    match r {
        Ok(t) => Ok(t),
        Err(why) => Err(why@),
    }
}

impl ReadyEvent {
    pub open spec fn view(self) -> ReadyEventView {
        match self {
            ReadyEvent::Clock(r) => ReadyEventView::Clock(result_view(r)),
            ReadyEvent::Timestamp(r) => ReadyEventView::Timestamp(result_view(r)),
            ReadyEvent::WakeupSent(r) => ReadyEventView::WakeupSent(result_view(r)),
            ReadyEvent::CommandsSet(r) => ReadyEventView::CommandsSet(result_view(r)),
        }
    }
}

impl ReadyAction {
    pub open spec fn view(self) -> ReadyActionView {
        match self {
            ReadyAction::Log(e) => ReadyActionView::Log(e.level, e.message@),
            ReadyAction::ReadClock => ReadyActionView::ReadClock,
            ReadyAction::MakeTimestamp(s) => ReadyActionView::MakeTimestamp(s),
            ReadyAction::SendWakeup => ReadyActionView::SendWakeup,
            ReadyAction::SetCommands => ReadyActionView::SetCommands,
        }
    }
}

pub open spec fn actions_view(actions: Seq<ReadyAction>) -> Seq<ReadyActionView> {
    actions.map_values(|a: ReadyAction| a.view())
}

/// The start of the sequence: report the connection, then read the clock.
pub open spec fn ready_start() -> (ReadyStage, Seq<ReadyActionView>) {
    (
        ReadyStage::AwaitingClock,
        seq![ReadyActionView::Log(LogLevel::Info, "Bot Connected!"@), ReadyActionView::ReadClock],
    )
}

/// One step: a failure is logged and the sequence goes on to registering the
/// commands; the wake-up message is sent only when the clock and the timestamp
/// both succeed; failing to register the commands is fatal.
pub open spec fn ready_transition(stage: ReadyStage, event: ReadyEventView) -> (ReadyStage, Seq<ReadyActionView>) {
    match (stage, event) {
        (ReadyStage::AwaitingClock, ReadyEventView::Clock(Ok(secs))) => (
            ReadyStage::AwaitingTimestamp,
            seq![ReadyActionView::MakeTimestamp(secs as i64)],
        ),
        (ReadyStage::AwaitingClock, ReadyEventView::Clock(Err(why))) => (
            ReadyStage::AwaitingCommands,
            seq![
                ReadyActionView::Log(LogLevel::Error, "Failed to get timestamp @`EventHandler::ready`:\n\t"@ + why),
                ReadyActionView::SetCommands,
            ],
        ),
        (ReadyStage::AwaitingTimestamp, ReadyEventView::Timestamp(Ok(()))) => (
            ReadyStage::AwaitingWakeup,
            seq![ReadyActionView::SendWakeup],
        ),
        (ReadyStage::AwaitingTimestamp, ReadyEventView::Timestamp(Err(why))) => (
            ReadyStage::AwaitingCommands,
            seq![
                ReadyActionView::Log(LogLevel::Error, "Failed to parse timestamp @`EventHandler::ready`:\n\t"@ + why),
                ReadyActionView::SetCommands,
            ],
        ),
        (ReadyStage::AwaitingWakeup, ReadyEventView::WakeupSent(Ok(()))) => (
            ReadyStage::AwaitingCommands,
            seq![ReadyActionView::SetCommands],
        ),
        (ReadyStage::AwaitingWakeup, ReadyEventView::WakeupSent(Err(why))) => (
            ReadyStage::AwaitingCommands,
            seq![
                ReadyActionView::Log(
                    LogLevel::Error,
                    "Failure to send wakeup message @`EventHandler::ready`:\n\t"@ + why,
                ),
                ReadyActionView::SetCommands,
            ],
        ),
        (ReadyStage::AwaitingCommands, ReadyEventView::CommandsSet(Ok(()))) => (
            ReadyStage::Finished,
            Seq::empty(),
        ),
        (ReadyStage::AwaitingCommands, ReadyEventView::CommandsSet(Err(why))) => (
            ReadyStage::Finished,
            seq![
                ReadyActionView::Log(
                    LogLevel::Fatal,
                    "Failure to set global commands @`EventHandler::ready`:\n\t"@ + why,
                ),
            ],
        ),
        _ => (stage, Seq::empty()),
    }
}

/// Whatever the clock, the timestamp and the wake-up message give back, the sequence
/// reaches the registering of the slash commands, and asks for it exactly once, as
/// the last action of the step that gets there; the wake-up message is sent only
/// when the clock and the timestamp both succeed; and registering ends the sequence
/// whether it succeeds or fails.
pub proof fn lemma_ready_always_registers(
    clock: Result<u64, Seq<char>>,
    stamp: Result<(), Seq<char>>,
    sent: Result<(), Seq<char>>,
    registered: Result<(), Seq<char>>,
)
    ensures
        ({
            let (s1, a1) = ready_transition(ReadyStage::AwaitingClock, ReadyEventView::Clock(clock));
            let (s2, a2) = ready_transition(s1, ReadyEventView::Timestamp(stamp));
            let (s3, a3) = ready_transition(s2, ReadyEventView::WakeupSent(sent));
            let actions = a1 + a2 + a3;
            &&& s3 == ReadyStage::AwaitingCommands
            &&& actions.len() > 0 && actions.last() == ReadyActionView::SetCommands
            &&& forall|i: int| 0 <= i < actions.len() - 1 ==> actions[i] != ReadyActionView::SetCommands
            &&& (exists|i: int| 0 <= i < actions.len() && actions[i] == ReadyActionView::SendWakeup)
                <==> (clock is Ok && stamp is Ok)
            &&& ready_transition(s3, ReadyEventView::CommandsSet(registered)).0 == ReadyStage::Finished
        }),
{
    let (s1, a1) = ready_transition(ReadyStage::AwaitingClock, ReadyEventView::Clock(clock));
    let (s2, a2) = ready_transition(s1, ReadyEventView::Timestamp(stamp));
    let (s3, a3) = ready_transition(s2, ReadyEventView::WakeupSent(sent));
    let actions = a1 + a2 + a3;
    if clock is Ok {
        if stamp is Ok {
            assert(actions[1] == ReadyActionView::SendWakeup);
        } else {
            assert forall|i: int| 0 <= i < actions.len() implies actions[i] != ReadyActionView::SendWakeup by {}
        }
    } else {
        assert forall|i: int| 0 <= i < actions.len() implies actions[i] != ReadyActionView::SendWakeup by {}
    }
}

/// Begins the start-up sequence once connected.
pub fn ready_begin() -> (r: (ReadyStage, Vec<ReadyAction>))
    ensures
        (r.0, actions_view(r.1@)) == ready_start(),
{
    let mut actions: Vec<ReadyAction> = Vec::new();
    actions.push(
        ReadyAction::Log(LogEntry { level: LogLevel::Info, message: "Bot Connected!".to_owned() }),
    );
    actions.push(ReadyAction::ReadClock);
    assert(actions_view(actions@) =~= ready_start().1);
    (ReadyStage::AwaitingClock, actions)
}

fn failure_then_commands(level: LogLevel, head: &str, why: &str) -> (r: Vec<ReadyAction>)
    ensures
        actions_view(r@) == seq![ReadyActionView::Log(level, head@ + why@), ReadyActionView::SetCommands],
{
    let mut actions: Vec<ReadyAction> = Vec::new();
    actions.push(ReadyAction::Log(entry_with_reason(level, head, why)));
    actions.push(ReadyAction::SetCommands);
    assert(actions_view(actions@) =~= seq![
        ReadyActionView::Log(level, head@ + why@),
        ReadyActionView::SetCommands,
    ]);
    actions
}

fn single(action: ReadyAction) -> (r: Vec<ReadyAction>)
    ensures
        actions_view(r@) == seq![action.view()],
{
    let mut actions: Vec<ReadyAction> = Vec::new();
    actions.push(action);
    assert(actions_view(actions@) =~= seq![action.view()]);
    actions
}

/// Takes one step of the start-up sequence on what the outside work gave back.
pub fn ready_step(stage: ReadyStage, event: ReadyEvent) -> (r: (ReadyStage, Vec<ReadyAction>))
    ensures
        (r.0, actions_view(r.1@)) == ready_transition(stage, event.view()),
{
    match (stage, event) {
        (ReadyStage::AwaitingClock, ReadyEvent::Clock(Ok(secs))) => (
            ReadyStage::AwaitingTimestamp,
            single(ReadyAction::MakeTimestamp(secs as i64)),
        ),
        (ReadyStage::AwaitingClock, ReadyEvent::Clock(Err(why))) => (
            ReadyStage::AwaitingCommands,
            failure_then_commands(
                LogLevel::Error,
                "Failed to get timestamp @`EventHandler::ready`:\n\t",
                why.as_str(),
            ),
        ),
        (ReadyStage::AwaitingTimestamp, ReadyEvent::Timestamp(Ok(()))) => (
            ReadyStage::AwaitingWakeup,
            single(ReadyAction::SendWakeup),
        ),
        (ReadyStage::AwaitingTimestamp, ReadyEvent::Timestamp(Err(why))) => (
            ReadyStage::AwaitingCommands,
            failure_then_commands(
                LogLevel::Error,
                "Failed to parse timestamp @`EventHandler::ready`:\n\t",
                why.as_str(),
            ),
        ),
        (ReadyStage::AwaitingWakeup, ReadyEvent::WakeupSent(Ok(()))) => (
            ReadyStage::AwaitingCommands,
            single(ReadyAction::SetCommands),
        ),
        (ReadyStage::AwaitingWakeup, ReadyEvent::WakeupSent(Err(why))) => (
            ReadyStage::AwaitingCommands,
            failure_then_commands(
                LogLevel::Error,
                "Failure to send wakeup message @`EventHandler::ready`:\n\t",
                why.as_str(),
            ),
        ),
        (ReadyStage::AwaitingCommands, ReadyEvent::CommandsSet(Ok(()))) => {
            let none: Vec<ReadyAction> = Vec::new();
            assert(actions_view(none@) =~= Seq::<ReadyActionView>::empty());
            (ReadyStage::Finished, none)
        },
        (ReadyStage::AwaitingCommands, ReadyEvent::CommandsSet(Err(why))) => (
            ReadyStage::Finished,
            single(
                ReadyAction::Log(
                    entry_with_reason(
                        LogLevel::Fatal,
                        "Failure to set global commands @`EventHandler::ready`:\n\t",
                        why.as_str(),
                    ),
                ),
            ),
        ),
        (other, _) => {
            let none: Vec<ReadyAction> = Vec::new();
            assert(actions_view(none@) =~= Seq::<ReadyActionView>::empty());
            (other, none)
        },
    }
}

// ---------------------------------------------------------------- failures elsewhere

/// The warning logged when a reply to a command could not be sent.
pub fn respond_failure_entry(why: &str) -> (r: LogEntry)
    ensures
        r.view() == (
            LogLevel::Warning,
            "Failure to respond to command @`EventHandler::interaction_create::Command`:\n\t"@ + why@,
        ),
{
    entry_with_reason(
        LogLevel::Warning,
        "Failure to respond to command @`EventHandler::interaction_create::Command`:\n\t",
        why,
    )
}

/// Why the bot could not start.
pub enum StartFailure {
    /// The bot token is not in the environment.
    MissingToken(String),
    /// The client could not be built.
    ClientBuild(String),
    /// The client could not be started.
    ClientStart(String),
}

pub open spec fn start_failure_reason(f: StartFailure) -> Seq<char> {
    match f {
        StartFailure::MissingToken(why) => "Failed to retrive bot token from enviroment @`main`:\n\t"@ + why@,
        StartFailure::ClientBuild(why) => "Failed to create client @`main`:\n\t"@ + why@,
        StartFailure::ClientStart(why) => "Failed to start client @`main`:\n\t"@ + why@,
    }
}

/// The line logged when the client stops: fatal with the reason of a failure,
/// or a note that it ran.
pub fn start_outcome_entry(outcome: Result<(), StartFailure>) -> (r: LogEntry)
    ensures
        r.view() == match outcome {
            Ok(()) => (LogLevel::Info, "Client started successfully"@),
            Err(f) => (LogLevel::Fatal, "Failed to start client @`main`:\n\t"@ + start_failure_reason(f)),
        },
{
    match outcome {
        Ok(()) => LogEntry { level: LogLevel::Info, message: "Client started successfully".to_owned() },
        Err(f) => {
            let reason = match &f {
                StartFailure::MissingToken(why) => entry_with_reason(
                    LogLevel::Fatal,
                    "Failed to retrive bot token from enviroment @`main`:\n\t",
                    why.as_str(),
                ),
                StartFailure::ClientBuild(why) => entry_with_reason(
                    LogLevel::Fatal,
                    "Failed to create client @`main`:\n\t",
                    why.as_str(),
                ),
                StartFailure::ClientStart(why) => entry_with_reason(
                    LogLevel::Fatal,
                    "Failed to start client @`main`:\n\t",
                    why.as_str(),
                ),
            };
            entry_with_reason(LogLevel::Fatal, "Failed to start client @`main`:\n\t", reason.message.as_str())
        },
    }
}

} // verus!
