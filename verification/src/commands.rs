//! The slash commands the bot answers, and what it answers and logs for each.

use vstd::prelude::*;

use crate::chance::{random_flag, random_in_range};
use crate::dice::{parse_dice, parse_dice_spec, DiceParse};
use crate::logging::{entry_with_reason, LogEntry, LogLevel};
use crate::options::{get_option_value, lemma_lookup_is_first_match, lookup_option, CommandOption, OptionKind, OptionValue};
use crate::rolls::{
    reply_view, roll_dice, roll_header, roll_lines, roll_reply, roll_text, rolls_fit, shown_order, total,
    RollAbort,
};
use crate::text::{decimal, push_decimal, same_text};

verus! {

/// The answer to a command, and the line to log beside it, if any.
#[derive(Clone, Debug)]
pub struct CommandReply {
    pub content: String,
    pub log: Option<LogEntry>,
}

/// A reply seen as text: its content and its log entry.
pub type ReplyView = (Seq<char>, Option<(LogLevel, Seq<char>)>);

impl CommandReply {
    pub open spec fn view(self) -> ReplyView {
        (
            self.content@,
            match self.log {
                Some(e) => Some(e.view()),
                None => None,
            },
        )
    }
}

/// The reply of `handle_command` seen as text.
pub open spec fn command_view(r: Result<CommandReply, RollAbort>) -> Result<ReplyView, RollAbort> {
    match r {
        Ok(rep) => Ok(rep.view()),
        Err(e) => Err(e),
    }
}

/// The commands the bot knows, by name.
#[derive(Clone, Copy, Debug, PartialEq, Eq, Structural)]
pub enum Command {
    Greeting,
    Echo,
    Roll,
    CoinFlip,
    CatGif,
    SendToTerminal,
    Unknown,
}

pub open spec fn command_of(name: Seq<char>) -> Command {
    if name == "greeting"@ {
        Command::Greeting
    } else if name == "echo"@ {
        Command::Echo
    } else if name == "roll"@ {
        Command::Roll
    } else if name == "coin-flip"@ {
        Command::CoinFlip
    } else if name == "get-cat-gif"@ {
        Command::CatGif
    } else if name == "send-msg-to-terminal"@ {
        Command::SendToTerminal
    } else {
        Command::Unknown
    }
}

/// Which command `name` calls for.
pub fn command_named(name: &str) -> (r: Command)
    ensures
        r == command_of(name@),
{
    if same_text(name, "greeting") {
        Command::Greeting
    } else if same_text(name, "echo") {
        Command::Echo
    } else if same_text(name, "roll") {
        Command::Roll
    } else if same_text(name, "coin-flip") {
        Command::CoinFlip
    } else if same_text(name, "get-cat-gif") {
        Command::CatGif
    } else if same_text(name, "send-msg-to-terminal") {
        Command::SendToTerminal
    } else {
        Command::Unknown
    }
}

/// `<@user>`: a mention of the user who called the command.
pub open spec fn mention(user: u64) -> Seq<char> {
    "<@"@ + decimal(user as nat) + ">"@
}

// ---------------------------------------------------------------- echo

/// The text an `echo` command repeats, or why there is none.
pub open spec fn echo_text(options: Seq<CommandOption>) -> Result<Seq<char>, Seq<char>> {
    match lookup_option(options, "text"@, OptionKind::String) {
        None => Err("`echo` Command recived without option"@),
        Some(v) => match v.text_spec() {
            None => Err("Could not fetch option in `echo` command"@),
            Some(t) => Ok(t),
        },
    }
}

/// `echo` answers with its `text` option; without one, it answers and logs why.
pub open spec fn echo_spec(options: Seq<CommandOption>) -> ReplyView {
    match echo_text(options) {
        Ok(t) => (t, None),
        Err(why) => (why, Some((LogLevel::Warning, "Failed to send `echo` command:\n\t"@ + why))),
    }
}

/// `echo` answers with the text of its first string option `text`, whole and
/// unchanged, and logs nothing; `send-msg-to-terminal` logs that same text, whole,
/// after the sender's id, and confirms.
pub proof fn lemma_text_option_passed_whole(user: u64, options: Seq<CommandOption>, text: String)
    requires
        lookup_option(options, "text"@, OptionKind::String) == Some(OptionValue::String(text))
            || lookup_option(options, "text"@, OptionKind::String) == Some(
            OptionValue::Autocomplete { kind: OptionKind::String, value: text },
        ),
    ensures
        echo_spec(options) == (text@, None::<(LogLevel, Seq<char>)>),
        send_to_terminal_spec(user, options) == (
            "Message sent!"@,
            Some((LogLevel::Info, decimal(user as nat) + " sent message:\n\t"@ + text@)),
        ),
{
}

pub fn echo_reply(options: &[CommandOption]) -> (r: CommandReply)
    ensures
        r.view() == echo_spec(options@),
{
    let found = get_option_value(options, "text", OptionKind::String);
    let text: Result<String, &str> = match found {
        None => Err("`echo` Command recived without option"),
        Some(v) => match v.as_str() {
            None => Err("Could not fetch option in `echo` command"),
            Some(t) => Ok(t.to_owned()),
        },
    };
    match text {
        Ok(t) => CommandReply { content: t, log: None },
        Err(why) => CommandReply {
            content: why.to_owned(),
            log: Some(entry_with_reason(LogLevel::Warning, "Failed to send `echo` command:\n\t", why)),
        },
    }
}

// ---------------------------------------------------------------- send-msg-to-terminal

/// `send-msg-to-terminal` logs its `text` option with the sender and confirms;
/// without the option it logs a warning and answers `ERROR`.
pub open spec fn send_to_terminal_spec(user: u64, options: Seq<CommandOption>) -> ReplyView {
    match lookup_option(options, "text"@, OptionKind::String) {
        None => ("ERROR"@, Some((LogLevel::Warning, "`echo` command recived without text"@))),
        Some(v) => (
            "Message sent!"@,
            Some((LogLevel::Info, decimal(user as nat) + " sent message:\n\t"@ + v.text_spec()->0)),
        ),
    }
}

pub fn send_to_terminal_reply(user: u64, options: &[CommandOption]) -> (r: CommandReply)
    ensures
        r.view() == send_to_terminal_spec(user, options@),
{
    match get_option_value(options, "text", OptionKind::String) {
        None => CommandReply {
            content: "ERROR".to_owned(),
            log: Some(LogEntry {
                level: LogLevel::Warning,
                message: "`echo` command recived without text".to_owned(),
            }),
        },
        Some(v) => {
            proof { lemma_lookup_is_first_match(options@, "text"@, OptionKind::String); }
            let mut message = String::new();
            push_decimal(&mut message, user);
            message.append(" sent message:\n\t");
            match &v {
                OptionValue::String(t) => message.append(t.as_str()),
                OptionValue::Autocomplete { value, .. } => message.append(value.as_str()),
                _ => {
                    // a value of string kind always carries its text
                    assert(false);
                },
            }
            CommandReply {
                content: "Message sent!".to_owned(),
                log: Some(LogEntry { level: LogLevel::Info, message }),
            }
        },
    }
}

// ---------------------------------------------------------------- unknown commands

pub open spec fn unknown_command_text(name: Seq<char>) -> Seq<char> {
    "Command `"@ + name + "` called but not implemented"@
}

/// A command the bot does not know is answered, and logged, as not implemented.
pub fn unknown_command_reply(name: &str) -> (r: CommandReply)
    ensures
        r.view() == (unknown_command_text(name@), Some((LogLevel::Warning, unknown_command_text(name@)))),
{
    let mut text = String::new();
    text.append("Command `");
    text.append(name);
    text.append("` called but not implemented");
    let mut logged = String::new();
    logged.append("Command `");
    logged.append(name);
    logged.append("` called but not implemented");
    CommandReply { content: text, log: Some(LogEntry { level: LogLevel::Warning, message: logged }) }
}

// ---------------------------------------------------------------- roll

/// The `action` option of `roll`: what the roll is for.
pub open spec fn roll_action(options: Seq<CommandOption>) -> Option<Seq<char>> {
    match lookup_option(options, "action"@, OptionKind::String) {
        None => None,
        Some(v) => Some(
            match v.text_spec() {
                Some(t) => t,
                None => "This won't ever get returned, logically"@,
            },
        ),
    }
}

/// The `dice` option of `roll`, `d20` when it is not given.
pub open spec fn roll_dice_text(options: Seq<CommandOption>) -> Seq<char> {
    match lookup_option(options, "dice"@, OptionKind::String) {
        None => "d20"@,
        Some(v) => v.text_spec()->0,
    }
}

/// The `sum` option of `roll`, false when it is not given.
pub open spec fn roll_with_sum(options: Seq<CommandOption>) -> bool {
    match lookup_option(options, "sum"@, OptionKind::Boolean) {
        None => false,
        Some(v) => match v.flag_spec() {
            None => false,
            Some(b) => b,
        },
    }
}

pub const INVALID_DICE_TEXT: &'static str = "Invalid dice supplied, example of valid dice: 2d20, d7, 14d28";

/// The answer to `roll` when the dice drawn are `rolls`.
pub open spec fn roll_outcome(user: u64, options: Seq<CommandOption>, rolls: Seq<u32>) -> Result<Seq<char>, RollAbort> {
    match parse_dice_spec(roll_dice_text(options)) {
        DiceParse::Invalid => Ok(INVALID_DICE_TEXT@),
        DiceParse::SidesTooLarge => Err(RollAbort::SidesTooLarge),
        DiceParse::CountTooLarge => Err(RollAbort::CountTooLarge),
        DiceParse::Roll { count, sides } => if count > 0 && sides == 0 {
            Err(RollAbort::EmptyRange)
        } else {
            roll_text(user, roll_action(options), sides, rolls, roll_with_sum(options))
        },
    }
}

/// The dice drawn for `roll`: as many as asked for, each between 1 and the sides;
/// none when the notation asks for no roll.
pub open spec fn roll_draws_fit(options: Seq<CommandOption>, rolls: Seq<u32>) -> bool {
    match parse_dice_spec(roll_dice_text(options)) {
        DiceParse::Roll { count, sides } => if count > 0 && sides == 0 {
            rolls.len() == 0
        } else {
            rolls_fit(rolls, count, sides)
        },
        _ => rolls.len() == 0,
    }
}

/// The first boolean `sum` option decides the sum line: with `false` (or no such
/// option) the roll message is the header and the roll lines and nothing more; with
/// `true` it ends with `\nSum: ` and the sum of the rolls, or aborts when that sum
/// does not fit in a `u32`.
pub proof fn lemma_roll_sum_follows_flag(user: u64, options: Seq<CommandOption>, rolls: Seq<u32>, count: u32, sides: u32)
    requires
        parse_dice_spec(roll_dice_text(options)) == (DiceParse::Roll { count, sides }),
        !(count > 0 && sides == 0),
    ensures
        ({
            let plain = roll_header(user, roll_action(options)) + roll_lines(shown_order(rolls), sides);
            &&& (lookup_option(options, "sum"@, OptionKind::Boolean) == Some(OptionValue::Boolean(false))
                || lookup_option(options, "sum"@, OptionKind::Boolean) is None)
                ==> roll_outcome(user, options, rolls) == Ok::<Seq<char>, RollAbort>(plain)
            &&& (lookup_option(options, "sum"@, OptionKind::Boolean) == Some(OptionValue::Boolean(true))
                && total(rolls) <= u32::MAX)
                ==> roll_outcome(user, options, rolls) == Ok::<Seq<char>, RollAbort>(
                    plain + "\nSum: "@ + decimal(total(rolls)),
                )
            &&& (lookup_option(options, "sum"@, OptionKind::Boolean) == Some(OptionValue::Boolean(true))
                && total(rolls) > u32::MAX)
                ==> roll_outcome(user, options, rolls) == Err::<Seq<char>, RollAbort>(RollAbort::SumOverflow)
        }),
{
}

/// The options of `roll`, read.
struct RollRequest {
    action: Option<String>,
    dice: String,
    with_sum: bool,
}

fn read_roll_options(options: &[CommandOption]) -> (r: RollRequest)
    ensures
        r.dice@ == roll_dice_text(options@),
        r.with_sum == roll_with_sum(options@),
        match r.action {
            Some(a) => roll_action(options@) == Some(a@),
            None => roll_action(options@) is None,
        },
{
    let action = match get_option_value(options, "action", OptionKind::String) {
        None => None,
        Some(v) => match v.as_str() {
            Some(t) => Some(t.to_owned()),
            None => Some("This won't ever get returned, logically".to_owned()),
        },
    };
    proof { lemma_lookup_is_first_match(options@, "dice"@, OptionKind::String); }
    let dice = match get_option_value(options, "dice", OptionKind::String) {
        None => "d20".to_owned(),
        Some(v) => match &v {
            OptionValue::String(t) => t.clone(),
            OptionValue::Autocomplete { value, .. } => value.clone(),
            _ => {
                // a value of string kind always carries its text
                assert(false);
                "d20".to_owned()
            },
        },
    };
    let with_sum = match get_option_value(options, "sum", OptionKind::Boolean) {
        None => false,
        Some(v) => match v.as_bool() {
            None => false,
            Some(b) => b,
        },
    };
    RollRequest { action, dice, with_sum }
}

/// The answer to `roll` from `user` with `options`, when the dice drawn are `rolls`.
pub fn roll_with(user: u64, options: &[CommandOption], rolls: Vec<u32>) -> (r: Result<String, RollAbort>)
    ensures
        reply_view(r) == roll_outcome(user, options@, rolls@),
{
    let request = read_roll_options(options);
    match parse_dice(request.dice.as_str()) {
        DiceParse::Invalid => Ok(INVALID_DICE_TEXT.to_owned()),
        DiceParse::SidesTooLarge => Err(RollAbort::SidesTooLarge),
        DiceParse::CountTooLarge => Err(RollAbort::CountTooLarge),
        DiceParse::Roll { count, sides } => {
            if count > 0 && sides == 0 {
                Err(RollAbort::EmptyRange)
            } else {
                let action = match &request.action {
                    Some(a) => Some(a.as_str()),
                    None => None,
                };
                roll_reply(user, action, sides, rolls, request.with_sum)
            }
        },
    }
}

/// Answers `roll`: reads the dice notation, draws the dice and writes them out.
pub fn roll_command(user: u64, options: &[CommandOption]) -> (r: Result<String, RollAbort>)
    ensures
        exists|rolls: Seq<u32>|
            roll_draws_fit(options@, rolls) && reply_view(r) == roll_outcome(user, options@, rolls),
{
    let request = read_roll_options(options);
    let rolls = match parse_dice(request.dice.as_str()) {
        DiceParse::Roll { count, sides } => if count > 0 && sides == 0 {
            Vec::new()
        } else {
            roll_dice(count, sides)
        },
        _ => Vec::new(),
    };
    let ghost drawn = rolls@;
    let r = roll_with(user, options, rolls);
    assert(roll_draws_fit(options@, drawn));
    r
}

// ---------------------------------------------------------------- coin-flip

/// The coin lands on its side when the draw from 1 to 10000 is 1; else heads or tails.
pub open spec fn coin_text(user: u64, heads: bool, side_draw: u32) -> Seq<char> {
    mention(user) + " is flipping a coin:\n\t\t"@ + if side_draw == 1 {
        "It landed on it's side!"@
    } else if heads {
        "Heads"@
    } else {
        "Tails"@
    }
}

/// The coin lands on its side exactly when the side draw is 1; for every other draw
/// it shows `Heads` when the flag is set and `Tails` when it is not, so the flag
/// changes the answer on every draw but 1.
pub proof fn lemma_coin_edge_only_on_one(user: u64, heads: bool, side_draw: u32)
    ensures
        side_draw == 1 ==> coin_text(user, heads, side_draw) == "<@"@ + decimal(user as nat)
            + "> is flipping a coin:\n\t\t"@ + "It landed on it's side!"@,
        side_draw != 1 && heads ==> coin_text(user, heads, side_draw) == "<@"@ + decimal(user as nat)
            + "> is flipping a coin:\n\t\t"@ + "Heads"@,
        side_draw != 1 && !heads ==> coin_text(user, heads, side_draw) == "<@"@ + decimal(user as nat)
            + "> is flipping a coin:\n\t\t"@ + "Tails"@,
        side_draw == 1 <==> coin_text(user, true, side_draw) == coin_text(user, false, side_draw),
{
    reveal_strlit("Heads");
    reveal_strlit("Tails");
    let p = "<@"@ + decimal(user as nat) + ">"@ + " is flipping a coin:\n\t\t"@;
    assert("<@"@ + decimal(user as nat) + "> is flipping a coin:\n\t\t"@ =~= p) by {
        reveal_strlit(">");
        reveal_strlit(" is flipping a coin:\n\t\t");
        reveal_strlit("> is flipping a coin:\n\t\t");
    }
    if side_draw != 1 {
        let a = p + "Heads"@;
        let b = p + "Tails"@;
        assert(a[p.len() as int] == 'H');
        assert(b[p.len() as int] == 'T');
        assert(coin_text(user, true, side_draw) == a);
        assert(coin_text(user, false, side_draw) == b);
    }
}

/// The answer to `coin-flip` for the draws `heads` and `side_draw`.
pub fn coin_flip_reply(user: u64, heads: bool, side_draw: u32) -> (r: String)
    ensures
        r@ == coin_text(user, heads, side_draw),
{
    let mut out = String::new();
    out.append("<@");
    push_decimal(&mut out, user);
    out.append(">");
    out.append(" is flipping a coin:\n\t\t");
    if side_draw == 1 {
        out.append("It landed on it's side!");
    } else if heads {
        out.append("Heads");
    } else {
        out.append("Tails");
    }
    out
}

/// Answers `coin-flip`: draws a side of the coin and one chance in 10000 of its edge.
pub fn flip_coin(user: u64) -> (r: String)
    ensures
        exists|heads: bool, side_draw: u32|
            1 <= side_draw <= 10000 && r@ == coin_text(user, heads, side_draw),
{
    let heads = random_flag();
    let side_draw = random_in_range(1, 10000);
    coin_flip_reply(user, heads, side_draw)
}

// ---------------------------------------------------------------- get-cat-gif

pub open spec fn cat_gif_urls() -> Seq<Seq<char>> {
    seq![
        "https://tenor.com/view/cats-cat-cute-cat-cat-kissing-cat-hugging-gif-15786228053719683335"@,
        "https://tenor.com/view/cat-blast-off-launch-cat-jumping-into-camera-gif-6639037559618288527"@,
        "https://cdn.discordapp.com/attachments/1190927778141446225/1276520800949768223/cat-explode-cat-explosion.gif?ex=66c9d423&is=66c882a3&hm=f8ed2d48ccf0152a3e58b841b5eb5b66b4143e0c04036a8b3aa14b624e762206&"@,
        "https://tenor.com/view/loading-screen-cat-gif-18391018"@,
        "https://tenor.com/view/stand-cat-gif-9415145969837473423"@,
        "https://tenor.com/view/cat-22-cat-22-gif-1269004317513322794"@,
        "https://tenor.com/view/water-cat-cat-cat-bath-gif-8375496536506751533"@,
        "https://tenor.com/view/santoso-huggie-gif-26020769"@,
        "https://tenor.com/view/happy-cat-gif-10369477809722850145"@,
        "https://cdn.discordapp.com/attachments/1190927778141446225/1276550190639353899/69872BF1-995F-44AE-9DB3-52122178432B.mp4?ex=66c9ef82&is=66c89e02&hm=0095170638b8313c00b0f15f3387839fdbdba85942ecdc2fed0cba6ee687eaca&"@,
        "https://cdn.discordapp.com/attachments/1186768643984470159/1264032157312225371/image0.gif?ex=66c9e0ee&is=66c88f6e&hm=d2c05840652dd87b4778fdf96321e0f4528765f420ae5aaf33b35aeca295a463&"@,
        "https://tenor.com/view/stillesque-gif-25542034"@,
        "https://tenor.com/view/bleh-cat-silly-cat-cat-sticking-tongue-out-gif-12332973546502369976"@,
        "https://tenor.com/view/cat-run-he-coming-scary-gif-19282747"@,
        "https://tenor.com/view/cat-flabbergasted-shocked-wink-reaction-gif-25698054"@,
        "https://tenor.com/view/flabbergasted-cat-flabbergasted-gif-540770107490810074"@,
        "https://tenor.com/view/cta-cat-cat-swimming-yeah-nyxn-gif-22803107"@,
        "https://tenor.com/view/cat-keyboard-ginger-cat-gif-27129143"@,
        "https://tenor.com/view/cat-hello-cat-peek-cat-door-cat-peek-door-gif-17361470248875227911"@
    ]
}

/// The number of cat GIFs to pick from.
pub const CAT_GIF_COUNT: u32 = 19;

/// The URL of the cat GIF at `index`.
pub fn cat_gif_url(index: u32) -> (r: &'static str)
    requires
        index < CAT_GIF_COUNT,
    ensures
        r@ == cat_gif_urls()[index as int],
{
    if index == 0 {
        "https://tenor.com/view/cats-cat-cute-cat-cat-kissing-cat-hugging-gif-15786228053719683335"
    } else if index == 1 {
        "https://tenor.com/view/cat-blast-off-launch-cat-jumping-into-camera-gif-6639037559618288527"
    } else if index == 2 {
        "https://cdn.discordapp.com/attachments/1190927778141446225/1276520800949768223/cat-explode-cat-explosion.gif?ex=66c9d423&is=66c882a3&hm=f8ed2d48ccf0152a3e58b841b5eb5b66b4143e0c04036a8b3aa14b624e762206&"
    } else if index == 3 {
        "https://tenor.com/view/loading-screen-cat-gif-18391018"
    } else if index == 4 {
        "https://tenor.com/view/stand-cat-gif-9415145969837473423"
    } else if index == 5 {
        "https://tenor.com/view/cat-22-cat-22-gif-1269004317513322794"
    } else if index == 6 {
        "https://tenor.com/view/water-cat-cat-cat-bath-gif-8375496536506751533"
    } else if index == 7 {
        "https://tenor.com/view/santoso-huggie-gif-26020769"
    } else if index == 8 {
        "https://tenor.com/view/happy-cat-gif-10369477809722850145"
    } else if index == 9 {
        "https://cdn.discordapp.com/attachments/1190927778141446225/1276550190639353899/69872BF1-995F-44AE-9DB3-52122178432B.mp4?ex=66c9ef82&is=66c89e02&hm=0095170638b8313c00b0f15f3387839fdbdba85942ecdc2fed0cba6ee687eaca&"
    } else if index == 10 {
        "https://cdn.discordapp.com/attachments/1186768643984470159/1264032157312225371/image0.gif?ex=66c9e0ee&is=66c88f6e&hm=d2c05840652dd87b4778fdf96321e0f4528765f420ae5aaf33b35aeca295a463&"
    } else if index == 11 {
        "https://tenor.com/view/stillesque-gif-25542034"
    } else if index == 12 {
        "https://tenor.com/view/bleh-cat-silly-cat-cat-sticking-tongue-out-gif-12332973546502369976"
    } else if index == 13 {
        "https://tenor.com/view/cat-run-he-coming-scary-gif-19282747"
    } else if index == 14 {
        "https://tenor.com/view/cat-flabbergasted-shocked-wink-reaction-gif-25698054"
    } else if index == 15 {
        "https://tenor.com/view/flabbergasted-cat-flabbergasted-gif-540770107490810074"
    } else if index == 16 {
        "https://tenor.com/view/cta-cat-cat-swimming-yeah-nyxn-gif-22803107"
    } else if index == 17 {
        "https://tenor.com/view/cat-keyboard-ginger-cat-gif-27129143"
    } else {
        "https://tenor.com/view/cat-hello-cat-peek-cat-door-cat-peek-door-gif-17361470248875227911"
    }
}

/// The answer to `get-cat-gif` when the GIF drawn is the one at `index`.
pub fn cat_gif_reply(user: u64, index: u32) -> (r: String)
    requires
        index < CAT_GIF_COUNT,
    ensures
        r@ == mention(user) + "\n"@ + cat_gif_urls()[index as int],
{
    let mut out = String::new();
    out.append("<@");
    push_decimal(&mut out, user);
    out.append(">");
    out.append("\n");
    out.append(cat_gif_url(index));
    out
}

/// Answers `get-cat-gif` with one of the cat GIFs, drawn at random.
pub fn pick_cat_gif(user: u64) -> (r: String)
    ensures
        exists|index: int|
            0 <= index < CAT_GIF_COUNT && r@ == mention(user) + "\n"@ + cat_gif_urls()[index],
{
    let index = random_in_range(0, CAT_GIF_COUNT - 1);
    cat_gif_reply(user, index)
}

// ---------------------------------------------------------------- dispatch

/// Answers the command `name` called by `user` with `options`. Commands that draw
/// at random are answered as some draw within their ranges would answer them; the
/// roll command gives a `RollAbort` where the bot gives up with a panic.
pub fn handle_command(name: &str, user: u64, options: &[CommandOption]) -> (r: Result<CommandReply, RollAbort>)
    ensures
        command_of(name@) == Command::Greeting ==> command_view(r) == Ok::<ReplyView, RollAbort>(
            ("Hello World!"@, None),
        ),
        command_of(name@) == Command::Echo ==> command_view(r) == Ok::<ReplyView, RollAbort>(
            echo_spec(options@),
        ),
        command_of(name@) == Command::Roll ==> exists|rolls: Seq<u32>|
            roll_draws_fit(options@, rolls) && command_view(r) == match roll_outcome(user, options@, rolls) {
                Ok(t) => Ok::<ReplyView, RollAbort>((t, None)),
                Err(e) => Err(e),
            },
        command_of(name@) == Command::CoinFlip ==> exists|heads: bool, side_draw: u32|
            1 <= side_draw <= 10000 && command_view(r) == Ok::<ReplyView, RollAbort>(
                (coin_text(user, heads, side_draw), None),
            ),
        command_of(name@) == Command::CatGif ==> exists|index: int|
            0 <= index < CAT_GIF_COUNT && command_view(r) == Ok::<ReplyView, RollAbort>(
                (mention(user) + "\n"@ + cat_gif_urls()[index], None),
            ),
        command_of(name@) == Command::SendToTerminal ==> command_view(r) == Ok::<ReplyView, RollAbort>(
            send_to_terminal_spec(user, options@),
        ),
        command_of(name@) == Command::Unknown ==> command_view(r) == Ok::<ReplyView, RollAbort>(
            (unknown_command_text(name@), Some((LogLevel::Warning, unknown_command_text(name@)))),
        ),
{
    match command_named(name) {
        Command::Greeting => Ok(CommandReply { content: "Hello World!".to_owned(), log: None }),
        Command::Echo => Ok(echo_reply(options)),
        Command::Roll => match roll_command(user, options) {
            Ok(t) => Ok(CommandReply { content: t, log: None }),
            Err(e) => Err(e),
        },
        Command::CoinFlip => Ok(CommandReply { content: flip_coin(user), log: None }),
        Command::CatGif => Ok(CommandReply { content: pick_cat_gif(user), log: None }),
        Command::SendToTerminal => Ok(send_to_terminal_reply(user, options)),
        Command::Unknown => Ok(unknown_command_reply(name)),
    }
}

} // verus!
