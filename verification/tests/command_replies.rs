use admiral::commands::{
    cat_gif_reply, cat_gif_url, coin_flip_reply, command_named, flip_coin, handle_command,
    pick_cat_gif, roll_with, Command, CAT_GIF_COUNT, INVALID_DICE_TEXT,
};
use admiral::logging::LogLevel;
use admiral::options::{CommandOption, OptionValue};
use admiral::rolls::RollAbort;

fn text(name: &str, value: &str) -> CommandOption {
    CommandOption { name: name.to_string(), value: OptionValue::String(value.to_string()) }
}

fn flag(name: &str, value: bool) -> CommandOption {
    CommandOption { name: name.to_string(), value: OptionValue::Boolean(value) }
}

#[test]
fn greeting() {
    let r = handle_command("greeting", 1, &[]).unwrap();
    assert_eq!(r.content, "Hello World!");
    assert!(r.log.is_none());
}

#[test]
fn echo_repeats_its_text() {
    let r = handle_command("echo", 1, &[text("text", "ahoy")]).unwrap();
    assert_eq!(r.content, "ahoy");
    assert!(r.log.is_none());
}

#[test]
fn echo_without_text_says_why() {
    let r = handle_command("echo", 1, &[flag("text", true)]).unwrap();
    assert_eq!(r.content, "`echo` Command recived without option");
    let log = r.log.unwrap();
    assert_eq!(log.level, LogLevel::Warning);
    assert_eq!(log.message, "Failed to send `echo` command:\n\t`echo` Command recived without option");
}

#[test]
fn roll_with_one_sided_dice() {
    let r = handle_command("roll", 7, &[text("dice", "3d1")]).unwrap();
    assert_eq!(r.content, "<@7> is rolling:\n\t\t1 out of 1\n\t\t1 out of 1\n\t\t1 out of 1\n");
    let r = handle_command("roll", 7, &[text("dice", "3d1"), flag("sum", true), text("action", "luck")])
        .unwrap();
    assert_eq!(
        r.content,
        "<@7> is rolling for luck:\n\t\t1 out of 1\n\t\t1 out of 1\n\t\t1 out of 1\n\nSum: 3"
    );
}

#[test]
fn roll_defaults_to_one_d20() {
    let r = handle_command("roll", 3, &[]).unwrap();
    let body = r.content.strip_prefix("<@3> is rolling:\n\t\t").unwrap();
    let value: u32 = body.strip_suffix(" out of 20\n").unwrap().parse().unwrap();
    assert!((1..=20).contains(&value));
}

#[test]
fn roll_with_invalid_dice() {
    let r = handle_command("roll", 3, &[text("dice", "lots")]).unwrap();
    assert_eq!(r.content, INVALID_DICE_TEXT);
    assert_eq!(INVALID_DICE_TEXT, "Invalid dice supplied, example of valid dice: 2d20, d7, 14d28");
}

#[test]
fn roll_aborts_where_the_bot_aborts() {
    assert!(matches!(handle_command("roll", 3, &[text("dice", "d0")]), Err(RollAbort::EmptyRange)));
    assert!(matches!(
        handle_command("roll", 3, &[text("dice", "d99999999999")]),
        Err(RollAbort::SidesTooLarge)
    ));
    assert!(matches!(
        handle_command("roll", 3, &[text("dice", "3000000000d6")]),
        Err(RollAbort::CountTooLarge)
    ));
    let r = handle_command("roll", 3, &[text("dice", "0d0"), flag("sum", true)]).unwrap();
    assert_eq!(r.content, "<@3> is rolling:\n\nSum: 0");
}

#[test]
fn roll_with_given_draws() {
    let options = [text("dice", "4d10"), flag("sum", true)];
    let r = roll_with(11, &options, vec![2, 10, 7, 2]).unwrap();
    assert_eq!(
        r,
        "<@11> is rolling:\n\t\t10 out of 10\n\t\t7 out of 10\n\t\t2 out of 10\n\t\t2 out of 10\n\nSum: 21"
    );
    let big = [text("dice", "2d4294967295"), flag("sum", true)];
    assert_eq!(roll_with(11, &big, vec![4294967295, 4294967295]), Err(RollAbort::SumOverflow));
}

#[test]
fn coin_flip_texts() {
    assert_eq!(coin_flip_reply(5, true, 1), "<@5> is flipping a coin:\n\t\tIt landed on it's side!");
    assert_eq!(coin_flip_reply(5, true, 2), "<@5> is flipping a coin:\n\t\tHeads");
    assert_eq!(coin_flip_reply(5, false, 10000), "<@5> is flipping a coin:\n\t\tTails");
    let r = flip_coin(5);
    assert!(r.starts_with("<@5> is flipping a coin:\n\t\t"));
    let r = handle_command("coin-flip", 5, &[]).unwrap();
    let end = r.content.strip_prefix("<@5> is flipping a coin:\n\t\t").unwrap();
    assert!(["Heads", "Tails", "It landed on it's side!"].contains(&end));
}

#[test]
fn cat_gifs() {
    assert_eq!(
        cat_gif_reply(9, 0),
        "<@9>\nhttps://tenor.com/view/cats-cat-cute-cat-cat-kissing-cat-hugging-gif-15786228053719683335"
    );
    assert_eq!(
        cat_gif_url(CAT_GIF_COUNT - 1),
        "https://tenor.com/view/cat-hello-cat-peek-cat-door-cat-peek-door-gif-17361470248875227911"
    );
    let urls: Vec<&str> = (0..CAT_GIF_COUNT).map(cat_gif_url).collect();
    let r = pick_cat_gif(9);
    let url = r.strip_prefix("<@9>\n").unwrap();
    assert!(urls.contains(&url));
    let r = handle_command("get-cat-gif", 9, &[]).unwrap();
    assert!(urls.contains(&r.content.strip_prefix("<@9>\n").unwrap()));
}

#[test]
fn send_to_terminal() {
    let r = handle_command("send-msg-to-terminal", 77, &[text("text", "hello there")]).unwrap();
    assert_eq!(r.content, "Message sent!");
    let log = r.log.unwrap();
    assert_eq!(log.level, LogLevel::Info);
    assert_eq!(log.message, "77 sent message:\n\thello there");
    let r = handle_command("send-msg-to-terminal", 77, &[]).unwrap();
    assert_eq!(r.content, "ERROR");
    let log = r.log.unwrap();
    assert_eq!(log.level, LogLevel::Warning);
    assert_eq!(log.message, "`echo` command recived without text");
}

#[test]
fn unknown_commands() {
    let r = handle_command("not-implemented", 1, &[]).unwrap();
    assert_eq!(r.content, "Command `not-implemented` called but not implemented");
    let log = r.log.unwrap();
    assert_eq!(log.level, LogLevel::Warning);
    assert_eq!(log.message, "Command `not-implemented` called but not implemented");
}

#[test]
fn command_names() {
    assert_eq!(command_named("greeting"), Command::Greeting);
    assert_eq!(command_named("echo"), Command::Echo);
    assert_eq!(command_named("roll"), Command::Roll);
    assert_eq!(command_named("coin-flip"), Command::CoinFlip);
    assert_eq!(command_named("get-cat-gif"), Command::CatGif);
    assert_eq!(command_named("send-msg-to-terminal"), Command::SendToTerminal);
    assert_eq!(command_named("Roll"), Command::Unknown);
}
