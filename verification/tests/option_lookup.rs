use admiral::options::{get_option_value, CommandOption, OptionKind, OptionValue, OtherKind};

fn text(name: &str, value: &str) -> CommandOption {
    CommandOption { name: name.to_string(), value: OptionValue::String(value.to_string()) }
}

#[test]
fn first_match_by_name_and_kind() {
    let options = vec![
        CommandOption { name: "text".to_string(), value: OptionValue::Boolean(true) },
        text("other", "no"),
        text("text", "first"),
        text("text", "second"),
    ];
    match get_option_value(&options, "text", OptionKind::String) {
        Some(OptionValue::String(s)) => assert_eq!(s, "first"),
        _ => panic!("expected the first string option"),
    }
    match get_option_value(&options, "text", OptionKind::Boolean) {
        Some(OptionValue::Boolean(b)) => assert!(b),
        _ => panic!("expected the boolean option"),
    }
    assert!(get_option_value(&options, "missing", OptionKind::String).is_none());
    assert!(get_option_value(&options, "other", OptionKind::Integer).is_none());
    assert!(get_option_value(&[], "text", OptionKind::String).is_none());
}

#[test]
fn kinds_and_payloads() {
    let completion = OptionValue::Autocomplete { kind: OptionKind::String, value: "3d6".to_string() };
    assert_eq!(completion.kind(), OptionKind::String);
    assert_eq!(completion.as_str(), Some("3d6"));
    assert_eq!(completion.as_bool(), None);
    let other = OptionValue::Other(OtherKind::Unknown(42));
    assert_eq!(other.kind(), OptionKind::Unknown(42));
    assert_eq!(other.as_str(), None);
    assert_eq!(OptionValue::Other(OtherKind::Number).kind(), OptionKind::Number);
    assert_eq!(OptionValue::Boolean(false).as_bool(), Some(false));
}
