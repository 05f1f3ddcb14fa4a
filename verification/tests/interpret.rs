use tz_nickname::offset::StandardOffset;
use tz_nickname::operation::{
    interpret, InterpretError, TimezoneOperation, CLEAR_COMMAND, CUSTOM_COMMAND, TZ_COMMAND,
};
use tz_nickname::text::same_text;

fn values(texts: &[&str]) -> Vec<String> {
    texts.iter().map(|t| t.to_string()).collect()
}

#[test]
fn commands_are_called_tz_custom_and_clear() {
    assert_eq!(TZ_COMMAND, "tz");
    assert_eq!(CUSTOM_COMMAND, "custom");
    assert_eq!(CLEAR_COMMAND, "clear");
}

#[test]
fn tz_reads_each_listed_offset() {
    for offset in StandardOffset::all() {
        assert_eq!(
            interpret("tz", &[offset.literal()]),
            Ok(TimezoneOperation::SetStandard(offset))
        );
    }
    assert_eq!(
        interpret("tz", &values(&["+5"])),
        Ok(TimezoneOperation::SetStandard(StandardOffset::new(5).unwrap()))
    );
}

#[test]
fn tz_refuses_an_unlisted_offset() {
    for text in ["+13", "-0", "5", "+1:30", "", "UTC+5", "garbage"] {
        assert_eq!(interpret("tz", &values(&[text])), Err(InterpretError::UnlistedOffset));
    }
}

#[test]
fn tz_and_custom_take_exactly_one_value() {
    assert_eq!(interpret("tz", &[]), Err(InterpretError::OptionCount));
    assert_eq!(interpret("tz", &values(&["+5", "+6"])), Err(InterpretError::OptionCount));
    assert_eq!(interpret("custom", &[]), Err(InterpretError::OptionCount));
    assert_eq!(
        interpret("custom", &values(&["+1:30", "+2:30"])),
        Err(InterpretError::OptionCount)
    );
}

#[test]
fn custom_takes_any_text_as_it_is() {
    for text in ["+1:30", "garbage", "", " +1:30 ", "+5"] {
        assert_eq!(
            interpret("custom", &values(&[text])),
            Ok(TimezoneOperation::SetCustom(text.to_string()))
        );
    }
}

#[test]
fn clear_needs_no_value() {
    assert_eq!(interpret("clear", &[]), Ok(TimezoneOperation::Clear));
    assert_eq!(interpret("clear", &values(&["+5"])), Ok(TimezoneOperation::Clear));
}

#[test]
fn other_commands_are_unknown() {
    for name in ["", "TZ", "tz ", "clears", "Clear", "customs", "help", "t"] {
        assert_eq!(interpret(name, &[]), Err(InterpretError::UnknownCommand));
        assert_eq!(interpret(name, &values(&["+5"])), Err(InterpretError::UnknownCommand));
    }
}

#[test]
fn texts_are_the_same_character_by_character() {
    assert!(same_text("", ""));
    assert!(same_text("tz", "tz"));
    assert!(same_text("Zoë (UTC+1)", "Zoë (UTC+1)"));
    assert!(!same_text("tz", "tz "));
    assert!(!same_text("tz", "tZ"));
    assert!(!same_text("tz", ""));
    assert!(!same_text("Zoe", "Zoë"));
}
