use tz_nickname::offset::{is_custom_offset, StandardOffset};

#[test]
fn standard_offsets_run_from_minus_twelve_to_plus_twelve() {
    let all = StandardOffset::all();
    assert_eq!(all.len(), 25);
    for (i, offset) in all.iter().enumerate() {
        assert_eq!(offset.hours() as i32, i as i32 - 12);
    }
}

#[test]
fn standard_offsets_are_written_and_read_back() {
    for offset in StandardOffset::all() {
        let text = offset.literal();
        assert_eq!(StandardOffset::parse(&text), Some(offset));
        assert_eq!(offset.label(), format!("UTC{}", text));
    }
    let written: Vec<String> = StandardOffset::all().iter().map(|o| o.literal()).collect();
    let expected = vec![
        "-12", "-11", "-10", "-9", "-8", "-7", "-6", "-5", "-4", "-3", "-2", "-1", "+0", "+1",
        "+2", "+3", "+4", "+5", "+6", "+7", "+8", "+9", "+10", "+11", "+12",
    ];
    assert_eq!(written, expected);
}

#[test]
fn standard_offset_is_made_within_twelve_hours_only() {
    assert_eq!(StandardOffset::new(12).map(|o| o.hours()), Some(12));
    assert_eq!(StandardOffset::new(-12).map(|o| o.hours()), Some(-12));
    assert_eq!(StandardOffset::new(0).map(|o| o.hours()), Some(0));
    assert_eq!(StandardOffset::new(13), None);
    assert_eq!(StandardOffset::new(-13), None);
    assert_eq!(StandardOffset::new(i8::MIN), None);
    assert_eq!(StandardOffset::new(i8::MAX), None);
}

#[test]
fn standard_offset_is_read_from_the_listed_texts_only() {
    assert_eq!(StandardOffset::parse("+5").map(|o| o.hours()), Some(5));
    assert_eq!(StandardOffset::parse("-11").map(|o| o.hours()), Some(-11));
    assert_eq!(StandardOffset::parse("+0").map(|o| o.hours()), Some(0));
    for text in [
        "", "+", "5", "-0", "+05", "+13", "-13", "+19", "+20", "+1:30", " +5", "+5 ", "UTC+5",
        "+a", "++", "+1٠", "＋5", "+111",
    ] {
        assert_eq!(StandardOffset::parse(text), None, "{:?}", text);
    }
}

#[test]
fn custom_offsets_follow_the_clock_form() {
    for text in [
        "+1:30", "-1:30", "+0:00", "+00:00", "-09:45", "+9:59", "+10:00", "+11:07", "+12:00",
        "+12:59", "-12:59", "+05:45",
    ] {
        assert!(is_custom_offset(text), "{:?}", text);
    }
    for text in [
        "", "garbage", "+13:30", "1:30", "+1:3", "+1:60", "+1:300", "+1-30", "+20:00", "+19:00",
        "+1:30 ", " +1:30", "+5", "+12", "+012:00", "+:30", "+1:", "*1:30", "+1:3a", "+a:30",
        "+1：30", "+１:30", "UTC+1:30", "+1:30)", "+12:5",
    ] {
        assert!(!is_custom_offset(text), "{:?}", text);
    }
}
