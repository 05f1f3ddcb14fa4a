use tz_nickname::suffix::{measure_suffix, strip_suffix, with_suffix};

#[test]
fn suffix_is_measured_in_characters() {
    assert_eq!(measure_suffix("Ann (UTC+5)"), 8);
    assert_eq!(measure_suffix("Ann (UTC-12)"), 9);
    assert_eq!(measure_suffix("Ann (UTC+1:30)"), 11);
    assert_eq!(measure_suffix("Ann (UTC-09:45)"), 12);
    assert_eq!(measure_suffix("Ännchen 🌍 (UTC+5)"), 8);
    assert_eq!(measure_suffix(" (UTC+5)"), 8);
}

#[test]
fn what_is_no_suffix_measures_zero() {
    for name in [
        "",
        "Ann",
        "Ann (the great)",
        "Ann(UTC+5)",
        "Ann (UTC+5) ",
        "Ann (UTC+5",
        "Ann (utc+5)",
        "Ann (UTC5)",
        "Ann (UTC+13)",
        "Ann (UTC-0:60)",
        "Ann (UTC+13:00)",
        "Ann (UTC+05)",
        "Ann (UTC+1:3)",
        "Ann (UTC +5)",
        "Ann  (UTC+)",
        "Ann (UTC+5) x",
        "Ann [UTC+5]",
        "Ann (GMT+5)",
        "(UTC+5)",
        "UTC+5)",
    ] {
        assert_eq!(measure_suffix(name), 0, "{:?}", name);
    }
}

#[test]
fn stripping_takes_every_trailing_suffix() {
    assert_eq!(strip_suffix("Bob (UTC-11)"), "Bob");
    assert_eq!(strip_suffix("Bob (UTC+0)"), "Bob");
    assert_eq!(strip_suffix("Bob (UTC+12:59)"), "Bob");
    assert_eq!(strip_suffix("Bob (UTC+1) (UTC+2)"), "Bob");
    assert_eq!(strip_suffix("Bob (UTC+1:00) (UTC+2) (UTC-03:00)"), "Bob");
    assert_eq!(strip_suffix(" (UTC+5)"), "");
    assert_eq!(strip_suffix("Bøb ✨ (UTC+5)"), "Bøb ✨");
}

#[test]
fn stripping_leaves_everything_else() {
    for name in [
        "",
        "Bob",
        "Dana (the great)",
        "Bob (UTC+5) jr",
        "Bob (UTC+1) and (UTC+2) fan",
        "Bob (UTC+13)",
        "Bob(UTC+5)",
        "(UTC+5)",
    ] {
        assert_eq!(strip_suffix(name), name);
    }
    assert_eq!(strip_suffix("Bob (UTC+13) (UTC+1)"), "Bob (UTC+13)");
    assert_eq!(strip_suffix("Bob (UTC+1) x (UTC+2)"), "Bob (UTC+1) x");
}

#[test]
fn stripping_twice_is_stripping_once() {
    for name in ["Cy", "Cy (UTC+5)", "Cy (UTC+5) (UTC+6)", "Cy (UTC+5) c (UTC+05:00)"] {
        let once = strip_suffix(name);
        assert_eq!(strip_suffix(once), once);
        assert_eq!(measure_suffix(once), 0);
    }
}

#[test]
fn suffix_is_written_after_the_base() {
    assert_eq!(with_suffix("Di", "+5"), "Di (UTC+5)");
    assert_eq!(with_suffix("Di", "-09:45"), "Di (UTC-09:45)");
    assert_eq!(with_suffix("", "+0"), " (UTC+0)");
    assert_eq!(with_suffix("Dí (x)", "+1:30"), "Dí (x) (UTC+1:30)");
    assert_eq!(strip_suffix(&with_suffix("Di", "+5")), "Di");
}
