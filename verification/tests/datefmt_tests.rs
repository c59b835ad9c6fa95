use espanso_manager::datefmt::{needs_locale, Now};
use espanso_manager::i18n::Lang;

/// 2026-09-05, a Saturday. The hour is what each test varies.
fn at(hour: u16) -> Now {
    Now {
        year: 2026,
        month: 9,
        day: 5,
        hour,
        minute: 20,
        second: 0,
        day_of_week: 6,
    }
}

#[test]
fn the_meridiem_is_the_one_espanso_will_print() {
    assert_eq!(espanso_manager::datefmt::format("%p", at(15), Lang::En), "PM");
    assert_eq!(espanso_manager::datefmt::format("%p", at(15), Lang::Fil), "N.H.");
    assert_eq!(espanso_manager::datefmt::format("%p", at(15), Lang::Hi), "अपराह्न");
    assert_eq!(espanso_manager::datefmt::format("%p", at(9), Lang::En), "AM");
    assert_eq!(espanso_manager::datefmt::format("%p", at(9), Lang::Fil), "N.U.");
    assert_eq!(espanso_manager::datefmt::format("%p", at(9), Lang::Hi), "पूर्वाह्न");
}

#[test]
fn spanish_has_no_meridiem_at_all() {
    assert_eq!(espanso_manager::datefmt::format("%I:%M %p", at(15), Lang::Es), "03:20 ");
    assert_eq!(espanso_manager::datefmt::format("%p", at(9), Lang::Es), "");
}

#[test]
fn the_lowercase_form_lowercases_the_language_own_word() {
    assert_eq!(espanso_manager::datefmt::format("%P", at(15), Lang::En), "pm");
    assert_eq!(espanso_manager::datefmt::format("%P", at(15), Lang::Fil), "n.h.");
    assert_eq!(espanso_manager::datefmt::format("%P", at(15), Lang::Hi), "अपराह्न");
}

#[test]
fn noon_and_midnight_fall_on_the_right_side() {
    assert_eq!(espanso_manager::datefmt::format("%p", at(12), Lang::En), "PM");
    assert_eq!(espanso_manager::datefmt::format("%p", at(0), Lang::En), "AM");
    assert_eq!(espanso_manager::datefmt::format("%I", at(12), Lang::En), "12");
    assert_eq!(espanso_manager::datefmt::format("%I", at(0), Lang::En), "12");
}

#[test]
fn a_meridiem_still_asks_for_a_locale() {
    assert!(needs_locale("%I:%M %p"));
    assert!(needs_locale("%P"));
}

#[test]
fn the_composites_ask_for_a_locale_too() {
    for fmt in ["%c", "%v", "%r", "%x", "%X"] {
        assert!(needs_locale(fmt), "{fmt} should need a locale");
    }
}

#[test]
fn a_purely_numeric_format_still_asks_for_none() {
    for fmt in ["%Y-%m-%d", "%d/%m/%Y %H:%M", "%F %T", "%H:%M:%S", "%y%j"] {
        assert!(!needs_locale(fmt), "{fmt} should not need a locale");
    }
}

#[test]
fn a_doubled_percent_is_a_literal_and_hides_nothing() {
    assert!(!needs_locale("%%B"));
    assert!(!needs_locale("100%% %H:%M"));
    assert!(needs_locale("%%%B"));
}

#[test]
fn a_padding_flag_does_not_hide_the_letter_behind_it() {
    assert!(needs_locale("%-d %B %Y"));
    assert!(needs_locale("%_A"));
    assert!(!needs_locale("%-d/%-m/%Y"));
}

#[test]
fn an_unknown_or_unfinished_code_is_copied_exactly_as_written() {
    let now = Now { year: 2026, month: 3, day: 7, hour: 9, minute: 5, second: 0, day_of_week: 6 };
    for lang in [Lang::En, Lang::Es] {
        assert_eq!(espanso_manager::datefmt::format("%Q", now, lang), "%Q");
        assert_eq!(espanso_manager::datefmt::format("%-Q", now, lang), "%-Q");
        assert_eq!(espanso_manager::datefmt::format("%_Q", now, lang), "%_Q");
        assert_eq!(espanso_manager::datefmt::format("%0Q", now, lang), "%0Q");
        assert_eq!(espanso_manager::datefmt::format("a%", now, lang), "a%");
        assert_eq!(espanso_manager::datefmt::format("a%-", now, lang), "a%-");
        assert_eq!(espanso_manager::datefmt::format("%0d.%-m", now, lang), "07.3");
    }
}

#[test]
fn a_unix_time_breaks_into_its_calendar_fields() {
    let epoch = Now::from_unix_secs(0);
    assert_eq!((epoch.year, epoch.month, epoch.day, epoch.hour, epoch.day_of_week), (1970, 1, 1, 0, 4));
    // 2024-02-29 13:45:07 UTC, a Thursday.
    let leap = Now::from_unix_secs(1_709_214_307);
    assert_eq!(
        (leap.year, leap.month, leap.day, leap.hour, leap.minute, leap.second, leap.day_of_week),
        (2024, 2, 29, 13, 45, 7, 4)
    );
    // 2000-12-31 23:59:59 UTC, a Sunday.
    let end = Now::from_unix_secs(978_307_199);
    assert_eq!((end.year, end.month, end.day, end.hour, end.day_of_week), (2000, 12, 31, 23, 0));
}
