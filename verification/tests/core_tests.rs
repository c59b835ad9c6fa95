use espanso_manager::date_blocks::{
    insert_block, move_block, parse, remove_block, separators, timezone_for, to_format, Block, FIELDS,
};
use espanso_manager::datefmt::{eq_ignore_ascii_case, lang_from_locale_tag, locale_tag, sample, Now};
use espanso_manager::i18n::{Lang, ALL_LANGS};
use espanso_manager::model::{flatten_lines, AdvancedMatch, MatchEntry, Param, Scalar, SimpleMatch, VarEntry};
use espanso_manager::presets::{build_custom_date_var, month_lang_of, DatePreset, ALL_PRESETS};
use espanso_manager::theme::{system_accent, ThemeMode};
use espanso_manager::validation::{
    join, validate, LoadError, MatchFile, SaveError, SaveWarnings, ValidationIssue,
};
use espanso_manager::theme::{theme_poll, ThemePoll};

fn local() -> Now {
    Now { year: 2026, month: 9, day: 5, hour: 15, minute: 20, second: 7, day_of_week: 6 }
}

fn utc() -> Now {
    Now { year: 2026, month: 9, day: 5, hour: 13, minute: 20, second: 7, day_of_week: 6 }
}

fn simple(trigger: &str, replace: &str, vars: Vec<VarEntry>) -> SimpleMatch {
    SimpleMatch { trigger: trigger.to_string(), replace: replace.to_string(), vars, label: None }
}

fn param(key: &str, value: &str) -> Param {
    Param { key: Scalar::Text(key.to_string()), value: Scalar::Text(value.to_string()) }
}

#[test]
fn locale_tags_round_trip_and_unknown_ones_mean_english() {
    for lang in ALL_LANGS {
        assert_eq!(lang_from_locale_tag(Some(locale_tag(lang))), lang);
    }
    assert_eq!(locale_tag(Lang::Fil), "fil-PH");
    assert_eq!(lang_from_locale_tag(Some("de-DE")), Lang::En);
    assert_eq!(lang_from_locale_tag(None), Lang::En);
}

#[test]
fn a_sample_reads_the_clock_its_time_zone_names() {
    assert_eq!(sample("%H:%M", None, Lang::En, local(), utc()), "15:20");
    assert_eq!(sample("%H:%M", Some("UTC"), Lang::En, local(), utc()), "13:20");
    assert_eq!(sample("%H:%M", Some("utc"), Lang::En, local(), utc()), "13:20");
    assert!(eq_ignore_ascii_case("Utc", "uTC"));
    assert!(!eq_ignore_ascii_case("UTC", "UTC+1"));
}

#[test]
fn each_preset_writes_its_own_format() {
    let t = Lang::En.strings();
    assert_eq!(DatePreset::IsoDateOnly.format(), "%Y-%m-%d");
    assert_eq!(DatePreset::IsoDateTimeUtc.tz(), Some("UTC"));
    assert_eq!(DatePreset::MonthDayYear.tz(), None);
    assert_eq!(DatePreset::IsoDateOnly.label(t), "Date only (ISO 8601)");
    assert_eq!(DatePreset::IsoDateOnly.sample(Lang::En, local(), utc()), "2026-09-05");
    assert_eq!(DatePreset::IsoDateTimeUtc.sample(Lang::En, local(), utc()), "2026-09-05T13:20:07Z");
    assert_eq!(DatePreset::MonthDayYear.sample(Lang::En, local(), utc()), "September 5, 2026");
    assert_eq!(DatePreset::DayMonthYear.sample(Lang::Es, local(), utc()), "5 septiembre 2026");
}

#[test]
fn a_built_preset_is_recognised_again_with_its_language() {
    for preset in ALL_PRESETS {
        for lang in ALL_LANGS {
            let var = preset.build_var("date", lang);
            assert_eq!(DatePreset::detect(&var), Some(preset));
            if espanso_manager::datefmt::needs_locale(preset.format()) {
                assert_eq!(month_lang_of(&var), lang);
            }
        }
    }
    let custom = build_custom_date_var("date", "%d/%m", None, Lang::Hi);
    assert_eq!(DatePreset::detect(&custom), None);
    assert_eq!(custom.params.len(), 1);
}

#[test]
fn a_date_match_is_recognised_and_previewed_as_an_example() {
    let t = Lang::En.strings();
    let var = DatePreset::IsoDateOnly.build_var("mydate", Lang::En);
    let m = simple(":hoy", "  {{mydate}} ", vec![var]);
    assert!(m.as_date_var().is_some());
    let e = MatchEntry::Simple(m);
    assert!(e.is_safely_editable());
    assert_eq!(e.preview(t, local(), utc()), "Date/time — e.g. 2026-09-05");
    let shell = VarEntry { name: "out".to_string(), var_type: "shell".to_string(), params: vec![param("cmd", "dir")] };
    assert_eq!(shell.param_str("cmd"), Some("dir"));
    assert_eq!(shell.param_str("nope"), None);
    let other = MatchEntry::Simple(simple(":sh", "{{out}}", vec![shell]));
    assert!(!other.is_safely_editable());
    assert_eq!(other.preview(t, local(), utc()), "Advanced (uses special variables) — edit it in the .yml file");
    let adv = MatchEntry::Advanced(AdvancedMatch { trigger: String::new(), yaml: "regex: x\n".to_string() });
    assert_eq!(adv.trigger_str(), "");
    assert_eq!(adv.preview(t, local(), utc()), "Advanced — edit it in the .yml file");
    assert_eq!(flatten_lines("a\nb\n"), "a b ");
}

#[test]
fn a_block_row_writes_its_format_and_reads_back() {
    let row = vec![Block::Day, Block::Separator('/'), Block::MonthNumber, Block::Separator(' '), Block::HourUtc, Block::Separator(':'), Block::Minute];
    let f = to_format(&row);
    assert_eq!(f, "%d/%m %H:%M");
    assert_eq!(timezone_for(&row), Some("UTC"));
    assert_eq!(parse(&f, true), Some(row));
    assert_eq!(parse("%d/%m", false), Some(vec![Block::Day, Block::Separator('/'), Block::MonthNumber]));
    assert_eq!(parse("%A", false), None);
    assert_eq!(parse("%", false), None);
    assert_eq!(parse("day %d", false), None);
    assert_eq!(timezone_for(&[Block::Hour]), None);
    assert_eq!(FIELDS.len(), 7);
    assert!(separators().iter().all(|b| b.is_separator()));
    assert_eq!(Block::MonthName.token(), "%B");
    assert_eq!(Block::Separator(' ').label(Lang::En.strings()), "space");
    assert_eq!(Block::Year.label(Lang::En.strings()), "Year");
}

#[test]
fn blocks_move_insert_and_go() {
    let row = vec![Block::Year, Block::Separator('-'), Block::MonthNumber];
    assert_eq!(insert_block(&row, 0, Block::Day), vec![Block::Day, Block::Year, Block::Separator('-'), Block::MonthNumber]);
    assert_eq!(insert_block(&row, 99, Block::Day), vec![Block::Year, Block::Separator('-'), Block::MonthNumber, Block::Day]);
    assert_eq!(move_block(&row, 0, 3), vec![Block::Separator('-'), Block::MonthNumber, Block::Year]);
    assert_eq!(move_block(&row, 2, 0), vec![Block::MonthNumber, Block::Year, Block::Separator('-')]);
    assert_eq!(remove_block(&row, 1), vec![Block::Year, Block::MonthNumber]);
}

#[test]
fn validation_names_blank_and_repeated_triggers() {
    let t = Lang::En.strings();
    let mf = MatchFile {
        entries: vec![
            MatchEntry::Simple(simple(":a", "1", vec![])),
            MatchEntry::Simple(simple("  ", "2", vec![])),
            MatchEntry::Advanced(AdvancedMatch { trigger: ":a".to_string(), yaml: "trigger: ':a'\n".to_string() }),
            MatchEntry::Simple(simple(":a", "3", vec![])),
        ],
        extra_top_level: String::new(),
    };
    let issues = validate(&mf);
    assert_eq!(issues.len(), 2);
    assert!(matches!(issues[0], ValidationIssue::EmptyTrigger));
    assert!(matches!(&issues[1], ValidationIssue::DuplicateTrigger(x) if x == ":a"));
    assert_eq!(issues[0].friendly_message(t), "The trigger cannot be empty.");
    assert_eq!(
        issues[1].friendly_message(t),
        "There is already an expansion using exactly the trigger \":a\"."
    );
    let err = SaveError::Validation(issues);
    assert_eq!(
        err.friendly_message(t),
        "The trigger cannot be empty.\nThere is already an expansion using exactly the trigger \":a\"."
    );
    assert!(validate(&MatchFile { entries: vec![], extra_top_level: String::new() }).is_empty());
}

#[test]
fn every_error_says_what_went_wrong() {
    let t = Lang::En.strings();
    assert_eq!(LoadError::Io("denied".to_string()).friendly_message(t), "Could not read the expansions file: denied");
    assert!(LoadError::Parse("bad indent".to_string()).friendly_message(t).contains("\nbad indent\n"));
    assert_eq!(SaveError::Io("full".to_string()).friendly_message(t), "Could not save the expansions file: full");
    assert!(SaveError::SelfCheckFailed("oops".to_string()).friendly_message(t).ends_with("Technical detail: oops"));
}

#[test]
fn save_warnings_are_said_together_or_not_at_all() {
    let t = Lang::En.strings();
    assert_eq!(SaveWarnings::none().message(t), None);
    let both = SaveWarnings { backup: Some("b".to_string()), flush: Some("f".to_string()) };
    let msg = both.message(t).expect("two warnings");
    assert!(msg.starts_with("No backup copy of the previous file could be made first: b"));
    assert!(msg.contains("\n\nWindows would not confirm that the file reached the disk: f"));
    assert_eq!(join(&vec!["a".to_string(), "b".to_string()], ", "), "a, b");
    assert_eq!(join(&vec![], ", "), "");
}

#[test]
fn the_theme_follows_windows_only_when_asked_to() {
    assert!(ThemeMode::System.follows_system());
    assert!(!ThemeMode::Dark.follows_system());
    assert!(ThemeMode::Light.is_light(false));
    assert!(!ThemeMode::Dark.is_light(true));
    assert!(ThemeMode::System.is_light(true));
    assert_eq!(ThemeMode::default_mode(), ThemeMode::System);
}

#[test]
fn the_accent_comes_from_the_palette_or_falls_back() {
    let palette: Vec<u8> = (0u8..32).collect();
    assert_eq!(system_accent(true, Some(&palette)), (16, 17, 18));
    assert_eq!(system_accent(false, Some(&palette)), (4, 5, 6));
    assert_eq!(system_accent(true, Some(&palette[..18])), (0x00, 0x67, 0xC0));
    assert_eq!(system_accent(false, None), (0x4C, 0xC2, 0xFF));
}

#[test]
fn languages_name_themselves_unless_the_script_is_missing() {
    assert_eq!(Lang::Hi.native_name(), "हिन्दी");
    assert_eq!(Lang::Hi.latin_name(), "Hindi");
    assert_eq!(Lang::Hi.picker_label(false), "Hindi");
    assert_eq!(Lang::Es.picker_label(true), "Español");
    assert_eq!(Lang::Hi.script_sample(), 'ह');
    assert_eq!(Lang::default_lang(), Lang::En);
}

#[test]
fn an_announced_theme_change_is_reread_for_a_moment_then_only_now_and_then() {
    let start = ThemePoll { recheck_until_ms: 0, last_check_ms: 10_000 };
    let step = theme_poll(start, 10_100, true, true);
    assert!(step.read_now);
    assert_eq!(step.next, ThemePoll { recheck_until_ms: 11_600, last_check_ms: 10_100 });
    assert_eq!(step.repaint_after_ms, Some(150));
    let later = theme_poll(step.next, 12_000, true, false);
    assert!(!later.read_now, "past the window and well inside the backstop");
    assert_eq!(later.repaint_after_ms, None);
    assert_eq!(later.next.last_check_ms, 10_100);
    assert!(theme_poll(later.next, 40_100, true, false).read_now);
    assert!(theme_poll(later.next, 12_100, false, false).read_now, "without a listener, every two seconds");
}
