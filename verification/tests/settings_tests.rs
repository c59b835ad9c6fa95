use espanso_manager::settings::{settings_after_read, Settings, SettingsIssue, SettingsRead};

fn live(triggers: &[&str]) -> Vec<String> {
    triggers.iter().map(|t| t.to_string()).collect()
}

fn settings_with(pairs: &[(&str, &str)]) -> Settings {
    let mut s = Settings::defaults();
    for (trigger, folder) in pairs {
        s.folder_by_trigger.insert(trigger, folder);
    }
    s
}

#[test]
fn an_assignment_whose_trigger_is_gone_is_dropped() {
    let mut s = settings_with(&[(":firma", "Trabajo"), (":borrado", "Fantasma")]);
    assert_eq!(s.drop_folders_not_in(&live(&[":firma"])), 1);
    assert_eq!(s.all_folder_names(), vec!["Trabajo".to_string()]);
}

#[test]
fn a_folder_survives_while_one_of_its_expansions_does() {
    let mut s = settings_with(&[(":uno", "Trabajo"), (":dos", "Trabajo")]);
    assert_eq!(s.drop_folders_not_in(&live(&[":uno"])), 1);
    assert_eq!(s.folder_of(":uno"), Some("Trabajo"));
    assert_eq!(s.all_folder_names(), vec!["Trabajo".to_string()]);
}

#[test]
fn a_map_with_nothing_stale_in_it_is_left_alone() {
    let mut s = settings_with(&[(":uno", "Trabajo")]);
    assert_eq!(s.drop_folders_not_in(&live(&[":uno", ":otro"])), 0);
    assert_eq!(s.folder_of(":uno"), Some("Trabajo"));
}

#[test]
fn a_folder_with_no_settings_yet_is_a_first_run() {
    let (settings, issue) = settings_after_read(SettingsRead::Missing);
    assert!(issue.is_none());
    assert!(!settings.onboarding_done);
}

#[test]
fn a_settings_file_that_reads_back_is_not_a_first_run() {
    let (settings, issue) = settings_after_read(SettingsRead::Parsed(settings_with(&[(":firma", "Trabajo")])));
    assert!(issue.is_none());
    assert_eq!(settings.folder_of(":firma"), Some("Trabajo"));
    assert!(settings.onboarding_done, "the file was there, so this is not a first run");
}

#[test]
fn a_damaged_file_starts_from_the_defaults_and_says_where_it_went() {
    let (settings, issue) = settings_after_read(SettingsRead::Unparseable {
        kept_at: Some("settings.json.1700000000.bad".to_string()),
    });
    assert_eq!(settings.folder_by_trigger.len(), 0);
    assert!(settings.onboarding_done);
    let Some(SettingsIssue::Damaged { kept_at: Some(name) }) = issue else {
        panic!("a file that will not parse has to be reported as damaged, and kept");
    };
    assert_eq!(name, "settings.json.1700000000.bad");
}

#[test]
fn each_settings_issue_says_something_different() {
    let t = espanso_manager::i18n::Lang::En.strings();
    let kept = SettingsIssue::Damaged { kept_at: Some("old.bad".to_string()) }.message(t);
    assert!(kept.contains("old.bad"));
    let lost = SettingsIssue::Damaged { kept_at: None }.message(t);
    assert_eq!(lost, t.settings_damaged_lost);
    let unreadable = SettingsIssue::Unreadable("access denied".to_string()).message(t);
    assert!(unreadable.contains("access denied"));
    assert_ne!(kept, lost);
}

#[test]
fn a_renamed_trigger_keeps_its_folder() {
    let mut s = settings_with(&[(":firma", "Trabajo")]);
    s.rename_trigger(":firma", ":sig");
    assert_eq!(s.folder_of(":sig"), Some("Trabajo"));
    assert_eq!(s.folder_of(":firma"), None);
}

#[test]
fn a_blank_folder_unfiles_and_a_padded_one_is_trimmed() {
    let mut s = settings_with(&[(":firma", "Trabajo")]);
    s.set_folder(":firma", Some("   ".to_string()));
    assert_eq!(s.folder_of(":firma"), None);
    s.set_folder(":firma", Some("  Casa ".to_string()));
    assert_eq!(s.folder_of(":firma"), Some("Casa"));
}

#[test]
fn every_failed_read_starts_from_the_default_choices() {
    for read in [
        SettingsRead::Missing,
        SettingsRead::Unparseable { kept_at: None },
        SettingsRead::Unreadable("denied".to_string()),
    ] {
        let (s, _) = settings_after_read(read);
        assert_eq!(s.prefix, ":");
        assert_eq!(s.lang, espanso_manager::i18n::Lang::En);
        assert_eq!(s.theme_mode, espanso_manager::theme::ThemeMode::System);
        assert!(!s.compact_view);
    }
}
