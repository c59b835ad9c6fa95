use espanso_manager::theme::light_from_registry;
use espanso_manager::app_state::{AppState, SettingKind};
use espanso_manager::datefmt::Now;
use espanso_manager::edit_form::{EditState, Kind};
use espanso_manager::i18n::Lang;
use espanso_manager::model::{AdvancedMatch, MatchEntry, SimpleMatch};
use espanso_manager::onboarding::{probe_file_body, FontStatus};
use espanso_manager::screens::View;
use espanso_manager::settings::Settings;
use espanso_manager::state::BannerKind;
use espanso_manager::transfer::{Merged, TransferError};
use espanso_manager::state::ConfirmList;
use espanso_manager::search::{SearchKeys, SearchStep};
use espanso_manager::search::request_after_typing;

fn now() -> Now {
    Now { year: 2026, month: 9, day: 5, hour: 15, minute: 20, second: 0, day_of_week: 6 }
}

fn simple(trigger: &str, replace: &str) -> MatchEntry {
    MatchEntry::Simple(SimpleMatch {
        trigger: trigger.to_string(),
        replace: replace.to_string(),
        vars: vec![],
        label: None,
    })
}

fn advanced(trigger: &str) -> MatchEntry {
    MatchEntry::Advanced(AdvancedMatch { trigger: trigger.to_string(), yaml: format!("regex: '{trigger}'\n") })
}

fn triggers(state: &AppState) -> Vec<String> {
    state.entries.iter().map(|e| e.trigger_label()).collect()
}

fn state_with(entries: Vec<MatchEntry>) -> AppState {
    AppState::new(entries, Settings::defaults(), None)
}

fn banner(state: &AppState) -> (BannerKind, String) {
    let b = state.banner.as_ref().expect("a banner");
    (b.kind, b.message.clone())
}

#[test]
fn a_fresh_state_shows_the_list_with_nothing_checked() {
    let s = state_with(vec![simple(":a", "A")]);
    assert!(matches!(s.view, View::List));
    assert!(s.banner.is_none());
    assert_eq!(s.selection.len(), 0);
    assert_eq!(s.list_revision, 0);
}

#[test]
fn a_blank_prefix_is_refused_and_a_real_one_kept() {
    let mut s = state_with(vec![]);
    assert!(!s.set_prefix("   ".to_string()));
    assert_eq!(s.settings.prefix, ":");
    assert!(s.set_prefix(";".to_string()));
    assert_eq!(s.settings.prefix, ";");
}

#[test]
fn changing_the_language_asks_for_a_refresh_only_when_it_changes() {
    let mut s = state_with(vec![]);
    assert!(!s.set_language(Lang::En));
    assert!(!s.pending_language_refresh);
    assert!(s.set_language(Lang::Es));
    assert!(s.pending_language_refresh);
    assert_eq!(s.settings.lang, Lang::Es);
}

#[test]
fn the_compact_view_reports_a_change_once() {
    let mut s = state_with(vec![]);
    assert!(s.set_compact_view(true));
    assert!(!s.set_compact_view(true));
    assert!(s.settings.compact_view);
}

#[test]
fn espanso_is_asked_its_version_only_once() {
    let mut s = state_with(vec![]);
    assert!(s.ask_espanso_version());
    assert!(!s.ask_espanso_version());
}

#[test]
fn a_failed_settings_save_names_the_setting() {
    let mut s = state_with(vec![]);
    s.settings_save_failed(SettingKind::View, "disk full");
    let (kind, message) = banner(&s);
    assert_eq!(kind, BannerKind::Error);
    assert!(message.contains("disk full"));
    assert!(!message.contains("{err}"));
}

#[test]
fn deleting_the_checked_expansions_asks_first_then_removes_them_and_their_folders() {
    let mut s = state_with(vec![simple(":a", "A"), simple(":b", "B"), simple(":c", "C")]);
    s.settings.set_folder(":a", Some("Work".to_string()));
    s.settings.set_folder(":c", Some("Home".to_string()));
    s.request_delete_selected(now(), now());
    assert!(s.pending_confirm.is_none(), "nothing checked, nothing asked");
    s.selection.toggle_selected(":c");
    s.selection.toggle_selected(":a");
    assert_eq!(s.selected_count(), "2 selected");
    s.request_delete_selected(now(), now());
    let p = s.pending_confirm.as_ref().expect("a confirmation");
    let listed: Vec<&str> = p.items.iter().map(|(t, _)| t.as_str()).collect();
    assert_eq!(listed, vec![":a", ":c"]);
    assert_eq!(s.entries.len(), 3, "nothing deleted before the answer");
    let message = s.confirm_pending_delete().expect("a message");
    assert_eq!(message, "Deleted 2 expansion(s).");
    assert_eq!(triggers(&s), vec![":b".to_string()]);
    assert_eq!(s.settings.folder_of(":a"), None);
    assert_eq!(s.settings.folder_of(":c"), None);
    assert_eq!(s.selection.len(), 0);
    assert!(s.pending_confirm.is_none());
    assert!(s.confirm_pending_delete().is_none());
}

#[test]
fn deleting_a_folder_takes_its_expansions_with_it() {
    let mut s = state_with(vec![simple(":a", "A"), simple(":b", "B")]);
    s.settings.set_folder(":a", Some("Work".to_string()));
    s.request_delete_folder("Empty", now(), now());
    assert!(s.pending_confirm.is_none());
    s.request_delete_folder("Work", now(), now());
    assert!(s.pending_confirm.is_some());
    let message = s.confirm_pending_delete().expect("a message");
    assert_eq!(message, "Deleted the folder \"Work\" and its 1 expansion(s).");
    assert_eq!(triggers(&s), vec![":b".to_string()]);
}

#[test]
fn a_cancelled_confirmation_deletes_nothing() {
    let mut s = state_with(vec![simple(":a", "A")]);
    s.selection.toggle_selected(":a");
    s.request_delete_selected(now(), now());
    s.cancel_pending_confirm();
    assert!(s.pending_confirm.is_none());
    assert_eq!(s.entries.len(), 1);
}

#[test]
fn renaming_a_folder_moves_every_expansion_in_it() {
    let mut s = state_with(vec![simple(":a", "A"), simple(":b", "B"), simple(":c", "C")]);
    s.settings.set_folder(":a", Some("Work".to_string()));
    s.settings.set_folder(":b", Some("Work".to_string()));
    s.settings.set_folder(":c", Some("Home".to_string()));
    s.start_rename_folder("Work");
    s.renaming_folder.as_mut().unwrap().1 = "  Office ".to_string();
    assert!(s.commit_rename_folder());
    assert_eq!(s.settings.folder_of(":a"), Some("Office"));
    assert_eq!(s.settings.folder_of(":b"), Some("Office"));
    assert_eq!(s.settings.folder_of(":c"), Some("Home"));
    assert_eq!(banner(&s), (BannerKind::Info, "Folder renamed to \"Office\".".to_string()));
    assert!(s.renaming_folder.is_none());
}

#[test]
fn renaming_a_folder_onto_another_is_refused() {
    let mut s = state_with(vec![simple(":a", "A"), simple(":c", "C")]);
    s.settings.set_folder(":a", Some("Work".to_string()));
    s.settings.set_folder(":c", Some("Home".to_string()));
    s.start_rename_folder("Work");
    s.renaming_folder.as_mut().unwrap().1 = "Home".to_string();
    assert!(!s.commit_rename_folder());
    assert_eq!(s.settings.folder_of(":a"), Some("Work"));
    assert_eq!(banner(&s), (BannerKind::Error, "A folder named \"Home\" already exists.".to_string()));
}

#[test]
fn a_blank_or_unchanged_folder_name_changes_nothing() {
    let mut s = state_with(vec![simple(":a", "A")]);
    s.settings.set_folder(":a", Some("Work".to_string()));
    s.start_rename_folder("Work");
    assert!(!s.commit_rename_folder());
    s.start_rename_folder("Work");
    s.renaming_folder.as_mut().unwrap().1 = "   ".to_string();
    assert!(!s.commit_rename_folder());
    s.cancel_rename_folder();
    assert!(!s.commit_rename_folder());
    assert_eq!(s.settings.folder_of(":a"), Some("Work"));
    assert!(s.banner.is_none());
}

#[test]
fn folders_of_gone_triggers_are_dropped_but_never_while_the_file_was_unreadable() {
    let mut s = state_with(vec![simple(":a", "A")]);
    s.settings.set_folder(":a", Some("Work".to_string()));
    s.settings.set_folder(":gone", Some("Work".to_string()));
    assert!(s.drop_orphan_folders());
    assert_eq!(s.settings.folder_of(":gone"), None);
    assert_eq!(s.settings.folder_of(":a"), Some("Work"));
    assert!(!s.drop_orphan_folders());

    let mut unreadable = AppState::new(vec![], Settings::defaults(), Some("could not read".to_string()));
    unreadable.settings.set_folder(":a", Some("Work".to_string()));
    assert!(!unreadable.drop_orphan_folders());
    assert_eq!(unreadable.settings.folder_of(":a"), Some("Work"));
}

#[test]
fn a_move_into_a_folder_can_be_undone_from_the_banner() {
    let mut s = state_with(vec![simple(":a", "A"), simple(":b", "B"), simple(":c", "C")]);
    s.settings.set_folder(":b", Some("Home".to_string()));
    let dropped = vec![":a".to_string(), ":b".to_string(), ":missing".to_string()];
    assert!(s.assign_folder_to_triggers(&dropped, Some("Work")));
    assert_eq!(s.settings.folder_of(":a"), Some("Work"));
    assert_eq!(s.settings.folder_of(":b"), Some("Work"));
    assert_eq!(s.settings.folder_of(":missing"), None);
    let (kind, message) = banner(&s);
    assert_eq!(kind, BannerKind::Info);
    assert_eq!(message, "2 expansion(s) moved to \"Work\".");
    assert!(s.undo_from_banner());
    assert_eq!(s.settings.folder_of(":a"), None);
    assert_eq!(s.settings.folder_of(":b"), Some("Home"));
    assert_eq!(banner(&s), (BannerKind::Info, "The move was undone.".to_string()));
    assert!(!s.undo_from_banner(), "the undo banner offers no second undo");
}

#[test]
fn a_move_that_changes_nothing_leaves_everything_alone() {
    let mut s = state_with(vec![simple(":a", "A")]);
    s.settings.set_folder(":a", Some("Work".to_string()));
    assert!(!s.assign_folder_to_triggers(&[":a".to_string()], Some("Work")));
    assert!(s.banner.is_none());
    assert!(!s.undo_from_banner());
}

#[test]
fn saving_the_form_adds_an_expansion_and_returns_to_the_list() {
    let mut s = state_with(vec![simple(":a", "A")]);
    let form = || {
        let mut e = EditState::new_for_create(":");
        e.word = "b".to_string();
        e.kind = Kind::Text { replace: "Bee".to_string() };
        e
    };
    s.view = View::Edit(form());
    assert!(s.save_edit(&form()));
    assert!(matches!(s.view, View::List));
    assert_eq!(triggers(&s), vec![":a".to_string(), ":b".to_string()]);
    assert_eq!(s.list_revision, 1);
}

#[test]
fn saving_the_form_with_a_taken_or_blank_trigger_is_refused() {
    let mut s = state_with(vec![simple(":a", "A")]);
    let mut e = EditState::new_for_create(":");
    e.word = "a".to_string();
    e.kind = Kind::Text { replace: "Other".to_string() };
    assert!(!s.save_edit(&e));
    assert_eq!(s.entries.len(), 1);
    let (kind, message) = banner(&s);
    assert_eq!(kind, BannerKind::Error);
    assert!(message.contains(":a"));
    let mut blank = EditState::new_for_create("");
    blank.word = "  ".to_string();
    assert!(!s.save_edit(&blank));
    assert_eq!(s.entries.len(), 1);
}

#[test]
fn deleting_one_expansion_asks_by_name_and_forgets_its_folder() {
    let mut s = state_with(vec![simple(":a", "A"), simple(":b", "B")]);
    s.settings.set_folder(":a", Some("Work".to_string()));
    assert_eq!(s.delete_prompt(0).unwrap(), "Delete the expansion \":a\"? This cannot be undone.");
    assert!(s.delete_prompt(2).is_none());
    s.delete_entry(0);
    assert_eq!(triggers(&s), vec![":b".to_string()]);
    assert_eq!(s.settings.folder_of(":a"), None);
    assert!(matches!(s.view, View::List));
}

#[test]
fn an_expansion_is_found_by_its_trigger() {
    let s = state_with(vec![simple(":a", "A"), advanced(":r"), simple(":a", "again")]);
    assert_eq!(s.index_of_trigger(":a"), Some(0));
    assert_eq!(s.index_of_trigger(":r"), Some(1));
    assert_eq!(s.index_of_trigger(":zz"), None);
}

#[test]
fn the_edit_form_opens_only_on_a_simple_expansion() {
    let mut s = state_with(vec![advanced(":r"), simple(":a", "A")]);
    s.settings.set_folder(":a", Some("Work".to_string()));
    s.open_edit_for(":r");
    assert!(matches!(s.view, View::List));
    s.open_edit_for(":missing");
    assert!(matches!(s.view, View::List));
    s.open_edit_for(":a");
    match &s.view {
        View::Edit(e) => {
            assert_eq!(e.editing_index, Some(1));
            assert_eq!(e.folder.as_deref(), Some("Work"));
            assert_eq!(e.word, "a");
        }
        _ => panic!("the form should be open"),
    }
}

#[test]
fn the_prefix_change_is_planned_then_applied_with_folders_and_selection_following() {
    let mut s = state_with(vec![simple(":a", "A"), simple(";b", "B"), advanced(";r")]);
    s.settings.set_folder(";b", Some("Work".to_string()));
    s.selection.toggle_selected(";b");
    let renamed = s.plan_prefix_change().expect("renames to confirm");
    assert_eq!(renamed, vec![(";b".to_string(), ":b".to_string())]);
    let message = s.apply_prefix_change(&renamed);
    assert_eq!(message, "Updated the prefix of 1 expansion(s).");
    assert_eq!(triggers(&s), vec![":a".to_string(), ":b".to_string(), ";r".to_string()]);
    assert_eq!(s.settings.folder_of(":b"), Some("Work"));
    assert_eq!(s.settings.folder_of(";b"), None);
    assert!(s.selection.contains(":b"));
    assert!(!s.selection.contains(";b"));
    assert!(s.plan_prefix_change().is_none());
    assert_eq!(banner(&s).0, BannerKind::Info);
}

#[test]
fn a_prefix_change_that_would_collide_only_says_so() {
    let mut s = state_with(vec![simple(":a", "A"), simple(";a", "B")]);
    assert!(s.plan_prefix_change().is_none());
    assert_eq!(banner(&s).0, BannerKind::Error);
    assert_eq!(triggers(&s), vec![":a".to_string(), ";a".to_string()]);
}

#[test]
fn an_import_adds_and_files_what_it_merged() {
    let mut s = state_with(vec![simple(":a", "A")]);
    let merged = Merged {
        added: vec![simple(":b", "B"), simple(":c", "C")],
        folders: vec![(":b".to_string(), Some("Work".to_string())), (":c".to_string(), None)],
        skipped: 1,
    };
    let message = s.add_imported(merged).expect("a message");
    assert_eq!(message, "Added: 2. Skipped: 1 — that trigger was already in use.");
    assert_eq!(triggers(&s), vec![":a".to_string(), ":b".to_string(), ":c".to_string()]);
    assert_eq!(s.settings.folder_of(":b"), Some("Work"));
    assert_eq!(s.settings.folder_of(":c"), None);
}

#[test]
fn an_import_that_adds_nothing_says_so() {
    let mut s = state_with(vec![simple(":a", "A")]);
    let merged = Merged { added: vec![], folders: vec![], skipped: 3 };
    assert!(s.add_imported(merged).is_none());
    assert_eq!(s.entries.len(), 1);
    assert_eq!(
        banner(&s),
        (BannerKind::Info, "Nothing was added: every trigger in that file is already in use.".to_string())
    );
}

#[test]
fn export_and_import_failures_are_told_apart() {
    let mut s = state_with(vec![]);
    s.export_finished(4, Ok(()));
    assert_eq!(banner(&s), (BannerKind::Info, "Exported: 4.".to_string()));
    s.export_finished(4, Err(TransferError::Io("denied".to_string())));
    assert_eq!(banner(&s), (BannerKind::Error, "The file could not be written: denied".to_string()));
    s.import_failed(TransferError::Io("gone".to_string()));
    assert_eq!(banner(&s), (BannerKind::Error, "The file could not be read: gone".to_string()));
    s.import_failed(TransferError::Empty);
    assert_eq!(
        banner(&s),
        (BannerKind::Error, "That file does not look like an EspansoManager export.".to_string())
    );
}

#[test]
fn saving_is_refused_while_the_file_was_never_read() {
    let mut s = AppState::new(vec![], Settings::defaults(), Some("The file is damaged.".to_string()));
    assert!(s.save_blocked());
    assert_eq!(banner(&s), (BannerKind::Error, "The file is damaged.".to_string()));
    let mut ok = state_with(vec![]);
    assert!(!ok.save_blocked());
    assert!(ok.banner.is_none());
}

#[test]
fn the_banner_after_a_save_carries_the_warning_beneath() {
    let mut s = state_with(vec![]);
    s.after_save(Ok("Saved.".to_string()), Some("No backup.".to_string()));
    assert_eq!(banner(&s), (BannerKind::Error, "Saved.\n\nNo backup.".to_string()));
    s.after_save(Ok("Saved.".to_string()), None);
    assert_eq!(banner(&s), (BannerKind::Info, "Saved.".to_string()));
}

#[test]
fn start_with_windows_reports_what_happened() {
    let mut s = state_with(vec![]);
    s.autostart_changed(true, Ok(()), false);
    assert!(s.autostart_enabled);
    assert_eq!(banner(&s), (BannerKind::Info, "EspansoManager will now start with Windows.".to_string()));
    s.autostart_changed(false, Err("access denied".to_string()), true);
    assert!(s.autostart_enabled, "the value read back wins after a failure");
    let (kind, message) = banner(&s);
    assert_eq!(kind, BannerKind::Error);
    assert!(message.contains("access denied"));
}

#[test]
fn the_selection_knows_when_something_checked_is_filed() {
    let mut s = state_with(vec![simple(":a", "A"), simple(":b", "B")]);
    s.settings.set_folder(":b", Some("Work".to_string()));
    s.selection.toggle_selected(":a");
    assert!(!s.selection_has_foldered());
    s.selection.toggle_selected(":b");
    assert!(s.selection_has_foldered());
    s.clear_selection();
    assert_eq!(s.selection.len(), 0);
    assert!(!s.selection_has_foldered());
}

fn many(n: usize) -> Vec<MatchEntry> {
    (0..n).map(|i| simple(&format!(":t{i}"), "x")).collect()
}

#[test]
fn a_confirmation_lists_few_items_as_lines_and_many_as_chips() {
    let t = Lang::En.strings();
    let mut s = state_with(many(3));
    for i in 0..3 {
        s.selection.toggle_selected(&format!(":t{i}"));
    }
    s.request_delete_selected(now(), now());
    let p = s.pending_confirm.as_ref().unwrap();
    assert_eq!(p.title(t), "Delete 3 expansion(s)");
    assert_eq!(p.intro(t), "You are about to delete 3 selected expansion(s). This cannot be undone.");
    assert!(matches!(p.list_layout(t), ConfirmList::Lines { shown: 3 }));

    let mut s = state_with(many(7));
    for i in 0..7 {
        s.selection.toggle_selected(&format!(":t{i}"));
    }
    s.request_delete_selected(now(), now());
    match s.pending_confirm.as_ref().unwrap().list_layout(t) {
        ConfirmList::LinesWithMore { shown, more } => {
            assert_eq!(shown, 5);
            assert_eq!(more, "See more (2 more)");
        }
        _ => panic!("five lines and a button expected"),
    }
    s.expand_pending_confirm();
    assert!(matches!(s.pending_confirm.as_ref().unwrap().list_layout(t), ConfirmList::Lines { shown: 7 }));

    let mut s = state_with(many(10));
    for i in 0..10 {
        s.selection.toggle_selected(&format!(":t{i}"));
    }
    s.request_delete_selected(now(), now());
    assert!(matches!(s.pending_confirm.as_ref().unwrap().list_layout(t), ConfirmList::Chips));
}

#[test]
fn a_folder_confirmation_names_the_folder() {
    let t = Lang::En.strings();
    let mut s = state_with(vec![simple(":a", "A"), simple(":b", "B")]);
    s.settings.set_folder(":a", Some("Work".to_string()));
    s.settings.set_folder(":b", Some("Work".to_string()));
    s.request_delete_folder("Work", now(), now());
    let p = s.pending_confirm.as_ref().unwrap();
    assert_eq!(p.title(t), "Delete folder \"Work\"");
    assert_eq!(
        p.intro(t),
        "You are about to delete the folder \"Work\", which contains 2 expansion(s). Continuing will delete ALL expansions in this folder. This cannot be undone."
    );
}

#[test]
fn the_checked_expansions_can_be_taken_out_of_their_folders_and_put_back() {
    let mut s = state_with(vec![simple(":a", "A"), simple(":b", "B"), simple(":c", "C")]);
    s.settings.set_folder(":a", Some("Work".to_string()));
    s.settings.set_folder(":b", Some("Home".to_string()));
    s.settings.set_folder(":c", Some("Work".to_string()));
    s.selection.toggle_selected(":a");
    s.selection.toggle_selected(":b");
    assert!(s.unfile_selected());
    assert_eq!(s.settings.folder_of(":a"), None);
    assert_eq!(s.settings.folder_of(":b"), None);
    assert_eq!(s.settings.folder_of(":c"), Some("Work"));
    assert_eq!(banner(&s), (BannerKind::Info, "2 expansion(s) taken out of their folder.".to_string()));
    assert!(s.undo_from_banner());
    assert_eq!(s.settings.folder_of(":a"), Some("Work"));
    assert_eq!(s.settings.folder_of(":b"), Some("Home"));
    s.selection.toggle_selected(":c");
    s.clear_selection();
    s.selection.toggle_selected(":missing");
    assert!(!s.unfile_selected());
}

#[test]
fn escape_closes_the_confirmation_first_then_the_selection() {
    let mut s = state_with(vec![simple(":a", "A")]);
    s.selection.toggle_selected(":a");
    s.request_delete_selected(now(), now());
    s.escape_pressed();
    assert!(s.pending_confirm.is_none());
    assert_eq!(s.selection.len(), 1);
    s.escape_pressed();
    assert_eq!(s.selection.len(), 0);
    s.selection.toggle_selected(":a");
    s.view = View::Settings;
    s.escape_pressed();
    assert_eq!(s.selection.len(), 1, "only the list listens to Esc");
    s.set_info_banner("News.".to_string());
    s.dismiss_banner();
    assert!(s.banner.is_none());
}

#[test]
fn the_search_window_closes_on_escape_and_restarts_on_a_new_query() {
    let mut s = state_with(vec![]);
    s.search_open = true;
    s.search_query = "fir".to_string();
    let none = SearchKeys { up: false, down: false, enter: false, escape: false };
    assert_eq!(s.search_input(4, SearchKeys { down: true, ..none }), SearchStep::Browse);
    assert_eq!(s.search_selected, 1);
    assert!(s.search_follow);
    s.search_query_changed();
    assert_eq!(s.search_selected, 0);
    assert_eq!(s.search_input(4, SearchKeys { enter: true, ..none }), SearchStep::Choose(0));
    assert_eq!(s.search_input(4, SearchKeys { escape: true, ..none }), SearchStep::Close);
    assert!(!s.search_open);
    assert!(s.search_query.is_empty());
}

#[test]
fn the_shortcut_opens_a_fresh_search_and_closes_an_open_one() {
    let mut s = state_with(vec![]);
    s.search_query = "old".to_string();
    s.hotkey_pressed(42);
    assert!(s.search_open);
    assert_eq!(s.search_return_to, 42);
    assert!(s.search_query.is_empty());
    assert!(s.search_needs_focus);
    s.search_focus(false);
    assert!(s.search_open, "not yet focused is not a lost focus");
    s.search_focus(true);
    s.search_focus(false);
    assert!(!s.search_open, "losing the keyboard after having it closes the window");
    s.hotkey_pressed(7);
    s.hotkey_pressed(7);
    assert!(!s.search_open);
    s.hotkey_pressed(7);
    s.search_chosen(":firma".to_string());
    assert!(!s.search_open);
    assert_eq!(s.take_handoff(), Some(":firma".to_string()));
    assert_eq!(s.take_handoff(), None);
}

#[test]
fn a_trigger_that_could_not_be_typed_is_not_expanded() {
    assert!(request_after_typing(true, true));
    assert!(!request_after_typing(true, false));
    assert!(request_after_typing(false, false));
}

#[test]
fn the_first_run_screen_comes_first_until_it_is_finished() {
    let mut s = state_with(vec![]);
    assert!(s.first_screen());
    assert!(matches!(s.view, View::Onboarding));
    s.onboarding_probe = "so :espanso".to_string();
    s.probe_typed();
    assert!(!s.onboarding_expanded);
    s.onboarding_probe = "so Hi there!".to_string();
    s.probe_typed();
    assert!(s.onboarding_expanded);
    s.finish_onboarding();
    assert!(s.settings.onboarding_done);
    assert!(matches!(s.view, View::List));
    assert!(!s.first_screen());
    assert!(matches!(s.view, View::List));
}

#[test]
fn the_trial_file_holds_one_match_and_says_whose_it_is() {
    assert_eq!(
        probe_file_body(),
        "# Temporary — created by EspansoManager for its first-run screen and deleted as soon\n\
         # as that screen is finished with. Nothing here is yours; edit base.yml instead.\n\
         matches:\n- trigger: ':espanso'\n  replace: Hi there!\n"
    );
}

#[test]
fn only_a_missing_devanagari_face_is_worth_a_warning() {
    let mut s = state_with(vec![]);
    assert!(!s.wants_devanagari());
    s.fonts_installed(FontStatus { devanagari_missing: false, symbols_missing: true });
    assert!(s.banner.is_none());
    s.set_language(Lang::Hi);
    assert!(s.wants_devanagari());
    s.fonts_installed(FontStatus { devanagari_missing: true, symbols_missing: false });
    assert_eq!(banner(&s).0, BannerKind::Error);
}

#[test]
fn startup_warnings_share_one_banner_and_are_not_repeated() {
    assert_eq!(espanso_manager::state::startup_banner(&vec![]), None);
    let b = espanso_manager::state::startup_banner(&vec!["One.".to_string(), "Two.".to_string()]);
    assert_eq!(b.as_deref(), Some("One.\n\nTwo."));
    let b = espanso_manager::state::add_warning(b, "Two.".to_string());
    assert_eq!(b.as_deref(), Some("One.\n\nTwo."));
    let b = espanso_manager::state::add_warning(b, "Three.".to_string());
    assert_eq!(b.as_deref(), Some("One.\n\nTwo.\n\nThree."));
    assert_eq!(espanso_manager::state::add_warning(None, "Alone.".to_string()).as_deref(), Some("Alone."));
    assert_eq!(espanso_manager::config_patch::wanted_search_shortcut(false), "ALT+SPACE");
    assert_eq!(espanso_manager::config_patch::wanted_search_shortcut(true), "OFF");
    assert!(!espanso_manager::config_patch::OWN_LAUNCHER);
}

#[test]
fn folders_start_open_only_when_there_are_few() {
    let mut s = state_with((0..12).map(|i| simple(&format!(":t{i}"), "x")).collect());
    for i in 0..5 {
        s.settings.set_folder(&format!(":t{i}"), Some(format!("F{i}")));
    }
    let list = espanso_manager::list::build_list(&s.entries, &s.settings, "", s.t(), now(), now());
    assert!(espanso_manager::list::folders_default_open(&list));
    s.settings.set_folder(":t5", Some("F5".to_string()));
    let list = espanso_manager::list::build_list(&s.entries, &s.settings, "", s.t(), now(), now());
    assert!(!espanso_manager::list::folders_default_open(&list));
}

#[test]
fn windows_is_light_unless_it_says_zero() {
    assert!(light_from_registry(None));
    assert!(light_from_registry(Some(1)));
    assert!(!light_from_registry(Some(0)));
}

#[test]
fn opening_a_date_expansion_fills_the_form_from_it() {
    let date = MatchEntry::Simple(SimpleMatch {
        trigger: ";hoy".to_string(),
        replace: "{{fecha}}".to_string(),
        vars: vec![espanso_manager::presets::build_custom_date_var("fecha", "%d/%m/%Y", None, Lang::En)],
        label: None,
    });
    let mut s = state_with(vec![date]);
    s.open_edit_for(";hoy");
    match &s.view {
        View::Edit(e) => {
            assert_eq!(e.prefix, ";");
            assert_eq!(e.word, "hoy");
            assert!(e.stashed_kind.is_none());
            match &e.kind {
                Kind::Date { custom_format, .. } => assert_eq!(custom_format, "%d/%m/%Y"),
                _ => panic!("a date form expected"),
            }
        }
        _ => panic!("the form should be open"),
    }
}
