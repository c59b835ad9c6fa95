use espanso_manager::datefmt::Now;
use espanso_manager::edit_form::EditState;
use espanso_manager::i18n::Lang;
use espanso_manager::model::{AdvancedMatch, MatchEntry, SimpleMatch};
use espanso_manager::selection::Selection;
use espanso_manager::settings::Settings;
use espanso_manager::state::{
    apply_edit, apply_moves, apply_prefix, collision_message, confirm_body, delete_at, deleted_message,
    folder_items, folder_moves, import_news, moved_message, plan_prefix, remove_by_triggers, rename_folder,
    save_banner, selection_items, trigger_taken, undo_moves, BannerKind, FolderRename, ImportNews,
    PendingConfirmKind, PrefixPlan,
};

fn now() -> Now {
    Now { year: 2026, month: 9, day: 5, hour: 15, minute: 20, second: 0, day_of_week: 6 }
}

fn simple(trigger: &str, replace: &str) -> MatchEntry {
    MatchEntry::Simple(SimpleMatch {
        trigger: trigger.to_string(),
        replace: replace.to_string(),
        vars: vec![],
        label: None,
    })
}

fn advanced(trigger: &str) -> MatchEntry {
    MatchEntry::Advanced(AdvancedMatch { trigger: trigger.to_string(), yaml: format!("regex: '{trigger}'\n") })
}

fn triggers(entries: &[MatchEntry]) -> Vec<String> {
    entries.iter().map(|e| e.trigger_label()).collect()
}

fn form(word: &str, replace: &str) -> EditState {
    let mut e = EditState::new_for_create(":");
    e.word = word.to_string();
    e.kind = espanso_manager::edit_form::Kind::Text { replace: replace.to_string() };
    e
}

#[test]
fn a_save_banner_is_news_only_when_everything_went_right() {
    let b = save_banner(Ok("Saved.".to_string()), None);
    assert_eq!(b.kind, BannerKind::Info);
    assert_eq!(b.message, "Saved.");
    let b = save_banner(Ok("Saved.".to_string()), Some("No backup.".to_string()));
    assert_eq!(b.kind, BannerKind::Error);
    assert_eq!(b.message, "Saved.\n\nNo backup.");
    let b = save_banner(Err("Not confirmed.".to_string()), None);
    assert_eq!(b.kind, BannerKind::Error);
    assert_eq!(b.message, "Not confirmed.");
    let b = save_banner(Err("Not confirmed.".to_string()), Some("No backup.".to_string()));
    assert_eq!(b.message, "Not confirmed.\n\nNo backup.");
    assert!(b.undo.is_none());
}

#[test]
fn the_prefix_change_renames_only_what_differs() {
    let entries = vec![simple(":firma", "a"), simple(";hola", "b"), advanced("::regex")];
    match plan_prefix(&entries, ":") {
        PrefixPlan::Renames(v) => assert_eq!(v, vec![(";hola".to_string(), ":hola".to_string())]),
        _ => panic!("one rename expected"),
    }
    assert!(matches!(plan_prefix(&[simple(":firma", "a")], ":"), PrefixPlan::AlreadyApplied));
}

#[test]
fn a_prefix_change_that_would_collide_is_refused_and_names_each_repeat() {
    let entries = vec![simple(":hola", "a"), simple(";hola", "b"), simple("//hola", "c"), advanced(":x")];
    match plan_prefix(&entries, ":") {
        PrefixPlan::Collisions(c) => {
            assert_eq!(c, vec![":hola".to_string(), ":hola".to_string()]);
            let t = Lang::En.strings();
            assert_eq!(
                collision_message(&c, t),
                "The change was not applied: at least two expansions would end up with the same trigger (:hola, :hola). Please review them before changing the prefix."
            );
        }
        _ => panic!("a collision expected"),
    }
    // An advanced match keeps its trigger and still counts.
    let entries = vec![simple(";x", "a"), advanced(":x")];
    assert!(matches!(plan_prefix(&entries, ":"), PrefixPlan::Collisions(c) if c == vec![":x".to_string()]));
}

#[test]
fn applying_the_prefix_leaves_advanced_matches_alone() {
    let mut entries = vec![simple(";hola", "b"), advanced("::regex"), simple("firma", "c")];
    apply_prefix(&mut entries, "::");
    assert_eq!(triggers(&entries), vec!["::hola", "::regex", "::firma"]);
}

#[test]
fn the_confirmation_lists_eight_and_counts_the_rest() {
    let t = Lang::En.strings();
    let two = vec![(";a".to_string(), ":a".to_string()), (";b".to_string(), ":b".to_string())];
    assert_eq!(
        confirm_body(&two, t),
        "2 trigger(s) will be renamed:\n\n  ;a  →  :a\n  ;b  →  :b\n\nContinue?"
    );
    let ten: Vec<(String, String)> = (0..10).map(|i| (format!(";t{i}"), format!(":t{i}"))).collect();
    let body = confirm_body(&ten, t);
    assert!(body.starts_with("10 trigger(s) will be renamed:\n\n  ;t0  →  :t0\n"));
    assert!(body.contains("  ;t7  →  :t7\n  … and 2 more\n\nContinue?"));
    assert!(!body.contains(";t8"));
}

#[test]
fn a_blank_or_taken_trigger_is_refused_with_nothing_changed() {
    let t = Lang::En.strings();
    let mut entries = vec![simple(":firma", "a"), advanced(":oculto")];
    let mut settings = Settings::defaults();
    let mut sel = Selection::new();
    let r = apply_edit(&mut entries, &mut settings, &mut sel, &form("  ;; ", "x"), t);
    assert_eq!(r, Err("The trigger cannot be empty.".to_string()));
    let r = apply_edit(&mut entries, &mut settings, &mut sel, &form("oculto", "x"), t);
    assert_eq!(r, Err("Another expansion already uses the trigger \":oculto\".".to_string()));
    assert_eq!(entries.len(), 2);
    assert!(trigger_taken(&entries, None, ":firma"));
    assert!(!trigger_taken(&entries, Some(0), ":firma"));
}

#[test]
fn a_saved_edit_replaces_its_row_and_carries_folder_and_selection() {
    let t = Lang::En.strings();
    let mut entries = vec![simple(":firma", "a"), simple(":otra", "b")];
    let mut settings = Settings::defaults();
    settings.set_folder(":firma", Some("Trabajo".to_string()));
    let mut sel = Selection::new();
    sel.toggle_selected(":firma");
    let mut e = form("sig", "nuevo");
    e.editing_index = Some(0);
    e.folder = Some("Trabajo".to_string());
    assert_eq!(apply_edit(&mut entries, &mut settings, &mut sel, &e, t), Ok(()));
    assert_eq!(triggers(&entries), vec![":sig", ":otra"]);
    assert_eq!(settings.folder_of(":sig"), Some("Trabajo"));
    assert_eq!(settings.folder_of(":firma"), None);
    assert_eq!(sel.items(), vec![":sig".to_string()]);
    // A new one goes at the end, into a folder typed on the spot.
    let mut n = form("nueva", "c");
    n.choosing_new_folder = true;
    n.new_folder_input = "  Casa ".to_string();
    assert_eq!(apply_edit(&mut entries, &mut settings, &mut sel, &n, t), Ok(()));
    assert_eq!(triggers(&entries), vec![":sig", ":otra", ":nueva"]);
    assert_eq!(settings.folder_of(":nueva"), Some("Casa"));
}

#[test]
fn deleting_by_trigger_takes_folder_and_selection_along() {
    let mut entries = vec![simple(":a", "1"), simple(":b", "2"), simple(":a", "3"), simple(":c", "4")];
    let mut settings = Settings::defaults();
    settings.set_folder(":a", Some("F".to_string()));
    settings.set_folder(":c", Some("F".to_string()));
    let mut sel = Selection::new();
    sel.toggle_selected(":c");
    sel.toggle_selected(":a");
    remove_by_triggers(&mut entries, &mut settings, &mut sel, &[":a".to_string()]);
    assert_eq!(triggers(&entries), vec![":b", ":c"]);
    assert_eq!(settings.folder_of(":a"), None);
    assert_eq!(settings.folder_of(":c"), Some("F"));
    assert_eq!(sel.items(), vec![":c".to_string()]);
    assert_eq!(sel.anchor(), None);
    delete_at(&mut entries, &mut settings, &mut sel, 1);
    assert_eq!(triggers(&entries), vec![":b"]);
    assert_eq!(settings.folder_of(":c"), None);
    assert_eq!(sel.len(), 0);
}

#[test]
fn a_drop_moves_only_live_expansions_that_change_and_undo_puts_them_back() {
    let entries = vec![simple(":a", "1"), simple(":b", "2"), simple(":c", "3")];
    let mut settings = Settings::defaults();
    settings.set_folder(":a", Some("Casa".to_string()));
    settings.set_folder(":b", Some("Trabajo".to_string()));
    let dropped = vec![":a".to_string(), ":b".to_string(), ":c".to_string(), ":gone".to_string()];
    let moves = folder_moves(&entries, &settings, &dropped, Some("Trabajo"));
    assert_eq!(
        moves,
        vec![(":a".to_string(), Some("Casa".to_string())), (":c".to_string(), None)]
    );
    apply_moves(&mut settings, &moves, Some("Trabajo"));
    assert_eq!(settings.folder_of(":a"), Some("Trabajo"));
    assert_eq!(settings.folder_of(":c"), Some("Trabajo"));
    assert_eq!(settings.folder_of(":gone"), None);
    undo_moves(&mut settings, &moves);
    assert_eq!(settings.folder_of(":a"), Some("Casa"));
    assert_eq!(settings.folder_of(":b"), Some("Trabajo"));
    assert_eq!(settings.folder_of(":c"), None);
    // Dropping something where it already is says nothing at all.
    assert!(folder_moves(&entries, &settings, &[":c".to_string()], None).is_empty());
}

#[test]
fn the_move_banner_names_the_folder_or_its_absence() {
    let t = Lang::En.strings();
    assert_eq!(moved_message(2, Some("Casa"), t), "2 expansion(s) moved to \"Casa\".");
    assert_eq!(moved_message(1, None, t), "1 expansion(s) taken out of their folder.");
}

#[test]
fn a_folder_rename_is_trimmed_and_refused_onto_a_taken_name() {
    let mut settings = Settings::defaults();
    settings.set_folder(":a", Some("Casa".to_string()));
    settings.set_folder(":b", Some("Trabajo".to_string()));
    assert!(matches!(rename_folder(&mut settings, "Casa", "   "), FolderRename::Unchanged));
    assert!(matches!(rename_folder(&mut settings, "Casa", " Casa "), FolderRename::Unchanged));
    assert!(matches!(rename_folder(&mut settings, "Casa", "Trabajo"), FolderRename::Taken(n) if n == "Trabajo"));
    assert_eq!(settings.folder_of(":a"), Some("Casa"));
    assert!(matches!(rename_folder(&mut settings, "Casa", " Hogar "), FolderRename::Renamed(n) if n == "Hogar"));
    assert_eq!(settings.folder_of(":a"), Some("Hogar"));
    assert_eq!(settings.folder_of(":b"), Some("Trabajo"));
}

#[test]
fn confirmations_list_what_they_would_delete() {
    let t = Lang::En.strings();
    let entries = vec![simple(":b", "old"), simple(":a", "x"), simple(":b", "new")];
    let mut sel = Selection::new();
    sel.toggle_selected(":b");
    sel.toggle_selected(":a");
    sel.toggle_selected(":zz");
    assert_eq!(
        selection_items(&entries, &sel, t, now(), now()),
        vec![
            (":a".to_string(), "x".to_string()),
            (":b".to_string(), "new".to_string()),
            (":zz".to_string(), "".to_string()),
        ]
    );
    let mut settings = Settings::defaults();
    settings.set_folder(":b", Some("F".to_string()));
    assert_eq!(
        folder_items(&entries, &settings, "F", t, now(), now()),
        vec![(":b".to_string(), "old".to_string()), (":b".to_string(), "new".to_string())]
    );
    assert!(folder_items(&entries, &settings, "G", t, now(), now()).is_empty());
}

#[test]
fn delete_and_import_messages_count_what_happened() {
    let t = Lang::En.strings();
    assert_eq!(
        deleted_message(&PendingConfirmKind::DeleteFolder { folder: "F".to_string() }, 3, t),
        "Deleted the folder \"F\" and its 3 expansion(s)."
    );
    assert_eq!(deleted_message(&PendingConfirmKind::DeleteSelection, 2, t), "Deleted 2 expansion(s).");
    assert!(matches!(import_news(0, 4, t), ImportNews::NothingAdded(m) if m == t.import_none_added));
    assert!(matches!(import_news(2, 0, t), ImportNews::Added(m) if m == "Added: 2."));
    assert!(matches!(import_news(2, 1, t), ImportNews::Added(m) if m == "Added: 2. Skipped: 1 — that trigger was already in use."));
}

#[test]
fn a_symbol_prefix_applied_once_has_nothing_left_to_do() {
    let mut entries = vec![simple(";hola", "a"), simple("firma", "b"), simple("//", "c"), advanced("::x")];
    apply_prefix(&mut entries, ":");
    assert_eq!(triggers(&entries), vec![":hola".to_string(), ":firma".to_string(), ":".to_string(), "::x".to_string()]);
    assert!(matches!(plan_prefix(&entries, ":"), PrefixPlan::AlreadyApplied));
}
