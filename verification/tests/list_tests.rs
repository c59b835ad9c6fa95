use espanso_manager::datefmt::Now;
use espanso_manager::i18n::Lang;
use espanso_manager::list::{build_list, truncate, visible_order, ListCache, PREVIEW_MAX_CHARS};
use espanso_manager::model::{AdvancedMatch, MatchEntry, SimpleMatch};
use espanso_manager::search::{hits, list_all, MAX_RESULTS};
use espanso_manager::selection::Selection;
use espanso_manager::settings::Settings;
use espanso_manager::search::{search_keys, SearchKeys, SearchStep};

fn now() -> Now {
    Now { year: 2026, month: 9, day: 5, hour: 15, minute: 20, second: 0, day_of_week: 6 }
}

fn simple(trigger: &str, replace: &str) -> MatchEntry {
    MatchEntry::Simple(SimpleMatch {
        trigger: trigger.to_string(),
        replace: replace.to_string(),
        vars: vec![],
        label: None,
    })
}

fn advanced(trigger: &str) -> MatchEntry {
    MatchEntry::Advanced(AdvancedMatch {
        trigger: trigger.to_string(),
        yaml: format!("trigger: '{trigger}'\nreplace: '{{{{output}}}}'\nvars:\n- name: output\n  type: shell\n"),
    })
}

fn rows(list: &ListCache) -> Vec<(String, String)> {
    list.rows.iter().map(|r| (r.trigger.clone(), r.preview.clone())).collect()
}

#[test]
fn truncate_counts_characters_and_marks_the_cut() {
    assert_eq!(truncate("hola", 4), "hola");
    assert_eq!(truncate("hola", 3), "hol…");
    assert_eq!(truncate("ñandú", 2), "ña…");
    assert_eq!(truncate("पूर्ण", 1), "प…");
    assert_eq!(truncate("", 0), "");
}

#[test]
fn the_list_shows_only_what_the_form_can_edit_and_flattens_previews() {
    let t = Lang::En.strings();
    let entries = vec![simple(":a", "line one\nline two"), advanced(":shell"), simple(":b", "bee")];
    let list = build_list(&entries, &Settings::defaults(), "", t, now(), now());
    assert_eq!(
        rows(&list),
        vec![(":a".to_string(), "line one line two".to_string()), (":b".to_string(), "bee".to_string())]
    );
    assert_eq!(list.total_entries, 3);
    assert!(list.grouped.is_empty());
    assert_eq!(list.ungrouped, vec![0, 1]);
}

#[test]
fn a_long_preview_is_cut_to_the_row_budget() {
    let t = Lang::En.strings();
    let long = "x".repeat(PREVIEW_MAX_CHARS + 5);
    let list = build_list(&[simple(":long", &long)], &Settings::defaults(), "", t, now(), now());
    assert_eq!(list.rows[0].preview.chars().count(), PREVIEW_MAX_CHARS + 1);
    assert!(list.rows[0].preview.ends_with('…'));
}

#[test]
fn the_search_ignores_case_and_looks_at_trigger_and_text() {
    let t = Lang::En.strings();
    let entries = vec![simple(":firma", "Saludos"), simple(":hola", "Buenos días, FIRMADO"), simple(":x", "nada")];
    let list = build_list(&entries, &Settings::defaults(), "FIRMA", t, now(), now());
    let found: Vec<String> = list.rows.iter().map(|r| r.trigger.clone()).collect();
    assert_eq!(found, vec![":firma".to_string(), ":hola".to_string()]);
    let none = build_list(&entries, &Settings::defaults(), "zzz", t, now(), now());
    assert!(none.rows.is_empty());
    assert_eq!(none.total_entries, 3);
}

#[test]
fn rows_fall_into_folders_a_to_z_keeping_their_order() {
    let t = Lang::En.strings();
    let mut settings = Settings::defaults();
    settings.set_folder(":c", Some("Zeta".to_string()));
    settings.set_folder(":a", Some("Alfa".to_string()));
    settings.set_folder(":d", Some("Alfa".to_string()));
    let entries = vec![simple(":a", "1"), simple(":b", "2"), simple(":c", "3"), simple(":d", "4")];
    let list = build_list(&entries, &settings, "", t, now(), now());
    assert_eq!(
        list.grouped,
        vec![("Alfa".to_string(), vec![0, 3]), ("Zeta".to_string(), vec![2])]
    );
    assert_eq!(list.ungrouped, vec![1]);
    assert_eq!(visible_order(&list, &[true, true]), vec![":a", ":d", ":c", ":b"]);
    assert_eq!(visible_order(&list, &[false, true]), vec![":c", ":b"]);
    assert_eq!(visible_order(&list, &[]), vec![":b"]);
}

#[test]
fn search_hits_put_trigger_matches_first() {
    let t = Lang::En.strings();
    let entries = vec![simple(":x", "mentions firma inside"), advanced(":firma_shell"), simple(":firma", "sig")];
    let all = list_all(&entries, t, now(), now());
    assert_eq!(all, vec![(":x".to_string(), "mentions firma inside".to_string()), (":firma".to_string(), "sig".to_string())]);
    let found = hits(all.clone(), "  FIRMA ");
    let order: Vec<String> = found.iter().map(|h| h.trigger.clone()).collect();
    assert_eq!(order, vec![":firma".to_string(), ":x".to_string()]);
    assert_eq!(hits(all.clone(), "").len(), 2);
    assert!(hits(all, "nothing like it").is_empty());
}

#[test]
fn search_hits_stop_at_the_cap() {
    let all: Vec<(String, String)> = (0..MAX_RESULTS + 10).map(|i| (format!(":t{i}"), "x".to_string())).collect();
    assert_eq!(hits(all, "").len(), MAX_RESULTS);
}

#[test]
fn ctrl_click_twice_gives_back_the_same_selection() {
    let order: Vec<String> = vec![":a".into(), ":b".into(), ":c".into()];
    let mut s = Selection::new();
    s.click_select(":a", false, false, &order);
    s.click_select(":b", true, false, &order);
    assert_eq!(s.items(), vec![":a".to_string(), ":b".to_string()]);
    s.click_select(":c", true, false, &order);
    s.click_select(":c", true, false, &order);
    assert_eq!(s.items(), vec![":a".to_string(), ":b".to_string()]);
}

#[test]
fn a_plain_click_selects_one_and_a_second_one_deselects() {
    let order: Vec<String> = vec![":a".into(), ":b".into()];
    let mut s = Selection::new();
    s.click_select(":b", false, false, &order);
    assert_eq!(s.items(), vec![":b".to_string()]);
    assert_eq!(s.anchor(), Some(":b"));
    s.click_select(":b", false, false, &order);
    assert_eq!(s.len(), 0);
    assert_eq!(s.anchor(), None);
}

#[test]
fn a_shift_click_covers_the_range_as_drawn_and_keeps_the_anchor() {
    let order: Vec<String> = vec![":d".into(), ":a".into(), ":c".into(), ":b".into()];
    let mut s = Selection::new();
    s.click_select(":a", false, false, &order);
    s.click_select(":b", false, true, &order);
    assert_eq!(s.items(), vec![":a".to_string(), ":b".to_string(), ":c".to_string()]);
    assert_eq!(s.anchor(), Some(":a"));
    s.click_select(":d", false, true, &order);
    assert_eq!(s.items(), vec![":a".to_string(), ":d".to_string()]);
    // With no anchor on screen a Shift-click is a plain click.
    let mut fresh = Selection::new();
    fresh.click_select(":c", false, true, &order);
    assert_eq!(fresh.items(), vec![":c".to_string()]);
}

#[test]
fn a_renamed_or_deleted_trigger_is_followed_through_the_selection() {
    let order: Vec<String> = vec![":a".into(), ":b".into()];
    let mut s = Selection::new();
    s.toggle_selected(":a");
    s.toggle_selected(":b");
    s.rename(":b", ":z");
    assert_eq!(s.items(), vec![":a".to_string(), ":z".to_string()]);
    assert_eq!(s.anchor(), Some(":z"));
    s.forget(":z");
    assert_eq!(s.items(), vec![":a".to_string()]);
    assert_eq!(s.anchor(), None);
    assert!(s.contains(":a"));
    assert!(!s.contains(":b"));
    let _ = order;
}

#[test]
fn only_a_filed_selection_offers_to_leave_its_folder() {
    let mut settings = Settings::defaults();
    let mut s = Selection::new();
    s.toggle_selected(":a");
    assert!(!s.has_foldered(&settings));
    settings.set_folder(":a", Some("Trabajo".to_string()));
    assert!(s.has_foldered(&settings));
    s.clear();
    assert!(!s.has_foldered(&settings));
}

#[test]
fn a_drag_carries_the_selection_only_from_a_checked_row() {
    let mut sel = Selection::new();
    sel.toggle_selected(":b");
    sel.toggle_selected(":a");
    assert_eq!(sel.drag_payload(":b"), vec![":a".to_string(), ":b".to_string()]);
    assert_eq!(sel.drag_payload(":c"), vec![":c".to_string()]);
}

#[test]
fn the_search_highlight_wraps_both_ways_and_enter_picks_it() {
    let none = SearchKeys { up: false, down: false, enter: false, escape: false };
    let down = SearchKeys { down: true, ..none };
    let up = SearchKeys { up: true, ..none };
    assert_eq!(search_keys(2, 3, down), (0, true, SearchStep::Browse));
    assert_eq!(search_keys(0, 3, up), (2, true, SearchStep::Browse));
    assert_eq!(search_keys(1, 3, SearchKeys { enter: true, ..none }), (1, false, SearchStep::Choose(1)));
    assert_eq!(search_keys(7, 3, none), (2, false, SearchStep::Browse), "kept inside a shrunk list");
    assert_eq!(search_keys(4, 0, SearchKeys { enter: true, down: true, ..none }), (0, false, SearchStep::Browse));
    assert_eq!(search_keys(1, 3, SearchKeys { escape: true, enter: true, ..none }).2, SearchStep::Close);
}
