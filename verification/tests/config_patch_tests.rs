use espanso_manager::config_patch::{ensure_managed_settings, patch, restore_espanso_icon, set_search_shortcut};

const ONE: [(&str, &str, &str); 1] = [("show_icon", "false", "# note")];

#[test]
fn a_top_level_key_is_rewritten_where_it_stands() {
    let out = patch("backend: Auto\nshow_icon: true\n", &ONE).expect("something to change");
    assert_eq!(out, "backend: Auto\nshow_icon: false\n");
    // Running it again has nothing left to do.
    assert!(patch(&out, &ONE).is_none());
}

#[test]
fn an_indented_line_is_somebody_elses_text_and_is_left_alone() {
    let out = patch("note: |\n  show_icon: true\n", &ONE).expect("something to change");
    assert!(out.contains("  show_icon: true"));
    assert!(out.contains("\nshow_icon: false"));
}

#[test]
fn a_commented_out_key_is_not_active_and_does_not_count() {
    let out = patch("# show_icon: true\n", &ONE).expect("something to change");
    assert!(out.contains("# show_icon: true"));
    assert!(out.contains("\nshow_icon: false"));
}

#[test]
fn the_file_keeps_the_line_endings_it_arrived_with() {
    let out = patch("backend: Auto\r\nshow_icon: true\r\n", &ONE).expect("something to change");
    assert_eq!(out, "backend: Auto\r\nshow_icon: false\r\n");
}

#[test]
fn an_appended_key_on_a_crlf_file_uses_crlf_too() {
    let out = patch("backend: Auto\r\n", &ONE).expect("something to change");
    assert!(!out.contains('\n') || out.matches('\n').count() == out.matches("\r\n").count());
    assert!(out.contains("\r\nshow_icon: false"));
}

#[test]
fn a_missing_key_is_appended_after_a_blank_line_with_its_note() {
    assert_eq!(
        patch("backend: Auto\n", &ONE),
        Some("backend: Auto\n\n# note\nshow_icon: false\n".to_string())
    );
    // An empty file gets no blank line in front, and no final newline it never had.
    assert_eq!(patch("", &ONE), Some("# note\nshow_icon: false".to_string()));
}

#[test]
fn a_value_with_trailing_spaces_already_holds() {
    assert!(patch("show_icon: false   \n", &ONE).is_none());
    assert!(patch("show_icon :  false\n", &ONE).is_some());
}

#[test]
fn the_managed_settings_are_applied_together_and_settle() {
    let out = ensure_managed_settings("show_icon: true\n").expect("something to change");
    assert!(out.starts_with("show_icon: false\n"));
    assert!(out.contains("\nshow_notifications: false\n"));
    assert!(ensure_managed_settings(&out).is_none());
}

#[test]
fn the_icon_can_be_given_back_and_the_shortcut_handed_over() {
    let out = restore_espanso_icon("show_icon: false\n").expect("something to change");
    assert_eq!(out, "show_icon: true\n");
    let out = set_search_shortcut("backend: Auto\n", "OFF").expect("something to change");
    assert!(out.ends_with("search_shortcut: OFF\n"));
    assert!(set_search_shortcut(&out, "OFF").is_none());
    let back = set_search_shortcut(&out, "ALT+SPACE").expect("something to change");
    assert!(back.ends_with("search_shortcut: ALT+SPACE\n"));
}
