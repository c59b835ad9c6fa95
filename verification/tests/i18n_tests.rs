use espanso_manager::i18n::{fill, Lang};
use espanso_manager::strings::Strings;

#[test]
fn a_substituted_value_is_never_scanned_again() {
    assert_eq!(
        fill(
            "Deleted \"{name}\" and its {n} expansions",
            &[("name", "{n}"), ("n", "3")]
        ),
        "Deleted \"{n}\" and its 3 expansions"
    );
}

#[test]
fn the_order_of_the_arguments_does_not_change_the_result() {
    let template = "{a} then {b}";
    let forwards = fill(template, &[("a", "{b}"), ("b", "second")]);
    let backwards = fill(template, &[("b", "second"), ("a", "{b}")]);
    assert_eq!(forwards, backwards);
    assert_eq!(forwards, "{b} then second");
}

#[test]
fn a_placeholder_with_no_argument_is_left_where_it_is() {
    assert_eq!(fill("failed: {err}", &[]), "failed: {err}");
    assert_eq!(fill("{a} and {b}", &[("a", "one")]), "one and {b}");
}

#[test]
fn stray_braces_pass_through_untouched() {
    assert_eq!(fill("100% {sure", &[("sure", "x")]), "100% {sure");
    assert_eq!(fill("saldo }{ raro", &[]), "saldo }{ raro");
    assert_eq!(fill("ñandú {n} पूर्ण", &[("n", "2")]), "ñandú 2 पूर्ण");
}

/// The `{token}`s in one string, sorted, ignoring anything that is not shaped like a placeholder.
fn placeholders(line: &'static str) -> Vec<&'static str> {
    let mut found = Vec::new();
    let mut rest = line;
    while let Some(open) = rest.find('{') {
        let after = &rest[open + 1..];
        match after.find('}') {
            Some(close) => {
                let key = &after[..close];
                if !key.is_empty() && key.chars().all(|c| c.is_ascii_alphabetic() || c == '_') {
                    found.push(key);
                }
                rest = &after[close + 1..];
            }
            None => rest = after,
        }
    }
    found.sort_unstable();
    found
}

/// Every field of one language table, by name.
fn fields(s: &Strings) -> Vec<(&'static str, &'static str)> {
    vec![
        ("app_title", s.app_title),
        ("settings_button", s.settings_button),
        ("tips_title", s.tips_title),
        ("tips_button_tip", s.tips_button_tip),
        ("tips_footer", s.tips_footer),
        ("tip_search_title", s.tip_search_title),
        ("tip_search_body", s.tip_search_body),
        ("onboarding_title", s.onboarding_title),
        ("onboarding_intro", s.onboarding_intro),
        ("onboarding_try_title", s.onboarding_try_title),
        ("onboarding_try_body", s.onboarding_try_body),
        ("onboarding_try_placeholder", s.onboarding_try_placeholder),
        ("onboarding_try_ok", s.onboarding_try_ok),
        ("onboarding_autostart_title", s.onboarding_autostart_title),
        ("onboarding_autostart_note", s.onboarding_autostart_note),
        ("onboarding_where_title", s.onboarding_where_title),
        ("onboarding_where_body", s.onboarding_where_body),
        ("onboarding_start", s.onboarding_start),
        ("search_window_hint", s.search_window_hint),
        ("search_window_empty", s.search_window_empty),
        ("search_window_footer", s.search_window_footer),
        ("tip_where_title", s.tip_where_title),
        ("tip_where_body", s.tip_where_body),
        ("tip_pin_title", s.tip_pin_title),
        ("tip_pin_body", s.tip_pin_body),
        ("tip_undo_title", s.tip_undo_title),
        ("tip_undo_body", s.tip_undo_body),
        ("tip_pause_title", s.tip_pause_title),
        ("tip_pause_body", s.tip_pause_body),
        ("tip_select_title", s.tip_select_title),
        ("tip_select_body", s.tip_select_body),
        ("new_expansion", s.new_expansion),
        ("search_label", s.search_label),
        ("empty_title", s.empty_title),
        ("empty_hint", s.empty_hint),
        ("no_matches", s.no_matches),
        ("view_comfortable_tip", s.view_comfortable_tip),
        ("view_compact_tip", s.view_compact_tip),
        ("prefix_field_hint", s.prefix_field_hint),
        ("word_field_hint", s.word_field_hint),
        ("trigger_preview", s.trigger_preview),
        ("made_by", s.made_by),
        ("credits_espanso", s.credits_espanso),
        ("edit_button", s.edit_button),
        ("edit_tip", s.edit_tip),
        ("delete", s.delete),
        ("delete_tip", s.delete_tip),
        ("rename_folder_tip", s.rename_folder_tip),
        ("delete_folder_tip", s.delete_folder_tip),
        ("save_name_tip", s.save_name_tip),
        ("cancel", s.cancel),
        ("cancel_tip", s.cancel_tip),
        ("selected_count", s.selected_count),
        ("remove_from_folder", s.remove_from_folder),
        ("delete_selected", s.delete_selected),
        ("clear_selection_tip", s.clear_selection_tip),
        ("moving_n", s.moving_n),
        ("confirm_delete_folder_title", s.confirm_delete_folder_title),
        ("confirm_delete_folder_body", s.confirm_delete_folder_body),
        ("confirm_delete_selection_title", s.confirm_delete_selection_title),
        ("confirm_delete_selection_body", s.confirm_delete_selection_body),
        ("see_more", s.see_more),
        ("edit_title_new", s.edit_title_new),
        ("edit_title_existing", s.edit_title_existing),
        ("when_you_type", s.when_you_type),
        ("will_be_replaced_by", s.will_be_replaced_by),
        ("kind_text", s.kind_text),
        ("kind_date", s.kind_date),
        ("preset_date_only", s.preset_date_only),
        ("preset_datetime_utc", s.preset_datetime_utc),
        ("preset_month_day_year", s.preset_month_day_year),
        ("preset_day_month_year", s.preset_day_month_year),
        ("month_language_label", s.month_language_label),
        ("month_language_hint", s.month_language_hint),
        ("preset_custom", s.preset_custom),
        ("blocks_hint", s.blocks_hint),
        ("blocks_empty", s.blocks_empty),
        ("blocks_fields", s.blocks_fields),
        ("blocks_separators", s.blocks_separators),
        ("blocks_remove_tip", s.blocks_remove_tip),
        ("blocks_advanced", s.blocks_advanced),
        ("block_year", s.block_year),
        ("block_month_name", s.block_month_name),
        ("block_month_number", s.block_month_number),
        ("block_day", s.block_day),
        ("block_hour", s.block_hour),
        ("block_hour_utc", s.block_hour_utc),
        ("blocks_utc_note", s.blocks_utc_note),
        ("block_minute", s.block_minute),
        ("block_space", s.block_space),
        ("format_label", s.format_label),
        ("folder_optional", s.folder_optional),
        ("no_folder", s.no_folder),
        ("new_folder_placeholder", s.new_folder_placeholder),
        ("add_new_folder", s.add_new_folder),
        ("name_label", s.name_label),
        ("save", s.save),
        ("back", s.back),
        ("settings_title", s.settings_title),
        ("autostart_section", s.autostart_section),
        ("autostart_checkbox", s.autostart_checkbox),
        ("autostart_hint", s.autostart_hint),
        ("appearance_section", s.appearance_section),
        ("theme_system", s.theme_system),
        ("theme_light", s.theme_light),
        ("theme_dark", s.theme_dark),
        ("theme_hint", s.theme_hint),
        ("language_section", s.language_section),
        ("language_hint", s.language_hint),
        ("transfer_section", s.transfer_section),
        ("transfer_hint", s.transfer_hint),
        ("export_button", s.export_button),
        ("import_button", s.import_button),
        ("transfer_file_kind", s.transfer_file_kind),
        ("export_done", s.export_done),
        ("export_error", s.export_error),
        ("import_done", s.import_done),
        ("import_done_skipped", s.import_done_skipped),
        ("import_none_added", s.import_none_added),
        ("import_not_ours", s.import_not_ours),
        ("import_error", s.import_error),
        ("prefix_section", s.prefix_section),
        ("prefix_hint", s.prefix_hint),
        ("custom_label", s.custom_label),
        ("apply_prefix", s.apply_prefix),
        ("apply_prefix_hint", s.apply_prefix_hint),
        ("banner_close_tip", s.banner_close_tip),
        ("undo", s.undo),
        ("move_undone", s.move_undone),
        ("autostart_on", s.autostart_on),
        ("autostart_off", s.autostart_off),
        ("autostart_error", s.autostart_error),
        ("prefix_save_error", s.prefix_save_error),
        ("view_save_error", s.view_save_error),
        ("language_save_error", s.language_save_error),
        ("theme_save_error", s.theme_save_error),
        ("prefix_already_applied", s.prefix_already_applied),
        ("prefix_collision", s.prefix_collision),
        ("prefix_confirm_title", s.prefix_confirm_title),
        ("prefix_confirm_body", s.prefix_confirm_body),
        ("prefix_confirm_more", s.prefix_confirm_more),
        ("prefix_applied", s.prefix_applied),
        ("delete_one_title", s.delete_one_title),
        ("delete_one_body", s.delete_one_body),
        ("expansion_deleted", s.expansion_deleted),
        ("trigger_empty", s.trigger_empty),
        ("trigger_duplicate", s.trigger_duplicate),
        ("trigger_shadow", s.trigger_shadow),
        ("expansion_saved", s.expansion_saved),
        ("folder_deleted", s.folder_deleted),
        ("selection_deleted", s.selection_deleted),
        ("folder_name_taken", s.folder_name_taken),
        ("folder_renamed", s.folder_renamed),
        ("moved_to_folder", s.moved_to_folder),
        ("removed_from_folder", s.removed_from_folder),
        ("preview_date", s.preview_date),
        ("preview_advanced_vars", s.preview_advanced_vars),
        ("preview_advanced", s.preview_advanced),
        ("err_read_file", s.err_read_file),
        ("err_parse_yaml", s.err_parse_yaml),
        ("err_self_check", s.err_self_check),
        ("err_write_file", s.err_write_file),
        ("save_backup_failed", s.save_backup_failed),
        ("save_flush_failed", s.save_flush_failed),
        ("err_validation_empty", s.err_validation_empty),
        ("err_validation_duplicate", s.err_validation_duplicate),
        ("err_espansod_missing", s.err_espansod_missing),
        ("err_espansod_timeout", s.err_espansod_timeout),
        ("err_espanso_start", s.err_espanso_start),
        ("err_espanso_no_response", s.err_espanso_no_response),
        ("err_restart_unconfirmed", s.err_restart_unconfirmed),
        ("err_espanso_action", s.err_espanso_action),
        ("err_espanso_comm", s.err_espanso_comm),
        ("verb_pause_timed", s.verb_pause_timed),
        ("verb_pause", s.verb_pause),
        ("verb_resume", s.verb_resume),
        ("verb_auto_resume", s.verb_auto_resume),
        ("tray_pause", s.tray_pause),
        ("tray_resume", s.tray_resume),
        ("tray_pause_10", s.tray_pause_10),
        ("tray_quit", s.tray_quit),
        ("tray_tooltip", s.tray_tooltip),
        ("already_running", s.already_running),
        ("instance_guard_warning", s.instance_guard_warning),
        ("settings_damaged", s.settings_damaged),
        ("settings_damaged_lost", s.settings_damaged_lost),
        ("settings_unreadable", s.settings_unreadable),
        ("panic_title", s.panic_title),
        ("panic_body", s.panic_body),
        ("tray_error", s.tray_error),
        ("startup_espanso_warning", s.startup_espanso_warning),
        ("config_patch_warning", s.config_patch_warning),
        ("hindi_font_missing", s.hindi_font_missing),
    ]
}

/// Every field of one language table, paired with the placeholders in its value, by key.
fn table(lang: Lang) -> Vec<(&'static str, Vec<&'static str>)> {
    let mut rows: Vec<(&'static str, Vec<&'static str>)> = fields(lang.strings())
        .into_iter()
        .map(|(key, value)| (key, placeholders(value)))
        .collect();
    rows.sort_by_key(|(key, _)| *key);
    rows
}

/// The struct guarantees that every language has every string; this checks what is inside them:
/// `{nombre}` written where English has `{name}`, or `{err}` dropped from a failure message,
/// breaks one language only and no compiler will ever mention it.
#[test]
fn placeholders_agree_across_languages() {
    let count = fields(Lang::En.strings()).len();
    assert!(count > 100, "only {count} fields are listed — the list has stopped covering the table");

    let en = table(Lang::En);
    assert_eq!(en.len(), count, "EN does not have one line per struct field");

    for lang in [Lang::Es, Lang::Fil, Lang::Hi] {
        let other = table(lang);
        assert_eq!(other.len(), count, "a language does not have one line per struct field");
        for ((en_key, en_ph), (key, ph)) in en.iter().zip(other.iter()) {
            assert_eq!(en_key, key, "a language is missing `{en_key}`");
            assert_eq!(en_ph, ph, "`{key}` uses {ph:?} where English uses {en_ph:?}");
        }
    }
}
