//! The `{key}` placeholders of a sentence, and the proof that every translation keeps exactly the
//! placeholders of the English sentence it translates: none dropped, renamed or added.

use vstd::prelude::*;

verus! {

/// A character a placeholder name may hold: an ASCII letter or `_`.
pub open spec fn key_char(c: char) -> bool {
    ('a' <= c && c <= 'z') || ('A' <= c && c <= 'Z') || c == '_'
}

/// The run of name characters at the start of `s`.
pub open spec fn key_run(s: Seq<char>) -> Seq<char>
    decreases s.len(),
{
    if s.len() > 0 && key_char(s[0]) {
        seq![s[0]] + key_run(s.drop_first())
    } else {
        Seq::empty()
    }
}

/// The names of the `{key}` placeholders in `s`, in order: a `{`, a non-empty name, a `}`.
pub open spec fn placeholder_keys(s: Seq<char>) -> Seq<Seq<char>>
    decreases s.len(),
{
    if s.len() == 0 {
        Seq::empty()
    } else if s[0] == '{' && key_run(s.drop_first()).len() > 0 && key_run(s.drop_first()).len() + 1 < s.len()
        && s[key_run(s.drop_first()).len() + 1 as int] == '}' {
        seq![key_run(s.drop_first())] + placeholder_keys(s.subrange(key_run(s.drop_first()).len() + 2 as int, s.len() as int))
    } else {
        placeholder_keys(s.drop_first())
    }
}

proof fn lemma_keys_skip(s: Seq<char>, i: int)
    requires
        0 <= i <= s.len(),
        forall|j: int| 0 <= j < i ==> s[j] != '{',
    ensures
        placeholder_keys(s) == placeholder_keys(s.subrange(i, s.len() as int)),
    decreases i,
{
    if i == 0 {
        assert(s.subrange(0, s.len() as int) =~= s);
    } else {
        let t = s.drop_first();
        assert forall|j: int| 0 <= j < i - 1 implies t[j] != '{' by {
            assert(t[j] == s[j + 1]);
        }
        lemma_keys_skip(t, i - 1);
        assert(t.subrange(i - 1, t.len() as int) =~= s.subrange(i, s.len() as int));
    }
}

proof fn lemma_key_run(s: Seq<char>, n: int)
    requires
        0 <= n <= s.len(),
        forall|j: int| 0 <= j < n ==> key_char(#[trigger] s[j]),
        n == s.len() || !key_char(s[n]),
    ensures
        key_run(s) == s.subrange(0, n),
    decreases n,
{
    if n == 0 {
        assert(s.subrange(0, 0) =~= Seq::<char>::empty());
    } else {
        let t = s.drop_first();
        assert forall|j: int| 0 <= j < n - 1 implies key_char(#[trigger] t[j]) by {
            assert(t[j] == s[j + 1]);
            assert(key_char(s[j + 1]));
        }
        if n < s.len() {
            assert(t[n - 1] == s[n]);
        }
        lemma_key_run(t, n - 1);
        assert(key_char(s[0]));
        assert(seq![s[0]] + t.subrange(0, n - 1) =~= s.subrange(0, n));
    }
}

proof fn lemma_keys_token(s: Seq<char>, n: int)
    requires
        0 < n,
        n + 1 < s.len(),
        s[0] == '{',
        forall|j: int| 1 <= j <= n ==> key_char(#[trigger] s[j]),
        s[n + 1] == '}',
    ensures
        placeholder_keys(s) == seq![s.subrange(1, n + 1)] + placeholder_keys(s.subrange(n + 2, s.len() as int)),
{
    let t = s.drop_first();
    assert forall|j: int| 0 <= j < n implies key_char(#[trigger] t[j]) by {
        assert(t[j] == s[j + 1]);
        assert(key_char(s[j + 1]));
    }
    assert(t[n] == s[n + 1]);
    assert(!key_char(t[n]));
    lemma_key_run(t, n);
    assert(t.subrange(0, n) =~= s.subrange(1, n + 1));
}

proof fn lemma_keys_brace_alone(s: Seq<char>)
    requires
        s.len() > 0,
        s[0] == '{',
        !(key_run(s.drop_first()).len() > 0 && key_run(s.drop_first()).len() + 1 < s.len()
            && s[key_run(s.drop_first()).len() + 1 as int] == '}'),
    ensures
        placeholder_keys(s) == placeholder_keys(s.drop_first()),
{
}


/// Every sentence of `a` has the placeholders of the same sentence of `b`, counted with repeats
/// and in any order.
pub open spec fn same_placeholders(a: crate::strings::Strings, b: crate::strings::Strings) -> bool {
    &&& placeholder_keys(a.app_title@).to_multiset() == placeholder_keys(b.app_title@).to_multiset()
    &&& placeholder_keys(a.settings_button@).to_multiset() == placeholder_keys(b.settings_button@).to_multiset()
    &&& placeholder_keys(a.tips_title@).to_multiset() == placeholder_keys(b.tips_title@).to_multiset()
    &&& placeholder_keys(a.tips_button_tip@).to_multiset() == placeholder_keys(b.tips_button_tip@).to_multiset()
    &&& placeholder_keys(a.tips_footer@).to_multiset() == placeholder_keys(b.tips_footer@).to_multiset()
    &&& placeholder_keys(a.tip_search_title@).to_multiset() == placeholder_keys(b.tip_search_title@).to_multiset()
    &&& placeholder_keys(a.tip_search_body@).to_multiset() == placeholder_keys(b.tip_search_body@).to_multiset()
    &&& placeholder_keys(a.onboarding_title@).to_multiset() == placeholder_keys(b.onboarding_title@).to_multiset()
    &&& placeholder_keys(a.onboarding_intro@).to_multiset() == placeholder_keys(b.onboarding_intro@).to_multiset()
    &&& placeholder_keys(a.onboarding_try_title@).to_multiset() == placeholder_keys(b.onboarding_try_title@).to_multiset()
    &&& placeholder_keys(a.onboarding_try_body@).to_multiset() == placeholder_keys(b.onboarding_try_body@).to_multiset()
    &&& placeholder_keys(a.onboarding_try_placeholder@).to_multiset() == placeholder_keys(b.onboarding_try_placeholder@).to_multiset()
    &&& placeholder_keys(a.onboarding_try_ok@).to_multiset() == placeholder_keys(b.onboarding_try_ok@).to_multiset()
    &&& placeholder_keys(a.onboarding_autostart_title@).to_multiset() == placeholder_keys(b.onboarding_autostart_title@).to_multiset()
    &&& placeholder_keys(a.onboarding_autostart_note@).to_multiset() == placeholder_keys(b.onboarding_autostart_note@).to_multiset()
    &&& placeholder_keys(a.onboarding_where_title@).to_multiset() == placeholder_keys(b.onboarding_where_title@).to_multiset()
    &&& placeholder_keys(a.onboarding_where_body@).to_multiset() == placeholder_keys(b.onboarding_where_body@).to_multiset()
    &&& placeholder_keys(a.onboarding_start@).to_multiset() == placeholder_keys(b.onboarding_start@).to_multiset()
    &&& placeholder_keys(a.search_window_hint@).to_multiset() == placeholder_keys(b.search_window_hint@).to_multiset()
    &&& placeholder_keys(a.search_window_empty@).to_multiset() == placeholder_keys(b.search_window_empty@).to_multiset()
    &&& placeholder_keys(a.search_window_footer@).to_multiset() == placeholder_keys(b.search_window_footer@).to_multiset()
    &&& placeholder_keys(a.tip_where_title@).to_multiset() == placeholder_keys(b.tip_where_title@).to_multiset()
    &&& placeholder_keys(a.tip_where_body@).to_multiset() == placeholder_keys(b.tip_where_body@).to_multiset()
    &&& placeholder_keys(a.tip_pin_title@).to_multiset() == placeholder_keys(b.tip_pin_title@).to_multiset()
    &&& placeholder_keys(a.tip_pin_body@).to_multiset() == placeholder_keys(b.tip_pin_body@).to_multiset()
    &&& placeholder_keys(a.tip_undo_title@).to_multiset() == placeholder_keys(b.tip_undo_title@).to_multiset()
    &&& placeholder_keys(a.tip_undo_body@).to_multiset() == placeholder_keys(b.tip_undo_body@).to_multiset()
    &&& placeholder_keys(a.tip_pause_title@).to_multiset() == placeholder_keys(b.tip_pause_title@).to_multiset()
    &&& placeholder_keys(a.tip_pause_body@).to_multiset() == placeholder_keys(b.tip_pause_body@).to_multiset()
    &&& placeholder_keys(a.tip_select_title@).to_multiset() == placeholder_keys(b.tip_select_title@).to_multiset()
    &&& placeholder_keys(a.tip_select_body@).to_multiset() == placeholder_keys(b.tip_select_body@).to_multiset()
    &&& placeholder_keys(a.new_expansion@).to_multiset() == placeholder_keys(b.new_expansion@).to_multiset()
    &&& placeholder_keys(a.search_label@).to_multiset() == placeholder_keys(b.search_label@).to_multiset()
    &&& placeholder_keys(a.empty_title@).to_multiset() == placeholder_keys(b.empty_title@).to_multiset()
    &&& placeholder_keys(a.empty_hint@).to_multiset() == placeholder_keys(b.empty_hint@).to_multiset()
    &&& placeholder_keys(a.no_matches@).to_multiset() == placeholder_keys(b.no_matches@).to_multiset()
    &&& placeholder_keys(a.view_comfortable_tip@).to_multiset() == placeholder_keys(b.view_comfortable_tip@).to_multiset()
    &&& placeholder_keys(a.view_compact_tip@).to_multiset() == placeholder_keys(b.view_compact_tip@).to_multiset()
    &&& placeholder_keys(a.prefix_field_hint@).to_multiset() == placeholder_keys(b.prefix_field_hint@).to_multiset()
    &&& placeholder_keys(a.word_field_hint@).to_multiset() == placeholder_keys(b.word_field_hint@).to_multiset()
    &&& placeholder_keys(a.trigger_preview@).to_multiset() == placeholder_keys(b.trigger_preview@).to_multiset()
    &&& placeholder_keys(a.made_by@).to_multiset() == placeholder_keys(b.made_by@).to_multiset()
    &&& placeholder_keys(a.credits_espanso@).to_multiset() == placeholder_keys(b.credits_espanso@).to_multiset()
    &&& placeholder_keys(a.edit_button@).to_multiset() == placeholder_keys(b.edit_button@).to_multiset()
    &&& placeholder_keys(a.edit_tip@).to_multiset() == placeholder_keys(b.edit_tip@).to_multiset()
    &&& placeholder_keys(a.delete@).to_multiset() == placeholder_keys(b.delete@).to_multiset()
    &&& placeholder_keys(a.delete_tip@).to_multiset() == placeholder_keys(b.delete_tip@).to_multiset()
    &&& placeholder_keys(a.rename_folder_tip@).to_multiset() == placeholder_keys(b.rename_folder_tip@).to_multiset()
    &&& placeholder_keys(a.delete_folder_tip@).to_multiset() == placeholder_keys(b.delete_folder_tip@).to_multiset()
    &&& placeholder_keys(a.save_name_tip@).to_multiset() == placeholder_keys(b.save_name_tip@).to_multiset()
    &&& placeholder_keys(a.cancel@).to_multiset() == placeholder_keys(b.cancel@).to_multiset()
    &&& placeholder_keys(a.cancel_tip@).to_multiset() == placeholder_keys(b.cancel_tip@).to_multiset()
    &&& placeholder_keys(a.selected_count@).to_multiset() == placeholder_keys(b.selected_count@).to_multiset()
    &&& placeholder_keys(a.remove_from_folder@).to_multiset() == placeholder_keys(b.remove_from_folder@).to_multiset()
    &&& placeholder_keys(a.delete_selected@).to_multiset() == placeholder_keys(b.delete_selected@).to_multiset()
    &&& placeholder_keys(a.clear_selection_tip@).to_multiset() == placeholder_keys(b.clear_selection_tip@).to_multiset()
    &&& placeholder_keys(a.moving_n@).to_multiset() == placeholder_keys(b.moving_n@).to_multiset()
    &&& placeholder_keys(a.confirm_delete_folder_title@).to_multiset() == placeholder_keys(b.confirm_delete_folder_title@).to_multiset()
    &&& placeholder_keys(a.confirm_delete_folder_body@).to_multiset() == placeholder_keys(b.confirm_delete_folder_body@).to_multiset()
    &&& placeholder_keys(a.confirm_delete_selection_title@).to_multiset() == placeholder_keys(b.confirm_delete_selection_title@).to_multiset()
    &&& placeholder_keys(a.confirm_delete_selection_body@).to_multiset() == placeholder_keys(b.confirm_delete_selection_body@).to_multiset()
    &&& placeholder_keys(a.see_more@).to_multiset() == placeholder_keys(b.see_more@).to_multiset()
    &&& placeholder_keys(a.edit_title_new@).to_multiset() == placeholder_keys(b.edit_title_new@).to_multiset()
    &&& placeholder_keys(a.edit_title_existing@).to_multiset() == placeholder_keys(b.edit_title_existing@).to_multiset()
    &&& placeholder_keys(a.when_you_type@).to_multiset() == placeholder_keys(b.when_you_type@).to_multiset()
    &&& placeholder_keys(a.will_be_replaced_by@).to_multiset() == placeholder_keys(b.will_be_replaced_by@).to_multiset()
    &&& placeholder_keys(a.kind_text@).to_multiset() == placeholder_keys(b.kind_text@).to_multiset()
    &&& placeholder_keys(a.kind_date@).to_multiset() == placeholder_keys(b.kind_date@).to_multiset()
    &&& placeholder_keys(a.preset_date_only@).to_multiset() == placeholder_keys(b.preset_date_only@).to_multiset()
    &&& placeholder_keys(a.preset_datetime_utc@).to_multiset() == placeholder_keys(b.preset_datetime_utc@).to_multiset()
    &&& placeholder_keys(a.preset_month_day_year@).to_multiset() == placeholder_keys(b.preset_month_day_year@).to_multiset()
    &&& placeholder_keys(a.preset_day_month_year@).to_multiset() == placeholder_keys(b.preset_day_month_year@).to_multiset()
    &&& placeholder_keys(a.month_language_label@).to_multiset() == placeholder_keys(b.month_language_label@).to_multiset()
    &&& placeholder_keys(a.month_language_hint@).to_multiset() == placeholder_keys(b.month_language_hint@).to_multiset()
    &&& placeholder_keys(a.preset_custom@).to_multiset() == placeholder_keys(b.preset_custom@).to_multiset()
    &&& placeholder_keys(a.blocks_hint@).to_multiset() == placeholder_keys(b.blocks_hint@).to_multiset()
    &&& placeholder_keys(a.blocks_empty@).to_multiset() == placeholder_keys(b.blocks_empty@).to_multiset()
    &&& placeholder_keys(a.blocks_fields@).to_multiset() == placeholder_keys(b.blocks_fields@).to_multiset()
    &&& placeholder_keys(a.blocks_separators@).to_multiset() == placeholder_keys(b.blocks_separators@).to_multiset()
    &&& placeholder_keys(a.blocks_remove_tip@).to_multiset() == placeholder_keys(b.blocks_remove_tip@).to_multiset()
    &&& placeholder_keys(a.blocks_advanced@).to_multiset() == placeholder_keys(b.blocks_advanced@).to_multiset()
    &&& placeholder_keys(a.block_year@).to_multiset() == placeholder_keys(b.block_year@).to_multiset()
    &&& placeholder_keys(a.block_month_name@).to_multiset() == placeholder_keys(b.block_month_name@).to_multiset()
    &&& placeholder_keys(a.block_month_number@).to_multiset() == placeholder_keys(b.block_month_number@).to_multiset()
    &&& placeholder_keys(a.block_day@).to_multiset() == placeholder_keys(b.block_day@).to_multiset()
    &&& placeholder_keys(a.block_hour@).to_multiset() == placeholder_keys(b.block_hour@).to_multiset()
    &&& placeholder_keys(a.block_hour_utc@).to_multiset() == placeholder_keys(b.block_hour_utc@).to_multiset()
    &&& placeholder_keys(a.blocks_utc_note@).to_multiset() == placeholder_keys(b.blocks_utc_note@).to_multiset()
    &&& placeholder_keys(a.block_minute@).to_multiset() == placeholder_keys(b.block_minute@).to_multiset()
    &&& placeholder_keys(a.block_space@).to_multiset() == placeholder_keys(b.block_space@).to_multiset()
    &&& placeholder_keys(a.format_label@).to_multiset() == placeholder_keys(b.format_label@).to_multiset()
    &&& placeholder_keys(a.folder_optional@).to_multiset() == placeholder_keys(b.folder_optional@).to_multiset()
    &&& placeholder_keys(a.no_folder@).to_multiset() == placeholder_keys(b.no_folder@).to_multiset()
    &&& placeholder_keys(a.new_folder_placeholder@).to_multiset() == placeholder_keys(b.new_folder_placeholder@).to_multiset()
    &&& placeholder_keys(a.add_new_folder@).to_multiset() == placeholder_keys(b.add_new_folder@).to_multiset()
    &&& placeholder_keys(a.name_label@).to_multiset() == placeholder_keys(b.name_label@).to_multiset()
    &&& placeholder_keys(a.save@).to_multiset() == placeholder_keys(b.save@).to_multiset()
    &&& placeholder_keys(a.back@).to_multiset() == placeholder_keys(b.back@).to_multiset()
    &&& placeholder_keys(a.settings_title@).to_multiset() == placeholder_keys(b.settings_title@).to_multiset()
    &&& placeholder_keys(a.autostart_section@).to_multiset() == placeholder_keys(b.autostart_section@).to_multiset()
    &&& placeholder_keys(a.autostart_checkbox@).to_multiset() == placeholder_keys(b.autostart_checkbox@).to_multiset()
    &&& placeholder_keys(a.autostart_hint@).to_multiset() == placeholder_keys(b.autostart_hint@).to_multiset()
    &&& placeholder_keys(a.appearance_section@).to_multiset() == placeholder_keys(b.appearance_section@).to_multiset()
    &&& placeholder_keys(a.theme_system@).to_multiset() == placeholder_keys(b.theme_system@).to_multiset()
    &&& placeholder_keys(a.theme_light@).to_multiset() == placeholder_keys(b.theme_light@).to_multiset()
    &&& placeholder_keys(a.theme_dark@).to_multiset() == placeholder_keys(b.theme_dark@).to_multiset()
    &&& placeholder_keys(a.theme_hint@).to_multiset() == placeholder_keys(b.theme_hint@).to_multiset()
    &&& placeholder_keys(a.language_section@).to_multiset() == placeholder_keys(b.language_section@).to_multiset()
    &&& placeholder_keys(a.language_hint@).to_multiset() == placeholder_keys(b.language_hint@).to_multiset()
    &&& placeholder_keys(a.transfer_section@).to_multiset() == placeholder_keys(b.transfer_section@).to_multiset()
    &&& placeholder_keys(a.transfer_hint@).to_multiset() == placeholder_keys(b.transfer_hint@).to_multiset()
    &&& placeholder_keys(a.export_button@).to_multiset() == placeholder_keys(b.export_button@).to_multiset()
    &&& placeholder_keys(a.import_button@).to_multiset() == placeholder_keys(b.import_button@).to_multiset()
    &&& placeholder_keys(a.transfer_file_kind@).to_multiset() == placeholder_keys(b.transfer_file_kind@).to_multiset()
    &&& placeholder_keys(a.export_done@).to_multiset() == placeholder_keys(b.export_done@).to_multiset()
    &&& placeholder_keys(a.export_error@).to_multiset() == placeholder_keys(b.export_error@).to_multiset()
    &&& placeholder_keys(a.import_done@).to_multiset() == placeholder_keys(b.import_done@).to_multiset()
    &&& placeholder_keys(a.import_done_skipped@).to_multiset() == placeholder_keys(b.import_done_skipped@).to_multiset()
    &&& placeholder_keys(a.import_none_added@).to_multiset() == placeholder_keys(b.import_none_added@).to_multiset()
    &&& placeholder_keys(a.import_not_ours@).to_multiset() == placeholder_keys(b.import_not_ours@).to_multiset()
    &&& placeholder_keys(a.import_error@).to_multiset() == placeholder_keys(b.import_error@).to_multiset()
    &&& placeholder_keys(a.prefix_section@).to_multiset() == placeholder_keys(b.prefix_section@).to_multiset()
    &&& placeholder_keys(a.prefix_hint@).to_multiset() == placeholder_keys(b.prefix_hint@).to_multiset()
    &&& placeholder_keys(a.custom_label@).to_multiset() == placeholder_keys(b.custom_label@).to_multiset()
    &&& placeholder_keys(a.apply_prefix@).to_multiset() == placeholder_keys(b.apply_prefix@).to_multiset()
    &&& placeholder_keys(a.apply_prefix_hint@).to_multiset() == placeholder_keys(b.apply_prefix_hint@).to_multiset()
    &&& placeholder_keys(a.banner_close_tip@).to_multiset() == placeholder_keys(b.banner_close_tip@).to_multiset()
    &&& placeholder_keys(a.undo@).to_multiset() == placeholder_keys(b.undo@).to_multiset()
    &&& placeholder_keys(a.move_undone@).to_multiset() == placeholder_keys(b.move_undone@).to_multiset()
    &&& placeholder_keys(a.autostart_on@).to_multiset() == placeholder_keys(b.autostart_on@).to_multiset()
    &&& placeholder_keys(a.autostart_off@).to_multiset() == placeholder_keys(b.autostart_off@).to_multiset()
    &&& placeholder_keys(a.autostart_error@).to_multiset() == placeholder_keys(b.autostart_error@).to_multiset()
    &&& placeholder_keys(a.prefix_save_error@).to_multiset() == placeholder_keys(b.prefix_save_error@).to_multiset()
    &&& placeholder_keys(a.view_save_error@).to_multiset() == placeholder_keys(b.view_save_error@).to_multiset()
    &&& placeholder_keys(a.language_save_error@).to_multiset() == placeholder_keys(b.language_save_error@).to_multiset()
    &&& placeholder_keys(a.theme_save_error@).to_multiset() == placeholder_keys(b.theme_save_error@).to_multiset()
    &&& placeholder_keys(a.prefix_already_applied@).to_multiset() == placeholder_keys(b.prefix_already_applied@).to_multiset()
    &&& placeholder_keys(a.prefix_collision@).to_multiset() == placeholder_keys(b.prefix_collision@).to_multiset()
    &&& placeholder_keys(a.prefix_confirm_title@).to_multiset() == placeholder_keys(b.prefix_confirm_title@).to_multiset()
    &&& placeholder_keys(a.prefix_confirm_body@).to_multiset() == placeholder_keys(b.prefix_confirm_body@).to_multiset()
    &&& placeholder_keys(a.prefix_confirm_more@).to_multiset() == placeholder_keys(b.prefix_confirm_more@).to_multiset()
    &&& placeholder_keys(a.prefix_applied@).to_multiset() == placeholder_keys(b.prefix_applied@).to_multiset()
    &&& placeholder_keys(a.delete_one_title@).to_multiset() == placeholder_keys(b.delete_one_title@).to_multiset()
    &&& placeholder_keys(a.delete_one_body@).to_multiset() == placeholder_keys(b.delete_one_body@).to_multiset()
    &&& placeholder_keys(a.expansion_deleted@).to_multiset() == placeholder_keys(b.expansion_deleted@).to_multiset()
    &&& placeholder_keys(a.trigger_empty@).to_multiset() == placeholder_keys(b.trigger_empty@).to_multiset()
    &&& placeholder_keys(a.trigger_duplicate@).to_multiset() == placeholder_keys(b.trigger_duplicate@).to_multiset()
    &&& placeholder_keys(a.trigger_shadow@).to_multiset() == placeholder_keys(b.trigger_shadow@).to_multiset()
    &&& placeholder_keys(a.expansion_saved@).to_multiset() == placeholder_keys(b.expansion_saved@).to_multiset()
    &&& placeholder_keys(a.folder_deleted@).to_multiset() == placeholder_keys(b.folder_deleted@).to_multiset()
    &&& placeholder_keys(a.selection_deleted@).to_multiset() == placeholder_keys(b.selection_deleted@).to_multiset()
    &&& placeholder_keys(a.folder_name_taken@).to_multiset() == placeholder_keys(b.folder_name_taken@).to_multiset()
    &&& placeholder_keys(a.folder_renamed@).to_multiset() == placeholder_keys(b.folder_renamed@).to_multiset()
    &&& placeholder_keys(a.moved_to_folder@).to_multiset() == placeholder_keys(b.moved_to_folder@).to_multiset()
    &&& placeholder_keys(a.removed_from_folder@).to_multiset() == placeholder_keys(b.removed_from_folder@).to_multiset()
    &&& placeholder_keys(a.preview_date@).to_multiset() == placeholder_keys(b.preview_date@).to_multiset()
    &&& placeholder_keys(a.preview_advanced_vars@).to_multiset() == placeholder_keys(b.preview_advanced_vars@).to_multiset()
    &&& placeholder_keys(a.preview_advanced@).to_multiset() == placeholder_keys(b.preview_advanced@).to_multiset()
    &&& placeholder_keys(a.err_read_file@).to_multiset() == placeholder_keys(b.err_read_file@).to_multiset()
    &&& placeholder_keys(a.err_parse_yaml@).to_multiset() == placeholder_keys(b.err_parse_yaml@).to_multiset()
    &&& placeholder_keys(a.err_self_check@).to_multiset() == placeholder_keys(b.err_self_check@).to_multiset()
    &&& placeholder_keys(a.err_write_file@).to_multiset() == placeholder_keys(b.err_write_file@).to_multiset()
    &&& placeholder_keys(a.save_backup_failed@).to_multiset() == placeholder_keys(b.save_backup_failed@).to_multiset()
    &&& placeholder_keys(a.save_flush_failed@).to_multiset() == placeholder_keys(b.save_flush_failed@).to_multiset()
    &&& placeholder_keys(a.err_validation_empty@).to_multiset() == placeholder_keys(b.err_validation_empty@).to_multiset()
    &&& placeholder_keys(a.err_validation_duplicate@).to_multiset() == placeholder_keys(b.err_validation_duplicate@).to_multiset()
    &&& placeholder_keys(a.err_espansod_missing@).to_multiset() == placeholder_keys(b.err_espansod_missing@).to_multiset()
    &&& placeholder_keys(a.err_espansod_timeout@).to_multiset() == placeholder_keys(b.err_espansod_timeout@).to_multiset()
    &&& placeholder_keys(a.err_espanso_start@).to_multiset() == placeholder_keys(b.err_espanso_start@).to_multiset()
    &&& placeholder_keys(a.err_espanso_no_response@).to_multiset() == placeholder_keys(b.err_espanso_no_response@).to_multiset()
    &&& placeholder_keys(a.err_restart_unconfirmed@).to_multiset() == placeholder_keys(b.err_restart_unconfirmed@).to_multiset()
    &&& placeholder_keys(a.err_espanso_action@).to_multiset() == placeholder_keys(b.err_espanso_action@).to_multiset()
    &&& placeholder_keys(a.err_espanso_comm@).to_multiset() == placeholder_keys(b.err_espanso_comm@).to_multiset()
    &&& placeholder_keys(a.verb_pause_timed@).to_multiset() == placeholder_keys(b.verb_pause_timed@).to_multiset()
    &&& placeholder_keys(a.verb_pause@).to_multiset() == placeholder_keys(b.verb_pause@).to_multiset()
    &&& placeholder_keys(a.verb_resume@).to_multiset() == placeholder_keys(b.verb_resume@).to_multiset()
    &&& placeholder_keys(a.verb_auto_resume@).to_multiset() == placeholder_keys(b.verb_auto_resume@).to_multiset()
    &&& placeholder_keys(a.tray_pause@).to_multiset() == placeholder_keys(b.tray_pause@).to_multiset()
    &&& placeholder_keys(a.tray_resume@).to_multiset() == placeholder_keys(b.tray_resume@).to_multiset()
    &&& placeholder_keys(a.tray_pause_10@).to_multiset() == placeholder_keys(b.tray_pause_10@).to_multiset()
    &&& placeholder_keys(a.tray_quit@).to_multiset() == placeholder_keys(b.tray_quit@).to_multiset()
    &&& placeholder_keys(a.tray_tooltip@).to_multiset() == placeholder_keys(b.tray_tooltip@).to_multiset()
    &&& placeholder_keys(a.already_running@).to_multiset() == placeholder_keys(b.already_running@).to_multiset()
    &&& placeholder_keys(a.instance_guard_warning@).to_multiset() == placeholder_keys(b.instance_guard_warning@).to_multiset()
    &&& placeholder_keys(a.settings_damaged@).to_multiset() == placeholder_keys(b.settings_damaged@).to_multiset()
    &&& placeholder_keys(a.settings_damaged_lost@).to_multiset() == placeholder_keys(b.settings_damaged_lost@).to_multiset()
    &&& placeholder_keys(a.settings_unreadable@).to_multiset() == placeholder_keys(b.settings_unreadable@).to_multiset()
    &&& placeholder_keys(a.panic_title@).to_multiset() == placeholder_keys(b.panic_title@).to_multiset()
    &&& placeholder_keys(a.panic_body@).to_multiset() == placeholder_keys(b.panic_body@).to_multiset()
    &&& placeholder_keys(a.tray_error@).to_multiset() == placeholder_keys(b.tray_error@).to_multiset()
    &&& placeholder_keys(a.startup_espanso_warning@).to_multiset() == placeholder_keys(b.startup_espanso_warning@).to_multiset()
    &&& placeholder_keys(a.config_patch_warning@).to_multiset() == placeholder_keys(b.config_patch_warning@).to_multiset()
    &&& placeholder_keys(a.hindi_font_missing@).to_multiset() == placeholder_keys(b.hindi_font_missing@).to_multiset()
}

proof fn keys_app_title()
    ensures
        placeholder_keys(crate::strings::en_spec().app_title@) == Seq::<Seq<char>>::empty(),
        placeholder_keys(crate::strings::es_spec().app_title@) == Seq::<Seq<char>>::empty(),
        placeholder_keys(crate::strings::fil_spec().app_title@) == Seq::<Seq<char>>::empty(),
        placeholder_keys(crate::strings::hi_spec().app_title@) == Seq::<Seq<char>>::empty(),
{
    reveal_strlit("My text expansions");
    let c = crate::strings::en_spec().app_title@;
    let s_en = c;
    lemma_keys_skip(c, c.len() as int);
    assert(c.subrange(c.len() as int, c.len() as int) =~= Seq::<char>::empty());
    assert(placeholder_keys(s_en) =~= Seq::<Seq<char>>::empty());
    reveal_strlit("Mis expansiones de texto");
    let c = crate::strings::es_spec().app_title@;
    let s_es = c;
    lemma_keys_skip(c, c.len() as int);
    assert(c.subrange(c.len() as int, c.len() as int) =~= Seq::<char>::empty());
    assert(placeholder_keys(s_es) =~= Seq::<Seq<char>>::empty());
    reveal_strlit("Aking mga text expansion");
    let c = crate::strings::fil_spec().app_title@;
    let s_fil = c;
    lemma_keys_skip(c, c.len() as int);
    assert(c.subrange(c.len() as int, c.len() as int) =~= Seq::<char>::empty());
    assert(placeholder_keys(s_fil) =~= Seq::<Seq<char>>::empty());
    reveal_strlit("मेरे टेक्स्ट विस्तार");
    let c = crate::strings::hi_spec().app_title@;
    let s_hi = c;
    lemma_keys_skip(c, c.len() as int);
    assert(c.subrange(c.len() as int, c.len() as int) =~= Seq::<char>::empty());
    assert(placeholder_keys(s_hi) =~= Seq::<Seq<char>>::empty());
}

proof fn keys_settings_button()
    ensures
        placeholder_keys(crate::strings::en_spec().settings_button@) == Seq::<Seq<char>>::empty(),
        placeholder_keys(crate::strings::es_spec().settings_button@) == Seq::<Seq<char>>::empty(),
        placeholder_keys(crate::strings::fil_spec().settings_button@) == Seq::<Seq<char>>::empty(),
        placeholder_keys(crate::strings::hi_spec().settings_button@) == Seq::<Seq<char>>::empty(),
{
    reveal_strlit("Settings");
    let c = crate::strings::en_spec().settings_button@;
    let s_en = c;
    lemma_keys_skip(c, c.len() as int);
    assert(c.subrange(c.len() as int, c.len() as int) =~= Seq::<char>::empty());
    assert(placeholder_keys(s_en) =~= Seq::<Seq<char>>::empty());
    reveal_strlit("Ajustes");
    let c = crate::strings::es_spec().settings_button@;
    let s_es = c;
    lemma_keys_skip(c, c.len() as int);
    assert(c.subrange(c.len() as int, c.len() as int) =~= Seq::<char>::empty());
    assert(placeholder_keys(s_es) =~= Seq::<Seq<char>>::empty());
    reveal_strlit("Mga setting");
    let c = crate::strings::fil_spec().settings_button@;
    let s_fil = c;
    lemma_keys_skip(c, c.len() as int);
    assert(c.subrange(c.len() as int, c.len() as int) =~= Seq::<char>::empty());
    assert(placeholder_keys(s_fil) =~= Seq::<Seq<char>>::empty());
    reveal_strlit("सेटिंग्स");
    let c = crate::strings::hi_spec().settings_button@;
    let s_hi = c;
    lemma_keys_skip(c, c.len() as int);
    assert(c.subrange(c.len() as int, c.len() as int) =~= Seq::<char>::empty());
    assert(placeholder_keys(s_hi) =~= Seq::<Seq<char>>::empty());
}

proof fn keys_tips_title()
    ensures
        placeholder_keys(crate::strings::en_spec().tips_title@) == Seq::<Seq<char>>::empty(),
        placeholder_keys(crate::strings::es_spec().tips_title@) == Seq::<Seq<char>>::empty(),
        placeholder_keys(crate::strings::fil_spec().tips_title@) == Seq::<Seq<char>>::empty(),
        placeholder_keys(crate::strings::hi_spec().tips_title@) == Seq::<Seq<char>>::empty(),
{
    reveal_strlit("Tips");
    let c = crate::strings::en_spec().tips_title@;
    let s_en = c;
    lemma_keys_skip(c, c.len() as int);
    assert(c.subrange(c.len() as int, c.len() as int) =~= Seq::<char>::empty());
    assert(placeholder_keys(s_en) =~= Seq::<Seq<char>>::empty());
    reveal_strlit("Consejos");
    let c = crate::strings::es_spec().tips_title@;
    let s_es = c;
    lemma_keys_skip(c, c.len() as int);
    assert(c.subrange(c.len() as int, c.len() as int) =~= Seq::<char>::empty());
    assert(placeholder_keys(s_es) =~= Seq::<Seq<char>>::empty());
    reveal_strlit("Mga tip");
    let c = crate::strings::fil_spec().tips_title@;
    let s_fil = c;
    lemma_keys_skip(c, c.len() as int);
    assert(c.subrange(c.len() as int, c.len() as int) =~= Seq::<char>::empty());
    assert(placeholder_keys(s_fil) =~= Seq::<Seq<char>>::empty());
    reveal_strlit("सुझाव");
    let c = crate::strings::hi_spec().tips_title@;
    let s_hi = c;
    lemma_keys_skip(c, c.len() as int);
    assert(c.subrange(c.len() as int, c.len() as int) =~= Seq::<char>::empty());
    assert(placeholder_keys(s_hi) =~= Seq::<Seq<char>>::empty());
}

proof fn keys_tips_button_tip()
    ensures
        placeholder_keys(crate::strings::en_spec().tips_button_tip@) == Seq::<Seq<char>>::empty(),
        placeholder_keys(crate::strings::es_spec().tips_button_tip@) == Seq::<Seq<char>>::empty(),
        placeholder_keys(crate::strings::fil_spec().tips_button_tip@) == Seq::<Seq<char>>::empty(),
        placeholder_keys(crate::strings::hi_spec().tips_button_tip@) == Seq::<Seq<char>>::empty(),
{
    reveal_strlit("Tips");
    let c = crate::strings::en_spec().tips_button_tip@;
    let s_en = c;
    lemma_keys_skip(c, c.len() as int);
    assert(c.subrange(c.len() as int, c.len() as int) =~= Seq::<char>::empty());
    assert(placeholder_keys(s_en) =~= Seq::<Seq<char>>::empty());
    reveal_strlit("Consejos");
    let c = crate::strings::es_spec().tips_button_tip@;
    let s_es = c;
    lemma_keys_skip(c, c.len() as int);
    assert(c.subrange(c.len() as int, c.len() as int) =~= Seq::<char>::empty());
    assert(placeholder_keys(s_es) =~= Seq::<Seq<char>>::empty());
    reveal_strlit("Mga tip");
    let c = crate::strings::fil_spec().tips_button_tip@;
    let s_fil = c;
    lemma_keys_skip(c, c.len() as int);
    assert(c.subrange(c.len() as int, c.len() as int) =~= Seq::<char>::empty());
    assert(placeholder_keys(s_fil) =~= Seq::<Seq<char>>::empty());
    reveal_strlit("सुझाव");
    let c = crate::strings::hi_spec().tips_button_tip@;
    let s_hi = c;
    lemma_keys_skip(c, c.len() as int);
    assert(c.subrange(c.len() as int, c.len() as int) =~= Seq::<char>::empty());
    assert(placeholder_keys(s_hi) =~= Seq::<Seq<char>>::empty());
}

proof fn keys_tips_footer()
    ensures
        placeholder_keys(crate::strings::en_spec().tips_footer@) == Seq::<Seq<char>>::empty(),
        placeholder_keys(crate::strings::es_spec().tips_footer@) == Seq::<Seq<char>>::empty(),
        placeholder_keys(crate::strings::fil_spec().tips_footer@) == Seq::<Seq<char>>::empty(),
        placeholder_keys(crate::strings::hi_spec().tips_footer@) == Seq::<Seq<char>>::empty(),
{
    reveal_strlit("Nothing here is required reading. It is the handful of things people ask about most.");
    let c = crate::strings::en_spec().tips_footer@;
    let s_en = c;
    lemma_keys_skip(c, c.len() as int);
    assert(c.subrange(c.len() as int, c.len() as int) =~= Seq::<char>::empty());
    assert(placeholder_keys(s_en) =~= Seq::<Seq<char>>::empty());
    reveal_strlit("Nada de esto es obligatorio. Son las cosas que más se preguntan.");
    let c = crate::strings::es_spec().tips_footer@;
    let s_es = c;
    lemma_keys_skip(c, c.len() as int);
    assert(c.subrange(c.len() as int, c.len() as int) =~= Seq::<char>::empty());
    assert(placeholder_keys(s_es) =~= Seq::<Seq<char>>::empty());
    reveal_strlit("Walang kailangang basahin dito. Ito ang mga bagay na madalas itanong.");
    let c = crate::strings::fil_spec().tips_footer@;
    let s_fil = c;
    lemma_keys_skip(c, c.len() as int);
    assert(c.subrange(c.len() as int, c.len() as int) =~= Seq::<char>::empty());
    assert(placeholder_keys(s_fil) =~= Seq::<Seq<char>>::empty());
    reveal_strlit("यहाँ कुछ भी पढ़ना ज़रूरी नहीं है। ये वही बातें हैं जो लोग सबसे ज़्यादा पूछते हैं।");
    let c = crate::strings::hi_spec().tips_footer@;
    let s_hi = c;
    lemma_keys_skip(c, c.len() as int);
    assert(c.subrange(c.len() as int, c.len() as int) =~= Seq::<char>::empty());
    assert(placeholder_keys(s_hi) =~= Seq::<Seq<char>>::empty());
}

proof fn keys_tip_search_title()
    ensures
        placeholder_keys(crate::strings::en_spec().tip_search_title@) == Seq::<Seq<char>>::empty(),
        placeholder_keys(crate::strings::es_spec().tip_search_title@) == Seq::<Seq<char>>::empty(),
        placeholder_keys(crate::strings::fil_spec().tip_search_title@) == Seq::<Seq<char>>::empty(),
        placeholder_keys(crate::strings::hi_spec().tip_search_title@) == Seq::<Seq<char>>::empty(),
{
    reveal_strlit("Find an expansion without leaving what you are doing");
    let c = crate::strings::en_spec().tip_search_title@;
    let s_en = c;
    lemma_keys_skip(c, c.len() as int);
    assert(c.subrange(c.len() as int, c.len() as int) =~= Seq::<char>::empty());
    assert(placeholder_keys(s_en) =~= Seq::<Seq<char>>::empty());
    reveal_strlit("Busca una expansión sin salir de lo que estás haciendo");
    let c = crate::strings::es_spec().tip_search_title@;
    let s_es = c;
    lemma_keys_skip(c, c.len() as int);
    assert(c.subrange(c.len() as int, c.len() as int) =~= Seq::<char>::empty());
    assert(placeholder_keys(s_es) =~= Seq::<Seq<char>>::empty());
    reveal_strlit("Maghanap ng expansion nang hindi umaalis sa ginagawa mo");
    let c = crate::strings::fil_spec().tip_search_title@;
    let s_fil = c;
    lemma_keys_skip(c, c.len() as int);
    assert(c.subrange(c.len() as int, c.len() as int) =~= Seq::<char>::empty());
    assert(placeholder_keys(s_fil) =~= Seq::<Seq<char>>::empty());
    reveal_strlit("जो कर रहे हैं उसे छोड़े बिना कोई एक्सपैंशन ढूँढें");
    let c = crate::strings::hi_spec().tip_search_title@;
    let s_hi = c;
    lemma_keys_skip(c, c.len() as int);
    assert(c.subrange(c.len() as int, c.len() as int) =~= Seq::<char>::empty());
    assert(placeholder_keys(s_hi) =~= Seq::<Seq<char>>::empty());
}

proof fn keys_tip_search_body()
    ensures
        placeholder_keys(crate::strings::en_spec().tip_search_body@) == seq!["keys"@],
        placeholder_keys(crate::strings::es_spec().tip_search_body@) == seq!["keys"@],
        placeholder_keys(crate::strings::fil_spec().tip_search_body@) == seq!["keys"@],
        placeholder_keys(crate::strings::hi_spec().tip_search_body@) == seq!["keys"@],
{
    reveal_strlit("keys");
    reveal_strlit("Press {keys} anywhere in Windows and a search box appears. Type part of a trigger or part of its text, pick one, and it is inserted where your cursor was.");
    let c = crate::strings::en_spec().tip_search_body@;
    let s_en = c;
    lemma_keys_skip(c, 6);
    let c = c.subrange(6, c.len() as int);
    lemma_keys_token(c, 4);
    let k0 = c.subrange(1, 5);
    let c = c.subrange(6, c.len() as int);
    lemma_keys_skip(c, c.len() as int);
    assert(c.subrange(c.len() as int, c.len() as int) =~= Seq::<char>::empty());
    assert(k0 =~= "keys"@);
    assert(placeholder_keys(s_en) =~= seq!["keys"@]);
    reveal_strlit("Presiona {keys} en cualquier parte de Windows y aparece un buscador. Escribe parte del activador o parte de su texto, elige una, y se inserta donde estaba tu cursor.");
    let c = crate::strings::es_spec().tip_search_body@;
    let s_es = c;
    lemma_keys_skip(c, 9);
    let c = c.subrange(9, c.len() as int);
    lemma_keys_token(c, 4);
    let k0 = c.subrange(1, 5);
    let c = c.subrange(6, c.len() as int);
    lemma_keys_skip(c, c.len() as int);
    assert(c.subrange(c.len() as int, c.len() as int) =~= Seq::<char>::empty());
    assert(k0 =~= "keys"@);
    assert(placeholder_keys(s_es) =~= seq!["keys"@]);
    reveal_strlit("Pindutin ang {keys} kahit saan sa Windows at lilitaw ang isang search box. I-type ang bahagi ng trigger o ng teksto nito, pumili, at ipapasok ito kung nasaan ang cursor mo.");
    let c = crate::strings::fil_spec().tip_search_body@;
    let s_fil = c;
    lemma_keys_skip(c, 13);
    let c = c.subrange(13, c.len() as int);
    lemma_keys_token(c, 4);
    let k0 = c.subrange(1, 5);
    let c = c.subrange(6, c.len() as int);
    lemma_keys_skip(c, c.len() as int);
    assert(c.subrange(c.len() as int, c.len() as int) =~= Seq::<char>::empty());
    assert(k0 =~= "keys"@);
    assert(placeholder_keys(s_fil) =~= seq!["keys"@]);
    reveal_strlit("Windows में कहीं भी {keys} दबाएँ और एक खोज बॉक्स आ जाएगा। ट्रिगर का या उसके टेक्स्ट का कुछ हिस्सा लिखें, एक चुनें, और वह वहीं जुड़ जाएगा जहाँ आपका कर्सर था।");
    let c = crate::strings::hi_spec().tip_search_body@;
    let s_hi = c;
    lemma_keys_skip(c, 20);
    let c = c.subrange(20, c.len() as int);
    lemma_keys_token(c, 4);
    let k0 = c.subrange(1, 5);
    let c = c.subrange(6, c.len() as int);
    lemma_keys_skip(c, c.len() as int);
    assert(c.subrange(c.len() as int, c.len() as int) =~= Seq::<char>::empty());
    assert(k0 =~= "keys"@);
    assert(placeholder_keys(s_hi) =~= seq!["keys"@]);
}

proof fn keys_onboarding_title()
    ensures
        placeholder_keys(crate::strings::en_spec().onboarding_title@) == Seq::<Seq<char>>::empty(),
        placeholder_keys(crate::strings::es_spec().onboarding_title@) == Seq::<Seq<char>>::empty(),
        placeholder_keys(crate::strings::fil_spec().onboarding_title@) == Seq::<Seq<char>>::empty(),
        placeholder_keys(crate::strings::hi_spec().onboarding_title@) == Seq::<Seq<char>>::empty(),
{
    reveal_strlit("Welcome");
    let c = crate::strings::en_spec().onboarding_title@;
    let s_en = c;
    lemma_keys_skip(c, c.len() as int);
    assert(c.subrange(c.len() as int, c.len() as int) =~= Seq::<char>::empty());
    assert(placeholder_keys(s_en) =~= Seq::<Seq<char>>::empty());
    reveal_strlit("Te damos la bienvenida");
    let c = crate::strings::es_spec().onboarding_title@;
    let s_es = c;
    lemma_keys_skip(c, c.len() as int);
    assert(c.subrange(c.len() as int, c.len() as int) =~= Seq::<char>::empty());
    assert(placeholder_keys(s_es) =~= Seq::<Seq<char>>::empty());
    reveal_strlit("Maligayang pagdating");
    let c = crate::strings::fil_spec().onboarding_title@;
    let s_fil = c;
    lemma_keys_skip(c, c.len() as int);
    assert(c.subrange(c.len() as int, c.len() as int) =~= Seq::<char>::empty());
    assert(placeholder_keys(s_fil) =~= Seq::<Seq<char>>::empty());
    reveal_strlit("आपका स्वागत है");
    let c = crate::strings::hi_spec().onboarding_title@;
    let s_hi = c;
    lemma_keys_skip(c, c.len() as int);
    assert(c.subrange(c.len() as int, c.len() as int) =~= Seq::<char>::empty());
    assert(placeholder_keys(s_hi) =~= Seq::<Seq<char>>::empty());
}

proof fn keys_onboarding_intro()
    ensures
        placeholder_keys(crate::strings::en_spec().onboarding_intro@) == Seq::<Seq<char>>::empty(),
        placeholder_keys(crate::strings::es_spec().onboarding_intro@) == Seq::<Seq<char>>::empty(),
        placeholder_keys(crate::strings::fil_spec().onboarding_intro@) == Seq::<Seq<char>>::empty(),
        placeholder_keys(crate::strings::hi_spec().onboarding_intro@) == Seq::<Seq<char>>::empty(),
{
    reveal_strlit("You type a short trigger and it turns into the full text you saved. It works in any program: email, chat, a document, the browser.");
    let c = crate::strings::en_spec().onboarding_intro@;
    let s_en = c;
    lemma_keys_skip(c, c.len() as int);
    assert(c.subrange(c.len() as int, c.len() as int) =~= Seq::<char>::empty());
    assert(placeholder_keys(s_en) =~= Seq::<Seq<char>>::empty());
    reveal_strlit("Escribes un atajo corto y se convierte en el texto completo que guardaste. Funciona en cualquier programa: correo, chat, un documento, el navegador.");
    let c = crate::strings::es_spec().onboarding_intro@;
    let s_es = c;
    lemma_keys_skip(c, c.len() as int);
    assert(c.subrange(c.len() as int, c.len() as int) =~= Seq::<char>::empty());
    assert(placeholder_keys(s_es) =~= Seq::<Seq<char>>::empty());
    reveal_strlit("Nagta-type ka ng maikling trigger at nagiging buong teksto ito na na-save mo. Gumagana sa kahit anong programa: email, chat, dokumento, browser.");
    let c = crate::strings::fil_spec().onboarding_intro@;
    let s_fil = c;
    lemma_keys_skip(c, c.len() as int);
    assert(c.subrange(c.len() as int, c.len() as int) =~= Seq::<char>::empty());
    assert(placeholder_keys(s_fil) =~= Seq::<Seq<char>>::empty());
    reveal_strlit("आप एक छोटा ट्रिगर लिखते हैं और वह आपके सहेजे हुए पूरे टेक्स्ट में बदल जाता है। यह किसी भी प्रोग्राम में काम करता है: ईमेल, चैट, दस्तावेज़, ब्राउज़र।");
    let c = crate::strings::hi_spec().onboarding_intro@;
    let s_hi = c;
    lemma_keys_skip(c, c.len() as int);
    assert(c.subrange(c.len() as int, c.len() as int) =~= Seq::<char>::empty());
    assert(placeholder_keys(s_hi) =~= Seq::<Seq<char>>::empty());
}

proof fn keys_onboarding_try_title()
    ensures
        placeholder_keys(crate::strings::en_spec().onboarding_try_title@) == Seq::<Seq<char>>::empty(),
        placeholder_keys(crate::strings::es_spec().onboarding_try_title@) == Seq::<Seq<char>>::empty(),
        placeholder_keys(crate::strings::fil_spec().onboarding_try_title@) == Seq::<Seq<char>>::empty(),
        placeholder_keys(crate::strings::hi_spec().onboarding_try_title@) == Seq::<Seq<char>>::empty(),
{
    reveal_strlit("See it work");
    let c = crate::strings::en_spec().onboarding_try_title@;
    let s_en = c;
    lemma_keys_skip(c, c.len() as int);
    assert(c.subrange(c.len() as int, c.len() as int) =~= Seq::<char>::empty());
    assert(placeholder_keys(s_en) =~= Seq::<Seq<char>>::empty());
    reveal_strlit("Míralo funcionar");
    let c = crate::strings::es_spec().onboarding_try_title@;
    let s_es = c;
    lemma_keys_skip(c, c.len() as int);
    assert(c.subrange(c.len() as int, c.len() as int) =~= Seq::<char>::empty());
    assert(placeholder_keys(s_es) =~= Seq::<Seq<char>>::empty());
    reveal_strlit("Tingnan mo kung paano gumagana");
    let c = crate::strings::fil_spec().onboarding_try_title@;
    let s_fil = c;
    lemma_keys_skip(c, c.len() as int);
    assert(c.subrange(c.len() as int, c.len() as int) =~= Seq::<char>::empty());
    assert(placeholder_keys(s_fil) =~= Seq::<Seq<char>>::empty());
    reveal_strlit("इसे काम करते देखें");
    let c = crate::strings::hi_spec().onboarding_try_title@;
    let s_hi = c;
    lemma_keys_skip(c, c.len() as int);
    assert(c.subrange(c.len() as int, c.len() as int) =~= Seq::<char>::empty());
    assert(placeholder_keys(s_hi) =~= Seq::<Seq<char>>::empty());
}

proof fn keys_onboarding_try_body()
    ensures
        placeholder_keys(crate::strings::en_spec().onboarding_try_body@) == Seq::<Seq<char>>::empty(),
        placeholder_keys(crate::strings::es_spec().onboarding_try_body@) == Seq::<Seq<char>>::empty(),
        placeholder_keys(crate::strings::fil_spec().onboarding_try_body@) == Seq::<Seq<char>>::empty(),
        placeholder_keys(crate::strings::hi_spec().onboarding_try_body@) == Seq::<Seq<char>>::empty(),
{
    reveal_strlit("Type  :espanso  in the box below — the whole thing, without spaces.");
    let c = crate::strings::en_spec().onboarding_try_body@;
    let s_en = c;
    lemma_keys_skip(c, c.len() as int);
    assert(c.subrange(c.len() as int, c.len() as int) =~= Seq::<char>::empty());
    assert(placeholder_keys(s_en) =~= Seq::<Seq<char>>::empty());
    reveal_strlit("Escribe  :espanso  en la caja de abajo — completo y sin espacios.");
    let c = crate::strings::es_spec().onboarding_try_body@;
    let s_es = c;
    lemma_keys_skip(c, c.len() as int);
    assert(c.subrange(c.len() as int, c.len() as int) =~= Seq::<char>::empty());
    assert(placeholder_keys(s_es) =~= Seq::<Seq<char>>::empty());
    reveal_strlit("I-type ang  :espanso  sa kahon sa ibaba — buo at walang espasyo.");
    let c = crate::strings::fil_spec().onboarding_try_body@;
    let s_fil = c;
    lemma_keys_skip(c, c.len() as int);
    assert(c.subrange(c.len() as int, c.len() as int) =~= Seq::<char>::empty());
    assert(placeholder_keys(s_fil) =~= Seq::<Seq<char>>::empty());
    reveal_strlit("नीचे के बॉक्स में  :espanso  लिखें — पूरा, बिना जगह छोड़े।");
    let c = crate::strings::hi_spec().onboarding_try_body@;
    let s_hi = c;
    lemma_keys_skip(c, c.len() as int);
    assert(c.subrange(c.len() as int, c.len() as int) =~= Seq::<char>::empty());
    assert(placeholder_keys(s_hi) =~= Seq::<Seq<char>>::empty());
}

proof fn keys_onboarding_try_placeholder()
    ensures
        placeholder_keys(crate::strings::en_spec().onboarding_try_placeholder@) == Seq::<Seq<char>>::empty(),
        placeholder_keys(crate::strings::es_spec().onboarding_try_placeholder@) == Seq::<Seq<char>>::empty(),
        placeholder_keys(crate::strings::fil_spec().onboarding_try_placeholder@) == Seq::<Seq<char>>::empty(),
        placeholder_keys(crate::strings::hi_spec().onboarding_try_placeholder@) == Seq::<Seq<char>>::empty(),
{
    reveal_strlit("Try it here");
    let c = crate::strings::en_spec().onboarding_try_placeholder@;
    let s_en = c;
    lemma_keys_skip(c, c.len() as int);
    assert(c.subrange(c.len() as int, c.len() as int) =~= Seq::<char>::empty());
    assert(placeholder_keys(s_en) =~= Seq::<Seq<char>>::empty());
    reveal_strlit("Pruébalo aquí");
    let c = crate::strings::es_spec().onboarding_try_placeholder@;
    let s_es = c;
    lemma_keys_skip(c, c.len() as int);
    assert(c.subrange(c.len() as int, c.len() as int) =~= Seq::<char>::empty());
    assert(placeholder_keys(s_es) =~= Seq::<Seq<char>>::empty());
    reveal_strlit("Subukan dito");
    let c = crate::strings::fil_spec().onboarding_try_placeholder@;
    let s_fil = c;
    lemma_keys_skip(c, c.len() as int);
    assert(c.subrange(c.len() as int, c.len() as int) =~= Seq::<char>::empty());
    assert(placeholder_keys(s_fil) =~= Seq::<Seq<char>>::empty());
    reveal_strlit("यहाँ आज़माएँ");
    let c = crate::strings::hi_spec().onboarding_try_placeholder@;
    let s_hi = c;
    lemma_keys_skip(c, c.len() as int);
    assert(c.subrange(c.len() as int, c.len() as int) =~= Seq::<char>::empty());
    assert(placeholder_keys(s_hi) =~= Seq::<Seq<char>>::empty());
}

proof fn keys_onboarding_try_ok()
    ensures
        placeholder_keys(crate::strings::en_spec().onboarding_try_ok@) == Seq::<Seq<char>>::empty(),
        placeholder_keys(crate::strings::es_spec().onboarding_try_ok@) == Seq::<Seq<char>>::empty(),
        placeholder_keys(crate::strings::fil_spec().onboarding_try_ok@) == Seq::<Seq<char>>::empty(),
        placeholder_keys(crate::strings::hi_spec().onboarding_try_ok@) == Seq::<Seq<char>>::empty(),
{
    reveal_strlit("That is all there is to it. It behaves the same way in every other program.");
    let c = crate::strings::en_spec().onboarding_try_ok@;
    let s_en = c;
    lemma_keys_skip(c, c.len() as int);
    assert(c.subrange(c.len() as int, c.len() as int) =~= Seq::<char>::empty());
    assert(placeholder_keys(s_en) =~= Seq::<Seq<char>>::empty());
    reveal_strlit("Eso es todo. Se comporta igual en cualquier otro programa.");
    let c = crate::strings::es_spec().onboarding_try_ok@;
    let s_es = c;
    lemma_keys_skip(c, c.len() as int);
    assert(c.subrange(c.len() as int, c.len() as int) =~= Seq::<char>::empty());
    assert(placeholder_keys(s_es) =~= Seq::<Seq<char>>::empty());
    reveal_strlit("Ganoon lang iyon. Ganito rin ang gagawin nito sa iba pang programa.");
    let c = crate::strings::fil_spec().onboarding_try_ok@;
    let s_fil = c;
    lemma_keys_skip(c, c.len() as int);
    assert(c.subrange(c.len() as int, c.len() as int) =~= Seq::<char>::empty());
    assert(placeholder_keys(s_fil) =~= Seq::<Seq<char>>::empty());
    reveal_strlit("बस इतना ही। हर दूसरे प्रोग्राम में भी यह ऐसे ही काम करेगा।");
    let c = crate::strings::hi_spec().onboarding_try_ok@;
    let s_hi = c;
    lemma_keys_skip(c, c.len() as int);
    assert(c.subrange(c.len() as int, c.len() as int) =~= Seq::<char>::empty());
    assert(placeholder_keys(s_hi) =~= Seq::<Seq<char>>::empty());
}

proof fn keys_onboarding_autostart_title()
    ensures
        placeholder_keys(crate::strings::en_spec().onboarding_autostart_title@) == Seq::<Seq<char>>::empty(),
        placeholder_keys(crate::strings::es_spec().onboarding_autostart_title@) == Seq::<Seq<char>>::empty(),
        placeholder_keys(crate::strings::fil_spec().onboarding_autostart_title@) == Seq::<Seq<char>>::empty(),
        placeholder_keys(crate::strings::hi_spec().onboarding_autostart_title@) == Seq::<Seq<char>>::empty(),
{
    reveal_strlit("Start with Windows");
    let c = crate::strings::en_spec().onboarding_autostart_title@;
    let s_en = c;
    lemma_keys_skip(c, c.len() as int);
    assert(c.subrange(c.len() as int, c.len() as int) =~= Seq::<char>::empty());
    assert(placeholder_keys(s_en) =~= Seq::<Seq<char>>::empty());
    reveal_strlit("Iniciar con Windows");
    let c = crate::strings::es_spec().onboarding_autostart_title@;
    let s_es = c;
    lemma_keys_skip(c, c.len() as int);
    assert(c.subrange(c.len() as int, c.len() as int) =~= Seq::<char>::empty());
    assert(placeholder_keys(s_es) =~= Seq::<Seq<char>>::empty());
    reveal_strlit("Simulan kasama ng Windows");
    let c = crate::strings::fil_spec().onboarding_autostart_title@;
    let s_fil = c;
    lemma_keys_skip(c, c.len() as int);
    assert(c.subrange(c.len() as int, c.len() as int) =~= Seq::<char>::empty());
    assert(placeholder_keys(s_fil) =~= Seq::<Seq<char>>::empty());
    reveal_strlit("Windows के साथ शुरू करें");
    let c = crate::strings::hi_spec().onboarding_autostart_title@;
    let s_hi = c;
    lemma_keys_skip(c, c.len() as int);
    assert(c.subrange(c.len() as int, c.len() as int) =~= Seq::<char>::empty());
    assert(placeholder_keys(s_hi) =~= Seq::<Seq<char>>::empty());
}

proof fn keys_onboarding_autostart_note()
    ensures
        placeholder_keys(crate::strings::en_spec().onboarding_autostart_note@) == Seq::<Seq<char>>::empty(),
        placeholder_keys(crate::strings::es_spec().onboarding_autostart_note@) == Seq::<Seq<char>>::empty(),
        placeholder_keys(crate::strings::fil_spec().onboarding_autostart_note@) == Seq::<Seq<char>>::empty(),
        placeholder_keys(crate::strings::hi_spec().onboarding_autostart_note@) == Seq::<Seq<char>>::empty(),
{
    reveal_strlit("You can change this whenever you like, in Settings.");
    let c = crate::strings::en_spec().onboarding_autostart_note@;
    let s_en = c;
    lemma_keys_skip(c, c.len() as int);
    assert(c.subrange(c.len() as int, c.len() as int) =~= Seq::<char>::empty());
    assert(placeholder_keys(s_en) =~= Seq::<Seq<char>>::empty());
    reveal_strlit("Puedes cambiarlo cuando quieras, en Ajustes.");
    let c = crate::strings::es_spec().onboarding_autostart_note@;
    let s_es = c;
    lemma_keys_skip(c, c.len() as int);
    assert(c.subrange(c.len() as int, c.len() as int) =~= Seq::<char>::empty());
    assert(placeholder_keys(s_es) =~= Seq::<Seq<char>>::empty());
    reveal_strlit("Mababago mo ito kahit kailan, sa Mga setting.");
    let c = crate::strings::fil_spec().onboarding_autostart_note@;
    let s_fil = c;
    lemma_keys_skip(c, c.len() as int);
    assert(c.subrange(c.len() as int, c.len() as int) =~= Seq::<char>::empty());
    assert(placeholder_keys(s_fil) =~= Seq::<Seq<char>>::empty());
    reveal_strlit("इसे आप जब चाहें सेटिंग्स में बदल सकते हैं।");
    let c = crate::strings::hi_spec().onboarding_autostart_note@;
    let s_hi = c;
    lemma_keys_skip(c, c.len() as int);
    assert(c.subrange(c.len() as int, c.len() as int) =~= Seq::<char>::empty());
    assert(placeholder_keys(s_hi) =~= Seq::<Seq<char>>::empty());
}

proof fn keys_onboarding_where_title()
    ensures
        placeholder_keys(crate::strings::en_spec().onboarding_where_title@) == Seq::<Seq<char>>::empty(),
        placeholder_keys(crate::strings::es_spec().onboarding_where_title@) == Seq::<Seq<char>>::empty(),
        placeholder_keys(crate::strings::fil_spec().onboarding_where_title@) == Seq::<Seq<char>>::empty(),
        placeholder_keys(crate::strings::hi_spec().onboarding_where_title@) == Seq::<Seq<char>>::empty(),
{
    reveal_strlit("Where it lives");
    let c = crate::strings::en_spec().onboarding_where_title@;
    let s_en = c;
    lemma_keys_skip(c, c.len() as int);
    assert(c.subrange(c.len() as int, c.len() as int) =~= Seq::<char>::empty());
    assert(placeholder_keys(s_en) =~= Seq::<Seq<char>>::empty());
    reveal_strlit("Dónde vive");
    let c = crate::strings::es_spec().onboarding_where_title@;
    let s_es = c;
    lemma_keys_skip(c, c.len() as int);
    assert(c.subrange(c.len() as int, c.len() as int) =~= Seq::<char>::empty());
    assert(placeholder_keys(s_es) =~= Seq::<Seq<char>>::empty());
    reveal_strlit("Saan ito nakatira");
    let c = crate::strings::fil_spec().onboarding_where_title@;
    let s_fil = c;
    lemma_keys_skip(c, c.len() as int);
    assert(c.subrange(c.len() as int, c.len() as int) =~= Seq::<char>::empty());
    assert(placeholder_keys(s_fil) =~= Seq::<Seq<char>>::empty());
    reveal_strlit("यह कहाँ रहता है");
    let c = crate::strings::hi_spec().onboarding_where_title@;
    let s_hi = c;
    lemma_keys_skip(c, c.len() as int);
    assert(c.subrange(c.len() as int, c.len() as int) =~= Seq::<char>::empty());
    assert(placeholder_keys(s_hi) =~= Seq::<Seq<char>>::empty());
}

proof fn keys_onboarding_where_body()
    ensures
        placeholder_keys(crate::strings::en_spec().onboarding_where_body@) == Seq::<Seq<char>>::empty(),
        placeholder_keys(crate::strings::es_spec().onboarding_where_body@) == Seq::<Seq<char>>::empty(),
        placeholder_keys(crate::strings::fil_spec().onboarding_where_body@) == Seq::<Seq<char>>::empty(),
        placeholder_keys(crate::strings::hi_spec().onboarding_where_body@) == Seq::<Seq<char>>::empty(),
{
    reveal_strlit("In the system tray, next to the clock — one click brings the window back. Windows hides new icons behind the small arrow, so drag this one onto the taskbar to keep it in sight.");
    let c = crate::strings::en_spec().onboarding_where_body@;
    let s_en = c;
    lemma_keys_skip(c, c.len() as int);
    assert(c.subrange(c.len() as int, c.len() as int) =~= Seq::<char>::empty());
    assert(placeholder_keys(s_en) =~= Seq::<Seq<char>>::empty());
    reveal_strlit("En la bandeja del sistema, junto al reloj — un clic y la ventana vuelve. Windows esconde los iconos nuevos detrás de la flechita, así que arrastra este a la barra de tareas para tenerlo siempre a la vista.");
    let c = crate::strings::es_spec().onboarding_where_body@;
    let s_es = c;
    lemma_keys_skip(c, c.len() as int);
    assert(c.subrange(c.len() as int, c.len() as int) =~= Seq::<char>::empty());
    assert(placeholder_keys(s_es) =~= Seq::<Seq<char>>::empty());
    reveal_strlit("Sa system tray, katabi ng orasan — isang click at babalik ang window. Itinatago ng Windows ang mga bagong icon sa likod ng maliit na arrow, kaya i-drag ito sa taskbar para laging nakikita.");
    let c = crate::strings::fil_spec().onboarding_where_body@;
    let s_fil = c;
    lemma_keys_skip(c, c.len() as int);
    assert(c.subrange(c.len() as int, c.len() as int) =~= Seq::<char>::empty());
    assert(placeholder_keys(s_fil) =~= Seq::<Seq<char>>::empty());
    reveal_strlit("सिस्टम ट्रे में, घड़ी के पास — एक क्लिक और विंडो वापस आ जाती है। Windows नए आइकन को छोटे तीर के पीछे छिपा देता है, इसलिए इसे टास्कबार पर खींच लाएँ ताकि हमेशा दिखता रहे।");
    let c = crate::strings::hi_spec().onboarding_where_body@;
    let s_hi = c;
    lemma_keys_skip(c, c.len() as int);
    assert(c.subrange(c.len() as int, c.len() as int) =~= Seq::<char>::empty());
    assert(placeholder_keys(s_hi) =~= Seq::<Seq<char>>::empty());
}

proof fn keys_onboarding_start()
    ensures
        placeholder_keys(crate::strings::en_spec().onboarding_start@) == Seq::<Seq<char>>::empty(),
        placeholder_keys(crate::strings::es_spec().onboarding_start@) == Seq::<Seq<char>>::empty(),
        placeholder_keys(crate::strings::fil_spec().onboarding_start@) == Seq::<Seq<char>>::empty(),
        placeholder_keys(crate::strings::hi_spec().onboarding_start@) == Seq::<Seq<char>>::empty(),
{
    reveal_strlit("Get started");
    let c = crate::strings::en_spec().onboarding_start@;
    let s_en = c;
    lemma_keys_skip(c, c.len() as int);
    assert(c.subrange(c.len() as int, c.len() as int) =~= Seq::<char>::empty());
    assert(placeholder_keys(s_en) =~= Seq::<Seq<char>>::empty());
    reveal_strlit("Empezar");
    let c = crate::strings::es_spec().onboarding_start@;
    let s_es = c;
    lemma_keys_skip(c, c.len() as int);
    assert(c.subrange(c.len() as int, c.len() as int) =~= Seq::<char>::empty());
    assert(placeholder_keys(s_es) =~= Seq::<Seq<char>>::empty());
    reveal_strlit("Magsimula");
    let c = crate::strings::fil_spec().onboarding_start@;
    let s_fil = c;
    lemma_keys_skip(c, c.len() as int);
    assert(c.subrange(c.len() as int, c.len() as int) =~= Seq::<char>::empty());
    assert(placeholder_keys(s_fil) =~= Seq::<Seq<char>>::empty());
    reveal_strlit("शुरू करें");
    let c = crate::strings::hi_spec().onboarding_start@;
    let s_hi = c;
    lemma_keys_skip(c, c.len() as int);
    assert(c.subrange(c.len() as int, c.len() as int) =~= Seq::<char>::empty());
    assert(placeholder_keys(s_hi) =~= Seq::<Seq<char>>::empty());
}

proof fn keys_search_window_hint()
    ensures
        placeholder_keys(crate::strings::en_spec().search_window_hint@) == Seq::<Seq<char>>::empty(),
        placeholder_keys(crate::strings::es_spec().search_window_hint@) == Seq::<Seq<char>>::empty(),
        placeholder_keys(crate::strings::fil_spec().search_window_hint@) == Seq::<Seq<char>>::empty(),
        placeholder_keys(crate::strings::hi_spec().search_window_hint@) == Seq::<Seq<char>>::empty(),
{
    reveal_strlit("Search your expansions");
    let c = crate::strings::en_spec().search_window_hint@;
    let s_en = c;
    lemma_keys_skip(c, c.len() as int);
    assert(c.subrange(c.len() as int, c.len() as int) =~= Seq::<char>::empty());
    assert(placeholder_keys(s_en) =~= Seq::<Seq<char>>::empty());
    reveal_strlit("Busca entre tus expansiones");
    let c = crate::strings::es_spec().search_window_hint@;
    let s_es = c;
    lemma_keys_skip(c, c.len() as int);
    assert(c.subrange(c.len() as int, c.len() as int) =~= Seq::<char>::empty());
    assert(placeholder_keys(s_es) =~= Seq::<Seq<char>>::empty());
    reveal_strlit("Maghanap sa mga expansion mo");
    let c = crate::strings::fil_spec().search_window_hint@;
    let s_fil = c;
    lemma_keys_skip(c, c.len() as int);
    assert(c.subrange(c.len() as int, c.len() as int) =~= Seq::<char>::empty());
    assert(placeholder_keys(s_fil) =~= Seq::<Seq<char>>::empty());
    reveal_strlit("अपने एक्सपैंशन खोजें");
    let c = crate::strings::hi_spec().search_window_hint@;
    let s_hi = c;
    lemma_keys_skip(c, c.len() as int);
    assert(c.subrange(c.len() as int, c.len() as int) =~= Seq::<char>::empty());
    assert(placeholder_keys(s_hi) =~= Seq::<Seq<char>>::empty());
}

proof fn keys_search_window_empty()
    ensures
        placeholder_keys(crate::strings::en_spec().search_window_empty@) == Seq::<Seq<char>>::empty(),
        placeholder_keys(crate::strings::es_spec().search_window_empty@) == Seq::<Seq<char>>::empty(),
        placeholder_keys(crate::strings::fil_spec().search_window_empty@) == Seq::<Seq<char>>::empty(),
        placeholder_keys(crate::strings::hi_spec().search_window_empty@) == Seq::<Seq<char>>::empty(),
{
    reveal_strlit("Nothing matches that.");
    let c = crate::strings::en_spec().search_window_empty@;
    let s_en = c;
    lemma_keys_skip(c, c.len() as int);
    assert(c.subrange(c.len() as int, c.len() as int) =~= Seq::<char>::empty());
    assert(placeholder_keys(s_en) =~= Seq::<Seq<char>>::empty());
    reveal_strlit("Nada coincide.");
    let c = crate::strings::es_spec().search_window_empty@;
    let s_es = c;
    lemma_keys_skip(c, c.len() as int);
    assert(c.subrange(c.len() as int, c.len() as int) =~= Seq::<char>::empty());
    assert(placeholder_keys(s_es) =~= Seq::<Seq<char>>::empty());
    reveal_strlit("Walang tumutugma.");
    let c = crate::strings::fil_spec().search_window_empty@;
    let s_fil = c;
    lemma_keys_skip(c, c.len() as int);
    assert(c.subrange(c.len() as int, c.len() as int) =~= Seq::<char>::empty());
    assert(placeholder_keys(s_fil) =~= Seq::<Seq<char>>::empty());
    reveal_strlit("कुछ भी मेल नहीं खाता।");
    let c = crate::strings::hi_spec().search_window_empty@;
    let s_hi = c;
    lemma_keys_skip(c, c.len() as int);
    assert(c.subrange(c.len() as int, c.len() as int) =~= Seq::<char>::empty());
    assert(placeholder_keys(s_hi) =~= Seq::<Seq<char>>::empty());
}

proof fn keys_search_window_footer()
    ensures
        placeholder_keys(crate::strings::en_spec().search_window_footer@) == Seq::<Seq<char>>::empty(),
        placeholder_keys(crate::strings::es_spec().search_window_footer@) == Seq::<Seq<char>>::empty(),
        placeholder_keys(crate::strings::fil_spec().search_window_footer@) == Seq::<Seq<char>>::empty(),
        placeholder_keys(crate::strings::hi_spec().search_window_footer@) == Seq::<Seq<char>>::empty(),
{
    reveal_strlit("↑ ↓ to move · Enter to insert · Esc to close");
    let c = crate::strings::en_spec().search_window_footer@;
    let s_en = c;
    lemma_keys_skip(c, c.len() as int);
    assert(c.subrange(c.len() as int, c.len() as int) =~= Seq::<char>::empty());
    assert(placeholder_keys(s_en) =~= Seq::<Seq<char>>::empty());
    reveal_strlit("↑ ↓ para moverte · Enter para insertar · Esc para cerrar");
    let c = crate::strings::es_spec().search_window_footer@;
    let s_es = c;
    lemma_keys_skip(c, c.len() as int);
    assert(c.subrange(c.len() as int, c.len() as int) =~= Seq::<char>::empty());
    assert(placeholder_keys(s_es) =~= Seq::<Seq<char>>::empty());
    reveal_strlit("↑ ↓ para gumalaw · Enter para ipasok · Esc para isara");
    let c = crate::strings::fil_spec().search_window_footer@;
    let s_fil = c;
    lemma_keys_skip(c, c.len() as int);
    assert(c.subrange(c.len() as int, c.len() as int) =~= Seq::<char>::empty());
    assert(placeholder_keys(s_fil) =~= Seq::<Seq<char>>::empty());
    reveal_strlit("↑ ↓ चलने के लिए · Enter डालने के लिए · Esc बंद करने के लिए");
    let c = crate::strings::hi_spec().search_window_footer@;
    let s_hi = c;
    lemma_keys_skip(c, c.len() as int);
    assert(c.subrange(c.len() as int, c.len() as int) =~= Seq::<char>::empty());
    assert(placeholder_keys(s_hi) =~= Seq::<Seq<char>>::empty());
}

proof fn keys_tip_where_title()
    ensures
        placeholder_keys(crate::strings::en_spec().tip_where_title@) == Seq::<Seq<char>>::empty(),
        placeholder_keys(crate::strings::es_spec().tip_where_title@) == Seq::<Seq<char>>::empty(),
        placeholder_keys(crate::strings::fil_spec().tip_where_title@) == Seq::<Seq<char>>::empty(),
        placeholder_keys(crate::strings::hi_spec().tip_where_title@) == Seq::<Seq<char>>::empty(),
{
    reveal_strlit("Where did the window go?");
    let c = crate::strings::en_spec().tip_where_title@;
    let s_en = c;
    lemma_keys_skip(c, c.len() as int);
    assert(c.subrange(c.len() as int, c.len() as int) =~= Seq::<char>::empty());
    assert(placeholder_keys(s_en) =~= Seq::<Seq<char>>::empty());
    reveal_strlit("¿Dónde quedó la ventana?");
    let c = crate::strings::es_spec().tip_where_title@;
    let s_es = c;
    lemma_keys_skip(c, c.len() as int);
    assert(c.subrange(c.len() as int, c.len() as int) =~= Seq::<char>::empty());
    assert(placeholder_keys(s_es) =~= Seq::<Seq<char>>::empty());
    reveal_strlit("Saan napunta ang window?");
    let c = crate::strings::fil_spec().tip_where_title@;
    let s_fil = c;
    lemma_keys_skip(c, c.len() as int);
    assert(c.subrange(c.len() as int, c.len() as int) =~= Seq::<char>::empty());
    assert(placeholder_keys(s_fil) =~= Seq::<Seq<char>>::empty());
    reveal_strlit("विंडो कहाँ चली गई?");
    let c = crate::strings::hi_spec().tip_where_title@;
    let s_hi = c;
    lemma_keys_skip(c, c.len() as int);
    assert(c.subrange(c.len() as int, c.len() as int) =~= Seq::<char>::empty());
    assert(placeholder_keys(s_hi) =~= Seq::<Seq<char>>::empty());
}

proof fn keys_tip_where_body()
    ensures
        placeholder_keys(crate::strings::en_spec().tip_where_body@) == Seq::<Seq<char>>::empty(),
        placeholder_keys(crate::strings::es_spec().tip_where_body@) == Seq::<Seq<char>>::empty(),
        placeholder_keys(crate::strings::fil_spec().tip_where_body@) == Seq::<Seq<char>>::empty(),
        placeholder_keys(crate::strings::hi_spec().tip_where_body@) == Seq::<Seq<char>>::empty(),
{
    reveal_strlit("It lives in the system tray, next to the clock. One click brings it back. Closing it with the X does not shut it down — it puts it away, so it never sits in front of the work you were doing.");
    let c = crate::strings::en_spec().tip_where_body@;
    let s_en = c;
    lemma_keys_skip(c, c.len() as int);
    assert(c.subrange(c.len() as int, c.len() as int) =~= Seq::<char>::empty());
    assert(placeholder_keys(s_en) =~= Seq::<Seq<char>>::empty());
    reveal_strlit("Vive en la bandeja del sistema, junto al reloj. Un clic y vuelve. Cerrarla con la X no la apaga: la guarda, para que nunca se te atraviese mientras trabajas.");
    let c = crate::strings::es_spec().tip_where_body@;
    let s_es = c;
    lemma_keys_skip(c, c.len() as int);
    assert(c.subrange(c.len() as int, c.len() as int) =~= Seq::<char>::empty());
    assert(placeholder_keys(s_es) =~= Seq::<Seq<char>>::empty());
    reveal_strlit("Nasa system tray ito, katabi ng orasan. Isang click at babalik. Ang pagsasara gamit ang X ay hindi nagpapatay nito — itinatabi lang, para hindi humarang sa trabaho mo.");
    let c = crate::strings::fil_spec().tip_where_body@;
    let s_fil = c;
    lemma_keys_skip(c, c.len() as int);
    assert(c.subrange(c.len() as int, c.len() as int) =~= Seq::<char>::empty());
    assert(placeholder_keys(s_fil) =~= Seq::<Seq<char>>::empty());
    reveal_strlit("यह सिस्टम ट्रे में रहती है, घड़ी के पास। एक क्लिक और वापस आ जाती है। X से बंद करने पर यह बंद नहीं होती — बस रख दी जाती है, ताकि काम करते समय बीच में न आए।");
    let c = crate::strings::hi_spec().tip_where_body@;
    let s_hi = c;
    lemma_keys_skip(c, c.len() as int);
    assert(c.subrange(c.len() as int, c.len() as int) =~= Seq::<char>::empty());
    assert(placeholder_keys(s_hi) =~= Seq::<Seq<char>>::empty());
}

proof fn keys_tip_pin_title()
    ensures
        placeholder_keys(crate::strings::en_spec().tip_pin_title@) == Seq::<Seq<char>>::empty(),
        placeholder_keys(crate::strings::es_spec().tip_pin_title@) == Seq::<Seq<char>>::empty(),
        placeholder_keys(crate::strings::fil_spec().tip_pin_title@) == Seq::<Seq<char>>::empty(),
        placeholder_keys(crate::strings::hi_spec().tip_pin_title@) == Seq::<Seq<char>>::empty(),
{
    reveal_strlit("Keep the icon where you can see it");
    let c = crate::strings::en_spec().tip_pin_title@;
    let s_en = c;
    lemma_keys_skip(c, c.len() as int);
    assert(c.subrange(c.len() as int, c.len() as int) =~= Seq::<char>::empty());
    assert(placeholder_keys(s_en) =~= Seq::<Seq<char>>::empty());
    reveal_strlit("Deja el icono siempre a la vista");
    let c = crate::strings::es_spec().tip_pin_title@;
    let s_es = c;
    lemma_keys_skip(c, c.len() as int);
    assert(c.subrange(c.len() as int, c.len() as int) =~= Seq::<char>::empty());
    assert(placeholder_keys(s_es) =~= Seq::<Seq<char>>::empty());
    reveal_strlit("Panatilihing nakikita ang icon");
    let c = crate::strings::fil_spec().tip_pin_title@;
    let s_fil = c;
    lemma_keys_skip(c, c.len() as int);
    assert(c.subrange(c.len() as int, c.len() as int) =~= Seq::<char>::empty());
    assert(placeholder_keys(s_fil) =~= Seq::<Seq<char>>::empty());
    reveal_strlit("आइकन को हमेशा दिखने दें");
    let c = crate::strings::hi_spec().tip_pin_title@;
    let s_hi = c;
    lemma_keys_skip(c, c.len() as int);
    assert(c.subrange(c.len() as int, c.len() as int) =~= Seq::<char>::empty());
    assert(placeholder_keys(s_hi) =~= Seq::<Seq<char>>::empty());
}

proof fn keys_tip_pin_body()
    ensures
        placeholder_keys(crate::strings::en_spec().tip_pin_body@) == Seq::<Seq<char>>::empty(),
        placeholder_keys(crate::strings::es_spec().tip_pin_body@) == Seq::<Seq<char>>::empty(),
        placeholder_keys(crate::strings::fil_spec().tip_pin_body@) == Seq::<Seq<char>>::empty(),
        placeholder_keys(crate::strings::hi_spec().tip_pin_body@) == Seq::<Seq<char>>::empty(),
{
    reveal_strlit("Windows hides new tray icons behind the small arrow. Open it and drag the EspansoManager icon down onto the taskbar — it stays there from then on.");
    let c = crate::strings::en_spec().tip_pin_body@;
    let s_en = c;
    lemma_keys_skip(c, c.len() as int);
    assert(c.subrange(c.len() as int, c.len() as int) =~= Seq::<char>::empty());
    assert(placeholder_keys(s_en) =~= Seq::<Seq<char>>::empty());
    reveal_strlit("Windows esconde los iconos nuevos detrás de la flechita. Ábrela y arrastra el de EspansoManager hacia la barra de tareas: de ahí ya no se mueve.");
    let c = crate::strings::es_spec().tip_pin_body@;
    let s_es = c;
    lemma_keys_skip(c, c.len() as int);
    assert(c.subrange(c.len() as int, c.len() as int) =~= Seq::<char>::empty());
    assert(placeholder_keys(s_es) =~= Seq::<Seq<char>>::empty());
    reveal_strlit("Itinatago ng Windows ang mga bagong tray icon sa likod ng maliit na arrow. Buksan ito at i-drag ang icon ng EspansoManager pababa sa taskbar — doon na ito mananatili.");
    let c = crate::strings::fil_spec().tip_pin_body@;
    let s_fil = c;
    lemma_keys_skip(c, c.len() as int);
    assert(c.subrange(c.len() as int, c.len() as int) =~= Seq::<char>::empty());
    assert(placeholder_keys(s_fil) =~= Seq::<Seq<char>>::empty());
    reveal_strlit("Windows नए ट्रे आइकन को छोटे तीर के पीछे छिपा देता है। उसे खोलें और EspansoManager के आइकन को टास्कबार पर खींच लाएँ — फिर वह वहीं रहेगा।");
    let c = crate::strings::hi_spec().tip_pin_body@;
    let s_hi = c;
    lemma_keys_skip(c, c.len() as int);
    assert(c.subrange(c.len() as int, c.len() as int) =~= Seq::<char>::empty());
    assert(placeholder_keys(s_hi) =~= Seq::<Seq<char>>::empty());
}

proof fn keys_tip_undo_title()
    ensures
        placeholder_keys(crate::strings::en_spec().tip_undo_title@) == Seq::<Seq<char>>::empty(),
        placeholder_keys(crate::strings::es_spec().tip_undo_title@) == Seq::<Seq<char>>::empty(),
        placeholder_keys(crate::strings::fil_spec().tip_undo_title@) == Seq::<Seq<char>>::empty(),
        placeholder_keys(crate::strings::hi_spec().tip_undo_title@) == Seq::<Seq<char>>::empty(),
{
    reveal_strlit("An expansion fired when you did not want it to");
    let c = crate::strings::en_spec().tip_undo_title@;
    let s_en = c;
    lemma_keys_skip(c, c.len() as int);
    assert(c.subrange(c.len() as int, c.len() as int) =~= Seq::<char>::empty());
    assert(placeholder_keys(s_en) =~= Seq::<Seq<char>>::empty());
    reveal_strlit("Se activó una expansión sin querer");
    let c = crate::strings::es_spec().tip_undo_title@;
    let s_es = c;
    lemma_keys_skip(c, c.len() as int);
    assert(c.subrange(c.len() as int, c.len() as int) =~= Seq::<char>::empty());
    assert(placeholder_keys(s_es) =~= Seq::<Seq<char>>::empty());
    reveal_strlit("Tumakbo ang expansion nang hindi mo sinasadya");
    let c = crate::strings::fil_spec().tip_undo_title@;
    let s_fil = c;
    lemma_keys_skip(c, c.len() as int);
    assert(c.subrange(c.len() as int, c.len() as int) =~= Seq::<char>::empty());
    assert(placeholder_keys(s_fil) =~= Seq::<Seq<char>>::empty());
    reveal_strlit("एक्सपैंशन बिना चाहे चल गया");
    let c = crate::strings::hi_spec().tip_undo_title@;
    let s_hi = c;
    lemma_keys_skip(c, c.len() as int);
    assert(c.subrange(c.len() as int, c.len() as int) =~= Seq::<char>::empty());
    assert(placeholder_keys(s_hi) =~= Seq::<Seq<char>>::empty());
}

proof fn keys_tip_undo_body()
    ensures
        placeholder_keys(crate::strings::en_spec().tip_undo_body@) == Seq::<Seq<char>>::empty(),
        placeholder_keys(crate::strings::es_spec().tip_undo_body@) == Seq::<Seq<char>>::empty(),
        placeholder_keys(crate::strings::fil_spec().tip_undo_body@) == Seq::<Seq<char>>::empty(),
        placeholder_keys(crate::strings::hi_spec().tip_undo_body@) == Seq::<Seq<char>>::empty(),
{
    reveal_strlit("Press Esc, once, right after it happens. The expansion is undone and your text is left as you typed it.");
    let c = crate::strings::en_spec().tip_undo_body@;
    let s_en = c;
    lemma_keys_skip(c, c.len() as int);
    assert(c.subrange(c.len() as int, c.len() as int) =~= Seq::<char>::empty());
    assert(placeholder_keys(s_en) =~= Seq::<Seq<char>>::empty());
    reveal_strlit("Presiona Esc una vez, justo después. La expansión se deshace y tu texto queda tal como lo escribiste.");
    let c = crate::strings::es_spec().tip_undo_body@;
    let s_es = c;
    lemma_keys_skip(c, c.len() as int);
    assert(c.subrange(c.len() as int, c.len() as int) =~= Seq::<char>::empty());
    assert(placeholder_keys(s_es) =~= Seq::<Seq<char>>::empty());
    reveal_strlit("Pindutin ang Esc, isang beses, agad pagkatapos. Mababawi ang expansion at mananatili ang teksto mo gaya ng pagkakasulat mo.");
    let c = crate::strings::fil_spec().tip_undo_body@;
    let s_fil = c;
    lemma_keys_skip(c, c.len() as int);
    assert(c.subrange(c.len() as int, c.len() as int) =~= Seq::<char>::empty());
    assert(placeholder_keys(s_fil) =~= Seq::<Seq<char>>::empty());
    reveal_strlit("तुरंत बाद एक बार Esc दबाएँ। एक्सपैंशन पलट जाएगा और आपका टेक्स्ट वैसा ही रहेगा जैसा आपने लिखा था।");
    let c = crate::strings::hi_spec().tip_undo_body@;
    let s_hi = c;
    lemma_keys_skip(c, c.len() as int);
    assert(c.subrange(c.len() as int, c.len() as int) =~= Seq::<char>::empty());
    assert(placeholder_keys(s_hi) =~= Seq::<Seq<char>>::empty());
}

proof fn keys_tip_pause_title()
    ensures
        placeholder_keys(crate::strings::en_spec().tip_pause_title@) == Seq::<Seq<char>>::empty(),
        placeholder_keys(crate::strings::es_spec().tip_pause_title@) == Seq::<Seq<char>>::empty(),
        placeholder_keys(crate::strings::fil_spec().tip_pause_title@) == Seq::<Seq<char>>::empty(),
        placeholder_keys(crate::strings::hi_spec().tip_pause_title@) == Seq::<Seq<char>>::empty(),
{
    reveal_strlit("Pause it when it is in the way");
    let c = crate::strings::en_spec().tip_pause_title@;
    let s_en = c;
    lemma_keys_skip(c, c.len() as int);
    assert(c.subrange(c.len() as int, c.len() as int) =~= Seq::<char>::empty());
    assert(placeholder_keys(s_en) =~= Seq::<Seq<char>>::empty());
    reveal_strlit("Pausa cuando estorbe");
    let c = crate::strings::es_spec().tip_pause_title@;
    let s_es = c;
    lemma_keys_skip(c, c.len() as int);
    assert(c.subrange(c.len() as int, c.len() as int) =~= Seq::<char>::empty());
    assert(placeholder_keys(s_es) =~= Seq::<Seq<char>>::empty());
    reveal_strlit("I-pause kapag nakakaabala");
    let c = crate::strings::fil_spec().tip_pause_title@;
    let s_fil = c;
    lemma_keys_skip(c, c.len() as int);
    assert(c.subrange(c.len() as int, c.len() as int) =~= Seq::<char>::empty());
    assert(placeholder_keys(s_fil) =~= Seq::<Seq<char>>::empty());
    reveal_strlit("जब बाधा बने तो रोक दें");
    let c = crate::strings::hi_spec().tip_pause_title@;
    let s_hi = c;
    lemma_keys_skip(c, c.len() as int);
    assert(c.subrange(c.len() as int, c.len() as int) =~= Seq::<char>::empty());
    assert(placeholder_keys(s_hi) =~= Seq::<Seq<char>>::empty());
}

proof fn keys_tip_pause_body()
    ensures
        placeholder_keys(crate::strings::en_spec().tip_pause_body@) == Seq::<Seq<char>>::empty(),
        placeholder_keys(crate::strings::es_spec().tip_pause_body@) == Seq::<Seq<char>>::empty(),
        placeholder_keys(crate::strings::fil_spec().tip_pause_body@) == Seq::<Seq<char>>::empty(),
        placeholder_keys(crate::strings::hi_spec().tip_pause_body@) == Seq::<Seq<char>>::empty(),
{
    reveal_strlit("Right-click the tray icon: pause for ten minutes, or pause until you say otherwise. Useful when you are typing something your triggers would interfere with — a password field, a piece of code.");
    let c = crate::strings::en_spec().tip_pause_body@;
    let s_en = c;
    lemma_keys_skip(c, c.len() as int);
    assert(c.subrange(c.len() as int, c.len() as int) =~= Seq::<char>::empty());
    assert(placeholder_keys(s_en) =~= Seq::<Seq<char>>::empty());
    reveal_strlit("Clic derecho en el icono de la bandeja: pausa diez minutos, o pausa hasta que tú digas. Sirve cuando escribes algo donde tus atajos estorbarían — una contraseña, un pedazo de código.");
    let c = crate::strings::es_spec().tip_pause_body@;
    let s_es = c;
    lemma_keys_skip(c, c.len() as int);
    assert(c.subrange(c.len() as int, c.len() as int) =~= Seq::<char>::empty());
    assert(placeholder_keys(s_es) =~= Seq::<Seq<char>>::empty());
    reveal_strlit("I-right-click ang tray icon: i-pause nang sampung minuto, o i-pause hanggang sabihin mo. Kapaki-pakinabang kapag may tinitipa kang makakasagabal sa mga trigger mo — isang password, isang piraso ng code.");
    let c = crate::strings::fil_spec().tip_pause_body@;
    let s_fil = c;
    lemma_keys_skip(c, c.len() as int);
    assert(c.subrange(c.len() as int, c.len() as int) =~= Seq::<char>::empty());
    assert(placeholder_keys(s_fil) =~= Seq::<Seq<char>>::empty());
    reveal_strlit("ट्रे आइकन पर दायाँ क्लिक करें: दस मिनट के लिए रोकें, या जब तक आप न कहें तब तक रोकें। तब काम आता है जब आप कुछ ऐसा टाइप कर रहे हों जिसमें आपके ट्रिगर बाधा डालें — कोई पासवर्ड, कोई कोड।");
    let c = crate::strings::hi_spec().tip_pause_body@;
    let s_hi = c;
    lemma_keys_skip(c, c.len() as int);
    assert(c.subrange(c.len() as int, c.len() as int) =~= Seq::<char>::empty());
    assert(placeholder_keys(s_hi) =~= Seq::<Seq<char>>::empty());
}

proof fn keys_tip_select_title()
    ensures
        placeholder_keys(crate::strings::en_spec().tip_select_title@) == Seq::<Seq<char>>::empty(),
        placeholder_keys(crate::strings::es_spec().tip_select_title@) == Seq::<Seq<char>>::empty(),
        placeholder_keys(crate::strings::fil_spec().tip_select_title@) == Seq::<Seq<char>>::empty(),
        placeholder_keys(crate::strings::hi_spec().tip_select_title@) == Seq::<Seq<char>>::empty(),
{
    reveal_strlit("Work on several at once");
    let c = crate::strings::en_spec().tip_select_title@;
    let s_en = c;
    lemma_keys_skip(c, c.len() as int);
    assert(c.subrange(c.len() as int, c.len() as int) =~= Seq::<char>::empty());
    assert(placeholder_keys(s_en) =~= Seq::<Seq<char>>::empty());
    reveal_strlit("Trabaja con varias a la vez");
    let c = crate::strings::es_spec().tip_select_title@;
    let s_es = c;
    lemma_keys_skip(c, c.len() as int);
    assert(c.subrange(c.len() as int, c.len() as int) =~= Seq::<char>::empty());
    assert(placeholder_keys(s_es) =~= Seq::<Seq<char>>::empty());
    reveal_strlit("Maraming expansion nang sabay");
    let c = crate::strings::fil_spec().tip_select_title@;
    let s_fil = c;
    lemma_keys_skip(c, c.len() as int);
    assert(c.subrange(c.len() as int, c.len() as int) =~= Seq::<char>::empty());
    assert(placeholder_keys(s_fil) =~= Seq::<Seq<char>>::empty());
    reveal_strlit("एक साथ कई पर काम करें");
    let c = crate::strings::hi_spec().tip_select_title@;
    let s_hi = c;
    lemma_keys_skip(c, c.len() as int);
    assert(c.subrange(c.len() as int, c.len() as int) =~= Seq::<char>::empty());
    assert(placeholder_keys(s_hi) =~= Seq::<Seq<char>>::empty());
}

proof fn keys_tip_select_body()
    ensures
        placeholder_keys(crate::strings::en_spec().tip_select_body@) == Seq::<Seq<char>>::empty(),
        placeholder_keys(crate::strings::es_spec().tip_select_body@) == Seq::<Seq<char>>::empty(),
        placeholder_keys(crate::strings::fil_spec().tip_select_body@) == Seq::<Seq<char>>::empty(),
        placeholder_keys(crate::strings::hi_spec().tip_select_body@) == Seq::<Seq<char>>::empty(),
{
    reveal_strlit("In the list, hold Ctrl to pick expansions one by one, or Shift to take a whole run of them. You can then delete them, or take them out of their folder, in one go.");
    let c = crate::strings::en_spec().tip_select_body@;
    let s_en = c;
    lemma_keys_skip(c, c.len() as int);
    assert(c.subrange(c.len() as int, c.len() as int) =~= Seq::<char>::empty());
    assert(placeholder_keys(s_en) =~= Seq::<Seq<char>>::empty());
    reveal_strlit("En la lista, mantén Ctrl para elegirlas una por una, o Shift para tomar un tramo entero. Luego puedes borrarlas, o sacarlas de su carpeta, de un solo golpe.");
    let c = crate::strings::es_spec().tip_select_body@;
    let s_es = c;
    lemma_keys_skip(c, c.len() as int);
    assert(c.subrange(c.len() as int, c.len() as int) =~= Seq::<char>::empty());
    assert(placeholder_keys(s_es) =~= Seq::<Seq<char>>::empty());
    reveal_strlit("Sa listahan, pindutin nang matagal ang Ctrl para pumili isa-isa, o Shift para kunin ang buong hanay. Pagkatapos ay maaari mong burahin ang mga ito, o alisin sa folder nila, nang sabay-sabay.");
    let c = crate::strings::fil_spec().tip_select_body@;
    let s_fil = c;
    lemma_keys_skip(c, c.len() as int);
    assert(c.subrange(c.len() as int, c.len() as int) =~= Seq::<char>::empty());
    assert(placeholder_keys(s_fil) =~= Seq::<Seq<char>>::empty());
    reveal_strlit("सूची में, एक-एक चुनने के लिए Ctrl दबाए रखें, या पूरी श्रृंखला लेने के लिए Shift। फिर आप उन्हें एक ही बार में मिटा सकते हैं, या उनके फ़ोल्डर से बाहर निकाल सकते हैं।");
    let c = crate::strings::hi_spec().tip_select_body@;
    let s_hi = c;
    lemma_keys_skip(c, c.len() as int);
    assert(c.subrange(c.len() as int, c.len() as int) =~= Seq::<char>::empty());
    assert(placeholder_keys(s_hi) =~= Seq::<Seq<char>>::empty());
}

proof fn keys_new_expansion()
    ensures
        placeholder_keys(crate::strings::en_spec().new_expansion@) == Seq::<Seq<char>>::empty(),
        placeholder_keys(crate::strings::es_spec().new_expansion@) == Seq::<Seq<char>>::empty(),
        placeholder_keys(crate::strings::fil_spec().new_expansion@) == Seq::<Seq<char>>::empty(),
        placeholder_keys(crate::strings::hi_spec().new_expansion@) == Seq::<Seq<char>>::empty(),
{
    reveal_strlit("New expansion");
    let c = crate::strings::en_spec().new_expansion@;
    let s_en = c;
    lemma_keys_skip(c, c.len() as int);
    assert(c.subrange(c.len() as int, c.len() as int) =~= Seq::<char>::empty());
    assert(placeholder_keys(s_en) =~= Seq::<Seq<char>>::empty());
    reveal_strlit("Nueva expansión");
    let c = crate::strings::es_spec().new_expansion@;
    let s_es = c;
    lemma_keys_skip(c, c.len() as int);
    assert(c.subrange(c.len() as int, c.len() as int) =~= Seq::<char>::empty());
    assert(placeholder_keys(s_es) =~= Seq::<Seq<char>>::empty());
    reveal_strlit("Bagong expansion");
    let c = crate::strings::fil_spec().new_expansion@;
    let s_fil = c;
    lemma_keys_skip(c, c.len() as int);
    assert(c.subrange(c.len() as int, c.len() as int) =~= Seq::<char>::empty());
    assert(placeholder_keys(s_fil) =~= Seq::<Seq<char>>::empty());
    reveal_strlit("नया विस्तार");
    let c = crate::strings::hi_spec().new_expansion@;
    let s_hi = c;
    lemma_keys_skip(c, c.len() as int);
    assert(c.subrange(c.len() as int, c.len() as int) =~= Seq::<char>::empty());
    assert(placeholder_keys(s_hi) =~= Seq::<Seq<char>>::empty());
}

proof fn keys_search_label()
    ensures
        placeholder_keys(crate::strings::en_spec().search_label@) == Seq::<Seq<char>>::empty(),
        placeholder_keys(crate::strings::es_spec().search_label@) == Seq::<Seq<char>>::empty(),
        placeholder_keys(crate::strings::fil_spec().search_label@) == Seq::<Seq<char>>::empty(),
        placeholder_keys(crate::strings::hi_spec().search_label@) == Seq::<Seq<char>>::empty(),
{
    reveal_strlit("Search expansions");
    let c = crate::strings::en_spec().search_label@;
    let s_en = c;
    lemma_keys_skip(c, c.len() as int);
    assert(c.subrange(c.len() as int, c.len() as int) =~= Seq::<char>::empty());
    assert(placeholder_keys(s_en) =~= Seq::<Seq<char>>::empty());
    reveal_strlit("Buscar expansiones");
    let c = crate::strings::es_spec().search_label@;
    let s_es = c;
    lemma_keys_skip(c, c.len() as int);
    assert(c.subrange(c.len() as int, c.len() as int) =~= Seq::<char>::empty());
    assert(placeholder_keys(s_es) =~= Seq::<Seq<char>>::empty());
    reveal_strlit("Maghanap ng expansion");
    let c = crate::strings::fil_spec().search_label@;
    let s_fil = c;
    lemma_keys_skip(c, c.len() as int);
    assert(c.subrange(c.len() as int, c.len() as int) =~= Seq::<char>::empty());
    assert(placeholder_keys(s_fil) =~= Seq::<Seq<char>>::empty());
    reveal_strlit("एक्सपैंशन खोजें");
    let c = crate::strings::hi_spec().search_label@;
    let s_hi = c;
    lemma_keys_skip(c, c.len() as int);
    assert(c.subrange(c.len() as int, c.len() as int) =~= Seq::<char>::empty());
    assert(placeholder_keys(s_hi) =~= Seq::<Seq<char>>::empty());
}

proof fn keys_empty_title()
    ensures
        placeholder_keys(crate::strings::en_spec().empty_title@) == Seq::<Seq<char>>::empty(),
        placeholder_keys(crate::strings::es_spec().empty_title@) == Seq::<Seq<char>>::empty(),
        placeholder_keys(crate::strings::fil_spec().empty_title@) == Seq::<Seq<char>>::empty(),
        placeholder_keys(crate::strings::hi_spec().empty_title@) == Seq::<Seq<char>>::empty(),
{
    reveal_strlit("You don't have any text expansions yet.");
    let c = crate::strings::en_spec().empty_title@;
    let s_en = c;
    lemma_keys_skip(c, c.len() as int);
    assert(c.subrange(c.len() as int, c.len() as int) =~= Seq::<char>::empty());
    assert(placeholder_keys(s_en) =~= Seq::<Seq<char>>::empty());
    reveal_strlit("Aún no tienes ninguna expansión de texto.");
    let c = crate::strings::es_spec().empty_title@;
    let s_es = c;
    lemma_keys_skip(c, c.len() as int);
    assert(c.subrange(c.len() as int, c.len() as int) =~= Seq::<char>::empty());
    assert(placeholder_keys(s_es) =~= Seq::<Seq<char>>::empty());
    reveal_strlit("Wala ka pang anumang text expansion.");
    let c = crate::strings::fil_spec().empty_title@;
    let s_fil = c;
    lemma_keys_skip(c, c.len() as int);
    assert(c.subrange(c.len() as int, c.len() as int) =~= Seq::<char>::empty());
    assert(placeholder_keys(s_fil) =~= Seq::<Seq<char>>::empty());
    reveal_strlit("आपके पास अभी कोई टेक्स्ट विस्तार नहीं है।");
    let c = crate::strings::hi_spec().empty_title@;
    let s_hi = c;
    lemma_keys_skip(c, c.len() as int);
    assert(c.subrange(c.len() as int, c.len() as int) =~= Seq::<char>::empty());
    assert(placeholder_keys(s_hi) =~= Seq::<Seq<char>>::empty());
}

proof fn keys_empty_hint()
    ensures
        placeholder_keys(crate::strings::en_spec().empty_hint@) == Seq::<Seq<char>>::empty(),
        placeholder_keys(crate::strings::es_spec().empty_hint@) == Seq::<Seq<char>>::empty(),
        placeholder_keys(crate::strings::fil_spec().empty_hint@) == Seq::<Seq<char>>::empty(),
        placeholder_keys(crate::strings::hi_spec().empty_hint@) == Seq::<Seq<char>>::empty(),
{
    reveal_strlit("Use the \"New expansion\" button above to create your first one.");
    let c = crate::strings::en_spec().empty_hint@;
    let s_en = c;
    lemma_keys_skip(c, c.len() as int);
    assert(c.subrange(c.len() as int, c.len() as int) =~= Seq::<char>::empty());
    assert(placeholder_keys(s_en) =~= Seq::<Seq<char>>::empty());
    reveal_strlit("Usa el botón \"Nueva expansión\" de arriba para crear la primera.");
    let c = crate::strings::es_spec().empty_hint@;
    let s_es = c;
    lemma_keys_skip(c, c.len() as int);
    assert(c.subrange(c.len() as int, c.len() as int) =~= Seq::<char>::empty());
    assert(placeholder_keys(s_es) =~= Seq::<Seq<char>>::empty());
    reveal_strlit("Gamitin ang butones na \"Bagong expansion\" sa itaas para gumawa ng una mo.");
    let c = crate::strings::fil_spec().empty_hint@;
    let s_fil = c;
    lemma_keys_skip(c, c.len() as int);
    assert(c.subrange(c.len() as int, c.len() as int) =~= Seq::<char>::empty());
    assert(placeholder_keys(s_fil) =~= Seq::<Seq<char>>::empty());
    reveal_strlit("पहला बनाने के लिए ऊपर दिए \"नया विस्तार\" बटन का उपयोग करें।");
    let c = crate::strings::hi_spec().empty_hint@;
    let s_hi = c;
    lemma_keys_skip(c, c.len() as int);
    assert(c.subrange(c.len() as int, c.len() as int) =~= Seq::<char>::empty());
    assert(placeholder_keys(s_hi) =~= Seq::<Seq<char>>::empty());
}

proof fn keys_no_matches()
    ensures
        placeholder_keys(crate::strings::en_spec().no_matches@) == Seq::<Seq<char>>::empty(),
        placeholder_keys(crate::strings::es_spec().no_matches@) == Seq::<Seq<char>>::empty(),
        placeholder_keys(crate::strings::fil_spec().no_matches@) == Seq::<Seq<char>>::empty(),
        placeholder_keys(crate::strings::hi_spec().no_matches@) == Seq::<Seq<char>>::empty(),
{
    reveal_strlit("No expansion matches your search.");
    let c = crate::strings::en_spec().no_matches@;
    let s_en = c;
    lemma_keys_skip(c, c.len() as int);
    assert(c.subrange(c.len() as int, c.len() as int) =~= Seq::<char>::empty());
    assert(placeholder_keys(s_en) =~= Seq::<Seq<char>>::empty());
    reveal_strlit("Ninguna expansión coincide con tu búsqueda.");
    let c = crate::strings::es_spec().no_matches@;
    let s_es = c;
    lemma_keys_skip(c, c.len() as int);
    assert(c.subrange(c.len() as int, c.len() as int) =~= Seq::<char>::empty());
    assert(placeholder_keys(s_es) =~= Seq::<Seq<char>>::empty());
    reveal_strlit("Walang expansion na tumutugma sa iyong paghahanap.");
    let c = crate::strings::fil_spec().no_matches@;
    let s_fil = c;
    lemma_keys_skip(c, c.len() as int);
    assert(c.subrange(c.len() as int, c.len() as int) =~= Seq::<char>::empty());
    assert(placeholder_keys(s_fil) =~= Seq::<Seq<char>>::empty());
    reveal_strlit("आपकी खोज से कोई विस्तार मेल नहीं खाता।");
    let c = crate::strings::hi_spec().no_matches@;
    let s_hi = c;
    lemma_keys_skip(c, c.len() as int);
    assert(c.subrange(c.len() as int, c.len() as int) =~= Seq::<char>::empty());
    assert(placeholder_keys(s_hi) =~= Seq::<Seq<char>>::empty());
}

proof fn keys_view_comfortable_tip()
    ensures
        placeholder_keys(crate::strings::en_spec().view_comfortable_tip@) == Seq::<Seq<char>>::empty(),
        placeholder_keys(crate::strings::es_spec().view_comfortable_tip@) == Seq::<Seq<char>>::empty(),
        placeholder_keys(crate::strings::fil_spec().view_comfortable_tip@) == Seq::<Seq<char>>::empty(),
        placeholder_keys(crate::strings::hi_spec().view_comfortable_tip@) == Seq::<Seq<char>>::empty(),
{
    reveal_strlit("Comfortable view");
    let c = crate::strings::en_spec().view_comfortable_tip@;
    let s_en = c;
    lemma_keys_skip(c, c.len() as int);
    assert(c.subrange(c.len() as int, c.len() as int) =~= Seq::<char>::empty());
    assert(placeholder_keys(s_en) =~= Seq::<Seq<char>>::empty());
    reveal_strlit("Vista predeterminada");
    let c = crate::strings::es_spec().view_comfortable_tip@;
    let s_es = c;
    lemma_keys_skip(c, c.len() as int);
    assert(c.subrange(c.len() as int, c.len() as int) =~= Seq::<char>::empty());
    assert(placeholder_keys(s_es) =~= Seq::<Seq<char>>::empty());
    reveal_strlit("Karaniwang view");
    let c = crate::strings::fil_spec().view_comfortable_tip@;
    let s_fil = c;
    lemma_keys_skip(c, c.len() as int);
    assert(c.subrange(c.len() as int, c.len() as int) =~= Seq::<char>::empty());
    assert(placeholder_keys(s_fil) =~= Seq::<Seq<char>>::empty());
    reveal_strlit("सामान्य दृश्य");
    let c = crate::strings::hi_spec().view_comfortable_tip@;
    let s_hi = c;
    lemma_keys_skip(c, c.len() as int);
    assert(c.subrange(c.len() as int, c.len() as int) =~= Seq::<char>::empty());
    assert(placeholder_keys(s_hi) =~= Seq::<Seq<char>>::empty());
}

proof fn keys_view_compact_tip()
    ensures
        placeholder_keys(crate::strings::en_spec().view_compact_tip@) == Seq::<Seq<char>>::empty(),
        placeholder_keys(crate::strings::es_spec().view_compact_tip@) == Seq::<Seq<char>>::empty(),
        placeholder_keys(crate::strings::fil_spec().view_compact_tip@) == Seq::<Seq<char>>::empty(),
        placeholder_keys(crate::strings::hi_spec().view_compact_tip@) == Seq::<Seq<char>>::empty(),
{
    reveal_strlit("Compact view");
    let c = crate::strings::en_spec().view_compact_tip@;
    let s_en = c;
    lemma_keys_skip(c, c.len() as int);
    assert(c.subrange(c.len() as int, c.len() as int) =~= Seq::<char>::empty());
    assert(placeholder_keys(s_en) =~= Seq::<Seq<char>>::empty());
    reveal_strlit("Vista compacta");
    let c = crate::strings::es_spec().view_compact_tip@;
    let s_es = c;
    lemma_keys_skip(c, c.len() as int);
    assert(c.subrange(c.len() as int, c.len() as int) =~= Seq::<char>::empty());
    assert(placeholder_keys(s_es) =~= Seq::<Seq<char>>::empty());
    reveal_strlit("Compact na view");
    let c = crate::strings::fil_spec().view_compact_tip@;
    let s_fil = c;
    lemma_keys_skip(c, c.len() as int);
    assert(c.subrange(c.len() as int, c.len() as int) =~= Seq::<char>::empty());
    assert(placeholder_keys(s_fil) =~= Seq::<Seq<char>>::empty());
    reveal_strlit("संक्षिप्त दृश्य");
    let c = crate::strings::hi_spec().view_compact_tip@;
    let s_hi = c;
    lemma_keys_skip(c, c.len() as int);
    assert(c.subrange(c.len() as int, c.len() as int) =~= Seq::<char>::empty());
    assert(placeholder_keys(s_hi) =~= Seq::<Seq<char>>::empty());
}

proof fn keys_prefix_field_hint()
    ensures
        placeholder_keys(crate::strings::en_spec().prefix_field_hint@) == Seq::<Seq<char>>::empty(),
        placeholder_keys(crate::strings::es_spec().prefix_field_hint@) == Seq::<Seq<char>>::empty(),
        placeholder_keys(crate::strings::fil_spec().prefix_field_hint@) == Seq::<Seq<char>>::empty(),
        placeholder_keys(crate::strings::hi_spec().prefix_field_hint@) == Seq::<Seq<char>>::empty(),
{
    reveal_strlit("prefix");
    let c = crate::strings::en_spec().prefix_field_hint@;
    let s_en = c;
    lemma_keys_skip(c, c.len() as int);
    assert(c.subrange(c.len() as int, c.len() as int) =~= Seq::<char>::empty());
    assert(placeholder_keys(s_en) =~= Seq::<Seq<char>>::empty());
    reveal_strlit("prefijo");
    let c = crate::strings::es_spec().prefix_field_hint@;
    let s_es = c;
    lemma_keys_skip(c, c.len() as int);
    assert(c.subrange(c.len() as int, c.len() as int) =~= Seq::<char>::empty());
    assert(placeholder_keys(s_es) =~= Seq::<Seq<char>>::empty());
    reveal_strlit("prefix");
    let c = crate::strings::fil_spec().prefix_field_hint@;
    let s_fil = c;
    lemma_keys_skip(c, c.len() as int);
    assert(c.subrange(c.len() as int, c.len() as int) =~= Seq::<char>::empty());
    assert(placeholder_keys(s_fil) =~= Seq::<Seq<char>>::empty());
    reveal_strlit("उपसर्ग");
    let c = crate::strings::hi_spec().prefix_field_hint@;
    let s_hi = c;
    lemma_keys_skip(c, c.len() as int);
    assert(c.subrange(c.len() as int, c.len() as int) =~= Seq::<char>::empty());
    assert(placeholder_keys(s_hi) =~= Seq::<Seq<char>>::empty());
}

proof fn keys_word_field_hint()
    ensures
        placeholder_keys(crate::strings::en_spec().word_field_hint@) == Seq::<Seq<char>>::empty(),
        placeholder_keys(crate::strings::es_spec().word_field_hint@) == Seq::<Seq<char>>::empty(),
        placeholder_keys(crate::strings::fil_spec().word_field_hint@) == Seq::<Seq<char>>::empty(),
        placeholder_keys(crate::strings::hi_spec().word_field_hint@) == Seq::<Seq<char>>::empty(),
{
    reveal_strlit("word");
    let c = crate::strings::en_spec().word_field_hint@;
    let s_en = c;
    lemma_keys_skip(c, c.len() as int);
    assert(c.subrange(c.len() as int, c.len() as int) =~= Seq::<char>::empty());
    assert(placeholder_keys(s_en) =~= Seq::<Seq<char>>::empty());
    reveal_strlit("palabra");
    let c = crate::strings::es_spec().word_field_hint@;
    let s_es = c;
    lemma_keys_skip(c, c.len() as int);
    assert(c.subrange(c.len() as int, c.len() as int) =~= Seq::<char>::empty());
    assert(placeholder_keys(s_es) =~= Seq::<Seq<char>>::empty());
    reveal_strlit("salita");
    let c = crate::strings::fil_spec().word_field_hint@;
    let s_fil = c;
    lemma_keys_skip(c, c.len() as int);
    assert(c.subrange(c.len() as int, c.len() as int) =~= Seq::<char>::empty());
    assert(placeholder_keys(s_fil) =~= Seq::<Seq<char>>::empty());
    reveal_strlit("शब्द");
    let c = crate::strings::hi_spec().word_field_hint@;
    let s_hi = c;
    lemma_keys_skip(c, c.len() as int);
    assert(c.subrange(c.len() as int, c.len() as int) =~= Seq::<char>::empty());
    assert(placeholder_keys(s_hi) =~= Seq::<Seq<char>>::empty());
}

proof fn keys_trigger_preview()
    ensures
        placeholder_keys(crate::strings::en_spec().trigger_preview@) == seq!["trigger"@],
        placeholder_keys(crate::strings::es_spec().trigger_preview@) == seq!["trigger"@],
        placeholder_keys(crate::strings::fil_spec().trigger_preview@) == seq!["trigger"@],
        placeholder_keys(crate::strings::hi_spec().trigger_preview@) == seq!["trigger"@],
{
    reveal_strlit("trigger");
    reveal_strlit("You will type: {trigger}");
    let c = crate::strings::en_spec().trigger_preview@;
    let s_en = c;
    lemma_keys_skip(c, 15);
    let c = c.subrange(15, c.len() as int);
    lemma_keys_token(c, 7);
    let k0 = c.subrange(1, 8);
    let c = c.subrange(9, c.len() as int);
    lemma_keys_skip(c, c.len() as int);
    assert(c.subrange(c.len() as int, c.len() as int) =~= Seq::<char>::empty());
    assert(k0 =~= "trigger"@);
    assert(placeholder_keys(s_en) =~= seq!["trigger"@]);
    reveal_strlit("Escribirás: {trigger}");
    let c = crate::strings::es_spec().trigger_preview@;
    let s_es = c;
    lemma_keys_skip(c, 12);
    let c = c.subrange(12, c.len() as int);
    lemma_keys_token(c, 7);
    let k0 = c.subrange(1, 8);
    let c = c.subrange(9, c.len() as int);
    lemma_keys_skip(c, c.len() as int);
    assert(c.subrange(c.len() as int, c.len() as int) =~= Seq::<char>::empty());
    assert(k0 =~= "trigger"@);
    assert(placeholder_keys(s_es) =~= seq!["trigger"@]);
    reveal_strlit("Ita-type mo: {trigger}");
    let c = crate::strings::fil_spec().trigger_preview@;
    let s_fil = c;
    lemma_keys_skip(c, 13);
    let c = c.subrange(13, c.len() as int);
    lemma_keys_token(c, 7);
    let k0 = c.subrange(1, 8);
    let c = c.subrange(9, c.len() as int);
    lemma_keys_skip(c, c.len() as int);
    assert(c.subrange(c.len() as int, c.len() as int) =~= Seq::<char>::empty());
    assert(k0 =~= "trigger"@);
    assert(placeholder_keys(s_fil) =~= seq!["trigger"@]);
    reveal_strlit("आप टाइप करेंगे: {trigger}");
    let c = crate::strings::hi_spec().trigger_preview@;
    let s_hi = c;
    lemma_keys_skip(c, 16);
    let c = c.subrange(16, c.len() as int);
    lemma_keys_token(c, 7);
    let k0 = c.subrange(1, 8);
    let c = c.subrange(9, c.len() as int);
    lemma_keys_skip(c, c.len() as int);
    assert(c.subrange(c.len() as int, c.len() as int) =~= Seq::<char>::empty());
    assert(k0 =~= "trigger"@);
    assert(placeholder_keys(s_hi) =~= seq!["trigger"@]);
}

proof fn keys_made_by()
    ensures
        placeholder_keys(crate::strings::en_spec().made_by@) == Seq::<Seq<char>>::empty(),
        placeholder_keys(crate::strings::es_spec().made_by@) == Seq::<Seq<char>>::empty(),
        placeholder_keys(crate::strings::fil_spec().made_by@) == Seq::<Seq<char>>::empty(),
        placeholder_keys(crate::strings::hi_spec().made_by@) == Seq::<Seq<char>>::empty(),
{
    reveal_strlit("EspansoManager — made with AI by Alex Palacios");
    let c = crate::strings::en_spec().made_by@;
    let s_en = c;
    lemma_keys_skip(c, c.len() as int);
    assert(c.subrange(c.len() as int, c.len() as int) =~= Seq::<char>::empty());
    assert(placeholder_keys(s_en) =~= Seq::<Seq<char>>::empty());
    reveal_strlit("EspansoManager — hecho con IA por Alex Palacios");
    let c = crate::strings::es_spec().made_by@;
    let s_es = c;
    lemma_keys_skip(c, c.len() as int);
    assert(c.subrange(c.len() as int, c.len() as int) =~= Seq::<char>::empty());
    assert(placeholder_keys(s_es) =~= Seq::<Seq<char>>::empty());
    reveal_strlit("EspansoManager — ginawa gamit ang AI ni Alex Palacios");
    let c = crate::strings::fil_spec().made_by@;
    let s_fil = c;
    lemma_keys_skip(c, c.len() as int);
    assert(c.subrange(c.len() as int, c.len() as int) =~= Seq::<char>::empty());
    assert(placeholder_keys(s_fil) =~= Seq::<Seq<char>>::empty());
    reveal_strlit("EspansoManager — Alex Palacios द्वारा AI से बनाया गया।");
    let c = crate::strings::hi_spec().made_by@;
    let s_hi = c;
    lemma_keys_skip(c, c.len() as int);
    assert(c.subrange(c.len() as int, c.len() as int) =~= Seq::<char>::empty());
    assert(placeholder_keys(s_hi) =~= Seq::<Seq<char>>::empty());
}

proof fn keys_credits_espanso()
    ensures
        placeholder_keys(crate::strings::en_spec().credits_espanso@) == Seq::<Seq<char>>::empty(),
        placeholder_keys(crate::strings::es_spec().credits_espanso@) == Seq::<Seq<char>>::empty(),
        placeholder_keys(crate::strings::fil_spec().credits_espanso@) == Seq::<Seq<char>>::empty(),
        placeholder_keys(crate::strings::hi_spec().credits_espanso@) == Seq::<Seq<char>>::empty(),
{
    reveal_strlit("Built on Espanso, created by Federico Terzi and its contributors.");
    let c = crate::strings::en_spec().credits_espanso@;
    let s_en = c;
    lemma_keys_skip(c, c.len() as int);
    assert(c.subrange(c.len() as int, c.len() as int) =~= Seq::<char>::empty());
    assert(placeholder_keys(s_en) =~= Seq::<Seq<char>>::empty());
    reveal_strlit("Construido sobre Espanso, creado por Federico Terzi y sus colaboradores.");
    let c = crate::strings::es_spec().credits_espanso@;
    let s_es = c;
    lemma_keys_skip(c, c.len() as int);
    assert(c.subrange(c.len() as int, c.len() as int) =~= Seq::<char>::empty());
    assert(placeholder_keys(s_es) =~= Seq::<Seq<char>>::empty());
    reveal_strlit("Nakabatay sa Espanso, na nilikha ni Federico Terzi at ng mga kontribyutor nito.");
    let c = crate::strings::fil_spec().credits_espanso@;
    let s_fil = c;
    lemma_keys_skip(c, c.len() as int);
    assert(c.subrange(c.len() as int, c.len() as int) =~= Seq::<char>::empty());
    assert(placeholder_keys(s_fil) =~= Seq::<Seq<char>>::empty());
    reveal_strlit("Espanso पर आधारित, जिसे Federico Terzi और उनके योगदानकर्ताओं ने बनाया है।");
    let c = crate::strings::hi_spec().credits_espanso@;
    let s_hi = c;
    lemma_keys_skip(c, c.len() as int);
    assert(c.subrange(c.len() as int, c.len() as int) =~= Seq::<char>::empty());
    assert(placeholder_keys(s_hi) =~= Seq::<Seq<char>>::empty());
}

proof fn keys_edit_button()
    ensures
        placeholder_keys(crate::strings::en_spec().edit_button@) == Seq::<Seq<char>>::empty(),
        placeholder_keys(crate::strings::es_spec().edit_button@) == Seq::<Seq<char>>::empty(),
        placeholder_keys(crate::strings::fil_spec().edit_button@) == Seq::<Seq<char>>::empty(),
        placeholder_keys(crate::strings::hi_spec().edit_button@) == Seq::<Seq<char>>::empty(),
{
    reveal_strlit("✏ Edit");
    let c = crate::strings::en_spec().edit_button@;
    let s_en = c;
    lemma_keys_skip(c, c.len() as int);
    assert(c.subrange(c.len() as int, c.len() as int) =~= Seq::<char>::empty());
    assert(placeholder_keys(s_en) =~= Seq::<Seq<char>>::empty());
    reveal_strlit("✏ Editar");
    let c = crate::strings::es_spec().edit_button@;
    let s_es = c;
    lemma_keys_skip(c, c.len() as int);
    assert(c.subrange(c.len() as int, c.len() as int) =~= Seq::<char>::empty());
    assert(placeholder_keys(s_es) =~= Seq::<Seq<char>>::empty());
    reveal_strlit("✏ I-edit");
    let c = crate::strings::fil_spec().edit_button@;
    let s_fil = c;
    lemma_keys_skip(c, c.len() as int);
    assert(c.subrange(c.len() as int, c.len() as int) =~= Seq::<char>::empty());
    assert(placeholder_keys(s_fil) =~= Seq::<Seq<char>>::empty());
    reveal_strlit("✏ संपादित करें");
    let c = crate::strings::hi_spec().edit_button@;
    let s_hi = c;
    lemma_keys_skip(c, c.len() as int);
    assert(c.subrange(c.len() as int, c.len() as int) =~= Seq::<char>::empty());
    assert(placeholder_keys(s_hi) =~= Seq::<Seq<char>>::empty());
}

proof fn keys_edit_tip()
    ensures
        placeholder_keys(crate::strings::en_spec().edit_tip@) == Seq::<Seq<char>>::empty(),
        placeholder_keys(crate::strings::es_spec().edit_tip@) == Seq::<Seq<char>>::empty(),
        placeholder_keys(crate::strings::fil_spec().edit_tip@) == Seq::<Seq<char>>::empty(),
        placeholder_keys(crate::strings::hi_spec().edit_tip@) == Seq::<Seq<char>>::empty(),
{
    reveal_strlit("Edit");
    let c = crate::strings::en_spec().edit_tip@;
    let s_en = c;
    lemma_keys_skip(c, c.len() as int);
    assert(c.subrange(c.len() as int, c.len() as int) =~= Seq::<char>::empty());
    assert(placeholder_keys(s_en) =~= Seq::<Seq<char>>::empty());
    reveal_strlit("Editar");
    let c = crate::strings::es_spec().edit_tip@;
    let s_es = c;
    lemma_keys_skip(c, c.len() as int);
    assert(c.subrange(c.len() as int, c.len() as int) =~= Seq::<char>::empty());
    assert(placeholder_keys(s_es) =~= Seq::<Seq<char>>::empty());
    reveal_strlit("I-edit");
    let c = crate::strings::fil_spec().edit_tip@;
    let s_fil = c;
    lemma_keys_skip(c, c.len() as int);
    assert(c.subrange(c.len() as int, c.len() as int) =~= Seq::<char>::empty());
    assert(placeholder_keys(s_fil) =~= Seq::<Seq<char>>::empty());
    reveal_strlit("संपादित करें");
    let c = crate::strings::hi_spec().edit_tip@;
    let s_hi = c;
    lemma_keys_skip(c, c.len() as int);
    assert(c.subrange(c.len() as int, c.len() as int) =~= Seq::<char>::empty());
    assert(placeholder_keys(s_hi) =~= Seq::<Seq<char>>::empty());
}

proof fn keys_delete()
    ensures
        placeholder_keys(crate::strings::en_spec().delete@) == Seq::<Seq<char>>::empty(),
        placeholder_keys(crate::strings::es_spec().delete@) == Seq::<Seq<char>>::empty(),
        placeholder_keys(crate::strings::fil_spec().delete@) == Seq::<Seq<char>>::empty(),
        placeholder_keys(crate::strings::hi_spec().delete@) == Seq::<Seq<char>>::empty(),
{
    reveal_strlit("Delete");
    let c = crate::strings::en_spec().delete@;
    let s_en = c;
    lemma_keys_skip(c, c.len() as int);
    assert(c.subrange(c.len() as int, c.len() as int) =~= Seq::<char>::empty());
    assert(placeholder_keys(s_en) =~= Seq::<Seq<char>>::empty());
    reveal_strlit("Eliminar");
    let c = crate::strings::es_spec().delete@;
    let s_es = c;
    lemma_keys_skip(c, c.len() as int);
    assert(c.subrange(c.len() as int, c.len() as int) =~= Seq::<char>::empty());
    assert(placeholder_keys(s_es) =~= Seq::<Seq<char>>::empty());
    reveal_strlit("Burahin");
    let c = crate::strings::fil_spec().delete@;
    let s_fil = c;
    lemma_keys_skip(c, c.len() as int);
    assert(c.subrange(c.len() as int, c.len() as int) =~= Seq::<char>::empty());
    assert(placeholder_keys(s_fil) =~= Seq::<Seq<char>>::empty());
    reveal_strlit("हटाएँ");
    let c = crate::strings::hi_spec().delete@;
    let s_hi = c;
    lemma_keys_skip(c, c.len() as int);
    assert(c.subrange(c.len() as int, c.len() as int) =~= Seq::<char>::empty());
    assert(placeholder_keys(s_hi) =~= Seq::<Seq<char>>::empty());
}

proof fn keys_delete_tip()
    ensures
        placeholder_keys(crate::strings::en_spec().delete_tip@) == Seq::<Seq<char>>::empty(),
        placeholder_keys(crate::strings::es_spec().delete_tip@) == Seq::<Seq<char>>::empty(),
        placeholder_keys(crate::strings::fil_spec().delete_tip@) == Seq::<Seq<char>>::empty(),
        placeholder_keys(crate::strings::hi_spec().delete_tip@) == Seq::<Seq<char>>::empty(),
{
    reveal_strlit("Delete");
    let c = crate::strings::en_spec().delete_tip@;
    let s_en = c;
    lemma_keys_skip(c, c.len() as int);
    assert(c.subrange(c.len() as int, c.len() as int) =~= Seq::<char>::empty());
    assert(placeholder_keys(s_en) =~= Seq::<Seq<char>>::empty());
    reveal_strlit("Eliminar");
    let c = crate::strings::es_spec().delete_tip@;
    let s_es = c;
    lemma_keys_skip(c, c.len() as int);
    assert(c.subrange(c.len() as int, c.len() as int) =~= Seq::<char>::empty());
    assert(placeholder_keys(s_es) =~= Seq::<Seq<char>>::empty());
    reveal_strlit("Burahin");
    let c = crate::strings::fil_spec().delete_tip@;
    let s_fil = c;
    lemma_keys_skip(c, c.len() as int);
    assert(c.subrange(c.len() as int, c.len() as int) =~= Seq::<char>::empty());
    assert(placeholder_keys(s_fil) =~= Seq::<Seq<char>>::empty());
    reveal_strlit("हटाएँ");
    let c = crate::strings::hi_spec().delete_tip@;
    let s_hi = c;
    lemma_keys_skip(c, c.len() as int);
    assert(c.subrange(c.len() as int, c.len() as int) =~= Seq::<char>::empty());
    assert(placeholder_keys(s_hi) =~= Seq::<Seq<char>>::empty());
}

proof fn keys_rename_folder_tip()
    ensures
        placeholder_keys(crate::strings::en_spec().rename_folder_tip@) == Seq::<Seq<char>>::empty(),
        placeholder_keys(crate::strings::es_spec().rename_folder_tip@) == Seq::<Seq<char>>::empty(),
        placeholder_keys(crate::strings::fil_spec().rename_folder_tip@) == Seq::<Seq<char>>::empty(),
        placeholder_keys(crate::strings::hi_spec().rename_folder_tip@) == Seq::<Seq<char>>::empty(),
{
    reveal_strlit("Rename folder");
    let c = crate::strings::en_spec().rename_folder_tip@;
    let s_en = c;
    lemma_keys_skip(c, c.len() as int);
    assert(c.subrange(c.len() as int, c.len() as int) =~= Seq::<char>::empty());
    assert(placeholder_keys(s_en) =~= Seq::<Seq<char>>::empty());
    reveal_strlit("Renombrar carpeta");
    let c = crate::strings::es_spec().rename_folder_tip@;
    let s_es = c;
    lemma_keys_skip(c, c.len() as int);
    assert(c.subrange(c.len() as int, c.len() as int) =~= Seq::<char>::empty());
    assert(placeholder_keys(s_es) =~= Seq::<Seq<char>>::empty());
    reveal_strlit("Palitan ang pangalan ng folder");
    let c = crate::strings::fil_spec().rename_folder_tip@;
    let s_fil = c;
    lemma_keys_skip(c, c.len() as int);
    assert(c.subrange(c.len() as int, c.len() as int) =~= Seq::<char>::empty());
    assert(placeholder_keys(s_fil) =~= Seq::<Seq<char>>::empty());
    reveal_strlit("फ़ोल्डर का नाम बदलें");
    let c = crate::strings::hi_spec().rename_folder_tip@;
    let s_hi = c;
    lemma_keys_skip(c, c.len() as int);
    assert(c.subrange(c.len() as int, c.len() as int) =~= Seq::<char>::empty());
    assert(placeholder_keys(s_hi) =~= Seq::<Seq<char>>::empty());
}

proof fn keys_delete_folder_tip()
    ensures
        placeholder_keys(crate::strings::en_spec().delete_folder_tip@) == Seq::<Seq<char>>::empty(),
        placeholder_keys(crate::strings::es_spec().delete_folder_tip@) == Seq::<Seq<char>>::empty(),
        placeholder_keys(crate::strings::fil_spec().delete_folder_tip@) == Seq::<Seq<char>>::empty(),
        placeholder_keys(crate::strings::hi_spec().delete_folder_tip@) == Seq::<Seq<char>>::empty(),
{
    reveal_strlit("Delete folder");
    let c = crate::strings::en_spec().delete_folder_tip@;
    let s_en = c;
    lemma_keys_skip(c, c.len() as int);
    assert(c.subrange(c.len() as int, c.len() as int) =~= Seq::<char>::empty());
    assert(placeholder_keys(s_en) =~= Seq::<Seq<char>>::empty());
    reveal_strlit("Eliminar carpeta");
    let c = crate::strings::es_spec().delete_folder_tip@;
    let s_es = c;
    lemma_keys_skip(c, c.len() as int);
    assert(c.subrange(c.len() as int, c.len() as int) =~= Seq::<char>::empty());
    assert(placeholder_keys(s_es) =~= Seq::<Seq<char>>::empty());
    reveal_strlit("Burahin ang folder");
    let c = crate::strings::fil_spec().delete_folder_tip@;
    let s_fil = c;
    lemma_keys_skip(c, c.len() as int);
    assert(c.subrange(c.len() as int, c.len() as int) =~= Seq::<char>::empty());
    assert(placeholder_keys(s_fil) =~= Seq::<Seq<char>>::empty());
    reveal_strlit("फ़ोल्डर हटाएँ");
    let c = crate::strings::hi_spec().delete_folder_tip@;
    let s_hi = c;
    lemma_keys_skip(c, c.len() as int);
    assert(c.subrange(c.len() as int, c.len() as int) =~= Seq::<char>::empty());
    assert(placeholder_keys(s_hi) =~= Seq::<Seq<char>>::empty());
}

proof fn keys_save_name_tip()
    ensures
        placeholder_keys(crate::strings::en_spec().save_name_tip@) == Seq::<Seq<char>>::empty(),
        placeholder_keys(crate::strings::es_spec().save_name_tip@) == Seq::<Seq<char>>::empty(),
        placeholder_keys(crate::strings::fil_spec().save_name_tip@) == Seq::<Seq<char>>::empty(),
        placeholder_keys(crate::strings::hi_spec().save_name_tip@) == Seq::<Seq<char>>::empty(),
{
    reveal_strlit("Save name");
    let c = crate::strings::en_spec().save_name_tip@;
    let s_en = c;
    lemma_keys_skip(c, c.len() as int);
    assert(c.subrange(c.len() as int, c.len() as int) =~= Seq::<char>::empty());
    assert(placeholder_keys(s_en) =~= Seq::<Seq<char>>::empty());
    reveal_strlit("Guardar nombre");
    let c = crate::strings::es_spec().save_name_tip@;
    let s_es = c;
    lemma_keys_skip(c, c.len() as int);
    assert(c.subrange(c.len() as int, c.len() as int) =~= Seq::<char>::empty());
    assert(placeholder_keys(s_es) =~= Seq::<Seq<char>>::empty());
    reveal_strlit("I-save ang pangalan");
    let c = crate::strings::fil_spec().save_name_tip@;
    let s_fil = c;
    lemma_keys_skip(c, c.len() as int);
    assert(c.subrange(c.len() as int, c.len() as int) =~= Seq::<char>::empty());
    assert(placeholder_keys(s_fil) =~= Seq::<Seq<char>>::empty());
    reveal_strlit("नाम सहेजें");
    let c = crate::strings::hi_spec().save_name_tip@;
    let s_hi = c;
    lemma_keys_skip(c, c.len() as int);
    assert(c.subrange(c.len() as int, c.len() as int) =~= Seq::<char>::empty());
    assert(placeholder_keys(s_hi) =~= Seq::<Seq<char>>::empty());
}

proof fn keys_cancel()
    ensures
        placeholder_keys(crate::strings::en_spec().cancel@) == Seq::<Seq<char>>::empty(),
        placeholder_keys(crate::strings::es_spec().cancel@) == Seq::<Seq<char>>::empty(),
        placeholder_keys(crate::strings::fil_spec().cancel@) == Seq::<Seq<char>>::empty(),
        placeholder_keys(crate::strings::hi_spec().cancel@) == Seq::<Seq<char>>::empty(),
{
    reveal_strlit("Cancel");
    let c = crate::strings::en_spec().cancel@;
    let s_en = c;
    lemma_keys_skip(c, c.len() as int);
    assert(c.subrange(c.len() as int, c.len() as int) =~= Seq::<char>::empty());
    assert(placeholder_keys(s_en) =~= Seq::<Seq<char>>::empty());
    reveal_strlit("Cancelar");
    let c = crate::strings::es_spec().cancel@;
    let s_es = c;
    lemma_keys_skip(c, c.len() as int);
    assert(c.subrange(c.len() as int, c.len() as int) =~= Seq::<char>::empty());
    assert(placeholder_keys(s_es) =~= Seq::<Seq<char>>::empty());
    reveal_strlit("Kanselahin");
    let c = crate::strings::fil_spec().cancel@;
    let s_fil = c;
    lemma_keys_skip(c, c.len() as int);
    assert(c.subrange(c.len() as int, c.len() as int) =~= Seq::<char>::empty());
    assert(placeholder_keys(s_fil) =~= Seq::<Seq<char>>::empty());
    reveal_strlit("रद्द करें");
    let c = crate::strings::hi_spec().cancel@;
    let s_hi = c;
    lemma_keys_skip(c, c.len() as int);
    assert(c.subrange(c.len() as int, c.len() as int) =~= Seq::<char>::empty());
    assert(placeholder_keys(s_hi) =~= Seq::<Seq<char>>::empty());
}

proof fn keys_cancel_tip()
    ensures
        placeholder_keys(crate::strings::en_spec().cancel_tip@) == Seq::<Seq<char>>::empty(),
        placeholder_keys(crate::strings::es_spec().cancel_tip@) == Seq::<Seq<char>>::empty(),
        placeholder_keys(crate::strings::fil_spec().cancel_tip@) == Seq::<Seq<char>>::empty(),
        placeholder_keys(crate::strings::hi_spec().cancel_tip@) == Seq::<Seq<char>>::empty(),
{
    reveal_strlit("Cancel");
    let c = crate::strings::en_spec().cancel_tip@;
    let s_en = c;
    lemma_keys_skip(c, c.len() as int);
    assert(c.subrange(c.len() as int, c.len() as int) =~= Seq::<char>::empty());
    assert(placeholder_keys(s_en) =~= Seq::<Seq<char>>::empty());
    reveal_strlit("Cancelar");
    let c = crate::strings::es_spec().cancel_tip@;
    let s_es = c;
    lemma_keys_skip(c, c.len() as int);
    assert(c.subrange(c.len() as int, c.len() as int) =~= Seq::<char>::empty());
    assert(placeholder_keys(s_es) =~= Seq::<Seq<char>>::empty());
    reveal_strlit("Kanselahin");
    let c = crate::strings::fil_spec().cancel_tip@;
    let s_fil = c;
    lemma_keys_skip(c, c.len() as int);
    assert(c.subrange(c.len() as int, c.len() as int) =~= Seq::<char>::empty());
    assert(placeholder_keys(s_fil) =~= Seq::<Seq<char>>::empty());
    reveal_strlit("रद्द करें");
    let c = crate::strings::hi_spec().cancel_tip@;
    let s_hi = c;
    lemma_keys_skip(c, c.len() as int);
    assert(c.subrange(c.len() as int, c.len() as int) =~= Seq::<char>::empty());
    assert(placeholder_keys(s_hi) =~= Seq::<Seq<char>>::empty());
}

proof fn keys_selected_count()
    ensures
        placeholder_keys(crate::strings::en_spec().selected_count@) == seq!["n"@],
        placeholder_keys(crate::strings::es_spec().selected_count@) == seq!["n"@],
        placeholder_keys(crate::strings::fil_spec().selected_count@) == seq!["n"@],
        placeholder_keys(crate::strings::hi_spec().selected_count@) == seq!["n"@],
{
    reveal_strlit("n");
    reveal_strlit("{n} selected");
    let c = crate::strings::en_spec().selected_count@;
    let s_en = c;
    lemma_keys_token(c, 1);
    let k0 = c.subrange(1, 2);
    let c = c.subrange(3, c.len() as int);
    lemma_keys_skip(c, c.len() as int);
    assert(c.subrange(c.len() as int, c.len() as int) =~= Seq::<char>::empty());
    assert(k0 =~= "n"@);
    assert(placeholder_keys(s_en) =~= seq!["n"@]);
    reveal_strlit("{n} seleccionada(s)");
    let c = crate::strings::es_spec().selected_count@;
    let s_es = c;
    lemma_keys_token(c, 1);
    let k0 = c.subrange(1, 2);
    let c = c.subrange(3, c.len() as int);
    lemma_keys_skip(c, c.len() as int);
    assert(c.subrange(c.len() as int, c.len() as int) =~= Seq::<char>::empty());
    assert(k0 =~= "n"@);
    assert(placeholder_keys(s_es) =~= seq!["n"@]);
    reveal_strlit("{n} ang napili");
    let c = crate::strings::fil_spec().selected_count@;
    let s_fil = c;
    lemma_keys_token(c, 1);
    let k0 = c.subrange(1, 2);
    let c = c.subrange(3, c.len() as int);
    lemma_keys_skip(c, c.len() as int);
    assert(c.subrange(c.len() as int, c.len() as int) =~= Seq::<char>::empty());
    assert(k0 =~= "n"@);
    assert(placeholder_keys(s_fil) =~= seq!["n"@]);
    reveal_strlit("{n} चयनित");
    let c = crate::strings::hi_spec().selected_count@;
    let s_hi = c;
    lemma_keys_token(c, 1);
    let k0 = c.subrange(1, 2);
    let c = c.subrange(3, c.len() as int);
    lemma_keys_skip(c, c.len() as int);
    assert(c.subrange(c.len() as int, c.len() as int) =~= Seq::<char>::empty());
    assert(k0 =~= "n"@);
    assert(placeholder_keys(s_hi) =~= seq!["n"@]);
}

proof fn keys_remove_from_folder()
    ensures
        placeholder_keys(crate::strings::en_spec().remove_from_folder@) == Seq::<Seq<char>>::empty(),
        placeholder_keys(crate::strings::es_spec().remove_from_folder@) == Seq::<Seq<char>>::empty(),
        placeholder_keys(crate::strings::fil_spec().remove_from_folder@) == Seq::<Seq<char>>::empty(),
        placeholder_keys(crate::strings::hi_spec().remove_from_folder@) == Seq::<Seq<char>>::empty(),
{
    reveal_strlit("Take out of folder");
    let c = crate::strings::en_spec().remove_from_folder@;
    let s_en = c;
    lemma_keys_skip(c, c.len() as int);
    assert(c.subrange(c.len() as int, c.len() as int) =~= Seq::<char>::empty());
    assert(placeholder_keys(s_en) =~= Seq::<Seq<char>>::empty());
    reveal_strlit("Quitar de su carpeta");
    let c = crate::strings::es_spec().remove_from_folder@;
    let s_es = c;
    lemma_keys_skip(c, c.len() as int);
    assert(c.subrange(c.len() as int, c.len() as int) =~= Seq::<char>::empty());
    assert(placeholder_keys(s_es) =~= Seq::<Seq<char>>::empty());
    reveal_strlit("Ilabas sa folder");
    let c = crate::strings::fil_spec().remove_from_folder@;
    let s_fil = c;
    lemma_keys_skip(c, c.len() as int);
    assert(c.subrange(c.len() as int, c.len() as int) =~= Seq::<char>::empty());
    assert(placeholder_keys(s_fil) =~= Seq::<Seq<char>>::empty());
    reveal_strlit("फ़ोल्डर से बाहर निकालें");
    let c = crate::strings::hi_spec().remove_from_folder@;
    let s_hi = c;
    lemma_keys_skip(c, c.len() as int);
    assert(c.subrange(c.len() as int, c.len() as int) =~= Seq::<char>::empty());
    assert(placeholder_keys(s_hi) =~= Seq::<Seq<char>>::empty());
}

proof fn keys_delete_selected()
    ensures
        placeholder_keys(crate::strings::en_spec().delete_selected@) == Seq::<Seq<char>>::empty(),
        placeholder_keys(crate::strings::es_spec().delete_selected@) == Seq::<Seq<char>>::empty(),
        placeholder_keys(crate::strings::fil_spec().delete_selected@) == Seq::<Seq<char>>::empty(),
        placeholder_keys(crate::strings::hi_spec().delete_selected@) == Seq::<Seq<char>>::empty(),
{
    reveal_strlit("Delete selected");
    let c = crate::strings::en_spec().delete_selected@;
    let s_en = c;
    lemma_keys_skip(c, c.len() as int);
    assert(c.subrange(c.len() as int, c.len() as int) =~= Seq::<char>::empty());
    assert(placeholder_keys(s_en) =~= Seq::<Seq<char>>::empty());
    reveal_strlit("Eliminar seleccionadas");
    let c = crate::strings::es_spec().delete_selected@;
    let s_es = c;
    lemma_keys_skip(c, c.len() as int);
    assert(c.subrange(c.len() as int, c.len() as int) =~= Seq::<char>::empty());
    assert(placeholder_keys(s_es) =~= Seq::<Seq<char>>::empty());
    reveal_strlit("Burahin ang mga napili");
    let c = crate::strings::fil_spec().delete_selected@;
    let s_fil = c;
    lemma_keys_skip(c, c.len() as int);
    assert(c.subrange(c.len() as int, c.len() as int) =~= Seq::<char>::empty());
    assert(placeholder_keys(s_fil) =~= Seq::<Seq<char>>::empty());
    reveal_strlit("चयनित हटाएँ");
    let c = crate::strings::hi_spec().delete_selected@;
    let s_hi = c;
    lemma_keys_skip(c, c.len() as int);
    assert(c.subrange(c.len() as int, c.len() as int) =~= Seq::<char>::empty());
    assert(placeholder_keys(s_hi) =~= Seq::<Seq<char>>::empty());
}

proof fn keys_clear_selection_tip()
    ensures
        placeholder_keys(crate::strings::en_spec().clear_selection_tip@) == Seq::<Seq<char>>::empty(),
        placeholder_keys(crate::strings::es_spec().clear_selection_tip@) == Seq::<Seq<char>>::empty(),
        placeholder_keys(crate::strings::fil_spec().clear_selection_tip@) == Seq::<Seq<char>>::empty(),
        placeholder_keys(crate::strings::hi_spec().clear_selection_tip@) == Seq::<Seq<char>>::empty(),
{
    reveal_strlit("Clear selection");
    let c = crate::strings::en_spec().clear_selection_tip@;
    let s_en = c;
    lemma_keys_skip(c, c.len() as int);
    assert(c.subrange(c.len() as int, c.len() as int) =~= Seq::<char>::empty());
    assert(placeholder_keys(s_en) =~= Seq::<Seq<char>>::empty());
    reveal_strlit("Cancelar selección");
    let c = crate::strings::es_spec().clear_selection_tip@;
    let s_es = c;
    lemma_keys_skip(c, c.len() as int);
    assert(c.subrange(c.len() as int, c.len() as int) =~= Seq::<char>::empty());
    assert(placeholder_keys(s_es) =~= Seq::<Seq<char>>::empty());
    reveal_strlit("Alisin ang pagpili");
    let c = crate::strings::fil_spec().clear_selection_tip@;
    let s_fil = c;
    lemma_keys_skip(c, c.len() as int);
    assert(c.subrange(c.len() as int, c.len() as int) =~= Seq::<char>::empty());
    assert(placeholder_keys(s_fil) =~= Seq::<Seq<char>>::empty());
    reveal_strlit("चयन रद्द करें");
    let c = crate::strings::hi_spec().clear_selection_tip@;
    let s_hi = c;
    lemma_keys_skip(c, c.len() as int);
    assert(c.subrange(c.len() as int, c.len() as int) =~= Seq::<char>::empty());
    assert(placeholder_keys(s_hi) =~= Seq::<Seq<char>>::empty());
}

proof fn keys_moving_n()
    ensures
        placeholder_keys(crate::strings::en_spec().moving_n@) == seq!["n"@],
        placeholder_keys(crate::strings::es_spec().moving_n@) == seq!["n"@],
        placeholder_keys(crate::strings::fil_spec().moving_n@) == seq!["n"@],
        placeholder_keys(crate::strings::hi_spec().moving_n@) == seq!["n"@],
{
    reveal_strlit("n");
    reveal_strlit("Moving {n} expansions");
    let c = crate::strings::en_spec().moving_n@;
    let s_en = c;
    lemma_keys_skip(c, 7);
    let c = c.subrange(7, c.len() as int);
    lemma_keys_token(c, 1);
    let k0 = c.subrange(1, 2);
    let c = c.subrange(3, c.len() as int);
    lemma_keys_skip(c, c.len() as int);
    assert(c.subrange(c.len() as int, c.len() as int) =~= Seq::<char>::empty());
    assert(k0 =~= "n"@);
    assert(placeholder_keys(s_en) =~= seq!["n"@]);
    reveal_strlit("Moviendo {n} expansiones");
    let c = crate::strings::es_spec().moving_n@;
    let s_es = c;
    lemma_keys_skip(c, 9);
    let c = c.subrange(9, c.len() as int);
    lemma_keys_token(c, 1);
    let k0 = c.subrange(1, 2);
    let c = c.subrange(3, c.len() as int);
    lemma_keys_skip(c, c.len() as int);
    assert(c.subrange(c.len() as int, c.len() as int) =~= Seq::<char>::empty());
    assert(k0 =~= "n"@);
    assert(placeholder_keys(s_es) =~= seq!["n"@]);
    reveal_strlit("Inililipat ang {n} na expansion");
    let c = crate::strings::fil_spec().moving_n@;
    let s_fil = c;
    lemma_keys_skip(c, 15);
    let c = c.subrange(15, c.len() as int);
    lemma_keys_token(c, 1);
    let k0 = c.subrange(1, 2);
    let c = c.subrange(3, c.len() as int);
    lemma_keys_skip(c, c.len() as int);
    assert(c.subrange(c.len() as int, c.len() as int) =~= Seq::<char>::empty());
    assert(k0 =~= "n"@);
    assert(placeholder_keys(s_fil) =~= seq!["n"@]);
    reveal_strlit("{n} विस्तार ले जाए जा रहे हैं");
    let c = crate::strings::hi_spec().moving_n@;
    let s_hi = c;
    lemma_keys_token(c, 1);
    let k0 = c.subrange(1, 2);
    let c = c.subrange(3, c.len() as int);
    lemma_keys_skip(c, c.len() as int);
    assert(c.subrange(c.len() as int, c.len() as int) =~= Seq::<char>::empty());
    assert(k0 =~= "n"@);
    assert(placeholder_keys(s_hi) =~= seq!["n"@]);
}

proof fn keys_confirm_delete_folder_title()
    ensures
        placeholder_keys(crate::strings::en_spec().confirm_delete_folder_title@) == seq!["name"@],
        placeholder_keys(crate::strings::es_spec().confirm_delete_folder_title@) == seq!["name"@],
        placeholder_keys(crate::strings::fil_spec().confirm_delete_folder_title@) == seq!["name"@],
        placeholder_keys(crate::strings::hi_spec().confirm_delete_folder_title@) == seq!["name"@],
{
    reveal_strlit("name");
    reveal_strlit("Delete folder \"{name}\"");
    let c = crate::strings::en_spec().confirm_delete_folder_title@;
    let s_en = c;
    lemma_keys_skip(c, 15);
    let c = c.subrange(15, c.len() as int);
    lemma_keys_token(c, 4);
    let k0 = c.subrange(1, 5);
    let c = c.subrange(6, c.len() as int);
    lemma_keys_skip(c, c.len() as int);
    assert(c.subrange(c.len() as int, c.len() as int) =~= Seq::<char>::empty());
    assert(k0 =~= "name"@);
    assert(placeholder_keys(s_en) =~= seq!["name"@]);
    reveal_strlit("Eliminar carpeta \"{name}\"");
    let c = crate::strings::es_spec().confirm_delete_folder_title@;
    let s_es = c;
    lemma_keys_skip(c, 18);
    let c = c.subrange(18, c.len() as int);
    lemma_keys_token(c, 4);
    let k0 = c.subrange(1, 5);
    let c = c.subrange(6, c.len() as int);
    lemma_keys_skip(c, c.len() as int);
    assert(c.subrange(c.len() as int, c.len() as int) =~= Seq::<char>::empty());
    assert(k0 =~= "name"@);
    assert(placeholder_keys(s_es) =~= seq!["name"@]);
    reveal_strlit("Burahin ang folder na \"{name}\"");
    let c = crate::strings::fil_spec().confirm_delete_folder_title@;
    let s_fil = c;
    lemma_keys_skip(c, 23);
    let c = c.subrange(23, c.len() as int);
    lemma_keys_token(c, 4);
    let k0 = c.subrange(1, 5);
    let c = c.subrange(6, c.len() as int);
    lemma_keys_skip(c, c.len() as int);
    assert(c.subrange(c.len() as int, c.len() as int) =~= Seq::<char>::empty());
    assert(k0 =~= "name"@);
    assert(placeholder_keys(s_fil) =~= seq!["name"@]);
    reveal_strlit("फ़ोल्डर \"{name}\" हटाएँ");
    let c = crate::strings::hi_spec().confirm_delete_folder_title@;
    let s_hi = c;
    lemma_keys_skip(c, 9);
    let c = c.subrange(9, c.len() as int);
    lemma_keys_token(c, 4);
    let k0 = c.subrange(1, 5);
    let c = c.subrange(6, c.len() as int);
    lemma_keys_skip(c, c.len() as int);
    assert(c.subrange(c.len() as int, c.len() as int) =~= Seq::<char>::empty());
    assert(k0 =~= "name"@);
    assert(placeholder_keys(s_hi) =~= seq!["name"@]);
}

proof fn keys_confirm_delete_folder_body()
    ensures
        placeholder_keys(crate::strings::en_spec().confirm_delete_folder_body@) == seq!["name"@, "n"@],
        placeholder_keys(crate::strings::es_spec().confirm_delete_folder_body@) == seq!["name"@, "n"@],
        placeholder_keys(crate::strings::fil_spec().confirm_delete_folder_body@) == seq!["name"@, "n"@],
        placeholder_keys(crate::strings::hi_spec().confirm_delete_folder_body@) == seq!["name"@, "n"@],
{
    reveal_strlit("name");
    reveal_strlit("n");
    reveal_strlit("You are about to delete the folder \"{name}\", which contains {n} expansion(s). Continuing will delete ALL expansions in this folder. This cannot be undone.");
    let c = crate::strings::en_spec().confirm_delete_folder_body@;
    let s_en = c;
    lemma_keys_skip(c, 36);
    let c = c.subrange(36, c.len() as int);
    lemma_keys_token(c, 4);
    let k0 = c.subrange(1, 5);
    let c = c.subrange(6, c.len() as int);
    lemma_keys_skip(c, 18);
    let c = c.subrange(18, c.len() as int);
    lemma_keys_token(c, 1);
    let k1 = c.subrange(1, 2);
    let c = c.subrange(3, c.len() as int);
    lemma_keys_skip(c, c.len() as int);
    assert(c.subrange(c.len() as int, c.len() as int) =~= Seq::<char>::empty());
    assert(k0 =~= "name"@);
    assert(k1 =~= "n"@);
    assert(placeholder_keys(s_en) =~= seq!["name"@, "n"@]);
    reveal_strlit("Vas a eliminar la carpeta \"{name}\", que incluye {n} expansión(es). Continuar eliminará TODAS las expansiones de esta carpeta. Esta acción no se puede deshacer.");
    let c = crate::strings::es_spec().confirm_delete_folder_body@;
    let s_es = c;
    lemma_keys_skip(c, 27);
    let c = c.subrange(27, c.len() as int);
    lemma_keys_token(c, 4);
    let k0 = c.subrange(1, 5);
    let c = c.subrange(6, c.len() as int);
    lemma_keys_skip(c, 15);
    let c = c.subrange(15, c.len() as int);
    lemma_keys_token(c, 1);
    let k1 = c.subrange(1, 2);
    let c = c.subrange(3, c.len() as int);
    lemma_keys_skip(c, c.len() as int);
    assert(c.subrange(c.len() as int, c.len() as int) =~= Seq::<char>::empty());
    assert(k0 =~= "name"@);
    assert(k1 =~= "n"@);
    assert(placeholder_keys(s_es) =~= seq!["name"@, "n"@]);
    reveal_strlit("Buburahin mo ang folder na \"{name}\", na naglalaman ng {n} expansion. Kapag nagpatuloy ka, mabubura ANG LAHAT ng expansion sa folder na ito. Hindi ito maaaring bawiin.");
    let c = crate::strings::fil_spec().confirm_delete_folder_body@;
    let s_fil = c;
    lemma_keys_skip(c, 28);
    let c = c.subrange(28, c.len() as int);
    lemma_keys_token(c, 4);
    let k0 = c.subrange(1, 5);
    let c = c.subrange(6, c.len() as int);
    lemma_keys_skip(c, 20);
    let c = c.subrange(20, c.len() as int);
    lemma_keys_token(c, 1);
    let k1 = c.subrange(1, 2);
    let c = c.subrange(3, c.len() as int);
    lemma_keys_skip(c, c.len() as int);
    assert(c.subrange(c.len() as int, c.len() as int) =~= Seq::<char>::empty());
    assert(k0 =~= "name"@);
    assert(k1 =~= "n"@);
    assert(placeholder_keys(s_fil) =~= seq!["name"@, "n"@]);
    reveal_strlit("आप फ़ोल्डर \"{name}\" हटाने जा रहे हैं, जिसमें {n} विस्तार हैं। आगे बढ़ने पर इस फ़ोल्डर के सभी विस्तार हट जाएँगे। यह क्रिया पूर्ववत नहीं की जा सकती।");
    let c = crate::strings::hi_spec().confirm_delete_folder_body@;
    let s_hi = c;
    lemma_keys_skip(c, 12);
    let c = c.subrange(12, c.len() as int);
    lemma_keys_token(c, 4);
    let k0 = c.subrange(1, 5);
    let c = c.subrange(6, c.len() as int);
    lemma_keys_skip(c, 27);
    let c = c.subrange(27, c.len() as int);
    lemma_keys_token(c, 1);
    let k1 = c.subrange(1, 2);
    let c = c.subrange(3, c.len() as int);
    lemma_keys_skip(c, c.len() as int);
    assert(c.subrange(c.len() as int, c.len() as int) =~= Seq::<char>::empty());
    assert(k0 =~= "name"@);
    assert(k1 =~= "n"@);
    assert(placeholder_keys(s_hi) =~= seq!["name"@, "n"@]);
}

proof fn keys_confirm_delete_selection_title()
    ensures
        placeholder_keys(crate::strings::en_spec().confirm_delete_selection_title@) == seq!["n"@],
        placeholder_keys(crate::strings::es_spec().confirm_delete_selection_title@) == seq!["n"@],
        placeholder_keys(crate::strings::fil_spec().confirm_delete_selection_title@) == seq!["n"@],
        placeholder_keys(crate::strings::hi_spec().confirm_delete_selection_title@) == seq!["n"@],
{
    reveal_strlit("n");
    reveal_strlit("Delete {n} expansion(s)");
    let c = crate::strings::en_spec().confirm_delete_selection_title@;
    let s_en = c;
    lemma_keys_skip(c, 7);
    let c = c.subrange(7, c.len() as int);
    lemma_keys_token(c, 1);
    let k0 = c.subrange(1, 2);
    let c = c.subrange(3, c.len() as int);
    lemma_keys_skip(c, c.len() as int);
    assert(c.subrange(c.len() as int, c.len() as int) =~= Seq::<char>::empty());
    assert(k0 =~= "n"@);
    assert(placeholder_keys(s_en) =~= seq!["n"@]);
    reveal_strlit("Eliminar {n} expansión(es)");
    let c = crate::strings::es_spec().confirm_delete_selection_title@;
    let s_es = c;
    lemma_keys_skip(c, 9);
    let c = c.subrange(9, c.len() as int);
    lemma_keys_token(c, 1);
    let k0 = c.subrange(1, 2);
    let c = c.subrange(3, c.len() as int);
    lemma_keys_skip(c, c.len() as int);
    assert(c.subrange(c.len() as int, c.len() as int) =~= Seq::<char>::empty());
    assert(k0 =~= "n"@);
    assert(placeholder_keys(s_es) =~= seq!["n"@]);
    reveal_strlit("Burahin ang {n} expansion");
    let c = crate::strings::fil_spec().confirm_delete_selection_title@;
    let s_fil = c;
    lemma_keys_skip(c, 12);
    let c = c.subrange(12, c.len() as int);
    lemma_keys_token(c, 1);
    let k0 = c.subrange(1, 2);
    let c = c.subrange(3, c.len() as int);
    lemma_keys_skip(c, c.len() as int);
    assert(c.subrange(c.len() as int, c.len() as int) =~= Seq::<char>::empty());
    assert(k0 =~= "n"@);
    assert(placeholder_keys(s_fil) =~= seq!["n"@]);
    reveal_strlit("{n} विस्तार हटाएँ");
    let c = crate::strings::hi_spec().confirm_delete_selection_title@;
    let s_hi = c;
    lemma_keys_token(c, 1);
    let k0 = c.subrange(1, 2);
    let c = c.subrange(3, c.len() as int);
    lemma_keys_skip(c, c.len() as int);
    assert(c.subrange(c.len() as int, c.len() as int) =~= Seq::<char>::empty());
    assert(k0 =~= "n"@);
    assert(placeholder_keys(s_hi) =~= seq!["n"@]);
}

proof fn keys_confirm_delete_selection_body()
    ensures
        placeholder_keys(crate::strings::en_spec().confirm_delete_selection_body@) == seq!["n"@],
        placeholder_keys(crate::strings::es_spec().confirm_delete_selection_body@) == seq!["n"@],
        placeholder_keys(crate::strings::fil_spec().confirm_delete_selection_body@) == seq!["n"@],
        placeholder_keys(crate::strings::hi_spec().confirm_delete_selection_body@) == seq!["n"@],
{
    reveal_strlit("n");
    reveal_strlit("You are about to delete {n} selected expansion(s). This cannot be undone.");
    let c = crate::strings::en_spec().confirm_delete_selection_body@;
    let s_en = c;
    lemma_keys_skip(c, 24);
    let c = c.subrange(24, c.len() as int);
    lemma_keys_token(c, 1);
    let k0 = c.subrange(1, 2);
    let c = c.subrange(3, c.len() as int);
    lemma_keys_skip(c, c.len() as int);
    assert(c.subrange(c.len() as int, c.len() as int) =~= Seq::<char>::empty());
    assert(k0 =~= "n"@);
    assert(placeholder_keys(s_en) =~= seq!["n"@]);
    reveal_strlit("Vas a eliminar {n} expansión(es) seleccionada(s). Esta acción no se puede deshacer.");
    let c = crate::strings::es_spec().confirm_delete_selection_body@;
    let s_es = c;
    lemma_keys_skip(c, 15);
    let c = c.subrange(15, c.len() as int);
    lemma_keys_token(c, 1);
    let k0 = c.subrange(1, 2);
    let c = c.subrange(3, c.len() as int);
    lemma_keys_skip(c, c.len() as int);
    assert(c.subrange(c.len() as int, c.len() as int) =~= Seq::<char>::empty());
    assert(k0 =~= "n"@);
    assert(placeholder_keys(s_es) =~= seq!["n"@]);
    reveal_strlit("Buburahin mo ang {n} napiling expansion. Hindi ito maaaring bawiin.");
    let c = crate::strings::fil_spec().confirm_delete_selection_body@;
    let s_fil = c;
    lemma_keys_skip(c, 17);
    let c = c.subrange(17, c.len() as int);
    lemma_keys_token(c, 1);
    let k0 = c.subrange(1, 2);
    let c = c.subrange(3, c.len() as int);
    lemma_keys_skip(c, c.len() as int);
    assert(c.subrange(c.len() as int, c.len() as int) =~= Seq::<char>::empty());
    assert(k0 =~= "n"@);
    assert(placeholder_keys(s_fil) =~= seq!["n"@]);
    reveal_strlit("आप {n} चयनित विस्तार हटाने जा रहे हैं। यह क्रिया पूर्ववत नहीं की जा सकती।");
    let c = crate::strings::hi_spec().confirm_delete_selection_body@;
    let s_hi = c;
    lemma_keys_skip(c, 3);
    let c = c.subrange(3, c.len() as int);
    lemma_keys_token(c, 1);
    let k0 = c.subrange(1, 2);
    let c = c.subrange(3, c.len() as int);
    lemma_keys_skip(c, c.len() as int);
    assert(c.subrange(c.len() as int, c.len() as int) =~= Seq::<char>::empty());
    assert(k0 =~= "n"@);
    assert(placeholder_keys(s_hi) =~= seq!["n"@]);
}

proof fn keys_see_more()
    ensures
        placeholder_keys(crate::strings::en_spec().see_more@) == seq!["n"@],
        placeholder_keys(crate::strings::es_spec().see_more@) == seq!["n"@],
        placeholder_keys(crate::strings::fil_spec().see_more@) == seq!["n"@],
        placeholder_keys(crate::strings::hi_spec().see_more@) == seq!["n"@],
{
    reveal_strlit("n");
    reveal_strlit("See more ({n} more)");
    let c = crate::strings::en_spec().see_more@;
    let s_en = c;
    lemma_keys_skip(c, 10);
    let c = c.subrange(10, c.len() as int);
    lemma_keys_token(c, 1);
    let k0 = c.subrange(1, 2);
    let c = c.subrange(3, c.len() as int);
    lemma_keys_skip(c, c.len() as int);
    assert(c.subrange(c.len() as int, c.len() as int) =~= Seq::<char>::empty());
    assert(k0 =~= "n"@);
    assert(placeholder_keys(s_en) =~= seq!["n"@]);
    reveal_strlit("Ver más ({n} más)");
    let c = crate::strings::es_spec().see_more@;
    let s_es = c;
    lemma_keys_skip(c, 9);
    let c = c.subrange(9, c.len() as int);
    lemma_keys_token(c, 1);
    let k0 = c.subrange(1, 2);
    let c = c.subrange(3, c.len() as int);
    lemma_keys_skip(c, c.len() as int);
    assert(c.subrange(c.len() as int, c.len() as int) =~= Seq::<char>::empty());
    assert(k0 =~= "n"@);
    assert(placeholder_keys(s_es) =~= seq!["n"@]);
    reveal_strlit("Tingnan pa ({n} pa)");
    let c = crate::strings::fil_spec().see_more@;
    let s_fil = c;
    lemma_keys_skip(c, 12);
    let c = c.subrange(12, c.len() as int);
    lemma_keys_token(c, 1);
    let k0 = c.subrange(1, 2);
    let c = c.subrange(3, c.len() as int);
    lemma_keys_skip(c, c.len() as int);
    assert(c.subrange(c.len() as int, c.len() as int) =~= Seq::<char>::empty());
    assert(k0 =~= "n"@);
    assert(placeholder_keys(s_fil) =~= seq!["n"@]);
    reveal_strlit("और देखें ({n} और)");
    let c = crate::strings::hi_spec().see_more@;
    let s_hi = c;
    lemma_keys_skip(c, 10);
    let c = c.subrange(10, c.len() as int);
    lemma_keys_token(c, 1);
    let k0 = c.subrange(1, 2);
    let c = c.subrange(3, c.len() as int);
    lemma_keys_skip(c, c.len() as int);
    assert(c.subrange(c.len() as int, c.len() as int) =~= Seq::<char>::empty());
    assert(k0 =~= "n"@);
    assert(placeholder_keys(s_hi) =~= seq!["n"@]);
}

proof fn keys_edit_title_new()
    ensures
        placeholder_keys(crate::strings::en_spec().edit_title_new@) == Seq::<Seq<char>>::empty(),
        placeholder_keys(crate::strings::es_spec().edit_title_new@) == Seq::<Seq<char>>::empty(),
        placeholder_keys(crate::strings::fil_spec().edit_title_new@) == Seq::<Seq<char>>::empty(),
        placeholder_keys(crate::strings::hi_spec().edit_title_new@) == Seq::<Seq<char>>::empty(),
{
    reveal_strlit("New text expansion");
    let c = crate::strings::en_spec().edit_title_new@;
    let s_en = c;
    lemma_keys_skip(c, c.len() as int);
    assert(c.subrange(c.len() as int, c.len() as int) =~= Seq::<char>::empty());
    assert(placeholder_keys(s_en) =~= Seq::<Seq<char>>::empty());
    reveal_strlit("Nueva expansión de texto");
    let c = crate::strings::es_spec().edit_title_new@;
    let s_es = c;
    lemma_keys_skip(c, c.len() as int);
    assert(c.subrange(c.len() as int, c.len() as int) =~= Seq::<char>::empty());
    assert(placeholder_keys(s_es) =~= Seq::<Seq<char>>::empty());
    reveal_strlit("Bagong text expansion");
    let c = crate::strings::fil_spec().edit_title_new@;
    let s_fil = c;
    lemma_keys_skip(c, c.len() as int);
    assert(c.subrange(c.len() as int, c.len() as int) =~= Seq::<char>::empty());
    assert(placeholder_keys(s_fil) =~= Seq::<Seq<char>>::empty());
    reveal_strlit("नया टेक्स्ट विस्तार");
    let c = crate::strings::hi_spec().edit_title_new@;
    let s_hi = c;
    lemma_keys_skip(c, c.len() as int);
    assert(c.subrange(c.len() as int, c.len() as int) =~= Seq::<char>::empty());
    assert(placeholder_keys(s_hi) =~= Seq::<Seq<char>>::empty());
}

proof fn keys_edit_title_existing()
    ensures
        placeholder_keys(crate::strings::en_spec().edit_title_existing@) == Seq::<Seq<char>>::empty(),
        placeholder_keys(crate::strings::es_spec().edit_title_existing@) == Seq::<Seq<char>>::empty(),
        placeholder_keys(crate::strings::fil_spec().edit_title_existing@) == Seq::<Seq<char>>::empty(),
        placeholder_keys(crate::strings::hi_spec().edit_title_existing@) == Seq::<Seq<char>>::empty(),
{
    reveal_strlit("Edit text expansion");
    let c = crate::strings::en_spec().edit_title_existing@;
    let s_en = c;
    lemma_keys_skip(c, c.len() as int);
    assert(c.subrange(c.len() as int, c.len() as int) =~= Seq::<char>::empty());
    assert(placeholder_keys(s_en) =~= Seq::<Seq<char>>::empty());
    reveal_strlit("Editar expansión de texto");
    let c = crate::strings::es_spec().edit_title_existing@;
    let s_es = c;
    lemma_keys_skip(c, c.len() as int);
    assert(c.subrange(c.len() as int, c.len() as int) =~= Seq::<char>::empty());
    assert(placeholder_keys(s_es) =~= Seq::<Seq<char>>::empty());
    reveal_strlit("I-edit ang text expansion");
    let c = crate::strings::fil_spec().edit_title_existing@;
    let s_fil = c;
    lemma_keys_skip(c, c.len() as int);
    assert(c.subrange(c.len() as int, c.len() as int) =~= Seq::<char>::empty());
    assert(placeholder_keys(s_fil) =~= Seq::<Seq<char>>::empty());
    reveal_strlit("टेक्स्ट विस्तार संपादित करें");
    let c = crate::strings::hi_spec().edit_title_existing@;
    let s_hi = c;
    lemma_keys_skip(c, c.len() as int);
    assert(c.subrange(c.len() as int, c.len() as int) =~= Seq::<char>::empty());
    assert(placeholder_keys(s_hi) =~= Seq::<Seq<char>>::empty());
}

proof fn keys_when_you_type()
    ensures
        placeholder_keys(crate::strings::en_spec().when_you_type@) == Seq::<Seq<char>>::empty(),
        placeholder_keys(crate::strings::es_spec().when_you_type@) == Seq::<Seq<char>>::empty(),
        placeholder_keys(crate::strings::fil_spec().when_you_type@) == Seq::<Seq<char>>::empty(),
        placeholder_keys(crate::strings::hi_spec().when_you_type@) == Seq::<Seq<char>>::empty(),
{
    reveal_strlit("When you type this:");
    let c = crate::strings::en_spec().when_you_type@;
    let s_en = c;
    lemma_keys_skip(c, c.len() as int);
    assert(c.subrange(c.len() as int, c.len() as int) =~= Seq::<char>::empty());
    assert(placeholder_keys(s_en) =~= Seq::<Seq<char>>::empty());
    reveal_strlit("Cuando escribas esto:");
    let c = crate::strings::es_spec().when_you_type@;
    let s_es = c;
    lemma_keys_skip(c, c.len() as int);
    assert(c.subrange(c.len() as int, c.len() as int) =~= Seq::<char>::empty());
    assert(placeholder_keys(s_es) =~= Seq::<Seq<char>>::empty());
    reveal_strlit("Kapag i-type mo ito:");
    let c = crate::strings::fil_spec().when_you_type@;
    let s_fil = c;
    lemma_keys_skip(c, c.len() as int);
    assert(c.subrange(c.len() as int, c.len() as int) =~= Seq::<char>::empty());
    assert(placeholder_keys(s_fil) =~= Seq::<Seq<char>>::empty());
    reveal_strlit("जब आप यह टाइप करें:");
    let c = crate::strings::hi_spec().when_you_type@;
    let s_hi = c;
    lemma_keys_skip(c, c.len() as int);
    assert(c.subrange(c.len() as int, c.len() as int) =~= Seq::<char>::empty());
    assert(placeholder_keys(s_hi) =~= Seq::<Seq<char>>::empty());
}

proof fn keys_will_be_replaced_by()
    ensures
        placeholder_keys(crate::strings::en_spec().will_be_replaced_by@) == Seq::<Seq<char>>::empty(),
        placeholder_keys(crate::strings::es_spec().will_be_replaced_by@) == Seq::<Seq<char>>::empty(),
        placeholder_keys(crate::strings::fil_spec().will_be_replaced_by@) == Seq::<Seq<char>>::empty(),
        placeholder_keys(crate::strings::hi_spec().will_be_replaced_by@) == Seq::<Seq<char>>::empty(),
{
    reveal_strlit("It will be replaced by:");
    let c = crate::strings::en_spec().will_be_replaced_by@;
    let s_en = c;
    lemma_keys_skip(c, c.len() as int);
    assert(c.subrange(c.len() as int, c.len() as int) =~= Seq::<char>::empty());
    assert(placeholder_keys(s_en) =~= Seq::<Seq<char>>::empty());
    reveal_strlit("Se reemplazará por:");
    let c = crate::strings::es_spec().will_be_replaced_by@;
    let s_es = c;
    lemma_keys_skip(c, c.len() as int);
    assert(c.subrange(c.len() as int, c.len() as int) =~= Seq::<char>::empty());
    assert(placeholder_keys(s_es) =~= Seq::<Seq<char>>::empty());
    reveal_strlit("Papalitan ito ng:");
    let c = crate::strings::fil_spec().will_be_replaced_by@;
    let s_fil = c;
    lemma_keys_skip(c, c.len() as int);
    assert(c.subrange(c.len() as int, c.len() as int) =~= Seq::<char>::empty());
    assert(placeholder_keys(s_fil) =~= Seq::<Seq<char>>::empty());
    reveal_strlit("इसे इससे बदला जाएगा:");
    let c = crate::strings::hi_spec().will_be_replaced_by@;
    let s_hi = c;
    lemma_keys_skip(c, c.len() as int);
    assert(c.subrange(c.len() as int, c.len() as int) =~= Seq::<char>::empty());
    assert(placeholder_keys(s_hi) =~= Seq::<Seq<char>>::empty());
}

proof fn keys_kind_text()
    ensures
        placeholder_keys(crate::strings::en_spec().kind_text@) == Seq::<Seq<char>>::empty(),
        placeholder_keys(crate::strings::es_spec().kind_text@) == Seq::<Seq<char>>::empty(),
        placeholder_keys(crate::strings::fil_spec().kind_text@) == Seq::<Seq<char>>::empty(),
        placeholder_keys(crate::strings::hi_spec().kind_text@) == Seq::<Seq<char>>::empty(),
{
    reveal_strlit("Text");
    let c = crate::strings::en_spec().kind_text@;
    let s_en = c;
    lemma_keys_skip(c, c.len() as int);
    assert(c.subrange(c.len() as int, c.len() as int) =~= Seq::<char>::empty());
    assert(placeholder_keys(s_en) =~= Seq::<Seq<char>>::empty());
    reveal_strlit("Texto");
    let c = crate::strings::es_spec().kind_text@;
    let s_es = c;
    lemma_keys_skip(c, c.len() as int);
    assert(c.subrange(c.len() as int, c.len() as int) =~= Seq::<char>::empty());
    assert(placeholder_keys(s_es) =~= Seq::<Seq<char>>::empty());
    reveal_strlit("Teksto");
    let c = crate::strings::fil_spec().kind_text@;
    let s_fil = c;
    lemma_keys_skip(c, c.len() as int);
    assert(c.subrange(c.len() as int, c.len() as int) =~= Seq::<char>::empty());
    assert(placeholder_keys(s_fil) =~= Seq::<Seq<char>>::empty());
    reveal_strlit("टेक्स्ट");
    let c = crate::strings::hi_spec().kind_text@;
    let s_hi = c;
    lemma_keys_skip(c, c.len() as int);
    assert(c.subrange(c.len() as int, c.len() as int) =~= Seq::<char>::empty());
    assert(placeholder_keys(s_hi) =~= Seq::<Seq<char>>::empty());
}

proof fn keys_kind_date()
    ensures
        placeholder_keys(crate::strings::en_spec().kind_date@) == Seq::<Seq<char>>::empty(),
        placeholder_keys(crate::strings::es_spec().kind_date@) == Seq::<Seq<char>>::empty(),
        placeholder_keys(crate::strings::fil_spec().kind_date@) == Seq::<Seq<char>>::empty(),
        placeholder_keys(crate::strings::hi_spec().kind_date@) == Seq::<Seq<char>>::empty(),
{
    reveal_strlit("Current date or time");
    let c = crate::strings::en_spec().kind_date@;
    let s_en = c;
    lemma_keys_skip(c, c.len() as int);
    assert(c.subrange(c.len() as int, c.len() as int) =~= Seq::<char>::empty());
    assert(placeholder_keys(s_en) =~= Seq::<Seq<char>>::empty());
    reveal_strlit("Fecha u hora actual");
    let c = crate::strings::es_spec().kind_date@;
    let s_es = c;
    lemma_keys_skip(c, c.len() as int);
    assert(c.subrange(c.len() as int, c.len() as int) =~= Seq::<char>::empty());
    assert(placeholder_keys(s_es) =~= Seq::<Seq<char>>::empty());
    reveal_strlit("Kasalukuyang petsa o oras");
    let c = crate::strings::fil_spec().kind_date@;
    let s_fil = c;
    lemma_keys_skip(c, c.len() as int);
    assert(c.subrange(c.len() as int, c.len() as int) =~= Seq::<char>::empty());
    assert(placeholder_keys(s_fil) =~= Seq::<Seq<char>>::empty());
    reveal_strlit("वर्तमान दिनांक या समय");
    let c = crate::strings::hi_spec().kind_date@;
    let s_hi = c;
    lemma_keys_skip(c, c.len() as int);
    assert(c.subrange(c.len() as int, c.len() as int) =~= Seq::<char>::empty());
    assert(placeholder_keys(s_hi) =~= Seq::<Seq<char>>::empty());
}

proof fn keys_preset_date_only()
    ensures
        placeholder_keys(crate::strings::en_spec().preset_date_only@) == Seq::<Seq<char>>::empty(),
        placeholder_keys(crate::strings::es_spec().preset_date_only@) == Seq::<Seq<char>>::empty(),
        placeholder_keys(crate::strings::fil_spec().preset_date_only@) == Seq::<Seq<char>>::empty(),
        placeholder_keys(crate::strings::hi_spec().preset_date_only@) == Seq::<Seq<char>>::empty(),
{
    reveal_strlit("Date only (ISO 8601)");
    let c = crate::strings::en_spec().preset_date_only@;
    let s_en = c;
    lemma_keys_skip(c, c.len() as int);
    assert(c.subrange(c.len() as int, c.len() as int) =~= Seq::<char>::empty());
    assert(placeholder_keys(s_en) =~= Seq::<Seq<char>>::empty());
    reveal_strlit("Solo la fecha (ISO 8601)");
    let c = crate::strings::es_spec().preset_date_only@;
    let s_es = c;
    lemma_keys_skip(c, c.len() as int);
    assert(c.subrange(c.len() as int, c.len() as int) =~= Seq::<char>::empty());
    assert(placeholder_keys(s_es) =~= Seq::<Seq<char>>::empty());
    reveal_strlit("Petsa lamang (ISO 8601)");
    let c = crate::strings::fil_spec().preset_date_only@;
    let s_fil = c;
    lemma_keys_skip(c, c.len() as int);
    assert(c.subrange(c.len() as int, c.len() as int) =~= Seq::<char>::empty());
    assert(placeholder_keys(s_fil) =~= Seq::<Seq<char>>::empty());
    reveal_strlit("केवल दिनांक (ISO 8601)");
    let c = crate::strings::hi_spec().preset_date_only@;
    let s_hi = c;
    lemma_keys_skip(c, c.len() as int);
    assert(c.subrange(c.len() as int, c.len() as int) =~= Seq::<char>::empty());
    assert(placeholder_keys(s_hi) =~= Seq::<Seq<char>>::empty());
}

proof fn keys_preset_datetime_utc()
    ensures
        placeholder_keys(crate::strings::en_spec().preset_datetime_utc@) == Seq::<Seq<char>>::empty(),
        placeholder_keys(crate::strings::es_spec().preset_datetime_utc@) == Seq::<Seq<char>>::empty(),
        placeholder_keys(crate::strings::fil_spec().preset_datetime_utc@) == Seq::<Seq<char>>::empty(),
        placeholder_keys(crate::strings::hi_spec().preset_datetime_utc@) == Seq::<Seq<char>>::empty(),
{
    reveal_strlit("Date and time in UTC (ISO 8601)");
    let c = crate::strings::en_spec().preset_datetime_utc@;
    let s_en = c;
    lemma_keys_skip(c, c.len() as int);
    assert(c.subrange(c.len() as int, c.len() as int) =~= Seq::<char>::empty());
    assert(placeholder_keys(s_en) =~= Seq::<Seq<char>>::empty());
    reveal_strlit("Fecha y hora en UTC (ISO 8601)");
    let c = crate::strings::es_spec().preset_datetime_utc@;
    let s_es = c;
    lemma_keys_skip(c, c.len() as int);
    assert(c.subrange(c.len() as int, c.len() as int) =~= Seq::<char>::empty());
    assert(placeholder_keys(s_es) =~= Seq::<Seq<char>>::empty());
    reveal_strlit("Petsa at oras sa UTC (ISO 8601)");
    let c = crate::strings::fil_spec().preset_datetime_utc@;
    let s_fil = c;
    lemma_keys_skip(c, c.len() as int);
    assert(c.subrange(c.len() as int, c.len() as int) =~= Seq::<char>::empty());
    assert(placeholder_keys(s_fil) =~= Seq::<Seq<char>>::empty());
    reveal_strlit("UTC में दिनांक और समय (ISO 8601)");
    let c = crate::strings::hi_spec().preset_datetime_utc@;
    let s_hi = c;
    lemma_keys_skip(c, c.len() as int);
    assert(c.subrange(c.len() as int, c.len() as int) =~= Seq::<char>::empty());
    assert(placeholder_keys(s_hi) =~= Seq::<Seq<char>>::empty());
}

proof fn keys_preset_month_day_year()
    ensures
        placeholder_keys(crate::strings::en_spec().preset_month_day_year@) == Seq::<Seq<char>>::empty(),
        placeholder_keys(crate::strings::es_spec().preset_month_day_year@) == Seq::<Seq<char>>::empty(),
        placeholder_keys(crate::strings::fil_spec().preset_month_day_year@) == Seq::<Seq<char>>::empty(),
        placeholder_keys(crate::strings::hi_spec().preset_month_day_year@) == Seq::<Seq<char>>::empty(),
{
    reveal_strlit("Month, day and year");
    let c = crate::strings::en_spec().preset_month_day_year@;
    let s_en = c;
    lemma_keys_skip(c, c.len() as int);
    assert(c.subrange(c.len() as int, c.len() as int) =~= Seq::<char>::empty());
    assert(placeholder_keys(s_en) =~= Seq::<Seq<char>>::empty());
    reveal_strlit("Mes, día y año");
    let c = crate::strings::es_spec().preset_month_day_year@;
    let s_es = c;
    lemma_keys_skip(c, c.len() as int);
    assert(c.subrange(c.len() as int, c.len() as int) =~= Seq::<char>::empty());
    assert(placeholder_keys(s_es) =~= Seq::<Seq<char>>::empty());
    reveal_strlit("Buwan, araw at taon");
    let c = crate::strings::fil_spec().preset_month_day_year@;
    let s_fil = c;
    lemma_keys_skip(c, c.len() as int);
    assert(c.subrange(c.len() as int, c.len() as int) =~= Seq::<char>::empty());
    assert(placeholder_keys(s_fil) =~= Seq::<Seq<char>>::empty());
    reveal_strlit("महीना, दिन और वर्ष");
    let c = crate::strings::hi_spec().preset_month_day_year@;
    let s_hi = c;
    lemma_keys_skip(c, c.len() as int);
    assert(c.subrange(c.len() as int, c.len() as int) =~= Seq::<char>::empty());
    assert(placeholder_keys(s_hi) =~= Seq::<Seq<char>>::empty());
}

proof fn keys_preset_day_month_year()
    ensures
        placeholder_keys(crate::strings::en_spec().preset_day_month_year@) == Seq::<Seq<char>>::empty(),
        placeholder_keys(crate::strings::es_spec().preset_day_month_year@) == Seq::<Seq<char>>::empty(),
        placeholder_keys(crate::strings::fil_spec().preset_day_month_year@) == Seq::<Seq<char>>::empty(),
        placeholder_keys(crate::strings::hi_spec().preset_day_month_year@) == Seq::<Seq<char>>::empty(),
{
    reveal_strlit("Day, month and year");
    let c = crate::strings::en_spec().preset_day_month_year@;
    let s_en = c;
    lemma_keys_skip(c, c.len() as int);
    assert(c.subrange(c.len() as int, c.len() as int) =~= Seq::<char>::empty());
    assert(placeholder_keys(s_en) =~= Seq::<Seq<char>>::empty());
    reveal_strlit("Día, mes y año");
    let c = crate::strings::es_spec().preset_day_month_year@;
    let s_es = c;
    lemma_keys_skip(c, c.len() as int);
    assert(c.subrange(c.len() as int, c.len() as int) =~= Seq::<char>::empty());
    assert(placeholder_keys(s_es) =~= Seq::<Seq<char>>::empty());
    reveal_strlit("Araw, buwan at taon");
    let c = crate::strings::fil_spec().preset_day_month_year@;
    let s_fil = c;
    lemma_keys_skip(c, c.len() as int);
    assert(c.subrange(c.len() as int, c.len() as int) =~= Seq::<char>::empty());
    assert(placeholder_keys(s_fil) =~= Seq::<Seq<char>>::empty());
    reveal_strlit("दिन, महीना और वर्ष");
    let c = crate::strings::hi_spec().preset_day_month_year@;
    let s_hi = c;
    lemma_keys_skip(c, c.len() as int);
    assert(c.subrange(c.len() as int, c.len() as int) =~= Seq::<char>::empty());
    assert(placeholder_keys(s_hi) =~= Seq::<Seq<char>>::empty());
}

proof fn keys_month_language_label()
    ensures
        placeholder_keys(crate::strings::en_spec().month_language_label@) == Seq::<Seq<char>>::empty(),
        placeholder_keys(crate::strings::es_spec().month_language_label@) == Seq::<Seq<char>>::empty(),
        placeholder_keys(crate::strings::fil_spec().month_language_label@) == Seq::<Seq<char>>::empty(),
        placeholder_keys(crate::strings::hi_spec().month_language_label@) == Seq::<Seq<char>>::empty(),
{
    reveal_strlit("Month language");
    let c = crate::strings::en_spec().month_language_label@;
    let s_en = c;
    lemma_keys_skip(c, c.len() as int);
    assert(c.subrange(c.len() as int, c.len() as int) =~= Seq::<char>::empty());
    assert(placeholder_keys(s_en) =~= Seq::<Seq<char>>::empty());
    reveal_strlit("Idioma del mes");
    let c = crate::strings::es_spec().month_language_label@;
    let s_es = c;
    lemma_keys_skip(c, c.len() as int);
    assert(c.subrange(c.len() as int, c.len() as int) =~= Seq::<char>::empty());
    assert(placeholder_keys(s_es) =~= Seq::<Seq<char>>::empty());
    reveal_strlit("Wika ng buwan");
    let c = crate::strings::fil_spec().month_language_label@;
    let s_fil = c;
    lemma_keys_skip(c, c.len() as int);
    assert(c.subrange(c.len() as int, c.len() as int) =~= Seq::<char>::empty());
    assert(placeholder_keys(s_fil) =~= Seq::<Seq<char>>::empty());
    reveal_strlit("महीने की भाषा");
    let c = crate::strings::hi_spec().month_language_label@;
    let s_hi = c;
    lemma_keys_skip(c, c.len() as int);
    assert(c.subrange(c.len() as int, c.len() as int) =~= Seq::<char>::empty());
    assert(placeholder_keys(s_hi) =~= Seq::<Seq<char>>::empty());
}

proof fn keys_month_language_hint()
    ensures
        placeholder_keys(crate::strings::en_spec().month_language_hint@) == Seq::<Seq<char>>::empty(),
        placeholder_keys(crate::strings::es_spec().month_language_hint@) == Seq::<Seq<char>>::empty(),
        placeholder_keys(crate::strings::fil_spec().month_language_hint@) == Seq::<Seq<char>>::empty(),
        placeholder_keys(crate::strings::hi_spec().month_language_hint@) == Seq::<Seq<char>>::empty(),
{
    reveal_strlit("This wins over your Windows language and over the app's: the month is written this way on any computer.");
    let c = crate::strings::en_spec().month_language_hint@;
    let s_en = c;
    lemma_keys_skip(c, c.len() as int);
    assert(c.subrange(c.len() as int, c.len() as int) =~= Seq::<char>::empty());
    assert(placeholder_keys(s_en) =~= Seq::<Seq<char>>::empty());
    reveal_strlit("Manda sobre el idioma de Windows y sobre el de la aplicación: el mes se escribirá así en cualquier computadora.");
    let c = crate::strings::es_spec().month_language_hint@;
    let s_es = c;
    lemma_keys_skip(c, c.len() as int);
    assert(c.subrange(c.len() as int, c.len() as int) =~= Seq::<char>::empty());
    assert(placeholder_keys(s_es) =~= Seq::<Seq<char>>::empty());
    reveal_strlit("Nangingibabaw ito sa wika ng Windows at sa wika ng app: ganito isusulat ang buwan sa kahit anong kompyuter.");
    let c = crate::strings::fil_spec().month_language_hint@;
    let s_fil = c;
    lemma_keys_skip(c, c.len() as int);
    assert(c.subrange(c.len() as int, c.len() as int) =~= Seq::<char>::empty());
    assert(placeholder_keys(s_fil) =~= Seq::<Seq<char>>::empty());
    reveal_strlit("यह Windows की भाषा और ऐप की भाषा, दोनों पर भारी पड़ती है: महीना किसी भी कंप्यूटर पर इसी भाषा में लिखा जाएगा।");
    let c = crate::strings::hi_spec().month_language_hint@;
    let s_hi = c;
    lemma_keys_skip(c, c.len() as int);
    assert(c.subrange(c.len() as int, c.len() as int) =~= Seq::<char>::empty());
    assert(placeholder_keys(s_hi) =~= Seq::<Seq<char>>::empty());
}

proof fn keys_preset_custom()
    ensures
        placeholder_keys(crate::strings::en_spec().preset_custom@) == Seq::<Seq<char>>::empty(),
        placeholder_keys(crate::strings::es_spec().preset_custom@) == Seq::<Seq<char>>::empty(),
        placeholder_keys(crate::strings::fil_spec().preset_custom@) == Seq::<Seq<char>>::empty(),
        placeholder_keys(crate::strings::hi_spec().preset_custom@) == Seq::<Seq<char>>::empty(),
{
    reveal_strlit("Custom");
    let c = crate::strings::en_spec().preset_custom@;
    let s_en = c;
    lemma_keys_skip(c, c.len() as int);
    assert(c.subrange(c.len() as int, c.len() as int) =~= Seq::<char>::empty());
    assert(placeholder_keys(s_en) =~= Seq::<Seq<char>>::empty());
    reveal_strlit("Personalizado");
    let c = crate::strings::es_spec().preset_custom@;
    let s_es = c;
    lemma_keys_skip(c, c.len() as int);
    assert(c.subrange(c.len() as int, c.len() as int) =~= Seq::<char>::empty());
    assert(placeholder_keys(s_es) =~= Seq::<Seq<char>>::empty());
    reveal_strlit("Pasadya");
    let c = crate::strings::fil_spec().preset_custom@;
    let s_fil = c;
    lemma_keys_skip(c, c.len() as int);
    assert(c.subrange(c.len() as int, c.len() as int) =~= Seq::<char>::empty());
    assert(placeholder_keys(s_fil) =~= Seq::<Seq<char>>::empty());
    reveal_strlit("कस्टम");
    let c = crate::strings::hi_spec().preset_custom@;
    let s_hi = c;
    lemma_keys_skip(c, c.len() as int);
    assert(c.subrange(c.len() as int, c.len() as int) =~= Seq::<char>::empty());
    assert(placeholder_keys(s_hi) =~= Seq::<Seq<char>>::empty());
}

proof fn keys_blocks_hint()
    ensures
        placeholder_keys(crate::strings::en_spec().blocks_hint@) == Seq::<Seq<char>>::empty(),
        placeholder_keys(crate::strings::es_spec().blocks_hint@) == Seq::<Seq<char>>::empty(),
        placeholder_keys(crate::strings::fil_spec().blocks_hint@) == Seq::<Seq<char>>::empty(),
        placeholder_keys(crate::strings::hi_spec().blocks_hint@) == Seq::<Seq<char>>::empty(),
{
    reveal_strlit("Drag the blocks below to build your format, or click one to add it at the end.");
    let c = crate::strings::en_spec().blocks_hint@;
    let s_en = c;
    lemma_keys_skip(c, c.len() as int);
    assert(c.subrange(c.len() as int, c.len() as int) =~= Seq::<char>::empty());
    assert(placeholder_keys(s_en) =~= Seq::<Seq<char>>::empty());
    reveal_strlit("Arrastra los bloques de abajo para armar tu formato, o haz clic en uno para añadirlo al final.");
    let c = crate::strings::es_spec().blocks_hint@;
    let s_es = c;
    lemma_keys_skip(c, c.len() as int);
    assert(c.subrange(c.len() as int, c.len() as int) =~= Seq::<char>::empty());
    assert(placeholder_keys(s_es) =~= Seq::<Seq<char>>::empty());
    reveal_strlit("I-drag ang mga bloke sa ibaba para buuin ang iyong format, o i-click ang isa para idagdag sa dulo.");
    let c = crate::strings::fil_spec().blocks_hint@;
    let s_fil = c;
    lemma_keys_skip(c, c.len() as int);
    assert(c.subrange(c.len() as int, c.len() as int) =~= Seq::<char>::empty());
    assert(placeholder_keys(s_fil) =~= Seq::<Seq<char>>::empty());
    reveal_strlit("अपना प्रारूप बनाने के लिए नीचे के ब्लॉक खींचें, या किसी पर क्लिक करके उसे अंत में जोड़ें।");
    let c = crate::strings::hi_spec().blocks_hint@;
    let s_hi = c;
    lemma_keys_skip(c, c.len() as int);
    assert(c.subrange(c.len() as int, c.len() as int) =~= Seq::<char>::empty());
    assert(placeholder_keys(s_hi) =~= Seq::<Seq<char>>::empty());
}

proof fn keys_blocks_empty()
    ensures
        placeholder_keys(crate::strings::en_spec().blocks_empty@) == Seq::<Seq<char>>::empty(),
        placeholder_keys(crate::strings::es_spec().blocks_empty@) == Seq::<Seq<char>>::empty(),
        placeholder_keys(crate::strings::fil_spec().blocks_empty@) == Seq::<Seq<char>>::empty(),
        placeholder_keys(crate::strings::hi_spec().blocks_empty@) == Seq::<Seq<char>>::empty(),
{
    reveal_strlit("Drop blocks here");
    let c = crate::strings::en_spec().blocks_empty@;
    let s_en = c;
    lemma_keys_skip(c, c.len() as int);
    assert(c.subrange(c.len() as int, c.len() as int) =~= Seq::<char>::empty());
    assert(placeholder_keys(s_en) =~= Seq::<Seq<char>>::empty());
    reveal_strlit("Suelta aquí los bloques");
    let c = crate::strings::es_spec().blocks_empty@;
    let s_es = c;
    lemma_keys_skip(c, c.len() as int);
    assert(c.subrange(c.len() as int, c.len() as int) =~= Seq::<char>::empty());
    assert(placeholder_keys(s_es) =~= Seq::<Seq<char>>::empty());
    reveal_strlit("Ihulog dito ang mga bloke");
    let c = crate::strings::fil_spec().blocks_empty@;
    let s_fil = c;
    lemma_keys_skip(c, c.len() as int);
    assert(c.subrange(c.len() as int, c.len() as int) =~= Seq::<char>::empty());
    assert(placeholder_keys(s_fil) =~= Seq::<Seq<char>>::empty());
    reveal_strlit("ब्लॉक यहाँ छोड़ें");
    let c = crate::strings::hi_spec().blocks_empty@;
    let s_hi = c;
    lemma_keys_skip(c, c.len() as int);
    assert(c.subrange(c.len() as int, c.len() as int) =~= Seq::<char>::empty());
    assert(placeholder_keys(s_hi) =~= Seq::<Seq<char>>::empty());
}

proof fn keys_blocks_fields()
    ensures
        placeholder_keys(crate::strings::en_spec().blocks_fields@) == Seq::<Seq<char>>::empty(),
        placeholder_keys(crate::strings::es_spec().blocks_fields@) == Seq::<Seq<char>>::empty(),
        placeholder_keys(crate::strings::fil_spec().blocks_fields@) == Seq::<Seq<char>>::empty(),
        placeholder_keys(crate::strings::hi_spec().blocks_fields@) == Seq::<Seq<char>>::empty(),
{
    reveal_strlit("Pieces of the date");
    let c = crate::strings::en_spec().blocks_fields@;
    let s_en = c;
    lemma_keys_skip(c, c.len() as int);
    assert(c.subrange(c.len() as int, c.len() as int) =~= Seq::<char>::empty());
    assert(placeholder_keys(s_en) =~= Seq::<Seq<char>>::empty());
    reveal_strlit("Piezas de la fecha");
    let c = crate::strings::es_spec().blocks_fields@;
    let s_es = c;
    lemma_keys_skip(c, c.len() as int);
    assert(c.subrange(c.len() as int, c.len() as int) =~= Seq::<char>::empty());
    assert(placeholder_keys(s_es) =~= Seq::<Seq<char>>::empty());
    reveal_strlit("Mga bahagi ng petsa");
    let c = crate::strings::fil_spec().blocks_fields@;
    let s_fil = c;
    lemma_keys_skip(c, c.len() as int);
    assert(c.subrange(c.len() as int, c.len() as int) =~= Seq::<char>::empty());
    assert(placeholder_keys(s_fil) =~= Seq::<Seq<char>>::empty());
    reveal_strlit("दिनांक के हिस्से");
    let c = crate::strings::hi_spec().blocks_fields@;
    let s_hi = c;
    lemma_keys_skip(c, c.len() as int);
    assert(c.subrange(c.len() as int, c.len() as int) =~= Seq::<char>::empty());
    assert(placeholder_keys(s_hi) =~= Seq::<Seq<char>>::empty());
}

proof fn keys_blocks_separators()
    ensures
        placeholder_keys(crate::strings::en_spec().blocks_separators@) == Seq::<Seq<char>>::empty(),
        placeholder_keys(crate::strings::es_spec().blocks_separators@) == Seq::<Seq<char>>::empty(),
        placeholder_keys(crate::strings::fil_spec().blocks_separators@) == Seq::<Seq<char>>::empty(),
        placeholder_keys(crate::strings::hi_spec().blocks_separators@) == Seq::<Seq<char>>::empty(),
{
    reveal_strlit("Separators (reusable)");
    let c = crate::strings::en_spec().blocks_separators@;
    let s_en = c;
    lemma_keys_skip(c, c.len() as int);
    assert(c.subrange(c.len() as int, c.len() as int) =~= Seq::<char>::empty());
    assert(placeholder_keys(s_en) =~= Seq::<Seq<char>>::empty());
    reveal_strlit("Separadores (se pueden repetir)");
    let c = crate::strings::es_spec().blocks_separators@;
    let s_es = c;
    lemma_keys_skip(c, c.len() as int);
    assert(c.subrange(c.len() as int, c.len() as int) =~= Seq::<char>::empty());
    assert(placeholder_keys(s_es) =~= Seq::<Seq<char>>::empty());
    reveal_strlit("Mga separator (paulit-ulit na magagamit)");
    let c = crate::strings::fil_spec().blocks_separators@;
    let s_fil = c;
    lemma_keys_skip(c, c.len() as int);
    assert(c.subrange(c.len() as int, c.len() as int) =~= Seq::<char>::empty());
    assert(placeholder_keys(s_fil) =~= Seq::<Seq<char>>::empty());
    reveal_strlit("विभाजक (बार-बार उपयोग करें)");
    let c = crate::strings::hi_spec().blocks_separators@;
    let s_hi = c;
    lemma_keys_skip(c, c.len() as int);
    assert(c.subrange(c.len() as int, c.len() as int) =~= Seq::<char>::empty());
    assert(placeholder_keys(s_hi) =~= Seq::<Seq<char>>::empty());
}

proof fn keys_blocks_remove_tip()
    ensures
        placeholder_keys(crate::strings::en_spec().blocks_remove_tip@) == Seq::<Seq<char>>::empty(),
        placeholder_keys(crate::strings::es_spec().blocks_remove_tip@) == Seq::<Seq<char>>::empty(),
        placeholder_keys(crate::strings::fil_spec().blocks_remove_tip@) == Seq::<Seq<char>>::empty(),
        placeholder_keys(crate::strings::hi_spec().blocks_remove_tip@) == Seq::<Seq<char>>::empty(),
{
    reveal_strlit("Remove");
    let c = crate::strings::en_spec().blocks_remove_tip@;
    let s_en = c;
    lemma_keys_skip(c, c.len() as int);
    assert(c.subrange(c.len() as int, c.len() as int) =~= Seq::<char>::empty());
    assert(placeholder_keys(s_en) =~= Seq::<Seq<char>>::empty());
    reveal_strlit("Quitar");
    let c = crate::strings::es_spec().blocks_remove_tip@;
    let s_es = c;
    lemma_keys_skip(c, c.len() as int);
    assert(c.subrange(c.len() as int, c.len() as int) =~= Seq::<char>::empty());
    assert(placeholder_keys(s_es) =~= Seq::<Seq<char>>::empty());
    reveal_strlit("Alisin");
    let c = crate::strings::fil_spec().blocks_remove_tip@;
    let s_fil = c;
    lemma_keys_skip(c, c.len() as int);
    assert(c.subrange(c.len() as int, c.len() as int) =~= Seq::<char>::empty());
    assert(placeholder_keys(s_fil) =~= Seq::<Seq<char>>::empty());
    reveal_strlit("हटाएँ");
    let c = crate::strings::hi_spec().blocks_remove_tip@;
    let s_hi = c;
    lemma_keys_skip(c, c.len() as int);
    assert(c.subrange(c.len() as int, c.len() as int) =~= Seq::<char>::empty());
    assert(placeholder_keys(s_hi) =~= Seq::<Seq<char>>::empty());
}

proof fn keys_blocks_advanced()
    ensures
        placeholder_keys(crate::strings::en_spec().blocks_advanced@) == Seq::<Seq<char>>::empty(),
        placeholder_keys(crate::strings::es_spec().blocks_advanced@) == Seq::<Seq<char>>::empty(),
        placeholder_keys(crate::strings::fil_spec().blocks_advanced@) == Seq::<Seq<char>>::empty(),
        placeholder_keys(crate::strings::hi_spec().blocks_advanced@) == Seq::<Seq<char>>::empty(),
{
    reveal_strlit("This format uses codes the blocks cannot show. Edit it as text below.");
    let c = crate::strings::en_spec().blocks_advanced@;
    let s_en = c;
    lemma_keys_skip(c, c.len() as int);
    assert(c.subrange(c.len() as int, c.len() as int) =~= Seq::<char>::empty());
    assert(placeholder_keys(s_en) =~= Seq::<Seq<char>>::empty());
    reveal_strlit("Este formato usa códigos que los bloques no pueden mostrar. Edítalo como texto abajo.");
    let c = crate::strings::es_spec().blocks_advanced@;
    let s_es = c;
    lemma_keys_skip(c, c.len() as int);
    assert(c.subrange(c.len() as int, c.len() as int) =~= Seq::<char>::empty());
    assert(placeholder_keys(s_es) =~= Seq::<Seq<char>>::empty());
    reveal_strlit("Gumagamit ang format na ito ng mga code na hindi maipapakita ng mga bloke. I-edit ito bilang teksto sa ibaba.");
    let c = crate::strings::fil_spec().blocks_advanced@;
    let s_fil = c;
    lemma_keys_skip(c, c.len() as int);
    assert(c.subrange(c.len() as int, c.len() as int) =~= Seq::<char>::empty());
    assert(placeholder_keys(s_fil) =~= Seq::<Seq<char>>::empty());
    reveal_strlit("यह प्रारूप ऐसे कोड उपयोग करता है जो ब्लॉक नहीं दिखा सकते। इसे नीचे पाठ के रूप में संपादित करें।");
    let c = crate::strings::hi_spec().blocks_advanced@;
    let s_hi = c;
    lemma_keys_skip(c, c.len() as int);
    assert(c.subrange(c.len() as int, c.len() as int) =~= Seq::<char>::empty());
    assert(placeholder_keys(s_hi) =~= Seq::<Seq<char>>::empty());
}

proof fn keys_block_year()
    ensures
        placeholder_keys(crate::strings::en_spec().block_year@) == Seq::<Seq<char>>::empty(),
        placeholder_keys(crate::strings::es_spec().block_year@) == Seq::<Seq<char>>::empty(),
        placeholder_keys(crate::strings::fil_spec().block_year@) == Seq::<Seq<char>>::empty(),
        placeholder_keys(crate::strings::hi_spec().block_year@) == Seq::<Seq<char>>::empty(),
{
    reveal_strlit("Year");
    let c = crate::strings::en_spec().block_year@;
    let s_en = c;
    lemma_keys_skip(c, c.len() as int);
    assert(c.subrange(c.len() as int, c.len() as int) =~= Seq::<char>::empty());
    assert(placeholder_keys(s_en) =~= Seq::<Seq<char>>::empty());
    reveal_strlit("Año");
    let c = crate::strings::es_spec().block_year@;
    let s_es = c;
    lemma_keys_skip(c, c.len() as int);
    assert(c.subrange(c.len() as int, c.len() as int) =~= Seq::<char>::empty());
    assert(placeholder_keys(s_es) =~= Seq::<Seq<char>>::empty());
    reveal_strlit("Taon");
    let c = crate::strings::fil_spec().block_year@;
    let s_fil = c;
    lemma_keys_skip(c, c.len() as int);
    assert(c.subrange(c.len() as int, c.len() as int) =~= Seq::<char>::empty());
    assert(placeholder_keys(s_fil) =~= Seq::<Seq<char>>::empty());
    reveal_strlit("वर्ष");
    let c = crate::strings::hi_spec().block_year@;
    let s_hi = c;
    lemma_keys_skip(c, c.len() as int);
    assert(c.subrange(c.len() as int, c.len() as int) =~= Seq::<char>::empty());
    assert(placeholder_keys(s_hi) =~= Seq::<Seq<char>>::empty());
}

proof fn keys_block_month_name()
    ensures
        placeholder_keys(crate::strings::en_spec().block_month_name@) == Seq::<Seq<char>>::empty(),
        placeholder_keys(crate::strings::es_spec().block_month_name@) == Seq::<Seq<char>>::empty(),
        placeholder_keys(crate::strings::fil_spec().block_month_name@) == Seq::<Seq<char>>::empty(),
        placeholder_keys(crate::strings::hi_spec().block_month_name@) == Seq::<Seq<char>>::empty(),
{
    reveal_strlit("Month (name)");
    let c = crate::strings::en_spec().block_month_name@;
    let s_en = c;
    lemma_keys_skip(c, c.len() as int);
    assert(c.subrange(c.len() as int, c.len() as int) =~= Seq::<char>::empty());
    assert(placeholder_keys(s_en) =~= Seq::<Seq<char>>::empty());
    reveal_strlit("Mes (nombre)");
    let c = crate::strings::es_spec().block_month_name@;
    let s_es = c;
    lemma_keys_skip(c, c.len() as int);
    assert(c.subrange(c.len() as int, c.len() as int) =~= Seq::<char>::empty());
    assert(placeholder_keys(s_es) =~= Seq::<Seq<char>>::empty());
    reveal_strlit("Buwan (pangalan)");
    let c = crate::strings::fil_spec().block_month_name@;
    let s_fil = c;
    lemma_keys_skip(c, c.len() as int);
    assert(c.subrange(c.len() as int, c.len() as int) =~= Seq::<char>::empty());
    assert(placeholder_keys(s_fil) =~= Seq::<Seq<char>>::empty());
    reveal_strlit("महीना (नाम)");
    let c = crate::strings::hi_spec().block_month_name@;
    let s_hi = c;
    lemma_keys_skip(c, c.len() as int);
    assert(c.subrange(c.len() as int, c.len() as int) =~= Seq::<char>::empty());
    assert(placeholder_keys(s_hi) =~= Seq::<Seq<char>>::empty());
}

proof fn keys_block_month_number()
    ensures
        placeholder_keys(crate::strings::en_spec().block_month_number@) == Seq::<Seq<char>>::empty(),
        placeholder_keys(crate::strings::es_spec().block_month_number@) == Seq::<Seq<char>>::empty(),
        placeholder_keys(crate::strings::fil_spec().block_month_number@) == Seq::<Seq<char>>::empty(),
        placeholder_keys(crate::strings::hi_spec().block_month_number@) == Seq::<Seq<char>>::empty(),
{
    reveal_strlit("Month (number)");
    let c = crate::strings::en_spec().block_month_number@;
    let s_en = c;
    lemma_keys_skip(c, c.len() as int);
    assert(c.subrange(c.len() as int, c.len() as int) =~= Seq::<char>::empty());
    assert(placeholder_keys(s_en) =~= Seq::<Seq<char>>::empty());
    reveal_strlit("Mes (número)");
    let c = crate::strings::es_spec().block_month_number@;
    let s_es = c;
    lemma_keys_skip(c, c.len() as int);
    assert(c.subrange(c.len() as int, c.len() as int) =~= Seq::<char>::empty());
    assert(placeholder_keys(s_es) =~= Seq::<Seq<char>>::empty());
    reveal_strlit("Buwan (numero)");
    let c = crate::strings::fil_spec().block_month_number@;
    let s_fil = c;
    lemma_keys_skip(c, c.len() as int);
    assert(c.subrange(c.len() as int, c.len() as int) =~= Seq::<char>::empty());
    assert(placeholder_keys(s_fil) =~= Seq::<Seq<char>>::empty());
    reveal_strlit("महीना (संख्या)");
    let c = crate::strings::hi_spec().block_month_number@;
    let s_hi = c;
    lemma_keys_skip(c, c.len() as int);
    assert(c.subrange(c.len() as int, c.len() as int) =~= Seq::<char>::empty());
    assert(placeholder_keys(s_hi) =~= Seq::<Seq<char>>::empty());
}

proof fn keys_block_day()
    ensures
        placeholder_keys(crate::strings::en_spec().block_day@) == Seq::<Seq<char>>::empty(),
        placeholder_keys(crate::strings::es_spec().block_day@) == Seq::<Seq<char>>::empty(),
        placeholder_keys(crate::strings::fil_spec().block_day@) == Seq::<Seq<char>>::empty(),
        placeholder_keys(crate::strings::hi_spec().block_day@) == Seq::<Seq<char>>::empty(),
{
    reveal_strlit("Day");
    let c = crate::strings::en_spec().block_day@;
    let s_en = c;
    lemma_keys_skip(c, c.len() as int);
    assert(c.subrange(c.len() as int, c.len() as int) =~= Seq::<char>::empty());
    assert(placeholder_keys(s_en) =~= Seq::<Seq<char>>::empty());
    reveal_strlit("Día");
    let c = crate::strings::es_spec().block_day@;
    let s_es = c;
    lemma_keys_skip(c, c.len() as int);
    assert(c.subrange(c.len() as int, c.len() as int) =~= Seq::<char>::empty());
    assert(placeholder_keys(s_es) =~= Seq::<Seq<char>>::empty());
    reveal_strlit("Araw");
    let c = crate::strings::fil_spec().block_day@;
    let s_fil = c;
    lemma_keys_skip(c, c.len() as int);
    assert(c.subrange(c.len() as int, c.len() as int) =~= Seq::<char>::empty());
    assert(placeholder_keys(s_fil) =~= Seq::<Seq<char>>::empty());
    reveal_strlit("दिन");
    let c = crate::strings::hi_spec().block_day@;
    let s_hi = c;
    lemma_keys_skip(c, c.len() as int);
    assert(c.subrange(c.len() as int, c.len() as int) =~= Seq::<char>::empty());
    assert(placeholder_keys(s_hi) =~= Seq::<Seq<char>>::empty());
}

proof fn keys_block_hour()
    ensures
        placeholder_keys(crate::strings::en_spec().block_hour@) == Seq::<Seq<char>>::empty(),
        placeholder_keys(crate::strings::es_spec().block_hour@) == Seq::<Seq<char>>::empty(),
        placeholder_keys(crate::strings::fil_spec().block_hour@) == Seq::<Seq<char>>::empty(),
        placeholder_keys(crate::strings::hi_spec().block_hour@) == Seq::<Seq<char>>::empty(),
{
    reveal_strlit("Hour (local)");
    let c = crate::strings::en_spec().block_hour@;
    let s_en = c;
    lemma_keys_skip(c, c.len() as int);
    assert(c.subrange(c.len() as int, c.len() as int) =~= Seq::<char>::empty());
    assert(placeholder_keys(s_en) =~= Seq::<Seq<char>>::empty());
    reveal_strlit("Hora (local)");
    let c = crate::strings::es_spec().block_hour@;
    let s_es = c;
    lemma_keys_skip(c, c.len() as int);
    assert(c.subrange(c.len() as int, c.len() as int) =~= Seq::<char>::empty());
    assert(placeholder_keys(s_es) =~= Seq::<Seq<char>>::empty());
    reveal_strlit("Oras (lokal)");
    let c = crate::strings::fil_spec().block_hour@;
    let s_fil = c;
    lemma_keys_skip(c, c.len() as int);
    assert(c.subrange(c.len() as int, c.len() as int) =~= Seq::<char>::empty());
    assert(placeholder_keys(s_fil) =~= Seq::<Seq<char>>::empty());
    reveal_strlit("घंटा (स्थानीय)");
    let c = crate::strings::hi_spec().block_hour@;
    let s_hi = c;
    lemma_keys_skip(c, c.len() as int);
    assert(c.subrange(c.len() as int, c.len() as int) =~= Seq::<char>::empty());
    assert(placeholder_keys(s_hi) =~= Seq::<Seq<char>>::empty());
}

proof fn keys_block_hour_utc()
    ensures
        placeholder_keys(crate::strings::en_spec().block_hour_utc@) == Seq::<Seq<char>>::empty(),
        placeholder_keys(crate::strings::es_spec().block_hour_utc@) == Seq::<Seq<char>>::empty(),
        placeholder_keys(crate::strings::fil_spec().block_hour_utc@) == Seq::<Seq<char>>::empty(),
        placeholder_keys(crate::strings::hi_spec().block_hour_utc@) == Seq::<Seq<char>>::empty(),
{
    reveal_strlit("Hour (UTC)");
    let c = crate::strings::en_spec().block_hour_utc@;
    let s_en = c;
    lemma_keys_skip(c, c.len() as int);
    assert(c.subrange(c.len() as int, c.len() as int) =~= Seq::<char>::empty());
    assert(placeholder_keys(s_en) =~= Seq::<Seq<char>>::empty());
    reveal_strlit("Hora (UTC)");
    let c = crate::strings::es_spec().block_hour_utc@;
    let s_es = c;
    lemma_keys_skip(c, c.len() as int);
    assert(c.subrange(c.len() as int, c.len() as int) =~= Seq::<char>::empty());
    assert(placeholder_keys(s_es) =~= Seq::<Seq<char>>::empty());
    reveal_strlit("Oras (UTC)");
    let c = crate::strings::fil_spec().block_hour_utc@;
    let s_fil = c;
    lemma_keys_skip(c, c.len() as int);
    assert(c.subrange(c.len() as int, c.len() as int) =~= Seq::<char>::empty());
    assert(placeholder_keys(s_fil) =~= Seq::<Seq<char>>::empty());
    reveal_strlit("घंटा (UTC)");
    let c = crate::strings::hi_spec().block_hour_utc@;
    let s_hi = c;
    lemma_keys_skip(c, c.len() as int);
    assert(c.subrange(c.len() as int, c.len() as int) =~= Seq::<char>::empty());
    assert(placeholder_keys(s_hi) =~= Seq::<Seq<char>>::empty());
}

proof fn keys_blocks_utc_note()
    ensures
        placeholder_keys(crate::strings::en_spec().blocks_utc_note@) == Seq::<Seq<char>>::empty(),
        placeholder_keys(crate::strings::es_spec().blocks_utc_note@) == Seq::<Seq<char>>::empty(),
        placeholder_keys(crate::strings::fil_spec().blocks_utc_note@) == Seq::<Seq<char>>::empty(),
        placeholder_keys(crate::strings::hi_spec().blocks_utc_note@) == Seq::<Seq<char>>::empty(),
{
    reveal_strlit("The whole date will be in UTC, not only the hour — that is how a timestamp stays coherent.");
    let c = crate::strings::en_spec().blocks_utc_note@;
    let s_en = c;
    lemma_keys_skip(c, c.len() as int);
    assert(c.subrange(c.len() as int, c.len() as int) =~= Seq::<char>::empty());
    assert(placeholder_keys(s_en) =~= Seq::<Seq<char>>::empty());
    reveal_strlit("Toda la fecha irá en UTC, no solo la hora — así la marca de tiempo es coherente.");
    let c = crate::strings::es_spec().blocks_utc_note@;
    let s_es = c;
    lemma_keys_skip(c, c.len() as int);
    assert(c.subrange(c.len() as int, c.len() as int) =~= Seq::<char>::empty());
    assert(placeholder_keys(s_es) =~= Seq::<Seq<char>>::empty());
    reveal_strlit("Ang buong petsa ay nasa UTC, hindi lang ang oras — ganoon nagiging magkatugma ang timestamp.");
    let c = crate::strings::fil_spec().blocks_utc_note@;
    let s_fil = c;
    lemma_keys_skip(c, c.len() as int);
    assert(c.subrange(c.len() as int, c.len() as int) =~= Seq::<char>::empty());
    assert(placeholder_keys(s_fil) =~= Seq::<Seq<char>>::empty());
    reveal_strlit("पूरी तारीख़ UTC में होगी, सिर्फ़ घंटा नहीं — इसी तरह टाइमस्टैम्प एक जैसा रहता है।");
    let c = crate::strings::hi_spec().blocks_utc_note@;
    let s_hi = c;
    lemma_keys_skip(c, c.len() as int);
    assert(c.subrange(c.len() as int, c.len() as int) =~= Seq::<char>::empty());
    assert(placeholder_keys(s_hi) =~= Seq::<Seq<char>>::empty());
}

proof fn keys_block_minute()
    ensures
        placeholder_keys(crate::strings::en_spec().block_minute@) == Seq::<Seq<char>>::empty(),
        placeholder_keys(crate::strings::es_spec().block_minute@) == Seq::<Seq<char>>::empty(),
        placeholder_keys(crate::strings::fil_spec().block_minute@) == Seq::<Seq<char>>::empty(),
        placeholder_keys(crate::strings::hi_spec().block_minute@) == Seq::<Seq<char>>::empty(),
{
    reveal_strlit("Minutes");
    let c = crate::strings::en_spec().block_minute@;
    let s_en = c;
    lemma_keys_skip(c, c.len() as int);
    assert(c.subrange(c.len() as int, c.len() as int) =~= Seq::<char>::empty());
    assert(placeholder_keys(s_en) =~= Seq::<Seq<char>>::empty());
    reveal_strlit("Minutos");
    let c = crate::strings::es_spec().block_minute@;
    let s_es = c;
    lemma_keys_skip(c, c.len() as int);
    assert(c.subrange(c.len() as int, c.len() as int) =~= Seq::<char>::empty());
    assert(placeholder_keys(s_es) =~= Seq::<Seq<char>>::empty());
    reveal_strlit("Minuto");
    let c = crate::strings::fil_spec().block_minute@;
    let s_fil = c;
    lemma_keys_skip(c, c.len() as int);
    assert(c.subrange(c.len() as int, c.len() as int) =~= Seq::<char>::empty());
    assert(placeholder_keys(s_fil) =~= Seq::<Seq<char>>::empty());
    reveal_strlit("मिनट");
    let c = crate::strings::hi_spec().block_minute@;
    let s_hi = c;
    lemma_keys_skip(c, c.len() as int);
    assert(c.subrange(c.len() as int, c.len() as int) =~= Seq::<char>::empty());
    assert(placeholder_keys(s_hi) =~= Seq::<Seq<char>>::empty());
}

proof fn keys_block_space()
    ensures
        placeholder_keys(crate::strings::en_spec().block_space@) == Seq::<Seq<char>>::empty(),
        placeholder_keys(crate::strings::es_spec().block_space@) == Seq::<Seq<char>>::empty(),
        placeholder_keys(crate::strings::fil_spec().block_space@) == Seq::<Seq<char>>::empty(),
        placeholder_keys(crate::strings::hi_spec().block_space@) == Seq::<Seq<char>>::empty(),
{
    reveal_strlit("space");
    let c = crate::strings::en_spec().block_space@;
    let s_en = c;
    lemma_keys_skip(c, c.len() as int);
    assert(c.subrange(c.len() as int, c.len() as int) =~= Seq::<char>::empty());
    assert(placeholder_keys(s_en) =~= Seq::<Seq<char>>::empty());
    reveal_strlit("espacio");
    let c = crate::strings::es_spec().block_space@;
    let s_es = c;
    lemma_keys_skip(c, c.len() as int);
    assert(c.subrange(c.len() as int, c.len() as int) =~= Seq::<char>::empty());
    assert(placeholder_keys(s_es) =~= Seq::<Seq<char>>::empty());
    reveal_strlit("espasyo");
    let c = crate::strings::fil_spec().block_space@;
    let s_fil = c;
    lemma_keys_skip(c, c.len() as int);
    assert(c.subrange(c.len() as int, c.len() as int) =~= Seq::<char>::empty());
    assert(placeholder_keys(s_fil) =~= Seq::<Seq<char>>::empty());
    reveal_strlit("स्पेस");
    let c = crate::strings::hi_spec().block_space@;
    let s_hi = c;
    lemma_keys_skip(c, c.len() as int);
    assert(c.subrange(c.len() as int, c.len() as int) =~= Seq::<char>::empty());
    assert(placeholder_keys(s_hi) =~= Seq::<Seq<char>>::empty());
}

proof fn keys_format_label()
    ensures
        placeholder_keys(crate::strings::en_spec().format_label@) == Seq::<Seq<char>>::empty(),
        placeholder_keys(crate::strings::es_spec().format_label@) == Seq::<Seq<char>>::empty(),
        placeholder_keys(crate::strings::fil_spec().format_label@) == Seq::<Seq<char>>::empty(),
        placeholder_keys(crate::strings::hi_spec().format_label@) == Seq::<Seq<char>>::empty(),
{
    reveal_strlit("Format (strftime code):");
    let c = crate::strings::en_spec().format_label@;
    let s_en = c;
    lemma_keys_skip(c, c.len() as int);
    assert(c.subrange(c.len() as int, c.len() as int) =~= Seq::<char>::empty());
    assert(placeholder_keys(s_en) =~= Seq::<Seq<char>>::empty());
    reveal_strlit("Formato (código strftime):");
    let c = crate::strings::es_spec().format_label@;
    let s_es = c;
    lemma_keys_skip(c, c.len() as int);
    assert(c.subrange(c.len() as int, c.len() as int) =~= Seq::<char>::empty());
    assert(placeholder_keys(s_es) =~= Seq::<Seq<char>>::empty());
    reveal_strlit("Format (strftime code):");
    let c = crate::strings::fil_spec().format_label@;
    let s_fil = c;
    lemma_keys_skip(c, c.len() as int);
    assert(c.subrange(c.len() as int, c.len() as int) =~= Seq::<char>::empty());
    assert(placeholder_keys(s_fil) =~= Seq::<Seq<char>>::empty());
    reveal_strlit("प्रारूप (strftime कोड):");
    let c = crate::strings::hi_spec().format_label@;
    let s_hi = c;
    lemma_keys_skip(c, c.len() as int);
    assert(c.subrange(c.len() as int, c.len() as int) =~= Seq::<char>::empty());
    assert(placeholder_keys(s_hi) =~= Seq::<Seq<char>>::empty());
}

proof fn keys_folder_optional()
    ensures
        placeholder_keys(crate::strings::en_spec().folder_optional@) == Seq::<Seq<char>>::empty(),
        placeholder_keys(crate::strings::es_spec().folder_optional@) == Seq::<Seq<char>>::empty(),
        placeholder_keys(crate::strings::fil_spec().folder_optional@) == Seq::<Seq<char>>::empty(),
        placeholder_keys(crate::strings::hi_spec().folder_optional@) == Seq::<Seq<char>>::empty(),
{
    reveal_strlit("Folder (optional):");
    let c = crate::strings::en_spec().folder_optional@;
    let s_en = c;
    lemma_keys_skip(c, c.len() as int);
    assert(c.subrange(c.len() as int, c.len() as int) =~= Seq::<char>::empty());
    assert(placeholder_keys(s_en) =~= Seq::<Seq<char>>::empty());
    reveal_strlit("Carpeta (opcional):");
    let c = crate::strings::es_spec().folder_optional@;
    let s_es = c;
    lemma_keys_skip(c, c.len() as int);
    assert(c.subrange(c.len() as int, c.len() as int) =~= Seq::<char>::empty());
    assert(placeholder_keys(s_es) =~= Seq::<Seq<char>>::empty());
    reveal_strlit("Folder (opsyonal):");
    let c = crate::strings::fil_spec().folder_optional@;
    let s_fil = c;
    lemma_keys_skip(c, c.len() as int);
    assert(c.subrange(c.len() as int, c.len() as int) =~= Seq::<char>::empty());
    assert(placeholder_keys(s_fil) =~= Seq::<Seq<char>>::empty());
    reveal_strlit("फ़ोल्डर (वैकल्पिक):");
    let c = crate::strings::hi_spec().folder_optional@;
    let s_hi = c;
    lemma_keys_skip(c, c.len() as int);
    assert(c.subrange(c.len() as int, c.len() as int) =~= Seq::<char>::empty());
    assert(placeholder_keys(s_hi) =~= Seq::<Seq<char>>::empty());
}

proof fn keys_no_folder()
    ensures
        placeholder_keys(crate::strings::en_spec().no_folder@) == Seq::<Seq<char>>::empty(),
        placeholder_keys(crate::strings::es_spec().no_folder@) == Seq::<Seq<char>>::empty(),
        placeholder_keys(crate::strings::fil_spec().no_folder@) == Seq::<Seq<char>>::empty(),
        placeholder_keys(crate::strings::hi_spec().no_folder@) == Seq::<Seq<char>>::empty(),
{
    reveal_strlit("No folder");
    let c = crate::strings::en_spec().no_folder@;
    let s_en = c;
    lemma_keys_skip(c, c.len() as int);
    assert(c.subrange(c.len() as int, c.len() as int) =~= Seq::<char>::empty());
    assert(placeholder_keys(s_en) =~= Seq::<Seq<char>>::empty());
    reveal_strlit("Sin carpeta");
    let c = crate::strings::es_spec().no_folder@;
    let s_es = c;
    lemma_keys_skip(c, c.len() as int);
    assert(c.subrange(c.len() as int, c.len() as int) =~= Seq::<char>::empty());
    assert(placeholder_keys(s_es) =~= Seq::<Seq<char>>::empty());
    reveal_strlit("Walang folder");
    let c = crate::strings::fil_spec().no_folder@;
    let s_fil = c;
    lemma_keys_skip(c, c.len() as int);
    assert(c.subrange(c.len() as int, c.len() as int) =~= Seq::<char>::empty());
    assert(placeholder_keys(s_fil) =~= Seq::<Seq<char>>::empty());
    reveal_strlit("कोई फ़ोल्डर नहीं");
    let c = crate::strings::hi_spec().no_folder@;
    let s_hi = c;
    lemma_keys_skip(c, c.len() as int);
    assert(c.subrange(c.len() as int, c.len() as int) =~= Seq::<char>::empty());
    assert(placeholder_keys(s_hi) =~= Seq::<Seq<char>>::empty());
}

proof fn keys_new_folder_placeholder()
    ensures
        placeholder_keys(crate::strings::en_spec().new_folder_placeholder@) == Seq::<Seq<char>>::empty(),
        placeholder_keys(crate::strings::es_spec().new_folder_placeholder@) == Seq::<Seq<char>>::empty(),
        placeholder_keys(crate::strings::fil_spec().new_folder_placeholder@) == Seq::<Seq<char>>::empty(),
        placeholder_keys(crate::strings::hi_spec().new_folder_placeholder@) == Seq::<Seq<char>>::empty(),
{
    reveal_strlit("New folder…");
    let c = crate::strings::en_spec().new_folder_placeholder@;
    let s_en = c;
    lemma_keys_skip(c, c.len() as int);
    assert(c.subrange(c.len() as int, c.len() as int) =~= Seq::<char>::empty());
    assert(placeholder_keys(s_en) =~= Seq::<Seq<char>>::empty());
    reveal_strlit("Nueva carpeta…");
    let c = crate::strings::es_spec().new_folder_placeholder@;
    let s_es = c;
    lemma_keys_skip(c, c.len() as int);
    assert(c.subrange(c.len() as int, c.len() as int) =~= Seq::<char>::empty());
    assert(placeholder_keys(s_es) =~= Seq::<Seq<char>>::empty());
    reveal_strlit("Bagong folder…");
    let c = crate::strings::fil_spec().new_folder_placeholder@;
    let s_fil = c;
    lemma_keys_skip(c, c.len() as int);
    assert(c.subrange(c.len() as int, c.len() as int) =~= Seq::<char>::empty());
    assert(placeholder_keys(s_fil) =~= Seq::<Seq<char>>::empty());
    reveal_strlit("नया फ़ोल्डर…");
    let c = crate::strings::hi_spec().new_folder_placeholder@;
    let s_hi = c;
    lemma_keys_skip(c, c.len() as int);
    assert(c.subrange(c.len() as int, c.len() as int) =~= Seq::<char>::empty());
    assert(placeholder_keys(s_hi) =~= Seq::<Seq<char>>::empty());
}

proof fn keys_add_new_folder()
    ensures
        placeholder_keys(crate::strings::en_spec().add_new_folder@) == Seq::<Seq<char>>::empty(),
        placeholder_keys(crate::strings::es_spec().add_new_folder@) == Seq::<Seq<char>>::empty(),
        placeholder_keys(crate::strings::fil_spec().add_new_folder@) == Seq::<Seq<char>>::empty(),
        placeholder_keys(crate::strings::hi_spec().add_new_folder@) == Seq::<Seq<char>>::empty(),
{
    reveal_strlit("+ New folder…");
    let c = crate::strings::en_spec().add_new_folder@;
    let s_en = c;
    lemma_keys_skip(c, c.len() as int);
    assert(c.subrange(c.len() as int, c.len() as int) =~= Seq::<char>::empty());
    assert(placeholder_keys(s_en) =~= Seq::<Seq<char>>::empty());
    reveal_strlit("+ Nueva carpeta…");
    let c = crate::strings::es_spec().add_new_folder@;
    let s_es = c;
    lemma_keys_skip(c, c.len() as int);
    assert(c.subrange(c.len() as int, c.len() as int) =~= Seq::<char>::empty());
    assert(placeholder_keys(s_es) =~= Seq::<Seq<char>>::empty());
    reveal_strlit("+ Bagong folder…");
    let c = crate::strings::fil_spec().add_new_folder@;
    let s_fil = c;
    lemma_keys_skip(c, c.len() as int);
    assert(c.subrange(c.len() as int, c.len() as int) =~= Seq::<char>::empty());
    assert(placeholder_keys(s_fil) =~= Seq::<Seq<char>>::empty());
    reveal_strlit("+ नया फ़ोल्डर…");
    let c = crate::strings::hi_spec().add_new_folder@;
    let s_hi = c;
    lemma_keys_skip(c, c.len() as int);
    assert(c.subrange(c.len() as int, c.len() as int) =~= Seq::<char>::empty());
    assert(placeholder_keys(s_hi) =~= Seq::<Seq<char>>::empty());
}

proof fn keys_name_label()
    ensures
        placeholder_keys(crate::strings::en_spec().name_label@) == Seq::<Seq<char>>::empty(),
        placeholder_keys(crate::strings::es_spec().name_label@) == Seq::<Seq<char>>::empty(),
        placeholder_keys(crate::strings::fil_spec().name_label@) == Seq::<Seq<char>>::empty(),
        placeholder_keys(crate::strings::hi_spec().name_label@) == Seq::<Seq<char>>::empty(),
{
    reveal_strlit("Name:");
    let c = crate::strings::en_spec().name_label@;
    let s_en = c;
    lemma_keys_skip(c, c.len() as int);
    assert(c.subrange(c.len() as int, c.len() as int) =~= Seq::<char>::empty());
    assert(placeholder_keys(s_en) =~= Seq::<Seq<char>>::empty());
    reveal_strlit("Nombre:");
    let c = crate::strings::es_spec().name_label@;
    let s_es = c;
    lemma_keys_skip(c, c.len() as int);
    assert(c.subrange(c.len() as int, c.len() as int) =~= Seq::<char>::empty());
    assert(placeholder_keys(s_es) =~= Seq::<Seq<char>>::empty());
    reveal_strlit("Pangalan:");
    let c = crate::strings::fil_spec().name_label@;
    let s_fil = c;
    lemma_keys_skip(c, c.len() as int);
    assert(c.subrange(c.len() as int, c.len() as int) =~= Seq::<char>::empty());
    assert(placeholder_keys(s_fil) =~= Seq::<Seq<char>>::empty());
    reveal_strlit("नाम:");
    let c = crate::strings::hi_spec().name_label@;
    let s_hi = c;
    lemma_keys_skip(c, c.len() as int);
    assert(c.subrange(c.len() as int, c.len() as int) =~= Seq::<char>::empty());
    assert(placeholder_keys(s_hi) =~= Seq::<Seq<char>>::empty());
}

proof fn keys_save()
    ensures
        placeholder_keys(crate::strings::en_spec().save@) == Seq::<Seq<char>>::empty(),
        placeholder_keys(crate::strings::es_spec().save@) == Seq::<Seq<char>>::empty(),
        placeholder_keys(crate::strings::fil_spec().save@) == Seq::<Seq<char>>::empty(),
        placeholder_keys(crate::strings::hi_spec().save@) == Seq::<Seq<char>>::empty(),
{
    reveal_strlit("Save");
    let c = crate::strings::en_spec().save@;
    let s_en = c;
    lemma_keys_skip(c, c.len() as int);
    assert(c.subrange(c.len() as int, c.len() as int) =~= Seq::<char>::empty());
    assert(placeholder_keys(s_en) =~= Seq::<Seq<char>>::empty());
    reveal_strlit("Guardar");
    let c = crate::strings::es_spec().save@;
    let s_es = c;
    lemma_keys_skip(c, c.len() as int);
    assert(c.subrange(c.len() as int, c.len() as int) =~= Seq::<char>::empty());
    assert(placeholder_keys(s_es) =~= Seq::<Seq<char>>::empty());
    reveal_strlit("I-save");
    let c = crate::strings::fil_spec().save@;
    let s_fil = c;
    lemma_keys_skip(c, c.len() as int);
    assert(c.subrange(c.len() as int, c.len() as int) =~= Seq::<char>::empty());
    assert(placeholder_keys(s_fil) =~= Seq::<Seq<char>>::empty());
    reveal_strlit("सहेजें");
    let c = crate::strings::hi_spec().save@;
    let s_hi = c;
    lemma_keys_skip(c, c.len() as int);
    assert(c.subrange(c.len() as int, c.len() as int) =~= Seq::<char>::empty());
    assert(placeholder_keys(s_hi) =~= Seq::<Seq<char>>::empty());
}

proof fn keys_back()
    ensures
        placeholder_keys(crate::strings::en_spec().back@) == Seq::<Seq<char>>::empty(),
        placeholder_keys(crate::strings::es_spec().back@) == Seq::<Seq<char>>::empty(),
        placeholder_keys(crate::strings::fil_spec().back@) == Seq::<Seq<char>>::empty(),
        placeholder_keys(crate::strings::hi_spec().back@) == Seq::<Seq<char>>::empty(),
{
    reveal_strlit("Back");
    let c = crate::strings::en_spec().back@;
    let s_en = c;
    lemma_keys_skip(c, c.len() as int);
    assert(c.subrange(c.len() as int, c.len() as int) =~= Seq::<char>::empty());
    assert(placeholder_keys(s_en) =~= Seq::<Seq<char>>::empty());
    reveal_strlit("Volver");
    let c = crate::strings::es_spec().back@;
    let s_es = c;
    lemma_keys_skip(c, c.len() as int);
    assert(c.subrange(c.len() as int, c.len() as int) =~= Seq::<char>::empty());
    assert(placeholder_keys(s_es) =~= Seq::<Seq<char>>::empty());
    reveal_strlit("Bumalik");
    let c = crate::strings::fil_spec().back@;
    let s_fil = c;
    lemma_keys_skip(c, c.len() as int);
    assert(c.subrange(c.len() as int, c.len() as int) =~= Seq::<char>::empty());
    assert(placeholder_keys(s_fil) =~= Seq::<Seq<char>>::empty());
    reveal_strlit("वापस");
    let c = crate::strings::hi_spec().back@;
    let s_hi = c;
    lemma_keys_skip(c, c.len() as int);
    assert(c.subrange(c.len() as int, c.len() as int) =~= Seq::<char>::empty());
    assert(placeholder_keys(s_hi) =~= Seq::<Seq<char>>::empty());
}

proof fn keys_settings_title()
    ensures
        placeholder_keys(crate::strings::en_spec().settings_title@) == Seq::<Seq<char>>::empty(),
        placeholder_keys(crate::strings::es_spec().settings_title@) == Seq::<Seq<char>>::empty(),
        placeholder_keys(crate::strings::fil_spec().settings_title@) == Seq::<Seq<char>>::empty(),
        placeholder_keys(crate::strings::hi_spec().settings_title@) == Seq::<Seq<char>>::empty(),
{
    reveal_strlit("Settings");
    let c = crate::strings::en_spec().settings_title@;
    let s_en = c;
    lemma_keys_skip(c, c.len() as int);
    assert(c.subrange(c.len() as int, c.len() as int) =~= Seq::<char>::empty());
    assert(placeholder_keys(s_en) =~= Seq::<Seq<char>>::empty());
    reveal_strlit("Ajustes");
    let c = crate::strings::es_spec().settings_title@;
    let s_es = c;
    lemma_keys_skip(c, c.len() as int);
    assert(c.subrange(c.len() as int, c.len() as int) =~= Seq::<char>::empty());
    assert(placeholder_keys(s_es) =~= Seq::<Seq<char>>::empty());
    reveal_strlit("Mga setting");
    let c = crate::strings::fil_spec().settings_title@;
    let s_fil = c;
    lemma_keys_skip(c, c.len() as int);
    assert(c.subrange(c.len() as int, c.len() as int) =~= Seq::<char>::empty());
    assert(placeholder_keys(s_fil) =~= Seq::<Seq<char>>::empty());
    reveal_strlit("सेटिंग्स");
    let c = crate::strings::hi_spec().settings_title@;
    let s_hi = c;
    lemma_keys_skip(c, c.len() as int);
    assert(c.subrange(c.len() as int, c.len() as int) =~= Seq::<char>::empty());
    assert(placeholder_keys(s_hi) =~= Seq::<Seq<char>>::empty());
}

proof fn keys_autostart_section()
    ensures
        placeholder_keys(crate::strings::en_spec().autostart_section@) == Seq::<Seq<char>>::empty(),
        placeholder_keys(crate::strings::es_spec().autostart_section@) == Seq::<Seq<char>>::empty(),
        placeholder_keys(crate::strings::fil_spec().autostart_section@) == Seq::<Seq<char>>::empty(),
        placeholder_keys(crate::strings::hi_spec().autostart_section@) == Seq::<Seq<char>>::empty(),
{
    reveal_strlit("Start automatically");
    let c = crate::strings::en_spec().autostart_section@;
    let s_en = c;
    lemma_keys_skip(c, c.len() as int);
    assert(c.subrange(c.len() as int, c.len() as int) =~= Seq::<char>::empty());
    assert(placeholder_keys(s_en) =~= Seq::<Seq<char>>::empty());
    reveal_strlit("Inicio automático");
    let c = crate::strings::es_spec().autostart_section@;
    let s_es = c;
    lemma_keys_skip(c, c.len() as int);
    assert(c.subrange(c.len() as int, c.len() as int) =~= Seq::<char>::empty());
    assert(placeholder_keys(s_es) =~= Seq::<Seq<char>>::empty());
    reveal_strlit("Awtomatikong pagsisimula");
    let c = crate::strings::fil_spec().autostart_section@;
    let s_fil = c;
    lemma_keys_skip(c, c.len() as int);
    assert(c.subrange(c.len() as int, c.len() as int) =~= Seq::<char>::empty());
    assert(placeholder_keys(s_fil) =~= Seq::<Seq<char>>::empty());
    reveal_strlit("स्वचालित शुरुआत");
    let c = crate::strings::hi_spec().autostart_section@;
    let s_hi = c;
    lemma_keys_skip(c, c.len() as int);
    assert(c.subrange(c.len() as int, c.len() as int) =~= Seq::<char>::empty());
    assert(placeholder_keys(s_hi) =~= Seq::<Seq<char>>::empty());
}

proof fn keys_autostart_checkbox()
    ensures
        placeholder_keys(crate::strings::en_spec().autostart_checkbox@) == Seq::<Seq<char>>::empty(),
        placeholder_keys(crate::strings::es_spec().autostart_checkbox@) == Seq::<Seq<char>>::empty(),
        placeholder_keys(crate::strings::fil_spec().autostart_checkbox@) == Seq::<Seq<char>>::empty(),
        placeholder_keys(crate::strings::hi_spec().autostart_checkbox@) == Seq::<Seq<char>>::empty(),
{
    reveal_strlit("Start EspansoManager (and Espanso) with Windows");
    let c = crate::strings::en_spec().autostart_checkbox@;
    let s_en = c;
    lemma_keys_skip(c, c.len() as int);
    assert(c.subrange(c.len() as int, c.len() as int) =~= Seq::<char>::empty());
    assert(placeholder_keys(s_en) =~= Seq::<Seq<char>>::empty());
    reveal_strlit("Iniciar EspansoManager (y Espanso) con Windows");
    let c = crate::strings::es_spec().autostart_checkbox@;
    let s_es = c;
    lemma_keys_skip(c, c.len() as int);
    assert(c.subrange(c.len() as int, c.len() as int) =~= Seq::<char>::empty());
    assert(placeholder_keys(s_es) =~= Seq::<Seq<char>>::empty());
    reveal_strlit("Simulan ang EspansoManager (at Espanso) kasama ng Windows");
    let c = crate::strings::fil_spec().autostart_checkbox@;
    let s_fil = c;
    lemma_keys_skip(c, c.len() as int);
    assert(c.subrange(c.len() as int, c.len() as int) =~= Seq::<char>::empty());
    assert(placeholder_keys(s_fil) =~= Seq::<Seq<char>>::empty());
    reveal_strlit("Windows के साथ EspansoManager (और Espanso) शुरू करें");
    let c = crate::strings::hi_spec().autostart_checkbox@;
    let s_hi = c;
    lemma_keys_skip(c, c.len() as int);
    assert(c.subrange(c.len() as int, c.len() as int) =~= Seq::<char>::empty());
    assert(placeholder_keys(s_hi) =~= Seq::<Seq<char>>::empty());
}

proof fn keys_autostart_hint()
    ensures
        placeholder_keys(crate::strings::en_spec().autostart_hint@) == Seq::<Seq<char>>::empty(),
        placeholder_keys(crate::strings::es_spec().autostart_hint@) == Seq::<Seq<char>>::empty(),
        placeholder_keys(crate::strings::fil_spec().autostart_hint@) == Seq::<Seq<char>>::empty(),
        placeholder_keys(crate::strings::hi_spec().autostart_hint@) == Seq::<Seq<char>>::empty(),
{
    reveal_strlit("It will run in the background, in the system tray.");
    let c = crate::strings::en_spec().autostart_hint@;
    let s_en = c;
    lemma_keys_skip(c, c.len() as int);
    assert(c.subrange(c.len() as int, c.len() as int) =~= Seq::<char>::empty());
    assert(placeholder_keys(s_en) =~= Seq::<Seq<char>>::empty());
    reveal_strlit("Se ejecutará en segundo plano, en la bandeja del sistema.");
    let c = crate::strings::es_spec().autostart_hint@;
    let s_es = c;
    lemma_keys_skip(c, c.len() as int);
    assert(c.subrange(c.len() as int, c.len() as int) =~= Seq::<char>::empty());
    assert(placeholder_keys(s_es) =~= Seq::<Seq<char>>::empty());
    reveal_strlit("Tatakbo ito sa background, sa system tray.");
    let c = crate::strings::fil_spec().autostart_hint@;
    let s_fil = c;
    lemma_keys_skip(c, c.len() as int);
    assert(c.subrange(c.len() as int, c.len() as int) =~= Seq::<char>::empty());
    assert(placeholder_keys(s_fil) =~= Seq::<Seq<char>>::empty());
    reveal_strlit("यह पृष्ठभूमि में, सिस्टम ट्रे में चलेगा।");
    let c = crate::strings::hi_spec().autostart_hint@;
    let s_hi = c;
    lemma_keys_skip(c, c.len() as int);
    assert(c.subrange(c.len() as int, c.len() as int) =~= Seq::<char>::empty());
    assert(placeholder_keys(s_hi) =~= Seq::<Seq<char>>::empty());
}

proof fn keys_appearance_section()
    ensures
        placeholder_keys(crate::strings::en_spec().appearance_section@) == Seq::<Seq<char>>::empty(),
        placeholder_keys(crate::strings::es_spec().appearance_section@) == Seq::<Seq<char>>::empty(),
        placeholder_keys(crate::strings::fil_spec().appearance_section@) == Seq::<Seq<char>>::empty(),
        placeholder_keys(crate::strings::hi_spec().appearance_section@) == Seq::<Seq<char>>::empty(),
{
    reveal_strlit("Appearance");
    let c = crate::strings::en_spec().appearance_section@;
    let s_en = c;
    lemma_keys_skip(c, c.len() as int);
    assert(c.subrange(c.len() as int, c.len() as int) =~= Seq::<char>::empty());
    assert(placeholder_keys(s_en) =~= Seq::<Seq<char>>::empty());
    reveal_strlit("Apariencia");
    let c = crate::strings::es_spec().appearance_section@;
    let s_es = c;
    lemma_keys_skip(c, c.len() as int);
    assert(c.subrange(c.len() as int, c.len() as int) =~= Seq::<char>::empty());
    assert(placeholder_keys(s_es) =~= Seq::<Seq<char>>::empty());
    reveal_strlit("Hitsura");
    let c = crate::strings::fil_spec().appearance_section@;
    let s_fil = c;
    lemma_keys_skip(c, c.len() as int);
    assert(c.subrange(c.len() as int, c.len() as int) =~= Seq::<char>::empty());
    assert(placeholder_keys(s_fil) =~= Seq::<Seq<char>>::empty());
    reveal_strlit("रूप");
    let c = crate::strings::hi_spec().appearance_section@;
    let s_hi = c;
    lemma_keys_skip(c, c.len() as int);
    assert(c.subrange(c.len() as int, c.len() as int) =~= Seq::<char>::empty());
    assert(placeholder_keys(s_hi) =~= Seq::<Seq<char>>::empty());
}

proof fn keys_theme_system()
    ensures
        placeholder_keys(crate::strings::en_spec().theme_system@) == Seq::<Seq<char>>::empty(),
        placeholder_keys(crate::strings::es_spec().theme_system@) == Seq::<Seq<char>>::empty(),
        placeholder_keys(crate::strings::fil_spec().theme_system@) == Seq::<Seq<char>>::empty(),
        placeholder_keys(crate::strings::hi_spec().theme_system@) == Seq::<Seq<char>>::empty(),
{
    reveal_strlit("System");
    let c = crate::strings::en_spec().theme_system@;
    let s_en = c;
    lemma_keys_skip(c, c.len() as int);
    assert(c.subrange(c.len() as int, c.len() as int) =~= Seq::<char>::empty());
    assert(placeholder_keys(s_en) =~= Seq::<Seq<char>>::empty());
    reveal_strlit("Sistema");
    let c = crate::strings::es_spec().theme_system@;
    let s_es = c;
    lemma_keys_skip(c, c.len() as int);
    assert(c.subrange(c.len() as int, c.len() as int) =~= Seq::<char>::empty());
    assert(placeholder_keys(s_es) =~= Seq::<Seq<char>>::empty());
    reveal_strlit("Sistema");
    let c = crate::strings::fil_spec().theme_system@;
    let s_fil = c;
    lemma_keys_skip(c, c.len() as int);
    assert(c.subrange(c.len() as int, c.len() as int) =~= Seq::<char>::empty());
    assert(placeholder_keys(s_fil) =~= Seq::<Seq<char>>::empty());
    reveal_strlit("सिस्टम");
    let c = crate::strings::hi_spec().theme_system@;
    let s_hi = c;
    lemma_keys_skip(c, c.len() as int);
    assert(c.subrange(c.len() as int, c.len() as int) =~= Seq::<char>::empty());
    assert(placeholder_keys(s_hi) =~= Seq::<Seq<char>>::empty());
}

proof fn keys_theme_light()
    ensures
        placeholder_keys(crate::strings::en_spec().theme_light@) == Seq::<Seq<char>>::empty(),
        placeholder_keys(crate::strings::es_spec().theme_light@) == Seq::<Seq<char>>::empty(),
        placeholder_keys(crate::strings::fil_spec().theme_light@) == Seq::<Seq<char>>::empty(),
        placeholder_keys(crate::strings::hi_spec().theme_light@) == Seq::<Seq<char>>::empty(),
{
    reveal_strlit("Light theme");
    let c = crate::strings::en_spec().theme_light@;
    let s_en = c;
    lemma_keys_skip(c, c.len() as int);
    assert(c.subrange(c.len() as int, c.len() as int) =~= Seq::<char>::empty());
    assert(placeholder_keys(s_en) =~= Seq::<Seq<char>>::empty());
    reveal_strlit("Tema claro");
    let c = crate::strings::es_spec().theme_light@;
    let s_es = c;
    lemma_keys_skip(c, c.len() as int);
    assert(c.subrange(c.len() as int, c.len() as int) =~= Seq::<char>::empty());
    assert(placeholder_keys(s_es) =~= Seq::<Seq<char>>::empty());
    reveal_strlit("Maliwanag na tema");
    let c = crate::strings::fil_spec().theme_light@;
    let s_fil = c;
    lemma_keys_skip(c, c.len() as int);
    assert(c.subrange(c.len() as int, c.len() as int) =~= Seq::<char>::empty());
    assert(placeholder_keys(s_fil) =~= Seq::<Seq<char>>::empty());
    reveal_strlit("हल्की थीम");
    let c = crate::strings::hi_spec().theme_light@;
    let s_hi = c;
    lemma_keys_skip(c, c.len() as int);
    assert(c.subrange(c.len() as int, c.len() as int) =~= Seq::<char>::empty());
    assert(placeholder_keys(s_hi) =~= Seq::<Seq<char>>::empty());
}

proof fn keys_theme_dark()
    ensures
        placeholder_keys(crate::strings::en_spec().theme_dark@) == Seq::<Seq<char>>::empty(),
        placeholder_keys(crate::strings::es_spec().theme_dark@) == Seq::<Seq<char>>::empty(),
        placeholder_keys(crate::strings::fil_spec().theme_dark@) == Seq::<Seq<char>>::empty(),
        placeholder_keys(crate::strings::hi_spec().theme_dark@) == Seq::<Seq<char>>::empty(),
{
    reveal_strlit("Dark theme");
    let c = crate::strings::en_spec().theme_dark@;
    let s_en = c;
    lemma_keys_skip(c, c.len() as int);
    assert(c.subrange(c.len() as int, c.len() as int) =~= Seq::<char>::empty());
    assert(placeholder_keys(s_en) =~= Seq::<Seq<char>>::empty());
    reveal_strlit("Tema oscuro");
    let c = crate::strings::es_spec().theme_dark@;
    let s_es = c;
    lemma_keys_skip(c, c.len() as int);
    assert(c.subrange(c.len() as int, c.len() as int) =~= Seq::<char>::empty());
    assert(placeholder_keys(s_es) =~= Seq::<Seq<char>>::empty());
    reveal_strlit("Madilim na tema");
    let c = crate::strings::fil_spec().theme_dark@;
    let s_fil = c;
    lemma_keys_skip(c, c.len() as int);
    assert(c.subrange(c.len() as int, c.len() as int) =~= Seq::<char>::empty());
    assert(placeholder_keys(s_fil) =~= Seq::<Seq<char>>::empty());
    reveal_strlit("गहरी थीम");
    let c = crate::strings::hi_spec().theme_dark@;
    let s_hi = c;
    lemma_keys_skip(c, c.len() as int);
    assert(c.subrange(c.len() as int, c.len() as int) =~= Seq::<char>::empty());
    assert(placeholder_keys(s_hi) =~= Seq::<Seq<char>>::empty());
}

proof fn keys_theme_hint()
    ensures
        placeholder_keys(crate::strings::en_spec().theme_hint@) == Seq::<Seq<char>>::empty(),
        placeholder_keys(crate::strings::es_spec().theme_hint@) == Seq::<Seq<char>>::empty(),
        placeholder_keys(crate::strings::fil_spec().theme_hint@) == Seq::<Seq<char>>::empty(),
        placeholder_keys(crate::strings::hi_spec().theme_hint@) == Seq::<Seq<char>>::empty(),
{
    reveal_strlit("\"System\" follows your Windows light/dark setting.");
    let c = crate::strings::en_spec().theme_hint@;
    let s_en = c;
    lemma_keys_skip(c, c.len() as int);
    assert(c.subrange(c.len() as int, c.len() as int) =~= Seq::<char>::empty());
    assert(placeholder_keys(s_en) =~= Seq::<Seq<char>>::empty());
    reveal_strlit("\"Sistema\" sigue la configuración de claro/oscuro de Windows.");
    let c = crate::strings::es_spec().theme_hint@;
    let s_es = c;
    lemma_keys_skip(c, c.len() as int);
    assert(c.subrange(c.len() as int, c.len() as int) =~= Seq::<char>::empty());
    assert(placeholder_keys(s_es) =~= Seq::<Seq<char>>::empty());
    reveal_strlit("Ang \"Sistema\" ay sumusunod sa setting ng Windows na maliwanag/madilim.");
    let c = crate::strings::fil_spec().theme_hint@;
    let s_fil = c;
    lemma_keys_skip(c, c.len() as int);
    assert(c.subrange(c.len() as int, c.len() as int) =~= Seq::<char>::empty());
    assert(placeholder_keys(s_fil) =~= Seq::<Seq<char>>::empty());
    reveal_strlit("\"सिस्टम\" आपकी Windows की हल्की/गहरी सेटिंग का अनुसरण करता है।");
    let c = crate::strings::hi_spec().theme_hint@;
    let s_hi = c;
    lemma_keys_skip(c, c.len() as int);
    assert(c.subrange(c.len() as int, c.len() as int) =~= Seq::<char>::empty());
    assert(placeholder_keys(s_hi) =~= Seq::<Seq<char>>::empty());
}

proof fn keys_language_section()
    ensures
        placeholder_keys(crate::strings::en_spec().language_section@) == Seq::<Seq<char>>::empty(),
        placeholder_keys(crate::strings::es_spec().language_section@) == Seq::<Seq<char>>::empty(),
        placeholder_keys(crate::strings::fil_spec().language_section@) == Seq::<Seq<char>>::empty(),
        placeholder_keys(crate::strings::hi_spec().language_section@) == Seq::<Seq<char>>::empty(),
{
    reveal_strlit("Language");
    let c = crate::strings::en_spec().language_section@;
    let s_en = c;
    lemma_keys_skip(c, c.len() as int);
    assert(c.subrange(c.len() as int, c.len() as int) =~= Seq::<char>::empty());
    assert(placeholder_keys(s_en) =~= Seq::<Seq<char>>::empty());
    reveal_strlit("Idioma");
    let c = crate::strings::es_spec().language_section@;
    let s_es = c;
    lemma_keys_skip(c, c.len() as int);
    assert(c.subrange(c.len() as int, c.len() as int) =~= Seq::<char>::empty());
    assert(placeholder_keys(s_es) =~= Seq::<Seq<char>>::empty());
    reveal_strlit("Wika");
    let c = crate::strings::fil_spec().language_section@;
    let s_fil = c;
    lemma_keys_skip(c, c.len() as int);
    assert(c.subrange(c.len() as int, c.len() as int) =~= Seq::<char>::empty());
    assert(placeholder_keys(s_fil) =~= Seq::<Seq<char>>::empty());
    reveal_strlit("भाषा");
    let c = crate::strings::hi_spec().language_section@;
    let s_hi = c;
    lemma_keys_skip(c, c.len() as int);
    assert(c.subrange(c.len() as int, c.len() as int) =~= Seq::<char>::empty());
    assert(placeholder_keys(s_hi) =~= Seq::<Seq<char>>::empty());
}

proof fn keys_language_hint()
    ensures
        placeholder_keys(crate::strings::en_spec().language_hint@) == Seq::<Seq<char>>::empty(),
        placeholder_keys(crate::strings::es_spec().language_hint@) == Seq::<Seq<char>>::empty(),
        placeholder_keys(crate::strings::fil_spec().language_hint@) == Seq::<Seq<char>>::empty(),
        placeholder_keys(crate::strings::hi_spec().language_hint@) == Seq::<Seq<char>>::empty(),
{
    reveal_strlit("Changes the language of this window only, not your expansions.");
    let c = crate::strings::en_spec().language_hint@;
    let s_en = c;
    lemma_keys_skip(c, c.len() as int);
    assert(c.subrange(c.len() as int, c.len() as int) =~= Seq::<char>::empty());
    assert(placeholder_keys(s_en) =~= Seq::<Seq<char>>::empty());
    reveal_strlit("Cambia el idioma de esta ventana solamente, no el de tus expansiones.");
    let c = crate::strings::es_spec().language_hint@;
    let s_es = c;
    lemma_keys_skip(c, c.len() as int);
    assert(c.subrange(c.len() as int, c.len() as int) =~= Seq::<char>::empty());
    assert(placeholder_keys(s_es) =~= Seq::<Seq<char>>::empty());
    reveal_strlit("Binabago lamang nito ang wika ng window na ito, hindi ang iyong mga expansion.");
    let c = crate::strings::fil_spec().language_hint@;
    let s_fil = c;
    lemma_keys_skip(c, c.len() as int);
    assert(c.subrange(c.len() as int, c.len() as int) =~= Seq::<char>::empty());
    assert(placeholder_keys(s_fil) =~= Seq::<Seq<char>>::empty());
    reveal_strlit("यह केवल इस विंडो की भाषा बदलता है, आपके विस्तारों की नहीं।");
    let c = crate::strings::hi_spec().language_hint@;
    let s_hi = c;
    lemma_keys_skip(c, c.len() as int);
    assert(c.subrange(c.len() as int, c.len() as int) =~= Seq::<char>::empty());
    assert(placeholder_keys(s_hi) =~= Seq::<Seq<char>>::empty());
}

proof fn keys_transfer_section()
    ensures
        placeholder_keys(crate::strings::en_spec().transfer_section@) == Seq::<Seq<char>>::empty(),
        placeholder_keys(crate::strings::es_spec().transfer_section@) == Seq::<Seq<char>>::empty(),
        placeholder_keys(crate::strings::fil_spec().transfer_section@) == Seq::<Seq<char>>::empty(),
        placeholder_keys(crate::strings::hi_spec().transfer_section@) == Seq::<Seq<char>>::empty(),
{
    reveal_strlit("Export and import");
    let c = crate::strings::en_spec().transfer_section@;
    let s_en = c;
    lemma_keys_skip(c, c.len() as int);
    assert(c.subrange(c.len() as int, c.len() as int) =~= Seq::<char>::empty());
    assert(placeholder_keys(s_en) =~= Seq::<Seq<char>>::empty());
    reveal_strlit("Exportar e importar");
    let c = crate::strings::es_spec().transfer_section@;
    let s_es = c;
    lemma_keys_skip(c, c.len() as int);
    assert(c.subrange(c.len() as int, c.len() as int) =~= Seq::<char>::empty());
    assert(placeholder_keys(s_es) =~= Seq::<Seq<char>>::empty());
    reveal_strlit("I-export at i-import");
    let c = crate::strings::fil_spec().transfer_section@;
    let s_fil = c;
    lemma_keys_skip(c, c.len() as int);
    assert(c.subrange(c.len() as int, c.len() as int) =~= Seq::<char>::empty());
    assert(placeholder_keys(s_fil) =~= Seq::<Seq<char>>::empty());
    reveal_strlit("निर्यात और आयात");
    let c = crate::strings::hi_spec().transfer_section@;
    let s_hi = c;
    lemma_keys_skip(c, c.len() as int);
    assert(c.subrange(c.len() as int, c.len() as int) =~= Seq::<char>::empty());
    assert(placeholder_keys(s_hi) =~= Seq::<Seq<char>>::empty());
}

proof fn keys_transfer_hint()
    ensures
        placeholder_keys(crate::strings::en_spec().transfer_hint@) == Seq::<Seq<char>>::empty(),
        placeholder_keys(crate::strings::es_spec().transfer_hint@) == Seq::<Seq<char>>::empty(),
        placeholder_keys(crate::strings::fil_spec().transfer_hint@) == Seq::<Seq<char>>::empty(),
        placeholder_keys(crate::strings::hi_spec().transfer_hint@) == Seq::<Seq<char>>::empty(),
{
    reveal_strlit("Send your expansions to a colleague, or add theirs to yours. Importing only adds — nothing you already have is replaced.");
    let c = crate::strings::en_spec().transfer_hint@;
    let s_en = c;
    lemma_keys_skip(c, c.len() as int);
    assert(c.subrange(c.len() as int, c.len() as int) =~= Seq::<char>::empty());
    assert(placeholder_keys(s_en) =~= Seq::<Seq<char>>::empty());
    reveal_strlit("Envía tus expansiones a un compañero, o añade las suyas a las tuyas. Importar solo añade: nada de lo que ya tienes se reemplaza.");
    let c = crate::strings::es_spec().transfer_hint@;
    let s_es = c;
    lemma_keys_skip(c, c.len() as int);
    assert(c.subrange(c.len() as int, c.len() as int) =~= Seq::<char>::empty());
    assert(placeholder_keys(s_es) =~= Seq::<Seq<char>>::empty());
    reveal_strlit("Ipadala ang iyong mga expansion sa isang katrabaho, o idagdag ang sa kanila sa iyo. Ang pag-import ay nagdaragdag lamang: walang pinapalitan sa mayroon ka na.");
    let c = crate::strings::fil_spec().transfer_hint@;
    let s_fil = c;
    lemma_keys_skip(c, c.len() as int);
    assert(c.subrange(c.len() as int, c.len() as int) =~= Seq::<char>::empty());
    assert(placeholder_keys(s_fil) =~= Seq::<Seq<char>>::empty());
    reveal_strlit("अपने विस्तार किसी सहकर्मी को भेजें, या उनके विस्तार अपने में जोड़ें। आयात केवल जोड़ता है: आपके पास जो पहले से है, वह नहीं बदला जाता।");
    let c = crate::strings::hi_spec().transfer_hint@;
    let s_hi = c;
    lemma_keys_skip(c, c.len() as int);
    assert(c.subrange(c.len() as int, c.len() as int) =~= Seq::<char>::empty());
    assert(placeholder_keys(s_hi) =~= Seq::<Seq<char>>::empty());
}

proof fn keys_export_button()
    ensures
        placeholder_keys(crate::strings::en_spec().export_button@) == Seq::<Seq<char>>::empty(),
        placeholder_keys(crate::strings::es_spec().export_button@) == Seq::<Seq<char>>::empty(),
        placeholder_keys(crate::strings::fil_spec().export_button@) == Seq::<Seq<char>>::empty(),
        placeholder_keys(crate::strings::hi_spec().export_button@) == Seq::<Seq<char>>::empty(),
{
    reveal_strlit("Export my expansions…");
    let c = crate::strings::en_spec().export_button@;
    let s_en = c;
    lemma_keys_skip(c, c.len() as int);
    assert(c.subrange(c.len() as int, c.len() as int) =~= Seq::<char>::empty());
    assert(placeholder_keys(s_en) =~= Seq::<Seq<char>>::empty());
    reveal_strlit("Exportar mis expansiones…");
    let c = crate::strings::es_spec().export_button@;
    let s_es = c;
    lemma_keys_skip(c, c.len() as int);
    assert(c.subrange(c.len() as int, c.len() as int) =~= Seq::<char>::empty());
    assert(placeholder_keys(s_es) =~= Seq::<Seq<char>>::empty());
    reveal_strlit("I-export ang aking mga expansion…");
    let c = crate::strings::fil_spec().export_button@;
    let s_fil = c;
    lemma_keys_skip(c, c.len() as int);
    assert(c.subrange(c.len() as int, c.len() as int) =~= Seq::<char>::empty());
    assert(placeholder_keys(s_fil) =~= Seq::<Seq<char>>::empty());
    reveal_strlit("मेरे विस्तार निर्यात करें…");
    let c = crate::strings::hi_spec().export_button@;
    let s_hi = c;
    lemma_keys_skip(c, c.len() as int);
    assert(c.subrange(c.len() as int, c.len() as int) =~= Seq::<char>::empty());
    assert(placeholder_keys(s_hi) =~= Seq::<Seq<char>>::empty());
}

proof fn keys_import_button()
    ensures
        placeholder_keys(crate::strings::en_spec().import_button@) == Seq::<Seq<char>>::empty(),
        placeholder_keys(crate::strings::es_spec().import_button@) == Seq::<Seq<char>>::empty(),
        placeholder_keys(crate::strings::fil_spec().import_button@) == Seq::<Seq<char>>::empty(),
        placeholder_keys(crate::strings::hi_spec().import_button@) == Seq::<Seq<char>>::empty(),
{
    reveal_strlit("Import expansions…");
    let c = crate::strings::en_spec().import_button@;
    let s_en = c;
    lemma_keys_skip(c, c.len() as int);
    assert(c.subrange(c.len() as int, c.len() as int) =~= Seq::<char>::empty());
    assert(placeholder_keys(s_en) =~= Seq::<Seq<char>>::empty());
    reveal_strlit("Importar expansiones…");
    let c = crate::strings::es_spec().import_button@;
    let s_es = c;
    lemma_keys_skip(c, c.len() as int);
    assert(c.subrange(c.len() as int, c.len() as int) =~= Seq::<char>::empty());
    assert(placeholder_keys(s_es) =~= Seq::<Seq<char>>::empty());
    reveal_strlit("Mag-import ng mga expansion…");
    let c = crate::strings::fil_spec().import_button@;
    let s_fil = c;
    lemma_keys_skip(c, c.len() as int);
    assert(c.subrange(c.len() as int, c.len() as int) =~= Seq::<char>::empty());
    assert(placeholder_keys(s_fil) =~= Seq::<Seq<char>>::empty());
    reveal_strlit("विस्तार आयात करें…");
    let c = crate::strings::hi_spec().import_button@;
    let s_hi = c;
    lemma_keys_skip(c, c.len() as int);
    assert(c.subrange(c.len() as int, c.len() as int) =~= Seq::<char>::empty());
    assert(placeholder_keys(s_hi) =~= Seq::<Seq<char>>::empty());
}

proof fn keys_transfer_file_kind()
    ensures
        placeholder_keys(crate::strings::en_spec().transfer_file_kind@) == Seq::<Seq<char>>::empty(),
        placeholder_keys(crate::strings::es_spec().transfer_file_kind@) == Seq::<Seq<char>>::empty(),
        placeholder_keys(crate::strings::fil_spec().transfer_file_kind@) == Seq::<Seq<char>>::empty(),
        placeholder_keys(crate::strings::hi_spec().transfer_file_kind@) == Seq::<Seq<char>>::empty(),
{
    reveal_strlit("EspansoManager export");
    let c = crate::strings::en_spec().transfer_file_kind@;
    let s_en = c;
    lemma_keys_skip(c, c.len() as int);
    assert(c.subrange(c.len() as int, c.len() as int) =~= Seq::<char>::empty());
    assert(placeholder_keys(s_en) =~= Seq::<Seq<char>>::empty());
    reveal_strlit("Exportación de EspansoManager");
    let c = crate::strings::es_spec().transfer_file_kind@;
    let s_es = c;
    lemma_keys_skip(c, c.len() as int);
    assert(c.subrange(c.len() as int, c.len() as int) =~= Seq::<char>::empty());
    assert(placeholder_keys(s_es) =~= Seq::<Seq<char>>::empty());
    reveal_strlit("Export ng EspansoManager");
    let c = crate::strings::fil_spec().transfer_file_kind@;
    let s_fil = c;
    lemma_keys_skip(c, c.len() as int);
    assert(c.subrange(c.len() as int, c.len() as int) =~= Seq::<char>::empty());
    assert(placeholder_keys(s_fil) =~= Seq::<Seq<char>>::empty());
    reveal_strlit("EspansoManager निर्यात");
    let c = crate::strings::hi_spec().transfer_file_kind@;
    let s_hi = c;
    lemma_keys_skip(c, c.len() as int);
    assert(c.subrange(c.len() as int, c.len() as int) =~= Seq::<char>::empty());
    assert(placeholder_keys(s_hi) =~= Seq::<Seq<char>>::empty());
}

proof fn keys_export_done()
    ensures
        placeholder_keys(crate::strings::en_spec().export_done@) == seq!["n"@],
        placeholder_keys(crate::strings::es_spec().export_done@) == seq!["n"@],
        placeholder_keys(crate::strings::fil_spec().export_done@) == seq!["n"@],
        placeholder_keys(crate::strings::hi_spec().export_done@) == seq!["n"@],
{
    reveal_strlit("n");
    reveal_strlit("Exported: {n}.");
    let c = crate::strings::en_spec().export_done@;
    let s_en = c;
    lemma_keys_skip(c, 10);
    let c = c.subrange(10, c.len() as int);
    lemma_keys_token(c, 1);
    let k0 = c.subrange(1, 2);
    let c = c.subrange(3, c.len() as int);
    lemma_keys_skip(c, c.len() as int);
    assert(c.subrange(c.len() as int, c.len() as int) =~= Seq::<char>::empty());
    assert(k0 =~= "n"@);
    assert(placeholder_keys(s_en) =~= seq!["n"@]);
    reveal_strlit("Exportadas: {n}.");
    let c = crate::strings::es_spec().export_done@;
    let s_es = c;
    lemma_keys_skip(c, 12);
    let c = c.subrange(12, c.len() as int);
    lemma_keys_token(c, 1);
    let k0 = c.subrange(1, 2);
    let c = c.subrange(3, c.len() as int);
    lemma_keys_skip(c, c.len() as int);
    assert(c.subrange(c.len() as int, c.len() as int) =~= Seq::<char>::empty());
    assert(k0 =~= "n"@);
    assert(placeholder_keys(s_es) =~= seq!["n"@]);
    reveal_strlit("Na-export: {n}.");
    let c = crate::strings::fil_spec().export_done@;
    let s_fil = c;
    lemma_keys_skip(c, 11);
    let c = c.subrange(11, c.len() as int);
    lemma_keys_token(c, 1);
    let k0 = c.subrange(1, 2);
    let c = c.subrange(3, c.len() as int);
    lemma_keys_skip(c, c.len() as int);
    assert(c.subrange(c.len() as int, c.len() as int) =~= Seq::<char>::empty());
    assert(k0 =~= "n"@);
    assert(placeholder_keys(s_fil) =~= seq!["n"@]);
    reveal_strlit("निर्यात किए गए: {n}।");
    let c = crate::strings::hi_spec().export_done@;
    let s_hi = c;
    lemma_keys_skip(c, 16);
    let c = c.subrange(16, c.len() as int);
    lemma_keys_token(c, 1);
    let k0 = c.subrange(1, 2);
    let c = c.subrange(3, c.len() as int);
    lemma_keys_skip(c, c.len() as int);
    assert(c.subrange(c.len() as int, c.len() as int) =~= Seq::<char>::empty());
    assert(k0 =~= "n"@);
    assert(placeholder_keys(s_hi) =~= seq!["n"@]);
}

proof fn keys_export_error()
    ensures
        placeholder_keys(crate::strings::en_spec().export_error@) == seq!["err"@],
        placeholder_keys(crate::strings::es_spec().export_error@) == seq!["err"@],
        placeholder_keys(crate::strings::fil_spec().export_error@) == seq!["err"@],
        placeholder_keys(crate::strings::hi_spec().export_error@) == seq!["err"@],
{
    reveal_strlit("err");
    reveal_strlit("The file could not be written: {err}");
    let c = crate::strings::en_spec().export_error@;
    let s_en = c;
    lemma_keys_skip(c, 31);
    let c = c.subrange(31, c.len() as int);
    lemma_keys_token(c, 3);
    let k0 = c.subrange(1, 4);
    let c = c.subrange(5, c.len() as int);
    lemma_keys_skip(c, c.len() as int);
    assert(c.subrange(c.len() as int, c.len() as int) =~= Seq::<char>::empty());
    assert(k0 =~= "err"@);
    assert(placeholder_keys(s_en) =~= seq!["err"@]);
    reveal_strlit("No se pudo escribir el archivo: {err}");
    let c = crate::strings::es_spec().export_error@;
    let s_es = c;
    lemma_keys_skip(c, 32);
    let c = c.subrange(32, c.len() as int);
    lemma_keys_token(c, 3);
    let k0 = c.subrange(1, 4);
    let c = c.subrange(5, c.len() as int);
    lemma_keys_skip(c, c.len() as int);
    assert(c.subrange(c.len() as int, c.len() as int) =~= Seq::<char>::empty());
    assert(k0 =~= "err"@);
    assert(placeholder_keys(s_es) =~= seq!["err"@]);
    reveal_strlit("Hindi maisulat ang file: {err}");
    let c = crate::strings::fil_spec().export_error@;
    let s_fil = c;
    lemma_keys_skip(c, 25);
    let c = c.subrange(25, c.len() as int);
    lemma_keys_token(c, 3);
    let k0 = c.subrange(1, 4);
    let c = c.subrange(5, c.len() as int);
    lemma_keys_skip(c, c.len() as int);
    assert(c.subrange(c.len() as int, c.len() as int) =~= Seq::<char>::empty());
    assert(k0 =~= "err"@);
    assert(placeholder_keys(s_fil) =~= seq!["err"@]);
    reveal_strlit("फ़ाइल नहीं लिखी जा सकी: {err}");
    let c = crate::strings::hi_spec().export_error@;
    let s_hi = c;
    lemma_keys_skip(c, 24);
    let c = c.subrange(24, c.len() as int);
    lemma_keys_token(c, 3);
    let k0 = c.subrange(1, 4);
    let c = c.subrange(5, c.len() as int);
    lemma_keys_skip(c, c.len() as int);
    assert(c.subrange(c.len() as int, c.len() as int) =~= Seq::<char>::empty());
    assert(k0 =~= "err"@);
    assert(placeholder_keys(s_hi) =~= seq!["err"@]);
}

proof fn keys_import_done()
    ensures
        placeholder_keys(crate::strings::en_spec().import_done@) == seq!["n"@],
        placeholder_keys(crate::strings::es_spec().import_done@) == seq!["n"@],
        placeholder_keys(crate::strings::fil_spec().import_done@) == seq!["n"@],
        placeholder_keys(crate::strings::hi_spec().import_done@) == seq!["n"@],
{
    reveal_strlit("n");
    reveal_strlit("Added: {n}.");
    let c = crate::strings::en_spec().import_done@;
    let s_en = c;
    lemma_keys_skip(c, 7);
    let c = c.subrange(7, c.len() as int);
    lemma_keys_token(c, 1);
    let k0 = c.subrange(1, 2);
    let c = c.subrange(3, c.len() as int);
    lemma_keys_skip(c, c.len() as int);
    assert(c.subrange(c.len() as int, c.len() as int) =~= Seq::<char>::empty());
    assert(k0 =~= "n"@);
    assert(placeholder_keys(s_en) =~= seq!["n"@]);
    reveal_strlit("Añadidas: {n}.");
    let c = crate::strings::es_spec().import_done@;
    let s_es = c;
    lemma_keys_skip(c, 10);
    let c = c.subrange(10, c.len() as int);
    lemma_keys_token(c, 1);
    let k0 = c.subrange(1, 2);
    let c = c.subrange(3, c.len() as int);
    lemma_keys_skip(c, c.len() as int);
    assert(c.subrange(c.len() as int, c.len() as int) =~= Seq::<char>::empty());
    assert(k0 =~= "n"@);
    assert(placeholder_keys(s_es) =~= seq!["n"@]);
    reveal_strlit("Naidagdag: {n}.");
    let c = crate::strings::fil_spec().import_done@;
    let s_fil = c;
    lemma_keys_skip(c, 11);
    let c = c.subrange(11, c.len() as int);
    lemma_keys_token(c, 1);
    let k0 = c.subrange(1, 2);
    let c = c.subrange(3, c.len() as int);
    lemma_keys_skip(c, c.len() as int);
    assert(c.subrange(c.len() as int, c.len() as int) =~= Seq::<char>::empty());
    assert(k0 =~= "n"@);
    assert(placeholder_keys(s_fil) =~= seq!["n"@]);
    reveal_strlit("जोड़े गए: {n}।");
    let c = crate::strings::hi_spec().import_done@;
    let s_hi = c;
    lemma_keys_skip(c, 10);
    let c = c.subrange(10, c.len() as int);
    lemma_keys_token(c, 1);
    let k0 = c.subrange(1, 2);
    let c = c.subrange(3, c.len() as int);
    lemma_keys_skip(c, c.len() as int);
    assert(c.subrange(c.len() as int, c.len() as int) =~= Seq::<char>::empty());
    assert(k0 =~= "n"@);
    assert(placeholder_keys(s_hi) =~= seq!["n"@]);
}

proof fn keys_import_done_skipped()
    ensures
        placeholder_keys(crate::strings::en_spec().import_done_skipped@) == seq!["n"@, "k"@],
        placeholder_keys(crate::strings::es_spec().import_done_skipped@) == seq!["n"@, "k"@],
        placeholder_keys(crate::strings::fil_spec().import_done_skipped@) == seq!["n"@, "k"@],
        placeholder_keys(crate::strings::hi_spec().import_done_skipped@) == seq!["n"@, "k"@],
{
    reveal_strlit("n");
    reveal_strlit("k");
    reveal_strlit("Added: {n}. Skipped: {k} — that trigger was already in use.");
    let c = crate::strings::en_spec().import_done_skipped@;
    let s_en = c;
    lemma_keys_skip(c, 7);
    let c = c.subrange(7, c.len() as int);
    lemma_keys_token(c, 1);
    let k0 = c.subrange(1, 2);
    let c = c.subrange(3, c.len() as int);
    lemma_keys_skip(c, 11);
    let c = c.subrange(11, c.len() as int);
    lemma_keys_token(c, 1);
    let k1 = c.subrange(1, 2);
    let c = c.subrange(3, c.len() as int);
    lemma_keys_skip(c, c.len() as int);
    assert(c.subrange(c.len() as int, c.len() as int) =~= Seq::<char>::empty());
    assert(k0 =~= "n"@);
    assert(k1 =~= "k"@);
    assert(placeholder_keys(s_en) =~= seq!["n"@, "k"@]);
    reveal_strlit("Añadidas: {n}. Omitidas: {k} — ese activador ya estaba en uso.");
    let c = crate::strings::es_spec().import_done_skipped@;
    let s_es = c;
    lemma_keys_skip(c, 10);
    let c = c.subrange(10, c.len() as int);
    lemma_keys_token(c, 1);
    let k0 = c.subrange(1, 2);
    let c = c.subrange(3, c.len() as int);
    lemma_keys_skip(c, 12);
    let c = c.subrange(12, c.len() as int);
    lemma_keys_token(c, 1);
    let k1 = c.subrange(1, 2);
    let c = c.subrange(3, c.len() as int);
    lemma_keys_skip(c, c.len() as int);
    assert(c.subrange(c.len() as int, c.len() as int) =~= Seq::<char>::empty());
    assert(k0 =~= "n"@);
    assert(k1 =~= "k"@);
    assert(placeholder_keys(s_es) =~= seq!["n"@, "k"@]);
    reveal_strlit("Naidagdag: {n}. Nilaktawan: {k} — ginagamit na ang trigger na iyon.");
    let c = crate::strings::fil_spec().import_done_skipped@;
    let s_fil = c;
    lemma_keys_skip(c, 11);
    let c = c.subrange(11, c.len() as int);
    lemma_keys_token(c, 1);
    let k0 = c.subrange(1, 2);
    let c = c.subrange(3, c.len() as int);
    lemma_keys_skip(c, 14);
    let c = c.subrange(14, c.len() as int);
    lemma_keys_token(c, 1);
    let k1 = c.subrange(1, 2);
    let c = c.subrange(3, c.len() as int);
    lemma_keys_skip(c, c.len() as int);
    assert(c.subrange(c.len() as int, c.len() as int) =~= Seq::<char>::empty());
    assert(k0 =~= "n"@);
    assert(k1 =~= "k"@);
    assert(placeholder_keys(s_fil) =~= seq!["n"@, "k"@]);
    reveal_strlit("जोड़े गए: {n}। छोड़े गए: {k} — वह ट्रिगर पहले से उपयोग में था।");
    let c = crate::strings::hi_spec().import_done_skipped@;
    let s_hi = c;
    lemma_keys_skip(c, 10);
    let c = c.subrange(10, c.len() as int);
    lemma_keys_token(c, 1);
    let k0 = c.subrange(1, 2);
    let c = c.subrange(3, c.len() as int);
    lemma_keys_skip(c, 12);
    let c = c.subrange(12, c.len() as int);
    lemma_keys_token(c, 1);
    let k1 = c.subrange(1, 2);
    let c = c.subrange(3, c.len() as int);
    lemma_keys_skip(c, c.len() as int);
    assert(c.subrange(c.len() as int, c.len() as int) =~= Seq::<char>::empty());
    assert(k0 =~= "n"@);
    assert(k1 =~= "k"@);
    assert(placeholder_keys(s_hi) =~= seq!["n"@, "k"@]);
}

proof fn keys_import_none_added()
    ensures
        placeholder_keys(crate::strings::en_spec().import_none_added@) == Seq::<Seq<char>>::empty(),
        placeholder_keys(crate::strings::es_spec().import_none_added@) == Seq::<Seq<char>>::empty(),
        placeholder_keys(crate::strings::fil_spec().import_none_added@) == Seq::<Seq<char>>::empty(),
        placeholder_keys(crate::strings::hi_spec().import_none_added@) == Seq::<Seq<char>>::empty(),
{
    reveal_strlit("Nothing was added: every trigger in that file is already in use.");
    let c = crate::strings::en_spec().import_none_added@;
    let s_en = c;
    lemma_keys_skip(c, c.len() as int);
    assert(c.subrange(c.len() as int, c.len() as int) =~= Seq::<char>::empty());
    assert(placeholder_keys(s_en) =~= Seq::<Seq<char>>::empty());
    reveal_strlit("No se añadió nada: todos los activadores de ese archivo ya están en uso.");
    let c = crate::strings::es_spec().import_none_added@;
    let s_es = c;
    lemma_keys_skip(c, c.len() as int);
    assert(c.subrange(c.len() as int, c.len() as int) =~= Seq::<char>::empty());
    assert(placeholder_keys(s_es) =~= Seq::<Seq<char>>::empty());
    reveal_strlit("Walang naidagdag: ginagamit na ang lahat ng trigger sa file na iyon.");
    let c = crate::strings::fil_spec().import_none_added@;
    let s_fil = c;
    lemma_keys_skip(c, c.len() as int);
    assert(c.subrange(c.len() as int, c.len() as int) =~= Seq::<char>::empty());
    assert(placeholder_keys(s_fil) =~= Seq::<Seq<char>>::empty());
    reveal_strlit("कुछ नहीं जोड़ा गया: उस फ़ाइल के सभी ट्रिगर पहले से उपयोग में हैं।");
    let c = crate::strings::hi_spec().import_none_added@;
    let s_hi = c;
    lemma_keys_skip(c, c.len() as int);
    assert(c.subrange(c.len() as int, c.len() as int) =~= Seq::<char>::empty());
    assert(placeholder_keys(s_hi) =~= Seq::<Seq<char>>::empty());
}

proof fn keys_import_not_ours()
    ensures
        placeholder_keys(crate::strings::en_spec().import_not_ours@) == Seq::<Seq<char>>::empty(),
        placeholder_keys(crate::strings::es_spec().import_not_ours@) == Seq::<Seq<char>>::empty(),
        placeholder_keys(crate::strings::fil_spec().import_not_ours@) == Seq::<Seq<char>>::empty(),
        placeholder_keys(crate::strings::hi_spec().import_not_ours@) == Seq::<Seq<char>>::empty(),
{
    reveal_strlit("That file does not look like an EspansoManager export.");
    let c = crate::strings::en_spec().import_not_ours@;
    let s_en = c;
    lemma_keys_skip(c, c.len() as int);
    assert(c.subrange(c.len() as int, c.len() as int) =~= Seq::<char>::empty());
    assert(placeholder_keys(s_en) =~= Seq::<Seq<char>>::empty());
    reveal_strlit("Ese archivo no parece una exportación de EspansoManager.");
    let c = crate::strings::es_spec().import_not_ours@;
    let s_es = c;
    lemma_keys_skip(c, c.len() as int);
    assert(c.subrange(c.len() as int, c.len() as int) =~= Seq::<char>::empty());
    assert(placeholder_keys(s_es) =~= Seq::<Seq<char>>::empty());
    reveal_strlit("Mukhang hindi ito isang export ng EspansoManager.");
    let c = crate::strings::fil_spec().import_not_ours@;
    let s_fil = c;
    lemma_keys_skip(c, c.len() as int);
    assert(c.subrange(c.len() as int, c.len() as int) =~= Seq::<char>::empty());
    assert(placeholder_keys(s_fil) =~= Seq::<Seq<char>>::empty());
    reveal_strlit("यह फ़ाइल EspansoManager का निर्यात नहीं लगती।");
    let c = crate::strings::hi_spec().import_not_ours@;
    let s_hi = c;
    lemma_keys_skip(c, c.len() as int);
    assert(c.subrange(c.len() as int, c.len() as int) =~= Seq::<char>::empty());
    assert(placeholder_keys(s_hi) =~= Seq::<Seq<char>>::empty());
}

proof fn keys_import_error()
    ensures
        placeholder_keys(crate::strings::en_spec().import_error@) == seq!["err"@],
        placeholder_keys(crate::strings::es_spec().import_error@) == seq!["err"@],
        placeholder_keys(crate::strings::fil_spec().import_error@) == seq!["err"@],
        placeholder_keys(crate::strings::hi_spec().import_error@) == seq!["err"@],
{
    reveal_strlit("err");
    reveal_strlit("The file could not be read: {err}");
    let c = crate::strings::en_spec().import_error@;
    let s_en = c;
    lemma_keys_skip(c, 28);
    let c = c.subrange(28, c.len() as int);
    lemma_keys_token(c, 3);
    let k0 = c.subrange(1, 4);
    let c = c.subrange(5, c.len() as int);
    lemma_keys_skip(c, c.len() as int);
    assert(c.subrange(c.len() as int, c.len() as int) =~= Seq::<char>::empty());
    assert(k0 =~= "err"@);
    assert(placeholder_keys(s_en) =~= seq!["err"@]);
    reveal_strlit("No se pudo leer el archivo: {err}");
    let c = crate::strings::es_spec().import_error@;
    let s_es = c;
    lemma_keys_skip(c, 28);
    let c = c.subrange(28, c.len() as int);
    lemma_keys_token(c, 3);
    let k0 = c.subrange(1, 4);
    let c = c.subrange(5, c.len() as int);
    lemma_keys_skip(c, c.len() as int);
    assert(c.subrange(c.len() as int, c.len() as int) =~= Seq::<char>::empty());
    assert(k0 =~= "err"@);
    assert(placeholder_keys(s_es) =~= seq!["err"@]);
    reveal_strlit("Hindi mabasa ang file: {err}");
    let c = crate::strings::fil_spec().import_error@;
    let s_fil = c;
    lemma_keys_skip(c, 23);
    let c = c.subrange(23, c.len() as int);
    lemma_keys_token(c, 3);
    let k0 = c.subrange(1, 4);
    let c = c.subrange(5, c.len() as int);
    lemma_keys_skip(c, c.len() as int);
    assert(c.subrange(c.len() as int, c.len() as int) =~= Seq::<char>::empty());
    assert(k0 =~= "err"@);
    assert(placeholder_keys(s_fil) =~= seq!["err"@]);
    reveal_strlit("फ़ाइल नहीं पढ़ी जा सकी: {err}");
    let c = crate::strings::hi_spec().import_error@;
    let s_hi = c;
    lemma_keys_skip(c, 24);
    let c = c.subrange(24, c.len() as int);
    lemma_keys_token(c, 3);
    let k0 = c.subrange(1, 4);
    let c = c.subrange(5, c.len() as int);
    lemma_keys_skip(c, c.len() as int);
    assert(c.subrange(c.len() as int, c.len() as int) =~= Seq::<char>::empty());
    assert(k0 =~= "err"@);
    assert(placeholder_keys(s_hi) =~= seq!["err"@]);
}

proof fn keys_prefix_section()
    ensures
        placeholder_keys(crate::strings::en_spec().prefix_section@) == Seq::<Seq<char>>::empty(),
        placeholder_keys(crate::strings::es_spec().prefix_section@) == Seq::<Seq<char>>::empty(),
        placeholder_keys(crate::strings::fil_spec().prefix_section@) == Seq::<Seq<char>>::empty(),
        placeholder_keys(crate::strings::hi_spec().prefix_section@) == Seq::<Seq<char>>::empty(),
{
    reveal_strlit("Prefix for new expansions");
    let c = crate::strings::en_spec().prefix_section@;
    let s_en = c;
    lemma_keys_skip(c, c.len() as int);
    assert(c.subrange(c.len() as int, c.len() as int) =~= Seq::<char>::empty());
    assert(placeholder_keys(s_en) =~= Seq::<Seq<char>>::empty());
    reveal_strlit("Prefijo para nuevas expansiones");
    let c = crate::strings::es_spec().prefix_section@;
    let s_es = c;
    lemma_keys_skip(c, c.len() as int);
    assert(c.subrange(c.len() as int, c.len() as int) =~= Seq::<char>::empty());
    assert(placeholder_keys(s_es) =~= Seq::<Seq<char>>::empty());
    reveal_strlit("Prefix para sa mga bagong expansion");
    let c = crate::strings::fil_spec().prefix_section@;
    let s_fil = c;
    lemma_keys_skip(c, c.len() as int);
    assert(c.subrange(c.len() as int, c.len() as int) =~= Seq::<char>::empty());
    assert(placeholder_keys(s_fil) =~= Seq::<Seq<char>>::empty());
    reveal_strlit("नए विस्तारों के लिए उपसर्ग");
    let c = crate::strings::hi_spec().prefix_section@;
    let s_hi = c;
    lemma_keys_skip(c, c.len() as int);
    assert(c.subrange(c.len() as int, c.len() as int) =~= Seq::<char>::empty());
    assert(placeholder_keys(s_hi) =~= Seq::<Seq<char>>::empty());
}

proof fn keys_prefix_hint()
    ensures
        placeholder_keys(crate::strings::en_spec().prefix_hint@) == Seq::<Seq<char>>::empty(),
        placeholder_keys(crate::strings::es_spec().prefix_hint@) == Seq::<Seq<char>>::empty(),
        placeholder_keys(crate::strings::fil_spec().prefix_hint@) == Seq::<Seq<char>>::empty(),
        placeholder_keys(crate::strings::hi_spec().prefix_hint@) == Seq::<Seq<char>>::empty(),
{
    reveal_strlit("The prefix is what you type before each trigger, for example \":\" in \":hello\". Pick the one you prefer.");
    let c = crate::strings::en_spec().prefix_hint@;
    let s_en = c;
    lemma_keys_skip(c, c.len() as int);
    assert(c.subrange(c.len() as int, c.len() as int) =~= Seq::<char>::empty());
    assert(placeholder_keys(s_en) =~= Seq::<Seq<char>>::empty());
    reveal_strlit("El prefijo es el texto que escribes antes de cada activador, por ejemplo \":\" en \":hola\". Elige el que prefieras.");
    let c = crate::strings::es_spec().prefix_hint@;
    let s_es = c;
    lemma_keys_skip(c, c.len() as int);
    assert(c.subrange(c.len() as int, c.len() as int) =~= Seq::<char>::empty());
    assert(placeholder_keys(s_es) =~= Seq::<Seq<char>>::empty());
    reveal_strlit("Ang prefix ang tine-type mo bago ang bawat trigger, halimbawa \":\" sa \":kumusta\". Piliin ang gusto mo.");
    let c = crate::strings::fil_spec().prefix_hint@;
    let s_fil = c;
    lemma_keys_skip(c, c.len() as int);
    assert(c.subrange(c.len() as int, c.len() as int) =~= Seq::<char>::empty());
    assert(placeholder_keys(s_fil) =~= Seq::<Seq<char>>::empty());
    reveal_strlit("उपसर्ग वह है जो आप हर ट्रिगर से पहले टाइप करते हैं, जैसे \":नमस्ते\" में \":\"। अपनी पसंद का चुनें।");
    let c = crate::strings::hi_spec().prefix_hint@;
    let s_hi = c;
    lemma_keys_skip(c, c.len() as int);
    assert(c.subrange(c.len() as int, c.len() as int) =~= Seq::<char>::empty());
    assert(placeholder_keys(s_hi) =~= Seq::<Seq<char>>::empty());
}

proof fn keys_custom_label()
    ensures
        placeholder_keys(crate::strings::en_spec().custom_label@) == Seq::<Seq<char>>::empty(),
        placeholder_keys(crate::strings::es_spec().custom_label@) == Seq::<Seq<char>>::empty(),
        placeholder_keys(crate::strings::fil_spec().custom_label@) == Seq::<Seq<char>>::empty(),
        placeholder_keys(crate::strings::hi_spec().custom_label@) == Seq::<Seq<char>>::empty(),
{
    reveal_strlit("Custom:");
    let c = crate::strings::en_spec().custom_label@;
    let s_en = c;
    lemma_keys_skip(c, c.len() as int);
    assert(c.subrange(c.len() as int, c.len() as int) =~= Seq::<char>::empty());
    assert(placeholder_keys(s_en) =~= Seq::<Seq<char>>::empty());
    reveal_strlit("Personalizado:");
    let c = crate::strings::es_spec().custom_label@;
    let s_es = c;
    lemma_keys_skip(c, c.len() as int);
    assert(c.subrange(c.len() as int, c.len() as int) =~= Seq::<char>::empty());
    assert(placeholder_keys(s_es) =~= Seq::<Seq<char>>::empty());
    reveal_strlit("Pasadya:");
    let c = crate::strings::fil_spec().custom_label@;
    let s_fil = c;
    lemma_keys_skip(c, c.len() as int);
    assert(c.subrange(c.len() as int, c.len() as int) =~= Seq::<char>::empty());
    assert(placeholder_keys(s_fil) =~= Seq::<Seq<char>>::empty());
    reveal_strlit("कस्टम:");
    let c = crate::strings::hi_spec().custom_label@;
    let s_hi = c;
    lemma_keys_skip(c, c.len() as int);
    assert(c.subrange(c.len() as int, c.len() as int) =~= Seq::<char>::empty());
    assert(placeholder_keys(s_hi) =~= Seq::<Seq<char>>::empty());
}

proof fn keys_apply_prefix()
    ensures
        placeholder_keys(crate::strings::en_spec().apply_prefix@) == Seq::<Seq<char>>::empty(),
        placeholder_keys(crate::strings::es_spec().apply_prefix@) == Seq::<Seq<char>>::empty(),
        placeholder_keys(crate::strings::fil_spec().apply_prefix@) == Seq::<Seq<char>>::empty(),
        placeholder_keys(crate::strings::hi_spec().apply_prefix@) == Seq::<Seq<char>>::empty(),
{
    reveal_strlit("Apply the current prefix to my existing expansions");
    let c = crate::strings::en_spec().apply_prefix@;
    let s_en = c;
    lemma_keys_skip(c, c.len() as int);
    assert(c.subrange(c.len() as int, c.len() as int) =~= Seq::<char>::empty());
    assert(placeholder_keys(s_en) =~= Seq::<Seq<char>>::empty());
    reveal_strlit("Aplicar el prefijo actual a mis expansiones existentes");
    let c = crate::strings::es_spec().apply_prefix@;
    let s_es = c;
    lemma_keys_skip(c, c.len() as int);
    assert(c.subrange(c.len() as int, c.len() as int) =~= Seq::<char>::empty());
    assert(placeholder_keys(s_es) =~= Seq::<Seq<char>>::empty());
    reveal_strlit("Ilapat ang kasalukuyang prefix sa mga umiiral kong expansion");
    let c = crate::strings::fil_spec().apply_prefix@;
    let s_fil = c;
    lemma_keys_skip(c, c.len() as int);
    assert(c.subrange(c.len() as int, c.len() as int) =~= Seq::<char>::empty());
    assert(placeholder_keys(s_fil) =~= Seq::<Seq<char>>::empty());
    reveal_strlit("वर्तमान उपसर्ग को मेरे मौजूदा विस्तारों पर लागू करें");
    let c = crate::strings::hi_spec().apply_prefix@;
    let s_hi = c;
    lemma_keys_skip(c, c.len() as int);
    assert(c.subrange(c.len() as int, c.len() as int) =~= Seq::<char>::empty());
    assert(placeholder_keys(s_hi) =~= Seq::<Seq<char>>::empty());
}

proof fn keys_apply_prefix_hint()
    ensures
        placeholder_keys(crate::strings::en_spec().apply_prefix_hint@) == Seq::<Seq<char>>::empty(),
        placeholder_keys(crate::strings::es_spec().apply_prefix_hint@) == Seq::<Seq<char>>::empty(),
        placeholder_keys(crate::strings::fil_spec().apply_prefix_hint@) == Seq::<Seq<char>>::empty(),
        placeholder_keys(crate::strings::hi_spec().apply_prefix_hint@) == Seq::<Seq<char>>::empty(),
{
    reveal_strlit("Changes the leading prefix of every expansion you already have to the one selected above (for example, from \"::hello\" to \":hello\").");
    let c = crate::strings::en_spec().apply_prefix_hint@;
    let s_en = c;
    lemma_keys_skip(c, c.len() as int);
    assert(c.subrange(c.len() as int, c.len() as int) =~= Seq::<char>::empty());
    assert(placeholder_keys(s_en) =~= Seq::<Seq<char>>::empty());
    reveal_strlit("Cambia el prefijo inicial de cada expansión que ya tienes por el que elegiste arriba (por ejemplo, de \"::hola\" a \":hola\").");
    let c = crate::strings::es_spec().apply_prefix_hint@;
    let s_es = c;
    lemma_keys_skip(c, c.len() as int);
    assert(c.subrange(c.len() as int, c.len() as int) =~= Seq::<char>::empty());
    assert(placeholder_keys(s_es) =~= Seq::<Seq<char>>::empty());
    reveal_strlit("Binabago nito ang paunang prefix ng bawat expansion na mayroon ka na tungo sa napili mo sa itaas (halimbawa, mula \"::kumusta\" tungong \":kumusta\").");
    let c = crate::strings::fil_spec().apply_prefix_hint@;
    let s_fil = c;
    lemma_keys_skip(c, c.len() as int);
    assert(c.subrange(c.len() as int, c.len() as int) =~= Seq::<char>::empty());
    assert(placeholder_keys(s_fil) =~= Seq::<Seq<char>>::empty());
    reveal_strlit("यह आपके पास पहले से मौजूद हर विस्तार के शुरुआती उपसर्ग को ऊपर चुने गए उपसर्ग में बदल देता है (उदाहरण के लिए, \"::नमस्ते\" से \":नमस्ते\")।");
    let c = crate::strings::hi_spec().apply_prefix_hint@;
    let s_hi = c;
    lemma_keys_skip(c, c.len() as int);
    assert(c.subrange(c.len() as int, c.len() as int) =~= Seq::<char>::empty());
    assert(placeholder_keys(s_hi) =~= Seq::<Seq<char>>::empty());
}

proof fn keys_banner_close_tip()
    ensures
        placeholder_keys(crate::strings::en_spec().banner_close_tip@) == Seq::<Seq<char>>::empty(),
        placeholder_keys(crate::strings::es_spec().banner_close_tip@) == Seq::<Seq<char>>::empty(),
        placeholder_keys(crate::strings::fil_spec().banner_close_tip@) == Seq::<Seq<char>>::empty(),
        placeholder_keys(crate::strings::hi_spec().banner_close_tip@) == Seq::<Seq<char>>::empty(),
{
    reveal_strlit("Close");
    let c = crate::strings::en_spec().banner_close_tip@;
    let s_en = c;
    lemma_keys_skip(c, c.len() as int);
    assert(c.subrange(c.len() as int, c.len() as int) =~= Seq::<char>::empty());
    assert(placeholder_keys(s_en) =~= Seq::<Seq<char>>::empty());
    reveal_strlit("Cerrar");
    let c = crate::strings::es_spec().banner_close_tip@;
    let s_es = c;
    lemma_keys_skip(c, c.len() as int);
    assert(c.subrange(c.len() as int, c.len() as int) =~= Seq::<char>::empty());
    assert(placeholder_keys(s_es) =~= Seq::<Seq<char>>::empty());
    reveal_strlit("Isara");
    let c = crate::strings::fil_spec().banner_close_tip@;
    let s_fil = c;
    lemma_keys_skip(c, c.len() as int);
    assert(c.subrange(c.len() as int, c.len() as int) =~= Seq::<char>::empty());
    assert(placeholder_keys(s_fil) =~= Seq::<Seq<char>>::empty());
    reveal_strlit("बंद करें");
    let c = crate::strings::hi_spec().banner_close_tip@;
    let s_hi = c;
    lemma_keys_skip(c, c.len() as int);
    assert(c.subrange(c.len() as int, c.len() as int) =~= Seq::<char>::empty());
    assert(placeholder_keys(s_hi) =~= Seq::<Seq<char>>::empty());
}

proof fn keys_undo()
    ensures
        placeholder_keys(crate::strings::en_spec().undo@) == Seq::<Seq<char>>::empty(),
        placeholder_keys(crate::strings::es_spec().undo@) == Seq::<Seq<char>>::empty(),
        placeholder_keys(crate::strings::fil_spec().undo@) == Seq::<Seq<char>>::empty(),
        placeholder_keys(crate::strings::hi_spec().undo@) == Seq::<Seq<char>>::empty(),
{
    reveal_strlit("Undo");
    let c = crate::strings::en_spec().undo@;
    let s_en = c;
    lemma_keys_skip(c, c.len() as int);
    assert(c.subrange(c.len() as int, c.len() as int) =~= Seq::<char>::empty());
    assert(placeholder_keys(s_en) =~= Seq::<Seq<char>>::empty());
    reveal_strlit("Deshacer");
    let c = crate::strings::es_spec().undo@;
    let s_es = c;
    lemma_keys_skip(c, c.len() as int);
    assert(c.subrange(c.len() as int, c.len() as int) =~= Seq::<char>::empty());
    assert(placeholder_keys(s_es) =~= Seq::<Seq<char>>::empty());
    reveal_strlit("I-undo");
    let c = crate::strings::fil_spec().undo@;
    let s_fil = c;
    lemma_keys_skip(c, c.len() as int);
    assert(c.subrange(c.len() as int, c.len() as int) =~= Seq::<char>::empty());
    assert(placeholder_keys(s_fil) =~= Seq::<Seq<char>>::empty());
    reveal_strlit("पूर्ववत करें");
    let c = crate::strings::hi_spec().undo@;
    let s_hi = c;
    lemma_keys_skip(c, c.len() as int);
    assert(c.subrange(c.len() as int, c.len() as int) =~= Seq::<char>::empty());
    assert(placeholder_keys(s_hi) =~= Seq::<Seq<char>>::empty());
}

proof fn keys_move_undone()
    ensures
        placeholder_keys(crate::strings::en_spec().move_undone@) == Seq::<Seq<char>>::empty(),
        placeholder_keys(crate::strings::es_spec().move_undone@) == Seq::<Seq<char>>::empty(),
        placeholder_keys(crate::strings::fil_spec().move_undone@) == Seq::<Seq<char>>::empty(),
        placeholder_keys(crate::strings::hi_spec().move_undone@) == Seq::<Seq<char>>::empty(),
{
    reveal_strlit("The move was undone.");
    let c = crate::strings::en_spec().move_undone@;
    let s_en = c;
    lemma_keys_skip(c, c.len() as int);
    assert(c.subrange(c.len() as int, c.len() as int) =~= Seq::<char>::empty());
    assert(placeholder_keys(s_en) =~= Seq::<Seq<char>>::empty());
    reveal_strlit("Se deshizo el movimiento.");
    let c = crate::strings::es_spec().move_undone@;
    let s_es = c;
    lemma_keys_skip(c, c.len() as int);
    assert(c.subrange(c.len() as int, c.len() as int) =~= Seq::<char>::empty());
    assert(placeholder_keys(s_es) =~= Seq::<Seq<char>>::empty());
    reveal_strlit("Naibalik ang paglipat.");
    let c = crate::strings::fil_spec().move_undone@;
    let s_fil = c;
    lemma_keys_skip(c, c.len() as int);
    assert(c.subrange(c.len() as int, c.len() as int) =~= Seq::<char>::empty());
    assert(placeholder_keys(s_fil) =~= Seq::<Seq<char>>::empty());
    reveal_strlit("स्थानांतरण पूर्ववत कर दिया गया।");
    let c = crate::strings::hi_spec().move_undone@;
    let s_hi = c;
    lemma_keys_skip(c, c.len() as int);
    assert(c.subrange(c.len() as int, c.len() as int) =~= Seq::<char>::empty());
    assert(placeholder_keys(s_hi) =~= Seq::<Seq<char>>::empty());
}

proof fn keys_autostart_on()
    ensures
        placeholder_keys(crate::strings::en_spec().autostart_on@) == Seq::<Seq<char>>::empty(),
        placeholder_keys(crate::strings::es_spec().autostart_on@) == Seq::<Seq<char>>::empty(),
        placeholder_keys(crate::strings::fil_spec().autostart_on@) == Seq::<Seq<char>>::empty(),
        placeholder_keys(crate::strings::hi_spec().autostart_on@) == Seq::<Seq<char>>::empty(),
{
    reveal_strlit("EspansoManager will now start with Windows.");
    let c = crate::strings::en_spec().autostart_on@;
    let s_en = c;
    lemma_keys_skip(c, c.len() as int);
    assert(c.subrange(c.len() as int, c.len() as int) =~= Seq::<char>::empty());
    assert(placeholder_keys(s_en) =~= Seq::<Seq<char>>::empty());
    reveal_strlit("EspansoManager se iniciará con Windows a partir de ahora.");
    let c = crate::strings::es_spec().autostart_on@;
    let s_es = c;
    lemma_keys_skip(c, c.len() as int);
    assert(c.subrange(c.len() as int, c.len() as int) =~= Seq::<char>::empty());
    assert(placeholder_keys(s_es) =~= Seq::<Seq<char>>::empty());
    reveal_strlit("Magsisimula na ang EspansoManager kasama ng Windows.");
    let c = crate::strings::fil_spec().autostart_on@;
    let s_fil = c;
    lemma_keys_skip(c, c.len() as int);
    assert(c.subrange(c.len() as int, c.len() as int) =~= Seq::<char>::empty());
    assert(placeholder_keys(s_fil) =~= Seq::<Seq<char>>::empty());
    reveal_strlit("अब EspansoManager Windows के साथ शुरू होगा।");
    let c = crate::strings::hi_spec().autostart_on@;
    let s_hi = c;
    lemma_keys_skip(c, c.len() as int);
    assert(c.subrange(c.len() as int, c.len() as int) =~= Seq::<char>::empty());
    assert(placeholder_keys(s_hi) =~= Seq::<Seq<char>>::empty());
}

proof fn keys_autostart_off()
    ensures
        placeholder_keys(crate::strings::en_spec().autostart_off@) == Seq::<Seq<char>>::empty(),
        placeholder_keys(crate::strings::es_spec().autostart_off@) == Seq::<Seq<char>>::empty(),
        placeholder_keys(crate::strings::fil_spec().autostart_off@) == Seq::<Seq<char>>::empty(),
        placeholder_keys(crate::strings::hi_spec().autostart_off@) == Seq::<Seq<char>>::empty(),
{
    reveal_strlit("It will no longer start automatically with Windows.");
    let c = crate::strings::en_spec().autostart_off@;
    let s_en = c;
    lemma_keys_skip(c, c.len() as int);
    assert(c.subrange(c.len() as int, c.len() as int) =~= Seq::<char>::empty());
    assert(placeholder_keys(s_en) =~= Seq::<Seq<char>>::empty());
    reveal_strlit("Ya no se iniciará automáticamente con Windows.");
    let c = crate::strings::es_spec().autostart_off@;
    let s_es = c;
    lemma_keys_skip(c, c.len() as int);
    assert(c.subrange(c.len() as int, c.len() as int) =~= Seq::<char>::empty());
    assert(placeholder_keys(s_es) =~= Seq::<Seq<char>>::empty());
    reveal_strlit("Hindi na ito awtomatikong magsisimula kasama ng Windows.");
    let c = crate::strings::fil_spec().autostart_off@;
    let s_fil = c;
    lemma_keys_skip(c, c.len() as int);
    assert(c.subrange(c.len() as int, c.len() as int) =~= Seq::<char>::empty());
    assert(placeholder_keys(s_fil) =~= Seq::<Seq<char>>::empty());
    reveal_strlit("अब यह Windows के साथ स्वचालित रूप से शुरू नहीं होगा।");
    let c = crate::strings::hi_spec().autostart_off@;
    let s_hi = c;
    lemma_keys_skip(c, c.len() as int);
    assert(c.subrange(c.len() as int, c.len() as int) =~= Seq::<char>::empty());
    assert(placeholder_keys(s_hi) =~= Seq::<Seq<char>>::empty());
}

proof fn keys_autostart_error()
    ensures
        placeholder_keys(crate::strings::en_spec().autostart_error@) == seq!["err"@],
        placeholder_keys(crate::strings::es_spec().autostart_error@) == seq!["err"@],
        placeholder_keys(crate::strings::fil_spec().autostart_error@) == seq!["err"@],
        placeholder_keys(crate::strings::hi_spec().autostart_error@) == seq!["err"@],
{
    reveal_strlit("err");
    reveal_strlit("Could not change the Windows start-up setting: {err}");
    let c = crate::strings::en_spec().autostart_error@;
    let s_en = c;
    lemma_keys_skip(c, 47);
    let c = c.subrange(47, c.len() as int);
    lemma_keys_token(c, 3);
    let k0 = c.subrange(1, 4);
    let c = c.subrange(5, c.len() as int);
    lemma_keys_skip(c, c.len() as int);
    assert(c.subrange(c.len() as int, c.len() as int) =~= Seq::<char>::empty());
    assert(k0 =~= "err"@);
    assert(placeholder_keys(s_en) =~= seq!["err"@]);
    reveal_strlit("No se pudo cambiar el inicio automático con Windows: {err}");
    let c = crate::strings::es_spec().autostart_error@;
    let s_es = c;
    lemma_keys_skip(c, 53);
    let c = c.subrange(53, c.len() as int);
    lemma_keys_token(c, 3);
    let k0 = c.subrange(1, 4);
    let c = c.subrange(5, c.len() as int);
    lemma_keys_skip(c, c.len() as int);
    assert(c.subrange(c.len() as int, c.len() as int) =~= Seq::<char>::empty());
    assert(k0 =~= "err"@);
    assert(placeholder_keys(s_es) =~= seq!["err"@]);
    reveal_strlit("Hindi mabago ang setting ng pagsisimula sa Windows: {err}");
    let c = crate::strings::fil_spec().autostart_error@;
    let s_fil = c;
    lemma_keys_skip(c, 52);
    let c = c.subrange(52, c.len() as int);
    lemma_keys_token(c, 3);
    let k0 = c.subrange(1, 4);
    let c = c.subrange(5, c.len() as int);
    lemma_keys_skip(c, c.len() as int);
    assert(c.subrange(c.len() as int, c.len() as int) =~= Seq::<char>::empty());
    assert(k0 =~= "err"@);
    assert(placeholder_keys(s_fil) =~= seq!["err"@]);
    reveal_strlit("Windows स्टार्ट-अप सेटिंग नहीं बदली जा सकी: {err}");
    let c = crate::strings::hi_spec().autostart_error@;
    let s_hi = c;
    lemma_keys_skip(c, 44);
    let c = c.subrange(44, c.len() as int);
    lemma_keys_token(c, 3);
    let k0 = c.subrange(1, 4);
    let c = c.subrange(5, c.len() as int);
    lemma_keys_skip(c, c.len() as int);
    assert(c.subrange(c.len() as int, c.len() as int) =~= Seq::<char>::empty());
    assert(k0 =~= "err"@);
    assert(placeholder_keys(s_hi) =~= seq!["err"@]);
}

proof fn keys_prefix_save_error()
    ensures
        placeholder_keys(crate::strings::en_spec().prefix_save_error@) == seq!["err"@],
        placeholder_keys(crate::strings::es_spec().prefix_save_error@) == seq!["err"@],
        placeholder_keys(crate::strings::fil_spec().prefix_save_error@) == seq!["err"@],
        placeholder_keys(crate::strings::hi_spec().prefix_save_error@) == seq!["err"@],
{
    reveal_strlit("err");
    reveal_strlit("Could not save the prefix setting: {err}");
    let c = crate::strings::en_spec().prefix_save_error@;
    let s_en = c;
    lemma_keys_skip(c, 35);
    let c = c.subrange(35, c.len() as int);
    lemma_keys_token(c, 3);
    let k0 = c.subrange(1, 4);
    let c = c.subrange(5, c.len() as int);
    lemma_keys_skip(c, c.len() as int);
    assert(c.subrange(c.len() as int, c.len() as int) =~= Seq::<char>::empty());
    assert(k0 =~= "err"@);
    assert(placeholder_keys(s_en) =~= seq!["err"@]);
    reveal_strlit("No se pudo guardar el ajuste de prefijo: {err}");
    let c = crate::strings::es_spec().prefix_save_error@;
    let s_es = c;
    lemma_keys_skip(c, 41);
    let c = c.subrange(41, c.len() as int);
    lemma_keys_token(c, 3);
    let k0 = c.subrange(1, 4);
    let c = c.subrange(5, c.len() as int);
    lemma_keys_skip(c, c.len() as int);
    assert(c.subrange(c.len() as int, c.len() as int) =~= Seq::<char>::empty());
    assert(k0 =~= "err"@);
    assert(placeholder_keys(s_es) =~= seq!["err"@]);
    reveal_strlit("Hindi ma-save ang setting ng prefix: {err}");
    let c = crate::strings::fil_spec().prefix_save_error@;
    let s_fil = c;
    lemma_keys_skip(c, 37);
    let c = c.subrange(37, c.len() as int);
    lemma_keys_token(c, 3);
    let k0 = c.subrange(1, 4);
    let c = c.subrange(5, c.len() as int);
    lemma_keys_skip(c, c.len() as int);
    assert(c.subrange(c.len() as int, c.len() as int) =~= Seq::<char>::empty());
    assert(k0 =~= "err"@);
    assert(placeholder_keys(s_fil) =~= seq!["err"@]);
    reveal_strlit("उपसर्ग सेटिंग सहेजी नहीं जा सकी: {err}");
    let c = crate::strings::hi_spec().prefix_save_error@;
    let s_hi = c;
    lemma_keys_skip(c, 33);
    let c = c.subrange(33, c.len() as int);
    lemma_keys_token(c, 3);
    let k0 = c.subrange(1, 4);
    let c = c.subrange(5, c.len() as int);
    lemma_keys_skip(c, c.len() as int);
    assert(c.subrange(c.len() as int, c.len() as int) =~= Seq::<char>::empty());
    assert(k0 =~= "err"@);
    assert(placeholder_keys(s_hi) =~= seq!["err"@]);
}

proof fn keys_view_save_error()
    ensures
        placeholder_keys(crate::strings::en_spec().view_save_error@) == seq!["err"@],
        placeholder_keys(crate::strings::es_spec().view_save_error@) == seq!["err"@],
        placeholder_keys(crate::strings::fil_spec().view_save_error@) == seq!["err"@],
        placeholder_keys(crate::strings::hi_spec().view_save_error@) == seq!["err"@],
{
    reveal_strlit("err");
    reveal_strlit("Could not save the view setting: {err}");
    let c = crate::strings::en_spec().view_save_error@;
    let s_en = c;
    lemma_keys_skip(c, 33);
    let c = c.subrange(33, c.len() as int);
    lemma_keys_token(c, 3);
    let k0 = c.subrange(1, 4);
    let c = c.subrange(5, c.len() as int);
    lemma_keys_skip(c, c.len() as int);
    assert(c.subrange(c.len() as int, c.len() as int) =~= Seq::<char>::empty());
    assert(k0 =~= "err"@);
    assert(placeholder_keys(s_en) =~= seq!["err"@]);
    reveal_strlit("No se pudo guardar el ajuste de vista: {err}");
    let c = crate::strings::es_spec().view_save_error@;
    let s_es = c;
    lemma_keys_skip(c, 39);
    let c = c.subrange(39, c.len() as int);
    lemma_keys_token(c, 3);
    let k0 = c.subrange(1, 4);
    let c = c.subrange(5, c.len() as int);
    lemma_keys_skip(c, c.len() as int);
    assert(c.subrange(c.len() as int, c.len() as int) =~= Seq::<char>::empty());
    assert(k0 =~= "err"@);
    assert(placeholder_keys(s_es) =~= seq!["err"@]);
    reveal_strlit("Hindi ma-save ang setting ng view: {err}");
    let c = crate::strings::fil_spec().view_save_error@;
    let s_fil = c;
    lemma_keys_skip(c, 35);
    let c = c.subrange(35, c.len() as int);
    lemma_keys_token(c, 3);
    let k0 = c.subrange(1, 4);
    let c = c.subrange(5, c.len() as int);
    lemma_keys_skip(c, c.len() as int);
    assert(c.subrange(c.len() as int, c.len() as int) =~= Seq::<char>::empty());
    assert(k0 =~= "err"@);
    assert(placeholder_keys(s_fil) =~= seq!["err"@]);
    reveal_strlit("दृश्य सेटिंग सहेजी नहीं जा सकी: {err}");
    let c = crate::strings::hi_spec().view_save_error@;
    let s_hi = c;
    lemma_keys_skip(c, 32);
    let c = c.subrange(32, c.len() as int);
    lemma_keys_token(c, 3);
    let k0 = c.subrange(1, 4);
    let c = c.subrange(5, c.len() as int);
    lemma_keys_skip(c, c.len() as int);
    assert(c.subrange(c.len() as int, c.len() as int) =~= Seq::<char>::empty());
    assert(k0 =~= "err"@);
    assert(placeholder_keys(s_hi) =~= seq!["err"@]);
}

proof fn keys_language_save_error()
    ensures
        placeholder_keys(crate::strings::en_spec().language_save_error@) == seq!["err"@],
        placeholder_keys(crate::strings::es_spec().language_save_error@) == seq!["err"@],
        placeholder_keys(crate::strings::fil_spec().language_save_error@) == seq!["err"@],
        placeholder_keys(crate::strings::hi_spec().language_save_error@) == seq!["err"@],
{
    reveal_strlit("err");
    reveal_strlit("Could not save the language setting: {err}");
    let c = crate::strings::en_spec().language_save_error@;
    let s_en = c;
    lemma_keys_skip(c, 37);
    let c = c.subrange(37, c.len() as int);
    lemma_keys_token(c, 3);
    let k0 = c.subrange(1, 4);
    let c = c.subrange(5, c.len() as int);
    lemma_keys_skip(c, c.len() as int);
    assert(c.subrange(c.len() as int, c.len() as int) =~= Seq::<char>::empty());
    assert(k0 =~= "err"@);
    assert(placeholder_keys(s_en) =~= seq!["err"@]);
    reveal_strlit("No se pudo guardar el ajuste de idioma: {err}");
    let c = crate::strings::es_spec().language_save_error@;
    let s_es = c;
    lemma_keys_skip(c, 40);
    let c = c.subrange(40, c.len() as int);
    lemma_keys_token(c, 3);
    let k0 = c.subrange(1, 4);
    let c = c.subrange(5, c.len() as int);
    lemma_keys_skip(c, c.len() as int);
    assert(c.subrange(c.len() as int, c.len() as int) =~= Seq::<char>::empty());
    assert(k0 =~= "err"@);
    assert(placeholder_keys(s_es) =~= seq!["err"@]);
    reveal_strlit("Hindi ma-save ang setting ng wika: {err}");
    let c = crate::strings::fil_spec().language_save_error@;
    let s_fil = c;
    lemma_keys_skip(c, 35);
    let c = c.subrange(35, c.len() as int);
    lemma_keys_token(c, 3);
    let k0 = c.subrange(1, 4);
    let c = c.subrange(5, c.len() as int);
    lemma_keys_skip(c, c.len() as int);
    assert(c.subrange(c.len() as int, c.len() as int) =~= Seq::<char>::empty());
    assert(k0 =~= "err"@);
    assert(placeholder_keys(s_fil) =~= seq!["err"@]);
    reveal_strlit("भाषा सेटिंग सहेजी नहीं जा सकी: {err}");
    let c = crate::strings::hi_spec().language_save_error@;
    let s_hi = c;
    lemma_keys_skip(c, 31);
    let c = c.subrange(31, c.len() as int);
    lemma_keys_token(c, 3);
    let k0 = c.subrange(1, 4);
    let c = c.subrange(5, c.len() as int);
    lemma_keys_skip(c, c.len() as int);
    assert(c.subrange(c.len() as int, c.len() as int) =~= Seq::<char>::empty());
    assert(k0 =~= "err"@);
    assert(placeholder_keys(s_hi) =~= seq!["err"@]);
}

proof fn keys_theme_save_error()
    ensures
        placeholder_keys(crate::strings::en_spec().theme_save_error@) == seq!["err"@],
        placeholder_keys(crate::strings::es_spec().theme_save_error@) == seq!["err"@],
        placeholder_keys(crate::strings::fil_spec().theme_save_error@) == seq!["err"@],
        placeholder_keys(crate::strings::hi_spec().theme_save_error@) == seq!["err"@],
{
    reveal_strlit("err");
    reveal_strlit("Could not save the theme setting: {err}");
    let c = crate::strings::en_spec().theme_save_error@;
    let s_en = c;
    lemma_keys_skip(c, 34);
    let c = c.subrange(34, c.len() as int);
    lemma_keys_token(c, 3);
    let k0 = c.subrange(1, 4);
    let c = c.subrange(5, c.len() as int);
    lemma_keys_skip(c, c.len() as int);
    assert(c.subrange(c.len() as int, c.len() as int) =~= Seq::<char>::empty());
    assert(k0 =~= "err"@);
    assert(placeholder_keys(s_en) =~= seq!["err"@]);
    reveal_strlit("No se pudo guardar el ajuste de tema: {err}");
    let c = crate::strings::es_spec().theme_save_error@;
    let s_es = c;
    lemma_keys_skip(c, 38);
    let c = c.subrange(38, c.len() as int);
    lemma_keys_token(c, 3);
    let k0 = c.subrange(1, 4);
    let c = c.subrange(5, c.len() as int);
    lemma_keys_skip(c, c.len() as int);
    assert(c.subrange(c.len() as int, c.len() as int) =~= Seq::<char>::empty());
    assert(k0 =~= "err"@);
    assert(placeholder_keys(s_es) =~= seq!["err"@]);
    reveal_strlit("Hindi ma-save ang setting ng tema: {err}");
    let c = crate::strings::fil_spec().theme_save_error@;
    let s_fil = c;
    lemma_keys_skip(c, 35);
    let c = c.subrange(35, c.len() as int);
    lemma_keys_token(c, 3);
    let k0 = c.subrange(1, 4);
    let c = c.subrange(5, c.len() as int);
    lemma_keys_skip(c, c.len() as int);
    assert(c.subrange(c.len() as int, c.len() as int) =~= Seq::<char>::empty());
    assert(k0 =~= "err"@);
    assert(placeholder_keys(s_fil) =~= seq!["err"@]);
    reveal_strlit("थीम सेटिंग सहेजी नहीं जा सकी: {err}");
    let c = crate::strings::hi_spec().theme_save_error@;
    let s_hi = c;
    lemma_keys_skip(c, 30);
    let c = c.subrange(30, c.len() as int);
    lemma_keys_token(c, 3);
    let k0 = c.subrange(1, 4);
    let c = c.subrange(5, c.len() as int);
    lemma_keys_skip(c, c.len() as int);
    assert(c.subrange(c.len() as int, c.len() as int) =~= Seq::<char>::empty());
    assert(k0 =~= "err"@);
    assert(placeholder_keys(s_hi) =~= seq!["err"@]);
}

proof fn keys_prefix_already_applied()
    ensures
        placeholder_keys(crate::strings::en_spec().prefix_already_applied@) == Seq::<Seq<char>>::empty(),
        placeholder_keys(crate::strings::es_spec().prefix_already_applied@) == Seq::<Seq<char>>::empty(),
        placeholder_keys(crate::strings::fil_spec().prefix_already_applied@) == Seq::<Seq<char>>::empty(),
        placeholder_keys(crate::strings::hi_spec().prefix_already_applied@) == Seq::<Seq<char>>::empty(),
{
    reveal_strlit("All your expansions already use this prefix.");
    let c = crate::strings::en_spec().prefix_already_applied@;
    let s_en = c;
    lemma_keys_skip(c, c.len() as int);
    assert(c.subrange(c.len() as int, c.len() as int) =~= Seq::<char>::empty());
    assert(placeholder_keys(s_en) =~= Seq::<Seq<char>>::empty());
    reveal_strlit("Todas tus expansiones ya usan este prefijo.");
    let c = crate::strings::es_spec().prefix_already_applied@;
    let s_es = c;
    lemma_keys_skip(c, c.len() as int);
    assert(c.subrange(c.len() as int, c.len() as int) =~= Seq::<char>::empty());
    assert(placeholder_keys(s_es) =~= Seq::<Seq<char>>::empty());
    reveal_strlit("Ginagamit na ng lahat ng iyong expansion ang prefix na ito.");
    let c = crate::strings::fil_spec().prefix_already_applied@;
    let s_fil = c;
    lemma_keys_skip(c, c.len() as int);
    assert(c.subrange(c.len() as int, c.len() as int) =~= Seq::<char>::empty());
    assert(placeholder_keys(s_fil) =~= Seq::<Seq<char>>::empty());
    reveal_strlit("आपके सभी विस्तार पहले से ही इस उपसर्ग का उपयोग करते हैं।");
    let c = crate::strings::hi_spec().prefix_already_applied@;
    let s_hi = c;
    lemma_keys_skip(c, c.len() as int);
    assert(c.subrange(c.len() as int, c.len() as int) =~= Seq::<char>::empty());
    assert(placeholder_keys(s_hi) =~= Seq::<Seq<char>>::empty());
}

proof fn keys_prefix_collision()
    ensures
        placeholder_keys(crate::strings::en_spec().prefix_collision@) == seq!["list"@],
        placeholder_keys(crate::strings::es_spec().prefix_collision@) == seq!["list"@],
        placeholder_keys(crate::strings::fil_spec().prefix_collision@) == seq!["list"@],
        placeholder_keys(crate::strings::hi_spec().prefix_collision@) == seq!["list"@],
{
    reveal_strlit("list");
    reveal_strlit("The change was not applied: at least two expansions would end up with the same trigger ({list}). Please review them before changing the prefix.");
    let c = crate::strings::en_spec().prefix_collision@;
    let s_en = c;
    lemma_keys_skip(c, 88);
    let c = c.subrange(88, c.len() as int);
    lemma_keys_token(c, 4);
    let k0 = c.subrange(1, 5);
    let c = c.subrange(6, c.len() as int);
    lemma_keys_skip(c, c.len() as int);
    assert(c.subrange(c.len() as int, c.len() as int) =~= Seq::<char>::empty());
    assert(k0 =~= "list"@);
    assert(placeholder_keys(s_en) =~= seq!["list"@]);
    reveal_strlit("No se aplicó el cambio: al menos dos expansiones terminarían con el mismo activador ({list}). Revísalas manualmente antes de cambiar el prefijo.");
    let c = crate::strings::es_spec().prefix_collision@;
    let s_es = c;
    lemma_keys_skip(c, 85);
    let c = c.subrange(85, c.len() as int);
    lemma_keys_token(c, 4);
    let k0 = c.subrange(1, 5);
    let c = c.subrange(6, c.len() as int);
    lemma_keys_skip(c, c.len() as int);
    assert(c.subrange(c.len() as int, c.len() as int) =~= Seq::<char>::empty());
    assert(k0 =~= "list"@);
    assert(placeholder_keys(s_es) =~= seq!["list"@]);
    reveal_strlit("Hindi inilapat ang pagbabago: hindi bababa sa dalawang expansion ang magkakaroon ng parehong trigger ({list}). Pakisuri muna ang mga ito bago palitan ang prefix.");
    let c = crate::strings::fil_spec().prefix_collision@;
    let s_fil = c;
    lemma_keys_skip(c, 102);
    let c = c.subrange(102, c.len() as int);
    lemma_keys_token(c, 4);
    let k0 = c.subrange(1, 5);
    let c = c.subrange(6, c.len() as int);
    lemma_keys_skip(c, c.len() as int);
    assert(c.subrange(c.len() as int, c.len() as int) =~= Seq::<char>::empty());
    assert(k0 =~= "list"@);
    assert(placeholder_keys(s_fil) =~= seq!["list"@]);
    reveal_strlit("परिवर्तन लागू नहीं किया गया: कम से कम दो विस्तारों का ट्रिगर एक जैसा हो जाएगा ({list})। उपसर्ग बदलने से पहले कृपया उनकी समीक्षा करें।");
    let c = crate::strings::hi_spec().prefix_collision@;
    let s_hi = c;
    lemma_keys_skip(c, 79);
    let c = c.subrange(79, c.len() as int);
    lemma_keys_token(c, 4);
    let k0 = c.subrange(1, 5);
    let c = c.subrange(6, c.len() as int);
    lemma_keys_skip(c, c.len() as int);
    assert(c.subrange(c.len() as int, c.len() as int) =~= Seq::<char>::empty());
    assert(k0 =~= "list"@);
    assert(placeholder_keys(s_hi) =~= seq!["list"@]);
}

proof fn keys_prefix_confirm_title()
    ensures
        placeholder_keys(crate::strings::en_spec().prefix_confirm_title@) == Seq::<Seq<char>>::empty(),
        placeholder_keys(crate::strings::es_spec().prefix_confirm_title@) == Seq::<Seq<char>>::empty(),
        placeholder_keys(crate::strings::fil_spec().prefix_confirm_title@) == Seq::<Seq<char>>::empty(),
        placeholder_keys(crate::strings::hi_spec().prefix_confirm_title@) == Seq::<Seq<char>>::empty(),
{
    reveal_strlit("Change the prefix of existing expansions");
    let c = crate::strings::en_spec().prefix_confirm_title@;
    let s_en = c;
    lemma_keys_skip(c, c.len() as int);
    assert(c.subrange(c.len() as int, c.len() as int) =~= Seq::<char>::empty());
    assert(placeholder_keys(s_en) =~= Seq::<Seq<char>>::empty());
    reveal_strlit("Cambiar prefijo de expansiones existentes");
    let c = crate::strings::es_spec().prefix_confirm_title@;
    let s_es = c;
    lemma_keys_skip(c, c.len() as int);
    assert(c.subrange(c.len() as int, c.len() as int) =~= Seq::<char>::empty());
    assert(placeholder_keys(s_es) =~= Seq::<Seq<char>>::empty());
    reveal_strlit("Palitan ang prefix ng mga umiiral na expansion");
    let c = crate::strings::fil_spec().prefix_confirm_title@;
    let s_fil = c;
    lemma_keys_skip(c, c.len() as int);
    assert(c.subrange(c.len() as int, c.len() as int) =~= Seq::<char>::empty());
    assert(placeholder_keys(s_fil) =~= Seq::<Seq<char>>::empty());
    reveal_strlit("मौजूदा विस्तारों का उपसर्ग बदलें");
    let c = crate::strings::hi_spec().prefix_confirm_title@;
    let s_hi = c;
    lemma_keys_skip(c, c.len() as int);
    assert(c.subrange(c.len() as int, c.len() as int) =~= Seq::<char>::empty());
    assert(placeholder_keys(s_hi) =~= Seq::<Seq<char>>::empty());
}

proof fn keys_prefix_confirm_body()
    ensures
        placeholder_keys(crate::strings::en_spec().prefix_confirm_body@) == seq!["n"@, "list"@, "more"@],
        placeholder_keys(crate::strings::es_spec().prefix_confirm_body@) == seq!["n"@, "list"@, "more"@],
        placeholder_keys(crate::strings::fil_spec().prefix_confirm_body@) == seq!["n"@, "list"@, "more"@],
        placeholder_keys(crate::strings::hi_spec().prefix_confirm_body@) == seq!["n"@, "list"@, "more"@],
{
    reveal_strlit("n");
    reveal_strlit("list");
    reveal_strlit("more");
    reveal_strlit("{n} trigger(s) will be renamed:\n\n{list}{more}\n\nContinue?");
    let c = crate::strings::en_spec().prefix_confirm_body@;
    let s_en = c;
    lemma_keys_token(c, 1);
    let k0 = c.subrange(1, 2);
    let c = c.subrange(3, c.len() as int);
    lemma_keys_skip(c, 30);
    let c = c.subrange(30, c.len() as int);
    lemma_keys_token(c, 4);
    let k1 = c.subrange(1, 5);
    let c = c.subrange(6, c.len() as int);
    lemma_keys_token(c, 4);
    let k2 = c.subrange(1, 5);
    let c = c.subrange(6, c.len() as int);
    lemma_keys_skip(c, c.len() as int);
    assert(c.subrange(c.len() as int, c.len() as int) =~= Seq::<char>::empty());
    assert(k0 =~= "n"@);
    assert(k1 =~= "list"@);
    assert(k2 =~= "more"@);
    assert(placeholder_keys(s_en) =~= seq!["n"@, "list"@, "more"@]);
    reveal_strlit("Se van a renombrar {n} activador(es):\n\n{list}{more}\n\n¿Continuar?");
    let c = crate::strings::es_spec().prefix_confirm_body@;
    let s_es = c;
    lemma_keys_skip(c, 19);
    let c = c.subrange(19, c.len() as int);
    lemma_keys_token(c, 1);
    let k0 = c.subrange(1, 2);
    let c = c.subrange(3, c.len() as int);
    lemma_keys_skip(c, 17);
    let c = c.subrange(17, c.len() as int);
    lemma_keys_token(c, 4);
    let k1 = c.subrange(1, 5);
    let c = c.subrange(6, c.len() as int);
    lemma_keys_token(c, 4);
    let k2 = c.subrange(1, 5);
    let c = c.subrange(6, c.len() as int);
    lemma_keys_skip(c, c.len() as int);
    assert(c.subrange(c.len() as int, c.len() as int) =~= Seq::<char>::empty());
    assert(k0 =~= "n"@);
    assert(k1 =~= "list"@);
    assert(k2 =~= "more"@);
    assert(placeholder_keys(s_es) =~= seq!["n"@, "list"@, "more"@]);
    reveal_strlit("Papalitan ang pangalan ng {n} trigger:\n\n{list}{more}\n\nMagpatuloy?");
    let c = crate::strings::fil_spec().prefix_confirm_body@;
    let s_fil = c;
    lemma_keys_skip(c, 26);
    let c = c.subrange(26, c.len() as int);
    lemma_keys_token(c, 1);
    let k0 = c.subrange(1, 2);
    let c = c.subrange(3, c.len() as int);
    lemma_keys_skip(c, 11);
    let c = c.subrange(11, c.len() as int);
    lemma_keys_token(c, 4);
    let k1 = c.subrange(1, 5);
    let c = c.subrange(6, c.len() as int);
    lemma_keys_token(c, 4);
    let k2 = c.subrange(1, 5);
    let c = c.subrange(6, c.len() as int);
    lemma_keys_skip(c, c.len() as int);
    assert(c.subrange(c.len() as int, c.len() as int) =~= Seq::<char>::empty());
    assert(k0 =~= "n"@);
    assert(k1 =~= "list"@);
    assert(k2 =~= "more"@);
    assert(placeholder_keys(s_fil) =~= seq!["n"@, "list"@, "more"@]);
    reveal_strlit("{n} ट्रिगर का नाम बदला जाएगा:\n\n{list}{more}\n\nजारी रखें?");
    let c = crate::strings::hi_spec().prefix_confirm_body@;
    let s_hi = c;
    lemma_keys_token(c, 1);
    let k0 = c.subrange(1, 2);
    let c = c.subrange(3, c.len() as int);
    lemma_keys_skip(c, 28);
    let c = c.subrange(28, c.len() as int);
    lemma_keys_token(c, 4);
    let k1 = c.subrange(1, 5);
    let c = c.subrange(6, c.len() as int);
    lemma_keys_token(c, 4);
    let k2 = c.subrange(1, 5);
    let c = c.subrange(6, c.len() as int);
    lemma_keys_skip(c, c.len() as int);
    assert(c.subrange(c.len() as int, c.len() as int) =~= Seq::<char>::empty());
    assert(k0 =~= "n"@);
    assert(k1 =~= "list"@);
    assert(k2 =~= "more"@);
    assert(placeholder_keys(s_hi) =~= seq!["n"@, "list"@, "more"@]);
}

proof fn keys_prefix_confirm_more()
    ensures
        placeholder_keys(crate::strings::en_spec().prefix_confirm_more@) == seq!["n"@],
        placeholder_keys(crate::strings::es_spec().prefix_confirm_more@) == seq!["n"@],
        placeholder_keys(crate::strings::fil_spec().prefix_confirm_more@) == seq!["n"@],
        placeholder_keys(crate::strings::hi_spec().prefix_confirm_more@) == seq!["n"@],
{
    reveal_strlit("n");
    reveal_strlit("\n  … and {n} more");
    let c = crate::strings::en_spec().prefix_confirm_more@;
    let s_en = c;
    lemma_keys_skip(c, 9);
    let c = c.subrange(9, c.len() as int);
    lemma_keys_token(c, 1);
    let k0 = c.subrange(1, 2);
    let c = c.subrange(3, c.len() as int);
    lemma_keys_skip(c, c.len() as int);
    assert(c.subrange(c.len() as int, c.len() as int) =~= Seq::<char>::empty());
    assert(k0 =~= "n"@);
    assert(placeholder_keys(s_en) =~= seq!["n"@]);
    reveal_strlit("\n  … y {n} más");
    let c = crate::strings::es_spec().prefix_confirm_more@;
    let s_es = c;
    lemma_keys_skip(c, 7);
    let c = c.subrange(7, c.len() as int);
    lemma_keys_token(c, 1);
    let k0 = c.subrange(1, 2);
    let c = c.subrange(3, c.len() as int);
    lemma_keys_skip(c, c.len() as int);
    assert(c.subrange(c.len() as int, c.len() as int) =~= Seq::<char>::empty());
    assert(k0 =~= "n"@);
    assert(placeholder_keys(s_es) =~= seq!["n"@]);
    reveal_strlit("\n  … at {n} pa");
    let c = crate::strings::fil_spec().prefix_confirm_more@;
    let s_fil = c;
    lemma_keys_skip(c, 8);
    let c = c.subrange(8, c.len() as int);
    lemma_keys_token(c, 1);
    let k0 = c.subrange(1, 2);
    let c = c.subrange(3, c.len() as int);
    lemma_keys_skip(c, c.len() as int);
    assert(c.subrange(c.len() as int, c.len() as int) =~= Seq::<char>::empty());
    assert(k0 =~= "n"@);
    assert(placeholder_keys(s_fil) =~= seq!["n"@]);
    reveal_strlit("\n  … और {n} अधिक");
    let c = crate::strings::hi_spec().prefix_confirm_more@;
    let s_hi = c;
    lemma_keys_skip(c, 8);
    let c = c.subrange(8, c.len() as int);
    lemma_keys_token(c, 1);
    let k0 = c.subrange(1, 2);
    let c = c.subrange(3, c.len() as int);
    lemma_keys_skip(c, c.len() as int);
    assert(c.subrange(c.len() as int, c.len() as int) =~= Seq::<char>::empty());
    assert(k0 =~= "n"@);
    assert(placeholder_keys(s_hi) =~= seq!["n"@]);
}

proof fn keys_prefix_applied()
    ensures
        placeholder_keys(crate::strings::en_spec().prefix_applied@) == seq!["n"@],
        placeholder_keys(crate::strings::es_spec().prefix_applied@) == seq!["n"@],
        placeholder_keys(crate::strings::fil_spec().prefix_applied@) == seq!["n"@],
        placeholder_keys(crate::strings::hi_spec().prefix_applied@) == seq!["n"@],
{
    reveal_strlit("n");
    reveal_strlit("Updated the prefix of {n} expansion(s).");
    let c = crate::strings::en_spec().prefix_applied@;
    let s_en = c;
    lemma_keys_skip(c, 22);
    let c = c.subrange(22, c.len() as int);
    lemma_keys_token(c, 1);
    let k0 = c.subrange(1, 2);
    let c = c.subrange(3, c.len() as int);
    lemma_keys_skip(c, c.len() as int);
    assert(c.subrange(c.len() as int, c.len() as int) =~= Seq::<char>::empty());
    assert(k0 =~= "n"@);
    assert(placeholder_keys(s_en) =~= seq!["n"@]);
    reveal_strlit("Se actualizó el prefijo de {n} expansión(es).");
    let c = crate::strings::es_spec().prefix_applied@;
    let s_es = c;
    lemma_keys_skip(c, 27);
    let c = c.subrange(27, c.len() as int);
    lemma_keys_token(c, 1);
    let k0 = c.subrange(1, 2);
    let c = c.subrange(3, c.len() as int);
    lemma_keys_skip(c, c.len() as int);
    assert(c.subrange(c.len() as int, c.len() as int) =~= Seq::<char>::empty());
    assert(k0 =~= "n"@);
    assert(placeholder_keys(s_es) =~= seq!["n"@]);
    reveal_strlit("Na-update ang prefix ng {n} expansion.");
    let c = crate::strings::fil_spec().prefix_applied@;
    let s_fil = c;
    lemma_keys_skip(c, 24);
    let c = c.subrange(24, c.len() as int);
    lemma_keys_token(c, 1);
    let k0 = c.subrange(1, 2);
    let c = c.subrange(3, c.len() as int);
    lemma_keys_skip(c, c.len() as int);
    assert(c.subrange(c.len() as int, c.len() as int) =~= Seq::<char>::empty());
    assert(k0 =~= "n"@);
    assert(placeholder_keys(s_fil) =~= seq!["n"@]);
    reveal_strlit("{n} विस्तार का उपसर्ग अपडेट किया गया।");
    let c = crate::strings::hi_spec().prefix_applied@;
    let s_hi = c;
    lemma_keys_token(c, 1);
    let k0 = c.subrange(1, 2);
    let c = c.subrange(3, c.len() as int);
    lemma_keys_skip(c, c.len() as int);
    assert(c.subrange(c.len() as int, c.len() as int) =~= Seq::<char>::empty());
    assert(k0 =~= "n"@);
    assert(placeholder_keys(s_hi) =~= seq!["n"@]);
}

proof fn keys_delete_one_title()
    ensures
        placeholder_keys(crate::strings::en_spec().delete_one_title@) == Seq::<Seq<char>>::empty(),
        placeholder_keys(crate::strings::es_spec().delete_one_title@) == Seq::<Seq<char>>::empty(),
        placeholder_keys(crate::strings::fil_spec().delete_one_title@) == Seq::<Seq<char>>::empty(),
        placeholder_keys(crate::strings::hi_spec().delete_one_title@) == Seq::<Seq<char>>::empty(),
{
    reveal_strlit("Delete expansion");
    let c = crate::strings::en_spec().delete_one_title@;
    let s_en = c;
    lemma_keys_skip(c, c.len() as int);
    assert(c.subrange(c.len() as int, c.len() as int) =~= Seq::<char>::empty());
    assert(placeholder_keys(s_en) =~= Seq::<Seq<char>>::empty());
    reveal_strlit("Eliminar expansión");
    let c = crate::strings::es_spec().delete_one_title@;
    let s_es = c;
    lemma_keys_skip(c, c.len() as int);
    assert(c.subrange(c.len() as int, c.len() as int) =~= Seq::<char>::empty());
    assert(placeholder_keys(s_es) =~= Seq::<Seq<char>>::empty());
    reveal_strlit("Burahin ang expansion");
    let c = crate::strings::fil_spec().delete_one_title@;
    let s_fil = c;
    lemma_keys_skip(c, c.len() as int);
    assert(c.subrange(c.len() as int, c.len() as int) =~= Seq::<char>::empty());
    assert(placeholder_keys(s_fil) =~= Seq::<Seq<char>>::empty());
    reveal_strlit("विस्तार हटाएँ");
    let c = crate::strings::hi_spec().delete_one_title@;
    let s_hi = c;
    lemma_keys_skip(c, c.len() as int);
    assert(c.subrange(c.len() as int, c.len() as int) =~= Seq::<char>::empty());
    assert(placeholder_keys(s_hi) =~= Seq::<Seq<char>>::empty());
}

proof fn keys_delete_one_body()
    ensures
        placeholder_keys(crate::strings::en_spec().delete_one_body@) == seq!["name"@],
        placeholder_keys(crate::strings::es_spec().delete_one_body@) == seq!["name"@],
        placeholder_keys(crate::strings::fil_spec().delete_one_body@) == seq!["name"@],
        placeholder_keys(crate::strings::hi_spec().delete_one_body@) == seq!["name"@],
{
    reveal_strlit("name");
    reveal_strlit("Delete the expansion \"{name}\"? This cannot be undone.");
    let c = crate::strings::en_spec().delete_one_body@;
    let s_en = c;
    lemma_keys_skip(c, 22);
    let c = c.subrange(22, c.len() as int);
    lemma_keys_token(c, 4);
    let k0 = c.subrange(1, 5);
    let c = c.subrange(6, c.len() as int);
    lemma_keys_skip(c, c.len() as int);
    assert(c.subrange(c.len() as int, c.len() as int) =~= Seq::<char>::empty());
    assert(k0 =~= "name"@);
    assert(placeholder_keys(s_en) =~= seq!["name"@]);
    reveal_strlit("¿Eliminar la expansión \"{name}\"? Esta acción no se puede deshacer.");
    let c = crate::strings::es_spec().delete_one_body@;
    let s_es = c;
    lemma_keys_skip(c, 24);
    let c = c.subrange(24, c.len() as int);
    lemma_keys_token(c, 4);
    let k0 = c.subrange(1, 5);
    let c = c.subrange(6, c.len() as int);
    lemma_keys_skip(c, c.len() as int);
    assert(c.subrange(c.len() as int, c.len() as int) =~= Seq::<char>::empty());
    assert(k0 =~= "name"@);
    assert(placeholder_keys(s_es) =~= seq!["name"@]);
    reveal_strlit("Burahin ang expansion na \"{name}\"? Hindi ito maaaring bawiin.");
    let c = crate::strings::fil_spec().delete_one_body@;
    let s_fil = c;
    lemma_keys_skip(c, 26);
    let c = c.subrange(26, c.len() as int);
    lemma_keys_token(c, 4);
    let k0 = c.subrange(1, 5);
    let c = c.subrange(6, c.len() as int);
    lemma_keys_skip(c, c.len() as int);
    assert(c.subrange(c.len() as int, c.len() as int) =~= Seq::<char>::empty());
    assert(k0 =~= "name"@);
    assert(placeholder_keys(s_fil) =~= seq!["name"@]);
    reveal_strlit("क्या विस्तार \"{name}\" हटाना है? यह क्रिया पूर्ववत नहीं की जा सकती।");
    let c = crate::strings::hi_spec().delete_one_body@;
    let s_hi = c;
    lemma_keys_skip(c, 14);
    let c = c.subrange(14, c.len() as int);
    lemma_keys_token(c, 4);
    let k0 = c.subrange(1, 5);
    let c = c.subrange(6, c.len() as int);
    lemma_keys_skip(c, c.len() as int);
    assert(c.subrange(c.len() as int, c.len() as int) =~= Seq::<char>::empty());
    assert(k0 =~= "name"@);
    assert(placeholder_keys(s_hi) =~= seq!["name"@]);
}

proof fn keys_expansion_deleted()
    ensures
        placeholder_keys(crate::strings::en_spec().expansion_deleted@) == Seq::<Seq<char>>::empty(),
        placeholder_keys(crate::strings::es_spec().expansion_deleted@) == Seq::<Seq<char>>::empty(),
        placeholder_keys(crate::strings::fil_spec().expansion_deleted@) == Seq::<Seq<char>>::empty(),
        placeholder_keys(crate::strings::hi_spec().expansion_deleted@) == Seq::<Seq<char>>::empty(),
{
    reveal_strlit("Expansion deleted.");
    let c = crate::strings::en_spec().expansion_deleted@;
    let s_en = c;
    lemma_keys_skip(c, c.len() as int);
    assert(c.subrange(c.len() as int, c.len() as int) =~= Seq::<char>::empty());
    assert(placeholder_keys(s_en) =~= Seq::<Seq<char>>::empty());
    reveal_strlit("Expansión eliminada.");
    let c = crate::strings::es_spec().expansion_deleted@;
    let s_es = c;
    lemma_keys_skip(c, c.len() as int);
    assert(c.subrange(c.len() as int, c.len() as int) =~= Seq::<char>::empty());
    assert(placeholder_keys(s_es) =~= Seq::<Seq<char>>::empty());
    reveal_strlit("Nabura ang expansion.");
    let c = crate::strings::fil_spec().expansion_deleted@;
    let s_fil = c;
    lemma_keys_skip(c, c.len() as int);
    assert(c.subrange(c.len() as int, c.len() as int) =~= Seq::<char>::empty());
    assert(placeholder_keys(s_fil) =~= Seq::<Seq<char>>::empty());
    reveal_strlit("विस्तार हटा दिया गया।");
    let c = crate::strings::hi_spec().expansion_deleted@;
    let s_hi = c;
    lemma_keys_skip(c, c.len() as int);
    assert(c.subrange(c.len() as int, c.len() as int) =~= Seq::<char>::empty());
    assert(placeholder_keys(s_hi) =~= Seq::<Seq<char>>::empty());
}

proof fn keys_trigger_empty()
    ensures
        placeholder_keys(crate::strings::en_spec().trigger_empty@) == Seq::<Seq<char>>::empty(),
        placeholder_keys(crate::strings::es_spec().trigger_empty@) == Seq::<Seq<char>>::empty(),
        placeholder_keys(crate::strings::fil_spec().trigger_empty@) == Seq::<Seq<char>>::empty(),
        placeholder_keys(crate::strings::hi_spec().trigger_empty@) == Seq::<Seq<char>>::empty(),
{
    reveal_strlit("The trigger cannot be empty.");
    let c = crate::strings::en_spec().trigger_empty@;
    let s_en = c;
    lemma_keys_skip(c, c.len() as int);
    assert(c.subrange(c.len() as int, c.len() as int) =~= Seq::<char>::empty());
    assert(placeholder_keys(s_en) =~= Seq::<Seq<char>>::empty());
    reveal_strlit("El activador no puede estar vacío.");
    let c = crate::strings::es_spec().trigger_empty@;
    let s_es = c;
    lemma_keys_skip(c, c.len() as int);
    assert(c.subrange(c.len() as int, c.len() as int) =~= Seq::<char>::empty());
    assert(placeholder_keys(s_es) =~= Seq::<Seq<char>>::empty());
    reveal_strlit("Hindi maaaring walang laman ang trigger.");
    let c = crate::strings::fil_spec().trigger_empty@;
    let s_fil = c;
    lemma_keys_skip(c, c.len() as int);
    assert(c.subrange(c.len() as int, c.len() as int) =~= Seq::<char>::empty());
    assert(placeholder_keys(s_fil) =~= Seq::<Seq<char>>::empty());
    reveal_strlit("ट्रिगर खाली नहीं हो सकता।");
    let c = crate::strings::hi_spec().trigger_empty@;
    let s_hi = c;
    lemma_keys_skip(c, c.len() as int);
    assert(c.subrange(c.len() as int, c.len() as int) =~= Seq::<char>::empty());
    assert(placeholder_keys(s_hi) =~= Seq::<Seq<char>>::empty());
}

proof fn keys_trigger_duplicate()
    ensures
        placeholder_keys(crate::strings::en_spec().trigger_duplicate@) == seq!["name"@],
        placeholder_keys(crate::strings::es_spec().trigger_duplicate@) == seq!["name"@],
        placeholder_keys(crate::strings::fil_spec().trigger_duplicate@) == seq!["name"@],
        placeholder_keys(crate::strings::hi_spec().trigger_duplicate@) == seq!["name"@],
{
    reveal_strlit("name");
    reveal_strlit("Another expansion already uses the trigger \"{name}\".");
    let c = crate::strings::en_spec().trigger_duplicate@;
    let s_en = c;
    lemma_keys_skip(c, 44);
    let c = c.subrange(44, c.len() as int);
    lemma_keys_token(c, 4);
    let k0 = c.subrange(1, 5);
    let c = c.subrange(6, c.len() as int);
    lemma_keys_skip(c, c.len() as int);
    assert(c.subrange(c.len() as int, c.len() as int) =~= Seq::<char>::empty());
    assert(k0 =~= "name"@);
    assert(placeholder_keys(s_en) =~= seq!["name"@]);
    reveal_strlit("Ya existe otra expansión con el activador \"{name}\".");
    let c = crate::strings::es_spec().trigger_duplicate@;
    let s_es = c;
    lemma_keys_skip(c, 43);
    let c = c.subrange(43, c.len() as int);
    lemma_keys_token(c, 4);
    let k0 = c.subrange(1, 5);
    let c = c.subrange(6, c.len() as int);
    lemma_keys_skip(c, c.len() as int);
    assert(c.subrange(c.len() as int, c.len() as int) =~= Seq::<char>::empty());
    assert(k0 =~= "name"@);
    assert(placeholder_keys(s_es) =~= seq!["name"@]);
    reveal_strlit("May ibang expansion na gumagamit na ng trigger na \"{name}\".");
    let c = crate::strings::fil_spec().trigger_duplicate@;
    let s_fil = c;
    lemma_keys_skip(c, 51);
    let c = c.subrange(51, c.len() as int);
    lemma_keys_token(c, 4);
    let k0 = c.subrange(1, 5);
    let c = c.subrange(6, c.len() as int);
    lemma_keys_skip(c, c.len() as int);
    assert(c.subrange(c.len() as int, c.len() as int) =~= Seq::<char>::empty());
    assert(k0 =~= "name"@);
    assert(placeholder_keys(s_fil) =~= seq!["name"@]);
    reveal_strlit("ट्रिगर \"{name}\" का उपयोग पहले से ही कोई अन्य विस्तार कर रहा है।");
    let c = crate::strings::hi_spec().trigger_duplicate@;
    let s_hi = c;
    lemma_keys_skip(c, 8);
    let c = c.subrange(8, c.len() as int);
    lemma_keys_token(c, 4);
    let k0 = c.subrange(1, 5);
    let c = c.subrange(6, c.len() as int);
    lemma_keys_skip(c, c.len() as int);
    assert(c.subrange(c.len() as int, c.len() as int) =~= Seq::<char>::empty());
    assert(k0 =~= "name"@);
    assert(placeholder_keys(s_hi) =~= seq!["name"@]);
}

proof fn keys_trigger_shadow()
    ensures
        placeholder_keys(crate::strings::en_spec().trigger_shadow@) == seq!["short"@, "long"@],
        placeholder_keys(crate::strings::es_spec().trigger_shadow@) == seq!["short"@, "long"@],
        placeholder_keys(crate::strings::fil_spec().trigger_shadow@) == seq!["short"@, "long"@],
        placeholder_keys(crate::strings::hi_spec().trigger_shadow@) == seq!["short"@, "long"@],
{
    reveal_strlit("short");
    reveal_strlit("long");
    reveal_strlit("\"{short}\" fires the moment you type it, so \"{long}\" would never work.");
    let c = crate::strings::en_spec().trigger_shadow@;
    let s_en = c;
    lemma_keys_skip(c, 1);
    let c = c.subrange(1, c.len() as int);
    lemma_keys_token(c, 5);
    let k0 = c.subrange(1, 6);
    let c = c.subrange(7, c.len() as int);
    lemma_keys_skip(c, 36);
    let c = c.subrange(36, c.len() as int);
    lemma_keys_token(c, 4);
    let k1 = c.subrange(1, 5);
    let c = c.subrange(6, c.len() as int);
    lemma_keys_skip(c, c.len() as int);
    assert(c.subrange(c.len() as int, c.len() as int) =~= Seq::<char>::empty());
    assert(k0 =~= "short"@);
    assert(k1 =~= "long"@);
    assert(placeholder_keys(s_en) =~= seq!["short"@, "long"@]);
    reveal_strlit("\"{short}\" se activa apenas lo escribes, así que \"{long}\" nunca funcionaría.");
    let c = crate::strings::es_spec().trigger_shadow@;
    let s_es = c;
    lemma_keys_skip(c, 1);
    let c = c.subrange(1, c.len() as int);
    lemma_keys_token(c, 5);
    let k0 = c.subrange(1, 6);
    let c = c.subrange(7, c.len() as int);
    lemma_keys_skip(c, 41);
    let c = c.subrange(41, c.len() as int);
    lemma_keys_token(c, 4);
    let k1 = c.subrange(1, 5);
    let c = c.subrange(6, c.len() as int);
    lemma_keys_skip(c, c.len() as int);
    assert(c.subrange(c.len() as int, c.len() as int) =~= Seq::<char>::empty());
    assert(k0 =~= "short"@);
    assert(k1 =~= "long"@);
    assert(placeholder_keys(s_es) =~= seq!["short"@, "long"@]);
    reveal_strlit("Agad tumatakbo ang \"{short}\" pagkatapos mong i-type, kaya hindi kailanman gagana ang \"{long}\".");
    let c = crate::strings::fil_spec().trigger_shadow@;
    let s_fil = c;
    lemma_keys_skip(c, 20);
    let c = c.subrange(20, c.len() as int);
    lemma_keys_token(c, 5);
    let k0 = c.subrange(1, 6);
    let c = c.subrange(7, c.len() as int);
    lemma_keys_skip(c, 59);
    let c = c.subrange(59, c.len() as int);
    lemma_keys_token(c, 4);
    let k1 = c.subrange(1, 5);
    let c = c.subrange(6, c.len() as int);
    lemma_keys_skip(c, c.len() as int);
    assert(c.subrange(c.len() as int, c.len() as int) =~= Seq::<char>::empty());
    assert(k0 =~= "short"@);
    assert(k1 =~= "long"@);
    assert(placeholder_keys(s_fil) =~= seq!["short"@, "long"@]);
    reveal_strlit("\"{short}\" टाइप करते ही चल जाता है, इसलिए \"{long}\" कभी काम नहीं करेगा।");
    let c = crate::strings::hi_spec().trigger_shadow@;
    let s_hi = c;
    lemma_keys_skip(c, 1);
    let c = c.subrange(1, c.len() as int);
    lemma_keys_token(c, 5);
    let k0 = c.subrange(1, 6);
    let c = c.subrange(7, c.len() as int);
    lemma_keys_skip(c, 34);
    let c = c.subrange(34, c.len() as int);
    lemma_keys_token(c, 4);
    let k1 = c.subrange(1, 5);
    let c = c.subrange(6, c.len() as int);
    lemma_keys_skip(c, c.len() as int);
    assert(c.subrange(c.len() as int, c.len() as int) =~= Seq::<char>::empty());
    assert(k0 =~= "short"@);
    assert(k1 =~= "long"@);
    assert(placeholder_keys(s_hi) =~= seq!["short"@, "long"@]);
}

proof fn keys_expansion_saved()
    ensures
        placeholder_keys(crate::strings::en_spec().expansion_saved@) == Seq::<Seq<char>>::empty(),
        placeholder_keys(crate::strings::es_spec().expansion_saved@) == Seq::<Seq<char>>::empty(),
        placeholder_keys(crate::strings::fil_spec().expansion_saved@) == Seq::<Seq<char>>::empty(),
        placeholder_keys(crate::strings::hi_spec().expansion_saved@) == Seq::<Seq<char>>::empty(),
{
    reveal_strlit("Expansion saved.");
    let c = crate::strings::en_spec().expansion_saved@;
    let s_en = c;
    lemma_keys_skip(c, c.len() as int);
    assert(c.subrange(c.len() as int, c.len() as int) =~= Seq::<char>::empty());
    assert(placeholder_keys(s_en) =~= Seq::<Seq<char>>::empty());
    reveal_strlit("Expansión guardada.");
    let c = crate::strings::es_spec().expansion_saved@;
    let s_es = c;
    lemma_keys_skip(c, c.len() as int);
    assert(c.subrange(c.len() as int, c.len() as int) =~= Seq::<char>::empty());
    assert(placeholder_keys(s_es) =~= Seq::<Seq<char>>::empty());
    reveal_strlit("Na-save ang expansion.");
    let c = crate::strings::fil_spec().expansion_saved@;
    let s_fil = c;
    lemma_keys_skip(c, c.len() as int);
    assert(c.subrange(c.len() as int, c.len() as int) =~= Seq::<char>::empty());
    assert(placeholder_keys(s_fil) =~= Seq::<Seq<char>>::empty());
    reveal_strlit("विस्तार सहेजा गया।");
    let c = crate::strings::hi_spec().expansion_saved@;
    let s_hi = c;
    lemma_keys_skip(c, c.len() as int);
    assert(c.subrange(c.len() as int, c.len() as int) =~= Seq::<char>::empty());
    assert(placeholder_keys(s_hi) =~= Seq::<Seq<char>>::empty());
}

proof fn keys_folder_deleted()
    ensures
        placeholder_keys(crate::strings::en_spec().folder_deleted@) == seq!["name"@, "n"@],
        placeholder_keys(crate::strings::es_spec().folder_deleted@) == seq!["name"@, "n"@],
        placeholder_keys(crate::strings::fil_spec().folder_deleted@) == seq!["name"@, "n"@],
        placeholder_keys(crate::strings::hi_spec().folder_deleted@) == seq!["name"@, "n"@],
{
    reveal_strlit("name");
    reveal_strlit("n");
    reveal_strlit("Deleted the folder \"{name}\" and its {n} expansion(s).");
    let c = crate::strings::en_spec().folder_deleted@;
    let s_en = c;
    lemma_keys_skip(c, 20);
    let c = c.subrange(20, c.len() as int);
    lemma_keys_token(c, 4);
    let k0 = c.subrange(1, 5);
    let c = c.subrange(6, c.len() as int);
    lemma_keys_skip(c, 10);
    let c = c.subrange(10, c.len() as int);
    lemma_keys_token(c, 1);
    let k1 = c.subrange(1, 2);
    let c = c.subrange(3, c.len() as int);
    lemma_keys_skip(c, c.len() as int);
    assert(c.subrange(c.len() as int, c.len() as int) =~= Seq::<char>::empty());
    assert(k0 =~= "name"@);
    assert(k1 =~= "n"@);
    assert(placeholder_keys(s_en) =~= seq!["name"@, "n"@]);
    reveal_strlit("Se eliminó la carpeta \"{name}\" y sus {n} expansión(es).");
    let c = crate::strings::es_spec().folder_deleted@;
    let s_es = c;
    lemma_keys_skip(c, 23);
    let c = c.subrange(23, c.len() as int);
    lemma_keys_token(c, 4);
    let k0 = c.subrange(1, 5);
    let c = c.subrange(6, c.len() as int);
    lemma_keys_skip(c, 8);
    let c = c.subrange(8, c.len() as int);
    lemma_keys_token(c, 1);
    let k1 = c.subrange(1, 2);
    let c = c.subrange(3, c.len() as int);
    lemma_keys_skip(c, c.len() as int);
    assert(c.subrange(c.len() as int, c.len() as int) =~= Seq::<char>::empty());
    assert(k0 =~= "name"@);
    assert(k1 =~= "n"@);
    assert(placeholder_keys(s_es) =~= seq!["name"@, "n"@]);
    reveal_strlit("Nabura ang folder na \"{name}\" at ang {n} expansion nito.");
    let c = crate::strings::fil_spec().folder_deleted@;
    let s_fil = c;
    lemma_keys_skip(c, 22);
    let c = c.subrange(22, c.len() as int);
    lemma_keys_token(c, 4);
    let k0 = c.subrange(1, 5);
    let c = c.subrange(6, c.len() as int);
    lemma_keys_skip(c, 9);
    let c = c.subrange(9, c.len() as int);
    lemma_keys_token(c, 1);
    let k1 = c.subrange(1, 2);
    let c = c.subrange(3, c.len() as int);
    lemma_keys_skip(c, c.len() as int);
    assert(c.subrange(c.len() as int, c.len() as int) =~= Seq::<char>::empty());
    assert(k0 =~= "name"@);
    assert(k1 =~= "n"@);
    assert(placeholder_keys(s_fil) =~= seq!["name"@, "n"@]);
    reveal_strlit("फ़ोल्डर \"{name}\" और उसके {n} विस्तार हटा दिए गए।");
    let c = crate::strings::hi_spec().folder_deleted@;
    let s_hi = c;
    lemma_keys_skip(c, 9);
    let c = c.subrange(9, c.len() as int);
    lemma_keys_token(c, 4);
    let k0 = c.subrange(1, 5);
    let c = c.subrange(6, c.len() as int);
    lemma_keys_skip(c, 10);
    let c = c.subrange(10, c.len() as int);
    lemma_keys_token(c, 1);
    let k1 = c.subrange(1, 2);
    let c = c.subrange(3, c.len() as int);
    lemma_keys_skip(c, c.len() as int);
    assert(c.subrange(c.len() as int, c.len() as int) =~= Seq::<char>::empty());
    assert(k0 =~= "name"@);
    assert(k1 =~= "n"@);
    assert(placeholder_keys(s_hi) =~= seq!["name"@, "n"@]);
}

proof fn keys_selection_deleted()
    ensures
        placeholder_keys(crate::strings::en_spec().selection_deleted@) == seq!["n"@],
        placeholder_keys(crate::strings::es_spec().selection_deleted@) == seq!["n"@],
        placeholder_keys(crate::strings::fil_spec().selection_deleted@) == seq!["n"@],
        placeholder_keys(crate::strings::hi_spec().selection_deleted@) == seq!["n"@],
{
    reveal_strlit("n");
    reveal_strlit("Deleted {n} expansion(s).");
    let c = crate::strings::en_spec().selection_deleted@;
    let s_en = c;
    lemma_keys_skip(c, 8);
    let c = c.subrange(8, c.len() as int);
    lemma_keys_token(c, 1);
    let k0 = c.subrange(1, 2);
    let c = c.subrange(3, c.len() as int);
    lemma_keys_skip(c, c.len() as int);
    assert(c.subrange(c.len() as int, c.len() as int) =~= Seq::<char>::empty());
    assert(k0 =~= "n"@);
    assert(placeholder_keys(s_en) =~= seq!["n"@]);
    reveal_strlit("Se eliminaron {n} expansión(es).");
    let c = crate::strings::es_spec().selection_deleted@;
    let s_es = c;
    lemma_keys_skip(c, 14);
    let c = c.subrange(14, c.len() as int);
    lemma_keys_token(c, 1);
    let k0 = c.subrange(1, 2);
    let c = c.subrange(3, c.len() as int);
    lemma_keys_skip(c, c.len() as int);
    assert(c.subrange(c.len() as int, c.len() as int) =~= Seq::<char>::empty());
    assert(k0 =~= "n"@);
    assert(placeholder_keys(s_es) =~= seq!["n"@]);
    reveal_strlit("Nabura ang {n} expansion.");
    let c = crate::strings::fil_spec().selection_deleted@;
    let s_fil = c;
    lemma_keys_skip(c, 11);
    let c = c.subrange(11, c.len() as int);
    lemma_keys_token(c, 1);
    let k0 = c.subrange(1, 2);
    let c = c.subrange(3, c.len() as int);
    lemma_keys_skip(c, c.len() as int);
    assert(c.subrange(c.len() as int, c.len() as int) =~= Seq::<char>::empty());
    assert(k0 =~= "n"@);
    assert(placeholder_keys(s_fil) =~= seq!["n"@]);
    reveal_strlit("{n} विस्तार हटा दिए गए।");
    let c = crate::strings::hi_spec().selection_deleted@;
    let s_hi = c;
    lemma_keys_token(c, 1);
    let k0 = c.subrange(1, 2);
    let c = c.subrange(3, c.len() as int);
    lemma_keys_skip(c, c.len() as int);
    assert(c.subrange(c.len() as int, c.len() as int) =~= Seq::<char>::empty());
    assert(k0 =~= "n"@);
    assert(placeholder_keys(s_hi) =~= seq!["n"@]);
}

proof fn keys_folder_name_taken()
    ensures
        placeholder_keys(crate::strings::en_spec().folder_name_taken@) == seq!["name"@],
        placeholder_keys(crate::strings::es_spec().folder_name_taken@) == seq!["name"@],
        placeholder_keys(crate::strings::fil_spec().folder_name_taken@) == seq!["name"@],
        placeholder_keys(crate::strings::hi_spec().folder_name_taken@) == seq!["name"@],
{
    reveal_strlit("name");
    reveal_strlit("A folder named \"{name}\" already exists.");
    let c = crate::strings::en_spec().folder_name_taken@;
    let s_en = c;
    lemma_keys_skip(c, 16);
    let c = c.subrange(16, c.len() as int);
    lemma_keys_token(c, 4);
    let k0 = c.subrange(1, 5);
    let c = c.subrange(6, c.len() as int);
    lemma_keys_skip(c, c.len() as int);
    assert(c.subrange(c.len() as int, c.len() as int) =~= Seq::<char>::empty());
    assert(k0 =~= "name"@);
    assert(placeholder_keys(s_en) =~= seq!["name"@]);
    reveal_strlit("Ya existe una carpeta llamada \"{name}\".");
    let c = crate::strings::es_spec().folder_name_taken@;
    let s_es = c;
    lemma_keys_skip(c, 31);
    let c = c.subrange(31, c.len() as int);
    lemma_keys_token(c, 4);
    let k0 = c.subrange(1, 5);
    let c = c.subrange(6, c.len() as int);
    lemma_keys_skip(c, c.len() as int);
    assert(c.subrange(c.len() as int, c.len() as int) =~= Seq::<char>::empty());
    assert(k0 =~= "name"@);
    assert(placeholder_keys(s_es) =~= seq!["name"@]);
    reveal_strlit("May folder nang pinangalanang \"{name}\".");
    let c = crate::strings::fil_spec().folder_name_taken@;
    let s_fil = c;
    lemma_keys_skip(c, 31);
    let c = c.subrange(31, c.len() as int);
    lemma_keys_token(c, 4);
    let k0 = c.subrange(1, 5);
    let c = c.subrange(6, c.len() as int);
    lemma_keys_skip(c, c.len() as int);
    assert(c.subrange(c.len() as int, c.len() as int) =~= Seq::<char>::empty());
    assert(k0 =~= "name"@);
    assert(placeholder_keys(s_fil) =~= seq!["name"@]);
    reveal_strlit("\"{name}\" नाम का फ़ोल्डर पहले से मौजूद है।");
    let c = crate::strings::hi_spec().folder_name_taken@;
    let s_hi = c;
    lemma_keys_skip(c, 1);
    let c = c.subrange(1, c.len() as int);
    lemma_keys_token(c, 4);
    let k0 = c.subrange(1, 5);
    let c = c.subrange(6, c.len() as int);
    lemma_keys_skip(c, c.len() as int);
    assert(c.subrange(c.len() as int, c.len() as int) =~= Seq::<char>::empty());
    assert(k0 =~= "name"@);
    assert(placeholder_keys(s_hi) =~= seq!["name"@]);
}

proof fn keys_folder_renamed()
    ensures
        placeholder_keys(crate::strings::en_spec().folder_renamed@) == seq!["name"@],
        placeholder_keys(crate::strings::es_spec().folder_renamed@) == seq!["name"@],
        placeholder_keys(crate::strings::fil_spec().folder_renamed@) == seq!["name"@],
        placeholder_keys(crate::strings::hi_spec().folder_renamed@) == seq!["name"@],
{
    reveal_strlit("name");
    reveal_strlit("Folder renamed to \"{name}\".");
    let c = crate::strings::en_spec().folder_renamed@;
    let s_en = c;
    lemma_keys_skip(c, 19);
    let c = c.subrange(19, c.len() as int);
    lemma_keys_token(c, 4);
    let k0 = c.subrange(1, 5);
    let c = c.subrange(6, c.len() as int);
    lemma_keys_skip(c, c.len() as int);
    assert(c.subrange(c.len() as int, c.len() as int) =~= Seq::<char>::empty());
    assert(k0 =~= "name"@);
    assert(placeholder_keys(s_en) =~= seq!["name"@]);
    reveal_strlit("Carpeta renombrada a \"{name}\".");
    let c = crate::strings::es_spec().folder_renamed@;
    let s_es = c;
    lemma_keys_skip(c, 22);
    let c = c.subrange(22, c.len() as int);
    lemma_keys_token(c, 4);
    let k0 = c.subrange(1, 5);
    let c = c.subrange(6, c.len() as int);
    lemma_keys_skip(c, c.len() as int);
    assert(c.subrange(c.len() as int, c.len() as int) =~= Seq::<char>::empty());
    assert(k0 =~= "name"@);
    assert(placeholder_keys(s_es) =~= seq!["name"@]);
    reveal_strlit("Pinalitan ang pangalan ng folder tungong \"{name}\".");
    let c = crate::strings::fil_spec().folder_renamed@;
    let s_fil = c;
    lemma_keys_skip(c, 42);
    let c = c.subrange(42, c.len() as int);
    lemma_keys_token(c, 4);
    let k0 = c.subrange(1, 5);
    let c = c.subrange(6, c.len() as int);
    lemma_keys_skip(c, c.len() as int);
    assert(c.subrange(c.len() as int, c.len() as int) =~= Seq::<char>::empty());
    assert(k0 =~= "name"@);
    assert(placeholder_keys(s_fil) =~= seq!["name"@]);
    reveal_strlit("फ़ोल्डर का नाम बदलकर \"{name}\" कर दिया गया।");
    let c = crate::strings::hi_spec().folder_renamed@;
    let s_hi = c;
    lemma_keys_skip(c, 22);
    let c = c.subrange(22, c.len() as int);
    lemma_keys_token(c, 4);
    let k0 = c.subrange(1, 5);
    let c = c.subrange(6, c.len() as int);
    lemma_keys_skip(c, c.len() as int);
    assert(c.subrange(c.len() as int, c.len() as int) =~= Seq::<char>::empty());
    assert(k0 =~= "name"@);
    assert(placeholder_keys(s_hi) =~= seq!["name"@]);
}

proof fn keys_moved_to_folder()
    ensures
        placeholder_keys(crate::strings::en_spec().moved_to_folder@) == seq!["n"@, "name"@],
        placeholder_keys(crate::strings::es_spec().moved_to_folder@) == seq!["n"@, "name"@],
        placeholder_keys(crate::strings::fil_spec().moved_to_folder@) == seq!["n"@, "name"@],
        placeholder_keys(crate::strings::hi_spec().moved_to_folder@) == seq!["n"@, "name"@],
{
    reveal_strlit("n");
    reveal_strlit("name");
    reveal_strlit("{n} expansion(s) moved to \"{name}\".");
    let c = crate::strings::en_spec().moved_to_folder@;
    let s_en = c;
    lemma_keys_token(c, 1);
    let k0 = c.subrange(1, 2);
    let c = c.subrange(3, c.len() as int);
    lemma_keys_skip(c, 24);
    let c = c.subrange(24, c.len() as int);
    lemma_keys_token(c, 4);
    let k1 = c.subrange(1, 5);
    let c = c.subrange(6, c.len() as int);
    lemma_keys_skip(c, c.len() as int);
    assert(c.subrange(c.len() as int, c.len() as int) =~= Seq::<char>::empty());
    assert(k0 =~= "n"@);
    assert(k1 =~= "name"@);
    assert(placeholder_keys(s_en) =~= seq!["n"@, "name"@]);
    reveal_strlit("{n} expansión(es) movida(s) a \"{name}\".");
    let c = crate::strings::es_spec().moved_to_folder@;
    let s_es = c;
    lemma_keys_token(c, 1);
    let k0 = c.subrange(1, 2);
    let c = c.subrange(3, c.len() as int);
    lemma_keys_skip(c, 28);
    let c = c.subrange(28, c.len() as int);
    lemma_keys_token(c, 4);
    let k1 = c.subrange(1, 5);
    let c = c.subrange(6, c.len() as int);
    lemma_keys_skip(c, c.len() as int);
    assert(c.subrange(c.len() as int, c.len() as int) =~= Seq::<char>::empty());
    assert(k0 =~= "n"@);
    assert(k1 =~= "name"@);
    assert(placeholder_keys(s_es) =~= seq!["n"@, "name"@]);
    reveal_strlit("{n} expansion ang inilipat sa \"{name}\".");
    let c = crate::strings::fil_spec().moved_to_folder@;
    let s_fil = c;
    lemma_keys_token(c, 1);
    let k0 = c.subrange(1, 2);
    let c = c.subrange(3, c.len() as int);
    lemma_keys_skip(c, 28);
    let c = c.subrange(28, c.len() as int);
    lemma_keys_token(c, 4);
    let k1 = c.subrange(1, 5);
    let c = c.subrange(6, c.len() as int);
    lemma_keys_skip(c, c.len() as int);
    assert(c.subrange(c.len() as int, c.len() as int) =~= Seq::<char>::empty());
    assert(k0 =~= "n"@);
    assert(k1 =~= "name"@);
    assert(placeholder_keys(s_fil) =~= seq!["n"@, "name"@]);
    reveal_strlit("{n} विस्तार \"{name}\" में ले जाए गए।");
    let c = crate::strings::hi_spec().moved_to_folder@;
    let s_hi = c;
    lemma_keys_token(c, 1);
    let k0 = c.subrange(1, 2);
    let c = c.subrange(3, c.len() as int);
    lemma_keys_skip(c, 10);
    let c = c.subrange(10, c.len() as int);
    lemma_keys_token(c, 4);
    let k1 = c.subrange(1, 5);
    let c = c.subrange(6, c.len() as int);
    lemma_keys_skip(c, c.len() as int);
    assert(c.subrange(c.len() as int, c.len() as int) =~= Seq::<char>::empty());
    assert(k0 =~= "n"@);
    assert(k1 =~= "name"@);
    assert(placeholder_keys(s_hi) =~= seq!["n"@, "name"@]);
}

proof fn keys_removed_from_folder()
    ensures
        placeholder_keys(crate::strings::en_spec().removed_from_folder@) == seq!["n"@],
        placeholder_keys(crate::strings::es_spec().removed_from_folder@) == seq!["n"@],
        placeholder_keys(crate::strings::fil_spec().removed_from_folder@) == seq!["n"@],
        placeholder_keys(crate::strings::hi_spec().removed_from_folder@) == seq!["n"@],
{
    reveal_strlit("n");
    reveal_strlit("{n} expansion(s) taken out of their folder.");
    let c = crate::strings::en_spec().removed_from_folder@;
    let s_en = c;
    lemma_keys_token(c, 1);
    let k0 = c.subrange(1, 2);
    let c = c.subrange(3, c.len() as int);
    lemma_keys_skip(c, c.len() as int);
    assert(c.subrange(c.len() as int, c.len() as int) =~= Seq::<char>::empty());
    assert(k0 =~= "n"@);
    assert(placeholder_keys(s_en) =~= seq!["n"@]);
    reveal_strlit("{n} expansión(es) quitada(s) de su carpeta.");
    let c = crate::strings::es_spec().removed_from_folder@;
    let s_es = c;
    lemma_keys_token(c, 1);
    let k0 = c.subrange(1, 2);
    let c = c.subrange(3, c.len() as int);
    lemma_keys_skip(c, c.len() as int);
    assert(c.subrange(c.len() as int, c.len() as int) =~= Seq::<char>::empty());
    assert(k0 =~= "n"@);
    assert(placeholder_keys(s_es) =~= seq!["n"@]);
    reveal_strlit("{n} expansion ang inilabas sa kanilang folder.");
    let c = crate::strings::fil_spec().removed_from_folder@;
    let s_fil = c;
    lemma_keys_token(c, 1);
    let k0 = c.subrange(1, 2);
    let c = c.subrange(3, c.len() as int);
    lemma_keys_skip(c, c.len() as int);
    assert(c.subrange(c.len() as int, c.len() as int) =~= Seq::<char>::empty());
    assert(k0 =~= "n"@);
    assert(placeholder_keys(s_fil) =~= seq!["n"@]);
    reveal_strlit("{n} विस्तार उनके फ़ोल्डर से बाहर निकाले गए।");
    let c = crate::strings::hi_spec().removed_from_folder@;
    let s_hi = c;
    lemma_keys_token(c, 1);
    let k0 = c.subrange(1, 2);
    let c = c.subrange(3, c.len() as int);
    lemma_keys_skip(c, c.len() as int);
    assert(c.subrange(c.len() as int, c.len() as int) =~= Seq::<char>::empty());
    assert(k0 =~= "n"@);
    assert(placeholder_keys(s_hi) =~= seq!["n"@]);
}

proof fn keys_preview_date()
    ensures
        placeholder_keys(crate::strings::en_spec().preview_date@) == seq!["example"@],
        placeholder_keys(crate::strings::es_spec().preview_date@) == seq!["example"@],
        placeholder_keys(crate::strings::fil_spec().preview_date@) == seq!["example"@],
        placeholder_keys(crate::strings::hi_spec().preview_date@) == seq!["example"@],
{
    reveal_strlit("example");
    reveal_strlit("Date/time — e.g. {example}");
    let c = crate::strings::en_spec().preview_date@;
    let s_en = c;
    lemma_keys_skip(c, 17);
    let c = c.subrange(17, c.len() as int);
    lemma_keys_token(c, 7);
    let k0 = c.subrange(1, 8);
    let c = c.subrange(9, c.len() as int);
    lemma_keys_skip(c, c.len() as int);
    assert(c.subrange(c.len() as int, c.len() as int) =~= Seq::<char>::empty());
    assert(k0 =~= "example"@);
    assert(placeholder_keys(s_en) =~= seq!["example"@]);
    reveal_strlit("Fecha/hora — ej. {example}");
    let c = crate::strings::es_spec().preview_date@;
    let s_es = c;
    lemma_keys_skip(c, 17);
    let c = c.subrange(17, c.len() as int);
    lemma_keys_token(c, 7);
    let k0 = c.subrange(1, 8);
    let c = c.subrange(9, c.len() as int);
    lemma_keys_skip(c, c.len() as int);
    assert(c.subrange(c.len() as int, c.len() as int) =~= Seq::<char>::empty());
    assert(k0 =~= "example"@);
    assert(placeholder_keys(s_es) =~= seq!["example"@]);
    reveal_strlit("Petsa/oras — hal. {example}");
    let c = crate::strings::fil_spec().preview_date@;
    let s_fil = c;
    lemma_keys_skip(c, 18);
    let c = c.subrange(18, c.len() as int);
    lemma_keys_token(c, 7);
    let k0 = c.subrange(1, 8);
    let c = c.subrange(9, c.len() as int);
    lemma_keys_skip(c, c.len() as int);
    assert(c.subrange(c.len() as int, c.len() as int) =~= Seq::<char>::empty());
    assert(k0 =~= "example"@);
    assert(placeholder_keys(s_fil) =~= seq!["example"@]);
    reveal_strlit("दिनांक/समय — जैसे {example}");
    let c = crate::strings::hi_spec().preview_date@;
    let s_hi = c;
    lemma_keys_skip(c, 18);
    let c = c.subrange(18, c.len() as int);
    lemma_keys_token(c, 7);
    let k0 = c.subrange(1, 8);
    let c = c.subrange(9, c.len() as int);
    lemma_keys_skip(c, c.len() as int);
    assert(c.subrange(c.len() as int, c.len() as int) =~= Seq::<char>::empty());
    assert(k0 =~= "example"@);
    assert(placeholder_keys(s_hi) =~= seq!["example"@]);
}

proof fn keys_preview_advanced_vars()
    ensures
        placeholder_keys(crate::strings::en_spec().preview_advanced_vars@) == Seq::<Seq<char>>::empty(),
        placeholder_keys(crate::strings::es_spec().preview_advanced_vars@) == Seq::<Seq<char>>::empty(),
        placeholder_keys(crate::strings::fil_spec().preview_advanced_vars@) == Seq::<Seq<char>>::empty(),
        placeholder_keys(crate::strings::hi_spec().preview_advanced_vars@) == Seq::<Seq<char>>::empty(),
{
    reveal_strlit("Advanced (uses special variables) — edit it in the .yml file");
    let c = crate::strings::en_spec().preview_advanced_vars@;
    let s_en = c;
    lemma_keys_skip(c, c.len() as int);
    assert(c.subrange(c.len() as int, c.len() as int) =~= Seq::<char>::empty());
    assert(placeholder_keys(s_en) =~= Seq::<Seq<char>>::empty());
    reveal_strlit("Avanzado (usa variables especiales) — edítalo en el archivo .yml");
    let c = crate::strings::es_spec().preview_advanced_vars@;
    let s_es = c;
    lemma_keys_skip(c, c.len() as int);
    assert(c.subrange(c.len() as int, c.len() as int) =~= Seq::<char>::empty());
    assert(placeholder_keys(s_es) =~= Seq::<Seq<char>>::empty());
    reveal_strlit("Advanced (gumagamit ng espesyal na variable) — i-edit ito sa .yml file");
    let c = crate::strings::fil_spec().preview_advanced_vars@;
    let s_fil = c;
    lemma_keys_skip(c, c.len() as int);
    assert(c.subrange(c.len() as int, c.len() as int) =~= Seq::<char>::empty());
    assert(placeholder_keys(s_fil) =~= Seq::<Seq<char>>::empty());
    reveal_strlit("उन्नत (विशेष वेरिएबल का उपयोग करता है) — इसे .yml फ़ाइल में संपादित करें");
    let c = crate::strings::hi_spec().preview_advanced_vars@;
    let s_hi = c;
    lemma_keys_skip(c, c.len() as int);
    assert(c.subrange(c.len() as int, c.len() as int) =~= Seq::<char>::empty());
    assert(placeholder_keys(s_hi) =~= Seq::<Seq<char>>::empty());
}

proof fn keys_preview_advanced()
    ensures
        placeholder_keys(crate::strings::en_spec().preview_advanced@) == Seq::<Seq<char>>::empty(),
        placeholder_keys(crate::strings::es_spec().preview_advanced@) == Seq::<Seq<char>>::empty(),
        placeholder_keys(crate::strings::fil_spec().preview_advanced@) == Seq::<Seq<char>>::empty(),
        placeholder_keys(crate::strings::hi_spec().preview_advanced@) == Seq::<Seq<char>>::empty(),
{
    reveal_strlit("Advanced — edit it in the .yml file");
    let c = crate::strings::en_spec().preview_advanced@;
    let s_en = c;
    lemma_keys_skip(c, c.len() as int);
    assert(c.subrange(c.len() as int, c.len() as int) =~= Seq::<char>::empty());
    assert(placeholder_keys(s_en) =~= Seq::<Seq<char>>::empty());
    reveal_strlit("Avanzado — edítalo en el archivo .yml");
    let c = crate::strings::es_spec().preview_advanced@;
    let s_es = c;
    lemma_keys_skip(c, c.len() as int);
    assert(c.subrange(c.len() as int, c.len() as int) =~= Seq::<char>::empty());
    assert(placeholder_keys(s_es) =~= Seq::<Seq<char>>::empty());
    reveal_strlit("Advanced — i-edit ito sa .yml file");
    let c = crate::strings::fil_spec().preview_advanced@;
    let s_fil = c;
    lemma_keys_skip(c, c.len() as int);
    assert(c.subrange(c.len() as int, c.len() as int) =~= Seq::<char>::empty());
    assert(placeholder_keys(s_fil) =~= Seq::<Seq<char>>::empty());
    reveal_strlit("उन्नत — इसे .yml फ़ाइल में संपादित करें");
    let c = crate::strings::hi_spec().preview_advanced@;
    let s_hi = c;
    lemma_keys_skip(c, c.len() as int);
    assert(c.subrange(c.len() as int, c.len() as int) =~= Seq::<char>::empty());
    assert(placeholder_keys(s_hi) =~= Seq::<Seq<char>>::empty());
}

proof fn keys_err_read_file()
    ensures
        placeholder_keys(crate::strings::en_spec().err_read_file@) == seq!["err"@],
        placeholder_keys(crate::strings::es_spec().err_read_file@) == seq!["err"@],
        placeholder_keys(crate::strings::fil_spec().err_read_file@) == seq!["err"@],
        placeholder_keys(crate::strings::hi_spec().err_read_file@) == seq!["err"@],
{
    reveal_strlit("err");
    reveal_strlit("Could not read the expansions file: {err}");
    let c = crate::strings::en_spec().err_read_file@;
    let s_en = c;
    lemma_keys_skip(c, 36);
    let c = c.subrange(36, c.len() as int);
    lemma_keys_token(c, 3);
    let k0 = c.subrange(1, 4);
    let c = c.subrange(5, c.len() as int);
    lemma_keys_skip(c, c.len() as int);
    assert(c.subrange(c.len() as int, c.len() as int) =~= Seq::<char>::empty());
    assert(k0 =~= "err"@);
    assert(placeholder_keys(s_en) =~= seq!["err"@]);
    reveal_strlit("No se pudo leer el archivo de expansiones: {err}");
    let c = crate::strings::es_spec().err_read_file@;
    let s_es = c;
    lemma_keys_skip(c, 43);
    let c = c.subrange(43, c.len() as int);
    lemma_keys_token(c, 3);
    let k0 = c.subrange(1, 4);
    let c = c.subrange(5, c.len() as int);
    lemma_keys_skip(c, c.len() as int);
    assert(c.subrange(c.len() as int, c.len() as int) =~= Seq::<char>::empty());
    assert(k0 =~= "err"@);
    assert(placeholder_keys(s_es) =~= seq!["err"@]);
    reveal_strlit("Hindi mabasa ang file ng mga expansion: {err}");
    let c = crate::strings::fil_spec().err_read_file@;
    let s_fil = c;
    lemma_keys_skip(c, 40);
    let c = c.subrange(40, c.len() as int);
    lemma_keys_token(c, 3);
    let k0 = c.subrange(1, 4);
    let c = c.subrange(5, c.len() as int);
    lemma_keys_skip(c, c.len() as int);
    assert(c.subrange(c.len() as int, c.len() as int) =~= Seq::<char>::empty());
    assert(k0 =~= "err"@);
    assert(placeholder_keys(s_fil) =~= seq!["err"@]);
    reveal_strlit("विस्तार फ़ाइल पढ़ी नहीं जा सकी: {err}");
    let c = crate::strings::hi_spec().err_read_file@;
    let s_hi = c;
    lemma_keys_skip(c, 32);
    let c = c.subrange(32, c.len() as int);
    lemma_keys_token(c, 3);
    let k0 = c.subrange(1, 4);
    let c = c.subrange(5, c.len() as int);
    lemma_keys_skip(c, c.len() as int);
    assert(c.subrange(c.len() as int, c.len() as int) =~= Seq::<char>::empty());
    assert(k0 =~= "err"@);
    assert(placeholder_keys(s_hi) =~= seq!["err"@]);
}

proof fn keys_err_parse_yaml()
    ensures
        placeholder_keys(crate::strings::en_spec().err_parse_yaml@) == seq!["err"@],
        placeholder_keys(crate::strings::es_spec().err_parse_yaml@) == seq!["err"@],
        placeholder_keys(crate::strings::fil_spec().err_parse_yaml@) == seq!["err"@],
        placeholder_keys(crate::strings::hi_spec().err_parse_yaml@) == seq!["err"@],
{
    reveal_strlit("err");
    reveal_strlit("The expansions file (base.yml) has a YAML formatting error and could not be read:\n{err}\n\nEspanso will not be able to use it either until it is fixed. You can open it with a text editor to correct it by hand.");
    let c = crate::strings::en_spec().err_parse_yaml@;
    let s_en = c;
    lemma_keys_skip(c, 82);
    let c = c.subrange(82, c.len() as int);
    lemma_keys_token(c, 3);
    let k0 = c.subrange(1, 4);
    let c = c.subrange(5, c.len() as int);
    lemma_keys_skip(c, c.len() as int);
    assert(c.subrange(c.len() as int, c.len() as int) =~= Seq::<char>::empty());
    assert(k0 =~= "err"@);
    assert(placeholder_keys(s_en) =~= seq!["err"@]);
    reveal_strlit("El archivo de expansiones (base.yml) tiene un error de formato YAML y no se pudo leer:\n{err}\n\nEspanso tampoco podrá usarlo hasta que se corrija. Puedes abrirlo con un editor de texto para corregirlo a mano.");
    let c = crate::strings::es_spec().err_parse_yaml@;
    let s_es = c;
    lemma_keys_skip(c, 87);
    let c = c.subrange(87, c.len() as int);
    lemma_keys_token(c, 3);
    let k0 = c.subrange(1, 4);
    let c = c.subrange(5, c.len() as int);
    lemma_keys_skip(c, c.len() as int);
    assert(c.subrange(c.len() as int, c.len() as int) =~= Seq::<char>::empty());
    assert(k0 =~= "err"@);
    assert(placeholder_keys(s_es) =~= seq!["err"@]);
    reveal_strlit("May maling YAML format ang file ng mga expansion (base.yml) kaya hindi ito mabasa:\n{err}\n\nHindi rin ito magagamit ng Espanso hangga't hindi naaayos. Maaari mo itong buksan sa isang text editor para ayusin nang manu-mano.");
    let c = crate::strings::fil_spec().err_parse_yaml@;
    let s_fil = c;
    lemma_keys_skip(c, 83);
    let c = c.subrange(83, c.len() as int);
    lemma_keys_token(c, 3);
    let k0 = c.subrange(1, 4);
    let c = c.subrange(5, c.len() as int);
    lemma_keys_skip(c, c.len() as int);
    assert(c.subrange(c.len() as int, c.len() as int) =~= Seq::<char>::empty());
    assert(k0 =~= "err"@);
    assert(placeholder_keys(s_fil) =~= seq!["err"@]);
    reveal_strlit("विस्तार फ़ाइल (base.yml) में YAML प्रारूप त्रुटि है और इसे पढ़ा नहीं जा सका:\n{err}\n\nजब तक इसे ठीक नहीं किया जाता, Espanso भी इसका उपयोग नहीं कर पाएगा। आप इसे टेक्स्ट एडिटर में खोलकर स्वयं ठीक कर सकते हैं।");
    let c = crate::strings::hi_spec().err_parse_yaml@;
    let s_hi = c;
    lemma_keys_skip(c, 77);
    let c = c.subrange(77, c.len() as int);
    lemma_keys_token(c, 3);
    let k0 = c.subrange(1, 4);
    let c = c.subrange(5, c.len() as int);
    lemma_keys_skip(c, c.len() as int);
    assert(c.subrange(c.len() as int, c.len() as int) =~= Seq::<char>::empty());
    assert(k0 =~= "err"@);
    assert(placeholder_keys(s_hi) =~= seq!["err"@]);
}

proof fn keys_err_self_check()
    ensures
        placeholder_keys(crate::strings::en_spec().err_self_check@) == seq!["err"@],
        placeholder_keys(crate::strings::es_spec().err_self_check@) == seq!["err"@],
        placeholder_keys(crate::strings::fil_spec().err_self_check@) == seq!["err"@],
        placeholder_keys(crate::strings::hi_spec().err_self_check@) == seq!["err"@],
{
    reveal_strlit("err");
    reveal_strlit("EspansoManager produced a file it could not read back, so nothing was saved in order to protect your existing expansions. Technical detail: {err}");
    let c = crate::strings::en_spec().err_self_check@;
    let s_en = c;
    lemma_keys_skip(c, 140);
    let c = c.subrange(140, c.len() as int);
    lemma_keys_token(c, 3);
    let k0 = c.subrange(1, 4);
    let c = c.subrange(5, c.len() as int);
    lemma_keys_skip(c, c.len() as int);
    assert(c.subrange(c.len() as int, c.len() as int) =~= Seq::<char>::empty());
    assert(k0 =~= "err"@);
    assert(placeholder_keys(s_en) =~= seq!["err"@]);
    reveal_strlit("EspansoManager generó un archivo que no pudo releer correctamente, así que no se guardó nada para proteger tus expansiones existentes. Detalle técnico: {err}");
    let c = crate::strings::es_spec().err_self_check@;
    let s_es = c;
    lemma_keys_skip(c, 152);
    let c = c.subrange(152, c.len() as int);
    lemma_keys_token(c, 3);
    let k0 = c.subrange(1, 4);
    let c = c.subrange(5, c.len() as int);
    lemma_keys_skip(c, c.len() as int);
    assert(c.subrange(c.len() as int, c.len() as int) =~= Seq::<char>::empty());
    assert(k0 =~= "err"@);
    assert(placeholder_keys(s_es) =~= seq!["err"@]);
    reveal_strlit("Gumawa ang EspansoManager ng file na hindi nito mabasang muli, kaya walang na-save upang maprotektahan ang iyong mga umiiral na expansion. Teknikal na detalye: {err}");
    let c = crate::strings::fil_spec().err_self_check@;
    let s_fil = c;
    lemma_keys_skip(c, 160);
    let c = c.subrange(160, c.len() as int);
    lemma_keys_token(c, 3);
    let k0 = c.subrange(1, 4);
    let c = c.subrange(5, c.len() as int);
    lemma_keys_skip(c, c.len() as int);
    assert(c.subrange(c.len() as int, c.len() as int) =~= Seq::<char>::empty());
    assert(k0 =~= "err"@);
    assert(placeholder_keys(s_fil) =~= seq!["err"@]);
    reveal_strlit("EspansoManager ने एक ऐसी फ़ाइल बनाई जिसे वह दोबारा नहीं पढ़ सका, इसलिए आपके मौजूदा विस्तारों की सुरक्षा के लिए कुछ भी सहेजा नहीं गया। तकनीकी विवरण: {err}");
    let c = crate::strings::hi_spec().err_self_check@;
    let s_hi = c;
    lemma_keys_skip(c, 148);
    let c = c.subrange(148, c.len() as int);
    lemma_keys_token(c, 3);
    let k0 = c.subrange(1, 4);
    let c = c.subrange(5, c.len() as int);
    lemma_keys_skip(c, c.len() as int);
    assert(c.subrange(c.len() as int, c.len() as int) =~= Seq::<char>::empty());
    assert(k0 =~= "err"@);
    assert(placeholder_keys(s_hi) =~= seq!["err"@]);
}

proof fn keys_err_write_file()
    ensures
        placeholder_keys(crate::strings::en_spec().err_write_file@) == seq!["err"@],
        placeholder_keys(crate::strings::es_spec().err_write_file@) == seq!["err"@],
        placeholder_keys(crate::strings::fil_spec().err_write_file@) == seq!["err"@],
        placeholder_keys(crate::strings::hi_spec().err_write_file@) == seq!["err"@],
{
    reveal_strlit("err");
    reveal_strlit("Could not save the expansions file: {err}");
    let c = crate::strings::en_spec().err_write_file@;
    let s_en = c;
    lemma_keys_skip(c, 36);
    let c = c.subrange(36, c.len() as int);
    lemma_keys_token(c, 3);
    let k0 = c.subrange(1, 4);
    let c = c.subrange(5, c.len() as int);
    lemma_keys_skip(c, c.len() as int);
    assert(c.subrange(c.len() as int, c.len() as int) =~= Seq::<char>::empty());
    assert(k0 =~= "err"@);
    assert(placeholder_keys(s_en) =~= seq!["err"@]);
    reveal_strlit("No se pudo guardar el archivo de expansiones: {err}");
    let c = crate::strings::es_spec().err_write_file@;
    let s_es = c;
    lemma_keys_skip(c, 46);
    let c = c.subrange(46, c.len() as int);
    lemma_keys_token(c, 3);
    let k0 = c.subrange(1, 4);
    let c = c.subrange(5, c.len() as int);
    lemma_keys_skip(c, c.len() as int);
    assert(c.subrange(c.len() as int, c.len() as int) =~= Seq::<char>::empty());
    assert(k0 =~= "err"@);
    assert(placeholder_keys(s_es) =~= seq!["err"@]);
    reveal_strlit("Hindi ma-save ang file ng mga expansion: {err}");
    let c = crate::strings::fil_spec().err_write_file@;
    let s_fil = c;
    lemma_keys_skip(c, 41);
    let c = c.subrange(41, c.len() as int);
    lemma_keys_token(c, 3);
    let k0 = c.subrange(1, 4);
    let c = c.subrange(5, c.len() as int);
    lemma_keys_skip(c, c.len() as int);
    assert(c.subrange(c.len() as int, c.len() as int) =~= Seq::<char>::empty());
    assert(k0 =~= "err"@);
    assert(placeholder_keys(s_fil) =~= seq!["err"@]);
    reveal_strlit("विस्तार फ़ाइल सहेजी नहीं जा सकी: {err}");
    let c = crate::strings::hi_spec().err_write_file@;
    let s_hi = c;
    lemma_keys_skip(c, 33);
    let c = c.subrange(33, c.len() as int);
    lemma_keys_token(c, 3);
    let k0 = c.subrange(1, 4);
    let c = c.subrange(5, c.len() as int);
    lemma_keys_skip(c, c.len() as int);
    assert(c.subrange(c.len() as int, c.len() as int) =~= Seq::<char>::empty());
    assert(k0 =~= "err"@);
    assert(placeholder_keys(s_hi) =~= seq!["err"@]);
}

proof fn keys_save_backup_failed()
    ensures
        placeholder_keys(crate::strings::en_spec().save_backup_failed@) == seq!["err"@],
        placeholder_keys(crate::strings::es_spec().save_backup_failed@) == seq!["err"@],
        placeholder_keys(crate::strings::fil_spec().save_backup_failed@) == seq!["err"@],
        placeholder_keys(crate::strings::hi_spec().save_backup_failed@) == seq!["err"@],
{
    reveal_strlit("err");
    reveal_strlit("No backup copy of the previous file could be made first: {err}\n\nThe change is saved. What is missing is the copy in the backups folder that would let you go back.");
    let c = crate::strings::en_spec().save_backup_failed@;
    let s_en = c;
    lemma_keys_skip(c, 57);
    let c = c.subrange(57, c.len() as int);
    lemma_keys_token(c, 3);
    let k0 = c.subrange(1, 4);
    let c = c.subrange(5, c.len() as int);
    lemma_keys_skip(c, c.len() as int);
    assert(c.subrange(c.len() as int, c.len() as int) =~= Seq::<char>::empty());
    assert(k0 =~= "err"@);
    assert(placeholder_keys(s_en) =~= seq!["err"@]);
    reveal_strlit("No se pudo hacer antes una copia de seguridad del archivo anterior: {err}\n\nEl cambio sí quedó guardado. Lo que falta es la copia en la carpeta de copias de seguridad que te permitiría volver atrás.");
    let c = crate::strings::es_spec().save_backup_failed@;
    let s_es = c;
    lemma_keys_skip(c, 68);
    let c = c.subrange(68, c.len() as int);
    lemma_keys_token(c, 3);
    let k0 = c.subrange(1, 4);
    let c = c.subrange(5, c.len() as int);
    lemma_keys_skip(c, c.len() as int);
    assert(c.subrange(c.len() as int, c.len() as int) =~= Seq::<char>::empty());
    assert(k0 =~= "err"@);
    assert(placeholder_keys(s_es) =~= seq!["err"@]);
    reveal_strlit("Hindi muna nakagawa ng backup na kopya ng dating file: {err}\n\nNa-save ang pagbabago. Ang kulang ay ang kopya sa folder ng mga backup na sana'y magpapabalik sa iyo.");
    let c = crate::strings::fil_spec().save_backup_failed@;
    let s_fil = c;
    lemma_keys_skip(c, 55);
    let c = c.subrange(55, c.len() as int);
    lemma_keys_token(c, 3);
    let k0 = c.subrange(1, 4);
    let c = c.subrange(5, c.len() as int);
    lemma_keys_skip(c, c.len() as int);
    assert(c.subrange(c.len() as int, c.len() as int) =~= Seq::<char>::empty());
    assert(k0 =~= "err"@);
    assert(placeholder_keys(s_fil) =~= seq!["err"@]);
    reveal_strlit("पहले पिछली फ़ाइल की बैकअप प्रति नहीं बनाई जा सकी: {err}\n\nबदलाव सहेजा जा चुका है। जो नहीं है वह बैकअप फ़ोल्डर की वह प्रति है जिससे आप पीछे लौट सकते थे।");
    let c = crate::strings::hi_spec().save_backup_failed@;
    let s_hi = c;
    lemma_keys_skip(c, 50);
    let c = c.subrange(50, c.len() as int);
    lemma_keys_token(c, 3);
    let k0 = c.subrange(1, 4);
    let c = c.subrange(5, c.len() as int);
    lemma_keys_skip(c, c.len() as int);
    assert(c.subrange(c.len() as int, c.len() as int) =~= Seq::<char>::empty());
    assert(k0 =~= "err"@);
    assert(placeholder_keys(s_hi) =~= seq!["err"@]);
}

proof fn keys_save_flush_failed()
    ensures
        placeholder_keys(crate::strings::en_spec().save_flush_failed@) == seq!["err"@],
        placeholder_keys(crate::strings::es_spec().save_flush_failed@) == seq!["err"@],
        placeholder_keys(crate::strings::fil_spec().save_flush_failed@) == seq!["err"@],
        placeholder_keys(crate::strings::hi_spec().save_flush_failed@) == seq!["err"@],
{
    reveal_strlit("err");
    reveal_strlit("Windows would not confirm that the file reached the disk: {err}\n\nThe change is saved and Espanso can read it. On a USB stick or a network drive this is common; if the machine loses power in the next few seconds, the change could be lost.");
    let c = crate::strings::en_spec().save_flush_failed@;
    let s_en = c;
    lemma_keys_skip(c, 58);
    let c = c.subrange(58, c.len() as int);
    lemma_keys_token(c, 3);
    let k0 = c.subrange(1, 4);
    let c = c.subrange(5, c.len() as int);
    lemma_keys_skip(c, c.len() as int);
    assert(c.subrange(c.len() as int, c.len() as int) =~= Seq::<char>::empty());
    assert(k0 =~= "err"@);
    assert(placeholder_keys(s_en) =~= seq!["err"@]);
    reveal_strlit("Windows no confirmó que el archivo llegara al disco: {err}\n\nEl cambio está guardado y Espanso puede leerlo. En una memoria USB o una unidad de red esto es habitual; si el equipo se apaga en los próximos segundos, el cambio podría perderse.");
    let c = crate::strings::es_spec().save_flush_failed@;
    let s_es = c;
    lemma_keys_skip(c, 53);
    let c = c.subrange(53, c.len() as int);
    lemma_keys_token(c, 3);
    let k0 = c.subrange(1, 4);
    let c = c.subrange(5, c.len() as int);
    lemma_keys_skip(c, c.len() as int);
    assert(c.subrange(c.len() as int, c.len() as int) =~= Seq::<char>::empty());
    assert(k0 =~= "err"@);
    assert(placeholder_keys(s_es) =~= seq!["err"@]);
    reveal_strlit("Hindi kinumpirma ng Windows na nakarating sa disk ang file: {err}\n\nNa-save ang pagbabago at kayang basahin ito ng Espanso. Karaniwan ito sa USB stick o network drive; kung mawalan ng kuryente ang makina sa susunod na ilang segundo, maaaring mawala ang pagbabago.");
    let c = crate::strings::fil_spec().save_flush_failed@;
    let s_fil = c;
    lemma_keys_skip(c, 60);
    let c = c.subrange(60, c.len() as int);
    lemma_keys_token(c, 3);
    let k0 = c.subrange(1, 4);
    let c = c.subrange(5, c.len() as int);
    lemma_keys_skip(c, c.len() as int);
    assert(c.subrange(c.len() as int, c.len() as int) =~= Seq::<char>::empty());
    assert(k0 =~= "err"@);
    assert(placeholder_keys(s_fil) =~= seq!["err"@]);
    reveal_strlit("Windows ने पुष्टि नहीं की कि फ़ाइल डिस्क तक पहुँची: {err}\n\nबदलाव सहेजा जा चुका है और Espanso उसे पढ़ सकता है। USB ड्राइव या नेटवर्क ड्राइव पर यह आम है; अगर अगले कुछ सेकंड में मशीन बंद हो जाए तो बदलाव खो सकता है।");
    let c = crate::strings::hi_spec().save_flush_failed@;
    let s_hi = c;
    lemma_keys_skip(c, 52);
    let c = c.subrange(52, c.len() as int);
    lemma_keys_token(c, 3);
    let k0 = c.subrange(1, 4);
    let c = c.subrange(5, c.len() as int);
    lemma_keys_skip(c, c.len() as int);
    assert(c.subrange(c.len() as int, c.len() as int) =~= Seq::<char>::empty());
    assert(k0 =~= "err"@);
    assert(placeholder_keys(s_hi) =~= seq!["err"@]);
}

proof fn keys_err_validation_empty()
    ensures
        placeholder_keys(crate::strings::en_spec().err_validation_empty@) == Seq::<Seq<char>>::empty(),
        placeholder_keys(crate::strings::es_spec().err_validation_empty@) == Seq::<Seq<char>>::empty(),
        placeholder_keys(crate::strings::fil_spec().err_validation_empty@) == Seq::<Seq<char>>::empty(),
        placeholder_keys(crate::strings::hi_spec().err_validation_empty@) == Seq::<Seq<char>>::empty(),
{
    reveal_strlit("The trigger cannot be empty.");
    let c = crate::strings::en_spec().err_validation_empty@;
    let s_en = c;
    lemma_keys_skip(c, c.len() as int);
    assert(c.subrange(c.len() as int, c.len() as int) =~= Seq::<char>::empty());
    assert(placeholder_keys(s_en) =~= Seq::<Seq<char>>::empty());
    reveal_strlit("El activador (trigger) no puede estar vacío.");
    let c = crate::strings::es_spec().err_validation_empty@;
    let s_es = c;
    lemma_keys_skip(c, c.len() as int);
    assert(c.subrange(c.len() as int, c.len() as int) =~= Seq::<char>::empty());
    assert(placeholder_keys(s_es) =~= Seq::<Seq<char>>::empty());
    reveal_strlit("Hindi maaaring walang laman ang trigger.");
    let c = crate::strings::fil_spec().err_validation_empty@;
    let s_fil = c;
    lemma_keys_skip(c, c.len() as int);
    assert(c.subrange(c.len() as int, c.len() as int) =~= Seq::<char>::empty());
    assert(placeholder_keys(s_fil) =~= Seq::<Seq<char>>::empty());
    reveal_strlit("ट्रिगर खाली नहीं हो सकता।");
    let c = crate::strings::hi_spec().err_validation_empty@;
    let s_hi = c;
    lemma_keys_skip(c, c.len() as int);
    assert(c.subrange(c.len() as int, c.len() as int) =~= Seq::<char>::empty());
    assert(placeholder_keys(s_hi) =~= Seq::<Seq<char>>::empty());
}

proof fn keys_err_validation_duplicate()
    ensures
        placeholder_keys(crate::strings::en_spec().err_validation_duplicate@) == seq!["name"@],
        placeholder_keys(crate::strings::es_spec().err_validation_duplicate@) == seq!["name"@],
        placeholder_keys(crate::strings::fil_spec().err_validation_duplicate@) == seq!["name"@],
        placeholder_keys(crate::strings::hi_spec().err_validation_duplicate@) == seq!["name"@],
{
    reveal_strlit("name");
    reveal_strlit("There is already an expansion using exactly the trigger \"{name}\".");
    let c = crate::strings::en_spec().err_validation_duplicate@;
    let s_en = c;
    lemma_keys_skip(c, 57);
    let c = c.subrange(57, c.len() as int);
    lemma_keys_token(c, 4);
    let k0 = c.subrange(1, 5);
    let c = c.subrange(6, c.len() as int);
    lemma_keys_skip(c, c.len() as int);
    assert(c.subrange(c.len() as int, c.len() as int) =~= Seq::<char>::empty());
    assert(k0 =~= "name"@);
    assert(placeholder_keys(s_en) =~= seq!["name"@]);
    reveal_strlit("Ya existe una expansión que usa exactamente el activador \"{name}\".");
    let c = crate::strings::es_spec().err_validation_duplicate@;
    let s_es = c;
    lemma_keys_skip(c, 58);
    let c = c.subrange(58, c.len() as int);
    lemma_keys_token(c, 4);
    let k0 = c.subrange(1, 5);
    let c = c.subrange(6, c.len() as int);
    lemma_keys_skip(c, c.len() as int);
    assert(c.subrange(c.len() as int, c.len() as int) =~= Seq::<char>::empty());
    assert(k0 =~= "name"@);
    assert(placeholder_keys(s_es) =~= seq!["name"@]);
    reveal_strlit("May expansion nang gumagamit ng eksaktong trigger na \"{name}\".");
    let c = crate::strings::fil_spec().err_validation_duplicate@;
    let s_fil = c;
    lemma_keys_skip(c, 54);
    let c = c.subrange(54, c.len() as int);
    lemma_keys_token(c, 4);
    let k0 = c.subrange(1, 5);
    let c = c.subrange(6, c.len() as int);
    lemma_keys_skip(c, c.len() as int);
    assert(c.subrange(c.len() as int, c.len() as int) =~= Seq::<char>::empty());
    assert(k0 =~= "name"@);
    assert(placeholder_keys(s_fil) =~= seq!["name"@]);
    reveal_strlit("ठीक \"{name}\" ट्रिगर का उपयोग करने वाला एक विस्तार पहले से मौजूद है।");
    let c = crate::strings::hi_spec().err_validation_duplicate@;
    let s_hi = c;
    lemma_keys_skip(c, 5);
    let c = c.subrange(5, c.len() as int);
    lemma_keys_token(c, 4);
    let k0 = c.subrange(1, 5);
    let c = c.subrange(6, c.len() as int);
    lemma_keys_skip(c, c.len() as int);
    assert(c.subrange(c.len() as int, c.len() as int) =~= Seq::<char>::empty());
    assert(k0 =~= "name"@);
    assert(placeholder_keys(s_hi) =~= seq!["name"@]);
}

proof fn keys_err_espansod_missing()
    ensures
        placeholder_keys(crate::strings::en_spec().err_espansod_missing@) == seq!["path"@],
        placeholder_keys(crate::strings::es_spec().err_espansod_missing@) == seq!["path"@],
        placeholder_keys(crate::strings::fil_spec().err_espansod_missing@) == seq!["path"@],
        placeholder_keys(crate::strings::hi_spec().err_espansod_missing@) == seq!["path"@],
{
    reveal_strlit("path");
    reveal_strlit("espansod.exe was not found next to EspansoManager.exe (expected at {path}).");
    let c = crate::strings::en_spec().err_espansod_missing@;
    let s_en = c;
    lemma_keys_skip(c, 67);
    let c = c.subrange(67, c.len() as int);
    lemma_keys_token(c, 4);
    let k0 = c.subrange(1, 5);
    let c = c.subrange(6, c.len() as int);
    lemma_keys_skip(c, c.len() as int);
    assert(c.subrange(c.len() as int, c.len() as int) =~= Seq::<char>::empty());
    assert(k0 =~= "path"@);
    assert(placeholder_keys(s_en) =~= seq!["path"@]);
    reveal_strlit("No se encontró espansod.exe junto a EspansoManager.exe (se esperaba en {path}).");
    let c = crate::strings::es_spec().err_espansod_missing@;
    let s_es = c;
    lemma_keys_skip(c, 71);
    let c = c.subrange(71, c.len() as int);
    lemma_keys_token(c, 4);
    let k0 = c.subrange(1, 5);
    let c = c.subrange(6, c.len() as int);
    lemma_keys_skip(c, c.len() as int);
    assert(c.subrange(c.len() as int, c.len() as int) =~= Seq::<char>::empty());
    assert(k0 =~= "path"@);
    assert(placeholder_keys(s_es) =~= seq!["path"@]);
    reveal_strlit("Hindi natagpuan ang espansod.exe katabi ng EspansoManager.exe (inaasahan sa {path}).");
    let c = crate::strings::fil_spec().err_espansod_missing@;
    let s_fil = c;
    lemma_keys_skip(c, 76);
    let c = c.subrange(76, c.len() as int);
    lemma_keys_token(c, 4);
    let k0 = c.subrange(1, 5);
    let c = c.subrange(6, c.len() as int);
    lemma_keys_skip(c, c.len() as int);
    assert(c.subrange(c.len() as int, c.len() as int) =~= Seq::<char>::empty());
    assert(k0 =~= "path"@);
    assert(placeholder_keys(s_fil) =~= seq!["path"@]);
    reveal_strlit("EspansoManager.exe के साथ espansod.exe नहीं मिला ({path} पर अपेक्षित था)।");
    let c = crate::strings::hi_spec().err_espansod_missing@;
    let s_hi = c;
    lemma_keys_skip(c, 50);
    let c = c.subrange(50, c.len() as int);
    lemma_keys_token(c, 4);
    let k0 = c.subrange(1, 5);
    let c = c.subrange(6, c.len() as int);
    lemma_keys_skip(c, c.len() as int);
    assert(c.subrange(c.len() as int, c.len() as int) =~= Seq::<char>::empty());
    assert(k0 =~= "path"@);
    assert(placeholder_keys(s_hi) =~= seq!["path"@]);
}

proof fn keys_err_espansod_timeout()
    ensures
        placeholder_keys(crate::strings::en_spec().err_espansod_timeout@) == seq!["n"@],
        placeholder_keys(crate::strings::es_spec().err_espansod_timeout@) == seq!["n"@],
        placeholder_keys(crate::strings::fil_spec().err_espansod_timeout@) == seq!["n"@],
        placeholder_keys(crate::strings::hi_spec().err_espansod_timeout@) == seq!["n"@],
{
    reveal_strlit("n");
    reveal_strlit("espansod.exe did not respond within {n} seconds and had to be closed.");
    let c = crate::strings::en_spec().err_espansod_timeout@;
    let s_en = c;
    lemma_keys_skip(c, 36);
    let c = c.subrange(36, c.len() as int);
    lemma_keys_token(c, 1);
    let k0 = c.subrange(1, 2);
    let c = c.subrange(3, c.len() as int);
    lemma_keys_skip(c, c.len() as int);
    assert(c.subrange(c.len() as int, c.len() as int) =~= Seq::<char>::empty());
    assert(k0 =~= "n"@);
    assert(placeholder_keys(s_en) =~= seq!["n"@]);
    reveal_strlit("espansod.exe no respondió en {n} segundos y tuvo que forzarse su cierre.");
    let c = crate::strings::es_spec().err_espansod_timeout@;
    let s_es = c;
    lemma_keys_skip(c, 29);
    let c = c.subrange(29, c.len() as int);
    lemma_keys_token(c, 1);
    let k0 = c.subrange(1, 2);
    let c = c.subrange(3, c.len() as int);
    lemma_keys_skip(c, c.len() as int);
    assert(c.subrange(c.len() as int, c.len() as int) =~= Seq::<char>::empty());
    assert(k0 =~= "n"@);
    assert(placeholder_keys(s_es) =~= seq!["n"@]);
    reveal_strlit("Hindi tumugon ang espansod.exe sa loob ng {n} segundo kaya kinailangang isara.");
    let c = crate::strings::fil_spec().err_espansod_timeout@;
    let s_fil = c;
    lemma_keys_skip(c, 42);
    let c = c.subrange(42, c.len() as int);
    lemma_keys_token(c, 1);
    let k0 = c.subrange(1, 2);
    let c = c.subrange(3, c.len() as int);
    lemma_keys_skip(c, c.len() as int);
    assert(c.subrange(c.len() as int, c.len() as int) =~= Seq::<char>::empty());
    assert(k0 =~= "n"@);
    assert(placeholder_keys(s_fil) =~= seq!["n"@]);
    reveal_strlit("espansod.exe ने {n} सेकंड में उत्तर नहीं दिया और उसे बंद करना पड़ा।");
    let c = crate::strings::hi_spec().err_espansod_timeout@;
    let s_hi = c;
    lemma_keys_skip(c, 16);
    let c = c.subrange(16, c.len() as int);
    lemma_keys_token(c, 1);
    let k0 = c.subrange(1, 2);
    let c = c.subrange(3, c.len() as int);
    lemma_keys_skip(c, c.len() as int);
    assert(c.subrange(c.len() as int, c.len() as int) =~= Seq::<char>::empty());
    assert(k0 =~= "n"@);
    assert(placeholder_keys(s_hi) =~= seq!["n"@]);
}

proof fn keys_err_espanso_start()
    ensures
        placeholder_keys(crate::strings::en_spec().err_espanso_start@) == seq!["err"@],
        placeholder_keys(crate::strings::es_spec().err_espanso_start@) == seq!["err"@],
        placeholder_keys(crate::strings::fil_spec().err_espanso_start@) == seq!["err"@],
        placeholder_keys(crate::strings::hi_spec().err_espanso_start@) == seq!["err"@],
{
    reveal_strlit("err");
    reveal_strlit("Could not start Espanso: {err}");
    let c = crate::strings::en_spec().err_espanso_start@;
    let s_en = c;
    lemma_keys_skip(c, 25);
    let c = c.subrange(25, c.len() as int);
    lemma_keys_token(c, 3);
    let k0 = c.subrange(1, 4);
    let c = c.subrange(5, c.len() as int);
    lemma_keys_skip(c, c.len() as int);
    assert(c.subrange(c.len() as int, c.len() as int) =~= Seq::<char>::empty());
    assert(k0 =~= "err"@);
    assert(placeholder_keys(s_en) =~= seq!["err"@]);
    reveal_strlit("No se pudo iniciar Espanso: {err}");
    let c = crate::strings::es_spec().err_espanso_start@;
    let s_es = c;
    lemma_keys_skip(c, 28);
    let c = c.subrange(28, c.len() as int);
    lemma_keys_token(c, 3);
    let k0 = c.subrange(1, 4);
    let c = c.subrange(5, c.len() as int);
    lemma_keys_skip(c, c.len() as int);
    assert(c.subrange(c.len() as int, c.len() as int) =~= Seq::<char>::empty());
    assert(k0 =~= "err"@);
    assert(placeholder_keys(s_es) =~= seq!["err"@]);
    reveal_strlit("Hindi masimulan ang Espanso: {err}");
    let c = crate::strings::fil_spec().err_espanso_start@;
    let s_fil = c;
    lemma_keys_skip(c, 29);
    let c = c.subrange(29, c.len() as int);
    lemma_keys_token(c, 3);
    let k0 = c.subrange(1, 4);
    let c = c.subrange(5, c.len() as int);
    lemma_keys_skip(c, c.len() as int);
    assert(c.subrange(c.len() as int, c.len() as int) =~= Seq::<char>::empty());
    assert(k0 =~= "err"@);
    assert(placeholder_keys(s_fil) =~= seq!["err"@]);
    reveal_strlit("Espanso शुरू नहीं किया जा सका: {err}");
    let c = crate::strings::hi_spec().err_espanso_start@;
    let s_hi = c;
    lemma_keys_skip(c, 31);
    let c = c.subrange(31, c.len() as int);
    lemma_keys_token(c, 3);
    let k0 = c.subrange(1, 4);
    let c = c.subrange(5, c.len() as int);
    lemma_keys_skip(c, c.len() as int);
    assert(c.subrange(c.len() as int, c.len() as int) =~= Seq::<char>::empty());
    assert(k0 =~= "err"@);
    assert(placeholder_keys(s_hi) =~= seq!["err"@]);
}

proof fn keys_err_espanso_no_response()
    ensures
        placeholder_keys(crate::strings::en_spec().err_espanso_no_response@) == Seq::<Seq<char>>::empty(),
        placeholder_keys(crate::strings::es_spec().err_espanso_no_response@) == Seq::<Seq<char>>::empty(),
        placeholder_keys(crate::strings::fil_spec().err_espanso_no_response@) == Seq::<Seq<char>>::empty(),
        placeholder_keys(crate::strings::hi_spec().err_espanso_no_response@) == Seq::<Seq<char>>::empty(),
{
    reveal_strlit("Espanso did not respond after trying to start it.");
    let c = crate::strings::en_spec().err_espanso_no_response@;
    let s_en = c;
    lemma_keys_skip(c, c.len() as int);
    assert(c.subrange(c.len() as int, c.len() as int) =~= Seq::<char>::empty());
    assert(placeholder_keys(s_en) =~= Seq::<Seq<char>>::empty());
    reveal_strlit("Espanso no respondió después de intentar iniciarlo.");
    let c = crate::strings::es_spec().err_espanso_no_response@;
    let s_es = c;
    lemma_keys_skip(c, c.len() as int);
    assert(c.subrange(c.len() as int, c.len() as int) =~= Seq::<char>::empty());
    assert(placeholder_keys(s_es) =~= Seq::<Seq<char>>::empty());
    reveal_strlit("Hindi tumugon ang Espanso pagkatapos subukang simulan ito.");
    let c = crate::strings::fil_spec().err_espanso_no_response@;
    let s_fil = c;
    lemma_keys_skip(c, c.len() as int);
    assert(c.subrange(c.len() as int, c.len() as int) =~= Seq::<char>::empty());
    assert(placeholder_keys(s_fil) =~= Seq::<Seq<char>>::empty());
    reveal_strlit("शुरू करने की कोशिश के बाद भी Espanso ने उत्तर नहीं दिया।");
    let c = crate::strings::hi_spec().err_espanso_no_response@;
    let s_hi = c;
    lemma_keys_skip(c, c.len() as int);
    assert(c.subrange(c.len() as int, c.len() as int) =~= Seq::<char>::empty());
    assert(placeholder_keys(s_hi) =~= Seq::<Seq<char>>::empty());
}

proof fn keys_err_restart_unconfirmed()
    ensures
        placeholder_keys(crate::strings::en_spec().err_restart_unconfirmed@) == Seq::<Seq<char>>::empty(),
        placeholder_keys(crate::strings::es_spec().err_restart_unconfirmed@) == Seq::<Seq<char>>::empty(),
        placeholder_keys(crate::strings::fil_spec().err_restart_unconfirmed@) == Seq::<Seq<char>>::empty(),
        placeholder_keys(crate::strings::hi_spec().err_restart_unconfirmed@) == Seq::<Seq<char>>::empty(),
{
    reveal_strlit("The change was saved, but Espanso did not confirm that it restarted correctly. You may need to restart it manually.");
    let c = crate::strings::en_spec().err_restart_unconfirmed@;
    let s_en = c;
    lemma_keys_skip(c, c.len() as int);
    assert(c.subrange(c.len() as int, c.len() as int) =~= Seq::<char>::empty());
    assert(placeholder_keys(s_en) =~= Seq::<Seq<char>>::empty());
    reveal_strlit("Se guardó el cambio, pero Espanso no confirmó que se haya reiniciado correctamente. Es posible que necesites reiniciarlo manualmente.");
    let c = crate::strings::es_spec().err_restart_unconfirmed@;
    let s_es = c;
    lemma_keys_skip(c, c.len() as int);
    assert(c.subrange(c.len() as int, c.len() as int) =~= Seq::<char>::empty());
    assert(placeholder_keys(s_es) =~= Seq::<Seq<char>>::empty());
    reveal_strlit("Na-save ang pagbabago, ngunit hindi kinumpirma ng Espanso na nag-restart ito nang maayos. Maaaring kailanganin mong i-restart ito nang manu-mano.");
    let c = crate::strings::fil_spec().err_restart_unconfirmed@;
    let s_fil = c;
    lemma_keys_skip(c, c.len() as int);
    assert(c.subrange(c.len() as int, c.len() as int) =~= Seq::<char>::empty());
    assert(placeholder_keys(s_fil) =~= Seq::<Seq<char>>::empty());
    reveal_strlit("परिवर्तन सहेजा गया, लेकिन Espanso ने पुष्टि नहीं की कि वह सही ढंग से पुनः आरंभ हुआ। आपको इसे स्वयं पुनः आरंभ करना पड़ सकता है।");
    let c = crate::strings::hi_spec().err_restart_unconfirmed@;
    let s_hi = c;
    lemma_keys_skip(c, c.len() as int);
    assert(c.subrange(c.len() as int, c.len() as int) =~= Seq::<char>::empty());
    assert(placeholder_keys(s_hi) =~= Seq::<Seq<char>>::empty());
}

proof fn keys_err_espanso_action()
    ensures
        placeholder_keys(crate::strings::en_spec().err_espanso_action@) == seq!["verb"@, "detail"@],
        placeholder_keys(crate::strings::es_spec().err_espanso_action@) == seq!["verb"@, "detail"@],
        placeholder_keys(crate::strings::fil_spec().err_espanso_action@) == seq!["verb"@, "detail"@],
        placeholder_keys(crate::strings::hi_spec().err_espanso_action@) == seq!["verb"@, "detail"@],
{
    reveal_strlit("verb");
    reveal_strlit("detail");
    reveal_strlit("Espanso could not {verb}.\n\n{detail}");
    let c = crate::strings::en_spec().err_espanso_action@;
    let s_en = c;
    lemma_keys_skip(c, 18);
    let c = c.subrange(18, c.len() as int);
    lemma_keys_token(c, 4);
    let k0 = c.subrange(1, 5);
    let c = c.subrange(6, c.len() as int);
    lemma_keys_skip(c, 3);
    let c = c.subrange(3, c.len() as int);
    lemma_keys_token(c, 6);
    let k1 = c.subrange(1, 7);
    let c = c.subrange(8, c.len() as int);
    lemma_keys_skip(c, c.len() as int);
    assert(c.subrange(c.len() as int, c.len() as int) =~= Seq::<char>::empty());
    assert(k0 =~= "verb"@);
    assert(k1 =~= "detail"@);
    assert(placeholder_keys(s_en) =~= seq!["verb"@, "detail"@]);
    reveal_strlit("Espanso no pudo {verb}.\n\n{detail}");
    let c = crate::strings::es_spec().err_espanso_action@;
    let s_es = c;
    lemma_keys_skip(c, 16);
    let c = c.subrange(16, c.len() as int);
    lemma_keys_token(c, 4);
    let k0 = c.subrange(1, 5);
    let c = c.subrange(6, c.len() as int);
    lemma_keys_skip(c, 3);
    let c = c.subrange(3, c.len() as int);
    lemma_keys_token(c, 6);
    let k1 = c.subrange(1, 7);
    let c = c.subrange(8, c.len() as int);
    lemma_keys_skip(c, c.len() as int);
    assert(c.subrange(c.len() as int, c.len() as int) =~= Seq::<char>::empty());
    assert(k0 =~= "verb"@);
    assert(k1 =~= "detail"@);
    assert(placeholder_keys(s_es) =~= seq!["verb"@, "detail"@]);
    reveal_strlit("Hindi nagawa ng Espanso na {verb}.\n\n{detail}");
    let c = crate::strings::fil_spec().err_espanso_action@;
    let s_fil = c;
    lemma_keys_skip(c, 27);
    let c = c.subrange(27, c.len() as int);
    lemma_keys_token(c, 4);
    let k0 = c.subrange(1, 5);
    let c = c.subrange(6, c.len() as int);
    lemma_keys_skip(c, 3);
    let c = c.subrange(3, c.len() as int);
    lemma_keys_token(c, 6);
    let k1 = c.subrange(1, 7);
    let c = c.subrange(8, c.len() as int);
    lemma_keys_skip(c, c.len() as int);
    assert(c.subrange(c.len() as int, c.len() as int) =~= Seq::<char>::empty());
    assert(k0 =~= "verb"@);
    assert(k1 =~= "detail"@);
    assert(placeholder_keys(s_fil) =~= seq!["verb"@, "detail"@]);
    reveal_strlit("Espanso {verb} नहीं कर सका।\n\n{detail}");
    let c = crate::strings::hi_spec().err_espanso_action@;
    let s_hi = c;
    lemma_keys_skip(c, 8);
    let c = c.subrange(8, c.len() as int);
    lemma_keys_token(c, 4);
    let k0 = c.subrange(1, 5);
    let c = c.subrange(6, c.len() as int);
    lemma_keys_skip(c, 15);
    let c = c.subrange(15, c.len() as int);
    lemma_keys_token(c, 6);
    let k1 = c.subrange(1, 7);
    let c = c.subrange(8, c.len() as int);
    lemma_keys_skip(c, c.len() as int);
    assert(c.subrange(c.len() as int, c.len() as int) =~= Seq::<char>::empty());
    assert(k0 =~= "verb"@);
    assert(k1 =~= "detail"@);
    assert(placeholder_keys(s_hi) =~= seq!["verb"@, "detail"@]);
}

proof fn keys_err_espanso_comm()
    ensures
        placeholder_keys(crate::strings::en_spec().err_espanso_comm@) == seq!["verb"@, "err"@],
        placeholder_keys(crate::strings::es_spec().err_espanso_comm@) == seq!["verb"@, "err"@],
        placeholder_keys(crate::strings::fil_spec().err_espanso_comm@) == seq!["verb"@, "err"@],
        placeholder_keys(crate::strings::hi_spec().err_espanso_comm@) == seq!["verb"@, "err"@],
{
    reveal_strlit("verb");
    reveal_strlit("err");
    reveal_strlit("Could not communicate with Espanso to {verb}: {err}");
    let c = crate::strings::en_spec().err_espanso_comm@;
    let s_en = c;
    lemma_keys_skip(c, 38);
    let c = c.subrange(38, c.len() as int);
    lemma_keys_token(c, 4);
    let k0 = c.subrange(1, 5);
    let c = c.subrange(6, c.len() as int);
    lemma_keys_skip(c, 2);
    let c = c.subrange(2, c.len() as int);
    lemma_keys_token(c, 3);
    let k1 = c.subrange(1, 4);
    let c = c.subrange(5, c.len() as int);
    lemma_keys_skip(c, c.len() as int);
    assert(c.subrange(c.len() as int, c.len() as int) =~= Seq::<char>::empty());
    assert(k0 =~= "verb"@);
    assert(k1 =~= "err"@);
    assert(placeholder_keys(s_en) =~= seq!["verb"@, "err"@]);
    reveal_strlit("No se pudo comunicar con Espanso para {verb}: {err}");
    let c = crate::strings::es_spec().err_espanso_comm@;
    let s_es = c;
    lemma_keys_skip(c, 38);
    let c = c.subrange(38, c.len() as int);
    lemma_keys_token(c, 4);
    let k0 = c.subrange(1, 5);
    let c = c.subrange(6, c.len() as int);
    lemma_keys_skip(c, 2);
    let c = c.subrange(2, c.len() as int);
    lemma_keys_token(c, 3);
    let k1 = c.subrange(1, 4);
    let c = c.subrange(5, c.len() as int);
    lemma_keys_skip(c, c.len() as int);
    assert(c.subrange(c.len() as int, c.len() as int) =~= Seq::<char>::empty());
    assert(k0 =~= "verb"@);
    assert(k1 =~= "err"@);
    assert(placeholder_keys(s_es) =~= seq!["verb"@, "err"@]);
    reveal_strlit("Hindi makipag-ugnayan sa Espanso para {verb}: {err}");
    let c = crate::strings::fil_spec().err_espanso_comm@;
    let s_fil = c;
    lemma_keys_skip(c, 38);
    let c = c.subrange(38, c.len() as int);
    lemma_keys_token(c, 4);
    let k0 = c.subrange(1, 5);
    let c = c.subrange(6, c.len() as int);
    lemma_keys_skip(c, 2);
    let c = c.subrange(2, c.len() as int);
    lemma_keys_token(c, 3);
    let k1 = c.subrange(1, 4);
    let c = c.subrange(5, c.len() as int);
    lemma_keys_skip(c, c.len() as int);
    assert(c.subrange(c.len() as int, c.len() as int) =~= Seq::<char>::empty());
    assert(k0 =~= "verb"@);
    assert(k1 =~= "err"@);
    assert(placeholder_keys(s_fil) =~= seq!["verb"@, "err"@]);
    reveal_strlit("{verb} के लिए Espanso से संपर्क नहीं हो सका: {err}");
    let c = crate::strings::hi_spec().err_espanso_comm@;
    let s_hi = c;
    lemma_keys_token(c, 4);
    let k0 = c.subrange(1, 5);
    let c = c.subrange(6, c.len() as int);
    lemma_keys_skip(c, 39);
    let c = c.subrange(39, c.len() as int);
    lemma_keys_token(c, 3);
    let k1 = c.subrange(1, 4);
    let c = c.subrange(5, c.len() as int);
    lemma_keys_skip(c, c.len() as int);
    assert(c.subrange(c.len() as int, c.len() as int) =~= Seq::<char>::empty());
    assert(k0 =~= "verb"@);
    assert(k1 =~= "err"@);
    assert(placeholder_keys(s_hi) =~= seq!["verb"@, "err"@]);
}

proof fn keys_verb_pause_timed()
    ensures
        placeholder_keys(crate::strings::en_spec().verb_pause_timed@) == Seq::<Seq<char>>::empty(),
        placeholder_keys(crate::strings::es_spec().verb_pause_timed@) == Seq::<Seq<char>>::empty(),
        placeholder_keys(crate::strings::fil_spec().verb_pause_timed@) == Seq::<Seq<char>>::empty(),
        placeholder_keys(crate::strings::hi_spec().verb_pause_timed@) == Seq::<Seq<char>>::empty(),
{
    reveal_strlit("pause temporarily");
    let c = crate::strings::en_spec().verb_pause_timed@;
    let s_en = c;
    lemma_keys_skip(c, c.len() as int);
    assert(c.subrange(c.len() as int, c.len() as int) =~= Seq::<char>::empty());
    assert(placeholder_keys(s_en) =~= Seq::<Seq<char>>::empty());
    reveal_strlit("pausar temporalmente");
    let c = crate::strings::es_spec().verb_pause_timed@;
    let s_es = c;
    lemma_keys_skip(c, c.len() as int);
    assert(c.subrange(c.len() as int, c.len() as int) =~= Seq::<char>::empty());
    assert(placeholder_keys(s_es) =~= Seq::<Seq<char>>::empty());
    reveal_strlit("pansamantalang mag-pause");
    let c = crate::strings::fil_spec().verb_pause_timed@;
    let s_fil = c;
    lemma_keys_skip(c, c.len() as int);
    assert(c.subrange(c.len() as int, c.len() as int) =~= Seq::<char>::empty());
    assert(placeholder_keys(s_fil) =~= Seq::<Seq<char>>::empty());
    reveal_strlit("अस्थायी रूप से रोकना");
    let c = crate::strings::hi_spec().verb_pause_timed@;
    let s_hi = c;
    lemma_keys_skip(c, c.len() as int);
    assert(c.subrange(c.len() as int, c.len() as int) =~= Seq::<char>::empty());
    assert(placeholder_keys(s_hi) =~= Seq::<Seq<char>>::empty());
}

proof fn keys_verb_pause()
    ensures
        placeholder_keys(crate::strings::en_spec().verb_pause@) == Seq::<Seq<char>>::empty(),
        placeholder_keys(crate::strings::es_spec().verb_pause@) == Seq::<Seq<char>>::empty(),
        placeholder_keys(crate::strings::fil_spec().verb_pause@) == Seq::<Seq<char>>::empty(),
        placeholder_keys(crate::strings::hi_spec().verb_pause@) == Seq::<Seq<char>>::empty(),
{
    reveal_strlit("pause");
    let c = crate::strings::en_spec().verb_pause@;
    let s_en = c;
    lemma_keys_skip(c, c.len() as int);
    assert(c.subrange(c.len() as int, c.len() as int) =~= Seq::<char>::empty());
    assert(placeholder_keys(s_en) =~= Seq::<Seq<char>>::empty());
    reveal_strlit("pausar");
    let c = crate::strings::es_spec().verb_pause@;
    let s_es = c;
    lemma_keys_skip(c, c.len() as int);
    assert(c.subrange(c.len() as int, c.len() as int) =~= Seq::<char>::empty());
    assert(placeholder_keys(s_es) =~= Seq::<Seq<char>>::empty());
    reveal_strlit("mag-pause");
    let c = crate::strings::fil_spec().verb_pause@;
    let s_fil = c;
    lemma_keys_skip(c, c.len() as int);
    assert(c.subrange(c.len() as int, c.len() as int) =~= Seq::<char>::empty());
    assert(placeholder_keys(s_fil) =~= Seq::<Seq<char>>::empty());
    reveal_strlit("रोकना");
    let c = crate::strings::hi_spec().verb_pause@;
    let s_hi = c;
    lemma_keys_skip(c, c.len() as int);
    assert(c.subrange(c.len() as int, c.len() as int) =~= Seq::<char>::empty());
    assert(placeholder_keys(s_hi) =~= Seq::<Seq<char>>::empty());
}

proof fn keys_verb_resume()
    ensures
        placeholder_keys(crate::strings::en_spec().verb_resume@) == Seq::<Seq<char>>::empty(),
        placeholder_keys(crate::strings::es_spec().verb_resume@) == Seq::<Seq<char>>::empty(),
        placeholder_keys(crate::strings::fil_spec().verb_resume@) == Seq::<Seq<char>>::empty(),
        placeholder_keys(crate::strings::hi_spec().verb_resume@) == Seq::<Seq<char>>::empty(),
{
    reveal_strlit("resume");
    let c = crate::strings::en_spec().verb_resume@;
    let s_en = c;
    lemma_keys_skip(c, c.len() as int);
    assert(c.subrange(c.len() as int, c.len() as int) =~= Seq::<char>::empty());
    assert(placeholder_keys(s_en) =~= Seq::<Seq<char>>::empty());
    reveal_strlit("activar");
    let c = crate::strings::es_spec().verb_resume@;
    let s_es = c;
    lemma_keys_skip(c, c.len() as int);
    assert(c.subrange(c.len() as int, c.len() as int) =~= Seq::<char>::empty());
    assert(placeholder_keys(s_es) =~= Seq::<Seq<char>>::empty());
    reveal_strlit("magpatuloy");
    let c = crate::strings::fil_spec().verb_resume@;
    let s_fil = c;
    lemma_keys_skip(c, c.len() as int);
    assert(c.subrange(c.len() as int, c.len() as int) =~= Seq::<char>::empty());
    assert(placeholder_keys(s_fil) =~= Seq::<Seq<char>>::empty());
    reveal_strlit("सक्रिय करना");
    let c = crate::strings::hi_spec().verb_resume@;
    let s_hi = c;
    lemma_keys_skip(c, c.len() as int);
    assert(c.subrange(c.len() as int, c.len() as int) =~= Seq::<char>::empty());
    assert(placeholder_keys(s_hi) =~= Seq::<Seq<char>>::empty());
}

proof fn keys_verb_auto_resume()
    ensures
        placeholder_keys(crate::strings::en_spec().verb_auto_resume@) == Seq::<Seq<char>>::empty(),
        placeholder_keys(crate::strings::es_spec().verb_auto_resume@) == Seq::<Seq<char>>::empty(),
        placeholder_keys(crate::strings::fil_spec().verb_auto_resume@) == Seq::<Seq<char>>::empty(),
        placeholder_keys(crate::strings::hi_spec().verb_auto_resume@) == Seq::<Seq<char>>::empty(),
{
    reveal_strlit("resume automatically");
    let c = crate::strings::en_spec().verb_auto_resume@;
    let s_en = c;
    lemma_keys_skip(c, c.len() as int);
    assert(c.subrange(c.len() as int, c.len() as int) =~= Seq::<char>::empty());
    assert(placeholder_keys(s_en) =~= Seq::<Seq<char>>::empty());
    reveal_strlit("reactivar automáticamente");
    let c = crate::strings::es_spec().verb_auto_resume@;
    let s_es = c;
    lemma_keys_skip(c, c.len() as int);
    assert(c.subrange(c.len() as int, c.len() as int) =~= Seq::<char>::empty());
    assert(placeholder_keys(s_es) =~= Seq::<Seq<char>>::empty());
    reveal_strlit("awtomatikong magpatuloy");
    let c = crate::strings::fil_spec().verb_auto_resume@;
    let s_fil = c;
    lemma_keys_skip(c, c.len() as int);
    assert(c.subrange(c.len() as int, c.len() as int) =~= Seq::<char>::empty());
    assert(placeholder_keys(s_fil) =~= Seq::<Seq<char>>::empty());
    reveal_strlit("स्वचालित रूप से फिर से सक्रिय करना");
    let c = crate::strings::hi_spec().verb_auto_resume@;
    let s_hi = c;
    lemma_keys_skip(c, c.len() as int);
    assert(c.subrange(c.len() as int, c.len() as int) =~= Seq::<char>::empty());
    assert(placeholder_keys(s_hi) =~= Seq::<Seq<char>>::empty());
}

proof fn keys_tray_pause()
    ensures
        placeholder_keys(crate::strings::en_spec().tray_pause@) == Seq::<Seq<char>>::empty(),
        placeholder_keys(crate::strings::es_spec().tray_pause@) == Seq::<Seq<char>>::empty(),
        placeholder_keys(crate::strings::fil_spec().tray_pause@) == Seq::<Seq<char>>::empty(),
        placeholder_keys(crate::strings::hi_spec().tray_pause@) == Seq::<Seq<char>>::empty(),
{
    reveal_strlit("Pause");
    let c = crate::strings::en_spec().tray_pause@;
    let s_en = c;
    lemma_keys_skip(c, c.len() as int);
    assert(c.subrange(c.len() as int, c.len() as int) =~= Seq::<char>::empty());
    assert(placeholder_keys(s_en) =~= Seq::<Seq<char>>::empty());
    reveal_strlit("Pausar");
    let c = crate::strings::es_spec().tray_pause@;
    let s_es = c;
    lemma_keys_skip(c, c.len() as int);
    assert(c.subrange(c.len() as int, c.len() as int) =~= Seq::<char>::empty());
    assert(placeholder_keys(s_es) =~= Seq::<Seq<char>>::empty());
    reveal_strlit("I-pause");
    let c = crate::strings::fil_spec().tray_pause@;
    let s_fil = c;
    lemma_keys_skip(c, c.len() as int);
    assert(c.subrange(c.len() as int, c.len() as int) =~= Seq::<char>::empty());
    assert(placeholder_keys(s_fil) =~= Seq::<Seq<char>>::empty());
    reveal_strlit("रोकें");
    let c = crate::strings::hi_spec().tray_pause@;
    let s_hi = c;
    lemma_keys_skip(c, c.len() as int);
    assert(c.subrange(c.len() as int, c.len() as int) =~= Seq::<char>::empty());
    assert(placeholder_keys(s_hi) =~= Seq::<Seq<char>>::empty());
}

proof fn keys_tray_resume()
    ensures
        placeholder_keys(crate::strings::en_spec().tray_resume@) == Seq::<Seq<char>>::empty(),
        placeholder_keys(crate::strings::es_spec().tray_resume@) == Seq::<Seq<char>>::empty(),
        placeholder_keys(crate::strings::fil_spec().tray_resume@) == Seq::<Seq<char>>::empty(),
        placeholder_keys(crate::strings::hi_spec().tray_resume@) == Seq::<Seq<char>>::empty(),
{
    reveal_strlit("Resume");
    let c = crate::strings::en_spec().tray_resume@;
    let s_en = c;
    lemma_keys_skip(c, c.len() as int);
    assert(c.subrange(c.len() as int, c.len() as int) =~= Seq::<char>::empty());
    assert(placeholder_keys(s_en) =~= Seq::<Seq<char>>::empty());
    reveal_strlit("Activar");
    let c = crate::strings::es_spec().tray_resume@;
    let s_es = c;
    lemma_keys_skip(c, c.len() as int);
    assert(c.subrange(c.len() as int, c.len() as int) =~= Seq::<char>::empty());
    assert(placeholder_keys(s_es) =~= Seq::<Seq<char>>::empty());
    reveal_strlit("Ipagpatuloy");
    let c = crate::strings::fil_spec().tray_resume@;
    let s_fil = c;
    lemma_keys_skip(c, c.len() as int);
    assert(c.subrange(c.len() as int, c.len() as int) =~= Seq::<char>::empty());
    assert(placeholder_keys(s_fil) =~= Seq::<Seq<char>>::empty());
    reveal_strlit("सक्रिय करें");
    let c = crate::strings::hi_spec().tray_resume@;
    let s_hi = c;
    lemma_keys_skip(c, c.len() as int);
    assert(c.subrange(c.len() as int, c.len() as int) =~= Seq::<char>::empty());
    assert(placeholder_keys(s_hi) =~= Seq::<Seq<char>>::empty());
}

proof fn keys_tray_pause_10()
    ensures
        placeholder_keys(crate::strings::en_spec().tray_pause_10@) == Seq::<Seq<char>>::empty(),
        placeholder_keys(crate::strings::es_spec().tray_pause_10@) == Seq::<Seq<char>>::empty(),
        placeholder_keys(crate::strings::fil_spec().tray_pause_10@) == Seq::<Seq<char>>::empty(),
        placeholder_keys(crate::strings::hi_spec().tray_pause_10@) == Seq::<Seq<char>>::empty(),
{
    reveal_strlit("Pause for 10 minutes");
    let c = crate::strings::en_spec().tray_pause_10@;
    let s_en = c;
    lemma_keys_skip(c, c.len() as int);
    assert(c.subrange(c.len() as int, c.len() as int) =~= Seq::<char>::empty());
    assert(placeholder_keys(s_en) =~= Seq::<Seq<char>>::empty());
    reveal_strlit("Pausar 10 minutos");
    let c = crate::strings::es_spec().tray_pause_10@;
    let s_es = c;
    lemma_keys_skip(c, c.len() as int);
    assert(c.subrange(c.len() as int, c.len() as int) =~= Seq::<char>::empty());
    assert(placeholder_keys(s_es) =~= Seq::<Seq<char>>::empty());
    reveal_strlit("I-pause nang 10 minuto");
    let c = crate::strings::fil_spec().tray_pause_10@;
    let s_fil = c;
    lemma_keys_skip(c, c.len() as int);
    assert(c.subrange(c.len() as int, c.len() as int) =~= Seq::<char>::empty());
    assert(placeholder_keys(s_fil) =~= Seq::<Seq<char>>::empty());
    reveal_strlit("10 मिनट के लिए रोकें");
    let c = crate::strings::hi_spec().tray_pause_10@;
    let s_hi = c;
    lemma_keys_skip(c, c.len() as int);
    assert(c.subrange(c.len() as int, c.len() as int) =~= Seq::<char>::empty());
    assert(placeholder_keys(s_hi) =~= Seq::<Seq<char>>::empty());
}

proof fn keys_tray_quit()
    ensures
        placeholder_keys(crate::strings::en_spec().tray_quit@) == Seq::<Seq<char>>::empty(),
        placeholder_keys(crate::strings::es_spec().tray_quit@) == Seq::<Seq<char>>::empty(),
        placeholder_keys(crate::strings::fil_spec().tray_quit@) == Seq::<Seq<char>>::empty(),
        placeholder_keys(crate::strings::hi_spec().tray_quit@) == Seq::<Seq<char>>::empty(),
{
    reveal_strlit("Quit");
    let c = crate::strings::en_spec().tray_quit@;
    let s_en = c;
    lemma_keys_skip(c, c.len() as int);
    assert(c.subrange(c.len() as int, c.len() as int) =~= Seq::<char>::empty());
    assert(placeholder_keys(s_en) =~= Seq::<Seq<char>>::empty());
    reveal_strlit("Salir");
    let c = crate::strings::es_spec().tray_quit@;
    let s_es = c;
    lemma_keys_skip(c, c.len() as int);
    assert(c.subrange(c.len() as int, c.len() as int) =~= Seq::<char>::empty());
    assert(placeholder_keys(s_es) =~= Seq::<Seq<char>>::empty());
    reveal_strlit("Lumabas");
    let c = crate::strings::fil_spec().tray_quit@;
    let s_fil = c;
    lemma_keys_skip(c, c.len() as int);
    assert(c.subrange(c.len() as int, c.len() as int) =~= Seq::<char>::empty());
    assert(placeholder_keys(s_fil) =~= Seq::<Seq<char>>::empty());
    reveal_strlit("बाहर निकलें");
    let c = crate::strings::hi_spec().tray_quit@;
    let s_hi = c;
    lemma_keys_skip(c, c.len() as int);
    assert(c.subrange(c.len() as int, c.len() as int) =~= Seq::<char>::empty());
    assert(placeholder_keys(s_hi) =~= Seq::<Seq<char>>::empty());
}

proof fn keys_tray_tooltip()
    ensures
        placeholder_keys(crate::strings::en_spec().tray_tooltip@) == Seq::<Seq<char>>::empty(),
        placeholder_keys(crate::strings::es_spec().tray_tooltip@) == Seq::<Seq<char>>::empty(),
        placeholder_keys(crate::strings::fil_spec().tray_tooltip@) == Seq::<Seq<char>>::empty(),
        placeholder_keys(crate::strings::hi_spec().tray_tooltip@) == Seq::<Seq<char>>::empty(),
{
    reveal_strlit("Espanso — click to open, right-click to pause");
    let c = crate::strings::en_spec().tray_tooltip@;
    let s_en = c;
    lemma_keys_skip(c, c.len() as int);
    assert(c.subrange(c.len() as int, c.len() as int) =~= Seq::<char>::empty());
    assert(placeholder_keys(s_en) =~= Seq::<Seq<char>>::empty());
    reveal_strlit("Espanso — clic para abrir, clic derecho para pausar");
    let c = crate::strings::es_spec().tray_tooltip@;
    let s_es = c;
    lemma_keys_skip(c, c.len() as int);
    assert(c.subrange(c.len() as int, c.len() as int) =~= Seq::<char>::empty());
    assert(placeholder_keys(s_es) =~= Seq::<Seq<char>>::empty());
    reveal_strlit("Espanso — i-click para buksan, i-right-click para i-pause");
    let c = crate::strings::fil_spec().tray_tooltip@;
    let s_fil = c;
    lemma_keys_skip(c, c.len() as int);
    assert(c.subrange(c.len() as int, c.len() as int) =~= Seq::<char>::empty());
    assert(placeholder_keys(s_fil) =~= Seq::<Seq<char>>::empty());
    reveal_strlit("Espanso — खोलने के लिए क्लिक करें, रोकने के लिए दायाँ क्लिक करें");
    let c = crate::strings::hi_spec().tray_tooltip@;
    let s_hi = c;
    lemma_keys_skip(c, c.len() as int);
    assert(c.subrange(c.len() as int, c.len() as int) =~= Seq::<char>::empty());
    assert(placeholder_keys(s_hi) =~= Seq::<Seq<char>>::empty());
}

proof fn keys_already_running()
    ensures
        placeholder_keys(crate::strings::en_spec().already_running@) == Seq::<Seq<char>>::empty(),
        placeholder_keys(crate::strings::es_spec().already_running@) == Seq::<Seq<char>>::empty(),
        placeholder_keys(crate::strings::fil_spec().already_running@) == Seq::<Seq<char>>::empty(),
        placeholder_keys(crate::strings::hi_spec().already_running@) == Seq::<Seq<char>>::empty(),
{
    reveal_strlit("EspansoManager is already running. Look for it in the system tray, next to the clock (it may be hidden behind the arrow for hidden icons).");
    let c = crate::strings::en_spec().already_running@;
    let s_en = c;
    lemma_keys_skip(c, c.len() as int);
    assert(c.subrange(c.len() as int, c.len() as int) =~= Seq::<char>::empty());
    assert(placeholder_keys(s_en) =~= Seq::<Seq<char>>::empty());
    reveal_strlit("EspansoManager ya se está ejecutando. Búscalo en la bandeja del sistema, junto al reloj (puede estar oculto en la flecha de íconos ocultos).");
    let c = crate::strings::es_spec().already_running@;
    let s_es = c;
    lemma_keys_skip(c, c.len() as int);
    assert(c.subrange(c.len() as int, c.len() as int) =~= Seq::<char>::empty());
    assert(placeholder_keys(s_es) =~= Seq::<Seq<char>>::empty());
    reveal_strlit("Tumatakbo na ang EspansoManager. Hanapin ito sa system tray, katabi ng orasan (maaaring nakatago ito sa likod ng arrow para sa mga nakatagong icon).");
    let c = crate::strings::fil_spec().already_running@;
    let s_fil = c;
    lemma_keys_skip(c, c.len() as int);
    assert(c.subrange(c.len() as int, c.len() as int) =~= Seq::<char>::empty());
    assert(placeholder_keys(s_fil) =~= Seq::<Seq<char>>::empty());
    reveal_strlit("EspansoManager पहले से चल रहा है। इसे सिस्टम ट्रे में, घड़ी के पास देखें (यह छिपे हुए आइकनों वाले तीर के पीछे हो सकता है)।");
    let c = crate::strings::hi_spec().already_running@;
    let s_hi = c;
    lemma_keys_skip(c, c.len() as int);
    assert(c.subrange(c.len() as int, c.len() as int) =~= Seq::<char>::empty());
    assert(placeholder_keys(s_hi) =~= Seq::<Seq<char>>::empty());
}

proof fn keys_instance_guard_warning()
    ensures
        placeholder_keys(crate::strings::en_spec().instance_guard_warning@) == seq!["err"@],
        placeholder_keys(crate::strings::es_spec().instance_guard_warning@) == seq!["err"@],
        placeholder_keys(crate::strings::fil_spec().instance_guard_warning@) == seq!["err"@],
        placeholder_keys(crate::strings::hi_spec().instance_guard_warning@) == seq!["err"@],
{
    reveal_strlit("err");
    reveal_strlit("Windows would not grant the lock that stops two copies of EspansoManager running at once: {err}\n\nThe app has started anyway. The only consequence is that a second copy could now open alongside this one — if you see two icons in the system tray, close one of them.");
    let c = crate::strings::en_spec().instance_guard_warning@;
    let s_en = c;
    lemma_keys_skip(c, 90);
    let c = c.subrange(90, c.len() as int);
    lemma_keys_token(c, 3);
    let k0 = c.subrange(1, 4);
    let c = c.subrange(5, c.len() as int);
    lemma_keys_skip(c, c.len() as int);
    assert(c.subrange(c.len() as int, c.len() as int) =~= Seq::<char>::empty());
    assert(k0 =~= "err"@);
    assert(placeholder_keys(s_en) =~= seq!["err"@]);
    reveal_strlit("Windows no concedió el bloqueo que impide que se ejecuten dos copias de EspansoManager a la vez: {err}\n\nLa aplicación se abrió de todas formas. La única consecuencia es que ahora podría abrirse una segunda copia junto a esta: si ves dos íconos en la bandeja del sistema, cierra uno.");
    let c = crate::strings::es_spec().instance_guard_warning@;
    let s_es = c;
    lemma_keys_skip(c, 97);
    let c = c.subrange(97, c.len() as int);
    lemma_keys_token(c, 3);
    let k0 = c.subrange(1, 4);
    let c = c.subrange(5, c.len() as int);
    lemma_keys_skip(c, c.len() as int);
    assert(c.subrange(c.len() as int, c.len() as int) =~= Seq::<char>::empty());
    assert(k0 =~= "err"@);
    assert(placeholder_keys(s_es) =~= seq!["err"@]);
    reveal_strlit("Hindi ibinigay ng Windows ang lock na pumipigil na tumakbo nang sabay ang dalawang kopya ng EspansoManager: {err}\n\nNagbukas pa rin ang app. Ang tanging epekto ay maaari nang magbukas ang pangalawang kopya sa tabi nito — kung may nakita kang dalawang icon sa system tray, isara mo ang isa.");
    let c = crate::strings::fil_spec().instance_guard_warning@;
    let s_fil = c;
    lemma_keys_skip(c, 108);
    let c = c.subrange(108, c.len() as int);
    lemma_keys_token(c, 3);
    let k0 = c.subrange(1, 4);
    let c = c.subrange(5, c.len() as int);
    lemma_keys_skip(c, c.len() as int);
    assert(c.subrange(c.len() as int, c.len() as int) =~= Seq::<char>::empty());
    assert(k0 =~= "err"@);
    assert(placeholder_keys(s_fil) =~= seq!["err"@]);
    reveal_strlit("Windows ने वह लॉक नहीं दिया जो EspansoManager की दो प्रतियों को एक साथ चलने से रोकता है: {err}\n\nऐप फिर भी खुल गया। इसका एकमात्र असर यह है कि अब इसके साथ दूसरी प्रति भी खुल सकती है — अगर सिस्टम ट्रे में दो आइकन दिखें, तो एक बंद कर दें।");
    let c = crate::strings::hi_spec().instance_guard_warning@;
    let s_hi = c;
    lemma_keys_skip(c, 89);
    let c = c.subrange(89, c.len() as int);
    lemma_keys_token(c, 3);
    let k0 = c.subrange(1, 4);
    let c = c.subrange(5, c.len() as int);
    lemma_keys_skip(c, c.len() as int);
    assert(c.subrange(c.len() as int, c.len() as int) =~= Seq::<char>::empty());
    assert(k0 =~= "err"@);
    assert(placeholder_keys(s_hi) =~= seq!["err"@]);
}

proof fn keys_settings_damaged()
    ensures
        placeholder_keys(crate::strings::en_spec().settings_damaged@) == seq!["name"@],
        placeholder_keys(crate::strings::es_spec().settings_damaged@) == seq!["name"@],
        placeholder_keys(crate::strings::fil_spec().settings_damaged@) == seq!["name"@],
        placeholder_keys(crate::strings::hi_spec().settings_damaged@) == seq!["name"@],
{
    reveal_strlit("name");
    reveal_strlit("Your settings file could not be read as settings, so EspansoManager has started with the defaults — which means your folders are not there. The old file was kept as {name}; nothing has been deleted.");
    let c = crate::strings::en_spec().settings_damaged@;
    let s_en = c;
    lemma_keys_skip(c, 165);
    let c = c.subrange(165, c.len() as int);
    lemma_keys_token(c, 4);
    let k0 = c.subrange(1, 5);
    let c = c.subrange(6, c.len() as int);
    lemma_keys_skip(c, c.len() as int);
    assert(c.subrange(c.len() as int, c.len() as int) =~= Seq::<char>::empty());
    assert(k0 =~= "name"@);
    assert(placeholder_keys(s_en) =~= seq!["name"@]);
    reveal_strlit("El archivo de ajustes no se pudo leer como tal, así que EspansoManager arrancó con los valores por defecto: tus carpetas no están. El archivo anterior se guardó como {name}; no se ha borrado nada.");
    let c = crate::strings::es_spec().settings_damaged@;
    let s_es = c;
    lemma_keys_skip(c, 166);
    let c = c.subrange(166, c.len() as int);
    lemma_keys_token(c, 4);
    let k0 = c.subrange(1, 5);
    let c = c.subrange(6, c.len() as int);
    lemma_keys_skip(c, c.len() as int);
    assert(c.subrange(c.len() as int, c.len() as int) =~= Seq::<char>::empty());
    assert(k0 =~= "name"@);
    assert(placeholder_keys(s_es) =~= seq!["name"@]);
    reveal_strlit("Hindi mabasa bilang settings ang settings file mo, kaya nagsimula ang EspansoManager sa mga default — ibig sabihin, wala ang mga folder mo. Itinabi ang lumang file bilang {name}; walang binura.");
    let c = crate::strings::fil_spec().settings_damaged@;
    let s_fil = c;
    lemma_keys_skip(c, 171);
    let c = c.subrange(171, c.len() as int);
    lemma_keys_token(c, 4);
    let k0 = c.subrange(1, 5);
    let c = c.subrange(6, c.len() as int);
    lemma_keys_skip(c, c.len() as int);
    assert(c.subrange(c.len() as int, c.len() as int) =~= Seq::<char>::empty());
    assert(k0 =~= "name"@);
    assert(placeholder_keys(s_fil) =~= seq!["name"@]);
    reveal_strlit("आपकी सेटिंग्स फ़ाइल सेटिंग्स के रूप में नहीं पढ़ी जा सकी, इसलिए EspansoManager डिफ़ॉल्ट मानों के साथ शुरू हुआ — यानी आपके फ़ोल्डर मौजूद नहीं हैं। पुरानी फ़ाइल {name} के नाम से रख दी गई है; कुछ भी मिटाया नहीं गया।");
    let c = crate::strings::hi_spec().settings_damaged@;
    let s_hi = c;
    lemma_keys_skip(c, 159);
    let c = c.subrange(159, c.len() as int);
    lemma_keys_token(c, 4);
    let k0 = c.subrange(1, 5);
    let c = c.subrange(6, c.len() as int);
    lemma_keys_skip(c, c.len() as int);
    assert(c.subrange(c.len() as int, c.len() as int) =~= Seq::<char>::empty());
    assert(k0 =~= "name"@);
    assert(placeholder_keys(s_hi) =~= seq!["name"@]);
}

proof fn keys_settings_damaged_lost()
    ensures
        placeholder_keys(crate::strings::en_spec().settings_damaged_lost@) == Seq::<Seq<char>>::empty(),
        placeholder_keys(crate::strings::es_spec().settings_damaged_lost@) == Seq::<Seq<char>>::empty(),
        placeholder_keys(crate::strings::fil_spec().settings_damaged_lost@) == Seq::<Seq<char>>::empty(),
        placeholder_keys(crate::strings::hi_spec().settings_damaged_lost@) == Seq::<Seq<char>>::empty(),
{
    reveal_strlit("Your settings file could not be read as settings, so EspansoManager has started with the defaults — which means your folders are not there. The old file could not be moved out of the way either, so the next change you save will replace it.");
    let c = crate::strings::en_spec().settings_damaged_lost@;
    let s_en = c;
    lemma_keys_skip(c, c.len() as int);
    assert(c.subrange(c.len() as int, c.len() as int) =~= Seq::<char>::empty());
    assert(placeholder_keys(s_en) =~= Seq::<Seq<char>>::empty());
    reveal_strlit("El archivo de ajustes no se pudo leer como tal, así que EspansoManager arrancó con los valores por defecto: tus carpetas no están. Tampoco se pudo apartar el archivo anterior, así que el próximo cambio que guardes lo reemplazará.");
    let c = crate::strings::es_spec().settings_damaged_lost@;
    let s_es = c;
    lemma_keys_skip(c, c.len() as int);
    assert(c.subrange(c.len() as int, c.len() as int) =~= Seq::<char>::empty());
    assert(placeholder_keys(s_es) =~= Seq::<Seq<char>>::empty());
    reveal_strlit("Hindi mabasa bilang settings ang settings file mo, kaya nagsimula ang EspansoManager sa mga default — ibig sabihin, wala ang mga folder mo. Hindi rin ito naitabi, kaya papalitan ito ng susunod mong i-save.");
    let c = crate::strings::fil_spec().settings_damaged_lost@;
    let s_fil = c;
    lemma_keys_skip(c, c.len() as int);
    assert(c.subrange(c.len() as int, c.len() as int) =~= Seq::<char>::empty());
    assert(placeholder_keys(s_fil) =~= Seq::<Seq<char>>::empty());
    reveal_strlit("आपकी सेटिंग्स फ़ाइल सेटिंग्स के रूप में नहीं पढ़ी जा सकी, इसलिए EspansoManager डिफ़ॉल्ट मानों के साथ शुरू हुआ — यानी आपके फ़ोल्डर मौजूद नहीं हैं। पुरानी फ़ाइल हटाकर सुरक्षित भी नहीं की जा सकी, इसलिए अगली बार सहेजने पर वह बदल जाएगी।");
    let c = crate::strings::hi_spec().settings_damaged_lost@;
    let s_hi = c;
    lemma_keys_skip(c, c.len() as int);
    assert(c.subrange(c.len() as int, c.len() as int) =~= Seq::<char>::empty());
    assert(placeholder_keys(s_hi) =~= Seq::<Seq<char>>::empty());
}

proof fn keys_settings_unreadable()
    ensures
        placeholder_keys(crate::strings::en_spec().settings_unreadable@) == seq!["err"@],
        placeholder_keys(crate::strings::es_spec().settings_unreadable@) == seq!["err"@],
        placeholder_keys(crate::strings::fil_spec().settings_unreadable@) == seq!["err"@],
        placeholder_keys(crate::strings::hi_spec().settings_unreadable@) == seq!["err"@],
{
    reveal_strlit("err");
    reveal_strlit("Your settings file could not be opened: {err}\n\nEspansoManager has started with the defaults, so your folders are not showing. The file itself has not been touched — close whatever may be holding it and open the app again.");
    let c = crate::strings::en_spec().settings_unreadable@;
    let s_en = c;
    lemma_keys_skip(c, 40);
    let c = c.subrange(40, c.len() as int);
    lemma_keys_token(c, 3);
    let k0 = c.subrange(1, 4);
    let c = c.subrange(5, c.len() as int);
    lemma_keys_skip(c, c.len() as int);
    assert(c.subrange(c.len() as int, c.len() as int) =~= Seq::<char>::empty());
    assert(k0 =~= "err"@);
    assert(placeholder_keys(s_en) =~= seq!["err"@]);
    reveal_strlit("No se pudo abrir el archivo de ajustes: {err}\n\nEspansoManager arrancó con los valores por defecto, así que tus carpetas no aparecen. El archivo no se ha tocado: cierra lo que pueda estar reteniéndolo y vuelve a abrir la aplicación.");
    let c = crate::strings::es_spec().settings_unreadable@;
    let s_es = c;
    lemma_keys_skip(c, 40);
    let c = c.subrange(40, c.len() as int);
    lemma_keys_token(c, 3);
    let k0 = c.subrange(1, 4);
    let c = c.subrange(5, c.len() as int);
    lemma_keys_skip(c, c.len() as int);
    assert(c.subrange(c.len() as int, c.len() as int) =~= Seq::<char>::empty());
    assert(k0 =~= "err"@);
    assert(placeholder_keys(s_es) =~= seq!["err"@]);
    reveal_strlit("Hindi mabuksan ang settings file mo: {err}\n\nNagsimula ang EspansoManager sa mga default, kaya hindi lumalabas ang mga folder mo. Hindi ginalaw ang file — isara ang anumang maaaring humahawak dito at buksang muli ang app.");
    let c = crate::strings::fil_spec().settings_unreadable@;
    let s_fil = c;
    lemma_keys_skip(c, 37);
    let c = c.subrange(37, c.len() as int);
    lemma_keys_token(c, 3);
    let k0 = c.subrange(1, 4);
    let c = c.subrange(5, c.len() as int);
    lemma_keys_skip(c, c.len() as int);
    assert(c.subrange(c.len() as int, c.len() as int) =~= Seq::<char>::empty());
    assert(k0 =~= "err"@);
    assert(placeholder_keys(s_fil) =~= seq!["err"@]);
    reveal_strlit("आपकी सेटिंग्स फ़ाइल खोली नहीं जा सकी: {err}\n\nEspansoManager डिफ़ॉल्ट मानों के साथ शुरू हुआ, इसलिए आपके फ़ोल्डर नहीं दिख रहे। फ़ाइल को छुआ नहीं गया है — जो कुछ भी उसे रोक रहा हो उसे बंद करें और ऐप दोबारा खोलें।");
    let c = crate::strings::hi_spec().settings_unreadable@;
    let s_hi = c;
    lemma_keys_skip(c, 38);
    let c = c.subrange(38, c.len() as int);
    lemma_keys_token(c, 3);
    let k0 = c.subrange(1, 4);
    let c = c.subrange(5, c.len() as int);
    lemma_keys_skip(c, c.len() as int);
    assert(c.subrange(c.len() as int, c.len() as int) =~= Seq::<char>::empty());
    assert(k0 =~= "err"@);
    assert(placeholder_keys(s_hi) =~= seq!["err"@]);
}

proof fn keys_panic_title()
    ensures
        placeholder_keys(crate::strings::en_spec().panic_title@) == Seq::<Seq<char>>::empty(),
        placeholder_keys(crate::strings::es_spec().panic_title@) == Seq::<Seq<char>>::empty(),
        placeholder_keys(crate::strings::fil_spec().panic_title@) == Seq::<Seq<char>>::empty(),
        placeholder_keys(crate::strings::hi_spec().panic_title@) == Seq::<Seq<char>>::empty(),
{
    reveal_strlit("EspansoManager hit an unexpected error");
    let c = crate::strings::en_spec().panic_title@;
    let s_en = c;
    lemma_keys_skip(c, c.len() as int);
    assert(c.subrange(c.len() as int, c.len() as int) =~= Seq::<char>::empty());
    assert(placeholder_keys(s_en) =~= Seq::<Seq<char>>::empty());
    reveal_strlit("EspansoManager encontró un error inesperado");
    let c = crate::strings::es_spec().panic_title@;
    let s_es = c;
    lemma_keys_skip(c, c.len() as int);
    assert(c.subrange(c.len() as int, c.len() as int) =~= Seq::<char>::empty());
    assert(placeholder_keys(s_es) =~= Seq::<Seq<char>>::empty());
    reveal_strlit("Nakaranas ang EspansoManager ng hindi inaasahang error");
    let c = crate::strings::fil_spec().panic_title@;
    let s_fil = c;
    lemma_keys_skip(c, c.len() as int);
    assert(c.subrange(c.len() as int, c.len() as int) =~= Seq::<char>::empty());
    assert(placeholder_keys(s_fil) =~= Seq::<Seq<char>>::empty());
    reveal_strlit("EspansoManager में एक अप्रत्याशित त्रुटि हुई");
    let c = crate::strings::hi_spec().panic_title@;
    let s_hi = c;
    lemma_keys_skip(c, c.len() as int);
    assert(c.subrange(c.len() as int, c.len() as int) =~= Seq::<char>::empty());
    assert(placeholder_keys(s_hi) =~= Seq::<Seq<char>>::empty());
}

proof fn keys_panic_body()
    ensures
        placeholder_keys(crate::strings::en_spec().panic_body@) == seq!["location"@, "message"@],
        placeholder_keys(crate::strings::es_spec().panic_body@) == seq!["location"@, "message"@],
        placeholder_keys(crate::strings::fil_spec().panic_body@) == seq!["location"@, "message"@],
        placeholder_keys(crate::strings::hi_spec().panic_body@) == seq!["location"@, "message"@],
{
    reveal_strlit("location");
    reveal_strlit("message");
    reveal_strlit("EspansoManager had to close because of an unexpected internal error.\n\nYour saved expansions are not affected.\n\nTechnical detail ({location}):\n{message}");
    let c = crate::strings::en_spec().panic_body@;
    let s_en = c;
    lemma_keys_skip(c, 129);
    let c = c.subrange(129, c.len() as int);
    lemma_keys_token(c, 8);
    let k0 = c.subrange(1, 9);
    let c = c.subrange(10, c.len() as int);
    lemma_keys_skip(c, 3);
    let c = c.subrange(3, c.len() as int);
    lemma_keys_token(c, 7);
    let k1 = c.subrange(1, 8);
    let c = c.subrange(9, c.len() as int);
    lemma_keys_skip(c, c.len() as int);
    assert(c.subrange(c.len() as int, c.len() as int) =~= Seq::<char>::empty());
    assert(k0 =~= "location"@);
    assert(k1 =~= "message"@);
    assert(placeholder_keys(s_en) =~= seq!["location"@, "message"@]);
    reveal_strlit("EspansoManager tuvo que cerrarse por un error interno inesperado.\n\nTus expansiones guardadas no se ven afectadas.\n\nDetalle técnico ({location}):\n{message}");
    let c = crate::strings::es_spec().panic_body@;
    let s_es = c;
    lemma_keys_skip(c, 132);
    let c = c.subrange(132, c.len() as int);
    lemma_keys_token(c, 8);
    let k0 = c.subrange(1, 9);
    let c = c.subrange(10, c.len() as int);
    lemma_keys_skip(c, 3);
    let c = c.subrange(3, c.len() as int);
    lemma_keys_token(c, 7);
    let k1 = c.subrange(1, 8);
    let c = c.subrange(9, c.len() as int);
    lemma_keys_skip(c, c.len() as int);
    assert(c.subrange(c.len() as int, c.len() as int) =~= Seq::<char>::empty());
    assert(k0 =~= "location"@);
    assert(k1 =~= "message"@);
    assert(placeholder_keys(s_es) =~= seq!["location"@, "message"@]);
    reveal_strlit("Kinailangang isara ang EspansoManager dahil sa hindi inaasahang internal na error.\n\nHindi apektado ang iyong mga na-save na expansion.\n\nTeknikal na detalye ({location}):\n{message}");
    let c = crate::strings::fil_spec().panic_body@;
    let s_fil = c;
    lemma_keys_skip(c, 157);
    let c = c.subrange(157, c.len() as int);
    lemma_keys_token(c, 8);
    let k0 = c.subrange(1, 9);
    let c = c.subrange(10, c.len() as int);
    lemma_keys_skip(c, 3);
    let c = c.subrange(3, c.len() as int);
    lemma_keys_token(c, 7);
    let k1 = c.subrange(1, 8);
    let c = c.subrange(9, c.len() as int);
    lemma_keys_skip(c, c.len() as int);
    assert(c.subrange(c.len() as int, c.len() as int) =~= Seq::<char>::empty());
    assert(k0 =~= "location"@);
    assert(k1 =~= "message"@);
    assert(placeholder_keys(s_fil) =~= seq!["location"@, "message"@]);
    reveal_strlit("एक अप्रत्याशित आंतरिक त्रुटि के कारण EspansoManager को बंद करना पड़ा।\n\nआपके सहेजे गए विस्तार प्रभावित नहीं हुए हैं।\n\nतकनीकी विवरण ({location}):\n{message}");
    let c = crate::strings::hi_spec().panic_body@;
    let s_hi = c;
    lemma_keys_skip(c, 131);
    let c = c.subrange(131, c.len() as int);
    lemma_keys_token(c, 8);
    let k0 = c.subrange(1, 9);
    let c = c.subrange(10, c.len() as int);
    lemma_keys_skip(c, 3);
    let c = c.subrange(3, c.len() as int);
    lemma_keys_token(c, 7);
    let k1 = c.subrange(1, 8);
    let c = c.subrange(9, c.len() as int);
    lemma_keys_skip(c, c.len() as int);
    assert(c.subrange(c.len() as int, c.len() as int) =~= Seq::<char>::empty());
    assert(k0 =~= "location"@);
    assert(k1 =~= "message"@);
    assert(placeholder_keys(s_hi) =~= seq!["location"@, "message"@]);
}

proof fn keys_tray_error()
    ensures
        placeholder_keys(crate::strings::en_spec().tray_error@) == seq!["err"@],
        placeholder_keys(crate::strings::es_spec().tray_error@) == seq!["err"@],
        placeholder_keys(crate::strings::fil_spec().tray_error@) == seq!["err"@],
        placeholder_keys(crate::strings::hi_spec().tray_error@) == seq!["err"@],
{
    reveal_strlit("err");
    reveal_strlit("Could not create the system tray icon: {err}\n\nEspanso is still running, and its own icon has been given back to it — you can pause or quit it from there. If this keeps happening, check that the .espanso-runtime folder still has its .ico files.");
    let c = crate::strings::en_spec().tray_error@;
    let s_en = c;
    lemma_keys_skip(c, 39);
    let c = c.subrange(39, c.len() as int);
    lemma_keys_token(c, 3);
    let k0 = c.subrange(1, 4);
    let c = c.subrange(5, c.len() as int);
    lemma_keys_skip(c, c.len() as int);
    assert(c.subrange(c.len() as int, c.len() as int) =~= Seq::<char>::empty());
    assert(k0 =~= "err"@);
    assert(placeholder_keys(s_en) =~= seq!["err"@]);
    reveal_strlit("No se pudo crear el ícono en la bandeja del sistema: {err}\n\nEspanso sigue funcionando y se le devolvió su propio ícono: desde ahí puedes pausarlo o cerrarlo. Si vuelve a ocurrir, revisa que la carpeta .espanso-runtime conserve sus archivos .ico.");
    let c = crate::strings::es_spec().tray_error@;
    let s_es = c;
    lemma_keys_skip(c, 53);
    let c = c.subrange(53, c.len() as int);
    lemma_keys_token(c, 3);
    let k0 = c.subrange(1, 4);
    let c = c.subrange(5, c.len() as int);
    lemma_keys_skip(c, c.len() as int);
    assert(c.subrange(c.len() as int, c.len() as int) =~= Seq::<char>::empty());
    assert(k0 =~= "err"@);
    assert(placeholder_keys(s_es) =~= seq!["err"@]);
    reveal_strlit("Hindi magawa ang icon sa system tray: {err}\n\nTumatakbo pa rin ang Espanso at naibalik na sa kanya ang sarili niyang icon — mula roon ay maaari mo siyang i-pause o isara. Kung paulit-ulit itong nangyayari, tingnan kung nasa .espanso-runtime folder pa ang mga .ico file nito.");
    let c = crate::strings::fil_spec().tray_error@;
    let s_fil = c;
    lemma_keys_skip(c, 38);
    let c = c.subrange(38, c.len() as int);
    lemma_keys_token(c, 3);
    let k0 = c.subrange(1, 4);
    let c = c.subrange(5, c.len() as int);
    lemma_keys_skip(c, c.len() as int);
    assert(c.subrange(c.len() as int, c.len() as int) =~= Seq::<char>::empty());
    assert(k0 =~= "err"@);
    assert(placeholder_keys(s_fil) =~= seq!["err"@]);
    reveal_strlit("सिस्टम ट्रे आइकन नहीं बनाया जा सका: {err}\n\nEspanso अब भी चल रहा है और उसका अपना आइकन उसे लौटा दिया गया है — वहीं से आप उसे रोक या बंद कर सकते हैं। अगर यह बार-बार हो, तो देखें कि .espanso-runtime फ़ोल्डर में उसकी .ico फ़ाइलें मौजूद हैं या नहीं।");
    let c = crate::strings::hi_spec().tray_error@;
    let s_hi = c;
    lemma_keys_skip(c, 36);
    let c = c.subrange(36, c.len() as int);
    lemma_keys_token(c, 3);
    let k0 = c.subrange(1, 4);
    let c = c.subrange(5, c.len() as int);
    lemma_keys_skip(c, c.len() as int);
    assert(c.subrange(c.len() as int, c.len() as int) =~= Seq::<char>::empty());
    assert(k0 =~= "err"@);
    assert(placeholder_keys(s_hi) =~= seq!["err"@]);
}

proof fn keys_startup_espanso_warning()
    ensures
        placeholder_keys(crate::strings::en_spec().startup_espanso_warning@) == seq!["err"@],
        placeholder_keys(crate::strings::es_spec().startup_espanso_warning@) == seq!["err"@],
        placeholder_keys(crate::strings::fil_spec().startup_espanso_warning@) == seq!["err"@],
        placeholder_keys(crate::strings::hi_spec().startup_espanso_warning@) == seq!["err"@],
{
    reveal_strlit("err");
    reveal_strlit("Could not confirm that Espanso is running: {err}\n\nEspansoManager will stay open so you can review the configuration, but text expansions may not be active yet.");
    let c = crate::strings::en_spec().startup_espanso_warning@;
    let s_en = c;
    lemma_keys_skip(c, 43);
    let c = c.subrange(43, c.len() as int);
    lemma_keys_token(c, 3);
    let k0 = c.subrange(1, 4);
    let c = c.subrange(5, c.len() as int);
    lemma_keys_skip(c, c.len() as int);
    assert(c.subrange(c.len() as int, c.len() as int) =~= Seq::<char>::empty());
    assert(k0 =~= "err"@);
    assert(placeholder_keys(s_en) =~= seq!["err"@]);
    reveal_strlit("No se pudo confirmar que Espanso esté funcionando: {err}\n\nEspansoManager seguirá abierto para que puedas revisar la configuración, pero las expansiones de texto podrían no estar activas todavía.");
    let c = crate::strings::es_spec().startup_espanso_warning@;
    let s_es = c;
    lemma_keys_skip(c, 51);
    let c = c.subrange(51, c.len() as int);
    lemma_keys_token(c, 3);
    let k0 = c.subrange(1, 4);
    let c = c.subrange(5, c.len() as int);
    lemma_keys_skip(c, c.len() as int);
    assert(c.subrange(c.len() as int, c.len() as int) =~= Seq::<char>::empty());
    assert(k0 =~= "err"@);
    assert(placeholder_keys(s_es) =~= seq!["err"@]);
    reveal_strlit("Hindi makumpirma na tumatakbo ang Espanso: {err}\n\nMananatiling bukas ang EspansoManager para masuri mo ang configuration, ngunit maaaring hindi pa aktibo ang mga text expansion.");
    let c = crate::strings::fil_spec().startup_espanso_warning@;
    let s_fil = c;
    lemma_keys_skip(c, 43);
    let c = c.subrange(43, c.len() as int);
    lemma_keys_token(c, 3);
    let k0 = c.subrange(1, 4);
    let c = c.subrange(5, c.len() as int);
    lemma_keys_skip(c, c.len() as int);
    assert(c.subrange(c.len() as int, c.len() as int) =~= Seq::<char>::empty());
    assert(k0 =~= "err"@);
    assert(placeholder_keys(s_fil) =~= seq!["err"@]);
    reveal_strlit("पुष्टि नहीं हो सकी कि Espanso चल रहा है: {err}\n\nEspansoManager खुला रहेगा ताकि आप कॉन्फ़िगरेशन देख सकें, लेकिन हो सकता है कि टेक्स्ट विस्तार अभी सक्रिय न हों।");
    let c = crate::strings::hi_spec().startup_espanso_warning@;
    let s_hi = c;
    lemma_keys_skip(c, 41);
    let c = c.subrange(41, c.len() as int);
    lemma_keys_token(c, 3);
    let k0 = c.subrange(1, 4);
    let c = c.subrange(5, c.len() as int);
    lemma_keys_skip(c, c.len() as int);
    assert(c.subrange(c.len() as int, c.len() as int) =~= Seq::<char>::empty());
    assert(k0 =~= "err"@);
    assert(placeholder_keys(s_hi) =~= seq!["err"@]);
}

proof fn keys_config_patch_warning()
    ensures
        placeholder_keys(crate::strings::en_spec().config_patch_warning@) == seq!["err"@],
        placeholder_keys(crate::strings::es_spec().config_patch_warning@) == seq!["err"@],
        placeholder_keys(crate::strings::fil_spec().config_patch_warning@) == seq!["err"@],
        placeholder_keys(crate::strings::hi_spec().config_patch_warning@) == seq!["err"@],
{
    reveal_strlit("err");
    reveal_strlit("Could not adjust Espanso's own settings: {err}\n\nEspanso may go on showing its tray icon and its Windows notifications next to EspansoManager's. Check that default.yml can be read and is saved as UTF-8.");
    let c = crate::strings::en_spec().config_patch_warning@;
    let s_en = c;
    lemma_keys_skip(c, 41);
    let c = c.subrange(41, c.len() as int);
    lemma_keys_token(c, 3);
    let k0 = c.subrange(1, 4);
    let c = c.subrange(5, c.len() as int);
    lemma_keys_skip(c, c.len() as int);
    assert(c.subrange(c.len() as int, c.len() as int) =~= Seq::<char>::empty());
    assert(k0 =~= "err"@);
    assert(placeholder_keys(s_en) =~= seq!["err"@]);
    reveal_strlit("No se pudo ajustar la configuración de Espanso: {err}\n\nEspanso podría seguir mostrando su icono en la bandeja y sus avisos de Windows junto a los de EspansoManager. Comprueba que default.yml se pueda leer y esté guardado como UTF-8.");
    let c = crate::strings::es_spec().config_patch_warning@;
    let s_es = c;
    lemma_keys_skip(c, 48);
    let c = c.subrange(48, c.len() as int);
    lemma_keys_token(c, 3);
    let k0 = c.subrange(1, 4);
    let c = c.subrange(5, c.len() as int);
    lemma_keys_skip(c, c.len() as int);
    assert(c.subrange(c.len() as int, c.len() as int) =~= Seq::<char>::empty());
    assert(k0 =~= "err"@);
    assert(placeholder_keys(s_es) =~= seq!["err"@]);
    reveal_strlit("Hindi naiayos ang sariling mga setting ng Espanso: {err}\n\nMaaaring ipagpatuloy ng Espanso ang pagpapakita ng tray icon nito at ng mga notification ng Windows katabi ng sa EspansoManager. Tiyaking nababasa ang default.yml at naka-save ito bilang UTF-8.");
    let c = crate::strings::fil_spec().config_patch_warning@;
    let s_fil = c;
    lemma_keys_skip(c, 51);
    let c = c.subrange(51, c.len() as int);
    lemma_keys_token(c, 3);
    let k0 = c.subrange(1, 4);
    let c = c.subrange(5, c.len() as int);
    lemma_keys_skip(c, c.len() as int);
    assert(c.subrange(c.len() as int, c.len() as int) =~= Seq::<char>::empty());
    assert(k0 =~= "err"@);
    assert(placeholder_keys(s_fil) =~= seq!["err"@]);
    reveal_strlit("Espanso की अपनी सेटिंग्स नहीं बदली जा सकीं: {err}\n\nEspansoManager के साथ-साथ Espanso अपना ट्रे आइकॉन और Windows सूचनाएँ दिखाता रह सकता है। जाँचें कि default.yml पढ़ा जा सकता है और UTF-8 में सहेजा गया है।");
    let c = crate::strings::hi_spec().config_patch_warning@;
    let s_hi = c;
    lemma_keys_skip(c, 44);
    let c = c.subrange(44, c.len() as int);
    lemma_keys_token(c, 3);
    let k0 = c.subrange(1, 4);
    let c = c.subrange(5, c.len() as int);
    lemma_keys_skip(c, c.len() as int);
    assert(c.subrange(c.len() as int, c.len() as int) =~= Seq::<char>::empty());
    assert(k0 =~= "err"@);
    assert(placeholder_keys(s_hi) =~= seq!["err"@]);
}

proof fn keys_hindi_font_missing()
    ensures
        placeholder_keys(crate::strings::en_spec().hindi_font_missing@) == Seq::<Seq<char>>::empty(),
        placeholder_keys(crate::strings::es_spec().hindi_font_missing@) == Seq::<Seq<char>>::empty(),
        placeholder_keys(crate::strings::fil_spec().hindi_font_missing@) == Seq::<Seq<char>>::empty(),
        placeholder_keys(crate::strings::hi_spec().hindi_font_missing@) == Seq::<Seq<char>>::empty(),
{
    reveal_strlit("Hindi was selected, but no font supporting Devanagari was found on this computer, so the text may not display correctly. Choose another language if you see empty boxes.");
    let c = crate::strings::en_spec().hindi_font_missing@;
    let s_en = c;
    lemma_keys_skip(c, c.len() as int);
    assert(c.subrange(c.len() as int, c.len() as int) =~= Seq::<char>::empty());
    assert(placeholder_keys(s_en) =~= Seq::<Seq<char>>::empty());
    reveal_strlit("Se seleccionó hindi, pero no se encontró en esta computadora ninguna fuente compatible con devanagari, así que el texto podría no verse bien. Elige otro idioma si ves cuadros vacíos.");
    let c = crate::strings::es_spec().hindi_font_missing@;
    let s_es = c;
    lemma_keys_skip(c, c.len() as int);
    assert(c.subrange(c.len() as int, c.len() as int) =~= Seq::<char>::empty());
    assert(placeholder_keys(s_es) =~= Seq::<Seq<char>>::empty());
    reveal_strlit("Napili ang Hindi, ngunit walang natagpuang font na sumusuporta sa Devanagari sa computer na ito, kaya maaaring hindi maipakita nang tama ang teksto. Pumili ng ibang wika kung may nakikita kang mga blangkong kahon.");
    let c = crate::strings::fil_spec().hindi_font_missing@;
    let s_fil = c;
    lemma_keys_skip(c, c.len() as int);
    assert(c.subrange(c.len() as int, c.len() as int) =~= Seq::<char>::empty());
    assert(placeholder_keys(s_fil) =~= Seq::<Seq<char>>::empty());
    reveal_strlit("हिन्दी चुनी गई, लेकिन इस कंप्यूटर पर देवनागरी का समर्थन करने वाला कोई फ़ॉन्ट नहीं मिला, इसलिए टेक्स्ट सही ढंग से नहीं दिख सकता। यदि आपको खाली बॉक्स दिखें तो कोई दूसरी भाषा चुनें।");
    let c = crate::strings::hi_spec().hindi_font_missing@;
    let s_hi = c;
    lemma_keys_skip(c, c.len() as int);
    assert(c.subrange(c.len() as int, c.len() as int) =~= Seq::<char>::empty());
    assert(placeholder_keys(s_hi) =~= Seq::<Seq<char>>::empty());
}

/// No translation drops, renames or adds a placeholder: every sentence of every language names
/// exactly the `{key}` placeholders of the English sentence it translates.
pub proof fn law_translations_keep_placeholders(lang: crate::i18n::Lang)
    ensures
        same_placeholders(crate::i18n::strings_spec(lang), crate::i18n::strings_spec(crate::i18n::Lang::En)),
{
    keys_app_title();
    keys_settings_button();
    keys_tips_title();
    keys_tips_button_tip();
    keys_tips_footer();
    keys_tip_search_title();
    keys_tip_search_body();
    keys_onboarding_title();
    keys_onboarding_intro();
    keys_onboarding_try_title();
    keys_onboarding_try_body();
    keys_onboarding_try_placeholder();
    keys_onboarding_try_ok();
    keys_onboarding_autostart_title();
    keys_onboarding_autostart_note();
    keys_onboarding_where_title();
    keys_onboarding_where_body();
    keys_onboarding_start();
    keys_search_window_hint();
    keys_search_window_empty();
    keys_search_window_footer();
    keys_tip_where_title();
    keys_tip_where_body();
    keys_tip_pin_title();
    keys_tip_pin_body();
    keys_tip_undo_title();
    keys_tip_undo_body();
    keys_tip_pause_title();
    keys_tip_pause_body();
    keys_tip_select_title();
    keys_tip_select_body();
    keys_new_expansion();
    keys_search_label();
    keys_empty_title();
    keys_empty_hint();
    keys_no_matches();
    keys_view_comfortable_tip();
    keys_view_compact_tip();
    keys_prefix_field_hint();
    keys_word_field_hint();
    keys_trigger_preview();
    keys_made_by();
    keys_credits_espanso();
    keys_edit_button();
    keys_edit_tip();
    keys_delete();
    keys_delete_tip();
    keys_rename_folder_tip();
    keys_delete_folder_tip();
    keys_save_name_tip();
    keys_cancel();
    keys_cancel_tip();
    keys_selected_count();
    keys_remove_from_folder();
    keys_delete_selected();
    keys_clear_selection_tip();
    keys_moving_n();
    keys_confirm_delete_folder_title();
    keys_confirm_delete_folder_body();
    keys_confirm_delete_selection_title();
    keys_confirm_delete_selection_body();
    keys_see_more();
    keys_edit_title_new();
    keys_edit_title_existing();
    keys_when_you_type();
    keys_will_be_replaced_by();
    keys_kind_text();
    keys_kind_date();
    keys_preset_date_only();
    keys_preset_datetime_utc();
    keys_preset_month_day_year();
    keys_preset_day_month_year();
    keys_month_language_label();
    keys_month_language_hint();
    keys_preset_custom();
    keys_blocks_hint();
    keys_blocks_empty();
    keys_blocks_fields();
    keys_blocks_separators();
    keys_blocks_remove_tip();
    keys_blocks_advanced();
    keys_block_year();
    keys_block_month_name();
    keys_block_month_number();
    keys_block_day();
    keys_block_hour();
    keys_block_hour_utc();
    keys_blocks_utc_note();
    keys_block_minute();
    keys_block_space();
    keys_format_label();
    keys_folder_optional();
    keys_no_folder();
    keys_new_folder_placeholder();
    keys_add_new_folder();
    keys_name_label();
    keys_save();
    keys_back();
    keys_settings_title();
    keys_autostart_section();
    keys_autostart_checkbox();
    keys_autostart_hint();
    keys_appearance_section();
    keys_theme_system();
    keys_theme_light();
    keys_theme_dark();
    keys_theme_hint();
    keys_language_section();
    keys_language_hint();
    keys_transfer_section();
    keys_transfer_hint();
    keys_export_button();
    keys_import_button();
    keys_transfer_file_kind();
    keys_export_done();
    keys_export_error();
    keys_import_done();
    keys_import_done_skipped();
    keys_import_none_added();
    keys_import_not_ours();
    keys_import_error();
    keys_prefix_section();
    keys_prefix_hint();
    keys_custom_label();
    keys_apply_prefix();
    keys_apply_prefix_hint();
    keys_banner_close_tip();
    keys_undo();
    keys_move_undone();
    keys_autostart_on();
    keys_autostart_off();
    keys_autostart_error();
    keys_prefix_save_error();
    keys_view_save_error();
    keys_language_save_error();
    keys_theme_save_error();
    keys_prefix_already_applied();
    keys_prefix_collision();
    keys_prefix_confirm_title();
    keys_prefix_confirm_body();
    keys_prefix_confirm_more();
    keys_prefix_applied();
    keys_delete_one_title();
    keys_delete_one_body();
    keys_expansion_deleted();
    keys_trigger_empty();
    keys_trigger_duplicate();
    keys_trigger_shadow();
    keys_expansion_saved();
    keys_folder_deleted();
    keys_selection_deleted();
    keys_folder_name_taken();
    keys_folder_renamed();
    keys_moved_to_folder();
    keys_removed_from_folder();
    keys_preview_date();
    keys_preview_advanced_vars();
    keys_preview_advanced();
    keys_err_read_file();
    keys_err_parse_yaml();
    keys_err_self_check();
    keys_err_write_file();
    keys_save_backup_failed();
    keys_save_flush_failed();
    keys_err_validation_empty();
    keys_err_validation_duplicate();
    keys_err_espansod_missing();
    keys_err_espansod_timeout();
    keys_err_espanso_start();
    keys_err_espanso_no_response();
    keys_err_restart_unconfirmed();
    keys_err_espanso_action();
    keys_err_espanso_comm();
    keys_verb_pause_timed();
    keys_verb_pause();
    keys_verb_resume();
    keys_verb_auto_resume();
    keys_tray_pause();
    keys_tray_resume();
    keys_tray_pause_10();
    keys_tray_quit();
    keys_tray_tooltip();
    keys_already_running();
    keys_instance_guard_warning();
    keys_settings_damaged();
    keys_settings_damaged_lost();
    keys_settings_unreadable();
    keys_panic_title();
    keys_panic_body();
    keys_tray_error();
    keys_startup_espanso_warning();
    keys_config_patch_warning();
    keys_hindi_font_missing();
}

} // verus!
