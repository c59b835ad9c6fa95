use espanso_manager::date_blocks::Block;
use espanso_manager::edit_form::{EditState, Kind};
use espanso_manager::i18n::Lang;
use espanso_manager::presets::DatePreset;

fn date_kind(e: &EditState) -> Option<(Option<DatePreset>, String, String, Lang)> {
    match &e.kind {
        Kind::Date { preset, custom_format, custom_tz, month_lang } => {
            Some((*preset, custom_format.clone(), custom_tz.clone(), *month_lang))
        }
        Kind::Text { .. } => None,
    }
}

#[test]
fn crossing_the_switch_and_back_loses_nothing() {
    let mut e = EditState::new_for_create(":");
    e.kind = Kind::Text { replace: "work in progress".to_string() };
    e.switch_kind(true);
    assert_eq!(date_kind(&e), Some((Some(DatePreset::IsoDateOnly), "%Y-%m-%d".to_string(), String::new(), Lang::En)));
    e.pick_preset(DatePreset::DayMonthYear);
    e.switch_kind(false);
    assert!(matches!(&e.kind, Kind::Text { replace } if replace == "work in progress"));
    e.switch_kind(true);
    assert_eq!(date_kind(&e).map(|d| d.0), Some(Some(DatePreset::DayMonthYear)));
    // Asking for the side already shown does nothing.
    e.switch_kind(true);
    assert_eq!(date_kind(&e).map(|d| d.0), Some(Some(DatePreset::DayMonthYear)));
}

#[test]
fn presets_and_custom_formats_fill_the_date_fields() {
    let mut e = EditState::new_for_create(":");
    e.switch_kind(true);
    e.pick_preset(DatePreset::IsoDateTimeUtc);
    assert_eq!(date_kind(&e), Some((Some(DatePreset::IsoDateTimeUtc), "%Y-%m-%dT%H:%M:%SZ".to_string(), "UTC".to_string(), Lang::En)));
    assert!(e.custom_blocks().is_none());
    e.pick_custom();
    assert_eq!(date_kind(&e), Some((None, String::new(), String::new(), Lang::En)));
    assert_eq!(e.custom_blocks(), Some(vec![]));
    e.apply_blocks(&[Block::Day, Block::Separator('/'), Block::HourUtc]);
    assert_eq!(date_kind(&e), Some((None, "%d/%H".to_string(), "UTC".to_string(), Lang::En)));
    assert_eq!(e.custom_blocks(), Some(vec![Block::Day, Block::Separator('/'), Block::HourUtc]));
    assert!(!e.needs_month_language());
}

#[test]
fn a_format_the_blocks_cannot_show_asks_for_its_language() {
    let mut e = EditState::new_for_create(":");
    e.kind = Kind::Date { preset: None, custom_format: "%A %d".to_string(), custom_tz: String::new(), month_lang: Lang::Es };
    assert!(e.custom_blocks().is_none());
    assert!(e.needs_month_language());
    e.kind = Kind::Date { preset: None, custom_format: "%d".to_string(), custom_tz: "Europe/Madrid".to_string(), month_lang: Lang::Es };
    assert!(e.custom_blocks().is_none());
    assert!(!e.needs_month_language());
    e.pick_preset(DatePreset::MonthDayYear);
    assert!(e.needs_month_language());
    assert_eq!(date_kind(&e).map(|d| d.3), Some(Lang::Es));
}

#[test]
fn the_form_shows_its_trigger_and_its_folder() {
    let t = Lang::En.strings();
    let mut e = EditState::new_for_create("::");
    e.word = "firma".to_string();
    assert!(e.trigger_preview(t).contains("::firma"));
    assert_eq!(e.folder_choice_text(t), t.no_folder);
    e.folder = Some("Trabajo".to_string());
    assert_eq!(e.folder_choice_text(t), "Trabajo");
    e.choosing_new_folder = true;
    assert_eq!(e.folder_choice_text(t), t.new_folder_placeholder);
    e.new_folder_input = "Casa".to_string();
    assert_eq!(e.folder_choice_text(t), "Casa");
}
