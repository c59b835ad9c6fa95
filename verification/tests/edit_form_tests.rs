use espanso_manager::edit_form::{shadowing_pair, split_trigger, EditState};
use espanso_manager::model::{MatchEntry, SimpleMatch};

fn stored(triggers: &[&str]) -> Vec<MatchEntry> {
    triggers
        .iter()
        .map(|t| {
            MatchEntry::Simple(SimpleMatch {
                trigger: (*t).to_string(),
                replace: "x".to_string(),
                vars: Vec::new(),
                label: None,
            })
        })
        .collect()
}

#[test]
fn the_short_trigger_is_named_first_whichever_one_is_being_added() {
    let existing = stored(&[":test"]);
    assert_eq!(
        shadowing_pair(&existing, None, ":testing"),
        Some((":test".to_string(), ":testing".to_string()))
    );
    let existing = stored(&[":testing"]);
    assert_eq!(
        shadowing_pair(&existing, None, ":test"),
        Some((":test".to_string(), ":testing".to_string()))
    );
}

#[test]
fn the_same_word_under_a_different_prefix_is_not_a_warning() {
    assert_eq!(shadowing_pair(&stored(&[":hola"]), None, "::hola"), None);
    assert_eq!(shadowing_pair(&stored(&["::hola"]), None, ":hola"), None);
    assert_eq!(shadowing_pair(&stored(&[":hola"]), None, "x:hola"), None);
}

#[test]
fn an_exact_duplicate_is_left_to_the_check_that_names_it() {
    assert_eq!(shadowing_pair(&stored(&[":test"]), None, ":test"), None);
}

#[test]
fn the_row_being_edited_never_shadows_itself() {
    let existing = stored(&[":test", ":other"]);
    assert_eq!(shadowing_pair(&existing, Some(0), ":test"), None);
}

#[test]
fn a_trigger_splits_at_its_first_letter_or_digit() {
    assert_eq!(split_trigger("::firma"), ("::".to_string(), "firma".to_string()));
    assert_eq!(split_trigger("firma"), ("".to_string(), "firma".to_string()));
    assert_eq!(split_trigger(";;"), (";;".to_string(), "".to_string()));
    assert_eq!(split_trigger("//ñu"), ("//".to_string(), "ñu".to_string()));
}

#[test]
fn a_new_form_starts_with_the_global_prefix_and_builds_its_trigger() {
    let mut e = EditState::new_for_create(":");
    assert!(e.editing_index.is_none());
    assert_eq!(e.prefix, ":");
    e.word = "  ;firma ".to_string();
    assert_eq!(e.trigger(), ":firma");
    e.word = "--".to_string();
    assert_eq!(e.trigger(), "");
}
