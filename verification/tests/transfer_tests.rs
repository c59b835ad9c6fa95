use espanso_manager::model::{MatchEntry, Param, Scalar, SimpleMatch, VarEntry};
use espanso_manager::settings::Settings;
use espanso_manager::transfer::{
    build_export, check_import, merge, suggested_filename, Export, ExportEntry, TransferError, FORMAT_VERSION,
};

fn entry(trigger: &str, vars: Vec<VarEntry>) -> ExportEntry {
    ExportEntry {
        trigger: trigger.to_string(),
        replace: "texto".to_string(),
        vars,
        folder: None,
    }
}

/// A `shell` var is the canonical thing the form cannot model.
fn shell_var() -> VarEntry {
    VarEntry {
        name: "salida".to_string(),
        var_type: "shell".to_string(),
        params: vec![Param {
            key: Scalar::Text("cmd".to_string()),
            value: Scalar::Text("echo hola".to_string()),
        }],
    }
}

fn simple(trigger: &str, replace: &str) -> MatchEntry {
    MatchEntry::Simple(SimpleMatch {
        trigger: trigger.to_string(),
        replace: replace.to_string(),
        vars: vec![],
        label: None,
    })
}

#[test]
fn import_rejects_what_export_would_never_have_written() {
    let merged = merge(
        &[],
        Export {
            espanso_manager_export: FORMAT_VERSION,
            expansions: vec![entry(":hola", vec![]), entry(":shell", vec![shell_var()])],
        },
    );
    let triggers: Vec<&str> = merged.added.iter().map(|e| e.trigger_str()).collect();
    assert_eq!(triggers, [":hola"]);
    assert_eq!(merged.skipped, 1);
}

#[test]
fn a_rejected_entry_does_not_shadow_a_later_good_one() {
    let merged = merge(
        &[],
        Export {
            espanso_manager_export: FORMAT_VERSION,
            expansions: vec![entry(":firma", vec![shell_var()]), entry(":firma", vec![])],
        },
    );
    assert_eq!(merged.added.len(), 1);
    assert_eq!(merged.added[0].trigger_str(), ":firma");
    assert!(
        merged.added[0].is_safely_editable(),
        "the one that got in must be the one the app can show"
    );
    assert_eq!(merged.skipped, 1);
}

#[test]
fn an_existing_trigger_is_still_left_alone() {
    let existing = vec![simple(":firma", "la mía")];
    let merged = merge(
        &existing,
        Export {
            espanso_manager_export: FORMAT_VERSION,
            expansions: vec![entry(":firma", vec![])],
        },
    );
    assert!(merged.added.is_empty());
    assert_eq!(merged.skipped, 1);
}

#[test]
fn an_import_trims_triggers_skips_blank_ones_and_files_folders() {
    let mut with_folder = entry("  :casa ", vec![]);
    with_folder.folder = Some("Hogar".to_string());
    let merged = merge(
        &[],
        Export {
            espanso_manager_export: FORMAT_VERSION,
            expansions: vec![with_folder, entry("   ", vec![]), entry(":casa", vec![])],
        },
    );
    assert_eq!(merged.added.len(), 1);
    assert_eq!(merged.added[0].trigger_str(), ":casa");
    assert_eq!(merged.folders, vec![(":casa".to_string(), Some("Hogar".to_string()))]);
    assert_eq!(merged.skipped, 2);
}

#[test]
fn an_export_carries_only_what_the_list_shows_with_its_folder() {
    let mut settings = Settings::defaults();
    settings.set_folder(":firma", Some("Trabajo".to_string()));
    let shell = MatchEntry::Simple(SimpleMatch {
        trigger: ":shell".to_string(),
        replace: "{{salida}}".to_string(),
        vars: vec![shell_var()],
        label: None,
    });
    let export = build_export(&[simple(":firma", "Saludos"), shell, simple(":hola", "hola")], &settings);
    assert_eq!(export.espanso_manager_export, FORMAT_VERSION);
    assert_eq!(export.expansions.len(), 2);
    assert_eq!(export.expansions[0].trigger, ":firma");
    assert_eq!(export.expansions[0].replace, "Saludos");
    assert_eq!(export.expansions[0].folder, Some("Trabajo".to_string()));
    assert_eq!(export.expansions[1].trigger, ":hola");
    assert_eq!(export.expansions[1].folder, None);
}

#[test]
fn a_file_without_our_marker_or_without_expansions_is_refused() {
    let not_ours = check_import(Export { espanso_manager_export: 0, expansions: vec![entry(":a", vec![])] });
    assert!(matches!(not_ours, Err(TransferError::NotOurs)));
    let empty = check_import(Export { espanso_manager_export: FORMAT_VERSION, expansions: vec![] });
    assert!(matches!(empty, Err(TransferError::Empty)));
    let fine = check_import(Export { espanso_manager_export: FORMAT_VERSION, expansions: vec![entry(":a", vec![])] });
    assert!(matches!(fine, Ok(e) if e.expansions.len() == 1));
}

#[test]
fn the_suggested_filename_names_the_app() {
    assert_eq!(suggested_filename(), "expansiones-espansomanager.yml");
}
