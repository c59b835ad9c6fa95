//! Verified core of EspansoManager: the logic behind its screens, kept apart from the window,
//! the tray and the disk.

pub mod text;
pub mod strings;
pub mod i18n;
pub mod placeholders;
pub mod datefmt;
pub mod model;
pub mod presets;
pub mod date_blocks;
pub mod edit_form;
pub mod validation;
pub mod order;
pub mod theme;
pub mod settings;
pub mod transfer;
pub mod config_patch;
pub mod espanso_ctl;
pub mod pause;
pub mod list;
pub mod search;
pub mod selection;
pub mod state;
pub mod screens;
pub mod backups;
pub mod onboarding;
pub mod app_state;
