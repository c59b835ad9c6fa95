//! Everything the interface reads, and every change it can make to it.
//!
//! The screens never change the expansions, the folders or the selection themselves: they call a
//! method here. What these methods leave to the caller is what needs the outside world — asking
//! the user in a dialog, writing the files, restarting espanso — and each says, by what it returns,
//! when that is due: `true` (or a message) means "save now".

use vstd::prelude::*;
use crate::text::{trim, trim_spec, owned, decimal, decimal_spec, str_eq, chars_of, contains, contains_seq};
use crate::onboarding::{PROBE_REPLACE, FontStatus};
use crate::i18n::{Lang, fill, fill_spec, args_view};
use crate::strings::Strings;
use crate::theme::ThemeMode;
use crate::model::{MatchEntry, entry_trigger};
use crate::settings::Settings;
use crate::selection::Selection;
use crate::screens;
use crate::edit_form::EditState;
use crate::datefmt::Now;
use crate::transfer::{Merged, TransferError};
use crate::search::{SearchKeys, SearchStep, search_keys, moved_highlight};
use crate::state::{Banner, BannerKind, UndoAction, PendingConfirm, PendingConfirmKind, FolderRename,
    PrefixPlan, ImportNews, apply_edit, remove_by_triggers, delete_at, folder_moves, apply_moves,
    undo_moves, moved_message, rename_folder, selection_items, folder_items, deleted_message,
    plan_prefix, apply_prefix, collision_message, import_news, save_banner, moves_view, moves_spec,
    file_all_spec, moved, strings};

verus! {

/// Which setting a failed save of `settings.json` was about.
#[derive(Debug, Clone, Copy, PartialEq, Eq, Structural)]
pub enum SettingKind {
    Prefix,
    Theme,
    Language,
    View,
}

/// The folders after renaming triggers one pair at a time, in order: a renamed trigger keeps its
/// folder under its new name.
pub open spec fn renamed_folders(m: Map<Seq<char>, Seq<char>>, rn: Seq<(Seq<char>, Seq<char>)>) -> Map<Seq<char>, Seq<char>>
    decreases rn.len(),
{
    if rn.len() == 0 {
        m
    } else {
        let prev = renamed_folders(m, rn.drop_last());
        let (from, to) = rn.last();
        if from != to && prev.dom().contains(from) {
            prev.remove(from).insert(to, prev[from])
        } else {
            prev
        }
    }
}

/// The selection after renaming triggers one pair at a time, in order: a checked trigger stays
/// checked under its new name, and so does the anchor.
pub open spec fn renamed_selection(sel: (Set<Seq<char>>, Option<Seq<char>>), rn: Seq<(Seq<char>, Seq<char>)>)
    -> (Set<Seq<char>>, Option<Seq<char>>)
    decreases rn.len(),
{
    if rn.len() == 0 {
        sel
    } else {
        let prev = renamed_selection(sel, rn.drop_last());
        let (from, to) = rn.last();
        (if prev.0.contains(from) { prev.0.remove(from).insert(to) } else { prev.0 },
         if prev.1 == Some(from) { Some(to) } else { prev.1 })
    }
}

/// Each (trigger, folder choice) pair as plain values.
pub open spec fn folder_choices(s: Seq<(String, Option<String>)>) -> Seq<(Seq<char>, Option<Seq<char>>)> {
    s.map_values(|p: (String, Option<String>)| (p.0@, match p.1 { Some(f) => Some(f@), None => None::<Seq<char>> }))
}

/// The folders after filing each trigger under its choice, in order (a blank choice takes it out
/// of any folder).
pub open spec fn filed_all(m: Map<Seq<char>, Seq<char>>, fs: Seq<(Seq<char>, Option<Seq<char>>)>) -> Map<Seq<char>, Seq<char>>
    decreases fs.len(),
{
    if fs.len() == 0 {
        m
    } else {
        let prev = filed_all(m, fs.drop_last());
        match crate::settings::filed_folder(fs.last().1) {
            Some(f) => prev.insert(fs.last().0, f),
            None => prev.remove(fs.last().0),
        }
    }
}

/// All application state that is not about drawing one particular screen.
pub struct AppState {
    pub entries: Vec<MatchEntry>,
    pub settings: Settings,
    pub selection: Selection,
    pub view: screens::View,
    pub search: String,
    pub banner: Option<Banner>,
    /// Why the expansions file could not be read, if it could not. Saving is refused while this is
    /// set: the model in memory is empty, and it did not come from disk.
    pub load_error: Option<String>,
    /// (original name, current edit buffer) while a folder's name is being edited inline.
    pub renaming_folder: Option<(String, String)>,
    pub pending_confirm: Option<PendingConfirm>,
    /// Set when the language changes: fonts and tray labels are swapped by the caller next frame.
    pub pending_language_refresh: bool,
    /// Set when the theme mode changes, so the palette is re-applied at once.
    pub pending_theme_refresh: bool,
    pub search_open: bool,
    pub search_query: String,
    pub search_selected: usize,
    pub search_follow: bool,
    /// The window that had the keyboard when the search opened, to give it back to.
    pub search_return_to: isize,
    /// Set when the search window opens: it asks for the keyboard once it is up.
    pub search_needs_focus: bool,
    /// Whether the search window has held the keyboard since it opened.
    pub search_had_focus: bool,
    /// The trigger picked in the search window, handed over on the next frame.
    pub search_handoff: Option<String>,
    /// Espanso's own version, asked the first time the settings screen opens.
    pub espanso_version: Option<String>,
    pub espanso_version_asked: bool,
    /// What was typed into the first-run screen's trial field.
    pub onboarding_probe: String,
    /// Whether the trial expansion has been seen to work.
    pub onboarding_expanded: bool,
    /// Whether the app starts with Windows, as last read or set.
    pub autostart_enabled: bool,
    /// Bumped by every change to the expansions or their folders.
    pub list_revision: u64,
}

impl AppState {
    /// The state is well formed.
    pub open spec fn wf(&self) -> bool {
        self.settings.wf() && self.selection.wf()
    }

    /// A fresh state over these expansions and settings, on the list screen.
    pub fn new(entries: Vec<MatchEntry>, settings: Settings, load_error: Option<String>) -> (r: AppState)
        requires
            settings.wf(),
        ensures
            r.wf(),
            r.entries == entries,
            r.settings == settings,
            r.load_error == load_error,
            r.selection@ == (Set::<Seq<char>>::empty(), None::<Seq<char>>),
            r.view is List,
            r.banner is None,
            r.pending_confirm is None,
            r.list_revision == 0,
            r.renaming_folder is None,
            !r.search_open && r.search_query@.len() == 0 && r.search_selected == 0 && r.search_handoff is None,
            r.espanso_version is None && !r.espanso_version_asked,
            !r.pending_language_refresh && !r.pending_theme_refresh,
    {
        AppState {
            entries,
            settings,
            selection: Selection::new(),
            view: screens::View::List,
            search: String::new(),
            banner: None,
            load_error,
            renaming_folder: None,
            pending_confirm: None,
            pending_language_refresh: false,
            pending_theme_refresh: false,
            search_open: false,
            search_query: String::new(),
            search_selected: 0,
            search_follow: false,
            search_return_to: 0,
            search_needs_focus: false,
            search_had_focus: false,
            search_handoff: None,
            espanso_version: None,
            espanso_version_asked: false,
            onboarding_probe: String::new(),
            onboarding_expanded: false,
            autostart_enabled: false,
            list_revision: 0,
        }
    }

    /// Chooses the first screen: the first-run screen until it has been seen, otherwise the list.
    /// Returns whether the trial expansion is wanted — the caller puts its file in place when it
    /// is, and clears any left behind by a crash when it is not.
    pub fn first_screen(&mut self) -> (r: bool)
        ensures
            r == !old(self).settings.onboarding_done,
            r ==> final(self).view is Onboarding,
            !r ==> final(self).view == old(self).view,
            final(self).entries == old(self).entries,
            final(self).settings == old(self).settings,
    {
        if self.settings.onboarding_done {
            return false;
        }
        self.view = screens::View::Onboarding;
        true
    }

    /// Looks at what was typed into the trial field: once the trial expansion's text turns up
    /// there, espanso has been seen to work.
    pub fn probe_typed(&mut self)
        ensures
            final(self).onboarding_expanded == (old(self).onboarding_expanded
                || contains_seq(old(self).onboarding_probe@, PROBE_REPLACE@)),
            final(self).onboarding_probe == old(self).onboarding_probe,
            final(self).entries == old(self).entries,
            final(self).settings == old(self).settings,
    {
        let typed = chars_of(self.onboarding_probe.as_str());
        let wanted = chars_of(PROBE_REPLACE);
        if contains(typed.as_slice(), wanted.as_slice()) {
            self.onboarding_expanded = true;
        }
    }

    /// Leaves the first-run screen for good: it is remembered as seen and the list comes up. The
    /// caller saves the settings and deletes the trial file.
    pub fn finish_onboarding(&mut self)
        requires
            old(self).wf(),
        ensures
            final(self).wf(),
            final(self).settings.onboarding_done,
            final(self).settings.folder_by_trigger == old(self).settings.folder_by_trigger,
            final(self).settings.lang == old(self).settings.lang,
            final(self).settings.prefix == old(self).settings.prefix,
            final(self).view is List,
            final(self).entries == old(self).entries,
    {
        self.settings.onboarding_done = true;
        self.view = screens::View::List;
    }

    /// Whether the Devanagari face is wanted: only when the interface is in Hindi.
    pub fn wants_devanagari(&self) -> (r: bool)
        ensures
            r == (self.settings.lang == Lang::Hi),
    {
        match self.settings.lang {
            Lang::Hi => true,
            _ => false,
        }
    }

    /// Takes note of the fonts just installed: a missing Devanagari face is worth a warning, since
    /// Hindi text would then show as empty boxes; a missing symbols face is not.
    pub fn fonts_installed(&mut self, status: FontStatus)
        ensures
            status.devanagari_missing ==> (final(self).banner matches Some(b) && b.kind == BannerKind::Error
                && b.message@ == crate::i18n::strings_spec(old(self).settings.lang).hindi_font_missing@),
            !status.devanagari_missing ==> final(self).banner == old(self).banner,
            final(self).entries == old(self).entries,
            final(self).settings == old(self).settings,
    {
        if status.devanagari_missing {
            let t = self.t();
            self.banner = Some(Banner::error(owned(t.hindi_font_missing)));
        }
    }

    /// The string table of the interface language.
    pub fn t(&self) -> (r: &'static Strings)
        ensures
            *r == crate::i18n::strings_spec(self.settings.lang),
    {
        self.settings.t()
    }

    /// Shows news.
    pub fn set_info_banner(&mut self, message: String)
        ensures
            final(self).banner matches Some(b) && b.kind == BannerKind::Info && b.message == message && b.undo is None,
            final(self).entries == old(self).entries,
            final(self).settings == old(self).settings,
            final(self).selection == old(self).selection,
    {
        self.banner = Some(Banner::info(message));
    }

    /// Shows trouble.
    pub fn set_error_banner(&mut self, message: String)
        ensures
            final(self).banner matches Some(b) && b.kind == BannerKind::Error && b.message == message && b.undo is None,
            final(self).entries == old(self).entries,
            final(self).settings == old(self).settings,
            final(self).selection == old(self).selection,
    {
        self.banner = Some(Banner::error(message));
    }

    /// Closes the banner without acting on it.
    pub fn dismiss_banner(&mut self)
        ensures
            final(self).banner is None,
            final(self).entries == old(self).entries,
            final(self).settings == old(self).settings,
            final(self).selection == old(self).selection,
    {
        self.banner = None;
    }

    /// Esc on the list backs out of whatever is on top: an open confirmation first, otherwise the
    /// selection. Elsewhere it does nothing here — in the editor it would throw away what was typed.
    pub fn escape_pressed(&mut self)
        requires
            old(self).wf(),
        ensures
            final(self).wf(),
            final(self).entries == old(self).entries,
            final(self).settings == old(self).settings,
            !(old(self).view is List) ==> final(self).pending_confirm == old(self).pending_confirm
                && final(self).selection == old(self).selection,
            old(self).view is List && old(self).pending_confirm is Some ==> final(self).pending_confirm is None
                && final(self).selection == old(self).selection,
            old(self).view is List && old(self).pending_confirm is None ==> final(self).pending_confirm is None
                && final(self).selection@ == (Set::<Seq<char>>::empty(), None::<Seq<char>>),
    {
        if !matches!(self.view, screens::View::List) {
            return;
        }
        if self.pending_confirm.is_some() {
            self.pending_confirm = None;
        } else {
            self.selection.clear();
        }
    }

    /// Closes the search window and forgets what was typed into it.
    pub fn close_search(&mut self)
        ensures
            !final(self).search_open,
            final(self).search_query@.len() == 0,
            final(self).search_selected == 0,
            !final(self).search_follow,
            final(self).entries == old(self).entries,
            final(self).settings == old(self).settings,
            final(self).selection == old(self).selection,
    {
        self.search_open = false;
        self.search_query = String::new();
        self.search_selected = 0;
        self.search_follow = false;
    }

    /// Applies this frame's keys to the search window over `count` results (see
    /// [`crate::search::search_keys`]); Esc closes it.
    pub fn search_input(&mut self, count: usize, keys: SearchKeys) -> (r: SearchStep)
        ensures
            r == SearchStep::Close <==> keys.escape,
            keys.escape ==> !final(self).search_open && final(self).search_query@.len() == 0
                && final(self).search_selected == 0,
            !keys.escape ==> ({
                let h = moved_highlight(old(self).search_selected as int, count as int, keys.up, keys.down);
                &&& final(self).search_selected == h
                &&& final(self).search_follow == (old(self).search_follow || ((keys.up || keys.down) && count > 0))
                &&& r == (if keys.enter && h < count { SearchStep::Choose(h as usize) } else { SearchStep::Browse })
                &&& final(self).search_open == old(self).search_open
            }),
            final(self).entries == old(self).entries,
            final(self).settings == old(self).settings,
    {
        let (selected, follow, step) = search_keys(self.search_selected, count, keys);
        match step {
            SearchStep::Close => {
                self.close_search();
            },
            _ => {
                self.search_selected = selected;
                if follow {
                    self.search_follow = true;
                }
            },
        }
        step
    }

    /// The search shortcut was pressed over the window `foreground`: it closes an open search
    /// window, or opens a fresh one that will give the keyboard back to `foreground`.
    pub fn hotkey_pressed(&mut self, foreground: isize)
        ensures
            old(self).search_open ==> !final(self).search_open && final(self).search_query@.len() == 0,
            !old(self).search_open ==> ({
                &&& final(self).search_open
                &&& final(self).search_return_to == foreground
                &&& final(self).search_query@.len() == 0
                &&& final(self).search_selected == 0
                &&& final(self).search_needs_focus
                &&& !final(self).search_had_focus
                &&& final(self).search_follow
            }),
            final(self).entries == old(self).entries,
            final(self).settings == old(self).settings,
    {
        if self.search_open {
            self.close_search();
            return;
        }
        self.search_return_to = foreground;
        self.search_query = String::new();
        self.search_selected = 0;
        self.search_open = true;
        self.search_needs_focus = true;
        self.search_had_focus = false;
        self.search_follow = true;
    }

    /// Whether the search window has the keyboard this frame. Losing it after having had it closes
    /// the window, the way a launcher does; before it ever had it, "not focused" is only the frame
    /// between asking for the keyboard and getting it.
    pub fn search_focus(&mut self, focused: bool)
        ensures
            focused ==> final(self).search_had_focus && final(self).search_open == old(self).search_open,
            !focused && old(self).search_had_focus ==> !final(self).search_open,
            !focused && !old(self).search_had_focus ==> final(self).search_open == old(self).search_open
                && !final(self).search_had_focus,
            final(self).entries == old(self).entries,
            final(self).settings == old(self).settings,
    {
        if focused {
            self.search_had_focus = true;
        } else if self.search_had_focus {
            self.close_search();
        }
    }

    /// A result was picked: the window closes now, and the trigger is handed over on the next
    /// frame, once the window is gone and the keyboard can go back without flickering.
    pub fn search_chosen(&mut self, trigger: String)
        ensures
            !final(self).search_open,
            final(self).search_handoff == Some(trigger),
            final(self).entries == old(self).entries,
            final(self).settings == old(self).settings,
    {
        self.close_search();
        self.search_handoff = Some(trigger);
    }

    /// The trigger waiting to be handed over, if any; it is handed over once.
    pub fn take_handoff(&mut self) -> (r: Option<String>)
        ensures
            r == old(self).search_handoff,
            final(self).search_handoff is None,
            final(self).entries == old(self).entries,
    {
        self.search_handoff.take()
    }

    /// A changed query means a different list: the highlight goes back to the top.
    pub fn search_query_changed(&mut self)
        ensures
            final(self).search_selected == 0,
            final(self).search_follow,
            final(self).search_query == old(self).search_query,
            final(self).entries == old(self).entries,
    {
        self.search_selected = 0;
        self.search_follow = true;
    }

    /// Marks the list as out of date.
    pub fn touch_list(&mut self)
        ensures
            final(self).list_revision == (if old(self).list_revision == u64::MAX { 0 } else { (old(self).list_revision + 1) as u64 }),
            final(self).entries == old(self).entries,
            final(self).settings == old(self).settings,
            final(self).selection == old(self).selection,
            final(self).banner == old(self).banner,
            final(self).view == old(self).view,
    {
        self.list_revision = self.list_revision.wrapping_add(1);
    }

    /// Whether espanso's version should be asked now: only the first time. Asking again every time
    /// the settings screen opens would mean another wait on exactly the machine that could least
    /// afford the first one.
    pub fn ask_espanso_version(&mut self) -> (r: bool)
        ensures
            r == !old(self).espanso_version_asked,
            final(self).espanso_version_asked,
            final(self).espanso_version == old(self).espanso_version,
    {
        if self.espanso_version_asked {
            return false;
        }
        self.espanso_version_asked = true;
        true
    }

    /// Sets the global prefix. A blank one is refused. Returns whether the settings need saving.
    pub fn set_prefix(&mut self, prefix: String) -> (r: bool)
        requires
            old(self).wf(),
        ensures
            final(self).wf(),
            r == (trim_spec(prefix@).len() > 0),
            r ==> final(self).settings.prefix == prefix,
            !r ==> final(self).settings == old(self).settings,
            final(self).settings.folder_by_trigger == old(self).settings.folder_by_trigger,
            final(self).settings.lang == old(self).settings.lang,
    {
        let z = trim(prefix.as_str());
        if z.as_str().is_empty() {
            return false;
        }
        self.settings.prefix = prefix;
        true
    }

    /// Sets the light/dark mode; the palette is re-applied. Returns whether anything changed.
    pub fn set_theme_mode(&mut self, mode: ThemeMode) -> (r: bool)
        requires
            old(self).wf(),
        ensures
            final(self).wf(),
            r == (old(self).settings.theme_mode != mode),
            final(self).settings.theme_mode == mode,
            r ==> final(self).pending_theme_refresh,
            !r ==> final(self).pending_theme_refresh == old(self).pending_theme_refresh,
            final(self).settings.folder_by_trigger == old(self).settings.folder_by_trigger,
    {
        if self.settings.theme_mode == mode {
            return false;
        }
        self.settings.theme_mode = mode;
        self.pending_theme_refresh = true;
        true
    }

    /// Sets the interface language; fonts and tray labels follow. Returns whether anything changed.
    pub fn set_language(&mut self, lang: Lang) -> (r: bool)
        requires
            old(self).wf(),
        ensures
            final(self).wf(),
            r == (old(self).settings.lang != lang),
            final(self).settings.lang == lang,
            r ==> final(self).pending_language_refresh,
            !r ==> final(self).pending_language_refresh == old(self).pending_language_refresh,
            final(self).settings.folder_by_trigger == old(self).settings.folder_by_trigger,
    {
        if self.settings.lang == lang {
            return false;
        }
        self.settings.lang = lang;
        self.pending_language_refresh = true;
        true
    }

    /// Switches between single-line rows and cards. Returns whether anything changed.
    pub fn set_compact_view(&mut self, compact: bool) -> (r: bool)
        requires
            old(self).wf(),
        ensures
            final(self).wf(),
            r == (old(self).settings.compact_view != compact),
            final(self).settings.compact_view == compact,
            final(self).settings.folder_by_trigger == old(self).settings.folder_by_trigger,
    {
        if self.settings.compact_view == compact {
            return false;
        }
        self.settings.compact_view = compact;
        true
    }

    /// Says that saving a setting failed.
    pub fn settings_save_failed(&mut self, which: SettingKind, err: &str)
        ensures
            final(self).banner matches Some(b) && b.kind == BannerKind::Error && b.message@ == fill_spec(
                (match which {
                    SettingKind::Prefix => crate::i18n::strings_spec(old(self).settings.lang).prefix_save_error@,
                    SettingKind::Theme => crate::i18n::strings_spec(old(self).settings.lang).theme_save_error@,
                    SettingKind::Language => crate::i18n::strings_spec(old(self).settings.lang).language_save_error@,
                    SettingKind::View => crate::i18n::strings_spec(old(self).settings.lang).view_save_error@,
                }), seq![("err"@, err@)]),
            final(self).entries == old(self).entries,
            final(self).settings == old(self).settings,
    {
        let t = self.t();
        let template = match which {
            SettingKind::Prefix => t.prefix_save_error,
            SettingKind::Theme => t.theme_save_error,
            SettingKind::Language => t.language_save_error,
            SettingKind::View => t.view_save_error,
        };
        let args = [("err", err)];
        assert(args_view(args@) =~= seq![("err"@, err@)]);
        let m = fill(template, &args);
        self.set_error_banner(m);
    }

    /// Unchecks everything and forgets the anchor.
    pub fn clear_selection(&mut self)
        requires
            old(self).wf(),
        ensures
            final(self).wf(),
            final(self).selection@ == (Set::<Seq<char>>::empty(), None::<Seq<char>>),
            final(self).entries == old(self).entries,
            final(self).settings == old(self).settings,
    {
        self.selection.clear();
    }

    /// Whether some checked expansion sits in a folder.
    pub fn selection_has_foldered(&self) -> (r: bool)
        requires
            self.wf(),
        ensures
            r == exists|t: Seq<char>| self.selection@.0.contains(t) && self.settings.folder_by_trigger@.dom().contains(t),
    {
        self.selection.has_foldered(&self.settings)
    }

    /// The "n selected" line of the selection bar.
    pub fn selected_count(&self) -> (r: String)
        requires
            self.wf(),
        ensures
            r@ == fill_spec(crate::i18n::strings_spec(self.settings.lang).selected_count@,
                seq![("n"@, decimal_spec(self.selection@.0.len()))]),
    {
        let n = decimal(self.selection.len() as u64);
        let args = [("n", n.as_str())];
        assert(args_view(args@) =~= seq![("n"@, decimal_spec(self.selection@.0.len()))]);
        fill(self.t().selected_count, &args)
    }
}

impl AppState {
    /// Asks to delete the checked expansions: the confirmation lists them, A→Z, each with its
    /// preview. Nothing is asked when nothing is checked.
    pub fn request_delete_selected(&mut self, local: Now, utc: Now)
        requires
            old(self).wf(),
        ensures
            final(self).wf(),
            old(self).selection@.0.len() == 0 ==> final(self).pending_confirm == old(self).pending_confirm,
            old(self).selection@.0.len() > 0 ==> (final(self).pending_confirm matches Some(p)
                && p.kind is DeleteSelection && !p.expanded
                && strings(p.items@.map_values(|x: (String, String)| x.0)).to_set() == old(self).selection@.0
                && crate::order::strictly_sorted(strings(p.items@.map_values(|x: (String, String)| x.0)))
                && forall|i: int| 0 <= i < p.items@.len() ==> (#[trigger] p.items@[i]).1@ == crate::state::last_preview(
                    old(self).entries@, p.items@[i].0@, crate::i18n::strings_spec(old(self).settings.lang), local, utc)),
            final(self).entries == old(self).entries,
            final(self).settings == old(self).settings,
            final(self).selection == old(self).selection,
    {
        if self.selection.len() == 0 {
            return;
        }
        let items = selection_items(self.entries.as_slice(), &self.selection, self.t(), local, utc);
        proof {
            assert(strings(items@.map_values(|x: (String, String)| x.0))
                =~= crate::state::pairs(items@).map_values(|p: (Seq<char>, Seq<char>)| p.0));
        }
        self.pending_confirm = Some(PendingConfirm { kind: PendingConfirmKind::DeleteSelection, items, expanded: false });
    }

    /// Asks to delete a folder with every expansion in it. Nothing is asked for an empty folder.
    pub fn request_delete_folder(&mut self, folder: &str, local: Now, utc: Now)
        requires
            old(self).wf(),
        ensures
            final(self).wf(),
            ({
                let rows = crate::state::folder_rows(old(self).entries@, old(self).settings.folder_by_trigger@, folder@,
                    crate::i18n::strings_spec(old(self).settings.lang), local, utc);
                &&& rows.len() == 0 ==> final(self).pending_confirm == old(self).pending_confirm
                &&& rows.len() > 0 ==> (final(self).pending_confirm matches Some(p)
                        && (p.kind matches PendingConfirmKind::DeleteFolder { folder: f } && f@ == folder@)
                        && crate::state::pairs(p.items@) == rows && !p.expanded)
            }),
            final(self).entries == old(self).entries,
            final(self).settings == old(self).settings,
    {
        let items = folder_items(self.entries.as_slice(), &self.settings, folder, self.t(), local, utc);
        if items.len() == 0 {
            return;
        }
        self.pending_confirm = Some(PendingConfirm {
            kind: PendingConfirmKind::DeleteFolder { folder: owned(folder) },
            items,
            expanded: false,
        });
    }

    /// Shows every item of the open confirmation.
    pub fn expand_pending_confirm(&mut self)
        ensures
            old(self).pending_confirm is None ==> final(self).pending_confirm is None,
            old(self).pending_confirm matches Some(p) ==> (final(self).pending_confirm matches Some(q)
                && q.expanded && q.kind == p.kind && q.items == p.items),
            final(self).entries == old(self).entries,
            final(self).settings == old(self).settings,
    {
        match &mut self.pending_confirm {
            Some(p) => p.expanded = true,
            None => {},
        }
    }

    /// Closes the confirmation without deleting anything.
    pub fn cancel_pending_confirm(&mut self)
        ensures
            final(self).pending_confirm is None,
            final(self).entries == old(self).entries,
            final(self).settings == old(self).settings,
    {
        self.pending_confirm = None;
    }

    /// Deletes what the confirmation listed, by trigger, with their folders, and clears the
    /// selection. Returns the message to show once the file is saved, or `None` when there was no
    /// confirmation open.
    pub fn confirm_pending_delete(&mut self) -> (r: Option<String>)
        requires
            old(self).wf(),
        ensures
            final(self).wf(),
            crate::settings::same_but_folders(final(self).settings, old(self).settings),
            final(self).pending_confirm is None,
            old(self).pending_confirm is None ==> r is None && final(self).entries == old(self).entries
                && final(self).settings == old(self).settings,
            old(self).pending_confirm matches Some(p) ==> ({
                let doomed = strings(p.items@.map_values(|x: (String, String)| x.0)).to_set();
                &&& final(self).entries@ == crate::state::kept_spec(old(self).entries@, doomed)
                &&& final(self).settings.folder_by_trigger@ == old(self).settings.folder_by_trigger@.remove_keys(doomed)
                &&& final(self).selection@ == (Set::<Seq<char>>::empty(), None::<Seq<char>>)
                &&& r matches Some(m) && m@ == (match p.kind {
                        PendingConfirmKind::DeleteFolder { folder } => fill_spec(
                            crate::i18n::strings_spec(old(self).settings.lang).folder_deleted@,
                            seq![("name"@, folder@), ("n"@, decimal_spec(p.items@.len()))]),
                        PendingConfirmKind::DeleteSelection => fill_spec(
                            crate::i18n::strings_spec(old(self).settings.lang).selection_deleted@,
                            seq![("n"@, decimal_spec(p.items@.len()))]),
                    })
            }),
    {
        let pending = match self.pending_confirm.take() {
            Some(p) => p,
            None => return None,
        };
        let t = self.t();
        let mut triggers: Vec<String> = Vec::new();
        let mut i: usize = 0;
        while i < pending.items.len()
            invariant
                i <= pending.items@.len(),
                triggers@.len() == i,
                strings(triggers@) == strings(pending.items@.map_values(|x: (String, String)| x.0)).subrange(0, i as int),
            decreases pending.items.len() - i,
        {
            let ghost before = strings(triggers@);
            triggers.push(owned(pending.items[i].0.as_str()));
            assert(strings(triggers@) =~= before.push(pending.items@[i as int].0@));
            assert(strings(pending.items@.map_values(|x: (String, String)| x.0)).subrange(0, i + 1)
                =~= strings(pending.items@.map_values(|x: (String, String)| x.0)).subrange(0, i as int).push(pending.items@[i as int].0@));
            i += 1;
        }
        assert(strings(pending.items@.map_values(|x: (String, String)| x.0)).subrange(0, pending.items@.len() as int)
            =~= strings(pending.items@.map_values(|x: (String, String)| x.0)));
        let count = triggers.len();
        remove_by_triggers(&mut self.entries, &mut self.settings, &mut self.selection, triggers.as_slice());
        self.selection.clear();
        self.list_revision = self.list_revision.wrapping_add(1);
        Some(deleted_message(&pending.kind, count, t))
    }

    /// Starts editing a folder's name inline.
    pub fn start_rename_folder(&mut self, folder: &str)
        ensures
            final(self).renaming_folder matches Some(p) && p.0@ == folder@ && p.1@ == folder@,
            final(self).settings == old(self).settings,
    {
        self.renaming_folder = Some((owned(folder), owned(folder)));
    }

    /// Stops editing a folder's name without renaming it.
    pub fn cancel_rename_folder(&mut self)
        ensures
            final(self).renaming_folder is None,
            final(self).settings == old(self).settings,
    {
        self.renaming_folder = None;
    }

    /// Commits a folder rename being edited: the new name, trimmed, wherever the old one is used —
    /// unless it is blank, unchanged, or another folder's, which the banner then says. Returns
    /// whether the settings need saving.
    pub fn commit_rename_folder(&mut self) -> (r: bool)
        requires
            old(self).wf(),
        ensures
            final(self).wf(),
            crate::settings::same_but_folders(final(self).settings, old(self).settings),
            final(self).renaming_folder is None,
            final(self).entries == old(self).entries,
            old(self).renaming_folder is None ==> !r && final(self).settings == old(self).settings,
            old(self).renaming_folder matches Some(p) ==> ({
                let name = trim_spec(p.1@);
                let m = old(self).settings.folder_by_trigger@;
                let strs = crate::i18n::strings_spec(old(self).settings.lang);
                if name.len() == 0 || name == p.0@ {
                    !r && final(self).settings.folder_by_trigger@ == m
                } else if m.values().contains(name) {
                    &&& !r && final(self).settings.folder_by_trigger@ == m
                    &&& final(self).banner matches Some(b) && b.kind == BannerKind::Error
                            && b.message@ == fill_spec(strs.folder_name_taken@, seq![("name"@, name)])
                } else {
                    &&& r
                    &&& final(self).settings.folder_by_trigger@.dom() == m.dom()
                    &&& forall|k: Seq<char>| #[trigger] m.dom().contains(k) ==>
                            final(self).settings.folder_by_trigger@[k] == (if m[k] == p.0@ { name } else { m[k] })
                    &&& final(self).banner matches Some(b) && b.kind == BannerKind::Info
                            && b.message@ == fill_spec(strs.folder_renamed@, seq![("name"@, name)])
                }
            }),
    {
        let (old_name, new_name) = match self.renaming_folder.take() {
            Some(p) => p,
            None => return false,
        };
        let t = self.t();
        match rename_folder(&mut self.settings, old_name.as_str(), new_name.as_str()) {
            FolderRename::Unchanged => false,
            FolderRename::Taken(name) => {
                let args = [("name", name.as_str())];
                assert(args_view(args@) =~= seq![("name"@, name@)]);
                self.banner = Some(Banner::error(fill(t.folder_name_taken, &args)));
                false
            },
            FolderRename::Renamed(name) => {
                self.list_revision = self.list_revision.wrapping_add(1);
                let args = [("name", name.as_str())];
                assert(args_view(args@) =~= seq![("name"@, name@)]);
                self.banner = Some(Banner::info(fill(t.folder_renamed, &args)));
                true
            },
        }
    }

    /// Drops folder assignments whose trigger no longer names an expansion — but never while the
    /// file could not be read, since an unreadable file looks exactly like "everything was
    /// deleted". Returns whether the settings need saving.
    pub fn drop_orphan_folders(&mut self) -> (r: bool)
        requires
            old(self).wf(),
        ensures
            final(self).wf(),
            crate::settings::same_but_folders(final(self).settings, old(self).settings),
            final(self).entries == old(self).entries,
            old(self).load_error is Some ==> !r && final(self).settings == old(self).settings,
            old(self).load_error is None ==> ({
                let live = old(self).entries@.map_values(|e: MatchEntry| entry_trigger(e)).to_set();
                &&& final(self).settings.folder_by_trigger@ == old(self).settings.folder_by_trigger@.restrict(live)
                &&& r == (final(self).settings.folder_by_trigger@.dom().len() < old(self).settings.folder_by_trigger@.dom().len())
            }),
    {
        if self.load_error.is_some() {
            return false;
        }
        let mut live: Vec<String> = Vec::new();
        let mut i: usize = 0;
        while i < self.entries.len()
            invariant
                i <= self.entries@.len(),
                strings(live@) == self.entries@.subrange(0, i as int).map_values(|e: MatchEntry| entry_trigger(e)),
            decreases self.entries.len() - i,
        {
            let ghost before = strings(live@);
            live.push(self.entries[i].trigger_label());
            assert(strings(live@) =~= before.push(entry_trigger(self.entries@[i as int])));
            assert(self.entries@.subrange(0, i + 1).map_values(|e: MatchEntry| entry_trigger(e))
                =~= self.entries@.subrange(0, i as int).map_values(|e: MatchEntry| entry_trigger(e)).push(entry_trigger(self.entries@[i as int])));
            i += 1;
        }
        assert(self.entries@.subrange(0, self.entries@.len() as int) =~= self.entries@);
        let dropped = self.settings.drop_folders_not_in(live.as_slice());
        assert(strings(live@) == live@.map_values(|s: String| s@));
        dropped > 0
    }

    /// Files the dropped expansions under `folder` (or takes them out of any folder): only those
    /// that exist and are not already there. The banner says what moved and carries the way back.
    /// Returns whether anything moved, and so whether the settings need saving.
    pub fn assign_folder_to_triggers(&mut self, triggers: &[String], folder: Option<&str>) -> (r: bool)
        requires
            old(self).wf(),
        ensures
            final(self).wf(),
            crate::settings::same_but_folders(final(self).settings, old(self).settings),
            final(self).entries == old(self).entries,
            ({
                let fv = match folder { Some(f) => Some(f@), None => None::<Seq<char>> };
                let mv = moves_spec(old(self).entries@, old(self).settings.folder_by_trigger@, strings(triggers@), fv);
                &&& r == (mv.len() > 0)
                &&& !r ==> final(self).settings == old(self).settings && final(self).selection == old(self).selection
                &&& r ==> final(self).settings.folder_by_trigger@ == file_all_spec(old(self).settings.folder_by_trigger@, moved(mv), fv)
                &&& r ==> final(self).selection@ == (Set::<Seq<char>>::empty(), None::<Seq<char>>)
                &&& r ==> (final(self).banner matches Some(b) && b.kind == BannerKind::Info
                        && (b.undo matches Some(UndoAction::FolderMove(prev)) && moves_view(prev@) == mv)
                        && b.message@ == (match folder {
                            Some(f) => fill_spec(crate::i18n::strings_spec(old(self).settings.lang).moved_to_folder@,
                                seq![("n"@, decimal_spec(mv.len())), ("name"@, f@)]),
                            None => fill_spec(crate::i18n::strings_spec(old(self).settings.lang).removed_from_folder@,
                                seq![("n"@, decimal_spec(mv.len()))]),
                        }))
            }),
    {
        let moves = folder_moves(self.entries.as_slice(), &self.settings, triggers, folder);
        if moves.len() == 0 {
            return false;
        }
        let t = self.t();
        apply_moves(&mut self.settings, &moves, folder);
        self.list_revision = self.list_revision.wrapping_add(1);
        self.selection.clear();
        assert(moves_view(moves@).len() == moves@.len());
        let message = moved_message(moves.len(), folder, t);
        self.banner = Some(Banner { kind: BannerKind::Info, message, undo: Some(UndoAction::FolderMove(moves)) });
        true
    }

    /// Takes every checked expansion out of its folder (the "remove from its folder" action); the
    /// banner says how many moved and carries the way back. Returns whether anything moved.
    pub fn unfile_selected(&mut self) -> (r: bool)
        requires
            old(self).wf(),
        ensures
            final(self).wf(),
            crate::settings::same_but_folders(final(self).settings, old(self).settings),
            final(self).entries == old(self).entries,
            ({
                let m = old(self).settings.folder_by_trigger@;
                let gone = Set::new(|k: Seq<char>| old(self).selection@.0.contains(k) && crate::state::live(old(self).entries@, k));
                &&& final(self).settings.folder_by_trigger@ == m.remove_keys(gone)
                &&& r == (exists|k: Seq<char>| #[trigger] gone.contains(k) && m.dom().contains(k))
                &&& r ==> (final(self).banner matches Some(b) && b.kind == BannerKind::Info && b.undo is Some)
                &&& !r ==> final(self).settings == old(self).settings
            }),
    {
        let items = self.selection.items();
        let ghost m = self.settings.folder_by_trigger@;
        let ghost es = self.entries@;
        proof {
            lemma_unfile(es, m, strings(items@));
            let gone = Set::new(|k: Seq<char>| old(self).selection@.0.contains(k) && crate::state::live(es, k));
            let gone2 = Set::new(|k: Seq<char>| strings(items@).contains(k) && crate::state::live(es, k));
            assert(strings(items@) == crate::selection::strs(items@));
            assert forall|k: Seq<char>| strings(items@).contains(k) <==> old(self).selection@.0.contains(k) by {
                assert(strings(items@).to_set().contains(k) <==> strings(items@).contains(k));
            }
            assert(gone =~= gone2);
        }
        self.assign_folder_to_triggers(&items, None)
    }

    /// Puts back what the banner on screen offers to undo; the banner goes either way. Returns
    /// whether anything was put back, and so whether the settings need saving.
    pub fn undo_from_banner(&mut self) -> (r: bool)
        requires
            old(self).wf(),
        ensures
            final(self).wf(),
            crate::settings::same_but_folders(final(self).settings, old(self).settings),
            final(self).entries == old(self).entries,
            (old(self).banner matches Some(b) && b.undo is Some) <==> r,
            !r ==> final(self).banner is None && final(self).settings == old(self).settings,
            r ==> ({
                let prev = old(self).banner->0.undo->0->0;
                &&& final(self).settings.folder_by_trigger@
                        == crate::state::restore_spec(old(self).settings.folder_by_trigger@, moves_view(prev@))
                &&& final(self).banner matches Some(b) && b.kind == BannerKind::Info && b.undo is None
                        && b.message@ == crate::i18n::strings_spec(old(self).settings.lang).move_undone@
            }),
    {
        let banner = match self.banner.take() {
            Some(b) => b,
            None => return false,
        };
        let previous = match banner.undo {
            Some(UndoAction::FolderMove(previous)) => previous,
            None => return false,
        };
        let t = self.t();
        undo_moves(&mut self.settings, &previous);
        self.list_revision = self.list_revision.wrapping_add(1);
        self.banner = Some(Banner::info(owned(t.move_undone)));
        true
    }

    /// Saves the edit form into the expansions (see [`apply_edit`]); on success the list comes
    /// back, on refusal the banner says why. Returns whether the file needs saving.
    pub fn save_edit(&mut self, edit: &EditState) -> (r: bool)
        requires
            old(self).wf(),
            edit.editing_index matches Some(i) ==> i < old(self).entries@.len(),
        ensures
            final(self).wf(),
            crate::settings::same_but_folders(final(self).settings, old(self).settings),
            ({
                let m = crate::edit_form::build_match_spec(*edit);
                let refused = trim_spec(m.trigger).len() == 0
                    || crate::state::taken_by_other(old(self).entries@, edit.editing_index, m.trigger);
                let es = old(self).entries@;
                let strs = crate::i18n::strings_spec(old(self).settings.lang);
                let pos: int = match edit.editing_index { Some(i) => i as int, None => es.len() as int };
                &&& r == !refused
                &&& refused ==> final(self).entries@ == es && final(self).settings == old(self).settings
                        && (final(self).banner matches Some(b) && b.kind == BannerKind::Error
                            && b.message@ == (if trim_spec(m.trigger).len() == 0 { strs.trigger_empty@ }
                                else { fill_spec(strs.trigger_duplicate@, seq![("name"@, m.trigger)]) }))
                &&& r ==> final(self).view is List
                &&& r ==> final(self).entries@.len() == (if edit.editing_index is Some { es.len() } else { es.len() + 1 })
                &&& r ==> (final(self).entries@[pos] matches MatchEntry::Simple(s) && s@ == m)
                &&& r ==> forall|i: int| 0 <= i < final(self).entries@.len() && i != pos ==> #[trigger] final(self).entries@[i] == es[i]
                &&& r ==> (exists|i: int| 0 <= i < final(self).entries@.len()
                        && (#[trigger] final(self).entries@[i] matches MatchEntry::Simple(s) && s@ == m))
                &&& r ==> final(self).settings.folder_by_trigger@ == crate::state::set_folder_spec(
                        match crate::state::previous_trigger(es, edit.editing_index) {
                            Some(p) => crate::state::rename_spec(old(self).settings.folder_by_trigger@, p, m.trigger),
                            None => old(self).settings.folder_by_trigger@,
                        },
                        m.trigger, crate::edit_form::resolved_folder_spec(*edit))
            }),
    {
        let t = self.t();
        match apply_edit(&mut self.entries, &mut self.settings, &mut self.selection, edit, t) {
            Err(msg) => {
                self.banner = Some(Banner::error(msg));
                false
            },
            Ok(()) => {
                proof {
                    let pos: int = match edit.editing_index { Some(i) => i as int, None => old(self).entries@.len() as int };
                    assert(0 <= pos < self.entries@.len());
                    assert(self.entries@[pos] matches MatchEntry::Simple(s) && s@ == crate::edit_form::build_match_spec(*edit));
                }
                self.list_revision = self.list_revision.wrapping_add(1);
                self.view = screens::View::List;
                proof {
                    let pos: int = match edit.editing_index { Some(i) => i as int, None => old(self).entries@.len() as int };
                    let m = crate::edit_form::build_match_spec(*edit);
                    assert(0 <= pos < self.entries@.len() && (self.entries@[pos] matches MatchEntry::Simple(s) && s@ == m));
                }
                true
            },
        }
    }

    /// Where the expansion with this trigger stands in the file: the first one, if any.
    pub fn index_of_trigger(&self, trigger: &str) -> (r: Option<usize>)
        ensures
            match r {
                Some(i) => i < self.entries@.len() && entry_trigger(self.entries@[i as int]) == trigger@
                    && forall|j: int| 0 <= j < i ==> entry_trigger(#[trigger] self.entries@[j]) != trigger@,
                None => forall|j: int| 0 <= j < self.entries@.len() ==> entry_trigger(#[trigger] self.entries@[j]) != trigger@,
            },
    {
        let mut i: usize = 0;
        while i < self.entries.len()
            invariant
                i <= self.entries@.len(),
                forall|j: int| 0 <= j < i ==> entry_trigger(#[trigger] self.entries@[j]) != trigger@,
            decreases self.entries.len() - i,
        {
            if str_eq(self.entries[i].trigger_str(), trigger) {
                return Some(i);
            }
            i += 1;
        }
        None
    }

    /// Opens the edit form on the expansion with this trigger, filed under its folder. Nothing
    /// happens when there is none, or when the form cannot show it.
    pub fn open_edit_for(&mut self, trigger: &str)
        requires
            old(self).wf(),
        ensures
            final(self).wf(),
            final(self).entries == old(self).entries,
            final(self).settings == old(self).settings,
            ({
                let es = old(self).entries@;
                let found = exists|i: int| 0 <= i < es.len() && entry_trigger(#[trigger] es[i]) == trigger@;
                let i = choose|i: int| 0 <= i < es.len() && entry_trigger(#[trigger] es[i]) == trigger@
                    && forall|j: int| 0 <= j < i ==> entry_trigger(#[trigger] es[j]) != trigger@;
                if found && es[i] is Simple {
                    final(self).view matches screens::View::Edit(e)
                        && crate::edit_form::opened_on(e, i as usize, es[i]->Simple_0@,
                            old(self).settings.folder_by_trigger@.get(trigger@))
                } else {
                    final(self).view == old(self).view
                }
            }),
    {
        let index = match self.index_of_trigger(trigger) {
            Some(i) => i,
            None => {
                proof {
                    let es = old(self).entries@;
                    assert(!(exists|i: int| 0 <= i < es.len() && entry_trigger(#[trigger] es[i]) == trigger@));
                }
                return;
            },
        };
        proof {
            let es = old(self).entries@;
            let c = choose|i: int| 0 <= i < es.len() && entry_trigger(#[trigger] es[i]) == trigger@
                && forall|j: int| 0 <= j < i ==> entry_trigger(#[trigger] es[j]) != trigger@;
            assert(0 <= index < es.len() && entry_trigger(es[index as int]) == trigger@
                && forall|j: int| 0 <= j < index ==> entry_trigger(#[trigger] es[j]) != trigger@);
            if c < index {
                assert(entry_trigger(es[c]) != trigger@);
            } else if c > index {
                assert(entry_trigger(es[index as int]) != trigger@);
            }
            assert(c == index);
        }
        let e = match &self.entries[index] {
            MatchEntry::Simple(m) => {
                let folder = match self.settings.folder_of(m.trigger.as_str()) {
                    Some(f) => Some(owned(f)),
                    None => None,
                };
                EditState::new_for_edit(index, m, folder)
            },
            MatchEntry::Advanced(_) => return,
        };
        self.view = screens::View::Edit(e);
    }

    /// The question asked before deleting the expansion at `index`, or `None` when there is none.
    pub fn delete_prompt(&self, index: usize) -> (r: Option<String>)
        ensures
            index < self.entries@.len() <==> r is Some,
            r matches Some(m) ==> m@ == fill_spec(crate::i18n::strings_spec(self.settings.lang).delete_one_body@,
                seq![("name"@, entry_trigger(self.entries@[index as int]))]),
    {
        if index >= self.entries.len() {
            return None;
        }
        let name = self.entries[index].trigger_label();
        let args = [("name", name.as_str())];
        assert(args_view(args@) =~= seq![("name"@, entry_trigger(self.entries@[index as int]))]);
        Some(fill(self.t().delete_one_body, &args))
    }

    /// Records what turning start-with-Windows on or off came to: on success the new value and a
    /// note, on failure the value read back afterwards and the error.
    pub fn autostart_changed(&mut self, enabled: bool, outcome: Result<(), String>, read_back: bool)
        ensures
            final(self).autostart_enabled == (if outcome is Ok { enabled } else { read_back }),
            final(self).banner matches Some(b) && b.undo is None && ({
                let strs = crate::i18n::strings_spec(old(self).settings.lang);
                match outcome {
                    Ok(_) => b.kind == BannerKind::Info
                        && b.message@ == (if enabled { strs.autostart_on@ } else { strs.autostart_off@ }),
                    Err(e) => b.kind == BannerKind::Error
                        && b.message@ == fill_spec(strs.autostart_error@, seq![("err"@, e@)]),
                }
            }),
            final(self).entries == old(self).entries,
            final(self).settings == old(self).settings,
    {
        let t = self.t();
        match outcome {
            Ok(()) => {
                self.autostart_enabled = enabled;
                let m = if enabled { t.autostart_on } else { t.autostart_off };
                self.banner = Some(Banner::info(owned(m)));
            },
            Err(e) => {
                self.autostart_enabled = read_back;
                let args = [("err", e.as_str())];
                assert(args_view(args@) =~= seq![("err"@, e@)]);
                self.banner = Some(Banner::error(fill(t.autostart_error, &args)));
            },
        }
    }

    /// Deletes the expansion at `index` once the user has confirmed it, and goes back to the list.
    pub fn delete_entry(&mut self, index: usize)
        requires
            old(self).wf(),
            index < old(self).entries@.len(),
        ensures
            final(self).wf(),
            crate::settings::same_but_folders(final(self).settings, old(self).settings),
            final(self).entries@ == old(self).entries@.remove(index as int),
            final(self).settings.folder_by_trigger@ == old(self).settings.folder_by_trigger@.remove(entry_trigger(old(self).entries@[index as int])),
            final(self).selection@.0 == old(self).selection@.0.remove(entry_trigger(old(self).entries@[index as int])),
            final(self).view is List,
    {
        delete_at(&mut self.entries, &mut self.settings, &mut self.selection, index);
        self.list_revision = self.list_revision.wrapping_add(1);
        self.view = screens::View::List;
    }

    /// Works out what giving every expansion the current global prefix would do. When there is
    /// something to confirm, returns the renames (the caller shows [`crate::state::confirm_body`]);
    /// otherwise the banner says why nothing happens.
    pub fn plan_prefix_change(&mut self) -> (r: Option<Vec<(String, String)>>)
        requires
            old(self).wf(),
        ensures
            final(self).wf(),
            final(self).entries == old(self).entries,
            final(self).settings == old(self).settings,
            ({
                let rn = crate::state::renames_spec(old(self).entries@, old(self).settings.prefix@);
                let cs = crate::state::collisions_spec(crate::state::resulting_spec(old(self).entries@, old(self).settings.prefix@));
                &&& (r is Some) <==> (rn.len() > 0 && cs.len() == 0)
                &&& r matches Some(v) ==> crate::state::pairs(v@) == rn
                &&& rn.len() == 0 ==> (final(self).banner matches Some(b) && b.kind == BannerKind::Info
                        && b.message@ == crate::i18n::strings_spec(old(self).settings.lang).prefix_already_applied@)
                &&& rn.len() > 0 && cs.len() > 0 ==> (final(self).banner matches Some(b) && b.kind == BannerKind::Error
                        && b.message@ == fill_spec(crate::i18n::strings_spec(old(self).settings.lang).prefix_collision@,
                            seq![("list"@, crate::validation::join_spec(cs, ", "@))]))
                &&& rn.len() > 0 && cs.len() == 0 ==> final(self).banner == old(self).banner
            }),
    {
        let t = self.t();
        match plan_prefix(self.entries.as_slice(), self.settings.prefix.as_str()) {
            PrefixPlan::AlreadyApplied => {
                self.banner = Some(Banner::info(owned(t.prefix_already_applied)));
                None
            },
            PrefixPlan::Collisions(c) => {
                self.banner = Some(Banner::error(collision_message(&c, t)));
                None
            },
            PrefixPlan::Renames(v) => Some(v),
        }
    }

    /// Applies the confirmed prefix change: every simple match gets the prefix, and each renamed
    /// trigger keeps its folder and its place in the selection. Returns the message to show once
    /// the file is saved.
    pub fn apply_prefix_change(&mut self, renamed: &Vec<(String, String)>) -> (r: String)
        requires
            old(self).wf(),
        ensures
            final(self).wf(),
            final(self).entries@.len() == old(self).entries@.len(),
            forall|i: int| 0 <= i < old(self).entries@.len() ==> match (#[trigger] old(self).entries@[i], final(self).entries@[i]) {
                (MatchEntry::Simple(a), MatchEntry::Simple(b)) =>
                    b@.trigger == crate::state::with_prefix(old(self).settings.prefix@, a@.trigger) && b@.replace == a@.replace
                        && b@.vars == a@.vars && b@.label == a@.label,
                (MatchEntry::Advanced(a), MatchEntry::Advanced(b)) => b == a,
                _ => false,
            },
            final(self).settings.folder_by_trigger@
                == renamed_folders(old(self).settings.folder_by_trigger@, crate::state::pairs(renamed@)),
            final(self).selection@ == renamed_selection(old(self).selection@, crate::state::pairs(renamed@)),
            final(self).settings.prefix == old(self).settings.prefix,
            final(self).settings.lang == old(self).settings.lang,
            r@ == fill_spec(crate::i18n::strings_spec(old(self).settings.lang).prefix_applied@,
                seq![("n"@, decimal_spec(renamed@.len()))]),
    {
        let prefix = owned(self.settings.prefix.as_str());
        apply_prefix(&mut self.entries, prefix.as_str());
        let ghost rn = crate::state::pairs(renamed@);
        let ghost after = self.entries@;
        let mut i: usize = 0;
        while i < renamed.len()
            invariant
                i <= renamed@.len(),
                rn == crate::state::pairs(renamed@),
                self.entries@ == after,
                self.wf(),
                self.settings.folder_by_trigger@ == renamed_folders(old(self).settings.folder_by_trigger@, rn.subrange(0, i as int)),
                self.selection@ == renamed_selection(old(self).selection@, rn.subrange(0, i as int)),
                self.settings.prefix == old(self).settings.prefix,
                self.settings.lang == old(self).settings.lang,
            decreases renamed.len() - i,
        {
            proof {
                assert(rn.subrange(0, i + 1).drop_last() =~= rn.subrange(0, i as int));
            }
            self.settings.rename_trigger(renamed[i].0.as_str(), renamed[i].1.as_str());
            self.selection.rename(renamed[i].0.as_str(), renamed[i].1.as_str());
            i += 1;
        }
        assert(rn.subrange(0, renamed@.len() as int) =~= rn);
        self.list_revision = self.list_revision.wrapping_add(1);
        let t = self.t();
        let n = decimal(renamed.len() as u64);
        let args = [("n", n.as_str())];
        assert(args_view(args@) =~= seq![("n"@, decimal_spec(renamed@.len()))]);
        fill(t.prefix_applied, &args)
    }

    /// Says how writing an export of `count` expansions went.
    pub fn export_finished(&mut self, count: usize, outcome: Result<(), TransferError>)
        ensures
            final(self).banner matches Some(b) && b.undo is None && ({
                let strs = crate::i18n::strings_spec(old(self).settings.lang);
                match outcome {
                    Ok(_) => b.kind == BannerKind::Info
                        && b.message@ == fill_spec(strs.export_done@, seq![("n"@, decimal_spec(count as nat))]),
                    Err(TransferError::Io(e)) => b.kind == BannerKind::Error
                        && b.message@ == fill_spec(strs.export_error@, seq![("err"@, e@)]),
                    Err(_) => b.kind == BannerKind::Error && b.message@ == strs.export_error@,
                }
            }),
            final(self).entries == old(self).entries,
            final(self).settings == old(self).settings,
    {
        let t = self.t();
        let banner = match outcome {
            Ok(()) => {
                let n = decimal(count as u64);
                let args = [("n", n.as_str())];
                assert(args_view(args@) =~= seq![("n"@, decimal_spec(count as nat))]);
                Banner::info(fill(t.export_done, &args))
            },
            Err(TransferError::Io(e)) => {
                let args = [("err", e.as_str())];
                assert(args_view(args@) =~= seq![("err"@, e@)]);
                Banner::error(fill(t.export_error, &args))
            },
            Err(_) => Banner::error(owned(t.export_error)),
        };
        self.banner = Some(banner);
    }

    /// Says why an import file gave nothing to merge: it could not be read, or it is not an export
    /// of this app (an empty one lands here too — either way the file is the thing to look at).
    pub fn import_failed(&mut self, err: TransferError)
        ensures
            final(self).banner matches Some(b) && b.undo is None && b.kind == BannerKind::Error && ({
                let strs = crate::i18n::strings_spec(old(self).settings.lang);
                match err {
                    TransferError::Io(e) => b.message@ == fill_spec(strs.import_error@, seq![("err"@, e@)]),
                    _ => b.message@ == strs.import_not_ours@,
                }
            }),
            final(self).entries == old(self).entries,
            final(self).settings == old(self).settings,
    {
        let t = self.t();
        let message = match err {
            TransferError::Io(e) => {
                let args = [("err", e.as_str())];
                assert(args_view(args@) =~= seq![("err"@, e@)]);
                fill(t.import_error, &args)
            },
            _ => owned(t.import_not_ours),
        };
        self.banner = Some(Banner::error(message));
    }

    /// Adds what an import merged in, filing each under its folder. Returns the message to show
    /// once the file is saved, or `None` when nothing was added (the banner then says so).
    pub fn add_imported(&mut self, merged: Merged) -> (r: Option<String>)
        requires
            old(self).wf(),
        ensures
            final(self).wf(),
            merged.added@.len() == 0 ==> r is None && final(self).entries == old(self).entries
                && final(self).settings == old(self).settings
                && (final(self).banner matches Some(b) && b.kind == BannerKind::Info && b.message@ == fill_spec(
                    crate::i18n::strings_spec(old(self).settings.lang).import_none_added@,
                    seq![("k"@, decimal_spec(merged.skipped as nat))])),
            merged.added@.len() > 0 ==> ({
                let strs = crate::i18n::strings_spec(old(self).settings.lang);
                &&& final(self).entries@ == old(self).entries@ + merged.added@
                &&& final(self).settings.folder_by_trigger@
                        == filed_all(old(self).settings.folder_by_trigger@, folder_choices(merged.folders@))
                &&& r matches Some(m) && m@ == (if merged.skipped == 0 {
                        fill_spec(strs.import_done@, seq![("n"@, decimal_spec(merged.added@.len()))])
                    } else {
                        fill_spec(strs.import_done_skipped@, seq![("n"@, decimal_spec(merged.added@.len())),
                            ("k"@, decimal_spec(merged.skipped as nat))])
                    })
            }),
    {
        let t = self.t();
        let added = merged.added.len();
        match import_news(added, merged.skipped, t) {
            ImportNews::NothingAdded(m) => {
                self.banner = Some(Banner::info(m));
                None
            },
            ImportNews::Added(m) => {
                let Merged { added: mut new_entries, folders, skipped: _ } = merged;
                let ghost before = self.entries@;
                let ghost extra = new_entries@;
                self.entries.append(&mut new_entries);
                assert(self.entries@ =~= before + extra);
                let ghost fc = folder_choices(folders@);
                let ghost m0 = self.settings.folder_by_trigger@;
                let mut i: usize = 0;
                while i < folders.len()
                    invariant
                        i <= folders@.len(),
                        fc == folder_choices(folders@),
                        self.wf(),
                        self.entries@ == before + extra,
                        self.settings.folder_by_trigger@ == filed_all(m0, fc.subrange(0, i as int)),
                    decreases folders.len() - i,
                {
                    proof {
                        assert(fc.subrange(0, i + 1).drop_last() =~= fc.subrange(0, i as int));
                    }
                    let f = match &folders[i].1 {
                        Some(x) => Some(owned(x.as_str())),
                        None => None,
                    };
                    self.settings.set_folder(folders[i].0.as_str(), f);
                    i += 1;
                }
                assert(fc.subrange(0, folders@.len() as int) =~= fc);
                self.list_revision = self.list_revision.wrapping_add(1);
                Some(m)
            },
        }
    }

    /// Whether a save must be refused because the expansions file was never read: writing the
    /// empty model back would put an empty file where one we could not read used to be. The
    /// banner then repeats why.
    pub fn save_blocked(&mut self) -> (r: bool)
        ensures
            r == old(self).load_error is Some,
            r ==> (final(self).banner matches Some(b) && b.kind == BannerKind::Error
                && b.message@ == old(self).load_error->0@),
            !r ==> final(self).banner == old(self).banner,
            final(self).entries == old(self).entries,
            final(self).settings == old(self).settings,
    {
        match &self.load_error {
            Some(m) => {
                let msg = owned(m.as_str());
                assert(msg@ == m@);
                self.banner = Some(Banner::error(msg));
                assert(self.banner->0.message@ == old(self).load_error->0@);
                true
            },
            None => false,
        }
    }

    /// The banner after a save went through: the outcome of the restart, with the warning about
    /// the backup or the flush (see [`SaveWarnings::message`]) beneath it.
    pub fn after_save(&mut self, outcome: Result<String, String>, warning: Option<String>)
        ensures
            final(self).banner matches Some(b) && b.undo is None
                && b.kind == (if outcome is Ok && warning is None { BannerKind::Info } else { BannerKind::Error })
                && b.message@ == (match (outcome, warning) {
                    (Ok(m), None) => m@,
                    (Ok(m), Some(w)) => crate::state::paragraphs(m@, w@),
                    (Err(e), None) => e@,
                    (Err(e), Some(w)) => crate::state::paragraphs(e@, w@),
                }),
            final(self).entries == old(self).entries,
            final(self).settings == old(self).settings,
    {
        self.banner = Some(save_banner(outcome, warning));
    }
}


/// Sending triggers out of any folder takes exactly the live ones among them out of the map, and
/// moves something exactly when one of them was filed.
proof fn lemma_unfile(es: Seq<MatchEntry>, m: Map<Seq<char>, Seq<char>>, ts: Seq<Seq<char>>)
    ensures
        ({
            let mv = moves_spec(es, m, ts, None);
            let gone = Set::new(|k: Seq<char>| ts.contains(k) && crate::state::live(es, k));
            &&& file_all_spec(m, moved(mv), None) == m.remove_keys(gone)
            &&& (mv.len() > 0) == (exists|k: Seq<char>| #[trigger] gone.contains(k) && m.dom().contains(k))
        }),
    decreases ts.len(),
{
    let mv = moves_spec(es, m, ts, None);
    let gone = Set::new(|k: Seq<char>| ts.contains(k) && crate::state::live(es, k));
    if ts.len() == 0 {
        assert(m.remove_keys(gone) =~= m);
        assert(!(exists|k: Seq<char>| #[trigger] gone.contains(k) && m.dom().contains(k)));
    } else {
        let init = ts.drop_last();
        let t = ts.last();
        lemma_unfile(es, m, init);
        let mv0 = moves_spec(es, m, init, None);
        let gone0 = Set::new(|k: Seq<char>| init.contains(k) && crate::state::live(es, k));
        assert forall|k: Seq<char>| ts.contains(k) <==> (init.contains(k) || k == t) by {
            if ts.contains(k) {
                let i = choose|i: int| 0 <= i < ts.len() && ts[i] == k;
                if i < ts.len() - 1 {
                    assert(init[i] == k);
                }
            }
            if init.contains(k) {
                let i = choose|i: int| 0 <= i < init.len() && init[i] == k;
                assert(ts[i] == k);
            }
            if k == t {
                assert(ts[ts.len() - 1] == k);
            }
        }
        if crate::state::live(es, t) && crate::state::folder_in(m, t) != None::<Seq<char>> {
            assert(mv == mv0.push((t, crate::state::folder_in(m, t))));
            assert(moved(mv).drop_last() =~= moved(mv0));
            assert(moved(mv).last() == t);
            assert(gone =~= gone0.insert(t));
            assert(m.remove_keys(gone) =~= m.remove_keys(gone0).remove(t));
            assert(gone.contains(t) && m.dom().contains(t));
        } else {
            assert(mv == mv0);
            if crate::state::live(es, t) {
                assert(gone =~= gone0.insert(t));
                assert(!m.dom().contains(t));
                assert(m.remove_keys(gone) =~= m.remove_keys(gone0));
                if exists|k: Seq<char>| #[trigger] gone.contains(k) && m.dom().contains(k) {
                    let k = choose|k: Seq<char>| #[trigger] gone.contains(k) && m.dom().contains(k);
                    assert(k != t);
                    assert(gone0.contains(k));
                }
                if exists|k: Seq<char>| #[trigger] gone0.contains(k) && m.dom().contains(k) {
                    let k = choose|k: Seq<char>| #[trigger] gone0.contains(k) && m.dom().contains(k);
                    assert(gone.contains(k));
                }
            } else {
                assert(gone =~= gone0);
            }
        }
    }
}


/// A list of renames that do not get in each other's way: no trigger is renamed twice, no two
/// end up with the same name, and no new name is one that is being renamed.
pub open spec fn independent_renames(rn: Seq<(Seq<char>, Seq<char>)>) -> bool {
    &&& forall|i: int, j: int| 0 <= i < j < rn.len() ==> (#[trigger] rn[i]).0 != (#[trigger] rn[j]).0 && rn[i].1 != rn[j].1
    &&& forall|i: int, j: int| 0 <= i < rn.len() && 0 <= j < rn.len() ==> (#[trigger] rn[i]).1 != (#[trigger] rn[j]).0
}

/// Whether `k` is renamed by, or renamed to by, one of `rn`.
pub open spec fn touched(rn: Seq<(Seq<char>, Seq<char>)>, k: Seq<char>) -> bool {
    exists|i: int| 0 <= i < rn.len() && ((#[trigger] rn[i]).0 == k || rn[i].1 == k)
}

proof fn lemma_independent_init(rn: Seq<(Seq<char>, Seq<char>)>)
    requires
        rn.len() > 0,
        independent_renames(rn),
    ensures
        independent_renames(rn.drop_last()),
        forall|i: int| 0 <= i < rn.len() - 1 ==> #[trigger] rn.drop_last()[i] == rn[i],
{
    let init = rn.drop_last();
    assert forall|i: int, j: int| 0 <= i < j < init.len() implies (#[trigger] init[i]).0 != (#[trigger] init[j]).0 && init[i].1 != init[j].1 by {
        assert(init[i] == rn[i] && init[j] == rn[j]);
    }
    assert forall|i: int, j: int| 0 <= i < init.len() && 0 <= j < init.len() implies (#[trigger] init[i]).1 != (#[trigger] init[j]).0 by {
        assert(init[i] == rn[i] && init[j] == rn[j]);
    }
}

/// A bulk rename keeps every renamed expansion in its folder: afterwards each new trigger is filed
/// where its old one was, no old trigger is filed anywhere, and every trigger the rename does not
/// touch keeps its folder — as long as the renames do not get in each other's way, which a prefix
/// change that was not refused for collisions guarantees.
pub proof fn law_prefix_rename_keeps_folders(m: Map<Seq<char>, Seq<char>>, rn: Seq<(Seq<char>, Seq<char>)>)
    requires
        independent_renames(rn),
    ensures
        forall|i: int| 0 <= i < rn.len() && m.dom().contains((#[trigger] rn[i]).0) ==>
            renamed_folders(m, rn).dom().contains(rn[i].1) && renamed_folders(m, rn)[rn[i].1] == m[rn[i].0],
        forall|i: int| 0 <= i < rn.len() ==> !renamed_folders(m, rn).dom().contains((#[trigger] rn[i]).0),
        forall|k: Seq<char>| !touched(rn, k) ==> (#[trigger] renamed_folders(m, rn).dom().contains(k)) == m.dom().contains(k)
            && (m.dom().contains(k) ==> renamed_folders(m, rn)[k] == m[k]),
    decreases rn.len(),
{
    if rn.len() > 0 {
        let init = rn.drop_last();
        let n = rn.len() - 1;
        lemma_independent_init(rn);
        law_prefix_rename_keeps_folders(m, init);
        let prev = renamed_folders(m, init);
        let (from, to) = rn.last();
        assert(rn.last() == rn[n]);
        assert(from != to) by { assert(rn[n].1 != rn[n].0); }
        assert(!touched(init, from)) by {
            if touched(init, from) {
                let i = choose|i: int| 0 <= i < init.len() && ((#[trigger] init[i]).0 == from || init[i].1 == from);
                assert(init[i] == rn[i]);
            }
        }
        assert forall|k: Seq<char>| touched(rn, k) <==> (touched(init, k) || k == from || k == to) by {
            if touched(rn, k) {
                let i = choose|i: int| 0 <= i < rn.len() && ((#[trigger] rn[i]).0 == k || rn[i].1 == k);
                if i < n {
                    assert(init[i] == rn[i]);
                }
            }
            if touched(init, k) {
                let i = choose|i: int| 0 <= i < init.len() && ((#[trigger] init[i]).0 == k || init[i].1 == k);
                assert(init[i] == rn[i]);
            }
            if k == from || k == to {
                assert(rn[n].0 == from && rn[n].1 == to);
            }
        }
        assert forall|i: int| 0 <= i < n implies (#[trigger] rn[i]).1 != to && rn[i].0 != from && rn[i].1 != from && rn[i].0 != to by {
            assert(rn[i].1 != rn[n].1);
            assert(rn[i].0 != rn[n].0);
            assert(rn[i].1 != rn[n].0);
            assert(rn[n].1 != rn[i].0);
        }
        assert forall|i: int| 0 <= i < rn.len() && m.dom().contains((#[trigger] rn[i]).0) implies
            renamed_folders(m, rn).dom().contains(rn[i].1) && renamed_folders(m, rn)[rn[i].1] == m[rn[i].0] by {
            if i < n {
                assert(init[i] == rn[i]);
            }
        }
        assert forall|i: int| 0 <= i < rn.len() implies !renamed_folders(m, rn).dom().contains((#[trigger] rn[i]).0) by {
            if i < n {
                assert(init[i] == rn[i]);
            }
        }
    }
}

/// A bulk rename carries the selection along: a checked trigger's new name is checked, no old name
/// stays checked, the anchor follows its trigger, and nothing the rename does not touch changes —
/// as long as the renames do not get in each other's way.
pub proof fn law_prefix_rename_moves_selection(sel: (Set<Seq<char>>, Option<Seq<char>>), rn: Seq<(Seq<char>, Seq<char>)>)
    requires
        independent_renames(rn),
    ensures
        forall|i: int| 0 <= i < rn.len() && sel.0.contains((#[trigger] rn[i]).0) ==> renamed_selection(sel, rn).0.contains(rn[i].1),
        forall|i: int| 0 <= i < rn.len() ==> !renamed_selection(sel, rn).0.contains((#[trigger] rn[i]).0),
        forall|i: int| 0 <= i < rn.len() && sel.1 == Some((#[trigger] rn[i]).0) ==> renamed_selection(sel, rn).1 == Some(rn[i].1),
        forall|k: Seq<char>| !touched(rn, k) ==> (#[trigger] renamed_selection(sel, rn).0.contains(k)) == sel.0.contains(k),
        (forall|i: int| 0 <= i < rn.len() ==> sel.1 != Some((#[trigger] rn[i]).0)) ==> renamed_selection(sel, rn).1 == sel.1,
    decreases rn.len(),
{
    if rn.len() > 0 {
        let init = rn.drop_last();
        let n = rn.len() - 1;
        lemma_independent_init(rn);
        law_prefix_rename_moves_selection(sel, init);
        let (from, to) = rn.last();
        assert(rn.last() == rn[n]);
        assert(from != to) by { assert(rn[n].1 != rn[n].0); }
        assert(!touched(init, from)) by {
            if touched(init, from) {
                let i = choose|i: int| 0 <= i < init.len() && ((#[trigger] init[i]).0 == from || init[i].1 == from);
                assert(init[i] == rn[i]);
            }
        }
        assert forall|k: Seq<char>| touched(rn, k) <==> (touched(init, k) || k == from || k == to) by {
            if touched(rn, k) {
                let i = choose|i: int| 0 <= i < rn.len() && ((#[trigger] rn[i]).0 == k || rn[i].1 == k);
                if i < n {
                    assert(init[i] == rn[i]);
                }
            }
            if touched(init, k) {
                let i = choose|i: int| 0 <= i < init.len() && ((#[trigger] init[i]).0 == k || init[i].1 == k);
                assert(init[i] == rn[i]);
            }
            if k == from || k == to {
                assert(rn[n].0 == from && rn[n].1 == to);
            }
        }
        assert forall|i: int| 0 <= i < n implies (#[trigger] rn[i]).1 != to && rn[i].0 != from && rn[i].1 != from && rn[i].0 != to by {
            assert(rn[i].1 != rn[n].1);
            assert(rn[i].0 != rn[n].0);
            assert(rn[i].1 != rn[n].0);
            assert(rn[n].1 != rn[i].0);
        }
        assert forall|i: int| 0 <= i < rn.len() && sel.0.contains((#[trigger] rn[i]).0) implies renamed_selection(sel, rn).0.contains(rn[i].1) by {
            if i < n {
                assert(init[i] == rn[i]);
            }
        }
        assert forall|i: int| 0 <= i < rn.len() implies !renamed_selection(sel, rn).0.contains((#[trigger] rn[i]).0) by {
            if i < n {
                assert(init[i] == rn[i]);
            }
        }
        assert forall|i: int| 0 <= i < rn.len() && sel.1 == Some((#[trigger] rn[i]).0) implies renamed_selection(sel, rn).1 == Some(rn[i].1) by {
            if i < n {
                assert(init[i] == rn[i]);
            }
        }
        if forall|i: int| 0 <= i < rn.len() ==> sel.1 != Some((#[trigger] rn[i]).0) {
            assert forall|i: int| 0 <= i < init.len() implies sel.1 != Some((#[trigger] init[i]).0) by {
                assert(init[i] == rn[i]);
            }
            assert(sel.1 != Some(rn[n].0));
        }
    }
}

/// A prefix change that was not refused for collisions renames independently: planned with a
/// prefix made only of symbols, and with no two expansions ending up on the same trigger, its
/// renames never rename a trigger twice, never give two the same name and never rename onto a
/// trigger that is itself being renamed. Each rename gives its trigger the prefix.
pub proof fn law_accepted_prefix_change_is_independent(es: Seq<MatchEntry>, prefix: Seq<char>)
    requires
        forall|k: int| 0 <= k < prefix.len() ==> !crate::text::char_is_alphanumeric(#[trigger] prefix[k]),
        crate::state::collisions_spec(crate::state::resulting_spec(es, prefix)).len() == 0,
    ensures
        independent_renames(crate::state::renames_spec(es, prefix)),
        forall|i: int| 0 <= i < crate::state::renames_spec(es, prefix).len() ==> {
            let r = #[trigger] crate::state::renames_spec(es, prefix)[i];
            &&& r.1 == crate::state::with_prefix(prefix, r.0)
            &&& r.1 != r.0
            &&& crate::state::resulting_spec(es, prefix).contains(r.1)
        },
    decreases es.len(),
{
    let rn = crate::state::renames_spec(es, prefix);
    let rs = crate::state::resulting_spec(es, prefix);
    if es.len() > 0 {
        let init = es.drop_last();
        let rs0 = crate::state::resulting_spec(init, prefix);
        assert(rs.drop_last() =~= rs0);
        assert(rs.last() == rs[rs.len() - 1]);
        // No collision overall means none among the earlier ones, and the last is new.
        let c0 = crate::state::collisions_spec(rs.drop_last());
        assert(crate::state::collisions_spec(rs) == (if rs.drop_last().contains(rs.last()) { c0.push(rs.last()) } else { c0 }));
        assert(c0.len() == 0 && !rs0.contains(rs.last()));
        law_accepted_prefix_change_is_independent(init, prefix);
        let rn0 = crate::state::renames_spec(init, prefix);
        assert forall|i: int| 0 <= i < rn0.len() implies rs.contains((#[trigger] rn0[i]).1) by {
            let r = rn0[i];
            let k = choose|k: int| 0 <= k < rs0.len() && rs0[k] == r.1;
            assert(rs[k] == rs0[k]);
        }
        match es.last() {
            MatchEntry::Simple(m) => {
                let f = m.trigger@;
                let t = crate::state::with_prefix(prefix, f);
                assert(rs.last() == t);
                if t != f {
                    assert(rn == rn0.push((f, t)));
                    let n = rn0.len() as int;
                    crate::state::law_prefix_is_idempotent(prefix, f);
                    assert forall|i: int| 0 <= i < n implies (#[trigger] rn0[i]).1 != t && rn0[i].0 != f
                        && rn0[i].1 != f && rn0[i].0 != t by {
                        let r = rn0[i];
                        assert(rs0.contains(r.1));
                        crate::state::law_prefix_is_idempotent(prefix, r.0);
                    }
                    assert forall|i: int, j: int| 0 <= i < j < rn.len() implies (#[trigger] rn[i]).0 != (#[trigger] rn[j]).0 && rn[i].1 != rn[j].1 by {
                        assert(rn[i] == rn0[i]);
                        if j < n {
                            assert(rn[j] == rn0[j]);
                        }
                    }
                    assert forall|i: int, j: int| 0 <= i < rn.len() && 0 <= j < rn.len() implies (#[trigger] rn[i]).1 != (#[trigger] rn[j]).0 by {
                        if i < n {
                            assert(rn[i] == rn0[i]);
                        }
                        if j < n {
                            assert(rn[j] == rn0[j]);
                        }
                    }
                    assert forall|i: int| 0 <= i < rn.len() implies {
                        let r = #[trigger] rn[i];
                        &&& r.1 == crate::state::with_prefix(prefix, r.0)
                        &&& r.1 != r.0
                        &&& rs.contains(r.1)
                    } by {
                        if i < n {
                            assert(rn[i] == rn0[i]);
                        } else {
                            assert(rs[rs.len() - 1] == t);
                        }
                    }
                } else {
                    assert(rn == rn0);
                }
            },
            MatchEntry::Advanced(_) => {
                assert(rn == rn0);
            },
        }
    }
}
} // verus!
