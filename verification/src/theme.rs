//! Light, dark, or whatever Windows says — and the accent colour to draw with.
//!
//! Reading the registry is done outside this library; what Windows answered is handed in.

use vstd::prelude::*;

verus! {

/// Whether the interface follows Windows or is pinned to one appearance.
#[derive(Debug, Clone, Copy, PartialEq, Eq, Structural)]
pub enum ThemeMode {
    System,
    Light,
    Dark,
}

/// Every mode, in the order the picker lists them.
pub const ALL_THEME_MODES: [ThemeMode; 3] = [ThemeMode::System, ThemeMode::Light, ThemeMode::Dark];

/// Windows' default accent (`#0078D4`) in the two shades Fluent derives from it, used when the
/// real palette cannot be read.
pub open spec fn fallback_accent(is_light: bool) -> (u8, u8, u8) {
    if is_light { (0x00, 0x67, 0xC0) } else { (0x4C, 0xC2, 0xFF) }
}

/// The accent in the shade Fluent uses for the given theme: `Dark1` (the fifth of the eight
/// shades) on light backgrounds, `Light2` (the second) on dark ones, read from `AccentPalette`,
/// which keeps each shade as four bytes.
pub open spec fn accent_spec(is_light: bool, palette: Option<Seq<u8>>) -> (u8, u8, u8) {
    let o: int = if is_light { 16 } else { 4 };
    match palette {
        Some(p) => if p.len() >= o + 3 { (p[o], p[o + 1], p[o + 2]) } else { fallback_accent(is_light) },
        None => fallback_accent(is_light),
    }
}

impl ThemeMode {
    /// The mode a new installation starts in.
    pub fn default_mode() -> (r: ThemeMode)
        ensures
            r == ThemeMode::System,
    {
        ThemeMode::System
    }

    /// The appearance that should actually be drawn, given whether Windows is currently set to a
    /// light theme for apps.
    pub fn is_light(self, system_is_light: bool) -> (r: bool)
        ensures
            r == (match self {
                ThemeMode::System => system_is_light,
                ThemeMode::Light => true,
                ThemeMode::Dark => false,
            }),
    {
        match self {
            ThemeMode::System => system_is_light,
            ThemeMode::Light => true,
            ThemeMode::Dark => false,
        }
    }

    /// Only the automatic mode has to keep watching Windows; a pinned theme never changes on its
    /// own, so the watch can be skipped entirely.
    pub fn follows_system(self) -> (r: bool)
        ensures
            r == (self == ThemeMode::System),
    {
        matches!(self, ThemeMode::System)
    }
}

/// The user's own accent colour, in the shade Fluent specifies for the given theme, from the
/// `AccentPalette` bytes Windows keeps — or the Windows default when those could not be read.
pub fn system_accent(is_light: bool, palette: Option<&[u8]>) -> (r: (u8, u8, u8))
    ensures
        r == accent_spec(is_light, match palette { Some(p) => Some(p@), None => None }),
{
    let index: usize = if is_light { 4 } else { 1 };
    let o = index * 4;
    match palette {
        Some(p) => {
            if p.len() >= o + 3 {
                (p[o], p[o + 1], p[o + 2])
            } else if is_light {
                (0x00, 0x67, 0xC0)
            } else {
                (0x4C, 0xC2, 0xFF)
            }
        },
        None => {
            if is_light {
                (0x00, 0x67, 0xC0)
            } else {
                (0x4C, 0xC2, 0xFF)
            }
        },
    }
}


/// How long after Windows announces a theme change the appearance keeps being re-read: the accent
/// palette is written by a different component than the light/dark flag, and may lag behind it.
pub const THEME_RECHECK_WINDOW_MS: u64 = 1500;

/// How often it is re-read during that window.
pub const THEME_RECHECK_EVERY_MS: u64 = 150;

/// How often it is read when nothing was announced, with a listener for announcements: a lazy
/// backstop for a change nobody announced.
pub const THEME_BACKSTOP_WATCHED_MS: u64 = 30_000;

/// How often it is read when there is no listener at all.
pub const THEME_BACKSTOP_UNWATCHED_MS: u64 = 2_000;

/// When the appearance was last read, and until when it keeps being re-read after an
/// announcement, in milliseconds on the caller's clock.
#[derive(Debug, Clone, Copy, PartialEq, Eq, Structural)]
pub struct ThemePoll {
    pub recheck_until_ms: u64,
    pub last_check_ms: u64,
}

/// What a poll decided: the new bookkeeping, whether to read the appearance now, and, inside the
/// re-read window, how soon the next frame is wanted.
#[derive(Debug, Clone, Copy, PartialEq, Eq, Structural)]
pub struct ThemePollStep {
    pub next: ThemePoll,
    pub read_now: bool,
    pub repaint_after_ms: Option<u64>,
}

/// One poll at `now_ms`: `watched` says whether announcements can arrive at all, `announced`
/// whether one did since the last poll.
pub fn theme_poll(poll: ThemePoll, now_ms: u64, watched: bool, announced: bool) -> (r: ThemePollStep)
    ensures
        ({
            let until: int = if announced {
                if now_ms + THEME_RECHECK_WINDOW_MS > u64::MAX { u64::MAX as int } else { now_ms + THEME_RECHECK_WINDOW_MS }
            } else {
                poll.recheck_until_ms as int
            };
            let in_window = now_ms < until;
            let backstop: int = if watched { THEME_BACKSTOP_WATCHED_MS as int } else { THEME_BACKSTOP_UNWATCHED_MS as int };
            let elapsed: int = if now_ms >= poll.last_check_ms { now_ms - poll.last_check_ms } else { 0 };
            let read = in_window || elapsed >= backstop;
            &&& r.next.recheck_until_ms == until
            &&& r.read_now == read
            &&& r.next.last_check_ms == (if read { now_ms } else { poll.last_check_ms })
            &&& r.repaint_after_ms == (if in_window { Some(THEME_RECHECK_EVERY_MS) } else { None })
        }),
{
    let until = if announced { now_ms.saturating_add(THEME_RECHECK_WINDOW_MS) } else { poll.recheck_until_ms };
    let in_window = now_ms < until;
    let backstop = if watched { THEME_BACKSTOP_WATCHED_MS } else { THEME_BACKSTOP_UNWATCHED_MS };
    let elapsed = now_ms.saturating_sub(poll.last_check_ms);
    let read = in_window || elapsed >= backstop;
    ThemePollStep {
        next: ThemePoll { recheck_until_ms: until, last_check_ms: if read { now_ms } else { poll.last_check_ms } },
        read_now: read,
        repaint_after_ms: if in_window { Some(THEME_RECHECK_EVERY_MS) } else { None },
    }
}

/// Whether Windows is set to a light theme for apps, from its `AppsUseLightTheme` value: any value
/// but 0 means light, and so does a value that could not be read (Windows' own default on a fresh
/// install).
pub fn light_from_registry(apps_use_light_theme: Option<u32>) -> (r: bool)
    ensures
        r == (match apps_use_light_theme { Some(v) => v != 0, None => true }),
{
    match apps_use_light_theme {
        Some(v) => v != 0,
        None => true,
    }
}

} // verus!
