//! The one form: creating an expansion and editing one.
//!
//! `EditState` is the whole form — every field the user can touch. `build_match` turns it into
//! the `SimpleMatch` that gets saved, and `new_for_edit` turns a stored one back into a form; the
//! two have to stay each other's inverse, or reopening an expansion shows something the user did
//! not write.
//!
//! The trigger is split into prefix and word for editing and rejoined on save, so changing the
//! global prefix is a change to one setting and not to every trigger in the file.

use vstd::prelude::*;
use crate::i18n::{Lang, fill, fill_spec, args_view};
use crate::strings::Strings;
use crate::date_blocks::{Block, parse, parse_spec, to_format, to_format_spec, timezone_for, has_utc_hour};
use crate::datefmt::{eq_ignore_ascii_case, eq_ignore_ascii_case_spec, needs_locale, needs_locale_spec};
use crate::model::{SimpleMatch, SimpleMatchV, VarEntryV, MatchEntry, entry_trigger, is_date_match, param_str_spec};
use crate::presets::{DatePreset, build_custom_date_var, month_lang_of, date_var_spec, preset_format, preset_tz, detect_spec, month_lang_spec};
use crate::text::{chars_of, string_of_range, trim, trim_spec, owned, push_str, is_alphanumeric, char_is_alphanumeric, is_prefix, starts_with, chars_eq,
    lemma_trim_idempotent, lemma_alnum_not_ws, lemma_trim_of_unspaced};

verus! {

/// The name of the variable a date expansion is stored under.
pub const DATE_VAR_NAME: &'static str = "fecha";

/// What the expansion produces.
pub enum Kind {
    Text { replace: String },
    Date {
        preset: Option<DatePreset>,
        custom_format: String,
        custom_tz: String,
        /// The language a written-out month or weekday is spelled in, stored in the expansion
        /// itself so it reads the same on every machine it is shared with.
        month_lang: Lang,
    },
}

/// Where the word of a trigger starts: at its first letter or digit, or at its end.
pub open spec fn word_start(s: Seq<char>) -> int
    decreases s.len(),
{
    if s.len() == 0 {
        0
    } else if char_is_alphanumeric(s[0]) {
        0
    } else {
        1 + word_start(s.drop_first())
    }
}

/// A trigger split into its symbol prefix and the word after it.
pub open spec fn split_spec(s: Seq<char>) -> (Seq<char>, Seq<char>) {
    (s.subrange(0, word_start(s)), s.subrange(word_start(s), s.len() as int))
}

/// The trigger a form saves: the trimmed prefix joined to the word, where the word is stripped of
/// any leading symbols by the same rule that splits a stored trigger. Empty when the word has no
/// letter or digit at all.
pub open spec fn trigger_spec(prefix: Seq<char>, word: Seq<char>) -> Seq<char> {
    let w = split_spec(trim_spec(word)).1;
    if w.len() == 0 {
        Seq::empty()
    } else {
        trim_spec(prefix) + w
    }
}

pub proof fn lemma_word_start_bounds(s: Seq<char>)
    ensures
        0 <= word_start(s) <= s.len(),
        forall|k: int| 0 <= k < word_start(s) ==> !char_is_alphanumeric(#[trigger] s[k]),
        word_start(s) < s.len() ==> char_is_alphanumeric(s[word_start(s)]),
    decreases s.len(),
{
    if s.len() > 0 && !char_is_alphanumeric(s[0]) {
        lemma_word_start_bounds(s.drop_first());
        assert forall|k: int| 0 <= k < word_start(s) implies !char_is_alphanumeric(#[trigger] s[k]) by {
            if k > 0 {
                assert(s[k] == s.drop_first()[k - 1]);
            }
        }
    }
}

proof fn lemma_word_start_is(s: Seq<char>, i: int)
    requires
        0 <= i <= s.len(),
        forall|k: int| 0 <= k < i ==> !char_is_alphanumeric(#[trigger] s[k]),
        i < s.len() ==> char_is_alphanumeric(s[i]),
    ensures
        word_start(s) == i,
    decreases s.len(),
{
    if i > 0 {
        assert(!char_is_alphanumeric(s[0]));
        assert forall|k: int| 0 <= k < i - 1 implies !char_is_alphanumeric(#[trigger] s.drop_first()[k]) by {
            assert(s.drop_first()[k] == s[k + 1]);
        }
        lemma_word_start_is(s.drop_first(), i - 1);
    }
}

/// Splits a stored trigger into its symbol prefix and the word after it.
///
/// The prefix is the leading run of characters that are not letters or digits, so `"::hola"`
/// becomes `("::", "hola")`. Keeping the two apart is what makes "apply this prefix everywhere"
/// predictable: the prefix is replaced rather than stapled on to whatever was there before.
pub fn split_trigger(trigger: &str) -> (r: (String, String))
    ensures
        (r.0@, r.1@) == split_spec(trigger@),
{
    let v = chars_of(trigger);
    let mut i: usize = 0;
    while i < v.len() && !is_alphanumeric(v[i])
        invariant
            i <= v@.len(),
            forall|k: int| 0 <= k < i ==> !char_is_alphanumeric(#[trigger] v@[k]),
        decreases v.len() - i,
    {
        i += 1;
    }
    proof {
        lemma_word_start_is(v@, i as int);
    }
    (string_of_range(v.as_slice(), 0, i), string_of_range(v.as_slice(), i, v.len()))
}

/// Everything the form holds.
pub struct EditState {
    /// `None` while creating a brand new expansion.
    pub editing_index: Option<usize>,
    /// Held apart from the word so the two can be edited independently; recombined on save.
    pub prefix: String,
    pub word: String,
    pub kind: Kind,
    /// The half of the Text/Date switch that is not on screen, kept so crossing the switch cannot
    /// destroy work. Scratch state only: `build_match` never reads it.
    pub stashed_kind: Option<Kind>,
    /// Optional folder this expansion belongs to; our own bookkeeping, never written to espanso.
    pub folder: Option<String>,
    pub choosing_new_folder: bool,
    pub new_folder_input: String,
}

/// An optional string as a sequence.
pub open spec fn opt_string_view(o: Option<String>) -> Option<Seq<char>> {
    match o {
        Some(s) => Some(s@),
        None => None,
    }
}

/// The folder a form files its expansion under: the typed name of a new folder when that box is
/// in use (none if it is blank), the picked folder otherwise.
pub open spec fn resolved_folder_spec(e: EditState) -> Option<Seq<char>> {
    if e.choosing_new_folder {
        if trim_spec(e.new_folder_input@).len() == 0 {
            None
        } else {
            Some(trim_spec(e.new_folder_input@))
        }
    } else {
        opt_string_view(e.folder)
    }
}

/// The variable a date form writes.
pub open spec fn form_date_var(preset: Option<DatePreset>, custom_format: Seq<char>, custom_tz: Seq<char>, lang: Lang) -> VarEntryV {
    match preset {
        Some(p) => date_var_spec(DATE_VAR_NAME@, preset_format(p), preset_tz(p), lang),
        None => date_var_spec(DATE_VAR_NAME@, custom_format,
            if trim_spec(custom_tz).len() == 0 { None } else { Some(custom_tz) }, lang),
    }
}

/// The match a form saves.
pub open spec fn build_match_spec(e: EditState) -> SimpleMatchV {
    match e.kind {
        Kind::Text { replace } => SimpleMatchV {
            trigger: trigger_spec(e.prefix@, e.word@),
            replace: replace@,
            vars: Seq::empty(),
            label: None,
        },
        Kind::Date { preset, custom_format, custom_tz, month_lang } => SimpleMatchV {
            trigger: trigger_spec(e.prefix@, e.word@),
            replace: crate::model::var_reference(DATE_VAR_NAME@),
            vars: seq![form_date_var(preset, custom_format@, custom_tz@, month_lang)],
            label: None,
        },
    }
}

/// The string value of a parameter, or empty.
pub open spec fn param_or_empty(v: VarEntryV, key: Seq<char>) -> Seq<char> {
    match param_str_spec(v.params, key) {
        Some(s) => s,
        None => Seq::empty(),
    }
}

/// `e` is the form opened on the stored match `m` at `index`, filed under `folder`: prefix and
/// word split from its trigger; a date form with the preset, format, time zone and month language
/// read from its variable when it is a date match, otherwise a text form with its replacement;
/// nothing set aside; the folder choice closed.
pub open spec fn opened_on(e: EditState, index: usize, m: SimpleMatchV, folder: Option<Seq<char>>) -> bool {
    &&& e.editing_index == Some(index)
    &&& (e.prefix@, e.word@) == split_spec(m.trigger)
    &&& is_date_match(m) ==> (e.kind matches Kind::Date { preset, custom_format, custom_tz, month_lang }
            && preset == detect_spec(m.vars[0])
            && custom_format@ == param_or_empty(m.vars[0], "format"@)
            && custom_tz@ == param_or_empty(m.vars[0], "tz"@)
            && month_lang == month_lang_spec(m.vars[0]))
    &&& !is_date_match(m) ==> (e.kind matches Kind::Text { replace } && replace@ == m.replace)
    &&& e.stashed_kind is None
    &&& opt_string_view(e.folder) == folder
    &&& !e.choosing_new_folder
    &&& e.new_folder_input@.len() == 0
}

impl EditState {
    /// A blank form for a new expansion, with the global prefix already in place.
    pub fn new_for_create(default_prefix: &str) -> (e: EditState)
        ensures
            e.editing_index is None,
            e.prefix@ == default_prefix@,
            e.word@.len() == 0,
            e.kind matches Kind::Text { replace } && replace@.len() == 0,
            e.stashed_kind is None,
            e.folder is None,
            !e.choosing_new_folder,
            e.new_folder_input@.len() == 0,
    {
        EditState {
            editing_index: None,
            prefix: owned(default_prefix),
            word: String::new(),
            kind: Kind::Text { replace: String::new() },
            stashed_kind: None,
            folder: None,
            choosing_new_folder: false,
            new_folder_input: String::new(),
        }
    }

    /// The form for editing stored match `index`: a date match re-opens the date picker with its
    /// preset, format, time zone and month language; anything else opens as text.
    pub fn new_for_edit(index: usize, m: &SimpleMatch, folder: Option<String>) -> (e: EditState)
        ensures
            opened_on(e, index, m@, opt_string_view(folder)),
            e.editing_index == Some(index),
            (e.prefix@, e.word@) == split_spec(m@.trigger),
            is_date_match(m@) ==> (e.kind matches Kind::Date { preset, custom_format, custom_tz, month_lang }
                && preset == detect_spec(m@.vars[0])
                && custom_format@ == param_or_empty(m@.vars[0], "format"@)
                && custom_tz@ == param_or_empty(m@.vars[0], "tz"@)
                && month_lang == month_lang_spec(m@.vars[0])),
            !is_date_match(m@) ==> (e.kind matches Kind::Text { replace } && replace@ == m@.replace),
            e.stashed_kind is None,
            opt_string_view(e.folder) == opt_string_view(folder),
            !e.choosing_new_folder,
            e.new_folder_input@.len() == 0,
    {
        let kind = match m.as_date_var() {
            Some(var) => {
                proof {
                    reveal_strlit("");
                }
                let format = match var.param_str("format") {
                    Some(f) => owned(f),
                    None => String::new(),
                };
                let tz = match var.param_str("tz") {
                    Some(z) => owned(z),
                    None => String::new(),
                };
                Kind::Date {
                    preset: DatePreset::detect(var),
                    custom_format: format,
                    custom_tz: tz,
                    month_lang: month_lang_of(var),
                }
            },
            None => Kind::Text { replace: owned(m.replace.as_str()) },
        };
        let (prefix, word) = split_trigger(m.trigger.as_str());
        EditState {
            editing_index: Some(index),
            prefix,
            word,
            kind,
            stashed_kind: None,
            folder,
            choosing_new_folder: false,
            new_folder_input: String::new(),
        }
    }

    /// The effective folder, taking the new-folder text box into account if that is the mode the
    /// user was in when they saved.
    pub fn resolved_folder(&self) -> (r: Option<String>)
        ensures
            opt_string_view(r) == resolved_folder_spec(*self),
    {
        if self.choosing_new_folder {
            let name = trim(self.new_folder_input.as_str());
            if name.as_str().is_empty() {
                None
            } else {
                Some(name)
            }
        } else {
            match &self.folder {
                Some(f) => Some(owned(f.as_str())),
                None => None,
            }
        }
    }

    /// The trigger as espanso will see it: the prefix and the word joined back together, with the
    /// word stripped of leading symbols first so the two boxes cannot fight (typing `:hola` next to
    /// a prefix box showing `:` gives `:hola`, not `::hola`). Empty when the word has no letters or
    /// digits, so a prefix on its own is caught by the same check as an empty trigger.
    pub fn trigger(&self) -> (r: String)
        ensures
            r@ == trigger_spec(self.prefix@, self.word@),
    {
        let trimmed_word = trim(self.word.as_str());
        let (_, word) = split_trigger(trimmed_word.as_str());
        if word.as_str().is_empty() {
            return String::new();
        }
        let mut out = trim(self.prefix.as_str());
        push_str(&mut out, word.as_str());
        out
    }

    /// The match this form saves.
    pub fn build_match(&self) -> (m: SimpleMatch)
        ensures
            m@ == build_match_spec(*self),
    {
        match &self.kind {
            Kind::Text { replace } => {
                let m = SimpleMatch {
                    trigger: self.trigger(),
                    replace: owned(replace.as_str()),
                    vars: Vec::new(),
                    label: None,
                };
                assert(m@.vars =~= Seq::<VarEntryV>::empty());
                m
            },
            Kind::Date { preset, custom_format, custom_tz, month_lang } => {
                let var = match preset {
                    Some(p) => p.build_var(DATE_VAR_NAME, *month_lang),
                    None => build_custom_date_var(DATE_VAR_NAME, custom_format.as_str(), Some(custom_tz.as_str()), *month_lang),
                };
                let mut replace = String::new();
                push_str(&mut replace, "{{");
                push_str(&mut replace, DATE_VAR_NAME);
                push_str(&mut replace, "}}");
                proof {
                    reveal_strlit("{{");
                    reveal_strlit("}}");
                    assert(replace@ =~= crate::model::var_reference(DATE_VAR_NAME@));
                }
                let mut vars = Vec::new();
                vars.push(var);
                let m = SimpleMatch { trigger: self.trigger(), replace, vars, label: None };
                assert(m@.vars =~= seq![form_date_var(*preset, custom_format@, custom_tz@, *month_lang)]);
                m
            },
        }
    }
}

/// The first pair of triggers, in file order, that cannot both work — shortest first. Espanso
/// fires a match the moment what has been typed ends with its trigger, so between `:test` and
/// `:testing` only `:test` can ever fire. The row being edited is skipped, as are empty triggers
/// and exact duplicates, which saving already refuses by name.
pub open spec fn shadow_from(es: Seq<MatchEntry>, editing: Option<usize>, t: Seq<char>, i: int) -> Option<(Seq<char>, Seq<char>)>
    decreases es.len() - i,
{
    if i < 0 || i >= es.len() {
        None
    } else if editing == Some(i as usize) {
        shadow_from(es, editing, t, i + 1)
    } else {
        let o = entry_trigger(es[i]);
        if o.len() == 0 || o == t {
            shadow_from(es, editing, t, i + 1)
        } else if is_prefix(o, t) {
            Some((o, t))
        } else if is_prefix(t, o) {
            Some((t, o))
        } else {
            shadow_from(es, editing, t, i + 1)
        }
    }
}

/// The pair of triggers that cannot both work, if `trigger` makes such a pair with an existing
/// expansion. Only the prefix relation is a conflict: `:hola` and `::hola` both keep working,
/// because espanso's matcher lets the longest trigger win.
pub fn shadowing_pair(entries: &[MatchEntry], editing: Option<usize>, trigger: &str) -> (r: Option<(String, String)>)
    ensures
        match r {
            Some(p) => trigger@.len() > 0 && shadow_from(entries@, editing, trigger@, 0) == Some((p.0@, p.1@)),
            None => trigger@.len() == 0 || shadow_from(entries@, editing, trigger@, 0) is None,
        },
{
    let t = chars_of(trigger);
    if t.len() == 0 {
        return None;
    }
    let mut i: usize = 0;
    while i < entries.len()
        invariant
            i <= entries@.len(),
            t@ == trigger@,
            t@.len() > 0,
            shadow_from(entries@, editing, trigger@, 0) == shadow_from(entries@, editing, trigger@, i as int),
        decreases entries.len() - i,
    {
        let skip = match editing {
            Some(e) => e == i,
            None => false,
        };
        if !skip {
            let other = chars_of(entries[i].trigger_str());
            assert(other@.subrange(0, other@.len() as int) =~= other@);
            if other.len() != 0 && !chars_eq(other.as_slice(), t.as_slice()) {
                if starts_with(t.as_slice(), other.as_slice()) {
                    return Some((string_of_range(other.as_slice(), 0, other.len()), owned(trigger)));
                } else if starts_with(other.as_slice(), t.as_slice()) {
                    assert(entry_trigger(entries@[i as int]) == other@);
                    assert(!is_prefix(other@, t@));
                    assert(shadow_from(entries@, editing, trigger@, i as int) == Some((t@, other@)));
                    let short = owned(trigger);
                    let long = string_of_range(other.as_slice(), 0, other.len());
                    assert(long@ == other@);
                    assert(short@ == t@);
                    return Some((short, long));
                }
            }
        }
        i += 1;
    }
    None
}

// ---------------------------------------------------------------------------------------------
// What the form's controls do
// ---------------------------------------------------------------------------------------------

/// Whether a kind is the date half of the Text/Date switch.
pub open spec fn is_date_kind(k: Kind) -> bool {
    k is Date
}

/// `k` is what the switch shows on crossing into date (or text) mode with nothing of that mode set
/// aside: the ISO date preset in English, or empty text.
pub open spec fn fresh_kind(k: Kind, to_date: bool) -> bool {
    if to_date {
        k matches Kind::Date { preset, custom_format, custom_tz, month_lang }
            && preset == Some(DatePreset::IsoDateOnly) && custom_format@ == preset_format(DatePreset::IsoDateOnly)
            && custom_tz@.len() == 0 && month_lang == Lang::En
    } else {
        k matches Kind::Text { replace } && replace@.len() == 0
    }
}

/// The switch, asked for date mode (or text mode), went from `kind` with `stash` set aside to
/// `kind2` with `stash2`: nothing happens when it is already there; otherwise what is on screen is
/// set aside, and what was set aside for the other mode comes back — or a fresh one if none was.
pub open spec fn switched(kind: Kind, stash: Option<Kind>, to_date: bool, kind2: Kind, stash2: Option<Kind>) -> bool {
    if is_date_kind(kind) == to_date {
        kind2 == kind && stash2 == stash
    } else {
        &&& stash2 == Some(kind)
        &&& match stash {
            Some(s) => if is_date_kind(s) == to_date { kind2 == s } else { fresh_kind(kind2, to_date) },
            None => fresh_kind(kind2, to_date),
        }
    }
}

/// Whether the custom date `format` and time zone can be shown as blocks, and as which: only a
/// local clock or UTC can be, since a block row has no other time zone to offer.
pub open spec fn custom_blocks_spec(format: Seq<char>, tz: Seq<char>) -> Option<Seq<Block>> {
    let z = trim_spec(tz);
    if z.len() == 0 || eq_ignore_ascii_case_spec(z, "UTC"@) {
        parse_spec(format, eq_ignore_ascii_case_spec(z, "UTC"@))
    } else {
        None
    }
}

impl EditState {
    /// Every field but the kind and its stash is as it was.
    pub open spec fn same_but_kind(self, other: EditState) -> bool {
        &&& self.editing_index == other.editing_index
        &&& self.prefix == other.prefix
        &&& self.word == other.word
        &&& self.folder == other.folder
        &&& self.choosing_new_folder == other.choosing_new_folder
        &&& self.new_folder_input == other.new_folder_input
    }

    /// Crosses the Text/Date switch. Crossing it cannot destroy work: what was on screen is set
    /// aside and comes back when the switch is crossed again.
    pub fn switch_kind(&mut self, to_date: bool)
        ensures
            final(self).same_but_kind(*old(self)),
            switched(old(self).kind, old(self).stashed_kind, to_date, final(self).kind, final(self).stashed_kind),
    {
        let is_date = matches!(self.kind, Kind::Date { .. });
        if is_date == to_date {
            return;
        }
        let mut stash: Option<Kind> = None;
        core::mem::swap(&mut stash, &mut self.stashed_kind);
        let stash_fits = match &stash {
            Some(k) => matches!(k, Kind::Date { .. }) == to_date,
            None => false,
        };
        let mut shown = if stash_fits {
            match stash {
                Some(k) => k,
                None => Kind::Text { replace: String::new() },
            }
        } else if to_date {
            Kind::Date {
                preset: Some(DatePreset::IsoDateOnly),
                custom_format: owned(DatePreset::IsoDateOnly.format()),
                custom_tz: String::new(),
                month_lang: Lang::En,
            }
        } else {
            Kind::Text { replace: String::new() }
        };
        core::mem::swap(&mut shown, &mut self.kind);
        self.stashed_kind = Some(shown);
    }

    /// Picks one of the date presets: its format and time zone replace the custom ones, and the
    /// month language stays. A text form is left alone.
    pub fn pick_preset(&mut self, p: DatePreset)
        ensures
            final(self).same_but_kind(*old(self)),
            final(self).stashed_kind == old(self).stashed_kind,
            match old(self).kind {
                Kind::Date { month_lang, .. } => final(self).kind matches Kind::Date { preset, custom_format, custom_tz, month_lang: l }
                    && preset == Some(p) && custom_format@ == preset_format(p)
                    && custom_tz@ == (match preset_tz(p) { Some(z) => z, None => Seq::empty() })
                    && l == month_lang,
                Kind::Text { .. } => final(self).kind == old(self).kind,
            },
    {
        let lang = match &self.kind {
            Kind::Date { month_lang, .. } => *month_lang,
            Kind::Text { .. } => return,
        };
        let tz = match p.tz() {
            Some(z) => owned(z),
            None => String::new(),
        };
        self.kind = Kind::Date { preset: Some(p), custom_format: owned(p.format()), custom_tz: tz, month_lang: lang };
    }

    /// Picks "custom": the format and time zone start empty, unless custom was already picked.
    pub fn pick_custom(&mut self)
        ensures
            final(self).same_but_kind(*old(self)),
            final(self).stashed_kind == old(self).stashed_kind,
            match old(self).kind {
                Kind::Date { preset: Some(_), month_lang, .. } => final(self).kind matches Kind::Date { preset, custom_format, custom_tz, month_lang: l }
                    && preset is None && custom_format@.len() == 0 && custom_tz@.len() == 0 && l == month_lang,
                _ => final(self).kind == old(self).kind,
            },
    {
        let lang = match &self.kind {
            Kind::Date { preset: Some(_), month_lang, .. } => *month_lang,
            _ => return,
        };
        self.kind = Kind::Date { preset: None, custom_format: String::new(), custom_tz: String::new(), month_lang: lang };
    }

    /// The block row a custom date is edited as, or `None` when it is a preset, text, or a format
    /// the blocks cannot show (which is then edited as a raw format).
    pub fn custom_blocks(&self) -> (r: Option<Vec<Block>>)
        ensures
            match self.kind {
                Kind::Date { preset: None, custom_format, custom_tz, .. } => match custom_blocks_spec(custom_format@, custom_tz@) {
                    Some(bs) => r matches Some(v) && v@ == bs,
                    None => r is None,
                },
                _ => r is None,
            },
    {
        match &self.kind {
            Kind::Date { preset: None, custom_format, custom_tz, .. } => {
                let z = trim(custom_tz.as_str());
                let utc = eq_ignore_ascii_case(z.as_str(), "UTC");
                if z.as_str().is_empty() || utc {
                    parse(custom_format.as_str(), utc)
                } else {
                    None
                }
            },
            _ => None,
        }
    }

    /// Writes a rebuilt block row back as the custom format and the time zone it asks for.
    pub fn apply_blocks(&mut self, blocks: &[Block])
        ensures
            final(self).same_but_kind(*old(self)),
            final(self).stashed_kind == old(self).stashed_kind,
            match old(self).kind {
                Kind::Date { preset, month_lang, .. } => final(self).kind matches Kind::Date { preset: p2, custom_format, custom_tz, month_lang: l }
                    && p2 == preset && l == month_lang && custom_format@ == to_format_spec(blocks@)
                    && custom_tz@ == (if has_utc_hour(blocks@) { "UTC"@ } else { Seq::empty() }),
                Kind::Text { .. } => final(self).kind == old(self).kind,
            },
    {
        let (preset, lang) = match &self.kind {
            Kind::Date { preset, month_lang, .. } => (*preset, *month_lang),
            Kind::Text { .. } => return,
        };
        let tz = match timezone_for(blocks) {
            Some(z) => owned(z),
            None => String::new(),
        };
        self.kind = Kind::Date { preset, custom_format: to_format(blocks), custom_tz: tz, month_lang: lang };
    }

    /// Whether the form asks which language months and weekdays are written in: only when the
    /// format spells one out, and not while a block row is shown (the row asks for itself).
    pub fn needs_month_language(&self) -> (r: bool)
        ensures
            r == (match self.kind {
                Kind::Date { preset: Some(p), .. } => needs_locale_spec(preset_format(p)),
                Kind::Date { preset: None, custom_format, custom_tz, .. } =>
                    custom_blocks_spec(custom_format@, custom_tz@) is None && needs_locale_spec(custom_format@),
                Kind::Text { .. } => false,
            }),
    {
        match &self.kind {
            Kind::Date { preset: Some(p), .. } => needs_locale(p.format()),
            Kind::Date { preset: None, custom_format, .. } => {
                let blocks = self.custom_blocks();
                blocks.is_none() && needs_locale(custom_format.as_str())
            },
            Kind::Text { .. } => false,
        }
    }

    /// The line under the trigger fields that shows the trigger as it will be saved.
    pub fn trigger_preview(&self, t: &Strings) -> (r: String)
        ensures
            r@ == fill_spec(t.trigger_preview@, seq![("trigger"@, trigger_spec(self.prefix@, self.word@))]),
    {
        let trig = self.trigger();
        let args = [("trigger", trig.as_str())];
        assert(args_view(args@) =~= seq![("trigger"@, trig@)]);
        fill(t.trigger_preview, &args)
    }

    /// What the folder picker shows as chosen: the new folder being typed (or its placeholder),
    /// the picked folder, or "no folder".
    pub fn folder_choice_text(&self, t: &Strings) -> (r: String)
        ensures
            r@ == (if self.choosing_new_folder {
                if trim_spec(self.new_folder_input@).len() == 0 { t.new_folder_placeholder@ } else { self.new_folder_input@ }
            } else {
                match self.folder { Some(f) => f@, None => t.no_folder@ }
            }),
    {
        if self.choosing_new_folder {
            let z = trim(self.new_folder_input.as_str());
            if z.as_str().is_empty() {
                owned(t.new_folder_placeholder)
            } else {
                owned(self.new_folder_input.as_str())
            }
        } else {
            match &self.folder {
                Some(f) => owned(f.as_str()),
                None => owned(t.no_folder),
            }
        }
    }
}

/// Crossing the Text/Date switch and back gives the form back exactly what it showed before, and
/// keeps what the other side showed set aside.
pub proof fn law_switching_back_restores(k: Kind, s: Option<Kind>, k1: Kind, s1: Option<Kind>, k2: Kind, s2: Option<Kind>)
    requires
        switched(k, s, !is_date_kind(k), k1, s1),
        switched(k1, s1, is_date_kind(k), k2, s2),
    ensures
        k2 == k,
        s2 == Some(k1),
        is_date_kind(k1) != is_date_kind(k),
{
}

// ---------------------------------------------------------------------------------------------
// Laws
// ---------------------------------------------------------------------------------------------

proof fn lemma_split_joined(prefix: Seq<char>, w: Seq<char>)
    requires
        forall|k: int| 0 <= k < prefix.len() ==> !char_is_alphanumeric(#[trigger] prefix[k]),
        w.len() > 0,
        char_is_alphanumeric(w[0]),
    ensures
        split_spec(prefix + w) == (prefix, w),
{
    let s = prefix + w;
    assert forall|k: int| 0 <= k < prefix.len() implies !char_is_alphanumeric(#[trigger] s[k]) by {
        assert(s[k] == prefix[k]);
    }
    assert(s[prefix.len() as int] == w[0]);
    lemma_word_start_is(s, prefix.len() as int);
    assert(s.subrange(0, prefix.len() as int) =~= prefix);
    assert(s.subrange(prefix.len() as int, s.len() as int) =~= w);
}

/// The word a form's word box contributes: its trimmed text from the first letter or digit on.
pub open spec fn form_word(e: EditState) -> Seq<char> {
    split_spec(trim_spec(e.word@)).1
}

/// A form whose prefix box holds only symbols and whose word box holds a word.
pub open spec fn well_split(e: EditState) -> bool {
    &&& forall|k: int| 0 <= k < trim_spec(e.prefix@).len() ==> !char_is_alphanumeric(#[trigger] trim_spec(e.prefix@)[k])
    &&& form_word(e).len() > 0
}

proof fn lemma_saved_trigger_splits_back(e: EditState)
    requires
        well_split(e),
    ensures
        split_spec(trigger_spec(e.prefix@, e.word@)) == (trim_spec(e.prefix@), form_word(e)),
{
    let tw = trim_spec(e.word@);
    lemma_word_start_bounds(tw);
    assert(form_word(e)[0] == tw[word_start(tw)]);
    lemma_split_joined(trim_spec(e.prefix@), form_word(e));
}

/// Saving a text form and opening the saved match again shows the same prefix, the same word
/// and the same replacement text: `build_match` and `new_for_edit` are each other's inverse.
pub proof fn law_reopen_text_form(e: EditState)
    requires
        e.kind is Text,
        well_split(e),
    ensures
        !is_date_match(build_match_spec(e)),
        split_spec(build_match_spec(e).trigger) == (trim_spec(e.prefix@), form_word(e)),
        e.kind matches Kind::Text { replace } && build_match_spec(e).replace == replace@,
{
    lemma_saved_trigger_splits_back(e);
}

/// Saving a form built on a date preset and opening the saved match again shows the same
/// preset, the same prefix and word, and the same month language whenever the preset spells a
/// name out (a numeric preset records none and reopens in English).
pub proof fn law_reopen_date_preset_form(e: EditState)
    requires
        e.kind matches Kind::Date { preset, .. } && preset is Some,
        well_split(e),
    ensures
        is_date_match(build_match_spec(e)),
        split_spec(build_match_spec(e).trigger) == (trim_spec(e.prefix@), form_word(e)),
        e.kind matches Kind::Date { preset, month_lang, .. }
            && detect_spec(build_match_spec(e).vars[0]) == preset
            && month_lang_spec(build_match_spec(e).vars[0]) == (if crate::datefmt::needs_locale_spec(preset_format(preset->0)) {
                month_lang
            } else {
                Lang::En
            }),
{
    lemma_saved_trigger_splits_back(e);
    match e.kind {
        Kind::Date { preset, custom_format, custom_tz, month_lang } => {
            let p = preset->0;
            crate::presets::law_detect_recovers_preset(p, DATE_VAR_NAME@, month_lang);
            crate::presets::law_month_lang_round_trip(DATE_VAR_NAME@, preset_format(p), preset_tz(p), month_lang);
            let r = crate::model::var_reference(DATE_VAR_NAME@);
            assert(r[0] == '{');
            assert(r.last() == '}');
            crate::text::lemma_trim_of_unspaced(r);
        },
        _ => {},
    }
}

/// The trigger a form saves, reopened and saved again, is the same trigger.
proof fn lemma_trigger_saves_back(e: EditState, e2: EditState)
    requires
        forall|k: int| 0 <= k < trim_spec(e.prefix@).len() ==> !char_is_alphanumeric(#[trigger] trim_spec(e.prefix@)[k]),
        (e2.prefix@, e2.word@) == split_spec(trigger_spec(e.prefix@, e.word@)),
    ensures
        trigger_spec(e2.prefix@, e2.word@) == trigger_spec(e.prefix@, e.word@),
{
    let w = form_word(e);
    let tw = trim_spec(e.word@);
    if w.len() == 0 {
        let t = trigger_spec(e.prefix@, e.word@);
        assert(t.len() == 0);
        assert(split_spec(t).0 =~= Seq::<char>::empty());
        assert(split_spec(t).1 =~= Seq::<char>::empty());
        assert(trim_spec(e2.word@).len() == 0);
        assert(split_spec(trim_spec(e2.word@)).1 =~= Seq::<char>::empty());
    } else {
        lemma_saved_trigger_splits_back(e);
        let p = trim_spec(e.prefix@);
        assert(e2.prefix@ == p && e2.word@ == w);
        lemma_trim_idempotent(e.prefix@);
        lemma_trim_idempotent(e.word@);
        lemma_word_start_bounds(tw);
        assert(w[0] == tw[word_start(tw)]);
        lemma_alnum_not_ws(w[0]);
        assert(w.last() == tw.last());
        lemma_trim_of_unspaced(w);
        assert(word_start(w) == 0);
        assert(split_spec(w).1 =~= w);
    }
}

/// The date variable a form saves, reopened and saved again, is the same variable.
proof fn lemma_date_var_saves_back(preset: Option<DatePreset>, cf: Seq<char>, ctz: Seq<char>, lang: Lang)
    ensures
        ({
            let v = form_date_var(preset, cf, ctz, lang);
            form_date_var(detect_spec(v), param_or_empty(v, "format"@), param_or_empty(v, "tz"@), month_lang_spec(v)) == v
        }),
{
    let v = form_date_var(preset, cf, ctz, lang);
    let (f, tz): (Seq<char>, Option<Seq<char>>) = match preset {
        Some(p) => (preset_format(p), preset_tz(p)),
        None => (cf, if trim_spec(ctz).len() == 0 { None } else { Some(ctz) }),
    };
    assert(v == date_var_spec(DATE_VAR_NAME@, f, tz, lang));
    crate::presets::lemma_date_params_read_back(f, tz, lang);
    crate::presets::law_month_lang_round_trip(DATE_VAR_NAME@, f, tz, lang);
    let ml2 = month_lang_spec(v);
    assert(crate::presets::date_params(f, tz, ml2) == crate::presets::date_params(f, tz, lang));
    match detect_spec(v) {
        Some(q) => {
            assert(preset_format(q) == f && preset_tz(q) == tz);
        },
        None => {
            match preset {
                Some(p) => {
                    crate::presets::law_detect_recovers_preset(p, DATE_VAR_NAME@, lang);
                },
                None => {
                    let ctz2 = param_or_empty(v, "tz"@);
                    match tz {
                        Some(z) => assert(ctz2 == z),
                        None => {
                            assert(ctz2.len() == 0);
                            assert(trim_spec(ctz2).len() == 0);
                        },
                    }
                },
            }
        },
    }
}

/// Saving any form, opening the saved expansion again and saving that form writes the very same
/// match — text forms, preset date forms and custom date forms alike — for a prefix box that holds
/// no letter or digit.
pub proof fn law_save_reopen_save(e: EditState, e2: EditState, index: usize, folder: Option<Seq<char>>)
    requires
        forall|k: int| 0 <= k < trim_spec(e.prefix@).len() ==> !char_is_alphanumeric(#[trigger] trim_spec(e.prefix@)[k]),
        opened_on(e2, index, build_match_spec(e), folder),
    ensures
        build_match_spec(e2) == build_match_spec(e),
{
    let m = build_match_spec(e);
    lemma_trigger_saves_back(e, e2);
    match e.kind {
        Kind::Text { replace } => {
            assert(!is_date_match(m));
        },
        Kind::Date { preset, custom_format, custom_tz, month_lang } => {
            let r = crate::model::var_reference(DATE_VAR_NAME@);
            assert(r[0] == '{');
            assert(r.last() == '}');
            lemma_trim_of_unspaced(r);
            assert(is_date_match(m));
            lemma_date_var_saves_back(preset, custom_format@, custom_tz@, month_lang);
            assert(build_match_spec(e2).vars =~= m.vars);
        },
    }
}

} // verus!
