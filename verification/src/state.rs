//! The decisions behind the main window's actions: what a save, a delete, a bulk prefix change or
//! a move between folders does to the expansions, the folder assignments and the selection, and
//! what the banner then says. Dialogs, the disk and espanso are the caller's.

use vstd::prelude::*;
use crate::text::{char_is_alphanumeric, trim, trim_spec, owned, push_str, str_eq, chars_of, chars_eq, decimal, decimal_spec};
use crate::i18n::{fill, fill_spec, args_view};
use crate::strings::Strings;
use crate::model::{MatchEntry, SimpleMatch, entry_trigger, preview_spec};
use crate::edit_form::{EditState, split_spec, word_start, split_trigger, build_match_spec, resolved_folder_spec, opt_string_view};
use crate::validation::{join, join_spec};
use crate::settings::{Settings, filed_folder};
use crate::selection::Selection;
use crate::datefmt::Now;

verus! {

/// What a confirmation modal is about to delete.
pub enum PendingConfirmKind {
    DeleteFolder { folder: String },
    DeleteSelection,
}

/// A destructive action awaiting confirmation in an in-app modal, which can scroll a long list of
/// what it affects.
pub struct PendingConfirm {
    pub kind: PendingConfirmKind,
    /// The affected expansions at the moment the action was requested, as (trigger, preview).
    pub items: Vec<(String, String)>,
    pub expanded: bool,
}

/// How a confirmation lists what it is about to delete.
pub enum ConfirmList {
    /// The first `shown` items, one per line: all of them when the list is short or was expanded.
    Lines { shown: usize },
    /// The first few, one per line, and a button (its label in `more`) that shows the rest.
    LinesWithMore { shown: usize, more: String },
    /// Every item as a chip in a row that scrolls: a list this long would not fit as lines.
    Chips,
}

/// Up to this many items a confirmation lists them all as lines.
pub const CONFIRM_ALL_LINES: usize = 5;

/// From this many items on, a confirmation shows chips instead of lines.
pub const CONFIRM_CHIPS_FROM: usize = 10;

impl PendingConfirm {
    /// The heading of the confirmation.
    pub fn title(&self, t: &Strings) -> (r: String)
        ensures
            r@ == (match self.kind {
                PendingConfirmKind::DeleteFolder { folder } =>
                    fill_spec(t.confirm_delete_folder_title@, seq![("name"@, folder@)]),
                PendingConfirmKind::DeleteSelection =>
                    fill_spec(t.confirm_delete_selection_title@, seq![("n"@, decimal_spec(self.items@.len()))]),
            }),
    {
        match &self.kind {
            PendingConfirmKind::DeleteFolder { folder } => {
                let args = [("name", folder.as_str())];
                assert(args_view(args@) =~= seq![("name"@, folder@)]);
                fill(t.confirm_delete_folder_title, &args)
            },
            PendingConfirmKind::DeleteSelection => {
                let n = decimal(self.items.len() as u64);
                let args = [("n", n.as_str())];
                assert(args_view(args@) =~= seq![("n"@, decimal_spec(self.items@.len()))]);
                fill(t.confirm_delete_selection_title, &args)
            },
        }
    }

    /// The sentence under the heading: what will be deleted, and how many.
    pub fn intro(&self, t: &Strings) -> (r: String)
        ensures
            r@ == (match self.kind {
                PendingConfirmKind::DeleteFolder { folder } =>
                    fill_spec(t.confirm_delete_folder_body@, seq![("name"@, folder@), ("n"@, decimal_spec(self.items@.len()))]),
                PendingConfirmKind::DeleteSelection =>
                    fill_spec(t.confirm_delete_selection_body@, seq![("n"@, decimal_spec(self.items@.len()))]),
            }),
    {
        let n = decimal(self.items.len() as u64);
        match &self.kind {
            PendingConfirmKind::DeleteFolder { folder } => {
                let args = [("name", folder.as_str()), ("n", n.as_str())];
                assert(args_view(args@) =~= seq![("name"@, folder@), ("n"@, decimal_spec(self.items@.len()))]);
                fill(t.confirm_delete_folder_body, &args)
            },
            PendingConfirmKind::DeleteSelection => {
                let args = [("n", n.as_str())];
                assert(args_view(args@) =~= seq![("n"@, decimal_spec(self.items@.len()))]);
                fill(t.confirm_delete_selection_body, &args)
            },
        }
    }

    /// How the items are laid out: every one as a line when there are few or the list was
    /// expanded, the first few and a "see more" button up to a point, chips beyond it.
    pub fn list_layout(&self, t: &Strings) -> (r: ConfirmList)
        ensures
            ({
                let n = self.items@.len();
                if n <= CONFIRM_ALL_LINES {
                    r matches ConfirmList::Lines { shown } && shown == n
                } else if n < CONFIRM_CHIPS_FROM {
                    if self.expanded {
                        r matches ConfirmList::Lines { shown } && shown == n
                    } else {
                        r matches ConfirmList::LinesWithMore { shown, more } && shown == CONFIRM_ALL_LINES
                            && more@ == fill_spec(t.see_more@, seq![("n"@, decimal_spec((n - CONFIRM_ALL_LINES) as nat))])
                    }
                } else {
                    r is Chips
                }
            }),
    {
        let count = self.items.len();
        if count <= CONFIRM_ALL_LINES {
            ConfirmList::Lines { shown: count }
        } else if count < CONFIRM_CHIPS_FROM {
            if self.expanded {
                ConfirmList::Lines { shown: count }
            } else {
                let rest = decimal((count - CONFIRM_ALL_LINES) as u64);
                let args = [("n", rest.as_str())];
                assert(args_view(args@) =~= seq![("n"@, decimal_spec((count - CONFIRM_ALL_LINES) as nat))]);
                ConfirmList::LinesWithMore { shown: CONFIRM_ALL_LINES, more: fill(t.see_more, &args) }
            }
        } else {
            ConfirmList::Chips
        }
    }
}

/// Whether a banner reports news or trouble.
#[derive(Debug, Clone, Copy, PartialEq, Eq, Structural)]
pub enum BannerKind {
    Info,
    Error,
}

/// A change that the message announcing it can also take back.
pub enum UndoAction {
    /// Folder assignments exactly as they were before a move, as (trigger, previous folder).
    FolderMove(Vec<(String, Option<String>)>),
}

/// The message across the top of the window.
pub struct Banner {
    pub kind: BannerKind,
    pub message: String,
    pub undo: Option<UndoAction>,
}

impl Banner {
    /// News, with nothing to undo.
    pub fn info(message: String) -> (r: Banner)
        ensures
            r.kind == BannerKind::Info,
            r.message == message,
            r.undo is None,
    {
        Banner { kind: BannerKind::Info, message, undo: None }
    }

    /// Trouble, with nothing to undo.
    pub fn error(message: String) -> (r: Banner)
        ensures
            r.kind == BannerKind::Error,
            r.message == message,
            r.undo is None,
    {
        Banner { kind: BannerKind::Error, message, undo: None }
    }
}

/// Two messages, one paragraph after the other.
pub open spec fn paragraphs(a: Seq<char>, b: Seq<char>) -> Seq<char> {
    a + "\n\n"@ + b
}

/// The start-up warnings in one banner, a paragraph each, or none when there are none.
pub fn startup_banner(warnings: &Vec<String>) -> (r: Option<String>)
    ensures
        warnings@.len() == 0 ==> r is None,
        warnings@.len() > 0 ==> (r matches Some(b) && b@ == join_spec(strings(warnings@), "\n\n"@)),
{
    if warnings.len() == 0 {
        None
    } else {
        let b = join(warnings, "\n\n");
        assert(warnings@.map_values(|s: String| s@) =~= strings(warnings@));
        Some(b)
    }
}

/// Adds one more warning to the start-up banner, as a paragraph of its own — unless the banner
/// already says exactly that: two attempts on the same unreadable file give the same paragraph,
/// and a banner that says the same thing twice reads as a bug in the banner.
pub fn add_warning(banner: Option<String>, text: String) -> (r: Option<String>)
    ensures
        r matches Some(b) && b@ == (match banner {
            Some(e) => if crate::text::contains_seq(e@, text@) { e@ } else { paragraphs(e@, text@) },
            None => text@,
        }),
{
    match banner {
        Some(e) => {
            let ev = chars_of(e.as_str());
            let tv = chars_of(text.as_str());
            if crate::text::contains(ev.as_slice(), tv.as_slice()) {
                Some(e)
            } else {
                let mut out = e;
                push_str(&mut out, "\n\n");
                push_str(&mut out, text.as_str());
                Some(out)
            }
        },
        None => Some(text),
    }
}

/// The banner after a save: the outcome's message — news on success, trouble on failure — with
/// any warning about the safety net under it as a second paragraph, which makes it trouble too:
/// the moment a missing backup matters is the moment nobody is looking.
pub fn save_banner(outcome: Result<String, String>, warning: Option<String>) -> (r: Banner)
    ensures
        r.undo is None,
        r.kind == (if outcome is Ok && warning is None { BannerKind::Info } else { BannerKind::Error }),
        r.message@ == (match (outcome, warning) {
            (Ok(m), None) => m@,
            (Ok(m), Some(w)) => paragraphs(m@, w@),
            (Err(e), None) => e@,
            (Err(e), Some(w)) => paragraphs(e@, w@),
        }),
{
    let ok = outcome.is_ok();
    let mut message = match outcome {
        Ok(m) => m,
        Err(e) => e,
    };
    match warning {
        None => if ok { Banner::info(message) } else { Banner::error(message) },
        Some(w) => {
            push_str(&mut message, "\n\n");
            push_str(&mut message, w.as_str());
            Banner::error(message)
        },
    }
}

// ---------------------------------------------------------------------------------------------
// Saving the edit form
// ---------------------------------------------------------------------------------------------

/// Some entry other than the one at `editing` has trigger `t`. Advanced matches count too: a
/// trigger that collides with an invisible one would save without complaint and never fire.
pub open spec fn taken_by_other(es: Seq<MatchEntry>, editing: Option<usize>, t: Seq<char>) -> bool {
    exists|i: int| 0 <= i < es.len() && not_at(editing, i) && #[trigger] entry_trigger(es[i]) == t
}

/// Position `i` is not the one being edited.
pub open spec fn not_at(editing: Option<usize>, i: int) -> bool {
    match editing {
        Some(e) => e as int != i,
        None => true,
    }
}

/// Whether the trigger `t` is used by an expansion other than the one being edited.
pub fn trigger_taken(entries: &[MatchEntry], editing: Option<usize>, t: &str) -> (r: bool)
    ensures
        r == taken_by_other(entries@, editing, t@),
{
    let mut i: usize = 0;
    while i < entries.len()
        invariant
            i <= entries@.len(),
            forall|k: int| 0 <= k < i ==> !(not_at(editing, k) && #[trigger] entry_trigger(entries@[k]) == t@),
        decreases entries.len() - i,
    {
        let other = match editing {
            Some(e) => e != i,
            None => true,
        };
        if other && str_eq(entries[i].trigger_str(), t) {
            return true;
        }
        i += 1;
    }
    false
}

// ---------------------------------------------------------------------------------------------
// The bulk prefix change
// ---------------------------------------------------------------------------------------------

/// A trigger with its current prefix replaced by `prefix`: whatever run of non-alphanumeric
/// characters it starts with is taken to be the prefix it uses now.
pub open spec fn with_prefix(prefix: Seq<char>, t: Seq<char>) -> Seq<char> {
    prefix + split_spec(t).1
}

/// Every trigger after the change, in file order: simple matches get the new prefix, the others
/// keep theirs.
pub open spec fn resulting_spec(es: Seq<MatchEntry>, prefix: Seq<char>) -> Seq<Seq<char>> {
    es.map_values(|e: MatchEntry| match e {
        MatchEntry::Simple(m) => with_prefix(prefix, m.trigger@),
        MatchEntry::Advanced(a) => a.trigger@,
    })
}

/// The (old, new) triggers of the simple matches the change actually renames, in file order.
pub open spec fn renames_spec(es: Seq<MatchEntry>, prefix: Seq<char>) -> Seq<(Seq<char>, Seq<char>)>
    decreases es.len(),
{
    if es.len() == 0 {
        Seq::empty()
    } else {
        let init = renames_spec(es.drop_last(), prefix);
        match es.last() {
            MatchEntry::Simple(m) => if with_prefix(prefix, m.trigger@) != m.trigger@ {
                init.push((m.trigger@, with_prefix(prefix, m.trigger@)))
            } else {
                init
            },
            MatchEntry::Advanced(_) => init,
        }
    }
}

/// Each trigger of `rs` that an earlier one already used, once per repeat.
pub open spec fn collisions_spec(rs: Seq<Seq<char>>) -> Seq<Seq<char>>
    decreases rs.len(),
{
    if rs.len() == 0 {
        Seq::empty()
    } else {
        let init = collisions_spec(rs.drop_last());
        if rs.drop_last().contains(rs.last()) { init.push(rs.last()) } else { init }
    }
}

/// What applying the prefix to every existing expansion would do.
pub enum PrefixPlan {
    /// Every simple match already uses it.
    AlreadyApplied,
    /// These triggers would end up used twice (each repeat listed), so nothing is changed.
    Collisions(Vec<String>),
    /// These (old, new) renames, to be confirmed first.
    Renames(Vec<(String, String)>),
}

/// Pairs of strings as plain values.
pub open spec fn pairs(s: Seq<(String, String)>) -> Seq<(Seq<char>, Seq<char>)> {
    s.map_values(|p: (String, String)| (p.0@, p.1@))
}

/// Strings as plain values.
pub open spec fn strings(s: Seq<String>) -> Seq<Seq<char>> {
    s.map_values(|x: String| x@)
}

fn contains_str(v: &Vec<String>, upto: usize, s: &str) -> (r: bool)
    requires
        upto <= v@.len(),
    ensures
        r == strings(v@).subrange(0, upto as int).contains(s@),
{
    let ghost w = strings(v@).subrange(0, upto as int);
    let mut i: usize = 0;
    while i < upto
        invariant
            i <= upto <= v@.len(),
            w == strings(v@).subrange(0, upto as int),
            forall|k: int| 0 <= k < i ==> #[trigger] w[k] != s@,
        decreases upto - i,
    {
        if str_eq(v[i].as_str(), s) {
            assert(w[i as int] == s@);
            return true;
        }
        i += 1;
    }
    false
}

/// Works out what setting `prefix` on every existing simple match would do: nothing to do, a
/// list of triggers that would collide, or the renames to confirm.
pub fn plan_prefix(entries: &[MatchEntry], prefix: &str) -> (r: PrefixPlan)
    ensures
        ({
            let rn = renames_spec(entries@, prefix@);
            let cs = collisions_spec(resulting_spec(entries@, prefix@));
            match r {
                PrefixPlan::AlreadyApplied => rn.len() == 0,
                PrefixPlan::Collisions(c) => rn.len() > 0 && cs.len() > 0 && strings(c@) == cs,
                PrefixPlan::Renames(v) => rn.len() > 0 && cs.len() == 0 && pairs(v@) == rn,
            }
        }),
{
    let ghost es = entries@;
    let mut resulting: Vec<String> = Vec::new();
    let mut renamed: Vec<(String, String)> = Vec::new();
    let mut i: usize = 0;
    while i < entries.len()
        invariant
            i <= es.len(),
            es == entries@,
            strings(resulting@) == resulting_spec(es.subrange(0, i as int), prefix@),
            pairs(renamed@) == renames_spec(es.subrange(0, i as int), prefix@),
        decreases entries.len() - i,
    {
        let ghost r0 = strings(resulting@);
        let ghost n0 = pairs(renamed@);
        let ghost head = es.subrange(0, i + 1);
        assert(head.drop_last() =~= es.subrange(0, i as int));
        assert(head.last() == es[i as int]);
        match &entries[i] {
            MatchEntry::Simple(m) => {
                let (_, rest) = split_trigger(m.trigger.as_str());
                let mut t = owned(prefix);
                push_str(&mut t, rest.as_str());
                assert(t@ == with_prefix(prefix@, m.trigger@));
                if !str_eq(t.as_str(), m.trigger.as_str()) {
                    renamed.push((owned(m.trigger.as_str()), owned(t.as_str())));
                    assert(pairs(renamed@) =~= n0.push((m.trigger@, t@)));
                }
                resulting.push(t);
            },
            MatchEntry::Advanced(a) => {
                resulting.push(owned(a.trigger.as_str()));
            },
        }
        assert(strings(resulting@) =~= resulting_spec(head, prefix@)) by {
            assert(resulting_spec(head, prefix@) =~= resulting_spec(es.subrange(0, i as int), prefix@).push(resulting_spec(head, prefix@)[i as int]));
        }
        i += 1;
    }
    assert(es.subrange(0, es.len() as int) =~= es);
    if renamed.len() == 0 {
        return PrefixPlan::AlreadyApplied;
    }
    let ghost rs = strings(resulting@);
    let mut collisions: Vec<String> = Vec::new();
    let mut k: usize = 0;
    while k < resulting.len()
        invariant
            k <= resulting@.len(),
            rs == strings(resulting@),
            strings(collisions@) == collisions_spec(rs.subrange(0, k as int)),
        decreases resulting.len() - k,
    {
        let ghost c0 = strings(collisions@);
        let ghost head = rs.subrange(0, k + 1);
        assert(head.drop_last() =~= rs.subrange(0, k as int));
        assert(head.last() == rs[k as int]);
        if contains_str(&resulting, k, resulting[k].as_str()) {
            collisions.push(owned(resulting[k].as_str()));
            assert(strings(collisions@) =~= c0.push(rs[k as int]));
        }
        k += 1;
    }
    assert(rs.subrange(0, rs.len() as int) =~= rs);
    if collisions.len() > 0 {
        PrefixPlan::Collisions(collisions)
    } else {
        PrefixPlan::Renames(renamed)
    }
}

/// Gives every simple match the new prefix.
pub fn apply_prefix(entries: &mut Vec<MatchEntry>, prefix: &str)
    ensures
        final(entries)@.len() == old(entries)@.len(),
        forall|i: int| 0 <= i < old(entries)@.len() ==> match (#[trigger] old(entries)@[i], final(entries)@[i]) {
            (MatchEntry::Simple(a), MatchEntry::Simple(b)) =>
                b@.trigger == with_prefix(prefix@, a@.trigger) && b@.replace == a@.replace
                    && b@.vars == a@.vars && b@.label == a@.label,
            (MatchEntry::Advanced(a), MatchEntry::Advanced(b)) => b == a,
            _ => false,
        },
{
    let ghost before = entries@;
    let n = entries.len();
    let mut i: usize = 0;
    while i < n
        invariant
            i <= n == before.len() == entries@.len(),
            forall|k: int| i <= k < n ==> #[trigger] entries@[k] == before[k],
            forall|k: int| 0 <= k < i ==> match (#[trigger] before[k], entries@[k]) {
                (MatchEntry::Simple(a), MatchEntry::Simple(b)) =>
                    b@.trigger == with_prefix(prefix@, a@.trigger) && b@.replace == a@.replace
                        && b@.vars == a@.vars && b@.label == a@.label,
                (MatchEntry::Advanced(a), MatchEntry::Advanced(b)) => b == a,
                _ => false,
            },
        decreases n - i,
    {
        let e = entries.remove(i);
        let e2 = match e {
            MatchEntry::Simple(m) => {
                let (_, rest) = split_trigger(m.trigger.as_str());
                let mut t = owned(prefix);
                push_str(&mut t, rest.as_str());
                MatchEntry::Simple(SimpleMatch { trigger: t, replace: m.replace, vars: m.vars, label: m.label })
            },
            MatchEntry::Advanced(a) => MatchEntry::Advanced(a),
        };
        entries.insert(i, e2);
        i += 1;
    }
}

/// The message naming the triggers that would collide.
pub fn collision_message(collisions: &Vec<String>, t: &Strings) -> (r: String)
    ensures
        r@ == fill_spec(t.prefix_collision@, seq![("list"@, join_spec(strings(collisions@), ", "@))]),
{
    let list = join(collisions, ", ");
    let args = [("list", list.as_str())];
    assert(args_view(args@) =~= seq![("list"@, join_spec(strings(collisions@), ", "@))]);
    fill(t.prefix_collision, &args)
}

/// How many renames the confirmation lists by name.
pub const SUMMARY_LINES: usize = 8;

/// One line of the confirmation's list.
pub open spec fn rename_line(old_t: Seq<char>, new_t: Seq<char>) -> Seq<char> {
    "  "@ + old_t + "  →  "@ + new_t
}

/// The confirmation text for a bulk rename: how many, the first few by name, and how many more.
pub open spec fn confirm_body_spec(rn: Seq<(Seq<char>, Seq<char>)>, t: Strings) -> Seq<char> {
    let shown = if rn.len() <= SUMMARY_LINES { rn } else { rn.take(SUMMARY_LINES as int) };
    let summary = join_spec(shown.map_values(|p: (Seq<char>, Seq<char>)| rename_line(p.0, p.1)), "\n"@);
    let more = if rn.len() > SUMMARY_LINES {
        fill_spec(t.prefix_confirm_more@, seq![("n"@, decimal_spec((rn.len() - SUMMARY_LINES) as nat))])
    } else {
        Seq::empty()
    };
    fill_spec(t.prefix_confirm_body@, seq![("n"@, decimal_spec(rn.len())), ("list"@, summary), ("more"@, more)])
}

/// The text of the dialog that asks before a bulk rename.
pub fn confirm_body(renamed: &Vec<(String, String)>, t: &Strings) -> (r: String)
    ensures
        r@ == confirm_body_spec(pairs(renamed@), *t),
{
    let ghost rn = pairs(renamed@);
    let shown_n = if renamed.len() <= SUMMARY_LINES { renamed.len() } else { SUMMARY_LINES };
    let ghost shown = if rn.len() <= SUMMARY_LINES { rn } else { rn.take(SUMMARY_LINES as int) };
    let mut lines: Vec<String> = Vec::new();
    let mut i: usize = 0;
    while i < shown_n
        invariant
            i <= shown_n <= renamed@.len(),
            rn == pairs(renamed@),
            shown_n == shown.len(),
            shown == (if rn.len() <= SUMMARY_LINES { rn } else { rn.take(SUMMARY_LINES as int) }),
            strings(lines@) == shown.subrange(0, i as int).map_values(|p: (Seq<char>, Seq<char>)| rename_line(p.0, p.1)),
        decreases shown_n - i,
    {
        let mut line = owned("  ");
        push_str(&mut line, renamed[i].0.as_str());
        push_str(&mut line, "  →  ");
        push_str(&mut line, renamed[i].1.as_str());
        let ghost before = strings(lines@);
        lines.push(line);
        assert(shown[i as int] == rn[i as int]);
        assert(strings(lines@) =~= before.push(rename_line(rn[i as int].0, rn[i as int].1)));
        assert(shown.subrange(0, i + 1).map_values(|p: (Seq<char>, Seq<char>)| rename_line(p.0, p.1))
            =~= shown.subrange(0, i as int).map_values(|p: (Seq<char>, Seq<char>)| rename_line(p.0, p.1)).push(rename_line(rn[i as int].0, rn[i as int].1)));
        i += 1;
    }
    assert(shown.subrange(0, shown.len() as int) =~= shown);
    let summary = join(&lines, "\n");
    let more = if renamed.len() > SUMMARY_LINES {
        let n = decimal((renamed.len() - SUMMARY_LINES) as u64);
        let args = [("n", n.as_str())];
        assert(args_view(args@) =~= seq![("n"@, decimal_spec((rn.len() - SUMMARY_LINES) as nat))]);
        fill(t.prefix_confirm_more, &args)
    } else {
        String::new()
    };
    let n = decimal(renamed.len() as u64);
    let args = [("n", n.as_str()), ("list", summary.as_str()), ("more", more.as_str())];
    assert(args_view(args@) =~= seq![("n"@, decimal_spec(rn.len())), ("list"@, summary@), ("more"@, more@)]);
    fill(t.prefix_confirm_body, &args)
}

// ---------------------------------------------------------------------------------------------
// Folder bookkeeping as maps
// ---------------------------------------------------------------------------------------------

/// The folder map after filing `t` under `f` (trimmed; a missing or blank one unfiles it).
pub open spec fn set_folder_spec(m: Map<Seq<char>, Seq<char>>, t: Seq<char>, f: Option<Seq<char>>) -> Map<Seq<char>, Seq<char>> {
    match filed_folder(f) {
        Some(x) => m.insert(t, x),
        None => m.remove(t),
    }
}

/// The folder map after a trigger is renamed from `from` to `to`: its folder goes with it.
pub open spec fn rename_spec(m: Map<Seq<char>, Seq<char>>, from: Seq<char>, to: Seq<char>) -> Map<Seq<char>, Seq<char>> {
    if from == to {
        m
    } else if m.dom().contains(from) {
        m.remove(from).insert(to, m[from])
    } else {
        m
    }
}

/// The folder of `t` in `m`, if any.
pub open spec fn folder_in(m: Map<Seq<char>, Seq<char>>, t: Seq<char>) -> Option<Seq<char>> {
    if m.dom().contains(t) { Some(m[t]) } else { None }
}

// ---------------------------------------------------------------------------------------------
// Saving the edit form
// ---------------------------------------------------------------------------------------------

/// The trigger of the simple match at `idx`, if the form is editing one.
pub open spec fn previous_trigger(es: Seq<MatchEntry>, idx: Option<usize>) -> Option<Seq<char>> {
    match idx {
        Some(i) => match es[i as int] {
            MatchEntry::Simple(m) => Some(m.trigger@),
            MatchEntry::Advanced(_) => None,
        },
        None => None,
    }
}

/// Saves the edit form into the expansions: checks the trigger, puts the match where the one
/// being edited was (or at the end), carries the folder assignment and the selection over to a
/// renamed trigger, and files the match where the form says.
///
/// Refused, with nothing changed, when the trigger is blank or used by another expansion —
/// advanced ones included, since espanso keeps the first match for a trigger and the invisible
/// one is usually first. After a save the trigger is used exactly once.
pub fn apply_edit(entries: &mut Vec<MatchEntry>, settings: &mut Settings, selection: &mut Selection, edit: &EditState, t: &Strings) -> (r: Result<(), String>)
    requires
        old(settings).wf(),
        old(selection).wf(),
        edit.editing_index matches Some(i) ==> i < old(entries)@.len(),
    ensures
        crate::settings::same_but_folders(*final(settings), *old(settings)),
        final(settings).wf(),
        final(selection).wf(),
        ({
            let m = build_match_spec(*edit);
            let es = old(entries)@;
            let idx = edit.editing_index;
            if trim_spec(m.trigger).len() == 0 {
                &&& r matches Err(e) && e@ == t.trigger_empty@
                &&& final(entries)@ == es && *final(settings) == *old(settings) && final(selection)@ == old(selection)@
            } else if taken_by_other(es, idx, m.trigger) {
                &&& r matches Err(e) && e@ == fill_spec(t.trigger_duplicate@, seq![("name"@, m.trigger)])
                &&& final(entries)@ == es && *final(settings) == *old(settings) && final(selection)@ == old(selection)@
            } else {
                let pos: int = match idx { Some(i) => i as int, None => es.len() as int };
                let prev = previous_trigger(es, idx);
                let renamed = match prev { Some(p) => rename_spec(old(settings).folder_by_trigger@, p, m.trigger), None => old(settings).folder_by_trigger@ };
                &&& r is Ok
                &&& final(entries)@.len() == (if idx is Some { es.len() } else { es.len() + 1 })
                &&& final(entries)@[pos] matches MatchEntry::Simple(s) && s@ == m
                &&& forall|i: int| 0 <= i < final(entries)@.len() && i != pos ==> #[trigger] final(entries)@[i] == es[i]
                &&& forall|i: int| 0 <= i < final(entries)@.len() ==> (entry_trigger(#[trigger] final(entries)@[i]) == m.trigger <==> i == pos)
                &&& final(settings).folder_by_trigger@ == set_folder_spec(renamed, m.trigger, resolved_folder_spec(*edit))
                &&& final(selection)@ == (match prev {
                        Some(p) => (if old(selection)@.0.contains(p) { old(selection)@.0.remove(p).insert(m.trigger) } else { old(selection)@.0 },
                                    if old(selection)@.1 == Some(p) { Some(m.trigger) } else { old(selection)@.1 }),
                        None => old(selection)@,
                    })
            }
        }),
{
    let new_match = edit.build_match();
    let trimmed = trim(new_match.trigger.as_str());
    if trimmed.as_str().is_empty() {
        return Err(owned(t.trigger_empty));
    }
    if trigger_taken(entries.as_slice(), edit.editing_index, new_match.trigger.as_str()) {
        let args = [("name", new_match.trigger.as_str())];
        assert(args_view(args@) =~= seq![("name"@, new_match@.trigger)]);
        return Err(fill(t.trigger_duplicate, &args));
    }
    let ghost es = entries@;
    let previous: Option<String> = match edit.editing_index {
        Some(i) => match &entries[i] {
            MatchEntry::Simple(m) => Some(owned(m.trigger.as_str())),
            MatchEntry::Advanced(_) => None,
        },
        None => None,
    };
    let new_trigger = owned(new_match.trigger.as_str());
    match edit.editing_index {
        Some(i) => {
            entries.set(i, MatchEntry::Simple(new_match));
        },
        None => {
            entries.push(MatchEntry::Simple(new_match));
        },
    }
    proof {
        let pos: int = match edit.editing_index { Some(i) => i as int, None => es.len() as int };
        assert forall|i: int| 0 <= i < entries@.len() implies (entry_trigger(#[trigger] entries@[i]) == new_trigger@ <==> i == pos) by {
            if i != pos {
                assert(entries@[i] == es[i]);
                assert(0 <= i < es.len());
                assert(not_at(edit.editing_index, i));
                if entry_trigger(es[i]) == new_trigger@ {
                    assert(taken_by_other(es, edit.editing_index, new_trigger@));
                }
            }
        }
    }
    match &previous {
        Some(p) => {
            settings.rename_trigger(p.as_str(), new_trigger.as_str());
            selection.rename(p.as_str(), new_trigger.as_str());
        },
        None => {},
    }
    settings.set_folder(new_trigger.as_str(), edit.resolved_folder());
    Ok(())
}

// ---------------------------------------------------------------------------------------------
// Deleting
// ---------------------------------------------------------------------------------------------

/// The entries of `es` whose triggers are not in `ts`, in order.
pub open spec fn kept_spec(es: Seq<MatchEntry>, ts: Set<Seq<char>>) -> Seq<MatchEntry>
    decreases es.len(),
{
    if es.len() == 0 {
        Seq::empty()
    } else {
        let rest = kept_spec(es.drop_first(), ts);
        if ts.contains(entry_trigger(es[0])) { rest } else { seq![es[0]] + rest }
    }
}

/// Removes every expansion whose trigger is in `triggers`, with its folder assignment and its
/// place in the selection. Matches by trigger rather than position, so it is safe to call with a
/// list taken earlier — from a confirmation modal, say.
pub fn remove_by_triggers(entries: &mut Vec<MatchEntry>, settings: &mut Settings, selection: &mut Selection, triggers: &[String])
    requires
        old(settings).wf(),
        old(selection).wf(),
    ensures
        crate::settings::same_but_folders(*final(settings), *old(settings)),
        final(settings).wf(),
        final(selection).wf(),
        final(entries)@ == kept_spec(old(entries)@, strings(triggers@).to_set()),
        final(settings).folder_by_trigger@ == old(settings).folder_by_trigger@.remove_keys(strings(triggers@).to_set()),
        final(selection)@.0 == old(selection)@.0.difference(strings(triggers@).to_set()),
        (old(selection)@.1 matches Some(a) && strings(triggers@).contains(a)) ==> final(selection)@.1 is None,
        (old(selection)@.1 matches Some(a) && !strings(triggers@).contains(a)) ==> final(selection)@.1 == old(selection)@.1,
        old(selection)@.1 is None ==> final(selection)@.1 is None,
{
    let ghost st0 = *settings;
    let ghost ts = strings(triggers@).to_set();
    let ghost before = entries@;
    let n = entries.len();
    let mut i: usize = n;
    assert(before.subrange(n as int, n as int) =~= Seq::<MatchEntry>::empty());
    assert(before.subrange(0, n as int) + Seq::<MatchEntry>::empty() =~= before);
    while i > 0
        invariant
            i <= n == before.len(),
            ts == strings(triggers@).to_set(),
            entries@ == before.subrange(0, i as int) + kept_spec(before.subrange(i as int, n as int), ts),
        decreases i,
    {
        i -= 1;
        let ghost tail = before.subrange(i as int, n as int);
        assert(tail.drop_first() =~= before.subrange(i + 1, n as int));
        assert(tail[0] == before[i as int]);
        assert(entries@[i as int] == before[i as int]);
        let doomed = crate::settings::contains_string(triggers, entries[i].trigger_str());
        assert(doomed == ts.contains(entry_trigger(before[i as int])));
        if doomed {
            entries.remove(i);
            assert(entries@ =~= before.subrange(0, i as int) + kept_spec(tail, ts));
        } else {
            assert(entries@ =~= before.subrange(0, i as int) + kept_spec(tail, ts));
        }
    }
    assert(before.subrange(0, n as int) =~= before);
    let ghost m0 = settings.folder_by_trigger@;
    let ghost s0 = selection@;
    let mut k: usize = 0;
    while k < triggers.len()
        invariant
            k <= triggers@.len(),
            settings.wf(),
            selection.wf(),
            crate::settings::same_but_folders(*settings, st0),
            settings.folder_by_trigger@ == m0.remove_keys(strings(triggers@).subrange(0, k as int).to_set()),
            selection@.0 == s0.0.difference(strings(triggers@).subrange(0, k as int).to_set()),
            (s0.1 matches Some(a) && strings(triggers@).subrange(0, k as int).contains(a)) ==> selection@.1 is None,
            (s0.1 matches Some(a) && !strings(triggers@).subrange(0, k as int).contains(a)) ==> selection@.1 == s0.1,
            s0.1 is None ==> selection@.1 is None,
        decreases triggers.len() - k,
    {
        let ghost pre = strings(triggers@).subrange(0, k as int);
        let ghost x = triggers@[k as int]@;
        settings.remove_trigger(triggers[k].as_str());
        selection.forget(triggers[k].as_str());
        proof {
            let post = strings(triggers@).subrange(0, k + 1);
            assert(post =~= pre.push(x));
            assert(post.to_set() =~= pre.to_set().insert(x)) by {
                assert forall|a: Seq<char>| #[trigger] post.to_set().contains(a) == pre.to_set().insert(x).contains(a) by {
                    if post.contains(a) {
                        let j = choose|j: int| 0 <= j < post.len() && post[j] == a;
                        if j < pre.len() {
                            assert(pre[j] == a);
                        }
                    }
                    if pre.contains(a) {
                        let j = choose|j: int| 0 <= j < pre.len() && pre[j] == a;
                        assert(post[j] == a);
                    }
                    if a == x {
                        assert(post[k as int] == x);
                    }
                }
            }
            assert(settings.folder_by_trigger@ =~= m0.remove_keys(post.to_set()));
            assert(selection@.0 =~= s0.0.difference(post.to_set()));
            if s0.1 is Some {
                let a = s0.1->0;
                if post.contains(a) && !pre.contains(a) {
                    let j = choose|j: int| 0 <= j < post.len() && post[j] == a;
                    assert(j == k);
                }
                if pre.contains(a) {
                    let j = choose|j: int| 0 <= j < pre.len() && pre[j] == a;
                    assert(post[j] == a);
                }
                if !post.contains(a) {
                    assert(!pre.contains(a)) by {
                        if pre.contains(a) {
                            let j = choose|j: int| 0 <= j < pre.len() && pre[j] == a;
                            assert(post[j] == a);
                        }
                    }
                    assert(x != a) by {
                        assert(post[k as int] == x);
                    }
                }
            }
        }
        k += 1;
    }
    assert(strings(triggers@).subrange(0, triggers@.len() as int) =~= strings(triggers@));
}

// ---------------------------------------------------------------------------------------------
// Moving expansions between folders
// ---------------------------------------------------------------------------------------------

/// Some entry has trigger `t`.
pub open spec fn live(es: Seq<MatchEntry>, t: Seq<char>) -> bool {
    exists|i: int| 0 <= i < es.len() && #[trigger] entry_trigger(es[i]) == t
}

/// The moves a drop into `folder` makes: each trigger that names an expansion and is not already
/// where it is being sent, with the folder it had, in the order given.
pub open spec fn moves_spec(es: Seq<MatchEntry>, m: Map<Seq<char>, Seq<char>>, ts: Seq<Seq<char>>, folder: Option<Seq<char>>) -> Seq<(Seq<char>, Option<Seq<char>>)>
    decreases ts.len(),
{
    if ts.len() == 0 {
        Seq::empty()
    } else {
        let init = moves_spec(es, m, ts.drop_last(), folder);
        let t = ts.last();
        if live(es, t) && folder_in(m, t) != folder { init.push((t, folder_in(m, t))) } else { init }
    }
}

/// Moves as plain values.
pub open spec fn moves_view(v: Seq<(String, Option<String>)>) -> Seq<(Seq<char>, Option<Seq<char>>)> {
    v.map_values(|p: (String, Option<String>)| (p.0@, opt_string_view(p.1)))
}

fn is_live(entries: &[MatchEntry], t: &str) -> (r: bool)
    ensures
        r == live(entries@, t@),
{
    let mut i: usize = 0;
    while i < entries.len()
        invariant
            i <= entries@.len(),
            forall|k: int| 0 <= k < i ==> #[trigger] entry_trigger(entries@[k]) != t@,
        decreases entries.len() - i,
    {
        if str_eq(entries[i].trigger_str(), t) {
            return true;
        }
        i += 1;
    }
    false
}

fn opt_eq(a: Option<&str>, b: Option<&str>) -> (r: bool)
    ensures
        r == (match a { Some(x) => Some(x@), None => None::<Seq<char>> } == match b { Some(x) => Some(x@), None => None::<Seq<char>> }),
{
    match (a, b) {
        (Some(x), Some(y)) => str_eq(x, y),
        (None, None) => true,
        _ => false,
    }
}

/// Works out what dropping `triggers` into `folder` (`None`: out of any folder) would change: a
/// trigger that no longer names anything is dropped rather than filed, and one already where it
/// is going is left out, so that a gesture that does nothing says nothing.
pub fn folder_moves(entries: &[MatchEntry], settings: &Settings, triggers: &[String], folder: Option<&str>) -> (r: Vec<(String, Option<String>)>)
    requires
        settings.wf(),
    ensures
        moves_view(r@) == moves_spec(entries@, settings.folder_by_trigger@, strings(triggers@),
            match folder { Some(f) => Some(f@), None => None }),
{
    let ghost fv: Option<Seq<char>> = match folder { Some(f) => Some(f@), None => None };
    let ghost m = settings.folder_by_trigger@;
    let mut out: Vec<(String, Option<String>)> = Vec::new();
    let mut i: usize = 0;
    while i < triggers.len()
        invariant
            i <= triggers@.len(),
            settings.wf(),
            m == settings.folder_by_trigger@,
            fv == (match folder { Some(f) => Some(f@), None => None::<Seq<char>> }),
            moves_view(out@) == moves_spec(entries@, m, strings(triggers@).subrange(0, i as int), fv),
        decreases triggers.len() - i,
    {
        let ghost head = strings(triggers@).subrange(0, i + 1);
        assert(head.drop_last() =~= strings(triggers@).subrange(0, i as int));
        assert(head.last() == triggers@[i as int]@);
        let t = triggers[i].as_str();
        let was = settings.folder_of(t);
        assert((match was { Some(x) => Some(x@), None => None::<Seq<char>> }) == folder_in(m, t@));
        let alive = is_live(entries, t);
        let same = opt_eq(was, folder);
        if alive && !same {
            let ghost before = moves_view(out@);
            let was_owned = match was {
                Some(x) => Some(owned(x)),
                None => None,
            };
            assert(opt_string_view(was_owned) == folder_in(m, t@));
            out.push((owned(t), was_owned));
            assert(moves_view(out@) =~= before.push((t@, folder_in(m, t@))));
        } else {
            assert(!(live(entries@, t@) && folder_in(m, t@) != fv));
        }
        i += 1;
    }
    assert(strings(triggers@).subrange(0, triggers@.len() as int) =~= strings(triggers@));
    out
}

/// The folder map after filing each trigger of `ts` under `f`, in turn.
pub open spec fn file_all_spec(m: Map<Seq<char>, Seq<char>>, ts: Seq<Seq<char>>, f: Option<Seq<char>>) -> Map<Seq<char>, Seq<char>>
    decreases ts.len(),
{
    if ts.len() == 0 { m } else { set_folder_spec(file_all_spec(m, ts.drop_last(), f), ts.last(), f) }
}

/// The folder map after putting each moved trigger back where it was, in turn.
pub open spec fn restore_spec(m: Map<Seq<char>, Seq<char>>, moves: Seq<(Seq<char>, Option<Seq<char>>)>) -> Map<Seq<char>, Seq<char>>
    decreases moves.len(),
{
    if moves.len() == 0 { m } else { set_folder_spec(restore_spec(m, moves.drop_last()), moves.last().0, moves.last().1) }
}

/// The triggers of a list of moves.
pub open spec fn moved(moves: Seq<(Seq<char>, Option<Seq<char>>)>) -> Seq<Seq<char>> {
    moves.map_values(|p: (Seq<char>, Option<Seq<char>>)| p.0)
}

/// Files each moved trigger under `folder`.
pub fn apply_moves(settings: &mut Settings, moves: &Vec<(String, Option<String>)>, folder: Option<&str>)
    requires
        old(settings).wf(),
    ensures
        crate::settings::same_but_folders(*final(settings), *old(settings)),
        final(settings).wf(),
        final(settings).folder_by_trigger@ == file_all_spec(old(settings).folder_by_trigger@, moved(moves_view(moves@)),
            match folder { Some(f) => Some(f@), None => None }),
{
    let ghost fv: Option<Seq<char>> = match folder { Some(f) => Some(f@), None => None };
    let ghost m0 = settings.folder_by_trigger@;
    let ghost ts = moved(moves_view(moves@));
    let ghost s0 = *settings;
    let mut i: usize = 0;
    while i < moves.len()
        invariant
            i <= moves@.len(),
            settings.wf(),
            crate::settings::same_but_folders(*settings, s0),
            ts == moved(moves_view(moves@)),
            fv == (match folder { Some(f) => Some(f@), None => None::<Seq<char>> }),
            settings.folder_by_trigger@ == file_all_spec(m0, ts.subrange(0, i as int), fv),
        decreases moves.len() - i,
    {
        let owned_folder = match folder {
            Some(f) => Some(owned(f)),
            None => None,
        };
        assert(opt_string_view(owned_folder) == fv);
        assert((match owned_folder { Some(f) => Some(f@), None => None::<Seq<char>> }) == fv);
        settings.set_folder(moves[i].0.as_str(), owned_folder);
        assert(ts.subrange(0, i + 1).drop_last() =~= ts.subrange(0, i as int));
        assert(ts.subrange(0, i + 1).last() == moves@[i as int].0@);
        i += 1;
    }
    assert(ts.subrange(0, ts.len() as int) =~= ts);
}

/// Puts each moved trigger back in the folder it had: the banner's undo.
pub fn undo_moves(settings: &mut Settings, moves: &Vec<(String, Option<String>)>)
    requires
        old(settings).wf(),
    ensures
        crate::settings::same_but_folders(*final(settings), *old(settings)),
        final(settings).wf(),
        final(settings).folder_by_trigger@ == restore_spec(old(settings).folder_by_trigger@, moves_view(moves@)),
{
    let ghost m0 = settings.folder_by_trigger@;
    let ghost mv = moves_view(moves@);
    let ghost s0 = *settings;
    let mut i: usize = 0;
    while i < moves.len()
        invariant
            i <= moves@.len(),
            settings.wf(),
            crate::settings::same_but_folders(*settings, s0),
            mv == moves_view(moves@),
            settings.folder_by_trigger@ == restore_spec(m0, mv.subrange(0, i as int)),
        decreases moves.len() - i,
    {
        let was = match &moves[i].1 {
            Some(f) => Some(owned(f.as_str())),
            None => None,
        };
        settings.set_folder(moves[i].0.as_str(), was);
        assert(mv.subrange(0, i + 1).drop_last() =~= mv.subrange(0, i as int));
        assert(mv.subrange(0, i + 1).last() == mv[i as int]);
        i += 1;
    }
    assert(mv.subrange(0, mv.len() as int) =~= mv);
}

/// The banner after a move of `n` expansions into `folder`, or out of any folder.
pub fn moved_message(n: usize, folder: Option<&str>, t: &Strings) -> (r: String)
    ensures
        r@ == (match folder {
            Some(f) => fill_spec(t.moved_to_folder@, seq![("n"@, decimal_spec(n as nat)), ("name"@, f@)]),
            None => fill_spec(t.removed_from_folder@, seq![("n"@, decimal_spec(n as nat))]),
        }),
{
    let ns = decimal(n as u64);
    match folder {
        Some(f) => {
            let args = [("n", ns.as_str()), ("name", f)];
            assert(args_view(args@) =~= seq![("n"@, decimal_spec(n as nat)), ("name"@, f@)]);
            fill(t.moved_to_folder, &args)
        },
        None => {
            let args = [("n", ns.as_str())];
            assert(args_view(args@) =~= seq![("n"@, decimal_spec(n as nat))]);
            fill(t.removed_from_folder, &args)
        },
    }
}

// ---------------------------------------------------------------------------------------------
// Deleting one, confirming many, renaming a folder, importing
// ---------------------------------------------------------------------------------------------

/// Deletes the expansion at `index`, with its folder assignment and its place in the selection.
pub fn delete_at(entries: &mut Vec<MatchEntry>, settings: &mut Settings, selection: &mut Selection, index: usize)
    requires
        old(settings).wf(),
        old(selection).wf(),
        index < old(entries)@.len(),
    ensures
        crate::settings::same_but_folders(*final(settings), *old(settings)),
        final(settings).wf(),
        final(selection).wf(),
        final(entries)@ == old(entries)@.remove(index as int),
        final(settings).folder_by_trigger@ == old(settings).folder_by_trigger@.remove(entry_trigger(old(entries)@[index as int])),
        final(selection)@.0 == old(selection)@.0.remove(entry_trigger(old(entries)@[index as int])),
{
    let trigger = entries[index].trigger_label();
    entries.remove(index);
    settings.remove_trigger(trigger.as_str());
    selection.forget(trigger.as_str());
}

/// The preview of the last expansion with trigger `t`, or nothing if there is none: what a lookup
/// table built from the whole file in order would hold for it.
pub open spec fn last_preview(es: Seq<MatchEntry>, t: Seq<char>, strs: Strings, local: Now, utc: Now) -> Seq<char>
    decreases es.len(),
{
    if es.len() == 0 {
        Seq::empty()
    } else if entry_trigger(es.last()) == t {
        preview_spec(es.last(), strs, local, utc)
    } else {
        last_preview(es.drop_last(), t, strs, local, utc)
    }
}

fn preview_of(entries: &[MatchEntry], t: &str, strs: &Strings, local: Now, utc: Now) -> (r: String)
    ensures
        r@ == last_preview(entries@, t@, *strs, local, utc),
{
    let mut i: usize = entries.len();
    assert(entries@.subrange(0, entries@.len() as int) =~= entries@);
    while i > 0
        invariant
            i <= entries@.len(),
            last_preview(entries@, t@, *strs, local, utc) == last_preview(entries@.subrange(0, i as int), t@, *strs, local, utc),
        decreases i,
    {
        let ghost head = entries@.subrange(0, i as int);
        assert(head.last() == entries@[i - 1]);
        assert(head.drop_last() =~= entries@.subrange(0, i - 1));
        if str_eq(entries[i - 1].trigger_str(), t) {
            return entries[i - 1].preview(strs, local, utc);
        }
        i -= 1;
    }
    String::new()
}

/// The (trigger, preview) rows a confirmation lists for deleting the selection, A→Z.
pub fn selection_items(entries: &[MatchEntry], selection: &Selection, strs: &Strings, local: Now, utc: Now) -> (r: Vec<(String, String)>)
    requires
        selection.wf(),
    ensures
        crate::order::strictly_sorted(pairs(r@).map_values(|p: (Seq<char>, Seq<char>)| p.0)),
        pairs(r@).map_values(|p: (Seq<char>, Seq<char>)| p.0).to_set() == selection@.0,
        forall|i: int| 0 <= i < r@.len() ==> (#[trigger] r@[i]).1@ == last_preview(entries@, r@[i].0@, *strs, local, utc),
{
    let items = selection.items();
    let mut out: Vec<(String, String)> = Vec::new();
    let mut i: usize = 0;
    while i < items.len()
        invariant
            i <= items@.len(),
            pairs(out@).map_values(|p: (Seq<char>, Seq<char>)| p.0) == strings(items@).subrange(0, i as int),
            forall|k: int| 0 <= k < out@.len() ==> (#[trigger] out@[k]).1@ == last_preview(entries@, out@[k].0@, *strs, local, utc),
        decreases items.len() - i,
    {
        let p = preview_of(entries, items[i].as_str(), strs, local, utc);
        let ghost before = pairs(out@).map_values(|p: (Seq<char>, Seq<char>)| p.0);
        out.push((owned(items[i].as_str()), p));
        assert(pairs(out@).map_values(|p: (Seq<char>, Seq<char>)| p.0) =~= before.push(items@[i as int]@));
        assert(strings(items@).subrange(0, i + 1) =~= strings(items@).subrange(0, i as int).push(items@[i as int]@));
        i += 1;
    }
    assert(strings(items@).subrange(0, items@.len() as int) =~= strings(items@));
    assert(strings(items@) =~= crate::selection::strs(items@));
    out
}

/// The entries filed under `folder`, as (trigger, preview), in file order.
pub open spec fn folder_rows(es: Seq<MatchEntry>, m: Map<Seq<char>, Seq<char>>, folder: Seq<char>, strs: Strings, local: Now, utc: Now) -> Seq<(Seq<char>, Seq<char>)>
    decreases es.len(),
{
    if es.len() == 0 {
        Seq::empty()
    } else {
        let init = folder_rows(es.drop_last(), m, folder, strs, local, utc);
        let e = es.last();
        if folder_in(m, entry_trigger(e)) == Some(folder) {
            init.push((entry_trigger(e), preview_spec(e, strs, local, utc)))
        } else {
            init
        }
    }
}

/// The (trigger, preview) rows a confirmation lists for deleting a folder with its expansions.
pub fn folder_items(entries: &[MatchEntry], settings: &Settings, folder: &str, strs: &Strings, local: Now, utc: Now) -> (r: Vec<(String, String)>)
    requires
        settings.wf(),
    ensures
        pairs(r@) == folder_rows(entries@, settings.folder_by_trigger@, folder@, *strs, local, utc),
{
    let ghost m = settings.folder_by_trigger@;
    let mut out: Vec<(String, String)> = Vec::new();
    let mut i: usize = 0;
    while i < entries.len()
        invariant
            i <= entries@.len(),
            settings.wf(),
            m == settings.folder_by_trigger@,
            pairs(out@) == folder_rows(entries@.subrange(0, i as int), m, folder@, *strs, local, utc),
        decreases entries.len() - i,
    {
        let ghost head = entries@.subrange(0, i + 1);
        assert(head.drop_last() =~= entries@.subrange(0, i as int));
        assert(head.last() == entries@[i as int]);
        let t = entries[i].trigger_str();
        let here = match settings.folder_of(t) {
            Some(f) => str_eq(f, folder),
            None => false,
        };
        if here {
            let ghost before = pairs(out@);
            let p = entries[i].preview(strs, local, utc);
            out.push((owned(t), p));
            assert(pairs(out@) =~= before.push((entry_trigger(entries@[i as int]), preview_spec(entries@[i as int], *strs, local, utc))));
        }
        i += 1;
    }
    assert(entries@.subrange(0, entries@.len() as int) =~= entries@);
    out
}

/// The banner after a confirmed delete of `count` expansions.
pub fn deleted_message(kind: &PendingConfirmKind, count: usize, strs: &Strings) -> (r: String)
    ensures
        r@ == (match kind {
            PendingConfirmKind::DeleteFolder { folder } =>
                fill_spec(strs.folder_deleted@, seq![("name"@, folder@), ("n"@, decimal_spec(count as nat))]),
            PendingConfirmKind::DeleteSelection =>
                fill_spec(strs.selection_deleted@, seq![("n"@, decimal_spec(count as nat))]),
        }),
{
    let n = decimal(count as u64);
    match kind {
        PendingConfirmKind::DeleteFolder { folder } => {
            let args = [("name", folder.as_str()), ("n", n.as_str())];
            assert(args_view(args@) =~= seq![("name"@, folder@), ("n"@, decimal_spec(count as nat))]);
            fill(strs.folder_deleted, &args)
        },
        PendingConfirmKind::DeleteSelection => {
            let args = [("n", n.as_str())];
            assert(args_view(args@) =~= seq![("n"@, decimal_spec(count as nat))]);
            fill(strs.selection_deleted, &args)
        },
    }
}

/// How renaming a folder turned out.
pub enum FolderRename {
    /// The new name was blank or the same: nothing to do.
    Unchanged,
    /// Another folder already has that name; nothing changed.
    Taken(String),
    /// Renamed to this (trimmed) name.
    Renamed(String),
}

/// Renames folder `from` to `to` (trimmed) wherever it is used, unless the new name is blank, the
/// same, or already another folder's.
pub fn rename_folder(settings: &mut Settings, from: &str, to: &str) -> (r: FolderRename)
    requires
        old(settings).wf(),
    ensures
        crate::settings::same_but_folders(*final(settings), *old(settings)),
        final(settings).wf(),
        ({
            let name = trim_spec(to@);
            let m = old(settings).folder_by_trigger@;
            if name.len() == 0 || name == from@ {
                r is Unchanged && final(settings).folder_by_trigger@ == m
            } else if m.values().contains(name) {
                r matches FolderRename::Taken(n) && n@ == name && final(settings).folder_by_trigger@ == m
            } else {
                &&& r matches FolderRename::Renamed(n) && n@ == name
                &&& final(settings).folder_by_trigger@.dom() == m.dom()
                &&& forall|k: Seq<char>| #[trigger] m.dom().contains(k) ==>
                        final(settings).folder_by_trigger@[k] == (if m[k] == from@ { name } else { m[k] })
            }
        }),
{
    let name = trim(to);
    if name.as_str().is_empty() || str_eq(name.as_str(), from) {
        return FolderRename::Unchanged;
    }
    let names = settings.all_folder_names();
    if crate::settings::contains_string(names.as_slice(), name.as_str()) {
        assert(strings(names@).to_set().contains(name@));
        return FolderRename::Taken(name);
    }
    proof {
        if settings.folder_by_trigger@.values().contains(name@) {
            assert(strings(names@).to_set().contains(name@));
            assert(strings(names@).contains(name@));
        }
    }
    settings.folder_by_trigger.rename_value(from, name.as_str());
    FolderRename::Renamed(name)
}

/// What an import added, as the banner says it.
pub enum ImportNews {
    /// Nothing was added: the banner explains, and nothing needs saving.
    NothingAdded(String),
    /// Something was added: this message goes out once the file is saved.
    Added(String),
}

/// The banner for an import that added `added` expansions and skipped `skipped`.
pub fn import_news(added: usize, skipped: usize, strs: &Strings) -> (r: ImportNews)
    ensures
        added == 0 ==> (r matches ImportNews::NothingAdded(m)
            && m@ == fill_spec(strs.import_none_added@, seq![("k"@, decimal_spec(skipped as nat))])),
        added > 0 && skipped == 0 ==> (r matches ImportNews::Added(m)
            && m@ == fill_spec(strs.import_done@, seq![("n"@, decimal_spec(added as nat))])),
        added > 0 && skipped > 0 ==> (r matches ImportNews::Added(m)
            && m@ == fill_spec(strs.import_done_skipped@, seq![("n"@, decimal_spec(added as nat)), ("k"@, decimal_spec(skipped as nat))])),
{
    let n = decimal(added as u64);
    let k = decimal(skipped as u64);
    if added == 0 {
        let args = [("k", k.as_str())];
        assert(args_view(args@) =~= seq![("k"@, decimal_spec(skipped as nat))]);
        ImportNews::NothingAdded(fill(strs.import_none_added, &args))
    } else if skipped == 0 {
        let args = [("n", n.as_str())];
        assert(args_view(args@) =~= seq![("n"@, decimal_spec(added as nat))]);
        ImportNews::Added(fill(strs.import_done, &args))
    } else {
        let args = [("n", n.as_str()), ("k", k.as_str())];
        assert(args_view(args@) =~= seq![("n"@, decimal_spec(added as nat)), ("k"@, decimal_spec(skipped as nat))]);
        ImportNews::Added(fill(strs.import_done_skipped, &args))
    }
}

// ---------------------------------------------------------------------------------------------
// Laws
// ---------------------------------------------------------------------------------------------

proof fn lemma_set_folder_at(m: Map<Seq<char>, Seq<char>>, t: Seq<char>, f: Option<Seq<char>>, k: Seq<char>)
    ensures
        folder_in(set_folder_spec(m, t, f), k) == (if k == t { filed_folder(f) } else { folder_in(m, k) }),
{
}

proof fn lemma_file_all_elsewhere(m: Map<Seq<char>, Seq<char>>, ts: Seq<Seq<char>>, f: Option<Seq<char>>, k: Seq<char>)
    requires
        !ts.contains(k),
    ensures
        folder_in(file_all_spec(m, ts, f), k) == folder_in(m, k),
    decreases ts.len(),
{
    if ts.len() > 0 {
        assert(ts.last() != k) by {
            assert(ts[ts.len() - 1] == ts.last());
        }
        assert(!ts.drop_last().contains(k)) by {
            if ts.drop_last().contains(k) {
                let i = choose|i: int| 0 <= i < ts.drop_last().len() && ts.drop_last()[i] == k;
                assert(ts[i] == k);
            }
        }
        lemma_file_all_elsewhere(m, ts.drop_last(), f, k);
        lemma_set_folder_at(file_all_spec(m, ts.drop_last(), f), ts.last(), f, k);
    }
}

proof fn lemma_restore_at(m: Map<Seq<char>, Seq<char>>, mv: Seq<(Seq<char>, Option<Seq<char>>)>, k: Seq<char>, w: Option<Seq<char>>)
    requires
        forall|i: int| 0 <= i < mv.len() && (#[trigger] mv[i]).0 == k ==> mv[i].1 == w,
    ensures
        folder_in(restore_spec(m, mv), k) == (if moved(mv).contains(k) { filed_folder(w) } else { folder_in(m, k) }),
    decreases mv.len(),
{
    if mv.len() > 0 {
        let init = mv.drop_last();
        assert forall|i: int| 0 <= i < init.len() && (#[trigger] init[i]).0 == k implies init[i].1 == w by {
            assert(init[i] == mv[i]);
        }
        lemma_restore_at(m, init, k, w);
        lemma_set_folder_at(restore_spec(m, init), mv.last().0, mv.last().1, k);
        assert(moved(mv) =~= moved(init).push(mv.last().0));
        if mv.last().0 == k {
            assert(mv[mv.len() - 1] == mv.last());
            assert(moved(mv)[mv.len() - 1] == k);
        } else {
            assert(moved(mv).contains(k) == moved(init).contains(k)) by {
                if moved(mv).contains(k) {
                    let i = choose|i: int| 0 <= i < moved(mv).len() && moved(mv)[i] == k;
                    assert(i < init.len());
                    assert(moved(init)[i] == k);
                }
                if moved(init).contains(k) {
                    let i = choose|i: int| 0 <= i < moved(init).len() && moved(init)[i] == k;
                    assert(moved(mv)[i] == k);
                }
            }
        }
    }
}

proof fn lemma_moves_remember(es: Seq<MatchEntry>, m: Map<Seq<char>, Seq<char>>, ts: Seq<Seq<char>>, f: Option<Seq<char>>)
    ensures
        forall|i: int| 0 <= i < moves_spec(es, m, ts, f).len()
            ==> (#[trigger] moves_spec(es, m, ts, f)[i]).1 == folder_in(m, moves_spec(es, m, ts, f)[i].0),
    decreases ts.len(),
{
    if ts.len() > 0 {
        lemma_moves_remember(es, m, ts.drop_last(), f);
        let init = moves_spec(es, m, ts.drop_last(), f);
        let mv = moves_spec(es, m, ts, f);
        assert forall|i: int| 0 <= i < mv.len() implies (#[trigger] mv[i]).1 == folder_in(m, mv[i].0) by {
            if i < init.len() {
                assert(mv[i] == init[i]);
            }
        }
    }
}

/// The banner's undo puts a move back exactly: filing the dropped expansions under a folder and
/// then restoring what the move recorded gives back the folder map the move started from, for
/// every drop — as long as each folder a moved expansion came from is named the way the app
/// writes folder names (trimmed, not blank).
pub proof fn law_undo_restores_move(es: Seq<MatchEntry>, m: Map<Seq<char>, Seq<char>>, ts: Seq<Seq<char>>, folder: Option<Seq<char>>)
    requires
        forall|k: Seq<char>| #[trigger] moved(moves_spec(es, m, ts, folder)).contains(k) && m.dom().contains(k)
            ==> filed_folder(Some(m[k])) == Some(m[k]),
    ensures
        ({
            let mv = moves_spec(es, m, ts, folder);
            restore_spec(file_all_spec(m, moved(mv), folder), mv) == m
        }),
{
    let mv = moves_spec(es, m, ts, folder);
    let after = file_all_spec(m, moved(mv), folder);
    let back = restore_spec(after, mv);
    lemma_moves_remember(es, m, ts, folder);
    assert forall|k: Seq<char>| #[trigger] folder_in(back, k) == folder_in(m, k) by {
        assert forall|i: int| 0 <= i < mv.len() && (#[trigger] mv[i]).0 == k implies mv[i].1 == folder_in(m, k) by {}
        lemma_restore_at(after, mv, k, folder_in(m, k));
        if !moved(mv).contains(k) {
            lemma_file_all_elsewhere(m, moved(mv), folder, k);
        }
    }
    assert forall|k: Seq<char>| #[trigger] back.dom().contains(k) == m.dom().contains(k) by {
        assert(folder_in(back, k) == folder_in(m, k));
    }
    assert forall|k: Seq<char>| back.dom().contains(k) implies #[trigger] back[k] == m[k] by {
        assert(folder_in(back, k) == folder_in(m, k));
    }
    assert(back =~= m);
}

/// Every move a drop records takes an expansion that exists somewhere it was not already going,
/// and records the folder it came from.
pub proof fn law_moves_only_what_changes(es: Seq<MatchEntry>, m: Map<Seq<char>, Seq<char>>, ts: Seq<Seq<char>>, folder: Option<Seq<char>>)
    ensures
        forall|i: int| 0 <= i < moves_spec(es, m, ts, folder).len() ==> ({
            let mv = #[trigger] moves_spec(es, m, ts, folder)[i];
            &&& live(es, mv.0)
            &&& mv.1 == folder_in(m, mv.0)
            &&& mv.1 != folder
        }),
    decreases ts.len(),
{
    if ts.len() > 0 {
        law_moves_only_what_changes(es, m, ts.drop_last(), folder);
        let init = moves_spec(es, m, ts.drop_last(), folder);
        let mv = moves_spec(es, m, ts, folder);
        assert forall|i: int| 0 <= i < mv.len() implies ({
            let x = #[trigger] mv[i];
            &&& live(es, x.0)
            &&& x.1 == folder_in(m, x.0)
            &&& x.1 != folder
        }) by {
            if i < init.len() {
                assert(mv[i] == init[i]);
            }
        }
    }
}


proof fn lemma_word_start_after_symbols(p: Seq<char>, r: Seq<char>)
    requires
        forall|i: int| 0 <= i < p.len() ==> !char_is_alphanumeric(#[trigger] p[i]),
        r.len() == 0 || char_is_alphanumeric(r[0]),
    ensures
        word_start(p + r) == p.len(),
    decreases p.len(),
{
    if p.len() == 0 {
        assert(p + r =~= r);
    } else {
        assert((p + r).drop_first() =~= p.drop_first() + r);
        assert forall|i: int| 0 <= i < p.drop_first().len() implies !char_is_alphanumeric(#[trigger] p.drop_first()[i]) by {
            assert(p.drop_first()[i] == p[i + 1]);
        }
        lemma_word_start_after_symbols(p.drop_first(), r);
        assert((p + r)[0] == p[0]);
    }
}

/// A prefix made only of symbols is applied once and for all: giving a trigger that prefix a
/// second time changes nothing.
pub proof fn law_prefix_is_idempotent(prefix: Seq<char>, t: Seq<char>)
    requires
        forall|i: int| 0 <= i < prefix.len() ==> !char_is_alphanumeric(#[trigger] prefix[i]),
    ensures
        with_prefix(prefix, with_prefix(prefix, t)) == with_prefix(prefix, t),
{
    let rest = split_spec(t).1;
    crate::edit_form::lemma_word_start_bounds(t);
    lemma_word_start_after_symbols(prefix, rest);
    assert((prefix + rest).subrange(prefix.len() as int, (prefix + rest).len() as int) =~= rest);
}

/// Once the prefix change has been applied (each simple match given `prefix`, everything else
/// left alone), planning it again finds nothing to rename — for a prefix made only of symbols.
pub proof fn law_prefix_change_applies_once(before: Seq<MatchEntry>, after: Seq<MatchEntry>, prefix: Seq<char>)
    requires
        forall|i: int| 0 <= i < prefix.len() ==> !char_is_alphanumeric(#[trigger] prefix[i]),
        after.len() == before.len(),
        forall|i: int| 0 <= i < before.len() ==> match (#[trigger] before[i], after[i]) {
            (MatchEntry::Simple(a), MatchEntry::Simple(b)) => b@.trigger == with_prefix(prefix, a@.trigger),
            (MatchEntry::Advanced(a), MatchEntry::Advanced(b)) => b == a,
            _ => false,
        },
    ensures
        renames_spec(after, prefix).len() == 0,
    decreases before.len(),
{
    if before.len() > 0 {
        let n = before.len() - 1;
        assert forall|i: int| 0 <= i < before.drop_last().len() implies match (#[trigger] before.drop_last()[i], after.drop_last()[i]) {
            (MatchEntry::Simple(a), MatchEntry::Simple(b)) => b@.trigger == with_prefix(prefix, a@.trigger),
            (MatchEntry::Advanced(a), MatchEntry::Advanced(b)) => b == a,
            _ => false,
        } by {
            assert(before.drop_last()[i] == before[i]);
            assert(after.drop_last()[i] == after[i]);
        }
        law_prefix_change_applies_once(before.drop_last(), after.drop_last(), prefix);
        assert(after.last() == after[n]);
        match (before[n], after[n]) {
            (MatchEntry::Simple(a), MatchEntry::Simple(b)) => {
                law_prefix_is_idempotent(prefix, a@.trigger);
            },
            _ => {},
        }
    }
}

} // verus!
