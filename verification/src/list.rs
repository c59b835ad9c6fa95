//! The list screen's model: which expansions it shows for a search, how each row reads, and how
//! the rows fall into folders.
//!
//! Only plain-text and date expansions are ever surfaced — anything else (shell commands, regex
//! matches, per-app rules) stays untouched in the file but out of this list, by design.

use vstd::prelude::*;
use crate::text::{contains_seq, lowercase_spec, chars_of, string_of_range, owned, push_char,
    to_lowercase, contains, chars_eq};
use crate::order::{str_lt, strictly_sorted, less_than, lemma_lt_trichotomy, lemma_lt_transitive};
use crate::model::{MatchEntry, entry_trigger, is_editable_spec, preview_spec};
use crate::datefmt::Now;
use crate::strings::Strings;
use crate::settings::Settings;

verus! {

/// Far more characters than any row can display, so the width-aware trim the label does afterwards
/// still has plenty to work with.
pub const PREVIEW_MAX_CHARS: usize = 200;

/// `s` cut to `max` characters, with an ellipsis when anything was cut.
pub open spec fn truncate_spec(s: Seq<char>, max: nat) -> Seq<char> {
    if s.len() <= max { s } else { s.take(max as int).push('…') }
}

/// Shortens `s` to `max_chars` characters, adding an ellipsis if anything was cut. Counts
/// characters rather than bytes, so it can never split one in half.
pub fn truncate(s: &str, max_chars: usize) -> (r: String)
    ensures
        r@ == truncate_spec(s@, max_chars as nat),
{
    let v = chars_of(s);
    if v.len() <= max_chars {
        owned(s)
    } else {
        let mut out = string_of_range(v.as_slice(), 0, max_chars);
        push_char(&mut out, '…');
        assert(v@.subrange(0, max_chars as int) =~= s@.take(max_chars as int));
        out
    }
}

/// One expansion as the list draws it.
pub struct ListRow {
    pub trigger: String,
    /// The replacement, already shortened to [`PREVIEW_MAX_CHARS`].
    pub preview: String,
}

/// Everything the list screen needs, derived once from the expansions and the folder assignments.
pub struct ListCache {
    pub rows: Vec<ListRow>,
    /// Folder name → indices into `rows`, folders A→Z.
    pub grouped: Vec<(String, Vec<usize>)>,
    /// Indices into `rows` of the expansions that belong to no folder.
    pub ungrouped: Vec<usize>,
    /// Expansions in the file, including the ones this list never shows — so the screen can tell
    /// "you have none yet" apart from "your search matched none".
    pub total_entries: usize,
}

/// Whether an expansion shows for the lowercased query `q`: always when the query is empty,
/// otherwise when its trigger or its preview contains it, ignoring case.
pub open spec fn shows_for(q: Seq<char>, trigger: Seq<char>, preview: Seq<char>) -> bool {
    q.len() == 0 || contains_seq(lowercase_spec(trigger), q) || contains_seq(lowercase_spec(preview), q)
}

/// The rows the list shows for the entries `es` and the lowercased query `q`, in file order: the
/// trigger and the shortened preview of each editable entry that the query finds.
pub open spec fn rows_spec(es: Seq<MatchEntry>, q: Seq<char>, t: Strings, local: Now, utc: Now) -> Seq<(Seq<char>, Seq<char>)>
    decreases es.len(),
{
    if es.len() == 0 {
        Seq::empty()
    } else {
        let init = rows_spec(es.drop_last(), q, t, local, utc);
        let e = es.last();
        let p = preview_spec(e, t, local, utc);
        if is_editable_spec(e) && shows_for(q, entry_trigger(e), p) {
            init.push((entry_trigger(e), truncate_spec(p, PREVIEW_MAX_CHARS as nat)))
        } else {
            init
        }
    }
}

/// The rows as plain values.
pub open spec fn rows_view(rows: Seq<ListRow>) -> Seq<(Seq<char>, Seq<char>)> {
    rows.map_values(|r: ListRow| (r.trigger@, r.preview@))
}

/// The triggers of the rows.
pub open spec fn row_triggers(rows: Seq<ListRow>) -> Seq<Seq<char>> {
    rows.map_values(|r: ListRow| r.trigger@)
}

/// Row `i` is filed under folder `f`.
pub open spec fn filed_under(rs: Seq<Seq<char>>, fm: Map<Seq<char>, Seq<char>>, i: int, f: Seq<char>) -> bool {
    fm.dom().contains(rs[i]) && fm[rs[i]] == f
}

/// The indices below `n` of the rows filed under `f`, in order.
pub open spec fn indices_in(rs: Seq<Seq<char>>, fm: Map<Seq<char>, Seq<char>>, f: Seq<char>, n: nat) -> Seq<usize>
    decreases n,
{
    if n == 0 {
        Seq::empty()
    } else {
        let init = indices_in(rs, fm, f, (n - 1) as nat);
        if filed_under(rs, fm, n - 1, f) { init.push((n - 1) as usize) } else { init }
    }
}

/// The indices below `n` of the rows filed nowhere, in order.
pub open spec fn unfiled(rs: Seq<Seq<char>>, fm: Map<Seq<char>, Seq<char>>, n: nat) -> Seq<usize>
    decreases n,
{
    if n == 0 {
        Seq::empty()
    } else {
        let init = unfiled(rs, fm, (n - 1) as nat);
        if !fm.dom().contains(rs[n - 1]) { init.push((n - 1) as usize) } else { init }
    }
}

/// The folders of the rows below `n`.
pub open spec fn folders_upto(rs: Seq<Seq<char>>, fm: Map<Seq<char>, Seq<char>>, n: nat) -> Set<Seq<char>> {
    Set::new(|f: Seq<char>| exists|i: int| 0 <= i < n && filed_under(rs, fm, i, f))
}

/// The names of the folder groups.
pub open spec fn group_names(g: Seq<(String, Vec<usize>)>) -> Seq<Seq<char>> {
    g.map_values(|p: (String, Vec<usize>)| p.0@)
}

/// `g` and `u` group the rows below `n` of `rs` by the folders of `fm`: one group per folder in
/// use, A→Z, each holding its rows' indices in order, and the unfiled rows' indices in order.
pub open spec fn grouping_of(rs: Seq<Seq<char>>, fm: Map<Seq<char>, Seq<char>>, g: Seq<(String, Vec<usize>)>, u: Seq<usize>, n: nat) -> bool {
    &&& strictly_sorted(group_names(g))
    &&& group_names(g).to_set() == folders_upto(rs, fm, n)
    &&& forall|k: int| 0 <= k < g.len() ==> (#[trigger] g[k]).1@ == indices_in(rs, fm, g[k].0@, n)
    &&& u == unfiled(rs, fm, n)
}

proof fn lemma_indices_empty(rs: Seq<Seq<char>>, fm: Map<Seq<char>, Seq<char>>, f: Seq<char>, n: nat)
    requires
        !folders_upto(rs, fm, n).contains(f),
    ensures
        indices_in(rs, fm, f, n) == Seq::<usize>::empty(),
    decreases n,
{
    if n > 0 {
        assert(!filed_under(rs, fm, n - 1, f));
        assert(!folders_upto(rs, fm, (n - 1) as nat).contains(f)) by {
            if folders_upto(rs, fm, (n - 1) as nat).contains(f) {
                let i = choose|i: int| 0 <= i < n - 1 && filed_under(rs, fm, i, f);
                assert(0 <= i < n && filed_under(rs, fm, i, f));
            }
        }
        lemma_indices_empty(rs, fm, f, (n - 1) as nat);
    }
}

/// Groups `rows` by their folders.
fn group_rows(rows: &Vec<ListRow>, settings: &Settings) -> (r: (Vec<(String, Vec<usize>)>, Vec<usize>))
    requires
        settings.wf(),
    ensures
        grouping_of(row_triggers(rows@), settings.folder_by_trigger@, r.0@, r.1@, rows@.len()),
{
    let ghost rs = row_triggers(rows@);
    let ghost fm = settings.folder_by_trigger@;
    let mut grouped: Vec<(String, Vec<usize>)> = Vec::new();
    let mut ungrouped: Vec<usize> = Vec::new();
    let mut i: usize = 0;
    assert(group_names(grouped@).to_set() =~= folders_upto(rs, fm, 0));
    while i < rows.len()
        invariant
            i <= rows@.len(),
            settings.wf(),
            rs == row_triggers(rows@),
            fm == settings.folder_by_trigger@,
            grouping_of(rs, fm, grouped@, ungrouped@, i as nat),
        decreases rows.len() - i,
    {
        let ghost n = i as nat;
        let ghost old_g = grouped@;
        assert(rs[i as int] == rows@[i as int].trigger@);
        match settings.folder_of(rows[i].trigger.as_str()) {
            None => {
                ungrouped.push(i);
                proof {
                    assert(folders_upto(rs, fm, n + 1) =~= folders_upto(rs, fm, n)) by {
                        assert forall|f: Seq<char>| folders_upto(rs, fm, n + 1).contains(f) implies folders_upto(rs, fm, n).contains(f) by {
                            let j = choose|j: int| 0 <= j < n + 1 && filed_under(rs, fm, j, f);
                            assert(j != n);
                            assert(0 <= j < n && filed_under(rs, fm, j, f));
                        }
                        assert forall|f: Seq<char>| folders_upto(rs, fm, n).contains(f) implies folders_upto(rs, fm, n + 1).contains(f) by {
                            let j = choose|j: int| 0 <= j < n && filed_under(rs, fm, j, f);
                            assert(0 <= j < n + 1 && filed_under(rs, fm, j, f));
                        }
                    }
                    assert forall|k: int| 0 <= k < grouped@.len() implies (#[trigger] grouped@[k]).1@ == indices_in(rs, fm, grouped@[k].0@, n + 1) by {
                        assert(!filed_under(rs, fm, n as int, grouped@[k].0@));
                    }
                }
            },
            Some(f) => {
                let fv = chars_of(f);
                let ghost fs = f@;
                assert(filed_under(rs, fm, n as int, fs));
                let mut k: usize = 0;
                while k < grouped.len() && less_than(chars_of(grouped[k].0.as_str()).as_slice(), fv.as_slice())
                    invariant
                        k <= grouped@.len(),
                        grouped@ == old_g,
                        fv@ == fs,
                        forall|j: int| 0 <= j < k ==> str_lt(#[trigger] group_names(old_g)[j], fs),
                    decreases grouped.len() - k,
                {
                    k += 1;
                }
                let ghost names = group_names(old_g);
                let same = k < grouped.len() && chars_eq(chars_of(grouped[k].0.as_str()).as_slice(), fv.as_slice());
                if same {
                    let (name, mut idx) = grouped.remove(k);
                    idx.push(i);
                    grouped.insert(k, (name, idx));
                    proof {
                        assert(grouped@ =~= old_g.update(k as int, (name, idx)));
                        assert(names[k as int] == fs);
                        assert(group_names(grouped@) =~= names);
                        assert(folders_upto(rs, fm, n + 1) =~= folders_upto(rs, fm, n)) by {
                            assert forall|g: Seq<char>| folders_upto(rs, fm, n + 1).contains(g) implies folders_upto(rs, fm, n).contains(g) by {
                                let j = choose|j: int| 0 <= j < n + 1 && filed_under(rs, fm, j, g);
                                if j == n {
                                    assert(g == fs);
                                    assert(names.contains(fs));
                                    assert(names.to_set().contains(fs));
                                } else {
                                    assert(0 <= j < n && filed_under(rs, fm, j, g));
                                }
                            }
                            assert forall|g: Seq<char>| folders_upto(rs, fm, n).contains(g) implies folders_upto(rs, fm, n + 1).contains(g) by {
                                let j = choose|j: int| 0 <= j < n && filed_under(rs, fm, j, g);
                                assert(0 <= j < n + 1 && filed_under(rs, fm, j, g));
                            }
                        }
                        assert forall|m: int| 0 <= m < grouped@.len() implies (#[trigger] grouped@[m]).1@ == indices_in(rs, fm, grouped@[m].0@, n + 1) by {
                            if m != k {
                                assert(grouped@[m] == old_g[m]);
                                assert(names[m] != fs) by {
                                    lemma_names_distinct(names, m, k as int);
                                }
                            }
                        }
                    }
                } else {
                    proof {
                        if k < old_g.len() {
                            lemma_lt_trichotomy(names[k as int], fs);
                        }
                        // `f` is a new folder: everything before `k` sorts before it, everything
                        // from `k` on after it.
                        assert(!names.contains(fs)) by {
                            if names.contains(fs) {
                                let j = choose|j: int| 0 <= j < names.len() && names[j] == fs;
                                if j < k {
                                    crate::order::lemma_lt_irreflexive(fs);
                                } else if j > k {
                                    assert(str_lt(names[k as int], names[j]));
                                    lemma_lt_transitive(fs, names[k as int], names[j]);
                                    crate::order::lemma_lt_irreflexive(fs);
                                }
                            }
                        }
                        assert(!folders_upto(rs, fm, n).contains(fs)) by {
                            if folders_upto(rs, fm, n).contains(fs) {
                                assert(names.to_set().contains(fs));
                            }
                        }
                        lemma_indices_empty(rs, fm, fs, n);
                    }
                    let mut one: Vec<usize> = Vec::new();
                    one.push(i);
                    grouped.insert(k, (owned(f), one));
                    proof {
                        let nn = group_names(grouped@);
                        assert(nn =~= names.insert(k as int, fs));
                        assert forall|a: int, b: int| 0 <= a < b < nn.len() implies str_lt(#[trigger] nn[a], #[trigger] nn[b]) by {
                            if b < k {
                                assert(nn[a] == names[a] && nn[b] == names[b]);
                            } else if b == k {
                                assert(nn[a] == names[a]);
                            } else if a == k {
                                assert(nn[b] == names[b - 1]);
                                if b - 1 > k {
                                    lemma_lt_transitive(fs, names[k as int], names[b - 1]);
                                }
                            } else if a < k {
                                assert(nn[a] == names[a] && nn[b] == names[b - 1]);
                            } else {
                                assert(nn[a] == names[a - 1] && nn[b] == names[b - 1]);
                            }
                        }
                        assert forall|g: Seq<char>| #[trigger] nn.to_set().contains(g) == folders_upto(rs, fm, n + 1).contains(g) by {
                            if nn.contains(g) {
                                let j = choose|j: int| 0 <= j < nn.len() && nn[j] == g;
                                if j < k {
                                    assert(names[j] == g);
                                    assert(names.to_set().contains(g));
                                    let w = choose|w: int| 0 <= w < n && filed_under(rs, fm, w, g);
                                    assert(0 <= w < n + 1 && filed_under(rs, fm, w, g));
                                } else if j > k {
                                    assert(names[j - 1] == g);
                                    assert(names.to_set().contains(g));
                                    let w = choose|w: int| 0 <= w < n && filed_under(rs, fm, w, g);
                                    assert(0 <= w < n + 1 && filed_under(rs, fm, w, g));
                                } else {
                                    assert(filed_under(rs, fm, n as int, g));
                                }
                            }
                            if folders_upto(rs, fm, n + 1).contains(g) {
                                let w = choose|w: int| 0 <= w < n + 1 && filed_under(rs, fm, w, g);
                                if w == n {
                                    assert(nn[k as int] == g);
                                } else {
                                    assert(folders_upto(rs, fm, n).contains(g));
                                    assert(names.to_set().contains(g));
                                    let j = choose|j: int| 0 <= j < names.len() && names[j] == g;
                                    if j < k {
                                        assert(nn[j] == g);
                                    } else {
                                        assert(nn[j + 1] == g);
                                    }
                                }
                            }
                        }
                        assert(nn.to_set() =~= folders_upto(rs, fm, n + 1));
                        assert forall|m: int| 0 <= m < grouped@.len() implies (#[trigger] grouped@[m]).1@ == indices_in(rs, fm, grouped@[m].0@, n + 1) by {
                            if m < k {
                                assert(grouped@[m] == old_g[m]);
                                assert(names[m] != fs);
                            } else if m > k {
                                assert(grouped@[m] == old_g[m - 1]);
                                assert(names[m - 1] != fs);
                            } else {
                                assert(grouped@[m].1@ =~= Seq::<usize>::empty().push(i));
                            }
                        }
                    }
                }
            },
        }
        i += 1;
    }
    (grouped, ungrouped)
}

proof fn lemma_names_distinct(names: Seq<Seq<char>>, a: int, b: int)
    requires
        strictly_sorted(names),
        0 <= a < names.len(),
        0 <= b < names.len(),
        a != b,
    ensures
        names[a] != names[b],
{
    if a < b {
        assert(str_lt(names[a], names[b]));
        crate::order::lemma_lt_irreflexive(names[a]);
    } else {
        assert(str_lt(names[b], names[a]));
        crate::order::lemma_lt_irreflexive(names[a]);
    }
}

/// Whether `text` contains the lowercased query `q`, ignoring case.
fn finds(text: &str, q: &[char]) -> (r: bool)
    ensures
        r == contains_seq(lowercase_spec(text@), q@),
{
    let low = to_lowercase(text);
    let lv = chars_of(low.as_str());
    contains(lv.as_slice(), q)
}

/// Builds the list for the expansions `entries` and the search box's text: the rows that show,
/// grouped by folder. `local` and `utc` are the clocks a date example is read from.
pub fn build_list(entries: &[MatchEntry], settings: &Settings, search: &str, t: &Strings, local: Now, utc: Now) -> (r: ListCache)
    requires
        settings.wf(),
    ensures
        rows_view(r.rows@) == rows_spec(entries@, lowercase_spec(search@), *t, local, utc),
        grouping_of(row_triggers(r.rows@), settings.folder_by_trigger@, r.grouped@, r.ungrouped@, r.rows@.len()),
        r.total_entries == entries@.len(),
{
    let query = to_lowercase(search);
    let q = chars_of(query.as_str());
    let ghost qs = lowercase_spec(search@);
    let mut rows: Vec<ListRow> = Vec::new();
    let mut i: usize = 0;
    while i < entries.len()
        invariant
            i <= entries@.len(),
            q@ == qs,
            qs == lowercase_spec(search@),
            rows_view(rows@) == rows_spec(entries@.subrange(0, i as int), qs, *t, local, utc),
        decreases entries.len() - i,
    {
        let ghost before = rows_view(rows@);
        let e = &entries[i];
        assert(entries@.subrange(0, i + 1).drop_last() =~= entries@.subrange(0, i as int));
        assert(entries@.subrange(0, i + 1).last() == *e);
        if e.is_safely_editable() {
            let preview = e.preview(t, local, utc);
            let shown = q.len() == 0 || finds(e.trigger_str(), q.as_slice()) || finds(preview.as_str(), q.as_slice());
            if shown {
                let row = ListRow { trigger: e.trigger_label(), preview: truncate(preview.as_str(), PREVIEW_MAX_CHARS) };
                rows.push(row);
                assert(rows_view(rows@) =~= before.push((entry_trigger(*e), truncate_spec(preview_spec(*e, *t, local, utc), PREVIEW_MAX_CHARS as nat))));
            }
        }
        i += 1;
    }
    assert(entries@.subrange(0, entries@.len() as int) =~= entries@);
    let (grouped, ungrouped) = group_rows(&rows, settings);
    ListCache { rows, grouped, ungrouped, total_entries: entries.len() }
}

/// Above this many folders they all start closed: showing the names of many folders is more
/// useful than laying out every row of all of them.
pub const FOLDERS_OPEN_BY_DEFAULT: usize = 5;

/// Whether folders start open in this list: only when there are few of them.
pub fn folders_default_open(list: &ListCache) -> (r: bool)
    ensures
        r == (list.grouped@.len() <= FOLDERS_OPEN_BY_DEFAULT),
{
    list.grouped.len() <= FOLDERS_OPEN_BY_DEFAULT
}

/// The rows in the order they are drawn: each folder's rows, A→Z, for the folders that are open
/// (`open[k]` for group `k`; a group past the end of `open` counts as closed), then the rows in no
/// folder. A Shift-click range covers exactly this order.
pub fn visible_order(list: &ListCache, open: &[bool]) -> (r: Vec<String>)
    requires
        forall|k: int, j: int| 0 <= k < list.grouped@.len() && 0 <= j < list.grouped@[k].1@.len()
            ==> (#[trigger] list.grouped@[k].1@[j]) < list.rows@.len(),
        forall|j: int| 0 <= j < list.ungrouped@.len() ==> (#[trigger] list.ungrouped@[j]) < list.rows@.len(),
    ensures
        r@.map_values(|s: String| s@) == visible_spec(row_triggers(list.rows@), list.grouped@, open@, list.ungrouped@),
{
    let ghost rs = row_triggers(list.rows@);
    let mut out: Vec<String> = Vec::new();
    let mut k: usize = 0;
    while k < list.grouped.len()
        invariant
            k <= list.grouped@.len(),
            rs == row_triggers(list.rows@),
            forall|a: int, j: int| 0 <= a < list.grouped@.len() && 0 <= j < list.grouped@[a].1@.len()
                ==> (#[trigger] list.grouped@[a].1@[j]) < list.rows@.len(),
            out@.map_values(|s: String| s@) == open_groups(rs, list.grouped@.subrange(0, k as int), open@),
        decreases list.grouped.len() - k,
    {
        let ghost before = out@.map_values(|s: String| s@);
        let is_open = k < open.len() && open[k];
        assert(list.grouped@.subrange(0, k + 1).drop_last() =~= list.grouped@.subrange(0, k as int));
        if is_open {
            let idx = &list.grouped[k].1;
            let mut j: usize = 0;
            while j < idx.len()
                invariant
                    j <= idx@.len(),
                    *idx == list.grouped@[k as int].1,
                    forall|m: int| 0 <= m < idx@.len() ==> (#[trigger] idx@[m]) < list.rows@.len(),
                    rs == row_triggers(list.rows@),
                    out@.map_values(|s: String| s@) == before + triggers_at(rs, idx@.subrange(0, j as int)),
                decreases idx.len() - j,
            {
                let ghost mid = out@.map_values(|s: String| s@);
                out.push(owned(list.rows[idx[j]].trigger.as_str()));
                assert(idx@.subrange(0, j + 1).drop_last() =~= idx@.subrange(0, j as int));
                assert(out@.map_values(|s: String| s@) =~= mid.push(rs[idx@[j as int] as int]));
                j += 1;
            }
            assert(idx@.subrange(0, idx@.len() as int) =~= idx@);
        } else {
            assert(before + Seq::<Seq<char>>::empty() =~= before);
        }
        k += 1;
    }
    assert(list.grouped@.subrange(0, list.grouped@.len() as int) =~= list.grouped@);
    let ghost head = out@.map_values(|s: String| s@);
    let mut j: usize = 0;
    while j < list.ungrouped.len()
        invariant
            j <= list.ungrouped@.len(),
            rs == row_triggers(list.rows@),
            forall|m: int| 0 <= m < list.ungrouped@.len() ==> (#[trigger] list.ungrouped@[m]) < list.rows@.len(),
            out@.map_values(|s: String| s@) == head + triggers_at(rs, list.ungrouped@.subrange(0, j as int)),
        decreases list.ungrouped.len() - j,
    {
        let ghost mid = out@.map_values(|s: String| s@);
        out.push(owned(list.rows[list.ungrouped[j]].trigger.as_str()));
        assert(list.ungrouped@.subrange(0, j + 1).drop_last() =~= list.ungrouped@.subrange(0, j as int));
        assert(out@.map_values(|s: String| s@) =~= mid.push(rs[list.ungrouped@[j as int] as int]));
        j += 1;
    }
    assert(list.ungrouped@.subrange(0, list.ungrouped@.len() as int) =~= list.ungrouped@);
    out
}

/// The triggers of the rows at `idx`, in that order.
pub open spec fn triggers_at(rs: Seq<Seq<char>>, idx: Seq<usize>) -> Seq<Seq<char>>
    decreases idx.len(),
{
    if idx.len() == 0 { Seq::empty() } else { triggers_at(rs, idx.drop_last()).push(rs[idx.last() as int]) }
}

/// The triggers of the open groups among `g`, group after group.
pub open spec fn open_groups(rs: Seq<Seq<char>>, g: Seq<(String, Vec<usize>)>, open: Seq<bool>) -> Seq<Seq<char>>
    decreases g.len(),
{
    if g.len() == 0 {
        Seq::empty()
    } else {
        let k = g.len() - 1;
        open_groups(rs, g.drop_last(), open) + (if k < open.len() && open[k] { triggers_at(rs, g.last().1@) } else { Seq::empty() })
    }
}

/// The draw order: the open groups' rows, then the unfiled rows.
pub open spec fn visible_spec(rs: Seq<Seq<char>>, g: Seq<(String, Vec<usize>)>, open: Seq<bool>, u: Seq<usize>) -> Seq<Seq<char>> {
    open_groups(rs, g, open) + triggers_at(rs, u)
}

} // verus!
