//! The search window's results: which expansions match what was typed, best first.

use vstd::prelude::*;
use crate::text::{contains_seq, lowercase_spec, trim_spec, chars_of, to_lowercase, contains, trim, owned};
use crate::model::{MatchEntry, preview_spec};
use crate::datefmt::Now;
use crate::strings::Strings;

verus! {

/// At most this many results are listed.
pub const MAX_RESULTS: usize = 200;

/// One result.
pub struct Hit {
    pub trigger: String,
    pub preview: String,
}

/// Every simple expansion as (trigger, one-line preview), in file order.
pub open spec fn all_spec(es: Seq<MatchEntry>, t: Strings, local: Now, utc: Now) -> Seq<(Seq<char>, Seq<char>)>
    decreases es.len(),
{
    if es.len() == 0 {
        Seq::empty()
    } else {
        let init = all_spec(es.drop_last(), t, local, utc);
        match es.last() {
            MatchEntry::Simple(m) => init.push((m.trigger@, preview_spec(es.last(), t, local, utc))),
            MatchEntry::Advanced(_) => init,
        }
    }
}

/// Every expansion this app manages, as (trigger, one-line preview), for the search window.
pub fn list_all(entries: &[MatchEntry], t: &Strings, local: Now, utc: Now) -> (r: Vec<(String, String)>)
    ensures
        pairs_view(r@) == all_spec(entries@, *t, local, utc),
{
    let mut out: Vec<(String, String)> = Vec::new();
    let mut i: usize = 0;
    while i < entries.len()
        invariant
            i <= entries@.len(),
            pairs_view(out@) == all_spec(entries@.subrange(0, i as int), *t, local, utc),
        decreases entries.len() - i,
    {
        let ghost before = pairs_view(out@);
        assert(entries@.subrange(0, i + 1).drop_last() =~= entries@.subrange(0, i as int));
        assert(entries@.subrange(0, i + 1).last() == entries@[i as int]);
        match &entries[i] {
            MatchEntry::Simple(m) => {
                let p = entries[i].preview(t, local, utc);
                out.push((owned(m.trigger.as_str()), p));
                assert(pairs_view(out@) =~= before.push((m.trigger@, preview_spec(entries@[i as int], *t, local, utc))));
            },
            MatchEntry::Advanced(_) => {},
        }
        i += 1;
    }
    assert(entries@.subrange(0, entries@.len() as int) =~= entries@);
    out
}

/// Pairs of strings as plain values.
pub open spec fn pairs_view(s: Seq<(String, String)>) -> Seq<(Seq<char>, Seq<char>)> {
    s.map_values(|p: (String, String)| (p.0@, p.1@))
}

/// The results as plain values.
pub open spec fn hits_view(s: Seq<Hit>) -> Seq<(Seq<char>, Seq<char>)> {
    s.map_values(|h: Hit| (h.trigger@, h.preview@))
}

/// An item matches on its trigger: every item does for an empty needle.
pub open spec fn trigger_hit(needle: Seq<char>, item: (Seq<char>, Seq<char>)) -> bool {
    needle.len() == 0 || contains_seq(lowercase_spec(item.0), needle)
}

/// An item matches on its text only.
pub open spec fn text_hit(needle: Seq<char>, item: (Seq<char>, Seq<char>)) -> bool {
    !trigger_hit(needle, item) && contains_seq(lowercase_spec(item.1), needle)
}

/// The items that match on their trigger, in order.
pub open spec fn by_trigger(items: Seq<(Seq<char>, Seq<char>)>, needle: Seq<char>) -> Seq<(Seq<char>, Seq<char>)> {
    items.filter(|item: (Seq<char>, Seq<char>)| trigger_hit(needle, item))
}

/// The items that match on their text only, in order.
pub open spec fn by_text(items: Seq<(Seq<char>, Seq<char>)>, needle: Seq<char>) -> Seq<(Seq<char>, Seq<char>)> {
    items.filter(|item: (Seq<char>, Seq<char>)| text_hit(needle, item))
}

/// The results for `query`: the trimmed, lowercased query is looked for in each trigger and each
/// preview, ignoring case; trigger matches come first, then text matches, each in list order, and
/// at most [`MAX_RESULTS`] of them.
pub open spec fn hits_spec(items: Seq<(Seq<char>, Seq<char>)>, query: Seq<char>) -> Seq<(Seq<char>, Seq<char>)> {
    let needle = lowercase_spec(trim_spec(query));
    let all = by_trigger(items, needle) + by_text(items, needle);
    if all.len() <= MAX_RESULTS { all } else { all.take(MAX_RESULTS as int) }
}

/// The expansions matching the query, best first.
///
/// Matches on the trigger *and* on the replacement text, because half the time you remember what
/// the expansion says rather than what you named it. A trigger match sorts first: if you typed
/// something that looks like a trigger, that is almost certainly what you meant.
pub fn hits(list: Vec<(String, String)>, query: &str) -> (r: Vec<Hit>)
    ensures
        hits_view(r@) == hits_spec(pairs_view(list@), query@),
{
    let ghost items = pairs_view(list@);
    let trimmed = trim(query);
    let low = to_lowercase(trimmed.as_str());
    let needle = chars_of(low.as_str());
    let ghost nd = lowercase_spec(trim_spec(query@));
    let mut by_trig: Vec<Hit> = Vec::new();
    let mut by_txt: Vec<Hit> = Vec::new();
    let mut rest = list;
    let mut i: usize = 0;
    let n = rest.len();
    while rest.len() > 0
        invariant
            needle@ == nd,
            i + rest@.len() == n == items.len(),
            pairs_view(rest@) == items.subrange(i as int, n as int),
            hits_view(by_trig@) == by_trigger(items.subrange(0, i as int), nd),
            hits_view(by_txt@) == by_text(items.subrange(0, i as int), nd),
        decreases rest.len(),
    {
        let ghost old_rest = rest@;
        let (trigger, preview) = rest.remove(0);
        let ghost item = (trigger@, preview@);
        assert(pairs_view(rest@) =~= pairs_view(old_rest).drop_first());
        assert(pairs_view(old_rest)[0] == item);
        assert(item == items[i as int]) by {
            assert(items.subrange(i as int, n as int)[0] == items[i as int]);
        }
        assert(pairs_view(rest@) =~= items.subrange(i + 1, n as int));
        let ghost head = items.subrange(0, i + 1);
        assert(head.drop_last() =~= items.subrange(0, i as int));
        assert(head.last() == item);
        let on_trigger = needle.len() == 0 || {
            let t = to_lowercase(trigger.as_str());
            contains(chars_of(t.as_str()).as_slice(), needle.as_slice())
        };
        if on_trigger {
            let ghost before = hits_view(by_trig@);
            by_trig.push(Hit { trigger, preview });
            proof {
                assert(hits_view(by_trig@) =~= before.push(item));
                lemma_filter_push(items.subrange(0, i as int), item, |x: (Seq<char>, Seq<char>)| trigger_hit(nd, x));
                lemma_filter_push(items.subrange(0, i as int), item, |x: (Seq<char>, Seq<char>)| text_hit(nd, x));
                assert(head =~= items.subrange(0, i as int).push(item));
            }
        } else {
            let t = to_lowercase(preview.as_str());
            let on_text = contains(chars_of(t.as_str()).as_slice(), needle.as_slice());
            proof {
                lemma_filter_push(items.subrange(0, i as int), item, |x: (Seq<char>, Seq<char>)| trigger_hit(nd, x));
                lemma_filter_push(items.subrange(0, i as int), item, |x: (Seq<char>, Seq<char>)| text_hit(nd, x));
                assert(head =~= items.subrange(0, i as int).push(item));
            }
            if on_text {
                let ghost before = hits_view(by_txt@);
                by_txt.push(Hit { trigger, preview });
                assert(hits_view(by_txt@) =~= before.push(item));
            }
        }
        i += 1;
    }
    assert(items.subrange(0, n as int) =~= items);
    let ghost a = hits_view(by_trig@);
    let ghost b = hits_view(by_txt@);
    by_trig.append(&mut by_txt);
    assert(hits_view(by_trig@) =~= a + b);
    if by_trig.len() > MAX_RESULTS {
        by_trig.truncate(MAX_RESULTS);
        assert(hits_view(by_trig@) =~= (a + b).take(MAX_RESULTS as int));
    }
    by_trig
}

proof fn lemma_filter_push(s: Seq<(Seq<char>, Seq<char>)>, x: (Seq<char>, Seq<char>), p: spec_fn((Seq<char>, Seq<char>)) -> bool)
    ensures
        s.push(x).filter(p) == (if p(x) { s.filter(p).push(x) } else { s.filter(p) }),
{
    reveal(Seq::filter);
    assert(s.push(x).drop_last() =~= s);
}


proof fn lemma_split_len(items: Seq<(Seq<char>, Seq<char>)>, needle: Seq<char>)
    ensures
        by_trigger(items, needle).len() + by_text(items, needle).len() <= items.len(),
    decreases items.len(),
{
    if items.len() > 0 {
        let init = items.drop_last();
        let x = items.last();
        lemma_split_len(init, needle);
        assert(init.push(x) =~= items);
        lemma_filter_push(init, x, |y: (Seq<char>, Seq<char>)| trigger_hit(needle, y));
        lemma_filter_push(init, x, |y: (Seq<char>, Seq<char>)| text_hit(needle, y));
    }
}

/// Whether the item shows for `needle` at all: on its trigger or on its text, ignoring case.
pub open spec fn found(needle: Seq<char>, item: (Seq<char>, Seq<char>)) -> bool {
    needle.len() == 0 || contains_seq(lowercase_spec(item.0), needle) || contains_seq(lowercase_spec(item.1), needle)
}

/// The search finds an expansion exactly when the trimmed query, lower-cased, occurs in its trigger
/// or in its text, both lower-cased — so the case of the trigger, of the text and of the query make
/// no difference — as long as the list is not longer than the results can be.
pub proof fn law_search_finds_ignoring_case(items: Seq<(Seq<char>, Seq<char>)>, query: Seq<char>, i: int)
    requires
        0 <= i < items.len(),
        items.len() <= MAX_RESULTS,
    ensures
        hits_spec(items, query).contains(items[i]) <==> found(lowercase_spec(trim_spec(query)), items[i]),
{
    broadcast use vstd::seq_lib::group_filter_ensures;
    let needle = lowercase_spec(trim_spec(query));
    let pt = |y: (Seq<char>, Seq<char>)| trigger_hit(needle, y);
    let px = |y: (Seq<char>, Seq<char>)| text_hit(needle, y);
    let a = by_trigger(items, needle);
    let b = by_text(items, needle);
    lemma_split_len(items, needle);
    assert(hits_spec(items, query) == a + b);
    let x = items[i];
    #[allow(deprecated)]
    items.filter_lemma(pt);
    #[allow(deprecated)]
    items.filter_lemma(px);
    if found(needle, x) {
        if trigger_hit(needle, x) {
            assert(a.contains(x));
            let k = choose|k: int| 0 <= k < a.len() && a[k] == x;
            assert((a + b)[k] == x);
        } else {
            assert(text_hit(needle, x));
            assert(b.contains(x));
            let k = choose|k: int| 0 <= k < b.len() && b[k] == x;
            assert((a + b)[a.len() + k] == x);
        }
    }
    if (a + b).contains(x) {
        let k = choose|k: int| 0 <= k < (a + b).len() && (a + b)[k] == x;
        if k < a.len() {
            assert(a[k] == x);
            assert(trigger_hit(needle, a[k]));
        } else {
            assert(b[k - a.len()] == x);
            assert(text_hit(needle, b[k - a.len()]));
        }
    }
}

/// Trigger matches come first: in the results, every expansion that matches on its trigger comes
/// before every one that matches only on its text.
pub proof fn law_trigger_matches_first(items: Seq<(Seq<char>, Seq<char>)>, query: Seq<char>, j: int, k: int)
    requires
        0 <= j < k < hits_spec(items, query).len(),
        ({
            let needle = lowercase_spec(trim_spec(query));
            needle.len() == 0 || contains_seq(lowercase_spec(hits_spec(items, query)[k].0), needle)
        }),
    ensures
        ({
            let needle = lowercase_spec(trim_spec(query));
            needle.len() == 0 || contains_seq(lowercase_spec(hits_spec(items, query)[j].0), needle)
        }),
{
    broadcast use vstd::seq_lib::group_filter_ensures;
    let needle = lowercase_spec(trim_spec(query));
    let pt = |y: (Seq<char>, Seq<char>)| trigger_hit(needle, y);
    let px = |y: (Seq<char>, Seq<char>)| text_hit(needle, y);
    let a = by_trigger(items, needle);
    let b = by_text(items, needle);
    #[allow(deprecated)]
    items.filter_lemma(pt);
    #[allow(deprecated)]
    items.filter_lemma(px);
    let h = hits_spec(items, query);
    assert(forall|m: int| 0 <= m < h.len() ==> #[trigger] h[m] == (a + b)[m]);
    if k >= a.len() {
        assert(text_hit(needle, b[k - a.len()]));
        assert(h[k] == b[k - a.len()]);
    }
    assert(k < a.len());
    assert(h[j] == a[j]);
    assert(trigger_hit(needle, a[j]));
}

/// The keys the search window reacts to, as pressed this frame.
#[derive(Debug, Clone, Copy, PartialEq, Eq, Structural)]
pub struct SearchKeys {
    pub up: bool,
    pub down: bool,
    pub enter: bool,
    pub escape: bool,
}

/// What the search window does after this frame's keys.
#[derive(Debug, Clone, Copy, PartialEq, Eq, Structural)]
pub enum SearchStep {
    /// Esc: the window closes.
    Close,
    /// Enter on a result: hand over the one at this index.
    Choose(usize),
    /// Keep browsing, with this result highlighted.
    Browse,
}

/// The highlight kept inside a list of `count` results after it shrank under a longer query.
pub open spec fn clamped(selected: int, count: int) -> int {
    if selected >= count { if count == 0 { 0 } else { count - 1 } } else { selected }
}

/// The highlight after the arrow keys: Down goes to the next result and from the last back to the
/// first; Up the other way round. Both keys in one frame apply Down first.
pub open spec fn moved_highlight(selected: int, count: int, up: bool, down: bool) -> int {
    let s = clamped(selected, count);
    let s = if down && count > 0 { (s + 1) % count } else { s };
    if up && count > 0 { if s == 0 { count - 1 } else { s - 1 } } else { s }
}

/// Applies this frame's keys to the highlight `selected` over `count` results: the new highlight,
/// whether the list should scroll to it, and what happens next.
pub fn search_keys(selected: usize, count: usize, keys: SearchKeys) -> (r: (usize, bool, SearchStep))
    ensures
        keys.escape ==> r.0 == clamped(selected as int, count as int) && r.2 == SearchStep::Close,
        !keys.escape ==> ({
            let h = moved_highlight(selected as int, count as int, keys.up, keys.down);
            &&& r.0 == h
            &&& r.1 == ((keys.up || keys.down) && count > 0)
            &&& r.2 == (if keys.enter && h < count { SearchStep::Choose(h as usize) } else { SearchStep::Browse })
        }),
{
    let mut sel = selected;
    if sel >= count {
        sel = if count == 0 { 0 } else { count - 1 };
    }
    if keys.escape {
        return (sel, false, SearchStep::Close);
    }
    let mut follow = false;
    if keys.down && count > 0 {
        sel = (sel + 1) % count;
        follow = true;
    }
    if keys.up && count > 0 {
        sel = if sel == 0 { count - 1 } else { sel - 1 };
        follow = true;
    }
    if keys.enter && sel < count {
        (sel, follow, SearchStep::Choose(sel))
    } else {
        (sel, follow, SearchStep::Browse)
    }
}

/// Whether espanso is asked to expand a handed-over trigger, given whether the window it was meant
/// for took the keyboard back and whether the trigger could be typed there. Espanso answers with
/// one backspace per character of the trigger: when the typing was refused (a window of an
/// elevated program), those backspaces would eat the user's own text, so nothing is asked.
pub fn request_after_typing(focused: bool, typed: bool) -> (r: bool)
    ensures
        r == (!focused || typed),
{
    !focused || typed
}

} // verus!
