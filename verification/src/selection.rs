//! Which rows of the list are checked, for the bulk actions, and where a Shift-click range starts.
//!
//! Rows are named by trigger. Clicks follow the conventions of a Windows file list: a plain click
//! selects just that row, Ctrl adds or removes one, and Shift extends from the last row clicked on
//! its own.

use vstd::prelude::*;
use crate::text::{chars_of, chars_eq, str_eq, owned};
use crate::order::{str_lt, strictly_sorted, insert_sorted_unique, less_than, lemma_lt_trichotomy,
    lemma_lt_transitive, lemma_lt_irreflexive};
use crate::settings::Settings;

verus! {

/// The checked rows and the Shift-click anchor.
pub struct Selection {
    selected: Vec<String>,
    anchor: Option<String>,
}

/// Strings as plain values.
pub open spec fn strs(v: Seq<String>) -> Seq<Seq<char>> {
    v.map_values(|s: String| s@)
}

/// The first position of `x` in `s`, if it is there.
pub open spec fn index_of(s: Seq<Seq<char>>, x: Seq<char>) -> Option<int>
    decreases s.len(),
{
    if s.len() == 0 {
        None
    } else if s[0] == x {
        Some(0)
    } else {
        match index_of(s.drop_first(), x) {
            Some(i) => Some(i + 1),
            None => None,
        }
    }
}

/// The selection a click produces, as (checked rows, anchor).
pub open spec fn click_spec(sel: Set<Seq<char>>, anchor: Option<Seq<char>>, trigger: Seq<char>, ctrl: bool, shift: bool, order: Seq<Seq<char>>)
    -> (Set<Seq<char>>, Option<Seq<char>>)
{
    let range = match anchor {
        Some(a) => match (index_of(order, a), index_of(order, trigger)) {
            (Some(x), Some(y)) => Some(if x <= y { (x, y) } else { (y, x) }),
            _ => None,
        },
        None => None,
    };
    if shift && range is Some {
        let (lo, hi) = range->0;
        ((if ctrl { sel } else { Set::empty() }) + order.subrange(lo, hi + 1).to_set(), anchor)
    } else if ctrl {
        (toggle_spec(sel, trigger), Some(trigger))
    } else if sel == set![trigger] {
        (Set::empty(), None)
    } else {
        (set![trigger], Some(trigger))
    }
}

/// `sel` with `t` added if it was missing and removed if it was there.
pub open spec fn toggle_spec(sel: Set<Seq<char>>, t: Seq<char>) -> Set<Seq<char>> {
    if sel.contains(t) { sel.remove(t) } else { sel.insert(t) }
}

fn remove_sorted(list: &mut Vec<String>, s: &str) -> (r: bool)
    requires
        strictly_sorted(strs(old(list)@)),
    ensures
        strictly_sorted(strs(final(list)@)),
        strs(final(list)@).to_set() == strs(old(list)@).to_set().remove(s@),
        r == strs(old(list)@).to_set().contains(s@),
{
    let ghost v = strs(list@);
    let sv = chars_of(s);
    let mut i: usize = 0;
    while i < list.len()
        invariant
            i <= list@.len(),
            strs(list@) == v,
            v == strs(old(list)@),
            strictly_sorted(v),
            sv@ == s@,
            forall|k: int| 0 <= k < i ==> #[trigger] v[k] != s@,
        decreases list.len() - i,
    {
        if chars_eq(chars_of(list[i].as_str()).as_slice(), sv.as_slice()) {
            list.remove(i);
            proof {
                let nv = strs(list@);
                assert(nv =~= v.remove(i as int));
                assert forall|a: int, b: int| 0 <= a < b < nv.len() implies str_lt(#[trigger] nv[a], #[trigger] nv[b]) by {
                    if b < i {
                        assert(nv[a] == v[a] && nv[b] == v[b]);
                    } else if a < i {
                        assert(nv[a] == v[a] && nv[b] == v[b + 1]);
                    } else {
                        assert(nv[a] == v[a + 1] && nv[b] == v[b + 1]);
                    }
                }
                assert forall|x: Seq<char>| #[trigger] nv.to_set().contains(x) == v.to_set().remove(s@).contains(x) by {
                    if nv.contains(x) {
                        let k = choose|k: int| 0 <= k < nv.len() && nv[k] == x;
                        if k < i {
                            assert(v[k] == x);
                            if x == s@ {
                                assert(str_lt(v[k], v[i as int]));
                                lemma_lt_irreflexive(x);
                            }
                        } else {
                            assert(v[k + 1] == x);
                            if x == s@ {
                                assert(str_lt(v[i as int], v[k + 1]));
                                lemma_lt_irreflexive(x);
                            }
                        }
                    }
                    if v.contains(x) && x != s@ {
                        let k = choose|k: int| 0 <= k < v.len() && v[k] == x;
                        assert(k != i);
                        if k < i {
                            assert(nv[k] == x);
                        } else {
                            assert(nv[k - 1] == x);
                        }
                    }
                }
                assert(nv.to_set() =~= v.to_set().remove(s@));
                assert(v[i as int] == s@);
                assert(v.to_set().contains(s@));
            }
            return true;
        }
        i += 1;
    }
    proof {
        assert(!v.to_set().contains(s@)) by {
            if v.contains(s@) {
                let k = choose|k: int| 0 <= k < v.len() && v[k] == s@;
                assert(v[k] != s@);
            }
        }
        assert(v.to_set().remove(s@) =~= v.to_set());
    }
    false
}

fn position(order: &[String], x: &str) -> (r: Option<usize>)
    ensures
        match r {
            Some(i) => index_of(strs(order@), x@) == Some(i as int) && i < order@.len(),
            None => index_of(strs(order@), x@) is None,
        },
{
    let xv = chars_of(x);
    let mut i: usize = 0;
    let ghost s = strs(order@);
    assert(s.subrange(0, s.len() as int) =~= s);
    while i < order.len()
        invariant
            i <= order@.len(),
            s == strs(order@),
            xv@ == x@,
            index_of(s, x@) == (match index_of(s.subrange(i as int, s.len() as int), x@) {
                Some(k) => Some(k + i),
                None => None,
            }),
        decreases order.len() - i,
    {
        let ghost rest = s.subrange(i as int, s.len() as int);
        assert(rest.drop_first() =~= s.subrange(i + 1, s.len() as int));
        assert(rest[0] == order@[i as int]@);
        if chars_eq(chars_of(order[i].as_str()).as_slice(), xv.as_slice()) {
            return Some(i);
        }
        i += 1;
    }
    assert(s.subrange(i as int, s.len() as int).len() == 0);
    None
}

proof fn lemma_index_of_bounds(s: Seq<Seq<char>>, x: Seq<char>)
    ensures
        index_of(s, x) matches Some(i) ==> 0 <= i < s.len() && s[i] == x,
    decreases s.len(),
{
    if s.len() > 0 && s[0] != x {
        lemma_index_of_bounds(s.drop_first(), x);
    }
}

impl View for Selection {
    type V = (Set<Seq<char>>, Option<Seq<char>>);

    closed spec fn view(&self) -> (Set<Seq<char>>, Option<Seq<char>>) {
        (strs(self.selected@).to_set(), match self.anchor { Some(a) => Some(a@), None => None })
    }
}

impl Selection {
    /// The selection is well formed.
    pub closed spec fn wf(&self) -> bool {
        strictly_sorted(strs(self.selected@))
    }

    /// Nothing checked, no anchor.
    pub fn new() -> (r: Selection)
        ensures
            r.wf(),
            r@ == (Set::<Seq<char>>::empty(), None::<Seq<char>>),
    {
        let r = Selection { selected: Vec::new(), anchor: None };
        assert(strs(r.selected@).to_set() =~= Set::<Seq<char>>::empty());
        r
    }

    /// How many rows are checked.
    pub fn len(&self) -> (r: usize)
        requires
            self.wf(),
        ensures
            r == self@.0.len(),
    {
        proof {
            lemma_sorted_distinct(strs(self.selected@));
            strs(self.selected@).unique_seq_to_set();
        }
        self.selected.len()
    }

    /// Whether `trigger` is checked.
    pub fn contains(&self, trigger: &str) -> (r: bool)
        requires
            self.wf(),
        ensures
            r == self@.0.contains(trigger@),
    {
        let ghost v = strs(self.selected@);
        let tv = chars_of(trigger);
        let mut i: usize = 0;
        while i < self.selected.len()
            invariant
                i <= v.len(),
                v == strs(self.selected@),
                tv@ == trigger@,
                forall|k: int| 0 <= k < i ==> #[trigger] v[k] != trigger@,
            decreases self.selected.len() - i,
        {
            if chars_eq(chars_of(self.selected[i].as_str()).as_slice(), tv.as_slice()) {
                assert(v[i as int] == trigger@);
                return true;
            }
            i += 1;
        }
        proof {
            if v.contains(trigger@) {
                let k = choose|k: int| 0 <= k < v.len() && v[k] == trigger@;
                assert(v[k] != trigger@);
            }
        }
        false
    }

    /// The checked triggers, A→Z, each once.
    pub fn items(&self) -> (r: Vec<String>)
        requires
            self.wf(),
        ensures
            strictly_sorted(strs(r@)),
            strs(r@).to_set() == self@.0,
    {
        let mut out: Vec<String> = Vec::new();
        let mut i: usize = 0;
        while i < self.selected.len()
            invariant
                i <= self.selected@.len(),
                strs(out@) == strs(self.selected@).subrange(0, i as int),
            decreases self.selected.len() - i,
        {
            let ghost before = strs(out@);
            out.push(owned(self.selected[i].as_str()));
            assert(strs(out@) =~= before.push(self.selected@[i as int]@));
            assert(strs(self.selected@).subrange(0, i + 1) =~= strs(self.selected@).subrange(0, i as int).push(self.selected@[i as int]@));
            i += 1;
        }
        assert(strs(self.selected@).subrange(0, self.selected@.len() as int) =~= strs(self.selected@));
        out
    }

    /// What a drag starting on the row of `trigger` carries: the whole selection when that row is
    /// checked (A→Z), otherwise just that row.
    pub fn drag_payload(&self, trigger: &str) -> (r: Vec<String>)
        requires
            self.wf(),
        ensures
            self@.0.contains(trigger@) ==> strictly_sorted(strs(r@)) && strs(r@).to_set() == self@.0,
            !self@.0.contains(trigger@) ==> strs(r@) == seq![trigger@],
    {
        if self.contains(trigger) {
            self.items()
        } else {
            let v = vec![owned(trigger)];
            assert(strs(v@) =~= seq![trigger@]);
            v
        }
    }

    /// Where a Shift-click range starts.
    pub fn anchor(&self) -> (r: Option<&str>)
        ensures
            match r { Some(a) => self@.1 == Some(a@), None => self@.1 is None },
    {
        match &self.anchor {
            Some(a) => Some(a.as_str()),
            None => None,
        }
    }

    /// Checks or unchecks one row, which becomes the anchor.
    pub fn toggle_selected(&mut self, trigger: &str)
        requires
            old(self).wf(),
        ensures
            final(self).wf(),
            final(self)@ == (toggle_spec(old(self)@.0, trigger@), Some(trigger@)),
    {
        if !remove_sorted(&mut self.selected, trigger) {
            insert_sorted_unique(&mut self.selected, trigger);
        }
        self.anchor = Some(owned(trigger));
    }

    /// Unchecks everything and forgets the anchor.
    pub fn clear(&mut self)
        ensures
            final(self).wf(),
            final(self)@ == (Set::<Seq<char>>::empty(), None::<Seq<char>>),
    {
        self.selected = Vec::new();
        self.anchor = None;
        assert(strs(self.selected@).to_set() =~= Set::<Seq<char>>::empty());
    }

    /// Handles a click on a row. `visible_order` is the list exactly as drawn, so a Shift range
    /// covers what the user sees between the two rows, and the anchor stays put so that moving the
    /// Shift-click around grows and shrinks the same range. A plain click on the one checked row
    /// unchecks it; on any other row it leaves just that row checked.
    pub fn click_select(&mut self, trigger: &str, ctrl: bool, shift: bool, visible_order: &[String])
        requires
            old(self).wf(),
        ensures
            final(self).wf(),
            final(self)@ == click_spec(old(self)@.0, old(self)@.1, trigger@, ctrl, shift, strs(visible_order@)),
    {
        let ghost sel0 = self@.0;
        let ghost order = strs(visible_order@);
        if shift {
            let range = match &self.anchor {
                Some(a) => match (position(visible_order, a.as_str()), position(visible_order, trigger)) {
                    (Some(x), Some(y)) => Some(if x <= y { (x, y) } else { (y, x) }),
                    _ => None,
                },
                None => None,
            };
            match range {
                Some((lo, hi)) => {
                    if !ctrl {
                        self.selected = Vec::new();
                        assert(strs(self.selected@).to_set() =~= Set::<Seq<char>>::empty());
                    }
                    let ghost base = strs(self.selected@).to_set();
                    let mut k: usize = lo;
                    while k <= hi
                        invariant
                            lo <= k <= hi + 1,
                            hi < visible_order@.len(),
                            order == strs(visible_order@),
                            strictly_sorted(strs(self.selected@)),
                            self.anchor == old(self).anchor,
                            strs(self.selected@).to_set() == base + order.subrange(lo as int, k as int).to_set(),
                        decreases hi + 1 - k,
                    {
                        insert_sorted_unique(&mut self.selected, visible_order[k].as_str());
                        proof {
                            assert(order.subrange(lo as int, k + 1) =~= order.subrange(lo as int, k as int).push(order[k as int]));
                            lemma_push_set(order.subrange(lo as int, k as int), order[k as int]);
                            assert(base + order.subrange(lo as int, k + 1).to_set()
                                =~= (base + order.subrange(lo as int, k as int).to_set()).insert(order[k as int]));
                        }
                        k += 1;
                    }
                    proof {
                        let spec_r = click_spec(sel0, old(self)@.1, trigger@, ctrl, shift, order);
                        assert(self@.1 == old(self)@.1);
                        assert(self@.0 =~= spec_r.0);
                    }
                    return;
                },
                None => {},
            }
        }
        if ctrl {
            self.toggle_selected(trigger);
            return;
        }
        let only_this = self.len() == 1 && self.contains(trigger);
        proof {
            lemma_sorted_distinct(strs(self.selected@));
            strs(self.selected@).unique_seq_to_set();
            if self.selected@.len() == 1 && sel0.contains(trigger@) {
                lemma_single(strs(self.selected@), trigger@);
            }
            if sel0 == set![trigger@] {
                vstd::set::axiom_set_insert_len(Set::<Seq<char>>::empty(), trigger@);
                assert(sel0.len() == 1);
                assert(sel0.contains(trigger@));
            }
        }
        assert(only_this == (sel0 == set![trigger@]));
        self.selected = Vec::new();
        if only_this {
            self.anchor = None;
            assert(strs(self.selected@).to_set() =~= Set::<Seq<char>>::empty());
        } else {
            self.selected.push(owned(trigger));
            self.anchor = Some(owned(trigger));
            assert(strs(self.selected@) =~= seq![trigger@]);
            assert(strictly_sorted(strs(self.selected@)));
            assert(seq![trigger@].to_set() =~= set![trigger@]) by {
                assert(seq![trigger@][0] == trigger@);
            }
        }
    }

    /// Follows a renamed expansion through the selection: a trigger is not an identity, it is the
    /// one thing about an expansion the user is most likely to change.
    pub fn rename(&mut self, old_t: &str, new_t: &str)
        requires
            old(self).wf(),
        ensures
            final(self).wf(),
            final(self)@.0 == (if old(self)@.0.contains(old_t@) { old(self)@.0.remove(old_t@).insert(new_t@) } else { old(self)@.0 }),
            final(self)@.1 == (if old(self)@.1 == Some(old_t@) { Some(new_t@) } else { old(self)@.1 }),
    {
        if remove_sorted(&mut self.selected, old_t) {
            insert_sorted_unique(&mut self.selected, new_t);
        }
        let hit = match &self.anchor {
            Some(a) => str_eq(a.as_str(), old_t),
            None => false,
        };
        if hit {
            self.anchor = Some(owned(new_t));
        }
    }

    /// Drops a deleted expansion from the selection, and the anchor with it.
    pub fn forget(&mut self, trigger: &str)
        requires
            old(self).wf(),
        ensures
            final(self).wf(),
            final(self)@.0 == old(self)@.0.remove(trigger@),
            final(self)@.1 == (if old(self)@.1 == Some(trigger@) { None } else { old(self)@.1 }),
    {
        remove_sorted(&mut self.selected, trigger);
        let hit = match &self.anchor {
            Some(a) => str_eq(a.as_str(), trigger),
            None => false,
        };
        if hit {
            self.anchor = None;
        }
    }

    /// Whether some checked expansion sits in a folder — the "remove from its folder" action is
    /// meaningless, and stays hidden, otherwise.
    pub fn has_foldered(&self, settings: &Settings) -> (r: bool)
        requires
            self.wf(),
            settings.wf(),
        ensures
            r == exists|t: Seq<char>| self@.0.contains(t) && settings.folder_by_trigger@.dom().contains(t),
    {
        let ghost v = strs(self.selected@);
        let mut i: usize = 0;
        while i < self.selected.len()
            invariant
                i <= v.len(),
                v == strs(self.selected@),
                settings.wf(),
                forall|k: int| 0 <= k < i ==> !settings.folder_by_trigger@.dom().contains(#[trigger] v[k]),
            decreases self.selected.len() - i,
        {
            if settings.folder_of(self.selected[i].as_str()).is_some() {
                assert(v.contains(v[i as int]));
                assert(self@.0.contains(v[i as int]));
                return true;
            }
            i += 1;
        }
        proof {
            assert forall|t: Seq<char>| self@.0.contains(t) implies !settings.folder_by_trigger@.dom().contains(t) by {
                let k = choose|k: int| 0 <= k < v.len() && v[k] == t;
                assert(!settings.folder_by_trigger@.dom().contains(v[k]));
            }
        }
        false
    }
}

proof fn lemma_push_set(s: Seq<Seq<char>>, x: Seq<char>)
    ensures
        s.push(x).to_set() == s.to_set().insert(x),
{
    assert forall|a: Seq<char>| #[trigger] s.push(x).to_set().contains(a) == s.to_set().insert(x).contains(a) by {
        if s.push(x).contains(a) {
            let i = choose|i: int| 0 <= i < s.push(x).len() && s.push(x)[i] == a;
            if i < s.len() {
                assert(s[i] == a);
            }
        }
        if s.contains(a) {
            let i = choose|i: int| 0 <= i < s.len() && s[i] == a;
            assert(s.push(x)[i] == a);
        }
        if a == x {
            assert(s.push(x)[s.len() as int] == x);
        }
    }
    assert(s.push(x).to_set() =~= s.to_set().insert(x));
}

proof fn lemma_sorted_distinct(s: Seq<Seq<char>>)
    requires
        strictly_sorted(s),
    ensures
        s.no_duplicates(),
{
    assert forall|i: int, j: int| 0 <= i < s.len() && 0 <= j < s.len() && i != j implies s[i] != s[j] by {
        if i < j {
            assert(str_lt(s[i], s[j]));
            lemma_lt_irreflexive(s[i]);
        } else {
            assert(str_lt(s[j], s[i]));
            lemma_lt_irreflexive(s[j]);
        }
    }
}

proof fn lemma_single(s: Seq<Seq<char>>, x: Seq<char>)
    requires
        s.len() == 1,
        s.to_set().contains(x),
    ensures
        s.to_set() == set![x],
{
    assert(s[0] == x);
    assert forall|a: Seq<char>| #[trigger] s.to_set().contains(a) == set![x].contains(a) by {
        if s.contains(a) {
            let i = choose|i: int| 0 <= i < s.len() && s[i] == a;
            assert(i == 0);
        }
        if a == x {
            assert(s[0] == a);
        }
    }
    assert(s.to_set() =~= set![x]);
}

// ---------------------------------------------------------------------------------------------
// Laws
// ---------------------------------------------------------------------------------------------

/// Ctrl-clicking the same row twice leaves the checked rows as they were.
pub proof fn law_ctrl_click_twice_restores(sel: Set<Seq<char>>, t: Seq<char>)
    ensures
        toggle_spec(toggle_spec(sel, t), t) == sel,
{
    assert(toggle_spec(toggle_spec(sel, t), t) =~= sel);
}

/// A plain click leaves exactly the clicked row checked, unless it was the only one checked, in
/// which case nothing is; and a Shift-click always covers both ends of its range.
pub proof fn law_click_results(sel: Set<Seq<char>>, anchor: Option<Seq<char>>, t: Seq<char>, order: Seq<Seq<char>>)
    ensures
        click_spec(sel, anchor, t, false, false, order).0 == (if sel == set![t] { Set::<Seq<char>>::empty() } else { set![t] }),
        (anchor matches Some(a) && index_of(order, a) is Some && index_of(order, t) is Some) ==> ({
            let r = click_spec(sel, anchor, t, false, true, order);
            &&& r.0.contains(t)
            &&& r.0.contains(anchor->0)
            &&& r.1 == anchor
        }),
{
    lemma_index_of_bounds(order, t);
    if anchor is Some {
        let a = anchor->0;
        lemma_index_of_bounds(order, a);
        if index_of(order, a) is Some && index_of(order, t) is Some {
            let x = index_of(order, a)->0;
            let y = index_of(order, t)->0;
            let (lo, hi) = if x <= y { (x, y) } else { (y, x) };
            let sub = order.subrange(lo, hi + 1);
            assert(sub[x - lo] == a);
            assert(sub[y - lo] == t);
            assert(sub.to_set().contains(a));
            assert(sub.to_set().contains(t));
        }
    }
}

} // verus!
